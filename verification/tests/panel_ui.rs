use cpn_panel::guest::PackageFamily;
use cpn_panel::panel_prefs::{set_show_document_roots, PanelUiPrefs};
use cpn_panel::panel_sidebar::{
    brand_mark_svg, search_catalog_json, sidebar_extra_styles, sidebar_header_html,
    sidebar_search_and_ip_script, HostSidebarInfo,
};
use cpn_panel::panel_webauthn::RegisterAuthenticatorKind;
use cpn_panel::panel_webauthn_client::{passkey_client_script, passkey_user_message_logic_js};
use cpn_panel::paths::{
    cli_bin_path, data_dir_display, default_data_dir, installer_bin_path,
    installer_bootstrap_token_path, join_data, legacy_panel_backups_dir, panel_backups_dir,
    panel_home_dir, persist_bootstrap_token_for_startup, platform_data_dir,
    INSTALLER_BOOTSTRAP_TOKEN_FILE, UNIX_DATA_DIR,
};
use cpn_panel::port_redirect::{host_header, redirect_page, request_path};
use cpn_panel::postfix_fallback::{
    ensure_postfix_default, postfix_guest_refusal, postfix_is_ready, postfix_local_smtp,
    require_postfix_smtp_ready,
};

fn host() -> HostSidebarInfo {
    HostSidebarInfo { ip: "10.0.2.15".into(), uptime: "3 days".into() }
}

#[test]
fn brand_mark_is_original_cpn() {
    let svg = brand_mark_svg();
    assert!(svg.contains("cpn-brand-mark"));
    assert!(!svg.to_lowercase().contains("cyberpanel"));
    assert!(!svg.contains("lightning"));
}

#[test]
fn catalog_includes_email_and_dns() {
    let json = search_catalog_json();
    assert!(json.contains("/email"));
    assert!(json.contains("Cloudflare DNS") || json.contains("/server/dns/zones"));
}

#[test]
fn catalog_is_escaped_json_array() {
    let json = search_catalog_json();
    assert!(json.starts_with("[{\"label\":\"Dashboard\",\"href\":\"/dashboard\",\"keywords\":\"overview home\"},"));
    assert!(json.contains("\"label\":\"Databases &amp; FTP\""));
    assert!(json.ends_with("\"keywords\":\"manage preview\"}]"));
    assert_eq!(json.matches("{\"label\"").count(), 19);
}

#[test]
fn header_embeds_blurred_ip_and_search() {
    let html = sidebar_header_html("Admin", &host());
    assert!(html.contains("Search menu"));
    assert!(html.contains("cpn-ip-blur is-blurred"));
    assert!(html.contains("data-ip="));
    assert!(html.contains("Uptime:"));
    assert!(html.contains("CPN Panel"));
}

#[test]
fn header_escapes_user_and_host_values() {
    let html = sidebar_header_html("<b>", &HostSidebarInfo { ip: "\"x".into(), uptime: "1&2".into() });
    assert!(html.contains("<strong>&lt;b&gt;</strong>"));
    assert!(html.contains("data-ip=\"&quot;x\""));
    assert!(html.contains("<strong>1&amp;2</strong>"));
    assert!(sidebar_extra_styles().contains(".cpn-brand-mark"));
    assert!(sidebar_search_and_ip_script().contains("<script>"));
}

#[test]
fn register_script_sends_next_and_prefers_profile_return() {
    let script = passkey_client_script();
    assert!(script.contains("function cpnPasskeyRegisterNext"), "client must compute context-aware return path");
    assert!(script.contains("next:next"), "register finish must send next for server allowlist");
    assert!(
        script.contains("/account/users/modify?notice=Passkey+registered"),
        "profile/edit overlay must return to Modify User"
    );
    assert!(script.contains("finish.redirect||next"), "client must honor server redirect");
    assert!(script.contains("function cpnShowPasskeyError"), "login/2FA must surface high-contrast passkey errors");
    assert!(script.contains("function cpnMfaPasskey"), "2FA page must offer passkey assertion");
    assert!(
        script.contains("function cpnPreferLocalhostForPasskeys"),
        "passkey ceremonies must redirect 127.0.0.1 to localhost"
    );
    assert!(script.contains("location.replace(dest)"), "localhost redirect must replace the current page");
}

#[test]
fn error_mapper_does_not_treat_w3c_url_as_cancel() {
    let logic = passkey_user_message_logic_js();
    assert!(!logic.contains("/w3\\.org\\/TR\\/webauthn/i.test"), "W3C URL alone must not map to cancelled/timed out");
    assert!(logic.contains("name==='NotAllowedError'"), "NotAllowedError must have its own friendly branch");
    assert!(logic.contains("name==='AbortError'"), "AbortError must map to cancelled, not a generic timeout");
    assert!(logic.contains("name==='SecurityError'"), "SecurityError/RP ID must stay distinct");
    assert!(logic.contains("name==='NotSupportedError'"), "NotSupportedError must stay distinct from cancel");
    assert!(!logic.contains("cancelled or timed out"), "avoid the old ambiguous cancelled-or-timed-out copy");
    assert!(
        logic.contains("Touch your security key") || logic.contains("approve Windows Hello"),
        "NotAllowedError copy should guide YubiKey / Hello"
    );
}

#[test]
fn status_color_is_high_contrast_on_dark() {
    let script = passkey_client_script();
    assert!(script.contains("#fecaca"), "passkey status errors need a light red on dark theme");
    assert!(script.contains(passkey_user_message_logic_js()));
}

#[test]
fn authenticator_kind_parse() {
    assert_eq!(RegisterAuthenticatorKind::parse(" YubiKey "), RegisterAuthenticatorKind::SecurityKey);
    assert_eq!(RegisterAuthenticatorKind::parse("cross-platform"), RegisterAuthenticatorKind::SecurityKey);
    assert_eq!(RegisterAuthenticatorKind::parse("platform"), RegisterAuthenticatorKind::Flexible);
    assert_eq!(RegisterAuthenticatorKind::parse(""), RegisterAuthenticatorKind::Flexible);
    assert_eq!(RegisterAuthenticatorKind::SecurityKey.as_str(), "security-key");
    assert_eq!(
        RegisterAuthenticatorKind::parse(RegisterAuthenticatorKind::Flexible.as_str()),
        RegisterAuthenticatorKind::Flexible
    );
}

#[test]
fn parses_path_from_request_line() {
    let req = "GET /status?x=1 HTTP/1.1\r\nHost: 127.0.0.1:2087\r\n\r\n";
    assert_eq!(request_path(req), "/status?x=1");
    assert_eq!(host_header(req).as_deref(), Some("127.0.0.1:2087"));
}

#[test]
fn request_defaults_and_redirect_page() {
    assert_eq!(request_path(""), "/");
    assert_eq!(request_path("GET"), "/");
    assert_eq!(host_header("GET / HTTP/1.1\r\n\r\nHost: late\r\n"), None);
    assert_eq!(host_header("GET / HTTP/1.1\nhost:  a.b \n").as_deref(), Some("a.b"));
    assert_eq!(
        redirect_page("http://x/?a=1&b=2"),
        "<!DOCTYPE html><html><head><meta http-equiv=\"refresh\" content=\"0;url=http://x/?a=1&amp;b=2\"></head><body><p>Moved to <a href=\"http://x/?a=1&amp;b=2\">http://x/?a=1&amp;b=2</a></p></body></html>"
    );
}

#[test]
fn platform_defaults_are_absolute_style() {
    let dir = platform_data_dir(false);
    assert!(!dir.is_empty());
    assert_eq!(dir, UNIX_DATA_DIR);
    assert!(platform_data_dir(true).contains("ProgramData"));
}

#[test]
fn bootstrap_token_path_is_under_data_dir() {
    let data = default_data_dir(None, false);
    let path = installer_bootstrap_token_path(&data);
    assert!(path.ends_with(INSTALLER_BOOTSTRAP_TOKEN_FILE));
    assert_eq!(path, "/var/lib/cpn/installer-bootstrap.token");
}

#[test]
fn data_and_panel_paths() {
    assert_eq!(default_data_dir(Some("/tmp/d"), false), "/tmp/d");
    assert_eq!(data_dir_display(None, false), "/var/lib/cpn");
    assert_eq!(join_data("/tmp/d/", "x.json"), "/tmp/d/x.json");
    assert_eq!(panel_home_dir(None, Some(" /srv/sites "), false), "/srv/sites/cpn-panel");
    assert_eq!(panel_home_dir(None, Some("  "), false), "/home/cpn-panel");
    assert_eq!(panel_backups_dir("/home/cpn-panel"), "/home/cpn-panel/backups");
    assert_eq!(legacy_panel_backups_dir("/var/lib/cpn"), "/var/lib/cpn/backups");
    assert_eq!(installer_bin_path(false), "/usr/bin/cpn-installer");
    assert_eq!(cli_bin_path(true), "C:\\Program Files\\CPN\\cpn.exe");
}

#[test]
fn remote_startup_aborts_when_token_persist_fails() {
    let result = persist_bootstrap_token_for_startup(Err("create data dir: Not a directory".into()), true);
    let err = result.expect_err("remote mode must abort when data dir is unusable");
    assert!(err.contains("cannot start with --allow-remote"), "unexpected error: {err}");
}

#[test]
fn local_startup_tolerates_token_persist_failure() {
    let result = persist_bootstrap_token_for_startup(Err("create data dir: Not a directory".into()), false);
    assert_eq!(result.expect("local mode continues"), None);
    assert_eq!(
        persist_bootstrap_token_for_startup(Ok("/var/lib/cpn/installer-bootstrap.token".into()), true).unwrap(),
        Some("/var/lib/cpn/installer-bootstrap.token".to_string())
    );
}

#[test]
fn postfix_fallback_decisions() {
    assert!(postfix_is_ready(false, false, true));
    assert!(!postfix_is_ready(false, false, false));
    let s = postfix_local_smtp("  ops@example.com ", true, 7);
    assert_eq!(s.from_address, "ops@example.com");
    assert_eq!(s.port, 587);
    assert_eq!(postfix_local_smtp("nobody", false, 7).from_address, "cpn-panel@localhost");
    assert_eq!(postfix_local_smtp("nobody", false, 7).port, 25);
    assert!(postfix_guest_refusal(PackageFamily::Windows).is_some());
    assert!(postfix_guest_refusal(PackageFamily::Dnf).is_none());
    assert!(ensure_postfix_default("a@b", false, false, 1).is_err());
    assert!(ensure_postfix_default("a@b", true, false, 1).is_ok());
    assert!(require_postfix_smtp_ready(false).is_err());
}

#[test]
fn document_root_preference() {
    let mut prefs = PanelUiPrefs::default();
    assert!(prefs.show_document_roots);
    let saved = set_show_document_roots(&mut prefs, false);
    assert!(!saved.show_document_roots);
    assert!(!prefs.show_document_roots);
}
