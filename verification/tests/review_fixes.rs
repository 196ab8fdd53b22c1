use cpn_panel::panel_session::{choose_session_secret, fresh_secret_hex, persisted_secret_after_create, persisted_secret_value, session_secret};
use cpn_panel::panel_site_git::{truncate_out, truncate_text};
use cpn_panel::panel_site_terminal::terminal_site_check;
use cpn_panel::panel_website_manage_tools::terminal_page_script;
use cpn_panel::php_defaults::assert_stream_ok;
use cpn_panel::plugin_activation::{check_activation, deactivate_host_plugin_for_domain, is_activated, record_activation, PluginActivation};

#[test]
fn remi_85_stream_is_allowed() {
    assert!(assert_stream_ok("php:remi-8.5", "2026-09-04").is_ok());
}

#[test]
fn session_secret_precedence() {
    let random = [0xabu8; 32];
    assert_eq!(choose_session_secret(Some(" env "), Some("file"), Some("tok"), true, &random), "env");
    assert_eq!(choose_session_secret(Some("  "), Some("file"), Some("tok"), true, &random), "file");
    assert_eq!(choose_session_secret(None, None, Some(" tok "), true, &random), "tok");
    assert_eq!(choose_session_secret(None, Some(""), None, true, &random), "cpn-panel-dev-session");
    assert_eq!(choose_session_secret(None, None, None, false, &random), "ab".repeat(32));
    assert_eq!(persisted_secret_value(Some(" s3cret\n")), Some("s3cret".to_string()));
    assert_eq!(persisted_secret_value(Some("   ")), None);
    let a = fresh_secret_hex();
    assert_eq!(a.len(), 64);
    assert!(a.chars().all(|c| c.is_ascii_hexdigit() && !c.is_ascii_uppercase()));
    assert_ne!(a, fresh_secret_hex());
}

#[test]
fn git_output_is_capped() {
    assert_eq!(truncate_text("short"), "short");
    let long = "x".repeat(70_000);
    let t = truncate_text(&long);
    assert_eq!(t.len(), 65536 + "\n\u{2026}(truncated)".len());
    assert!(t.ends_with("\n\u{2026}(truncated)"));
    assert_eq!(truncate_out(b"ok\n").unwrap(), "ok\n");
    assert!(truncate_out(long.as_bytes()).unwrap().starts_with("xxx"));
    let mut split = "x".repeat(65535);
    split.push('\u{e9}');
    split.push_str(&"y".repeat(10));
    assert!(truncate_out(split.as_bytes()).is_none());
    assert_eq!(truncate_out(&[0xff]).unwrap(), "\u{fffd}");
}

#[test]
fn terminal_site_checks() {
    let f = terminal_site_check(false, true).unwrap();
    assert_eq!((f.status, f.body.as_str()), (403, ""));
    let f = terminal_site_check(true, false).unwrap();
    assert_eq!((f.status, f.body.as_str()), (400, "Site home directory missing"));
    assert!(terminal_site_check(true, true).is_none());
}

#[test]
fn terminal_script_escapes_json() {
    let html = terminal_page_script("a\\b\n", "x\u{1}");
    assert!(html.contains("const domain = \"a\\\\b\\n\";"));
    assert!(html.contains("const csrf = \"x\\u0001\";"));
}

#[test]
fn deactivate_roundtrip() {
    let mut acts: Vec<PluginActivation> = Vec::new();
    record_activation(&mut acts, "example.com", "clamav", 7);
    assert!(is_activated(&acts, "example.com", "clamav"));
    assert_eq!(deactivate_host_plugin_for_domain(&mut acts, "example.com", "clamav"), Ok(()));
    assert!(!is_activated(&acts, "example.com", "clamav"));
    assert_eq!(
        deactivate_host_plugin_for_domain(&mut acts, "example.com", "clamav").unwrap_err(),
        "Plugin `clamav` is not activated for `example.com`"
    );
    assert_eq!(check_activation(&acts, "example.com", "clamav", true), Ok("clamav".to_string()));
}

#[test]
fn session_secret_draws_random_only_as_last_resort() {
    assert_eq!(session_secret(Some(" env "), None, None, false), "env");
    assert_eq!(session_secret(None, None, None, true), "cpn-panel-dev-session");
    let fresh = session_secret(None, Some("  "), Some(""), false);
    assert_eq!(fresh.len(), 64);
    assert!(fresh.chars().all(|c| c.is_ascii_digit() || ('a'..='f').contains(&c)));
}

#[test]
fn persisted_secret_prefers_the_file_then_a_written_fresh_one() {
    assert_eq!(persisted_secret_after_create(Some(" kept \n"), "new".to_string(), true), Some("kept".to_string()));
    assert_eq!(persisted_secret_after_create(Some("  "), "new".to_string(), true), Some("new".to_string()));
    assert_eq!(persisted_secret_after_create(None, "new".to_string(), false), None);
}
