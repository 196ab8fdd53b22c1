use cpn_panel::panel_session::{
    clear_session_cookie_header, create_session_token, read_session_cookie, request_is_https,
    session_cookie_header, verify_session_token,
};
use cpn_panel::panel_site_tools_security::{
    check_terminal_rate_limit, check_tools_rate_limit, site_tools_csrf_token, terminal_csrf_token,
    verify_site_tools_csrf, verify_terminal_csrf, RateTable,
};

const NOW: u64 = 1_773_878_400;

#[test]
fn round_trip_session_token() {
    let secret = "unit-test-secret";
    let token = create_session_token("Admin", secret, NOW);
    assert_eq!(verify_session_token(&token, secret, NOW).as_deref(), Some("Admin"));
    assert!(verify_session_token(&token, "other", NOW).is_none());
}

#[test]
fn session_token_expires_after_ttl() {
    let token = create_session_token("Admin", "s", NOW);
    assert!(verify_session_token(&token, "s", NOW + 43_200).is_some());
    assert!(verify_session_token(&token, "s", NOW + 43_201).is_none());
    assert!(verify_session_token("not base64 !!", "s", NOW).is_none());
}

#[test]
fn cookie_headers_use_samesite_lax() {
    let set = session_cookie_header("abc", false);
    assert!(set.contains("HttpOnly"));
    assert!(set.contains("SameSite=Lax"));
    assert!(!set.contains("Secure"));
    let secure = session_cookie_header("abc", true);
    assert!(secure.contains("Secure"));
    let clear = clear_session_cookie_header(false);
    assert!(clear.contains("Max-Age=0"));
}

#[test]
fn cookie_header_exact_text() {
    assert_eq!(
        session_cookie_header("tok", true),
        "cpn_panel_session=tok; Path=/; HttpOnly; SameSite=Lax; Max-Age=43200; Secure"
    );
    assert_eq!(
        clear_session_cookie_header(false),
        "cpn_panel_session=; Path=/; HttpOnly; SameSite=Lax; Max-Age=0"
    );
}

#[test]
fn reads_session_cookie_among_pairs() {
    assert_eq!(read_session_cookie(None), None);
    assert_eq!(
        read_session_cookie(Some("a=1; cpn_panel_session= xyz ; b=2")).as_deref(),
        Some("xyz")
    );
    assert_eq!(read_session_cookie(Some("cpn_panel_session=; other=1")), None);
    let header = session_cookie_header("abc.def", true);
    assert_eq!(read_session_cookie(Some(&header)).as_deref(), Some("abc.def"));
}

#[test]
fn https_detection_prefers_forwarded_proto() {
    assert!(request_is_https("http", Some("HTTPS, http")));
    assert!(!request_is_https("https", Some(" http")));
    assert!(request_is_https("https", Some("weird")));
    assert!(!request_is_https("http", None));
    assert!(request_is_https("HTTPS", None));
}

#[test]
fn csrf_roundtrip() {
    let secret = "cpn-panel-dev-session";
    let t = site_tools_csrf_token("Admin", "example.com", secret, NOW);
    assert!(verify_site_tools_csrf("Admin", "example.com", &t, secret, NOW));
    assert!(!verify_site_tools_csrf("Other", "example.com", &t, secret, NOW));
    assert!(!verify_site_tools_csrf("Admin", "other.com", &t, secret, NOW));
    let term = terminal_csrf_token("Admin", "example.com", secret, NOW);
    assert!(verify_terminal_csrf("Admin", "example.com", &term, secret, NOW));
    assert!(!verify_site_tools_csrf("Admin", "example.com", &term, secret, NOW));
}

#[test]
fn csrf_window_is_two_hours_back_one_ahead() {
    let secret = "s";
    let t = site_tools_csrf_token("Admin", "example.com", secret, NOW);
    assert!(verify_site_tools_csrf("Admin", "example.com", &t, secret, NOW + 2 * 3600));
    assert!(!verify_site_tools_csrf("Admin", "example.com", &t, secret, NOW + 3 * 3600));
    assert!(verify_site_tools_csrf("Admin", "example.com", &t, secret, NOW - 3600));
    assert!(!verify_site_tools_csrf("Admin", "example.com", &t, secret, NOW - 2 * 3600));
    assert!(!verify_site_tools_csrf("Admin", "example.com", "nodot", secret, NOW));
}

#[test]
fn rate_limits_count_per_window() {
    let mut table = RateTable::new();
    for _ in 0..8 {
        assert!(check_terminal_rate_limit(&mut table, "Admin", 100).is_ok());
    }
    let err = check_terminal_rate_limit(&mut table, "Admin", 110).unwrap_err();
    assert!(err.contains("Too many terminal sessions"));
    assert!(check_terminal_rate_limit(&mut table, "Other", 110).is_ok());
    assert!(check_terminal_rate_limit(&mut table, "Admin", 160).is_ok());
    let mut tools = RateTable::new();
    for _ in 0..60 {
        assert!(check_tools_rate_limit(&mut tools, "Admin", 5).is_ok());
    }
    assert!(check_tools_rate_limit(&mut tools, "Admin", 5).is_err());
}
