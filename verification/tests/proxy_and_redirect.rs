use cpn_panel::panel_webmail_proxy::{
    body_within_limit, proxy_target, rewrite_location, sends_body, skip_request_header,
    skip_response_header, split_headers_body,
};
use cpn_panel::port_redirect::redirect_location;

#[test]
fn builds_redirect_with_port() {
    let location = redirect_location(9443, None, Some("10.0.0.8:2087"), "/login");
    assert_eq!(location, "http://10.0.0.8:9443/login");
}

#[test]
fn redirect_prefers_saved_hostname_and_fixes_path() {
    assert_eq!(
        redirect_location(9443, Some("panel.example.com"), Some("10.0.0.8:2087"), "status"),
        "https://panel.example.com/status"
    );
    assert_eq!(redirect_location(8443, None, None, "/"), "http://127.0.0.1:8443/");
    assert_eq!(redirect_location(8443, None, Some(":2087"), "/x"), "http://127.0.0.1:8443/x");
}

#[test]
fn location_rewrite_prefixes_mount() {
    assert_eq!(rewrite_location("/index.php", "/snappymail"), "/snappymail/index.php");
    assert_eq!(rewrite_location("http://127.0.0.1:8080/a", "/wm"), "/wm/a");
}

#[test]
fn location_rewrite_keeps_mounted_and_absolute() {
    assert_eq!(rewrite_location("/wm/a", "/wm"), "/wm/a");
    assert_eq!(rewrite_location("https://elsewhere.example/", "/wm"), "https://elsewhere.example/");
    assert_eq!(rewrite_location("relative.php", "/wm"), "relative.php");
}

#[test]
fn proxy_target_and_headers() {
    assert_eq!(proxy_target("/index.php", ""), "http://127.0.0.1:8080/index.php");
    assert_eq!(proxy_target("/", "a=1"), "http://127.0.0.1:8080/?a=1");
    assert!(skip_request_header("Host"));
    assert!(skip_request_header("Accept-Encoding"));
    assert!(!skip_request_header("Cookie"));
    assert!(skip_response_header("Content-Length"));
    assert!(!skip_response_header("Location"));
    assert!(sends_body("post", 3));
    assert!(!sends_body("POST", 0));
    assert!(!sends_body("GET", 3));
    assert!(body_within_limit(16 * 1024 * 1024 - 1, 1));
    assert!(!body_within_limit(16 * 1024 * 1024, 1));
}

#[test]
fn splits_last_header_block() {
    let raw = "HTTP/1.1 100 Continue\r\n\r\nHTTP/1.1 200 OK\r\nX: y\r\n\r\nbody";
    let (h, b) = split_headers_body(raw).unwrap();
    assert_eq!(h, "HTTP/1.1 200 OK\r\nX: y");
    assert_eq!(b, "body");
    let (h, b) = split_headers_body("HTTP/1.1 302 Found\nLocation: /a\n\nrest").unwrap();
    assert_eq!(h, "HTTP/1.1 302 Found\nLocation: /a");
    assert_eq!(b, "rest");
    assert!(split_headers_body("no blank line").is_none());
}
