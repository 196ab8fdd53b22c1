use cpn_panel::panel_site_tools_security::{alias_cron_origin_ok, same_origin_ok};
use cpn_panel::panel_webmail_proxy::{allowed_proxy_method, curl_args, curl_failure_message, parse_curl_include};
use cpn_panel::panel_website_manage_tools::{manage_location, terminal_page_script};
use cpn_panel::panel_website_metrics::{prune, record_sample, sample_due, MetricSample, MAX_SAMPLES, WINDOW_SECS};
use cpn_panel::panel_wordpress_ui::parse_bool_flag;

fn sample(t: u64, pct: f32) -> MetricSample {
    MetricSample { t, cpu_bits: pct.to_bits(), mem_bits: pct.to_bits() }
}

#[test]
fn prune_keeps_window() {
    let now = 1_000_000u64;
    let mut samples = vec![sample(now - WINDOW_SECS - 10, 1.0), sample(now - 30, 2.0)];
    prune(&mut samples, now);
    assert_eq!(samples.len(), 1);
    assert_eq!(f32::from_bits(samples[0].cpu_bits), 2.0);
}

#[test]
fn prune_keeps_the_newest_samples() {
    let now = 10_000u64;
    let mut samples: Vec<MetricSample> = (0..100).map(|i| sample(now - 100 + i, i as f32)).collect();
    prune(&mut samples, now);
    assert_eq!(samples.len(), MAX_SAMPLES);
    assert_eq!(samples[0].t, now - 90);
    assert_eq!(samples[MAX_SAMPLES - 1].t, now - 1);
    let mut early = vec![sample(5, 1.0)];
    prune(&mut early, 100);
    assert_eq!(early.len(), 1);
}

#[test]
fn samples_are_recorded_at_most_every_eight_seconds() {
    let mut samples = Vec::new();
    assert!(sample_due(&samples, 100));
    record_sample(&mut samples, sample(100, 5.0), 100);
    assert_eq!(samples.len(), 1);
    assert!(!sample_due(&samples, 107));
    record_sample(&mut samples, sample(107, 6.0), 107);
    assert_eq!(samples.len(), 1);
    record_sample(&mut samples, sample(108, 7.0), 108);
    assert_eq!(samples.len(), 2);
    assert!(!sample_due(&samples, 50));
}

#[test]
fn allowed_methods_cover_forms() {
    assert!(allowed_proxy_method("POST"));
    assert!(!allowed_proxy_method("OPTIONS"));
    for m in ["GET", "HEAD", "PUT", "PATCH", "DELETE"] {
        assert!(allowed_proxy_method(m));
    }
    assert!(!allowed_proxy_method("get"));
}

#[test]
fn curl_output_is_read_after_continue() {
    let raw = b"HTTP/1.1 100 Continue\r\n\r\nHTTP/1.1 302 Found\r\nLocation: /index.php?x=1\r\nContent-Length: 0\r\nSet-Cookie: a=b\r\nX-Bare\r\n\r\nhello";
    let r = parse_curl_include(raw, "/snappymail/").unwrap();
    assert_eq!(r.status, 302);
    assert_eq!(
        r.headers,
        vec![
            ("Location".to_string(), "/snappymail/index.php?x=1".to_string()),
            ("Set-Cookie".to_string(), "a=b".to_string()),
        ]
    );
    assert_eq!(r.body, "hello");
}

#[test]
fn curl_output_errors_and_bad_status() {
    assert_eq!(
        parse_curl_include(b"no separator", "/wm").err().unwrap(),
        "Malformed proxy response from webmail backend"
    );
    assert_eq!(
        parse_curl_include(b"\r\n\r\nbody", "/wm").err().unwrap(),
        "Missing HTTP status from webmail backend"
    );
    let r = parse_curl_include(b"HTTP/1.1 abc\n\nx", "/wm").unwrap();
    assert_eq!(r.status, 502);
    let r = parse_curl_include(b"HTTP/2 1000 Odd\r\n\r\n", "/wm").unwrap();
    assert_eq!(r.status, 502);
    let r = parse_curl_include(b"HTTP/1.1 204 No Content\r\nLocation: http://127.0.0.1:8080/a\r\n\r\n", "/wm").unwrap();
    assert_eq!(r.status, 204);
    assert_eq!(r.headers, vec![("Location".to_string(), "/wm/a".to_string())]);
}

#[test]
fn origin_checks() {
    assert!(same_origin_ok(None, None, "panel.example.com"));
    assert!(same_origin_ok(Some(Some("https://panel.example.com")), None, "panel.example.com"));
    assert!(!same_origin_ok(Some(Some("https://evil.test")), Some(Some("https://panel.example.com/x")), "panel.example.com"));
    assert!(same_origin_ok(None, Some(Some("https://panel.example.com/x")), "panel.example.com"));
    assert!(same_origin_ok(Some(None), Some(Some("https://evil.test")), "panel.example.com"));
    assert!(alias_cron_origin_ok(None, Some(Some("https://evil.test")), None));
    assert!(!alias_cron_origin_ok(Some(Some("panel:2087")), Some(Some("https://evil.test")), None));
    assert!(alias_cron_origin_ok(Some(Some("panel:2087")), Some(None), Some(Some("https://panel:2087/m"))));
    assert!(!alias_cron_origin_ok(Some(Some("panel:2087")), None, Some(Some("https://other/"))));
    assert!(alias_cron_origin_ok(Some(Some("panel:2087")), None, None));
}

#[test]
fn manage_location_encodes_values() {
    assert_eq!(
        manage_location("example.com", "alias", Some("Alias added"), None),
        "/websites/manage?domain=example.com&tab=alias&notice=Alias+added"
    );
    assert_eq!(
        manage_location("a&b.com", "cron", None, Some("Bad/job")),
        "/websites/manage?domain=a%26b.com&tab=cron&error=Bad%2Fjob"
    );
}

#[test]
fn bool_flags() {
    for v in ["1", "true", " YES ", "On"] {
        assert!(parse_bool_flag(v));
    }
    for v in ["0", "", "off", "y"] {
        assert!(!parse_bool_flag(v));
    }
}

#[test]
fn page_script_has_ws_path() {
    let html = terminal_page_script("example.com", "1.abc");
    assert!(html.contains("/api/websites/terminal/ws"));
    assert!(html.contains("xterm"));
    assert!(!html.to_lowercase().contains("cyberpanel"));
    assert!(html.contains("const domain = \"example.com\";"));
    assert!(html.contains("const csrf = \"1.abc\";"));
    let quoted = terminal_page_script("a\"b", "c");
    assert!(quoted.contains("const domain = \"a\\\"b\";"));
}

#[test]
fn curl_arguments_forward_allowed_headers() {
    let headers = vec![
        ("host".to_string(), Some("panel:2087".to_string())),
        ("cookie".to_string(), Some("a=b".to_string())),
        ("x-bin".to_string(), None),
        ("accept-encoding".to_string(), Some("gzip".to_string())),
    ];
    let args = curl_args("POST", &headers, 3, "http://127.0.0.1:8080/index.php");
    assert_eq!(
        args,
        vec![
            "--silent", "--show-error", "--include", "--max-time", "120", "-X", "POST", "--path-as-is", "-H",
            "cookie: a=b", "-H", "Host: 127.0.0.1:8080", "-H", "Accept-Encoding: identity", "--data-binary", "@-",
            "http://127.0.0.1:8080/index.php",
        ]
    );
    let get = curl_args("GET", &Vec::new(), 3, "t");
    assert!(!get.contains(&"--data-binary".to_string()));
    assert_eq!(curl_failure_message(b"  curl: (7) refused \n"), "curl: (7) refused");
    assert_eq!(curl_failure_message(&[b'x'; 300]).len(), 240);
}
