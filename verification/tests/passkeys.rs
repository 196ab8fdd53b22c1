use cpn_panel::panel_webauthn::{user_uuid, webauthn_for_request};

#[test]
fn loopback_ip_host_builds_webauthn() {
    let rp = webauthn_for_request(Some("127.0.0.1:2087"), false, None).expect("builder should accept loopback");
    assert_eq!(rp.rp_id, "localhost");
    let origins = rp.origins;
    assert!(
        origins.iter().any(|u| u.contains("127.0.0.1")),
        "expected 127.0.0.1 origin among {origins:?}"
    );
    assert!(
        origins.iter().any(|u| u.contains("localhost")),
        "expected localhost origin among {origins:?}"
    );
}

#[test]
fn nat_public_port_host_builds_webauthn() {
    let rp = webauthn_for_request(Some("127.0.0.1:2091"), false, None).expect("builder should accept NAT host port");
    assert_eq!(rp.rp_id, "localhost");
    let origins = rp.origins;
    assert!(
        origins.iter().any(|u| u.contains("127.0.0.1:2091") || u.contains("localhost")),
        "expected loopback origin for public port among {origins:?}"
    );
}

#[test]
fn public_url_origin_appended_when_configured() {
    let rp = webauthn_for_request(Some("127.0.0.1:2087"), false, Some("http://127.0.0.1:2091")).expect("webauthn");
    assert_eq!(rp.rp_id, "localhost");
    let origins = rp.origins;
    assert!(
        origins.iter().any(|u| u.contains(":2091")),
        "panel_public_url origin should be allowed among {origins:?}"
    );
}

#[test]
fn localhost_host_builds_webauthn() {
    let rp = webauthn_for_request(Some("localhost:2087"), false, None).expect("builder should accept localhost");
    assert_eq!(rp.rp_id, "localhost");
    assert!(!rp.origins.is_empty());
}

#[test]
fn localhost_nat_2091_allows_browser_origin() {
    let rp =
        webauthn_for_request(Some("localhost:2091"), false, None).expect("builder should accept localhost NAT port");
    assert_eq!(rp.rp_id, "localhost");
    let origins = rp.origins;
    assert!(
        origins.iter().any(|u| u == "http://localhost:2091/" || u.contains("localhost:2091")),
        "expected http://localhost:2091 among {origins:?}"
    );
    assert!(
        origins.iter().any(|u| u.contains("127.0.0.1:2091")),
        "expected 127.0.0.1:2091 sibling origin among {origins:?}"
    );
}

#[test]
fn primary_origin_comes_first_without_duplicates() {
    let rp = webauthn_for_request(Some("localhost:2087"), true, None).unwrap();
    assert_eq!(
        rp.origins,
        vec![
            "https://localhost:2087/".to_string(),
            "https://127.0.0.1:2087/".to_string(),
            "https://[::1]:2087/".to_string(),
        ]
    );
}

#[test]
fn domain_hosts_keep_their_name() {
    let rp = webauthn_for_request(Some(" panel.example.com:2087 "), true, None).unwrap();
    assert_eq!(rp.rp_id, "panel.example.com");
    assert_eq!(rp.origins, vec!["https://panel.example.com:2087/".to_string()]);
    let rp = webauthn_for_request(Some("[::1]:2087"), false, None).unwrap();
    assert_eq!(rp.rp_id, "localhost");
}

#[test]
fn public_ips_and_bad_hosts_are_refused() {
    let public = "Passkeys require a hostname. Use a domain name or localhost (not a public IP).";
    assert_eq!(webauthn_for_request(Some("203.0.113.7:2087"), false, None).err().unwrap(), public);
    assert_eq!(webauthn_for_request(Some("[2001:db8::1]:2087"), false, None).err().unwrap(), public);
    assert_eq!(webauthn_for_request(Some("  "), false, None).err().unwrap(), "Invalid Host header");
    assert_eq!(webauthn_for_request(Some("a/b"), false, None).err().unwrap(), "Invalid Host header");
    assert_eq!(webauthn_for_request(Some("[]:2087"), false, None).err().unwrap(), "Could not derive WebAuthn RP ID");
    let long = "a".repeat(254);
    assert_eq!(webauthn_for_request(Some(&long), false, None).err().unwrap(), "Invalid Host header");
    assert!(webauthn_for_request(Some("panel.example.com:99999"), false, None)
        .err()
        .unwrap()
        .starts_with("Invalid origin URL: "));
}

#[test]
fn missing_host_defaults_to_loopback() {
    let rp = webauthn_for_request(None, false, None).unwrap();
    assert_eq!(rp.rp_id, "localhost");
    assert_eq!(rp.origins[0], "http://localhost/");
}

#[test]
fn user_handle_ignores_case_and_sets_version_bits() {
    let a = user_uuid("Admin");
    let b = user_uuid("admin");
    assert_eq!(a, b);
    assert_eq!(a.len(), 16);
    assert_eq!(a[6] & 0xf0, 0x50);
    assert_eq!(a[8] & 0xc0, 0x80);
    assert_ne!(user_uuid("alice"), user_uuid("bob"));
}
