use cpn_panel::panel_websites_create_ui::{
    domain_under_cloudflare_zone, require_domain_in_cloudflare_zones, resolve_create_domain,
};
use cpn_panel::site::normalize_domain;

#[test]
fn cloudflare_zone_match_apex_and_sub() {
    assert!(domain_under_cloudflare_zone("example.com", "example.com"));
    assert!(domain_under_cloudflare_zone("blog.example.com", "example.com"));
    assert!(domain_under_cloudflare_zone("a.b.example.com", "example.com"));
    assert!(!domain_under_cloudflare_zone("example.org", "example.com"));
    assert!(!domain_under_cloudflare_zone("notexample.com", "example.com"));
}

#[test]
fn resolve_create_domain_local_and_cf() {
    assert_eq!(resolve_create_domain("Example.COM", "", "", false).unwrap(), "example.com");
    assert_eq!(resolve_create_domain("", "example.com", "", true).unwrap(), "example.com");
    assert_eq!(resolve_create_domain("", "example.com", "blog", true).unwrap(), "blog.example.com");
    assert_eq!(
        resolve_create_domain("", "example.com", "blog.example.com", true).unwrap(),
        "blog.example.com"
    );
    assert!(resolve_create_domain("", "", "blog", true).is_err());
}

#[test]
fn resolve_create_domain_errors() {
    assert_eq!(
        resolve_create_domain("", "  ", "blog", true).unwrap_err(),
        "Select a Cloudflare zone (domain)"
    );
    assert_eq!(resolve_create_domain("", "Example.com", ".Blog.", true).unwrap(), "blog.example.com");
    assert_eq!(resolve_create_domain("", "example.com", "bad_label", true).unwrap_err(),
        "Enter a valid domain such as example.com");
    assert_eq!(resolve_create_domain("   ", "", "", false).unwrap_err(), "Domain is required");
}

#[test]
fn normalize_domain_rules() {
    assert_eq!(normalize_domain(" Example.COM. ").unwrap(), "example.com");
    assert_eq!(normalize_domain("a-b.example.co.uk").unwrap(), "a-b.example.co.uk");
    assert!(normalize_domain("localhost").is_err());
    assert!(normalize_domain("-a.example.com").is_err());
    assert!(normalize_domain("a..com").is_err());
    assert!(normalize_domain(&format!("{}.com", "a".repeat(64))).is_err());
    assert_eq!(
        normalize_domain(&format!("{}.com", "a.".repeat(130))).unwrap_err(),
        "Domain is too long"
    );
}

#[test]
fn zone_allowlist_enforced_when_configured() {
    let zones: Result<Vec<String>, String> = Ok(vec!["example.com".into()]);
    assert!(require_domain_in_cloudflare_zones("x.example.com", true, &zones).is_ok());
    assert_eq!(
        require_domain_in_cloudflare_zones("x.example.org", true, &zones).unwrap_err(),
        "Domain `x.example.org` is not under an accessible Cloudflare zone. Pick a zone from Create Website."
    );
    assert!(require_domain_in_cloudflare_zones("x.example.org", false, &zones).is_ok());
    let none: Result<Vec<String>, String> = Ok(vec![]);
    assert!(require_domain_in_cloudflare_zones("x.example.com", true, &none).is_err());
    let err: Result<Vec<String>, String> = Err("timeout".into());
    assert_eq!(
        require_domain_in_cloudflare_zones("x.example.com", true, &err).unwrap_err(),
        "Cloudflare is connected but zones could not be listed: timeout"
    );
}

use cpn_panel::panel_site_clone::{
    check_clone_target, clone_result, clone_site_note, resolve_target_domain,
    suggest_staging_domain,
};

#[test]
fn staging_suggestion_prefers_staging_prefix() {
    assert_eq!(suggest_staging_domain("example.com", &Ok(None)).unwrap(), "staging.example.com");
    let long = format!("{}.example.com", "a".repeat(60));
    // `staging.` + a 60-character label still fits; a too-long domain falls back.
    assert_eq!(
        suggest_staging_domain(&long, &Ok(None)).unwrap(),
        format!("staging.{long}")
    );
    assert_eq!(
        suggest_staging_domain("bad_name", &Ok(Some("example.com".into()))).unwrap(),
        "staging-badname.example.com"
    );
    assert_eq!(
        suggest_staging_domain("bad_name", &Err("lookup failed".into())).unwrap_err(),
        "lookup failed"
    );
}

#[test]
fn clone_target_resolution() {
    assert_eq!(
        resolve_target_domain("example.com", "", true, &Ok(None)).unwrap(),
        "staging.example.com"
    );
    assert_eq!(
        resolve_target_domain("example.com", " ", false, &Ok(None)).unwrap_err(),
        "Target domain or subdomain label is required"
    );
    assert_eq!(
        resolve_target_domain("blog.example.com", "Dev", false, &Ok(Some("example.com".into()))).unwrap(),
        "dev.example.com"
    );
    assert_eq!(
        resolve_target_domain("example.com", "-dev", false, &Ok(None)).unwrap_err(),
        "Subdomain label must be alphanumeric with optional hyphens"
    );
    assert_eq!(
        resolve_target_domain("example.com", "Copy.Example.org", false, &Ok(None)).unwrap(),
        "copy.example.org"
    );
    assert_eq!(check_clone_target("example.com", "EXAMPLE.com", false).unwrap_err(),
        "Target domain must differ from the source");
    assert_eq!(check_clone_target("example.com", "b.com", true).unwrap_err(), "Site `b.com` already exists");
    assert!(check_clone_target("example.com", "b.com", false).is_ok());
    assert_eq!(clone_site_note("example.com"), "Cloned files from example.com (databases not copied)");
    let r = clone_result("b.com".into(), "/home/b.com/public_html".into(), 3);
    assert_eq!(r.files_copied, 3);
    assert!(r.note.contains("Databases are not copied"));
}

use cpn_panel::proxy_front::{
    addr_to_string, choose_site_internal_ip, next_free_internal_ip, nginx_stub_dir, parse_ipv4,
    proxy_front_settings_path, set_proxy_front_from_install, settings_to_persist,
    should_install_nginx, site_nginx_stub, site_stub_file_name, used_internal_ips,
    InternalIpChoice, ProxyFrontSettings,
};

#[test]
fn pool_skips_used_addresses() {
    let used = vec![(10, 66, 0, 10), (10, 66, 0, 11)];
    assert_eq!(next_free_internal_ip(&used).unwrap(), (10, 66, 0, 12));
}

#[test]
fn pool_exhaustion_is_an_error() {
    let used: Vec<(u8, u8, u8, u8)> = (10..=250).map(|h| (10, 66, 0, h)).collect();
    assert_eq!(
        next_free_internal_ip(&used).unwrap_err(),
        "Internal IP pool exhausted (10.66.0.10-250)"
    );
}

#[test]
fn ipv4_parse_follows_std() {
    assert_eq!(parse_ipv4("10.66.0.12"), Some((10, 66, 0, 12)));
    assert_eq!(parse_ipv4("0.0.0.0"), Some((0, 0, 0, 0)));
    assert_eq!(parse_ipv4("255.255.255.255"), Some((255, 255, 255, 255)));
    for bad in ["1.2.3", "01.2.3.4", "256.1.1.1", "1.2.3.4.5", " 1.2.3.4", "1..3.4", "a.b.c.d", "1.2.3.1000"] {
        assert_eq!(parse_ipv4(bad), None, "{bad}");
    }
    assert_eq!(addr_to_string((10, 66, 0, 12)), "10.66.0.12");
}

#[test]
fn site_internal_ip_choice() {
    let ips = vec![Some("10.66.0.10".to_string()), None, Some("junk".to_string())];
    assert!(matches!(choose_site_internal_ip(false, None, &ips), Ok(InternalIpChoice::Off)));
    match choose_site_internal_ip(true, Some(" 10.66.0.99 "), &ips) {
        Ok(InternalIpChoice::Existing(s)) => assert_eq!(s, "10.66.0.99"),
        _ => panic!("expected existing"),
    }
    match choose_site_internal_ip(true, Some("  "), &ips) {
        Ok(InternalIpChoice::Assign(s)) => assert_eq!(s, "10.66.0.11"),
        _ => panic!("expected assign"),
    }
    assert_eq!(used_internal_ips(&ips), vec![(10, 66, 0, 10)]);
}

#[test]
fn proxy_front_settings_and_stubs() {
    let mut s = ProxyFrontSettings::default();
    assert!(!s.enabled && s.install_nginx && !s.install_proxy_manager);
    s.install_proxy_manager = true;
    set_proxy_front_from_install(&mut s, true);
    assert!(s.enabled && !s.install_proxy_manager && s.relax_origin_public_routing);
    assert!(should_install_nginx(&s));
    let p = settings_to_persist(&s, 77);
    assert_eq!(p.updated_at_unix, 77);
    assert_eq!(p.schema_version, 1);
    assert_eq!(proxy_front_settings_path("/var/lib/cpn"), "/var/lib/cpn/proxy_front.json");
    assert_eq!(nginx_stub_dir("/var/lib/cpn"), "/var/lib/cpn/nginx-front");
    assert_eq!(site_stub_file_name("a/b.com"), "a_b.com.conf");
    let stub = site_nginx_stub("example.com", "10.66.0.10");
    assert!(stub.starts_with("# CPN stub for example.com -> internal 10.66.0.10\n"));
    assert!(stub.contains("#   listen 10.66.0.10:80;\n"));
}
