use cpn_panel::panel_plugins_spa::{
    list_mode_from_query, page_from_query, per_page_from_query, plugins_hub_script,
    plugins_hub_styles, store_list_toolbar,
};
use cpn_panel::panel_public_url::{
    local_listen_base_url, normalize_base, panel_email_bases, panel_public_url_file_body,
    validate_panel_public_url,
};

#[test]
fn per_page_defaults_to_four() {
    assert_eq!(per_page_from_query(""), 4);
    assert_eq!(per_page_from_query("   "), 4);
    assert_eq!(per_page_from_query("not-a-number"), 4);
    assert_eq!(per_page_from_query("0"), 4);
    assert_eq!(per_page_from_query("7"), 4);
    assert_eq!(per_page_from_query("3"), 4);
}

#[test]
fn per_page_allows_selector_sizes() {
    for size in [4usize, 8, 12, 16, 24, 48] {
        assert_eq!(per_page_from_query(&size.to_string()), size);
    }
}

#[test]
fn list_mode_and_page_helpers() {
    assert_eq!(list_mode_from_query("page"), "page");
    assert_eq!(list_mode_from_query("scroll"), "scroll");
    assert_eq!(list_mode_from_query("scrollbar"), "scroll");
    assert_eq!(page_from_query(""), 1);
    assert_eq!(page_from_query("0"), 1);
    assert_eq!(page_from_query("3"), 3);
}

#[test]
fn toolbar_marks_mode_and_disables_ends() {
    let html = store_list_toolbar("page", 8, 1, 3, 20);
    assert!(html.contains(r#"<option value="8" selected>8</option>"#));
    assert!(html.contains("Page 1 / 3"));
    assert!(html.contains(r#"data-plugin-page="1" disabled>Prev"#));
    assert!(html.contains(r#"data-plugin-page="2">Next"#));
    assert!(html.contains("20 matching"));
    let scroll = store_list_toolbar("scroll", 4, 1, 0, 0);
    assert!(scroll.contains(r#"class="plugin-mode-btn active" data-plugin-mode="scroll""#));
    assert!(scroll.contains(r#"style="display:none""#));
    assert!(scroll.contains("Page 1 / 1"));
    assert!(plugins_hub_styles().contains(".plugin-list-toolbar"));
    assert!(plugins_hub_script().contains("__cpnPluginsHubBound"));
}

#[test]
fn validates_public_url() {
    assert_eq!(
        validate_panel_public_url("http://127.0.0.1:2089/").unwrap(),
        "http://127.0.0.1:2089"
    );
    assert_eq!(
        validate_panel_public_url("HTTPS://panel.example.com").unwrap(),
        "https://panel.example.com"
    );
    assert!(validate_panel_public_url("panel.example.com").is_err());
    assert!(validate_panel_public_url("http://panel.example.com/login").is_err());
    assert!(validate_panel_public_url("ftp://127.0.0.1:2089").is_err());
    assert_eq!(
        validate_panel_public_url("  http://127.0.0.1:2089 ").unwrap(),
        "http://127.0.0.1:2089"
    );
    assert!(validate_panel_public_url("").is_err());
    assert!(validate_panel_public_url("http://a b").is_err());
    assert!(validate_panel_public_url("http://").is_err());
    assert_eq!(
        validate_panel_public_url("http://h.example//").unwrap(),
        "http://h.example"
    );
    assert_eq!(
        validate_panel_public_url("http:///").unwrap_err(),
        "Panel public URL needs a host after the scheme"
    );
    assert_eq!(
        panel_public_url_file_body("http://10.0.0.1").unwrap(),
        "http://10.0.0.1\n"
    );
}

#[test]
fn email_bases_without_public_url_use_hostname_primary() {
    let bases = panel_email_bases(
        2087,
        "https://panel.example.com".to_string(),
        Some("panel.example.com".to_string()),
    );
    assert_eq!(bases.primary, "https://panel.example.com");
    assert_eq!(bases.alternates, vec!["http://127.0.0.1:2087".to_string()]);
}

#[test]
fn email_bases_prefer_public_url_and_list_alternates() {
    let bases = panel_email_bases(
        2087,
        "http://127.0.0.1:2089".to_string(),
        Some("test2.newstargeted.com".to_string()),
    );
    assert_eq!(bases.primary, "http://127.0.0.1:2089");
    assert!(bases.alternates.iter().any(|u| u == "https://test2.newstargeted.com"));
    assert!(bases.alternates.iter().any(|u| u == "http://127.0.0.1:2087"));
}

#[test]
fn loopback_and_normalize() {
    assert_eq!(local_listen_base_url(443), "https://127.0.0.1");
    assert_eq!(local_listen_base_url(80), "http://127.0.0.1");
    assert_eq!(local_listen_base_url(2087), "http://127.0.0.1:2087");
    assert_eq!(normalize_base(" https://x.example/// "), "https://x.example");
}
