use cpn_panel::plugins::{
    catalog_repo_slug, catalog_repo_url, normalize_plugin_id, plugins_install_path_display,
    replace_str, sanitize_user_text, set_plugin_enabled, CpnPluginManifest, CATALOG_REPO,
};
use cpn_panel::plugins_catalog::{
    catalog_cache_is_fresh, catalog_next_refresh_unix, parse_meta_xml, pricing_from_meta,
    use_cached_catalog, xml_tag,
};

#[test]
fn sanitize_strips_legacy_brand() {
    let text = sanitize_user_text("Discord login for CyberPanel admins");
    assert!(!text.to_ascii_lowercase().contains("cyberpanel"));
    assert!(text.contains("CPN Panel"));
}

#[test]
fn parse_meta_builds_cpn_entry() {
    let xml = r#"
        <plugin>
          <name>CyberPanel Port Manager</name>
          <type>Utility</type>
          <version>1.0.1</version>
          <description>Ports for CyberPanel hosts</description>
          <author>master3395</author>
          <paid>false</paid>
        </plugin>
        "#;
    let entry = parse_meta_xml("port_manager", xml).unwrap();
    assert_eq!(entry.id, "port_manager");
    assert!(!entry.name.to_ascii_lowercase().contains("cyberpanel"));
    assert!(!entry.description.to_ascii_lowercase().contains("cyberpanel"));
    assert_eq!(entry.pricing, "free");
}

#[test]
fn sanitize_replaces_each_casing() {
    assert_eq!(
        sanitize_user_text("CyberPanel, cyberpanel and CYBERPANEL"),
        "CPN Panel, CPN and CPN"
    );
    assert_eq!(sanitize_user_text("plain text"), "plain text");
}

#[test]
fn replace_str_replaces_left_to_right_without_overlap() {
    assert_eq!(replace_str("aaa", "aa", "b"), "ba");
    assert_eq!(replace_str("x-y-z", "-", "+"), "x+y+z");
    assert_eq!(replace_str("none", "q", "r"), "none");
}

#[test]
fn meta_defaults_when_tags_missing() {
    let entry = parse_meta_xml("demo", "<plugin></plugin>").unwrap();
    assert_eq!(entry.name, "demo");
    assert_eq!(entry.category, "Utility");
    assert_eq!(entry.version, "0.0.0");
    assert_eq!(entry.description, "No description provided.");
    assert_eq!(entry.author, "unknown");
    assert_eq!(entry.pricing, "free");
}

#[test]
fn meta_reads_capitalised_and_category_tags() {
    let xml = "<Name>Demo</Name><category>Security</category><Version>2.0</Version>\
               <Description>x</Description><Author>me</Author>";
    let entry = parse_meta_xml("demo", xml).unwrap();
    assert_eq!(entry.name, "Demo");
    assert_eq!(entry.category, "Security");
    assert_eq!(entry.version, "2.0");
    assert_eq!(entry.description, "x");
    assert_eq!(entry.author, "me");
}

#[test]
fn xml_tag_trims_and_skips_blank() {
    assert_eq!(xml_tag("<a>  hi </a>", "a"), Some("hi".to_string()));
    assert_eq!(xml_tag("<a>   </a>", "a"), None);
    assert_eq!(xml_tag("<a>open only", "a"), None);
    assert_eq!(xml_tag("<b>x</b>", "a"), None);
}

#[test]
fn pricing_rules() {
    assert_eq!(pricing_from_meta("<pricing>Premium tier</pricing>"), "paid");
    assert_eq!(pricing_from_meta("<pricing>PAID</pricing>"), "paid");
    assert_eq!(pricing_from_meta("<pricing>free</pricing><paid>true</paid>"), "free");
    assert_eq!(pricing_from_meta("<paid>YES</paid>"), "paid");
    assert_eq!(pricing_from_meta("<paid>1</paid>"), "paid");
    assert_eq!(pricing_from_meta("<paid>no</paid>"), "free");
    assert_eq!(pricing_from_meta(""), "free");
}

#[test]
fn catalog_refresh_and_freshness() {
    assert_eq!(catalog_next_refresh_unix(100), 3700);
    assert_eq!(catalog_next_refresh_unix(u64::MAX - 5), u64::MAX);
    assert!(catalog_cache_is_fresh(1000, 4599));
    assert!(!catalog_cache_is_fresh(1000, 4600));
    assert!(catalog_cache_is_fresh(5000, 10));
    assert!(use_cached_catalog(false, Some(1000), 1500));
    assert!(!use_cached_catalog(true, Some(1000), 1500));
    assert!(!use_cached_catalog(false, None, 1500));
    assert!(!use_cached_catalog(false, Some(1000), 9000));
}

#[test]
fn plugin_ids_are_validated() {
    assert_eq!(normalize_plugin_id("  demo_Plugin-1 ").unwrap(), "demo_Plugin-1");
    assert_eq!(normalize_plugin_id("").unwrap_err(), "Plugin id is required");
    assert_eq!(normalize_plugin_id(&"a".repeat(65)).unwrap_err(), "Plugin id is too long");
    assert_eq!(
        normalize_plugin_id("a\u{7}b").unwrap_err(),
        "Plugin id cannot include control characters"
    );
    assert_eq!(
        normalize_plugin_id("a/b").unwrap_err(),
        "Plugin id may only contain letters, digits, underscore, and hyphen"
    );
    assert_eq!(
        normalize_plugin_id("docs").unwrap_err(),
        "That name is reserved and cannot be installed as a plugin"
    );
}

#[test]
fn catalog_paths_and_toggle() {
    assert_eq!(catalog_repo_slug(), CATALOG_REPO);
    assert_eq!(catalog_repo_url(), "https://github.com/master3395/cyberpanel-plugins");
    assert_eq!(plugins_install_path_display("/var/lib/cpn"), "/var/lib/cpn/plugins");
    let mut manifest = CpnPluginManifest {
        schema_version: 1,
        id: "demoPlugin".into(),
        name: "Demo".into(),
        category: "Utility".into(),
        version: "1.0.0".into(),
        description: "Demo plugin".into(),
        author: "master3395".into(),
        pricing: "free".into(),
        enabled: true,
        installed_at_unix: 1,
        source: "test".into(),
        catalog_repo: CATALOG_REPO.into(),
        domain: String::new(),
    };
    set_plugin_enabled(&mut manifest, false);
    assert!(!manifest.enabled);
    assert_eq!(manifest.id, "demoPlugin");
}

use cpn_panel::plugin_activation::{
    activated_as_installed, activated_install, activated_manifest, catalog_entry_is_host_scoped, check_activation,
    check_deactivation, host_manifest_from_meta, host_plugin_installed, host_plugin_path,
    host_plugins_dir, is_activated, is_host_activation_stub, is_host_owned_install,
    is_host_scoped_plugin, list_activations_for_domain, record_activation, remove_activation,
    remove_plugin_activations, PluginActivation,
};

#[test]
fn allowlist_marks_clamav_host_scoped() {
    assert!(is_host_scoped_plugin("clamav"));
    assert!(is_host_scoped_plugin("fail2ban"));
    assert!(!is_host_scoped_plugin("bimi"));
}

#[test]
fn allowlist_ignores_case_and_blank() {
    assert!(is_host_scoped_plugin("  ClamAV "));
    assert!(is_host_scoped_plugin("AUTOSNAPSHOT"));
    assert!(!is_host_scoped_plugin("   "));
}

fn act(domain: &str, id: &str) -> PluginActivation {
    PluginActivation {
        domain: domain.into(),
        plugin_id: id.into(),
        activated_at_unix: 5,
        source: "host".into(),
    }
}

#[test]
fn activation_record_and_remove_roundtrip() {
    let mut acts: Vec<PluginActivation> = Vec::new();
    assert!(!is_activated(&acts, "example.com", "clamav"));
    assert!(check_activation(&acts, "example.com", "clamav", true).is_ok());
    record_activation(&mut acts, "example.com", "clamav", 42);
    assert_eq!(acts[0].source, "host");
    assert_eq!(acts[0].activated_at_unix, 42);
    assert!(is_activated(&acts, " EXAMPLE.com ", "ClamAV"));
    assert_eq!(
        check_activation(&acts, "example.com", "clamav", true).unwrap_err(),
        "Plugin `clamav` is already activated for `example.com`"
    );
    record_activation(&mut acts, "other.org", "clamav", 43);
    record_activation(&mut acts, "example.com", "fail2ban", 44);
    assert_eq!(list_activations_for_domain(&acts, "example.com").len(), 2);
    remove_activation(&mut acts, "example.com", "clamav");
    assert!(!is_activated(&acts, "example.com", "clamav"));
    assert!(is_activated(&acts, "other.org", "clamav"));
    assert_eq!(
        check_deactivation(&acts, "example.com", "clamav").unwrap_err(),
        "Plugin `clamav` is not activated for `example.com`"
    );
    assert_eq!(check_deactivation(&acts, "other.org", "clamav").unwrap(), "clamav");
    remove_plugin_activations(&mut acts, "CLAMAV");
    assert_eq!(acts.len(), 1);
    assert_eq!(acts[0].plugin_id, "fail2ban");
}

#[test]
fn activation_requires_host_install() {
    let acts = vec![act("a.com", "x")];
    assert_eq!(
        check_activation(&acts, "a.com", "clamav", false).unwrap_err(),
        "Host plugin `clamav` is not installed. Ask the panel admin to install it on the Host first."
    );
    assert_eq!(
        check_activation(&acts, "a.com", "", true).unwrap_err(),
        "Plugin id is required"
    );
}

#[test]
fn host_paths_and_ownership() {
    assert_eq!(host_plugins_dir("/data"), "/data/host-plugins");
    assert_eq!(host_plugin_path("/data", " clamav "), "/data/host-plugins/clamav");
    assert!(host_plugin_installed("clamav", false, true));
    assert!(!host_plugin_installed("  ", true, true));
    assert!(!host_plugin_installed("clamav", false, false));
    assert!(is_host_owned_install("example.com", true, true));
    assert!(is_host_owned_install("  ", true, false));
    assert!(!is_host_owned_install("example.com", true, false));
    assert!(!is_host_owned_install("", false, true));
    assert!(is_host_activation_stub(Some("host-activation"), None));
    assert!(is_host_activation_stub(None, Some(true)));
    assert!(!is_host_activation_stub(Some("catalog"), Some(false)));
}

#[test]
fn host_manifests_from_meta_and_activation() {
    let m = host_manifest_from_meta("clamav", "<name>CyberPanel ClamAV</name>", 9);
    assert_eq!(m.name, "CPN Panel ClamAV");
    assert_eq!(m.source, "host-catalog");
    assert_eq!(m.catalog_repo, "Control-Panel-Network/CPN-Plugins");
    let a = activated_manifest(m, "example.com");
    assert_eq!(a.domain, "example.com");
    assert_eq!(a.source, "host-activation");
    assert!(a.enabled);
    let inst = activated_install(a, " example.com ", "/data");
    assert_eq!(inst.domain, "example.com");
    assert_eq!(inst.path, "/data/host-plugins/clamav");
}

#[test]
fn catalog_entry_host_scope() {
    let mut e = parse_meta_xml("bimi", "<name>BIMI</name>").unwrap();
    assert!(!catalog_entry_is_host_scoped(&e));
    e.host_scoped = true;
    assert!(catalog_entry_is_host_scoped(&e));
    let c = parse_meta_xml("fail2ban", "").unwrap();
    assert!(catalog_entry_is_host_scoped(&c));
}

use cpn_panel::panel_plugins_store::{
    badge_pricing, category_pills, dates_line, exact_pricing_query, filter_store_entries,
    format_iso_date_eu, pill_categories, pricing_is_paid, render_catalog_card, store_action_html,
    store_page_window,
};
use cpn_panel::plugins::CatalogEntry;

fn entry(id: &str, pricing: &str, description: &str) -> CatalogEntry {
    CatalogEntry {
        id: id.into(),
        name: id.into(),
        category: "Security".into(),
        version: "1.0.0".into(),
        description: description.into(),
        author: "master3395".into(),
        pricing: pricing.into(),
        released_on: String::new(),
        updated_on: String::new(),
        install_count: 0,
        featured: false,
        uninstall_impacts: vec![],
        host_scoped: false,
    }
}

#[test]
fn q_paid_filters_by_pricing_not_description() {
    let entries = vec![
        entry("clamav", "free", "Free malware scanner. No third-party paid brands."),
        entry("commerce", "paid", "Paid CPN hosting commerce."),
        entry("malwareApi", "paid", "News Targeted malware API."),
    ];
    let paid = filter_store_entries(&entries, "paid", "");
    let ids: Vec<&str> = paid.iter().map(|e| e.id.as_str()).collect();
    assert_eq!(ids, vec!["commerce", "malwareApi"]);
    assert!(!ids.contains(&"clamav"));
}

#[test]
fn category_paid_shows_only_paid() {
    let entries = vec![
        entry("clamav", "free", "mentions paid in description"),
        entry("commerce", "paid", "commerce"),
    ];
    let paid = filter_store_entries(&entries, "", "Paid");
    assert_eq!(paid.len(), 1);
    assert_eq!(paid[0].id, "commerce");
}

#[test]
fn q_free_filters_by_pricing() {
    let entries = vec![
        entry("clamav", "free", "scanner"),
        entry("commerce", "paid", "Paid plan"),
    ];
    let free = filter_store_entries(&entries, "FREE", "");
    assert_eq!(free.len(), 1);
    assert_eq!(free[0].id, "clamav");
}

#[test]
fn longer_query_still_full_text() {
    let entries = vec![
        entry("clamav", "free", "No third-party paid brands."),
        entry("commerce", "paid", "Paid CPN hosting commerce."),
    ];
    let hits = filter_store_entries(&entries, "paid brands", "");
    assert_eq!(hits.len(), 1);
    assert_eq!(hits[0].id, "clamav");
}

#[test]
fn paid_pill_present_in_markup() {
    let entries = vec![entry("commerce", "paid", "commerce")];
    let html = category_pills(&entries, "Paid", "example.com", "page", 4);
    assert!(html.contains("category=Paid"));
    assert!(html.contains(">Paid</a>"));
    assert!(html.contains(r#"class="active""#) || html.contains("class=\"active\""));
}

#[test]
fn store_filter_by_category_featured_and_text() {
    let mut a = entry("alpha", "free", "first");
    a.category = "Utility".into();
    let mut b = entry("beta", "premium", "second");
    b.featured = true;
    let entries = vec![a, b];
    assert_eq!(filter_store_entries(&entries, "", "utility")[0].id, "alpha");
    assert_eq!(filter_store_entries(&entries, "", "Featured")[0].id, "beta");
    assert_eq!(filter_store_entries(&entries, "", "free").len(), 1);
    assert_eq!(filter_store_entries(&entries, "", "All").len(), 2);
    assert_eq!(filter_store_entries(&entries, "SECOND", "").len(), 1);
    assert_eq!(filter_store_entries(&entries, "premium", "")[0].id, "beta");
    assert!(filter_store_entries(&entries, "zzz", "").is_empty());
}

#[test]
fn pricing_helpers() {
    assert!(pricing_is_paid("Premium"));
    assert!(!pricing_is_paid("free"));
    assert_eq!(exact_pricing_query(" PREMIUM "), Some("paid"));
    assert_eq!(exact_pricing_query("free"), Some("free"));
    assert_eq!(exact_pricing_query("paid brands"), None);
    assert_eq!(badge_pricing("paid"), r#"<span class="plugin-badge paid">Paid</span>"#);
    assert_eq!(badge_pricing("free"), r#"<span class="plugin-badge free">Free</span>"#);
}

#[test]
fn page_window_clamps_and_slices() {
    let w = store_page_window(false, 10, 4, 3);
    assert_eq!((w.per_page, w.total_pages, w.page, w.start, w.end), (4, 3, 3, 8, 10));
    let w = store_page_window(false, 10, 5, 9);
    assert_eq!((w.per_page, w.total_pages, w.page, w.start, w.end), (4, 3, 3, 8, 10));
    let w = store_page_window(false, 0, 8, 0);
    assert_eq!((w.per_page, w.total_pages, w.page, w.start, w.end), (8, 1, 1, 0, 0));
    let w = store_page_window(true, 7, 4, 2);
    assert_eq!((w.per_page, w.total_pages, w.page, w.start, w.end), (7, 1, 1, 0, 7));
}

#[test]
fn pills_sort_and_dedup_categories() {
    let cats = vec![
        "security".to_string(),
        "Backup".to_string(),
        "Security".to_string(),
        "apps".to_string(),
    ];
    assert_eq!(pill_categories(&cats), vec!["apps", "Backup", "security"]);
}

#[test]
fn dates_are_shown_in_european_order() {
    assert_eq!(format_iso_date_eu("2024-03-09"), "09.03.2024");
    assert_eq!(format_iso_date_eu("2024-03-09T10:00:00Z"), "09.03.2024");
    assert_eq!(format_iso_date_eu("soon"), "soon");
    assert_eq!(dates_line("", " "), "");
    assert_eq!(
        dates_line("2024-01-02", "2024-02-03"),
        r#"<p class="plugin-dates">Released: 02.01.2024 · Updated: 03.02.2024</p>"#
    );
    assert_eq!(dates_line("", "x<y"), r#"<p class="plugin-dates">Updated: x&lt;y</p>"#);
}

#[test]
fn store_actions_follow_host_state() {
    let e = entry("clamav", "free", "scanner");
    let a = store_action_html(&e, "", false, true, true, false, true);
    assert!(a.contains("Uninstall from Host"));
    let a = store_action_html(&e, "", false, true, true, false, false);
    assert_eq!(a, r#"<span class="plugin-badge installed">Installed on Host</span>"#);
    let a = store_action_html(&e, "a b.com", false, true, true, true, false);
    assert!(a.contains("/plugins/deactivate-host"));
    let a = store_action_html(&e, "example.com", false, true, true, false, false);
    assert!(a.contains("/plugins/activate-host"));
    let a = store_action_html(&e, "example.com", false, true, false, false, true);
    assert!(a.contains("Install on Host (then activate for this site)"));
    let a = store_action_html(&e, "example.com", false, true, false, false, false);
    assert!(a.contains("Ask the panel admin"));
    let s = entry("seo", "free", "x");
    assert!(store_action_html(&s, "example.com", true, false, false, false, false).contains(">Installed<"));
    assert!(store_action_html(&s, "", false, false, false, false, false).contains("Select a domain"));
    assert!(store_action_html(&s, "example.com", false, false, false, false, false).contains("/plugins/install"));
    let r = entry("roundcube", "free", "mail");
    let a = store_action_html(&r, "a b.com", false, true, true, false, true);
    assert!(a.contains("&amp;domain=a+b.com&amp;q=roundcube"));
}

#[test]
fn catalog_card_shows_badges() {
    let mut e = entry("clamav", "paid", "<scanner>");
    e.featured = true;
    let acts = vec![PluginActivation {
        domain: "example.com".into(),
        plugin_id: "clamav".into(),
        activated_at_unix: 1,
        source: "host".into(),
    }];
    let html = render_catalog_card(&e, &Vec::new(), &acts, "example.com", true, false);
    assert!(html.contains(r#"<span class="plugin-badge">Host</span>"#));
    assert!(html.contains("plugin-badge paid"));
    assert!(html.contains("plugin-badge featured"));
    assert!(html.contains("&lt;scanner&gt;"));
    assert!(html.contains("Deactivate"));
}

use cpn_panel::plugins_settings::{
    default_show_in_sidebar, fill_declared_defaults, fresh_plugin_settings, manifest_has_dashboard,
    set_setting, setting_value, sidebar_link, sidebar_plugin_links, sort_sidebar_links,
    ManifestExtras, PluginSettingField, PluginSettings, SidebarCandidate,
};

fn greeting_field(default: &str) -> PluginSettingField {
    PluginSettingField {
        key: "greeting".into(),
        label: "Greeting".into(),
        field_type: "text".into(),
        default: default.into(),
    }
}

#[test]
fn settings_defaults_and_updates() {
    let extras = ManifestExtras {
        settings_fields: vec![greeting_field("Hello")],
        show_in_sidebar: Some(true),
        has_dashboard: true,
    };
    assert!(default_show_in_sidebar(&extras));
    assert!(manifest_has_dashboard(&extras));
    let mut loaded = fresh_plugin_settings(&extras);
    assert!(loaded.show_in_sidebar);
    assert_eq!(setting_value(&loaded, "greeting").as_deref(), Some("Hello"));
    loaded.show_in_sidebar = false;
    set_setting(&mut loaded, "greeting", "Hi");
    assert_eq!(setting_value(&loaded, "greeting").as_deref(), Some("Hi"));
    assert_eq!(setting_value(&loaded, "missing"), None);
    let none = ManifestExtras::none();
    assert!(!default_show_in_sidebar(&none));
    assert!(fresh_plugin_settings(&none).fields.is_empty());
}

#[test]
fn declared_defaults_fill_only_missing_keys() {
    let mut s = PluginSettings { show_in_sidebar: false, fields: vec![("greeting".into(), "Hi".into())] };
    let declared = vec![greeting_field("Hello"), PluginSettingField {
        key: "color".into(),
        label: "Color".into(),
        field_type: "text".into(),
        default: "blue".into(),
    }];
    fill_declared_defaults(&mut s, &declared);
    assert_eq!(setting_value(&s, "greeting").as_deref(), Some("Hi"));
    assert_eq!(setting_value(&s, "color").as_deref(), Some("blue"));
}

#[test]
fn sidebar_links_are_filtered_and_sorted() {
    let c = |domain: &str, id: &str, name: &str, ok: bool| SidebarCandidate {
        domain: domain.into(),
        may_manage: ok,
        id: id.into(),
        name: name.into(),
        enabled: true,
        show_in_sidebar: true,
    };
    let cands = vec![
        c("b.com", "zeta", "Zeta", true),
        c("a b.com", "alpha", "alpha", true),
        c("c.com", "hidden", "Hidden", false),
        c("a.com", "alpha", "Alpha", true),
    ];
    let links = sidebar_plugin_links(&cands);
    let order: Vec<(&str, &str)> = links.iter().map(|l| (l.name.as_str(), l.domain.as_str())).collect();
    assert_eq!(order, vec![("alpha", "a b.com"), ("Alpha", "a.com"), ("Zeta", "b.com")]);
    assert_eq!(links[0].href, "/plugins/dashboard?domain=a+b.com&id=alpha");
    let l = sidebar_link("ex.com", "p", "P");
    assert_eq!(l.href, "/plugins/dashboard?domain=ex.com&id=p");
    assert!(sort_sidebar_links(Vec::new()).is_empty());
}

#[test]
fn sanitize_removes_the_three_spellings_and_is_stable() {
    let once = sanitize_user_text("CyberPanel, cyberpanel and CYBERPANEL; CyberCyberPanelPanel");
    assert_eq!(once, "CPN Panel, CPN and CPN; CyberCPN PanelPanel");
    assert!(!once.contains("CyberPanel"));
    assert!(!once.contains("cyberpanel"));
    assert!(!once.contains("CYBERPANEL"));
    assert_eq!(sanitize_user_text(&once), once);
    // Other casings are not among the replaced spellings.
    assert_eq!(sanitize_user_text("Cyberpanel"), "Cyberpanel");
}

#[test]
fn activated_plugins_listed_as_installed_in_order() {
    let clam = host_manifest_from_meta("clamav", "<name>ClamAV</name>", 1);
    let ban = host_manifest_from_meta("fail2ban", "<name>Fail2ban</name>", 2);
    let loaded = vec![
        ("clamav".to_string(), Some(clam)),
        ("autoBan".to_string(), None),
        ("fail2ban".to_string(), Some(ban)),
    ];
    let list = activated_as_installed(" site.test ", loaded, "/data");
    assert_eq!(list.len(), 2);
    assert_eq!(list[0].manifest.id, "clamav");
    assert_eq!(list[0].path, "/data/host-plugins/clamav");
    assert_eq!(list[0].domain, "site.test");
    assert_eq!(list[0].manifest.domain, "site.test");
    assert_eq!(list[0].manifest.source, "host-activation");
    assert!(list[0].manifest.enabled);
    assert_eq!(list[1].manifest.name, "Fail2ban");
    assert_eq!(list[1].path, "/data/host-plugins/fail2ban");
}
