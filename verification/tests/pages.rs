use cpn_panel::panel_prefs::PanelUiPrefs;
use cpn_panel::panel_sections::{
    databases_main, email_main, section_heading, set_websites_docroot_pref, websites_main, SiteListing,
    SmtpSummary,
};
use cpn_panel::panel_website_logs_ui::{logs_modal_styles, logs_tab_html, themes_catalog_panel};
use cpn_panel::panel_websites_create_ui::{websites_create_main, CloudflareZones};
use cpn_panel::panel_wordpress_ui::{
    wordpress_install_page, wordpress_list_page, wordpress_manage_page, PluginRow, ThemeRow, WordpressSite,
    WordpressSiteSnapshot, WpCliStatus,
};
use cpn_panel::php_lifecycle::MailSystem;
use cpn_panel::plugin_activation::{activate_host_plugin_for_domain, host_manifest_from_meta, PluginActivation};
use cpn_panel::releases_cache::cache_path;
use cpn_panel::site::SiteRecord;

fn listing(domain: &str, legacy: bool) -> SiteListing {
    SiteListing {
        domain: domain.into(),
        owner: "admin".into(),
        docroot: format!("/home/{domain}/public_html"),
        enabled: true,
        vhost_wired: false,
        legacy_docroot: legacy,
    }
}

#[test]
fn section_heading_escapes_title() {
    let h = section_heading("A & B", "blurb");
    assert!(h.contains("A &amp; B"));
    assert!(h.contains("blurb"));
}

#[test]
fn websites_page_lists_sites_and_toggles_docroots() {
    let empty = websites_main(None, None, &Vec::new(), true);
    assert!(empty.contains("Sites (0)"));
    assert!(empty.contains("No sites yet."));

    let sites = vec![listing("example.com", false), listing("<b>.org", true)];
    let shown = websites_main(Some("Saved"), None, &sites, true);
    assert!(shown.contains("Sites (2)"));
    assert!(shown.contains("<th>Document root</th>"));
    assert!(shown.contains("/home/example.com/public_html"));
    assert!(shown.contains("&lt;b&gt;.org"));
    assert!(!shown.contains("<b>.org"));
    assert!(shown.contains("Legacy path"));
    assert!(shown.contains("Hide document roots"));
    assert!(shown.contains("Saved"));

    let hidden = websites_main(None, Some("Oops"), &sites, false);
    assert!(!hidden.contains("<th>Document root</th>"));
    assert!(hidden.contains("Show document roots"));
    assert!(hidden.contains("Oops"));
}

#[test]
fn docroot_preference_is_written() {
    let mut prefs = PanelUiPrefs::default();
    assert!(prefs.show_document_roots);
    set_websites_docroot_pref(&mut prefs, false);
    assert!(!prefs.show_document_roots);
    set_websites_docroot_pref(&mut prefs, true);
    assert!(prefs.show_document_roots);
}

#[test]
fn email_page_summarises_smtp() {
    let smtp = SmtpSummary {
        configured: true,
        host: Some("smtp.example.com".into()),
        port: Some(587),
        tls_mode: Some("starttls".into()),
        from_address: None,
    };
    let html = email_main(Some(MailSystem::Roundcube), "Roundcube", true, false, &smtp, "/webmail/");
    assert!(html.contains("Roundcube"));
    assert!(html.contains("smtp.example.com:587 (starttls) from -"));
    assert!(html.contains("Ready"));
    assert!(html.contains("Not verified"));

    let off = SmtpSummary { configured: false, host: None, port: None, tls_mode: None, from_address: None };
    let html = email_main(None, "ignored", false, false, &off, "");
    assert!(html.contains("Not selected"));
    assert!(html.contains("Outbound SMTP is not configured"));
    assert!(!html.contains("ignored"));
}

#[test]
fn databases_page_offers_install_only_when_absent() {
    let absent = databases_main(None, None, "Not detected", false, "No MariaDB found");
    assert!(absent.contains("Install MariaDB"));
    assert!(absent.contains("Closed"));
    let present = databases_main(None, None, "MariaDB", true, "Service running");
    assert!(!present.contains("Install MariaDB</button>"));
    assert!(present.contains("Open"));
    assert!(present.contains("Service running"));
}

fn wp_site() -> WordpressSite {
    WordpressSite {
        domain: "blog.example.com".into(),
        site_url: "https://blog.example.com".into(),
        title: "My Blog".into(),
        wp_version: "6.5".into(),
        php_version: "8.3".into(),
        theme: "twentytwentyfour".into(),
        plugin_count: 2,
        owner: "admin".into(),
        docroot: "/home/blog.example.com/public_html".into(),
        db_name: "wp_blog".into(),
        db_user: "wp_blog".into(),
        search_indexing: true,
        debugging: false,
        maintenance: false,
        password_protection: false,
    }
}

#[test]
fn wordpress_list_and_install_pages() {
    let missing = WpCliStatus { available: false, detail: "wp not found".into(), binary: None, version: None };
    let html = wordpress_list_page(None, None, &missing, &vec![wp_site()]);
    assert!(html.contains("Missing"));
    assert!(html.contains("wp not found"));
    assert!(html.contains("blog.example.com"));
    let found = WpCliStatus {
        available: true,
        detail: "ok".into(),
        binary: Some("/usr/local/bin/wp".into()),
        version: Some("2.10.0".into()),
    };
    let html = wordpress_list_page(Some("Done"), None, &found, &Vec::new());
    assert!(html.contains("Available"));
    assert!(html.contains("/usr/local/bin/wp"));
    assert!(html.contains("Done"));
    let install = wordpress_install_page(None, Some("Bad domain"));
    assert!(install.contains("Install WordPress"));
    assert!(install.contains("Bad domain"));
}

#[test]
fn wordpress_manage_tabs_fall_back_to_general() {
    let snap = WordpressSiteSnapshot {
        site: wp_site(),
        plugins: vec![PluginRow {
            name: "akismet".into(),
            status: "active".into(),
            version: "5.3".into(),
            update: "none".into(),
        }],
        themes: vec![ThemeRow { name: "twentytwentyfour".into(), status: "active".into(), version: "1.1".into() }],
    };
    let plugins = wordpress_manage_page(&snap, "plugins", None, None);
    assert!(plugins.contains("<h2>Plugins</h2>"));
    assert!(plugins.contains("akismet"));
    let themes = wordpress_manage_page(&snap, "themes", None, None);
    assert!(themes.contains("twentytwentyfour"));
    let unknown = wordpress_manage_page(&snap, "nope", None, None);
    let general = wordpress_manage_page(&snap, "general", None, None);
    assert_eq!(unknown, general);
    assert!(general.contains("<h2>General</h2>"));
    assert!(general.contains("/home/blog.example.com/public_html"));
}

fn record(domain: &str) -> SiteRecord {
    SiteRecord {
        domain: domain.into(),
        owner: "admin".into(),
        docroot: format!("/home/{domain}/public_html"),
        home: format!("/home/{domain}"),
        enabled: true,
        aliases: Vec::new(),
        php_version: None,
        internal_ip: None,
        engine: None,
        owner_suspend_message: String::new(),
    }
}

#[test]
fn logs_tab_carries_the_domain() {
    let html = logs_tab_html(&record("a&b.example"));
    assert!(html.contains("data-domain=\"a&amp;b.example\""));
    assert!(html.contains("Access Logs"));
    assert!(html.contains("Error Logs"));
    assert!(logs_modal_styles().contains(".manage-log-dialog"));
}

#[test]
fn themes_panel_depends_on_edit_right() {
    let edit = themes_catalog_panel(true);
    let view = themes_catalog_panel(false);
    assert!(edit.contains("Theme Store"));
    assert!(view.contains("Theme Store"));
    assert_ne!(edit, view);
}

#[test]
fn create_page_modes_follow_cloudflare_state() {
    let accounts = vec!["admin".to_string(), "bob".to_string()];
    let local = websites_create_main("admin", true, &accounts, &CloudflareZones::NotConfigured, None, None);
    assert!(local.contains("Create Website"));
    assert!(local.contains("name=\"domain\""));
    assert!(local.contains("bob"));
    let zones = vec!["example.com".to_string()];
    let listed = websites_create_main("admin", true, &accounts, &CloudflareZones::Listed(zones), None, None);
    assert!(listed.contains("example.com"));
    let failed =
        websites_create_main("bob", false, &accounts, &CloudflareZones::Failed("token <bad>".into()), None, None);
    assert!(failed.contains("token &lt;bad&gt;"));
    assert!(failed.contains("zone picker is unavailable"));
    let none = websites_create_main("bob", false, &accounts, &CloudflareZones::Listed(Vec::new()), None, None);
    assert!(none.contains("no zones are available yet"));
}

#[test]
fn host_plugin_activation_records_and_refuses_twice() {
    let mut acts: Vec<PluginActivation> = Vec::new();
    let m = host_manifest_from_meta("clamav", "<name>ClamAV</name>", 1);
    let got = activate_host_plugin_for_domain(&mut acts, "example.com", "clamav", true, Ok(m), 77).unwrap();
    assert_eq!(got.domain, "example.com");
    assert_eq!(got.source, "host-activation");
    assert!(got.enabled);
    assert_eq!(acts.len(), 1);
    assert_eq!(acts[0].activated_at_unix, 77);
    let m2 = host_manifest_from_meta("clamav", "<name>ClamAV</name>", 1);
    let again = activate_host_plugin_for_domain(&mut acts, "example.com", "clamav", true, Ok(m2), 78);
    assert!(again.is_err());
    assert_eq!(acts.len(), 1);
    let failed = activate_host_plugin_for_domain(&mut acts, "other.org", "clamav", true, Err("no manifest".into()), 79);
    match failed {
        Err(e) => assert_eq!(e, "no manifest"),
        Ok(_) => panic!("activation without a manifest must fail"),
    }
    assert_eq!(acts.len(), 1);
    let m3 = host_manifest_from_meta("clamav", "", 1);
    let not_installed = activate_host_plugin_for_domain(&mut acts, "other.org", "clamav", false, Ok(m3), 80);
    assert!(not_installed.is_err());
}

#[test]
fn releases_cache_lives_in_the_data_dir() {
    assert_eq!(cache_path("/var/lib/cpn"), "/var/lib/cpn/github-releases-cache.json");
}
