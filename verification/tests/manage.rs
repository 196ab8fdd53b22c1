use cpn_panel::panel_theme::DesignPreset;
use cpn_panel::panel_theme_chrome::manage_design_controls;
use cpn_panel::panel_website_manage::{website_manage_main, ManageFacts, ManageTab};
use cpn_panel::panel_website_manage_ssl::{database_label, ftp_label, tab_overview, tab_ssl, OverviewFacts, SslTabFacts};
use cpn_panel::panel_website_manage_tabs::{
    tab_apps, tab_config, tab_domains, tab_files, tab_logs, ChildSite, ConfigFacts, FtpInfo,
    HtaccessState,
};
use cpn_panel::panel_website_manage_tools::{
    tab_alias, tab_clone, tab_cron, tab_git, tab_terminal, SiteCronJob,
};
use cpn_panel::panel_website_manage_ui::{
    notice_block, resource_card, section, ssl_status_card, tab_bar, tile, ManageChrome,
    SslInsight,
};
use cpn_panel::site::SiteRecord;

fn sample() -> SiteRecord {
    SiteRecord {
        domain: "cpn-lab-test.example".into(),
        owner: "Admin".into(),
        docroot: "/tmp/cpn-manage-missing".into(),
        home: "/tmp/cpn-manage-missing".into(),
        enabled: true,
        aliases: Vec::new(),
        php_version: None,
        internal_ip: None,
        engine: None,
        owner_suspend_message: String::new(),
    }
}

fn insight(kind: &str) -> SslInsight {
    SslInsight {
        kind: kind.into(),
        kind_label: "Valid certificate".into(),
        expires_display: None,
        issuer: String::new(),
        sans: Vec::new(),
        detail: "No certificate found".into(),
        badge: "<span class=\"manage-badge ssl-badge ssl-none\">No SSL</span>".into(),
        provider_label: "Let's Encrypt".into(),
        live_url: "http://cpn-lab-test.example".into(),
    }
}

fn overview() -> OverviewFacts {
    OverviewFacts {
        disk: "Unavailable".into(),
        disk_pct: 0,
        bandwidth_label: "n/a".into(),
        bandwidth_hint: "No access log yet".into(),
        database_count: 0,
        database_detail: String::new(),
        ftp_ready: false,
        cpu: "n/a".into(),
        cpu_avg: "n/a".into(),
        cpu_peak: "n/a".into(),
        mem: "n/a".into(),
        mem_avg: "n/a".into(),
        mem_peak: "n/a".into(),
        cpu_svg: "<svg></svg>".into(),
        mem_svg: "<svg></svg>".into(),
        stack: "OpenLiteSpeed".into(),
        legacy_docroot: false,
        ssl: insight("none"),
    }
}

fn facts() -> ManageFacts {
    ManageFacts {
        chrome: ManageChrome {
            preview_url: "/preview/cpn-lab-test.example/".into(),
            design_controls: manage_design_controls(DesignPreset::Default, true, ""),
            ssl_badge: String::new(),
        },
        icon_styles: String::new(),
        overview: overview(),
        parent: String::new(),
        children: Vec::new(),
        config: ConfigFacts {
            stack: "OpenLiteSpeed".into(),
            php_version: None,
            php_detail: "php-fpm not found".into(),
            vhost: None,
            htaccess: HtaccessState::Missing,
            suspend_message_form: String::new(),
        },
        ssl: SslTabFacts {
            provider: "letsencrypt".into(),
            provider_label: "Let's Encrypt".into(),
            providers: vec![
                ("letsencrypt".into(), "Let's Encrypt".into()),
                ("custom".into(), "Custom".into()),
            ],
            wildcard: true,
            san: false,
            coverage_label: "Wildcard".into(),
            has_material: false,
            shared_owner: None,
            last_error: String::new(),
            auto_issue: true,
            certbot: false,
        },
        ftp: FtpInfo { stack: "OpenSSH".into(), detail: "ready".into() },
        terminal_script: "<script></script>".into(),
        tools_csrf: "tok".into(),
        git_snapshot: "clean".into(),
        staging: Some("staging.cpn-lab-test.example".into()),
    }
}

#[test]
fn manage_dashboard_has_banner_tabs_and_preview() {
    let html = website_manage_main(&sample(), Some("overview"), None, None, &facts());
    assert!(html.contains("manage-banner"));
    assert!(html.contains("Preview Website"));
    assert!(html.contains("File Manager"));
    assert!(html.contains("cpn-design-open"));
    assert!(html.contains("manage-tabs"));
    assert!(html.contains("Disk Usage"));
    assert!(html.contains("/preview/cpn-lab-test.example/"));
    assert!(!html.to_lowercase().contains("cyberpanel"));
    assert!(!html.to_lowercase().contains("email marketing"));
}

#[test]
fn tab_parse_defaults_overview() {
    assert_eq!(ManageTab::parse(None), ManageTab::Overview);
    assert_eq!(ManageTab::parse(Some("SSL")), ManageTab::Ssl);
    assert_eq!(ManageTab::parse(Some("files")), ManageTab::Files);
    assert_eq!(ManageTab::parse(Some("apps")), ManageTab::Apps);
    assert_eq!(ManageTab::parse(Some("plugins")), ManageTab::Apps);
    assert_eq!(ManageTab::parse(Some("git")), ManageTab::Git);
    assert_eq!(ManageTab::parse(Some("terminal")), ManageTab::Terminal);
    assert_eq!(ManageTab::parse(Some("staging")), ManageTab::Clone);
    assert_eq!(ManageTab::Apps.as_str(), "plugins");
}

#[test]
fn quick_actions_enable_terminal_git_clone() {
    let html = website_manage_main(&sample(), Some("overview"), None, None, &facts());
    assert!(html.contains("tab=terminal"));
    assert!(html.contains("tab=git"));
    assert!(html.contains("tab=clone"));
    assert!(!html.contains("Web terminal ships later"));
    assert!(!html.contains("Git manager ships later"));
    assert!(!html.contains("Clone/staging ships later"));
}

fn site_with_alias() -> SiteRecord {
    let mut s = sample();
    s.docroot = "/tmp/cpn-manage-missing/public_html".into();
    s.aliases = vec!["www.cpn-lab-test.example".into()];
    s
}

#[test]
fn alias_tab_lists_and_form() {
    let html = tab_alias(&site_with_alias(), "tok", false);
    assert!(html.contains("Domain Alias"));
    assert!(html.contains("www.cpn-lab-test.example"));
    assert!(html.contains("/websites/alias/add"));
    assert!(!html.to_lowercase().contains("scaffold"));
    assert!(!html.to_lowercase().contains("cyberpanel"));
}

#[test]
fn cron_tab_has_editor() {
    let html = tab_cron(&site_with_alias(), "tok", &Vec::new());
    assert!(html.contains("Cron Jobs"));
    assert!(html.contains("/websites/cron/add"));
    assert!(!html.to_lowercase().contains("scaffold"));
    assert!(!html.to_lowercase().contains("cyberpanel"));
}

#[test]
fn overview_has_resource_cards() {
    let html = tab_overview(&sample(), &overview());
    assert!(html.contains("Disk Usage"));
    assert!(html.contains("Bandwidth"));
    assert!(html.contains("CPU Usage (host)"));
    assert!(html.contains("Memory Usage (host)"));
    assert!(html.contains("/api/websites/manage/metrics"));
    assert!(html.contains("manage-metric-dialog"));
    assert!(!html.to_lowercase().contains("email marketing"));
    assert!(!html.to_lowercase().contains("cyberpanel"));
}

#[test]
fn domains_has_tiles() {
    let html = tab_domains(&sample(), "", &Vec::new());
    assert!(html.contains("Add Domains"));
    assert!(html.contains("Cron Jobs"));
    assert!(html.contains("tab=alias"));
    assert!(html.contains("tab=cron"));
    assert!(!html.to_lowercase().contains("scaffold"));
}

#[test]
fn apps_tab_is_single_plugins_entry() {
    let html = tab_apps(&sample());
    assert!(html.contains("<strong>Plugins</strong>"));
    assert!(html.contains("manage-section-title\">Plugins</h2>"));
    assert!(html.contains("/plugins?domain="));
    assert!(html.contains("/backups?scope=site"));
    assert!(!html.contains("Site Apps"));
    assert!(!html.contains("/apps?"));
    assert!(!html.to_lowercase().contains("cyberpanel"));
}

#[test]
fn domains_list_parent_children_and_aliases() {
    let children = vec![ChildSite { domain: "a.example".into(), enabled: false, ssl_label: "Custom".into() }];
    let html = tab_domains(&site_with_alias(), "", &children);
    assert!(html.contains("<li><a href=\"/websites/manage?domain=a.example\">a.example</a> · Suspended · SSL Custom</li>"));
    assert!(html.contains("<code>www.cpn-lab-test.example</code>"));
    let html = tab_domains(&sample(), "parent.example", &Vec::new());
    assert!(html.contains("Parent domain: <a href=\"/websites/manage?domain=parent.example\">parent.example</a>"));
}

#[test]
fn every_tab_renders_its_body() {
    let f = facts();
    for (raw, needle) in [
        ("logs", "Access Logs"),
        ("config", "Configurations"),
        ("ssl", "Save provider"),
        ("files", "open_basedir"),
        ("plugins", "/backups?scope=site"),
        ("shell", "Web terminal"),
        ("git", "Manage Git"),
        ("clone", "staging.cpn-lab-test.example"),
        ("domains", "Registered under this site"),
    ] {
        let html = website_manage_main(&sample(), Some(raw), Some("Saved"), Some("Oops"), &f);
        assert!(html.contains(needle), "{raw}");
        assert!(html.contains("panel-notice ok"));
        assert!(html.contains("panel-notice error"));
    }
    let mut s = sample();
    s.enabled = false;
    assert!(website_manage_main(&s, None, None, None, &f).contains("/websites/resume"));
}

#[test]
fn manage_pieces() {
    assert_eq!(notice_block("ok", Some("")), "");
    assert_eq!(notice_block("error", Some("x<")), "<p class=\"panel-notice error\" role=\"status\">x&lt;</p>");
    assert!(resource_card("Disk", "1 GB", Some(250)).contains("width:100%"));
    assert!(tab_bar("d.com", "apps").contains("tab=plugins\" class=\"active\""));
    assert!(tile("/x", "T", "S").contains("<strong>T</strong><span>S</span>"));
    assert_eq!(section("A", "b"), "<h2 class=\"manage-section-title\">A</h2>b");
    let mut i = insight("valid");
    i.sans = vec!["a".into(), "b".into(), "c".into(), "d".into(), "e".into()];
    i.issuer = "R3".into();
    let card = ssl_status_card(&sample(), &i);
    assert!(card.contains(" · SANs: <strong>a, b, c, d</strong>"));
    assert!(card.contains("Valid certificate for cpn-lab-test.example."));
    assert!(card.contains("Visit live site"));
    let ssl = tab_ssl(&sample(), &facts().ssl);
    assert!(ssl.contains("<option value=\"letsencrypt\" selected>Let&#39;s Encrypt</option>") || ssl.contains("<option value=\"letsencrypt\" selected>Let's Encrypt</option>"));
    let cfg = tab_config(&sample(), &ConfigFacts {
        stack: "nginx".into(),
        php_version: Some("8.3".into()),
        php_detail: "fpm".into(),
        vhost: Some(("/etc/nginx/conf.d/x.conf".into(), "server {}".into())),
        htaccess: HtaccessState::Read { path: "/x/.htaccess".into(), body: "R".repeat(13000) },
        suspend_message_form: "<form></form>".into(),
    });
    assert!(cfg.contains("PHP: 8.3 · fpm"));
    assert!(cfg.contains(&format!(">{}</pre>", "R".repeat(12000))));
    assert!(tab_files(&sample(), &facts().ftp).contains("FTP stack: OpenSSH: ready"));
    assert!(tab_logs(&sample()).contains("id=\"error\""));
    assert!(tab_git(&sample(), "t", "s").contains("Pull (ff-only)"));
    assert!(tab_clone(&sample(), "t", None).contains("staging.cpn-lab-test.example"));
    assert!(tab_terminal(&sample(), "<x>").contains("<x>"));
    let job = SiteCronJob {
        id: "1".into(),
        minute: "*/5".into(),
        hour: "*".into(),
        day: "*".into(),
        month: "*".into(),
        weekday: "*".into(),
        command: "php a.php".into(),
        comment: String::new(),
        enabled: true,
    };
    let cron = tab_cron(&sample(), "tok", &vec![job]);
    assert!(cron.contains("<code>*/5 * * * *</code>"));
    assert!(cron.contains(" checked> On"));
}

#[test]
fn overview_database_and_ftp_labels() {
    assert_eq!(database_label(0, "mysql not reachable"), "n/a");
    assert_eq!(database_label(0, "Listed via mysql CLI"), "0");
    assert_eq!(database_label(3, ""), "3");
    assert_eq!(ftp_label(true), "See FTP hub");
    assert_eq!(ftp_label(false), "0");
    let mut f = overview();
    f.database_count = 2;
    f.ftp_ready = true;
    let html = tab_overview(&sample(), &f);
    assert!(html.contains("See FTP hub"));
}
