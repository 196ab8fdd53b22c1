use cpn_panel::panel_plugin_flows::{
    plugin_flow_step, plugins_redirect, FlowFacts, FlowStep, PluginForm, PluginOp, SitePermKind,
};
use cpn_panel::panel_plugins_page::{plugins_page_request, PluginsPageRequest};
use cpn_panel::panel_plugins_unified::{collect_unified, host_filter_category, unified_category_pills, UnifiedItem};
use cpn_panel::panel_plugins_catalog_list::store_catalog;
use cpn_panel::plugins::CatalogEntry;

fn facts(admin: bool, host_installed: bool, host_owned: bool, confirmed: bool) -> FlowFacts {
    FlowFacts {
        admin,
        host_installed,
        host_owned,
        confirm_refusal: if confirmed { None } else { Some("Type the plugin id to confirm".to_string()) },
    }
}

/// Runs a flow with scripted operation results, returning the operations asked for and the
/// final (view, notice, error).
fn run(
    form: PluginForm,
    id: &str,
    domain: &str,
    f: &FlowFacts,
    script: &[Result<&str, &str>],
) -> (Vec<PluginOp>, (String, Option<String>, Option<String>)) {
    let mut results: Vec<Result<String, String>> = Vec::new();
    let mut ops = Vec::new();
    loop {
        match plugin_flow_step(form, id, domain, "", f, &results) {
            FlowStep::Run(op) => {
                ops.push(op);
                let r = script[results.len()];
                results.push(r.map(|s| s.to_string()).map_err(|e| e.to_string()));
            }
            FlowStep::Finish(r) => return (ops, (r.view, r.notice, r.error)),
        }
    }
}

#[test]
fn site_install_checks_then_installs() {
    let (ops, end) = run(PluginForm::Install, "demoPlugin", "example.com", &facts(false, false, false, true), &[Ok(""), Ok("Demo")]);
    assert_eq!(ops, vec![PluginOp::CheckSite(SitePermKind::Install), PluginOp::InstallForSite]);
    assert_eq!(end, ("installed".to_string(), Some("Installed Demo".to_string()), None));
    let (ops, end) = run(PluginForm::Install, "demoPlugin", "example.com", &facts(false, false, false, true), &[Err("No access")]);
    assert_eq!(ops.len(), 1);
    assert_eq!(end, ("store".to_string(), None, Some("No access".to_string())));
}

#[test]
fn host_package_install_paths() {
    // Installed on the host: activate for the site.
    let (ops, end) = run(PluginForm::Install, "clamav", "example.com", &facts(false, true, false, true), &[Ok(""), Ok("ClamAV")]);
    assert_eq!(ops, vec![PluginOp::CheckSite(SitePermKind::Enable), PluginOp::ActivateForSite]);
    assert_eq!(end.1, Some("Activated ClamAV".to_string()));
    // Not on the host and not admin: refused without running anything.
    let (ops, end) = run(PluginForm::Install, "clamav", "example.com", &facts(false, false, false, true), &[]);
    assert!(ops.is_empty());
    assert_eq!(end.2, Some("This is a Host package. Ask the panel admin to Install on Host first.".to_string()));
    // Admin: install on host, then activate.
    let (ops, end) = run(PluginForm::Install, "clamav", " example.com ", &facts(true, false, false, true), &[Ok("ClamAV"), Ok("")]);
    assert_eq!(ops, vec![PluginOp::InstallHost, PluginOp::ActivateForSite]);
    assert_eq!(end, ("store".to_string(), Some("Installed ClamAV on Host and activated for example.com".to_string()), None));
    let (_, end) = run(PluginForm::Install, "clamav", "example.com", &facts(true, false, false, true), &[Ok("ClamAV"), Err("busy")]);
    assert_eq!(end.1, Some("Installed ClamAV on Host, but site activate failed: busy".to_string()));
    let (ops, end) = run(PluginForm::Install, "clamav", "", &facts(true, false, false, true), &[Ok("ClamAV")]);
    assert_eq!(ops, vec![PluginOp::InstallHost]);
    assert_eq!(end.1, Some("Installed ClamAV on Host".to_string()));
}

#[test]
fn install_host_form_checks_site_before_activating() {
    let (ops, end) = run(PluginForm::InstallHost, "clamav", "example.com", &facts(false, false, false, true), &[]);
    assert!(ops.is_empty());
    assert_eq!(end.2, Some("Only the panel admin can install Host plugins".to_string()));
    let (ops, end) = run(PluginForm::InstallHost, "clamav", "example.com", &facts(true, false, false, true), &[Ok("ClamAV"), Err("no"), Ok("")]);
    assert_eq!(ops, vec![PluginOp::InstallHost, PluginOp::CheckSite(SitePermKind::Enable)]);
    assert_eq!(end.1, Some("Installed ClamAV on Host".to_string()));
    let (ops, _) = run(PluginForm::InstallHost, "clamav", "example.com", &facts(true, false, false, true), &[Ok("ClamAV"), Ok(""), Ok("")]);
    assert_eq!(ops.len(), 3);
}

#[test]
fn uninstall_needs_confirmation_and_respects_host_owner() {
    let (ops, end) = run(PluginForm::Uninstall, "demoPlugin", "example.com", &facts(true, false, false, false), &[]);
    assert!(ops.is_empty());
    assert_eq!(end, ("installed".to_string(), None, Some("Type the plugin id to confirm".to_string())));
    let (ops, end) = run(PluginForm::Uninstall, "clamav", "example.com", &facts(false, true, true, true), &[]);
    assert!(ops.is_empty());
    assert!(end.2.unwrap().starts_with("This plugin is installed on the Host."));
    let (ops, end) = run(PluginForm::Uninstall, " clamav ", "example.com", &facts(true, true, true, true), &[Ok("")]);
    assert_eq!(ops, vec![PluginOp::UninstallHost]);
    assert_eq!(end, ("store".to_string(), Some("Uninstalled host plugin clamav".to_string()), None));
    let (ops, end) = run(PluginForm::Uninstall, "demoPlugin", "example.com", &facts(false, false, false, true), &[Ok(""), Ok("")]);
    assert_eq!(ops, vec![PluginOp::CheckSite(SitePermKind::Uninstall), PluginOp::UninstallForSite]);
    assert_eq!(end.1, Some("Uninstalled demoPlugin".to_string()));
}

#[test]
fn uninstall_host_returns_to_the_asked_view() {
    let f = facts(true, true, false, true);
    match plugin_flow_step(PluginForm::UninstallHost, "clamav", "", " Installed ", &f, &vec![Ok(String::new())]) {
        FlowStep::Finish(r) => {
            assert_eq!(r.view, "installed");
            assert_eq!(r.notice, Some("Uninstalled host plugin clamav".to_string()));
        }
        FlowStep::Run(_) => panic!("flow should finish"),
    }
}

#[test]
fn enable_disable_and_deactivate() {
    let (ops, end) = run(PluginForm::Enable, "demoPlugin", "example.com", &facts(false, false, false, true), &[Ok(""), Ok("Demo")]);
    assert_eq!(ops[1], PluginOp::SetEnabled(true));
    assert_eq!(end.1, Some("Activated Demo".to_string()));
    let (ops, end) = run(PluginForm::Disable, "demoPlugin", "example.com", &facts(false, false, false, true), &[Ok(""), Ok("Demo")]);
    assert_eq!(ops[1], PluginOp::SetEnabled(false));
    assert_eq!(end.1, Some("Deactivated Demo".to_string()));
    let (_, end) = run(PluginForm::DeactivateHost, " clamav", "example.com", &facts(false, true, false, true), &[Ok(""), Ok("")]);
    assert_eq!(end, ("installed".to_string(), Some("Deactivated clamav".to_string()), None));
    let (_, end) = run(PluginForm::ActivateHost, "clamav", "example.com", &facts(false, true, false, true), &[Ok(""), Err("off")]);
    assert_eq!(end, ("store".to_string(), None, Some("off".to_string())));
}

#[test]
fn plugin_redirects_encode_values() {
    assert_eq!(
        plugins_redirect("example.com", "installed", Some("Activated Demo"), None),
        "/plugins?view=installed&domain=example.com&notice=Activated+Demo"
    );
    assert_eq!(plugins_redirect("", "store", None, Some("a&b")), "/plugins?view=store&domain=&error=a%26b");
}

fn pairs(v: &[(&str, &str)]) -> Vec<(String, String)> {
    v.iter().map(|(k, x)| (k.to_string(), x.to_string())).collect()
}

#[test]
fn legacy_host_tab_moves_to_store() {
    let q = pairs(&[("view", "apps"), ("domain", "example.com"), ("q", "mail db"), ("category", "x"), ("page", " ")]);
    match plugins_page_request(&q, None, &Vec::new()) {
        PluginsPageRequest::Moved(loc) => {
            assert_eq!(loc, "/plugins?view=store&category=Host&domain=example.com&q=mail+db")
        }
        PluginsPageRequest::Show(_) => panic!("legacy view must redirect"),
    }
}

#[test]
fn page_request_defaults_and_site_choice() {
    let sites = vec!["Example.com".to_string()];
    match plugins_page_request(&pairs(&[("domain", " example.COM "), ("view-store", "")]), Some("1"), &sites) {
        PluginsPageRequest::Show(p) => {
            assert_eq!(p.view, "store");
            assert_eq!(p.layout, "grid");
            assert_eq!(p.mode, "page");
            assert_eq!(p.page, 1);
            assert_eq!(p.per_page, 4);
            assert_eq!(p.domain, "example.COM");
            assert!(p.partial);
            assert!(!p.refresh);
        }
        PluginsPageRequest::Moved(_) => panic!("not a legacy view"),
    }
    match plugins_page_request(&pairs(&[("domain", "other.org"), ("page", "3"), ("per_page", "8"), ("refresh", "1")]), None, &sites) {
        PluginsPageRequest::Show(p) => {
            assert_eq!(p.view, "installed");
            assert_eq!(p.domain, "");
            assert_eq!(p.page, 3);
            assert_eq!(p.per_page, 8);
            assert!(p.refresh);
            assert!(!p.partial);
        }
        PluginsPageRequest::Moved(_) => panic!("not a legacy view"),
    }
}

fn entry(id: &str, category: &str) -> CatalogEntry {
    CatalogEntry {
        id: id.into(),
        name: id.into(),
        category: category.into(),
        version: "1.0.0".into(),
        description: String::new(),
        author: String::new(),
        pricing: "free".into(),
        released_on: String::new(),
        updated_on: String::new(),
        install_count: 0,
        featured: false,
        uninstall_impacts: Vec::new(),
        host_scoped: false,
    }
}

#[test]
fn unified_pills_merge_host_and_catalog_categories() {
    let host = vec!["Databases".to_string(), "Mail".to_string()];
    let entries = vec![entry("a", "mail"), entry("b", "Security")];
    let html = unified_category_pills(&host, &entries, "security", "example.com", "page", 4, " x ");
    assert!(html.starts_with("<div class=\"category-pills\"><a class=\"\" href=\"/plugins?view=store&amp;domain=example.com&amp;mode=page&amp;per_page=4&amp;q=+x+\">All</a>"));
    assert!(html.contains(">Databases</a>"));
    assert!(html.contains(">Mail</a>"));
    assert!(!html.contains(">mail</a>"));
    assert!(html.contains("<a class=\"active\" href=\"/plugins?view=store&amp;category=Security"));
    let none = unified_category_pills(&Vec::new(), &Vec::new(), "", "", "page", 4, "");
    assert!(none.contains("<a class=\"active\" href=\"/plugins?view=store&amp;domain=&amp;mode=page&amp;per_page=4\">All</a>"));
}

#[test]
fn store_catalog_pages_and_empty_state() {
    let entries: Vec<CatalogEntry> = (0..5).map(|i| entry(&format!("p{i}"), "Utility")).collect();
    let none = store_catalog(&entries, &Vec::new(), &Vec::new(), &Vec::new(), false, "zzz", "", "", "page", 1, 4);
    assert!(none.contains("No plugins match this search."));
    let page2 = store_catalog(&entries, &Vec::new(), &Vec::new(), &Vec::new(), false, "", "", "", "page", 2, 4);
    assert!(page2.contains("Page 2 / 2"));
    assert!(page2.contains("p4"));
    assert!(!page2.contains(">p0<"));
    assert!(page2.contains("<div class=\"plugin-grid-scroll\"><div class=\"plugin-grid\">"));
    let scroll = store_catalog(&entries, &Vec::new(), &Vec::new(), &Vec::new(), false, "", "", "", "scroll", 9, 4);
    assert!(scroll.contains("plugin-grid-scroll is-scroll"));
    assert!(scroll.contains("5 matching"));
}

#[test]
fn repeated_query_keys_keep_the_last_value() {
    match plugins_page_request(&pairs(&[("q", "first"), ("view", "store"), ("q", "second")]), None, &Vec::new()) {
        PluginsPageRequest::Show(p) => assert_eq!(p.q, "second"),
        PluginsPageRequest::Moved(_) => panic!("not a legacy view"),
    }
}

#[test]
fn legacy_host_redirect_keeps_each_key_once_with_its_last_value() {
    let q = pairs(&[("q", "first"), ("view", "host"), ("domain", "a.test"), ("q", "second"), ("page", "2"), ("page", " ")]);
    match plugins_page_request(&q, None, &Vec::new()) {
        PluginsPageRequest::Moved(loc) => {
            assert_eq!(loc, "/plugins?view=store&category=Host&q=second&domain=a.test")
        }
        PluginsPageRequest::Show(_) => panic!("legacy view must redirect"),
    }
}

#[test]
fn host_category_includes_host_apps() {
    let host_categories = vec!["Databases".to_string()];
    let hosts = vec!["MariaDB".to_string(), "phpMyAdmin".to_string()];
    let entries: Vec<CatalogEntry> = Vec::new();
    assert_eq!(host_filter_category("Host"), "");
    let items = collect_unified(&host_categories, &hosts, &entries, "", "Host");
    assert_eq!(items.len(), 2);
}

#[test]
fn unified_rows_sorted_by_name_with_roundcube_listed_once() {
    let host_categories = vec!["Email".to_string()];
    let hosts = vec!["Roundcube".to_string(), "MariaDB".to_string()];
    let mut zed = entry("zed", "Security");
    zed.name = "Zed".into();
    let mut alpha = entry("alpha", "Mail");
    alpha.name = "alpha".into();
    let entries = vec![zed, entry("roundcubeWebmail", "Mail"), alpha];
    assert_eq!(host_filter_category("Email"), "Email");
    let all = collect_unified(&host_categories, &hosts, &entries, "", "");
    assert_eq!(
        all,
        vec![UnifiedItem::Catalog(2), UnifiedItem::Host(1), UnifiedItem::Host(0), UnifiedItem::Catalog(0)]
    );
    // A catalog-only category leaves the host packages out.
    let mail = collect_unified(&host_categories, &hosts, &entries, "", "mail");
    assert_eq!(mail, vec![UnifiedItem::Catalog(2)]);
    // The Host pill keeps only host-scoped catalog entries.
    let mut scoped = entry("guard", "Security");
    scoped.host_scoped = true;
    let host_only = collect_unified(&host_categories, &hosts, &vec![entry("plain", "Security"), scoped], "", "host");
    assert_eq!(host_only, vec![UnifiedItem::Catalog(1), UnifiedItem::Host(1), UnifiedItem::Host(0)]);
}
