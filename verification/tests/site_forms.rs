use cpn_panel::panel_websites_forms::{
    show_docroots_flag, site_create_owner, site_flow_step, SiteChange, SiteForm, SiteOp, SiteStep, SuspendActor,
};

fn run(form: SiteForm, domain: &str, prefs: &str, admin: bool, script: &[Result<(&str, &str), &str>]) -> (Vec<SiteOp>, String) {
    let mut results: Vec<Result<(String, String), String>> = Vec::new();
    let mut ops = Vec::new();
    loop {
        match site_flow_step(form, domain, prefs, admin, &results) {
            SiteStep::Run(op) => {
                ops.push(op);
                let r = script[results.len()];
                results.push(r.map(|(a, b)| (a.to_string(), b.to_string())).map_err(|e| e.to_string()));
            }
            SiteStep::Redirect(loc) => return (ops, loc),
        }
    }
}

#[test]
fn create_reports_domain_and_docroot() {
    let (ops, loc) = run(SiteForm::Create, "example.com", "", false, &[Ok(("", "")), Ok(("example.com", "/home/example.com/public_html"))]);
    assert_eq!(ops, vec![SiteOp::CheckCreateAllowed, SiteOp::Create]);
    assert_eq!(
        loc,
        "/websites?notice=Created+example.com+at+%2Fhome%2Fexample.com%2Fpublic_html.+Auto+SSL+and+SPF%2FDKIM%2FDMARC+were+attempted."
    );
    let (ops, loc) = run(SiteForm::Create, "example.com", "", false, &[Err("Quota reached")]);
    assert_eq!(ops.len(), 1);
    assert_eq!(loc, "/websites?error=Quota+reached");
}

#[test]
fn owner_choice_for_new_sites() {
    assert_eq!(site_create_owner(" bob ", "admin", true), "bob");
    assert_eq!(site_create_owner("bob", "alice", false), "alice");
    assert_eq!(site_create_owner("  ", "admin", true), "admin");
}

#[test]
fn suspend_records_actor_and_returns_to_manage() {
    let (ops, loc) = run(SiteForm::Suspend, "example.com", "", true, &[Ok(("example.com", "/d")), Ok(("example.com", "/d"))]);
    assert_eq!(ops, vec![SiteOp::CheckSite, SiteOp::Modify(SiteChange::Suspend(SuspendActor::Admin))]);
    assert_eq!(loc, "/websites/manage?domain=example.com&notice=Site+suspended");
    let (ops, _) = run(SiteForm::Suspend, "example.com", "", false, &[Ok(("", "")), Ok(("example.com", ""))]);
    assert_eq!(ops[1], SiteOp::Modify(SiteChange::Suspend(SuspendActor::Owner)));
    let (_, loc) = run(SiteForm::Resume, "example.com", "", false, &[Err("No access")]);
    assert_eq!(loc, "/websites?error=No+access");
}

#[test]
fn suspend_message_errors_stay_on_config_tab() {
    let (_, loc) = run(SiteForm::SuspendMessage, " example.com ", "", false, &[Ok(("", "")), Err("disk full")]);
    assert_eq!(loc, "/websites/manage?domain=example.com&tab=config&error=disk+full");
    let (_, loc) = run(SiteForm::SuspendMessageRestore, "example.com", "", false, &[Ok(("", "")), Ok(("example.com", ""))]);
    assert_eq!(loc, "/websites/manage?domain=example.com&tab=config&notice=Suspend+message+restored+to+panel+default");
}

#[test]
fn delete_prefs_and_placeholder() {
    let (_, loc) = run(SiteForm::Delete, " example.com ", "", false, &[Ok(("", ""))]);
    assert_eq!(loc, "/websites?notice=Deleted+example.com");
    let (ops, loc) = run(SiteForm::Prefs, "", " on ", false, &[Ok(("", ""))]);
    assert_eq!(ops, vec![SiteOp::SavePrefs(true)]);
    assert_eq!(loc, "/websites?notice=Document+roots+visible");
    assert!(!show_docroots_flag("TRUE"));
    let (ops, loc) = run(SiteForm::ResetPlaceholder, "x", "", false, &[Ok(("example.com", "/d")), Err("locked")]);
    assert_eq!(ops, vec![SiteOp::CheckSite, SiteOp::ResetPlaceholder]);
    assert_eq!(loc, "/websites/manage?domain=example.com&tab=config&error=locked");
}
