//! What the plugin forms (install, host install and activation, uninstall, enable and
//! disable) do, step by step: the caller runs each operation the flow asks for, hands its
//! result back, and finally redirects where the flow says.
//!
//! A flow's state is the list of results of the operations it has run so far.

use vstd::prelude::*;
use vstd::string::*;
use crate::plugin_activation::{host_scoped_spec, is_host_scoped_plugin};
use crate::text::{eq_ignore_case, eq_ignore_case_str, opt_view, to_lower, trim, trim_str};
use crate::url_form::{push_url_encoded, url_encode_spec};

verus! {

/// The plugin form being handled.
#[derive(Clone, Copy, Debug, PartialEq, Eq, Structural)]
pub enum PluginForm {
    Install,
    InstallHost,
    ActivateHost,
    DeactivateHost,
    UninstallHost,
    Uninstall,
    Enable,
    Disable,
}

/// The site permission an operation needs.
#[derive(Clone, Copy, Debug, PartialEq, Eq, Structural)]
pub enum SitePermKind {
    Install,
    Enable,
    Uninstall,
}

/// An operation the caller runs for a flow. Each gives back `Ok` with the plugin's display
/// name (or nothing in particular) or `Err` with a message.
#[derive(Clone, Copy, Debug, PartialEq, Eq, Structural)]
pub enum PluginOp {
    /// Check that the user may manage the form's site with this permission.
    CheckSite(SitePermKind),
    /// Install the plugin once on the host.
    InstallHost,
    /// Activate the host plugin for the form's site.
    ActivateForSite,
    /// Deactivate the host plugin for the form's site.
    DeactivateForSite,
    /// Remove the host install.
    UninstallHost,
    /// Install a copy of the plugin under the site.
    InstallForSite,
    /// Remove the site's copy.
    UninstallForSite,
    /// Turn the site's copy on or off.
    SetEnabled(bool),
}

/// Where a flow ends: the Plugins view to show, with a notice or an error.
pub struct PluginRedirect {
    pub view: String,
    pub notice: Option<String>,
    pub error: Option<String>,
}

/// The next thing a flow does.
pub enum FlowStep {
    Run(PluginOp),
    Finish(PluginRedirect),
}

/// What the flows know before running anything.
pub struct FlowFacts {
    /// The user is the panel admin.
    pub admin: bool,
    /// The plugin is installed on the host.
    pub host_installed: bool,
    /// The site's entry for the plugin is a host activation rather than its own copy.
    pub host_owned: bool,
    /// `None` when the uninstall confirmation was given, else the message refusing it.
    pub confirm_refusal: Option<String>,
}

/// A flow step in plain values.
pub enum FlowOutcome {
    Run(PluginOp),
    Finish(Seq<char>, Option<Seq<char>>, Option<Seq<char>>),
}

pub open spec fn opt_string(o: Option<String>) -> Option<Seq<char>> {
    match o {
        Some(s) => Some(s@),
        None => None,
    }
}

pub open spec fn step_view(s: FlowStep) -> FlowOutcome {
    match s {
        FlowStep::Run(op) => FlowOutcome::Run(op),
        FlowStep::Finish(r) => FlowOutcome::Finish(r.view@, opt_string(r.notice), opt_string(r.error)),
    }
}

pub open spec fn result_views(rs: Seq<Result<String, String>>) -> Seq<Result<Seq<char>, Seq<char>>> {
    rs.map_values(|r: Result<String, String>| match r {
        Ok(s) => Ok(s@),
        Err(e) => Err(e@),
    })
}

pub open spec fn ok_to(view: Seq<char>, notice: Seq<char>) -> FlowOutcome {
    FlowOutcome::Finish(view, Some(notice), None)
}

pub open spec fn err_to(view: Seq<char>, error: Seq<char>) -> FlowOutcome {
    FlowOutcome::Finish(view, None, Some(error))
}

/// Runs `op` as step `k`; when it fails, ends on `fail_view` with its error; when it
/// succeeds, goes on with `then`.
pub open spec fn run_then(
    rs: Seq<Result<Seq<char>, Seq<char>>>,
    k: int,
    op: PluginOp,
    fail_view: Seq<char>,
    then: FlowOutcome,
) -> FlowOutcome {
    if rs.len() <= k {
        FlowOutcome::Run(op)
    } else {
        match rs[k] {
            Err(e) => err_to(fail_view, e),
            Ok(_) => then,
        }
    }
}

/// The name an earlier step gave back (empty if it failed).
pub open spec fn name_at(rs: Seq<Result<Seq<char>, Seq<char>>>, k: int) -> Seq<char> {
    match rs[k] {
        Ok(n) => n,
        Err(_) => Seq::empty(),
    }
}

pub open spec fn msg_installed_on_host(name: Seq<char>) -> Seq<char> {
    "Installed "@ + name + " on Host"@
}

/// After a host install as step `k`: activate for the site when one is given (after a site
/// check when `check` holds; a refused check just reports the install).
pub open spec fn after_host_install(
    rs: Seq<Result<Seq<char>, Seq<char>>>,
    domain: Seq<char>,
    check: bool,
) -> FlowOutcome {
    let name = name_at(rs, 0);
    if trim(domain).len() == 0 {
        ok_to("store"@, msg_installed_on_host(name))
    } else if check && rs.len() == 1 {
        FlowOutcome::Run(PluginOp::CheckSite(SitePermKind::Enable))
    } else if check && rs[1] is Err {
        ok_to("store"@, msg_installed_on_host(name))
    } else {
        let k = if check { 2int } else { 1int };
        if rs.len() <= k {
            FlowOutcome::Run(PluginOp::ActivateForSite)
        } else {
            match rs[k] {
                Ok(_) => ok_to("store"@, "Installed "@ + name + " on Host and activated for "@ + trim(domain)),
                Err(err) => ok_to("store"@, "Installed "@ + name + " on Host, but site activate failed: "@ + err),
            }
        }
    }
}

/// A host install flow: install, then (see `after_host_install`).
pub open spec fn host_install_flow(rs: Seq<Result<Seq<char>, Seq<char>>>, domain: Seq<char>, check: bool) -> FlowOutcome {
    run_then(rs, 0, PluginOp::InstallHost, "store"@, after_host_install(rs, domain, check))
}

/// Check the site, run `op`, and report `prefix` + the name it gave back on `ok_view`.
pub open spec fn checked_op(
    rs: Seq<Result<Seq<char>, Seq<char>>>,
    perm: SitePermKind,
    check_fail_view: Seq<char>,
    op: PluginOp,
    ok_view: Seq<char>,
    prefix: Seq<char>,
    fail_view: Seq<char>,
) -> FlowOutcome {
    run_then(
        rs,
        0,
        PluginOp::CheckSite(perm),
        check_fail_view,
        run_then(rs, 1, op, fail_view, ok_to(ok_view, prefix + name_at(rs, 1))),
    )
}

/// Where Host uninstall returns: the Installed view when asked for, else the Store.
pub open spec fn uninstall_host_view(return_view: Seq<char>) -> Seq<char> {
    if eq_ignore_case(trim(return_view), "installed"@) {
        "installed"@
    } else {
        "store"@
    }
}

/// The next step of a plugin form's flow, given the results of the steps run so far.
pub open spec fn flow_spec(
    form: PluginForm,
    id: Seq<char>,
    domain: Seq<char>,
    return_view: Seq<char>,
    admin: bool,
    host_installed: bool,
    host_owned: bool,
    confirm_refusal: Option<Seq<char>>,
    rs: Seq<Result<Seq<char>, Seq<char>>>,
) -> FlowOutcome {
    match form {
        PluginForm::Install => if host_scoped_spec(id) {
            if host_installed {
                checked_op(rs, SitePermKind::Enable, "store"@, PluginOp::ActivateForSite, "installed"@, "Activated "@, "store"@)
            } else if !admin {
                err_to("store"@, "This is a Host package. Ask the panel admin to Install on Host first."@)
            } else {
                host_install_flow(rs, domain, false)
            }
        } else {
            checked_op(rs, SitePermKind::Install, "store"@, PluginOp::InstallForSite, "installed"@, "Installed "@, "store"@)
        },
        PluginForm::InstallHost => if !admin {
            err_to("store"@, "Only the panel admin can install Host plugins"@)
        } else {
            host_install_flow(rs, domain, true)
        },
        PluginForm::ActivateHost => checked_op(
            rs,
            SitePermKind::Enable,
            "store"@,
            PluginOp::ActivateForSite,
            "installed"@,
            "Activated "@,
            "store"@,
        ),
        PluginForm::DeactivateHost => run_then(
            rs,
            0,
            PluginOp::CheckSite(SitePermKind::Enable),
            "installed"@,
            run_then(rs, 1, PluginOp::DeactivateForSite, "installed"@, ok_to("installed"@, "Deactivated "@ + trim(id))),
        ),
        PluginForm::UninstallHost => if !admin {
            err_to(uninstall_host_view(return_view), "Only the panel admin can uninstall Host plugins"@)
        } else if confirm_refusal is Some {
            err_to(uninstall_host_view(return_view), confirm_refusal->0)
        } else {
            run_then(
                rs,
                0,
                PluginOp::UninstallHost,
                uninstall_host_view(return_view),
                ok_to(uninstall_host_view(return_view), "Uninstalled host plugin "@ + trim(id)),
            )
        },
        PluginForm::Uninstall => if host_owned && !admin {
            err_to(
                "installed"@,
                "This plugin is installed on the Host. Use Deactivate, or ask the admin to uninstall from Host."@,
            )
        } else if confirm_refusal is Some {
            err_to("installed"@, confirm_refusal->0)
        } else if host_owned {
            run_then(rs, 0, PluginOp::UninstallHost, "installed"@, ok_to("store"@, "Uninstalled host plugin "@ + trim(id)))
        } else {
            run_then(
                rs,
                0,
                PluginOp::CheckSite(SitePermKind::Uninstall),
                "installed"@,
                run_then(rs, 1, PluginOp::UninstallForSite, "installed"@, ok_to("installed"@, "Uninstalled "@ + trim(id))),
            )
        },
        PluginForm::Enable => checked_op(
            rs,
            SitePermKind::Enable,
            "installed"@,
            PluginOp::SetEnabled(true),
            "installed"@,
            "Activated "@,
            "installed"@,
        ),
        PluginForm::Disable => checked_op(
            rs,
            SitePermKind::Enable,
            "installed"@,
            PluginOp::SetEnabled(false),
            "installed"@,
            "Deactivated "@,
            "installed"@,
        ),
    }
}

fn finish_ok(view: &str, notice: String) -> (r: FlowStep)
    ensures
        step_view(r) == ok_to(view@, notice@),
{
    FlowStep::Finish(PluginRedirect { view: view.to_owned(), notice: Some(notice), error: None })
}

fn finish_err(view: &str, error: String) -> (r: FlowStep)
    ensures
        step_view(r) == err_to(view@, error@),
{
    FlowStep::Finish(PluginRedirect { view: view.to_owned(), notice: None, error: Some(error) })
}

fn joined(a: &str, b: &str) -> (r: String)
    ensures
        r@ == a@ + b@,
{
    let mut s = a.to_owned();
    s.append(b);
    s
}

fn name_of(rs: &Vec<Result<String, String>>, k: usize) -> (r: String)
    requires
        k < rs.len(),
    ensures
        r@ == name_at(result_views(rs@), k as int),
{
    match &rs[k] {
        Ok(n) => n.clone(),
        Err(_) => String::new(),
    }
}

/// `run_then` for one step: `None` means go on.
fn run_step(rs: &Vec<Result<String, String>>, k: usize, op: PluginOp, fail_view: &str) -> (r: Option<FlowStep>)
    ensures
        match r {
            Some(s) => rs.len() <= k && step_view(s) == FlowOutcome::Run(op) || k < rs.len() && result_views(
                rs@,
            )[k as int] is Err && step_view(s) == err_to(fail_view@, result_views(rs@)[k as int]->Err_0),
            None => k < rs.len() && result_views(rs@)[k as int] is Ok,
        },
{
    if rs.len() <= k {
        return Some(FlowStep::Run(op));
    }
    match &rs[k] {
        Err(e) => Some(finish_err(fail_view, e.clone())),
        Ok(_) => None,
    }
}

#[verifier::rlimit(60)]
#[verifier::spinoff_prover]
fn host_install_step(rs: &Vec<Result<String, String>>, domain: &str, check: bool) -> (r: FlowStep)
    ensures
        step_view(r) == host_install_flow(result_views(rs@), domain@, check),
{
    proof {
        reveal_strlit("store");
    }
    if let Some(s) = run_step(rs, 0, PluginOp::InstallHost, "store") {
        return s;
    }
    let name = name_of(rs, 0);
    let d = trim_str(domain);
    let mut on_host = joined("Installed ", name.as_str());
    on_host.append(" on Host");
    if d.as_str().unicode_len() == 0 {
        return finish_ok("store", on_host);
    }
    let k: usize = if check { 2 } else { 1 };
    if check {
        if rs.len() == 1 {
            return FlowStep::Run(PluginOp::CheckSite(SitePermKind::Enable));
        }
        if rs[1].is_err() {
            return finish_ok("store", on_host);
        }
    }
    if rs.len() <= k {
        return FlowStep::Run(PluginOp::ActivateForSite);
    }
    match &rs[k] {
        Ok(_) => {
            let mut m = joined("Installed ", name.as_str());
            m.append(" on Host and activated for ");
            m.append(d.as_str());
            finish_ok("store", m)
        },
        Err(err) => {
            let mut m = joined("Installed ", name.as_str());
            m.append(" on Host, but site activate failed: ");
            m.append(err.as_str());
            finish_ok("store", m)
        },
    }
}

#[verifier::rlimit(60)]
#[verifier::spinoff_prover]
fn checked_op_step(
    rs: &Vec<Result<String, String>>,
    perm: SitePermKind,
    check_fail_view: &str,
    op: PluginOp,
    ok_view: &str,
    prefix: &str,
    fail_view: &str,
) -> (r: FlowStep)
    ensures
        step_view(r) == checked_op(result_views(rs@), perm, check_fail_view@, op, ok_view@, prefix@, fail_view@),
{
    if let Some(s) = run_step(rs, 0, PluginOp::CheckSite(perm), check_fail_view) {
        return s;
    }
    if let Some(s) = run_step(rs, 1, op, fail_view) {
        return s;
    }
    let name = name_of(rs, 1);
    finish_ok(ok_view, joined(prefix, name.as_str()))
}

/// The next step of a plugin form's flow (see `flow_spec`).
#[verifier::rlimit(80)]
#[verifier::spinoff_prover]
pub fn plugin_flow_step(
    form: PluginForm,
    id: &str,
    domain: &str,
    return_view: &str,
    facts: &FlowFacts,
    results: &Vec<Result<String, String>>,
) -> (r: FlowStep)
    ensures
        step_view(r) == flow_spec(
            form,
            id@,
            domain@,
            return_view@,
            facts.admin,
            facts.host_installed,
            facts.host_owned,
            opt_string(facts.confirm_refusal),
            result_views(results@),
        ),
{
    proof {
        reveal_strlit("installed");
    }
    let rs = results;
    match form {
        PluginForm::Install => {
            if is_host_scoped_plugin(id) {
                if facts.host_installed {
                    checked_op_step(rs, SitePermKind::Enable, "store", PluginOp::ActivateForSite, "installed", "Activated ", "store")
                } else if !facts.admin {
                    finish_err("store", "This is a Host package. Ask the panel admin to Install on Host first.".to_owned())
                } else {
                    host_install_step(rs, domain, false)
                }
            } else {
                checked_op_step(rs, SitePermKind::Install, "store", PluginOp::InstallForSite, "installed", "Installed ", "store")
            }
        },
        PluginForm::InstallHost => {
            if !facts.admin {
                finish_err("store", "Only the panel admin can install Host plugins".to_owned())
            } else {
                host_install_step(rs, domain, true)
            }
        },
        PluginForm::ActivateHost => checked_op_step(
            rs,
            SitePermKind::Enable,
            "store",
            PluginOp::ActivateForSite,
            "installed",
            "Activated ",
            "store",
        ),
        PluginForm::DeactivateHost => {
            if let Some(s) = run_step(rs, 0, PluginOp::CheckSite(SitePermKind::Enable), "installed") {
                return s;
            }
            if let Some(s) = run_step(rs, 1, PluginOp::DeactivateForSite, "installed") {
                return s;
            }
            let t = trim_str(id);
            finish_ok("installed", joined("Deactivated ", t.as_str()))
        },
        PluginForm::UninstallHost => {
            let view = if eq_ignore_case_str(trim_str(return_view).as_str(), "installed") { "installed" } else { "store" };
            if !facts.admin {
                return finish_err(view, "Only the panel admin can uninstall Host plugins".to_owned());
            }
            match &facts.confirm_refusal {
                Some(m) => {
                    return finish_err(view, m.clone());
                },
                None => {},
            }
            if let Some(s) = run_step(rs, 0, PluginOp::UninstallHost, view) {
                return s;
            }
            let t = trim_str(id);
            finish_ok(view, joined("Uninstalled host plugin ", t.as_str()))
        },
        PluginForm::Uninstall => {
            if facts.host_owned && !facts.admin {
                return finish_err(
                    "installed",
                    "This plugin is installed on the Host. Use Deactivate, or ask the admin to uninstall from Host.".to_owned(),
                );
            }
            match &facts.confirm_refusal {
                Some(m) => {
                    return finish_err("installed", m.clone());
                },
                None => {},
            }
            let t = trim_str(id);
            if facts.host_owned {
                if let Some(s) = run_step(rs, 0, PluginOp::UninstallHost, "installed") {
                    return s;
                }
                return finish_ok("store", joined("Uninstalled host plugin ", t.as_str()));
            }
            if let Some(s) = run_step(rs, 0, PluginOp::CheckSite(SitePermKind::Uninstall), "installed") {
                return s;
            }
            if let Some(s) = run_step(rs, 1, PluginOp::UninstallForSite, "installed") {
                return s;
            }
            finish_ok("installed", joined("Uninstalled ", t.as_str()))
        },
        PluginForm::Enable => checked_op_step(
            rs,
            SitePermKind::Enable,
            "installed",
            PluginOp::SetEnabled(true),
            "installed",
            "Activated ",
            "installed",
        ),
        PluginForm::Disable => checked_op_step(
            rs,
            SitePermKind::Enable,
            "installed",
            PluginOp::SetEnabled(false),
            "installed",
            "Deactivated ",
            "installed",
        ),
    }
}

/// Law: every plugin flow finishes once three operations have run.
pub proof fn lemma_flow_finishes(
    form: PluginForm,
    id: Seq<char>,
    domain: Seq<char>,
    return_view: Seq<char>,
    admin: bool,
    host_installed: bool,
    host_owned: bool,
    confirm_refusal: Option<Seq<char>>,
    rs: Seq<Result<Seq<char>, Seq<char>>>,
)
    requires
        rs.len() >= 3,
    ensures
        flow_spec(form, id, domain, return_view, admin, host_installed, host_owned, confirm_refusal, rs) is Finish,
{
}

/// Law: a user who is not the panel admin never gets a host install or host uninstall run,
/// and without the uninstall confirmation nothing is uninstalled.
pub proof fn lemma_flow_guards(
    form: PluginForm,
    id: Seq<char>,
    domain: Seq<char>,
    return_view: Seq<char>,
    admin: bool,
    host_installed: bool,
    host_owned: bool,
    confirm_refusal: Option<Seq<char>>,
    rs: Seq<Result<Seq<char>, Seq<char>>>,
)
    ensures
        !admin ==> flow_spec(form, id, domain, return_view, admin, host_installed, host_owned, confirm_refusal, rs)
            != FlowOutcome::Run(PluginOp::InstallHost),
        !admin ==> flow_spec(form, id, domain, return_view, admin, host_installed, host_owned, confirm_refusal, rs)
            != FlowOutcome::Run(PluginOp::UninstallHost),
        confirm_refusal is Some ==> flow_spec(form, id, domain, return_view, admin, host_installed, host_owned, confirm_refusal, rs)
            != FlowOutcome::Run(PluginOp::UninstallHost),
        confirm_refusal is Some ==> flow_spec(form, id, domain, return_view, admin, host_installed, host_owned, confirm_refusal, rs)
            != FlowOutcome::Run(PluginOp::UninstallForSite),
{
}

/// Where a plugin form redirects: the Plugins page on `view` for the site, with the notice
/// or error, every value form-encoded.
pub open spec fn plugins_redirect_spec(domain: Seq<char>, view: Seq<char>, notice: Option<Seq<char>>, error: Option<Seq<char>>) -> Seq<char> {
    "/plugins?view="@ + url_encode_spec(view) + "&domain="@ + url_encode_spec(domain) + (match notice {
        Some(n) => "&notice="@ + url_encode_spec(n),
        None => Seq::empty(),
    }) + (match error {
        Some(e) => "&error="@ + url_encode_spec(e),
        None => Seq::empty(),
    })
}

pub fn plugins_redirect(domain: &str, view: &str, notice: Option<&str>, error: Option<&str>) -> (r: String)
    ensures
        r@ == plugins_redirect_spec(domain@, view@, opt_view(notice), opt_view(error)),
{
    let mut out = "/plugins?view=".to_owned();
    push_url_encoded(&mut out, view);
    out.append("&domain=");
    push_url_encoded(&mut out, domain);
    match notice {
        Some(n) => {
            out.append("&notice=");
            push_url_encoded(&mut out, n);
        },
        None => {},
    }
    match error {
        Some(e) => {
            out.append("&error=");
            push_url_encoded(&mut out, e);
        },
        None => {},
    }
    proof {
        assert(out@ =~= plugins_redirect_spec(domain@, view@, opt_view(notice), opt_view(error)));
    }
    out
}

} // verus!
