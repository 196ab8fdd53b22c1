//! What the Websites forms (create, delete, list preference, suspend and resume, the
//! suspend message, the placeholder page) do, step by step: the caller runs each operation
//! the flow asks for, hands its result back, and redirects where the flow ends.

use vstd::prelude::*;
use vstd::string::*;
use crate::text::{str_eq, trim, trim_str};
use crate::url_form::{push_url_encoded, url_encode_spec};

verus! {

/// The Websites form being handled.
#[derive(Clone, Copy, Debug, PartialEq, Eq, Structural)]
pub enum SiteForm {
    Create,
    Delete,
    Prefs,
    Suspend,
    Resume,
    SuspendMessage,
    SuspendMessageRestore,
    ResetPlaceholder,
}

/// Who suspended a site.
#[derive(Clone, Copy, Debug, PartialEq, Eq, Structural)]
pub enum SuspendActor {
    Admin,
    Owner,
}

/// A change to a site record.
#[derive(Clone, Copy, Debug, PartialEq, Eq, Structural)]
pub enum SiteChange {
    /// Disable the site, recording who suspended it.
    Suspend(SuspendActor),
    /// Enable the site and clear who suspended it.
    Resume,
    /// Save the form's owner suspend message.
    SetSuspendMessage,
    /// Clear the owner suspend message back to the panel default.
    ClearSuspendMessage,
}

/// An operation the caller runs. Each that succeeds gives back the site's domain and
/// document root (empty when there is no site); a failure gives its message.
#[derive(Clone, Copy, Debug, PartialEq, Eq, Structural)]
pub enum SiteOp {
    /// Check that the owner may create the form's domain.
    CheckCreateAllowed,
    /// Create the site for the owner, with the document root when one was given.
    Create,
    /// Delete the form's site.
    Delete,
    /// Save whether the Websites list shows document roots.
    SavePrefs(bool),
    /// Check that the user may manage the form's site.
    CheckSite,
    /// Change the site record.
    Modify(SiteChange),
    /// Reset the placeholder `index.html` under the checked site's document root.
    ResetPlaceholder,
}

/// The next thing a Websites form does: run an operation or redirect.
pub enum SiteStep {
    Run(SiteOp),
    Redirect(String),
}

pub enum SiteOutcome {
    Run(SiteOp),
    Redirect(Seq<char>),
}

pub open spec fn site_step_view(s: SiteStep) -> SiteOutcome {
    match s {
        SiteStep::Run(op) => SiteOutcome::Run(op),
        SiteStep::Redirect(l) => SiteOutcome::Redirect(l@),
    }
}

pub type SiteResult = Result<(Seq<char>, Seq<char>), Seq<char>>;

pub open spec fn site_result_views(rs: Seq<Result<(String, String), String>>) -> Seq<SiteResult> {
    rs.map_values(|r: Result<(String, String), String>| match r {
        Ok(p) => Ok((p.0@, p.1@)),
        Err(e) => Err(e@),
    })
}

/// The owner of a new site: the signed-in user, or for the panel admin the owner the form
/// names (trimmed) when it names one.
pub open spec fn site_create_owner_spec(form_owner: Seq<char>, user: Seq<char>, admin: bool) -> Seq<char> {
    if trim(form_owner).len() > 0 && admin {
        trim(form_owner)
    } else {
        user
    }
}

pub fn site_create_owner(form_owner: &str, user: &str, admin: bool) -> (r: String)
    ensures
        r@ == site_create_owner_spec(form_owner@, user@, admin),
{
    let t = trim_str(form_owner);
    if t.as_str().unicode_len() > 0 && admin {
        t
    } else {
        user.to_owned()
    }
}

/// Law: a user who is not the panel admin only ever creates sites for themselves.
pub proof fn lemma_non_admin_owns_new_site(form_owner: Seq<char>, user: Seq<char>)
    ensures
        site_create_owner_spec(form_owner, user, false) == user,
{
}

/// The list preference a form value asks for: `1`, `true`, `on` or `yes` (trimmed).
pub open spec fn show_docroots_spec(raw: Seq<char>) -> bool {
    let t = trim(raw);
    t == "1"@ || t == "true"@ || t == "on"@ || t == "yes"@
}

pub fn show_docroots_flag(raw: &str) -> (r: bool)
    ensures
        r == show_docroots_spec(raw@),
{
    let t = trim_str(raw);
    let s = t.as_str();
    str_eq(s, "1") || str_eq(s, "true") || str_eq(s, "on") || str_eq(s, "yes")
}

pub open spec fn websites_with(key: Seq<char>, value: Seq<char>) -> Seq<char> {
    "/websites?"@ + key + "="@ + url_encode_spec(value)
}

pub open spec fn manage_with(domain: Seq<char>, tail: Seq<char>, key: Seq<char>, value: Seq<char>) -> Seq<char> {
    "/websites/manage?domain="@ + url_encode_spec(domain) + tail + key + "="@ + url_encode_spec(value)
}

pub open spec fn domain_at(rs: Seq<SiteResult>, k: int) -> Seq<char> {
    match rs[k] {
        Ok(p) => p.0,
        Err(_) => Seq::empty(),
    }
}

pub open spec fn docroot_at(rs: Seq<SiteResult>, k: int) -> Seq<char> {
    match rs[k] {
        Ok(p) => p.1,
        Err(_) => Seq::empty(),
    }
}

/// Runs `op` as step `k`; a failure redirects to `fail`; a success goes on with `then`.
pub open spec fn site_then(rs: Seq<SiteResult>, k: int, op: SiteOp, fail: spec_fn(Seq<char>) -> Seq<char>, then: SiteOutcome) -> SiteOutcome {
    if rs.len() <= k {
        SiteOutcome::Run(op)
    } else {
        match rs[k] {
            Err(e) => SiteOutcome::Redirect(fail(e)),
            Ok(_) => then,
        }
    }
}

pub open spec fn list_error() -> spec_fn(Seq<char>) -> Seq<char> {
    |e: Seq<char>| websites_with("error"@, e)
}

pub open spec fn config_error(domain: Seq<char>) -> spec_fn(Seq<char>) -> Seq<char> {
    |e: Seq<char>| manage_with(domain, "&tab=config"@, "&error"@, e)
}

/// A checked change of the site record: check, change, then the Manage page with `notice`
/// (on the config tab when `config`).
pub open spec fn checked_change(rs: Seq<SiteResult>, change: SiteChange, form_domain: Seq<char>, config: bool, notice: Seq<char>) -> SiteOutcome {
    site_then(
        rs,
        0,
        SiteOp::CheckSite,
        list_error(),
        site_then(
            rs,
            1,
            SiteOp::Modify(change),
            if config {
                config_error(trim(form_domain))
            } else {
                list_error()
            },
            SiteOutcome::Redirect(
                if config {
                    manage_with(domain_at(rs, 1), "&tab=config"@, "&notice"@, notice)
                } else {
                    manage_with(domain_at(rs, 1), Seq::empty(), "&notice"@, notice)
                },
            ),
        ),
    )
}

/// The next step of a Websites form, given the results of the steps run so far.
pub open spec fn site_flow_spec(
    form: SiteForm,
    form_domain: Seq<char>,
    prefs_value: Seq<char>,
    admin: bool,
    rs: Seq<SiteResult>,
) -> SiteOutcome {
    match form {
        SiteForm::Create => site_then(
            rs,
            0,
            SiteOp::CheckCreateAllowed,
            list_error(),
            site_then(
                rs,
                1,
                SiteOp::Create,
                list_error(),
                SiteOutcome::Redirect(
                    websites_with(
                        "notice"@,
                        "Created "@ + domain_at(rs, 1) + " at "@ + docroot_at(rs, 1)
                            + ". Auto SSL and SPF/DKIM/DMARC were attempted."@,
                    ),
                ),
            ),
        ),
        SiteForm::Delete => site_then(
            rs,
            0,
            SiteOp::Delete,
            list_error(),
            SiteOutcome::Redirect(websites_with("notice"@, "Deleted "@ + trim(form_domain))),
        ),
        SiteForm::Prefs => site_then(
            rs,
            0,
            SiteOp::SavePrefs(show_docroots_spec(prefs_value)),
            list_error(),
            SiteOutcome::Redirect(
                websites_with(
                    "notice"@,
                    if show_docroots_spec(prefs_value) {
                        "Document roots visible"@
                    } else {
                        "Document roots hidden"@
                    },
                ),
            ),
        ),
        SiteForm::Suspend => checked_change(
            rs,
            SiteChange::Suspend(if admin { SuspendActor::Admin } else { SuspendActor::Owner }),
            form_domain,
            false,
            "Site suspended"@,
        ),
        SiteForm::Resume => checked_change(rs, SiteChange::Resume, form_domain, false, "Site resumed"@),
        SiteForm::SuspendMessage => checked_change(rs, SiteChange::SetSuspendMessage, form_domain, true, "Suspend message saved"@),
        SiteForm::SuspendMessageRestore => checked_change(
            rs,
            SiteChange::ClearSuspendMessage,
            form_domain,
            true,
            "Suspend message restored to panel default"@,
        ),
        SiteForm::ResetPlaceholder => site_then(
            rs,
            0,
            SiteOp::CheckSite,
            list_error(),
            site_then(
                rs,
                1,
                SiteOp::ResetPlaceholder,
                config_error(domain_at(rs, 0)),
                SiteOutcome::Redirect(
                    manage_with(domain_at(rs, 0), "&tab=config"@, "&notice"@, "Placeholder index.html reset"@),
                ),
            ),
        ),
    }
}

fn websites_loc(key: &str, value: &str) -> (r: String)
    ensures
        r@ == websites_with(key@, value@),
{
    let mut out = "/websites?".to_owned();
    out.append(key);
    out.append("=");
    push_url_encoded(&mut out, value);
    out
}

fn manage_loc(domain: &str, tail: &str, key: &str, value: &str) -> (r: String)
    ensures
        r@ == manage_with(domain@, tail@, key@, value@),
{
    let mut out = "/websites/manage?domain=".to_owned();
    push_url_encoded(&mut out, domain);
    out.append(tail);
    out.append(key);
    out.append("=");
    push_url_encoded(&mut out, value);
    out
}

/// Step `k` has run and succeeded: `None`; else what to do now (run it, or redirect with
/// its error through `fail_to_list` or the config tab of `config_domain`).
fn site_step_at(
    rs: &Vec<Result<(String, String), String>>,
    k: usize,
    op: SiteOp,
    config_domain: Option<&str>,
) -> (r: Option<SiteStep>)
    ensures
        ({
            let fail = match config_domain {
                Some(d) => config_error(d@),
                None => list_error(),
            };
            match r {
                Some(s) => site_step_view(s) == site_then(site_result_views(rs@), k as int, op, fail, SiteOutcome::Run(op))
                    && (k < rs.len() ==> site_result_views(rs@)[k as int] is Err),
                None => k < rs.len() && site_result_views(rs@)[k as int] is Ok,
            }
        }),
{
    proof {
        reveal_strlit("error");
    }
    if rs.len() <= k {
        return Some(SiteStep::Run(op));
    }
    match &rs[k] {
        Ok(_) => None,
        Err(e) => match config_domain {
            Some(d) => Some(SiteStep::Redirect(manage_loc(d, "&tab=config", "&error", e.as_str()))),
            None => Some(SiteStep::Redirect(websites_loc("error", e.as_str()))),
        },
    }
}

fn result_domain(rs: &Vec<Result<(String, String), String>>, k: usize) -> (r: (String, String))
    requires
        k < rs.len(),
    ensures
        r.0@ == domain_at(site_result_views(rs@), k as int),
        r.1@ == docroot_at(site_result_views(rs@), k as int),
{
    match &rs[k] {
        Ok(p) => (p.0.clone(), p.1.clone()),
        Err(_) => (String::new(), String::new()),
    }
}

/// The next step of a Websites form (see `site_flow_spec`).
#[verifier::rlimit(80)]
#[verifier::spinoff_prover]
pub fn site_flow_step(
    form: SiteForm,
    form_domain: &str,
    prefs_value: &str,
    admin: bool,
    results: &Vec<Result<(String, String), String>>,
) -> (r: SiteStep)
    ensures
        site_step_view(r) == site_flow_spec(form, form_domain@, prefs_value@, admin, site_result_views(results@)),
{
    proof {
        reveal_strlit("");
        reveal_strlit("notice");
        reveal_strlit("error");
    }
    let rs = results;
    match form {
        SiteForm::Create => {
            if let Some(s) = site_step_at(rs, 0, SiteOp::CheckCreateAllowed, None) {
                return s;
            }
            if let Some(s) = site_step_at(rs, 1, SiteOp::Create, None) {
                return s;
            }
            let (d, root) = result_domain(rs, 1);
            let mut m = "Created ".to_owned();
            m.append(d.as_str());
            m.append(" at ");
            m.append(root.as_str());
            m.append(". Auto SSL and SPF/DKIM/DMARC were attempted.");
            SiteStep::Redirect(websites_loc("notice", m.as_str()))
        },
        SiteForm::Delete => {
            if let Some(s) = site_step_at(rs, 0, SiteOp::Delete, None) {
                return s;
            }
            let mut m = "Deleted ".to_owned();
            let t = trim_str(form_domain);
            m.append(t.as_str());
            SiteStep::Redirect(websites_loc("notice", m.as_str()))
        },
        SiteForm::Prefs => {
            let show = show_docroots_flag(prefs_value);
            if let Some(s) = site_step_at(rs, 0, SiteOp::SavePrefs(show), None) {
                return s;
            }
            SiteStep::Redirect(websites_loc("notice", if show { "Document roots visible" } else { "Document roots hidden" }))
        },
        SiteForm::Suspend | SiteForm::Resume | SiteForm::SuspendMessage | SiteForm::SuspendMessageRestore => {
            let (change, config, notice) = match form {
                SiteForm::Suspend => (
                    SiteChange::Suspend(if admin { SuspendActor::Admin } else { SuspendActor::Owner }),
                    false,
                    "Site suspended",
                ),
                SiteForm::Resume => (SiteChange::Resume, false, "Site resumed"),
                SiteForm::SuspendMessage => (SiteChange::SetSuspendMessage, true, "Suspend message saved"),
                _ => (SiteChange::ClearSuspendMessage, true, "Suspend message restored to panel default"),
            };
            if let Some(s) = site_step_at(rs, 0, SiteOp::CheckSite, None) {
                return s;
            }
            let t = trim_str(form_domain);
            let step1 = if config {
                site_step_at(rs, 1, SiteOp::Modify(change), Some(t.as_str()))
            } else {
                site_step_at(rs, 1, SiteOp::Modify(change), None)
            };
            if let Some(s) = step1 {
                return s;
            }
            let (d, _) = result_domain(rs, 1);
            if config {
                SiteStep::Redirect(manage_loc(d.as_str(), "&tab=config", "&notice", notice))
            } else {
                SiteStep::Redirect(manage_loc(d.as_str(), "", "&notice", notice))
            }
        },
        SiteForm::ResetPlaceholder => {
            if let Some(s) = site_step_at(rs, 0, SiteOp::CheckSite, None) {
                return s;
            }
            let (d, _) = result_domain(rs, 0);
            if let Some(s) = site_step_at(rs, 1, SiteOp::ResetPlaceholder, Some(d.as_str())) {
                return s;
            }
            SiteStep::Redirect(manage_loc(d.as_str(), "&tab=config", "&notice", "Placeholder index.html reset"))
        },
    }
}

/// Law: every Websites form flow ends once two operations have run.
pub proof fn lemma_site_flow_finishes(
    form: SiteForm,
    form_domain: Seq<char>,
    prefs_value: Seq<char>,
    admin: bool,
    rs: Seq<SiteResult>,
)
    requires
        rs.len() >= 2,
    ensures
        site_flow_spec(form, form_domain, prefs_value, admin, rs) is Redirect,
{
}

} // verus!
