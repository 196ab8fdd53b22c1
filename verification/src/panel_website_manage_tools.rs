//! Manage tabs for Domain Alias, Cron Jobs, Git and Clone/Staging, and the web terminal
//! panel. CSRF tokens, the site's cron jobs and the other facts from elsewhere are handed
//! in by the caller.

use vstd::prelude::*;
use vstd::string::*;
use crate::panel_website_manage_ui::{section, section_spec};
use crate::site::SiteRecord;
use crate::text::{html_escaped, push_escaped};
use crate::url_form::{push_url_encoded, url_encode_spec};

verus! {

pub open spec fn alias_row_spec(alias: Seq<char>, csrf: Seq<char>, domain: Seq<char>) -> Seq<char> {
    "<tr><td><code>"@ + html_escaped(alias) + "</code></td><td>\n<form method=\"post\" action=\"/websites/alias/remove\" style=\"display:inline;\" onsubmit=\"return confirm('Remove alias "@ + html_escaped(alias) + "?');\">\n  <input type=\"hidden\" name=\"csrf\" value=\""@ + html_escaped(csrf) + "\">\n  <input type=\"hidden\" name=\"domain\" value=\""@ + html_escaped(domain) + "\">\n  <input type=\"hidden\" name=\"alias\" value=\""@ + html_escaped(alias) + "\">\n  <button type=\"submit\" class=\"btn-danger\">Remove</button>\n</form></td></tr>"@
}

#[verifier::rlimit(60)]
#[verifier::spinoff_prover]
fn push_alias_row(out: &mut String, alias: &str, csrf: &str, domain: &str)
    ensures
        final(out)@ == old(out)@ + alias_row_spec(alias@, csrf@, domain@),
{
    let ghost start = out@;
    out.append("<tr><td><code>");
    push_escaped(out, alias);
    out.append("</code></td><td>\n<form method=\"post\" action=\"/websites/alias/remove\" style=\"display:inline;\" onsubmit=\"return confirm('Remove alias ");
    push_escaped(out, alias);
    out.append("?');\">\n  <input type=\"hidden\" name=\"csrf\" value=\"");
    push_escaped(out, csrf);
    out.append("\">\n  <input type=\"hidden\" name=\"domain\" value=\"");
    push_escaped(out, domain);
    out.append("\">\n  <input type=\"hidden\" name=\"alias\" value=\"");
    push_escaped(out, alias);
    out.append("\">\n  <button type=\"submit\" class=\"btn-danger\">Remove</button>\n</form></td></tr>");
    assert(out@ =~= start + alias_row_spec(alias@, csrf@, domain@));
}

pub open spec fn alias_rows_spec(aliases: Seq<Seq<char>>, csrf: Seq<char>, domain: Seq<char>) -> Seq<char>
    decreases aliases.len(),
{
    if aliases.len() == 0 {
        ""@
    } else {
        alias_rows_spec(aliases.drop_last(), csrf, domain) + alias_row_spec(aliases.last(), csrf, domain)
    }
}

/// The Domain Alias tab: the aliases (or a note when there are none) with a remove form
/// each, and the add form with the Cloudflare DNS choice when Cloudflare is configured.
pub open spec fn tab_alias_spec(site: &SiteRecord, csrf: Seq<char>, cloudflare: bool) -> Seq<char> {
    let aliases = crate::text::string_views(site.aliases@);
    let rows = "<table class=\"manage-table\" style=\"width:100%;border-collapse:collapse;margin-top:12px;\"><thead><tr><th align=\"left\">Hostname</th><th></th></tr></thead><tbody>"@ + (if aliases.len() == 0 {
        "<tr><td colspan=\"2\" class=\"manage-muted\">No aliases yet. Add a hostname that should serve this site.</td></tr>"@
    } else {
        alias_rows_spec(aliases, csrf, site.domain@)
    }) + "</tbody></table>"@;
    let cf = if cloudflare { "<label class=\"manage-muted\" style=\"display:block;margin:8px 0;\">DNS (optional)\n<select name=\"dns_mode\">\n  <option value=\"cname\">Create Cloudflare CNAME to primary</option>\n  <option value=\"a\">Create Cloudflare A record (server IP)</option>\n  <option value=\"none\">Skip Cloudflare DNS</option>\n</select></label>"@ } else { "<p class=\"manage-muted\">Cloudflare API is not configured on this host (<code>/var/lib/cpn/cloudflare.json</code>). Alias is still stored and applied to the web stack.</p>"@ };
    let form = "<form method=\"post\" action=\"/websites/alias/add\" class=\"manage-form\" style=\"margin-top:12px;max-width:520px;\">\n  <input type=\"hidden\" name=\"csrf\" value=\""@ + html_escaped(csrf) + "\">\n  <input type=\"hidden\" name=\"domain\" value=\""@ + html_escaped(site.domain@) + "\">\n  <label>Hostname alias\n    <input type=\"text\" name=\"alias\" required maxlength=\"253\" placeholder=\"www."@ + html_escaped(site.domain@) + "\" pattern=\"[A-Za-z0-9.-]+\" style=\"width:100%;\">\n  </label>\n  "@ + cf + "\n  <button type=\"submit\" class=\"btn-primary\" style=\"margin-top:10px;\">Add alias</button>\n</form>"@;
    section_spec("Domain Alias"@, "<p class=\"manage-muted\">Aliases are stored in the site registry, written under <code>/var/lib/cpn/vhosts/</code>, and applied as OLS map / Apache ServerAlias / nginx <code>server_name</code> when that stack is present.</p>"@ + rows) + section_spec("Add alias"@, form) + ""@
}

#[verifier::rlimit(60)]
#[verifier::spinoff_prover]
pub fn tab_alias(site: &SiteRecord, csrf: &str, cloudflare: bool) -> (r: String)
    ensures
        r@ == tab_alias_spec(site, csrf@, cloudflare),
{
    proof {
        reveal_strlit("");
    }
    let mut rows = "<table class=\"manage-table\" style=\"width:100%;border-collapse:collapse;margin-top:12px;\"><thead><tr><th align=\"left\">Hostname</th><th></th></tr></thead><tbody>".to_owned();
    let ghost head = rows@;
    if site.aliases.len() == 0 {
        rows.append("<tr><td colspan=\"2\" class=\"manage-muted\">No aliases yet. Add a hostname that should serve this site.</td></tr>");
    } else {
        let mut i: usize = 0;
        assert(crate::text::string_views(site.aliases@).take(0) =~= Seq::<Seq<char>>::empty());
        while i < site.aliases.len()
            invariant
                i <= site.aliases.len(),
                rows@ == head + alias_rows_spec(crate::text::string_views(site.aliases@).take(i as int), csrf@, site.domain@),
            decreases site.aliases.len() - i,
        {
            push_alias_row(&mut rows, site.aliases[i].as_str(), csrf, site.domain.as_str());
            proof {
                let v = crate::text::string_views(site.aliases@);
                assert(v.take(i + 1).drop_last() =~= v.take(i as int));
                assert(v.take(i + 1).last() == site.aliases@[i as int]@);
            }
            i += 1;
        }
        assert(crate::text::string_views(site.aliases@).take(site.aliases.len() as int) =~= crate::text::string_views(site.aliases@));
    }
    rows.append("</tbody></table>");
    let cf = if cloudflare { "<label class=\"manage-muted\" style=\"display:block;margin:8px 0;\">DNS (optional)\n<select name=\"dns_mode\">\n  <option value=\"cname\">Create Cloudflare CNAME to primary</option>\n  <option value=\"a\">Create Cloudflare A record (server IP)</option>\n  <option value=\"none\">Skip Cloudflare DNS</option>\n</select></label>" } else { "<p class=\"manage-muted\">Cloudflare API is not configured on this host (<code>/var/lib/cpn/cloudflare.json</code>). Alias is still stored and applied to the web stack.</p>" };
    let mut form = "<form method=\"post\" action=\"/websites/alias/add\" class=\"manage-form\" style=\"margin-top:12px;max-width:520px;\">\n  <input type=\"hidden\" name=\"csrf\" value=\"".to_owned();
    push_escaped(&mut form, csrf);
    form.append("\">\n  <input type=\"hidden\" name=\"domain\" value=\"");
    push_escaped(&mut form, site.domain.as_str());
    form.append("\">\n  <label>Hostname alias\n    <input type=\"text\" name=\"alias\" required maxlength=\"253\" placeholder=\"www.");
    push_escaped(&mut form, site.domain.as_str());
    form.append("\" pattern=\"[A-Za-z0-9.-]+\" style=\"width:100%;\">\n  </label>\n  ");
    form.append(cf);
    form.append("\n  <button type=\"submit\" class=\"btn-primary\" style=\"margin-top:10px;\">Add alias</button>\n</form>");
    let mut intro_body = "<p class=\"manage-muted\">Aliases are stored in the site registry, written under <code>/var/lib/cpn/vhosts/</code>, and applied as OLS map / Apache ServerAlias / nginx <code>server_name</code> when that stack is present.</p>".to_owned();
    intro_body.append(rows.as_str());
    let mut out = section("Domain Alias", intro_body.as_str());
    let f = section("Add alias", form.as_str());
    out.append(f.as_str());
    out.append("");
    proof {
        assert(out@ =~= tab_alias_spec(site, csrf@, cloudflare));
    }
    out
}

/// A site cron job.
pub struct SiteCronJob {
    pub id: String,
    pub minute: String,
    pub hour: String,
    pub day: String,
    pub month: String,
    pub weekday: String,
    pub command: String,
    pub comment: String,
    pub enabled: bool,
}

/// One cron job row: schedule, command, state, and its update and delete forms.
pub open spec fn cron_row_spec(job: SiteCronJob, csrf: Seq<char>, domain: Seq<char>) -> Seq<char> {
    cron_row_update(job, csrf, domain) + cron_row_delete(job, csrf, domain)
}

pub open spec fn cron_row_update(job: SiteCronJob, csrf: Seq<char>, domain: Seq<char>) -> Seq<char> {
    cron_row_update_head(job, csrf) + cron_row_update_fields(job, domain)
}

#[verifier::opaque]
pub open spec fn cron_row_update_head(job: SiteCronJob, csrf: Seq<char>) -> Seq<char> {
    "<tr>\n<td><code>"@ + html_escaped(job.minute@ + " "@ + job.hour@ + " "@ + job.day@ + " "@ + job.month@ + " "@ + job.weekday@) + "</code></td>\n<td><code>"@ + html_escaped(job.command@) + "</code></td>\n<td>"@ + (if job.enabled { "yes"@ } else { "no"@ }) + "</td>\n<td style=\"white-space:nowrap;\">\n<form method=\"post\" action=\"/websites/cron/update\" style=\"display:inline;\">\n  <input type=\"hidden\" name=\"csrf\" value=\""@ + html_escaped(csrf)
}

#[verifier::opaque]
pub open spec fn cron_row_update_fields(job: SiteCronJob, domain: Seq<char>) -> Seq<char> {
    "\">\n  <input type=\"hidden\" name=\"domain\" value=\""@ + html_escaped(domain) + "\">\n  <input type=\"hidden\" name=\"job_id\" value=\""@ + html_escaped(job.id@) + "\">\n  <input type=\"hidden\" name=\"minute\" value=\""@ + html_escaped(job.minute@) + "\">\n  <input type=\"hidden\" name=\"hour\" value=\""@ + html_escaped(job.hour@) + "\">\n  <input type=\"hidden\" name=\"day\" value=\""@ + html_escaped(job.day@) + "\">\n  <input type=\"hidden\" name=\"month\" value=\""@ + html_escaped(job.month@) + "\">\n  <input type=\"hidden\" name=\"weekday\" value=\""@ + html_escaped(job.weekday@) + "\">\n  <input type=\"hidden\" name=\"command\" value=\""@ + html_escaped(job.command@) + "\">\n  <input type=\"hidden\" name=\"comment\" value=\""@ + html_escaped(job.comment@) + "\">\n  <label><input type=\"checkbox\" name=\"enabled\" value=\"1\""@ + (if job.enabled { " checked"@ } else { ""@ })
}

#[verifier::opaque]
pub open spec fn cron_row_delete(job: SiteCronJob, csrf: Seq<char>, domain: Seq<char>) -> Seq<char> {
    "> On</label>\n  <button type=\"submit\" class=\"btn-secondary\">Save</button>\n</form>\n<form method=\"post\" action=\"/websites/cron/delete\" style=\"display:inline;\" onsubmit=\"return confirm('Delete this cron job?');\">\n  <input type=\"hidden\" name=\"csrf\" value=\""@ + html_escaped(csrf) + "\">\n  <input type=\"hidden\" name=\"domain\" value=\""@ + html_escaped(domain) + "\">\n  <input type=\"hidden\" name=\"job_id\" value=\""@ + html_escaped(job.id@) + "\">\n  <button type=\"submit\" class=\"btn-danger\">Delete</button>\n</form>\n</td></tr>"@
}

fn push_cron_row_update(out: &mut String, job: &SiteCronJob, csrf: &str, domain: &str)
    ensures
        final(out)@ == old(out)@ + cron_row_update(*job, csrf@, domain@),
{
    let ghost start = out@;
    push_cron_row_head(out, job, csrf);
    push_cron_row_fields(out, job, domain);
    assert(out@ =~= start + cron_row_update(*job, csrf@, domain@));
}

#[verifier::rlimit(60)]
#[verifier::spinoff_prover]
fn push_cron_row_head(out: &mut String, job: &SiteCronJob, csrf: &str)
    ensures
        final(out)@ == old(out)@ + cron_row_update_head(*job, csrf@),
{
    proof {
        reveal_strlit("");
    }
    let ghost start = out@;
    let mut sched = job.minute.clone();
    sched.append(" ");
    sched.append(job.hour.as_str());
    sched.append(" ");
    sched.append(job.day.as_str());
    sched.append(" ");
    sched.append(job.month.as_str());
    sched.append(" ");
    sched.append(job.weekday.as_str());
    out.append("<tr>\n<td><code>");
    push_escaped(out, sched.as_str());
    out.append("</code></td>\n<td><code>");
    push_escaped(out, job.command.as_str());
    out.append("</code></td>\n<td>");
    out.append(if job.enabled { "yes" } else { "no" });
    out.append("</td>\n<td style=\"white-space:nowrap;\">\n<form method=\"post\" action=\"/websites/cron/update\" style=\"display:inline;\">\n  <input type=\"hidden\" name=\"csrf\" value=\"");
    push_escaped(out, csrf);
    proof {
        reveal(cron_row_update_head);
    }
    assert(out@ =~= start + cron_row_update_head(*job, csrf@));
}

#[verifier::rlimit(60)]
#[verifier::spinoff_prover]
fn push_cron_row_fields(out: &mut String, job: &SiteCronJob, domain: &str)
    ensures
        final(out)@ == old(out)@ + cron_row_update_fields(*job, domain@),
{
    proof {
        reveal_strlit("");
    }
    let ghost start = out@;
    out.append("\">\n  <input type=\"hidden\" name=\"domain\" value=\"");
    push_escaped(out, domain);
    out.append("\">\n  <input type=\"hidden\" name=\"job_id\" value=\"");
    push_escaped(out, job.id.as_str());
    out.append("\">\n  <input type=\"hidden\" name=\"minute\" value=\"");
    push_escaped(out, job.minute.as_str());
    out.append("\">\n  <input type=\"hidden\" name=\"hour\" value=\"");
    push_escaped(out, job.hour.as_str());
    out.append("\">\n  <input type=\"hidden\" name=\"day\" value=\"");
    push_escaped(out, job.day.as_str());
    out.append("\">\n  <input type=\"hidden\" name=\"month\" value=\"");
    push_escaped(out, job.month.as_str());
    out.append("\">\n  <input type=\"hidden\" name=\"weekday\" value=\"");
    push_escaped(out, job.weekday.as_str());
    out.append("\">\n  <input type=\"hidden\" name=\"command\" value=\"");
    push_escaped(out, job.command.as_str());
    out.append("\">\n  <input type=\"hidden\" name=\"comment\" value=\"");
    push_escaped(out, job.comment.as_str());
    out.append("\">\n  <label><input type=\"checkbox\" name=\"enabled\" value=\"1\"");
    out.append(if job.enabled { " checked" } else { "" });
    proof {
        reveal(cron_row_update_fields);
    }
    assert(out@ =~= start + cron_row_update_fields(*job, domain@));
}

#[verifier::rlimit(60)]
#[verifier::spinoff_prover]
fn push_cron_row_delete(out: &mut String, job: &SiteCronJob, csrf: &str, domain: &str)
    ensures
        final(out)@ == old(out)@ + cron_row_delete(*job, csrf@, domain@),
{
    let ghost start = out@;
    out.append("> On</label>\n  <button type=\"submit\" class=\"btn-secondary\">Save</button>\n</form>\n<form method=\"post\" action=\"/websites/cron/delete\" style=\"display:inline;\" onsubmit=\"return confirm('Delete this cron job?');\">\n  <input type=\"hidden\" name=\"csrf\" value=\"");
    push_escaped(out, csrf);
    out.append("\">\n  <input type=\"hidden\" name=\"domain\" value=\"");
    push_escaped(out, domain);
    out.append("\">\n  <input type=\"hidden\" name=\"job_id\" value=\"");
    push_escaped(out, job.id.as_str());
    out.append("\">\n  <button type=\"submit\" class=\"btn-danger\">Delete</button>\n</form>\n</td></tr>");
    proof {
        reveal(cron_row_delete);
    }
    assert(out@ =~= start + cron_row_delete(*job, csrf@, domain@));
}

fn push_cron_row(out: &mut String, job: &SiteCronJob, csrf: &str, domain: &str)
    ensures
        final(out)@ == old(out)@ + cron_row_spec(*job, csrf@, domain@),
{
    let ghost start = out@;
    push_cron_row_update(out, job, csrf, domain);
    push_cron_row_delete(out, job, csrf, domain);
    assert(out@ =~= start + cron_row_spec(*job, csrf@, domain@));
}

pub open spec fn cron_rows_spec(jobs: Seq<SiteCronJob>, csrf: Seq<char>, domain: Seq<char>) -> Seq<char>
    decreases jobs.len(),
{
    if jobs.len() == 0 {
        ""@
    } else {
        cron_rows_spec(jobs.drop_last(), csrf, domain) + cron_row_spec(jobs.last(), csrf, domain)
    }
}

/// The Cron Jobs tab: the jobs (or a note when there are none) and the add form, which
/// runs commands in the site home.
pub open spec fn tab_cron_spec(site: &SiteRecord, csrf: Seq<char>, jobs: Seq<SiteCronJob>) -> Seq<char> {
    let rows = "<table class=\"manage-table\" style=\"width:100%;border-collapse:collapse;\"><thead><tr>\n<th align=\"left\">Schedule</th><th align=\"left\">Command</th><th>On</th><th></th></tr></thead><tbody>"@ + (if jobs.len() == 0 {
        "<tr><td colspan=\"4\" class=\"manage-muted\">No cron jobs yet for this site.</td></tr>"@
    } else {
        cron_rows_spec(jobs, csrf, site.domain@)
    }) + "</tbody></table>"@;
    let add = "<form method=\"post\" action=\"/websites/cron/add\" class=\"manage-form\" style=\"margin-top:12px;max-width:640px;\">\n  <input type=\"hidden\" name=\"csrf\" value=\""@ + html_escaped(csrf) + "\">\n  <input type=\"hidden\" name=\"domain\" value=\""@ + html_escaped(site.domain@) + "\">\n  <p class=\"manage-muted\">Runs with cwd jailed to <code>"@ + html_escaped(site.home@) + "</code>. Prefer <code>php public_html/…</code> (no shell metacharacters).</p>\n  <div style=\"display:flex;flex-wrap:wrap;gap:8px;\">\n    <label>Minute <input name=\"minute\" value=\"*/5\" required style=\"width:72px;\"></label>\n    <label>Hour <input name=\"hour\" value=\"*\" required style=\"width:72px;\"></label>\n    <label>Day <input name=\"day\" value=\"*\" required style=\"width:72px;\"></label>\n    <label>Month <input name=\"month\" value=\"*\" required style=\"width:72px;\"></label>\n    <label>Weekday <input name=\"weekday\" value=\"*\" required style=\"width:72px;\"></label>\n  </div>\n  <label style=\"display:block;margin-top:8px;\">Command\n    <input type=\"text\" name=\"command\" required maxlength=\"400\" placeholder=\"php public_html/cron.php\" style=\"width:100%;\">\n  </label>\n  <label style=\"display:block;margin-top:8px;\">Comment\n    <input type=\"text\" name=\"comment\" maxlength=\"120\" style=\"width:100%;\">\n  </label>\n  <button type=\"submit\" class=\"btn-primary\" style=\"margin-top:10px;\">Add cron job</button>\n</form>"@;
    section_spec("Cron Jobs"@, rows) + section_spec("Add cron job"@, add)
}

#[verifier::rlimit(60)]
#[verifier::spinoff_prover]
pub fn tab_cron(site: &SiteRecord, csrf: &str, jobs: &Vec<SiteCronJob>) -> (r: String)
    ensures
        r@ == tab_cron_spec(site, csrf@, jobs@),
{
    proof {
        reveal_strlit("");
    }
    let mut rows = "<table class=\"manage-table\" style=\"width:100%;border-collapse:collapse;\"><thead><tr>\n<th align=\"left\">Schedule</th><th align=\"left\">Command</th><th>On</th><th></th></tr></thead><tbody>".to_owned();
    let ghost head = rows@;
    if jobs.len() == 0 {
        rows.append("<tr><td colspan=\"4\" class=\"manage-muted\">No cron jobs yet for this site.</td></tr>");
    } else {
        let mut i: usize = 0;
        assert(jobs@.take(0) =~= Seq::<SiteCronJob>::empty());
        while i < jobs.len()
            invariant
                i <= jobs.len(),
                rows@ == head + cron_rows_spec(jobs@.take(i as int), csrf@, site.domain@),
            decreases jobs.len() - i,
        {
            push_cron_row(&mut rows, &jobs[i], csrf, site.domain.as_str());
            proof {
                assert(jobs@.take(i + 1).drop_last() =~= jobs@.take(i as int));
            }
            i += 1;
        }
        assert(jobs@.take(jobs.len() as int) =~= jobs@);
    }
    rows.append("</tbody></table>");
    let mut add = "<form method=\"post\" action=\"/websites/cron/add\" class=\"manage-form\" style=\"margin-top:12px;max-width:640px;\">\n  <input type=\"hidden\" name=\"csrf\" value=\"".to_owned();
    push_escaped(&mut add, csrf);
    add.append("\">\n  <input type=\"hidden\" name=\"domain\" value=\"");
    push_escaped(&mut add, site.domain.as_str());
    add.append("\">\n  <p class=\"manage-muted\">Runs with cwd jailed to <code>");
    push_escaped(&mut add, site.home.as_str());
    add.append("</code>. Prefer <code>php public_html/…</code> (no shell metacharacters).</p>\n  <div style=\"display:flex;flex-wrap:wrap;gap:8px;\">\n    <label>Minute <input name=\"minute\" value=\"*/5\" required style=\"width:72px;\"></label>\n    <label>Hour <input name=\"hour\" value=\"*\" required style=\"width:72px;\"></label>\n    <label>Day <input name=\"day\" value=\"*\" required style=\"width:72px;\"></label>\n    <label>Month <input name=\"month\" value=\"*\" required style=\"width:72px;\"></label>\n    <label>Weekday <input name=\"weekday\" value=\"*\" required style=\"width:72px;\"></label>\n  </div>\n  <label style=\"display:block;margin-top:8px;\">Command\n    <input type=\"text\" name=\"command\" required maxlength=\"400\" placeholder=\"php public_html/cron.php\" style=\"width:100%;\">\n  </label>\n  <label style=\"display:block;margin-top:8px;\">Comment\n    <input type=\"text\" name=\"comment\" maxlength=\"120\" style=\"width:100%;\">\n  </label>\n  <button type=\"submit\" class=\"btn-primary\" style=\"margin-top:10px;\">Add cron job</button>\n</form>");
    let mut out = section("Cron Jobs", rows.as_str());
    let a = section("Add cron job", add.as_str());
    out.append(a.as_str());
    proof {
        assert(out@ =~= tab_cron_spec(site, csrf@, jobs@));
    }
    out
}

/// The Git tab: the status snapshot and the allowlisted actions (refresh, pull, push,
/// init, commit, clone).
pub open spec fn tab_git_spec(site: &SiteRecord, csrf: Seq<char>, snapshot: Seq<char>) -> Seq<char> {
    "<div class=\"manage-log-panel\">\n  <h3>Manage Git</h3>\n  <p class=\"manage-muted\">Allowlisted git only (status, remotes, branches, pull --ff-only, push, commit, init, clone). No arbitrary shell.</p>\n  <pre class=\"manage-log-pre\">"@ + html_escaped(snapshot) + "</pre>\n  <div class=\"manage-actions-row\" style=\"margin-top:12px;\">\n    <form method=\"post\" action=\"/websites/git\" class=\"inline-form\">\n      <input type=\"hidden\" name=\"domain\" value=\""@ + html_escaped(site.domain@) + "\">\n      <input type=\"hidden\" name=\"csrf\" value=\""@ + html_escaped(csrf) + "\">\n      <input type=\"hidden\" name=\"action\" value=\"status\">\n      <button type=\"submit\" class=\"manage-btn\">Refresh status</button>\n    </form>\n    <form method=\"post\" action=\"/websites/git\" class=\"inline-form\">\n      <input type=\"hidden\" name=\"domain\" value=\""@ + html_escaped(site.domain@) + "\">\n      <input type=\"hidden\" name=\"csrf\" value=\""@ + html_escaped(csrf) + "\">\n      <input type=\"hidden\" name=\"action\" value=\"pull\">\n      <button type=\"submit\" class=\"manage-btn\">Pull (ff-only)</button>\n    </form>\n    <form method=\"post\" action=\"/websites/git\" class=\"inline-form\">\n      <input type=\"hidden\" name=\"domain\" value=\""@ + html_escaped(site.domain@) + "\">\n      <input type=\"hidden\" name=\"csrf\" value=\""@ + html_escaped(csrf) + "\">\n      <input type=\"hidden\" name=\"action\" value=\"push\">\n      <button type=\"submit\" class=\"manage-btn\">Push</button>\n    </form>\n    <form method=\"post\" action=\"/websites/git\" class=\"inline-form\">\n      <input type=\"hidden\" name=\"domain\" value=\""@ + html_escaped(site.domain@) + "\">\n      <input type=\"hidden\" name=\"csrf\" value=\""@ + html_escaped(csrf) + "\">\n      <input type=\"hidden\" name=\"action\" value=\"init\">\n      <button type=\"submit\" class=\"manage-btn\">git init</button>\n    </form>\n  </div>\n  <form method=\"post\" action=\"/websites/git\" style=\"margin-top:14px;display:grid;gap:8px;max-width:520px;\">\n    <input type=\"hidden\" name=\"domain\" value=\""@ + html_escaped(site.domain@) + "\">\n    <input type=\"hidden\" name=\"csrf\" value=\""@ + html_escaped(csrf) + "\">\n    <input type=\"hidden\" name=\"action\" value=\"commit\">\n    <label class=\"manage-muted\" for=\"git-msg\">Commit message</label>\n    <input id=\"git-msg\" name=\"message\" maxlength=\"200\" required placeholder=\"Describe the change\"\n      style=\"min-height:36px;padding:0 10px;border-radius:8px;border:1px solid var(--m-line);background:#0b0d12;color:var(--m-ink);\">\n    <button type=\"submit\" class=\"btn-primary\">Commit (add -A)</button>\n  </form>\n  <form method=\"post\" action=\"/websites/git\" style=\"margin-top:14px;display:grid;gap:8px;max-width:520px;\">\n    <input type=\"hidden\" name=\"domain\" value=\""@ + html_escaped(site.domain@) + "\">\n    <input type=\"hidden\" name=\"csrf\" value=\""@ + html_escaped(csrf) + "\">\n    <input type=\"hidden\" name=\"action\" value=\"clone\">\n    <label class=\"manage-muted\" for=\"git-url\">Clone remote into site workdir</label>\n    <input id=\"git-url\" name=\"remote_url\" maxlength=\"512\" required placeholder=\"https://github.com/org/repo.git\"\n      style=\"min-height:36px;padding:0 10px;border-radius:8px;border:1px solid var(--m-line);background:#0b0d12;color:var(--m-ink);\">\n    <button type=\"submit\" class=\"manage-btn\">Clone (depth 1)</button>\n  </form>\n</div>"@
}

#[verifier::rlimit(60)]
#[verifier::spinoff_prover]
pub fn tab_git(site: &SiteRecord, csrf: &str, snapshot: &str) -> (r: String)
    ensures
        r@ == tab_git_spec(site, csrf@, snapshot@),
{
    let mut out = "<div class=\"manage-log-panel\">\n  <h3>Manage Git</h3>\n  <p class=\"manage-muted\">Allowlisted git only (status, remotes, branches, pull --ff-only, push, commit, init, clone). No arbitrary shell.</p>\n  <pre class=\"manage-log-pre\">".to_owned();
    push_escaped(&mut out, snapshot);
    out.append("</pre>\n  <div class=\"manage-actions-row\" style=\"margin-top:12px;\">\n    <form method=\"post\" action=\"/websites/git\" class=\"inline-form\">\n      <input type=\"hidden\" name=\"domain\" value=\"");
    push_escaped(&mut out, site.domain.as_str());
    out.append("\">\n      <input type=\"hidden\" name=\"csrf\" value=\"");
    push_escaped(&mut out, csrf);
    out.append("\">\n      <input type=\"hidden\" name=\"action\" value=\"status\">\n      <button type=\"submit\" class=\"manage-btn\">Refresh status</button>\n    </form>\n    <form method=\"post\" action=\"/websites/git\" class=\"inline-form\">\n      <input type=\"hidden\" name=\"domain\" value=\"");
    push_escaped(&mut out, site.domain.as_str());
    out.append("\">\n      <input type=\"hidden\" name=\"csrf\" value=\"");
    push_escaped(&mut out, csrf);
    out.append("\">\n      <input type=\"hidden\" name=\"action\" value=\"pull\">\n      <button type=\"submit\" class=\"manage-btn\">Pull (ff-only)</button>\n    </form>\n    <form method=\"post\" action=\"/websites/git\" class=\"inline-form\">\n      <input type=\"hidden\" name=\"domain\" value=\"");
    push_escaped(&mut out, site.domain.as_str());
    out.append("\">\n      <input type=\"hidden\" name=\"csrf\" value=\"");
    push_escaped(&mut out, csrf);
    out.append("\">\n      <input type=\"hidden\" name=\"action\" value=\"push\">\n      <button type=\"submit\" class=\"manage-btn\">Push</button>\n    </form>\n    <form method=\"post\" action=\"/websites/git\" class=\"inline-form\">\n      <input type=\"hidden\" name=\"domain\" value=\"");
    push_escaped(&mut out, site.domain.as_str());
    out.append("\">\n      <input type=\"hidden\" name=\"csrf\" value=\"");
    push_escaped(&mut out, csrf);
    out.append("\">\n      <input type=\"hidden\" name=\"action\" value=\"init\">\n      <button type=\"submit\" class=\"manage-btn\">git init</button>\n    </form>\n  </div>\n  <form method=\"post\" action=\"/websites/git\" style=\"margin-top:14px;display:grid;gap:8px;max-width:520px;\">\n    <input type=\"hidden\" name=\"domain\" value=\"");
    push_escaped(&mut out, site.domain.as_str());
    out.append("\">\n    <input type=\"hidden\" name=\"csrf\" value=\"");
    push_escaped(&mut out, csrf);
    out.append("\">\n    <input type=\"hidden\" name=\"action\" value=\"commit\">\n    <label class=\"manage-muted\" for=\"git-msg\">Commit message</label>\n    <input id=\"git-msg\" name=\"message\" maxlength=\"200\" required placeholder=\"Describe the change\"\n      style=\"min-height:36px;padding:0 10px;border-radius:8px;border:1px solid var(--m-line);background:#0b0d12;color:var(--m-ink);\">\n    <button type=\"submit\" class=\"btn-primary\">Commit (add -A)</button>\n  </form>\n  <form method=\"post\" action=\"/websites/git\" style=\"margin-top:14px;display:grid;gap:8px;max-width:520px;\">\n    <input type=\"hidden\" name=\"domain\" value=\"");
    push_escaped(&mut out, site.domain.as_str());
    out.append("\">\n    <input type=\"hidden\" name=\"csrf\" value=\"");
    push_escaped(&mut out, csrf);
    out.append("\">\n    <input type=\"hidden\" name=\"action\" value=\"clone\">\n    <label class=\"manage-muted\" for=\"git-url\">Clone remote into site workdir</label>\n    <input id=\"git-url\" name=\"remote_url\" maxlength=\"512\" required placeholder=\"https://github.com/org/repo.git\"\n      style=\"min-height:36px;padding:0 10px;border-radius:8px;border:1px solid var(--m-line);background:#0b0d12;color:var(--m-ink);\">\n    <button type=\"submit\" class=\"manage-btn\">Clone (depth 1)</button>\n  </form>\n</div>");
    proof {
        assert(out@ =~= tab_git_spec(site, csrf@, snapshot@));
    }
    out
}

/// The staging slot shown: the suggestion, or `staging.<domain>` when none could be made.
pub open spec fn staging_spec_text(domain: Seq<char>, suggestion: Option<Seq<char>>) -> Seq<char> {
    match suggestion {
        Some(s) => s,
        None => "staging."@ + domain,
    }
}

fn staging_text(site: &SiteRecord, suggestion: Option<&str>) -> (r: String)
    ensures
        r@ == staging_spec_text(site.domain@, crate::text::opt_view(suggestion)),
{
    match suggestion {
        Some(s) => s.to_owned(),
        None => {
            let mut t = "staging.".to_owned();
            t.append(site.domain.as_str());
            t
        },
    }
}

/// The Clone/Staging tab: the staging slot (see `staging_spec_text`) or a custom target.
pub open spec fn tab_clone_spec(site: &SiteRecord, csrf: Seq<char>, staging: Option<Seq<char>>) -> Seq<char> {
    "<div class=\"manage-log-panel\">\n  <h3>Clone / Staging</h3>\n  <p class=\"manage-muted\">Creates a new site under the parent home, copies <code>public_html</code> files, and registers it. Databases are not cloned.</p>\n  <form method=\"post\" action=\"/websites/clone\" style=\"display:grid;gap:10px;max-width:520px;\">\n    <input type=\"hidden\" name=\"domain\" value=\""@ + html_escaped(site.domain@) + "\">\n    <input type=\"hidden\" name=\"csrf\" value=\""@ + html_escaped(csrf) + "\">\n    <label style=\"display:flex;align-items:center;gap:8px;\">\n      <input type=\"checkbox\" name=\"staging\" value=\"1\" checked>\n      <span>Use staging slot (<code>"@ + html_escaped(staging_spec_text(site.domain@, staging)) + "</code>)</span>\n    </label>\n    <label class=\"manage-muted\" for=\"clone-target\">Or custom FQDN / subdomain label</label>\n    <input id=\"clone-target\" name=\"target\" maxlength=\"253\" placeholder=\"my-copy or copy.example.com\"\n      style=\"min-height:36px;padding:0 10px;border-radius:8px;border:1px solid var(--m-line);background:#0b0d12;color:var(--m-ink);\">\n    <button type=\"submit\" class=\"btn-primary\">Clone files to new site</button>\n  </form>\n  <p class=\"manage-muted\" style=\"margin-top:12px;\">After clone, open the new site Manage page to finish SSL or import a database dump if needed.</p>\n</div>"@
}

#[verifier::rlimit(60)]
#[verifier::spinoff_prover]
pub fn tab_clone(site: &SiteRecord, csrf: &str, staging: Option<&str>) -> (r: String)
    ensures
        r@ == tab_clone_spec(site, csrf@, crate::text::opt_view(staging)),
{
    let mut out = "<div class=\"manage-log-panel\">\n  <h3>Clone / Staging</h3>\n  <p class=\"manage-muted\">Creates a new site under the parent home, copies <code>public_html</code> files, and registers it. Databases are not cloned.</p>\n  <form method=\"post\" action=\"/websites/clone\" style=\"display:grid;gap:10px;max-width:520px;\">\n    <input type=\"hidden\" name=\"domain\" value=\"".to_owned();
    push_escaped(&mut out, site.domain.as_str());
    out.append("\">\n    <input type=\"hidden\" name=\"csrf\" value=\"");
    push_escaped(&mut out, csrf);
    out.append("\">\n    <label style=\"display:flex;align-items:center;gap:8px;\">\n      <input type=\"checkbox\" name=\"staging\" value=\"1\" checked>\n      <span>Use staging slot (<code>");
    let st = staging_text(site, staging);
    push_escaped(&mut out, st.as_str());
    out.append("</code>)</span>\n    </label>\n    <label class=\"manage-muted\" for=\"clone-target\">Or custom FQDN / subdomain label</label>\n    <input id=\"clone-target\" name=\"target\" maxlength=\"253\" placeholder=\"my-copy or copy.example.com\"\n      style=\"min-height:36px;padding:0 10px;border-radius:8px;border:1px solid var(--m-line);background:#0b0d12;color:var(--m-ink);\">\n    <button type=\"submit\" class=\"btn-primary\">Clone files to new site</button>\n  </form>\n  <p class=\"manage-muted\" style=\"margin-top:12px;\">After clone, open the new site Manage page to finish SSL or import a database dump if needed.</p>\n</div>");
    proof {
        assert(out@ =~= tab_clone_spec(site, csrf@, crate::text::opt_view(staging)));
    }
    out
}

/// The web terminal panel for the site home, with its client script.
pub open spec fn tab_terminal_spec(site: &SiteRecord, script: Seq<char>) -> Seq<char> {
    "<div class=\"manage-log-panel\">\n  <h3>Web terminal</h3>\n  <p class=\"manage-muted\">Interactive shell scoped to <code>"@ + html_escaped(site.home@) + "</code>. Session cookie and CSRF required. Rate-limited.</p>\n  "@ + script + "\n</div>"@
}

#[verifier::rlimit(60)]
#[verifier::spinoff_prover]
pub fn tab_terminal(site: &SiteRecord, script: &str) -> (r: String)
    ensures
        r@ == tab_terminal_spec(site, script@),
{
    let mut out = "<div class=\"manage-log-panel\">\n  <h3>Web terminal</h3>\n  <p class=\"manage-muted\">Interactive shell scoped to <code>".to_owned();
    push_escaped(&mut out, site.home.as_str());
    out.append("</code>. Session cookie and CSRF required. Rate-limited.</p>\n  ");
    out.append(script);
    out.append("\n</div>");
    proof {
        assert(out@ =~= tab_terminal_spec(site, script@));
    }
    out
}


/// Where an alias or cron form redirects: the Manage page on `tab`, with the notice or
/// error message, every value form-encoded.
pub open spec fn manage_location_spec(domain: Seq<char>, tab: Seq<char>, notice: Option<Seq<char>>, error: Option<Seq<char>>) -> Seq<char> {
    "/websites/manage?domain="@ + url_encode_spec(domain) + "&tab="@ + url_encode_spec(tab) + (match notice {
        Some(n) => "&notice="@ + url_encode_spec(n),
        None => Seq::empty(),
    }) + (match error {
        Some(e) => "&error="@ + url_encode_spec(e),
        None => Seq::empty(),
    })
}

pub fn manage_location(domain: &str, tab: &str, notice: Option<&str>, error: Option<&str>) -> (r: String)
    ensures
        r@ == manage_location_spec(domain@, tab@, crate::text::opt_view(notice), crate::text::opt_view(error)),
{
    let mut out = "/websites/manage?domain=".to_owned();
    push_url_encoded(&mut out, domain);
    out.append("&tab=");
    push_url_encoded(&mut out, tab);
    match notice {
        Some(n) => {
            out.append("&notice=");
            push_url_encoded(&mut out, n);
        },
        None => {},
    }
    match error {
        Some(e) => {
            out.append("&error=");
            push_url_encoded(&mut out, e);
        },
        None => {},
    }
    proof {
        assert(out@ =~= manage_location_spec(domain@, tab@, crate::text::opt_view(notice), crate::text::opt_view(error)));
    }
    out
}

/// How `serde_json` writes one character inside a string: `"` and `\` behind a backslash,
/// backspace, tab, line feed, form feed and carriage return as `\b \t \n \f \r`, any other
/// character below U+0020 as `\u00` and two lower-case hex digits, everything else as is.
pub open spec fn json_escape_char(c: char) -> Seq<char> {
    let u = c as u32;
    if c == '"' {
        seq!['\\', '"']
    } else if c == '\\' {
        seq!['\\', '\\']
    } else if u == 0x08 {
        seq!['\\', 'b']
    } else if u == 0x09 {
        seq!['\\', 't']
    } else if u == 0x0a {
        seq!['\\', 'n']
    } else if u == 0x0c {
        seq!['\\', 'f']
    } else if u == 0x0d {
        seq!['\\', 'r']
    } else if u < 0x20 {
        seq!['\\', 'u', '0', '0', crate::text::hex_digit((u / 16) as nat), crate::text::hex_digit((u % 16) as nat)]
    } else {
        seq![c]
    }
}

pub open spec fn json_escaped(s: Seq<char>) -> Seq<char>
    decreases s.len(),
{
    if s.len() == 0 {
        Seq::empty()
    } else {
        json_escaped(s.drop_last()) + json_escape_char(s.last())
    }
}

/// What `serde_json::to_string` writes for a string: the escaped text between double
/// quotes.
pub open spec fn json_string_text(s: Seq<char>) -> Seq<char> {
    seq!['"'] + json_escaped(s) + seq!['"']
}

/// `serde_json::to_string(s)`: the JSON string literal of `s`, escaped as the serializer's
/// escape table and formatter write it (`json_string_text`); a `str` always serialises, so
/// the fallback of an empty JSON string is never taken.
#[verifier::external_body]
fn json_string(s: &str) -> (r: String)
    ensures
        r@ == json_string_text(s@),
{
    match serde_json::to_string(s) {
        Ok(t) => t,
        Err(_) => "\"\"".to_string(),
    }
}

/// The web terminal client: xterm.js in the page, bridged over the site terminal
/// WebSocket with the domain and CSRF token written as JSON strings.
pub open spec fn terminal_page_script_spec(domain: Seq<char>, csrf: Seq<char>) -> Seq<char> {
    "\n<link rel=\"stylesheet\" href=\"https://cdn.jsdelivr.net/npm/xterm@5.3.0/css/xterm.min.css\">\n<script src=\"https://cdn.jsdelivr.net/npm/xterm@5.3.0/lib/xterm.min.js\"></script>\n<script src=\"https://cdn.jsdelivr.net/npm/xterm-addon-fit@0.8.0/lib/xterm-addon-fit.min.js\"></script>\n<div id=\"cpn-term\" style=\"height:min(62vh,520px);border:1px solid var(--m-line);border-radius:12px;padding:8px;background:#0b0d12;\"></div>\n<p class=\"manage-muted\" id=\"cpn-term-status\">Connecting…</p>\n<script>\n(function(){\n  const domain = "@ + json_string_text(domain) + ";\n  const csrf = "@ + json_string_text(csrf) + ";\n  const status = document.getElementById(\"cpn-term-status\");\n  const term = new Terminal({\n    cursorBlink: true,\n    fontSize: 13,\n    theme: { background: \"#0b0d12\", foreground: \"#e5e7eb\" }\n  });\n  const fit = new FitAddon.FitAddon();\n  term.loadAddon(fit);\n  term.open(document.getElementById(\"cpn-term\"));\n  fit.fit();\n  const proto = location.protocol === \"https:\" ? \"wss:\" : \"ws:\";\n  const url = proto + \"//\" + location.host + \"/api/websites/terminal/ws?domain=\" +\n    encodeURIComponent(domain) + \"&csrf=\" + encodeURIComponent(csrf);\n  const ws = new WebSocket(url);\n  ws.binaryType = \"arraybuffer\";\n  ws.onopen = function() {\n    status.textContent = \"Connected. Shell starts in the site home directory.\";\n    try {\n      ws.send(JSON.stringify({ type: \"resize\", cols: term.cols, rows: term.rows }));\n    } catch (e) {}\n  };\n  ws.onmessage = function(ev) {\n    if (typeof ev.data === \"string\") {\n      term.write(ev.data);\n    } else {\n      term.write(new Uint8Array(ev.data));\n    }\n  };\n  ws.onclose = function() { status.textContent = \"Disconnected.\"; };\n  ws.onerror = function() { status.textContent = \"Terminal connection error.\"; };\n  term.onData(function(data) {\n    if (ws.readyState === 1) { ws.send(data); }\n  });\n  window.addEventListener(\"resize\", function() {\n    fit.fit();\n    if (ws.readyState === 1) {\n      ws.send(JSON.stringify({ type: \"resize\", cols: term.cols, rows: term.rows }));\n    }\n  });\n})();\n</script>\n"@
}

pub fn terminal_page_script(domain: &str, csrf: &str) -> (r: String)
    ensures
        r@ == terminal_page_script_spec(domain@, csrf@),
{
    let mut out = "\n<link rel=\"stylesheet\" href=\"https://cdn.jsdelivr.net/npm/xterm@5.3.0/css/xterm.min.css\">\n<script src=\"https://cdn.jsdelivr.net/npm/xterm@5.3.0/lib/xterm.min.js\"></script>\n<script src=\"https://cdn.jsdelivr.net/npm/xterm-addon-fit@0.8.0/lib/xterm-addon-fit.min.js\"></script>\n<div id=\"cpn-term\" style=\"height:min(62vh,520px);border:1px solid var(--m-line);border-radius:12px;padding:8px;background:#0b0d12;\"></div>\n<p class=\"manage-muted\" id=\"cpn-term-status\">Connecting…</p>\n<script>\n(function(){\n  const domain = ".to_owned();
    let d = json_string(domain);
    out.append(d.as_str());
    out.append(";\n  const csrf = ");
    let c = json_string(csrf);
    out.append(c.as_str());
    out.append(";\n  const status = document.getElementById(\"cpn-term-status\");\n  const term = new Terminal({\n    cursorBlink: true,\n    fontSize: 13,\n    theme: { background: \"#0b0d12\", foreground: \"#e5e7eb\" }\n  });\n  const fit = new FitAddon.FitAddon();\n  term.loadAddon(fit);\n  term.open(document.getElementById(\"cpn-term\"));\n  fit.fit();\n  const proto = location.protocol === \"https:\" ? \"wss:\" : \"ws:\";\n  const url = proto + \"//\" + location.host + \"/api/websites/terminal/ws?domain=\" +\n    encodeURIComponent(domain) + \"&csrf=\" + encodeURIComponent(csrf);\n  const ws = new WebSocket(url);\n  ws.binaryType = \"arraybuffer\";\n  ws.onopen = function() {\n    status.textContent = \"Connected. Shell starts in the site home directory.\";\n    try {\n      ws.send(JSON.stringify({ type: \"resize\", cols: term.cols, rows: term.rows }));\n    } catch (e) {}\n  };\n  ws.onmessage = function(ev) {\n    if (typeof ev.data === \"string\") {\n      term.write(ev.data);\n    } else {\n      term.write(new Uint8Array(ev.data));\n    }\n  };\n  ws.onclose = function() { status.textContent = \"Disconnected.\"; };\n  ws.onerror = function() { status.textContent = \"Terminal connection error.\"; };\n  term.onData(function(data) {\n    if (ws.readyState === 1) { ws.send(data); }\n  });\n  window.addEventListener(\"resize\", function() {\n    fit.fit();\n    if (ws.readyState === 1) {\n      ws.send(JSON.stringify({ type: \"resize\", cols: term.cols, rows: term.rows }));\n    }\n  });\n})();\n</script>\n");
    out
}

} // verus!
