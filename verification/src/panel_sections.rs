//! Panel section pages: Websites, Email and Databases. The site list, saved preferences,
//! mail and SMTP state and database detection are looked up by the caller.

use vstd::prelude::*;
use vstd::string::*;
use crate::php_lifecycle::MailSystem;
use crate::text::{dec, html_escaped, push_dec, push_escaped};

verus! {

pub open spec fn section_heading_spec(title: Seq<char>, blurb: Seq<char>) -> Seq<char> {
    "\n      <div class=\"dashboard-heading\">\n        <div>\n          <p class=\"eyebrow\">CPN PANEL</p>\n          <h1>"@ + html_escaped(title) + "</h1>\n          <p>"@ + html_escaped(blurb) + "</p>\n        </div>\n      </div>"@
}

#[verifier::rlimit(60)]
#[verifier::spinoff_prover]
pub fn section_heading(title: &str, blurb: &str) -> (r: String)
    ensures
        r@ == section_heading_spec(title@, blurb@),
{
    let mut out = "\n      <div class=\"dashboard-heading\">\n        <div>\n          <p class=\"eyebrow\">CPN PANEL</p>\n          <h1>".to_owned();
    push_escaped(&mut out, title);
    out.append("</h1>\n          <p>");
    push_escaped(&mut out, blurb);
    out.append("</p>\n        </div>\n      </div>");
    assert(out@ =~= section_heading_spec(title@, blurb@));
    out
}

/// A site as the Websites list shows it.
pub struct SiteListing {
    pub domain: String,
    pub owner: String,
    pub docroot: String,
    pub enabled: bool,
    pub vhost_wired: bool,
    /// The document root is a legacy or custom one, not under the domain home.
    pub legacy_docroot: bool,
}

pub open spec fn site_row_spec(s: SiteListing, show: bool) -> Seq<char> {
    "<tr>\n          <td><strong>"@ + html_escaped(s.domain@) + "</strong><div class=\"muted\">"@ + (if s.vhost_wired { "vhost wired"@ } else { "files ready"@ }) + "</div></td>\n          <td>"@ + html_escaped(s.owner@) + "</td>\n          "@ + (if show { "<td><details><summary>Show path</summary><code>"@ + html_escaped(s.docroot@) + "</code>"@ + (if s.legacy_docroot { "<div class=\"muted\">Legacy path (still served from this location). New sites use /home/&lt;domain&gt;/public_html.</div>"@ } else { ""@ }) + "</details></td>"@ } else { ""@ }) + "\n          <td>"@ + (if s.enabled { "Enabled"@ } else { "Disabled"@ }) + "</td>\n          <td>\n            <form method=\"post\" action=\"/websites/delete\" class=\"inline-form\" onsubmit=\"return confirm('Delete site "@ + html_escaped(s.domain@) + "? Document files under /home are kept.');\">\n              <input type=\"hidden\" name=\"domain\" value=\""@ + html_escaped(s.domain@) + "\">\n              <button type=\"submit\" class=\"btn-danger\">Delete</button>\n            </form>\n          </td>\n        </tr>"@
}

#[verifier::rlimit(60)]
#[verifier::spinoff_prover]
fn push_site_row(out: &mut String, s: &SiteListing, show: bool)
    ensures
        final(out)@ == old(out)@ + site_row_spec(*s, show),
{
    proof {
        reveal_strlit("");
    }
    let ghost start = out@;
    let td = if show {
        let mut t = "<td><details><summary>Show path</summary><code>".to_owned();
        push_escaped(&mut t, s.docroot.as_str());
        t.append("</code>");
        t.append(if s.legacy_docroot { "<div class=\"muted\">Legacy path (still served from this location). New sites use /home/&lt;domain&gt;/public_html.</div>" } else { "" });
        t.append("</details></td>");
        t
    } else {
        String::new()
    };
    out.append("<tr>\n          <td><strong>");
    push_escaped(out, s.domain.as_str());
    out.append("</strong><div class=\"muted\">");
    out.append(if s.vhost_wired { "vhost wired" } else { "files ready" });
    out.append("</div></td>\n          <td>");
    push_escaped(out, s.owner.as_str());
    out.append("</td>\n          ");
    out.append(td.as_str());
    out.append("\n          <td>");
    out.append(if s.enabled { "Enabled" } else { "Disabled" });
    out.append("</td>\n          <td>\n            <form method=\"post\" action=\"/websites/delete\" class=\"inline-form\" onsubmit=\"return confirm('Delete site ");
    push_escaped(out, s.domain.as_str());
    out.append("? Document files under /home are kept.');\">\n              <input type=\"hidden\" name=\"domain\" value=\"");
    push_escaped(out, s.domain.as_str());
    out.append("\">\n              <button type=\"submit\" class=\"btn-danger\">Delete</button>\n            </form>\n          </td>\n        </tr>");
    assert(out@ =~= start + site_row_spec(*s, show));
}

pub open spec fn site_rows_items(sites: Seq<SiteListing>, show: bool) -> Seq<char>
    decreases sites.len(),
{
    if sites.len() == 0 {
        ""@
    } else {
        site_rows_items(sites.drop_last(), show) + site_row_spec(sites.last(), show)
    }
}

/// The site table (with the document-root column when shown), or the empty-state note.
pub open spec fn site_rows_spec(sites: Seq<SiteListing>, show: bool) -> Seq<char> {
    if sites.len() == 0 {
        "<p class=\"empty-state\">No sites yet. Create one below or use <code>cpn site create</code>.</p>\n        <p class=\"muted\">Files live under <code>/home/&lt;domain&gt;/public_html</code>. Subdomains nest under the parent home (for example <code>/home/example.com/blog.example.com/public_html</code>).</p>"@
    } else {
        "<div class=\"table-wrap\"><table class=\"data-table\">\n      <thead><tr><th>Domain</th><th>Owner</th>"@ + (if show { "<th>Document root</th>"@ } else { ""@ }) + "<th>Status</th><th></th></tr></thead><tbody>"@ + site_rows_items(sites, show) + "</tbody></table></div>"@
    }
}

fn site_rows(sites: &Vec<SiteListing>, show: bool) -> (r: String)
    ensures
        r@ == site_rows_spec(sites@, show),
{
    proof {
        reveal_strlit("");
    }
    if sites.len() == 0 {
        return "<p class=\"empty-state\">No sites yet. Create one below or use <code>cpn site create</code>.</p>\n        <p class=\"muted\">Files live under <code>/home/&lt;domain&gt;/public_html</code>. Subdomains nest under the parent home (for example <code>/home/example.com/blog.example.com/public_html</code>).</p>".to_owned();
    }
    let th = if show { "<th>Document root</th>" } else { "" };
    let mut out = "<div class=\"table-wrap\"><table class=\"data-table\">\n      <thead><tr><th>Domain</th><th>Owner</th>".to_owned();
    out.append(th);
    out.append("<th>Status</th><th></th></tr></thead><tbody>");
    let ghost head = out@;
    let mut i: usize = 0;
    assert(sites@.take(0) =~= Seq::<SiteListing>::empty());
    while i < sites.len()
        invariant
            i <= sites.len(),
            out@ == head + site_rows_items(sites@.take(i as int), show),
        decreases sites.len() - i,
    {
        push_site_row(&mut out, &sites[i], show);
        proof {
            assert(sites@.take(i + 1).drop_last() =~= sites@.take(i as int));
        }
        i += 1;
    }
    assert(sites@.take(sites.len() as int) =~= sites@);
    out.append("</tbody></table></div>");
    out
}

/// The Websites page: notices, the site list with its document-root toggle, and the add
/// form.
pub open spec fn websites_main_spec(notice: Option<&str>, error: Option<&str>, sites: &Vec<SiteListing>, show_docroots: bool) -> Seq<char> {
    section_heading_spec("Websites"@, "Manage website files under /home for each domain."@) + "\n      "@ + crate::panel_website_manage_ui::notice_block_spec("ok"@, notice) + "\n      "@ + crate::panel_website_manage_ui::notice_block_spec("error"@, error) + "\n      <article class=\"section-card\">\n        <h2>Sites ("@ + dec(sites@.len()) + ")</h2>\n        <p class=\"muted\">Website files live under <code>/home/&lt;domain&gt;/public_html</code> (subdomains nest under the parent home). Internal site records are for the panel only; operators work with the files under <code>/home/</code>. Vhost wiring is applied later by panel recipes.</p>\n        <form method=\"post\" action=\"/websites/prefs\" class=\"inline-form\" style=\"margin:12px 0;\">\n          <input type=\"hidden\" name=\"show_document_roots\" value=\""@ + (if show_docroots { "0"@ } else { "1"@ }) + "\">\n          <button type=\"submit\" class=\"btn-secondary\" style=\"min-height:40px;padding:0 14px;border:0;border-radius:999px;background:#f2f4f7;color:#344054;font-weight:700;cursor:pointer;\">"@ + (if show_docroots { "Hide document roots"@ } else { "Show document roots"@ }) + "</button>\n        </form>\n        "@ + site_rows_spec(sites@, show_docroots) + "\n      </article>\n      <article class=\"section-card\" style=\"margin-top:22px;\">\n        <h2>Add site</h2>\n        <p>Creates <code>/home/&lt;domain&gt;/public_html</code> (or nests a subdomain under the parent home). Subdomains require the parent domain site first. Optional custom docroot must be an absolute path.</p>\n        <form method=\"post\" action=\"/websites/create\" class=\"stack-form\">\n          <label for=\"domain\">Domain</label>\n          <input id=\"domain\" name=\"domain\" type=\"text\" required placeholder=\"example.com\" autocomplete=\"off\">\n          <label for=\"owner\">Owner</label>\n          <input id=\"owner\" name=\"owner\" type=\"text\" required placeholder=\"admin\" autocomplete=\"username\">\n          <label for=\"docroot\">Docroot (optional)</label>\n          <input id=\"docroot\" name=\"docroot\" type=\"text\" placeholder=\"/home/example.com/public_html\">\n          <button type=\"submit\" class=\"btn-primary\">Create site</button>\n        </form>\n      </article>"@
}

#[verifier::rlimit(60)]
#[verifier::spinoff_prover]
pub fn websites_main(notice: Option<&str>, error: Option<&str>, sites: &Vec<SiteListing>, show_docroots: bool) -> (r: String)
    ensures
        r@ == websites_main_spec(notice, error, sites, show_docroots),
{
    proof {
        reveal_strlit("");
    }
    let mut out = String::new();
    let h = section_heading("Websites", "Manage website files under /home for each domain.");
    out.append(h.as_str());
    out.append("\n      ");
    let ok = crate::panel_website_manage_ui::notice_block("ok", notice);
    out.append(ok.as_str());
    out.append("\n      ");
    let err = crate::panel_website_manage_ui::notice_block("error", error);
    out.append(err.as_str());
    out.append("\n      <article class=\"section-card\">\n        <h2>Sites (");
    push_dec(&mut out, sites.len() as u64);
    out.append(")</h2>\n        <p class=\"muted\">Website files live under <code>/home/&lt;domain&gt;/public_html</code> (subdomains nest under the parent home). Internal site records are for the panel only; operators work with the files under <code>/home/</code>. Vhost wiring is applied later by panel recipes.</p>\n        <form method=\"post\" action=\"/websites/prefs\" class=\"inline-form\" style=\"margin:12px 0;\">\n          <input type=\"hidden\" name=\"show_document_roots\" value=\"");
    out.append(if show_docroots { "0" } else { "1" });
    out.append("\">\n          <button type=\"submit\" class=\"btn-secondary\" style=\"min-height:40px;padding:0 14px;border:0;border-radius:999px;background:#f2f4f7;color:#344054;font-weight:700;cursor:pointer;\">");
    out.append(if show_docroots { "Hide document roots" } else { "Show document roots" });
    out.append("</button>\n        </form>\n        ");
    let rows = site_rows(sites, show_docroots);
    out.append(rows.as_str());
    out.append("\n      </article>\n      <article class=\"section-card\" style=\"margin-top:22px;\">\n        <h2>Add site</h2>\n        <p>Creates <code>/home/&lt;domain&gt;/public_html</code> (or nests a subdomain under the parent home). Subdomains require the parent domain site first. Optional custom docroot must be an absolute path.</p>\n        <form method=\"post\" action=\"/websites/create\" class=\"stack-form\">\n          <label for=\"domain\">Domain</label>\n          <input id=\"domain\" name=\"domain\" type=\"text\" required placeholder=\"example.com\" autocomplete=\"off\">\n          <label for=\"owner\">Owner</label>\n          <input id=\"owner\" name=\"owner\" type=\"text\" required placeholder=\"admin\" autocomplete=\"username\">\n          <label for=\"docroot\">Docroot (optional)</label>\n          <input id=\"docroot\" name=\"docroot\" type=\"text\" placeholder=\"/home/example.com/public_html\">\n          <button type=\"submit\" class=\"btn-primary\">Create site</button>\n        </form>\n      </article>");
    proof {
        assert(out@ =~= websites_main_spec(notice, error, sites, show_docroots));
    }
    out
}

/// The saved preference the document-root toggle submits.
pub fn set_websites_docroot_pref(prefs: &mut crate::panel_prefs::PanelUiPrefs, show: bool)
    ensures
        final(prefs).show_document_roots == show,
{
    prefs.show_document_roots = show;
}

/// What the Email page shows of outbound SMTP (no secrets).
pub struct SmtpSummary {
    pub configured: bool,
    pub host: Option<String>,
    pub port: Option<u16>,
    pub tls_mode: Option<String>,
    pub from_address: Option<String>,
}

pub open spec fn or_dash(o: Option<String>) -> Seq<char> {
    match o {
        Some(s) => s@,
        None => "-"@,
    }
}

/// `host:port (tls) from address`, or a note when SMTP is not configured.
pub open spec fn smtp_line_spec(s: &SmtpSummary) -> Seq<char> {
    if s.configured {
        or_dash(s.host) + ":"@ + dec((match s.port { Some(p) => p, None => 0 }) as nat) + " ("@ + or_dash(s.tls_mode) + ") from "@
            + or_dash(s.from_address)
    } else {
        "Outbound SMTP is not configured"@
    }
}

fn push_or_dash(out: &mut String, o: &Option<String>)
    ensures
        final(out)@ == old(out)@ + or_dash(*o),
{
    match o {
        Some(s) => out.append(s.as_str()),
        None => out.append("-"),
    }
}

#[verifier::rlimit(60)]
#[verifier::spinoff_prover]
fn smtp_line(s: &SmtpSummary) -> (r: String)
    ensures
        r@ == smtp_line_spec(s),
{
    if !s.configured {
        return "Outbound SMTP is not configured".to_owned();
    }
    let mut out = String::new();
    push_or_dash(&mut out, &s.host);
    out.append(":");
    let p: u16 = match s.port { Some(p) => p, None => 0 };
    push_dec(&mut out, p as u64);
    out.append(" (");
    push_or_dash(&mut out, &s.tls_mode);
    out.append(") from ");
    push_or_dash(&mut out, &s.from_address);
    assert(out@ =~= smtp_line_spec(s));
    out
}

/// The webmail part of the Email page: an Open link for a ready SnappyMail or Roundcube,
/// a note for Thunderbird, else how to install one.
pub open spec fn webmail_block_spec(selected: Option<MailSystem>, client_ready: bool, webmail_url: Seq<char>) -> Seq<char> {
    if client_ready && (selected == Some(MailSystem::Snappymail) || selected == Some(MailSystem::Roundcube)) {
        "<p><a class=\"btn-primary\" href=\""@ + html_escaped(webmail_url) + "\" target=\"_blank\" rel=\"noopener noreferrer\">Open webmail</a></p>\n        <p class=\"muted\">Local health URL: <code>"@ + html_escaped(webmail_url) + "</code></p>"@
    } else if selected == Some(MailSystem::Thunderbird) {
        "<p class=\"muted\">Thunderbird is a desktop client only. No local webmail URL is provisioned.</p>"@
    } else {
        "<p class=\"muted\">Install a webmail stack from the installer mail stage to enable a local webmail link.</p>"@
    }
}

#[verifier::rlimit(60)]
#[verifier::spinoff_prover]
fn webmail_block(selected: Option<MailSystem>, client_ready: bool, webmail_url: &str) -> (r: String)
    ensures
        r@ == webmail_block_spec(selected, client_ready, webmail_url@),
{
    let web = match selected {
        Some(MailSystem::Snappymail) => true,
        Some(MailSystem::Roundcube) => true,
        _ => false,
    };
    let thunderbird = match selected {
        Some(MailSystem::Thunderbird) => true,
        _ => false,
    };
    if client_ready && web {
        let mut out = "<p><a class=\"btn-primary\" href=\"".to_owned();
        push_escaped(&mut out, webmail_url);
        out.append("\" target=\"_blank\" rel=\"noopener noreferrer\">Open webmail</a></p>\n        <p class=\"muted\">Local health URL: <code>");
        push_escaped(&mut out, webmail_url);
        out.append("</code></p>");
        assert(out@ =~= webmail_block_spec(selected, client_ready, webmail_url@));
        out
    } else if thunderbird {
        "<p class=\"muted\">Thunderbird is a desktop client only. No local webmail URL is provisioned.</p>".to_owned()
    } else {
        "<p class=\"muted\">Install a webmail stack from the installer mail stage to enable a local webmail link.</p>".to_owned()
    }
}

/// The Email page: selected client (by its label), webmail and backend readiness, the
/// outbound SMTP line, and the webmail link or note.
pub open spec fn email_main_spec(selected_mail: Option<MailSystem>, mail_label: &str, mail_client_ready: bool, mail_backend_ready: bool, smtp: &SmtpSummary, webmail_url: &str) -> Seq<char> {
    section_heading_spec("Email"@, "Mail client status and outbound SMTP summary (no secrets)."@) + "\n      <article class=\"section-card\">\n        <h2>Mail stack</h2>\n        <ul class=\"kv-list\">\n          <li><span>Selected client</span><strong>"@ + html_escaped(match selected_mail { Some(_) => mail_label@, None => "Not selected"@ }) + "</strong></li>\n          <li><span>Webmail client</span><strong>"@ + (if mail_client_ready { "Ready"@ } else { "Not installed"@ }) + "</strong></li>\n          <li><span>IMAP/SMTP backend</span><strong>"@ + (if mail_backend_ready { "Ready"@ } else { "Not verified"@ }) + "</strong></li>\n          <li><span>Outbound SMTP</span><strong>"@ + html_escaped(smtp_line_spec(smtp)) + "</strong></li>\n        </ul>\n        "@ + webmail_block_spec(selected_mail, mail_client_ready, webmail_url@) + "\n      </article>"@
}

#[verifier::rlimit(60)]
#[verifier::spinoff_prover]
pub fn email_main(selected_mail: Option<MailSystem>, mail_label: &str, mail_client_ready: bool, mail_backend_ready: bool, smtp: &SmtpSummary, webmail_url: &str) -> (r: String)
    ensures
        r@ == email_main_spec(selected_mail, mail_label, mail_client_ready, mail_backend_ready, smtp, webmail_url),
{
    let mut out = String::new();
    let h = section_heading("Email", "Mail client status and outbound SMTP summary (no secrets).");
    out.append(h.as_str());
    out.append("\n      <article class=\"section-card\">\n        <h2>Mail stack</h2>\n        <ul class=\"kv-list\">\n          <li><span>Selected client</span><strong>");
    match selected_mail {
        Some(_) => push_escaped(&mut out, mail_label),
        None => push_escaped(&mut out, "Not selected"),
    }
    out.append("</strong></li>\n          <li><span>Webmail client</span><strong>");
    out.append(if mail_client_ready { "Ready" } else { "Not installed" });
    out.append("</strong></li>\n          <li><span>IMAP/SMTP backend</span><strong>");
    out.append(if mail_backend_ready { "Ready" } else { "Not verified" });
    out.append("</strong></li>\n          <li><span>Outbound SMTP</span><strong>");
    let sl = smtp_line(smtp);
    push_escaped(&mut out, sl.as_str());
    out.append("</strong></li>\n        </ul>\n        ");
    let wb = webmail_block(selected_mail, mail_client_ready, webmail_url);
    out.append(wb.as_str());
    out.append("\n      </article>");
    proof {
        assert(out@ =~= email_main_spec(selected_mail, mail_label, mail_client_ready, mail_backend_ready, smtp, webmail_url));
    }
    out
}

/// The Databases page: the detected service and port 3306, the detail, and the MariaDB
/// install form when nothing is detected.
pub open spec fn databases_main_spec(notice: Option<&str>, error: Option<&str>, service_label: &str, listening_3306: bool, detail: &str) -> Seq<char> {
    section_heading_spec("Databases"@, "Honest detection of local MariaDB/MySQL. No credentials are stored here."@) + "\n      "@ + crate::panel_website_manage_ui::notice_block_spec("ok"@, notice) + "\n      "@ + crate::panel_website_manage_ui::notice_block_spec("error"@, error) + "\n      <article class=\"section-card\">\n        <h2>Database status</h2>\n        <ul class=\"kv-list\">\n          <li><span>Detected service</span><strong>"@ + html_escaped(service_label@) + "</strong></li>\n          <li><span>TCP 127.0.0.1:3306</span><strong>"@ + (if listening_3306 { "Open"@ } else { "Closed"@ }) + "</strong></li>\n        </ul>\n        <p>"@ + html_escaped(detail@) + "</p>\n        "@ + (if service_label@ == "Not detected"@ && !listening_3306 { "<form method=\"post\" action=\"/databases/install-mariadb\" class=\"stack-form\" style=\"margin-top:18px;\" onsubmit=\"return confirm('Install MariaDB server packages on this host now?');\">\n          <button type=\"submit\" class=\"btn-primary\">Install MariaDB</button>\n        </form>\n        <p class=\"muted\">Runs a package install via dnf or apt (mariadb-server), then enables the service. Requires root / panel host privileges.</p>"@ } else { ""@ }) + "\n        <p class=\"muted\">Next steps: install MariaDB, create databases with your preferred tooling, then wire panel DB management in a later release.</p>\n      </article>"@
}

#[verifier::rlimit(60)]
#[verifier::spinoff_prover]
pub fn databases_main(notice: Option<&str>, error: Option<&str>, service_label: &str, listening_3306: bool, detail: &str) -> (r: String)
    ensures
        r@ == databases_main_spec(notice, error, service_label, listening_3306, detail),
{
    proof {
        reveal_strlit("");
    }
    let mut out = String::new();
    let h = section_heading("Databases", "Honest detection of local MariaDB/MySQL. No credentials are stored here.");
    out.append(h.as_str());
    out.append("\n      ");
    let ok = crate::panel_website_manage_ui::notice_block("ok", notice);
    out.append(ok.as_str());
    out.append("\n      ");
    let err = crate::panel_website_manage_ui::notice_block("error", error);
    out.append(err.as_str());
    out.append("\n      <article class=\"section-card\">\n        <h2>Database status</h2>\n        <ul class=\"kv-list\">\n          <li><span>Detected service</span><strong>");
    push_escaped(&mut out, service_label);
    out.append("</strong></li>\n          <li><span>TCP 127.0.0.1:3306</span><strong>");
    out.append(if listening_3306 { "Open" } else { "Closed" });
    out.append("</strong></li>\n        </ul>\n        <p>");
    push_escaped(&mut out, detail);
    out.append("</p>\n        ");
    out.append(if crate::text::str_eq(service_label, "Not detected") && !listening_3306 { "<form method=\"post\" action=\"/databases/install-mariadb\" class=\"stack-form\" style=\"margin-top:18px;\" onsubmit=\"return confirm('Install MariaDB server packages on this host now?');\">\n          <button type=\"submit\" class=\"btn-primary\">Install MariaDB</button>\n        </form>\n        <p class=\"muted\">Runs a package install via dnf or apt (mariadb-server), then enables the service. Requires root / panel host privileges.</p>" } else { "" });
    out.append("\n        <p class=\"muted\">Next steps: install MariaDB, create databases with your preferred tooling, then wire panel DB management in a later release.</p>\n      </article>");
    proof {
        assert(out@ =~= databases_main_spec(notice, error, service_label, listening_3306, detail));
    }
    out
}


} // verus!
