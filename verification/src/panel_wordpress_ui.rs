//! WordPress panel pages: the site list, the install form, and the manage tabs. The
//! registry, WP-CLI state and site snapshot are looked up by the caller.

use vstd::prelude::*;
use vstd::string::*;
use crate::panel_website_manage_ui::{notice_block, notice_block_spec};
use crate::text::{dec, html_escaped, push_dec, push_escaped, trim, trim_str};

verus! {

/// A registered WordPress site.
pub struct WordpressSite {
    pub domain: String,
    pub site_url: String,
    pub title: String,
    pub wp_version: String,
    pub php_version: String,
    pub theme: String,
    pub plugin_count: u64,
    pub owner: String,
    pub docroot: String,
    pub db_name: String,
    pub db_user: String,
    pub search_indexing: bool,
    pub debugging: bool,
    pub maintenance: bool,
    pub password_protection: bool,
}

/// A plugin of a WordPress site as WP-CLI lists it.
pub struct PluginRow {
    pub name: String,
    pub status: String,
    pub version: String,
    pub update: String,
}

/// A theme of a WordPress site as WP-CLI lists it.
pub struct ThemeRow {
    pub name: String,
    pub status: String,
    pub version: String,
}

/// A site with its plugins and themes.
pub struct WordpressSiteSnapshot {
    pub site: WordpressSite,
    pub plugins: Vec<PluginRow>,
    pub themes: Vec<ThemeRow>,
}

/// Whether WP-CLI is there, and what was found.
pub struct WpCliStatus {
    pub available: bool,
    pub detail: String,
    pub binary: Option<String>,
    pub version: Option<String>,
}

/// A value trimmed and escaped, or `-` when blank.
pub open spec fn dash_or_spec(v: Seq<char>) -> Seq<char> {
    if trim(v).len() == 0 {
        "-"@
    } else {
        html_escaped(trim(v))
    }
}

fn push_dash_or(out: &mut String, v: &str)
    ensures
        final(out)@ == old(out)@ + dash_or_spec(v@),
{
    let t = trim_str(v);
    if t.as_str().is_empty() {
        out.append("-");
    } else {
        push_escaped(out, t.as_str());
    }
}

pub open spec fn opt_or_dash(o: Option<String>) -> Seq<char> {
    match o {
        Some(s) => s@,
        None => "-"@,
    }
}

pub open spec fn section_heading_spec(title: Seq<char>, blurb: Seq<char>) -> Seq<char> {
    crate::panel_sections::section_heading_spec(title, blurb)
}

pub open spec fn bool_badge_spec(on: bool, on_label: Seq<char>, off_label: Seq<char>) -> Seq<char> {
    if on {
        "<span class=\"badge-ok\">"@ + html_escaped(on_label) + "</span>"@
    } else {
        "<span class=\"badge-off\">"@ + html_escaped(off_label) + "</span>"@
    }
}

#[verifier::rlimit(60)]
#[verifier::spinoff_prover]
fn push_bool_badge(out: &mut String, on: bool, on_label: &str, off_label: &str)
    ensures
        final(out)@ == old(out)@ + bool_badge_spec(on, on_label@, off_label@),
{
    let ghost start = out@;
    if on {
        out.append("<span class=\"badge-ok\">");
        push_escaped(out, on_label);
        out.append("</span>");
    } else {
        out.append("<span class=\"badge-off\">");
        push_escaped(out, off_label);
        out.append("</span>");
    }
    assert(out@ =~= start + bool_badge_spec(on, on_label@, off_label@));
}

/// The WP-CLI status card.
pub open spec fn wp_cli_card_spec(status: &WpCliStatus) -> Seq<char> {
    "<article class=\"status-card\">\n          <div class=\"status-card-heading\"><h2>WP-CLI</h2><strong class=\""@ + (if status.available { "ok"@ } else { "warn"@ }) + "\">"@ + (if status.available { "Available"@ } else { "Missing"@ }) + "</strong></div>\n          <ul>\n            <li><strong class=\""@ + (if status.available { "ok"@ } else { "warn"@ }) + "\">Status</strong><span>"@ + html_escaped(status.detail@) + "</span></li>\n            <li><strong>Binary</strong><span>"@ + dash_or_spec(opt_or_dash(status.binary)) + "</span></li>\n            <li><strong>Version</strong><span>"@ + dash_or_spec(opt_or_dash(status.version)) + "</span></li>\n          </ul>\n          <form method=\"post\" action=\"/wordpress/ensure-wpcli\" class=\"inline-form\" style=\"margin-top:14px;\">\n            <button type=\"submit\" class=\"btn-secondary\">Ensure WP-CLI</button>\n          </form>\n        </article>"@
}

#[verifier::rlimit(60)]
#[verifier::spinoff_prover]
fn push_wp_cli_card(out: &mut String, status: &WpCliStatus)
    ensures
        final(out)@ == old(out)@ + wp_cli_card_spec(status),
{
    proof {
        reveal_strlit("");
    }
    let ghost start = out@;
    out.append("<article class=\"status-card\">\n          <div class=\"status-card-heading\"><h2>WP-CLI</h2><strong class=\"");
    out.append(if status.available { "ok" } else { "warn" });
    out.append("\">");
    out.append(if status.available { "Available" } else { "Missing" });
    out.append("</strong></div>\n          <ul>\n            <li><strong class=\"");
    out.append(if status.available { "ok" } else { "warn" });
    out.append("\">Status</strong><span>");
    push_escaped(out, status.detail.as_str());
    out.append("</span></li>\n            <li><strong>Binary</strong><span>");
    push_dash_or(out, match &status.binary { Some(b) => b.as_str(), None => "-" });
    out.append("</span></li>\n            <li><strong>Version</strong><span>");
    push_dash_or(out, match &status.version { Some(b) => b.as_str(), None => "-" });
    out.append("</span></li>\n          </ul>\n          <form method=\"post\" action=\"/wordpress/ensure-wpcli\" class=\"inline-form\" style=\"margin-top:14px;\">\n            <button type=\"submit\" class=\"btn-secondary\">Ensure WP-CLI</button>\n          </form>\n        </article>");
    assert(out@ =~= start + wp_cli_card_spec(status));
}

/// One registered site in the WordPress list.
pub open spec fn site_row_spec(s: &WordpressSite) -> Seq<char> {
    "<tr>\n          <td><strong>"@ + html_escaped(s.domain@) + "</strong><div class=\"muted\">"@ + dash_or_spec(s.site_url@) + "</div></td>\n          <td>"@ + dash_or_spec(s.title@) + "</td>\n          <td>"@ + dash_or_spec(s.wp_version@) + "</td>\n          <td>"@ + dash_or_spec(s.theme@) + "</td>\n          <td>"@ + dec(s.plugin_count as nat) + "</td>\n          <td>"@ + dash_or_spec(s.owner@) + "</td>\n          <td>\n            <a class=\"btn-primary\" style=\"min-height:34px;padding:0 12px;font-size:13px;\" href=\"/wordpress/manage?domain="@ + html_escaped(s.domain@) + "\">Manage</a>\n          </td>\n        </tr>"@
}

#[verifier::rlimit(60)]
#[verifier::spinoff_prover]
fn push_site_row(out: &mut String, s: &WordpressSite)
    ensures
        final(out)@ == old(out)@ + site_row_spec(s),
{
    proof {
        reveal_strlit("");
    }
    let ghost start = out@;
    out.append("<tr>\n          <td><strong>");
    push_escaped(out, s.domain.as_str());
    out.append("</strong><div class=\"muted\">");
    push_dash_or(out, s.site_url.as_str());
    out.append("</div></td>\n          <td>");
    push_dash_or(out, s.title.as_str());
    out.append("</td>\n          <td>");
    push_dash_or(out, s.wp_version.as_str());
    out.append("</td>\n          <td>");
    push_dash_or(out, s.theme.as_str());
    out.append("</td>\n          <td>");
    push_dec(out, s.plugin_count);
    out.append("</td>\n          <td>");
    push_dash_or(out, s.owner.as_str());
    out.append("</td>\n          <td>\n            <a class=\"btn-primary\" style=\"min-height:34px;padding:0 12px;font-size:13px;\" href=\"/wordpress/manage?domain=");
    push_escaped(out, s.domain.as_str());
    out.append("\">Manage</a>\n          </td>\n        </tr>");
    assert(out@ =~= start + site_row_spec(s));
}

pub open spec fn site_rows_items(sites: Seq<WordpressSite>) -> Seq<char>
    decreases sites.len(),
{
    if sites.len() == 0 {
        ""@
    } else {
        site_rows_items(sites.drop_last()) + site_row_spec(&sites.last())
    }
}

/// The WordPress site table, or a note when none is registered.
pub open spec fn site_table_spec(sites: Seq<WordpressSite>) -> Seq<char> {
    if sites.len() == 0 {
        "<p class=\"empty-state\">No WordPress sites registered yet. Install WordPress on an existing site or run Scan.</p>"@
    } else {
        "<div class=\"table-wrap\"><table class=\"data-table\">\n      <thead><tr>\n        <th>Domain</th><th>Title</th><th>WP version</th><th>Theme</th><th>Plugins</th><th>Owner</th><th>Actions</th>\n      </tr></thead><tbody>"@ + site_rows_items(sites) + "</tbody></table></div>"@
    }
}

fn site_table(sites: &Vec<WordpressSite>) -> (r: String)
    ensures
        r@ == site_table_spec(sites@),
{
    proof {
        reveal_strlit("");
    }
    if sites.len() == 0 {
        return "<p class=\"empty-state\">No WordPress sites registered yet. Install WordPress on an existing site or run Scan.</p>".to_owned();
    }
    let mut out = "<div class=\"table-wrap\"><table class=\"data-table\">\n      <thead><tr>\n        <th>Domain</th><th>Title</th><th>WP version</th><th>Theme</th><th>Plugins</th><th>Owner</th><th>Actions</th>\n      </tr></thead><tbody>".to_owned();
    let ghost head = out@;
    let mut i: usize = 0;
    assert(sites@.take(0) =~= Seq::<WordpressSite>::empty());
    while i < sites.len()
        invariant
            i <= sites.len(),
            out@ == head + site_rows_items(sites@.take(i as int)),
        decreases sites.len() - i,
    {
        push_site_row(&mut out, &sites[i]);
        proof {
            assert(sites@.take(i + 1).drop_last() =~= sites@.take(i as int));
        }
        i += 1;
    }
    assert(sites@.take(sites.len() as int) =~= sites@);
    out.append("</tbody></table></div>");
    out
}

/// The WordPress page: WP-CLI card, quick actions, and the registered sites.
pub open spec fn wordpress_list_page_spec(notice: Option<&str>, error: Option<&str>, wp_cli: &WpCliStatus, sites: &Vec<WordpressSite>) -> Seq<char> {
    section_heading_spec("WordPress"@, "Install and manage WordPress on CPN website document roots. Passwords are never stored in the registry."@) + "\n      "@ + notice_block_spec("ok"@, notice) + "\n      "@ + notice_block_spec("error"@, error) + "\n      <div class=\"resource-grid\">\n        "@ + wp_cli_card_spec(wp_cli) + "\n        <article class=\"section-card\">\n          <h2>Quick actions</h2>\n          <p class=\"muted\">Install WordPress on a CPN site docroot, scan for existing installs, or manage registered sites.</p>\n          <div style=\"display:flex;flex-wrap:wrap;gap:10px;margin-top:14px;\">\n            <a class=\"btn-primary\" href=\"/wordpress/install\">Install WordPress</a>\n            <form method=\"post\" action=\"/wordpress/scan\" class=\"inline-form\">\n              <button type=\"submit\" class=\"btn-secondary\">Scan sites</button>\n            </form>\n          </div>\n        </article>\n      </div>\n      <article class=\"section-card\" style=\"margin-top:18px;\">\n        <h2>Registered sites ("@ + dec(sites@.len()) + ")</h2>\n        "@ + site_table_spec(sites@) + "\n      </article>"@
}

#[verifier::rlimit(60)]
#[verifier::spinoff_prover]
pub fn wordpress_list_page(notice: Option<&str>, error: Option<&str>, wp_cli: &WpCliStatus, sites: &Vec<WordpressSite>) -> (r: String)
    ensures
        r@ == wordpress_list_page_spec(notice, error, wp_cli, sites),
{
    let mut out = String::new();
    let h = crate::panel_sections::section_heading("WordPress", "Install and manage WordPress on CPN website document roots. Passwords are never stored in the registry.");
    out.append(h.as_str());
    out.append("\n      ");
    let ok = notice_block("ok", notice);
    out.append(ok.as_str());
    out.append("\n      ");
    let err = notice_block("error", error);
    out.append(err.as_str());
    out.append("\n      <div class=\"resource-grid\">\n        ");
    push_wp_cli_card(&mut out, wp_cli);
    out.append("\n        <article class=\"section-card\">\n          <h2>Quick actions</h2>\n          <p class=\"muted\">Install WordPress on a CPN site docroot, scan for existing installs, or manage registered sites.</p>\n          <div style=\"display:flex;flex-wrap:wrap;gap:10px;margin-top:14px;\">\n            <a class=\"btn-primary\" href=\"/wordpress/install\">Install WordPress</a>\n            <form method=\"post\" action=\"/wordpress/scan\" class=\"inline-form\">\n              <button type=\"submit\" class=\"btn-secondary\">Scan sites</button>\n            </form>\n          </div>\n        </article>\n      </div>\n      <article class=\"section-card\" style=\"margin-top:18px;\">\n        <h2>Registered sites (");
    push_dec(&mut out, sites.len() as u64);
    out.append(")</h2>\n        ");
    let rows = site_table(sites);
    out.append(rows.as_str());
    out.append("\n      </article>");
    proof {
        assert(out@ =~= wordpress_list_page_spec(notice, error, wp_cli, sites));
    }
    out
}

/// The WordPress install form.
pub open spec fn wordpress_install_page_spec(notice: Option<&str>, error: Option<&str>) -> Seq<char> {
    section_heading_spec("Install WordPress"@, "One-click WordPress setup on a domain home docroot."@) + "\n      "@ + notice_block_spec("ok"@, notice) + "\n      "@ + notice_block_spec("error"@, error) + "\n      <article class=\"section-card\">\n        <h2>Install WordPress</h2>\n        <p class=\"muted\">Creates MariaDB database and user, downloads WordPress core, runs wp core install, and optionally pre-installs plugins. The CPN site must exist or enable create site below.</p>\n        <form method=\"post\" action=\"/wordpress/install\" class=\"stack-form\" style=\"max-width:560px;\">\n          <label>Domain<input type=\"text\" name=\"domain\" required placeholder=\"blog.example.com\" autocomplete=\"off\"></label>\n          <label>Site title<input type=\"text\" name=\"title\" required placeholder=\"My blog\"></label>\n          <label>Site URL<input type=\"url\" name=\"site_url\" placeholder=\"https://blog.example.com\"></label>\n          <label>Admin username<input type=\"text\" name=\"admin_user\" required placeholder=\"admin\" autocomplete=\"username\"></label>\n          <label>Admin password<input type=\"password\" name=\"admin_password\" required minlength=\"8\" autocomplete=\"new-password\"></label>\n          <label>Admin email<input type=\"email\" name=\"admin_email\" required placeholder=\"you@example.com\" autocomplete=\"email\"></label>\n          <label>Pre-install plugins<textarea name=\"plugin_sources\" rows=\"3\" placeholder=\"akismet, hello-dolly, https://example.com/plugin.zip\"></textarea></label>\n          <label style=\"display:flex;align-items:center;gap:8px;font-weight:600;\">\n            <input type=\"checkbox\" name=\"create_site_if_missing\" value=\"1\"> Create CPN site if missing\n          </label>\n          <button type=\"submit\" class=\"btn-primary\">Install WordPress</button>\n        </form>\n      </article>"@
}

#[verifier::rlimit(60)]
#[verifier::spinoff_prover]
pub fn wordpress_install_page(notice: Option<&str>, error: Option<&str>) -> (r: String)
    ensures
        r@ == wordpress_install_page_spec(notice, error),
{
    let mut out = String::new();
    let h = crate::panel_sections::section_heading("Install WordPress", "One-click WordPress setup on a domain home docroot.");
    out.append(h.as_str());
    out.append("\n      ");
    let ok = notice_block("ok", notice);
    out.append(ok.as_str());
    out.append("\n      ");
    let err = notice_block("error", error);
    out.append(err.as_str());
    out.append("\n      <article class=\"section-card\">\n        <h2>Install WordPress</h2>\n        <p class=\"muted\">Creates MariaDB database and user, downloads WordPress core, runs wp core install, and optionally pre-installs plugins. The CPN site must exist or enable create site below.</p>\n        <form method=\"post\" action=\"/wordpress/install\" class=\"stack-form\" style=\"max-width:560px;\">\n          <label>Domain<input type=\"text\" name=\"domain\" required placeholder=\"blog.example.com\" autocomplete=\"off\"></label>\n          <label>Site title<input type=\"text\" name=\"title\" required placeholder=\"My blog\"></label>\n          <label>Site URL<input type=\"url\" name=\"site_url\" placeholder=\"https://blog.example.com\"></label>\n          <label>Admin username<input type=\"text\" name=\"admin_user\" required placeholder=\"admin\" autocomplete=\"username\"></label>\n          <label>Admin password<input type=\"password\" name=\"admin_password\" required minlength=\"8\" autocomplete=\"new-password\"></label>\n          <label>Admin email<input type=\"email\" name=\"admin_email\" required placeholder=\"you@example.com\" autocomplete=\"email\"></label>\n          <label>Pre-install plugins<textarea name=\"plugin_sources\" rows=\"3\" placeholder=\"akismet, hello-dolly, https://example.com/plugin.zip\"></textarea></label>\n          <label style=\"display:flex;align-items:center;gap:8px;font-weight:600;\">\n            <input type=\"checkbox\" name=\"create_site_if_missing\" value=\"1\"> Create CPN site if missing\n          </label>\n          <button type=\"submit\" class=\"btn-primary\">Install WordPress</button>\n        </form>\n      </article>");
    proof {
        assert(out@ =~= wordpress_install_page_spec(notice, error));
    }
    out
}

/// The WordPress manage tabs, as `(id, label)`.
pub open spec fn wp_tabs() -> Seq<(Seq<char>, Seq<char>)> {
    seq![
        ("general"@, "General"@),
        ("plugins"@, "Plugins"@),
        ("themes"@, "Themes"@),
        ("staging"@, "Staging"@),
        ("backups"@, "Backups"@),
        ("database"@, "Database"@),
    ]
}

pub open spec fn wp_tab_link(domain: Seq<char>, id: Seq<char>, label: Seq<char>, active: Seq<char>) -> Seq<char> {
    "<a class=\""@ + (if id == active { "active"@ } else { ""@ }) + "\" href=\"/wordpress/manage?domain="@ + html_escaped(domain)
        + "&amp;tab="@ + html_escaped(id) + "\">"@ + html_escaped(label) + "</a>"@
}

pub open spec fn wp_tab_links(tabs: Seq<(Seq<char>, Seq<char>)>, domain: Seq<char>, active: Seq<char>) -> Seq<char>
    decreases tabs.len(),
{
    if tabs.len() == 0 {
        ""@
    } else {
        wp_tab_links(tabs.drop_last(), domain, active) + wp_tab_link(domain, tabs.last().0, tabs.last().1, active)
    }
}

pub open spec fn wp_tab_bar_spec(domain: Seq<char>, active: Seq<char>) -> Seq<char> {
    "<nav class=\"manage-tabs\" aria-label=\"WordPress manage tabs\">"@ + wp_tab_links(wp_tabs(), domain, active) + "</nav>"@
}

#[verifier::rlimit(60)]
#[verifier::spinoff_prover]
fn wp_tab_bar(domain: &str, active: &str) -> (r: String)
    ensures
        r@ == wp_tab_bar_spec(domain@, active@),
{
    proof {
        reveal_strlit("");
    }
    let ids: Vec<&str> = vec!["general", "plugins", "themes", "staging", "backups", "database"];
    let labels: Vec<&str> = vec!["General", "Plugins", "Themes", "Staging", "Backups", "Database"];
    let ghost tabs = wp_tabs();
    assert forall|k: int| 0 <= k < 6 implies ids@[k]@ == tabs[k].0 && labels@[k]@ == tabs[k].1 by {}
    let mut out = "<nav class=\"manage-tabs\" aria-label=\"WordPress manage tabs\">".to_owned();
    let ghost head = out@;
    let mut i: usize = 0;
    assert(tabs.take(0) =~= Seq::<(Seq<char>, Seq<char>)>::empty());
    while i < 6
        invariant
            i <= 6,
            ids@.len() == 6,
            labels@.len() == 6,
            tabs == wp_tabs(),
            forall|k: int| 0 <= k < 6 ==> ids@[k]@ == tabs[k].0 && labels@[k]@ == tabs[k].1,
            out@ == head + wp_tab_links(tabs.take(i as int), domain@, active@),
        decreases 6 - i,
    {
        let id = ids[i];
        let label = labels[i];
        let ghost before = out@;
        out.append("<a class=\"");
        out.append(if crate::text::str_eq(id, active) { "active" } else { "" });
        out.append("\" href=\"/wordpress/manage?domain=");
        push_escaped(&mut out, domain);
        out.append("&amp;tab=");
        push_escaped(&mut out, id);
        out.append("\">");
        push_escaped(&mut out, label);
        out.append("</a>");
        proof {
            assert(tabs.take(i + 1).drop_last() =~= tabs.take(i as int));
            assert(out@ =~= before + wp_tab_link(domain@, id@, label@, active@));
        }
        i += 1;
    }
    out.append("</nav>");
    assert(tabs.take(6) =~= tabs);
    out
}

/// One plugin row.
pub open spec fn plugin_row_spec(p: &PluginRow) -> Seq<char> {
    "<tr><td>"@ + dash_or_spec(p.name@) + "</td><td>"@ + dash_or_spec(p.status@) + "</td><td>"@ + dash_or_spec(p.version@) + "</td><td>"@ + dash_or_spec(p.update@) + "</td></tr>"@
}

#[verifier::rlimit(60)]
#[verifier::spinoff_prover]
fn push_plugin_row(out: &mut String, p: &PluginRow)
    ensures
        final(out)@ == old(out)@ + plugin_row_spec(p),
{
    proof {
        reveal_strlit("");
    }
    let ghost start = out@;
    out.append("<tr><td>");
    push_dash_or(out, p.name.as_str());
    out.append("</td><td>");
    push_dash_or(out, p.status.as_str());
    out.append("</td><td>");
    push_dash_or(out, p.version.as_str());
    out.append("</td><td>");
    push_dash_or(out, p.update.as_str());
    out.append("</td></tr>");
    assert(out@ =~= start + plugin_row_spec(p));
}

/// One theme row, with Activate for a theme that is not active.
pub open spec fn theme_row_spec(t: &ThemeRow, domain: Seq<char>) -> Seq<char> {
    "<tr><td>"@ + dash_or_spec(t.name@) + "</td><td>"@ + dash_or_spec(t.status@) + "</td><td>"@ + dash_or_spec(t.version@) + "</td><td>"@ + (if t.status@ == "active"@ { "-"@ } else { "<form method=\"post\" action=\"/wordpress/themes/activate\" class=\"inline-form\">\n                      <input type=\"hidden\" name=\"domain\" value=\""@ + html_escaped(domain) + "\">\n                      <input type=\"hidden\" name=\"slug\" value=\""@ + html_escaped(t.name@) + "\">\n                      <button type=\"submit\" class=\"btn-secondary\" style=\"min-height:32px;padding:0 10px;\">Activate</button>\n                    </form>"@ }) + "</td></tr>"@
}

#[verifier::rlimit(60)]
#[verifier::spinoff_prover]
fn push_theme_row(out: &mut String, t: &ThemeRow, domain: &str)
    ensures
        final(out)@ == old(out)@ + theme_row_spec(t, domain@),
{
    proof {
        reveal_strlit("");
    }
    let ghost start = out@;
    out.append("<tr><td>");
    push_dash_or(out, t.name.as_str());
    out.append("</td><td>");
    push_dash_or(out, t.status.as_str());
    out.append("</td><td>");
    push_dash_or(out, t.version.as_str());
    out.append("</td><td>");
    if crate::text::str_eq(t.status.as_str(), "active") {
        out.append("-");
    } else {
        out.append("<form method=\"post\" action=\"/wordpress/themes/activate\" class=\"inline-form\">\n                      <input type=\"hidden\" name=\"domain\" value=\"");
        push_escaped(out, domain);
        out.append("\">\n                      <input type=\"hidden\" name=\"slug\" value=\"");
        push_escaped(out, t.name.as_str());
        out.append("\">\n                      <button type=\"submit\" class=\"btn-secondary\" style=\"min-height:32px;padding:0 10px;\">Activate</button>\n                    </form>");
    }
    out.append("</td></tr>");
    assert(out@ =~= start + theme_row_spec(t, domain@));
}

pub open spec fn plugin_rows_items(rows: Seq<PluginRow>) -> Seq<char>
    decreases rows.len(),
{
    if rows.len() == 0 {
        ""@
    } else {
        plugin_rows_items(rows.drop_last()) + plugin_row_spec(&rows.last())
    }
}

pub open spec fn plugin_rows_spec(rows: Seq<PluginRow>) -> Seq<char> {
    if rows.len() == 0 {
        "<p class=\"muted\">No plugins listed.</p>"@
    } else {
        "<div class=\"table-wrap\"><table class=\"data-table\"><thead><tr>\n      <th>Name</th><th>Status</th><th>Version</th><th>Update</th></tr></thead><tbody>"@ + plugin_rows_items(rows) + "</tbody></table></div>"@
    }
}

fn plugin_rows(rows: &Vec<PluginRow>) -> (r: String)
    ensures
        r@ == plugin_rows_spec(rows@),
{
    proof {
        reveal_strlit("");
    }
    if rows.len() == 0 {
        return "<p class=\"muted\">No plugins listed.</p>".to_owned();
    }
    let mut out = "<div class=\"table-wrap\"><table class=\"data-table\"><thead><tr>\n      <th>Name</th><th>Status</th><th>Version</th><th>Update</th></tr></thead><tbody>".to_owned();
    let ghost head = out@;
    let mut i: usize = 0;
    assert(rows@.take(0) =~= Seq::<PluginRow>::empty());
    while i < rows.len()
        invariant
            i <= rows.len(),
            out@ == head + plugin_rows_items(rows@.take(i as int)),
        decreases rows.len() - i,
    {
        push_plugin_row(&mut out, &rows[i]);
        proof {
            assert(rows@.take(i + 1).drop_last() =~= rows@.take(i as int));
        }
        i += 1;
    }
    assert(rows@.take(rows.len() as int) =~= rows@);
    out.append("</tbody></table></div>");
    out
}

pub open spec fn theme_rows_items(rows: Seq<ThemeRow>, domain: Seq<char>) -> Seq<char>
    decreases rows.len(),
{
    if rows.len() == 0 {
        ""@
    } else {
        theme_rows_items(rows.drop_last(), domain) + theme_row_spec(&rows.last(), domain)
    }
}

pub open spec fn theme_rows_spec(rows: Seq<ThemeRow>, domain: Seq<char>) -> Seq<char> {
    if rows.len() == 0 {
        "<p class=\"muted\">No themes listed.</p>"@
    } else {
        "<div class=\"table-wrap\"><table class=\"data-table\"><thead><tr>\n      <th>Name</th><th>Status</th><th>Version</th><th>Action</th></tr></thead><tbody>"@ + theme_rows_items(rows, domain) + "</tbody></table></div>"@
    }
}

fn theme_rows(rows: &Vec<ThemeRow>, domain: &str) -> (r: String)
    ensures
        r@ == theme_rows_spec(rows@, domain@),
{
    proof {
        reveal_strlit("");
    }
    if rows.len() == 0 {
        return "<p class=\"muted\">No themes listed.</p>".to_owned();
    }
    let mut out = "<div class=\"table-wrap\"><table class=\"data-table\"><thead><tr>\n      <th>Name</th><th>Status</th><th>Version</th><th>Action</th></tr></thead><tbody>".to_owned();
    let ghost head = out@;
    let mut i: usize = 0;
    assert(rows@.take(0) =~= Seq::<ThemeRow>::empty());
    while i < rows.len()
        invariant
            i <= rows.len(),
            out@ == head + theme_rows_items(rows@.take(i as int), domain@),
        decreases rows.len() - i,
    {
        push_theme_row(&mut out, &rows[i], domain);
        proof {
            assert(rows@.take(i + 1).drop_last() =~= rows@.take(i as int));
        }
        i += 1;
    }
    assert(rows@.take(rows.len() as int) =~= rows@);
    out.append("</tbody></table></div>");
    out
}

pub open spec fn general_part0(site: &WordpressSite) -> Seq<char> {
    "<article class=\"section-card\">\n          <h2>General</h2>\n          <div class=\"resource-grid\">\n            <div class=\"status-card\">\n              <h2>Site</h2>\n              <ul>\n                <li><strong>Domain</strong><span>"@ + html_escaped(site.domain@) + "</span></li>\n                <li><strong>URL</strong><span>"@ + dash_or_spec(site.site_url@) + "</span></li>\n                <li><strong>Docroot</strong><span><code>"@ + html_escaped(site.docroot@) + "</code></span></li>\n                <li><strong>WP version</strong><span>"@ + dash_or_spec(site.wp_version@) + "</span></li>\n                <li><strong>PHP</strong><span>"@ + dash_or_spec(site.php_version@) + "</span></li>\n                <li><strong>Theme</strong><span>"@ + dash_or_spec(site.theme@) + "</span></li>\n                <li><strong>Plugins</strong><span>"@ + dec(site.plugin_count as nat) + "</span></li>\n              </ul>\n            </div>\n            <div class=\"status-card\">\n              <h2>Toggles</h2>\n              <ul>\n                <li><strong>Search indexing</strong><span>"@
}

#[verifier::rlimit(40)]
#[verifier::spinoff_prover]
fn push_general_part0(out: &mut String, site: &WordpressSite)
    ensures
        final(out)@ == old(out)@ + general_part0(site),
{
    let ghost start = out@;
    out.append("<article class=\"section-card\">\n          <h2>General</h2>\n          <div class=\"resource-grid\">\n            <div class=\"status-card\">\n              <h2>Site</h2>\n              <ul>\n                <li><strong>Domain</strong><span>");
    push_escaped(out, site.domain.as_str());
    out.append("</span></li>\n                <li><strong>URL</strong><span>");
    push_dash_or(out, site.site_url.as_str());
    out.append("</span></li>\n                <li><strong>Docroot</strong><span><code>");
    push_escaped(out, site.docroot.as_str());
    out.append("</code></span></li>\n                <li><strong>WP version</strong><span>");
    push_dash_or(out, site.wp_version.as_str());
    out.append("</span></li>\n                <li><strong>PHP</strong><span>");
    push_dash_or(out, site.php_version.as_str());
    out.append("</span></li>\n                <li><strong>Theme</strong><span>");
    push_dash_or(out, site.theme.as_str());
    out.append("</span></li>\n                <li><strong>Plugins</strong><span>");
    push_dec(out, site.plugin_count);
    out.append("</span></li>\n              </ul>\n            </div>\n            <div class=\"status-card\">\n              <h2>Toggles</h2>\n              <ul>\n                <li><strong>Search indexing</strong><span>");
    assert(out@ =~= start + general_part0(site));
}

pub open spec fn general_part1(site: &WordpressSite) -> Seq<char> {
    bool_badge_spec(site.search_indexing, "Indexed"@, "Discouraged"@) + "</span></li>\n                <li><strong>Debugging</strong><span>"@ + bool_badge_spec(site.debugging, "On"@, "Off"@) + "</span></li>\n                <li><strong>Maintenance</strong><span>"@ + bool_badge_spec(site.maintenance, "On"@, "Off"@) + "</span></li>\n                <li><strong>Password protection</strong><span>"@ + bool_badge_spec(site.password_protection, "On"@, "Off"@) + "</span></li>\n              </ul>\n            </div>\n          </div>\n          <div style=\"display:flex;flex-wrap:wrap;gap:10px;margin-top:16px;\">\n            <form method=\"post\" action=\"/wordpress/refresh\" class=\"inline-form\">\n              <input type=\"hidden\" name=\"domain\" value=\""@ + html_escaped(site.domain@) + "\">\n              <button type=\"submit\" class=\"btn-secondary\">Refresh metadata</button>\n            </form>\n            <a class=\"btn-secondary\" href=\"/websites/manage?domain="@ + html_escaped(site.domain@) + "\">Open site manage</a>\n          </div>\n          <div class=\"stack-form\" style=\"max-width:520px;margin-top:18px;\">\n            <form method=\"post\" action=\"/wordpress/toggle/search-indexing\">\n              <input type=\"hidden\" name=\"domain\" value=\""@
}

#[verifier::rlimit(100)]
#[verifier::spinoff_prover]
fn push_general_part1(out: &mut String, site: &WordpressSite)
    ensures
        final(out)@ == old(out)@ + general_part1(site),
{
    let ghost start = out@;
    push_bool_badge(out, site.search_indexing, "Indexed", "Discouraged");
    out.append("</span></li>\n                <li><strong>Debugging</strong><span>");
    push_bool_badge(out, site.debugging, "On", "Off");
    out.append("</span></li>\n                <li><strong>Maintenance</strong><span>");
    push_bool_badge(out, site.maintenance, "On", "Off");
    out.append("</span></li>\n                <li><strong>Password protection</strong><span>");
    push_bool_badge(out, site.password_protection, "On", "Off");
    out.append("</span></li>\n              </ul>\n            </div>\n          </div>\n          <div style=\"display:flex;flex-wrap:wrap;gap:10px;margin-top:16px;\">\n            <form method=\"post\" action=\"/wordpress/refresh\" class=\"inline-form\">\n              <input type=\"hidden\" name=\"domain\" value=\"");
    push_escaped(out, site.domain.as_str());
    out.append("\">\n              <button type=\"submit\" class=\"btn-secondary\">Refresh metadata</button>\n            </form>\n            <a class=\"btn-secondary\" href=\"/websites/manage?domain=");
    push_escaped(out, site.domain.as_str());
    out.append("\">Open site manage</a>\n          </div>\n          <div class=\"stack-form\" style=\"max-width:520px;margin-top:18px;\">\n            <form method=\"post\" action=\"/wordpress/toggle/search-indexing\">\n              <input type=\"hidden\" name=\"domain\" value=\"");
    assert(out@ =~= start + general_part1(site));
}

pub open spec fn general_part2(site: &WordpressSite) -> Seq<char> {
    html_escaped(site.domain@) + "\">\n              <input type=\"hidden\" name=\"enabled\" value=\""@ + (if site.search_indexing { "0"@ } else { "1"@ }) + "\">\n              <button type=\"submit\" class=\"btn-secondary\">"@ + (if site.search_indexing { "Discourage search engines"@ } else { "Allow search indexing"@ }) + "</button>\n            </form>\n            <form method=\"post\" action=\"/wordpress/toggle/debugging\">\n              <input type=\"hidden\" name=\"domain\" value=\""@
}

#[verifier::rlimit(40)]
#[verifier::spinoff_prover]
fn push_general_part2(out: &mut String, site: &WordpressSite)
    ensures
        final(out)@ == old(out)@ + general_part2(site),
{
    let ghost start = out@;
    push_escaped(out, site.domain.as_str());
    out.append("\">\n              <input type=\"hidden\" name=\"enabled\" value=\"");
    out.append(if site.search_indexing { "0" } else { "1" });
    out.append("\">\n              <button type=\"submit\" class=\"btn-secondary\">");
    out.append(if site.search_indexing { "Discourage search engines" } else { "Allow search indexing" });
    out.append("</button>\n            </form>\n            <form method=\"post\" action=\"/wordpress/toggle/debugging\">\n              <input type=\"hidden\" name=\"domain\" value=\"");
    assert(out@ =~= start + general_part2(site));
}

pub open spec fn general_part3(site: &WordpressSite) -> Seq<char> {
    html_escaped(site.domain@) + "\">\n              <input type=\"hidden\" name=\"enabled\" value=\""@ + (if site.debugging { "0"@ } else { "1"@ }) + "\">\n              <button type=\"submit\" class=\"btn-secondary\">"@ + (if site.debugging { "Disable WP_DEBUG"@ } else { "Enable WP_DEBUG"@ }) + "</button>\n            </form>\n            <form method=\"post\" action=\"/wordpress/toggle/maintenance\">\n              <input type=\"hidden\" name=\"domain\" value=\""@
}

#[verifier::rlimit(40)]
#[verifier::spinoff_prover]
fn push_general_part3(out: &mut String, site: &WordpressSite)
    ensures
        final(out)@ == old(out)@ + general_part3(site),
{
    let ghost start = out@;
    push_escaped(out, site.domain.as_str());
    out.append("\">\n              <input type=\"hidden\" name=\"enabled\" value=\"");
    out.append(if site.debugging { "0" } else { "1" });
    out.append("\">\n              <button type=\"submit\" class=\"btn-secondary\">");
    out.append(if site.debugging { "Disable WP_DEBUG" } else { "Enable WP_DEBUG" });
    out.append("</button>\n            </form>\n            <form method=\"post\" action=\"/wordpress/toggle/maintenance\">\n              <input type=\"hidden\" name=\"domain\" value=\"");
    assert(out@ =~= start + general_part3(site));
}

pub open spec fn general_part4(site: &WordpressSite) -> Seq<char> {
    html_escaped(site.domain@) + "\">\n              <input type=\"hidden\" name=\"enabled\" value=\""@ + (if site.maintenance { "0"@ } else { "1"@ }) + "\">\n              <button type=\"submit\" class=\"btn-secondary\">"@ + (if site.maintenance { "Clear maintenance mode"@ } else { "Enable maintenance mode"@ }) + "</button>\n            </form>\n          </div>\n          <form method=\"post\" action=\"/wordpress/toggle/password-protection\" class=\"stack-form\" style=\"max-width:420px;margin-top:18px;\">\n            <input type=\"hidden\" name=\"domain\" value=\""@
}

#[verifier::rlimit(40)]
#[verifier::spinoff_prover]
fn push_general_part4(out: &mut String, site: &WordpressSite)
    ensures
        final(out)@ == old(out)@ + general_part4(site),
{
    let ghost start = out@;
    push_escaped(out, site.domain.as_str());
    out.append("\">\n              <input type=\"hidden\" name=\"enabled\" value=\"");
    out.append(if site.maintenance { "0" } else { "1" });
    out.append("\">\n              <button type=\"submit\" class=\"btn-secondary\">");
    out.append(if site.maintenance { "Clear maintenance mode" } else { "Enable maintenance mode" });
    out.append("</button>\n            </form>\n          </div>\n          <form method=\"post\" action=\"/wordpress/toggle/password-protection\" class=\"stack-form\" style=\"max-width:420px;margin-top:18px;\">\n            <input type=\"hidden\" name=\"domain\" value=\"");
    assert(out@ =~= start + general_part4(site));
}

pub open spec fn general_part5(site: &WordpressSite) -> Seq<char> {
    html_escaped(site.domain@) + "\">\n            <label><input type=\"checkbox\" name=\"enabled\" value=\"1\"> Enable HTTP basic protection</label>\n            <label>Username<input type=\"text\" name=\"username\" autocomplete=\"off\"></label>\n            <label>Password<input type=\"password\" name=\"password\" autocomplete=\"new-password\"></label>\n            <button type=\"submit\" class=\"btn-secondary\">Apply protection</button>\n          </form>\n          <form method=\"post\" action=\"/wordpress/delete\" class=\"stack-form\" style=\"max-width:420px;margin-top:22px;\" onsubmit=\"return confirm('Remove WordPress registry entry? Optionally delete core files.');\">\n            <input type=\"hidden\" name=\"domain\" value=\""@
}

#[verifier::rlimit(40)]
#[verifier::spinoff_prover]
fn push_general_part5(out: &mut String, site: &WordpressSite)
    ensures
        final(out)@ == old(out)@ + general_part5(site),
{
    let ghost start = out@;
    push_escaped(out, site.domain.as_str());
    out.append("\">\n            <label><input type=\"checkbox\" name=\"enabled\" value=\"1\"> Enable HTTP basic protection</label>\n            <label>Username<input type=\"text\" name=\"username\" autocomplete=\"off\"></label>\n            <label>Password<input type=\"password\" name=\"password\" autocomplete=\"new-password\"></label>\n            <button type=\"submit\" class=\"btn-secondary\">Apply protection</button>\n          </form>\n          <form method=\"post\" action=\"/wordpress/delete\" class=\"stack-form\" style=\"max-width:420px;margin-top:22px;\" onsubmit=\"return confirm('Remove WordPress registry entry? Optionally delete core files.');\">\n            <input type=\"hidden\" name=\"domain\" value=\"");
    assert(out@ =~= start + general_part5(site));
}

pub open spec fn general_part6(site: &WordpressSite) -> Seq<char> {
    html_escaped(site.domain@) + "\">\n            <label style=\"display:flex;align-items:center;gap:8px;font-weight:600;\">\n              <input type=\"checkbox\" name=\"remove_files\" value=\"1\"> Also delete WordPress files from docroot\n            </label>\n            <button type=\"submit\" class=\"btn-danger\">Delete WordPress</button>\n          </form>\n        </article>"@
}

#[verifier::rlimit(40)]
#[verifier::spinoff_prover]
fn push_general_part6(out: &mut String, site: &WordpressSite)
    ensures
        final(out)@ == old(out)@ + general_part6(site),
{
    let ghost start = out@;
    push_escaped(out, site.domain.as_str());
    out.append("\">\n            <label style=\"display:flex;align-items:center;gap:8px;font-weight:600;\">\n              <input type=\"checkbox\" name=\"remove_files\" value=\"1\"> Also delete WordPress files from docroot\n            </label>\n            <button type=\"submit\" class=\"btn-danger\">Delete WordPress</button>\n          </form>\n        </article>");
    assert(out@ =~= start + general_part6(site));
}

pub open spec fn tab_general_spec(site: &WordpressSite) -> Seq<char> {
    general_part0(site) + general_part1(site) + general_part2(site) + general_part3(site) + general_part4(site) + general_part5(site) + general_part6(site)
}

#[verifier::rlimit(60)]
#[verifier::spinoff_prover]
fn push_tab_general(out: &mut String, site: &WordpressSite)
    ensures
        final(out)@ == old(out)@ + tab_general_spec(site),
{
    let ghost start = out@;
    push_general_part0(out, site);
    push_general_part1(out, site);
    push_general_part2(out, site);
    push_general_part3(out, site);
    push_general_part4(out, site);
    push_general_part5(out, site);
    push_general_part6(out, site);
    assert(out@ =~= start + tab_general_spec(site));
}

/// The Plugins tab: the plugin table and the install form.
pub open spec fn tab_plugins_spec(site: &WordpressSite, plugins: Seq<PluginRow>) -> Seq<char> {
    "<article class=\"section-card\">\n          <h2>Plugins</h2>\n          "@ + plugin_rows_spec(plugins) + "\n          <form method=\"post\" action=\"/wordpress/plugins/install\" class=\"stack-form\" style=\"max-width:480px;margin-top:18px;\">\n            <input type=\"hidden\" name=\"domain\" value=\""@ + html_escaped(site.domain@) + "\">\n            <label>Install plugin (slug, ZIP path, or URL)<input type=\"text\" name=\"source\" required placeholder=\"akismet\"></label>\n            <button type=\"submit\" class=\"btn-primary\">Install and activate</button>\n          </form>\n        </article>"@
}

#[verifier::rlimit(60)]
#[verifier::spinoff_prover]
fn push_tab_plugins(out: &mut String, site: &WordpressSite, plugins: &Vec<PluginRow>)
    ensures
        final(out)@ == old(out)@ + tab_plugins_spec(site, plugins@),
{
    proof {
        reveal_strlit("");
    }
    let ghost start = out@;
    out.append("<article class=\"section-card\">\n          <h2>Plugins</h2>\n          ");
    let rows = plugin_rows(plugins);
    out.append(rows.as_str());
    out.append("\n          <form method=\"post\" action=\"/wordpress/plugins/install\" class=\"stack-form\" style=\"max-width:480px;margin-top:18px;\">\n            <input type=\"hidden\" name=\"domain\" value=\"");
    push_escaped(out, site.domain.as_str());
    out.append("\">\n            <label>Install plugin (slug, ZIP path, or URL)<input type=\"text\" name=\"source\" required placeholder=\"akismet\"></label>\n            <button type=\"submit\" class=\"btn-primary\">Install and activate</button>\n          </form>\n        </article>");
    assert(out@ =~= start + tab_plugins_spec(site, plugins@));
}

/// The Themes tab.
pub open spec fn tab_themes_spec(site: &WordpressSite, themes: Seq<ThemeRow>) -> Seq<char> {
    "<article class=\"section-card\">\n          <h2>Themes</h2>\n          "@ + theme_rows_spec(themes, site.domain@) + "\n        </article>"@
}

fn push_tab_themes(out: &mut String, site: &WordpressSite, themes: &Vec<ThemeRow>)
    ensures
        final(out)@ == old(out)@ + tab_themes_spec(site, themes@),
{
    proof {
        reveal_strlit("");
    }
    let ghost start = out@;
    out.append("<article class=\"section-card\">\n          <h2>Themes</h2>\n          ");
    let rows = theme_rows(themes, site.domain.as_str());
    out.append(rows.as_str());
    out.append("\n        </article>");
    assert(out@ =~= start + tab_themes_spec(site, themes@));
}

/// The Staging tab.
pub open spec fn tab_staging_spec(site: &WordpressSite) -> Seq<char> {
    "<article class=\"section-card\">\n          <h2>Staging</h2>\n          <p class=\"muted\">Staging clones and push workflows are planned. For now use Backups and manual docroot copy under <code>"@ + html_escaped(site.docroot@) + "</code>.</p>\n        </article>"@
}

#[verifier::rlimit(60)]
#[verifier::spinoff_prover]
fn push_tab_staging(out: &mut String, site: &WordpressSite)
    ensures
        final(out)@ == old(out)@ + tab_staging_spec(site),
{
    proof {
        reveal_strlit("");
    }
    let ghost start = out@;
    out.append("<article class=\"section-card\">\n          <h2>Staging</h2>\n          <p class=\"muted\">Staging clones and push workflows are planned. For now use Backups and manual docroot copy under <code>");
    push_escaped(out, site.docroot.as_str());
    out.append("</code>.</p>\n        </article>");
    assert(out@ =~= start + tab_staging_spec(site));
}

/// The Backups tab.
pub open spec fn tab_backups_spec(site: &WordpressSite) -> Seq<char> {
    "<article class=\"section-card\">\n          <h2>Backups</h2>\n          <p class=\"muted\">Use the CPN Backups hub for full-site archives including <code>"@ + html_escaped(site.docroot@) + "</code> and the MariaDB database <code>"@ + dash_or_spec(site.db_name@) + "</code>.</p>\n          <a class=\"btn-secondary\" href=\"/backups/create?domain="@ + html_escaped(site.domain@) + "\">Create backup</a>\n        </article>"@
}

#[verifier::rlimit(60)]
#[verifier::spinoff_prover]
fn push_tab_backups(out: &mut String, site: &WordpressSite)
    ensures
        final(out)@ == old(out)@ + tab_backups_spec(site),
{
    proof {
        reveal_strlit("");
    }
    let ghost start = out@;
    out.append("<article class=\"section-card\">\n          <h2>Backups</h2>\n          <p class=\"muted\">Use the CPN Backups hub for full-site archives including <code>");
    push_escaped(out, site.docroot.as_str());
    out.append("</code> and the MariaDB database <code>");
    push_dash_or(out, site.db_name.as_str());
    out.append("</code>.</p>\n          <a class=\"btn-secondary\" href=\"/backups/create?domain=");
    push_escaped(out, site.domain.as_str());
    out.append("\">Create backup</a>\n        </article>");
    assert(out@ =~= start + tab_backups_spec(site));
}

/// The Database tab (the password is never stored).
pub open spec fn tab_database_spec(site: &WordpressSite) -> Seq<char> {
    "<article class=\"section-card\">\n          <h2>Database</h2>\n          <ul class=\"muted\" style=\"list-style:none;padding:0;margin:12px 0 0;\">\n            <li><strong>Database:</strong> <code>"@ + dash_or_spec(site.db_name@) + "</code></li>\n            <li><strong>User:</strong> <code>"@ + dash_or_spec(site.db_user@) + "</code></li>\n            <li><strong>Password:</strong> - (not stored in CPN registry)</li>\n          </ul>\n          <a class=\"btn-secondary\" href=\"/databases/manager\" style=\"margin-top:14px;display:inline-flex;\">Open MariaDB Manager</a>\n        </article>"@
}

#[verifier::rlimit(60)]
#[verifier::spinoff_prover]
fn push_tab_database(out: &mut String, site: &WordpressSite)
    ensures
        final(out)@ == old(out)@ + tab_database_spec(site),
{
    proof {
        reveal_strlit("");
    }
    let ghost start = out@;
    out.append("<article class=\"section-card\">\n          <h2>Database</h2>\n          <ul class=\"muted\" style=\"list-style:none;padding:0;margin:12px 0 0;\">\n            <li><strong>Database:</strong> <code>");
    push_dash_or(out, site.db_name.as_str());
    out.append("</code></li>\n            <li><strong>User:</strong> <code>");
    push_dash_or(out, site.db_user.as_str());
    out.append("</code></li>\n            <li><strong>Password:</strong> - (not stored in CPN registry)</li>\n          </ul>\n          <a class=\"btn-secondary\" href=\"/databases/manager\" style=\"margin-top:14px;display:inline-flex;\">Open MariaDB Manager</a>\n        </article>");
    assert(out@ =~= start + tab_database_spec(site));
}

/// The tab shown: a known tab id, else `general`.
pub open spec fn wp_active_tab(tab: Seq<char>) -> Seq<char> {
    if tab == "plugins"@ || tab == "themes"@ || tab == "staging"@ || tab == "backups"@ || tab == "database"@ {
        tab
    } else {
        "general"@
    }
}

pub open spec fn wp_body_spec(snapshot: &WordpressSiteSnapshot, active: Seq<char>) -> Seq<char> {
    if active == "plugins"@ {
        tab_plugins_spec(&snapshot.site, snapshot.plugins@)
    } else if active == "themes"@ {
        tab_themes_spec(&snapshot.site, snapshot.themes@)
    } else if active == "staging"@ {
        tab_staging_spec(&snapshot.site)
    } else if active == "backups"@ {
        tab_backups_spec(&snapshot.site)
    } else if active == "database"@ {
        tab_database_spec(&snapshot.site)
    } else {
        tab_general_spec(&snapshot.site)
    }
}

/// The WordPress manage page: heading, notices, the tab bar and the tab shown.
pub open spec fn wordpress_manage_page_spec(
    snapshot: &WordpressSiteSnapshot,
    tab: Seq<char>,
    notice: Option<&str>,
    error: Option<&str>,
) -> Seq<char> {
    let active = wp_active_tab(tab);
    section_heading_spec("WordPress: "@ + snapshot.site.domain@, "Manage plugins, themes, maintenance, and site metadata."@)
        + "\n      "@ + notice_block_spec("ok"@, notice) + "\n      "@ + notice_block_spec("error"@, error) + "\n      "@
        + wp_tab_bar_spec(snapshot.site.domain@, active) + "\n      "@ + wp_body_spec(snapshot, active)
}

#[verifier::rlimit(60)]
#[verifier::spinoff_prover]
pub fn wordpress_manage_page(
    snapshot: &WordpressSiteSnapshot,
    tab: &str,
    notice: Option<&str>,
    error: Option<&str>,
) -> (r: String)
    ensures
        r@ == wordpress_manage_page_spec(snapshot, tab@, notice, error),
{
    proof {
        reveal_strlit("plugins");
        reveal_strlit("themes");
        reveal_strlit("staging");
        reveal_strlit("backups");
        reveal_strlit("database");
        reveal_strlit("general");
    }
    let active: &str = if crate::text::str_eq(tab, "plugins") || crate::text::str_eq(tab, "themes")
        || crate::text::str_eq(tab, "staging") || crate::text::str_eq(tab, "backups") || crate::text::str_eq(
        tab,
        "database",
    ) {
        tab
    } else {
        "general"
    };
    let site = &snapshot.site;
    let mut title = "WordPress: ".to_owned();
    title.append(site.domain.as_str());
    let mut out = crate::panel_sections::section_heading(title.as_str(), "Manage plugins, themes, maintenance, and site metadata.");
    out.append("\n      ");
    let ok = notice_block("ok", notice);
    out.append(ok.as_str());
    out.append("\n      ");
    let err = notice_block("error", error);
    out.append(err.as_str());
    out.append("\n      ");
    let tabs = wp_tab_bar(site.domain.as_str(), active);
    out.append(tabs.as_str());
    out.append("\n      ");
    let ghost before_body = out@;
    if crate::text::str_eq(active, "plugins") {
        push_tab_plugins(&mut out, site, &snapshot.plugins);
    } else if crate::text::str_eq(active, "themes") {
        push_tab_themes(&mut out, site, &snapshot.themes);
    } else if crate::text::str_eq(active, "staging") {
        push_tab_staging(&mut out, site);
    } else if crate::text::str_eq(active, "backups") {
        push_tab_backups(&mut out, site);
    } else if crate::text::str_eq(active, "database") {
        push_tab_database(&mut out, site);
    } else {
        push_tab_general(&mut out, site);
    }
    assert(out@ == before_body + wp_body_spec(snapshot, wp_active_tab(tab@)));
    out
}

/// A form checkbox or flag value: `1`, `true`, `yes` or `on` (trimmed, any ASCII case).
pub open spec fn bool_flag_spec(raw: Seq<char>) -> bool {
    let t = crate::text::to_lower(trim(raw));
    t == "1"@ || t == "true"@ || t == "yes"@ || t == "on"@
}

pub fn parse_bool_flag(raw: &str) -> (r: bool)
    ensures
        r == bool_flag_spec(raw@),
{
    let l = crate::text::lower_str(crate::text::trim_str(raw).as_str());
    let t = l.as_str();
    crate::text::str_eq(t, "1") || crate::text::str_eq(t, "true") || crate::text::str_eq(t, "yes")
        || crate::text::str_eq(t, "on")
}

} // verus!
