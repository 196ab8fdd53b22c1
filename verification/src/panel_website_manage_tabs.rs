//! Manage dashboard tab bodies: Domains, Logs, Config, Files and Plugins. What they show
//! from elsewhere (sibling sites, detected PHP and FTP, vhost and `.htaccess` files) is
//! looked up by the caller and handed in.

use vstd::prelude::*;
use vstd::string::*;
use crate::panel_website_logs::{log_panel_html, log_panel_html_spec};
use crate::panel_website_manage_ui::{section, section_spec, tile, tile_spec};
use crate::site::SiteRecord;
use crate::text::{html_escaped, join_spec, push_escaped, string_views};

verus! {

/// A site registered under this one (a subdomain), as the Domains tab lists it.
pub struct ChildSite {
    pub domain: String,
    pub enabled: bool,
    /// The name of its SSL provider.
    pub ssl_label: String,
}

/// The tiles of the Domains tab.
pub open spec fn domain_tiles_spec(domain: Seq<char>) -> Seq<char> {
    let dq = html_escaped(domain);
    "<div class=\"manage-tile-grid\">"@ + tile_spec("/websites"@, "Add Domains"@, "Create a site or subdomain from Websites"@)
        + tile_spec("/websites"@, "List Domains"@, "Open the Websites registry"@) + tile_spec(
        "/websites/manage?domain="@ + dq + "&tab=alias"@,
        "Domain Alias"@,
        "Add, list, and remove ServerAlias hostnames"@,
    ) + tile_spec(
        "/websites/manage?domain="@ + dq + "&tab=cron"@,
        "Cron Jobs"@,
        "Per-site schedules jailed to the site home"@,
    ) + "</div>"@
}

pub open spec fn child_item(c: ChildSite) -> Seq<char> {
    "<li><a href=\"/websites/manage?domain="@ + html_escaped(c.domain@) + "\">"@ + html_escaped(c.domain@)
        + "</a> · "@ + (if c.enabled { "Active"@ } else { "Suspended"@ }) + " · SSL "@ + html_escaped(c.ssl_label@)
        + "</li>"@
}

pub open spec fn child_items(cs: Seq<ChildSite>) -> Seq<char>
    decreases cs.len(),
{
    if cs.len() == 0 {
        ""@
    } else {
        child_items(cs.drop_last()) + child_item(cs.last())
    }
}

/// An alias as listed: in `<code>`, escaped.
pub open spec fn alias_codes(aliases: Seq<Seq<char>>) -> Seq<Seq<char>> {
    aliases.map_values(|a: Seq<char>| "<code>"@ + html_escaped(a) + "</code>"@)
}

/// What the Domains tab lists: the parent (when the site is a subdomain) or the subdomains,
/// then the aliases with a link to manage them.
pub open spec fn domain_list_spec(site: &SiteRecord, parent: Seq<char>, children: Seq<ChildSite>) -> Seq<char> {
    let dq = html_escaped(site.domain@);
    let head = if parent.len() == 0 {
        if children.len() == 0 {
            "<p class=\"manage-muted\">No subdomains registered under this domain yet.</p>"@
        } else {
            "<ul>"@ + child_items(children) + "</ul>"@
        }
    } else {
        "<p class=\"manage-muted\">Parent domain: <a href=\"/websites/manage?domain="@ + html_escaped(parent)
            + "\">"@ + html_escaped(parent) + "</a></p>"@
    };
    let aliases = string_views(site.aliases@);
    if aliases.len() == 0 {
        head
    } else {
        head + "<p class=\"manage-muted\" style=\"margin-top:12px;\"><strong>Aliases:</strong> "@ + join_spec(
            alias_codes(aliases),
            ", "@,
        ) + " · <a href=\"/websites/manage?domain="@ + dq + "&amp;tab=alias\">Manage</a></p>"@
    }
}

/// The Domains tab.
pub open spec fn tab_domains_spec(site: &SiteRecord, parent: Seq<char>, children: Seq<ChildSite>) -> Seq<char> {
    section_spec("Domains"@, domain_tiles_spec(site.domain@)) + section_spec(
        "Registered under this site"@,
        domain_list_spec(site, parent, children),
    )
}

fn push_tile(out: &mut String, href: &str, title: &str, subtitle: &str)
    ensures
        final(out)@ == old(out)@ + tile_spec(href@, title@, subtitle@),
{
    let t = tile(href, title, subtitle);
    out.append(t.as_str());
}

#[verifier::rlimit(60)]
#[verifier::spinoff_prover]
fn domain_tiles(domain: &str) -> (r: String)
    ensures
        r@ == domain_tiles_spec(domain@),
{
    let mut dq = String::new();
    push_escaped(&mut dq, domain);
    let mut out = "<div class=\"manage-tile-grid\">".to_owned();
    push_tile(&mut out, "/websites", "Add Domains", "Create a site or subdomain from Websites");
    push_tile(&mut out, "/websites", "List Domains", "Open the Websites registry");
    let mut h1 = "/websites/manage?domain=".to_owned();
    h1.append(dq.as_str());
    h1.append("&tab=alias");
    push_tile(&mut out, h1.as_str(), "Domain Alias", "Add, list, and remove ServerAlias hostnames");
    let mut h2 = "/websites/manage?domain=".to_owned();
    h2.append(dq.as_str());
    h2.append("&tab=cron");
    push_tile(&mut out, h2.as_str(), "Cron Jobs", "Per-site schedules jailed to the site home");
    out.append("</div>");
    assert(out@ =~= domain_tiles_spec(domain@));
    out
}

#[verifier::rlimit(60)]
#[verifier::spinoff_prover]
fn domain_list(site: &SiteRecord, parent: &str, children: &Vec<ChildSite>) -> (r: String)
    ensures
        r@ == domain_list_spec(site, parent@, children@),
{
    proof {
        reveal_strlit("");
    }
    let mut out = String::new();
    if parent.is_empty() {
        if children.len() == 0 {
            out.append("<p class=\"manage-muted\">No subdomains registered under this domain yet.</p>");
        } else {
            out.append("<ul>");
            let ghost start = out@;
            let mut i: usize = 0;
            assert(children@.take(0) =~= Seq::<ChildSite>::empty());
            while i < children.len()
                invariant
                    i <= children.len(),
                    out@ == start + child_items(children@.take(i as int)),
                decreases children.len() - i,
            {
                let c = &children[i];
                let ghost before = out@;
                out.append("<li><a href=\"/websites/manage?domain=");
                push_escaped(&mut out, c.domain.as_str());
                out.append("\">");
                push_escaped(&mut out, c.domain.as_str());
                out.append("</a> · ");
                out.append(if c.enabled { "Active" } else { "Suspended" });
                out.append(" · SSL ");
                push_escaped(&mut out, c.ssl_label.as_str());
                out.append("</li>");
                proof {
                    assert(children@.take(i + 1).drop_last() =~= children@.take(i as int));
                    assert(out@ =~= before + child_item(children@[i as int]));
                }
                i += 1;
            }
            assert(children@.take(children.len() as int) =~= children@);
            out.append("</ul>");
        }
    } else {
        out.append("<p class=\"manage-muted\">Parent domain: <a href=\"/websites/manage?domain=");
        push_escaped(&mut out, parent);
        out.append("\">");
        push_escaped(&mut out, parent);
        out.append("</a></p>");
    }
    let ghost head = out@;
    if site.aliases.len() > 0 {
        let mut codes: Vec<String> = Vec::new();
        let mut k: usize = 0;
        while k < site.aliases.len()
            invariant
                k <= site.aliases.len(),
                string_views(codes@) == alias_codes(string_views(site.aliases@)).take(k as int),
            decreases site.aliases.len() - k,
        {
            let mut c = "<code>".to_owned();
            push_escaped(&mut c, site.aliases[k].as_str());
            c.append("</code>");
            let ghost before = codes@;
            codes.push(c);
            proof {
                assert(string_views(codes@) =~= string_views(before).push(codes@[k as int]@));
                assert(alias_codes(string_views(site.aliases@)).take(k + 1) =~= alias_codes(
                    string_views(site.aliases@),
                ).take(k as int).push(alias_codes(string_views(site.aliases@))[k as int]));
            }
            k += 1;
        }
        assert(alias_codes(string_views(site.aliases@)).take(site.aliases.len() as int) =~= alias_codes(
            string_views(site.aliases@),
        ));
        out.append("<p class=\"manage-muted\" style=\"margin-top:12px;\"><strong>Aliases:</strong> ");
        let joined = crate::text::join_strings(&codes, ", ");
        out.append(joined.as_str());
        out.append(" · <a href=\"/websites/manage?domain=");
        push_escaped(&mut out, site.domain.as_str());
        out.append("&amp;tab=alias\">Manage</a></p>");
    }
    assert(out@ =~= domain_list_spec(site, parent@, children@));
    out
}

/// The Domains tab of a site, with its parent site (empty when it has none) and the sites
/// registered under it.
pub fn tab_domains(site: &SiteRecord, parent: &str, children: &Vec<ChildSite>) -> (r: String)
    ensures
        r@ == tab_domains_spec(site, parent@, children@),
{
    let tiles = domain_tiles(site.domain.as_str());
    let list = domain_list(site, parent, children);
    let mut out = section("Domains", tiles.as_str());
    let l = section("Registered under this site", list.as_str());
    out.append(l.as_str());
    out
}

/// The Logs tab: two tiles and the access and error log panels.
pub open spec fn tab_logs_spec(site: &SiteRecord) -> Seq<char> {
    section_spec(
        "Logs"@,
        "<div class=\"manage-tile-grid\">"@ + tile_spec("#access"@, "Access Logs"@, "Tail allowlisted access logs"@)
            + tile_spec("#error"@, "Error Logs"@, "Tail allowlisted error logs"@) + "</div>"@,
    ) + "<div id=\"access\">"@ + log_panel_html_spec(site, "access") + "</div><div id=\"error\">"@
        + log_panel_html_spec(site, "error") + "</div>"@
}

#[verifier::rlimit(60)]
#[verifier::spinoff_prover]
pub fn tab_logs(site: &SiteRecord) -> (r: String)
    ensures
        r@ == tab_logs_spec(site),
{
    let mut tiles = "<div class=\"manage-tile-grid\">".to_owned();
    push_tile(&mut tiles, "#access", "Access Logs", "Tail allowlisted access logs");
    push_tile(&mut tiles, "#error", "Error Logs", "Tail allowlisted error logs");
    tiles.append("</div>");
    let mut out = section("Logs", tiles.as_str());
    out.append("<div id=\"access\">");
    let a = log_panel_html(site, "access");
    out.append(a.as_str());
    out.append("</div><div id=\"error\">");
    let e = log_panel_html(site, "error");
    out.append(e.as_str());
    out.append("</div>");
    out
}

/// The FTP stack as the Files tab shows it.
pub struct FtpInfo {
    pub stack: String,
    pub detail: String,
}

/// The Files tab: file tools and the `open_basedir` hint for the document root.
pub open spec fn tab_files_spec(site: &SiteRecord, ftp: &FtpInfo) -> Seq<char> {
    let dq = html_escaped(site.domain@);
    section_spec(
        "Files"@,
        "<div class=\"manage-tile-grid\">"@ + tile_spec(
            "/server/files"@,
            "File Manager"@,
            "Browse allowlisted paths on this host"@,
        ) + tile_spec(
            "/websites/manage?domain="@ + dq + "&tab=files#basedir"@,
            "open_basedir"@,
            "PHP open_basedir hint for this docroot"@,
        ) + tile_spec("/ftp/create"@, "Create SFTP Acct"@, "Jailed OpenSSH SFTP"@) + tile_spec(
            "/ftp/delete"@,
            "Delete SFTP Acct"@,
            "Remove jailed user"@,
        ) + "</div>"@,
    ) + "<div id=\"basedir\"><h3>open_basedir</h3>\n<p class=\"manage-muted\">Suggested scope for this site: <code>"@
        + html_escaped(site.docroot@)
        + "</code> (and optional tmp). Apply via PHP configs when ready.</p>\n<p class=\"manage-muted\">FTP stack: "@
        + html_escaped(ftp.stack@ + ": "@ + ftp.detail@) + "</p></div>"@
}

#[verifier::rlimit(60)]
#[verifier::spinoff_prover]
pub fn tab_files(site: &SiteRecord, ftp: &FtpInfo) -> (r: String)
    ensures
        r@ == tab_files_spec(site, ftp),
{
    let mut dq = String::new();
    push_escaped(&mut dq, site.domain.as_str());
    let mut tiles = "<div class=\"manage-tile-grid\">".to_owned();
    push_tile(&mut tiles, "/server/files", "File Manager", "Browse allowlisted paths on this host");
    let mut h = "/websites/manage?domain=".to_owned();
    h.append(dq.as_str());
    h.append("&tab=files#basedir");
    push_tile(&mut tiles, h.as_str(), "open_basedir", "PHP open_basedir hint for this docroot");
    push_tile(&mut tiles, "/ftp/create", "Create SFTP Acct", "Jailed OpenSSH SFTP");
    push_tile(&mut tiles, "/ftp/delete", "Delete SFTP Acct", "Remove jailed user");
    tiles.append("</div>");
    let mut out = section("Files", tiles.as_str());
    out.append(
        "<div id=\"basedir\"><h3>open_basedir</h3>\n<p class=\"manage-muted\">Suggested scope for this site: <code>",
    );
    push_escaped(&mut out, site.docroot.as_str());
    out.append("</code> (and optional tmp). Apply via PHP configs when ready.</p>\n<p class=\"manage-muted\">FTP stack: ");
    let mut f = ftp.stack.clone();
    f.append(": ");
    f.append(ftp.detail.as_str());
    push_escaped(&mut out, f.as_str());
    out.append("</p></div>");
    proof {
        assert(h@ =~= "/websites/manage?domain="@ + dq@ + "&tab=files#basedir"@);
        assert(out@ =~= tab_files_spec(site, ftp));
    }
    out
}

/// The Plugins tab: the site's plugins and its backups.
pub open spec fn tab_apps_spec(site: &SiteRecord) -> Seq<char> {
    let dq = html_escaped(site.domain@);
    section_spec(
        "Plugins"@,
        "<div class=\"manage-tile-grid\">"@ + tile_spec(
            "/plugins?domain="@ + dq,
            "Plugins"@,
            "Site plugins, Plugin Store, and host packages for this domain"@,
        ) + tile_spec("/backups?scope=site&domain="@ + dq, "Backups"@, "Selective backups for this site"@)
            + "</div>"@,
    )
}

#[verifier::rlimit(60)]
#[verifier::spinoff_prover]
pub fn tab_apps(site: &SiteRecord) -> (r: String)
    ensures
        r@ == tab_apps_spec(site),
{
    let mut dq = String::new();
    push_escaped(&mut dq, site.domain.as_str());
    let mut tiles = "<div class=\"manage-tile-grid\">".to_owned();
    let mut h1 = "/plugins?domain=".to_owned();
    h1.append(dq.as_str());
    push_tile(&mut tiles, h1.as_str(), "Plugins", "Site plugins, Plugin Store, and host packages for this domain");
    let mut h2 = "/backups?scope=site&domain=".to_owned();
    h2.append(dq.as_str());
    push_tile(&mut tiles, h2.as_str(), "Backups", "Selective backups for this site");
    tiles.append("</div>");
    section("Plugins", tiles.as_str())
}

/// The `.htaccess` of the document root as the Config tab finds it.
pub enum HtaccessState {
    Missing,
    Read { path: String, body: String },
    Unreadable { error: String },
}

/// What the Config tab shows from elsewhere: the detected web stack and PHP, the first
/// readable vhost file (path and text), the `.htaccess`, and the owner suspend-message form.
pub struct ConfigFacts {
    pub stack: String,
    pub php_version: Option<String>,
    pub php_detail: String,
    pub vhost: Option<(String, String)>,
    pub htaccess: HtaccessState,
    pub suspend_message_form: String,
}

/// At most the first 12000 characters of the rewrite rules are shown.
pub open spec fn rewrite_excerpt(body: Seq<char>) -> Seq<char> {
    if body.len() <= 12000 {
        body
    } else {
        body.take(12000)
    }
}

pub open spec fn config_tiles_spec(site: &SiteRecord, facts: &ConfigFacts) -> Seq<char> {
    let dq = html_escaped(site.domain@);
    "<div class=\"manage-tile-grid\">"@ + tile_spec(
        "/server/php/configs"@,
        "Web Server Manager"@,
        "Detected stack: "@ + facts.stack@,
    ) + tile_spec(
        "/websites/manage?domain="@ + dq + "&tab=config#vhost"@,
        "vHost Conf"@,
        "Read-only preview with backup note"@,
    ) + tile_spec(
        "/websites/manage?domain="@ + dq + "&tab=config#rewrite"@,
        "Rewrite Rules"@,
        "Show .htaccess when present"@,
    ) + tile_spec("/server/php/extensions"@, "Change PHP"@, "Installed PHP detection"@) + "</div>"@
}

pub open spec fn php_line_spec(facts: &ConfigFacts) -> Seq<char> {
    let php_version = match facts.php_version {
        Some(v) => v@,
        None => "not detected"@,
    };
    "<p class=\"manage-muted\">PHP: "@ + html_escaped(php_version) + " · "@ + html_escaped(facts.php_detail@) + "</p>"@
}

pub open spec fn vhost_block_spec(facts: &ConfigFacts) -> Seq<char> {
    match facts.vhost {
        Some((path, body)) => "<div id=\"vhost\"><h3>vHost Conf</h3>\n<p class=\"manage-muted\">Read-only from <code>"@
            + html_escaped(path@)
            + "</code>. Edits require admin permission and a backup (write UI ships next).</p>\n<pre class=\"manage-log-pre\">"@
            + html_escaped(body@) + "</pre></div>"@,
        None => "<div id=\"vhost\"><h3>vHost Conf</h3>\n<p class=\"manage-muted\">No vhost file found yet for this domain. Files appear after panel recipes wire the web stack.</p></div>"@,
    }
}

pub open spec fn rewrite_block_spec(facts: &ConfigFacts) -> Seq<char> {
    match facts.htaccess {
        HtaccessState::Read { path, body } => "<div id=\"rewrite\"><h3>Rewrite Rules</h3>\n<p class=\"manage-muted\">From <code>"@
            + html_escaped(path@) + "</code></p>\n<pre class=\"manage-log-pre\">"@ + html_escaped(rewrite_excerpt(body@))
            + "</pre></div>"@,
        HtaccessState::Unreadable { error } => "<div id=\"rewrite\"><h3>Rewrite Rules</h3><p class=\"manage-muted\">"@
            + html_escaped(error@) + "</p></div>"@,
        HtaccessState::Missing => "<div id=\"rewrite\"><h3>Rewrite Rules</h3>\n<p class=\"manage-muted\">No <code>.htaccess</code> in the document root yet.</p></div>"@,
    }
}

pub open spec fn ssh_block_spec(site: &SiteRecord) -> Seq<char> {
    "<div><h3>SSH / SFTP</h3>\n<p class=\"manage-muted\">Connect with the hosting account that owns this site. Document root: <code>"@
        + html_escaped(site.docroot@) + "</code>. Credentials are never shown in the panel.</p></div>"@
}

/// The Config tab: tools, PHP line, vhost preview, rewrite rules, SSH hint and the
/// suspend-message form.
pub open spec fn tab_config_spec(site: &SiteRecord, facts: &ConfigFacts) -> Seq<char> {
    section_spec("Configurations"@, config_tiles_spec(site, facts)) + php_line_spec(facts) + vhost_block_spec(facts)
        + rewrite_block_spec(facts) + ssh_block_spec(site) + facts.suspend_message_form@
}

#[verifier::rlimit(60)]
#[verifier::spinoff_prover]
fn config_tiles(site: &SiteRecord, facts: &ConfigFacts) -> (r: String)
    ensures
        r@ == config_tiles_spec(site, facts),
{
    let mut dq = String::new();
    push_escaped(&mut dq, site.domain.as_str());
    let mut tiles = "<div class=\"manage-tile-grid\">".to_owned();
    let mut stack = "Detected stack: ".to_owned();
    stack.append(facts.stack.as_str());
    push_tile(&mut tiles, "/server/php/configs", "Web Server Manager", stack.as_str());
    let mut h1 = "/websites/manage?domain=".to_owned();
    h1.append(dq.as_str());
    h1.append("&tab=config#vhost");
    push_tile(&mut tiles, h1.as_str(), "vHost Conf", "Read-only preview with backup note");
    let mut h2 = "/websites/manage?domain=".to_owned();
    h2.append(dq.as_str());
    h2.append("&tab=config#rewrite");
    push_tile(&mut tiles, h2.as_str(), "Rewrite Rules", "Show .htaccess when present");
    push_tile(&mut tiles, "/server/php/extensions", "Change PHP", "Installed PHP detection");
    tiles.append("</div>");
    proof {
        assert(stack@ =~= "Detected stack: "@ + facts.stack@);
        assert(h1@ =~= "/websites/manage?domain="@ + dq@ + "&tab=config#vhost"@);
        assert(h2@ =~= "/websites/manage?domain="@ + dq@ + "&tab=config#rewrite"@);
        assert(tiles@ =~= config_tiles_spec(site, facts));
    }
    tiles
}

#[verifier::rlimit(60)]
#[verifier::spinoff_prover]
fn push_php_line(out: &mut String, facts: &ConfigFacts)
    ensures
        final(out)@ == old(out)@ + php_line_spec(facts),
{
    let ghost start = out@;
    out.append("<p class=\"manage-muted\">PHP: ");
    match &facts.php_version {
        Some(v) => push_escaped(out, v.as_str()),
        None => push_escaped(out, "not detected"),
    }
    out.append(" · ");
    push_escaped(out, facts.php_detail.as_str());
    out.append("</p>");
    assert(out@ =~= start + php_line_spec(facts));
}

#[verifier::rlimit(60)]
#[verifier::spinoff_prover]
fn push_vhost_block(out: &mut String, facts: &ConfigFacts)
    ensures
        final(out)@ == old(out)@ + vhost_block_spec(facts),
{
    let ghost start = out@;
    match &facts.vhost {
        Some((path, body)) => {
            out.append("<div id=\"vhost\"><h3>vHost Conf</h3>\n<p class=\"manage-muted\">Read-only from <code>");
            push_escaped(out, path.as_str());
            out.append(
                "</code>. Edits require admin permission and a backup (write UI ships next).</p>\n<pre class=\"manage-log-pre\">",
            );
            push_escaped(out, body.as_str());
            out.append("</pre></div>");
        },
        None => {
            out.append(
                "<div id=\"vhost\"><h3>vHost Conf</h3>\n<p class=\"manage-muted\">No vhost file found yet for this domain. Files appear after panel recipes wire the web stack.</p></div>",
            );
        },
    }
    assert(out@ =~= start + vhost_block_spec(facts));
}

#[verifier::rlimit(60)]
#[verifier::spinoff_prover]
fn push_rewrite_block(out: &mut String, facts: &ConfigFacts)
    ensures
        final(out)@ == old(out)@ + rewrite_block_spec(facts),
{
    let ghost start = out@;
    match &facts.htaccess {
        HtaccessState::Read { path, body } => {
            out.append("<div id=\"rewrite\"><h3>Rewrite Rules</h3>\n<p class=\"manage-muted\">From <code>");
            push_escaped(out, path.as_str());
            out.append("</code></p>\n<pre class=\"manage-log-pre\">");
            let v = crate::text::chars_of(body.as_str());
            let n: usize = if v.len() <= 12000 { v.len() } else { 12000 };
            let ex = crate::text::string_of_range(&v, 0, n);
            proof {
                if v.len() <= 12000 {
                    assert(v@.subrange(0, n as int) =~= v@);
                } else {
                    assert(v@.subrange(0, n as int) =~= v@.take(12000));
                }
            }
            push_escaped(out, ex.as_str());
            out.append("</pre></div>");
        },
        HtaccessState::Unreadable { error } => {
            out.append("<div id=\"rewrite\"><h3>Rewrite Rules</h3><p class=\"manage-muted\">");
            push_escaped(out, error.as_str());
            out.append("</p></div>");
        },
        HtaccessState::Missing => {
            out.append(
                "<div id=\"rewrite\"><h3>Rewrite Rules</h3>\n<p class=\"manage-muted\">No <code>.htaccess</code> in the document root yet.</p></div>",
            );
        },
    }
    assert(out@ =~= start + rewrite_block_spec(facts));
}

#[verifier::rlimit(60)]
#[verifier::spinoff_prover]
pub fn tab_config(site: &SiteRecord, facts: &ConfigFacts) -> (r: String)
    ensures
        r@ == tab_config_spec(site, facts),
{
    let tiles = config_tiles(site, facts);
    let mut out = section("Configurations", tiles.as_str());
    push_php_line(&mut out, facts);
    push_vhost_block(&mut out, facts);
    push_rewrite_block(&mut out, facts);
    let ghost before_ssh = out@;
    out.append(
        "<div><h3>SSH / SFTP</h3>\n<p class=\"manage-muted\">Connect with the hosting account that owns this site. Document root: <code>",
    );
    push_escaped(&mut out, site.docroot.as_str());
    out.append("</code>. Credentials are never shown in the panel.</p></div>");
    assert(out@ =~= before_ssh + ssh_block_spec(site));
    out.append(facts.suspend_message_form.as_str());
    out
}

} // verus!
