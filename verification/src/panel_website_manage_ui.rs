//! Manage dashboard styles and chrome: notices, the banner, quick actions, the tab bar,
//! the SSL card, resource cards, tiles and sections.

use vstd::prelude::*;
use vstd::string::*;
use crate::site::SiteRecord;
use crate::text::{dec, html_escaped, join_spec, push_dec, push_escaped, string_views, trim, trim_str};

verus! {

/// The Manage dashboard style sheet.
pub const MANAGE_STYLES: &'static str = "\n.site-manage { --m-bg:#12141a; --m-card:#1b1e27; --m-ink:#f2f4f7; --m-muted:#98a2b3;\n  --m-accent:#3b82f6; --m-ok:#12b76a; --m-warn:#f79009; --m-line:#2a2f3a; color:var(--m-ink); }\n.site-manage a { color:var(--m-accent); }\n.site-manage .manage-banner {\n  position:relative; overflow:hidden; border-radius:18px; padding:28px 26px 24px;\n  background:linear-gradient(135deg,#1e293b 0%,#0f172a 55%,#1d4ed8 140%);\n  border:1px solid rgba(255,255,255,.08); margin-bottom:14px;\n}\n.site-manage .manage-banner h1 { margin:0; font-size:28px; letter-spacing:-.03em; }\n.site-manage .manage-banner p { margin:8px 0 0; color:rgba(242,244,247,.82); max-width:52ch; }\n.site-manage .manage-badge {\n  display:inline-flex; align-items:center; margin-left:10px; padding:3px 10px;\n  border-radius:999px; font-size:11px; font-weight:800; letter-spacing:.04em;\n  vertical-align:middle;\n}\n.site-manage .manage-badge.active { background:rgba(18,183,106,.18); color:#6ce9a6; }\n.site-manage .manage-badge.suspended { background:rgba(247,144,9,.18); color:#fdb022; }\n.site-manage .manage-badge.ssl-badge { gap:5px; margin-left:8px; }\n.site-manage .manage-badge.ssl-valid { background:rgba(18,183,106,.18); color:#6ce9a6; }\n.site-manage .manage-badge.ssl-expiring { background:rgba(247,144,9,.2); color:#fdb022; }\n.site-manage .manage-badge.ssl-expired,\n.site-manage .manage-badge.ssl-invalid,\n.site-manage .manage-badge.ssl-mismatch { background:rgba(240,68,56,.2); color:#fda29b; }\n.site-manage .manage-badge.ssl-none { background:rgba(152,162,179,.16); color:#98a2b3; }\n.site-manage .ssl-lock { flex-shrink:0; }\n.site-manage .manage-ssl.ssl-valid { border-color:rgba(18,183,106,.35); }\n.site-manage .manage-ssl.ssl-expiring { border-color:rgba(247,144,9,.4); }\n.site-manage .manage-ssl.ssl-expired,\n.site-manage .manage-ssl.ssl-invalid,\n.site-manage .manage-ssl.ssl-mismatch { border-color:rgba(240,68,56,.4); }\n.site-manage .manage-ssl .ssl-meta { margin:6px 0 0; color:var(--m-muted); font-size:13px; line-height:1.45; }\n.site-manage .manage-ssl .ssl-meta strong { display:inline; font-size:inherit; }\n.site-manage .manage-banner-actions { display:flex; flex-wrap:wrap; gap:10px; margin-top:18px; }\n.site-manage .manage-btn {\n  display:inline-flex; align-items:center; gap:8px; min-height:40px; padding:0 14px;\n  border-radius:10px; border:1px solid rgba(255,255,255,.14); background:rgba(255,255,255,.08);\n  color:var(--m-ink); font-weight:700; font-size:13px; text-decoration:none;\n}\n.site-manage .manage-btn.primary { background:var(--m-accent); border-color:transparent; color:#fff; }\n.site-manage .manage-quick {\n  display:flex; flex-wrap:wrap; gap:8px; margin:0 0 14px;\n}\n.site-manage .manage-quick a, .site-manage .manage-quick span {\n  display:inline-flex; align-items:center; gap:6px; min-height:36px; padding:0 12px;\n  border-radius:10px; border:1px solid var(--m-line); background:var(--m-card);\n  color:var(--m-ink); font-size:12px; font-weight:600; text-decoration:none;\n}\n.site-manage .manage-quick .scaffold { opacity:.72; cursor:default; }\n.site-manage .manage-tabs {\n  display:flex; flex-wrap:nowrap; gap:4px; border-bottom:1px solid var(--m-line);\n  margin:0 0 18px; padding:0 0 2px; overflow-x:auto; -webkit-overflow-scrolling:touch;\n  overscroll-behavior-x:contain; scrollbar-width:thin;\n}\n.site-manage .manage-tabs a {\n  display:inline-flex; align-items:center; flex:0 0 auto; min-height:40px; padding:0 14px;\n  color:var(--m-muted); text-decoration:none; font-weight:700; font-size:13px;\n  border-bottom:2px solid transparent; margin-bottom:-1px; white-space:nowrap;\n}\n.site-manage .manage-tabs a.active { color:var(--m-ink); border-bottom-color:var(--m-accent); }\n.site-manage .manage-card-grid {\n  display:grid; grid-template-columns:repeat(auto-fill,minmax(180px,1fr)); gap:12px; margin-bottom:14px;\n}\n.site-manage .manage-stat {\n  background:var(--m-card); border:1px solid var(--m-line); border-radius:14px; padding:14px 14px 12px;\n}\n.site-manage .manage-stat span { display:block; color:var(--m-muted); font-size:12px; font-weight:600; }\n.site-manage .manage-stat strong { display:block; margin-top:6px; font-size:20px; letter-spacing:-.02em; }\n.site-manage .manage-stat .bar {\n  margin-top:10px; height:6px; border-radius:999px; background:#2a2f3a; overflow:hidden;\n}\n.site-manage .manage-stat .bar > i { display:block; height:100%; background:var(--m-accent); border-radius:999px; }\n.site-manage .manage-ssl {\n  display:flex; flex-wrap:wrap; align-items:center; gap:12px; justify-content:space-between;\n  background:var(--m-card); border:1px solid var(--m-line); border-radius:14px; padding:16px;\n  margin-bottom:14px;\n}\n.site-manage .manage-ssl strong { display:block; font-size:15px; }\n.site-manage .manage-ssl p { margin:4px 0 0; color:var(--m-muted); font-size:13px; }\n.site-manage .manage-charts {\n  display:grid; grid-template-columns:repeat(auto-fit,minmax(260px,1fr)); gap:12px;\n}\n.site-manage .manage-chart {\n  background:var(--m-card); border:1px solid var(--m-line); border-radius:14px; padding:14px;\n  text-align:left; color:inherit; width:100%;\n}\n.site-manage .manage-chart-head {\n  display:flex; align-items:center; justify-content:space-between; gap:10px; margin-bottom:4px;\n}\n.site-manage .manage-chart-head h3 { margin:0; }\n.site-manage .manage-chart-details {\n  flex:0 0 auto; min-height:28px; padding:0 10px; border-radius:999px; border:1px solid var(--m-line);\n  background:#12151c; color:var(--m-ink); font:inherit; font-size:12px; font-weight:700; cursor:pointer;\n}\n.site-manage .manage-chart-details:hover, .site-manage .manage-chart-details:focus-visible {\n  border-color:var(--m-accent); outline:none;\n}\n.site-manage .manage-chart h3 { margin:0 0 4px; font-size:13px; letter-spacing:.04em; text-transform:uppercase; color:var(--m-muted); }\n.site-manage .manage-chart p, .site-manage .manage-chart-summary { margin:0 0 10px; color:var(--m-muted); font-size:12px; line-height:1.4; }\n.site-manage .manage-chart svg, .site-manage .manage-metric-svg { width:100%; height:120px; display:block; }\n.site-manage .manage-chart-svg { position:relative; }\n.site-manage .manage-metric-svg .metric-hit { cursor:pointer; }\n.site-manage .manage-metric-svg .metric-dot.is-selected {\n  stroke:#fff; stroke-width:2;\n}\n.site-manage .manage-chart-readout {\n  margin-top:8px; min-height:36px; display:flex; align-items:center; gap:10px;\n  padding:8px 12px; border-radius:10px; background:#0b0d12; border:1px solid var(--m-line);\n  color:#f5f7fb; font-size:14px; font-weight:600; letter-spacing:.01em;\n}\n.site-manage .manage-chart-readout.is-active { border-color:var(--m-accent); }\n.site-manage .manage-chart-readout-hint { color:var(--m-muted); font-weight:500; font-size:12px; }\n.site-manage .manage-chart-readout-value { font-variant-numeric:tabular-nums; }\n.site-manage .manage-chart-readout-dialog { margin:0 0 12px; }\n.site-manage .manage-stat-hint {\n  display:block; margin-top:6px; font-style:normal; color:var(--m-muted); font-size:11px; line-height:1.35;\n}\n.site-manage .manage-metric-dialog {\n  border:1px solid var(--m-line); border-radius:16px; padding:0; max-width:min(920px,96vw);\n  width:100%; background:var(--m-card); color:var(--m-ink);\n}\n.site-manage .manage-metric-dialog::backdrop { background:rgba(0,0,0,.55); }\n.site-manage .manage-metric-dialog-inner { margin:0; padding:16px; }\n.site-manage .manage-metric-dialog-inner header {\n  display:flex; align-items:center; justify-content:space-between; gap:12px; margin-bottom:8px;\n}\n.site-manage .manage-metric-dialog-inner h2 { margin:0; font-size:18px; }\n.site-manage .manage-metric-dialog-inner svg { width:100%; height:220px; display:block; margin:8px 0 12px; }\n.site-manage .manage-metric-stats {\n  list-style:none; margin:0; padding:0; display:grid; grid-template-columns:repeat(auto-fit,minmax(120px,1fr)); gap:8px;\n}\n.site-manage .manage-metric-stats li {\n  background:#0b0d12; border:1px solid var(--m-line); border-radius:10px; padding:10px 12px; font-size:13px;\n}\n.site-manage .manage-section-title {\n  margin:22px 0 10px; font-size:12px; font-weight:800; letter-spacing:.08em;\n  text-transform:uppercase; color:var(--m-muted); border-left:3px solid var(--m-accent); padding-left:10px;\n}\n.site-manage .manage-tile-grid {\n  display:grid; grid-template-columns:repeat(auto-fill,minmax(min(100%,200px),1fr)); gap:12px;\n}\n.site-manage .manage-tile {\n  display:flex; align-items:center; gap:12px; min-height:78px; padding:14px;\n  border-radius:14px; background:var(--m-card); border:1px solid var(--m-line);\n  color:inherit; text-decoration:none;\n}\n.site-manage .manage-tile:hover { border-color:#3b82f6; }\n/* Size/centering for .manage-tile-icon comes from panel_icons::icon_tone_styles */\n.site-manage .manage-tile strong { display:block; font-size:14px; }\n.site-manage .manage-tile span { display:block; color:var(--m-muted); font-size:12px; margin-top:2px; }\n.site-manage .manage-muted { color:var(--m-muted); font-size:13px; }\n.site-manage .manage-log-pre {\n  max-height:360px; overflow:auto; background:#0b0d12; border:1px solid var(--m-line);\n  border-radius:12px; padding:12px; font-size:12px; line-height:1.45; white-space:pre-wrap;\n}\n.site-manage .manage-log-panel { margin-bottom:16px; }\n.site-manage .manage-log-panel h3 { margin:0 0 6px; font-size:16px; }\n.site-manage code { background:#0b0d12; padding:1px 6px; border-radius:6px; font-size:12px; }\n.site-manage .manage-actions-row { display:flex; flex-wrap:wrap; gap:8px; margin:12px 0; }\n.site-manage .btn-danger, .site-manage .btn-warn, .site-manage .btn-primary {\n  min-height:36px; padding:0 12px; border-radius:999px; border:0; font-weight:700; cursor:pointer;\n}\n.site-manage .btn-primary { background:var(--m-accent); color:#fff; }\n.site-manage .btn-warn { background:#3a2a12; color:#fdb022; }\n.site-manage .btn-danger { background:#3f1d22; color:#fda29b; }\n.site-manage .inline-form { display:inline; }\n@media (max-width:720px) {\n  .site-manage .manage-banner { padding:20px 16px 18px; }\n  .site-manage .manage-banner h1 { font-size:22px; }\n  .site-manage .manage-tile-grid,\n  .site-manage .manage-card-grid { grid-template-columns:1fr; }\n  .site-manage .manage-charts { grid-template-columns:1fr; }\n}\n";

pub fn manage_styles() -> (r: &'static str)
    ensures
        r@ == MANAGE_STYLES@,
{
    MANAGE_STYLES
}

/// `html_escape`: `&`, `<`, `>` and `"` as entities.
pub fn html_escape(value: &str) -> (r: String)
    ensures
        r@ == html_escaped(value@),
{
    crate::text::escape_html(value)
}

/// A status line for a notice or an error; nothing when there is no message or it is empty.
pub open spec fn notice_block_spec(kind: Seq<char>, message: Option<&str>) -> Seq<char> {
    let class = if kind == "error"@ { "panel-notice error"@ } else { "panel-notice ok"@ };
    if message is None || message.unwrap()@.len() == 0 {
        ""@
    } else {
        "<p class=\""@ + class + "\" role=\"status\">"@ + html_escaped(message.unwrap()@) + "</p>"@
    }
}

#[verifier::rlimit(60)]
#[verifier::spinoff_prover]
pub fn notice_block(kind: &str, message: Option<&str>) -> (r: String)
    ensures
        r@ == notice_block_spec(kind@, message),
{
    proof {
        reveal_strlit("");
    }
    let m = match message {
        Some(m) => m,
        None => return String::new(),
    };
    if m.is_empty() {
        return String::new();
    }
    let class = if crate::text::str_eq(kind, "error") { "panel-notice error" } else { "panel-notice ok" };
    let mut out = "<p class=\"".to_owned();
    out.append(class);
    out.append("\" role=\"status\">");
    push_escaped(&mut out, m);
    out.append("</p>");
    proof {
        assert(out@ =~= notice_block_spec(kind@, message));
    }
    out
}

/// The PHP badge of the banner: the site's PHP branch (trimmed) when it has a non-blank one.
pub open spec fn php_badge_spec(site: &SiteRecord) -> Seq<char> {
    if site.php_version is Some && trim(site.php_version.unwrap()@).len() > 0 {
        "<span class=\"manage-badge\" style=\"background:rgba(59,130,246,.18);color:#93c5fd;\">PHP "@ + html_escaped(trim(site.php_version.unwrap()@)) + "</span>"@
    } else {
        ""@
    }
}

fn php_badge(site: &SiteRecord) -> (r: String)
    ensures
        r@ == php_badge_spec(site),
{
    proof {
        reveal_strlit("");
    }
    match &site.php_version {
        Some(v) => {
            let t = trim_str(v.as_str());
            if t.as_str().is_empty() {
                return String::new();
            }
            let mut out = "<span class=\"manage-badge\" style=\"background:rgba(59,130,246,.18);color:#93c5fd;\">PHP ".to_owned();
            push_escaped(&mut out, t.as_str());
            out.append("</span>");
            proof {
                assert(out@ =~= php_badge_spec(site));
            }
            out
        },
        None => String::new(),
    }
}

/// What the banner shows that comes from elsewhere: the preview link (`#` when there is
/// none), the design controls, and the SSL badge markup.
pub struct ManageChrome {
    pub preview_url: String,
    pub design_controls: String,
    pub ssl_badge: String,
}

/// The banner: domain with Active/Suspended, PHP and SSL badges, the preview and File
/// Manager links, and the design controls.
pub open spec fn manage_banner_spec(site: &SiteRecord, chrome: &ManageChrome) -> Seq<char> {
    let status = if site.enabled { "Active"@ } else { "Suspended"@ };
    let badge = if site.enabled { "active"@ } else { "suspended"@ };
    "<div class=\"manage-banner\">\n  <h1>"@ + html_escaped(site.domain@) + "<span class=\"manage-badge "@ + badge + "\">"@ + status + "</span>"@ + php_badge_spec(site) + chrome.ssl_badge@ + "</h1>\n  <p>Manage your website with powerful tools and real-time monitoring.</p>\n  <div class=\"manage-banner-actions\">\n    <a class=\"manage-btn primary\" href=\""@ + html_escaped(chrome.preview_url@) + "\">Preview Website</a>\n    <a class=\"manage-btn\" href=\"/websites/manage?domain="@ + html_escaped(site.domain@) + "&amp;tab=files\">File Manager</a>\n    "@ + chrome.design_controls@ + "\n  </div>\n</div>"@
}

#[verifier::rlimit(60)]
#[verifier::spinoff_prover]
pub fn manage_banner(site: &SiteRecord, chrome: &ManageChrome) -> (r: String)
    ensures
        r@ == manage_banner_spec(site, chrome),
{
    let status = if site.enabled { "Active" } else { "Suspended" };
    let badge = if site.enabled { "active" } else { "suspended" };
    let mut out = "<div class=\"manage-banner\">\n  <h1>".to_owned();
    push_escaped(&mut out, site.domain.as_str());
    out.append("<span class=\"manage-badge ");
    out.append(badge);
    out.append("\">");
    out.append(status);
    out.append("</span>");
    let php = php_badge(site);
    out.append(php.as_str());
    out.append(chrome.ssl_badge.as_str());
    out.append("</h1>\n  <p>Manage your website with powerful tools and real-time monitoring.</p>\n  <div class=\"manage-banner-actions\">\n    <a class=\"manage-btn primary\" href=\"");
    push_escaped(&mut out, chrome.preview_url.as_str());
    out.append("\">Preview Website</a>\n    <a class=\"manage-btn\" href=\"/websites/manage?domain=");
    push_escaped(&mut out, site.domain.as_str());
    out.append("&amp;tab=files\">File Manager</a>\n    ");
    out.append(chrome.design_controls.as_str());
    out.append("\n  </div>\n</div>");
    proof {
        assert(out@ =~= manage_banner_spec(site, chrome));
    }
    out
}

/// Quick actions: terminal, Git, clone, SSH/SFTP hint, cron, and the site home.
pub open spec fn quick_actions_spec(site: &SiteRecord) -> Seq<char> {
    "<div class=\"manage-quick\" aria-label=\"Quick actions\">\n  <a href=\"/websites/manage?domain="@ + html_escaped(site.domain@) + "&amp;tab=terminal\" title=\"Web terminal in site home\">Open Terminal</a>\n  <a href=\"/websites/manage?domain="@ + html_escaped(site.domain@) + "&amp;tab=git\" title=\"Git status, pull, commit, push\">Manage Git</a>\n  <a href=\"/websites/manage?domain="@ + html_escaped(site.domain@) + "&amp;tab=clone\" title=\"Clone files to staging or new site\">Clone/Staging</a>\n  <a href=\"/websites/manage?domain="@ + html_escaped(site.domain@) + "&amp;tab=config\" title=\""@ + html_escaped("SSH/SFTP: use the site owner account. Docroot: "@ + site.docroot@) + "\">SSH/SFTP Access</a>\n  <a href=\"/websites/manage?domain="@ + html_escaped(site.domain@) + "&amp;tab=domains\">Cron Jobs</a>\n  <span class=\"scaffold\" title=\"Stress test ships later\">Stress Test</span>\n  <span class=\"manage-muted\" style=\"align-self:center;margin-left:4px;\">Home: <code>"@ + html_escaped(site.home@) + "</code></span>\n</div>"@
}

#[verifier::rlimit(60)]
#[verifier::spinoff_prover]
pub fn quick_actions(site: &SiteRecord) -> (r: String)
    ensures
        r@ == quick_actions_spec(site),
{
    let mut out = "<div class=\"manage-quick\" aria-label=\"Quick actions\">\n  <a href=\"/websites/manage?domain=".to_owned();
    push_escaped(&mut out, site.domain.as_str());
    out.append("&amp;tab=terminal\" title=\"Web terminal in site home\">Open Terminal</a>\n  <a href=\"/websites/manage?domain=");
    push_escaped(&mut out, site.domain.as_str());
    out.append("&amp;tab=git\" title=\"Git status, pull, commit, push\">Manage Git</a>\n  <a href=\"/websites/manage?domain=");
    push_escaped(&mut out, site.domain.as_str());
    out.append("&amp;tab=clone\" title=\"Clone files to staging or new site\">Clone/Staging</a>\n  <a href=\"/websites/manage?domain=");
    push_escaped(&mut out, site.domain.as_str());
    out.append("&amp;tab=config\" title=\"");
    let mut hint = "SSH/SFTP: use the site owner account. Docroot: ".to_owned();
    hint.append(site.docroot.as_str());
    push_escaped(&mut out, hint.as_str());
    out.append("\">SSH/SFTP Access</a>\n  <a href=\"/websites/manage?domain=");
    push_escaped(&mut out, site.domain.as_str());
    out.append("&amp;tab=domains\">Cron Jobs</a>\n  <span class=\"scaffold\" title=\"Stress test ships later\">Stress Test</span>\n  <span class=\"manage-muted\" style=\"align-self:center;margin-left:4px;\">Home: <code>");
    push_escaped(&mut out, site.home.as_str());
    out.append("</code></span>\n</div>");
    proof {
        assert(out@ =~= quick_actions_spec(site));
    }
    out
}

/// The Manage tabs, as `(id, label)`.
pub open spec fn manage_tabs() -> Seq<(Seq<char>, Seq<char>)> {
    seq![
        ("overview"@, "Overview"@),
        ("domains"@, "Domains"@),
        ("logs"@, "Logs"@),
        ("config"@, "Config"@),
        ("ssl"@, "SSL"@),
        ("files"@, "Files"@),
        ("plugins"@, "Plugins"@),
        ("terminal"@, "Terminal"@),
        ("git"@, "Git"@),
        ("clone"@, "Clone"@),
    ]
}

/// The tab an `active` value marks: the aliases of Plugins, Terminal and Clone map to them.
pub open spec fn active_norm(active: Seq<char>) -> Seq<char> {
    if active == "apps"@ || active == "applications"@ || active == "plugin"@ {
        "plugins"@
    } else if active == "term"@ || active == "shell"@ {
        "terminal"@
    } else if active == "staging"@ {
        "clone"@
    } else {
        active
    }
}

pub open spec fn tab_link_spec(domain: Seq<char>, id: Seq<char>, label: Seq<char>, active: Seq<char>) -> Seq<char> {
    "<a href=\"/websites/manage?domain="@ + html_escaped(domain) + "&amp;tab="@ + id + "\""@
        + (if id == active_norm(active) { " class=\"active\""@ } else { ""@ }) + ">"@ + label + "</a>"@
}

pub open spec fn tab_links_spec(tabs: Seq<(Seq<char>, Seq<char>)>, domain: Seq<char>, active: Seq<char>) -> Seq<char>
    decreases tabs.len(),
{
    if tabs.len() == 0 {
        ""@
    } else {
        tab_links_spec(tabs.drop_last(), domain, active) + tab_link_spec(domain, tabs.last().0, tabs.last().1, active)
    }
}

/// The tab bar, the active tab marked.
pub open spec fn tab_bar_spec(domain: Seq<char>, active: Seq<char>) -> Seq<char> {
    "<nav class=\"manage-tabs\" aria-label=\"Website sections\">"@ + tab_links_spec(manage_tabs(), domain, active) + "</nav>"@
}

#[verifier::rlimit(60)]
#[verifier::spinoff_prover]
pub fn tab_bar(domain: &str, active: &str) -> (r: String)
    ensures
        r@ == tab_bar_spec(domain@, active@),
{
    proof {
        reveal_strlit("");
        reveal_strlit("apps");
        reveal_strlit("applications");
        reveal_strlit("plugin");
        reveal_strlit("term");
        reveal_strlit("shell");
        reveal_strlit("staging");
    }
    let norm: &str = if crate::text::str_eq(active, "apps") || crate::text::str_eq(active, "applications")
        || crate::text::str_eq(active, "plugin") {
        "plugins"
    } else if crate::text::str_eq(active, "term") || crate::text::str_eq(active, "shell") {
        "terminal"
    } else if crate::text::str_eq(active, "staging") {
        "clone"
    } else {
        active
    };
    assert(norm@ == active_norm(active@));
    let ids: Vec<&str> = vec!["overview", "domains", "logs", "config", "ssl", "files", "plugins", "terminal", "git", "clone"];
    let labels: Vec<&str> = vec!["Overview", "Domains", "Logs", "Config", "SSL", "Files", "Plugins", "Terminal", "Git", "Clone"];
    let ghost tabs = manage_tabs();
    assert(ids@.len() == 10 && labels@.len() == 10);
    assert forall|k: int| 0 <= k < 10 implies ids@[k]@ == tabs[k].0 && labels@[k]@ == tabs[k].1 by {
    }
    let mut out = "<nav class=\"manage-tabs\" aria-label=\"Website sections\">".to_owned();
    let ghost head = out@;
    let mut i: usize = 0;
    assert(tabs.take(0) =~= Seq::<(Seq<char>, Seq<char>)>::empty());
    while i < 10
        invariant
            i <= 10,
            ids@.len() == 10,
            labels@.len() == 10,
            tabs == manage_tabs(),
            norm@ == active_norm(active@),
            forall|k: int| 0 <= k < 10 ==> ids@[k]@ == tabs[k].0 && labels@[k]@ == tabs[k].1,
            out@ == head + tab_links_spec(tabs.take(i as int), domain@, active@),
        decreases 10 - i,
    {
        let id = ids[i];
        let label = labels[i];
        let ghost before = out@;
        out.append("<a href=\"/websites/manage?domain=");
        push_escaped(&mut out, domain);
        out.append("&amp;tab=");
        out.append(id);
        out.append("\"");
        if crate::text::str_eq(id, norm) {
            out.append(" class=\"active\"");
        } else {
            out.append("");
        }
        out.append(">");
        out.append(label);
        out.append("</a>");
        proof {
            assert(tabs.take(i + 1).drop_last() =~= tabs.take(i as int));
            assert(tabs.take(i + 1).last() == tabs[i as int]);
            assert(out@ =~= before + tab_link_spec(domain@, id@, label@, active@));
        }
        i += 1;
    }
    out.append("</nav>");
    assert(tabs.take(10) =~= tabs);
    out
}

/// A resource card: label, value, and a bar filled to `pct` (at most 100) when given.
pub open spec fn resource_card_spec(label: Seq<char>, value: Seq<char>, pct: Option<u8>) -> Seq<char> {
    let bar = match pct {
        Some(p) => "<div class=\"bar\" aria-hidden=\"true\"><i style=\"width:"@ + dec((if p <= 100 { p } else { 100 }) as nat) + "%\"></i></div>"@,
        None => ""@,
    };
    "<div class=\"manage-stat\"><span>"@ + html_escaped(label) + "</span><strong>"@ + html_escaped(value) + "</strong>"@ + bar + "</div>"@
}

#[verifier::rlimit(60)]
#[verifier::spinoff_prover]
pub fn resource_card(label: &str, value: &str, pct: Option<u8>) -> (r: String)
    ensures
        r@ == resource_card_spec(label@, value@, pct),
{
    proof {
        reveal_strlit("");
    }
    let mut out = "<div class=\"manage-stat\"><span>".to_owned();
    push_escaped(&mut out, label);
    out.append("</span><strong>");
    push_escaped(&mut out, value);
    out.append("</strong>");
    match pct {
        Some(p) => {
            out.append("<div class=\"bar\" aria-hidden=\"true\"><i style=\"width:");
            let q: u8 = if p <= 100 { p } else { 100 };
            push_dec(&mut out, q as u64);
            out.append("%\"></i></div>");
        },
        None => {},
    }
    out.append("</div>");
    proof {
        assert(out@ =~= resource_card_spec(label@, value@, pct));
    }
    out
}

/// A tile linking to a tool: its title and subtitle (the icon slot is left empty).
pub open spec fn tile_spec(href: Seq<char>, title: Seq<char>, subtitle: Seq<char>) -> Seq<char> {
    "<a class=\"manage-tile\" href=\""@ + html_escaped(href) + "\">\n  "@ + ""@ + "\n  <span><strong>"@ + html_escaped(title) + "</strong><span>"@ + html_escaped(subtitle) + "</span></span>\n</a>"@
}

#[verifier::rlimit(60)]
#[verifier::spinoff_prover]
pub fn tile(href: &str, title: &str, subtitle: &str) -> (r: String)
    ensures
        r@ == tile_spec(href@, title@, subtitle@),
{
    proof {
        reveal_strlit("");
    }
    let mut out = "<a class=\"manage-tile\" href=\"".to_owned();
    push_escaped(&mut out, href);
    out.append("\">\n  ");
    out.append("");
    out.append("\n  <span><strong>");
    push_escaped(&mut out, title);
    out.append("</strong><span>");
    push_escaped(&mut out, subtitle);
    out.append("</span></span>\n</a>");
    proof {
        assert(out@ =~= tile_spec(href@, title@, subtitle@));
    }
    out
}

/// A titled section of a tab.
pub open spec fn section_spec(title: Seq<char>, body: Seq<char>) -> Seq<char> {
    "<h2 class=\"manage-section-title\">"@ + html_escaped(title) + "</h2>"@ + body
}

pub fn section(title: &str, body: &str) -> (r: String)
    ensures
        r@ == section_spec(title@, body@),
{
    let mut out = "<h2 class=\"manage-section-title\">".to_owned();
    push_escaped(&mut out, title);
    out.append("</h2>");
    out.append(body);
    proof {
        assert(out@ =~= section_spec(title@, body@));
    }
    out
}




/// What the SSL card shows of a domain's certificate and where the site is live.
pub struct SslInsight {
    /// `valid`, `expiring`, `expired`, `invalid`, `mismatch` or `none`.
    pub kind: String,
    /// How the state is named in a sentence (`Valid certificate`, …).
    pub kind_label: String,
    pub expires_display: Option<String>,
    pub issuer: String,
    pub sans: Vec<String>,
    pub detail: String,
    /// The status badge markup.
    pub badge: String,
    /// The site's SSL provider, as named to the user.
    pub provider_label: String,
    /// The public URL of the site.
    pub live_url: String,
}

/// The SSL card: badge, headline, provider, expiry, issuer, the first four SANs, detail,
/// and actions (Manage SSL when there is no certificate, else Renew and Visit).
pub open spec fn ssl_status_card_spec(site: &SiteRecord, insight: &SslInsight) -> Seq<char> {
    let expires = match insight.expires_display {
        Some(d) => "Expires: <strong>"@ + html_escaped(d@) + "</strong>"@,
        None => "Expires: <strong>n/a</strong>"@,
    };
    let issuer = if insight.issuer@.len() == 0 {
        ""@
    } else {
        " · Issuer: <strong>"@ + html_escaped(insight.issuer@) + "</strong>"@
    };
    let sv = string_views(insight.sans@);
    let sans = if sv.len() == 0 {
        ""@
    } else {
        " · SANs: <strong>"@ + html_escaped(join_spec(sv.take(if sv.len() < 4 { sv.len() as int } else { 4 }), ", "@)) + "</strong>"@
    };
    let headline = if insight.kind@ == "none"@ {
        "No SSL certificate detected for "@ + html_escaped(site.domain@) + "."@
    } else {
        html_escaped(insight.kind_label@) + " for "@ + html_escaped(site.domain@) + "."@
    };
    let actions = if insight.kind@ == "none"@ {
        "<a class=\"manage-btn primary\" href=\"/websites/manage?domain="@ + html_escaped(site.domain@) + "&amp;tab=ssl\">Manage SSL</a>"@
    } else {
        "<div class=\"manage-actions-row\">\n    <a class=\"manage-btn primary\" href=\"/websites/manage?domain="@ + html_escaped(site.domain@) + "&amp;tab=ssl\">Renew / Manage SSL</a>\n    <a class=\"manage-btn\" href=\""@ + html_escaped(insight.live_url@) + "\" target=\"_blank\" rel=\"noopener noreferrer\">Visit live site</a>\n  </div>"@
    };
    "<div class=\"manage-ssl ssl-"@ + insight.kind@ + "\">\n  <div>\n    "@ + insight.badge@ + "\n    <strong style=\"margin-top:8px;\">"@ + headline + "</strong>\n    <p class=\"ssl-meta\">Provider: <strong>"@ + html_escaped(insight.provider_label@) + "</strong>. "@ + expires + issuer + sans + "</p>\n    <p>"@ + html_escaped(insight.detail@) + "</p>\n  </div>\n  "@ + actions + "\n</div>"@
}

#[verifier::rlimit(60)]
#[verifier::spinoff_prover]
pub fn ssl_status_card(site: &SiteRecord, insight: &SslInsight) -> (r: String)
    ensures
        r@ == ssl_status_card_spec(site, insight),
{
    proof {
        reveal_strlit("");
        reveal_strlit("none");
    }
    let expires = match &insight.expires_display {
        Some(d) => {
            let mut e = "Expires: <strong>".to_owned();
            push_escaped(&mut e, d.as_str());
            e.append("</strong>");
            e
        },
        None => "Expires: <strong>n/a</strong>".to_owned(),
    };
    let issuer = if insight.issuer.as_str().is_empty() {
        String::new()
    } else {
        let mut e = " · Issuer: <strong>".to_owned();
        push_escaped(&mut e, insight.issuer.as_str());
        e.append("</strong>");
        e
    };
    let sans = if insight.sans.len() == 0 {
        String::new()
    } else {
        let n: usize = if insight.sans.len() < 4 { insight.sans.len() } else { 4 };
        let mut first: Vec<String> = Vec::new();
        let mut k: usize = 0;
        while k < n
            invariant
                k <= n <= insight.sans.len(),
                string_views(first@) == string_views(insight.sans@).take(k as int),
            decreases n - k,
        {
            let ghost before = first@;
            first.push(insight.sans[k].clone());
            proof {
                assert(string_views(first@) =~= string_views(before).push(insight.sans@[k as int]@));
                assert(string_views(insight.sans@).take(k + 1) =~= string_views(insight.sans@).take(k as int).push(
                    insight.sans@[k as int]@,
                ));
            }
            k += 1;
        }
        let joined = crate::text::join_strings(&first, ", ");
        let mut e = " · SANs: <strong>".to_owned();
        push_escaped(&mut e, joined.as_str());
        e.append("</strong>");
        e
    };
    let is_none = crate::text::str_eq(insight.kind.as_str(), "none");
    let headline = if is_none {
        let mut h = "No SSL certificate detected for ".to_owned();
        push_escaped(&mut h, site.domain.as_str());
        h.append(".");
        h
    } else {
        let mut h = String::new();
        push_escaped(&mut h, insight.kind_label.as_str());
        h.append(" for ");
        push_escaped(&mut h, site.domain.as_str());
        h.append(".");
        h
    };
    let actions = if is_none {
        let mut out = "<a class=\"manage-btn primary\" href=\"/websites/manage?domain=".to_owned();
        push_escaped(&mut out, site.domain.as_str());
        out.append("&amp;tab=ssl\">Manage SSL</a>");
        out
    } else {
        let mut out = "<div class=\"manage-actions-row\">\n    <a class=\"manage-btn primary\" href=\"/websites/manage?domain=".to_owned();
        push_escaped(&mut out, site.domain.as_str());
        out.append("&amp;tab=ssl\">Renew / Manage SSL</a>\n    <a class=\"manage-btn\" href=\"");
        push_escaped(&mut out, insight.live_url.as_str());
        out.append("\" target=\"_blank\" rel=\"noopener noreferrer\">Visit live site</a>\n  </div>");
        out
    };
    let mut out = "<div class=\"manage-ssl ssl-".to_owned();
    out.append(insight.kind.as_str());
    out.append("\">\n  <div>\n    ");
    out.append(insight.badge.as_str());
    out.append("\n    <strong style=\"margin-top:8px;\">");
    out.append(headline.as_str());
    out.append("</strong>\n    <p class=\"ssl-meta\">Provider: <strong>");
    push_escaped(&mut out, insight.provider_label.as_str());
    out.append("</strong>. ");
    out.append(expires.as_str());
    out.append(issuer.as_str());
    out.append(sans.as_str());
    out.append("</p>\n    <p>");
    push_escaped(&mut out, insight.detail.as_str());
    out.append("</p>\n  </div>\n  ");
    out.append(actions.as_str());
    out.append("\n</div>");
    proof {
        assert(out@ =~= ssl_status_card_spec(site, insight));
    }
    out
}

} // verus!
