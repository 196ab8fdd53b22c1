//! Manage > Logs: the two log tiles, the searchable log dialog and its script and styles;
//! and the Theme Store panel of Settings > Design.

use vstd::prelude::*;
use vstd::string::*;
use crate::panel_website_manage_ui::{section, section_spec};
use crate::site::SiteRecord;
use crate::text::{html_escaped, push_escaped};

verus! {

/// The log dialog style sheet.
pub const LOGS_MODAL_STYLES: &'static str = "\n.site-manage .manage-log-open {\n  cursor:pointer; font:inherit; text-align:left; width:100%;\n}\n.site-manage .manage-log-dialog {\n  border:1px solid var(--hairline, var(--m-line)); border-radius:18px; padding:0;\n  max-width:min(960px,96vw); width:100%;\n  background:var(--canvas, var(--m-card)); color:var(--ink, var(--m-ink));\n  box-shadow:0 18px 50px rgba(15,23,42,.35);\n}\n.site-manage .manage-log-dialog::backdrop { background:rgba(15,23,42,.55); }\n.site-manage .manage-log-dialog-inner { margin:0; padding:16px 18px 18px; }\n.site-manage .manage-log-dialog-inner header {\n  display:flex; align-items:flex-start; justify-content:space-between; gap:12px; margin-bottom:10px;\n}\n.site-manage .manage-log-dialog-inner h2 { margin:0; font-size:1.15rem; font-weight:700; color:var(--ink, var(--m-ink)); }\n.site-manage .manage-log-dialog-inner .manage-muted { color:var(--muted, var(--m-muted)); }\n.site-manage .manage-log-toolbar-row {\n  display:flex; flex-wrap:wrap; gap:8px; align-items:center; margin:0 0 10px;\n}\n.site-manage .manage-log-toolbar-row input[type=search],\n.site-manage .manage-log-toolbar-row input[type=number],\n.site-manage .manage-log-toolbar-row select {\n  min-height:40px; padding:0 12px; border-radius:10px;\n  border:1px solid var(--hairline, var(--m-line));\n  background:var(--canvas, #0b0d12); color:var(--ink, var(--m-ink)); font:inherit; font-size:13px;\n}\n.site-manage .manage-log-toolbar-row input[type=search] { flex:1 1 180px; min-width:140px; }\n.site-manage .manage-log-toolbar-row select { flex:0 0 auto; }\n.site-manage .manage-log-toolbar-row .manage-btn,\n.site-manage .manage-log-dialog-inner button.manage-btn {\n  display:inline-flex; align-items:center; justify-content:center;\n  min-height:40px; padding:0 14px; border-radius:999px; border:1px solid var(--hairline, var(--m-line));\n  background:#f2f4f7; color:#344054; font-weight:700; font-size:13px; cursor:pointer;\n}\n[data-color-mode=\"dark\"] .site-manage .manage-log-toolbar-row .manage-btn,\n[data-color-mode=\"dark\"] .site-manage .manage-log-dialog-inner button.manage-btn,\n.site-manage .manage-log-toolbar-row .manage-btn {\n  background:rgba(255,255,255,.08); color:var(--ink, var(--m-ink)); border-color:var(--hairline, var(--m-line));\n}\n.site-manage .manage-log-dialog .manage-log-pre {\n  max-height:min(52vh, 420px); min-height:160px;\n}\n.site-manage .manage-log-pager {\n  display:flex; flex-wrap:wrap; gap:8px; align-items:center; margin-top:10px;\n}\n.site-manage .manage-log-pager label { font-size:13px; color:var(--muted, var(--m-muted)); }\n@media (max-width:679.98px) {\n  .site-manage .manage-log-dialog-inner { padding:14px; }\n  .site-manage .manage-log-toolbar-row .manage-btn { flex:1 1 auto; }\n}\n";

/// The log dialog script.
pub const LOGS_MODAL_SCRIPT: &'static str = "<script>\n(function () {\n  var dialog = document.getElementById(\"manage-log-dialog\");\n  if (!dialog) return;\n  var domain = dialog.getAttribute(\"data-domain\") || \"\";\n  var titleEl = document.getElementById(\"manage-log-dialog-title\");\n  var sourceEl = document.getElementById(\"manage-log-dialog-source\");\n  var bodyEl = document.getElementById(\"manage-log-body\");\n  var searchEl = document.getElementById(\"manage-log-search\");\n  var perPageEl = document.getElementById(\"manage-log-per-page\");\n  var gotoEl = document.getElementById(\"manage-log-goto\");\n  var totalEl = document.getElementById(\"manage-log-total-pages\");\n  var kind = \"access\";\n  var page = 1;\n  var searchTimer = null;\n\n  function setBusy(busy) {\n    if (bodyEl) bodyEl.setAttribute(\"aria-busy\", busy ? \"true\" : \"false\");\n  }\n\n  function loadPage() {\n    if (!domain) return;\n    setBusy(true);\n    var q = new URLSearchParams();\n    q.set(\"domain\", domain);\n    q.set(\"kind\", kind);\n    q.set(\"page\", String(page));\n    q.set(\"per_page\", String(perPageEl ? perPageEl.value : \"25\"));\n    if (searchEl && searchEl.value.trim()) q.set(\"search\", searchEl.value.trim());\n    fetch(\"/api/websites/manage/logs?\" + q.toString(), { credentials: \"same-origin\" })\n      .then(function (r) { return r.json(); })\n      .then(function (data) {\n        setBusy(false);\n        if (!data || !data.ok) {\n          if (bodyEl) bodyEl.textContent = (data && data.error) ? data.error : \"Could not load logs\";\n          return;\n        }\n        page = data.page || 1;\n        if (titleEl) titleEl.textContent = kind === \"error\" ? \"Error Logs\" : \"Access Logs\";\n        if (sourceEl) sourceEl.textContent = data.message || (\"Source: \" + (data.path || \"\"));\n        if (bodyEl) bodyEl.textContent = (data.lines && data.lines.length) ? data.lines.join(\"\\n\") : \"\";\n        if (gotoEl) gotoEl.value = String(page);\n        if (totalEl) totalEl.textContent = String(data.total_pages || 1);\n      })\n      .catch(function () {\n        setBusy(false);\n        if (bodyEl) bodyEl.textContent = \"Network error loading logs\";\n      });\n  }\n\n  function openKind(nextKind) {\n    kind = nextKind === \"error\" ? \"error\" : \"access\";\n    page = 1;\n    if (searchEl) searchEl.value = \"\";\n    if (typeof dialog.showModal === \"function\") dialog.showModal();\n    loadPage();\n  }\n\n  document.querySelectorAll(\".manage-log-open\").forEach(function (btn) {\n    btn.addEventListener(\"click\", function () {\n      openKind(btn.getAttribute(\"data-log-kind\") || \"access\");\n    });\n  });\n  var refresh = document.getElementById(\"manage-log-refresh\");\n  if (refresh) refresh.addEventListener(\"click\", function () { loadPage(); });\n  var prev = document.getElementById(\"manage-log-prev\");\n  if (prev) prev.addEventListener(\"click\", function () {\n    if (page > 1) { page -= 1; loadPage(); }\n  });\n  var next = document.getElementById(\"manage-log-next\");\n  if (next) next.addEventListener(\"click\", function () {\n    page += 1; loadPage();\n  });\n  var go = document.getElementById(\"manage-log-go\");\n  if (go) go.addEventListener(\"click\", function () {\n    var n = parseInt(gotoEl && gotoEl.value, 10);\n    if (!isNaN(n) && n >= 1) { page = n; loadPage(); }\n  });\n  if (perPageEl) perPageEl.addEventListener(\"change\", function () { page = 1; loadPage(); });\n  if (searchEl) searchEl.addEventListener(\"input\", function () {\n    if (searchTimer) clearTimeout(searchTimer);\n    searchTimer = setTimeout(function () { page = 1; loadPage(); }, 280);\n  });\n})();\n</script>";

pub fn logs_modal_styles() -> (r: &'static str)
    ensures
        r@ == LOGS_MODAL_STYLES@,
{
    LOGS_MODAL_STYLES
}

/// A tile that opens the log dialog for one log (its icon slot left empty).
pub open spec fn log_tile_button_spec(kind: Seq<char>, title: Seq<char>, subtitle: Seq<char>) -> Seq<char> {
    "<button type=\"button\" class=\"manage-tile manage-log-open\" data-log-kind=\""@ + html_escaped(kind) + "\" aria-haspopup=\"dialog\">\n  "@ + ""@ + "\n  <span><strong>"@ + html_escaped(title) + "</strong><span>"@ + html_escaped(subtitle) + "</span></span>\n</button>"@
}

#[verifier::rlimit(60)]
#[verifier::spinoff_prover]
fn log_tile_button(kind: &str, title: &str, subtitle: &str) -> (r: String)
    ensures
        r@ == log_tile_button_spec(kind@, title@, subtitle@),
{
    proof {
        reveal_strlit("");
    }
    let mut out = "<button type=\"button\" class=\"manage-tile manage-log-open\" data-log-kind=\"".to_owned();
    push_escaped(&mut out, kind);
    out.append("\" aria-haspopup=\"dialog\">\n  ");
    out.append("");
    out.append("\n  <span><strong>");
    push_escaped(&mut out, title);
    out.append("</strong><span>");
    push_escaped(&mut out, subtitle);
    out.append("</span></span>\n</button>");
    assert(out@ =~= log_tile_button_spec(kind@, title@, subtitle@));
    out
}

/// The Logs tab of Manage: the two tiles, the dialog for this domain, and the retention note.
pub open spec fn logs_tab_html_spec(site: &SiteRecord) -> Seq<char> {
    section_spec(
        "Logs"@,
        "<div class=\"manage-tile-grid\">"@ + log_tile_button_spec("access"@, "Access Logs"@, "Search and paginate allowlisted access logs"@)
            + log_tile_button_spec("error"@, "Error Logs"@, "Search and paginate allowlisted error logs"@) + "</div>"@,
    ) + "<dialog class=\"manage-log-dialog\" id=\"manage-log-dialog\" data-domain=\""@ + html_escaped(site.domain@) + "\">\n  <div class=\"manage-log-dialog-inner\">\n    <header>\n      <div>\n        <h2 id=\"manage-log-dialog-title\">Access Logs</h2>\n        <p id=\"manage-log-dialog-source\" class=\"manage-muted\" style=\"margin:6px 0 0;\"></p>\n      </div>\n      <form method=\"dialog\"><button type=\"submit\" class=\"manage-btn\" aria-label=\"Close\">Close</button></form>\n    </header>\n    <div class=\"manage-log-toolbar-row\">\n      <input type=\"search\" id=\"manage-log-search\" placeholder=\"Search lines\" autocomplete=\"off\">\n      <select id=\"manage-log-per-page\" aria-label=\"Lines per page\">\n        <option value=\"10\">10 / page</option>\n        <option value=\"25\" selected>25 / page</option>\n        <option value=\"50\">50 / page</option>\n      </select>\n      <button type=\"button\" class=\"manage-btn\" id=\"manage-log-refresh\">Refresh</button>\n    </div>\n    <pre class=\"manage-log-pre\" id=\"manage-log-body\" aria-live=\"polite\"></pre>\n    <div class=\"manage-log-pager\">\n      <button type=\"button\" class=\"manage-btn\" id=\"manage-log-prev\">Prev</button>\n      <button type=\"button\" class=\"manage-btn\" id=\"manage-log-next\">Next</button>\n      <label>Page <input type=\"number\" id=\"manage-log-goto\" min=\"1\" value=\"1\" style=\"width:4.5rem;\"> of <span id=\"manage-log-total-pages\">1</span></label>\n      <button type=\"button\" class=\"manage-btn\" id=\"manage-log-go\">Go</button>\n    </div>\n  </div>\n</dialog>\n"@ + LOGS_MODAL_SCRIPT@ + "<p class=\"manage-muted\" style=\"margin-top:12px;\">Logs are jailed to this domain site home only. Admin retention: <a href=\"/settings/logs\">Settings &gt; Log retention</a> (default 30 days).</p>"@
}

#[verifier::rlimit(60)]
#[verifier::spinoff_prover]
pub fn logs_tab_html(site: &SiteRecord) -> (r: String)
    ensures
        r@ == logs_tab_html_spec(site),
{
    let mut tiles = "<div class=\"manage-tile-grid\">".to_owned();
    let a = log_tile_button("access", "Access Logs", "Search and paginate allowlisted access logs");
    tiles.append(a.as_str());
    let e = log_tile_button("error", "Error Logs", "Search and paginate allowlisted error logs");
    tiles.append(e.as_str());
    tiles.append("</div>");
    let mut out = section("Logs", tiles.as_str());
    let ghost start = out@;
    out.append("<dialog class=\"manage-log-dialog\" id=\"manage-log-dialog\" data-domain=\"");
    push_escaped(&mut out, site.domain.as_str());
    out.append("\">\n  <div class=\"manage-log-dialog-inner\">\n    <header>\n      <div>\n        <h2 id=\"manage-log-dialog-title\">Access Logs</h2>\n        <p id=\"manage-log-dialog-source\" class=\"manage-muted\" style=\"margin:6px 0 0;\"></p>\n      </div>\n      <form method=\"dialog\"><button type=\"submit\" class=\"manage-btn\" aria-label=\"Close\">Close</button></form>\n    </header>\n    <div class=\"manage-log-toolbar-row\">\n      <input type=\"search\" id=\"manage-log-search\" placeholder=\"Search lines\" autocomplete=\"off\">\n      <select id=\"manage-log-per-page\" aria-label=\"Lines per page\">\n        <option value=\"10\">10 / page</option>\n        <option value=\"25\" selected>25 / page</option>\n        <option value=\"50\">50 / page</option>\n      </select>\n      <button type=\"button\" class=\"manage-btn\" id=\"manage-log-refresh\">Refresh</button>\n    </div>\n    <pre class=\"manage-log-pre\" id=\"manage-log-body\" aria-live=\"polite\"></pre>\n    <div class=\"manage-log-pager\">\n      <button type=\"button\" class=\"manage-btn\" id=\"manage-log-prev\">Prev</button>\n      <button type=\"button\" class=\"manage-btn\" id=\"manage-log-next\">Next</button>\n      <label>Page <input type=\"number\" id=\"manage-log-goto\" min=\"1\" value=\"1\" style=\"width:4.5rem;\"> of <span id=\"manage-log-total-pages\">1</span></label>\n      <button type=\"button\" class=\"manage-btn\" id=\"manage-log-go\">Go</button>\n    </div>\n  </div>\n</dialog>\n");
    out.append(LOGS_MODAL_SCRIPT);
    out.append("<p class=\"manage-muted\" style=\"margin-top:12px;\">Logs are jailed to this domain site home only. Admin retention: <a href=\"/settings/logs\">Settings &gt; Log retention</a> (default 30 days).</p>");
    out
}

/// The Theme Store panel: catalog link, refresh button, the card grid and its script (Apply
/// for admins).
pub open spec fn themes_catalog_panel_spec(can_edit: bool) -> Seq<char> {
    "<article class=\"section-card cpn-themes-catalog\" id=\"cpn-themes-catalog\">\n  <header class=\"cpn-themes-head\">\n    <div>\n      <h2>Theme Store</h2>\n      <p class=\"plugin-store-meta\">Catalog: <a href=\"https://github.com/Control-Panel-Network/CPN-Themes\" target=\"_blank\" rel=\"noopener noreferrer\">https://github.com/Control-Panel-Network/CPN-Themes</a></p>\n    </div>\n    <button type=\"button\" class=\"manage-btn\" id=\"cpn-themes-refresh\">Refresh catalog</button>\n  </header>\n  <p id=\"cpn-themes-status\" class=\"plugin-store-meta\" role=\"status\">Loading themes...</p>\n  <div id=\"cpn-themes-grid\" class=\"plugin-grid\" aria-live=\"polite\"></div>\n</article>\n<style>\n.cpn-themes-catalog { margin-top:18px; }\n.cpn-themes-head { display:flex; flex-wrap:wrap; gap:12px; align-items:flex-start; justify-content:space-between; margin-bottom:12px; }\n.cpn-themes-catalog h2 { margin:0 0 6px; font-size:18px; color:var(--ink); }\n.cpn-theme-swatch {\n  width:100%; height:48px; border-radius:12px; border:1px solid var(--hairline);\n  background:linear-gradient(90deg, var(--swatch-a, #2563eb), var(--swatch-b, #1d4ed8));\n}\n.cpn-themes-catalog .plugin-grid {\n  display:grid; grid-template-columns:repeat(auto-fill,minmax(240px,1fr)); gap:16px; margin-top:10px;\n}\n.cpn-themes-catalog .plugin-card {\n  display:flex; flex-direction:column; gap:10px; padding:16px;\n  border:1px solid var(--hairline); border-radius:16px; background:var(--canvas); color:var(--ink);\n}\n.cpn-themes-catalog .plugin-card h3 { margin:0; font-size:16px; color:var(--ink); }\n.cpn-themes-catalog .plugin-desc { margin:0; font-size:14px; line-height:1.45; color:var(--ink); opacity:.9; }\n.cpn-themes-catalog .plugin-meta { margin:0; font-size:13px; color:var(--ink); opacity:.8; }\n.cpn-themes-catalog .plugin-badges { display:flex; flex-wrap:wrap; gap:6px; }\n.cpn-themes-catalog .plugin-badge {\n  display:inline-flex; align-items:center; min-height:24px; padding:0 8px; border-radius:999px;\n  font-size:11px; font-weight:700; background:#dbeafe; color:#1e3a8a;\n}\n.cpn-themes-catalog .plugin-actions { margin-top:auto; }\n.cpn-themes-catalog .plugin-store-meta { color:var(--ink); font-size:.92rem; }\n.cpn-themes-catalog .plugin-store-meta a { color:var(--blue); font-weight:600; }\n.cpn-themes-catalog .manage-btn {\n  min-height:36px; padding:0 12px; border-radius:10px; border:1px solid var(--hairline);\n  background:var(--canvas); color:inherit; font:inherit; cursor:pointer;\n}\n</style>\n<script>\n(function () {\n  var statusEl = document.getElementById(\"cpn-themes-status\");\n  var grid = document.getElementById(\"cpn-themes-grid\");\n  var refreshBtn = document.getElementById(\"cpn-themes-refresh\");\n  var canEdit = "@ + (if can_edit { "true"@ } else { "false"@ }) + ";\n  if (!statusEl || !grid) return;\n\n  function esc(s) {\n    return String(s == null ? \"\" : s)\n      .replace(/&/g, \"&amp;\").replace(/</g, \"&lt;\").replace(/>/g, \"&gt;\").replace(/\"/g, \"&quot;\");\n  }\n\n  function render(themes, meta) {\n    if (!themes || !themes.length) {\n      statusEl.textContent = \"No themes found in the catalog.\";\n      grid.innerHTML = \"\";\n      return;\n    }\n    statusEl.textContent = themes.length + \" themes - \" + (meta || \"CPN-Themes\");\n    grid.innerHTML = themes.map(function (t) {\n      var a = (t.tokens && t.tokens.accent) || \"#2563eb\";\n      var b = (t.tokens && t.tokens.accent_focus) || a;\n      var btn = canEdit\n        ? ('<button type=\"button\" class=\"btn-primary cpn-theme-apply\" data-id=\"' + esc(t.id) + '\">Apply</button>')\n        : '<span class=\"plugin-badge\">Admin only</span>';\n      return '<article class=\"plugin-card\">' +\n        '<div class=\"cpn-theme-swatch\" style=\"--swatch-a:' + esc(a) + ';--swatch-b:' + esc(b) + ';\"></div>' +\n        '<h3>' + esc(t.name) + '</h3>' +\n        '<div class=\"plugin-badges\"><span class=\"plugin-badge\">v' + esc(t.version) + '</span></div>' +\n        '<p class=\"plugin-desc\">' + esc(t.description) + '</p>' +\n        '<p class=\"plugin-meta\">Author: ' + esc(t.author) + '</p>' +\n        '<div class=\"plugin-actions\">' + btn + '</div></article>';\n    }).join(\"\");\n    grid.querySelectorAll(\".cpn-theme-apply\").forEach(function (btn) {\n      btn.addEventListener(\"click\", function () {\n        var id = btn.getAttribute(\"data-id\");\n        fetch(\"/api/panel/themes/apply\", {\n          method: \"POST\",\n          credentials: \"same-origin\",\n          headers: { \"Content-Type\": \"application/json\", \"Accept\": \"application/json\" },\n          body: JSON.stringify({ id: id })\n        }).then(function (res) {\n          return res.json().then(function (data) {\n            if (!res.ok) throw new Error((data && data.error) || (\"HTTP \" + res.status));\n            window.location.reload();\n          });\n        }).catch(function (err) { alert(err.message || String(err)); });\n      });\n    });\n  }\n\n  function load(force) {\n    statusEl.textContent = \"Loading themes...\";\n    var url = \"/api/panel/themes/catalog\" + (force ? \"?refresh=1\" : \"\");\n    fetch(url, { credentials: \"same-origin\", headers: { \"Accept\": \"application/json\" } })\n      .then(function (res) {\n        return res.json().then(function (data) {\n          if (!res.ok) throw new Error((data && data.error) || (\"HTTP \" + res.status));\n          render(data.themes || [], (data.repo || \"\") + (data.fetched_at_local ? (\" - \" + data.fetched_at_local) : \"\"));\n        });\n      })\n      .catch(function (err) {\n        statusEl.textContent = \"Could not load themes: \" + (err.message || String(err));\n        grid.innerHTML = \"\";\n      });\n  }\n\n  if (refreshBtn) refreshBtn.addEventListener(\"click\", function () { load(true); });\n  load(false);\n})();\n</script>"@
}

pub fn themes_catalog_panel(can_edit: bool) -> (r: String)
    ensures
        r@ == themes_catalog_panel_spec(can_edit),
{
    let mut out = "<article class=\"section-card cpn-themes-catalog\" id=\"cpn-themes-catalog\">\n  <header class=\"cpn-themes-head\">\n    <div>\n      <h2>Theme Store</h2>\n      <p class=\"plugin-store-meta\">Catalog: <a href=\"https://github.com/Control-Panel-Network/CPN-Themes\" target=\"_blank\" rel=\"noopener noreferrer\">https://github.com/Control-Panel-Network/CPN-Themes</a></p>\n    </div>\n    <button type=\"button\" class=\"manage-btn\" id=\"cpn-themes-refresh\">Refresh catalog</button>\n  </header>\n  <p id=\"cpn-themes-status\" class=\"plugin-store-meta\" role=\"status\">Loading themes...</p>\n  <div id=\"cpn-themes-grid\" class=\"plugin-grid\" aria-live=\"polite\"></div>\n</article>\n<style>\n.cpn-themes-catalog { margin-top:18px; }\n.cpn-themes-head { display:flex; flex-wrap:wrap; gap:12px; align-items:flex-start; justify-content:space-between; margin-bottom:12px; }\n.cpn-themes-catalog h2 { margin:0 0 6px; font-size:18px; color:var(--ink); }\n.cpn-theme-swatch {\n  width:100%; height:48px; border-radius:12px; border:1px solid var(--hairline);\n  background:linear-gradient(90deg, var(--swatch-a, #2563eb), var(--swatch-b, #1d4ed8));\n}\n.cpn-themes-catalog .plugin-grid {\n  display:grid; grid-template-columns:repeat(auto-fill,minmax(240px,1fr)); gap:16px; margin-top:10px;\n}\n.cpn-themes-catalog .plugin-card {\n  display:flex; flex-direction:column; gap:10px; padding:16px;\n  border:1px solid var(--hairline); border-radius:16px; background:var(--canvas); color:var(--ink);\n}\n.cpn-themes-catalog .plugin-card h3 { margin:0; font-size:16px; color:var(--ink); }\n.cpn-themes-catalog .plugin-desc { margin:0; font-size:14px; line-height:1.45; color:var(--ink); opacity:.9; }\n.cpn-themes-catalog .plugin-meta { margin:0; font-size:13px; color:var(--ink); opacity:.8; }\n.cpn-themes-catalog .plugin-badges { display:flex; flex-wrap:wrap; gap:6px; }\n.cpn-themes-catalog .plugin-badge {\n  display:inline-flex; align-items:center; min-height:24px; padding:0 8px; border-radius:999px;\n  font-size:11px; font-weight:700; background:#dbeafe; color:#1e3a8a;\n}\n.cpn-themes-catalog .plugin-actions { margin-top:auto; }\n.cpn-themes-catalog .plugin-store-meta { color:var(--ink); font-size:.92rem; }\n.cpn-themes-catalog .plugin-store-meta a { color:var(--blue); font-weight:600; }\n.cpn-themes-catalog .manage-btn {\n  min-height:36px; padding:0 12px; border-radius:10px; border:1px solid var(--hairline);\n  background:var(--canvas); color:inherit; font:inherit; cursor:pointer;\n}\n</style>\n<script>\n(function () {\n  var statusEl = document.getElementById(\"cpn-themes-status\");\n  var grid = document.getElementById(\"cpn-themes-grid\");\n  var refreshBtn = document.getElementById(\"cpn-themes-refresh\");\n  var canEdit = ".to_owned();
    out.append(if can_edit { "true" } else { "false" });
    out.append(";\n  if (!statusEl || !grid) return;\n\n  function esc(s) {\n    return String(s == null ? \"\" : s)\n      .replace(/&/g, \"&amp;\").replace(/</g, \"&lt;\").replace(/>/g, \"&gt;\").replace(/\"/g, \"&quot;\");\n  }\n\n  function render(themes, meta) {\n    if (!themes || !themes.length) {\n      statusEl.textContent = \"No themes found in the catalog.\";\n      grid.innerHTML = \"\";\n      return;\n    }\n    statusEl.textContent = themes.length + \" themes - \" + (meta || \"CPN-Themes\");\n    grid.innerHTML = themes.map(function (t) {\n      var a = (t.tokens && t.tokens.accent) || \"#2563eb\";\n      var b = (t.tokens && t.tokens.accent_focus) || a;\n      var btn = canEdit\n        ? ('<button type=\"button\" class=\"btn-primary cpn-theme-apply\" data-id=\"' + esc(t.id) + '\">Apply</button>')\n        : '<span class=\"plugin-badge\">Admin only</span>';\n      return '<article class=\"plugin-card\">' +\n        '<div class=\"cpn-theme-swatch\" style=\"--swatch-a:' + esc(a) + ';--swatch-b:' + esc(b) + ';\"></div>' +\n        '<h3>' + esc(t.name) + '</h3>' +\n        '<div class=\"plugin-badges\"><span class=\"plugin-badge\">v' + esc(t.version) + '</span></div>' +\n        '<p class=\"plugin-desc\">' + esc(t.description) + '</p>' +\n        '<p class=\"plugin-meta\">Author: ' + esc(t.author) + '</p>' +\n        '<div class=\"plugin-actions\">' + btn + '</div></article>';\n    }).join(\"\");\n    grid.querySelectorAll(\".cpn-theme-apply\").forEach(function (btn) {\n      btn.addEventListener(\"click\", function () {\n        var id = btn.getAttribute(\"data-id\");\n        fetch(\"/api/panel/themes/apply\", {\n          method: \"POST\",\n          credentials: \"same-origin\",\n          headers: { \"Content-Type\": \"application/json\", \"Accept\": \"application/json\" },\n          body: JSON.stringify({ id: id })\n        }).then(function (res) {\n          return res.json().then(function (data) {\n            if (!res.ok) throw new Error((data && data.error) || (\"HTTP \" + res.status));\n            window.location.reload();\n          });\n        }).catch(function (err) { alert(err.message || String(err)); });\n      });\n    });\n  }\n\n  function load(force) {\n    statusEl.textContent = \"Loading themes...\";\n    var url = \"/api/panel/themes/catalog\" + (force ? \"?refresh=1\" : \"\");\n    fetch(url, { credentials: \"same-origin\", headers: { \"Accept\": \"application/json\" } })\n      .then(function (res) {\n        return res.json().then(function (data) {\n          if (!res.ok) throw new Error((data && data.error) || (\"HTTP \" + res.status));\n          render(data.themes || [], (data.repo || \"\") + (data.fetched_at_local ? (\" - \" + data.fetched_at_local) : \"\"));\n        });\n      })\n      .catch(function (err) {\n        statusEl.textContent = \"Could not load themes: \" + (err.message || String(err));\n        grid.innerHTML = \"\";\n      });\n  }\n\n  if (refreshBtn) refreshBtn.addEventListener(\"click\", function () { load(true); });\n  load(false);\n})();\n</script>");
    proof {
        assert(out@ =~= themes_catalog_panel_spec(can_edit));
    }
    out
}


} // verus!
