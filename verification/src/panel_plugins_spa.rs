//! Plugins hub navigation: list mode, page size and page number from the query string,
//! plus the catalog toolbar markup.

use vstd::prelude::*;
use vstd::string::*;
use crate::text::{
    dec, eq_ignore_case, eq_ignore_case_str, parse_usize, parse_usize_spec, push_dec, trim, trim_str,
};

verus! {

pub const PLUGINS_HUB_STYLES: &'static str = "\n      .plugin-list-toolbar {\n        display:flex; flex-wrap:wrap; gap:12px; align-items:center;\n        margin:12px 0 8px; padding:10px 12px; border:1px solid var(--hairline);\n        border-radius:12px; background:var(--canvas);\n      }\n      .plugin-mode-switch {\n        display:inline-flex; border:1px solid var(--hairline); border-radius:999px; overflow:hidden;\n      }\n      .plugin-mode-switch button {\n        min-height:34px; padding:0 14px; border:0; background:transparent; color:var(--ink);\n        font:inherit; font-weight:600; cursor:pointer;\n      }\n      .plugin-mode-switch button.active {\n        background:#1d4ed8; color:#ffffff;\n      }\n      .plugin-pager {\n        display:flex; flex-wrap:wrap; gap:8px; align-items:center; margin-left:auto;\n      }\n      .plugin-pager label { font-size:13px; font-weight:600; color:var(--ink); }\n      .plugin-pager select,\n      .plugin-pager input[type=\"number\"] {\n        min-height:34px; border:1px solid #94a3b8; border-radius:8px; padding:4px 8px;\n        font:inherit; color:var(--ink); background:var(--canvas); max-width:88px;\n      }\n      .plugin-pager .page-status { font-size:13px; font-weight:700; color:var(--ink); }\n      .plugin-grid-scroll {\n        max-height:none; overflow:visible; margin-top:10px; padding-right:2px;\n      }\n      .plugin-grid-scroll.is-scroll {\n        max-height:min(70vh, 720px); overflow:auto; border:1px solid var(--hairline);\n        border-radius:12px; padding:12px;\n      }\n      .plugin-hub-loading { opacity:.55; pointer-events:none; transition:opacity .15s ease; }\n      [data-color-mode=\"dark\"] .plugin-mode-switch button.active {\n        background:#2563eb; color:#ffffff;\n      }\n      [data-color-mode=\"dark\"] .plugin-pager select,\n      [data-color-mode=\"dark\"] .plugin-pager input[type=\"number\"] {\n        background:#1a1d26; border-color:#475569; color:#f1f5f9;\n      }\n    ";

pub const PLUGINS_HUB_SCRIPT: &'static str = "\n<script>\n(function () {\n  if (window.__cpnPluginsHubBound) return;\n  window.__cpnPluginsHubBound = true;\n\n  function hubRoot() {\n    return document.getElementById('plugins-hub');\n  }\n\n  function toPartialUrl(href) {\n    var u = new URL(href, window.location.origin);\n    if (u.pathname !== '/plugins') return null;\n    u.searchParams.set('partial', '1');\n    return u;\n  }\n\n  function syncUrl(href, replace) {\n    try {\n      var u = new URL(href, window.location.origin);\n      u.searchParams.delete('partial');\n      var next = u.pathname + (u.search ? u.search : '');\n      if (replace) history.replaceState({ cpnPlugins: 1 }, '', next);\n      else history.pushState({ cpnPlugins: 1 }, '', next);\n    } catch (e) {}\n  }\n\n  async function loadHub(href, opts) {\n    opts = opts || {};\n    var partial = toPartialUrl(href);\n    if (!partial) {\n      window.location.href = href;\n      return;\n    }\n    var root = hubRoot();\n    if (root) root.classList.add('plugin-hub-loading');\n    try {\n      var res = await fetch(partial.toString(), {\n        credentials: 'same-origin',\n        headers: { 'Accept': 'text/html', 'X-CPN-Partial': '1' }\n      });\n      if (!res.ok) throw new Error('bad status');\n      var html = await res.text();\n      var tmp = document.createElement('div');\n      tmp.innerHTML = html;\n      var next = tmp.querySelector('#plugins-hub');\n      if (!next) throw new Error('missing hub');\n      var cur = hubRoot();\n      if (!cur) {\n        window.location.href = href;\n        return;\n      }\n      cur.replaceWith(next);\n      syncUrl(href, !!opts.replace);\n    } catch (err) {\n      window.location.href = href;\n    }\n  }\n\n  function buildStoreUrl(overrides) {\n    var u = new URL(window.location.href);\n    u.pathname = '/plugins';\n    var currentView = u.searchParams.get('view') || 'store';\n    if (currentView !== 'store' && currentView !== 'host' && currentView !== 'installed') {\n      currentView = 'store';\n    }\n    u.searchParams.set('view', currentView);\n    Object.keys(overrides || {}).forEach(function (k) {\n      var v = overrides[k];\n      if (v === null || v === undefined || v === '') u.searchParams.delete(k);\n      else u.searchParams.set(k, String(v));\n    });\n    u.searchParams.delete('partial');\n    return u.pathname + u.search;\n  }\n\n  document.addEventListener('click', function (ev) {\n    var a = ev.target && ev.target.closest\n      ? ev.target.closest('#plugins-hub a[href^=\"/plugins\"]')\n      : null;\n    if (!a) return;\n    if (ev.defaultPrevented || ev.button !== 0 || ev.metaKey || ev.ctrlKey || ev.shiftKey || ev.altKey) {\n      return;\n    }\n    var href = a.getAttribute('href');\n    if (!href || href.indexOf('/plugins') !== 0) return;\n    ev.preventDefault();\n    loadHub(href, { replace: false });\n  }, true);\n\n  document.addEventListener('submit', function (ev) {\n    var form = ev.target;\n    if (!form || !form.closest || !form.closest('#plugins-hub')) return;\n    if ((form.getAttribute('method') || 'get').toLowerCase() !== 'get') return;\n    if ((form.getAttribute('action') || '/plugins').indexOf('/plugins') !== 0) return;\n    ev.preventDefault();\n    var fd = new FormData(form);\n    var u = new URL('/plugins', window.location.origin);\n    fd.forEach(function (value, key) {\n      if (value === '' && key !== 'q') return;\n      u.searchParams.set(key, String(value));\n    });\n    if (!u.searchParams.get('view')) u.searchParams.set('view', 'store');\n    loadHub(u.pathname + u.search, { replace: false });\n  }, true);\n\n  document.addEventListener('change', function (ev) {\n    var el = ev.target;\n    if (!el || !el.closest || !el.closest('#plugins-hub')) return;\n    if (el.id === 'domain' && el.form) {\n      ev.preventDefault();\n      var fd = new FormData(el.form);\n      var u = new URL('/plugins', window.location.origin);\n      fd.forEach(function (value, key) {\n        u.searchParams.set(key, String(value));\n      });\n      loadHub(u.pathname + u.search, { replace: false });\n      return;\n    }\n    if (el.id === 'plugin-per-page') {\n      var per = el.value || '4';\n      loadHub(buildStoreUrl({ per_page: per, page: 1 }), { replace: false });\n    }\n  }, true);\n\n  document.addEventListener('click', function (ev) {\n    var btn = ev.target && ev.target.closest\n      ? ev.target.closest('#plugins-hub [data-plugin-mode]')\n      : null;\n    if (!btn) return;\n    ev.preventDefault();\n    var mode = btn.getAttribute('data-plugin-mode') || 'page';\n    loadHub(buildStoreUrl({ mode: mode, page: mode === 'scroll' ? null : '1' }), { replace: false });\n  }, true);\n\n  document.addEventListener('click', function (ev) {\n    var btn = ev.target && ev.target.closest\n      ? ev.target.closest('#plugins-hub [data-plugin-page]')\n      : null;\n    if (!btn || btn.disabled) return;\n    ev.preventDefault();\n    var page = btn.getAttribute('data-plugin-page');\n    if (!page) return;\n    loadHub(buildStoreUrl({ page: page, mode: 'page' }), { replace: false });\n  }, true);\n\n  document.addEventListener('submit', function (ev) {\n    var form = ev.target;\n    if (!form || form.id !== 'plugin-goto-form') return;\n    ev.preventDefault();\n    var input = form.querySelector('[name=\"goto_page\"]');\n    var page = input ? parseInt(input.value, 10) : 1;\n    if (!page || page < 1) page = 1;\n    loadHub(buildStoreUrl({ page: page, mode: 'page' }), { replace: false });\n  }, true);\n\n  window.addEventListener('popstate', function () {\n    if (window.location.pathname !== '/plugins') return;\n    loadHub(window.location.pathname + window.location.search, { replace: true });\n  });\n})();\n</script>\n";

/// Style sheet for the plugins hub (toolbar, mode switch, pager, scroll grid).
pub fn plugins_hub_styles() -> (r: &'static str)
    ensures
        r@ == PLUGINS_HUB_STYLES@,
{
    PLUGINS_HUB_STYLES
}

/// Client script that swaps the hub in place with `fetch` and `history.pushState`.
pub fn plugins_hub_script() -> (r: String)
    ensures
        r@ == PLUGINS_HUB_SCRIPT@,
{
    PLUGINS_HUB_SCRIPT.to_owned()
}

/// `scroll` for `scroll`/`scrollbar` in any ASCII case, else `page`.
pub open spec fn list_mode_spec(raw: Seq<char>) -> Seq<char> {
    if eq_ignore_case(raw, "scroll"@) || eq_ignore_case(raw, "scrollbar"@) {
        "scroll"@
    } else {
        "page"@
    }
}

pub fn list_mode_from_query(raw: &str) -> (r: &'static str)
    ensures
        r@ == list_mode_spec(raw@),
{
    if eq_ignore_case_str(raw, "scroll") || eq_ignore_case_str(raw, "scrollbar") {
        "scroll"
    } else {
        "page"
    }
}

/// Page sizes the selector offers.
pub open spec fn is_page_size(n: usize) -> bool {
    n == 4 || n == 8 || n == 12 || n == 16 || n == 24 || n == 48
}

/// The trimmed query as a page size when it is one the selector offers, else 4.
pub open spec fn per_page_spec(raw: Seq<char>) -> usize {
    match parse_usize_spec(trim(raw)) {
        Some(n) => if is_page_size(n) {
            n
        } else {
            4
        },
        None => 4,
    }
}

pub fn per_page_from_query(raw: &str) -> (r: usize)
    ensures
        r == per_page_spec(raw@),
        is_page_size(r),
{
    let t = trim_str(raw);
    let n = match parse_usize(t.as_str()) {
        Some(n) => n,
        None => 4,
    };
    if n == 4 || n == 8 || n == 12 || n == 16 || n == 24 || n == 48 {
        n
    } else {
        4
    }
}

/// The trimmed query as a page number, 1 when missing, malformed or zero.
pub open spec fn page_spec(raw: Seq<char>) -> usize {
    match parse_usize_spec(trim(raw)) {
        Some(n) => if n >= 1 {
            n
        } else {
            1
        },
        None => 1,
    }
}

pub fn page_from_query(raw: &str) -> (r: usize)
    ensures
        r == page_spec(raw@),
        r >= 1,
{
    let t = trim_str(raw);
    let n = match parse_usize(t.as_str()) {
        Some(n) => n,
        None => 1,
    };
    if n >= 1 {
        n
    } else {
        1
    }
}

pub open spec fn toolbar_option_spec(size: usize, per_page: usize) -> Seq<char> {
    "<option value=\""@ + dec(size as nat) + "\""@ + (if size == per_page {
        " selected"@
    } else {
        ""@
    }) + ">"@ + dec(size as nat) + "</option>"@
}

/// The page-size `<option>` list, the current size selected.
pub open spec fn toolbar_options_spec(per_page: usize) -> Seq<char> {
    toolbar_option_spec(4, per_page) + toolbar_option_spec(8, per_page) + toolbar_option_spec(12, per_page)
        + toolbar_option_spec(16, per_page) + toolbar_option_spec(24, per_page)
        + toolbar_option_spec(48, per_page)
}

#[verifier::rlimit(60)]
#[verifier::spinoff_prover]
fn push_toolbar_option(out: &mut String, size: usize, per_page: usize)
    ensures
        final(out)@ == old(out)@ + toolbar_option_spec(size, per_page),
{
    let ghost start = out@;
    out.append("<option value=\"");
    push_dec(out, size as u64);
    out.append("\"");
    if size == per_page {
        out.append(" selected");
    } else {
        out.append("");
    }
    out.append(">");
    push_dec(out, size as u64);
    out.append("</option>");
    assert(out@ =~= start + toolbar_option_spec(size, per_page));
}

#[verifier::rlimit(60)]
#[verifier::spinoff_prover]
fn push_toolbar_options(out: &mut String, per_page: usize)
    ensures
        final(out)@ == old(out)@ + toolbar_options_spec(per_page),
{
    let ghost start = out@;
    push_toolbar_option(out, 4, per_page);
    push_toolbar_option(out, 8, per_page);
    push_toolbar_option(out, 12, per_page);
    push_toolbar_option(out, 16, per_page);
    push_toolbar_option(out, 24, per_page);
    push_toolbar_option(out, 48, per_page);
    assert(out@ =~= start + toolbar_options_spec(per_page));
}

/// Catalog toolbar: Pagination/Scrollbar switch (the active mode marked), match count,
/// and a pager hidden in scroll mode with page size, `Page p / n`, Prev/Next
/// (disabled at the ends) and a go-to-page form.
pub open spec fn store_list_toolbar_spec(
    mode: Seq<char>,
    per_page: usize,
    page: usize,
    total_pages: usize,
    total_items: usize,
) -> Seq<char> {
    let page_cls = if mode == "page"@ { "plugin-mode-btn active"@ } else { "plugin-mode-btn"@ };
    let scroll_cls = if mode == "scroll"@ { "plugin-mode-btn active"@ } else { "plugin-mode-btn"@ };
    let pager_style = if mode == "scroll"@ { " style=\"display:none\""@ } else { ""@ };
    let tp: int = if total_pages >= 1 { total_pages as int } else { 1 };
    let prev: int = if page > 1 { page - 1 } else { 1 };
    let next0: int = if page < total_pages { page + 1 } else { tp };
    let next: int = if next0 >= 1 { next0 } else { 1 };
    let prev_dis = if page <= 1 { " disabled"@ } else { ""@ };
    let next_dis = if page >= tp { " disabled"@ } else { ""@ };
    "<div class=\"plugin-list-toolbar\" role=\"group\" aria-label=\"Catalog display\">\n        <div class=\"plugin-mode-switch\" role=\"group\" aria-label=\"List mode\">\n          <button type=\"button\" class=\""@ + page_cls + "\" data-plugin-mode=\"page\">Pagination</button>\n          <button type=\"button\" class=\""@ + scroll_cls + "\" data-plugin-mode=\"scroll\">Scrollbar</button>\n        </div>\n        <span class=\"muted\">"@ + dec(total_items as nat) + " matching</span>\n        <div class=\"plugin-pager\""@ + pager_style + ">\n          <label for=\"plugin-per-page\">Show</label>\n          <select id=\"plugin-per-page\" aria-label=\"Plugins per page\">"@ + toolbar_options_spec(per_page) + "</select>\n          <span>per page</span>\n          <span class=\"page-status\">Page "@ + dec(page as nat) + " / "@ + dec(tp as nat) + "</span>\n          <button type=\"button\" class=\"btn-secondary\" data-plugin-page=\""@ + dec(prev as nat) + "\""@ + prev_dis + ">Prev</button>\n          <button type=\"button\" class=\"btn-secondary\" data-plugin-page=\""@ + dec(next as nat) + "\""@ + next_dis + ">Next</button>\n          <form id=\"plugin-goto-form\" style=\"display:inline-flex;flex-wrap:wrap;gap:6px;align-items:center;margin:0;\">\n            <label for=\"plugin-goto-page\">Go to page</label>\n            <input id=\"plugin-goto-page\" name=\"goto_page\" type=\"number\" min=\"1\" max=\""@ + dec(tp as nat) + "\" value=\""@ + dec(page as nat) + "\">\n            <button type=\"submit\" class=\"btn-primary\">Go</button>\n          </form>\n        </div>\n      </div>"@
}

#[verifier::rlimit(60)]
#[verifier::spinoff_prover]
pub fn store_list_toolbar(
    mode: &str,
    per_page: usize,
    page: usize,
    total_pages: usize,
    total_items: usize,
) -> (r: String)
    requires
        page < usize::MAX,
    ensures
        r@ == store_list_toolbar_spec(mode@, per_page, page, total_pages, total_items),
{
    let page_cls = if crate::text::str_eq(mode, "page") { "plugin-mode-btn active" } else { "plugin-mode-btn" };
    let is_scroll = crate::text::str_eq(mode, "scroll");
    let scroll_cls = if is_scroll { "plugin-mode-btn active" } else { "plugin-mode-btn" };
    let pager_style = if is_scroll { " style=\"display:none\"" } else { "" };
    let tp: usize = if total_pages >= 1 { total_pages } else { 1 };
    let prev: usize = if page > 1 { page - 1 } else { 1 };
    let next0: usize = if page < total_pages { page + 1 } else { tp };
    let next: usize = if next0 >= 1 { next0 } else { 1 };
    let prev_dis = if page <= 1 { " disabled" } else { "" };
    let next_dis = if page >= tp { " disabled" } else { "" };
    let mut out = "<div class=\"plugin-list-toolbar\" role=\"group\" aria-label=\"Catalog display\">\n        <div class=\"plugin-mode-switch\" role=\"group\" aria-label=\"List mode\">\n          <button type=\"button\" class=\"".to_owned();
    out.append(page_cls);
    out.append("\" data-plugin-mode=\"page\">Pagination</button>\n          <button type=\"button\" class=\"");
    out.append(scroll_cls);
    out.append("\" data-plugin-mode=\"scroll\">Scrollbar</button>\n        </div>\n        <span class=\"muted\">");
    push_dec(&mut out, total_items as u64);
    out.append(" matching</span>\n        <div class=\"plugin-pager\"");
    out.append(pager_style);
    out.append(">\n          <label for=\"plugin-per-page\">Show</label>\n          <select id=\"plugin-per-page\" aria-label=\"Plugins per page\">");
    push_toolbar_options(&mut out, per_page);
    out.append("</select>\n          <span>per page</span>\n          <span class=\"page-status\">Page ");
    push_dec(&mut out, page as u64);
    out.append(" / ");
    push_dec(&mut out, tp as u64);
    out.append("</span>\n          <button type=\"button\" class=\"btn-secondary\" data-plugin-page=\"");
    push_dec(&mut out, prev as u64);
    out.append("\"");
    out.append(prev_dis);
    out.append(">Prev</button>\n          <button type=\"button\" class=\"btn-secondary\" data-plugin-page=\"");
    push_dec(&mut out, next as u64);
    out.append("\"");
    out.append(next_dis);
    out.append(">Next</button>\n          <form id=\"plugin-goto-form\" style=\"display:inline-flex;flex-wrap:wrap;gap:6px;align-items:center;margin:0;\">\n            <label for=\"plugin-goto-page\">Go to page</label>\n            <input id=\"plugin-goto-page\" name=\"goto_page\" type=\"number\" min=\"1\" max=\"");
    push_dec(&mut out, tp as u64);
    out.append("\" value=\"");
    push_dec(&mut out, page as u64);
    out.append("\">\n            <button type=\"submit\" class=\"btn-primary\">Go</button>\n          </form>\n        </div>\n      </div>");
    out
}

} // verus!
