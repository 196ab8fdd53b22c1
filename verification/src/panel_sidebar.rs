//! Sidebar brand mark, menu search, and host IP/uptime card for CPN Panel.

use vstd::prelude::*;
use vstd::string::*;
use crate::text::{html_escaped, join_spec, push_escaped};

verus! {

/// Original CPN mark: rounded hex with linked nodes (not a lightning bolt).
pub const BRAND_MARK: &'static str = "<svg class=\"cpn-brand-mark\" viewBox=\"0 0 32 32\" width=\"28\" height=\"28\" aria-hidden=\"true\" focusable=\"false\">\n  <defs>\n    <linearGradient id=\"cpnBrandGrad\" x1=\"4\" y1=\"2\" x2=\"28\" y2=\"30\" gradientUnits=\"userSpaceOnUse\">\n      <stop stop-color=\"#3b82f6\"/>\n      <stop offset=\"1\" stop-color=\"#06b6d4\"/>\n    </linearGradient>\n  </defs>\n  <path fill=\"url(#cpnBrandGrad)\" d=\"M16 2.2 27.5 8.8v14.4L16 29.8 4.5 23.2V8.8L16 2.2z\"/>\n  <path fill=\"none\" stroke=\"#fff\" stroke-width=\"1.6\" stroke-linecap=\"round\" stroke-linejoin=\"round\"\n    d=\"M11.2 16.2c0-2.6 2.1-4.6 4.8-4.6 1.7 0 3.1.8 4 2M20.8 15.8c0 2.6-2.1 4.6-4.8 4.6-1.7 0-3.1-.8-4-2\"/>\n  <circle cx=\"11.2\" cy=\"16.2\" r=\"1.55\" fill=\"#fff\"/>\n  <circle cx=\"20.8\" cy=\"15.8\" r=\"1.55\" fill=\"#fff\"/>\n  <circle cx=\"16\" cy=\"11.6\" r=\"1.35\" fill=\"#e0f2fe\"/>\n  <circle cx=\"16\" cy=\"20.4\" r=\"1.35\" fill=\"#e0f2fe\"/>\n</svg>";

/// Dark-mode touches for the brand mark and the host card.
pub const SIDEBAR_EXTRA_STYLES: &'static str = "\n.panel-brand .cpn-brand-mark { flex:0 0 auto; display:block; border-radius:8px; }\n.panel-brand span { line-height:1.15; }\n.sidebar-search {\n  position:relative; margin:14px 0 0; padding:0 4px;\n}\n.sidebar-search-field {\n  display:flex; align-items:center; gap:8px; min-height:40px; padding:0 12px;\n  border:1px solid var(--hairline); border-radius:12px; background:var(--canvas);\n}\n.sidebar-search-field:focus-within {\n  border-color:var(--blue-focus); box-shadow:0 0 0 3px rgba(0,102,204,.15);\n}\n.sidebar-search-field svg { flex:0 0 auto; color:var(--muted); }\n.sidebar-search-field input {\n  flex:1; min-width:0; border:0; background:transparent; color:var(--ink);\n  font:inherit; font-size:13px; outline:none;\n}\n.sidebar-search-results {\n  display:none; position:absolute; left:4px; right:4px; top:calc(100% + 6px); z-index:60;\n  max-height:220px; overflow:auto; margin:0; padding:6px; list-style:none;\n  border:1px solid var(--hairline); border-radius:12px; background:var(--canvas);\n  box-shadow:0 10px 28px rgba(15,23,42,.14);\n}\n.sidebar-search-results.is-open { display:block; }\n.sidebar-search-results li button {\n  width:100%; display:flex; flex-direction:column; align-items:flex-start; gap:2px;\n  padding:8px 10px; border:0; border-radius:8px; background:transparent;\n  color:var(--ink); text-align:left; font:inherit; font-size:13px; cursor:pointer;\n}\n.sidebar-search-results li button:hover,\n.sidebar-search-results li button.is-active { background:rgba(0,102,204,.1); color:var(--blue); }\n.sidebar-search-results .muted { color:var(--muted); font-size:11px; }\n.sidebar-search-empty { padding:10px; color:var(--muted); font-size:12px; }\n.host-status {\n  display:flex; align-items:flex-start; gap:12px; margin:14px 0 12px; padding:12px 14px;\n  border-radius:8px; background:var(--surface); border:0;\n}\n.host-status-icon {\n  flex:0 0 auto; width:36px; height:36px; border-radius:10px;\n  display:grid; place-items:center; background:rgba(59,130,246,.12); color:var(--blue);\n}\n.host-status-body { flex:1; min-width:0; display:flex; flex-direction:column; gap:4px; }\n.host-status-row {\n  display:flex; align-items:center; gap:8px; min-width:0; font-size:12px; color:var(--muted);\n}\n.host-status-row strong { color:var(--ink); font-weight:600; }\n.cpn-ip-blur {\n  display:inline-flex; align-items:center; gap:6px; min-width:0; max-width:100%;\n}\n.cpn-ip-blur__toggle {\n  min-width:0; max-width:100%; padding:0; border:0; background:transparent;\n  color:var(--blue); font:inherit; font-size:12px; font-weight:600; cursor:pointer;\n  text-align:left;\n}\n.cpn-ip-blur__value {\n  display:inline-block; max-width:100%; overflow:hidden; text-overflow:ellipsis;\n  white-space:nowrap; transition:filter 120ms ease;\n}\n.cpn-ip-blur.is-blurred .cpn-ip-blur__value {\n  filter:blur(5px); user-select:none;\n}\n.cpn-ip-blur__copy {\n  flex:0 0 auto; width:28px; height:28px; display:grid; place-items:center;\n  border:1px solid var(--hairline); border-radius:8px; background:var(--surface);\n  color:var(--muted); cursor:pointer;\n}\n.cpn-ip-blur__copy:hover { color:var(--blue); border-color:var(--blue); }\n.cpn-ip-blur__copy:focus-visible,\n.cpn-ip-blur__toggle:focus-visible,\n.sidebar-search-field input:focus-visible {\n  outline:2px solid var(--blue-focus); outline-offset:2px;\n}\n.server-summary { margin:0 0 12px; }\n[data-color-mode=\"dark\"] .sidebar-search-field,\n[data-color-mode=\"dark\"] .sidebar-search-results,\n[data-color-mode=\"dark\"] .host-status,\n[data-color-mode=\"dark\"] .cpn-ip-blur__copy {\n  background:var(--canvas); border-color:var(--hairline);\n}\n[data-color-mode=\"dark\"] .host-status-icon { background:rgba(59,130,246,.2); }\n";

/// Menu search and IP blur/copy behaviour of the sidebar.
pub const SIDEBAR_SEARCH_AND_IP_SCRIPT: &'static str = "\n<script>\n(function () {\n  var STORAGE_KEY = 'cpn.sidebar.ipBlurred';\n  var root = document.querySelector('[data-cpn-ip-blur]');\n  if (root) {\n    var toggle = root.querySelector('.cpn-ip-blur__toggle');\n    var copyBtn = root.querySelector('.cpn-ip-blur__copy');\n    var valueEl = root.querySelector('.cpn-ip-blur__value');\n    function setBlurred(blurred) {\n      root.classList.toggle('is-blurred', blurred);\n      if (toggle) {\n        toggle.setAttribute('aria-pressed', blurred ? 'false' : 'true');\n        toggle.setAttribute('aria-label', blurred ? 'Click to show IP' : 'Click to hide IP');\n      }\n      try { localStorage.setItem(STORAGE_KEY, blurred ? '1' : '0'); } catch (e) {}\n    }\n    var stored = null;\n    try { stored = localStorage.getItem(STORAGE_KEY); } catch (e) {}\n    if (stored === '0') setBlurred(false);\n    else setBlurred(true);\n    if (toggle) {\n      toggle.addEventListener('click', function () {\n        setBlurred(!root.classList.contains('is-blurred'));\n      });\n    }\n    if (copyBtn) {\n      copyBtn.addEventListener('click', function () {\n        var ip = root.getAttribute('data-ip') || (valueEl ? valueEl.textContent : '') || '';\n        if (!ip) return;\n        function done() {\n          copyBtn.setAttribute('aria-label', 'Copied');\n          setTimeout(function () { copyBtn.setAttribute('aria-label', 'Copy IP'); }, 1200);\n        }\n        if (navigator.clipboard && navigator.clipboard.writeText) {\n          navigator.clipboard.writeText(ip).then(done).catch(function () {\n            var ta = document.createElement('textarea');\n            ta.value = ip; document.body.appendChild(ta); ta.select();\n            try { document.execCommand('copy'); } catch (e) {}\n            document.body.removeChild(ta); done();\n          });\n        } else {\n          var ta = document.createElement('textarea');\n          ta.value = ip; document.body.appendChild(ta); ta.select();\n          try { document.execCommand('copy'); } catch (e) {}\n          document.body.removeChild(ta); done();\n        }\n      });\n    }\n  }\n\n  var wrap = document.querySelector('[data-cpn-menu-search]');\n  if (!wrap) return;\n  var input = wrap.querySelector('input');\n  var list = wrap.querySelector('#cpn-menu-search-results');\n  var dataNode = wrap.querySelector('#cpn-menu-search-data');\n  if (!input || !list || !dataNode) return;\n  var catalog = [];\n  try { catalog = JSON.parse(dataNode.textContent || '[]'); } catch (e) { catalog = []; }\n  var hostCard = document.querySelector('[data-cpn-host-status]');\n  if (hostCard) {\n    var hostIp = (hostCard.querySelector('[data-ip]') || {}).getAttribute\n      ? hostCard.querySelector('[data-ip]').getAttribute('data-ip') : '';\n    var uptimeEl = hostCard.querySelector('.host-status-row:last-child strong');\n    catalog.push({\n      label: 'Server IP',\n      href: '#cpn-host-ip',\n      keywords: 'ip address host ' + (hostIp || '')\n    });\n    catalog.push({\n      label: 'Uptime ' + ((uptimeEl && uptimeEl.textContent) || ''),\n      href: '#cpn-host-uptime',\n      keywords: 'uptime status host'\n    });\n  }\n  var active = -1;\n  function normalize(value) { return String(value || '').toLowerCase().trim(); }\n  function matches(item, q) {\n    if (!q) return false;\n    return normalize(item.label).indexOf(q) !== -1\n      || normalize(item.keywords).indexOf(q) !== -1\n      || normalize(item.href).indexOf(q) !== -1;\n  }\n  function closeList() {\n    list.classList.remove('is-open');\n    list.hidden = true;\n    list.innerHTML = '';\n    active = -1;\n    input.setAttribute('aria-expanded', 'false');\n  }\n  function go(href) {\n    if (!href) return;\n    if (href.indexOf('#cpn-host-') === 0) {\n      if (hostCard) hostCard.scrollIntoView({ block: 'nearest' });\n      closeList();\n      return;\n    }\n    window.location.href = href;\n  }\n  function render(q) {\n    var query = normalize(q);\n    if (!query) { closeList(); return; }\n    var hits = catalog.filter(function (item) { return matches(item, query); }).slice(0, 8);\n    list.innerHTML = '';\n    if (!hits.length) {\n      list.innerHTML = '<li class=\"sidebar-search-empty\">No matching pages</li>';\n    } else {\n      hits.forEach(function (item, index) {\n        var li = document.createElement('li');\n        li.setAttribute('role', 'option');\n        var btn = document.createElement('button');\n        btn.type = 'button';\n        btn.dataset.href = item.href;\n        btn.dataset.index = String(index);\n        btn.innerHTML = '<span>' + item.label + '</span><span class=\"muted\">' + item.href + '</span>';\n        btn.addEventListener('click', function () { go(item.href); });\n        li.appendChild(btn);\n        list.appendChild(li);\n      });\n    }\n    list.hidden = false;\n    list.classList.add('is-open');\n    input.setAttribute('aria-expanded', 'true');\n    active = hits.length ? 0 : -1;\n    updateActive();\n  }\n  function updateActive() {\n    var buttons = list.querySelectorAll('button[data-href]');\n    buttons.forEach(function (btn, index) {\n      btn.classList.toggle('is-active', index === active);\n    });\n  }\n  input.addEventListener('input', function () { render(input.value); });\n  input.addEventListener('keydown', function (event) {\n    var buttons = list.querySelectorAll('button[data-href]');\n    if (event.key === 'ArrowDown' && buttons.length) {\n      event.preventDefault();\n      active = (active + 1) % buttons.length;\n      updateActive();\n    } else if (event.key === 'ArrowUp' && buttons.length) {\n      event.preventDefault();\n      active = (active - 1 + buttons.length) % buttons.length;\n      updateActive();\n    } else if (event.key === 'Enter') {\n      var target = buttons[active] || buttons[0];\n      if (target) {\n        event.preventDefault();\n        go(target.dataset.href);\n      }\n    } else if (event.key === 'Escape') {\n      closeList();\n      input.blur();\n    }\n  });\n  document.addEventListener('click', function (event) {\n    if (!wrap.contains(event.target)) closeList();\n  });\n})();\n</script>\n";

/// The host facts the sidebar card shows.
pub struct HostSidebarInfo {
    pub ip: String,
    pub uptime: String,
}

/// Original CPN mark: rounded hex with linked nodes (not a lightning bolt).
pub fn brand_mark_svg() -> (r: &'static str)
    ensures
        r@ == BRAND_MARK@,
{
    BRAND_MARK
}

/// The searchable destinations: label, link and keywords.
pub open spec fn catalog_entries() -> Seq<(Seq<char>, Seq<char>, Seq<char>)> {
    seq![
        ("Dashboard"@, "/dashboard"@, "overview home"@),
        ("Websites"@, "/websites"@, "sites domains"@),
        ("Email"@, "/email"@, "mail postfix"@),
        ("Databases & FTP"@, "/databases"@, "mariadb mysql ftp"@),
        ("MariaDB Manager"@, "/databases/manager"@, "database"@),
        ("Backups"@, "/backups"@, "restore"@),
        ("Create Backup"@, "/backups/create"@, "backup"@),
        ("Apps"@, "/apps"@, "applications"@),
        ("Plugins"@, "/plugins"@, "store extensions"@),
        ("Packages"@, "/packages"@, "plans hosting"@),
        ("Users & Plans"@, "/account/users"@, "accounts"@),
        ("Server"@, "/server"@, "system services"@),
        ("Security"@, "/security"@, "firewall ssl"@),
        ("Settings"@, "/settings"@, "design theme"@),
        ("DNS Zones"@, "/server/dns/zones"@, "dns cloudflare nameserver"@),
        ("Nameservers"@, "/server/dns/nameservers"@, "dns ns"@),
        ("Default Nameservers"@, "/server/dns/defaults"@, "dns"@),
        ("Cloudflare DNS"@, "/server/dns/zones"@, "cloudflare dns management"@),
        ("Manage Websites"@, "/websites"@, "manage preview"@),
    ]
}

/// One destination as a JSON object, every field HTML-escaped.
pub open spec fn catalog_item(e: (Seq<char>, Seq<char>, Seq<char>)) -> Seq<char> {
    "{\"label\":\""@ + html_escaped(e.0) + "\",\"href\":\""@ + html_escaped(e.1) + "\",\"keywords\":\""@
        + html_escaped(e.2) + "\"}"@
}

/// The catalog as a JSON array.
pub open spec fn search_catalog_spec() -> Seq<char> {
    "["@ + join_spec(catalog_entries().map_values(|e: (Seq<char>, Seq<char>, Seq<char>)| catalog_item(e)), ","@)
        + "]"@
}

fn catalog_entry(i: usize) -> (r: (&'static str, &'static str, &'static str))
    requires
        i < 19,
    ensures
        (r.0@, r.1@, r.2@) == catalog_entries()[i as int],
{
    if i == 0 {
        ("Dashboard", "/dashboard", "overview home")
    } else if i == 1 {
        ("Websites", "/websites", "sites domains")
    } else if i == 2 {
        ("Email", "/email", "mail postfix")
    } else if i == 3 {
        ("Databases & FTP", "/databases", "mariadb mysql ftp")
    } else if i == 4 {
        ("MariaDB Manager", "/databases/manager", "database")
    } else if i == 5 {
        ("Backups", "/backups", "restore")
    } else if i == 6 {
        ("Create Backup", "/backups/create", "backup")
    } else if i == 7 {
        ("Apps", "/apps", "applications")
    } else if i == 8 {
        ("Plugins", "/plugins", "store extensions")
    } else if i == 9 {
        ("Packages", "/packages", "plans hosting")
    } else if i == 10 {
        ("Users & Plans", "/account/users", "accounts")
    } else if i == 11 {
        ("Server", "/server", "system services")
    } else if i == 12 {
        ("Security", "/security", "firewall ssl")
    } else if i == 13 {
        ("Settings", "/settings", "design theme")
    } else if i == 14 {
        ("DNS Zones", "/server/dns/zones", "dns cloudflare nameserver")
    } else if i == 15 {
        ("Nameservers", "/server/dns/nameservers", "dns ns")
    } else if i == 16 {
        ("Default Nameservers", "/server/dns/defaults", "dns")
    } else if i == 17 {
        ("Cloudflare DNS", "/server/dns/zones", "cloudflare dns management")
    } else if i == 18 {
        ("Manage Websites", "/websites", "manage preview")
    } else {
        ("Manage Websites", "/websites", "manage preview")
    }
}

/// Extra searchable destinations beyond primary nav labels.
#[verifier::rlimit(60)]
#[verifier::spinoff_prover]
pub fn search_catalog_json() -> (r: String)
    ensures
        r@ == search_catalog_spec(),
{
    let ghost items = catalog_entries().map_values(|e: (Seq<char>, Seq<char>, Seq<char>)| catalog_item(e));
    let mut body = String::new();
    let mut i: usize = 0;
    while i < 19
        invariant
            i <= 19,
            items == catalog_entries().map_values(|e: (Seq<char>, Seq<char>, Seq<char>)| catalog_item(e)),
            items.len() == 19,
            body@ == join_spec(items.take(i as int), ","@),
        decreases 19 - i,
    {
        let (label, href, keywords) = catalog_entry(i);
        assert(items.take(i + 1).drop_last() =~= items.take(i as int));
        if i > 0 {
            body.append(",");
        } else {
            assert(items.take(1)[0] == items[0]);
        }
        let ghost before = body@;
        body.append("{\"label\":\"");
        push_escaped(&mut body, label);
        body.append("\",\"href\":\"");
        push_escaped(&mut body, href);
        body.append("\",\"keywords\":\"");
        push_escaped(&mut body, keywords);
        body.append("\"}");
        assert(body@ =~= before + catalog_item(catalog_entries()[i as int]));
        i += 1;
    }
    assert(items.take(19) =~= items);
    let mut out = "[".to_owned();
    out.append(body.as_str());
    out.append("]");
    out
}

pub fn sidebar_extra_styles() -> (r: &'static str)
    ensures
        r@ == SIDEBAR_EXTRA_STYLES@,
{
    SIDEBAR_EXTRA_STYLES
}

/// The host card: IP behind a blur toggle with a copy button, and the uptime.
pub open spec fn host_status_card_html_spec(host: &HostSidebarInfo) -> Seq<char> {
    "<div class=\"host-status\" data-cpn-host-status>\n          <div class=\"host-status-icon\" aria-hidden=\"true\">\n            <svg width=\"18\" height=\"18\" viewBox=\"0 0 24 24\" fill=\"none\" stroke=\"currentColor\" stroke-width=\"1.8\">\n              <rect x=\"3\" y=\"4\" width=\"18\" height=\"12\" rx=\"2\"></rect>\n              <path d=\"M8 20h8M12 16v4\"></path>\n            </svg>\n          </div>\n          <div class=\"host-status-body\">\n            <div class=\"host-status-row\">\n              <span>IP:</span>\n              <span class=\"cpn-ip-blur is-blurred\" data-ip=\""@ + html_escaped(host.ip@) + "\" data-cpn-ip-blur>\n                <button type=\"button\" class=\"cpn-ip-blur__toggle\" aria-pressed=\"false\" aria-label=\"Click to show IP\" title=\"Click to show or hide IP\">\n                  <span class=\"cpn-ip-blur__value\">"@ + html_escaped(host.ip@) + "</span>\n                </button>\n                <button type=\"button\" class=\"cpn-ip-blur__copy\" aria-label=\"Copy IP\" title=\"Copy IP\">\n                  <svg width=\"14\" height=\"14\" viewBox=\"0 0 24 24\" fill=\"none\" stroke=\"currentColor\" stroke-width=\"2\" aria-hidden=\"true\">\n                    <rect x=\"9\" y=\"9\" width=\"13\" height=\"13\" rx=\"2\"></rect>\n                    <path d=\"M5 15H4a2 2 0 0 1-2-2V4a2 2 0 0 1 2-2h9a2 2 0 0 1 2 2v1\"></path>\n                  </svg>\n                </button>\n              </span>\n            </div>\n            <div class=\"host-status-row\"><span>Uptime:</span> <strong>"@ + html_escaped(host.uptime@) + "</strong></div>\n          </div>\n        </div>"@
}

#[verifier::rlimit(60)]
#[verifier::spinoff_prover]
fn host_status_card_html(host: &HostSidebarInfo) -> (r: String)
    ensures
        r@ == host_status_card_html_spec(host),
{
    let mut out = "<div class=\"host-status\" data-cpn-host-status>\n          <div class=\"host-status-icon\" aria-hidden=\"true\">\n            <svg width=\"18\" height=\"18\" viewBox=\"0 0 24 24\" fill=\"none\" stroke=\"currentColor\" stroke-width=\"1.8\">\n              <rect x=\"3\" y=\"4\" width=\"18\" height=\"12\" rx=\"2\"></rect>\n              <path d=\"M8 20h8M12 16v4\"></path>\n            </svg>\n          </div>\n          <div class=\"host-status-body\">\n            <div class=\"host-status-row\">\n              <span>IP:</span>\n              <span class=\"cpn-ip-blur is-blurred\" data-ip=\"".to_owned();
    push_escaped(&mut out, host.ip.as_str());
    out.append("\" data-cpn-ip-blur>\n                <button type=\"button\" class=\"cpn-ip-blur__toggle\" aria-pressed=\"false\" aria-label=\"Click to show IP\" title=\"Click to show or hide IP\">\n                  <span class=\"cpn-ip-blur__value\">");
    push_escaped(&mut out, host.ip.as_str());
    out.append("</span>\n                </button>\n                <button type=\"button\" class=\"cpn-ip-blur__copy\" aria-label=\"Copy IP\" title=\"Copy IP\">\n                  <svg width=\"14\" height=\"14\" viewBox=\"0 0 24 24\" fill=\"none\" stroke=\"currentColor\" stroke-width=\"2\" aria-hidden=\"true\">\n                    <rect x=\"9\" y=\"9\" width=\"13\" height=\"13\" rx=\"2\"></rect>\n                    <path d=\"M5 15H4a2 2 0 0 1-2-2V4a2 2 0 0 1 2-2h9a2 2 0 0 1 2 2v1\"></path>\n                  </svg>\n                </button>\n              </span>\n            </div>\n            <div class=\"host-status-row\"><span>Uptime:</span> <strong>");
    push_escaped(&mut out, host.uptime.as_str());
    out.append("</strong></div>\n          </div>\n        </div>");
    proof {
        assert(out@ =~= host_status_card_html_spec(host));
    }
    out
}

/// Sidebar header: brand, menu search with its catalog, host card and the signed-in user.
pub open spec fn sidebar_header_html_spec(username: &str, host: &HostSidebarInfo) -> Seq<char> {
    "<div class=\"sidebar-header\">\n        <a class=\"panel-brand\" href=\"/dashboard\">"@ + BRAND_MARK@ + "<span>CPN Panel</span></a>\n        <div class=\"sidebar-search\" data-cpn-menu-search>\n          <label class=\"sidebar-search-field\">\n            <svg width=\"16\" height=\"16\" viewBox=\"0 0 24 24\" fill=\"none\" stroke=\"currentColor\" stroke-width=\"2\" aria-hidden=\"true\">\n              <circle cx=\"11\" cy=\"11\" r=\"7\"></circle>\n              <path d=\"m20 20-3.5-3.5\"></path>\n            </svg>\n            <span class=\"sr-only\">Search menu</span>\n            <input type=\"search\" id=\"cpn-menu-search\" placeholder=\"Search menu...\" autocomplete=\"off\" aria-autocomplete=\"list\" aria-controls=\"cpn-menu-search-results\" aria-expanded=\"false\">\n          </label>\n          <ul id=\"cpn-menu-search-results\" class=\"sidebar-search-results\" role=\"listbox\" hidden></ul>\n          <script type=\"application/json\" id=\"cpn-menu-search-data\">"@ + search_catalog_spec() + "</script>\n        </div>\n        "@ + host_status_card_html_spec(host) + "\n        <div class=\"server-summary\">\n          <div>\n            <strong>"@ + html_escaped(username@) + "</strong>\n            <span>Signed in</span>\n          </div>\n        </div>\n      </div>"@
}

#[verifier::rlimit(60)]
#[verifier::spinoff_prover]
pub fn sidebar_header_html(username: &str, host: &HostSidebarInfo) -> (r: String)
    ensures
        r@ == sidebar_header_html_spec(username, host),
{
    let mut out = "<div class=\"sidebar-header\">\n        <a class=\"panel-brand\" href=\"/dashboard\">".to_owned();
    out.append(BRAND_MARK);
    out.append("<span>CPN Panel</span></a>\n        <div class=\"sidebar-search\" data-cpn-menu-search>\n          <label class=\"sidebar-search-field\">\n            <svg width=\"16\" height=\"16\" viewBox=\"0 0 24 24\" fill=\"none\" stroke=\"currentColor\" stroke-width=\"2\" aria-hidden=\"true\">\n              <circle cx=\"11\" cy=\"11\" r=\"7\"></circle>\n              <path d=\"m20 20-3.5-3.5\"></path>\n            </svg>\n            <span class=\"sr-only\">Search menu</span>\n            <input type=\"search\" id=\"cpn-menu-search\" placeholder=\"Search menu...\" autocomplete=\"off\" aria-autocomplete=\"list\" aria-controls=\"cpn-menu-search-results\" aria-expanded=\"false\">\n          </label>\n          <ul id=\"cpn-menu-search-results\" class=\"sidebar-search-results\" role=\"listbox\" hidden></ul>\n          <script type=\"application/json\" id=\"cpn-menu-search-data\">");
    let catalog = search_catalog_json();
    out.append(catalog.as_str());
    out.append("</script>\n        </div>\n        ");
    let card = host_status_card_html(host);
    out.append(card.as_str());
    out.append("\n        <div class=\"server-summary\">\n          <div>\n            <strong>");
    push_escaped(&mut out, username);
    out.append("</strong>\n            <span>Signed in</span>\n          </div>\n        </div>\n      </div>");
    proof {
        assert(out@ =~= sidebar_header_html_spec(username, host));
    }
    out
}

pub fn sidebar_search_and_ip_script() -> (r: &'static str)
    ensures
        r@ == SIDEBAR_SEARCH_AND_IP_SCRIPT@,
{
    SIDEBAR_SEARCH_AND_IP_SCRIPT
}

} // verus!
