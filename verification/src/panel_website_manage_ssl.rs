//! Manage tabs for SSL and the Overview (resource cards, SSL card, host charts and site
//! facts). Certificate state, provider choices, usage figures and chart markup are looked up
//! and formatted by the caller.

use vstd::prelude::*;
use vstd::string::*;
use crate::panel_website_manage_ui::{resource_card, resource_card_spec, section, section_spec, ssl_status_card,
    ssl_status_card_spec, tile, tile_spec, SslInsight};
use crate::site::SiteRecord;
use crate::text::{dec, html_escaped, push_dec, push_escaped, trim, trim_str};

verus! {

/// What the SSL tab shows of a site's certificate setup.
pub struct SslTabFacts {
    /// The provider's value in the form.
    pub provider: String,
    pub provider_label: String,
    /// Every provider, as `(value, label)`.
    pub providers: Vec<(String, String)>,
    pub wildcard: bool,
    pub san: bool,
    pub coverage_label: String,
    pub has_material: bool,
    pub shared_owner: Option<String>,
    pub last_error: String,
    pub auto_issue: bool,
    pub certbot: bool,
}

pub open spec fn provider_option(value: Seq<char>, label: Seq<char>, selected: Seq<char>) -> Seq<char> {
    "<option value=\""@ + value + "\""@ + (if value == selected { " selected"@ } else { ""@ }) + ">"@ + html_escaped(label) + "</option>"@
}

pub open spec fn provider_options(ps: Seq<(String, String)>, selected: Seq<char>) -> Seq<char>
    decreases ps.len(),
{
    if ps.len() == 0 {
        ""@
    } else {
        provider_options(ps.drop_last(), selected) + provider_option(ps.last().0@, ps.last().1@, selected)
    }
}

#[verifier::rlimit(60)]
#[verifier::spinoff_prover]
fn provider_options_html(ps: &Vec<(String, String)>, selected: &str) -> (r: String)
    ensures
        r@ == provider_options(ps@, selected@),
{
    proof {
        reveal_strlit("");
    }
    let mut out = String::new();
    let mut i: usize = 0;
    assert(ps@.take(0) =~= Seq::<(String, String)>::empty());
    while i < ps.len()
        invariant
            i <= ps.len(),
            out@ == provider_options(ps@.take(i as int), selected@),
        decreases ps.len() - i,
    {
        let ghost before = out@;
        let (v, l) = (&ps[i].0, &ps[i].1);
        out.append("<option value=\"");
        out.append(v.as_str());
        out.append("\"");
        if crate::text::str_eq(v.as_str(), selected) {
            out.append(" selected");
        } else {
            out.append("");
        }
        out.append(">");
        push_escaped(&mut out, l.as_str());
        out.append("</option>");
        proof {
            assert(ps@.take(i + 1).drop_last() =~= ps@.take(i as int));
            assert(out@ =~= before + provider_option(ps@[i as int].0@, ps@[i as int].1@, selected@));
        }
        i += 1;
    }
    assert(ps@.take(ps.len() as int) =~= ps@);
    out
}

/// Who shares the certificate, `-` when no one.
pub open spec fn shared_owner_text(facts: &SslTabFacts) -> Seq<char> {
    match facts.shared_owner {
        Some(o) => o@,
        None => "-"@,
    }
}

/// The last issuing error, as a notice when there is one.
pub open spec fn ssl_error_note(facts: &SslTabFacts) -> Seq<char> {
    if facts.last_error@.len() == 0 {
        ""@
    } else {
        "<p class=\"panel-notice error\" role=\"status\">"@ + html_escaped(facts.last_error@) + "</p>"@
    }
}

fn ssl_error_html(facts: &SslTabFacts) -> (r: String)
    ensures
        r@ == ssl_error_note(facts),
{
    proof {
        reveal_strlit("");
    }
    if facts.last_error.as_str().is_empty() {
        String::new()
    } else {
        let mut e = "<p class=\"panel-notice error\" role=\"status\">".to_owned();
        push_escaped(&mut e, facts.last_error.as_str());
        e.append("</p>");
        e
    }
}

pub open spec fn provider_form_part0(site: &SiteRecord, facts: &SslTabFacts) -> Seq<char> {
    "<div id=\"provider\"><h3>Provider for "@ + html_escaped(site.domain@) + " only</h3>\n<p class=\"manage-muted\">Changing this domain does not rewrite siblings. Subdomains inherit parent provider only at creation time.</p>\n<form method=\"post\" action=\"/security/ssl/provider\" class=\"stack-form\" style=\"max-width:520px;\">\n  <input type=\"hidden\" name=\"domain\" value=\""@ + html_escaped(site.domain@) + "\">\n  <input type=\"hidden\" name=\"return\" value=\"/websites/manage?domain="@ + html_escaped(site.domain@) + "&amp;tab=ssl\">\n  <label for=\"provider\">SSL provider</label>\n  <select id=\"provider\" name=\"provider\">"@ + provider_options(facts.providers@, facts.provider@) + "</select>\n  <fieldset style=\"border:1px solid var(--m-line,#2a2f3a);border-radius:12px;padding:12px 14px;margin:12px 0;\">\n    <legend style=\"padding:0 6px;font-weight:700;font-size:13px;\">Certificate coverage</legend>\n    <label style=\"display:flex;gap:8px;align-items:flex-start;margin:8px 0;\">\n      <input type=\"radio\" name=\"coverage_mode\" value=\"wildcard\""@
}

#[verifier::rlimit(40)]
#[verifier::spinoff_prover]
fn push_provider_form_part0(out: &mut String, site: &SiteRecord, facts: &SslTabFacts)
    ensures
        final(out)@ == old(out)@ + provider_form_part0(site, facts),
{
    proof {
        reveal_strlit("");
    }
    let ghost start = out@;
    let shared: &str = match &facts.shared_owner {
        Some(o) => o.as_str(),
        None => "-",
    };
    let err = ssl_error_html(facts);
    let wild = if facts.wildcard { " checked" } else { "" };
    let san = if facts.san { " checked" } else { "" };
    let cert = if facts.has_material { "certificate material on disk" } else { "no certificate files found" };
    out.append("<div id=\"provider\"><h3>Provider for ");
    push_escaped(out, site.domain.as_str());
    out.append(" only</h3>\n<p class=\"manage-muted\">Changing this domain does not rewrite siblings. Subdomains inherit parent provider only at creation time.</p>\n<form method=\"post\" action=\"/security/ssl/provider\" class=\"stack-form\" style=\"max-width:520px;\">\n  <input type=\"hidden\" name=\"domain\" value=\"");
    push_escaped(out, site.domain.as_str());
    out.append("\">\n  <input type=\"hidden\" name=\"return\" value=\"/websites/manage?domain=");
    push_escaped(out, site.domain.as_str());
    out.append("&amp;tab=ssl\">\n  <label for=\"provider\">SSL provider</label>\n  <select id=\"provider\" name=\"provider\">");
    let opts = provider_options_html(&facts.providers, facts.provider.as_str());
    out.append(opts.as_str());
    out.append("</select>\n  <fieldset style=\"border:1px solid var(--m-line,#2a2f3a);border-radius:12px;padding:12px 14px;margin:12px 0;\">\n    <legend style=\"padding:0 6px;font-weight:700;font-size:13px;\">Certificate coverage</legend>\n    <label style=\"display:flex;gap:8px;align-items:flex-start;margin:8px 0;\">\n      <input type=\"radio\" name=\"coverage_mode\" value=\"wildcard\"");
    assert(out@ =~= start + provider_form_part0(site, facts));
}

pub open spec fn provider_form_part1(site: &SiteRecord, facts: &SslTabFacts) -> Seq<char> {
    (if facts.wildcard { " checked"@ } else { ""@ }) + ">\n      <span><strong>Wildcard</strong> (default): one cert for <code>"@ + html_escaped(site.domain@) + "</code> and <code>*."@ + html_escaped(site.domain@) + "</code>. Covers unlimited subdomains. Let's Encrypt / ZeroSSL need DNS-01 (Cloudflare token + certbot-dns-cloudflare).</span>\n    </label>\n    <label style=\"display:flex;gap:8px;align-items:flex-start;margin:8px 0;\">\n      <input type=\"radio\" name=\"coverage_mode\" value=\"san\""@ + (if facts.san { " checked"@ } else { ""@ }) + ">\n      <span><strong>SAN</strong>: one multi-name cert for this domain plus matching panel subdomains that share the same provider (listed FQDNs). HTTP-01 webroot is OK when DNS-01 is unavailable.</span>\n    </label>\n    <p class=\"manage-muted\" style=\"margin:8px 0 0;\">Wildcard suits many hostnames under one domain. SAN suits a fixed list of names (or several distinct hostnames) on one certificate.</p>\n  </fieldset>\n  <button type=\"submit\" class=\"manage-btn primary\">Save provider</button>\n</form>\n<p class=\"manage-muted\">Status: "@
}

#[verifier::rlimit(40)]
#[verifier::spinoff_prover]
fn push_provider_form_part1(out: &mut String, site: &SiteRecord, facts: &SslTabFacts)
    ensures
        final(out)@ == old(out)@ + provider_form_part1(site, facts),
{
    proof {
        reveal_strlit("");
    }
    let ghost start = out@;
    let shared: &str = match &facts.shared_owner {
        Some(o) => o.as_str(),
        None => "-",
    };
    let err = ssl_error_html(facts);
    let wild = if facts.wildcard { " checked" } else { "" };
    let san = if facts.san { " checked" } else { "" };
    let cert = if facts.has_material { "certificate material on disk" } else { "no certificate files found" };
    out.append(wild);
    out.append(">\n      <span><strong>Wildcard</strong> (default): one cert for <code>");
    push_escaped(out, site.domain.as_str());
    out.append("</code> and <code>*.");
    push_escaped(out, site.domain.as_str());
    out.append("</code>. Covers unlimited subdomains. Let's Encrypt / ZeroSSL need DNS-01 (Cloudflare token + certbot-dns-cloudflare).</span>\n    </label>\n    <label style=\"display:flex;gap:8px;align-items:flex-start;margin:8px 0;\">\n      <input type=\"radio\" name=\"coverage_mode\" value=\"san\"");
    out.append(san);
    out.append(">\n      <span><strong>SAN</strong>: one multi-name cert for this domain plus matching panel subdomains that share the same provider (listed FQDNs). HTTP-01 webroot is OK when DNS-01 is unavailable.</span>\n    </label>\n    <p class=\"manage-muted\" style=\"margin:8px 0 0;\">Wildcard suits many hostnames under one domain. SAN suits a fixed list of names (or several distinct hostnames) on one certificate.</p>\n  </fieldset>\n  <button type=\"submit\" class=\"manage-btn primary\">Save provider</button>\n</form>\n<p class=\"manage-muted\">Status: ");
    assert(out@ =~= start + provider_form_part1(site, facts));
}

pub open spec fn provider_form_part2(site: &SiteRecord, facts: &SslTabFacts) -> Seq<char> {
    (if facts.has_material { "certificate material on disk"@ } else { "no certificate files found"@ }) + ". Coverage: "@ + html_escaped(facts.coverage_label@) + ". Shared owner: "@ + html_escaped(shared_owner_text(facts)) + ".</p>"@ + ssl_error_note(facts) + "</div>"@
}

#[verifier::rlimit(40)]
#[verifier::spinoff_prover]
fn push_provider_form_part2(out: &mut String, site: &SiteRecord, facts: &SslTabFacts)
    ensures
        final(out)@ == old(out)@ + provider_form_part2(site, facts),
{
    proof {
        reveal_strlit("");
    }
    let ghost start = out@;
    let shared: &str = match &facts.shared_owner {
        Some(o) => o.as_str(),
        None => "-",
    };
    let err = ssl_error_html(facts);
    let wild = if facts.wildcard { " checked" } else { "" };
    let san = if facts.san { " checked" } else { "" };
    let cert = if facts.has_material { "certificate material on disk" } else { "no certificate files found" };
    out.append(cert);
    out.append(". Coverage: ");
    push_escaped(out, facts.coverage_label.as_str());
    out.append(". Shared owner: ");
    push_escaped(out, shared);
    out.append(".</p>");
    out.append(err.as_str());
    out.append("</div>");
    assert(out@ =~= start + provider_form_part2(site, facts));
}

pub open spec fn provider_form_spec(site: &SiteRecord, facts: &SslTabFacts) -> Seq<char> {
    provider_form_part0(site, facts) + provider_form_part1(site, facts) + provider_form_part2(site, facts)
}

fn push_provider_form(out: &mut String, site: &SiteRecord, facts: &SslTabFacts)
    ensures
        final(out)@ == old(out)@ + provider_form_spec(site, facts),
{
    let ghost start = out@;
    push_provider_form_part0(out, site, facts);
    push_provider_form_part1(out, site, facts);
    push_provider_form_part2(out, site, facts);
    assert(out@ =~= start + provider_form_spec(site, facts));
}

pub open spec fn issue_block_spec(site: &SiteRecord, facts: &SslTabFacts) -> Seq<char> {
    if facts.auto_issue {
        "<div id=\"issue\"><h3>Issue / Renew</h3>\n<form method=\"post\" action=\"/security/ssl/issue\">\n  <input type=\"hidden\" name=\"domain\" value=\""@ + html_escaped(site.domain@) + "\">\n  <input type=\"hidden\" name=\"return\" value=\"/websites/manage?domain="@ + html_escaped(site.domain@) + "&amp;tab=ssl\">\n  <button type=\"submit\" class=\"manage-btn primary\">Issue / Renew ("@ + html_escaped(facts.provider_label@) + ")</button>\n</form>\n<p class=\"manage-muted\">certbot available: "@ + (if facts.certbot { "yes"@ } else { "no"@ }) + ". Wildcard uses DNS-01 when required. Honest errors on rate limits or missing public DNS.</p></div>"@
    } else {
        "<div id=\"issue\"><h3>Issue / Renew</h3>\n<p class=\"manage-muted\">Provider <strong>"@ + html_escaped(facts.provider_label@) + "</strong> does not auto-issue. Choose Let's Encrypt, ZeroSSL, or Cloudflare CA, or upload Custom SSL.</p></div>"@
    }
}

#[verifier::rlimit(60)]
#[verifier::spinoff_prover]
fn push_issue_block(out: &mut String, site: &SiteRecord, facts: &SslTabFacts)
    ensures
        final(out)@ == old(out)@ + issue_block_spec(site, facts),
{
    let ghost start = out@;
    if facts.auto_issue {
        out.append("<div id=\"issue\"><h3>Issue / Renew</h3>\n<form method=\"post\" action=\"/security/ssl/issue\">\n  <input type=\"hidden\" name=\"domain\" value=\"");
        push_escaped(out, site.domain.as_str());
        out.append("\">\n  <input type=\"hidden\" name=\"return\" value=\"/websites/manage?domain=");
        push_escaped(out, site.domain.as_str());
        out.append("&amp;tab=ssl\">\n  <button type=\"submit\" class=\"manage-btn primary\">Issue / Renew (");
        push_escaped(out, facts.provider_label.as_str());
        out.append(")</button>\n</form>\n<p class=\"manage-muted\">certbot available: ");
        out.append(if facts.certbot { "yes" } else { "no" });
        out.append(". Wildcard uses DNS-01 when required. Honest errors on rate limits or missing public DNS.</p></div>");
    } else {
        out.append("<div id=\"issue\"><h3>Issue / Renew</h3>\n<p class=\"manage-muted\">Provider <strong>");
        push_escaped(out, facts.provider_label.as_str());
        out.append("</strong> does not auto-issue. Choose Let's Encrypt, ZeroSSL, or Cloudflare CA, or upload Custom SSL.</p></div>");
    }
    assert(out@ =~= start + issue_block_spec(site, facts));
}

pub open spec fn manual_block_spec(site: &SiteRecord) -> Seq<char> {
    "<div id=\"manual\"><h3>Custom SSL upload</h3>\n<p class=\"manage-muted\">Uploading sets this domain to Custom and leaves any shared SAN. Keys stored under <code>/var/lib/cpn/ssl/"@ + html_escaped(site.domain@) + "/</code> mode 600.</p>\n<form method=\"post\" action=\"/security/ssl/upload\" class=\"stack-form\" style=\"max-width:640px;\">\n  <input type=\"hidden\" name=\"domain\" value=\""@ + html_escaped(site.domain@) + "\">\n  <input type=\"hidden\" name=\"return\" value=\"/websites/manage?domain="@ + html_escaped(site.domain@) + "&amp;tab=ssl\">\n  <label for=\"cert_pem\">Certificate PEM (fullchain)</label>\n  <textarea id=\"cert_pem\" name=\"cert_pem\" rows=\"6\" style=\"width:100%;font:inherit;\" required></textarea>\n  <label for=\"key_pem\">Private key PEM</label>\n  <textarea id=\"key_pem\" name=\"key_pem\" rows=\"6\" style=\"width:100%;font:inherit;\" required></textarea>\n  <button type=\"submit\" class=\"manage-btn primary\">Upload custom SSL</button>\n</form></div>"@
}

#[verifier::rlimit(60)]
#[verifier::spinoff_prover]
fn push_manual_block(out: &mut String, site: &SiteRecord)
    ensures
        final(out)@ == old(out)@ + manual_block_spec(site),
{
    let ghost start = out@;
    out.append("<div id=\"manual\"><h3>Custom SSL upload</h3>\n<p class=\"manage-muted\">Uploading sets this domain to Custom and leaves any shared SAN. Keys stored under <code>/var/lib/cpn/ssl/");
    push_escaped(out, site.domain.as_str());
    out.append("/</code> mode 600.</p>\n<form method=\"post\" action=\"/security/ssl/upload\" class=\"stack-form\" style=\"max-width:640px;\">\n  <input type=\"hidden\" name=\"domain\" value=\"");
    push_escaped(out, site.domain.as_str());
    out.append("\">\n  <input type=\"hidden\" name=\"return\" value=\"/websites/manage?domain=");
    push_escaped(out, site.domain.as_str());
    out.append("&amp;tab=ssl\">\n  <label for=\"cert_pem\">Certificate PEM (fullchain)</label>\n  <textarea id=\"cert_pem\" name=\"cert_pem\" rows=\"6\" style=\"width:100%;font:inherit;\" required></textarea>\n  <label for=\"key_pem\">Private key PEM</label>\n  <textarea id=\"key_pem\" name=\"key_pem\" rows=\"6\" style=\"width:100%;font:inherit;\" required></textarea>\n  <button type=\"submit\" class=\"manage-btn primary\">Upload custom SSL</button>\n</form></div>");
    assert(out@ =~= start + manual_block_spec(site));
}

pub open spec fn ssl_tiles_spec(site: &SiteRecord, facts: &SslTabFacts) -> Seq<char> {
    "<div class=\"manage-tile-grid\">"@ + tile_spec(
        "/websites/manage?domain="@ + html_escaped(site.domain@) + "&tab=ssl#provider"@,
        "SSL provider"@,
        facts.provider_label@,
    ) + tile_spec("/security/ssl"@, "Manage SSL (all sites)"@, "Per-domain providers; no account-wide rewrite"@)
        + tile_spec(
        "/websites/manage?domain="@ + html_escaped(site.domain@) + "&tab=ssl#manual"@,
        "Custom upload"@,
        "PEM cert + key (no auto-renew)"@,
    ) + "</div>"@
}

/// The SSL tab: tools, the provider and coverage form, issue/renew, and custom upload.
pub open spec fn tab_ssl_spec(site: &SiteRecord, facts: &SslTabFacts) -> Seq<char> {
    section_spec("SSL"@, ssl_tiles_spec(site, facts)) + provider_form_spec(site, facts) + issue_block_spec(site, facts)
        + manual_block_spec(site)
}

#[verifier::rlimit(60)]
#[verifier::spinoff_prover]
pub fn tab_ssl(site: &SiteRecord, facts: &SslTabFacts) -> (r: String)
    ensures
        r@ == tab_ssl_spec(site, facts),
{
    let mut dq = String::new();
    push_escaped(&mut dq, site.domain.as_str());
    let mut tiles = "<div class=\"manage-tile-grid\">".to_owned();
    let mut h1 = "/websites/manage?domain=".to_owned();
    h1.append(dq.as_str());
    h1.append("&tab=ssl#provider");
    let t1 = tile(h1.as_str(), "SSL provider", facts.provider_label.as_str());
    tiles.append(t1.as_str());
    let t2 = tile("/security/ssl", "Manage SSL (all sites)", "Per-domain providers; no account-wide rewrite");
    tiles.append(t2.as_str());
    let mut h3 = "/websites/manage?domain=".to_owned();
    h3.append(dq.as_str());
    h3.append("&tab=ssl#manual");
    let t3 = tile(h3.as_str(), "Custom upload", "PEM cert + key (no auto-renew)");
    tiles.append(t3.as_str());
    tiles.append("</div>");
    proof {
        assert(h1@ =~= "/websites/manage?domain="@ + dq@ + "&tab=ssl#provider"@);
        assert(h3@ =~= "/websites/manage?domain="@ + dq@ + "&tab=ssl#manual"@);
        assert(tiles@ =~= ssl_tiles_spec(site, facts));
    }
    let mut out = section("SSL", tiles.as_str());
    push_provider_form(&mut out, site, facts);
    push_issue_block(&mut out, site, facts);
    push_manual_block(&mut out, site);
    out
}

/// The script that refreshes the Overview charts and opens the metric dialog.
pub const OVERVIEW_METRICS_SCRIPT: &'static str = "<script>\n(function () {\n  var root = document.querySelector(\".manage-charts[data-metrics-domain]\");\n  if (!root) return;\n  var domain = root.getAttribute(\"data-metrics-domain\") || \"\";\n  var pollMs = parseInt(root.getAttribute(\"data-metrics-poll\") || \"10000\", 10);\n  var dialog = document.getElementById(\"manage-metric-dialog\");\n  var titleEl = document.getElementById(\"manage-metric-dialog-title\");\n  var summaryEl = document.getElementById(\"manage-metric-dialog-summary\");\n  var svgEl = document.getElementById(\"manage-metric-dialog-svg\");\n  var statsEl = document.getElementById(\"manage-metric-dialog-stats\");\n  var lastPayload = null;\n\n  function pct(v) {\n    return (v === null || v === undefined) ? \"n/a\" : (Math.round(v) + \"%\");\n  }\n\n  function applyPayload(data) {\n    lastPayload = data;\n    if (!data || !data.ok) return;\n    [\"cpu\", \"mem\"].forEach(function (kind) {\n      var block = data[kind];\n      if (!block) return;\n      var cur = root.querySelector('[data-metric-current=\"' + kind + '\"]');\n      var avg = root.querySelector('[data-metric-avg=\"' + kind + '\"]');\n      var peak = root.querySelector('[data-metric-peak=\"' + kind + '\"]');\n      var svgWrap = root.querySelector('[data-metric-svg=\"' + kind + '\"]');\n      if (cur) cur.textContent = pct(block.current);\n      if (avg) avg.textContent = pct(block.avg);\n      if (peak) peak.textContent = pct(block.peak);\n      if (svgWrap && block.svg) svgWrap.innerHTML = block.svg;\n    });\n    var bwHint = document.querySelector(\".manage-stat-hint\");\n    if (data.bandwidth && bwHint) {\n      var card = bwHint.closest(\".manage-stat\");\n      if (card) {\n        var strong = card.querySelector(\"strong\");\n        if (strong && data.bandwidth.label) strong.textContent = data.bandwidth.label;\n      }\n      if (data.bandwidth.hint) {\n        bwHint.textContent = data.bandwidth.hint;\n        if (card) card.setAttribute(\"title\", data.bandwidth.hint);\n      }\n    }\n  }\n\n  function openMetric(kind) {\n    if (!dialog || !lastPayload || !lastPayload[kind]) return;\n    var block = lastPayload[kind];\n    var name = kind === \"mem\" ? \"Memory Usage (host)\" : \"CPU Usage (host)\";\n    if (titleEl) titleEl.textContent = name;\n    if (summaryEl) {\n      summaryEl.textContent = (lastPayload.detail || \"Host live metrics.\") +\n        \" Window: last \" + Math.round((lastPayload.window_seconds || 900) / 60) + \" minutes.\";\n    }\n    if (svgEl) svgEl.innerHTML = block.svg || \"\";\n    if (statsEl) {\n      statsEl.innerHTML =\n        \"<li>Current: <strong>\" + pct(block.current) + \"</strong></li>\" +\n        \"<li>Average: <strong>\" + pct(block.avg) + \"</strong></li>\" +\n        \"<li>Peak: <strong>\" + pct(block.peak) + \"</strong></li>\" +\n        \"<li>Samples: <strong>\" + ((lastPayload.samples && lastPayload.samples.length) || 0) + \"</strong></li>\";\n    }\n    if (typeof dialog.showModal === \"function\") dialog.showModal();\n  }\n\n  function poll() {\n    fetch(\"/api/websites/manage/metrics?domain=\" + encodeURIComponent(domain), {\n      credentials: \"same-origin\",\n      headers: { \"Accept\": \"application/json\" }\n    }).then(function (r) { return r.json(); }).then(applyPayload).catch(function () {});\n  }\n\n  root.querySelectorAll(\".manage-chart-btn\").forEach(function (btn) {\n    btn.addEventListener(\"click\", function () {\n      openMetric(btn.getAttribute(\"data-metric\") || \"cpu\");\n    });\n  });\n\n  poll();\n  if (pollMs > 0) setInterval(poll, pollMs);\n})();\n</script>";

pub fn overview_metrics_script() -> (r: &'static str)
    ensures
        r@ == OVERVIEW_METRICS_SCRIPT@,
{
    OVERVIEW_METRICS_SCRIPT
}

/// A resource card with a hint line (and tooltip).
pub open spec fn resource_card_with_hint_spec(label: Seq<char>, value: Seq<char>, hint: Seq<char>) -> Seq<char> {
    "<div class=\"manage-stat\" title=\""@ + html_escaped(hint) + "\"><span>"@ + html_escaped(label) + "</span><strong>"@ + html_escaped(value) + "</strong><em class=\"manage-stat-hint\">"@ + html_escaped(hint) + "</em>"@ + ""@ + "</div>"@
}

#[verifier::rlimit(60)]
#[verifier::spinoff_prover]
fn resource_card_with_hint(label: &str, value: &str, hint: &str) -> (r: String)
    ensures
        r@ == resource_card_with_hint_spec(label@, value@, hint@),
{
    proof {
        reveal_strlit("");
    }
    let mut out = "<div class=\"manage-stat\" title=\"".to_owned();
    push_escaped(&mut out, hint);
    out.append("\"><span>");
    push_escaped(&mut out, label);
    out.append("</span><strong>");
    push_escaped(&mut out, value);
    out.append("</strong><em class=\"manage-stat-hint\">");
    push_escaped(&mut out, hint);
    out.append("</em>");
    out.append("");
    out.append("</div>");
    assert(out@ =~= resource_card_with_hint_spec(label@, value@, hint@));
    out
}

/// The Overview's figures, already formatted: disk usage (and how full the 10 GB soft quota
/// is), bandwidth, database and FTP counts, host CPU and memory (current, average, peak)
/// with their chart markup, the detected stack, whether the document root is a legacy one,
/// and the SSL state.
pub struct OverviewFacts {
    pub disk: String,
    pub disk_pct: u8,
    pub bandwidth_label: String,
    pub bandwidth_hint: String,
    /// How many databases the database listing returned, and its detail line.
    pub database_count: usize,
    pub database_detail: String,
    /// Whether an FTP server is set up on the host.
    pub ftp_ready: bool,
    pub cpu: String,
    pub cpu_avg: String,
    pub cpu_peak: String,
    pub mem: String,
    pub mem_avg: String,
    pub mem_peak: String,
    pub cpu_svg: String,
    pub mem_svg: String,
    pub stack: String,
    pub legacy_docroot: bool,
    pub ssl: SslInsight,
}

/// The Databases card: the count, or "n/a" when nothing was listed and the listing does
/// not say where it looked ("Listed via").
pub open spec fn database_label_spec(count: usize, detail: Seq<char>) -> Seq<char> {
    if count == 0 && !crate::text::contains_seq(detail, "Listed via"@) {
        "n/a"@
    } else {
        dec(count as nat)
    }
}

pub fn database_label(count: usize, detail: &str) -> (r: String)
    ensures
        r@ == database_label_spec(count, detail@),
{
    if count == 0 && !crate::text::contains_str(detail, "Listed via") {
        "n/a".to_owned()
    } else {
        crate::text::dec_string(count as u64)
    }
}

/// The FTP Accounts card: a pointer to the FTP hub when FTP is set up, else 0.
pub open spec fn ftp_label_spec(ready: bool) -> Seq<char> {
    if ready {
        "See FTP hub"@
    } else {
        "0"@
    }
}

pub fn ftp_label(ready: bool) -> (r: &'static str)
    ensures
        r@ == ftp_label_spec(ready),
{
    if ready {
        "See FTP hub"
    } else {
        "0"
    }
}

pub open spec fn overview_cards_spec(f: &OverviewFacts) -> Seq<char> {
    "<div class=\"manage-card-grid\">"@ + resource_card_spec("Disk Usage"@, f.disk@, Some(f.disk_pct))
        + resource_card_with_hint_spec("Bandwidth"@, f.bandwidth_label@, f.bandwidth_hint@) + resource_card_spec(
        "Databases"@,
        database_label_spec(f.database_count, f.database_detail@),
        None,
    ) + resource_card_spec("FTP Accounts"@, ftp_label_spec(f.ftp_ready), None) + "</div>"@
}

pub open spec fn overview_charts_spec(site: &SiteRecord, f: &OverviewFacts) -> Seq<char> {
    "<div class=\"manage-charts\" data-metrics-domain=\""@ + html_escaped(site.domain@) + "\" data-metrics-poll=\"10000\">\n  <button type=\"button\" class=\"manage-chart manage-chart-btn\" data-metric=\"cpu\" aria-haspopup=\"dialog\">\n    <h3>CPU Usage (host)</h3>\n    <p class=\"manage-chart-summary\">Live host load: <strong data-metric-current=\"cpu\">"@ + html_escaped(f.cpu@) + "</strong>. Avg <span data-metric-avg=\"cpu\">"@ + html_escaped(f.cpu_avg@) + "</span>, peak <span data-metric-peak=\"cpu\">"@ + html_escaped(f.cpu_peak@) + "</span>. Not per-site. Tap for details.</p>\n    <div class=\"manage-chart-svg\" data-metric-svg=\"cpu\">"@ + f.cpu_svg@ + "</div>\n  </button>\n  <button type=\"button\" class=\"manage-chart manage-chart-btn\" data-metric=\"mem\" aria-haspopup=\"dialog\">\n    <h3>Memory Usage (host)</h3>\n    <p class=\"manage-chart-summary\">Live host memory: <strong data-metric-current=\"mem\">"@ + html_escaped(f.mem@) + "</strong>. Avg <span data-metric-avg=\"mem\">"@ + html_escaped(f.mem_avg@) + "</span>, peak <span data-metric-peak=\"mem\">"@ + html_escaped(f.mem_peak@) + "</span>. Tap for details.</p>\n    <div class=\"manage-chart-svg\" data-metric-svg=\"mem\">"@ + f.mem_svg@ + "</div>\n  </button>\n</div>\n<dialog class=\"manage-metric-dialog\" id=\"manage-metric-dialog\">\n  <form method=\"dialog\" class=\"manage-metric-dialog-inner\">\n    <header>\n      <h2 id=\"manage-metric-dialog-title\">Host metrics</h2>\n      <button type=\"submit\" class=\"manage-btn\" value=\"close\">Close</button>\n    </header>\n    <p id=\"manage-metric-dialog-summary\" class=\"manage-muted\"></p>\n    <div id=\"manage-metric-dialog-svg\"></div>\n    <ul id=\"manage-metric-dialog-stats\" class=\"manage-metric-stats\"></ul>\n  </form>\n</dialog>\n"@ + OVERVIEW_METRICS_SCRIPT@
}

#[verifier::rlimit(60)]
#[verifier::spinoff_prover]
fn push_overview_charts(out: &mut String, site: &SiteRecord, f: &OverviewFacts)
    ensures
        final(out)@ == old(out)@ + overview_charts_spec(site, f),
{
    let ghost start = out@;
    out.append("<div class=\"manage-charts\" data-metrics-domain=\"");
    push_escaped(out, site.domain.as_str());
    out.append("\" data-metrics-poll=\"10000\">\n  <button type=\"button\" class=\"manage-chart manage-chart-btn\" data-metric=\"cpu\" aria-haspopup=\"dialog\">\n    <h3>CPU Usage (host)</h3>\n    <p class=\"manage-chart-summary\">Live host load: <strong data-metric-current=\"cpu\">");
    push_escaped(out, f.cpu.as_str());
    out.append("</strong>. Avg <span data-metric-avg=\"cpu\">");
    push_escaped(out, f.cpu_avg.as_str());
    out.append("</span>, peak <span data-metric-peak=\"cpu\">");
    push_escaped(out, f.cpu_peak.as_str());
    out.append("</span>. Not per-site. Tap for details.</p>\n    <div class=\"manage-chart-svg\" data-metric-svg=\"cpu\">");
    out.append(f.cpu_svg.as_str());
    out.append("</div>\n  </button>\n  <button type=\"button\" class=\"manage-chart manage-chart-btn\" data-metric=\"mem\" aria-haspopup=\"dialog\">\n    <h3>Memory Usage (host)</h3>\n    <p class=\"manage-chart-summary\">Live host memory: <strong data-metric-current=\"mem\">");
    push_escaped(out, f.mem.as_str());
    out.append("</strong>. Avg <span data-metric-avg=\"mem\">");
    push_escaped(out, f.mem_avg.as_str());
    out.append("</span>, peak <span data-metric-peak=\"mem\">");
    push_escaped(out, f.mem_peak.as_str());
    out.append("</span>. Tap for details.</p>\n    <div class=\"manage-chart-svg\" data-metric-svg=\"mem\">");
    out.append(f.mem_svg.as_str());
    out.append("</div>\n  </button>\n</div>\n<dialog class=\"manage-metric-dialog\" id=\"manage-metric-dialog\">\n  <form method=\"dialog\" class=\"manage-metric-dialog-inner\">\n    <header>\n      <h2 id=\"manage-metric-dialog-title\">Host metrics</h2>\n      <button type=\"submit\" class=\"manage-btn\" value=\"close\">Close</button>\n    </header>\n    <p id=\"manage-metric-dialog-summary\" class=\"manage-muted\"></p>\n    <div id=\"manage-metric-dialog-svg\"></div>\n    <ul id=\"manage-metric-dialog-stats\" class=\"manage-metric-stats\"></ul>\n  </form>\n</dialog>\n");
    out.append(OVERVIEW_METRICS_SCRIPT);
    assert(out@ =~= start + overview_charts_spec(site, f));
}

/// The engine as shown: the recorded one when not empty, else `Not set`.
pub open spec fn engine_label(site: &SiteRecord) -> Seq<char> {
    match site.engine {
        Some(e) => if e@.len() > 0 { e@ } else { "Not set"@ },
        None => "Not set"@,
    }
}

fn engine_text(site: &SiteRecord) -> (r: &str)
    ensures
        r@ == engine_label(site),
{
    match &site.engine {
        Some(e) => if !e.as_str().is_empty() { e.as_str() } else { "Not set" },
        None => "Not set",
    }
}

/// The internal address note, when the site has a non-blank one.
pub open spec fn internal_ip_note(site: &SiteRecord) -> Seq<char> {
    match site.internal_ip {
        Some(ip) => if trim(ip@).len() > 0 {
            " · Internal IP: <code>"@ + html_escaped(trim(ip@)) + "</code>"@
        } else {
            ""@
        },
        None => ""@,
    }
}

#[verifier::rlimit(60)]
#[verifier::spinoff_prover]
fn push_internal_ip_note(out: &mut String, site: &SiteRecord)
    ensures
        final(out)@ == old(out)@ + internal_ip_note(site),
{
    proof {
        reveal_strlit("");
    }
    let ghost start = out@;
    match &site.internal_ip {
        Some(ip) => {
            let t = trim_str(ip.as_str());
            if !t.as_str().is_empty() {
                out.append(" · Internal IP: <code>");
                push_escaped(out, t.as_str());
                out.append("</code>");
            }
        },
        None => {},
    }
    assert(out@ =~= start + internal_ip_note(site));
}

pub open spec fn overview_meta_spec(site: &SiteRecord, f: &OverviewFacts) -> Seq<char> {
    "<p class=\"manage-muted\">Owner: <strong>"@ + html_escaped(site.owner@) + "</strong> · Docroot: <code>"@ + html_escaped(site.docroot@) + "</code> · Home: <code>"@ + html_escaped(site.home@) + "</code> · Engine: "@ + html_escaped(engine_label(site)) + " · Stack: "@ + html_escaped(f.stack@) + internal_ip_note(site) + "</p>"@ + (if f.legacy_docroot { "<p class=\"manage-muted\">This site uses a legacy or custom document root. New sites use the domain home under <code>/home/</code>.</p>"@ } else { ""@ })
}

#[verifier::rlimit(60)]
#[verifier::spinoff_prover]
fn push_overview_meta(out: &mut String, site: &SiteRecord, f: &OverviewFacts)
    ensures
        final(out)@ == old(out)@ + overview_meta_spec(site, f),
{
    proof {
        reveal_strlit("");
    }
    let ghost start = out@;
    out.append("<p class=\"manage-muted\">Owner: <strong>");
    push_escaped(out, site.owner.as_str());
    out.append("</strong> · Docroot: <code>");
    push_escaped(out, site.docroot.as_str());
    out.append("</code> · Home: <code>");
    push_escaped(out, site.home.as_str());
    out.append("</code> · Engine: ");
    let engine = engine_text(site);
    push_escaped(out, engine);
    out.append(" · Stack: ");
    push_escaped(out, f.stack.as_str());
    push_internal_ip_note(out, site);
    out.append("</p>");
    out.append(if f.legacy_docroot { "<p class=\"manage-muted\">This site uses a legacy or custom document root. New sites use the domain home under <code>/home/</code>.</p>" } else { "" });
    assert(out@ =~= start + overview_meta_spec(site, f));
}

/// The Overview tab: resource cards, the SSL card, the host charts and the site facts.
pub open spec fn tab_overview_spec(site: &SiteRecord, f: &OverviewFacts) -> Seq<char> {
    overview_cards_spec(f) + ssl_status_card_spec(site, &f.ssl) + overview_charts_spec(site, f) + overview_meta_spec(site, f)
}

#[verifier::rlimit(60)]
#[verifier::spinoff_prover]
pub fn tab_overview(site: &SiteRecord, f: &OverviewFacts) -> (r: String)
    ensures
        r@ == tab_overview_spec(site, f),
{
    let mut out = "<div class=\"manage-card-grid\">".to_owned();
    let c1 = resource_card("Disk Usage", f.disk.as_str(), Some(f.disk_pct));
    out.append(c1.as_str());
    let c2 = resource_card_with_hint("Bandwidth", f.bandwidth_label.as_str(), f.bandwidth_hint.as_str());
    out.append(c2.as_str());
    let dbs = database_label(f.database_count, f.database_detail.as_str());
    let c3 = resource_card("Databases", dbs.as_str(), None);
    out.append(c3.as_str());
    let c4 = resource_card("FTP Accounts", ftp_label(f.ftp_ready), None);
    out.append(c4.as_str());
    out.append("</div>");
    assert(out@ =~= overview_cards_spec(f));
    let s = ssl_status_card(site, &f.ssl);
    out.append(s.as_str());
    push_overview_charts(&mut out, site, f);
    push_overview_meta(&mut out, site, f);
    out
}

} // verus!
