//! Create Website: which domain a submission asks for (free text, or a Cloudflare zone with
//! an optional subdomain) and whether it lies under one of the operator's Cloudflare zones.

use vstd::prelude::*;
use vstd::string::*;
use crate::site::{normalize_domain, normalize_domain_spec};
use crate::text::{chars_of, eq_ignore_case, eq_ignore_case_str, html_escaped, lower_str, push_escaped, to_lower, trim, trim_str};

verus! {

/// The FQDN (trimmed, lower-cased) equals the zone or ends with `.zone`.
pub open spec fn under_zone_spec(domain: Seq<char>, zone: Seq<char>) -> bool {
    let d = to_lower(trim(domain));
    let z = to_lower(trim(zone));
    d.len() > 0 && z.len() > 0 && (d == z || ("."@ + z).is_suffix_of(d))
}

/// True when the FQDN equals a zone or is a subdomain under it.
pub fn domain_under_cloudflare_zone(domain: &str, zone: &str) -> (r: bool)
    ensures
        r == under_zone_spec(domain@, zone@),
{
    let dt = trim_str(domain);
    let d = lower_str(dt.as_str());
    let zt = trim_str(zone);
    let z = lower_str(zt.as_str());
    if d.as_str().is_empty() || z.as_str().is_empty() {
        return false;
    }
    let mut dz = ".".to_owned();
    dz.append(z.as_str());
    crate::text::str_eq(d.as_str(), z.as_str()) || crate::text::ends_with_str(d.as_str(), dz.as_str())
}

/// `s.trim_matches('.')`.
pub open spec fn trim_dots(s: Seq<char>) -> Seq<char> {
    crate::text::strip_trailing(crate::text::strip_leading(s, '.'), '.')
}

/// The domain a Cloudflare-mode submission names, before normalising: the zone alone when
/// no subdomain is given; the subdomain when it already is the zone or under it; else
/// `subdomain.zone` (both trimmed and lower-cased, the subdomain without outer dots).
pub open spec fn cf_candidate_spec(zone: Seq<char>, sub: Seq<char>) -> Seq<char> {
    let z = to_lower(trim(zone));
    let s = to_lower(trim_dots(trim(sub)));
    if s.len() == 0 {
        z
    } else if s == z || ("."@ + z).is_suffix_of(s) {
        s
    } else {
        s + "."@ + z
    }
}

/// The domain a Create Website submission asks for: in Cloudflare mode a zone is required,
/// the candidate (see `cf_candidate_spec`) is normalised and must lie under the zone;
/// otherwise the free-text domain is normalised.
pub open spec fn resolve_create_spec(
    domain_raw: Seq<char>,
    cf_zone: Seq<char>,
    cf_subdomain: Seq<char>,
    cloudflare_mode: bool,
) -> Result<Seq<char>, Seq<char>> {
    if cloudflare_mode {
        let zone = to_lower(trim(cf_zone));
        if zone.len() == 0 {
            Err("Select a Cloudflare zone (domain)"@)
        } else {
            match normalize_domain_spec(cf_candidate_spec(cf_zone, cf_subdomain)) {
                Err(e) => Err(e),
                Ok(d) => if under_zone_spec(d, zone) {
                    Ok(d)
                } else {
                    Err("Domain must be the selected Cloudflare zone or a subdomain under it"@)
                },
            }
        }
    } else {
        normalize_domain_spec(domain_raw)
    }
}

fn trim_dots_str(s: &str) -> (r: String)
    ensures
        r@ == trim_dots(s@),
{
    let v = chars_of(s);
    let a = crate::text::strip_leading_start(&v, 0, v.len(), '.');
    assert(v@.subrange(0, v.len() as int) =~= v@);
    let rest = crate::text::vec_range(&v, a, v.len());
    let e = crate::text::strip_trailing_end(&rest, '.');
    crate::text::string_of_range(&rest, 0, e)
}

fn cf_candidate(zone: &str, sub: &str) -> (r: String)
    ensures
        r@ == cf_candidate_spec(zone@, sub@),
{
    let zt = trim_str(zone);
    let z = lower_str(zt.as_str());
    let st = trim_str(sub);
    let sd = trim_dots_str(st.as_str());
    let s = lower_str(sd.as_str());
    if s.as_str().is_empty() {
        return z;
    }
    let mut dz = ".".to_owned();
    dz.append(z.as_str());
    if crate::text::str_eq(s.as_str(), z.as_str()) || crate::text::ends_with_str(s.as_str(), dz.as_str()) {
        return s;
    }
    let mut out = s;
    out.append(".");
    out.append(z.as_str());
    out
}

/// Resolve the submitted domain from free text or a Cloudflare zone and optional subdomain.
pub fn resolve_create_domain(
    domain_raw: &str,
    cf_zone: &str,
    cf_subdomain: &str,
    cloudflare_mode: bool,
) -> (r: Result<String, String>)
    ensures
        r is Ok <==> resolve_create_spec(domain_raw@, cf_zone@, cf_subdomain@, cloudflare_mode) is Ok,
        r matches Ok(d) ==> resolve_create_spec(domain_raw@, cf_zone@, cf_subdomain@, cloudflare_mode)
            == Ok::<Seq<char>, Seq<char>>(d@),
        r matches Err(e) ==> resolve_create_spec(domain_raw@, cf_zone@, cf_subdomain@, cloudflare_mode)
            == Err::<Seq<char>, Seq<char>>(e@),
{
    if cloudflare_mode {
        let zt = trim_str(cf_zone);
        let zone = lower_str(zt.as_str());
        if zone.as_str().is_empty() {
            return Err("Select a Cloudflare zone (domain)".to_owned());
        }
        let combined = cf_candidate(cf_zone, cf_subdomain);
        let domain = match normalize_domain(combined.as_str()) {
            Ok(d) => d,
            Err(e) => return Err(e),
        };
        if !domain_under_cloudflare_zone(domain.as_str(), zone.as_str()) {
            return Err("Domain must be the selected Cloudflare zone or a subdomain under it".to_owned());
        }
        proof {
            crate::text::lemma_lower_trim_idempotent(cf_zone@);
        }
        return Ok(domain);
    }
    normalize_domain(domain_raw)
}

/// With Cloudflare credentials, a new site's domain must lie under one of the zones the
/// caller listed (or listing them failed with `Err`); without them, any domain is allowed.
pub open spec fn zones_check_spec(
    domain: Seq<char>,
    configured: bool,
    zones: Result<Seq<Seq<char>>, Seq<char>>,
) -> Result<(), Seq<char>> {
    if !configured {
        Ok(())
    } else {
        match zones {
            Err(e) => Err("Cloudflare is connected but zones could not be listed: "@ + e),
            Ok(zs) => if zs.len() == 0 {
                Err("Cloudflare is connected but no active zones were found. Add a zone in Cloudflare first."@)
            } else if exists|k: int| 0 <= k < zs.len() && under_zone_spec(domain, #[trigger] zs[k]) {
                Ok(())
            } else {
                Err("Domain `"@ + domain + "` is not under an accessible Cloudflare zone. Pick a zone from Create Website."@)
            },
        }
    }
}

pub open spec fn zones_view(zones: &Result<Vec<String>, String>) -> Result<Seq<Seq<char>>, Seq<char>> {
    match zones {
        Ok(v) => Ok(crate::text::string_views(v@)),
        Err(e) => Err(e@),
    }
}

/// Enforce the Cloudflare zone allowlist when the operator has Cloudflare credentials.
pub fn require_domain_in_cloudflare_zones(
    domain: &str,
    configured: bool,
    zones: &Result<Vec<String>, String>,
) -> (r: Result<(), String>)
    ensures
        match r {
            Ok(()) => zones_check_spec(domain@, configured, zones_view(zones)) is Ok,
            Err(e) => zones_check_spec(domain@, configured, zones_view(zones)) == Err::<(), Seq<char>>(e@),
        },
{
    if !configured {
        return Ok(());
    }
    match zones {
        Err(e) => {
            let mut m = "Cloudflare is connected but zones could not be listed: ".to_owned();
            m.append(e.as_str());
            Err(m)
        },
        Ok(zs) => {
            if zs.len() == 0 {
                return Err(
                    "Cloudflare is connected but no active zones were found. Add a zone in Cloudflare first.".to_owned(),
                );
            }
            let mut k: usize = 0;
            while k < zs.len()
                invariant
                    k <= zs.len(),
                    configured,
                    zs.len() > 0,
                    zones_view(zones) == Ok::<Seq<Seq<char>>, Seq<char>>(crate::text::string_views(zs@)),
                    forall|j: int| 0 <= j < k ==> !under_zone_spec(domain@, #[trigger] crate::text::string_views(zs@)[j]),
                decreases zs.len() - k,
            {
                if domain_under_cloudflare_zone(domain, zs[k].as_str()) {
                    assert(under_zone_spec(domain@, crate::text::string_views(zs@)[k as int]));
                    return Ok(());
                }
                k += 1;
            }
            let mut m = "Domain `".to_owned();
            m.append(domain);
            m.append("` is not under an accessible Cloudflare zone. Pick a zone from Create Website.");
            Err(m)
        },
    }
}



pub open spec fn zone_option(z: Seq<char>) -> Seq<char> {
    "<option value=\""@ + html_escaped(z) + "\">"@ + html_escaped(z) + "</option>"@
}

pub open spec fn zone_options(zs: Seq<Seq<char>>) -> Seq<char>
    decreases zs.len(),
{
    if zs.len() == 0 {
        "<option value=\"\">Select Cloudflare zone…</option>"@
    } else {
        zone_options(zs.drop_last()) + zone_option(zs.last())
    }
}

/// The domain fields: in Cloudflare mode a zone picker (disabled when there are no zones,
/// with the zone error when there is one) and a subdomain field; otherwise a domain field.
pub open spec fn domain_fields_spec(cloudflare_mode: bool, zones: Seq<Seq<char>>, zone_error: Option<Seq<char>>) -> Seq<char> {
    if cloudflare_mode {
        let err = match zone_error {
            Some(e) => "<p class=\"panel-notice error\" role=\"status\">"@ + html_escaped(e) + "</p>"@,
            None => ""@,
        };
        let empty_hint = if zones.len() == 0 { "<p class=\"muted\">No active Cloudflare zones returned. Add a zone in Cloudflare, then reload this page.</p>"@ } else { ""@ };
        let disabled = if zones.len() == 0 { "disabled"@ } else { ""@ };
        let options = zone_options(zones);
        "<p class=\"muted\"><strong>DNS mode:</strong> Cloudflare connected. Domain must be one of your Cloudflare zones (or a subdomain under that zone).</p>\n          "@ + err + "\n          "@ + empty_hint + "\n          <label for=\"cf_zone\">Cloudflare zone</label>\n          <select id=\"cf_zone\" name=\"cf_zone\" required "@ + disabled + ">\n            "@ + options + "\n          </select>\n          <label for=\"cf_subdomain\">Subdomain (optional)</label>\n          <input id=\"cf_subdomain\" name=\"cf_subdomain\" type=\"text\" placeholder=\"blog\" autocomplete=\"off\" "@ + disabled + ">\n          <p class=\"muted\">Leave subdomain empty to create the apex zone (example.com). Enter <code>blog</code> for <code>blog.example.com</code>. Parent site must exist first for subdomains.</p>"@
    } else {
        "<p class=\"muted\"><strong>DNS mode:</strong> Local DNS (Cloudflare not connected). Enter any valid domain; existing validation still applies. Subdomains require the parent domain first.</p>\n          <label for=\"domain\">Domain</label>\n          <input id=\"domain\" name=\"domain\" type=\"text\" required placeholder=\"example.com\" autocomplete=\"off\">"@
    }
}

#[verifier::rlimit(60)]
#[verifier::spinoff_prover]
fn domain_fields_html(cloudflare_mode: bool, zones: &Vec<String>, zone_error: Option<&str>) -> (r: String)
    ensures
        r@ == domain_fields_spec(cloudflare_mode, crate::text::string_views(zones@), crate::text::opt_view(zone_error)),
{
    proof {
        reveal_strlit("");
    }
    if !cloudflare_mode {
        return "<p class=\"muted\"><strong>DNS mode:</strong> Local DNS (Cloudflare not connected). Enter any valid domain; existing validation still applies. Subdomains require the parent domain first.</p>\n          <label for=\"domain\">Domain</label>\n          <input id=\"domain\" name=\"domain\" type=\"text\" required placeholder=\"example.com\" autocomplete=\"off\">".to_owned();
    }
    let mut options = "<option value=\"\">Select Cloudflare zone…</option>".to_owned();
    let mut i: usize = 0;
    let ghost zv = crate::text::string_views(zones@);
    assert(zv.take(0) =~= Seq::<Seq<char>>::empty());
    while i < zones.len()
        invariant
            i <= zones.len(),
            zv == crate::text::string_views(zones@),
            options@ == zone_options(zv.take(i as int)),
        decreases zones.len() - i,
    {
        let ghost before = options@;
        options.append("<option value=\"");
        push_escaped(&mut options, zones[i].as_str());
        options.append("\">");
        push_escaped(&mut options, zones[i].as_str());
        options.append("</option>");
        proof {
            assert(zv.take(i + 1).drop_last() =~= zv.take(i as int));
            assert(options@ =~= before + zone_option(zv[i as int]));
        }
        i += 1;
    }
    assert(zv.take(zones.len() as int) =~= zv);
    let err = match zone_error {
        Some(e) => {
            let mut t = "<p class=\"panel-notice error\" role=\"status\">".to_owned();
            push_escaped(&mut t, e);
            t.append("</p>");
            t
        },
        None => String::new(),
    };
    let empty_hint = if zones.len() == 0 { "<p class=\"muted\">No active Cloudflare zones returned. Add a zone in Cloudflare, then reload this page.</p>" } else { "" };
    let disabled = if zones.len() == 0 { "disabled" } else { "" };
    let mut out = "<p class=\"muted\"><strong>DNS mode:</strong> Cloudflare connected. Domain must be one of your Cloudflare zones (or a subdomain under that zone).</p>\n          ".to_owned();
    out.append(err.as_str());
    out.append("\n          ");
    out.append(empty_hint);
    out.append("\n          <label for=\"cf_zone\">Cloudflare zone</label>\n          <select id=\"cf_zone\" name=\"cf_zone\" required ");
    out.append(disabled);
    out.append(">\n            ");
    out.append(options.as_str());
    out.append("\n          </select>\n          <label for=\"cf_subdomain\">Subdomain (optional)</label>\n          <input id=\"cf_subdomain\" name=\"cf_subdomain\" type=\"text\" placeholder=\"blog\" autocomplete=\"off\" ");
    out.append(disabled);
    out.append(">\n          <p class=\"muted\">Leave subdomain empty to create the apex zone (example.com). Enter <code>blog</code> for <code>blog.example.com</code>. Parent site must exist first for subdomains.</p>");
    assert(out@ =~= domain_fields_spec(cloudflare_mode, zv, crate::text::opt_view(zone_error)));
    out
}

pub open spec fn account_option(a: Seq<char>, viewer: Seq<char>) -> Seq<char> {
    "<option value=\""@ + html_escaped(a) + "\""@ + (if eq_ignore_case(a, viewer) { " selected"@ } else { ""@ }) + ">"@ + html_escaped(a) + "</option>"@
}

pub open spec fn account_options(accts: Seq<Seq<char>>, viewer: Seq<char>) -> Seq<char>
    decreases accts.len(),
{
    if accts.len() == 0 {
        ""@
    } else {
        account_options(accts.drop_last(), viewer) + account_option(accts.last(), viewer)
    }
}

/// The owner field: for an admin a picker of the accounts (the viewer selected, and added
/// first when not among them); otherwise the viewer's own name, read-only.
pub open spec fn owner_fields_spec(viewer: Seq<char>, admin: bool, accounts: Seq<Seq<char>>) -> Seq<char> {
    if admin {
        let saw_self = exists|k: int| 0 <= k < accounts.len() && eq_ignore_case(#[trigger] accounts[k], viewer);
        let options = (if saw_self { ""@ } else { "<option value=\""@ + html_escaped(viewer) + "\" selected>"@ + html_escaped(viewer) + "</option>"@ }) + account_options(accounts, viewer);
        "<label for=\"owner\">Owner</label>\n          <select id=\"owner\" name=\"owner\" required>\n            "@ + options + "\n          </select>\n          <p class=\"muted\">Admins may assign the site to any panel account.</p>"@
    } else {
        "<label for=\"owner\">Owner</label>\n          <input id=\"owner\" name=\"owner\" type=\"text\" value=\""@ + html_escaped(viewer) + "\" readonly autocomplete=\"username\">\n          <p class=\"muted\">Package accounts own sites as themselves. Owner cannot be changed.</p>"@
    }
}

#[verifier::rlimit(60)]
#[verifier::spinoff_prover]
fn owner_fields_html(viewer: &str, admin: bool, accounts: &Vec<String>) -> (r: String)
    ensures
        r@ == owner_fields_spec(viewer@, admin, crate::text::string_views(accounts@)),
{
    proof {
        reveal_strlit("");
    }
    if !admin {
        let mut out = "<label for=\"owner\">Owner</label>\n          <input id=\"owner\" name=\"owner\" type=\"text\" value=\"".to_owned();
        push_escaped(&mut out, viewer);
        out.append("\" readonly autocomplete=\"username\">\n          <p class=\"muted\">Package accounts own sites as themselves. Owner cannot be changed.</p>");
        return out;
    }
    let ghost av = crate::text::string_views(accounts@);
    let mut options = String::new();
    let mut saw_self = false;
    let mut i: usize = 0;
    assert(av.take(0) =~= Seq::<Seq<char>>::empty());
    while i < accounts.len()
        invariant
            i <= accounts.len(),
            av == crate::text::string_views(accounts@),
            options@ == account_options(av.take(i as int), viewer@),
            saw_self == exists|k: int| 0 <= k < i && eq_ignore_case(#[trigger] av[k], viewer@),
        decreases accounts.len() - i,
    {
        let a = accounts[i].as_str();
        let sel = eq_ignore_case_str(a, viewer);
        if sel {
            saw_self = true;
        }
        let ghost before = options@;
        options.append("<option value=\"");
        push_escaped(&mut options, a);
        options.append("\"");
        options.append(if sel { " selected" } else { "" });
        options.append(">");
        push_escaped(&mut options, a);
        options.append("</option>");
        proof {
            assert(av.take(i + 1).drop_last() =~= av.take(i as int));
            assert(av[i as int] == a@);
            assert(options@ =~= before + account_option(av[i as int], viewer@));
        }
        i += 1;
    }
    assert(av.take(accounts.len() as int) =~= av);
    let mut all = String::new();
    if !saw_self {
        all.append("<option value=\"");
        push_escaped(&mut all, viewer);
        all.append("\" selected>");
        push_escaped(&mut all, viewer);
        all.append("</option>");
    }
    all.append(options.as_str());
    let mut out = "<label for=\"owner\">Owner</label>\n          <select id=\"owner\" name=\"owner\" required>\n            ".to_owned();
    out.append(all.as_str());
    out.append("\n          </select>\n          <p class=\"muted\">Admins may assign the site to any panel account.</p>");
    assert(out@ =~= owner_fields_spec(viewer@, admin, av));
    out
}

/// The document-root field: free for an admin, fixed for others.
pub open spec fn docroot_fields_spec(admin: bool) -> Seq<char> {
    if admin {
        "<label for=\"docroot\">Docroot (optional)</label>\n          <input id=\"docroot\" name=\"docroot\" type=\"text\" placeholder=\"/home/example.com/public_html\">\n          <p class=\"muted\"><strong>Warning:</strong> Leave blank to use the default under the domain home. A custom docroot can break package ACL paths and File Manager jails. Override only when you know the path layout.</p>"@
    } else {
        "<input type=\"hidden\" name=\"docroot\" value=\"\">\n          <p class=\"muted\">Document root uses the package default under the domain home. Custom docroots are reserved for administrators (changing them can break ACL and package paths).</p>"@
    }
}

/// What the Create Website page shows of Cloudflare: not configured, the zones it lists, or
/// why listing them failed.
pub enum CloudflareZones {
    NotConfigured,
    Listed(Vec<String>),
    Failed(String),
}

/// The Create Website page: the zone picker when Cloudflare is connected and zones loaded,
/// a fallback domain field with the error when it is connected but the picker is
/// unavailable, else the local domain field; then owner and document root.
pub open spec fn websites_create_main_spec(
    username: Seq<char>,
    admin: bool,
    accounts: Seq<Seq<char>>,
    cloudflare: CloudflareZones,
    notice: Option<&str>,
    error: Option<&str>,
) -> Seq<char> {
    let domain_html = match cloudflare {
        CloudflareZones::NotConfigured => domain_fields_spec(false, Seq::empty(), None),
        CloudflareZones::Listed(z) => if z@.len() > 0 {
            domain_fields_spec(true, crate::text::string_views(z@), None)
        } else {
            "<p class=\"panel-notice error\" role=\"status\">"@ + html_escaped("Cloudflare is connected but no zones are available yet."@) + "</p>\n          <p class=\"muted\"><strong>DNS mode:</strong> Cloudflare connected, but the zone picker is unavailable. Enter a domain that belongs to one of your Cloudflare zones (server will verify).</p>\n          <label for=\"domain\">Domain</label>\n          <input id=\"domain\" name=\"domain\" type=\"text\" required placeholder=\"example.com\" autocomplete=\"off\">"@
        },
        CloudflareZones::Failed(e) => "<p class=\"panel-notice error\" role=\"status\">"@ + html_escaped(e@) + "</p>\n          <p class=\"muted\"><strong>DNS mode:</strong> Cloudflare connected, but the zone picker is unavailable. Enter a domain that belongs to one of your Cloudflare zones (server will verify).</p>\n          <label for=\"domain\">Domain</label>\n          <input id=\"domain\" name=\"domain\" type=\"text\" required placeholder=\"example.com\" autocomplete=\"off\">"@,
    };
    crate::panel_sections::section_heading_spec("Create Website"@, "Add a domain home under /home and optional document root."@) + "\n      "@ + crate::panel_website_manage_ui::notice_block_spec("ok"@, notice) + "\n      "@ + crate::panel_website_manage_ui::notice_block_spec("error"@, error) + "\n      <article class=\"section-card\">\n        <h2>Create Website</h2>\n        <p>Creates the site home and document root. Subdomains require the parent domain first.</p>\n        <p class=\"muted\"><a href=\"/websites\">Back to site list</a></p>\n        <form method=\"post\" action=\"/websites/create\" class=\"stack-form\" style=\"max-width:560px;\">\n          "@ + domain_html + "\n          "@ + owner_fields_spec(username, admin, accounts) + "\n          "@ + docroot_fields_spec(admin) + "\n          <button type=\"submit\" class=\"btn-primary\">Create site</button>\n        </form>\n      </article>"@
}

/// Full Create Website page body (form only).
#[verifier::rlimit(60)]
#[verifier::spinoff_prover]
pub fn websites_create_main(
    username: &str,
    admin: bool,
    accounts: &Vec<String>,
    cloudflare: &CloudflareZones,
    notice: Option<&str>,
    error: Option<&str>,
) -> (r: String)
    ensures
        r@ == websites_create_main_spec(username@, admin, crate::text::string_views(accounts@), *cloudflare, notice, error),
{
    proof {
        reveal_strlit("");
    }
    let domain_html = match cloudflare {
        CloudflareZones::NotConfigured => {
            let none: Vec<String> = Vec::new();
            assert(crate::text::string_views(none@) =~= Seq::<Seq<char>>::empty());
            let d = domain_fields_html(false, &none, None);
            d
        },
        CloudflareZones::Listed(z) => {
            if z.len() > 0 {
                domain_fields_html(true, z, None)
            } else {
                let mut f = "<p class=\"panel-notice error\" role=\"status\">".to_owned();
                push_escaped(&mut f, "Cloudflare is connected but no zones are available yet.");
                f.append("</p>\n          <p class=\"muted\"><strong>DNS mode:</strong> Cloudflare connected, but the zone picker is unavailable. Enter a domain that belongs to one of your Cloudflare zones (server will verify).</p>\n          <label for=\"domain\">Domain</label>\n          <input id=\"domain\" name=\"domain\" type=\"text\" required placeholder=\"example.com\" autocomplete=\"off\">");
                f
            }
        },
        CloudflareZones::Failed(e) => {
            let mut f = "<p class=\"panel-notice error\" role=\"status\">".to_owned();
            push_escaped(&mut f, e.as_str());
            f.append("</p>\n          <p class=\"muted\"><strong>DNS mode:</strong> Cloudflare connected, but the zone picker is unavailable. Enter a domain that belongs to one of your Cloudflare zones (server will verify).</p>\n          <label for=\"domain\">Domain</label>\n          <input id=\"domain\" name=\"domain\" type=\"text\" required placeholder=\"example.com\" autocomplete=\"off\">");
            f
        },
    };
    let owner_html = owner_fields_html(username, admin, accounts);
    let docroot_html: &str = if admin { "<label for=\"docroot\">Docroot (optional)</label>\n          <input id=\"docroot\" name=\"docroot\" type=\"text\" placeholder=\"/home/example.com/public_html\">\n          <p class=\"muted\"><strong>Warning:</strong> Leave blank to use the default under the domain home. A custom docroot can break package ACL paths and File Manager jails. Override only when you know the path layout.</p>" } else { "<input type=\"hidden\" name=\"docroot\" value=\"\">\n          <p class=\"muted\">Document root uses the package default under the domain home. Custom docroots are reserved for administrators (changing them can break ACL and package paths).</p>" };
    let mut out = String::new();
    let h = crate::panel_sections::section_heading("Create Website", "Add a domain home under /home and optional document root.");
    out.append(h.as_str());
    out.append("\n      ");
    let ok = crate::panel_website_manage_ui::notice_block("ok", notice);
    out.append(ok.as_str());
    out.append("\n      ");
    let er = crate::panel_website_manage_ui::notice_block("error", error);
    out.append(er.as_str());
    out.append("\n      <article class=\"section-card\">\n        <h2>Create Website</h2>\n        <p>Creates the site home and document root. Subdomains require the parent domain first.</p>\n        <p class=\"muted\"><a href=\"/websites\">Back to site list</a></p>\n        <form method=\"post\" action=\"/websites/create\" class=\"stack-form\" style=\"max-width:560px;\">\n          ");
    out.append(domain_html.as_str());
    out.append("\n          ");
    out.append(owner_html.as_str());
    out.append("\n          ");
    out.append(docroot_html);
    out.append("\n          <button type=\"submit\" class=\"btn-primary\">Create site</button>\n        </form>\n      </article>");
    proof {
        assert(out@ =~= websites_create_main_spec(username@, admin, crate::text::string_views(accounts@), *cloudflare, notice, error));
    }
    out
}

} // verus!
