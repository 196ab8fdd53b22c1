//! Host-shared plugin installs and per-domain activation.
//! Host-scoped plugins install once under `host-plugins/<id>/` of the data directory; sites
//! activate and deactivate that shared copy. This module holds the activation list and the
//! rules over it; reading and writing `plugin-activations.json` and the plugin directories
//! is done by the caller.

use vstd::prelude::*;
use vstd::string::*;
use crate::paths::{join_path, path_join};
use crate::plugins::{
    normalize_plugin_id, plugin_id_spec, sanitize_spec, sanitize_user_text, CatalogEntry,
    CpnPluginManifest, InstalledPlugin,
};
use crate::plugins_catalog::{meta_author, meta_category, meta_description, meta_name, meta_version,
    parse_meta_xml, pricing_spec};
use crate::text::{
    chars_of, eq_ignore_case, eq_ignore_case_str, lemma_filter_empty, lemma_filter_push, trim,
    trim_str,
};

verus! {

/// Version written into `plugin-activations.json`.
pub const ACTIVATIONS_SCHEMA_VERSION: u32 = 1;

/// The catalog host-shared plugins are recorded as coming from.
pub const HOST_CATALOG_REPO: &'static str = "Control-Panel-Network/CPN-Plugins";

/// One site's activation of a host-shared plugin.
pub struct PluginActivation {
    pub domain: String,
    pub plugin_id: String,
    pub activated_at_unix: u64,
    pub source: String,
}

/// The plugins that are installed once for the whole host.
pub open spec fn host_scoped_allowlist() -> Seq<Seq<char>> {
    seq![
        "clamav"@,
        "fail2ban"@,
        "autoBan"@,
        "autoSnapshot"@,
        "malwareScanner"@,
        "roundcubeWebmail"@,
        "roundcube"@,
    ]
}

/// A trimmed, non-empty id equal (ignoring ASCII case) to an allowlisted one.
pub open spec fn host_scoped_spec(id: Seq<char>) -> bool {
    let t = trim(id);
    t.len() > 0 && exists|k: int| 0 <= k < 7 && eq_ignore_case(#[trigger] host_scoped_allowlist()[k], t)
}

/// `host-plugins` under the data directory.
pub fn host_plugins_dir(data_dir: &str) -> (r: String)
    ensures
        r@ == path_join(data_dir@, "host-plugins"@),
{
    join_path(data_dir, "host-plugins")
}

/// The shared install directory of a plugin (its id trimmed).
pub fn host_plugin_path(data_dir: &str, plugin_id: &str) -> (r: String)
    ensures
        r@ == path_join(path_join(data_dir@, "host-plugins"@), trim(plugin_id@)),
{
    let dir = host_plugins_dir(data_dir);
    let id = trim_str(plugin_id);
    join_path(dir.as_str(), id.as_str())
}

/// A host plugin counts as installed when its id is not blank and its directory holds
/// `cpn-plugin.json` or `meta.xml` (whose presence the caller looked up).
pub fn host_plugin_installed(plugin_id: &str, has_manifest: bool, has_meta: bool) -> (r: bool)
    ensures
        r == (trim(plugin_id@).len() > 0 && (has_manifest || has_meta)),
{
    let id = trim_str(plugin_id);
    if id.as_str().is_empty() {
        return false;
    }
    has_manifest || has_meta
}

/// Whether a plugin id names a host-scoped plugin.
pub fn is_host_scoped_plugin(id: &str) -> (r: bool)
    ensures
        r == host_scoped_spec(id@),
{
    proof {
        reveal_strlit("clamav");
        reveal_strlit("fail2ban");
        reveal_strlit("autoBan");
        reveal_strlit("autoSnapshot");
        reveal_strlit("malwareScanner");
        reveal_strlit("roundcubeWebmail");
        reveal_strlit("roundcube");
    }
    let t = trim_str(id);
    let s = t.as_str();
    if s.is_empty() {
        return false;
    }
    let r = eq_ignore_case_str("clamav", s) || eq_ignore_case_str("fail2ban", s)
        || eq_ignore_case_str("autoBan", s) || eq_ignore_case_str("autoSnapshot", s)
        || eq_ignore_case_str("malwareScanner", s) || eq_ignore_case_str("roundcubeWebmail", s)
        || eq_ignore_case_str("roundcube", s);
    proof {
        let l = host_scoped_allowlist();
        if r {
            if eq_ignore_case("clamav"@, s@) {
                assert(eq_ignore_case(l[0], t@));
            } else if eq_ignore_case("fail2ban"@, s@) {
                assert(eq_ignore_case(l[1], t@));
            } else if eq_ignore_case("autoBan"@, s@) {
                assert(eq_ignore_case(l[2], t@));
            } else if eq_ignore_case("autoSnapshot"@, s@) {
                assert(eq_ignore_case(l[3], t@));
            } else if eq_ignore_case("malwareScanner"@, s@) {
                assert(eq_ignore_case(l[4], t@));
            } else if eq_ignore_case("roundcubeWebmail"@, s@) {
                assert(eq_ignore_case(l[5], t@));
            } else {
                assert(eq_ignore_case(l[6], t@));
            }
        } else {
            assert forall|k: int| 0 <= k < 7 implies !eq_ignore_case(#[trigger] l[k], t@) by {
                if k == 0 {
                } else if k == 1 {
                } else if k == 2 {
                } else if k == 3 {
                } else if k == 4 {
                } else if k == 5 {
                } else {
                }
            }
        }
    }
    r
}

/// A catalog entry is host-scoped when it says so or its id is allowlisted.
pub fn catalog_entry_is_host_scoped(entry: &CatalogEntry) -> (r: bool)
    ensures
        r == (entry.host_scoped || host_scoped_spec(entry.id@)),
{
    entry.host_scoped || is_host_scoped_plugin(entry.id.as_str())
}

/// An activation for `domain` and `id` (both compared ignoring ASCII case).
pub open spec fn activation_is(a: PluginActivation, domain: Seq<char>, id: Seq<char>) -> bool {
    eq_ignore_case(a.domain@, domain) && eq_ignore_case(a.plugin_id@, id)
}

/// `is_activated`: domain and id trimmed and present, and a matching activation recorded.
pub open spec fn activated_spec(acts: Seq<PluginActivation>, domain: Seq<char>, id: Seq<char>) -> bool {
    let d = trim(domain);
    let i = trim(id);
    d.len() > 0 && i.len() > 0 && exists|k: int|
        0 <= k < acts.len() && #[trigger] activation_is(acts[k], d, i)
}

/// Whether the plugin is activated for the domain.
pub fn is_activated(activations: &Vec<PluginActivation>, domain_raw: &str, plugin_id: &str) -> (r: bool)
    ensures
        r == activated_spec(activations@, domain_raw@, plugin_id@),
{
    let d = trim_str(domain_raw);
    let i = trim_str(plugin_id);
    if d.as_str().is_empty() || i.as_str().is_empty() {
        return false;
    }
    let mut k: usize = 0;
    while k < activations.len()
        invariant
            k <= activations.len(),
            d@ == trim(domain_raw@),
            i@ == trim(plugin_id@),
            d@.len() > 0,
            i@.len() > 0,
            forall|j: int| 0 <= j < k ==> !activation_is(#[trigger] activations@[j], d@, i@),
        decreases activations.len() - k,
    {
        let a = &activations[k];
        if eq_ignore_case_str(a.domain.as_str(), d.as_str()) && eq_ignore_case_str(
            a.plugin_id.as_str(),
            i.as_str(),
        ) {
            assert(activation_is(activations@[k as int], d@, i@));
            return true;
        }
        k += 1;
    }
    false
}

/// A copy of an activation.
pub fn copy_activation(a: &PluginActivation) -> (r: PluginActivation)
    ensures
        r == *a,
{
    PluginActivation {
        domain: a.domain.clone(),
        plugin_id: a.plugin_id.clone(),
        activated_at_unix: a.activated_at_unix,
        source: a.source.clone(),
    }
}

/// Activations of the given (trimmed) domain.
pub open spec fn of_domain(domain: Seq<char>) -> spec_fn(PluginActivation) -> bool {
    |a: PluginActivation| eq_ignore_case(a.domain@, domain)
}

/// The activations recorded for a domain, in recorded order.
pub fn list_activations_for_domain(activations: &Vec<PluginActivation>, domain_raw: &str) -> (r: Vec<
    PluginActivation,
>)
    ensures
        r@ == activations@.filter(of_domain(trim(domain_raw@))),
{
    let d = trim_str(domain_raw);
    let mut out: Vec<PluginActivation> = Vec::new();
    let mut k: usize = 0;
    proof {
        lemma_filter_empty(of_domain(d@));
        assert(activations@.take(0) =~= Seq::<PluginActivation>::empty());
    }
    while k < activations.len()
        invariant
            k <= activations.len(),
            d@ == trim(domain_raw@),
            out@ == activations@.take(k as int).filter(of_domain(d@)),
        decreases activations.len() - k,
    {
        proof {
            lemma_filter_push(activations@.take(k as int), of_domain(d@), activations@[k as int]);
            assert(activations@.take(k + 1) =~= activations@.take(k as int).push(activations@[k as int]));
        }
        if eq_ignore_case_str(activations[k].domain.as_str(), d.as_str()) {
            out.push(copy_activation(&activations[k]));
        }
        k += 1;
    }
    assert(activations@.take(activations.len() as int) =~= activations@);
    out
}

/// Activations of any plugin but `id`.
pub open spec fn not_plugin(id: Seq<char>) -> spec_fn(PluginActivation) -> bool {
    |a: PluginActivation| !eq_ignore_case(a.plugin_id@, id)
}

/// Activations other than `domain`'s of `id`.
pub open spec fn not_activation(domain: Seq<char>, id: Seq<char>) -> spec_fn(PluginActivation) -> bool {
    |a: PluginActivation| !activation_is(a, domain, id)
}

/// Uninstalling a host plugin clears every site's activation of it.
pub fn remove_plugin_activations(activations: &mut Vec<PluginActivation>, plugin_id: &str)
    ensures
        final(activations)@ == old(activations)@.filter(not_plugin(plugin_id@)),
{
    let mut out: Vec<PluginActivation> = Vec::new();
    let mut k: usize = 0;
    proof {
        lemma_filter_empty(not_plugin(plugin_id@));
        assert(activations@.take(0) =~= Seq::<PluginActivation>::empty());
    }
    while k < activations.len()
        invariant
            k <= activations.len(),
            activations@ == old(activations)@,
            out@ == activations@.take(k as int).filter(not_plugin(plugin_id@)),
        decreases activations.len() - k,
    {
        proof {
            lemma_filter_push(activations@.take(k as int), not_plugin(plugin_id@), activations@[k as int]);
            assert(activations@.take(k + 1) =~= activations@.take(k as int).push(activations@[k as int]));
        }
        if !eq_ignore_case_str(activations[k].plugin_id.as_str(), plugin_id) {
            out.push(copy_activation(&activations[k]));
        }
        k += 1;
    }
    assert(activations@.take(activations.len() as int) =~= activations@);
    *activations = out;
}

/// Deactivating clears the domain's activation of the plugin, and no other.
pub fn remove_activation(activations: &mut Vec<PluginActivation>, domain: &str, plugin_id: &str)
    ensures
        final(activations)@ == old(activations)@.filter(not_activation(domain@, plugin_id@)),
{
    let mut out: Vec<PluginActivation> = Vec::new();
    let mut k: usize = 0;
    proof {
        lemma_filter_empty(not_activation(domain@, plugin_id@));
        assert(activations@.take(0) =~= Seq::<PluginActivation>::empty());
    }
    while k < activations.len()
        invariant
            k <= activations.len(),
            activations@ == old(activations)@,
            out@ == activations@.take(k as int).filter(not_activation(domain@, plugin_id@)),
        decreases activations.len() - k,
    {
        proof {
            lemma_filter_push(
                activations@.take(k as int),
                not_activation(domain@, plugin_id@),
                activations@[k as int],
            );
            assert(activations@.take(k + 1) =~= activations@.take(k as int).push(activations@[k as int]));
        }
        let a = &activations[k];
        if !(eq_ignore_case_str(a.domain.as_str(), domain) && eq_ignore_case_str(a.plugin_id.as_str(), plugin_id)) {
            out.push(copy_activation(a));
        }
        k += 1;
    }
    assert(activations@.take(activations.len() as int) =~= activations@);
    *activations = out;
}

/// Records a site's activation of a host plugin, from the host.
pub fn record_activation(activations: &mut Vec<PluginActivation>, domain: &str, plugin_id: &str, now: u64)
    ensures
        final(activations)@.len() == old(activations)@.len() + 1,
        final(activations)@.take(old(activations)@.len() as int) == old(activations)@,
        final(activations)@.last().domain@ == domain@,
        final(activations)@.last().activated_at_unix == now,
        final(activations)@.last().plugin_id@ == plugin_id@,
        final(activations)@.last().source@ == "host"@,
{
    let ghost before = activations@;
    activations.push(
        PluginActivation {
            domain: domain.to_owned(),
            plugin_id: plugin_id.to_owned(),
            activated_at_unix: now,
            source: "host".to_owned(),
        },
    );
    assert(activations@.take(before.len() as int) =~= before);
}

/// The checks before activating: the plugin id must be valid, installed on the host, and
/// not yet activated for the site. Gives the normalised id.
pub open spec fn activation_check_spec(
    acts: Seq<PluginActivation>,
    domain: Seq<char>,
    plugin_id: Seq<char>,
    host_installed: bool,
) -> Result<Seq<char>, Seq<char>> {
    match plugin_id_spec(plugin_id) {
        Err(e) => Err(e),
        Ok(id) => if !host_installed {
            Err("Host plugin `"@ + id
                + "` is not installed. Ask the panel admin to install it on the Host first."@)
        } else if activated_spec(acts, domain, id) {
            Err("Plugin `"@ + id + "` is already activated for `"@ + domain + "`"@)
        } else {
            Ok(id)
        },
    }
}

/// `activate_host_plugin_for_domain`'s checks, for a site whose record holds `domain` and
/// whose host install state the caller looked up.
#[verifier::rlimit(60)]
#[verifier::spinoff_prover]
pub fn check_activation(
    activations: &Vec<PluginActivation>,
    domain: &str,
    plugin_id: &str,
    host_installed: bool,
) -> (r: Result<String, String>)
    ensures
        r is Ok <==> activation_check_spec(activations@, domain@, plugin_id@, host_installed) is Ok,
        r matches Ok(id) ==> activation_check_spec(activations@, domain@, plugin_id@, host_installed)
            == Ok::<Seq<char>, Seq<char>>(id@),
        r matches Err(e) ==> activation_check_spec(activations@, domain@, plugin_id@, host_installed)
            == Err::<Seq<char>, Seq<char>>(e@),
{
    let id = match normalize_plugin_id(plugin_id) {
        Ok(id) => id,
        Err(e) => return Err(e),
    };
    if !host_installed {
        let mut m = "Host plugin `".to_owned();
        m.append(id.as_str());
        m.append("` is not installed. Ask the panel admin to install it on the Host first.");
        return Err(m);
    }
    if is_activated(activations, domain, id.as_str()) {
        let mut m = "Plugin `".to_owned();
        m.append(id.as_str());
        m.append("` is already activated for `");
        m.append(domain);
        m.append("`");
        return Err(m);
    }
    Ok(id)
}

/// The checks before deactivating: a valid id that is activated for the site.
pub open spec fn deactivation_check_spec(
    acts: Seq<PluginActivation>,
    domain: Seq<char>,
    plugin_id: Seq<char>,
) -> Result<Seq<char>, Seq<char>> {
    match plugin_id_spec(plugin_id) {
        Err(e) => Err(e),
        Ok(id) => if !activated_spec(acts, domain, id) {
            Err("Plugin `"@ + id + "` is not activated for `"@ + domain + "`"@)
        } else {
            Ok(id)
        },
    }
}

/// `deactivate_host_plugin_for_domain`'s checks.
pub fn check_deactivation(activations: &Vec<PluginActivation>, domain: &str, plugin_id: &str) -> (r:
    Result<String, String>)
    ensures
        r is Ok <==> deactivation_check_spec(activations@, domain@, plugin_id@) is Ok,
        r matches Ok(id) ==> deactivation_check_spec(activations@, domain@, plugin_id@)
            == Ok::<Seq<char>, Seq<char>>(id@),
        r matches Err(e) ==> deactivation_check_spec(activations@, domain@, plugin_id@)
            == Err::<Seq<char>, Seq<char>>(e@),
{
    let id = match normalize_plugin_id(plugin_id) {
        Ok(id) => id,
        Err(e) => return Err(e),
    };
    if !is_activated(activations, domain, id.as_str()) {
        let mut m = "Plugin `".to_owned();
        m.append(id.as_str());
        m.append("` is not activated for `");
        m.append(domain);
        m.append("`");
        return Err(m);
    }
    Ok(id)
}

/// A site's plugin directory is removed on deactivation only when it is the stub that
/// activation wrote: its record says `source: host-activation` or `host_shared: true`.
pub fn is_host_activation_stub(source: Option<&str>, host_shared: Option<bool>) -> (r: bool)
    ensures
        r == ((source matches Some(s) && s@ == "host-activation"@) || host_shared == Some(true)),
{
    let by_source = match source {
        Some(s) => crate::text::str_eq(s, "host-activation"),
        None => false,
    };
    proof {
        reveal_strlit("host-activation");
    }
    by_source || match host_shared {
        Some(b) => b,
        None => false,
    }
}

/// A plugin of the host is "owned" by the host for a site that activated it, and for the
/// host view (no domain).
pub fn is_host_owned_install(domain_raw: &str, host_installed: bool, activated: bool) -> (r: bool)
    ensures
        r == (host_installed && (activated || trim(domain_raw@).len() == 0)),
{
    if host_installed && activated {
        return true;
    }
    let d = trim_str(domain_raw);
    host_installed && d.as_str().is_empty()
}

/// The record written for a host install of a catalog entry.
pub fn host_manifest_from_entry(entry: &CatalogEntry, now: u64) -> (r: CpnPluginManifest)
    ensures
        r.schema_version == 1,
        r.id == entry.id,
        r.name == entry.name,
        r.category == entry.category,
        r.version == entry.version,
        r.description == entry.description,
        r.author == entry.author,
        r.pricing == entry.pricing,
        r.enabled,
        r.installed_at_unix == now,
        r.source@ == "host-catalog"@,
        r.catalog_repo@ == HOST_CATALOG_REPO@,
        r.domain@.len() == 0,
{
    CpnPluginManifest {
        schema_version: ACTIVATIONS_SCHEMA_VERSION,
        id: entry.id.clone(),
        name: entry.name.clone(),
        category: entry.category.clone(),
        version: entry.version.clone(),
        description: entry.description.clone(),
        author: entry.author.clone(),
        pricing: entry.pricing.clone(),
        enabled: true,
        installed_at_unix: now,
        source: "host-catalog".to_owned(),
        catalog_repo: HOST_CATALOG_REPO.to_owned(),
        domain: String::new(),
    }
}

/// The host record made from a host plugin's `meta.xml` when it has no `cpn-plugin.json`.
pub fn host_manifest_from_meta(plugin_id: &str, body: &str, now: u64) -> (r: CpnPluginManifest)
    ensures
        r.id@ == plugin_id@,
        r.name@ == sanitize_spec(meta_name(plugin_id@, body@)),
        r.category@ == meta_category(body@),
        r.version@ == meta_version(body@),
        r.description@ == meta_description(body@),
        r.author@ == meta_author(body@),
        r.pricing@ == pricing_spec(body@),
        r.enabled,
        r.installed_at_unix == now,
        r.source@ == "host-catalog"@,
        r.catalog_repo@ == HOST_CATALOG_REPO@,
        r.domain@.len() == 0,
{
    let entry = match parse_meta_xml(plugin_id, body) {
        Ok(e) => e,
        Err(_) => vstd::pervasive::unreached(),
    };
    CpnPluginManifest {
        schema_version: ACTIVATIONS_SCHEMA_VERSION,
        id: entry.id,
        name: sanitize_user_text(entry.name.as_str()),
        category: entry.category,
        version: entry.version,
        description: entry.description,
        author: entry.author,
        pricing: entry.pricing,
        enabled: true,
        installed_at_unix: now,
        source: "host-catalog".to_owned(),
        catalog_repo: HOST_CATALOG_REPO.to_owned(),
        domain: String::new(),
    }
}

/// The host record as the site sees it once activated: enabled, for the site, from the host.
pub fn activated_manifest(manifest: CpnPluginManifest, domain: &str) -> (r: CpnPluginManifest)
    ensures
        r.domain@ == domain@,
        r.enabled,
        r.source@ == "host-activation"@,
        r.id == manifest.id,
        r.name == manifest.name,
        r.category == manifest.category,
        r.version == manifest.version,
        r.description == manifest.description,
        r.author == manifest.author,
        r.pricing == manifest.pricing,
        r.installed_at_unix == manifest.installed_at_unix,
        r.catalog_repo == manifest.catalog_repo,
        r.schema_version == manifest.schema_version,
{
    let mut out = manifest;
    out.domain = domain.to_owned();
    out.enabled = true;
    out.source = "host-activation".to_owned();
    out
}

/// One entry of `activated_as_installed`: the host record of an activated plugin, shown in
/// the site (trimmed domain) at the shared install path.
pub fn activated_install(manifest: CpnPluginManifest, domain_raw: &str, data_dir: &str) -> (r:
    InstalledPlugin)
    ensures
        r.manifest.domain@ == trim(domain_raw@),
        r.manifest.enabled,
        r.manifest.source@ == "host-activation"@,
        r.manifest.id == manifest.id,
        r.manifest.name == manifest.name,
        r.manifest.version == manifest.version,
        r.path@ == path_join(path_join(data_dir@, "host-plugins"@), trim(manifest.id@)),
        r.domain@ == trim(domain_raw@),
{
    let d = trim_str(domain_raw);
    let path = host_plugin_path(data_dir, manifest.id.as_str());
    let m = activated_manifest(manifest, d.as_str());
    InstalledPlugin { manifest: m, path, domain: d }
}

/// An installed plugin as the site list shows it: id, name and version of its record, the
/// record's site, enabled flag and source, the install path and the site.
pub open spec fn installed_view(p: InstalledPlugin) -> (Seq<char>, Seq<char>, Seq<char>, Seq<char>, bool, Seq<char>, Seq<char>, Seq<char>) {
    (p.manifest.id@, p.manifest.name@, p.manifest.version@, p.manifest.domain@, p.manifest.enabled, p.manifest.source@,
        p.path@, p.domain@)
}

/// The site's activated plugins as installed plugins: for each activation (plugin id, and
/// the host record when it loaded), in order, the host record shown in the site (trimmed
/// domain), enabled, from the host, at the shared install path; activations whose record
/// did not load are left out.
pub open spec fn activated_rows(
    loaded: Seq<(String, Option<CpnPluginManifest>)>,
    domain: Seq<char>,
    data_dir: Seq<char>,
) -> Seq<(Seq<char>, Seq<char>, Seq<char>, Seq<char>, bool, Seq<char>, Seq<char>, Seq<char>)>
    decreases loaded.len(),
{
    if loaded.len() == 0 {
        Seq::empty()
    } else {
        let rest = activated_rows(loaded.drop_last(), domain, data_dir);
        match loaded.last().1 {
            Some(m) => rest.push(
                (m.id@, m.name@, m.version@, trim(domain), true, "host-activation"@, path_join(
                    path_join(data_dir, "host-plugins"@),
                    trim(loaded.last().0@),
                ), trim(domain)),
            ),
            None => rest,
        }
    }
}

/// `activated_as_installed`: the site's activations (see `list_activations_for_domain`),
/// each with the host record the caller loaded for it, as installed plugins.
pub fn activated_as_installed(
    domain_raw: &str,
    loaded: Vec<(String, Option<CpnPluginManifest>)>,
    data_dir: &str,
) -> (r: Vec<InstalledPlugin>)
    ensures
        r@.map_values(|p: InstalledPlugin| installed_view(p)) == activated_rows(loaded@, domain_raw@, data_dir@),
{
    let ghost orig = loaded@;
    let n = loaded.len();
    let mut rest = loaded;
    let d = trim_str(domain_raw);
    let mut out: Vec<InstalledPlugin> = Vec::new();
    let mut i: usize = 0;
    assert(orig.take(0) =~= Seq::<(String, Option<CpnPluginManifest>)>::empty());
    assert(out@.map_values(|p: InstalledPlugin| installed_view(p)) =~= activated_rows(orig.take(0), domain_raw@, data_dir@));
    while rest.len() > 0
        invariant
            i <= orig.len(),
            rest@ == orig.skip(i as int),
            rest.len() == orig.len() - i,
            orig.len() == n,
            d@ == trim(domain_raw@),
            out@.map_values(|p: InstalledPlugin| installed_view(p)) == activated_rows(orig.take(i as int), domain_raw@, data_dir@),
        decreases rest.len(),
    {
        let (id, opt) = rest.remove(0);
        proof {
            assert(orig.take(i + 1).drop_last() =~= orig.take(i as int));
            assert(orig.take(i + 1).last() == orig[i as int]);
            assert(orig.skip(i as int)[0] == orig[i as int]);
            assert(orig.skip(i + 1) =~= orig.skip(i as int).skip(1));
        }
        let ghost before = out@;
        match opt {
            Some(m) => {
                let path = host_plugin_path(data_dir, id.as_str());
                let manifest = activated_manifest(m, d.as_str());
                out.push(InstalledPlugin { manifest, path, domain: d.clone() });
                assert(out@.map_values(|p: InstalledPlugin| installed_view(p)) =~= before.map_values(
                    |p: InstalledPlugin| installed_view(p),
                ).push(installed_view(out@.last())));
            },
            None => {},
        }
        i += 1;
    }
    assert(orig.take(i as int) =~= orig);
    out
}

/// Recording an activation makes the plugin activated for that site.
pub proof fn lemma_recorded_activation_is_active(
    acts: Seq<PluginActivation>,
    a: PluginActivation,
    domain: Seq<char>,
    id: Seq<char>,
)
    requires
        a.domain@ == domain,
        a.plugin_id@ == id,
        trim(domain) == domain,
        trim(id) == id,
        domain.len() > 0,
        id.len() > 0,
    ensures
        activated_spec(acts.push(a), domain, id),
{
    assert(acts.push(a)[acts.len() as int] == a);
    assert(activation_is(acts.push(a)[acts.len() as int], domain, id));
}

/// After a site's activation of a plugin is removed, the plugin is no longer activated for
/// that site.
pub proof fn lemma_removed_activation_is_inactive(
    acts: Seq<PluginActivation>,
    domain: Seq<char>,
    id: Seq<char>,
)
    requires
        trim(domain) == domain,
        trim(id) == id,
    ensures
        !activated_spec(acts.filter(not_activation(domain, id)), domain, id),
{
    let kept = acts.filter(not_activation(domain, id));
    assert forall|k: int| 0 <= k < kept.len() implies !activation_is(#[trigger] kept[k], domain, id) by {
        acts.lemma_filter_pred(not_activation(domain, id), k);
    }
}


/// Activating a host plugin for a site: after the checks (see `activation_check_spec`), the
/// host record (looked up by the caller) must load; then the activation is recorded and the
/// record is returned as the site sees it. Nothing is recorded when any step fails.
pub fn activate_host_plugin_for_domain(
    activations: &mut Vec<PluginActivation>,
    domain: &str,
    plugin_id: &str,
    host_installed: bool,
    host_manifest: Result<CpnPluginManifest, String>,
    now: u64,
) -> (r: Result<CpnPluginManifest, String>)
    ensures
        match activation_check_spec(old(activations)@, domain@, plugin_id@, host_installed) {
            Err(e) => r matches Err(m) && m@ == e && final(activations)@ == old(activations)@,
            Ok(id) => match host_manifest {
                Err(_) => r == host_manifest && final(activations)@ == old(activations)@,
                Ok(hm) => {
                    &&& r matches Ok(m) && m.domain@ == domain@ && m.enabled && m.source@ == "host-activation"@
                        && m.id == hm.id && m.name == hm.name && m.version == hm.version
                    &&& final(activations)@.len() == old(activations)@.len() + 1
                    &&& final(activations)@.take(old(activations)@.len() as int) == old(activations)@
                    &&& final(activations)@.last().domain@ == domain@
                    &&& final(activations)@.last().plugin_id@ == id
                    &&& final(activations)@.last().activated_at_unix == now
                    &&& (trim(domain@) == domain@ && domain@.len() > 0) ==> activated_spec(final(activations)@, domain@, id)
                },
            },
        },
{
    let id = match check_activation(activations, domain, plugin_id, host_installed) {
        Ok(id) => id,
        Err(e) => return Err(e),
    };
    let manifest = match host_manifest {
        Ok(m) => m,
        Err(e) => return Err(e),
    };
    record_activation(activations, domain, id.as_str(), now);
    proof {
        if trim(domain@) == domain@ && domain@.len() > 0 {
            let ghost acts = activations@;
            lemma_plugin_id_trimmed(plugin_id@);
            assert(acts.take(acts.len() - 1).push(acts.last()) =~= acts);
            lemma_recorded_activation_is_active(acts.take(acts.len() - 1), acts.last(), domain@, id@);
        }
    }
    Ok(activated_manifest(manifest, domain))
}

/// A valid plugin id is trimmed and not empty.
proof fn lemma_plugin_id_trimmed(raw: Seq<char>)
    ensures
        plugin_id_spec(raw) matches Ok(id) ==> trim(id) == id && id.len() > 0,
{
    crate::text::lemma_trim_ends(raw);
    if trim(raw).len() > 0 {
        crate::text::lemma_trim_no_ws(trim(raw));
    }
}

/// Deactivates a host plugin for a site (`domain` as the site record has it): refused when
/// the id is invalid or the plugin is not activated there; else the site's activation
/// records of it are removed. The host install is not touched.
pub fn deactivate_host_plugin_for_domain(activations: &mut Vec<PluginActivation>, domain: &str, plugin_id: &str) -> (r:
    Result<(), String>)
    ensures
        match deactivation_check_spec(old(activations)@, domain@, plugin_id@) {
            Err(e) => r matches Err(m) && m@ == e && final(activations)@ == old(activations)@,
            Ok(id) => r is Ok && final(activations)@ == old(activations)@.filter(not_activation(domain@, id)),
        },
{
    let id = match check_deactivation(activations, domain, plugin_id) {
        Ok(id) => id,
        Err(e) => return Err(e),
    };
    remove_activation(activations, domain, id.as_str());
    Ok(())
}

/// Law: a recorded activation can be deactivated, after which the plugin is no longer
/// active for the site, a second deactivation is refused as not activated, and, since the
/// host install is left as it was, the site can activate the plugin again.
pub proof fn lemma_deactivate_round_trip(acts: Seq<PluginActivation>, a: PluginActivation, domain: Seq<char>, raw_id: Seq<char>)
    requires
        plugin_id_spec(raw_id) is Ok,
        a.domain@ == domain,
        a.plugin_id@ == plugin_id_spec(raw_id)->Ok_0,
        trim(domain) == domain,
        domain.len() > 0,
    ensures
        deactivation_check_spec(acts.push(a), domain, raw_id) == Ok::<Seq<char>, Seq<char>>(plugin_id_spec(raw_id)->Ok_0),
        ({
            let id = plugin_id_spec(raw_id)->Ok_0;
            let after = acts.push(a).filter(not_activation(domain, id));
            &&& !activated_spec(after, domain, id)
            &&& deactivation_check_spec(after, domain, raw_id) == Err::<Seq<char>, Seq<char>>(
                "Plugin `"@ + id + "` is not activated for `"@ + domain + "`"@,
            )
            &&& activation_check_spec(after, domain, raw_id, true) == Ok::<Seq<char>, Seq<char>>(id)
        }),
{
    let id = plugin_id_spec(raw_id)->Ok_0;
    crate::text::lemma_trim_ends(raw_id);
    crate::text::lemma_trim_no_ws(id);
    lemma_recorded_activation_is_active(acts, a, domain, id);
    lemma_removed_activation_is_inactive(acts.push(a), domain, id);
}

} // verus!
