//! CPN plugin registry: plugin records, plugin ids, and the CPN branding of plugin text.
//! Installing, listing and removing plugin directories is done by the caller.

use vstd::prelude::*;
use vstd::string::*;
use crate::paths::{join_path, path_join};
use crate::text::{chars_of, find_first, first_index, match_at, occurs_at, str_eq, trim};

verus! {

/// Record version written into `cpn-plugin.json`.
pub const SCHEMA_VERSION: u32 = 1;

/// The community archive plugins come from.
pub const CATALOG_REPO: &'static str = "master3395/cyberpanel-plugins";

/// The installed plugin's record (`cpn-plugin.json`).
pub struct CpnPluginManifest {
    pub schema_version: u32,
    pub id: String,
    pub name: String,
    pub category: String,
    pub version: String,
    pub description: String,
    pub author: String,
    pub pricing: String,
    pub enabled: bool,
    pub installed_at_unix: u64,
    pub source: String,
    pub catalog_repo: String,
    /// The site a host-shared plugin is activated for; empty for a site's own install.
    pub domain: String,
}

/// One plugin of the catalog.
pub struct CatalogEntry {
    pub id: String,
    pub name: String,
    pub category: String,
    pub version: String,
    pub description: String,
    pub author: String,
    pub pricing: String,
    /// ISO release date, empty when unknown.
    pub released_on: String,
    /// ISO date of the last update, empty when unknown.
    pub updated_on: String,
    pub install_count: u64,
    pub featured: bool,
    /// What uninstalling the plugin affects, one line each.
    pub uninstall_impacts: Vec<String>,
    /// Installed once for the whole host and activated per site.
    pub host_scoped: bool,
}

/// An installed plugin, its directory, and the site it belongs to.
pub struct InstalledPlugin {
    pub manifest: CpnPluginManifest,
    pub path: String,
    pub domain: String,
}

/// Absolute install root for docs and CLI help: `plugins` under the data directory.
pub fn plugins_install_path_display(data_dir: &str) -> (r: String)
    ensures
        r@ == path_join(data_dir@, "plugins"@),
{
    join_path(data_dir, "plugins")
}

pub fn catalog_repo_url() -> (r: &'static str)
    ensures
        r@ == "https://github.com/master3395/cyberpanel-plugins"@,
{
    "https://github.com/master3395/cyberpanel-plugins"
}

pub fn catalog_repo_slug() -> (r: &'static str)
    ensures
        r@ == CATALOG_REPO@,
{
    CATALOG_REPO
}

/// `s.replace(from, to)`: every occurrence, found left to right without overlap, replaced.
pub open spec fn replace_all(s: Seq<char>, from: Seq<char>, to: Seq<char>) -> Seq<char>
    decreases s.len(),
{
    if from.len() == 0 {
        s
    } else {
        match first_index(s, from) {
            None => s,
            Some(i) => if 0 <= i && i + from.len() <= s.len() {
                s.take(i) + to + replace_all(s.skip(i + from.len()), from, to)
            } else {
                s
            },
        }
    }
}

/// `s.replace(from, to)` for a non-empty pattern.
pub fn replace_str(s: &str, from: &str, to: &str) -> (r: String)
    requires
        from@.len() > 0,
    ensures
        r@ == replace_all(s@, from@, to@),
{
    let v = chars_of(s);
    let p = chars_of(from);
    let mut out = String::new();
    let mut i: usize = 0;
    let mut done = false;
    assert(v@.skip(0) =~= v@);
    while !done
        invariant
            i <= v.len(),
            p@ == from@,
            p@.len() > 0,
            v@ == s@,
            !done ==> replace_all(s@, from@, to@) == out@ + replace_all(v@.skip(i as int), from@, to@),
            done ==> replace_all(s@, from@, to@) == out@,
        decreases v.len() - i + (if done { 0int } else { 1int }),
    {
        let rest = crate::text::vec_range(&v, i, v.len());
        assert(rest@ =~= v@.skip(i as int));
        match find_first(&rest, &p) {
            None => {
                let tail = crate::text::string_of_chars(&rest);
                out.append(tail.as_str());
                assert(out@ =~= replace_all(s@, from@, to@));
                done = true;
            },
            Some(k) => {
                let head = crate::text::string_of_range(&rest, 0, k);
                assert(head@ =~= rest@.take(k as int));
                out.append(head.as_str());
                out.append(to);
                assert(v@.skip(i as int).skip(k + p.len()) =~= v@.skip(i + k + p.len()));
                i = i + k + p.len();
            },
        }
    }
    out
}

/// Legacy product names replaced by CPN in user-facing plugin text.
pub open spec fn sanitize_spec(raw: Seq<char>) -> Seq<char> {
    replace_all(
        replace_all(replace_all(raw, "CyberPanel"@, "CPN Panel"@), "cyberpanel"@, "CPN"@),
        "CYBERPANEL"@,
        "CPN"@,
    )
}

/// Strip legacy product names from user-facing plugin text.
pub fn sanitize_user_text(raw: &str) -> (r: String)
    ensures
        r@ == sanitize_spec(raw@),
{
    proof {
        reveal_strlit("CyberPanel");
        reveal_strlit("cyberpanel");
        reveal_strlit("CYBERPANEL");
    }
    let a = replace_str(raw, "CyberPanel", "CPN Panel");
    let b = replace_str(a.as_str(), "cyberpanel", "CPN");
    replace_str(b.as_str(), "CYBERPANEL", "CPN")
}

/// Some position shared by `to` and `q` placed at offset `d` of `to`, at or after `m`,
/// holds different characters in the two.
pub open spec fn mismatch_from(q: Seq<char>, to: Seq<char>, d: int, m: int) -> bool
    decreases to.len() - m,
{
    if m >= to.len() || m < 0 || m - d < 0 || m - d >= q.len() {
        false
    } else if q[m - d] != to[m] {
        true
    } else {
        mismatch_from(q, to, d, m + 1)
    }
}

/// Every placement of `q` at an offset from `d` on that overlaps `to` disagrees with `to`.
pub open spec fn straddle_free_from(q: Seq<char>, to: Seq<char>, d: int) -> bool
    decreases to.len() - d,
{
    if d >= to.len() {
        true
    } else {
        mismatch_from(q, to, d, if d < 0 { 0 } else { d }) && straddle_free_from(q, to, d + 1)
    }
}

/// No occurrence of `q` can overlap an inserted copy of `to`, whatever surrounds it.
pub open spec fn straddle_free(q: Seq<char>, to: Seq<char>) -> bool {
    straddle_free_from(q, to, 1 - q.len())
}

proof fn lemma_mismatch_witness(q: Seq<char>, to: Seq<char>, d: int, m: int) -> (w: int)
    requires
        mismatch_from(q, to, d, m),
    ensures
        m <= w < to.len(),
        0 <= w - d < q.len(),
        q[w - d] != to[w],
    decreases to.len() - m,
{
    if q[m - d] != to[m] {
        m
    } else {
        lemma_mismatch_witness(q, to, d, m + 1)
    }
}

proof fn lemma_straddle_at(q: Seq<char>, to: Seq<char>, d0: int, d: int)
    requires
        straddle_free_from(q, to, d0),
        d0 <= d < to.len(),
    ensures
        mismatch_from(q, to, d, if d < 0 { 0 } else { d }),
    decreases d - d0,
{
    if d0 < d {
        lemma_straddle_at(q, to, d0 + 1, d);
    }
}

proof fn lemma_find_from_sound(s: Seq<char>, pat: Seq<char>, i: int)
    requires
        0 <= i,
    ensures
        match crate::text::find_seq_from(s, pat, i) {
            Some(k) => i <= k && occurs_at(s, pat, k) && forall|j: int|
                i <= j < k ==> !occurs_at(s, pat, j),
            None => forall|j: int| i <= j ==> !occurs_at(s, pat, j),
        },
    decreases s.len() + 1 - i,
{
    if i <= s.len() && !occurs_at(s, pat, i) {
        lemma_find_from_sound(s, pat, i + 1);
    }
}

/// Replacing `from` by `to` leaves no occurrence of `q` when `q` was absent (or is the
/// pattern being replaced) and `q` cannot overlap an inserted `to`.
proof fn lemma_replace_all_absent(s: Seq<char>, from: Seq<char>, to: Seq<char>, q: Seq<char>)
    requires
        from.len() > 0,
        straddle_free(q, to),
        q == from || !crate::text::contains_seq(s, q),
    ensures
        !crate::text::contains_seq(replace_all(s, from, to), q),
    decreases s.len(),
{
    lemma_find_from_sound(s, from, 0);
    match first_index(s, from) {
        None => {
            assert forall|j: int| !occurs_at(s, q, j) by {
                if q != from {
                    assert(!occurs_at(s, q, j));
                }
            }
        },
        Some(i) => {
            let off = i + from.len();
            let left = s.take(i);
            let rest = s.skip(off);
            let right = replace_all(rest, from, to);
            assert forall|j: int| !occurs_at(rest, q, j) || q == from by {
                if occurs_at(rest, q, j) && q != from {
                    assert(s.subrange(j + off, j + off + q.len()) =~= rest.subrange(j, j + q.len()));
                    assert(occurs_at(s, q, j + off));
                }
            }
            lemma_replace_all_absent(rest, from, to, q);
            assert forall|j: int| !occurs_at(left, q, j) by {
                if occurs_at(left, q, j) {
                    assert(s.subrange(j, j + q.len()) =~= left.subrange(j, j + q.len()));
                    assert(occurs_at(s, q, j));
                }
            }
            let res = left + to + right;
            assert(replace_all(s, from, to) == res);
            let a = left.len() as int;
            let b = a + to.len();
            assert forall|p: int| !occurs_at(res, q, p) by {
                if occurs_at(res, q, p) {
                    if p + q.len() <= a {
                        assert(left.subrange(p, p + q.len()) =~= res.subrange(p, p + q.len()));
                        assert(occurs_at(left, q, p));
                    } else if p >= b {
                        assert(right.subrange(p - b, p - b + q.len()) =~= res.subrange(
                            p,
                            p + q.len(),
                        ));
                        assert(occurs_at(right, q, p - b));
                    } else {
                        let d = p - a;
                        lemma_straddle_at(q, to, 1 - q.len(), d);
                        let w = lemma_mismatch_witness(q, to, d, if d < 0 { 0 } else { d });
                        assert(res[a + w] == to[w]);
                        assert(res.subrange(p, p + q.len())[w - d] == res[a + w]);
                    }
                }
            }
        },
    }
}

proof fn lemma_replace_all_unchanged(s: Seq<char>, from: Seq<char>, to: Seq<char>)
    requires
        from.len() > 0,
        !crate::text::contains_seq(s, from),
    ensures
        replace_all(s, from, to) == s,
{
    lemma_find_from_sound(s, from, 0);
    if let Some(i) = first_index(s, from) {
        assert(occurs_at(s, from, i));
    }
}

/// Sanitised plugin text holds none of the three legacy spellings that the sanitiser
/// replaces (`CyberPanel`, `cyberpanel`, `CYBERPANEL`), and sanitising it again changes
/// nothing.
pub proof fn lemma_sanitize_removes_legacy_names(raw: Seq<char>)
    ensures
        !crate::text::contains_seq(sanitize_spec(raw), "CyberPanel"@),
        !crate::text::contains_seq(sanitize_spec(raw), "cyberpanel"@),
        !crate::text::contains_seq(sanitize_spec(raw), "CYBERPANEL"@),
        sanitize_spec(sanitize_spec(raw)) == sanitize_spec(raw),
{
    reveal_strlit("CyberPanel");
    reveal_strlit("cyberpanel");
    reveal_strlit("CYBERPANEL");
    reveal_strlit("CPN Panel");
    reveal_strlit("CPN");
    let camel = seq!['C', 'y', 'b', 'e', 'r', 'P', 'a', 'n', 'e', 'l'];
    let lower = seq!['c', 'y', 'b', 'e', 'r', 'p', 'a', 'n', 'e', 'l'];
    let upper = seq!['C', 'Y', 'B', 'E', 'R', 'P', 'A', 'N', 'E', 'L'];
    let long = seq!['C', 'P', 'N', ' ', 'P', 'a', 'n', 'e', 'l'];
    let short = seq!['C', 'P', 'N'];
    assert("CyberPanel"@ =~= camel);
    assert("cyberpanel"@ =~= lower);
    assert("CYBERPANEL"@ =~= upper);
    assert("CPN Panel"@ =~= long);
    assert("CPN"@ =~= short);
    assert(straddle_free(
        seq!['C', 'y', 'b', 'e', 'r', 'P', 'a', 'n', 'e', 'l'],
        seq!['C', 'P', 'N', ' ', 'P', 'a', 'n', 'e', 'l'],
    )) by {
        reveal_with_fuel(straddle_free_from, 20);
        reveal_with_fuel(mismatch_from, 11);
    }
    assert(straddle_free(
        seq!['C', 'y', 'b', 'e', 'r', 'P', 'a', 'n', 'e', 'l'],
        seq!['C', 'P', 'N'],
    )) by {
        reveal_with_fuel(straddle_free_from, 20);
        reveal_with_fuel(mismatch_from, 11);
    }
    assert(straddle_free(
        seq!['c', 'y', 'b', 'e', 'r', 'p', 'a', 'n', 'e', 'l'],
        seq!['C', 'P', 'N'],
    )) by {
        reveal_with_fuel(straddle_free_from, 20);
        reveal_with_fuel(mismatch_from, 11);
    }
    assert(straddle_free(
        seq!['C', 'Y', 'B', 'E', 'R', 'P', 'A', 'N', 'E', 'L'],
        seq!['C', 'P', 'N'],
    )) by {
        reveal_with_fuel(straddle_free_from, 20);
        reveal_with_fuel(mismatch_from, 11);
    }
    let a = replace_all(raw, camel, long);
    let b = replace_all(a, lower, short);
    let c = replace_all(b, upper, short);
    assert(c == sanitize_spec(raw));
    lemma_replace_all_absent(raw, camel, long, camel);
    lemma_replace_all_absent(a, lower, short, lower);
    lemma_replace_all_absent(a, lower, short, camel);
    lemma_replace_all_absent(b, upper, short, upper);
    lemma_replace_all_absent(b, upper, short, lower);
    lemma_replace_all_absent(b, upper, short, camel);
    lemma_replace_all_unchanged(c, camel, long);
    lemma_replace_all_unchanged(c, lower, short);
    lemma_replace_all_unchanged(c, upper, short);
}

/// A character a plugin id may hold: ASCII letters and digits, `_` and `-`.
pub open spec fn plugin_id_char(c: char) -> bool {
    let u = c as u32;
    (48 <= u && u <= 57) || (65 <= u && u <= 90) || (97 <= u && u <= 122) || c == '_' || c == '-'
}

/// Directory names of the archive that are not plugins.
pub open spec fn reserved_id(id: Seq<char>) -> bool {
    id == ".github"@ || id == "docs"@ || id == "scripts"@ || id == "to-do"@ || id == "test"@
}

/// A plugin directory / catalog id: trimmed, present, at most 64 characters, no control
/// characters, only letters, digits, `_` and `-`, and not a reserved name.
pub open spec fn plugin_id_spec(raw: Seq<char>) -> Result<Seq<char>, Seq<char>> {
    let id = trim(raw);
    if id.len() == 0 {
        Err("Plugin id is required"@)
    } else if id.len() > 64 {
        Err("Plugin id is too long"@)
    } else if exists|i: int| 0 <= i < id.len() && crate::panel_site_git::is_control(#[trigger] id[i]) {
        Err("Plugin id cannot include control characters"@)
    } else if !(forall|i: int| 0 <= i < id.len() ==> plugin_id_char(#[trigger] id[i])) {
        Err("Plugin id may only contain letters, digits, underscore, and hyphen"@)
    } else if reserved_id(id) {
        Err("That name is reserved and cannot be installed as a plugin"@)
    } else {
        Ok(id)
    }
}

/// Validate a plugin directory / catalog id.
pub fn normalize_plugin_id(raw: &str) -> (r: Result<String, String>)
    ensures
        r is Ok <==> plugin_id_spec(raw@) is Ok,
        r matches Ok(id) ==> plugin_id_spec(raw@) == Ok::<Seq<char>, Seq<char>>(id@),
        r matches Err(e) ==> plugin_id_spec(raw@) == Err::<Seq<char>, Seq<char>>(e@),
{
    let v = chars_of(raw);
    let (a, b) = crate::text::trim_bounds(&v);
    let id = crate::text::vec_range(&v, a, b);
    if id.len() == 0 {
        return Err("Plugin id is required".to_owned());
    }
    if id.len() > 64 {
        return Err("Plugin id is too long".to_owned());
    }
    let mut i: usize = 0;
    while i < id.len()
        invariant
            i <= id.len(),
            id@ == trim(raw@),
            0 < id@.len() <= 64,
            forall|j: int| 0 <= j < i ==> !crate::panel_site_git::is_control(#[trigger] id@[j]),
        decreases id.len() - i,
    {
        let u: u32 = id[i] as u32;
        if u <= 0x1F || (0x7F <= u && u <= 0x9F) {
            assert(crate::panel_site_git::is_control(id@[i as int]));
            return Err("Plugin id cannot include control characters".to_owned());
        }
        i += 1;
    }
    let mut k: usize = 0;
    while k < id.len()
        invariant
            k <= id.len(),
            id@ == trim(raw@),
            0 < id@.len() <= 64,
            forall|j: int| 0 <= j < id@.len() ==> !crate::panel_site_git::is_control(#[trigger] id@[j]),
            forall|j: int| 0 <= j < k ==> plugin_id_char(#[trigger] id@[j]),
        decreases id.len() - k,
    {
        let c = id[k];
        let u: u32 = c as u32;
        if !((48 <= u && u <= 57) || (65 <= u && u <= 90) || (97 <= u && u <= 122) || c == '_' || c == '-') {
            assert(!plugin_id_char(id@[k as int]));
            return Err("Plugin id may only contain letters, digits, underscore, and hyphen".to_owned());
        }
        k += 1;
    }
    let s = crate::text::string_of_chars(&id);
    let t = s.as_str();
    if str_eq(t, ".github") || str_eq(t, "docs") || str_eq(t, "scripts") || str_eq(t, "to-do") || str_eq(
        t,
        "test",
    ) {
        return Err("That name is reserved and cannot be installed as a plugin".to_owned());
    }
    Ok(s)
}

/// Turns a plugin on or off in its record; the rest of the record stays.
pub fn set_plugin_enabled(manifest: &mut CpnPluginManifest, enabled: bool)
    ensures
        final(manifest).enabled == enabled,
        final(manifest).id == old(manifest).id,
        final(manifest).name == old(manifest).name,
        final(manifest).version == old(manifest).version,
        final(manifest).pricing == old(manifest).pricing,
        final(manifest).installed_at_unix == old(manifest).installed_at_unix,
        final(manifest).source == old(manifest).source,
{
    manifest.enabled = enabled;
}

} // verus!
