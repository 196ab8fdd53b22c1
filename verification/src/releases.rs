//! CPN installer releases: version normalisation and ordering, the retired `1.0.x`
//! identities, RPM release strings and the choice of a native package for a guest.

use vstd::prelude::*;
use vstd::string::*;
use std::cmp::Ordering;
use crate::guest::{GuestOs, PackageFamily};
use crate::text::{
    all_digits, chars_of, contains_seq, dec, digit_val, first_index, find_first, is_digit,
    lower_vec, push_dec, str_eq, strip_leading, strip_leading_start, string_of_range, to_lower,
    trim, trim_bounds, vec_range,
};

verus! {

/// One downloadable file of a release.
pub struct ReleaseAsset {
    pub name: String,
    pub browser_download_url: String,
    pub content_type: String,
    pub size: u64,
}

/// The kind of native package picked for a guest.
#[derive(Clone, Copy, Debug, PartialEq, Eq, Structural)]
pub enum NativePackageKind {
    Rpm,
    Deb,
}

/// A published release and the assets the maintenance code looks for.
pub struct CpnRelease {
    pub tag_name: String,
    pub version: String,
    pub name: String,
    pub published_at: String,
    pub prerelease: bool,
    pub draft: bool,
    pub html_url: String,
    pub assets: Vec<ReleaseAsset>,
    /// Legacy/UI summary field. Maintenance code must use `compatible_package_asset`.
    pub rpm_asset: Option<ReleaseAsset>,
    pub binary_asset: Option<ReleaseAsset>,
    pub checksums_asset: Option<ReleaseAsset>,
    pub checksums_asc_asset: Option<ReleaseAsset>,
}

/// The answer of a version check against the release feed.
pub struct VersionCheck {
    pub running_version: String,
    pub installed_version: String,
    pub latest_version: Option<String>,
    pub latest_tag: Option<String>,
    pub update_available: bool,
    pub downgrade_possible: bool,
    pub repo: String,
    pub source: String,
    pub releases: Vec<CpnRelease>,
    pub error: Option<String>,
    pub from_cache: bool,
    pub cache_age_secs: Option<u64>,
    pub rate_limited: bool,
    pub retry_after_secs: Option<u64>,
    pub cache_note: Option<String>,
}

/// The repository releases are read from when none is configured.
pub const DEFAULT_REPO: &'static str = "Control-Panel-Network/CPN-Control-Panel-Network";

/// `raw.trim().trim_start_matches('v')`.
pub open spec fn normalize_version_spec(raw: Seq<char>) -> Seq<char> {
    strip_leading(trim(raw), 'v')
}

pub fn normalize_version(raw: &str) -> (r: String)
    ensures
        r@ == normalize_version_spec(raw@),
{
    let v = chars_of(raw);
    let (a, b) = trim_bounds(&v);
    let s = strip_leading_start(&v, a, b, 'v');
    string_of_range(&v, s, b)
}

/// Appends a number to the parts when it fits in a `u64` (a longer run does not parse).
pub open spec fn push_fitting(p: Seq<u64>, v: nat) -> Seq<u64> {
    if v <= u64::MAX {
        p.push(v as u64)
    } else {
        p
    }
}

/// Left-to-right scan for digit runs: the numbers closed so far, whether a run is open,
/// the value of the open run, and whether the current dot-separated segment has any
/// character and any digit.
pub open spec fn scan_parts(s: Seq<char>) -> (Seq<u64>, bool, nat, bool, bool)
    decreases s.len(),
{
    if s.len() == 0 {
        (Seq::empty(), false, 0, false, false)
    } else {
        let prev = scan_parts(s.drop_last());
        let c = s.last();
        if is_digit(c) {
            (prev.0, true, prev.2 * 10 + digit_val(c), true, true)
        } else {
            let closed = if prev.1 { push_fitting(prev.0, prev.2) } else { prev.0 };
            if c == '.' {
                (if prev.3 && !prev.4 { closed.push(0) } else { closed }, false, 0, false, false)
            } else {
                (closed, false, 0, true, prev.4)
            }
        }
    }
}

/// The numbers of a version string: its maximal runs of ASCII digits, each read as a
/// `u64` (a run too large for a `u64` is left out), and `0` for each non-empty
/// dot-separated segment without a digit.
pub open spec fn version_parts(s: Seq<char>) -> Seq<u64> {
    let st = scan_parts(s);
    let closed = if st.1 { push_fitting(st.0, st.2) } else { st.0 };
    if st.3 && !st.4 {
        closed.push(0)
    } else {
        closed
    }
}

proof fn lemma_scan_closed_zero(s: Seq<char>)
    ensures
        !scan_parts(s).1 ==> scan_parts(s).2 == 0,
    decreases s.len(),
{
    if s.len() > 0 {
        lemma_scan_closed_zero(s.drop_last());
    }
}

/// The numeric parts of `v`, as `compare_versions` reads them.
pub fn version_parts_of(v: &Vec<char>) -> (r: Vec<u64>)
    ensures
        r@ == version_parts(v@),
{
    let mut parts: Vec<u64> = Vec::new();
    let mut in_run = false;
    let mut cur: u64 = 0;
    let mut over = false;
    let mut seg_any = false;
    let mut seg_digit = false;
    let ghost mut val: nat = 0;
    let mut i: usize = 0;
    assert(v@.take(0) =~= Seq::<char>::empty());
    while i < v.len()
        invariant
            i <= v.len(),
            scan_parts(v@.take(i as int)) == (parts@, in_run, val, seg_any, seg_digit),
            !over ==> cur == val,
            over ==> val > u64::MAX,
        decreases v.len() - i,
    {
        let c = v[i];
        assert(v@.take(i + 1).drop_last() =~= v@.take(i as int));
        assert(v@.take(i + 1).last() == c);
        let u: u32 = c as u32;
        if 48 <= u && u <= 57 {
            let d: u64 = (u - 48) as u64;
            proof {
                lemma_scan_closed_zero(v@.take(i as int));
                val = val * 10 + digit_val(c);
            }
            if !over {
                if cur > (u64::MAX - d) / 10 {
                    over = true;
                } else {
                    cur = cur * 10 + d;
                }
            }
            in_run = true;
            seg_any = true;
            seg_digit = true;
        } else {
            if in_run && !over {
                parts.push(cur);
            }
            if c == '.' {
                if seg_any && !seg_digit {
                    parts.push(0);
                }
                seg_any = false;
                seg_digit = false;
            } else {
                seg_any = true;
            }
            in_run = false;
            cur = 0;
            over = false;
            proof {
                val = 0;
            }
        }
        i += 1;
    }
    assert(v@.take(v.len() as int) =~= v@);
    if in_run && !over {
        parts.push(cur);
    }
    if seg_any && !seg_digit {
        parts.push(0);
    }
    parts
}

/// Part `i` of a version, `0` past its end.
pub open spec fn part_at(p: Seq<u64>, i: int) -> int {
    if 0 <= i < p.len() {
        p[i] as int
    } else {
        0
    }
}

/// Lexicographic order of two part lists from index `i`, missing parts read as `0`:
/// `-1`, `0` or `1`.
pub open spec fn order_parts_from(a: Seq<u64>, b: Seq<u64>, i: int) -> int
    decreases a.len() + b.len() - i,
{
    if i < 0 || (i >= a.len() && i >= b.len()) {
        0
    } else if part_at(a, i) < part_at(b, i) {
        -1
    } else if part_at(a, i) > part_at(b, i) {
        1
    } else {
        order_parts_from(a, b, i + 1)
    }
}

/// `order_parts_from` at a machine index.
pub open spec fn order_parts_at(a: Seq<u64>, b: Seq<u64>, i: usize) -> int {
    order_parts_from(a, b, i as int)
}

/// How `compare_versions(left, right)` orders two version strings: `-1`, `0` or `1`.
pub open spec fn version_order(left: Seq<char>, right: Seq<char>) -> int {
    order_parts_from(
        version_parts(normalize_version_spec(left)),
        version_parts(normalize_version_spec(right)),
        0,
    )
}

/// Compare dotted numeric versions (`1.2.3` vs `1.2.10`). Non-numeric segments sort as 0.
pub fn compare_versions(left: &str, right: &str) -> (r: Ordering)
    ensures
        (r == Ordering::Less) == (version_order(left@, right@) < 0),
        (r == Ordering::Equal) == (version_order(left@, right@) == 0),
        (r == Ordering::Greater) == (version_order(left@, right@) > 0),
{
    let ln = normalize_version(left);
    let rn = normalize_version(right);
    let a = version_parts_of(&chars_of(ln.as_str()));
    let b = version_parts_of(&chars_of(rn.as_str()));
    let len = if a.len() > b.len() {
        a.len()
    } else {
        b.len()
    };
    let mut i: usize = 0;
    while i < len
        invariant
            i <= len,
            len == a.len() || len == b.len(),
            a.len() <= len,
            b.len() <= len,
            version_order(left@, right@) == order_parts_at(a@, b@, i),
        decreases len - i,
    {
        let x: u64 = if i < a.len() {
            a[i]
        } else {
            0
        };
        let y: u64 = if i < b.len() {
            b[i]
        } else {
            0
        };
        if x < y {
            return Ordering::Less;
        }
        if x > y {
            return Ordering::Greater;
        }
        i += 1;
    }
    Ordering::Equal
}

proof fn lemma_order_antisymmetric(a: Seq<u64>, b: Seq<u64>, i: int)
    ensures
        order_parts_from(a, b, i) == -order_parts_from(b, a, i),
    decreases a.len() + b.len() - i,
{
    if !(i < 0 || (i >= a.len() && i >= b.len())) && part_at(a, i) == part_at(b, i) {
        lemma_order_antisymmetric(a, b, i + 1);
    }
}

proof fn lemma_order_reflexive(a: Seq<u64>, i: int)
    ensures
        order_parts_from(a, a, i) == 0,
    decreases a.len() + a.len() - i,
{
    if !(i < 0 || i >= a.len()) {
        lemma_order_reflexive(a, i + 1);
    }
}

proof fn lemma_order_transitive(a: Seq<u64>, b: Seq<u64>, c: Seq<u64>, i: int)
    requires
        order_parts_from(a, b, i) <= 0,
        order_parts_from(b, c, i) <= 0,
    ensures
        order_parts_from(a, c, i) <= 0,
    decreases a.len() + b.len() + c.len() - i,
{
    if i >= 0 && !(i >= a.len() && i >= b.len() && i >= c.len()) {
        if part_at(a, i) == part_at(b, i) && part_at(b, i) == part_at(c, i) {
            lemma_order_transitive(a, b, c, i + 1);
        }
    }
}

/// Law: swapping the arguments of `compare_versions` reverses the order.
pub proof fn lemma_version_order_antisymmetric(left: Seq<char>, right: Seq<char>)
    ensures
        version_order(left, right) == -version_order(right, left),
{
    lemma_order_antisymmetric(
        version_parts(normalize_version_spec(left)),
        version_parts(normalize_version_spec(right)),
        0,
    );
}

/// Law: every version compares equal to itself.
pub proof fn lemma_version_order_reflexive(v: Seq<char>)
    ensures
        version_order(v, v) == 0,
{
    lemma_order_reflexive(version_parts(normalize_version_spec(v)), 0);
}

/// Law: `compare_versions` orders versions transitively.
pub proof fn lemma_version_order_transitive(a: Seq<char>, b: Seq<char>, c: Seq<char>)
    requires
        version_order(a, b) <= 0,
        version_order(b, c) <= 0,
    ensures
        version_order(a, c) <= 0,
{
    lemma_order_transitive(
        version_parts(normalize_version_spec(a)),
        version_parts(normalize_version_spec(b)),
        version_parts(normalize_version_spec(c)),
        0,
    );
}

/// `1.0.0` or `1.0.1` after normalisation: the identities retagged as `0.2.x`.
pub open spec fn is_retired_identity_spec(version: Seq<char>) -> bool {
    normalize_version_spec(version) == "1.0.0"@ || normalize_version_spec(version) == "1.0.1"@
}

/// Retired CPN package identities that were retagged on GitHub as `0.2.x-alpha.*`.
/// RPM/semver still treat `1.0.0`/`1.0.1` as newer than `0.2.6`, which blocks upgrades.
pub fn is_retired_cpn_1_0_identity(version: &str) -> (r: bool)
    ensures
        r == is_retired_identity_spec(version@),
{
    let n = normalize_version(version);
    str_eq(n.as_str(), "1.0.0") || str_eq(n.as_str(), "1.0.1")
}

/// The `0.2.x` line: the normalised version starts with `0.2.`.
pub open spec fn is_active_line_spec(version: Seq<char>) -> bool {
    "0.2."@.is_prefix_of(normalize_version_spec(version))
}

/// Current alpha product line after the 1.0.x retag (`0.2.x`, including prerelease tags).
pub fn is_active_0_2_line(version: &str) -> (r: bool)
    ensures
        r == is_active_line_spec(version@),
{
    let n = normalize_version(version);
    crate::text::starts_with_str(n.as_str(), "0.2.")
}

/// Official upgrade may replace leftover `1.0.0`/`1.0.1` installs with published `0.2.x`.
pub fn is_retag_migration(installed: &str, target: &str) -> (r: bool)
    ensures
        r == (is_retired_identity_spec(installed@) && is_active_line_spec(target@)),
{
    is_retired_cpn_1_0_identity(installed) && is_active_0_2_line(target)
}

/// `c` is `prefix` followed by one or more ASCII digits.
pub open spec fn compact_token(c: Seq<char>, prefix: Seq<char>) -> bool {
    prefix.is_prefix_of(c) && c.len() > prefix.len() && all_digits(c.skip(prefix.len() as int))
}

/// `alpha21` -> `alpha.21`, `beta3` -> `beta.3`, `rc1` -> `rc.1`; anything else trimmed as is.
pub open spec fn expand_prerelease_spec(compact: Seq<char>) -> Seq<char> {
    let c = trim(compact);
    if compact_token(c, "alpha"@) {
        "alpha"@ + "."@ + c.skip(5)
    } else if compact_token(c, "beta"@) {
        "beta"@ + "."@ + c.skip(4)
    } else if compact_token(c, "rc"@) {
        "rc"@ + "."@ + c.skip(2)
    } else {
        c
    }
}

fn expand_with(c: &Vec<char>, prefix: &str) -> (r: Option<String>)
    ensures
        match r {
            Some(s) => compact_token(c@, prefix@) && s@ == prefix@ + "."@ + c@.skip(prefix@.len() as int),
            None => !compact_token(c@, prefix@),
        },
{
    let p = chars_of(prefix);
    if !crate::text::match_at(c, &p, 0) || c.len() == p.len() {
        proof {
            if prefix@.is_prefix_of(c@) {
                assert(c@.subrange(0, p@.len() as int) =~= p@);
            }
        }
        return None;
    }
    assert(prefix@.is_prefix_of(c@));
    let mut i = p.len();
    while i < c.len()
        invariant
            p.len() <= i <= c.len(),
            p@ == prefix@,
            forall|j: int| p.len() <= j < i ==> is_digit(#[trigger] c@[j]),
        decreases c.len() - i,
    {
        let u: u32 = c[i] as u32;
        if !(48 <= u && u <= 57) {
            assert(!is_digit(c@.skip(p.len() as int)[i - p.len()]));
            return None;
        }
        i += 1;
    }
    assert(all_digits(c@.skip(p.len() as int))) by {
        assert forall|j: int| 0 <= j < c@.skip(p.len() as int).len() implies is_digit(
            #[trigger] c@.skip(p.len() as int)[j],
        ) by {
            assert(c@.skip(p.len() as int)[j] == c@[j + p.len()]);
        }
    }
    let mut out = prefix.to_owned();
    out.append(".");
    let rest = string_of_range(c, p.len(), c.len());
    out.append(rest.as_str());
    assert(c@.subrange(p.len() as int, c.len() as int) =~= c@.skip(p.len() as int));
    Some(out)
}

/// Expand compact RPM Release prerelease tokens back toward Cargo form.
/// `alpha21` -> `alpha.21`, `beta3` -> `beta.3`, `rc1` -> `rc.1`.
pub fn expand_compact_prerelease(compact: &str) -> (r: String)
    ensures
        r@ == expand_prerelease_spec(compact@),
{
    proof {
        reveal_strlit("alpha");
        reveal_strlit("beta");
        reveal_strlit("rc");
    }
    let v = chars_of(compact);
    let (a, b) = trim_bounds(&v);
    let c = vec_range(&v, a, b);
    if let Some(s) = expand_with(&c, "alpha") {
        return s;
    }
    if let Some(s) = expand_with(&c, "beta") {
        return s;
    }
    if let Some(s) = expand_with(&c, "rc") {
        return s;
    }
    crate::text::string_of_chars(&c)
}

/// The RPM Release with its dist tag (`.el9`, `.fc41`, ...) cut off.
pub open spec fn release_without_dist(rel: Seq<char>) -> Seq<char> {
    match first_index(rel, ".el"@) {
        Some(i) => rel.take(i),
        None => match first_index(rel, ".fc"@) {
            Some(i) => rel.take(i),
            None => rel,
        },
    }
}

/// RPM Version + Release back to the Cargo version: `0.2.6` + `0.alpha21.el9` ->
/// `0.2.6-alpha.21`; a Release that is not `0.<token>` (or is `0.1`) keeps the version alone.
pub open spec fn cargo_version_spec(version: Seq<char>, release: Seq<char>) -> Seq<char> {
    let v = normalize_version_spec(version);
    let rel = release_without_dist(trim(release));
    if "0."@.is_prefix_of(rel) && rel.len() > 2 && rel.skip(2) != "1"@ {
        v + "-"@ + expand_prerelease_spec(rel.skip(2))
    } else {
        v
    }
}

/// Map RPM Version + Release (from `sync-version.sh`) back to Cargo package version.
/// Example: `0.2.6` + `0.alpha21.el9` -> `0.2.6-alpha.21`.
pub fn cargo_version_from_rpm(version: &str, release: &str) -> (r: String)
    ensures
        r@ == cargo_version_spec(version@, release@),
{
    proof {
        reveal_strlit("0.");
        reveal_strlit("1");
    }
    let mut out = normalize_version(version);
    let v = chars_of(release);
    let (a, b) = trim_bounds(&v);
    let t = vec_range(&v, a, b);
    let el = chars_of(".el");
    let fc = chars_of(".fc");
    let end = match find_first(&t, &el) {
        Some(i) => i,
        None => match find_first(&t, &fc) {
            Some(i) => i,
            None => t.len(),
        },
    };
    let ghost rel = release_without_dist(t@);
    assert(t@.take(end as int) =~= rel);
    let rel_v = vec_range(&t, 0, end);
    assert(rel_v@ =~= rel);
    if rel_v.len() > 2 && rel_v[0] == '0' && rel_v[1] == '.' {
        let compact = string_of_range(&rel_v, 2, rel_v.len());
        assert(compact@ =~= rel.skip(2));
        assert("0."@.is_prefix_of(rel)) by {
            assert(rel.subrange(0, 2) =~= "0."@);
        }
        if !str_eq(compact.as_str(), "1") {
            out.append("-");
            let e = expand_compact_prerelease(compact.as_str());
            out.append(e.as_str());
            return out;
        }
        return out;
    }
    proof {
        if "0."@.is_prefix_of(rel) && rel.len() > 2 {
            assert(rel.subrange(0, 2)[0] == rel[0]);
            assert(rel.subrange(0, 2)[1] == rel[1]);
        }
    }
    out
}

/// An RPM of the installer for EL `major` on `arch`: `cpn-installer-*.el<major>.*.<arch>.rpm`,
/// read case-insensitively.
pub open spec fn rpm_match(name: Seq<char>, major: u32, arch: Seq<char>) -> bool {
    let lower = to_lower(name);
    &&& "cpn-installer-"@.is_prefix_of(lower)
    &&& ("."@ + arch + ".rpm"@).is_suffix_of(lower)
    &&& contains_seq(lower, ".el"@ + dec(major as nat) + "."@)
}

/// A Debian package of the installer for `arch`: `cpn-installer_*_<arch>.deb`.
pub open spec fn deb_match(name: Seq<char>, arch: Seq<char>) -> bool {
    let lower = to_lower(name);
    &&& "cpn-installer_"@.is_prefix_of(lower)
    &&& ("_"@ + arch + ".deb"@).is_suffix_of(lower)
}

pub fn rpm_name_matches(name: &str, major: u32, rpm_arch: &str) -> (r: bool)
    ensures
        r == rpm_match(name@, major, rpm_arch@),
{
    let lower = crate::text::lower_str(name);
    let mut suffix = ".".to_owned();
    suffix.append(rpm_arch);
    suffix.append(".rpm");
    let mut el = ".el".to_owned();
    push_dec(&mut el, major as u64);
    el.append(".");
    crate::text::starts_with_str(lower.as_str(), "cpn-installer-") && crate::text::ends_with_str(
        lower.as_str(),
        suffix.as_str(),
    ) && crate::text::contains_str(lower.as_str(), el.as_str())
}

pub fn deb_name_matches(name: &str, deb_arch: &str) -> (r: bool)
    ensures
        r == deb_match(name@, deb_arch@),
{
    let lower = crate::text::lower_str(name);
    let mut suffix = "_".to_owned();
    suffix.append(deb_arch);
    suffix.append(".deb");
    crate::text::starts_with_str(lower.as_str(), "cpn-installer_") && crate::text::ends_with_str(
        lower.as_str(),
        suffix.as_str(),
    )
}

/// The first asset from index `i` on that is an RPM for `major` and `arch`.
pub open spec fn first_rpm_from(assets: Seq<ReleaseAsset>, major: u32, arch: Seq<char>, i: int) -> Option<int>
    decreases assets.len() - i,
{
    if i < 0 || i >= assets.len() {
        None
    } else if rpm_match(assets[i].name@, major, arch) {
        Some(i)
    } else {
        first_rpm_from(assets, major, arch, i + 1)
    }
}

/// The first asset from index `i` on that is a Debian package for `arch`.
pub open spec fn first_deb_from(assets: Seq<ReleaseAsset>, arch: Seq<char>, i: int) -> Option<int>
    decreases assets.len() - i,
{
    if i < 0 || i >= assets.len() {
        None
    } else if deb_match(assets[i].name@, arch) {
        Some(i)
    } else {
        first_deb_from(assets, arch, i + 1)
    }
}

/// The architecture names, when the build has them: RPM name and Debian name.
pub open spec fn arch_view(arch: Option<(&str, &str)>) -> Option<(Seq<char>, Seq<char>)> {
    match arch {
        Some((r, d)) => Some((r@, d@)),
        None => None,
    }
}

/// Which asset (by index) and which kind `compatible_package_asset` picks.
pub open spec fn package_choice(
    assets: Seq<ReleaseAsset>,
    family: PackageFamily,
    major: u32,
    arch: Option<(Seq<char>, Seq<char>)>,
) -> Option<(int, NativePackageKind)> {
    match arch {
        None => None,
        Some((rpm_arch, deb_arch)) => match family {
            PackageFamily::Dnf => match first_rpm_from(assets, major, rpm_arch, 0) {
                Some(i) => Some((i, NativePackageKind::Rpm)),
                None => None,
            },
            PackageFamily::Apt => match first_deb_from(assets, deb_arch, 0) {
                Some(i) => Some((i, NativePackageKind::Deb)),
                None => None,
            },
            PackageFamily::Windows => None,
        },
    }
}

proof fn lemma_first_rpm_fits(assets: Seq<ReleaseAsset>, major: u32, arch: Seq<char>, i: int)
    requires
        0 <= i,
    ensures
        first_rpm_from(assets, major, arch, i) matches Some(k) ==> i <= k < assets.len() && rpm_match(
            assets[k].name@,
            major,
            arch,
        ),
    decreases assets.len() - i,
{
    if i < assets.len() && !rpm_match(assets[i].name@, major, arch) {
        lemma_first_rpm_fits(assets, major, arch, i + 1);
    }
}

proof fn lemma_first_deb_fits(assets: Seq<ReleaseAsset>, arch: Seq<char>, i: int)
    requires
        0 <= i,
    ensures
        first_deb_from(assets, arch, i) matches Some(k) ==> i <= k < assets.len() && deb_match(assets[k].name@, arch),
    decreases assets.len() - i,
{
    if i < assets.len() && !deb_match(assets[i].name@, arch) {
        lemma_first_deb_fits(assets, arch, i + 1);
    }
}

/// Law: the chosen package fits the guest. An RPM is chosen only for a dnf guest, and its
/// lower-cased name starts with `cpn-installer-`, ends with `.<rpm arch>.rpm` and holds
/// `.el<major>.`; a Debian package is chosen only for an apt guest, and its lower-cased name
/// starts with `cpn-installer_` and ends with `_<deb arch>.deb`.
pub proof fn lemma_chosen_package_fits_guest(
    assets: Seq<ReleaseAsset>,
    family: PackageFamily,
    major: u32,
    rpm_arch: Seq<char>,
    deb_arch: Seq<char>,
)
    ensures
        match package_choice(assets, family, major, Some((rpm_arch, deb_arch))) {
            Some((i, NativePackageKind::Rpm)) => {
                let lower = to_lower(assets[i].name@);
                &&& 0 <= i < assets.len()
                &&& family == PackageFamily::Dnf
                &&& "cpn-installer-"@.is_prefix_of(lower)
                &&& ("."@ + rpm_arch + ".rpm"@).is_suffix_of(lower)
                &&& contains_seq(lower, ".el"@ + dec(major as nat) + "."@)
            },
            Some((i, NativePackageKind::Deb)) => {
                let lower = to_lower(assets[i].name@);
                &&& 0 <= i < assets.len()
                &&& family == PackageFamily::Apt
                &&& "cpn-installer_"@.is_prefix_of(lower)
                &&& ("_"@ + deb_arch + ".deb"@).is_suffix_of(lower)
            },
            None => true,
        },
{
    lemma_first_rpm_fits(assets, major, rpm_arch, 0);
    lemma_first_deb_fits(assets, deb_arch, 0);
}

proof fn lemma_first_rpm_found(assets: Seq<ReleaseAsset>, major: u32, arch: Seq<char>, i: int, k: int)
    requires
        0 <= i <= k < assets.len(),
        rpm_match(assets[k].name@, major, arch),
    ensures
        first_rpm_from(assets, major, arch, i) matches Some(j) && j <= k,
    decreases k - i,
{
    if !rpm_match(assets[i].name@, major, arch) {
        lemma_first_rpm_found(assets, major, arch, i + 1, k);
    }
}

/// Law: a fitting RPM is never missed. For a dnf guest, when some asset's lower-cased name
/// starts with `cpn-installer-`, ends with `.<rpm arch>.rpm` and holds `.el<major>.`, an RPM
/// is chosen, and it is that asset or an earlier one.
pub proof fn lemma_fitting_rpm_is_chosen(
    assets: Seq<ReleaseAsset>,
    major: u32,
    rpm_arch: Seq<char>,
    deb_arch: Seq<char>,
    k: int,
)
    requires
        0 <= k < assets.len(),
        "cpn-installer-"@.is_prefix_of(to_lower(assets[k].name@)),
        ("."@ + rpm_arch + ".rpm"@).is_suffix_of(to_lower(assets[k].name@)),
        contains_seq(to_lower(assets[k].name@), ".el"@ + dec(major as nat) + "."@),
    ensures
        package_choice(assets, PackageFamily::Dnf, major, Some((rpm_arch, deb_arch))) matches Some(
            (i, kind),
        ) && kind == NativePackageKind::Rpm && i <= k,
{
    lemma_first_rpm_found(assets, major, rpm_arch, 0, k);
}

/// A field-by-field copy of an asset.
pub fn copy_asset(a: &ReleaseAsset) -> (r: ReleaseAsset)
    ensures
        r == *a,
{
    ReleaseAsset {
        name: a.name.clone(),
        browser_download_url: a.browser_download_url.clone(),
        content_type: a.content_type.clone(),
        size: a.size,
    }
}

/// Pick only a native package compatible with the detected Linux guest.
///
/// This prevents EL10 from consuming an EL8/EL9 RPM simply because GitHub
/// returned that asset first, and prevents apt-family guests from selecting RPMs.
/// `arch` holds the build's RPM and Debian architecture names (`None` on an
/// architecture without packages).
pub fn compatible_package_asset(
    release: &CpnRelease,
    guest: &GuestOs,
    arch: Option<(&str, &str)>,
) -> (r: Option<(ReleaseAsset, NativePackageKind)>)
    ensures
        r is Some <==> package_choice(release.assets@, guest.family, guest.major, arch_view(arch))
            is Some,
        r matches Some(found) ==> package_choice(
            release.assets@,
            guest.family,
            guest.major,
            arch_view(arch),
        ) matches Some(pick) && found.1 == pick.1 && found.0 == release.assets@[pick.0],
        r matches Some(found) ==> arch matches Some(names) && (match found.1 {
            NativePackageKind::Rpm => ("."@ + names.0@ + ".rpm"@).is_suffix_of(to_lower(found.0.name@)) && contains_seq(
                to_lower(found.0.name@),
                ".el"@ + dec(guest.major as nat) + "."@,
            ),
            NativePackageKind::Deb => ("_"@ + names.1@ + ".deb"@).is_suffix_of(to_lower(found.0.name@)),
        }),
{
    proof {
        if let Some(names) = arch {
            lemma_chosen_package_fits_guest(release.assets@, guest.family, guest.major, names.0@, names.1@);
        }
    }
    let (rpm_arch, deb_arch) = match arch {
        Some(p) => p,
        None => return None,
    };
    match guest.family {
        PackageFamily::Dnf => {
            let mut i: usize = 0;
            while i < release.assets.len()
                invariant
                    i <= release.assets.len(),
                    arch_view(arch) == Some((rpm_arch@, deb_arch@)),
                    guest.family == PackageFamily::Dnf,
                    first_rpm_from(release.assets@, guest.major, rpm_arch@, 0) == first_rpm_from(
                        release.assets@,
                        guest.major,
                        rpm_arch@,
                        i as int,
                    ),
                decreases release.assets.len() - i,
            {
                if rpm_name_matches(release.assets[i].name.as_str(), guest.major, rpm_arch) {
                    return Some((copy_asset(&release.assets[i]), NativePackageKind::Rpm));
                }
                i += 1;
            }
            None
        },
        PackageFamily::Apt => {
            let mut i: usize = 0;
            while i < release.assets.len()
                invariant
                    i <= release.assets.len(),
                    arch_view(arch) == Some((rpm_arch@, deb_arch@)),
                    guest.family == PackageFamily::Apt,
                    first_deb_from(release.assets@, deb_arch@, 0) == first_deb_from(
                        release.assets@,
                        deb_arch@,
                        i as int,
                    ),
                decreases release.assets.len() - i,
            {
                if deb_name_matches(release.assets[i].name.as_str(), deb_arch) {
                    return Some((copy_asset(&release.assets[i]), NativePackageKind::Deb));
                }
                i += 1;
            }
            None
        },
        PackageFamily::Windows => None,
    }
}

/// The installer RPM of the legacy summary field: lower-case name holds `cpn-installer`
/// and ends in `.rpm`.
pub open spec fn installer_rpm_name(name: Seq<char>) -> bool {
    contains_seq(to_lower(name), "cpn-installer"@) && ".rpm"@.is_suffix_of(to_lower(name))
}

/// The first asset from `i` on whose name is an installer RPM.
pub open spec fn first_installer_rpm_from(assets: Seq<ReleaseAsset>, i: int) -> Option<int>
    decreases assets.len() - i,
{
    if i < 0 || i >= assets.len() {
        None
    } else if installer_rpm_name(assets[i].name@) {
        Some(i)
    } else {
        first_installer_rpm_from(assets, i + 1)
    }
}

/// The first asset from `i` on named exactly `exact`.
pub open spec fn first_named_from(assets: Seq<ReleaseAsset>, exact: Seq<char>, i: int) -> Option<int>
    decreases assets.len() - i,
{
    if i < 0 || i >= assets.len() {
        None
    } else if assets[i].name@ == exact {
        Some(i)
    } else {
        first_named_from(assets, exact, i + 1)
    }
}

/// The asset at an optional index.
pub open spec fn asset_at(assets: Seq<ReleaseAsset>, i: Option<int>) -> Option<ReleaseAsset> {
    match i {
        Some(k) => Some(assets[k]),
        None => None,
    }
}

fn pick_rpm_asset(assets: &Vec<ReleaseAsset>) -> (r: Option<ReleaseAsset>)
    ensures
        r == asset_at(assets@, first_installer_rpm_from(assets@, 0)),
{
    let mut i: usize = 0;
    while i < assets.len()
        invariant
            i <= assets.len(),
            first_installer_rpm_from(assets@, 0) == first_installer_rpm_from(assets@, i as int),
        decreases assets.len() - i,
    {
        let lower = crate::text::lower_str(assets[i].name.as_str());
        if crate::text::contains_str(lower.as_str(), "cpn-installer") && crate::text::ends_with_str(
            lower.as_str(),
            ".rpm",
        ) {
            return Some(copy_asset(&assets[i]));
        }
        i += 1;
    }
    None
}

fn pick_named_asset(assets: &Vec<ReleaseAsset>, exact_name: &str) -> (r: Option<ReleaseAsset>)
    ensures
        r == asset_at(assets@, first_named_from(assets@, exact_name@, 0)),
{
    let mut i: usize = 0;
    while i < assets.len()
        invariant
            i <= assets.len(),
            first_named_from(assets@, exact_name@, 0) == first_named_from(
                assets@,
                exact_name@,
                i as int,
            ),
        decreases assets.len() - i,
    {
        if str_eq(assets[i].name.as_str(), exact_name) {
            return Some(copy_asset(&assets[i]));
        }
        i += 1;
    }
    None
}

/// At most the first ten characters (the date of an ISO timestamp).
pub open spec fn first_ten(s: Seq<char>) -> Seq<char> {
    if s.len() <= 10 {
        s
    } else {
        s.take(10)
    }
}

/// A release record from the fields of one entry of the releases feed; `None` when the
/// trimmed tag is empty. The version is the normalised tag, the publication date the first
/// ten characters of the timestamp, and the summary assets the first installer RPM, the
/// raw `cpn-installer` binary and the `SHA256SUMS` files among `assets`.
pub fn release_from_fields(
    tag_name: &str,
    name: &str,
    published_at: &str,
    prerelease: bool,
    draft: bool,
    html_url: &str,
    assets: Vec<ReleaseAsset>,
) -> (r: Option<CpnRelease>)
    ensures
        r is None <==> trim(tag_name@).len() == 0,
        r matches Some(rel) ==> {
            &&& rel.tag_name@ == trim(tag_name@)
            &&& rel.version@ == normalize_version_spec(trim(tag_name@))
            &&& rel.name@ == name@
            &&& rel.published_at@ == first_ten(published_at@)
            &&& rel.prerelease == prerelease
            &&& rel.draft == draft
            &&& rel.html_url@ == html_url@
            &&& rel.assets@ == assets@
            &&& rel.rpm_asset == asset_at(assets@, first_installer_rpm_from(assets@, 0))
            &&& rel.binary_asset == asset_at(assets@, first_named_from(assets@, "cpn-installer"@, 0))
            &&& rel.checksums_asset == asset_at(assets@, first_named_from(assets@, "SHA256SUMS"@, 0))
            &&& rel.checksums_asc_asset == asset_at(
                assets@,
                first_named_from(assets@, "SHA256SUMS.asc"@, 0),
            )
        },
{
    let tv = chars_of(tag_name);
    let (a, b) = trim_bounds(&tv);
    if a == b {
        return None;
    }
    let tag = string_of_range(&tv, a, b);
    let rpm_asset = pick_rpm_asset(&assets);
    let binary_asset = pick_named_asset(&assets, "cpn-installer");
    let checksums_asset = pick_named_asset(&assets, "SHA256SUMS");
    let checksums_asc_asset = pick_named_asset(&assets, "SHA256SUMS.asc");
    let pv = chars_of(published_at);
    let n = if pv.len() <= 10 {
        pv.len()
    } else {
        10
    };
    let published = string_of_range(&pv, 0, n);
    assert(pv@.subrange(0, n as int) =~= first_ten(published_at@));
    let version = normalize_version(tag.as_str());
    Some(CpnRelease {
        tag_name: tag,
        version,
        name: name.to_owned(),
        published_at: published,
        prerelease,
        draft,
        html_url: html_url.to_owned(),
        assets,
        rpm_asset,
        binary_asset,
        checksums_asset,
        checksums_asc_asset,
    })
}

} // verus!
