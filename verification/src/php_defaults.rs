//! Install-time PHP branch selection and the host default record.
//!
//! Fresh CPN installs prefer PHP 8.5 on EL9+ (Remi); EL8 keeps Remi 8.2. Operators may
//! choose 8.4 / 8.3 / 8.2, and when the preferred packages are missing the next supported
//! branch is tried. Switching module streams and writing the record are done by the
//! caller, which follows the plan computed here.

use vstd::prelude::*;
use vstd::string::*;
use crate::civil::{civil, civil_from_days};
use crate::guest::{GuestOs, PackageFamily};
use crate::php_lifecycle::{
    assert_php_branch_not_eol, assert_selected_runtime_ok, branch_check_spec, pair_lt,
    runtime_check_spec, CPN_MIN_PHP_BRANCH,
};
use crate::text::{
    chars_of, dec, dec_pad, lower_str, match_at, occurs_at, opt_view, parse_u32,
    parse_u32_spec, push_dec, push_dec_pad, split_on, split_vec, str_eq, string_of_chars,
    string_of_range, strip_leading, strip_leading_start, to_lower, trim, trim_bounds, vec_range,
};

verus! {

/// Preferred default when the operator does not pick another version.
pub const CPN_PREFERRED_PHP_BRANCH: &'static str = "8.5";

/// The record of the PHP branch enabled on the host.
pub struct PhpDefaultRecord {
    /// Major.minor branch actually enabled (for example `8.5`).
    pub branch: String,
    /// DNF module stream tag (for example `php:remi-8.5` or `php:8.2`).
    pub stream: String,
    /// Operator request (`8.5`, `auto`, empty) that produced this selection.
    pub requested: String,
    /// Human-readable note (including fallback explanation when applicable).
    pub message: String,
}

/// Fallback order when packages for the preferred (or selected) branch are missing.
pub open spec fn fallback_order() -> Seq<Seq<char>> {
    seq!["8.5"@, "8.4"@, "8.3"@, "8.2"@]
}

/// Preferred branch for a guest: Remi 8.2 on EL8, 8.5 elsewhere.
pub open spec fn preferred_branch_spec(family: PackageFamily, major: u32) -> Seq<char> {
    if family == PackageFamily::Dnf && major == 8 {
        "8.2"@
    } else {
        CPN_PREFERRED_PHP_BRANCH@
    }
}

/// Preferred branch for this guest when the operator leaves the choice empty / auto.
pub fn preferred_branch_for_guest(guest: &GuestOs) -> (r: &'static str)
    ensures
        r@ == preferred_branch_spec(guest.family, guest.major),
{
    if guest.family == PackageFamily::Dnf && guest.major == 8 {
        return "8.2";
    }
    CPN_PREFERRED_PHP_BRANCH
}

/// `s.trim_start_matches(p)` for a non-empty string pattern.
pub open spec fn strip_leading_seq(s: Seq<char>, p: Seq<char>) -> Seq<char>
    decreases s.len(),
{
    if p.len() > 0 && p.is_prefix_of(s) {
        strip_leading_seq(s.skip(p.len() as int), p)
    } else {
        s
    }
}

fn strip_leading_seq_start(v: &Vec<char>, a: usize, p: &str) -> (r: usize)
    requires
        a <= v.len(),
    ensures
        a <= r <= v.len(),
        v@.skip(r as int) == strip_leading_seq(v@.skip(a as int), p@),
{
    let pv = chars_of(p);
    let mut i = a;
    while pv.len() > 0 && match_at(v, &pv, i)
        invariant
            a <= i <= v.len(),
            pv@ == p@,
            strip_leading_seq(v@.skip(a as int), p@) == strip_leading_seq(v@.skip(i as int), p@),
        decreases v.len() - i,
    {
        assert(v@.skip(i as int).subrange(0, pv@.len() as int) =~= v@.subrange(
            i as int,
            i + pv@.len(),
        ));
        assert(v@.skip(i as int).skip(pv@.len() as int) =~= v@.skip(i + pv.len()));
        i = i + pv.len();
    }
    proof {
        if pv@.len() > 0 && p@.is_prefix_of(v@.skip(i as int)) {
            assert(v@.skip(i as int).subrange(0, pv@.len() as int) =~= v@.subrange(
                i as int,
                i + pv@.len(),
            ));
        }
    }
    i
}

/// The branch a request names: trimmed, then leading `v`, `php`, `:` and `remi-` dropped,
/// and the first two `.` pieces read as numbers.
pub open spec fn parse_branch_spec(value: Seq<char>) -> Option<(u32, u32)> {
    let c1 = strip_leading_seq(strip_leading(trim(value), 'v'), "php"@);
    let c2 = strip_leading_seq(strip_leading(c1, ':'), "remi-"@);
    let p = split_on(c2, '.');
    if p.len() < 2 {
        None
    } else {
        match (parse_u32_spec(p[0]), parse_u32_spec(p[1])) {
            (Some(a), Some(b)) => Some((a, b)),
            _ => None,
        }
    }
}

fn parse_branch(value: &str) -> (r: Option<(u32, u32)>)
    ensures
        r == parse_branch_spec(value@),
{
    let v = chars_of(value);
    let (a, b) = trim_bounds(&v);
    let t = vec_range(&v, a, b);
    let s1 = strip_leading_start(&t, 0, t.len(), 'v');
    assert(t@.subrange(0, t@.len() as int) =~= t@);
    assert(t@.subrange(s1 as int, t@.len() as int) =~= t@.skip(s1 as int));
    let s2 = strip_leading_seq_start(&t, s1, "php");
    let s3 = strip_leading_start(&t, s2, t.len(), ':');
    assert(t@.subrange(s2 as int, t@.len() as int) =~= t@.skip(s2 as int));
    assert(t@.subrange(s3 as int, t@.len() as int) =~= t@.skip(s3 as int));
    let s4 = strip_leading_seq_start(&t, s3, "remi-");
    let rest = vec_range(&t, s4, t.len());
    assert(rest@ =~= t@.skip(s4 as int));
    let parts = split_vec(&rest, '.');
    if parts.len() < 2 {
        return None;
    }
    let ma = string_of_chars(&parts[0]);
    let mi = string_of_chars(&parts[1]);
    let major = match parse_u32(ma.as_str()) {
        Some(n) => n,
        None => return None,
    };
    let minor = match parse_u32(mi.as_str()) {
        Some(n) => n,
        None => return None,
    };
    Some((major, minor))
}

/// The normalised request: empty, `auto` or `default` give the guest's preferred branch
/// (8.5 without a guest); a parseable branch gives `major.minor`; anything else the trimmed,
/// lower-cased text.
pub open spec fn normalize_request_spec(raw: Option<Seq<char>>, guest: Option<(PackageFamily, u32)>) -> Seq<
    char,
> {
    let t = to_lower(
        match raw {
            Some(r) => trim(r),
            None => Seq::empty(),
        },
    );
    if t.len() == 0 || t == "auto"@ || t == "default"@ {
        match guest {
            Some(g) => preferred_branch_spec(g.0, g.1),
            None => CPN_PREFERRED_PHP_BRANCH@,
        }
    } else {
        match parse_branch_spec(t) {
            Some((a, b)) => dec(a as nat) + "."@ + dec(b as nat),
            None => t,
        }
    }
}

/// A guest's family and major release.
pub open spec fn guest_key(guest: Option<&GuestOs>) -> Option<(PackageFamily, u32)> {
    match guest {
        Some(g) => Some((g.family, g.major)),
        None => None,
    }
}

/// Normalize installer input: empty / `auto` / `default` → guest preferred branch.
pub fn normalize_php_request(raw: Option<&str>, guest: Option<&GuestOs>) -> (r: String)
    ensures
        r@ == normalize_request_spec(opt_view(raw), guest_key(guest)),
{
    let trimmed = match raw {
        Some(s) => lower_str(crate::text::trim_str(s).as_str()),
        None => String::new(),
    };
    let t = trimmed.as_str();
    if chars_of(t).len() == 0 || str_eq(t, "auto") || str_eq(t, "default") {
        let b = match guest {
            Some(g) => preferred_branch_for_guest(g),
            None => CPN_PREFERRED_PHP_BRANCH,
        };
        return b.to_owned();
    }
    if let Some((major, minor)) = parse_branch(t) {
        let mut out = String::new();
        push_dec(&mut out, major as u64);
        out.append(".");
        push_dec(&mut out, minor as u64);
        return out;
    }
    trimmed
}

/// A fallback branch is kept when it parses and is not below the CPN minimum (8.2 when the
/// minimum itself does not parse).
pub open spec fn keep_branch(b: Seq<char>) -> bool {
    let min = match parse_branch_spec(CPN_MIN_PHP_BRANCH@) {
        Some(m) => m,
        None => (8u32, 2u32),
    };
    match parse_branch_spec(b) {
        Some(p) => !pair_lt(p, min),
        None => false,
    }
}

/// Every branch but `req`.
pub open spec fn other_than(req: Seq<char>) -> spec_fn(Seq<char>) -> bool {
    |b: Seq<char>| b != req
}

/// The fallback branches that are kept.
pub open spec fn kept_fallback() -> spec_fn(Seq<char>) -> bool {
    |b: Seq<char>| keep_branch(b)
}

/// Requested branch first when it is one of the fallbacks, then the other fallbacks in
/// order, each kept only when not below the minimum.
pub open spec fn candidate_branches_spec(requested: Seq<char>) -> Seq<Seq<char>> {
    let req = trim(requested);
    let ordered = if fallback_order().contains(req) {
        seq![req] + fallback_order().filter(other_than(req))
    } else {
        fallback_order()
    };
    ordered.filter(kept_fallback())
}

fn fallback_at(i: usize) -> (r: &'static str)
    requires
        i < 4,
    ensures
        r@ == fallback_order()[i as int],
{
    if i == 0 {
        "8.5"
    } else if i == 1 {
        "8.4"
    } else if i == 2 {
        "8.3"
    } else {
        "8.2"
    }
}

/// Branches to try: requested first, then remaining fallbacks in order, never below CPN min.
pub fn candidate_branches(requested: &str) -> (r: Vec<&'static str>)
    ensures
        r@.map_values(|s: &'static str| s@) == candidate_branches_spec(requested@),
{
    let req = crate::text::trim_str(requested);
    let ghost order = fallback_order();
    let mut found: Option<&'static str> = None;
    let mut i: usize = 0;
    while i < 4
        invariant
            i <= 4,
            order == fallback_order(),
            found matches Some(f) ==> f@ == req@ && order.contains(req@),
            found is None ==> forall|j: int| 0 <= j < i ==> order[j] != req@,
        decreases 4 - i,
    {
        let b = fallback_at(i);
        if found.is_none() && str_eq(b, req.as_str()) {
            found = Some(b);
        }
        i += 1;
    }
    let ghost ordered = if order.contains(req@) {
        seq![req@] + order.filter(other_than(req@))
    } else {
        order
    };
    let mut out: Vec<&'static str> = Vec::new();
    let mut all: Vec<&'static str> = Vec::new();
    match found {
        Some(f) => all.push(f),
        None => {},
    }
    let mut k: usize = 0;
    while k < 4
        invariant
            k <= 4,
            order == fallback_order(),
            found is Some <==> order.contains(req@),
            found matches Some(f) ==> f@ == req@,
            all@.map_values(|s: &'static str| s@) == (if order.contains(req@) {
                seq![req@] + order.take(k as int).filter(other_than(req@))
            } else {
                order.take(k as int)
            }),
        decreases 4 - k,
    {
        let b = fallback_at(k);
        let dup = match found {
            Some(f) => str_eq(f, b),
            None => false,
        };
        proof {
            assert(order.take(k + 1) =~= order.take(k as int).push(order[k as int]));
            crate::text::lemma_filter_push(order.take(k as int), other_than(req@), order[k as int]);
        }
        let ghost before = all@.map_values(|s: &'static str| s@);
        if !dup {
            all.push(b);
            assert(all@.map_values(|s: &'static str| s@) =~= before.push(b@));
        }
        k += 1;
    }
    assert(order.take(4) =~= order);
    let ghost allv = all@.map_values(|s: &'static str| s@);
    assert(allv == ordered);
    let mut j: usize = 0;
    proof {
        assert(allv.take(0) =~= Seq::<Seq<char>>::empty());
        crate::text::lemma_filter_empty(kept_fallback());
    }
    while j < all.len()
        invariant
            j <= all.len(),
            allv == all@.map_values(|s: &'static str| s@),
            out@.map_values(|s: &'static str| s@) == allv.take(j as int).filter(
                kept_fallback(),
            ),
        decreases all.len() - j,
    {
        let b = all[j];
        let keep = match parse_branch(b) {
            Some(p) => {
                let min = match parse_branch(CPN_MIN_PHP_BRANCH) {
                    Some(m) => m,
                    None => (8, 2),
                };
                !(p.0 < min.0 || (p.0 == min.0 && p.1 < min.1))
            },
            None => false,
        };
        proof {
            assert(allv.take(j + 1) =~= allv.take(j as int).push(allv[j as int]));
            crate::text::lemma_filter_push(allv.take(j as int), kept_fallback(), allv[j as int]);
        }
        let ghost before = out@.map_values(|s: &'static str| s@);
        if keep {
            out.push(b);
            assert(out@.map_values(|s: &'static str| s@) =~= before.push(b@));
        }
        j += 1;
    }
    assert(allv.take(all.len() as int) =~= allv);
    out
}

/// The Remi module stream for a branch on a DNF guest.
pub open spec fn stream_for_branch_spec(family: PackageFamily, branch: Seq<char>) -> Option<Seq<char>> {
    if family != PackageFamily::Dnf {
        None
    } else {
        Some("php:remi-"@ + branch)
    }
}

/// Map a branch to the preferred DNF module stream for this guest.
pub fn stream_for_branch(guest: &GuestOs, branch: &str) -> (r: Option<String>)
    ensures
        crate::text::opt_string_view(&r) == stream_for_branch_spec(guest.family, branch@),
{
    if guest.family != PackageFamily::Dnf {
        return None;
    }
    let mut s = "php:remi-".to_owned();
    s.append(branch);
    Some(s)
}

/// The AppStream stream used on EL9 when Remi 8.2 is unavailable.
pub open spec fn appstream_fallback_spec(family: PackageFamily, major: u32, branch: Seq<char>) -> Option<
    Seq<char>,
> {
    if family == PackageFamily::Dnf && major == 9 && branch == "8.2"@ {
        Some("php:8.2"@)
    } else {
        None
    }
}

fn appstream_fallback(guest: &GuestOs, branch: &str) -> (r: Option<String>)
    ensures
        crate::text::opt_string_view(&r) == appstream_fallback_spec(guest.family, guest.major, branch@),
{
    if guest.family == PackageFamily::Dnf && guest.major == 9 && str_eq(branch, "8.2") {
        Some("php:8.2".to_owned())
    } else {
        None
    }
}

/// The Remi release package for an EL guest.
pub open spec fn remi_release_url_spec(family: PackageFamily, major: u32) -> Option<Seq<char>> {
    if family != PackageFamily::Dnf {
        None
    } else if major == 8 {
        Some("https://rpms.remirepo.net/enterprise/remi-release-8.rpm"@)
    } else if major == 9 {
        Some("https://rpms.remirepo.net/enterprise/remi-release-9.rpm"@)
    } else if major == 10 {
        Some("https://rpms.remirepo.net/enterprise/remi-release-10.rpm"@)
    } else {
        None
    }
}

pub fn remi_release_url(guest: &GuestOs) -> (r: Option<&'static str>)
    ensures
        opt_view(r) == remi_release_url_spec(guest.family, guest.major),
{
    if guest.family != PackageFamily::Dnf {
        return None;
    }
    if guest.major == 8 {
        Some("https://rpms.remirepo.net/enterprise/remi-release-8.rpm")
    } else if guest.major == 9 {
        Some("https://rpms.remirepo.net/enterprise/remi-release-9.rpm")
    } else if guest.major == 10 {
        Some("https://rpms.remirepo.net/enterprise/remi-release-10.rpm")
    } else {
        None
    }
}

/// The module streams tried for one branch: the Remi stream, then the AppStream fallback
/// when it differs.
pub open spec fn branch_streams(family: PackageFamily, major: u32, b: Seq<char>) -> Seq<Seq<char>> {
    let l1 = match stream_for_branch_spec(family, b) {
        Some(x) => seq![x],
        None => Seq::empty(),
    };
    match appstream_fallback_spec(family, major, b) {
        Some(x) => if l1.contains(x) {
            l1
        } else {
            l1.push(x)
        },
        None => l1,
    }
}

/// The (branch, stream) pairs tried in order for the candidate branches that pass the
/// lifecycle check on `today`.
pub open spec fn plan_tries(
    cands: Seq<Seq<char>>,
    family: PackageFamily,
    major: u32,
    today: Seq<char>,
) -> Seq<(Seq<char>, Seq<char>)>
    decreases cands.len(),
{
    if cands.len() == 0 {
        Seq::empty()
    } else {
        let prev = plan_tries(cands.drop_last(), family, major, today);
        let b = cands.last();
        if branch_check_spec(b, today) is Ok {
            prev + branch_streams(family, major, b).map_values(|s: Seq<char>| (b, s))
        } else {
            prev
        }
    }
}

/// What the host does to select PHP.
pub enum PhpPlan {
    /// Distro packages on an apt guest: the record to save (a failed save is ignored).
    Apt(PhpDefaultRecord),
    /// DNF module streams to try in order, after the Remi release package is present.
    Switch { requested: String, tries: Vec<(String, String)> },
}

/// The views of (branch, stream) pairs.
pub open spec fn pair_views(v: Seq<(String, String)>) -> Seq<(Seq<char>, Seq<char>)> {
    v.map_values(|p: (String, String)| (p.0@, p.1@))
}

/// An explicit operator choice: the trimmed request when it is neither empty nor `auto`
/// nor `default` (compared as typed).
pub open spec fn explicit_request(requested: Option<Seq<char>>) -> Option<Seq<char>> {
    match requested {
        Some(r) => {
            let t = trim(r);
            if t.len() == 0 || t == "auto"@ || t == "default"@ {
                None
            } else {
                Some(t)
            }
        },
        None => None,
    }
}

/// Decides how to prepare PHP on `guest` for the operator's request on `today`: refuses
/// Windows, keeps distro packages on apt guests, checks an explicit choice against the
/// lifecycle rules, and otherwise lists the module streams to try, requested branch first.
#[verifier::rlimit(60)]
#[verifier::spinoff_prover]
pub fn plan_php_prepare(guest: &GuestOs, requested: Option<&str>, today_ymd: &str) -> (r: Result<PhpPlan, String>)
    ensures
        guest.family == PackageFamily::Windows ==> (r matches Err(e) && e@
            == "PHP module streams are not available on Windows Server Phase A"@),
        guest.family == PackageFamily::Apt ==> (r matches Ok(PhpPlan::Apt(rec)) && rec.branch@
            == preferred_branch_spec(guest.family, guest.major) && rec.stream@ == "apt"@
            && rec.requested@ == normalize_request_spec(opt_view(requested), Some((guest.family, guest.major)))
            && rec.message@ == "Using distro PHP packages on "@ + guest.label@
            + " (no DNF module stream). Preferred CPN default remains "@ + preferred_branch_spec(
            guest.family,
            guest.major,
        ) + "."@),
        guest.family == PackageFamily::Dnf ==> {
            let norm = normalize_request_spec(opt_view(requested), Some((guest.family, guest.major)));
            match explicit_request(opt_view(requested)) {
                Some(raw) if branch_check_spec(norm, today_ymd@) is Err => (r matches Err(e) && e@ == "PHP "@ + raw
                    + " is not allowed: "@ + branch_check_spec(norm, today_ymd@)->Err_0),
                _ => (r matches Ok(PhpPlan::Switch { requested: req, tries }) && req@ == norm
                    && pair_views(tries@) == plan_tries(
                    candidate_branches_spec(norm),
                    guest.family,
                    guest.major,
                    today_ymd@,
                )),
            }
        },
{
    if guest.family == PackageFamily::Windows {
        return Err("PHP module streams are not available on Windows Server Phase A".to_owned());
    }
    let preferred = preferred_branch_for_guest(guest);
    if guest.family == PackageFamily::Apt {
        let mut message = "Using distro PHP packages on ".to_owned();
        message.append(guest.label.as_str());
        message.append(" (no DNF module stream). Preferred CPN default remains ");
        message.append(preferred);
        message.append(".");
        let record = PhpDefaultRecord {
            branch: preferred.to_owned(),
            stream: "apt".to_owned(),
            requested: normalize_php_request(requested, Some(guest)),
            message,
        };
        return Ok(PhpPlan::Apt(record));
    }
    let requested_norm = normalize_php_request(requested, Some(guest));
    let explicit: Option<String> = match requested {
        Some(raw) => {
            let t = crate::text::trim_str(raw);
            if t.as_str().is_empty() || str_eq(t.as_str(), "auto") || str_eq(t.as_str(), "default") {
                None
            } else {
                Some(t)
            }
        },
        None => None,
    };
    if let Some(raw) = explicit {
        if let Err(e) = assert_php_branch_not_eol(requested_norm.as_str(), today_ymd) {
            let mut msg = "PHP ".to_owned();
            msg.append(raw.as_str());
            msg.append(" is not allowed: ");
            msg.append(e.as_str());
            return Err(msg);
        }
    }
    let candidates = candidate_branches(requested_norm.as_str());
    let ghost cv = candidates@.map_values(|s: &'static str| s@);
    let mut tries: Vec<(String, String)> = Vec::new();
    let mut i: usize = 0;
    assert(cv.take(0) =~= Seq::<Seq<char>>::empty());
    while i < candidates.len()
        invariant
            i <= candidates.len(),
            cv == candidates@.map_values(|s: &'static str| s@),
            guest.family == PackageFamily::Dnf,
            pair_views(tries@) == plan_tries(cv.take(i as int), guest.family, guest.major, today_ymd@),
        decreases candidates.len() - i,
    {
        let branch = candidates[i];
        assert(cv.take(i + 1).drop_last() =~= cv.take(i as int));
        assert(cv.take(i + 1).last() == branch@);
        let ghost before = pair_views(tries@);
        if assert_php_branch_not_eol(branch, today_ymd).is_ok() {
            let first = match stream_for_branch(guest, branch) {
                Some(s) => s,
                None => {
                    assert(false);
                    String::new()
                },
            };
            let second = appstream_fallback(guest, branch);
            let dup = match &second {
                Some(s) => str_eq(s.as_str(), first.as_str()),
                None => false,
            };
            let ghost streams = branch_streams(guest.family, guest.major, branch@);
            let ghost fv = first@;
            tries.push((branch.to_owned(), first));
            match second {
                Some(s) => {
                    if !dup {
                        tries.push((branch.to_owned(), s));
                        assert(pair_views(tries@) =~= before + streams.map_values(|x: Seq<char>| (branch@, x)));
                    } else {
                        assert(seq![fv][0] == s@);
                        assert(streams =~= seq![fv]);
                        assert(pair_views(tries@) =~= before + streams.map_values(|x: Seq<char>| (branch@, x)));
                    }
                },
                None => {
                    assert(pair_views(tries@) =~= before + streams.map_values(|x: Seq<char>| (branch@, x)));
                },
            }
        }
        i += 1;
    }
    assert(cv.take(candidates.len() as int) =~= cv);
    Ok(PhpPlan::Switch { requested: requested_norm, tries })
}

/// The note of a successful switch: a fallback when the branch is not the one requested.
pub open spec fn switch_message_spec(requested: Seq<char>, branch: Seq<char>, stream: Seq<char>) -> Seq<char> {
    if branch != requested {
        "PHP "@ + requested + " packages were not available; switched to "@ + stream + " (PHP "@
            + branch + ") instead."@
    } else {
        "Switched host PHP to "@ + stream + " (PHP "@ + branch + ")."@
    }
}

/// The record written after the host switched to `stream` for `branch`.
#[verifier::rlimit(60)]
#[verifier::spinoff_prover]
pub fn php_switch_record(requested_norm: &str, branch: &str, stream: &str) -> (r: PhpDefaultRecord)
    ensures
        r.branch@ == branch@,
        r.stream@ == stream@,
        r.requested@ == requested_norm@,
        r.message@ == switch_message_spec(requested_norm@, branch@, stream@),
{
    let fallback = !str_eq(branch, requested_norm);
    let message = if fallback {
        let mut m = "PHP ".to_owned();
        m.append(requested_norm);
        m.append(" packages were not available; switched to ");
        m.append(stream);
        m.append(" (PHP ");
        m.append(branch);
        m.append(") instead.");
        m
    } else {
        let mut m = "Switched host PHP to ".to_owned();
        m.append(stream);
        m.append(" (PHP ");
        m.append(branch);
        m.append(").");
        m
    };
    PhpDefaultRecord {
        branch: branch.to_owned(),
        stream: stream.to_owned(),
        requested: requested_norm.to_owned(),
        message,
    }
}

/// The error when no stream could be switched to.
pub fn php_switch_failure(requested_norm: &str, attempts: &Vec<String>) -> (r: String)
    ensures
        r@ == "Could not switch host PHP to "@ + requested_norm@ + ". Tried streams: "@
            + crate::text::join_spec(crate::text::string_views(attempts@), ", "@)
            + ". Install Remi PHP packages or choose another version."@,
{
    let mut out = "Could not switch host PHP to ".to_owned();
    out.append(requested_norm);
    out.append(". Tried streams: ");
    let j = crate::text::join_strings(attempts, ", ");
    out.append(j.as_str());
    out.append(". Install Remi PHP packages or choose another version.");
    out
}

/// Approximate UTC `YYYY-MM-DD` from unix seconds (no chrono dependency).
#[verifier::rlimit(60)]
#[verifier::spinoff_prover]
pub fn utc_ymd_approx(secs: u64) -> (r: String)
    requires
        civil((secs / 86400) as int).0 <= i32::MAX,
    ensures
        ({
            let c = civil((secs / 86400) as int);
            r@ == dec_pad(c.0 as nat, 4) + "-"@ + dec_pad(c.1 as nat, 2) + "-"@ + dec_pad(c.2 as nat, 2)
        }),
{
    let (y, m, d) = civil_from_days(secs / 86400);
    let mut out = String::new();
    push_dec_pad(&mut out, y, 4);
    out.append("-");
    push_dec_pad(&mut out, m, 2);
    out.append("-");
    push_dec_pad(&mut out, d, 2);
    out
}

/// Branch used for new sites: the saved record's, else the preferred default.
pub fn default_php_branch_for_sites(saved: Option<PhpDefaultRecord>) -> (r: String)
    ensures
        r@ == (match saved {
            Some(rec) => rec.branch@,
            None => CPN_PREFERRED_PHP_BRANCH@,
        }),
{
    match saved {
        Some(rec) => rec.branch,
        None => CPN_PREFERRED_PHP_BRANCH.to_owned(),
    }
}

/// The module stream recipes use by default on a guest.
pub open spec fn preferred_stream_spec(family: PackageFamily, major: u32) -> Option<Seq<char>> {
    if family != PackageFamily::Dnf {
        None
    } else if major == 8 {
        Some("remi-8.2"@)
    } else if major == 9 || major == 10 {
        Some("php:remi-8.5"@)
    } else {
        None
    }
}

/// Default module stream hint for recipes that still call GuestOs::php_module_stream.
pub fn preferred_stream_for_guest(guest: &GuestOs) -> (r: Option<&'static str>)
    ensures
        opt_view(r) == preferred_stream_spec(guest.family, guest.major),
{
    if guest.family != PackageFamily::Dnf {
        return None;
    }
    if guest.major == 8 {
        Some("remi-8.2")
    } else if guest.major == 9 || guest.major == 10 {
        Some("php:remi-8.5")
    } else {
        None
    }
}

/// Validate a stream string against lifecycle rules (used by install_php_runtime).
pub fn assert_stream_ok(stream: &str, today_ymd: &str) -> (r: Result<(), String>)
    ensures
        r is Ok <==> runtime_check_spec(stream@, today_ymd@) is Ok,
        r matches Err(e) ==> runtime_check_spec(stream@, today_ymd@) == Err::<(), Seq<char>>(e@),
{
    assert_selected_runtime_ok(stream, today_ymd)
}

proof fn lemma_dec_four_digits(n: nat)
    requires
        n >= 1000,
    ensures
        dec(n).len() >= 4,
{
    let a = n / 10;
    let b = a / 10;
    let c = b / 10;
    assert(a >= 100 && b >= 10 && c >= 1);
    assert(dec(c).len() >= 1) by {
        reveal_with_fuel(dec, 2);
    }
    assert(dec(b) == dec(c).push(crate::text::digit_char(b % 10)));
    assert(dec(a) == dec(b).push(crate::text::digit_char(a % 10)));
    assert(dec(n) == dec(a).push(crate::text::digit_char(n % 10)));
}

/// Law: for the same instant, `utc_ymd_approx` and `format_epoch_dd_mm_yyyy` show the same
/// day, month and year (`YYYY-MM-DD` against `DD/MM/YYYY`).
pub proof fn lemma_ymd_matches_epoch_date(secs: u64)
    ensures
        ({
            let c = civil((secs / 86400) as int);
            crate::panel_user_prefs::epoch_date_spec(secs as int) == dec_pad(c.2 as nat, 2) + "/"@ + dec_pad(
                c.1 as nat,
                2,
            ) + "/"@ + dec_pad(c.0 as nat, 4)
        }),
{
    let days = (secs / 86400) as int;
    assert((secs as int) / 86400 == days);
    crate::civil::lemma_civil_is_valid_date(days);
    let y = civil(days).0 as nat;
    lemma_dec_four_digits(y);
    assert(dec_pad(y, 4) == dec(y));
}

} // verus!
