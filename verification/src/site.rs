//! The hosted-site record the panel pages and tools work on, and the host-name form the
//! panel accepts for a site's domain.

use vstd::prelude::*;
use vstd::string::*;
use crate::text::{chars_of, lower_vec, split_on, split_vec, string_of_range, to_lower, trim, trim_bounds,
    vec_range, views};

verus! {

/// A hosted website: its domain, owning account, document root, home directory (the
/// directory that holds `logs/` and the document root), state, alias domains, and the
/// settings the Manage pages show.
pub struct SiteRecord {
    pub domain: String,
    pub owner: String,
    pub docroot: String,
    pub home: String,
    pub enabled: bool,
    pub aliases: Vec<String>,
    /// PHP branch the site runs, when one was chosen.
    pub php_version: Option<String>,
    /// Private address of the site behind the optional Nginx front.
    pub internal_ip: Option<String>,
    /// Web engine label, when one was recorded.
    pub engine: Option<String>,
    /// Message shown to the owner while the site is suspended.
    pub owner_suspend_message: String,
}

/// A character of a host-name label: lower-case ASCII letter, digit or `-`.
pub open spec fn label_char(c: char) -> bool {
    ('a' <= c && c <= 'z') || ('0' <= c && c <= '9') || c == '-'
}

/// A host-name label: 1 to 63 label characters, not starting or ending with `-`.
pub open spec fn label_ok(l: Seq<char>) -> bool {
    1 <= l.len() <= 63 && (forall|i: int| 0 <= i < l.len() ==> label_char(#[trigger] l[i])) && l[0] != '-'
        && l.last() != '-'
}

/// Trimmed, lower-cased, one trailing dot dropped.
pub open spec fn domain_form(raw: Seq<char>) -> Seq<char> {
    let d0 = to_lower(trim(raw));
    if d0.len() > 0 && d0.last() == '.' {
        d0.drop_last()
    } else {
        d0
    }
}

pub open spec fn all_labels_ok(labels: Seq<Seq<char>>) -> bool {
    forall|k: int| 0 <= k < labels.len() ==> label_ok(#[trigger] labels[k])
}

/// The domain as the panel stores it: trimmed, lower-cased, one trailing dot dropped; then
/// it must be present, at most 253 characters, and at least two valid labels.
pub open spec fn normalize_domain_spec(raw: Seq<char>) -> Result<Seq<char>, Seq<char>> {
    let d = domain_form(raw);
    let labels = split_on(d, '.');
    if d.len() == 0 {
        Err("Domain is required"@)
    } else if d.len() > 253 {
        Err("Domain is too long"@)
    } else if labels.len() < 2 || !all_labels_ok(labels) {
        Err("Enter a valid domain such as example.com"@)
    } else {
        Ok(d)
    }
}

fn label_is_ok(l: &Vec<char>) -> (r: bool)
    ensures
        r == label_ok(l@),
{
    if l.len() < 1 || l.len() > 63 {
        return false;
    }
    let mut i: usize = 0;
    while i < l.len()
        invariant
            i <= l.len(),
            forall|j: int| 0 <= j < i ==> label_char(#[trigger] l@[j]),
        decreases l.len() - i,
    {
        let c = l[i];
        if !(('a' <= c && c <= 'z') || ('0' <= c && c <= '9') || c == '-') {
            return false;
        }
        i += 1;
    }
    l[0] != '-' && l[l.len() - 1] != '-'
}

/// Normalise and check a site domain (see `normalize_domain_spec`).
pub fn normalize_domain(raw: &str) -> (r: Result<String, String>)
    ensures
        r is Ok <==> normalize_domain_spec(raw@) is Ok,
        r matches Ok(d) ==> normalize_domain_spec(raw@) == Ok::<Seq<char>, Seq<char>>(d@),
        r matches Err(e) ==> normalize_domain_spec(raw@) == Err::<Seq<char>, Seq<char>>(e@),
{
    let v = chars_of(raw);
    let (a, b) = trim_bounds(&v);
    let t = vec_range(&v, a, b);
    let low = lower_vec(&t);
    let end = if low.len() > 0 && low[low.len() - 1] == '.' { low.len() - 1 } else { low.len() };
    let d = vec_range(&low, 0, end);
    proof {
        if low@.len() > 0 && low@.last() == '.' {
            assert(d@ =~= low@.drop_last());
        } else {
            assert(d@ =~= low@);
        }
    }
    if d.len() == 0 {
        return Err("Domain is required".to_owned());
    }
    if d.len() > 253 {
        return Err("Domain is too long".to_owned());
    }
    let ghost dd = domain_form(raw@);
    assert(d@ == dd);
    let labels = split_vec(&d, '.');
    let mut ok = labels.len() >= 2;
    let mut k: usize = 0;
    while ok && k < labels.len()
        invariant
            k <= labels.len(),
            views(labels@) == split_on(d@, '.'),
            d@ == dd,
            0 < d@.len() <= 253,
            ok ==> labels.len() >= 2,
            ok ==> forall|j: int| 0 <= j < k ==> label_ok(#[trigger] views(labels@)[j]),
            !ok ==> (labels.len() < 2 || exists|j: int| 0 <= j < labels.len() && !label_ok(#[trigger] views(labels@)[j])),
        decreases labels.len() - k,
    {
        if !label_is_ok(&labels[k]) {
            assert(!label_ok(views(labels@)[k as int]));
            ok = false;
        }
        k += 1;
    }
    if !ok {
        proof {
            if labels.len() >= 2 {
                let j = choose|j: int| 0 <= j < labels.len() && !label_ok(#[trigger] views(labels@)[j]);
                assert(!label_ok(split_on(dd, '.')[j]));
            }
        }
        return Err("Enter a valid domain such as example.com".to_owned());
    }
    Ok(crate::text::string_of_chars(&d))
}

} // verus!
