//! Clone / staging: which domain a clone goes to and whether it may be created. Copying the
//! files and registering the new site is done by the caller.

use vstd::prelude::*;
use vstd::string::*;
use crate::site::{normalize_domain, normalize_domain_spec};
use crate::text::{chars_of, contains_seq, eq_ignore_case, eq_ignore_case_str, idx_of, lower_str, to_lower,
    trim, trim_str};

verus! {

/// What a finished clone reports.
pub struct CloneResult {
    pub domain: String,
    pub docroot: String,
    pub files_copied: u64,
    pub note: String,
}

/// The note every clone reports: databases are not copied.
pub const CLONE_NOTE: &'static str =
    "File clone finished. Databases are not copied; export/import separately if needed.";

/// A character kept in a staging label: ASCII letter, digit or `-`.
pub open spec fn staging_char(c: char) -> bool {
    ('a' <= c && c <= 'z') || ('A' <= c && c <= 'Z') || ('0' <= c && c <= '9') || c == '-'
}

/// The characters of `s` that `staging_char` keeps, in order.
pub open spec fn keep_label_chars(s: Seq<char>) -> Seq<char>
    decreases s.len(),
{
    if s.len() == 0 {
        s
    } else if staging_char(s.last()) {
        keep_label_chars(s.drop_last()).push(s.last())
    } else {
        keep_label_chars(s.drop_last())
    }
}

/// The first `.`-separated part of a domain.
pub open spec fn first_label(d: Seq<char>) -> Seq<char> {
    match idx_of(d, '.') {
        Some(i) => d.take(i),
        None => d,
    }
}

/// `staging.<domain>` when that is a valid domain, else `staging-<label>.<parent>` with the
/// first label of the source (only letters, digits and `-` kept) and the parent site (the
/// source itself when it has none; a failed parent lookup fails).
pub open spec fn staging_spec(
    source_domain: Seq<char>,
    parent: Result<Option<Seq<char>>, Seq<char>>,
) -> Result<Seq<char>, Seq<char>> {
    match normalize_domain_spec("staging."@ + source_domain) {
        Ok(d) => Ok(d),
        Err(_) => match parent {
            Err(e) => Err(e),
            Ok(p) => {
                let par = match p {
                    Some(x) => x,
                    None => source_domain,
                };
                normalize_domain_spec(
                    "staging-"@ + keep_label_chars(first_label(source_domain)) + "."@ + par,
                )
            },
        },
    }
}

pub open spec fn parent_view(parent: &Result<Option<String>, String>) -> Result<Option<Seq<char>>, Seq<char>> {
    match parent {
        Ok(Some(p)) => Ok(Some(p@)),
        Ok(None) => Ok(None),
        Err(e) => Err(e@),
    }
}

fn label_of(domain: &str) -> (r: String)
    ensures
        r@ == keep_label_chars(first_label(domain@)),
{
    let v = chars_of(domain);
    let end = match crate::text::find_char(&v, '.', 0) {
        Some(k) => k,
        None => v.len(),
    };
    assert(v@.skip(0) =~= v@);
    let ghost first = first_label(domain@);
    assert(v@.take(end as int) =~= first);
    let mut out = String::new();
    let mut i: usize = 0;
    while i < end
        invariant
            i <= end <= v.len(),
            v@.take(end as int) == first,
            out@ == keep_label_chars(first.take(i as int)),
        decreases end - i,
    {
        let c = v[i];
        proof {
            assert(first.take(i + 1).drop_last() =~= first.take(i as int));
            assert(first.take(i + 1).last() == c);
        }
        if ('a' <= c && c <= 'z') || ('A' <= c && c <= 'Z') || ('0' <= c && c <= '9') || c == '-' {
            crate::text::push_char(&mut out, c);
        }
        i += 1;
    }
    assert(first.take(end as int) =~= first);
    out
}

/// Suggest a staging domain for a site (see `staging_spec`); `parent` is the parent-site
/// lookup for the source domain.
pub fn suggest_staging_domain(source_domain: &str, parent: &Result<Option<String>, String>) -> (r: Result<
    String,
    String,
>)
    ensures
        r is Ok <==> staging_spec(source_domain@, parent_view(parent)) is Ok,
        r matches Ok(d) ==> staging_spec(source_domain@, parent_view(parent)) == Ok::<Seq<char>, Seq<char>>(d@),
        r matches Err(e) ==> staging_spec(source_domain@, parent_view(parent)) == Err::<Seq<char>, Seq<char>>(
            e@,
        ),
{
    let mut candidate = "staging.".to_owned();
    candidate.append(source_domain);
    match normalize_domain(candidate.as_str()) {
        Ok(d) => Ok(d),
        Err(_) => {
            let par: &str = match parent {
                Err(e) => return Err(e.clone()),
                Ok(Some(p)) => p.as_str(),
                Ok(None) => source_domain,
            };
            let mut c2 = "staging-".to_owned();
            let label = label_of(source_domain);
            c2.append(label.as_str());
            c2.append(".");
            c2.append(par);
            normalize_domain(c2.as_str())
        },
    }
}

/// A short subdomain label: ASCII letters, digits and `-`, not at either end.
pub open spec fn short_label_ok(l: Seq<char>) -> bool {
    (forall|i: int| 0 <= i < l.len() ==> staging_char(#[trigger] l[i])) && !(l.len() > 0 && l[0] == '-')
        && !(l.len() > 0 && l.last() == '-')
}

/// Where a clone goes: the staging suggestion when asked for with no target; a target is
/// otherwise required; a target without a dot is a subdomain label under the parent site (the
/// source when it has none); any other target is a domain.
pub open spec fn target_spec(
    source_domain: Seq<char>,
    target_raw: Seq<char>,
    use_staging: bool,
    parent: Result<Option<Seq<char>>, Seq<char>>,
) -> Result<Seq<char>, Seq<char>> {
    let t = trim(target_raw);
    if use_staging && t.len() == 0 {
        staging_spec(source_domain, parent)
    } else if t.len() == 0 {
        Err("Target domain or subdomain label is required"@)
    } else if !contains_seq(t, "."@) {
        let label = to_lower(t);
        if !short_label_ok(label) {
            Err("Subdomain label must be alphanumeric with optional hyphens"@)
        } else {
            match parent {
                Err(e) => Err(e),
                Ok(p) => {
                    let par = match p {
                        Some(x) => x,
                        None => source_domain,
                    };
                    normalize_domain_spec(label + "."@ + par)
                },
            }
        }
    } else {
        normalize_domain_spec(t)
    }
}

fn short_label_is_ok(l: &Vec<char>) -> (r: bool)
    ensures
        r == short_label_ok(l@),
{
    let mut i: usize = 0;
    while i < l.len()
        invariant
            i <= l.len(),
            forall|j: int| 0 <= j < i ==> staging_char(#[trigger] l@[j]),
        decreases l.len() - i,
    {
        let c = l[i];
        if !(('a' <= c && c <= 'z') || ('A' <= c && c <= 'Z') || ('0' <= c && c <= '9') || c == '-') {
            return false;
        }
        i += 1;
    }
    !(l.len() > 0 && l[0] == '-') && !(l.len() > 0 && l[l.len() - 1] == '-')
}

/// The domain a clone goes to (see `target_spec`).
pub fn resolve_target_domain(
    source_domain: &str,
    target_raw: &str,
    use_staging: bool,
    parent: &Result<Option<String>, String>,
) -> (r: Result<String, String>)
    ensures
        r is Ok <==> target_spec(source_domain@, target_raw@, use_staging, parent_view(parent)) is Ok,
        r matches Ok(d) ==> target_spec(source_domain@, target_raw@, use_staging, parent_view(parent))
            == Ok::<Seq<char>, Seq<char>>(d@),
        r matches Err(e) ==> target_spec(source_domain@, target_raw@, use_staging, parent_view(parent))
            == Err::<Seq<char>, Seq<char>>(e@),
{
    let t = trim_str(target_raw);
    if use_staging && t.as_str().is_empty() {
        return suggest_staging_domain(source_domain, parent);
    }
    if t.as_str().is_empty() {
        return Err("Target domain or subdomain label is required".to_owned());
    }
    if !crate::text::contains_str(t.as_str(), ".") {
        let label = lower_str(t.as_str());
        let lv = chars_of(label.as_str());
        if !short_label_is_ok(&lv) {
            return Err("Subdomain label must be alphanumeric with optional hyphens".to_owned());
        }
        let par: &str = match parent {
            Err(e) => return Err(e.clone()),
            Ok(Some(p)) => p.as_str(),
            Ok(None) => source_domain,
        };
        let mut c = label;
        c.append(".");
        c.append(par);
        return normalize_domain(c.as_str());
    }
    normalize_domain(t.as_str())
}

/// The checks before cloning: the target differs from the source (ignoring ASCII case) and
/// is not already a site (`target_exists`, looked up by the caller).
pub open spec fn clone_check_spec(source_domain: Seq<char>, target: Seq<char>, target_exists: bool) -> Result<
    (),
    Seq<char>,
> {
    if eq_ignore_case(target, source_domain) {
        Err("Target domain must differ from the source"@)
    } else if target_exists {
        Err("Site `"@ + target + "` already exists"@)
    } else {
        Ok(())
    }
}

pub fn check_clone_target(source_domain: &str, target: &str, target_exists: bool) -> (r: Result<(), String>)
    ensures
        match r {
            Ok(()) => clone_check_spec(source_domain@, target@, target_exists) is Ok,
            Err(e) => clone_check_spec(source_domain@, target@, target_exists) == Err::<(), Seq<char>>(e@),
        },
{
    if eq_ignore_case_str(target, source_domain) {
        return Err("Target domain must differ from the source".to_owned());
    }
    if target_exists {
        let mut m = "Site `".to_owned();
        m.append(target);
        m.append("` already exists");
        return Err(m);
    }
    Ok(())
}

/// The registry note of a cloned site.
pub fn clone_site_note(source_domain: &str) -> (r: String)
    ensures
        r@ == "Cloned files from "@ + source_domain@ + " (databases not copied)"@,
{
    let mut m = "Cloned files from ".to_owned();
    m.append(source_domain);
    m.append(" (databases not copied)");
    m
}

/// What a finished clone reports for the created site.
pub fn clone_result(domain: String, docroot: String, files_copied: u64) -> (r: CloneResult)
    ensures
        r.domain == domain,
        r.docroot == docroot,
        r.files_copied == files_copied,
        r.note@ == CLONE_NOTE@,
{
    CloneResult { domain, docroot, files_copied, note: CLONE_NOTE.to_owned() }
}

} // verus!
