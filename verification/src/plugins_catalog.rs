//! The plugin catalog: reading a legacy `meta.xml` into a catalog entry, and when the
//! cached catalog is fresh enough to be used. Fetching and unpacking the archive is done
//! by the caller.

use vstd::prelude::*;
use vstd::string::*;
use crate::plugins::{sanitize_spec, sanitize_user_text, CatalogEntry};
use crate::text::{
    chars_of, contains_seq, contains_str, find_first, first_index, lemma_first_index_bound,
    lower_str, occurs_at, opt_string_view, str_eq, string_of_chars, to_lower, trim, trim_bounds,
    vec_range,
};

verus! {

/// How long a fetched catalog is used before it is fetched again, in seconds.
pub const CATALOG_CACHE_SECS: u64 = 3600;

/// The archive the catalog is read from.
pub const CATALOG_TARBALL: &'static str =
    "https://codeload.github.com/master3395/cyberpanel-plugins/tar.gz/refs/heads/main";

/// The trimmed text between the first `<tag>` and the first `</tag>` after it, when both
/// are there and that text is not blank.
pub open spec fn xml_tag_spec(body: Seq<char>, tag: Seq<char>) -> Option<Seq<char>> {
    let open = "<"@ + tag + ">"@;
    let close = "</"@ + tag + ">"@;
    match first_index(body, open) {
        None => None,
        Some(i) => {
            let start = i + open.len();
            match first_index(body.skip(start), close) {
                None => None,
                Some(j) => {
                    let value = trim(body.subrange(start, start + j));
                    if value.len() == 0 {
                        None
                    } else {
                        Some(value)
                    }
                },
            }
        },
    }
}

/// `a.or(b)`.
pub open spec fn or_else(a: Option<Seq<char>>, b: Option<Seq<char>>) -> Option<Seq<char>> {
    match a {
        Some(x) => Some(x),
        None => b,
    }
}

/// `o.unwrap_or(d)`.
pub open spec fn or_default(o: Option<Seq<char>>, d: Seq<char>) -> Seq<char> {
    match o {
        Some(x) => x,
        None => d,
    }
}

/// The text of the first `<tag>…</tag>` of `body` (see `xml_tag_spec`).
pub fn xml_tag(body: &str, tag: &str) -> (r: Option<String>)
    ensures
        opt_string_view(&r) == xml_tag_spec(body@, tag@),
{
    proof {
        reveal_strlit("<");
        reveal_strlit(">");
        reveal_strlit("</");
    }
    let v = chars_of(body);
    let mut open = chars_of("<");
    let mut t1 = chars_of(tag);
    open.append(&mut t1);
    let mut gt = chars_of(">");
    open.append(&mut gt);
    let mut close = chars_of("</");
    let mut t2 = chars_of(tag);
    close.append(&mut t2);
    let mut gt2 = chars_of(">");
    close.append(&mut gt2);
    assert(open@ =~= "<"@ + tag@ + ">"@);
    assert(close@ =~= "</"@ + tag@ + ">"@);
    match find_first(&v, &open) {
        None => None,
        Some(i) => {
            let start = i + open.len();
            let rest = vec_range(&v, start, v.len());
            assert(rest@ =~= body@.skip(start as int));
            match find_first(&rest, &close) {
                None => None,
                Some(j) => {
                    let inner = vec_range(&v, start, start + j);
                    let (a, b) = trim_bounds(&inner);
                    if a == b {
                        None
                    } else {
                        Some(crate::text::string_of_range(&inner, a, b))
                    }
                },
            }
        },
    }
}

/// `<tag>` or else `<alt>`.
fn xml_tag_either(body: &str, tag: &str, alt: &str) -> (r: Option<String>)
    ensures
        opt_string_view(&r) == or_else(xml_tag_spec(body@, tag@), xml_tag_spec(body@, alt@)),
{
    match xml_tag(body, tag) {
        Some(v) => Some(v),
        None => xml_tag(body, alt),
    }
}

/// `true`, `1` or `yes`, whatever the case.
pub open spec fn truthy(v: Seq<char>) -> bool {
    let l = to_lower(v);
    l == "true"@ || l == "1"@ || l == "yes"@
}

/// The catalog price of a plugin: a `<pricing>` that mentions "paid" or "premium" (in any
/// case) makes it paid, any other `<pricing>` free; without one, a truthy `<paid>` makes it
/// paid; otherwise it is free.
pub open spec fn pricing_spec(body: Seq<char>) -> Seq<char> {
    match xml_tag_spec(body, "pricing"@) {
        Some(p) => if contains_seq(to_lower(p), "paid"@) || contains_seq(to_lower(p), "premium"@) {
            "paid"@
        } else {
            "free"@
        },
        None => match xml_tag_spec(body, "paid"@) {
            Some(v) => if truthy(v) {
                "paid"@
            } else {
                "free"@
            },
            None => "free"@,
        },
    }
}

/// The catalog price read from a `meta.xml` body.
pub fn pricing_from_meta(body: &str) -> (r: String)
    ensures
        r@ == pricing_spec(body@),
{
    proof {
        reveal_strlit("pricing");
        reveal_strlit("paid");
    }
    match xml_tag(body, "pricing") {
        Some(p) => {
            let lower = lower_str(p.as_str());
            if contains_str(lower.as_str(), "paid") || contains_str(lower.as_str(), "premium") {
                "paid".to_owned()
            } else {
                "free".to_owned()
            }
        },
        None => match xml_tag(body, "paid") {
            Some(v) => {
                let l = lower_str(v.as_str());
                if str_eq(l.as_str(), "true") || str_eq(l.as_str(), "1") || str_eq(l.as_str(), "yes") {
                    "paid".to_owned()
                } else {
                    "free".to_owned()
                }
            },
            None => "free".to_owned(),
        },
    }
}

/// What `parse_meta_xml` reads from a `meta.xml` body: each field from its lower-case tag,
/// else its capitalised tag, else a default, and the text fields stripped of legacy names.
pub open spec fn meta_name(id: Seq<char>, body: Seq<char>) -> Seq<char> {
    sanitize_spec(or_default(or_else(xml_tag_spec(body, "name"@), xml_tag_spec(body, "Name"@)), id))
}

pub open spec fn meta_category(body: Seq<char>) -> Seq<char> {
    sanitize_spec(
        or_default(
            or_else(
                xml_tag_spec(body, "type"@),
                or_else(xml_tag_spec(body, "category"@), xml_tag_spec(body, "Type"@)),
            ),
            "Utility"@,
        ),
    )
}

/// No character of `s` is `<`.
pub open spec fn no_markup(s: Seq<char>) -> bool {
    forall|i: int| 0 <= i < s.len() ==> s[i] != '<'
}

/// A tag starting with `<` is first found right after a stretch without `<`.
proof fn lemma_tag_found_after(pre: Seq<char>, pat: Seq<char>, rest: Seq<char>)
    requires
        no_markup(pre),
        pat.len() > 0,
        pat[0] == '<',
    ensures
        first_index(pre + pat + rest, pat) == Some(pre.len() as int),
{
    let s = pre + pat + rest;
    assert(s.subrange(pre.len() as int, (pre.len() + pat.len()) as int) =~= pat);
    assert forall|j: int| 0 <= j < pre.len() implies !occurs_at(s, pat, j) by {
        if occurs_at(s, pat, j) {
            assert(s.subrange(j, j + pat.len())[0] == s[j]);
            assert(s[j] == pre[j]);
        }
    }
    crate::text::lemma_find_seq_from(s, pat, 0, Some(pre.len() as int));
}

/// Law: a `<type>` tag names the category. For a `meta.xml` body holding `<type>x</type>`
/// with no `<` before it or inside `x`, and `x` not blank, the category is `x` trimmed (with
/// the legacy product names replaced), whatever follows: `<category>`, `<Type>` and the
/// `Utility` default do not apply.
pub proof fn lemma_type_tag_sets_category(pre: Seq<char>, x: Seq<char>, post: Seq<char>)
    requires
        no_markup(pre),
        no_markup(x),
        trim(x).len() > 0,
    ensures
        meta_category(pre + "<type>"@ + x + "</type>"@ + post) == sanitize_spec(trim(x)),
{
    reveal_strlit("<");
    reveal_strlit(">");
    reveal_strlit("</");
    reveal_strlit("type");
    reveal_strlit("<type>");
    reveal_strlit("</type>");
    let open = "<type>"@;
    let close = "</type>"@;
    assert("<"@ + "type"@ + ">"@ =~= open);
    assert("</"@ + "type"@ + ">"@ =~= close);
    let body = pre + open + x + close + post;
    assert(body =~= pre + open + (x + close + post));
    lemma_tag_found_after(pre, open, x + close + post);
    let start: int = (pre.len() + open.len()) as int;
    assert(body.skip(start) =~= x + close + post);
    lemma_tag_found_after(x, close, post);
    assert(body.subrange(start, start + x.len()) =~= x);
}

/// A tag `<t…` is nowhere in `s` when each `<` of `s` is followed by another character than
/// the tag's second one.
proof fn lemma_tag_absent(s: Seq<char>, pat: Seq<char>)
    requires
        pat.len() >= 2,
        pat[0] == '<',
        forall|j: int| 0 <= j < s.len() && #[trigger] s[j] == '<' ==> j + 1 < s.len() && s[j + 1] != pat[1],
    ensures
        first_index(s, pat) is None,
{
    assert forall|j: int| 0 <= j implies !occurs_at(s, pat, j) by {
        if occurs_at(s, pat, j) {
            assert(s.subrange(j, j + pat.len())[0] == s[j]);
            assert(s.subrange(j, j + pat.len())[1] == s[j + 1]);
        }
    }
    crate::text::lemma_find_seq_from(s, pat, 0, None);
}

/// Law: without a `<type>` tag, a `<category>` tag names the category. For a body holding
/// `<category>x</category>` and no other `<`, with `x` not blank, the category is `x`
/// trimmed (with the legacy product names replaced).
pub proof fn lemma_category_tag_sets_category(pre: Seq<char>, x: Seq<char>, post: Seq<char>)
    requires
        no_markup(pre),
        no_markup(x),
        no_markup(post),
        trim(x).len() > 0,
    ensures
        meta_category(pre + "<category>"@ + x + "</category>"@ + post) == sanitize_spec(trim(x)),
{
    reveal_strlit("<");
    reveal_strlit(">");
    reveal_strlit("</");
    reveal_strlit("type");
    reveal_strlit("category");
    reveal_strlit("<category>");
    reveal_strlit("</category>");
    let open = "<category>"@;
    let close = "</category>"@;
    assert("<"@ + "category"@ + ">"@ =~= open);
    assert("</"@ + "category"@ + ">"@ =~= close);
    let body = pre + open + x + close + post;
    let a: int = pre.len() as int;
    let b: int = (pre.len() + open.len() + x.len()) as int;
    assert forall|j: int| 0 <= j < body.len() && body[j] == '<' implies j == a || j == b by {
        if j < a {
            assert(body[j] == pre[j]);
        } else if a < j < a + open.len() {
            assert(body[j] == open[j - a]);
        } else if a + open.len() <= j < b {
            assert(body[j] == x[j - a - open.len()]);
        } else if b < j < b + close.len() {
            assert(body[j] == close[j - b]);
        } else if j >= b + close.len() {
            assert(body[j] == post[j - b - close.len()]);
        }
    }
    assert(body[a + 1] == 'c');
    assert(body[b + 1] == '/');
    lemma_tag_absent(body, "<"@ + "type"@ + ">"@);
    assert(body =~= pre + open + (x + close + post));
    lemma_tag_found_after(pre, open, x + close + post);
    let start: int = (pre.len() + open.len()) as int;
    assert(body.skip(start) =~= x + close + post);
    lemma_tag_found_after(x, close, post);
    assert(body.subrange(start, start + x.len()) =~= x);
}

/// Law: a body without tags gets the default category `Utility`.
pub proof fn lemma_untagged_category_is_utility(body: Seq<char>)
    requires
        no_markup(body),
    ensures
        meta_category(body) == sanitize_spec("Utility"@),
{
    reveal_strlit("<");
    reveal_strlit(">");
    lemma_tag_absent(body, "<"@ + "type"@ + ">"@);
    lemma_tag_absent(body, "<"@ + "category"@ + ">"@);
    lemma_tag_absent(body, "<"@ + "Type"@ + ">"@);
}

pub open spec fn meta_version(body: Seq<char>) -> Seq<char> {
    or_default(or_else(xml_tag_spec(body, "version"@), xml_tag_spec(body, "Version"@)), "0.0.0"@)
}

pub open spec fn meta_description(body: Seq<char>) -> Seq<char> {
    sanitize_spec(
        or_default(
            or_else(xml_tag_spec(body, "description"@), xml_tag_spec(body, "Description"@)),
            "No description provided."@,
        ),
    )
}

pub open spec fn meta_author(body: Seq<char>) -> Seq<char> {
    sanitize_spec(
        or_default(or_else(xml_tag_spec(body, "author"@), xml_tag_spec(body, "Author"@)), "unknown"@),
    )
}

/// `o.unwrap_or(d)` on strings.
fn unwrap_or_str(o: Option<String>, d: &str) -> (r: String)
    ensures
        r@ == or_default(opt_string_view(&o), d@),
{
    match o {
        Some(s) => s,
        None => d.to_owned(),
    }
}

/// Parse a legacy catalog `meta.xml` into a CPN catalog entry. Every body gives an entry:
/// what is missing takes its default; dates, counts and flags start empty.
pub fn parse_meta_xml(plugin_id: &str, body: &str) -> (r: Result<CatalogEntry, String>)
    ensures
        r matches Ok(e) && e.id@ == plugin_id@ && e.name@ == meta_name(plugin_id@, body@)
            && e.category@ == meta_category(body@) && e.version@ == meta_version(body@)
            && e.description@ == meta_description(body@) && e.author@ == meta_author(body@)
            && e.pricing@ == pricing_spec(body@) && e.released_on@.len() == 0
            && e.updated_on@.len() == 0 && e.install_count == 0 && !e.featured
            && e.uninstall_impacts@.len() == 0 && !e.host_scoped,
{
    let name = unwrap_or_str(xml_tag_either(body, "name", "Name"), plugin_id);
    let category = match xml_tag(body, "type") {
        Some(v) => v,
        None => unwrap_or_str(xml_tag_either(body, "category", "Type"), "Utility"),
    };
    let version = unwrap_or_str(xml_tag_either(body, "version", "Version"), "0.0.0");
    let description = unwrap_or_str(
        xml_tag_either(body, "description", "Description"),
        "No description provided.",
    );
    let author = unwrap_or_str(xml_tag_either(body, "author", "Author"), "unknown");
    Ok(
        CatalogEntry {
            id: plugin_id.to_owned(),
            name: sanitize_user_text(name.as_str()),
            category: sanitize_user_text(category.as_str()),
            version,
            description: sanitize_user_text(description.as_str()),
            author: sanitize_user_text(author.as_str()),
            pricing: pricing_from_meta(body),
            released_on: String::new(),
            updated_on: String::new(),
            install_count: 0,
            featured: false,
            uninstall_impacts: Vec::new(),
            host_scoped: false,
        },
    )
}

/// When a catalog fetched at `fetched_at` is next fetched again (saturating).
pub fn catalog_next_refresh_unix(fetched_at: u64) -> (r: u64)
    ensures
        r == if fetched_at + CATALOG_CACHE_SECS > u64::MAX {
            u64::MAX as int
        } else {
            fetched_at + CATALOG_CACHE_SECS
        },
{
    fetched_at.saturating_add(CATALOG_CACHE_SECS)
}

/// A catalog fetched at `fetched_at` is fresh at `now` while less than an hour has passed
/// (a fetch time in the future counts as no time passed).
pub fn catalog_cache_is_fresh(fetched_at: u64, now: u64) -> (r: bool)
    ensures
        r == ((if now >= fetched_at { now - fetched_at } else { 0 }) < CATALOG_CACHE_SECS),
{
    now.saturating_sub(fetched_at) < CATALOG_CACHE_SECS
}

/// `fetch_catalog`'s choice: the cached catalog (fetched at `cached_at`, when there is one)
/// is used unless a refresh is forced or it is stale.
pub fn use_cached_catalog(force_refresh: bool, cached_at: Option<u64>, now: u64) -> (r: bool)
    ensures
        r == (!force_refresh && match cached_at {
            Some(t) => (if now >= t { now - t } else { 0 }) < CATALOG_CACHE_SECS,
            None => false,
        }),
{
    if force_refresh {
        return false;
    }
    match cached_at {
        Some(t) => catalog_cache_is_fresh(t, now),
        None => false,
    }
}

} // verus!
