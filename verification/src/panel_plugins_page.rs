//! Reading the Plugins page request: the legacy Host tab redirect, and the view, filters,
//! paging and site the page is shown for.

use vstd::prelude::*;
use vstd::string::*;
use crate::panel_plugins_spa::{page_from_query, page_spec, per_page_from_query, per_page_spec};
use crate::text::{eq_ignore_case, eq_ignore_case_str, str_eq, string_views, trim, trim_str};
use crate::url_form::{push_url_encoded, url_encode_spec};

verus! {

/// Query pairs in plain values.
pub open spec fn pair_views(q: Seq<(String, String)>) -> Seq<(Seq<char>, Seq<char>)> {
    q.map_values(|p: (String, String)| (p.0@, p.1@))
}

/// The value of the last pair named `key` (a query map keeps the last value of a repeated
/// key).
pub open spec fn query_get(q: Seq<(Seq<char>, Seq<char>)>, key: Seq<char>) -> Option<Seq<char>>
    decreases q.len(),
{
    if q.len() == 0 {
        None
    } else if q.last().0 == key {
        Some(q.last().1)
    } else {
        query_get(q.drop_last(), key)
    }
}

pub open spec fn get_or(q: Seq<(Seq<char>, Seq<char>)>, key: Seq<char>, default: Seq<char>) -> Seq<char> {
    match query_get(q, key) {
        Some(v) => v,
        None => default,
    }
}

fn get_value(q: &Vec<(String, String)>, key: &str) -> (r: Option<String>)
    ensures
        opt_string(r) == query_get(pair_views(q@), key@),
{
    let mut i: usize = 0;
    let mut found: Option<String> = None;
    assert(pair_views(q@).take(0) =~= Seq::<(Seq<char>, Seq<char>)>::empty());
    while i < q.len()
        invariant
            i <= q.len(),
            opt_string(found) == query_get(pair_views(q@).take(i as int), key@),
        decreases q.len() - i,
    {
        proof {
            assert(pair_views(q@).take(i + 1).drop_last() =~= pair_views(q@).take(i as int));
            assert(pair_views(q@).take(i + 1).last() == pair_views(q@)[i as int]);
        }
        if str_eq(q[i].0.as_str(), key) {
            found = Some(q[i].1.clone());
        }
        i += 1;
    }
    assert(pair_views(q@).take(q.len() as int) =~= pair_views(q@));
    found
}

pub open spec fn opt_string(o: Option<String>) -> Option<Seq<char>> {
    match o {
        Some(s) => Some(s@),
        None => None,
    }
}

/// Pair `i` is the first pair named by its key.
pub open spec fn first_of_key(q: Seq<(Seq<char>, Seq<char>)>, i: int) -> bool {
    forall|j: int| 0 <= j < i ==> q[j].0 != q[i].0
}

/// What pair `i` adds to the legacy Host tab redirect: `&key=value` with the key's last
/// value form-encoded, once per key (at its first pair), for every key but `view` and
/// `category` whose last value is not blank.
pub open spec fn kept_entry(q: Seq<(Seq<char>, Seq<char>)>, i: int) -> Seq<char> {
    let key = q[i].0;
    let value = get_or(q, key, Seq::empty());
    if !first_of_key(q, i) || key == "view"@ || key == "category"@ || trim(value).len() == 0 {
        Seq::empty()
    } else {
        "&"@ + key + "="@ + url_encode_spec(value)
    }
}

pub open spec fn kept_upto(q: Seq<(Seq<char>, Seq<char>)>, n: int) -> Seq<char>
    decreases n,
{
    if n <= 0 {
        Seq::empty()
    } else {
        kept_upto(q, n - 1) + kept_entry(q, n - 1)
    }
}

/// The extra parameters the legacy Host tab redirect keeps, as a query map holds them: each
/// key once with its last value, keys in the order they first appear.
pub open spec fn kept_params(q: Seq<(Seq<char>, Seq<char>)>) -> Seq<char> {
    kept_upto(q, q.len() as int)
}

fn seen_before(q: &Vec<(String, String)>, i: usize) -> (r: bool)
    requires
        i < q.len(),
    ensures
        r == !first_of_key(pair_views(q@), i as int),
{
    let mut j: usize = 0;
    while j < i
        invariant
            i < q.len(),
            j <= i,
            forall|k: int| 0 <= k < j ==> pair_views(q@)[k].0 != pair_views(q@)[i as int].0,
        decreases i - j,
    {
        if str_eq(q[j].0.as_str(), q[i].0.as_str()) {
            assert(pair_views(q@)[j as int].0 == pair_views(q@)[i as int].0);
            return true;
        }
        j += 1;
    }
    false
}

/// What the Plugins page shows.
pub struct PluginsPageQuery {
    pub view: String,
    pub layout: String,
    pub q: String,
    pub category: String,
    pub status: String,
    /// The site, when it is one the user manages (trimmed), else empty.
    pub domain: String,
    pub notice: Option<String>,
    pub error: Option<String>,
    pub refresh: bool,
    pub mode: String,
    pub page: usize,
    pub per_page: usize,
    /// Only the page body is wanted (`partial=1` or an `X-CPN-Partial: 1` header).
    pub partial: bool,
}

/// A Plugins page request: the legacy Host tab moved to the Store's Host category, or a
/// page to show.
pub enum PluginsPageRequest {
    Moved(String),
    Show(PluginsPageQuery),
}

pub open spec fn is_legacy_host_view(q: Seq<(Seq<char>, Seq<char>)>) -> bool {
    query_get(q, "view"@) == Some("host"@) || query_get(q, "view"@) == Some("apps"@)
}

pub open spec fn has_key(q: Seq<(Seq<char>, Seq<char>)>, key: Seq<char>) -> bool {
    query_get(q, key) is Some
}

pub open spec fn view_spec(q: Seq<(Seq<char>, Seq<char>)>) -> Seq<char> {
    if has_key(q, "view-store"@) || query_get(q, "view"@) == Some("store"@) || query_get(q, "view"@) == Some(
        "view-store"@,
    ) {
        "store"@
    } else {
        get_or(q, "view"@, "installed"@)
    }
}

pub open spec fn chosen_domain(raw: Seq<char>, manageable: Seq<Seq<char>>) -> Seq<char> {
    if trim(raw).len() > 0 && exists|i: int| 0 <= i < manageable.len() && eq_ignore_case(#[trigger] manageable[i], trim(raw)) {
        trim(raw)
    } else {
        Seq::empty()
    }
}

/// The page a request shows, field by field.
pub open spec fn page_query_ok(r: PluginsPageQuery, q: Seq<(Seq<char>, Seq<char>)>, partial_header: Option<Seq<char>>, manageable: Seq<Seq<char>>) -> bool {
    &&& r.view@ == view_spec(q)
    &&& r.layout@ == get_or(q, "layout"@, "grid"@)
    &&& r.q@ == get_or(q, "q"@, Seq::empty())
    &&& r.category@ == get_or(q, "category"@, Seq::empty())
    &&& r.status@ == get_or(q, "status"@, Seq::empty())
    &&& r.domain@ == chosen_domain(get_or(q, "domain"@, Seq::empty()), manageable)
    &&& opt_string(r.notice) == query_get(q, "notice"@)
    &&& opt_string(r.error) == query_get(q, "error"@)
    &&& r.refresh == (query_get(q, "refresh"@) == Some("1"@))
    &&& r.mode@ == get_or(q, "mode"@, "page"@)
    &&& r.page == page_spec(get_or(q, "page"@, "1"@))
    &&& r.per_page == per_page_spec(get_or(q, "per_page"@, "4"@))
    &&& r.partial == (query_get(q, "partial"@) == Some("1"@) || partial_header == Some("1"@))
}

fn get_or_default(q: &Vec<(String, String)>, key: &str, default: &str) -> (r: String)
    ensures
        r@ == get_or(pair_views(q@), key@, default@),
{
    match get_value(q, key) {
        Some(v) => v,
        None => default.to_owned(),
    }
}

fn is_value(q: &Vec<(String, String)>, key: &str, want: &str) -> (r: bool)
    ensures
        r == (query_get(pair_views(q@), key@) == Some(want@)),
{
    match get_value(q, key) {
        Some(v) => str_eq(v.as_str(), want),
        None => false,
    }
}

fn manages(manageable: &Vec<String>, domain: &str) -> (r: bool)
    ensures
        r == exists|i: int| 0 <= i < manageable@.len() && eq_ignore_case(#[trigger] string_views(manageable@)[i], domain@),
{
    let mut i: usize = 0;
    while i < manageable.len()
        invariant
            i <= manageable.len(),
            forall|j: int| 0 <= j < i ==> !eq_ignore_case(#[trigger] string_views(manageable@)[j], domain@),
        decreases manageable.len() - i,
    {
        if eq_ignore_case_str(manageable[i].as_str(), domain) {
            assert(string_views(manageable@)[i as int] == manageable@[i as int]@);
            return true;
        }
        assert(string_views(manageable@)[i as int] == manageable@[i as int]@);
        i += 1;
    }
    false
}

/// Reads a Plugins page request from its query pairs, the `X-CPN-Partial` header and the
/// sites the user manages.
#[verifier::rlimit(80)]
#[verifier::spinoff_prover]
pub fn plugins_page_request(query: &Vec<(String, String)>, partial_header: Option<&str>, manageable: &Vec<String>) -> (r:
    PluginsPageRequest)
    ensures
        match r {
            PluginsPageRequest::Moved(loc) => is_legacy_host_view(pair_views(query@)) && loc@
                == "/plugins?view=store&category=Host"@ + kept_params(pair_views(query@)),
            PluginsPageRequest::Show(p) => !is_legacy_host_view(pair_views(query@)) && page_query_ok(
                p,
                pair_views(query@),
                crate::text::opt_view(partial_header),
                string_views(manageable@),
            ),
        },
{
    let q = query;
    if is_value(q, "view", "host") || is_value(q, "view", "apps") {
        let mut loc = "/plugins?view=store&category=Host".to_owned();
        let mut i: usize = 0;
        while i < q.len()
            invariant
                i <= q.len(),
                loc@ == "/plugins?view=store&category=Host"@ + kept_upto(pair_views(q@), i as int),
            decreases q.len() - i,
        {
            let key = q[i].0.as_str();
            let dup = seen_before(q, i);
            let value = get_or_default(q, key, "");
            proof {
                assert(pair_views(q@)[i as int].0 == key@);
                reveal_strlit("");
                assert(""@ =~= Seq::<char>::empty());
            }
            let skip = dup || str_eq(key, "view") || str_eq(key, "category") || trim_str(value.as_str()).as_str().unicode_len() == 0;
            let ghost before = loc@;
            if !skip {
                loc.append("&");
                loc.append(key);
                loc.append("=");
                push_url_encoded(&mut loc, value.as_str());
            }
            proof {
                let pv = pair_views(q@);
                assert(kept_upto(pv, i + 1) == kept_upto(pv, i as int) + kept_entry(pv, i as int));
                if skip {
                    assert(kept_entry(pv, i as int) =~= Seq::<char>::empty());
                    assert(loc@ =~= before);
                } else {
                    assert(kept_entry(pv, i as int) == "&"@ + key@ + "="@ + url_encode_spec(value@));
                }
            }
            i += 1;
        }
        return PluginsPageRequest::Moved(loc);
    }
    let view = if get_value(q, "view-store").is_some() || is_value(q, "view", "store") || is_value(q, "view", "view-store") {
        "store".to_owned()
    } else {
        get_or_default(q, "view", "installed")
    };
    let raw_domain = get_or_default(q, "domain", "");
    let t = trim_str(raw_domain.as_str());
    let domain = if t.as_str().unicode_len() > 0 && manages(manageable, t.as_str()) { t } else { String::new() };
    let page_raw = get_or_default(q, "page", "1");
    let per_raw = get_or_default(q, "per_page", "4");
    let header_partial = match partial_header {
        Some(h) => str_eq(h, "1"),
        None => false,
    };
    let p = PluginsPageQuery {
        view,
        layout: get_or_default(q, "layout", "grid"),
        q: get_or_default(q, "q", ""),
        category: get_or_default(q, "category", ""),
        status: get_or_default(q, "status", ""),
        domain,
        notice: get_value(q, "notice"),
        error: get_value(q, "error"),
        refresh: is_value(q, "refresh", "1"),
        mode: get_or_default(q, "mode", "page"),
        page: page_from_query(page_raw.as_str()),
        per_page: per_page_from_query(per_raw.as_str()),
        partial: is_value(q, "partial", "1") || header_partial,
    };
    proof {
        reveal_strlit("");
        assert(""@ =~= Seq::<char>::empty());
    }
    PluginsPageRequest::Show(p)
}

} // verus!
