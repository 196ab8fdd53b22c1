//! Plugin Store catalog list: filtering by category and query, the page window, and the
//! card markup with its Free/Paid, Host/Site and Featured badges.

use vstd::prelude::*;
use vstd::string::*;
use crate::plugin_activation::{catalog_entry_is_host_scoped, host_scoped_spec, is_activated,
    activated_spec, PluginActivation};
use crate::plugins::CatalogEntry;
use crate::text::{
    all_digits, chars_of, contains_seq, contains_str, dec, eq_ignore_case, eq_ignore_case_str,
    html_escaped, is_digit, lower_str, push_dec, push_escaped, str_eq, string_of_chars,
    string_of_range, string_views, to_lower, trim, trim_str,
};
use crate::url_form::{push_url_encoded, url_encode_spec};

verus! {

/// A price that mentions "paid" or "premium" (in any ASCII case) is paid.
pub open spec fn pricing_paid(p: Seq<char>) -> bool {
    contains_seq(to_lower(p), "paid"@) || contains_seq(to_lower(p), "premium"@)
}

pub fn pricing_is_paid(pricing: &str) -> (r: bool)
    ensures
        r == pricing_paid(pricing@),
{
    let lower = lower_str(pricing);
    contains_str(lower.as_str(), "paid") || contains_str(lower.as_str(), "premium")
}

/// An exact `paid`/`premium` or `free` query (trimmed, any case) filters by price.
pub open spec fn pricing_query_spec(q: Seq<char>) -> Option<Seq<char>> {
    let l = to_lower(trim(q));
    if l == "paid"@ || l == "premium"@ {
        Some("paid"@)
    } else if l == "free"@ {
        Some("free"@)
    } else {
        None
    }
}

pub fn exact_pricing_query(query: &str) -> (r: Option<&'static str>)
    ensures
        match r {
            Some(w) => pricing_query_spec(query@) == Some(w@),
            None => pricing_query_spec(query@) is None,
        },
{
    let t = trim_str(query);
    let l = lower_str(t.as_str());
    proof {
        reveal_strlit("paid");
        reveal_strlit("free");
    }
    if str_eq(l.as_str(), "paid") || str_eq(l.as_str(), "premium") {
        Some("paid")
    } else if str_eq(l.as_str(), "free") {
        Some("free")
    } else {
        None
    }
}

/// The Free/Paid badge of a card.
pub fn badge_pricing(pricing: &str) -> (r: &'static str)
    ensures
        r@ == (if pricing_paid(pricing@) {
            "<span class=\"plugin-badge paid\">Paid</span>"@
        } else {
            "<span class=\"plugin-badge free\">Free</span>"@
        }),
{
    if pricing_is_paid(pricing) {
        "<span class=\"plugin-badge paid\">Paid</span>"
    } else {
        "<span class=\"plugin-badge free\">Free</span>"
    }
}

/// The category pill an entry passes (`cat` trimmed and lower-cased): none or `all` passes
/// everything, `featured` the featured entries, `paid`/`free` by price, anything else the
/// entries of that category (ignoring case).
pub open spec fn category_ok(e: CatalogEntry, cat: Seq<char>) -> bool {
    if cat.len() == 0 || cat == "all"@ {
        true
    } else if cat == "featured"@ {
        e.featured
    } else if cat == "paid"@ {
        pricing_paid(e.pricing@)
    } else if cat == "free"@ {
        !pricing_paid(e.pricing@)
    } else {
        to_lower(e.category@) == cat
    }
}

/// The query an entry passes (`q` trimmed and lower-cased): an empty query passes all, an
/// exact price word filters by price, any other text must occur in the lower-cased name,
/// description or id.
pub open spec fn query_ok(e: CatalogEntry, q: Seq<char>) -> bool {
    if q.len() == 0 {
        true
    } else {
        match pricing_query_spec(q) {
            Some(w) => if w == "paid"@ {
                pricing_paid(e.pricing@)
            } else {
                !pricing_paid(e.pricing@)
            },
            None => contains_seq(to_lower(e.name@), q) || contains_seq(to_lower(e.description@), q)
                || contains_seq(to_lower(e.id@), q),
        }
    }
}

/// The Store filter for a trimmed, lower-cased query and category.
pub open spec fn store_match(q: Seq<char>, cat: Seq<char>) -> spec_fn(CatalogEntry) -> bool {
    |e: CatalogEntry| category_ok(e, cat) && query_ok(e, q)
}

/// The entries the Store shows for a query and a category pill, in catalog order.
pub open spec fn store_filter_spec(entries: Seq<CatalogEntry>, query: Seq<char>, category: Seq<char>) -> Seq<
    CatalogEntry,
> {
    entries.filter(store_match(to_lower(trim(query)), to_lower(trim(category))))
}

/// Law: the Store search finds an entry by its name, description or id, ignoring case. An
/// entry that passes the category pill is listed when its lower-cased name, description or
/// id holds the trimmed, lower-cased query (for a query that is not a price word).
pub proof fn lemma_store_search_finds_entry(entries: Seq<CatalogEntry>, query: Seq<char>, category: Seq<char>, k: int)
    requires
        0 <= k < entries.len(),
        to_lower(trim(query)).len() > 0,
        pricing_query_spec(to_lower(trim(query))) is None,
        category_ok(entries[k], to_lower(trim(category))),
        contains_seq(to_lower(entries[k].name@), to_lower(trim(query))) || contains_seq(
            to_lower(entries[k].description@),
            to_lower(trim(query)),
        ) || contains_seq(to_lower(entries[k].id@), to_lower(trim(query))),
    ensures
        store_filter_spec(entries, query, category).contains(entries[k]),
{
    entries.lemma_filter_contains(store_match(to_lower(trim(query)), to_lower(trim(category))), k);
}

/// Law: the Store lists only entries that fit. Every listed entry comes from the catalog;
/// for a category pill other than All, Featured, Paid and Free its lower-cased category is
/// the pill; and for a query that is not a price word its lower-cased name, description or
/// id holds the query (both trimmed and lower-cased).
pub proof fn lemma_store_lists_only_fitting(entries: Seq<CatalogEntry>, query: Seq<char>, category: Seq<char>, e: CatalogEntry)
    requires
        store_filter_spec(entries, query, category).contains(e),
    ensures
        entries.contains(e),
        ({
            let cat = to_lower(trim(category));
            cat.len() > 0 && cat != "all"@ && cat != "featured"@ && cat != "paid"@ && cat != "free"@
                ==> to_lower(e.category@) == cat
        }),
        ({
            let q = to_lower(trim(query));
            q.len() > 0 && pricing_query_spec(q) is None ==> contains_seq(to_lower(e.name@), q) || contains_seq(
                to_lower(e.description@),
                q,
            ) || contains_seq(to_lower(e.id@), q)
        }),
{
    let p = store_match(to_lower(trim(query)), to_lower(trim(category)));
    let f = entries.filter(p);
    entries.lemma_filter_contains_rev(p, e);
    let j = choose|j: int| 0 <= j < f.len() && f[j] == e;
    entries.lemma_filter_pred(p, j);
}

pub(crate) fn entry_matches(e: &CatalogEntry, q: &str, cat: &str) -> (r: bool)
    ensures
        r == (store_match(q@, cat@))(*e),
{
    proof {
        reveal_strlit("all");
        reveal_strlit("featured");
        reveal_strlit("paid");
        reveal_strlit("free");
    }
    let cat_ok = if cat.is_empty() || str_eq(cat, "all") {
        true
    } else if str_eq(cat, "featured") {
        e.featured
    } else if str_eq(cat, "paid") {
        pricing_is_paid(e.pricing.as_str())
    } else if str_eq(cat, "free") {
        !pricing_is_paid(e.pricing.as_str())
    } else {
        let c = lower_str(e.category.as_str());
        str_eq(c.as_str(), cat)
    };
    if !cat_ok {
        return false;
    }
    if q.is_empty() {
        return true;
    }
    match exact_pricing_query(q) {
        Some(want) => {
            if str_eq(want, "paid") {
                pricing_is_paid(e.pricing.as_str())
            } else {
                !pricing_is_paid(e.pricing.as_str())
            }
        },
        None => {
            let name = lower_str(e.name.as_str());
            let desc = lower_str(e.description.as_str());
            let id = lower_str(e.id.as_str());
            contains_str(name.as_str(), q) || contains_str(desc.as_str(), q) || contains_str(id.as_str(), q)
        },
    }
}

/// The Store entries for a query and a category pill, in catalog order.
pub fn filter_store_entries<'a>(entries: &'a Vec<CatalogEntry>, query: &str, category: &str) -> (r: Vec<
    &'a CatalogEntry,
>)
    ensures
        r@.map_values(|e: &CatalogEntry| *e) == store_filter_spec(entries@, query@, category@),
{
    let qt = trim_str(query);
    let q = lower_str(qt.as_str());
    let ct = trim_str(category);
    let cat = lower_str(ct.as_str());
    let ghost pred = store_match(q@, cat@);
    let mut out: Vec<&'a CatalogEntry> = Vec::new();
    let mut k: usize = 0;
    proof {
        crate::text::lemma_filter_empty(pred);
        assert(entries@.take(0) =~= Seq::<CatalogEntry>::empty());
        assert(out@.map_values(|e: &CatalogEntry| *e) =~= Seq::<CatalogEntry>::empty());
    }
    while k < entries.len()
        invariant
            k <= entries.len(),
            pred == store_match(q@, cat@),
            q@ == to_lower(trim(query@)),
            cat@ == to_lower(trim(category@)),
            out@.map_values(|e: &CatalogEntry| *e) == entries@.take(k as int).filter(pred),
        decreases entries.len() - k,
    {
        proof {
            crate::text::lemma_filter_push(entries@.take(k as int), pred, entries@[k as int]);
            assert(entries@.take(k + 1) =~= entries@.take(k as int).push(entries@[k as int]));
        }
        let e: &'a CatalogEntry = &entries[k];
        if entry_matches(e, q.as_str(), cat.as_str()) {
            let ghost before = out@;
            out.push(e);
            proof {
                assert(out@.map_values(|e: &CatalogEntry| *e) =~= before.map_values(
                    |e: &CatalogEntry| *e,
                ).push(entries@[k as int]));
            }
        }
        k += 1;
    }
    assert(entries@.take(entries.len() as int) =~= entries@);
    out
}

/// Which slice of the filtered list a Store page shows: page size, page count, the page
/// (clamped to the count), and the half-open index range `[start, end)`. In scroll mode
/// everything is one page.
pub struct PageWindow {
    pub per_page: usize,
    pub total_pages: usize,
    pub page: usize,
    pub start: usize,
    pub end: usize,
}

/// `ceil(total / per)`, at least 1.
pub open spec fn page_count(total: nat, per: nat) -> nat {
    if per == 0 || total == 0 {
        1
    } else {
        ((total + per - 1) / per as int) as nat
    }
}

pub open spec fn window_spec(scroll: bool, total: usize, per_page_asked: usize, page_asked: usize) -> (usize, usize, usize, usize, usize) {
    let per: usize = if scroll {
        if total >= 1 { total } else { 1 }
    } else if crate::panel_plugins_spa::is_page_size(per_page_asked) {
        per_page_asked
    } else {
        4
    };
    let pages: usize = if scroll { 1 } else { page_count(total as nat, per as nat) as usize };
    let asked: usize = if page_asked >= 1 { page_asked } else { 1 };
    let page: usize = if asked <= pages { asked } else { pages };
    let start: usize = if scroll { 0 } else { ((page - 1) * per) as usize };
    let end: usize = if scroll { total } else if start + per <= total { (start + per) as usize } else { total };
    (per, pages, page, start, end)
}

/// The page window for `total` matches in a list mode, page size and page asked for.
#[verifier::rlimit(60)]
#[verifier::spinoff_prover]
pub fn store_page_window(scroll: bool, total: usize, per_page_asked: usize, page_asked: usize) -> (r: PageWindow)
    ensures
        (r.per_page, r.total_pages, r.page, r.start, r.end) == window_spec(scroll, total, per_page_asked, page_asked),
        1 <= r.page <= r.total_pages,
        r.total_pages <= total / 4 + 1,
        r.start <= r.end <= total,
{
    let per: usize = if scroll {
        if total >= 1 { total } else { 1 }
    } else if per_page_asked == 4 || per_page_asked == 8 || per_page_asked == 12 || per_page_asked == 16
        || per_page_asked == 24 || per_page_asked == 48 {
        per_page_asked
    } else {
        4
    };
    proof {
        if !scroll {
            assert(total / per <= total / 4) by (nonlinear_arith)
                requires
                    per >= 4,
            ;
        }
    }
    let pages: usize = if scroll {
        1
    } else if total == 0 {
        1
    } else {
        total / per + if total % per == 0 { 0 } else { 1 }
    };
    proof {
        if !scroll && total > 0 {
            assert((total + per - 1) / per as int == total / per + if total % per == 0 { 0int } else { 1int })
                by (nonlinear_arith)
                requires
                    per > 0,
                    total > 0,
            ;
        }
    }
    let asked: usize = if page_asked >= 1 { page_asked } else { 1 };
    let page: usize = if asked <= pages { asked } else { pages };
    let start: usize = if scroll {
        0
    } else {
        proof {
            if total > 0 {
                assert((page - 1) * per < total) by (nonlinear_arith)
                    requires
                        per > 0,
                        1 <= page,
                        page <= total / per + if total % per == 0 { 0int } else { 1int },
                        total > 0,
                ;
            } else {
                assert(page == 1);
            }
        }
        (page - 1) * per
    };
    let end: usize = if scroll {
        total
    } else if per <= total && start <= total - per {
        start + per
    } else {
        total
    };
    PageWindow { per_page: per, total_pages: pages, page, start, end }
}

/// A `YYYY-MM-DD…` date as `DD.MM.YYYY`; any other text as it is.
pub open spec fn iso_date_eu(s: Seq<char>) -> Seq<char> {
    if s.len() >= 10 && all_digits(s.subrange(0, 4)) && s[4] == '-' && all_digits(s.subrange(5, 7))
        && s[7] == '-' && all_digits(s.subrange(8, 10)) {
        s.subrange(8, 10) + "."@ + s.subrange(5, 7) + "."@ + s.subrange(0, 4)
    } else {
        s
    }
}

fn digits_in(v: &Vec<char>, a: usize, b: usize) -> (r: bool)
    requires
        a <= b <= v.len(),
    ensures
        r == all_digits(v@.subrange(a as int, b as int)),
{
    let mut i = a;
    while i < b
        invariant
            a <= i <= b <= v.len(),
            forall|k: int| a <= k < i ==> is_digit(#[trigger] v@[k]),
        decreases b - i,
    {
        let u = v[i] as u32;
        if !(48 <= u && u <= 57) {
            assert(!is_digit(v@.subrange(a as int, b as int)[i - a]));
            return false;
        }
        i += 1;
    }
    assert forall|k: int| 0 <= k < v@.subrange(a as int, b as int).len() implies is_digit(
        #[trigger] v@.subrange(a as int, b as int)[k],
    ) by {
        assert(v@.subrange(a as int, b as int)[k] == v@[a + k]);
    }
    true
}

/// An ISO date in the European day.month.year order (see `iso_date_eu`).
pub fn format_iso_date_eu(s: &str) -> (r: String)
    ensures
        r@ == iso_date_eu(s@),
{
    let v = chars_of(s);
    if v.len() >= 10 && digits_in(&v, 0, 4) && v[4] == '-' && digits_in(&v, 5, 7) && v[7] == '-'
        && digits_in(&v, 8, 10) {
        let mut out = string_of_range(&v, 8, 10);
        out.append(".");
        let m = string_of_range(&v, 5, 7);
        out.append(m.as_str());
        out.append(".");
        let y = string_of_range(&v, 0, 4);
        out.append(y.as_str());
        proof {
            reveal_strlit(".");
        }
        out
    } else {
        string_of_chars(&v)
    }
}

/// The dates line of a card: `Released: …` and `Updated: …` for the dates that are not
/// blank (trimmed, in European order), joined by ` · ` and escaped; nothing without dates.
pub open spec fn dates_line_spec(released: Seq<char>, updated: Seq<char>) -> Seq<char> {
    let r = trim(released);
    let u = trim(updated);
    let rp = "Released: "@ + iso_date_eu(r);
    let up = "Updated: "@ + iso_date_eu(u);
    let joined = if r.len() > 0 && u.len() > 0 {
        rp + " · "@ + up
    } else if r.len() > 0 {
        rp
    } else {
        up
    };
    if r.len() == 0 && u.len() == 0 {
        ""@
    } else {
        "<p class=\"plugin-dates\">"@ + html_escaped(joined) + "</p>"@
    }
}

#[verifier::rlimit(60)]
#[verifier::spinoff_prover]
pub fn dates_line(released_on: &str, updated_on: &str) -> (r: String)
    ensures
        r@ == dates_line_spec(released_on@, updated_on@),
{
    proof {
        reveal_strlit("");
    }
    let r = trim_str(released_on);
    let u = trim_str(updated_on);
    if r.as_str().is_empty() && u.as_str().is_empty() {
        return String::new();
    }
    let mut joined = String::new();
    if !r.as_str().is_empty() {
        joined.append("Released: ");
        let d = format_iso_date_eu(r.as_str());
        joined.append(d.as_str());
    }
    if !u.as_str().is_empty() {
        if !r.as_str().is_empty() {
            joined.append(" · ");
        }
        joined.append("Updated: ");
        let d = format_iso_date_eu(u.as_str());
        joined.append(d.as_str());
    }
    let mut out = "<p class=\"plugin-dates\">".to_owned();
    push_escaped(&mut out, joined.as_str());
    out.append("</p>");
    proof {
        let rp = "Released: "@ + iso_date_eu(r@);
        let up = "Updated: "@ + iso_date_eu(u@);
        if r@.len() > 0 && u@.len() > 0 {
            assert(joined@ =~= rp + " · "@ + up);
        } else if r@.len() > 0 {
            assert(joined@ =~= rp);
        } else {
            assert(joined@ =~= up);
        }
    }
    out
}

/// String order (by character code, which is the order of the UTF-8 bytes).
pub open spec fn lex_le(a: Seq<char>, b: Seq<char>) -> bool
    decreases a.len(),
{
    if a.len() == 0 {
        true
    } else if b.len() == 0 {
        false
    } else if a[0] != b[0] {
        (a[0] as u32) < (b[0] as u32)
    } else {
        lex_le(a.drop_first(), b.drop_first())
    }
}

pub fn lex_le_vec(a: &Vec<char>, b: &Vec<char>) -> (r: bool)
    ensures
        r == lex_le(a@, b@),
{
    let mut i: usize = 0;
    assert(a@.skip(0) =~= a@);
    assert(b@.skip(0) =~= b@);
    while i < a.len() && i < b.len() && a[i] == b[i]
        invariant
            i <= a.len(),
            i <= b.len(),
            lex_le(a@, b@) == lex_le(a@.skip(i as int), b@.skip(i as int)),
        decreases a.len() - i,
    {
        proof {
            assert(a@.skip(i as int).drop_first() =~= a@.skip(i + 1));
            assert(b@.skip(i as int).drop_first() =~= b@.skip(i + 1));
        }
        i += 1;
    }
    proof {
        if i < a.len() {
            assert(a@.skip(i as int)[0] == a@[i as int]);
        }
        if i < b.len() {
            assert(b@.skip(i as int)[0] == b@[i as int]);
        }
    }
    if i == a.len() {
        true
    } else if i == b.len() {
        false
    } else {
        (a[i] as u32) < (b[i] as u32)
    }
}

/// Stable insertion of `x` by lower-cased key: after every element whose key is not greater.
pub open spec fn insert_by_key(sorted: Seq<Seq<char>>, x: Seq<char>) -> Seq<Seq<char>>
    decreases sorted.len(),
{
    if sorted.len() == 0 {
        seq![x]
    } else if lex_le(to_lower(sorted.last()), to_lower(x)) {
        sorted.push(x)
    } else {
        insert_by_key(sorted.drop_last(), x).push(sorted.last())
    }
}

/// `sort_by_key(|c| c.to_ascii_lowercase())`: the stable sort by lower-cased key.
pub open spec fn sort_by_lower(s: Seq<Seq<char>>) -> Seq<Seq<char>>
    decreases s.len(),
{
    if s.len() == 0 {
        Seq::empty()
    } else {
        insert_by_key(sort_by_lower(s.drop_last()), s.last())
    }
}

/// `dedup_by(eq_ignore_ascii_case)`: of each run of equal (ignoring case) neighbours, the
/// first stays.
pub open spec fn dedup_ignore_case(s: Seq<Seq<char>>) -> Seq<Seq<char>>
    decreases s.len(),
{
    if s.len() == 0 {
        Seq::empty()
    } else {
        let d = dedup_ignore_case(s.drop_last());
        if d.len() > 0 && eq_ignore_case(d.last(), s.last()) {
            d
        } else {
            d.push(s.last())
        }
    }
}

proof fn lemma_insert_split(sorted: Seq<Seq<char>>, x: Seq<char>, p: int)
    requires
        0 <= p <= sorted.len(),
        forall|j: int| p <= j < sorted.len() ==> !lex_le(to_lower(#[trigger] sorted[j]), to_lower(x)),
    ensures
        insert_by_key(sorted, x) == insert_by_key(sorted.take(p), x) + sorted.skip(p),
    decreases sorted.len() - p,
{
    if p < sorted.len() {
        lemma_insert_split(sorted.drop_last(), x, p);
        assert(sorted.drop_last().take(p) =~= sorted.take(p));
        assert(sorted.skip(p) =~= sorted.drop_last().skip(p).push(sorted.last()));
        assert(insert_by_key(sorted, x) == insert_by_key(sorted.drop_last(), x).push(sorted.last()));
    } else {
        assert(sorted.take(p) =~= sorted);
        assert(sorted.skip(p) =~= Seq::<Seq<char>>::empty());
    }
}

/// The categories of the catalog for the pills: sorted by lower-cased name, one per name
/// whatever its case (the first of the sorted run).
pub open spec fn pill_categories_spec(cats: Seq<Seq<char>>) -> Seq<Seq<char>> {
    dedup_ignore_case(sort_by_lower(cats))
}

pub open spec fn string_seq(v: Seq<String>) -> Seq<Seq<char>> {
    v.map_values(|s: String| s@)
}

pub open spec fn entry_categories(entries: Seq<CatalogEntry>) -> Seq<Seq<char>> {
    entries.map_values(|e: CatalogEntry| e.category@)
}

/// The sorted, case-deduplicated categories of some names.
pub fn pill_categories(cats: &Vec<String>) -> (r: Vec<String>)
    ensures
        string_seq(r@) == pill_categories_spec(string_seq(cats@)),
{
    let mut sorted: Vec<String> = Vec::new();
    let mut keys: Vec<Vec<char>> = Vec::new();
    let mut i: usize = 0;
    while i < cats.len()
        invariant
            i <= cats.len(),
            sorted.len() == keys.len(),
            string_seq(sorted@) == sort_by_lower(string_seq(cats@).take(i as int)),
            forall|j: int| 0 <= j < keys.len() ==> #[trigger] keys@[j]@ == to_lower(sorted@[j]@),
        decreases cats.len() - i,
    {
        let x = cats[i].clone();
        let kx = crate::text::lower_vec(&chars_of(x.as_str()));
        let mut p: usize = sorted.len();
        while p > 0 && !lex_le_vec(&keys[p - 1], &kx)
            invariant
                p <= sorted.len(),
                sorted.len() == keys.len(),
                kx@ == to_lower(x@),
                forall|j: int| 0 <= j < keys.len() ==> #[trigger] keys@[j]@ == to_lower(sorted@[j]@),
                forall|j: int| p <= j < sorted.len() ==> !lex_le(to_lower(#[trigger] string_seq(sorted@)[j]), to_lower(x@)),
            decreases p,
        {
            p -= 1;
        }
        proof {
            let ss = string_seq(sorted@);
            lemma_insert_split(ss, x@, p as int);
            if p > 0 {
                assert(lex_le(to_lower(ss[p - 1]), to_lower(x@)));
                assert(ss.take(p as int).last() == ss[p - 1]);
                assert(ss.take(p as int) =~= ss.take(p as int).drop_last().push(ss[p - 1]));
                assert(insert_by_key(ss.take(p as int), x@) == ss.take(p as int).push(x@));
            } else {
                assert(ss.take(0) =~= Seq::<Seq<char>>::empty());
            }
            assert(string_seq(cats@).take(i + 1).drop_last() =~= string_seq(cats@).take(i as int));
            assert(string_seq(cats@).take(i + 1).last() == x@);
        }
        let ghost before = sorted@;
        let ghost kbefore = keys@;
        sorted.insert(p, x);
        keys.insert(p, kx);
        proof {
            assert(string_seq(sorted@) =~= string_seq(before).take(p as int).push(x@) + string_seq(before).skip(p as int));
            assert forall|j: int| 0 <= j < keys.len() implies #[trigger] keys@[j]@ == to_lower(sorted@[j]@) by {
                if j < p {
                    assert(keys@[j] == kbefore[j]);
                    assert(sorted@[j] == before[j]);
                } else if j > p {
                    assert(keys@[j] == kbefore[j - 1]);
                    assert(sorted@[j] == before[j - 1]);
                }
            }
        }
        i += 1;
    }
    assert(string_seq(cats@).take(cats.len() as int) =~= string_seq(cats@));
    let mut out: Vec<String> = Vec::new();
    let mut k: usize = 0;
    while k < sorted.len()
        invariant
            k <= sorted.len(),
            string_seq(out@) == dedup_ignore_case(string_seq(sorted@).take(k as int)),
            string_seq(sorted@) == sort_by_lower(string_seq(cats@)),
        decreases sorted.len() - k,
    {
        let s = &sorted[k];
        proof {
            assert(string_seq(sorted@).take(k + 1).drop_last() =~= string_seq(sorted@).take(k as int));
            assert(string_seq(sorted@).take(k + 1).last() == sorted@[k as int]@);
        }
        let dup = out.len() > 0 && eq_ignore_case_str(out[out.len() - 1].as_str(), s.as_str());
        if !dup {
            let ghost before = out@;
            out.push(s.clone());
            assert(string_seq(out@) =~= string_seq(before).push(sorted@[k as int]@));
        }
        k += 1;
    }
    assert(string_seq(sorted@).take(sorted.len() as int) =~= string_seq(sorted@));
    out
}

/// `active` when the pill's category is the active one (ignoring case), else empty.
pub open spec fn pill_class(active: Seq<char>, cat: Seq<char>) -> Seq<char> {
    if eq_ignore_case(cat, active) {
        "active"@
    } else {
        ""@
    }
}

pub open spec fn pill_spec(cls: Seq<char>, cat: Seq<char>, domain_q: Seq<char>) -> Seq<char> {
    "<a class=\""@ + cls + "\" href=\"/plugins?view=store&amp;category="@ + url_encode_spec(cat) + domain_q
        + "\">"@ + html_escaped(cat) + "</a>"@
}

pub open spec fn pills_spec(cats: Seq<Seq<char>>, active: Seq<char>, domain_q: Seq<char>) -> Seq<char>
    decreases cats.len(),
{
    if cats.len() == 0 {
        ""@
    } else {
        pills_spec(cats.drop_last(), active, domain_q) + pill_spec(pill_class(active, cats.last()), cats.last(), domain_q)
    }
}

/// The Store category pills: All categories, Featured, Host, Paid, then one per category
/// (see `pill_categories_spec`); the active one marked, and each link keeping the domain,
/// list mode and page size.
pub open spec fn category_pills_spec(
    cats: Seq<Seq<char>>,
    active: Seq<char>,
    domain: Seq<char>,
    mode: Seq<char>,
    per_page: usize,
) -> Seq<char> {
    let domain_q = "&amp;domain="@ + url_encode_spec(domain) + "&amp;mode="@ + url_encode_spec(mode)
        + "&amp;per_page="@ + dec(per_page as nat);
    let all_cls = if active.len() == 0 || eq_ignore_case(active, "all"@) { "active"@ } else { ""@ };
    let feat_cls = if eq_ignore_case(active, "featured"@) { "active"@ } else { ""@ };
    let host_cls = if eq_ignore_case(active, "host"@) { "active"@ } else { ""@ };
    let paid_cls = if eq_ignore_case(active, "paid"@) { "active"@ } else { ""@ };
    "<div class=\"category-pills\">"@ + fixed_pill(all_cls, ""@, domain_q, "All categories"@)
        + fixed_pill(feat_cls, "&amp;category=Featured"@, domain_q, "Featured"@)
        + fixed_pill(host_cls, "&amp;category=Host"@, domain_q, "Host"@)
        + fixed_pill(paid_cls, "&amp;category=Paid"@, domain_q, "Paid"@)
        + pills_spec(pill_categories_spec(cats), active, domain_q) + "</div>"@
}

/// One of the fixed pills (All, Featured, Host, Paid).
pub open spec fn fixed_pill(cls: Seq<char>, href_tail: Seq<char>, domain_q: Seq<char>, label: Seq<char>) -> Seq<char> {
    "<a class=\""@ + cls + "\" href=\"/plugins?view=store"@ + href_tail + domain_q + "\">"@ + label + "</a>"@
}

#[verifier::rlimit(60)]
#[verifier::spinoff_prover]
pub(crate) fn push_pill(out: &mut String, cls: &str, href_tail: &str, domain_q: &str, label: &str)
    ensures
        final(out)@ == old(out)@ + fixed_pill(cls@, href_tail@, domain_q@, label@),
{
    let ghost start = out@;
    out.append("<a class=\"");
    out.append(cls);
    out.append("\" href=\"/plugins?view=store");
    out.append(href_tail);
    out.append(domain_q);
    out.append("\">");
    out.append(label);
    out.append("</a>");
    assert(out@ =~= start + "<a class=\""@ + cls@ + "\" href=\"/plugins?view=store"@ + href_tail@ + domain_q@
        + "\">"@ + label@ + "</a>"@);
}

/// Appends one pill per category, marking the active one.
pub(crate) fn push_category_pills(out: &mut String, cats: &Vec<String>, active: &str, dq: &str)
    ensures
        final(out)@ == old(out)@ + pills_spec(string_seq(cats@), active@, dq@),
{
    proof {
        reveal_strlit("");
    }
    let ghost head = out@;
    let mut k: usize = 0;
    assert(string_seq(cats@).take(0) =~= Seq::<Seq<char>>::empty());
    assert(out@ =~= head + pills_spec(string_seq(cats@).take(0), active@, dq@));
    while k < cats.len()
        invariant
            k <= cats.len(),
            out@ == head + pills_spec(string_seq(cats@).take(k as int), active@, dq@),
        decreases cats.len() - k,
    {
        let c = cats[k].as_str();
        let cls = if eq_ignore_case_str(c, active) { "active" } else { "" };
        let ghost before = out@;
        out.append("<a class=\"");
        out.append(cls);
        out.append("\" href=\"/plugins?view=store&amp;category=");
        push_url_encoded(out, c);
        out.append(dq);
        out.append("\">");
        push_escaped(out, c);
        out.append("</a>");
        proof {
            assert(string_seq(cats@).take(k + 1).drop_last() =~= string_seq(cats@).take(k as int));
            assert(string_seq(cats@).take(k + 1).last() == c@);
            assert(out@ =~= before + pill_spec(pill_class(active@, c@), c@, dq@));
        }
        k += 1;
    }
    assert(string_seq(cats@).take(cats.len() as int) =~= string_seq(cats@));
}

/// The category pills of the Store (legacy list; the hub shows the unified pills).
#[verifier::rlimit(60)]
#[verifier::spinoff_prover]
pub fn category_pills(entries: &Vec<CatalogEntry>, active: &str, domain: &str, mode: &str, per_page: usize) -> (r:
    String)
    ensures
        r@ == category_pills_spec(entry_categories(entries@), active@, domain@, mode@, per_page),
{
    let mut names: Vec<String> = Vec::new();
    let mut i: usize = 0;
    while i < entries.len()
        invariant
            i <= entries.len(),
            string_seq(names@) == entry_categories(entries@.take(i as int)),
        decreases entries.len() - i,
    {
        let ghost before = names@;
        names.push(entries[i].category.clone());
        proof {
            assert(string_seq(names@) =~= string_seq(before).push(entries@[i as int].category@));
            assert(entry_categories(entries@.take(i + 1)) =~= entry_categories(entries@.take(i as int)).push(
                entries@[i as int].category@,
            ));
        }
        i += 1;
    }
    assert(entries@.take(entries.len() as int) =~= entries@);
    let cats = pill_categories(&names);
    let mut domain_q = "&amp;domain=".to_owned();
    push_url_encoded(&mut domain_q, domain);
    domain_q.append("&amp;mode=");
    push_url_encoded(&mut domain_q, mode);
    domain_q.append("&amp;per_page=");
    push_dec(&mut domain_q, per_page as u64);
    let dq = domain_q.as_str();
    proof {
        reveal_strlit("");
        reveal_strlit("all");
        reveal_strlit("featured");
        reveal_strlit("host");
        reveal_strlit("paid");
    }
    let all_cls = if active.is_empty() || eq_ignore_case_str(active, "all") { "active" } else { "" };
    let feat_cls = if eq_ignore_case_str(active, "featured") { "active" } else { "" };
    let host_cls = if eq_ignore_case_str(active, "host") { "active" } else { "" };
    let paid_cls = if eq_ignore_case_str(active, "paid") { "active" } else { "" };
    let mut out = "<div class=\"category-pills\">".to_owned();
    push_pill(&mut out, all_cls, "", dq, "All categories");
    push_pill(&mut out, feat_cls, "&amp;category=Featured", dq, "Featured");
    push_pill(&mut out, host_cls, "&amp;category=Host", dq, "Host");
    push_pill(&mut out, paid_cls, "&amp;category=Paid", dq, "Paid");
    let ghost head = out@;
    push_category_pills(&mut out, &cats, active, dq);
    out.append("</div>");
    proof {
        reveal_strlit("&amp;domain=");
        reveal_strlit("&amp;mode=");
        reveal_strlit("&amp;per_page=");
        assert(domain_q@ =~= "&amp;domain="@ + url_encode_spec(domain@) + "&amp;mode="@ + url_encode_spec(mode@)
            + "&amp;per_page="@ + dec(per_page as nat));
        assert(string_seq(names@) == entry_categories(entries@));
        assert(string_seq(cats@) == pill_categories_spec(entry_categories(entries@)));
        assert(out@ == head + pills_spec(pill_categories_spec(entry_categories(entries@)), active@, dq@) + "</div>"@);
        assert(out@ =~= category_pills_spec(entry_categories(entries@), active@, domain@, mode@, per_page));
    }
    out
}

/// The action area of a Store card. Roundcube points at its host package; a host-scoped
/// plugin offers, by its host state, the site and the admin role: uninstall from the host,
/// deactivate, activate, install on the host, or a note; a site plugin offers install, or a
/// note when installed or no site is chosen.
pub open spec fn store_action_spec(
    entry: CatalogEntry,
    domain: Seq<char>,
    installed: bool,
    host_scoped: bool,
    on_host: bool,
    activated: bool,
    admin: bool,
) -> Seq<char> {
    let domain_q = if domain.len() == 0 { ""@ } else { "&amp;domain="@ + url_encode_spec(domain) };
    let domain_field = if domain.len() == 0 { ""@ } else { "<input type=\"hidden\" name=\"domain\" value=\""@ + domain + "\">"@ };
    let note = if domain.len() == 0 { ""@ } else { " (then activate for this site)"@ };
    if eq_ignore_case(entry.id@, "roundcubeWebmail"@) || eq_ignore_case(entry.id@, "roundcube"@) {
        "<span class=\"muted\">Host package</span>\n            <a class=\"btn-primary\" href=\"/plugins?view=store&amp;category=Host"@ + domain_q + "&amp;q=roundcube\">Show Roundcube</a>"@
    } else if host_scoped {
        if on_host {
            if domain.len() == 0 {
                if admin {
                    "<span class=\"plugin-badge installed\">Installed on Host</span>\n            <form method=\"post\" action=\"/plugins/uninstall-host\" class=\"inline-form\" onsubmit=\"return confirm('Uninstall host plugin "@ + html_escaped(entry.name@) + "? This removes it for all sites.');\">\n              <input type=\"hidden\" name=\"id\" value=\""@ + html_escaped(entry.id@) + "\">\n              <button type=\"submit\" class=\"btn-danger\">Uninstall from Host</button>\n            </form>"@
                } else {
                    "<span class=\"plugin-badge installed\">Installed on Host</span>"@
                }
            } else if activated || installed {
                "<span class=\"plugin-badge installed\">Activated</span>\n            <form method=\"post\" action=\"/plugins/deactivate-host\" class=\"inline-form\">\n              <input type=\"hidden\" name=\"id\" value=\""@ + html_escaped(entry.id@) + "\">\n              <input type=\"hidden\" name=\"domain\" value=\""@ + html_escaped(domain) + "\">\n              <button type=\"submit\" class=\"btn-warn\">Deactivate</button>\n            </form>"@
            } else {
                "<form method=\"post\" action=\"/plugins/activate-host\" class=\"inline-form\">\n            <input type=\"hidden\" name=\"id\" value=\""@ + html_escaped(entry.id@) + "\">\n            <input type=\"hidden\" name=\"domain\" value=\""@ + html_escaped(domain) + "\">\n            <button type=\"submit\" class=\"btn-primary\">Activate</button>\n          </form>"@
            }
        } else if admin {
            "<form method=\"post\" action=\"/plugins/install-host\" class=\"inline-form\">\n            <input type=\"hidden\" name=\"id\" value=\""@ + html_escaped(entry.id@) + "\">\n            "@ + domain_field + "\n            <button type=\"submit\" class=\"btn-primary\">Install on Host"@ + note + "</button>\n          </form>"@
        } else {
            "<span class=\"muted\">Ask the panel admin to Install on Host first</span>"@
        }
    } else if installed {
        "<span class=\"plugin-badge installed\">Installed</span>"@
    } else if domain.len() == 0 {
        "<span class=\"muted\">Select a domain to install</span>"@
    } else {
        "<form method=\"post\" action=\"/plugins/install\" class=\"inline-form\">\n            <input type=\"hidden\" name=\"id\" value=\""@ + html_escaped(entry.id@) + "\">\n            <input type=\"hidden\" name=\"domain\" value=\""@ + html_escaped(domain) + "\">\n            <button type=\"submit\" class=\"btn-primary\">Install</button>\n          </form>"@
    }
}

#[verifier::rlimit(60)]
#[verifier::spinoff_prover]
pub fn store_action_html(
    entry: &CatalogEntry,
    domain: &str,
    installed: bool,
    host_scoped: bool,
    on_host: bool,
    activated: bool,
    admin: bool,
) -> (r: String)
    ensures
        r@ == store_action_spec(*entry, domain@, installed, host_scoped, on_host, activated, admin),
{
    proof {
        reveal_strlit("");
        reveal_strlit("roundcubeWebmail");
        reveal_strlit("roundcube");
    }
    let mut domain_q_s = String::new();
    if !domain.is_empty() {
        domain_q_s.append("&amp;domain=");
        push_url_encoded(&mut domain_q_s, domain);
    }
    let domain_q = domain_q_s.as_str();
    let domain_field_s: String = if domain.is_empty() {
        String::new()
    } else {
        let mut df = "<input type=\"hidden\" name=\"domain\" value=\"".to_owned();
        df.append(domain);
        df.append("\">");
        df
    };
    let domain_field = domain_field_s.as_str();
    let note = if domain.is_empty() { "" } else { " (then activate for this site)" };
    if eq_ignore_case_str(entry.id.as_str(), "roundcubeWebmail") || eq_ignore_case_str(entry.id.as_str(), "roundcube") {
        let mut out = "<span class=\"muted\">Host package</span>\n            <a class=\"btn-primary\" href=\"/plugins?view=store&amp;category=Host".to_owned();
        out.append(domain_q);
        out.append("&amp;q=roundcube\">Show Roundcube</a>");
        proof { assert(out@ =~= store_action_spec(*entry, domain@, installed, host_scoped, on_host, activated, admin)); }
        return out;
    }
    if host_scoped {
        if on_host {
            if domain.is_empty() {
                if admin {
        let mut out = "<span class=\"plugin-badge installed\">Installed on Host</span>\n            <form method=\"post\" action=\"/plugins/uninstall-host\" class=\"inline-form\" onsubmit=\"return confirm('Uninstall host plugin ".to_owned();
        push_escaped(&mut out, entry.name.as_str());
        out.append("? This removes it for all sites.');\">\n              <input type=\"hidden\" name=\"id\" value=\"");
        push_escaped(&mut out, entry.id.as_str());
        out.append("\">\n              <button type=\"submit\" class=\"btn-danger\">Uninstall from Host</button>\n            </form>");
        proof { assert(out@ =~= store_action_spec(*entry, domain@, installed, host_scoped, on_host, activated, admin)); }
        return out;
                }
        let mut out = "<span class=\"plugin-badge installed\">Installed on Host</span>".to_owned();
        proof { assert(out@ =~= store_action_spec(*entry, domain@, installed, host_scoped, on_host, activated, admin)); }
        return out;
            }
            if activated || installed {
        let mut out = "<span class=\"plugin-badge installed\">Activated</span>\n            <form method=\"post\" action=\"/plugins/deactivate-host\" class=\"inline-form\">\n              <input type=\"hidden\" name=\"id\" value=\"".to_owned();
        push_escaped(&mut out, entry.id.as_str());
        out.append("\">\n              <input type=\"hidden\" name=\"domain\" value=\"");
        push_escaped(&mut out, domain);
        out.append("\">\n              <button type=\"submit\" class=\"btn-warn\">Deactivate</button>\n            </form>");
        proof { assert(out@ =~= store_action_spec(*entry, domain@, installed, host_scoped, on_host, activated, admin)); }
        return out;
            }
        let mut out = "<form method=\"post\" action=\"/plugins/activate-host\" class=\"inline-form\">\n            <input type=\"hidden\" name=\"id\" value=\"".to_owned();
        push_escaped(&mut out, entry.id.as_str());
        out.append("\">\n            <input type=\"hidden\" name=\"domain\" value=\"");
        push_escaped(&mut out, domain);
        out.append("\">\n            <button type=\"submit\" class=\"btn-primary\">Activate</button>\n          </form>");
        proof { assert(out@ =~= store_action_spec(*entry, domain@, installed, host_scoped, on_host, activated, admin)); }
        return out;
        }
        if admin {
        let mut out = "<form method=\"post\" action=\"/plugins/install-host\" class=\"inline-form\">\n            <input type=\"hidden\" name=\"id\" value=\"".to_owned();
        push_escaped(&mut out, entry.id.as_str());
        out.append("\">\n            ");
        out.append(domain_field);
        out.append("\n            <button type=\"submit\" class=\"btn-primary\">Install on Host");
        out.append(note);
        out.append("</button>\n          </form>");
        proof { assert(out@ =~= store_action_spec(*entry, domain@, installed, host_scoped, on_host, activated, admin)); }
        return out;
        }
        let mut out = "<span class=\"muted\">Ask the panel admin to Install on Host first</span>".to_owned();
        proof { assert(out@ =~= store_action_spec(*entry, domain@, installed, host_scoped, on_host, activated, admin)); }
        return out;
    }
    if installed {
        let mut out = "<span class=\"plugin-badge installed\">Installed</span>".to_owned();
        proof { assert(out@ =~= store_action_spec(*entry, domain@, installed, host_scoped, on_host, activated, admin)); }
        return out;
    }
    if domain.is_empty() {
        let mut out = "<span class=\"muted\">Select a domain to install</span>".to_owned();
        proof { assert(out@ =~= store_action_spec(*entry, domain@, installed, host_scoped, on_host, activated, admin)); }
        return out;
    }
        let mut out = "<form method=\"post\" action=\"/plugins/install\" class=\"inline-form\">\n            <input type=\"hidden\" name=\"id\" value=\"".to_owned();
        push_escaped(&mut out, entry.id.as_str());
        out.append("\">\n            <input type=\"hidden\" name=\"domain\" value=\"");
        push_escaped(&mut out, domain);
        out.append("\">\n            <button type=\"submit\" class=\"btn-primary\">Install</button>\n          </form>");
        proof { assert(out@ =~= store_action_spec(*entry, domain@, installed, host_scoped, on_host, activated, admin)); }
        return out;
}

/// One Store card: name, Host/Site, category, version, price and Featured badges,
/// description, author, dates line and the action area (see `store_action_spec`).
pub open spec fn catalog_card_spec(
    entry: CatalogEntry,
    domain: Seq<char>,
    installed: bool,
    host_scoped: bool,
    on_host: bool,
    activated: bool,
    admin: bool,
) -> Seq<char> {
    let featured = if entry.featured { "<span class=\"plugin-badge featured\">Featured</span>"@ } else { ""@ };
    let host_badge = if host_scoped { "<span class=\"plugin-badge\">Host</span>"@ } else { "<span class=\"plugin-badge cat\">Site</span>"@ };
    let pricing = if pricing_paid(entry.pricing@) {
        "<span class=\"plugin-badge paid\">Paid</span>"@
    } else {
        "<span class=\"plugin-badge free\">Free</span>"@
    };
    let dates = dates_line_spec(entry.released_on@, entry.updated_on@);
    let action = store_action_spec(entry, domain, installed, host_scoped, on_host, activated, admin);
    "<article class=\"plugin-card\">\n          <h3>"@ + html_escaped(entry.name@) + "</h3>\n          <div class=\"plugin-badges\">\n            "@ + host_badge + "\n            <span class=\"plugin-badge cat\">"@ + html_escaped(entry.category@) + "</span>\n            <span class=\"plugin-badge\">v"@ + html_escaped(entry.version@) + "</span>\n            "@ + pricing + "\n            "@ + featured + "\n          </div>\n          <p class=\"plugin-desc\">"@ + html_escaped(entry.description@) + "</p>\n          <p class=\"plugin-meta\">Author: "@ + html_escaped(entry.author@) + "</p>\n          "@ + dates + "\n          <div class=\"plugin-actions\">"@ + action + "</div>\n        </article>"@
}

#[verifier::rlimit(60)]
#[verifier::spinoff_prover]
fn catalog_card_html(
    entry: &CatalogEntry,
    domain: &str,
    installed: bool,
    host_scoped: bool,
    on_host: bool,
    activated: bool,
    admin: bool,
) -> (r: String)
    ensures
        r@ == catalog_card_spec(*entry, domain@, installed, host_scoped, on_host, activated, admin),
{
    let featured = if entry.featured { "<span class=\"plugin-badge featured\">Featured</span>" } else { "" };
    let host_badge = if host_scoped { "<span class=\"plugin-badge\">Host</span>" } else { "<span class=\"plugin-badge cat\">Site</span>" };
    let pricing = badge_pricing(entry.pricing.as_str());
    let dates = dates_line(entry.released_on.as_str(), entry.updated_on.as_str());
    let action = store_action_html(entry, domain, installed, host_scoped, on_host, activated, admin);
    let mut out = "<article class=\"plugin-card\">\n          <h3>".to_owned();
    push_escaped(&mut out, entry.name.as_str());
    out.append("</h3>\n          <div class=\"plugin-badges\">\n            ");
    out.append(host_badge);
    out.append("\n            <span class=\"plugin-badge cat\">");
    push_escaped(&mut out, entry.category.as_str());
    out.append("</span>\n            <span class=\"plugin-badge\">v");
    push_escaped(&mut out, entry.version.as_str());
    out.append("</span>\n            ");
    out.append(pricing);
    out.append("\n            ");
    out.append(featured);
    out.append("\n          </div>\n          <p class=\"plugin-desc\">");
    push_escaped(&mut out, entry.description.as_str());
    out.append("</p>\n          <p class=\"plugin-meta\">Author: ");
    push_escaped(&mut out, entry.author.as_str());
    out.append("</p>\n          ");
    out.append(dates.as_str());
    out.append("\n          <div class=\"plugin-actions\">");
    out.append(action.as_str());
    out.append("</div>\n        </article>");
    proof {
        assert(out@ =~= catalog_card_spec(*entry, domain@, installed, host_scoped, on_host, activated, admin));
    }
    out
}


/// A Store card for an entry, with the facts it depends on: whether this site installed it
/// (`installed_ids`), the recorded activations, whether the host has it installed, and
/// whether the viewer is a panel admin.
pub fn render_catalog_card(
    entry: &CatalogEntry,
    installed_ids: &Vec<String>,
    activations: &Vec<PluginActivation>,
    domain: &str,
    host_installed: bool,
    admin: bool,
) -> (r: String)
    ensures
        ({
            let installed = string_views(installed_ids@).contains(entry.id@);
            let host_scoped = entry.host_scoped || host_scoped_spec(entry.id@);
            let on_host = host_scoped && host_installed;
            let activated = domain@.len() > 0 && activated_spec(activations@, domain@, entry.id@);
            r@ == catalog_card_spec(*entry, domain@, installed, host_scoped, on_host, activated, admin)
        }),
{
    let installed = crate::text::contains_string(installed_ids, entry.id.as_str());
    let host_scoped = catalog_entry_is_host_scoped(entry);
    let on_host = host_scoped && host_installed;
    let activated = !domain.is_empty() && is_activated(activations, domain, entry.id.as_str());
    catalog_card_html(entry, domain, installed, host_scoped, on_host, activated, admin)
}

} // verus!
