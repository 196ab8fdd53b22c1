//! The single Store that lists host packages and community plugins together: which rows it
//! shows, in what order, and its category pills. The host packages matching the search (and
//! their categories) are handed in by the caller.

use vstd::prelude::*;
use vstd::string::*;
use crate::panel_plugins_store::{
    entry_matches, lex_le, lex_le_vec, store_match, entry_categories, fixed_pill, pill_categories, pill_categories_spec, pills_spec, push_category_pills,
    push_pill, string_seq,
};
use crate::plugins::CatalogEntry;
use crate::plugin_activation::{catalog_entry_is_host_scoped, host_scoped_spec};
use crate::text::{chars_of, dec, eq_ignore_case, eq_ignore_case_str, lower_str, lower_vec, push_dec, str_eq, to_lower, trim, trim_str};
use crate::url_form::{push_url_encoded, url_encode_spec};

verus! {

/// A row of the unified Store: a host package, by its index among the host packages the
/// caller matched, or a catalog entry, by its index in the catalog.
#[derive(Clone, Copy, Debug, PartialEq, Eq, Structural)]
pub enum UnifiedItem {
    Host(usize),
    Catalog(usize),
}

/// The category pill, trimmed and lower-cased.
pub open spec fn unified_cat(category: Seq<char>) -> Seq<char> {
    to_lower(trim(category))
}

/// Host packages are listed for no category, the All, Host, Featured, Paid and Free pills,
/// and any host package category (ignoring case).
pub open spec fn include_host_spec(category: Seq<char>, host_categories: Seq<Seq<char>>) -> bool {
    let cat = unified_cat(category);
    cat.len() == 0 || cat == "all"@ || cat == "host"@ || cat == "featured"@ || cat == "paid"@ || cat == "free"@
        || exists|i: int| 0 <= i < host_categories.len() && eq_ignore_case(#[trigger] host_categories[i], trim(category))
}

/// The category the caller filters host packages by: none for the Host pill, else the pill.
pub open spec fn host_filter_category_spec(category: Seq<char>) -> Seq<char> {
    if unified_cat(category) == "host"@ {
        ""@
    } else {
        category
    }
}

pub fn host_filter_category(category: &str) -> (r: String)
    ensures
        r@ == host_filter_category_spec(category@),
{
    let t = trim_str(category);
    let cat = lower_str(t.as_str());
    if str_eq(cat.as_str(), "host") {
        "".to_owned()
    } else {
        category.to_owned()
    }
}

/// Roundcube is the Email host package, so its catalog entries are not listed again.
pub open spec fn catalog_duplicate(e: CatalogEntry) -> bool {
    eq_ignore_case(e.id@, "roundcubeWebmail"@) || eq_ignore_case(e.id@, "roundcube"@)
}

/// A catalog entry the unified Store lists: not a duplicate, and matching the search and the
/// pill; for the Host pill, only host-scoped entries matching the search.
pub open spec fn catalog_keep(e: CatalogEntry, query: Seq<char>, category: Seq<char>) -> bool {
    let cat = unified_cat(category);
    let q = to_lower(trim(query));
    !catalog_duplicate(e) && if cat != "host"@ {
        (store_match(q, cat))(e)
    } else {
        (e.host_scoped || host_scoped_spec(e.id@)) && (store_match(q, ""@))(e)
    }
}

/// The first `n` host packages as rows, keyed by label.
pub open spec fn host_rows(labels: Seq<Seq<char>>, n: int) -> Seq<(Seq<char>, UnifiedItem)>
    decreases n,
{
    if n <= 0 {
        Seq::empty()
    } else {
        host_rows(labels, n - 1).push((labels[n - 1], UnifiedItem::Host((n - 1) as usize)))
    }
}

/// The rows the first `n` catalog entries give, keyed by name.
pub open spec fn catalog_rows(entries: Seq<CatalogEntry>, query: Seq<char>, category: Seq<char>, n: int) -> Seq<
    (Seq<char>, UnifiedItem),
>
    decreases n,
{
    if n <= 0 {
        Seq::empty()
    } else if catalog_keep(entries[n - 1], query, category) {
        catalog_rows(entries, query, category, n - 1).push((entries[n - 1].name@, UnifiedItem::Catalog((n - 1) as usize)))
    } else {
        catalog_rows(entries, query, category, n - 1)
    }
}

/// Stable insertion of a row by its lower-cased key: after every row whose key is not greater.
pub open spec fn insert_row(sorted: Seq<(Seq<char>, UnifiedItem)>, x: (Seq<char>, UnifiedItem)) -> Seq<
    (Seq<char>, UnifiedItem),
>
    decreases sorted.len(),
{
    if sorted.len() == 0 {
        seq![x]
    } else if lex_le(to_lower(sorted.last().0), to_lower(x.0)) {
        sorted.push(x)
    } else {
        insert_row(sorted.drop_last(), x).push(sorted.last())
    }
}

/// The stable sort of rows by lower-cased key.
pub open spec fn sort_rows(s: Seq<(Seq<char>, UnifiedItem)>) -> Seq<(Seq<char>, UnifiedItem)>
    decreases s.len(),
{
    if s.len() == 0 {
        Seq::empty()
    } else {
        insert_row(sort_rows(s.drop_last()), s.last())
    }
}

/// The unified Store's rows: the matched host packages (when the pill lists them), then the
/// catalog entries kept, all sorted by lower-cased label or name (stably).
pub open spec fn collect_unified_spec(
    host_categories: Seq<Seq<char>>,
    host_labels: Seq<Seq<char>>,
    entries: Seq<CatalogEntry>,
    query: Seq<char>,
    category: Seq<char>,
) -> Seq<UnifiedItem> {
    let hosts = if include_host_spec(category, host_categories) {
        host_rows(host_labels, host_labels.len() as int)
    } else {
        Seq::empty()
    };
    sort_rows(hosts + catalog_rows(entries, query, category, entries.len() as int)).map_values(
        |p: (Seq<char>, UnifiedItem)| p.1,
    )
}

pub open spec fn row_views(v: Seq<(String, UnifiedItem)>) -> Seq<(Seq<char>, UnifiedItem)> {
    v.map_values(|p: (String, UnifiedItem)| (p.0@, p.1))
}

proof fn lemma_insert_row_split(sorted: Seq<(Seq<char>, UnifiedItem)>, x: (Seq<char>, UnifiedItem), p: int)
    requires
        0 <= p <= sorted.len(),
        forall|j: int| p <= j < sorted.len() ==> !lex_le(to_lower(#[trigger] sorted[j].0), to_lower(x.0)),
    ensures
        insert_row(sorted, x) == insert_row(sorted.take(p), x) + sorted.skip(p),
    decreases sorted.len() - p,
{
    if p < sorted.len() {
        lemma_insert_row_split(sorted.drop_last(), x, p);
        assert(sorted.drop_last().take(p) =~= sorted.take(p));
        assert(sorted.skip(p) =~= sorted.drop_last().skip(p).push(sorted.last()));
        assert(insert_row(sorted, x) == insert_row(sorted.drop_last(), x).push(sorted.last()));
    } else {
        assert(sorted.take(p) =~= sorted);
        assert(sorted.skip(p) =~= Seq::<(Seq<char>, UnifiedItem)>::empty());
    }
}

fn sort_rows_exec(rows: Vec<(String, UnifiedItem)>) -> (r: Vec<(String, UnifiedItem)>)
    ensures
        row_views(r@) == sort_rows(row_views(rows@)),
{
    let mut sorted: Vec<(String, UnifiedItem)> = Vec::new();
    let mut keys: Vec<Vec<char>> = Vec::new();
    let mut i: usize = 0;
    assert(row_views(rows@).take(0) =~= Seq::<(Seq<char>, UnifiedItem)>::empty());
    assert(row_views(sorted@) =~= Seq::<(Seq<char>, UnifiedItem)>::empty());
    while i < rows.len()
        invariant
            i <= rows.len(),
            sorted.len() == keys.len(),
            row_views(sorted@) == sort_rows(row_views(rows@).take(i as int)),
            forall|j: int| 0 <= j < keys.len() ==> #[trigger] keys@[j]@ == to_lower(sorted@[j].0@),
        decreases rows.len() - i,
    {
        let label = rows[i].0.clone();
        let item = rows[i].1;
        let ghost x = (label@, item);
        assert(row_views(rows@)[i as int] == x);
        let kx = lower_vec(&chars_of(label.as_str()));
        let mut p: usize = sorted.len();
        while p > 0 && !lex_le_vec(&keys[p - 1], &kx)
            invariant
                p <= sorted.len(),
                sorted.len() == keys.len(),
                kx@ == to_lower(x.0),
                forall|j: int| 0 <= j < keys.len() ==> #[trigger] keys@[j]@ == to_lower(sorted@[j].0@),
                forall|j: int| p <= j < sorted.len() ==> !lex_le(to_lower(#[trigger] row_views(sorted@)[j].0), to_lower(x.0)),
            decreases p,
        {
            p -= 1;
        }
        proof {
            let ss = row_views(sorted@);
            lemma_insert_row_split(ss, x, p as int);
            if p > 0 {
                assert(lex_le(to_lower(ss[p - 1].0), to_lower(x.0)));
                assert(ss.take(p as int).last() == ss[p - 1]);
                assert(ss.take(p as int) =~= ss.take(p as int).drop_last().push(ss[p - 1]));
                assert(insert_row(ss.take(p as int), x) == ss.take(p as int).push(x));
            } else {
                assert(ss.take(0) =~= Seq::<(Seq<char>, UnifiedItem)>::empty());
            }
            assert(row_views(rows@).take(i + 1).drop_last() =~= row_views(rows@).take(i as int));
            assert(row_views(rows@).take(i + 1).last() == x);
        }
        let ghost before = sorted@;
        let ghost kbefore = keys@;
        sorted.insert(p, (label, item));
        keys.insert(p, kx);
        proof {
            assert(row_views(sorted@) =~= row_views(before).take(p as int).push(x) + row_views(before).skip(p as int));
            assert forall|j: int| 0 <= j < keys.len() implies #[trigger] keys@[j]@ == to_lower(sorted@[j].0@) by {
                if j < p {
                    assert(keys@[j] == kbefore[j]);
                    assert(sorted@[j] == before[j]);
                } else if j > p {
                    assert(keys@[j] == kbefore[j - 1]);
                    assert(sorted@[j] == before[j - 1]);
                }
            }
        }
        i += 1;
    }
    assert(row_views(rows@).take(rows.len() as int) =~= row_views(rows@));
    sorted
}

fn includes_host(category: &str, host_categories: &Vec<String>) -> (r: bool)
    ensures
        r == include_host_spec(category@, string_seq(host_categories@)),
{
    let t = trim_str(category);
    let cat = lower_str(t.as_str());
    if cat.as_str().unicode_len() == 0 || str_eq(cat.as_str(), "all") || str_eq(cat.as_str(), "host") || str_eq(
        cat.as_str(),
        "featured",
    ) || str_eq(cat.as_str(), "paid") || str_eq(cat.as_str(), "free") {
        return true;
    }
    let mut i: usize = 0;
    while i < host_categories.len()
        invariant
            i <= host_categories.len(),
            t@ == trim(category@),
            forall|j: int| 0 <= j < i ==> !eq_ignore_case(#[trigger] string_seq(host_categories@)[j], trim(category@)),
        decreases host_categories.len() - i,
    {
        if eq_ignore_case_str(host_categories[i].as_str(), t.as_str()) {
            assert(eq_ignore_case(string_seq(host_categories@)[i as int], trim(category@)));
            return true;
        }
        i += 1;
    }
    false
}

fn keep_catalog_entry(e: &CatalogEntry, q: &str, cat: &str, host_pill: bool) -> (r: bool)
    requires
        host_pill == (cat@ == "host"@),
    ensures
        r == (!catalog_duplicate(*e) && if !host_pill {
            (store_match(q@, cat@))(*e)
        } else {
            (e.host_scoped || host_scoped_spec(e.id@)) && (store_match(q@, ""@))(*e)
        }),
{
    if eq_ignore_case_str(e.id.as_str(), "roundcubeWebmail") || eq_ignore_case_str(e.id.as_str(), "roundcube") {
        return false;
    }
    if !host_pill {
        entry_matches(e, q, cat)
    } else {
        catalog_entry_is_host_scoped(e) && entry_matches(e, q, "")
    }
}

/// The unified Store's rows (see `collect_unified_spec`). `host_labels` are the labels of the
/// host packages matching the search and `host_filter_category(category)`, in order;
/// `host_categories` are all host package categories.
#[verifier::rlimit(60)]
pub fn collect_unified(
    host_categories: &Vec<String>,
    host_labels: &Vec<String>,
    entries: &Vec<CatalogEntry>,
    query: &str,
    category: &str,
) -> (r: Vec<UnifiedItem>)
    ensures
        r@ == collect_unified_spec(string_seq(host_categories@), string_seq(host_labels@), entries@, query@, category@),
{
    let with_hosts = includes_host(category, host_categories);
    let mut rows: Vec<(String, UnifiedItem)> = Vec::new();
    let ghost labels = string_seq(host_labels@);
    if with_hosts {
        let mut h: usize = 0;
        while h < host_labels.len()
            invariant
                h <= host_labels.len(),
                labels == string_seq(host_labels@),
                row_views(rows@) == host_rows(labels, h as int),
            decreases host_labels.len() - h,
        {
            let ghost before = rows@;
            rows.push((host_labels[h].clone(), UnifiedItem::Host(h)));
            assert(row_views(rows@) =~= row_views(before).push((labels[h as int], UnifiedItem::Host(h))));
            h += 1;
        }
    }
    let ghost hosts = row_views(rows@);
    assert(hosts == (if include_host_spec(category@, string_seq(host_categories@)) {
        host_rows(labels, labels.len() as int)
    } else {
        Seq::empty()
    }));
    let qt = trim_str(query);
    let q = lower_str(qt.as_str());
    let ct = trim_str(category);
    let cat = lower_str(ct.as_str());
    let host_pill = str_eq(cat.as_str(), "host");
    proof {
        reveal_strlit("");
    }
    let mut k: usize = 0;
    while k < entries.len()
        invariant
            k <= entries.len(),
            q@ == to_lower(trim(query@)),
            cat@ == unified_cat(category@),
            host_pill == (cat@ == "host"@),
            row_views(rows@) == hosts + catalog_rows(entries@, query@, category@, k as int),
        decreases entries.len() - k,
    {
        let e = &entries[k];
        if keep_catalog_entry(e, q.as_str(), cat.as_str(), host_pill) {
            let ghost before = rows@;
            rows.push((e.name.clone(), UnifiedItem::Catalog(k)));
            assert(row_views(rows@) =~= row_views(before).push((entries@[k as int].name@, UnifiedItem::Catalog(k))));
        }
        k += 1;
    }
    let all = rows;
    let ghost all_rows = row_views(all@);
    let sorted = sort_rows_exec(all);
    let mut out: Vec<UnifiedItem> = Vec::new();
    let mut i: usize = 0;
    while i < sorted.len()
        invariant
            i <= sorted.len(),
            out@ == row_views(sorted@).take(i as int).map_values(|p: (Seq<char>, UnifiedItem)| p.1),
        decreases sorted.len() - i,
    {
        out.push(sorted[i].1);
        assert(row_views(sorted@).take(i + 1) =~= row_views(sorted@).take(i as int).push(row_views(sorted@)[i as int]));
        assert(out@ =~= row_views(sorted@).take(i + 1).map_values(|p: (Seq<char>, UnifiedItem)| p.1));
        i += 1;
    }
    assert(row_views(sorted@).take(sorted.len() as int) =~= row_views(sorted@));
    out
}

/// The query tail every pill link keeps: domain, list mode, page size, and the search text
/// when it is not blank.
pub open spec fn unified_pill_query(domain: Seq<char>, mode: Seq<char>, per_page: usize, q: Seq<char>) -> Seq<char> {
    "&amp;domain="@ + url_encode_spec(domain) + "&amp;mode="@ + url_encode_spec(mode) + "&amp;per_page="@ + dec(
        per_page as nat,
    ) + (if trim(q).len() > 0 {
        "&amp;q="@ + url_encode_spec(q)
    } else {
        Seq::empty()
    })
}

pub open spec fn fixed_class(active: Seq<char>, cat: Seq<char>) -> Seq<char> {
    if eq_ignore_case(active, cat) {
        "active"@
    } else {
        ""@
    }
}

/// The unified Store pills: All, Featured, Host and Paid, then the host package categories
/// and the catalog categories, sorted ignoring case with case-insensitive duplicates
/// dropped; the active one marked.
pub open spec fn unified_category_pills_spec(
    host_categories: Seq<Seq<char>>,
    entries: Seq<CatalogEntry>,
    active: Seq<char>,
    domain: Seq<char>,
    mode: Seq<char>,
    per_page: usize,
    q: Seq<char>,
) -> Seq<char> {
    let dq = unified_pill_query(domain, mode, per_page, q);
    let all_cls = if active.len() == 0 || eq_ignore_case(active, "all"@) {
        "active"@
    } else {
        ""@
    };
    "<div class=\"category-pills\">"@ + fixed_pill(all_cls, ""@, dq, "All"@) + fixed_pill(
        fixed_class(active, "Featured"@),
        "&amp;category=Featured"@,
        dq,
        "Featured"@,
    ) + fixed_pill(fixed_class(active, "Host"@), "&amp;category=Host"@, dq, "Host"@) + fixed_pill(
        fixed_class(active, "Paid"@),
        "&amp;category=Paid"@,
        dq,
        "Paid"@,
    ) + pills_spec(pill_categories_spec(host_categories + entry_categories(entries)), active, dq) + "</div>"@
}

#[verifier::rlimit(60)]
#[verifier::spinoff_prover]
pub fn unified_category_pills(
    host_categories: &Vec<String>,
    entries: &Vec<CatalogEntry>,
    active: &str,
    domain: &str,
    mode: &str,
    per_page: usize,
    q: &str,
) -> (r: String)
    ensures
        r@ == unified_category_pills_spec(string_seq(host_categories@), entries@, active@, domain@, mode@, per_page, q@),
{
    let mut names: Vec<String> = Vec::new();
    let mut h: usize = 0;
    while h < host_categories.len()
        invariant
            h <= host_categories.len(),
            string_seq(names@) == string_seq(host_categories@).take(h as int),
        decreases host_categories.len() - h,
    {
        let ghost before = names@;
        names.push(host_categories[h].clone());
        proof {
            assert(string_seq(names@) =~= string_seq(before).push(host_categories@[h as int]@));
            assert(string_seq(host_categories@).take(h + 1) =~= string_seq(host_categories@).take(h as int).push(
                host_categories@[h as int]@,
            ));
        }
        h += 1;
    }
    assert(string_seq(host_categories@).take(host_categories.len() as int) =~= string_seq(host_categories@));
    let mut i: usize = 0;
    while i < entries.len()
        invariant
            i <= entries.len(),
            string_seq(names@) == string_seq(host_categories@) + entry_categories(entries@.take(i as int)),
        decreases entries.len() - i,
    {
        let ghost before = names@;
        names.push(entries[i].category.clone());
        proof {
            assert(string_seq(names@) =~= string_seq(before).push(entries@[i as int].category@));
            assert(entry_categories(entries@.take(i + 1)) =~= entry_categories(entries@.take(i as int)).push(
                entries@[i as int].category@,
            ));
        }
        i += 1;
    }
    assert(entries@.take(entries.len() as int) =~= entries@);
    let cats = pill_categories(&names);
    let mut dq = "&amp;domain=".to_owned();
    push_url_encoded(&mut dq, domain);
    dq.append("&amp;mode=");
    push_url_encoded(&mut dq, mode);
    dq.append("&amp;per_page=");
    push_dec(&mut dq, per_page as u64);
    let ghost base = dq@;
    let tq = trim_str(q);
    if tq.as_str().unicode_len() > 0 {
        dq.append("&amp;q=");
        push_url_encoded(&mut dq, q);
    }
    proof {
        reveal_strlit("");
        reveal_strlit("all");
        reveal_strlit("&amp;domain=");
        reveal_strlit("&amp;mode=");
        reveal_strlit("&amp;per_page=");
        assert(dq@ =~= unified_pill_query(domain@, mode@, per_page, q@));
    }
    let d = dq.as_str();
    let all_cls = if active.unicode_len() == 0 || eq_ignore_case_str(active, "all") { "active" } else { "" };
    let feat_cls = if eq_ignore_case_str(active, "Featured") { "active" } else { "" };
    let host_cls = if eq_ignore_case_str(active, "Host") { "active" } else { "" };
    let paid_cls = if eq_ignore_case_str(active, "Paid") { "active" } else { "" };
    let mut out = "<div class=\"category-pills\">".to_owned();
    push_pill(&mut out, all_cls, "", d, "All");
    push_pill(&mut out, feat_cls, "&amp;category=Featured", d, "Featured");
    push_pill(&mut out, host_cls, "&amp;category=Host", d, "Host");
    push_pill(&mut out, paid_cls, "&amp;category=Paid", d, "Paid");
    push_category_pills(&mut out, &cats, active, d);
    out.append("</div>");
    proof {
        assert(string_seq(names@) == string_seq(host_categories@) + entry_categories(entries@));
        assert(out@ =~= unified_category_pills_spec(
            string_seq(host_categories@),
            entries@,
            active@,
            domain@,
            mode@,
            per_page,
            q@,
        ));
    }
    out
}

} // verus!
