//! The community plugin list of the Store: the filtered, paged catalog cards under the
//! list toolbar.

use vstd::prelude::*;
use vstd::string::*;
use crate::panel_plugins_spa::{list_mode_from_query, list_mode_spec, store_list_toolbar, store_list_toolbar_spec};
use crate::panel_plugins_store::{
    catalog_card_spec, filter_store_entries, render_catalog_card, store_filter_spec, store_page_window, window_spec,
};
use crate::plugin_activation::{activated_spec, host_scoped_spec, PluginActivation};
use crate::plugins::CatalogEntry;
use crate::text::{contains_string, string_views};

verus! {

/// The card of one entry, with the facts it depends on.
pub open spec fn card_for(
    e: CatalogEntry,
    installed_ids: Seq<Seq<char>>,
    activations: Seq<PluginActivation>,
    domain: Seq<char>,
    host_ids: Seq<Seq<char>>,
    admin: bool,
) -> Seq<char> {
    let host_scoped = e.host_scoped || host_scoped_spec(e.id@);
    catalog_card_spec(
        e,
        domain,
        installed_ids.contains(e.id@),
        host_scoped,
        host_scoped && host_ids.contains(e.id@),
        domain.len() > 0 && activated_spec(activations, domain, e.id@),
        admin,
    )
}

pub open spec fn cards_spec(
    items: Seq<CatalogEntry>,
    installed_ids: Seq<Seq<char>>,
    activations: Seq<PluginActivation>,
    domain: Seq<char>,
    host_ids: Seq<Seq<char>>,
    admin: bool,
) -> Seq<char>
    decreases items.len(),
{
    if items.len() == 0 {
        Seq::empty()
    } else {
        cards_spec(items.drop_last(), installed_ids, activations, domain, host_ids, admin) + card_for(
            items.last(),
            installed_ids,
            activations,
            domain,
            host_ids,
            admin,
        )
    }
}

/// The Store's plugin list: the toolbar and an empty-state note when nothing matches;
/// else the toolbar for the list mode and page window and the cards of that window.
/// `host_ids` are the plugins installed on the host.
pub open spec fn store_catalog_spec(
    entries: Seq<CatalogEntry>,
    installed_ids: Seq<Seq<char>>,
    activations: Seq<PluginActivation>,
    host_ids: Seq<Seq<char>>,
    admin: bool,
    query: Seq<char>,
    category: Seq<char>,
    domain: Seq<char>,
    mode: Seq<char>,
    page: usize,
    per_page: usize,
) -> Seq<char> {
    let filtered = store_filter_spec(entries, query, category);
    if filtered.len() == 0 {
        store_list_toolbar_spec(mode, per_page, 1, 1, 0) + "<p class=\"empty-state\">No plugins match this search.</p>"@
    } else {
        let m = list_mode_spec(mode);
        let w = window_spec(m == "scroll"@, filtered.len() as usize, per_page, page);
        store_list_toolbar_spec(m, w.0, w.2, w.1, filtered.len() as usize) + "<div class=\""@ + (if m == "scroll"@ {
            "plugin-grid-scroll is-scroll"@
        } else {
            "plugin-grid-scroll"@
        }) + "\">"@ + "<div class=\"plugin-grid\">"@ + cards_spec(
            filtered.subrange(w.3 as int, w.4 as int),
            installed_ids,
            activations,
            domain,
            host_ids,
            admin,
        ) + "</div>"@ + "</div>"@
    }
}

#[verifier::rlimit(80)]
#[verifier::spinoff_prover]
pub fn store_catalog(
    entries: &Vec<CatalogEntry>,
    installed_ids: &Vec<String>,
    activations: &Vec<PluginActivation>,
    host_ids: &Vec<String>,
    admin: bool,
    query: &str,
    category: &str,
    domain: &str,
    mode: &str,
    page: usize,
    per_page: usize,
) -> (r: String)
    ensures
        r@ == store_catalog_spec(
            entries@,
            string_views(installed_ids@),
            activations@,
            string_views(host_ids@),
            admin,
            query@,
            category@,
            domain@,
            mode@,
            page,
            per_page,
        ),
{
    let filtered = filter_store_entries(entries, query, category);
    let ghost fv = filtered@.map_values(|e: &CatalogEntry| *e);
    let total = filtered.len();
    if total == 0 {
        let mut out = store_list_toolbar(mode, per_page, 1, 1, 0);
        out.append("<p class=\"empty-state\">No plugins match this search.</p>");
        return out;
    }
    let m = list_mode_from_query(mode);
    let scroll = crate::text::str_eq(m, "scroll");
    let w = store_page_window(scroll, total, per_page, page);
    let mut out = store_list_toolbar(m, w.per_page, w.page, w.total_pages, total);
    out.append("<div class=\"");
    out.append(if scroll { "plugin-grid-scroll is-scroll" } else { "plugin-grid-scroll" });
    out.append("\">");
    out.append("<div class=\"plugin-grid\">");
    let ghost head = out@;
    let mut k: usize = w.start;
    assert(fv.subrange(w.start as int, w.start as int) =~= Seq::<CatalogEntry>::empty());
    while k < w.end
        invariant
            w.start <= k <= w.end <= filtered.len(),
            fv == filtered@.map_values(|e: &CatalogEntry| *e),
            out@ == head + cards_spec(
                fv.subrange(w.start as int, k as int),
                string_views(installed_ids@),
                activations@,
                domain@,
                string_views(host_ids@),
                admin,
            ),
        decreases w.end - k,
    {
        let e = filtered[k];
        let host = contains_string(host_ids, e.id.as_str());
        let card = render_catalog_card(e, installed_ids, activations, domain, host, admin);
        out.append(card.as_str());
        proof {
            let s = fv.subrange(w.start as int, k + 1);
            assert(s.drop_last() =~= fv.subrange(w.start as int, k as int));
            assert(s.last() == *e);
        }
        k += 1;
    }
    out.append("</div>");
    out.append("</div>");
    out
}

} // verus!
