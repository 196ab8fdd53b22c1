//! Per-plugin settings (`settings.json` beside the plugin): the declared fields and their
//! defaults from the plugin record, the settings map, and the sidebar links of plugins that
//! ask to be shown there. Reading and writing the files is done by the caller.

use vstd::prelude::*;
use vstd::string::*;
use crate::panel_plugins_store::lex_le;
use crate::text::{chars_of, lower_vec, str_eq, to_lower};
use crate::url_form::{push_url_encoded, url_encode_spec};

verus! {

/// The settings file of a plugin.
pub const SETTINGS_FILE: &'static str = "settings.json";

/// A setting a plugin declares in its record.
pub struct PluginSettingField {
    pub key: String,
    pub label: String,
    /// `text`, `checkbox`, or `number`.
    pub field_type: String,
    pub default: String,
}

/// The optional extras of a plugin record: declared settings, the sidebar default, and
/// whether it has a dashboard. A record that cannot be read gives `ManifestExtras::none()`.
pub struct ManifestExtras {
    pub settings_fields: Vec<PluginSettingField>,
    pub show_in_sidebar: Option<bool>,
    pub has_dashboard: bool,
}

/// A plugin's settings: whether it shows in the sidebar, and its field values by key.
pub struct PluginSettings {
    pub show_in_sidebar: bool,
    pub fields: Vec<(String, String)>,
}

/// A sidebar link to a plugin's dashboard.
pub struct SidebarPluginLink {
    pub id: String,
    pub name: String,
    pub domain: String,
    pub href: String,
}

/// The field values as a map: a later entry for a key replaces an earlier one.
pub open spec fn fields_map(f: Seq<(String, String)>) -> Map<Seq<char>, Seq<char>>
    decreases f.len(),
{
    if f.len() == 0 {
        Map::empty()
    } else {
        fields_map(f.drop_last()).insert(f.last().0@, f.last().1@)
    }
}

impl PluginSettings {
    pub open spec fn view_fields(&self) -> Map<Seq<char>, Seq<char>> {
        fields_map(self.fields@)
    }
}

impl ManifestExtras {
    /// What an unreadable or absent record gives: no fields, no sidebar default, no dashboard.
    pub fn none() -> (r: ManifestExtras)
        ensures
            r.settings_fields@.len() == 0,
            r.show_in_sidebar is None,
            !r.has_dashboard,
    {
        ManifestExtras { settings_fields: Vec::new(), show_in_sidebar: None, has_dashboard: false }
    }
}

/// The settings a plugin declares.
pub fn declared_settings_fields(extras: ManifestExtras) -> (r: Vec<PluginSettingField>)
    ensures
        r@ == extras.settings_fields@,
{
    extras.settings_fields
}

pub fn manifest_has_dashboard(extras: &ManifestExtras) -> (r: bool)
    ensures
        r == extras.has_dashboard,
{
    extras.has_dashboard
}

/// The sidebar default: what the record says, else off.
pub fn default_show_in_sidebar(extras: &ManifestExtras) -> (r: bool)
    ensures
        r == (extras.show_in_sidebar == Some(true)),
{
    match extras.show_in_sidebar {
        Some(b) => b,
        None => false,
    }
}

fn find_field(fields: &Vec<(String, String)>, key: &str) -> (r: Option<usize>)
    ensures
        match r {
            Some(i) => i < fields.len() && fields@[i as int].0@ == key@ && forall|j: int|
                i < j < fields.len() ==> (#[trigger] fields@[j]).0@ != key@,
            None => forall|j: int| 0 <= j < fields.len() ==> (#[trigger] fields@[j]).0@ != key@,
        },
{
    let mut i: usize = fields.len();
    while i > 0
        invariant
            i <= fields.len(),
            forall|j: int| i <= j < fields.len() ==> (#[trigger] fields@[j]).0@ != key@,
        decreases i,
    {
        if str_eq(fields[i - 1].0.as_str(), key) {
            return Some(i - 1);
        }
        i -= 1;
    }
    None
}

proof fn lemma_fields_map_absent(f: Seq<(String, String)>, key: Seq<char>)
    requires
        forall|j: int| 0 <= j < f.len() ==> (#[trigger] f[j]).0@ != key,
    ensures
        !fields_map(f).contains_key(key),
    decreases f.len(),
{
    if f.len() > 0 {
        lemma_fields_map_absent(f.drop_last(), key);
    }
}

proof fn lemma_fields_map_last(f: Seq<(String, String)>, key: Seq<char>, i: int)
    requires
        0 <= i < f.len(),
        f[i].0@ == key,
        forall|j: int| i < j < f.len() ==> (#[trigger] f[j]).0@ != key,
    ensures
        fields_map(f).contains_key(key),
        fields_map(f)[key] == f[i].1@,
    decreases f.len(),
{
    if i < f.len() - 1 {
        lemma_fields_map_last(f.drop_last(), key, i);
    }
}

/// The value of a setting.
pub fn setting_value(settings: &PluginSettings, key: &str) -> (r: Option<String>)
    ensures
        match r {
            Some(v) => settings.view_fields().contains_key(key@) && settings.view_fields()[key@] == v@,
            None => !settings.view_fields().contains_key(key@),
        },
{
    match find_field(&settings.fields, key) {
        Some(i) => {
            proof {
                lemma_fields_map_last(settings.fields@, key@, i as int);
            }
            Some(settings.fields[i].1.clone())
        },
        None => {
            proof {
                lemma_fields_map_absent(settings.fields@, key@);
            }
            None
        },
    }
}

/// Sets a field's value (`BTreeMap::insert`).
pub fn set_setting(settings: &mut PluginSettings, key: &str, value: &str)
    ensures
        final(settings).view_fields() == old(settings).view_fields().insert(key@, value@),
        final(settings).show_in_sidebar == old(settings).show_in_sidebar,
{
    let ghost before = settings.fields@;
    settings.fields.push((key.to_owned(), value.to_owned()));
    assert(settings.fields@.drop_last() =~= before);
}

/// Adds a declared field's default unless the key already has a value (`entry().or_insert`).
pub fn set_default_if_missing(settings: &mut PluginSettings, key: &str, value: &str)
    ensures
        final(settings).view_fields() == (if old(settings).view_fields().contains_key(key@) {
            old(settings).view_fields()
        } else {
            old(settings).view_fields().insert(key@, value@)
        }),
        final(settings).show_in_sidebar == old(settings).show_in_sidebar,
{
    match find_field(&settings.fields, key) {
        Some(i) => {
            proof {
                lemma_fields_map_last(settings.fields@, key@, i as int);
            }
        },
        None => {
            proof {
                lemma_fields_map_absent(settings.fields@, key@);
            }
            set_setting(settings, key, value);
        },
    }
}

/// The defaults of the declared fields, later declarations of a key winning.
pub open spec fn declared_defaults(fields: Seq<PluginSettingField>) -> Map<Seq<char>, Seq<char>>
    decreases fields.len(),
{
    if fields.len() == 0 {
        Map::empty()
    } else {
        declared_defaults(fields.drop_last()).insert(fields.last().key@, fields.last().default@)
    }
}

/// The settings of a plugin that has no settings file yet: the record's sidebar default and
/// the declared defaults.
pub fn fresh_plugin_settings(extras: &ManifestExtras) -> (r: PluginSettings)
    ensures
        r.show_in_sidebar == (extras.show_in_sidebar == Some(true)),
        r.view_fields() == declared_defaults(extras.settings_fields@),
{
    let mut s = PluginSettings { show_in_sidebar: default_show_in_sidebar(extras), fields: Vec::new() };
    let mut i: usize = 0;
    while i < extras.settings_fields.len()
        invariant
            i <= extras.settings_fields.len(),
            s.show_in_sidebar == (extras.show_in_sidebar == Some(true)),
            s.view_fields() == declared_defaults(extras.settings_fields@.take(i as int)),
        decreases extras.settings_fields.len() - i,
    {
        let f = &extras.settings_fields[i];
        set_setting(&mut s, f.key.as_str(), f.default.as_str());
        proof {
            assert(extras.settings_fields@.take(i + 1).drop_last() =~= extras.settings_fields@.take(i as int));
        }
        i += 1;
    }
    assert(extras.settings_fields@.take(extras.settings_fields.len() as int) =~= extras.settings_fields@);
    s
}

/// The declared defaults added under every key that has no value.
pub open spec fn with_defaults(m: Map<Seq<char>, Seq<char>>, fields: Seq<PluginSettingField>) -> Map<
    Seq<char>,
    Seq<char>,
>
    decreases fields.len(),
{
    if fields.len() == 0 {
        m
    } else {
        let prev = with_defaults(m, fields.drop_last());
        if prev.contains_key(fields.last().key@) {
            prev
        } else {
            prev.insert(fields.last().key@, fields.last().default@)
        }
    }
}

/// Loaded settings with the declared defaults filled in where a key is missing.
pub fn fill_declared_defaults(settings: &mut PluginSettings, declared: &Vec<PluginSettingField>)
    ensures
        final(settings).view_fields() == with_defaults(old(settings).view_fields(), declared@),
        final(settings).show_in_sidebar == old(settings).show_in_sidebar,
{
    let ghost start = settings.view_fields();
    let mut i: usize = 0;
    while i < declared.len()
        invariant
            i <= declared.len(),
            settings.show_in_sidebar == old(settings).show_in_sidebar,
            start == old(settings).view_fields(),
            settings.view_fields() == with_defaults(start, declared@.take(i as int)),
        decreases declared.len() - i,
    {
        let f = &declared[i];
        set_default_if_missing(settings, f.key.as_str(), f.default.as_str());
        proof {
            assert(declared@.take(i + 1).drop_last() =~= declared@.take(i as int));
        }
        i += 1;
    }
    assert(declared@.take(declared.len() as int) =~= declared@);
}

/// The dashboard link of a plugin of a site.
pub open spec fn dashboard_href_spec(domain: Seq<char>, id: Seq<char>) -> Seq<char> {
    "/plugins/dashboard?domain="@ + url_encode_spec(domain) + "&id="@ + url_encode_spec(id)
}

/// The sidebar link of an enabled plugin that shows in the sidebar.
pub fn sidebar_link(domain: &str, id: &str, name: &str) -> (r: SidebarPluginLink)
    ensures
        r.id@ == id@,
        r.name@ == name@,
        r.domain@ == domain@,
        r.href@ == dashboard_href_spec(domain@, id@),
{
    let mut href = "/plugins/dashboard?domain=".to_owned();
    push_url_encoded(&mut href, domain);
    href.append("&id=");
    push_url_encoded(&mut href, id);
    SidebarPluginLink { id: id.to_owned(), name: name.to_owned(), domain: domain.to_owned(), href }
}

/// Sidebar order: by name, then domain, then id, each compared lower-cased.
pub open spec fn link_le(a: SidebarPluginLink, b: SidebarPluginLink) -> bool {
    let (an, ad, ai) = (to_lower(a.name@), to_lower(a.domain@), to_lower(a.id@));
    let (bn, bd, bi) = (to_lower(b.name@), to_lower(b.domain@), to_lower(b.id@));
    if an != bn {
        lex_le(an, bn)
    } else if ad != bd {
        lex_le(ad, bd)
    } else {
        lex_le(ai, bi)
    }
}

/// Stable insertion of a link after every link that does not sort after it.
pub open spec fn insert_link(sorted: Seq<SidebarPluginLink>, x: SidebarPluginLink) -> Seq<SidebarPluginLink>
    decreases sorted.len(),
{
    if sorted.len() == 0 {
        seq![x]
    } else if link_le(sorted.last(), x) {
        sorted.push(x)
    } else {
        insert_link(sorted.drop_last(), x).push(sorted.last())
    }
}

/// The stable sort of links in sidebar order.
pub open spec fn sort_links(s: Seq<SidebarPluginLink>) -> Seq<SidebarPluginLink>
    decreases s.len(),
{
    if s.len() == 0 {
        Seq::empty()
    } else {
        insert_link(sort_links(s.drop_last()), s.last())
    }
}

proof fn lemma_insert_link_split(sorted: Seq<SidebarPluginLink>, x: SidebarPluginLink, p: int)
    requires
        0 <= p <= sorted.len(),
        forall|j: int| p <= j < sorted.len() ==> !link_le(#[trigger] sorted[j], x),
    ensures
        insert_link(sorted, x) == insert_link(sorted.take(p), x) + sorted.skip(p),
    decreases sorted.len() - p,
{
    if p < sorted.len() {
        lemma_insert_link_split(sorted.drop_last(), x, p);
        assert(sorted.drop_last().take(p) =~= sorted.take(p));
        assert(sorted.skip(p) =~= sorted.drop_last().skip(p).push(sorted.last()));
    } else {
        assert(sorted.take(p) =~= sorted);
        assert(sorted.skip(p) =~= Seq::<SidebarPluginLink>::empty());
    }
}

fn vec_eq_chars(a: &Vec<char>, b: &Vec<char>) -> (r: bool)
    ensures
        r == (a@ == b@),
{
    crate::text::vec_eq(a, b)
}

fn lex_le_chars(a: &Vec<char>, b: &Vec<char>) -> (r: bool)
    ensures
        r == lex_le(a@, b@),
{
    crate::panel_plugins_store::lex_le_vec(a, b)
}

fn link_le_exec(a: &SidebarPluginLink, b: &SidebarPluginLink) -> (r: bool)
    ensures
        r == link_le(*a, *b),
{
    let an = lower_vec(&chars_of(a.name.as_str()));
    let bn = lower_vec(&chars_of(b.name.as_str()));
    if !vec_eq_chars(&an, &bn) {
        return lex_le_chars(&an, &bn);
    }
    let ad = lower_vec(&chars_of(a.domain.as_str()));
    let bd = lower_vec(&chars_of(b.domain.as_str()));
    if !vec_eq_chars(&ad, &bd) {
        return lex_le_chars(&ad, &bd);
    }
    let ai = lower_vec(&chars_of(a.id.as_str()));
    let bi = lower_vec(&chars_of(b.id.as_str()));
    lex_le_chars(&ai, &bi)
}

/// Sidebar links in sidebar order (a stable sort by name, domain and id, lower-cased).
pub fn sort_sidebar_links(links: Vec<SidebarPluginLink>) -> (r: Vec<SidebarPluginLink>)
    ensures
        r@ == sort_links(links@),
{
    let mut sorted: Vec<SidebarPluginLink> = Vec::new();
    let mut rest = links;
    let ghost all = rest@;
    let ghost mut taken: Seq<SidebarPluginLink> = Seq::empty();
    assert(taken + rest@ =~= all);
    while rest.len() > 0
        invariant
            taken + rest@ == all,
            sorted@ == sort_links(taken),
        decreases rest.len(),
    {
        let ghost rbefore = rest@;
        let x = rest.remove(0);
        let mut p: usize = sorted.len();
        while p > 0 && !link_le_exec(&sorted[p - 1], &x)
            invariant
                p <= sorted.len(),
                forall|j: int| p <= j < sorted.len() ==> !link_le(#[trigger] sorted@[j], x),
            decreases p,
        {
            p -= 1;
        }
        proof {
            let ss = sorted@;
            lemma_insert_link_split(ss, x, p as int);
            if p > 0 {
                assert(ss.take(p as int) =~= ss.take(p as int).drop_last().push(ss[p - 1]));
                assert(insert_link(ss.take(p as int), x) == ss.take(p as int).push(x));
            } else {
                assert(ss.take(0) =~= Seq::<SidebarPluginLink>::empty());
            }
            assert(taken.push(x).drop_last() =~= taken);
            assert(x == rbefore[0]);
            assert(taken.push(x) + rest@ =~= all);
        }
        let ghost before = sorted@;
        sorted.insert(p, x);
        proof {
            assert(sorted@ =~= before.take(p as int).push(x) + before.skip(p as int));
            taken = taken.push(x);
        }
    }
    assert(taken =~= all);
    sorted
}


/// One installed plugin of a site the viewer may be able to manage, with what the sidebar
/// needs: whether the viewer may manage the site, whether the plugin is enabled, and
/// whether its settings show it in the sidebar.
pub struct SidebarCandidate {
    pub domain: String,
    pub may_manage: bool,
    pub id: String,
    pub name: String,
    pub enabled: bool,
    pub show_in_sidebar: bool,
}

/// The link a candidate gives, when it gives one.
pub open spec fn candidate_shown(c: SidebarCandidate) -> bool {
    c.may_manage && c.enabled && c.show_in_sidebar
}

pub open spec fn link_of(c: SidebarCandidate, l: SidebarPluginLink) -> bool {
    l.id@ == c.id@ && l.name@ == c.name@ && l.domain@ == c.domain@ && l.href@ == dashboard_href_spec(
        c.domain@,
        c.id@,
    )
}

/// Active plugins with Show in sidebar enabled, for sites the user may manage, in sidebar
/// order: the links are a stable sort of one link per shown candidate.
pub fn sidebar_plugin_links(candidates: &Vec<SidebarCandidate>) -> (r: Vec<SidebarPluginLink>)
    ensures
        exists|unsorted: Seq<SidebarPluginLink>|
            r@ == sort_links(unsorted) && unsorted.len() == candidates@.filter(|c: SidebarCandidate| candidate_shown(c)).len()
                && forall|k: int| 0 <= k < unsorted.len() ==> link_of(
                    candidates@.filter(|c: SidebarCandidate| candidate_shown(c))[k],
                    #[trigger] unsorted[k],
                ),
{
    let ghost shown = |c: SidebarCandidate| candidate_shown(c);
    let mut out: Vec<SidebarPluginLink> = Vec::new();
    let mut i: usize = 0;
    proof {
        crate::text::lemma_filter_empty(shown);
        assert(candidates@.take(0) =~= Seq::<SidebarCandidate>::empty());
    }
    while i < candidates.len()
        invariant
            i <= candidates.len(),
            shown == (|c: SidebarCandidate| candidate_shown(c)),
            out@.len() == candidates@.take(i as int).filter(shown).len(),
            forall|k: int| 0 <= k < out@.len() ==> link_of(candidates@.take(i as int).filter(shown)[k], #[trigger] out@[k]),
        decreases candidates.len() - i,
    {
        proof {
            crate::text::lemma_filter_push(candidates@.take(i as int), shown, candidates@[i as int]);
            assert(candidates@.take(i + 1) =~= candidates@.take(i as int).push(candidates@[i as int]));
        }
        let c = &candidates[i];
        if c.may_manage && c.enabled && c.show_in_sidebar {
            let l = sidebar_link(c.domain.as_str(), c.id.as_str(), c.name.as_str());
            out.push(l);
        }
        i += 1;
    }
    assert(candidates@.take(candidates.len() as int) =~= candidates@);
    let ghost unsorted = out@;
    let r = sort_sidebar_links(out);
    r
}


/// A value set for a key is what is read back for it, and every other key keeps its value.
pub proof fn lemma_setting_read_after_write(
    before: Map<Seq<char>, Seq<char>>,
    key: Seq<char>,
    value: Seq<char>,
    other: Seq<char>,
)
    ensures
        before.insert(key, value).contains_key(key),
        before.insert(key, value)[key] == value,
        other != key ==> (before.insert(key, value).contains_key(other) == before.contains_key(other)),
        other != key && before.contains_key(other) ==> before.insert(key, value)[other] == before[other],
{
}

/// Filling in declared defaults never changes a value that was already set, and leaves
/// every declared key with a value.
pub proof fn lemma_defaults_keep_existing(m: Map<Seq<char>, Seq<char>>, fields: Seq<PluginSettingField>, key: Seq<char>)
    ensures
        m.contains_key(key) ==> with_defaults(m, fields).contains_key(key) && with_defaults(m, fields)[key] == m[key],
        forall|k: int| 0 <= k < fields.len() ==> with_defaults(m, fields).contains_key(#[trigger] fields[k].key@),
    decreases fields.len(),
{
    if fields.len() > 0 {
        lemma_defaults_keep_existing(m, fields.drop_last(), key);
        lemma_defaults_keep_existing(m, fields.drop_last(), fields.last().key@);
        assert forall|k: int| 0 <= k < fields.len() implies with_defaults(m, fields).contains_key(
            #[trigger] fields[k].key@,
        ) by {
            if k < fields.len() - 1 {
                assert(fields.drop_last()[k] == fields[k]);
            }
        }
    }
}

} // verus!
