//! Releases read straight from download URLs when the releases API is unavailable: the
//! tags to probe, the download base of a tag, and a release rebuilt from its `SHA256SUMS`.

use vstd::prelude::*;
use vstd::string::*;
use crate::release_verify::{sums_entry, sums_entry_of};
use crate::releases::{
    asset_at, first_installer_rpm_from, first_named_from, first_ten, normalize_version,
    normalize_version_spec, release_from_fields, CpnRelease, ReleaseAsset,
};
use crate::text::{
    chars_of, contains_seq, contains_string, eq_ignore_case, lines_spec, lines_vec, str_eq,
    string_of_chars, string_views, trim, views,
};

verus! {

/// The names listed in a checksum list, in order, each once; lines without a name or with
/// an empty one are skipped.
pub open spec fn sums_names(lines: Seq<Seq<char>>) -> Seq<Seq<char>>
    decreases lines.len(),
{
    if lines.len() == 0 {
        Seq::empty()
    } else {
        let prev = sums_names(lines.drop_last());
        match sums_entry(lines.last()) {
            Some((_, Some(n))) => if n.len() > 0 && !prev.contains(n) {
                prev.push(n)
            } else {
                prev
            },
            _ => prev,
        }
    }
}

#[verifier::rlimit(60)]
#[verifier::spinoff_prover]
pub fn parse_sha256sums_names(body: &str) -> (r: Vec<String>)
    ensures
        string_views(r@) == sums_names(lines_spec(body@)),
{
    let lines = lines_vec(&chars_of(body));
    let ghost all = views(lines@);
    let mut names: Vec<String> = Vec::new();
    let mut i: usize = 0;
    assert(all.take(0) =~= Seq::<Seq<char>>::empty());
    while i < lines.len()
        invariant
            i <= lines.len(),
            all == views(lines@),
            all == lines_spec(body@),
            string_views(names@) == sums_names(all.take(i as int)),
        decreases lines.len() - i,
    {
        assert(all.take(i + 1).drop_last() =~= all.take(i as int));
        assert(all.take(i + 1).last() == lines@[i as int]@);
        let ghost prev = string_views(names@);
        match sums_entry_of(&lines[i]) {
            Some((_, Some(n))) => {
                let s = string_of_chars(&n);
                if n.len() > 0 && !contains_string(&names, s.as_str()) {
                    names.push(s);
                    assert(string_views(names@) =~= prev.push(n@));
                }
            },
            _ => {},
        }
        i += 1;
    }
    assert(all.take(i as int) =~= all);
    names
}

/// The form a tag is probed under: the trimmed value as given when it starts with `v` or
/// `V`, else `v` and the normalised version; `None` for a blank value.
pub open spec fn tag_form(raw: Seq<char>) -> Option<Seq<char>> {
    let t = trim(raw);
    if t.len() == 0 {
        None
    } else if t[0] == 'v' || t[0] == 'V' {
        Some(t)
    } else {
        Some("v"@ + normalize_version_spec(t))
    }
}

/// Adds the tag form of `raw` unless the list already holds it, compared ignoring ASCII case.
pub open spec fn push_tag(list: Seq<Seq<char>>, raw: Seq<char>) -> Seq<Seq<char>> {
    match tag_form(raw) {
        None => list,
        Some(t) => if exists|i: int| 0 <= i < list.len() && eq_ignore_case(#[trigger] list[i], t) {
            list
        } else {
            list.push(t)
        },
    }
}

/// Recent published tags probed after the configured ones.
pub open spec fn known_tips() -> Seq<Seq<char>> {
    seq![
        "v0.2.6-alpha.28"@,
        "v0.2.6-alpha.27"@,
        "v0.2.6-alpha.26"@,
        "v0.2.6-alpha.25"@,
        "v0.2.6-alpha.24"@,
    ]
}

/// The tags to probe, in order: the wanted one, the `CPN_RELEASE_TAG` setting, the build's
/// own version, then the known tips; each once.
pub open spec fn tag_candidates_spec(wanted: Option<Seq<char>>, env_tag: Option<Seq<char>>, tip: Seq<char>) -> Seq<
    Seq<char>,
> {
    let l0: Seq<Seq<char>> = Seq::empty();
    let l1 = match wanted {
        Some(w) => push_tag(l0, w),
        None => l0,
    };
    let l2 = match env_tag {
        Some(e) => push_tag(l1, e),
        None => l1,
    };
    let l3 = push_tag(l2, tip);
    let k = known_tips();
    push_tag(push_tag(push_tag(push_tag(push_tag(l3, k[0]), k[1]), k[2]), k[3]), k[4])
}

fn push_tag_into(list: &mut Vec<String>, raw: &str)
    ensures
        string_views(final(list)@) == push_tag(string_views(old(list)@), raw@),
{
    let v = chars_of(raw);
    let (a, b) = crate::text::trim_bounds(&v);
    if a == b {
        return;
    }
    let trimmed = crate::text::string_of_range(&v, a, b);
    let with_v = if v[a] == 'v' || v[a] == 'V' {
        trimmed
    } else {
        let mut s = "v".to_owned();
        let n = normalize_version(trimmed.as_str());
        s.append(n.as_str());
        s
    };
    assert(tag_form(raw@) == Some(with_v@)) by {
        assert(trimmed@[0] == v@[a as int]);
    }
    let mut i: usize = 0;
    while i < list.len()
        invariant
            i <= list.len(),
            tag_form(raw@) == Some(with_v@),
            forall|j: int| 0 <= j < i ==> !eq_ignore_case(#[trigger] string_views(list@)[j], with_v@),
        decreases list.len() - i,
    {
        if crate::text::eq_ignore_case_str(list[i].as_str(), with_v.as_str()) {
            assert(eq_ignore_case(string_views(list@)[i as int], with_v@));
            return;
        }
        i += 1;
    }
    let ghost before = string_views(list@);
    list.push(with_v);
    assert(string_views(list@) =~= before.push(with_v@));
}

/// The tags to probe for a release. `env_tag` is the `CPN_RELEASE_TAG` setting and
/// `tip_version` the version this build was made from.
#[verifier::rlimit(60)]
#[verifier::spinoff_prover]
pub fn tag_candidates(wanted: Option<&str>, env_tag: Option<&str>, tip_version: &str) -> (r: Vec<String>)
    ensures
        string_views(r@) == tag_candidates_spec(
            crate::text::opt_view(wanted),
            crate::text::opt_view(env_tag),
            tip_version@,
        ),
{
    proof {
        reveal_strlit("v0.2.6-alpha.28");
        reveal_strlit("v0.2.6-alpha.27");
        reveal_strlit("v0.2.6-alpha.26");
        reveal_strlit("v0.2.6-alpha.25");
        reveal_strlit("v0.2.6-alpha.24");
    }
    let mut out: Vec<String> = Vec::new();
    assert(string_views(out@) =~= Seq::<Seq<char>>::empty());
    if let Some(value) = wanted {
        push_tag_into(&mut out, value);
    }
    if let Some(value) = env_tag {
        push_tag_into(&mut out, value);
    }
    push_tag_into(&mut out, tip_version);
    push_tag_into(&mut out, "v0.2.6-alpha.28");
    push_tag_into(&mut out, "v0.2.6-alpha.27");
    push_tag_into(&mut out, "v0.2.6-alpha.26");
    push_tag_into(&mut out, "v0.2.6-alpha.25");
    push_tag_into(&mut out, "v0.2.6-alpha.24");
    out
}

/// `https://github.com/{repo}/releases/download/{tag}`.
pub open spec fn download_base_spec(repo: Seq<char>, tag: Seq<char>) -> Seq<char> {
    "https://github.com/"@ + repo + "/releases/download/"@ + tag
}

pub fn download_base(repo: &str, tag: &str) -> (r: String)
    ensures
        r@ == download_base_spec(repo@, tag@),
{
    let mut out = "https://github.com/".to_owned();
    out.append(repo);
    out.append("/releases/download/");
    out.append(tag);
    out
}

/// The asset `name` under a download base: `{base}/{name}`, generic content type, size 0.
pub open spec fn is_direct_asset(a: ReleaseAsset, name: Seq<char>, base: Seq<char>) -> bool {
    &&& a.name@ == name
    &&& a.browser_download_url@ == base + "/"@ + name
    &&& a.content_type@ == "application/octet-stream"@
    &&& a.size == 0
}

pub fn asset(name: &str, base: &str) -> (r: ReleaseAsset)
    ensures
        is_direct_asset(r, name@, base@),
{
    let mut url = base.to_owned();
    url.append("/");
    url.append(name);
    ReleaseAsset {
        name: name.to_owned(),
        browser_download_url: url,
        content_type: "application/octet-stream".to_owned(),
        size: 0,
    }
}

/// `names` with `extra` appended when it is not among them.
pub open spec fn with_name(names: Seq<Seq<char>>, extra: Seq<char>) -> Seq<Seq<char>> {
    if names.contains(extra) {
        names
    } else {
        names.push(extra)
    }
}

/// The asset names of a release rebuilt from its checksum list: the listed names, then
/// `SHA256SUMS`, `SHA256SUMS.asc` and `RPM-GPG-KEY-CPN` where missing.
pub open spec fn direct_asset_names(names: Seq<Seq<char>>) -> Seq<Seq<char>> {
    with_name(with_name(with_name(names, "SHA256SUMS"@), "SHA256SUMS.asc"@), "RPM-GPG-KEY-CPN"@)
}

fn push_missing(assets: &mut Vec<ReleaseAsset>, name: &str, base: &str, Ghost(names): Ghost<Seq<Seq<char>>>)
    requires
        old(assets)@.len() == names.len(),
        forall|i: int| 0 <= i < names.len() ==> is_direct_asset(#[trigger] old(assets)@[i], names[i], base@),
    ensures
        final(assets)@.len() == with_name(names, name@).len(),
        forall|i: int|
            0 <= i < with_name(names, name@).len() ==> is_direct_asset(
                #[trigger] final(assets)@[i],
                with_name(names, name@)[i],
                base@,
            ),
{
    let mut i: usize = 0;
    while i < assets.len()
        invariant
            i <= assets.len(),
            assets@.len() == names.len(),
            forall|j: int| 0 <= j < names.len() ==> is_direct_asset(#[trigger] assets@[j], names[j], base@),
            forall|j: int| 0 <= j < i ==> names[j] != name@,
        decreases assets.len() - i,
    {
        if str_eq(assets[i].name.as_str(), name) {
            assert(is_direct_asset(assets@[i as int], names[i as int], base@));
            assert(names.contains(name@));
            return;
        }
        i += 1;
    }
    assert(!names.contains(name@));
    let a = asset(name, base);
    assets.push(a);
}

/// The release `tag` of `repo` as rebuilt from the text of its `SHA256SUMS`.
#[verifier::rlimit(60)]
#[verifier::spinoff_prover]
pub fn release_from_sums(repo: &str, tag: &str, sums_body: &str) -> (r: Option<CpnRelease>)
    ensures
        r is None <==> (sums_names(lines_spec(sums_body@)).len() == 0 || trim(tag@).len() == 0),
        r matches Some(rel) ==> {
            let names = direct_asset_names(sums_names(lines_spec(sums_body@)));
            let base = download_base_spec(repo@, tag@);
            &&& rel.tag_name@ == trim(tag@)
            &&& rel.version@ == normalize_version_spec(trim(tag@))
            &&& rel.name@ == tag@
            &&& rel.published_at@.len() == 0
            &&& rel.prerelease == (contains_seq(tag@, "alpha"@) || contains_seq(tag@, "beta"@)
                || contains_seq(tag@, "rc"@))
            &&& !rel.draft
            &&& rel.html_url@ == "https://github.com/"@ + repo@ + "/releases/tag/"@ + tag@
            &&& rel.assets@.len() == names.len()
            &&& forall|i: int|
                0 <= i < names.len() ==> is_direct_asset(#[trigger] rel.assets@[i], names[i], base)
            &&& rel.rpm_asset == asset_at(rel.assets@, first_installer_rpm_from(rel.assets@, 0))
            &&& rel.binary_asset == asset_at(
                rel.assets@,
                first_named_from(rel.assets@, "cpn-installer"@, 0),
            )
            &&& rel.checksums_asset == asset_at(
                rel.assets@,
                first_named_from(rel.assets@, "SHA256SUMS"@, 0),
            )
            &&& rel.checksums_asc_asset == asset_at(
                rel.assets@,
                first_named_from(rel.assets@, "SHA256SUMS.asc"@, 0),
            )
        },
{
    let base = download_base(repo, tag);
    let names = parse_sha256sums_names(sums_body);
    if names.len() == 0 {
        return None;
    }
    let ghost nv = string_views(names@);
    let mut assets: Vec<ReleaseAsset> = Vec::new();
    let mut i: usize = 0;
    while i < names.len()
        invariant
            i <= names.len(),
            nv == string_views(names@),
            assets@.len() == i,
            forall|j: int| 0 <= j < i ==> is_direct_asset(#[trigger] assets@[j], nv[j], base@),
        decreases names.len() - i,
    {
        let a = asset(names[i].as_str(), base.as_str());
        assets.push(a);
        i += 1;
    }
    assert(nv.take(names.len() as int) =~= nv);
    push_missing(&mut assets, "SHA256SUMS", base.as_str(), Ghost(nv));
    let ghost n1 = with_name(nv, "SHA256SUMS"@);
    push_missing(&mut assets, "SHA256SUMS.asc", base.as_str(), Ghost(n1));
    let ghost n2 = with_name(n1, "SHA256SUMS.asc"@);
    push_missing(&mut assets, "RPM-GPG-KEY-CPN", base.as_str(), Ghost(n2));
    let prerelease = crate::text::contains_str(tag, "alpha") || crate::text::contains_str(tag, "beta")
        || crate::text::contains_str(tag, "rc");
    let mut html = "https://github.com/".to_owned();
    html.append(repo);
    html.append("/releases/tag/");
    html.append(tag);
    proof {
        reveal_strlit("");
    }
    release_from_fields(tag, tag, "", prerelease, false, html.as_str(), assets)
}

} // verus!
