//! Optional external panel base URL for emails and browser links (NAT labs, reverse proxies).

use vstd::prelude::*;
use vstd::string::*;
use vstd::utf8::encode_utf8;
use crate::text::{
    chars_of, dec, is_ws, is_ws_char, lower_vec, match_at, push_dec, str_eq, string_of_chars,
    string_of_range, to_lower, trim, trim_bounds, vec_range,
};

verus! {

/// A character a base URL may not hold: whitespace, `<` or `>`.
pub open spec fn bad_url_char(c: char) -> bool {
    is_ws(c) || c == '<' || c == '>'
}

/// A path, query or fragment marker.
pub open spec fn path_char(c: char) -> bool {
    c == '/' || c == '?' || c == '#'
}

/// Length of the scheme prefix the lower-cased URL starts with (0 for neither).
pub open spec fn scheme_len(lower: Seq<char>) -> int {
    if "https://"@.is_prefix_of(lower) {
        8
    } else if "http://"@.is_prefix_of(lower) {
        7
    } else {
        0
    }
}

/// What follows the scheme, with trailing slashes dropped.
pub open spec fn host_part(value: Seq<char>, k: int) -> Seq<char> {
    crate::text::strip_trailing(value.skip(k), '/')
}

/// `validate_panel_public_url`: trimmed, at most 512 bytes, no whitespace or angle brackets,
/// `http://` or `https://` in any case followed by a host (and port) with no path, query or
/// fragment (trailing slashes are dropped); the result is the lower-case scheme and the host
/// part as typed.
pub open spec fn public_url_spec(raw: Seq<char>) -> Result<Seq<char>, Seq<char>> {
    let value = trim(raw);
    let lower = to_lower(value);
    let k = scheme_len(lower);
    let rest = lower.skip(k);
    if value.len() == 0 {
        Err("Panel public URL cannot be empty"@)
    } else if encode_utf8(value).len() > 512 {
        Err("Panel public URL is too long (max 512)"@)
    } else if exists|i: int| 0 <= i < value.len() && bad_url_char(#[trigger] value[i]) {
        Err("Panel public URL contains invalid characters"@)
    } else if k == 0 {
        Err("Panel public URL must start with http:// or https:// (example: http://127.0.0.1:2089)"@)
    } else if rest.len() == 0 || rest[0] == '/' {
        Err("Panel public URL needs a host after the scheme"@)
    } else if exists|i: int|
        0 <= i < host_part(value, k).len() && path_char(#[trigger] host_part(value, k)[i]) {
        Err("Panel public URL must be scheme + host[:port] only (no path, query, or fragment)"@)
    } else {
        Ok((if k == 8 {
            "https"@
        } else {
            "http"@
        }) + "://"@ + host_part(value, k))
    }
}

pub fn validate_panel_public_url(raw: &str) -> (r: Result<String, String>)
    ensures
        match r {
            Ok(v) => public_url_spec(raw@) == Ok::<Seq<char>, Seq<char>>(v@),
            Err(e) => public_url_spec(raw@) == Err::<Seq<char>, Seq<char>>(e@),
        },
{
    proof {
        reveal_strlit("https://");
        reveal_strlit("http://");
    }
    let rv = chars_of(raw);
    let (a, b) = trim_bounds(&rv);
    let value = vec_range(&rv, a, b);
    let ghost lower_s = to_lower(value@);
    if value.len() == 0 {
        return Err("Panel public URL cannot be empty".to_owned());
    }
    if crate::text::utf8_len_exceeds(&value, 512) {
        return Err("Panel public URL is too long (max 512)".to_owned());
    }
    let mut i: usize = 0;
    while i < value.len()
        invariant
            i <= value.len(),
            value@ == trim(raw@),
            value@.len() > 0,
            encode_utf8(value@).len() <= 512,
            forall|j: int| 0 <= j < i ==> !bad_url_char(#[trigger] value@[j]),
        decreases value.len() - i,
    {
        let c = value[i];
        if is_ws_char(c) || c == '<' || c == '>' {
            assert(bad_url_char(value@[i as int]));
            return Err("Panel public URL contains invalid characters".to_owned());
        }
        i += 1;
    }
    let lower = lower_vec(&value);
    let https = chars_of("https://");
    let http = chars_of("http://");
    let k: usize = if match_at(&lower, &https, 0) {
        8
    } else if match_at(&lower, &http, 0) {
        7
    } else {
        return Err(
            "Panel public URL must start with http:// or https:// (example: http://127.0.0.1:2089)".to_owned(),
        );
    };
    assert(k == scheme_len(lower_s));
    if lower.len() == k || lower[k] == '/' {
        return Err("Panel public URL needs a host after the scheme".to_owned());
    }
    let hv = vec_range(&value, k, value.len());
    let e = crate::text::strip_trailing_end(&hv, '/');
    let ghost core = host_part(value@, k as int);
    assert(hv@ =~= value@.skip(k as int));
    let mut j: usize = 0;
    while j < e
        invariant
            e <= hv.len(),
            hv@.take(e as int) == core,
            core == host_part(value@, k as int),
            value@ == trim(raw@),
            value@.len() > 0,
            encode_utf8(value@).len() <= 512,
            forall|m: int| 0 <= m < value@.len() ==> !bad_url_char(#[trigger] value@[m]),
            lower_s == to_lower(value@),
            k == scheme_len(lower_s),
            k > 0,
            lower_s.skip(k as int).len() > 0 && lower_s.skip(k as int)[0] != '/',
            forall|m: int| 0 <= m < j ==> !path_char(#[trigger] core[m]),
        decreases e - j,
    {
        let c = hv[j];
        if c == '/' || c == '?' || c == '#' {
            assert(path_char(core[j as int]));
            return Err(
                "Panel public URL must be scheme + host[:port] only (no path, query, or fragment)".to_owned(),
            );
        }
        j += 1;
    }
    let mut out = if k == 8 { "https".to_owned() } else { "http".to_owned() };
    out.append("://");
    let host = string_of_range(&hv, 0, e);
    out.append(host.as_str());
    Ok(out)
}

/// Law: a validated URL validates to itself.
pub proof fn lemma_public_url_idempotent(raw: Seq<char>)
    requires
        public_url_spec(raw) is Ok,
    ensures
        public_url_spec(public_url_spec(raw)->Ok_0) == public_url_spec(raw),
{
    reveal_strlit("https://");
    reveal_strlit("http://");
    reveal_strlit("https");
    reveal_strlit("http");
    reveal_strlit("://");
    let value = trim(raw);
    let lower = to_lower(value);
    let k = scheme_len(lower);
    let core = host_part(value, k);
    let out = public_url_spec(raw)->Ok_0;
    let n = core.len() as int;
    crate::text::lemma_strip_trailing(value.skip(k), '/');
    assert(value.skip(k)[0] == value[k]);
    assert(lower[k] == crate::text::lower_char(value[k]));
    assert(core.len() > 0);
    assert(forall|i: int| 0 <= i < n ==> core[i] == value[k + i]);
    assert(forall|i: int| 0 <= i < value.len() ==> !bad_url_char(value[i]));
    assert(out =~= lower.take(k) + core);
    assert(lower.take(k) =~= to_lower(value.take(k)));
    assert(core.last() == value[k + n - 1]);
    crate::text::lemma_trim_no_ws(out);
    let lower2 = to_lower(out);
    assert(lower2 =~= lower.take(k) + to_lower(core));
    assert(lower2.take(k) =~= lower.take(k));
    assert(lower2.len() > k);
    if k == 8 {
        assert(lower2.subrange(0, 8) =~= lower.subrange(0, 8));
    } else {
        assert(lower2.subrange(0, 7) =~= lower.subrange(0, 7));
        assert(lower2[4] == lower[4]);
    }
    assert(scheme_len(lower2) == k);
    assert(lower2.skip(k) =~= to_lower(core));
    assert(out.skip(k) =~= core);
    assert(host_part(out, k) == core);
    assert(encode_utf8(out).len() <= encode_utf8(value).len()) by {
        crate::text::lemma_encode_len_split(lower.take(k), value.take(k), core);
        assert(value =~= (value.take(k) + core) + value.skip(k + n));
        crate::text::lemma_encode_add_len(value.take(k) + core, value.skip(k + n));
    }
    assert forall|i: int| 0 <= i < out.len() implies !bad_url_char(#[trigger] out[i]) by {
        if i >= k {
            assert(out[i] == value[i]);
        }
    }
}

/// `url.trim().trim_end_matches('/')`.
pub open spec fn normalize_base_spec(url: Seq<char>) -> Seq<char> {
    crate::text::strip_trailing(trim(url), '/')
}

pub fn normalize_base(url: &str) -> (r: String)
    ensures
        r@ == normalize_base_spec(url@),
{
    let v = chars_of(url);
    let (a, b) = trim_bounds(&v);
    let t = vec_range(&v, a, b);
    let e = crate::text::strip_trailing_end(&t, '/');
    string_of_range(&t, 0, e)
}

/// Loopback base URL for the panel's own listen port (443 and 80 without a port).
pub open spec fn local_listen_base_url_spec(listen_port: u16) -> Seq<char> {
    if listen_port == 443 {
        "https://127.0.0.1"@
    } else if listen_port == 80 {
        "http://127.0.0.1"@
    } else {
        "http://127.0.0.1:"@ + dec(listen_port as nat)
    }
}

pub fn local_listen_base_url(listen_port: u16) -> (r: String)
    ensures
        r@ == local_listen_base_url_spec(listen_port),
{
    if listen_port == 443 {
        "https://127.0.0.1".to_owned()
    } else if listen_port == 80 {
        "http://127.0.0.1".to_owned()
    } else {
        let mut out = "http://127.0.0.1:".to_owned();
        push_dec(&mut out, listen_port as u64);
        out
    }
}

/// Email link bases: the primary base and other ways to reach the panel.
pub struct PanelEmailBases {
    pub primary: String,
    pub alternates: Vec<String>,
}

/// Alternates after the primary: `https://<hostname>` when a hostname is saved and differs
/// from the primary, then the loopback listen URL when it differs from the primary and from
/// every alternate already listed (all compared after `normalize_base`).
pub open spec fn email_alternates_spec(listen_port: u16, primary: Seq<char>, hostname: Option<Seq<char>>) -> Seq<Seq<char>> {
    let p = normalize_base_spec(primary);
    let first = host_alternate_spec(primary, hostname);
    let local = local_listen_base_url_spec(listen_port);
    if normalize_base_spec(local) != p && !(exists|i: int|
        0 <= i < first.len() && normalize_base_spec(#[trigger] first[i]) == normalize_base_spec(local)) {
        first.push(local)
    } else {
        first
    }
}

/// The hostname alternate: `https://<hostname>` when it normalizes differently from the primary.
pub open spec fn host_alternate_spec(primary: Seq<char>, hostname: Option<Seq<char>>) -> Seq<Seq<char>> {
    match hostname {
        Some(h) => if normalize_base_spec("https://"@ + h) != normalize_base_spec(primary) {
            seq!["https://"@ + h]
        } else {
            seq![]
        },
        None => seq![],
    }
}

fn host_alternate(primary_norm: &str, hostname: &Option<String>) -> (r: Option<(String, String)>)
    ensures
        match r {
            Some((u, n)) => host_alternate_spec_n(primary_norm@, crate::text::opt_string_view(hostname)) == seq![u@]
                && n@ == normalize_base_spec(u@),
            None => host_alternate_spec_n(primary_norm@, crate::text::opt_string_view(hostname)) == Seq::<Seq<char>>::empty(),
        },
{
    match hostname {
        Some(h) => {
            let mut https = "https://".to_owned();
            https.append(h.as_str());
            let hn = normalize_base(https.as_str());
            if !str_eq(hn.as_str(), primary_norm) {
                Some((https, hn))
            } else {
                None
            }
        },
        None => None,
    }
}

/// `host_alternate_spec` against an already normalized primary.
pub open spec fn host_alternate_spec_n(primary_norm: Seq<char>, hostname: Option<Seq<char>>) -> Seq<Seq<char>> {
    match hostname {
        Some(h) => if normalize_base_spec("https://"@ + h) != primary_norm {
            seq!["https://"@ + h]
        } else {
            seq![]
        },
        None => seq![],
    }
}


/// Resolve email link bases from the already resolved primary base and saved hostname.
pub fn panel_email_bases(listen_port: u16, primary: String, hostname: Option<String>) -> (r: PanelEmailBases)
    ensures
        r.primary@ == primary@,
        r.alternates@.map_values(|s: String| s@) == email_alternates_spec(
            listen_port,
            primary@,
            crate::text::opt_string_view(&hostname),
        ),
{
    let primary_norm = normalize_base(primary.as_str());
    let mut alternates: Vec<String> = Vec::new();
    let alt = host_alternate(primary_norm.as_str(), &hostname);
    let local = local_listen_base_url(listen_port);
    let local_norm = normalize_base(local.as_str());
    let ghost hv = crate::text::opt_string_view(&hostname);
    let ghost first = host_alternate_spec(primary@, hv);
    assert(first == host_alternate_spec_n(primary_norm@, hv));
    let dup = match &alt {
        Some((u, n)) => str_eq(n.as_str(), local_norm.as_str()),
        None => false,
    };
    match alt {
        Some((u, n)) => {
            alternates.push(u);
        },
        None => {},
    }
    assert(alternates@.map_values(|s: String| s@) =~= first);
    proof {
        if first.len() == 1 {
            assert(dup == (normalize_base_spec(first[0]) == normalize_base_spec(local@)));
            assert(dup == (exists|i: int| 0 <= i < first.len() && normalize_base_spec(#[trigger] first[i])
                == normalize_base_spec(local@)));
        }
    }
    if !str_eq(local_norm.as_str(), primary_norm.as_str()) && !dup {
        alternates.push(local);
    }
    assert(alternates@.map_values(|s: String| s@) =~= email_alternates_spec(listen_port, primary@, hv));
    PanelEmailBases { primary, alternates }
}

/// The file body `save_panel_public_url` writes: the validated URL and a newline.
pub fn panel_public_url_file_body(url: &str) -> (r: Result<String, String>)
    ensures
        match public_url_spec(url@) {
            Ok(v) => r matches Ok(b) && b@ == v + "\n"@,
            Err(e) => r matches Err(m) && m@ == e,
        },
{
    match validate_panel_public_url(url) {
        Ok(v) => {
            let mut body = v;
            body.append("\n");
            Ok(body)
        },
        Err(e) => Err(e),
    }
}

/// Law: a validated base URL starts with `http://` or `https://`, holds no whitespace, does
/// not end in `/`, and has no path, query or fragment after the scheme.
pub proof fn lemma_public_url_shape(raw: Seq<char>)
    requires
        public_url_spec(raw) is Ok,
    ensures
        ({
            let out = public_url_spec(raw)->Ok_0;
            let k: int = if "https://"@.is_prefix_of(out) { 8 } else { 7 };
            &&& "https://"@.is_prefix_of(out) || "http://"@.is_prefix_of(out)
            &&& out.len() > 0 && out.last() != '/'
            &&& forall|i: int| 0 <= i < out.len() ==> !is_ws(#[trigger] out[i])
            &&& forall|i: int| k <= i < out.len() ==> !path_char(#[trigger] out[i])
        }),
{
    reveal_strlit("https://");
    reveal_strlit("http://");
    reveal_strlit("https");
    reveal_strlit("http");
    reveal_strlit("://");
    let value = trim(raw);
    let lower = to_lower(value);
    let k = scheme_len(lower);
    let core = host_part(value, k);
    let out = public_url_spec(raw)->Ok_0;
    let n = core.len() as int;
    crate::text::lemma_strip_trailing(value.skip(k), '/');
    assert(value.skip(k)[0] == value[k]);
    assert(lower[k] == crate::text::lower_char(value[k]));
    assert(core.len() > 0);
    assert(forall|i: int| 0 <= i < n ==> core[i] == value[k + i]);
    assert(forall|i: int| 0 <= i < value.len() ==> !bad_url_char(value[i]));
    assert(out =~= lower.take(k) + core);
    if k == 8 {
        assert(out.subrange(0, 8) =~= "https://"@);
    } else {
        assert(out.subrange(0, 7) =~= "http://"@);
        assert(out[4] == ':');
        assert(!"https://"@.is_prefix_of(out));
    }
    assert(out.last() == core.last());
    assert forall|i: int| 0 <= i < out.len() implies !is_ws(#[trigger] out[i]) by {
        if i >= k {
            assert(out[i] == value[i]);
            assert(!bad_url_char(value[i]));
        } else {
            assert(out[i] == lower[i]);
            assert(lower[i] == crate::text::lower_char(value[i]));
            assert(!bad_url_char(value[i]));
        }
    }
    assert forall|i: int| k <= i < out.len() implies !path_char(#[trigger] out[i]) by {
        assert(out[i] == core[i - k]);
    }
}

} // verus!
