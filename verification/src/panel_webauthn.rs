//! Passkey registration options the panel offers: which kind of authenticator a
//! registration ceremony asks for.

use vstd::prelude::*;
use vstd::string::*;
use crate::text::{
    all_digits, chars_of, find_first, find_last, first_index, is_digit, last_index, lower_str, split_on,
    split_vec, str_eq, string_of_chars, to_lower, trim, trim_bounds, utf8_len_exceeds, vec_range, views,
    dec, dec_string, opt_view, string_views,
};
use crate::proxy_front::{ipv4_spec, parse_ipv4};
use vstd::utf8::encode_utf8;

verus! {

/// The authenticator a registration ceremony asks for.
#[derive(Clone, Copy, Debug, PartialEq, Eq, Structural)]
pub enum RegisterAuthenticatorKind {
    /// No attachment: platform (Windows Hello) and roaming keys both OK.
    Flexible,
    /// Prefer a roaming FIDO2 / YubiKey (silent client retry path).
    SecurityKey,
}

/// `security-key`, `security_key`, `cross-platform`, `yubikey` and `roaming` (trimmed, any
/// ASCII case) ask for a security key; anything else is one flexible ceremony.
pub open spec fn authenticator_kind_spec(raw: Seq<char>) -> RegisterAuthenticatorKind {
    let t = to_lower(trim(raw));
    if t == "security-key"@ || t == "security_key"@ || t == "cross-platform"@ || t == "yubikey"@
        || t == "roaming"@ {
        RegisterAuthenticatorKind::SecurityKey
    } else {
        RegisterAuthenticatorKind::Flexible
    }
}

pub open spec fn authenticator_kind_str(k: RegisterAuthenticatorKind) -> Seq<char> {
    match k {
        RegisterAuthenticatorKind::Flexible => "flexible"@,
        RegisterAuthenticatorKind::SecurityKey => "security-key"@,
    }
}

impl RegisterAuthenticatorKind {
    pub fn parse(raw: &str) -> (r: RegisterAuthenticatorKind)
        ensures
            r == authenticator_kind_spec(raw@),
    {
        let l = crate::text::lower_str(crate::text::trim_str(raw).as_str());
        let t = l.as_str();
        if str_eq(t, "security-key") || str_eq(t, "security_key") || str_eq(t, "cross-platform")
            || str_eq(t, "yubikey") || str_eq(t, "roaming") {
            RegisterAuthenticatorKind::SecurityKey
        } else {
            RegisterAuthenticatorKind::Flexible
        }
    }

    pub fn as_str(self) -> (r: &'static str)
        ensures
            r@ == authenticator_kind_str(self),
    {
        match self {
            RegisterAuthenticatorKind::Flexible => "flexible",
            RegisterAuthenticatorKind::SecurityKey => "security-key",
        }
    }
}

/// Law: a kind's name parses back to the same kind.
pub proof fn lemma_authenticator_kind_round_trip(k: RegisterAuthenticatorKind)
    ensures
        authenticator_kind_spec(authenticator_kind_str(k)) == k,
{
    reveal_strlit("flexible");
    reveal_strlit("security-key");
    reveal_strlit("security_key");
    reveal_strlit("cross-platform");
    reveal_strlit("yubikey");
    reveal_strlit("roaming");
    crate::text::lemma_trim_no_ws(authenticator_kind_str(k));
    assert(to_lower(authenticator_kind_str(k)) =~= authenticator_kind_str(k));
}

/// Longest Host header (in UTF-8 bytes) taken for a relying party.
pub const MAX_HOST_LEN: u64 = 253;

/// `char::is_control`: the C0 and C1 control characters.
pub open spec fn is_control_spec(c: char) -> bool {
    (c as u32) <= 0x1f || (0x7f <= (c as u32) && (c as u32) <= 0x9f)
}

pub open spec fn bad_host_char(c: char) -> bool {
    is_control_spec(c) || c == '/' || c == '\\'
}

/// The trimmed Host header, refused when empty, longer than 253 bytes, or holding a
/// control character, `/` or `\`.
pub open spec fn sanitize_host_spec(raw: Seq<char>) -> Result<Seq<char>, Seq<char>> {
    let host = trim(raw);
    if host.len() == 0 || encode_utf8(host).len() > MAX_HOST_LEN || exists|i: int|
        0 <= i < host.len() && bad_host_char(#[trigger] host[i]) {
        Err("Invalid Host header"@)
    } else {
        Ok(host)
    }
}

fn sanitize_host(raw: &str) -> (r: Result<Vec<char>, String>)
    ensures
        match r {
            Ok(h) => sanitize_host_spec(raw@) == Ok::<Seq<char>, Seq<char>>(h@),
            Err(e) => sanitize_host_spec(raw@) == Err::<Seq<char>, Seq<char>>(e@),
        },
{
    let v = chars_of(raw);
    let (a, b) = trim_bounds(&v);
    let host = vec_range(&v, a, b);
    if host.len() == 0 || utf8_len_exceeds(&host, MAX_HOST_LEN) {
        return Err("Invalid Host header".to_owned());
    }
    let mut i: usize = 0;
    while i < host.len()
        invariant
            i <= host.len(),
            host@ == trim(raw@),
            host.len() > 0,
            encode_utf8(host@).len() <= MAX_HOST_LEN,
            forall|j: int| 0 <= j < i ==> !bad_host_char(#[trigger] host@[j]),
        decreases host.len() - i,
    {
        let c = host[i];
        let u = c as u32;
        if u <= 0x1f || (0x7f <= u && u <= 0x9f) || c == '/' || c == '\\' {
            assert(bad_host_char(host@[i as int]));
            return Err("Invalid Host header".to_owned());
        }
        i += 1;
    }
    Ok(host)
}

/// `[addr]:port` and `[addr]` for bracketed IPv6; otherwise `name:port` at the last `:`
/// when the name is non-empty and the port all ASCII digits; else the whole host.
pub open spec fn split_host_port_spec(host: Seq<char>) -> (Seq<char>, Option<Seq<char>>) {
    let bracket = host.len() > 0 && host[0] == '[';
    let rest = host.drop_first();
    if bracket && first_index(rest, "]:"@) is Some {
        let k = first_index(rest, "]:"@)->0;
        (rest.take(k), Some(rest.skip(k + 2)))
    } else if bracket && rest.len() > 0 && rest.last() == ']' {
        (rest.drop_last(), None)
    } else {
        split_last_colon(host)
    }
}

pub open spec fn split_last_colon(host: Seq<char>) -> (Seq<char>, Option<Seq<char>>) {
    match last_index(host, ":"@) {
        Some(k) => if k > 0 && all_digits(host.skip(k + 1)) {
            (host.take(k), Some(host.skip(k + 1)))
        } else {
            (host, None)
        },
        None => (host, None),
    }
}

fn all_digits_vec(v: &Vec<char>) -> (r: bool)
    ensures
        r == all_digits(v@),
{
    let mut i: usize = 0;
    while i < v.len()
        invariant
            i <= v.len(),
            forall|j: int| 0 <= j < i ==> is_digit(#[trigger] v@[j]),
        decreases v.len() - i,
    {
        let u = v[i] as u32;
        if !(48 <= u && u <= 57) {
            assert(!is_digit(v@[i as int]));
            return false;
        }
        i += 1;
    }
    true
}

fn split_host_port(host: &Vec<char>) -> (r: (Vec<char>, Option<Vec<char>>))
    ensures
        (r.0@, match r.1 { Some(p) => Some(p@), None => None::<Seq<char>> }) == split_host_port_spec(host@),
{
    proof {
        reveal_strlit("]:");
        reveal_strlit(":");
    }
    if host.len() > 0 && host[0] == '[' {
        let rest = vec_range(host, 1, host.len());
        assert(rest@ =~= host@.drop_first());
        let pat = chars_of("]:");
        match find_first(&rest, &pat) {
            Some(k) => {
                let addr = vec_range(&rest, 0, k);
                let port = vec_range(&rest, k + 2, rest.len());
                assert(addr@ =~= rest@.take(k as int));
                assert(port@ =~= rest@.skip(k + 2));
                return (addr, Some(port));
            },
            None => {},
        }
        if rest.len() > 0 && rest[rest.len() - 1] == ']' {
            let addr = vec_range(&rest, 0, rest.len() - 1);
            assert(addr@ =~= rest@.drop_last());
            return (addr, None);
        }
    }
    let colon = chars_of(":");
    match find_last(host, &colon) {
        Some(k) => {
            let port = vec_range(host, k + 1, host.len());
            assert(port@ =~= host@.skip(k + 1));
            if k > 0 && all_digits_vec(&port) {
                let name = vec_range(host, 0, k);
                assert(name@ =~= host@.take(k as int));
                (name, Some(port))
            } else {
                (host.clone(), None)
            }
        },
        None => (host.clone(), None),
    }
}

/// `localhost`, `127.0.0.1`, `::1` or `0:0:0:0:0:0:0:1`, in any ASCII case.
pub open spec fn is_loopback_spec(h: Seq<char>) -> bool {
    let l = to_lower(h);
    l == "localhost"@ || l == "127.0.0.1"@ || l == "::1"@ || l == "0:0:0:0:0:0:0:1"@
}

fn is_loopback_host(h: &str) -> (r: bool)
    ensures
        r == is_loopback_spec(h@),
{
    let l = lower_str(h);
    let t = l.as_str();
    str_eq(t, "localhost") || str_eq(t, "127.0.0.1") || str_eq(t, "::1") || str_eq(t, "0:0:0:0:0:0:0:1")
}

pub open spec fn is_hex_digit(c: char) -> bool {
    ('0' <= c && c <= '9') || ('a' <= c && c <= 'f') || ('A' <= c && c <= 'F')
}

/// One IPv6 group as `Ipv6Addr` reads it: 1 to 4 hex digits.
pub open spec fn hex_group(g: Seq<char>) -> bool {
    1 <= g.len() <= 4 && forall|i: int| 0 <= i < g.len() ==> is_hex_digit(#[trigger] g[i])
}

pub open spec fn all_hex_groups(ps: Seq<Seq<char>>) -> bool {
    forall|i: int| 0 <= i < ps.len() ==> hex_group(#[trigger] ps[i])
}

/// How many 16-bit groups a `:`-separated run of hex groups stands for, where the last
/// piece may instead be a dotted IPv4 address (two groups); `None` when malformed.
pub open spec fn group_run(s: Seq<char>, ipv4_tail: bool) -> Option<nat> {
    let ps = split_on(s, ':');
    if s.len() == 0 {
        Some(0)
    } else if all_hex_groups(ps) {
        Some(ps.len())
    } else if ipv4_tail && all_hex_groups(ps.drop_last()) && ipv4_spec(ps.last()) is Some {
        Some(ps.len() + 1)
    } else {
        None
    }
}

/// `s.parse::<Ipv6Addr>()` succeeds: eight groups, or a `::` standing for at least one
/// zero group with at most seven groups around it; a dotted IPv4 tail counts as two
/// groups and may not stand before the `::`.
pub open spec fn ipv6_spec(s: Seq<char>) -> bool {
    match first_index(s, "::"@) {
        None => s.len() > 0 && group_run(s, true) == Some(8nat),
        Some(k) => match (group_run(s.take(k), false), group_run(s.skip(k + 2), true)) {
            (Some(h), Some(t)) => h + t <= 7,
            _ => false,
        },
    }
}

/// An IP literal as `str::parse::<IpAddr>` takes it.
pub open spec fn ip_literal_spec(s: Seq<char>) -> bool {
    ipv4_spec(s) is Some || ipv6_spec(s)
}

fn hex_group_vec(g: &Vec<char>) -> (r: bool)
    ensures
        r == hex_group(g@),
{
    if g.len() < 1 || g.len() > 4 {
        return false;
    }
    let mut i: usize = 0;
    while i < g.len()
        invariant
            i <= g.len(),
            forall|j: int| 0 <= j < i ==> is_hex_digit(#[trigger] g@[j]),
        decreases g.len() - i,
    {
        let c = g[i];
        if !(('0' <= c && c <= '9') || ('a' <= c && c <= 'f') || ('A' <= c && c <= 'F')) {
            return false;
        }
        i += 1;
    }
    true
}

fn all_hex_prefix(ps: &Vec<Vec<char>>, n: usize) -> (r: bool)
    requires
        n <= ps.len(),
    ensures
        r == all_hex_groups(views(ps@).take(n as int)),
{
    let mut i: usize = 0;
    while i < n
        invariant
            i <= n <= ps.len(),
            forall|j: int| 0 <= j < i ==> hex_group(#[trigger] views(ps@)[j]),
        decreases n - i,
    {
        if !hex_group_vec(&ps[i]) {
            assert(views(ps@).take(n as int)[i as int] == views(ps@)[i as int]);
            return false;
        }
        i += 1;
    }
    assert(forall|j: int| 0 <= j < n ==> views(ps@).take(n as int)[j] == views(ps@)[j]);
    true
}

fn group_run_of(s: &Vec<char>, ipv4_tail: bool) -> (r: Option<u64>)
    ensures
        match r {
            Some(n) => match group_run(s@, ipv4_tail) {
                Some(m) => if m <= 8 { n == m } else { n == 9 },
                None => false,
            },
            None => group_run(s@, ipv4_tail) is None,
        },
{
    if s.len() == 0 {
        return Some(0);
    }
    let ps = split_vec(s, ':');
    proof {
        crate::text::lemma_split_on_nonempty(s@, ':');
    }
    let n = ps.len();
    assert(views(ps@).take(n as int) =~= views(ps@));
    if all_hex_prefix(&ps, n) {
        return Some(if n > 8 { 9 } else { n as u64 });
    }
    if ipv4_tail {
        assert(views(ps@).take(n - 1) =~= views(ps@).drop_last());
        if all_hex_prefix(&ps, n - 1) {
            let last = string_of_chars(&ps[n - 1]);
            if parse_ipv4(last.as_str()).is_some() {
                return Some(if n > 7 { 9 } else { n as u64 + 1 });
            }
        }
    }
    None
}

fn is_ipv6(s: &Vec<char>) -> (r: bool)
    ensures
        r == ipv6_spec(s@),
{
    proof {
        reveal_strlit("::");
    }
    let pat = chars_of("::");
    match find_first(s, &pat) {
        None => s.len() > 0 && group_run_of(s, true) == Some(8u64),
        Some(k) => {
            let head = vec_range(s, 0, k);
            let tail = vec_range(s, k + 2, s.len());
            assert(head@ =~= s@.take(k as int));
            assert(tail@ =~= s@.skip(k + 2));
            match (group_run_of(&head, false), group_run_of(&tail, true)) {
                (Some(h), Some(t)) => h <= 7 && t <= 7 - h,
                _ => false,
            }
        },
    }
}

fn is_ip_literal(s: &Vec<char>) -> (r: bool)
    ensures
        r == ip_literal_spec(s@),
{
    let text = string_of_chars(s);
    parse_ipv4(text.as_str()).is_some() || is_ipv6(s)
}

/// A URL as the relying party reads it: its serialization, scheme, host and explicit
/// (non-default) port.
pub struct ParsedUrl {
    pub serialized: String,
    pub scheme: String,
    pub host: Option<String>,
    pub port: Option<u16>,
}

/// What `url::Url::parse` gives for a text: on success the URL's `as_str()`, `scheme()`,
/// `host_str()` and `port()`; on failure the error's message.
pub uninterp spec fn url_parse(input: Seq<char>) -> Result<(Seq<char>, Seq<char>, Option<Seq<char>>, Option<u16>), Seq<char>>;

pub open spec fn parsed_view(u: ParsedUrl) -> (Seq<char>, Seq<char>, Option<Seq<char>>, Option<u16>) {
    (u.serialized@, u.scheme@, match u.host { Some(h) => Some(h@), None => None }, u.port)
}

/// `url::Url::parse(input)`, read into plain values. The contract claims only that the
/// result is the one named by `url_parse` for the same text; what the WHATWG parser
/// accepts and how it serialises is not stated.
#[verifier::external_body]
fn parse_url(input: &str) -> (r: Result<ParsedUrl, String>)
    ensures
        match r {
            Ok(u) => url_parse(input@) == Ok::<_, Seq<char>>(parsed_view(u)),
            Err(e) => url_parse(input@) == Err::<(Seq<char>, Seq<char>, Option<Seq<char>>, Option<u16>), Seq<char>>(e@),
        },
{
    match url::Url::parse(input) {
        Ok(u) => {
            let host = match u.host_str() {
                Some(h) => Some(h.to_string()),
                None => None,
            };
            Ok(ParsedUrl { serialized: u.as_str().to_string(), scheme: u.scheme().to_string(), host, port: u.port() })
        },
        Err(e) => Err(e.to_string()),
    }
}

/// `scheme://host`, with `:port` when a non-empty port is given.
pub open spec fn origin_input(scheme: Seq<char>, host: Seq<char>, port: Option<Seq<char>>) -> Seq<char> {
    match port {
        Some(p) => if p.len() > 0 {
            scheme + "://"@ + host + ":"@ + p
        } else {
            scheme + "://"@ + host
        },
        None => scheme + "://"@ + host,
    }
}

fn origin_url(scheme: &str, host: &str, port: &Option<String>) -> (r: Result<ParsedUrl, String>)
    ensures
        match r {
            Ok(u) => url_parse(origin_input(scheme@, host@, match port { Some(p) => Some(p@), None => None }))
                == Ok::<_, Seq<char>>(parsed_view(u)),
            Err(e) => url_parse(origin_input(scheme@, host@, match port { Some(p) => Some(p@), None => None }))
                == Err::<(Seq<char>, Seq<char>, Option<Seq<char>>, Option<u16>), Seq<char>>(e@),
        },
{
    let mut text = scheme.to_owned();
    text.append("://");
    text.append(host);
    match port {
        Some(p) => {
            if p.as_str().unicode_len() > 0 {
                text.append(":");
                text.append(p.as_str());
            }
        },
        None => {},
    }
    parse_url(text.as_str())
}

/// The origin an alternative host spelling gives, unless it does not parse or equals
/// `skip`.
pub open spec fn alt_origin(scheme: Seq<char>, alt: Seq<char>, port: Option<Seq<char>>, skip: Option<Seq<char>>) -> Seq<Seq<char>> {
    match url_parse(origin_input(scheme, alt, port)) {
        Ok(u) => if skip == Some(u.0) {
            Seq::empty()
        } else {
            seq![u.0]
        },
        Err(_) => Seq::empty(),
    }
}

/// The origins of the loopback spellings `localhost`, `127.0.0.1` and `[::1]`.
pub open spec fn loopback_alts(scheme: Seq<char>, port: Option<Seq<char>>, skip: Option<Seq<char>>) -> Seq<Seq<char>> {
    alt_origin(scheme, "localhost"@, port, skip) + alt_origin(scheme, "127.0.0.1"@, port, skip) + alt_origin(
        scheme,
        "[::1]"@,
        port,
        skip,
    )
}

pub open spec fn port_text(p: Option<u16>) -> Option<Seq<char>> {
    match p {
        Some(n) => Some(dec(n as nat)),
        None => None,
    }
}

/// The configured public panel URL's origin, and for a loopback host the loopback
/// spellings on its scheme and port.
pub open spec fn public_origins(public_url: Option<Seq<char>>) -> Seq<Seq<char>> {
    match public_url {
        None => Seq::empty(),
        Some(p) => match url_parse(p) {
            Err(_) => Seq::empty(),
            Ok(u) => seq![u.0] + match u.2 {
                Some(h) => if is_loopback_spec(h) {
                    loopback_alts(u.1, port_text(u.3), None)
                } else {
                    Seq::empty()
                },
                None => Seq::empty(),
            },
        },
    }
}

pub open spec fn host_or_default(host_header: Option<Seq<char>>) -> Seq<char> {
    match host_header {
        Some(h) => h,
        None => "127.0.0.1"@,
    }
}

pub open spec fn opt_seq(o: Option<Vec<char>>) -> Option<Seq<char>> {
    match o {
        Some(v) => Some(v@),
        None => None,
    }
}

/// The relying party for a request: its RP ID (`localhost` for loopback hosts, else the
/// host without port) and its allowed origins, the primary first.
pub open spec fn relying_party_spec(host_header: Option<Seq<char>>, https: bool, public_url: Option<Seq<char>>) -> Result<
    (Seq<char>, Seq<Seq<char>>),
    Seq<char>,
> {
    match sanitize_host_spec(host_or_default(host_header)) {
        Err(e) => Err(e),
        Ok(host) => rp_for_host(split_host_port_spec(host).0, split_host_port_spec(host).1, https, public_url),
    }
}

pub open spec fn scheme_of(https: bool) -> Seq<char> {
    if https {
        "https"@
    } else {
        "http"@
    }
}

pub open spec fn rp_id_of(host_no_port: Seq<char>) -> Seq<char> {
    if is_loopback_spec(host_no_port) {
        "localhost"@
    } else {
        host_no_port
    }
}

pub open spec fn rp_for_host(host_no_port: Seq<char>, port: Option<Seq<char>>, https: bool, public_url: Option<Seq<char>>) -> Result<
    (Seq<char>, Seq<Seq<char>>),
    Seq<char>,
> {
    if host_no_port.len() == 0 {
        Err("Could not derive WebAuthn RP ID"@)
    } else if ip_literal_spec(host_no_port) && !is_loopback_spec(host_no_port) {
        Err("Passkeys require a hostname. Use a domain name or localhost (not a public IP)."@)
    } else {
        match url_parse(origin_input(scheme_of(https), rp_id_of(host_no_port), port)) {
            Err(e) => Err("Invalid origin URL: "@ + e),
            Ok(u) => Ok(
                (
                    rp_id_of(host_no_port),
                    seq![u.0] + (if is_loopback_spec(host_no_port) {
                        loopback_alts(scheme_of(https), port, Some(u.0))
                    } else {
                        Seq::empty()
                    }) + public_origins(public_url),
                ),
            ),
        }
    }
}

/// The relying party a request's passkey ceremonies run under.
pub struct RelyingParty {
    /// RP ID: `localhost` for loopback hosts, else the request host without its port.
    pub rp_id: String,
    /// Allowed origins, the primary one first.
    pub origins: Vec<String>,
}

fn push_alt(origins: &mut Vec<String>, scheme: &str, alt: &str, port: &Option<String>, skip: &Option<String>)
    ensures
        string_views(final(origins)@) == string_views(old(origins)@) + alt_origin(
            scheme@,
            alt@,
            match port { Some(p) => Some(p@), None => None },
            match skip { Some(p) => Some(p@), None => None },
        ),
{
    match origin_url(scheme, alt, port) {
        Ok(u) => {
            let same = match skip {
                Some(k) => str_eq(k.as_str(), u.serialized.as_str()),
                None => false,
            };
            if !same {
                origins.push(u.serialized);
                assert(string_views(origins@) =~= string_views(old(origins)@).push(parsed_view(u).0));
            } else {
                assert(string_views(origins@) =~= string_views(old(origins)@));
            }
        },
        Err(_) => {
            assert(string_views(origins@) =~= string_views(old(origins)@));
        },
    }
}

fn push_loopback_alts(origins: &mut Vec<String>, scheme: &str, port: &Option<String>, skip: &Option<String>)
    ensures
        string_views(final(origins)@) == string_views(old(origins)@) + loopback_alts(
            scheme@,
            match port { Some(p) => Some(p@), None => None },
            match skip { Some(p) => Some(p@), None => None },
        ),
{
    push_alt(origins, scheme, "localhost", port, skip);
    push_alt(origins, scheme, "127.0.0.1", port, skip);
    push_alt(origins, scheme, "[::1]", port, skip);
    assert(string_views(origins@) =~= string_views(old(origins)@) + loopback_alts(
        scheme@,
        match port { Some(p) => Some(p@), None => None },
        match skip { Some(p) => Some(p@), None => None },
    ));
}

fn push_public_origins(origins: &mut Vec<String>, public_url: Option<&str>)
    ensures
        string_views(final(origins)@) == string_views(old(origins)@) + public_origins(opt_view(public_url)),
{
    let p = match public_url {
        Some(p) => p,
        None => {
            assert(string_views(origins@) =~= string_views(old(origins)@) + public_origins(opt_view(public_url)));
            return;
        },
    };
    match parse_url(p) {
        Err(_) => {
            assert(string_views(origins@) =~= string_views(old(origins)@) + public_origins(opt_view(public_url)));
        },
        Ok(u) => {
            let ghost pv = parsed_view(u);
            origins.push(u.serialized);
            let ghost mid = string_views(origins@);
            assert(mid =~= string_views(old(origins)@) + seq![pv.0]);
            let loop_host = match &u.host {
                Some(h) => is_loopback_host(h.as_str()),
                None => false,
            };
            if loop_host {
                let port = match u.port {
                    Some(n) => Some(dec_string(n as u64)),
                    None => None,
                };
                let none: Option<String> = None;
                push_loopback_alts(origins, u.scheme.as_str(), &port, &none);
            }
            assert(string_views(origins@) =~= string_views(old(origins)@) + public_origins(opt_view(public_url)));
        },
    }
}

/// Plans the relying party for a request's Host header: refuses a bad header or a public
/// IP, uses RP ID `localhost` for loopback hosts and also allows the other loopback
/// spellings, and appends the configured public panel URL's origin.
pub fn webauthn_for_request(host_header: Option<&str>, https: bool, public_url: Option<&str>) -> (r: Result<RelyingParty, String>)
    ensures
        match r {
            Ok(rp) => relying_party_spec(opt_view(host_header), https, opt_view(public_url)) == Ok::<_, Seq<char>>(
                (rp.rp_id@, string_views(rp.origins@)),
            ),
            Err(e) => relying_party_spec(opt_view(host_header), https, opt_view(public_url)) == Err::<
                (Seq<char>, Seq<Seq<char>>),
                Seq<char>,
            >(e@),
        },
{
    proof {
        reveal_strlit("127.0.0.1");
    }
    let raw = match host_header {
        Some(h) => h,
        None => "127.0.0.1",
    };
    let host = match sanitize_host(raw) {
        Ok(h) => h,
        Err(e) => return Err(e),
    };
    let (hnp, port_v) = split_host_port(&host);
    if hnp.len() == 0 {
        return Err("Could not derive WebAuthn RP ID".to_owned());
    }
    let hnp_s = string_of_chars(&hnp);
    let loopback = is_loopback_host(hnp_s.as_str());
    if is_ip_literal(&hnp) && !loopback {
        return Err("Passkeys require a hostname. Use a domain name or localhost (not a public IP).".to_owned());
    }
    let scheme = if https { "https" } else { "http" };
    let rp_id = if loopback { "localhost".to_owned() } else { hnp_s };
    let port: Option<String> = match &port_v {
        Some(p) => Some(string_of_chars(p)),
        None => None,
    };
    let primary = match origin_url(scheme, rp_id.as_str(), &port) {
        Ok(u) => u,
        Err(e) => {
            let mut m = "Invalid origin URL: ".to_owned();
            m.append(e.as_str());
            return Err(m);
        },
    };
    let ghost pv = parsed_view(primary);
    let skip = Some(primary.serialized.clone());
    let mut origins: Vec<String> = Vec::new();
    origins.push(primary.serialized);
    if loopback {
        push_loopback_alts(&mut origins, scheme, &port, &skip);
    }
    push_public_origins(&mut origins, public_url);
    proof {
        assert(string_views(origins@) =~= seq![pv.0] + (if is_loopback_spec(hnp@) {
            loopback_alts(scheme_of(https), opt_seq(port_v), Some(pv.0))
        } else {
            Seq::empty()
        }) + public_origins(opt_view(public_url)));
    }
    Ok(RelyingParty { rp_id, origins })
}

proof fn lemma_split_without_sep(s: Seq<char>, sep: char)
    requires
        forall|i: int| 0 <= i < s.len() ==> s[i] != sep,
    ensures
        split_on(s, sep) == seq![s],
    decreases s.len(),
{
    if s.len() > 0 {
        let d = s.drop_last();
        assert forall|i: int| 0 <= i < d.len() implies d[i] != sep by {
            assert(d[i] == s[i]);
        }
        lemma_split_without_sep(d, sep);
        assert(s.last() == s[s.len() - 1]);
        assert(d.push(s.last()) =~= s);
        assert(seq![d].update(0, d.push(s.last())) =~= seq![s]);
    } else {
        assert(s =~= Seq::<char>::empty());
    }
}

/// Law: the RP ID of a planned relying party is never an IP literal, since passkey RP IDs
/// must be domain names.
pub proof fn lemma_rp_id_is_not_ip(host_header: Option<Seq<char>>, https: bool, public_url: Option<Seq<char>>)
    requires
        relying_party_spec(host_header, https, public_url) is Ok,
    ensures
        !ip_literal_spec(relying_party_spec(host_header, https, public_url)->Ok_0.0),
{
    let host = sanitize_host_spec(host_or_default(host_header))->Ok_0;
    let hnp = split_host_port_spec(host).0;
    if is_loopback_spec(hnp) {
        let l = "localhost"@;
        reveal_strlit("localhost");
        reveal_strlit("::");
        assert(l.len() == 9);
        lemma_split_without_sep(l, '.');
        lemma_split_without_sep(l, ':');
        assert(split_on(l, '.').len() == 1);
        crate::text::lemma_first_index_bound(l, "::"@);
        if first_index(l, "::"@) is Some {
            let k = first_index(l, "::"@)->0;
            assert(crate::text::occurs_at(l, "::"@, k));
            assert(l[k] == "::"@[0]);
        }
        assert(!is_hex_digit(l[0]));
        assert(!hex_group(l));
        assert(split_on(l, ':')[0] == l);
        assert(!all_hex_groups(split_on(l, ':')));
        assert(ipv4_spec(l) is None);
        assert(!ipv6_spec(l));
    }
}

/// The 16 bytes of a panel user's passkey handle: the first half of
/// SHA-256(`cpn-passkey-user|` + lower-cased name), with UUID version 5 and RFC 4122
/// variant bits set.
pub open spec fn user_uuid_spec(username: Seq<char>) -> Seq<u8> {
    let d = crate::release_verify::spec_sha256(encode_utf8("cpn-passkey-user|"@ + to_lower(username)));
    d.take(16).update(6, (d[6] & 0x0f) | 0x50).update(8, (d[8] & 0x3f) | 0x80)
}

/// Stable user handle bytes for a panel username (the same name in any ASCII case gives
/// the same handle).
pub fn user_uuid(username: &str) -> (r: Vec<u8>)
    ensures
        r@ == user_uuid_spec(username@),
        r@.len() == 16,
{
    let mut text = "cpn-passkey-user|".to_owned();
    let l = lower_str(username);
    text.append(l.as_str());
    let d = crate::release_verify::sha256_digest(text.as_str().as_bytes());
    let mut out: Vec<u8> = Vec::new();
    let mut i: usize = 0;
    while i < 16
        invariant
            d@.len() == 32,
            i <= 16,
            out@ == d@.take(i as int),
        decreases 16 - i,
    {
        out.push(d[i]);
        assert(d@.take(i + 1) =~= d@.take(i as int).push(d@[i as int]));
        i += 1;
    }
    let b6 = (d[6] & 0x0f) | 0x50;
    let b8 = (d[8] & 0x3f) | 0x80;
    out.set(6, b6);
    out.set(8, b8);
    out
}

} // verus!
