//! Panel session cookies: `username|expiry|signature` signed with HMAC-SHA256 and
//! carried as URL-safe base64 without padding.

use vstd::prelude::*;
use vstd::string::*;
use vstd::utf8::*;
use crate::text::{
    contains_seq, eq_ignore_case, eq_ignore_case_str, lemma_split_first, lemma_split_on_nonempty,
    match_at, occurs_at, opt_view, split_on, split_vec, trim, trim_bounds, views,
    chars_of, dec, find_char, hex_lower, hex_string, idx_of, lemma_dec_digits,
    lemma_idx_of_concat, lemma_parse_dec, parse_u64, parse_u64_spec, push_dec, string_of_range,
};

verus! {

pub const SESSION_COOKIE: &'static str = "cpn_panel_session";

pub const SESSION_TTL_SECONDS: u64 = 60 * 60 * 12;

/// The HMAC-SHA256 tag of `msg` under `key`.
pub uninterp spec fn spec_hmac_sha256(key: Seq<u8>, msg: Seq<u8>) -> Seq<u8>;

/// `Hmac<Sha256>::new_from_slice(key)`, `update(msg)`, `finalize()`: claims that the
/// tag is the value named by `spec_hmac_sha256` on the two byte strings, and is 32 bytes long.
#[verifier::external_body]
pub(crate) fn hmac_sha256(key: &[u8], msg: &[u8]) -> (r: Vec<u8>)
    ensures
        r@ == spec_hmac_sha256(key@, msg@),
        r@.len() == 32,
{
    let mut mac: hmac::Hmac<sha2::Sha256> = hmac::Mac::new_from_slice(key).expect(
        "HMAC accepts any key length",
    );
    hmac::Mac::update(&mut mac, msg);
    hmac::Mac::finalize(mac).into_bytes().to_vec()
}

/// URL-safe base64 without padding of a byte string.
pub uninterp spec fn spec_b64url_encode(b: Seq<u8>) -> Seq<char>;

/// Decoding of URL-safe unpadded base64 (`None` on malformed input).
pub uninterp spec fn spec_b64url_decode(s: Seq<char>) -> Option<Seq<u8>>;

/// `URL_SAFE_NO_PAD.encode(bytes)`: claims the text is the value named by `spec_b64url_encode`.
#[verifier::external_body]
pub(crate) fn b64url_encode(bytes: &[u8]) -> (r: String)
    ensures
        r@ == spec_b64url_encode(bytes@),
{
    base64::Engine::encode(&base64::engine::general_purpose::URL_SAFE_NO_PAD, bytes)
}

/// `URL_SAFE_NO_PAD.decode(text).ok()`: claims the result is the value named by
/// `spec_b64url_decode`, and that the encoding of any byte string decodes back to it
/// (the engine requires canonical trailing bits and no padding).
#[verifier::external_body]
pub(crate) fn b64url_decode(text: &str) -> (r: Option<Vec<u8>>)
    ensures
        r is Some <==> spec_b64url_decode(text@) is Some,
        r matches Some(v) ==> spec_b64url_decode(text@) == Some(v@),
        r is None ==> forall|b: Seq<u8>| #[trigger] spec_b64url_encode(b) != text@,
        r matches Some(v) ==> forall|b: Seq<u8>| #[trigger] spec_b64url_encode(b) == text@ ==> v@ == b,
{
    base64::Engine::decode(&base64::engine::general_purpose::URL_SAFE_NO_PAD, text.as_bytes()).ok()
}

/// `String::from_utf8(bytes).ok()`: `Some` exactly for valid UTF-8, with the decoded text.
#[verifier::external_body]
pub(crate) fn string_from_utf8(bytes: Vec<u8>) -> (r: Option<String>)
    ensures
        r is Some <==> valid_utf8(bytes@),
        r matches Some(s) ==> s@ == decode_utf8(bytes@),
{
    String::from_utf8(bytes).ok()
}

/// Lower-case hex HMAC-SHA256 of `payload` under `secret` (both taken as UTF-8).
pub open spec fn hmac_hex_spec(secret: Seq<char>, payload: Seq<char>) -> Seq<char> {
    hex_lower(spec_hmac_sha256(encode_utf8(secret), encode_utf8(payload)))
}

pub fn hmac_hex(secret: &str, payload: &str) -> (r: String)
    ensures
        r@ == hmac_hex_spec(secret@, payload@),
{
    let tag = hmac_sha256(secret.as_bytes(), payload.as_bytes());
    hex_string(tag.as_slice())
}

/// Byte-wise comparison that always walks the whole input (no early exit on a mismatch).
pub fn constant_time_eq(a: &str, b: &str) -> (r: bool)
    ensures
        r == (a@ == b@),
{
    let x = a.as_bytes();
    let y = b.as_bytes();
    proof {
        broadcast use vstd::utf8::encode_utf8_decode_utf8;
        assert(decode_utf8(encode_utf8(a@)) == a@);
        assert(decode_utf8(encode_utf8(b@)) == b@);
    }
    if x.len() != y.len() {
        return false;
    }
    let mut diff: u8 = 0;
    let mut i: usize = 0;
    while i < x.len()
        invariant
            i <= x.len() == y.len(),
            (diff == 0) == (forall|k: int| 0 <= k < i ==> x@[k] == y@[k]),
        decreases x.len() - i,
    {
        let l = x[i];
        let m = y[i];
        let nd = diff | (l ^ m);
        assert(((diff | (l ^ m)) == 0) == (diff == 0 && l == m)) by (bit_vector);
        diff = nd;
        i += 1;
    }
    let r = diff == 0;
    proof {
        if r {
            assert(x@ =~= y@);
        }
    }
    r
}

/// The signed part of a session: `username|expiry`.
pub open spec fn session_payload(username: Seq<char>, exp: nat) -> Seq<char> {
    username + "|"@ + dec(exp)
}

/// The decoded session text: `username|expiry|hex(hmac(secret, username|expiry))`.
pub open spec fn session_plain(username: Seq<char>, secret: Seq<char>, exp: nat) -> Seq<char> {
    session_payload(username, exp) + "|"@ + hmac_hex_spec(secret, session_payload(username, exp))
}

/// The cookie value minted at time `now`: expiry is `now + SESSION_TTL_SECONDS`.
pub open spec fn session_token_spec(username: Seq<char>, secret: Seq<char>, now: nat) -> Seq<char> {
    spec_b64url_encode(encode_utf8(session_plain(username, secret, (now + SESSION_TTL_SECONDS) as nat)))
}

/// What `verify_session_token` accepts once the token is decoded to text:
/// `splitn(3, '|')` into user, expiry and signature; non-empty user; expiry parses
/// as `u64` and is not before `now`; signature equals the recomputed HMAC.
pub open spec fn verify_plain_spec(d: Seq<char>, secret: Seq<char>, now: u64) -> Option<Seq<char>> {
    match idx_of(d, '|') {
        None => None,
        Some(i) => {
            let rest = d.skip(i + 1);
            match idx_of(rest, '|') {
                None => None,
                Some(j) => {
                    let user = d.take(i);
                    let sig = rest.skip(j + 1);
                    match parse_u64_spec(rest.take(j)) {
                        None => None,
                        Some(exp) => if user.len() == 0 || exp < now || sig != hmac_hex_spec(
                            secret,
                            session_payload(user, exp as nat),
                        ) {
                            None
                        } else {
                            Some(user)
                        },
                    }
                },
            }
        },
    }
}

/// A user name the session format can carry: non-empty and without `|`.
pub open spec fn session_user_ok(u: Seq<char>) -> bool {
    u.len() > 0 && forall|j: int| 0 <= j < u.len() ==> u[j] != '|'
}

/// The signed text for `username` expiring at `exp`.
pub fn session_token_plain(username: &str, secret: &str, exp: u64) -> (r: String)
    ensures
        r@ == session_plain(username@, secret@, exp as nat),
{
    let mut payload = username.to_owned();
    payload.append("|");
    push_dec(&mut payload, exp);
    let sig = hmac_hex(secret, payload.as_str());
    let mut out = payload.clone();
    out.append("|");
    out.append(sig.as_str());
    out
}

/// Mint a session cookie value for `username`, valid until `now + SESSION_TTL_SECONDS`.
pub fn create_session_token(username: &str, secret: &str, now: u64) -> (r: String)
    requires
        now <= u64::MAX - SESSION_TTL_SECONDS,
    ensures
        r@ == session_token_spec(username@, secret@, now as nat),
{
    let exp = now + SESSION_TTL_SECONDS;
    let plain = session_token_plain(username, secret, exp);
    b64url_encode(plain.as_str().as_bytes())
}

/// Check decoded session text against `secret` at time `now`; the user name when valid.
pub fn verify_session_plain(plain: &str, secret: &str, now: u64) -> (r: Option<String>)
    ensures
        match r {
            Some(u) => verify_plain_spec(plain@, secret@, now) == Some(u@),
            None => verify_plain_spec(plain@, secret@, now) is None,
        },
{
    let v = chars_of(plain);
    assert(v@.skip(0) =~= v@);
    let i = match find_char(&v, '|', 0) {
        Some(i) => i,
        None => return None,
    };
    assert(idx_of(plain@, '|') == Some(i as int));
    let ghost rest = plain@.skip(i + 1);
    let j = match find_char(&v, '|', i + 1) {
        Some(j) => j,
        None => {
            assert(idx_of(rest, '|') is None);
            return None;
        },
    };
    let ghost jr = (j - (i + 1)) as int;
    assert(idx_of(rest, '|') == Some(jr));
    assert(rest.take(jr) =~= v@.subrange(i + 1, j as int));
    assert(rest.skip(jr + 1) =~= v@.subrange(j + 1, v@.len() as int));
    assert(v@.take(i as int) =~= v@.subrange(0, i as int));
    let exp_raw = string_of_range(&v, i + 1, j);
    let exp = match parse_u64(exp_raw.as_str()) {
        Some(e) => e,
        None => return None,
    };
    if i == 0 {
        return None;
    }
    if exp < now {
        return None;
    }
    let user = string_of_range(&v, 0, i);
    let mut payload = user.clone();
    payload.append("|");
    push_dec(&mut payload, exp);
    let expected = hmac_hex(secret, payload.as_str());
    let sig = string_of_range(&v, j + 1, v.len());
    if !constant_time_eq(sig.as_str(), expected.as_str()) {
        return None;
    }
    Some(user)
}

/// Law: text minted by `session_token_plain` verifies back to its user until expiry.
pub proof fn lemma_session_plain_round_trip(u: Seq<char>, secret: Seq<char>, exp: u64, now: u64)
    requires
        session_user_ok(u),
        now <= exp,
    ensures
        verify_plain_spec(session_plain(u, secret, exp as nat), secret, now) == Some(u),
{
    reveal_strlit("|");
    let d = session_plain(u, secret, exp as nat);
    let e = dec(exp as nat);
    let h = hmac_hex_spec(secret, session_payload(u, exp as nat));
    let tail = seq!['|'] + e + seq!['|'] + h;
    lemma_dec_digits(exp as nat);
    lemma_parse_dec(exp);
    assert(d =~= u + tail);
    lemma_idx_of_concat(u, tail, '|');
    assert(idx_of(d, '|') == Some(u.len() as int));
    let rest = d.skip(u.len() + 1int);
    assert(rest =~= e + (seq!['|'] + h));
    lemma_idx_of_concat(e, seq!['|'] + h, '|');
    assert(idx_of(rest, '|') == Some(e.len() as int));
    assert(d.take(u.len() as int) =~= u);
    assert(rest.take(e.len() as int) =~= e);
    assert(rest.skip(e.len() + 1int) =~= h);
}

/// Check a session cookie value against `secret` at time `now`.
pub fn verify_session_token(token: &str, secret: &str, now: u64) -> (r: Option<String>)
    ensures
        match spec_b64url_decode(token@) {
            None => r is None,
            Some(b) => if valid_utf8(b) {
                match r {
                    Some(u) => verify_plain_spec(decode_utf8(b), secret@, now) == Some(u@),
                    None => verify_plain_spec(decode_utf8(b), secret@, now) is None,
                }
            } else {
                r is None
            },
        },
        forall|u: Seq<char>, t: nat|
            session_user_ok(u) && t + SESSION_TTL_SECONDS <= u64::MAX && now <= t
                + SESSION_TTL_SECONDS && #[trigger] session_token_spec(u, secret@, t) == token@
                ==> (r matches Some(x) && x@ == u),
{
    let bytes = b64url_decode(token);
    proof {
        assert forall|u: Seq<char>, t: nat|
            session_user_ok(u) && t + SESSION_TTL_SECONDS <= u64::MAX && now <= t
                + SESSION_TTL_SECONDS && #[trigger] session_token_spec(u, secret@, t)
                == token@ implies verify_plain_spec(
            session_plain(u, secret@, (t + SESSION_TTL_SECONDS) as nat),
            secret@,
            now,
        ) == Some(u) && spec_b64url_decode(token@) == Some(
            encode_utf8(session_plain(u, secret@, (t + SESSION_TTL_SECONDS) as nat)),
        ) by {
            lemma_session_plain_round_trip(
                u,
                secret@,
                (t + SESSION_TTL_SECONDS) as u64,
                now,
            );
        }
        broadcast use vstd::utf8::encode_utf8_decode_utf8, vstd::utf8::encode_utf8_valid_utf8;
    }
    let bytes = match bytes {
        Some(b) => b,
        None => return None,
    };
    let text = match string_from_utf8(bytes) {
        Some(t) => t,
        None => return None,
    };
    verify_session_plain(text.as_str(), secret, now)
}


/// `Set-Cookie` value for a fresh session (`Secure` when served over HTTPS).
pub open spec fn session_cookie_header_spec(token: Seq<char>, secure: bool) -> Seq<char> {
    SESSION_COOKIE@ + "="@ + token + "; Path=/; HttpOnly; SameSite=Lax; Max-Age="@ + dec(
        SESSION_TTL_SECONDS as nat,
    ) + if secure {
        "; Secure"@
    } else {
        ""@
    }
}

#[verifier::rlimit(60)]
#[verifier::spinoff_prover]
pub fn session_cookie_header(token: &str, secure: bool) -> (r: String)
    ensures
        r@ == session_cookie_header_spec(token@, secure),
{
    let mut out = String::new();
    out.append(SESSION_COOKIE);
    out.append("=");
    out.append(token);
    out.append("; Path=/; HttpOnly; SameSite=Lax; Max-Age=");
    push_dec(&mut out, SESSION_TTL_SECONDS);
    if secure {
        out.append("; Secure");
    } else {
        out.append("");
    }
    assert(out@ =~= session_cookie_header_spec(token@, secure));
    out
}

/// `Set-Cookie` value that expires the session cookie at once.
pub open spec fn clear_session_cookie_header_spec(secure: bool) -> Seq<char> {
    SESSION_COOKIE@ + "=; Path=/; HttpOnly; SameSite=Lax; Max-Age=0"@ + if secure {
        "; Secure"@
    } else {
        ""@
    }
}

pub fn clear_session_cookie_header(secure: bool) -> (r: String)
    ensures
        r@ == clear_session_cookie_header_spec(secure),
{
    let mut out = String::new();
    out.append(SESSION_COOKIE);
    out.append("=; Path=/; HttpOnly; SameSite=Lax; Max-Age=0");
    if secure {
        out.append("; Secure");
    } else {
        out.append("");
    }
    out
}

/// `cpn_panel_session=`, the prefix a cookie pair must carry.
pub open spec fn cookie_prefix() -> Seq<char> {
    SESSION_COOKIE@ + "="@
}

/// The session value among `;`-separated cookie pairs: the first trimmed pair that starts
/// with `cpn_panel_session=` and whose trimmed value is non-empty.
pub open spec fn first_session_cookie(parts: Seq<Seq<char>>) -> Option<Seq<char>>
    decreases parts.len(),
{
    if parts.len() == 0 {
        None
    } else {
        let t = trim(parts[0]);
        let value = trim(t.skip(cookie_prefix().len() as int));
        if cookie_prefix().is_prefix_of(t) && value.len() > 0 {
            Some(value)
        } else {
            first_session_cookie(parts.drop_first())
        }
    }
}

pub open spec fn read_session_cookie_spec(header: Option<Seq<char>>) -> Option<Seq<char>> {
    match header {
        None => None,
        Some(h) => first_session_cookie(split_on(h, ';')),
    }
}

/// The session cookie value from a `Cookie` request header.
pub fn read_session_cookie(cookie_header: Option<&str>) -> (r: Option<String>)
    ensures
        match r {
            Some(v) => read_session_cookie_spec(opt_view(cookie_header)) == Some(v@),
            None => read_session_cookie_spec(opt_view(cookie_header)) is None,
        },
{
    let h = match cookie_header {
        Some(h) => h,
        None => return None,
    };
    let v = chars_of(h);
    let parts = split_vec(&v, ';');
    let mut prefix = String::new();
    prefix.append(SESSION_COOKIE);
    prefix.append("=");
    let pv = chars_of(prefix.as_str());
    let ghost all = split_on(h@, ';');
    assert(opt_view(cookie_header) == Some(h@));
    assert(read_session_cookie_spec(opt_view(cookie_header)) == first_session_cookie(all));
    let mut k: usize = 0;
    assert(all.skip(0) =~= all);
    while k < parts.len()
        invariant
            k <= parts.len(),
            views(parts@) == all,
            pv@ == cookie_prefix(),
            first_session_cookie(all) == first_session_cookie(all.skip(k as int)),
            read_session_cookie_spec(opt_view(cookie_header)) == first_session_cookie(all),
        decreases parts.len() - k,
    {
        let part = &parts[k];
        assert(part@ == all[k as int]);
        let (a, b) = trim_bounds(part);
        let mut matched = false;
        let mut value = String::new();
        if b - a >= pv.len() {
            let t = crate::text::vec_range(part, a, b);
            if match_at(&t, &pv, 0) {
                let (c, d) = trim_bounds(&crate::text::vec_range(&t, pv.len(), t.len()));
                let rest = crate::text::vec_range(&t, pv.len(), t.len());
                assert(rest@ =~= t@.skip(pv@.len() as int));
                if d > c {
                    value = crate::text::string_of_range(&rest, c, d);
                    matched = true;
                    assert(t@ == trim(all[k as int]));
                    assert(value@ == trim(t@.skip(cookie_prefix().len() as int)));
                }
                proof {
                    assert(t@.subrange(0, pv@.len() as int) == pv@);
                    assert(pv@.is_prefix_of(t@));
                }
            } else {
                proof {
                    assert(!pv@.is_prefix_of(t@));
                }
            }
        } else {
            proof {
                assert(!cookie_prefix().is_prefix_of(trim(all[k as int])));
            }
        }
        assert(all.skip(k as int).drop_first() =~= all.skip(k + 1));
        assert(all.skip(k as int)[0] == all[k as int]);
        if matched {
            assert(first_session_cookie(all.skip(k as int)) == Some(value@));
            return Some(value);
        }
        k += 1;
    }
    None
}

/// Law: the cookie set by `session_cookie_header` is what `read_session_cookie` reads back.
pub proof fn lemma_cookie_round_trip(token: Seq<char>, secure: bool)
    requires
        token.len() > 0,
        trim(token) == token,
        forall|j: int| 0 <= j < token.len() ==> token[j] != ';',
        forall|j: int| 0 <= j < token.len() ==> !crate::text::is_ws(token[j]),
    ensures
        read_session_cookie_spec(Some(session_cookie_header_spec(token, secure))) == Some(token),
{
    reveal_strlit("cpn_panel_session");
    reveal_strlit("=");
    reveal_strlit("; Path=/; HttpOnly; SameSite=Lax; Max-Age=");
    let h = session_cookie_header_spec(token, secure);
    let first = cookie_prefix() + token;
    let tail = h.skip(first.len() as int);
    assert(h =~= first + tail);
    assert(tail[0] == ';');
    assert(forall|j: int| 0 <= j < first.len() ==> first[j] != ';');
    lemma_split_first(h, ';', first.len() as int);
    assert(h.take(first.len() as int) =~= first);
    let parts = split_on(h, ';');
    assert(first.len() > 0 && !crate::text::is_ws(first[0]));
    assert(!crate::text::is_ws(first.last()));
    crate::text::lemma_trim_no_ws(first);
    crate::text::lemma_trim_no_ws(token);
    assert(first.skip(cookie_prefix().len() as int) =~= token);
    assert(cookie_prefix().is_prefix_of(first));
}

/// `X-Forwarded-Proto`'s first entry decides when present and `http`/`https`;
/// otherwise the connection scheme does.
pub open spec fn request_is_https_spec(scheme: Seq<char>, forwarded: Option<Seq<char>>) -> bool {
    let direct = eq_ignore_case(scheme, "https"@);
    match forwarded {
        None => direct,
        Some(p) => {
            let first = trim(split_on(p, ',')[0]);
            if eq_ignore_case(first, "https"@) {
                true
            } else if eq_ignore_case(first, "http"@) {
                false
            } else {
                direct
            }
        },
    }
}

pub fn request_is_https(connection_scheme: &str, forwarded_proto: Option<&str>) -> (r: bool)
    ensures
        r == request_is_https_spec(connection_scheme@, opt_view(forwarded_proto)),
{
    if let Some(proto) = forwarded_proto {
        let v = chars_of(proto);
        let parts = split_vec(&v, ',');
        proof {
            lemma_split_on_nonempty(v@, ',');
        }
        assert(parts@[0]@ == split_on(proto@, ',')[0]);
        let (a, b) = trim_bounds(&parts[0]);
        let first = crate::text::string_of_range(&parts[0], a, b);
        if eq_ignore_case_str(first.as_str(), "https") {
            return true;
        }
        if eq_ignore_case_str(first.as_str(), "http") {
            return false;
        }
    }
    eq_ignore_case_str(connection_scheme, "https")
}

/// 32 random bytes from the thread-local generator (`rand::rng().random()`). Nothing is
/// claimed of their value.
#[verifier::external_body]
fn random_bytes_32() -> (r: Vec<u8>)
    ensures
        r@.len() == 32,
{
    let bytes: [u8; 32] = rand::Rng::random(&mut rand::rng());
    bytes.to_vec()
}

/// A fresh random secret: 32 random bytes written as 64 lower-case hex digits.
pub fn fresh_secret_hex() -> (r: String)
    ensures
        exists|b: Seq<u8>| b.len() == 32 && r@ == hex_lower(b),
{
    let bytes = random_bytes_32();
    hex_string(bytes.as_slice())
}

/// A secret source's value: the text trimmed, when that is not empty.
pub open spec fn secret_source(o: Option<Seq<char>>) -> Option<Seq<char>> {
    match o {
        Some(t) => if trim(t).len() > 0 {
            Some(trim(t))
        } else {
            None
        },
        None => None,
    }
}

fn source_value(o: Option<&str>) -> (r: Option<String>)
    ensures
        match r {
            Some(s) => secret_source(opt_view(o)) == Some(s@),
            None => secret_source(opt_view(o)) is None,
        },
{
    match o {
        Some(t) => {
            let v = crate::text::trim_str(t);
            if v.as_str().unicode_len() > 0 {
                Some(v)
            } else {
                None
            }
        },
        None => None,
    }
}

/// The panel session secret: the environment's secret, else the persisted secret, else the
/// installer token (each trimmed, when not empty); else the development secret when the
/// host allows it; else the random bytes in hex.
pub open spec fn session_secret_spec(
    env_secret: Option<Seq<char>>,
    persisted: Option<Seq<char>>,
    installer_token: Option<Seq<char>>,
    dev_allowed: bool,
    random: Seq<u8>,
) -> Seq<char> {
    match secret_source(env_secret) {
        Some(s) => s,
        None => match secret_source(persisted) {
            Some(s) => s,
            None => match secret_source(installer_token) {
                Some(s) => s,
                None => if dev_allowed {
                    "cpn-panel-dev-session"@
                } else {
                    hex_lower(random)
                },
            },
        },
    }
}

pub fn choose_session_secret(
    env_secret: Option<&str>,
    persisted: Option<&str>,
    installer_token: Option<&str>,
    dev_allowed: bool,
    random: &[u8],
) -> (r: String)
    ensures
        r@ == session_secret_spec(opt_view(env_secret), opt_view(persisted), opt_view(installer_token), dev_allowed, random@),
{
    if let Some(s) = source_value(env_secret) {
        return s;
    }
    if let Some(s) = source_value(persisted) {
        return s;
    }
    if let Some(s) = source_value(installer_token) {
        return s;
    }
    if dev_allowed {
        return "cpn-panel-dev-session".to_owned();
    }
    hex_string(random)
}

/// The panel session secret for a host: as `choose_session_secret`, with fresh random
/// bytes as the last resort.
pub fn session_secret(
    env_secret: Option<&str>,
    persisted: Option<&str>,
    installer_token: Option<&str>,
    dev_allowed: bool,
) -> (r: String)
    ensures
        exists|b: Seq<u8>|
            b.len() == 32 && r@ == session_secret_spec(
                opt_view(env_secret),
                opt_view(persisted),
                opt_view(installer_token),
                dev_allowed,
                b,
            ),
{
    let bytes = random_bytes_32();
    choose_session_secret(env_secret, persisted, installer_token, dev_allowed, bytes.as_slice())
}

/// The persisted secret file's value: its text trimmed, when not empty (else a fresh
/// secret is written in its place).
pub fn persisted_secret_value(file_text: Option<&str>) -> (r: Option<String>)
    ensures
        match r {
            Some(s) => secret_source(opt_view(file_text)) == Some(s@),
            None => secret_source(opt_view(file_text)) is None,
        },
{
    source_value(file_text)
}

/// The persisted secret after the host tried to create one: the file's value when it has
/// one; else the fresh secret when it was written, else none.
pub fn persisted_secret_after_create(file_text: Option<&str>, fresh: String, written: bool) -> (r: Option<String>)
    ensures
        match secret_source(opt_view(file_text)) {
            Some(s) => r matches Some(v) && v@ == s,
            None => if written {
                r matches Some(v) && v@ == fresh@
            } else {
                r is None
            },
        },
{
    match source_value(file_text) {
        Some(v) => Some(v),
        None => if written {
            Some(fresh)
        } else {
            None
        },
    }
}

/// Law: the development secret is used only when no configured source is set and the host
/// allows it, so a configured secret is never replaced by the public one.
pub proof fn lemma_dev_secret_only_when_allowed(
    env_secret: Option<Seq<char>>,
    persisted: Option<Seq<char>>,
    installer_token: Option<Seq<char>>,
    dev_allowed: bool,
    random: Seq<u8>,
)
    requires
        random.len() == 32,
    ensures
        session_secret_spec(env_secret, persisted, installer_token, dev_allowed, random) == "cpn-panel-dev-session"@
            ==> (dev_allowed || secret_source(env_secret) is Some || secret_source(persisted) is Some
            || secret_source(installer_token) is Some),
{
    reveal_strlit("cpn-panel-dev-session");
    if secret_source(env_secret) is None && secret_source(persisted) is None && secret_source(installer_token) is None
        && !dev_allowed {
        lemma_hex_lower_len(random);
    }
}

proof fn lemma_hex_lower_len(b: Seq<u8>)
    ensures
        hex_lower(b).len() == 2 * b.len(),
    decreases b.len(),
{
    if b.len() > 0 {
        lemma_hex_lower_len(b.drop_last());
    }
}

} // verus!
