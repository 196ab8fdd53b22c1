//! Reverse proxy of webmail from the panel mount path to loopback PHP-FPM HTTP (:8080):
//! the target URL, which headers are forwarded, how the backend's raw response is split
//! and read, and how redirects are mapped back under the mount. Running the request is done
//! by the caller.

use vstd::prelude::*;
use vstd::string::*;
use crate::text::{
    chars_of, contains_seq, contains_str, eq_ignore_case, eq_ignore_case_str, find_first,
    first_index, lemma_first_index_bound, lower_str, occurs_at, parse_u64_spec, starts_with_str,
    string_of_range, to_lower, trim, vec_range, find_char, idx_of, lines_spec, lines_vec, non_ws_end,
    parse_nat, parse_u32, string_of_chars, strip_trailing, strip_trailing_end, take_non_ws, trim_bounds,
    trim_start, views, ws_end,
};

verus! {

/// The loopback webmail backend.
pub const BACKEND: &'static str = "http://127.0.0.1:8080";

/// Largest request body the proxy reads.
pub const MAX_PROXY_BODY: usize = 16777216;

/// The backend URL for a path under the mount and the request's query string.
pub open spec fn proxy_target_spec(backend_path: Seq<char>, query: Seq<char>) -> Seq<char> {
    if query.len() == 0 {
        BACKEND@ + backend_path
    } else {
        BACKEND@ + backend_path + "?"@ + query
    }
}

pub fn proxy_target(backend_path: &str, query: &str) -> (r: String)
    ensures
        r@ == proxy_target_spec(backend_path@, query@),
{
    let mut out = BACKEND.to_owned();
    out.append(backend_path);
    if !query.is_empty() {
        out.append("?");
        out.append(query);
    }
    out
}

/// Request headers that are not forwarded: hop-by-hop ones, `host`, `content-length` and
/// `accept-encoding` (all compared ignoring ASCII case).
pub open spec fn dropped_request_header(name: Seq<char>) -> bool {
    let l = to_lower(name);
    l == "host"@ || l == "content-length"@ || l == "connection"@ || l == "transfer-encoding"@
        || l == "keep-alive"@ || l == "proxy-authenticate"@ || l == "proxy-authorization"@ || l == "te"@
        || l == "trailers"@ || l == "upgrade"@ || l == "accept-encoding"@
}

pub fn skip_request_header(name: &str) -> (r: bool)
    ensures
        r == dropped_request_header(name@),
{
    let l = lower_str(name);
    let s = l.as_str();
    crate::text::str_eq(s, "host") || crate::text::str_eq(s, "content-length") || crate::text::str_eq(
        s,
        "connection",
    ) || crate::text::str_eq(s, "transfer-encoding") || crate::text::str_eq(s, "keep-alive")
        || crate::text::str_eq(s, "proxy-authenticate") || crate::text::str_eq(s, "proxy-authorization")
        || crate::text::str_eq(s, "te") || crate::text::str_eq(s, "trailers") || crate::text::str_eq(
        s,
        "upgrade",
    ) || crate::text::str_eq(s, "accept-encoding")
}

/// The request body is sent on only for POST, PUT and PATCH (any case) and when not empty.
pub open spec fn sends_body_spec(method: Seq<char>, body_len: nat) -> bool {
    body_len > 0 && (eq_ignore_case(method, "POST"@) || eq_ignore_case(method, "PUT"@) || eq_ignore_case(
        method,
        "PATCH"@,
    ))
}

pub fn sends_body(method: &str, body_len: usize) -> (r: bool)
    ensures
        r == sends_body_spec(method@, body_len as nat),
{
    body_len > 0 && (eq_ignore_case_str(method, "POST") || eq_ignore_case_str(method, "PUT")
        || eq_ignore_case_str(method, "PATCH"))
}

/// Whether a body of `len` bytes, after `have` bytes already read, stays within the limit.
pub fn body_within_limit(have: usize, len: usize) -> (r: bool)
    ensures
        r == (have + len <= MAX_PROXY_BODY),
{
    have <= MAX_PROXY_BODY && len <= MAX_PROXY_BODY - have
}

/// A header block of an interim `100 Continue` response.
pub open spec fn is_continue(headers: Seq<char>) -> bool {
    contains_seq(headers, " 100 "@) || "HTTP/1.1 100"@.is_prefix_of(headers)
}

/// The last header block of a raw `curl --include` response and the body after it: split at
/// the first blank line (`\r\n\r\n`, else `\n\n`), skipping interim `100` blocks.
pub open spec fn split_headers_body_spec(text: Seq<char>) -> Option<(Seq<char>, Seq<char>)>
    decreases text.len(),
{
    match first_index(text, "\r\n\r\n"@) {
        Some(i) => {
            proof {
                lemma_first_index_bound(text, "\r\n\r\n"@);
                reveal_strlit("\r\n\r\n");
            }
            let headers = text.take(i);
            let body = text.skip(i + 4);
            if is_continue(headers) {
                if 0 <= i && i + 4 <= text.len() {
                    split_headers_body_spec(body)
                } else {
                    None
                }
            } else {
                Some((headers, body))
            }
        },
        None => match first_index(text, "\n\n"@) {
            Some(i) => {
                proof {
                    lemma_first_index_bound(text, "\n\n"@);
                    reveal_strlit("\n\n");
                }
                let headers = text.take(i);
                let body = text.skip(i + 2);
                if contains_seq(headers, " 100 "@) {
                    if 0 <= i && i + 2 <= text.len() {
                        split_headers_body_spec(body)
                    } else {
                        None
                    }
                } else {
                    Some((headers, body))
                }
            },
            None => None,
        },
    }
}

/// Splits a raw backend response into its last header block and body.
pub fn split_headers_body(text: &str) -> (r: Option<(String, String)>)
    ensures
        match r {
            Some((h, b)) => split_headers_body_spec(text@) == Some((h@, b@)),
            None => split_headers_body_spec(text@) is None,
        },
{
    proof {
        reveal_strlit("\r\n\r\n");
        reveal_strlit("\n\n");
        reveal_strlit(" 100 ");
        reveal_strlit("HTTP/1.1 100");
    }
    let crlf = chars_of("\r\n\r\n");
    let lf = chars_of("\n\n");
    let hundred = chars_of(" 100 ");
    let status100 = chars_of("HTTP/1.1 100");
    let mut rest = chars_of(text);
    loop
        invariant
            crlf@ == "\r\n\r\n"@,
            lf@ == "\n\n"@,
            crlf@.len() == 4,
            lf@.len() == 2,
            hundred@ == " 100 "@,
            status100@ == "HTTP/1.1 100"@,
            split_headers_body_spec(text@) == split_headers_body_spec(rest@),
        decreases rest.len(),
    {
        match find_first(&rest, &crlf) {
            Some(i) => {
                let headers = vec_range(&rest, 0, i);
                let body = vec_range(&rest, i + 4, rest.len());
                assert(headers@ =~= rest@.take(i as int));
                assert(body@ =~= rest@.skip(i + 4));
                let c = match find_first(&headers, &hundred) {
                    Some(k) => {
                        assert(occurs_at(headers@, hundred@, k as int));
                        true
                    },
                    None => {
                        proof {
                            crate::text::lemma_first_index_none(headers@, hundred@);
                        }
                        crate::text::match_at(&headers, &status100, 0)
                    },
                };
                proof {
                    if !contains_seq(headers@, " 100 "@) {
                        assert(occurs_at(headers@, status100@, 0) == "HTTP/1.1 100"@.is_prefix_of(headers@));
                    }
                }
                if c {
                    rest = body;
                } else {
                    return Some((crate::text::string_of_chars(&headers), crate::text::string_of_chars(&body)));
                }
            },
            None => {
                match find_first(&rest, &lf) {
                    Some(i) => {
                        let headers = vec_range(&rest, 0, i);
                        let body = vec_range(&rest, i + 2, rest.len());
                        assert(headers@ =~= rest@.take(i as int));
                        assert(body@ =~= rest@.skip(i + 2));
                        let c = match find_first(&headers, &hundred) {
                            Some(k) => {
                                assert(occurs_at(headers@, hundred@, k as int));
                                true
                            },
                            None => {
                                proof {
                                    crate::text::lemma_first_index_none(headers@, hundred@);
                                }
                                false
                            },
                        };
                        if c {
                            rest = body;
                        } else {
                            return Some(
                                (crate::text::string_of_chars(&headers), crate::text::string_of_chars(&body)),
                            );
                        }
                    },
                    None => {
                        return None;
                    },
                }
            },
        }
    }
}

/// A `Location` from the backend, as the browser should follow it: the loopback origin is
/// replaced by the mount path, and a root-relative path outside the mount gets it in front.
pub open spec fn rewrite_location_spec(value: Seq<char>, mount: Seq<char>) -> Seq<char> {
    if BACKEND@.is_prefix_of(value) {
        mount + value.skip(BACKEND@.len() as int)
    } else if value.len() > 0 && value[0] == '/' && !mount.is_prefix_of(value) {
        mount + value
    } else {
        value
    }
}

pub fn rewrite_location(value: &str, mount: &str) -> (r: String)
    ensures
        r@ == rewrite_location_spec(value@, mount@),
{
    let v = chars_of(value);
    if starts_with_str(value, BACKEND) {
        let b = chars_of(BACKEND);
        let mut out = mount.to_owned();
        let tail = string_of_range(&v, b.len(), v.len());
        out.append(tail.as_str());
        return out;
    }
    if v.len() > 0 && v[0] == '/' && !starts_with_str(value, mount) {
        let mut out = mount.to_owned();
        out.append(value);
        return out;
    }
    crate::text::string_of_chars(&v)
}

/// Response headers that are not passed back (compared ignoring ASCII case).
pub open spec fn dropped_response_header(name: Seq<char>) -> bool {
    let l = to_lower(name);
    l == "transfer-encoding"@ || l == "content-length"@ || l == "connection"@ || l == "content-encoding"@
}

pub fn skip_response_header(name: &str) -> (r: bool)
    ensures
        r == dropped_response_header(name@),
{
    let l = lower_str(name);
    let s = l.as_str();
    crate::text::str_eq(s, "transfer-encoding") || crate::text::str_eq(s, "content-length")
        || crate::text::str_eq(s, "connection") || crate::text::str_eq(s, "content-encoding")
}

/// The methods the webmail proxy forwards (names as the HTTP request carries them).
pub open spec fn allowed_method_spec(method: Seq<char>) -> bool {
    method == "GET"@ || method == "HEAD"@ || method == "POST"@ || method == "PUT"@ || method == "PATCH"@
        || method == "DELETE"@
}

pub fn allowed_proxy_method(method: &str) -> (r: bool)
    ensures
        r == allowed_method_spec(method@),
{
    crate::text::str_eq(method, "GET") || crate::text::str_eq(method, "HEAD") || crate::text::str_eq(
        method,
        "POST",
    ) || crate::text::str_eq(method, "PUT") || crate::text::str_eq(method, "PATCH") || crate::text::str_eq(
        method,
        "DELETE",
    )
}

/// What `String::from_utf8_lossy` gives for a byte string.
pub uninterp spec fn utf8_lossy(bytes: Seq<u8>) -> Seq<char>;

/// `String::from_utf8_lossy(bytes)`: claims the result is the value named `utf8_lossy`, and
/// (as std documents) the decoded text when the bytes are valid UTF-8.
#[verifier::external_body]
pub(crate) fn lossy_text(bytes: &[u8]) -> (r: String)
    ensures
        r@ == utf8_lossy(bytes@),
        vstd::utf8::valid_utf8(bytes@) ==> r@ == vstd::utf8::decode_utf8(bytes@),
{
    String::from_utf8_lossy(bytes).into_owned()
}

/// The second whitespace-separated word of a line (`split_whitespace().nth(1)`).
pub open spec fn second_word(line: Seq<char>) -> Option<Seq<char>> {
    let t1 = trim_start(line);
    let w1 = take_non_ws(t1);
    let rest = trim_start(t1.skip(w1.len() as int));
    if t1.len() == 0 || rest.len() == 0 {
        None
    } else {
        Some(take_non_ws(rest))
    }
}

/// The status of the backend's status line: its second word read as a number from 100 to
/// 999, else 502.
pub open spec fn status_of(line: Seq<char>) -> u16 {
    match second_word(line) {
        Some(w) => match parse_nat(w) {
            Some(n) => if 100 <= n <= 999 {
                n as u16
            } else {
                502
            },
            None => 502,
        },
        None => 502,
    }
}

fn status_from_line(v: &Vec<char>) -> (r: u16)
    ensures
        r == status_of(v@),
{
    let a = ws_end(v, 0);
    assert(v@.skip(0) =~= v@);
    let b = non_ws_end(v, a);
    let c = ws_end(v, b);
    assert(v@.skip(a as int).skip((b - a) as int) =~= v@.skip(b as int));
    if a == v.len() || c == v.len() {
        assert(v@.skip(a as int).len() == 0 || v@.skip(c as int).len() == 0);
        return 502;
    }
    let d = non_ws_end(v, c);
    let word = string_of_range(v, c, d);
    assert(word@ == take_non_ws(v@.skip(c as int)));
    match parse_u32(word.as_str()) {
        Some(n) => {
            if 100 <= n && n <= 999 {
                n as u16
            } else {
                502
            }
        },
        None => 502,
    }
}

/// One response header line as passed back: `name: value` split at the first `:`, both
/// trimmed; hop-by-hop and encoding headers dropped; `Location` mapped under the mount.
pub open spec fn header_entry(line: Seq<char>, mount: Seq<char>) -> Seq<(Seq<char>, Seq<char>)> {
    match idx_of(line, ':') {
        None => Seq::empty(),
        Some(k) => if dropped_response_header(trim(line.take(k))) {
            Seq::empty()
        } else if to_lower(trim(line.take(k))) == "location"@ {
            seq![(trim(line.take(k)), rewrite_location_spec(trim(line.skip(k + 1)), mount))]
        } else {
            seq![(trim(line.take(k)), trim(line.skip(k + 1)))]
        },
    }
}

pub open spec fn header_entries(lines: Seq<Seq<char>>, mount: Seq<char>) -> Seq<(Seq<char>, Seq<char>)>
    decreases lines.len(),
{
    if lines.len() == 0 {
        Seq::empty()
    } else {
        header_entries(lines.drop_last(), mount) + header_entry(lines.last(), mount)
    }
}

/// The backend's response as it is passed back: status, headers in order, body.
pub struct ProxyResponse {
    pub status: u16,
    pub headers: Vec<(String, String)>,
    pub body: String,
}

pub open spec fn header_views(hs: Seq<(String, String)>) -> Seq<(Seq<char>, Seq<char>)> {
    hs.map_values(|h: (String, String)| (h.0@, h.1@))
}

/// Reading `curl --include` output: the last header block (after any `100 Continue`), its
/// status line, its headers, and the body; the mount is the public path without trailing
/// `/`.
pub open spec fn parse_curl_include_spec(text: Seq<char>, public_path: Seq<char>) -> Result<
    (u16, Seq<(Seq<char>, Seq<char>)>, Seq<char>),
    Seq<char>,
> {
    match split_headers_body_spec(text) {
        None => Err("Malformed proxy response from webmail backend"@),
        Some((head, body)) => if lines_spec(head).len() == 0 {
            Err("Missing HTTP status from webmail backend"@)
        } else {
            Ok(
                (
                    status_of(lines_spec(head)[0]),
                    header_entries(lines_spec(head).drop_first(), strip_trailing(public_path, '/')),
                    body,
                ),
            )
        },
    }
}

fn push_header_entry(out: &mut Vec<(String, String)>, line: &Vec<char>, mount: &str)
    ensures
        header_views(final(out)@) == header_views(old(out)@) + header_entry(line@, mount@),
{
    proof {
        reveal_strlit("location");
    }
    match find_char(line, ':', 0) {
        None => {
            assert(line@.skip(0) =~= line@);
            assert(header_views(out@) =~= header_views(old(out)@) + header_entry(line@, mount@));
        },
        Some(k) => {
            assert(line@.skip(0) =~= line@);
            let name_raw = vec_range(line, 0, k);
            let value_raw = vec_range(line, k + 1, line.len());
            assert(name_raw@ =~= line@.take(k as int));
            assert(value_raw@ =~= line@.skip(k + 1));
            let (na, nb) = trim_bounds(&name_raw);
            let (va, vb) = trim_bounds(&value_raw);
            let name = string_of_range(&name_raw, na, nb);
            let value = string_of_range(&value_raw, va, vb);
            if skip_response_header(name.as_str()) {
                assert(header_views(out@) =~= header_views(old(out)@) + header_entry(line@, mount@));
                return;
            }
            let l = lower_str(name.as_str());
            if crate::text::str_eq(l.as_str(), "location") {
                let v = rewrite_location(value.as_str(), mount);
                out.push((name, v));
            } else {
                out.push((name, value));
            }
            assert(header_views(out@) =~= header_views(old(out)@) + header_entry(line@, mount@));
        },
    }
}

/// Reads the raw output of `curl --include` from the backend into the response passed back.
pub fn parse_curl_include(raw: &[u8], public_path: &str) -> (r: Result<ProxyResponse, String>)
    ensures
        match r {
            Ok(p) => parse_curl_include_spec(utf8_lossy(raw@), public_path@) == Ok::<_, Seq<char>>(
                (p.status, header_views(p.headers@), p.body@),
            ),
            Err(e) => parse_curl_include_spec(utf8_lossy(raw@), public_path@) == Err::<
                (u16, Seq<(Seq<char>, Seq<char>)>, Seq<char>),
                Seq<char>,
            >(e@),
        },
{
    let text = lossy_text(raw);
    let (head, body) = match split_headers_body(text.as_str()) {
        Some(hb) => hb,
        None => return Err("Malformed proxy response from webmail backend".to_owned()),
    };
    let hv = chars_of(head.as_str());
    let lines = lines_vec(&hv);
    if lines.len() == 0 {
        return Err("Missing HTTP status from webmail backend".to_owned());
    }
    let status = status_from_line(&lines[0]);
    let pv = chars_of(public_path);
    let e = strip_trailing_end(&pv, '/');
    let mount = string_of_range(&pv, 0, e);
    let ghost ls = views(lines@);
    let mut headers: Vec<(String, String)> = Vec::new();
    let mut i: usize = 1;
    assert(ls.drop_first().take(0) =~= Seq::<Seq<char>>::empty());
    while i < lines.len()
        invariant
            1 <= i <= lines.len(),
            ls == views(lines@),
            header_views(headers@) == header_entries(ls.drop_first().take(i - 1), mount@),
        decreases lines.len() - i,
    {
        let ghost before = header_views(headers@);
        push_header_entry(&mut headers, &lines[i], mount.as_str());
        proof {
            let t = ls.drop_first().take(i as int);
            assert(t.drop_last() =~= ls.drop_first().take(i - 1));
            assert(t.last() == lines@[i as int]@);
        }
        i += 1;
    }
    assert(ls.drop_first().take(lines.len() - 1) =~= ls.drop_first());
    Ok(ProxyResponse { status, headers, body })
}

/// The `-H name: value` arguments for the forwarded request headers: those with a text
/// value that are not dropped, in order.
pub open spec fn header_args(headers: Seq<(Seq<char>, Option<Seq<char>>)>) -> Seq<Seq<char>>
    decreases headers.len(),
{
    if headers.len() == 0 {
        Seq::empty()
    } else {
        header_args(headers.drop_last()) + match headers.last().1 {
            Some(v) => if dropped_request_header(headers.last().0) {
                Seq::empty()
            } else {
                seq!["-H"@, headers.last().0 + ": "@ + v]
            },
            None => Seq::empty(),
        }
    }
}

/// The `curl` arguments that forward a request to the backend: silent with errors, headers
/// included in the output, a 120 s limit, the method and the path as given; the forwarded
/// headers, the backend `Host` and identity encoding; the body from stdin when it is sent;
/// and the target URL.
pub open spec fn curl_args_spec(method: Seq<char>, headers: Seq<(Seq<char>, Option<Seq<char>>)>, body_len: nat, target: Seq<char>) -> Seq<Seq<char>> {
    seq!["--silent"@, "--show-error"@, "--include"@, "--max-time"@, "120"@, "-X"@, method, "--path-as-is"@]
        + header_args(headers) + seq!["-H"@, "Host: 127.0.0.1:8080"@, "-H"@, "Accept-Encoding: identity"@]
        + (if sends_body_spec(method, body_len) { seq!["--data-binary"@, "@-"@] } else { Seq::empty() }) + seq![target]
}

pub open spec fn request_header_views(h: Seq<(String, Option<String>)>) -> Seq<(Seq<char>, Option<Seq<char>>)> {
    h.map_values(|p: (String, Option<String>)| (p.0@, match p.1 { Some(v) => Some(v@), None => None }))
}

fn push_arg(out: &mut Vec<String>, item: &str)
    ensures
        crate::text::string_views(final(out)@) == crate::text::string_views(old(out)@).push(item@),
{
    out.push(item.to_owned());
    assert(crate::text::string_views(out@) =~= crate::text::string_views(old(out)@).push(item@));
}

/// Builds the `curl` arguments for a forwarded request (see `curl_args_spec`).
#[verifier::rlimit(60)]
#[verifier::spinoff_prover]
pub fn curl_args(method: &str, headers: &Vec<(String, Option<String>)>, body_len: usize, target: &str) -> (r: Vec<String>)
    ensures
        crate::text::string_views(r@) == curl_args_spec(method@, request_header_views(headers@), body_len as nat, target@),
{
    let mut out: Vec<String> = Vec::new();
    push_arg(&mut out, "--silent");
    push_arg(&mut out, "--show-error");
    push_arg(&mut out, "--include");
    push_arg(&mut out, "--max-time");
    push_arg(&mut out, "120");
    push_arg(&mut out, "-X");
    push_arg(&mut out, method);
    push_arg(&mut out, "--path-as-is");
    let ghost base = crate::text::string_views(out@);
    let ghost hv = request_header_views(headers@);
    let mut i: usize = 0;
    assert(hv.take(0) =~= Seq::<(Seq<char>, Option<Seq<char>>)>::empty());
    assert(crate::text::string_views(out@) =~= base + header_args(hv.take(0)));
    while i < headers.len()
        invariant
            i <= headers.len(),
            hv == request_header_views(headers@),
            crate::text::string_views(out@) == base + header_args(hv.take(i as int)),
        decreases headers.len() - i,
    {
        let ghost before = crate::text::string_views(out@);
        proof {
            assert(hv.take(i + 1).drop_last() =~= hv.take(i as int));
            assert(hv.take(i + 1).last() == hv[i as int]);
        }
        match &headers[i].1 {
            Some(v) => {
                if !skip_request_header(headers[i].0.as_str()) {
                    push_arg(&mut out, "-H");
                    let mut line = headers[i].0.clone();
                    line.append(": ");
                    line.append(v.as_str());
                    push_arg(&mut out, line.as_str());
                    assert(crate::text::string_views(out@) =~= before + seq!["-H"@, hv[i as int].0 + ": "@ + v@]);
                } else {
                    assert(crate::text::string_views(out@) =~= before + Seq::<Seq<char>>::empty());
                }
            },
            None => {
                assert(crate::text::string_views(out@) =~= before + Seq::<Seq<char>>::empty());
            },
        }
        i += 1;
    }
    assert(hv.take(headers.len() as int) =~= hv);
    push_arg(&mut out, "-H");
    push_arg(&mut out, "Host: 127.0.0.1:8080");
    push_arg(&mut out, "-H");
    push_arg(&mut out, "Accept-Encoding: identity");
    if sends_body(method, body_len) {
        push_arg(&mut out, "--data-binary");
        push_arg(&mut out, "@-");
    }
    push_arg(&mut out, target);
    proof {
        assert(crate::text::string_views(out@) =~= curl_args_spec(method@, hv, body_len as nat, target@));
    }
    out
}

/// The error shown when `curl` fails without output: its stderr, trimmed, at most 240
/// characters.
pub fn curl_failure_message(stderr: &[u8]) -> (r: String)
    ensures
        r@ == trim(utf8_lossy(stderr@)).take(if trim(utf8_lossy(stderr@)).len() > 240 { 240 } else { trim(utf8_lossy(stderr@)).len() as int }),
{
    let text = lossy_text(stderr);
    let v = chars_of(text.as_str());
    let (a, b) = trim_bounds(&v);
    let e = if b - a > 240 { a + 240 } else { b };
    let r = string_of_range(&v, a, e);
    proof {
        assert(v@.subrange(a as int, e as int) =~= trim(utf8_lossy(stderr@)).take((e - a) as int));
    }
    r
}

} // verus!
