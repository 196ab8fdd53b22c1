//! Redirect helper on the previous listen port during a migration window: what it reads
//! from a request (path and `Host`) and the page and response it answers with. The
//! listeners themselves are run by the caller, which also decodes request bytes to text.

use vstd::prelude::*;
use vstd::string::*;
use crate::text::{
    chars_of, html_escaped, lines_spec, lines_vec, non_ws_end, push_escaped, string_of_range,
    take_non_ws, trim, trim_start, views, ws_end,
};

verus! {

/// The second whitespace-separated field of a line.
pub open spec fn second_field(line: Seq<char>) -> Seq<char> {
    let a = trim_start(line);
    let first = take_non_ws(a);
    take_non_ws(trim_start(a.skip(first.len() as int)))
}

/// The request target: the second field of the first line (`GET / HTTP/1.1` standing in for
/// an empty request), `/` when there is none.
pub open spec fn request_path_spec(text: Seq<char>) -> Seq<char> {
    let first_line = if lines_spec(text).len() > 0 {
        lines_spec(text)[0]
    } else {
        "GET / HTTP/1.1"@
    };
    let p = second_field(first_line);
    if p.len() == 0 {
        "/"@
    } else {
        p
    }
}

fn second_field_of(v: &Vec<char>) -> (r: String)
    ensures
        r@ == second_field(v@),
{
    let s1 = ws_end(v, 0);
    assert(v@.skip(0) =~= v@);
    let e1 = non_ws_end(v, s1);
    let s2 = ws_end(v, e1);
    let e2 = non_ws_end(v, s2);
    assert(trim_start(v@).skip(take_non_ws(trim_start(v@)).len() as int) =~= v@.skip(e1 as int));
    string_of_range(v, s2, e2)
}

/// The path the client asked for, from the request text.
pub fn request_path(text: &str) -> (r: String)
    ensures
        r@ == request_path_spec(text@),
{
    let lines = lines_vec(&chars_of(text));
    let p = if lines.len() > 0 {
        second_field_of(&lines[0])
    } else {
        second_field_of(&chars_of("GET / HTTP/1.1"))
    };
    if p.as_str().is_empty() {
        "/".to_owned()
    } else {
        p
    }
}

/// A header line's value after the `Host:` or `host:` prefix.
pub open spec fn host_value(line: Seq<char>) -> Option<Seq<char>> {
    if "Host:"@.is_prefix_of(line) {
        Some(line.skip(5))
    } else if "host:"@.is_prefix_of(line) {
        Some(line.skip(5))
    } else {
        None
    }
}

/// The `Host` header among the header lines from index `i` on, up to the first blank line.
pub open spec fn host_from(lines: Seq<Seq<char>>, i: int) -> Option<Seq<char>>
    decreases lines.len() - i,
{
    if i < 1 || i >= lines.len() {
        None
    } else {
        let t = trim(lines[i]);
        if t.len() == 0 {
            None
        } else {
            match host_value(t) {
                Some(v) if trim(v).len() > 0 => Some(trim(v)),
                _ => host_from(lines, i + 1),
            }
        }
    }
}

/// The `Host` header value of a request (trimmed, non-empty).
pub fn host_header(text: &str) -> (r: Option<String>)
    ensures
        crate::text::opt_string_view(&r) == host_from(lines_spec(text@), 1),
{
    proof {
        reveal_strlit("Host:");
        reveal_strlit("host:");
    }
    let lines = lines_vec(&chars_of(text));
    let ghost all = views(lines@);
    let upper = chars_of("Host:");
    let lower = chars_of("host:");
    let mut i: usize = 1;
    while i < lines.len()
        invariant
            1 <= i,
            all == views(lines@),
            all == lines_spec(text@),
            upper@ == "Host:"@,
            lower@ == "host:"@,
            host_from(all, 1) == host_from(all, i as int),
        decreases lines.len() - i,
    {
        let (a, b) = crate::text::trim_bounds(&lines[i]);
        let t = crate::text::vec_range(&lines[i], a, b);
        assert(t@ == trim(all[i as int]));
        if t.len() == 0 {
            return None;
        }
        if crate::text::match_at(&t, &upper, 0) || crate::text::match_at(&t, &lower, 0) {
            proof {
                reveal_strlit("Host:");
                reveal_strlit("host:");
                if crate::text::occurs_at(t@, "Host:"@, 0) {
                    assert(t@.subrange(0, 5) =~= "Host:"@);
                }
                if crate::text::occurs_at(t@, "host:"@, 0) {
                    assert(t@.subrange(0, 5) =~= "host:"@);
                }
            }
            let rest = crate::text::vec_range(&t, 5, t.len());
            assert(rest@ =~= t@.skip(5));
            let (c, d) = crate::text::trim_bounds(&rest);
            if c < d {
                return Some(string_of_range(&rest, c, d));
            }
        } else {
            proof {
                reveal_strlit("Host:");
                reveal_strlit("host:");
                if "Host:"@.is_prefix_of(t@) {
                    assert(t@.subrange(0, 5) =~= "Host:"@);
                }
                if "host:"@.is_prefix_of(t@) {
                    assert(t@.subrange(0, 5) =~= "host:"@);
                }
            }
        }
        i += 1;
    }
    None
}

/// The page that points the browser at the new location.
pub open spec fn redirect_page_spec(location: Seq<char>) -> Seq<char> {
    let loc = html_escaped(location);
    "<!DOCTYPE html><html><head><meta http-equiv=\"refresh\" content=\"0;url="@ + loc
        + "\"></head><body><p>Moved to <a href=\""@ + loc + "\">"@ + loc + "</a></p></body></html>"@
}

#[verifier::rlimit(60)]
#[verifier::spinoff_prover]
pub fn redirect_page(location: &str) -> (r: String)
    ensures
        r@ == redirect_page_spec(location@),
{
    let mut out = "<!DOCTYPE html><html><head><meta http-equiv=\"refresh\" content=\"0;url=".to_owned();
    push_escaped(&mut out, location);
    out.append("\"></head><body><p>Moved to <a href=\"");
    push_escaped(&mut out, location);
    out.append("\">");
    push_escaped(&mut out, location);
    out.append("</a></p></body></html>");
    out
}


/// The host part of a `Host` value: up to its first `:`.
pub open spec fn host_before_colon(v: Seq<char>) -> Seq<char> {
    match crate::text::idx_of(v, ':') {
        Some(i) => v.take(i),
        None => v,
    }
}

/// Where the old port sends a request: `https://` and the saved panel hostname when there
/// is one, else the panel's plain-HTTP address on the new port for the host the client used
/// (`127.0.0.1` when it sent none); then the path, with a leading `/` added when missing.
pub open spec fn redirect_location_spec(
    new_port: u16,
    panel_hostname: Option<Seq<char>>,
    request_host: Option<Seq<char>>,
    path: Seq<char>,
) -> Seq<char> {
    let host = match request_host {
        Some(v) => if host_before_colon(v).len() > 0 {
            host_before_colon(v)
        } else {
            "127.0.0.1"@
        },
        None => "127.0.0.1"@,
    };
    let base = match panel_hostname {
        Some(h) => "https://"@ + h,
        None => "http://"@ + host + ":"@ + crate::text::dec(new_port as nat),
    };
    let p = if path.len() > 0 && path[0] == '/' {
        path
    } else {
        "/"@ + path
    };
    base + p
}

/// The redirect target for a request on the old port.
#[verifier::rlimit(60)]
#[verifier::spinoff_prover]
pub fn redirect_location(
    new_port: u16,
    panel_hostname: Option<&str>,
    request_host: Option<&str>,
    path: &str,
) -> (r: String)
    ensures
        r@ == redirect_location_spec(
            new_port,
            crate::text::opt_view(panel_hostname),
            crate::text::opt_view(request_host),
            path@,
        ),
{
    let mut out = String::new();
    match panel_hostname {
        Some(h) => {
            out.append("https://");
            out.append(h);
        },
        None => {
            out.append("http://");
            let host_ok = match request_host {
                Some(v) => {
                    let hv = chars_of(v);
                    let end = match crate::text::find_char(&hv, ':', 0) {
                        Some(k) => k,
                        None => hv.len(),
                    };
                    proof {
                        assert(hv@.skip(0) =~= hv@);
                    }
                    if end > 0 {
                        let h = string_of_range(&hv, 0, end);
                        assert(h@ =~= host_before_colon(v@));
                        out.append(h.as_str());
                        true
                    } else {
                        false
                    }
                },
                None => false,
            };
            if !host_ok {
                out.append("127.0.0.1");
            }
            out.append(":");
            crate::text::push_dec(&mut out, new_port as u64);
        },
    }
    let pv = chars_of(path);
    if !(pv.len() > 0 && pv[0] == '/') {
        out.append("/");
    }
    out.append(path);
    proof {
        reveal_strlit("/");
    }
    out
}

} // verus!
