//! Release artifact checks: the switches that turn them on, reading `SHA256SUMS`, and the
//! SHA-256 comparison of a downloaded artifact.

use vstd::prelude::*;
use vstd::string::*;
use crate::text::{
    chars_of, eq_ignore_case, hex_lower, hex_string, lines_spec, lines_vec, lower_vec,
    non_ws_end, str_eq, strip_leading, strip_leading_start, string_of_chars, string_of_range,
    take_non_ws, to_lower, trim, trim_bounds, trim_start, views, ws_end,
};

verus! {

/// A switch that is on unless set to `0`, `false`, `no` or `off` (any case, trimmed).
pub open spec fn default_on_spec(raw: Option<Seq<char>>) -> bool {
    match raw {
        Some(v) => {
            let l = to_lower(trim(v));
            !(l == "0"@ || l == "false"@ || l == "no"@ || l == "off"@)
        },
        None => true,
    }
}

/// A switch that is off unless set to `1`, `true`, `yes` or `on` (any case, trimmed).
pub open spec fn default_off_spec(raw: Option<Seq<char>>) -> bool {
    match raw {
        Some(v) => {
            let l = to_lower(trim(v));
            l == "1"@ || l == "true"@ || l == "yes"@ || l == "on"@
        },
        None => false,
    }
}

/// Whether release checksums are verified, from the `CPN_VERIFY_RELEASE` setting.
pub fn verify_release_enabled(raw: Option<&str>) -> (r: bool)
    ensures
        r == default_on_spec(crate::text::opt_view(raw)),
{
    match raw {
        Some(value) => {
            let lower = crate::text::lower_str(crate::text::trim_str(value).as_str());
            let l = lower.as_str();
            !(str_eq(l, "0") || str_eq(l, "false") || str_eq(l, "no") || str_eq(l, "off"))
        },
        None => true,
    }
}

/// Whether the signature of `SHA256SUMS` is verified, from the `CPN_VERIFY_GPG` setting.
pub fn verify_gpg_enabled(raw: Option<&str>) -> (r: bool)
    ensures
        r == default_off_spec(crate::text::opt_view(raw)),
{
    match raw {
        Some(value) => {
            let lower = crate::text::lower_str(crate::text::trim_str(value).as_str());
            let l = lower.as_str();
            str_eq(l, "1") || str_eq(l, "true") || str_eq(l, "yes") || str_eq(l, "on")
        },
        None => false,
    }
}

/// One line of a checksum list: `None` for a blank or `#` line; otherwise its first field
/// (the hash) and its second field with leading `*` dropped, `None` when there is none.
pub open spec fn sums_entry(line: Seq<char>) -> Option<(Seq<char>, Option<Seq<char>>)> {
    let t = trim(line);
    if t.len() == 0 || t[0] == '#' {
        None
    } else {
        let hash = take_non_ws(t);
        let rest = trim_start(t.skip(hash.len() as int));
        if rest.len() == 0 {
            Some((hash, None))
        } else {
            Some((hash, Some(strip_leading(take_non_ws(rest), '*'))))
        }
    }
}

/// The view of an optional character vector.
pub open spec fn opt_chars(o: Option<Vec<char>>) -> Option<Seq<char>> {
    match o {
        Some(v) => Some(v@),
        None => None,
    }
}

/// The fields of one checksum line.
pub fn sums_entry_of(line: &Vec<char>) -> (r: Option<(Vec<char>, Option<Vec<char>>)>)
    ensures
        r is None <==> sums_entry(line@) is None,
        r matches Some(e) ==> sums_entry(line@) == Some((e.0@, opt_chars(e.1))),
{
    let (a, b) = trim_bounds(line);
    let t = vec_slice(line, a, b);
    if t.len() == 0 || t[0] == '#' {
        return None;
    }
    let he = non_ws_end(&t, 0);
    let hash = vec_slice(&t, 0, he);
    assert(t@.skip(0) =~= t@);
    let rs = ws_end(&t, he);
    assert(hash@.len() == he);
    if rs == t.len() {
        assert(t@.skip(rs as int) =~= Seq::<char>::empty());
        return Some((hash, None));
    }
    let ne = non_ws_end(&t, rs);
    let ns = strip_leading_start(&t, rs, ne, '*');
    let name = vec_slice(&t, ns, ne);
    Some((hash, Some(name)))
}

/// A copy of `v[a..b]`.
fn vec_slice(v: &Vec<char>, a: usize, b: usize) -> (r: Vec<char>)
    requires
        a <= b <= v.len(),
    ensures
        r@ == v@.subrange(a as int, b as int),
{
    crate::text::vec_range(v, a, b)
}

/// The hash listed for `file_name` in the lines of a checksum list: the first entry whose
/// name matches, lower-cased; the search ends with `None` at a line with a hash and no name.
pub open spec fn expected_hash_in(lines: Seq<Seq<char>>, file_name: Seq<char>) -> Option<Seq<char>>
    decreases lines.len(),
{
    if lines.len() == 0 {
        None
    } else {
        match sums_entry(lines[0]) {
            None => expected_hash_in(lines.drop_first(), file_name),
            Some((hash, name)) => match name {
                None => None,
                Some(n) => if n == file_name {
                    Some(to_lower(hash))
                } else {
                    expected_hash_in(lines.drop_first(), file_name)
                },
            },
        }
    }
}

pub fn expected_hash_for(sums_body: &str, file_name: &str) -> (r: Option<String>)
    ensures
        r is None <==> expected_hash_in(lines_spec(sums_body@), file_name@) is None,
        r matches Some(h) ==> expected_hash_in(lines_spec(sums_body@), file_name@) == Some(h@),
{
    let lines = lines_vec(&chars_of(sums_body));
    let fname = chars_of(file_name);
    let ghost all = views(lines@);
    assert(all.skip(0) =~= all);
    let mut i: usize = 0;
    while i < lines.len()
        invariant
            i <= lines.len(),
            all == views(lines@),
            all == lines_spec(sums_body@),
            fname@ == file_name@,
            expected_hash_in(all, file_name@) == expected_hash_in(all.skip(i as int), file_name@),
        decreases lines.len() - i,
    {
        let ghost rest = all.skip(i as int);
        assert(rest[0] == lines@[i as int]@);
        assert(rest.drop_first() =~= all.skip(i + 1));
        match sums_entry_of(&lines[i]) {
            None => {},
            Some((hash, name)) => match name {
                None => {
                    return None;
                },
                Some(n) => {
                    if crate::text::vec_eq(&n, &fname) {
                        let l = lower_vec(&hash);
                        return Some(string_of_chars(&l));
                    }
                },
            },
        }
        i += 1;
    }
    assert(all.skip(i as int) =~= Seq::<Seq<char>>::empty());
    None
}

/// The SHA-256 digest of a byte string.
pub uninterp spec fn spec_sha256(data: Seq<u8>) -> Seq<u8>;

/// `Sha256::new()`, `update(data)`, `finalize()`: claims the digest is the value named by
/// `spec_sha256` on the bytes, and is 32 bytes long.
#[verifier::external_body]
pub(crate) fn sha256_digest(data: &[u8]) -> (r: Vec<u8>)
    ensures
        r@ == spec_sha256(data@),
        r@.len() == 32,
{
    let mut hasher = <sha2::Sha256 as sha2::Digest>::new();
    sha2::Digest::update(&mut hasher, data);
    sha2::Digest::finalize(hasher).to_vec()
}

/// What checking an artifact named `name` with contents `data` against a checksum list gives.
pub open spec fn verify_sha256_spec(name: Seq<char>, data: Seq<u8>, sums_body: Seq<char>) -> Result<
    (),
    Seq<char>,
> {
    match expected_hash_in(lines_spec(sums_body), name) {
        None => Err(
            "SHA256SUMS has no entry for "@ + name
                + "; refuse install while CPN_VERIFY_RELEASE is enabled"@,
        ),
        Some(expected) => {
            let actual = hex_lower(spec_sha256(data));
            if actual != expected {
                Err("SHA-256 mismatch for "@ + name + ": expected "@ + expected + ", got "@ + actual)
            } else {
                Ok(())
            }
        },
    }
}

/// Checks the SHA-256 of an artifact's contents against its entry in `SHA256SUMS`.
#[verifier::rlimit(60)]
#[verifier::spinoff_prover]
pub fn verify_sha256_file(name: &str, data: &[u8], sums_body: &str) -> (r: Result<(), String>)
    ensures
        r is Ok <==> verify_sha256_spec(name@, data@, sums_body@) is Ok,
        r matches Err(e) ==> verify_sha256_spec(name@, data@, sums_body@) == Err::<(), Seq<char>>(e@),
{
    let expected = match expected_hash_for(sums_body, name) {
        Some(h) => h,
        None => {
            let mut e = "SHA256SUMS has no entry for ".to_owned();
            e.append(name);
            e.append("; refuse install while CPN_VERIFY_RELEASE is enabled");
            return Err(e);
        },
    };
    let digest = sha256_digest(data);
    let actual = hex_string(digest.as_slice());
    if !str_eq(actual.as_str(), expected.as_str()) {
        let mut e = "SHA-256 mismatch for ".to_owned();
        e.append(name);
        e.append(": expected ");
        e.append(expected.as_str());
        e.append(", got ");
        e.append(actual.as_str());
        return Err(e);
    }
    Ok(())
}

} // verus!
