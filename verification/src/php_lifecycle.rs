//! PHP branch lifecycle checks so CPN never selects an end-of-life runtime.

use vstd::prelude::*;
use vstd::string::*;
use crate::text::{
    chars_of, contains_seq, opt_view, parse_nat, parse_u32, parse_u32_spec, parse_u64,
    split_on, split_vec, str_eq, string_of_chars, strip_leading, trim, views,
};

verus! {

/// The webmail system a host runs.
#[derive(Clone, Copy, Debug, PartialEq, Eq, Structural)]
pub enum MailSystem {
    Snappymail,
    Roundcube,
    Thunderbird,
}

/// Minimum CPN-supported PHP major.minor while this release is published.
pub const CPN_MIN_PHP_BRANCH: &'static str = "8.2";

/// The PHP versions a webmail system supports.
#[derive(Clone, Copy, Debug)]
pub struct PhpCompatRange {
    pub min: &'static str,
    pub max: &'static str,
}

pub fn webmail_php_compat(mail: MailSystem) -> (r: Option<PhpCompatRange>)
    ensures
        r is None <==> mail == MailSystem::Thunderbird,
        r matches Some(c) ==> c.min@ == "8.1"@ && c.max@ == "8.4"@,
{
    match mail {
        MailSystem::Snappymail => Some(PhpCompatRange { min: "8.1", max: "8.4" }),
        MailSystem::Roundcube => Some(PhpCompatRange { min: "8.1", max: "8.4" }),
        MailSystem::Thunderbird => None,
    }
}

/// Upstream end-of-security-support date (PHP.net) of a known branch.
pub open spec fn branch_eol_spec(branch: Seq<char>) -> Option<Seq<char>> {
    if branch == "8.0"@ {
        Some("2023-11-26"@)
    } else if branch == "8.1"@ {
        Some("2025-12-31"@)
    } else if branch == "8.2"@ {
        Some("2026-12-31"@)
    } else if branch == "8.3"@ {
        Some("2027-12-31"@)
    } else if branch == "8.4"@ {
        Some("2028-12-31"@)
    } else {
        None
    }
}

fn branch_eol(branch: &str) -> (r: Option<&'static str>)
    ensures
        opt_view(r) == branch_eol_spec(branch@),
{
    if str_eq(branch, "8.0") {
        Some("2023-11-26")
    } else if str_eq(branch, "8.1") {
        Some("2025-12-31")
    } else if str_eq(branch, "8.2") {
        Some("2026-12-31")
    } else if str_eq(branch, "8.3") {
        Some("2027-12-31")
    } else if str_eq(branch, "8.4") {
        Some("2028-12-31")
    } else {
        None
    }
}

/// `s.parse::<i32>().ok()` for a piece that holds no `-`.
pub open spec fn parse_year_spec(s: Seq<char>) -> Option<i32> {
    match parse_nat(s) {
        Some(n) => if n <= i32::MAX {
            Some(n as i32)
        } else {
            None
        },
        None => None,
    }
}

/// `YYYY-MM-DD` read as three numbers separated by `-` (later pieces ignored).
pub open spec fn parse_ymd_spec(value: Seq<char>) -> Option<(i32, u32, u32)> {
    let p = split_on(value, '-');
    if p.len() < 3 {
        None
    } else {
        match (parse_year_spec(p[0]), parse_u32_spec(p[1]), parse_u32_spec(p[2])) {
            (Some(y), Some(m), Some(d)) => Some((y, m, d)),
            _ => None,
        }
    }
}

fn parse_ymd(value: &str) -> (r: Option<(i32, u32, u32)>)
    ensures
        r == parse_ymd_spec(value@),
{
    let parts = split_vec(&chars_of(value), '-');
    if parts.len() < 3 {
        return None;
    }
    let ys = string_of_chars(&parts[0]);
    let ms = string_of_chars(&parts[1]);
    let ds = string_of_chars(&parts[2]);
    let year: i32 = match parse_u64(ys.as_str()) {
        Some(n) => if n <= 2147483647 {
            n as i32
        } else {
            return None;
        },
        None => return None,
    };
    let month = match parse_u32(ms.as_str()) {
        Some(n) => n,
        None => return None,
    };
    let day = match parse_u32(ds.as_str()) {
        Some(n) => n,
        None => return None,
    };
    Some((year, month, day))
}

/// Major and minor of a branch label: trimmed, leading `v` dropped, first two `.` pieces.
pub open spec fn branch_major_minor_spec(branch: Seq<char>) -> Option<(u32, u32)> {
    let p = split_on(strip_leading(trim(branch), 'v'), '.');
    if p.len() < 2 {
        None
    } else {
        match (parse_u32_spec(p[0]), parse_u32_spec(p[1])) {
            (Some(a), Some(b)) => Some((a, b)),
            _ => None,
        }
    }
}

fn branch_major_minor(branch: &str) -> (r: Option<(u32, u32)>)
    ensures
        r == branch_major_minor_spec(branch@),
{
    let v = chars_of(branch);
    let (a, b) = crate::text::trim_bounds(&v);
    let s = crate::text::strip_leading_start(&v, a, b, 'v');
    let rest = crate::text::vec_range(&v, s, b);
    let parts = split_vec(&rest, '.');
    if parts.len() < 2 {
        return None;
    }
    let ma = string_of_chars(&parts[0]);
    let mi = string_of_chars(&parts[1]);
    let major = match parse_u32(ma.as_str()) {
        Some(n) => n,
        None => return None,
    };
    let minor = match parse_u32(mi.as_str()) {
        Some(n) => n,
        None => return None,
    };
    Some((major, minor))
}

/// `a <= b` for dates compared field by field (year, month, day).
pub open spec fn ymd_le(a: (i32, u32, u32), b: (i32, u32, u32)) -> bool {
    a.0 < b.0 || (a.0 == b.0 && (a.1 < b.1 || (a.1 == b.1 && a.2 <= b.2)))
}

/// Supported on `today`: an unknown branch is allowed; a known one only up to its EOL date,
/// and never when `today` does not read as a date.
pub open spec fn supported_on_spec(branch: Seq<char>, today: Seq<char>) -> bool {
    match branch_eol_spec(trim(branch)) {
        None => true,
        Some(eol) => match parse_ymd_spec(today) {
            None => false,
            Some(t) => match parse_ymd_spec(eol) {
                None => false,
                Some(e) => ymd_le(t, e),
            },
        },
    }
}

/// Returns true when `branch` (e.g. "8.2") still has upstream security support on `today_ymd`.
pub fn php_branch_supported_on(branch: &str, today_ymd: &str) -> (r: bool)
    ensures
        r == supported_on_spec(branch@, today_ymd@),
{
    let b = crate::text::trim_str(branch);
    let eol = match branch_eol(b.as_str()) {
        Some(e) => e,
        None => return true,
    };
    let today = match parse_ymd(today_ymd) {
        Some(t) => t,
        None => return false,
    };
    let eol_day = match parse_ymd(eol) {
        Some(t) => t,
        None => return false,
    };
    today.0 < eol_day.0 || (today.0 == eol_day.0 && (today.1 < eol_day.1 || (today.1 == eol_day.1
        && today.2 <= eol_day.2)))
}

/// `(a, b) < (c, d)` lexicographically.
pub open spec fn pair_lt(x: (u32, u32), y: (u32, u32)) -> bool {
    x.0 < y.0 || (x.0 == y.0 && x.1 < y.1)
}

/// Refusal of a branch that does not parse, is below the CPN minimum or is past its EOL.
pub open spec fn branch_check_spec(branch: Seq<char>, today: Seq<char>) -> Result<(), Seq<char>> {
    match branch_major_minor_spec(branch) {
        None => Err("Invalid PHP branch: "@ + branch),
        Some(bm) => match branch_major_minor_spec(CPN_MIN_PHP_BRANCH@) {
            None => Err("Internal CPN_MIN_PHP_BRANCH is invalid"@),
            Some(min) => if pair_lt(bm, min) {
                Err("PHP "@ + branch + " is below CPN minimum "@ + CPN_MIN_PHP_BRANCH@)
            } else if !supported_on_spec(branch, today) {
                Err("PHP "@ + branch + " is past upstream EOL on "@ + today + "; refuse install (issue #4)"@)
            } else {
                Ok(())
            },
        },
    }
}

#[verifier::rlimit(60)]
#[verifier::spinoff_prover]
pub fn assert_php_branch_not_eol(branch: &str, today_ymd: &str) -> (r: Result<(), String>)
    ensures
        r is Ok <==> branch_check_spec(branch@, today_ymd@) is Ok,
        r matches Err(e) ==> branch_check_spec(branch@, today_ymd@) == Err::<(), Seq<char>>(e@),
{
    let (major, minor) = match branch_major_minor(branch) {
        Some(p) => p,
        None => {
            let mut e = "Invalid PHP branch: ".to_owned();
            e.append(branch);
            return Err(e);
        },
    };
    let (min_major, min_minor) = match branch_major_minor(CPN_MIN_PHP_BRANCH) {
        Some(p) => p,
        None => return Err("Internal CPN_MIN_PHP_BRANCH is invalid".to_owned()),
    };
    if major < min_major || (major == min_major && minor < min_minor) {
        let mut e = "PHP ".to_owned();
        e.append(branch);
        e.append(" is below CPN minimum ");
        e.append(CPN_MIN_PHP_BRANCH);
        return Err(e);
    }
    if !php_branch_supported_on(branch, today_ymd) {
        let mut e = "PHP ".to_owned();
        e.append(branch);
        e.append(" is past upstream EOL on ");
        e.append(today_ymd);
        e.append("; refuse install (issue #4)");
        return Err(e);
    }
    Ok(())
}

/// The branch a module stream or Remi tag names: the newest of `8.4` down to `8.0` that
/// occurs in the trimmed stream.
pub open spec fn stream_branch_spec(stream: Seq<char>) -> Option<Seq<char>> {
    let v = trim(stream);
    if contains_seq(v, "8.5"@) {
        Some("8.5"@)
    } else if contains_seq(v, "8.4"@) {
        Some("8.4"@)
    } else if contains_seq(v, "8.3"@) {
        Some("8.3"@)
    } else if contains_seq(v, "8.2"@) {
        Some("8.2"@)
    } else if contains_seq(v, "8.1"@) {
        Some("8.1"@)
    } else if contains_seq(v, "8.0"@) {
        Some("8.0"@)
    } else {
        None
    }
}

/// Map GuestOs module stream / Remi tag to a PHP branch label.
pub fn branch_from_module_stream(stream: &str) -> (r: Option<&'static str>)
    ensures
        opt_view(r) == stream_branch_spec(stream@),
{
    let value = crate::text::trim_str(stream);
    let v = value.as_str();
    if crate::text::contains_str(v, "8.5") {
        return Some("8.5");
    }
    if crate::text::contains_str(v, "8.4") {
        return Some("8.4");
    }
    if crate::text::contains_str(v, "8.3") {
        return Some("8.3");
    }
    if crate::text::contains_str(v, "8.2") {
        return Some("8.2");
    }
    if crate::text::contains_str(v, "8.1") {
        return Some("8.1");
    }
    if crate::text::contains_str(v, "8.0") {
        return Some("8.0");
    }
    None
}

/// The check of the runtime a module stream selects.
pub open spec fn runtime_check_spec(stream: Seq<char>, today: Seq<char>) -> Result<(), Seq<char>> {
    match stream_branch_spec(stream) {
        None => Err("Cannot derive PHP branch from module stream '"@ + stream + "'"@),
        Some(b) => branch_check_spec(b, today),
    }
}

pub fn assert_selected_runtime_ok(stream: &str, today_ymd: &str) -> (r: Result<(), String>)
    ensures
        r is Ok <==> runtime_check_spec(stream@, today_ymd@) is Ok,
        r matches Err(e) ==> runtime_check_spec(stream@, today_ymd@) == Err::<(), Seq<char>>(e@),
{
    let branch = match branch_from_module_stream(stream) {
        Some(b) => b,
        None => {
            let mut e = "Cannot derive PHP branch from module stream '".to_owned();
            e.append(stream);
            e.append("'");
            return Err(e);
        },
    };
    assert_php_branch_not_eol(branch, today_ymd)
}

} // verus!
