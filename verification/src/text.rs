//! Character-level string model shared by every module: whitespace trimming,
//! ASCII case folding, searching, HTML escaping and decimal numbers.

use vstd::prelude::*;
use vstd::string::*;

verus! {

/// Unicode `White_Space`, the set that `char::is_whitespace` and `str::trim` use.
pub open spec fn is_ws(c: char) -> bool {
    let u = c as u32;
    (0x09 <= u && u <= 0x0D) || u == 0x20 || u == 0x85 || u == 0xA0 || u == 0x1680
        || (0x2000 <= u && u <= 0x200A) || u == 0x2028 || u == 0x2029 || u == 0x202F
        || u == 0x205F || u == 0x3000
}

pub fn is_ws_char(c: char) -> (r: bool)
    ensures
        r == is_ws(c),
{
    let u = c as u32;
    (0x09 <= u && u <= 0x0D) || u == 0x20 || u == 0x85 || u == 0xA0 || u == 0x1680
        || (0x2000 <= u && u <= 0x200A) || u == 0x2028 || u == 0x2029 || u == 0x202F
        || u == 0x205F || u == 0x3000
}

pub open spec fn trim_start(s: Seq<char>) -> Seq<char>
    decreases s.len(),
{
    if s.len() > 0 && is_ws(s[0]) {
        trim_start(s.drop_first())
    } else {
        s
    }
}

pub open spec fn trim_end(s: Seq<char>) -> Seq<char>
    decreases s.len(),
{
    if s.len() > 0 && is_ws(s.last()) {
        trim_end(s.drop_last())
    } else {
        s
    }
}

/// `str::trim`: both ends stripped of Unicode whitespace.
pub open spec fn trim(s: Seq<char>) -> Seq<char> {
    trim_end(trim_start(s))
}

/// The characters of a string slice, in order.
#[verifier::external_body]
pub fn chars_of(s: &str) -> (v: Vec<char>)
    ensures
        v@ == s@,
{
    s.chars().collect()
}

/// Appends one character (`String::push`).
#[verifier::external_body]
pub fn push_char(out: &mut String, c: char)
    ensures
        final(out)@ == old(out)@.push(c),
{
    out.push(c)
}

/// A fresh `String` holding `v[a..b]`.
pub fn string_of_range(v: &Vec<char>, a: usize, b: usize) -> (r: String)
    requires
        a <= b <= v.len(),
    ensures
        r@ == v@.subrange(a as int, b as int),
{
    let mut out = String::new();
    let mut i = a;
    while i < b
        invariant
            a <= i <= b <= v.len(),
            out@ == v@.subrange(a as int, i as int),
        decreases b - i,
    {
        push_char(&mut out, v[i]);
        assert(v@.subrange(a as int, i + 1) =~= v@.subrange(a as int, i as int).push(v@[i as int]));
        i += 1;
    }
    out
}

/// A fresh `String` with the same characters as `v`.
pub fn string_of_chars(v: &Vec<char>) -> (r: String)
    ensures
        r@ == v@,
{
    let r = string_of_range(v, 0, v.len());
    assert(v@.subrange(0, v@.len() as int) =~= v@);
    r
}

proof fn lemma_trim_start_step(s: Seq<char>, i: int)
    requires
        0 <= i < s.len(),
        is_ws(s[i]),
    ensures
        trim_start(s.skip(i)) == trim_start(s.skip(i + 1)),
{
    assert(s.skip(i).drop_first() =~= s.skip(i + 1));
}

proof fn lemma_trim_end_step(s: Seq<char>, a: int, j: int)
    requires
        0 <= a < j <= s.len(),
        is_ws(s[j - 1]),
    ensures
        trim_end(s.subrange(a, j)) == trim_end(s.subrange(a, j - 1)),
{
    assert(s.subrange(a, j).drop_last() =~= s.subrange(a, j - 1));
}

/// Bounds `(a, b)` such that `v[a..b]` is `v` trimmed.
pub fn trim_bounds(v: &Vec<char>) -> (r: (usize, usize))
    ensures
        r.0 <= r.1 <= v.len(),
        v@.subrange(r.0 as int, r.1 as int) == trim(v@),
{
    let n = v.len();
    let mut i: usize = 0;
    assert(v@.skip(0) =~= v@);
    while i < n && is_ws_char(v[i])
        invariant
            i <= n == v.len(),
            trim_start(v@) == trim_start(v@.skip(i as int)),
        decreases n - i,
    {
        proof {
            lemma_trim_start_step(v@, i as int);
        }
        i += 1;
    }
    proof {
        if i < n {
            assert(v@.skip(i as int)[0] == v@[i as int]);
        }
        assert(trim_start(v@.skip(i as int)) == v@.skip(i as int));
        assert(v@.skip(i as int) =~= v@.subrange(i as int, n as int));
    }
    let mut j: usize = n;
    while j > i && is_ws_char(v[j - 1])
        invariant
            i <= j <= n == v.len(),
            trim_start(v@) == v@.subrange(i as int, n as int),
            trim(v@) == trim_end(v@.subrange(i as int, j as int)),
        decreases j - i,
    {
        proof {
            lemma_trim_end_step(v@, i as int, j as int);
        }
        j -= 1;
    }
    proof {
        if j > i {
            assert(v@.subrange(i as int, j as int).last() == v@[j - 1]);
        }
    }
    (i, j)
}

/// `s.trim().to_string()`.
pub fn trim_str(s: &str) -> (r: String)
    ensures
        r@ == trim(s@),
{
    let v = chars_of(s);
    let (a, b) = trim_bounds(&v);
    string_of_range(&v, a, b)
}


/// ASCII case folding of one character (`char::to_ascii_lowercase`).
pub open spec fn lower_char(c: char) -> char {
    if 65 <= (c as u32) && (c as u32) <= 90 {
        ((c as u32) + 32) as char
    } else {
        c
    }
}

/// `str::to_ascii_lowercase`, character by character.
pub open spec fn to_lower(s: Seq<char>) -> Seq<char> {
    s.map_values(|c: char| lower_char(c))
}

/// `str::eq_ignore_ascii_case`.
pub open spec fn eq_ignore_case(a: Seq<char>, b: Seq<char>) -> bool {
    to_lower(a) == to_lower(b)
}

pub fn lower_of(c: char) -> (r: char)
    ensures
        r == lower_char(c),
{
    let u = c as u32;
    if 65 <= u && u <= 90 {
        let b = (u + 32) as u8;
        b as char
    } else {
        c
    }
}

/// Lower-cased copy of a character vector.
pub fn lower_vec(v: &Vec<char>) -> (r: Vec<char>)
    ensures
        r@ == to_lower(v@),
{
    let mut out: Vec<char> = Vec::new();
    let mut i: usize = 0;
    while i < v.len()
        invariant
            i <= v.len(),
            out@ == to_lower(v@.take(i as int)),
        decreases v.len() - i,
    {
        out.push(lower_of(v[i]));
        assert(to_lower(v@.take(i + 1)) =~= to_lower(v@.take(i as int)).push(lower_char(v@[i as int])));
        i += 1;
    }
    assert(v@.take(v.len() as int) =~= v@);
    out
}

/// `s.to_ascii_lowercase()`.
pub fn lower_str(s: &str) -> (r: String)
    ensures
        r@ == to_lower(s@),
{
    let v = chars_of(s);
    let l = lower_vec(&v);
    string_of_chars(&l)
}

/// Element-wise equality of two character vectors.
pub fn vec_eq(a: &Vec<char>, b: &Vec<char>) -> (r: bool)
    ensures
        r == (a@ == b@),
{
    if a.len() != b.len() {
        return false;
    }
    let mut i: usize = 0;
    while i < a.len()
        invariant
            i <= a.len() == b.len(),
            forall|k: int| 0 <= k < i ==> a@[k] == b@[k],
        decreases a.len() - i,
    {
        if a[i] != b[i] {
            return false;
        }
        i += 1;
    }
    assert(a@ =~= b@);
    true
}

/// String equality by characters.
pub fn str_eq(a: &str, b: &str) -> (r: bool)
    ensures
        r == (a@ == b@),
{
    let va = chars_of(a);
    let vb = chars_of(b);
    vec_eq(&va, &vb)
}

/// `a.eq_ignore_ascii_case(b)`.
pub fn eq_ignore_case_str(a: &str, b: &str) -> (r: bool)
    ensures
        r == eq_ignore_case(a@, b@),
{
    let va = lower_vec(&chars_of(a));
    let vb = lower_vec(&chars_of(b));
    vec_eq(&va, &vb)
}

/// `pat` occurs in `s` starting at index `i`.
pub open spec fn occurs_at(s: Seq<char>, pat: Seq<char>, i: int) -> bool {
    0 <= i && i + pat.len() <= s.len() && s.subrange(i, i + pat.len()) == pat
}

/// `str::contains` with a string pattern.
pub open spec fn contains_seq(s: Seq<char>, pat: Seq<char>) -> bool {
    exists|i: int| occurs_at(s, pat, i)
}

/// Lower-casing keeps every occurrence: where `pat` occurs in `s`, the lower-cased `pat`
/// occurs in the lower-cased `s`.
pub proof fn lemma_lower_keeps_occurrence(s: Seq<char>, pat: Seq<char>)
    requires
        contains_seq(s, pat),
    ensures
        contains_seq(to_lower(s), to_lower(pat)),
{
    let i = choose|i: int| occurs_at(s, pat, i);
    assert forall|k: int| 0 <= k < pat.len() implies #[trigger] s[i + k] == pat[k] by {
        assert(s.subrange(i, i + pat.len())[k] == s[i + k]);
    }
    assert(to_lower(s).subrange(i, i + pat.len()) =~= to_lower(pat));
    assert(occurs_at(to_lower(s), to_lower(pat), i));
}

pub fn match_at(v: &Vec<char>, pat: &Vec<char>, i: usize) -> (r: bool)
    ensures
        r == occurs_at(v@, pat@, i as int),
{
    if i > v.len() || pat.len() > v.len() - i {
        return false;
    }
    let mut k: usize = 0;
    while k < pat.len()
        invariant
            i + pat.len() <= v.len(),
            k <= pat.len(),
            forall|j: int| 0 <= j < k ==> v@[i + j] == pat@[j],
        decreases pat.len() - k,
    {
        if v[i + k] != pat[k] {
            assert(v@.subrange(i as int, i + pat.len())[k as int] != pat@[k as int]);
            return false;
        }
        k += 1;
    }
    assert(v@.subrange(i as int, i + pat.len()) =~= pat@);
    true
}

/// First occurrence of `pat` at or after `start`.
pub fn find_from(v: &Vec<char>, pat: &Vec<char>, start: usize) -> (r: Option<usize>)
    ensures
        match r {
            Some(k) => start <= k && occurs_at(v@, pat@, k as int) && forall|j: int|
                start <= j < k ==> !occurs_at(v@, pat@, j),
            None => forall|j: int| start <= j ==> !occurs_at(v@, pat@, j),
        },
{
    if start > v.len() {
        return None;
    }
    let mut i = start;
    while i < v.len()
        invariant
            start <= i <= v.len(),
            forall|j: int| start <= j < i ==> !occurs_at(v@, pat@, j),
        decreases v.len() - i,
    {
        if match_at(v, pat, i) {
            return Some(i);
        }
        i += 1;
    }
    if match_at(v, pat, i) {
        return Some(i);
    }
    None
}

/// Last occurrence of `pat` starting strictly before `end` (`str::rfind` on `v[..end + pat.len()]`).
pub fn rfind_before(v: &Vec<char>, pat: &Vec<char>, end: usize) -> (r: Option<usize>)
    ensures
        match r {
            Some(k) => k < end && occurs_at(v@, pat@, k as int) && forall|j: int|
                k < j < end ==> !occurs_at(v@, pat@, j),
            None => forall|j: int| 0 <= j < end ==> !occurs_at(v@, pat@, j),
        },
{
    let mut i = end;
    while i > 0
        invariant
            i <= end,
            forall|j: int| i <= j < end ==> !occurs_at(v@, pat@, j),
        decreases i,
    {
        if match_at(v, pat, i - 1) {
            return Some(i - 1);
        }
        i -= 1;
    }
    None
}

/// `s.contains(pat)`.
pub fn contains_str(s: &str, pat: &str) -> (r: bool)
    ensures
        r == contains_seq(s@, pat@),
{
    let v = chars_of(s);
    let p = chars_of(pat);
    match find_from(&v, &p, 0) {
        Some(_) => true,
        None => false,
    }
}

/// `s.starts_with(p)`.
pub fn starts_with_str(s: &str, p: &str) -> (r: bool)
    ensures
        r == p@.is_prefix_of(s@),
{
    let v = chars_of(s);
    let pv = chars_of(p);
    let r = match_at(&v, &pv, 0);
    assert(r == occurs_at(v@, pv@, 0));
    r
}

/// `s.ends_with(p)`.
pub fn ends_with_str(s: &str, p: &str) -> (r: bool)
    ensures
        r == p@.is_suffix_of(s@),
{
    let v = chars_of(s);
    let pv = chars_of(p);
    if pv.len() > v.len() {
        return false;
    }
    let r = match_at(&v, &pv, v.len() - pv.len());
    r
}

/// How one character is written by `html_escape`.
pub open spec fn esc_char(c: char) -> Seq<char> {
    if c == '&' {
        "&amp;"@
    } else if c == '<' {
        "&lt;"@
    } else if c == '>' {
        "&gt;"@
    } else if c == '"' {
        "&quot;"@
    } else {
        seq![c]
    }
}

/// `& < > "` replaced by their HTML entities, every other character kept.
pub open spec fn html_escaped(s: Seq<char>) -> Seq<char>
    decreases s.len(),
{
    if s.len() == 0 {
        seq![]
    } else {
        html_escaped(s.drop_last()) + esc_char(s.last())
    }
}

#[verifier::rlimit(60)]
#[verifier::spinoff_prover]
pub fn push_escaped_char(out: &mut String, c: char)
    ensures
        final(out)@ == old(out)@ + esc_char(c),
{
    if c == '&' {
        out.append("&amp;");
    } else if c == '<' {
        out.append("&lt;");
    } else if c == '>' {
        out.append("&gt;");
    } else if c == '"' {
        out.append("&quot;");
    } else {
        push_char(out, c);
        assert(old(out)@.push(c) =~= old(out)@ + seq![c]);
    }
}

/// Appends `html_escape(s)`.
pub fn push_escaped(out: &mut String, s: &str)
    ensures
        final(out)@ == old(out)@ + html_escaped(s@),
{
    let v = chars_of(s);
    let ghost start = out@;
    let mut i: usize = 0;
    while i < v.len()
        invariant
            i <= v.len(),
            v@ == s@,
            out@ == start + html_escaped(v@.take(i as int)),
        decreases v.len() - i,
    {
        push_escaped_char(out, v[i]);
        assert(v@.take(i + 1).drop_last() =~= v@.take(i as int));
        assert(html_escaped(v@.take(i + 1)) == html_escaped(v@.take(i as int)) + esc_char(v@[i as int]));
        assert(start + html_escaped(v@.take(i as int)) + esc_char(v@[i as int]) =~= start + (html_escaped(v@.take(i as int)) + esc_char(v@[i as int])));
        i += 1;
    }
    assert(v@.take(v.len() as int) =~= v@);
}

/// `html_escape(s)` as a new string.
pub fn escape_html(s: &str) -> (r: String)
    ensures
        r@ == html_escaped(s@),
{
    let mut out = String::new();
    push_escaped(&mut out, s);
    assert(Seq::<char>::empty() + html_escaped(s@) =~= html_escaped(s@));
    out
}

/// The decimal digit character for `d < 10`.
pub open spec fn digit_char(d: nat) -> char {
    ((48 + d) as u32) as char
}

/// Decimal representation of `n` without leading zeros (`n.to_string()`).
pub open spec fn dec(n: nat) -> Seq<char>
    decreases n,
{
    if n < 10 {
        seq![digit_char(n)]
    } else {
        dec(n / 10).push(digit_char(n % 10))
    }
}

/// `format!("{n:0w$}")`: zeros in front up to width `w`.
pub open spec fn dec_pad(n: nat, w: nat) -> Seq<char> {
    if dec(n).len() < w {
        Seq::new((w - dec(n).len()) as nat, |i: int| '0') + dec(n)
    } else {
        dec(n)
    }
}

pub fn digit_of(d: u64) -> (c: char)
    requires
        d < 10,
    ensures
        c == digit_char(d as nat),
{
    let b = (48 + d) as u8;
    b as char
}

/// Appends the decimal form of `n`.
pub fn push_dec(out: &mut String, n: u64)
    ensures
        final(out)@ == old(out)@ + dec(n as nat),
    decreases n,
{
    if n >= 10 {
        push_dec(out, n / 10);
    }
    push_char(out, digit_of(n % 10));
    proof {
        if n < 10 {
            assert(old(out)@.push(digit_char(n as nat)) =~= old(out)@ + seq![digit_char(n as nat)]);
        } else {
            assert(old(out)@ + dec((n / 10) as nat) + seq![digit_char((n % 10) as nat)] =~= old(out)@ + dec(n as nat));
        }
    }
}

/// `n.to_string()`.
pub fn dec_string(n: u64) -> (r: String)
    ensures
        r@ == dec(n as nat),
{
    let mut out = String::new();
    push_dec(&mut out, n);
    assert(Seq::<char>::empty() + dec(n as nat) =~= dec(n as nat));
    out
}

pub proof fn lemma_dec_len_pos(n: nat)
    ensures
        dec(n).len() >= 1,
        n < 10 ==> dec(n).len() == 1,
        n >= 10 ==> dec(n).len() >= 2,
    decreases n,
{
    if n >= 10 {
        lemma_dec_len_pos(n / 10);
    }
}

/// Appends `n` zero-padded to width 2 (`{n:02}`).
pub fn push_dec_pad2(out: &mut String, n: u64)
    ensures
        final(out)@ == old(out)@ + dec_pad(n as nat, 2),
{
    proof {
        lemma_dec_len_pos(n as nat);
    }
    if n < 10 {
        push_char(out, '0');
        push_dec(out, n);
        assert(Seq::new(1, |i: int| '0') =~= seq!['0']);
        assert(old(out)@.push('0') + dec(n as nat) =~= old(out)@ + (Seq::new(1, |i: int| '0') + dec(n as nat)));
    } else {
        push_dec(out, n);
    }
}

/// An ASCII decimal digit.
pub open spec fn is_digit(c: char) -> bool {
    48 <= (c as u32) && (c as u32) <= 57
}

pub open spec fn digit_val(c: char) -> nat {
    ((c as u32) - 48) as nat
}

pub open spec fn all_digits(s: Seq<char>) -> bool {
    forall|i: int| 0 <= i < s.len() ==> is_digit(#[trigger] s[i])
}

/// The number written by a string of decimal digits.
pub open spec fn digits_value(s: Seq<char>) -> nat
    decreases s.len(),
{
    if s.len() == 0 {
        0
    } else {
        digits_value(s.drop_last()) * 10 + digit_val(s.last())
    }
}

/// The digits after an optional leading `+`.
pub open spec fn unsigned_body(s: Seq<char>) -> Seq<char> {
    if s.len() > 0 && s[0] == '+' {
        s.drop_first()
    } else {
        s
    }
}

/// What `str::parse` of an unsigned integer reads, before the range check.
pub open spec fn parse_nat(s: Seq<char>) -> Option<nat> {
    let b = unsigned_body(s);
    if b.len() > 0 && all_digits(b) {
        Some(digits_value(b))
    } else {
        None
    }
}

/// `s.parse::<u64>().ok()`.
pub open spec fn parse_u64_spec(s: Seq<char>) -> Option<u64> {
    match parse_nat(s) {
        Some(n) => if n <= u64::MAX {
            Some(n as u64)
        } else {
            None
        },
        None => None,
    }
}

/// `s.parse::<usize>().ok()`.
pub open spec fn parse_usize_spec(s: Seq<char>) -> Option<usize> {
    match parse_nat(s) {
        Some(n) => if n <= usize::MAX {
            Some(n as usize)
        } else {
            None
        },
        None => None,
    }
}

/// `s.parse::<u32>().ok()`.
pub open spec fn parse_u32_spec(s: Seq<char>) -> Option<u32> {
    match parse_nat(s) {
        Some(n) => if n <= u32::MAX {
            Some(n as u32)
        } else {
            None
        },
        None => None,
    }
}

pub proof fn lemma_digits_value_prefix(s: Seq<char>, k: int)
    requires
        all_digits(s),
        0 <= k <= s.len(),
    ensures
        digits_value(s) >= digits_value(s.take(k)),
    decreases s.len(),
{
    if k < s.len() {
        assert(s.drop_last().take(k) =~= s.take(k));
        lemma_digits_value_prefix(s.drop_last(), k);
    } else {
        assert(s.take(k) =~= s);
    }
}

/// Digits-only parse of `v[a..]` into a `u64`, `None` when empty, non-digit or too large.
pub fn parse_digits_u64(v: &Vec<char>, a: usize) -> (r: Option<u64>)
    requires
        a <= v.len(),
    ensures
        ({
            let b = v@.skip(a as int);
            match r {
                Some(x) => b.len() > 0 && all_digits(b) && digits_value(b) == x,
                None => !(b.len() > 0 && all_digits(b) && digits_value(b) <= u64::MAX),
            }
        }),
{
    let ghost b = v@.skip(a as int);
    if a == v.len() {
        return None;
    }
    let mut acc: u64 = 0;
    let mut i = a;
    assert(b.take(0) =~= Seq::<char>::empty());
    while i < v.len()
        invariant
            a <= i <= v.len(),
            b == v@.skip(a as int),
            all_digits(b.take(i - a)),
            acc == digits_value(b.take(i - a)),
        decreases v.len() - i,
    {
        let c = v[i];
        let u = c as u32;
        if u < 48 || u > 57 {
            assert(b[i - a] == c);
            return None;
        }
        let d = (u - 48) as u64;
        assert(b.take(i - a + 1).drop_last() =~= b.take(i - a));
        assert(b.take(i - a + 1).last() == c);
        match acc.checked_mul(10) {
            Some(m) => match m.checked_add(d) {
                Some(n) => {
                    acc = n;
                },
                None => {
                    proof {
                        if all_digits(b) {
                            lemma_digits_value_prefix(b, i - a + 1);
                        }
                    }
                    return None;
                },
            },
            None => {
                proof {
                    if all_digits(b) {
                        lemma_digits_value_prefix(b, i - a + 1);
                    }
                }
                return None;
            },
        }
        i += 1;
    }
    assert(b.take(i - a) =~= b);
    Some(acc)
}

/// `s.parse::<u64>().ok()` (optional `+`, then ASCII digits, in range).
pub fn parse_u64(s: &str) -> (r: Option<u64>)
    ensures
        r == parse_u64_spec(s@),
{
    let v = chars_of(s);
    let start: usize = if v.len() > 0 && v[0] == '+' { 1 } else { 0 };
    assert(v@.skip(start as int) =~= unsigned_body(v@));
    parse_digits_u64(&v, start)
}

/// `s.parse::<usize>().ok()`.
pub fn parse_usize(s: &str) -> (r: Option<usize>)
    ensures
        r == parse_usize_spec(s@),
{
    match parse_u64(s) {
        Some(x) => if x <= usize::MAX as u64 {
            Some(x as usize)
        } else {
            None
        },
        None => {
            proof {
                if parse_nat(s@) is Some {
                    assert(parse_nat(s@)->0 > u64::MAX);
                }
            }
            None
        },
    }
}

/// `s.parse::<u32>().ok()`.
pub fn parse_u32(s: &str) -> (r: Option<u32>)
    ensures
        r == parse_u32_spec(s@),
{
    match parse_u64(s) {
        Some(x) => if x <= u32::MAX as u64 {
            Some(x as u32)
        } else {
            None
        },
        None => None,
    }
}


/// `str::split(sep)`: the pieces between separators, empty pieces kept.
pub open spec fn split_on(s: Seq<char>, sep: char) -> Seq<Seq<char>>
    decreases s.len(),
{
    if s.len() == 0 {
        seq![Seq::<char>::empty()]
    } else {
        let p = split_on(s.drop_last(), sep);
        if s.last() == sep {
            p.push(Seq::<char>::empty())
        } else {
            p.update(p.len() - 1, p.last().push(s.last()))
        }
    }
}

pub proof fn lemma_split_on_nonempty(s: Seq<char>, sep: char)
    ensures
        split_on(s, sep).len() >= 1,
    decreases s.len(),
{
    if s.len() > 0 {
        lemma_split_on_nonempty(s.drop_last(), sep);
    }
}

/// The views of a sequence of character vectors.
pub open spec fn views(vs: Seq<Vec<char>>) -> Seq<Seq<char>> {
    vs.map_values(|x: Vec<char>| x@)
}

/// `s.split(sep)` collected into character vectors.
pub fn split_vec(v: &Vec<char>, sep: char) -> (r: Vec<Vec<char>>)
    ensures
        views(r@) == split_on(v@, sep),
{
    let mut done: Vec<Vec<char>> = Vec::new();
    let mut cur: Vec<char> = Vec::new();
    let mut i: usize = 0;
    assert(v@.take(0) =~= Seq::<char>::empty());
    assert(views(done@).push(cur@) =~= split_on(v@.take(0), sep));
    while i < v.len()
        invariant
            i <= v.len(),
            views(done@).push(cur@) == split_on(v@.take(i as int), sep),
        decreases v.len() - i,
    {
        let c = v[i];
        let ghost prev = views(done@).push(cur@);
        assert(v@.take(i + 1).drop_last() =~= v@.take(i as int));
        assert(v@.take(i + 1).last() == c);
        if c == sep {
            let old_cur = cur;
            done.push(old_cur);
            cur = Vec::new();
            assert(views(done@) =~= prev);
            assert(views(done@).push(cur@) =~= prev.push(Seq::<char>::empty()));
        } else {
            cur.push(c);
            assert(views(done@).push(cur@) =~= prev.update(prev.len() - 1, prev.last().push(c)));
        }
        i += 1;
    }
    let last = cur;
    done.push(last);
    assert(v@.take(v.len() as int) =~= v@);
    assert(views(done@) =~= split_on(v@, sep));
    done
}

/// The pieces of `split('\n')`, without a final empty piece.
pub open spec fn kept_lines(s: Seq<char>) -> Seq<Seq<char>> {
    let p = split_on(s, '\n');
    if p.last().len() == 0 {
        p.drop_last()
    } else {
        p
    }
}

/// Line `k` of `s`: a `\r` that stood before a `\n` is dropped.
pub open spec fn line_at(s: Seq<char>, k: int) -> Seq<char> {
    let p = split_on(s, '\n');
    let q = kept_lines(s)[k];
    if k < p.len() - 1 && q.len() > 0 && q.last() == '\r' {
        q.drop_last()
    } else {
        q
    }
}

/// `str::lines`: pieces between `\n`, a `\r` before a `\n` dropped, no final empty line.
pub open spec fn lines_spec(s: Seq<char>) -> Seq<Seq<char>> {
    Seq::new(kept_lines(s).len(), |k: int| line_at(s, k))
}

/// A copy of the first `n` characters of `v`.
pub fn vec_prefix(v: &Vec<char>, n: usize) -> (r: Vec<char>)
    requires
        n <= v.len(),
    ensures
        r@ == v@.take(n as int),
{
    let mut t: Vec<char> = Vec::new();
    let mut j: usize = 0;
    while j < n
        invariant
            n <= v.len(),
            j <= n,
            t@ == v@.take(j as int),
        decreases n - j,
    {
        t.push(v[j]);
        assert(v@.take(j + 1) =~= v@.take(j as int).push(v@[j as int]));
        j += 1;
    }
    t
}

/// `s.lines()` collected into character vectors.
pub fn lines_vec(v: &Vec<char>) -> (r: Vec<Vec<char>>)
    ensures
        views(r@) == lines_spec(v@),
{
    let parts = split_vec(v, '\n');
    proof {
        lemma_split_on_nonempty(v@, '\n');
    }
    let n = parts.len();
    let keep = if parts[n - 1].len() == 0 { n - 1 } else { n };
    let ghost p = split_on(v@, '\n');
    let ghost kept = if p.last().len() == 0 { p.drop_last() } else { p };
    let mut out: Vec<Vec<char>> = Vec::new();
    let mut k: usize = 0;
    assert(views(parts@).len() == n);
    assert(kept == kept_lines(v@));
    assert(lines_spec(v@).len() == keep);
    while k < keep
        invariant
            n == parts.len() == p.len(),
            views(parts@) == p,
            keep <= n,
            keep == kept.len(),
            forall|j: int| 0 <= j < keep ==> kept[j] == p[j],
            k <= keep,
            views(out@) =~= lines_spec(v@).take(k as int),
            lines_spec(v@).len() == keep,
            p.len() >= 1,
            kept == kept_lines(v@),
            p == split_on(v@, '\n'),
        decreases keep - k,
    {
        let piece = &parts[k];
        assert(piece@ == p[k as int]);
        let m = piece.len();
        let strip = k + 1 < n && m > 0 && piece[m - 1] == '\r';
        let line = if strip {
            let t = vec_prefix(piece, m - 1);
            assert(piece@.take(m - 1) =~= piece@.drop_last());
            t
        } else {
            let t = vec_prefix(piece, m);
            assert(piece@.take(m as int) =~= piece@);
            t
        };
        assert(kept[k as int] == piece@);
        assert(lines_spec(v@)[k as int] == line_at(v@, k as int));
        if strip {
            assert(piece@.last() == piece@[m - 1]);
        }
        assert(line@ == lines_spec(v@)[k as int]);
        let ghost before = views(out@);
        out.push(line);
        assert(views(out@) =~= before.push(lines_spec(v@)[k as int]));
        assert(lines_spec(v@).take(k + 1) =~= lines_spec(v@).take(k as int).push(lines_spec(v@)[k as int]));
        k += 1;
    }
    assert(lines_spec(v@).len() == keep);
    assert(lines_spec(v@).take(keep as int) =~= lines_spec(v@));
    out
}

/// Hex digit (lower case) for `d < 16`.
pub open spec fn hex_digit(d: nat) -> char {
    if d < 10 {
        digit_char(d)
    } else {
        ((87 + d) as u32) as char
    }
}

/// Lower-case hex of a byte string, two digits per byte (`{b:02x}` for each byte).
pub open spec fn hex_lower(b: Seq<u8>) -> Seq<char>
    decreases b.len(),
{
    if b.len() == 0 {
        seq![]
    } else {
        hex_lower(b.drop_last()) + seq![hex_digit((b.last() / 16) as nat), hex_digit((b.last() % 16) as nat)]
    }
}

pub fn hex_digit_of(d: u8) -> (c: char)
    requires
        d < 16,
    ensures
        c == hex_digit(d as nat),
{
    if d < 10 {
        let b = 48 + d;
        b as char
    } else {
        let b = 87 + d;
        b as char
    }
}

/// `bytes.iter().map(|b| format!("{b:02x}")).collect::<String>()`.
pub fn hex_string(bytes: &[u8]) -> (r: String)
    ensures
        r@ == hex_lower(bytes@),
{
    let mut out = String::new();
    let mut i: usize = 0;
    while i < bytes.len()
        invariant
            i <= bytes.len(),
            out@ == hex_lower(bytes@.take(i as int)),
        decreases bytes.len() - i,
    {
        let b = bytes[i];
        push_char(&mut out, hex_digit_of(b / 16));
        push_char(&mut out, hex_digit_of(b % 16));
        assert(bytes@.take(i + 1).drop_last() =~= bytes@.take(i as int));
        assert(out@ =~= hex_lower(bytes@.take(i + 1)));
        i += 1;
    }
    assert(bytes@.take(bytes.len() as int) =~= bytes@);
    out
}


/// Index of the first `c` in `s`.
pub open spec fn idx_of(s: Seq<char>, c: char) -> Option<int>
    decreases s.len(),
{
    if s.len() == 0 {
        None
    } else if s[0] == c {
        Some(0)
    } else {
        match idx_of(s.drop_first(), c) {
            Some(i) => Some(i + 1),
            None => None,
        }
    }
}

pub proof fn lemma_idx_of(s: Seq<char>, c: char, i: int)
    requires
        0 <= i <= s.len(),
        forall|j: int| 0 <= j < i ==> s[j] != c,
        i == s.len() || s[i] == c,
    ensures
        idx_of(s, c) == (if i == s.len() {
            None::<int>
        } else {
            Some(i)
        }),
    decreases i,
{
    if i > 0 {
        lemma_idx_of(s.drop_first(), c, i - 1);
    }
}

/// `idx_of` of `a + b` where `a` has no `c`.
pub proof fn lemma_idx_of_concat(a: Seq<char>, b: Seq<char>, c: char)
    requires
        forall|j: int| 0 <= j < a.len() ==> a[j] != c,
        b.len() > 0,
        b[0] == c,
    ensures
        idx_of(a + b, c) == Some(a.len() as int),
{
    lemma_idx_of(a + b, c, a.len() as int);
}

/// First `c` at or after `start`.
pub fn find_char(v: &Vec<char>, c: char, start: usize) -> (r: Option<usize>)
    requires
        start <= v.len(),
    ensures
        match r {
            Some(k) => idx_of(v@.skip(start as int), c) == Some(k - start),
            None => idx_of(v@.skip(start as int), c) is None,
        },
        r matches Some(k) ==> start <= k < v.len() && v@[k as int] == c,
{
    let ghost t = v@.skip(start as int);
    let mut i = start;
    while i < v.len()
        invariant
            start <= i <= v.len(),
            t == v@.skip(start as int),
            forall|j: int| 0 <= j < i - start ==> t[j] != c,
        decreases v.len() - i,
    {
        if v[i] == c {
            proof {
                lemma_idx_of(t, c, i - start);
            }
            return Some(i);
        }
        i += 1;
    }
    proof {
        lemma_idx_of(t, c, i - start);
    }
    None
}

pub proof fn lemma_digit_char(d: nat)
    requires
        d < 10,
    ensures
        is_digit(digit_char(d)),
        digit_val(digit_char(d)) == d,
        digit_char(d) != '+',
        digit_char(d) != '|',
        digit_char(d) != '.',
        digit_char(d) != '-',
        digit_char(d) != '/',
{
    vstd::utf8::char_u32_cast(digit_char(d), (48 + d) as u32);
}

/// `dec(n)` is a digit string that reads back as `n`.
pub proof fn lemma_dec_digits(n: nat)
    ensures
        dec(n).len() >= 1,
        all_digits(dec(n)),
        digits_value(dec(n)) == n,
        forall|j: int| 0 <= j < dec(n).len() ==> dec(n)[j] != '|' && dec(n)[j] != '+' && dec(n)[j] != '.'
            && dec(n)[j] != '-' && dec(n)[j] != '/',
    decreases n,
{
    lemma_digit_char(n % 10);
    if n >= 10 {
        lemma_dec_digits(n / 10);
        assert(dec(n).drop_last() =~= dec(n / 10));
        assert(dec(n).last() == digit_char(n % 10));
        assert(digits_value(dec(n)) == digits_value(dec(n / 10)) * 10 + digit_val(digit_char(n % 10)));
        assert((n / 10) * 10 + n % 10 == n);
    } else {
        assert(dec(n).drop_last() =~= Seq::<char>::empty());
        assert(digits_value(dec(n)) == digits_value(Seq::<char>::empty()) * 10 + digit_val(digit_char(n)));
    }
}

/// Parsing `n.to_string()` gives `n` back.
pub proof fn lemma_parse_dec(n: u64)
    ensures
        parse_u64_spec(dec(n as nat)) == Some(n),
{
    lemma_dec_digits(n as nat);
    assert(unsigned_body(dec(n as nat)) == dec(n as nat));
}


/// The first piece of `split(sep)` is everything before the first `sep`.
pub proof fn lemma_split_first(s: Seq<char>, sep: char, i: int)
    requires
        0 <= i <= s.len(),
        forall|j: int| 0 <= j < i ==> s[j] != sep,
        i == s.len() || s[i] == sep,
    ensures
        split_on(s, sep)[0] == s.take(i),
        i < s.len() ==> split_on(s, sep).len() >= 2,
        i == s.len() ==> split_on(s, sep).len() == 1,
    decreases s.len(),
{
    lemma_split_on_nonempty(s, sep);
    if s.len() > 0 {
        let t = s.drop_last();
        let i2 = if i == s.len() { t.len() as int } else { i };
        lemma_split_first(t, sep, i2);
        assert(t.take(i2) =~= s.take(i2));
        if i == s.len() {
            assert(t =~= s.take(i - 1));
            assert(s.take(i) =~= t.push(s.last()));
        }
    }
}


/// A copy of `v[a..b]`.
pub fn vec_range(v: &Vec<char>, a: usize, b: usize) -> (r: Vec<char>)
    requires
        a <= b <= v.len(),
    ensures
        r@ == v@.subrange(a as int, b as int),
{
    let mut t: Vec<char> = Vec::new();
    let mut j: usize = a;
    while j < b
        invariant
            a <= j <= b <= v.len(),
            t@ == v@.subrange(a as int, j as int),
        decreases b - j,
    {
        t.push(v[j]);
        assert(v@.subrange(a as int, j + 1) =~= v@.subrange(a as int, j as int).push(v@[j as int]));
        j += 1;
    }
    t
}

/// A string that neither starts nor ends with whitespace is its own trim.
pub proof fn lemma_trim_no_ws(s: Seq<char>)
    requires
        s.len() > 0 ==> !is_ws(s[0]) && !is_ws(s.last()),
    ensures
        trim(s) == s,
{
}


/// The characters of an optional string slice.
pub open spec fn opt_view(o: Option<&str>) -> Option<Seq<char>> {
    match o {
        Some(s) => Some(s@),
        None => None,
    }
}


/// Decimal digits contain no `.`.
pub proof fn lemma_dec_no_dot(n: nat)
    ensures
        forall|j: int| 0 <= j < dec(n).len() ==> dec(n)[j] != '.',
    decreases n,
{
    lemma_dec_digits(n);
}


/// `s.trim_end_matches(c)`.
pub open spec fn strip_trailing(s: Seq<char>, c: char) -> Seq<char>
    decreases s.len(),
{
    if s.len() > 0 && s.last() == c {
        strip_trailing(s.drop_last(), c)
    } else {
        s
    }
}

/// What `strip_trailing` leaves: a prefix, followed in `s` only by `c`, that does not end in `c`.
pub proof fn lemma_strip_trailing(s: Seq<char>, c: char)
    ensures
        strip_trailing(s, c).len() <= s.len(),
        strip_trailing(s, c) =~= s.take(strip_trailing(s, c).len() as int),
        forall|i: int| strip_trailing(s, c).len() <= i < s.len() ==> s[i] == c,
        strip_trailing(s, c).len() > 0 ==> strip_trailing(s, c).last() != c,
        strip_trailing(strip_trailing(s, c), c) == strip_trailing(s, c),
        s.len() > 0 && s[0] != c ==> strip_trailing(s, c).len() > 0,
    decreases s.len(),
{
    if s.len() > 0 && s.last() == c {
        let d = s.drop_last();
        lemma_strip_trailing(d, c);
        let n = strip_trailing(s, c).len();
        assert forall|i: int| n <= i < s.len() implies s[i] == c by {
            if i < s.len() - 1 {
                assert(s[i] == d[i]);
            }
        }
        assert(d.take(n as int) =~= s.take(n as int));
    }
}

/// End index of `v` with trailing `c` removed.
pub fn strip_trailing_end(v: &Vec<char>, c: char) -> (e: usize)
    ensures
        e <= v.len(),
        v@.take(e as int) == strip_trailing(v@, c),
{
    let mut e = v.len();
    assert(v@.take(e as int) =~= v@);
    while e > 0 && v[e - 1] == c
        invariant
            e <= v.len(),
            strip_trailing(v@, c) == strip_trailing(v@.take(e as int), c),
        decreases e,
    {
        assert(v@.take(e as int).drop_last() =~= v@.take(e - 1));
        e -= 1;
    }
    proof {
        if e > 0 {
            assert(v@.take(e as int).last() == v@[e - 1]);
        }
    }
    e
}

/// UTF-8 length of `a + b` where `a` and `x` have the same length and `a` is the ASCII
/// lower-casing of `x` (case folding keeps byte lengths).
pub proof fn lemma_encode_len_split(a: Seq<char>, x: Seq<char>, b: Seq<char>)
    requires
        a == to_lower(x),
    ensures
        vstd::utf8::encode_utf8(a + b).len() == vstd::utf8::encode_utf8(x + b).len(),
    decreases x.len(),
{
    if x.len() > 0 {
        assert(a.drop_first() =~= to_lower(x.drop_first()));
        lemma_encode_len_split(a.drop_first(), x.drop_first(), b);
        assert((a + b).drop_first() =~= a.drop_first() + b);
        assert((x + b).drop_first() =~= x.drop_first() + b);
        assert(a.drop_first() =~= to_lower(x.drop_first()));
        lemma_lower_char_len(x[0]);
    } else {
        assert(a + b =~= x + b);
    }
}

/// ASCII case folding keeps a character's UTF-8 length.
pub proof fn lemma_lower_char_len(c: char)
    ensures
        vstd::utf8::encode_scalar(lower_char(c) as u32).len() == vstd::utf8::encode_scalar(c as u32).len(),
{
    vstd::utf8::char_u32_cast(lower_char(c), lower_char(c) as u32);
}


/// UTF-8 byte length of concatenated text is the sum of the parts' lengths.
pub proof fn lemma_encode_add_len(a: Seq<char>, b: Seq<char>)
    ensures
        vstd::utf8::encode_utf8(a + b).len() == vstd::utf8::encode_utf8(a).len()
            + vstd::utf8::encode_utf8(b).len(),
    decreases a.len(),
{
    if a.len() > 0 {
        assert((a + b).drop_first() =~= a.drop_first() + b);
        assert((a + b)[0] == a[0]);
        lemma_encode_add_len(a.drop_first(), b);
    } else {
        assert(a + b =~= b);
    }
}

/// Bytes one character takes in UTF-8.
pub fn utf8_width(c: char) -> (w: u64)
    ensures
        w == vstd::utf8::encode_utf8(seq![c]).len(),
        1 <= w <= 4,
{
    proof {
        broadcast use vstd::utf8::char_is_scalar;
        assert(seq![c].drop_first() =~= Seq::<char>::empty());
        assert(vstd::utf8::encode_utf8(seq![c]) == vstd::utf8::encode_scalar(c as u32)
            + vstd::utf8::encode_utf8(Seq::<char>::empty()));
        assert(vstd::utf8::encode_utf8(Seq::<char>::empty()).len() == 0);
        assert(vstd::utf8::is_scalar(c as u32));
    }
    let u = c as u32;
    if u < 0x80 {
        1
    } else if u < 0x800 {
        2
    } else if u < 0x10000 {
        3
    } else {
        4
    }
}

/// Whether the UTF-8 encoding of `v` is longer than `limit` bytes (`s.len() > limit`).
pub fn utf8_len_exceeds(v: &Vec<char>, limit: u64) -> (r: bool)
    ensures
        r == (vstd::utf8::encode_utf8(v@).len() > limit),
{
    let mut sum: u64 = 0;
    let mut i: usize = 0;
    assert(v@.take(0) =~= Seq::<char>::empty());
    while i < v.len()
        invariant
            i <= v.len(),
            sum <= limit,
            sum == vstd::utf8::encode_utf8(v@.take(i as int)).len(),
        decreases v.len() - i,
    {
        let w = utf8_width(v[i]);
        proof {
            assert(v@.take(i + 1) =~= v@.take(i as int) + seq![v@[i as int]]);
            lemma_encode_add_len(v@.take(i as int), seq![v@[i as int]]);
        }
        if w > limit - sum {
            proof {
                assert(v@ =~= v@.take(i + 1) + v@.skip(i + 1));
                lemma_encode_add_len(v@.take(i + 1), v@.skip(i + 1));
            }
            return true;
        }
        sum = sum + w;
        i += 1;
    }
    assert(v@.take(v.len() as int) =~= v@);
    false
}


/// `s.trim_start_matches(c)`.
pub open spec fn strip_leading(s: Seq<char>, c: char) -> Seq<char>
    decreases s.len(),
{
    if s.len() > 0 && s[0] == c {
        strip_leading(s.drop_first(), c)
    } else {
        s
    }
}

/// Start index of `v[a..b]` with leading `c` removed.
pub fn strip_leading_start(v: &Vec<char>, a: usize, b: usize, c: char) -> (r: usize)
    requires
        a <= b <= v.len(),
    ensures
        a <= r <= b,
        v@.subrange(r as int, b as int) == strip_leading(v@.subrange(a as int, b as int), c),
{
    let mut i = a;
    while i < b && v[i] == c
        invariant
            a <= i <= b <= v.len(),
            strip_leading(v@.subrange(a as int, b as int), c) == strip_leading(
                v@.subrange(i as int, b as int),
                c,
            ),
        decreases b - i,
    {
        assert(v@.subrange(i as int, b as int).drop_first() =~= v@.subrange(i + 1, b as int));
        i += 1;
    }
    i
}

/// The first index at or after `i` where `pat` occurs in `s`.
pub open spec fn find_seq_from(s: Seq<char>, pat: Seq<char>, i: int) -> Option<int>
    decreases s.len() + 1 - i,
{
    if i < 0 || i > s.len() {
        None
    } else if occurs_at(s, pat, i) {
        Some(i)
    } else {
        find_seq_from(s, pat, i + 1)
    }
}

/// `str::find` with a string pattern.
pub open spec fn first_index(s: Seq<char>, pat: Seq<char>) -> Option<int> {
    find_seq_from(s, pat, 0)
}

pub proof fn lemma_find_seq_from(s: Seq<char>, pat: Seq<char>, i: int, r: Option<int>)
    requires
        0 <= i <= s.len() + 1,
        match r {
            Some(k) => i <= k && occurs_at(s, pat, k) && forall|j: int| i <= j < k ==> !occurs_at(s, pat, j),
            None => forall|j: int| i <= j ==> !occurs_at(s, pat, j),
        },
    ensures
        find_seq_from(s, pat, i) == r,
    decreases s.len() + 1 - i,
{
    if i <= s.len() && !occurs_at(s, pat, i) {
        lemma_find_seq_from(s, pat, i + 1, r);
    }
}

/// The first occurrence of `pat` in `v`.
pub fn find_first(v: &Vec<char>, pat: &Vec<char>) -> (r: Option<usize>)
    ensures
        match r {
            Some(k) => first_index(v@, pat@) == Some(k as int),
            None => first_index(v@, pat@) is None,
        },
        match r {
            Some(k) => k <= v.len() && occurs_at(v@, pat@, k as int),
            None => true,
        },
{
    let r = find_from(v, pat, 0);
    proof {
        match r {
            Some(k) => lemma_find_seq_from(v@, pat@, 0, Some(k as int)),
            None => lemma_find_seq_from(v@, pat@, 0, None),
        }
    }
    r
}


/// The leading run of non-whitespace characters.
pub open spec fn take_non_ws(s: Seq<char>) -> Seq<char>
    decreases s.len(),
{
    if s.len() > 0 && !is_ws(s[0]) {
        seq![s[0]] + take_non_ws(s.drop_first())
    } else {
        Seq::empty()
    }
}

/// End of the run of non-whitespace characters that starts at `a`.
pub fn non_ws_end(v: &Vec<char>, a: usize) -> (e: usize)
    requires
        a <= v.len(),
    ensures
        a <= e <= v.len(),
        v@.subrange(a as int, e as int) == take_non_ws(v@.skip(a as int)),
{
    let mut i = a;
    while i < v.len() && !is_ws_char(v[i])
        invariant
            a <= i <= v.len(),
            take_non_ws(v@.skip(a as int)) == v@.subrange(a as int, i as int) + take_non_ws(
                v@.skip(i as int),
            ),
        decreases v.len() - i,
    {
        assert(v@.skip(i as int).drop_first() =~= v@.skip(i + 1));
        assert(v@.skip(i as int)[0] == v@[i as int]);
        assert(v@.subrange(a as int, i + 1) =~= v@.subrange(a as int, i as int) + seq![v@[i as int]]);
        i += 1;
    }
    proof {
        if i < v.len() {
            assert(v@.skip(i as int)[0] == v@[i as int]);
        }
        assert(take_non_ws(v@.skip(i as int)) =~= Seq::<char>::empty());
        assert(v@.subrange(a as int, i as int) + Seq::<char>::empty() =~= v@.subrange(a as int, i as int));
    }
    i
}

/// First index at or after `a` that is not whitespace.
pub fn ws_end(v: &Vec<char>, a: usize) -> (e: usize)
    requires
        a <= v.len(),
    ensures
        a <= e <= v.len(),
        v@.skip(e as int) == trim_start(v@.skip(a as int)),
{
    let mut i = a;
    while i < v.len() && is_ws_char(v[i])
        invariant
            a <= i <= v.len(),
            trim_start(v@.skip(a as int)) == trim_start(v@.skip(i as int)),
        decreases v.len() - i,
    {
        assert(v@.skip(i as int).drop_first() =~= v@.skip(i + 1));
        assert(v@.skip(i as int)[0] == v@[i as int]);
        i += 1;
    }
    proof {
        if i < v.len() {
            assert(v@.skip(i as int)[0] == v@[i as int]);
        }
    }
    i
}

/// The views of a sequence of strings.
pub open spec fn string_views(vs: Seq<String>) -> Seq<Seq<char>> {
    vs.map_values(|x: String| x@)
}

/// Whether `list` holds a string equal to `s`.
pub fn contains_string(list: &Vec<String>, s: &str) -> (r: bool)
    ensures
        r == string_views(list@).contains(s@),
{
    let mut i: usize = 0;
    while i < list.len()
        invariant
            i <= list.len(),
            forall|j: int| 0 <= j < i ==> list@[j]@ != s@,
        decreases list.len() - i,
    {
        if str_eq(list[i].as_str(), s) {
            assert(string_views(list@)[i as int] == s@);
            return true;
        }
        i += 1;
    }
    proof {
        if string_views(list@).contains(s@) {
            let j = choose|j: int| 0 <= j < string_views(list@).len() && string_views(list@)[j] == s@;
            assert(list@[j]@ == s@);
        }
    }
    false
}


/// Appends `n` zero-padded to width `w` (`{n:0w$}`).
pub fn push_dec_pad(out: &mut String, n: u64, w: usize)
    ensures
        final(out)@ == old(out)@ + dec_pad(n as nat, w as nat),
{
    let s = dec_string(n);
    let len = chars_of(s.as_str()).len();
    let ghost start = out@;
    if len < w {
        let pad = w - len;
        let mut i: usize = 0;
        while i < pad
            invariant
                i <= pad,
                out@ == start + Seq::new(i as nat, |j: int| '0'),
            decreases pad - i,
        {
            push_char(out, '0');
            assert(start + Seq::new((i + 1) as nat, |j: int| '0') =~= (start + Seq::new(i as nat, |j: int| '0')).push('0'));
            i += 1;
        }
        assert(Seq::new(pad as nat, |j: int| '0') =~= Seq::new((w - dec(n as nat).len()) as nat, |j: int| '0'));
    }
    out.append(s.as_str());
    assert(out@ =~= start + dec_pad(n as nat, w as nat));
}

/// The characters of an optional owned string.
pub open spec fn opt_string_view(o: &Option<String>) -> Option<Seq<char>> {
    match o {
        Some(s) => Some(s@),
        None => None,
    }
}


/// Filtering a sequence extended by one element.
pub proof fn lemma_filter_push<A>(s: Seq<A>, p: spec_fn(A) -> bool, x: A)
    ensures
        s.push(x).filter(p) == (if p(x) {
            s.filter(p).push(x)
        } else {
            s.filter(p)
        }),
{
    reveal(Seq::filter);
    assert(s.push(x).drop_last() =~= s);
}

/// Filtering the empty sequence.
pub proof fn lemma_filter_empty<A>(p: spec_fn(A) -> bool)
    ensures
        Seq::<A>::empty().filter(p) == Seq::<A>::empty(),
{
    reveal(Seq::filter);
}


/// `parts.join(sep)`.
pub open spec fn join_spec(parts: Seq<Seq<char>>, sep: Seq<char>) -> Seq<char>
    decreases parts.len(),
{
    if parts.len() == 0 {
        Seq::empty()
    } else if parts.len() == 1 {
        parts[0]
    } else {
        join_spec(parts.drop_last(), sep) + sep + parts.last()
    }
}

/// Joins strings with a separator (`[String]::join`).
pub fn join_strings(parts: &Vec<String>, sep: &str) -> (r: String)
    ensures
        r@ == join_spec(string_views(parts@), sep@),
{
    let mut out = String::new();
    let ghost all = string_views(parts@);
    let mut i: usize = 0;
    while i < parts.len()
        invariant
            i <= parts.len(),
            all == string_views(parts@),
            out@ == join_spec(all.take(i as int), sep@),
        decreases parts.len() - i,
    {
        assert(all.take(i + 1).drop_last() =~= all.take(i as int));
        assert(all.take(i + 1).last() == parts@[i as int]@);
        if i > 0 {
            out.append(sep);
        } else {
            assert(all.take(1)[0] == parts@[0]@);
        }
        out.append(parts[i].as_str());
        i += 1;
    }
    assert(all.take(parts.len() as int) =~= all);
    out
}


/// End index of `v` with trailing whitespace removed.
pub fn trim_end_index(v: &Vec<char>) -> (e: usize)
    ensures
        e <= v.len(),
        v@.take(e as int) == trim_end(v@),
{
    let mut e = v.len();
    assert(v@.take(e as int) =~= v@);
    while e > 0 && is_ws_char(v[e - 1])
        invariant
            e <= v.len(),
            trim_end(v@) == trim_end(v@.take(e as int)),
        decreases e,
    {
        assert(v@.take(e as int).drop_last() =~= v@.take(e - 1));
        assert(v@.take(e as int).last() == v@[e - 1]);
        e -= 1;
    }
    proof {
        if e > 0 {
            assert(v@.take(e as int).last() == v@[e - 1]);
        }
    }
    e
}

/// The last index before `i` where `pat` occurs in `s`.
pub open spec fn rfind_seq_before(s: Seq<char>, pat: Seq<char>, i: int) -> Option<int>
    decreases i,
{
    if i <= 0 {
        None
    } else if occurs_at(s, pat, i - 1) {
        Some(i - 1)
    } else {
        rfind_seq_before(s, pat, i - 1)
    }
}

/// `str::rfind` with a string pattern.
pub open spec fn last_index(s: Seq<char>, pat: Seq<char>) -> Option<int> {
    rfind_seq_before(s, pat, s.len() as int)
}

proof fn lemma_rfind_seq_before(s: Seq<char>, pat: Seq<char>, end: int, i: int, r: Option<int>)
    requires
        0 <= i <= end,
        match r {
            Some(k) => k < i && occurs_at(s, pat, k) && forall|j: int| k < j < end ==> !occurs_at(s, pat, j),
            None => forall|j: int| 0 <= j < end ==> !occurs_at(s, pat, j),
        },
        forall|j: int| i <= j < end ==> !occurs_at(s, pat, j),
    ensures
        rfind_seq_before(s, pat, i) == r,
    decreases i,
{
    if i > 0 && !occurs_at(s, pat, i - 1) {
        lemma_rfind_seq_before(s, pat, end, i - 1, r);
    }
}

/// The last occurrence of `pat` in `v`.
pub fn find_last(v: &Vec<char>, pat: &Vec<char>) -> (r: Option<usize>)
    ensures
        match r {
            Some(k) => last_index(v@, pat@) == Some(k as int) && occurs_at(v@, pat@, k as int),
            None => last_index(v@, pat@) is None,
        },
{
    let r = rfind_before(v, pat, v.len());
    proof {
        match r {
            Some(k) => lemma_rfind_seq_before(v@, pat@, v.len() as int, v.len() as int, Some(k as int)),
            None => lemma_rfind_seq_before(v@, pat@, v.len() as int, v.len() as int, None),
        }
    }
    r
}


/// A first occurrence lies within the string.
pub proof fn lemma_first_index_bound(s: Seq<char>, pat: Seq<char>)
    ensures
        first_index(s, pat) matches Some(k) ==> 0 <= k <= s.len() && occurs_at(s, pat, k),
{
    lemma_find_seq_from_bound(s, pat, 0);
}

proof fn lemma_find_seq_from_bound(s: Seq<char>, pat: Seq<char>, i: int)
    ensures
        find_seq_from(s, pat, i) matches Some(k) ==> i <= k <= s.len() && occurs_at(s, pat, k),
    decreases s.len() + 1 - i,
{
    if 0 <= i <= s.len() && !occurs_at(s, pat, i) {
        lemma_find_seq_from_bound(s, pat, i + 1);
    }
}


/// No first occurrence means no occurrence at all.
pub proof fn lemma_first_index_none(s: Seq<char>, pat: Seq<char>)
    ensures
        first_index(s, pat) is None ==> !contains_seq(s, pat),
{
    lemma_find_seq_from_none(s, pat, 0);
}

proof fn lemma_find_seq_from_none(s: Seq<char>, pat: Seq<char>, i: int)
    requires
        0 <= i,
    ensures
        find_seq_from(s, pat, i) is None ==> forall|j: int| i <= j ==> !occurs_at(s, pat, j),
    decreases s.len() + 1 - i,
{
    if i <= s.len() && !occurs_at(s, pat, i) {
        lemma_find_seq_from_none(s, pat, i + 1);
    }
}


proof fn lemma_trim_start_shape(s: Seq<char>)
    ensures
        trim_start(s).len() > 0 ==> !is_ws(trim_start(s)[0]),
        trim_start(s).len() <= s.len(),
    decreases s.len(),
{
    if s.len() > 0 && is_ws(s[0]) {
        lemma_trim_start_shape(s.drop_first());
    }
}

proof fn lemma_trim_end_shape(s: Seq<char>)
    ensures
        trim_end(s).len() > 0 ==> !is_ws(trim_end(s).last()) && trim_end(s)[0] == s[0],
    decreases s.len(),
{
    if s.len() > 0 && is_ws(s.last()) {
        lemma_trim_end_shape(s.drop_last());
    }
}

/// A trimmed string neither starts nor ends with whitespace.
pub proof fn lemma_trim_ends(s: Seq<char>)
    ensures
        trim(s).len() > 0 ==> !is_ws(trim(s)[0]) && !is_ws(trim(s).last()),
{
    lemma_trim_start_shape(s);
    lemma_trim_end_shape(trim_start(s));
}

/// Trimming and lower-casing twice is doing it once.
pub proof fn lemma_lower_trim_idempotent(z: Seq<char>)
    ensures
        to_lower(trim(to_lower(trim(z)))) == to_lower(trim(z)),
        trim(to_lower(trim(z))) == to_lower(trim(z)),
{
    let t = trim(z);
    lemma_trim_ends(z);
    let l = to_lower(t);
    if l.len() > 0 {
        assert(l[0] == lower_char(t[0]));
        assert(l.last() == lower_char(t.last()));
    }
    lemma_trim_no_ws(l);
    assert(to_lower(l) =~= l);
}

} // verus!
