//! Query-string encoding of a value, byte by byte of its UTF-8 form: unreserved ASCII kept,
//! space as `+`, every other byte as `%XX` (upper-case hex).

use vstd::prelude::*;

verus! {

/// The UTF-8 encoding of one character.
pub open spec fn utf8_bytes(c: char) -> Seq<u8> {
    let u = c as u32;
    if u < 0x80 {
        seq![u as u8]
    } else if u < 0x800 {
        seq![(0xC0 + u / 64) as u8, (0x80 + u % 64) as u8]
    } else if u < 0x10000 {
        seq![(0xE0 + u / 4096) as u8, (0x80 + (u / 64) % 64) as u8, (0x80 + u % 64) as u8]
    } else {
        seq![
            (0xF0 + u / 262144) as u8,
            (0x80 + (u / 4096) % 64) as u8,
            (0x80 + (u / 64) % 64) as u8,
            (0x80 + u % 64) as u8,
        ]
    }
}

/// Bytes kept as they are: ASCII letters, digits, `-`, `_`, `.` and `~`.
pub open spec fn unreserved(b: u8) -> bool {
    (65 <= b <= 90) || (97 <= b <= 122) || (48 <= b <= 57) || b == 45 || b == 95 || b == 46 || b == 126
}

/// An upper-case hexadecimal digit.
pub open spec fn hex_upper(d: nat) -> char {
    if d < 10 {
        (48 + d) as char
    } else {
        (55 + d) as char
    }
}

/// How one byte is written.
pub open spec fn url_byte(b: u8) -> Seq<char> {
    if unreserved(b) {
        seq![b as char]
    } else if b == 32 {
        seq!['+']
    } else {
        seq!['%', hex_upper((b / 16) as nat), hex_upper((b % 16) as nat)]
    }
}

pub open spec fn url_bytes(bs: Seq<u8>) -> Seq<char>
    decreases bs.len(),
{
    if bs.len() == 0 {
        Seq::empty()
    } else {
        url_bytes(bs.drop_last()) + url_byte(bs.last())
    }
}

/// The encoded form of a string.
pub open spec fn url_encode_spec(s: Seq<char>) -> Seq<char>
    decreases s.len(),
{
    if s.len() == 0 {
        Seq::empty()
    } else {
        url_encode_spec(s.drop_last()) + url_bytes(utf8_bytes(s.last()))
    }
}

fn hex_upper_of(d: u8) -> (c: char)
    requires
        d < 16,
    ensures
        c == hex_upper(d as nat),
{
    if d < 10 {
        (48 + d) as char
    } else {
        (55 + d) as char
    }
}

#[verifier::rlimit(60)]
#[verifier::spinoff_prover]
fn push_url_byte(out: &mut String, b: u8)
    ensures
        final(out)@ == old(out)@ + url_byte(b),
{
    let ghost start = out@;
    if (65 <= b && b <= 90) || (97 <= b && b <= 122) || (48 <= b && b <= 57) || b == 45 || b == 95
        || b == 46 || b == 126 {
        crate::text::push_char(out, b as char);
    } else if b == 32 {
        crate::text::push_char(out, '+');
    } else {
        crate::text::push_char(out, '%');
        crate::text::push_char(out, hex_upper_of(b / 16));
        crate::text::push_char(out, hex_upper_of(b % 16));
    }
    assert(out@ =~= start + url_byte(b));
}

#[verifier::rlimit(60)]
#[verifier::spinoff_prover]
fn push_url_char(out: &mut String, c: char)
    ensures
        final(out)@ == old(out)@ + url_bytes(utf8_bytes(c)),
{
    let ghost start = out@;
    let u = c as u32;
    if u < 0x80 {
        let b0 = u as u8;
        push_url_byte(out, b0);
        proof {
            let bs = utf8_bytes(c);
            assert(bs =~= seq![b0]);
            assert(bs.drop_last() =~= Seq::<u8>::empty());
            assert(url_bytes(bs) == url_bytes(bs.drop_last()) + url_byte(b0));
        }
    } else if u < 0x800 {
        let b0 = (0xC0 + u / 64) as u8;
        let b1 = (0x80 + u % 64) as u8;
        push_url_byte(out, b0);
        push_url_byte(out, b1);
        proof {
            let bs = utf8_bytes(c);
            assert(bs =~= seq![b0, b1]);
            assert(bs.drop_last() =~= seq![b0]);
            assert(bs.drop_last().drop_last() =~= Seq::<u8>::empty());
            assert(url_bytes(bs.drop_last()) == url_bytes(bs.drop_last().drop_last()) + url_byte(b0));
            assert(url_bytes(bs) == url_bytes(bs.drop_last()) + url_byte(b1));
        }
    } else if u < 0x10000 {
        let b0 = (0xE0 + u / 4096) as u8;
        let b1 = (0x80 + (u / 64) % 64) as u8;
        let b2 = (0x80 + u % 64) as u8;
        push_url_byte(out, b0);
        push_url_byte(out, b1);
        push_url_byte(out, b2);
        proof {
            let bs = utf8_bytes(c);
            assert(bs =~= seq![b0, b1, b2]);
            assert(bs.drop_last() =~= seq![b0, b1]);
            assert(bs.drop_last().drop_last() =~= seq![b0]);
            assert(bs.drop_last().drop_last().drop_last() =~= Seq::<u8>::empty());
            assert(url_bytes(bs.drop_last().drop_last()) == url_bytes(bs.drop_last().drop_last().drop_last()) + url_byte(b0));
            assert(url_bytes(bs.drop_last()) == url_bytes(bs.drop_last().drop_last()) + url_byte(b1));
            assert(url_bytes(bs) == url_bytes(bs.drop_last()) + url_byte(b2));
        }
    } else {
        let b0 = (0xF0 + u / 262144) as u8;
        let b1 = (0x80 + (u / 4096) % 64) as u8;
        let b2 = (0x80 + (u / 64) % 64) as u8;
        let b3 = (0x80 + u % 64) as u8;
        push_url_byte(out, b0);
        push_url_byte(out, b1);
        push_url_byte(out, b2);
        push_url_byte(out, b3);
        proof {
            let bs = utf8_bytes(c);
            assert(bs =~= seq![b0, b1, b2, b3]);
            assert(bs.drop_last() =~= seq![b0, b1, b2]);
            assert(bs.drop_last().drop_last() =~= seq![b0, b1]);
            assert(bs.drop_last().drop_last().drop_last() =~= seq![b0]);
            assert(bs.drop_last().drop_last().drop_last().drop_last() =~= Seq::<u8>::empty());
            assert(url_bytes(bs.drop_last().drop_last().drop_last()) == url_bytes(bs.drop_last().drop_last().drop_last().drop_last()) + url_byte(b0));
            assert(url_bytes(bs.drop_last().drop_last()) == url_bytes(bs.drop_last().drop_last().drop_last()) + url_byte(b1));
            assert(url_bytes(bs.drop_last()) == url_bytes(bs.drop_last().drop_last()) + url_byte(b2));
            assert(url_bytes(bs) == url_bytes(bs.drop_last()) + url_byte(b3));
        }
    }
    assert(out@ =~= start + url_bytes(utf8_bytes(c)));
}

/// Appends the encoded form of `s`.
pub fn push_url_encoded(out: &mut String, s: &str)
    ensures
        final(out)@ == old(out)@ + url_encode_spec(s@),
{
    let v = crate::text::chars_of(s);
    let ghost start = out@;
    let mut i: usize = 0;
    while i < v.len()
        invariant
            i <= v.len(),
            v@ == s@,
            out@ == start + url_encode_spec(v@.take(i as int)),
        decreases v.len() - i,
    {
        push_url_char(out, v[i]);
        proof {
            assert(v@.take(i + 1).drop_last() =~= v@.take(i as int));
        }
        i += 1;
    }
    assert(v@.take(v.len() as int) =~= v@);
}

/// The encoded form of `s` (`urlencoding_simple`).
pub fn url_encode(s: &str) -> (r: String)
    ensures
        r@ == url_encode_spec(s@),
{
    let mut out = String::new();
    push_url_encoded(&mut out, s);
    out
}

} // verus!
