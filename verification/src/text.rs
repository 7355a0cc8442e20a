//! Verified text utilities shared by the value-type codecs: string
//! construction from bytes, decimal rendering, string comparison and
//! whitespace trimming.

use vstd::prelude::*;

use vstd::utf8::{decode_utf8, valid_utf8};

verus! {

/// The characters corresponding one-to-one to a sequence of ASCII bytes.
pub open spec fn chars_of_bytes(bs: Seq<u8>) -> Seq<char> {
    bs.map_values(|b: u8| b as char)
}

/// Relies on String::from_utf8: it succeeds exactly on a valid UTF-8
/// encoding and returns the characters that the bytes encode.
#[verifier::external_body]
pub(crate) fn string_from_utf8(bytes: Vec<u8>) -> (r: Option<String>)
    ensures
        r is Some <==> valid_utf8(bytes@),
        r is Some ==> r.unwrap()@ == decode_utf8(bytes@),
{
    String::from_utf8(bytes).ok()
}

proof fn lemma_ascii_byte_mask(b: u8)
    by (bit_vector)
    requires
        b < 128,
    ensures
        b & 0x7F == b,
{
}

/// A sequence of ASCII bytes is valid UTF-8 and decodes to the same
/// sequence of characters.
pub proof fn lemma_ascii_bytes_utf8(bs: Seq<u8>)
    requires
        forall|i: int| 0 <= i < bs.len() ==> bs[i] < 128,
    ensures
        valid_utf8(bs),
        decode_utf8(bs) == chars_of_bytes(bs),
    decreases bs.len(),
{
    if bs.len() == 0 {
        assert(decode_utf8(bs) =~= chars_of_bytes(bs));
    } else {
        assert(bs[0] < 128);
        lemma_ascii_byte_mask(bs[0]);
        assert(vstd::utf8::is_leading_byte_width_1(bs[0]));
        assert(vstd::utf8::decode_first_codepoint(bs) == bs[0] as u32);
        assert(vstd::utf8::valid_first_scalar(bs));
        assert(vstd::utf8::length_of_first_scalar(bs) == 1);
        assert(vstd::utf8::pop_first_scalar(bs) =~= bs.drop_first());
        lemma_ascii_bytes_utf8(bs.drop_first());
        assert(valid_utf8(bs));
        assert(decode_utf8(bs) == seq![bs[0] as char] + decode_utf8(bs.drop_first()));
        assert(decode_utf8(bs) =~= chars_of_bytes(bs));
    }
}

/// Builds a string from ASCII bytes, one character per byte.
pub(crate) fn string_from_ascii(bytes: Vec<u8>) -> (r: String)
    requires
        forall|i: int| 0 <= i < bytes@.len() ==> bytes@[i] < 128,
    ensures
        r@ == chars_of_bytes(bytes@),
{
    proof {
        lemma_ascii_bytes_utf8(bytes@);
    }
    string_from_utf8(bytes).unwrap()
}

/// The decimal digits of `n`, most significant first, as ASCII bytes.
pub open spec fn dec_bytes(n: u64) -> Seq<u8>
    decreases n,
{
    if n < 10 {
        seq![(0x30 + n) as u8]
    } else {
        dec_bytes(n / 10).push((0x30 + n % 10) as u8)
    }
}

/// The decimal rendering of `n` as characters.
pub open spec fn dec_chars(n: u64) -> Seq<char> {
    chars_of_bytes(dec_bytes(n))
}

proof fn lemma_dec_bytes_ascii(n: u64)
    ensures
        forall|i: int| 0 <= i < dec_bytes(n).len() ==> 0x30 <= #[trigger] dec_bytes(n)[i] < 0x3a,
    decreases n,
{
    if n < 10 {
        assert(dec_bytes(n) == seq![(0x30 + n) as u8]);
        assert(dec_bytes(n)[0] == (0x30 + n) as u8);
    } else {
        lemma_dec_bytes_ascii(n / 10);
        assert(dec_bytes(n) == dec_bytes(n / 10).push((0x30 + n % 10) as u8));
        assert forall|i: int| 0 <= i < dec_bytes(n).len() implies 0x30 <= #[trigger] dec_bytes(
            n,
        )[i] < 0x3a by {
            if i < dec_bytes(n).len() - 1 {
                assert(dec_bytes(n)[i] == dec_bytes(n / 10)[i]);
            } else {
                assert(dec_bytes(n)[i] == (0x30 + n % 10) as u8);
            }
        }
    }
}

/// Renders `n` in decimal.
pub fn u64_to_dec(n: u64) -> (r: String)
    ensures
        r@ == dec_chars(n),
{
    let mut rev: Vec<u8> = Vec::new();
    let mut m: u64 = n;
    while m >= 10
        invariant
            dec_bytes(n) =~= dec_bytes(m) + rev@.reverse(),
            forall|i: int| 0 <= i < rev@.len() ==> 0x30 <= #[trigger] rev@[i] < 0x3a,
        decreases m,
    {
        let ghost prev = rev@;
        rev.push((0x30 + (m % 10)) as u8);
        proof {
            assert(rev@.reverse() =~= seq![(0x30 + (m % 10)) as u8] + prev.reverse());
        }
        m = m / 10;
    }
    let mut out: Vec<u8> = Vec::new();
    out.push((0x30 + m) as u8);
    let mut i: usize = 0;
    while i < rev.len()
        invariant
            dec_bytes(n) =~= dec_bytes(m) + rev@.reverse(),
            m < 10,
            forall|k: int| 0 <= k < rev@.len() ==> 0x30 <= #[trigger] rev@[k] < 0x3a,
            i <= rev@.len(),
            out@ =~= seq![(0x30 + m) as u8] + rev@.reverse().take(i as int),
        decreases rev@.len() - i,
    {
        let b = rev[rev.len() - 1 - i];
        proof {
            assert(rev@.reverse()[i as int] == rev@[rev@.len() - 1 - i as int]);
        }
        out.push(b);
        i += 1;
    }
    proof {
        assert(rev@.reverse().take(rev@.len() as int) =~= rev@.reverse());
        assert(out@ =~= dec_bytes(n));
        lemma_dec_bytes_ascii(n);
    }
    string_from_ascii(out)
}

/// Compares two string slices by their characters.
pub fn str_eq(a: &str, b: &str) -> (r: bool)
    ensures
        r == (a@ == b@),
{
    let la = a.unicode_len();
    let lb = b.unicode_len();
    if la != lb {
        proof {
            if a@ == b@ {
                assert(a@.len() == b@.len());
            }
        }
        return false;
    }
    let mut i: usize = 0;
    while i < la
        invariant
            la == a@.len(),
            la == b@.len(),
            i <= la,
            forall|j: int| 0 <= j < i ==> a@[j] == b@[j],
        decreases la - i,
    {
        if a.get_char(i) != b.get_char(i) {
            proof {
                if a@ == b@ {
                    assert(a@[i as int] == b@[i as int]);
                }
            }
            return false;
        }
        i += 1;
    }
    proof {
        assert(a@ =~= b@);
    }
    true
}

/// Unicode whitespace (the White_Space property): the ASCII whitespace
/// characters, next line, no-break space, ogham space mark, the space
/// separators, the line and paragraph separators, narrow no-break space,
/// medium mathematical space and ideographic space.
pub open spec fn is_whitespace_char(c: char) -> bool {
    c == ' ' || c == '\t' || c == '\n' || c == '\u{b}' || c == '\u{c}' || c == '\r' || c
        == '\u{85}' || c == '\u{a0}' || c == '\u{1680}' || (0x2000 <= c as u32 && c as u32
        <= 0x200a) || c == '\u{2028}' || c == '\u{2029}' || c == '\u{202f}' || c == '\u{205f}' || c
        == '\u{3000}'
}

fn is_space(c: char) -> (r: bool)
    ensures
        r == is_whitespace_char(c),
{
    c == ' ' || c == '\t' || c == '\n' || c == '\u{b}' || c == '\u{c}' || c == '\r' || c
        == '\u{85}' || c == '\u{a0}' || c == '\u{1680}' || (0x2000 <= c as u32 && c as u32
        <= 0x200a) || c == '\u{2028}' || c == '\u{2029}' || c == '\u{202f}' || c == '\u{205f}' || c
        == '\u{3000}'
}

/// `s` with leading whitespace removed.
pub open spec fn trim_start_spec(s: Seq<char>) -> Seq<char>
    decreases s.len(),
{
    if s.len() > 0 && is_whitespace_char(s[0]) {
        trim_start_spec(s.drop_first())
    } else {
        s
    }
}

/// `s` with trailing whitespace removed.
pub open spec fn trim_end_spec(s: Seq<char>) -> Seq<char>
    decreases s.len(),
{
    if s.len() > 0 && is_whitespace_char(s.last()) {
        trim_end_spec(s.drop_last())
    } else {
        s
    }
}

/// `s` with leading and trailing whitespace removed.
pub open spec fn trim_spec(s: Seq<char>) -> Seq<char> {
    trim_end_spec(trim_start_spec(s))
}

/// Removes leading and trailing whitespace.
pub fn trim(s: &str) -> (r: String)
    ensures
        r@ == trim_spec(s@),
{
    let n = s.unicode_len();
    let mut start: usize = 0;
    proof {
        assert(s@.skip(0) =~= s@);
    }
    while start < n && is_space(s.get_char(start))
        invariant
            n == s@.len(),
            start <= n,
            trim_start_spec(s@) == trim_start_spec(s@.skip(start as int)),
        decreases n - start,
    {
        proof {
            assert(s@.skip(start as int).drop_first() =~= s@.skip(start as int + 1));
        }
        start += 1;
    }
    proof {
        assert(trim_start_spec(s@) == s@.skip(start as int));
    }
    let mut end: usize = n;
    while end > start && is_space(s.get_char(end - 1))
        invariant
            n == s@.len(),
            start <= end <= n,
            trim_start_spec(s@) == s@.skip(start as int),
            trim_end_spec(s@.skip(start as int)) == trim_end_spec(
                s@.subrange(start as int, end as int),
            ),
        decreases end,
    {
        proof {
            assert(s@.skip(start as int) =~= s@.subrange(start as int, n as int));
            assert(s@.subrange(start as int, end as int).drop_last() =~= s@.subrange(
                start as int,
                end as int - 1,
            ));
            assert(s@.subrange(start as int, end as int).last() == s@[end - 1]);
        }
        end -= 1;
    }
    proof {
        assert(s@.skip(start as int) =~= s@.subrange(start as int, n as int));
        assert(trim_spec(s@) == s@.subrange(start as int, end as int));
    }
    let piece = s.substring_char(start, end);
    let r = piece.to_owned();
    r
}

} // verus!
