//! Device GUID codec.
//!
//! A GUID is a 64-bit device identifier received from the hardware in
//! network byte order and stored as-is. Its textual form is four
//! colon-separated groups of four lower-case hexadecimal digits, derived
//! from the host-order (byte-swapped) value. Parsing accepts exactly four
//! colon-separated groups of one to four hexadecimal digits, in either
//! case, and rejects everything else.

use vstd::prelude::*;

use crate::text::{chars_of_bytes, string_from_ascii};

verus! {

/// Globally unique identifier of a device, in network byte order.
#[derive(Clone, Copy, PartialEq, Eq, Structural, Debug)]
pub struct Guid(pub u64);

/// The value with its eight bytes in reverse order.
pub open spec fn swap64(x: u64) -> u64 {
    ((x & 0xFF) << 56) | ((x & 0xFF00) << 40) | ((x & 0xFF_0000) << 24) | ((x & 0xFF00_0000) << 8)
        | ((x >> 8) & 0xFF00_0000) | ((x >> 24) & 0xFF_0000) | ((x >> 40) & 0xFF00) | (x >> 56)
}

fn swap_u64(x: u64) -> (r: u64)
    ensures
        r == swap64(x),
{
    ((x & 0xFF) << 56u64) | ((x & 0xFF00) << 40u64) | ((x & 0xFF_0000) << 24u64) | ((x
        & 0xFF00_0000) << 8u64) | ((x >> 8u64) & 0xFF00_0000) | ((x >> 24u64) & 0xFF_0000) | ((x
        >> 40u64) & 0xFF00) | (x >> 56u64)
}

/// Law: swapping the byte order twice restores the value.
pub proof fn lemma_swap64_involutive(x: u64)
    ensures
        swap64(swap64(x)) == x,
{
    assert(swap64(swap64(x)) == x) by (bit_vector);
}

/// The ASCII byte of one hexadecimal digit, lower case.
pub open spec fn hex_digit_byte(d: int) -> u8
    recommends
        0 <= d < 16,
{
    if d < 10 {
        (0x30 + d) as u8
    } else {
        (0x57 + d) as u8
    }
}

fn hex_digit(d: u64) -> (r: u8)
    requires
        d < 16,
    ensures
        r == hex_digit_byte(d as int),
{
    if d < 10 {
        (0x30 + d) as u8
    } else {
        (0x57 + d) as u8
    }
}

/// The four hexadecimal digit bytes of a 16-bit group, most significant
/// first.
pub open spec fn group_bytes(q: int) -> Seq<u8>
    recommends
        0 <= q < 0x10000,
{
    seq![
        hex_digit_byte(q / 4096 % 16),
        hex_digit_byte(q / 256 % 16),
        hex_digit_byte(q / 16 % 16),
        hex_digit_byte(q % 16),
    ]
}

/// The full textual form of a host-order value, as ASCII bytes:
/// four 4-digit groups separated by colons.
pub open spec fn guid_text_bytes(v: u64) -> Seq<u8> {
    group_bytes(((v >> 48) & 0xFFFF) as int) + seq![0x3au8] + group_bytes(
        ((v >> 32) & 0xFFFF) as int,
    ) + seq![0x3au8] + group_bytes(((v >> 16) & 0xFFFF) as int) + seq![0x3au8] + group_bytes(
        (v & 0xFFFF) as int,
    )
}

/// The textual form of a host-order value, as characters.
pub open spec fn guid_chars(v: u64) -> Seq<char> {
    chars_of_bytes(guid_text_bytes(v))
}

fn push_group(out: &mut Vec<u8>, q: u64)
    requires
        q < 0x10000,
    ensures
        final(out)@ == old(out)@ + group_bytes(q as int),
        forall|i: int|
            old(out)@.len() <= i < final(out)@.len() ==> 0x30 <= #[trigger] final(out)@[i] < 0x67,
{
    let ghost base = out@;
    out.push(hex_digit(q / 4096 % 16));
    out.push(hex_digit(q / 256 % 16));
    out.push(hex_digit(q / 16 % 16));
    out.push(hex_digit(q % 16));
    proof {
        assert(out@ =~= base + group_bytes(q as int));
    }
}

impl Guid {
    /// Wraps a 64-bit value already in network byte order; the value is
    /// stored without conversion.
    pub fn from_be(guid: u64) -> (r: Self)
        ensures
            r.0 == guid,
    {
        Self(guid)
    }

    /// Returns the identifier converted to host byte order.
    pub fn as_u64(&self) -> (r: u64)
        ensures
            r == swap64(self.0),
    {
        swap_u64(self.0)
    }

    /// Renders the identifier as four colon-separated groups of four
    /// lower-case hexadecimal digits of the host-order value.
    pub fn to_text(&self) -> (r: String)
        ensures
            r@ == guid_chars(swap64(self.0)),
    {
        let v = self.as_u64();
        proof {
            assert((v >> 48u64) & 0xFFFF < 0x10000 && (v >> 32u64) & 0xFFFF < 0x10000 && (v
                >> 16u64) & 0xFFFF < 0x10000 && v & 0xFFFF < 0x10000) by (bit_vector);
        }
        let mut out: Vec<u8> = Vec::new();
        push_group(&mut out, (v >> 48u64) & 0xFFFF);
        out.push(0x3a);
        push_group(&mut out, (v >> 32u64) & 0xFFFF);
        out.push(0x3a);
        push_group(&mut out, (v >> 16u64) & 0xFFFF);
        out.push(0x3a);
        push_group(&mut out, v & 0xFFFF);
        proof {
            assert(out@ =~= guid_text_bytes(v));
        }
        string_from_ascii(out)
    }
}

/// True of hexadecimal digit characters, either case.
pub open spec fn is_hex_char(c: char) -> bool {
    (0x30 <= c as u32 && c as u32 <= 0x39) || (0x41 <= c as u32 && c as u32 <= 0x46) || (0x61
        <= c as u32 && c as u32 <= 0x66)
}

/// The numeric value of a hexadecimal digit character.
pub open spec fn hex_char_val(c: char) -> int
    recommends
        is_hex_char(c),
{
    if c as u32 <= 0x39 {
        c as u32 - 0x30
    } else if c as u32 <= 0x46 {
        c as u32 - 0x37
    } else {
        c as u32 - 0x57
    }
}

fn hex_char_value(c: char) -> (r: Option<u64>)
    ensures
        r is Some <==> is_hex_char(c),
        r is Some ==> 0 <= r.unwrap() < 16 && r.unwrap() == hex_char_val(c),
{
    let u = c as u32;
    if 0x30 <= u && u <= 0x39 {
        Some((u - 0x30) as u64)
    } else if 0x41 <= u && u <= 0x46 {
        Some((u - 0x37) as u64)
    } else if 0x61 <= u && u <= 0x66 {
        Some((u - 0x57) as u64)
    } else {
        None
    }
}

/// The colon-separated pieces of a character sequence, in order. A
/// sequence without colons is one piece; every colon ends a piece.
pub open spec fn split_colon(s: Seq<char>) -> Seq<Seq<char>>
    decreases s.len(),
{
    if s.len() == 0 {
        seq![Seq::<char>::empty()]
    } else if s.last() == ':' {
        split_colon(s.drop_last()).push(Seq::<char>::empty())
    } else {
        let r = split_colon(s.drop_last());
        r.update(r.len() - 1, r.last().push(s.last()))
    }
}

proof fn lemma_split_colon_len(s: Seq<char>)
    ensures
        split_colon(s).len() >= 1,
    decreases s.len(),
{
    if s.len() > 0 {
        lemma_split_colon_len(s.drop_last());
    }
}

fn split_colon_exec(s: &str) -> (r: Vec<Vec<char>>)
    ensures
        r.deep_view() == split_colon(s@),
{
    let n = s.unicode_len();
    let mut done: Vec<Vec<char>> = Vec::new();
    let mut cur: Vec<char> = Vec::new();
    let mut i: usize = 0;
    proof {
        assert(s@.take(0) =~= Seq::<char>::empty());
        assert(done.deep_view().push(cur@) =~~= split_colon(s@.take(0)));
    }
    while i < n
        invariant
            n == s@.len(),
            i <= n,
            split_colon(s@.take(i as int)) =~~= done.deep_view().push(cur@),
        decreases n - i,
    {
        let c = s.get_char(i);
        proof {
            assert(s@.take(i + 1).drop_last() =~= s@.take(i as int));
            assert(s@.take(i + 1).last() == s@[i as int]);
            lemma_split_colon_len(s@.take(i as int));
        }
        let ghost old_done = done.deep_view();
        let ghost old_cur = cur@;
        if c == ':' {
            done.push(cur);
            cur = Vec::new();
            proof {
                assert(done.deep_view() =~~= old_done.push(old_cur));
                assert(split_colon(s@.take(i + 1)) =~~= done.deep_view().push(cur@));
            }
        } else {
            cur.push(c);
            proof {
                let r = split_colon(s@.take(i as int));
                assert(r.last() == old_cur);
                assert(split_colon(s@.take(i + 1)) =~~= r.update(r.len() - 1, r.last().push(c)));
                assert(r.update(r.len() - 1, r.last().push(c)) =~~= old_done.push(old_cur.push(c)));
                assert(split_colon(s@.take(i + 1)) =~~= done.deep_view().push(cur@));
            }
        }
        i += 1;
    }
    proof {
        assert(s@.take(n as int) =~= s@);
    }
    let ghost old_done = done.deep_view();
    done.push(cur);
    proof {
        assert(done.deep_view() =~~= old_done.push(cur@));
        assert(done.deep_view() =~~= split_colon(s@));
    }
    done
}

/// True of one valid textual group: one to four hexadecimal digits.
pub open spec fn valid_guid_group(g: Seq<char>) -> bool {
    1 <= g.len() <= 4 && forall|i: int| 0 <= i < g.len() ==> is_hex_char(#[trigger] g[i])
}

/// The value of a group of hexadecimal digits, most significant first.
pub open spec fn hex_group_val(g: Seq<char>) -> int
    decreases g.len(),
{
    if g.len() == 0 {
        0
    } else {
        hex_group_val(g.drop_last()) * 16 + hex_char_val(g.last())
    }
}

proof fn lemma_hex_group_val_bound(g: Seq<char>)
    requires
        forall|i: int| 0 <= i < g.len() ==> is_hex_char(#[trigger] g[i]),
    ensures
        0 <= hex_group_val(g),
        g.len() <= 1 ==> hex_group_val(g) < 0x10,
        g.len() <= 2 ==> hex_group_val(g) < 0x100,
        g.len() <= 3 ==> hex_group_val(g) < 0x1000,
        g.len() <= 4 ==> hex_group_val(g) < 0x10000,
    decreases g.len(),
{
    if g.len() > 0 {
        lemma_hex_group_val_bound(g.drop_last());
    }
}

fn parse_group(part: &Vec<char>) -> (r: Option<u64>)
    ensures
        r is Some <==> valid_guid_group(part@),
        r is Some ==> r.unwrap() < 0x10000 && r.unwrap() == hex_group_val(part@),
{
    let len = part.len();
    if len < 1 || len > 4 {
        return None;
    }
    let mut v: u64 = 0;
    let mut i: usize = 0;
    proof {
        assert(part@.take(0) =~= Seq::<char>::empty());
    }
    while i < len
        invariant
            len == part@.len(),
            1 <= len <= 4,
            i <= len,
            forall|j: int| 0 <= j < i ==> is_hex_char(#[trigger] part@[j]),
            v == hex_group_val(part@.take(i as int)),
            i == 0 ==> v == 0,
            i == 1 ==> v < 0x10,
            i == 2 ==> v < 0x100,
            i == 3 ==> v < 0x1000,
            i == 4 ==> v < 0x10000,
        decreases len - i,
    {
        let c = part[i];
        match hex_char_value(c) {
            None => {
                return None;
            },
            Some(h) => {
                proof {
                    assert(part@.take(i + 1).drop_last() =~= part@.take(i as int));
                    assert(part@.take(i + 1).last() == part@[i as int]);
                }
                v = v * 16 + h;
            },
        }
        i += 1;
    }
    proof {
        assert(part@.take(len as int) =~= part@);
    }
    Some(v)
}

/// True of a valid textual identifier: exactly four colon-separated groups
/// of one to four hexadecimal digits.
pub open spec fn valid_guid_text(s: Seq<char>) -> bool {
    split_colon(s).len() == 4 && forall|k: int|
        0 <= k < 4 ==> valid_guid_group(#[trigger] split_colon(s)[k])
}

/// The host-order value denoted by a valid textual identifier.
pub open spec fn guid_text_val(s: Seq<char>) -> int
    recommends
        valid_guid_text(s),
{
    let ps = split_colon(s);
    hex_group_val(ps[0]) * 0x1000000000000 + hex_group_val(ps[1]) * 0x100000000 + hex_group_val(
        ps[2],
    ) * 0x10000 + hex_group_val(ps[3])
}

impl Guid {
    /// Parses four colon-separated groups of one to four hexadecimal
    /// digits, either case, and stores the value in network byte order.
    /// Every other shape of input is rejected.
    pub fn from_text(s: &str) -> (r: Option<Guid>)
        ensures
            r is Some <==> valid_guid_text(s@),
            r is Some ==> r.unwrap().0 == swap64(guid_text_val(s@) as u64),
    {
        let parts = split_colon_exec(s);
        if parts.len() != 4 {
            return None;
        }
        proof {
            assert(forall|k: int|
                0 <= k < 4 ==> parts.deep_view()[k] == #[trigger] parts@[k]@);
        }
        let r0 = parse_group(&parts[0]);
        let r1 = parse_group(&parts[1]);
        let r2 = parse_group(&parts[2]);
        let r3 = parse_group(&parts[3]);
        match (r0, r1, r2, r3) {
            (Some(q0), Some(q1), Some(q2), Some(q3)) => {
                let val = q0 * 0x1000000000000 + q1 * 0x100000000 + q2 * 0x10000 + q3;
                Some(Guid(swap_u64(val)))
            },
            _ => None,
        }
    }
}

proof fn lemma_split_colon_no_colon(g: Seq<char>)
    requires
        forall|i: int| 0 <= i < g.len() ==> #[trigger] g[i] != ':',
    ensures
        split_colon(g) == seq![g],
    decreases g.len(),
{
    if g.len() == 0 {
        assert(g =~= Seq::<char>::empty());
        assert(split_colon(g) =~~= seq![g]);
    } else {
        lemma_split_colon_no_colon(g.drop_last());
        let r = split_colon(g.drop_last());
        assert(r.last().push(g.last()) =~= g);
        assert(split_colon(g) =~~= seq![g]);
    }
}

proof fn lemma_split_colon_append(s: Seq<char>, g: Seq<char>)
    requires
        forall|i: int| 0 <= i < g.len() ==> #[trigger] g[i] != ':',
    ensures
        split_colon(s + seq![':'] + g) == split_colon(s).push(g),
    decreases g.len(),
{
    lemma_split_colon_len(s);
    if g.len() == 0 {
        let t = s + seq![':'] + g;
        assert(t =~= s.push(':'));
        assert(t.drop_last() =~= s);
        assert(g =~= Seq::<char>::empty());
        assert(split_colon(t) =~~= split_colon(s).push(g));
    } else {
        lemma_split_colon_append(s, g.drop_last());
        let t = s + seq![':'] + g;
        assert(t.last() == g.last());
        assert(t.drop_last() =~= s + seq![':'] + g.drop_last());
        let r = split_colon(s + seq![':'] + g.drop_last());
        assert(r == split_colon(s).push(g.drop_last()));
        assert(r.last().push(g.last()) =~= g);
        assert(split_colon(t) =~~= split_colon(s).push(g));
    }
}

/// The characters of one rendered group.
pub open spec fn group_chars(q: int) -> Seq<char>
    recommends
        0 <= q < 0x10000,
{
    chars_of_bytes(group_bytes(q))
}

proof fn lemma_group_chars_no_colon(q: int)
    requires
        0 <= q < 0x10000,
    ensures
        forall|i: int| 0 <= i < group_chars(q).len() ==> #[trigger] group_chars(q)[i] != ':',
        group_chars(q).len() == 4,
{
    assert forall|i: int| 0 <= i < group_chars(q).len() implies #[trigger] group_chars(q)[i]
        != ':' by {
        let b = group_bytes(q)[i];
        assert(0x30 <= b < 0x67 && b != 0x3a);
        assert(group_chars(q)[i] == b as char);
        assert((b as char) as u32 == b);
    }
}

proof fn lemma_hex_digit_char_val(d: int)
    requires
        0 <= d < 16,
    ensures
        is_hex_char(hex_digit_byte(d) as char),
        hex_char_val(hex_digit_byte(d) as char) == d,
{
    let b = hex_digit_byte(d);
    assert((b as char) as u32 == b);
}

proof fn lemma_group_chars_val(q: u64)
    requires
        q < 0x10000,
    ensures
        valid_guid_group(group_chars(q as int)),
        hex_group_val(group_chars(q as int)) == q,
{
    let g = group_chars(q as int);
    let d0 = q as int / 4096 % 16;
    let d1 = q as int / 256 % 16;
    let d2 = q as int / 16 % 16;
    let d3 = q as int % 16;
    lemma_hex_digit_char_val(d0);
    lemma_hex_digit_char_val(d1);
    lemma_hex_digit_char_val(d2);
    lemma_hex_digit_char_val(d3);
    assert(g.len() == 4);
    assert(g[0] == hex_digit_byte(d0) as char);
    assert(g[1] == hex_digit_byte(d1) as char);
    assert(g[2] == hex_digit_byte(d2) as char);
    assert(g[3] == hex_digit_byte(d3) as char);
    assert(g.take(1).drop_last() =~= g.take(0));
    assert(g.take(2).drop_last() =~= g.take(1));
    assert(g.take(3).drop_last() =~= g.take(2));
    assert(g.drop_last() =~= g.take(3));
    assert(g.take(0) =~= Seq::<char>::empty());
    assert(g.take(1).last() == g[0] && g.take(2).last() == g[1] && g.take(3).last() == g[2]
        && g.last() == g[3]);
    assert(hex_group_val(g.take(0)) == 0);
    assert(hex_group_val(g.take(1)) == d0);
    assert(hex_group_val(g.take(2)) == d0 * 16 + d1);
    assert(hex_group_val(g.take(3)) == (d0 * 16 + d1) * 16 + d2);
    assert(hex_group_val(g) == ((d0 * 16 + d1) * 16 + d2) * 16 + d3);
    assert((q / 4096 % 16) * 4096 + (q / 256 % 16) * 256 + (q / 16 % 16) * 16 + q % 16 == q)
        by (bit_vector)
        requires
            q < 0x10000,
    ;
}

/// Law: the textual form of any host-order value is a valid identifier
/// text and parses back to the same value.
pub proof fn lemma_guid_round_trip(v: u64)
    ensures
        valid_guid_text(guid_chars(v)),
        guid_text_val(guid_chars(v)) == v,
{
    assert((v >> 48) & 0xFFFF < 0x10000 && (v >> 32) & 0xFFFF < 0x10000 && (v >> 16) & 0xFFFF
        < 0x10000 && v & 0xFFFF < 0x10000) by (bit_vector);
    let q0 = (v >> 48) & 0xFFFF;
    let q1 = (v >> 32) & 0xFFFF;
    let q2 = (v >> 16) & 0xFFFF;
    let q3 = v & 0xFFFF;
    let g0 = group_chars(q0 as int);
    let g1 = group_chars(q1 as int);
    let g2 = group_chars(q2 as int);
    let g3 = group_chars(q3 as int);
    assert(chars_of_bytes(seq![0x3au8]) =~= seq![':']);
    assert(guid_chars(v) =~= g0 + seq![':'] + g1 + seq![':'] + g2 + seq![':'] + g3);
    lemma_group_chars_no_colon(q0 as int);
    lemma_group_chars_no_colon(q1 as int);
    lemma_group_chars_no_colon(q2 as int);
    lemma_group_chars_no_colon(q3 as int);
    lemma_split_colon_append(g0 + seq![':'] + g1 + seq![':'] + g2, g3);
    lemma_split_colon_append(g0 + seq![':'] + g1, g2);
    lemma_split_colon_append(g0, g1);
    lemma_split_colon_no_colon(g0);
    assert(split_colon(guid_chars(v)) == seq![g0, g1, g2, g3]);
    lemma_group_chars_val(q0);
    lemma_group_chars_val(q1);
    lemma_group_chars_val(q2);
    lemma_group_chars_val(q3);
    assert(split_colon(guid_chars(v))[0] == g0);
    assert(split_colon(guid_chars(v))[1] == g1);
    assert(split_colon(guid_chars(v))[2] == g2);
    assert(split_colon(guid_chars(v))[3] == g3);
    assert(((v >> 48) & 0xFFFF) * 0x1000000000000 + ((v >> 32) & 0xFFFF) * 0x100000000 + ((v >> 16)
        & 0xFFFF) * 0x10000 + (v & 0xFFFF) == v) by (bit_vector);
}

/// Law: parsing the textual form of any identifier yields the identifier
/// back.
pub proof fn lemma_guid_text_round_trip(g: Guid)
    ensures
        valid_guid_text(guid_chars(swap64(g.0))),
        swap64(guid_text_val(guid_chars(swap64(g.0))) as u64) == g.0,
{
    lemma_guid_round_trip(swap64(g.0));
    lemma_swap64_involutive(g.0);
}

impl Default for Guid {
    /// Returns the zero identifier.
    fn default() -> (r: Self)
        ensures
            r.0 == 0,
    {
        Guid(0)
    }
}

} // verus!
