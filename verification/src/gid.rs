//! 128-bit port address (GID).
//!
//! A GID addresses a port on an RDMA fabric. It is held as 16 raw bytes in
//! network order; the first eight bytes form the subnet prefix, the last
//! eight the interface id. A GID whose interface id is zero is the null
//! address. A GID may be read as an IPv6-style value; the link-local
//! test looks at the fe80::/10 prefix.

use vstd::prelude::*;

verus! {

/// 128-bit global identifier of a port, raw network-order bytes.
#[allow(non_camel_case_types)]
#[derive(Clone, Copy, Debug, PartialEq)]
pub struct ibv_gid {
    /// The sixteen address bytes, network order.
    pub raw: [u8; 16],
}

/// The big-endian integer value of a byte sequence.
pub open spec fn be_bytes_val(bs: Seq<u8>) -> int
    decreases bs.len(),
{
    if bs.len() == 0 {
        0
    } else {
        be_bytes_val(bs.drop_last()) * 256 + bs.last()
    }
}

spec fn b256pow(n: int) -> int
    decreases n,
{
    if n <= 0 {
        1
    } else {
        256 * b256pow(n - 1)
    }
}

proof fn lemma_be_bytes_val_bound(bs: Seq<u8>)
    ensures
        0 <= be_bytes_val(bs) < b256pow(bs.len() as int),
    decreases bs.len(),
{
    if bs.len() > 0 {
        lemma_be_bytes_val_bound(bs.drop_last());
    }
}

proof fn lemma_b256pow_mono(a: int, b: int)
    requires
        a <= b,
    ensures
        b256pow(a) <= b256pow(b),
    decreases b - a,
{
    if a < b {
        lemma_b256pow_mono(a, b - 1);
        lemma_be_bytes_val_bound(Seq::<u8>::empty());
        assert(b256pow(b - 1) >= 1) by {
            lemma_b256pow_pos(b - 1);
        }
    }
}

proof fn lemma_b256pow_pos(n: int)
    ensures
        b256pow(n) >= 1,
    decreases n,
{
    if n > 0 {
        lemma_b256pow_pos(n - 1);
    }
}

/// The subnet prefix of an address: its first eight bytes, big endian.
pub open spec fn gid_subnet_prefix(raw: Seq<u8>) -> int {
    be_bytes_val(raw.subrange(0, 8))
}

/// The interface id of an address: its last eight bytes, big endian.
pub open spec fn gid_interface_id(raw: Seq<u8>) -> int {
    be_bytes_val(raw.subrange(8, 16))
}

/// True of the null address: an all-zero interface id.
pub open spec fn gid_is_null(raw: Seq<u8>) -> bool {
    gid_interface_id(raw) == 0
}

/// True of IPv6-style link-local unicast addresses: the fe80::/10 prefix.
pub open spec fn gid_is_unicast_link_local(raw: Seq<u8>) -> bool {
    raw[0] == 0xfe && raw[1] & 0xc0 == 0x80
}

fn be_bytes_u64(raw: &[u8; 16], start: usize) -> (r: u64)
    requires
        start + 8 <= 16,
    ensures
        r == be_bytes_val(raw@.subrange(start as int, start as int + 8)),
{
    let mut v: u64 = 0;
    let mut i: usize = 0;
    proof {
        assert(raw@.subrange(start as int, start as int) =~= Seq::<u8>::empty());
        reveal_with_fuel(b256pow, 10);
    }
    while i < 8
        invariant
            start + 8 <= 16,
            i <= 8,
            raw@.len() == 16,
            v == be_bytes_val(raw@.subrange(start as int, start as int + i)),
            v < b256pow(i as int),
        decreases 8 - i,
    {
        proof {
            reveal_with_fuel(b256pow, 10);
            lemma_b256pow_mono(i as int, 7);
            assert(b256pow(7) == 0x100_0000_0000_0000);
            let sub = raw@.subrange(start as int, start as int + i + 1);
            assert(sub.drop_last() =~= raw@.subrange(start as int, start as int + i));
            assert(sub.last() == raw@[start + i]);
        }
        v = v * 256 + (raw[start + i] as u64);
        i += 1;
    }
    v
}

impl ibv_gid {
    /// Returns the raw address bytes.
    pub fn as_raw(&self) -> (r: &[u8; 16])
        ensures
            r@ == self.raw@,
    {
        &self.raw
    }

    /// Returns the address as a 128-bit big-endian integer.
    pub fn as_bits(&self) -> (r: u128)
        ensures
            r == be_bytes_val(self.raw@),
    {
        let mut v: u128 = 0;
        let mut i: usize = 0;
        proof {
            assert(self.raw@.subrange(0, 0) =~= Seq::<u8>::empty());
            reveal_with_fuel(b256pow, 17);
        }
        while i < 16
            invariant
                i <= 16,
                self.raw@.len() == 16,
                v == be_bytes_val(self.raw@.subrange(0, i as int)),
                v < b256pow(i as int),
            decreases 16 - i,
        {
            proof {
                reveal_with_fuel(b256pow, 17);
                lemma_b256pow_mono(i as int, 15);
                assert(b256pow(15) == 0x100_0000_0000_0000_0000_0000_0000_0000);
                let sub = self.raw@.subrange(0, i + 1);
                assert(sub.drop_last() =~= self.raw@.subrange(0, i as int));
                assert(sub.last() == self.raw@[i as int]);
            }
            v = v * 256 + (self.raw[i] as u128);
            i += 1;
        }
        proof {
            assert(self.raw@.subrange(0, 16) =~= self.raw@);
        }
        v
    }

    /// Returns the subnet prefix: the first eight bytes, big endian.
    pub fn subnet_prefix(&self) -> (r: u64)
        ensures
            r == gid_subnet_prefix(self.raw@),
    {
        be_bytes_u64(&self.raw, 0)
    }

    /// Returns the interface id: the last eight bytes, big endian.
    pub fn interface_id(&self) -> (r: u64)
        ensures
            r == gid_interface_id(self.raw@),
    {
        be_bytes_u64(&self.raw, 8)
    }

    /// True of the null address (zero interface id).
    pub fn is_null(&self) -> (r: bool)
        ensures
            r == gid_is_null(self.raw@),
    {
        self.interface_id() == 0
    }

    /// True of IPv6-style link-local unicast addresses (fe80::/10).
    pub fn is_unicast_link_local(&self) -> (r: bool)
        ensures
            r == gid_is_unicast_link_local(self.raw@),
    {
        self.raw[0] == 0xfe && self.raw[1] & 0xc0 == 0x80
    }
}

} // verus!
