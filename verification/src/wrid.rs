//! Work-request identifier codec.
//!
//! A work-request identifier packs a completion type and a caller-supplied
//! correlation id into a single 64-bit value: bits 63..62 hold the type tag
//! (0 = receive, 1 = send data, 2 = send with immediate) and bits 61..0 hold
//! the id.

use vstd::prelude::*;

use crate::text::{dec_chars, u64_to_dec};

verus! {

/// Work-request identifier with an embedded completion type.
#[derive(Clone, Copy, PartialEq, Eq, Structural, PartialOrd, Ord, Hash, Debug)]
pub struct WRID(pub u64);

/// Type of work completion.
#[derive(Debug, Clone, Copy, PartialEq, Eq, Structural)]
pub enum WCType {
    /// Receive work completion.
    Recv,
    /// Send-data work completion.
    SendData,
    /// Send-with-immediate-data work completion.
    SendImm,
}

/// Numeric tag of a completion type, as stored in bits 63..62.
pub open spec fn wc_tag(t: WCType) -> u64 {
    match t {
        WCType::Recv => 0,
        WCType::SendData => 1,
        WCType::SendImm => 2,
    }
}

/// The tag held in the two most-significant bits of a packed identifier.
pub open spec fn wrid_tag_bits(w: u64) -> u64 {
    (w & 0xC000_0000_0000_0000) >> 62
}

/// The id held in the 62 low bits of a packed identifier.
pub open spec fn wrid_id_bits(w: u64) -> u64 {
    w & 0x3FFF_FFFF_FFFF_FFFF
}

/// The packed 64-bit value for a completion type and an id.
pub open spec fn wrid_pack(t: WCType, id: u64) -> u64 {
    (wc_tag(t) << 62) | id
}

/// The completion type denoted by the tag bits of a packed identifier.
pub open spec fn wrid_type_of(w: u64) -> WCType
    recommends
        wrid_tag_bits(w) <= 2,
{
    if wrid_tag_bits(w) == 0 {
        WCType::Recv
    } else if wrid_tag_bits(w) == 1 {
        WCType::SendData
    } else {
        WCType::SendImm
    }
}

proof fn lemma_pack_fields(tag: u64, id: u64)
    by (bit_vector)
    requires
        tag <= 2,
        id < 0x4000_0000_0000_0000,
    ensures
        (((tag << 62) | id) & 0xC000_0000_0000_0000) >> 62 == tag,
        ((tag << 62) | id) & 0x3FFF_FFFF_FFFF_FFFF == id,
{
}

impl WRID {
    /// Number of low bits used for the id.
    pub const TYPE_BITS: u32 = 62;

    /// Mask selecting the type-tag bits of a packed identifier.
    pub const TYPE_MASK: u64 = 0xC000_0000_0000_0000;

    /// Packs a completion type and an id into an identifier.
    ///
    /// The id must fit in 62 bits; larger ids cannot be represented.
    pub fn new(wc_type: WCType, id: u64) -> (r: Self)
        requires
            id < 0x4000_0000_0000_0000,
        ensures
            r.0 == wrid_pack(wc_type, id),
            wrid_type_of(r.0) == wc_type,
            wrid_id_bits(r.0) == id,
    {
        let tag: u64 = match wc_type {
            WCType::Recv => 0,
            WCType::SendData => 1,
            WCType::SendImm => 2,
        };
        proof {
            lemma_pack_fields(tag, id);
        }
        WRID((tag << 62) | id)
    }

    /// Packs a completion type and an id, rejecting an id that does not
    /// fit in 62 bits instead of producing a truncated identifier.
    pub fn try_new(wc_type: WCType, id: u64) -> (r: Option<WRID>)
        ensures
            r is Some <==> id < 0x4000_0000_0000_0000,
            r is Some ==> r.unwrap().0 == wrid_pack(wc_type, id),
            r is Some ==> wrid_type_of(r.unwrap().0) == wc_type && wrid_id_bits(r.unwrap().0)
                == id,
    {
        if id < 0x4000_0000_0000_0000 {
            Some(Self::new(wc_type, id))
        } else {
            None
        }
    }

    /// Packs an identifier for a receive operation.
    pub fn recv(id: u64) -> (r: Self)
        requires
            id < 0x4000_0000_0000_0000,
        ensures
            r.0 == wrid_pack(WCType::Recv, id),
            wrid_type_of(r.0) == WCType::Recv,
            wrid_id_bits(r.0) == id,
    {
        Self::new(WCType::Recv, id)
    }

    /// Packs an identifier for a send-data operation.
    pub fn send_data(id: u64) -> (r: Self)
        requires
            id < 0x4000_0000_0000_0000,
        ensures
            r.0 == wrid_pack(WCType::SendData, id),
            wrid_type_of(r.0) == WCType::SendData,
            wrid_id_bits(r.0) == id,
    {
        Self::new(WCType::SendData, id)
    }

    /// Packs an identifier for a send-with-immediate-data operation.
    pub fn send_imm(id: u64) -> (r: Self)
        requires
            id < 0x4000_0000_0000_0000,
        ensures
            r.0 == wrid_pack(WCType::SendImm, id),
            wrid_type_of(r.0) == WCType::SendImm,
            wrid_id_bits(r.0) == id,
    {
        Self::new(WCType::SendImm, id)
    }

    /// Returns the completion type held in the tag bits.
    ///
    /// The tag value 3 denotes no completion type and must not occur.
    pub fn get_type(&self) -> (r: WCType)
        requires
            wrid_tag_bits(self.0) != 3,
        ensures
            r == wrid_type_of(self.0),
    {
        let tag = (self.0 & Self::TYPE_MASK) >> 62;
        if tag == 0 {
            WCType::Recv
        } else if tag == 1 {
            WCType::SendData
        } else {
            WCType::SendImm
        }
    }

    /// Returns the id held in the 62 low bits.
    pub fn get_id(&self) -> (r: u64)
        ensures
            r == wrid_id_bits(self.0),
    {
        proof {
            assert(self.0 & !0xC000_0000_0000_0000u64 == self.0 & 0x3FFF_FFFF_FFFF_FFFFu64)
                by (bit_vector);
        }
        self.0 & !Self::TYPE_MASK
    }
}

/// The rendered form of an identifier: the completion type's name with
/// the id in parentheses.
pub open spec fn wrid_text(w: u64) -> Seq<char>
    recommends
        wrid_tag_bits(w) != 3,
{
    (match wrid_type_of(w) {
        WCType::Recv => "Recv("@,
        WCType::SendData => "SendData("@,
        WCType::SendImm => "SendImm("@,
    }) + dec_chars(wrid_id_bits(w)) + ")"@
}

impl WRID {
    /// Renders the identifier as the completion type's name with the id
    /// in parentheses.
    pub fn to_text(&self) -> (r: String)
        requires
            wrid_tag_bits(self.0) != 3,
        ensures
            r@ == wrid_text(self.0),
    {
        let mut out: String = match self.get_type() {
            WCType::Recv => String::from_str("Recv("),
            WCType::SendData => String::from_str("SendData("),
            WCType::SendImm => String::from_str("SendImm("),
        };
        let id = u64_to_dec(self.get_id());
        out.append(id.as_str());
        out.append(")");
        out
    }
}

/// Law: decoding an encoded identifier yields the completion type and the id
/// that were encoded, for every type and every id below 2^62.
pub proof fn lemma_wrid_round_trip(t: WCType, id: u64)
    requires
        id < 0x4000_0000_0000_0000,
    ensures
        wrid_type_of(wrid_pack(t, id)) == t,
        wrid_id_bits(wrid_pack(t, id)) == id,
{
    lemma_pack_fields(wc_tag(t), id);
}

} // verus!
