//! Work completion helpers.
//!
//! A work completion reports the outcome of a posted work request. Its
//! identifier carries the completion type (receive, send data, send with
//! immediate), its status reports success, and immediate data is present
//! only when the corresponding flag bit is set; the data arrives in
//! network byte order.

use vstd::prelude::*;

use crate::wrid::{wrid_tag_bits, wrid_type_of, WCType, WRID};

verus! {

/// Status value of a successful work completion.
pub const IBV_WC_SUCCESS: u32 = 0;

/// Flag bit set when a work completion carries immediate data.
pub const IBV_WC_WITH_IMM: u32 = 2;

/// The value with its four bytes in reverse order.
pub open spec fn swap32(x: u32) -> u32 {
    ((x & 0xFF) << 24) | ((x & 0xFF00) << 8) | ((x >> 8) & 0xFF00) | (x >> 24)
}

fn swap_u32(x: u32) -> (r: u32)
    ensures
        r == swap32(x),
{
    ((x & 0xFF) << 24u32) | ((x & 0xFF00) << 8u32) | ((x >> 8u32) & 0xFF00) | (x >> 24u32)
}

/// Work completion record.
#[allow(non_camel_case_types)]
#[derive(Clone, Copy, Debug)]
pub struct ibv_wc {
    /// Identifier of the completed work request.
    pub wr_id: WRID,
    /// Completion status; zero is success.
    pub status: u32,
    /// Operation code of the completed request.
    pub opcode: u32,
    /// Vendor-specific error detail.
    pub vendor_err: u32,
    /// Number of bytes transferred.
    pub byte_len: u32,
    /// Completion flag bits.
    pub wc_flags: u32,
    /// Immediate data, network order; meaningful only when the
    /// immediate-data flag bit is set.
    pub imm_data: u32,
}

/// The immediate data carried by a completion: the host-order value when
/// the immediate-data flag is set, nothing otherwise.
pub open spec fn wc_imm(w: ibv_wc) -> Option<u32> {
    if w.wc_flags & IBV_WC_WITH_IMM != 0 {
        Some(swap32(w.imm_data))
    } else {
        None
    }
}

impl ibv_wc {
    /// True of completions of receive work requests.
    pub fn is_recv(&self) -> (r: bool)
        requires
            wrid_tag_bits(self.wr_id.0) != 3,
        ensures
            r == (wrid_type_of(self.wr_id.0) == WCType::Recv),
    {
        self.wr_id.get_type() == WCType::Recv
    }

    /// True of completions of send-data work requests.
    pub fn is_send_data(&self) -> (r: bool)
        requires
            wrid_tag_bits(self.wr_id.0) != 3,
        ensures
            r == (wrid_type_of(self.wr_id.0) == WCType::SendData),
    {
        self.wr_id.get_type() == WCType::SendData
    }

    /// True of completions of send-with-immediate-data work requests.
    pub fn is_send_imm(&self) -> (r: bool)
        requires
            wrid_tag_bits(self.wr_id.0) != 3,
        ensures
            r == (wrid_type_of(self.wr_id.0) == WCType::SendImm),
    {
        self.wr_id.get_type() == WCType::SendImm
    }

    /// True when the work completed successfully.
    pub fn succ(&self) -> (r: bool)
        ensures
            r == (self.status == IBV_WC_SUCCESS),
    {
        self.status == IBV_WC_SUCCESS
    }

    /// Returns the immediate data in host order when the immediate-data
    /// flag bit is set, and nothing otherwise.
    pub fn imm(&self) -> (r: Option<u32>)
        ensures
            r == wc_imm(*self),
    {
        if self.wc_flags & IBV_WC_WITH_IMM != 0 {
            Some(swap_u32(self.imm_data))
        } else {
            None
        }
    }
}

} // verus!
