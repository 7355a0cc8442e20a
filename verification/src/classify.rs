//! Port address classification.
//!
//! The transport type of a port address is decided from two signals: the
//! text content of the per-port, per-index control file, and the port's
//! link layer. The content alone is ambiguous between the native fabric
//! and the legacy RoCE variant; the link layer disambiguates. Unrecognized
//! content is preserved, trimmed, for forward compatibility.

use vstd::prelude::*;

use crate::config::{GidType, GidTypeV};
use crate::link_layer::LinkLayer;
use crate::text::{dec_chars, str_eq, trim, trim_spec, u64_to_dec};

verus! {

/// Control-file content that means "native fabric or RoCE v1".
pub open spec fn sentinel_ib_roce_v1() -> Seq<char> {
    "IB/RoCE v1\n"@
}

/// Control-file content that means "RoCE v2".
pub open spec fn sentinel_roce_v2() -> Seq<char> {
    "RoCE v2\n"@
}

/// The transport type decided from control-file content and the port's
/// link layer: the first sentinel resolves through the link layer, the
/// second is RoCE v2 unconditionally, and any other content is preserved
/// trimmed.
pub open spec fn classify_gid_type(content: Seq<char>, ll: LinkLayer) -> GidTypeV {
    if content == sentinel_ib_roce_v1() {
        match ll {
            LinkLayer::InfiniBand => GidTypeV::IB,
            LinkLayer::Ethernet => GidTypeV::RoCEv1,
            LinkLayer::Unspecified => GidTypeV::Other(trim_spec(content)),
        }
    } else if content == sentinel_roce_v2() {
        GidTypeV::RoCEv2
    } else {
        GidTypeV::Other(trim_spec(content))
    }
}

/// Classifies one port address from the control-file content and the
/// port's link layer.
pub fn classify(content: &str, link_layer: LinkLayer) -> (r: GidType)
    ensures
        r.deep_view() == classify_gid_type(content@, link_layer),
{
    if str_eq(content, "IB/RoCE v1\n") {
        match link_layer {
            LinkLayer::InfiniBand => GidType::IB,
            LinkLayer::Ethernet => GidType::RoCEv1,
            LinkLayer::Unspecified => GidType::Other(trim(content)),
        }
    } else if str_eq(content, "RoCE v2\n") {
        GidType::RoCEv2
    } else {
        GidType::Other(trim(content))
    }
}

/// The relative path, under a device's control directory, of the control
/// file holding the classification text of one address.
pub open spec fn gid_type_rel_path_chars(port_num: u8, gid_index: u16) -> Seq<char> {
    "ports/"@ + dec_chars(port_num as u64) + "/gid_attrs/types/"@ + dec_chars(gid_index as u64)
}

/// Builds the relative path of the control file for one address of one
/// port: `ports/<port>/gid_attrs/types/<index>`.
pub fn gid_type_rel_path(port_num: u8, gid_index: u16) -> (r: String)
    ensures
        r@ == gid_type_rel_path_chars(port_num, gid_index),
{
    let mut out = String::from_str("ports/");
    let p = u64_to_dec(port_num as u64);
    out.append(p.as_str());
    out.append("/gid_attrs/types/");
    let i = u64_to_dec(gid_index as u64);
    out.append(i.as_str());
    out
}

} // verus!
