//! Port link-layer tag.
//!
//! The link layer names the physical-layer protocol of a port. The raw
//! values follow the verbs convention: 0 = unspecified, 1 = native fabric
//! (InfiniBand), 4 = Ethernet. Every other raw value maps to `Unspecified`;
//! conversion never fails.

use vstd::prelude::*;

verus! {

/// Link-layer protocol of a port.
#[derive(Clone, Copy, PartialEq, Eq, Structural, Hash, Debug)]
pub enum LinkLayer {
    /// Link layer not specified or unknown.
    Unspecified,
    /// Native InfiniBand link layer.
    InfiniBand,
    /// Ethernet link layer (used for RoCE).
    Ethernet,
}

/// The link layer denoted by a raw attribute byte.
pub open spec fn link_layer_of_raw(v: u8) -> LinkLayer {
    if v == 1 {
        LinkLayer::InfiniBand
    } else if v == 4 {
        LinkLayer::Ethernet
    } else {
        LinkLayer::Unspecified
    }
}

/// The raw byte of a link layer.
pub open spec fn link_layer_raw(l: LinkLayer) -> u8 {
    match l {
        LinkLayer::Unspecified => 0,
        LinkLayer::InfiniBand => 1,
        LinkLayer::Ethernet => 4,
    }
}

/// The display name of a link layer.
pub open spec fn link_layer_name(l: LinkLayer) -> Seq<char> {
    match l {
        LinkLayer::Unspecified => "Unspecified"@,
        LinkLayer::InfiniBand => "InfiniBand"@,
        LinkLayer::Ethernet => "Ethernet"@,
    }
}

impl LinkLayer {
    /// Maps a raw attribute byte to a link layer; values other than 0, 1
    /// and 4 map to `Unspecified`.
    pub fn from_u8(value: u8) -> (r: Self)
        ensures
            r == link_layer_of_raw(value),
            value != 1 && value != 4 ==> r == LinkLayer::Unspecified,
    {
        match value {
            1 => Self::InfiniBand,
            4 => Self::Ethernet,
            _ => Self::Unspecified,
        }
    }

    /// Returns the raw byte of this link layer.
    pub fn as_u8(&self) -> (r: u8)
        ensures
            r == link_layer_raw(*self),
    {
        match self {
            Self::Unspecified => 0,
            Self::InfiniBand => 1,
            Self::Ethernet => 4,
        }
    }

    /// Returns the display name of this link layer.
    pub fn as_str(&self) -> (r: &'static str)
        ensures
            r@ == link_layer_name(*self),
    {
        match self {
            Self::Unspecified => "Unspecified",
            Self::InfiniBand => "InfiniBand",
            Self::Ethernet => "Ethernet",
        }
    }

    /// Returns true for the native-fabric link layer.
    pub fn is_infiniband(&self) -> (r: bool)
        ensures
            r == (*self == LinkLayer::InfiniBand),
    {
        matches!(self, Self::InfiniBand)
    }

    /// Returns true for the Ethernet link layer.
    pub fn is_ethernet(&self) -> (r: bool)
        ensures
            r == (*self == LinkLayer::Ethernet),
    {
        matches!(self, Self::Ethernet)
    }
}

impl From<u8> for LinkLayer {
    fn from(value: u8) -> (r: Self)
        ensures
            r == link_layer_of_raw(value),
    {
        Self::from_u8(value)
    }
}

impl vstd::std_specs::convert::FromSpecImpl<u8> for LinkLayer {
    open spec fn obeys_from_spec() -> bool {
        true
    }

    open spec fn from_spec(v: u8) -> Self {
        link_layer_of_raw(v)
    }
}

impl From<LinkLayer> for u8 {
    fn from(layer: LinkLayer) -> (r: Self)
        ensures
            r == link_layer_raw(layer),
    {
        layer.as_u8()
    }
}

impl vstd::std_specs::convert::FromSpecImpl<LinkLayer> for u8 {
    open spec fn obeys_from_spec() -> bool {
        true
    }

    open spec fn from_spec(v: LinkLayer) -> Self {
        link_layer_raw(v)
    }
}

} // verus!
