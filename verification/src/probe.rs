//! Raw query results handed to the enumeration pipeline.
//!
//! The pipeline decides everything from plain values: for each device the
//! name, identifier and control-directory path read from its list entry,
//! and the outcome of every call made while opening and querying it. Each
//! outcome is a `Result` whose error text is the OS error description
//! captured right after the failing call. The surrounding application
//! performs the calls and fills these records; the library's verified
//! functions consume them.

use vstd::prelude::*;

use crate::fw_ver::FwVer;
use crate::gid::ibv_gid;
use crate::guid::Guid;
use crate::link_layer::LinkLayer;

verus! {

/// State of a port.
#[derive(Clone, Copy, PartialEq, Eq, Structural, Debug, Hash)]
pub enum PortState {
    /// No state reported.
    Nop,
    /// Port is down.
    Down,
    /// Port is initializing.
    Init,
    /// Port is armed.
    Armed,
    /// Port is active.
    Active,
    /// Port is active but deferring.
    ActiveDefer,
}

/// The port state denoted by a raw attribute value, following the verbs
/// numbering; unknown values map to `Nop`.
pub open spec fn port_state_of_raw(v: u8) -> PortState {
    if v == 1 {
        PortState::Down
    } else if v == 2 {
        PortState::Init
    } else if v == 3 {
        PortState::Armed
    } else if v == 4 {
        PortState::Active
    } else if v == 5 {
        PortState::ActiveDefer
    } else {
        PortState::Nop
    }
}

impl PortState {
    /// Maps a raw attribute value to a port state; unknown values map to
    /// `Nop`.
    pub fn from_u8(v: u8) -> (r: Self)
        ensures
            r == port_state_of_raw(v),
    {
        match v {
            1 => PortState::Down,
            2 => PortState::Init,
            3 => PortState::Armed,
            4 => PortState::Active,
            5 => PortState::ActiveDefer,
            _ => PortState::Nop,
        }
    }

    /// True of the active state.
    pub fn is_active(&self) -> (r: bool)
        ensures
            r == (*self == PortState::Active),
    {
        matches!(self, PortState::Active)
    }
}

/// Device capability block, as reported by a device-attribute query.
#[derive(Clone, Copy, Debug)]
pub struct DeviceAttr {
    /// Firmware version string.
    pub fw_ver: FwVer,
    /// Node identifier, network order.
    pub node_guid: Guid,
    /// Largest number of queue pairs supported.
    pub max_qp: u32,
    /// Largest number of outstanding work requests per queue pair.
    pub max_qp_wr: u32,
    /// Largest number of scatter/gather entries per work request.
    pub max_sge: u32,
    /// Largest number of completion queues supported.
    pub max_cq: u32,
    /// Largest number of entries per completion queue.
    pub max_cqe: u32,
    /// Largest number of memory regions supported.
    pub max_mr: u32,
    /// Largest number of protection domains supported.
    pub max_pd: u32,
    /// Number of physical ports.
    pub phys_port_cnt: u8,
}

/// The capability block with every count zero.
pub open spec fn device_attr_zero() -> DeviceAttr {
    DeviceAttr {
        fw_ver: FwVer(vstd::array::spec_array_fill_for_copy_type::<u8, 64>(0u8)),
        node_guid: Guid(0),
        max_qp: 0,
        max_qp_wr: 0,
        max_sge: 0,
        max_cq: 0,
        max_cqe: 0,
        max_mr: 0,
        max_pd: 0,
        phys_port_cnt: 0,
    }
}

impl Default for DeviceAttr {
    /// The capability block with every count zero.
    fn default() -> (r: Self)
        ensures
            r == device_attr_zero(),
    {
        DeviceAttr {
            fw_ver: FwVer([0u8; 64]),
            node_guid: Guid(0),
            max_qp: 0,
            max_qp_wr: 0,
            max_sge: 0,
            max_cq: 0,
            max_cqe: 0,
            max_mr: 0,
            max_pd: 0,
            phys_port_cnt: 0,
        }
    }
}

/// Port attribute block, as reported by a port-attribute query.
#[derive(Clone, Copy, Debug)]
pub struct PortAttr {
    /// State of the port.
    pub state: PortState,
    /// Link layer of the port.
    pub link_layer: LinkLayer,
    /// Length of the port's address table.
    pub gid_tbl_len: u16,
    /// Local identifier of the port.
    pub lid: u16,
    /// Largest message size, bytes.
    pub max_msg_sz: u32,
    /// Active maximum transmission unit, bytes.
    pub active_mtu: u32,
}

/// Query results for one slot of a port's address table: the address
/// itself and the classification text read out of band.
#[derive(Debug)]
pub struct GidProbe {
    /// The queried address; a failure also stands for the null address
    /// outcome of the call itself.
    pub gid: Result<ibv_gid, String>,
    /// The content of the per-index classification file.
    pub gid_type_text: Result<String, String>,
}

/// Model of one address-table slot.
pub struct GidProbeV {
    /// The queried address, or the failure text.
    pub gid: Result<ibv_gid, Seq<char>>,
    /// The classification text, or the failure text.
    pub gid_type_text: Result<Seq<char>, Seq<char>>,
}

impl DeepView for GidProbe {
    type V = GidProbeV;

    open spec fn deep_view(&self) -> GidProbeV {
        GidProbeV {
            gid: match self.gid {
                Ok(g) => Ok(g),
                Err(ref m) => Err(m@),
            },
            gid_type_text: match self.gid_type_text {
                Ok(ref t) => Ok(t@),
                Err(ref m) => Err(m@),
            },
        }
    }
}

/// Query results for one port: its attribute block and one slot per
/// address-table index.
#[derive(Debug)]
pub struct PortProbe {
    /// The queried port attributes.
    pub attr: Result<PortAttr, String>,
    /// One record per address-table index, in order.
    pub gids: Vec<GidProbe>,
}

/// Model of one port's query results.
pub struct PortProbeV {
    /// The queried port attributes, or the failure text.
    pub attr: Result<PortAttr, Seq<char>>,
    /// One record per address-table index, in order.
    pub gids: Seq<GidProbeV>,
}

impl DeepView for PortProbe {
    type V = PortProbeV;

    open spec fn deep_view(&self) -> PortProbeV {
        PortProbeV {
            attr: match self.attr {
                Ok(a) => Ok(a),
                Err(ref m) => Err(m@),
            },
            gids: self.gids.deep_view(),
        }
    }
}

/// Query results for one opened device context: the protection-domain
/// allocation, the capability block, and one record per physical port.
#[derive(Debug)]
pub struct ContextProbe {
    /// Outcome of the protection-domain allocation.
    pub pd: Result<(), String>,
    /// The queried capability block.
    pub device_attr: Result<DeviceAttr, String>,
    /// One record per physical port, port 1 first.
    pub ports: Vec<PortProbe>,
}

/// Model of one opened context's query results.
pub struct ContextProbeV {
    /// Outcome of the protection-domain allocation.
    pub pd: Result<(), Seq<char>>,
    /// The queried capability block, or the failure text.
    pub device_attr: Result<DeviceAttr, Seq<char>>,
    /// One record per physical port, port 1 first.
    pub ports: Seq<PortProbeV>,
}

impl DeepView for ContextProbe {
    type V = ContextProbeV;

    open spec fn deep_view(&self) -> ContextProbeV {
        ContextProbeV {
            pd: match self.pd {
                Ok(_) => Ok(()),
                Err(ref m) => Err(m@),
            },
            device_attr: match self.device_attr {
                Ok(a) => Ok(a),
                Err(ref m) => Err(m@),
            },
            ports: self.ports.deep_view(),
        }
    }
}

/// Everything learned about one device-list entry: its list metadata and,
/// if opening succeeded, the opened context's query results.
#[derive(Debug)]
pub struct DeviceProbe {
    /// Device name from the list entry.
    pub name: String,
    /// Device identifier from the list entry, network order.
    pub guid: Guid,
    /// Path of the device's control directory.
    pub ibdev_path: String,
    /// The opened context's results, or the failure text of the open call.
    pub context: Result<ContextProbe, String>,
}

/// Model of one device-list entry.
pub struct DeviceProbeV {
    /// Device name from the list entry.
    pub name: Seq<char>,
    /// Device identifier from the list entry, network order.
    pub guid: Guid,
    /// Path of the device's control directory.
    pub ibdev_path: Seq<char>,
    /// The opened context's results, or the failure text of the open call.
    pub context: Result<ContextProbeV, Seq<char>>,
}

impl DeepView for DeviceProbe {
    type V = DeviceProbeV;

    open spec fn deep_view(&self) -> DeviceProbeV {
        DeviceProbeV {
            name: self.name@,
            guid: self.guid,
            ibdev_path: self.ibdev_path@,
            context: match self.context {
                Ok(ref c) => Ok(c.deep_view()),
                Err(ref m) => Err(m@),
            },
        }
    }
}

impl PortProbeV {
    /// Well-formedness: a port with readable attributes has one
    /// address-table record per reported table index.
    pub open spec fn wf(self) -> bool {
        self.attr is Ok ==> self.gids.len() == self.attr->Ok_0.gid_tbl_len
    }
}

impl ContextProbeV {
    /// Well-formedness: a context with a readable capability block has one
    /// record per reported physical port, and each port record is well
    /// formed.
    pub open spec fn wf(self) -> bool {
        &&& self.device_attr is Ok ==> self.ports.len() == self.device_attr->Ok_0.phys_port_cnt
        &&& forall|i: int| 0 <= i < self.ports.len() ==> (#[trigger] self.ports[i]).wf()
    }
}

impl DeviceProbeV {
    /// Well-formedness: a device that opened carries a well-formed
    /// context record.
    pub open spec fn wf(self) -> bool {
        self.context is Ok ==> self.context->Ok_0.wf()
    }
}

} // verus!
