//! Assembled inventory records: addresses, ports and devices.

use vstd::prelude::*;

use crate::config::{GidType, GidTypeV};
use crate::gid::ibv_gid;
use crate::guid::Guid;
use crate::probe::{DeviceAttr, PortAttr};

verus! {

/// One classified address of a port.
#[derive(Debug, Clone)]
pub struct Gid {
    /// Index of the address in the port's table.
    pub index: u16,
    /// The address value.
    pub gid: ibv_gid,
    /// The classified transport type.
    pub gid_type: GidType,
}

/// Model of one classified address.
pub struct GidV {
    /// Index of the address in the port's table.
    pub index: u16,
    /// The address value.
    pub gid: ibv_gid,
    /// The classified transport type.
    pub gid_type: GidTypeV,
}

impl DeepView for Gid {
    type V = GidV;

    open spec fn deep_view(&self) -> GidV {
        GidV { index: self.index, gid: self.gid, gid_type: self.gid_type.deep_view() }
    }
}

/// One port of a device with its surviving addresses.
#[derive(Debug, Clone)]
pub struct Port {
    /// Port number, starting at one.
    pub port_num: u8,
    /// The port's attribute block.
    pub port_attr: PortAttr,
    /// The surviving addresses of the port, in table order.
    pub gids: Vec<Gid>,
}

/// Model of one port.
pub struct PortV {
    /// Port number, starting at one.
    pub port_num: u8,
    /// The port's attribute block.
    pub port_attr: PortAttr,
    /// The surviving addresses of the port, in table order.
    pub gids: Seq<GidV>,
}

impl DeepView for Port {
    type V = PortV;

    open spec fn deep_view(&self) -> PortV {
        PortV { port_num: self.port_num, port_attr: self.port_attr, gids: self.gids.deep_view() }
    }
}

/// The assembled snapshot of one device.
#[derive(Debug, Clone)]
pub struct DeviceInfo {
    /// Zero-based position of the device in the filtered result.
    pub index: usize,
    /// Device name.
    pub name: String,
    /// Device identifier, network order.
    pub guid: Guid,
    /// Path of the device's control directory.
    pub ibdev_path: String,
    /// Device capability block.
    pub device_attr: DeviceAttr,
    /// The surviving ports of the device, in port order.
    pub ports: Vec<Port>,
}

/// Model of one device snapshot.
pub struct DeviceInfoV {
    /// Zero-based position of the device in the filtered result.
    pub index: int,
    /// Device name.
    pub name: Seq<char>,
    /// Device identifier, network order.
    pub guid: Guid,
    /// Path of the device's control directory.
    pub ibdev_path: Seq<char>,
    /// Device capability block.
    pub device_attr: DeviceAttr,
    /// The surviving ports of the device, in port order.
    pub ports: Seq<PortV>,
}

impl DeepView for DeviceInfo {
    type V = DeviceInfoV;

    open spec fn deep_view(&self) -> DeviceInfoV {
        DeviceInfoV {
            index: self.index as int,
            name: self.name@,
            guid: self.guid,
            ibdev_path: self.ibdev_path@,
            device_attr: self.device_attr,
            ports: self.ports.deep_view(),
        }
    }
}

} // verus!
