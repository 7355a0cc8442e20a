//! Verified inventory of RDMA-capable network devices.
//!
//! The crate defines the compact value types used by an RDMA data path
//! (work-request identifiers, device GUIDs, firmware version buffers, link
//! layers) together with the device enumeration and filter pipeline that
//! turns raw query results into a structured, filterable inventory.
//!
//! All decisions — codecs, address classification, filtering, error
//! taxonomy — are verified. The process-level collaborators (the verbs
//! calls that produce raw query results, sysfs reads, JSON output) live in
//! the surrounding application, which hands this library plain values.

use vstd::prelude::*;

mod classify;
mod config;
mod device;
mod devices;
mod error;
mod fw_ver;
mod gid;
mod guid;
mod inventory;
mod link_layer;
mod probe;
mod text;
mod wc;
mod wrid;

pub use classify::{classify, classify_gid_type, gid_type_rel_path};
pub use config::{DeviceConfig, DeviceConfigBuilder, DeviceConfigV, GidType, GidTypeV};
pub use device::{Device, gid_kept, gids_of_port, build_ports_prefix, opened_device, updated_info};
pub use devices::{Devices, open_prefix, opened_inventory};
pub use error::{Error, ErrorKind, ErrorKindV, ErrorV};
pub use fw_ver::FwVer;
pub use gid::ibv_gid;
pub use guid::Guid;
pub use inventory::{DeviceInfo, DeviceInfoV, Gid, GidV, Port, PortV};
pub use link_layer::LinkLayer;
pub use probe::{ContextProbe, ContextProbeV, DeviceAttr, DeviceProbe, DeviceProbeV, GidProbe, GidProbeV, PortAttr, PortProbe, PortProbeV, PortState};
pub use wc::ibv_wc;
pub use wrid::{WCType, WRID};
