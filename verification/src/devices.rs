//! The device collection: enumeration over the probed device list.
//!
//! Enumeration walks the device list in order. Devices whose name the
//! filter rejects are skipped before opening. Each surviving device is
//! opened at the next zero-based output index; any failure while opening
//! or querying it aborts the whole enumeration with that error. An empty
//! result — an empty list, a filter matching nothing, or every port and
//! address filtered away still leaves devices, so only an empty device
//! set — fails with the not-found kind.

use vstd::prelude::*;

use crate::config::{name_selected, DeviceConfig, DeviceConfigV, empty_config};
use crate::device::{opened_device, Device};
use crate::error::{error_of_kind, Error, ErrorKind, ErrorKindV, ErrorV};
use crate::inventory::DeviceInfoV;
use crate::probe::{DeviceProbe, DeviceProbeV};

verus! {

/// The devices opened from the first `n` list entries: entries whose name
/// the filter rejects are passed over; each kept entry is opened at the
/// next output index, and the first failure aborts.
pub open spec fn open_prefix(
    list: Seq<DeviceProbeV>,
    cfg: DeviceConfigV,
    n: int,
) -> Result<Seq<DeviceInfoV>, ErrorV>
    decreases n,
{
    if n <= 0 {
        Ok(Seq::empty())
    } else {
        match open_prefix(list, cfg, n - 1) {
            Err(e) => Err(e),
            Ok(devs) => if !name_selected(cfg, list[n - 1].name) {
                Ok(devs)
            } else {
                match opened_device(list[n - 1], devs.len() as int, cfg) {
                    Err(e) => Err(e),
                    Ok(info) => Ok(devs.push(info)),
                }
            },
        }
    }
}

/// The result of the whole enumeration: the opened devices, or the first
/// failure, or the not-found error when no device survived.
pub open spec fn opened_inventory(list: Seq<DeviceProbeV>, cfg: DeviceConfigV) -> Result<
    Seq<DeviceInfoV>,
    ErrorV,
> {
    match open_prefix(list, cfg, list.len() as int) {
        Err(e) => Err(e),
        Ok(devs) => if devs.len() == 0 {
            Err(error_of_kind(ErrorKindV::IBDeviceNotFound))
        } else {
            Ok(devs)
        },
    }
}

proof fn lemma_open_prefix_err(list: Seq<DeviceProbeV>, cfg: DeviceConfigV, i: int, n: int, e: ErrorV)
    requires
        0 <= i < n,
        open_prefix(list, cfg, i) is Ok,
        name_selected(cfg, list[i].name),
        opened_device(list[i], open_prefix(list, cfg, i)->Ok_0.len() as int, cfg) == Err::<
            DeviceInfoV,
            ErrorV,
        >(e),
    ensures
        open_prefix(list, cfg, n) == Err::<Seq<DeviceInfoV>, ErrorV>(e),
    decreases n,
{
    if n == i + 1 {
    } else {
        lemma_open_prefix_err(list, cfg, i, n - 1, e);
    }
}

/// The collection of opened devices.
#[derive(Debug, Clone)]
pub struct Devices(pub Vec<Device>);

impl DeepView for Devices {
    type V = Seq<DeviceInfoV>;

    open spec fn deep_view(&self) -> Seq<DeviceInfoV> {
        self.0.deep_view()
    }
}

impl Devices {
    /// Returns the number of devices in the collection.
    pub fn len(&self) -> (r: usize)
        ensures
            r == self.deep_view().len(),
    {
        self.0.len()
    }

    /// True when the collection holds no device.
    pub fn is_empty(&self) -> (r: bool)
        ensures
            r == (self.deep_view().len() == 0),
    {
        self.0.is_empty()
    }

    /// Enumerates devices from the probed list under a configuration:
    /// filters by name before opening, opens each surviving device in
    /// list order, aborts on the first device failure, and reports
    /// not-found when nothing survived.
    pub fn open(probes: &Vec<DeviceProbe>, config: &DeviceConfig) -> (r: Result<Devices, Error>)
        requires
            forall|i: int|
                0 <= i < probes.deep_view().len() ==> (#[trigger] probes.deep_view()[i]).wf(),
        ensures
            (match opened_inventory(probes.deep_view(), config.deep_view()) {
                Ok(infos) => r is Ok && r->Ok_0.deep_view() == infos,
                Err(e) => r is Err && r->Err_0.deep_view() == e,
            }),
    {
        let n = probes.len();
        let mut devices: Vec<Device> = Vec::new();
        let mut i: usize = 0;
        proof {
            assert(devices.deep_view() =~= Seq::<DeviceInfoV>::empty());
        }
        while i < n
            invariant
                n == probes@.len(),
                i <= n,
                forall|k: int|
                    0 <= k < probes.deep_view().len() ==> (#[trigger] probes.deep_view()[k]).wf(),
                open_prefix(probes.deep_view(), config.deep_view(), i as int) == Ok::<
                    Seq<DeviceInfoV>,
                    ErrorV,
                >(devices.deep_view()),
            decreases n - i,
        {
            let ghost pv = probes.deep_view()[i as int];
            let probe = &probes[i];
            proof {
                assert(probe.deep_view() == pv);
            }
            if config.selects_name(probe.name.as_str()) {
                let index = devices.len();
                let ghost before = devices.deep_view();
                match Device::open(probe, index, config) {
                    Ok(device) => {
                        devices.push(device);
                        proof {
                            assert(devices.deep_view() =~= before.push(
                                opened_device(pv, index as int, config.deep_view())->Ok_0,
                            ));
                        }
                    },
                    Err(e) => {
                        proof {
                            lemma_open_prefix_err(
                                probes.deep_view(),
                                config.deep_view(),
                                i as int,
                                n as int,
                                e.deep_view(),
                            );
                        }
                        return Err(e);
                    },
                }
            }
            i += 1;
        }
        if devices.len() == 0 {
            Err(Error::from_kind(ErrorKind::IBDeviceNotFound))
        } else {
            Ok(Devices(devices))
        }
    }

    /// Enumerates all devices with the configuration that filters
    /// nothing.
    pub fn available(probes: &Vec<DeviceProbe>) -> (r: Result<Devices, Error>)
        requires
            forall|i: int|
                0 <= i < probes.deep_view().len() ==> (#[trigger] probes.deep_view()[i]).wf(),
        ensures
            (match opened_inventory(probes.deep_view(), empty_config()) {
                Ok(infos) => r is Ok && r->Ok_0.deep_view() == infos,
                Err(e) => r is Err && r->Err_0.deep_view() == e,
            }),
    {
        let config = DeviceConfig::default();
        Self::open(probes, &config)
    }
}

proof fn lemma_opened_device_fields(dev: DeviceProbeV, index: int, cfg: DeviceConfigV)
    requires
        opened_device(dev, index, cfg) is Ok,
    ensures
        opened_device(dev, index, cfg)->Ok_0.name == dev.name,
        opened_device(dev, index, cfg)->Ok_0.index == index,
        opened_device(dev, index, cfg)->Ok_0.guid == dev.guid,
        opened_device(dev, index, cfg)->Ok_0.ibdev_path == dev.ibdev_path,
{
}

/// Law: with an empty name filter no device is passed over — an
/// enumeration prefix that succeeds holds one record per probed device,
/// in list order, each under its position as index.
pub proof fn lemma_empty_filter_opens_all(list: Seq<DeviceProbeV>, cfg: DeviceConfigV, n: int)
    requires
        cfg.device_filter.len() == 0,
        0 <= n <= list.len(),
        open_prefix(list, cfg, n) is Ok,
    ensures
        open_prefix(list, cfg, n)->Ok_0.len() == n,
        forall|k: int|
            0 <= k < n ==> (#[trigger] open_prefix(list, cfg, n)->Ok_0[k]).name == list[k].name
                && open_prefix(list, cfg, n)->Ok_0[k].index == k,
    decreases n,
{
    if n > 0 {
        lemma_empty_filter_opens_all(list, cfg, n - 1);
        let devs = open_prefix(list, cfg, n - 1)->Ok_0;
        lemma_opened_device_fields(list[n - 1], devs.len() as int, cfg);
    }
}

proof fn lemma_prefix_all_skipped(list: Seq<DeviceProbeV>, cfg: DeviceConfigV, n: int)
    requires
        0 <= n <= list.len(),
        forall|k: int| 0 <= k < list.len() ==> !name_selected(cfg, (#[trigger] list[k]).name),
    ensures
        open_prefix(list, cfg, n) == Ok::<Seq<DeviceInfoV>, ErrorV>(Seq::empty()),
    decreases n,
{
    if n > 0 {
        lemma_prefix_all_skipped(list, cfg, n - 1);
    }
}

/// Law: a name filter that matches no probed device makes the whole
/// enumeration fail with the not-found error.
pub proof fn lemma_no_match_not_found(list: Seq<DeviceProbeV>, cfg: DeviceConfigV)
    requires
        forall|k: int| 0 <= k < list.len() ==> !name_selected(cfg, (#[trigger] list[k]).name),
    ensures
        opened_inventory(list, cfg) == Err::<Seq<DeviceInfoV>, ErrorV>(
            error_of_kind(ErrorKindV::IBDeviceNotFound),
        ),
{
    lemma_prefix_all_skipped(list, cfg, list.len() as int);
}

proof fn lemma_gids_prefix_selected(
    gids: Seq<crate::probe::GidProbeV>,
    ll: crate::link_layer::LinkLayer,
    cfg: DeviceConfigV,
    n: int,
)
    ensures
        forall|g: int|
            0 <= g < crate::device::gids_of_port_prefix(gids, ll, cfg, n).len()
                ==> crate::config::gid_type_selected(
                cfg,
                (#[trigger] crate::device::gids_of_port_prefix(gids, ll, cfg, n)[g]).gid_type,
            ),
    decreases n,
{
    if n > 0 {
        lemma_gids_prefix_selected(gids, ll, cfg, n - 1);
        let prev = crate::device::gids_of_port_prefix(gids, ll, cfg, n - 1);
        let cur = crate::device::gids_of_port_prefix(gids, ll, cfg, n);
        assert forall|g: int|
            0 <= g < cur.len() implies crate::config::gid_type_selected(
            cfg,
            (#[trigger] cur[g]).gid_type,
        ) by {
            if g < prev.len() {
                assert(cur[g] == prev[g]);
            }
        }
    }
}

proof fn lemma_build_ports_props(ports: Seq<crate::probe::PortProbeV>, cfg: DeviceConfigV, n: int)
    requires
        crate::device::build_ports_prefix(ports, cfg, n) is Ok,
    ensures
        forall|p: int|
            0 <= p < crate::device::build_ports_prefix(ports, cfg, n)->Ok_0.len() ==> (
            cfg.skip_inactive_port ==> (#[trigger] crate::device::build_ports_prefix(
                ports,
                cfg,
                n,
            )->Ok_0[p]).port_attr.state == crate::probe::PortState::Active),
        forall|p: int, g: int|
            0 <= p < crate::device::build_ports_prefix(ports, cfg, n)->Ok_0.len() && 0 <= g
                < crate::device::build_ports_prefix(ports, cfg, n)->Ok_0[p].gids.len()
                ==> crate::config::gid_type_selected(
                cfg,
                (#[trigger] crate::device::build_ports_prefix(ports, cfg, n)->Ok_0[p].gids[g]).gid_type,
            ),
    decreases n,
{
    if n > 0 {
        lemma_build_ports_props(ports, cfg, n - 1);
        let prev = crate::device::build_ports_prefix(ports, cfg, n - 1)->Ok_0;
        let cur = crate::device::build_ports_prefix(ports, cfg, n)->Ok_0;
        if cur.len() > prev.len() {
            lemma_gids_prefix_selected(
                ports[n - 1].gids,
                ports[n - 1].attr->Ok_0.link_layer,
                cfg,
                ports[n - 1].gids.len() as int,
            );
        }
    }
}

proof fn lemma_opened_device_props(dev: DeviceProbeV, index: int, cfg: DeviceConfigV)
    requires
        opened_device(dev, index, cfg) is Ok,
    ensures
        forall|p: int|
            0 <= p < opened_device(dev, index, cfg)->Ok_0.ports.len() ==> (cfg.skip_inactive_port
                ==> (#[trigger] opened_device(dev, index, cfg)->Ok_0.ports[p]).port_attr.state
                == crate::probe::PortState::Active),
        forall|p: int, g: int|
            0 <= p < opened_device(dev, index, cfg)->Ok_0.ports.len() && 0 <= g < opened_device(
                dev,
                index,
                cfg,
            )->Ok_0.ports[p].gids.len() ==> crate::config::gid_type_selected(
                cfg,
                (#[trigger] opened_device(dev, index, cfg)->Ok_0.ports[p].gids[g]).gid_type,
            ),
{
    let ctx = dev.context->Ok_0;
    let attr = ctx.device_attr->Ok_0;
    lemma_build_ports_props(ctx.ports, cfg, attr.phys_port_cnt as int);
}

proof fn lemma_open_prefix_port_props(list: Seq<DeviceProbeV>, cfg: DeviceConfigV, n: int)
    requires
        open_prefix(list, cfg, n) is Ok,
    ensures
        forall|d: int, p: int|
            0 <= d < open_prefix(list, cfg, n)->Ok_0.len() && 0 <= p < open_prefix(
                list,
                cfg,
                n,
            )->Ok_0[d].ports.len() ==> (cfg.skip_inactive_port ==> (#[trigger] open_prefix(
                list,
                cfg,
                n,
            )->Ok_0[d].ports[p]).port_attr.state == crate::probe::PortState::Active),
        forall|d: int, p: int, g: int|
            0 <= d < open_prefix(list, cfg, n)->Ok_0.len() && 0 <= p < open_prefix(
                list,
                cfg,
                n,
            )->Ok_0[d].ports.len() && 0 <= g < open_prefix(list, cfg, n)->Ok_0[d].ports[p].gids.len()
                ==> crate::config::gid_type_selected(
                cfg,
                (#[trigger] open_prefix(list, cfg, n)->Ok_0[d].ports[p].gids[g]).gid_type,
            ),
    decreases n,
{
    if n > 0 {
        lemma_open_prefix_port_props(list, cfg, n - 1);
        let prev = open_prefix(list, cfg, n - 1)->Ok_0;
        let cur = open_prefix(list, cfg, n)->Ok_0;
        if cur.len() > prev.len() {
            lemma_opened_device_props(list[n - 1], prev.len() as int, cfg);
        }
    }
}

/// Law: when the configuration omits inactive ports, no port of a
/// successful enumeration is in any state but active.
pub proof fn lemma_skip_inactive_no_inactive_ports(list: Seq<DeviceProbeV>, cfg: DeviceConfigV)
    requires
        cfg.skip_inactive_port,
        opened_inventory(list, cfg) is Ok,
    ensures
        forall|d: int, p: int|
            0 <= d < opened_inventory(list, cfg)->Ok_0.len() && 0 <= p < opened_inventory(
                list,
                cfg,
            )->Ok_0[d].ports.len() ==> (#[trigger] opened_inventory(
                list,
                cfg,
            )->Ok_0[d].ports[p]).port_attr.state == crate::probe::PortState::Active,
{
    lemma_open_prefix_port_props(list, cfg, list.len() as int);
}

/// Law: every address of a successful enumeration bears a tag that the
/// type filter admits.
pub proof fn lemma_gid_type_filter_respected(list: Seq<DeviceProbeV>, cfg: DeviceConfigV)
    requires
        opened_inventory(list, cfg) is Ok,
    ensures
        forall|d: int, p: int, g: int|
            0 <= d < opened_inventory(list, cfg)->Ok_0.len() && 0 <= p < opened_inventory(
                list,
                cfg,
            )->Ok_0[d].ports.len() && 0 <= g < opened_inventory(
                list,
                cfg,
            )->Ok_0[d].ports[p].gids.len() ==> crate::config::gid_type_selected(
                cfg,
                (#[trigger] opened_inventory(list, cfg)->Ok_0[d].ports[p].gids[g]).gid_type,
            ),
{
    lemma_open_prefix_port_props(list, cfg, list.len() as int);
}

/// Law: with the type filter holding exactly the RoCE v2 tag, every
/// address of a successful enumeration bears that tag.
pub proof fn lemma_gid_type_filter_roce_v2_only(list: Seq<DeviceProbeV>, cfg: DeviceConfigV)
    requires
        cfg.gid_type_filter == seq![crate::config::GidTypeV::RoCEv2],
        opened_inventory(list, cfg) is Ok,
    ensures
        forall|d: int, p: int, g: int|
            0 <= d < opened_inventory(list, cfg)->Ok_0.len() && 0 <= p < opened_inventory(
                list,
                cfg,
            )->Ok_0[d].ports.len() && 0 <= g < opened_inventory(
                list,
                cfg,
            )->Ok_0[d].ports[p].gids.len() ==> (#[trigger] opened_inventory(
                list,
                cfg,
            )->Ok_0[d].ports[p].gids[g]).gid_type == crate::config::GidTypeV::RoCEv2,
{
    lemma_gid_type_filter_respected(list, cfg);
}

} // verus!
