//! One opened device: attribute refresh and the per-port address pipeline.
//!
//! Opening a device walks the outcomes recorded in its probe: a failed
//! open or protection-domain allocation fails the device with the
//! corresponding kind and the captured OS error text; then the capability
//! block and every port attribute block are read, and each port's address
//! table is filtered. A failure to read one address or its classification
//! skips that single address; a failure to read the capability block or a
//! port's attributes fails the whole device.

use vstd::prelude::*;

use crate::classify::{classify, classify_gid_type};
use crate::config::{gid_type_selected, DeviceConfig, DeviceConfigV, GidType, GidTypeV};
use crate::error::{Error, ErrorKind, ErrorKindV, ErrorV};
use crate::gid::{gid_is_null, gid_is_unicast_link_local};
use crate::inventory::{DeviceInfo, DeviceInfoV, Gid, GidV, Port, PortV};
use crate::probe::{
    device_attr_zero, ContextProbe, ContextProbeV, DeviceAttr, DeviceProbe, DeviceProbeV,
    GidProbeV, PortProbeV, PortState,
};

verus! {

/// True when one address-table slot survives: both queries succeeded, the
/// address is not null, its classified type passes the type filter, and it
/// is not a link-local RoCE v2 address being excluded.
pub open spec fn gid_kept(p: GidProbeV, ll: crate::link_layer::LinkLayer, cfg: DeviceConfigV) -> bool {
    &&& p.gid is Ok
    &&& !gid_is_null(p.gid->Ok_0.raw@)
    &&& p.gid_type_text is Ok
    &&& gid_type_selected(cfg, classify_gid_type(p.gid_type_text->Ok_0, ll))
    &&& !(cfg.roce_v2_skip_link_local_addr && classify_gid_type(p.gid_type_text->Ok_0, ll)
        == GidTypeV::RoCEv2 && gid_is_unicast_link_local(p.gid->Ok_0.raw@))
}

/// The record assembled for one surviving slot.
pub open spec fn gid_record(idx: u16, p: GidProbeV, ll: crate::link_layer::LinkLayer) -> GidV {
    GidV { index: idx, gid: p.gid->Ok_0, gid_type: classify_gid_type(p.gid_type_text->Ok_0, ll) }
}

/// The surviving addresses among the first `n` slots, in table order.
pub open spec fn gids_of_port_prefix(
    gids: Seq<GidProbeV>,
    ll: crate::link_layer::LinkLayer,
    cfg: DeviceConfigV,
    n: int,
) -> Seq<GidV>
    decreases n,
{
    if n <= 0 {
        Seq::empty()
    } else {
        let rest = gids_of_port_prefix(gids, ll, cfg, n - 1);
        if gid_kept(gids[n - 1], ll, cfg) {
            rest.push(gid_record((n - 1) as u16, gids[n - 1], ll))
        } else {
            rest
        }
    }
}

/// The surviving addresses of a port, in table order.
pub open spec fn gids_of_port(
    gids: Seq<GidProbeV>,
    ll: crate::link_layer::LinkLayer,
    cfg: DeviceConfigV,
) -> Seq<GidV> {
    gids_of_port_prefix(gids, ll, cfg, gids.len() as int)
}

/// The ports assembled from the first `n` port records: a port whose
/// attributes could not be read fails the device with the first such
/// error; an inactive port is omitted entirely when so configured.
pub open spec fn build_ports_prefix(
    ports: Seq<PortProbeV>,
    cfg: DeviceConfigV,
    n: int,
) -> Result<Seq<PortV>, ErrorV>
    decreases n,
{
    if n <= 0 {
        Ok(Seq::empty())
    } else {
        match build_ports_prefix(ports, cfg, n - 1) {
            Err(e) => Err(e),
            Ok(acc) => match ports[n - 1].attr {
                Err(m) => Err(ErrorV { kind: ErrorKindV::IBQueryPortFail, msg: m }),
                Ok(attr) => if cfg.skip_inactive_port && attr.state != PortState::Active {
                    Ok(acc)
                } else {
                    Ok(
                        acc.push(
                            PortV {
                                port_num: n as u8,
                                port_attr: attr,
                                gids: gids_of_port(ports[n - 1].gids, attr.link_layer, cfg),
                            },
                        ),
                    )
                },
            },
        }
    }
}

proof fn lemma_build_ports_prefix_err(ports: Seq<PortProbeV>, cfg: DeviceConfigV, i: int, n: int)
    requires
        0 <= i < n,
        build_ports_prefix(ports, cfg, i) is Ok,
        ports[i].attr is Err,
    ensures
        build_ports_prefix(ports, cfg, n) == Err::<Seq<PortV>, ErrorV>(
            ErrorV { kind: ErrorKindV::IBQueryPortFail, msg: ports[i].attr->Err_0 },
        ),
    decreases n,
{
    if n == i + 1 {
    } else {
        lemma_build_ports_prefix_err(ports, cfg, i, n - 1);
    }
}

/// The device snapshot after a refresh: the capability block replaced,
/// the ports rebuilt, everything else kept.
pub open spec fn updated_info(
    info: DeviceInfoV,
    ctx: ContextProbeV,
    cfg: DeviceConfigV,
) -> Result<DeviceInfoV, ErrorV> {
    match ctx.device_attr {
        Err(m) => Err(ErrorV { kind: ErrorKindV::IBQueryDeviceFail, msg: m }),
        Ok(attr) => match build_ports_prefix(ctx.ports, cfg, attr.phys_port_cnt as int) {
            Err(e) => Err(e),
            Ok(ports) => Ok(DeviceInfoV { device_attr: attr, ports, ..info }),
        },
    }
}

/// The snapshot of a freshly opened device: a failed open or
/// protection-domain allocation fails it with that kind and the captured
/// text; otherwise the base record is filled by a refresh.
pub open spec fn opened_device(
    dev: DeviceProbeV,
    index: int,
    cfg: DeviceConfigV,
) -> Result<DeviceInfoV, ErrorV> {
    match dev.context {
        Err(m) => Err(ErrorV { kind: ErrorKindV::IBOpenDeviceFail, msg: m }),
        Ok(ctx) => match ctx.pd {
            Err(m) => Err(ErrorV { kind: ErrorKindV::IBAllocPDFail, msg: m }),
            Ok(_) => updated_info(
                DeviceInfoV {
                    index,
                    name: dev.name,
                    guid: dev.guid,
                    ibdev_path: dev.ibdev_path,
                    device_attr: device_attr_zero(),
                    ports: Seq::empty(),
                },
                ctx,
                cfg,
            ),
        },
    }
}

/// An opened device: its assembled snapshot. The underlying context and
/// protection-domain handles live with the surrounding application, which
/// releases the protection domain before the context.
#[derive(Debug, Clone)]
pub struct Device {
    /// The assembled snapshot of the device.
    pub info: DeviceInfo,
}

impl DeepView for Device {
    type V = DeviceInfoV;

    open spec fn deep_view(&self) -> DeviceInfoV {
        self.info.deep_view()
    }
}

impl Device {
    /// Filters one port's address table: slots whose queries failed or
    /// whose address is null are skipped one by one, the rest are
    /// classified and filtered by type and by the link-local rule.
    pub fn collect_port_gids(
        gids: &Vec<crate::probe::GidProbe>,
        port_attr: &crate::probe::PortAttr,
        config: &DeviceConfig,
    ) -> (r: Vec<Gid>)
        requires
            gids@.len() < 0x10000,
        ensures
            r.deep_view() == gids_of_port(gids.deep_view(), port_attr.link_layer, config.deep_view()),
    {
        let ll = port_attr.link_layer;
        let mut out: Vec<Gid> = Vec::new();
        let mut idx: usize = 0;
        proof {
            assert(out.deep_view() =~= gids_of_port_prefix(
                gids.deep_view(),
                ll,
                config.deep_view(),
                0,
            ));
        }
        while idx < gids.len()
            invariant
                gids@.len() < 0x10000,
                idx <= gids@.len(),
                out.deep_view() =~= gids_of_port_prefix(
                    gids.deep_view(),
                    ll,
                    config.deep_view(),
                    idx as int,
                ),
            decreases gids@.len() - idx,
        {
            let ghost before = out.deep_view();
            let ghost pv = gids.deep_view()[idx as int];
            let probe = &gids[idx];
            proof {
                assert(probe.deep_view() == pv);
            }
            match &probe.gid {
                Ok(gid) => {
                    if !gid.is_null() {
                        match &probe.gid_type_text {
                            Ok(text) => {
                                let gt = classify(text.as_str(), ll);
                                if config.selects_gid_type(&gt) {
                                    let skip_ll = config.roce_v2_skip_link_local_addr && matches!(
                                        gt,
                                        GidType::RoCEv2,
                                    ) && gid.is_unicast_link_local();
                                    if !skip_ll {
                                        out.push(
                                            Gid { index: idx as u16, gid: *gid, gid_type: gt },
                                        );
                                        proof {
                                            assert(gid_kept(pv, ll, config.deep_view()));
                                            assert(out.deep_view() =~= before.push(
                                                gid_record(idx as u16, pv, ll),
                                            ));
                                        }
                                    } else {
                                        proof {
                                            assert(!gid_kept(pv, ll, config.deep_view()));
                                        }
                                    }
                                } else {
                                    proof {
                                        assert(!gid_kept(pv, ll, config.deep_view()));
                                    }
                                }
                            },
                            Err(_) => {
                                proof {
                                    assert(!gid_kept(pv, ll, config.deep_view()));
                                }
                            },
                        }
                    } else {
                        proof {
                            assert(!gid_kept(pv, ll, config.deep_view()));
                        }
                    }
                },
                Err(_) => {
                    proof {
                        assert(!gid_kept(pv, ll, config.deep_view()));
                    }
                },
            }
            idx += 1;
        }
        out
    }

    /// Refreshes the device's capability block and port list from fresh
    /// query results, in place; on failure the snapshot is unchanged.
    pub fn update_attr(&mut self, ctx: &ContextProbe, config: &DeviceConfig) -> (r: Result<
        (),
        Error,
    >)
        requires
            ctx.deep_view().wf(),
        ensures
            (match updated_info(old(self).deep_view(), ctx.deep_view(), config.deep_view()) {
                Ok(info) => r is Ok && final(self).deep_view() == info,
                Err(e) => r is Err && r->Err_0.deep_view() == e && *final(self) == *old(self),
            }),
    {
        let attr: DeviceAttr = match &ctx.device_attr {
            Err(m) => {
                return Err(Error::new(ErrorKind::IBQueryDeviceFail, m.clone()));
            },
            Ok(a) => *a,
        };
        let cnt = attr.phys_port_cnt as usize;
        let mut ports: Vec<Port> = Vec::new();
        let mut i: usize = 0;
        proof {
            assert(ports.deep_view() =~= Seq::<PortV>::empty());
        }
        while i < cnt
            invariant
                ctx.deep_view().wf(),
                ctx.deep_view().device_attr == Ok::<DeviceAttr, Seq<char>>(attr),
                cnt == attr.phys_port_cnt,
                i <= cnt,
                build_ports_prefix(ctx.deep_view().ports, config.deep_view(), i as int)
                    == Ok::<Seq<PortV>, ErrorV>(ports.deep_view()),
            decreases cnt - i,
        {
            let ghost pv = ctx.deep_view().ports[i as int];
            let probe = &ctx.ports[i];
            proof {
                assert(probe.deep_view() == pv);
                assert(pv.wf());
            }
            match &probe.attr {
                Err(m) => {
                    proof {
                        lemma_build_ports_prefix_err(
                            ctx.deep_view().ports,
                            config.deep_view(),
                            i as int,
                            cnt as int,
                        );
                    }
                    return Err(Error::new(ErrorKind::IBQueryPortFail, m.clone()));
                },
                Ok(pattr) => {
                    let ghost before = ports.deep_view();
                    if config.skip_inactive_port && !pattr.state.is_active() {
                    } else {
                        let gids = Self::collect_port_gids(&probe.gids, pattr, config);
                        ports.push(
                            Port { port_num: (i + 1) as u8, port_attr: *pattr, gids },
                        );
                        proof {
                            assert(ports.deep_view() =~= before.push(
                                PortV {
                                    port_num: (i + 1) as u8,
                                    port_attr: *pattr,
                                    gids: gids_of_port(
                                        pv.gids,
                                        pattr.link_layer,
                                        config.deep_view(),
                                    ),
                                },
                            ));
                        }
                    }
                },
            }
            i += 1;
        }
        let ghost final_ports = ports.deep_view();
        self.info.device_attr = attr;
        self.info.ports = ports;
        proof {
            assert(self.deep_view() == (DeviceInfoV {
                device_attr: attr,
                ports: final_ports,
                ..old(self).deep_view()
            }));
        }
        Ok(())
    }

    /// Opens one device from its probe: a failed open or protection-domain
    /// allocation fails with that kind; otherwise the snapshot is
    /// assembled by a first attribute refresh. Any query failure during
    /// the refresh fails the whole device.
    pub fn open(probe: &DeviceProbe, index: usize, config: &DeviceConfig) -> (r: Result<
        Device,
        Error,
    >)
        requires
            probe.deep_view().wf(),
        ensures
            (match opened_device(probe.deep_view(), index as int, config.deep_view()) {
                Ok(info) => r is Ok && r->Ok_0.deep_view() == info,
                Err(e) => r is Err && r->Err_0.deep_view() == e,
            }),
    {
        let ctx: &ContextProbe = match &probe.context {
            Err(m) => {
                return Err(Error::new(ErrorKind::IBOpenDeviceFail, m.clone()));
            },
            Ok(c) => c,
        };
        match &ctx.pd {
            Err(m) => {
                return Err(Error::new(ErrorKind::IBAllocPDFail, m.clone()));
            },
            Ok(_) => {},
        }
        let mut this = Device {
            info: DeviceInfo {
                index,
                name: probe.name.clone(),
                guid: probe.guid,
                ibdev_path: probe.ibdev_path.clone(),
                device_attr: DeviceAttr::default(),
                ports: Vec::new(),
            },
        };
        proof {
            assert(this.info.ports.deep_view() =~= Seq::<PortV>::empty());
            assert(this.deep_view() == (DeviceInfoV {
                index: index as int,
                name: probe.deep_view().name,
                guid: probe.deep_view().guid,
                ibdev_path: probe.deep_view().ibdev_path,
                device_attr: device_attr_zero(),
                ports: Seq::empty(),
            }));
        }
        match this.update_attr(ctx, config) {
            Ok(_) => Ok(this),
            Err(e) => Err(e),
        }
    }

    /// Returns the zero-based position of the device in the filtered
    /// result.
    pub fn index(&self) -> (r: usize)
        ensures
            r as int == self.deep_view().index,
    {
        self.info.index
    }

    /// Returns the device's assembled snapshot.
    pub fn info(&self) -> (r: &DeviceInfo)
        ensures
            r.deep_view() == self.deep_view(),
    {
        &self.info
    }
}

} // verus!
