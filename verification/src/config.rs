//! Device filtering configuration.
//!
//! A configuration restricts which devices, ports and addresses the
//! enumeration keeps: a set of device names (empty keeps all), a set of
//! accepted address-type tags (empty keeps all), a flag to omit inactive
//! ports, and a flag to omit link-local RoCE v2 addresses. The filters are
//! sets: inserting a name or tag that is already present changes nothing.
//! A configuration is built either fluently on the value itself or
//! through a builder.

use vstd::prelude::*;

use crate::text::str_eq;

verus! {

/// Transport-type tag of a port address.
#[derive(Debug, Clone, Hash)]
pub enum GidType {
    /// Native InfiniBand fabric.
    IB,
    /// RDMA over Converged Ethernet, version 1.
    RoCEv1,
    /// RDMA over Converged Ethernet, version 2.
    RoCEv2,
    /// Unrecognized classification, preserved verbatim.
    Other(String),
}

/// Mathematical model of an address-type tag; the unrecognized case
/// carries the preserved text.
pub enum GidTypeV {
    /// Native InfiniBand fabric.
    IB,
    /// RDMA over Converged Ethernet, version 1.
    RoCEv1,
    /// RDMA over Converged Ethernet, version 2.
    RoCEv2,
    /// Unrecognized classification text.
    Other(Seq<char>),
}

impl DeepView for GidType {
    type V = GidTypeV;

    open spec fn deep_view(&self) -> GidTypeV {
        match self {
            GidType::IB => GidTypeV::IB,
            GidType::RoCEv1 => GidTypeV::RoCEv1,
            GidType::RoCEv2 => GidTypeV::RoCEv2,
            GidType::Other(s) => GidTypeV::Other(s@),
        }
    }
}

impl PartialEq for GidType {
    /// Tags are equal when they are the same variant; unrecognized tags
    /// compare by their preserved text.
    fn eq(&self, other: &GidType) -> (r: bool) {
        match (self, other) {
            (GidType::IB, GidType::IB) => true,
            (GidType::RoCEv1, GidType::RoCEv1) => true,
            (GidType::RoCEv2, GidType::RoCEv2) => true,
            (GidType::Other(a), GidType::Other(b)) => str_eq(a.as_str(), b.as_str()),
            _ => false,
        }
    }
}

impl vstd::std_specs::cmp::PartialEqSpecImpl for GidType {
    open spec fn obeys_eq_spec() -> bool {
        true
    }

    open spec fn eq_spec(&self, other: &GidType) -> bool {
        self.deep_view() == other.deep_view()
    }
}

/// Filter criteria for device enumeration.
#[derive(Debug, Clone)]
pub struct DeviceConfig {
    /// Names of devices to include, each held once; empty means all
    /// devices.
    pub device_filter: Vec<String>,
    /// Address-type tags to include, each held once; empty means all
    /// types.
    pub gid_type_filter: Vec<GidType>,
    /// Whether to omit inactive ports.
    pub skip_inactive_port: bool,
    /// Whether to omit link-local addresses of type RoCE v2.
    pub roce_v2_skip_link_local_addr: bool,
}

/// Mathematical model of a configuration.
pub struct DeviceConfigV {
    /// Names of devices to include; empty means all devices.
    pub device_filter: Seq<Seq<char>>,
    /// Address-type tags to include; empty means all types.
    pub gid_type_filter: Seq<GidTypeV>,
    /// Whether to omit inactive ports.
    pub skip_inactive_port: bool,
    /// Whether to omit link-local addresses of type RoCE v2.
    pub roce_v2_skip_link_local_addr: bool,
}

impl DeepView for DeviceConfig {
    type V = DeviceConfigV;

    open spec fn deep_view(&self) -> DeviceConfigV {
        DeviceConfigV {
            device_filter: self.device_filter.deep_view(),
            gid_type_filter: self.gid_type_filter.deep_view(),
            skip_inactive_port: self.skip_inactive_port,
            roce_v2_skip_link_local_addr: self.roce_v2_skip_link_local_addr,
        }
    }
}

/// True when the name filter holds the name.
pub open spec fn filter_has_name(filter: Seq<Seq<char>>, name: Seq<char>) -> bool {
    exists|i: int| 0 <= i < filter.len() && filter[i] == name
}

/// True when the type filter holds the tag.
pub open spec fn filter_has_type(filter: Seq<GidTypeV>, t: GidTypeV) -> bool {
    exists|i: int| 0 <= i < filter.len() && filter[i] == t
}

/// The name filter after a set-style insert: unchanged when the name is
/// already present, else extended by it.
pub open spec fn insert_name(filter: Seq<Seq<char>>, name: Seq<char>) -> Seq<Seq<char>> {
    if filter_has_name(filter, name) {
        filter
    } else {
        filter.push(name)
    }
}

/// The type filter after a set-style insert: unchanged when the tag is
/// already present, else extended by it.
pub open spec fn insert_type(filter: Seq<GidTypeV>, t: GidTypeV) -> Seq<GidTypeV> {
    if filter_has_type(filter, t) {
        filter
    } else {
        filter.push(t)
    }
}

/// The name filter after inserting each name in order.
pub open spec fn insert_names(filter: Seq<Seq<char>>, names: Seq<Seq<char>>) -> Seq<Seq<char>>
    decreases names.len(),
{
    if names.len() == 0 {
        filter
    } else {
        insert_names(insert_name(filter, names[0]), names.drop_first())
    }
}

/// The type filter after inserting each tag in order.
pub open spec fn insert_types(filter: Seq<GidTypeV>, ts: Seq<GidTypeV>) -> Seq<GidTypeV>
    decreases ts.len(),
{
    if ts.len() == 0 {
        filter
    } else {
        insert_types(insert_type(filter, ts[0]), ts.drop_first())
    }
}

/// True when the name filter admits a device name: the filter is empty or
/// holds the name.
pub open spec fn name_selected(cfg: DeviceConfigV, name: Seq<char>) -> bool {
    cfg.device_filter.len() == 0 || filter_has_name(cfg.device_filter, name)
}

/// True when the type filter admits an address-type tag: the filter is
/// empty or holds the tag.
pub open spec fn gid_type_selected(cfg: DeviceConfigV, t: GidTypeV) -> bool {
    cfg.gid_type_filter.len() == 0 || filter_has_type(cfg.gid_type_filter, t)
}

fn vec_has_name(filter: &Vec<String>, name: &str) -> (r: bool)
    ensures
        r == filter_has_name(filter.deep_view(), name@),
{
    let mut i: usize = 0;
    while i < filter.len()
        invariant
            i <= filter@.len(),
            forall|j: int| 0 <= j < i ==> filter.deep_view()[j] != name@,
        decreases filter@.len() - i,
    {
        if str_eq(filter[i].as_str(), name) {
            proof {
                assert(filter.deep_view()[i as int] == name@);
            }
            return true;
        }
        i += 1;
    }
    false
}

fn vec_has_type(filter: &Vec<GidType>, t: &GidType) -> (r: bool)
    ensures
        r == filter_has_type(filter.deep_view(), t.deep_view()),
{
    let mut i: usize = 0;
    while i < filter.len()
        invariant
            i <= filter@.len(),
            forall|j: int| 0 <= j < i ==> filter.deep_view()[j] != t.deep_view(),
        decreases filter@.len() - i,
    {
        if &filter[i] == t {
            proof {
                assert(filter.deep_view()[i as int] == t.deep_view());
            }
            return true;
        }
        i += 1;
    }
    false
}

impl DeviceConfig {
    /// Tests whether the name filter admits a device name.
    pub fn selects_name(&self, name: &str) -> (r: bool)
        ensures
            r == name_selected(self.deep_view(), name@),
    {
        self.device_filter.len() == 0 || vec_has_name(&self.device_filter, name)
    }

    /// Tests whether the type filter admits an address-type tag.
    pub fn selects_gid_type(&self, t: &GidType) -> (r: bool)
        ensures
            r == gid_type_selected(self.deep_view(), t.deep_view()),
    {
        self.gid_type_filter.len() == 0 || vec_has_type(&self.gid_type_filter, t)
    }

    /// Creates a builder with an empty configuration.
    pub fn builder() -> (r: DeviceConfigBuilder)
        ensures
            r.config.deep_view() == empty_config(),
    {
        DeviceConfigBuilder { config: DeviceConfig::default() }
    }

    /// Inserts a device name into the name filter; a name already present
    /// is not repeated.
    pub fn with_device(self, device: String) -> (r: Self)
        ensures
            r.deep_view() == (DeviceConfigV {
                device_filter: insert_name(self.deep_view().device_filter, device@),
                ..self.deep_view()
            }),
    {
        let mut c = self;
        if !vec_has_name(&c.device_filter, device.as_str()) {
            c.device_filter.push(device);
            proof {
                assert(c.deep_view().device_filter =~= self.deep_view().device_filter.push(
                    device@,
                ));
            }
        }
        c
    }

    /// Inserts an address-type tag into the type filter; a tag already
    /// present is not repeated.
    pub fn with_gid_type(self, gid_type: GidType) -> (r: Self)
        ensures
            r.deep_view() == (DeviceConfigV {
                gid_type_filter: insert_type(
                    self.deep_view().gid_type_filter,
                    gid_type.deep_view(),
                ),
                ..self.deep_view()
            }),
    {
        let ghost g = gid_type.deep_view();
        let mut c = self;
        if !vec_has_type(&c.gid_type_filter, &gid_type) {
            c.gid_type_filter.push(gid_type);
            proof {
                assert(c.deep_view().gid_type_filter =~= self.deep_view().gid_type_filter.push(g));
            }
        }
        c
    }

    /// Sets whether inactive ports are omitted.
    pub fn with_skip_inactive(self, skip: bool) -> (r: Self)
        ensures
            r.deep_view() == (DeviceConfigV { skip_inactive_port: skip, ..self.deep_view() }),
    {
        let mut c = self;
        c.skip_inactive_port = skip;
        c
    }

    /// Sets whether link-local RoCE v2 addresses are omitted.
    pub fn with_skip_link_local(self, skip: bool) -> (r: Self)
        ensures
            r.deep_view() == (DeviceConfigV {
                roce_v2_skip_link_local_addr: skip,
                ..self.deep_view()
            }),
    {
        let mut c = self;
        c.roce_v2_skip_link_local_addr = skip;
        c
    }
}

/// The model of a configuration with empty filters and unset flags.
pub open spec fn empty_config() -> DeviceConfigV {
    DeviceConfigV {
        device_filter: Seq::empty(),
        gid_type_filter: Seq::empty(),
        skip_inactive_port: false,
        roce_v2_skip_link_local_addr: false,
    }
}

impl Default for DeviceConfig {
    /// The configuration that filters nothing: empty name and type
    /// filters, inactive ports kept, link-local addresses kept.
    fn default() -> (r: Self)
        ensures
            r.deep_view() == empty_config(),
    {
        let r = DeviceConfig {
            device_filter: Vec::new(),
            gid_type_filter: Vec::new(),
            skip_inactive_port: false,
            roce_v2_skip_link_local_addr: false,
        };
        proof {
            assert(r.deep_view().device_filter =~= Seq::<Seq<char>>::empty());
            assert(r.deep_view().gid_type_filter =~= Seq::<GidTypeV>::empty());
        }
        r
    }
}

/// Fluent builder for [`DeviceConfig`].
#[derive(Debug)]
pub struct DeviceConfigBuilder {
    /// The configuration being built.
    pub config: DeviceConfig,
}

impl DeviceConfigBuilder {
    /// Inserts a device name into the name filter.
    pub fn device(self, device: String) -> (r: Self)
        ensures
            r.config.deep_view() == (DeviceConfigV {
                device_filter: insert_name(self.config.deep_view().device_filter, device@),
                ..self.config.deep_view()
            }),
    {
        DeviceConfigBuilder { config: self.config.with_device(device) }
    }

    /// Inserts several device names into the name filter, in order.
    pub fn devices(self, devices: Vec<String>) -> (r: Self)
        ensures
            r.config.deep_view() == (DeviceConfigV {
                device_filter: insert_names(
                    self.config.deep_view().device_filter,
                    devices.deep_view(),
                ),
                ..self.config.deep_view()
            }),
    {
        let mut c = self.config;
        let ghost orig = c.deep_view();
        let ghost all = devices.deep_view();
        let mut i: usize = 0;
        let n = devices.len();
        proof {
            assert(all.skip(0) =~= all);
        }
        while i < n
            invariant
                n == devices@.len(),
                i <= n,
                all == devices.deep_view(),
                insert_names(c.deep_view().device_filter, all.skip(i as int)) == insert_names(
                    orig.device_filter,
                    all,
                ),
                c.deep_view().gid_type_filter == orig.gid_type_filter,
                c.deep_view().skip_inactive_port == orig.skip_inactive_port,
                c.deep_view().roce_v2_skip_link_local_addr == orig.roce_v2_skip_link_local_addr,
            decreases n - i,
        {
            let name = devices[i].clone();
            proof {
                assert(name@ == all[i as int]);
                assert(all.skip(i as int)[0] == all[i as int]);
                assert(all.skip(i as int).drop_first() =~= all.skip(i as int + 1));
            }
            c = c.with_device(name);
            i += 1;
        }
        proof {
            assert(all.skip(n as int) =~= Seq::<Seq<char>>::empty());
            assert(c.deep_view() == (DeviceConfigV {
                device_filter: insert_names(orig.device_filter, all),
                ..orig
            }));
        }
        DeviceConfigBuilder { config: c }
    }

    /// Inserts an address-type tag into the type filter.
    pub fn gid_type(self, gid_type: GidType) -> (r: Self)
        ensures
            r.config.deep_view() == (DeviceConfigV {
                gid_type_filter: insert_type(
                    self.config.deep_view().gid_type_filter,
                    gid_type.deep_view(),
                ),
                ..self.config.deep_view()
            }),
    {
        DeviceConfigBuilder { config: self.config.with_gid_type(gid_type) }
    }

    /// Inserts several address-type tags into the type filter, in order.
    pub fn gid_types(self, gid_types: Vec<GidType>) -> (r: Self)
        ensures
            r.config.deep_view() == (DeviceConfigV {
                gid_type_filter: insert_types(
                    self.config.deep_view().gid_type_filter,
                    gid_types.deep_view(),
                ),
                ..self.config.deep_view()
            }),
    {
        let mut c = self.config;
        let ghost orig = c.deep_view();
        let mut ts = gid_types;
        let ghost all = ts.deep_view();
        proof {
            assert(insert_types(c.deep_view().gid_type_filter, ts.deep_view()) == insert_types(
                orig.gid_type_filter,
                all,
            ));
        }
        while ts.len() > 0
            invariant
                insert_types(c.deep_view().gid_type_filter, ts.deep_view()) == insert_types(
                    orig.gid_type_filter,
                    all,
                ),
                c.deep_view().device_filter == orig.device_filter,
                c.deep_view().skip_inactive_port == orig.skip_inactive_port,
                c.deep_view().roce_v2_skip_link_local_addr == orig.roce_v2_skip_link_local_addr,
            decreases ts@.len(),
        {
            let ghost ts_before = ts.deep_view();
            let t = ts.remove(0);
            proof {
                assert(ts.deep_view() =~= ts_before.drop_first());
                assert(t.deep_view() == ts_before[0]);
            }
            c = c.with_gid_type(t);
        }
        proof {
            assert(ts.deep_view() =~= Seq::<GidTypeV>::empty());
            assert(c.deep_view() == (DeviceConfigV {
                gid_type_filter: insert_types(orig.gid_type_filter, all),
                ..orig
            }));
        }
        DeviceConfigBuilder { config: c }
    }

    /// Sets whether inactive ports are omitted.
    pub fn skip_inactive(self, skip: bool) -> (r: Self)
        ensures
            r.config.deep_view() == (DeviceConfigV {
                skip_inactive_port: skip,
                ..self.config.deep_view()
            }),
    {
        DeviceConfigBuilder { config: self.config.with_skip_inactive(skip) }
    }

    /// Sets whether link-local RoCE v2 addresses are omitted.
    pub fn skip_link_local(self, skip: bool) -> (r: Self)
        ensures
            r.config.deep_view() == (DeviceConfigV {
                roce_v2_skip_link_local_addr: skip,
                ..self.config.deep_view()
            }),
    {
        DeviceConfigBuilder { config: self.config.with_skip_link_local(skip) }
    }

    /// Returns the built configuration.
    pub fn build(self) -> (r: DeviceConfig)
        ensures
            r.deep_view() == self.config.deep_view(),
    {
        self.config
    }
}

impl Default for DeviceConfigBuilder {
    /// A builder holding the configuration that filters nothing.
    fn default() -> (r: Self)
        ensures
            r.config.deep_view() == empty_config(),
    {
        DeviceConfigBuilder { config: DeviceConfig::default() }
    }
}

} // verus!
