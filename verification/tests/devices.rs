use rdma_inventory::{
    ContextProbe, DeviceAttr, DeviceConfig, DeviceProbe, Devices, ErrorKind, GidProbe, GidType,
    Guid, LinkLayer, PortAttr, PortProbe, PortState, ibv_gid,
};

fn gid_bytes(first: u8, second: u8, last: u8) -> ibv_gid {
    let mut raw = [0u8; 16];
    raw[0] = first;
    raw[1] = second;
    raw[15] = last;
    ibv_gid { raw }
}

fn gid_probe(gid: ibv_gid, type_text: &str) -> GidProbe {
    GidProbe {
        gid: Ok(gid),
        gid_type_text: Ok(type_text.to_string()),
    }
}

fn port_attr(state: PortState, link_layer: LinkLayer, gid_tbl_len: u16) -> PortAttr {
    PortAttr {
        state,
        link_layer,
        gid_tbl_len,
        lid: 0,
        max_msg_sz: 1 << 30,
        active_mtu: 4096,
    }
}

fn device_attr(ports: u8) -> DeviceAttr {
    let mut attr = DeviceAttr::default();
    attr.phys_port_cnt = ports;
    attr
}

fn simple_device(name: &str, ports: Vec<PortProbe>) -> DeviceProbe {
    DeviceProbe {
        name: name.to_string(),
        guid: Guid::from_be(0x1122334455667788),
        ibdev_path: format!("/sys/class/infiniband/{}", name),
        context: Ok(ContextProbe {
            pd: Ok(()),
            device_attr: Ok(device_attr(ports.len() as u8)),
            ports,
        }),
    }
}

fn active_port_with(gids: Vec<GidProbe>, link_layer: LinkLayer) -> PortProbe {
    let len = gids.len() as u16;
    PortProbe {
        attr: Ok(port_attr(PortState::Active, link_layer, len)),
        gids,
    }
}

#[test]
fn test_open_empty_filter_opens_all() {
    let probes = vec![
        simple_device("mlx5_0", vec![active_port_with(
            vec![gid_probe(gid_bytes(0xfe, 0x80, 1), "IB/RoCE v1\n")],
            LinkLayer::InfiniBand,
        )]),
        simple_device("mlx5_1", vec![active_port_with(
            vec![gid_probe(gid_bytes(0x20, 0x01, 2), "RoCE v2\n")],
            LinkLayer::Ethernet,
        )]),
    ];
    let devices = Devices::open(&probes, &DeviceConfig::default()).unwrap();
    assert_eq!(devices.len(), 2);
    assert_eq!(devices.0[0].info().name, "mlx5_0");
    assert_eq!(devices.0[0].index(), 0);
    assert_eq!(devices.0[1].info().name, "mlx5_1");
    assert_eq!(devices.0[1].index(), 1);
}

#[test]
fn test_open_name_filter_selects() {
    let probes = vec![
        simple_device("mlx5_0", vec![]),
        simple_device("mlx5_1", vec![]),
    ];
    let config = DeviceConfig::default().with_device("mlx5_1".to_string());
    let devices = Devices::open(&probes, &config).unwrap();
    assert_eq!(devices.len(), 1);
    assert_eq!(devices.0[0].info().name, "mlx5_1");
    assert_eq!(devices.0[0].index(), 0);
}

#[test]
fn test_open_no_matching_name_is_not_found() {
    let probes = vec![
        simple_device("mlx5_0", vec![]),
        simple_device("mlx5_1", vec![]),
    ];
    let config = DeviceConfig::default().with_device("mlx4_9".to_string());
    let err = Devices::open(&probes, &config).unwrap_err();
    assert_eq!(err.kind, ErrorKind::IBDeviceNotFound);
}

#[test]
fn test_open_empty_list_is_not_found() {
    let probes: Vec<DeviceProbe> = Vec::new();
    let err = Devices::open(&probes, &DeviceConfig::default()).unwrap_err();
    assert_eq!(err.kind, ErrorKind::IBDeviceNotFound);
}

#[test]
fn test_open_failure_aborts_enumeration() {
    let probes = vec![
        simple_device("mlx5_0", vec![]),
        DeviceProbe {
            name: "mlx5_1".to_string(),
            guid: Guid::from_be(0),
            ibdev_path: "/sys/class/infiniband/mlx5_1".to_string(),
            context: Err("No such device".to_string()),
        },
    ];
    let err = Devices::open(&probes, &DeviceConfig::default()).unwrap_err();
    assert_eq!(err.kind, ErrorKind::IBOpenDeviceFail);
    assert_eq!(err.msg, "No such device");
}

#[test]
fn test_pd_failure_fails_device() {
    let probes = vec![DeviceProbe {
        name: "mlx5_0".to_string(),
        guid: Guid::from_be(0),
        ibdev_path: "/sys/class/infiniband/mlx5_0".to_string(),
        context: Ok(ContextProbe {
            pd: Err("Cannot allocate memory".to_string()),
            device_attr: Ok(device_attr(0)),
            ports: vec![],
        }),
    }];
    let err = Devices::open(&probes, &DeviceConfig::default()).unwrap_err();
    assert_eq!(err.kind, ErrorKind::IBAllocPDFail);
    assert_eq!(err.msg, "Cannot allocate memory");
}

#[test]
fn test_port_query_failure_fails_device() {
    let probes = vec![simple_device(
        "mlx5_0",
        vec![PortProbe {
            attr: Err("Invalid argument".to_string()),
            gids: vec![],
        }],
    )];
    let err = Devices::open(&probes, &DeviceConfig::default()).unwrap_err();
    assert_eq!(err.kind, ErrorKind::IBQueryPortFail);
    assert_eq!(err.msg, "Invalid argument");
}

#[test]
fn test_gid_query_failure_skips_single_address() {
    let probes = vec![simple_device(
        "mlx5_0",
        vec![active_port_with(
            vec![
                GidProbe {
                    gid: Err("I/O error".to_string()),
                    gid_type_text: Ok("RoCE v2\n".to_string()),
                },
                gid_probe(gid_bytes(0x20, 0x01, 2), "RoCE v2\n"),
            ],
            LinkLayer::Ethernet,
        )],
    )];
    let devices = Devices::open(&probes, &DeviceConfig::default()).unwrap();
    let ports = &devices.0[0].info().ports;
    assert_eq!(ports.len(), 1);
    assert_eq!(ports[0].gids.len(), 1);
    assert_eq!(ports[0].gids[0].index, 1);
}

#[test]
fn test_null_gid_skipped() {
    let probes = vec![simple_device(
        "mlx5_0",
        vec![active_port_with(
            vec![gid_probe(ibv_gid { raw: [0u8; 16] }, "RoCE v2\n")],
            LinkLayer::Ethernet,
        )],
    )];
    let err = Devices::open(&probes, &DeviceConfig::default());
    let devices = err.unwrap();
    assert_eq!(devices.0[0].info().ports[0].gids.len(), 0);
}

#[test]
fn test_gid_type_text_failure_skips_single_address() {
    let probes = vec![simple_device(
        "mlx5_0",
        vec![active_port_with(
            vec![GidProbe {
                gid: Ok(gid_bytes(0x20, 0x01, 2)),
                gid_type_text: Err("No such file or directory".to_string()),
            }],
            LinkLayer::Ethernet,
        )],
    )];
    let devices = Devices::open(&probes, &DeviceConfig::default()).unwrap();
    assert_eq!(devices.0[0].info().ports[0].gids.len(), 0);
}

#[test]
fn test_skip_inactive_ports() {
    let probes = vec![simple_device(
        "mlx5_0",
        vec![
            PortProbe {
                attr: Ok(port_attr(PortState::Down, LinkLayer::Ethernet, 0)),
                gids: vec![],
            },
            active_port_with(
                vec![gid_probe(gid_bytes(0x20, 0x01, 2), "RoCE v2\n")],
                LinkLayer::Ethernet,
            ),
        ],
    )];
    let config = DeviceConfig::default().with_skip_inactive(true);
    let devices = Devices::open(&probes, &config).unwrap();
    let ports = &devices.0[0].info().ports;
    assert_eq!(ports.len(), 1);
    assert_eq!(ports[0].port_num, 2);
    assert_eq!(ports[0].port_attr.state, PortState::Active);
}

#[test]
fn test_gid_type_filter_keeps_only_selected() {
    let probes = vec![simple_device(
        "mlx5_0",
        vec![active_port_with(
            vec![
                gid_probe(gid_bytes(0xfe, 0x80, 1), "IB/RoCE v1\n"),
                gid_probe(gid_bytes(0x20, 0x01, 2), "RoCE v2\n"),
            ],
            LinkLayer::Ethernet,
        )],
    )];
    let config = DeviceConfig::default().with_gid_type(GidType::RoCEv2);
    let devices = Devices::open(&probes, &config).unwrap();
    let gids = &devices.0[0].info().ports[0].gids;
    assert_eq!(gids.len(), 1);
    assert_eq!(gids[0].gid_type, GidType::RoCEv2);
    assert_eq!(gids[0].index, 1);
}

#[test]
fn test_end_to_end_scenario() {
    let port1 = active_port_with(
        vec![
            gid_probe(gid_bytes(0xfe, 0x80, 1), "IB/RoCE v1\n"),
            gid_probe(gid_bytes(0xfe, 0x80, 2), "RoCE v2\n"),
        ],
        LinkLayer::InfiniBand,
    );
    let port2 = PortProbe {
        attr: Ok(port_attr(PortState::Down, LinkLayer::InfiniBand, 0)),
        gids: vec![],
    };
    let probes = vec![simple_device("mlx5_0", vec![port1, port2])];
    let config = DeviceConfig::default()
        .with_skip_inactive(true)
        .with_skip_link_local(true);
    let devices = Devices::open(&probes, &config).unwrap();
    assert_eq!(devices.len(), 1);
    let info = devices.0[0].info();
    assert_eq!(info.ports.len(), 1);
    assert_eq!(info.ports[0].port_num, 1);
    let gids = &info.ports[0].gids;
    assert_eq!(gids.len(), 1);
    assert_eq!(gids[0].gid_type, GidType::IB);
    assert_eq!(gids[0].index, 0);
}

#[test]
fn test_available_uses_default_config() {
    let probes = vec![simple_device(
        "mlx5_0",
        vec![
            PortProbe {
                attr: Ok(port_attr(PortState::Down, LinkLayer::Ethernet, 0)),
                gids: vec![],
            },
        ],
    )];
    let devices = Devices::available(&probes).unwrap();
    assert_eq!(devices.len(), 1);
    assert!(!devices.is_empty());
    assert_eq!(devices.0[0].info().ports.len(), 1);
}

#[test]
fn test_update_attr_replaces_snapshot() {
    let probes = vec![simple_device("mlx5_0", vec![])];
    let config = DeviceConfig::default();
    let devices = Devices::open(&probes, &config).unwrap();
    let mut device = devices.0.into_iter().next().unwrap();
    assert_eq!(device.info().ports.len(), 0);

    let fresh = ContextProbe {
        pd: Ok(()),
        device_attr: Ok(device_attr(1)),
        ports: vec![active_port_with(
            vec![gid_probe(gid_bytes(0x20, 0x01, 2), "RoCE v2\n")],
            LinkLayer::Ethernet,
        )],
    };
    device.update_attr(&fresh, &config).unwrap();
    assert_eq!(device.info().ports.len(), 1);
    assert_eq!(device.info().ports[0].gids.len(), 1);
    assert_eq!(device.info().name, "mlx5_0");
}

#[test]
fn test_update_attr_failure_leaves_snapshot() {
    let probes = vec![simple_device("mlx5_0", vec![])];
    let config = DeviceConfig::default();
    let devices = Devices::open(&probes, &config).unwrap();
    let mut device = devices.0.into_iter().next().unwrap();

    let fresh = ContextProbe {
        pd: Ok(()),
        device_attr: Err("Connection timed out".to_string()),
        ports: vec![],
    };
    let err = device.update_attr(&fresh, &config).unwrap_err();
    assert_eq!(err.kind, ErrorKind::IBQueryDeviceFail);
    assert_eq!(err.msg, "Connection timed out");
    assert_eq!(device.info().name, "mlx5_0");
    assert_eq!(device.info().ports.len(), 0);
}
