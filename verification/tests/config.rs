use rdma_inventory::{DeviceConfig, GidType};

#[test]
fn test_config_default_filters_nothing() {
    let config = DeviceConfig::default();
    assert!(config.device_filter.is_empty());
    assert!(config.gid_type_filter.is_empty());
    assert!(!config.skip_inactive_port);
    assert!(!config.roce_v2_skip_link_local_addr);
}

#[test]
fn test_config_fluent_construction() {
    let config = DeviceConfig::default()
        .with_device("mlx5_0".to_string())
        .with_gid_type(GidType::RoCEv2)
        .with_skip_inactive(true)
        .with_skip_link_local(true);
    assert_eq!(config.device_filter, vec!["mlx5_0".to_string()]);
    assert_eq!(config.gid_type_filter, vec![GidType::RoCEv2]);
    assert!(config.skip_inactive_port);
    assert!(config.roce_v2_skip_link_local_addr);
}

#[test]
fn test_config_builder() {
    let config = DeviceConfig::builder()
        .device("mlx5_0".to_string())
        .devices(vec!["mlx5_1".to_string(), "mlx5_2".to_string()])
        .gid_type(GidType::IB)
        .gid_types(vec![GidType::RoCEv1, GidType::RoCEv2])
        .skip_inactive(true)
        .skip_link_local(false)
        .build();
    assert_eq!(
        config.device_filter,
        vec![
            "mlx5_0".to_string(),
            "mlx5_1".to_string(),
            "mlx5_2".to_string()
        ]
    );
    assert_eq!(
        config.gid_type_filter,
        vec![GidType::IB, GidType::RoCEv1, GidType::RoCEv2]
    );
    assert!(config.skip_inactive_port);
    assert!(!config.roce_v2_skip_link_local_addr);
}

#[test]
fn test_config_filters_deduplicate() {
    let config = DeviceConfig::default()
        .with_device("mlx5_0".to_string())
        .with_device("mlx5_0".to_string())
        .with_gid_type(GidType::RoCEv2)
        .with_gid_type(GidType::RoCEv2);
    assert_eq!(config.device_filter, vec!["mlx5_0".to_string()]);
    assert_eq!(config.gid_type_filter, vec![GidType::RoCEv2]);

    let config = DeviceConfig::builder()
        .devices(vec![
            "mlx5_0".to_string(),
            "mlx5_1".to_string(),
            "mlx5_0".to_string(),
        ])
        .gid_types(vec![GidType::IB, GidType::IB])
        .build();
    assert_eq!(
        config.device_filter,
        vec!["mlx5_0".to_string(), "mlx5_1".to_string()]
    );
    assert_eq!(config.gid_type_filter, vec![GidType::IB]);
}

#[test]
fn test_gid_type_equality_includes_payload() {
    assert_eq!(
        GidType::Other("x".to_string()),
        GidType::Other("x".to_string())
    );
    assert_ne!(
        GidType::Other("x".to_string()),
        GidType::Other("y".to_string())
    );
    assert_ne!(GidType::IB, GidType::RoCEv1);
}
