use rdma_inventory::LinkLayer;

#[test]
fn test_link_layer_from_u8() {
    assert_eq!(LinkLayer::from_u8(0), LinkLayer::Unspecified);
    assert_eq!(LinkLayer::from_u8(1), LinkLayer::InfiniBand);
    assert_eq!(LinkLayer::from_u8(4), LinkLayer::Ethernet);
    assert_eq!(LinkLayer::from_u8(99), LinkLayer::Unspecified);
}

#[test]
fn test_link_layer_from() {
    assert_eq!(LinkLayer::from(0u8), LinkLayer::Unspecified);
    assert_eq!(LinkLayer::from(1u8), LinkLayer::InfiniBand);
    assert_eq!(LinkLayer::from(4u8), LinkLayer::Ethernet);
}

#[test]
fn test_link_layer_to_u8() {
    assert_eq!(u8::from(LinkLayer::Unspecified), 0);
    assert_eq!(u8::from(LinkLayer::InfiniBand), 1);
    assert_eq!(u8::from(LinkLayer::Ethernet), 4);
}

#[test]
fn test_link_layer_display() {
    assert_eq!(LinkLayer::Unspecified.as_str(), "Unspecified");
    assert_eq!(LinkLayer::InfiniBand.as_str(), "InfiniBand");
    assert_eq!(LinkLayer::Ethernet.as_str(), "Ethernet");
}

#[test]
fn test_link_layer_as_str() {
    assert_eq!(LinkLayer::Unspecified.as_str(), "Unspecified");
    assert_eq!(LinkLayer::InfiniBand.as_str(), "InfiniBand");
    assert_eq!(LinkLayer::Ethernet.as_str(), "Ethernet");
}

#[test]
fn test_link_layer_is_infiniband() {
    assert!(!LinkLayer::Unspecified.is_infiniband());
    assert!(LinkLayer::InfiniBand.is_infiniband());
    assert!(!LinkLayer::Ethernet.is_infiniband());
}

#[test]
fn test_link_layer_is_ethernet() {
    assert!(!LinkLayer::Unspecified.is_ethernet());
    assert!(!LinkLayer::InfiniBand.is_ethernet());
    assert!(LinkLayer::Ethernet.is_ethernet());
}

#[test]
fn test_link_layer_all_raw_values_total() {
    let mut v: u16 = 0;
    while v < 256 {
        let layer = LinkLayer::from_u8(v as u8);
        if v == 1 {
            assert_eq!(layer, LinkLayer::InfiniBand);
        } else if v == 4 {
            assert_eq!(layer, LinkLayer::Ethernet);
        } else {
            assert_eq!(layer, LinkLayer::Unspecified);
        }
        v += 1;
    }
}
