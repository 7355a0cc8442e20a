use rdma_inventory::{classify, gid_type_rel_path, GidType, LinkLayer};

#[test]
fn test_classify_native_fabric() {
    let t = classify("IB/RoCE v1\n", LinkLayer::InfiniBand);
    assert_eq!(t, GidType::IB);
}

#[test]
fn test_classify_roce_v1() {
    let t = classify("IB/RoCE v1\n", LinkLayer::Ethernet);
    assert_eq!(t, GidType::RoCEv1);
}

#[test]
fn test_classify_sentinel_with_unspecified_link_layer() {
    let t = classify("IB/RoCE v1\n", LinkLayer::Unspecified);
    assert_eq!(t, GidType::Other("IB/RoCE v1".to_string()));
}

#[test]
fn test_classify_roce_v2_ignores_link_layer() {
    assert_eq!(classify("RoCE v2\n", LinkLayer::InfiniBand), GidType::RoCEv2);
    assert_eq!(classify("RoCE v2\n", LinkLayer::Ethernet), GidType::RoCEv2);
    assert_eq!(classify("RoCE v2\n", LinkLayer::Unspecified), GidType::RoCEv2);
}

#[test]
fn test_classify_other_content_trimmed() {
    let t = classify("  future type \n", LinkLayer::Ethernet);
    assert_eq!(t, GidType::Other("future type".to_string()));
}

#[test]
fn test_classify_sentinel_must_match_exactly() {
    let t = classify("RoCE v2", LinkLayer::Ethernet);
    assert_eq!(t, GidType::Other("RoCE v2".to_string()));
}

#[test]
fn test_classify_trims_unicode_whitespace() {
    let t = classify("legacy\u{a0}\n", LinkLayer::Ethernet);
    assert_eq!(t, GidType::Other("legacy".to_string()));
}

#[test]
fn test_gid_type_rel_path() {
    assert_eq!(gid_type_rel_path(1, 3), "ports/1/gid_attrs/types/3");
    assert_eq!(gid_type_rel_path(255, 1024), "ports/255/gid_attrs/types/1024");
}
