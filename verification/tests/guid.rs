use rdma_inventory::Guid;

#[test]
fn test_guid_display() {
    let guid = Guid::from_be(u64::to_be(0x506b0b03_0039e8a4));
    assert_eq!(guid.to_text(), "506b:0b03:0039:e8a4");
}

#[test]
fn test_guid_debug() {
    let guid = Guid(u64::to_be(0x12345678_9ABCDEF0));
    let debug_str = guid.to_text();
    assert_eq!(debug_str, "1234:5678:9abc:def0");
}

#[test]
fn test_guid_serialize() {
    let guid = Guid(u64::to_be(0xAABBCCDD_EEFF1122));
    assert_eq!(guid.to_text(), "aabb:ccdd:eeff:1122");
}

#[test]
fn test_guid_deserialize() {
    let guid = Guid::from_text("506b:0b03:0039:e8a4").unwrap();
    assert_eq!(guid.0, u64::to_be(0x506b0b03_0039e8a4));
}

#[test]
fn test_guid_serialize_deserialize_roundtrip() {
    let original = Guid(u64::to_be(0x11112222_33334444));
    let text = original.to_text();
    let deserialized = Guid::from_text(&text).unwrap();
    assert_eq!(original.0, deserialized.0);
}

#[test]
fn test_guid_deserialize_invalid_format() {
    let result = Guid::from_text("invalid-guid");
    assert!(result.is_none());

    let result = Guid::from_text("506b:0b03:0039");
    assert!(result.is_none());

    let result = Guid::from_text("506b:0b03:0039:e8a4:1234");
    assert!(result.is_none());
}

#[test]
fn test_guid_deserialize_invalid_hex() {
    let result = Guid::from_text("506b:0g03:0039:e8a4");
    assert!(result.is_none());
}

#[test]
fn test_guid_case_insensitive() {
    let guid = Guid::from_text("ABCD:EF01:2345:6789").unwrap();
    assert_eq!(guid.0, u64::to_be(0xABCD_EF01_2345_6789));

    let guid = Guid::from_text("abcd:ef01:2345:6789").unwrap();
    assert_eq!(guid.0, u64::to_be(0xABCD_EF01_2345_6789));
}

#[test]
fn test_guid_short_groups_accepted() {
    let guid = Guid::from_text("0:1:a:ff").unwrap();
    assert_eq!(guid.0, u64::to_be(0x0000_0001_000a_00ff));
}

#[test]
fn test_guid_rejects_empty_group() {
    assert!(Guid::from_text("1::2:3").is_none());
    assert!(Guid::from_text(":1:2:3").is_none());
    assert!(Guid::from_text("1:2:3:").is_none());
}

#[test]
fn test_guid_rejects_long_or_signed_groups() {
    assert!(Guid::from_text("0000a:1:2:3").is_none());
    assert!(Guid::from_text("+1ab:0:0:0").is_none());
    assert!(Guid::from_text("").is_none());
}

#[test]
fn test_guid_as_u64_swaps_bytes() {
    let guid = Guid::from_be(u64::to_be(0x0102030405060708));
    assert_eq!(guid.as_u64(), 0x0102030405060708);
}
