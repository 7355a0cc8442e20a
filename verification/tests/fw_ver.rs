use rdma_inventory::FwVer;

#[test]
fn test_fw_ver_display() {
    let mut fw_ver = [0u8; 64];
    fw_ver[0..10].copy_from_slice(b"20.28.1042");
    let fw = FwVer(fw_ver);
    assert_eq!(fw.to_text(), "20.28.1042");
}

#[test]
fn test_fw_ver_empty() {
    let fw = FwVer([0u8; 64]);
    assert_eq!(fw.to_text(), "");
}

#[test]
fn test_fw_ver_full_length() {
    let mut fw_ver = [0u8; 64];
    for (i, b) in fw_ver[..63].iter_mut().enumerate() {
        *b = b'a' + (i as u8 % 26);
    }
    let fw = FwVer(fw_ver);
    let s = fw.to_text();
    assert_eq!(s.len(), 63);
    assert!(s.starts_with("a"));
}

#[test]
fn test_fw_ver_serialize() {
    let mut fw_ver = [0u8; 64];
    fw_ver[0..10].copy_from_slice(b"24.06.1234");
    let fw = FwVer(fw_ver);
    assert_eq!(fw.to_text(), "24.06.1234");
}

#[test]
fn test_fw_ver_deserialize() {
    let fw = FwVer::from_text("20.28.1042");
    assert_eq!(fw.to_text(), "20.28.1042");
}

#[test]
fn test_fw_ver_serialize_deserialize_roundtrip() {
    let original_str = "30.12.5678";
    let fw = FwVer::from_text(original_str);
    assert_eq!(fw.to_text(), original_str);
}

#[test]
fn test_fw_ver_deserialize_truncates() {
    let fw = FwVer::from_text(
        "abcdefghijklmnopqrstuvwxyz1234567890ABCDEFGHIJKLMNOPQRSTUVWXYZ12345678901234567890123",
    );
    let s = fw.to_text();
    assert_eq!(s.len(), 63);
}

#[test]
fn test_fw_ver_no_terminator_uses_all_bytes() {
    let fw = FwVer([b'x'; 64]);
    assert_eq!(fw.to_text().len(), 64);
}

#[test]
fn test_fw_ver_invalid_utf8_renders_placeholder() {
    let mut fw_ver = [0u8; 64];
    fw_ver[0] = 0xff;
    let fw = FwVer(fw_ver);
    assert_eq!(fw.to_text(), "<invalid>");
}

#[test]
fn test_fw_ver_utf8_prefix_decodes() {
    let mut fw_ver = [0u8; 64];
    fw_ver[0] = 0xc3;
    fw_ver[1] = 0xa9;
    let fw = FwVer(fw_ver);
    assert_eq!(fw.to_text(), "\u{e9}");
}

#[test]
fn test_fw_ver_utf8_round_trip() {
    let original = "v\u{e9}rsion 1.2";
    let fw = FwVer::from_text(original);
    assert_eq!(fw.to_text(), original);
}

#[test]
fn test_fw_ver_truncation_mid_character_is_invalid() {
    let mut long = "a".repeat(62);
    long.push('\u{e9}');
    assert_eq!(long.len(), 64);
    let fw = FwVer::from_text(&long);
    assert_eq!(fw.to_text(), "<invalid>");
}
