use rdma_inventory::{ibv_gid, ibv_wc, WCType, WRID};

fn gid_from_bytes(raw: [u8; 16]) -> ibv_gid {
    ibv_gid { raw }
}

#[test]
fn test_gid_as_bits() {
    let mut raw = [0u8; 16];
    raw[0] = 0x01;
    raw[15] = 0xff;
    let gid = gid_from_bytes(raw);
    assert_eq!(gid.as_bits(), 0x0100_0000_0000_0000_0000_0000_0000_00ff);
}

#[test]
fn test_gid_subnet_prefix_and_interface_id() {
    let mut raw = [0u8; 16];
    raw[0..8].copy_from_slice(&[0xfe, 0x80, 0, 0, 0, 0, 0, 0]);
    raw[8..16].copy_from_slice(&[0, 2, 0xc9, 0xff, 0xfe, 0x4e, 0x2f, 0x31]);
    let gid = gid_from_bytes(raw);
    assert_eq!(gid.subnet_prefix(), 0xfe80_0000_0000_0000);
    assert_eq!(gid.interface_id(), 0x0002_c9ff_fe4e_2f31);
}

#[test]
fn test_gid_is_null() {
    let gid = gid_from_bytes([0u8; 16]);
    assert!(gid.is_null());

    let mut raw = [0u8; 16];
    raw[15] = 1;
    let gid = gid_from_bytes(raw);
    assert!(!gid.is_null());

    let mut raw = [0u8; 16];
    raw[0] = 0xfe;
    let gid = gid_from_bytes(raw);
    assert!(gid.is_null());
}

#[test]
fn test_gid_is_unicast_link_local() {
    let mut raw = [0u8; 16];
    raw[0] = 0xfe;
    raw[1] = 0x80;
    raw[15] = 1;
    assert!(gid_from_bytes(raw).is_unicast_link_local());

    raw[1] = 0xbf;
    assert!(gid_from_bytes(raw).is_unicast_link_local());

    raw[1] = 0xc0;
    assert!(!gid_from_bytes(raw).is_unicast_link_local());

    let mut raw = [0u8; 16];
    raw[0] = 0x20;
    raw[1] = 0x01;
    assert!(!gid_from_bytes(raw).is_unicast_link_local());
}

#[test]
fn test_gid_as_raw() {
    let mut raw = [0u8; 16];
    raw[7] = 0x42;
    let gid = gid_from_bytes(raw);
    assert_eq!(gid.as_raw()[7], 0x42);
}

fn wc_with(wr_id: WRID, status: u32, wc_flags: u32, imm_data: u32) -> ibv_wc {
    ibv_wc {
        wr_id,
        status,
        opcode: 0,
        vendor_err: 0,
        byte_len: 0,
        wc_flags,
        imm_data,
    }
}

#[test]
fn test_wc_type_predicates() {
    let wc = wc_with(WRID::recv(7), 0, 0, 0);
    assert!(wc.is_recv());
    assert!(!wc.is_send_data());
    assert!(!wc.is_send_imm());

    let wc = wc_with(WRID::send_data(7), 0, 0, 0);
    assert!(wc.is_send_data());

    let wc = wc_with(WRID::send_imm(7), 0, 0, 0);
    assert!(wc.is_send_imm());
}

#[test]
fn test_wc_succ() {
    assert!(wc_with(WRID::recv(1), 0, 0, 0).succ());
    assert!(!wc_with(WRID::recv(1), 5, 0, 0).succ());
}

#[test]
fn test_wc_imm_requires_flag() {
    let wc = wc_with(WRID::new(WCType::SendImm, 9), 0, 0, 0x01020304);
    assert_eq!(wc.imm(), None);

    let wc = wc_with(WRID::new(WCType::SendImm, 9), 0, 2, 0x01020304);
    assert_eq!(wc.imm(), Some(0x04030201));
}
