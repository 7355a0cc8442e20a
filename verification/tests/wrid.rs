use rdma_inventory::{WCType, WRID};

#[test]
fn test_wrid_recv() {
    let id = 12345u64;
    let wrid = WRID::recv(id);
    assert_eq!(wrid.get_type(), WCType::Recv);
    assert_eq!(wrid.get_id(), id);
}

#[test]
fn test_wrid_send_data() {
    let id = 67890u64;
    let wrid = WRID::send_data(id);
    assert_eq!(wrid.get_type(), WCType::SendData);
    assert_eq!(wrid.get_id(), id);
}

#[test]
fn test_wrid_send_imm() {
    let id = 54321u64;
    let wrid = WRID::send_imm(id);
    assert_eq!(wrid.get_type(), WCType::SendImm);
    assert_eq!(wrid.get_id(), id);
}

#[test]
fn test_wrid_new() {
    let wrid = WRID::new(WCType::Recv, 1000);
    assert_eq!(wrid.get_type(), WCType::Recv);
    assert_eq!(wrid.get_id(), 1000);

    let wrid = WRID::new(WCType::SendData, 2000);
    assert_eq!(wrid.get_type(), WCType::SendData);
    assert_eq!(wrid.get_id(), 2000);

    let wrid = WRID::new(WCType::SendImm, 3000);
    assert_eq!(wrid.get_type(), WCType::SendImm);
    assert_eq!(wrid.get_id(), 3000);
}

#[test]
fn test_wrid_debug() {
    let wrid = WRID::recv(123);
    let debug_str = wrid.to_text();
    assert_eq!(debug_str, "Recv(123)");

    let wrid = WRID::send_data(456);
    let debug_str = wrid.to_text();
    assert_eq!(debug_str, "SendData(456)");

    let wrid = WRID::send_imm(789);
    let debug_str = wrid.to_text();
    assert_eq!(debug_str, "SendImm(789)");
}

#[test]
fn test_wrid_type_mask() {
    let mask = WRID::TYPE_MASK;
    let expected_mask: u64 = 0xC000000000000000;
    assert_eq!(mask, expected_mask);
}

#[test]
fn test_wrid_encoding() {
    let wrid = WRID::recv(0x1234);
    let value = wrid.0;
    assert_eq!(value & WRID::TYPE_MASK, 0);
    assert_eq!(value & !WRID::TYPE_MASK, 0x1234);

    let wrid = WRID::send_data(0x5678);
    let value = wrid.0;
    assert_eq!((value & WRID::TYPE_MASK) >> WRID::TYPE_BITS, 1);
    assert_eq!(value & !WRID::TYPE_MASK, 0x5678);

    let wrid = WRID::send_imm(0x9ABC);
    let value = wrid.0;
    assert_eq!((value & WRID::TYPE_MASK) >> WRID::TYPE_BITS, 2);
    assert_eq!(value & !WRID::TYPE_MASK, 0x9ABC);
}

#[test]
fn test_wrid_largest_id() {
    let id = (1u64 << 62) - 1;
    let wrid = WRID::send_data(id);
    assert_eq!(wrid.get_type(), WCType::SendData);
    assert_eq!(wrid.get_id(), id);
}

#[test]
fn test_wrid_try_new_rejects_large_id() {
    assert!(WRID::try_new(WCType::Recv, 1u64 << 62).is_none());
    assert!(WRID::try_new(WCType::SendImm, u64::MAX).is_none());

    let wrid = WRID::try_new(WCType::SendData, (1u64 << 62) - 1).unwrap();
    assert_eq!(wrid.get_type(), WCType::SendData);
    assert_eq!(wrid.get_id(), (1u64 << 62) - 1);
}

#[test]
fn test_wrid_zero_id_text() {
    assert_eq!(WRID::recv(0).to_text(), "Recv(0)");
}
