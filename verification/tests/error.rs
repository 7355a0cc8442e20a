use rdma_inventory::{Error, ErrorKind};

#[test]
fn test_error() {
    let err = Error::new(
        ErrorKind::IBGetDeviceListFail,
        "Failed to get device list".to_string(),
    );
    assert_eq!(err.kind, ErrorKind::IBGetDeviceListFail);
    assert_eq!(err.msg, "Failed to get device list");
    assert_eq!(err.kind.as_name(), "IBGetDeviceListFail");

    let kind = ErrorKind::from_name("NewKindError");
    let err = Error::new(kind, "new kind error message".to_string());
    assert_eq!(
        err,
        Error {
            kind: ErrorKind::Unknown("NewKindError".to_string()),
            msg: "new kind error message".to_string()
        }
    );

    let err: Error = ErrorKind::IBGetDeviceListFail.into();
    assert_eq!(err.to_text(), "IBGetDeviceListFail");
}

#[test]
fn test_error_display() {
    let err = Error::new(ErrorKind::IBOpenDeviceFail, "Device not found".to_string());
    assert_eq!(err.to_text(), "IBOpenDeviceFail: Device not found");

    let err: Error = ErrorKind::IBAllocPDFail.into();
    assert_eq!(err.to_text(), "IBAllocPDFail");
}

#[test]
fn test_error_from_kind() {
    let err: Error = ErrorKind::IBQueryDeviceFail.into();
    assert_eq!(err.kind, ErrorKind::IBQueryDeviceFail);
    assert!(err.msg.is_empty());
}

#[test]
fn test_error_kind_name_round_trip() {
    let names = [
        "AllocMemoryFailed",
        "IBGetDeviceListFail",
        "IBDeviceNotFound",
        "IBOpenDeviceFail",
        "IBQueryDeviceFail",
        "IBQueryGidFail",
        "IBQueryGidTypeFail",
        "IBQueryPortFail",
        "IBAllocPDFail",
        "IBCreateCompChannelFail",
        "IBSetCompChannelNonBlockFail",
        "IBGetCompQueueEventFail",
        "IBCreateCompQueueFail",
        "IBReqNotifyCompQueueFail",
        "IBPollCompQueueFail",
        "IBRegMemoryRegionFail",
        "IBCreateQueuePairFail",
        "IBModifyQueuePairFail",
        "IBPostRecvFailed",
        "IBPostSendFailed",
        "IBSetNonBlockFailed",
        "InsufficientBuffer",
    ];
    for name in names {
        let kind = ErrorKind::from_name(name);
        assert_eq!(kind.as_name(), name);
        assert!(!matches!(kind, ErrorKind::Unknown(_)));
    }
}

#[test]
fn test_error_unknown_display() {
    let err = Error::new(ErrorKind::Unknown("SomethingNew".to_string()), String::new());
    assert_eq!(err.to_text(), "Unknown(\"SomethingNew\")");
}

#[test]
fn test_error_with_errno_keeps_kind() {
    let err = ErrorKind::IBQueryGidFail.with_errno();
    assert_eq!(err.kind, ErrorKind::IBQueryGidFail);
}
