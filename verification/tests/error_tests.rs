use tb_rs::error::{ClientError, InitStatus, PacketStatus, ProtocolError};

#[test]
fn test_client_error_display() {
    let err = ClientError::Timeout;
    assert_eq!(err.message(), "operation timed out");
}

#[test]
fn test_protocol_error_display() {
    let err = ProtocolError::InvalidHeaderChecksum;
    assert_eq!(err.message(), "invalid header checksum");
}

#[test]
fn test_request_too_large_fields() {
    let err = ClientError::RequestTooLarge { size: 384, limit: 256 };
    assert_eq!(err.message(), "request too large");
    assert!(matches!(
        err,
        ClientError::RequestTooLarge { size: 384, limit: 256 }
    ));
}

#[test]
fn test_status_messages() {
    assert_eq!(PacketStatus::Success.message(), "ok");
    assert_eq!(PacketStatus::ClientEvicted.message(), "client evicted");
    assert_eq!(InitStatus::AddressInvalid.message(), "invalid address");
}
