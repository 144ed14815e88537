use tb_rs::header::{
    EvictionReason, Header, HeaderError, ReplyHeader, RequestHeader, PROTOCOL_VERSION,
};
use tb_rs::operation::{Command, Operation};

#[test]
fn test_header_size() {
    assert_eq!(Header::default().to_bytes().len(), 256);
}

#[test]
fn test_request_header_size() {
    assert_eq!(RequestHeader::default().to_bytes().len(), 128);
}

#[test]
fn test_reply_header_size() {
    assert_eq!(ReplyHeader::default().to_bytes().len(), 128);
}

#[test]
fn test_header_default() {
    let header = Header::default();
    assert_eq!(header.size, 256);
    assert_eq!(header.protocol, PROTOCOL_VERSION);
    assert_eq!(header.command, Command::Reserved.as_u8());
}

#[test]
fn test_header_checksum() {
    let mut header = Header::default();
    header.cluster = 12345;
    header.set_checksum_body(&[]);
    header.set_checksum();

    assert!(header.valid_checksum());
    assert!(header.valid_checksum_body(&[]));
}

#[test]
fn test_header_checksum_invalid() {
    let mut header = Header::default();
    header.cluster = 12345;
    header.set_checksum_body(&[]);
    header.set_checksum();

    // Corrupt the header.
    header.cluster = 99999;
    assert!(!header.valid_checksum());
}

#[test]
fn test_header_checksum_covers_cluster() {
    // The header checksum covers bytes 16..256, the cluster id among
    // them: re-finalizing after a cluster change gives a new checksum.
    let mut h1 = Header::default();
    h1.cluster = 12345;
    h1.set_checksum();
    let mut h2 = Header::default();
    h2.cluster = 99999;
    h2.set_checksum();
    assert_ne!(h1.checksum, h2.checksum);
}

#[test]
fn test_header_as_request() {
    let mut header = Header::default();
    header.set_command(Command::Request);

    let mut req = RequestHeader::default();
    req.client = 42;
    req.set_operation(Operation::CreateAccounts);
    req.request = 1;
    header.set_request(&req);

    assert_eq!(header.as_request().client, 42);
    assert_eq!(header.as_request().operation, Operation::CreateAccounts.as_u8());
    assert_eq!(header.as_request().request, 1);
}

#[test]
fn test_header_validation() {
    let header = Header::default();
    assert!(header.validate().is_ok());

    let mut invalid = Header::default();
    invalid.epoch = 1;
    assert_eq!(invalid.validate(), Err(HeaderError::InvalidEpoch));
}

#[test]
fn test_header_bytes_roundtrip() {
    let mut header = Header::new(0xDEADBEEF);
    header.set_command(Command::Request);
    header.size = 512;

    let bytes = header.to_bytes();
    let restored = Header::from_bytes(&bytes);

    assert_eq!(restored.cluster, 0xDEADBEEF);
    assert_eq!(restored.command, Command::Request.as_u8());
    assert_eq!(restored.size, 512);
}

#[test]
fn test_eviction_reason_codes() {
    assert_eq!(EvictionReason::NoSession.as_u8(), 1);
    assert_eq!(EvictionReason::SessionReleaseMismatch.as_u8(), 8);
    assert_eq!(EvictionReason::try_from(1), Ok(EvictionReason::NoSession));
    assert_eq!(EvictionReason::try_from(0), Err(0));
    assert_eq!(EvictionReason::try_from(9), Err(9));
}
