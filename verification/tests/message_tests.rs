use tb_rs::header::HEADER_SIZE;
use tb_rs::message::{Message, MessageError, RequestBuilder};
use tb_rs::operation::Operation;

#[test]
fn test_message_new() {
    let msg = Message::new();
    assert_eq!(msg.len(), HEADER_SIZE);
    assert!(msg.body().is_empty());
}

#[test]
fn test_message_set_body() {
    let mut msg = Message::new();
    msg.set_body(b"hello");
    assert_eq!(msg.body(), b"hello");
    assert_eq!(msg.header().size, HEADER_SIZE + 5);
}

#[test]
fn test_message_finalize_and_validate() {
    let mut msg = Message::new();
    msg.header.cluster = 12345;
    msg.set_body(b"test data");
    msg.finalize();

    assert!(msg.validate().is_ok());
}

#[test]
fn test_message_validation_fails_on_corruption() {
    let mut msg = Message::new();
    msg.header.cluster = 12345;
    msg.set_body(b"test data");
    msg.finalize();

    // Corrupt the body.
    msg.body[0] ^= 0xFF;
    assert_eq!(msg.validate(), Err(MessageError::InvalidBodyChecksum));
}

#[test]
fn test_request_builder() {
    let msg = RequestBuilder::new(0xDEAD, 0xBEEF)
        .session(42)
        .request(1)
        .parent(0)
        .operation(Operation::CreateAccounts)
        .body(&[1, 2, 3, 4])
        .build();

    assert_eq!(msg.header().cluster, 0xDEAD);
    assert_eq!(msg.header().as_request().client, 0xBEEF);
    assert_eq!(msg.header().as_request().session, 42);
    assert_eq!(msg.header().as_request().request, 1);
    assert_eq!(msg.header().as_request().operation, Operation::CreateAccounts.as_u8());
    assert_eq!(msg.body(), &[1, 2, 3, 4]);
    assert!(msg.validate().is_ok());
}

#[test]
fn test_message_bytes_roundtrip() {
    let mut msg = Message::new();
    msg.header.cluster = 7;
    msg.set_body(b"abc");
    msg.finalize();
    let bytes = msg.as_bytes();
    assert_eq!(bytes.len(), 259);
    let restored = Message::from_bytes(bytes).unwrap();
    assert_eq!(restored.header.cluster, 7);
    assert_eq!(restored.body(), b"abc");
    assert!(restored.validate().is_ok());

    // Anything shorter than a header does not parse.
    assert!(Message::from_bytes(vec![0u8; 255]).is_none());
}

#[test]
fn test_message_append_body() {
    let mut msg = Message::with_body_capacity(16);
    assert!(msg.body().is_empty());
    msg.append_body(b"ab");
    msg.append_body(b"cd");
    assert_eq!(msg.body(), b"abcd");
    assert_eq!(msg.header().size, HEADER_SIZE + 4);
    assert_eq!(msg.len(), HEADER_SIZE + 4);
    assert!(!msg.is_empty());
}

#[test]
fn test_message_into_bytes() {
    let mut msg = Message::new();
    msg.set_body(b"xyz");
    msg.finalize();
    let direct = msg.as_bytes();
    let owned = msg.into_bytes();
    assert_eq!(direct, owned);
}
