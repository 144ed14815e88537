use tb_rs::error::{ClientError, ProtocolError};
use tb_rs::header::{EvictionHeader, EvictionReason, Header, ReplyHeader};
use tb_rs::message::Message;
use tb_rs::operation::Command;
use tb_rs::session::{
    next_timeout_ms, parse_create_accounts_reply, ParseOutcome, Session, SessionState,
};
use tb_rs::types::{Account, AccountFlags, RegisterResult};

const CLIENT_ID: u128 = 0xABC;

/// Wire bytes of a reply message a server would send.
fn make_reply(
    request_checksum: u128,
    context: u128,
    client: u128,
    commit: u64,
    view: u32,
    body: &[u8],
) -> Vec<u8> {
    let mut msg = Message::new();
    msg.header.set_command(Command::Reply);
    msg.header.view = view;
    msg.set_body(body);
    let reply = ReplyHeader {
        request_checksum,
        context,
        client,
        op: 0,
        commit,
        timestamp: 0,
        request: 0,
        operation: 0,
    };
    msg.header.set_reply(&reply);
    msg.finalize();
    msg.as_bytes()
}

/// A session registered against a pretend server that grants the given
/// batch size limit; the register reply carries context `0xC0FFEE` and
/// session number 7.
fn registered_session(replica_count: u8, batch_size_limit: u32) -> Session {
    let mut session = Session::new(CLIENT_ID, 0, replica_count);
    let msg = session.build_register().unwrap();
    let body = RegisterResult { batch_size_limit }.to_bytes();
    let reply_bytes = make_reply(msg.header.checksum, 0xC0FFEE, CLIENT_ID, 7, 0, &body);
    match session.try_parse_reply(&reply_bytes, msg.header.checksum) {
        ParseOutcome::Accepted(reply) => session.apply_register_reply(&reply).unwrap(),
        other => panic!("register reply not accepted: {:?}", other),
    }
    session
}

fn one_account() -> Account {
    Account { id: 0x1, ledger: 1, code: 1, flags: AccountFlags::empty(), ..Account::default() }
}

#[test]
fn test_register_single_replica() {
    let mut session = Session::new(CLIENT_ID, 0, 1);
    let msg = session.build_register().unwrap();

    // The server receives exactly one 512-byte request message.
    let wire = msg.as_bytes();
    assert_eq!(wire.len(), 512);
    assert_eq!(msg.header.size, 512);
    assert_eq!(msg.header.command, 5);
    let overlay = msg.header.as_request();
    assert_eq!(overlay.operation, 2);
    assert_eq!(overlay.request, 0);
    assert_eq!(overlay.session, 0);
    assert_eq!(overlay.parent, 0);

    // It replies with commit 7, a context checksum, and a one-mebibyte
    // batch size limit.
    let context: u128 = 0xC0FFEE;
    let body = RegisterResult { batch_size_limit: 1048576 }.to_bytes();
    let reply_bytes = make_reply(msg.header.checksum, context, CLIENT_ID, 7, 0, &body);
    let reply = match session.try_parse_reply(&reply_bytes, msg.header.checksum) {
        ParseOutcome::Accepted(reply) => reply,
        other => panic!("expected acceptance, got {:?}", other),
    };
    session.apply_register_reply(&reply).unwrap();

    assert!(session.is_ready());
    assert_eq!(session.batch_size_limit(), Some(1_048_576));
    assert_eq!(session.session, 7);
    assert_eq!(session.parent, context);
    assert_eq!(session.request_number, 1);
}

#[test]
fn test_register_twice_rejected() {
    let mut session = registered_session(1, 1048576);
    assert!(matches!(
        session.build_register(),
        Err(ClientError::InvalidOperation)
    ));
}

#[test]
fn test_register_reply_too_short() {
    let mut session = Session::new(CLIENT_ID, 0, 1);
    let msg = session.build_register().unwrap();
    let reply_bytes = make_reply(msg.header.checksum, 1, CLIENT_ID, 7, 0, &[0u8; 32]);
    let reply = match session.try_parse_reply(&reply_bytes, msg.header.checksum) {
        ParseOutcome::Accepted(reply) => reply,
        other => panic!("expected acceptance, got {:?}", other),
    };
    assert!(matches!(
        session.apply_register_reply(&reply),
        Err(ClientError::Protocol(ProtocolError::InvalidSize))
    ));
    assert_eq!(session.state, SessionState::Registering);
}

#[test]
fn test_create_one_account() {
    let mut session = registered_session(1, 1048576);
    let msg = session.create_accounts_request(&vec![one_account()]).unwrap();

    // 256-byte header, 128-byte payload, 128-byte trailer.
    assert_eq!(msg.as_bytes().len(), 512);
    assert_eq!(msg.header.size, 512);
    assert_eq!(msg.header.as_request().operation, 138);

    // An empty result body means every account was created.
    let empty_results = [0xFF, 0xFF, 0xFF, 0xFF, 0x00, 0x00, 0x01, 0x00];
    let results = parse_create_accounts_reply(&empty_results).unwrap();
    assert!(results.is_empty());
}

#[test]
fn test_empty_batch_sends_request() {
    // An empty input batch still surfaces a request: a trailer-only body.
    let mut session = registered_session(1, 1048576);
    let msg = session.create_accounts_request(&vec![]).unwrap();
    assert_eq!(msg.body.len(), 128);
    assert_eq!(msg.header.size, 384);
    // The trailer records zero elements in one batch.
    assert_eq!(u16::from_le_bytes([msg.body[124], msg.body[125]]), 0);
    assert_eq!(u16::from_le_bytes([msg.body[126], msg.body[127]]), 1);
    assert_eq!(session.request_number, 2);
}

#[test]
fn test_oversize_rejection() {
    let mut session = registered_session(1, 256);
    let batch = vec![one_account(), Account { id: 0x2, ..one_account() }];
    let err = session.create_accounts_request(&batch).unwrap_err();
    assert!(matches!(
        err,
        ClientError::RequestTooLarge { size: 384, limit: 256 }
    ));
    // Nothing was sent and nothing advanced.
    assert_eq!(session.request_number, 1);
}

#[test]
fn test_wrong_reply_skip() {
    let mut session = registered_session(2, 1048576);
    let first = session.create_accounts_request(&vec![one_account()]).unwrap();
    let second = session
        .create_accounts_request(&vec![Account { id: 0x2, ..one_account() }])
        .unwrap();

    // A late but otherwise valid reply to the *first* request arrives
    // while the second is outstanding: it is skipped, and the chain's
    // parent does not move.
    let parent_before = session.parent;
    let empty_results = [0xFF, 0xFF, 0xFF, 0xFF, 0x00, 0x00, 0x01, 0x00];
    let stale = make_reply(first.header.checksum, 0xDEAD, CLIENT_ID, 7, 0, &empty_results);
    assert!(matches!(
        session.try_parse_reply(&stale, second.header.checksum),
        ParseOutcome::WrongReply
    ));
    assert_eq!(session.parent, parent_before);

    // A reply for another client is skipped the same way.
    let foreign = make_reply(
        second.header.checksum,
        0xDEAD,
        CLIENT_ID + 1,
        7,
        0,
        &empty_results,
    );
    assert!(matches!(
        session.try_parse_reply(&foreign, second.header.checksum),
        ParseOutcome::WrongReply
    ));
}

#[test]
fn test_eviction() {
    let mut session = registered_session(1, 1048576);
    let msg = session.create_accounts_request(&vec![one_account()]).unwrap();

    let mut eviction = Message::new();
    eviction.header.set_command(Command::Eviction);
    eviction.header.reserved_command =
        EvictionHeader { client: CLIENT_ID, reason: 1 }.to_bytes();
    eviction.finalize();

    let outcome = session.try_parse_reply(&eviction.as_bytes(), msg.header.checksum);
    assert!(matches!(
        outcome,
        ParseOutcome::Evicted(EvictionReason::NoSession)
    ));

    // The eviction is terminal for this handle: the session leaves the
    // ready state and no further operation succeeds.
    session.mark_evicted();
    assert!(!session.is_ready());
    assert!(matches!(
        session.create_accounts_request(&vec![one_account()]),
        Err(ClientError::Shutdown)
    ));
    assert!(matches!(session.build_register(), Err(ClientError::Shutdown)));
}

#[test]
fn test_hedged_send() {
    let mut session = registered_session(2, 1048576);
    assert_eq!(session.view, 0);
    assert_eq!(session.primary_index(), 0);
    // With two replicas the only possible backup is the other one.
    assert_eq!(session.pick_backup(), Some(1));

    // The same bytes go to the primary and to the backup.
    let msg = session.create_accounts_request(&vec![one_account()]).unwrap();
    let to_primary = msg.as_bytes();
    let to_backup = msg.as_bytes();
    assert_eq!(to_primary, to_backup);
}

#[test]
fn test_no_backup_on_single_replica() {
    let session = registered_session(1, 1048576);
    assert_eq!(session.pick_backup(), None);
}

#[test]
fn test_hash_chain() {
    let mut session = registered_session(1, 1048576);

    // The first request's parent is the register reply's context.
    let first = session.create_accounts_request(&vec![one_account()]).unwrap();
    assert_eq!(first.header.as_request().parent, 0xC0FFEE);
    assert_eq!(session.parent, first.header.checksum);

    // The next request's parent is the previous request's checksum.
    let second = session
        .create_accounts_request(&vec![Account { id: 0x2, ..one_account() }])
        .unwrap();
    assert_eq!(second.header.as_request().parent, first.header.checksum);
}

#[test]
fn test_request_number_strictly_increases() {
    let mut session = registered_session(1, 1048576);
    assert_eq!(session.request_number, 1);
    let first = session.create_accounts_request(&vec![one_account()]).unwrap();
    assert_eq!(first.header.as_request().request, 1);
    assert_eq!(session.request_number, 2);
    let second = session.create_accounts_request(&vec![one_account()]).unwrap();
    assert_eq!(second.header.as_request().request, 2);
    assert_eq!(session.request_number, 3);
}

#[test]
fn test_view_monotone() {
    let mut session = registered_session(1, 1048576);
    let msg = session.create_accounts_request(&vec![one_account()]).unwrap();
    let empty_results = [0xFF, 0xFF, 0xFF, 0xFF, 0x00, 0x00, 0x01, 0x00];

    // A reply from view 5 advances the session's view.
    let reply_bytes = make_reply(msg.header.checksum, 0x1, CLIENT_ID, 7, 5, &empty_results);
    match session.try_parse_reply(&reply_bytes, msg.header.checksum) {
        ParseOutcome::Accepted(reply) => session.accept_reply(&reply),
        other => panic!("expected acceptance, got {:?}", other),
    }
    assert_eq!(session.view, 5);

    // A later reply from an older view does not move it back.
    let msg2 = session.create_accounts_request(&vec![one_account()]).unwrap();
    let reply_bytes2 = make_reply(msg2.header.checksum, 0x2, CLIENT_ID, 7, 3, &empty_results);
    match session.try_parse_reply(&reply_bytes2, msg2.header.checksum) {
        ParseOutcome::Accepted(reply) => session.accept_reply(&reply),
        other => panic!("expected acceptance, got {:?}", other),
    }
    assert_eq!(session.view, 5);
}

#[test]
fn test_retry_reuses_identical_bytes() {
    let mut session = registered_session(1, 1048576);
    let msg = session.create_accounts_request(&vec![one_account()]).unwrap();
    let expected_checksum = msg.header.checksum;
    let first_send = msg.as_bytes();

    // A timeout backs the timer off but touches neither the message nor
    // the expected checksum; the retry sends the very same bytes.
    assert_eq!(next_timeout_ms(500, 30_000, 100), 1_100);
    assert_eq!(next_timeout_ms(20_000, 30_000, 0), 30_000);
    let resend = msg.as_bytes();
    assert_eq!(first_send, resend);
    assert_eq!(msg.header.checksum, expected_checksum);
}

#[test]
fn test_corrupt_reply_is_protocol_fault() {
    let session = registered_session(1, 1048576);
    let empty_results = [0xFF, 0xFF, 0xFF, 0xFF, 0x00, 0x00, 0x01, 0x00];
    let mut reply_bytes = make_reply(0x1, 0x2, CLIENT_ID, 7, 0, &empty_results);

    // Flip a covered header byte: the header checksum no longer matches.
    reply_bytes[80] ^= 0xFF;
    assert!(matches!(
        session.try_parse_reply(&reply_bytes, 0x1),
        ParseOutcome::ProtocolFault(ProtocolError::InvalidHeaderChecksum)
    ));
}

#[test]
fn test_corrupt_reply_body_is_protocol_fault() {
    let session = registered_session(1, 1048576);
    let empty_results = [0xFF, 0xFF, 0xFF, 0xFF, 0x00, 0x00, 0x01, 0x00];
    let mut reply_bytes = make_reply(0x1, 0x2, CLIENT_ID, 7, 0, &empty_results);
    let last = reply_bytes.len() - 1;
    reply_bytes[last] ^= 0xFF;
    assert!(matches!(
        session.try_parse_reply(&reply_bytes, 0x1),
        ParseOutcome::ProtocolFault(ProtocolError::InvalidBodyChecksum)
    ));
}

#[test]
fn test_unexpected_command_is_protocol_fault() {
    let session = registered_session(1, 1048576);
    let mut msg = Message::new();
    msg.header.set_command(Command::Prepare);
    msg.finalize();
    assert!(matches!(
        session.try_parse_reply(&msg.as_bytes(), 0x1),
        ParseOutcome::ProtocolFault(ProtocolError::UnexpectedReply)
    ));
}

#[test]
fn test_short_read_needs_more_data() {
    let session = registered_session(1, 1048576);
    assert!(matches!(
        session.try_parse_reply(&[0u8; 100], 0x1),
        ParseOutcome::NeedMoreData
    ));

    // A whole header announcing a longer message also waits for more.
    let empty_results = [0xFF, 0xFF, 0xFF, 0xFF, 0x00, 0x00, 0x01, 0x00];
    let reply_bytes = make_reply(0x1, 0x2, CLIENT_ID, 7, 0, &empty_results);
    assert!(matches!(
        session.try_parse_reply(&reply_bytes[..260], 0x1),
        ParseOutcome::NeedMoreData
    ));
}

#[test]
fn test_operation_before_register() {
    let mut session = Session::new(CLIENT_ID, 0, 1);
    assert!(matches!(
        session.create_accounts_request(&vec![one_account()]),
        Err(ClientError::NotRegistered)
    ));
}

#[test]
fn test_max_batch_count() {
    let session = registered_session(1, 1_048_576);
    // (limit - trailer) / element_size for 128-byte records.
    assert_eq!(session.max_batch_count(128), Some(8191));
    assert_eq!(session.max_batch_count(0), None);

    let unregistered = Session::new(CLIENT_ID, 0, 1);
    assert_eq!(unregistered.max_batch_count(128), None);
}

#[test]
fn test_lookup_and_query_requests() {
    let mut session = registered_session(1, 1_048_576);

    let lookup = session.lookup_accounts_request(&vec![0x1u128, 0x2]).unwrap();
    assert_eq!(lookup.header.as_request().operation, 140);
    // Two 16-byte ids plus a 16-byte trailer.
    assert_eq!(lookup.header.size, 256 + 48);

    let filter = tb_rs::types::AccountFilter {
        account_id: 0x1,
        limit: 10,
        ..tb_rs::types::AccountFilter::default()
    };
    let transfers = session.get_account_transfers_request(&filter).unwrap();
    assert_eq!(transfers.header.as_request().operation, 142);
    assert_eq!(transfers.header.size, 256 + 256);

    let query = tb_rs::types::QueryFilter {
        ledger: 1,
        limit: 5,
        ..tb_rs::types::QueryFilter::default()
    };
    let accounts = session.query_accounts_request(&query).unwrap();
    assert_eq!(accounts.header.as_request().operation, 144);
    assert_eq!(accounts.header.size, 256 + 128);
}
