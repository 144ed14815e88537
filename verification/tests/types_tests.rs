use tb_rs::types::{
    parse_accounts, parse_create_accounts_results, Account, AccountBalance, AccountFilter,
    AccountFlags, CreateAccountResult, CreateAccountsResult, CreateTransferResult,
    CreateTransfersResult, QueryFilter, RegisterRequest, RegisterResult, Transfer,
    TransferFlags, ACCOUNT_FLAG_HISTORY, ACCOUNT_FLAG_LINKED, TRANSFER_FLAG_LINKED,
    TRANSFER_FLAG_PENDING,
};

#[test]
fn test_account_size() {
    assert_eq!(std::mem::size_of::<Account>(), 128);
    assert_eq!(std::mem::align_of::<Account>(), 16);
    assert_eq!(Account::default().to_bytes().len(), 128);
}

#[test]
fn test_transfer_size() {
    assert_eq!(std::mem::size_of::<Transfer>(), 128);
    assert_eq!(std::mem::align_of::<Transfer>(), 16);
    assert_eq!(Transfer::default().to_bytes().len(), 128);
}

#[test]
fn test_account_balance_size() {
    assert_eq!(AccountBalance::default().to_bytes().len(), 128);
}

#[test]
fn test_account_filter_size() {
    assert_eq!(AccountFilter::default().to_bytes().len(), 128);
}

#[test]
fn test_query_filter_size() {
    assert_eq!(QueryFilter::default().to_bytes().len(), 64);
}

#[test]
fn test_create_accounts_result_size() {
    assert_eq!(CreateAccountsResult { index: 0, result: 0 }.to_bytes().len(), 8);
}

#[test]
fn test_create_transfers_result_size() {
    assert_eq!(CreateTransfersResult { index: 0, result: 0 }.to_bytes().len(), 8);
}

#[test]
fn test_register_request_size() {
    assert_eq!(RegisterRequest::default().to_bytes().len(), 256);
}

#[test]
fn test_register_result_size() {
    assert_eq!(RegisterResult::default().to_bytes().len(), 64);
}

#[test]
fn test_account_flags() {
    let flags = AccountFlags::from_bits(ACCOUNT_FLAG_LINKED | ACCOUNT_FLAG_HISTORY);
    assert_eq!(flags.bits(), 0b1001);
}

#[test]
fn test_transfer_flags() {
    let flags = TransferFlags::from_bits(TRANSFER_FLAG_PENDING | TRANSFER_FLAG_LINKED);
    assert_eq!(flags.bits(), 0b11);
}

#[test]
fn test_account_bytes_roundtrip() {
    let account = Account {
        id: 0xDEADBEEF_00000000_00000000_12345678,
        debits_pending: 1,
        debits_posted: 2,
        credits_pending: 3,
        credits_posted: 4,
        user_data_128: 5,
        user_data_64: 6,
        user_data_32: 7,
        reserved: 0,
        ledger: 700,
        code: 10,
        flags: AccountFlags::from_bits(ACCOUNT_FLAG_HISTORY),
        timestamp: 0,
    };
    let bytes = account.to_bytes();
    assert_eq!(bytes.len(), 128);
    let restored = Account::from_bytes(&bytes);
    assert_eq!(restored, account);
    // Spot-check the layout: the id sits first, little-endian, and the
    // ledger at offset 112.
    assert_eq!(&bytes[..16], &account.id.to_le_bytes());
    assert_eq!(&bytes[112..116], &700u32.to_le_bytes());
}

#[test]
fn test_transfer_bytes_roundtrip() {
    let transfer = Transfer {
        id: 42,
        debit_account_id: 7,
        credit_account_id: 8,
        amount: 1000,
        pending_id: 0,
        user_data_128: 0,
        user_data_64: 0,
        user_data_32: 0,
        timeout: 30,
        ledger: 1,
        code: 2,
        flags: TransferFlags::from_bits(TRANSFER_FLAG_PENDING),
        timestamp: 0,
    };
    let bytes = transfer.to_bytes();
    assert_eq!(bytes.len(), 128);
    let restored = Transfer::from_bytes(&bytes);
    assert_eq!(restored, transfer);
    assert_eq!(&bytes[48..64], &1000u128.to_le_bytes());
}

#[test]
fn test_parse_accounts_batches() {
    let a1 = Account { id: 1, ledger: 1, code: 1, ..Account::default() };
    let a2 = Account { id: 2, ledger: 1, code: 1, ..Account::default() };
    let mut data = a1.to_bytes();
    data.extend_from_slice(&a2.to_bytes());
    let parsed = parse_accounts(&data).unwrap();
    assert_eq!(parsed.len(), 2);
    assert_eq!(parsed[0], a1);
    assert_eq!(parsed[1], a2);

    // A partial trailing element is rejected.
    data.push(0);
    assert!(parse_accounts(&data).is_none());
}

#[test]
fn test_parse_create_accounts_results_batch() {
    let r0 = CreateAccountsResult { index: 0, result: CreateAccountResult::Exists.as_u32() };
    let r1 = CreateAccountsResult {
        index: 3,
        result: CreateAccountResult::LedgerMustNotBeZero.as_u32(),
    };
    let mut data = r0.to_bytes();
    data.extend_from_slice(&r1.to_bytes());
    let parsed = parse_create_accounts_results(&data).unwrap();
    assert_eq!(parsed.len(), 2);
    assert_eq!(parsed[0], r0);
    assert_eq!(parsed[1].index, 3);
    assert_eq!(parsed[1].result, 13);
}

#[test]
fn test_create_result_codes() {
    assert_eq!(CreateAccountResult::Success.as_u32(), 0);
    assert_eq!(CreateAccountResult::Exists.as_u32(), 21);
    assert_eq!(
        CreateAccountResult::ImportedEventTimestampMustNotRegress.as_u32(),
        26
    );
    assert_eq!(CreateAccountResult::try_from(21), Ok(CreateAccountResult::Exists));
    assert_eq!(CreateAccountResult::try_from(27), Err(27));

    assert_eq!(CreateTransferResult::Success.as_u32(), 0);
    assert_eq!(CreateTransferResult::Exists.as_u32(), 46);
    assert_eq!(CreateTransferResult::IdAlreadyFailed.as_u32(), 68);
    assert_eq!(
        CreateTransferResult::try_from(18),
        Err(18) // deprecated code
    );
    assert_eq!(
        CreateTransferResult::try_from(55),
        Ok(CreateTransferResult::ExceedsDebits)
    );
}
