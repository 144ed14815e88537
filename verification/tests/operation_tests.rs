use tb_rs::operation::{Command, Operation};

#[test]
fn test_command_values() {
    assert_eq!(Command::Reserved.as_u8(), 0);
    assert_eq!(Command::Request.as_u8(), 5);
    assert_eq!(Command::Reply.as_u8(), 8);
    assert_eq!(Command::PingClient.as_u8(), 3);
    assert_eq!(Command::PongClient.as_u8(), 4);
    assert_eq!(Command::Eviction.as_u8(), 18);
}

#[test]
fn test_operation_values() {
    assert_eq!(Operation::Reserved.as_u8(), 0);
    assert_eq!(Operation::Register.as_u8(), 2);
    assert_eq!(Operation::CreateAccounts.as_u8(), 138);
    assert_eq!(Operation::CreateTransfers.as_u8(), 139);
    assert_eq!(Operation::LookupAccounts.as_u8(), 140);
    assert_eq!(Operation::LookupTransfers.as_u8(), 141);
    assert_eq!(Operation::GetAccountTransfers.as_u8(), 142);
    assert_eq!(Operation::GetAccountBalances.as_u8(), 143);
    assert_eq!(Operation::QueryAccounts.as_u8(), 144);
    assert_eq!(Operation::QueryTransfers.as_u8(), 145);
}

#[test]
fn test_operation_is_vsr_reserved() {
    assert!(Operation::Reserved.is_vsr_reserved());
    assert!(Operation::Register.is_vsr_reserved());
    assert!(!Operation::CreateAccounts.is_vsr_reserved());
}

#[test]
fn test_operation_is_batchable() {
    assert!(Operation::CreateAccounts.is_batchable());
    assert!(Operation::CreateTransfers.is_batchable());
    assert!(Operation::LookupAccounts.is_batchable());
    assert!(!Operation::GetAccountTransfers.is_batchable());
    assert!(!Operation::QueryAccounts.is_batchable());
}

#[test]
fn test_operation_is_multi_batch() {
    // Every state-machine operation uses the multi-batch encoding.
    assert!(Operation::CreateAccounts.is_multi_batch());
    assert!(Operation::CreateTransfers.is_multi_batch());
    assert!(Operation::LookupAccounts.is_multi_batch());
    assert!(Operation::LookupTransfers.is_multi_batch());
    assert!(Operation::GetAccountTransfers.is_multi_batch());
    assert!(Operation::GetAccountBalances.is_multi_batch());
    assert!(Operation::QueryAccounts.is_multi_batch());
    assert!(Operation::QueryTransfers.is_multi_batch());
    // The protocol-reserved operations do not.
    assert!(!Operation::Register.is_multi_batch());
    assert!(!Operation::Reserved.is_multi_batch());
}

#[test]
fn test_command_try_from() {
    assert_eq!(Command::try_from(5), Ok(Command::Request));
    assert_eq!(Command::try_from(8), Ok(Command::Reply));
    assert_eq!(Command::try_from(12), Err(12)); // deprecated
}

#[test]
fn test_operation_try_from() {
    assert_eq!(Operation::try_from(2), Ok(Operation::Register));
    assert_eq!(Operation::try_from(138), Ok(Operation::CreateAccounts));
    assert_eq!(Operation::try_from(100), Err(100)); // unknown
}
