use tb_rs::{generate_accounts, generate_transfers, id};

#[test]
fn test_generate_accounts() {
    let accounts = generate_accounts(10, 1, 100);

    assert_eq!(accounts.len(), 10);
    for account in &accounts {
        assert_ne!(account.id, 0);
        assert_eq!(account.ledger, 1);
        assert_eq!(account.code, 100);
        assert!(account.flags.is_empty());
    }

    // Every id is unique.
    let mut ids: Vec<u128> = accounts.iter().map(|a| a.id).collect();
    ids.sort();
    ids.dedup();
    assert_eq!(ids.len(), 10);
}

#[test]
fn test_generate_transfers() {
    let account_ids: Vec<u128> = (1..=5).map(|i| i as u128).collect();
    let transfers = generate_transfers(20, &account_ids, 1, 50, 1000);

    assert_eq!(transfers.len(), 20);
    for transfer in &transfers {
        assert_ne!(transfer.id, 0);
        assert_eq!(transfer.ledger, 1);
        assert_eq!(transfer.code, 50);
        assert!(transfer.flags.is_empty());
        assert!(transfer.amount >= 1 && transfer.amount <= 1000);
        assert!(account_ids.contains(&transfer.debit_account_id));
        assert!(account_ids.contains(&transfer.credit_account_id));
        assert_ne!(transfer.debit_account_id, transfer.credit_account_id);
    }
}

#[test]
fn test_id_uniqueness() {
    let ids: Vec<u128> = (0..1000).map(|_| id()).collect();

    for (i, a) in ids.iter().enumerate() {
        assert_ne!(*a, 0);
        for b in &ids[..i] {
            assert_ne!(a, b);
        }
    }
}
