//! Client-side protocol library for a replicated financial ledger service.
//!
//! The crate covers the wire protocol (a fixed 256-byte header plus body,
//! authenticated by two MAC checksums), the multi-batch payload codec, the
//! session state machine with its hash-chained request stream, the retry and
//! hedging policy, receive-buffer management, and the ledger record types.

pub mod buffer;
pub mod checksum;
pub mod entropy;
pub mod error;
pub mod header;
pub mod message;
pub mod multi_batch;
pub mod operation;
pub mod session;
pub mod types;
pub mod wire;

use vstd::prelude::*;
use crate::types::{Account, AccountFlags, Transfer, TransferFlags};

verus! {

/// The identifier composed from a clock reading and a random draw: the
/// nanoseconds in the high 64 bits, the draw in the low 64, and one in
/// place of the all-zero value.
pub open spec fn spec_compose_id(timestamp_ns: u64, random: u64) -> u128 {
    if ((timestamp_ns as u128) << 64 | random as u128) == 0 {
        1u128
    } else {
        ((timestamp_ns as u128) << 64 | random as u128) as u128
    }
}

/// Compose an identifier from a clock reading and a random draw: the
/// nanoseconds fill the high 64 bits, so identifiers order by time; the
/// draw fills the low 64; the all-zero value is rejected in favour of one.
pub fn compose_id(timestamp_ns: u64, random: u64) -> (r: u128)
    ensures
        r == spec_compose_id(timestamp_ns, random),
        r != 0,
{
    let v: u128 = ((timestamp_ns as u128) << 64) | (random as u128);
    proof {
        assert(v == 0 ==> spec_compose_id(timestamp_ns, random) == 1u128);
    }
    if v != 0 {
        v
    } else {
        1
    }
}

/// Generate a unique 128-bit identifier: the Unix time in nanoseconds in
/// the high 64 bits and a random value in the low 64, so identifiers are
/// time-ordered; zero is rejected in favour of one.
pub fn id() -> (r: u128)
    ensures
        r != 0,
{
    let timestamp = crate::entropy::now_unix_ns();
    let random = crate::entropy::random_u64();
    compose_id(timestamp, random)
}

/// Generate a batch of fresh accounts on one ledger with one code: each
/// gets a fresh non-zero id, no flags, and zeroes everywhere else.
pub fn generate_accounts(count: u32, ledger: u32, code: u16) -> (r: Vec<Account>)
    ensures
        r@.len() == count,
        forall|i: int| 0 <= i < r@.len() ==> {
            let a = #[trigger] r@[i];
            &&& a.id != 0
            &&& a.ledger == ledger
            &&& a.code == code
            &&& a.flags@ == 0
            &&& a.debits_pending == 0 && a.debits_posted == 0
            &&& a.credits_pending == 0 && a.credits_posted == 0
            &&& a.user_data_128 == 0 && a.user_data_64 == 0 && a.user_data_32 == 0
            &&& a.reserved == 0 && a.timestamp == 0
        },
{
    let mut accounts: Vec<Account> = Vec::new();
    let mut i: u32 = 0;
    while i < count
        invariant
            i <= count,
            accounts@.len() == i,
            forall|k: int| 0 <= k < accounts@.len() ==> {
                let a = #[trigger] accounts@[k];
                &&& a.id != 0
                &&& a.ledger == ledger
                &&& a.code == code
                &&& a.flags@ == 0
                &&& a.debits_pending == 0 && a.debits_posted == 0
                &&& a.credits_pending == 0 && a.credits_posted == 0
                &&& a.user_data_128 == 0 && a.user_data_64 == 0 && a.user_data_32 == 0
                &&& a.reserved == 0 && a.timestamp == 0
            },
        decreases count - i,
    {
        let fresh_id = id();
        let account = Account {
            id: fresh_id,
            ledger,
            code,
            flags: AccountFlags::empty(),
            debits_pending: 0,
            debits_posted: 0,
            credits_pending: 0,
            credits_posted: 0,
            user_data_128: 0,
            user_data_64: 0,
            user_data_32: 0,
            reserved: 0,
            timestamp: 0,
        };
        accounts.push(account);
        i = i + 1;
    }
    accounts
}

/// Generate a batch of random transfers between the given accounts: each
/// gets a fresh non-zero id, an amount between one and the maximum, and
/// two distinct accounts drawn from the list.
pub fn generate_transfers(
    count: u32,
    account_ids: &Vec<u128>,
    ledger: u32,
    code: u16,
    max_amount: u128,
) -> (r: Vec<Transfer>)
    requires
        account_ids@.len() >= 2,
        account_ids@.len() <= u32::MAX,
        forall|i: int, j: int| 0 <= i < j < account_ids@.len()
            ==> account_ids@[i] != account_ids@[j],
        max_amount >= 1,
    ensures
        r@.len() == count,
        forall|i: int| 0 <= i < r@.len() ==> {
            let t = #[trigger] r@[i];
            &&& t.id != 0
            &&& t.ledger == ledger
            &&& t.code == code
            &&& t.flags@ == 0
            &&& 1 <= t.amount <= max_amount
            &&& account_ids@.contains(t.debit_account_id)
            &&& account_ids@.contains(t.credit_account_id)
            &&& t.debit_account_id != t.credit_account_id
            &&& t.pending_id == 0 && t.user_data_128 == 0 && t.user_data_64 == 0
            &&& t.user_data_32 == 0 && t.timeout == 0 && t.timestamp == 0
        },
{
    let n: u64 = account_ids.len() as u64;
    let mut transfers: Vec<Transfer> = Vec::new();
    let mut i: u32 = 0;
    while i < count
        invariant
            i <= count,
            transfers@.len() == i,
            n == account_ids@.len(),
            n >= 2,
            n <= usize::MAX,
            forall|a: int, b: int| 0 <= a < b < account_ids@.len()
                ==> account_ids@[a] != account_ids@[b],
            forall|k: int| 0 <= k < transfers@.len() ==> {
                let t = #[trigger] transfers@[k];
                &&& t.id != 0
                &&& t.ledger == ledger
                &&& t.code == code
                &&& t.flags@ == 0
                &&& 1 <= t.amount <= max_amount
                &&& account_ids@.contains(t.debit_account_id)
                &&& account_ids@.contains(t.credit_account_id)
                &&& t.debit_account_id != t.credit_account_id
                &&& t.pending_id == 0 && t.user_data_128 == 0 && t.user_data_64 == 0
                &&& t.user_data_32 == 0 && t.timeout == 0 && t.timestamp == 0
            },
            max_amount >= 1,
        decreases count - i,
    {
        let debit_idx = crate::entropy::random_range_u64(0, n);
        // Draw the credit index from one fewer slot and step over the
        // debit index, so the two accounts always differ.
        let credit_draw = crate::entropy::random_range_u64(0, n - 1);
        let credit_idx = if credit_draw >= debit_idx {
            credit_draw + 1
        } else {
            credit_draw
        };
        let debit_account_id = account_ids[debit_idx as usize];
        let credit_account_id = account_ids[credit_idx as usize];
        proof {
            assert(account_ids@[debit_idx as int] == debit_account_id);
            assert(account_ids@[credit_idx as int] == credit_account_id);
            assert(debit_idx != credit_idx);
            assert(debit_account_id != credit_account_id) by {
                if debit_idx < credit_idx {
                    assert(account_ids@[debit_idx as int] != account_ids@[credit_idx as int]);
                } else {
                    assert(account_ids@[credit_idx as int] != account_ids@[debit_idx as int]);
                }
            }
            assert(account_ids@.contains(debit_account_id));
            assert(account_ids@.contains(credit_account_id));
        }
        let amount = crate::entropy::random_range_inclusive_u128(1, max_amount);
        let fresh_id = id();
        let transfer = Transfer {
            id: fresh_id,
            debit_account_id,
            credit_account_id,
            amount,
            pending_id: 0,
            user_data_128: 0,
            user_data_64: 0,
            user_data_32: 0,
            timeout: 0,
            ledger,
            code,
            flags: TransferFlags::empty(),
            timestamp: 0,
        };
        transfers.push(transfer);
        i = i + 1;
    }
    transfers
}

} // verus!
