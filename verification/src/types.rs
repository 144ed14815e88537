//! Ledger record types, laid out exactly as the server reads them on the
//! wire (little-endian, fixed sizes).

use vstd::prelude::*;
use vstd::bytes::*;
use crate::wire::{
    le_facts, lemma_concat_map_of_chunks, lemma_concat_map_push, put_bytes, put_u128, put_u16,
    put_u32, put_u64, put_zeros, spec_concat_map, get_u128, get_u16, get_u32, get_u64, zeros,
};

verus! {

/// Account flag: link this account with the next in a chain.
pub const ACCOUNT_FLAG_LINKED: u16 = 0x1;

/// Account flag: debits must not exceed credits.
pub const ACCOUNT_FLAG_DEBITS_MUST_NOT_EXCEED_CREDITS: u16 = 0x2;

/// Account flag: credits must not exceed debits.
pub const ACCOUNT_FLAG_CREDITS_MUST_NOT_EXCEED_DEBITS: u16 = 0x4;

/// Account flag: keep balance history for this account.
pub const ACCOUNT_FLAG_HISTORY: u16 = 0x8;

/// Account flag: the account is imported from another system.
pub const ACCOUNT_FLAG_IMPORTED: u16 = 0x10;

/// Account flag: the account is closed.
pub const ACCOUNT_FLAG_CLOSED: u16 = 0x20;

/// Flags of an account, as the 16-bit field the wire carries.
#[derive(Clone, Copy, Debug, PartialEq, Eq, Structural)]
pub struct AccountFlags {
    bits: u16,
}

impl AccountFlags {
    /// The raw 16-bit value.
    pub closed spec fn view(&self) -> u16 {
        self.bits
    }

    /// No flags set.
    pub fn empty() -> (r: Self)
        ensures
            r@ == 0,
    {
        AccountFlags { bits: 0 }
    }

    /// The flags with exactly the given bits set.
    pub fn from_bits(bits: u16) -> (r: Self)
        ensures
            r@ == bits,
    {
        AccountFlags { bits }
    }

    /// The raw 16-bit value.
    pub fn bits(&self) -> (r: u16)
        ensures
            r == self@,
    {
        self.bits
    }

    /// Whether no flag is set.
    pub fn is_empty(&self) -> (r: bool)
        ensures
            r == (self@ == 0),
    {
        self.bits == 0
    }
}

impl Default for AccountFlags {
    /// No flags set.
    fn default() -> (r: Self)
        ensures
            r@ == 0,
    {
        AccountFlags { bits: 0 }
    }
}

/// Transfer flag: link this transfer with the next in a chain.
pub const TRANSFER_FLAG_LINKED: u16 = 0x1;

/// Transfer flag: create a pending (two-phase) transfer.
pub const TRANSFER_FLAG_PENDING: u16 = 0x2;

/// Transfer flag: post a pending transfer.
pub const TRANSFER_FLAG_POST_PENDING_TRANSFER: u16 = 0x4;

/// Transfer flag: void a pending transfer.
pub const TRANSFER_FLAG_VOID_PENDING_TRANSFER: u16 = 0x8;

/// Transfer flag: balance the debit side.
pub const TRANSFER_FLAG_BALANCING_DEBIT: u16 = 0x10;

/// Transfer flag: balance the credit side.
pub const TRANSFER_FLAG_BALANCING_CREDIT: u16 = 0x20;

/// Transfer flag: close the debit account after this transfer.
pub const TRANSFER_FLAG_CLOSING_DEBIT: u16 = 0x40;

/// Transfer flag: close the credit account after this transfer.
pub const TRANSFER_FLAG_CLOSING_CREDIT: u16 = 0x80;

/// Transfer flag: the transfer is imported from another system.
pub const TRANSFER_FLAG_IMPORTED: u16 = 0x100;

/// Flags of a transfer, as the 16-bit field the wire carries.
#[derive(Clone, Copy, Debug, PartialEq, Eq, Structural)]
pub struct TransferFlags {
    bits: u16,
}

impl TransferFlags {
    /// The raw 16-bit value.
    pub closed spec fn view(&self) -> u16 {
        self.bits
    }

    /// No flags set.
    pub fn empty() -> (r: Self)
        ensures
            r@ == 0,
    {
        TransferFlags { bits: 0 }
    }

    /// The flags with exactly the given bits set.
    pub fn from_bits(bits: u16) -> (r: Self)
        ensures
            r@ == bits,
    {
        TransferFlags { bits }
    }

    /// The raw 16-bit value.
    pub fn bits(&self) -> (r: u16)
        ensures
            r == self@,
    {
        self.bits
    }

    /// Whether no flag is set.
    pub fn is_empty(&self) -> (r: bool)
        ensures
            r == (self@ == 0),
    {
        self.bits == 0
    }
}

impl Default for TransferFlags {
    /// No flags set.
    fn default() -> (r: Self)
        ensures
            r@ == 0,
    {
        TransferFlags { bits: 0 }
    }
}

/// An account record (128 bytes on the wire).
#[derive(Clone, Copy, Debug, PartialEq, Eq, Structural)]
pub struct Account {
    /// Unique identifier of the account.
    pub id: u128,
    /// Sum of pending debit transfers.
    pub debits_pending: u128,
    /// Sum of posted debit transfers.
    pub debits_posted: u128,
    /// Sum of pending credit transfers.
    pub credits_pending: u128,
    /// Sum of posted credit transfers.
    pub credits_posted: u128,
    /// Opaque user data (128-bit indexed).
    pub user_data_128: u128,
    /// Opaque user data (64-bit indexed).
    pub user_data_64: u64,
    /// Opaque user data (32-bit indexed).
    pub user_data_32: u32,
    /// Reserved; must be zero on send.
    pub reserved: u32,
    /// The ledger this account belongs to.
    pub ledger: u32,
    /// Chart-of-accounts code describing the account type.
    pub code: u16,
    /// Account flags.
    pub flags: AccountFlags,
    /// Creation time, assigned by the server; must be zero on send.
    pub timestamp: u64,
}

/// The 128 bytes an account occupies on the wire.
pub open spec fn spec_account_bytes(a: Account) -> Seq<u8> {
    spec_u128_to_le_bytes(a.id) + spec_u128_to_le_bytes(a.debits_pending)
        + spec_u128_to_le_bytes(a.debits_posted) + spec_u128_to_le_bytes(a.credits_pending)
        + spec_u128_to_le_bytes(a.credits_posted) + spec_u128_to_le_bytes(a.user_data_128)
        + spec_u64_to_le_bytes(a.user_data_64) + spec_u32_to_le_bytes(a.user_data_32)
        + spec_u32_to_le_bytes(a.reserved) + spec_u32_to_le_bytes(a.ledger)
        + spec_u16_to_le_bytes(a.code) + spec_u16_to_le_bytes(a.flags@)
        + spec_u64_to_le_bytes(a.timestamp)
}

impl Account {
    /// Serialize into the 128-byte wire form.
    pub fn to_bytes(&self) -> (r: Vec<u8>)
        ensures
            r@ == spec_account_bytes(*self),
            r@.len() == 128,
    {
        proof {
            le_facts();
        }
        let mut buf: Vec<u8> = Vec::new();
        put_u128(&mut buf, self.id);
        put_u128(&mut buf, self.debits_pending);
        put_u128(&mut buf, self.debits_posted);
        put_u128(&mut buf, self.credits_pending);
        put_u128(&mut buf, self.credits_posted);
        put_u128(&mut buf, self.user_data_128);
        put_u64(&mut buf, self.user_data_64);
        put_u32(&mut buf, self.user_data_32);
        put_u32(&mut buf, self.reserved);
        put_u32(&mut buf, self.ledger);
        put_u16(&mut buf, self.code);
        put_u16(&mut buf, self.flags.bits());
        put_u64(&mut buf, self.timestamp);
        buf
    }

    /// Parse the 128-byte wire form.
    pub fn from_bytes(s: &[u8]) -> (r: Account)
        requires
            s@.len() == 128,
        ensures
            spec_account_bytes(r) == s@,
    {
        proof {
            le_facts();
        }
        let r = Account {
            id: get_u128(s, 0),
            debits_pending: get_u128(s, 16),
            debits_posted: get_u128(s, 32),
            credits_pending: get_u128(s, 48),
            credits_posted: get_u128(s, 64),
            user_data_128: get_u128(s, 80),
            user_data_64: get_u64(s, 96),
            user_data_32: get_u32(s, 104),
            reserved: get_u32(s, 108),
            ledger: get_u32(s, 112),
            code: get_u16(s, 116),
            flags: AccountFlags::from_bits(get_u16(s, 118)),
            timestamp: get_u64(s, 120),
        };
        proof {
            assert(spec_account_bytes(r) =~= s@);
        }
        r
    }
}

impl Default for Account {
    /// An account with every field zero.
    fn default() -> (r: Self)
        ensures
            r.id == 0 && r.debits_pending == 0 && r.debits_posted == 0
                && r.credits_pending == 0 && r.credits_posted == 0
                && r.user_data_128 == 0 && r.user_data_64 == 0 && r.user_data_32 == 0
                && r.reserved == 0 && r.ledger == 0 && r.code == 0 && r.flags@ == 0
                && r.timestamp == 0,
    {
        Account {
            id: 0,
            debits_pending: 0,
            debits_posted: 0,
            credits_pending: 0,
            credits_posted: 0,
            user_data_128: 0,
            user_data_64: 0,
            user_data_32: 0,
            reserved: 0,
            ledger: 0,
            code: 0,
            flags: AccountFlags::empty(),
            timestamp: 0,
        }
    }
}

/// A transfer record (128 bytes on the wire).
#[derive(Clone, Copy, Debug, PartialEq, Eq, Structural)]
pub struct Transfer {
    /// Unique identifier of the transfer.
    pub id: u128,
    /// Account to debit.
    pub debit_account_id: u128,
    /// Account to credit.
    pub credit_account_id: u128,
    /// Amount to move.
    pub amount: u128,
    /// Pending transfer to post or void (zero when not applicable).
    pub pending_id: u128,
    /// Opaque user data (128-bit indexed).
    pub user_data_128: u128,
    /// Opaque user data (64-bit indexed).
    pub user_data_64: u64,
    /// Opaque user data (32-bit indexed).
    pub user_data_32: u32,
    /// Timeout in seconds for pending transfers.
    pub timeout: u32,
    /// The ledger this transfer operates on.
    pub ledger: u32,
    /// Chart-of-accounts code describing the transfer type.
    pub code: u16,
    /// Transfer flags.
    pub flags: TransferFlags,
    /// Creation time, assigned by the server; must be zero on send.
    pub timestamp: u64,
}

/// The 128 bytes a transfer occupies on the wire.
pub open spec fn spec_transfer_bytes(t: Transfer) -> Seq<u8> {
    spec_u128_to_le_bytes(t.id) + spec_u128_to_le_bytes(t.debit_account_id)
        + spec_u128_to_le_bytes(t.credit_account_id) + spec_u128_to_le_bytes(t.amount)
        + spec_u128_to_le_bytes(t.pending_id) + spec_u128_to_le_bytes(t.user_data_128)
        + spec_u64_to_le_bytes(t.user_data_64) + spec_u32_to_le_bytes(t.user_data_32)
        + spec_u32_to_le_bytes(t.timeout) + spec_u32_to_le_bytes(t.ledger)
        + spec_u16_to_le_bytes(t.code) + spec_u16_to_le_bytes(t.flags@)
        + spec_u64_to_le_bytes(t.timestamp)
}

impl Transfer {
    /// Serialize into the 128-byte wire form.
    pub fn to_bytes(&self) -> (r: Vec<u8>)
        ensures
            r@ == spec_transfer_bytes(*self),
            r@.len() == 128,
    {
        proof {
            le_facts();
        }
        let mut buf: Vec<u8> = Vec::new();
        put_u128(&mut buf, self.id);
        put_u128(&mut buf, self.debit_account_id);
        put_u128(&mut buf, self.credit_account_id);
        put_u128(&mut buf, self.amount);
        put_u128(&mut buf, self.pending_id);
        put_u128(&mut buf, self.user_data_128);
        put_u64(&mut buf, self.user_data_64);
        put_u32(&mut buf, self.user_data_32);
        put_u32(&mut buf, self.timeout);
        put_u32(&mut buf, self.ledger);
        put_u16(&mut buf, self.code);
        put_u16(&mut buf, self.flags.bits());
        put_u64(&mut buf, self.timestamp);
        buf
    }

    /// Parse the 128-byte wire form.
    pub fn from_bytes(s: &[u8]) -> (r: Transfer)
        requires
            s@.len() == 128,
        ensures
            spec_transfer_bytes(r) == s@,
    {
        proof {
            le_facts();
        }
        let r = Transfer {
            id: get_u128(s, 0),
            debit_account_id: get_u128(s, 16),
            credit_account_id: get_u128(s, 32),
            amount: get_u128(s, 48),
            pending_id: get_u128(s, 64),
            user_data_128: get_u128(s, 80),
            user_data_64: get_u64(s, 96),
            user_data_32: get_u32(s, 104),
            timeout: get_u32(s, 108),
            ledger: get_u32(s, 112),
            code: get_u16(s, 116),
            flags: TransferFlags::from_bits(get_u16(s, 118)),
            timestamp: get_u64(s, 120),
        };
        proof {
            assert(spec_transfer_bytes(r) =~= s@);
        }
        r
    }
}

impl Default for Transfer {
    /// A transfer with every field zero.
    fn default() -> (r: Self)
        ensures
            r.id == 0 && r.debit_account_id == 0 && r.credit_account_id == 0
                && r.amount == 0 && r.pending_id == 0 && r.user_data_128 == 0
                && r.user_data_64 == 0 && r.user_data_32 == 0 && r.timeout == 0
                && r.ledger == 0 && r.code == 0 && r.flags@ == 0 && r.timestamp == 0,
    {
        Transfer {
            id: 0,
            debit_account_id: 0,
            credit_account_id: 0,
            amount: 0,
            pending_id: 0,
            user_data_128: 0,
            user_data_64: 0,
            user_data_32: 0,
            timeout: 0,
            ledger: 0,
            code: 0,
            flags: TransferFlags::empty(),
            timestamp: 0,
        }
    }
}

/// The concatenated wire form of a batch of accounts.
pub open spec fn spec_accounts_bytes(s: Seq<Account>) -> Seq<u8> {
    spec_concat_map(s, |a: Account| spec_account_bytes(a))
}

/// The concatenated wire form of a batch of transfers.
pub open spec fn spec_transfers_bytes(s: Seq<Transfer>) -> Seq<u8> {
    spec_concat_map(s, |t: Transfer| spec_transfer_bytes(t))
}

/// The concatenated wire form of a batch of 128-bit identifiers.
pub open spec fn spec_ids_bytes(s: Seq<u128>) -> Seq<u8> {
    spec_concat_map(s, |x: u128| spec_u128_to_le_bytes(x))
}

/// Serialize a batch of accounts, in order.
pub fn accounts_to_bytes(accounts: &Vec<Account>) -> (r: Vec<u8>)
    ensures
        r@ == spec_accounts_bytes(accounts@),
        r@.len() == 128 * accounts@.len(),
{
    let f = Ghost(|a: Account| spec_account_bytes(a));
    let mut buf: Vec<u8> = Vec::new();
    let mut i: usize = 0;
    while i < accounts.len()
        invariant
            i <= accounts@.len(),
            buf@ == spec_concat_map(accounts@.take(i as int), f@),
            buf@.len() == 128 * i,
            f@ == (|a: Account| spec_account_bytes(a)),
        decreases accounts@.len() - i,
    {
        let bytes = accounts[i].to_bytes();
        put_bytes(&mut buf, bytes.as_slice());
        proof {
            lemma_concat_map_push(accounts@.take(i as int), f@, accounts@[i as int]);
            assert(accounts@.take(i as int).push(accounts@[i as int]) =~= accounts@.take(i + 1));
        }
        i = i + 1;
    }
    proof {
        assert(accounts@.take(accounts@.len() as int) =~= accounts@);
    }
    buf
}

/// Serialize a batch of transfers, in order.
pub fn transfers_to_bytes(transfers: &Vec<Transfer>) -> (r: Vec<u8>)
    ensures
        r@ == spec_transfers_bytes(transfers@),
        r@.len() == 128 * transfers@.len(),
{
    let f = Ghost(|t: Transfer| spec_transfer_bytes(t));
    let mut buf: Vec<u8> = Vec::new();
    let mut i: usize = 0;
    while i < transfers.len()
        invariant
            i <= transfers@.len(),
            buf@ == spec_concat_map(transfers@.take(i as int), f@),
            buf@.len() == 128 * i,
            f@ == (|t: Transfer| spec_transfer_bytes(t)),
        decreases transfers@.len() - i,
    {
        let bytes = transfers[i].to_bytes();
        put_bytes(&mut buf, bytes.as_slice());
        proof {
            lemma_concat_map_push(transfers@.take(i as int), f@, transfers@[i as int]);
            assert(transfers@.take(i as int).push(transfers@[i as int]) =~= transfers@.take(i + 1));
        }
        i = i + 1;
    }
    proof {
        assert(transfers@.take(transfers@.len() as int) =~= transfers@);
    }
    buf
}

/// Serialize a batch of 128-bit identifiers, in order.
pub fn ids_to_bytes(ids: &Vec<u128>) -> (r: Vec<u8>)
    ensures
        r@ == spec_ids_bytes(ids@),
        r@.len() == 16 * ids@.len(),
{
    proof {
        le_facts();
    }
    let f = Ghost(|x: u128| spec_u128_to_le_bytes(x));
    let mut buf: Vec<u8> = Vec::new();
    let mut i: usize = 0;
    while i < ids.len()
        invariant
            i <= ids@.len(),
            buf@ == spec_concat_map(ids@.take(i as int), f@),
            buf@.len() == 16 * i,
            f@ == (|x: u128| spec_u128_to_le_bytes(x)),
        decreases ids@.len() - i,
    {
        put_u128(&mut buf, ids[i]);
        proof {
            le_facts();
            lemma_concat_map_push(ids@.take(i as int), f@, ids@[i as int]);
            assert(ids@.take(i as int).push(ids@[i as int]) =~= ids@.take(i + 1));
        }
        i = i + 1;
    }
    proof {
        assert(ids@.take(ids@.len() as int) =~= ids@);
    }
    buf
}

/// Parse a received batch of accounts; the length must divide evenly into
/// 128-byte records, else a trailing partial element is reported as `None`.
pub fn parse_accounts(data: &[u8]) -> (r: Option<Vec<Account>>)
    ensures
        r is Some <==> data@.len() % 128 == 0,
        r matches Some(v) ==> {
            &&& v@.len() == data@.len() / 128
            &&& spec_accounts_bytes(v@) == data@
        },
{
    let len: usize = data.len();
    if len % 128 != 0 {
        return None;
    }
    let f = Ghost(|a: Account| spec_account_bytes(a));
    let count: usize = len / 128;
    let mut v: Vec<Account> = Vec::new();
    let mut i: usize = 0;
    while i < count
        invariant
            i <= count,
            count == data@.len() / 128,
            data@.len() % 128 == 0,
            data@.len() == 128 * count,
            data@.len() <= usize::MAX,
            v@.len() == i,
            forall|k: int| 0 <= k < i ==> f@(v@[k]) == data@.subrange(128 * k, 128 * (k + 1)),
            f@ == (|a: Account| spec_account_bytes(a)),
        decreases count - i,
    {
        proof {
            assert(i * 128 + 128 <= 128 * count) by (nonlinear_arith)
                requires i < count;
        }
        let chunk = vstd::slice::slice_subrange(data, i * 128, i * 128 + 128);
        let a = Account::from_bytes(chunk);
        v.push(a);
        i = i + 1;
    }
    proof {
        lemma_concat_map_of_chunks(v@, f@, data@, 128);
    }
    Some(v)
}

/// Parse a received batch of transfers; `None` on a partial trailing element.
pub fn parse_transfers(data: &[u8]) -> (r: Option<Vec<Transfer>>)
    ensures
        r is Some <==> data@.len() % 128 == 0,
        r matches Some(v) ==> {
            &&& v@.len() == data@.len() / 128
            &&& spec_transfers_bytes(v@) == data@
        },
{
    let len: usize = data.len();
    if len % 128 != 0 {
        return None;
    }
    let f = Ghost(|t: Transfer| spec_transfer_bytes(t));
    let count: usize = len / 128;
    let mut v: Vec<Transfer> = Vec::new();
    let mut i: usize = 0;
    while i < count
        invariant
            i <= count,
            count == data@.len() / 128,
            data@.len() % 128 == 0,
            data@.len() == 128 * count,
            data@.len() <= usize::MAX,
            v@.len() == i,
            forall|k: int| 0 <= k < i ==> f@(v@[k]) == data@.subrange(128 * k, 128 * (k + 1)),
            f@ == (|t: Transfer| spec_transfer_bytes(t)),
        decreases count - i,
    {
        proof {
            assert(i * 128 + 128 <= 128 * count) by (nonlinear_arith)
                requires i < count;
        }
        let chunk = vstd::slice::slice_subrange(data, i * 128, i * 128 + 128);
        let t = Transfer::from_bytes(chunk);
        v.push(t);
        i = i + 1;
    }
    proof {
        lemma_concat_map_of_chunks(v@, f@, data@, 128);
    }
    Some(v)
}

/// A point-in-time balance of an account (128 bytes on the wire; the last
/// 56 bytes are reserved and zero).
#[derive(Clone, Copy, Debug, PartialEq, Eq, Structural)]
pub struct AccountBalance {
    /// Pending debits at this timestamp.
    pub debits_pending: u128,
    /// Posted debits at this timestamp.
    pub debits_posted: u128,
    /// Pending credits at this timestamp.
    pub credits_pending: u128,
    /// Posted credits at this timestamp.
    pub credits_posted: u128,
    /// Timestamp of this balance snapshot.
    pub timestamp: u64,
}

/// The 128 bytes a balance occupies on the wire, reserved bytes zero.
pub open spec fn spec_account_balance_bytes(b: AccountBalance) -> Seq<u8> {
    spec_u128_to_le_bytes(b.debits_pending) + spec_u128_to_le_bytes(b.debits_posted)
        + spec_u128_to_le_bytes(b.credits_pending) + spec_u128_to_le_bytes(b.credits_posted)
        + spec_u64_to_le_bytes(b.timestamp) + zeros(56)
}

/// The balance whose fields a 128-byte wire record carries.
pub open spec fn spec_parse_account_balance(s: Seq<u8>) -> AccountBalance {
    AccountBalance {
        debits_pending: spec_u128_from_le_bytes(s.subrange(0, 16)),
        debits_posted: spec_u128_from_le_bytes(s.subrange(16, 32)),
        credits_pending: spec_u128_from_le_bytes(s.subrange(32, 48)),
        credits_posted: spec_u128_from_le_bytes(s.subrange(48, 64)),
        timestamp: spec_u64_from_le_bytes(s.subrange(64, 72)),
    }
}

impl AccountBalance {
    /// Serialize into the 128-byte wire form.
    pub fn to_bytes(&self) -> (r: Vec<u8>)
        ensures
            r@ == spec_account_balance_bytes(*self),
            r@.len() == 128,
    {
        proof {
            le_facts();
        }
        let mut buf: Vec<u8> = Vec::new();
        put_u128(&mut buf, self.debits_pending);
        put_u128(&mut buf, self.debits_posted);
        put_u128(&mut buf, self.credits_pending);
        put_u128(&mut buf, self.credits_posted);
        put_u64(&mut buf, self.timestamp);
        put_zeros(&mut buf, 56);
        buf
    }

    /// Parse the named fields of the 128-byte wire form; the reserved run
    /// is ignored.
    pub fn from_bytes(s: &[u8]) -> (r: AccountBalance)
        requires
            s@.len() == 128,
        ensures
            r == spec_parse_account_balance(s@),
    {
        AccountBalance {
            debits_pending: get_u128(s, 0),
            debits_posted: get_u128(s, 16),
            credits_pending: get_u128(s, 32),
            credits_posted: get_u128(s, 48),
            timestamp: get_u64(s, 64),
        }
    }
}

impl Default for AccountBalance {
    /// A balance with every field zero.
    fn default() -> (r: Self)
        ensures
            r.debits_pending == 0 && r.debits_posted == 0 && r.credits_pending == 0
                && r.credits_posted == 0 && r.timestamp == 0,
    {
        AccountBalance {
            debits_pending: 0,
            debits_posted: 0,
            credits_pending: 0,
            credits_posted: 0,
            timestamp: 0,
        }
    }
}

/// Account-filter flag: include debit transfers.
pub const ACCOUNT_FILTER_FLAG_DEBITS: u32 = 0x1;

/// Account-filter flag: include credit transfers.
pub const ACCOUNT_FILTER_FLAG_CREDITS: u32 = 0x2;

/// Account-filter flag: return results newest first.
pub const ACCOUNT_FILTER_FLAG_REVERSED: u32 = 0x4;

/// Flags of an account filter, as the 32-bit field the wire carries.
#[derive(Clone, Copy, Debug, PartialEq, Eq, Structural)]
pub struct AccountFilterFlags {
    bits: u32,
}

impl AccountFilterFlags {
    /// The raw 32-bit value.
    pub closed spec fn view(&self) -> u32 {
        self.bits
    }

    /// No flags set.
    pub fn empty() -> (r: Self)
        ensures
            r@ == 0,
    {
        AccountFilterFlags { bits: 0 }
    }

    /// The flags with exactly the given bits set.
    pub fn from_bits(bits: u32) -> (r: Self)
        ensures
            r@ == bits,
    {
        AccountFilterFlags { bits }
    }

    /// The raw 32-bit value.
    pub fn bits(&self) -> (r: u32)
        ensures
            r == self@,
    {
        self.bits
    }
}

impl Default for AccountFilterFlags {
    /// No flags set.
    fn default() -> (r: Self)
        ensures
            r@ == 0,
    {
        AccountFilterFlags { bits: 0 }
    }
}

/// Query-filter flag: return results newest first.
pub const QUERY_FILTER_FLAG_REVERSED: u32 = 0x1;

/// Flags of a query filter, as the 32-bit field the wire carries.
#[derive(Clone, Copy, Debug, PartialEq, Eq, Structural)]
pub struct QueryFilterFlags {
    bits: u32,
}

impl QueryFilterFlags {
    /// The raw 32-bit value.
    pub closed spec fn view(&self) -> u32 {
        self.bits
    }

    /// No flags set.
    pub fn empty() -> (r: Self)
        ensures
            r@ == 0,
    {
        QueryFilterFlags { bits: 0 }
    }

    /// The flags with exactly the given bits set.
    pub fn from_bits(bits: u32) -> (r: Self)
        ensures
            r@ == bits,
    {
        QueryFilterFlags { bits }
    }

    /// The raw 32-bit value.
    pub fn bits(&self) -> (r: u32)
        ensures
            r == self@,
    {
        self.bits
    }
}

impl Default for QueryFilterFlags {
    /// No flags set.
    fn default() -> (r: Self)
        ensures
            r@ == 0,
    {
        QueryFilterFlags { bits: 0 }
    }
}

/// Filter for the account-scoped queries (128 bytes on the wire; a 58-byte
/// reserved run sits between `code` and `timestamp_min`).
#[derive(Clone, Copy, Debug, PartialEq, Eq, Structural)]
pub struct AccountFilter {
    /// Account to query.
    pub account_id: u128,
    /// Filter by `user_data_128` (zero for no filter).
    pub user_data_128: u128,
    /// Filter by `user_data_64` (zero for no filter).
    pub user_data_64: u64,
    /// Filter by `user_data_32` (zero for no filter).
    pub user_data_32: u32,
    /// Filter by code (zero for no filter).
    pub code: u16,
    /// Earliest timestamp, inclusive (zero for no bound).
    pub timestamp_min: u64,
    /// Latest timestamp, inclusive (zero for no bound).
    pub timestamp_max: u64,
    /// Greatest number of results to return.
    pub limit: u32,
    /// Query flags.
    pub flags: AccountFilterFlags,
}

/// The 128 bytes an account filter occupies on the wire.
pub open spec fn spec_account_filter_bytes(f: AccountFilter) -> Seq<u8> {
    spec_u128_to_le_bytes(f.account_id) + spec_u128_to_le_bytes(f.user_data_128)
        + spec_u64_to_le_bytes(f.user_data_64) + spec_u32_to_le_bytes(f.user_data_32)
        + spec_u16_to_le_bytes(f.code) + zeros(58) + spec_u64_to_le_bytes(f.timestamp_min)
        + spec_u64_to_le_bytes(f.timestamp_max) + spec_u32_to_le_bytes(f.limit)
        + spec_u32_to_le_bytes(f.flags@)
}

impl AccountFilter {
    /// Serialize into the 128-byte wire form.
    pub fn to_bytes(&self) -> (r: Vec<u8>)
        ensures
            r@ == spec_account_filter_bytes(*self),
            r@.len() == 128,
    {
        proof {
            le_facts();
        }
        let mut buf: Vec<u8> = Vec::new();
        put_u128(&mut buf, self.account_id);
        put_u128(&mut buf, self.user_data_128);
        put_u64(&mut buf, self.user_data_64);
        put_u32(&mut buf, self.user_data_32);
        put_u16(&mut buf, self.code);
        put_zeros(&mut buf, 58);
        put_u64(&mut buf, self.timestamp_min);
        put_u64(&mut buf, self.timestamp_max);
        put_u32(&mut buf, self.limit);
        put_u32(&mut buf, self.flags.bits());
        buf
    }
}

impl Default for AccountFilter {
    /// A filter with every field zero.
    fn default() -> (r: Self)
        ensures
            r.account_id == 0 && r.user_data_128 == 0 && r.user_data_64 == 0
                && r.user_data_32 == 0 && r.code == 0 && r.timestamp_min == 0
                && r.timestamp_max == 0 && r.limit == 0 && r.flags@ == 0,
    {
        AccountFilter {
            account_id: 0,
            user_data_128: 0,
            user_data_64: 0,
            user_data_32: 0,
            code: 0,
            timestamp_min: 0,
            timestamp_max: 0,
            limit: 0,
            flags: AccountFilterFlags::empty(),
        }
    }
}

/// Filter for the ledger-wide queries (64 bytes on the wire; a 6-byte
/// reserved run sits between `code` and `timestamp_min`).
#[derive(Clone, Copy, Debug, PartialEq, Eq, Structural)]
pub struct QueryFilter {
    /// Filter by `user_data_128` (zero for no filter).
    pub user_data_128: u128,
    /// Filter by `user_data_64` (zero for no filter).
    pub user_data_64: u64,
    /// Filter by `user_data_32` (zero for no filter).
    pub user_data_32: u32,
    /// Filter by ledger (zero for no filter).
    pub ledger: u32,
    /// Filter by code (zero for no filter).
    pub code: u16,
    /// Earliest timestamp, inclusive (zero for no bound).
    pub timestamp_min: u64,
    /// Latest timestamp, inclusive (zero for no bound).
    pub timestamp_max: u64,
    /// Greatest number of results to return.
    pub limit: u32,
    /// Query flags.
    pub flags: QueryFilterFlags,
}

/// The 64 bytes a query filter occupies on the wire.
pub open spec fn spec_query_filter_bytes(f: QueryFilter) -> Seq<u8> {
    spec_u128_to_le_bytes(f.user_data_128) + spec_u64_to_le_bytes(f.user_data_64)
        + spec_u32_to_le_bytes(f.user_data_32) + spec_u32_to_le_bytes(f.ledger)
        + spec_u16_to_le_bytes(f.code) + zeros(6) + spec_u64_to_le_bytes(f.timestamp_min)
        + spec_u64_to_le_bytes(f.timestamp_max) + spec_u32_to_le_bytes(f.limit)
        + spec_u32_to_le_bytes(f.flags@)
}

impl QueryFilter {
    /// Serialize into the 64-byte wire form.
    pub fn to_bytes(&self) -> (r: Vec<u8>)
        ensures
            r@ == spec_query_filter_bytes(*self),
            r@.len() == 64,
    {
        proof {
            le_facts();
        }
        let mut buf: Vec<u8> = Vec::new();
        put_u128(&mut buf, self.user_data_128);
        put_u64(&mut buf, self.user_data_64);
        put_u32(&mut buf, self.user_data_32);
        put_u32(&mut buf, self.ledger);
        put_u16(&mut buf, self.code);
        put_zeros(&mut buf, 6);
        put_u64(&mut buf, self.timestamp_min);
        put_u64(&mut buf, self.timestamp_max);
        put_u32(&mut buf, self.limit);
        put_u32(&mut buf, self.flags.bits());
        buf
    }
}

impl Default for QueryFilter {
    /// A filter with every field zero.
    fn default() -> (r: Self)
        ensures
            r.user_data_128 == 0 && r.user_data_64 == 0 && r.user_data_32 == 0
                && r.ledger == 0 && r.code == 0 && r.timestamp_min == 0
                && r.timestamp_max == 0 && r.limit == 0 && r.flags@ == 0,
    {
        QueryFilter {
            user_data_128: 0,
            user_data_64: 0,
            user_data_32: 0,
            ledger: 0,
            code: 0,
            timestamp_min: 0,
            timestamp_max: 0,
            limit: 0,
            flags: QueryFilterFlags::empty(),
        }
    }
}

/// One failure from a create-accounts batch (8 bytes on the wire): the index
/// of the failed account and the raw result code (see `CreateAccountResult`).
#[derive(Clone, Copy, Debug, PartialEq, Eq, Structural)]
pub struct CreateAccountsResult {
    /// Index of the account in the request batch.
    pub index: u32,
    /// Raw result code for this account.
    pub result: u32,
}

/// The 8 bytes a create-accounts result occupies on the wire.
pub open spec fn spec_create_accounts_result_bytes(r: CreateAccountsResult) -> Seq<u8> {
    spec_u32_to_le_bytes(r.index) + spec_u32_to_le_bytes(r.result)
}

impl CreateAccountsResult {
    /// Serialize into the 8-byte wire form.
    pub fn to_bytes(&self) -> (r: Vec<u8>)
        ensures
            r@ == spec_create_accounts_result_bytes(*self),
            r@.len() == 8,
    {
        proof {
            le_facts();
        }
        let mut buf: Vec<u8> = Vec::new();
        put_u32(&mut buf, self.index);
        put_u32(&mut buf, self.result);
        buf
    }

    /// Parse the 8-byte wire form.
    pub fn from_bytes(s: &[u8]) -> (r: CreateAccountsResult)
        requires
            s@.len() == 8,
        ensures
            spec_create_accounts_result_bytes(r) == s@,
    {
        proof {
            le_facts();
        }
        let r = CreateAccountsResult { index: get_u32(s, 0), result: get_u32(s, 4) };
        proof {
            assert(spec_create_accounts_result_bytes(r) =~= s@);
        }
        r
    }
}

/// One failure from a create-transfers batch (8 bytes on the wire): the
/// index of the failed transfer and the raw result code (see
/// `CreateTransferResult`).
#[derive(Clone, Copy, Debug, PartialEq, Eq, Structural)]
pub struct CreateTransfersResult {
    /// Index of the transfer in the request batch.
    pub index: u32,
    /// Raw result code for this transfer.
    pub result: u32,
}

/// The 8 bytes a create-transfers result occupies on the wire.
pub open spec fn spec_create_transfers_result_bytes(r: CreateTransfersResult) -> Seq<u8> {
    spec_u32_to_le_bytes(r.index) + spec_u32_to_le_bytes(r.result)
}

impl CreateTransfersResult {
    /// Serialize into the 8-byte wire form.
    pub fn to_bytes(&self) -> (r: Vec<u8>)
        ensures
            r@ == spec_create_transfers_result_bytes(*self),
            r@.len() == 8,
    {
        proof {
            le_facts();
        }
        let mut buf: Vec<u8> = Vec::new();
        put_u32(&mut buf, self.index);
        put_u32(&mut buf, self.result);
        buf
    }

    /// Parse the 8-byte wire form.
    pub fn from_bytes(s: &[u8]) -> (r: CreateTransfersResult)
        requires
            s@.len() == 8,
        ensures
            spec_create_transfers_result_bytes(r) == s@,
    {
        proof {
            le_facts();
        }
        let r = CreateTransfersResult { index: get_u32(s, 0), result: get_u32(s, 4) };
        proof {
            assert(spec_create_transfers_result_bytes(r) =~= s@);
        }
        r
    }
}

/// The concatenated wire form of a batch of create-accounts results.
pub open spec fn spec_create_accounts_results_bytes(s: Seq<CreateAccountsResult>) -> Seq<u8> {
    spec_concat_map(s, |r: CreateAccountsResult| spec_create_accounts_result_bytes(r))
}

/// The concatenated wire form of a batch of create-transfers results.
pub open spec fn spec_create_transfers_results_bytes(s: Seq<CreateTransfersResult>) -> Seq<u8> {
    spec_concat_map(s, |r: CreateTransfersResult| spec_create_transfers_result_bytes(r))
}

/// Parse a received batch of create-accounts results; `None` on a partial
/// trailing element.
pub fn parse_create_accounts_results(data: &[u8]) -> (r: Option<Vec<CreateAccountsResult>>)
    ensures
        r is Some <==> data@.len() % 8 == 0,
        r matches Some(v) ==> {
            &&& v@.len() == data@.len() / 8
            &&& spec_create_accounts_results_bytes(v@) == data@
        },
{
    let len: usize = data.len();
    if len % 8 != 0 {
        return None;
    }
    let f = Ghost(|x: CreateAccountsResult| spec_create_accounts_result_bytes(x));
    let count: usize = len / 8;
    let mut v: Vec<CreateAccountsResult> = Vec::new();
    let mut i: usize = 0;
    while i < count
        invariant
            i <= count,
            count == data@.len() / 8,
            data@.len() % 8 == 0,
            data@.len() == 8 * count,
            data@.len() <= usize::MAX,
            v@.len() == i,
            forall|k: int| 0 <= k < i ==> f@(v@[k]) == data@.subrange(8 * k, 8 * (k + 1)),
            f@ == (|x: CreateAccountsResult| spec_create_accounts_result_bytes(x)),
        decreases count - i,
    {
        proof {
            assert(i * 8 + 8 <= 8 * count) by (nonlinear_arith)
                requires i < count;
        }
        let chunk = vstd::slice::slice_subrange(data, i * 8, i * 8 + 8);
        let x = CreateAccountsResult::from_bytes(chunk);
        v.push(x);
        i = i + 1;
    }
    proof {
        lemma_concat_map_of_chunks(v@, f@, data@, 8);
    }
    Some(v)
}

/// Parse a received batch of create-transfers results; `None` on a partial
/// trailing element.
pub fn parse_create_transfers_results(data: &[u8]) -> (r: Option<Vec<CreateTransfersResult>>)
    ensures
        r is Some <==> data@.len() % 8 == 0,
        r matches Some(v) ==> {
            &&& v@.len() == data@.len() / 8
            &&& spec_create_transfers_results_bytes(v@) == data@
        },
{
    let len: usize = data.len();
    if len % 8 != 0 {
        return None;
    }
    let f = Ghost(|x: CreateTransfersResult| spec_create_transfers_result_bytes(x));
    let count: usize = len / 8;
    let mut v: Vec<CreateTransfersResult> = Vec::new();
    let mut i: usize = 0;
    while i < count
        invariant
            i <= count,
            count == data@.len() / 8,
            data@.len() % 8 == 0,
            data@.len() == 8 * count,
            data@.len() <= usize::MAX,
            v@.len() == i,
            forall|k: int| 0 <= k < i ==> f@(v@[k]) == data@.subrange(8 * k, 8 * (k + 1)),
            f@ == (|x: CreateTransfersResult| spec_create_transfers_result_bytes(x)),
        decreases count - i,
    {
        proof {
            assert(i * 8 + 8 <= 8 * count) by (nonlinear_arith)
                requires i < count;
        }
        let chunk = vstd::slice::slice_subrange(data, i * 8, i * 8 + 8);
        let x = CreateTransfersResult::from_bytes(chunk);
        v.push(x);
        i = i + 1;
    }
    proof {
        lemma_concat_map_of_chunks(v@, f@, data@, 8);
    }
    Some(v)
}

/// Parse a received batch of balances; `None` on a partial trailing element.
pub fn parse_account_balances(data: &[u8]) -> (r: Option<Vec<AccountBalance>>)
    ensures
        r is Some <==> data@.len() % 128 == 0,
        r matches Some(v) ==> {
            &&& v@.len() == data@.len() / 128
            &&& forall|k: int| 0 <= k < v@.len()
                ==> v@[k] == spec_parse_account_balance(
                    data@.subrange(128 * k, 128 * (k + 1)))
        },
{
    let len: usize = data.len();
    if len % 128 != 0 {
        return None;
    }
    let count: usize = len / 128;
    let mut v: Vec<AccountBalance> = Vec::new();
    let mut i: usize = 0;
    while i < count
        invariant
            i <= count,
            count == data@.len() / 128,
            data@.len() % 128 == 0,
            data@.len() == 128 * count,
            data@.len() <= usize::MAX,
            v@.len() == i,
            forall|k: int| 0 <= k < i
                ==> v@[k] == spec_parse_account_balance(data@.subrange(128 * k, 128 * (k + 1))),
        decreases count - i,
    {
        proof {
            assert(i * 128 + 128 <= 128 * count) by (nonlinear_arith)
                requires i < count;
        }
        let chunk = vstd::slice::slice_subrange(data, i * 128, i * 128 + 128);
        let b = AccountBalance::from_bytes(chunk);
        v.push(b);
        i = i + 1;
    }
    Some(v)
}

/// The body of a register request (256 bytes on the wire; everything after
/// `batch_size_limit` is reserved and zero).
#[derive(Clone, Copy, Debug, PartialEq, Eq, Structural)]
pub struct RegisterRequest {
    /// Batch size limit; zero when a client sends it.
    pub batch_size_limit: u32,
}

/// The 256 bytes a register request occupies on the wire.
pub open spec fn spec_register_request_bytes(r: RegisterRequest) -> Seq<u8> {
    spec_u32_to_le_bytes(r.batch_size_limit) + zeros(252)
}

impl RegisterRequest {
    /// Serialize into the 256-byte wire form.
    pub fn to_bytes(&self) -> (r: Vec<u8>)
        ensures
            r@ == spec_register_request_bytes(*self),
            r@.len() == 256,
    {
        proof {
            le_facts();
        }
        let mut buf: Vec<u8> = Vec::new();
        put_u32(&mut buf, self.batch_size_limit);
        put_zeros(&mut buf, 252);
        buf
    }
}

impl Default for RegisterRequest {
    /// A register request with a zero batch size limit.
    fn default() -> (r: Self)
        ensures
            r.batch_size_limit == 0,
    {
        RegisterRequest { batch_size_limit: 0 }
    }
}

/// The body of a register reply (64 bytes on the wire; everything after
/// `batch_size_limit` is reserved and zero).
#[derive(Clone, Copy, Debug, PartialEq, Eq, Structural)]
pub struct RegisterResult {
    /// Largest request body the server accepts from this session.
    pub batch_size_limit: u32,
}

/// The 64 bytes a register result occupies on the wire.
pub open spec fn spec_register_result_bytes(r: RegisterResult) -> Seq<u8> {
    spec_u32_to_le_bytes(r.batch_size_limit) + zeros(60)
}

impl RegisterResult {
    /// Serialize into the 64-byte wire form.
    pub fn to_bytes(&self) -> (r: Vec<u8>)
        ensures
            r@ == spec_register_result_bytes(*self),
            r@.len() == 64,
    {
        proof {
            le_facts();
        }
        let mut buf: Vec<u8> = Vec::new();
        put_u32(&mut buf, self.batch_size_limit);
        put_zeros(&mut buf, 60);
        buf
    }

    /// Parse the named field of the wire form; the reserved run is ignored.
    pub fn from_bytes(s: &[u8]) -> (r: RegisterResult)
        requires
            s@.len() >= 64,
        ensures
            r.batch_size_limit == spec_u32_from_le_bytes(s@.subrange(0, 4)),
    {
        RegisterResult { batch_size_limit: get_u32(s, 0) }
    }
}

impl Default for RegisterResult {
    /// A register result with a zero batch size limit.
    fn default() -> (r: Self)
        ensures
            r.batch_size_limit == 0,
    {
        RegisterResult { batch_size_limit: 0 }
    }
}

/// Result codes of a create-accounts operation, preserved code for code
/// for server compatibility.
#[derive(Clone, Copy, Debug, PartialEq, Eq, Structural)]
pub enum CreateAccountResult {
    /// The account was created.
    Success,
    /// A linked event in the batch failed, so this event was not applied.
    LinkedEventFailed,
    /// A linked event chain was not closed properly.
    LinkedEventChainOpen,
    /// The timestamp field must be zero; the server assigns timestamps.
    TimestampMustBeZero,
    /// A reserved field was set to a non-zero value.
    ReservedField,
    /// A reserved flag was set.
    ReservedFlag,
    /// The account id must not be zero.
    IdMustNotBeZero,
    /// The account id must not be the largest 128-bit value.
    IdMustNotBeIntMax,
    /// Mutually exclusive flags were set together.
    FlagsAreMutuallyExclusive,
    /// `debits_pending` must be zero on creation.
    DebitsPendingMustBeZero,
    /// `debits_posted` must be zero on creation.
    DebitsPostedMustBeZero,
    /// `credits_pending` must be zero on creation.
    CreditsPendingMustBeZero,
    /// `credits_posted` must be zero on creation.
    CreditsPostedMustBeZero,
    /// The ledger must not be zero.
    LedgerMustNotBeZero,
    /// The code must not be zero.
    CodeMustNotBeZero,
    /// An account with this id exists with different flags.
    ExistsWithDifferentFlags,
    /// An account with this id exists with different `user_data_128`.
    ExistsWithDifferentUserData128,
    /// An account with this id exists with different `user_data_64`.
    ExistsWithDifferentUserData64,
    /// An account with this id exists with different `user_data_32`.
    ExistsWithDifferentUserData32,
    /// An account with this id exists with a different ledger.
    ExistsWithDifferentLedger,
    /// An account with this id exists with a different code.
    ExistsWithDifferentCode,
    /// The account already exists (idempotent success).
    Exists,
    /// An imported event was expected but the flag is not set.
    ImportedEventExpected,
    /// The imported flag is set outside of import mode.
    ImportedEventNotExpected,
    /// The imported timestamp is out of the valid range.
    ImportedEventTimestampOutOfRange,
    /// The imported timestamp must not advance beyond the current one.
    ImportedEventTimestampMustNotAdvance,
    /// The imported timestamp must not regress.
    ImportedEventTimestampMustNotRegress,
}

impl CreateAccountResult {
    /// The code this result takes on the wire.
    pub open spec fn spec_code(self) -> u32 {
        match self {
            CreateAccountResult::Success => 0,
            CreateAccountResult::LinkedEventFailed => 1,
            CreateAccountResult::LinkedEventChainOpen => 2,
            CreateAccountResult::TimestampMustBeZero => 3,
            CreateAccountResult::ReservedField => 4,
            CreateAccountResult::ReservedFlag => 5,
            CreateAccountResult::IdMustNotBeZero => 6,
            CreateAccountResult::IdMustNotBeIntMax => 7,
            CreateAccountResult::FlagsAreMutuallyExclusive => 8,
            CreateAccountResult::DebitsPendingMustBeZero => 9,
            CreateAccountResult::DebitsPostedMustBeZero => 10,
            CreateAccountResult::CreditsPendingMustBeZero => 11,
            CreateAccountResult::CreditsPostedMustBeZero => 12,
            CreateAccountResult::LedgerMustNotBeZero => 13,
            CreateAccountResult::CodeMustNotBeZero => 14,
            CreateAccountResult::ExistsWithDifferentFlags => 15,
            CreateAccountResult::ExistsWithDifferentUserData128 => 16,
            CreateAccountResult::ExistsWithDifferentUserData64 => 17,
            CreateAccountResult::ExistsWithDifferentUserData32 => 18,
            CreateAccountResult::ExistsWithDifferentLedger => 19,
            CreateAccountResult::ExistsWithDifferentCode => 20,
            CreateAccountResult::Exists => 21,
            CreateAccountResult::ImportedEventExpected => 22,
            CreateAccountResult::ImportedEventNotExpected => 23,
            CreateAccountResult::ImportedEventTimestampOutOfRange => 24,
            CreateAccountResult::ImportedEventTimestampMustNotAdvance => 25,
            CreateAccountResult::ImportedEventTimestampMustNotRegress => 26,
        }
    }

    /// Whether some result carries this wire code.
    pub open spec fn spec_code_valid(value: u32) -> bool {
        value <= 26
    }

    /// The code this result takes on the wire.
    pub fn as_u32(self) -> (r: u32)
        ensures
            r == self.spec_code(),
    {
        match self {
            CreateAccountResult::Success => 0,
            CreateAccountResult::LinkedEventFailed => 1,
            CreateAccountResult::LinkedEventChainOpen => 2,
            CreateAccountResult::TimestampMustBeZero => 3,
            CreateAccountResult::ReservedField => 4,
            CreateAccountResult::ReservedFlag => 5,
            CreateAccountResult::IdMustNotBeZero => 6,
            CreateAccountResult::IdMustNotBeIntMax => 7,
            CreateAccountResult::FlagsAreMutuallyExclusive => 8,
            CreateAccountResult::DebitsPendingMustBeZero => 9,
            CreateAccountResult::DebitsPostedMustBeZero => 10,
            CreateAccountResult::CreditsPendingMustBeZero => 11,
            CreateAccountResult::CreditsPostedMustBeZero => 12,
            CreateAccountResult::LedgerMustNotBeZero => 13,
            CreateAccountResult::CodeMustNotBeZero => 14,
            CreateAccountResult::ExistsWithDifferentFlags => 15,
            CreateAccountResult::ExistsWithDifferentUserData128 => 16,
            CreateAccountResult::ExistsWithDifferentUserData64 => 17,
            CreateAccountResult::ExistsWithDifferentUserData32 => 18,
            CreateAccountResult::ExistsWithDifferentLedger => 19,
            CreateAccountResult::ExistsWithDifferentCode => 20,
            CreateAccountResult::Exists => 21,
            CreateAccountResult::ImportedEventExpected => 22,
            CreateAccountResult::ImportedEventNotExpected => 23,
            CreateAccountResult::ImportedEventTimestampOutOfRange => 24,
            CreateAccountResult::ImportedEventTimestampMustNotAdvance => 25,
            CreateAccountResult::ImportedEventTimestampMustNotRegress => 26,
        }
    }

    /// The result carrying a wire code, or the code back as the error
    /// when none does.
    pub fn try_from(value: u32) -> (r: Result<CreateAccountResult, u32>)
        ensures
            r is Ok <==> CreateAccountResult::spec_code_valid(value),
            r matches Ok(c) ==> c.spec_code() == value,
            r matches Err(v) ==> v == value,
    {
        match value {
            0 => Ok(CreateAccountResult::Success),
            1 => Ok(CreateAccountResult::LinkedEventFailed),
            2 => Ok(CreateAccountResult::LinkedEventChainOpen),
            3 => Ok(CreateAccountResult::TimestampMustBeZero),
            4 => Ok(CreateAccountResult::ReservedField),
            5 => Ok(CreateAccountResult::ReservedFlag),
            6 => Ok(CreateAccountResult::IdMustNotBeZero),
            7 => Ok(CreateAccountResult::IdMustNotBeIntMax),
            8 => Ok(CreateAccountResult::FlagsAreMutuallyExclusive),
            9 => Ok(CreateAccountResult::DebitsPendingMustBeZero),
            10 => Ok(CreateAccountResult::DebitsPostedMustBeZero),
            11 => Ok(CreateAccountResult::CreditsPendingMustBeZero),
            12 => Ok(CreateAccountResult::CreditsPostedMustBeZero),
            13 => Ok(CreateAccountResult::LedgerMustNotBeZero),
            14 => Ok(CreateAccountResult::CodeMustNotBeZero),
            15 => Ok(CreateAccountResult::ExistsWithDifferentFlags),
            16 => Ok(CreateAccountResult::ExistsWithDifferentUserData128),
            17 => Ok(CreateAccountResult::ExistsWithDifferentUserData64),
            18 => Ok(CreateAccountResult::ExistsWithDifferentUserData32),
            19 => Ok(CreateAccountResult::ExistsWithDifferentLedger),
            20 => Ok(CreateAccountResult::ExistsWithDifferentCode),
            21 => Ok(CreateAccountResult::Exists),
            22 => Ok(CreateAccountResult::ImportedEventExpected),
            23 => Ok(CreateAccountResult::ImportedEventNotExpected),
            24 => Ok(CreateAccountResult::ImportedEventTimestampOutOfRange),
            25 => Ok(CreateAccountResult::ImportedEventTimestampMustNotAdvance),
            26 => Ok(CreateAccountResult::ImportedEventTimestampMustNotRegress),
            _ => Err(value),
        }
    }
}

/// Result codes of a create-transfers operation, preserved code for code
/// for server compatibility.
#[derive(Clone, Copy, Debug, PartialEq, Eq, Structural)]
pub enum CreateTransferResult {
    /// The transfer was created.
    Success,
    /// A linked event in the batch failed, so this event was not applied.
    LinkedEventFailed,
    /// A linked event chain was not closed properly.
    LinkedEventChainOpen,
    /// The timestamp field must be zero; the server assigns timestamps.
    TimestampMustBeZero,
    /// A reserved flag was set.
    ReservedFlag,
    /// The transfer id must not be zero.
    IdMustNotBeZero,
    /// The transfer id must not be the largest 128-bit value.
    IdMustNotBeIntMax,
    /// Mutually exclusive flags were set together.
    FlagsAreMutuallyExclusive,
    /// The debit account id must not be zero.
    DebitAccountIdMustNotBeZero,
    /// The debit account id must not be the largest 128-bit value.
    DebitAccountIdMustNotBeIntMax,
    /// The credit account id must not be zero.
    CreditAccountIdMustNotBeZero,
    /// The credit account id must not be the largest 128-bit value.
    CreditAccountIdMustNotBeIntMax,
    /// The debit and credit accounts must be different.
    AccountsMustBeDifferent,
    /// `pending_id` must be zero for a transfer that neither posts nor voids.
    PendingIdMustBeZero,
    /// `pending_id` must not be zero for a posting or voiding transfer.
    PendingIdMustNotBeZero,
    /// `pending_id` must not be the largest 128-bit value.
    PendingIdMustNotBeIntMax,
    /// `pending_id` must be different from the transfer id.
    PendingIdMustBeDifferent,
    /// A timeout is only valid on a pending transfer.
    TimeoutReservedForPendingTransfer,
    /// The ledger must not be zero.
    LedgerMustNotBeZero,
    /// The code must not be zero.
    CodeMustNotBeZero,
    /// The debit account was not found.
    DebitAccountNotFound,
    /// The credit account was not found.
    CreditAccountNotFound,
    /// The debit and credit accounts must share a ledger.
    AccountsMustHaveTheSameLedger,
    /// The transfer ledger must match the accounts' ledger.
    TransferMustHaveTheSameLedgerAsAccounts,
    /// The referenced pending transfer was not found.
    PendingTransferNotFound,
    /// The referenced transfer is not pending.
    PendingTransferNotPending,
    /// The pending transfer has a different debit account.
    PendingTransferHasDifferentDebitAccountId,
    /// The pending transfer has a different credit account.
    PendingTransferHasDifferentCreditAccountId,
    /// The pending transfer has a different ledger.
    PendingTransferHasDifferentLedger,
    /// The pending transfer has a different code.
    PendingTransferHasDifferentCode,
    /// The post amount exceeds the pending transfer amount.
    ExceedsPendingTransferAmount,
    /// The pending transfer has a different amount.
    PendingTransferHasDifferentAmount,
    /// The pending transfer was already posted.
    PendingTransferAlreadyPosted,
    /// The pending transfer was already voided.
    PendingTransferAlreadyVoided,
    /// The pending transfer has expired.
    PendingTransferExpired,
    /// A transfer with this id exists with different flags.
    ExistsWithDifferentFlags,
    /// A transfer with this id exists with a different debit account.
    ExistsWithDifferentDebitAccountId,
    /// A transfer with this id exists with a different credit account.
    ExistsWithDifferentCreditAccountId,
    /// A transfer with this id exists with a different amount.
    ExistsWithDifferentAmount,
    /// A transfer with this id exists with a different `pending_id`.
    ExistsWithDifferentPendingId,
    /// A transfer with this id exists with different `user_data_128`.
    ExistsWithDifferentUserData128,
    /// A transfer with this id exists with different `user_data_64`.
    ExistsWithDifferentUserData64,
    /// A transfer with this id exists with different `user_data_32`.
    ExistsWithDifferentUserData32,
    /// A transfer with this id exists with a different timeout.
    ExistsWithDifferentTimeout,
    /// A transfer with this id exists with a different code.
    ExistsWithDifferentCode,
    /// The transfer already exists (idempotent success).
    Exists,
    /// The transfer would overflow the debit account's pending debits.
    OverflowsDebitsPending,
    /// The transfer would overflow the credit account's pending credits.
    OverflowsCreditsPending,
    /// The transfer would overflow the debit account's posted debits.
    OverflowsDebitsPosted,
    /// The transfer would overflow the credit account's posted credits.
    OverflowsCreditsPosted,
    /// The transfer would overflow the debit account's total debits.
    OverflowsDebits,
    /// The transfer would overflow the credit account's total credits.
    OverflowsCredits,
    /// The transfer timeout would overflow.
    OverflowsTimeout,
    /// The transfer exceeds the credit account's available credits.
    ExceedsCredits,
    /// The transfer exceeds the debit account's available debits.
    ExceedsDebits,
    /// An imported event was expected but the flag is not set.
    ImportedEventExpected,
    /// The imported flag is set outside of import mode.
    ImportedEventNotExpected,
    /// The imported timestamp is out of the valid range.
    ImportedEventTimestampOutOfRange,
    /// The imported timestamp must not advance beyond the current one.
    ImportedEventTimestampMustNotAdvance,
    /// The imported timestamp must not regress.
    ImportedEventTimestampMustNotRegress,
    /// The imported timestamp must postdate the debit account.
    ImportedEventTimestampMustPostdateDebitAccount,
    /// The imported timestamp must postdate the credit account.
    ImportedEventTimestampMustPostdateCreditAccount,
    /// An imported event's timeout must be zero.
    ImportedEventTimeoutMustBeZero,
    /// A closing transfer must reference a pending transfer.
    ClosingTransferMustBePending,
    /// The debit account is already closed.
    DebitAccountAlreadyClosed,
    /// The credit account is already closed.
    CreditAccountAlreadyClosed,
    /// A transfer with this id exists with a different ledger.
    ExistsWithDifferentLedger,
    /// This id was previously used in a failed transfer.
    IdAlreadyFailed,
}

impl CreateTransferResult {
    /// The code this result takes on the wire.
    pub open spec fn spec_code(self) -> u32 {
        match self {
            CreateTransferResult::Success => 0,
            CreateTransferResult::LinkedEventFailed => 1,
            CreateTransferResult::LinkedEventChainOpen => 2,
            CreateTransferResult::TimestampMustBeZero => 3,
            CreateTransferResult::ReservedFlag => 4,
            CreateTransferResult::IdMustNotBeZero => 5,
            CreateTransferResult::IdMustNotBeIntMax => 6,
            CreateTransferResult::FlagsAreMutuallyExclusive => 7,
            CreateTransferResult::DebitAccountIdMustNotBeZero => 8,
            CreateTransferResult::DebitAccountIdMustNotBeIntMax => 9,
            CreateTransferResult::CreditAccountIdMustNotBeZero => 10,
            CreateTransferResult::CreditAccountIdMustNotBeIntMax => 11,
            CreateTransferResult::AccountsMustBeDifferent => 12,
            CreateTransferResult::PendingIdMustBeZero => 13,
            CreateTransferResult::PendingIdMustNotBeZero => 14,
            CreateTransferResult::PendingIdMustNotBeIntMax => 15,
            CreateTransferResult::PendingIdMustBeDifferent => 16,
            CreateTransferResult::TimeoutReservedForPendingTransfer => 17,
            CreateTransferResult::LedgerMustNotBeZero => 19,
            CreateTransferResult::CodeMustNotBeZero => 20,
            CreateTransferResult::DebitAccountNotFound => 21,
            CreateTransferResult::CreditAccountNotFound => 22,
            CreateTransferResult::AccountsMustHaveTheSameLedger => 23,
            CreateTransferResult::TransferMustHaveTheSameLedgerAsAccounts => 24,
            CreateTransferResult::PendingTransferNotFound => 25,
            CreateTransferResult::PendingTransferNotPending => 26,
            CreateTransferResult::PendingTransferHasDifferentDebitAccountId => 27,
            CreateTransferResult::PendingTransferHasDifferentCreditAccountId => 28,
            CreateTransferResult::PendingTransferHasDifferentLedger => 29,
            CreateTransferResult::PendingTransferHasDifferentCode => 30,
            CreateTransferResult::ExceedsPendingTransferAmount => 31,
            CreateTransferResult::PendingTransferHasDifferentAmount => 32,
            CreateTransferResult::PendingTransferAlreadyPosted => 33,
            CreateTransferResult::PendingTransferAlreadyVoided => 34,
            CreateTransferResult::PendingTransferExpired => 35,
            CreateTransferResult::ExistsWithDifferentFlags => 36,
            CreateTransferResult::ExistsWithDifferentDebitAccountId => 37,
            CreateTransferResult::ExistsWithDifferentCreditAccountId => 38,
            CreateTransferResult::ExistsWithDifferentAmount => 39,
            CreateTransferResult::ExistsWithDifferentPendingId => 40,
            CreateTransferResult::ExistsWithDifferentUserData128 => 41,
            CreateTransferResult::ExistsWithDifferentUserData64 => 42,
            CreateTransferResult::ExistsWithDifferentUserData32 => 43,
            CreateTransferResult::ExistsWithDifferentTimeout => 44,
            CreateTransferResult::ExistsWithDifferentCode => 45,
            CreateTransferResult::Exists => 46,
            CreateTransferResult::OverflowsDebitsPending => 47,
            CreateTransferResult::OverflowsCreditsPending => 48,
            CreateTransferResult::OverflowsDebitsPosted => 49,
            CreateTransferResult::OverflowsCreditsPosted => 50,
            CreateTransferResult::OverflowsDebits => 51,
            CreateTransferResult::OverflowsCredits => 52,
            CreateTransferResult::OverflowsTimeout => 53,
            CreateTransferResult::ExceedsCredits => 54,
            CreateTransferResult::ExceedsDebits => 55,
            CreateTransferResult::ImportedEventExpected => 56,
            CreateTransferResult::ImportedEventNotExpected => 57,
            CreateTransferResult::ImportedEventTimestampOutOfRange => 58,
            CreateTransferResult::ImportedEventTimestampMustNotAdvance => 59,
            CreateTransferResult::ImportedEventTimestampMustNotRegress => 60,
            CreateTransferResult::ImportedEventTimestampMustPostdateDebitAccount => 61,
            CreateTransferResult::ImportedEventTimestampMustPostdateCreditAccount => 62,
            CreateTransferResult::ImportedEventTimeoutMustBeZero => 63,
            CreateTransferResult::ClosingTransferMustBePending => 64,
            CreateTransferResult::DebitAccountAlreadyClosed => 65,
            CreateTransferResult::CreditAccountAlreadyClosed => 66,
            CreateTransferResult::ExistsWithDifferentLedger => 67,
            CreateTransferResult::IdAlreadyFailed => 68,
        }
    }

    /// Whether some result carries this wire code.
    pub open spec fn spec_code_valid(value: u32) -> bool {
        value <= 17 || (19 <= value <= 68)
    }

    /// The code this result takes on the wire.
    pub fn as_u32(self) -> (r: u32)
        ensures
            r == self.spec_code(),
    {
        match self {
            CreateTransferResult::Success => 0,
            CreateTransferResult::LinkedEventFailed => 1,
            CreateTransferResult::LinkedEventChainOpen => 2,
            CreateTransferResult::TimestampMustBeZero => 3,
            CreateTransferResult::ReservedFlag => 4,
            CreateTransferResult::IdMustNotBeZero => 5,
            CreateTransferResult::IdMustNotBeIntMax => 6,
            CreateTransferResult::FlagsAreMutuallyExclusive => 7,
            CreateTransferResult::DebitAccountIdMustNotBeZero => 8,
            CreateTransferResult::DebitAccountIdMustNotBeIntMax => 9,
            CreateTransferResult::CreditAccountIdMustNotBeZero => 10,
            CreateTransferResult::CreditAccountIdMustNotBeIntMax => 11,
            CreateTransferResult::AccountsMustBeDifferent => 12,
            CreateTransferResult::PendingIdMustBeZero => 13,
            CreateTransferResult::PendingIdMustNotBeZero => 14,
            CreateTransferResult::PendingIdMustNotBeIntMax => 15,
            CreateTransferResult::PendingIdMustBeDifferent => 16,
            CreateTransferResult::TimeoutReservedForPendingTransfer => 17,
            CreateTransferResult::LedgerMustNotBeZero => 19,
            CreateTransferResult::CodeMustNotBeZero => 20,
            CreateTransferResult::DebitAccountNotFound => 21,
            CreateTransferResult::CreditAccountNotFound => 22,
            CreateTransferResult::AccountsMustHaveTheSameLedger => 23,
            CreateTransferResult::TransferMustHaveTheSameLedgerAsAccounts => 24,
            CreateTransferResult::PendingTransferNotFound => 25,
            CreateTransferResult::PendingTransferNotPending => 26,
            CreateTransferResult::PendingTransferHasDifferentDebitAccountId => 27,
            CreateTransferResult::PendingTransferHasDifferentCreditAccountId => 28,
            CreateTransferResult::PendingTransferHasDifferentLedger => 29,
            CreateTransferResult::PendingTransferHasDifferentCode => 30,
            CreateTransferResult::ExceedsPendingTransferAmount => 31,
            CreateTransferResult::PendingTransferHasDifferentAmount => 32,
            CreateTransferResult::PendingTransferAlreadyPosted => 33,
            CreateTransferResult::PendingTransferAlreadyVoided => 34,
            CreateTransferResult::PendingTransferExpired => 35,
            CreateTransferResult::ExistsWithDifferentFlags => 36,
            CreateTransferResult::ExistsWithDifferentDebitAccountId => 37,
            CreateTransferResult::ExistsWithDifferentCreditAccountId => 38,
            CreateTransferResult::ExistsWithDifferentAmount => 39,
            CreateTransferResult::ExistsWithDifferentPendingId => 40,
            CreateTransferResult::ExistsWithDifferentUserData128 => 41,
            CreateTransferResult::ExistsWithDifferentUserData64 => 42,
            CreateTransferResult::ExistsWithDifferentUserData32 => 43,
            CreateTransferResult::ExistsWithDifferentTimeout => 44,
            CreateTransferResult::ExistsWithDifferentCode => 45,
            CreateTransferResult::Exists => 46,
            CreateTransferResult::OverflowsDebitsPending => 47,
            CreateTransferResult::OverflowsCreditsPending => 48,
            CreateTransferResult::OverflowsDebitsPosted => 49,
            CreateTransferResult::OverflowsCreditsPosted => 50,
            CreateTransferResult::OverflowsDebits => 51,
            CreateTransferResult::OverflowsCredits => 52,
            CreateTransferResult::OverflowsTimeout => 53,
            CreateTransferResult::ExceedsCredits => 54,
            CreateTransferResult::ExceedsDebits => 55,
            CreateTransferResult::ImportedEventExpected => 56,
            CreateTransferResult::ImportedEventNotExpected => 57,
            CreateTransferResult::ImportedEventTimestampOutOfRange => 58,
            CreateTransferResult::ImportedEventTimestampMustNotAdvance => 59,
            CreateTransferResult::ImportedEventTimestampMustNotRegress => 60,
            CreateTransferResult::ImportedEventTimestampMustPostdateDebitAccount => 61,
            CreateTransferResult::ImportedEventTimestampMustPostdateCreditAccount => 62,
            CreateTransferResult::ImportedEventTimeoutMustBeZero => 63,
            CreateTransferResult::ClosingTransferMustBePending => 64,
            CreateTransferResult::DebitAccountAlreadyClosed => 65,
            CreateTransferResult::CreditAccountAlreadyClosed => 66,
            CreateTransferResult::ExistsWithDifferentLedger => 67,
            CreateTransferResult::IdAlreadyFailed => 68,
        }
    }

    /// The result carrying a wire code, or the code back as the error
    /// when none does.
    pub fn try_from(value: u32) -> (r: Result<CreateTransferResult, u32>)
        ensures
            r is Ok <==> CreateTransferResult::spec_code_valid(value),
            r matches Ok(c) ==> c.spec_code() == value,
            r matches Err(v) ==> v == value,
    {
        match value {
            0 => Ok(CreateTransferResult::Success),
            1 => Ok(CreateTransferResult::LinkedEventFailed),
            2 => Ok(CreateTransferResult::LinkedEventChainOpen),
            3 => Ok(CreateTransferResult::TimestampMustBeZero),
            4 => Ok(CreateTransferResult::ReservedFlag),
            5 => Ok(CreateTransferResult::IdMustNotBeZero),
            6 => Ok(CreateTransferResult::IdMustNotBeIntMax),
            7 => Ok(CreateTransferResult::FlagsAreMutuallyExclusive),
            8 => Ok(CreateTransferResult::DebitAccountIdMustNotBeZero),
            9 => Ok(CreateTransferResult::DebitAccountIdMustNotBeIntMax),
            10 => Ok(CreateTransferResult::CreditAccountIdMustNotBeZero),
            11 => Ok(CreateTransferResult::CreditAccountIdMustNotBeIntMax),
            12 => Ok(CreateTransferResult::AccountsMustBeDifferent),
            13 => Ok(CreateTransferResult::PendingIdMustBeZero),
            14 => Ok(CreateTransferResult::PendingIdMustNotBeZero),
            15 => Ok(CreateTransferResult::PendingIdMustNotBeIntMax),
            16 => Ok(CreateTransferResult::PendingIdMustBeDifferent),
            17 => Ok(CreateTransferResult::TimeoutReservedForPendingTransfer),
            19 => Ok(CreateTransferResult::LedgerMustNotBeZero),
            20 => Ok(CreateTransferResult::CodeMustNotBeZero),
            21 => Ok(CreateTransferResult::DebitAccountNotFound),
            22 => Ok(CreateTransferResult::CreditAccountNotFound),
            23 => Ok(CreateTransferResult::AccountsMustHaveTheSameLedger),
            24 => Ok(CreateTransferResult::TransferMustHaveTheSameLedgerAsAccounts),
            25 => Ok(CreateTransferResult::PendingTransferNotFound),
            26 => Ok(CreateTransferResult::PendingTransferNotPending),
            27 => Ok(CreateTransferResult::PendingTransferHasDifferentDebitAccountId),
            28 => Ok(CreateTransferResult::PendingTransferHasDifferentCreditAccountId),
            29 => Ok(CreateTransferResult::PendingTransferHasDifferentLedger),
            30 => Ok(CreateTransferResult::PendingTransferHasDifferentCode),
            31 => Ok(CreateTransferResult::ExceedsPendingTransferAmount),
            32 => Ok(CreateTransferResult::PendingTransferHasDifferentAmount),
            33 => Ok(CreateTransferResult::PendingTransferAlreadyPosted),
            34 => Ok(CreateTransferResult::PendingTransferAlreadyVoided),
            35 => Ok(CreateTransferResult::PendingTransferExpired),
            36 => Ok(CreateTransferResult::ExistsWithDifferentFlags),
            37 => Ok(CreateTransferResult::ExistsWithDifferentDebitAccountId),
            38 => Ok(CreateTransferResult::ExistsWithDifferentCreditAccountId),
            39 => Ok(CreateTransferResult::ExistsWithDifferentAmount),
            40 => Ok(CreateTransferResult::ExistsWithDifferentPendingId),
            41 => Ok(CreateTransferResult::ExistsWithDifferentUserData128),
            42 => Ok(CreateTransferResult::ExistsWithDifferentUserData64),
            43 => Ok(CreateTransferResult::ExistsWithDifferentUserData32),
            44 => Ok(CreateTransferResult::ExistsWithDifferentTimeout),
            45 => Ok(CreateTransferResult::ExistsWithDifferentCode),
            46 => Ok(CreateTransferResult::Exists),
            47 => Ok(CreateTransferResult::OverflowsDebitsPending),
            48 => Ok(CreateTransferResult::OverflowsCreditsPending),
            49 => Ok(CreateTransferResult::OverflowsDebitsPosted),
            50 => Ok(CreateTransferResult::OverflowsCreditsPosted),
            51 => Ok(CreateTransferResult::OverflowsDebits),
            52 => Ok(CreateTransferResult::OverflowsCredits),
            53 => Ok(CreateTransferResult::OverflowsTimeout),
            54 => Ok(CreateTransferResult::ExceedsCredits),
            55 => Ok(CreateTransferResult::ExceedsDebits),
            56 => Ok(CreateTransferResult::ImportedEventExpected),
            57 => Ok(CreateTransferResult::ImportedEventNotExpected),
            58 => Ok(CreateTransferResult::ImportedEventTimestampOutOfRange),
            59 => Ok(CreateTransferResult::ImportedEventTimestampMustNotAdvance),
            60 => Ok(CreateTransferResult::ImportedEventTimestampMustNotRegress),
            61 => Ok(CreateTransferResult::ImportedEventTimestampMustPostdateDebitAccount),
            62 => Ok(CreateTransferResult::ImportedEventTimestampMustPostdateCreditAccount),
            63 => Ok(CreateTransferResult::ImportedEventTimeoutMustBeZero),
            64 => Ok(CreateTransferResult::ClosingTransferMustBePending),
            65 => Ok(CreateTransferResult::DebitAccountAlreadyClosed),
            66 => Ok(CreateTransferResult::CreditAccountAlreadyClosed),
            67 => Ok(CreateTransferResult::ExistsWithDifferentLedger),
            68 => Ok(CreateTransferResult::IdAlreadyFailed),
            _ => Err(value),
        }
    }
}

} // verus!
