//! The account resources that tests write and read back, and their binary
//! form.

use vstd::prelude::*;

verus! {

/// The eight bytes of a number, least significant first.
pub open spec fn le_bytes(v: u64) -> Seq<u8> {
    seq![
        (v & 0xff) as u8,
        ((v >> 8) & 0xff) as u8,
        ((v >> 16) & 0xff) as u8,
        ((v >> 24) & 0xff) as u8,
        ((v >> 32) & 0xff) as u8,
        ((v >> 40) & 0xff) as u8,
        ((v >> 48) & 0xff) as u8,
        ((v >> 56) & 0xff) as u8,
    ]
}

/// An account's balance.
#[derive(Debug, Clone, Copy, PartialEq, Eq, Structural)]
pub struct BalanceResource {
    pub coin: u64,
}

/// An account's counters of transfer events, sent and received.
#[derive(Debug, Clone, Copy, PartialEq, Eq, Structural)]
pub struct TransferEventsResource {
    pub sent_events_count: u64,
    pub received_events_count: u64,
}

/// An account's own record: its authentication key and the sequence number
/// of its next transaction.
#[derive(Debug, Clone, Copy)]
pub struct AccountResource {
    pub authentication_key: [u8; 32],
    pub sequence_number: u64,
}

/// An account record in contracts: key and sequence number.
pub type AccountResourceView = (Seq<u8>, u64);

impl View for AccountResource {
    type V = AccountResourceView;

    open spec fn view(&self) -> AccountResourceView {
        (self.authentication_key@, self.sequence_number)
    }
}

/// The bytes of a balance: its number.
pub open spec fn balance_bytes(balance: BalanceResource) -> Seq<u8> {
    le_bytes(balance.coin)
}

/// The bytes of the event counters: one number after the other.
pub open spec fn transfer_events_bytes(events: TransferEventsResource) -> Seq<u8> {
    le_bytes(events.sent_events_count) + le_bytes(events.received_events_count)
}

/// The bytes of an account record: the thirty-two bytes of the key, then
/// the sequence number.
pub open spec fn account_bytes(account: AccountResourceView) -> Seq<u8> {
    account.0 + le_bytes(account.1)
}

/// Two numbers with the same eight bytes are the same number.
pub proof fn lemma_le_bytes_injective(a: u64, b: u64)
    requires
        le_bytes(a) == le_bytes(b),
    ensures
        a == b,
{
    let x = le_bytes(a);
    let y = le_bytes(b);
    assert(x[0] == y[0] && x[1] == y[1] && x[2] == y[2] && x[3] == y[3]);
    assert(x[4] == y[4] && x[5] == y[5] && x[6] == y[6] && x[7] == y[7]);
    assert(a == b) by (bit_vector)
        requires
            (a & 0xff) as u8 == (b & 0xff) as u8,
            ((a >> 8) & 0xff) as u8 == ((b >> 8) & 0xff) as u8,
            ((a >> 16) & 0xff) as u8 == ((b >> 16) & 0xff) as u8,
            ((a >> 24) & 0xff) as u8 == ((b >> 24) & 0xff) as u8,
            ((a >> 32) & 0xff) as u8 == ((b >> 32) & 0xff) as u8,
            ((a >> 40) & 0xff) as u8 == ((b >> 40) & 0xff) as u8,
            ((a >> 48) & 0xff) as u8 == ((b >> 48) & 0xff) as u8,
            ((a >> 56) & 0xff) as u8 == ((b >> 56) & 0xff) as u8,
    ;
}

/// Two balances with the same bytes are the same balance.
pub proof fn lemma_balance_bytes_injective(a: BalanceResource, b: BalanceResource)
    requires
        balance_bytes(a) == balance_bytes(b),
    ensures
        a == b,
{
    lemma_le_bytes_injective(a.coin, b.coin);
}

/// Two pairs of event counters with the same bytes are the same pair.
pub proof fn lemma_transfer_events_bytes_injective(a: TransferEventsResource, b: TransferEventsResource)
    requires
        transfer_events_bytes(a) == transfer_events_bytes(b),
    ensures
        a == b,
{
    let x = transfer_events_bytes(a);
    let y = transfer_events_bytes(b);
    assert(le_bytes(a.sent_events_count) =~= x.subrange(0, 8));
    assert(le_bytes(b.sent_events_count) =~= y.subrange(0, 8));
    assert(le_bytes(a.received_events_count) =~= x.subrange(8, 16));
    assert(le_bytes(b.received_events_count) =~= y.subrange(8, 16));
    lemma_le_bytes_injective(a.sent_events_count, b.sent_events_count);
    lemma_le_bytes_injective(a.received_events_count, b.received_events_count);
}

/// Two account records with keys of thirty-two bytes and the same bytes
/// are the same record.
pub proof fn lemma_account_bytes_injective(a: AccountResourceView, b: AccountResourceView)
    requires
        a.0.len() == 32,
        b.0.len() == 32,
        account_bytes(a) == account_bytes(b),
    ensures
        a == b,
{
    let x = account_bytes(a);
    let y = account_bytes(b);
    assert(a.0 =~= x.subrange(0, 32));
    assert(b.0 =~= y.subrange(0, 32));
    assert(le_bytes(a.1) =~= x.subrange(32, 40));
    assert(le_bytes(b.1) =~= y.subrange(32, 40));
    lemma_le_bytes_injective(a.1, b.1);
}

/// Calls `bcs::to_bytes` on a number. BCS writes a `u64` as its eight
/// bytes, least significant first, and cannot fail on one.
#[verifier::external_body]
fn bcs_encode_u64(v: u64) -> (r: Result<Vec<u8>, bcs::Error>)
    ensures
        r is Ok,
        r->Ok_0@ == le_bytes(v),
{
    bcs::to_bytes(&v)
}

/// Calls `bcs::from_bytes` for a number. BCS reads a `u64` from exactly
/// eight bytes, least significant first, and refuses any other length.
#[verifier::external_body]
fn bcs_decode_u64(bytes: &Vec<u8>) -> (r: Result<u64, bcs::Error>)
    ensures
        match r {
            Ok(v) => bytes@ == le_bytes(v),
            Err(_) => bytes@.len() != 8,
        },
{
    bcs::from_bytes::<u64>(bytes)
}

/// Calls `bcs::to_bytes` on a pair of numbers. BCS writes a tuple as its
/// fields one after the other, and cannot fail on this one.
#[verifier::external_body]
fn bcs_encode_u64_pair(pair: (u64, u64)) -> (r: Result<Vec<u8>, bcs::Error>)
    ensures
        r is Ok,
        r->Ok_0@ == le_bytes(pair.0) + le_bytes(pair.1),
{
    bcs::to_bytes(&pair)
}

/// Calls `bcs::from_bytes` for a pair of numbers: exactly sixteen bytes,
/// the fields one after the other.
#[verifier::external_body]
fn bcs_decode_u64_pair(bytes: &Vec<u8>) -> (r: Result<(u64, u64), bcs::Error>)
    ensures
        match r {
            Ok(pair) => bytes@ == le_bytes(pair.0) + le_bytes(pair.1),
            Err(_) => bytes@.len() != 16,
        },
{
    bcs::from_bytes::<(u64, u64)>(bytes)
}

/// Calls `bcs::to_bytes` on a key of thirty-two bytes and a number. BCS
/// writes a fixed array as its bytes, without a length, then the number;
/// it cannot fail on this value.
#[verifier::external_body]
fn bcs_encode_account(key: &[u8; 32], sequence_number: u64) -> (r: Result<Vec<u8>, bcs::Error>)
    ensures
        r is Ok,
        r->Ok_0@ == key@ + le_bytes(sequence_number),
{
    bcs::to_bytes(&(*key, sequence_number))
}

/// Calls `bcs::from_bytes` for a key of thirty-two bytes and a number:
/// exactly forty bytes, the key first.
#[verifier::external_body]
fn bcs_decode_account(bytes: &Vec<u8>) -> (r: Result<([u8; 32], u64), bcs::Error>)
    ensures
        match r {
            Ok(account) => bytes@ == account.0@ + le_bytes(account.1),
            Err(_) => bytes@.len() != 40,
        },
{
    bcs::from_bytes::<([u8; 32], u64)>(bytes)
}

impl BalanceResource {
    /// The balance in binary form.
    pub fn to_bytes(&self) -> (r: Vec<u8>)
        ensures
            r@ == balance_bytes(*self),
    {
        match bcs_encode_u64(self.coin) {
            Ok(bytes) => bytes,
            Err(_) => Vec::new(),
        }
    }

    /// Reads a balance from its binary form: exactly eight bytes. The bytes
    /// of a balance read back as that balance.
    pub fn from_bytes(bytes: &Vec<u8>) -> (r: Option<BalanceResource>)
        ensures
            match r {
                Some(balance) => bytes@ == balance_bytes(balance),
                None => bytes@.len() != 8,
            },
            forall|balance: BalanceResource| bytes@ == #[trigger] balance_bytes(balance) ==> r == Some(balance),
    {
        let r = match bcs_decode_u64(bytes) {
            Ok(coin) => Some(BalanceResource { coin }),
            Err(_) => None,
        };
        proof {
            assert forall|balance: BalanceResource| bytes@ == #[trigger] balance_bytes(balance) implies r == Some(
                balance,
            ) by {
                lemma_balance_bytes_injective(r->Some_0, balance);
            }
        }
        r
    }
}

impl TransferEventsResource {
    /// The counters in binary form.
    pub fn to_bytes(&self) -> (r: Vec<u8>)
        ensures
            r@ == transfer_events_bytes(*self),
    {
        match bcs_encode_u64_pair((self.sent_events_count, self.received_events_count)) {
            Ok(bytes) => bytes,
            Err(_) => Vec::new(),
        }
    }

    /// Reads the counters from their binary form: exactly sixteen bytes.
    /// The bytes of a pair of counters read back as that pair.
    pub fn from_bytes(bytes: &Vec<u8>) -> (r: Option<TransferEventsResource>)
        ensures
            match r {
                Some(events) => bytes@ == transfer_events_bytes(events),
                None => bytes@.len() != 16,
            },
            forall|events: TransferEventsResource|
                bytes@ == #[trigger] transfer_events_bytes(events) ==> r == Some(events),
    {
        let r = match bcs_decode_u64_pair(bytes) {
            Ok(pair) => Some(
                TransferEventsResource { sent_events_count: pair.0, received_events_count: pair.1 },
            ),
            Err(_) => None,
        };
        proof {
            assert forall|events: TransferEventsResource| bytes@ == #[trigger] transfer_events_bytes(
                events,
            ) implies r == Some(events) by {
                lemma_transfer_events_bytes_injective(r->Some_0, events);
            }
        }
        r
    }
}

impl AccountResource {
    /// The record in binary form.
    pub fn to_bytes(&self) -> (r: Vec<u8>)
        ensures
            r@ == account_bytes(self@),
    {
        match bcs_encode_account(&self.authentication_key, self.sequence_number) {
            Ok(bytes) => bytes,
            Err(_) => Vec::new(),
        }
    }

    /// Reads a record from its binary form: exactly forty bytes. The bytes
    /// of a record read back as that record.
    pub fn from_bytes(bytes: &Vec<u8>) -> (r: Option<AccountResource>)
        ensures
            match r {
                Some(account) => bytes@ == account_bytes(account@),
                None => bytes@.len() != 40,
            },
            forall|account: AccountResourceView|
                account.0.len() == 32 && bytes@ == #[trigger] account_bytes(account) ==> r is Some
                    && r->Some_0@ == account,
    {
        let r = match bcs_decode_account(bytes) {
            Ok(account) => Some(AccountResource { authentication_key: account.0, sequence_number: account.1 }),
            Err(_) => None,
        };
        proof {
            assert forall|account: AccountResourceView|
                account.0.len() == 32 && bytes@ == #[trigger] account_bytes(account) implies r is Some
                && r->Some_0@ == account by {
                lemma_account_bytes_injective(r->Some_0@, account);
            }
        }
        r
    }
}

} // verus!
