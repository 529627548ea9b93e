//! Test accounts: making them, publishing them into the state, and reading
//! their resources back.

use vstd::prelude::*;
use crate::collaborators::BlockExecutor;
use crate::executor::{FakeExecutor, HarnessError, HarnessErrorView};
use crate::identifier::{lemma_resource_key_injective, resource_key, resource_state_key, usable_name};
use crate::resources::{
    account_bytes, balance_bytes, transfer_events_bytes, AccountResource, AccountResourceView,
    BalanceResource, TransferEventsResource,
};
use crate::state_key::{Address, StateKey, StateKeyView};
use crate::write_set::{apply_ops, StateMap, WriteEntryView, WriteOp, WriteSet};

verus! {

/// A test account: its address and its authentication key.
#[derive(Debug, Clone, Copy)]
pub struct Account {
    pub address: Address,
    pub authentication_key: [u8; 32],
}

impl Account {
    /// The account's address.
    pub fn address(&self) -> (r: &Address)
        ensures
            *r == self.address,
    {
        &self.address
    }
}

/// An account together with what the state is to hold for it.
#[derive(Debug, Clone, Copy)]
pub struct AccountData {
    pub account: Account,
    pub balance: u64,
    pub sequence_number: u64,
    pub sent_events_count: u64,
    pub received_events_count: u64,
}

impl AccountData {
    /// The data of a new account: the given balance and sequence number,
    /// and no transfer event yet.
    pub fn new(account: Account, balance: u64, sequence_number: u64) -> (r: AccountData)
        ensures
            r == (AccountData {
                account,
                balance,
                sequence_number,
                sent_events_count: 0,
                received_events_count: 0,
            }),
    {
        AccountData { account, balance, sequence_number, sent_events_count: 0, received_events_count: 0 }
    }

    /// The account itself.
    pub fn into_account(self) -> (r: Account)
        ensures
            r == self.account,
    {
        self.account
    }
}

/// The source of fresh accounts: each call hands out the next one.
pub trait KeyGenerator {
    fn generate_account(&mut self) -> (r: Account);
}

/// The key of the account record stored under `address`.
pub open spec fn account_resource_key(address: Seq<u8>) -> StateKeyView {
    resource_key(address, "Account"@, "Account"@)
}

/// The key of the balance stored under `address`.
pub open spec fn balance_resource_key(address: Seq<u8>) -> StateKeyView {
    resource_key(address, "TestCoin"@, "Balance"@)
}

/// The key of the transfer-event counters stored under `address`.
pub open spec fn transfer_events_resource_key(address: Seq<u8>) -> StateKeyView {
    resource_key(address, "TestCoin"@, "TransferEvents"@)
}

proof fn lemma_resource_names_usable()
    ensures
        usable_name("Account"@) && "Account"@.len() == 7,
        usable_name("TestCoin"@) && "TestCoin"@.len() == 8,
        usable_name("Balance"@) && "Balance"@.len() == 7,
        usable_name("TransferEvents"@) && "TransferEvents"@.len() == 14,
{
    reveal_strlit("Account");
    reveal_strlit("TestCoin");
    reveal_strlit("Balance");
    reveal_strlit("TransferEvents");
}

/// The three resources of an account lie under three different keys, and
/// the resources of two accounts lie under the same key only where the
/// addresses are the same and the resources are of the same kind.
pub proof fn lemma_account_keys_differ(a: Seq<u8>, b: Seq<u8>)
    ensures
        account_resource_key(a) != balance_resource_key(b),
        account_resource_key(a) != transfer_events_resource_key(b),
        balance_resource_key(a) != transfer_events_resource_key(b),
        account_resource_key(a) == account_resource_key(b) ==> a == b,
        balance_resource_key(a) == balance_resource_key(b) ==> a == b,
        transfer_events_resource_key(a) == transfer_events_resource_key(b) ==> a == b,
{
    lemma_resource_names_usable();
    if account_resource_key(a) == balance_resource_key(b) {
        lemma_resource_key_injective(a, "Account"@, "Account"@, b, "TestCoin"@, "Balance"@);
    }
    if account_resource_key(a) == transfer_events_resource_key(b) {
        lemma_resource_key_injective(a, "Account"@, "Account"@, b, "TestCoin"@, "TransferEvents"@);
    }
    if balance_resource_key(a) == transfer_events_resource_key(b) {
        lemma_resource_key_injective(a, "TestCoin"@, "Balance"@, b, "TestCoin"@, "TransferEvents"@);
    }
}

/// The state key of the account record under `address`.
pub fn account_key(address: &Address) -> (r: StateKey)
    ensures
        r@ == account_resource_key(address@),
{
    proof {
        lemma_resource_names_usable();
    }
    match resource_state_key(address, "Account", "Account") {
        Some(key) => key,
        None => StateKey::new(*address, Vec::new()),
    }
}

/// The state key of the balance under `address`.
pub fn balance_key(address: &Address) -> (r: StateKey)
    ensures
        r@ == balance_resource_key(address@),
{
    proof {
        lemma_resource_names_usable();
    }
    match resource_state_key(address, "TestCoin", "Balance") {
        Some(key) => key,
        None => StateKey::new(*address, Vec::new()),
    }
}

/// The state key of the transfer-event counters under `address`.
pub fn transfer_events_key(address: &Address) -> (r: StateKey)
    ensures
        r@ == transfer_events_resource_key(address@),
{
    proof {
        lemma_resource_names_usable();
    }
    match resource_state_key(address, "TestCoin", "TransferEvents") {
        Some(key) => key,
        None => StateKey::new(*address, Vec::new()),
    }
}

/// The state with one account published: its record, its balance and its
/// event counters, each under its key.
pub open spec fn with_account(state: StateMap, data: AccountData) -> StateMap {
    let address = data.account.address@;
    state.insert(account_resource_key(address), account_bytes((data.account.authentication_key@, data.sequence_number))).insert(
        balance_resource_key(address),
        balance_bytes(BalanceResource { coin: data.balance }),
    ).insert(
        transfer_events_resource_key(address),
        transfer_events_bytes(
            TransferEventsResource {
                sent_events_count: data.sent_events_count,
                received_events_count: data.received_events_count,
            },
        ),
    )
}

/// Whether a state holds an account under `address` with these numbers:
/// a record with some key of thirty-two bytes and the sequence number, the
/// balance, and the two event counters, each under its own key.
pub open spec fn holds_account(
    state: StateMap,
    address: Seq<u8>,
    balance: u64,
    sequence_number: u64,
    sent_events_count: u64,
    received_events_count: u64,
) -> bool {
    &&& state.contains_key(balance_resource_key(address))
    &&& state[balance_resource_key(address)] == balance_bytes(BalanceResource { coin: balance })
    &&& state.contains_key(transfer_events_resource_key(address))
    &&& state[transfer_events_resource_key(address)] == transfer_events_bytes(
        TransferEventsResource { sent_events_count, received_events_count },
    )
    &&& state.contains_key(account_resource_key(address))
    &&& exists|key: Seq<u8>|
        key.len() == 32 && state[account_resource_key(address)] == #[trigger] account_bytes(
            (key, sequence_number),
        )
}

/// A published account is held by the state: its three resources read
/// back as they were written.
pub proof fn lemma_published_account_is_held(state: StateMap, data: AccountData)
    ensures
        holds_account(
            with_account(state, data),
            data.account.address@,
            data.balance,
            data.sequence_number,
            data.sent_events_count,
            data.received_events_count,
        ),
        with_account(state, data)[account_resource_key(data.account.address@)] == account_bytes(
            (data.account.authentication_key@, data.sequence_number),
        ),
{
    let address = data.account.address@;
    lemma_account_keys_differ(address, address);
    let record = account_bytes((data.account.authentication_key@, data.sequence_number));
    assert(with_account(state, data)[account_resource_key(address)] == record);
    assert(data.account.authentication_key@.len() == 32);
}

/// Publishing one more account with the same numbers leaves every account
/// that the state held with those numbers held, whether or not the two
/// share an address.
pub proof fn lemma_held_account_stays(state: StateMap, data: AccountData, address: Seq<u8>)
    requires
        holds_account(
            state,
            address,
            data.balance,
            data.sequence_number,
            data.sent_events_count,
            data.received_events_count,
        ),
    ensures
        holds_account(
            with_account(state, data),
            address,
            data.balance,
            data.sequence_number,
            data.sent_events_count,
            data.received_events_count,
        ),
{
    let other = data.account.address@;
    lemma_account_keys_differ(address, other);
    lemma_account_keys_differ(other, address);
    lemma_account_keys_differ(other, other);
    if address == other {
        lemma_published_account_is_held(state, data);
    } else {
        let after = with_account(state, data);
        assert(after[account_resource_key(address)] == state[account_resource_key(address)]);
        let key = choose|key: Seq<u8>|
            key.len() == 32 && state[account_resource_key(address)] == #[trigger] account_bytes(
                (key, data.sequence_number),
            );
        assert(after[account_resource_key(address)] == account_bytes((key, data.sequence_number)));
    }
}

/// An account record that a write set writes last under an address reads
/// back after the write set is applied, whatever the state held before
/// and whatever else the write set does: so does the record that a direct
/// invocation leaves.
pub proof fn lemma_written_account_reads_back(
    state: StateMap,
    ops: Seq<WriteEntryView>,
    address: Seq<u8>,
    record: crate::resources::AccountResourceView,
    last: int,
)
    requires
        crate::write_set::is_last_op_on(ops, account_resource_key(address), last),
        ops[last].1 == Some(account_bytes(record)),
    ensures
        slot_bytes(apply_ops(state, ops), account_resource_key(address)) == Ok::<Seq<u8>, HarnessErrorView>(
            account_bytes(record),
        ),
{
    crate::write_set::lemma_last_write_wins(state, ops, account_resource_key(address), last);
}

/// The state with every account of a list published, in order.
pub open spec fn with_accounts(state: StateMap, accounts: Seq<AccountData>) -> StateMap
    decreases accounts.len(),
{
    if accounts.len() == 0 {
        state
    } else {
        with_account(with_accounts(state, accounts.drop_last()), accounts.last())
    }
}

/// The data of freshly made accounts that all get the same balance and
/// sequence number.
pub open spec fn uniform_data(accounts: Seq<Account>, balance: u64, sequence_number: u64) -> Seq<AccountData> {
    Seq::new(
        accounts.len(),
        |i: int|
            AccountData {
                account: accounts[i],
                balance,
                sequence_number,
                sent_events_count: 0,
                received_events_count: 0,
            },
    )
}

/// What reading a resource gives: an error where the slot was never
/// written; `None` where it holds bytes that are no such resource; else
/// the resource.
pub open spec fn slot_bytes(state: StateMap, key: StateKeyView) -> Result<Seq<u8>, HarnessErrorView> {
    if state.contains_key(key) {
        Ok(state[key])
    } else {
        Err(HarnessErrorView::ResourceNotFound)
    }
}

impl<S: BlockExecutor, P: BlockExecutor> FakeExecutor<S, P> {
    /// Makes one account without storing anything for it.
    pub fn create_raw_account<K: KeyGenerator>(&self, keys: &mut K) -> (r: Account) {
        keys.generate_account()
    }

    /// Makes one account and its data without storing anything for it.
    pub fn create_raw_account_data<K: KeyGenerator>(&self, keys: &mut K, balance: u64, seq_num: u64) -> (r:
        AccountData)
        ensures
            r.balance == balance,
            r.sequence_number == seq_num,
            r.sent_events_count == 0,
            r.received_events_count == 0,
    {
        AccountData::new(keys.generate_account(), balance, seq_num)
    }

    /// Publishes an account into the state: its record, its balance and
    /// its event counters.
    pub fn add_account_data(&mut self, account_data: &AccountData)
        requires
            old(self).wf(),
        ensures
            final(self).wf(),
            final(self).state()@ == with_account(old(self).state()@, *account_data),
            holds_account(
                final(self).state()@,
                account_data.account.address@,
                account_data.balance,
                account_data.sequence_number,
                account_data.sent_events_count,
                account_data.received_events_count,
            ),
            final(self).time() == old(self).time(),
            final(self).trace_view() == old(self).trace_view(),
            final(self).golden_name() == old(self).golden_name(),
    {
        let address = &account_data.account.address;
        let record = AccountResource {
            authentication_key: account_data.account.authentication_key,
            sequence_number: account_data.sequence_number,
        };
        let balance = BalanceResource { coin: account_data.balance };
        let events = TransferEventsResource {
            sent_events_count: account_data.sent_events_count,
            received_events_count: account_data.received_events_count,
        };
        let mut write_set = WriteSet::empty();
        write_set.push(account_key(address), WriteOp::Value(record.to_bytes()));
        let ghost ops1 = write_set@;
        write_set.push(balance_key(address), WriteOp::Value(balance.to_bytes()));
        let ghost ops2 = write_set@;
        write_set.push(transfer_events_key(address), WriteOp::Value(events.to_bytes()));
        proof {
            let ops3 = write_set@;
            let start = old(self).state()@;
            assert(ops1.drop_last() =~= Seq::<WriteEntryView>::empty());
            assert(ops2.drop_last() =~= ops1);
            assert(ops3.drop_last() =~= ops2);
            assert(apply_ops(start, ops1.drop_last()) == start);
            let s1 = start.insert(account_resource_key(address@), account_bytes(record@));
            assert(ops1.last() == (account_resource_key(address@), Some(account_bytes(record@))));
            assert(apply_ops(start, ops1) == s1);
            let s2 = s1.insert(balance_resource_key(address@), balance_bytes(balance));
            assert(ops2.last() == (balance_resource_key(address@), Some(balance_bytes(balance))));
            assert(apply_ops(start, ops2) == s2);
            let s3 = s2.insert(transfer_events_resource_key(address@), transfer_events_bytes(events));
            assert(ops3.last() == (transfer_events_resource_key(address@), Some(transfer_events_bytes(events))));
            assert(apply_ops(start, ops3) == s3);
            assert(s3 == with_account(start, *account_data));
        }
        self.apply_write_set(&write_set);
        proof {
            lemma_published_account_is_held(old(self).state()@, *account_data);
        }
    }

    /// Makes `size` accounts, all with the same balance and sequence
    /// number, and publishes each into the state.
    pub fn create_accounts<K: KeyGenerator>(&mut self, keys: &mut K, size: usize, balance: u64, seq_num: u64) -> (r:
        Vec<Account>)
        requires
            old(self).wf(),
        ensures
            final(self).wf(),
            r@.len() == size,
            final(self).state()@ == with_accounts(old(self).state()@, uniform_data(r@, balance, seq_num)),
            forall|i: int|
                0 <= i < r@.len() ==> holds_account(
                    final(self).state()@,
                    (#[trigger] r@[i]).address@,
                    balance,
                    seq_num,
                    0,
                    0,
                ),
            final(self).time() == old(self).time(),
            final(self).trace_view() == old(self).trace_view(),
            final(self).golden_name() == old(self).golden_name(),
    {
        let mut accounts: Vec<Account> = Vec::new();
        let mut i: usize = 0;
        while i < size
            invariant
                i <= size,
                accounts@.len() == i,
                self.wf(),
                self.state()@ == with_accounts(old(self).state()@, uniform_data(accounts@, balance, seq_num)),
                forall|j: int|
                    0 <= j < accounts@.len() ==> holds_account(
                        self.state()@,
                        (#[trigger] accounts@[j]).address@,
                        balance,
                        seq_num,
                        0,
                        0,
                    ),
                self.time() == old(self).time(),
                self.trace_view() == old(self).trace_view(),
                self.golden_name() == old(self).golden_name(),
            decreases size - i,
        {
            let account_data = AccountData::new(keys.generate_account(), balance, seq_num);
            let ghost before = accounts@;
            let ghost state_before = self.state()@;
            self.add_account_data(&account_data);
            accounts.push(account_data.into_account());
            proof {
                let data = uniform_data(accounts@, balance, seq_num);
                assert(data.drop_last() =~= uniform_data(before, balance, seq_num));
                assert(data.last() == account_data);
                assert forall|j: int| 0 <= j < accounts@.len() implies holds_account(
                    self.state()@,
                    (#[trigger] accounts@[j]).address@,
                    balance,
                    seq_num,
                    0,
                    0,
                ) by {
                    if j < before.len() {
                        assert(accounts@[j] == before[j]);
                        lemma_held_account_stays(state_before, account_data, before[j].address@);
                    }
                }
            }
            i += 1;
        }
        accounts
    }

    /// Reads the account record stored under `addr`. A record that was
    /// never written is an error; bytes that are no record give `None`.
    pub fn read_account_resource_at_address(&self, addr: &Address) -> (r: Result<Option<AccountResource>, HarnessError>)
        requires
            self.wf(),
        ensures
            match r {
                Ok(Some(record)) => slot_bytes(self.state()@, account_resource_key(addr@)) == Ok::<
                    Seq<u8>,
                    HarnessErrorView,
                >(account_bytes(record@)),
                Ok(None) => slot_bytes(self.state()@, account_resource_key(addr@)) is Ok && slot_bytes(
                    self.state()@,
                    account_resource_key(addr@),
                )->Ok_0.len() != 40,
                Err(e) => slot_bytes(self.state()@, account_resource_key(addr@)) == Err::<
                    Seq<u8>,
                    HarnessErrorView,
                >(e@),
            },
            forall|record: AccountResourceView|
                record.0.len() == 32 && slot_bytes(self.state()@, account_resource_key(addr@)) == Ok::<Seq<u8>, HarnessErrorView>(
                    #[trigger] account_bytes(record),
                ) ==> r is Ok && r->Ok_0 is Some && r->Ok_0->Some_0@ == record,
    {
        match self.read_from_access_path(&account_key(addr)) {
            Some(bytes) => Ok(AccountResource::from_bytes(&bytes)),
            None => Err(HarnessError::ResourceNotFound),
        }
    }

    /// Reads the account record of `account`.
    pub fn read_account_resource(&self, account: &Account) -> (r: Result<Option<AccountResource>, HarnessError>)
        requires
            self.wf(),
        ensures
            match r {
                Ok(Some(record)) => slot_bytes(self.state()@, account_resource_key(account.address@)) == Ok::<
                    Seq<u8>,
                    HarnessErrorView,
                >(account_bytes(record@)),
                Ok(None) => slot_bytes(self.state()@, account_resource_key(account.address@)) is Ok
                    && slot_bytes(self.state()@, account_resource_key(account.address@))->Ok_0.len() != 40,
                Err(e) => slot_bytes(self.state()@, account_resource_key(account.address@)) == Err::<
                    Seq<u8>,
                    HarnessErrorView,
                >(e@),
            },
            forall|record: AccountResourceView|
                record.0.len() == 32 && slot_bytes(self.state()@, account_resource_key(account.address@)) == Ok::<Seq<u8>, HarnessErrorView>(
                    #[trigger] account_bytes(record),
                ) ==> r is Ok && r->Ok_0 is Some && r->Ok_0->Some_0@ == record,
    {
        self.read_account_resource_at_address(account.address())
    }

    /// Reads the balance stored under `addr`. A balance that was never
    /// written is an error; bytes that are no balance give `None`.
    pub fn read_balance_resource_at_address(&self, addr: &Address) -> (r: Result<Option<BalanceResource>, HarnessError>)
        requires
            self.wf(),
        ensures
            match r {
                Ok(Some(balance)) => slot_bytes(self.state()@, balance_resource_key(addr@)) == Ok::<
                    Seq<u8>,
                    HarnessErrorView,
                >(balance_bytes(balance)),
                Ok(None) => slot_bytes(self.state()@, balance_resource_key(addr@)) is Ok && slot_bytes(
                    self.state()@,
                    balance_resource_key(addr@),
                )->Ok_0.len() != 8,
                Err(e) => slot_bytes(self.state()@, balance_resource_key(addr@)) == Err::<
                    Seq<u8>,
                    HarnessErrorView,
                >(e@),
            },
            forall|balance: BalanceResource|
                slot_bytes(self.state()@, balance_resource_key(addr@)) == Ok::<Seq<u8>, HarnessErrorView>(
                    #[trigger] balance_bytes(balance),
                ) ==> r is Ok && r->Ok_0 == Some(balance),
    {
        match self.read_from_access_path(&balance_key(addr)) {
            Some(bytes) => Ok(BalanceResource::from_bytes(&bytes)),
            None => Err(HarnessError::ResourceNotFound),
        }
    }

    /// Reads the balance of `account`.
    pub fn read_balance_resource(&self, account: &Account) -> (r: Result<Option<BalanceResource>, HarnessError>)
        requires
            self.wf(),
        ensures
            match r {
                Ok(Some(balance)) => slot_bytes(self.state()@, balance_resource_key(account.address@)) == Ok::<
                    Seq<u8>,
                    HarnessErrorView,
                >(balance_bytes(balance)),
                Ok(None) => slot_bytes(self.state()@, balance_resource_key(account.address@)) is Ok
                    && slot_bytes(self.state()@, balance_resource_key(account.address@))->Ok_0.len() != 8,
                Err(e) => slot_bytes(self.state()@, balance_resource_key(account.address@)) == Err::<
                    Seq<u8>,
                    HarnessErrorView,
                >(e@),
            },
            forall|balance: BalanceResource|
                slot_bytes(self.state()@, balance_resource_key(account.address@)) == Ok::<Seq<u8>, HarnessErrorView>(
                    #[trigger] balance_bytes(balance),
                ) ==> r is Ok && r->Ok_0 == Some(balance),
    {
        self.read_balance_resource_at_address(account.address())
    }

    /// Reads the transfer-event counters of `account`. Counters that were
    /// never written are an error; bytes that are no counters give `None`.
    pub fn read_transfer_event(&self, account: &Account) -> (r: Result<Option<TransferEventsResource>, HarnessError>)
        requires
            self.wf(),
        ensures
            match r {
                Ok(Some(events)) => slot_bytes(self.state()@, transfer_events_resource_key(account.address@))
                    == Ok::<Seq<u8>, HarnessErrorView>(transfer_events_bytes(events)),
                Ok(None) => slot_bytes(self.state()@, transfer_events_resource_key(account.address@)) is Ok
                    && slot_bytes(self.state()@, transfer_events_resource_key(account.address@))->Ok_0.len()
                    != 16,
                Err(e) => slot_bytes(self.state()@, transfer_events_resource_key(account.address@)) == Err::<
                    Seq<u8>,
                    HarnessErrorView,
                >(e@),
            },
            forall|events: TransferEventsResource|
                slot_bytes(self.state()@, transfer_events_resource_key(account.address@)) == Ok::<Seq<u8>, HarnessErrorView>(
                    #[trigger] transfer_events_bytes(events),
                ) ==> r is Ok && r->Ok_0 == Some(events),
    {
        match self.read_from_access_path(&transfer_events_key(account.address())) {
            Some(bytes) => Ok(TransferEventsResource::from_bytes(&bytes)),
            None => Err(HarnessError::ResourceNotFound),
        }
    }
}

} // verus!
