use std::cell::RefCell;
use std::rc::Rc;

use fake_executor::accounts::{account_key, balance_key, transfer_events_key, Account, KeyGenerator};
use fake_executor::collaborators::{
    BlockExecutor, ConfigFetcher, SessionFailure, SessionRunner, TransactionValidator,
};
use fake_executor::data_store::FakeDataStore;
use fake_executor::executor::{cross_check, sole_output, FakeExecutor, HarnessError};
use fake_executor::progression::{check_block_event, new_block_event_key};
use fake_executor::resources::{AccountResource, BalanceResource, TransferEventsResource};
use fake_executor::state_key::{Address, StateKey};
use fake_executor::trace::TraceError;
use fake_executor::transaction::{
    ChangeSet, ContractEvent, ExecutionStatus, SignedTransaction, Transaction, TransactionOutput,
    TransactionStatus, VMStatus, VMValidatorResult,
};
use fake_executor::write_set::{WriteOp, WriteSet};

fn key(n: u8) -> StateKey {
    StateKey::new(Address::new([n; 16]), vec![n])
}

fn output(gas: u64, status: TransactionStatus) -> TransactionOutput {
    let mut write_set = WriteSet::empty();
    write_set.push(key(1), WriteOp::Value(vec![gas as u8]));
    TransactionOutput {
        write_set,
        events: vec![ContractEvent { key: vec![1], sequence_number: 0, event_data: vec![2] }],
        gas_used: gas,
        status,
    }
}

fn kept(gas: u64) -> TransactionOutput {
    output(gas, TransactionStatus::Keep(ExecutionStatus::Success))
}

fn failure(code: u64, text: &str) -> VMStatus {
    VMStatus { status_code: code, message: String::from(text) }
}

fn copy_outputs(outputs: &Vec<TransactionOutput>) -> Vec<TransactionOutput> {
    outputs.iter().map(|o| o.duplicate()).collect()
}

fn copy_result(result: &Result<Vec<TransactionOutput>, VMStatus>) -> Result<Vec<TransactionOutput>, VMStatus> {
    match result {
        Ok(outputs) => Ok(copy_outputs(outputs)),
        Err(status) => Err(status.duplicate()),
    }
}

fn user(sender: u8, payload: Vec<u8>) -> SignedTransaction {
    SignedTransaction { sender: Address::new([sender; 16]), sequence_number: 0, payload }
}

/// An execution path that hands back what it was told to, and notes the
/// concurrency level and block length of each call.
struct Scripted {
    result: Result<Vec<TransactionOutput>, VMStatus>,
    calls: Rc<RefCell<Vec<(usize, usize)>>>,
}

impl Scripted {
    fn new(result: Result<Vec<TransactionOutput>, VMStatus>) -> Scripted {
        Scripted { result, calls: Rc::new(RefCell::new(Vec::new())) }
    }
}

impl BlockExecutor for Scripted {
    fn execute_block(
        &self,
        transactions: &Vec<Transaction>,
        _state_view: &FakeDataStore,
        concurrency_level: usize,
    ) -> Result<Vec<TransactionOutput>, VMStatus> {
        self.calls.borrow_mut().push((concurrency_level, transactions.len()));
        copy_result(&self.result)
    }

    fn execute_block_and_keep_vm_status(
        &self,
        _transactions: &Vec<Transaction>,
        _state_view: &FakeDataStore,
    ) -> Result<Vec<(VMStatus, TransactionOutput)>, VMStatus> {
        match &self.result {
            Ok(outputs) => Ok(outputs.iter().map(|o| (failure(0, "executed"), o.duplicate())).collect()),
            Err(status) => Err(status.duplicate()),
        }
    }
}

fn scripted_pair(
    sequential: Result<Vec<TransactionOutput>, VMStatus>,
    parallel: Result<Vec<TransactionOutput>, VMStatus>,
) -> FakeExecutor<Scripted, Scripted> {
    FakeExecutor::no_genesis(Scripted::new(sequential), Scripted::new(parallel))
}

fn le(v: u64) -> Vec<u8> {
    v.to_le_bytes().to_vec()
}

fn read_u64(state: &FakeDataStore, key: &StateKey) -> Option<u64> {
    let bytes = state.get(key)?;
    let mut raw = [0u8; 8];
    raw.copy_from_slice(&bytes[0..8]);
    Some(u64::from_le_bytes(raw))
}

fn timestamp_key() -> StateKey {
    StateKey::new(Address::core_code(), vec![b't', b's'])
}

/// A small ledger engine: a user transaction's payload names a recipient
/// and an amount to transfer; a block-boundary record stores its time and
/// emits the block-start event.
struct Ledger {
    blocks: Rc<RefCell<Vec<(Vec<u8>, u64, u64, Vec<bool>, u64, u64)>>>,
}

impl Ledger {
    fn new() -> Ledger {
        Ledger { blocks: Rc::new(RefCell::new(Vec::new())) }
    }

    fn transfer(&self, txn: &SignedTransaction, state: &FakeDataStore) -> TransactionOutput {
        let mut to = [0u8; 16];
        to.copy_from_slice(&txn.payload[0..16]);
        let recipient = Address::new(to);
        let mut raw = [0u8; 8];
        raw.copy_from_slice(&txn.payload[16..24]);
        let amount = u64::from_le_bytes(raw);
        let from_balance = match read_u64(state, &balance_key(&txn.sender)) {
            Some(b) => b,
            None => {
                return TransactionOutput {
                    write_set: WriteSet::empty(),
                    events: vec![],
                    gas_used: 0,
                    status: TransactionStatus::Discard(5),
                };
            }
        };
        let to_balance = read_u64(state, &balance_key(&recipient)).unwrap_or(0);
        if from_balance < amount {
            return TransactionOutput {
                write_set: WriteSet::empty(),
                events: vec![],
                gas_used: 1,
                status: TransactionStatus::Keep(ExecutionStatus::MoveAbort(10)),
            };
        }
        let sent = TransferEventsResource::from_bytes(&state.get(&transfer_events_key(&txn.sender)).unwrap()).unwrap();
        let mut write_set = WriteSet::empty();
        write_set.push(balance_key(&txn.sender), WriteOp::Value(le(from_balance - amount)));
        write_set.push(balance_key(&recipient), WriteOp::Value(le(to_balance + amount)));
        write_set.push(
            transfer_events_key(&txn.sender),
            WriteOp::Value(
                TransferEventsResource {
                    sent_events_count: sent.sent_events_count + 1,
                    received_events_count: sent.received_events_count,
                }
                .to_bytes(),
            ),
        );
        TransactionOutput {
            write_set,
            events: vec![ContractEvent {
                key: txn.sender.to_vec(),
                sequence_number: sent.sent_events_count,
                event_data: le(amount),
            }],
            gas_used: 3,
            status: TransactionStatus::Keep(ExecutionStatus::Success),
        }
    }
}

impl BlockExecutor for Ledger {
    fn execute_block(
        &self,
        transactions: &Vec<Transaction>,
        state_view: &FakeDataStore,
        _concurrency_level: usize,
    ) -> Result<Vec<TransactionOutput>, VMStatus> {
        let mut outputs = Vec::new();
        for txn in transactions {
            match txn {
                Transaction::UserTransaction(t) => outputs.push(self.transfer(t, state_view)),
                Transaction::BlockMetadata(b) => {
                    self.blocks.borrow_mut().push((
                        b.id.clone(),
                        b.epoch,
                        b.round,
                        b.previous_block_votes.clone(),
                        b.proposer_index,
                        b.timestamp_usecs,
                    ));
                    let mut write_set = WriteSet::empty();
                    write_set.push(timestamp_key(), WriteOp::Value(le(b.timestamp_usecs)));
                    let payload = bcs::to_bytes(&(
                        b.epoch,
                        b.round,
                        b.previous_block_votes.clone(),
                        b.proposer_index,
                        b.timestamp_usecs,
                    ))
                    .unwrap();
                    outputs.push(TransactionOutput {
                        write_set,
                        events: vec![ContractEvent {
                            key: new_block_event_key(),
                            sequence_number: 0,
                            event_data: payload,
                        }],
                        gas_used: 0,
                        status: TransactionStatus::Keep(ExecutionStatus::Success),
                    });
                }
            }
        }
        Ok(outputs)
    }

    fn execute_block_and_keep_vm_status(
        &self,
        transactions: &Vec<Transaction>,
        state_view: &FakeDataStore,
    ) -> Result<Vec<(VMStatus, TransactionOutput)>, VMStatus> {
        let outputs = self.execute_block(transactions, state_view, 1)?;
        Ok(outputs.into_iter().map(|o| (failure(0, "executed"), o)).collect())
    }
}

struct Config {
    validators: Option<usize>,
    version: Option<u64>,
}

impl ConfigFetcher for Config {
    fn validator_count(&self, _state_view: &FakeDataStore) -> Option<usize> {
        self.validators
    }

    fn version_major(&self, _state_view: &FakeDataStore) -> Option<u64> {
        self.version
    }
}

struct Keys {
    next: u8,
}

impl KeyGenerator for Keys {
    fn generate_account(&mut self) -> Account {
        self.next += 1;
        Account { address: Address::new([self.next; 16]), authentication_key: [self.next; 32] }
    }
}

fn transfer_payload(to: &Address, amount: u64) -> Vec<u8> {
    let mut payload = to.to_vec();
    payload.extend(le(amount));
    payload
}

#[test]
fn agreeing_paths_give_the_sequential_outputs() {
    let outputs = vec![kept(1), kept(2)];
    let sequential = Scripted::new(Ok(copy_outputs(&outputs)));
    let parallel = Scripted::new(Ok(copy_outputs(&outputs)));
    let seq_calls = sequential.calls.clone();
    let par_calls = parallel.calls.clone();
    let mut executor = FakeExecutor::no_genesis(sequential, parallel);
    let block = vec![
        Transaction::UserTransaction(user(1, vec![])),
        Transaction::UserTransaction(user(2, vec![])),
    ];
    let result = executor.execute_transaction_block(block).unwrap();
    assert_eq!(result.len(), 2);
    assert!(result[0].same_as(&outputs[0]));
    assert!(result[1].same_as(&outputs[1]));
    assert_eq!(*seq_calls.borrow(), vec![(1usize, 2usize)]);
    assert_eq!(*par_calls.borrow(), vec![(num_cpus::get(), 2usize)]);
    assert_eq!(executor.get_state_view().len(), 0);
    assert!(executor.get_trace().is_none());
}

#[test]
fn divergent_concurrent_path_is_rejected() {
    let mut by_gas = scripted_pair(Ok(vec![kept(1)]), Ok(vec![kept(2)]));
    assert!(matches!(
        by_gas.execute_transaction_block(vec![Transaction::UserTransaction(user(1, vec![]))]),
        Err(HarnessError::Divergence)
    ));
    assert_eq!(by_gas.get_state_view().len(), 0);

    let mut by_status = scripted_pair(
        Ok(vec![output(1, TransactionStatus::Keep(ExecutionStatus::Success))]),
        Ok(vec![output(1, TransactionStatus::Keep(ExecutionStatus::OutOfGas))]),
    );
    assert!(matches!(by_status.execute_block(vec![user(1, vec![])]), Err(HarnessError::Divergence)));

    let mut by_length = scripted_pair(Ok(vec![kept(1)]), Ok(vec![kept(1), kept(1)]));
    assert!(matches!(by_length.execute_block(vec![user(1, vec![])]), Err(HarnessError::Divergence)));

    let mut by_order = scripted_pair(Ok(vec![kept(1), kept(2)]), Ok(vec![kept(2), kept(1)]));
    assert!(matches!(by_order.execute_block(vec![user(1, vec![])]), Err(HarnessError::Divergence)));

    let mut other_events = kept(1);
    other_events.events[0].event_data = vec![3];
    let mut by_events = scripted_pair(Ok(vec![kept(1)]), Ok(vec![other_events]));
    assert!(matches!(by_events.execute_block(vec![user(1, vec![])]), Err(HarnessError::Divergence)));

    let mut other_writes = kept(1);
    other_writes.write_set.push(key(2), WriteOp::Deletion);
    let mut by_writes = scripted_pair(Ok(vec![kept(1)]), Ok(vec![other_writes]));
    assert!(matches!(by_writes.execute_block(vec![user(1, vec![])]), Err(HarnessError::Divergence)));
}

#[test]
fn engine_failure_is_surfaced_when_both_paths_report_it() {
    let mut same = scripted_pair(Err(failure(7, "boom")), Err(failure(7, "boom")));
    match same.execute_block(vec![user(1, vec![])]) {
        Err(HarnessError::VmFailure(status)) => {
            assert_eq!(status.status_code, 7);
            assert_eq!(status.message, "boom");
            assert_eq!(status.description(), "boom");
        }
        other => panic!("unexpected result {:?}", other),
    }
    let mut different = scripted_pair(Err(failure(7, "boom")), Err(failure(8, "boom")));
    assert!(matches!(different.execute_block(vec![user(1, vec![])]), Err(HarnessError::Divergence)));
    let mut texts = scripted_pair(Err(failure(7, "boom")), Err(failure(7, "bang")));
    assert!(matches!(texts.execute_block(vec![user(1, vec![])]), Err(HarnessError::Divergence)));
    let mut mixed = scripted_pair(Ok(vec![]), Err(failure(7, "boom")));
    assert!(matches!(mixed.execute_block(vec![user(1, vec![])]), Err(HarnessError::Divergence)));
}

#[test]
fn cross_check_takes_results_as_values() {
    let agreed = cross_check(Ok(vec![kept(4)]), Ok(vec![kept(4)])).unwrap();
    assert_eq!(agreed.len(), 1);
    assert!(agreed[0].same_as(&kept(4)));
    assert!(cross_check(Ok(vec![]), Ok(vec![])).unwrap().is_empty());
    assert!(matches!(cross_check(Ok(vec![kept(4)]), Ok(vec![kept(5)])), Err(HarnessError::Divergence)));
    assert!(matches!(
        cross_check(Err(failure(1, "x")), Err(failure(1, "x"))),
        Err(HarnessError::VmFailure(_))
    ));
}

#[test]
fn single_transaction_form_needs_exactly_one_output() {
    let mut none = scripted_pair(Ok(vec![]), Ok(vec![]));
    assert!(matches!(none.execute_transaction(user(1, vec![])), Err(HarnessError::OutputCount)));
    let mut two = scripted_pair(Ok(vec![kept(1), kept(2)]), Ok(vec![kept(1), kept(2)]));
    assert!(matches!(two.execute_transaction(user(1, vec![])), Err(HarnessError::OutputCount)));
    let mut one = scripted_pair(Ok(vec![kept(9)]), Ok(vec![kept(9)]));
    let out = one.execute_transaction(user(1, vec![])).unwrap();
    assert!(out.same_as(&kept(9)));
    assert_eq!(one.get_state_view().len(), 0);
    assert!(matches!(sole_output(vec![]), Err(HarnessError::OutputCount)));
    assert!(sole_output(vec![kept(3)]).unwrap().same_as(&kept(3)));
    let mut failing = scripted_pair(Err(failure(2, "down")), Err(failure(2, "down")));
    assert!(matches!(failing.execute_transaction(user(1, vec![])), Err(HarnessError::VmFailure(_))));
}

#[test]
fn apply_form_applies_only_kept_success() {
    let mut good = scripted_pair(Ok(vec![kept(6)]), Ok(vec![kept(6)]));
    let out = good.execute_and_apply(user(1, vec![])).unwrap();
    assert!(out.same_as(&kept(6)));
    assert_eq!(good.read_from_access_path(&key(1)), Some(vec![6]));

    let out_of_gas = output(6, TransactionStatus::Keep(ExecutionStatus::OutOfGas));
    let mut failed = scripted_pair(Ok(vec![out_of_gas.duplicate()]), Ok(vec![out_of_gas]));
    assert!(matches!(
        failed.execute_and_apply(user(1, vec![])),
        Err(HarnessError::TransactionFailed(ExecutionStatus::OutOfGas))
    ));
    assert_eq!(failed.read_from_access_path(&key(1)), None);

    let aborted = output(6, TransactionStatus::Keep(ExecutionStatus::MoveAbort(33)));
    let mut abort = scripted_pair(Ok(vec![aborted.duplicate()]), Ok(vec![aborted]));
    assert!(matches!(
        abort.execute_and_apply(user(1, vec![])),
        Err(HarnessError::TransactionFailed(ExecutionStatus::MoveAbort(33)))
    ));

    let discarded = output(0, TransactionStatus::Discard(5));
    let mut discard = scripted_pair(Ok(vec![discarded.duplicate()]), Ok(vec![discarded]));
    assert!(matches!(discard.execute_and_apply(user(1, vec![])), Err(HarnessError::TransactionDiscarded(5))));
    assert_eq!(discard.get_state_view().len(), 0);

    let retried = output(0, TransactionStatus::Retry);
    let mut retry = scripted_pair(Ok(vec![retried.duplicate()]), Ok(vec![retried]));
    assert!(matches!(retry.execute_and_apply(user(1, vec![])), Err(HarnessError::TransactionRetry)));
    assert_eq!(retry.get_state_view().len(), 0);

    let mut diverging = scripted_pair(Ok(vec![kept(1)]), Ok(vec![kept(2)]));
    assert!(matches!(diverging.execute_and_apply(user(1, vec![])), Err(HarnessError::Divergence)));
    assert_eq!(diverging.get_state_view().len(), 0);

    let mut crowded = scripted_pair(Ok(vec![kept(1), kept(1)]), Ok(vec![kept(1), kept(1)]));
    assert!(matches!(crowded.execute_and_apply(user(1, vec![])), Err(HarnessError::OutputCount)));
    assert_eq!(crowded.get_state_view().len(), 0);
}

#[test]
fn transfer_of_ten_moves_ten() {
    let mut executor = FakeExecutor::no_genesis(Ledger::new(), Ledger::new());
    let mut keys = Keys { next: 0 };
    let accounts = executor.create_accounts(&mut keys, 2, 100, 0);
    assert_eq!(accounts.len(), 2);
    let (sender, receiver) = (accounts[0], accounts[1]);
    assert_eq!(executor.read_balance_resource(&sender).unwrap(), Some(BalanceResource { coin: 100 }));
    assert_eq!(executor.read_balance_resource(&receiver).unwrap(), Some(BalanceResource { coin: 100 }));

    let txn = SignedTransaction {
        sender: sender.address,
        sequence_number: 0,
        payload: transfer_payload(&receiver.address, 10),
    };
    let out = executor.execute_and_apply(txn).unwrap();
    assert_eq!(out.status, TransactionStatus::Keep(ExecutionStatus::Success));
    assert_eq!(out.gas_used, 3);
    assert_eq!(out.events.len(), 1);
    assert_eq!(executor.read_balance_resource(&sender).unwrap(), Some(BalanceResource { coin: 90 }));
    assert_eq!(executor.read_balance_resource(&receiver).unwrap(), Some(BalanceResource { coin: 110 }));
    assert_eq!(
        executor.read_balance_resource_at_address(&receiver.address).unwrap(),
        Some(BalanceResource { coin: 110 })
    );
    assert_eq!(
        executor.read_transfer_event(&sender).unwrap(),
        Some(TransferEventsResource { sent_events_count: 1, received_events_count: 0 })
    );
    assert_eq!(
        executor.read_transfer_event(&receiver).unwrap(),
        Some(TransferEventsResource { sent_events_count: 0, received_events_count: 0 })
    );
}

#[test]
fn failed_transfer_leaves_balances() {
    let mut executor = FakeExecutor::no_genesis(Ledger::new(), Ledger::new());
    let mut keys = Keys { next: 0 };
    let accounts = executor.create_accounts(&mut keys, 2, 5, 0);
    let txn = SignedTransaction {
        sender: accounts[0].address,
        sequence_number: 0,
        payload: transfer_payload(&accounts[1].address, 10),
    };
    assert!(matches!(
        executor.execute_and_apply(txn),
        Err(HarnessError::TransactionFailed(ExecutionStatus::MoveAbort(10)))
    ));
    assert_eq!(executor.read_balance_resource(&accounts[0]).unwrap(), Some(BalanceResource { coin: 5 }));
    assert_eq!(executor.read_balance_resource(&accounts[1]).unwrap(), Some(BalanceResource { coin: 5 }));
    let stranger = SignedTransaction {
        sender: Address::new([99; 16]),
        sequence_number: 0,
        payload: transfer_payload(&accounts[1].address, 1),
    };
    assert!(matches!(executor.execute_and_apply(stranger), Err(HarnessError::TransactionDiscarded(5))));
}

#[test]
fn created_accounts_are_published_with_their_data() {
    let mut executor = FakeExecutor::no_genesis(Ledger::new(), Ledger::new());
    let mut keys = Keys { next: 0 };
    let accounts = executor.create_accounts(&mut keys, 3, 40, 7);
    assert_eq!(accounts.len(), 3);
    assert_eq!(executor.get_state_view().len(), 9);
    for (i, account) in accounts.iter().enumerate() {
        let n = (i + 1) as u8;
        assert_eq!(account.address.bytes, [n; 16]);
        let record = executor.read_account_resource(account).unwrap().unwrap();
        assert_eq!(record.authentication_key, [n; 32]);
        assert_eq!(record.sequence_number, 7);
        let at = executor.read_account_resource_at_address(&account.address).unwrap().unwrap();
        assert_eq!(at.sequence_number, 7);
        assert_eq!(executor.read_balance_resource(account).unwrap(), Some(BalanceResource { coin: 40 }));
        assert_eq!(
            executor.read_from_access_path(&balance_key(&account.address)),
            Some(vec![40, 0, 0, 0, 0, 0, 0, 0])
        );
    }
    let raw = executor.create_raw_account(&mut keys);
    assert_eq!(raw.address.bytes, [4; 16]);
    assert!(matches!(executor.read_account_resource(&raw), Err(HarnessError::ResourceNotFound)));
    assert!(matches!(executor.read_balance_resource(&raw), Err(HarnessError::ResourceNotFound)));
    assert!(matches!(executor.read_transfer_event(&raw), Err(HarnessError::ResourceNotFound)));
    let data = executor.create_raw_account_data(&mut keys, 12, 3);
    assert_eq!(data.balance, 12);
    assert_eq!(data.sequence_number, 3);
    assert_eq!(data.account.address.bytes, [5; 16]);
    assert_eq!(executor.get_state_view().len(), 9);
    executor.add_account_data(&data);
    assert_eq!(executor.get_state_view().len(), 12);
    assert_eq!(executor.read_balance_resource(&data.account).unwrap(), Some(BalanceResource { coin: 12 }));
    assert_eq!(executor.create_accounts(&mut keys, 0, 1, 1).len(), 0);
}

#[test]
fn malformed_resource_bytes_read_as_none() {
    let mut executor = FakeExecutor::no_genesis(Ledger::new(), Ledger::new());
    let address = Address::new([8; 16]);
    let mut write_set = WriteSet::empty();
    write_set.push(balance_key(&address), WriteOp::Value(vec![1, 2, 3]));
    write_set.push(account_key(&address), WriteOp::Value(vec![]));
    executor.apply_write_set(&write_set);
    assert_eq!(executor.read_balance_resource_at_address(&address).unwrap(), None);
    assert!(executor.read_account_resource_at_address(&address).unwrap().is_none());
}

#[test]
fn advancing_twice_gives_increasing_block_times() {
    let ledger = Ledger::new();
    let blocks = ledger.blocks.clone();
    let mut executor = FakeExecutor::no_genesis(ledger, Ledger::new());
    let config = Config { validators: Some(3), version: None };
    assert_eq!(executor.get_block_time(), 0);
    executor.new_block(&config).unwrap();
    assert_eq!(executor.get_block_time(), 1);
    assert_eq!(executor.read_from_access_path(&timestamp_key()), Some(le(1)));
    executor.new_block(&config).unwrap();
    assert_eq!(executor.get_block_time(), 2);
    assert_eq!(executor.read_from_access_path(&timestamp_key()), Some(le(2)));
    let seen = blocks.borrow();
    assert_eq!(seen.len(), 2);
    assert_eq!(seen[0], (vec![0u8; 32], 0, 0, vec![false; 4], 1, 1));
    assert_eq!(seen[1], (vec![0u8; 32], 0, 0, vec![false; 4], 1, 2));
}

#[test]
fn advancing_to_a_timestamp_sets_the_block_time() {
    let ledger = Ledger::new();
    let blocks = ledger.blocks.clone();
    let mut executor = FakeExecutor::no_genesis(ledger, Ledger::new());
    executor.new_block_with_timestamp(&Config { validators: Some(0), version: None }, 1000).unwrap();
    assert_eq!(executor.get_block_time(), 1000);
    assert_eq!(blocks.borrow()[0], (vec![0u8; 32], 0, 0, vec![false], 1, 1000));
    executor.set_block_time(2000);
    assert_eq!(executor.get_block_time(), 2000);
    executor.new_block(&Config { validators: Some(1), version: None }).unwrap();
    assert_eq!(executor.get_block_time(), 2001);
    executor.new_block_with_timestamp(&Config { validators: Some(1), version: None }, 2001).unwrap();
    assert_eq!(executor.get_block_time(), 2001);
    assert_eq!(blocks.borrow().len(), 3);
}

#[test]
fn a_block_before_the_block_time_is_refused_before_anything_runs() {
    let ledger = Ledger::new();
    let blocks = ledger.blocks.clone();
    let mut executor = FakeExecutor::no_genesis(ledger, Ledger::new());
    let config = Config { validators: Some(2), version: None };
    executor.set_golden_file(&config, "t", Some(String::from("root")));
    executor.new_block_with_timestamp(&config, 50).unwrap();
    assert_eq!(executor.get_block_time(), 50);
    assert_eq!(executor.get_trace().unwrap().input.count(), 1);
    assert!(matches!(
        executor.new_block_with_timestamp(&config, 49),
        Err(HarnessError::TimestampRegression)
    ));
    assert!(matches!(executor.new_block_with_timestamp(&config, 0), Err(HarnessError::TimestampRegression)));
    assert_eq!(executor.get_block_time(), 50);
    assert_eq!(executor.read_from_access_path(&timestamp_key()), Some(le(50)));
    assert_eq!(blocks.borrow().len(), 1);
    let trace = executor.get_trace().unwrap();
    assert_eq!(trace.data.count(), 1);
    assert_eq!(trace.input.count(), 1);
    assert_eq!(trace.meta.count(), 1);
    let missing = Config { validators: None, version: None };
    assert!(matches!(executor.new_block_with_timestamp(&missing, 10), Err(HarnessError::TimestampRegression)));
}

#[test]
fn a_block_output_that_was_not_kept_and_successful_is_not_applied() {
    let config = Config { validators: Some(0), version: None };
    let statuses = vec![
        TransactionStatus::Discard(7),
        TransactionStatus::Retry,
        TransactionStatus::Keep(ExecutionStatus::OutOfGas),
        TransactionStatus::Keep(ExecutionStatus::MoveAbort(3)),
    ];
    for status in statuses {
        let mut refused = block_output(vec![ContractEvent {
            key: new_block_event_key(),
            sequence_number: 0,
            event_data: valid_block_payload(),
        }]);
        refused.status = status;
        assert!(check_block_event(&refused).is_ok());
        let mut executor = scripted_pair(Ok(vec![refused.duplicate()]), Ok(vec![refused]));
        let result = executor.new_block(&config);
        match status {
            TransactionStatus::Discard(code) => {
                assert!(matches!(result, Err(HarnessError::TransactionDiscarded(c)) if c == code))
            }
            TransactionStatus::Retry => assert!(matches!(result, Err(HarnessError::TransactionRetry))),
            TransactionStatus::Keep(kept) => {
                assert!(matches!(result, Err(HarnessError::TransactionFailed(s)) if s == kept))
            }
        }
        assert_eq!(executor.get_block_time(), 0);
        assert_eq!(executor.get_state_view().len(), 0);
        assert_eq!(executor.read_from_access_path(&key(1)), None);
    }
}

#[test]
fn block_start_without_validator_set_fails() {
    let mut executor = FakeExecutor::no_genesis(Ledger::new(), Ledger::new());
    executor.set_block_time(3);
    let config = Config { validators: None, version: None };
    assert!(matches!(executor.new_block(&config), Err(HarnessError::MissingValidatorSet)));
    assert_eq!(executor.get_block_time(), 3);
    assert_eq!(executor.get_state_view().len(), 0);
    let full = Config { validators: Some(usize::MAX), version: None };
    assert!(matches!(executor.new_block_with_timestamp(&full, 9), Err(HarnessError::MissingValidatorSet)));
    assert_eq!(executor.get_block_time(), 3);
}

fn block_output(events: Vec<ContractEvent>) -> TransactionOutput {
    let mut write_set = WriteSet::empty();
    write_set.push(key(1), WriteOp::Value(vec![1]));
    TransactionOutput { write_set, events, gas_used: 0, status: TransactionStatus::Keep(ExecutionStatus::Success) }
}

fn valid_block_payload() -> Vec<u8> {
    bcs::to_bytes(&(0u64, 0u64, vec![false], 1u64, 1u64)).unwrap()
}

#[test]
fn block_start_demands_the_block_event_first() {
    let config = Config { validators: Some(0), version: None };

    let silent = block_output(vec![]);
    let mut executor = scripted_pair(Ok(vec![silent.duplicate()]), Ok(vec![silent]));
    assert!(matches!(executor.new_block(&config), Err(HarnessError::MissingBlockEvent)));
    assert_eq!(executor.get_block_time(), 0);
    assert_eq!(executor.get_state_view().len(), 0);

    let wrong_key = block_output(vec![ContractEvent {
        key: vec![1, 2, 3],
        sequence_number: 0,
        event_data: valid_block_payload(),
    }]);
    let mut executor = scripted_pair(Ok(vec![wrong_key.duplicate()]), Ok(vec![wrong_key]));
    assert!(matches!(executor.new_block(&config), Err(HarnessError::UnexpectedEventKey)));
    assert_eq!(executor.get_block_time(), 0);

    let malformed = block_output(vec![ContractEvent {
        key: new_block_event_key(),
        sequence_number: 0,
        event_data: vec![1, 2, 3],
    }]);
    let mut executor = scripted_pair(Ok(vec![malformed.duplicate()]), Ok(vec![malformed]));
    assert!(matches!(executor.new_block(&config), Err(HarnessError::MalformedBlockEvent)));
    assert_eq!(executor.get_block_time(), 0);
    assert_eq!(executor.get_state_view().len(), 0);

    let second = block_output(vec![
        ContractEvent { key: vec![9], sequence_number: 0, event_data: vec![] },
        ContractEvent { key: new_block_event_key(), sequence_number: 0, event_data: valid_block_payload() },
    ]);
    assert!(matches!(check_block_event(&second), Err(HarnessError::UnexpectedEventKey)));

    let good = block_output(vec![
        ContractEvent { key: new_block_event_key(), sequence_number: 0, event_data: valid_block_payload() },
        ContractEvent { key: vec![9], sequence_number: 0, event_data: vec![] },
    ]);
    assert!(check_block_event(&good).is_ok());
    let mut executor = scripted_pair(Ok(vec![good.duplicate()]), Ok(vec![good]));
    assert!(executor.new_block(&config).is_ok());
    assert_eq!(executor.get_block_time(), 1);
    assert_eq!(executor.read_from_access_path(&key(1)), Some(vec![1]));
}

#[test]
fn block_start_needs_one_output_and_agreeing_paths() {
    let config = Config { validators: Some(0), version: None };
    let good = block_output(vec![ContractEvent {
        key: new_block_event_key(),
        sequence_number: 0,
        event_data: valid_block_payload(),
    }]);
    let mut two = scripted_pair(
        Ok(vec![good.duplicate(), good.duplicate()]),
        Ok(vec![good.duplicate(), good.duplicate()]),
    );
    assert!(matches!(two.new_block(&config), Err(HarnessError::OutputCount)));
    assert_eq!(two.get_block_time(), 0);
    let mut failing = scripted_pair(Err(failure(1, "prologue")), Err(failure(1, "prologue")));
    assert!(matches!(failing.new_block(&config), Err(HarnessError::VmFailure(_))));
    assert_eq!(failing.get_block_time(), 0);
    let mut diverging = scripted_pair(Ok(vec![good.duplicate()]), Ok(vec![kept(1)]));
    assert!(matches!(diverging.new_block(&config), Err(HarnessError::Divergence)));
    assert_eq!(diverging.get_block_time(), 0);
    assert_eq!(diverging.get_state_view().len(), 0);
}

#[test]
fn block_event_key_is_creation_number_then_root_address() {
    let key = new_block_event_key();
    assert_eq!(key.len(), 24);
    assert_eq!(&key[0..8], &17u64.to_le_bytes());
    assert_eq!(&key[8..20], &[0u8; 12]);
    assert_eq!(&key[20..24], &[0x0a, 0x55, 0x0c, 0x18]);
}

#[test]
fn naming_the_golden_file_without_a_root_leaves_tracing_off() {
    let mut executor = scripted_pair(Ok(vec![]), Ok(vec![]));
    assert_eq!(executor.golden_output_name(), None);
    executor.set_golden_file(&Config { validators: None, version: Some(3) }, "mod::test", None);
    assert_eq!(executor.golden_output_name(), Some(String::from("mod__test")));
    assert!(executor.get_trace().is_none());
}

#[test]
fn traced_block_records_snapshot_inputs_outputs_and_mapping() {
    let outputs = vec![kept(1), kept(2)];
    let mut executor = scripted_pair(Ok(copy_outputs(&outputs)), Ok(copy_outputs(&outputs)));
    let mut genesis = WriteSet::empty();
    genesis.push(key(5), WriteOp::Value(vec![50]));
    executor.apply_write_set(&genesis);
    let config = Config { validators: None, version: Some(4) };
    executor.set_golden_file(&config, "suite::traced", Some(String::from("root")));
    {
        let trace = executor.get_trace().unwrap();
        assert_eq!(trace.root, "root");
        assert_eq!(trace.directory, "suite__traced");
        assert_eq!(trace.name, "suite::traced::4");
        assert_eq!(trace.data.count(), 0);
    }
    let first = user(1, vec![10]);
    let second = user(2, vec![20]);
    let result = executor.execute_block(vec![first.duplicate(), second.duplicate()]).unwrap();
    assert_eq!(result.len(), 2);
    {
        let trace = executor.get_trace().unwrap();
        assert_eq!(trace.data.count(), 1);
        assert_eq!(
            trace.data.read(0),
            Some(bcs::to_bytes(&vec![(vec![5u8; 16], vec![5u8], vec![50u8])]).unwrap())
        );
        assert_eq!(trace.input.count(), 2);
        let mut input0 = vec![0u8];
        input0.extend(bcs::to_bytes(&(vec![1u8; 16], 0u64, vec![10u8])).unwrap());
        let mut input1 = vec![0u8];
        input1.extend(bcs::to_bytes(&(vec![2u8; 16], 0u64, vec![20u8])).unwrap());
        assert_eq!(trace.input.read(0), Some(input0));
        assert_eq!(trace.input.read(1), Some(input1));
        assert_eq!(trace.output.count(), 2);
        assert_eq!(trace.output.read(0), fake_executor::encoding::encode_output(&outputs[0]));
        assert_eq!(trace.output.read(1), fake_executor::encoding::encode_output(&outputs[1]));
        assert_eq!(trace.meta.count(), 1);
        assert_eq!(
            trace.meta.read(0),
            Some(bcs::to_bytes(&(0usize, vec![0usize, 1], vec![0usize, 1])).unwrap())
        );
        assert!(trace.error.is_none());
    }
    let again = executor.execute_block(vec![first]).unwrap();
    assert_eq!(again.len(), 2);
    {
        let trace = executor.get_trace().unwrap();
        assert_eq!(trace.data.count(), 2);
        assert_eq!(trace.input.count(), 3);
        assert_eq!(trace.output.count(), 4);
        assert_eq!(trace.meta.count(), 2);
        assert_eq!(
            trace.meta.read(1),
            Some(bcs::to_bytes(&(1usize, vec![2usize], vec![2usize, 3])).unwrap())
        );
    }
    executor.set_golden_file(&config, "suite::traced", None);
    assert_eq!(executor.get_trace().unwrap().meta.count(), 2);
    executor.set_golden_file(&config, "suite::other", Some(String::from("root")));
    assert_eq!(executor.get_trace().unwrap().meta.count(), 0);
    assert_eq!(executor.get_trace().unwrap().directory, "suite__other");
}

#[test]
fn traced_failure_writes_the_error_file_once() {
    let mut executor = scripted_pair(Err(failure(3, "engine down")), Err(failure(3, "engine down")));
    executor.set_golden_file(&Config { validators: None, version: None }, "t", Some(String::from("root")));
    assert!(matches!(executor.execute_block(vec![user(1, vec![])]), Err(HarnessError::VmFailure(_))));
    {
        let trace = executor.get_trace().unwrap();
        assert_eq!(trace.name, "t::0");
        assert_eq!(trace.error, Some(String::from("engine down")));
        assert_eq!(trace.data.count(), 1);
        assert_eq!(trace.input.count(), 1);
        assert_eq!(trace.output.count(), 0);
        assert_eq!(trace.meta.read(0), Some(bcs::to_bytes(&(0usize, vec![0usize], Vec::<usize>::new())).unwrap()));
    }
    assert!(matches!(
        executor.execute_block(vec![user(1, vec![])]),
        Err(HarnessError::Trace(TraceError::FileExists))
    ));
    let trace = executor.get_trace().unwrap();
    assert_eq!(trace.error, Some(String::from("engine down")));
    assert_eq!(trace.meta.count(), 1);
    assert_eq!(trace.input.count(), 2);
}

#[test]
fn traced_divergence_keeps_the_inputs_and_no_outputs() {
    let mut executor = scripted_pair(Ok(vec![kept(1)]), Ok(vec![kept(2)]));
    executor.set_golden_file(&Config { validators: None, version: None }, "t", Some(String::from("root")));
    assert!(matches!(executor.execute_block(vec![user(1, vec![])]), Err(HarnessError::Divergence)));
    let trace = executor.get_trace().unwrap();
    assert_eq!(trace.data.count(), 1);
    assert_eq!(trace.input.count(), 1);
    assert_eq!(trace.output.count(), 0);
    assert_eq!(trace.meta.count(), 0);
    assert!(trace.error.is_none());
}

struct Validator;

impl TransactionValidator for Validator {
    fn validate_transaction(&self, transaction: &SignedTransaction, state_view: &FakeDataStore) -> VMValidatorResult {
        if state_view.contains(&account_key(&transaction.sender)) {
            VMValidatorResult { status: None, score: transaction.sequence_number }
        } else {
            VMValidatorResult { status: Some(5), score: 0 }
        }
    }
}

#[test]
fn validation_sees_the_current_state() {
    let mut executor = FakeExecutor::no_genesis(Ledger::new(), Ledger::new());
    let mut keys = Keys { next: 0 };
    let accounts = executor.create_accounts(&mut keys, 1, 1, 0);
    let known = SignedTransaction { sender: accounts[0].address, sequence_number: 4, payload: vec![] };
    assert_eq!(executor.verify_transaction(&Validator, known), VMValidatorResult { status: None, score: 4 });
    assert_eq!(
        executor.verify_transaction(&Validator, user(77, vec![])),
        VMValidatorResult { status: Some(5), score: 0 }
    );
}

#[test]
fn single_path_forms_pass_results_through() {
    let executor = scripted_pair(Ok(vec![kept(1)]), Ok(vec![kept(2), kept(3)]));
    let parallel = executor
        .execute_transaction_block_parallel(vec![Transaction::UserTransaction(user(1, vec![]))])
        .unwrap();
    assert_eq!(parallel.len(), 2);
    assert!(parallel[0].same_as(&kept(2)));
    let with_status = executor.execute_block_and_keep_vm_status(vec![user(1, vec![])]).unwrap();
    assert_eq!(with_status.len(), 1);
    assert_eq!(with_status[0].0.message, "executed");
    assert!(with_status[0].1.same_as(&kept(1)));
}

struct Session;

impl SessionRunner for Session {
    fn execute_function(
        &self,
        address: &Address,
        module: &str,
        function: &str,
        _type_params: Vec<move_core_types::language_storage::TypeTag>,
        args: Vec<Vec<u8>>,
        state_view: &FakeDataStore,
    ) -> Result<ChangeSet, SessionFailure> {
        assert_eq!(address.bytes, Address::core_code().bytes);
        match (module, function) {
            ("Account", "create_account") => {
                let mut raw = [0u8; 16];
                raw.copy_from_slice(&args[0]);
                let owner = Address::new(raw);
                if state_view.contains(&account_key(&owner)) {
                    return Err(SessionFailure::Execution(failure(4016, "account exists")));
                }
                let record = AccountResource { authentication_key: [0u8; 32], sequence_number: 0 };
                let mut write_set = WriteSet::empty();
                write_set.push(account_key(&owner), WriteOp::Value(record.to_bytes()));
                Ok(ChangeSet::new(
                    write_set,
                    vec![ContractEvent { key: vec![1], sequence_number: 0, event_data: vec![] }],
                ))
            }
            ("Account", "unfinished") => Err(SessionFailure::Finish),
            ("Account", "no_effects") => Err(SessionFailure::ChangeSet),
            _ => Err(SessionFailure::Execution(failure(1, "no such function"))),
        }
    }
}

#[test]
fn direct_invocation_creates_an_account() {
    let mut executor = FakeExecutor::no_genesis(Ledger::new(), Ledger::new());
    let owner = Address::new([0xab; 16]);
    assert!(matches!(executor.read_account_resource_at_address(&owner), Err(HarnessError::ResourceNotFound)));
    let write_set = executor.exec(&Session, "Account", "create_account", vec![], vec![owner.to_vec()]).unwrap();
    assert_eq!(write_set.len(), 1);
    let record = executor.read_account_resource_at_address(&owner).unwrap().unwrap();
    assert_eq!(record.sequence_number, 0);
    assert_eq!(record.authentication_key, [0u8; 32]);
    assert!(matches!(
        executor.read_account_resource_at_address(&Address::new([0xcd; 16])),
        Err(HarnessError::ResourceNotFound)
    ));
    match executor.exec(&Session, "Account", "create_account", vec![], vec![owner.to_vec()]) {
        Err(HarnessError::VmFailure(status)) => assert_eq!(status.status_code, 4016),
        other => panic!("unexpected result {:?}", other.map(|w| w.len())),
    }
    assert_eq!(executor.get_state_view().len(), 1);
}

#[test]
fn non_applying_invocation_leaves_the_state() {
    let executor = FakeExecutor::no_genesis(Ledger::new(), Ledger::new());
    let owner = Address::new([0xab; 16]);
    let write_set = executor.try_exec(&Session, "Account", "create_account", vec![], vec![owner.to_vec()]).unwrap();
    assert_eq!(write_set.len(), 1);
    assert!(write_set.entries[0].key.same_as(&account_key(&owner)));
    assert_eq!(executor.get_state_view().len(), 0);
    assert!(matches!(
        executor.try_exec(&Session, "Account", "missing", vec![], vec![]),
        Err(HarnessError::VmFailure(_))
    ));
    assert!(matches!(
        executor.try_exec(&Session, "Account", "unfinished", vec![], vec![]),
        Err(HarnessError::SessionFinish)
    ));
    assert!(matches!(
        executor.try_exec(&Session, "Account", "no_effects", vec![], vec![]),
        Err(HarnessError::SessionChangeSet)
    ));
    assert!(matches!(
        executor.try_exec(&Session, "Acc ount", "create_account", vec![], vec![owner.to_vec()]),
        Err(HarnessError::InvalidIdentifier)
    ));
    assert!(matches!(
        executor.try_exec(&Session, "Account", "", vec![], vec![owner.to_vec()]),
        Err(HarnessError::InvalidIdentifier)
    ));
}
