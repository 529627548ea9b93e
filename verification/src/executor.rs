//! The harness itself: the ledger state, the block time, the two execution
//! paths that every block goes through, and the optional trace.

use vstd::prelude::*;
use crate::collaborators::{available_cpus, BlockExecutor};
use crate::data_store::FakeDataStore;
use crate::recorder::{
    block_end_recorded, block_start_recorded, engine_view, keeps_trace, record_block_end,
    record_block_start,
    seq_numbers, trace_form, EngineResult, TraceStore, TraceStoreView,
};
use crate::state_key::{StateKey, StateKeyView};
use crate::trace::TraceError;
use crate::transaction::{
    block_view, outputs_view, ExecutionStatus, SignedTransaction, Transaction, TransactionOutput,
    TransactionOutputView, TransactionStatus, TransactionView, VMStatus, VMStatusView,
};
use crate::write_set::{apply_ops, WriteSet};

verus! {

/// Every way in which a harness operation ends without its result. None is
/// retried; a test that meets one stops.
#[derive(Debug)]
pub enum HarnessError {
    /// The engine reported a failure in place of outputs, on both paths
    /// alike.
    VmFailure(VMStatus),
    /// The sequential and the concurrent path disagree.
    Divergence,
    /// Recording into the trace failed.
    Trace(TraceError),
    /// A block of one transaction did not give exactly one output.
    OutputCount,
    /// The transaction was kept, and did not succeed.
    TransactionFailed(ExecutionStatus),
    /// The transaction was discarded, with this reason.
    TransactionDiscarded(u64),
    /// The transaction is to be submitted again.
    TransactionRetry,
    /// The state holds no readable validator set.
    MissingValidatorSet,
    /// The block-boundary transaction emitted no event.
    MissingBlockEvent,
    /// Its first event does not carry the block-start key.
    UnexpectedEventKey,
    /// Its first event's payload is no valid block-start record.
    MalformedBlockEvent,
    /// A module or function name is no valid identifier.
    InvalidIdentifier,
    /// The session of a direct invocation could not be finished.
    SessionFinish,
    /// The effects of a direct invocation gave no change set.
    SessionChangeSet,
    /// A saved genesis blob does not decode as a change set.
    MalformedGenesis,
    /// The module source hands out a different number of identities than
    /// of blobs.
    ModuleCountMismatch,
    /// A resource that had to be there was never written.
    ResourceNotFound,
    /// The target time of a new block lies before the block time.
    TimestampRegression,
}

/// A harness error in contracts.
pub enum HarnessErrorView {
    VmFailure(VMStatusView),
    Divergence,
    Trace(TraceError),
    OutputCount,
    TransactionFailed(ExecutionStatus),
    TransactionDiscarded(u64),
    TransactionRetry,
    MissingValidatorSet,
    MissingBlockEvent,
    UnexpectedEventKey,
    MalformedBlockEvent,
    InvalidIdentifier,
    SessionFinish,
    SessionChangeSet,
    MalformedGenesis,
    ModuleCountMismatch,
    ResourceNotFound,
    TimestampRegression,
}

impl View for HarnessError {
    type V = HarnessErrorView;

    open spec fn view(&self) -> HarnessErrorView {
        match self {
            HarnessError::VmFailure(f) => HarnessErrorView::VmFailure(f@),
            HarnessError::Divergence => HarnessErrorView::Divergence,
            HarnessError::Trace(e) => HarnessErrorView::Trace(*e),
            HarnessError::OutputCount => HarnessErrorView::OutputCount,
            HarnessError::TransactionFailed(s) => HarnessErrorView::TransactionFailed(*s),
            HarnessError::TransactionDiscarded(c) => HarnessErrorView::TransactionDiscarded(*c),
            HarnessError::TransactionRetry => HarnessErrorView::TransactionRetry,
            HarnessError::MissingValidatorSet => HarnessErrorView::MissingValidatorSet,
            HarnessError::MissingBlockEvent => HarnessErrorView::MissingBlockEvent,
            HarnessError::UnexpectedEventKey => HarnessErrorView::UnexpectedEventKey,
            HarnessError::MalformedBlockEvent => HarnessErrorView::MalformedBlockEvent,
            HarnessError::InvalidIdentifier => HarnessErrorView::InvalidIdentifier,
            HarnessError::SessionFinish => HarnessErrorView::SessionFinish,
            HarnessError::SessionChangeSet => HarnessErrorView::SessionChangeSet,
            HarnessError::MalformedGenesis => HarnessErrorView::MalformedGenesis,
            HarnessError::ModuleCountMismatch => HarnessErrorView::ModuleCountMismatch,
            HarnessError::ResourceNotFound => HarnessErrorView::ResourceNotFound,
            HarnessError::TimestampRegression => HarnessErrorView::TimestampRegression,
        }
    }
}

/// The result of executing a block, in contracts.
pub type BlockResult = Result<Seq<TransactionOutputView>, HarnessErrorView>;

/// The view of a block's result.
pub open spec fn block_result_view(result: Result<Vec<TransactionOutput>, HarnessError>) -> BlockResult {
    match result {
        Ok(outputs) => Ok(outputs_view(outputs@)),
        Err(e) => Err(e@),
    }
}

/// The cross-check of the two paths. Where they agree in full (every
/// output's status, write set, events and gas, position by position, or the
/// same engine failure) the common result stands; any difference is a
/// divergence.
pub open spec fn cross_checked(sequential: EngineResult, parallel: EngineResult) -> BlockResult {
    if sequential == parallel {
        match sequential {
            Ok(outputs) => Ok(outputs),
            Err(failure) => Err(HarnessErrorView::VmFailure(failure)),
        }
    } else {
        Err(HarnessErrorView::Divergence)
    }
}

/// Compares what the two paths returned and hands back the sequential
/// path's result where they are identical.
pub fn cross_check(
    sequential: Result<Vec<TransactionOutput>, VMStatus>,
    parallel: Result<Vec<TransactionOutput>, VMStatus>,
) -> (r: Result<Vec<TransactionOutput>, HarnessError>)
    ensures
        block_result_view(r) == cross_checked(engine_view(sequential), engine_view(parallel)),
{
    match (sequential, parallel) {
        (Ok(a), Ok(b)) => {
            if crate::transaction::outputs_eq(&a, &b) {
                Ok(a)
            } else {
                Err(HarnessError::Divergence)
            }
        },
        (Err(a), Err(b)) => {
            if a.same_as(&b) {
                Err(HarnessError::VmFailure(a))
            } else {
                Err(HarnessError::Divergence)
            }
        },
        _ => Err(HarnessError::Divergence),
    }
}

/// Two paths that return the same thing pass the cross-check with exactly
/// that; two that differ anywhere are rejected as a divergence.
pub proof fn lemma_cross_check_accepts_only_agreement(sequential: EngineResult, parallel: EngineResult)
    ensures
        sequential == parallel ==> cross_checked(sequential, parallel) != Err::<
            Seq<TransactionOutputView>,
            HarnessErrorView,
        >(HarnessErrorView::Divergence),
        sequential != parallel ==> cross_checked(sequential, parallel) == Err::<
            Seq<TransactionOutputView>,
            HarnessErrorView,
        >(HarnessErrorView::Divergence),
        cross_checked(sequential, parallel) is Ok ==> sequential == parallel && sequential == Ok::<
            Seq<TransactionOutputView>,
            VMStatusView,
        >(cross_checked(sequential, parallel)->Ok_0),
{
}

/// The result of one block. With a trace, recording comes first and last,
/// and a recording failure takes the place of the result; between the two
/// stands the cross-check of the two paths.
pub open spec fn block_result(
    trace: Option<TraceStoreView>,
    state: &FakeDataStore,
    block: Seq<TransactionView>,
    sequential: EngineResult,
    parallel: EngineResult,
) -> BlockResult {
    match trace {
        None => cross_checked(sequential, parallel),
        Some(t0) => match block_start_recorded(t0, state, block) {
            Err(e) => Err(HarnessErrorView::Trace(e)),
            Ok(t1) => if sequential != parallel {
                Err(HarnessErrorView::Divergence)
            } else {
                match block_end_recorded(
                    t1,
                    trace_form(sequential),
                    t0.data.len() as usize,
                    seq_numbers(t0.input.len(), block.len()),
                ) {
                    Err(e) => Err(HarnessErrorView::Trace(e)),
                    Ok(_) => cross_checked(sequential, parallel),
                }
            },
        },
    }
}

/// The trace after one block whose recording did not fail: the snapshot and
/// the inputs are in it and, where the paths agreed, the outputs or the
/// error file, and the sequence mapping.
pub open spec fn block_trace(
    trace: Option<TraceStoreView>,
    state: &FakeDataStore,
    block: Seq<TransactionView>,
    sequential: EngineResult,
    parallel: EngineResult,
) -> Option<TraceStoreView> {
    match trace {
        None => None,
        Some(t0) => match block_start_recorded(t0, state, block) {
            Err(_) => Some(t0),
            Ok(t1) => if sequential != parallel {
                Some(t1)
            } else {
                match block_end_recorded(
                    t1,
                    trace_form(sequential),
                    t0.data.len() as usize,
                    seq_numbers(t0.input.len(), block.len()),
                ) {
                    Err(_) => Some(t1),
                    Ok(t2) => Some(t2),
                }
            },
        },
    }
}

/// Whether the trace `after` holds everything that `before` held: tracing
/// stays off or stays on, and whatever was recorded is still there,
/// unchanged.
pub open spec fn trace_kept(before: Option<TraceStoreView>, after: Option<TraceStoreView>) -> bool {
    match before {
        None => after is None,
        Some(b) => after is Some && keeps_trace(b, after->Some_0),
    }
}

/// Whether `result` and the trace `after` are what executing `block` gives
/// when the two paths return `sequential` and `parallel`. After a recording
/// failure the trace holds what it held before and what the steps before
/// the failed one added.
pub open spec fn block_executed(
    before: Option<TraceStoreView>,
    state: &FakeDataStore,
    block: Seq<TransactionView>,
    sequential: EngineResult,
    parallel: EngineResult,
    after: Option<TraceStoreView>,
    result: BlockResult,
) -> bool {
    &&& result == block_result(before, state, block, sequential, parallel)
    &&& trace_kept(before, after)
    &&& !(result matches Err(HarnessErrorView::Trace(_))) ==> after == block_trace(
        before,
        state,
        block,
        sequential,
        parallel,
    )
}

/// A block of user transactions in contracts: each wrapped as a
/// transaction, in order.
pub open spec fn user_block_view(txn_block: Seq<SignedTransaction>) -> Seq<TransactionView> {
    Seq::new(txn_block.len(), |i: int| TransactionView::UserTransaction(txn_block[i]@))
}

/// Wraps each user transaction of a block as a transaction, in order.
pub fn user_block(txn_block: Vec<SignedTransaction>) -> (r: Vec<Transaction>)
    ensures
        block_view(r@) == user_block_view(txn_block@),
{
    let mut out: Vec<Transaction> = Vec::new();
    let mut i: usize = 0;
    while i < txn_block.len()
        invariant
            i <= txn_block@.len(),
            out@.len() == i,
            forall|j: int| 0 <= j < i ==> (#[trigger] out@[j])@ == TransactionView::UserTransaction(txn_block@[j]@),
        decreases txn_block@.len() - i,
    {
        out.push(Transaction::UserTransaction(txn_block[i].duplicate()));
        i += 1;
    }
    assert(block_view(out@) =~= user_block_view(txn_block@));
    out
}

/// The sole output of a block of one transaction: any other number of
/// outputs is an error.
pub open spec fn sole_output_of(outputs: Seq<TransactionOutputView>) -> Result<TransactionOutputView, HarnessErrorView> {
    if outputs.len() == 1 {
        Ok(outputs[0])
    } else {
        Err(HarnessErrorView::OutputCount)
    }
}

/// Takes the single output out of a block's outputs.
pub fn sole_output(outputs: Vec<TransactionOutput>) -> (r: Result<TransactionOutput, HarnessError>)
    ensures
        output_result_view(r) == sole_output_of(outputs_view(outputs@)),
{
    let mut outputs = outputs;
    if outputs.len() != 1 {
        return Err(HarnessError::OutputCount);
    }
    match outputs.pop() {
        Some(output) => Ok(output),
        None => Err(HarnessError::OutputCount),
    }
}

/// The result of executing one transaction, in contracts.
pub type OutputResult = Result<TransactionOutputView, HarnessErrorView>;

/// The view of a single transaction's result.
pub open spec fn output_result_view(result: Result<TransactionOutput, HarnessError>) -> OutputResult {
    match result {
        Ok(output) => Ok(output@),
        Err(e) => Err(e@),
    }
}

/// The block that holds one user transaction.
pub open spec fn singleton_block(txn: crate::transaction::SignedTransactionView) -> Seq<TransactionView> {
    seq![TransactionView::UserTransaction(txn)]
}

/// From a block's result to the result for its one transaction.
pub open spec fn sole_result(block: BlockResult) -> OutputResult {
    match block {
        Ok(outputs) => sole_output_of(outputs),
        Err(e) => Err(e),
    }
}

/// Why an output is not applied: only a transaction that was kept and
/// succeeded is.
pub open spec fn refusal(status: TransactionStatus) -> Option<HarnessErrorView> {
    match status {
        TransactionStatus::Keep(ExecutionStatus::Success) => None,
        TransactionStatus::Keep(other) => Some(HarnessErrorView::TransactionFailed(other)),
        TransactionStatus::Discard(code) => Some(HarnessErrorView::TransactionDiscarded(code)),
        TransactionStatus::Retry => Some(HarnessErrorView::TransactionRetry),
    }
}

/// Decides whether an output may be applied.
pub fn check_kept_success(status: TransactionStatus) -> (r: Result<(), HarnessError>)
    ensures
        match r {
            Ok(_) => refusal(status) is None,
            Err(e) => refusal(status) == Some(e@),
        },
{
    match status {
        TransactionStatus::Keep(ExecutionStatus::Success) => Ok(()),
        TransactionStatus::Keep(other) => Err(HarnessError::TransactionFailed(other)),
        TransactionStatus::Discard(code) => Err(HarnessError::TransactionDiscarded(code)),
        TransactionStatus::Retry => Err(HarnessError::TransactionRetry),
    }
}

/// The result of executing one transaction with the intent to apply it: the
/// output where it was kept and succeeded, else the reason.
pub open spec fn applied_result(one: OutputResult) -> OutputResult {
    match one {
        Err(e) => Err(e),
        Ok(output) => match refusal(output.status) {
            Some(e) => Err(e),
            None => Ok(output),
        },
    }
}

/// The state after executing one transaction with the intent to apply it:
/// the output's write set is applied where the result is that output, and
/// nothing changes otherwise.
pub open spec fn applied_state(state: crate::write_set::StateMap, one: OutputResult) -> crate::write_set::StateMap {
    match applied_result(one) {
        Ok(output) => apply_ops(state, output.write_set),
        Err(_) => state,
    }
}

/// Whether `after` is the trace that executing `block` leaves, for what
/// the two paths returned.
pub open spec fn trace_follows(
    before: Option<TraceStoreView>,
    state: &FakeDataStore,
    block: Seq<TransactionView>,
    sequential: EngineResult,
    parallel: EngineResult,
    after: Option<TraceStoreView>,
) -> bool {
    block_executed(before, state, block, sequential, parallel, after, block_result(before, state, block, sequential, parallel))
}

/// The harness: an in-memory ledger state, the block time, and the two
/// execution paths that every block is run through and cross-checked on.
pub struct FakeExecutor<S: BlockExecutor, P: BlockExecutor> {
    data_store: FakeDataStore,
    block_time: u64,
    executed_output: Option<String>,
    trace: Option<TraceStore>,
    sequential: S,
    parallel: P,
}

impl<S: BlockExecutor, P: BlockExecutor> FakeExecutor<S, P> {
    /// The representation invariant: the state and the trace are well
    /// formed.
    pub closed spec fn wf(&self) -> bool {
        &&& self.data_store.wf()
        &&& match self.trace {
            Some(store) => store.wf(),
            None => true,
        }
    }

    /// The ledger state, in contracts.
    pub closed spec fn state(&self) -> FakeDataStore {
        self.data_store
    }

    /// The block time, in contracts.
    pub closed spec fn time(&self) -> u64 {
        self.block_time
    }

    /// The trace, in contracts: `None` while tracing is off.
    pub closed spec fn trace_view(&self) -> Option<TraceStoreView> {
        match self.trace {
            Some(store) => Some(store@),
            None => None,
        }
    }

    /// The name under which outputs are logged, in contracts.
    pub closed spec fn golden_name(&self) -> Option<Seq<char>> {
        match self.executed_output {
            Some(name) => Some(name@),
            None => None,
        }
    }

    /// A harness in which no genesis state has been applied yet: an empty
    /// state at block time zero, without a trace.
    pub fn no_genesis(sequential: S, parallel: P) -> (r: Self)
        ensures
            r.wf(),
            r.state()@ == Map::<StateKeyView, Seq<u8>>::empty(),
            r.time() == 0,
            r.trace_view() is None,
            r.golden_name() is None,
    {
        FakeExecutor {
            data_store: FakeDataStore::new(),
            block_time: 0,
            executed_output: None,
            trace: None,
            sequential,
            parallel,
        }
    }

    /// A harness whose state is the genesis write set applied to an empty
    /// state.
    pub fn from_genesis(write_set: &WriteSet, sequential: S, parallel: P) -> (r: Self)
        ensures
            r.wf(),
            r.state()@ == apply_ops(Map::<StateKeyView, Seq<u8>>::empty(), write_set@),
            r.time() == 0,
            r.trace_view() is None,
            r.golden_name() is None,
    {
        let mut executor = Self::no_genesis(sequential, parallel);
        executor.apply_write_set(write_set);
        executor
    }

    /// Applies a write set to the ledger state, as a whole.
    pub fn apply_write_set(&mut self, write_set: &WriteSet)
        requires
            old(self).wf(),
        ensures
            final(self).wf(),
            final(self).state()@ == apply_ops(old(self).state()@, write_set@),
            final(self).time() == old(self).time(),
            final(self).trace_view() == old(self).trace_view(),
            final(self).golden_name() == old(self).golden_name(),
    {
        self.data_store.add_write_set(write_set);
    }

    /// The ledger state, for reading.
    pub fn get_state_view(&self) -> (r: &FakeDataStore)
        ensures
            *r == self.state(),
            self.wf() ==> r.wf(),
    {
        &self.data_store
    }

    /// The bytes stored at an access path, or `None` where nothing was
    /// ever written there.
    pub fn read_from_access_path(&self, path: &StateKey) -> (r: Option<Vec<u8>>)
        requires
            self.wf(),
        ensures
            match r {
                Some(bytes) => self.state()@.contains_key(path@) && bytes@ == self.state()@[path@],
                None => !self.state()@.contains_key(path@),
            },
    {
        self.data_store.get(path)
    }

    /// Overrides the block time with a later one, or the same: block time
    /// never goes back.
    pub fn set_block_time(&mut self, new_block_time: u64)
        requires
            new_block_time >= old(self).time(),
        ensures
            final(self).time() == new_block_time,
            final(self).state() == old(self).state(),
            final(self).trace_view() == old(self).trace_view(),
            final(self).golden_name() == old(self).golden_name(),
            final(self).wf() == old(self).wf(),
    {
        self.block_time = new_block_time;
    }

    /// The current block time.
    pub fn get_block_time(&self) -> (r: u64)
        ensures
            r == self.time(),
    {
        self.block_time
    }

    /// Runs a block through the concurrent path alone, with as many workers
    /// as the machine has CPUs. The state is not changed.
    pub fn execute_transaction_block_parallel(&self, txn_block: Vec<Transaction>) -> (r: Result<
        Vec<TransactionOutput>,
        VMStatus,
    >)
        requires
            self.wf(),
    {
        self.parallel.execute_block(&txn_block, &self.data_store, available_cpus())
    }

    /// Runs a block through both paths against the same, unchanged state
    /// and cross-checks them: the sequential path's outputs where the two
    /// are identical, the engine's failure where both report the same one,
    /// a divergence otherwise. With a trace, the snapshot and the inputs
    /// are recorded before the paths run, the outputs or the failure and
    /// the sequence mapping after. No write set is applied.
    pub fn execute_transaction_block(&mut self, txn_block: Vec<Transaction>) -> (r: Result<
        Vec<TransactionOutput>,
        HarnessError,
    >)
        requires
            old(self).wf(),
        ensures
            final(self).wf(),
            final(self).state() == old(self).state(),
            final(self).time() == old(self).time(),
            final(self).golden_name() == old(self).golden_name(),
            exists|sequential: EngineResult, parallel: EngineResult| #[trigger]
                block_executed(
                    old(self).trace_view(),
                    &old(self).state(),
                    block_view(txn_block@),
                    sequential,
                    parallel,
                    final(self).trace_view(),
                    block_result_view(r),
                ),
    {
        let ghost idle: EngineResult = Ok(Seq::empty());
        let start: Option<Result<(usize, Vec<usize>), TraceError>> = match &mut self.trace {
            Some(store) => Some(record_block_start(store, &self.data_store, &txn_block)),
            None => None,
        };
        let started: Option<(usize, Vec<usize>)> = match start {
            Some(Err(e)) => {
                let r = Err(HarnessError::Trace(e));
                proof {
                    assert(block_executed(
                        old(self).trace_view(),
                        &old(self).state(),
                        block_view(txn_block@),
                        idle,
                        idle,
                        self.trace_view(),
                        block_result_view(r),
                    ));
                }
                return r;
            },
            Some(Ok(numbers)) => Some(numbers),
            None => None,
        };
        let output = self.sequential.execute_block(&txn_block, &self.data_store, 1);
        let parallel_output = self.parallel.execute_block(&txn_block, &self.data_store, available_cpus());
        let ghost s = engine_view(output);
        let ghost p = engine_view(parallel_output);
        let checked = cross_check(output, parallel_output);
        if let Err(HarnessError::Divergence) = &checked {
            proof {
                assert(block_executed(
                    old(self).trace_view(),
                    &old(self).state(),
                    block_view(txn_block@),
                    s,
                    p,
                    self.trace_view(),
                    block_result_view(checked),
                ));
            }
            return checked;
        }
        let agreed: Result<Vec<TransactionOutput>, VMStatus> = match checked {
            Ok(outputs) => Ok(outputs),
            Err(HarnessError::VmFailure(failure)) => Err(failure),
            Err(e) => {
                return Err(e);
            },
        };
        assert(engine_view(agreed) == s);
        let end: Option<Result<(), TraceError>> = match &mut self.trace {
            Some(store) => match started {
                Some(numbers) => Some(record_block_end(store, &agreed, numbers.0, numbers.1)),
                None => None,
            },
            None => None,
        };
        if let Some(Err(e)) = end {
            let r = Err(HarnessError::Trace(e));
            proof {
                assert(block_executed(
                    old(self).trace_view(),
                    &old(self).state(),
                    block_view(txn_block@),
                    s,
                    p,
                    self.trace_view(),
                    block_result_view(r),
                ));
            }
            return r;
        }
        let r = match agreed {
            Ok(outputs) => Ok(outputs),
            Err(failure) => Err(HarnessError::VmFailure(failure)),
        };
        proof {
            assert(block_executed(
                old(self).trace_view(),
                &old(self).state(),
                block_view(txn_block@),
                s,
                p,
                self.trace_view(),
                block_result_view(r),
            ));
        }
        r
    }

    /// Runs a block of user transactions through both paths, as
    /// `execute_transaction_block` does. Nothing is applied to the state.
    pub fn execute_block(&mut self, txn_block: Vec<SignedTransaction>) -> (r: Result<
        Vec<TransactionOutput>,
        HarnessError,
    >)
        requires
            old(self).wf(),
        ensures
            final(self).wf(),
            final(self).state() == old(self).state(),
            final(self).time() == old(self).time(),
            final(self).golden_name() == old(self).golden_name(),
            exists|sequential: EngineResult, parallel: EngineResult| #[trigger]
                block_executed(
                    old(self).trace_view(),
                    &old(self).state(),
                    user_block_view(txn_block@),
                    sequential,
                    parallel,
                    final(self).trace_view(),
                    block_result_view(r),
                ),
    {
        self.execute_transaction_block(user_block(txn_block))
    }

    /// Runs one user transaction as a block of its own and hands back its
    /// sole output. Any other number of outputs is an error.
    pub fn execute_transaction(&mut self, txn: SignedTransaction) -> (r: Result<TransactionOutput, HarnessError>)
        requires
            old(self).wf(),
        ensures
            final(self).wf(),
            final(self).state() == old(self).state(),
            final(self).time() == old(self).time(),
            final(self).golden_name() == old(self).golden_name(),
            exists|sequential: EngineResult, parallel: EngineResult| #[trigger]
                trace_follows(
                    old(self).trace_view(),
                    &old(self).state(),
                    singleton_block(txn@),
                    sequential,
                    parallel,
                    final(self).trace_view(),
                ) && output_result_view(r) == sole_result(
                    block_result(
                        old(self).trace_view(),
                        &old(self).state(),
                        singleton_block(txn@),
                        sequential,
                        parallel,
                    ),
                ),
    {
        let ghost txn_view = txn@;
        let mut txn_block: Vec<SignedTransaction> = Vec::new();
        txn_block.push(txn);
        proof {
            assert(user_block_view(txn_block@) =~= singleton_block(txn_view));
        }
        let executed = self.execute_block(txn_block);
        let ghost block_r = block_result_view(executed);
        let r = match executed {
            Ok(outputs) => sole_output(outputs),
            Err(e) => Err(e),
        };
        proof {
            let (s, p) = choose|s: EngineResult, p: EngineResult| #[trigger]
                block_executed(
                    old(self).trace_view(),
                    &old(self).state(),
                    singleton_block(txn_view),
                    s,
                    p,
                    self.trace_view(),
                    block_r,
                );
            assert(trace_follows(
                old(self).trace_view(),
                &old(self).state(),
                singleton_block(txn_view),
                s,
                p,
                self.trace_view(),
            ));
            assert(output_result_view(r) == sole_result(
                block_result(old(self).trace_view(), &old(self).state(), singleton_block(txn_view), s, p),
            ));
        }
        r
    }

    /// Applies an output to the state if, and only if, its transaction was
    /// kept and succeeded; hands the output back then, and the reason
    /// otherwise.
    pub fn apply_output(&mut self, output: TransactionOutput) -> (r: Result<TransactionOutput, HarnessError>)
        requires
            old(self).wf(),
        ensures
            final(self).wf(),
            output_result_view(r) == applied_result(Ok(output@)),
            final(self).state()@ == applied_state(old(self).state()@, Ok(output@)),
            final(self).time() == old(self).time(),
            final(self).trace_view() == old(self).trace_view(),
            final(self).golden_name() == old(self).golden_name(),
    {
        match check_kept_success(output.status) {
            Ok(_) => {
                self.apply_write_set(&output.write_set);
                Ok(output)
            },
            Err(e) => Err(e),
        }
    }

    /// Runs one user transaction as a block of its own and, where it was
    /// kept and succeeded, applies its write set to the state. Every other
    /// outcome is an error, and leaves the state as it was.
    pub fn execute_and_apply(&mut self, transaction: SignedTransaction) -> (r: Result<
        TransactionOutput,
        HarnessError,
    >)
        requires
            old(self).wf(),
        ensures
            final(self).wf(),
            final(self).time() == old(self).time(),
            final(self).golden_name() == old(self).golden_name(),
            exists|sequential: EngineResult, parallel: EngineResult| #[trigger]
                trace_follows(
                    old(self).trace_view(),
                    &old(self).state(),
                    singleton_block(transaction@),
                    sequential,
                    parallel,
                    final(self).trace_view(),
                ) && output_result_view(r) == applied_result(
                    sole_result(
                        block_result(
                            old(self).trace_view(),
                            &old(self).state(),
                            singleton_block(transaction@),
                            sequential,
                            parallel,
                        ),
                    ),
                ) && final(self).state()@ == applied_state(
                    old(self).state()@,
                    sole_result(
                        block_result(
                            old(self).trace_view(),
                            &old(self).state(),
                            singleton_block(transaction@),
                            sequential,
                            parallel,
                        ),
                    ),
                ),
    {
        let ghost txn_view = transaction@;
        let executed = self.execute_transaction(transaction);
        let ghost one = output_result_view(executed);
        let ghost mid_trace = self.trace_view();
        let r = match executed {
            Ok(output) => self.apply_output(output),
            Err(e) => Err(e),
        };
        proof {
            let (s, p) = choose|s: EngineResult, p: EngineResult| #[trigger]
                trace_follows(
                    old(self).trace_view(),
                    &old(self).state(),
                    singleton_block(txn_view),
                    s,
                    p,
                    mid_trace,
                ) && one == sole_result(
                    block_result(old(self).trace_view(), &old(self).state(), singleton_block(txn_view), s, p),
                );
            assert(trace_follows(
                old(self).trace_view(),
                &old(self).state(),
                singleton_block(txn_view),
                s,
                p,
                self.trace_view(),
            ));
        }
        r
    }

    /// Runs a block of user transactions through the sequential path alone
    /// and keeps the engine's own status beside each output. The state is
    /// not changed.
    pub fn execute_block_and_keep_vm_status(&self, txn_block: Vec<SignedTransaction>) -> (r: Result<
        Vec<(VMStatus, TransactionOutput)>,
        VMStatus,
    >)
        requires
            self.wf(),
    {
        let block = user_block(txn_block);
        self.sequential.execute_block_and_keep_vm_status(&block, &self.data_store)
    }

    /// Sets the name under which outputs are logged, and the trace with it:
    /// `Some` starts a fresh trace, `None` leaves the trace as it is.
    pub(crate) fn set_logging(&mut self, golden_name: String, trace: Option<TraceStore>)
        requires
            old(self).wf(),
            match trace {
                Some(store) => store.wf(),
                None => true,
            },
        ensures
            final(self).wf(),
            final(self).state() == old(self).state(),
            final(self).time() == old(self).time(),
            final(self).golden_name() == Some(golden_name@),
            final(self).trace_view() == match trace {
                Some(store) => Some(store@),
                None => old(self).trace_view(),
            },
    {
        self.executed_output = Some(golden_name);
        match trace {
            Some(store) => {
                self.trace = Some(store);
            },
            None => {},
        }
    }

    /// The trace recorded so far, for whoever writes it out; `None` while
    /// tracing is off.
    pub fn get_trace(&self) -> (r: Option<&TraceStore>)
        ensures
            match r {
                Some(store) => self.trace_view() == Some(store@),
                None => self.trace_view() is None,
            },
    {
        self.trace.as_ref()
    }

    /// The name under which outputs are logged, if one was set.
    pub fn golden_output_name(&self) -> (r: Option<String>)
        ensures
            match r {
                Some(name) => self.golden_name() == Some(name@),
                None => self.golden_name() is None,
            },
    {
        match &self.executed_output {
            Some(name) => Some(name.clone()),
            None => None,
        }
    }
}

} // verus!
