//! Block progression: the synthetic transaction that starts a new block,
//! the check of the event it must emit, and the advance of block time.

use vstd::prelude::*;
use crate::collaborators::{BlockExecutor, ConfigFetcher};
use crate::data_store::FakeDataStore;
use crate::encoding::{bcs_block_event, decode_block_event};
use crate::executor::{
    block_executed, block_result, block_result_view, check_kept_success, refusal, sole_output, sole_result,
    trace_follows, FakeExecutor, HarnessError, HarnessErrorView, OutputResult,
};
use crate::bytes::bytes_eq;
use crate::recorder::{EngineResult, TraceStoreView};
use crate::transaction::{
    block_view, BlockMetadata, BlockMetadataView, Transaction, TransactionOutput,
    TransactionOutputView, TransactionView,
};
use crate::write_set::{apply_ops, StateMap};

verus! {

/// The key of the block-start event: creation number 17, little-endian in
/// eight bytes, then the sixteen bytes of the root address `0xA550C18`.
pub open spec fn new_block_event_key_bytes() -> Seq<u8> {
    seq![
        17u8, 0u8, 0u8, 0u8, 0u8, 0u8, 0u8, 0u8,
        0u8, 0u8, 0u8, 0u8, 0u8, 0u8, 0u8, 0u8, 0u8, 0u8, 0u8, 0u8, 0x0Au8, 0x55u8, 0x0Cu8, 0x18u8,
    ]
}

/// The key of the block-start event.
pub fn new_block_event_key() -> (r: Vec<u8>)
    ensures
        r@ == new_block_event_key_bytes(),
{
    let r: Vec<u8> = vec![
        17u8, 0u8, 0u8, 0u8, 0u8, 0u8, 0u8, 0u8,
        0u8, 0u8, 0u8, 0u8, 0u8, 0u8, 0u8, 0u8, 0u8, 0u8, 0u8, 0u8, 0x0Au8, 0x55u8, 0x0Cu8, 0x18u8,
    ];
    assert(r@ =~= new_block_event_key_bytes());
    r
}

/// Number of bytes in a hash value.
pub const HASH_LENGTH: usize = 32;

/// The all-zero hash.
pub open spec fn zero_hash() -> Seq<u8> {
    Seq::new(32, |i: int| 0u8)
}

/// The all-zero hash, as bytes.
pub fn zero_hash_bytes() -> (r: Vec<u8>)
    ensures
        r@ == zero_hash(),
{
    let mut out: Vec<u8> = Vec::new();
    let mut i: usize = 0;
    while i < HASH_LENGTH
        invariant
            i <= HASH_LENGTH,
            out@.len() == i,
            forall|j: int| 0 <= j < i ==> out@[j] == 0u8,
        decreases HASH_LENGTH - i,
    {
        out.push(0u8);
        i += 1;
    }
    assert(out@ =~= zero_hash());
    out
}

/// The block-boundary record for a validator set of `validators` members
/// and a target time: a zero hash, epoch and round zero, one "participated"
/// flag more than there are validators, proposer index one, and the time.
pub open spec fn prologue(validators: usize, time_stamp: u64) -> BlockMetadataView {
    BlockMetadataView {
        id: zero_hash(),
        epoch: 0,
        round: 0,
        previous_block_votes: Seq::new((validators + 1) as nat, |i: int| false),
        proposer_index: 1,
        timestamp_usecs: time_stamp,
    }
}

/// Builds the block-boundary record.
pub fn block_prologue(validators: usize, time_stamp: u64) -> (r: BlockMetadata)
    requires
        validators < usize::MAX,
    ensures
        r@ == prologue(validators, time_stamp),
{
    let mut votes: Vec<bool> = Vec::new();
    votes.push(false);
    let mut i: usize = 0;
    while i < validators
        invariant
            i <= validators,
            votes@.len() == i + 1,
            forall|j: int| 0 <= j < votes@.len() ==> votes@[j] == false,
        decreases validators - i,
    {
        votes.push(false);
        i += 1;
    }
    assert(votes@ =~= Seq::new((validators + 1) as nat, |i: int| false));
    BlockMetadata::new(zero_hash_bytes(), 0, 0, votes, 1, time_stamp)
}

/// What is wrong with the events of a block-boundary output, if anything:
/// its first event must carry the block-start key and a payload that
/// decodes as a block-start record. Later events are not looked at.
pub open spec fn block_event_refusal(output: TransactionOutputView) -> Option<HarnessErrorView> {
    if output.events.len() == 0 {
        Some(HarnessErrorView::MissingBlockEvent)
    } else if output.events[0].0 != new_block_event_key_bytes() {
        Some(HarnessErrorView::UnexpectedEventKey)
    } else if bcs_block_event(output.events[0].2) is None {
        Some(HarnessErrorView::MalformedBlockEvent)
    } else {
        None
    }
}

/// Checks that a block-boundary output emitted the block-start event
/// first.
pub fn check_block_event(output: &TransactionOutput) -> (r: Result<(), HarnessError>)
    ensures
        match r {
            Ok(_) => block_event_refusal(output@) is None,
            Err(e) => block_event_refusal(output@) == Some(e@),
        },
{
    if output.events.len() == 0 {
        return Err(HarnessError::MissingBlockEvent);
    }
    let event = &output.events[0];
    assert(output@.events[0] == event@);
    let key = new_block_event_key();
    if !bytes_eq(&event.key, &key) {
        return Err(HarnessError::UnexpectedEventKey);
    }
    match decode_block_event(&event.event_data) {
        Some(_) => Ok(()),
        None => Err(HarnessError::MalformedBlockEvent),
    }
}

/// The validator count with which a block can be started: one that was
/// read, and that leaves room for the one extra flag.
pub open spec fn usable_count(validators: Option<usize>) -> Option<usize> {
    match validators {
        Some(n) => if n < usize::MAX {
            Some(n)
        } else {
            None
        },
        None => None,
    }
}

/// The block that starts a new block: the one block-boundary transaction.
pub open spec fn prologue_block(validators: usize, time_stamp: u64) -> Seq<TransactionView> {
    seq![TransactionView::BlockMetadata(prologue(validators, time_stamp))]
}

/// The outcome of starting a new block, by the first check that fails. A
/// target time before the block time is refused before anything runs. Then
/// the validator set must have been read, the block must give exactly one
/// output, that output must emit the block-start event first, and its
/// transaction must have been kept and have succeeded. Where all hold the
/// outcome is that output.
pub open spec fn progression_outcome(
    trace: Option<TraceStoreView>,
    state: &FakeDataStore,
    time: u64,
    time_stamp: u64,
    validators: Option<usize>,
    sequential: EngineResult,
    parallel: EngineResult,
) -> OutputResult {
    if time_stamp < time {
        Err(HarnessErrorView::TimestampRegression)
    } else {
        match usable_count(validators) {
            None => Err(HarnessErrorView::MissingValidatorSet),
            Some(n) => match sole_result(
                block_result(trace, state, prologue_block(n, time_stamp), sequential, parallel),
            ) {
                Err(e) => Err(e),
                Ok(output) => match block_event_refusal(output) {
                    Some(e) => Err(e),
                    None => match refusal(output.status) {
                        Some(e) => Err(e),
                        None => Ok(output),
                    },
                },
            },
        }
    }
}

/// Whether the block was run at all: the target time is no earlier than
/// the block time, and a usable validator count was read.
pub open spec fn block_was_run(time: u64, time_stamp: u64, validators: Option<usize>) -> bool {
    time_stamp >= time && usable_count(validators) is Some
}

/// Whether the harness after `new_block_with_timestamp` is what the
/// outcome demands: on success the output's write set is applied and the
/// block time is the target; on failure state and time are as before. The
/// trace has the block in it whenever the block was run, and is as before
/// otherwise.
pub open spec fn block_advanced(
    trace: Option<TraceStoreView>,
    state: &FakeDataStore,
    time: u64,
    time_stamp: u64,
    validators: Option<usize>,
    sequential: EngineResult,
    parallel: EngineResult,
    trace_after: Option<TraceStoreView>,
    state_after: StateMap,
    time_after: u64,
    result: Result<(), HarnessErrorView>,
) -> bool {
    let outcome = progression_outcome(trace, state, time, time_stamp, validators, sequential, parallel);
    &&& match outcome {
        Ok(output) => result == Ok::<(), HarnessErrorView>(()) && state_after == apply_ops(
            state@,
            output.write_set,
        ) && time_after == time_stamp,
        Err(e) => result == Err::<(), HarnessErrorView>(e) && state_after == state@ && time_after == time,
    }
    &&& if block_was_run(time, time_stamp, validators) {
        trace_follows(
            trace,
            state,
            prologue_block(usable_count(validators)->Some_0, time_stamp),
            sequential,
            parallel,
            trace_after,
        )
    } else {
        trace_after == trace
    }
}

/// The view of a result without a value.
pub open spec fn unit_result_view(result: Result<(), HarnessError>) -> Result<(), HarnessErrorView> {
    match result {
        Ok(_) => Ok(()),
        Err(e) => Err(e@),
    }
}

/// Starting a block never sets the block time back, whatever the target
/// time and whether it succeeds or fails.
pub proof fn lemma_block_time_never_decreases(
    trace: Option<TraceStoreView>,
    state: &FakeDataStore,
    time: u64,
    time_stamp: u64,
    validators: Option<usize>,
    sequential: EngineResult,
    parallel: EngineResult,
    trace_after: Option<TraceStoreView>,
    state_after: StateMap,
    time_after: u64,
    result: Result<(), HarnessErrorView>,
)
    requires
        block_advanced(
            trace,
            state,
            time,
            time_stamp,
            validators,
            sequential,
            parallel,
            trace_after,
            state_after,
            time_after,
            result,
        ),
    ensures
        time_after >= time,
        result is Ok ==> time_after == time_stamp,
        result is Err ==> time_after == time,
{
}

/// A block that was started successfully was kept and succeeded, and
/// emitted the block-start event first: the first event of its one output
/// carries the block-start key and a payload that decodes as a block-start
/// record. Its target time was no earlier than the block time.
pub proof fn lemma_started_block_emitted_event(
    trace: Option<TraceStoreView>,
    state: &FakeDataStore,
    time: u64,
    time_stamp: u64,
    validators: Option<usize>,
    sequential: EngineResult,
    parallel: EngineResult,
)
    requires
        progression_outcome(trace, state, time, time_stamp, validators, sequential, parallel) is Ok,
    ensures
        ({
            let output = progression_outcome(trace, state, time, time_stamp, validators, sequential, parallel)->Ok_0;
            &&& time_stamp >= time
            &&& output.status == crate::transaction::TransactionStatus::Keep(
                crate::transaction::ExecutionStatus::Success,
            )
            &&& output.events.len() >= 1
            &&& output.events[0].0 == new_block_event_key_bytes()
            &&& bcs_block_event(output.events[0].2) is Some
            &&& sequential == Ok::<Seq<TransactionOutputView>, crate::transaction::VMStatusView>(seq![output])
            &&& parallel == sequential
        }),
{
    let n = usable_count(validators)->Some_0;
    let block = block_result(trace, state, prologue_block(n, time_stamp), sequential, parallel);
    let output = progression_outcome(trace, state, time, time_stamp, validators, sequential, parallel)->Ok_0;
    assert(block is Ok);
    assert(block->Ok_0.len() == 1);
    assert(block->Ok_0 =~= seq![output]);
}

/// Two blocks started one after the other, each one unit of time after
/// the block time it found, end at two distinct block times, the second
/// later than the first and the first later than the start.
pub proof fn lemma_two_blocks_increase(
    trace: Option<TraceStoreView>,
    state: &FakeDataStore,
    time: u64,
    first_validators: Option<usize>,
    first_sequential: EngineResult,
    first_parallel: EngineResult,
    mid_trace: Option<TraceStoreView>,
    mid_state: &FakeDataStore,
    mid_time: u64,
    second_validators: Option<usize>,
    second_sequential: EngineResult,
    second_parallel: EngineResult,
    end_trace: Option<TraceStoreView>,
    end_state: StateMap,
    end_time: u64,
)
    requires
        time < u64::MAX - 1,
        block_advanced(
            trace,
            state,
            time,
            (time + 1) as u64,
            first_validators,
            first_sequential,
            first_parallel,
            mid_trace,
            mid_state@,
            mid_time,
            Ok(()),
        ),
        block_advanced(
            mid_trace,
            mid_state,
            mid_time,
            (mid_time + 1) as u64,
            second_validators,
            second_sequential,
            second_parallel,
            end_trace,
            end_state,
            end_time,
            Ok(()),
        ),
    ensures
        time < mid_time < end_time,
        mid_time == time + 1,
        end_time == time + 2,
{
}

impl<S: BlockExecutor, P: BlockExecutor> FakeExecutor<S, P> {
    /// Starts a new block at `time_stamp`, which must not lie before the
    /// block time. Reads the validator set, runs the block-boundary
    /// transaction through both paths as a block of its own, demands
    /// exactly one output that was kept, succeeded and emitted the
    /// block-start event first, applies that output's write set and sets
    /// the block time to `time_stamp`. Any failure leaves state and block
    /// time as they were.
    pub fn new_block_with_timestamp<C: ConfigFetcher>(&mut self, config: &C, time_stamp: u64) -> (r: Result<
        (),
        HarnessError,
    >)
        requires
            old(self).wf(),
        ensures
            final(self).wf(),
            final(self).golden_name() == old(self).golden_name(),
            final(self).time() >= old(self).time(),
            time_stamp < old(self).time() ==> unit_result_view(r) == Err::<(), HarnessErrorView>(
                HarnessErrorView::TimestampRegression,
            ) && final(self).state() == old(self).state() && final(self).time() == old(self).time()
                && final(self).trace_view() == old(self).trace_view(),
            exists|validators: Option<usize>, sequential: EngineResult, parallel: EngineResult| #[trigger]
                block_advanced(
                    old(self).trace_view(),
                    &old(self).state(),
                    old(self).time(),
                    time_stamp,
                    validators,
                    sequential,
                    parallel,
                    final(self).trace_view(),
                    final(self).state()@,
                    final(self).time(),
                    unit_result_view(r),
                ),
    {
        let ghost idle: EngineResult = Ok(Seq::empty());
        if time_stamp < self.get_block_time() {
            let r = Err(HarnessError::TimestampRegression);
            proof {
                assert(block_advanced(
                    old(self).trace_view(),
                    &old(self).state(),
                    old(self).time(),
                    time_stamp,
                    None,
                    idle,
                    idle,
                    self.trace_view(),
                    self.state()@,
                    self.time(),
                    unit_result_view(r),
                ));
            }
            return r;
        }
        let validators = config.validator_count(self.get_state_view());
        let usable: Option<usize> = match validators {
            Some(n) => if n < usize::MAX {
                Some(n)
            } else {
                None
            },
            None => None,
        };
        if usable.is_none() {
            let r = Err(HarnessError::MissingValidatorSet);
            proof {
                assert(block_advanced(
                    old(self).trace_view(),
                    &old(self).state(),
                    old(self).time(),
                    time_stamp,
                    validators,
                    idle,
                    idle,
                    self.trace_view(),
                    self.state()@,
                    self.time(),
                    unit_result_view(r),
                ));
            }
            return r;
        }
        let count: usize = usable.unwrap();
        let mut block: Vec<Transaction> = Vec::new();
        block.push(Transaction::BlockMetadata(block_prologue(count, time_stamp)));
        proof {
            assert(block_view(block@) =~= prologue_block(count, time_stamp));
        }
        let executed = self.execute_transaction_block(block);
        let ghost block_r = block_result_view(executed);
        let ghost (s, p) = choose|s: EngineResult, p: EngineResult| #[trigger]
            block_executed(
                old(self).trace_view(),
                &old(self).state(),
                prologue_block(count, time_stamp),
                s,
                p,
                self.trace_view(),
                block_r,
            );
        let one = match executed {
            Ok(outputs) => sole_output(outputs),
            Err(e) => Err(e),
        };
        let checked = match one {
            Ok(output) => match check_block_event(&output) {
                Ok(_) => match check_kept_success(output.status) {
                    Ok(_) => Ok(output),
                    Err(e) => Err(e),
                },
                Err(e) => Err(e),
            },
            Err(e) => Err(e),
        };
        let r = match checked {
            Ok(output) => {
                self.apply_write_set(&output.write_set);
                self.set_block_time(time_stamp);
                Ok(())
            },
            Err(e) => Err(e),
        };
        proof {
            assert(trace_follows(
                old(self).trace_view(),
                &old(self).state(),
                prologue_block(count, time_stamp),
                s,
                p,
                self.trace_view(),
            ));
            assert(block_advanced(
                old(self).trace_view(),
                &old(self).state(),
                old(self).time(),
                time_stamp,
                validators,
                s,
                p,
                self.trace_view(),
                self.state()@,
                self.time(),
                unit_result_view(r),
            ));
        }
        r
    }

    /// Starts a new block one unit of time after the current block time.
    pub fn new_block<C: ConfigFetcher>(&mut self, config: &C) -> (r: Result<(), HarnessError>)
        requires
            old(self).wf(),
            old(self).time() < u64::MAX,
        ensures
            final(self).wf(),
            final(self).golden_name() == old(self).golden_name(),
            final(self).time() >= old(self).time(),
            r is Ok ==> final(self).time() == old(self).time() + 1,
            r is Err ==> final(self).time() == old(self).time(),
            exists|validators: Option<usize>, sequential: EngineResult, parallel: EngineResult| #[trigger]
                block_advanced(
                    old(self).trace_view(),
                    &old(self).state(),
                    old(self).time(),
                    (old(self).time() + 1) as u64,
                    validators,
                    sequential,
                    parallel,
                    final(self).trace_view(),
                    final(self).state()@,
                    final(self).time(),
                    unit_result_view(r),
                ),
    {
        let next = self.get_block_time() + 1;
        self.new_block_with_timestamp(config, next)
    }
}

} // verus!
