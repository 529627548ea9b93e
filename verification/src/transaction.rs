//! Transactions, their outputs and the statuses that the harness decides on.

use vstd::prelude::*;
use crate::bytes::{bytes_clone, bytes_eq, flags_eq};
use crate::state_key::Address;
use crate::write_set::{WriteEntryView, WriteSet};

verus! {

/// How a transaction that was kept ended.
#[derive(Debug, Clone, Copy, PartialEq, Eq, Structural)]
pub enum ExecutionStatus {
    Success,
    OutOfGas,
    MoveAbort(u64),
    ExecutionFailure,
    MiscellaneousError,
}

/// The outcome class of a transaction.
#[derive(Debug, Clone, Copy, PartialEq, Eq, Structural)]
pub enum TransactionStatus {
    /// Accepted, with how its execution ended.
    Keep(ExecutionStatus),
    /// Permanently rejected, with the reason's code.
    Discard(u64),
    /// To be submitted again.
    Retry,
}

/// A failure that the execution engine itself reports in place of outputs.
#[derive(Debug)]
pub struct VMStatus {
    pub status_code: u64,
    pub message: String,
}

/// A failure in contracts: its code and the characters of its description.
pub type VMStatusView = (u64, Seq<char>);

impl View for VMStatus {
    type V = VMStatusView;

    open spec fn view(&self) -> VMStatusView {
        (self.status_code, self.message@)
    }
}

impl VMStatus {
    /// Structural equality of two failures.
    pub fn same_as(&self, other: &VMStatus) -> (r: bool)
        ensures
            r == (self@ == other@),
    {
        self.status_code == other.status_code && self.message == other.message
    }

    /// A copy of this failure.
    pub fn duplicate(&self) -> (r: VMStatus)
        ensures
            r@ == self@,
    {
        VMStatus { status_code: self.status_code, message: self.message.clone() }
    }

    /// The textual description of the failure.
    pub fn description(&self) -> (r: String)
        ensures
            r@ == self@.1,
    {
        self.message.clone()
    }
}

/// An event emitted by a transaction.
#[derive(Debug)]
pub struct ContractEvent {
    pub key: Vec<u8>,
    pub sequence_number: u64,
    pub event_data: Vec<u8>,
}

/// An event in contracts: key, sequence number, payload.
pub type EventView = (Seq<u8>, u64, Seq<u8>);

impl View for ContractEvent {
    type V = EventView;

    open spec fn view(&self) -> EventView {
        (self.key@, self.sequence_number, self.event_data@)
    }
}

impl ContractEvent {
    /// Structural equality of two events.
    pub fn same_as(&self, other: &ContractEvent) -> (r: bool)
        ensures
            r == (self@ == other@),
    {
        bytes_eq(&self.key, &other.key) && self.sequence_number == other.sequence_number && bytes_eq(
            &self.event_data,
            &other.event_data,
        )
    }

    /// A copy of this event.
    pub fn duplicate(&self) -> (r: ContractEvent)
        ensures
            r@ == self@,
    {
        ContractEvent {
            key: bytes_clone(&self.key),
            sequence_number: self.sequence_number,
            event_data: bytes_clone(&self.event_data),
        }
    }
}

/// The views of a list of events, in order.
pub open spec fn events_view(events: Seq<ContractEvent>) -> Seq<EventView> {
    Seq::new(events.len(), |i: int| events[i]@)
}

/// Structural equality of two event lists.
pub fn events_eq(a: &Vec<ContractEvent>, b: &Vec<ContractEvent>) -> (r: bool)
    ensures
        r == (events_view(a@) == events_view(b@)),
{
    if a.len() != b.len() {
        assert(events_view(a@).len() != events_view(b@).len());
        return false;
    }
    let mut i: usize = 0;
    while i < a.len()
        invariant
            a@.len() == b@.len(),
            i <= a@.len(),
            forall|j: int| 0 <= j < i ==> a@[j]@ == b@[j]@,
        decreases a@.len() - i,
    {
        if !a[i].same_as(&b[i]) {
            assert(events_view(a@)[i as int] != events_view(b@)[i as int]);
            return false;
        }
        i += 1;
    }
    assert(events_view(a@) =~= events_view(b@));
    true
}

/// A copy of an event list.
pub fn events_clone(a: &Vec<ContractEvent>) -> (r: Vec<ContractEvent>)
    ensures
        events_view(r@) == events_view(a@),
{
    let mut out: Vec<ContractEvent> = Vec::new();
    let mut i: usize = 0;
    while i < a.len()
        invariant
            i <= a@.len(),
            out@.len() == i,
            forall|j: int| 0 <= j < i ==> out@[j]@ == a@[j]@,
        decreases a@.len() - i,
    {
        out.push(a[i].duplicate());
        i += 1;
    }
    assert(events_view(out@) =~= events_view(a@));
    out
}

/// What one transaction produced: intended mutations, events, gas and
/// status. Nothing of it is in the ledger state until a caller applies the
/// write set.
#[derive(Debug)]
pub struct TransactionOutput {
    pub write_set: WriteSet,
    pub events: Vec<ContractEvent>,
    pub gas_used: u64,
    pub status: TransactionStatus,
}

/// An output in contracts.
pub struct TransactionOutputView {
    pub write_set: Seq<WriteEntryView>,
    pub events: Seq<EventView>,
    pub gas_used: u64,
    pub status: TransactionStatus,
}

impl View for TransactionOutput {
    type V = TransactionOutputView;

    open spec fn view(&self) -> TransactionOutputView {
        TransactionOutputView {
            write_set: self.write_set@,
            events: events_view(self.events@),
            gas_used: self.gas_used,
            status: self.status,
        }
    }
}

impl TransactionOutput {
    /// Full structural equality: status, write set, events and gas.
    pub fn same_as(&self, other: &TransactionOutput) -> (r: bool)
        ensures
            r == (self@ == other@),
    {
        self.status == other.status && self.gas_used == other.gas_used && self.write_set.same_as(
            &other.write_set,
        ) && events_eq(&self.events, &other.events)
    }

    /// A copy of this output.
    pub fn duplicate(&self) -> (r: TransactionOutput)
        ensures
            r@ == self@,
    {
        TransactionOutput {
            write_set: self.write_set.duplicate(),
            events: events_clone(&self.events),
            gas_used: self.gas_used,
            status: self.status,
        }
    }
}

/// The views of a list of outputs, in order.
pub open spec fn outputs_view(outputs: Seq<TransactionOutput>) -> Seq<TransactionOutputView> {
    Seq::new(outputs.len(), |i: int| outputs[i]@)
}

/// Positional structural equality of two output lists.
pub fn outputs_eq(a: &Vec<TransactionOutput>, b: &Vec<TransactionOutput>) -> (r: bool)
    ensures
        r == (outputs_view(a@) == outputs_view(b@)),
{
    if a.len() != b.len() {
        assert(outputs_view(a@).len() != outputs_view(b@).len());
        return false;
    }
    let mut i: usize = 0;
    while i < a.len()
        invariant
            a@.len() == b@.len(),
            i <= a@.len(),
            forall|j: int| 0 <= j < i ==> a@[j]@ == b@[j]@,
        decreases a@.len() - i,
    {
        if !a[i].same_as(&b[i]) {
            assert(outputs_view(a@)[i as int] != outputs_view(b@)[i as int]);
            return false;
        }
        i += 1;
    }
    assert(outputs_view(a@) =~= outputs_view(b@));
    true
}

/// A user transaction: the sender, its sequence number and the signed
/// payload, which the harness carries and never looks into.
#[derive(Debug)]
pub struct SignedTransaction {
    pub sender: Address,
    pub sequence_number: u64,
    pub payload: Vec<u8>,
}

/// A user transaction in contracts: sender, sequence number, payload.
pub type SignedTransactionView = (Seq<u8>, u64, Seq<u8>);

impl View for SignedTransaction {
    type V = SignedTransactionView;

    open spec fn view(&self) -> SignedTransactionView {
        (self.sender@, self.sequence_number, self.payload@)
    }
}

impl SignedTransaction {
    /// A copy of this transaction.
    pub fn duplicate(&self) -> (r: SignedTransaction)
        ensures
            r@ == self@,
    {
        SignedTransaction {
            sender: self.sender,
            sequence_number: self.sequence_number,
            payload: bytes_clone(&self.payload),
        }
    }
}

/// The synthetic record that starts a new block.
#[derive(Debug)]
pub struct BlockMetadata {
    pub id: Vec<u8>,
    pub epoch: u64,
    pub round: u64,
    pub previous_block_votes: Vec<bool>,
    pub proposer_index: u64,
    pub timestamp_usecs: u64,
}

/// A block-boundary record in contracts.
pub struct BlockMetadataView {
    pub id: Seq<u8>,
    pub epoch: u64,
    pub round: u64,
    pub previous_block_votes: Seq<bool>,
    pub proposer_index: u64,
    pub timestamp_usecs: u64,
}

impl View for BlockMetadata {
    type V = BlockMetadataView;

    open spec fn view(&self) -> BlockMetadataView {
        BlockMetadataView {
            id: self.id@,
            epoch: self.epoch,
            round: self.round,
            previous_block_votes: self.previous_block_votes@,
            proposer_index: self.proposer_index,
            timestamp_usecs: self.timestamp_usecs,
        }
    }
}

impl BlockMetadata {
    /// Puts the six fields together.
    pub fn new(
        id: Vec<u8>,
        epoch: u64,
        round: u64,
        previous_block_votes: Vec<bool>,
        proposer_index: u64,
        timestamp_usecs: u64,
    ) -> (r: BlockMetadata)
        ensures
            r@ == (BlockMetadataView {
                id: id@,
                epoch,
                round,
                previous_block_votes: previous_block_votes@,
                proposer_index,
                timestamp_usecs,
            }),
    {
        BlockMetadata { id, epoch, round, previous_block_votes, proposer_index, timestamp_usecs }
    }

    /// Structural equality of two records.
    pub fn same_as(&self, other: &BlockMetadata) -> (r: bool)
        ensures
            r == (self@ == other@),
    {
        bytes_eq(&self.id, &other.id) && self.epoch == other.epoch && self.round == other.round
            && flags_eq(&self.previous_block_votes, &other.previous_block_votes)
            && self.proposer_index == other.proposer_index && self.timestamp_usecs
            == other.timestamp_usecs
    }
}

/// One item of a block.
#[derive(Debug)]
pub enum Transaction {
    UserTransaction(SignedTransaction),
    BlockMetadata(BlockMetadata),
}

/// A transaction in contracts.
pub enum TransactionView {
    UserTransaction(SignedTransactionView),
    BlockMetadata(BlockMetadataView),
}

impl View for Transaction {
    type V = TransactionView;

    open spec fn view(&self) -> TransactionView {
        match self {
            Transaction::UserTransaction(t) => TransactionView::UserTransaction(t@),
            Transaction::BlockMetadata(b) => TransactionView::BlockMetadata(b@),
        }
    }
}

/// The views of a block's transactions, in order.
pub open spec fn block_view(block: Seq<Transaction>) -> Seq<TransactionView> {
    Seq::new(block.len(), |i: int| block[i]@)
}

/// The result of checking a transaction without executing it: `None` when
/// it is acceptable, else the code of the reason, and its ranking score.
#[derive(Debug, Clone, Copy, PartialEq, Eq, Structural)]
pub struct VMValidatorResult {
    pub status: Option<u64>,
    pub score: u64,
}

/// The effects of a session or of genesis: mutations and events.
#[derive(Debug)]
pub struct ChangeSet {
    pub write_set: WriteSet,
    pub events: Vec<ContractEvent>,
}

impl ChangeSet {
    /// Puts a write set and events together.
    pub fn new(write_set: WriteSet, events: Vec<ContractEvent>) -> (r: ChangeSet)
        ensures
            r.write_set@ == write_set@,
            events_view(r.events@) == events_view(events@),
    {
        ChangeSet { write_set, events }
    }

    /// Splits the change set into its write set and its events.
    pub fn into_inner(self) -> (r: (WriteSet, Vec<ContractEvent>))
        ensures
            r.0@ == self.write_set@,
            events_view(r.1@) == events_view(self.events@),
    {
        (self.write_set, self.events)
    }
}

} // verus!
