//! The binary encoding of what the trace records. Each item is first
//! flattened into plain values, which the BCS encoder then turns into bytes.

use vstd::prelude::*;
use crate::bytes::bytes_clone;
use crate::data_store::FakeDataStore;
use crate::transaction::{
    ContractEvent, ExecutionStatus, Transaction,
    TransactionOutput, TransactionOutputView, TransactionStatus, TransactionView,
};
use crate::write_set::{WriteEntryView, WriteOp, WriteSet};

verus! {

/// The error type of the BCS encoder.
#[verifier::external_type_specification]
#[verifier::external_body]
pub struct ExBcsError(bcs::Error);

/// The BCS bytes of a list of (address, path, value) triples, or `None`
/// where the encoder refuses them.
pub uninterp spec fn bcs_snapshot_bytes(slots: Seq<(Seq<u8>, Seq<u8>, Seq<u8>)>) -> Option<Seq<u8>>;

/// The BCS bytes of a user transaction's fields (sender, sequence number,
/// payload), or `None` where the encoder refuses them.
pub uninterp spec fn bcs_user_transaction_bytes(txn: (Seq<u8>, u64, Seq<u8>)) -> Option<Seq<u8>>;

/// The BCS bytes of a block-boundary record's fields (id, epoch, round,
/// votes, proposer index, timestamp), or `None` where the encoder refuses
/// them.
pub uninterp spec fn bcs_block_metadata_bytes(block: (Seq<u8>, u64, u64, Seq<bool>, u64, u64)) -> Option<Seq<u8>>;

/// The BCS bytes of an output's plain form (write operations, events, gas,
/// status codes), or `None` where the encoder refuses it.
pub uninterp spec fn bcs_output_bytes(
    ops: Seq<(Seq<u8>, Seq<u8>, Option<Seq<u8>>)>,
    events: Seq<(Seq<u8>, u64, Seq<u8>)>,
    gas_used: u64,
    status: (u8, u8, u64),
) -> Option<Seq<u8>>;

/// The BCS bytes of a block's sequence mapping (snapshot number, input
/// numbers, output numbers), or `None` where the encoder refuses it.
pub uninterp spec fn bcs_seq_mapping_bytes(mapping: (usize, Seq<usize>, Seq<usize>)) -> Option<Seq<u8>>;

/// Calls `bcs::to_bytes` on a list of byte-vector triples. The encoder is a
/// function of the value alone: the contract names its bytes, and its
/// refusal.
#[verifier::external_body]
fn bcs_encode_snapshot(slots: &Vec<(Vec<u8>, Vec<u8>, Vec<u8>)>) -> (r: Result<Vec<u8>, bcs::Error>)
    ensures
        match r {
            Ok(bytes) => bcs_snapshot_bytes(slots.deep_view()) == Some(bytes@),
            Err(_) => bcs_snapshot_bytes(slots.deep_view()) is None,
        },
{
    bcs::to_bytes(slots)
}

/// Calls `bcs::to_bytes` on a user transaction's three fields. The contract
/// names the bytes, and the refusal.
#[verifier::external_body]
fn bcs_encode_user_transaction(txn: &(Vec<u8>, u64, Vec<u8>)) -> (r: Result<Vec<u8>, bcs::Error>)
    ensures
        match r {
            Ok(bytes) => bcs_user_transaction_bytes(txn.deep_view()) == Some(bytes@),
            Err(_) => bcs_user_transaction_bytes(txn.deep_view()) is None,
        },
{
    bcs::to_bytes(txn)
}

/// Calls `bcs::to_bytes` on a block-boundary record's six fields. The
/// contract names the bytes, and the refusal.
#[verifier::external_body]
fn bcs_encode_block_metadata(block: &(Vec<u8>, u64, u64, Vec<bool>, u64, u64)) -> (r: Result<Vec<u8>, bcs::Error>)
    ensures
        match r {
            Ok(bytes) => bcs_block_metadata_bytes(block.deep_view()) == Some(bytes@),
            Err(_) => bcs_block_metadata_bytes(block.deep_view()) is None,
        },
{
    bcs::to_bytes(block)
}

/// Calls `bcs::to_bytes` on the four parts of an output's plain form, as
/// one tuple. The contract names the bytes, and the refusal.
#[verifier::external_body]
fn bcs_encode_output(
    ops: &Vec<(Vec<u8>, Vec<u8>, Option<Vec<u8>>)>,
    events: &Vec<(Vec<u8>, u64, Vec<u8>)>,
    gas_used: u64,
    status: (u8, u8, u64),
) -> (r: Result<Vec<u8>, bcs::Error>)
    ensures
        match r {
            Ok(bytes) => bcs_output_bytes(ops.deep_view(), events.deep_view(), gas_used, status) == Some(
                bytes@,
            ),
            Err(_) => bcs_output_bytes(ops.deep_view(), events.deep_view(), gas_used, status) is None,
        },
{
    bcs::to_bytes(&(ops, events, gas_used, status))
}

/// Calls `bcs::to_bytes` on a sequence mapping. The contract names the
/// bytes, and the refusal.
#[verifier::external_body]
fn bcs_encode_seq_mapping(mapping: &(usize, Vec<usize>, Vec<usize>)) -> (r: Result<Vec<u8>, bcs::Error>)
    ensures
        match r {
            Ok(bytes) => bcs_seq_mapping_bytes(mapping.deep_view()) == Some(bytes@),
            Err(_) => bcs_seq_mapping_bytes(mapping.deep_view()) is None,
        },
{
    bcs::to_bytes(mapping)
}

/// The encoding of a full state snapshot: its slots in the order of their
/// keys.
pub open spec fn snapshot_encoding(store: &FakeDataStore) -> Option<Seq<u8>> {
    bcs_snapshot_bytes(store.slot_triples())
}

/// The snapshot follows from the map alone: two states with the same map
/// have the same encoding, whatever the order in which they were written.
pub proof fn lemma_snapshot_follows_the_map(a: &FakeDataStore, b: &FakeDataStore)
    requires
        a.wf(),
        b.wf(),
        a@ == b@,
    ensures
        snapshot_encoding(a) == snapshot_encoding(b),
{
    a.lemma_same_map_same_slots(b);
}

/// Encodes the whole state for the trace.
pub fn encode_snapshot(store: &FakeDataStore) -> (r: Option<Vec<u8>>)
    ensures
        r.deep_view() == snapshot_encoding(store),
{
    let slots = store.to_entries();
    match bcs_encode_snapshot(&slots) {
        Ok(bytes) => {
            assert(bytes.deep_view() =~= bytes@);
            Some(bytes)
        },
        Err(_) => None,
    }
}

/// The tag byte in front of an encoded user transaction.
pub const USER_TRANSACTION_TAG: u8 = 0;

/// The tag byte in front of an encoded block-boundary record.
pub const BLOCK_METADATA_TAG: u8 = 1;

/// The encoding of a transaction: one tag byte for the variant, then the
/// encoded fields of that variant.
pub open spec fn transaction_encoding(txn: TransactionView) -> Option<Seq<u8>> {
    match txn {
        TransactionView::UserTransaction(t) => match bcs_user_transaction_bytes(t) {
            Some(body) => Some(seq![USER_TRANSACTION_TAG] + body),
            None => None,
        },
        TransactionView::BlockMetadata(b) => match bcs_block_metadata_bytes(
            (b.id, b.epoch, b.round, b.previous_block_votes, b.proposer_index, b.timestamp_usecs),
        ) {
            Some(body) => Some(seq![BLOCK_METADATA_TAG] + body),
            None => None,
        },
    }
}

fn with_tag(tag: u8, body: &Vec<u8>) -> (r: Vec<u8>)
    ensures
        r@ == seq![tag] + body@,
{
    let mut out: Vec<u8> = Vec::new();
    out.push(tag);
    let mut i: usize = 0;
    while i < body.len()
        invariant
            i <= body@.len(),
            out@ == seq![tag] + body@.subrange(0, i as int),
        decreases body@.len() - i,
    {
        out.push(body[i]);
        assert(out@ =~= seq![tag] + body@.subrange(0, i + 1));
        i += 1;
    }
    assert(out@ =~= seq![tag] + body@);
    out
}

fn flags_clone(a: &Vec<bool>) -> (r: Vec<bool>)
    ensures
        r@ == a@,
{
    let mut out: Vec<bool> = Vec::new();
    let mut i: usize = 0;
    while i < a.len()
        invariant
            i <= a@.len(),
            out@ == a@.subrange(0, i as int),
        decreases a@.len() - i,
    {
        out.push(a[i]);
        assert(out@ =~= a@.subrange(0, i + 1));
        i += 1;
    }
    assert(out@ =~= a@);
    out
}

/// Encodes one transaction for the trace.
pub fn encode_transaction(txn: &Transaction) -> (r: Option<Vec<u8>>)
    ensures
        r.deep_view() == transaction_encoding(txn@),
{
    let encoded = match txn {
        Transaction::UserTransaction(t) => {
            let plain = (t.sender.to_vec(), t.sequence_number, bytes_clone(&t.payload));
            proof {
                assert(plain.0.deep_view() =~= t.sender@);
                assert(plain.2.deep_view() =~= t.payload@);
            }
            (USER_TRANSACTION_TAG, bcs_encode_user_transaction(&plain))
        },
        Transaction::BlockMetadata(b) => {
            let plain = (
                bytes_clone(&b.id),
                b.epoch,
                b.round,
                flags_clone(&b.previous_block_votes),
                b.proposer_index,
                b.timestamp_usecs,
            );
            proof {
                assert(plain.0.deep_view() =~= b.id@);
                assert(plain.3.deep_view() =~= b.previous_block_votes@);
            }
            (BLOCK_METADATA_TAG, bcs_encode_block_metadata(&plain))
        },
    };
    match encoded.1 {
        Ok(body) => {
            let out = with_tag(encoded.0, &body);
            assert(out.deep_view() =~= out@);
            Some(out)
        },
        Err(_) => None,
    }
}

/// The three numbers that stand for a status in an encoded output: the
/// outcome class, how a kept transaction ended, and the code that either
/// carries.
pub open spec fn status_codes(status: TransactionStatus) -> (u8, u8, u64) {
    match status {
        TransactionStatus::Keep(ExecutionStatus::Success) => (0u8, 0u8, 0u64),
        TransactionStatus::Keep(ExecutionStatus::OutOfGas) => (0u8, 1u8, 0u64),
        TransactionStatus::Keep(ExecutionStatus::MoveAbort(code)) => (0u8, 2u8, code),
        TransactionStatus::Keep(ExecutionStatus::ExecutionFailure) => (0u8, 3u8, 0u64),
        TransactionStatus::Keep(ExecutionStatus::MiscellaneousError) => (0u8, 4u8, 0u64),
        TransactionStatus::Discard(code) => (1u8, 0u8, code),
        TransactionStatus::Retry => (2u8, 0u8, 0u64),
    }
}

/// Computes the three numbers that stand for a status.
pub fn status_to_codes(status: TransactionStatus) -> (r: (u8, u8, u64))
    ensures
        r == status_codes(status),
{
    match status {
        TransactionStatus::Keep(ExecutionStatus::Success) => (0u8, 0u8, 0u64),
        TransactionStatus::Keep(ExecutionStatus::OutOfGas) => (0u8, 1u8, 0u64),
        TransactionStatus::Keep(ExecutionStatus::MoveAbort(code)) => (0u8, 2u8, code),
        TransactionStatus::Keep(ExecutionStatus::ExecutionFailure) => (0u8, 3u8, 0u64),
        TransactionStatus::Keep(ExecutionStatus::MiscellaneousError) => (0u8, 4u8, 0u64),
        TransactionStatus::Discard(code) => (1u8, 0u8, code),
        TransactionStatus::Retry => (2u8, 0u8, 0u64),
    }
}

/// A write set as plain triples: address, path, and the bytes written or
/// `None` for a deletion.
pub open spec fn plain_ops(ops: Seq<WriteEntryView>) -> Seq<(Seq<u8>, Seq<u8>, Option<Seq<u8>>)> {
    Seq::new(ops.len(), |i: int| (ops[i].0.address, ops[i].0.path, ops[i].1))
}

fn write_set_to_plain(write_set: &WriteSet) -> (r: Vec<(Vec<u8>, Vec<u8>, Option<Vec<u8>>)>)
    ensures
        r.deep_view() == plain_ops(write_set@),
{
    let mut out: Vec<(Vec<u8>, Vec<u8>, Option<Vec<u8>>)> = Vec::new();
    let mut i: usize = 0;
    while i < write_set.entries.len()
        invariant
            i <= write_set.entries@.len(),
            out@.len() == i,
            forall|j: int| 0 <= j < i ==> (#[trigger] out@[j]).deep_view() == plain_ops(write_set@)[j],
        decreases write_set.entries@.len() - i,
    {
        let e = &write_set.entries[i];
        let a = e.key.address.to_vec();
        let p = bytes_clone(&e.key.path);
        let v = match &e.op {
            WriteOp::Value(bytes) => {
                let c = bytes_clone(bytes);
                assert(c.deep_view() =~= c@);
                Some(c)
            },
            WriteOp::Deletion => None,
        };
        proof {
            assert(a.deep_view() =~= a@);
            assert(p.deep_view() =~= p@);
        }
        out.push((a, p, v));
        i += 1;
    }
    assert(out.deep_view() =~= plain_ops(write_set@));
    out
}

fn events_to_plain(events: &Vec<ContractEvent>) -> (r: Vec<(Vec<u8>, u64, Vec<u8>)>)
    ensures
        r.deep_view() == crate::transaction::events_view(events@),
{
    let mut out: Vec<(Vec<u8>, u64, Vec<u8>)> = Vec::new();
    let mut i: usize = 0;
    while i < events.len()
        invariant
            i <= events@.len(),
            out@.len() == i,
            forall|j: int| 0 <= j < i ==> (#[trigger] out@[j]).deep_view() == events@[j]@,
        decreases events@.len() - i,
    {
        let e = &events[i];
        let k = bytes_clone(&e.key);
        let d = bytes_clone(&e.event_data);
        proof {
            assert(k.deep_view() =~= k@);
            assert(d.deep_view() =~= d@);
        }
        out.push((k, e.sequence_number, d));
        i += 1;
    }
    assert(out.deep_view() =~= crate::transaction::events_view(events@));
    out
}

/// The encoding of an output: its write operations, events, gas and status
/// codes, encoded together.
pub open spec fn output_encoding(output: TransactionOutputView) -> Option<Seq<u8>> {
    bcs_output_bytes(plain_ops(output.write_set), output.events, output.gas_used, status_codes(output.status))
}

/// Encodes one output for the trace.
pub fn encode_output(output: &TransactionOutput) -> (r: Option<Vec<u8>>)
    ensures
        r.deep_view() == output_encoding(output@),
{
    let ops = write_set_to_plain(&output.write_set);
    let events = events_to_plain(&output.events);
    let status = status_to_codes(output.status);
    match bcs_encode_output(&ops, &events, output.gas_used, status) {
        Ok(bytes) => {
            assert(bytes.deep_view() =~= bytes@);
            Some(bytes)
        },
        Err(_) => None,
    }
}

/// Encodes a block's sequence mapping for the trace.
pub fn encode_seq_mapping(mapping: &(usize, Vec<usize>, Vec<usize>)) -> (r: Option<Vec<u8>>)
    ensures
        r.deep_view() == bcs_seq_mapping_bytes((mapping.0, mapping.1@, mapping.2@)),
{
    proof {
        assert(mapping.1.deep_view() =~= mapping.1@);
        assert(mapping.2.deep_view() =~= mapping.2@);
    }
    match bcs_encode_seq_mapping(mapping) {
        Ok(bytes) => {
            assert(bytes.deep_view() =~= bytes@);
            Some(bytes)
        },
        Err(_) => None,
    }
}

/// What the BCS decoder makes of `bytes` as a block-start record (epoch,
/// round, votes, proposer index, timestamp), or `None` where it refuses
/// them.
pub uninterp spec fn bcs_block_event(bytes: Seq<u8>) -> Option<(u64, u64, Seq<bool>, u64, u64)>;

/// Calls `bcs::from_bytes` for a tuple of the five fields of a block-start
/// record. The decoder is a function of the bytes alone: the contract names
/// its result, and its refusal.
#[verifier::external_body]
fn bcs_decode_block_event(bytes: &Vec<u8>) -> (r: Result<(u64, u64, Vec<bool>, u64, u64), bcs::Error>)
    ensures
        match r {
            Ok(event) => bcs_block_event(bytes@) == Some(event.deep_view()),
            Err(_) => bcs_block_event(bytes@) is None,
        },
{
    bcs::from_bytes::<(u64, u64, Vec<bool>, u64, u64)>(bytes)
}

/// A decoded block-start record.
#[derive(Debug)]
pub struct NewBlockEvent {
    pub epoch: u64,
    pub round: u64,
    pub previous_block_votes: Vec<bool>,
    pub proposer_index: u64,
    pub timestamp_usecs: u64,
}

/// Decodes an event payload as a block-start record.
pub fn decode_block_event(bytes: &Vec<u8>) -> (r: Option<NewBlockEvent>)
    ensures
        match r {
            Some(event) => bcs_block_event(bytes@) == Some(
                (
                    event.epoch,
                    event.round,
                    event.previous_block_votes@,
                    event.proposer_index,
                    event.timestamp_usecs,
                ),
            ),
            None => bcs_block_event(bytes@) is None,
        },
{
    match bcs_decode_block_event(bytes) {
        Ok(event) => {
            assert(event.2.deep_view() =~= event.2@);
            Some(
                NewBlockEvent {
                    epoch: event.0,
                    round: event.1,
                    previous_block_votes: event.2,
                    proposer_index: event.3,
                    timestamp_usecs: event.4,
                },
            )
        },
        Err(_) => None,
    }
}

/// What the BCS decoder makes of `bytes` as a change set in plain form
/// (write operations, then events), or `None` where it refuses them.
pub uninterp spec fn bcs_change_set(bytes: Seq<u8>) -> Option<
    (Seq<(Seq<u8>, Seq<u8>, Option<Seq<u8>>)>, Seq<(Seq<u8>, u64, Seq<u8>)>),
>;

/// Calls `bcs::from_bytes` for a change set in plain form: a list of write
/// operations and a list of events. The decoder is a function of the bytes
/// alone: the contract names its result, and its refusal.
#[verifier::external_body]
pub(crate) fn bcs_decode_change_set(bytes: &Vec<u8>) -> (r: Result<
    (Vec<(Vec<u8>, Vec<u8>, Option<Vec<u8>>)>, Vec<(Vec<u8>, u64, Vec<u8>)>),
    bcs::Error,
>)
    ensures
        match r {
            Ok(plain) => bcs_change_set(bytes@) == Some(plain.deep_view()),
            Err(_) => bcs_change_set(bytes@) is None,
        },
{
    bcs::from_bytes::<(Vec<(Vec<u8>, Vec<u8>, Option<Vec<u8>>)>, Vec<(Vec<u8>, u64, Vec<u8>)>)>(bytes)
}

} // verus!
