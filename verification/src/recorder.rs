//! Recording one block into the trace: the snapshot and the inputs before
//! execution, the outputs or the failure after it, then the mapping of
//! sequence numbers.

use vstd::prelude::*;
use crate::data_store::FakeDataStore;
use crate::encoding::{
    bcs_seq_mapping_bytes, encode_output, encode_seq_mapping, encode_snapshot, encode_transaction,
    output_encoding, snapshot_encoding, transaction_encoding,
};
use crate::trace::{keeps_files, record_step, record_steps, TraceDir, TraceError, TraceFileView};
use crate::transaction::{
    block_view, outputs_view, Transaction, TransactionOutput, TransactionOutputView, TransactionView,
    VMStatus, VMStatusView,
};

verus! {

/// Per block: the snapshot's sequence number, then those of the inputs and
/// those of the outputs, each in order.
pub type TraceSeqMapping = (usize, Vec<usize>, Vec<usize>);

/// The whole trace of one test, in memory.
#[derive(Debug)]
pub struct TraceStore {
    /// The configured trace root, below which the trace is kept.
    pub root: String,
    /// The trace's own directory below the root: the sanitized test name.
    pub directory: String,
    /// Content of the `name` file: the test's name and the version.
    pub name: String,
    pub meta: TraceDir,
    pub data: TraceDir,
    pub input: TraceDir,
    pub output: TraceDir,
    /// Content of the `error` file, once a block has failed.
    pub error: Option<String>,
}

/// A trace in contracts.
pub struct TraceStoreView {
    pub root: Seq<char>,
    pub directory: Seq<char>,
    pub name: Seq<char>,
    pub meta: Seq<TraceFileView>,
    pub data: Seq<TraceFileView>,
    pub input: Seq<TraceFileView>,
    pub output: Seq<TraceFileView>,
    pub error: Option<Seq<char>>,
}

impl View for TraceStore {
    type V = TraceStoreView;

    open spec fn view(&self) -> TraceStoreView {
        TraceStoreView {
            root: self.root@,
            directory: self.directory@,
            name: self.name@,
            meta: self.meta@,
            data: self.data@,
            input: self.input@,
            output: self.output@,
            error: match self.error {
                Some(text) => Some(text@),
                None => None,
            },
        }
    }
}

/// A trace in which nothing was recorded yet: the name file, four empty
/// directories and no error file.
pub open spec fn fresh_trace(root: Seq<char>, directory: Seq<char>, name: Seq<char>) -> TraceStoreView {
    TraceStoreView {
        root,
        directory,
        name,
        meta: Seq::empty(),
        data: Seq::empty(),
        input: Seq::empty(),
        output: Seq::empty(),
        error: None,
    }
}

/// The encodings of a block's transactions, in order.
pub open spec fn block_encodings(block: Seq<TransactionView>) -> Seq<Option<Seq<u8>>> {
    Seq::new(block.len(), |i: int| transaction_encoding(block[i]))
}

/// The encodings of a list of outputs, in order.
pub open spec fn output_encodings(outputs: Seq<TransactionOutputView>) -> Seq<Option<Seq<u8>>> {
    Seq::new(outputs.len(), |i: int| output_encoding(outputs[i]))
}

/// The `count` consecutive sequence numbers that start at `first`.
pub open spec fn seq_numbers(first: nat, count: nat) -> Seq<usize> {
    Seq::new(count, |i: int| (first + i) as usize)
}

/// A failure among the first items of a list is the failure of the whole
/// list: recording stops there.
pub proof fn lemma_record_steps_stop(files: Seq<TraceFileView>, items: Seq<Option<Seq<u8>>>, k: int)
    requires
        0 <= k <= items.len(),
        record_steps(files, items.subrange(0, k)) is Err,
    ensures
        record_steps(files, items) == record_steps(files, items.subrange(0, k)),
    decreases items.len(),
{
    if k == items.len() {
        assert(items.subrange(0, k) =~= items);
    } else {
        let front = items.drop_last();
        assert(front.subrange(0, k) =~= items.subrange(0, k));
        lemma_record_steps_stop(files, front, k);
    }
}

/// Whether every file of the trace `before` is still in `after`,
/// unchanged: the name file, the files of the four directories, and the
/// error file where there was one.
pub open spec fn keeps_trace(before: TraceStoreView, after: TraceStoreView) -> bool {
    &&& after.root == before.root
    &&& after.directory == before.directory
    &&& after.name == before.name
    &&& keeps_files(before.meta, after.meta)
    &&& keeps_files(before.data, after.data)
    &&& keeps_files(before.input, after.input)
    &&& keeps_files(before.output, after.output)
    &&& before.error is Some ==> after.error == before.error
}

impl TraceStore {
    /// Every directory of the trace is well formed.
    pub open spec fn wf(&self) -> bool {
        &&& self.meta.wf()
        &&& self.data.wf()
        &&& self.input.wf()
        &&& self.output.wf()
    }

    /// A fresh trace: the name file and four empty directories.
    pub fn new(root: String, directory: String, name: String) -> (r: TraceStore)
        ensures
            r.wf(),
            r@ == fresh_trace(root@, directory@, name@),
    {
        TraceStore {
            root,
            directory,
            name,
            meta: TraceDir::new(),
            data: TraceDir::new(),
            input: TraceDir::new(),
            output: TraceDir::new(),
            error: None,
        }
    }

    /// Creates the `error` file with a failure's description, and fails if
    /// the file is already there.
    pub fn write_error(&mut self, text: String) -> (r: Result<(), TraceError>)
        ensures
            match r {
                Ok(_) => old(self)@.error is None && final(self)@ == (TraceStoreView {
                    error: Some(text@),
                    ..old(self)@
                }),
                Err(e) => e == TraceError::FileExists && old(self)@.error is Some && final(self)@ == old(
                    self,
                )@,
            },
            final(self).meta == old(self).meta,
            final(self).data == old(self).data,
            final(self).input == old(self).input,
            final(self).output == old(self).output,
    {
        if self.error.is_some() {
            return Err(TraceError::FileExists);
        }
        self.error = Some(text);
        Ok(())
    }
}

/// Records each transaction of a block into the input directory, in
/// transaction order.
pub fn record_inputs(dir: &mut TraceDir, block: &Vec<Transaction>) -> (r: Result<Vec<usize>, TraceError>)
    requires
        old(dir).wf(),
    ensures
        final(dir).wf(),
        keeps_files(old(dir)@, final(dir)@),
        match r {
            Ok(seqs) => record_steps(old(dir)@, block_encodings(block_view(block@))) == Ok::<
                Seq<TraceFileView>,
                TraceError,
            >(final(dir)@) && seqs@ == seq_numbers(old(dir)@.len(), block@.len()),
            Err(e) => record_steps(old(dir)@, block_encodings(block_view(block@))) == Err::<
                Seq<TraceFileView>,
                TraceError,
            >(e),
        },
{
    let ghost start = dir@;
    let ghost items = block_encodings(block_view(block@));
    let mut seqs: Vec<usize> = Vec::new();
    let mut i: usize = 0;
    while i < block.len()
        invariant
            i <= block@.len(),
            dir.wf(),
            start == old(dir)@,
            keeps_files(start, dir@),
            items == block_encodings(block_view(block@)),
            record_steps(start, items.subrange(0, i as int)) == Ok::<Seq<TraceFileView>, TraceError>(dir@),
            dir@.len() == start.len() + i,
            seqs@ == seq_numbers(start.len(), i as nat),
        decreases block@.len() - i,
    {
        let encoded = encode_transaction(&block[i]);
        proof {
            assert(items.subrange(0, i + 1).drop_last() =~= items.subrange(0, i as int));
            assert(items.subrange(0, i + 1).last() == transaction_encoding(block@[i as int]@));
            assert(record_steps(start, items.subrange(0, i + 1)) == record_step(dir@, encoded.deep_view()));
        }
        match dir.record(encoded) {
            Ok(seq) => {
                seqs.push(seq);
                proof {
                    assert(seqs@ =~= seq_numbers(start.len(), (i + 1) as nat));
                }
            },
            Err(e) => {
                proof {
                    lemma_record_steps_stop(start, items, i + 1);
                }
                return Err(e);
            },
        }
        i += 1;
    }
    proof {
        assert(items.subrange(0, i as int) =~= items);
    }
    Ok(seqs)
}

/// Records each output of a block into the output directory, in result
/// order.
pub fn record_outputs(dir: &mut TraceDir, outputs: &Vec<TransactionOutput>) -> (r: Result<Vec<usize>, TraceError>)
    requires
        old(dir).wf(),
    ensures
        final(dir).wf(),
        keeps_files(old(dir)@, final(dir)@),
        match r {
            Ok(seqs) => record_steps(old(dir)@, output_encodings(outputs_view(outputs@))) == Ok::<
                Seq<TraceFileView>,
                TraceError,
            >(final(dir)@) && seqs@ == seq_numbers(old(dir)@.len(), outputs@.len()),
            Err(e) => record_steps(old(dir)@, output_encodings(outputs_view(outputs@))) == Err::<
                Seq<TraceFileView>,
                TraceError,
            >(e),
        },
{
    let ghost start = dir@;
    let ghost items = output_encodings(outputs_view(outputs@));
    let mut seqs: Vec<usize> = Vec::new();
    let mut i: usize = 0;
    while i < outputs.len()
        invariant
            i <= outputs@.len(),
            dir.wf(),
            start == old(dir)@,
            keeps_files(start, dir@),
            items == output_encodings(outputs_view(outputs@)),
            record_steps(start, items.subrange(0, i as int)) == Ok::<Seq<TraceFileView>, TraceError>(dir@),
            dir@.len() == start.len() + i,
            seqs@ == seq_numbers(start.len(), i as nat),
        decreases outputs@.len() - i,
    {
        let encoded = encode_output(&outputs[i]);
        proof {
            assert(items.subrange(0, i + 1).drop_last() =~= items.subrange(0, i as int));
            assert(items.subrange(0, i + 1).last() == output_encoding(outputs@[i as int]@));
            assert(record_steps(start, items.subrange(0, i + 1)) == record_step(dir@, encoded.deep_view()));
        }
        match dir.record(encoded) {
            Ok(seq) => {
                seqs.push(seq);
                proof {
                    assert(seqs@ =~= seq_numbers(start.len(), (i + 1) as nat));
                }
            },
            Err(e) => {
                proof {
                    lemma_record_steps_stop(start, items, i + 1);
                }
                return Err(e);
            },
        }
        i += 1;
    }
    proof {
        assert(items.subrange(0, i as int) =~= items);
    }
    Ok(seqs)
}

/// What recording the start of a block does to a trace: the snapshot goes
/// into `data`, then every transaction into `input`.
pub open spec fn block_start_recorded(before: TraceStoreView, state: &FakeDataStore, block: Seq<TransactionView>) -> Result<TraceStoreView, TraceError> {
    match record_step(before.data, snapshot_encoding(state)) {
        Err(e) => Err(e),
        Ok(data) => match record_steps(before.input, block_encodings(block)) {
            Err(e) => Err(e),
            Ok(input) => Ok(TraceStoreView { data, input, ..before }),
        },
    }
}

/// Records the start of a block: a snapshot of the full state, then each
/// input transaction in order. Gives back the snapshot's sequence number
/// and those of the inputs.
pub fn record_block_start(store: &mut TraceStore, state: &FakeDataStore, block: &Vec<Transaction>) -> (r: Result<(usize, Vec<usize>), TraceError>)
    requires
        old(store).wf(),
    ensures
        final(store).wf(),
        keeps_trace(old(store)@, final(store)@),
        match r {
            Ok(numbers) => block_start_recorded(old(store)@, state, block_view(block@)) == Ok::<
                TraceStoreView,
                TraceError,
            >(final(store)@) && numbers.0 == old(store)@.data.len() && numbers.1@ == seq_numbers(
                old(store)@.input.len(),
                block@.len(),
            ),
            Err(e) => block_start_recorded(old(store)@, state, block_view(block@)) == Err::<
                TraceStoreView,
                TraceError,
            >(e),
        },
{
    let snapshot = encode_snapshot(state);
    let snapshot_seq = match store.data.record(snapshot) {
        Ok(seq) => seq,
        Err(e) => {
            return Err(e);
        },
    };
    match record_inputs(&mut store.input, block) {
        Ok(input_seqs) => Ok((snapshot_seq, input_seqs)),
        Err(e) => Err(e),
    }
}

/// What recording the end of a block does to a trace. After a successful
/// execution every output goes into `output`; after a failure the `error`
/// file is created with the failure's description instead. Either way the
/// block's sequence mapping then goes into `meta`.
pub open spec fn block_end_recorded(
    before: TraceStoreView,
    result: Result<Seq<TransactionOutputView>, Seq<char>>,
    snapshot_seq: usize,
    input_seqs: Seq<usize>,
) -> Result<TraceStoreView, TraceError> {
    match result {
        Ok(outputs) => match record_steps(before.output, output_encodings(outputs)) {
            Err(e) => Err(e),
            Ok(output) => match record_step(
                before.meta,
                bcs_seq_mapping_bytes((snapshot_seq, input_seqs, seq_numbers(before.output.len(), outputs.len()))),
            ) {
                Err(e) => Err(e),
                Ok(meta) => Ok(TraceStoreView { output, meta, ..before }),
            },
        },
        Err(text) => if before.error is Some {
            Err(TraceError::FileExists)
        } else {
            match record_step(before.meta, bcs_seq_mapping_bytes((snapshot_seq, input_seqs, Seq::empty()))) {
                Err(e) => Err(e),
                Ok(meta) => Ok(TraceStoreView { error: Some(text), meta, ..before }),
            }
        },
    }
}

/// What an execution path hands back, in contracts: the outputs in order,
/// or the engine's failure.
pub type EngineResult = Result<Seq<TransactionOutputView>, VMStatusView>;

/// The view of an execution path's result.
pub open spec fn engine_view(result: Result<Vec<TransactionOutput>, VMStatus>) -> EngineResult {
    match result {
        Ok(outputs) => Ok(outputs_view(outputs@)),
        Err(failure) => Err(failure@),
    }
}

/// An execution result as the trace sees it: the outputs, or the failure's
/// description.
pub open spec fn trace_form(result: EngineResult) -> Result<Seq<TransactionOutputView>, Seq<char>> {
    match result {
        Ok(outputs) => Ok(outputs),
        Err(failure) => Err(failure.1),
    }
}

/// The trace's form of an execution path's result.
pub open spec fn traced_result(result: Result<Vec<TransactionOutput>, VMStatus>) -> Result<Seq<TransactionOutputView>, Seq<char>> {
    trace_form(engine_view(result))
}

/// Records the end of a block: the outputs in result order, or the error
/// file, and then the sequence mapping.
pub fn record_block_end(
    store: &mut TraceStore,
    result: &Result<Vec<TransactionOutput>, VMStatus>,
    snapshot_seq: usize,
    input_seqs: Vec<usize>,
) -> (r: Result<(), TraceError>)
    requires
        old(store).wf(),
    ensures
        final(store).wf(),
        keeps_trace(old(store)@, final(store)@),
        match r {
            Ok(_) => block_end_recorded(old(store)@, traced_result(*result), snapshot_seq, input_seqs@) == Ok::<
                TraceStoreView,
                TraceError,
            >(final(store)@),
            Err(e) => block_end_recorded(old(store)@, traced_result(*result), snapshot_seq, input_seqs@)
                == Err::<TraceStoreView, TraceError>(e),
        },
{
    let output_seqs = match result {
        Ok(outputs) => match record_outputs(&mut store.output, outputs) {
            Ok(seqs) => seqs,
            Err(e) => {
                return Err(e);
            },
        },
        Err(failure) => match store.write_error(failure.description()) {
            Ok(_) => Vec::new(),
            Err(e) => {
                return Err(e);
            },
        },
    };
    let mapping: TraceSeqMapping = (snapshot_seq, input_seqs, output_seqs);
    let encoded = encode_seq_mapping(&mapping);
    proof {
        if result is Err {
            assert(output_seqs@ =~= Seq::<usize>::empty());
        }
    }
    match store.meta.record(encoded) {
        Ok(_) => Ok(()),
        Err(e) => Err(e),
    }
}

} // verus!
