//! The trace recorder's directories, held in memory: files named by
//! sequence numbers, created once and never overwritten.

use vstd::prelude::*;
use crate::bytes::bytes_clone;

verus! {

/// Name of the file that holds the test's name and version.
pub const TRACE_FILE_NAME: &'static str = "name";

/// Name of the file that holds a failure's description.
pub const TRACE_FILE_ERROR: &'static str = "error";

/// Directory of the per-block sequence mappings.
pub const TRACE_DIR_META: &'static str = "meta";

/// Directory of the state snapshots.
pub const TRACE_DIR_DATA: &'static str = "data";

/// Directory of the recorded transactions.
pub const TRACE_DIR_INPUT: &'static str = "input";

/// Directory of the recorded outputs.
pub const TRACE_DIR_OUTPUT: &'static str = "output";

/// Why a recording step failed. Either is fatal to the test that records.
#[derive(Debug, Clone, Copy, PartialEq, Eq, Structural)]
pub enum TraceError {
    /// The file to create is already there.
    FileExists,
    /// The item has no binary encoding.
    Serialize,
}

/// One recorded file: the number that names it, and its content.
#[derive(Debug)]
pub struct TraceFile {
    pub seq: usize,
    pub bytes: Vec<u8>,
}

/// A file in contracts: its number and its content.
pub type TraceFileView = (usize, Seq<u8>);

impl View for TraceFile {
    type V = TraceFileView;

    open spec fn view(&self) -> TraceFileView {
        (self.seq, self.bytes@)
    }
}

/// Whether a file named `name` is among `files`.
pub open spec fn has_file(files: Seq<TraceFileView>, name: usize) -> bool {
    exists|i: int| 0 <= i < files.len() && (#[trigger] files[i]).0 == name
}

/// No two files share a name.
pub open spec fn distinct_names(files: Seq<TraceFileView>) -> bool {
    forall|i: int, j: int| 0 <= i < j < files.len() ==> (#[trigger] files[i]).0 != (#[trigger] files[j]).0
}

/// The files are named `0, 1, ..` in the order in which they were created,
/// with no gap.
pub open spec fn densely_named(files: Seq<TraceFileView>) -> bool {
    forall|i: int| 0 <= i < files.len() ==> (#[trigger] files[i]).0 == i
}

/// Whether every file of `before` is still in `after`, in its place and
/// unchanged: files are only ever added behind those that are there.
pub open spec fn keeps_files(before: Seq<TraceFileView>, after: Seq<TraceFileView>) -> bool {
    &&& before.len() <= after.len()
    &&& forall|i: int| 0 <= i < before.len() ==> #[trigger] after[i] == before[i]
}

/// One recording step on a directory. The next sequence number is the
/// number of files present. An item without an encoding fails the step
/// first; then a file already named by that number does. Otherwise the new
/// file is added under that number.
pub open spec fn record_step(files: Seq<TraceFileView>, item: Option<Seq<u8>>) -> Result<Seq<TraceFileView>, TraceError> {
    match item {
        None => Err(TraceError::Serialize),
        Some(bytes) => if has_file(files, files.len() as usize) {
            Err(TraceError::FileExists)
        } else {
            Ok(files.push((files.len() as usize, bytes)))
        },
    }
}

/// Recording a list of items one after the other, stopping at the first
/// failure.
pub open spec fn record_steps(files: Seq<TraceFileView>, items: Seq<Option<Seq<u8>>>) -> Result<Seq<TraceFileView>, TraceError>
    decreases items.len(),
{
    if items.len() == 0 {
        Ok(files)
    } else {
        match record_steps(files, items.drop_last()) {
            Err(e) => Err(e),
            Ok(done) => record_step(done, items.last()),
        }
    }
}

/// Recording into a densely named directory never collides: the item is
/// stored under the next number, and the directory stays densely named.
pub proof fn lemma_record_dense(files: Seq<TraceFileView>, bytes: Seq<u8>)
    requires
        densely_named(files),
        files.len() <= usize::MAX,
    ensures
        record_step(files, Some(bytes)) == Ok::<Seq<TraceFileView>, TraceError>(files.push((files.len() as usize, bytes))),
        densely_named(files.push((files.len() as usize, bytes))),
{
    if has_file(files, files.len() as usize) {
        let i = choose|i: int| 0 <= i < files.len() && (#[trigger] files[i]).0 == files.len() as usize;
        assert(files[i].0 == i);
    }
}

/// Recording `n` encodable items into an empty directory creates exactly
/// the files `0, 1, .., n - 1`, each holding its item, with no gap and no
/// number used twice.
pub proof fn lemma_fresh_records_are_dense(items: Seq<Seq<u8>>)
    requires
        items.len() <= usize::MAX,
    ensures
        record_steps(Seq::<TraceFileView>::empty(), items.map_values(|b: Seq<u8>| Some(b)))
            == Ok::<Seq<TraceFileView>, TraceError>(Seq::new(items.len(), |i: int| (i as usize, items[i]))),
        densely_named(Seq::new(items.len(), |i: int| (i as usize, items[i]))),
        distinct_names(Seq::new(items.len(), |i: int| (i as usize, items[i]))),
    decreases items.len(),
{
    let start = Seq::<TraceFileView>::empty();
    let encoded = items.map_values(|b: Seq<u8>| Some(b));
    let target = Seq::new(items.len(), |i: int| (i as usize, items[i]));
    if items.len() == 0 {
        assert(target =~= start);
    } else {
        let front = items.drop_last();
        lemma_fresh_records_are_dense(front);
        let front_target = Seq::new(front.len(), |i: int| (i as usize, front[i]));
        assert(encoded.drop_last() =~= front.map_values(|b: Seq<u8>| Some(b)));
        assert(encoded.last() == Some(items.last()));
        lemma_record_dense(front_target, items.last());
        assert(front_target.push((front_target.len() as usize, items.last())) =~= target);
    }
}

/// A directory that holds a file named by the number of its files refuses
/// the next recording, whatever the item.
pub proof fn lemma_record_collision(files: Seq<TraceFileView>, item: Option<Seq<u8>>)
    requires
        has_file(files, files.len() as usize),
    ensures
        record_step(files, item) is Err,
{
}

/// One directory of the trace, in memory.
#[derive(Debug)]
pub struct TraceDir {
    files: Vec<TraceFile>,
}

impl View for TraceDir {
    type V = Seq<TraceFileView>;

    closed spec fn view(&self) -> Seq<TraceFileView> {
        Seq::new(self.files@.len(), |i: int| self.files@[i]@)
    }
}

impl TraceDir {
    /// The representation invariant: file names are unique.
    pub closed spec fn wf(&self) -> bool {
        distinct_names(self@)
    }

    /// An empty directory.
    pub fn new() -> (r: TraceDir)
        ensures
            r.wf(),
            r@ == Seq::<TraceFileView>::empty(),
    {
        let r = TraceDir { files: Vec::new() };
        assert(r@ =~= Seq::<TraceFileView>::empty());
        r
    }

    /// Number of files in the directory.
    pub fn count(&self) -> (r: usize)
        ensures
            r == self@.len(),
    {
        self.files.len()
    }

    fn position(&self, name: usize) -> (r: Option<usize>)
        ensures
            match r {
                Some(i) => i < self@.len() && self@[i as int].0 == name,
                None => !has_file(self@, name),
            },
    {
        let mut i: usize = 0;
        while i < self.files.len()
            invariant
                i <= self.files@.len(),
                self@.len() == self.files@.len(),
                forall|j: int| 0 <= j < i ==> (#[trigger] self@[j]).0 != name,
            decreases self.files@.len() - i,
        {
            if self.files[i].seq == name {
                return Some(i);
            }
            i += 1;
        }
        None
    }

    /// The names of the files, in the order in which they were created.
    pub fn file_names(&self) -> (r: Vec<usize>)
        ensures
            r@ == Seq::new(self@.len(), |i: int| self@[i].0),
    {
        let mut out: Vec<usize> = Vec::new();
        let mut i: usize = 0;
        while i < self.files.len()
            invariant
                i <= self.files@.len(),
                self@.len() == self.files@.len(),
                out@.len() == i,
                forall|j: int| 0 <= j < i ==> out@[j] == (#[trigger] self@[j]).0,
            decreases self.files@.len() - i,
        {
            out.push(self.files[i].seq);
            i += 1;
        }
        assert(out@ =~= Seq::new(self@.len(), |i: int| self@[i].0));
        out
    }

    /// Whether a file named `name` exists.
    pub fn contains(&self, name: usize) -> (r: bool)
        ensures
            r == has_file(self@, name),
    {
        self.position(name).is_some()
    }

    /// The content of the file named `name`, if there is one.
    pub fn read(&self, name: usize) -> (r: Option<Vec<u8>>)
        requires
            self.wf(),
        ensures
            match r {
                Some(bytes) => exists|i: int| 0 <= i < self@.len() && #[trigger] self@[i] == (name, bytes@),
                None => !has_file(self@, name),
            },
    {
        match self.position(name) {
            Some(i) => {
                let bytes = bytes_clone(&self.files[i].bytes);
                assert(self@[i as int] == (name, bytes@));
                Some(bytes)
            },
            None => None,
        }
    }

    /// Creates the file `name` with `bytes`, and fails if it is already
    /// there: an existing file is never replaced.
    pub fn create_new(&mut self, name: usize, bytes: Vec<u8>) -> (r: Result<(), TraceError>)
        requires
            old(self).wf(),
        ensures
            final(self).wf(),
            match r {
                Ok(_) => !has_file(old(self)@, name) && final(self)@ == old(self)@.push((name, bytes@)),
                Err(e) => e == TraceError::FileExists && has_file(old(self)@, name) && final(self)@ == old(
                    self,
                )@,
            },
    {
        if self.contains(name) {
            return Err(TraceError::FileExists);
        }
        let ghost before = self@;
        self.files.push(TraceFile { seq: name, bytes });
        proof {
            assert(self@ =~= before.push((name, bytes@)));
            assert forall|i: int, j: int| 0 <= i < j < self@.len() implies (#[trigger] self@[i]).0 != (#[trigger] self@[j]).0 by {
                if j < before.len() {
                    assert(before[i].0 != before[j].0);
                } else {
                    assert(before[i].0 != name);
                }
            }
        }
        Ok(())
    }

    /// Records one item: the number of files present becomes its sequence
    /// number and the name of its file. `item` is the item's encoding, or
    /// `None` where it has none.
    pub fn record(&mut self, item: Option<Vec<u8>>) -> (r: Result<usize, TraceError>)
        requires
            old(self).wf(),
        ensures
            final(self).wf(),
            match r {
                Ok(seq) => seq == old(self)@.len() && record_step(old(self)@, item.deep_view()) == Ok::<
                    Seq<TraceFileView>,
                    TraceError,
                >(final(self)@),
                Err(e) => record_step(old(self)@, item.deep_view()) == Err::<Seq<TraceFileView>, TraceError>(e)
                    && final(self)@ == old(self)@,
            },
    {
        let seq = self.count();
        match item {
            None => Err(TraceError::Serialize),
            Some(bytes) => {
                assert(bytes.deep_view() =~= bytes@);
                match self.create_new(seq, bytes) {
                    Ok(_) => Ok(seq),
                    Err(e) => Err(e),
                }
            },
        }
    }
}

} // verus!
