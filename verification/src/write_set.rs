//! Write sets: ordered batches of upserts and deletions, and what applying
//! one to a state map means.

use vstd::prelude::*;
use crate::bytes::{bytes_clone, bytes_eq};
use crate::state_key::{StateKey, StateKeyView};

verus! {

/// One mutation of a storage slot.
#[derive(Debug)]
pub enum WriteOp {
    /// Store these bytes in the slot, whether or not it exists.
    Value(Vec<u8>),
    /// Remove the slot; removing an absent slot changes nothing.
    Deletion,
}

impl View for WriteOp {
    type V = Option<Seq<u8>>;

    open spec fn view(&self) -> Option<Seq<u8>> {
        match self {
            WriteOp::Value(bytes) => Some(bytes@),
            WriteOp::Deletion => None,
        }
    }
}

impl WriteOp {
    /// Structural equality of two operations.
    pub fn same_as(&self, other: &WriteOp) -> (r: bool)
        ensures
            r == (self@ == other@),
    {
        match (self, other) {
            (WriteOp::Value(a), WriteOp::Value(b)) => bytes_eq(a, b),
            (WriteOp::Deletion, WriteOp::Deletion) => true,
            _ => false,
        }
    }

    /// A copy of this operation.
    pub fn duplicate(&self) -> (r: WriteOp)
        ensures
            r@ == self@,
    {
        match self {
            WriteOp::Value(a) => WriteOp::Value(bytes_clone(a)),
            WriteOp::Deletion => WriteOp::Deletion,
        }
    }
}

/// One entry of a write set: a key and what happens to its slot.
#[derive(Debug)]
pub struct WriteEntry {
    pub key: StateKey,
    pub op: WriteOp,
}

/// An entry as contracts see it: the key, then `Some(bytes)` for a write
/// and `None` for a deletion.
pub type WriteEntryView = (StateKeyView, Option<Seq<u8>>);

impl View for WriteEntry {
    type V = WriteEntryView;

    open spec fn view(&self) -> WriteEntryView {
        (self.key@, self.op@)
    }
}

/// An ordered sequence of mutations, applied as a whole.
#[derive(Debug)]
pub struct WriteSet {
    pub entries: Vec<WriteEntry>,
}

impl View for WriteSet {
    type V = Seq<WriteEntryView>;

    open spec fn view(&self) -> Seq<WriteEntryView> {
        Seq::new(self.entries@.len(), |i: int| self.entries@[i]@)
    }
}

/// The ledger state in contracts: a finite map from keys to bytes.
pub type StateMap = Map<StateKeyView, Seq<u8>>;

/// The effect of one operation on a state map.
pub open spec fn apply_op(state: StateMap, key: StateKeyView, op: Option<Seq<u8>>) -> StateMap {
    match op {
        Some(bytes) => state.insert(key, bytes),
        None => state.remove(key),
    }
}

/// The effect of a whole write set: its operations, first to last.
pub open spec fn apply_ops(state: StateMap, ops: Seq<WriteEntryView>) -> StateMap
    decreases ops.len(),
{
    if ops.len() == 0 {
        state
    } else {
        apply_op(apply_ops(state, ops.drop_last()), ops.last().0, ops.last().1)
    }
}

/// Whether `key` is the target of some operation in `ops`.
pub open spec fn touches(ops: Seq<WriteEntryView>, key: StateKeyView) -> bool {
    exists|i: int| 0 <= i < ops.len() && (#[trigger] ops[i]).0 == key
}

/// Whether `ops[last]` is the final operation on `key`.
pub open spec fn is_last_op_on(ops: Seq<WriteEntryView>, key: StateKeyView, last: int) -> bool {
    &&& 0 <= last < ops.len()
    &&& ops[last].0 == key
    &&& forall|j: int| last < j < ops.len() ==> (#[trigger] ops[j]).0 != key
}

/// Within one write set the last operation on a key wins: after the whole
/// set is applied, the key holds what that operation wrote, or is absent if
/// that operation was a deletion, whatever earlier operations did to it.
pub proof fn lemma_last_write_wins(state: StateMap, ops: Seq<WriteEntryView>, key: StateKeyView, last: int)
    requires
        is_last_op_on(ops, key, last),
    ensures
        match ops[last].1 {
            Some(bytes) => apply_ops(state, ops).contains_key(key) && apply_ops(state, ops)[key] == bytes,
            None => !apply_ops(state, ops).contains_key(key),
        },
    decreases ops.len(),
{
    if last == ops.len() - 1 {
    } else {
        let front = ops.drop_last();
        assert(is_last_op_on(front, key, last)) by {
            assert forall|j: int| last < j < front.len() implies (#[trigger] front[j]).0 != key by {
                assert(front[j] == ops[j]);
            }
        }
        lemma_last_write_wins(state, front, key, last);
        assert(ops.last().0 != key);
    }
}

/// A key that no operation of the write set targets keeps exactly what it
/// had: its presence and its bytes.
pub proof fn lemma_untouched_key_unchanged(state: StateMap, ops: Seq<WriteEntryView>, key: StateKeyView)
    requires
        !touches(ops, key),
    ensures
        apply_ops(state, ops).contains_key(key) == state.contains_key(key),
        state.contains_key(key) ==> apply_ops(state, ops)[key] == state[key],
    decreases ops.len(),
{
    if ops.len() > 0 {
        let front = ops.drop_last();
        assert(!touches(front, key)) by {
            if touches(front, key) {
                let i = choose|i: int| 0 <= i < front.len() && (#[trigger] front[i]).0 == key;
                assert(ops[i].0 == key);
            }
        }
        lemma_untouched_key_unchanged(state, front, key);
        assert(ops[ops.len() - 1].0 != key);
    }
}

impl WriteSet {
    /// A write set with no operations.
    pub fn empty() -> (r: WriteSet)
        ensures
            r@ == Seq::<WriteEntryView>::empty(),
    {
        let r = WriteSet { entries: Vec::new() };
        assert(r@ =~= Seq::<WriteEntryView>::empty());
        r
    }

    /// Appends one operation at the end of the sequence.
    pub fn push(&mut self, key: StateKey, op: WriteOp)
        ensures
            final(self)@ == old(self)@.push((key@, op@)),
    {
        self.entries.push(WriteEntry { key, op });
        assert(self@ =~= old(self)@.push((key@, op@)));
    }

    /// Number of operations.
    pub fn len(&self) -> (r: usize)
        ensures
            r == self@.len(),
    {
        self.entries.len()
    }

    /// Whether the set holds no operation.
    pub fn is_empty(&self) -> (r: bool)
        ensures
            r == (self@.len() == 0),
    {
        self.entries.len() == 0
    }

    /// Structural equality: the same operations on the same keys in the
    /// same order.
    pub fn same_as(&self, other: &WriteSet) -> (r: bool)
        ensures
            r == (self@ == other@),
    {
        if self.entries.len() != other.entries.len() {
            return false;
        }
        let mut i: usize = 0;
        while i < self.entries.len()
            invariant
                self.entries.len() == other.entries.len(),
                i <= self.entries.len(),
                forall|j: int| 0 <= j < i ==> self@[j] == other@[j],
            decreases self.entries.len() - i,
        {
            let a = &self.entries[i];
            let b = &other.entries[i];
            if !(a.key.same_as(&b.key) && a.op.same_as(&b.op)) {
                assert(self@[i as int] != other@[i as int]);
                return false;
            }
            i += 1;
        }
        assert(self@ =~= other@);
        true
    }

    /// A copy of this write set.
    pub fn duplicate(&self) -> (r: WriteSet)
        ensures
            r@ == self@,
    {
        let mut out: Vec<WriteEntry> = Vec::new();
        let mut i: usize = 0;
        while i < self.entries.len()
            invariant
                i <= self.entries.len(),
                out@.len() == i,
                forall|j: int| 0 <= j < i ==> out@[j]@ == self.entries@[j]@,
            decreases self.entries.len() - i,
        {
            let e = &self.entries[i];
            out.push(WriteEntry { key: e.key.duplicate(), op: e.op.duplicate() });
            i += 1;
        }
        let r = WriteSet { entries: out };
        assert(r@ =~= self@);
        r
    }
}

} // verus!
