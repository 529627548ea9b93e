//! The in-memory ledger state: one byte blob per state key, the slots kept
//! in the order of their keys.

use vstd::prelude::*;
use crate::bytes::bytes_clone;
use crate::key_order::{
    key_before, lemma_key_irreflexive, lemma_key_transitive, place_key, Placement,
};
use crate::state_key::{StateKey, StateKeyView};
use crate::write_set::{apply_op, apply_ops, StateMap, WriteOp, WriteSet};

verus! {

/// One occupied storage slot.
#[derive(Debug)]
pub struct Slot {
    pub key: StateKey,
    pub value: Vec<u8>,
}

/// The whole ledger state. It is created empty and changed only by writes,
/// removals and write-set application.
#[derive(Debug)]
pub struct FakeDataStore {
    slots: Vec<Slot>,
}

/// Whether some slot of `slots` is stored under `key`.
pub open spec fn has_slot(slots: Seq<Slot>, key: StateKeyView) -> bool {
    exists|i: int| 0 <= i < slots.len() && (#[trigger] slots[i]).key@ == key
}

/// The position of a slot stored under `key`.
pub open spec fn slot_of(slots: Seq<Slot>, key: StateKeyView) -> int {
    choose|i: int| 0 <= i < slots.len() && (#[trigger] slots[i]).key@ == key
}

/// No key occupies two slots.
pub open spec fn distinct_keys(slots: Seq<Slot>) -> bool {
    forall|i: int, j: int| 0 <= i < j < slots.len() ==> (#[trigger] slots[i]).key@ != (#[trigger] slots[j]).key@
}

/// The map that a list of slots with distinct keys stands for.
pub open spec fn slots_map(slots: Seq<Slot>) -> StateMap {
    Map::new(|k: StateKeyView| has_slot(slots, k), |k: StateKeyView| slots[slot_of(slots, k)].value@)
}

proof fn lemma_slot_lookup(slots: Seq<Slot>, i: int)
    requires
        distinct_keys(slots),
        0 <= i < slots.len(),
    ensures
        slots_map(slots).contains_key(slots[i].key@),
        slots_map(slots)[slots[i].key@] == slots[i].value@,
{
    let k = slots[i].key@;
    assert(has_slot(slots, k));
    let j = slot_of(slots, k);
    assert(i == j) by {
        if i < j {
            assert(slots[i].key@ != slots[j].key@);
        } else if j < i {
            assert(slots[j].key@ != slots[i].key@);
        }
    }
}

/// A slot as plain values: address, path, value.
pub type SlotTriple = (Seq<u8>, Seq<u8>, Seq<u8>);

/// The key of a slot given as a triple.
pub open spec fn triple_key(triple: SlotTriple) -> StateKeyView {
    StateKeyView { address: triple.0, path: triple.1 }
}

/// The triple of a slot.
pub open spec fn slot_triple(slot: Slot) -> SlotTriple {
    (slot.key.address@, slot.key.path@, slot.value@)
}

/// The triples of a list of slots, in order.
pub open spec fn triples_of(slots: Seq<Slot>) -> Seq<SlotTriple> {
    Seq::new(slots.len(), |i: int| slot_triple(slots[i]))
}

/// Whether some triple of the list is stored under `key`.
pub open spec fn has_triple(triples: Seq<SlotTriple>, key: StateKeyView) -> bool {
    exists|i: int| 0 <= i < triples.len() && triple_key(#[trigger] triples[i]) == key
}

/// Whether the triples stand in the order of their keys, each key before
/// the next.
pub open spec fn sorted_triples(triples: Seq<SlotTriple>) -> bool {
    forall|i: int, j: int|
        0 <= i < j < triples.len() ==> key_before(triple_key(#[trigger] triples[i]), triple_key(#[trigger] triples[j]))
}

/// Whether the triples are exactly the entries of the map: each triple is
/// an entry, and each key of the map has a triple.
pub open spec fn holds_map(triples: Seq<SlotTriple>, map: StateMap) -> bool {
    &&& forall|i: int|
        0 <= i < triples.len() ==> map.contains_key(triple_key(#[trigger] triples[i])) && map[triple_key(
            triples[i],
        )] == triples[i].2
    &&& forall|key: StateKeyView| #[trigger] map.contains_key(key) ==> has_triple(triples, key)
}

/// A map has one list of entries in the order of their keys, and no other:
/// two sorted lists that hold the same map are the same list.
pub proof fn lemma_sorted_triples_unique(s: Seq<SlotTriple>, t: Seq<SlotTriple>, map: StateMap)
    requires
        sorted_triples(s),
        sorted_triples(t),
        holds_map(s, map),
        holds_map(t, map),
    ensures
        s == t,
    decreases s.len(),
{
    if s.len() == 0 {
        if t.len() > 0 {
            assert(map.contains_key(triple_key(t[0])));
            assert(has_triple(s, triple_key(t[0])));
        }
        assert(s =~= t);
    } else {
        let ks = triple_key(s[0]);
        assert(map.contains_key(ks));
        assert(has_triple(t, ks));
        let j = choose|j: int| 0 <= j < t.len() && triple_key(#[trigger] t[j]) == ks;
        let kt = triple_key(t[0]);
        assert(map.contains_key(kt));
        assert(has_triple(s, kt));
        let i = choose|i: int| 0 <= i < s.len() && triple_key(#[trigger] s[i]) == kt;
        lemma_key_irreflexive(ks);
        if j > 0 {
            assert(key_before(triple_key(t[0]), triple_key(t[j])));
            if i > 0 {
                assert(key_before(triple_key(s[0]), triple_key(s[i])));
                lemma_key_transitive(ks, kt, ks);
            }
        }
        assert(j == 0);
        assert(s[0] == t[0]);
        let s1 = s.drop_first();
        let t1 = t.drop_first();
        let rest = map.remove(ks);
        assert(sorted_triples(s1)) by {
            assert forall|a: int, b: int| 0 <= a < b < s1.len() implies key_before(
                triple_key(#[trigger] s1[a]),
                triple_key(#[trigger] s1[b]),
            ) by {
                assert(key_before(triple_key(s[a + 1]), triple_key(s[b + 1])));
            }
        }
        assert(sorted_triples(t1)) by {
            assert forall|a: int, b: int| 0 <= a < b < t1.len() implies key_before(
                triple_key(#[trigger] t1[a]),
                triple_key(#[trigger] t1[b]),
            ) by {
                assert(key_before(triple_key(t[a + 1]), triple_key(t[b + 1])));
            }
        }
        lemma_tail_holds_rest(s, map);
        lemma_tail_holds_rest(t, map);
        lemma_sorted_triples_unique(s1, t1, rest);
        assert(s =~= seq![s[0]] + s1);
        assert(t =~= seq![t[0]] + t1);
    }
}

proof fn lemma_tail_holds_rest(s: Seq<SlotTriple>, map: StateMap)
    requires
        s.len() > 0,
        sorted_triples(s),
        holds_map(s, map),
    ensures
        holds_map(s.drop_first(), map.remove(triple_key(s[0]))),
{
    let k0 = triple_key(s[0]);
    let s1 = s.drop_first();
    let rest = map.remove(k0);
    lemma_key_irreflexive(k0);
    assert forall|i: int| 0 <= i < s1.len() implies rest.contains_key(triple_key(#[trigger] s1[i])) && rest[triple_key(
        s1[i],
    )] == s1[i].2 by {
        assert(s1[i] == s[i + 1]);
        assert(key_before(triple_key(s[0]), triple_key(s[i + 1])));
        assert(map.contains_key(triple_key(s[i + 1])));
    }
    assert forall|key: StateKeyView| #[trigger] rest.contains_key(key) implies has_triple(s1, key) by {
        assert(map.contains_key(key));
        let j = choose|j: int| 0 <= j < s.len() && triple_key(#[trigger] s[j]) == key;
        assert(j > 0);
        assert(triple_key(s1[j - 1]) == key);
    }
}

/// Whether the slots stand in the order of their keys.
pub open spec fn sorted_keys(slots: Seq<Slot>) -> bool {
    forall|i: int, j: int| 0 <= i < j < slots.len() ==> key_before((#[trigger] slots[i]).key@, (#[trigger] slots[j]).key@)
}

impl View for FakeDataStore {
    type V = StateMap;

    closed spec fn view(&self) -> StateMap {
        slots_map(self.slots@)
    }
}

impl FakeDataStore {
    /// The representation invariant: every key is stored at most once, and
    /// the slots stand in the order of their keys.
    pub closed spec fn wf(&self) -> bool {
        distinct_keys(self.slots@) && sorted_keys(self.slots@)
    }

    /// A state with no slot at all.
    pub fn new() -> (r: FakeDataStore)
        ensures
            r.wf(),
            r@ == Map::<StateKeyView, Seq<u8>>::empty(),
    {
        let r = FakeDataStore { slots: Vec::new() };
        assert(r@ =~= Map::<StateKeyView, Seq<u8>>::empty());
        r
    }

    /// Where `key` is stored, or where it would have to be: every slot
    /// before the position has a key before `key`.
    fn locate(&self, key: &StateKey) -> (r: (usize, bool))
        requires
            self.wf(),
        ensures
            r.0 <= self.slots@.len(),
            forall|j: int| 0 <= j < r.0 ==> key_before((#[trigger] self.slots@[j]).key@, key@),
            r.1 ==> r.0 < self.slots@.len() && self.slots@[r.0 as int].key@ == key@,
            !r.1 ==> !has_slot(self.slots@, key@),
            !r.1 && r.0 < self.slots@.len() ==> key_before(key@, self.slots@[r.0 as int].key@),
    {
        let mut i: usize = 0;
        while i < self.slots.len()
            invariant
                i <= self.slots@.len(),
                self.wf(),
                forall|j: int| 0 <= j < i ==> key_before((#[trigger] self.slots@[j]).key@, key@),
            decreases self.slots@.len() - i,
        {
            match place_key(&self.slots[i].key, key) {
                Placement::Before => {
                    i += 1;
                },
                Placement::Same => {
                    return (i, true);
                },
                Placement::After => {
                    proof {
                        let slots = self.slots@;
                        lemma_key_irreflexive(key@);
                        assert forall|j: int| 0 <= j < slots.len() implies (#[trigger] slots[j]).key@ != key@ by {
                            if j < i {
                                assert(key_before(slots[j].key@, key@));
                            } else if j > i {
                                assert(key_before(slots[i as int].key@, slots[j].key@));
                                lemma_key_transitive(key@, slots[i as int].key@, slots[j].key@);
                            }
                        }
                    }
                    return (i, false);
                },
            }
        }
        proof {
            lemma_key_irreflexive(key@);
        }
        (i, false)
    }

    fn find(&self, key: &StateKey) -> (r: Option<usize>)
        requires
            self.wf(),
        ensures
            match r {
                Some(i) => i < self.slots@.len() && self.slots@[i as int].key@ == key@,
                None => !has_slot(self.slots@, key@),
            },
    {
        let (position, found) = self.locate(key);
        if found {
            Some(position)
        } else {
            None
        }
    }

    /// Reads the bytes stored under `key`. A slot that was never written, or
    /// that was deleted, gives `None`; a slot written with no bytes gives
    /// `Some` of an empty vector.
    pub fn get(&self, key: &StateKey) -> (r: Option<Vec<u8>>)
        requires
            self.wf(),
        ensures
            match r {
                Some(bytes) => self@.contains_key(key@) && bytes@ == self@[key@],
                None => !self@.contains_key(key@),
            },
    {
        match self.find(key) {
            Some(i) => {
                proof {
                    lemma_slot_lookup(self.slots@, i as int);
                }
                Some(bytes_clone(&self.slots[i].value))
            },
            None => None,
        }
    }

    /// Whether a slot is stored under `key`.
    pub fn contains(&self, key: &StateKey) -> (r: bool)
        requires
            self.wf(),
        ensures
            r == self@.contains_key(key@),
    {
        match self.find(key) {
            Some(i) => {
                proof {
                    lemma_slot_lookup(self.slots@, i as int);
                }
                true
            },
            None => false,
        }
    }

    /// Number of occupied slots.
    pub fn len(&self) -> (r: usize)
        ensures
            r == self.slot_count(),
    {
        self.slots.len()
    }

    /// Number of occupied slots, in contracts.
    pub closed spec fn slot_count(&self) -> nat {
        self.slots@.len()
    }

    /// An empty state has an empty map.
    pub proof fn lemma_slot_count_zero(&self)
        requires
            self.wf(),
        ensures
            (self.slot_count() == 0) == (self@ == Map::<StateKeyView, Seq<u8>>::empty()),
    {
        if self.slots@.len() == 0 {
            assert(self@ =~= Map::<StateKeyView, Seq<u8>>::empty());
        } else {
            lemma_slot_lookup(self.slots@, 0);
        }
    }

    /// The slots hold exactly the map's entries, in the order of their
    /// keys: one slot for each key of the map, with the key's bytes.
    pub proof fn lemma_slots_hold_the_map(&self)
        requires
            self.wf(),
        ensures
            self.slot_triples().len() == self.slot_count(),
            holds_map(self.slot_triples(), self@),
            sorted_triples(self.slot_triples()),
    {
        let slots = self.slots@;
        let triples = self.slot_triples();
        assert forall|i: int| 0 <= i < triples.len() implies self@.contains_key(triple_key(#[trigger] triples[i]))
            && self@[triple_key(triples[i])] == triples[i].2 by {
            lemma_slot_lookup(slots, i);
        }
        assert forall|key: StateKeyView| #[trigger] self@.contains_key(key) implies has_triple(triples, key) by {
            let i = slot_of(slots, key);
            assert(triple_key(triples[i]) == key);
        }
        assert forall|i: int, j: int| 0 <= i < j < triples.len() implies key_before(
            triple_key(#[trigger] triples[i]),
            triple_key(#[trigger] triples[j]),
        ) by {
            assert(key_before(slots[i].key@, slots[j].key@));
        }
    }

    /// The storage order follows from the map alone: two states with the
    /// same map hold the same slots in the same order, however each came
    /// about.
    pub proof fn lemma_same_map_same_slots(&self, other: &FakeDataStore)
        requires
            self.wf(),
            other.wf(),
            self@ == other@,
        ensures
            self.slot_triples() == other.slot_triples(),
    {
        self.lemma_slots_hold_the_map();
        other.lemma_slots_hold_the_map();
        lemma_sorted_triples_unique(self.slot_triples(), other.slot_triples(), self@);
    }

    /// Stores `value` under `key`, replacing what was there.
    pub fn set(&mut self, key: StateKey, value: Vec<u8>)
        requires
            old(self).wf(),
        ensures
            final(self).wf(),
            final(self)@ == old(self)@.insert(key@, value@),
    {
        let ghost before = self.slots@;
        let ghost k = key@;
        let ghost v = value@;
        let (position, found) = self.locate(&key);
        let ghost p = position as int;
        if found {
            self.slots.set(position, Slot { key, value });
            proof {
                let after = self.slots@;
                assert(after.len() == before.len());
                assert forall|j: int| 0 <= j < after.len() implies (#[trigger] after[j]).key@ == before[j].key@ by {}
                assert forall|a: int, b: int| 0 <= a < b < after.len() implies (#[trigger] after[a]).key@ != (#[trigger] after[b]).key@ by {
                    assert(before[a].key@ != before[b].key@);
                }
                assert forall|a: int, b: int| 0 <= a < b < after.len() implies key_before(
                    (#[trigger] after[a]).key@,
                    (#[trigger] after[b]).key@,
                ) by {
                    assert(key_before(before[a].key@, before[b].key@));
                }
                assert forall|q: StateKeyView| slots_map(after).contains_key(q) == slots_map(before).insert(k, v).contains_key(q) by {
                    if has_slot(after, q) {
                        let j = slot_of(after, q);
                        assert(before[j].key@ == q);
                    }
                    if has_slot(before, q) {
                        let j = slot_of(before, q);
                        assert(after[j].key@ == q);
                    }
                    if q == k {
                        assert(after[p].key@ == q);
                    }
                }
                assert forall|q: StateKeyView| slots_map(after).contains_key(q) implies slots_map(after)[q] == slots_map(before).insert(k, v)[q] by {
                    let j = slot_of(after, q);
                    lemma_slot_lookup(after, j);
                    if j != p {
                        lemma_slot_lookup(before, j);
                        assert(before[j].key@ != before[p].key@);
                    }
                }
                assert(slots_map(after) =~= slots_map(before).insert(k, v));
            }
        } else {
            self.slots.insert(position, Slot { key, value });
            proof {
                let after = self.slots@;
                assert(after.len() == before.len() + 1);
                assert(after[p].key@ == k && after[p].value@ == v);
                assert forall|j: int| 0 <= j < after.len() && j != p implies #[trigger] after[j] == before[if j < p {
                    j
                } else {
                    j - 1
                }] by {}
                lemma_key_irreflexive(k);
                assert forall|a: int, b: int| 0 <= a < b < after.len() implies key_before(
                    (#[trigger] after[a]).key@,
                    (#[trigger] after[b]).key@,
                ) by {
                    if b < p {
                        assert(key_before(before[a].key@, before[b].key@));
                    } else if b == p {
                        assert(key_before(before[a].key@, k));
                    } else if a == p {
                        assert(key_before(k, before[p].key@));
                        if b - 1 > p {
                            assert(key_before(before[p].key@, before[b - 1].key@));
                            lemma_key_transitive(k, before[p].key@, before[b - 1].key@);
                        }
                    } else if a < p {
                        assert(key_before(before[a].key@, before[b - 1].key@));
                    } else {
                        assert(key_before(before[a - 1].key@, before[b - 1].key@));
                    }
                }
                assert forall|a: int, b: int| 0 <= a < b < after.len() implies (#[trigger] after[a]).key@ != (#[trigger] after[b]).key@ by {
                    assert(key_before(after[a].key@, after[b].key@));
                    lemma_key_irreflexive(after[a].key@);
                }
                assert forall|q: StateKeyView| slots_map(after).contains_key(q) == slots_map(before).insert(k, v).contains_key(q) by {
                    if has_slot(after, q) {
                        let j = slot_of(after, q);
                        if j != p {
                            let j0 = if j < p { j } else { j - 1 };
                            assert(before[j0].key@ == q);
                        }
                    }
                    if has_slot(before, q) {
                        let j = slot_of(before, q);
                        let j1 = if j < p { j } else { j + 1 };
                        assert(after[j1].key@ == q);
                    }
                    if q == k {
                        assert(after[p].key@ == q);
                    }
                }
                assert forall|q: StateKeyView| slots_map(after).contains_key(q) implies slots_map(after)[q] == slots_map(before).insert(k, v)[q] by {
                    let j = slot_of(after, q);
                    lemma_slot_lookup(after, j);
                    if j != p {
                        let j0 = if j < p { j } else { j - 1 };
                        lemma_slot_lookup(before, j0);
                    }
                }
                assert(slots_map(after) =~= slots_map(before).insert(k, v));
            }
        }
    }

    /// Removes the slot stored under `key`; an absent slot is left absent.
    pub fn remove(&mut self, key: &StateKey)
        requires
            old(self).wf(),
        ensures
            final(self).wf(),
            final(self)@ == old(self)@.remove(key@),
    {
        let ghost before = self.slots@;
        let ghost k = key@;
        match self.find(key) {
            Some(i) => {
                self.slots.remove(i);
                proof {
                    let after = self.slots@;
                    assert(after =~= before.remove(i as int));
                    assert forall|j: int| 0 <= j < after.len() implies (#[trigger] after[j]) == before[if j < i { j } else { j + 1 }] by {}
                    assert forall|a: int, b: int| 0 <= a < b < after.len() implies (#[trigger] after[a]).key@ != (#[trigger] after[b]).key@ by {
                        let a0 = if a < i { a } else { a + 1 };
                        let b0 = if b < i { b } else { b + 1 };
                        assert(before[a0].key@ != before[b0].key@);
                    }
                    assert forall|a: int, b: int| 0 <= a < b < after.len() implies key_before(
                        (#[trigger] after[a]).key@,
                        (#[trigger] after[b]).key@,
                    ) by {
                        let a0 = if a < i { a } else { a + 1 };
                        let b0 = if b < i { b } else { b + 1 };
                        assert(key_before(before[a0].key@, before[b0].key@));
                    }
                    assert forall|q: StateKeyView| slots_map(after).contains_key(q) == slots_map(before).remove(k).contains_key(q) by {
                        if has_slot(after, q) {
                            let j = slot_of(after, q);
                            let j0 = if j < i { j } else { j + 1 };
                            assert(before[j0].key@ == q);
                            if j0 < i {
                                assert(before[j0].key@ != before[i as int].key@);
                            } else {
                                assert(before[i as int].key@ != before[j0].key@);
                            }
                        }
                        if has_slot(before, q) && q != k {
                            let j = slot_of(before, q);
                            let j1 = if j < i { j } else { j - 1 };
                            assert(after[j1].key@ == q);
                        }
                    }
                    assert forall|q: StateKeyView| slots_map(after).contains_key(q) implies slots_map(after)[q] == slots_map(before).remove(k)[q] by {
                        let j = slot_of(after, q);
                        let j0 = if j < i { j } else { j + 1 };
                        lemma_slot_lookup(after, j);
                        lemma_slot_lookup(before, j0);
                    }
                    assert(slots_map(after) =~= slots_map(before).remove(k));
                }
            },
            None => {
                proof {
                    assert(slots_map(before) =~= slots_map(before).remove(k));
                }
            },
        }
    }

    /// Applies a whole write set: every operation, in sequence order, into
    /// this state. A write always upserts and a deletion always removes, so
    /// of two operations on one key the later decides.
    pub fn add_write_set(&mut self, write_set: &WriteSet)
        requires
            old(self).wf(),
        ensures
            final(self).wf(),
            final(self)@ == apply_ops(old(self)@, write_set@),
    {
        let ghost start = self@;
        let mut i: usize = 0;
        while i < write_set.entries.len()
            invariant
                i <= write_set.entries@.len(),
                self.wf(),
                self@ == apply_ops(start, write_set@.subrange(0, i as int)),
            decreases write_set.entries@.len() - i,
        {
            let entry = &write_set.entries[i];
            let ghost prev = self@;
            match &entry.op {
                WriteOp::Value(bytes) => {
                    self.set(entry.key.duplicate(), bytes_clone(bytes));
                },
                WriteOp::Deletion => {
                    self.remove(&entry.key);
                },
            }
            proof {
                let done = write_set@.subrange(0, i as int);
                let next = write_set@.subrange(0, i + 1);
                assert(next.drop_last() =~= done);
                assert(next.last() == write_set@[i as int]);
                assert(self@ == apply_op(prev, entry@.0, entry@.1));
            }
            i += 1;
        }
        proof {
            assert(write_set@.subrange(0, i as int) =~= write_set@);
        }
    }

    /// The occupied slots as triples of address, path and value, in the
    /// order of their keys, in contracts.
    pub closed spec fn slot_triples(&self) -> Seq<SlotTriple> {
        triples_of(self.slots@)
    }

    /// The occupied slots as plain triples of address, path and value, in
    /// the order of their keys.
    pub fn to_entries(&self) -> (r: Vec<(Vec<u8>, Vec<u8>, Vec<u8>)>)
        ensures
            r.deep_view() == self.slot_triples(),
    {
        let mut out: Vec<(Vec<u8>, Vec<u8>, Vec<u8>)> = Vec::new();
        let mut i: usize = 0;
        while i < self.slots.len()
            invariant
                i <= self.slots@.len(),
                out@.len() == i,
                forall|j: int|
                    0 <= j < i ==> (#[trigger] out@[j]).deep_view() == self.slot_triples()[j],
            decreases self.slots@.len() - i,
        {
            let s = &self.slots[i];
            let a = s.key.address.to_vec();
            let p = bytes_clone(&s.key.path);
            let v = bytes_clone(&s.value);
            proof {
                assert(a.deep_view() =~= a@);
                assert(p.deep_view() =~= p@);
                assert(v.deep_view() =~= v@);
            }
            out.push((a, p, v));
            i += 1;
        }
        assert(out.deep_view() =~= self.slot_triples());
        out
    }
}

} // verus!
