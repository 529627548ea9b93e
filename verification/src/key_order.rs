//! The order in which the ledger state keeps its slots: by address, then by
//! path, each compared byte by byte.

use vstd::prelude::*;
use crate::state_key::{StateKey, StateKeyView};

verus! {

/// Whether `a` comes before `b` byte by byte: at the first place where they
/// differ `a` has the smaller byte, or `a` ends there and `b` goes on.
pub open spec fn bytes_before(a: Seq<u8>, b: Seq<u8>) -> bool
    decreases a.len(),
{
    if b.len() == 0 {
        false
    } else if a.len() == 0 {
        true
    } else if a[0] != b[0] {
        a[0] < b[0]
    } else {
        bytes_before(a.drop_first(), b.drop_first())
    }
}

/// Whether key `a` comes before key `b`: by address first, then by path.
pub open spec fn key_before(a: StateKeyView, b: StateKeyView) -> bool {
    bytes_before(a.address, b.address) || (a.address == b.address && bytes_before(a.path, b.path))
}

/// Nothing comes before itself.
pub proof fn lemma_bytes_irreflexive(a: Seq<u8>)
    ensures
        !bytes_before(a, a),
    decreases a.len(),
{
    if a.len() > 0 {
        lemma_bytes_irreflexive(a.drop_first());
    }
}

/// What comes before something that comes before a third comes before the
/// third.
pub proof fn lemma_bytes_transitive(a: Seq<u8>, b: Seq<u8>, c: Seq<u8>)
    requires
        bytes_before(a, b),
        bytes_before(b, c),
    ensures
        bytes_before(a, c),
    decreases a.len(),
{
    if a.len() > 0 && a[0] == b[0] && b[0] == c[0] {
        lemma_bytes_transitive(a.drop_first(), b.drop_first(), c.drop_first());
    }
}

/// Of two different byte strings one comes before the other.
pub proof fn lemma_bytes_total(a: Seq<u8>, b: Seq<u8>)
    ensures
        a == b || bytes_before(a, b) || bytes_before(b, a),
    decreases a.len(),
{
    if a.len() > 0 && b.len() > 0 && a[0] == b[0] {
        lemma_bytes_total(a.drop_first(), b.drop_first());
        if a.drop_first() == b.drop_first() {
            assert(a =~= seq![a[0]] + a.drop_first());
            assert(b =~= seq![b[0]] + b.drop_first());
        }
    } else if a.len() == 0 && b.len() == 0 {
        assert(a =~= b);
    }
}

/// No key comes before itself.
pub proof fn lemma_key_irreflexive(a: StateKeyView)
    ensures
        !key_before(a, a),
{
    lemma_bytes_irreflexive(a.address);
    lemma_bytes_irreflexive(a.path);
}

/// The order of keys is transitive.
pub proof fn lemma_key_transitive(a: StateKeyView, b: StateKeyView, c: StateKeyView)
    requires
        key_before(a, b),
        key_before(b, c),
    ensures
        key_before(a, c),
{
    lemma_bytes_irreflexive(a.address);
    lemma_bytes_irreflexive(b.address);
    if bytes_before(a.address, b.address) && bytes_before(b.address, c.address) {
        lemma_bytes_transitive(a.address, b.address, c.address);
    }
    if a.address == b.address && b.address == c.address {
        lemma_bytes_transitive(a.path, b.path, c.path);
    }
}

/// Of two different keys one comes before the other.
pub proof fn lemma_key_total(a: StateKeyView, b: StateKeyView)
    ensures
        a == b || key_before(a, b) || key_before(b, a),
{
    lemma_bytes_total(a.address, b.address);
    lemma_bytes_total(a.path, b.path);
}

/// Where two byte strings agree on their first `i` bytes, the place `i`
/// decides which comes first.
pub proof fn lemma_bytes_decided_at(a: Seq<u8>, b: Seq<u8>, i: int)
    requires
        0 <= i <= a.len(),
        i <= b.len(),
        forall|j: int| 0 <= j < i ==> a[j] == b[j],
        (i == a.len() && i < b.len()) || (i < a.len() && i < b.len() && a[i] < b[i]),
    ensures
        bytes_before(a, b),
    decreases i,
{
    if i > 0 {
        let x = a.drop_first();
        let y = b.drop_first();
        assert(a[0] == b[0]);
        assert forall|j: int| 0 <= j < i - 1 implies x[j] == y[j] by {
            assert(a[j + 1] == b[j + 1]);
        }
        lemma_bytes_decided_at(x, y, i - 1);
    }
}

/// How one thing lies to another in the order.
#[derive(Debug, Clone, Copy, PartialEq, Eq, Structural)]
pub enum Placement {
    Before,
    Same,
    After,
}

/// Places `a` against `b` byte by byte.
pub fn place_bytes(a: &Vec<u8>, b: &Vec<u8>) -> (r: Placement)
    ensures
        match r {
            Placement::Before => bytes_before(a@, b@),
            Placement::Same => a@ == b@,
            Placement::After => bytes_before(b@, a@),
        },
{
    let mut i: usize = 0;
    while i < a.len() && i < b.len()
        invariant
            i <= a@.len(),
            i <= b@.len(),
            forall|j: int| 0 <= j < i ==> a@[j] == b@[j],
        decreases a@.len() - i,
    {
        if a[i] < b[i] {
            proof {
                lemma_bytes_decided_at(a@, b@, i as int);
            }
            return Placement::Before;
        }
        if a[i] > b[i] {
            proof {
                lemma_bytes_decided_at(b@, a@, i as int);
            }
            return Placement::After;
        }
        i += 1;
    }
    if a.len() == b.len() {
        assert(a@ =~= b@);
        Placement::Same
    } else if a.len() < b.len() {
        proof {
            lemma_bytes_decided_at(a@, b@, i as int);
        }
        Placement::Before
    } else {
        proof {
            lemma_bytes_decided_at(b@, a@, i as int);
        }
        Placement::After
    }
}

/// Places key `a` against key `b`: by address first, then by path.
pub fn place_key(a: &StateKey, b: &StateKey) -> (r: Placement)
    ensures
        match r {
            Placement::Before => key_before(a@, b@),
            Placement::Same => a@ == b@,
            Placement::After => key_before(b@, a@),
        },
{
    let x = a.address.to_vec();
    let y = b.address.to_vec();
    match place_bytes(&x, &y) {
        Placement::Before => Placement::Before,
        Placement::After => Placement::After,
        Placement::Same => place_bytes(&a.path, &b.path),
    }
}

} // verus!
