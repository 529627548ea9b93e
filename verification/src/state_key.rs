//! Identifiers of ledger storage slots.

use vstd::prelude::*;
use crate::bytes::{bytes_clone, bytes_eq};

verus! {

/// An account address: sixteen raw bytes.
#[derive(Debug, Clone, Copy)]
pub struct Address {
    pub bytes: [u8; 16],
}

impl View for Address {
    type V = Seq<u8>;

    open spec fn view(&self) -> Seq<u8> {
        self.bytes@
    }
}

impl Address {
    /// Wraps sixteen bytes as an address.
    pub fn new(bytes: [u8; 16]) -> (r: Address)
        ensures
            r@ == bytes@,
    {
        Address { bytes }
    }

    /// The address of the core code account, `0x1`.
    pub fn core_code() -> (r: Address)
        ensures
            r@ == core_code_address(),
    {
        let r = Address { bytes: [0u8, 0u8, 0u8, 0u8, 0u8, 0u8, 0u8, 0u8, 0u8, 0u8, 0u8, 0u8, 0u8, 0u8, 0u8, 1u8] };
        assert(r@ =~= core_code_address());
        r
    }

    /// Whether two addresses hold the same bytes.
    pub fn same_as(&self, other: &Address) -> (r: bool)
        ensures
            r == (self@ == other@),
    {
        let mut i: usize = 0;
        while i < 16
            invariant
                i <= 16,
                forall|j: int| 0 <= j < i ==> self.bytes@[j] == other.bytes@[j],
            decreases 16 - i,
        {
            if self.bytes[i] != other.bytes[i] {
                return false;
            }
            i += 1;
        }
        assert(self.bytes@ =~= other.bytes@);
        true
    }

    /// The address as a byte vector.
    pub fn to_vec(&self) -> (r: Vec<u8>)
        ensures
            r@ == self@,
    {
        let mut out: Vec<u8> = Vec::new();
        let mut i: usize = 0;
        while i < 16
            invariant
                i <= 16,
                out@ == self.bytes@.subrange(0, i as int),
            decreases 16 - i,
        {
            out.push(self.bytes[i]);
            assert(out@ =~= self.bytes@.subrange(0, i + 1));
            i += 1;
        }
        assert(out@ =~= self.bytes@);
        out
    }
}

/// The bytes of the core code address: fifteen zeros, then one.
pub open spec fn core_code_address() -> Seq<u8> {
    seq![0u8, 0u8, 0u8, 0u8, 0u8, 0u8, 0u8, 0u8, 0u8, 0u8, 0u8, 0u8, 0u8, 0u8, 0u8, 1u8]
}

/// What a state key stands for in contracts: the owning address and the
/// access path below it.
pub struct StateKeyView {
    pub address: Seq<u8>,
    pub path: Seq<u8>,
}

/// Identifies one storage slot: an account address and a path below it.
#[derive(Debug)]
pub struct StateKey {
    pub address: Address,
    pub path: Vec<u8>,
}

impl View for StateKey {
    type V = StateKeyView;

    open spec fn view(&self) -> StateKeyView {
        StateKeyView { address: self.address@, path: self.path@ }
    }
}

impl StateKey {
    /// A key for the slot at `path` under `address`.
    pub fn new(address: Address, path: Vec<u8>) -> (r: StateKey)
        ensures
            r@ == (StateKeyView { address: address@, path: path@ }),
    {
        StateKey { address, path }
    }

    /// Structural equality of two keys.
    pub fn same_as(&self, other: &StateKey) -> (r: bool)
        ensures
            r == (self@ == other@),
    {
        self.address.same_as(&other.address) && bytes_eq(&self.path, &other.path)
    }

    /// A copy of this key.
    pub fn duplicate(&self) -> (r: StateKey)
        ensures
            r@ == self@,
    {
        StateKey { address: self.address, path: bytes_clone(&self.path) }
    }
}

} // verus!
