//! The interfaces of what the harness drives and does not implement: the
//! execution engines, the validator, the session for direct invocation, the
//! genesis generator and the readers of on-chain configuration.

use vstd::prelude::*;
use crate::data_store::FakeDataStore;
use crate::state_key::Address;
use crate::transaction::{
    ChangeSet, SignedTransaction, Transaction, TransactionOutput, VMStatus, VMValidatorResult,
};

verus! {

/// The type tags of the Move language, carried through to a session.
#[verifier::external_type_specification]
#[verifier::external_body]
pub struct ExTypeTag(move_core_types::language_storage::TypeTag);

/// Calls `num_cpus::get`: the number of logical CPUs available to this
/// process. It depends on the machine; of every outcome the crate's
/// documentation promises only that it is at least one.
#[verifier::external_body]
pub(crate) fn available_cpus() -> (r: usize)
    ensures
        r >= 1,
{
    num_cpus::get()
}

/// An execution path: runs a whole block against a read-only state and
/// reports one output per transaction, in order, or a failure of the engine
/// itself. It never changes the state. The sequential and the concurrent
/// path are two implementations of this one capability.
pub trait BlockExecutor {
    /// Executes `transactions` in order. `concurrency_level` is the number
    /// of workers that a concurrent path may use, at least one.
    fn execute_block(
        &self,
        transactions: &Vec<Transaction>,
        state_view: &FakeDataStore,
        concurrency_level: usize,
    ) -> (r: Result<Vec<TransactionOutput>, VMStatus>)
        requires
            state_view.wf(),
            concurrency_level >= 1,
    ;

    /// Executes `transactions` in order and keeps, beside each output, the
    /// engine's own status for it.
    fn execute_block_and_keep_vm_status(
        &self,
        transactions: &Vec<Transaction>,
        state_view: &FakeDataStore,
    ) -> (r: Result<Vec<(VMStatus, TransactionOutput)>, VMStatus>)
        requires
            state_view.wf(),
    ;
}

/// Checks a user transaction without executing it.
pub trait TransactionValidator {
    fn validate_transaction(&self, transaction: &SignedTransaction, state_view: &FakeDataStore) -> (r:
        VMValidatorResult)
        requires
            state_view.wf(),
    ;
}

/// Why a direct invocation produced no change set.
#[derive(Debug)]
pub enum SessionFailure {
    /// The entry point itself failed, with the engine's status.
    Execution(VMStatus),
    /// The session could not be finished.
    Finish,
    /// The session's effects could not be turned into a change set.
    ChangeSet,
}

/// A fresh session of the virtual machine for one direct invocation: it
/// bypasses validation, signatures and visibility, and runs unmetered.
pub trait SessionRunner {
    /// Runs `function` of `module` at `address` against `state_view`, then
    /// finishes the session and hands back its change set.
    fn execute_function(
        &self,
        address: &Address,
        module: &str,
        function: &str,
        type_params: Vec<move_core_types::language_storage::TypeTag>,
        args: Vec<Vec<u8>>,
        state_view: &FakeDataStore,
    ) -> (r: Result<ChangeSet, SessionFailure>)
        requires
            state_view.wf(),
    ;
}

/// Reads on-chain configuration out of a state.
pub trait ConfigFetcher {
    /// The number of validators in the current validator set, or `None`
    /// where the state holds no readable validator set.
    fn validator_count(&self, state_view: &FakeDataStore) -> (r: Option<usize>)
        requires
            state_view.wf(),
    ;

    /// The major version recorded on chain, or `None` where there is none.
    fn version_major(&self, state_view: &FakeDataStore) -> (r: Option<u64>)
        requires
            state_view.wf(),
    ;
}

} // verus!
