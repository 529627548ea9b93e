//! Direct invocation: running one entry point in a fresh session, past
//! validation and visibility, and taking the write set it leaves.

use vstd::prelude::*;
use crate::collaborators::{BlockExecutor, SessionFailure, SessionRunner};
use crate::executor::{FakeExecutor, HarnessError, HarnessErrorView};
use crate::identifier::{identifier_is_valid, valid_identifier};
use crate::state_key::Address;
use crate::transaction::ChangeSet;
use crate::write_set::{apply_ops, WriteEntryView, WriteSet};

verus! {

/// The result of a direct invocation, in contracts: the write set, or why
/// there is none.
pub type InvocationResult = Result<Seq<WriteEntryView>, HarnessErrorView>;

/// The view of a direct invocation's result.
pub open spec fn invocation_result_view(result: Result<WriteSet, HarnessError>) -> InvocationResult {
    match result {
        Ok(write_set) => Ok(write_set@),
        Err(e) => Err(e@),
    }
}

/// From what the session handed back to the invocation's result: the write
/// set of the change set, its events dropped; the engine's failure where
/// the entry point failed; a session error otherwise.
pub open spec fn session_outcome(session: Result<ChangeSet, SessionFailure>) -> InvocationResult {
    match session {
        Ok(change_set) => Ok(change_set.write_set@),
        Err(SessionFailure::Execution(status)) => Err(HarnessErrorView::VmFailure(status@)),
        Err(SessionFailure::Finish) => Err(HarnessErrorView::SessionFinish),
        Err(SessionFailure::ChangeSet) => Err(HarnessErrorView::SessionChangeSet),
    }
}

/// Takes the write set out of a session's result.
pub fn session_write_set(session: Result<ChangeSet, SessionFailure>) -> (r: Result<WriteSet, HarnessError>)
    ensures
        invocation_result_view(r) == session_outcome(session),
{
    match session {
        Ok(change_set) => {
            let (write_set, _events) = change_set.into_inner();
            Ok(write_set)
        },
        Err(SessionFailure::Execution(status)) => Err(HarnessError::VmFailure(status)),
        Err(SessionFailure::Finish) => Err(HarnessError::SessionFinish),
        Err(SessionFailure::ChangeSet) => Err(HarnessError::SessionChangeSet),
    }
}

/// Whether `result` is what a direct invocation of `module::function`
/// gives when the session hands back `session`: names that are no valid
/// identifiers are refused before any session is opened.
pub open spec fn invoked(
    module_name: Seq<char>,
    function_name: Seq<char>,
    session: Result<ChangeSet, SessionFailure>,
    result: InvocationResult,
) -> bool {
    if valid_identifier(module_name) && valid_identifier(function_name) {
        result == session_outcome(session)
    } else {
        result == Err::<Seq<WriteEntryView>, HarnessErrorView>(HarnessErrorView::InvalidIdentifier)
    }
}

impl<S: BlockExecutor, P: BlockExecutor> FakeExecutor<S, P> {
    /// Runs `function_name` of the core module `module_name` in a fresh
    /// session against the current state and hands back the write set of
    /// its effects. The state is not changed: applying the write set is
    /// the caller's business.
    pub fn try_exec<V: SessionRunner>(
        &self,
        vm: &V,
        module_name: &str,
        function_name: &str,
        type_params: Vec<move_core_types::language_storage::TypeTag>,
        args: Vec<Vec<u8>>,
    ) -> (r: Result<WriteSet, HarnessError>)
        requires
            self.wf(),
        ensures
            exists|session: Result<ChangeSet, SessionFailure>| #[trigger]
                invoked(module_name@, function_name@, session, invocation_result_view(r)),
    {
        if !(identifier_is_valid(module_name) && identifier_is_valid(function_name)) {
            let r = Err(HarnessError::InvalidIdentifier);
            proof {
                let none: Result<ChangeSet, SessionFailure> = Err(SessionFailure::Finish);
                assert(invoked(module_name@, function_name@, none, invocation_result_view(r)));
            }
            return r;
        }
        let core = Address::core_code();
        let session = vm.execute_function(
            &core,
            module_name,
            function_name,
            type_params,
            args,
            self.get_state_view(),
        );
        let r = session_write_set(session);
        proof {
            assert(invoked(module_name@, function_name@, session, invocation_result_view(r)));
        }
        r
    }

    /// Runs an entry point as `try_exec` does and applies the write set to
    /// the state at once. Where the invocation fails, the state is left as
    /// it was.
    pub fn exec<V: SessionRunner>(
        &mut self,
        vm: &V,
        module_name: &str,
        function_name: &str,
        type_params: Vec<move_core_types::language_storage::TypeTag>,
        args: Vec<Vec<u8>>,
    ) -> (r: Result<WriteSet, HarnessError>)
        requires
            old(self).wf(),
        ensures
            final(self).wf(),
            final(self).time() == old(self).time(),
            final(self).trace_view() == old(self).trace_view(),
            final(self).golden_name() == old(self).golden_name(),
            exists|session: Result<ChangeSet, SessionFailure>| #[trigger]
                invoked(module_name@, function_name@, session, invocation_result_view(r)),
            match r {
                Ok(write_set) => final(self).state()@ == apply_ops(old(self).state()@, write_set@),
                Err(_) => final(self).state() == old(self).state(),
            },
    {
        let r = self.try_exec(vm, module_name, function_name, type_params, args);
        match &r {
            Ok(write_set) => {
                self.apply_write_set(write_set);
            },
            Err(_) => {},
        }
        r
    }
}

} // verus!
