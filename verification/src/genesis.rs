//! Bootstrapping the ledger state: from a write set, from a saved blob,
//! from a generated genesis, or from the standard modules alone.

use vstd::prelude::*;
use crate::bytes::bytes_clone;
use crate::collaborators::BlockExecutor;
use crate::encoding::{bcs_change_set, bcs_decode_change_set};
use crate::executor::{FakeExecutor, HarnessError, HarnessErrorView};
use crate::identifier::{module_key, usable_name, ModuleId, ModuleIdView};
use crate::state_key::{Address, StateKey, StateKeyView};
use crate::transaction::ChangeSet;
use crate::write_set::{apply_ops, StateMap, WriteEntryView, WriteOp, WriteSet};

verus! {

/// Who may publish what: the scripts that are allowed, where the list is
/// not empty, and whether anyone may publish modules.
#[derive(Debug)]
pub struct VMPublishingOption {
    pub script_allow_list: Vec<Vec<u8>>,
    pub is_open_module: bool,
}

impl VMPublishingOption {
    /// Open publishing: any script, any module.
    pub fn open() -> (r: VMPublishingOption)
        ensures
            r.script_allow_list@.len() == 0,
            r.is_open_module,
    {
        VMPublishingOption { script_allow_list: Vec::new(), is_open_module: true }
    }

    /// Whether any script may run: the allow list is empty.
    pub fn is_open_script(&self) -> (r: bool)
        ensures
            r == (self.script_allow_list@.len() == 0),
    {
        self.script_allow_list.len() == 0
    }
}

/// What is asked of the genesis generator: the modules to publish, the
/// publishing policy, the number of validator accounts where one is fixed,
/// and whether to generate on the concurrent path.
#[derive(Debug)]
pub struct GenesisRequest {
    pub modules: Vec<Vec<u8>>,
    pub publishing_options: VMPublishingOption,
    pub validator_accounts: Option<usize>,
    pub parallel: bool,
}

impl GenesisRequest {
    /// The request for a genesis of the given modules, validator accounts
    /// and policy, generated on the sequential path.
    pub fn custom(
        genesis_modules: Vec<Vec<u8>>,
        validator_accounts: Option<usize>,
        publishing_options: VMPublishingOption,
    ) -> (r: GenesisRequest)
        ensures
            r == (GenesisRequest {
                modules: genesis_modules,
                publishing_options,
                validator_accounts,
                parallel: false,
            }),
    {
        GenesisRequest { modules: genesis_modules, publishing_options, validator_accounts, parallel: false }
    }

    /// The request for a genesis of the standard modules with open
    /// publishing and no fixed number of validator accounts.
    pub fn allowlist(module_blobs: Vec<Vec<u8>>) -> (r: GenesisRequest)
        ensures
            r.modules == module_blobs,
            r.publishing_options.script_allow_list@.len() == 0,
            r.publishing_options.is_open_module,
            r.validator_accounts is None,
            !r.parallel,
    {
        GenesisRequest::custom(module_blobs, None, VMPublishingOption::open())
    }

    /// The request for a genesis of the standard modules with the given
    /// policy, which must leave scripts open: a policy with an allow list
    /// is not supported.
    pub fn with_options(module_blobs: Vec<Vec<u8>>, publishing_options: VMPublishingOption) -> (r: GenesisRequest)
        requires
            publishing_options.script_allow_list@.len() == 0,
        ensures
            r == (GenesisRequest {
                modules: module_blobs,
                publishing_options,
                validator_accounts: None,
                parallel: false,
            }),
    {
        GenesisRequest::custom(module_blobs, None, publishing_options)
    }

    /// The request for a genesis of the standard modules with open
    /// publishing, generated on the concurrent path.
    pub fn parallel(module_blobs: Vec<Vec<u8>>) -> (r: GenesisRequest)
        ensures
            r.modules == module_blobs,
            r.publishing_options.script_allow_list@.len() == 0,
            r.publishing_options.is_open_module,
            r.validator_accounts is None,
            r.parallel,
    {
        GenesisRequest {
            modules: module_blobs,
            publishing_options: VMPublishingOption::open(),
            validator_accounts: None,
            parallel: true,
        }
    }
}

/// Whether every write operation of a plain change set names an address of
/// sixteen bytes.
pub open spec fn addresses_fit(ops: Seq<(Seq<u8>, Seq<u8>, Option<Seq<u8>>)>) -> bool {
    forall|i: int| 0 <= i < ops.len() ==> (#[trigger] ops[i]).0.len() == 16
}

/// The write operations of a plain change set as a write set.
pub open spec fn ops_of_plain(ops: Seq<(Seq<u8>, Seq<u8>, Option<Seq<u8>>)>) -> Seq<WriteEntryView> {
    Seq::new(ops.len(), |i: int| (StateKeyView { address: ops[i].0, path: ops[i].1 }, ops[i].2))
}

/// The write set that a saved genesis blob holds, or `None` where the blob
/// is malformed: where it does not decode, or names an address that is not
/// sixteen bytes long.
pub open spec fn saved_genesis(blob: Seq<u8>) -> Option<Seq<WriteEntryView>> {
    match bcs_change_set(blob) {
        None => None,
        Some(plain) => if addresses_fit(plain.0) {
            Some(ops_of_plain(plain.0))
        } else {
            None
        },
    }
}

fn address_from_bytes(bytes: &Vec<u8>) -> (r: Option<Address>)
    ensures
        match r {
            Some(a) => bytes@.len() == 16 && a@ == bytes@,
            None => bytes@.len() != 16,
        },
{
    if bytes.len() != 16 {
        return None;
    }
    let mut out: [u8; 16] = [0u8; 16];
    let mut i: usize = 0;
    while i < 16
        invariant
            i <= 16,
            bytes@.len() == 16,
            forall|j: int| 0 <= j < i ==> out@[j] == bytes@[j],
        decreases 16 - i,
    {
        out[i] = bytes[i];
        i += 1;
    }
    let a = Address::new(out);
    assert(a@ =~= bytes@);
    Some(a)
}

/// Decodes a saved genesis blob into its write set.
pub fn decode_saved_genesis(blob: &Vec<u8>) -> (r: Option<WriteSet>)
    ensures
        match r {
            Some(write_set) => saved_genesis(blob@) == Some(write_set@),
            None => saved_genesis(blob@) is None,
        },
{
    let plain = match bcs_decode_change_set(blob) {
        Ok(plain) => plain,
        Err(_) => {
            return None;
        },
    };
    let ops = &plain.0;
    let ghost target = plain.deep_view().0;
    assert(target == ops.deep_view());
    let mut write_set = WriteSet::empty();
    let mut i: usize = 0;
    while i < ops.len()
        invariant
            i <= ops@.len(),
            target == ops.deep_view(),
            target.len() == ops@.len(),
            bcs_change_set(blob@) is Some,
            bcs_change_set(blob@)->Some_0.0 == target,
            forall|j: int| 0 <= j < i ==> (#[trigger] target[j]).0.len() == 16,
            write_set@ == ops_of_plain(target).subrange(0, i as int),
        decreases ops@.len() - i,
    {
        let op = &ops[i];
        proof {
            assert(target[i as int] == op.deep_view());
            assert(op.0.deep_view() =~= op.0@);
            assert(op.1.deep_view() =~= op.1@);
        }
        let address = match address_from_bytes(&op.0) {
            Some(a) => a,
            None => {
                proof {
                    assert(target[i as int].0.len() != 16);
                    assert(!addresses_fit(target));
                }
                return None;
            },
        };
        let write_op = match &op.2 {
            Some(bytes) => {
                assert(bytes.deep_view() =~= bytes@);
                WriteOp::Value(bytes_clone(bytes))
            },
            None => WriteOp::Deletion,
        };
        write_set.push(StateKey::new(address, bytes_clone(&op.1)), write_op);
        proof {
            assert(write_set@ =~= ops_of_plain(target).subrange(0, i + 1));
        }
        i += 1;
    }
    proof {
        assert(ops_of_plain(target).subrange(0, i as int) =~= ops_of_plain(target));
    }
    Some(write_set)
}

/// The state after publishing modules one by one: each blob is stored
/// under the key of its module, in order.
pub open spec fn publish_all(state: StateMap, ids: Seq<ModuleIdView>, blobs: Seq<Seq<u8>>) -> StateMap
    decreases ids.len(),
{
    if ids.len() == 0 || blobs.len() != ids.len() {
        state
    } else {
        publish_all(state, ids.drop_last(), blobs.drop_last()).insert(module_key(ids.last()), blobs.last())
    }
}

/// The views of a list of module identities.
pub open spec fn module_ids_view(ids: Seq<ModuleId>) -> Seq<ModuleIdView> {
    Seq::new(ids.len(), |i: int| ids[i]@)
}

/// Whether every identity of the list has a usable name.
pub open spec fn all_usable(ids: Seq<ModuleIdView>) -> bool {
    forall|i: int| 0 <= i < ids.len() ==> usable_name((#[trigger] ids[i]).1)
}

/// What publishing a list of modules with their blobs comes to: an error
/// where the two lists differ in length or a name is not usable, and the
/// state with every module stored otherwise.
pub open spec fn published(state: StateMap, ids: Seq<ModuleIdView>, blobs: Seq<Seq<u8>>) -> Result<StateMap, HarnessErrorView> {
    if ids.len() != blobs.len() {
        Err(HarnessErrorView::ModuleCountMismatch)
    } else if !all_usable(ids) {
        Err(HarnessErrorView::InvalidIdentifier)
    } else {
        Ok(publish_all(state, ids, blobs))
    }
}

/// What a state bootstrapped from a genesis write set holds: a key that
/// genesis never names is not found, and a key whose last genesis operation
/// wrote bytes holds exactly those, be they empty.
pub proof fn lemma_genesis_reads(ops: Seq<WriteEntryView>, key: StateKeyView, last: int)
    ensures
        !crate::write_set::touches(ops, key) ==> !apply_ops(Map::<StateKeyView, Seq<u8>>::empty(), ops).contains_key(
            key,
        ),
        crate::write_set::is_last_op_on(ops, key, last) && ops[last].1 is Some ==> apply_ops(
            Map::<StateKeyView, Seq<u8>>::empty(),
            ops,
        ).contains_key(key) && apply_ops(Map::<StateKeyView, Seq<u8>>::empty(), ops)[key] == ops[last].1->Some_0,
{
    let start = Map::<StateKeyView, Seq<u8>>::empty();
    if !crate::write_set::touches(ops, key) {
        crate::write_set::lemma_untouched_key_unchanged(start, ops, key);
    }
    if crate::write_set::is_last_op_on(ops, key, last) {
        crate::write_set::lemma_last_write_wins(start, ops, key, last);
    }
}

/// What publishing modules leaves in the state. A key of the state after
/// is a key of the state before or the key of one of the modules. A
/// module that no later entry of the list names again reads back with its
/// own blob.
pub proof fn lemma_published_modules_read_back(state: StateMap, ids: Seq<ModuleIdView>, blobs: Seq<Seq<u8>>)
    requires
        ids.len() == blobs.len(),
        all_usable(ids),
    ensures
        forall|key: StateKeyView| #[trigger]
            publish_all(state, ids, blobs).contains_key(key) ==> state.contains_key(key) || exists|i: int|
                0 <= i < ids.len() && key == module_key(#[trigger] ids[i]),
        forall|i: int|
            0 <= i < ids.len() && (forall|j: int| i < j < ids.len() ==> ids[j] != ids[i]) ==> publish_all(
                state,
                ids,
                blobs,
            ).contains_key(module_key(#[trigger] ids[i])) && publish_all(state, ids, blobs)[module_key(ids[i])]
                == blobs[i],
    decreases ids.len(),
{
    if ids.len() > 0 {
        let front = ids.drop_last();
        let front_blobs = blobs.drop_last();
        let before = publish_all(state, front, front_blobs);
        let after = publish_all(state, ids, blobs);
        let last = ids.len() - 1;
        assert(all_usable(front)) by {
            assert forall|i: int| 0 <= i < front.len() implies usable_name((#[trigger] front[i]).1) by {
                assert(front[i] == ids[i]);
            }
        }
        lemma_published_modules_read_back(state, front, front_blobs);
        assert forall|key: StateKeyView| #[trigger] after.contains_key(key) implies state.contains_key(key)
            || exists|i: int| 0 <= i < ids.len() && key == module_key(#[trigger] ids[i]) by {
            if key == module_key(ids[last]) {
            } else {
                assert(before.contains_key(key));
                if !state.contains_key(key) {
                    let i = choose|i: int| 0 <= i < front.len() && key == module_key(#[trigger] front[i]);
                    assert(front[i] == ids[i]);
                }
            }
        }
        assert forall|i: int|
            0 <= i < ids.len() && (forall|j: int| i < j < ids.len() ==> ids[j] != ids[i]) implies after.contains_key(
            module_key(#[trigger] ids[i]),
        ) && after[module_key(ids[i])] == blobs[i] by {
            if i < last {
                assert(front[i] == ids[i]);
                assert(front_blobs[i] == blobs[i]);
                assert forall|j: int| i < j < front.len() implies front[j] != front[i] by {
                    assert(front[j] == ids[j]);
                }
                assert(ids[last] != ids[i]);
                if module_key(ids[last]) == module_key(ids[i]) {
                    crate::identifier::lemma_module_key_injective(ids[last], ids[i]);
                }
            }
        }
    }
}

impl<S: BlockExecutor, P: BlockExecutor> FakeExecutor<S, P> {
    /// Stores a module's bytes in the state, under the module's key. The
    /// module is not verified in any way.
    pub fn add_module(&mut self, module_id: &ModuleId, module_blob: Vec<u8>)
        requires
            old(self).wf(),
            module_id.wf(),
        ensures
            final(self).wf(),
            final(self).state()@ == old(self).state()@.insert(module_key(module_id@), module_blob@),
            final(self).time() == old(self).time(),
            final(self).trace_view() == old(self).trace_view(),
            final(self).golden_name() == old(self).golden_name(),
    {
        let mut write_set = WriteSet::empty();
        write_set.push(module_id.state_key(), WriteOp::Value(module_blob));
        proof {
            let ops = write_set@;
            assert(ops.drop_last() =~= Seq::<WriteEntryView>::empty());
            assert(apply_ops(old(self).state()@, ops.drop_last()) == old(self).state()@);
        }
        self.apply_write_set(&write_set);
    }

    /// Publishes a list of modules, each with its blob, one by one. Where
    /// the lists differ in length, or a name is not usable, nothing is
    /// published.
    pub fn publish_modules(&mut self, ids: &Vec<ModuleId>, blobs: &Vec<Vec<u8>>) -> (r: Result<(), HarnessError>)
        requires
            old(self).wf(),
        ensures
            final(self).wf(),
            final(self).time() == old(self).time(),
            final(self).trace_view() == old(self).trace_view(),
            final(self).golden_name() == old(self).golden_name(),
            match r {
                Ok(_) => published(old(self).state()@, module_ids_view(ids@), blobs.deep_view()) == Ok::<
                    StateMap,
                    HarnessErrorView,
                >(final(self).state()@),
                Err(e) => published(old(self).state()@, module_ids_view(ids@), blobs.deep_view()) == Err::<
                    StateMap,
                    HarnessErrorView,
                >(e@) && final(self).state()@ == old(self).state()@,
            },
    {
        let ghost views = module_ids_view(ids@);
        let ghost contents = blobs.deep_view();
        if ids.len() != blobs.len() {
            return Err(HarnessError::ModuleCountMismatch);
        }
        let mut checked: Vec<ModuleId> = Vec::new();
        let mut k: usize = 0;
        while k < ids.len()
            invariant
                k <= ids@.len(),
                ids@.len() == blobs@.len(),
                *self == *old(self),
                self.wf(),
                views == module_ids_view(ids@),
                contents == blobs.deep_view(),
                checked@.len() == k,
                forall|j: int| 0 <= j < k ==> usable_name((#[trigger] views[j]).1),
                forall|j: int| 0 <= j < k ==> (#[trigger] checked@[j]).wf() && checked@[j]@ == views[j],
            decreases ids@.len() - k,
        {
            let id = &ids[k];
            let name = id.name();
            assert(views[k as int] == id@);
            match ModuleId::new(id.address(), name.to_owned()) {
                Some(copy) => {
                    checked.push(copy);
                },
                None => {
                    proof {
                        assert(!usable_name(views[k as int].1));
                        assert(!all_usable(views));
                    }
                    return Err(HarnessError::InvalidIdentifier);
                },
            }
            k += 1;
        }
        let mut i: usize = 0;
        while i < checked.len()
            invariant
                i <= checked@.len(),
                checked@.len() == ids@.len(),
                ids@.len() == blobs@.len(),
                views == module_ids_view(ids@),
                contents == blobs.deep_view(),
                forall|j: int| 0 <= j < checked@.len() ==> (#[trigger] checked@[j]).wf() && checked@[j]@ == views[j],
                self.wf(),
                self.time() == old(self).time(),
                self.trace_view() == old(self).trace_view(),
                self.golden_name() == old(self).golden_name(),
                self.state()@ == publish_all(
                    old(self).state()@,
                    views.subrange(0, i as int),
                    contents.subrange(0, i as int),
                ),
            decreases checked@.len() - i,
        {
            let blob = bytes_clone(&blobs[i]);
            proof {
                assert(contents[i as int] =~= blobs@[i as int]@);
                assert(views.subrange(0, i + 1).drop_last() =~= views.subrange(0, i as int));
                assert(contents.subrange(0, i + 1).drop_last() =~= contents.subrange(0, i as int));
            }
            self.add_module(&checked[i], blob);
            i += 1;
        }
        proof {
            assert(views.subrange(0, i as int) =~= views);
            assert(contents.subrange(0, i as int) =~= contents);
        }
        Ok(())
    }

    /// A harness whose state is a saved genesis blob's write set applied to
    /// an empty state. The blob is in this library's own layout: the BCS
    /// bytes of a pair of lists, the write operations as (address, path,
    /// optional value) and the events as (key, sequence number, payload).
    /// A blob in another layout, the engine's own among them, is to be
    /// decoded by its owner and handed to `from_change_set`. A malformed
    /// blob is an error.
    pub fn from_saved_genesis(saved_genesis_blob: &Vec<u8>, sequential: S, parallel: P) -> (r: Result<
        Self,
        HarnessError,
    >)
        ensures
            match r {
                Ok(executor) => executor.wf() && saved_genesis(saved_genesis_blob@) is Some
                    && executor.state()@ == apply_ops(
                    Map::<StateKeyView, Seq<u8>>::empty(),
                    saved_genesis(saved_genesis_blob@)->Some_0,
                ) && executor.time() == 0 && executor.trace_view() is None && executor.golden_name() is None,
                Err(e) => e@ == HarnessErrorView::MalformedGenesis && saved_genesis(saved_genesis_blob@) is None,
            },
    {
        match decode_saved_genesis(saved_genesis_blob) {
            Some(write_set) => Ok(Self::from_genesis(&write_set, sequential, parallel)),
            None => Err(HarnessError::MalformedGenesis),
        }
    }

    /// A harness bootstrapped from a change set: its write set applied to
    /// an empty state, its events dropped.
    pub fn from_change_set(change_set: &ChangeSet, sequential: S, parallel: P) -> (r: Self)
        ensures
            r.wf(),
            r.state()@ == apply_ops(Map::<StateKeyView, Seq<u8>>::empty(), change_set.write_set@),
            r.time() == 0,
            r.trace_view() is None,
            r.golden_name() is None,
    {
        Self::from_genesis(&change_set.write_set, sequential, parallel)
    }

    /// A harness bootstrapped from the saved genesis, which the caller
    /// hands over as a change set.
    pub fn from_genesis_file(genesis: &ChangeSet, sequential: S, parallel: P) -> (r: Self)
        ensures
            r.wf(),
            r.state()@ == apply_ops(Map::<StateKeyView, Seq<u8>>::empty(), genesis.write_set@),
            r.time() == 0,
            r.trace_view() is None,
            r.golden_name() is None,
    {
        Self::from_change_set(genesis, sequential, parallel)
    }

    /// A harness bootstrapped from the standard genesis, generated afresh
    /// and handed over as a change set.
    pub fn from_fresh_genesis(genesis: &ChangeSet, sequential: S, parallel: P) -> (r: Self)
        ensures
            r.wf(),
            r.state()@ == apply_ops(Map::<StateKeyView, Seq<u8>>::empty(), genesis.write_set@),
            r.time() == 0,
            r.trace_view() is None,
            r.golden_name() is None,
    {
        Self::from_change_set(genesis, sequential, parallel)
    }

    /// A harness bootstrapped from a custom genesis: `generated` is what
    /// the generator gave for `GenesisRequest::custom`.
    pub fn custom_genesis(generated: &ChangeSet, sequential: S, parallel: P) -> (r: Self)
        ensures
            r.wf(),
            r.state()@ == apply_ops(Map::<StateKeyView, Seq<u8>>::empty(), generated.write_set@),
            r.time() == 0,
            r.trace_view() is None,
            r.golden_name() is None,
    {
        Self::from_change_set(generated, sequential, parallel)
    }

    /// A harness bootstrapped from a genesis of the standard modules with
    /// open publishing: `generated` is what the generator gave for
    /// `GenesisRequest::allowlist`. Its state is that of `custom_genesis`
    /// on the same change set.
    pub fn allowlist_genesis(generated: &ChangeSet, sequential: S, parallel: P) -> (r: Self)
        ensures
            r.wf(),
            r.state()@ == apply_ops(Map::<StateKeyView, Seq<u8>>::empty(), generated.write_set@),
            r.time() == 0,
            r.trace_view() is None,
            r.golden_name() is None,
    {
        Self::custom_genesis(generated, sequential, parallel)
    }

    /// A harness bootstrapped from a genesis of the standard modules with
    /// the given publishing policy, which must leave scripts open:
    /// `generated` is what the generator gave for
    /// `GenesisRequest::with_options`. Its state is that of
    /// `custom_genesis` on the same change set.
    pub fn from_genesis_with_options(
        publishing_options: &VMPublishingOption,
        generated: &ChangeSet,
        sequential: S,
        parallel: P,
    ) -> (r: Self)
        requires
            publishing_options.script_allow_list@.len() == 0,
        ensures
            r.wf(),
            r.state()@ == apply_ops(Map::<StateKeyView, Seq<u8>>::empty(), generated.write_set@),
            r.time() == 0,
            r.trace_view() is None,
            r.golden_name() is None,
    {
        Self::custom_genesis(generated, sequential, parallel)
    }

    /// A harness bootstrapped from a genesis of the standard modules that
    /// was generated on the concurrent path: `generated` is what the
    /// generator gave for `GenesisRequest::parallel`.
    pub fn parallel_genesis(generated: &ChangeSet, sequential: S, parallel: P) -> (r: Self)
        ensures
            r.wf(),
            r.state()@ == apply_ops(Map::<StateKeyView, Seq<u8>>::empty(), generated.write_set@),
            r.time() == 0,
            r.trace_view() is None,
            r.golden_name() is None,
    {
        Self::from_change_set(generated, sequential, parallel)
    }

    /// A harness with only the given modules published, each inserted on
    /// its own under its key, and nothing else initialized: no accounts, no
    /// validators. `modules` are the identities of the standard modules and
    /// `blobs` their bytes, in the same order.
    pub fn stdlib_only_genesis(modules: &Vec<ModuleId>, blobs: &Vec<Vec<u8>>, sequential: S, parallel: P) -> (r:
        Result<Self, HarnessError>)
        ensures
            match r {
                Ok(executor) => executor.wf() && executor.time() == 0 && executor.trace_view() is None
                    && executor.golden_name() is None && published(
                    Map::<StateKeyView, Seq<u8>>::empty(),
                    module_ids_view(modules@),
                    blobs.deep_view(),
                ) == Ok::<StateMap, HarnessErrorView>(executor.state()@),
                Err(e) => published(
                    Map::<StateKeyView, Seq<u8>>::empty(),
                    module_ids_view(modules@),
                    blobs.deep_view(),
                ) == Err::<StateMap, HarnessErrorView>(e@),
            },
    {
        let mut genesis = Self::no_genesis(sequential, parallel);
        match genesis.publish_modules(modules, blobs) {
            Ok(_) => Ok(genesis),
            Err(e) => Err(e),
        }
    }
}

} // verus!
