use std::cell::RefCell;
use std::rc::Rc;

use fake_executor::collaborators::BlockExecutor;
use fake_executor::data_store::FakeDataStore;
use fake_executor::executor::{FakeExecutor, HarnessError};
use fake_executor::genesis::{GenesisRequest, VMPublishingOption};
use fake_executor::identifier::ModuleId;
use fake_executor::state_key::{Address, StateKey};
use fake_executor::transaction::{ChangeSet, Transaction, TransactionOutput, VMStatus};
use fake_executor::write_set::{WriteOp, WriteSet};

struct Idle;

impl BlockExecutor for Idle {
    fn execute_block(
        &self,
        _transactions: &Vec<Transaction>,
        _state_view: &FakeDataStore,
        _concurrency_level: usize,
    ) -> Result<Vec<TransactionOutput>, VMStatus> {
        Ok(vec![])
    }

    fn execute_block_and_keep_vm_status(
        &self,
        _transactions: &Vec<Transaction>,
        _state_view: &FakeDataStore,
    ) -> Result<Vec<(VMStatus, TransactionOutput)>, VMStatus> {
        Ok(vec![])
    }
}

fn key(n: u8) -> StateKey {
    StateKey::new(Address::new([n; 16]), vec![n])
}

/// A module source with the given names, and a generator that stores one
/// slot per module and one for the validator count, and notes each call.
struct Framework {
    names: Vec<&'static str>,
    blobs: Vec<Vec<u8>>,
    calls: Rc<RefCell<Vec<(usize, usize, bool, Option<usize>, bool)>>>,
}

impl Framework {
    fn new(names: Vec<&'static str>, blobs: Vec<Vec<u8>>) -> Framework {
        Framework { names, blobs, calls: Rc::new(RefCell::new(Vec::new())) }
    }

    fn standard() -> Framework {
        Framework::new(vec!["Account", "TestCoin"], vec![vec![1, 1], vec![2, 2, 2]])
    }

    fn module_ids(&self) -> Vec<ModuleId> {
        self.names.iter().map(|n| ModuleId::new(Address::core_code(), String::from(*n)).unwrap()).collect()
    }
}

impl Framework {
    fn module_blobs(&self) -> Vec<Vec<u8>> {
        self.blobs.clone()
    }

    fn generate(&self, request: &GenesisRequest) -> ChangeSet {
        self.calls.borrow_mut().push((
            request.modules.len(),
            request.publishing_options.script_allow_list.len(),
            request.publishing_options.is_open_module,
            request.validator_accounts,
            request.parallel,
        ));
        let mut write_set = WriteSet::empty();
        for (i, blob) in request.modules.iter().enumerate() {
            write_set.push(key(i as u8), WriteOp::Value(blob.clone()));
        }
        write_set.push(key(200), WriteOp::Value(vec![request.validator_accounts.unwrap_or(10) as u8]));
        ChangeSet::new(write_set, vec![])
    }

    fn genesis_change_set(&self) -> ChangeSet {
        let mut write_set = WriteSet::empty();
        write_set.push(key(100), WriteOp::Value(vec![100]));
        ChangeSet::new(write_set, vec![])
    }

    fn fresh_genesis_change_set(&self) -> ChangeSet {
        let mut write_set = WriteSet::empty();
        write_set.push(key(101), WriteOp::Value(vec![101]));
        ChangeSet::new(write_set, vec![])
    }
}

#[test]
fn no_genesis_is_an_empty_state_at_time_zero() {
    let mut executor = FakeExecutor::no_genesis(Idle, Idle);
    assert_eq!(executor.get_state_view().len(), 0);
    assert_eq!(executor.get_block_time(), 0);
    assert!(executor.get_trace().is_none());
    assert!(executor.golden_output_name().is_none());
    assert_eq!(executor.read_from_access_path(&key(1)), None);
    let mut write_set = WriteSet::empty();
    write_set.push(key(1), WriteOp::Value(vec![1]));
    executor.apply_write_set(&write_set);
    assert_eq!(executor.read_from_access_path(&key(1)), Some(vec![1]));
}

#[test]
fn genesis_write_set_is_applied_to_an_empty_state() {
    let mut write_set = WriteSet::empty();
    write_set.push(key(1), WriteOp::Value(vec![1]));
    write_set.push(key(2), WriteOp::Value(vec![2]));
    write_set.push(key(1), WriteOp::Value(vec![3]));
    write_set.push(key(2), WriteOp::Deletion);
    let executor = FakeExecutor::from_genesis(&write_set, Idle, Idle);
    assert_eq!(executor.get_state_view().len(), 1);
    assert_eq!(executor.read_from_access_path(&key(1)), Some(vec![3]));
    assert_eq!(executor.read_from_access_path(&key(2)), None);
    assert_eq!(executor.read_from_access_path(&key(3)), None);
    assert_eq!(executor.get_block_time(), 0);
}

#[test]
fn saved_genesis_blob_bootstraps_or_fails() {
    let ops: Vec<(Vec<u8>, Vec<u8>, Option<Vec<u8>>)> =
        vec![(vec![1u8; 16], vec![1u8], Some(vec![7u8])), (vec![2u8; 16], vec![2u8], Some(vec![]))];
    let events: Vec<(Vec<u8>, u64, Vec<u8>)> = vec![];
    let blob = bcs::to_bytes(&(ops, events)).unwrap();
    let executor = FakeExecutor::from_saved_genesis(&blob, Idle, Idle).unwrap();
    assert_eq!(executor.get_state_view().len(), 2);
    assert_eq!(executor.read_from_access_path(&key(1)), Some(vec![7]));
    assert_eq!(executor.read_from_access_path(&key(2)), Some(vec![]));
    assert!(matches!(
        FakeExecutor::from_saved_genesis(&vec![1, 2, 3], Idle, Idle).map(|e| e.get_block_time()),
        Err(HarnessError::MalformedGenesis)
    ));
    assert!(matches!(
        FakeExecutor::from_saved_genesis(&vec![], Idle, Idle).map(|e| e.get_block_time()),
        Err(HarnessError::MalformedGenesis)
    ));
}

#[test]
fn kept_change_sets_bootstrap_the_state() {
    let source = Framework::standard();
    let saved = FakeExecutor::from_genesis_file(&source.genesis_change_set(), Idle, Idle);
    assert_eq!(saved.read_from_access_path(&key(100)), Some(vec![100]));
    assert_eq!(saved.get_state_view().len(), 1);
    assert_eq!(saved.get_block_time(), 0);
    let fresh = FakeExecutor::from_fresh_genesis(&source.fresh_genesis_change_set(), Idle, Idle);
    assert_eq!(fresh.read_from_access_path(&key(101)), Some(vec![101]));
    assert_eq!(fresh.read_from_access_path(&key(100)), None);
    let direct = FakeExecutor::from_change_set(&source.genesis_change_set(), Idle, Idle);
    assert_eq!(direct.read_from_access_path(&key(100)), Some(vec![100]));
}

#[test]
fn genesis_requests_fix_what_the_generator_is_asked() {
    let blobs = vec![vec![1u8], vec![2u8, 2]];
    let allow = GenesisRequest::allowlist(blobs.clone());
    assert_eq!(allow.modules, blobs);
    assert!(allow.publishing_options.is_open_script());
    assert!(allow.publishing_options.is_open_module);
    assert_eq!(allow.validator_accounts, None);
    assert!(!allow.parallel);

    let restricted = VMPublishingOption { script_allow_list: vec![], is_open_module: false };
    let options = GenesisRequest::with_options(blobs.clone(), restricted);
    assert_eq!(options.modules, blobs);
    assert!(options.publishing_options.is_open_script());
    assert!(!options.publishing_options.is_open_module);
    assert_eq!(options.validator_accounts, None);
    assert!(!options.parallel);

    let listed = VMPublishingOption { script_allow_list: vec![vec![7; 32]], is_open_module: true };
    let custom = GenesisRequest::custom(vec![vec![9]], Some(4), listed);
    assert_eq!(custom.modules, vec![vec![9u8]]);
    assert_eq!(custom.publishing_options.script_allow_list, vec![vec![7u8; 32]]);
    assert!(custom.publishing_options.is_open_module);
    assert_eq!(custom.validator_accounts, Some(4));
    assert!(!custom.parallel);

    let parallel = GenesisRequest::parallel(blobs.clone());
    assert_eq!(parallel.modules, blobs);
    assert!(parallel.publishing_options.is_open_script());
    assert!(parallel.publishing_options.is_open_module);
    assert_eq!(parallel.validator_accounts, None);
    assert!(parallel.parallel);
}

#[test]
fn generated_genesis_is_applied_to_an_empty_state() {
    let source = Framework::standard();
    let calls = source.calls.clone();

    let generated = source.generate(&GenesisRequest::allowlist(source.module_blobs()));
    let allow = FakeExecutor::allowlist_genesis(&generated, Idle, Idle);
    assert_eq!(allow.read_from_access_path(&key(0)), Some(vec![1, 1]));
    assert_eq!(allow.read_from_access_path(&key(1)), Some(vec![2, 2, 2]));
    assert_eq!(allow.read_from_access_path(&key(200)), Some(vec![10]));
    assert_eq!(allow.get_state_view().len(), 3);
    assert_eq!(calls.borrow()[0], (2, 0, true, None, false));

    let restricted = VMPublishingOption { script_allow_list: vec![], is_open_module: false };
    let policy = VMPublishingOption { script_allow_list: vec![], is_open_module: false };
    let generated = source.generate(&GenesisRequest::with_options(source.module_blobs(), restricted));
    let options = FakeExecutor::from_genesis_with_options(&policy, &generated, Idle, Idle);
    assert_eq!(options.get_state_view().len(), 3);
    assert_eq!(calls.borrow()[1], (2, 0, false, None, false));
    let same = FakeExecutor::custom_genesis(&generated, Idle, Idle);
    assert_eq!(same.get_state_view().to_entries(), options.get_state_view().to_entries());

    let generated = source.generate(&GenesisRequest::custom(vec![vec![9]], Some(4), VMPublishingOption::open()));
    let custom = FakeExecutor::custom_genesis(&generated, Idle, Idle);
    assert_eq!(custom.read_from_access_path(&key(0)), Some(vec![9]));
    assert_eq!(custom.read_from_access_path(&key(200)), Some(vec![4]));
    assert_eq!(custom.get_state_view().len(), 2);
    assert_eq!(calls.borrow()[2], (1, 0, true, Some(4), false));

    let generated = source.generate(&GenesisRequest::parallel(source.module_blobs()));
    let parallel = FakeExecutor::parallel_genesis(&generated, Idle, Idle);
    assert_eq!(parallel.get_state_view().len(), 3);
    assert_eq!(calls.borrow()[3], (2, 0, true, None, true));
    assert_eq!(parallel.get_block_time(), 0);
    assert!(parallel.get_trace().is_none());

    let empty = FakeExecutor::custom_genesis(&ChangeSet::new(WriteSet::empty(), vec![]), Idle, Idle);
    assert_eq!(empty.get_state_view().len(), 0);
}

#[test]
fn publishing_options_tell_open_from_restricted() {
    let open = VMPublishingOption::open();
    assert!(open.is_open_script());
    assert!(open.is_open_module);
    let listed = VMPublishingOption { script_allow_list: vec![vec![1; 32]], is_open_module: true };
    assert!(!listed.is_open_script());
}

#[test]
fn stdlib_only_genesis_publishes_each_module_under_its_key() {
    let source = Framework::standard();
    let calls = source.calls.clone();
    let ids = source.module_ids();
    let executor = FakeExecutor::stdlib_only_genesis(&ids, &source.module_blobs(), Idle, Idle).unwrap();
    assert!(calls.borrow().is_empty());
    assert_eq!(executor.get_state_view().len(), 2);
    assert_eq!(executor.get_block_time(), 0);
    assert!(executor.get_trace().is_none());
    assert_eq!(executor.read_from_access_path(&ids[0].state_key()), Some(vec![1, 1]));
    assert_eq!(executor.read_from_access_path(&ids[1].state_key()), Some(vec![2, 2, 2]));
    let other = ModuleId::new(Address::core_code(), String::from("Other")).unwrap();
    assert_eq!(executor.read_from_access_path(&other.state_key()), None);
    let elsewhere = ModuleId::new(Address::new([2; 16]), String::from("Account")).unwrap();
    assert_eq!(executor.read_from_access_path(&elsewhere.state_key()), None);
}

#[test]
fn stdlib_only_genesis_needs_one_blob_per_module() {
    let source = Framework::new(vec!["Account", "TestCoin"], vec![vec![1]]);
    assert!(matches!(
        FakeExecutor::stdlib_only_genesis(&source.module_ids(), &source.module_blobs(), Idle, Idle)
            .map(|e| e.get_block_time()),
        Err(HarnessError::ModuleCountMismatch)
    ));
    let executor = FakeExecutor::stdlib_only_genesis(&vec![], &vec![], Idle, Idle).unwrap();
    assert_eq!(executor.get_state_view().len(), 0);
}

#[test]
fn a_module_named_twice_keeps_its_last_blob() {
    let source = Framework::new(vec!["Account", "TestCoin", "Account"], vec![vec![1], vec![2], vec![3]]);
    let ids = source.module_ids();
    let executor = FakeExecutor::stdlib_only_genesis(&ids, &source.module_blobs(), Idle, Idle).unwrap();
    assert_eq!(executor.get_state_view().len(), 2);
    assert_eq!(executor.read_from_access_path(&ids[0].state_key()), Some(vec![3]));
    assert_eq!(executor.read_from_access_path(&ids[1].state_key()), Some(vec![2]));
    assert_eq!(
        executor.get_state_view().to_entries().iter().map(|e| e.2.clone()).collect::<Vec<Vec<u8>>>(),
        vec![vec![3u8], vec![2u8]]
    );
}

#[test]
fn modules_are_added_one_by_one() {
    let mut executor = FakeExecutor::no_genesis(Idle, Idle);
    let id = ModuleId::new(Address::core_code(), String::from("M")).unwrap();
    executor.add_module(&id, vec![1]);
    executor.add_module(&id, vec![2]);
    assert_eq!(executor.get_state_view().len(), 1);
    assert_eq!(executor.read_from_access_path(&id.state_key()), Some(vec![2]));
    let ids = vec![
        ModuleId::new(Address::core_code(), String::from("A")).unwrap(),
        ModuleId::new(Address::core_code(), String::from("B")).unwrap(),
    ];
    assert!(matches!(
        executor.publish_modules(&ids, &vec![vec![1]]),
        Err(HarnessError::ModuleCountMismatch)
    ));
    assert_eq!(executor.get_state_view().len(), 1);
    executor.publish_modules(&ids, &vec![vec![10], vec![20]]).unwrap();
    assert_eq!(executor.get_state_view().len(), 3);
    assert_eq!(executor.read_from_access_path(&ids[1].state_key()), Some(vec![20]));
}
