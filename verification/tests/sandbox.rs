use drink::raw_storage::RawStorage;
use drink::{Sandbox, Snapshot};
use sp_externalities::{Extension, ExternalitiesExt};
use std::any::{Any, TypeId};

type TestSandbox = Sandbox<()>;

fn write(sandbox: &mut TestSandbox, key: &[u8], value: &[u8]) {
    sandbox.execute_with(|| sp_io::storage::set(key, value));
}

fn delete(sandbox: &mut TestSandbox, key: &[u8]) {
    sandbox.execute_with(|| sp_io::storage::clear(key));
}

fn read(sandbox: &mut TestSandbox, key: &[u8]) -> Option<Vec<u8>> {
    sandbox.execute_with(|| sp_io::storage::get(key).map(|value| value.to_vec()))
}

fn sorted(snapshot: &Snapshot) -> RawStorage {
    let mut entries = snapshot.storage().clone();
    entries.sort();
    entries
}

fn assert_same_content(left: &Snapshot, right: &Snapshot) {
    assert_eq!(left.storage_root(), right.storage_root());
    assert_eq!(sorted(left), sorted(right));
}

struct Meter(u32);

impl Extension for Meter {
    fn as_mut_any(&mut self) -> &mut dyn Any {
        self
    }

    fn type_id(&self) -> TypeId {
        Any::type_id(self)
    }
}

fn meter_reading(sandbox: &mut TestSandbox) -> Option<u32> {
    sandbox.execute_with(|| {
        sp_externalities::with_externalities(|mut ext| ext.extension::<Meter>().map(|meter| meter.0))
            .flatten()
    })
}

#[test]
fn execute_with_returns_the_closure_result() {
    let mut sandbox = TestSandbox::new();
    assert_eq!(sandbox.execute_with(|| 21 * 2), 42);
}

#[test]
fn execute_with_effects_persist() {
    let mut sandbox = TestSandbox::new();
    assert_eq!(read(&mut sandbox, b"a"), None);
    write(&mut sandbox, b"a", b"1");
    assert_eq!(read(&mut sandbox, b"a"), Some(b"1".to_vec()));
    write(&mut sandbox, b"a", b"2");
    assert_eq!(read(&mut sandbox, b"a"), Some(b"2".to_vec()));
}

#[test]
fn write_changes_the_root() {
    let mut sandbox = TestSandbox::new();
    let empty = sandbox.take_snapshot();
    write(&mut sandbox, b"a", b"1");
    let written = sandbox.take_snapshot();
    assert_ne!(empty.storage_root(), written.storage_root());
    assert_ne!(sorted(&empty), sorted(&written));
}

#[test]
fn fresh_sandboxes_agree() {
    let mut one = TestSandbox::new();
    let mut other = TestSandbox::new();
    assert_same_content(&one.take_snapshot(), &other.take_snapshot());
}

#[test]
fn concrete_scenario() {
    let mut sandbox = TestSandbox::new();
    let r0 = sandbox.take_snapshot().storage_root();

    write(&mut sandbox, b"a", b"1");
    let r1 = sandbox.take_snapshot().storage_root();
    assert_ne!(r1, r0);

    sandbox.dry_run(|sandbox| write(sandbox, b"a", b"2"));

    let after = sandbox.take_snapshot();
    assert_eq!(after.storage_root(), r1);
    assert_eq!(read(&mut sandbox, b"a"), Some(b"1".to_vec()));
}

#[test]
fn dry_run_isolation() {
    let mut sandbox = TestSandbox::new();
    write(&mut sandbox, b"kept", b"value");
    let before = sandbox.take_snapshot();

    sandbox.dry_run(|sandbox| {
        write(sandbox, b"kept", b"changed");
        write(sandbox, b"added", b"value");
        delete(sandbox, b"kept");
    });

    let after = sandbox.take_snapshot();
    assert_same_content(&before, &after);
    assert_eq!(read(&mut sandbox, b"kept"), Some(b"value".to_vec()));
    assert_eq!(read(&mut sandbox, b"added"), None);
}

#[test]
fn dry_run_sees_the_live_state() {
    let mut sandbox = TestSandbox::new();
    write(&mut sandbox, b"a", b"1");
    let seen = sandbox.dry_run(|sandbox| {
        let first = read(sandbox, b"a");
        write(sandbox, b"a", b"2");
        (first, read(sandbox, b"a"))
    });
    assert_eq!(seen, (Some(b"1".to_vec()), Some(b"2".to_vec())));
}

#[test]
fn dry_run_return_value() {
    let mut tried = TestSandbox::new();
    let mut executed = TestSandbox::new();
    let operation = || {
        sp_io::storage::set(b"counter", b"7");
        sp_io::storage::get(b"counter").map(|value| value.to_vec())
    };

    let dry = tried.dry_run(|sandbox| sandbox.execute_with(operation));
    let real = executed.execute_with(operation);

    assert_eq!(dry, Some(b"7".to_vec()));
    assert_eq!(dry, real);
    assert_eq!(read(&mut tried, b"counter"), None);
    assert_eq!(read(&mut executed, b"counter"), Some(b"7".to_vec()));
}

#[test]
fn dry_run_twice_in_a_row() {
    let mut sandbox = TestSandbox::new();
    write(&mut sandbox, b"a", b"1");
    let before = sandbox.take_snapshot();
    sandbox.dry_run(|sandbox| write(sandbox, b"a", b"2"));
    sandbox.dry_run(|sandbox| delete(sandbox, b"a"));
    assert_same_content(&before, &sandbox.take_snapshot());
    assert_eq!(read(&mut sandbox, b"a"), Some(b"1".to_vec()));
}

#[test]
fn nested_dry_run() {
    let mut sandbox = TestSandbox::new();
    write(&mut sandbox, b"outer", b"1");
    let before = sandbox.take_snapshot();

    let result = sandbox.dry_run(|sandbox| {
        write(sandbox, b"between", b"2");
        let inner = sandbox.dry_run(|sandbox| {
            write(sandbox, b"k", b"v");
            read(sandbox, b"k")
        });
        (inner, read(sandbox, b"k"), read(sandbox, b"between"))
    });

    assert_eq!(result, (Some(b"v".to_vec()), None, Some(b"2".to_vec())));
    assert_same_content(&before, &sandbox.take_snapshot());
    assert_eq!(read(&mut sandbox, b"k"), None);
    assert_eq!(read(&mut sandbox, b"between"), None);
    assert_eq!(read(&mut sandbox, b"outer"), Some(b"1".to_vec()));
}

#[test]
fn dry_run_discards_a_restore() {
    let mut sandbox = TestSandbox::new();
    let empty = sandbox.take_snapshot();
    write(&mut sandbox, b"a", b"1");
    let before = sandbox.take_snapshot();

    sandbox.dry_run(|sandbox| sandbox.restore_snapshot(empty));

    assert_same_content(&before, &sandbox.take_snapshot());
    assert_eq!(read(&mut sandbox, b"a"), Some(b"1".to_vec()));
}

#[test]
fn take_snapshot_leaves_the_sandbox_alone() {
    let mut sandbox = TestSandbox::new();
    write(&mut sandbox, b"a", b"1");
    let first = sandbox.take_snapshot();
    let second = sandbox.take_snapshot();
    assert_same_content(&first, &second);
    assert_eq!(read(&mut sandbox, b"a"), Some(b"1".to_vec()));
}

#[test]
fn snapshot_restore_round_trip() {
    let mut sandbox = TestSandbox::new();
    write(&mut sandbox, b"a", b"1");
    write(&mut sandbox, b"b", b"2");
    write(&mut sandbox, b"a longer key that makes the trie branch", b"3");
    let snapshot = sandbox.take_snapshot();

    sandbox.restore_snapshot(snapshot.clone());
    let again = sandbox.take_snapshot();

    assert_same_content(&snapshot, &again);
    assert_eq!(read(&mut sandbox, b"a"), Some(b"1".to_vec()));
    assert_eq!(read(&mut sandbox, b"b"), Some(b"2".to_vec()));
}

#[test]
fn restore_forgets_what_came_after_the_snapshot() {
    let mut sandbox = TestSandbox::new();
    write(&mut sandbox, b"a", b"1");
    let snapshot = sandbox.take_snapshot();
    write(&mut sandbox, b"a", b"2");
    write(&mut sandbox, b"b", b"3");

    sandbox.restore_snapshot(snapshot.clone());

    assert_eq!(read(&mut sandbox, b"a"), Some(b"1".to_vec()));
    assert_eq!(read(&mut sandbox, b"b"), None);
    assert_same_content(&snapshot, &sandbox.take_snapshot());
}

#[test]
fn snapshots_stay_valid_side_by_side() {
    let mut sandbox = TestSandbox::new();
    write(&mut sandbox, b"a", b"1");
    let first = sandbox.take_snapshot();
    write(&mut sandbox, b"a", b"2");
    let second = sandbox.take_snapshot();

    sandbox.restore_snapshot(first.clone());
    assert_eq!(read(&mut sandbox, b"a"), Some(b"1".to_vec()));
    sandbox.restore_snapshot(second.clone());
    assert_eq!(read(&mut sandbox, b"a"), Some(b"2".to_vec()));
    sandbox.restore_snapshot(first.clone());
    assert_same_content(&first, &sandbox.take_snapshot());
}

#[test]
fn snapshot_outlives_its_sandbox() {
    let snapshot = {
        let mut sandbox = TestSandbox::new();
        write(&mut sandbox, b"a", b"1");
        sandbox.take_snapshot()
    };
    let mut other = TestSandbox::new();
    other.restore_snapshot(snapshot);
    assert_eq!(read(&mut other, b"a"), Some(b"1".to_vec()));
}

#[test]
fn deletion_filtering() {
    let mut sandbox = TestSandbox::new();
    let empty = sandbox.take_snapshot();

    write(&mut sandbox, b"k", b"value");
    // A dry run commits what is pending, so that the nodes of `k` stand in
    // the backend before the deletion takes their references away.
    sandbox.dry_run(|_| ());
    let written = sandbox.take_snapshot();
    delete(&mut sandbox, b"k");
    let deleted = sandbox.take_snapshot();

    assert!(deleted.storage().iter().all(|(_, (_, count))| *count > 0));
    for entry in written.storage() {
        if !empty.storage().iter().any(|other| other.0 == entry.0) {
            assert!(!deleted.storage().iter().any(|other| other.0 == entry.0));
        }
    }
    assert_same_content(&empty, &deleted);
    assert_eq!(read(&mut sandbox, b"k"), None);
}

#[test]
fn captured_snapshots_are_restorable() {
    let mut sandbox = TestSandbox::new();
    assert!(sandbox.take_snapshot().is_restorable());
    write(&mut sandbox, b"a", b"1");
    write(&mut sandbox, b"", b"");
    write(&mut sandbox, &[0u8; 64], &[0u8]);
    assert!(sandbox.take_snapshot().is_restorable());
    sandbox.dry_run(|_| ());
    delete(&mut sandbox, b"a");
    let snapshot = sandbox.take_snapshot();
    assert!(snapshot.is_restorable());
    sandbox.restore_snapshot(snapshot);
    assert!(sandbox.take_snapshot().is_restorable());
    assert_eq!(read(&mut sandbox, b"a"), None);
    assert_eq!(read(&mut sandbox, b""), Some(Vec::new()));
    assert_eq!(read(&mut sandbox, &[0u8; 64]), Some(vec![0u8]));
}

#[test]
fn snapshot_entries_are_live_nodes_with_distinct_keys() {
    let mut sandbox = TestSandbox::new();
    write(&mut sandbox, b"a", b"1");
    write(&mut sandbox, b"b", b"2");
    sandbox.dry_run(|_| ());
    delete(&mut sandbox, b"a");
    let snapshot = sandbox.take_snapshot();
    let entries = sorted(&snapshot);
    assert!(!entries.is_empty());
    for (key, (value, count)) in &entries {
        assert!(*count > 0);
        assert!(key.len() >= 32);
        assert_ne!(value, &vec![0u8]);
    }
    for pair in entries.windows(2) {
        assert_ne!(pair[0].0, pair[1].0);
    }
}

#[test]
fn snapshot_clone_is_equal() {
    let mut sandbox = TestSandbox::new();
    write(&mut sandbox, b"a", b"1");
    let snapshot = sandbox.take_snapshot();
    let copy = snapshot.clone();
    assert_eq!(snapshot.storage(), copy.storage());
    assert_eq!(snapshot.storage_root(), copy.storage_root());
}

#[test]
fn extension_visibility() {
    let mut sandbox = TestSandbox::new();
    assert_eq!(meter_reading(&mut sandbox), None);

    sandbox.register_extension(Meter(5));

    assert_eq!(meter_reading(&mut sandbox), Some(5));
    assert_eq!(sandbox.dry_run(|sandbox| meter_reading(sandbox)), Some(5));
    assert_eq!(meter_reading(&mut sandbox), Some(5));
}

#[test]
fn registering_again_replaces_the_extension() {
    let mut sandbox = TestSandbox::new();
    sandbox.register_extension(Meter(5));
    sandbox.register_extension(Meter(6));
    assert_eq!(meter_reading(&mut sandbox), Some(6));
}

#[test]
fn register_extension_leaves_the_storage_alone() {
    let mut sandbox = TestSandbox::new();
    write(&mut sandbox, b"a", b"1");
    let before = sandbox.take_snapshot();
    sandbox.register_extension(Meter(1));
    assert_same_content(&before, &sandbox.take_snapshot());
}

#[test]
fn restore_drops_the_extensions() {
    let mut sandbox = TestSandbox::new();
    sandbox.register_extension(Meter(5));
    let snapshot = sandbox.take_snapshot();
    sandbox.restore_snapshot(snapshot);
    assert_eq!(meter_reading(&mut sandbox), None);
}

#[test]
fn take_snapshot_accepts_an_open_transaction() {
    let mut sandbox = TestSandbox::new();
    write(&mut sandbox, b"a", b"1");
    let committed = sandbox.take_snapshot();

    sandbox.execute_with(|| {
        sp_io::storage::start_transaction();
        sp_io::storage::set(b"a", b"2");
    });
    let inside = sandbox.take_snapshot();
    assert_ne!(inside.storage_root(), committed.storage_root());
    assert_same_content(&inside, &sandbox.take_snapshot());

    sandbox.execute_with(|| sp_io::storage::rollback_transaction());
    assert_same_content(&committed, &sandbox.take_snapshot());
    assert_eq!(read(&mut sandbox, b"a"), Some(b"1".to_vec()));
}

#[test]
fn dry_run_action_may_use_transactions() {
    let mut sandbox = TestSandbox::new();
    write(&mut sandbox, b"a", b"1");
    let before = sandbox.take_snapshot();

    let seen = sandbox.dry_run(|sandbox| {
        sandbox.execute_with(|| {
            sp_io::storage::start_transaction();
            sp_io::storage::set(b"a", b"2");
            sp_io::storage::commit_transaction();
            sp_io::storage::start_transaction();
            sp_io::storage::set(b"a", b"3");
            sp_io::storage::rollback_transaction();
        });
        read(sandbox, b"a")
    });

    assert_eq!(seen, Some(b"2".to_vec()));
    assert_same_content(&before, &sandbox.take_snapshot());
    assert_eq!(read(&mut sandbox, b"a"), Some(b"1".to_vec()));
}

#[test]
fn dry_run_settles_a_transaction_that_the_action_closes() {
    let mut sandbox = TestSandbox::new();
    sandbox.execute_with(|| {
        sp_io::storage::start_transaction();
        sp_io::storage::set(b"t", b"1");
    });
    let before = sandbox.take_snapshot();

    sandbox.dry_run(|sandbox| {
        sandbox.execute_with(|| {
            sp_io::storage::set(b"t", b"2");
            sp_io::storage::commit_transaction();
        })
    });

    assert_same_content(&before, &sandbox.take_snapshot());
    assert_eq!(read(&mut sandbox, b"t"), Some(b"1".to_vec()));
    // Nothing is in flight any more: another dry run can commit at once.
    sandbox.dry_run(|_| ());
    assert_same_content(&before, &sandbox.take_snapshot());
}
