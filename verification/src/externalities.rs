//! The storage machinery that the sandbox drives, and what is taken on trust
//! about it.
//!
//! Two values of the substrate test tooling are kept here behind opaque types:
//! the externalities (the committed backend, the overlay of pending writes on
//! top of it, and the registered extensions) and a detached in-memory backend.
//! Nothing in this file is proved. Every function below makes one call into
//! that tooling, and its contract records what the called code does, as read
//! from its source.

use crate::raw_storage::{
    all_live, distinct_keys, entry_map, no_entries, node_part, Entries, RawStorage, StorageRoot,
};
use frame_support::sp_runtime::testing::H256;
use sp_core::Blake2Hasher;
use sp_io::TestExternalities;
use sp_state_machine::InMemoryBackend;
use vstd::prelude::*;

verus! {

/// The live state of a sandbox: an `sp_io::TestExternalities`.
#[verifier::external_body]
pub struct Externalities {
    pub(crate) inner: TestExternalities,
}

/// A detached trie backend over an in-memory node store:
/// `sp_state_machine::InMemoryBackend<Blake2Hasher>`.
#[verifier::external_body]
pub struct Backend {
    inner: InMemoryBackend<Blake2Hasher>,
}

/// The raw entries of a backend's node store: every key that is physically
/// present, with its value and reference count, tombstones included.
pub uninterp spec fn backend_entries(backend: Backend) -> Entries;

/// The root hash that a backend carries.
pub uninterp spec fn backend_root(backend: Backend) -> Seq<u8>;

/// The raw entries of the keyspace as executed code sees it: those of the
/// backend that `as_backend` builds from the committed backend and the overlay.
pub uninterp spec fn live_entries(ext: Externalities) -> Entries;

/// The root hash of the keyspace as executed code sees it.
pub uninterp spec fn live_root(ext: Externalities) -> Seq<u8>;

/// The nesting depth of the overlay's storage transactions
/// (`OverlayedChanges::transaction_depth`).
pub uninterp spec fn open_transactions(ext: Externalities) -> nat;

/// The number of keys for which the overlay holds a write that has not been
/// committed to the backend.
pub uninterp spec fn pending_writes(ext: Externalities) -> nat;

/// Calls `TestExternalities::new_empty`.
///
/// The new externalities start with a default overlay: no storage transaction
/// is open and nothing is pending.
#[verifier::external_body]
pub(crate) fn empty_externalities() -> (ext: Externalities)
    ensures
        open_transactions(ext) == 0,
        pending_writes(ext) == 0,
{
    Externalities { inner: TestExternalities::new_empty() }
}

/// Calls `TestExternalities::as_backend`.
///
/// The call copies the committed backend and applies the overlay's pending
/// writes to the copy. The copy is by definition the live keyspace; the
/// externalities themselves keep their keyspace, their transaction depth and
/// their pending writes. Unlike `commit_all`, the call accepts open
/// transactions.
#[verifier::external_body]
pub(crate) fn pending_backend(ext: &mut Externalities) -> (backend: Backend)
    ensures
        backend_entries(backend) == live_entries(*old(ext)),
        backend_root(backend) == live_root(*old(ext)),
        live_entries(*final(ext)) == live_entries(*old(ext)),
        live_root(*final(ext)) == live_root(*old(ext)),
        open_transactions(*final(ext)) == open_transactions(*old(ext)),
        pending_writes(*final(ext)) == pending_writes(*old(ext)),
{
    Backend { inner: ext.inner.as_backend() }
}

/// Calls `TestExternalities::commit_all`.
///
/// The call drains the overlay into the committed backend and leaves an empty
/// overlay in place. It panics while a storage transaction is open, which the
/// precondition rules out; on every other path it returns `Ok`, so that the
/// `expect` below never fires.
#[verifier::external_body]
pub(crate) fn commit_all(ext: &mut Externalities)
    requires
        open_transactions(*old(ext)) == 0,
    ensures
        open_transactions(*final(ext)) == 0,
        pending_writes(*final(ext)) == 0,
{
    ext.inner.commit_all().expect("Failed to commit changes")
}

/// Assigns the public field `TestExternalities::backend`.
///
/// The overlay is untouched. The live keyspace is what `as_backend` builds,
/// which is `backend.update(..)` with the overlay's pending writes: "copy the
/// state, with applied updates". Where the overlay holds no pending write
/// there is nothing to apply, and the copy has the entries and the root of the
/// backend that was put in.
#[verifier::external_body]
pub(crate) fn replace_backend(ext: &mut Externalities, backend: Backend)
    ensures
        pending_writes(*old(ext)) == 0 ==> live_entries(*final(ext)) == backend_entries(backend),
        pending_writes(*old(ext)) == 0 ==> live_root(*final(ext)) == backend_root(backend),
        open_transactions(*final(ext)) == open_transactions(*old(ext)),
        pending_writes(*final(ext)) == pending_writes(*old(ext)),
{
    ext.inner.backend = backend.inner;
}

/// Calls `TestExternalities::execute_with`.
///
/// The closure runs once, with these externalities installed as the ambient
/// ones, and its result is handed back. What it does to the keyspace through
/// the ambient externalities is not visible in its contract, so nothing is
/// said of the externalities afterwards.
#[verifier::external_body]
pub(crate) fn run_with<T>(ext: &mut Externalities, execute: impl FnOnce() -> T) -> (result: T)
    requires
        execute.requires(()),
    ensures
        execute.ensures((), result),
{
    ext.inner.execute_with(execute)
}

/// Calls `TrieBackend::backend_storage_mut` and `MemoryDB::drain` on the result.
///
/// `drain` takes the node store's whole map and leaves an empty one; the root
/// is a separate field and stays. A map hands each key out once, in an order
/// that is not fixed.
#[verifier::external_body]
pub(crate) fn drain_entries(backend: &mut Backend) -> (raw: RawStorage)
    ensures
        distinct_keys(raw.deep_view()),
        entry_map(raw.deep_view()) == backend_entries(*old(backend)),
        backend_entries(*final(backend)) == no_entries(),
        backend_root(*final(backend)) == backend_root(*old(backend)),
{
    backend.inner.backend_storage_mut().drain().into_iter().collect()
}

/// Calls `TrieBackend::root` and copies the 32 bytes of the hash.
#[verifier::external_body]
pub(crate) fn root_of(backend: &Backend) -> (root: StorageRoot)
    ensures
        root@ == backend_root(*backend),
{
    let hash: &H256 = backend.inner.root();
    hash.0
}

/// Calls `TestExternalities::from_raw_snapshot`, with the default state version.
///
/// For each listed entry the call takes the key's last 32 bytes as the hash
/// and what stands before them as the prefix, and places the value under that
/// prefix and hash once for each unit of the reference count, which rebuilds
/// the listed key with the listed count. It passes over an entry whose key is
/// shorter than 32 bytes, and the node store turns the empty node `[0]` away:
/// of a list of live entries without repeated keys, the node store holds
/// exactly the nodes. A key listed twice would have its counts added up, which
/// may overflow, hence the first precondition. The backend carries the given
/// root, and the overlay is a default one.
#[verifier::external_body]
pub(crate) fn from_raw_snapshot(storage: RawStorage, root: StorageRoot) -> (ext: Externalities)
    requires
        distinct_keys(storage.deep_view()),
        all_live(storage.deep_view()),
    ensures
        live_entries(ext) == node_part(entry_map(storage.deep_view())),
        live_root(ext) == root@,
        open_transactions(ext) == 0,
        pending_writes(ext) == 0,
{
    Externalities {
        inner: TestExternalities::from_raw_snapshot(storage, H256::from(root), Default::default()),
    }
}

} // verus!
