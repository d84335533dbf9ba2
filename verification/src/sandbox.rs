//! The sandbox: one live keyspace, operations that run against it, dry runs
//! that leave no trace, and snapshots to capture it and to put it back.

use crate::externalities::{
    commit_all, drain_entries, empty_externalities, from_raw_snapshot, live_entries, live_root,
    open_transactions, pending_backend, pending_writes, replace_backend, root_of, run_with,
    Externalities,
};
use crate::raw_storage::{filter_keeps_live_part, live_part, node_part, retain_live, Entries};
use crate::snapshot::Snapshot;
use sp_externalities::Extension;
use std::any::Any;
use std::marker::PhantomData;
use vstd::prelude::*;

verus! {

/// What the contracts of a sandbox speak of: the live keyspace with its root,
/// and the state of the overlay through which operations write to it.
pub struct SandboxState {
    /// The raw entries of the live keyspace, tombstones included.
    pub entries: Entries,
    /// The root hash of the live keyspace.
    pub root: Seq<u8>,
    /// How many storage transactions are open.
    pub open_transactions: nat,
    /// For how many keys a write waits to be committed to the backend.
    pub pending_writes: nat,
}

impl SandboxState {
    /// The same keyspace with nothing left in flight: no open transaction and
    /// no pending write.
    pub open spec fn settled(self) -> SandboxState {
        SandboxState { open_transactions: 0, pending_writes: 0, ..self }
    }

    /// The state in which a snapshot's keyspace is the live one, as far as a
    /// backend takes it in: the nodes that the snapshot lists, under the
    /// snapshot's root, with nothing in flight.
    pub open spec fn restored(snapshot: Snapshot) -> SandboxState {
        SandboxState {
            entries: node_part(snapshot.entries()),
            root: snapshot.root(),
            open_transactions: 0,
            pending_writes: 0,
        }
    }

    /// Whether a snapshot is a capture of this state: it lists the live entries
    /// of the keyspace and no tombstone, and it carries the root of the whole
    /// keyspace, tombstones included.
    pub open spec fn captured_by(self, snapshot: Snapshot) -> bool {
        &&& snapshot.well_formed()
        &&& snapshot.entries() == live_part(self.entries)
        &&& snapshot.root() == self.root
    }
}

/// A sandboxed runtime.
pub struct Sandbox<Config> {
    externalities: Externalities,
    _phantom: PhantomData<Config>,
}

impl<Config> View for Sandbox<Config> {
    type V = SandboxState;

    closed spec fn view(&self) -> SandboxState {
        SandboxState {
            entries: live_entries(self.externalities),
            root: live_root(self.externalities),
            open_transactions: open_transactions(self.externalities),
            pending_writes: pending_writes(self.externalities),
        }
    }
}

impl<Config> Sandbox<Config> {
    /// Creates a sandbox over a fresh keyspace, with nothing in flight.
    pub fn new() -> (sandbox: Self)
        ensures
            sandbox@.open_transactions == 0,
            sandbox@.pending_writes == 0,
    {
        Sandbox { externalities: empty_externalities(), _phantom: PhantomData }
    }

    /// Execute the given closure with the inner externalities.
    ///
    /// Returns the result of the given closure. Everything that the closure
    /// does to the keyspace persists.
    pub fn execute_with<T>(&mut self, execute: impl FnOnce() -> T) -> (result: T)
        requires
            execute.requires(()),
        ensures
            execute.ensures((), result),
    {
        run_with(&mut self.externalities, execute)
    }

    /// Run an action without modifying the storage.
    ///
    /// The action gets the sandbox itself and may do with it whatever it likes,
    /// a dry run of its own included. When it returns, its pending writes are
    /// committed and the backend is then put back as it was before the action,
    /// so that nothing the action wrote survives; what the action returned is
    /// handed on. The action must close every storage transaction that it
    /// finds open or opens: the commit cannot be made while one is open.
    ///
    /// # Arguments
    ///
    /// * `action` - The action to run.
    pub fn dry_run<T>(&mut self, action: impl FnOnce(&mut Self) -> T) -> (result: T)
        requires
            forall|sandbox: &mut Self|
                (*sandbox)@ == old(self)@ ==> #[trigger] action.requires((sandbox,)),
            forall|sandbox: &mut Self, output: T|
                (*sandbox)@ == old(self)@ && #[trigger] action.ensures((sandbox,), output) ==> (
                *final(sandbox))@.open_transactions == 0,
        ensures
            final(self)@ == old(self)@.settled(),
            exists|sandbox: &mut Self|
                (*sandbox)@ == old(self)@ && #[trigger] action.ensures((sandbox,), result),
    {
        // Make a backup of the backend.
        let backend_backup = pending_backend(&mut self.externalities);

        // Run the action, potentially modifying storage. Ensure, that there are no pending changes
        // that would affect the reverted backend.
        let result = action(self);
        commit_all(&mut self.externalities);

        // Restore the backend.
        replace_backend(&mut self.externalities, backend_backup);

        result
    }

    /// Registers an extension.
    ///
    /// Calls `TestExternalities::register_extension`, which files the extension
    /// under its type in the registry of extensions; an extension of the same
    /// type that was registered before is replaced. The registry is apart from
    /// the storage, which stays as it is.
    #[verifier::external_body]
    pub fn register_extension<E: Any + Extension>(&mut self, ext: E)
        ensures
            final(self)@ == old(self)@,
    {
        self.externalities.inner.register_extension(ext);
    }

    /// Take a snapshot of the storage.
    ///
    /// The snapshot lists the live entries of the keyspace, pending writes
    /// applied, and carries the root of the whole keyspace. The sandbox is left
    /// as it was.
    pub fn take_snapshot(&mut self) -> (snapshot: Snapshot)
        ensures
            final(self)@ == old(self)@,
            old(self)@.captured_by(snapshot),
    {
        let mut backend = pending_backend(&mut self.externalities);
        let raw = drain_entries(&mut backend);
        let root = root_of(&backend);
        proof {
            filter_keeps_live_part(raw.deep_view());
        }
        Snapshot::assemble(retain_live(raw), root)
    }

    /// Restore the storage from the given snapshot.
    ///
    /// The sandbox gets a fresh backend that holds the snapshot's entries under
    /// the snapshot's root, and a fresh overlay. The backend takes in nodes
    /// only: an entry whose key has no room for a node hash, or whose value is
    /// the empty node, is passed over (see [`Snapshot::is_restorable`]). Nothing
    /// of the earlier state is kept, the registry of extensions included.
    pub fn restore_snapshot(&mut self, snapshot: Snapshot)
        ensures
            final(self)@ == SandboxState::restored(snapshot),
    {
        let (storage, root) = snapshot.into_parts();
        self.externalities = from_raw_snapshot(storage, root);
    }
}

} // verus!
