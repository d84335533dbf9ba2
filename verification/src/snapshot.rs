//! Snapshots: owned captures of a keyspace.

use crate::raw_storage::{
    all_live, all_nodes, distinct_keys, entry_map, is_node, node, Entries, Entry, RawStorage,
    StorageRoot,
};
use vstd::prelude::*;

verus! {

/// A snapshot of the storage.
///
/// A snapshot is plain data: the live raw entries of a keyspace and the root
/// hash that the keyspace had when it was captured. It holds no reference to the
/// sandbox that produced it and stays valid whatever happens to that sandbox.
#[derive(Debug)]
pub struct Snapshot {
    /// The storage raw key-value pairs.
    storage: RawStorage,
    /// The storage root hash.
    storage_root: StorageRoot,
}

impl Snapshot {
    /// The captured entries, in the order in which the snapshot lists them.
    pub closed spec fn raw(&self) -> Seq<Entry> {
        self.storage.deep_view()
    }

    /// The captured root hash.
    pub closed spec fn root(&self) -> Seq<u8> {
        self.storage_root@
    }

    /// The captured keyspace: each listed key with its value and reference count.
    pub open spec fn entries(&self) -> Entries {
        entry_map(self.raw())
    }

    /// What holds of every snapshot: no key is listed twice, and every listed
    /// entry is live.
    pub open spec fn well_formed(&self) -> bool {
        &&& distinct_keys(self.raw())
        &&& all_live(self.raw())
        &&& self.root().len() == 32
    }

    /// Whether a backend takes in all that the snapshot lists, so that
    /// restoring the snapshot loses nothing: every listed entry is a node.
    pub open spec fn restorable(&self) -> bool {
        all_nodes(self.raw())
    }

    #[verifier::type_invariant]
    spec fn valid(&self) -> bool {
        self.well_formed()
    }

    /// Two snapshots hold the same content when they describe the same keyspace
    /// under the same root, in whatever order each lists its entries.
    pub open spec fn same_content(&self, other: &Snapshot) -> bool {
        self.entries() == other.entries() && self.root() == other.root()
    }

    /// Puts a list of live entries without repeated keys together with a root.
    pub(crate) fn assemble(storage: RawStorage, storage_root: StorageRoot) -> (snapshot: Snapshot)
        requires
            distinct_keys(storage.deep_view()),
            all_live(storage.deep_view()),
        ensures
            snapshot.raw() == storage.deep_view(),
            snapshot.root() == storage_root@,
            snapshot.well_formed(),
    {
        Snapshot { storage, storage_root }
    }

    /// Takes a snapshot apart into its entries and its root.
    pub(crate) fn into_parts(self) -> (parts: (RawStorage, StorageRoot))
        ensures
            parts.0.deep_view() == self.raw(),
            parts.1@ == self.root(),
            self.well_formed(),
    {
        proof {
            use_type_invariant(&self);
        }
        (self.storage, self.storage_root)
    }

    /// The storage raw key-value pairs.
    pub fn storage(&self) -> (storage: &RawStorage)
        ensures
            storage.deep_view() == self.raw(),
            self.well_formed(),
    {
        proof {
            use_type_invariant(self);
        }
        &self.storage
    }

    /// The storage root hash.
    pub fn storage_root(&self) -> (root: StorageRoot)
        ensures
            root@ == self.root(),
    {
        self.storage_root
    }

    /// Tells whether restoring the snapshot loses nothing: whether every listed
    /// entry is a node that a backend takes in.
    pub fn is_restorable(&self) -> (yes: bool)
        ensures
            yes == self.restorable(),
    {
        let mut i: usize = 0;
        while i < self.storage.len()
            invariant
                i <= self.storage.len(),
                all_nodes(self.storage.deep_view().take(i as int)),
            decreases self.storage.len() - i,
        {
            let entry = &self.storage[i];
            if !node(&entry.0, &entry.1.0) {
                proof {
                    let all = self.storage.deep_view();
                    assert(all[i as int].0 =~= entry.0@);
                    assert(all[i as int].1.0 =~= entry.1.0@);
                }
                return false;
            }
            proof {
                let all = self.storage.deep_view();
                assert(all[i as int].0 =~= entry.0@);
                assert(all[i as int].1.0 =~= entry.1.0@);
                assert forall|j: int| 0 <= j < i + 1 implies is_node(
                    (#[trigger] all.take(i + 1)[j]).0,
                    all.take(i + 1)[j].1.0,
                ) by {
                    if j < i {
                        assert(all.take(i as int)[j] == all[j]);
                    }
                }
            }
            i += 1;
        }
        assert(self.storage.deep_view().take(i as int) =~= self.storage.deep_view());
        true
    }
}

impl Clone for Snapshot {
    /// Copies the snapshot: the same entries in the same order, under the same root.
    fn clone(&self) -> (copy: Self)
        ensures
            copy.raw() == self.raw(),
            copy.root() == self.root(),
            copy.well_formed(),
    {
        proof {
            use_type_invariant(self);
        }
        let mut storage: RawStorage = Vec::new();
        let mut i: usize = 0;
        while i < self.storage.len()
            invariant
                i <= self.storage.len(),
                storage.deep_view() == self.storage.deep_view().take(i as int),
            decreases self.storage.len() - i,
        {
            let ghost before = storage.deep_view();
            let entry = &self.storage[i];
            let key = entry.0.clone();
            let value = entry.1.0.clone();
            storage.push((key, (value, entry.1.1)));
            proof {
                let all = self.storage.deep_view();
                assert(key.deep_view() =~= all[i as int].0);
                assert(value.deep_view() =~= all[i as int].1.0);
                assert(all.take(i + 1) =~= all.take(i as int).push(all[i as int]));
                assert(storage.deep_view() =~= before.push(all[i as int]));
            }
            i += 1;
        }
        assert(self.storage.deep_view().take(i as int) =~= self.storage.deep_view());
        Snapshot { storage, storage_root: self.storage_root }
    }
}

} // verus!
