//! What holds of every sandbox, proved from the contracts of its operations.
//!
//! Each statement speaks of sandbox states and snapshots through the same
//! functions as the contracts do: a dry run takes a state to
//! [`SandboxState::settled`], a restore takes a sandbox to
//! [`SandboxState::restored`], and a capture of a state is any snapshot that
//! [`SandboxState::captured_by`] accepts.

use crate::raw_storage::{
    entry_map_holds, is_live, list_of_node_part, live_list_is_live_part, live_part,
    node_list_is_node_part, node_part,
};
use crate::sandbox::SandboxState;
use crate::snapshot::Snapshot;
use vstd::prelude::*;

verus! {

/// A dry run is invisible to snapshots: a snapshot taken before a dry run and a
/// snapshot taken after it hold the same entries under the same root, whatever
/// the action did and whatever was in flight before.
pub proof fn dry_run_isolation(
    before: SandboxState,
    after: SandboxState,
    first: Snapshot,
    second: Snapshot,
)
    requires
        before.captured_by(first),
        after == before.settled(),
        after.captured_by(second),
    ensures
        first.same_content(&second),
{
}

/// Dry runs nest. Let the action of a dry run that began in `before` bring the
/// sandbox to any state `reached` and make a dry run of its own there. That
/// inner dry run leaves the keyspace of `reached` with no transaction open,
/// which is all that the outer dry run asks of its action; and the outer dry
/// run leaves the keyspace and the root of `before`. Discarding twice is
/// discarding once.
pub proof fn nested_dry_run(
    before: SandboxState,
    reached: SandboxState,
    inner: SandboxState,
    outer: SandboxState,
)
    requires
        inner == reached.settled(),
        outer == before.settled(),
    ensures
        inner.open_transactions == 0,
        inner.entries == reached.entries,
        inner.root == reached.root,
        outer.entries == before.entries,
        outer.root == before.root,
        outer.settled() == outer,
{
}

/// Restoring a snapshot and capturing the sandbox again gives the snapshot
/// back, the same entries under the same root, provided that the snapshot lists
/// nothing but nodes. (A backend passes over what is no node, so that no other
/// snapshot comes back whole.)
pub proof fn restore_round_trip(snapshot: Snapshot, again: Snapshot)
    requires
        snapshot.well_formed(),
        snapshot.restorable(),
        SandboxState::restored(snapshot).captured_by(again),
    ensures
        again.same_content(&snapshot),
{
    live_list_is_live_part(snapshot.raw());
    node_list_is_node_part(snapshot.raw());
}

/// Restoring any snapshot and capturing the sandbox again gives the nodes of
/// the snapshot under the root of the snapshot, and what was captured is
/// restorable: from the second capture on, the round trip is exact.
pub proof fn restore_keeps_nodes(snapshot: Snapshot, again: Snapshot)
    requires
        snapshot.well_formed(),
        SandboxState::restored(snapshot).captured_by(again),
    ensures
        again.entries() == node_part(snapshot.entries()),
        again.root() == snapshot.root(),
        again.restorable(),
{
    live_list_is_live_part(snapshot.raw());
    assert(live_part(node_part(snapshot.entries())) =~= node_part(snapshot.entries()));
    list_of_node_part(again.raw(), snapshot.entries());
}

/// A snapshot holds the live entries of the keyspace and nothing else: a key is
/// captured exactly if the keyspace holds it with a positive reference count,
/// and then with the value and count that the keyspace has for it. The root of
/// the snapshot is nevertheless that of the whole keyspace.
pub proof fn capture_keeps_live_entries(state: SandboxState, snapshot: Snapshot, key: Seq<u8>)
    requires
        state.captured_by(snapshot),
    ensures
        snapshot.entries().contains_key(key) <==> state.entries.contains_key(key) && is_live(
            state.entries[key].1,
        ),
        snapshot.entries().contains_key(key) ==> snapshot.entries()[key] == state.entries[key],
        snapshot.root() == state.root,
{
}

/// A key that was deleted, so that its reference count is zero or below, is
/// listed nowhere in a snapshot, though the keyspace still holds its entry.
pub proof fn tombstones_left_out(state: SandboxState, snapshot: Snapshot, key: Seq<u8>)
    requires
        state.captured_by(snapshot),
        state.entries.contains_key(key),
        !is_live(state.entries[key].1),
    ensures
        forall|i: int| 0 <= i < snapshot.raw().len() ==> (#[trigger] snapshot.raw()[i]).0 != key,
{
    assert forall|i: int| 0 <= i < snapshot.raw().len() implies (#[trigger] snapshot.raw()[i]).0
        != key by {
        entry_map_holds(snapshot.raw(), i);
    }
}

} // verus!
