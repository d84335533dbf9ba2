//! Raw storage: the reference-counted entries of a keyspace, as a list and as a map.
//!
//! A backend keeps each entry under a byte key, together with a signed reference
//! count. An entry is *live* while its count is positive; an entry whose count
//! has dropped to zero or below is a tombstone that may still be physically
//! present but belongs to no exported view of the keyspace.

use vstd::prelude::*;

verus! {

/// One raw entry as it is held in memory: key, then value with its reference count.
pub type RawEntry = (Vec<u8>, (Vec<u8>, i32));

/// The raw entries of a keyspace, in the order in which they were handed out.
pub type RawStorage = Vec<RawEntry>;

/// The fingerprint of a keyspace.
pub type StorageRoot = [u8; 32];

/// The mathematical value of a [`RawEntry`].
pub type Entry = (Seq<u8>, (Seq<u8>, i32));

/// A keyspace as a map from key to value and reference count.
pub type Entries = Map<Seq<u8>, (Seq<u8>, i32)>;

/// The number of bytes of a node hash, with which every backend key ends.
pub const HASH_LEN: usize = 32;

/// The encoding of the empty node, which a backend never stores.
pub open spec fn null_node() -> Seq<u8> {
    seq![0u8]
}

/// The keyspace without any entry.
pub open spec fn no_entries() -> Entries {
    Map::empty()
}

/// The one rule that tells a live entry from a tombstone.
pub open spec fn is_live(count: i32) -> bool {
    count > 0
}

/// [`is_live`] as a predicate on whole entries.
pub open spec fn live_entry() -> spec_fn(Entry) -> bool {
    |e: Entry| is_live(e.1.1)
}

/// Whether a backend can hold this key and value: the key has room for a node
/// hash and the value is not the empty node.
pub open spec fn is_node(key: Seq<u8>, value: Seq<u8>) -> bool {
    key.len() >= HASH_LEN && value != null_node()
}

/// No key occurs twice in the list.
pub open spec fn distinct_keys(s: Seq<Entry>) -> bool {
    forall|i: int, j: int| 0 <= i < j < s.len() ==> (#[trigger] s[i]).0 != (#[trigger] s[j]).0
}

/// Every listed entry is live.
pub open spec fn all_live(s: Seq<Entry>) -> bool {
    forall|i: int| 0 <= i < s.len() ==> is_live((#[trigger] s[i]).1.1)
}

/// Every listed entry is one that a backend can hold.
pub open spec fn all_nodes(s: Seq<Entry>) -> bool {
    forall|i: int| 0 <= i < s.len() ==> is_node((#[trigger] s[i]).0, s[i].1.0)
}

/// The keyspace that a list of entries describes: the listed keys, each with the
/// value and count listed for it.
pub open spec fn entry_map(s: Seq<Entry>) -> Entries {
    Map::new(
        |k: Seq<u8>| exists|i: int| 0 <= i < s.len() && (#[trigger] s[i]).0 == k,
        |k: Seq<u8>| s[choose|i: int| 0 <= i < s.len() && (#[trigger] s[i]).0 == k].1,
    )
}

/// The exported part of a keyspace: its live entries, tombstones left out.
pub open spec fn live_part(m: Entries) -> Entries {
    Map::new(|k: Seq<u8>| m.contains_key(k) && is_live(m[k].1), |k: Seq<u8>| m[k])
}

/// The part of a keyspace that a backend takes in: its nodes.
pub open spec fn node_part(m: Entries) -> Entries {
    Map::new(|k: Seq<u8>| m.contains_key(k) && is_node(k, m[k].0), |k: Seq<u8>| m[k])
}

/// Decides whether an entry with this reference count is live.
pub fn live(count: i32) -> (yes: bool)
    ensures
        yes == is_live(count),
{
    count > 0
}

/// Decides whether a backend can hold this key and value.
pub fn node(key: &Vec<u8>, value: &Vec<u8>) -> (yes: bool)
    ensures
        yes == is_node(key@, value@),
{
    let null = value.len() == 1 && value[0] == 0;
    proof {
        if null {
            assert(value@ =~= null_node());
        } else if value@.len() == 1 {
            assert(value@[0] != null_node()[0]);
        }
    }
    key.len() >= HASH_LEN && !null
}

/// In a list without repeated keys, the described keyspace holds each listed
/// entry exactly as listed.
pub proof fn entry_map_holds(s: Seq<Entry>, i: int)
    requires
        distinct_keys(s),
        0 <= i < s.len(),
    ensures
        entry_map(s).contains_key(s[i].0),
        entry_map(s)[s[i].0] == s[i].1,
{
    let k = s[i].0;
    let j = choose|j: int| 0 <= j < s.len() && (#[trigger] s[j]).0 == k;
    assert(j == i);
}

/// Every key of the described keyspace is listed somewhere, with its value
/// and count.
pub proof fn entry_map_listed(s: Seq<Entry>, k: Seq<u8>) -> (i: int)
    requires
        distinct_keys(s),
        entry_map(s).contains_key(k),
    ensures
        0 <= i < s.len(),
        s[i].0 == k,
        entry_map(s)[k] == s[i].1,
{
    let i = choose|i: int| 0 <= i < s.len() && (#[trigger] s[i]).0 == k;
    entry_map_holds(s, i);
    i
}

/// Each entry of a filtered list is a live entry of the full list.
proof fn filter_source(s: Seq<Entry>, j: int) -> (i: int)
    requires
        0 <= j < s.filter(live_entry()).len(),
    ensures
        0 <= i < s.len(),
        s[i] == s.filter(live_entry())[j],
        is_live(s[i].1.1),
    decreases s.len(),
{
    reveal(Seq::filter);
    if is_live(s.last().1.1) && j == s.filter(live_entry()).len() - 1 {
        s.len() - 1
    } else {
        filter_source(s.drop_last(), j)
    }
}

/// Each live entry of a list stands in the filtered list.
proof fn filter_target(s: Seq<Entry>, i: int) -> (j: int)
    requires
        0 <= i < s.len(),
        is_live(s[i].1.1),
    ensures
        0 <= j < s.filter(live_entry()).len(),
        s.filter(live_entry())[j] == s[i],
    decreases s.len(),
{
    reveal(Seq::filter);
    if i == s.len() - 1 {
        s.filter(live_entry()).len() - 1
    } else {
        filter_target(s.drop_last(), i)
    }
}

/// Filtering a list without repeated keys repeats no key.
proof fn filter_keeps_keys_distinct(s: Seq<Entry>)
    requires
        distinct_keys(s),
    ensures
        distinct_keys(s.filter(live_entry())),
    decreases s.len(),
{
    reveal(Seq::filter);
    if s.len() > 0 {
        let front = s.drop_last();
        let kept = front.filter(live_entry());
        filter_keeps_keys_distinct(front);
        if is_live(s.last().1.1) {
            assert forall|a: int| 0 <= a < kept.len() implies (#[trigger] kept[a]).0
                != s.last().0 by {
                let i = filter_source(front, a);
                assert(s[i].0 != s[s.len() - 1].0);
            }
        }
    }
}

/// Dropping the tombstones from a list without repeated keys gives a list
/// without repeated keys, of live entries only, that describes the live part of
/// the keyspace.
pub proof fn filter_keeps_live_part(s: Seq<Entry>)
    requires
        distinct_keys(s),
    ensures
        distinct_keys(s.filter(live_entry())),
        all_live(s.filter(live_entry())),
        entry_map(s.filter(live_entry())) == live_part(entry_map(s)),
{
    let f = s.filter(live_entry());
    filter_keeps_keys_distinct(s);
    assert forall|a: int| 0 <= a < f.len() implies is_live((#[trigger] f[a]).1.1) by {
        let i = filter_source(s, a);
    }
    assert forall|k: Seq<u8>| #[trigger]
        entry_map(f).contains_key(k) == live_part(entry_map(s)).contains_key(k) by {
        if entry_map(f).contains_key(k) {
            let a = entry_map_listed(f, k);
            let i = filter_source(s, a);
            entry_map_holds(s, i);
        }
        if live_part(entry_map(s)).contains_key(k) {
            let i = entry_map_listed(s, k);
            let a = filter_target(s, i);
        }
    }
    assert forall|k: Seq<u8>| #[trigger] entry_map(f).contains_key(k) implies entry_map(f)[k]
        == live_part(entry_map(s))[k] by {
        let a = entry_map_listed(f, k);
        let i = filter_source(s, a);
        entry_map_holds(s, i);
    }
    assert(entry_map(f) =~= live_part(entry_map(s)));
}

/// A list of live entries without repeated keys describes a keyspace that is
/// its own live part.
pub proof fn live_list_is_live_part(s: Seq<Entry>)
    requires
        distinct_keys(s),
        all_live(s),
    ensures
        live_part(entry_map(s)) == entry_map(s),
{
    assert forall|k: Seq<u8>| #[trigger] entry_map(s).contains_key(k) implies is_live(
        entry_map(s)[k].1,
    ) by {
        let i = entry_map_listed(s, k);
    }
    assert(live_part(entry_map(s)) =~= entry_map(s));
}

/// A list of nodes without repeated keys describes a keyspace that a backend
/// takes in whole.
pub proof fn node_list_is_node_part(s: Seq<Entry>)
    requires
        distinct_keys(s),
        all_nodes(s),
    ensures
        node_part(entry_map(s)) == entry_map(s),
{
    assert forall|k: Seq<u8>| #[trigger] entry_map(s).contains_key(k) implies is_node(
        k,
        entry_map(s)[k].0,
    ) by {
        let i = entry_map_listed(s, k);
    }
    assert(node_part(entry_map(s)) =~= entry_map(s));
}

/// A list without repeated keys that describes a keyspace of nodes lists
/// nothing but nodes.
pub proof fn list_of_node_part(s: Seq<Entry>, m: Entries)
    requires
        distinct_keys(s),
        entry_map(s) == node_part(m),
    ensures
        all_nodes(s),
{
    assert forall|i: int| 0 <= i < s.len() implies is_node((#[trigger] s[i]).0, s[i].1.0) by {
        entry_map_holds(s, i);
    }
}

/// Keeps the live entries of a list, in the order in which they stand, and
/// drops every tombstone.
pub fn retain_live(raw: RawStorage) -> (kept: RawStorage)
    ensures
        kept.deep_view() == raw.deep_view().filter(live_entry()),
{
    let ghost all = raw.deep_view();
    let mut kept: RawStorage = Vec::new();
    assert(all.take(0).filter(live_entry()) =~= Seq::<Entry>::empty()) by {
        reveal(Seq::filter);
    }
    assert(kept.deep_view() =~= Seq::<Entry>::empty());
    for entry in it: raw
        invariant
            it.seq().len() == all.len(),
            forall|i: int| 0 <= i < all.len() ==> (#[trigger] it.seq()[i]).deep_view() == all[i],
            kept.deep_view() == all.take(it.index() as int).filter(live_entry()),
    {
        let ghost done = it.index() as int;
        let ghost before = kept.deep_view();
        proof {
            assert(all.take(done + 1) =~= all.take(done).push(all[done]));
            all.take(done).lemma_filter_push(all[done], live_entry());
        }
        if live(entry.1.1) {
            kept.push(entry);
            assert(kept.deep_view() =~= before.push(all[done]));
        }
    }
    assert(all.take(all.len() as int) =~= all);
    kept
}

} // verus!
