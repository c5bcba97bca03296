//! Association sequences keyed by byte strings: the mathematical model of
//! the manager's pending-bundle and pending-vote tables.

use vstd::prelude::*;

verus! {

/// No key occurs twice.
pub open spec fn distinct_keys<V>(entries: Seq<(Seq<u8>, V)>) -> bool {
    forall|i: int, j: int|
        0 <= i < j < entries.len() ==> (#[trigger] entries[i]).0 != (#[trigger] entries[j]).0
}

/// Some entry carries key `k`.
pub open spec fn has_key<V>(entries: Seq<(Seq<u8>, V)>, k: Seq<u8>) -> bool {
    exists|i: int| 0 <= i < entries.len() && (#[trigger] entries[i]).0 == k
}

/// The index of the entry carrying key `k` (meaningful only under
/// `has_key` and `distinct_keys`).
pub open spec fn key_idx<V>(entries: Seq<(Seq<u8>, V)>, k: Seq<u8>) -> int {
    choose|i: int| 0 <= i < entries.len() && (#[trigger] entries[i]).0 == k
}

/// The value stored under key `k`.
pub open spec fn lookup<V>(entries: Seq<(Seq<u8>, V)>, k: Seq<u8>) -> V {
    entries[key_idx(entries, k)].1
}

/// Dropping an entry keeps the remaining keys distinct.
pub proof fn lemma_distinct_keys_remove<V>(entries: Seq<(Seq<u8>, V)>, i: int)
    requires
        distinct_keys(entries),
        0 <= i < entries.len(),
    ensures
        distinct_keys(entries.remove(i)),
{
    let r = entries.remove(i);
    assert forall|a: int, b: int| 0 <= a < b < r.len() implies (#[trigger] r[a]).0 != (
    #[trigger] r[b]).0 by {
        if a < i {
            assert(r[a] == entries[a]);
        } else {
            assert(r[a] == entries[a + 1]);
        }
        if b < i {
            assert(r[b] == entries[b]);
        } else {
            assert(r[b] == entries[b + 1]);
        }
    }
}

/// Under distinct keys, an entry that carries `k` is the entry `key_idx`
/// points at.
pub proof fn lemma_key_idx_is<V>(entries: Seq<(Seq<u8>, V)>, i: int)
    requires
        distinct_keys(entries),
        0 <= i < entries.len(),
    ensures
        has_key(entries, entries[i].0),
        key_idx(entries, entries[i].0) == i,
{
    let k = entries[i].0;
    assert(has_key(entries, k));
    let j = key_idx(entries, k);
    if j != i {
        assert(entries[i].0 != entries[j].0);
    }
}

} // verus!
