//! Looking a key up in a table that was filled in order, where a later
//! entry replaces an earlier one of the same key.

use vstd::prelude::*;

verus! {

/// The key at `i` is `key`, and no later one is.
pub open spec fn is_last<K>(keys: Seq<K>, key: K, i: int) -> bool {
    &&& 0 <= i < keys.len()
    &&& keys[i] == key
    &&& forall|j: int| i < j < keys.len() ==> #[trigger] keys[j] != key
}

/// The place of the last `key` among `keys`; none where `key` is not among
/// them.
pub open spec fn last_index<K>(keys: Seq<K>, key: K) -> Option<int> {
    if exists|i: int| is_last(keys, key, i) {
        Some(choose|i: int| is_last(keys, key, i))
    } else {
        None
    }
}

/// Only one place is the last of a key.
pub proof fn lemma_last_is_unique<K>(keys: Seq<K>, key: K, i: int)
    requires
        is_last(keys, key, i),
    ensures
        last_index(keys, key) == Some(i),
{
    let c = choose|c: int| is_last(keys, key, c);
    if c < i {
        assert(keys[i] != key);
    } else if i < c {
        assert(keys[c] != key);
    }
}

/// A key has a last place exactly when it is among the keys.
pub proof fn lemma_last_index<K>(keys: Seq<K>, key: K)
    ensures
        last_index(keys, key) is Some <==> keys.contains(key),
        last_index(keys, key) matches Some(i) ==> is_last(keys, key, i),
{
    if keys.contains(key) {
        let i = choose|i: int| 0 <= i < keys.len() && keys[i] == key;
        lemma_some_is_last(keys, key, i, keys.len() as int);
    } else {
        if exists|i: int| is_last(keys, key, i) {
            let i = choose|i: int| is_last(keys, key, i);
            assert(keys[i] == key);
        }
    }
}

/// Where `key` stands at `i`, and nowhere from `bound` on, some place from
/// `i` on and below `bound` is its last.
proof fn lemma_some_is_last<K>(keys: Seq<K>, key: K, i: int, bound: int)
    requires
        0 <= i < bound <= keys.len(),
        keys[i] == key,
        forall|j: int| bound <= j < keys.len() ==> #[trigger] keys[j] != key,
    ensures
        exists|k: int| is_last(keys, key, k),
    decreases bound - i,
{
    if keys[bound - 1] == key {
        assert(is_last(keys, key, bound - 1));
    } else {
        lemma_some_is_last(keys, key, i, bound - 1);
    }
}

} // verus!
