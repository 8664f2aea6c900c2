//! Looking a key up in a sequence of keys.
//!
//! Every keyed collection of the data model keeps its entries in the order of
//! their insertion and is looked up by key. A lookup finds the first entry under
//! the key; in a valid collection no key occurs twice, so that it is the only one.

use vstd::prelude::*;

verus! {

/// Whether `i` is the first position at which `key` occurs in `keys`.
pub open spec fn is_first(keys: Seq<Seq<char>>, key: Seq<char>, i: int) -> bool {
    &&& 0 <= i < keys.len()
    &&& keys[i] == key
    &&& forall|j: int| 0 <= j < i ==> keys[j] != key
}

/// The first position at which `key` occurs in `keys`, where it occurs at all.
pub open spec fn first_index(keys: Seq<Seq<char>>, key: Seq<char>) -> int {
    choose|i: int| is_first(keys, key, i)
}

/// There is only one first position.
pub proof fn lemma_first_index(keys: Seq<Seq<char>>, key: Seq<char>, i: int)
    requires
        is_first(keys, key, i),
    ensures
        first_index(keys, key) == i,
        keys.contains(key),
{
    let chosen = first_index(keys, key);
    assert(is_first(keys, key, chosen));
}

/// A key that occurs at or before `upto` has a first position.
proof fn lemma_first_before(keys: Seq<Seq<char>>, key: Seq<char>, upto: int)
    requires
        0 <= upto < keys.len(),
        keys[upto] == key,
    ensures
        exists|i: int| is_first(keys, key, i),
    decreases upto,
{
    if exists|j: int| 0 <= j < upto && keys[j] == key {
        let j = choose|j: int| 0 <= j < upto && keys[j] == key;
        lemma_first_before(keys, key, j);
    } else {
        assert(is_first(keys, key, upto));
    }
}

/// A key that occurs has a first position, and that is where it is looked up.
pub proof fn lemma_first_exists(keys: Seq<Seq<char>>, key: Seq<char>)
    requires
        keys.contains(key),
    ensures
        is_first(keys, key, first_index(keys, key)),
{
    let at = choose|i: int| 0 <= i < keys.len() && keys[i] == key;
    lemma_first_before(keys, key, at);
}

/// Where no key occurs twice, every position is the first of its key.
pub proof fn lemma_first_unique(keys: Seq<Seq<char>>, i: int)
    requires
        keys.no_duplicates(),
        0 <= i < keys.len(),
    ensures
        is_first(keys, keys[i], i),
        first_index(keys, keys[i]) == i,
{
    lemma_first_index(keys, keys[i], i);
}

/// Appending a key that does not occur yet adds exactly that key to those that
/// occur, at the end, leaves every other key where it was, and keeps the keys
/// distinct if they were.
pub proof fn lemma_push_fresh(keys: Seq<Seq<char>>, key: Seq<char>)
    requires
        !keys.contains(key),
    ensures
        keys.no_duplicates() ==> keys.push(key).no_duplicates(),
        forall|k: Seq<char>| #[trigger]
            keys.push(key).contains(k) <==> keys.contains(k) || k == key,
        first_index(keys.push(key), key) == keys.len(),
        forall|k: Seq<char>|
            keys.contains(k) ==> #[trigger] first_index(keys.push(key), k) == first_index(keys, k),
{
    let grown = keys.push(key);
    if keys.no_duplicates() {
        assert forall|i: int, j: int|
            0 <= i < grown.len() && 0 <= j < grown.len() && i != j implies grown[i] != grown[j] by {
            if i < keys.len() {
                assert(keys[i] == grown[i]);
            }
            if j < keys.len() {
                assert(keys[j] == grown[j]);
            }
        }
    }
    assert forall|k: Seq<char>| #[trigger] grown.contains(k) <==> keys.contains(k) || k == key by {
        if keys.contains(k) {
            let i = choose|i: int| 0 <= i < keys.len() && keys[i] == k;
            assert(grown[i] == k);
        }
        if k == key {
            assert(grown[keys.len() as int] == k);
        }
        if grown.contains(k) && k != key {
            let i = choose|i: int| 0 <= i < grown.len() && grown[i] == k;
            assert(keys[i] == k);
        }
    }
    assert(is_first(grown, key, keys.len() as int)) by {
        assert forall|j: int| 0 <= j < keys.len() implies grown[j] != key by {
            assert(keys[j] == grown[j]);
        }
    }
    lemma_first_index(grown, key, keys.len() as int);
    assert forall|k: Seq<char>| keys.contains(k) implies #[trigger] first_index(grown, k)
        == first_index(keys, k) by {
        lemma_first_exists(keys, k);
        let i = first_index(keys, k);
        assert(is_first(grown, k, i)) by {
            assert(grown[i] == keys[i]);
            assert forall|j: int| 0 <= j < i implies grown[j] != k by {
                assert(keys[j] == grown[j]);
            }
        }
        lemma_first_index(grown, k, i);
    }
}

} // verus!
