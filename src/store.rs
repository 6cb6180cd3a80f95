//! A mathematical model of the store's tables, as far as the decisions of
//! this library depend on them: how many rows carry a given key.
use vstd::prelude::*;

verus! {

/// How many of the stored keys equal `key`.
pub open spec fn count_of(stored: Seq<Seq<char>>, key: Seq<char>) -> nat
    decreases stored.len(),
{
    if stored.len() == 0 {
        0
    } else {
        count_of(stored.drop_last(), key) + if stored.last() == key { 1nat } else { 0nat }
    }
}

/// A table that holds no row with `key` counts none.
pub proof fn lemma_count_absent(stored: Seq<Seq<char>>, key: Seq<char>)
    requires
        forall|i: int| 0 <= i < stored.len() ==> stored[i] != key,
    ensures
        count_of(stored, key) == 0,
    decreases stored.len(),
{
    if stored.len() > 0 {
        assert(stored.last() == stored[stored.len() - 1]);
        lemma_count_absent(stored.drop_last(), key);
    }
}

/// After a row with `key` is added, the table counts at least one.
pub proof fn lemma_count_after_insert(stored: Seq<Seq<char>>, key: Seq<char>)
    ensures
        count_of(stored.push(key), key) > 0,
{
    assert(stored.push(key).drop_last() == stored);
}

} // verus!
