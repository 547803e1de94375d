//! Ordered maps as sequences of key-value pairs: the model behind scopes and
//! the evaluation cache.

use vstd::prelude::*;

verus! {

/// No key occurs twice.
pub open spec fn distinct_keys<K, V>(entries: Seq<(K, V)>) -> bool {
    forall|i: int, j: int|
        0 <= i < j < entries.len() ==> (#[trigger] entries[i]).0 != (#[trigger] entries[j]).0
}

/// Whether some entry has the key.
pub open spec fn has_key<K, V>(entries: Seq<(K, V)>, key: K) -> bool {
    exists|i: int| 0 <= i < entries.len() && (#[trigger] entries[i]).0 == key
}

/// The position of an entry with the key, if there is one.
pub open spec fn index_of<K, V>(entries: Seq<(K, V)>, key: K) -> Option<int> {
    if has_key(entries, key) {
        Some(choose|i: int| 0 <= i < entries.len() && (#[trigger] entries[i]).0 == key)
    } else {
        None
    }
}

/// The value stored under the key, if there is one.
pub open spec fn lookup<K, V>(entries: Seq<(K, V)>, key: K) -> Option<V> {
    match index_of(entries, key) {
        Some(i) => Some(entries[i].1),
        None => None,
    }
}

/// The entries after storing `value` under `key`: an entry with the key
/// keeps its place and gets the new value, a new key goes to the end.
pub open spec fn insert<K, V>(entries: Seq<(K, V)>, key: K, value: V) -> Seq<(K, V)> {
    match index_of(entries, key) {
        Some(i) => entries.update(i, (key, value)),
        None => entries.push((key, value)),
    }
}

/// The entries after storing each pair of `added` in turn.
pub open spec fn insert_all<K, V>(entries: Seq<(K, V)>, added: Seq<(K, V)>) -> Seq<(K, V)>
    decreases added.len(),
{
    if added.len() == 0 {
        entries
    } else {
        insert(insert_all(entries, added.drop_last()), added.last().0, added.last().1)
    }
}

/// With distinct keys, the entry at a position is the one found for its key.
pub proof fn lemma_index_of_at<K, V>(entries: Seq<(K, V)>, i: int)
    requires
        distinct_keys(entries),
        0 <= i < entries.len(),
    ensures
        index_of(entries, entries[i].0) == Some(i),
        lookup(entries, entries[i].0) == Some(entries[i].1),
{
    let key = entries[i].0;
    assert(has_key(entries, key));
    let j = choose|j: int| 0 <= j < entries.len() && (#[trigger] entries[j]).0 == key;
    if i < j {
        assert(entries[i].0 != entries[j].0);
    } else if j < i {
        assert(entries[j].0 != entries[i].0);
    }
}

/// Storing keeps the keys distinct.
pub proof fn lemma_insert_distinct<K, V>(entries: Seq<(K, V)>, key: K, value: V)
    requires
        distinct_keys(entries),
    ensures
        distinct_keys(insert(entries, key, value)),
{
    let after = insert(entries, key, value);
    match index_of(entries, key) {
        Some(i) => {
            assert forall|a: int, b: int| 0 <= a < b < after.len() implies (#[trigger] after[a]).0
                != (#[trigger] after[b]).0 by {
                assert(entries[a].0 != entries[b].0);
            }
        },
        None => {
            assert forall|a: int, b: int| 0 <= a < b < after.len() implies (#[trigger] after[a]).0
                != (#[trigger] after[b]).0 by {
                if b < entries.len() {
                    assert(entries[a].0 != entries[b].0);
                } else {
                    assert(entries[a].0 != key);
                }
            }
        },
    }
}

/// A stored value is found again under its key, and every other key finds
/// what it found before.
pub proof fn lemma_lookup_insert<K, V>(entries: Seq<(K, V)>, key: K, value: V, other: K)
    requires
        distinct_keys(entries),
    ensures
        lookup(insert(entries, key, value), key) == Some(value),
        other != key ==> lookup(insert(entries, key, value), other) == lookup(entries, other),
{
    let after = insert(entries, key, value);
    lemma_insert_distinct(entries, key, value);
    let at: int = match index_of(entries, key) {
        Some(i) => i,
        None => entries.len() as int,
    };
    assert(after[at] == (key, value));
    lemma_index_of_at(after, at);
    if other != key {
        if has_key(entries, other) {
            let j = choose|j: int| 0 <= j < entries.len() && (#[trigger] entries[j]).0 == other;
            assert(after[j] == entries[j]);
            lemma_index_of_at(after, j);
        } else {
            if has_key(after, other) {
                let j = choose|j: int| 0 <= j < after.len() && (#[trigger] after[j]).0 == other;
                assert(j != at);
                assert(entries[j].0 == other);
            }
        }
    }
}

/// Storing a sequence of pairs keeps the keys distinct.
pub proof fn lemma_insert_all_distinct<K, V>(entries: Seq<(K, V)>, added: Seq<(K, V)>)
    requires
        distinct_keys(entries),
    ensures
        distinct_keys(insert_all(entries, added)),
    decreases added.len(),
{
    if added.len() > 0 {
        lemma_insert_all_distinct(entries, added.drop_last());
        lemma_insert_distinct(
            insert_all(entries, added.drop_last()),
            added.last().0,
            added.last().1,
        );
    }
}

/// After storing pairs with distinct keys, each of their keys finds its
/// value, and every other key finds what it found before.
pub proof fn lemma_lookup_insert_all<K, V>(entries: Seq<(K, V)>, added: Seq<(K, V)>, key: K)
    requires
        distinct_keys(entries),
        distinct_keys(added),
    ensures
        lookup(insert_all(entries, added), key) == if has_key(added, key) {
            lookup(added, key)
        } else {
            lookup(entries, key)
        },
    decreases added.len(),
{
    if added.len() > 0 {
        let front = added.drop_last();
        let last = added.last();
        let n = added.len() - 1;
        assert forall|i: int, j: int| 0 <= i < j < front.len() implies (#[trigger] front[i]).0 != (
        #[trigger] front[j]).0 by {
            assert(added[i].0 != added[j].0);
        }
        lemma_lookup_insert_all(entries, front, key);
        lemma_insert_all_distinct(entries, front);
        lemma_lookup_insert(insert_all(entries, front), last.0, last.1, key);
        if key == last.0 {
            lemma_index_of_at(added, n);
        } else {
            if has_key(front, key) {
                let j = choose|j: int| 0 <= j < front.len() && (#[trigger] front[j]).0 == key;
                assert(added[j] == front[j]);
                lemma_index_of_at(added, j);
                lemma_index_of_at(front, j);
            } else {
                if has_key(added, key) {
                    let j = choose|j: int| 0 <= j < added.len() && (#[trigger] added[j]).0 == key;
                    assert(j < n);
                    assert(front[j].0 == key);
                }
            }
        }
    } else {
        assert(!has_key(added, key));
    }
}

} // verus!
