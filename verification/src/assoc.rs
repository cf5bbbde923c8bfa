//! Association lists with byte-string keys, read as maps.
//!
//! A list is given as two sequences of one length: the keys, and the value
//! that stands beside each. Where no key occurs twice the list is a map, and
//! replacing a value in place or adding a new key at the end is an insertion.

use vstd::prelude::*;

verus! {

/// Whether `key` stands at position `i` of `keys`.
pub open spec fn key_at(keys: Seq<Seq<u8>>, key: Seq<u8>, i: int) -> bool {
    0 <= i < keys.len() && keys[i] == key
}

/// Whether `key` stands nowhere in `keys`.
pub open spec fn key_absent(keys: Seq<Seq<u8>>, key: Seq<u8>) -> bool {
    forall|i: int| !key_at(keys, key, i)
}

/// Whether no key occurs twice.
pub open spec fn distinct_keys(keys: Seq<Seq<u8>>) -> bool {
    forall|i: int, j: int| 0 <= i < j < keys.len() ==> keys[i] != keys[j]
}

/// The map that sends each key to the value beside it.
pub open spec fn assoc_map<V>(keys: Seq<Seq<u8>>, values: Seq<V>) -> Map<Seq<u8>, V> {
    Map::new(
        |key: Seq<u8>| exists|i: int| key_at(keys, key, i),
        |key: Seq<u8>| values[choose|i: int| key_at(keys, key, i)],
    )
}

/// A key that stands at position `i` is mapped to the value at `i`.
pub proof fn lemma_assoc_lookup<V>(keys: Seq<Seq<u8>>, values: Seq<V>, key: Seq<u8>, i: int)
    requires
        distinct_keys(keys),
        key_at(keys, key, i),
    ensures
        assoc_map(keys, values).contains_key(key),
        assoc_map(keys, values)[key] == values[i],
{
    let chosen = choose|j: int| key_at(keys, key, j);
    assert(key_at(keys, key, chosen));
    if chosen < i {
        assert(keys[chosen] != keys[i]);
    } else if i < chosen {
        assert(keys[i] != keys[chosen]);
    }
}

/// A key that stands nowhere is not mapped.
pub proof fn lemma_assoc_absent<V>(keys: Seq<Seq<u8>>, values: Seq<V>, key: Seq<u8>)
    requires
        key_absent(keys, key),
    ensures
        !assoc_map(keys, values).contains_key(key),
{
}

/// Replacing the value beside the key at position `i` maps that key anew and
/// leaves every other key as it was.
pub proof fn lemma_assoc_update<V>(keys: Seq<Seq<u8>>, values: Seq<V>, i: int, value: V)
    requires
        distinct_keys(keys),
        keys.len() == values.len(),
        0 <= i < keys.len(),
    ensures
        assoc_map(keys, values.update(i, value)) == assoc_map(keys, values).insert(keys[i], value),
{
    let before = assoc_map(keys, values);
    let after = assoc_map(keys, values.update(i, value));
    assert(key_at(keys, keys[i], i));
    assert forall|key: Seq<u8>| #[trigger] after.contains_key(key) implies before.insert(keys[i], value)[key] == after[key] by {
        let j = choose|j: int| key_at(keys, key, j);
        lemma_assoc_lookup(keys, values, key, j);
        lemma_assoc_lookup(keys, values.update(i, value), key, j);
        if j != i && keys[j] == keys[i] {
            if j < i {
                assert(keys[j] != keys[i]);
            } else {
                assert(keys[i] != keys[j]);
            }
        }
    }
    assert(after =~= before.insert(keys[i], value));
}

/// Adding a key that stood nowhere, with its value, maps that key and leaves
/// every other key as it was; and still no key occurs twice.
pub proof fn lemma_assoc_push<V>(keys: Seq<Seq<u8>>, values: Seq<V>, key: Seq<u8>, value: V)
    requires
        distinct_keys(keys),
        keys.len() == values.len(),
        key_absent(keys, key),
    ensures
        distinct_keys(keys.push(key)),
        assoc_map(keys.push(key), values.push(value)) == assoc_map(keys, values).insert(key, value),
{
    let before = assoc_map(keys, values);
    let longer = keys.push(key);
    let after = assoc_map(longer, values.push(value));
    assert forall|i: int, j: int| 0 <= i < j < longer.len() implies longer[i] != longer[j] by {
        if j == keys.len() {
            assert(!key_at(keys, key, i));
        }
    }
    assert(key_at(longer, key, keys.len() as int));
    assert forall|q: Seq<u8>| after.contains_key(q) <==> before.insert(key, value).contains_key(q) by {
        if after.contains_key(q) {
            let j = choose|j: int| key_at(longer, q, j);
            if j < keys.len() {
                assert(key_at(keys, q, j));
            }
        }
        if before.contains_key(q) {
            let j = choose|j: int| key_at(keys, q, j);
            assert(key_at(longer, q, j));
        }
    }
    assert forall|q: Seq<u8>| #[trigger] after.contains_key(q) implies before.insert(key, value)[q] == after[q] by {
        let j = choose|j: int| key_at(longer, q, j);
        lemma_assoc_lookup(longer, values.push(value), q, j);
        if j < keys.len() {
            assert(key_at(keys, q, j));
            lemma_assoc_lookup(keys, values, q, j);
            assert(!key_at(keys, key, j));
        }
    }
    assert(after =~= before.insert(key, value));
}

} // verus!
