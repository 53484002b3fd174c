//! Lists of (key, value) entries read as finite maps.
//!
//! The keyed stores of this crate keep their entries in a vector in which no
//! key occurs twice. Their contracts speak of the map that such a list
//! stands for; the lemmas here say what pushing, replacing and removing an
//! entry does to that map.

use vstd::prelude::*;

verus! {

/// The map that a list of entries stands for. Of two entries with one key
/// the later one counts.
pub open spec fn to_map<K, V>(entries: Seq<(K, V)>) -> Map<K, V>
    decreases entries.len(),
{
    if entries.len() == 0 {
        Map::empty()
    } else {
        to_map(entries.drop_last()).insert(entries.last().0, entries.last().1)
    }
}

/// No key occurs in two entries.
pub open spec fn distinct_keys<K, V>(entries: Seq<(K, V)>) -> bool {
    forall|i: int, j: int| 0 <= i < j < entries.len() ==> entries[i].0 != entries[j].0
}

/// Some entry has the key `k`.
pub open spec fn has_key<K, V>(entries: Seq<(K, V)>, k: K) -> bool {
    exists|i: int| 0 <= i < entries.len() && entries[i].0 == k
}

/// The map of a list has exactly the keys of its entries, and they are
/// finitely many.
pub proof fn lemma_to_map_dom<K, V>(entries: Seq<(K, V)>)
    ensures
        to_map(entries).dom().finite(),
        forall|k: K| to_map(entries).contains_key(k) <==> has_key(entries, k),
    decreases entries.len(),
{
    if entries.len() > 0 {
        let front = entries.drop_last();
        lemma_to_map_dom(front);
        assert forall|k: K| to_map(entries).contains_key(k) <==> has_key(entries, k) by {
            if has_key(entries, k) {
                let i = choose|i: int| 0 <= i < entries.len() && entries[i].0 == k;
                if i < front.len() {
                    assert(front[i].0 == k);
                    assert(has_key(front, k));
                }
            }
            if to_map(entries).contains_key(k) {
                if k == entries.last().0 {
                    assert(entries[entries.len() - 1].0 == k);
                } else {
                    assert(has_key(front, k));
                    let i = choose|i: int| 0 <= i < front.len() && front[i].0 == k;
                    assert(entries[i].0 == k);
                }
            }
        }
    }
}

/// Where no key occurs twice, the map gives each entry's key that entry's
/// value.
pub proof fn lemma_to_map_at<K, V>(entries: Seq<(K, V)>, i: int)
    requires
        distinct_keys(entries),
        0 <= i < entries.len(),
    ensures
        to_map(entries).contains_key(entries[i].0),
        to_map(entries)[entries[i].0] == entries[i].1,
    decreases entries.len(),
{
    let front = entries.drop_last();
    if i < entries.len() - 1 {
        assert(distinct_keys(front)) by {
            assert forall|a: int, b: int| 0 <= a < b < front.len() implies front[a].0
                != front[b].0 by {
                assert(entries[a].0 != entries[b].0);
            }
        }
        lemma_to_map_at(front, i);
        assert(front[i] == entries[i]);
        assert(entries[i].0 != entries[entries.len() - 1].0);
    }
}

/// Pushing an entry inserts it into the map.
pub proof fn lemma_to_map_push<K, V>(entries: Seq<(K, V)>, k: K, v: V)
    ensures
        to_map(entries.push((k, v))) == to_map(entries).insert(k, v),
{
    assert(entries.push((k, v)).drop_last() =~= entries);
}

/// Where no key occurs twice, giving an entry a new value inserts that
/// value under the entry's key.
pub proof fn lemma_to_map_update<K, V>(entries: Seq<(K, V)>, i: int, v: V)
    requires
        distinct_keys(entries),
        0 <= i < entries.len(),
    ensures
        to_map(entries.update(i, (entries[i].0, v))) == to_map(entries).insert(entries[i].0, v),
        distinct_keys(entries.update(i, (entries[i].0, v))),
    decreases entries.len(),
{
    let after = entries.update(i, (entries[i].0, v));
    let front = entries.drop_last();
    assert(distinct_keys(after)) by {
        assert forall|a: int, b: int| 0 <= a < b < after.len() implies after[a].0 != after[b].0 by {
            assert(entries[a].0 != entries[b].0);
        }
    }
    if i == entries.len() - 1 {
        assert(after.drop_last() =~= front);
        assert(to_map(after) =~= to_map(entries).insert(entries[i].0, v));
    } else {
        assert(distinct_keys(front)) by {
            assert forall|a: int, b: int| 0 <= a < b < front.len() implies front[a].0
                != front[b].0 by {
                assert(entries[a].0 != entries[b].0);
            }
        }
        lemma_to_map_update(front, i, v);
        assert(front[i] == entries[i]);
        assert(after.drop_last() =~= front.update(i, (entries[i].0, v)));
        assert(after.last() == entries.last());
        assert(entries[i].0 != entries[entries.len() - 1].0);
        assert(to_map(after) =~= to_map(entries).insert(entries[i].0, v));
    }
}

/// Where no key occurs twice, taking an entry out removes its key from the
/// map.
pub proof fn lemma_to_map_remove<K, V>(entries: Seq<(K, V)>, i: int)
    requires
        distinct_keys(entries),
        0 <= i < entries.len(),
    ensures
        to_map(entries.remove(i)) == to_map(entries).remove(entries[i].0),
        distinct_keys(entries.remove(i)),
    decreases entries.len(),
{
    let after = entries.remove(i);
    let front = entries.drop_last();
    assert(distinct_keys(after)) by {
        assert forall|a: int, b: int| 0 <= a < b < after.len() implies after[a].0 != after[b].0 by {
            let a0 = if a < i { a } else { a + 1 };
            let b0 = if b < i { b } else { b + 1 };
            assert(entries[a0].0 != entries[b0].0);
        }
    }
    assert(distinct_keys(front)) by {
        assert forall|a: int, b: int| 0 <= a < b < front.len() implies front[a].0 != front[b].0 by {
            assert(entries[a].0 != entries[b].0);
        }
    }
    if i == entries.len() - 1 {
        assert(after =~= front);
        lemma_to_map_dom(front);
        assert(!to_map(front).contains_key(entries[i].0)) by {
            if has_key(front, entries[i].0) {
                let j = choose|j: int| 0 <= j < front.len() && front[j].0 == entries[i].0;
                assert(entries[j].0 != entries[i].0);
            }
        }
        assert(to_map(after) =~= to_map(entries).remove(entries[i].0));
    } else {
        lemma_to_map_remove(front, i);
        assert(front[i] == entries[i]);
        assert(after.drop_last() =~= front.remove(i));
        assert(after.last() == entries.last());
        assert(entries[i].0 != entries[entries.len() - 1].0);
        assert(to_map(after) =~= to_map(entries).remove(entries[i].0));
    }
}

/// Where no key occurs twice, the map has as many keys as the list has
/// entries.
pub proof fn lemma_to_map_len<K, V>(entries: Seq<(K, V)>)
    requires
        distinct_keys(entries),
    ensures
        to_map(entries).dom().finite(),
        to_map(entries).dom().len() == entries.len(),
    decreases entries.len(),
{
    lemma_to_map_dom(entries);
    if entries.len() > 0 {
        let front = entries.drop_last();
        assert(distinct_keys(front)) by {
            assert forall|a: int, b: int| 0 <= a < b < front.len() implies front[a].0
                != front[b].0 by {
                assert(entries[a].0 != entries[b].0);
            }
        }
        lemma_to_map_len(front);
        lemma_to_map_dom(front);
        assert(!to_map(front).contains_key(entries.last().0)) by {
            if has_key(front, entries.last().0) {
                let j = choose|j: int| 0 <= j < front.len() && front[j].0 == entries.last().0;
                assert(entries[j].0 != entries[entries.len() - 1].0);
            }
        }
        assert(to_map(entries).dom() =~= to_map(front).dom().insert(entries.last().0));
    }
}

} // verus!
