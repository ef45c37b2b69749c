//! Keyed sequences as maps. The in-memory store models hold their records
//! in vectors; these definitions give each such vector a map model keyed by
//! the record's own key, together with the lemmas that relate the vector
//! operations (push, update, remove) to map operations.

use vstd::prelude::*;

verus! {

/// A record type with an intrinsic key.
pub trait Keyed {
    type K;

    spec fn key(&self) -> Self::K;
}

/// The map modeled by a keyed sequence; on duplicate keys the last
/// occurrence wins, but the stores maintain `keys_unique` throughout.
pub open spec fn assoc_map<T: Keyed>(s: Seq<T>) -> Map<T::K, T>
    decreases s.len(),
{
    if s.len() == 0 {
        Map::empty()
    } else {
        assoc_map(s.drop_last()).insert(s.last().key(), s.last())
    }
}

/// No two records share a key.
pub open spec fn keys_unique<T: Keyed>(s: Seq<T>) -> bool {
    forall|i: int, j: int| 0 <= i < j < s.len() ==> s[i].key() != s[j].key()
}

/// Membership in the map is existence of a record with that key.
pub proof fn lemma_assoc_contains<T: Keyed>(s: Seq<T>, k: T::K)
    ensures
        assoc_map(s).contains_key(k) <==> exists|i: int| 0 <= i < s.len() && s[i].key() == k,
    decreases s.len(),
{
    if s.len() == 0 {
    } else {
        lemma_assoc_contains(s.drop_last(), k);
        if s.last().key() == k {
            assert(s[s.len() - 1].key() == k);
        } else {
            if exists|i: int| 0 <= i < s.len() && s[i].key() == k {
                let i = choose|i: int| 0 <= i < s.len() && s[i].key() == k;
                assert(s.drop_last()[i] == s[i]);
            }
            if exists|i: int| 0 <= i < s.drop_last().len() && s.drop_last()[i].key() == k {
                let i = choose|i: int| 0 <= i < s.drop_last().len() && s.drop_last()[i].key()
                    == k;
                assert(s[i] == s.drop_last()[i]);
            }
        }
    }
}

/// Under unique keys, the map sends each record's key to that record.
pub proof fn lemma_assoc_get<T: Keyed>(s: Seq<T>, i: int)
    requires
        keys_unique(s),
        0 <= i < s.len(),
    ensures
        assoc_map(s).contains_key(s[i].key()),
        assoc_map(s)[s[i].key()] == s[i],
    decreases s.len(),
{
    if i == s.len() - 1 {
    } else {
        assert(s.drop_last()[i] == s[i]);
        lemma_assoc_get(s.drop_last(), i);
        assert(s.last().key() != s[i].key());
    }
}

/// Appending a record inserts it into the map.
pub proof fn lemma_assoc_push<T: Keyed>(s: Seq<T>, t: T)
    ensures
        assoc_map(s.push(t)) == assoc_map(s).insert(t.key(), t),
{
    assert(s.push(t).drop_last() =~= s);
    assert(s.push(t).last() == t);
}

/// Appending a record with a fresh key keeps the keys unique.
pub proof fn lemma_unique_push<T: Keyed>(s: Seq<T>, t: T)
    requires
        keys_unique(s),
        forall|i: int| 0 <= i < s.len() ==> s[i].key() != t.key(),
    ensures
        keys_unique(s.push(t)),
{
}

/// Replacing a record by one with the same key updates the map in place.
pub proof fn lemma_assoc_update<T: Keyed>(s: Seq<T>, i: int, t: T)
    requires
        keys_unique(s),
        0 <= i < s.len(),
        t.key() == s[i].key(),
    ensures
        assoc_map(s.update(i, t)) == assoc_map(s).insert(t.key(), t),
        keys_unique(s.update(i, t)),
    decreases s.len(),
{
    assert forall|p: int, q: int| 0 <= p < q < s.update(i, t).len() implies s.update(i, t)[p].key()
        != s.update(i, t)[q].key() by {
        assert(s.update(i, t)[p].key() == s[p].key());
        assert(s.update(i, t)[q].key() == s[q].key());
    }
    if i == s.len() - 1 {
        assert(s.update(i, t).drop_last() =~= s.drop_last());
        assert(s.update(i, t).last() == t);
        assert(assoc_map(s.update(i, t)) =~= assoc_map(s).insert(t.key(), t));
    } else {
        assert(s.update(i, t).drop_last() =~= s.drop_last().update(i, t));
        assert(s.update(i, t).last() == s.last());
        assert(s.drop_last()[i] == s[i]);
        lemma_assoc_update(s.drop_last(), i, t);
        assert(s.last().key() != t.key());
        assert(assoc_map(s.update(i, t)) =~= assoc_map(s).insert(t.key(), t));
    }
}

/// Removing a record removes its key from the map.
pub proof fn lemma_assoc_remove<T: Keyed>(s: Seq<T>, i: int)
    requires
        keys_unique(s),
        0 <= i < s.len(),
    ensures
        assoc_map(s.remove(i)) == assoc_map(s).remove(s[i].key()),
        keys_unique(s.remove(i)),
    decreases s.len(),
{
    let r = s.remove(i);
    assert forall|p: int, q: int| 0 <= p < q < r.len() implies r[p].key() != r[q].key() by {
        let p0: int = if p < i {
            p
        } else {
            p + 1
        };
        let q0: int = if q < i {
            q
        } else {
            q + 1
        };
        assert(r[p] == s[p0]);
        assert(r[q] == s[q0]);
    }
    if i == s.len() - 1 {
        assert(s.remove(i) =~= s.drop_last());
        lemma_assoc_contains(s.drop_last(), s[i].key());
        assert(forall|j: int|
            0 <= j < s.drop_last().len() ==> s.drop_last()[j] == s[j]
                && s.drop_last()[j].key() != s[i].key());
        assert(!assoc_map(s.drop_last()).contains_key(s[i].key()));
        assert(assoc_map(s.remove(i)) =~= assoc_map(s).remove(s[i].key()));
    } else {
        assert(s.remove(i).drop_last() =~= s.drop_last().remove(i));
        assert(s.remove(i).last() == s.last());
        assert(s.drop_last()[i] == s[i]);
        lemma_assoc_remove(s.drop_last(), i);
        assert(s.last().key() != s[i].key());
        assert(assoc_map(s.remove(i)) =~= assoc_map(s).remove(s[i].key()));
    }
}

} // verus!
