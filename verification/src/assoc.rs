//! Association sequences: the specification-level model shared by every
//! registry map in this crate.  Lookup takes the first entry whose key
//! matches; `assoc_set` replaces the first matching entry or appends.

use vstd::prelude::*;

verus! {

/// First-match lookup in an association sequence.
pub open spec fn assoc_get<K, V>(s: Seq<(K, V)>, key: K) -> Option<V>
    decreases s.len(),
{
    if s.len() == 0 {
        None
    } else if s[0].0 == key {
        Some(s[0].1)
    } else {
        assoc_get(s.drop_first(), key)
    }
}

pub open spec fn assoc_has<K, V>(s: Seq<(K, V)>, key: K) -> bool {
    assoc_get(s, key) is Some
}

/// Replace the value of the first entry with the given key, or append a new
/// entry when the key is absent.
pub open spec fn assoc_set<K, V>(s: Seq<(K, V)>, key: K, value: V) -> Seq<(K, V)>
    decreases s.len(),
{
    if s.len() == 0 {
        seq![(key, value)]
    } else if s[0].0 == key {
        seq![(key, value)] + s.drop_first()
    } else {
        seq![s[0]] + assoc_set(s.drop_first(), key, value)
    }
}

/// No two entries share a key.
pub open spec fn assoc_unique<K, V>(s: Seq<(K, V)>) -> bool {
    forall|i: int, j: int| 0 <= i < j < s.len() ==> s[i].0 != s[j].0
}

/// A key found at index `i`, with no earlier occurrence, is what `assoc_get`
/// returns.
pub proof fn lemma_assoc_get_found<K, V>(s: Seq<(K, V)>, key: K, i: int)
    requires
        0 <= i < s.len(),
        s[i].0 == key,
        forall|j: int| 0 <= j < i ==> s[j].0 != key,
    ensures
        assoc_get(s, key) == Some(s[i].1),
    decreases s.len(),
{
    if i == 0 {
    } else {
        lemma_assoc_get_found(s.drop_first(), key, i - 1);
    }
}

/// A key that occurs nowhere is not found.
pub proof fn lemma_assoc_get_missing<K, V>(s: Seq<(K, V)>, key: K)
    requires
        forall|j: int| 0 <= j < s.len() ==> s[j].0 != key,
    ensures
        assoc_get(s, key) == None::<V>,
    decreases s.len(),
{
    if s.len() > 0 {
        lemma_assoc_get_missing(s.drop_first(), key);
    }
}

/// `assoc_set` changes the lookup of the written key and no other.
pub proof fn lemma_assoc_get_set<K, V>(s: Seq<(K, V)>, key: K, value: V, probe: K)
    ensures
        probe == key ==> assoc_get(assoc_set(s, key, value), probe) == Some(value),
        probe != key ==> assoc_get(assoc_set(s, key, value), probe) == assoc_get(s, probe),
    decreases s.len(),
{
    let t = assoc_set(s, key, value);
    if s.len() == 0 {
        assert(t[0] == (key, value));
        if probe != key {
            assert(t.drop_first() =~= Seq::<(K, V)>::empty());
            assert(assoc_get(t, probe) == assoc_get(t.drop_first(), probe));
            assert(assoc_get(t, probe) == None::<V>);
            assert(assoc_get(s, probe) == None::<V>);
        }
    } else if s[0].0 == key {
        assert(t[0] == (key, value));
        assert(t.drop_first() =~= s.drop_first());
        if probe != key {
            assert(assoc_get(t, probe) == assoc_get(s.drop_first(), probe));
            assert(assoc_get(s, probe) == assoc_get(s.drop_first(), probe));
        }
    } else {
        lemma_assoc_get_set(s.drop_first(), key, value, probe);
        assert(t[0] == s[0]);
        assert(t.drop_first() =~= assoc_set(s.drop_first(), key, value));
        if probe != key {
            if s[0].0 == probe {
                assert(assoc_get(t, probe) == Some(t[0].1));
                assert(assoc_get(s, probe) == Some(s[0].1));
            } else {
                assert(assoc_get(t, probe) == assoc_get(assoc_set(s.drop_first(), key, value), probe));
                assert(assoc_get(s, probe) == assoc_get(s.drop_first(), probe));
            }
        }
    }
}

/// Writing a key found at index `i` (first occurrence) updates that entry in
/// place.
pub proof fn lemma_assoc_set_found<K, V>(s: Seq<(K, V)>, key: K, value: V, i: int)
    requires
        0 <= i < s.len(),
        s[i].0 == key,
        forall|j: int| 0 <= j < i ==> s[j].0 != key,
    ensures
        assoc_set(s, key, value) == s.update(i, (key, value)),
    decreases s.len(),
{
    if i == 0 {
        assert(assoc_set(s, key, value) =~= s.update(0, (key, value)));
    } else {
        lemma_assoc_set_found(s.drop_first(), key, value, i - 1);
        assert(s.drop_first().update(i - 1, (key, value)) =~= s.update(i, (key, value)).drop_first());
        assert(assoc_set(s, key, value) =~= s.update(i, (key, value)));
    }
}

/// Writing an absent key appends the entry.
pub proof fn lemma_assoc_set_missing<K, V>(s: Seq<(K, V)>, key: K, value: V)
    requires
        forall|j: int| 0 <= j < s.len() ==> s[j].0 != key,
    ensures
        assoc_set(s, key, value) == s.push((key, value)),
    decreases s.len(),
{
    if s.len() == 0 {
        assert(assoc_set(s, key, value) =~= s.push((key, value)));
    } else {
        lemma_assoc_set_missing(s.drop_first(), key, value);
        assert(assoc_set(s, key, value) =~= s.push((key, value)));
    }
}

/// `assoc_set` keeps keys unique.
pub proof fn lemma_assoc_set_unique<K, V>(s: Seq<(K, V)>, key: K, value: V)
    requires
        assoc_unique(s),
    ensures
        assoc_unique(assoc_set(s, key, value)),
{
    if assoc_has(s, key) {
        let i = choose|i: int|
            0 <= i < s.len() && s[i].0 == key && (forall|j: int| 0 <= j < i ==> s[j].0 != key);
        assert(exists|i: int|
            0 <= i < s.len() && s[i].0 == key && (forall|j: int| 0 <= j < i ==> s[j].0 != key)) by {
            lemma_assoc_first_occurrence(s, key);
        }
        lemma_assoc_set_found(s, key, value, i);
    } else {
        assert(forall|j: int| 0 <= j < s.len() ==> s[j].0 != key) by {
            lemma_assoc_no_occurrence(s, key);
        }
        lemma_assoc_set_missing(s, key, value);
    }
}

/// A found key has a first occurrence.
pub proof fn lemma_assoc_first_occurrence<K, V>(s: Seq<(K, V)>, key: K)
    requires
        assoc_has(s, key),
    ensures
        exists|i: int|
            0 <= i < s.len() && s[i].0 == key && (forall|j: int| 0 <= j < i ==> s[j].0 != key),
    decreases s.len(),
{
    if s[0].0 == key {
        assert(0 <= 0 < s.len() && s[0].0 == key && (forall|j: int| 0 <= j < 0 ==> s[j].0 != key));
    } else {
        lemma_assoc_first_occurrence(s.drop_first(), key);
        let i0 = choose|i: int|
            0 <= i < s.drop_first().len() && s.drop_first()[i].0 == key && (forall|j: int|
                0 <= j < i ==> s.drop_first()[j].0 != key);
        assert(s[i0 + 1].0 == key);
        assert(forall|j: int| 0 <= j < i0 + 1 ==> s[j].0 != key) by {
            assert(forall|j: int| 1 <= j < i0 + 1 ==> s[j] == s.drop_first()[j - 1]);
        }
    }
}

/// A key that `assoc_get` misses occurs nowhere.
pub proof fn lemma_assoc_no_occurrence<K, V>(s: Seq<(K, V)>, key: K)
    requires
        !assoc_has(s, key),
    ensures
        forall|j: int| 0 <= j < s.len() ==> s[j].0 != key,
    decreases s.len(),
{
    if s.len() > 0 {
        lemma_assoc_no_occurrence(s.drop_first(), key);
        assert(forall|j: int| 1 <= j < s.len() ==> s[j] == s.drop_first()[j - 1]);
    }
}

/// Pointwise effect of pushing an entry on lookups.
pub proof fn lemma_assoc_get_push<K, V>(s: Seq<(K, V)>, key: K, value: V, probe: K)
    ensures
        probe != key ==> assoc_get(s.push((key, value)), probe) == assoc_get(s, probe),
        probe == key && assoc_has(s, key) ==> assoc_get(s.push((key, value)), probe) == assoc_get(
            s,
            key,
        ),
        probe == key && !assoc_has(s, key) ==> assoc_get(s.push((key, value)), probe) == Some(
            value,
        ),
    decreases s.len(),
{
    let t = s.push((key, value));
    if s.len() == 0 {
        if probe != key {
            assert(t.drop_first() =~= Seq::<(K, V)>::empty());
            assert(assoc_get(t, probe) == assoc_get(t.drop_first(), probe));
        }
    } else {
        lemma_assoc_get_push(s.drop_first(), key, value, probe);
        assert(t[0] == s[0]);
        assert(t.drop_first() =~= s.drop_first().push((key, value)));
        if s[0].0 == probe {
        } else {
            assert(assoc_get(t, probe) == assoc_get(s.drop_first().push((key, value)), probe));
        }
    }
}

/// The effect of `assoc_set` on every lookup at once.
pub proof fn lemma_assoc_set_effect<K, V>(s: Seq<(K, V)>, key: K, value: V)
    ensures
        assoc_get(assoc_set(s, key, value), key) == Some(value),
        forall|probe: K|
            probe != key ==> #[trigger] assoc_get(assoc_set(s, key, value), probe) == assoc_get(
                s,
                probe,
            ),
{
    lemma_assoc_get_set(s, key, value, key);
    assert forall|probe: K| probe != key implies #[trigger] assoc_get(
        assoc_set(s, key, value),
        probe,
    ) == assoc_get(s, probe) by {
        lemma_assoc_get_set(s, key, value, probe);
    }
}

/// The effect of pushing an entry with an absent key on every lookup at once.
pub proof fn lemma_assoc_push_effect<K, V>(s: Seq<(K, V)>, key: K, value: V)
    requires
        !assoc_has(s, key),
    ensures
        assoc_get(s.push((key, value)), key) == Some(value),
        forall|probe: K|
            probe != key ==> #[trigger] assoc_get(s.push((key, value)), probe) == assoc_get(
                s,
                probe,
            ),
        assoc_unique(s) ==> assoc_unique(s.push((key, value))),
{
    lemma_assoc_get_push(s, key, value, key);
    assert forall|probe: K| probe != key implies #[trigger] assoc_get(
        s.push((key, value)),
        probe,
    ) == assoc_get(s, probe) by {
        lemma_assoc_get_push(s, key, value, probe);
    }
    lemma_assoc_no_occurrence(s, key);
    if assoc_unique(s) {
        let t = s.push((key, value));
        assert forall|i: int, j: int| 0 <= i < j < t.len() implies t[i].0 != t[j].0 by {
            if j == s.len() {
                assert(t[i] == s[i]);
            } else {
                assert(t[i] == s[i] && t[j] == s[j]);
            }
        }
    }
}

} // verus!
