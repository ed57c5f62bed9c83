//! Association lists: a sequence of (key, value) entries read as a map in
//! which the first entry for a key decides its value.

use vstd::prelude::*;

verus! {

/// The value listed for `k`: that of the first entry for `k`.
pub open spec fn listed<K, V>(s: Seq<(K, V)>, k: K) -> Option<V>
    decreases s.len(),
{
    if s.len() == 0 {
        None
    } else if s[0].0 == k {
        Some(s[0].1)
    } else {
        listed(s.drop_first(), k)
    }
}

/// The map that an association list stands for.
pub open spec fn listed_map<K, V>(s: Seq<(K, V)>) -> Map<K, V> {
    Map::new(|k: K| listed(s, k) is Some, |k: K| listed(s, k)->0)
}

/// `i` is the first entry for `k`.
pub open spec fn first_entry<K, V>(s: Seq<(K, V)>, k: K, i: int) -> bool {
    0 <= i < s.len() && s[i].0 == k && forall|j: int| 0 <= j < i ==> s[j].0 != k
}

/// The first entry for a key decides its value.
pub proof fn lemma_listed_first<K, V>(s: Seq<(K, V)>, k: K, i: int)
    requires
        first_entry(s, k, i),
    ensures
        listed(s, k) == Some(s[i].1),
    decreases s.len(),
{
    if i > 0 {
        assert(s[0].0 != k);
        assert forall|j: int| 0 <= j < i - 1 implies s.drop_first()[j].0 != k by {
            assert(s.drop_first()[j] == s[j + 1]);
        }
        lemma_listed_first(s.drop_first(), k, i - 1);
    }
}

/// A key named by no entry has no value.
pub proof fn lemma_listed_absent<K, V>(s: Seq<(K, V)>, k: K)
    requires
        forall|j: int| 0 <= j < s.len() ==> s[j].0 != k,
    ensures
        listed(s, k) is None,
    decreases s.len(),
{
    if s.len() > 0 {
        assert forall|j: int| 0 <= j < s.len() - 1 implies s.drop_first()[j].0 != k by {
            assert(s.drop_first()[j] == s[j + 1]);
        }
        lemma_listed_absent(s.drop_first(), k);
    }
}

/// A key named by some entry has a value.
pub proof fn lemma_listed_present<K, V>(s: Seq<(K, V)>, k: K, j: int)
    requires
        0 <= j < s.len(),
        s[j].0 == k,
    ensures
        listed(s, k) is Some,
    decreases s.len(),
{
    if s[0].0 != k {
        assert(s.drop_first()[j - 1] == s[j]);
        lemma_listed_present(s.drop_first(), k, j - 1);
    }
}

/// A key with a value has a first entry, which holds that value.
pub proof fn lemma_listed_witness<K, V>(s: Seq<(K, V)>, k: K) -> (i: int)
    requires
        listed(s, k) is Some,
    ensures
        first_entry(s, k, i),
        s[i].1 == listed(s, k)->0,
    decreases s.len(),
{
    if s[0].0 == k {
        0
    } else {
        let t = s.drop_first();
        let j = lemma_listed_witness(t, k);
        assert(s[j + 1] == t[j]);
        assert forall|m: int| 0 <= m < j + 1 implies s[m].0 != k by {
            if m > 0 {
                assert(s[m] == t[m - 1]);
            }
        }
        j + 1
    }
}

/// Overwriting the first entry for a key sets that key's value and no other.
pub proof fn lemma_listed_overwrite<K, V>(s: Seq<(K, V)>, k: K, i: int, v: V)
    requires
        first_entry(s, k, i),
    ensures
        listed_map(s.update(i, (k, v))) == listed_map(s).insert(k, v),
{
    let t = s.update(i, (k, v));
    assert forall|a: K| #[trigger] listed(t, a) == (if a == k { Some(v) } else { listed(s, a) }) by {
        if a == k {
            lemma_listed_first(t, a, i);
        } else if listed(s, a) is Some {
            let m = lemma_listed_witness(s, a);
            assert(m != i);
            lemma_listed_first(t, a, m);
        } else {
            assert forall|j: int| 0 <= j < t.len() implies t[j].0 != a by {
                if j != i && s[j].0 == a {
                    lemma_listed_present(s, a, j);
                }
            }
            lemma_listed_absent(t, a);
        }
    }
    assert(listed_map(t) =~= listed_map(s).insert(k, v));
}

/// Appending an entry for a key without a value sets that key's value and
/// no other.
pub proof fn lemma_listed_append<K, V>(s: Seq<(K, V)>, k: K, v: V)
    requires
        listed(s, k) is None,
    ensures
        listed_map(s.push((k, v))) == listed_map(s).insert(k, v),
{
    let t = s.push((k, v));
    assert forall|a: K| #[trigger] listed(t, a) == (if a == k { Some(v) } else { listed(s, a) }) by {
        if a == k {
            assert forall|j: int| 0 <= j < s.len() implies t[j].0 != a by {
                assert(t[j] == s[j]);
                if s[j].0 == a {
                    lemma_listed_present(s, a, j);
                }
            }
            lemma_listed_first(t, a, s.len() as int);
        } else if listed(s, a) is Some {
            let m = lemma_listed_witness(s, a);
            assert(t[m] == s[m]);
            assert forall|j: int| 0 <= j < m implies t[j].0 != a by {
                assert(t[j] == s[j]);
            }
            lemma_listed_first(t, a, m);
        } else {
            assert forall|j: int| 0 <= j < t.len() implies t[j].0 != a by {
                if j < s.len() {
                    assert(t[j] == s[j]);
                    if s[j].0 == a {
                        lemma_listed_present(s, a, j);
                    }
                }
            }
            lemma_listed_absent(t, a);
        }
    }
    assert(listed_map(t) =~= listed_map(s).insert(k, v));
}

} // verus!

verus! {

/// An association list keyed by strings, read through the characters of its
/// keys.
pub open spec fn key_views<V>(s: Seq<(String, V)>) -> Seq<(Seq<char>, V)> {
    s.map_values(|p: (String, V)| (p.0@, p.1))
}

/// The map that a string-keyed association list stands for.
pub open spec fn named_map<V>(s: Seq<(String, V)>) -> Map<Seq<char>, V> {
    listed_map(key_views(s))
}

/// No two entries have keys with the same characters, as in a map.
pub open spec fn names_distinct<V>(s: Seq<(String, V)>) -> bool {
    forall|i: int, j: int| 0 <= i < s.len() && 0 <= j < s.len() && i != j ==> s[i].0@ != s[j].0@
}

/// The position of the first entry whose key has the characters of `k`.
pub fn find_named<V>(s: &Vec<(String, V)>, k: &str) -> (r: Option<usize>)
    ensures
        match r {
            Some(i) => first_entry(key_views(s@), k@, i as int),
            None => listed(key_views(s@), k@) is None,
        },
{
    let mut i: usize = 0;
    while i < s.len()
        invariant
            i <= s.len(),
            forall|j: int| 0 <= j < i ==> key_views(s@)[j].0 != k@,
        decreases s.len() - i,
    {
        if crate::text::str_eq(s[i].0.as_str(), k) {
            return Some(i);
        }
        i = i + 1;
    }
    proof {
        lemma_listed_absent(key_views(s@), k@);
    }
    None
}

/// The position of the first entry named `n`, if there is one.
pub open spec fn slot_of<V>(s: Seq<(String, V)>, n: Seq<char>) -> Option<int> {
    if exists|i: int| first_entry(key_views(s), n, i) {
        Some(choose|i: int| first_entry(key_views(s), n, i))
    } else {
        None
    }
}

/// There is at most one first entry for a key.
pub proof fn lemma_first_entry_unique<K, V>(s: Seq<(K, V)>, k: K, i: int, j: int)
    requires
        first_entry(s, k, i),
        first_entry(s, k, j),
    ensures
        i == j,
{
    if i < j {
        assert(s[i].0 != k);
    } else if j < i {
        assert(s[j].0 != k);
    }
}

/// `find_named` finds the slot of a name.
pub proof fn lemma_slot_found<V>(s: Seq<(String, V)>, n: Seq<char>, i: int)
    requires
        first_entry(key_views(s), n, i),
    ensures
        slot_of(s, n) == Some(i),
{
    let j = choose|j: int| first_entry(key_views(s), n, j);
    lemma_first_entry_unique(key_views(s), n, i, j);
}

/// A name without a value has no slot.
pub proof fn lemma_slot_missing<V>(s: Seq<(String, V)>, n: Seq<char>)
    requires
        listed(key_views(s), n) is None,
    ensures
        slot_of(s, n) is None,
{
    if exists|i: int| first_entry(key_views(s), n, i) {
        let i = choose|i: int| first_entry(key_views(s), n, i);
        lemma_listed_first(key_views(s), n, i);
    }
}

/// Set the value of the entry named `k`, adding an entry if there is none.
pub fn set_named<V>(s: &mut Vec<(String, V)>, k: String, v: V)
    ensures
        named_map(final(s)@) == named_map(old(s)@).insert(k@, v),
        match slot_of(old(s)@, k@) {
            Some(i) => final(s)@ == old(s)@.update(i, (k, v)),
            None => final(s)@ == old(s)@.push((k, v)),
        },
        names_distinct(old(s)@) ==> names_distinct(final(s)@),
{
    let ghost before = s@;
    match find_named(s, k.as_str()) {
        Some(i) => {
            proof {
                lemma_slot_found(before, k@, i as int);
                lemma_listed_overwrite(key_views(before), k@, i as int, v);
            }
            s.set(i, (k, v));
            assert(key_views(s@) =~= key_views(before).update(i as int, (k@, v)));
            assert(key_views(before)[i as int].0 == k@);
        },
        None => {
            proof {
                lemma_slot_missing(before, k@);
                lemma_listed_append(key_views(before), k@, v);
            }
            s.push((k, v));
            assert(key_views(s@) =~= key_views(before).push((k@, v)));
            assert forall|j: int| 0 <= j < before.len() implies before[j].0@ != k@ by {
                if before[j].0@ == k@ {
                    assert(key_views(before)[j].0 == k@);
                    lemma_listed_present(key_views(before), k@, j);
                }
            }
        },
    }
}

/// The value of the entry named `k`, if there is one.
pub fn get_named<V: Copy>(s: &Vec<(String, V)>, k: &str) -> (r: Option<V>)
    ensures
        r == listed(key_views(s@), k@),
        r == named_map(s@).get(k@),
{
    match find_named(s, k) {
        Some(i) => {
            proof {
                lemma_listed_first(key_views(s@), k@, i as int);
            }
            Some(s[i].1)
        },
        None => None,
    }
}

} // verus!
