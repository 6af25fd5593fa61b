//! String-keyed maps held as association lists.
//!
//! The services keep small maps keyed by `String` (container state,
//! annotations, resource metadata, action context, tracked resources).
//! Here such a map is a `Vec<(String, V)>`, read as a map in which the
//! first entry of a key counts; `map_insert` replaces the value of an
//! existing key in place and appends a new key at the end, so a list built
//! by it holds no key twice.  `to_map` gives the mathematical map it stands
//! for.

use vstd::prelude::*;
use crate::text::str_eq;

verus! {

/// The first index at or after `i` whose key is `k`, or -1.
pub open spec fn key_index_from<V>(s: Seq<(String, V)>, k: Seq<char>, i: int) -> int
    decreases s.len() - i,
{
    if i < 0 || i >= s.len() {
        -1
    } else if s[i].0@ == k {
        i
    } else {
        key_index_from(s, k, i + 1)
    }
}

/// The index of key `k`, or -1 when it is absent.
pub open spec fn key_index<V>(s: Seq<(String, V)>, k: Seq<char>) -> int {
    key_index_from(s, k, 0)
}

/// The value stored under `k`, if any.
pub open spec fn find<V>(s: Seq<(String, V)>, k: Seq<char>) -> Option<V> {
    let i = key_index(s, k);
    if i >= 0 {
        Some(s[i].1)
    } else {
        None
    }
}

/// The map that an association list stands for.
pub open spec fn to_map<V>(s: Seq<(String, V)>) -> Map<Seq<char>, V> {
    Map::new(|k: Seq<char>| find(s, k) is Some, |k: Seq<char>| find(s, k)->Some_0)
}

/// The map of views that a list of string pairs stands for.
pub open spec fn str_map(s: Seq<(String, String)>) -> Map<Seq<char>, Seq<char>> {
    to_map(s).map_values(|v: String| v@)
}

/// No key occurs twice.
pub open spec fn keys_unique<V>(s: Seq<(String, V)>) -> bool {
    forall|i: int, j: int| 0 <= i < j < s.len() ==> s[i].0@ != s[j].0@
}

/// The list after storing `v` under `k`: the entry is replaced in place when
/// the key is present, appended otherwise.
pub open spec fn spec_insert<V>(s: Seq<(String, V)>, k: String, v: V) -> Seq<(String, V)> {
    let i = key_index(s, k@);
    if i >= 0 {
        s.update(i, (k, v))
    } else {
        s.push((k, v))
    }
}

/// What `key_index_from` returns is the first matching index at or after `i`.
pub proof fn lemma_key_index_from<V>(s: Seq<(String, V)>, k: Seq<char>, i: int)
    requires
        0 <= i,
    ensures
        ({
            let r = key_index_from(s, k, i);
            &&& (r == -1 || i <= r < s.len())
            &&& r >= 0 ==> s[r].0@ == k
            &&& forall|l: int| i <= l < s.len() && (r == -1 || l < r) ==> s[l].0@ != k
        }),
    decreases s.len() - i,
{
    if i < s.len() && s[i].0@ != k {
        lemma_key_index_from(s, k, i + 1);
    }
}

/// `key_index` is the first index holding the key, or -1 when none does.
pub proof fn lemma_key_index<V>(s: Seq<(String, V)>, k: Seq<char>)
    ensures
        ({
            let r = key_index(s, k);
            &&& (r == -1 || 0 <= r < s.len())
            &&& r >= 0 ==> s[r].0@ == k
            &&& forall|l: int| 0 <= l < s.len() && (r == -1 || l < r) ==> s[l].0@ != k
        }),
{
    lemma_key_index_from(s, k, 0);
}

/// Returns the value stored under `key`.
pub fn map_get<'a, V>(m: &'a Vec<(String, V)>, key: &str) -> (r: Option<&'a V>)
    ensures
        r is None <==> find(m@, key@) is None,
        r matches Some(v) ==> find(m@, key@) == Some(*v),
{
    match map_index(m, key) {
        Some(i) => Some(&m[i].1),
        None => None,
    }
}

/// Returns the index of `key`, if present.
pub fn map_index<V>(m: &Vec<(String, V)>, key: &str) -> (r: Option<usize>)
    ensures
        r is None <==> key_index(m@, key@) == -1,
        r matches Some(i) ==> key_index(m@, key@) == i && i < m@.len(),
{
    let n = m.len();
    let mut i: usize = 0;
    while i < n
        invariant
            n == m@.len(),
            i <= n,
            key_index(m@, key@) == key_index_from(m@, key@, i as int),
        decreases n - i,
    {
        if str_eq(m[i].0.as_str(), key) {
            return Some(i);
        }
        i = i + 1;
    }
    None
}

/// Stores `value` under `key`.
pub fn map_insert<V>(m: &mut Vec<(String, V)>, key: String, value: V)
    ensures
        final(m)@ == spec_insert(old(m)@, key, value),
{
    match map_index(m, key.as_str()) {
        Some(i) => {
            m.set(i, (key, value));
        },
        None => {
            m.push((key, value));
        },
    }
}

/// A read after a write of the same key gives the written value.
pub proof fn lemma_find_insert_same<V>(s: Seq<(String, V)>, k: String, v: V)
    ensures
        find(spec_insert(s, k, v), k@) == Some(v),
{
    let i = key_index(s, k@);
    lemma_key_index(s, k@);
    let t = spec_insert(s, k, v);
    lemma_key_index(t, k@);
    let r = key_index(t, k@);
    if i < 0 {
        assert(t[s.len() as int].0@ == k@);
        if 0 <= r < s.len() {
            assert(t[r] == s[r]);
        }
    } else {
        assert(t[i].0@ == k@);
        if 0 <= r < i {
            assert(t[r] == s[r]);
        }
    }
    assert(r == (if i < 0 {
        s.len() as int
    } else {
        i
    }));
}

/// A write leaves every other key's value as it was.
pub proof fn lemma_find_insert_other<V>(s: Seq<(String, V)>, k: String, v: V, other: Seq<char>)
    requires
        other != k@,
    ensures
        find(spec_insert(s, k, v), other) == find(s, other),
{
    lemma_key_index(s, k@);
    lemma_key_index(s, other);
    let t = spec_insert(s, k, v);
    lemma_key_index(t, other);
    let a = key_index(s, other);
    let b = key_index(t, other);
    if a >= 0 {
        assert(t[a].0@ == other);
    }
    if b >= 0 && b < s.len() {
        assert(s[b].0@ == other);
    }
}

/// Storing a value is `Map::insert` on the map the list stands for.
pub proof fn lemma_to_map_insert<V>(s: Seq<(String, V)>, k: String, v: V)
    ensures
        to_map(spec_insert(s, k, v)) == to_map(s).insert(k@, v),
{
    assert forall|x: Seq<char>| find(spec_insert(s, k, v), x) == (if x == k@ {
        Some(v)
    } else {
        find(s, x)
    }) by {
        if x == k@ {
            lemma_find_insert_same(s, k, v);
        } else {
            lemma_find_insert_other(s, k, v, x);
        }
    }
    assert(to_map(spec_insert(s, k, v)) =~= to_map(s).insert(k@, v));
}

/// Storing a string is `Map::insert` on the map of views.
pub proof fn lemma_str_map_insert(s: Seq<(String, String)>, k: String, v: String)
    ensures
        str_map(spec_insert(s, k, v)) == str_map(s).insert(k@, v@),
{
    lemma_to_map_insert(s, k, v);
    assert(str_map(spec_insert(s, k, v)) =~= str_map(s).insert(k@, v@));
}

/// A write keeps keys unique.
pub proof fn lemma_insert_keeps_unique<V>(s: Seq<(String, V)>, k: String, v: V)
    requires
        keys_unique(s),
    ensures
        keys_unique(spec_insert(s, k, v)),
{
    lemma_key_index(s, k@);
}

/// Removing an entry keeps keys unique.
pub proof fn lemma_remove_at_keeps_unique<V>(s: Seq<(String, V)>, i: int)
    requires
        keys_unique(s),
        0 <= i < s.len(),
    ensures
        keys_unique(s.remove(i)),
{
    let r = s.remove(i);
    assert forall|a: int, b: int| 0 <= a < b < r.len() implies r[a].0@ != r[b].0@ by {
        let a2 = if a < i { a } else { a + 1 };
        let b2 = if b < i { b } else { b + 1 };
        assert(r[a] == s[a2]);
        assert(r[b] == s[b2]);
    }
}

/// In a list without repeated keys, the entry at index `i` is what its key
/// finds.
pub proof fn lemma_find_unique<V>(s: Seq<(String, V)>, i: int)
    requires
        keys_unique(s),
        0 <= i < s.len(),
    ensures
        find(s, s[i].0@) == Some(s[i].1),
{
    lemma_key_index(s, s[i].0@);
}

/// The list after removing key `k`: its entry is taken out, the others
/// keep their order.
pub open spec fn spec_remove<V>(s: Seq<(String, V)>, k: Seq<char>) -> Seq<(String, V)> {
    let i = key_index(s, k);
    if i >= 0 {
        s.remove(i)
    } else {
        s
    }
}

/// Removes the entry of `key`, returning its value.
pub fn map_remove<V>(m: &mut Vec<(String, V)>, key: &str) -> (r: Option<V>)
    ensures
        final(m)@ == spec_remove(old(m)@, key@),
        r == find(old(m)@, key@),
{
    proof {
        lemma_key_index(m@, key@);
    }
    match map_index(m, key) {
        Some(i) => {
            let (_, v) = m.remove(i);
            Some(v)
        },
        None => None,
    }
}

/// Removing a key from a list without repeated keys is `Map::remove` on
/// the map it stands for, and keeps keys unique.
pub proof fn lemma_to_map_remove<V>(s: Seq<(String, V)>, k: Seq<char>)
    requires
        keys_unique(s),
    ensures
        to_map(spec_remove(s, k)) == to_map(s).remove(k),
        keys_unique(spec_remove(s, k)),
{
    let t = spec_remove(s, k);
    let i = key_index(s, k);
    lemma_key_index(s, k);
    if i >= 0 {
        assert forall|x: Seq<char>| find(t, x) == (if x == k {
            None
        } else {
            find(s, x)
        }) by {
            lemma_key_index(t, x);
            lemma_key_index(s, x);
            let a = key_index(s, x);
            let b = key_index(t, x);
            if x == k {
                if b >= 0 {
                    if b < i {
                        assert(t[b] == s[b]);
                    } else {
                        assert(t[b] == s[b + 1]);
                    }
                }
            } else {
                if a >= 0 {
                    if a < i {
                        assert(t[a] == s[a]);
                    } else {
                        assert(a != i);
                        assert(t[a - 1] == s[a]);
                    }
                }
                if b >= 0 {
                    if b < i {
                        assert(t[b] == s[b]);
                    } else {
                        assert(t[b] == s[b + 1]);
                    }
                }
            }
        }
        assert forall|p: int, q: int| 0 <= p < q < t.len() implies t[p].0@ != t[q].0@ by {
            let pp = if p < i { p } else { p + 1 };
            let qq = if q < i { q } else { q + 1 };
            assert(t[p] == s[pp]);
            assert(t[q] == s[qq]);
        }
        assert(to_map(t) =~= to_map(s).remove(k));
    } else {
        assert(to_map(t) =~= to_map(s).remove(k));
    }
}

} // verus!
