//! Comparison and copying of the collections that memberships are made of.

use crate::text::ascending_members;
use std::collections::BTreeMap;
use std::collections::BTreeSet;
use vstd::prelude::*;
use vstd::std_specs::btree::spec_keys_iter;
use vstd::std_specs::iter::IteratorSpec;

verus! {

/// The sets behind a vector of sets.
pub open spec fn sets_view(v: Seq<BTreeSet<u64>>) -> Seq<Set<u64>> {
    v.map_values(|s: BTreeSet<u64>| s@)
}

/// The texts behind a map of strings.
pub open spec fn texts_view(m: Map<u64, String>) -> Map<u64, Seq<char>> {
    m.map_values(|s: String| s@)
}

/// Whether two byte strings are equal.
pub fn same_bytes(a: &[u8], b: &[u8]) -> (same: bool)
    ensures
        same == (a@ == b@),
{
    if a.len() != b.len() {
        return false;
    }
    let mut i: usize = 0;
    while i < a.len()
        invariant
            i <= a.len() == b.len(),
            a@.take(i as int) == b@.take(i as int),
        decreases a.len() - i,
    {
        if a[i] != b[i] {
            return false;
        }
        i += 1;
        assert(a@.take(i as int) =~= a@.take(i - 1).push(a@[i - 1]));
        assert(b@.take(i as int) =~= b@.take(i - 1).push(b@[i - 1]));
    }
    assert(a@ =~= a@.take(i as int));
    assert(b@ =~= b@.take(i as int));
    true
}

/// Whether two strings are equal.
pub fn same_text(a: &String, b: &String) -> (same: bool)
    ensures
        same == (a@ == b@),
{
    *a == *b
}

/// Whether two vectors of numbers are equal.
fn same_numbers(a: &Vec<u64>, b: &Vec<u64>) -> (same: bool)
    ensures
        same == (a@ == b@),
{
    if a.len() != b.len() {
        return false;
    }
    let mut i: usize = 0;
    while i < a.len()
        invariant
            i <= a.len() == b.len(),
            forall|j: int| 0 <= j < i ==> a@[j] == b@[j],
        decreases a.len() - i,
    {
        if a[i] != b[i] {
            return false;
        }
        i += 1;
    }
    assert(a@ =~= b@);
    true
}

/// Whether two sets have the same members.
pub fn same_set(a: &BTreeSet<u64>, b: &BTreeSet<u64>) -> (same: bool)
    ensures
        same == (a@ == b@),
{
    let left = ascending_members(a);
    let right = ascending_members(b);
    let same = same_numbers(&left, &right);
    proof {
        if same {
            assert(a@ =~= left@.to_set());
            assert(b@ =~= right@.to_set());
        }
    }
    same
}

/// Whether two vectors hold the same sets in the same order.
pub fn same_sets(a: &Vec<BTreeSet<u64>>, b: &Vec<BTreeSet<u64>>) -> (same: bool)
    ensures
        same == (sets_view(a@) == sets_view(b@)),
{
    if a.len() != b.len() {
        assert(sets_view(a@).len() != sets_view(b@).len());
        return false;
    }
    let mut i: usize = 0;
    while i < a.len()
        invariant
            i <= a.len() == b.len(),
            forall|j: int| 0 <= j < i ==> sets_view(a@)[j] == sets_view(b@)[j],
        decreases a.len() - i,
    {
        if !same_set(&a[i], &b[i]) {
            assert(sets_view(a@)[i as int] != sets_view(b@)[i as int]);
            return false;
        }
        i += 1;
    }
    assert(sets_view(a@) =~= sets_view(b@));
    true
}

/// A copy of a vector of sets.
pub fn copy_sets(a: &Vec<BTreeSet<u64>>) -> (copy: Vec<BTreeSet<u64>>)
    ensures
        sets_view(copy@) == sets_view(a@),
{
    let mut copy: Vec<BTreeSet<u64>> = Vec::new();
    let mut i: usize = 0;
    while i < a.len()
        invariant
            i <= a.len(),
            copy.len() == i,
            forall|j: int| 0 <= j < i ==> copy@[j]@ == a@[j]@,
        decreases a.len() - i,
    {
        copy.push(a[i].clone());
        i += 1;
    }
    assert(sets_view(copy@) =~= sets_view(a@));
    copy
}

/// The keys of a map, each once.
pub fn keys_of(map: &BTreeMap<u64, String>) -> (keys: Vec<u64>)
    ensures
        keys@.to_set() == map@.dom(),
{
    let mut keys: Vec<u64> = Vec::new();
    for x in it: map.keys()
        invariant
            it.seq() == spec_keys_iter(map).remaining(),
            keys@ == it.seq().unref().take(it.index()),
    {
        keys.push(*x);
        assert(keys@ =~= it.seq().unref().take(it.index() + 1));
    }
    assert(keys@ == spec_keys_iter(map).remaining().unref());
    keys
}

/// Whether every entry of `a` stands in `b` with the same text.
fn entries_within(a: &BTreeMap<u64, String>, b: &BTreeMap<u64, String>) -> (within: bool)
    ensures
        within == forall|k: u64|
            #![trigger a@.contains_key(k)]
            a@.contains_key(k) ==> b@.contains_key(k) && a@[k]@ == b@[k]@,
{
    let keys = keys_of(a);
    let mut i: usize = 0;
    while i < keys.len()
        invariant
            i <= keys.len(),
            keys@.to_set() == a@.dom(),
            forall|j: int|
                0 <= j < i ==> #[trigger] b@.contains_key(keys@[j]) && a@[keys@[j]]@ == b@[keys@[j]]@,
        decreases keys.len() - i,
    {
        let k: u64 = keys[i];
        assert(keys@.to_set().contains(k));
        assert(a@.contains_key(k));
        match (a.get(&k), b.get(&k)) {
            (Some(x), Some(y)) => {
                if !same_text(x, y) {
                    return false;
                }
            },
            _ => {
                return false;
            },
        }
        i += 1;
    }
    assert forall|k: u64| #![trigger a@.contains_key(k)] a@.contains_key(k) implies b@.contains_key(
        k,
    ) && a@[k]@ == b@[k]@ by {
        assert(keys@.to_set().contains(k));
        let j = choose|j: int| 0 <= j < keys@.len() && keys@[j] == k;
        assert(b@.contains_key(keys@[j]));
    }
    true
}

/// Whether two maps have the same keys with the same texts.
pub fn same_texts(a: &BTreeMap<u64, String>, b: &BTreeMap<u64, String>) -> (same: bool)
    ensures
        same == (texts_view(a@) == texts_view(b@)),
{
    let left = entries_within(a, b);
    let right = entries_within(b, a);
    proof {
        let x = texts_view(a@);
        let y = texts_view(b@);
        if left && right {
            assert forall|k: u64| x.contains_key(k) == y.contains_key(k) by {
                assert(a@.contains_key(k) == b@.contains_key(k));
            }
            assert forall|k: u64| x.contains_key(k) implies x[k] == y[k] by {
                assert(a@.contains_key(k));
            }
            assert(x =~= y);
        } else if x == y {
            assert forall|k: u64| #![trigger a@.contains_key(k)] a@.contains_key(
                k,
            ) implies b@.contains_key(k) && a@[k]@ == b@[k]@ by {
                assert(x.contains_key(k));
                assert(y.contains_key(k));
                assert(x[k] == y[k]);
            }
            assert forall|k: u64| #![trigger b@.contains_key(k)] b@.contains_key(
                k,
            ) implies a@.contains_key(k) && b@[k]@ == a@[k]@ by {
                assert(y.contains_key(k));
                assert(x.contains_key(k));
                assert(x[k] == y[k]);
            }
        }
    }
    left && right
}

/// Pushing an element adds it to the set of elements.
pub proof fn lemma_push_to_set(s: Seq<u64>, x: u64)
    ensures
        s.push(x).to_set() == s.to_set().insert(x),
{
    assert forall|y: u64| s.push(x).to_set().contains(y) == s.to_set().insert(x).contains(y) by {
        if y == x {
            assert(s.push(x)[s.len() as int] == y);
        } else if s.to_set().contains(y) {
            let j = choose|j: int| 0 <= j < s.len() && s[j] == y;
            assert(s.push(x)[j] == y);
        } else if s.push(x).to_set().contains(y) {
            let j = choose|j: int| 0 <= j < s.push(x).len() && s.push(x)[j] == y;
            assert(s[j] == y);
        }
    }
    assert(s.push(x).to_set() =~= s.to_set().insert(x));
}

/// The set of the numbers in `v`.
pub fn set_of(v: &Vec<u64>) -> (set: BTreeSet<u64>)
    ensures
        set@ == v@.to_set(),
{
    let mut set: BTreeSet<u64> = BTreeSet::new();
    let mut i: usize = 0;
    assert(v@.take(0).to_set() =~= Set::empty());
    while i < v.len()
        invariant
            i <= v.len(),
            set@ == v@.take(i as int).to_set(),
        decreases v.len() - i,
    {
        set.insert(v[i]);
        proof {
            lemma_push_to_set(v@.take(i as int), v@[i as int]);
            assert(v@.take(i + 1) =~= v@.take(i as int).push(v@[i as int]));
        }
        i += 1;
    }
    assert(v@.take(v.len() as int) =~= v@);
    set
}

/// What stands behind sets and texts is each of them, in its place.
pub proof fn law_views_keep_every_part(
    sets: Seq<BTreeSet<u64>>,
    i: int,
    texts: Map<u64, String>,
    key: u64,
)
    ensures
        sets_view(sets).len() == sets.len(),
        0 <= i < sets.len() ==> sets_view(sets)[i] == sets[i]@,
        texts_view(texts).contains_key(key) <==> texts.contains_key(key),
        texts.contains_key(key) ==> texts_view(texts)[key] == texts[key]@,
{
}

} // verus!
