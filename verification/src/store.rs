//! In-memory tables that back the bridge state.
//!
//! A table is a vector of entries searched by key, abstracted in contracts
//! as a `Map` from key views to value views; a key set is a vector of keys
//! abstracted as a `Set` of key views. Every operation is verified against
//! that abstraction.

use vstd::prelude::*;

verus! {

/// A type usable as a table key: runtime equality must coincide with
/// equality of views.
pub trait AssocKey: View + Sized {
    fn key_eq(&self, other: &Self) -> (r: bool)
        ensures
            r == (self@ == other@),
    ;
}

impl AssocKey for String {
    fn key_eq(&self, other: &Self) -> (r: bool) {
        self.eq(other)
    }
}

impl AssocKey for u64 {
    fn key_eq(&self, other: &Self) -> (r: bool) {
        *self == *other
    }
}

impl AssocKey for (String, String) {
    fn key_eq(&self, other: &Self) -> (r: bool) {
        self.0.eq(&other.0) && self.1.eq(&other.1)
    }
}

/// The map described by a sequence of entries; a later entry for a key
/// shadows an earlier one.
pub open spec fn assoc_map_of<K: View, V: View>(entries: Seq<(K, V)>) -> Map<K::V, V::V>
    decreases entries.len(),
{
    if entries.len() == 0 {
        Map::empty()
    } else {
        assoc_map_of(entries.drop_last()).insert(entries.last().0@, entries.last().1@)
    }
}

/// No two entries carry the same key.
pub open spec fn distinct_keys<K: View, V: View>(entries: Seq<(K, V)>) -> bool {
    forall|i: int, j: int|
        0 <= i < j < entries.len() ==> entries[i].0@ != entries[j].0@
}

/// An entry's key is in the map.
pub proof fn lemma_assoc_contains_index<K: View, V: View>(entries: Seq<(K, V)>, i: int)
    requires
        0 <= i < entries.len(),
    ensures
        assoc_map_of(entries).contains_key(entries[i].0@),
    decreases entries.len(),
{
    if i < entries.len() - 1 {
        assert(entries.drop_last()[i] == entries[i]);
        lemma_assoc_contains_index(entries.drop_last(), i);
    }
}

/// A key carried by no entry is not in the map.
pub proof fn lemma_assoc_absent<K: View, V: View>(entries: Seq<(K, V)>, k: K::V)
    requires
        forall|i: int| 0 <= i < entries.len() ==> entries[i].0@ != k,
    ensures
        !assoc_map_of(entries).contains_key(k),
    decreases entries.len(),
{
    if entries.len() > 0 {
        assert forall|i: int| 0 <= i < entries.drop_last().len()
            implies entries.drop_last()[i].0@ != k by {
            assert(entries.drop_last()[i] == entries[i]);
        }
        lemma_assoc_absent(entries.drop_last(), k);
        assert(entries[entries.len() - 1].0@ != k);
    }
}

/// A key in the map is carried by some entry.
pub proof fn lemma_assoc_exists<K: View, V: View>(entries: Seq<(K, V)>, k: K::V)
    requires
        assoc_map_of(entries).contains_key(k),
    ensures
        exists|i: int| 0 <= i < entries.len() && entries[i].0@ == k,
{
    if !(exists|i: int| 0 <= i < entries.len() && entries[i].0@ == k) {
        lemma_assoc_absent::<K, V>(entries, k);
    }
}

/// With distinct keys, the map sends each entry's key to that entry's value.
pub proof fn lemma_assoc_get<K: View, V: View>(entries: Seq<(K, V)>, i: int)
    requires
        distinct_keys(entries),
        0 <= i < entries.len(),
    ensures
        assoc_map_of(entries).contains_key(entries[i].0@),
        assoc_map_of(entries)[entries[i].0@] == entries[i].1@,
    decreases entries.len(),
{
    if i < entries.len() - 1 {
        assert(entries.drop_last()[i] == entries[i]);
        lemma_assoc_get(entries.drop_last(), i);
        assert(entries.last().0@ != entries[i].0@);
    }
}

/// With distinct keys, removing an entry removes exactly its key.
pub proof fn lemma_assoc_remove<K: View, V: View>(entries: Seq<(K, V)>, i: int)
    requires
        distinct_keys(entries),
        0 <= i < entries.len(),
    ensures
        assoc_map_of(entries.remove(i)) =~= assoc_map_of(entries).remove(entries[i].0@),
    decreases entries.len(),
{
    if i == entries.len() - 1 {
        assert(entries.remove(i) =~= entries.drop_last());
        assert forall|j: int| 0 <= j < entries.drop_last().len()
            implies entries.drop_last()[j].0@ != entries[i].0@ by {
            assert(entries[j].0@ != entries[i].0@);
        }
        lemma_assoc_absent::<K, V>(entries.drop_last(), entries[i].0@);
    } else {
        let removed = entries.remove(i);
        assert(removed.drop_last() =~= entries.drop_last().remove(i));
        assert(removed.last() == entries.last());
        lemma_assoc_remove(entries.drop_last(), i);
        assert(entries.last().0@ != entries[i].0@);
    }
}

/// Entry lists equal under the view describe the same map.
pub proof fn lemma_assoc_congruence<K: View, V: View>(a: Seq<(K, V)>, b: Seq<(K, V)>)
    requires
        a.len() == b.len(),
        forall|i: int| 0 <= i < a.len() ==> a[i].0@ == b[i].0@ && a[i].1@ == b[i].1@,
    ensures
        assoc_map_of(a) == assoc_map_of(b),
    decreases a.len(),
{
    if a.len() > 0 {
        assert forall|i: int| 0 <= i < a.drop_last().len()
            implies a.drop_last()[i].0@ == b.drop_last()[i].0@ && a.drop_last()[i].1@
            == b.drop_last()[i].1@ by {
            assert(a.drop_last()[i] == a[i]);
            assert(b.drop_last()[i] == b[i]);
        }
        lemma_assoc_congruence(a.drop_last(), b.drop_last());
        assert(a.last().0@ == b.last().0@ && a.last().1@ == b.last().1@);
    } else {
        assert(assoc_map_of(a) =~= assoc_map_of(b));
    }
}

/// A table of key-value entries, read through the map of their views.
pub struct AssocTable<K, V> {
    pub entries: Vec<(K, V)>,
}

impl<K: View, V: View> View for AssocTable<K, V> {
    type V = Map<K::V, V::V>;

    open spec fn view(&self) -> Map<K::V, V::V> {
        assoc_map_of(self.entries@)
    }
}

impl<K: AssocKey, V: View> AssocTable<K, V> {
    /// The representation keeps one entry per key, so that walking the
    /// entries walks the map.
    pub open spec fn wf(&self) -> bool {
        distinct_keys(self.entries@)
    }

    pub fn new() -> (r: Self)
        ensures
            r@ == Map::<K::V, V::V>::empty(),
            r.wf(),
            r.entries@.len() == 0,
    {
        AssocTable { entries: Vec::new() }
    }

    /// Index of the entry carrying the key, if any.
    fn position(&self, k: &K) -> (r: Option<usize>)
        ensures
            match r {
                Some(i) => i < self.entries@.len() && self.entries@[i as int].0@ == k@,
                None => forall|i: int| 0 <= i < self.entries@.len()
                    ==> self.entries@[i].0@ != k@,
            },
    {
        let n = self.entries.len();
        let mut i: usize = 0;
        while i < n
            invariant
                i <= n,
                n == self.entries@.len(),
                forall|j: int| 0 <= j < i ==> self.entries@[j].0@ != k@,
            decreases n - i,
        {
            if self.entries[i].0.key_eq(k) {
                return Some(i);
            }
            i = i + 1;
        }
        None
    }

    pub fn contains_key(&self, k: &K) -> (r: bool)
        ensures
            r == self@.contains_key(k@),
    {
        match self.position(k) {
            Some(i) => {
                proof {
                    lemma_assoc_contains_index::<K, V>(self.entries@, i as int);
                }
                true
            }
            None => {
                proof {
                    lemma_assoc_absent::<K, V>(self.entries@, k@);
                }
                false
            }
        }
    }

    pub fn get(&self, k: &K) -> (r: Option<&V>)
        requires
            self.wf(),
        ensures
            match r {
                Some(v) => self@.contains_key(k@) && self@[k@] == v@,
                None => !self@.contains_key(k@),
            },
    {
        match self.position(k) {
            Some(i) => {
                proof {
                    lemma_assoc_get(self.entries@, i as int);
                }
                Some(&self.entries[i].1)
            }
            None => {
                proof {
                    lemma_assoc_absent::<K, V>(self.entries@, k@);
                }
                None
            }
        }
    }

    /// Binds the key to the value, replacing an earlier binding if any.
    pub fn insert(&mut self, k: K, v: V)
        requires
            old(self).wf(),
        ensures
            final(self).wf(),
            final(self)@ == old(self)@.insert(k@, v@),
            final(self).entries@.len() <= old(self).entries@.len() + 1,
    {
        let ghost pre = self.entries@;
        match self.position(&k) {
            Some(i) => {
                proof {
                    lemma_assoc_remove(pre, i as int);
                }
                self.entries.remove(i);
                let ghost mid = self.entries@;
                self.entries.push((k, v));
                proof {
                    assert(self.entries@.drop_last() =~= mid);
                    assert(self@ =~= old(self)@.insert(k@, v@));
                    assert forall|a: int, b: int|
                        0 <= a < b < self.entries@.len()
                        implies self.entries@[a].0@ != self.entries@[b].0@ by {
                        if b < self.entries@.len() - 1 {
                            assert(mid[a] == self.entries@[a]);
                            assert(mid[b] == self.entries@[b]);
                        } else {
                            assert(self.entries@[a] == mid[a]);
                            if a < i {
                                assert(mid[a] == pre[a]);
                            } else {
                                assert(mid[a] == pre[a + 1]);
                            }
                        }
                    }
                }
            }
            None => {
                self.entries.push((k, v));
                proof {
                    assert(self.entries@.drop_last() =~= pre);
                    assert forall|a: int, b: int|
                        0 <= a < b < self.entries@.len()
                        implies self.entries@[a].0@ != self.entries@[b].0@ by {
                        if b < self.entries@.len() - 1 {
                            assert(pre[a] == self.entries@[a]);
                            assert(pre[b] == self.entries@[b]);
                        } else {
                            assert(self.entries@[a] == pre[a]);
                        }
                    }
                }
            }
        }
    }
}

/// A type whose values can be copied exactly.
pub trait ExactClone: Sized {
    fn exact_clone(&self) -> (r: Self)
        ensures
            r == *self,
    ;
}

impl ExactClone for String {
    fn exact_clone(&self) -> (r: Self) {
        self.clone()
    }
}

impl ExactClone for u64 {
    fn exact_clone(&self) -> (r: Self) {
        *self
    }
}

impl ExactClone for u128 {
    fn exact_clone(&self) -> (r: Self) {
        *self
    }
}

impl<A: ExactClone, B: ExactClone> ExactClone for (A, B) {
    fn exact_clone(&self) -> (r: Self) {
        (self.0.exact_clone(), self.1.exact_clone())
    }
}

impl<A: ExactClone> ExactClone for Option<A> {
    fn exact_clone(&self) -> (r: Self) {
        match self {
            Some(a) => Some(a.exact_clone()),
            None => None,
        }
    }
}

/// Copies a table of exactly copyable entries.
pub fn clone_table<K: AssocKey + ExactClone, V: View + ExactClone>(t: &AssocTable<K, V>) -> (r:
    AssocTable<K, V>)
    ensures
        r.entries@ == t.entries@,
        r@ == t@,
{
    let n = t.entries.len();
    let mut entries: Vec<(K, V)> = Vec::new();
    let mut i: usize = 0;
    while i < n
        invariant
            i <= n,
            n == t.entries@.len(),
            entries@.len() == i,
            forall|j: int| 0 <= j < i ==> entries@[j] == t.entries@[j],
        decreases n - i,
    {
        entries.push((t.entries[i].0.exact_clone(), t.entries[i].1.exact_clone()));
        i = i + 1;
    }
    proof {
        assert(entries@ =~= t.entries@);
    }
    AssocTable { entries }
}

/// Copies a key set of exactly copyable keys.
pub fn clone_keys<K: AssocKey + ExactClone>(s: &KeySet<K>) -> (r: KeySet<K>)
    ensures
        r.items@ == s.items@,
        r@ == s@,
{
    let n = s.items.len();
    let mut items: Vec<K> = Vec::new();
    let mut i: usize = 0;
    while i < n
        invariant
            i <= n,
            n == s.items@.len(),
            items@.len() == i,
            forall|j: int| 0 <= j < i ==> items@[j] == s.items@[j],
        decreases n - i,
    {
        items.push(s.items[i].exact_clone());
        i = i + 1;
    }
    proof {
        assert(items@ =~= s.items@);
    }
    KeySet { items }
}

/// The set described by a sequence of keys.
pub open spec fn key_set_of<K: View>(items: Seq<K>) -> Set<K::V>
    decreases items.len(),
{
    if items.len() == 0 {
        Set::empty()
    } else {
        key_set_of(items.drop_last()).insert(items.last()@)
    }
}

/// An item's view is in the set.
pub proof fn lemma_key_set_contains_index<K: View>(items: Seq<K>, i: int)
    requires
        0 <= i < items.len(),
    ensures
        key_set_of(items).contains(items[i]@),
    decreases items.len(),
{
    if i < items.len() - 1 {
        assert(items.drop_last()[i] == items[i]);
        lemma_key_set_contains_index(items.drop_last(), i);
    }
}

/// A key carried by no item is not in the set.
pub proof fn lemma_key_set_absent<K: View>(items: Seq<K>, k: K::V)
    requires
        forall|i: int| 0 <= i < items.len() ==> items[i]@ != k,
    ensures
        !key_set_of(items).contains(k),
    decreases items.len(),
{
    if items.len() > 0 {
        assert forall|i: int| 0 <= i < items.drop_last().len()
            implies items.drop_last()[i]@ != k by {
            assert(items.drop_last()[i] == items[i]);
        }
        lemma_key_set_absent(items.drop_last(), k);
        assert(items[items.len() - 1]@ != k);
    }
}

/// A set of keys, read through the set of their views.
pub struct KeySet<K> {
    pub items: Vec<K>,
}

impl<K: View> View for KeySet<K> {
    type V = Set<K::V>;

    open spec fn view(&self) -> Set<K::V> {
        key_set_of(self.items@)
    }
}

impl<K: AssocKey> KeySet<K> {
    pub fn new() -> (r: Self)
        ensures
            r@ == Set::<K::V>::empty(),
    {
        KeySet { items: Vec::new() }
    }

    pub fn contains(&self, k: &K) -> (r: bool)
        ensures
            r == self@.contains(k@),
    {
        let n = self.items.len();
        let mut i: usize = 0;
        while i < n
            invariant
                i <= n,
                n == self.items@.len(),
                forall|j: int| 0 <= j < i ==> self.items@[j]@ != k@,
            decreases n - i,
        {
            if self.items[i].key_eq(k) {
                proof {
                    lemma_key_set_contains_index(self.items@, i as int);
                }
                return true;
            }
            i = i + 1;
        }
        proof {
            lemma_key_set_absent(self.items@, k@);
        }
        false
    }

    pub fn insert(&mut self, k: K)
        ensures
            final(self)@ == old(self)@.insert(k@),
    {
        self.items.push(k);
        proof {
            assert(self.items@.drop_last() =~= old(self).items@);
        }
    }
}

} // verus!
