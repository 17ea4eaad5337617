//! A map from text keys to values, kept as an association list.
use vstd::prelude::*;

use crate::text::str_eq;

verus! {

/// A map keyed by strings. Each key occurs at most once; entries keep the
/// order in which their keys were first inserted.
pub struct StrMap<V> {
    entries: Vec<(String, V)>,
}

impl<V> StrMap<V> {
    /// Each key occurs in at most one entry.
    pub closed spec fn wf(&self) -> bool {
        forall|i: int, j: int|
            0 <= i < self.entries@.len() && 0 <= j < self.entries@.len() && i != j
                ==> #[trigger] self.entries@[i].0@ != #[trigger] self.entries@[j].0@
    }

    /// The keys, in insertion order.
    pub closed spec fn keys(&self) -> Seq<Seq<char>> {
        self.entries@.map_values(|e: (String, V)| e.0@)
    }

    closed spec fn has_key(&self, k: Seq<char>) -> bool {
        exists|i: int| 0 <= i < self.entries@.len() && #[trigger] self.entries@[i].0@ == k
    }

    closed spec fn index_of(&self, k: Seq<char>) -> int {
        choose|i: int| 0 <= i < self.entries@.len() && #[trigger] self.entries@[i].0@ == k
    }

    /// The contents as a map.
    pub closed spec fn map(&self) -> Map<Seq<char>, V> {
        Map::new(|k: Seq<char>| self.has_key(k), |k: Seq<char>| self.entries@[self.index_of(k)].1)
    }

    proof fn lemma_index_of(&self, i: int)
        requires
            self.wf(),
            0 <= i < self.entries@.len(),
        ensures
            self.has_key(self.entries@[i].0@),
            self.index_of(self.entries@[i].0@) == i,
            self.map().dom().contains(self.entries@[i].0@),
            self.map()[self.entries@[i].0@] == self.entries@[i].1,
    {
        let k = self.entries@[i].0@;
        assert(self.has_key(k));
        let j = self.index_of(k);
        assert(self.entries@[j].0@ == k);
    }

    /// An empty map.
    pub fn new() -> (m: Self)
        ensures
            m.wf(),
            m.map() == Map::<Seq<char>, V>::empty(),
            m.keys() == Seq::<Seq<char>>::empty(),
    {
        let m = StrMap { entries: Vec::new() };
        assert(m.map() =~= Map::<Seq<char>, V>::empty());
        assert(m.keys() =~= Seq::<Seq<char>>::empty());
        m
    }

    /// The number of keys.
    pub fn len(&self) -> (n: usize)
        requires
            self.wf(),
        ensures
            n == self.keys().len(),
    {
        self.entries.len()
    }

    fn find(&self, key: &str) -> (r: Option<usize>)
        requires
            self.wf(),
        ensures
            r matches Some(i) ==> i < self.entries@.len() && self.entries@[i as int].0@ == key@,
            r is None ==> !self.map().dom().contains(key@),
            r is None <==> !self.has_key(key@),
    {
        let mut i: usize = 0;
        while i < self.entries.len()
            invariant
                i <= self.entries@.len(),
                forall|j: int| 0 <= j < i ==> #[trigger] self.entries@[j].0@ != key@,
            decreases self.entries.len() - i,
        {
            if str_eq(self.entries[i].0.as_str(), key) {
                return Some(i);
            }
            i = i + 1;
        }
        None
    }

    /// Whether `key` is present.
    pub fn contains_key(&self, key: &str) -> (r: bool)
        requires
            self.wf(),
        ensures
            r == self.map().dom().contains(key@),
    {
        match self.find(key) {
            Some(i) => {
                proof { self.lemma_index_of(i as int); }
                true
            },
            None => false,
        }
    }

    /// The value stored under `key`.
    pub fn get(&self, key: &str) -> (r: Option<&V>)
        requires
            self.wf(),
        ensures
            r matches Some(v) ==> self.map().dom().contains(key@) && *v == self.map()[key@],
            r is None ==> !self.map().dom().contains(key@),
    {
        match self.find(key) {
            Some(i) => {
                proof { self.lemma_index_of(i as int); }
                Some(&self.entries[i].1)
            },
            None => None,
        }
    }

    /// Stores `value` under `key`, replacing any earlier value. A new key goes
    /// after all existing keys.
    pub fn insert(&mut self, key: &str, value: V)
        requires
            old(self).wf(),
        ensures
            final(self).wf(),
            final(self).map() == old(self).map().insert(key@, value),
            old(self).map().dom().contains(key@) ==> final(self).keys() == old(self).keys(),
            !old(self).map().dom().contains(key@) ==> final(self).keys() == old(self).keys().push(key@),
    {
        let ghost old_self = *self;
        match self.find(key) {
            Some(i) => {
                let k = self.entries[i].0.clone();
                self.entries.set(i, (k, value));
                proof {
                    assert forall|a: int, b: int|
                        0 <= a < self.entries@.len() && 0 <= b < self.entries@.len() && a != b
                        implies #[trigger] self.entries@[a].0@ != #[trigger] self.entries@[b].0@ by {
                        assert(old_self.entries@[a].0@ != old_self.entries@[b].0@);
                    }
                    assert forall|k2: Seq<char>| self.has_key(k2) <==> old_self.has_key(k2) by {
                        if self.has_key(k2) {
                            let j = choose|j: int| 0 <= j < self.entries@.len() && #[trigger] self.entries@[j].0@ == k2;
                            assert(old_self.entries@[j].0@ == k2);
                        }
                        if old_self.has_key(k2) {
                            let j = choose|j: int| 0 <= j < old_self.entries@.len() && #[trigger] old_self.entries@[j].0@ == k2;
                            assert(self.entries@[j].0@ == k2);
                        }
                    }
                    assert forall|k2: Seq<char>| #[trigger] self.map().dom().contains(k2)
                        implies self.map()[k2] == old_self.map().insert(key@, value)[k2] by {
                        let j = self.index_of(k2);
                        self.lemma_index_of(j);
                        old_self.lemma_index_of(j);
                    }
                    assert(self.map() =~= old_self.map().insert(key@, value));
                    assert(self.keys() =~= old_self.keys());
                }
            },
            None => {
                let k = crate::text::to_string(key);
                self.entries.push((k, value));
                proof {
                    let n = old_self.entries@.len() as int;
                    assert forall|a: int, b: int|
                        0 <= a < self.entries@.len() && 0 <= b < self.entries@.len() && a != b
                        implies #[trigger] self.entries@[a].0@ != #[trigger] self.entries@[b].0@ by {
                        if a < n && b < n {
                            assert(old_self.entries@[a].0@ != old_self.entries@[b].0@);
                        } else if a == n {
                            assert(self.entries@[b] == old_self.entries@[b]);
                        } else {
                            assert(self.entries@[a] == old_self.entries@[a]);
                        }
                    }
                    assert forall|k2: Seq<char>| self.has_key(k2) <==> (old_self.has_key(k2) || k2 == key@) by {
                        if self.has_key(k2) {
                            let j = choose|j: int| 0 <= j < self.entries@.len() && #[trigger] self.entries@[j].0@ == k2;
                            if j < n {
                                assert(old_self.entries@[j].0@ == k2);
                            }
                        }
                        if old_self.has_key(k2) {
                            let j = choose|j: int| 0 <= j < old_self.entries@.len() && #[trigger] old_self.entries@[j].0@ == k2;
                            assert(self.entries@[j].0@ == k2);
                        }
                        if k2 == key@ {
                            assert(self.entries@[n].0@ == k2);
                        }
                    }
                    assert forall|k2: Seq<char>| #[trigger] self.map().dom().contains(k2)
                        implies self.map()[k2] == old_self.map().insert(key@, value)[k2] by {
                        let j = self.index_of(k2);
                        self.lemma_index_of(j);
                        if j < n {
                            assert(self.entries@[j] == old_self.entries@[j]);
                            old_self.lemma_index_of(j);
                        }
                    }
                    assert(self.map() =~= old_self.map().insert(key@, value));
                    assert(self.keys() =~= old_self.keys().push(key@));
                }
            },
        }
    }

    /// Removes `key` and returns its value.
    pub fn remove(&mut self, key: &str) -> (r: Option<V>)
        requires
            old(self).wf(),
        ensures
            final(self).wf(),
            final(self).map() == old(self).map().remove(key@),
            r is None <==> !old(self).map().dom().contains(key@),
            r matches Some(v) ==> v == old(self).map()[key@],
    {
        let ghost old_self = *self;
        match self.find(key) {
            Some(i) => {
                proof { old_self.lemma_index_of(i as int); }
                let e = self.entries.remove(i);
                proof {
                    let n = old_self.entries@.len() as int;
                    assert(self.entries@ =~= old_self.entries@.subrange(0, i as int) + old_self.entries@.subrange(i + 1, n));
                    assert forall|a: int, b: int|
                        0 <= a < self.entries@.len() && 0 <= b < self.entries@.len() && a != b
                        implies #[trigger] self.entries@[a].0@ != #[trigger] self.entries@[b].0@ by {
                        let a2 = if a < i { a } else { a + 1 };
                        let b2 = if b < i { b } else { b + 1 };
                        assert(self.entries@[a] == old_self.entries@[a2]);
                        assert(self.entries@[b] == old_self.entries@[b2]);
                        assert(old_self.entries@[a2].0@ != old_self.entries@[b2].0@);
                    }
                    assert forall|k2: Seq<char>| self.has_key(k2) <==> (old_self.has_key(k2) && k2 != key@) by {
                        if self.has_key(k2) {
                            let j = choose|j: int| 0 <= j < self.entries@.len() && #[trigger] self.entries@[j].0@ == k2;
                            let j2 = if j < i { j } else { j + 1 };
                            assert(self.entries@[j] == old_self.entries@[j2]);
                            assert(old_self.entries@[j2].0@ == k2);
                            assert(j2 != i as int);
                            assert(old_self.entries@[i as int].0@ != old_self.entries@[j2].0@);
                        }
                        if old_self.has_key(k2) && k2 != key@ {
                            let j = choose|j: int| 0 <= j < old_self.entries@.len() && #[trigger] old_self.entries@[j].0@ == k2;
                            assert(j != i as int);
                            let j1 = if j < i { j } else { j - 1 };
                            assert(self.entries@[j1] == old_self.entries@[j]);
                            assert(self.entries@[j1].0@ == k2);
                        }
                    }
                    assert forall|k2: Seq<char>| #[trigger] self.map().dom().contains(k2)
                        implies self.map()[k2] == old_self.map().remove(key@)[k2] by {
                        let j = self.index_of(k2);
                        self.lemma_index_of(j);
                        let j2 = if j < i { j } else { j + 1 };
                        assert(self.entries@[j] == old_self.entries@[j2]);
                        old_self.lemma_index_of(j2);
                    }
                    assert(self.map() =~= old_self.map().remove(key@));
                }
                Some(e.1)
            },
            None => {
                proof {
                    assert(self.map() =~= old_self.map().remove(key@));
                }
                None
            },
        }
    }

    /// The entries, in key insertion order.
    pub fn entry_list(&self) -> (r: &Vec<(String, V)>)
        requires
            self.wf(),
        ensures
            r@.len() == self.keys().len(),
            forall|i: int| 0 <= i < r@.len() ==> {
                &&& (#[trigger] r@[i]).0@ == self.keys()[i]
                &&& self.map().dom().contains(r@[i].0@)
                &&& self.map()[r@[i].0@] == r@[i].1
            },
            forall|k: Seq<char>| #[trigger] self.map().dom().contains(k) ==> self.keys().contains(k),
            forall|i: int, j: int| 0 <= i < r@.len() && 0 <= j < r@.len() && i != j
                ==> #[trigger] r@[i].0@ != #[trigger] r@[j].0@,
    {
        proof {
            assert forall|i: int| 0 <= i < self.entries@.len() implies {
                &&& (#[trigger] self.entries@[i]).0@ == self.keys()[i]
                &&& self.map().dom().contains(self.entries@[i].0@)
                &&& self.map()[self.entries@[i].0@] == self.entries@[i].1
            } by {
                self.lemma_index_of(i);
            }
            assert forall|k: Seq<char>| #[trigger] self.map().dom().contains(k) implies self.keys().contains(k) by {
                let j = self.index_of(k);
                assert(self.keys()[j] == k);
            }
        }
        &self.entries
    }
}

} // verus!
