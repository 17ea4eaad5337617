//! A per-vault accumulator of note hashes with an index for lookups.
use vstd::prelude::*;

use crate::keyed::StrMap;
use crate::text::{to_string, views};

verus! {

/// The note hashes of a vault, in insertion order, with an index from each
/// hash to its latest position.
pub struct VaultAccumulator {
    index: StrMap<usize>,
    leaves: Vec<String>,
}

impl VaultAccumulator {
    /// The inserted hashes, in order.
    pub closed spec fn leaves(&self) -> Seq<Seq<char>> {
        views(self.leaves@)
    }

    /// The position recorded for each hash.
    pub closed spec fn positions(&self) -> Map<Seq<char>, usize> {
        self.index.map()
    }

    /// Every indexed hash sits at its recorded position, and the index holds
    /// every inserted hash at its latest position.
    pub closed spec fn wf(&self) -> bool {
        &&& self.index.wf()
        &&& forall|k: Seq<char>| #[trigger] self.positions().dom().contains(k) ==> {
            &&& (self.positions()[k] as int) < self.leaves().len()
            &&& self.leaves()[self.positions()[k] as int] == k
            &&& forall|j: int| self.positions()[k] < j < self.leaves().len() ==> self.leaves()[j] != k
        }
        &&& forall|j: int| 0 <= j < self.leaves().len() ==> self.positions().dom().contains(#[trigger] self.leaves()[j])
    }

    /// An empty accumulator.
    pub fn new() -> (a: Self)
        ensures
            a.wf(),
            a.leaves().len() == 0,
            a.positions() == Map::<Seq<char>, usize>::empty(),
    {
        let a = VaultAccumulator { index: StrMap::new(), leaves: Vec::new() };
        assert(a.leaves() =~= Seq::<Seq<char>>::empty());
        a
    }

    /// Appends a hash and indexes it at its new position.
    pub fn insert(&mut self, note_hash: &str)
        requires
            old(self).wf(),
        ensures
            final(self).wf(),
            final(self).leaves() == old(self).leaves().push(note_hash@),
            final(self).positions() == old(self).positions().insert(note_hash@, old(self).leaves().len() as usize),
    {
        let idx = self.leaves.len();
        let ghost before = self.leaves();
        self.leaves.push(to_string(note_hash));
        assert(self.leaves() =~= before.push(note_hash@));
        self.index.insert(note_hash, idx);
        proof {
            assert forall|k: Seq<char>| #[trigger] self.positions().dom().contains(k) implies {
                &&& (self.positions()[k] as int) < self.leaves().len()
                &&& self.leaves()[self.positions()[k] as int] == k
                &&& forall|j: int| self.positions()[k] < j < self.leaves().len() ==> self.leaves()[j] != k
            } by {
                if k != note_hash@ {
                    assert(old(self).positions().dom().contains(k));
                    assert(self.leaves()[before.len() as int] == note_hash@);
                }
            }
            assert forall|j: int| 0 <= j < self.leaves().len()
                implies self.positions().dom().contains(#[trigger] self.leaves()[j]) by {
                if j < before.len() {
                    assert(self.leaves()[j] == before[j]);
                }
            }
        }
    }

    /// Whether the hash was inserted.
    pub fn contains(&self, note_hash: &str) -> (r: bool)
        requires
            self.wf(),
        ensures
            r == self.positions().dom().contains(note_hash@),
            r == self.leaves().contains(note_hash@),
    {
        let r = self.index.contains_key(note_hash);
        proof {
            if r {
                assert(self.leaves()[self.positions()[note_hash@] as int] == note_hash@);
            }
            if self.leaves().contains(note_hash@) {
                let j = choose|j: int| 0 <= j < self.leaves().len() && self.leaves()[j] == note_hash@;
                assert(self.positions().dom().contains(self.leaves()[j]));
            }
        }
        r
    }

    /// The latest position of the hash, if it was inserted.
    pub fn index_of(&self, note_hash: &str) -> (r: Option<usize>)
        requires
            self.wf(),
        ensures
            r == if self.positions().dom().contains(note_hash@) {
                Some(self.positions()[note_hash@])
            } else {
                None::<usize>
            },
            r matches Some(i) ==> self.leaves()[i as int] == note_hash@,
    {
        match self.index.get(note_hash) {
            Some(i) => Some(*i),
            None => None,
        }
    }
}

} // verus!
