//! Reconciliation balances paged with an opaque cursor.
use vstd::prelude::*;

use crate::keyed::StrMap;
use crate::text::{str_eq, to_string, views};

verus! {

/// Client balances, in the order the clients were added.
pub struct ReconciliationBook {
    entries: StrMap<u64>,
    order: Vec<String>,
}

/// Where a page starts: just after the first occurrence of the cursor, or
/// at the beginning when there is no cursor or it is unknown.
pub open spec fn page_start(order: Seq<Seq<char>>, after: Option<Seq<char>>) -> int {
    match after {
        Some(id) => match order.index_of_first(id) {
            Some(k) => k + 1,
            None => 0,
        },
        None => 0,
    }
}

/// The ids that a page lists: up to `limit` of them, from where the cursor
/// places the page.
pub open spec fn page_ids(order: Seq<Seq<char>>, after: Option<Seq<char>>, limit: int) -> Seq<Seq<char>> {
    let start = page_start(order, after);
    let end = if start + limit <= order.len() { start + limit } else { order.len() as int };
    order.subrange(start, end)
}

/// The ids listed by paging from the cursor `after`, each page starting
/// after the last id of the one before, until a page comes back empty (or
/// `fuel` pages have been read).
pub open spec fn chained_pages(order: Seq<Seq<char>>, after: Option<Seq<char>>, limit: int, fuel: nat) -> Seq<Seq<char>>
    decreases fuel,
{
    let p = page_ids(order, after, limit);
    if fuel == 0 || p.len() == 0 {
        Seq::empty()
    } else {
        p + chained_pages(order, Some(p.last()), limit, (fuel - 1) as nat)
    }
}

/// With distinct ids, a cursor naming the id at `s - 1` starts the page at `s`.
proof fn lemma_cursor_start(order: Seq<Seq<char>>, s: int)
    requires
        order.no_duplicates(),
        0 < s <= order.len(),
    ensures
        page_start(order, Some(order[s - 1])) == s,
{
    order.index_of_first_ensures(order[s - 1]);
    assert(order.contains(order[s - 1]));
    let i = order.index_of_first(order[s - 1])->0;
    assert(order[i] == order[s - 1]);
}

/// Paging on from position `s` (the cursor being the id just before it)
/// lists the rest of the clients in order, given enough pages.
proof fn lemma_chain_from(order: Seq<Seq<char>>, after: Option<Seq<char>>, s: int, limit: int, fuel: nat)
    requires
        order.no_duplicates(),
        limit > 0,
        0 <= s <= order.len(),
        page_start(order, after) == s,
        fuel >= order.len() - s + 1,
    ensures
        chained_pages(order, after, limit, fuel) == order.subrange(s, order.len() as int),
    decreases order.len() - s,
{
    let p = page_ids(order, after, limit);
    let e = if s + limit <= order.len() { s + limit } else { order.len() as int };
    assert(p == order.subrange(s, e));
    if s == order.len() {
        assert(p.len() == 0);
        assert(order.subrange(s, order.len() as int) =~= Seq::<Seq<char>>::empty());
    } else {
        assert(p.len() > 0);
        assert(p.last() == order[e - 1]);
        lemma_cursor_start(order, e);
        lemma_chain_from(order, Some(p.last()), e, limit, (fuel - 1) as nat);
        assert(order.subrange(s, e) + order.subrange(e, order.len() as int) =~= order.subrange(s, order.len() as int));
    }
}

/// Paging from no cursor, each page's cursor the last id of the page before,
/// until a page comes back empty, lists every client exactly once and in the
/// order they were added, provided their ids are distinct.
pub proof fn law_page_chain_lists_every_client(b: ReconciliationBook, limit: int)
    requires
        b.order().no_duplicates(),
        limit > 0,
    ensures
        chained_pages(b.order(), None, limit, (b.order().len() + 1) as nat) == b.order(),
        page_ids(b.order(), Some(b.order().last()), limit).len() == 0 || b.order().len() == 0,
{
    let order = b.order();
    lemma_chain_from(order, None, 0, limit, (order.len() + 1) as nat);
    assert(order.subrange(0, order.len() as int) =~= order);
    if order.len() > 0 {
        lemma_cursor_start(order, order.len() as int);
    }
}

impl ReconciliationBook {
    pub closed spec fn order(&self) -> Seq<Seq<char>> {
        views(self.order@)
    }

    pub closed spec fn balances(&self) -> Map<Seq<char>, u64> {
        self.entries.map()
    }

    /// Every client in the order has a balance.
    pub closed spec fn wf(&self) -> bool {
        &&& self.entries.wf()
        &&& forall|i: int| 0 <= i < self.order().len() ==> self.balances().dom().contains(#[trigger] self.order()[i])
    }

    /// An empty book.
    pub fn new() -> (b: Self)
        ensures
            b.wf(),
            b.order().len() == 0,
            b.balances() == Map::<Seq<char>, u64>::empty(),
    {
        let b = ReconciliationBook { entries: StrMap::new(), order: Vec::new() };
        assert(b.order() =~= Seq::<Seq<char>>::empty());
        b
    }

    /// Adds a client (identified by an unguessable id) with its balance.
    pub fn add_client(&mut self, id: &str, balance: u64)
        requires
            old(self).wf(),
        ensures
            final(self).wf(),
            final(self).order() == old(self).order().push(id@),
            final(self).balances() == old(self).balances().insert(id@, balance),
    {
        let ghost before = self.order();
        self.order.push(to_string(id));
        assert(self.order() =~= before.push(id@));
        self.entries.insert(id, balance);
        assert forall|i: int| 0 <= i < self.order().len()
            implies self.balances().dom().contains(#[trigger] self.order()[i]) by {
            if i < before.len() {
                assert(self.order()[i] == before[i]);
            }
        }
    }

    fn first_position(&self, id: &str) -> (r: Option<usize>)
        ensures
            r matches Some(k) ==> self.order().index_of_first(id@) == Some(k as int) && k < self.order.len(),
            r is None ==> self.order().index_of_first(id@) is None,
    {
        proof { self.order().index_of_first_ensures(id@); }
        let mut i: usize = 0;
        while i < self.order.len()
            invariant
                i <= self.order@.len(),
                self.order().len() == self.order@.len(),
                forall|k: int| 0 <= k < i ==> self.order()[k] != id@,
            decreases self.order@.len() - i,
        {
            assert(self.order()[i as int] == self.order@[i as int]@);
            if str_eq(self.order[i].as_str(), id) {
                proof {
                    self.order().index_of_first_ensures(id@);
                    let f = self.order().index_of_first(id@);
                    assert(self.order().contains(id@));
                    let k = f->0;
                    if k < i {
                        assert(self.order()[k] != id@);
                    }
                    if k > i {
                        assert(self.order()[i as int] != id@);
                    }
                }
                return Some(i);
            }
            i = i + 1;
        }
        proof {
            self.order().index_of_first_ensures(id@);
            if self.order().contains(id@) {
                let k = choose|k: int| 0 <= k < self.order().len() && self.order()[k] == id@;
                assert(self.order()[k] != id@);
            }
        }
        None
    }

    /// Up to `limit` clients with their balances, starting after the client
    /// `after` (or at the first client).
    pub fn page(&self, after: Option<&str>, limit: usize) -> (r: Vec<(String, u64)>)
        requires
            self.wf(),
        ensures
            ({
                let start = page_start(self.order(), match after { Some(a) => Some(a@), None => None });
                let end = if start + limit <= self.order().len() { start + limit } else { self.order().len() as int };
                &&& r@.len() == end - start
                &&& r@.map_values(|e: (String, u64)| e.0@) == page_ids(self.order(), match after { Some(a) => Some(a@), None => None }, limit as int)
                &&& forall|i: int| 0 <= i < r@.len() ==> {
                    &&& (#[trigger] r@[i]).0@ == self.order()[start + i]
                    &&& r@[i].1 == self.balances()[self.order()[start + i]]
                }
            }),
    {
        let ghost after_v: Option<Seq<char>> = match after { Some(a) => Some(a@), None => None };
        let start: usize = match after {
            Some(id) => match self.first_position(id) {
                Some(k) => k + 1,
                None => 0,
            },
            None => 0,
        };
        assert(start == page_start(self.order(), after_v));
        let mut r: Vec<(String, u64)> = Vec::new();
        let mut j: usize = start;
        while j < self.order.len() && r.len() < limit
            invariant
                start <= j <= self.order@.len(),
                r@.len() == j - start,
                r@.len() <= limit,
                self.wf(),
                forall|i: int| 0 <= i < r@.len() ==> {
                    &&& (#[trigger] r@[i]).0@ == self.order()[start + i]
                    &&& r@[i].1 == self.balances()[self.order()[start + i]]
                },
            decreases self.order@.len() - j,
        {
            let id = self.order[j].clone();
            assert(self.order()[j as int] == self.order@[j as int]@);
            assert(self.balances().dom().contains(self.order()[j as int]));
            let bal = match self.entries.get(id.as_str()) {
                Some(b) => *b,
                None => 0,
            };
            r.push((id, bal));
            j = j + 1;
        }
        assert(r@.map_values(|e: (String, u64)| e.0@) =~= page_ids(self.order(), after_v, limit as int));
        r
    }
}

} // verus!
