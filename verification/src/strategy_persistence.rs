//! Persisted strategy state per vault. Instants are microseconds since the
//! Unix epoch.
use vstd::prelude::*;

use crate::clock::utc_now_micros;
use crate::keyed::StrMap;
use crate::text::to_string;

verus! {

/// Where a vault's strategy stands.
pub struct StrategyState {
    pub vault_id: String,
    pub current_phase: String,
    pub last_evaluated_at: i64,
    pub last_trigger: Option<String>,
    pub evaluation_count: u64,
}

impl StrategyState {
    /// A copy of the state.
    pub fn duplicate(&self) -> (s: Self)
        ensures
            s == *self,
    {
        StrategyState {
            vault_id: self.vault_id.clone(),
            current_phase: self.current_phase.clone(),
            last_evaluated_at: self.last_evaluated_at,
            last_trigger: match &self.last_trigger {
                Some(t) => Some(t.clone()),
                None => None,
            },
            evaluation_count: self.evaluation_count,
        }
    }
}

/// The state a vault starts from: phase `default`, never evaluated.
pub open spec fn is_default_state(s: StrategyState, vault: Seq<char>, now: i64) -> bool {
    &&& s.vault_id@ == vault
    &&& s.current_phase@ == "default"@
    &&& s.last_evaluated_at == now
    &&& s.last_trigger is None
    &&& s.evaluation_count == 0
}

/// The states that a list of entries saves, a later entry replacing an
/// earlier one with the same vault id.
pub open spec fn entries_map(e: Seq<(String, StrategyState)>) -> Map<Seq<char>, StrategyState>
    decreases e.len(),
{
    if e.len() == 0 {
        Map::empty()
    } else {
        entries_map(e.drop_last()).insert(e.last().0@, e.last().1)
    }
}

/// A vault id is saved by a list of entries exactly when an entry holds it.
proof fn lemma_entries_map_dom(e: Seq<(String, StrategyState)>, k: Seq<char>)
    ensures
        entries_map(e).dom().contains(k) <==> exists|i: int| 0 <= i < e.len() && (#[trigger] e[i]).0@ == k,
    decreases e.len(),
{
    if e.len() > 0 {
        lemma_entries_map_dom(e.drop_last(), k);
        if entries_map(e.drop_last()).dom().contains(k) {
            let i = choose|i: int| 0 <= i < e.drop_last().len() && (#[trigger] e.drop_last()[i]).0@ == k;
            assert(e[i] == e.drop_last()[i]);
        }
        if exists|i: int| 0 <= i < e.len() && (#[trigger] e[i]).0@ == k {
            let i = choose|i: int| 0 <= i < e.len() && (#[trigger] e[i]).0@ == k;
            if i < e.len() - 1 {
                assert(e.drop_last()[i] == e[i]);
            }
        }
    }
}

/// With distinct vault ids, each entry's state is the one saved under its id.
proof fn lemma_entries_map_value(e: Seq<(String, StrategyState)>, i: int)
    requires
        0 <= i < e.len(),
        forall|a: int, b: int| 0 <= a < e.len() && 0 <= b < e.len() && a != b
            ==> #[trigger] e[a].0@ != #[trigger] e[b].0@,
    ensures
        entries_map(e)[e[i].0@] == e[i].1,
    decreases e.len(),
{
    if i < e.len() - 1 {
        let d = e.drop_last();
        assert(d[i] == e[i]);
        assert forall|a: int, b: int| 0 <= a < d.len() && 0 <= b < d.len() && a != b
            implies #[trigger] d[a].0@ != #[trigger] d[b].0@ by {
            assert(d[a] == e[a] && d[b] == e[b]);
        }
        lemma_entries_map_value(d, i);
        assert(e.last() == e[e.len() - 1]);
    }
}

/// The strategy state of each vault.
pub struct StrategyStateManager {
    states: StrMap<StrategyState>,
}

impl StrategyStateManager {
    pub closed spec fn wf(&self) -> bool {
        self.states.wf()
    }

    pub closed spec fn states(&self) -> Map<Seq<char>, StrategyState> {
        self.states.map()
    }

    /// No state saved.
    pub fn new() -> (m: Self)
        ensures
            m.wf(),
            m.states() == Map::<Seq<char>, StrategyState>::empty(),
    {
        StrategyStateManager { states: StrMap::new() }
    }

    /// Saves a state under its vault id, replacing the vault's earlier one.
    pub fn save_state(&mut self, state: StrategyState)
        requires
            old(self).wf(),
        ensures
            final(self).wf(),
            final(self).states() == old(self).states().insert(state.vault_id@, state),
    {
        let key = state.vault_id.clone();
        self.states.insert(key.as_str(), state);
    }

    /// The saved state of a vault.
    pub fn load_state(&self, vault_id: &str) -> (r: Option<&StrategyState>)
        requires
            self.wf(),
        ensures
            r matches Some(s) ==> self.states().dom().contains(vault_id@) && *s == self.states()[vault_id@],
            r is None ==> !self.states().dom().contains(vault_id@),
    {
        self.states.get(vault_id)
    }

    /// A copy of the vault's saved state, or its default state as of `now`.
    pub fn recover_or_default_at(&self, vault_id: &str, now: i64) -> (s: StrategyState)
        requires
            self.wf(),
        ensures
            self.states().dom().contains(vault_id@) ==> s == self.states()[vault_id@],
            !self.states().dom().contains(vault_id@) ==> is_default_state(s, vault_id@, now),
    {
        match self.states.get(vault_id) {
            Some(s) => s.duplicate(),
            None => StrategyState {
                vault_id: to_string(vault_id),
                current_phase: to_string("default"),
                last_evaluated_at: now,
                last_trigger: None,
                evaluation_count: 0,
            },
        }
    }

    /// A copy of the vault's saved state, or its default state as of now.
    pub fn recover_or_default(&self, vault_id: &str) -> (s: StrategyState)
        requires
            self.wf(),
        ensures
            self.states().dom().contains(vault_id@) ==> s == self.states()[vault_id@],
            !self.states().dom().contains(vault_id@) ==> is_default_state(s, vault_id@, s.last_evaluated_at),
    {
        self.recover_or_default_at(vault_id, utc_now_micros())
    }

    /// The saved states with the vault ids they are saved under.
    pub fn entries(&self) -> (r: &Vec<(String, StrategyState)>)
        requires
            self.wf(),
        ensures
            forall|i: int| 0 <= i < r@.len() ==> {
                &&& self.states().dom().contains((#[trigger] r@[i]).0@)
                &&& self.states()[r@[i].0@] == r@[i].1
            },
            forall|k: Seq<char>| #[trigger] self.states().dom().contains(k)
                ==> exists|i: int| 0 <= i < r@.len() && (#[trigger] r@[i]).0@ == k,
            entries_map(r@) == self.states(),
    {
        let r = self.states.entry_list();
        proof {
            assert forall|k: Seq<char>| #[trigger] self.states().dom().contains(k)
                implies exists|i: int| 0 <= i < r@.len() && (#[trigger] r@[i]).0@ == k by {
                assert(self.states.keys().contains(k));
                let i = choose|i: int| 0 <= i < self.states.keys().len() && self.states.keys()[i] == k;
                assert(r@[i].0@ == k);
            }
            assert forall|k: Seq<char>| entries_map(r@).dom().contains(k) <==> self.states().dom().contains(k) by {
                lemma_entries_map_dom(r@, k);
            }
            assert forall|k: Seq<char>| #[trigger] entries_map(r@).dom().contains(k)
                implies entries_map(r@)[k] == self.states()[k] by {
                lemma_entries_map_dom(r@, k);
                let i = choose|i: int| 0 <= i < r@.len() && (#[trigger] r@[i]).0@ == k;
                lemma_entries_map_value(r@, i);
            }
            assert(entries_map(r@) =~= self.states());
        }
        r
    }

    /// A manager holding the given states under the given vault ids; a later
    /// entry replaces an earlier one with the same id.
    pub fn from_entries(entries: Vec<(String, StrategyState)>) -> (m: Self)
        ensures
            m.wf(),
            m.states() == entries_map(entries@),
    {
        let mut m = StrategyStateManager::new();
        let mut rest = entries;
        let ghost orig = rest@;
        let ghost mut n: int = 0;
        while rest.len() > 0
            invariant
                m.wf(),
                0 <= n <= orig.len(),
                rest@ == orig.subrange(n, orig.len() as int),
                m.states() == entries_map(orig.subrange(0, n)),
            decreases rest@.len(),
        {
            let (k, s) = rest.remove(0);
            m.states.insert(k.as_str(), s);
            proof {
                assert(orig[n].0 == k);
                assert(orig.subrange(0, n + 1).drop_last() =~= orig.subrange(0, n));
                n = n + 1;
                assert(rest@ =~= orig.subrange(n, orig.len() as int));
            }
        }
        assert(orig.subrange(0, orig.len() as int) =~= orig);
        m
    }
}

/// A saved state is what loading gives back.
pub proof fn law_save_then_load(m: Map<Seq<char>, StrategyState>, s: StrategyState)
    ensures
        m.insert(s.vault_id@, s).dom().contains(s.vault_id@),
        m.insert(s.vault_id@, s)[s.vault_id@] == s,
{
}

} // verus!
