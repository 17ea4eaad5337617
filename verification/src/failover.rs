//! Re-authorisation that a vault needs after its agent fails over.
use vstd::prelude::*;

use crate::text::{concat, is_prefix, starts_with, views};

verus! {

/// The pending entry of a failover of `vault` to `agent`.
pub open spec fn reauth_key(vault: Seq<char>, agent: Seq<char>) -> Seq<char> {
    vault + ":"@ + agent
}

/// The prefix shared by every pending entry of `vault`.
pub open spec fn vault_prefix(vault: Seq<char>) -> Seq<char> {
    vault + ":"@
}

/// Whether `entry` belongs to `vault`.
pub open spec fn belongs_to(entry: Seq<char>, vault: Seq<char>) -> bool {
    is_prefix(vault_prefix(vault), entry)
}

/// Vaults waiting for re-authorisation after a failover.
pub struct FailoverManager {
    pending_reauth: Vec<String>,
}

impl FailoverManager {
    /// The pending entries, oldest first.
    pub closed spec fn pending(&self) -> Seq<Seq<char>> {
        views(self.pending_reauth@)
    }

    pub open spec fn spec_can_execute(&self, vault: Seq<char>) -> bool {
        !exists|i: int| 0 <= i < self.pending().len() && belongs_to(#[trigger] self.pending()[i], vault)
    }

    /// Nothing pending.
    pub fn new() -> (m: Self)
        ensures
            m.pending().len() == 0,
    {
        FailoverManager { pending_reauth: Vec::new() }
    }

    /// Records that `vault` failed over to `new_agent` and must be
    /// re-authorised; an identical pending entry is not added twice.
    pub fn initiate_failover(&mut self, vault_id: &str, new_agent_id: &str)
        ensures
            final(self).pending() == if old(self).pending().contains(reauth_key(vault_id@, new_agent_id@)) {
                old(self).pending()
            } else {
                old(self).pending().push(reauth_key(vault_id@, new_agent_id@))
            },
    {
        let prefix = concat(vault_id, ":");
        let key = concat(prefix.as_str(), new_agent_id);
        assert(key@ == reauth_key(vault_id@, new_agent_id@));
        if !crate::text::contains_str(&self.pending_reauth, key.as_str()) {
            let ghost before = self.pending_reauth@;
            self.pending_reauth.push(key);
            assert(views(self.pending_reauth@) =~= views(before).push(reauth_key(vault_id@, new_agent_id@)));
        }
    }

    /// Clears every pending entry of `vault`; true when there was one.
    pub fn confirm_reauth(&mut self, vault_id: &str) -> (r: bool)
        ensures
            final(self).pending() == old(self).pending().filter(|e: Seq<char>| !belongs_to(e, vault_id@)),
            r == (final(self).pending().len() < old(self).pending().len()),
            r == !old(self).spec_can_execute(vault_id@),
    {
        let prefix = concat(vault_id, ":");
        let initial_len = self.pending_reauth.len();
        let ghost orig = views(self.pending_reauth@);
        let mut rest: Vec<String> = Vec::new();
        std::mem::swap(&mut rest, &mut self.pending_reauth);
        let ghost mut n: int = 0;
        while rest.len() > 0
            invariant
                prefix@ == vault_prefix(vault_id@),
                0 <= n <= orig.len(),
                views(rest@) == orig.subrange(n, orig.len() as int),
                views(self.pending_reauth@) == orig.subrange(0, n).filter(|e: Seq<char>| !belongs_to(e, vault_id@)),
            decreases rest@.len(),
        {
            let ghost pre = rest@;
            assert(views(pre).len() == pre.len());
            let s = rest.remove(0);
            proof {
                reveal_with_fuel(Seq::<_>::filter, 1);
                assert(orig.subrange(0, n + 1).drop_last() =~= orig.subrange(0, n));
                assert(orig[n] == s@) by {
                    assert(views(pre)[0] == pre[0]@);
                }
            }
            if !starts_with(s.as_str(), prefix.as_str()) {
                let ghost before = views(self.pending_reauth@);
                self.pending_reauth.push(s);
                assert(views(self.pending_reauth@) =~= before.push(orig[n]));
            }
            proof {
                assert forall|k: int| 0 <= k < rest@.len() implies views(rest@)[k] == orig[n + 1 + k] by {
                    assert(rest@[k] == pre[k + 1]);
                    assert(views(pre)[k + 1] == pre[k + 1]@);
                }
                n = n + 1;
                assert(views(rest@) =~= orig.subrange(n, orig.len() as int));
            }
        }
        assert(orig.subrange(0, n) =~= orig);
        proof {
            lemma_filter_shrinks_iff(orig, vault_id@);
        }
        assert(initial_len == orig.len());
        self.pending_reauth.len() < initial_len
    }

    /// Whether `vault` has no pending re-authorisation.
    pub fn can_execute(&self, vault_id: &str) -> (r: bool)
        ensures
            r == self.spec_can_execute(vault_id@),
    {
        let prefix = concat(vault_id, ":");
        let mut i: usize = 0;
        while i < self.pending_reauth.len()
            invariant
                prefix@ == vault_prefix(vault_id@),
                i <= self.pending_reauth@.len(),
                forall|j: int| 0 <= j < i ==> !belongs_to(#[trigger] self.pending()[j], vault_id@),
            decreases self.pending_reauth@.len() - i,
        {
            if starts_with(self.pending_reauth[i].as_str(), prefix.as_str()) {
                assert(self.pending()[i as int] == self.pending_reauth@[i as int]@);
                return false;
            }
            assert(self.pending()[i as int] == self.pending_reauth@[i as int]@);
            i = i + 1;
        }
        true
    }

    /// The number of pending entries.
    pub fn pending_count(&self) -> (n: usize)
        ensures
            n == self.pending().len(),
    {
        self.pending_reauth.len()
    }
}

/// Filtering out a vault's entries shortens the list exactly when one of them
/// belongs to the vault; what is left holds none of them.
pub proof fn lemma_filter_shrinks_iff(s: Seq<Seq<char>>, vault: Seq<char>)
    ensures
        ({
            let f = s.filter(|e: Seq<char>| !belongs_to(e, vault));
            &&& f.len() <= s.len()
            &&& (f.len() < s.len() <==> exists|i: int| 0 <= i < s.len() && belongs_to(#[trigger] s[i], vault))
            &&& forall|i: int| 0 <= i < f.len() ==> !belongs_to(#[trigger] f[i], vault)
        }),
    decreases s.len(),
{
    reveal_with_fuel(Seq::<_>::filter, 1);
    if s.len() > 0 {
        let t = s.drop_last();
        lemma_filter_shrinks_iff(t, vault);
        let f = s.filter(|e: Seq<char>| !belongs_to(e, vault));
        let ft = t.filter(|e: Seq<char>| !belongs_to(e, vault));
        if exists|i: int| 0 <= i < t.len() && belongs_to(#[trigger] t[i], vault) {
            let i = choose|i: int| 0 <= i < t.len() && belongs_to(#[trigger] t[i], vault);
            assert(s[i] == t[i]);
        }
        if exists|i: int| 0 <= i < s.len() && belongs_to(#[trigger] s[i], vault) {
            let i = choose|i: int| 0 <= i < s.len() && belongs_to(#[trigger] s[i], vault);
            if i < t.len() {
                assert(t[i] == s[i]);
            }
        }
        assert forall|i: int| 0 <= i < f.len() implies !belongs_to(#[trigger] f[i], vault) by {
            if i < ft.len() {
                assert(f[i] == ft[i]);
            }
        }
    }
}

/// Once a vault's re-authorisation is confirmed, it may execute again.
pub proof fn law_confirm_unblocks(before: FailoverManager, after: FailoverManager, vault: Seq<char>)
    requires
        after.pending() == before.pending().filter(|e: Seq<char>| !belongs_to(e, vault)),
    ensures
        after.spec_can_execute(vault),
{
    lemma_filter_shrinks_iff(before.pending(), vault);
}

/// A failover blocks the vault until it is confirmed.
pub proof fn law_failover_blocks(before: FailoverManager, after: FailoverManager, vault: Seq<char>, agent: Seq<char>)
    requires
        after.pending() == if before.pending().contains(reauth_key(vault, agent)) {
            before.pending()
        } else {
            before.pending().push(reauth_key(vault, agent))
        },
    ensures
        !after.spec_can_execute(vault),
{
    assert(reauth_key(vault, agent).subrange(0, vault_prefix(vault).len() as int) =~= vault_prefix(vault));
    if before.pending().contains(reauth_key(vault, agent)) {
        let i = choose|i: int| 0 <= i < before.pending().len() && before.pending()[i] == reauth_key(vault, agent);
        assert(belongs_to(after.pending()[i], vault));
    } else {
        assert(belongs_to(after.pending()[before.pending().len() as int], vault));
    }
}

} // verus!
