//! Agent approvals with an optional lifetime. Instants and durations are in
//! microseconds (instants since the Unix epoch).
use vstd::prelude::*;

use crate::clock::utc_now_micros;
use crate::text::str_eq;

verus! {

/// An approval of an agent, possibly expiring.
pub struct ApprovalEntry {
    pub agent_id: String,
    pub granted_at: i64,
    pub expires_at: Option<i64>,
}

/// `a + b`, held at the bounds of `i64`.
pub open spec fn sat_add(a: i64, b: i64) -> i64 {
    let s = a + b;
    if s > i64::MAX { i64::MAX } else if s < i64::MIN { i64::MIN } else { s as i64 }
}

/// The time left at `now` before the expiry, if there is one.
pub open spec fn remaining_spec(expires_at: Option<i64>, now: i64) -> Option<i128> {
    match expires_at {
        Some(exp) => Some((exp - now) as i128),
        None => None::<i128>,
    }
}

/// The approval of `agent` granted at `now` with the lifetime `ttl`.
pub open spec fn granted_entry(agent: String, ttl: Option<i64>, now: i64) -> ApprovalEntry {
    ApprovalEntry {
        agent_id: agent,
        granted_at: now,
        expires_at: match ttl {
            Some(d) => Some(sat_add(now, d)),
            None => None::<i64>,
        },
    }
}

/// The approvals after approving `agent` at `now`: its earlier approvals
/// removed, the others kept in order, and the new approval last.
pub open spec fn after_approval(approvals: Seq<ApprovalEntry>, agent: String, ttl: Option<i64>, now: i64) -> Seq<ApprovalEntry> {
    approvals.filter(|e: ApprovalEntry| retained(e, Some(agent@), None)).push(granted_entry(agent, ttl, now))
}

impl ApprovalEntry {
    pub open spec fn spec_is_expired(&self, now: i64) -> bool {
        match self.expires_at {
            Some(exp) => now >= exp,
            None => false,
        }
    }

    /// An approval granted at `now`, expiring `ttl` later when a lifetime is
    /// given (an expiry beyond the representable range is held at its bound).
    pub fn new_at(agent_id: String, ttl: Option<i64>, now: i64) -> (e: Self)
        ensures
            e.agent_id == agent_id,
            e.granted_at == now,
            e.expires_at == match ttl {
                Some(d) => Some(sat_add(now, d)),
                None => None::<i64>,
            },
    {
        let expires_at = match ttl {
            Some(d) => {
                let s: i128 = now as i128 + d as i128;
                let v: i64 = if s > 0x7fff_ffff_ffff_ffffi128 {
                    0x7fff_ffff_ffff_ffffi64
                } else if s < -0x8000_0000_0000_0000i128 {
                    -0x8000_0000_0000_0000i64
                } else {
                    s as i64
                };
                Some(v)
            },
            None => None,
        };
        ApprovalEntry { agent_id, granted_at: now, expires_at }
    }

    /// An approval granted now.
    pub fn new(agent_id: String, ttl: Option<i64>) -> (e: Self)
        ensures
            e.agent_id == agent_id,
            e.expires_at == match ttl {
                Some(d) => Some(sat_add(e.granted_at, d)),
                None => None::<i64>,
            },
    {
        Self::new_at(agent_id, ttl, utc_now_micros())
    }

    /// Whether the approval has expired at `now`.
    pub fn is_expired_at(&self, now: i64) -> (r: bool)
        ensures
            r == self.spec_is_expired(now),
    {
        match self.expires_at {
            Some(exp) => now >= exp,
            None => false,
        }
    }

    /// Whether the approval has expired.
    pub fn is_expired(&self) -> (r: bool)
        ensures
            exists|now: i64| r == self.spec_is_expired(now),
            self.expires_at is None ==> !r,
    {
        self.is_expired_at(utc_now_micros())
    }

    /// The time left now, in microseconds, for an approval with a lifetime.
    /// It depends on the clock; `remaining_at` says what it is at a given
    /// instant.
    pub fn remaining(&self) -> (r: Option<i128>)
        ensures
            exists|now: i64| r == remaining_spec(self.expires_at, now),
            r is Some <==> self.expires_at is Some,
    {
        let now = utc_now_micros();
        let r = self.remaining_at(now);
        assert(r == remaining_spec(self.expires_at, now));
        r
    }

    /// The time left at `now`, for an approval with a lifetime.
    pub fn remaining_at(&self, now: i64) -> (r: Option<i128>)
        ensures
            r == remaining_spec(self.expires_at, now),
    {
        match self.expires_at {
            Some(exp) => Some(exp as i128 - now as i128),
            None => None,
        }
    }
}

/// The agents approved under a policy.
pub struct PolicyAllowList {
    approvals: Vec<ApprovalEntry>,
}

impl PolicyAllowList {
    pub closed spec fn approvals(&self) -> Seq<ApprovalEntry> {
        self.approvals@
    }

    pub open spec fn spec_is_approved(&self, agent: Seq<char>, now: i64) -> bool {
        exists|i: int| 0 <= i < self.approvals().len() && (#[trigger] self.approvals()[i]).agent_id@ == agent
            && !self.approvals()[i].spec_is_expired(now)
    }

    /// No agent approved.
    pub fn new() -> (l: Self)
        ensures
            l.approvals().len() == 0,
    {
        PolicyAllowList { approvals: Vec::new() }
    }

    fn retain_where(&mut self, keep_agent: Option<&str>, keep_unexpired_at: Option<i64>)
        ensures
            final(self).approvals() == old(self).approvals().filter(|e: ApprovalEntry| retained(e, opt_str(keep_agent), keep_unexpired_at)),
    {
        let ghost orig = self.approvals@;
        let mut rest: Vec<ApprovalEntry> = Vec::new();
        std::mem::swap(&mut rest, &mut self.approvals);
        let ghost mut n: int = 0;
        while rest.len() > 0
            invariant
                0 <= n <= orig.len(),
                rest@ == orig.subrange(n, orig.len() as int),
                self.approvals@ == orig.subrange(0, n).filter(|e: ApprovalEntry| retained(e, opt_str(keep_agent), keep_unexpired_at)),
            decreases rest@.len(),
        {
            let e = rest.remove(0);
            proof {
                reveal_with_fuel(Seq::<_>::filter, 1);
                assert(orig.subrange(0, n + 1).drop_last() =~= orig.subrange(0, n));
            }
            let keep_a = match keep_agent {
                Some(a) => !str_eq(e.agent_id.as_str(), a),
                None => true,
            };
            let keep_t = match keep_unexpired_at {
                Some(now) => !e.is_expired_at(now),
                None => true,
            };
            if keep_a && keep_t {
                self.approvals.push(e);
            }
            proof {
                n = n + 1;
                assert(rest@ =~= orig.subrange(n, orig.len() as int));
            }
        }
        assert(orig.subrange(0, n) =~= orig);
    }

    /// Approves the agent, replacing any earlier approval of it.
    pub fn approve_at(&mut self, agent_id: String, ttl: Option<i64>, now: i64)
        ensures
            final(self).approvals() == old(self).approvals().filter(
                |e: ApprovalEntry| retained(e, Some(agent_id@), None),
            ).push(ApprovalEntry {
                agent_id,
                granted_at: now,
                expires_at: match ttl {
                    Some(d) => Some(sat_add(now, d)),
                    None => None::<i64>,
                },
            }),
    {
        self.retain_where(Some(agent_id.as_str()), None);
        self.approvals.push(ApprovalEntry::new_at(agent_id, ttl, now));
    }

    /// Approves the agent now, replacing any earlier approval of it.
    pub fn approve(&mut self, agent_id: String, ttl: Option<i64>)
        ensures
            exists|now: i64| final(self).approvals() == #[trigger] after_approval(old(self).approvals(), agent_id, ttl, now),
            final(self).approvals().len() >= 1,
            final(self).approvals().last().agent_id == agent_id,
    {
        let ghost agent = agent_id;
        let now = utc_now_micros();
        self.approve_at(agent_id, ttl, now);
        assert(self.approvals() == after_approval(old(self).approvals(), agent, ttl, now));
    }

    /// Removes every approval of the agent.
    pub fn revoke(&mut self, agent_id: &str)
        ensures
            final(self).approvals() == old(self).approvals().filter(|e: ApprovalEntry| retained(e, Some(agent_id@), None)),
    {
        self.retain_where(Some(agent_id), None);
    }

    /// Whether the agent holds an approval that is unexpired at `now`.
    pub fn is_approved_at(&self, agent_id: &str, now: i64) -> (r: bool)
        ensures
            r == self.spec_is_approved(agent_id@, now),
    {
        let mut i: usize = 0;
        while i < self.approvals.len()
            invariant
                i <= self.approvals@.len(),
                forall|k: int| 0 <= k < i ==> !((#[trigger] self.approvals@[k]).agent_id@ == agent_id@
                    && !self.approvals@[k].spec_is_expired(now)),
            decreases self.approvals@.len() - i,
        {
            let e = &self.approvals[i];
            if str_eq(e.agent_id.as_str(), agent_id) && !e.is_expired_at(now) {
                assert(self.approvals()[i as int] == self.approvals@[i as int]);
                return true;
            }
            i = i + 1;
        }
        false
    }

    /// Whether the agent holds an unexpired approval.
    pub fn is_approved(&self, agent_id: &str) -> (r: bool)
        ensures
            exists|now: i64| r == self.spec_is_approved(agent_id@, now),
    {
        self.is_approved_at(agent_id, utc_now_micros())
    }

    /// Removes the approvals expired at `now`; returns how many.
    pub fn cleanup_expired_at(&mut self, now: i64) -> (removed: usize)
        ensures
            final(self).approvals() == old(self).approvals().filter(|e: ApprovalEntry| retained(e, None, Some(now))),
            removed == old(self).approvals().len() - final(self).approvals().len(),
    {
        let before = self.approvals.len();
        self.retain_where(None, Some(now));
        proof {
            old(self).approvals().lemma_filter_len(|e: ApprovalEntry| retained(e, None, Some(now)));
        }
        before - self.approvals.len()
    }

    /// Removes the expired approvals; returns how many.
    pub fn cleanup_expired(&mut self) -> (removed: usize)
        ensures
            removed == old(self).approvals().len() - final(self).approvals().len(),
            exists|now: i64| final(self).approvals() == #[trigger] unexpired_part(old(self).approvals(), now),
    {
        let now = utc_now_micros();
        let r = self.cleanup_expired_at(now);
        assert(self.approvals() == unexpired_part(old(self).approvals(), now));
        r
    }
}

/// The approvals of `s` not expired at `now`, in order.
pub open spec fn unexpired_part(s: Seq<ApprovalEntry>, now: i64) -> Seq<ApprovalEntry> {
    s.filter(|e: ApprovalEntry| retained(e, None, Some(now)))
}

/// The view of an optional text.
pub open spec fn opt_str(o: Option<&str>) -> Option<Seq<char>> {
    match o {
        Some(s) => Some(s@),
        None => None,
    }
}

/// Whether an approval survives removing those of `agent` (when given) and
/// those expired at `now` (when given).
pub open spec fn retained(e: ApprovalEntry, agent: Option<Seq<char>>, now: Option<i64>) -> bool {
    (match agent { Some(a) => e.agent_id@ != a, None => true })
        && (match now { Some(t) => !e.spec_is_expired(t), None => true })
}

/// A revoked agent is no longer approved, at any time.
pub proof fn law_revoke_removes_approval(before: PolicyAllowList, after: PolicyAllowList, agent: Seq<char>, now: i64)
    requires
        after.approvals() == before.approvals().filter(|e: ApprovalEntry| retained(e, Some(agent), None)),
    ensures
        !after.spec_is_approved(agent, now),
{
    broadcast use vstd::seq_lib::group_filter_ensures;
    let f = after.approvals();
    assert forall|i: int| 0 <= i < f.len() implies (#[trigger] f[i]).agent_id@ != agent by {
        assert(retained(f[i], Some(agent), None));
    }
}

/// After a cleanup at `now`, no approval left is expired at `now`.
pub proof fn law_cleanup_leaves_unexpired(l: Seq<ApprovalEntry>, now: i64, i: int)
    requires
        0 <= i < l.filter(|e: ApprovalEntry| retained(e, None, Some(now))).len(),
    ensures
        !l.filter(|e: ApprovalEntry| retained(e, None, Some(now)))[i].spec_is_expired(now),
{
    broadcast use vstd::seq_lib::group_filter_ensures;
    assert(retained(l.filter(|e: ApprovalEntry| retained(e, None, Some(now)))[i], None, Some(now)));
}

} // verus!
