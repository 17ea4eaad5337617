//! Plan-based quotas on the number of vaults a manager may provision.
use vstd::prelude::*;

use crate::keyed::StrMap;

verus! {

#[derive(Debug, Clone, Copy, PartialEq, Eq, Structural)]
pub enum Plan {
    Basic,
    Pro,
}

/// The number of vaults a plan allows.
pub open spec fn plan_limit(p: Plan) -> u32 {
    match p {
        Plan::Basic => 5,
        Plan::Pro => 50,
    }
}

/// One provisioning attempt on a count under a limit: the new count, and
/// whether it was allowed.
pub open spec fn provision_step(count: u32, limit: u32) -> (u32, bool) {
    if count < limit {
        ((count + 1) as u32, true)
    } else {
        (count, false)
    }
}

/// The count after `n` provisioning attempts under a limit.
pub open spec fn provisions(count: u32, limit: u32, n: nat) -> u32
    decreases n,
{
    if n == 0 {
        count
    } else {
        provisions(provision_step(count, limit).0, limit, (n - 1) as nat)
    }
}

impl Plan {
    fn max_vaults(self) -> (n: u32)
        ensures
            n == plan_limit(self),
    {
        match self {
            Plan::Basic => 5,
            Plan::Pro => 50,
        }
    }
}

/// Each manager's plan (Basic when unset) and count of provisioned vaults.
pub struct VaultQuota {
    plans: StrMap<Plan>,
    counts: StrMap<u32>,
}

impl VaultQuota {
    pub closed spec fn wf(&self) -> bool {
        self.plans.wf() && self.counts.wf()
    }

    pub closed spec fn plans(&self) -> Map<Seq<char>, Plan> {
        self.plans.map()
    }

    pub closed spec fn counts(&self) -> Map<Seq<char>, u32> {
        self.counts.map()
    }

    /// The plan that governs a manager.
    pub open spec fn plan_of(&self, m: Seq<char>) -> Plan {
        if self.plans().dom().contains(m) { self.plans()[m] } else { Plan::Basic }
    }

    /// The number of vaults a manager has provisioned.
    pub open spec fn count_of(&self, m: Seq<char>) -> u32 {
        if self.counts().dom().contains(m) { self.counts()[m] } else { 0 }
    }

    /// No plan set and nothing provisioned.
    pub fn new() -> (q: Self)
        ensures
            q.wf(),
            q.plans() == Map::<Seq<char>, Plan>::empty(),
            q.counts() == Map::<Seq<char>, u32>::empty(),
    {
        VaultQuota { plans: StrMap::new(), counts: StrMap::new() }
    }

    /// Sets a manager's plan.
    pub fn set_plan(&mut self, manager_id: &str, plan: Plan)
        requires
            old(self).wf(),
        ensures
            final(self).wf(),
            final(self).plans() == old(self).plans().insert(manager_id@, plan),
            final(self).counts() == old(self).counts(),
    {
        self.plans.insert(manager_id, plan);
    }

    /// Provisions one more vault for the manager, unless its plan's limit is
    /// reached.
    pub fn try_provision(&mut self, manager_id: &str) -> (r: Result<(), &'static str>)
        requires
            old(self).wf(),
        ensures
            final(self).wf(),
            final(self).plans() == old(self).plans(),
            r is Ok <==> old(self).count_of(manager_id@) < plan_limit(old(self).plan_of(manager_id@)),
            (final(self).count_of(manager_id@), r is Ok)
                == provision_step(old(self).count_of(manager_id@), plan_limit(old(self).plan_of(manager_id@))),
            r is Ok ==> final(self).counts() == old(self).counts().insert(
                manager_id@,
                (old(self).count_of(manager_id@) + 1) as u32,
            ),
            r matches Err(e) ==> final(self).counts() == old(self).counts().insert(manager_id@, old(self).count_of(manager_id@))
                && e@ == "vault quota exceeded for manager's plan"@,
    {
        let plan = match self.plans.get(manager_id) {
            Some(p) => *p,
            None => Plan::Basic,
        };
        let count: u32 = match self.counts.get(manager_id) {
            Some(c) => *c,
            None => 0,
        };
        if count >= plan.max_vaults() {
            self.counts.insert(manager_id, count);
            return Err("vault quota exceeded for manager's plan");
        }
        self.counts.insert(manager_id, count + 1);
        Ok(())
    }
}

/// However many vaults a manager tries to provision under one plan, its
/// count never passes the plan's limit: starting within the limit, `n`
/// attempts leave the count at the smaller of the start plus `n` and the
/// limit.
pub proof fn law_quota_never_exceeded(count: u32, p: Plan, n: nat)
    requires
        count <= plan_limit(p),
    ensures
        provisions(count, plan_limit(p), n) <= plan_limit(p),
        provisions(count, plan_limit(p), n) == if count + n <= plan_limit(p) { count + n } else { plan_limit(p) as int },
    decreases n,
{
    if n > 0 {
        law_quota_never_exceeded(provision_step(count, plan_limit(p)).0, p, (n - 1) as nat);
    }
}

} // verus!
