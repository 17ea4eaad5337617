//! Agent identities and their revocation. Instants are microseconds since the
//! Unix epoch.
use vstd::prelude::*;

use crate::clock::utc_now_micros;

verus! {

/// An agent's identity.
pub struct AgentIdentity {
    pub agent_id: String,
    pub reputation_score: u32,
    pub is_active: bool,
    pub revoked_at: Option<i64>,
    pub created_at: i64,
}

impl AgentIdentity {
    pub open spec fn spec_is_revoked(&self) -> bool {
        !self.is_active && self.revoked_at is Some
    }

    pub open spec fn spec_was_revoked_before(&self, t: i64) -> bool {
        match self.revoked_at {
            Some(r) => r < t,
            None => false,
        }
    }

    /// An active identity created at `now`, with no reputation yet.
    pub fn new_at(agent_id: String, now: i64) -> (a: Self)
        ensures
            a.agent_id == agent_id,
            a.reputation_score == 0,
            a.is_active,
            a.revoked_at is None,
            a.created_at == now,
    {
        AgentIdentity { agent_id, reputation_score: 0, is_active: true, revoked_at: None, created_at: now }
    }

    /// An active identity created now, with no reputation yet.
    pub fn new(agent_id: String) -> (a: Self)
        ensures
            a.agent_id == agent_id,
            a.reputation_score == 0,
            a.is_active,
            a.revoked_at is None,
    {
        Self::new_at(agent_id, utc_now_micros())
    }

    /// Revokes the identity at `now`.
    pub fn revoke_at(&mut self, now: i64)
        ensures
            !final(self).is_active,
            final(self).revoked_at == Some(now),
            final(self).agent_id == old(self).agent_id,
            final(self).reputation_score == old(self).reputation_score,
            final(self).created_at == old(self).created_at,
    {
        self.is_active = false;
        self.revoked_at = Some(now);
    }

    /// Revokes the identity now.
    pub fn revoke(&mut self)
        ensures
            !final(self).is_active,
            final(self).revoked_at is Some,
            final(self).agent_id == old(self).agent_id,
            final(self).reputation_score == old(self).reputation_score,
            final(self).created_at == old(self).created_at,
    {
        self.revoke_at(utc_now_micros());
    }

    /// Whether the identity is inactive with a revocation time.
    pub fn is_revoked(&self) -> (r: bool)
        ensures
            r == self.spec_is_revoked(),
    {
        !self.is_active && self.revoked_at.is_some()
    }

    /// Whether the identity was revoked strictly before `dt`.
    pub fn was_revoked_before(&self, dt: i64) -> (r: bool)
        ensures
            r == self.spec_was_revoked_before(dt),
    {
        match self.revoked_at {
            Some(revoked) => revoked < dt,
            None => false,
        }
    }
}

/// A revoked identity stays revoked for every later instant, and was not
/// revoked before the revocation.
pub proof fn law_revocation_time(a: AgentIdentity, t: i64, later: i64)
    requires
        a.revoked_at == Some(t),
        !a.is_active,
    ensures
        a.spec_is_revoked(),
        a.spec_was_revoked_before(later) <==> t < later,
        !a.spec_was_revoked_before(t),
{
}

} // verus!
