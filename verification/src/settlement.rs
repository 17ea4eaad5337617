//! Settlement delays: gains may only be claimed once they are final.
//! Instants are microseconds since the Unix epoch.
use vstd::prelude::*;

use crate::clock::utc_now_micros;
use crate::text::str_eq;

verus! {

/// Microseconds in a second.
pub const MICROS_PER_SEC: i128 = 1_000_000;

/// When a gain becomes final: its realisation plus the settlement delay.
pub open spec fn deadline_of(gain_at: i64, delay_secs: i64) -> int {
    gain_at + delay_secs * MICROS_PER_SEC
}

/// A realised gain waiting for its settlement delay to pass.
pub struct SettlementRecord {
    pub vault_id: String,
    pub gain_realized_at: i64,
    pub settlement_delay_secs: i64,
    pub is_settled: bool,
}

impl SettlementRecord {
    pub open spec fn spec_is_final(&self, now: i64) -> bool {
        self.is_settled || now >= deadline_of(self.gain_realized_at, self.settlement_delay_secs)
    }

    /// An unsettled gain realised at `gain_time`.
    pub fn new(vault_id: String, gain_time: i64, delay_secs: i64) -> (r: Self)
        ensures
            r.vault_id == vault_id,
            r.gain_realized_at == gain_time,
            r.settlement_delay_secs == delay_secs,
            !r.is_settled,
    {
        SettlementRecord { vault_id, gain_realized_at: gain_time, settlement_delay_secs: delay_secs, is_settled: false }
    }

    fn deadline(&self) -> (d: i128)
        ensures
            d == deadline_of(self.gain_realized_at, self.settlement_delay_secs),
    {
        assert(-0x8000_0000_0000_0000 * 1_000_000 <= self.settlement_delay_secs * MICROS_PER_SEC <= 0x7fff_ffff_ffff_ffff * 1_000_000) by (nonlinear_arith)
            requires
                -0x8000_0000_0000_0000 <= self.settlement_delay_secs <= 0x7fff_ffff_ffff_ffff,
        ;
        self.gain_realized_at as i128 + (self.settlement_delay_secs as i128) * MICROS_PER_SEC
    }

    /// Whether the gain is final at `current_time`: it was settled, or its
    /// delay has passed.
    pub fn is_final(&self, current_time: i64) -> (r: bool)
        ensures
            r == self.spec_is_final(current_time),
    {
        if self.is_settled {
            return true;
        }
        current_time as i128 >= self.deadline()
    }

    /// Microseconds until the gain is final, if it is not final yet.
    pub fn time_until_finality(&self, current_time: i64) -> (r: Option<i128>)
        ensures
            r is None <==> self.spec_is_final(current_time),
            r matches Some(d) ==> d == deadline_of(self.gain_realized_at, self.settlement_delay_secs) - current_time
                && d > 0,
    {
        if self.is_settled {
            return None;
        }
        let deadline = self.deadline();
        if current_time as i128 >= deadline {
            None
        } else {
            Some(deadline - current_time as i128)
        }
    }
}

/// The gains of vaults and their settlement state.
pub struct SettlementGuard {
    default_delay_secs: i64,
    pending: Vec<SettlementRecord>,
}

impl SettlementGuard {
    pub closed spec fn records(&self) -> Seq<SettlementRecord> {
        self.pending@
    }

    pub closed spec fn default_delay(&self) -> i64 {
        self.default_delay_secs
    }

    pub open spec fn spec_can_claim(&self, vault: Seq<char>, now: i64) -> bool {
        forall|i: int| 0 <= i < self.records().len() && (#[trigger] self.records()[i]).vault_id@ == vault
            ==> self.records()[i].spec_is_final(now)
    }

    pub open spec fn spec_pending_count(&self) -> nat {
        self.records().filter(|r: SettlementRecord| !r.is_settled).len()
    }

    /// No gain registered; gains wait `default_delay_secs`.
    pub fn new(default_delay_secs: i64) -> (g: Self)
        ensures
            g.records().len() == 0,
            g.default_delay() == default_delay_secs,
    {
        SettlementGuard { default_delay_secs, pending: Vec::new() }
    }

    /// Registers a gain of `vault_id` realised at `gain_time`.
    pub fn register_gain(&mut self, vault_id: String, gain_time: i64)
        ensures
            final(self).default_delay() == old(self).default_delay(),
            final(self).records() == old(self).records().push(
                SettlementRecord { vault_id, gain_realized_at: gain_time, settlement_delay_secs: old(self).default_delay(), is_settled: false },
            ),
    {
        let record = SettlementRecord::new(vault_id, gain_time, self.default_delay_secs);
        self.pending.push(record);
    }

    /// Whether every gain of the vault is final at `current_time`.
    pub fn can_claim(&self, vault_id: &str, current_time: i64) -> (r: bool)
        ensures
            r == self.spec_can_claim(vault_id@, current_time),
    {
        let mut i: usize = 0;
        while i < self.pending.len()
            invariant
                i <= self.pending@.len(),
                forall|k: int| 0 <= k < i && (#[trigger] self.pending@[k]).vault_id@ == vault_id@
                    ==> self.pending@[k].spec_is_final(current_time),
            decreases self.pending@.len() - i,
        {
            let r = &self.pending[i];
            if str_eq(r.vault_id.as_str(), vault_id) && !r.is_final(current_time) {
                assert(self.records()[i as int] == self.pending@[i as int]);
                return false;
            }
            i = i + 1;
        }
        true
    }

    /// Marks every gain of the vault settled.
    pub fn finalize(&mut self, vault_id: &str)
        ensures
            final(self).default_delay() == old(self).default_delay(),
            final(self).records().len() == old(self).records().len(),
            forall|i: int| 0 <= i < final(self).records().len() ==> {
                let o = old(self).records()[i];
                &&& (#[trigger] final(self).records()[i]).vault_id == o.vault_id
                &&& final(self).records()[i].gain_realized_at == o.gain_realized_at
                &&& final(self).records()[i].settlement_delay_secs == o.settlement_delay_secs
                &&& final(self).records()[i].is_settled == (o.is_settled || o.vault_id@ == vault_id@)
            },
    {
        let n = self.pending.len();
        let mut i: usize = 0;
        while i < n
            invariant
                n == self.pending@.len(),
                n == old(self).pending@.len(),
                self.default_delay_secs == old(self).default_delay_secs,
                i <= n,
                forall|k: int| 0 <= k < n ==> {
                    let o = old(self).pending@[k];
                    &&& (#[trigger] self.pending@[k]).vault_id == o.vault_id
                    &&& self.pending@[k].gain_realized_at == o.gain_realized_at
                    &&& self.pending@[k].settlement_delay_secs == o.settlement_delay_secs
                    &&& self.pending@[k].is_settled == if k < i {
                        o.is_settled || o.vault_id@ == vault_id@
                    } else {
                        o.is_settled
                    }
                },
            decreases n - i,
        {
            if str_eq(self.pending[i].vault_id.as_str(), vault_id) {
                let mut rec = self.pending.remove(i);
                rec.is_settled = true;
                self.pending.insert(i, rec);
            }
            i = i + 1;
        }
    }

    /// The number of gains not settled yet.
    pub fn pending_count(&self) -> (n: usize)
        ensures
            n == self.spec_pending_count(),
    {
        let mut count: usize = 0;
        let mut i: usize = 0;
        while i < self.pending.len()
            invariant
                i <= self.pending@.len(),
                count == self.pending@.subrange(0, i as int).filter(|r: SettlementRecord| !r.is_settled).len(),
                count <= i,
            decreases self.pending@.len() - i,
        {
            proof {
                reveal_with_fuel(Seq::<_>::filter, 1);
                assert(self.pending@.subrange(0, i + 1).drop_last() =~= self.pending@.subrange(0, i as int));
            }
            if !self.pending[i].is_settled {
                count = count + 1;
            }
            i = i + 1;
        }
        assert(self.pending@.subrange(0, i as int) =~= self.pending@);
        count
    }

    /// Whether every gain of the vault is final now.
    pub fn can_claim_now(&self, vault_id: &str) -> (r: bool)
        ensures
            exists|now: i64| r == self.spec_can_claim(vault_id@, now),
    {
        let now = utc_now_micros();
        self.can_claim(vault_id, now)
    }
}

/// Finality is permanent: a gain final at one time is final at every later
/// time.
pub proof fn law_finality_is_monotone(r: SettlementRecord, t1: i64, t2: i64)
    requires
        r.spec_is_final(t1),
        t1 <= t2,
    ensures
        r.spec_is_final(t2),
{
}

/// A vault can claim at `now` exactly when each of its gains is settled or
/// has reached its deadline (realisation plus the delay in seconds, counted
/// in microseconds) by `now`: one unsettled gain whose deadline is still
/// ahead blocks the claim.
pub proof fn law_claim_after_deadlines(g: SettlementGuard, vault: Seq<char>, now: i64)
    ensures
        (forall|i: int| 0 <= i < g.records().len() && (#[trigger] g.records()[i]).vault_id@ == vault
            ==> g.records()[i].is_settled
                || now >= g.records()[i].gain_realized_at + g.records()[i].settlement_delay_secs * 1_000_000)
            ==> g.spec_can_claim(vault, now),
        forall|i: int| 0 <= i < g.records().len() && (#[trigger] g.records()[i]).vault_id@ == vault
            && !g.records()[i].is_settled
            && now < g.records()[i].gain_realized_at + g.records()[i].settlement_delay_secs * 1_000_000
            ==> !g.spec_can_claim(vault, now),
{
}

/// Once a vault's gains are finalised it can claim at any time.
pub proof fn law_finalized_vault_can_claim(before: SettlementGuard, after: SettlementGuard, vault: Seq<char>, now: i64)
    requires
        after.records().len() == before.records().len(),
        forall|i: int| 0 <= i < after.records().len() ==> {
            let o = before.records()[i];
            &&& (#[trigger] after.records()[i]).vault_id == o.vault_id
            &&& after.records()[i].is_settled == (o.is_settled || o.vault_id@ == vault)
        },
    ensures
        after.spec_can_claim(vault, now),
{
    assert forall|i: int| 0 <= i < after.records().len() && (#[trigger] after.records()[i]).vault_id@ == vault
        implies after.records()[i].spec_is_final(now) by {
        assert(after.records()[i].vault_id == before.records()[i].vault_id);
    }
}

} // verus!
