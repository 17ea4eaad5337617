//! Batch settlement in two phases: the batch commits as a whole or is rolled
//! back as a whole.
use vstd::prelude::*;

verus! {

#[derive(Debug, PartialEq, Eq, Clone, Copy, Structural)]
pub enum PaymentState {
    Prepared,
    Committed,
    RolledBack,
}

/// The payments of one settlement.
pub struct SettlementBatch {
    pub payments: Vec<PaymentState>,
}

/// Every element of `s` is `p`.
pub open spec fn all_in(s: Seq<PaymentState>, p: PaymentState) -> bool {
    forall|i: int| 0 <= i < s.len() ==> s[i] == p
}

impl SettlementBatch {
    /// Phase one: `count` prepared payments.
    pub fn prepare(count: usize) -> (b: Self)
        ensures
            b.payments@.len() == count,
            all_in(b.payments@, PaymentState::Prepared),
    {
        let mut payments: Vec<PaymentState> = Vec::new();
        let mut i: usize = 0;
        while i < count
            invariant
                i <= count,
                payments@.len() == i,
                all_in(payments@, PaymentState::Prepared),
            decreases count - i,
        {
            payments.push(PaymentState::Prepared);
            i = i + 1;
        }
        SettlementBatch { payments }
    }

    /// Phase two: commits every payment when every one prepared successfully,
    /// and otherwise rolls every one back.
    pub fn commit_or_rollback(&mut self, prepared_ok: &[bool])
        ensures
            final(self).payments@.len() == old(self).payments@.len(),
            (forall|i: int| 0 <= i < prepared_ok@.len() ==> prepared_ok@[i]) ==> all_in(final(self).payments@, PaymentState::Committed),
            !(forall|i: int| 0 <= i < prepared_ok@.len() ==> prepared_ok@[i]) ==> all_in(final(self).payments@, PaymentState::RolledBack),
    {
        let mut all_ok = true;
        let mut k: usize = 0;
        while k < prepared_ok.len()
            invariant
                k <= prepared_ok@.len(),
                all_ok == (forall|i: int| 0 <= i < k ==> prepared_ok@[i]),
            decreases prepared_ok@.len() - k,
        {
            if !prepared_ok[k] {
                all_ok = false;
            }
            k = k + 1;
        }
        let target = if all_ok { PaymentState::Committed } else { PaymentState::RolledBack };
        let n = self.payments.len();
        let mut i: usize = 0;
        while i < n
            invariant
                n == self.payments@.len(),
                n == old(self).payments@.len(),
                i <= n,
                forall|j: int| 0 <= j < i ==> self.payments@[j] == target,
            decreases n - i,
        {
            self.payments.set(i, target);
            i = i + 1;
        }
    }
}

/// After the second phase a batch is never mixed: its payments all share
/// one state.
pub proof fn law_no_mixed_batch(s: Seq<PaymentState>, p: PaymentState, i: int, j: int)
    requires
        all_in(s, p),
        0 <= i < s.len(),
        0 <= j < s.len(),
    ensures
        s[i] == s[j],
{
}

} // verus!
