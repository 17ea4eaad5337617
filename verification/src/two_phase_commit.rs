//! Two-phase commit of a transaction's operations, and reconciliation of
//! pending transactions.
use vstd::prelude::*;

use crate::text::{concat, contains_str, to_string, views};

verus! {

/// The phase a transaction is in.
#[derive(Debug, Clone, Copy, PartialEq, Eq, Structural)]
pub enum TxPhase {
    Prepared,
    Committed,
    RolledBack,
    Failed,
}

/// The name of a phase, as `{:?}` prints it.
pub open spec fn phase_name(p: TxPhase) -> Seq<char> {
    match p {
        TxPhase::Prepared => "Prepared"@,
        TxPhase::Committed => "Committed"@,
        TxPhase::RolledBack => "RolledBack"@,
        TxPhase::Failed => "Failed"@,
    }
}

/// The name of a phase, as `{:?}` prints it.
pub fn phase_debug(p: &TxPhase) -> (s: String)
    ensures
        s@ == phase_name(*p),
{
    match p {
        TxPhase::Prepared => to_string("Prepared"),
        TxPhase::Committed => to_string("Committed"),
        TxPhase::RolledBack => to_string("RolledBack"),
        TxPhase::Failed => to_string("Failed"),
    }
}

/// A transaction made of named operations, each of which is committed once.
pub struct TwoPhaseTx {
    pub tx_id: String,
    pub phase: TxPhase,
    pub operations: Vec<String>,
    pub completed_ops: Vec<String>,
}

impl TwoPhaseTx {
    /// The operations' names.
    pub open spec fn ops(&self) -> Seq<Seq<char>> {
        views(self.operations@)
    }

    /// The committed operations' names, in commit order.
    pub open spec fn done(&self) -> Seq<Seq<char>> {
        views(self.completed_ops@)
    }

    /// Every committed operation is one of the transaction's operations and
    /// none is committed twice.
    pub open spec fn wf(&self) -> bool {
        &&& self.done().no_duplicates()
        &&& forall|i: int| 0 <= i < self.done().len() ==> self.ops().contains(#[trigger] self.done()[i])
    }

    pub open spec fn spec_is_fully_committed(&self) -> bool {
        self.phase == TxPhase::Committed && self.completed_ops@.len() == self.operations@.len()
    }

    pub open spec fn spec_can_retry(&self) -> bool {
        self.phase == TxPhase::Failed || self.phase == TxPhase::RolledBack
    }

    /// A new transaction, prepared, with nothing committed.
    pub fn new(tx_id: String, operations: Vec<String>) -> (tx: Self)
        ensures
            tx.tx_id == tx_id,
            tx.phase == TxPhase::Prepared,
            tx.operations == operations,
            tx.completed_ops@.len() == 0,
            tx.wf(),
    {
        let tx = TwoPhaseTx { tx_id, phase: TxPhase::Prepared, operations, completed_ops: Vec::new() };
        assert(tx.done() =~= Seq::<Seq<char>>::empty());
        tx
    }

    /// Whether the transaction is ready to commit: it is prepared, or it failed
    /// and may be retried.
    pub fn prepare(&mut self) -> (r: bool)
        ensures
            *final(self) == *old(self),
            r == (old(self).phase == TxPhase::Prepared || old(self).phase == TxPhase::Failed),
    {
        if self.phase == TxPhase::Prepared {
            true
        } else {
            self.phase == TxPhase::Failed && self.can_retry()
        }
    }

    /// Commits one operation. Refused outside the prepared phase, for an
    /// operation the transaction does not have, and for one already committed.
    /// The transaction becomes committed when every operation is.
    pub fn commit_op(&mut self, op: &str) -> (r: Result<(), String>)
        ensures
            r is Err <==> (old(self).phase != TxPhase::Prepared || !old(self).ops().contains(op@)
                || old(self).done().contains(op@)),
            r matches Err(e) ==> *final(self) == *old(self) && e@ == (
                if old(self).phase != TxPhase::Prepared {
                    "Cannot commit in phase "@ + phase_name(old(self).phase)
                } else if !old(self).ops().contains(op@) {
                    "Unknown operation: "@ + op@
                } else {
                    "Operation already committed: "@ + op@
                }),
            r is Ok ==> {
                &&& final(self).done() == old(self).done().push(op@)
                &&& final(self).tx_id == old(self).tx_id
                &&& final(self).operations == old(self).operations
                &&& final(self).phase == (if old(self).completed_ops@.len() + 1 == old(self).operations@.len() {
                    TxPhase::Committed
                } else {
                    TxPhase::Prepared
                })
            },
            old(self).wf() ==> final(self).wf(),
    {
        if self.phase != TxPhase::Prepared {
            let name = phase_debug(&self.phase);
            return Err(concat("Cannot commit in phase ", name.as_str()));
        }
        if !contains_str(&self.operations, op) {
            return Err(concat("Unknown operation: ", op));
        }
        if contains_str(&self.completed_ops, op) {
            return Err(concat("Operation already committed: ", op));
        }
        let ghost before = self.done();
        self.completed_ops.push(to_string(op));
        assert(self.done() =~= before.push(op@));
        if self.completed_ops.len() == self.operations.len() {
            self.phase = TxPhase::Committed;
        }
        proof {
            if old(self).wf() {
                assert forall|i: int| 0 <= i < self.done().len() implies self.ops().contains(#[trigger] self.done()[i]) by {
                    if i < before.len() {
                        assert(old(self).done()[i] == self.done()[i]);
                    }
                }
            }
        }
        Ok(())
    }

    /// Whether the transaction committed all of its operations.
    pub fn is_fully_committed(&self) -> (r: bool)
        ensures
            r == self.spec_is_fully_committed(),
    {
        self.phase == TxPhase::Committed && self.completed_ops.len() == self.operations.len()
    }

    /// Discards every committed operation and marks the transaction rolled back.
    pub fn rollback(&mut self)
        ensures
            final(self).completed_ops@.len() == 0,
            final(self).phase == TxPhase::RolledBack,
            final(self).tx_id == old(self).tx_id,
            final(self).operations == old(self).operations,
            final(self).wf(),
    {
        self.completed_ops.clear();
        self.phase = TxPhase::RolledBack;
        assert(self.done() =~= Seq::<Seq<char>>::empty());
    }

    /// Whether the transaction failed or was rolled back, and so may be retried.
    pub fn can_retry(&self) -> (r: bool)
        ensures
            r == self.spec_can_retry(),
    {
        self.phase == TxPhase::Failed || self.phase == TxPhase::RolledBack
    }
}

/// The outcome of reconciling one transaction.
pub struct ReconciliationResult {
    pub tx_id: String,
    pub success: bool,
    pub retried: bool,
}

/// Whether a transaction stays pending after reconciliation.
pub open spec fn stays_pending(tx: TwoPhaseTx) -> bool {
    tx.phase == TxPhase::Prepared
}

/// Whether a transaction counts as failed.
pub open spec fn is_failed(tx: TwoPhaseTx) -> bool {
    tx.phase == TxPhase::Failed
}

proof fn lemma_no_failed(s: Seq<TwoPhaseTx>)
    requires
        forall|k: int| 0 <= k < s.len() ==> (#[trigger] s[k]).phase == TxPhase::Prepared,
    ensures
        s.filter(|tx: TwoPhaseTx| is_failed(tx)).len() == 0,
    decreases s.len(),
{
    reveal_with_fuel(Seq::<_>::filter, 1);
    if s.len() > 0 {
        lemma_no_failed(s.drop_last());
    }
}

/// Reconciliation drops no prepared transaction: a pending transaction in
/// the prepared phase, whatever operations it has committed, is among those
/// kept pending, so a later reconciliation reports it again.
pub proof fn law_prepared_stays_pending(pending: Seq<TwoPhaseTx>, i: int)
    requires
        0 <= i < pending.len(),
        pending[i].phase == TxPhase::Prepared,
    ensures
        pending.filter(|tx: TwoPhaseTx| tx.phase == TxPhase::Prepared).contains(pending[i]),
    decreases pending.len(),
{
    reveal_with_fuel(Seq::<_>::filter, 1);
    let f = pending.filter(|tx: TwoPhaseTx| tx.phase == TxPhase::Prepared);
    if i == pending.len() - 1 {
        assert(f.last() == pending[i]);
        assert(f[f.len() - 1] == pending[i]);
    } else {
        law_prepared_stays_pending(pending.drop_last(), i);
        let g = pending.drop_last().filter(|tx: TwoPhaseTx| tx.phase == TxPhase::Prepared);
        let k = choose|k: int| 0 <= k < g.len() && g[k] == pending[i];
        assert(pending.drop_last()[i] == pending[i]);
        assert(f[k] == g[k]);
    }
}

/// Tracks transactions until they are reconciled.
pub struct Reconciler {
    pending_txs: Vec<TwoPhaseTx>,
}

impl Reconciler {
    /// The pending transactions, in registration order.
    pub closed spec fn pending(&self) -> Seq<TwoPhaseTx> {
        self.pending_txs@
    }

    /// The number of pending transactions that failed.
    pub open spec fn spec_failed_count(&self) -> nat {
        self.pending().filter(|tx: TwoPhaseTx| is_failed(tx)).len()
    }

    /// A reconciler with nothing pending.
    pub fn new() -> (r: Self)
        ensures
            r.pending().len() == 0,
    {
        Reconciler { pending_txs: Vec::new() }
    }

    /// Adds a transaction to the pending ones.
    pub fn register(&mut self, tx: TwoPhaseTx)
        ensures
            final(self).pending() == old(self).pending().push(tx),
    {
        self.pending_txs.push(tx);
    }

    /// Reports on each pending transaction, in order: a fully committed one
    /// succeeded; one that failed or was rolled back is retried; any other is
    /// neither. Afterwards only the transactions in the prepared phase stay
    /// pending.
    pub fn reconcile(&mut self) -> (results: Vec<ReconciliationResult>)
        ensures
            results@.len() == old(self).pending().len(),
            forall|i: int| 0 <= i < results@.len() ==> {
                let tx = #[trigger] old(self).pending()[i];
                &&& results@[i].tx_id@ == tx.tx_id@
                &&& results@[i].success == tx.spec_is_fully_committed()
                &&& results@[i].retried == (!tx.spec_is_fully_committed() && tx.spec_can_retry())
            },
            final(self).pending() == old(self).pending().filter(|tx: TwoPhaseTx| stays_pending(tx)),
            final(self).pending() == old(self).pending().filter(|tx: TwoPhaseTx| tx.phase == TxPhase::Prepared),
            forall|i: int| 0 <= i < old(self).pending().len() && (#[trigger] old(self).pending()[i]).phase == TxPhase::Prepared
                ==> final(self).pending().contains(old(self).pending()[i]),
            forall|i: int| 0 <= i < final(self).pending().len()
                ==> (#[trigger] final(self).pending()[i]).phase == TxPhase::Prepared,
            final(self).spec_failed_count() == 0,
    {
        let mut results: Vec<ReconciliationResult> = Vec::new();
        let mut i: usize = 0;
        while i < self.pending_txs.len()
            invariant
                i <= self.pending_txs@.len(),
                self.pending_txs@ == old(self).pending_txs@,
                results@.len() == i,
                forall|j: int| 0 <= j < i ==> {
                    let tx = #[trigger] self.pending_txs@[j];
                    &&& results@[j].tx_id@ == tx.tx_id@
                    &&& results@[j].success == tx.spec_is_fully_committed()
                    &&& results@[j].retried == (!tx.spec_is_fully_committed() && tx.spec_can_retry())
                },
            decreases self.pending_txs@.len() - i,
        {
            let tx = &self.pending_txs[i];
            let id = tx.tx_id.clone();
            if tx.is_fully_committed() {
                results.push(ReconciliationResult { tx_id: id, success: true, retried: false });
            } else if tx.can_retry() {
                results.push(ReconciliationResult { tx_id: id, success: false, retried: true });
            } else {
                results.push(ReconciliationResult { tx_id: id, success: false, retried: false });
            }
            i = i + 1;
        }
        let ghost orig = self.pending_txs@;
        let mut rest: Vec<TwoPhaseTx> = Vec::new();
        std::mem::swap(&mut rest, &mut self.pending_txs);
        let mut kept: Vec<TwoPhaseTx> = Vec::new();
        let ghost mut n: int = 0;
        while rest.len() > 0
            invariant
                0 <= n <= orig.len(),
                rest@ == orig.subrange(n, orig.len() as int),
                kept@ == orig.subrange(0, n).filter(|tx: TwoPhaseTx| stays_pending(tx)),
                forall|k: int| 0 <= k < kept@.len() ==> (#[trigger] kept@[k]).phase == TxPhase::Prepared,
            decreases rest@.len(),
        {
            let tx = rest.remove(0);
            proof {
                reveal_with_fuel(Seq::<_>::filter, 1);
                assert(orig.subrange(0, n + 1).drop_last() =~= orig.subrange(0, n));
                assert(orig.subrange(0, n + 1).last() == tx);
            }
            if tx.phase == TxPhase::Prepared {
                kept.push(tx);
            }
            proof {
                n = n + 1;
                assert(rest@ =~= orig.subrange(n, orig.len() as int));
            }
        }
        assert(orig.subrange(0, n) =~= orig);
        self.pending_txs = kept;
        proof {
            lemma_no_failed(self.pending_txs@);
            assert((|tx: TwoPhaseTx| stays_pending(tx)) =~= (|tx: TwoPhaseTx| tx.phase == TxPhase::Prepared));
            assert(orig.filter(|tx: TwoPhaseTx| stays_pending(tx)) == orig.filter(|tx: TwoPhaseTx| tx.phase == TxPhase::Prepared));
            assert forall|i: int| 0 <= i < orig.len() && (#[trigger] orig[i]).phase == TxPhase::Prepared
                implies self.pending_txs@.contains(orig[i]) by {
                law_prepared_stays_pending(orig, i);
            }
        }
        results
    }

    /// The number of pending transactions that failed.
    pub fn failed_count(&self) -> (n: usize)
        ensures
            n == self.spec_failed_count(),
    {
        let mut count: usize = 0;
        let mut i: usize = 0;
        while i < self.pending_txs.len()
            invariant
                i <= self.pending_txs@.len(),
                count == self.pending_txs@.subrange(0, i as int).filter(|tx: TwoPhaseTx| is_failed(tx)).len(),
                count <= i,
            decreases self.pending_txs@.len() - i,
        {
            proof {
                reveal_with_fuel(Seq::<_>::filter, 1);
                assert(self.pending_txs@.subrange(0, i + 1).drop_last() =~= self.pending_txs@.subrange(0, i as int));
            }
            if self.pending_txs[i].phase == TxPhase::Failed {
                count = count + 1;
            }
            i = i + 1;
        }
        assert(self.pending_txs@.subrange(0, i as int) =~= self.pending_txs@);
        count
    }
}

} // verus!
