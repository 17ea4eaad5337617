use vault_core::failover::FailoverManager;
use vault_core::nonce_partition::{approaching_exhaustion, NoncePartition, NONCE_MAX, NONCE_WARN_THRESHOLD};
use vault_core::rotation_journal::{RotationJournal, RotationJournalStore, RotationStep};
use vault_core::two_phase_commit::{Reconciler, TwoPhaseTx, TxPhase};

#[test]
fn test_failover_lifecycle() {
    let mut mgr = FailoverManager::new();
    assert!(mgr.can_execute("v1"));
    mgr.initiate_failover("v1", "a1");
    assert!(!mgr.can_execute("v1"));
    assert!(mgr.confirm_reauth("v1"));
    assert!(mgr.can_execute("v1"));
}

#[test]
fn test_confirm_reauth_returns_false_when_no_pending() {
    let mut mgr = FailoverManager::new();
    assert!(!mgr.confirm_reauth("v1"));
}

#[test]
fn test_no_duplicate_pending() {
    let mut mgr = FailoverManager::new();
    mgr.initiate_failover("v1", "a1");
    mgr.initiate_failover("v1", "a1");
    assert_eq!(mgr.pending_count(), 1);
}

#[test]
fn failover_of_one_vault_leaves_others_executable() {
    let mut mgr = FailoverManager::new();
    mgr.initiate_failover("v1", "a1");
    mgr.initiate_failover("v10", "a2");
    assert!(!mgr.can_execute("v1"));
    assert!(!mgr.can_execute("v10"));
    assert!(mgr.can_execute("v"));
    assert!(mgr.confirm_reauth("v1"));
    assert!(mgr.can_execute("v1"));
    assert!(!mgr.can_execute("v10"));
    assert_eq!(mgr.pending_count(), 1);
}

#[test]
fn test_sequential_nonces() {
    let mut np = NoncePartition::new();
    assert_eq!(np.next_nonce("rail_a").unwrap(), 0);
    assert_eq!(np.next_nonce("rail_a").unwrap(), 1);
    assert_eq!(np.next_nonce("rail_a").unwrap(), 2);
}

#[test]
fn test_isolated_domains() {
    let mut np = NoncePartition::new();
    assert_eq!(np.next_nonce("rail_a").unwrap(), 0);
    assert_eq!(np.next_nonce("rail_b").unwrap(), 0);
    assert_eq!(np.next_nonce("rail_a").unwrap(), 1);
    assert_eq!(np.next_nonce("rail_b").unwrap(), 1);
}

#[test]
fn test_verify_unique() {
    let mut np = NoncePartition::new();
    np.next_nonce("rail_a").unwrap();
    np.next_nonce("rail_a").unwrap();
    assert!(!np.verify_unique("rail_a", 0));
    assert!(!np.verify_unique("rail_a", 1));
    assert!(np.verify_unique("rail_a", 2));
}

#[test]
fn test_nonce_exhaustion() {
    let mut np = NoncePartition::new();
    np.restore_counter("test", NONCE_MAX);
    assert!(np.next_nonce("test").is_err());
    assert!(np.is_exhausted("test"));
}

#[test]
fn test_reset_domain() {
    let mut np = NoncePartition::new();
    np.next_nonce("rail_a").unwrap();
    np.next_nonce("rail_a").unwrap();
    assert_eq!(np.current_nonce("rail_a"), 2);
    np.reset_domain("rail_a");
    assert_eq!(np.current_nonce("rail_a"), 0);
    assert!(!np.is_exhausted("rail_a"));
}

#[test]
fn exhausted_domain_error_and_reset() {
    let mut np = NoncePartition::new();
    np.restore_counter("d", NONCE_MAX);
    assert_eq!(np.next_nonce("d"), Err("nonce range exhausted for domain"));
    assert_eq!(np.next_nonce("d"), Err("nonce range exhausted for domain"));
    assert!(np.is_exhausted("d"));
    assert_eq!(np.current_nonce("d"), NONCE_MAX);
    assert_eq!(np.next_nonce("other"), Ok(0));
    np.reset_domain("d");
    assert!(!np.is_exhausted("d"));
    assert_eq!(np.next_nonce("d"), Ok(0));
    assert!(!np.verify_unique("d", 0));
    assert!(np.verify_unique("d", 1));
}

#[test]
fn test_journal_lifecycle() {
    let mut journal =
        RotationJournal::new("vault1".to_string(), "agent_a".to_string(), "agent_b".to_string());
    let progress = |j: &RotationJournal| {
        let (done, total) = j.step_progress();
        (done as f64 / total as f64) * 100.0
    };
    assert_eq!(progress(&journal), 0.0);

    let steps = vec![
        RotationStep::PolicyRevoke,
        RotationStep::PolicyGrant,
        RotationStep::VaultReassign,
        RotationStep::StateSnapshot,
        RotationStep::Confirm,
    ];

    for step in &steps {
        assert_eq!(journal.next_step(), Some(step.clone()));
        journal.complete_step(step.clone());
    }

    assert!(journal.is_complete());
    assert!(journal.next_step().is_none());
    assert_eq!(progress(&journal), 100.0);
}

#[test]
fn test_store_resume() {
    let mut store = RotationJournalStore::new();
    let journal = RotationJournal::new("vault1".to_string(), "a".to_string(), "b".to_string());
    store.save(journal);
    assert_eq!(store.get_incomplete().len(), 1);
    assert!(store.resume("vault1").is_some());
}

#[test]
fn out_of_order_step_is_ignored() {
    let mut journal = RotationJournal::new("v".to_string(), "a".to_string(), "b".to_string());
    journal.complete_step(RotationStep::PolicyGrant);
    assert_eq!(journal.completed_steps.len(), 0);
    assert_eq!(journal.step, RotationStep::PolicyRevoke);
    journal.complete_step(RotationStep::PolicyRevoke);
    assert_eq!(journal.step, RotationStep::PolicyGrant);
    assert!(journal.can_resume());
}

#[test]
fn store_replaces_journal_of_same_vault_and_resumes_in_place() {
    let mut store = RotationJournalStore::new();
    store.save(RotationJournal::new("v1".to_string(), "a".to_string(), "b".to_string()));
    let mut done = RotationJournal::new("v1".to_string(), "a".to_string(), "c".to_string());
    for s in [
        RotationStep::PolicyRevoke,
        RotationStep::PolicyGrant,
        RotationStep::VaultReassign,
        RotationStep::StateSnapshot,
        RotationStep::Confirm,
    ] {
        done.complete_step(s);
    }
    store.save(done);
    assert_eq!(store.get_incomplete().len(), 0);
    assert!(store.resume("v1").is_none());
    store.save(RotationJournal::new("v2".to_string(), "a".to_string(), "b".to_string()));
    {
        let j = store.resume("v2").unwrap();
        j.complete_step(RotationStep::PolicyRevoke);
    }
    assert_eq!(store.get_incomplete()[0].completed_steps.len(), 1);
}

#[test]
fn test_full_commit() {
    let mut tx = TwoPhaseTx::new("tx1".to_string(), vec!["op_a".to_string(), "op_b".to_string()]);
    assert!(tx.prepare());
    assert!(tx.commit_op("op_a").is_ok());
    assert!(tx.commit_op("op_b").is_ok());
    assert!(tx.is_fully_committed());
}

#[test]
fn test_partial_commit_then_rollback() {
    let mut tx = TwoPhaseTx::new("tx1".to_string(), vec!["op_a".to_string(), "op_b".to_string()]);
    tx.prepare();
    tx.commit_op("op_a").unwrap();
    assert!(!tx.is_fully_committed());
    tx.rollback();
    assert!(tx.can_retry());
    assert!(tx.completed_ops.is_empty());
}

#[test]
fn test_reconciler() {
    let mut reconciler = Reconciler::new();
    let mut tx = TwoPhaseTx::new("tx1".to_string(), vec!["op_a".to_string()]);
    tx.prepare();
    tx.commit_op("op_a").unwrap();
    reconciler.register(tx);
    let results = reconciler.reconcile();
    assert_eq!(results.len(), 1);
    assert!(results[0].success);
}

#[test]
fn commit_op_error_messages() {
    let mut tx = TwoPhaseTx::new("tx".to_string(), vec!["a".to_string(), "b".to_string()]);
    assert_eq!(tx.commit_op("zzz"), Err("Unknown operation: zzz".to_string()));
    tx.commit_op("a").unwrap();
    assert_eq!(tx.commit_op("a"), Err("Operation already committed: a".to_string()));
    tx.rollback();
    assert_eq!(tx.phase, TxPhase::RolledBack);
    assert_eq!(tx.commit_op("b"), Err("Cannot commit in phase RolledBack".to_string()));
}

#[test]
fn reconcile_keeps_only_prepared_and_reports_retries() {
    let mut r = Reconciler::new();
    let mut done = TwoPhaseTx::new("done".to_string(), vec!["x".to_string()]);
    done.commit_op("x").unwrap();
    let mut failed = TwoPhaseTx::new("failed".to_string(), vec!["x".to_string()]);
    failed.phase = TxPhase::Failed;
    let pending = TwoPhaseTx::new("pending".to_string(), vec!["x".to_string()]);
    r.register(done);
    r.register(failed);
    r.register(pending);
    assert_eq!(r.failed_count(), 1);
    let results = r.reconcile();
    assert_eq!(results.len(), 3);
    assert!(results[0].success && !results[0].retried);
    assert!(!results[1].success && results[1].retried);
    assert!(!results[2].success && !results[2].retried);
    assert_eq!(results[2].tx_id, "pending");
    assert_eq!(r.failed_count(), 0);
    let again = r.reconcile();
    assert_eq!(again.len(), 1);
    assert_eq!(again[0].tx_id, "pending");
}

#[test]
fn warning_starts_at_eighty_percent_of_the_range() {
    assert_eq!(NONCE_WARN_THRESHOLD, u64::MAX / 100 * 80);
    assert!(!approaching_exhaustion(NONCE_WARN_THRESHOLD - 1));
    assert!(approaching_exhaustion(NONCE_WARN_THRESHOLD));
    assert!(approaching_exhaustion(NONCE_MAX));
}
