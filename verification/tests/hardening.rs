use std::time::{Duration, Instant};

use vault_core::hardening::cursor_pagination::ReconciliationBook;
use vault_core::hardening::manager_rate_limit::{decide_request, PerManagerRateLimiter};
use vault_core::hardening::markup_ceiling::validate_markup;
use vault_core::hardening::multisig_guard::MultisigUpgradeGuard;
use vault_core::hardening::note_envelope::{pad_note, NOTE_ENVELOPE_SIZE};
use vault_core::hardening::receipt_check::{verify_receipt, SignedReceipt};
use vault_core::hardening::rotation_harness::{MarketPhase, RotationHarness};
use vault_core::hardening::settlement_batch::{PaymentState, SettlementBatch};
use vault_core::hardening::tenant_scope::{scoped_report, ClientRecord};
use vault_core::hardening::token_rotation::{rotation_allowed, AuthToken, TOKEN_TTL_NANOS, TOKEN_TTL_SECS};
use vault_core::hardening::vault_accumulator::VaultAccumulator;
use vault_core::hardening::vault_quota::{Plan, VaultQuota};

#[test]
fn all_notes_produce_uniform_size_envelope() {
    let small = pad_note(vec![1, 2, 3]).unwrap();
    let large = pad_note(vec![9; 500]).unwrap();
    assert_eq!(small.len(), NOTE_ENVELOPE_SIZE);
    assert_eq!(large.len(), NOTE_ENVELOPE_SIZE);
}

#[test]
fn oversized_note_is_rejected() {
    assert!(pad_note(vec![0; 600]).is_err());
}

#[test]
fn note_padding_is_zeros_and_boundary_fits() {
    let v = pad_note(vec![7, 7]).unwrap();
    assert_eq!(&v[..2], &[7, 7]);
    assert!(v[2..].iter().all(|b| *b == 0));
    assert!(pad_note(vec![1; 512]).is_ok());
    assert_eq!(pad_note(vec![1; 513]), Err("note exceeds fixed envelope size"));
}

#[test]
fn partial_failure_rolls_back_whole_batch() {
    let mut batch = SettlementBatch::prepare(3);
    batch.commit_or_rollback(&[true, false, true]);
    assert!(batch.payments.iter().all(|p| *p == PaymentState::RolledBack));
}

#[test]
fn full_success_commits_whole_batch() {
    let mut batch = SettlementBatch::prepare(3);
    batch.commit_or_rollback(&[true, true, true]);
    assert!(batch.payments.iter().all(|p| *p == PaymentState::Committed));
}

#[test]
fn over_reported_amount_is_rejected() {
    let receiver_key = "receiver-1";
    let receipt = SignedReceipt { amount: 100, receiver_signature: format!("{receiver_key}:{}", 100) };
    assert!(verify_receipt(100, receiver_key, &receipt).is_ok());
    assert!(verify_receipt(150, receiver_key, &receipt).is_err());
}

#[test]
fn forged_receipt_signature_is_rejected() {
    let receipt = SignedReceipt { amount: 42, receiver_signature: "receiver-1:41".to_string() };
    assert_eq!(verify_receipt(42, "receiver-1", &receipt), Err("receipt signature invalid"));
    assert_eq!(
        verify_receipt(41, "receiver-1", &receipt),
        Err("receipt amount does not match agent-supplied amount")
    );
    let good = SignedReceipt { amount: 18446744073709551615, receiver_signature: "k:18446744073709551615".to_string() };
    assert!(verify_receipt(u64::MAX, "k", &good).is_ok());
    let zero = SignedReceipt { amount: 0, receiver_signature: "k:0".to_string() };
    assert!(verify_receipt(0, "k", &zero).is_ok());
}

#[test]
fn membership_check_is_indexed_not_scanned() {
    let mut acc = VaultAccumulator::new();
    acc.insert("note-1");
    acc.insert("note-2");
    assert!(acc.contains("note-1"));
    assert_eq!(acc.index_of("note-2"), Some(1));
    assert!(!acc.contains("note-3"));
}

#[test]
fn reinserted_note_is_indexed_at_latest_position() {
    let mut acc = VaultAccumulator::new();
    acc.insert("a");
    acc.insert("b");
    acc.insert("a");
    assert_eq!(acc.index_of("a"), Some(2));
    assert_eq!(acc.index_of("b"), Some(1));
    assert_eq!(acc.index_of("c"), None);
}

#[test]
fn basic_plan_is_capped() {
    let mut quota = VaultQuota::new();
    quota.set_plan("mgr-1", Plan::Basic);
    for _ in 0..5 {
        quota.try_provision("mgr-1").unwrap();
    }
    assert!(quota.try_provision("mgr-1").is_err());
}

#[test]
fn pro_plan_allows_fifty_and_default_is_basic() {
    let mut quota = VaultQuota::new();
    quota.set_plan("pro", Plan::Pro);
    for _ in 0..50 {
        quota.try_provision("pro").unwrap();
    }
    assert_eq!(quota.try_provision("pro"), Err("vault quota exceeded for manager's plan"));
    for _ in 0..5 {
        quota.try_provision("unset").unwrap();
    }
    assert!(quota.try_provision("unset").is_err());
}

#[test]
fn report_never_leaks_other_managers_clients() {
    let records = vec![
        ClientRecord { manager_id: "mgr-a".into(), client_name: "alice".into() },
        ClientRecord { manager_id: "mgr-b".into(), client_name: "bob".into() },
    ];
    let result = scoped_report(&records, "mgr-a");
    assert_eq!(result.len(), 1);
    assert_eq!(result[0].client_name, "alice");
}

#[test]
fn markup_within_ceiling_is_accepted() {
    assert_eq!(validate_markup(300), Ok(300));
}

#[test]
fn markup_over_ceiling_is_rejected() {
    assert!(validate_markup(1000).is_err());
}

#[test]
fn markup_at_ceiling_is_accepted() {
    assert_eq!(validate_markup(500), Ok(500));
    assert_eq!(validate_markup(501), Err("requested markup exceeds server-configured ceiling"));
}

#[test]
fn expired_token_cannot_rotate() {
    let issued = Instant::now() - (Duration::from_secs(TOKEN_TTL_SECS) + Duration::from_secs(1));
    let token = AuthToken::issued_at("t1", issued);
    assert!(token.is_expired());
    assert!(token.rotate("t2").is_err());
}

#[test]
fn valid_token_rotates() {
    let token = AuthToken::new("t1");
    assert!(!token.is_expired());
    assert!(token.rotate("t2").is_ok());
}

#[test]
fn token_expires_only_after_its_lifetime() {
    assert!(!AuthToken::is_expired_after(TOKEN_TTL_NANOS));
    assert!(AuthToken::is_expired_after(TOKEN_TTL_NANOS + 1));
    assert!(rotation_allowed(0));
    assert!(!rotation_allowed(TOKEN_TTL_NANOS + 1));
    let rotated = AuthToken::new("t1").rotate("t2").unwrap();
    assert_eq!(rotated.value, "t2");
}

#[test]
fn rotation_at_age_decides_on_the_lifetime() {
    let token = AuthToken::new("t1");
    let renewed = token.rotate_at_age("t2", TOKEN_TTL_NANOS).unwrap();
    assert_eq!(renewed.value, "t2");
    assert_eq!(
        token.rotate_at_age("t2", TOKEN_TTL_NANOS + 1).err(),
        Some("token expired, re-authentication required")
    );
    assert!(token.age_nanos() < TOKEN_TTL_NANOS);
}

#[test]
fn pagination_uses_opaque_cursor_not_offset() {
    let mut book = ReconciliationBook::new();
    book.add_client("uuid-a", 10);
    book.add_client("uuid-b", 20);
    book.add_client("uuid-c", 30);
    let first_page = book.page(None, 2);
    assert_eq!(first_page.len(), 2);
    let cursor = &first_page.last().unwrap().0;
    let second_page = book.page(Some(cursor), 2);
    assert_eq!(second_page, vec![("uuid-c".to_string(), 30)]);
}

#[test]
fn unknown_cursor_starts_over_and_last_balance_wins() {
    let mut book = ReconciliationBook::new();
    book.add_client("a", 1);
    book.add_client("b", 2);
    assert_eq!(book.page(Some("zzz"), 10), vec![("a".to_string(), 1), ("b".to_string(), 2)]);
    assert_eq!(book.page(Some("b"), 10), vec![]);
    assert_eq!(book.page(None, 0), vec![]);
    book.add_client("a", 5);
    assert_eq!(book.page(Some("b"), 10), vec![("a".to_string(), 5)]);
}

#[test]
fn one_manager_exceeding_limit_does_not_block_another() {
    let mut limiter = PerManagerRateLimiter::new(2, Duration::from_secs(60));
    assert!(limiter.allow("mgr-a"));
    assert!(limiter.allow("mgr-a"));
    assert!(!limiter.allow("mgr-a"));
    assert!(limiter.allow("mgr-b"));
}

#[test]
fn window_decision() {
    assert_eq!(decide_request(0, false, 2), (1, true));
    assert_eq!(decide_request(2, false, 2), (2, false));
    assert_eq!(decide_request(2, true, 2), (1, true));
    assert_eq!(decide_request(0, true, 0), (0, false));
}

#[test]
fn full_rotation_cycle_is_exercised() {
    let mut harness = RotationHarness::new(vec![MarketPhase::Bull, MarketPhase::Bear, MarketPhase::Bull]);
    harness.run();
    assert!(harness.completed_full_cycle());
}

#[test]
fn partial_cycle_is_not_complete() {
    let mut harness = RotationHarness::new(vec![MarketPhase::Bull, MarketPhase::Bear]);
    harness.run();
    assert!(!harness.completed_full_cycle());
    harness.run();
    assert_eq!(harness.visited.len(), 4);
    assert!(!harness.completed_full_cycle());
}

#[test]
fn requires_min_approvals_before_deploy() {
    let mut guard = MultisigUpgradeGuard::new(vec!["a".into(), "b".into(), "c".into()]);
    assert!(!guard.can_deploy());
    guard.approve("a").unwrap();
    assert!(!guard.can_deploy());
    guard.approve("b").unwrap();
    assert!(guard.can_deploy());
}

#[test]
fn repeated_or_unknown_signer_is_refused() {
    let mut guard = MultisigUpgradeGuard::new(vec!["a".into(), "b".into()]);
    assert_eq!(guard.approve("x"), Err("signer not authorized"));
    guard.approve("a").unwrap();
    assert_eq!(guard.approve("a"), Err("signer already approved"));
    assert!(!guard.can_deploy());
}

#[test]
fn chained_pages_list_every_client_once_in_order() {
    let mut book = ReconciliationBook::new();
    let ids = ["c1", "c2", "c3", "c4", "c5"];
    for (i, id) in ids.iter().enumerate() {
        book.add_client(id, i as u64 * 10);
    }
    let mut seen: Vec<(String, u64)> = Vec::new();
    let mut cursor: Option<String> = None;
    loop {
        let page = book.page(cursor.as_deref(), 2);
        if page.is_empty() {
            break;
        }
        cursor = Some(page.last().unwrap().0.clone());
        seen.extend(page);
    }
    let expected: Vec<(String, u64)> =
        ids.iter().enumerate().map(|(i, id)| (id.to_string(), i as u64 * 10)).collect();
    assert_eq!(seen, expected);
}

#[test]
fn padded_notes_share_one_size() {
    let a = pad_note(vec![1u8; 3]).unwrap();
    let b = pad_note(vec![2u8; 300]).unwrap();
    assert_eq!(a.len(), b.len());
    assert_eq!(a.len(), NOTE_ENVELOPE_SIZE);
    assert_eq!(&a[..3], &[1u8, 1, 1]);
}
