use vault_core::agent_identity::AgentIdentity;
use vault_core::circuit_breaker::{BreakerCore, BreakerState};
use vault_core::config_versioning::{TriggerConfigVersioner, VersionedTriggerConfig};
use vault_core::errors::AppError;
use vault_core::hysteresis::{HysteresisCore, TriggerEvent, TriggerState};
use vault_core::manager_store::{
    classify_insert_error, found_or_not_found, is_approved_record, manager_status_response, validate_registration,
    ManagerStoreError,
};
use vault_core::models::{
    default_config, default_limit, default_status, CreateVaultRequest, ManagerRecord, RegisterManagerRequest,
    UpdateVaultRequest, VaultRecord,
};
use vault_core::policy_expiry::{ApprovalEntry, PolicyAllowList};
use vault_core::settlement::{SettlementGuard, SettlementRecord};
use vault_core::strategy_persistence::{StrategyState, StrategyStateManager};
use vault_core::typed_data_auth::{AccountSignerPolicy, PolicyError, PolicyState, SignerUpdate, TypedDataAuth};
use vault_core::vault_store::{
    check_ownership, classify_update_failure, require_approved, resolve_create, update_audit_action,
    validate_create, validate_update, CreateOutcome, CreatePlan, UpdateFailure, VaultStoreError,
};
use vault_core::white_label::{vault_stellar_address, validate_create_request, CreateVaultRequest as ClientVaultRequest};

const HOUR_MICROS: i64 = 3_600_000_000;

fn now_micros() -> i64 {
    chrono::Utc::now().timestamp_micros()
}

#[test]
fn test_new_identity() {
    let id = AgentIdentity::new("agent-1".to_string());
    assert_eq!(id.agent_id, "agent-1");
    assert!(id.is_active);
    assert!(id.revoked_at.is_none());
    assert_eq!(id.reputation_score, 0);
}

#[test]
fn test_revoke() {
    let mut id = AgentIdentity::new("agent-1".to_string());
    assert!(!id.is_revoked());
    id.revoke();
    assert!(id.is_revoked());
    assert!(!id.is_active);
    assert!(id.revoked_at.is_some());
}

#[test]
fn test_was_revoked_before() {
    let mut id = AgentIdentity::new("agent-1".to_string());
    let now = now_micros();
    assert!(!id.was_revoked_before(now));
    id.revoke();
    let future = now_micros() + HOUR_MICROS;
    assert!(id.was_revoked_before(future));
    let past = now_micros() - HOUR_MICROS;
    assert!(!id.was_revoked_before(past));
}

#[test]
fn revocation_at_a_given_time() {
    let mut id = AgentIdentity::new_at("a".to_string(), 10);
    assert_eq!(id.created_at, 10);
    id.revoke_at(20);
    assert!(!id.was_revoked_before(20));
    assert!(id.was_revoked_before(21));
}

/// The breaker's decision as the NAV evaluation makes it: a valid previous
/// NAV and a drop of at least the threshold percentage.
fn drop_reaches(threshold_pct: f64, previous_nav: f64, current_nav: f64) -> bool {
    previous_nav != 0.0
        && previous_nav.is_finite()
        && (previous_nav - current_nav) / previous_nav * 100.0 >= threshold_pct
}

#[test]
fn test_no_trip_when_below_threshold() {
    let mut cb = BreakerCore::new();
    assert!(!cb.record_evaluation(drop_reaches(10.0, 100.0, 95.0)));
    assert_eq!(cb.state(), BreakerState::Closed);
}

#[test]
fn test_trip_when_at_threshold() {
    let mut cb = BreakerCore::new();
    assert!(cb.record_evaluation(drop_reaches(10.0, 100.0, 90.0)));
    assert!(cb.is_open());
}

#[test]
fn test_trip_when_above_threshold() {
    let mut cb = BreakerCore::new();
    assert!(cb.record_evaluation(drop_reaches(5.0, 100.0, 80.0)));
    assert!(cb.is_open());
    assert!(cb.is_manual_review_required());
}

#[test]
fn test_half_open_transition() {
    let mut cb = BreakerCore::new();
    cb.record_evaluation(drop_reaches(10.0, 100.0, 85.0));
    assert!(cb.is_open());
    cb.attempt_half_open();
    assert_eq!(cb.state(), BreakerState::HalfOpen);
    assert!(!cb.is_open());
}

#[test]
fn test_reset() {
    let mut cb = BreakerCore::new();
    cb.record_evaluation(drop_reaches(10.0, 100.0, 80.0));
    assert!(cb.is_open());
    cb.reset();
    assert_eq!(cb.state(), BreakerState::Closed);
    assert!(!cb.is_manual_review_required());
}

#[test]
fn test_invalid_previous_nav() {
    let mut cb = BreakerCore::new();
    assert!(!cb.record_evaluation(drop_reaches(10.0, 0.0, 0.0)));
    assert!(!cb.record_evaluation(drop_reaches(10.0, f64::NAN, 100.0)));
    assert!(!cb.record_evaluation(drop_reaches(10.0, f64::INFINITY, 100.0)));
}

#[test]
fn test_half_open_to_closed_after_reset() {
    let mut cb = BreakerCore::new();
    cb.record_evaluation(drop_reaches(10.0, 100.0, 80.0));
    assert!(cb.is_open());
    cb.attempt_half_open();
    assert_eq!(cb.state(), BreakerState::HalfOpen);
    cb.reset();
    assert_eq!(cb.state(), BreakerState::Closed);
    assert!(!cb.is_open());
    assert!(!cb.is_manual_review_required());
}

#[test]
fn test_cooldown_reset_clears_triggered_at() {
    let mut cb = BreakerCore::new();
    cb.record_evaluation(drop_reaches(5.0, 100.0, 50.0));
    assert!(cb.is_open());
    assert!(cb.triggered_at().is_some());
    cb.reset();
    assert!(cb.triggered_at().is_none());
}

#[test]
fn test_consecutive_trips_stay_open() {
    let mut cb = BreakerCore::new();
    cb.record_evaluation(drop_reaches(10.0, 100.0, 85.0));
    assert!(cb.is_open());
    cb.attempt_half_open();
    assert_eq!(cb.state(), BreakerState::HalfOpen);
    cb.record_evaluation(drop_reaches(10.0, 100.0, 80.0));
    assert!(cb.is_open());
}

#[test]
fn test_half_open_rejects_on_failure() {
    let mut cb = BreakerCore::new();
    cb.record_evaluation(drop_reaches(10.0, 100.0, 80.0));
    cb.attempt_half_open();
    assert_eq!(cb.state(), BreakerState::HalfOpen);
    cb.record_evaluation(drop_reaches(10.0, 100.0, 75.0));
    assert!(cb.is_open());
}

#[test]
fn breaker_trip_records_time() {
    let mut cb = BreakerCore::new();
    assert!(cb.record_evaluation_at(true, 77));
    assert_eq!(cb.triggered_at(), Some(77));
    assert!(!cb.record_evaluation_at(false, 99));
    assert_eq!(cb.triggered_at(), Some(77));
}

/// Evaluates a value against enter and exit thresholds.
fn evaluate(guard: &mut HysteresisCore, enter: f64, exit: f64, value: f64) -> Option<TriggerEvent> {
    guard.evaluate_crossing(value >= enter, value <= exit)
}

#[test]
fn test_hysteresis_enter_exit_cycle() {
    let mut guard = HysteresisCore::new();
    assert_eq!(guard.current_state(), TriggerState::Below);
    assert!(evaluate(&mut guard, 5.0, 3.0, 4.0).is_none());
    assert_eq!(guard.current_state(), TriggerState::Below);
    assert_eq!(evaluate(&mut guard, 5.0, 3.0, 5.0), Some(TriggerEvent::Entered));
    assert_eq!(guard.current_state(), TriggerState::Above);
    assert!(evaluate(&mut guard, 5.0, 3.0, 4.0).is_none());
    assert_eq!(evaluate(&mut guard, 5.0, 3.0, 3.0), Some(TriggerEvent::Exited));
    assert_eq!(guard.current_state(), TriggerState::Below);
}

#[test]
fn test_no_double_fire() {
    let mut guard = HysteresisCore::new();
    assert_eq!(evaluate(&mut guard, 5.0, 3.0, 5.0), Some(TriggerEvent::Entered));
    assert_eq!(evaluate(&mut guard, 5.0, 3.0, 6.0), None);
    assert_eq!(evaluate(&mut guard, 5.0, 3.0, 7.0), None);
}

#[test]
fn settlement_finality_and_claims() {
    let r = SettlementRecord::new("v".to_string(), 1_000_000, 10);
    assert!(!r.is_final(10_999_999));
    assert!(r.is_final(11_000_000));
    assert_eq!(r.time_until_finality(1_000_000), Some(10_000_000));
    assert_eq!(r.time_until_finality(11_000_000), None);

    let mut g = SettlementGuard::new(10);
    g.register_gain("v1".to_string(), 0);
    g.register_gain("v2".to_string(), 0);
    assert!(!g.can_claim("v1", 5_000_000));
    assert!(g.can_claim("v1", 10_000_000));
    assert!(g.can_claim("v3", 0));
    assert_eq!(g.pending_count(), 2);
    g.finalize("v1");
    assert!(g.can_claim("v1", 0));
    assert!(!g.can_claim("v2", 0));
    assert_eq!(g.pending_count(), 1);
    assert!(g.can_claim_now("v1"));
}

#[test]
fn approvals_expire_and_are_replaced() {
    let e = ApprovalEntry::new_at("a".to_string(), Some(100), 1_000);
    assert_eq!(e.expires_at, Some(1_100));
    assert!(!e.is_expired_at(1_099));
    assert!(e.is_expired_at(1_100));
    assert_eq!(e.remaining_at(1_050), Some(50));
    let forever = ApprovalEntry::new_at("b".to_string(), None, 1_000);
    assert!(!forever.is_expired_at(i64::MAX));
    assert_eq!(forever.remaining_at(0), None);

    let mut l = PolicyAllowList::new();
    l.approve_at("a".to_string(), Some(100), 0);
    l.approve_at("b".to_string(), None, 0);
    assert!(l.is_approved_at("a", 50));
    assert!(!l.is_approved_at("a", 100));
    l.approve_at("a".to_string(), Some(1_000), 0);
    assert!(l.is_approved_at("a", 500));
    assert_eq!(l.cleanup_expired_at(2_000), 1);
    assert!(!l.is_approved_at("a", 0));
    assert!(l.is_approved("b"));
    l.revoke("b");
    assert!(!l.is_approved("b"));
    l.approve("c".to_string(), Some(HOUR_MICROS));
    assert!(l.is_approved("c"));
    assert_eq!(l.cleanup_expired(), 0);
}

fn config(version: u64, created_at: i64) -> VersionedTriggerConfig {
    VersionedTriggerConfig {
        version,
        trigger_type: "nav".to_string(),
        threshold_bits: 5.0f64.to_bits(),
        created_at,
        created_by: "ops".to_string(),
    }
}

#[test]
fn config_versions_by_time() {
    let mut v = TriggerConfigVersioner::new();
    assert!(v.get_active_config("nav").is_none());
    v.add_version("nav", config(1, 100));
    v.add_version("nav", config(2, 200));
    assert_eq!(v.get_active_config("nav").unwrap().version, 2);
    assert_eq!(v.get_config_at_time("nav", 150).unwrap().version, 1);
    assert_eq!(v.get_config_at_time("nav", 200).unwrap().version, 2);
    assert!(v.get_config_at_time("nav", 99).is_none());
    let snap = v.snapshot_for_vault("vault-1", "nav").unwrap();
    assert_eq!(snap.version, 2);
    assert_eq!(f64::from_bits(snap.threshold_bits), 5.0);
    assert!(v.snapshot_for_vault("vault-1", "other").is_none());
}

#[test]
fn test_save_and_load() {
    let mut mgr = StrategyStateManager::new();
    let state = StrategyState {
        vault_id: "v1".into(),
        current_phase: "active".into(),
        last_evaluated_at: now_micros(),
        last_trigger: None,
        evaluation_count: 5,
    };
    mgr.save_state(state);
    let loaded = mgr.load_state("v1").unwrap();
    assert_eq!(loaded.current_phase, "active");
    assert_eq!(loaded.evaluation_count, 5);
}

#[test]
fn test_recover_or_default_missing() {
    let mgr = StrategyStateManager::new();
    let default = mgr.recover_or_default("missing");
    assert_eq!(default.current_phase, "default");
    assert_eq!(default.evaluation_count, 0);
}

#[test]
fn strategy_entries_round_trip() {
    let mut mgr = StrategyStateManager::new();
    mgr.save_state(StrategyState {
        vault_id: "v1".into(),
        current_phase: "active".into(),
        last_evaluated_at: 5,
        last_trigger: Some("crossed".into()),
        evaluation_count: 10,
    });
    let copied: Vec<(String, StrategyState)> =
        mgr.entries().iter().map(|(k, s)| (k.clone(), s.duplicate())).collect();
    let restored = StrategyStateManager::from_entries(copied);
    let s = restored.load_state("v1").unwrap();
    assert_eq!(s.evaluation_count, 10);
    assert_eq!(s.last_trigger.as_deref(), Some("crossed"));
    let recovered = restored.recover_or_default_at("v1", 0);
    assert_eq!(recovered.last_evaluated_at, 5);
}

#[test]
fn strategy_from_entries_later_entry_wins() {
    let state = |phase: &str, count: u64| StrategyState {
        vault_id: "v1".into(),
        current_phase: phase.into(),
        last_evaluated_at: 1,
        last_trigger: None,
        evaluation_count: count,
    };
    let restored = StrategyStateManager::from_entries(vec![
        ("v1".to_string(), state("early", 1)),
        ("v1".to_string(), state("late", 2)),
    ]);
    let s = restored.load_state("v1").unwrap();
    assert_eq!(s.current_phase, "late");
    assert_eq!(s.evaluation_count, 2);
    assert_eq!(restored.entries().len(), 1);
    assert!(restored.load_state("v2").is_none());
}

fn register(addr: &str, name: &str) -> RegisterManagerRequest {
    RegisterManagerRequest {
        stellar_address: addr.into(),
        name: name.into(),
        email: " alice@example.com ".into(),
        kyc_document_ref: "".into(),
    }
}

fn manager(id: &str, status: &str) -> ManagerRecord {
    ManagerRecord {
        id: id.into(),
        stellar_address: "GABC123".into(),
        name: "Alice".into(),
        email: "".into(),
        status: status.into(),
        kyc_document_ref: "".into(),
        notes: "".into(),
        created_at: 0,
        updated_at: 0,
    }
}

#[test]
fn manager_registration_rules() {
    let f = validate_registration(&register("  GABC123 ", "Alice")).unwrap();
    assert_eq!(f.stellar_address, "GABC123");
    assert_eq!(f.email, "alice@example.com");
    match validate_registration(&register("   ", "Alice")) {
        Err(ManagerStoreError::InvalidData(m)) => assert_eq!(m, "stellar_address must not be empty"),
        _ => panic!("blank address accepted"),
    }
    match validate_registration(&register("G", "\t\n")) {
        Err(ManagerStoreError::InvalidData(m)) => assert_eq!(m, "name must not be empty"),
        _ => panic!("blank name accepted"),
    }
    match classify_insert_error(true, "GABC123", "UNIQUE".into()) {
        ManagerStoreError::DuplicateAddress(a) => assert_eq!(a, "GABC123"),
        _ => panic!("expected duplicate"),
    }
    match found_or_not_found(None, "m-1") {
        Err(e) => match e.into_app_error() {
            AppError::NotFound(m) => assert_eq!(m, "m-1"),
            _ => panic!("expected not found"),
        },
        Ok(_) => panic!("missing record found"),
    }
    assert!(is_approved_record(&Some(manager("m", "approved"))));
    assert!(!is_approved_record(&Some(manager("m", "pending"))));
    assert!(!is_approved_record(&None));
    let r = manager_status_response(Some(manager("m", "rejected")));
    assert_eq!(r.message, "Manager registration was rejected");
    let p = manager_status_response(Some(manager("m", "pending")));
    assert_eq!(p.message, "Manager registration is pending approval");
    let none = manager_status_response(None);
    assert_eq!(none.status, "unregistered");
    assert_eq!(none.id, "");
}

#[test]
fn vault_creation_and_update_rules() {
    let req = CreateVaultRequest {
        manager_id: " mgr-1 ".into(),
        name: "Alpha".into(),
        status: default_status(),
        config_json: default_config(),
        idempotency_key: Some("  ".into()),
    };
    let plan = validate_create(&req).unwrap();
    assert_eq!(plan.manager_id, "mgr-1");
    assert_eq!(plan.status, "active");
    assert_eq!(plan.config_json, "{}");
    assert!(plan.idempotency_key.is_none());
    assert_eq!(default_limit(), 10);

    let stale = UpdateVaultRequest { version: 0, name: None, status: None, config_json: None };
    assert!(validate_update(&stale).is_err());
    let upd = UpdateVaultRequest { version: 1, name: Some(" Beta ".into()), status: Some(" ".into()), config_json: Some(" x ".into()) };
    let u = validate_update(&upd).unwrap();
    assert_eq!(u.name.as_deref(), Some("Beta"));
    assert!(u.status.is_none());
    assert_eq!(u.config_json.as_deref(), Some(" x "));

    match classify_update_failure("v1", 1, UpdateFailure::RowNotFound { vault_exists: true }) {
        e @ VaultStoreError::Conflict { .. } => match e.into_app_error() {
            AppError::Conflict(m) => assert_eq!(
                m,
                "Vault 'v1' was updated by another request (expected version 1); reload and retry"
            ),
            _ => panic!("expected conflict"),
        },
        _ => panic!("expected conflict"),
    }
    assert!(matches!(
        classify_update_failure("v1", 1, UpdateFailure::RowNotFound { vault_exists: false }),
        VaultStoreError::NotFound(_)
    ));
    assert!(matches!(
        classify_update_failure("v1", 1, UpdateFailure::Database { unique_violation: true, message: "x".into() }),
        VaultStoreError::InvalidData(_)
    ));
    assert!(check_ownership(&Some(manager("mgr-1", "approved")), "mgr-1").is_ok());
    assert!(matches!(check_ownership(&Some(manager("mgr-2", "approved")), "mgr-1"), Err(AppError::Unauthorized(_))));
    assert!(matches!(check_ownership(&None, "mgr-1"), Err(AppError::Unauthorized(_))));
    assert!(require_approved(true).is_ok());
    assert!(matches!(require_approved(false), Err(AppError::BadRequest(_))));
    assert_eq!(update_audit_action(true), "fee_split_change");
    assert_eq!(update_audit_action(false), "vault_update");
}

#[test]
fn client_vault_markup_rules() {
    let ok = ClientVaultRequest { client_name: "acme".into(), markup_bps: 500 };
    assert!(validate_create_request(&ok).is_ok());
    let high = ClientVaultRequest { client_name: "acme".into(), markup_bps: 501 };
    match validate_create_request(&high) {
        Err(AppError::BadRequest(m)) => assert_eq!(m, "Markup cannot exceed 500 basis points."),
        _ => panic!("expected refusal"),
    }
    let neg = ClientVaultRequest { client_name: "acme".into(), markup_bps: -1 };
    assert!(validate_create_request(&neg).is_err());
    let unnamed = ClientVaultRequest { client_name: "".into(), markup_bps: 1 };
    assert!(validate_create_request(&unnamed).is_err());
    assert_eq!(vault_stellar_address("ab12cd-ef-34"), "GVAULT_AB12CD");
    assert_eq!(vault_stellar_address("nodash"), "GVAULT_NODASH");
}

#[test]
fn test_account_signer_policy_forbids_signer_changes() {
    let mut state = PolicyState::empty();
    let init = AccountSignerPolicy::initialize(&mut state, "GADMIN", false);
    assert!(init.result.is_ok());
    assert!(!AccountSignerPolicy::is_signer_change_allowed(&state));
    let res = AccountSignerPolicy::update_account_signer(&state, "GADMIN", "GCOSIGNER", 100);
    assert_eq!(res.result.err(), Some(PolicyError::SignerChangesForbidden));
}

#[test]
fn test_account_signer_policy_allows_signer_changes_when_enabled() {
    let mut state = PolicyState::empty();
    AccountSignerPolicy::initialize(&mut state, "GADMIN", true);
    assert!(AccountSignerPolicy::is_signer_change_allowed(&state));
    match AccountSignerPolicy::update_account_signer(&state, "GADMIN", "GCOSIGNER", 100).result {
        Ok(SignerUpdate::Weight(s, w)) => {
            assert_eq!(s, "GCOSIGNER");
            assert_eq!(w, 100);
        }
        _ => panic!("expected a weight"),
    }
    match AccountSignerPolicy::update_account_signer(&state, "GADMIN", "GCOSIGNER", 0).result {
        Ok(SignerUpdate::Remove(s)) => assert_eq!(s, "GCOSIGNER"),
        _ => panic!("expected a removal"),
    }
}

#[test]
fn policy_admin_and_asset_rules() {
    let mut state = PolicyState::empty();
    let d = AccountSignerPolicy::set_allow_signer_changes(&mut state, "GADMIN", true);
    assert_eq!(d.result, Err(PolicyError::NotInitialized));
    AccountSignerPolicy::initialize(&mut state, "GADMIN", false);
    assert_eq!(
        AccountSignerPolicy::initialize(&mut state, "GOTHER", true).result,
        Err(PolicyError::AlreadyInitialized)
    );
    let d = AccountSignerPolicy::add_approved_asset(&mut state, "GOTHER", "USDC");
    assert_eq!(d.result, Err(PolicyError::Unauthorized));
    assert!(d.auth.is_none());
    let d = AccountSignerPolicy::add_approved_asset(&mut state, "GADMIN", "USDC");
    assert_eq!(d.auth.as_deref(), Some("GADMIN"));
    assert!(d.result.is_ok());
    assert_eq!(
        AccountSignerPolicy::add_approved_asset(&mut state, "GADMIN", "USDC").result,
        Err(PolicyError::AssetAlreadyApproved)
    );
    assert_eq!(AccountSignerPolicy::max_approved_assets(&state), 50);
    assert_eq!(
        AccountSignerPolicy::set_max_approved_assets(&mut state, "GADMIN", 501).result,
        Err(PolicyError::InvalidMaxApprovedAssets)
    );
    assert_eq!(
        AccountSignerPolicy::set_max_approved_assets(&mut state, "GADMIN", 0).result,
        Err(PolicyError::InvalidMaxApprovedAssets)
    );
    assert!(AccountSignerPolicy::set_max_approved_assets(&mut state, "GADMIN", 1).result.is_ok());
    assert_eq!(
        AccountSignerPolicy::add_approved_asset(&mut state, "GADMIN", "EURC").result,
        Err(PolicyError::AssetListFull)
    );
    assert!(AccountSignerPolicy::remove_approved_asset(&mut state, "GADMIN", "USDC").result.is_ok());
    assert_eq!(
        AccountSignerPolicy::remove_approved_asset(&mut state, "GADMIN", "USDC").result,
        Err(PolicyError::AssetNotApproved)
    );
    assert!(AccountSignerPolicy::get_approved_assets(&state).is_empty());
    assert_eq!(PolicyError::InvalidMaxApprovedAssets.code(), 9);
}

#[test]
fn typed_data_preimages() {
    let d = TypedDataAuth::domain_separator_preimage(1);
    let prefix = b"EIP712Domain(string name,string version,u32 chainId,Address verifyingContract)";
    assert_eq!(&d[..prefix.len()], &prefix[..]);
    assert_eq!(&d[prefix.len()..], &1u32.to_be_bytes());
    assert_ne!(TypedDataAuth::domain_separator_preimage(1), TypedDataAuth::domain_separator_preimage(2));
    let t = TypedDataAuth::transfer_struct_preimage(-2);
    let tp = b"Transfer(address from,address to,int128 amount)";
    assert_eq!(&t[tp.len()..], &(-2i128).to_be_bytes());
}

fn create_plan(key: Option<&str>) -> CreatePlan {
    CreatePlan {
        manager_id: "mgr-1".into(),
        name: "Alpha".into(),
        status: "active".into(),
        config_json: "{}".into(),
        idempotency_key: key.map(|k| k.to_string()),
    }
}

fn stored_vault(manager: &str, key: Option<&str>) -> VaultRecord {
    VaultRecord {
        id: "v-1".into(),
        manager_id: manager.into(),
        name: "Alpha".into(),
        status: "active".into(),
        config_json: "{}".into(),
        version: 1,
        idempotency_key: key.map(|k| k.to_string()),
        created_at: 0,
        updated_at: 0,
    }
}

#[test]
fn create_returns_the_vault_made_under_the_same_key() {
    match resolve_create(create_plan(Some("k1")), Some(stored_vault("mgr-1", Some("k1")))) {
        CreateOutcome::Existing(v) => assert_eq!(v.id, "v-1"),
        CreateOutcome::Insert(_) => panic!("expected the existing vault"),
    }
}

#[test]
fn create_inserts_when_nothing_answers_the_key() {
    assert!(matches!(resolve_create(create_plan(Some("k1")), None), CreateOutcome::Insert(_)));
    assert!(matches!(
        resolve_create(create_plan(Some("k1")), Some(stored_vault("mgr-2", Some("k1")))),
        CreateOutcome::Insert(_)
    ));
    assert!(matches!(
        resolve_create(create_plan(None), Some(stored_vault("mgr-1", None))),
        CreateOutcome::Insert(_)
    ));
}

#[test]
fn reapproval_replaces_the_earlier_approval() {
    let mut l = PolicyAllowList::new();
    l.approve("agent-1".into(), Some(HOUR_MICROS));
    l.approve("agent-2".into(), Some(HOUR_MICROS));
    assert!(l.is_approved("agent-1"));
    l.approve("agent-1".into(), Some(0));
    assert!(!l.is_approved("agent-1"));
    assert!(l.is_approved("agent-2"));
}

#[test]
fn new_approval_expires_after_its_lifetime() {
    let e = ApprovalEntry::new("agent-1".into(), Some(HOUR_MICROS));
    assert_eq!(e.expires_at, Some(e.granted_at + HOUR_MICROS));
    assert!(ApprovalEntry::new("agent-1".into(), None).expires_at.is_none());
    let left = e.remaining().unwrap();
    assert!(left > 0 && left <= HOUR_MICROS as i128);
}
