//! Vault management core: verified policy, accounting and bookkeeping logic.
pub mod agent_identity;
pub mod circuit_breaker;
pub mod clock;
pub mod config_versioning;
pub mod digest;
pub mod errors;
pub mod failover;
pub mod hardening;
pub mod hysteresis;
pub mod keyed;
pub mod log_redaction;
pub mod manager_store;
pub mod models;
pub mod namespaced_errors;
pub mod nonce_partition;
pub mod note_privacy;
pub mod policy_expiry;
pub mod rotation_journal;
pub mod rounding;
pub mod safe_math;
pub mod secret_hash;
pub mod secure_ids;
pub mod settlement;
pub mod signed_receipt;
pub mod strategy_persistence;
pub mod text;
pub mod two_phase_commit;
pub mod typed_data_auth;
pub mod validation;
pub mod vault_store;
pub mod vault_validation;
pub mod white_label;
