//! Hardening measures: fixed-size notes, atomic settlement batches, signed
//! receipts, indexed accumulators, quotas, tenant scoping, fee ceilings,
//! token rotation, cursor pagination, per-manager rate limits, rotation
//! harnesses and multisig upgrade guards.
pub mod cursor_pagination;
pub mod manager_rate_limit;
pub mod markup_ceiling;
pub mod multisig_guard;
pub mod note_envelope;
pub mod receipt_check;
pub mod rotation_harness;
pub mod settlement_batch;
pub mod tenant_scope;
pub mod token_rotation;
pub mod vault_accumulator;
pub mod vault_quota;
