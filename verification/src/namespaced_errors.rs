//! Error codes namespaced by area (vault, fee, policy).
use vstd::prelude::*;

use crate::text::{concat, to_string};

verus! {

#[derive(Debug, Clone, Copy, PartialEq, Eq, Structural)]
pub enum VaultError {
    InsufficientBalance,
    AssetNotApproved,
    NotFound,
    Unauthorized,
    InvalidDecimals,
}

#[derive(Debug, Clone, Copy, PartialEq, Eq, Structural)]
pub enum FeeError {
    Overflow,
    ExceedsCap,
    InvalidSplit,
    SettlementPending,
    ClaimExpired,
}

#[derive(Debug, Clone, Copy, PartialEq, Eq, Structural)]
pub enum PolicyError {
    ApprovalExpired,
    NotFound,
    QuotaExceeded,
}

pub open spec fn vault_error_text(e: VaultError) -> Seq<char> {
    match e {
        VaultError::InsufficientBalance => "[VAULT-001] Insufficient balance"@,
        VaultError::AssetNotApproved => "[VAULT-002] Asset not approved"@,
        VaultError::NotFound => "[VAULT-003] Vault does not exist"@,
        VaultError::Unauthorized => "[VAULT-004] Unauthorized access"@,
        VaultError::InvalidDecimals => "[VAULT-005] Invalid decimals"@,
    }
}

pub open spec fn fee_error_text(e: FeeError) -> Seq<char> {
    match e {
        FeeError::Overflow => "[FEE-001] Fee calculation overflow"@,
        FeeError::ExceedsCap => "[FEE-002] Fee exceeds cap"@,
        FeeError::InvalidSplit => "[FEE-003] Invalid fee split"@,
        FeeError::SettlementPending => "[FEE-004] Settlement not final"@,
        FeeError::ClaimExpired => "[FEE-005] Claim window expired"@,
    }
}

pub open spec fn policy_error_text(e: PolicyError) -> Seq<char> {
    match e {
        PolicyError::ApprovalExpired => "[POLICY-001] Approval expired"@,
        PolicyError::NotFound => "[POLICY-002] Policy not found"@,
        PolicyError::QuotaExceeded => "[POLICY-003] Quota exceeded"@,
    }
}

impl VaultError {
    /// The error's message, led by its namespaced code.
    pub fn message(&self) -> (s: String)
        ensures
            s@ == vault_error_text(*self),
    {
        match self {
            VaultError::InsufficientBalance => to_string("[VAULT-001] Insufficient balance"),
            VaultError::AssetNotApproved => to_string("[VAULT-002] Asset not approved"),
            VaultError::NotFound => to_string("[VAULT-003] Vault does not exist"),
            VaultError::Unauthorized => to_string("[VAULT-004] Unauthorized access"),
            VaultError::InvalidDecimals => to_string("[VAULT-005] Invalid decimals"),
        }
    }
}

impl FeeError {
    /// The error's message, led by its namespaced code.
    pub fn message(&self) -> (s: String)
        ensures
            s@ == fee_error_text(*self),
    {
        match self {
            FeeError::Overflow => to_string("[FEE-001] Fee calculation overflow"),
            FeeError::ExceedsCap => to_string("[FEE-002] Fee exceeds cap"),
            FeeError::InvalidSplit => to_string("[FEE-003] Invalid fee split"),
            FeeError::SettlementPending => to_string("[FEE-004] Settlement not final"),
            FeeError::ClaimExpired => to_string("[FEE-005] Claim window expired"),
        }
    }
}

impl PolicyError {
    /// The error's message, led by its namespaced code.
    pub fn message(&self) -> (s: String)
        ensures
            s@ == policy_error_text(*self),
    {
        match self {
            PolicyError::ApprovalExpired => to_string("[POLICY-001] Approval expired"),
            PolicyError::NotFound => to_string("[POLICY-002] Policy not found"),
            PolicyError::QuotaExceeded => to_string("[POLICY-003] Quota exceeded"),
        }
    }
}

/// A code in the bracketed form that leads the error messages.
pub fn error_code_string(code: &str) -> (s: String)
    ensures
        s@ == "["@ + code@ + "]"@,
{
    let open = concat("[", code);
    concat(open.as_str(), "]")
}

} // verus!
