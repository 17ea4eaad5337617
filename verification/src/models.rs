//! Records and requests of the manager and vault registries. Instants are
//! kept as microseconds since the Unix epoch.
use vstd::prelude::*;

use crate::text::to_string;

verus! {

/// A registered vault manager.
pub struct ManagerRecord {
    pub id: String,
    pub stellar_address: String,
    pub name: String,
    pub email: String,
    pub status: String,
    pub kyc_document_ref: String,
    pub notes: String,
    pub created_at: i64,
    pub updated_at: i64,
}

/// A request to register a manager.
pub struct RegisterManagerRequest {
    pub stellar_address: String,
    pub name: String,
    pub email: String,
    pub kyc_document_ref: String,
}

/// A decision on a manager's registration, with notes.
pub struct ApproveManagerRequest {
    pub notes: String,
}

/// A manager's registration status as answered to a caller.
pub struct ManagerStatusResponse {
    pub id: String,
    pub status: String,
    pub message: String,
}

/// A vault record, versioned for optimistic locking.
pub struct VaultRecord {
    pub id: String,
    pub manager_id: String,
    pub name: String,
    pub status: String,
    pub config_json: String,
    pub version: i64,
    pub idempotency_key: Option<String>,
    pub created_at: i64,
    pub updated_at: i64,
}

/// A request to create a vault.
pub struct CreateVaultRequest {
    pub manager_id: String,
    pub name: String,
    pub status: String,
    pub config_json: String,
    pub idempotency_key: Option<String>,
}

/// A request to update a vault, holding the version the caller last saw.
pub struct UpdateVaultRequest {
    pub version: i64,
    pub name: Option<String>,
    pub status: Option<String>,
    pub config_json: Option<String>,
}

/// The answer to a reconciliation request.
pub struct ReconcileResponse {
    pub job_id: String,
    pub status: String,
    pub message: String,
}

/// Paging of report listings.
pub struct ListReportsQuery {
    pub limit: i64,
}

/// The manager whose vaults are listed.
pub struct ListVaultsQuery {
    pub manager_id: String,
}

/// The status of a vault created without one.
pub fn default_status() -> (s: String)
    ensures
        s@ == "active"@,
{
    to_string("active")
}

/// The configuration of a vault created without one.
pub fn default_config() -> (s: String)
    ensures
        s@ == "{}"@,
{
    to_string("{}")
}

/// The number of reports listed when no limit is given.
pub fn default_limit() -> (n: i64)
    ensures
        n == 10,
{
    10
}

} // verus!
