//! The rules of vault creation and optimistic-lock updates. The records live
//! in a database; these functions decide what is stored and what is answered.
use vstd::prelude::*;

use crate::errors::AppError;
use crate::models::{CreateVaultRequest, ManagerRecord, UpdateVaultRequest};
use crate::text::{concat, decimal_signed, i64_to_decimal, str_eq, to_string, trim, trim_spec};

verus! {

/// Why a vault operation failed.
#[derive(Debug)]
pub enum VaultStoreError {
    /// The database failed, with its message.
    Database(String),
    NotFound(String),
    Conflict { vault_id: String, expected_version: i64 },
    InvalidData(String),
}

/// The message answered for a version conflict.
pub open spec fn conflict_message(vault_id: Seq<char>, expected_version: i64) -> Seq<char> {
    "Vault '"@ + vault_id + "' was updated by another request (expected version "@
        + decimal_signed(expected_version as int) + "); reload and retry"@
}

impl VaultStoreError {
    /// The error as answered to an API caller.
    pub fn into_app_error(self) -> (e: AppError)
        ensures
            match self {
                VaultStoreError::NotFound(m) => e == AppError::NotFound(m),
                VaultStoreError::Conflict { vault_id, expected_version } =>
                    (e matches AppError::Conflict(m) && m@ == conflict_message(vault_id@, expected_version)),
                VaultStoreError::InvalidData(m) => e == AppError::BadRequest(m),
                VaultStoreError::Database(m) => e == AppError::Internal(m),
            },
    {
        match self {
            VaultStoreError::NotFound(m) => AppError::NotFound(m),
            VaultStoreError::Conflict { vault_id, expected_version } => {
                let a = concat("Vault '", vault_id.as_str());
                let b = concat(a.as_str(), "' was updated by another request (expected version ");
                let v = i64_to_decimal(expected_version);
                let c = concat(b.as_str(), v.as_str());
                AppError::Conflict(concat(c.as_str(), "); reload and retry"))
            },
            VaultStoreError::InvalidData(m) => AppError::BadRequest(m),
            VaultStoreError::Database(m) => AppError::Internal(m),
        }
    }
}

/// A text trimmed, or nothing when it is absent or blank.
pub open spec fn trimmed_present(o: Option<String>) -> Option<Seq<char>> {
    match o {
        Some(s) => if trim_spec(s@).len() > 0 { Some(trim_spec(s@)) } else { None },
        None => None,
    }
}

/// The view of an optional text.
pub open spec fn opt_view(o: Option<String>) -> Option<Seq<char>> {
    match o {
        Some(s) => Some(s@),
        None => None,
    }
}

/// The text trimmed, when there is one and it is not blank.
pub fn trimmed_nonempty(o: &Option<String>) -> (r: Option<String>)
    ensures
        opt_view(r) == trimmed_present(*o),
{
    match o {
        Some(s) => {
            let t = trim(s.as_str());
            if t.as_str().is_empty() {
                None
            } else {
                Some(t)
            }
        },
        None => None,
    }
}

/// What a creation stores: the request's texts trimmed, and its idempotency
/// key when one is given and not blank.
pub struct CreatePlan {
    pub manager_id: String,
    pub name: String,
    pub status: String,
    pub config_json: String,
    pub idempotency_key: Option<String>,
}

/// Checks a creation request: the manager id and the name must not be blank.
pub fn validate_create(req: &CreateVaultRequest) -> (r: Result<CreatePlan, VaultStoreError>)
    ensures
        r is Ok <==> (trim_spec(req.manager_id@).len() > 0 && trim_spec(req.name@).len() > 0),
        r matches Err(e) ==> (e matches VaultStoreError::InvalidData(m) && m@ == if trim_spec(req.manager_id@).len() == 0 {
            "manager_id must not be empty"@
        } else {
            "name must not be empty"@
        }),
        r matches Ok(p) ==> {
            &&& p.manager_id@ == trim_spec(req.manager_id@)
            &&& p.name@ == trim_spec(req.name@)
            &&& p.status@ == trim_spec(req.status@)
            &&& p.config_json@ == trim_spec(req.config_json@)
            &&& opt_view(p.idempotency_key) == trimmed_present(req.idempotency_key)
        },
{
    let manager_id = trim(req.manager_id.as_str());
    if manager_id.as_str().is_empty() {
        return Err(VaultStoreError::InvalidData(to_string("manager_id must not be empty")));
    }
    let name = trim(req.name.as_str());
    if name.as_str().is_empty() {
        return Err(VaultStoreError::InvalidData(to_string("name must not be empty")));
    }
    let key = trimmed_nonempty(&req.idempotency_key);
    let status = trim(req.status.as_str());
    let config_json = trim(req.config_json.as_str());
    Ok(CreatePlan { manager_id, name, status, config_json, idempotency_key: key })
}

/// What an update writes: the expected version, a new name and status when
/// given and not blank (trimmed), and a new configuration when given.
/// What a creation does once its idempotency key has been looked up.
pub enum CreateOutcome {
    /// The manager's vault already made under the same key is the answer.
    Existing(crate::models::VaultRecord),
    /// A new vault is inserted as planned.
    Insert(CreatePlan),
}

/// Whether a stored vault answers a creation: the plan carries an
/// idempotency key, and the vault belongs to the same manager under the
/// same key.
pub open spec fn answers_plan(v: crate::models::VaultRecord, p: CreatePlan) -> bool {
    &&& p.idempotency_key is Some
    &&& v.manager_id@ == p.manager_id@
    &&& opt_view(v.idempotency_key) == opt_view(p.idempotency_key)
}

/// Whether the vault found (if any) answers the plan.
pub open spec fn answered(existing: Option<crate::models::VaultRecord>, p: CreatePlan) -> bool {
    match existing {
        Some(v) => answers_plan(v, p),
        None => false,
    }
}

fn same_key(a: &Option<String>, b: &Option<String>) -> (r: bool)
    ensures
        r == (opt_view(*a) == opt_view(*b)),
{
    match (a, b) {
        (Some(x), Some(y)) => str_eq(x.as_str(), y.as_str()),
        (None, None) => true,
        _ => false,
    }
}

/// Decides a creation from the vault found under the plan's idempotency key
/// (if one was looked up): that vault is returned when it answers the plan,
/// otherwise the plan is inserted.
pub fn resolve_create(plan: CreatePlan, existing: Option<crate::models::VaultRecord>) -> (r: CreateOutcome)
    ensures
        answered(existing, plan) ==> r == CreateOutcome::Existing(existing->0),
        !answered(existing, plan) ==> r == CreateOutcome::Insert(plan),
{
    match existing {
        Some(v) => {
            if plan.idempotency_key.is_some() && str_eq(v.manager_id.as_str(), plan.manager_id.as_str())
                && same_key(&v.idempotency_key, &plan.idempotency_key) {
                CreateOutcome::Existing(v)
            } else {
                CreateOutcome::Insert(plan)
            }
        },
        None => CreateOutcome::Insert(plan),
    }
}

pub struct UpdatePlan {
    pub version: i64,
    pub name: Option<String>,
    pub status: Option<String>,
    pub config_json: Option<String>,
}

/// Checks an update request: versions start at 1.
pub fn validate_update(req: &UpdateVaultRequest) -> (r: Result<UpdatePlan, VaultStoreError>)
    ensures
        r is Ok <==> req.version >= 1,
        r matches Err(e) ==> (e matches VaultStoreError::InvalidData(m) && m@ == "version must be >= 1"@),
        r matches Ok(p) ==> {
            &&& p.version == req.version
            &&& opt_view(p.name) == trimmed_present(req.name)
            &&& opt_view(p.status) == trimmed_present(req.status)
            &&& opt_view(p.config_json) == opt_view(req.config_json)
        },
{
    if req.version < 1 {
        return Err(VaultStoreError::InvalidData(to_string("version must be >= 1")));
    }
    let name = trimmed_nonempty(&req.name);
    let status = trimmed_nonempty(&req.status);
    let config_json = match &req.config_json {
        Some(c) => Some(c.clone()),
        None => None,
    };
    Ok(UpdatePlan { version: req.version, name, status, config_json })
}

/// How an optimistic-lock update failed in the database.
pub enum UpdateFailure {
    /// No row matched the id and version; whether a vault with the id exists.
    RowNotFound { vault_exists: bool },
    /// The database refused the write, with its message and whether it was a
    /// uniqueness violation.
    Database { unique_violation: bool, message: String },
}

/// The error for a failed update. When no row matched, an existing vault
/// means the caller's version is stale (a conflict); otherwise the vault is
/// gone.
pub fn classify_update_failure(id: &str, expected_version: i64, failure: UpdateFailure) -> (e: VaultStoreError)
    ensures
        match failure {
            UpdateFailure::RowNotFound { vault_exists } => if vault_exists {
                e matches VaultStoreError::Conflict { vault_id, expected_version: v } && vault_id@ == id@ && v == expected_version
            } else {
                e matches VaultStoreError::NotFound(m) && m@ == id@
            },
            UpdateFailure::Database { unique_violation, message } => if unique_violation {
                e matches VaultStoreError::InvalidData(m) && m@ == "A vault with this idempotency key already exists"@
            } else {
                e == VaultStoreError::Database(message)
            },
        },
{
    match failure {
        UpdateFailure::RowNotFound { vault_exists } => {
            if vault_exists {
                VaultStoreError::Conflict { vault_id: to_string(id), expected_version }
            } else {
                VaultStoreError::NotFound(to_string(id))
            }
        },
        UpdateFailure::Database { unique_violation, message } => {
            if unique_violation {
                VaultStoreError::InvalidData(to_string("A vault with this idempotency key already exists"))
            } else {
                VaultStoreError::Database(message)
            }
        },
    }
}

/// The record found under `id`, or `NotFound` with the id.
pub fn vault_or_not_found(
    record: Option<crate::models::VaultRecord>,
    id: &str,
) -> (r: Result<crate::models::VaultRecord, VaultStoreError>)
    ensures
        record is Some ==> r == Ok::<crate::models::VaultRecord, VaultStoreError>(record->0),
        record is None ==> (r matches Err(VaultStoreError::NotFound(m)) && m@ == id@),
{
    match record {
        Some(v) => Ok(v),
        None => Err(VaultStoreError::NotFound(to_string(id))),
    }
}

/// Whether the manager registered under the caller's address owns the
/// manager id: there must be such a manager and its id must match.
pub fn check_ownership(caller_manager: &Option<ManagerRecord>, manager_id: &str) -> (r: Result<(), AppError>)
    ensures
        r is Ok <==> (caller_manager matches Some(m) && m.id@ == manager_id@),
        r matches Err(e) ==> (e matches AppError::Unauthorized(msg) && msg@ == if caller_manager is None {
            "Manager not found for authenticated user"@
        } else {
            "You can only access vaults belonging to your own manager account"@
        }),
{
    match caller_manager {
        None => Err(AppError::Unauthorized(to_string("Manager not found for authenticated user"))),
        Some(m) => {
            if !str_eq(m.id.as_str(), manager_id) {
                return Err(AppError::Unauthorized(
                    to_string("You can only access vaults belonging to your own manager account"),
                ));
            }
            Ok(())
        },
    }
}

/// Only approved managers may create vaults.
pub fn require_approved(approved: bool) -> (r: Result<(), AppError>)
    ensures
        r is Ok <==> approved,
        r matches Err(e) ==> (e matches AppError::BadRequest(m)
            && m@ == "Manager is not approved. Only approved managers may create vaults. Register via /managers/register and wait for approval."@),
{
    if !approved {
        return Err(AppError::BadRequest(to_string(
            "Manager is not approved. Only approved managers may create vaults. Register via /managers/register and wait for approval.",
        )));
    }
    Ok(())
}

/// The audit action of an update: a change of configuration is a change of
/// the fee split.
pub fn update_audit_action(config_changed: bool) -> (a: &'static str)
    ensures
        a@ == if config_changed { "fee_split_change"@ } else { "vault_update"@ },
{
    if config_changed {
        "fee_split_change"
    } else {
        "vault_update"
    }
}

} // verus!
