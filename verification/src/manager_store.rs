//! The rules of manager registration and approval. The records live in a
//! database; these functions decide what is stored and what is answered.
use vstd::prelude::*;

use crate::errors::AppError;
use crate::models::{ManagerRecord, ManagerStatusResponse, RegisterManagerRequest};
use crate::text::{str_eq, to_string, trim, trim_spec};

verus! {

/// Why a manager operation failed.
#[derive(Debug)]
pub enum ManagerStoreError {
    /// The database failed, with its message.
    Database(String),
    NotFound(String),
    InvalidData(String),
    DuplicateAddress(String),
}

impl ManagerStoreError {
    /// The error as answered to an API caller.
    pub fn into_app_error(self) -> (e: AppError)
        ensures
            match self {
                ManagerStoreError::NotFound(m) => e == AppError::NotFound(m),
                ManagerStoreError::InvalidData(m) => e == AppError::BadRequest(m),
                ManagerStoreError::DuplicateAddress(m) => e == AppError::Conflict(m),
                ManagerStoreError::Database(m) => e == AppError::Internal(m),
            },
    {
        match self {
            ManagerStoreError::NotFound(m) => AppError::NotFound(m),
            ManagerStoreError::InvalidData(m) => AppError::BadRequest(m),
            ManagerStoreError::DuplicateAddress(m) => AppError::Conflict(m),
            ManagerStoreError::Database(m) => AppError::Internal(m),
        }
    }
}

/// The fields of a registration as they are stored: trimmed.
pub struct RegistrationFields {
    pub stellar_address: String,
    pub name: String,
    pub email: String,
    pub kyc_document_ref: String,
}

/// Checks a registration and trims its fields. The address and the name must
/// not be blank.
pub fn validate_registration(req: &RegisterManagerRequest) -> (r: Result<RegistrationFields, ManagerStoreError>)
    ensures
        r is Ok <==> (trim_spec(req.stellar_address@).len() > 0 && trim_spec(req.name@).len() > 0),
        r matches Err(e) ==> (e matches ManagerStoreError::InvalidData(m) && m@ == if trim_spec(req.stellar_address@).len() == 0 {
            "stellar_address must not be empty"@
        } else {
            "name must not be empty"@
        }),
        r matches Ok(f) ==> {
            &&& f.stellar_address@ == trim_spec(req.stellar_address@)
            &&& f.name@ == trim_spec(req.name@)
            &&& f.email@ == trim_spec(req.email@)
            &&& f.kyc_document_ref@ == trim_spec(req.kyc_document_ref@)
        },
{
    let stellar = trim(req.stellar_address.as_str());
    if stellar.as_str().is_empty() {
        return Err(ManagerStoreError::InvalidData(to_string("stellar_address must not be empty")));
    }
    let name = trim(req.name.as_str());
    if name.as_str().is_empty() {
        return Err(ManagerStoreError::InvalidData(to_string("name must not be empty")));
    }
    let email = trim(req.email.as_str());
    let kyc = trim(req.kyc_document_ref.as_str());
    Ok(RegistrationFields { stellar_address: stellar, name, email, kyc_document_ref: kyc })
}

/// How a failed insert is reported: a uniqueness violation means the address
/// is already registered; anything else is a database failure.
pub fn classify_insert_error(unique_violation: bool, stellar_address: &str, db_message: String) -> (e: ManagerStoreError)
    ensures
        unique_violation ==> (e matches ManagerStoreError::DuplicateAddress(a) && a@ == stellar_address@),
        !unique_violation ==> e == ManagerStoreError::Database(db_message),
{
    if unique_violation {
        ManagerStoreError::DuplicateAddress(to_string(stellar_address))
    } else {
        ManagerStoreError::Database(db_message)
    }
}

/// The record found under `id`, or `NotFound` with the id.
pub fn found_or_not_found(record: Option<ManagerRecord>, id: &str) -> (r: Result<ManagerRecord, ManagerStoreError>)
    ensures
        record is Some ==> r == Ok::<ManagerRecord, ManagerStoreError>(record->0),
        record is None ==> (r matches Err(ManagerStoreError::NotFound(m)) && m@ == id@),
{
    match record {
        Some(m) => Ok(m),
        None => Err(ManagerStoreError::NotFound(to_string(id))),
    }
}

/// Whether a manager record exists and is approved.
pub fn is_approved_record(record: &Option<ManagerRecord>) -> (r: bool)
    ensures
        r == (record matches Some(m) && m.status@ == "approved"@),
{
    match record {
        Some(m) => str_eq(m.status.as_str(), "approved"),
        None => false,
    }
}

/// The message that describes a registration status.
pub open spec fn status_message(status: Seq<char>) -> Seq<char> {
    if status == "approved"@ {
        "Manager is approved and active"@
    } else if status == "rejected"@ {
        "Manager registration was rejected"@
    } else {
        "Manager registration is pending approval"@
    }
}

/// The status answer for a Stellar address, given the manager registered
/// under it, if any.
pub fn manager_status_response(record: Option<ManagerRecord>) -> (r: ManagerStatusResponse)
    ensures
        record matches Some(m) ==> r.id == m.id && r.status == m.status && r.message@ == status_message(m.status@),
        record is None ==> r.id@.len() == 0 && r.status@ == "unregistered"@
            && r.message@ == "No manager registration found for this address"@,
{
    match record {
        Some(m) => {
            let message = if str_eq(m.status.as_str(), "approved") {
                to_string("Manager is approved and active")
            } else if str_eq(m.status.as_str(), "rejected") {
                to_string("Manager registration was rejected")
            } else {
                to_string("Manager registration is pending approval")
            };
            ManagerStatusResponse { id: m.id, status: m.status, message }
        },
        None => ManagerStatusResponse {
            id: String::new(),
            status: to_string("unregistered"),
            message: to_string("No manager registration found for this address"),
        },
    }
}

} // verus!
