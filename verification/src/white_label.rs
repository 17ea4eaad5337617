//! White-label client vaults with a capped fee markup.
use vstd::prelude::*;

use crate::errors::AppError;
use crate::text::{before_first, concat, decimal, prefix_before, to_string, to_uppercase, to_uppercase_spec, u64_to_decimal};

verus! {

/// The largest fee markup, in basis points (500 = 5%).
pub const MAX_MARKUP_BPS: i64 = 500;

/// A client vault. Instants are microseconds since the Unix epoch.
pub struct VaultRecord {
    pub id: String,
    pub client_name: String,
    pub markup_bps: i64,
    pub stellar_address: String,
    pub created_at: i64,
    pub updated_at: i64,
    pub version: i64,
}

/// A request to create a client vault.
pub struct CreateVaultRequest {
    pub client_name: String,
    pub markup_bps: i64,
}

/// A request to update a client vault, holding the version the caller last saw.
pub struct UpdateVaultRequest {
    pub client_name: Option<String>,
    pub markup_bps: Option<i64>,
    pub version: i64,
}

/// Checks a creation request: a client name, and a markup between 0 and
/// the ceiling.
pub fn validate_create_request(req: &CreateVaultRequest) -> (r: Result<(), AppError>)
    ensures
        r is Ok <==> (req.client_name@.len() > 0 && 0 <= req.markup_bps <= MAX_MARKUP_BPS),
        r matches Err(e) ==> (e matches AppError::BadRequest(m) && m@ == if req.client_name@.len() == 0 {
            "Client name cannot be empty."@
        } else if req.markup_bps < 0 {
            "Markup cannot be negative."@
        } else {
            "Markup cannot exceed "@ + decimal(MAX_MARKUP_BPS as nat) + " basis points."@
        }),
{
    if req.client_name.as_str().is_empty() {
        return Err(AppError::BadRequest(to_string("Client name cannot be empty.")));
    }
    if req.markup_bps < 0 {
        return Err(AppError::BadRequest(to_string("Markup cannot be negative.")));
    }
    if req.markup_bps > MAX_MARKUP_BPS {
        let n = u64_to_decimal(MAX_MARKUP_BPS as u64);
        let a = concat("Markup cannot exceed ", n.as_str());
        return Err(AppError::BadRequest(concat(a.as_str(), " basis points.")));
    }
    Ok(())
}

/// The Stellar address given to a new vault: `GVAULT_` and the upper-case
/// first group of its id.
pub fn vault_stellar_address(id: &str) -> (r: String)
    ensures
        r@ == "GVAULT_"@ + to_uppercase_spec(before_first(id@, '-')),
{
    let head = prefix_before(id, '-');
    let upper = to_uppercase(head.as_str());
    concat("GVAULT_", upper.as_str())
}

} // verus!
