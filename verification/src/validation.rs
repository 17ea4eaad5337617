//! Validation of vault configuration.
use vstd::prelude::*;

use crate::errors::AppError;
use crate::text::to_string;

verus! {

pub struct VaultValidator;

impl VaultValidator {
    /// Refuses an empty configuration; any other is accepted.
    pub fn validate_vault_config(config_json: &str) -> (r: Result<(), AppError>)
        ensures
            r is Ok <==> config_json@.len() > 0,
            r matches Err(e) ==> e matches AppError::BadRequest(m) && m@ == "vault config must not be empty"@,
    {
        if config_json.is_empty() {
            return Err(AppError::BadRequest(to_string("vault config must not be empty")));
        }
        Ok(())
    }
}

} // verus!
