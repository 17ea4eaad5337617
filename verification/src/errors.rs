//! The application-level error returned by request validation.
use vstd::prelude::*;

verus! {

/// An error answered to an API caller.
#[derive(Debug)]
pub enum AppError {
    BadRequest(String),
    NotFound(String),
    Conflict(String),
    Unauthorized(String),
    Internal(String),
}

} // verus!
