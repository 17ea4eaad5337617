//! Errors of the checked arithmetic on returns and volatility.
use vstd::prelude::*;

use crate::text::to_string;

verus! {

#[derive(Debug, Clone, Copy, PartialEq, Eq, Structural)]
pub enum MathError {
    Overflow,
    Underflow,
    DivisionByZero,
}

pub open spec fn math_error_text(e: MathError) -> Seq<char> {
    match e {
        MathError::Overflow => "Overflow in operation"@,
        MathError::Underflow => "Underflow in operation"@,
        MathError::DivisionByZero => "Division by zero"@,
    }
}

impl MathError {
    /// The error's message.
    pub fn message(&self) -> (s: String)
        ensures
            s@ == math_error_text(*self),
    {
        match self {
            MathError::Overflow => to_string("Overflow in operation"),
            MathError::Underflow => to_string("Underflow in operation"),
            MathError::DivisionByZero => to_string("Division by zero"),
        }
    }
}

} // verus!
