use vstd::prelude::*;

verus! {

/// Errors returned by primitive math operations.
#[derive(Clone, Copy, Debug, PartialEq, Eq, Structural)]
#[non_exhaustive]
pub enum MathError {
    /// A denominator or fixed-point scale was zero.
    DivByZero,
    /// The exact result cannot be represented by the function's return type.
    Overflow,
    /// The input lies outside the mathematical domain of the operation.
    OutOfDomain,
}

/// The stable numeric code of each error.
pub open spec fn error_code(error: MathError) -> u8 {
    match error {
        MathError::DivByZero => 0,
        MathError::Overflow => 2,
        MathError::OutOfDomain => 4,
    }
}

impl MathError {
    /// Returns the stable numeric error code.
    pub fn code(self) -> (code: u8)
        ensures
            code == error_code(self),
    {
        match self {
            MathError::DivByZero => 0,
            MathError::Overflow => 2,
            MathError::OutOfDomain => 4,
        }
    }

    /// Returns the human-readable description of the error.
    #[verifier::allow_in_spec]
    pub fn message(self) -> (text: &'static str)
        returns
            (match self {
                MathError::DivByZero => "division by zero",
                MathError::Overflow => "arithmetic overflow",
                MathError::OutOfDomain => "input outside operation domain",
            }),
    {
        match self {
            MathError::DivByZero => "division by zero",
            MathError::Overflow => "arithmetic overflow",
            MathError::OutOfDomain => "input outside operation domain",
        }
    }

    /// Returns the human-readable description of the error as an owned string.
    pub fn to_string(&self) -> (text: String)
        ensures
            text@ == self.message()@,
    {
        self.message().to_string()
    }
}

} // verus!
