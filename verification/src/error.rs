use vstd::prelude::*;

verus! {

/// Errors of the casting core. They are local to one cast invocation:
/// a failing call returns before any result is built.
#[derive(Copy, Clone, Debug, PartialEq, Eq, Structural)]
pub enum GuaError {
    /// A numeric input outside its documented domain, or a cast over
    /// unresolved line classifications.
    InvalidArgument,
    /// Remainder-fullness arithmetic asked for with base zero.
    ArithmeticDomainError,
}

impl GuaError {
    /// A short description of the error.
    pub fn message(&self) -> (r: &'static str)
        ensures
            *self is InvalidArgument ==> r@ == "invalid argument"@,
            *self is ArithmeticDomainError ==> r@ == "arithmetic domain error"@,
    {
        match self {
            GuaError::InvalidArgument => "invalid argument",
            GuaError::ArithmeticDomainError => "arithmetic domain error",
        }
    }
}

} // verus!
