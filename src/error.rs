//! Errors that a script's call into the library can raise.

use vstd::prelude::*;

verus! {

/// What went wrong in one call from a script.
#[derive(Debug)]
pub enum ScriptError {
    /// A value did not have the type that was needed; holds a description of it.
    TypeMismatch(String),
    /// A builtin got the wrong number or kinds of arguments; holds its signature.
    InvalidArguments(String),
    /// The operation is not defined for these values; holds the reason.
    UnsupportedOperation(String),
}

impl ScriptError {
    /// The error is a type mismatch that names `expected`.
    pub open spec fn is_type_mismatch(self, expected: Seq<char>) -> bool {
        self matches ScriptError::TypeMismatch(m) && m@ == expected
    }

    /// The error is a rejection of the arguments that names the signature `sig`.
    pub open spec fn is_invalid_arguments(self, sig: Seq<char>) -> bool {
        self matches ScriptError::InvalidArguments(m) && m@ == sig
    }

    /// The error refuses the operation, with the reason `reason`.
    pub open spec fn is_unsupported(self, reason: Seq<char>) -> bool {
        self matches ScriptError::UnsupportedOperation(m) && m@ == reason
    }

    /// The text that describes the error.
    pub fn message(&self) -> (r: String)
        ensures
            r@ == match self {
                ScriptError::TypeMismatch(m) => m@,
                ScriptError::InvalidArguments(m) => m@,
                ScriptError::UnsupportedOperation(m) => m@,
            },
    {
        match self {
            ScriptError::TypeMismatch(m) => m.clone(),
            ScriptError::InvalidArguments(m) => m.clone(),
            ScriptError::UnsupportedOperation(m) => m.clone(),
        }
    }
}

} // verus!
