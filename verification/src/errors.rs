//! The error taxonomy of the binding layer.

use vstd::prelude::*;

verus! {

/// An error surfaced to the caller. There are exactly two kinds: a failure
/// reported by the native engine through its nonzero return code and
/// last-error text, and a data-type token that names no supported element
/// type. Nothing is ever coerced to a default: every failure is returned as a
/// value.
#[derive(Debug, PartialEq, Eq)]
pub enum TreeRiteError {
    /// The native engine returned a nonzero code; carries its last-error text
    /// verbatim.
    CError(String),
    /// A data-type token outside the recognized set; carries the offending
    /// token.
    UnknownDataTypeString(String),
}

/// Holds when `e` is the native-reported kind and carries exactly `msg`.
pub open spec fn is_native_error(e: TreeRiteError, msg: Seq<char>) -> bool {
    &&& e matches TreeRiteError::CError(s)
    &&& s@ == msg
}

/// Holds when `e` is the unknown-token kind and carries exactly `token`.
pub open spec fn is_unknown_token_error(e: TreeRiteError, token: Seq<char>) -> bool {
    &&& e matches TreeRiteError::UnknownDataTypeString(s)
    &&& s@ == token
}

impl TreeRiteError {
    /// The diagnostic text this error carries, whatever its kind.
    pub fn message(&self) -> (r: &String)
        ensures
            match self {
                TreeRiteError::CError(s) => r@ == s@,
                TreeRiteError::UnknownDataTypeString(s) => r@ == s@,
            },
    {
        match self {
            TreeRiteError::CError(s) => s,
            TreeRiteError::UnknownDataTypeString(s) => s,
        }
    }
}

} // verus!
