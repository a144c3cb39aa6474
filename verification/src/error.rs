//! The failures that processing a record can report.

use vstd::prelude::*;

verus! {

/// A state transition of the dispute family was asked of a record that is
/// neither a deposit nor a withdrawal.
#[derive(Debug, Clone, Copy)]
pub struct NonActionableTransactionError;

/// A record carried a type keyword that the ledger does not know, and the
/// engine runs in strict mode.
#[derive(Debug, Clone, Copy)]
pub struct UnknownTransactionError;

/// A withdrawal asked for more than the account has available.
#[derive(Debug, Clone, Copy)]
pub struct InsufficientFundsError;

/// The text that every error of this module reports.
pub open spec fn error_text() -> Seq<char> {
    "References transaction cannot not be referrenced"@
}

impl NonActionableTransactionError {
    /// The message of this error.
    pub fn to_string(&self) -> (text: String)
        ensures
            text@ == error_text(),
    {
        "References transaction cannot not be referrenced".to_owned()
    }
}

impl UnknownTransactionError {
    /// The message of this error.
    pub fn to_string(&self) -> (text: String)
        ensures
            text@ == error_text(),
    {
        "References transaction cannot not be referrenced".to_owned()
    }
}

impl InsufficientFundsError {
    /// The message of this error.
    pub fn to_string(&self) -> (text: String)
        ensures
            text@ == error_text(),
    {
        "References transaction cannot not be referrenced".to_owned()
    }
}

} // verus!
