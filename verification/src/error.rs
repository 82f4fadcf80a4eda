//! The ways in which an operation on the ledger can fail.

use vstd::prelude::*;

verus! {

/// The two failures that the ledger's own accounting raises.
#[derive(Clone, Copy, Debug, PartialEq, Eq)]
pub enum ErrorCode {
    /// A checked addition or subtraction left the range of a `u64`.
    AmountOverflow,
    /// A withdrawal asked for more than the record holds.
    InsufficientFunds,
}

impl ErrorCode {
    /// The text shown to a user for this failure.
    pub fn message(&self) -> (text: &'static str)
        ensures
            text@ == match *self {
                ErrorCode::AmountOverflow => "Amount overflow"@,
                ErrorCode::InsufficientFunds => "Insufficient funds"@,
            },
    {
        match self {
            ErrorCode::AmountOverflow => "Amount overflow",
            ErrorCode::InsufficientFunds => "Insufficient funds",
        }
    }
}

/// Every reason for which an operation is refused. A refused operation
/// changes nothing.
#[derive(Clone, Copy, Debug, PartialEq, Eq)]
pub enum LedgerError {
    /// The accounting itself failed, with this code.
    Code(ErrorCode),
    /// The storage slot is not at the address derived for the caller.
    SeedsMismatch,
    /// The storage slot already holds a record.
    AccountInUse,
    /// The storage slot holds no record.
    NotInitialized,
    /// The caller is not the owner named in the record.
    OwnerMismatch,
    /// The caller's balance does not cover the deposit.
    InsufficientBalance,
}

} // verus!
