//! Checked movements of funds. Every step either yields the exact new
//! balance or fails with `AmountOverflow`; none wraps or clamps.

use crate::error::ErrorCode;
use vstd::prelude::*;

verus! {

/// Takes `amount` out of `balance`.
pub fn debit(balance: u64, amount: u64) -> (left: Result<u64, ErrorCode>)
    ensures
        amount <= balance ==> left == Ok::<u64, ErrorCode>((balance - amount) as u64),
        amount > balance ==> left == Err::<u64, ErrorCode>(ErrorCode::AmountOverflow),
{
    match balance.checked_sub(amount) {
        Some(left) => Ok(left),
        None => Err(ErrorCode::AmountOverflow),
    }
}

/// Adds `amount` to `balance`.
pub fn credit(balance: u64, amount: u64) -> (grown: Result<u64, ErrorCode>)
    ensures
        balance + amount <= u64::MAX ==> grown == Ok::<u64, ErrorCode>((balance + amount) as u64),
        balance + amount > u64::MAX ==> grown == Err::<u64, ErrorCode>(ErrorCode::AmountOverflow),
{
    match balance.checked_add(amount) {
        Some(grown) => Ok(grown),
        None => Err(ErrorCode::AmountOverflow),
    }
}

/// The balances that a withdrawal works on: what the storage slot holds,
/// what the caller holds outside the ledger, and what the record credits.
#[derive(Clone, Copy, Debug, PartialEq, Eq)]
pub struct Balances {
    /// The funds that the storage slot holds.
    pub slot: u64,
    /// The funds that the caller holds outside the ledger.
    pub caller: u64,
    /// The funds that the record credits to its owner.
    pub delegated: u64,
}

impl Balances {
    /// Whether all three steps of a withdrawal of `amount` stay in range.
    pub open spec fn covers(self, amount: u64) -> bool {
        &&& amount <= self.slot
        &&& self.caller + amount <= u64::MAX
        &&& amount <= self.delegated
    }

    /// The balances after a withdrawal of `amount`.
    pub open spec fn less(self, amount: u64) -> Balances
        recommends
            self.covers(amount),
    {
        Balances {
            slot: (self.slot - amount) as u64,
            caller: (self.caller + amount) as u64,
            delegated: (self.delegated - amount) as u64,
        }
    }

    /// Moves `amount` from the slot to the caller and lowers the credit by the
    /// same, in three checked steps: the slot is debited, the caller is
    /// credited, the credit is debited. The new balances come back only if
    /// all three steps succeed.
    pub fn settle(self, amount: u64) -> (settled: Result<Balances, ErrorCode>)
        ensures
            self.covers(amount) ==> settled == Ok::<Balances, ErrorCode>(self.less(amount)),
            !self.covers(amount) ==> settled == Err::<Balances, ErrorCode>(ErrorCode::AmountOverflow),
    {
        let slot = match debit(self.slot, amount) {
            Ok(slot) => slot,
            Err(e) => { return Err(e); },
        };
        let caller = match credit(self.caller, amount) {
            Ok(caller) => caller,
            Err(e) => { return Err(e); },
        };
        let delegated = match debit(self.delegated, amount) {
            Ok(delegated) => delegated,
            Err(e) => { return Err(e); },
        };
        Ok(Balances { slot, caller, delegated })
    }
}

} // verus!
