//! What each operation works on: the caller with its own funds, and the
//! storage slot that holds, or will hold, the caller's record.

use crate::address::{address_with_bump, canonical_address};
use crate::error::{ErrorCode, LedgerError};
use crate::state::{DelegatedAccount, Pubkey};
use vstd::prelude::*;

verus! {

/// The identity that asks for an operation, with the funds that it holds
/// outside the ledger. That the identity has authorized the operation is
/// established before a `Signer` is made.
#[derive(Clone, Copy, Debug, PartialEq, Eq)]
pub struct Signer {
    /// Who asks.
    pub key: Pubkey,
    /// The funds that the identity holds outside the ledger.
    pub lamports: u64,
}

/// One storage slot: its address, the funds that it physically holds, and the
/// record stored in it, if any.
#[derive(Clone, Copy, Debug, PartialEq, Eq)]
pub struct Slot {
    /// Where the slot lies.
    pub address: Pubkey,
    /// The funds that the slot holds, credited to a record or not.
    pub lamports: u64,
    /// The record stored in the slot; `None` while none was created.
    pub record: Option<DelegatedAccount>,
}

impl Slot {
    /// The credit of a record never exceeds the funds that its slot holds.
    pub open spec fn well_formed(self) -> bool {
        self.record matches Some(record) ==> record.delegated_amount <= self.lamports
    }
}

/// The accounts of `initialize_delegate`: the owner-to-be, who pays the
/// deposit, and the slot in which the record is created.
#[derive(Clone, Copy, Debug, PartialEq, Eq)]
pub struct InitializeDelegate {
    /// Who becomes the owner of the record and pays the deposit.
    pub owner: Signer,
    /// The slot that receives the record and the deposit.
    pub delegated_account: Slot,
}

impl InitializeDelegate {
    /// Whether a record may be created in the slot: the slot lies at the
    /// address of `found`, the address derived for the owner, and holds no
    /// record yet.
    pub open spec fn admitted(self, found: Option<(Seq<u8>, u8)>) -> Result<(), LedgerError> {
        if !(found matches Some((address, _)) && address == self.delegated_account.address@) {
            Err(LedgerError::SeedsMismatch)
        } else if self.delegated_account.record is Some {
            Err(LedgerError::AccountInUse)
        } else {
            Ok(())
        }
    }

    /// Whether a deposit of `amount` is accepted, and if not, why.
    pub open spec fn outcome(self, amount: u64, found: Option<(Seq<u8>, u8)>) -> Result<
        (),
        LedgerError,
    > {
        if self.admitted(found) is Err {
            self.admitted(found)
        } else if amount > self.owner.lamports {
            Err(LedgerError::InsufficientBalance)
        } else if self.delegated_account.lamports + amount > u64::MAX {
            Err(LedgerError::Code(ErrorCode::AmountOverflow))
        } else {
            Ok(())
        }
    }

    /// The accounts after the operation: on success the slot holds a new
    /// record that credits `amount` to the owner, and `amount` has moved from
    /// the owner to the slot; on failure nothing has changed.
    pub open spec fn after(self, amount: u64, now: i64, found: Option<(Seq<u8>, u8)>) -> Self {
        if self.outcome(amount, found) is Ok {
            InitializeDelegate {
                owner: Signer {
                    key: self.owner.key,
                    lamports: (self.owner.lamports - amount) as u64,
                },
                delegated_account: Slot {
                    address: self.delegated_account.address,
                    lamports: (self.delegated_account.lamports + amount) as u64,
                    record: Some(
                        DelegatedAccount {
                            owner: self.owner.key,
                            delegated_amount: amount,
                            last_deposit_time: now,
                            bump: match found {
                                Some((_, bump)) => bump,
                                None => 0,
                            },
                        },
                    ),
                },
            }
        } else {
            self
        }
    }

    /// The address that the search derives for this owner, with its bump.
    pub open spec fn derived(self) -> Option<(Seq<u8>, u8)> {
        canonical_address(self.owner.key@)
    }
}

/// The accounts of `withdraw`: the caller, who receives the funds, and the
/// slot that holds the record to withdraw from.
#[derive(Clone, Copy, Debug, PartialEq, Eq)]
pub struct Withdraw {
    /// Who asks for the funds and receives them.
    pub owner: Signer,
    /// The slot that holds the record and the funds.
    pub delegated_account: Slot,
}

impl Withdraw {
    /// The caller and the slot of `ctx`, as the accounts of a withdrawal.
    pub open spec fn of(ctx: InitializeDelegate) -> Withdraw {
        Withdraw { owner: ctx.owner, delegated_account: ctx.delegated_account }
    }

    /// Whether the caller may act on the record: the slot holds a record, it
    /// lies at `address`, the address derived for the caller, and the record
    /// names the caller as its owner.
    pub open spec fn admitted(self, address: Option<Seq<u8>>) -> Result<(), LedgerError> {
        match self.delegated_account.record {
            None => Err(LedgerError::NotInitialized),
            Some(record) => if address != Some(self.delegated_account.address@) {
                Err(LedgerError::SeedsMismatch)
            } else if record.owner@ != self.owner.key@ {
                Err(LedgerError::OwnerMismatch)
            } else {
                Ok(())
            },
        }
    }

    /// Whether a withdrawal of `amount` is accepted, and if not, why.
    pub open spec fn outcome(self, amount: u64, address: Option<Seq<u8>>) -> Result<
        (),
        LedgerError,
    > {
        if self.admitted(address) is Err {
            self.admitted(address)
        } else if amount > self.delegated_account.record->0.delegated_amount {
            Err(LedgerError::Code(ErrorCode::InsufficientFunds))
        } else if amount > self.delegated_account.lamports || self.owner.lamports + amount
            > u64::MAX {
            Err(LedgerError::Code(ErrorCode::AmountOverflow))
        } else {
            Ok(())
        }
    }

    /// The accounts after the operation: on success `amount` has moved from
    /// the slot to the caller and the record's credit is lower by `amount`;
    /// on failure nothing has changed.
    pub open spec fn after(self, amount: u64, address: Option<Seq<u8>>) -> Self {
        if self.outcome(amount, address) is Ok {
            let record = self.delegated_account.record->0;
            Withdraw {
                owner: Signer {
                    key: self.owner.key,
                    lamports: (self.owner.lamports + amount) as u64,
                },
                delegated_account: Slot {
                    address: self.delegated_account.address,
                    lamports: (self.delegated_account.lamports - amount) as u64,
                    record: Some(
                        DelegatedAccount {
                            owner: record.owner,
                            delegated_amount: (record.delegated_amount - amount) as u64,
                            last_deposit_time: record.last_deposit_time,
                            bump: record.bump,
                        },
                    ),
                },
            }
        } else {
            self
        }
    }

    /// The address that the record's own bump derives for the caller, if the
    /// slot holds a record.
    pub open spec fn derived(self) -> Option<Seq<u8>> {
        match self.delegated_account.record {
            Some(record) => address_with_bump(self.owner.key@, record.bump),
            None => None,
        }
    }
}

} // verus!
