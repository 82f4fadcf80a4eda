//! A custodial balance ledger: one record per owning identity, credited by an
//! initial deposit and debited by withdrawals that never exceed the credit.
//!
//! `initialize_delegate` creates the record of an owner in the storage slot
//! at the address derived from the owner's identity and moves the deposit
//! into it. `withdraw` moves funds back to the owner. Both work on plain
//! values, change all of them or none, and say in their contracts exactly
//! when they succeed and what they leave behind.

pub mod accounts;
pub mod address;
pub mod error;
pub mod funds;
pub mod instructions;
pub mod laws;
pub mod state;

pub use accounts::{InitializeDelegate, Signer, Slot, Withdraw};
pub use error::{ErrorCode, LedgerError};
pub use instructions::{initialize_delegate, withdraw};
pub use state::{DelegatedAccount, Pubkey};
