//! The two operations of the ledger.

use crate::accounts::{InitializeDelegate, Withdraw};
use crate::address::{address_view, create_delegate_address, find_delegate_address, found_view};
use crate::error::{ErrorCode, LedgerError};
use crate::funds::{credit, Balances};
use crate::state::{DelegatedAccount, Pubkey};
use vstd::prelude::*;

verus! {

/// Creates the owner's record in the slot and deposits `amount` into it,
/// given the address and bump that were derived for the owner. `now` is the
/// time of the call, in seconds since the epoch.
pub fn initialize_delegate_with(
    ctx: &mut InitializeDelegate,
    amount: u64,
    now: i64,
    found: Option<(Pubkey, u8)>,
) -> (result: Result<(), LedgerError>)
    ensures
        result == old(ctx).outcome(amount, found_view(found)),
        *final(ctx) == old(ctx).after(amount, now, found_view(found)),
{
    let bump = match found {
        Some((address, bump)) => {
            if !address.same(&ctx.delegated_account.address) {
                return Err(LedgerError::SeedsMismatch);
            }
            bump
        },
        None => {
            return Err(LedgerError::SeedsMismatch);
        },
    };
    if ctx.delegated_account.record.is_some() {
        return Err(LedgerError::AccountInUse);
    }
    if amount > ctx.owner.lamports {
        return Err(LedgerError::InsufficientBalance);
    }
    let held = match credit(ctx.delegated_account.lamports, amount) {
        Ok(held) => held,
        Err(e) => {
            return Err(LedgerError::Code(e));
        },
    };
    ctx.owner.lamports = ctx.owner.lamports - amount;
    ctx.delegated_account.lamports = held;
    ctx.delegated_account.record = Some(
        DelegatedAccount {
            owner: ctx.owner.key,
            delegated_amount: amount,
            last_deposit_time: now,
            bump,
        },
    );
    Ok(())
}

/// Creates the owner's record and deposits `amount` into it. The slot must
/// lie at the address derived for the owner and hold no record yet, and the
/// owner's funds must cover the deposit. `now` is the time of the call, in
/// seconds since the epoch.
pub fn initialize_delegate(ctx: &mut InitializeDelegate, amount: u64, now: i64) -> (result: Result<
    (),
    LedgerError,
>)
    ensures
        result == old(ctx).outcome(amount, old(ctx).derived()),
        *final(ctx) == old(ctx).after(amount, now, old(ctx).derived()),
        result is Err ==> *final(ctx) == *old(ctx),
        result is Ok ==> final(ctx).delegated_account.well_formed(),
        result is Ok ==> Withdraw::of(*final(ctx)).admitted(Withdraw::of(*final(ctx)).derived())
            is Ok,
{
    let found = find_delegate_address(&ctx.owner.key);
    initialize_delegate_with(ctx, amount, now, found)
}

/// Withdraws `amount` from the record to the caller, given the address that
/// the record's bump derives for the caller.
pub fn withdraw_with(ctx: &mut Withdraw, amount: u64, address: Option<Pubkey>) -> (result: Result<
    (),
    LedgerError,
>)
    ensures
        result == old(ctx).outcome(amount, address_view(address)),
        *final(ctx) == old(ctx).after(amount, address_view(address)),
{
    let record = match ctx.delegated_account.record {
        Some(record) => record,
        None => {
            return Err(LedgerError::NotInitialized);
        },
    };
    match address {
        Some(address) => {
            if !address.same(&ctx.delegated_account.address) {
                return Err(LedgerError::SeedsMismatch);
            }
        },
        None => {
            return Err(LedgerError::SeedsMismatch);
        },
    }
    if !record.owner.same(&ctx.owner.key) {
        return Err(LedgerError::OwnerMismatch);
    }
    if amount > record.delegated_amount {
        return Err(LedgerError::Code(ErrorCode::InsufficientFunds));
    }
    let before = Balances {
        slot: ctx.delegated_account.lamports,
        caller: ctx.owner.lamports,
        delegated: record.delegated_amount,
    };
    let settled = match before.settle(amount) {
        Ok(settled) => settled,
        Err(e) => {
            return Err(LedgerError::Code(e));
        },
    };
    ctx.delegated_account.lamports = settled.slot;
    ctx.owner.lamports = settled.caller;
    ctx.delegated_account.record = Some(
        DelegatedAccount {
            owner: record.owner,
            delegated_amount: settled.delegated,
            last_deposit_time: record.last_deposit_time,
            bump: record.bump,
        },
    );
    Ok(())
}

/// Withdraws `amount` from the caller's record to the caller. The slot must
/// hold a record at the address derived for the caller, the record must name
/// the caller as its owner, and `amount` must not exceed the record's credit.
pub fn withdraw(ctx: &mut Withdraw, amount: u64) -> (result: Result<(), LedgerError>)
    ensures
        result == old(ctx).outcome(amount, old(ctx).derived()),
        *final(ctx) == old(ctx).after(amount, old(ctx).derived()),
        result is Err ==> *final(ctx) == *old(ctx),
        old(ctx).delegated_account.well_formed() ==> final(ctx).delegated_account.well_formed(),
{
    let address = match ctx.delegated_account.record {
        Some(record) => create_delegate_address(&ctx.owner.key, record.bump),
        None => None,
    };
    withdraw_with(ctx, amount, address)
}

} // verus!
