//! What holds of the two operations, for every state and every request.
//!
//! The laws speak of `outcome` and `after`, in which the contracts of
//! `initialize_delegate` and `withdraw` are stated. The derived address is a
//! parameter of each law, so each holds whatever the derivation returns.

use crate::accounts::{InitializeDelegate, Withdraw};
use crate::error::{ErrorCode, LedgerError};
use vstd::prelude::*;

verus! {

/// Conservation. A withdrawal that succeeds adds exactly `amount` to the
/// caller's funds and takes exactly `amount` from the record's credit and
/// from the funds of the slot. What the caller gains is what the record
/// loses, and caller and slot together hold what they held before.
pub proof fn withdraw_conserves(ctx: Withdraw, amount: u64, address: Option<Seq<u8>>)
    requires
        ctx.outcome(amount, address) is Ok,
    ensures
        ({
            let after = ctx.after(amount, address);
            let credit = ctx.delegated_account.record->0.delegated_amount;
            let credit_after = after.delegated_account.record->0.delegated_amount;
            &&& after.delegated_account.record is Some
            &&& after.owner.lamports == ctx.owner.lamports + amount
            &&& credit_after == credit - amount
            &&& after.delegated_account.lamports == ctx.delegated_account.lamports - amount
            &&& after.owner.lamports - ctx.owner.lamports == credit - credit_after
            &&& after.owner.lamports + after.delegated_account.lamports == ctx.owner.lamports
                + ctx.delegated_account.lamports
        }),
{
}

/// Conservation of a deposit. An initialization that succeeds takes exactly
/// `amount` from the owner's funds, adds it to the funds of the slot and
/// credits it to the new record, which names the owner and the time given.
pub proof fn initialize_conserves(
    ctx: InitializeDelegate,
    amount: u64,
    now: i64,
    found: Option<(Seq<u8>, u8)>,
)
    requires
        ctx.outcome(amount, found) is Ok,
    ensures
        ({
            let after = ctx.after(amount, now, found);
            &&& after.owner.lamports == ctx.owner.lamports - amount
            &&& after.delegated_account.lamports == ctx.delegated_account.lamports + amount
            &&& after.delegated_account.record matches Some(record)
            &&& record.owner == ctx.owner.key
            &&& record.delegated_amount == amount
            &&& record.last_deposit_time == now
            &&& found matches Some((_, bump))
            &&& record.bump == bump
        }),
{
}

/// The credit never falls below zero. A withdrawal that succeeds asked for no
/// more than the credit and leaves the exact difference; one that asks for
/// more than the credit is refused and changes nothing.
pub proof fn credit_never_negative(ctx: Withdraw, amount: u64, address: Option<Seq<u8>>)
    ensures
        ctx.outcome(amount, address) is Ok ==> {
            &&& amount <= ctx.delegated_account.record->0.delegated_amount
            &&& ctx.after(amount, address).delegated_account.record->0.delegated_amount
                == ctx.delegated_account.record->0.delegated_amount - amount
        },
        ctx.delegated_account.record matches Some(record) && amount > record.delegated_amount ==> {
            &&& ctx.outcome(amount, address) is Err
            &&& ctx.after(amount, address) == ctx
        },
{
}

/// The credit of a record never exceeds the funds of its slot. A deposit that
/// succeeds leaves it so, whatever the slot held before, and a withdrawal
/// keeps it so.
pub proof fn credit_stays_backed(
    deposit: InitializeDelegate,
    withdrawal: Withdraw,
    amount: u64,
    now: i64,
    found: Option<(Seq<u8>, u8)>,
    address: Option<Seq<u8>>,
)
    ensures
        deposit.outcome(amount, found) is Ok ==> deposit.after(
            amount,
            now,
            found,
        ).delegated_account.well_formed(),
        withdrawal.delegated_account.well_formed() ==> withdrawal.after(
            amount,
            address,
        ).delegated_account.well_formed(),
{
}

/// A withdrawal changes nothing of a record but its credit: the owner, the
/// time of the deposit and the bump stay, and so do the identity of the
/// caller and the address of the slot.
pub proof fn withdraw_keeps_owner(ctx: Withdraw, amount: u64, address: Option<Seq<u8>>)
    requires
        ctx.delegated_account.record is Some,
    ensures
        ({
            let after = ctx.after(amount, address);
            &&& after.delegated_account.record matches Some(record)
            &&& record.owner == ctx.delegated_account.record->0.owner
            &&& record.last_deposit_time == ctx.delegated_account.record->0.last_deposit_time
            &&& record.bump == ctx.delegated_account.record->0.bump
            &&& after.owner.key == ctx.owner.key
            &&& after.delegated_account.address == ctx.delegated_account.address
        }),
{
}

/// The ceiling of a withdrawal. For a caller that is admitted to the record,
/// a request above the credit fails with `InsufficientFunds`, and only such a
/// request does. A request up to the credit succeeds unless a checked step
/// overflows, and then it fails with `AmountOverflow`; where the credit is
/// backed by the slot, the only such step is the addition to the caller's
/// funds.
pub proof fn withdrawal_ceiling(ctx: Withdraw, amount: u64, address: Option<Seq<u8>>)
    requires
        ctx.admitted(address) is Ok,
    ensures
        amount > ctx.delegated_account.record->0.delegated_amount <==> ctx.outcome(amount, address)
            == Err::<(), LedgerError>(LedgerError::Code(ErrorCode::InsufficientFunds)),
        amount <= ctx.delegated_account.record->0.delegated_amount ==> {
            let in_range = amount <= ctx.delegated_account.lamports && ctx.owner.lamports + amount
                <= u64::MAX;
            &&& in_range ==> ctx.outcome(amount, address) is Ok
            &&& !in_range ==> ctx.outcome(amount, address) == Err::<(), LedgerError>(
                LedgerError::Code(ErrorCode::AmountOverflow),
            )
        },
        amount <= ctx.delegated_account.record->0.delegated_amount
            && ctx.delegated_account.well_formed() ==> (ctx.outcome(amount, address) is Ok
            <==> ctx.owner.lamports + amount <= u64::MAX),
{
}

/// One record per slot. Once an initialization has succeeded, every further
/// initialization on the slot that it filled fails and changes nothing,
/// whoever asks and whatever is asked. Where the second request derives the
/// slot's own address, as a request of the same owner does, the failure is
/// `AccountInUse`.
pub proof fn second_initialize_fails(
    first: InitializeDelegate,
    amount: u64,
    now: i64,
    found: Option<(Seq<u8>, u8)>,
    second: InitializeDelegate,
    second_amount: u64,
    second_now: i64,
    second_found: Option<(Seq<u8>, u8)>,
)
    requires
        first.outcome(amount, found) is Ok,
        second.delegated_account == first.after(amount, now, found).delegated_account,
    ensures
        second.admitted(second_found) is Err,
        second.outcome(second_amount, second_found) is Err,
        second.after(second_amount, second_now, second_found) == second,
        second.after(second_amount, second_now, second_found).delegated_account.record == Some(
            first.after(amount, now, found).delegated_account.record->0,
        ),
        second_found == found ==> second.outcome(second_amount, second_found) == Err::<
            (),
            LedgerError,
        >(LedgerError::AccountInUse),
{
}

/// One slot per owner. The address of a record is a function of its owner:
/// two initializations for the same owner that are both admitted name slots
/// with the same address.
pub proof fn one_address_per_owner(one: InitializeDelegate, other: InitializeDelegate)
    requires
        one.owner.key@ == other.owner.key@,
        one.admitted(one.derived()) is Ok,
        other.admitted(other.derived()) is Ok,
    ensures
        one.delegated_account.address@ == other.delegated_account.address@,
        one.delegated_account.address == other.delegated_account.address,
{
    assert(one.delegated_account.address.bytes =~= other.delegated_account.address.bytes);
}

/// What was deposited can be taken out. After an initialization that
/// succeeds, a withdrawal by the owner of any amount up to the deposit, made
/// on the slot's own address, succeeds and leaves the difference as credit.
/// A withdrawal of the whole deposit leaves owner and slot with the funds
/// that they held before the deposit, and a record that credits nothing.
pub proof fn deposit_can_be_withdrawn(
    ctx: InitializeDelegate,
    amount: u64,
    now: i64,
    found: Option<(Seq<u8>, u8)>,
    requested: u64,
)
    requires
        ctx.outcome(amount, found) is Ok,
        requested <= amount,
    ensures
        ({
            let deposited = Withdraw::of(ctx.after(amount, now, found));
            let address = Some(deposited.delegated_account.address@);
            let after = deposited.after(requested, address);
            &&& deposited.outcome(requested, address) is Ok
            &&& after.delegated_account.record is Some
            &&& after.delegated_account.record->0.delegated_amount == amount - requested
            &&& after.owner.lamports == ctx.owner.lamports - amount + requested
            &&& after.delegated_account.lamports == ctx.delegated_account.lamports + amount
                - requested
            &&& requested == amount ==> after.owner == ctx.owner
                && after.delegated_account.lamports == ctx.delegated_account.lamports
        }),
{
}

/// Withdrawals add up. Two withdrawals that succeed one after the other leave
/// what a single withdrawal of their sum leaves, and that single withdrawal
/// succeeds too.
pub proof fn withdrawals_add_up(ctx: Withdraw, first: u64, second: u64, address: Option<Seq<u8>>)
    requires
        ctx.outcome(first, address) is Ok,
        ctx.after(first, address).outcome(second, address) is Ok,
    ensures
        first + second <= ctx.delegated_account.record->0.delegated_amount,
        ctx.outcome((first + second) as u64, address) is Ok,
        ctx.after(first, address).after(second, address) == ctx.after(
            (first + second) as u64,
            address,
        ),
{
}

/// Ownership. A caller that the record does not name as its owner cannot
/// withdraw: the request is refused before any amount is looked at, and
/// nothing changes.
pub proof fn stranger_cannot_withdraw(ctx: Withdraw, amount: u64, address: Option<Seq<u8>>)
    requires
        ctx.delegated_account.record matches Some(record) && record.owner@ != ctx.owner.key@,
    ensures
        ctx.outcome(amount, address) is Err,
        ctx.outcome(amount, address) == Err::<(), LedgerError>(LedgerError::SeedsMismatch)
            || ctx.outcome(amount, address) == Err::<(), LedgerError>(LedgerError::OwnerMismatch),
        ctx.after(amount, address) == ctx,
{
}

/// Atomicity. An operation that fails, for whatever reason, leaves the
/// caller, the slot and the record exactly as they were. This holds in
/// particular of a withdrawal that fails with `AmountOverflow`.
pub proof fn failure_changes_nothing(
    deposit: InitializeDelegate,
    withdrawal: Withdraw,
    amount: u64,
    now: i64,
    found: Option<(Seq<u8>, u8)>,
    address: Option<Seq<u8>>,
)
    ensures
        deposit.outcome(amount, found) is Err ==> deposit.after(amount, now, found) == deposit,
        withdrawal.outcome(amount, address) is Err ==> withdrawal.after(amount, address)
            == withdrawal,
{
}

} // verus!
