use delegation_program::accounts::{InitializeDelegate, Signer, Slot, Withdraw};
use delegation_program::address::find_delegate_address;
use delegation_program::error::{ErrorCode, LedgerError};
use delegation_program::instructions::{initialize_delegate, initialize_delegate_with, withdraw};
use delegation_program::state::{DelegatedAccount, Pubkey};

const NOW: i64 = 1_700_000_000;

fn owner_a() -> Pubkey {
    Pubkey::new_from_array([1; 32])
}

fn owner_b() -> Pubkey {
    Pubkey::new_from_array([2; 32])
}

fn address_of(owner: &Pubkey) -> (Pubkey, u8) {
    find_delegate_address(owner).expect("an address for the owner")
}

fn empty_slot(owner: &Pubkey, lamports: u64) -> Slot {
    Slot { address: address_of(owner).0, lamports, record: None }
}

/// Owner A with 5000 outside the ledger, after a deposit of 1000 into a slot
/// that held 10 before.
fn a_after_deposit() -> Withdraw {
    let mut ctx = InitializeDelegate {
        owner: Signer { key: owner_a(), lamports: 5000 },
        delegated_account: empty_slot(&owner_a(), 10),
    };
    assert_eq!(initialize_delegate(&mut ctx, 1000, NOW), Ok(()));
    Withdraw { owner: ctx.owner, delegated_account: ctx.delegated_account }
}

#[test]
fn initialize_records_deposit_and_time() {
    let mut ctx = InitializeDelegate {
        owner: Signer { key: owner_a(), lamports: 5000 },
        delegated_account: empty_slot(&owner_a(), 10),
    };
    assert_eq!(initialize_delegate(&mut ctx, 1000, NOW), Ok(()));
    let (address, bump) = address_of(&owner_a());
    assert_eq!(
        ctx.delegated_account.record,
        Some(DelegatedAccount {
            owner: owner_a(),
            delegated_amount: 1000,
            last_deposit_time: NOW,
            bump,
        })
    );
    assert_eq!(ctx.delegated_account.address, address);
    assert_eq!(ctx.delegated_account.lamports, 1010);
    assert_eq!(ctx.owner, Signer { key: owner_a(), lamports: 4000 });
}

#[test]
fn withdraw_part_moves_it_to_the_owner() {
    let mut ctx = a_after_deposit();
    assert_eq!(withdraw(&mut ctx, 400), Ok(()));
    let record = ctx.delegated_account.record.expect("the record stays");
    assert_eq!(record.delegated_amount, 600);
    assert_eq!(ctx.owner.lamports, 4400);
    assert_eq!(ctx.delegated_account.lamports, 610);
}

#[test]
fn withdraw_above_the_rest_is_refused() {
    let mut ctx = a_after_deposit();
    assert_eq!(withdraw(&mut ctx, 400), Ok(()));
    let before = ctx;
    assert_eq!(
        withdraw(&mut ctx, 700),
        Err(LedgerError::Code(ErrorCode::InsufficientFunds))
    );
    assert_eq!(ctx, before);
    assert_eq!(ctx.delegated_account.record.expect("the record stays").delegated_amount, 600);
}

#[test]
fn initialize_on_the_address_of_another_owner_is_refused() {
    let taken = a_after_deposit().delegated_account;
    let mut ctx = InitializeDelegate {
        owner: Signer { key: owner_b(), lamports: 5000 },
        delegated_account: taken,
    };
    let before = ctx;
    // The address derived for B is not the address of A's slot.
    assert_eq!(initialize_delegate(&mut ctx, 50, NOW + 1), Err(LedgerError::SeedsMismatch));
    assert_eq!(ctx, before);
    // Even with the address taken for granted, the slot is in use.
    assert_eq!(
        initialize_delegate_with(&mut ctx, 50, NOW + 1, Some((taken.address, 255))),
        Err(LedgerError::AccountInUse)
    );
    assert_eq!(ctx, before);
    assert_eq!(ctx.delegated_account, taken);
}

#[test]
fn withdraw_all_then_nothing_more() {
    let mut ctx = a_after_deposit();
    assert_eq!(withdraw(&mut ctx, 400), Ok(()));
    assert_eq!(withdraw(&mut ctx, 600), Ok(()));
    let drained = ctx;
    let record = drained.delegated_account.record.expect("a drained record stays");
    assert_eq!(record.delegated_amount, 0);
    assert_eq!(record.owner, owner_a());
    assert_eq!(drained.owner.lamports, 5000);
    assert_eq!(drained.delegated_account.lamports, 10);
    for amount in [1, 2, 600, u64::MAX] {
        assert_eq!(
            withdraw(&mut ctx, amount),
            Err(LedgerError::Code(ErrorCode::InsufficientFunds))
        );
        assert_eq!(ctx, drained);
    }
    assert_eq!(withdraw(&mut ctx, 0), Ok(()));
    assert_eq!(ctx, drained);
}

#[test]
fn second_initialize_of_the_same_owner_is_refused() {
    let first = a_after_deposit();
    let mut ctx = InitializeDelegate {
        owner: Signer { key: owner_a(), lamports: 4000 },
        delegated_account: first.delegated_account,
    };
    assert_eq!(initialize_delegate(&mut ctx, 1, NOW + 60), Err(LedgerError::AccountInUse));
    assert_eq!(ctx.delegated_account, first.delegated_account);
    assert_eq!(ctx.owner.lamports, 4000);
}

#[test]
fn two_owners_keep_separate_records() {
    let (address_a, _) = address_of(&owner_a());
    let (address_b, _) = address_of(&owner_b());
    assert_ne!(address_a, address_b);
    let mut a = a_after_deposit();
    let mut ctx_b = InitializeDelegate {
        owner: Signer { key: owner_b(), lamports: 300 },
        delegated_account: empty_slot(&owner_b(), 0),
    };
    assert_eq!(initialize_delegate(&mut ctx_b, 300, NOW), Ok(()));
    let mut b = Withdraw { owner: ctx_b.owner, delegated_account: ctx_b.delegated_account };
    assert_eq!(withdraw(&mut a, 1000), Ok(()));
    assert_eq!(b.delegated_account.record.expect("B's record").delegated_amount, 300);
    assert_eq!(withdraw(&mut b, 300), Ok(()));
    assert_eq!(b.owner.lamports, 300);
    assert_eq!(a.owner.lamports, 5000);
}
