use std::str::FromStr;

use delegation_program::address::{
    create_delegate_address, find_delegate_address, ID, SEED_PREFIX,
};
use delegation_program::state::Pubkey;

const ADDRESS_OF_ONES: [u8; 32] = [
    129, 108, 216, 251, 0, 27, 176, 75, 179, 134, 156, 181, 120, 123, 175, 205, 142, 130, 1, 90,
    249, 33, 162, 51, 92, 118, 255, 123, 20, 29, 146, 110,
];

const ADDRESS_OF_SEVENS: [u8; 32] = [
    100, 45, 41, 127, 20, 122, 152, 177, 37, 83, 39, 136, 159, 248, 242, 189, 206, 107, 108, 149,
    187, 69, 160, 127, 55, 168, 8, 100, 215, 134, 217, 96,
];

fn outside_key(key: &Pubkey) -> anchor_lang::prelude::Pubkey {
    anchor_lang::prelude::Pubkey::new_from_array(key.to_bytes())
}

#[test]
fn ledger_identity_is_the_declared_one() {
    let declared =
        anchor_lang::prelude::Pubkey::from_str("E1bxy4HwKFjPARhVe7NjvoFtynN69C4xNA53uSwruHrP")
            .expect("a valid identity");
    assert_eq!(declared.to_bytes(), ID);
}

#[test]
fn salt_spells_delegate() {
    assert_eq!(&SEED_PREFIX, b"delegate");
}

#[test]
fn found_address_has_known_value() {
    let ones = Pubkey::new_from_array([1; 32]);
    assert_eq!(
        find_delegate_address(&ones),
        Some((Pubkey::new_from_array(ADDRESS_OF_ONES), 255))
    );
    let sevens = Pubkey::new_from_array([7; 32]);
    assert_eq!(
        find_delegate_address(&sevens),
        Some((Pubkey::new_from_array(ADDRESS_OF_SEVENS), 253))
    );
}

#[test]
fn found_address_is_not_an_argument_handed_back() {
    for byte in [0u8, 1, 2, 7, 200, 255] {
        let owner = Pubkey::new_from_array([byte; 32]);
        let (address, _) = find_delegate_address(&owner).expect("an address");
        assert_ne!(address, owner);
        assert_ne!(address.to_bytes(), ID);
    }
}

#[test]
fn found_address_agrees_with_the_outside_derivation() {
    let program = anchor_lang::prelude::Pubkey::new_from_array(ID);
    for byte in [0u8, 1, 2, 7, 200, 255] {
        let owner = Pubkey::new_from_array([byte; 32]);
        let expected = anchor_lang::prelude::Pubkey::find_program_address(
            &[b"delegate", outside_key(&owner).as_ref()],
            &program,
        );
        let (address, bump) = find_delegate_address(&owner).expect("an address");
        assert_eq!((outside_key(&address), bump), expected);
    }
}

#[test]
fn found_bump_derives_the_found_address() {
    for byte in [0u8, 1, 2, 7, 200, 255] {
        let owner = Pubkey::new_from_array([byte; 32]);
        let (address, bump) = find_delegate_address(&owner).expect("an address");
        assert_eq!(create_delegate_address(&owner, bump), Some(address));
    }
}

#[test]
fn created_address_depends_on_owner_and_bump() {
    let ones = Pubkey::new_from_array([1; 32]);
    let twos = Pubkey::new_from_array([2; 32]);
    assert_eq!(
        create_delegate_address(&ones, 255),
        Some(Pubkey::new_from_array(ADDRESS_OF_ONES))
    );
    let next = create_delegate_address(&ones, 254).expect("bump 254 derives an address");
    assert_ne!(next, Pubkey::new_from_array(ADDRESS_OF_ONES));
    assert_ne!(next, ones);
    assert_ne!(create_delegate_address(&twos, 255), create_delegate_address(&ones, 255));
    assert_eq!(
        create_delegate_address(&Pubkey::new_from_array([7; 32]), 253),
        Some(Pubkey::new_from_array(ADDRESS_OF_SEVENS))
    );
}

#[test]
fn bump_on_the_curve_derives_nothing() {
    let ones = Pubkey::new_from_array([1; 32]);
    assert_eq!(create_delegate_address(&ones, 253), None);
    let sevens = Pubkey::new_from_array([7; 32]);
    assert_eq!(create_delegate_address(&sevens, 255), None);
    assert_eq!(create_delegate_address(&sevens, 254), None);
}
