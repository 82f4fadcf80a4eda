//! The address at which an owner's record is stored.
//!
//! The address is derived from a fixed salt, the owner's identity and the
//! identity of the ledger. The derivation itself is the work of the `Pubkey`
//! of `anchor_lang`; this module fixes what is handed to it and names what
//! comes back.

use crate::state::Pubkey;
use vstd::prelude::*;

verus! {

/// The identity of the ledger itself, under which every record address is derived.
pub const ID: [u8; 32] = [
    193, 79, 119, 11, 238, 106, 251, 156, 105, 217, 133, 161, 219, 44, 229, 121,
    18, 156, 30, 252, 198, 85, 190, 221, 216, 242, 201, 147, 37, 237, 193, 160,
];

/// The fixed salt that opens every derivation: the ASCII bytes of `delegate`.
pub const SEED_PREFIX: [u8; 8] = [100, 101, 108, 101, 103, 97, 116, 101];

/// What `Pubkey::create_program_address` returns for the given seeds and
/// program: the derived address, or `None` where it returns an error.
pub uninterp spec fn program_address(seeds: Seq<Seq<u8>>, program_id: Seq<u8>) -> Option<Seq<u8>>;

/// What `Pubkey::try_find_program_address` returns for the given seeds and
/// program: an address and the bump that completes the seeds, or `None`.
pub uninterp spec fn found_program_address(seeds: Seq<Seq<u8>>, program_id: Seq<u8>) -> Option<
    (Seq<u8>, u8),
>;

/// The bytes of an address that may be missing.
pub open spec fn address_view(address: Option<Pubkey>) -> Option<Seq<u8>> {
    match address {
        Some(key) => Some(key@),
        None => None,
    }
}

/// The bytes of an address and its bump, where both may be missing.
pub open spec fn found_view(found: Option<(Pubkey, u8)>) -> Option<(Seq<u8>, u8)> {
    match found {
        Some((key, bump)) => Some((key@, bump)),
        None => None,
    }
}

/// Calls `Pubkey::create_program_address`, which `anchor_lang` hands on from
/// `solana_program::pubkey`. Trusted: the result is a function of the seeds
/// and the program alone, here named `program_address`; an error of the
/// outside function comes back as `None`.
#[verifier::external_body]
fn create_program_address(seeds: &[&[u8]], program_id: &Pubkey) -> (address: Option<Pubkey>)
    ensures
        address_view(address) == program_address(seeds.deep_view(), program_id@),
{
    let program = anchor_lang::prelude::Pubkey::new_from_array(program_id.bytes);
    match anchor_lang::prelude::Pubkey::create_program_address(seeds, &program) {
        Ok(key) => Some(Pubkey { bytes: key.to_bytes() }),
        Err(_) => None,
    }
}

/// Calls `Pubkey::try_find_program_address`, which `anchor_lang` hands on
/// from `solana_program::pubkey`. Trusted: the result is a function of the
/// seeds and the program alone, here named `found_program_address`; and an
/// address that it finds is the one that `Pubkey::create_program_address`
/// derives from the same seeds followed by the one-byte seed that holds the
/// bump.
#[verifier::external_body]
fn try_find_program_address(seeds: &[&[u8]], program_id: &Pubkey) -> (found: Option<(Pubkey, u8)>)
    ensures
        found_view(found) == found_program_address(seeds.deep_view(), program_id@),
        found matches Some((key, bump)) ==> program_address(
            seeds.deep_view().push(seq![bump]),
            program_id@,
        ) == Some(key@),
{
    let program = anchor_lang::prelude::Pubkey::new_from_array(program_id.bytes);
    match anchor_lang::prelude::Pubkey::try_find_program_address(seeds, &program) {
        Some((key, bump)) => Some((Pubkey { bytes: key.to_bytes() }, bump)),
        None => None,
    }
}

/// The seeds of an owner's record: the salt, then the owner's 32 bytes.
pub open spec fn delegate_seeds(owner: Seq<u8>) -> Seq<Seq<u8>> {
    seq![SEED_PREFIX@, owner]
}

/// The address of an owner's record and the bump that produced it, as the
/// search for a bump finds them.
pub open spec fn canonical_address(owner: Seq<u8>) -> Option<(Seq<u8>, u8)> {
    found_program_address(delegate_seeds(owner), ID@)
}

/// The address that an owner's seeds give with one particular bump.
pub open spec fn address_with_bump(owner: Seq<u8>, bump: u8) -> Option<Seq<u8>> {
    program_address(delegate_seeds(owner).push(seq![bump]), ID@)
}

/// Finds the address of `owner`'s record and the bump that produced it.
/// `None` where no bump gives an address.
pub fn find_delegate_address(owner: &Pubkey) -> (found: Option<(Pubkey, u8)>)
    ensures
        found_view(found) == canonical_address(owner@),
        found matches Some((key, bump)) ==> address_with_bump(owner@, bump) == Some(key@),
{
    let seeds: [&[u8]; 2] = [SEED_PREFIX.as_slice(), owner.bytes.as_slice()];
    let program = Pubkey { bytes: ID };
    let parts = seeds.as_slice();
    assert(parts.deep_view() =~~= delegate_seeds(owner@));
    try_find_program_address(parts, &program)
}

/// Derives the address of `owner`'s record with a bump that is already
/// known. `None` where that bump gives no address.
pub fn create_delegate_address(owner: &Pubkey, bump: u8) -> (address: Option<Pubkey>)
    ensures
        address_view(address) == address_with_bump(owner@, bump),
{
    let bump_seed: [u8; 1] = [bump];
    let seeds: [&[u8]; 3] = [
        SEED_PREFIX.as_slice(),
        owner.bytes.as_slice(),
        bump_seed.as_slice(),
    ];
    let program = Pubkey { bytes: ID };
    let parts = seeds.as_slice();
    assert(parts.deep_view() =~~= delegate_seeds(owner@).push(seq![bump]));
    create_program_address(parts, &program)
}

} // verus!
