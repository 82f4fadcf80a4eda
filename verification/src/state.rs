//! The record kept for each owner, and the identity that owns it.

use vstd::prelude::*;

verus! {

/// A 32-byte identity handle.
#[derive(Clone, Copy, Debug, PartialEq, Eq)]
pub struct Pubkey {
    /// The handle itself.
    pub bytes: [u8; 32],
}

impl View for Pubkey {
    type V = Seq<u8>;

    open spec fn view(&self) -> Seq<u8> {
        self.bytes@
    }
}

impl Pubkey {
    /// Wraps 32 bytes as an identity.
    pub fn new_from_array(bytes: [u8; 32]) -> (key: Pubkey)
        ensures
            key.bytes == bytes,
    {
        Pubkey { bytes }
    }

    /// The 32 bytes of the identity.
    pub fn to_bytes(&self) -> (bytes: [u8; 32])
        ensures
            bytes == self.bytes,
    {
        self.bytes
    }

    /// Whether two handles name the same identity: all 32 bytes agree.
    pub fn same(&self, other: &Pubkey) -> (same: bool)
        ensures
            same == (self@ == other@),
            same == (*self == *other),
    {
        let mut i: usize = 0;
        while i < 32
            invariant
                i <= 32,
                forall|j: int| 0 <= j < i ==> self.bytes@[j] == other.bytes@[j],
            decreases 32 - i,
        {
            if self.bytes[i] != other.bytes[i] {
                return false;
            }
            i += 1;
        }
        assert(self.bytes =~= other.bytes);
        true
    }
}

/// The balance record of one owner.
#[derive(Clone, Copy, Debug, PartialEq, Eq)]
pub struct DelegatedAccount {
    /// The identity allowed to withdraw.
    pub owner: Pubkey,
    /// Funds currently credited to the record.
    pub delegated_amount: u64,
    /// Seconds since the epoch at which the record was created.
    pub last_deposit_time: i64,
    /// The value that completes the derivation of the record's address from `owner`.
    pub bump: u8,
}

impl DelegatedAccount {
    /// Bytes of storage that one record takes, header included.
    pub const LEN: usize = 8 + 32 + 8 + 8 + 1;
}

} // verus!
