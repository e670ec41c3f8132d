//! Account identities and the well-known addresses of the network's programs.

use vstd::prelude::*;

verus! {

/// Bytes of the stake program's address, `Stake11111111111111111111111111111111111111`.
pub const STAKE_PROGRAM_ID: [u8; 32] = [
    6, 161, 216, 23, 145, 55, 84, 42, 152, 52, 55, 189, 254, 42, 122, 178,
    85, 127, 83, 92, 138, 120, 114, 43, 104, 164, 157, 192, 0, 0, 0, 0,
];

/// Bytes of the vote program's address, `Vote111111111111111111111111111111111111111`.
pub const VOTE_PROGRAM_ID: [u8; 32] = [
    7, 97, 72, 29, 53, 116, 116, 187, 124, 77, 118, 36, 235, 211, 189, 179,
    216, 53, 94, 115, 209, 16, 67, 252, 13, 163, 83, 128, 0, 0, 0, 0,
];

/// Bytes of the system program's address, `11111111111111111111111111111111`.
pub const SYSTEM_PROGRAM_ID: [u8; 32] = [
    0, 0, 0, 0, 0, 0, 0, 0, 0, 0, 0, 0, 0, 0, 0, 0,
    0, 0, 0, 0, 0, 0, 0, 0, 0, 0, 0, 0, 0, 0, 0, 0,
];

/// Bytes of the clock sysvar's address, `SysvarC1ock11111111111111111111111111111111`.
pub const CLOCK_SYSVAR_ID: [u8; 32] = [
    6, 167, 213, 23, 24, 199, 116, 201, 40, 86, 99, 152, 105, 29, 94, 182,
    139, 94, 184, 163, 155, 75, 109, 92, 115, 85, 91, 33, 0, 0, 0, 0,
];

/// Bytes of the rent sysvar's address, `SysvarRent111111111111111111111111111111111`.
pub const RENT_SYSVAR_ID: [u8; 32] = [
    6, 167, 213, 23, 25, 44, 92, 81, 33, 140, 201, 76, 61, 74, 241, 127,
    88, 218, 238, 8, 155, 161, 253, 68, 227, 219, 217, 138, 0, 0, 0, 0,
];

/// Bytes of the stake-history sysvar's address,
/// `SysvarStakeHistory1111111111111111111111111`.
pub const STAKE_HISTORY_SYSVAR_ID: [u8; 32] = [
    6, 167, 213, 23, 25, 53, 132, 208, 254, 237, 155, 179, 67, 29, 19, 32,
    107, 229, 68, 40, 27, 87, 184, 86, 108, 197, 55, 95, 244, 0, 0, 0,
];

/// A 32-byte account identity. Two addresses are equal exactly when their
/// bytes are.
#[derive(Clone, Copy, Debug, Eq)]
pub struct Address {
    pub bytes: [u8; 32],
}

impl View for Address {
    type V = Seq<u8>;

    open spec fn view(&self) -> Seq<u8> {
        self.bytes@
    }
}

impl PartialEq for Address {
    /// Compares two addresses byte by byte.
    fn eq(&self, other: &Address) -> (r: bool) {
        let mut i: usize = 0;
        while i < 32
            invariant
                i <= 32,
                forall|j: int| 0 <= j < i ==> self.bytes[j] == other.bytes[j],
            decreases 32 - i,
        {
            if self.bytes[i] != other.bytes[i] {
                return false;
            }
            i = i + 1;
        }
        assert(self.bytes =~= other.bytes);
        true
    }
}

impl vstd::std_specs::cmp::PartialEqSpecImpl for Address {
    open spec fn obeys_eq_spec() -> bool {
        true
    }

    open spec fn eq_spec(&self, other: &Address) -> bool {
        *self == *other
    }
}

impl Address {
    /// The address with the given bytes.
    pub fn new(bytes: [u8; 32]) -> (r: Address)
        ensures
            r.bytes == bytes,
    {
        Address { bytes }
    }

    /// The bytes of this address.
    pub fn to_bytes(&self) -> (r: [u8; 32])
        ensures
            r == self.bytes,
    {
        self.bytes
    }
}

/// The stake program's address in specifications.
pub open spec fn stake_program_address() -> Address {
    Address { bytes: STAKE_PROGRAM_ID }
}

/// The vote program's address in specifications.
pub open spec fn vote_program_address() -> Address {
    Address { bytes: VOTE_PROGRAM_ID }
}

/// The system program's address in specifications.
pub open spec fn system_program_address() -> Address {
    Address { bytes: SYSTEM_PROGRAM_ID }
}

/// The clock sysvar's address in specifications.
pub open spec fn clock_sysvar_address() -> Address {
    Address { bytes: CLOCK_SYSVAR_ID }
}

/// The rent sysvar's address in specifications.
pub open spec fn rent_sysvar_address() -> Address {
    Address { bytes: RENT_SYSVAR_ID }
}

/// The stake-history sysvar's address in specifications.
pub open spec fn stake_history_sysvar_address() -> Address {
    Address { bytes: STAKE_HISTORY_SYSVAR_ID }
}

/// Calls `solana_stake_interface::program::id`, which returns the address
/// that the crate declares for the stake program. The contract claims that
/// its bytes are those of `STAKE_PROGRAM_ID`, the base58 decoding of the
/// declared string.
#[verifier::external_body]
pub(crate) fn stake_program() -> (r: Address)
    ensures
        r == stake_program_address(),
{
    Address { bytes: solana_stake_interface::program::id().to_bytes() }
}

/// Calls `solana_vote_program::id`, which returns the address that the
/// vote interface declares for the vote program. The contract claims that
/// its bytes are those of `VOTE_PROGRAM_ID`, the base58 decoding of the
/// declared string.
#[verifier::external_body]
pub(crate) fn vote_program() -> (r: Address)
    ensures
        r == vote_program_address(),
{
    Address { bytes: solana_vote_program::id().to_bytes() }
}

/// Whether `owner` is the stake program.
pub fn is_stake_program(owner: &Address) -> (r: bool)
    ensures
        r == (*owner == stake_program_address()),
{
    *owner == stake_program()
}

/// Whether `owner` is the vote program.
pub fn is_vote_program(owner: &Address) -> (r: bool)
    ensures
        r == (*owner == vote_program_address()),
{
    *owner == vote_program()
}

} // verus!
