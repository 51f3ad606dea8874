//! Addresses of the ledger, and the derivation of the addresses that a
//! program controls without holding a key.

use vstd::prelude::*;
use vstd::std_specs::cmp::PartialEqSpecImpl;

verus! {

/// A 32-byte ledger address: of an account, a program or a derived authority.
#[derive(Clone, Copy, Debug)]
pub struct Address {
    pub bytes: [u8; 32],
}

impl View for Address {
    type V = Seq<u8>;

    open spec fn view(&self) -> Seq<u8> {
        self.bytes@
    }
}

impl PartialEq for Address {
    fn eq(&self, other: &Self) -> (r: bool) {
        let mut i: usize = 0;
        while i < 32
            invariant
                i <= 32,
                forall|j: int| 0 <= j < i ==> self.bytes[j] == other.bytes[j],
            decreases 32 - i,
        {
            if self.bytes[i] != other.bytes[i] {
                return false;
            }
            i += 1;
        }
        proof {
            assert(self.bytes =~= other.bytes);
        }
        true
    }
}

impl PartialEqSpecImpl for Address {
    open spec fn obeys_eq_spec() -> bool {
        true
    }

    open spec fn eq_spec(&self, other: &Self) -> bool {
        *self == *other
    }
}

impl Eq for Address {}

impl Address {
    /// Two addresses with the same bytes are the same address.
    pub proof fn lemma_view_injective(self, other: Address)
        ensures
            (self@ == other@) == (self == other),
    {
        if self@ == other@ {
            assert(self.bytes =~= other.bytes);
        }
    }
}

/// The bytes of the address of the system program, which owns every account
/// that no program has been given yet.
pub const SYSTEM_PROGRAM_ID: [u8; 32] = [
    0, 0, 0, 0, 0, 0, 0, 0, 0, 0, 0, 0, 0, 0, 0, 0,
    0, 0, 0, 0, 0, 0, 0, 0, 0, 0, 0, 0, 0, 0, 0, 0,
];

/// The bytes of the address of the token program, the token-custody module.
pub const TOKEN_PROGRAM_ID: [u8; 32] = [
    6, 221, 246, 225, 215, 101, 161, 147, 217, 203, 225, 70, 206, 235, 121, 172,
    28, 180, 133, 237, 95, 91, 55, 145, 58, 140, 245, 133, 126, 255, 0, 169,
];

/// The bytes of the address of the rent sysvar, the rent oracle.
pub const RENT_SYSVAR_ID: [u8; 32] = [
    6, 167, 213, 23, 25, 44, 92, 81, 33, 140, 201, 76, 61, 74, 241, 127,
    88, 218, 238, 8, 155, 161, 253, 68, 227, 219, 217, 138, 0, 0, 0, 0,
];

/// The bytes of the address under which this program is deployed.
pub const PROGRAM_ID: [u8; 32] = [
    86, 108, 47, 113, 172, 122, 235, 103, 164, 195, 43, 226, 12, 97, 248, 139,
    44, 191, 24, 21, 80, 206, 188, 183, 51, 222, 224, 239, 12, 193, 184, 178,
];

/// The address under which this program is deployed.
pub fn id() -> (r: Address)
    ensures
        r.bytes == PROGRAM_ID,
{
    Address { bytes: PROGRAM_ID }
}

/// The address of the system program.
///
/// Calls `solana_program::system_program::id`, which returns the address that
/// the crate declares as `11111111111111111111111111111111`: 32 zero bytes.
#[verifier::external_body]
pub(crate) fn system_program_id() -> (r: Address)
    ensures
        r.bytes == SYSTEM_PROGRAM_ID,
{
    Address { bytes: solana_program::system_program::id().to_bytes() }
}

/// The address of the token program.
///
/// Calls `spl_token::id`, which returns the address that the crate declares
/// as `TokenkegQfeZyiNwAJbNbGKPFXCWuBvf9Ss623VQ5DA`; the contract gives its 32
/// bytes.
#[verifier::external_body]
pub(crate) fn token_program_id() -> (r: Address)
    ensures
        r.bytes == TOKEN_PROGRAM_ID,
{
    Address { bytes: spl_token::id().to_bytes() }
}

/// The address of the rent sysvar.
///
/// Calls `solana_program::sysvar::rent::id`, which returns the address that
/// the crate declares as `SysvarRent111111111111111111111111111111111`; the
/// contract gives its 32 bytes.
#[verifier::external_body]
pub(crate) fn rent_sysvar_id() -> (r: Address)
    ensures
        r.bytes == RENT_SYSVAR_ID,
{
    Address { bytes: solana_program::sysvar::rent::id().to_bytes() }
}

/// The address that `program_id` controls for `seed`, with the bump byte that
/// completes the derivation, or `None` where no bump byte yields one.
pub uninterp spec fn derived_address(program_id: Seq<u8>, seed: Seq<u8>) -> Option<(Address, u8)>;

/// Derives the address that the program `program_id` controls for the seed
/// `pubkey`.
///
/// Calls `Pubkey::try_find_program_address` of `solana_program` with the one
/// seed `pubkey`. The derivation hashes the seed, a bump byte and the program
/// id, and tries bump bytes from 255 downwards until the hash is no point of
/// the curve; its result depends on the two arguments alone.
#[verifier::external_body]
pub fn find_program_address(program_id: &Address, pubkey: &Address) -> (r: Option<(Address, u8)>)
    ensures
        r == derived_address(program_id@, pubkey@),
{
    let program = solana_program::pubkey::Pubkey::new_from_array(program_id.bytes);
    match solana_program::pubkey::Pubkey::try_find_program_address(&[&pubkey.bytes], &program) {
        Some((address, bump)) => Some((Address { bytes: address.to_bytes() }, bump)),
        None => None,
    }
}

} // verus!
