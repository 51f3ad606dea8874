//! Calls into the ledger's storage subsystem.

use crate::address::Address;
use crate::calls::{create_account_wire, system_create_account};
use crate::instruction::Instruction;
use vstd::prelude::*;

verus! {

/// Builds the system program's instruction that allocates the account `to`
/// with `space` bytes of data for the program `owner`; `from` pays `lamports`
/// into it.
pub fn create_account(
    from: &Address,
    to: &Address,
    lamports: u64,
    space: u64,
    owner: &Address,
) -> (built: Instruction)
    ensures
        built@ == create_account_wire(*from, *to, lamports, space, *owner),
{
    system_create_account(from, to, lamports, space, owner)
}

} // verus!
