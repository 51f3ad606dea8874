//! The calls that the program delegates to the token-custody module and to
//! the ledger's storage subsystem, and their wire form.

use crate::address::{Address, SYSTEM_PROGRAM_ID, TOKEN_PROGRAM_ID, RENT_SYSVAR_ID};
use crate::encoding::le_bytes;
use crate::instruction::{AccountMeta, Instruction, InstructionView};
use solana_program::pubkey::Pubkey;
use vstd::prelude::*;

verus! {

/// The seed and bump byte that the program presents in place of a signature,
/// to act as the address derived from them.
#[derive(Clone, Copy, Debug, PartialEq, Eq)]
pub struct SignerSeeds {
    /// The seed of the derivation: the bytes of an address.
    pub seed: Address,
    /// The bump byte that completes the derivation.
    pub bump: u8,
}

/// One call into the token-custody module or the storage subsystem.
#[derive(Clone, Copy, Debug, PartialEq, Eq)]
pub enum DelegatedCall {
    /// Allocates `new_account` with `size` bytes of data, paid by `payer`,
    /// funded to the rent-exempt minimum and owned by the program `owner`.
    Allocate { payer: Address, new_account: Address, size: u64, owner: Address },
    /// Binds the allocated wallet `account` to `asset`, with `owner` as the
    /// authority that may spend from it.
    InitializeWallet { account: Address, asset: Address, owner: Address },
    /// Moves `amount` tokens from `source` to `destination` under `authority`.
    Transfer { source: Address, destination: Address, authority: Address, amount: u64 },
    /// Issues `amount` new tokens of `mint` into `destination` under the mint
    /// authority `authority`.
    MintTo { mint: Address, destination: Address, authority: Address, amount: u64 },
    /// Destroys `amount` tokens of `mint` held in `account` under `authority`.
    Burn { account: Address, mint: Address, authority: Address, amount: u64 },
}

/// A delegated call, and the derivation that authorizes it where the program
/// itself is the authority.
#[derive(Clone, Copy, Debug, PartialEq, Eq)]
pub struct Invocation {
    /// The call to make.
    pub call: DelegatedCall,
    /// The derivation to present, or `None` where the signatures of the
    /// transaction suffice.
    pub signer: Option<SignerSeeds>,
}

impl DelegatedCall {
    /// By how many tokens the call asks to change what `wallet` holds: a
    /// transfer takes its amount from the source and gives it to the
    /// destination, issuing gives it to the destination, destroying takes it
    /// from the wallet named; allocating and binding move no tokens.
    pub open spec fn spec_balance_change(self, wallet: Address) -> int {
        match self {
            DelegatedCall::Transfer { source, destination, amount, .. } => {
                (if wallet == destination {
                    amount as int
                } else {
                    0
                }) - (if wallet == source {
                    amount as int
                } else {
                    0
                })
            },
            DelegatedCall::MintTo { destination, amount, .. } => if wallet == destination {
                amount as int
            } else {
                0
            },
            DelegatedCall::Burn { account, amount, .. } => if wallet == account {
                -(amount as int)
            } else {
                0
            },
            _ => 0,
        }
    }

    /// By how many tokens the call asks to change what `wallet` holds.
    pub fn balance_change(&self, wallet: &Address) -> (r: i128)
        ensures
            r == self.spec_balance_change(*wallet),
    {
        match self {
            DelegatedCall::Transfer { source, destination, amount, .. } => {
                let mut change: i128 = 0;
                if *wallet == *destination {
                    change = change + *amount as i128;
                }
                if *wallet == *source {
                    change = change - *amount as i128;
                }
                change
            },
            DelegatedCall::MintTo { destination, amount, .. } => if *wallet == *destination {
                *amount as i128
            } else {
                0
            },
            DelegatedCall::Burn { account, amount, .. } => if *wallet == *account {
                -(*amount as i128)
            } else {
                0
            },
            _ => 0,
        }
    }

    /// Whether the call allocates `account`.
    pub open spec fn allocates(self, account: Address) -> bool {
        self matches DelegatedCall::Allocate { new_account, .. } && new_account == account
    }

    /// Whether the call binds the wallet `account` to an asset.
    pub open spec fn initializes(self, account: Address) -> bool {
        self matches DelegatedCall::InitializeWallet { account: bound, .. } && bound == account
    }
}

/// The token program's instruction that moves `amount` tokens.
pub open spec fn transfer_wire(
    source: Address,
    destination: Address,
    authority: Address,
    amount: u64,
) -> InstructionView {
    InstructionView {
        program_id: Address { bytes: TOKEN_PROGRAM_ID },
        accounts: seq![
            AccountMeta::writable(source, false),
            AccountMeta::writable(destination, false),
            AccountMeta::readonly(authority, true),
        ],
        data: seq![3u8] + le_bytes(amount),
    }
}

/// The token program's instruction that issues `amount` tokens.
pub open spec fn mint_to_wire(
    mint: Address,
    destination: Address,
    authority: Address,
    amount: u64,
) -> InstructionView {
    InstructionView {
        program_id: Address { bytes: TOKEN_PROGRAM_ID },
        accounts: seq![
            AccountMeta::writable(mint, false),
            AccountMeta::writable(destination, false),
            AccountMeta::readonly(authority, true),
        ],
        data: seq![7u8] + le_bytes(amount),
    }
}

/// The token program's instruction that destroys `amount` tokens.
pub open spec fn burn_wire(
    account: Address,
    mint: Address,
    authority: Address,
    amount: u64,
) -> InstructionView {
    InstructionView {
        program_id: Address { bytes: TOKEN_PROGRAM_ID },
        accounts: seq![
            AccountMeta::writable(account, false),
            AccountMeta::writable(mint, false),
            AccountMeta::readonly(authority, true),
        ],
        data: seq![8u8] + le_bytes(amount),
    }
}

/// The token program's instruction that binds a wallet to an asset.
pub open spec fn initialize_account_wire(
    account: Address,
    mint: Address,
    owner: Address,
) -> InstructionView {
    InstructionView {
        program_id: Address { bytes: TOKEN_PROGRAM_ID },
        accounts: seq![
            AccountMeta::writable(account, false),
            AccountMeta::readonly(mint, false),
            AccountMeta::readonly(owner, false),
            AccountMeta::readonly(Address { bytes: RENT_SYSVAR_ID }, false),
        ],
        data: seq![1u8],
    }
}

/// The data of the system program's instruction that creates an account with
/// `lamports` of funding and `space` bytes of data for the program `owner`:
/// the tag of the instruction in four bytes, which is zero, then the funding
/// and the size in eight little-endian bytes each, then the owner's address.
pub open spec fn create_account_data(lamports: u64, space: u64, owner: Seq<u8>) -> Seq<u8> {
    seq![0u8, 0u8, 0u8, 0u8] + le_bytes(lamports) + le_bytes(space) + owner
}

/// The system program's instruction that creates the account `to`, paid by
/// `from`.
pub open spec fn create_account_wire(
    from: Address,
    to: Address,
    lamports: u64,
    space: u64,
    owner: Address,
) -> InstructionView {
    InstructionView {
        program_id: Address { bytes: SYSTEM_PROGRAM_ID },
        accounts: seq![AccountMeta::writable(from, true), AccountMeta::writable(to, true)],
        data: create_account_data(lamports, space, owner@),
    }
}

/// Builds the token program's `Transfer` instruction.
///
/// Calls `spl_token::instruction::transfer` for the token program itself and
/// no multisignature signers. The call fails for another program id alone,
/// so it succeeds here. The instruction names the token program, lists
/// source and destination as writable and the authority as a read-only
/// signer, and carries the tag 3 and the amount in eight little-endian
/// bytes.
#[verifier::external_body]
pub(crate) fn spl_transfer(
    source: &Address,
    destination: &Address,
    authority: &Address,
    amount: u64,
) -> (r: Result<Instruction, u64>)
    ensures
        r is Ok,
        r matches Ok(built) ==> built@ == transfer_wire(*source, *destination, *authority, amount),
{
    let keys = [source, destination, authority].map(|a| Pubkey::new_from_array(a.bytes));
    match spl_token::instruction::transfer(&spl_token::id(), &keys[0], &keys[1], &keys[2], &[], amount) {
        Ok(ix) => Ok(Instruction {
            program_id: Address { bytes: ix.program_id.to_bytes() },
            accounts: ix.accounts.iter().map(|m| AccountMeta { pubkey: Address { bytes: m.pubkey.to_bytes() }, is_signer: m.is_signer, is_writable: m.is_writable }).collect(),
            data: ix.data,
        }),
        Err(error) => Err(u64::from(error)),
    }
}

/// Builds the token program's `MintTo` instruction.
///
/// Calls `spl_token::instruction::mint_to` for the token program itself and
/// no multisignature signers. The call fails for another program id alone,
/// so it succeeds here. The instruction names the token program, lists mint
/// and destination as writable and the authority as a read-only signer, and
/// carries the tag 7 and the amount in eight little-endian bytes.
#[verifier::external_body]
pub(crate) fn spl_mint_to(
    mint: &Address,
    destination: &Address,
    authority: &Address,
    amount: u64,
) -> (r: Result<Instruction, u64>)
    ensures
        r is Ok,
        r matches Ok(built) ==> built@ == mint_to_wire(*mint, *destination, *authority, amount),
{
    let keys = [mint, destination, authority].map(|a| Pubkey::new_from_array(a.bytes));
    match spl_token::instruction::mint_to(&spl_token::id(), &keys[0], &keys[1], &keys[2], &[], amount) {
        Ok(ix) => Ok(Instruction {
            program_id: Address { bytes: ix.program_id.to_bytes() },
            accounts: ix.accounts.iter().map(|m| AccountMeta { pubkey: Address { bytes: m.pubkey.to_bytes() }, is_signer: m.is_signer, is_writable: m.is_writable }).collect(),
            data: ix.data,
        }),
        Err(error) => Err(u64::from(error)),
    }
}

/// Builds the token program's `Burn` instruction.
///
/// Calls `spl_token::instruction::burn` for the token program itself and no
/// multisignature signers. The call fails for another program id alone, so
/// it succeeds here. The instruction names the token program, lists the
/// wallet and the mint as writable and the authority as a read-only signer,
/// and carries the tag 8 and the amount in eight little-endian bytes.
#[verifier::external_body]
pub(crate) fn spl_burn(
    account: &Address,
    mint: &Address,
    authority: &Address,
    amount: u64,
) -> (r: Result<Instruction, u64>)
    ensures
        r is Ok,
        r matches Ok(built) ==> built@ == burn_wire(*account, *mint, *authority, amount),
{
    let keys = [account, mint, authority].map(|a| Pubkey::new_from_array(a.bytes));
    match spl_token::instruction::burn(&spl_token::id(), &keys[0], &keys[1], &keys[2], &[], amount) {
        Ok(ix) => Ok(Instruction {
            program_id: Address { bytes: ix.program_id.to_bytes() },
            accounts: ix.accounts.iter().map(|m| AccountMeta { pubkey: Address { bytes: m.pubkey.to_bytes() }, is_signer: m.is_signer, is_writable: m.is_writable }).collect(),
            data: ix.data,
        }),
        Err(error) => Err(u64::from(error)),
    }
}

/// Builds the token program's `InitializeAccount` instruction.
///
/// Calls `spl_token::instruction::initialize_account` for the token program
/// itself. The call fails for another program id alone, so it succeeds here.
/// The instruction names the token program, lists the wallet as writable and
/// then the mint, the owner and the rent sysvar as read-only, none of them a
/// signer, and carries the tag 1 alone.
#[verifier::external_body]
pub(crate) fn spl_initialize_account(
    account: &Address,
    mint: &Address,
    owner: &Address,
) -> (r: Result<Instruction, u64>)
    ensures
        r is Ok,
        r matches Ok(built) ==> built@ == initialize_account_wire(*account, *mint, *owner),
{
    let keys = [account, mint, owner].map(|a| Pubkey::new_from_array(a.bytes));
    match spl_token::instruction::initialize_account(&spl_token::id(), &keys[0], &keys[1], &keys[2]) {
        Ok(ix) => Ok(Instruction {
            program_id: Address { bytes: ix.program_id.to_bytes() },
            accounts: ix.accounts.iter().map(|m| AccountMeta { pubkey: Address { bytes: m.pubkey.to_bytes() }, is_signer: m.is_signer, is_writable: m.is_writable }).collect(),
            data: ix.data,
        }),
        Err(error) => Err(u64::from(error)),
    }
}

/// Builds the system program's `CreateAccount` instruction.
///
/// Calls `solana_program::system_instruction::create_account`, which names
/// the system program, lists the payer and the new account as writable
/// signers, and serialises the first variant of the system program's
/// instructions as the data: a zero tag of four bytes, the funding and the
/// size in eight little-endian bytes each, and the 32 bytes of the owner.
#[verifier::external_body]
pub(crate) fn system_create_account(
    from: &Address,
    to: &Address,
    lamports: u64,
    space: u64,
    owner: &Address,
) -> (built: Instruction)
    ensures
        built.program_id == (Address { bytes: SYSTEM_PROGRAM_ID }),
        built.accounts@ == seq![AccountMeta::writable(*from, true), AccountMeta::writable(*to, true)],
        built.data@ == create_account_data(lamports, space, owner@),
{
    let keys = [from, to, owner].map(|a| Pubkey::new_from_array(a.bytes));
    let ix = solana_program::system_instruction::create_account(&keys[0], &keys[1], lamports, space, &keys[2]);
    Instruction {
        program_id: Address { bytes: ix.program_id.to_bytes() },
        accounts: ix.accounts.iter().map(|m| AccountMeta { pubkey: Address { bytes: m.pubkey.to_bytes() }, is_signer: m.is_signer, is_writable: m.is_writable }).collect(),
        data: ix.data,
    }
}

} // verus!
