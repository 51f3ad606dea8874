//! The two requests that the program serves, their wire format, and the
//! instructions with which a client submits them.

use crate::address::{
    derived_address, find_program_address, rent_sysvar_id, system_program_id, token_program_id,
    Address, RENT_SYSVAR_ID, SYSTEM_PROGRAM_ID, TOKEN_PROGRAM_ID,
};
use crate::encoding::{
    le_bytes, le_u64, lemma_le_bytes_of_le_u64, lemma_le_u64_of_le_bytes, read_le_u64,
    write_le_u64,
};
use crate::error::SwapError;
use vstd::prelude::*;

verus! {

/// How an instruction uses one account.
#[derive(Clone, Copy, Debug, PartialEq, Eq)]
pub struct AccountMeta {
    /// The account's address.
    pub pubkey: Address,
    /// Whether the instruction needs the account's signature.
    pub is_signer: bool,
    /// Whether the instruction may change the account.
    pub is_writable: bool,
}

/// An instruction for a program of the ledger.
#[derive(Clone, Debug, PartialEq, Eq)]
pub struct Instruction {
    /// The program that executes the instruction.
    pub program_id: Address,
    /// The accounts that the instruction uses, in the program's order.
    pub accounts: Vec<AccountMeta>,
    /// The bytes that the program decodes.
    pub data: Vec<u8>,
}

/// An instruction, with its lists as sequences.
pub struct InstructionView {
    pub program_id: Address,
    pub accounts: Seq<AccountMeta>,
    pub data: Seq<u8>,
}

impl View for Instruction {
    type V = InstructionView;

    open spec fn view(&self) -> InstructionView {
        InstructionView { program_id: self.program_id, accounts: self.accounts@, data: self.data@ }
    }
}

impl AccountMeta {
    /// An account that the instruction may change.
    pub open spec fn writable(pubkey: Address, is_signer: bool) -> AccountMeta {
        AccountMeta { pubkey, is_signer, is_writable: true }
    }

    /// An account that the instruction only reads.
    pub open spec fn readonly(pubkey: Address, is_signer: bool) -> AccountMeta {
        AccountMeta { pubkey, is_signer, is_writable: false }
    }

    /// An account that the instruction may change.
    pub fn new(pubkey: Address, is_signer: bool) -> (r: AccountMeta)
        ensures
            r == Self::writable(pubkey, is_signer),
    {
        AccountMeta { pubkey, is_signer, is_writable: true }
    }

    /// An account that the instruction only reads.
    pub fn new_readonly(pubkey: Address, is_signer: bool) -> (r: AccountMeta)
        ensures
            r == Self::readonly(pubkey, is_signer),
    {
        AccountMeta { pubkey, is_signer, is_writable: false }
    }
}

/// Instructions supported by the program.
///
/// Both read the same account list, in this order:
///
/// 0. `[signer]` the user authority
/// 1. `[writable]` the user's wallet of token X
/// 2. `[writable]` the user's wallet of the pool token
/// 3. `[writable]` the mint of token X
/// 4. `[writable]` the pool mint
/// 5. `[writable]` the pool's custody wallet of token X
/// 6. `[]` the rent sysvar
/// 7. and after: the accounts that the delegated calls need
#[derive(Clone, Copy, Debug, PartialEq, Eq, Structural)]
pub enum ContractInstruction {
    /// Deposits `amount` of token X and receives `amount` of the pool token.
    ChangeXtoY { amount: u64 },
    /// Returns `amount` of the pool token and withdraws `amount` of token X.
    ChangeYtoX { amount: u64 },
}

/// The position of the user authority in the account list.
pub const USER_AUTHORITY: usize = 0;

/// The position of the user's wallet of token X.
pub const USER_WALLET_X: usize = 1;

/// The position of the user's wallet of the pool token.
pub const USER_WALLET_Y: usize = 2;

/// The position of the mint of token X.
pub const TOKEN_X_MINT: usize = 3;

/// The position of the pool mint.
pub const POOL_MINT: usize = 4;

/// The position of the pool's custody wallet of token X.
pub const CUSTODY_WALLET_X: usize = 5;

/// The position of the rent sysvar, which is asked only when the custody
/// wallet is allocated.
pub const RENT_ORACLE: usize = 6;

/// The number of leading accounts that the program itself reads.
pub const ACCOUNTS_READ: usize = 6;

/// The opcode of `ChangeXtoY`.
pub const OPCODE_X_TO_Y: u8 = 1;

/// The opcode of `ChangeYtoX`.
pub const OPCODE_Y_TO_X: u8 = 2;

/// The length of an encoded request: the opcode and eight bytes of amount.
pub const ENCODED_LEN: usize = 9;

impl ContractInstruction {
    /// The amount that the request converts.
    pub open spec fn spec_amount(self) -> u64 {
        match self {
            ContractInstruction::ChangeXtoY { amount } => amount,
            ContractInstruction::ChangeYtoX { amount } => amount,
        }
    }

    /// The opcode that stands for the request on the wire.
    pub open spec fn spec_opcode(self) -> u8 {
        match self {
            ContractInstruction::ChangeXtoY { .. } => OPCODE_X_TO_Y,
            ContractInstruction::ChangeYtoX { .. } => OPCODE_Y_TO_X,
        }
    }

    /// The wire form of a request: its opcode, then its amount in eight
    /// little-endian bytes.
    pub open spec fn spec_encode(self) -> Seq<u8> {
        seq![self.spec_opcode()] + le_bytes(self.spec_amount())
    }

    /// The request that `input` carries: `input` must hold at least nine
    /// bytes and begin with a known opcode; bytes after the ninth are not
    /// read.
    pub open spec fn spec_decode(input: Seq<u8>) -> Result<ContractInstruction, SwapError> {
        if input.len() < ENCODED_LEN {
            Err(SwapError::MalformedInstruction)
        } else if input[0] == OPCODE_X_TO_Y {
            Ok(ContractInstruction::ChangeXtoY { amount: le_u64(input.subrange(1, 9)) as u64 })
        } else if input[0] == OPCODE_Y_TO_X {
            Ok(ContractInstruction::ChangeYtoX { amount: le_u64(input.subrange(1, 9)) as u64 })
        } else {
            Err(SwapError::MalformedInstruction)
        }
    }

    /// The amount that the request converts.
    pub fn amount(&self) -> (r: u64)
        ensures
            r == self.spec_amount(),
    {
        match self {
            ContractInstruction::ChangeXtoY { amount } => *amount,
            ContractInstruction::ChangeYtoX { amount } => *amount,
        }
    }

    /// Decodes a request from instruction bytes.
    pub fn decode(input: &[u8]) -> (r: Result<ContractInstruction, SwapError>)
        ensures
            r == Self::spec_decode(input@),
    {
        if input.len() < ENCODED_LEN {
            return Err(SwapError::MalformedInstruction);
        }
        let opcode = input[0];
        if opcode == OPCODE_X_TO_Y {
            Ok(ContractInstruction::ChangeXtoY { amount: read_le_u64(input, 1) })
        } else if opcode == OPCODE_Y_TO_X {
            Ok(ContractInstruction::ChangeYtoX { amount: read_le_u64(input, 1) })
        } else {
            Err(SwapError::MalformedInstruction)
        }
    }

    /// Encodes the request as instruction bytes.
    pub fn encode(&self) -> (r: Vec<u8>)
        ensures
            r@ == self.spec_encode(),
            r@.len() == ENCODED_LEN,
    {
        let mut out: Vec<u8> = Vec::new();
        match self {
            ContractInstruction::ChangeXtoY { amount } => {
                out.push(OPCODE_X_TO_Y);
                write_le_u64(&mut out, *amount);
            },
            ContractInstruction::ChangeYtoX { amount } => {
                out.push(OPCODE_Y_TO_X);
                write_le_u64(&mut out, *amount);
            },
        }
        out
    }

    /// Decoding what `encode` wrote gives the request back, whatever its
    /// variant and amount.
    pub proof fn lemma_decode_encode(self)
        ensures
            Self::spec_decode(self.spec_encode()) == Ok::<ContractInstruction, SwapError>(self),
    {
        let wire = self.spec_encode();
        lemma_le_u64_of_le_bytes(self.spec_amount());
        assert(wire.subrange(1, 9) =~= le_bytes(self.spec_amount()));
    }

    /// Encoding what `decode` read gives the first nine bytes of the input
    /// back: no two requests share a wire form, and no request has two.
    pub proof fn lemma_encode_decode(input: Seq<u8>)
        requires
            Self::spec_decode(input) is Ok,
        ensures
            Self::spec_decode(input)->Ok_0.spec_encode() == input.subrange(0, 9),
    {
        let digits = input.subrange(1, 9);
        lemma_le_bytes_of_le_u64(digits);
        assert(Self::spec_decode(input)->Ok_0.spec_encode() =~= input.subrange(0, 9));
    }
}

/// The seven accounts that both requests list first.
pub open spec fn spec_leading_accounts(
    user_wallets_authority_id: Address,
    user_wallet_x_id: Address,
    token_x_mint_id: Address,
    user_wallet_y_id: Address,
    pool_mint_id: Address,
    pool_wallet_x_id: Address,
) -> Seq<AccountMeta> {
    seq![
        AccountMeta::readonly(user_wallets_authority_id, true),
        AccountMeta::writable(user_wallet_x_id, false),
        AccountMeta::writable(user_wallet_y_id, false),
        AccountMeta::writable(token_x_mint_id, false),
        AccountMeta::writable(pool_mint_id, false),
        AccountMeta::writable(pool_wallet_x_id, false),
        AccountMeta::readonly(Address { bytes: RENT_SYSVAR_ID }, false),
    ]
}

/// The instruction that submits a deposit, or `None` where the custody
/// wallet or the mint authority cannot be derived. After the seven leading
/// accounts it lists what the delegated calls need: the pool mint's
/// authority, the system program and the token program.
pub open spec fn spec_change_x_to_y(
    program_id: Address,
    user_wallets_authority_id: Address,
    user_wallet_x_id: Address,
    token_x_mint_id: Address,
    user_wallet_y_id: Address,
    pool_mint_id: Address,
    amount: u64,
) -> Option<InstructionView> {
    match (
        derived_address(program_id@, user_wallet_x_id@),
        derived_address(program_id@, pool_mint_id@),
    ) {
        (Some(pool_wallet_x), Some(pool_mint_authority)) => Some(
            InstructionView {
                program_id,
                accounts: spec_leading_accounts(
                    user_wallets_authority_id,
                    user_wallet_x_id,
                    token_x_mint_id,
                    user_wallet_y_id,
                    pool_mint_id,
                    pool_wallet_x.0,
                ) + seq![
                    AccountMeta::readonly(pool_mint_authority.0, false),
                    AccountMeta::readonly(Address { bytes: SYSTEM_PROGRAM_ID }, false),
                    AccountMeta::readonly(Address { bytes: TOKEN_PROGRAM_ID }, false),
                ],
                data: (ContractInstruction::ChangeXtoY { amount }).spec_encode(),
            },
        ),
        _ => None,
    }
}

/// The instruction that submits a withdrawal, or `None` where the custody
/// wallet cannot be derived. After the seven leading accounts it lists the
/// token program.
pub open spec fn spec_change_y_to_x(
    program_id: Address,
    user_wallets_authority_id: Address,
    user_wallet_x_id: Address,
    token_x_mint_id: Address,
    user_wallet_y_id: Address,
    pool_mint_id: Address,
    amount: u64,
) -> Option<InstructionView> {
    match derived_address(program_id@, user_wallet_x_id@) {
        Some(pool_wallet_x) => Some(
            InstructionView {
                program_id,
                accounts: spec_leading_accounts(
                    user_wallets_authority_id,
                    user_wallet_x_id,
                    token_x_mint_id,
                    user_wallet_y_id,
                    pool_mint_id,
                    pool_wallet_x.0,
                ) + seq![AccountMeta::readonly(Address { bytes: TOKEN_PROGRAM_ID }, false)],
                data: (ContractInstruction::ChangeYtoX { amount }).spec_encode(),
            },
        ),
        None => None,
    }
}

/// An instruction as a view, where there is one.
pub open spec fn request_view(r: Option<Instruction>) -> Option<InstructionView> {
    match r {
        Some(built) => Some(built@),
        None => None,
    }
}

/// Lists the seven accounts that both requests list first.
fn leading_accounts(
    user_wallets_authority_id: &Address,
    user_wallet_x_id: &Address,
    token_x_mint_id: &Address,
    user_wallet_y_id: &Address,
    pool_mint_id: &Address,
    pool_wallet_x_id: &Address,
) -> (accounts: Vec<AccountMeta>)
    ensures
        accounts@ == spec_leading_accounts(
            *user_wallets_authority_id,
            *user_wallet_x_id,
            *token_x_mint_id,
            *user_wallet_y_id,
            *pool_mint_id,
            *pool_wallet_x_id,
        ),
{
    let mut accounts: Vec<AccountMeta> = Vec::new();
    accounts.push(AccountMeta::new_readonly(*user_wallets_authority_id, true));
    accounts.push(AccountMeta::new(*user_wallet_x_id, false));
    accounts.push(AccountMeta::new(*user_wallet_y_id, false));
    accounts.push(AccountMeta::new(*token_x_mint_id, false));
    accounts.push(AccountMeta::new(*pool_mint_id, false));
    accounts.push(AccountMeta::new(*pool_wallet_x_id, false));
    accounts.push(AccountMeta::new_readonly(rent_sysvar_id(), false));
    proof {
        assert(accounts@ =~= spec_leading_accounts(
            *user_wallets_authority_id,
            *user_wallet_x_id,
            *token_x_mint_id,
            *user_wallet_y_id,
            *pool_mint_id,
            *pool_wallet_x_id,
        ));
    }
    accounts
}

/// Builds the instruction with which a client deposits `amount` of token X.
pub fn change_x_to_y(
    program_id: &Address,
    user_wallets_authority_id: &Address,
    user_wallet_x_id: &Address,
    token_x_mint_id: &Address,
    user_wallet_y_id: &Address,
    pool_mint_id: &Address,
    amount: u64,
) -> (r: Option<Instruction>)
    ensures
        request_view(r) == spec_change_x_to_y(
            *program_id,
            *user_wallets_authority_id,
            *user_wallet_x_id,
            *token_x_mint_id,
            *user_wallet_y_id,
            *pool_mint_id,
            amount,
        ),
{
    let pool_wallet_x_id = match find_program_address(program_id, user_wallet_x_id) {
        Some(derived) => derived.0,
        None => {
            return None;
        },
    };
    let pool_mint_authority_id = match find_program_address(program_id, pool_mint_id) {
        Some(derived) => derived.0,
        None => {
            return None;
        },
    };
    let mut accounts = leading_accounts(
        user_wallets_authority_id,
        user_wallet_x_id,
        token_x_mint_id,
        user_wallet_y_id,
        pool_mint_id,
        &pool_wallet_x_id,
    );
    let ghost leading = accounts@;
    accounts.push(AccountMeta::new_readonly(pool_mint_authority_id, false));
    accounts.push(AccountMeta::new_readonly(system_program_id(), false));
    accounts.push(AccountMeta::new_readonly(token_program_id(), false));
    proof {
        assert(accounts@ =~= leading + seq![
            AccountMeta::readonly(pool_mint_authority_id, false),
            AccountMeta::readonly(Address { bytes: SYSTEM_PROGRAM_ID }, false),
            AccountMeta::readonly(Address { bytes: TOKEN_PROGRAM_ID }, false),
        ]);
    }
    let data = (ContractInstruction::ChangeXtoY { amount }).encode();
    Some(Instruction { program_id: *program_id, accounts, data })
}

/// Builds the instruction with which a client withdraws `amount` of token X.
pub fn change_y_to_x(
    program_id: &Address,
    user_wallets_authority_id: &Address,
    user_wallet_x_id: &Address,
    token_x_mint_id: &Address,
    user_wallet_y_id: &Address,
    pool_mint_id: &Address,
    amount: u64,
) -> (r: Option<Instruction>)
    ensures
        request_view(r) == spec_change_y_to_x(
            *program_id,
            *user_wallets_authority_id,
            *user_wallet_x_id,
            *token_x_mint_id,
            *user_wallet_y_id,
            *pool_mint_id,
            amount,
        ),
{
    let pool_wallet_x_id = match find_program_address(program_id, user_wallet_x_id) {
        Some(derived) => derived.0,
        None => {
            return None;
        },
    };
    let mut accounts = leading_accounts(
        user_wallets_authority_id,
        user_wallet_x_id,
        token_x_mint_id,
        user_wallet_y_id,
        pool_mint_id,
        &pool_wallet_x_id,
    );
    let ghost leading = accounts@;
    accounts.push(AccountMeta::new_readonly(token_program_id(), false));
    proof {
        assert(accounts@ =~= leading + seq![
            AccountMeta::readonly(Address { bytes: TOKEN_PROGRAM_ID }, false),
        ]);
    }
    let data = (ContractInstruction::ChangeYtoX { amount }).encode();
    Some(Instruction { program_id: *program_id, accounts, data })
}

} // verus!
