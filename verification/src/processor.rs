//! The instruction processor: it validates the accounts that a request
//! presents and decides which calls to delegate, in which order.
//!
//! The processor changes nothing itself. It returns the calls of a request as
//! a plan; the ledger applies a plan wholly or not at all.

use crate::address::{derived_address, find_program_address, system_program_id, token_program_id, Address, SYSTEM_PROGRAM_ID, TOKEN_PROGRAM_ID};
use crate::calls::{burn_wire, create_account_wire, initialize_account_wire, mint_to_wire, spl_burn, spl_initialize_account, spl_mint_to, spl_transfer, transfer_wire, DelegatedCall, Invocation, SignerSeeds};
use crate::error::SwapError;
use crate::instruction::{ContractInstruction, Instruction, InstructionView, ACCOUNTS_READ, CUSTODY_WALLET_X, POOL_MINT, TOKEN_X_MINT, USER_AUTHORITY, USER_WALLET_X, USER_WALLET_Y};
use crate::state::{unpacked_token_account, AccountSnapshot, Mint, TokenAccount, TOKEN_ACCOUNT_LEN};
use crate::utils::create_account;
use vstd::prelude::*;

verus! {

/// Program state handler.
pub struct Processor {}

/// Where the custody wallet of a user's wallet X stands.
#[derive(Clone, Copy, Debug, PartialEq, Eq)]
pub enum CustodyState {
    /// No program owns the address yet: the wallet was never allocated.
    Absent,
    /// The record is allocated and not yet bound to an asset.
    Uninitialized,
    /// The wallet is bound to `asset`.
    Initialized { asset: Address },
}

/// What is to happen next to a request whose plan is being carried out.
#[derive(Clone, Copy, Debug, PartialEq, Eq)]
pub enum Progress {
    /// This call is to be made now.
    Call(Invocation),
    /// Every call of the plan has been made: the request has succeeded.
    Finished,
    /// A call has failed: the request fails with this error, and the ledger
    /// undoes what the earlier calls did.
    Aborted(SwapError),
}

/// A plan as a sequence, or the rejection.
pub open spec fn plan_view(r: Result<Vec<Invocation>, SwapError>) -> Result<
    Seq<Invocation>,
    SwapError,
> {
    match r {
        Ok(plan) => Ok(plan@),
        Err(e) => Err(e),
    }
}

impl DelegatedCall {
    /// The instruction that makes the call; an allocation is funded with
    /// `funding`, which no other call reads.
    pub open spec fn spec_wire(self, funding: u64) -> InstructionView {
        match self {
            DelegatedCall::Allocate { payer, new_account, size, owner } => create_account_wire(
                payer,
                new_account,
                funding,
                size,
                owner,
            ),
            DelegatedCall::InitializeWallet { account, asset, owner } => initialize_account_wire(
                account,
                asset,
                owner,
            ),
            DelegatedCall::Transfer { source, destination, authority, amount } => transfer_wire(
                source,
                destination,
                authority,
                amount,
            ),
            DelegatedCall::MintTo { mint, destination, authority, amount } => mint_to_wire(
                mint,
                destination,
                authority,
                amount,
            ),
            DelegatedCall::Burn { account, mint, authority, amount } => burn_wire(
                account,
                mint,
                authority,
                amount,
            ),
        }
    }

    /// Builds the instruction that makes the call, which is always built.
    /// `funding` is the rent oracle's minimum balance for the record that an
    /// allocation creates; the other calls do not read it.
    pub fn instruction(&self, funding: u64) -> (r: Result<Instruction, SwapError>)
        ensures
            r matches Ok(built) && built@ == self.spec_wire(funding),
    {
        match self {
            DelegatedCall::Allocate { payer, new_account, size, owner } => Ok(
                create_account(payer, new_account, funding, *size, owner),
            ),
            DelegatedCall::InitializeWallet { account, asset, owner } => {
                Processor::initialize_account(account, asset, owner)
            },
            DelegatedCall::Transfer { source, destination, authority, amount } => {
                Processor::token_transfer(source, destination, authority, *amount)
            },
            DelegatedCall::MintTo { mint, destination, authority, amount } => {
                Processor::token_mint_to(mint, destination, authority, *amount)
            },
            DelegatedCall::Burn { account, mint, authority, amount } => {
                Processor::token_burn(account, mint, authority, *amount)
            },
        }
    }
}

impl Processor {
    /// The authority over the pool mint, with its bump byte: the pool mint
    /// must be an initialized asset whose mint authority is the address that
    /// the derivation `derived` gave.
    pub open spec fn spec_verify_mint(mint: Option<Mint>, derived: Option<(Address, u8)>) -> Result<
        (Address, u8),
        SwapError,
    > {
        match (mint, derived) {
            (Some(mint), Some(derived)) => if mint.mint_authority == Some(derived.0) {
                Ok(derived)
            } else {
                Err(SwapError::InvalidMintAuthority)
            },
            _ => Err(SwapError::InvalidMintAuthority),
        }
    }

    /// The wallet that pays for a request: wallet X pays a deposit, wallet Y
    /// a withdrawal.
    pub open spec fn spec_paying_wallet(
        request: ContractInstruction,
        wallet_x: TokenAccount,
        wallet_y: TokenAccount,
    ) -> TokenAccount {
        match request {
            ContractInstruction::ChangeXtoY { .. } => wallet_x,
            ContractInstruction::ChangeYtoX { .. } => wallet_y,
        }
    }

    /// The verdict on the user's two wallets: both must be initialized
    /// wallets of the user authority, the paying wallet must hold the
    /// requested amount, and wallet Y must hold the pool token. The first
    /// demand that fails decides the rejection.
    pub open spec fn spec_verify_user_wallets(
        user_authority: Address,
        wallet_x: Option<TokenAccount>,
        wallet_y: Option<TokenAccount>,
        pool_mint: Address,
        request: ContractInstruction,
    ) -> Result<(), SwapError> {
        match (wallet_x, wallet_y) {
            (Some(x), Some(y)) => if x.owner != user_authority || y.owner != user_authority {
                Err(SwapError::InvalidOwner)
            } else if Self::spec_paying_wallet(request, x, y).amount < request.spec_amount() {
                Err(SwapError::InsufficientFunds)
            } else if y.mint != pool_mint {
                Err(SwapError::AssetMismatch)
            } else {
                Ok(())
            },
            _ => Err(SwapError::InvalidOwner),
        }
    }

    /// The bump byte of the custody wallet: the address presented must be
    /// the one that the derivation `derived` gave.
    pub open spec fn spec_verify_custody_address(
        derived: Option<(Address, u8)>,
        presented: Address,
    ) -> Result<u8, SwapError> {
        match derived {
            Some(derived) => if derived.0 == presented {
                Ok(derived.1)
            } else {
                Err(SwapError::InvalidDerivedAddress)
            },
            None => Err(SwapError::InvalidDerivedAddress),
        }
    }

    /// Where a custody wallet stands, from the program that owns its address
    /// and from what its data `record` decode to; `None` where another
    /// program than the system program owns it and its data are no wallet
    /// record.
    pub open spec fn spec_classify_custody(
        owner: Address,
        record: Option<TokenAccount>,
    ) -> Option<CustodyState> {
        if owner.bytes == SYSTEM_PROGRAM_ID {
            Some(CustodyState::Absent)
        } else {
            match record {
                Some(wallet) => if wallet.spec_is_initialized() {
                    Some(CustodyState::Initialized { asset: wallet.mint })
                } else {
                    Some(CustodyState::Uninitialized)
                },
                None => None,
            }
        }
    }

    /// The call that allocates the custody wallet, authorized by its own
    /// derivation.
    pub open spec fn spec_allocate_custody(payer: Address, custody: Address, seeds: SignerSeeds) -> Invocation {
        Invocation {
            call: DelegatedCall::Allocate {
                payer,
                new_account: custody,
                size: TOKEN_ACCOUNT_LEN,
                owner: Address { bytes: TOKEN_PROGRAM_ID },
            },
            signer: Some(seeds),
        }
    }

    /// The call that binds the custody wallet to token X, with the wallet's
    /// own address as its authority.
    pub open spec fn spec_initialize_custody(
        custody: Address,
        token_x_mint: Address,
        seeds: SignerSeeds,
    ) -> Invocation {
        Invocation {
            call: DelegatedCall::InitializeWallet { account: custody, asset: token_x_mint, owner: custody },
            signer: Some(seeds),
        }
    }

    /// The calls that make the custody wallet ready for a deposit: allocate
    /// and bind an absent wallet, bind an unbound one, and leave alone one
    /// that is bound to token X. A wallet bound to another asset, or data
    /// that are no wallet record, are rejected.
    pub open spec fn spec_provision_custody(
        state: Option<CustodyState>,
        payer: Address,
        custody: Address,
        token_x_mint: Address,
        seeds: SignerSeeds,
    ) -> Result<Seq<Invocation>, SwapError> {
        match state {
            Some(CustodyState::Absent) => Ok(
                seq![
                    Self::spec_allocate_custody(payer, custody, seeds),
                    Self::spec_initialize_custody(custody, token_x_mint, seeds),
                ],
            ),
            Some(CustodyState::Uninitialized) => Ok(
                seq![Self::spec_initialize_custody(custody, token_x_mint, seeds)],
            ),
            Some(CustodyState::Initialized { asset }) => if asset == token_x_mint {
                Ok(Seq::empty())
            } else {
                Err(SwapError::AssetMismatch)
            },
            None => Err(SwapError::AssetMismatch),
        }
    }

    /// The two legs of a deposit: the user moves `amount` of token X into
    /// custody, and the program, as the pool mint's authority, issues
    /// `amount` of the pool token into the user's wallet Y.
    pub open spec fn spec_deposit_legs(
        user_authority: Address,
        user_wallet_x: Address,
        user_wallet_y: Address,
        pool_mint: Address,
        custody: Address,
        mint_authority: (Address, u8),
        amount: u64,
    ) -> Seq<Invocation> {
        seq![
            Invocation {
                call: DelegatedCall::Transfer {
                    source: user_wallet_x,
                    destination: custody,
                    authority: user_authority,
                    amount,
                },
                signer: None,
            },
            Invocation {
                call: DelegatedCall::MintTo {
                    mint: pool_mint,
                    destination: user_wallet_y,
                    authority: mint_authority.0,
                    amount,
                },
                signer: Some(SignerSeeds { seed: pool_mint, bump: mint_authority.1 }),
            },
        ]
    }

    /// The two legs of a withdrawal: the program, as the custody wallet's
    /// authority, moves `amount` of token X back to the user, and the user
    /// destroys `amount` of the pool token in wallet Y.
    pub open spec fn spec_withdrawal_legs(
        user_authority: Address,
        user_wallet_x: Address,
        user_wallet_y: Address,
        pool_mint: Address,
        custody: Address,
        custody_bump: u8,
        amount: u64,
    ) -> Seq<Invocation> {
        seq![
            Invocation {
                call: DelegatedCall::Transfer {
                    source: custody,
                    destination: user_wallet_x,
                    authority: custody,
                    amount,
                },
                signer: Some(SignerSeeds { seed: user_wallet_x, bump: custody_bump }),
            },
            Invocation {
                call: DelegatedCall::Burn {
                    account: user_wallet_y,
                    mint: pool_mint,
                    authority: user_authority,
                    amount,
                },
                signer: None,
            },
        ]
    }

    /// What `check_mint` returns.
    pub open spec fn spec_check_mint(program_id: Address, pool_mint: AccountSnapshot) -> Result<
        (Address, u8),
        SwapError,
    > {
        Self::spec_verify_mint(
            Mint::spec_unpack(pool_mint.data@),
            derived_address(program_id@, pool_mint.key@),
        )
    }

    /// What `check_user_wallets` returns.
    pub open spec fn spec_check_user_wallets(
        user_authority: AccountSnapshot,
        user_wallet_x: AccountSnapshot,
        user_wallet_y: AccountSnapshot,
        pool_mint: AccountSnapshot,
        request: ContractInstruction,
    ) -> Result<(), SwapError> {
        Self::spec_verify_user_wallets(
            user_authority.key,
            TokenAccount::spec_unpack(user_wallet_x.data@),
            TokenAccount::spec_unpack(user_wallet_y.data@),
            pool_mint.key,
            request,
        )
    }

    /// What `check_custody_address` returns.
    pub open spec fn spec_check_custody_address(
        program_id: Address,
        user_wallet_x: AccountSnapshot,
        custody: AccountSnapshot,
    ) -> Result<u8, SwapError> {
        Self::spec_verify_custody_address(
            derived_address(program_id@, user_wallet_x.key@),
            custody.key,
        )
    }

    /// What `custody_state` returns.
    pub open spec fn spec_custody_state(custody: AccountSnapshot) -> Option<CustodyState> {
        Self::spec_classify_custody(custody.owner, unpacked_token_account(custody.data@))
    }

    /// The plan of a deposit of `amount`, or its rejection. The demands are
    /// made in this order, and the first that fails decides the rejection:
    /// the list holds the accounts that are read; the user authority signed;
    /// the pool mint obeys the authority derived from its own address; the
    /// user's wallets pass; the custody wallet presented is the address
    /// derived from wallet X; the custody wallet can be made ready.
    pub open spec fn spec_change_x_to_y(
        program_id: Address,
        amount: u64,
        accounts: Seq<AccountSnapshot>,
    ) -> Result<Seq<Invocation>, SwapError> {
        if accounts.len() < ACCOUNTS_READ {
            Err(SwapError::NotEnoughAccountKeys)
        } else {
            let user_authority = accounts[USER_AUTHORITY as int];
            let user_wallet_x = accounts[USER_WALLET_X as int];
            let user_wallet_y = accounts[USER_WALLET_Y as int];
            let token_x_mint = accounts[TOKEN_X_MINT as int];
            let pool_mint = accounts[POOL_MINT as int];
            let custody = accounts[CUSTODY_WALLET_X as int];
            let request = ContractInstruction::ChangeXtoY { amount };
            if !user_authority.is_signer {
                Err(SwapError::MissingSignature)
            } else {
                match Self::spec_check_mint(program_id, pool_mint) {
                    Err(e) => Err(e),
                    Ok(mint_authority) => match Self::spec_check_user_wallets(
                        user_authority,
                        user_wallet_x,
                        user_wallet_y,
                        pool_mint,
                        request,
                    ) {
                        Err(e) => Err(e),
                        Ok(_) => match Self::spec_check_custody_address(
                            program_id,
                            user_wallet_x,
                            custody,
                        ) {
                            Err(e) => Err(e),
                            Ok(bump) => match Self::spec_provision_custody(
                                Self::spec_custody_state(custody),
                                user_authority.key,
                                custody.key,
                                token_x_mint.key,
                                SignerSeeds { seed: user_wallet_x.key, bump },
                            ) {
                                Err(e) => Err(e),
                                Ok(setup) => Ok(
                                    setup + Self::spec_deposit_legs(
                                        user_authority.key,
                                        user_wallet_x.key,
                                        user_wallet_y.key,
                                        pool_mint.key,
                                        custody.key,
                                        mint_authority,
                                        amount,
                                    ),
                                ),
                            },
                        },
                    },
                }
            }
        }
    }

    /// The plan of a withdrawal of `amount`, or its rejection. The demands
    /// are made in this order, and the first that fails decides the
    /// rejection: the list holds the accounts that are read; the user
    /// authority signed; the user's wallets pass; the custody wallet
    /// presented is the address derived from wallet X; the custody wallet
    /// has been allocated.
    pub open spec fn spec_change_y_to_x(
        program_id: Address,
        amount: u64,
        accounts: Seq<AccountSnapshot>,
    ) -> Result<Seq<Invocation>, SwapError> {
        if accounts.len() < ACCOUNTS_READ {
            Err(SwapError::NotEnoughAccountKeys)
        } else {
            let user_authority = accounts[USER_AUTHORITY as int];
            let user_wallet_x = accounts[USER_WALLET_X as int];
            let user_wallet_y = accounts[USER_WALLET_Y as int];
            let pool_mint = accounts[POOL_MINT as int];
            let custody = accounts[CUSTODY_WALLET_X as int];
            let request = ContractInstruction::ChangeYtoX { amount };
            if !user_authority.is_signer {
                Err(SwapError::MissingSignature)
            } else {
                match Self::spec_check_user_wallets(
                    user_authority,
                    user_wallet_x,
                    user_wallet_y,
                    pool_mint,
                    request,
                ) {
                    Err(e) => Err(e),
                    Ok(_) => match Self::spec_check_custody_address(
                        program_id,
                        user_wallet_x,
                        custody,
                    ) {
                        Err(e) => Err(e),
                        Ok(bump) => if custody.owner.bytes == SYSTEM_PROGRAM_ID {
                            Err(SwapError::CustodyNotFound)
                        } else {
                            Ok(
                                Self::spec_withdrawal_legs(
                                    user_authority.key,
                                    user_wallet_x.key,
                                    user_wallet_y.key,
                                    pool_mint.key,
                                    custody.key,
                                    bump,
                                    amount,
                                ),
                            )
                        },
                    },
                }
            }
        }
    }

    /// The plan of the request that `input` carries, or its rejection.
    pub open spec fn spec_process_instruction(
        program_id: Address,
        accounts: Seq<AccountSnapshot>,
        input: Seq<u8>,
    ) -> Result<Seq<Invocation>, SwapError> {
        match ContractInstruction::spec_decode(input) {
            Err(e) => Err(e),
            Ok(ContractInstruction::ChangeXtoY { amount }) => Self::spec_change_x_to_y(
                program_id,
                amount,
                accounts,
            ),
            Ok(ContractInstruction::ChangeYtoX { amount }) => Self::spec_change_y_to_x(
                program_id,
                amount,
                accounts,
            ),
        }
    }

    /// What is to happen next, where the first `performed` calls of `plan`
    /// have been made and the last of them returned `last`: a failure ends
    /// the request with the code that the call gave, and otherwise the calls
    /// follow each other in the order of the plan.
    pub open spec fn spec_next_call(
        plan: Seq<Invocation>,
        performed: int,
        last: Result<(), u64>,
    ) -> Progress {
        match last {
            Err(code) => Progress::Aborted(SwapError::DelegatedCallFailure { code }),
            Ok(_) => if 0 <= performed < plan.len() {
                Progress::Call(plan[performed])
            } else {
                Progress::Finished
            },
        }
    }

    /// Tells what is to happen next to a request: `performed` counts the
    /// calls of `plan` that have been made, and `last` is what the latest of
    /// them returned, or `Ok` where none has been made yet.
    pub fn next_call(plan: &[Invocation], performed: usize, last: &Result<(), u64>) -> (r: Progress)
        ensures
            r == Self::spec_next_call(plan@, performed as int, *last),
    {
        match last {
            Err(code) => Progress::Aborted(SwapError::DelegatedCallFailure { code: *code }),
            Ok(_) => if performed < plan.len() {
                Progress::Call(plan[performed])
            } else {
                Progress::Finished
            },
        }
    }

    /// Decides whether an unpacked pool mint obeys the derived authority.
    pub fn verify_mint(mint: &Option<Mint>, derived: &Option<(Address, u8)>) -> (r: Result<
        (Address, u8),
        SwapError,
    >)
        ensures
            r == Self::spec_verify_mint(*mint, *derived),
    {
        match (mint, derived) {
            (Some(mint), Some(derived)) => match &mint.mint_authority {
                Some(authority) => if *authority == derived.0 {
                    Ok(*derived)
                } else {
                    Err(SwapError::InvalidMintAuthority)
                },
                None => Err(SwapError::InvalidMintAuthority),
            },
            _ => Err(SwapError::InvalidMintAuthority),
        }
    }

    /// Decides on the user's two wallets, once unpacked.
    pub fn verify_user_wallets(
        user_authority: &Address,
        wallet_x: &Option<TokenAccount>,
        wallet_y: &Option<TokenAccount>,
        pool_mint: &Address,
        request: &ContractInstruction,
    ) -> (r: Result<(), SwapError>)
        ensures
            r == Self::spec_verify_user_wallets(
                *user_authority,
                *wallet_x,
                *wallet_y,
                *pool_mint,
                *request,
            ),
    {
        match (wallet_x, wallet_y) {
            (Some(x), Some(y)) => {
                if x.owner != *user_authority || y.owner != *user_authority {
                    return Err(SwapError::InvalidOwner);
                }
                let held = match request {
                    ContractInstruction::ChangeXtoY { .. } => x.amount,
                    ContractInstruction::ChangeYtoX { .. } => y.amount,
                };
                if held < request.amount() {
                    return Err(SwapError::InsufficientFunds);
                }
                if y.mint != *pool_mint {
                    return Err(SwapError::AssetMismatch);
                }
                Ok(())
            },
            _ => Err(SwapError::InvalidOwner),
        }
    }

    /// Decides whether the custody wallet presented is the derived one.
    pub fn verify_custody_address(derived: &Option<(Address, u8)>, presented: &Address) -> (r: Result<
        u8,
        SwapError,
    >)
        ensures
            r == Self::spec_verify_custody_address(*derived, *presented),
    {
        match derived {
            Some(derived) => if derived.0 == *presented {
                Ok(derived.1)
            } else {
                Err(SwapError::InvalidDerivedAddress)
            },
            None => Err(SwapError::InvalidDerivedAddress),
        }
    }

    /// Tells where a custody wallet stands, from its owner and its record.
    pub fn classify_custody(owner: &Address, record: &Option<TokenAccount>) -> (r: Option<
        CustodyState,
    >)
        ensures
            r == Self::spec_classify_custody(*owner, *record),
    {
        if *owner == system_program_id() {
            proof {
                owner.lemma_view_injective(Address { bytes: SYSTEM_PROGRAM_ID });
            }
            Some(CustodyState::Absent)
        } else {
            match record {
                Some(wallet) => if wallet.is_initialized() {
                    Some(CustodyState::Initialized { asset: wallet.mint })
                } else {
                    Some(CustodyState::Uninitialized)
                },
                None => None,
            }
        }
    }

    /// Plans what makes the custody wallet ready for a deposit.
    pub fn provision_custody(
        state: &Option<CustodyState>,
        payer: &Address,
        custody: &Address,
        token_x_mint: &Address,
        seeds: &SignerSeeds,
    ) -> (r: Result<Vec<Invocation>, SwapError>)
        ensures
            plan_view(r) == Self::spec_provision_custody(
                *state,
                *payer,
                *custody,
                *token_x_mint,
                *seeds,
            ),
    {
        let mut plan: Vec<Invocation> = Vec::new();
        let initialize = Invocation {
            call: DelegatedCall::InitializeWallet {
                account: *custody,
                asset: *token_x_mint,
                owner: *custody,
            },
            signer: Some(*seeds),
        };
        match state {
            Some(CustodyState::Absent) => {
                plan.push(
                    Invocation {
                        call: DelegatedCall::Allocate {
                            payer: *payer,
                            new_account: *custody,
                            size: TOKEN_ACCOUNT_LEN,
                            owner: token_program_id(),
                        },
                        signer: Some(*seeds),
                    },
                );
                plan.push(initialize);
                proof {
                    assert(plan@ =~= seq![
                        Self::spec_allocate_custody(*payer, *custody, *seeds),
                        Self::spec_initialize_custody(*custody, *token_x_mint, *seeds),
                    ]);
                }
                Ok(plan)
            },
            Some(CustodyState::Uninitialized) => {
                plan.push(initialize);
                proof {
                    assert(plan@ =~= seq![
                        Self::spec_initialize_custody(*custody, *token_x_mint, *seeds),
                    ]);
                }
                Ok(plan)
            },
            Some(CustodyState::Initialized { asset }) => if *asset == *token_x_mint {
                Ok(plan)
            } else {
                Err(SwapError::AssetMismatch)
            },
            None => Err(SwapError::AssetMismatch),
        }
    }

    /// Checks that the pool mint obeys the authority derived from its own
    /// address, and returns that authority with its bump byte.
    pub fn check_mint(program_id: &Address, pool_mint: &AccountSnapshot) -> (r: Result<
        (Address, u8),
        SwapError,
    >)
        ensures
            r == Self::spec_check_mint(*program_id, *pool_mint),
    {
        let mint = Mint::unpack(pool_mint.data.as_slice());
        let derived = find_program_address(program_id, &pool_mint.key);
        Self::verify_mint(&mint, &derived)
    }

    /// Checks the user's two wallets against the user authority, the pool
    /// mint and the request.
    pub fn check_user_wallets(
        user_authority: &AccountSnapshot,
        user_wallet_x: &AccountSnapshot,
        user_wallet_y: &AccountSnapshot,
        pool_mint: &AccountSnapshot,
        request: &ContractInstruction,
    ) -> (r: Result<(), SwapError>)
        ensures
            r == Self::spec_check_user_wallets(
                *user_authority,
                *user_wallet_x,
                *user_wallet_y,
                *pool_mint,
                *request,
            ),
    {
        let wallet_x = TokenAccount::unpack(user_wallet_x.data.as_slice());
        let wallet_y = TokenAccount::unpack(user_wallet_y.data.as_slice());
        Self::verify_user_wallets(
            &user_authority.key,
            &wallet_x,
            &wallet_y,
            &pool_mint.key,
            request,
        )
    }

    /// Checks that the custody wallet presented is the address derived from
    /// the user's wallet X, and returns the bump byte of the derivation.
    pub fn check_custody_address(
        program_id: &Address,
        user_wallet_x: &AccountSnapshot,
        custody: &AccountSnapshot,
    ) -> (r: Result<u8, SwapError>)
        ensures
            r == Self::spec_check_custody_address(*program_id, *user_wallet_x, *custody),
    {
        let derived = find_program_address(program_id, &user_wallet_x.key);
        Self::verify_custody_address(&derived, &custody.key)
    }

    /// Tells where the custody wallet stands.
    pub fn custody_state(custody: &AccountSnapshot) -> (r: Option<CustodyState>)
        ensures
            r == Self::spec_custody_state(*custody),
    {
        let record = TokenAccount::unpack_unchecked(custody.data.as_slice());
        Self::classify_custody(&custody.owner, &record)
    }

    /// Builds the token program's `Burn` instruction. The instruction is always
    /// built: the token program's builder refuses no id but a foreign one.
    pub fn token_burn(
        burn_account: &Address,
        mint: &Address,
        authority: &Address,
        amount: u64,
    ) -> (r: Result<Instruction, SwapError>)
        ensures
            r matches Ok(built) && built@ == burn_wire(*burn_account, *mint, *authority, amount),
    {
        match spl_burn(burn_account, mint, authority, amount) {
            Ok(built) => Ok(built),
            Err(code) => Err(SwapError::DelegatedCallFailure { code }),
        }
    }

    /// Builds the token program's `MintTo` instruction. The instruction is always
    /// built: the token program's builder refuses no id but a foreign one.
    pub fn token_mint_to(
        mint: &Address,
        destination: &Address,
        authority: &Address,
        amount: u64,
    ) -> (r: Result<Instruction, SwapError>)
        ensures
            r matches Ok(built) && built@ == mint_to_wire(*mint, *destination, *authority, amount),
    {
        match spl_mint_to(mint, destination, authority, amount) {
            Ok(built) => Ok(built),
            Err(code) => Err(SwapError::DelegatedCallFailure { code }),
        }
    }

    /// Builds the token program's `Transfer` instruction. The instruction is always
    /// built: the token program's builder refuses no id but a foreign one.
    pub fn token_transfer(
        source: &Address,
        destination: &Address,
        authority: &Address,
        amount: u64,
    ) -> (r: Result<Instruction, SwapError>)
        ensures
            r matches Ok(built) && built@ == transfer_wire(
                *source,
                *destination,
                *authority,
                amount,
            ),
    {
        match spl_transfer(source, destination, authority, amount) {
            Ok(built) => Ok(built),
            Err(code) => Err(SwapError::DelegatedCallFailure { code }),
        }
    }

    /// Builds the token program's `InitializeAccount` instruction. The instruction is always
    /// built: the token program's builder refuses no id but a foreign one.
    pub fn initialize_account(account: &Address, mint: &Address, owner: &Address) -> (r: Result<
        Instruction,
        SwapError,
    >)
        ensures
            r matches Ok(built) && built@ == initialize_account_wire(*account, *mint, *owner),
    {
        match spl_initialize_account(account, mint, owner) {
            Ok(built) => Ok(built),
            Err(code) => Err(SwapError::DelegatedCallFailure { code }),
        }
    }

    /// Plans a deposit: `token_x_amount` of token X goes from the user's
    /// wallet X into custody, and as much of the pool token is issued into
    /// the user's wallet Y.
    pub fn change_x_to_y(
        program_id: &Address,
        token_x_amount: u64,
        accounts: &[AccountSnapshot],
    ) -> (r: Result<Vec<Invocation>, SwapError>)
        ensures
            plan_view(r) == Self::spec_change_x_to_y(*program_id, token_x_amount, accounts@),
    {
        if accounts.len() < ACCOUNTS_READ {
            return Err(SwapError::NotEnoughAccountKeys);
        }
        let user_authority = &accounts[USER_AUTHORITY];
        let user_wallet_x = &accounts[USER_WALLET_X];
        let user_wallet_y = &accounts[USER_WALLET_Y];
        let token_x_mint = &accounts[TOKEN_X_MINT];
        let pool_mint = &accounts[POOL_MINT];
        let custody = &accounts[CUSTODY_WALLET_X];
        let request = ContractInstruction::ChangeXtoY { amount: token_x_amount };

        if !user_authority.is_signer {
            return Err(SwapError::MissingSignature);
        }
        let mint_authority = match Self::check_mint(program_id, pool_mint) {
            Ok(authority) => authority,
            Err(e) => {
                return Err(e);
            },
        };
        match Self::check_user_wallets(
            user_authority,
            user_wallet_x,
            user_wallet_y,
            pool_mint,
            &request,
        ) {
            Ok(_) => {},
            Err(e) => {
                return Err(e);
            },
        }
        let bump = match Self::check_custody_address(program_id, user_wallet_x, custody) {
            Ok(bump) => bump,
            Err(e) => {
                return Err(e);
            },
        };
        let seeds = SignerSeeds { seed: user_wallet_x.key, bump };
        let state = Self::custody_state(custody);
        let mut plan = match Self::provision_custody(
            &state,
            &user_authority.key,
            &custody.key,
            &token_x_mint.key,
            &seeds,
        ) {
            Ok(setup) => setup,
            Err(e) => {
                return Err(e);
            },
        };
        let ghost setup = plan@;
        plan.push(
            Invocation {
                call: DelegatedCall::Transfer {
                    source: user_wallet_x.key,
                    destination: custody.key,
                    authority: user_authority.key,
                    amount: token_x_amount,
                },
                signer: None,
            },
        );
        plan.push(
            Invocation {
                call: DelegatedCall::MintTo {
                    mint: pool_mint.key,
                    destination: user_wallet_y.key,
                    authority: mint_authority.0,
                    amount: token_x_amount,
                },
                signer: Some(SignerSeeds { seed: pool_mint.key, bump: mint_authority.1 }),
            },
        );
        proof {
            assert(plan@ =~= setup + Self::spec_deposit_legs(
                user_authority.key,
                user_wallet_x.key,
                user_wallet_y.key,
                pool_mint.key,
                custody.key,
                mint_authority,
                token_x_amount,
            ));
        }
        Ok(plan)
    }

    /// Plans a withdrawal: `token_y_amount` of token X goes from custody
    /// back into the user's wallet X, and as much of the pool token is
    /// destroyed in the user's wallet Y.
    pub fn change_y_to_x(
        program_id: &Address,
        token_y_amount: u64,
        accounts: &[AccountSnapshot],
    ) -> (r: Result<Vec<Invocation>, SwapError>)
        ensures
            plan_view(r) == Self::spec_change_y_to_x(*program_id, token_y_amount, accounts@),
    {
        if accounts.len() < ACCOUNTS_READ {
            return Err(SwapError::NotEnoughAccountKeys);
        }
        let user_authority = &accounts[USER_AUTHORITY];
        let user_wallet_x = &accounts[USER_WALLET_X];
        let user_wallet_y = &accounts[USER_WALLET_Y];
        let pool_mint = &accounts[POOL_MINT];
        let custody = &accounts[CUSTODY_WALLET_X];
        let request = ContractInstruction::ChangeYtoX { amount: token_y_amount };

        if !user_authority.is_signer {
            return Err(SwapError::MissingSignature);
        }
        match Self::check_user_wallets(
            user_authority,
            user_wallet_x,
            user_wallet_y,
            pool_mint,
            &request,
        ) {
            Ok(_) => {},
            Err(e) => {
                return Err(e);
            },
        }
        let bump = match Self::check_custody_address(program_id, user_wallet_x, custody) {
            Ok(bump) => bump,
            Err(e) => {
                return Err(e);
            },
        };
        if custody.owner == system_program_id() {
            proof {
                custody.owner.lemma_view_injective(Address { bytes: SYSTEM_PROGRAM_ID });
            }
            return Err(SwapError::CustodyNotFound);
        }
        let mut plan: Vec<Invocation> = Vec::new();
        plan.push(
            Invocation {
                call: DelegatedCall::Transfer {
                    source: custody.key,
                    destination: user_wallet_x.key,
                    authority: custody.key,
                    amount: token_y_amount,
                },
                signer: Some(SignerSeeds { seed: user_wallet_x.key, bump }),
            },
        );
        plan.push(
            Invocation {
                call: DelegatedCall::Burn {
                    account: user_wallet_y.key,
                    mint: pool_mint.key,
                    authority: user_authority.key,
                    amount: token_y_amount,
                },
                signer: None,
            },
        );
        proof {
            assert(plan@ =~= Self::spec_withdrawal_legs(
                user_authority.key,
                user_wallet_x.key,
                user_wallet_y.key,
                pool_mint.key,
                custody.key,
                bump,
                token_y_amount,
            ));
        }
        Ok(plan)
    }

    /// Processes an instruction: decodes the request and plans it.
    pub fn process_instruction(program_id: &Address, accounts: &[AccountSnapshot], input: &[u8]) -> (r:
        Result<Vec<Invocation>, SwapError>)
        ensures
            plan_view(r) == Self::spec_process_instruction(*program_id, accounts@, input@),
    {
        match ContractInstruction::decode(input) {
            Ok(ContractInstruction::ChangeXtoY { amount }) => Self::change_x_to_y(
                program_id,
                amount,
                accounts,
            ),
            Ok(ContractInstruction::ChangeYtoX { amount }) => Self::change_y_to_x(
                program_id,
                amount,
                accounts,
            ),
            Err(e) => Err(e),
        }
    }
}

} // verus!
