//! What the program reads of the accounts that a request presents.

use crate::address::Address;
use solana_program::program_pack::Pack;
use vstd::prelude::*;

verus! {

/// An account as the program finds it when a request arrives.
#[derive(Clone, Debug, PartialEq, Eq)]
pub struct AccountSnapshot {
    /// The account's address.
    pub key: Address,
    /// The program that owns the account.
    pub owner: Address,
    /// Whether the account signed the transaction.
    pub is_signer: bool,
    /// The account's data.
    pub data: Vec<u8>,
}

/// The life cycle of a token wallet.
#[derive(Clone, Copy, Debug, PartialEq, Eq, Structural)]
pub enum AccountStatus {
    /// The record is allocated and not yet bound to an asset.
    Uninitialized,
    /// The wallet is bound to an asset and usable.
    Initialized,
    /// The wallet is bound to an asset and frozen by the asset's authority.
    Frozen,
}

/// The fields that the program reads of a token wallet's record.
#[derive(Clone, Copy, Debug, PartialEq, Eq)]
pub struct TokenAccount {
    /// The asset that the wallet holds.
    pub mint: Address,
    /// The authority that may spend from the wallet.
    pub owner: Address,
    /// The number of tokens in the wallet.
    pub amount: u64,
    /// Where the wallet stands in its life cycle.
    pub status: AccountStatus,
}

/// The fields that the program reads of an asset's record.
#[derive(Clone, Copy, Debug, PartialEq, Eq)]
pub struct Mint {
    /// The authority that may issue the asset, if there is one.
    pub mint_authority: Option<Address>,
    /// Whether the record has been initialized.
    pub is_initialized: bool,
}

/// The size in bytes of a token wallet's record.
pub const TOKEN_ACCOUNT_LEN: u64 = 165;

/// The token wallet that the token program reads from `data`, whatever its
/// status, or `None` where `data` is no wallet record.
pub uninterp spec fn unpacked_token_account(data: Seq<u8>) -> Option<TokenAccount>;

/// The asset record that the token program reads from `data`, initialized or
/// not, or `None` where `data` is no asset record.
pub uninterp spec fn unpacked_mint(data: Seq<u8>) -> Option<Mint>;

/// Reads a token wallet's record without asking that it be initialized.
///
/// Calls `spl_token::state::Account::unpack_unchecked`, which fails unless
/// `data` holds exactly the bytes of one wallet record and decodes them
/// otherwise; the result depends on `data` alone. Of the record it keeps the
/// mint, the owner, the amount and the state.
#[verifier::external_body]
pub(crate) fn unpack_token_account_unchecked(data: &[u8]) -> (r: Option<TokenAccount>)
    ensures
        r == unpacked_token_account(data@),
{
    match spl_token::state::Account::unpack_unchecked(data) {
        Ok(account) => Some(TokenAccount {
            mint: Address { bytes: account.mint.to_bytes() },
            owner: Address { bytes: account.owner.to_bytes() },
            amount: account.amount,
            status: match account.state {
                spl_token::state::AccountState::Uninitialized => AccountStatus::Uninitialized,
                spl_token::state::AccountState::Initialized => AccountStatus::Initialized,
                spl_token::state::AccountState::Frozen => AccountStatus::Frozen,
            },
        }),
        Err(_) => None,
    }
}

/// Reads an asset's record without asking that it be initialized.
///
/// Calls `spl_token::state::Mint::unpack_unchecked`, which fails unless `data`
/// holds exactly the bytes of one asset record and decodes them otherwise;
/// the result depends on `data` alone. Of the record it keeps the mint
/// authority and the initialization flag.
#[verifier::external_body]
pub(crate) fn unpack_mint_unchecked(data: &[u8]) -> (r: Option<Mint>)
    ensures
        r == unpacked_mint(data@),
{
    match spl_token::state::Mint::unpack_unchecked(data) {
        Ok(mint) => Some(Mint {
            mint_authority: match mint.mint_authority {
                solana_program::program_option::COption::Some(key) => Some(Address { bytes: key.to_bytes() }),
                solana_program::program_option::COption::None => None,
            },
            is_initialized: mint.is_initialized,
        }),
        Err(_) => None,
    }
}

impl TokenAccount {
    /// Whether the wallet has been bound to an asset.
    pub open spec fn spec_is_initialized(self) -> bool {
        self.status != AccountStatus::Uninitialized
    }

    /// The initialized wallet that `data` holds, if it holds one.
    pub open spec fn spec_unpack(data: Seq<u8>) -> Option<TokenAccount> {
        match unpacked_token_account(data) {
            Some(account) => if account.spec_is_initialized() {
                Some(account)
            } else {
                None
            },
            None => None,
        }
    }

    /// Whether the wallet has been bound to an asset.
    pub fn is_initialized(&self) -> (r: bool)
        ensures
            r == self.spec_is_initialized(),
    {
        match self.status {
            AccountStatus::Uninitialized => false,
            AccountStatus::Initialized => true,
            AccountStatus::Frozen => true,
        }
    }

    /// Reads a wallet record, initialized or not.
    pub fn unpack_unchecked(data: &[u8]) -> (r: Option<TokenAccount>)
        ensures
            r == unpacked_token_account(data@),
    {
        unpack_token_account_unchecked(data)
    }

    /// Reads an initialized wallet record.
    pub fn unpack(data: &[u8]) -> (r: Option<TokenAccount>)
        ensures
            r == Self::spec_unpack(data@),
    {
        match unpack_token_account_unchecked(data) {
            Some(account) => if account.is_initialized() {
                Some(account)
            } else {
                None
            },
            None => None,
        }
    }
}

impl Mint {
    /// The initialized asset record that `data` holds, if it holds one.
    pub open spec fn spec_unpack(data: Seq<u8>) -> Option<Mint> {
        match unpacked_mint(data) {
            Some(mint) => if mint.is_initialized {
                Some(mint)
            } else {
                None
            },
            None => None,
        }
    }

    /// Reads an initialized asset record.
    pub fn unpack(data: &[u8]) -> (r: Option<Mint>)
        ensures
            r == Self::spec_unpack(data@),
    {
        match unpack_mint_unchecked(data) {
            Some(mint) => if mint.is_initialized {
                Some(mint)
            } else {
                None
            },
            None => None,
        }
    }
}

} // verus!
