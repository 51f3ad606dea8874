//! The reasons for which a request is rejected.

use vstd::prelude::*;

verus! {

/// Why a request was rejected. Every rejection is final: nothing was asked of
/// the token-custody module, so nothing on the ledger has changed.
#[derive(Clone, Copy, Debug, PartialEq, Eq, Structural)]
pub enum SwapError {
    /// The instruction bytes are too short or begin with an unknown opcode.
    MalformedInstruction,
    /// The account list is shorter than the positions that the request reads.
    NotEnoughAccountKeys,
    /// The user authority did not sign the transaction.
    MissingSignature,
    /// A user wallet is no token wallet of the user authority.
    InvalidOwner,
    /// The wallet that pays holds less than the requested amount.
    InsufficientFunds,
    /// A wallet is bound to another asset than the one the request needs.
    AssetMismatch,
    /// The pool mint's mint authority is not the authority derived from the
    /// pool mint's own address.
    InvalidMintAuthority,
    /// The custody wallet presented is not the address derived from the
    /// user's wallet X.
    InvalidDerivedAddress,
    /// The custody wallet that a withdrawal needs has never been created.
    CustodyNotFound,
    /// The token-custody module refused a call; `code` is its own error code.
    DelegatedCallFailure { code: u64 },
}

} // verus!
