//! An exchange program for the ledger: a holder of token X deposits it with
//! the pool for as much of the pool's own token, and returns the pool token
//! to withdraw it again.
//!
//! The library decides; it performs nothing. `processor` validates the
//! accounts of a request and returns the calls to delegate, `calls` and
//! `utils` give each call its wire form, and `theorems` states what holds of
//! every plan.

pub mod address;
pub mod calls;
pub mod encoding;
pub mod error;
pub mod instruction;
pub mod processor;
pub mod state;
pub mod theorems;
pub mod utils;

pub use address::{find_program_address, id};
