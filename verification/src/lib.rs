//! A sweep of a wallet: the lamports above a floor and the tokens of every
//! listed token account go to a destination, but for the token accounts of
//! one excluded mint.
//!
//! The sweep itself decides and computes only. `sweep` holds it as a
//! sequence of steps that a host performs one by one; `instruction` makes
//! the instruction that moves the lamports; `token` reads a token account
//! from its bytes; `ledger` is a host in memory; `executor` runs the steps on
//! that ledger, all or nothing; `guarantees` states what then holds of every
//! sweep.

pub mod error;
pub mod executor;
pub mod guarantees;
pub mod instruction;
pub mod ledger;
pub mod pubkey;
pub mod sweep;
pub mod token;

pub use crate::error::ErrorCode;
pub use crate::executor::sweep_except_badseed;
pub use crate::sweep::SweepExceptBadseed;
