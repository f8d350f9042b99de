//! A multi-asset token ledger.
//!
//! The ledger issues named fungible tokens, keeps a balance for every
//! (token, account) pair and lets an owner approve a third party to move
//! part of that balance. Every operation is a total function from the
//! current state and its arguments to a new state and a result; a refused
//! operation leaves the state untouched.
//!
//! The contracts are phrased over [`model::LedgerState`], the mathematical
//! state of a ledger. The laws that hold of every state, and those that
//! relate several operations, are proved in [`laws`].

mod arith;
pub mod error;
pub mod event;
pub mod laws;
pub mod ledger;
pub mod model;
pub mod supply;
pub mod token;
pub mod types;

pub use error::Error;
pub use event::Event;
pub use ledger::Ledger;
pub use token::Erc20Token;
pub use types::{AccountId, AllowanceKey, BalanceKey, TokenBalance, TokenId};
