//! The logic of a token exchange program for an account-based ledger, verified with Verus.
//!
//! The exchange converts between the ledger's native currency and one fungible token at a
//! rate that its administrator sets.  The host owns the accounts, checks the signatures and
//! runs every invocation as one indivisible unit.  The library decides: it decodes the
//! instruction, validates the accounts it is shown, does the rate arithmetic, and returns
//! the actions that the host is to carry out.
//!
//! - [`address`]: account addresses.
//! - [`error`]: the failures.
//! - [`state`]: the persisted record and its byte layout.
//! - [`instruction`]: the instructions and their payload encoding.
//! - [`account`]: what a handler is shown of an account.
//! - [`action`]: what a handler asks of the host.
//! - [`processor`]: the handlers and their outcomes.
//! - [`ledger`]: the transfers that actions ask for, and a model of the balances.
//! - [`laws`]: what holds of every exchange.
//! - [`music_store`]: the records of a music store that is paid in tokens.

pub mod account;
pub mod action;
pub mod address;
pub mod error;
pub mod instruction;
pub mod laws;
pub mod ledger;
pub mod music_store;
pub mod processor;
pub mod state;
