//! A custody engine: a depositor locks native coin or units of a token type
//! under an escrow record and is issued a transferable receipt; whoever
//! presents and destroys the receipt withdraws what was deposited.
//!
//! - `address`: the 32-byte addresses that name parties, token types and
//!   locations.
//! - `locate`: where the records of a depositor live, derived from public
//!   identifiers alone.
//! - `records`: the records, and the rules that a single record obeys.
//! - `context`: what each operation names.
//! - `state`, `model`: the ledger as mathematical maps, and each operation
//!   as a function on it.
//! - `registry`, `ledger`: the ledger as it is stored.
//! - `engine`: the operations of the engine.
//! - `host`: the operations of the parties on wallets and balance accounts.
//! - `preserve`, `placement`, `laws`: what holds of every ledger and of
//!   every run.
//! - `flipper`: a two-state switch.

pub mod address;
pub mod context;
pub mod engine;
pub mod flipper;
pub mod host;
pub mod laws;
pub mod ledger;
pub mod locate;
pub mod model;
pub mod placement;
pub mod preserve;
pub mod records;
pub mod registry;
pub mod state;
