//! A voucher ledger for a fixed-supply token: an authority mints the supply
//! once, issues batches of single-use redemption codes, and every code can be
//! redeemed for a fixed amount exactly once. A trading desk sells tokens at a
//! fixed price against a reference currency.
//!
//! Every function here is verified against its contract, but for three
//! that call into outside crates for a digest, a base58 text and a derived
//! address, and one of the standard library that appends a character to a
//! string: their contracts are believed, and say so. The token ledger that
//! moves balances, the clock and the event sink belong to the host: the host
//! hands in what they answered and carries out what an operation returns.

pub mod address;
pub mod codes;
pub mod error;
pub mod events;
pub mod instruction;
pub mod laws;
pub mod ledger;
pub mod state;
pub mod text;
pub mod usv_token;
pub mod usv_trading;
