//! A custodial vault: per-user ledger records kept in flat account storage,
//! program-derived addresses that authenticate every account an operation
//! touches, and a protocol fee skimmed into a treasury on withdrawal.
//!
//! Amounts are whole ledger units. One ledger unit is worth 10^9 lamports of
//! transferable value, and the fee is a fixed share of that value, rounded
//! toward zero.

pub mod account;
pub mod codec;
pub mod error;
pub mod fee;
pub mod instruction;
pub mod instructions;
pub mod laws;
pub mod ledger;
pub mod pda;
pub mod processor;
pub mod state;
