//! The three operations. Each is one transaction over the accounts it is
//! given: it changes them all as its contract says, or none of them.

pub mod deposit;
pub mod initialize_vault;
pub mod withdraw;
