use vstd::prelude::*;

verus! {

/// Why an operation was rejected. Every rejection leaves all accounts as
/// they were.
#[derive(Clone, Copy, Debug, PartialEq, Eq, Structural)]
pub enum VaultError {
    /// The account list is shorter than the operation's roles.
    NotEnoughAccountKeys,
    /// The authority did not sign.
    MissingSignature,
    /// An account's address is not the one derived for its role.
    InvalidDerivation,
    /// The record would not fit under the size ceiling, or in its account.
    RecordTooLarge,
    /// The record was never written.
    UninitializedAccount,
    /// The withdrawal exceeds the recorded balance.
    InsufficientFunds,
    /// The record's bytes are not zero and do not parse.
    DecodeCorruption,
    /// A balance or a pool would leave its integer range.
    ArithmeticOverflow,
}

/// Why a buffer holds no record.
#[derive(Clone, Copy, Debug, PartialEq, Eq, Structural)]
pub enum DecodeError {
    /// Every byte is zero: nothing was ever written.
    Unwritten,
    /// Some byte is set, yet the layout does not parse.
    Malformed,
}

} // verus!
