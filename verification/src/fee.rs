use vstd::prelude::*;

verus! {

/// Lamports of transferable value in one ledger unit.
pub const LAMPORTS_PER_UNIT: u64 = 1_000_000_000;

/// The protocol fee, in hundredths of a percent of the value withdrawn.
pub const FEE_RATE_BPS: u64 = 200;

/// Hundredths of a percent in the whole.
pub const BPS_DENOMINATOR: u64 = 10_000;

/// The value of `amount` ledger units, in lamports.
pub open spec fn unit_value(amount: u32) -> int {
    amount * LAMPORTS_PER_UNIT
}

/// The share `rate_bps` of `value`, rounded toward zero.
pub open spec fn fee_share(value: int, rate_bps: int) -> int {
    value * rate_bps / (BPS_DENOMINATOR as int)
}

/// The fee on a withdrawal of `amount` ledger units, in lamports.
pub open spec fn withdrawal_fee(amount: u32) -> int {
    fee_share(unit_value(amount), FEE_RATE_BPS as int)
}

/// What the caller receives of a withdrawal of `amount` ledger units.
pub open spec fn withdrawal_net(amount: u32) -> int {
    unit_value(amount) - withdrawal_fee(amount)
}

/// At the protocol rate the fee is exactly a fiftieth of the value: 10^9 is
/// a multiple of 50, so nothing is lost to rounding.
pub proof fn fee_is_exact(amount: u32)
    ensures
        withdrawal_fee(amount) == amount * 20_000_000,
        withdrawal_net(amount) == amount * 980_000_000,
        withdrawal_fee(amount) + withdrawal_net(amount) == unit_value(amount),
{
    let a = amount as int;
    assert(a * 1_000_000_000 * 200 == (a * 20_000_000) * 10_000) by (nonlinear_arith);
    assert((a * 20_000_000) * 10_000 / 10_000 == a * 20_000_000) by (nonlinear_arith);
}

/// The value of `amount` ledger units, in lamports.
pub fn to_lamports(amount: u32) -> (value: u64)
    ensures
        value == unit_value(amount),
{
    assert(amount * 1_000_000_000 <= 0xffff_ffff * 1_000_000_000) by (nonlinear_arith)
        requires
            amount <= 0xffff_ffff,
    ;
    (amount as u64) * LAMPORTS_PER_UNIT
}

/// The share `rate_bps` of `value`, rounded toward zero. The rate is at most
/// the whole, so the share is at most the value.
pub fn fee_on(value: u64, rate_bps: u64) -> (fee: u64)
    requires
        rate_bps <= BPS_DENOMINATOR,
    ensures
        fee == fee_share(value as int, rate_bps as int),
        fee <= value,
{
    assert(value * rate_bps <= value * 10_000) by (nonlinear_arith)
        requires
            rate_bps <= 10_000,
    ;
    assert(value * 10_000 / 10_000 == value) by (nonlinear_arith);
    assert(value * rate_bps / 10_000 <= value * 10_000 / 10_000) by (nonlinear_arith)
        requires
            value * rate_bps <= value * 10_000,
    ;
    let product: u128 = (value as u128) * (rate_bps as u128);
    (product / (BPS_DENOMINATOR as u128)) as u64
}

/// A withdrawal's value, split between the treasury and the caller.
#[derive(Clone, Copy, Debug, PartialEq, Eq, Structural)]
pub struct Settlement {
    /// Lamports that go to the treasury pool.
    pub fee: u64,
    /// Lamports that go to the caller.
    pub net: u64,
}

/// Splits the value of `amount` ledger units into the protocol fee and the
/// rest. The two parts add up to the value.
pub fn settle(amount: u32) -> (s: Settlement)
    ensures
        s.fee == withdrawal_fee(amount),
        s.net == withdrawal_net(amount),
        s.fee + s.net == unit_value(amount),
{
    proof {
        fee_is_exact(amount);
    }
    let value: u64 = to_lamports(amount);
    let fee: u64 = fee_on(value, FEE_RATE_BPS);
    Settlement { fee, net: value - fee }
}

} // verus!
