use vault_program::fee::{
    fee_on, settle, to_lamports, Settlement, BPS_DENOMINATOR, FEE_RATE_BPS, LAMPORTS_PER_UNIT,
};

#[test]
fn fee_of_a_hundred_units_is_two() {
    let s = settle(100);
    assert_eq!(s, Settlement { fee: 2_000_000_000, net: 98_000_000_000 });
    assert_eq!(s.fee + s.net, to_lamports(100));
    assert_eq!(to_lamports(100), 100_000_000_000);
}

#[test]
fn fee_arithmetic_matches_the_decimal_rate() {
    let fee_rate = 0.02f64;
    let amount = 100.0f64;
    let fee = amount * fee_rate;
    let net = amount - fee;
    let s = settle(100);
    assert_eq!(s.fee, (fee * 1_000_000_000.0) as u64);
    assert_eq!(s.net, (net * 1_000_000_000.0) as u64);
    assert_eq!(FEE_RATE_BPS as f64 / BPS_DENOMINATOR as f64, fee_rate);
}

#[test]
fn settle_splits_without_loss_at_the_edges() {
    assert_eq!(settle(0), Settlement { fee: 0, net: 0 });
    assert_eq!(settle(1), Settlement { fee: 20_000_000, net: 980_000_000 });
    let top = settle(u32::MAX);
    assert_eq!(top.fee, 4_294_967_295u64 * 20_000_000);
    assert_eq!(top.fee + top.net, 4_294_967_295u64 * LAMPORTS_PER_UNIT);
}

#[test]
fn to_lamports_scales_by_ten_to_the_ninth() {
    assert_eq!(to_lamports(0), 0);
    assert_eq!(to_lamports(3), 3_000_000_000);
    assert_eq!(to_lamports(u32::MAX), 4_294_967_295_000_000_000);
}

#[test]
fn fee_on_rounds_toward_zero() {
    assert_eq!(fee_on(99, 200), 1);
    assert_eq!(fee_on(49, 200), 0);
    assert_eq!(fee_on(50, 200), 1);
    assert_eq!(fee_on(10_000, 1), 1);
    assert_eq!(fee_on(9_999, 1), 0);
    assert_eq!(fee_on(12_345, 0), 0);
    assert_eq!(fee_on(12_345, 10_000), 12_345);
    assert_eq!(fee_on(u64::MAX, 10_000), u64::MAX);
    assert_eq!(fee_on(u64::MAX, 200), u64::MAX / 50);
}
