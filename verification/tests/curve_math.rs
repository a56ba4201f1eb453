//! Exact expected values for the fixed-point curve formulas, pinning their
//! rounding behavior, including a deposit/withdraw round trip.

use custody::curve::{
    xy_deposit_amounts_from_l, xy_withdraw_amounts_from_l, ConstantProduct, CurveError,
    LiquidityPair, SwapResult, XYAmounts,
};

#[test]
fn deposit_amounts_exact() {
    let r = xy_deposit_amounts_from_l(1_000_000, 500_000, 100, 10, 6);
    assert_eq!(r, Ok(XYAmounts { x: 100_000, y: 50_000 }));
}

#[test]
fn deposit_amounts_round_toward_zero() {
    // ratio = 4 * 10^6 / 3 = 1_333_333; 10 -> floor(13.33333) - 10 = 3;
    // 7 -> floor(9.333331) - 7 = 2.
    let r = xy_deposit_amounts_from_l(10, 7, 3, 1, 6);
    assert_eq!(r, Ok(XYAmounts { x: 3, y: 2 }));
}

#[test]
fn deposit_amounts_zero_supply_fails() {
    let r = xy_deposit_amounts_from_l(10, 10, 0, 1, 6);
    assert_eq!(r, Err(CurveError::ZeroSupply));
}

#[test]
fn deposit_amounts_precision_cap() {
    let r = xy_deposit_amounts_from_l(10, 10, 1, 1, 13);
    assert_eq!(r, Err(CurveError::InvalidPrecision));
}

#[test]
fn deposit_amounts_overflow_intermediate() {
    let r = xy_deposit_amounts_from_l(u64::MAX, 1, 1, u64::MAX, 12);
    assert_eq!(r, Err(CurveError::Overflow));
}

#[test]
fn deposit_amounts_overflow_result() {
    // ratio = 3 at precision 0, so the X-side owes 2 * u64::MAX.
    let r = xy_deposit_amounts_from_l(u64::MAX, 0, 1, 2, 0);
    assert_eq!(r, Err(CurveError::Overflow));
}

#[test]
fn withdraw_amounts_exact() {
    // ratio = 100 * 10^6 / 110 = 909_090; the pool keeps the floors and
    // pays the remainders out.
    let r = xy_withdraw_amounts_from_l(1_100_000, 550_000, 110, 10, 6);
    assert_eq!(r, Ok(XYAmounts { x: 100_001, y: 50_001 }));
}

#[test]
fn withdraw_amounts_insufficient_balance() {
    let r = xy_withdraw_amounts_from_l(10, 10, 5, 6, 6);
    assert_eq!(r, Err(CurveError::InsufficientBalance));
}

#[test]
fn withdraw_amounts_zero_supply_fails() {
    let r = xy_withdraw_amounts_from_l(10, 10, 0, 0, 6);
    assert_eq!(r, Err(CurveError::ZeroSupply));
}

#[test]
fn deposit_withdraw_round_trip_pins_rounding() {
    // Deposit 10 liquidity units into (1_000_000, 500_000, supply 100),
    // then withdraw the same 10 from the grown pool: the floor rounding
    // hands back one more unit of each asset than was paid in.
    let paid = xy_deposit_amounts_from_l(1_000_000, 500_000, 100, 10, 6).unwrap();
    assert_eq!(paid, XYAmounts { x: 100_000, y: 50_000 });
    let x_after = 1_000_000 + paid.x;
    let y_after = 500_000 + paid.y;
    let got = xy_withdraw_amounts_from_l(x_after, y_after, 110, 10, 6).unwrap();
    assert_eq!(got, XYAmounts { x: 100_001, y: 50_001 });
}

#[test]
fn init_rejects_fee_above_ten_thousand() {
    let r = ConstantProduct::init(1, 1, 1, 10_001, Some(6));
    assert_eq!(r, Err(CurveError::InvalidFee));
}

#[test]
fn init_default_precision_is_six() {
    let cp = ConstantProduct::init(5, 6, 7, 100, None).unwrap();
    assert_eq!(cp.precision, 6);
    assert_eq!(cp.x, 5);
    assert_eq!(cp.y, 6);
    assert_eq!(cp.l, 7);
    assert_eq!(cp.fee, 100);
}

#[test]
fn swap_exact_slippage_failure() {
    // fee 300 bps on 1000 leaves 970 effective; k = 1000 * 50 = 50_000;
    // quotient 50_000 / 1970 = 25; out = 25 < min 50.
    let cp = ConstantProduct::init(1000, 50, 999, 300, Some(6)).unwrap();
    let r = cp.swap(LiquidityPair::X, 1000, 50);
    assert_eq!(r, Err(CurveError::SlippageLimitExceeded));
}

#[test]
fn swap_exact_success() {
    // k = 1000 * 1 = 1000 < new_in = 1970, so the quotient is 0 and the
    // whole outgoing figure of 1 leaves; the full input of 1000 enters.
    let cp = ConstantProduct::init(1000, 1, 999, 300, Some(6)).unwrap();
    let r = cp.swap(LiquidityPair::X, 1000, 1);
    assert_eq!(r, Ok(SwapResult { deposit: 1000, withdraw: 1 }));
}

#[test]
fn swap_y_side_exact() {
    // Paying into the Y side: k = 1000 * 5 = 5000; new_in = 2000;
    // quotient 2; out = 5 - 2 = 3.
    let cp = ConstantProduct::init(5, 1000, 10, 0, Some(6)).unwrap();
    let r = cp.swap(LiquidityPair::Y, 1000, 0);
    assert_eq!(r, Ok(SwapResult { deposit: 1000, withdraw: 3 }));
}

#[test]
fn swap_zero_reserve_fails() {
    let cp = ConstantProduct::init(0, 5, 10, 0, Some(6)).unwrap();
    let r = cp.swap(LiquidityPair::X, 0, 0);
    assert_eq!(r, Err(CurveError::ZeroReserve));
}

#[test]
fn swap_deposit_leg_is_the_full_input() {
    // The fee stays in the pool: the deposit leg always carries the whole
    // input, never the fee-reduced figure.
    let cp = ConstantProduct::init(10_000, 1, 1, 10_000, Some(6)).unwrap();
    let r = cp.swap(LiquidityPair::X, 10_000, 0).unwrap();
    assert_eq!(r.deposit, 10_000);
}
