//! Fixed-point constant-product formulas for the pool: the contribution pair
//! a deposit of liquidity units requires, the reserve pair a withdrawal of
//! liquidity units returns, and a swap across the curve with a basis-point
//! fee, all at a configurable decimal precision.
//!
//! The formulas work through a scaled growth ratio: a deposit of `a` units
//! against a supply of `l` scales each reserve by `(l + a) / l`, and a
//! withdrawal by `(l - a) / l`, both ratios held as integers with
//! `10^precision` fractional steps and rounded toward zero.  The rounding is
//! part of the contract of every function here and is pinned by tests.

use vstd::arithmetic::div_mod::{
    lemma_div_is_ordered, lemma_div_multiples_vanish, lemma_multiply_divide_le,
};
use vstd::arithmetic::mul::{lemma_mul_inequality, lemma_mul_upper_bound};
use vstd::prelude::*;

verus! {

/// The failures of the curve computations.
#[derive(Clone, Copy, PartialEq, Eq, Structural, Debug)]
pub enum CurveError {
    /// The decimal precision exceeds what 64-bit amounts can carry.
    InvalidPrecision,
    /// The liquidity supply is zero where a ratio against it is needed.
    ZeroSupply,
    /// More liquidity units would leave than the supply holds.
    InsufficientBalance,
    /// An intermediate or final amount exceeds its integer range.
    Overflow,
    /// The fee exceeds 10 000 basis points.
    InvalidFee,
    /// The paying reserve of a swap holds nothing and the fee consumed the input.
    ZeroReserve,
    /// A swap returns less than the caller's stated minimum.
    SlippageLimitExceeded,
}

/// A pair of reserve amounts, one per pool asset.
#[derive(Clone, Copy, PartialEq, Eq, Structural, Debug)]
pub struct XYAmounts {
    pub x: u64,
    pub y: u64,
}

/// The two legs of a swap: what enters the paying reserve and what leaves
/// the other.
#[derive(Clone, Copy, PartialEq, Eq, Structural, Debug)]
pub struct SwapResult {
    pub deposit: u64,
    pub withdraw: u64,
}

/// Which reserve the input of a swap enters.
#[derive(Clone, Copy, PartialEq, Eq, Structural, Debug)]
pub enum LiquidityPair {
    X,
    Y,
}

/// Ten to the `n`th power.
pub open spec fn pow10(n: nat) -> nat
    decreases n,
{
    if n == 0 {
        1
    } else {
        10 * pow10((n - 1) as nat)
    }
}

/// The highest decimal precision the formulas accept: `10^12` still leaves
/// room for a 64-bit reserve inside 128-bit intermediates.
pub const MAX_PRECISION: u8 = 12;

/// Ten to the `p`th power as a 64-bit value.
pub fn pow10_u64(p: u8) -> (r: u64)
    requires
        p <= MAX_PRECISION,
    ensures
        r == pow10(p as nat),
        1 <= r <= 1_000_000_000_000,
{
    proof {
        reveal_with_fuel(pow10, 13);
    }
    match p {
        0 => 1,
        1 => 10,
        2 => 100,
        3 => 1_000,
        4 => 10_000,
        5 => 100_000,
        6 => 1_000_000,
        7 => 10_000_000,
        8 => 100_000_000,
        9 => 1_000_000_000,
        10 => 10_000_000_000,
        11 => 100_000_000_000,
        _ => 1_000_000_000_000,
    }
}

/// The contribution pair a deposit of `a` liquidity units requires from a
/// pool holding reserves `x` and `y` against a supply of `l`: each reserve
/// grows by the scaled ratio `(l + a) * 10^p / l`, rounded toward zero, and
/// the caller owes the growth.
pub open spec fn spec_deposit_amounts(x: u64, y: u64, l: u64, a: u64, precision: u8) -> Result<
    XYAmounts,
    CurveError,
> {
    if precision > MAX_PRECISION {
        Err(CurveError::InvalidPrecision)
    } else if l == 0 {
        Err(CurveError::ZeroSupply)
    } else {
        let s = pow10(precision as nat) as int;
        let ratio = (l + a) * s / (l as int);
        if (x as int) * ratio > u128::MAX {
            Err(CurveError::Overflow)
        } else if (y as int) * ratio > u128::MAX {
            Err(CurveError::Overflow)
        } else {
            let xa = (x as int) * ratio / s - x;
            let ya = (y as int) * ratio / s - y;
            if xa > u64::MAX || ya > u64::MAX {
                Err(CurveError::Overflow)
            } else {
                Ok(XYAmounts { x: xa as u64, y: ya as u64 })
            }
        }
    }
}

/// Multiply two 128-bit values, or report that the product does not fit.
fn checked_mul_u128(a: u128, b: u128) -> (r: Option<u128>)
    ensures
        r matches Some(p) ==> p == (a as int) * (b as int),
        r is None ==> (a as int) * (b as int) > u128::MAX,
{
    if b == 0 {
        Some(0)
    } else if a <= u128::MAX / b {
        proof {
            lemma_mul_inequality(a as int, (u128::MAX as int) / (b as int), b as int);
            vstd::arithmetic::div_mod::lemma_remainder_lower(u128::MAX as int, b as int);
        }
        Some(a * b)
    } else {
        proof {
            let m = u128::MAX as int;
            let bi = b as int;
            let q = m / bi;
            vstd::arithmetic::div_mod::lemma_remainder_upper(m, bi);
            assert((q + 1) * bi == q * bi + bi) by {
                vstd::arithmetic::mul::lemma_mul_is_distributive_add_other_way(bi, q, 1);
            };
            lemma_mul_inequality(q + 1, a as int, bi);
        }
        None
    }
}

/// Compute the contribution pair of [`spec_deposit_amounts`].
pub fn xy_deposit_amounts_from_l(x: u64, y: u64, l: u64, a: u64, precision: u8) -> (r: Result<
    XYAmounts,
    CurveError,
>)
    ensures
        r == spec_deposit_amounts(x, y, l, a, precision),
{
    if precision > MAX_PRECISION {
        return Err(CurveError::InvalidPrecision);
    }
    if l == 0 {
        return Err(CurveError::ZeroSupply);
    }
    let s64 = pow10_u64(precision);
    let s: u128 = s64 as u128;
    proof {
        lemma_mul_upper_bound(
            (l + a) as int,
            u64::MAX + u64::MAX,
            s as int,
            1_000_000_000_000,
        );
    }
    let num: u128 = (l as u128 + a as u128) * s;
    let ratio: u128 = num / (l as u128);
    let xr: u128 = match checked_mul_u128(x as u128, ratio) {
        Some(v) => v,
        None => {
            return Err(CurveError::Overflow);
        },
    };
    let yr: u128 = match checked_mul_u128(y as u128, ratio) {
        Some(v) => v,
        None => {
            return Err(CurveError::Overflow);
        },
    };
    proof {
        lemma_growth_ratio_at_least_scale(l, a, s as int);
        lemma_scaled_quotient_lower(x, ratio as int, s as int);
        lemma_scaled_quotient_lower(y, ratio as int, s as int);
    }
    let xa: u128 = xr / s - x as u128;
    let ya: u128 = yr / s - y as u128;
    if xa > u64::MAX as u128 || ya > u64::MAX as u128 {
        return Err(CurveError::Overflow);
    }
    Ok(XYAmounts { x: xa as u64, y: ya as u64 })
}

/// The reserve pair a withdrawal of `a` liquidity units returns from a pool
/// holding reserves `x` and `y` against a supply of `l`: each reserve
/// shrinks to the scaled ratio `(l - a) * 10^p / l` of itself, rounded
/// toward zero, and the caller receives what leaves.
pub open spec fn spec_withdraw_amounts(x: u64, y: u64, l: u64, a: u64, precision: u8) -> Result<
    XYAmounts,
    CurveError,
> {
    if precision > MAX_PRECISION {
        Err(CurveError::InvalidPrecision)
    } else if l == 0 {
        Err(CurveError::ZeroSupply)
    } else if a > l {
        Err(CurveError::InsufficientBalance)
    } else {
        let s = pow10(precision as nat) as int;
        let ratio = (l - a) * s / (l as int);
        let xa = x - (x as int) * ratio / s;
        let ya = y - (y as int) * ratio / s;
        Ok(XYAmounts { x: xa as u64, y: ya as u64 })
    }
}

/// Compute the reserve pair of [`spec_withdraw_amounts`].
pub fn xy_withdraw_amounts_from_l(x: u64, y: u64, l: u64, a: u64, precision: u8) -> (r: Result<
    XYAmounts,
    CurveError,
>)
    ensures
        r == spec_withdraw_amounts(x, y, l, a, precision),
{
    if precision > MAX_PRECISION {
        return Err(CurveError::InvalidPrecision);
    }
    if l == 0 {
        return Err(CurveError::ZeroSupply);
    }
    if a > l {
        return Err(CurveError::InsufficientBalance);
    }
    let s64 = pow10_u64(precision);
    let s: u128 = s64 as u128;
    proof {
        lemma_mul_upper_bound((l - a) as int, u64::MAX as int, s as int, 1_000_000_000_000);
    }
    let num: u128 = ((l - a) as u128) * s;
    let ratio: u128 = num / (l as u128);
    proof {
        lemma_shrink_ratio_at_most_scale(l, a, s as int);
        lemma_mul_upper_bound(x as int, u64::MAX as int, ratio as int, 1_000_000_000_000);
        lemma_mul_upper_bound(y as int, u64::MAX as int, ratio as int, 1_000_000_000_000);
        lemma_scaled_quotient_upper(x, ratio as int, s as int);
        lemma_scaled_quotient_upper(y, ratio as int, s as int);
    }
    let keep_x: u128 = (x as u128 * ratio) / s;
    let keep_y: u128 = (y as u128 * ratio) / s;
    let xa: u64 = x - (keep_x as u64);
    let ya: u64 = y - (keep_y as u64);
    Ok(XYAmounts { x: xa, y: ya })
}

/// The values a swap prices against, exactly as the caller supplied them:
/// the two pool figures `x` and `y`, the liquidity figure `l`, the fee in
/// basis points, and the decimal precision.
#[derive(Clone, Copy, PartialEq, Eq, Structural, Debug)]
pub struct ConstantProduct {
    pub x: u64,
    pub y: u64,
    pub l: u64,
    pub fee: u16,
    pub precision: u8,
}

/// The curve a swap prices against, or the first failing condition: the fee
/// may not exceed 10 000 basis points, and the precision (six decimal places
/// where none is given) must be one the formulas accept.
pub open spec fn spec_init(x: u64, y: u64, l: u64, fee: u16, precision: Option<u8>) -> Result<
    ConstantProduct,
    CurveError,
> {
    let p = match precision {
        Some(p) => p,
        None => 6,
    };
    if fee > crate::MAX_FEE {
        Err(CurveError::InvalidFee)
    } else if p > MAX_PRECISION {
        Err(CurveError::InvalidPrecision)
    } else {
        Ok(ConstantProduct { x, y, l, fee, precision: p })
    }
}

/// The outcome of swapping `amount` into the side `p` of the curve `cp`:
/// the fee, `amount * fee / 10 000` rounded toward zero, stays out of the
/// pricing; the paying figure grows by the fee-reduced input; the other
/// figure falls to the constant-product quotient `x * y / new_in`, rounded
/// toward zero.  The full `amount` makes the incoming leg, the fall of the
/// other figure the outgoing one; an outgoing leg under `min` fails.
pub open spec fn spec_swap(cp: ConstantProduct, p: LiquidityPair, amount: u64, min: u64) -> Result<
    SwapResult,
    CurveError,
> {
    if cp.fee > crate::MAX_FEE {
        Err(CurveError::InvalidFee)
    } else {
        spec_swap_checked_fee(cp, p, amount, min)
    }
}

/// The swap outcome once the fee bound holds.
pub open spec fn spec_swap_checked_fee(
    cp: ConstantProduct,
    p: LiquidityPair,
    amount: u64,
    min: u64,
) -> Result<SwapResult, CurveError> {
    let fee_amt = (amount as int) * (cp.fee as int) / 10_000;
    let in_eff = amount - fee_amt;
    let rin = if p is X {
        cp.x
    } else {
        cp.y
    };
    let rout = if p is X {
        cp.y
    } else {
        cp.x
    };
    let k = (rin as int) * (rout as int);
    let new_in = rin + in_eff;
    if new_in == 0 {
        Err(CurveError::ZeroReserve)
    } else {
        let out = rout - k / new_in;
        if out < min {
            Err(CurveError::SlippageLimitExceeded)
        } else {
            Ok(SwapResult { deposit: amount, withdraw: out as u64 })
        }
    }
}

impl ConstantProduct {
    /// Build the curve of [`spec_init`].
    pub fn init(x: u64, y: u64, l: u64, fee: u16, precision: Option<u8>) -> (r: Result<
        ConstantProduct,
        CurveError,
    >)
        ensures
            r == spec_init(x, y, l, fee, precision),
    {
        let p = match precision {
            Some(p) => p,
            None => 6,
        };
        if fee > crate::MAX_FEE {
            Err(CurveError::InvalidFee)
        } else if p > MAX_PRECISION {
            Err(CurveError::InvalidPrecision)
        } else {
            Ok(ConstantProduct { x, y, l, fee, precision: p })
        }
    }

    /// Compute the swap legs of [`spec_swap`].
    pub fn swap(&self, p: LiquidityPair, amount: u64, min: u64) -> (r: Result<
        SwapResult,
        CurveError,
    >)
        ensures
            r == spec_swap(*self, p, amount, min),
    {
        if self.fee > crate::MAX_FEE {
            return Err(CurveError::InvalidFee);
        }
        proof {
            lemma_mul_upper_bound(amount as int, u64::MAX as int, self.fee as int, 10_000);
        }
        let scaled: u128 = (amount as u128) * (self.fee as u128);
        let fee_amt: u128 = scaled / 10_000;
        proof {
            lemma_mul_inequality(self.fee as int, 10_000, amount as int);
            vstd::arithmetic::mul::lemma_mul_is_commutative(amount as int, self.fee as int);
            vstd::arithmetic::mul::lemma_mul_is_commutative(10_000, amount as int);
            lemma_multiply_divide_le(scaled as int, 10_000, amount as int);
        }
        let in_eff: u128 = amount as u128 - fee_amt;
        let (rin, rout) = match p {
            LiquidityPair::X => (self.x, self.y),
            LiquidityPair::Y => (self.y, self.x),
        };
        proof {
            lemma_mul_upper_bound(rin as int, u64::MAX as int, rout as int, u64::MAX as int);
        }
        let k: u128 = (rin as u128) * (rout as u128);
        let new_in: u128 = rin as u128 + in_eff;
        if new_in == 0 {
            return Err(CurveError::ZeroReserve);
        }
        proof {
            lemma_mul_inequality(rin as int, new_in as int, rout as int);
            lemma_multiply_divide_le(k as int, new_in as int, rout as int);
            vstd::arithmetic::mul::lemma_mul_is_commutative(new_in as int, rout as int);
        }
        let quot: u128 = k / new_in;
        let out: u64 = rout - (quot as u64);
        if out < min {
            return Err(CurveError::SlippageLimitExceeded);
        }
        Ok(SwapResult { deposit: amount, withdraw: out })
    }
}

/// The scaled growth ratio of a deposit, `(l + a) * 10^p / l`, never falls
/// below one whole step of the scale.
proof fn lemma_growth_ratio_at_least_scale(l: u64, a: u64, s: int)
    requires
        l >= 1,
        s >= 1,
    ensures
        (l + a) * s / (l as int) >= s,
{
    lemma_mul_inequality(l as int, l + a, s);
    lemma_div_is_ordered((l as int) * s, (l + a) * s, l as int);
    vstd::arithmetic::mul::lemma_mul_is_commutative(l as int, s);
    lemma_div_multiples_vanish(s, l as int);
}

/// A scaled reserve quotient never falls below the reserve itself when the
/// ratio carries at least one whole step of the scale.
proof fn lemma_scaled_quotient_lower(v: u64, ratio: int, s: int)
    requires
        s >= 1,
        ratio >= s,
    ensures
        (v as int) * ratio / s >= v,
{
    lemma_mul_inequality(s, ratio, v as int);
    vstd::arithmetic::mul::lemma_mul_is_commutative(s, v as int);
    vstd::arithmetic::mul::lemma_mul_is_commutative(ratio, v as int);
    lemma_div_is_ordered((v as int) * s, (v as int) * ratio, s);
    lemma_div_multiples_vanish(v as int, s);
    vstd::arithmetic::mul::lemma_mul_is_commutative(s, v as int);
}

/// The scaled remainder ratio of a withdrawal, `(l - a) * 10^p / l`, never
/// exceeds one whole step of the scale, and never goes negative.
proof fn lemma_shrink_ratio_at_most_scale(l: u64, a: u64, s: int)
    requires
        l >= 1,
        a <= l,
        s >= 1,
    ensures
        0 <= (l - a) * s / (l as int) <= s,
{
    vstd::arithmetic::mul::lemma_mul_nonnegative((l - a) as int, s);
    vstd::arithmetic::div_mod::lemma_div_pos_is_pos((l - a) * s, l as int);
    lemma_mul_inequality((l - a) as int, l as int, s);
    lemma_div_is_ordered((l - a) * s, (l as int) * s, l as int);
    vstd::arithmetic::mul::lemma_mul_is_commutative(l as int, s);
    lemma_div_multiples_vanish(s, l as int);
}

/// A scaled reserve quotient never exceeds the reserve itself when the
/// ratio carries at most one whole step of the scale.
proof fn lemma_scaled_quotient_upper(v: u64, ratio: int, s: int)
    requires
        s >= 1,
        0 <= ratio <= s,
    ensures
        0 <= (v as int) * ratio / s <= v,
{
    vstd::arithmetic::mul::lemma_mul_nonnegative(v as int, ratio);
    vstd::arithmetic::div_mod::lemma_div_pos_is_pos((v as int) * ratio, s);
    lemma_mul_inequality(ratio, s, v as int);
    vstd::arithmetic::mul::lemma_mul_is_commutative(ratio, v as int);
    vstd::arithmetic::mul::lemma_mul_is_commutative(s, v as int);
    lemma_div_is_ordered((v as int) * ratio, (v as int) * s, s);
    lemma_div_multiples_vanish(v as int, s);
}

} // verus!
