//! Relative differences expressed in basis points (10_000 is 100%).
use vstd::prelude::*;
use crate::error::{ErrorCode, TYieldResult};
use crate::math::constants::PERCENTAGE_PRECISION_U64;
use crate::math::safe_math::SafeMath;

verus! {

/// `|a - b|`.
pub open spec fn abs_diff(a: int, b: int) -> int {
    if a >= b {
        a - b
    } else {
        b - a
    }
}

/// `diff * 10_000 / base`, rounded down, computed in `u64`: `MathError` when
/// the product overflows or the base is zero.
pub open spec fn ratio_bps(diff: int, base: int) -> Result<u64, ErrorCode> {
    if diff * 10_000 > u64::MAX || base == 0 {
        Err(ErrorCode::MathError)
    } else {
        Ok((diff * 10_000 / base) as u64)
    }
}

/// How far `a` is from `b`, in basis points of `base`.
pub fn deviation_bps(a: u64, b: u64, base: u64) -> (r: TYieldResult<u64>)
    ensures
        r == ratio_bps(abs_diff(a as int, b as int), base as int),
{
    let diff = if a >= b {
        a - b
    } else {
        b - a
    };
    diff.safe_mul(PERCENTAGE_PRECISION_U64)?.safe_div(base)
}

/// `conf * 10_000 / price` in `u128`, where the product cannot overflow.
pub open spec fn conf_ratio(conf: u64, price: u128) -> int {
    (conf * 10_000) / (price as int)
}

/// The confidence interval of a price, in basis points of the price.
pub fn conf_ratio_bps(conf: u64, price: u128) -> (r: u128)
    requires
        price != 0,
    ensures
        r == conf_ratio(conf, price),
{
    (conf as u128) * 10_000 / price
}


/// A ratio in basis points is the share rounded down: for a positive base
/// and a non-negative difference whose product with 10_000 fits a `u64`, the
/// ratio `r` is the one with `r * base <= diff * 10_000 < (r + 1) * base`.
pub proof fn lemma_ratio_bps_is_floor_share(diff: int, base: int)
    requires
        diff >= 0,
        base > 0,
        diff * 10_000 <= u64::MAX,
    ensures
        ratio_bps(diff, base) matches Ok(r) && r * base <= diff * 10_000 < (r + 1) * base,
{
    let q = (diff * 10_000) / base;
    assert(q * base <= diff * 10_000 < (q + 1) * base && 0 <= q <= diff * 10_000) by (nonlinear_arith)
        requires
            diff >= 0,
            base > 0,
            q == (diff * 10_000) / base,
    ;
}
} // verus!
