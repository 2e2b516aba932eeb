//! Numeric helpers: rounding to a step, proportions of a value, the wait
//! before an on-the-hour update, and integer base-10 logarithms.
use vstd::prelude::*;
use crate::error::{ErrorCode, TYieldResult};
use crate::math::bn::{mul_div_u128, wide_mul_div};
use crate::math::int_spec::signum_int;
use crate::math::power::pow10;
use crate::math::safe_math::SafeMath;
use crate::math::safe_unwrap::SafeUnwrap;

verus! {

/// `|v|`.
pub open spec fn abs_i128(v: i128) -> nat {
    if v >= 0 {
        v as nat
    } else {
        (-v) as nat
    }
}

/// `|v|` as a `u128`, as `i128::unsigned_abs` gives it.
fn unsigned_abs_i128(v: i128) -> (r: u128)
    ensures
        r == abs_i128(v),
{
    if v >= 0 {
        v as u128
    } else {
        ((-(v + 1)) as u128) + 1
    }
}

/// The sign of `v` as -1, 0 or 1.
fn signum_i128(v: i128) -> (r: i128)
    ensures
        r == signum_int(v as int),
{
    if v > 0 {
        1
    } else if v < 0 {
        -1
    } else {
        0
    }
}

/// `value` split into a multiple of `step_size` (toward zero) and the rest,
/// both with the sign of `value`: `MathError` for a zero step,
/// `CastingFailure` when the rest does not fit an `i128`.
pub open spec fn standardized(value: i128, step_size: u128) -> Result<(i128, i128), ErrorCode> {
    let rest = abs_i128(value) % (step_size as nat);
    if step_size == 0 {
        Err(ErrorCode::MathError)
    } else if rest > i128::MAX {
        Err(ErrorCode::CastingFailure)
    } else {
        let signed_rest = rest * signum_int(value as int);
        Ok(((value - signed_rest) as i128, signed_rest as i128))
    }
}

/// A standardized value is split exactly: the two parts add up to the value,
/// the rest is smaller than the step and has the value's sign, and the first
/// part is a whole number of steps.
pub proof fn lemma_standardized_parts(value: i128, step_size: u128)
    requires
        standardized(value, step_size) is Ok,
    ensures
        ({
            let (whole, rest) = standardized(value, step_size)->Ok_0;
            &&& whole + rest == value
            &&& abs_i128(rest) < step_size
            &&& rest * signum_int(value as int) >= 0
            &&& (whole as int) % (step_size as int) == 0
        }),
{
    let m = abs_i128(value);
    let st = step_size as nat;
    let rest = m % st;
    let q = m / st;
    assert(m == q * st + rest && rest < st) by (nonlinear_arith)
        requires
            st > 0,
            rest == m % st,
            q == m / st,
    ;
    let whole = value - rest * signum_int(value as int);
    if value >= 0 {
        assert(whole == q * st);
    } else {
        assert(whole == -(q * st));
    }
    assert(((q * st) as int) % (st as int) == 0) by (nonlinear_arith)
        requires
            st > 0,
    ;
    vstd::arithmetic::div_mod::lemma_mod_multiples_basic(-(q as int), st as int);
    assert(-((q * st) as int) == (-(q as int)) * (st as int)) by (nonlinear_arith);
}

/// Splits `value` into a multiple of `step_size` and the rest (see
/// `standardized`).
pub fn standardize_value_with_remainder_i128(value: i128, step_size: u128) -> (r: TYieldResult<
    (i128, i128),
>)
    ensures
        r == standardized(value, step_size),
{
    let magnitude = unsigned_abs_i128(value);
    let rest = match magnitude.checked_rem_euclid(step_size) {
        Some(x) => x,
        None => {
            return Err(ErrorCode::MathError);
        },
    };
    if rest > i128::MAX as u128 {
        return Err(ErrorCode::CastingFailure);
    }
    let remainder = (rest as i128).safe_mul(signum_i128(value))?;
    proof {
        if step_size > 0 {
            vstd::arithmetic::div_mod::lemma_mod_decreases(abs_i128(value), step_size as nat);
        }
    }
    assert(0 <= rest <= abs_i128(value));
    let standardized_value = value.safe_sub(remainder)?;
    Ok((standardized_value, remainder))
}

/// `value * numerator / denominator` rounded down, computed by the branch the
/// values select: unchanged for equal numerator and denominator, through a
/// wide product for large operands, through the complement for a ratio above
/// one half, and directly otherwise. `MathError` on overflow or a zero
/// denominator, `CastingFailure` on a result or intermediate that does not fit.
pub open spec fn proportion_u128(value: u128, numerator: u128, denominator: u128) -> Result<u128, ErrorCode> {
    if numerator == denominator {
        Ok(value)
    } else if value >= u64::MAX || numerator >= u64::MAX {
        wide_mul_div(value, numerator, denominator)
    } else if numerator > denominator / 2 && denominator > numerator {
        let x = value * (denominator - numerator);
        if x > u128::MAX {
            Err(ErrorCode::MathError)
        } else if x > i128::MAX {
            Err(ErrorCode::CastingFailure)
        } else {
            Ok((value * numerator / (denominator as int)) as u128)
        }
    } else if value * numerator > u128::MAX || denominator == 0 {
        Err(ErrorCode::MathError)
    } else {
        Ok((value * numerator / (denominator as int)) as u128)
    }
}

/// Rounding the complement up gives the proportion rounded down:
/// `v - ceil(v * (d - n) / d) == floor(v * n / d)`.
proof fn lemma_complement_rounding(v: int, n: int, d: int)
    requires
        0 <= n < d,
        v >= 0,
    ensures
        v - (v * (d - n)) / d - (if (v * (d - n)) % d > 0 {
            1int
        } else {
            0int
        }) == (v * n) / d,
        (v * (d - n)) / d <= v,
{
    let x = v * (d - n);
    let q = x / d;
    let r = x % d;
    vstd::arithmetic::div_mod::lemma_fundamental_div_mod(x, d);
    vstd::arithmetic::div_mod::lemma_mod_pos_bound(x, d);
    assert(v * n == (v - q) * d - r) by (nonlinear_arith)
        requires
            x == v * (d - n),
            x == d * q + r,
    ;
    assert(q <= v) by (nonlinear_arith)
        requires
            x == v * (d - n),
            x == d * q + r,
            0 <= r,
            0 < d,
            d - n <= d,
            v >= 0,
            n >= 0,
    ;
    if r == 0 {
        vstd::arithmetic::div_mod::lemma_div_by_multiple(v - q, d);
        assert(((v - q) * d) / d == v - q);
    } else {
        assert(v * n == (v - q - 1) * d + (d - r)) by (nonlinear_arith)
            requires
                v * n == (v - q) * d - r,
        ;
        vstd::arithmetic::div_mod::lemma_fundamental_div_mod_converse(v * n, d, v - q - 1, d - r);
    }
    assert(q <= v) by (nonlinear_arith)
        requires
            x == v * (d - n),
            x == d * q + r,
            0 <= r,
            0 < d,
            d - n <= d,
            v >= 0,
            n >= 0,
    ;
}

/// The proportion `value * numerator / denominator` (see `proportion_u128`).
pub fn get_proportion_u128(value: u128, numerator: u128, denominator: u128) -> (r: TYieldResult<
    u128,
>)
    ensures
        r == proportion_u128(value, numerator, denominator),
{
    let large_constant = u64::MAX as u128;
    if numerator == denominator {
        Ok(value)
    } else if value >= large_constant || numerator >= large_constant {
        mul_div_u128(value, numerator, denominator)
    } else if numerator > denominator / 2 && denominator > numerator {
        let complement = value.safe_mul(denominator.safe_sub(numerator)?)?;
        if complement > i128::MAX as u128 {
            return Err(ErrorCode::CastingFailure);
        }
        let (std_value, r) = standardize_value_with_remainder_i128(complement as i128, denominator)?;
        proof {
            lemma_complement_rounding(value as int, numerator as int, denominator as int);
        }
        let whole = (std_value as u128).safe_div(denominator)?;
        let rounded_up: u128 = if r > 0 {
            1
        } else {
            0
        };
        proof {
            let x = complement as int;
            vstd::arithmetic::div_mod::lemma_fundamental_div_mod(x, denominator as int);
            vstd::arithmetic::div_mod::lemma_mod_pos_bound(x, denominator as int);
            vstd::arithmetic::div_mod::lemma_div_by_multiple(x / (denominator as int), denominator as int);
            assert((x - x % (denominator as int)) == (x / (denominator as int)) * denominator) by (nonlinear_arith)
                requires
                    x == denominator * (x / (denominator as int)) + x % (denominator as int),
            ;
        }
        value.safe_sub(whole)?.safe_sub(rounded_up)
    } else {
        value.safe_mul(numerator)?.safe_div(denominator)
    }
}

/// The proportion of a signed value: the proportion of its magnitude with its
/// sign, `CastingFailure` when that does not fit an `i128`.
pub fn get_proportion_i128(value: i128, numerator: u128, denominator: u128) -> (r: TYieldResult<i128>)
    ensures
        r == (match proportion_u128(abs_i128(value) as u128, numerator, denominator) {
            Err(e) => Err(e),
            Ok(p) => if p > i128::MAX {
                Err(ErrorCode::CastingFailure)
            } else {
                Ok((p * signum_int(value as int)) as i128)
            },
        }),
{
    let proportional_u128 = get_proportion_u128(unsigned_abs_i128(value), numerator, denominator)?;
    if proportional_u128 > i128::MAX as u128 {
        return Err(ErrorCode::CastingFailure);
    }
    let proportional_value = (proportional_u128 as i128).safe_mul(signum_i128(value))?;
    Ok(proportional_value)
}

/// Whenever a proportion is computed it is the exact proportion rounded down.
pub proof fn lemma_proportion_is_floor(value: u128, numerator: u128, denominator: u128)
    requires
        denominator > 0,
        proportion_u128(value, numerator, denominator) is Ok,
    ensures
        proportion_u128(value, numerator, denominator) == Ok::<u128, ErrorCode>(
            (value * numerator / (denominator as int)) as u128,
        ),
{
    if numerator == denominator {
        vstd::arithmetic::div_mod::lemma_div_by_multiple(value as int, denominator as int);
        assert(value * numerator == value * denominator);
    }
}

/// The wait before the next update: one period, or, when the last update was
/// off the period's boundary, until the next boundary (or the one after when
/// the last update was more than a third of a period late), less the time
/// already passed, and never below zero.
pub open spec fn hour_wait(now: i64, last_update_ts: i64, update_period: i64) -> Result<i64, ErrorCode> {
    let since = now - last_update_ts;
    let delay = last_update_ts % update_period;
    let two = update_period * 2;
    let wait: Result<int, ErrorCode> = if update_period > 1 && delay != 0 {
        if two > i64::MAX {
            Err(ErrorCode::MathError)
        } else {
            let w = if delay > update_period / 3 {
                two - delay
            } else {
                update_period - delay
            };
            Ok(
                if w > two {
                    w - update_period
                } else {
                    w
                },
            )
        }
    } else {
        Ok(update_period as int)
    };
    if !(i64::MIN <= since <= i64::MAX) {
        Err(ErrorCode::MathError)
    } else {
        match wait {
            Err(e) => Err(e),
            Ok(w) => if !(i64::MIN <= w - since <= i64::MAX) {
                Err(ErrorCode::MathError)
            } else if w - since > 0 {
                Ok((w - since) as i64)
            } else {
                Ok(0)
            },
        }
    }
}

/// Whether `t` is the next on-the-hour update time after an update at
/// `last`: the least multiple of `period` at or after
/// `last + period - period / 3`.
pub open spec fn is_next_update_time(t: int, last: int, period: int) -> bool {
    let earliest = last + period - period / 3;
    &&& t % period == 0
    &&& earliest <= t < earliest + period
}

/// What `on_the_hour_update` answers, stated directly: the time left until
/// the next on-the-hour update time (see `is_next_update_time`), and zero
/// once it has passed. When `now` is not before the last update, the wait is
/// at most two periods.
pub proof fn lemma_hour_wait_is_time_to_next_update(now: i64, last_update_ts: i64, update_period: i64)
    requires
        update_period >= 1,
        hour_wait(now, last_update_ts, update_period) is Ok,
    ensures
        exists|t: int|
            #![trigger is_next_update_time(t, last_update_ts as int, update_period as int)]
            is_next_update_time(t, last_update_ts as int, update_period as int) && hour_wait(
                now,
                last_update_ts,
                update_period,
            )->Ok_0 == (if t - now > 0 {
                t - now
            } else {
                0
            }),
        now >= last_update_ts ==> 0 <= hour_wait(now, last_update_ts, update_period)->Ok_0 <= 2
            * update_period,
{
    let p = update_period as int;
    let last = last_update_ts as int;
    let d = last % p;
    let q = last / p;
    let third = p / 3;
    assert(last == q * p + d && 0 <= d < p && 0 <= third && 3 * third <= p && p < 3 * third + 3)
        by (nonlinear_arith)
        requires
            p > 0,
            d == last % p,
            q == last / p,
            third == p / 3,
    ;
    vstd::arithmetic::div_mod::lemma_mod_multiples_basic(q + 1, p);
    vstd::arithmetic::div_mod::lemma_mod_multiples_basic(q + 2, p);
    assert((q + 1) * p == q * p + p && (q + 2) * p == q * p + 2 * p) by (nonlinear_arith);
    let wait: int = if p > 1 && d != 0 {
        if d > third {
            2 * p - d
        } else {
            p - d
        }
    } else {
        p
    };
    let t = last + wait;
    if p == 1 {
        assert(third == 0);
        assert(t == (q + 1) * p);
    }
    assert(is_next_update_time(t, last, p));
}

/// The wait before the next on-the-hour update (see `hour_wait`).
pub fn on_the_hour_update(now: i64, last_update_ts: i64, update_period: i64) -> (r: TYieldResult<
    i64,
>)
    ensures
        r == hour_wait(now, last_update_ts, update_period),
{
    let time_since_last_update = now.safe_sub(last_update_ts)?;
    let mut next_update_wait = update_period;
    if update_period > 1 {
        let last_update_delay = match last_update_ts.checked_rem_euclid(update_period) {
            Some(d) => d,
            None => 0,
        };
        if last_update_delay != 0 {
            let max_delay_for_next_period = update_period.safe_div(3)?;
            let two_funding_periods = update_period.safe_mul(2)?;
            if last_update_delay > max_delay_for_next_period {
                next_update_wait = two_funding_periods.safe_sub(last_update_delay)?;
            } else {
                next_update_wait = update_period.safe_sub(last_update_delay)?;
            }
            if next_update_wait > two_funding_periods {
                next_update_wait = next_update_wait.safe_sub(update_period)?;
            }
        }
    }
    let remaining = next_update_wait.safe_sub(time_since_last_update)?;
    if remaining > 0 {
        Ok(remaining)
    } else {
        Ok(0)
    }
}

/// The integer base-10 logarithm (zero below ten).
pub open spec fn log10_of(n: nat) -> nat
    decreases n,
{
    if n < 10 {
        0
    } else {
        log10_of(n / 10) + 1
    }
}

/// The integer base-10 logarithm is the integer part of `log10 n`: for
/// `n >= 1`, `10^r <= n < 10^(r + 1)` with `r = log10_of(n)`.
pub proof fn lemma_log10_bounds(n: nat)
    requires
        n >= 1,
    ensures
        pow10(log10_of(n)) <= n < pow10(log10_of(n) + 1),
    decreases n,
{
    if n < 10 {
        assert(pow10(1) == 10 * pow10(0));
    } else {
        let m = n / 10;
        lemma_log10_bounds(m);
        let l = log10_of(m);
        assert(pow10(l + 1) == 10 * pow10(l));
        assert(pow10(l + 2) == 10 * pow10(l + 1));
        assert(10 * pow10(l) <= n && n < 10 * pow10(l + 1)) by (nonlinear_arith)
            requires
                pow10(l) <= m < pow10(l + 1),
                m == n / 10,
        ;
    }
}

/// The integer base-10 logarithm, recursively.
pub fn log10(n: u128) -> (r: u128)
    ensures
        r == log10_of(n as nat),
    decreases n,
{
    proof {
        lemma_log10_small(n as nat);
        if n == 10 {
            assert(log10_of(1) == 0);
        }
    }
    if n < 10 {
        0
    } else if n == 10 {
        1
    } else {
        log10(n / 10) + 1
    }
}

/// The logarithm of `n` is below `n`, so adding one never overflows.
proof fn lemma_log10_small(n: nat)
    ensures
        log10_of(n) <= n,
        n >= 10 ==> log10_of(n) < n,
    decreases n,
{
    if n >= 10 {
        lemma_log10_small(n / 10);
    }
}

/// The integer base-10 logarithm, by repeated division.
pub fn log10_iter(n: u128) -> (r: u128)
    ensures
        r == log10_of(n as nat),
{
    let mut result: u128 = 0;
    let mut n_copy = n;
    proof {
        lemma_log10_small(n as nat);
    }
    while n_copy >= 10
        invariant
            result + log10_of(n_copy as nat) == log10_of(n as nat),
            log10_of(n as nat) <= n,
        decreases n_copy,
    {
        result += 1;
        n_copy /= 10;
    }
    result
}

/// Shows `safe_unwrap` on a value that is present.
pub fn example_safe_unwrap_usage() -> (r: TYieldResult<()>)
    ensures
        r == Ok::<(), ErrorCode>(()),
{
    let x: Option<u64> = Some(42);
    let _y = x.safe_unwrap()?;
    Ok(())
}

} // verus!
