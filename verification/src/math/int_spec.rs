//! Integer-level definitions of the rounding rules used by the checked division
//! operations: truncating division, its remainder, and the ceiling and floor
//! quotients derived from them.
use vstd::prelude::*;
use vstd::arithmetic::div_mod::{lemma_div_is_ordered_by_denominator, lemma_div_pos_is_pos, lemma_mod_pos_bound, lemma_fundamental_div_mod};

verus! {

/// Absolute value of a mathematical integer.
pub open spec fn abs_int(x: int) -> int {
    if x < 0 {
        -x
    } else {
        x
    }
}

/// Quotient of division rounded toward zero (Rust's `/` on integers).
pub open spec fn trunc_div(x: int, d: int) -> int {
    let q = abs_int(x) / abs_int(d);
    if (x >= 0) == (d > 0) {
        q
    } else {
        -q
    }
}

/// Remainder that goes with `trunc_div`: it has the sign of the dividend.
pub open spec fn trunc_rem(x: int, d: int) -> int {
    if x >= 0 {
        abs_int(x) % abs_int(d)
    } else {
        -(abs_int(x) % abs_int(d))
    }
}

/// The smallest integer at or above the exact quotient `x / d`.
pub open spec fn ceil_div_int(x: int, d: int) -> int {
    if trunc_rem(x, d) != 0 && ((x > 0) == (d > 0)) {
        trunc_div(x, d) + 1
    } else {
        trunc_div(x, d)
    }
}

/// The largest integer at or below the exact quotient `x / d`.
pub open spec fn floor_div_int(x: int, d: int) -> int {
    if trunc_rem(x, d) != 0 && ((x > 0) != (d > 0)) {
        trunc_div(x, d) - 1
    } else {
        trunc_div(x, d)
    }
}

/// Sign of an integer: -1, 0 or 1.
pub open spec fn signum_int(x: int) -> int {
    if x > 0 {
        1
    } else if x < 0 {
        -1
    } else {
        0
    }
}

/// A quotient whose division left a remainder is at most half the dividend,
/// so adding one to it stays within the dividend.
pub proof fn lemma_quotient_plus_one_bounded(x: int, d: int)
    requires
        0 <= x,
        0 < d,
        x % d != 0,
    ensures
        x / d + 1 <= x,
        d >= 2,
{
    lemma_mod_pos_bound(x, d);
    lemma_fundamental_div_mod(x, d);
    if d == 1 {
        assert(x % d == 0) by (nonlinear_arith)
            requires
                d == 1,
                x == d * (x / d) + x % d,
                0 <= x % d < d,
        ;
    }
    lemma_div_is_ordered_by_denominator(x, 2, d);
    assert(x / 2 + 1 <= x || x / d == 0) by (nonlinear_arith)
        requires
            x >= 1,
    ;
}

/// For a non-negative dividend and positive divisor, the truncating rules are
/// Euclidean division and the ceiling adds one exactly when a remainder is left.
pub proof fn lemma_unsigned_rounding(x: int, d: int)
    requires
        0 <= x,
        0 < d,
    ensures
        trunc_div(x, d) == x / d,
        trunc_rem(x, d) == x % d,
        ceil_div_int(x, d) == x / d + (if x % d > 0 { 1int } else { 0int }),
        floor_div_int(x, d) == x / d,
        x % d > 0 ==> x / d + 1 <= x,
        0 <= x / d <= x,
{
    lemma_mod_pos_bound(x, d);
    lemma_div_pos_is_pos(x, d);
    lemma_div_is_ordered_by_denominator(x, 1, d);
    if x % d > 0 {
        lemma_quotient_plus_one_bounded(x, d);
    }
}

/// The truncating rules agree with the case split that the standard library's
/// checked division and remainder use, and rounding a quotient that left a
/// remainder one step away from zero stays within the type's range.
pub proof fn lemma_signed_rounding(x: int, d: int, min: int, max: int)
    requires
        d != 0,
        min <= x <= max,
        max == -min - 1,
        max >= 3,
    ensures
        d == 1 ==> trunc_div(x, d) == x,
        d == -1 ==> trunc_div(x, d) == -x,
        trunc_div(x, d) == (if x == 0 {
            0
        } else if x > 0 && d > 0 {
            x / d
        } else if x < 0 && d < 0 {
            (x * -1) / (d * -1)
        } else if x < 0 {
            ((x * -1) / d) * -1
        } else {
            (x / (d * -1)) * -1
        }),
        trunc_rem(x, d) == (if x == 0 {
            0
        } else if x > 0 && d > 0 {
            x % d
        } else if x < 0 && d < 0 {
            ((x * -1) % (d * -1)) * -1
        } else if x < 0 {
            ((x * -1) % d) * -1
        } else {
            x % (d * -1)
        }),
        min <= trunc_div(x, d),
        trunc_rem(x, d) != 0 ==> min + 1 <= trunc_div(x, d) && trunc_div(x, d) + 1 <= max,
{
    let ax = abs_int(x);
    let ad = abs_int(d);
    lemma_mod_pos_bound(ax, ad);
    lemma_div_pos_is_pos(ax, ad);
    lemma_div_is_ordered_by_denominator(ax, 1, ad);
    if ax % ad != 0 {
        lemma_quotient_plus_one_bounded(ax, ad);
        lemma_div_is_ordered_by_denominator(ax, 2, ad);
        assert(ax / 2 + 1 <= max) by (nonlinear_arith)
            requires
                0 <= ax <= max + 1,
                max >= 3,
        ;
    }
    if ad == 1 {
        assert(ax / ad == ax);
    }
}

/// A truncating quotient of a 64-bit dividend fits 64 bits, except for the
/// one overflowing case `i64::MIN / -1`.
pub proof fn lemma_trunc_div_i64_fits(x: int, d: int)
    requires
        d != 0,
        i64::MIN <= x <= i64::MAX,
        !(x == i64::MIN && d == -1),
    ensures
        i64::MIN <= trunc_div(x, d) <= i64::MAX,
{
    lemma_signed_rounding(x, d, i64::MIN as int, i64::MAX as int);
    let ax = abs_int(x);
    let ad = abs_int(d);
    lemma_div_is_ordered_by_denominator(ax, 1, ad);
    if ad >= 2 {
        lemma_div_is_ordered_by_denominator(ax, 2, ad);
    }
}

} // verus!
