//! Checked floor division on signed integers: the quotient rounded toward
//! negative infinity, or `None` on division by zero or overflow.
use vstd::prelude::*;
use crate::error::{ErrorCode, TYieldResult};
use crate::math::int_spec::{floor_div_int, trunc_div, lemma_signed_rounding};

verus! {

/// Division that rounds the exact quotient down to the nearest integer.
pub trait CheckedFloorDiv: Sized {
    /// The largest integer at or below `self / rhs`; `None` when `rhs` is zero
    /// or the quotient does not fit the type.
    fn checked_floor_div(&self, rhs: Self) -> Option<Self>;
}

impl CheckedFloorDiv for i128 {
    fn checked_floor_div(&self, rhs: i128) -> (r: Option<i128>)
        ensures
            r == (if rhs == 0 || trunc_div(*self as int, rhs as int) > i128::MAX {
                None
            } else {
                Some(floor_div_int(*self as int, rhs as int) as i128)
            }),
    {
        if rhs != 0 {
            proof {
                lemma_signed_rounding(*self as int, rhs as int, i128::MIN as int, i128::MAX as int);
            }
        }
        let quotient = self.checked_div(rhs)?;
        let remainder = self.checked_rem(rhs)?;
        if remainder != 0 && ((remainder > 0) != (rhs > 0)) {
            quotient.checked_sub(1)
        } else {
            Some(quotient)
        }
    }
}

impl CheckedFloorDiv for i64 {
    fn checked_floor_div(&self, rhs: i64) -> (r: Option<i64>)
        ensures
            r == (if rhs == 0 || trunc_div(*self as int, rhs as int) > i64::MAX {
                None
            } else {
                Some(floor_div_int(*self as int, rhs as int) as i64)
            }),
    {
        if rhs != 0 {
            proof {
                lemma_signed_rounding(*self as int, rhs as int, i64::MIN as int, i64::MAX as int);
            }
        }
        let quotient = self.checked_div(rhs)?;
        let remainder = self.checked_rem(rhs)?;
        if remainder != 0 && ((remainder > 0) != (rhs > 0)) {
            quotient.checked_sub(1)
        } else {
            Some(quotient)
        }
    }
}

impl CheckedFloorDiv for i32 {
    fn checked_floor_div(&self, rhs: i32) -> (r: Option<i32>)
        ensures
            r == (if rhs == 0 || trunc_div(*self as int, rhs as int) > i32::MAX {
                None
            } else {
                Some(floor_div_int(*self as int, rhs as int) as i32)
            }),
    {
        if rhs != 0 {
            proof {
                lemma_signed_rounding(*self as int, rhs as int, i32::MIN as int, i32::MAX as int);
            }
        }
        let quotient = self.checked_div(rhs)?;
        let remainder = self.checked_rem(rhs)?;
        if remainder != 0 && ((remainder > 0) != (rhs > 0)) {
            quotient.checked_sub(1)
        } else {
            Some(quotient)
        }
    }
}

impl CheckedFloorDiv for i16 {
    fn checked_floor_div(&self, rhs: i16) -> (r: Option<i16>)
        ensures
            r == (if rhs == 0 || trunc_div(*self as int, rhs as int) > i16::MAX {
                None
            } else {
                Some(floor_div_int(*self as int, rhs as int) as i16)
            }),
    {
        if rhs != 0 {
            proof {
                lemma_signed_rounding(*self as int, rhs as int, i16::MIN as int, i16::MAX as int);
            }
        }
        let quotient = self.checked_div(rhs)?;
        let remainder = self.checked_rem(rhs)?;
        if remainder != 0 && ((remainder > 0) != (rhs > 0)) {
            quotient.checked_sub(1)
        } else {
            Some(quotient)
        }
    }
}

impl CheckedFloorDiv for i8 {
    fn checked_floor_div(&self, rhs: i8) -> (r: Option<i8>)
        ensures
            r == (if rhs == 0 || trunc_div(*self as int, rhs as int) > i8::MAX {
                None
            } else {
                Some(floor_div_int(*self as int, rhs as int) as i8)
            }),
    {
        if rhs != 0 {
            proof {
                lemma_signed_rounding(*self as int, rhs as int, i8::MIN as int, i8::MAX as int);
            }
        }
        let quotient = self.checked_div(rhs)?;
        let remainder = self.checked_rem(rhs)?;
        if remainder != 0 && ((remainder > 0) != (rhs > 0)) {
            quotient.checked_sub(1)
        } else {
            Some(quotient)
        }
    }
}

/// Shows a floor division that cannot fail: -7 / 3 rounded down.
pub fn example_floor_div_usage() -> (r: TYieldResult<()>)
    ensures
        r == Ok::<(), ErrorCode>(()),
{
    proof {
        lemma_signed_rounding(-7, 3, i64::MIN as int, i64::MAX as int);
    }
    let result = (-7i64).checked_floor_div(3);
    assert(result == Some(-3i64));
    match result {
        Some(_) => Ok(()),
        None => Err(ErrorCode::MathError),
    }
}

} // verus!
