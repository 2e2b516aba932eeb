//! Checked ceiling division: the quotient rounded up, or `None` on division
//! by zero or overflow.
use vstd::prelude::*;
use crate::math::int_spec::{ceil_div_int, trunc_div, lemma_unsigned_rounding, lemma_signed_rounding};
use crate::error::{ErrorCode, TYieldResult};

verus! {

/// Division that rounds the exact quotient up to the nearest integer.
pub trait CheckedCeilDiv: Sized {
    /// The smallest integer at or above `self / rhs`; `None` when `rhs` is zero
    /// or the quotient does not fit the type.
    fn checked_ceil_div(&self, rhs: Self) -> Option<Self>;
}

impl CheckedCeilDiv for u128 {
    fn checked_ceil_div(&self, rhs: u128) -> (r: Option<u128>)
        ensures
            r == (if rhs == 0 {
                None
            } else {
                Some(ceil_div_int(*self as int, rhs as int) as u128)
            }),
    {
        if rhs != 0 {
            proof {
                lemma_unsigned_rounding(*self as int, rhs as int);
            }
        }
        let quotient = self.checked_div(rhs)?;
        let remainder = self.checked_rem(rhs)?;
        if remainder > 0 {
            quotient.checked_add(1)
        } else {
            Some(quotient)
        }
    }
}

impl CheckedCeilDiv for u64 {
    fn checked_ceil_div(&self, rhs: u64) -> (r: Option<u64>)
        ensures
            r == (if rhs == 0 {
                None
            } else {
                Some(ceil_div_int(*self as int, rhs as int) as u64)
            }),
    {
        if rhs != 0 {
            proof {
                lemma_unsigned_rounding(*self as int, rhs as int);
            }
        }
        let quotient = self.checked_div(rhs)?;
        let remainder = self.checked_rem(rhs)?;
        if remainder > 0 {
            quotient.checked_add(1)
        } else {
            Some(quotient)
        }
    }
}

impl CheckedCeilDiv for u32 {
    fn checked_ceil_div(&self, rhs: u32) -> (r: Option<u32>)
        ensures
            r == (if rhs == 0 {
                None
            } else {
                Some(ceil_div_int(*self as int, rhs as int) as u32)
            }),
    {
        if rhs != 0 {
            proof {
                lemma_unsigned_rounding(*self as int, rhs as int);
            }
        }
        let quotient = self.checked_div(rhs)?;
        let remainder = self.checked_rem(rhs)?;
        if remainder > 0 {
            quotient.checked_add(1)
        } else {
            Some(quotient)
        }
    }
}

impl CheckedCeilDiv for u16 {
    fn checked_ceil_div(&self, rhs: u16) -> (r: Option<u16>)
        ensures
            r == (if rhs == 0 {
                None
            } else {
                Some(ceil_div_int(*self as int, rhs as int) as u16)
            }),
    {
        if rhs != 0 {
            proof {
                lemma_unsigned_rounding(*self as int, rhs as int);
            }
        }
        let quotient = self.checked_div(rhs)?;
        let remainder = self.checked_rem(rhs)?;
        if remainder > 0 {
            quotient.checked_add(1)
        } else {
            Some(quotient)
        }
    }
}

impl CheckedCeilDiv for u8 {
    fn checked_ceil_div(&self, rhs: u8) -> (r: Option<u8>)
        ensures
            r == (if rhs == 0 {
                None
            } else {
                Some(ceil_div_int(*self as int, rhs as int) as u8)
            }),
    {
        if rhs != 0 {
            proof {
                lemma_unsigned_rounding(*self as int, rhs as int);
            }
        }
        let quotient = self.checked_div(rhs)?;
        let remainder = self.checked_rem(rhs)?;
        if remainder > 0 {
            quotient.checked_add(1)
        } else {
            Some(quotient)
        }
    }
}

impl CheckedCeilDiv for i128 {
    fn checked_ceil_div(&self, rhs: i128) -> (r: Option<i128>)
        ensures
            r == (if rhs == 0 || trunc_div(*self as int, rhs as int) > i128::MAX
                || ceil_div_int(*self as int, rhs as int) > i128::MAX {
                None
            } else {
                Some(ceil_div_int(*self as int, rhs as int) as i128)
            }),
    {
        if rhs != 0 {
            proof {
                lemma_signed_rounding(*self as int, rhs as int, i128::MIN as int, i128::MAX as int);
            }
        }
        let quotient = self.checked_div(rhs)?;
        let remainder = self.checked_rem(rhs)?;
        if remainder != 0 && ((remainder > 0) == (rhs > 0)) {
            quotient.checked_add(1)
        } else {
            Some(quotient)
        }
    }
}

impl CheckedCeilDiv for i64 {
    fn checked_ceil_div(&self, rhs: i64) -> (r: Option<i64>)
        ensures
            r == (if rhs == 0 || trunc_div(*self as int, rhs as int) > i64::MAX
                || ceil_div_int(*self as int, rhs as int) > i64::MAX {
                None
            } else {
                Some(ceil_div_int(*self as int, rhs as int) as i64)
            }),
    {
        if rhs != 0 {
            proof {
                lemma_signed_rounding(*self as int, rhs as int, i64::MIN as int, i64::MAX as int);
            }
        }
        let quotient = self.checked_div(rhs)?;
        let remainder = self.checked_rem(rhs)?;
        if remainder != 0 && ((remainder > 0) == (rhs > 0)) {
            quotient.checked_add(1)
        } else {
            Some(quotient)
        }
    }
}

impl CheckedCeilDiv for i32 {
    fn checked_ceil_div(&self, rhs: i32) -> (r: Option<i32>)
        ensures
            r == (if rhs == 0 || trunc_div(*self as int, rhs as int) > i32::MAX
                || ceil_div_int(*self as int, rhs as int) > i32::MAX {
                None
            } else {
                Some(ceil_div_int(*self as int, rhs as int) as i32)
            }),
    {
        if rhs != 0 {
            proof {
                lemma_signed_rounding(*self as int, rhs as int, i32::MIN as int, i32::MAX as int);
            }
        }
        let quotient = self.checked_div(rhs)?;
        let remainder = self.checked_rem(rhs)?;
        if remainder != 0 && ((remainder > 0) == (rhs > 0)) {
            quotient.checked_add(1)
        } else {
            Some(quotient)
        }
    }
}

impl CheckedCeilDiv for i16 {
    fn checked_ceil_div(&self, rhs: i16) -> (r: Option<i16>)
        ensures
            r == (if rhs == 0 || trunc_div(*self as int, rhs as int) > i16::MAX
                || ceil_div_int(*self as int, rhs as int) > i16::MAX {
                None
            } else {
                Some(ceil_div_int(*self as int, rhs as int) as i16)
            }),
    {
        if rhs != 0 {
            proof {
                lemma_signed_rounding(*self as int, rhs as int, i16::MIN as int, i16::MAX as int);
            }
        }
        let quotient = self.checked_div(rhs)?;
        let remainder = self.checked_rem(rhs)?;
        if remainder != 0 && ((remainder > 0) == (rhs > 0)) {
            quotient.checked_add(1)
        } else {
            Some(quotient)
        }
    }
}

impl CheckedCeilDiv for i8 {
    fn checked_ceil_div(&self, rhs: i8) -> (r: Option<i8>)
        ensures
            r == (if rhs == 0 || trunc_div(*self as int, rhs as int) > i8::MAX
                || ceil_div_int(*self as int, rhs as int) > i8::MAX {
                None
            } else {
                Some(ceil_div_int(*self as int, rhs as int) as i8)
            }),
    {
        if rhs != 0 {
            proof {
                lemma_signed_rounding(*self as int, rhs as int, i8::MIN as int, i8::MAX as int);
            }
        }
        let quotient = self.checked_div(rhs)?;
        let remainder = self.checked_rem(rhs)?;
        if remainder != 0 && ((remainder > 0) == (rhs > 0)) {
            quotient.checked_add(1)
        } else {
            Some(quotient)
        }
    }
}

/// Shows a ceiling division that cannot fail: 7 / 3 rounded up.
pub fn example_ceil_div_usage() -> (r: TYieldResult<()>)
    ensures
        r == Ok::<(), ErrorCode>(()),
{
    proof {
        lemma_unsigned_rounding(7, 3);
    }
    let result = 7u64.checked_ceil_div(3);
    assert(result == Some(3u64));
    match result {
        Some(_) => Ok(()),
        None => Err(ErrorCode::MathError),
    }
}

} // verus!
