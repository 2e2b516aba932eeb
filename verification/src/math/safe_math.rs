//! Arithmetic that reports overflow, underflow and division by zero as
//! `ErrorCode::MathError` instead of panicking or wrapping.
use vstd::prelude::*;
use crate::error::{ErrorCode, TYieldResult};
use crate::math::ceil_div::CheckedCeilDiv;
use crate::math::floor_div::CheckedFloorDiv;
use crate::math::int_spec::{ceil_div_int, floor_div_int, trunc_div, lemma_signed_rounding};

verus! {

/// Checked arithmetic that fails with `ErrorCode::MathError`.
pub trait SafeMath: Sized {
    /// `self + rhs`, or an error when the sum does not fit the type.
    fn safe_add(self, rhs: Self) -> TYieldResult<Self>;

    /// `self - rhs`, or an error when the difference does not fit the type.
    fn safe_sub(self, rhs: Self) -> TYieldResult<Self>;

    /// `self * rhs`, or an error when the product does not fit the type.
    fn safe_mul(self, rhs: Self) -> TYieldResult<Self>;

    /// `self / rhs` rounded toward zero, or an error when `rhs` is zero or the
    /// quotient does not fit the type.
    fn safe_div(self, rhs: Self) -> TYieldResult<Self>;

    /// `self / rhs` rounded up, or an error when `rhs` is zero or the quotient
    /// does not fit the type.
    fn safe_div_ceil(self, rhs: Self) -> TYieldResult<Self>;
}

/// Floor division that fails with `ErrorCode::MathError`.
pub trait SafeDivFloor: Sized {
    /// `self / rhs` rounded toward negative infinity, or an error when `rhs` is
    /// zero or the quotient does not fit the type.
    fn safe_div_floor(self, rhs: Self) -> TYieldResult<Self>;
}

impl SafeMath for u128 {
    fn safe_add(self, v: u128) -> (r: TYieldResult<u128>)
        ensures
            r == (if self + v <= u128::MAX {
                Ok((self + v) as u128)
            } else {
                Err::<u128, ErrorCode>(ErrorCode::MathError)
            }),
    {
        match self.checked_add(v) {
            Some(result) => Ok(result),
            None => Err(ErrorCode::MathError),
        }
    }

    fn safe_sub(self, v: u128) -> (r: TYieldResult<u128>)
        ensures
            r == (if self >= v {
                Ok((self - v) as u128)
            } else {
                Err::<u128, ErrorCode>(ErrorCode::MathError)
            }),
    {
        match self.checked_sub(v) {
            Some(result) => Ok(result),
            None => Err(ErrorCode::MathError),
        }
    }

    fn safe_mul(self, v: u128) -> (r: TYieldResult<u128>)
        ensures
            r == (if self * v <= u128::MAX {
                Ok((self * v) as u128)
            } else {
                Err::<u128, ErrorCode>(ErrorCode::MathError)
            }),
    {
        match self.checked_mul(v) {
            Some(result) => Ok(result),
            None => Err(ErrorCode::MathError),
        }
    }

    fn safe_div(self, v: u128) -> (r: TYieldResult<u128>)
        ensures
            r == (if v != 0 {
                Ok((self / v) as u128)
            } else {
                Err::<u128, ErrorCode>(ErrorCode::MathError)
            }),
    {
        match self.checked_div(v) {
            Some(result) => Ok(result),
            None => Err(ErrorCode::MathError),
        }
    }

    fn safe_div_ceil(self, v: u128) -> (r: TYieldResult<u128>)
        ensures
            r == (if v != 0 {
                Ok(ceil_div_int(self as int, v as int) as u128)
            } else {
                Err::<u128, ErrorCode>(ErrorCode::MathError)
            }),
    {
        match self.checked_ceil_div(v) {
            Some(result) => Ok(result),
            None => Err(ErrorCode::MathError),
        }
    }
}

impl SafeMath for u64 {
    fn safe_add(self, v: u64) -> (r: TYieldResult<u64>)
        ensures
            r == (if self + v <= u64::MAX {
                Ok((self + v) as u64)
            } else {
                Err::<u64, ErrorCode>(ErrorCode::MathError)
            }),
    {
        match self.checked_add(v) {
            Some(result) => Ok(result),
            None => Err(ErrorCode::MathError),
        }
    }

    fn safe_sub(self, v: u64) -> (r: TYieldResult<u64>)
        ensures
            r == (if self >= v {
                Ok((self - v) as u64)
            } else {
                Err::<u64, ErrorCode>(ErrorCode::MathError)
            }),
    {
        match self.checked_sub(v) {
            Some(result) => Ok(result),
            None => Err(ErrorCode::MathError),
        }
    }

    fn safe_mul(self, v: u64) -> (r: TYieldResult<u64>)
        ensures
            r == (if self * v <= u64::MAX {
                Ok((self * v) as u64)
            } else {
                Err::<u64, ErrorCode>(ErrorCode::MathError)
            }),
    {
        match self.checked_mul(v) {
            Some(result) => Ok(result),
            None => Err(ErrorCode::MathError),
        }
    }

    fn safe_div(self, v: u64) -> (r: TYieldResult<u64>)
        ensures
            r == (if v != 0 {
                Ok((self / v) as u64)
            } else {
                Err::<u64, ErrorCode>(ErrorCode::MathError)
            }),
    {
        match self.checked_div(v) {
            Some(result) => Ok(result),
            None => Err(ErrorCode::MathError),
        }
    }

    fn safe_div_ceil(self, v: u64) -> (r: TYieldResult<u64>)
        ensures
            r == (if v != 0 {
                Ok(ceil_div_int(self as int, v as int) as u64)
            } else {
                Err::<u64, ErrorCode>(ErrorCode::MathError)
            }),
    {
        match self.checked_ceil_div(v) {
            Some(result) => Ok(result),
            None => Err(ErrorCode::MathError),
        }
    }
}

impl SafeMath for u32 {
    fn safe_add(self, v: u32) -> (r: TYieldResult<u32>)
        ensures
            r == (if self + v <= u32::MAX {
                Ok((self + v) as u32)
            } else {
                Err::<u32, ErrorCode>(ErrorCode::MathError)
            }),
    {
        match self.checked_add(v) {
            Some(result) => Ok(result),
            None => Err(ErrorCode::MathError),
        }
    }

    fn safe_sub(self, v: u32) -> (r: TYieldResult<u32>)
        ensures
            r == (if self >= v {
                Ok((self - v) as u32)
            } else {
                Err::<u32, ErrorCode>(ErrorCode::MathError)
            }),
    {
        match self.checked_sub(v) {
            Some(result) => Ok(result),
            None => Err(ErrorCode::MathError),
        }
    }

    fn safe_mul(self, v: u32) -> (r: TYieldResult<u32>)
        ensures
            r == (if self * v <= u32::MAX {
                Ok((self * v) as u32)
            } else {
                Err::<u32, ErrorCode>(ErrorCode::MathError)
            }),
    {
        match self.checked_mul(v) {
            Some(result) => Ok(result),
            None => Err(ErrorCode::MathError),
        }
    }

    fn safe_div(self, v: u32) -> (r: TYieldResult<u32>)
        ensures
            r == (if v != 0 {
                Ok((self / v) as u32)
            } else {
                Err::<u32, ErrorCode>(ErrorCode::MathError)
            }),
    {
        match self.checked_div(v) {
            Some(result) => Ok(result),
            None => Err(ErrorCode::MathError),
        }
    }

    fn safe_div_ceil(self, v: u32) -> (r: TYieldResult<u32>)
        ensures
            r == (if v != 0 {
                Ok(ceil_div_int(self as int, v as int) as u32)
            } else {
                Err::<u32, ErrorCode>(ErrorCode::MathError)
            }),
    {
        match self.checked_ceil_div(v) {
            Some(result) => Ok(result),
            None => Err(ErrorCode::MathError),
        }
    }
}

impl SafeMath for u16 {
    fn safe_add(self, v: u16) -> (r: TYieldResult<u16>)
        ensures
            r == (if self + v <= u16::MAX {
                Ok((self + v) as u16)
            } else {
                Err::<u16, ErrorCode>(ErrorCode::MathError)
            }),
    {
        match self.checked_add(v) {
            Some(result) => Ok(result),
            None => Err(ErrorCode::MathError),
        }
    }

    fn safe_sub(self, v: u16) -> (r: TYieldResult<u16>)
        ensures
            r == (if self >= v {
                Ok((self - v) as u16)
            } else {
                Err::<u16, ErrorCode>(ErrorCode::MathError)
            }),
    {
        match self.checked_sub(v) {
            Some(result) => Ok(result),
            None => Err(ErrorCode::MathError),
        }
    }

    fn safe_mul(self, v: u16) -> (r: TYieldResult<u16>)
        ensures
            r == (if self * v <= u16::MAX {
                Ok((self * v) as u16)
            } else {
                Err::<u16, ErrorCode>(ErrorCode::MathError)
            }),
    {
        match self.checked_mul(v) {
            Some(result) => Ok(result),
            None => Err(ErrorCode::MathError),
        }
    }

    fn safe_div(self, v: u16) -> (r: TYieldResult<u16>)
        ensures
            r == (if v != 0 {
                Ok((self / v) as u16)
            } else {
                Err::<u16, ErrorCode>(ErrorCode::MathError)
            }),
    {
        match self.checked_div(v) {
            Some(result) => Ok(result),
            None => Err(ErrorCode::MathError),
        }
    }

    fn safe_div_ceil(self, v: u16) -> (r: TYieldResult<u16>)
        ensures
            r == (if v != 0 {
                Ok(ceil_div_int(self as int, v as int) as u16)
            } else {
                Err::<u16, ErrorCode>(ErrorCode::MathError)
            }),
    {
        match self.checked_ceil_div(v) {
            Some(result) => Ok(result),
            None => Err(ErrorCode::MathError),
        }
    }
}

impl SafeMath for u8 {
    fn safe_add(self, v: u8) -> (r: TYieldResult<u8>)
        ensures
            r == (if self + v <= u8::MAX {
                Ok((self + v) as u8)
            } else {
                Err::<u8, ErrorCode>(ErrorCode::MathError)
            }),
    {
        match self.checked_add(v) {
            Some(result) => Ok(result),
            None => Err(ErrorCode::MathError),
        }
    }

    fn safe_sub(self, v: u8) -> (r: TYieldResult<u8>)
        ensures
            r == (if self >= v {
                Ok((self - v) as u8)
            } else {
                Err::<u8, ErrorCode>(ErrorCode::MathError)
            }),
    {
        match self.checked_sub(v) {
            Some(result) => Ok(result),
            None => Err(ErrorCode::MathError),
        }
    }

    fn safe_mul(self, v: u8) -> (r: TYieldResult<u8>)
        ensures
            r == (if self * v <= u8::MAX {
                Ok((self * v) as u8)
            } else {
                Err::<u8, ErrorCode>(ErrorCode::MathError)
            }),
    {
        match self.checked_mul(v) {
            Some(result) => Ok(result),
            None => Err(ErrorCode::MathError),
        }
    }

    fn safe_div(self, v: u8) -> (r: TYieldResult<u8>)
        ensures
            r == (if v != 0 {
                Ok((self / v) as u8)
            } else {
                Err::<u8, ErrorCode>(ErrorCode::MathError)
            }),
    {
        match self.checked_div(v) {
            Some(result) => Ok(result),
            None => Err(ErrorCode::MathError),
        }
    }

    fn safe_div_ceil(self, v: u8) -> (r: TYieldResult<u8>)
        ensures
            r == (if v != 0 {
                Ok(ceil_div_int(self as int, v as int) as u8)
            } else {
                Err::<u8, ErrorCode>(ErrorCode::MathError)
            }),
    {
        match self.checked_ceil_div(v) {
            Some(result) => Ok(result),
            None => Err(ErrorCode::MathError),
        }
    }
}

impl SafeMath for i128 {
    fn safe_add(self, v: i128) -> (r: TYieldResult<i128>)
        ensures
            r == (if i128::MIN <= self + v <= i128::MAX {
                Ok((self + v) as i128)
            } else {
                Err::<i128, ErrorCode>(ErrorCode::MathError)
            }),
    {
        match self.checked_add(v) {
            Some(result) => Ok(result),
            None => Err(ErrorCode::MathError),
        }
    }

    fn safe_sub(self, v: i128) -> (r: TYieldResult<i128>)
        ensures
            r == (if i128::MIN <= self - v <= i128::MAX {
                Ok((self - v) as i128)
            } else {
                Err::<i128, ErrorCode>(ErrorCode::MathError)
            }),
    {
        match self.checked_sub(v) {
            Some(result) => Ok(result),
            None => Err(ErrorCode::MathError),
        }
    }

    fn safe_mul(self, v: i128) -> (r: TYieldResult<i128>)
        ensures
            r == (if i128::MIN <= self * v <= i128::MAX {
                Ok((self * v) as i128)
            } else {
                Err::<i128, ErrorCode>(ErrorCode::MathError)
            }),
    {
        match self.checked_mul(v) {
            Some(result) => Ok(result),
            None => Err(ErrorCode::MathError),
        }
    }

    fn safe_div(self, v: i128) -> (r: TYieldResult<i128>)
        ensures
            r == (if v != 0 && trunc_div(self as int, v as int) <= i128::MAX {
                Ok(trunc_div(self as int, v as int) as i128)
            } else {
                Err::<i128, ErrorCode>(ErrorCode::MathError)
            }),
    {
        if v != 0 {
            proof {
                lemma_signed_rounding(self as int, v as int, i128::MIN as int, i128::MAX as int);
            }
        }
        match self.checked_div(v) {
            Some(result) => Ok(result),
            None => Err(ErrorCode::MathError),
        }
    }

    fn safe_div_ceil(self, v: i128) -> (r: TYieldResult<i128>)
        ensures
            r == (if v != 0 && trunc_div(self as int, v as int) <= i128::MAX {
                Ok(ceil_div_int(self as int, v as int) as i128)
            } else {
                Err::<i128, ErrorCode>(ErrorCode::MathError)
            }),
    {
        if v != 0 {
            proof {
                lemma_signed_rounding(self as int, v as int, i128::MIN as int, i128::MAX as int);
            }
        }
        match self.checked_ceil_div(v) {
            Some(result) => Ok(result),
            None => Err(ErrorCode::MathError),
        }
    }
}

impl SafeDivFloor for i128 {
    fn safe_div_floor(self, v: i128) -> (r: TYieldResult<i128>)
        ensures
            r == (if v != 0 && trunc_div(self as int, v as int) <= i128::MAX {
                Ok(floor_div_int(self as int, v as int) as i128)
            } else {
                Err::<i128, ErrorCode>(ErrorCode::MathError)
            }),
    {
        match self.checked_floor_div(v) {
            Some(result) => Ok(result),
            None => Err(ErrorCode::MathError),
        }
    }
}

impl SafeMath for i64 {
    fn safe_add(self, v: i64) -> (r: TYieldResult<i64>)
        ensures
            r == (if i64::MIN <= self + v <= i64::MAX {
                Ok((self + v) as i64)
            } else {
                Err::<i64, ErrorCode>(ErrorCode::MathError)
            }),
    {
        match self.checked_add(v) {
            Some(result) => Ok(result),
            None => Err(ErrorCode::MathError),
        }
    }

    fn safe_sub(self, v: i64) -> (r: TYieldResult<i64>)
        ensures
            r == (if i64::MIN <= self - v <= i64::MAX {
                Ok((self - v) as i64)
            } else {
                Err::<i64, ErrorCode>(ErrorCode::MathError)
            }),
    {
        match self.checked_sub(v) {
            Some(result) => Ok(result),
            None => Err(ErrorCode::MathError),
        }
    }

    fn safe_mul(self, v: i64) -> (r: TYieldResult<i64>)
        ensures
            r == (if i64::MIN <= self * v <= i64::MAX {
                Ok((self * v) as i64)
            } else {
                Err::<i64, ErrorCode>(ErrorCode::MathError)
            }),
    {
        match self.checked_mul(v) {
            Some(result) => Ok(result),
            None => Err(ErrorCode::MathError),
        }
    }

    fn safe_div(self, v: i64) -> (r: TYieldResult<i64>)
        ensures
            r == (if v != 0 && trunc_div(self as int, v as int) <= i64::MAX {
                Ok(trunc_div(self as int, v as int) as i64)
            } else {
                Err::<i64, ErrorCode>(ErrorCode::MathError)
            }),
    {
        if v != 0 {
            proof {
                lemma_signed_rounding(self as int, v as int, i64::MIN as int, i64::MAX as int);
            }
        }
        match self.checked_div(v) {
            Some(result) => Ok(result),
            None => Err(ErrorCode::MathError),
        }
    }

    fn safe_div_ceil(self, v: i64) -> (r: TYieldResult<i64>)
        ensures
            r == (if v != 0 && trunc_div(self as int, v as int) <= i64::MAX {
                Ok(ceil_div_int(self as int, v as int) as i64)
            } else {
                Err::<i64, ErrorCode>(ErrorCode::MathError)
            }),
    {
        if v != 0 {
            proof {
                lemma_signed_rounding(self as int, v as int, i64::MIN as int, i64::MAX as int);
            }
        }
        match self.checked_ceil_div(v) {
            Some(result) => Ok(result),
            None => Err(ErrorCode::MathError),
        }
    }
}

impl SafeDivFloor for i64 {
    fn safe_div_floor(self, v: i64) -> (r: TYieldResult<i64>)
        ensures
            r == (if v != 0 && trunc_div(self as int, v as int) <= i64::MAX {
                Ok(floor_div_int(self as int, v as int) as i64)
            } else {
                Err::<i64, ErrorCode>(ErrorCode::MathError)
            }),
    {
        match self.checked_floor_div(v) {
            Some(result) => Ok(result),
            None => Err(ErrorCode::MathError),
        }
    }
}

impl SafeMath for i32 {
    fn safe_add(self, v: i32) -> (r: TYieldResult<i32>)
        ensures
            r == (if i32::MIN <= self + v <= i32::MAX {
                Ok((self + v) as i32)
            } else {
                Err::<i32, ErrorCode>(ErrorCode::MathError)
            }),
    {
        match self.checked_add(v) {
            Some(result) => Ok(result),
            None => Err(ErrorCode::MathError),
        }
    }

    fn safe_sub(self, v: i32) -> (r: TYieldResult<i32>)
        ensures
            r == (if i32::MIN <= self - v <= i32::MAX {
                Ok((self - v) as i32)
            } else {
                Err::<i32, ErrorCode>(ErrorCode::MathError)
            }),
    {
        match self.checked_sub(v) {
            Some(result) => Ok(result),
            None => Err(ErrorCode::MathError),
        }
    }

    fn safe_mul(self, v: i32) -> (r: TYieldResult<i32>)
        ensures
            r == (if i32::MIN <= self * v <= i32::MAX {
                Ok((self * v) as i32)
            } else {
                Err::<i32, ErrorCode>(ErrorCode::MathError)
            }),
    {
        match self.checked_mul(v) {
            Some(result) => Ok(result),
            None => Err(ErrorCode::MathError),
        }
    }

    fn safe_div(self, v: i32) -> (r: TYieldResult<i32>)
        ensures
            r == (if v != 0 && trunc_div(self as int, v as int) <= i32::MAX {
                Ok(trunc_div(self as int, v as int) as i32)
            } else {
                Err::<i32, ErrorCode>(ErrorCode::MathError)
            }),
    {
        if v != 0 {
            proof {
                lemma_signed_rounding(self as int, v as int, i32::MIN as int, i32::MAX as int);
            }
        }
        match self.checked_div(v) {
            Some(result) => Ok(result),
            None => Err(ErrorCode::MathError),
        }
    }

    fn safe_div_ceil(self, v: i32) -> (r: TYieldResult<i32>)
        ensures
            r == (if v != 0 && trunc_div(self as int, v as int) <= i32::MAX {
                Ok(ceil_div_int(self as int, v as int) as i32)
            } else {
                Err::<i32, ErrorCode>(ErrorCode::MathError)
            }),
    {
        if v != 0 {
            proof {
                lemma_signed_rounding(self as int, v as int, i32::MIN as int, i32::MAX as int);
            }
        }
        match self.checked_ceil_div(v) {
            Some(result) => Ok(result),
            None => Err(ErrorCode::MathError),
        }
    }
}

impl SafeDivFloor for i32 {
    fn safe_div_floor(self, v: i32) -> (r: TYieldResult<i32>)
        ensures
            r == (if v != 0 && trunc_div(self as int, v as int) <= i32::MAX {
                Ok(floor_div_int(self as int, v as int) as i32)
            } else {
                Err::<i32, ErrorCode>(ErrorCode::MathError)
            }),
    {
        match self.checked_floor_div(v) {
            Some(result) => Ok(result),
            None => Err(ErrorCode::MathError),
        }
    }
}

impl SafeMath for i16 {
    fn safe_add(self, v: i16) -> (r: TYieldResult<i16>)
        ensures
            r == (if i16::MIN <= self + v <= i16::MAX {
                Ok((self + v) as i16)
            } else {
                Err::<i16, ErrorCode>(ErrorCode::MathError)
            }),
    {
        match self.checked_add(v) {
            Some(result) => Ok(result),
            None => Err(ErrorCode::MathError),
        }
    }

    fn safe_sub(self, v: i16) -> (r: TYieldResult<i16>)
        ensures
            r == (if i16::MIN <= self - v <= i16::MAX {
                Ok((self - v) as i16)
            } else {
                Err::<i16, ErrorCode>(ErrorCode::MathError)
            }),
    {
        match self.checked_sub(v) {
            Some(result) => Ok(result),
            None => Err(ErrorCode::MathError),
        }
    }

    fn safe_mul(self, v: i16) -> (r: TYieldResult<i16>)
        ensures
            r == (if i16::MIN <= self * v <= i16::MAX {
                Ok((self * v) as i16)
            } else {
                Err::<i16, ErrorCode>(ErrorCode::MathError)
            }),
    {
        match self.checked_mul(v) {
            Some(result) => Ok(result),
            None => Err(ErrorCode::MathError),
        }
    }

    fn safe_div(self, v: i16) -> (r: TYieldResult<i16>)
        ensures
            r == (if v != 0 && trunc_div(self as int, v as int) <= i16::MAX {
                Ok(trunc_div(self as int, v as int) as i16)
            } else {
                Err::<i16, ErrorCode>(ErrorCode::MathError)
            }),
    {
        if v != 0 {
            proof {
                lemma_signed_rounding(self as int, v as int, i16::MIN as int, i16::MAX as int);
            }
        }
        match self.checked_div(v) {
            Some(result) => Ok(result),
            None => Err(ErrorCode::MathError),
        }
    }

    fn safe_div_ceil(self, v: i16) -> (r: TYieldResult<i16>)
        ensures
            r == (if v != 0 && trunc_div(self as int, v as int) <= i16::MAX {
                Ok(ceil_div_int(self as int, v as int) as i16)
            } else {
                Err::<i16, ErrorCode>(ErrorCode::MathError)
            }),
    {
        if v != 0 {
            proof {
                lemma_signed_rounding(self as int, v as int, i16::MIN as int, i16::MAX as int);
            }
        }
        match self.checked_ceil_div(v) {
            Some(result) => Ok(result),
            None => Err(ErrorCode::MathError),
        }
    }
}

impl SafeDivFloor for i16 {
    fn safe_div_floor(self, v: i16) -> (r: TYieldResult<i16>)
        ensures
            r == (if v != 0 && trunc_div(self as int, v as int) <= i16::MAX {
                Ok(floor_div_int(self as int, v as int) as i16)
            } else {
                Err::<i16, ErrorCode>(ErrorCode::MathError)
            }),
    {
        match self.checked_floor_div(v) {
            Some(result) => Ok(result),
            None => Err(ErrorCode::MathError),
        }
    }
}

impl SafeMath for i8 {
    fn safe_add(self, v: i8) -> (r: TYieldResult<i8>)
        ensures
            r == (if i8::MIN <= self + v <= i8::MAX {
                Ok((self + v) as i8)
            } else {
                Err::<i8, ErrorCode>(ErrorCode::MathError)
            }),
    {
        match self.checked_add(v) {
            Some(result) => Ok(result),
            None => Err(ErrorCode::MathError),
        }
    }

    fn safe_sub(self, v: i8) -> (r: TYieldResult<i8>)
        ensures
            r == (if i8::MIN <= self - v <= i8::MAX {
                Ok((self - v) as i8)
            } else {
                Err::<i8, ErrorCode>(ErrorCode::MathError)
            }),
    {
        match self.checked_sub(v) {
            Some(result) => Ok(result),
            None => Err(ErrorCode::MathError),
        }
    }

    fn safe_mul(self, v: i8) -> (r: TYieldResult<i8>)
        ensures
            r == (if i8::MIN <= self * v <= i8::MAX {
                Ok((self * v) as i8)
            } else {
                Err::<i8, ErrorCode>(ErrorCode::MathError)
            }),
    {
        match self.checked_mul(v) {
            Some(result) => Ok(result),
            None => Err(ErrorCode::MathError),
        }
    }

    fn safe_div(self, v: i8) -> (r: TYieldResult<i8>)
        ensures
            r == (if v != 0 && trunc_div(self as int, v as int) <= i8::MAX {
                Ok(trunc_div(self as int, v as int) as i8)
            } else {
                Err::<i8, ErrorCode>(ErrorCode::MathError)
            }),
    {
        if v != 0 {
            proof {
                lemma_signed_rounding(self as int, v as int, i8::MIN as int, i8::MAX as int);
            }
        }
        match self.checked_div(v) {
            Some(result) => Ok(result),
            None => Err(ErrorCode::MathError),
        }
    }

    fn safe_div_ceil(self, v: i8) -> (r: TYieldResult<i8>)
        ensures
            r == (if v != 0 && trunc_div(self as int, v as int) <= i8::MAX {
                Ok(ceil_div_int(self as int, v as int) as i8)
            } else {
                Err::<i8, ErrorCode>(ErrorCode::MathError)
            }),
    {
        if v != 0 {
            proof {
                lemma_signed_rounding(self as int, v as int, i8::MIN as int, i8::MAX as int);
            }
        }
        match self.checked_ceil_div(v) {
            Some(result) => Ok(result),
            None => Err(ErrorCode::MathError),
        }
    }
}

impl SafeDivFloor for i8 {
    fn safe_div_floor(self, v: i8) -> (r: TYieldResult<i8>)
        ensures
            r == (if v != 0 && trunc_div(self as int, v as int) <= i8::MAX {
                Ok(floor_div_int(self as int, v as int) as i8)
            } else {
                Err::<i8, ErrorCode>(ErrorCode::MathError)
            }),
    {
        match self.checked_floor_div(v) {
            Some(result) => Ok(result),
            None => Err(ErrorCode::MathError),
        }
    }
}

} // verus!
