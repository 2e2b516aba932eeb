//! Conversions between numeric types that report `ErrorCode::CastingFailure`
//! instead of truncating.
use vstd::prelude::*;
use vstd::std_specs::convert::TryFromSpec;
use crate::error::{ErrorCode, TYieldResult};

verus! {

/// Converts a value to another type through `TryFrom`, failing with
/// `ErrorCode::CastingFailure` when the value does not fit.
pub trait Cast: Sized {
    /// `Ok` with the value `TryFrom` converts to when it succeeds, and
    /// `Err(CastingFailure)` when it fails, for every source and target type.
    /// For the narrowing integer conversions, success means the value lies
    /// within the target type's range, and the result is the same number; the
    /// widening ones, which go through `From`, always succeed with the same
    /// number.
    fn cast<T: TryFrom<Self>>(self) -> (r: TYieldResult<T>)
        ensures
            r is Err ==> r == Err::<T, ErrorCode>(ErrorCode::CastingFailure),
            <T as TryFromSpec<Self>>::obeys_try_from_spec() ==> {
                &&& (r is Ok <==> <T as TryFromSpec<Self>>::try_from_spec(self) is Ok)
                &&& (r is Ok ==> r->Ok_0 == <T as TryFromSpec<Self>>::try_from_spec(self)->Ok_0)
            },
            exists|res: Result<T, <T as TryFrom<Self>>::Error>|
                #![trigger call_ensures(T::try_from, (self,), res)]
                call_ensures(T::try_from, (self,), res) && match res {
                    Ok(v) => r == Ok::<T, ErrorCode>(v),
                    Err(_) => r == Err::<T, ErrorCode>(ErrorCode::CastingFailure),
                },
    {
        match T::try_from(self) {
            Ok(result) => Ok(result),
            Err(_) => Err(ErrorCode::CastingFailure),
        }
    }
}

impl Cast for u128 {}
impl Cast for u64 {}
impl Cast for u32 {}
impl Cast for u16 {}
impl Cast for u8 {}
impl Cast for usize {}
impl Cast for i128 {}
impl Cast for i64 {}
impl Cast for i32 {}
impl Cast for i16 {}
impl Cast for i8 {}
impl Cast for bool {}

/// Shows a conversion that fits: 42 as a `u8`.
pub fn example_cast_usage() -> (r: TYieldResult<()>)
    ensures
        r == Ok::<(), ErrorCode>(()),
{
    let x: u64 = 42;
    let y: TYieldResult<u8> = x.cast();
    match y {
        Ok(_) => Ok(()),
        Err(e) => Err(e),
    }
}

} // verus!
