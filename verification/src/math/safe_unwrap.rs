//! Unwrapping that reports `ErrorCode::FailedUnwrap` instead of panicking.
use vstd::prelude::*;
use crate::error::{ErrorCode, TYieldResult};

verus! {

/// Extracts the value of an `Option` or a `Result`, failing with
/// `ErrorCode::FailedUnwrap` when there is none.
pub trait SafeUnwrap {
    /// The type of the contained value.
    type Item;

    /// `Ok(value)` when a value is present, `Err(FailedUnwrap)` otherwise.
    fn safe_unwrap(self) -> TYieldResult<Self::Item>;
}

impl<T> SafeUnwrap for Option<T> {
    type Item = T;

    fn safe_unwrap(self) -> (r: TYieldResult<T>)
        ensures
            r == (match self {
                Some(v) => Ok(v),
                None => Err::<T, ErrorCode>(ErrorCode::FailedUnwrap),
            }),
    {
        match self {
            Some(v) => Ok(v),
            None => Err(ErrorCode::FailedUnwrap),
        }
    }
}

impl<T, U> SafeUnwrap for Result<T, U> {
    type Item = T;

    fn safe_unwrap(self) -> (r: TYieldResult<T>)
        ensures
            r == (match self {
                Ok(v) => Ok(v),
                Err(_) => Err::<T, ErrorCode>(ErrorCode::FailedUnwrap),
            }),
    {
        match self {
            Ok(v) => Ok(v),
            Err(_) => Err(ErrorCode::FailedUnwrap),
        }
    }
}

} // verus!
