use tubor_yield::error::ErrorCode;
use tubor_yield::math::casting::Cast;
use tubor_yield::math::floor_div::CheckedFloorDiv;
use tubor_yield::math::safe_math::{SafeDivFloor, SafeMath};

#[test]
fn test() {
    let x = -3_i128;

    assert_eq!(x.checked_floor_div(2), Some(-2));
    assert_eq!(x.checked_floor_div(0), None);
}

#[test]
fn safe_add() {
    assert_eq!(1_u128.safe_add(1).unwrap(), 2);
    assert_eq!(1_u128.safe_add(u128::MAX), Err(ErrorCode::MathError));
}

#[test]
fn safe_sub() {
    assert_eq!(1_u128.safe_sub(1).unwrap(), 0);
    assert_eq!(0_u128.safe_sub(1), Err(ErrorCode::MathError));
}

#[test]
fn safe_mul() {
    assert_eq!(8_u128.safe_mul(80).unwrap(), 640);
    assert_eq!(1_u128.safe_mul(1).unwrap(), 1);
    assert_eq!(2_u128.safe_mul(u128::MAX), Err(ErrorCode::MathError));
}

#[test]
fn safe_div() {
    assert_eq!(155_u128.safe_div(8).unwrap(), 19);
    assert_eq!(159_u128.safe_div(8).unwrap(), 19);
    assert_eq!(160_u128.safe_div(8).unwrap(), 20);
    assert_eq!(1_u128.safe_div(1).unwrap(), 1);
    assert_eq!(1_u128.safe_div(100).unwrap(), 0);
    assert_eq!(1_u128.safe_div(0), Err(ErrorCode::MathError));
}

#[test]
fn safe_div_floor() {
    assert_eq!((-155_i128).safe_div_floor(8).unwrap(), -20);
    assert_eq!((-159_i128).safe_div_floor(8).unwrap(), -20);
    assert_eq!((-160_i128).safe_div_floor(8).unwrap(), -20);
}

#[test]
fn error_messages() {
    assert_eq!(tubor_yield::error::ErrorCode::MathError.message(), "Math Error");
    assert_eq!(
        tubor_yield::error::ErrorCode::InvalidArgument.message(),
        "An argument is out of its allowed range"
    );
}

#[test]
fn casts_between_integer_types() {
    assert_eq!(42u64.cast::<u8>(), Ok(42u8));
    assert_eq!(300u64.cast::<u8>(), Err(ErrorCode::CastingFailure));
    assert_eq!((-1i64).cast::<u32>(), Err(ErrorCode::CastingFailure));
    assert_eq!(u64::MAX.cast::<i64>(), Err(ErrorCode::CastingFailure));
    assert_eq!((u64::MAX as u128).cast::<u64>(), Ok(u64::MAX));
    assert_eq!(7u8.cast::<u64>(), Ok(7u64));
}
