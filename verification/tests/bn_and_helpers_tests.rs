use tubor_yield::error::ErrorCode;
use tubor_yield::math::bn::{mul_div_u128, mul_u128_wide, U192, U256};
use tubor_yield::math::ceil_div::CheckedCeilDiv;
use tubor_yield::math::helpers::{
    get_proportion_i128, get_proportion_u128, log10, log10_iter, on_the_hour_update,
    standardize_value_with_remainder_i128,
};
use tubor_yield::math::pnl::PnL;
use tubor_yield::math::power::pow10_u64;
use tubor_yield::math::safe_math::SafeMath;

#[test]
fn u256_add_sub_carry_and_borrow() {
    let max_lo = U256 { lo: u128::MAX, hi: 0 };
    let one = U256::from_u128(1);
    assert_eq!(max_lo.checked_add(one), Some(U256 { lo: 0, hi: 1 }));
    assert_eq!(U256 { lo: 0, hi: 1 }.checked_sub(one), Some(max_lo));
    assert_eq!(one.checked_sub(U256 { lo: 0, hi: 1 }), None);
    let max = U256 { lo: u128::MAX, hi: u128::MAX };
    assert_eq!(max.checked_add(one), None);
    assert_eq!(max.safe_add(one), Err(ErrorCode::MathError));
    assert_eq!(one.safe_sub(max), Err(ErrorCode::MathError));
}

#[test]
fn u256_multiplication() {
    let max_lo = U256 { lo: u128::MAX, hi: 0 };
    // (2^128 - 1)^2 = (2^128 - 2) * 2^128 + 1
    assert_eq!(max_lo.checked_mul(max_lo), Some(U256 { lo: 1, hi: u128::MAX - 1 }));
    assert_eq!(mul_u128_wide(u128::MAX, u128::MAX), U256 { lo: 1, hi: u128::MAX - 1 });
    let big = U256 { lo: 0, hi: 1 };
    assert_eq!(big.checked_mul(big), None);
    assert_eq!(U256 { lo: 0, hi: 2 }.checked_mul(U256::from_u128(3)), Some(U256 { lo: 0, hi: 6 }));
    assert_eq!(
        U256 { lo: 0, hi: u128::MAX }.safe_mul(U256::from_u128(2)),
        Err(ErrorCode::MathError)
    );
}

#[test]
fn u256_division() {
    let a = U256 { lo: 5, hi: 3 };
    // (3 * 2^128 + 5) / 2 = 2^128 + 2^127 + 2, remainder 1
    assert_eq!(a.checked_div(U256::from_u128(2)), Some(U256 { lo: (1u128 << 127) + 2, hi: 1 }));
    assert_eq!(a.checked_rem(U256::from_u128(2)), Some(U256::from_u128(1)));
    let b = U256 { lo: 0, hi: 10 };
    let c = U256 { lo: 0, hi: 3 };
    assert_eq!(b.checked_div(c), Some(U256::from_u128(3)));
    assert_eq!(b.checked_rem(c), Some(U256 { lo: 0, hi: 1 }));
    assert_eq!(b.checked_ceil_div(c), Some(U256::from_u128(4)));
    assert_eq!(U256 { lo: 0, hi: 9 }.checked_ceil_div(c), Some(U256::from_u128(3)));
    assert_eq!(b.checked_div(U256::from_u128(0)), None);
    assert_eq!(b.safe_div(U256::from_u128(0)), Err(ErrorCode::MathError));
    assert_eq!(b.safe_div_ceil(c), Ok(U256::from_u128(4)));
    assert!(c.is_at_most(&b));
    assert!(!b.is_at_most(&c));
}

#[test]
fn u256_bytes_round_trip() {
    let v = U256 { lo: 0x0102_0304_0506_0708_090a_0b0c_0d0e_0f10, hi: 7 };
    let bytes = v.to_le_bytes();
    assert_eq!(bytes[0], 0x10);
    assert_eq!(bytes[15], 0x01);
    assert_eq!(bytes[16], 7);
    assert_eq!(U256::from_le_bytes(bytes), v);
    assert_eq!(U256::from_u128(300).try_to_u64(), Ok(300));
    assert_eq!(v.try_to_u128(), Err(ErrorCode::BnConversionError));
}

#[test]
fn u192_arithmetic() {
    let max = U192 { lo: u128::MAX, hi: u64::MAX };
    let one = U192::from_u128(1);
    assert_eq!(max.checked_add(one), None);
    assert_eq!(max.safe_add(one), Err(ErrorCode::MathError));
    assert_eq!(U192 { lo: u128::MAX, hi: 0 }.checked_add(one), Some(U192 { lo: 0, hi: 1 }));
    assert_eq!(max.checked_mul(U192::from_u128(2)), None);
    assert_eq!(U192 { lo: 0, hi: 1 }.checked_mul(U192::from_u128(5)), Some(U192 { lo: 0, hi: 5 }));
    assert_eq!(U192 { lo: 1, hi: 4 }.checked_div(U192 { lo: 0, hi: 2 }), Some(U192::from_u128(2)));
    assert_eq!(U192 { lo: 1, hi: 4 }.checked_rem(U192 { lo: 0, hi: 2 }), Some(one));
    assert_eq!(U192 { lo: 1, hi: 4 }.checked_ceil_div(U192 { lo: 0, hi: 2 }), Some(U192::from_u128(3)));
    assert_eq!(one.checked_sub(U192::from_u128(2)), None);
    assert_eq!(max.safe_div(U192::from_u128(0)), Err(ErrorCode::MathError));
    let bytes = max.to_le_bytes();
    assert_eq!(U192::from_le_bytes(bytes), max);
}

#[test]
fn proportions() {
    assert_eq!(get_proportion_u128(100, 3, 4), Ok(75));
    assert_eq!(get_proportion_u128(100, 1, 3), Ok(33));
    assert_eq!(get_proportion_u128(7, 2, 3), Ok(4));
    assert_eq!(get_proportion_u128(7, 5, 5), Ok(7));
    assert_eq!(get_proportion_u128(u128::MAX, 2, 4), Ok(u128::MAX / 2));
    assert_eq!(get_proportion_u128(u128::MAX, 3, 2), Err(ErrorCode::CastingFailure));
    assert_eq!(get_proportion_u128(u128::MAX, u128::MAX, 2), Err(ErrorCode::MathError));
    assert_eq!(get_proportion_i128(-100, 3, 4), Ok(-75));
    assert_eq!(mul_div_u128(10, 20, 3), Ok(66));
    assert_eq!(mul_div_u128(10, 20, 0), Err(ErrorCode::MathError));
}

#[test]
fn standardize_and_schedule() {
    assert_eq!(standardize_value_with_remainder_i128(-7, 3), Ok((-6, -1)));
    assert_eq!(standardize_value_with_remainder_i128(7, 3), Ok((6, 1)));
    assert_eq!(standardize_value_with_remainder_i128(7, 0), Err(ErrorCode::MathError));
    assert_eq!(on_the_hour_update(3700, 3600, 3600), Ok(3500));
    assert_eq!(on_the_hour_update(1900, 1800, 3600), Ok(5300));
    assert_eq!(on_the_hour_update(20_000, 3600, 3600), Ok(0));
}

#[test]
fn logarithms_and_powers() {
    assert_eq!(log10(9), 0);
    assert_eq!(log10(10), 1);
    assert_eq!(log10(1000), 3);
    assert_eq!(log10_iter(999), 2);
    assert_eq!(log10_iter(u128::MAX), 38);
    assert_eq!(pow10_u64(0), 1);
    assert_eq!(pow10_u64(19), 10_000_000_000_000_000_000);
}

#[test]
fn position_pnl() {
    assert_eq!(1000u64.calculate_pnl(100, 110), Ok(100));
    assert_eq!(1000u64.calculate_pnl(100, 90), Ok(-100));
}


#[test]
fn byte_order_and_next_update_examples() {
    let mut bytes = [0u8; 32];
    bytes[0] = 1;
    assert_eq!(U256::from_le_bytes(bytes), U256::from_u128(1));
    bytes[0] = 0;
    bytes[1] = 1;
    assert_eq!(U256::from_le_bytes(bytes), U256::from_u128(256));
    assert_eq!(U256::from_u128(0x0102).to_le_bytes()[..3], [2, 1, 0]);
    let mut short = [0u8; 24];
    short[0] = 2;
    short[1] = 1;
    assert_eq!(U192::from_le_bytes(short), U192::from_le_bytes(U192::from_le_bytes(short).to_le_bytes()));
    assert_eq!(U192::from_le_bytes(short).to_le_bytes(), short);

    // The next update is the first hour at least two thirds of a period on.
    assert_eq!(on_the_hour_update(2000, 2000, 3600), Ok(5200));
    assert_eq!(on_the_hour_update(1000, 0, 3600), Ok(2600));
    assert_eq!(log10_iter(9), 0);
    assert_eq!(log10_iter(10), 1);
    assert_eq!(log10_iter(1000), 3);
}
