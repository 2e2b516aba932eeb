//! Fixed-point precisions and protocol-wide limits.
use vstd::prelude::*;

verus! {

/// Lamports in one SOL (10^9).
pub const LAMPORTS_PER_SOL_U64: u64 = 1_000_000_000;
/// Lamports in one SOL (10^9), signed.
pub const LAMPORTS_PER_SOL_I64: i64 = 1_000_000_000;

/// Exponent of the oracle price scale (10^-9).
pub const ORACLE_EXPONENT_SCALE: i32 = -9;
/// Oracle price scale (10^9).
pub const ORACLE_PRICE_SCALE: u64 = 1_000_000_000;
/// Largest mantissa a normalized oracle price keeps (2^28 - 1).
pub const ORACLE_MAX_PRICE: u64 = 268_435_455;

/// Decimals of USD amounts.
pub const USD_DECIMALS: u8 = 6;

/// Most signers a multisig holds.
pub const MAX_SIGNERS: usize = 6;

/// Quote precision (10^6, exponent -6).
pub const QUOTE_PRECISION: u128 = 1_000_000;
/// Quote precision (10^6, exponent -6).
pub const QUOTE_PRECISION_I128: i128 = 1_000_000;
/// Quote precision (10^6, exponent -6).
pub const QUOTE_PRECISION_I64: i64 = 1_000_000;
/// Quote precision (10^6, exponent -6).
pub const QUOTE_PRECISION_U64: u64 = 1_000_000;

/// Basis-point precision (10^4, exponent -4): 10_000 is 100%.
pub const PERCENTAGE_PRECISION: i64 = 10_000;
/// Basis-point precision (10^4, exponent -4): 10_000 is 100%.
pub const PERCENTAGE_PRECISION_U128: u128 = 10_000;
/// Basis-point precision (10^4, exponent -4): 10_000 is 100%.
pub const PERCENTAGE_PRECISION_I128: i128 = 10_000;
/// Basis-point precision (10^4, exponent -4): 10_000 is 100%.
pub const PERCENTAGE_PRECISION_U64: u64 = 10_000;

/// Seconds in a day: the unit of price-update allowances.
pub const DAILY_SECONDS_PRECISION: u64 = 86_400;

} // verus!
