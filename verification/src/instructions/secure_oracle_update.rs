//! The checks of a secure update of the custom oracle: who may update, how
//! often, how far the price may move, and what looks like manipulation.
use vstd::prelude::*;
use crate::error::{ErrorCode, TYieldResult};
use crate::math::bps::{abs_diff, conf_ratio, conf_ratio_bps, deviation_bps, ratio_bps};
use crate::math::safe_math::SafeMath;
use crate::pubkey::Pubkey;
use crate::state::oracle::{custom_update_check, CustomOracle, MAX_CUSTOM_CONF_BPS};

verus! {

/// A new custom oracle price with its confidence and EMA.
#[derive(Clone, Copy, PartialEq, Eq, Structural, Debug)]
pub struct SecureOracleUpdateParams {
    pub new_price: u64,
    pub confidence: u64,
    pub ema: u64,
    pub publish_time: i64,
    pub exponent: i32,
    pub max_deviation_bps: u64,
    /// An emergency update skips the rate limit.
    pub is_emergency: bool,
}

/// Seconds that must pass between two updates.
pub const MIN_UPDATE_INTERVAL_SEC: i64 = 60;

/// Largest move accepted in one update, in basis points.
pub const CIRCUIT_BREAKER_THRESHOLD_BPS: u64 = 5000;

/// Whether `authority` may update the oracle: anyone before the first update,
/// afterwards only the last updater.
pub fn is_authorized_oracle_updater(authority: &Pubkey, oracle: &CustomOracle) -> (r: TYieldResult<
    bool,
>)
    ensures
        r == Ok::<bool, ErrorCode>(oracle.last_update_authority == Pubkey::spec_default()
            || oracle.last_update_authority == *authority),
{
    if oracle.last_update_authority.is_default() {
        return Ok(true);
    }
    if oracle.last_update_authority == *authority {
        return Ok(true);
    }
    Ok(false)
}

/// At least `MIN_UPDATE_INTERVAL_SEC` since the last published price
/// (`OracleUpdateRateLimitExceeded`).
pub fn check_rate_limit(oracle: &CustomOracle, current_time: i64) -> (r: TYieldResult<()>)
    ensures
        r == (if !(i64::MIN <= current_time - oracle.publish_time <= i64::MAX) {
            Err(ErrorCode::MathError)
        } else if current_time - oracle.publish_time < MIN_UPDATE_INTERVAL_SEC {
            Err(ErrorCode::OracleUpdateRateLimitExceeded)
        } else {
            Ok(())
        }),
{
    let time_since_last_update = current_time.safe_sub(oracle.publish_time)?;
    if time_since_last_update < MIN_UPDATE_INTERVAL_SEC {
        return Err(ErrorCode::OracleUpdateRateLimitExceeded);
    }
    Ok(())
}

/// A move of more than 50% from a non-zero price trips the breaker
/// (`CircuitBreakerTriggered`).
pub fn check_circuit_breaker(
    oracle: &CustomOracle,
    params: &SecureOracleUpdateParams,
    _current_time: i64,
) -> (r: TYieldResult<()>)
    ensures
        r == (if oracle.price == 0 {
            Ok(())
        } else {
            match ratio_bps(abs_diff(params.new_price as int, oracle.price as int), oracle.price as int) {
                Err(e) => Err(e),
                Ok(c) => if c > CIRCUIT_BREAKER_THRESHOLD_BPS {
                    Err(ErrorCode::CircuitBreakerTriggered)
                } else {
                    Ok(())
                },
            }
        }),
{
    if oracle.price == 0 {
        return Ok(());
    }
    let change_percentage = deviation_bps(params.new_price, oracle.price, oracle.price)?;
    if change_percentage > CIRCUIT_BREAKER_THRESHOLD_BPS {
        return Err(ErrorCode::CircuitBreakerTriggered);
    }
    Ok(())
}

/// The larger of the two prices as a percentage of the smaller.
pub open spec fn price_ratio_pct(new_price: u64, old_price: u64) -> Result<u64, ErrorCode> {
    let (hi, lo) = if new_price > old_price {
        (new_price, old_price)
    } else {
        (old_price, new_price)
    };
    if hi * 100 > u64::MAX || lo == 0 {
        Err(ErrorCode::MathError)
    } else {
        Ok((hi * 100 / (lo as int)) as u64)
    }
}

/// Manipulation: from a non-zero price, a move of more than ten times, or a
/// confidence interval below 1% of the new price (`OracleManipulationDetected`).
pub fn detect_price_manipulation(oracle: &CustomOracle, params: &SecureOracleUpdateParams) -> (r:
    TYieldResult<()>)
    ensures
        r == (if oracle.price == 0 {
            Ok(())
        } else {
            match price_ratio_pct(params.new_price, oracle.price) {
                Err(e) => Err(e),
                Ok(ratio) => if ratio > 1000 || conf_ratio(params.confidence, params.new_price as u128)
                    < 100 {
                    Err(ErrorCode::OracleManipulationDetected)
                } else {
                    Ok(())
                },
            }
        }),
{
    if oracle.price == 0 {
        return Ok(());
    }
    let price_ratio = if params.new_price > oracle.price {
        params.new_price.safe_mul(100)?.safe_div(oracle.price)?
    } else {
        oracle.price.safe_mul(100)?.safe_div(params.new_price)?
    };
    if price_ratio > 1000 {
        return Err(ErrorCode::OracleManipulationDetected);
    }
    let ratio = conf_ratio_bps(params.confidence, params.new_price as u128);
    if ratio < 100 {
        return Err(ErrorCode::OracleManipulationDetected);
    }
    Ok(())
}

/// The checks of the new price itself: non-zero (`InvalidOraclePrice`), a
/// confidence of at most half the price (`OracleConfidenceExceeded`), an
/// exponent within ±20 (`InvalidOraclePrice`), and the oracle's own update
/// rules when it already has a price.
pub open spec fn secure_update_check(oracle: CustomOracle, params: SecureOracleUpdateParams) -> Result<
    (),
    ErrorCode,
> {
    if params.new_price == 0 {
        Err(ErrorCode::InvalidOraclePrice)
    } else if conf_ratio(params.confidence, params.new_price as u128) > MAX_CUSTOM_CONF_BPS {
        Err(ErrorCode::OracleConfidenceExceeded)
    } else if params.exponent < -20 || params.exponent > 20 {
        Err(ErrorCode::InvalidOraclePrice)
    } else if oracle.price > 0 {
        custom_update_check(oracle.price, oracle.max_allowed_deviation, params.new_price, params.confidence)
    } else {
        Ok(())
    }
}

/// The checks of the new price (see `secure_update_check`).
pub fn validate_secure_price_update(oracle: &CustomOracle, params: &SecureOracleUpdateParams) -> (r:
    TYieldResult<()>)
    ensures
        r == secure_update_check(*oracle, *params),
{
    if params.new_price == 0 {
        return Err(ErrorCode::InvalidOraclePrice);
    }
    let ratio = conf_ratio_bps(params.confidence, params.new_price as u128);
    if ratio > MAX_CUSTOM_CONF_BPS {
        return Err(ErrorCode::OracleConfidenceExceeded);
    }
    if params.exponent < -20 || params.exponent > 20 {
        return Err(ErrorCode::InvalidOraclePrice);
    }
    if oracle.price > 0 {
        oracle.validate_price_update(params.new_price, params.confidence)?;
    }
    Ok(())
}

/// Everything a secure update checks, in order: the updater
/// (`InvalidOracleAuthority`), the rate limit unless in an emergency, the
/// circuit breaker, manipulation, and the new price.
pub open spec fn secure_update_allowed(
    oracle: CustomOracle,
    authority: Pubkey,
    params: SecureOracleUpdateParams,
    now: i64,
) -> Result<(), ErrorCode> {
    if !(oracle.last_update_authority == Pubkey::spec_default() || oracle.last_update_authority
        == authority) {
        Err(ErrorCode::InvalidOracleAuthority)
    } else if !params.is_emergency && !(i64::MIN <= now - oracle.publish_time <= i64::MAX) {
        Err(ErrorCode::MathError)
    } else if !params.is_emergency && now - oracle.publish_time < MIN_UPDATE_INTERVAL_SEC {
        Err(ErrorCode::OracleUpdateRateLimitExceeded)
    } else if oracle.price != 0 && ratio_bps(
        abs_diff(params.new_price as int, oracle.price as int),
        oracle.price as int,
    ) is Err {
        Err(ErrorCode::MathError)
    } else if oracle.price != 0 && ratio_bps(
        abs_diff(params.new_price as int, oracle.price as int),
        oracle.price as int,
    )->Ok_0 > CIRCUIT_BREAKER_THRESHOLD_BPS {
        Err(ErrorCode::CircuitBreakerTriggered)
    } else if oracle.price != 0 && price_ratio_pct(params.new_price, oracle.price) is Err {
        Err(ErrorCode::MathError)
    } else if oracle.price != 0 && (price_ratio_pct(params.new_price, oracle.price)->Ok_0 > 1000
        || conf_ratio(params.confidence, params.new_price as u128) < 100) {
        Err(ErrorCode::OracleManipulationDetected)
    } else {
        secure_update_check(oracle, params)
    }
}

/// Applies a secure update by `authority` at `current_time`: all the checks of
/// `secure_update_allowed`, then the oracle stores the new price (see
/// `CustomOracle::set`). Answers 0.
pub fn secure_oracle_update(
    oracle: &mut CustomOracle,
    authority: Pubkey,
    params: SecureOracleUpdateParams,
    current_time: i64,
) -> (r: TYieldResult<u8>)
    ensures
        secure_update_allowed(*old(oracle), authority, params, current_time) matches Err(e) ==> r
            == Err::<u8, ErrorCode>(e) && *final(oracle) == *old(oracle),
        secure_update_allowed(*old(oracle), authority, params, current_time) is Ok ==> *final(oracle)
            == (CustomOracle {
            price: params.new_price,
            conf: params.confidence,
            ema: params.ema,
            publish_time: params.publish_time,
            expo: params.exponent,
            last_update_authority: authority,
            update_count: if old(oracle).update_count < u64::MAX {
                (old(oracle).update_count + 1) as u64
            } else {
                old(oracle).update_count
            },
            ..*old(oracle)
        }) && r == (if old(oracle).update_count < u64::MAX {
            Ok::<u8, ErrorCode>(0)
        } else {
            Err(ErrorCode::MathError)
        }),
{
    if !is_authorized_oracle_updater(&authority, oracle)? {
        return Err(ErrorCode::InvalidOracleAuthority);
    }
    if !params.is_emergency {
        check_rate_limit(oracle, current_time)?;
    }
    check_circuit_breaker(oracle, &params, current_time)?;
    detect_price_manipulation(oracle, &params)?;
    validate_secure_price_update(oracle, &params)?;
    oracle.set(
        params.new_price,
        params.confidence,
        params.ema,
        params.publish_time,
        params.exponent,
        authority,
    )?;
    Ok(0)
}

} // verus!
