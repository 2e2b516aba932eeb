//! Oracle prices: a mantissa with a decimal exponent, the checks applied to a
//! custom oracle and to Pyth readings, and the conversions between token
//! amounts and USD amounts.
use vstd::prelude::*;
use crate::error::{ErrorCode, TYieldResult};
use crate::math::bps::{abs_diff, conf_ratio, conf_ratio_bps, deviation_bps, ratio_bps};
use crate::math::constants::{ORACLE_EXPONENT_SCALE, ORACLE_MAX_PRICE, ORACLE_PRICE_SCALE, USD_DECIMALS};
use crate::math::power::{lemma_pow10_19, lemma_pow10_monotone, pow10, pow10_u64};
use crate::math::safe_math::SafeMath;
use crate::pubkey::Pubkey;
use crate::state::multisig::bytes32_equal;

verus! {

/// Where a price comes from.
#[derive(Clone, Copy, PartialEq, Eq, Structural, Debug)]
pub enum OracleType {
    Pyth,
    Custom,
    /// A custom oracle checked against Pyth.
    MultiOracle,
}

impl Default for OracleType {
    fn default() -> (r: OracleType)
        ensures
            r == OracleType::Pyth,
    {
        OracleType::Pyth
    }
}

/// A price `price * 10^exponent`.
#[derive(Clone, Copy, PartialEq, Eq, Structural, Debug)]
pub struct OraclePrice {
    pub price: u64,
    pub exponent: i32,
}

impl Default for OraclePrice {
    fn default() -> (r: OraclePrice)
        ensures
            r == (OraclePrice { price: 0, exponent: 0 }),
    {
        OraclePrice { price: 0, exponent: 0 }
    }
}

/// How prices of an asset are read and checked.
#[derive(Clone, Copy, PartialEq, Debug)]
pub struct OracleParams {
    pub oracle_account: Pubkey,
    pub feed_id: [u8; 32],
    /// Largest confidence interval accepted, in basis points of the price.
    pub max_price_error: u64,
    pub max_price_age_sec: u32,
    pub oracle_type: OracleType,
    /// Largest deviation accepted between two oracles, in basis points.
    pub max_price_deviation_bps: u64,
    pub min_oracle_consensus: u8,
    pub _padding: [u8; 2],
}

impl Default for OracleParams {
    fn default() -> (r: OracleParams)
        ensures
            r.oracle_account == Pubkey::spec_default(),
            r.feed_id@ == Seq::new(32, |i: int| 0u8),
            r.max_price_error == 0,
            r.max_price_age_sec == 0,
            r.oracle_type == OracleType::Pyth,
            r.max_price_deviation_bps == 0,
            r.min_oracle_consensus == 0,
            r._padding@ == Seq::new(2, |i: int| 0u8),
    {
        let r = OracleParams {
            oracle_account: Pubkey::default(),
            feed_id: [0;32],
            max_price_error: 0,
            max_price_age_sec: 0,
            oracle_type: OracleType::Pyth,
            max_price_deviation_bps: 0,
            min_oracle_consensus: 0,
            _padding: [0;2],
        };
        assert(r.feed_id@ =~= Seq::new(32, |i: int| 0u8));
        assert(r._padding@ =~= Seq::new(2, |i: int| 0u8));
        r
    }
}

/// Three oracles that must agree on a price.
#[derive(Clone, Copy, PartialEq, Debug)]
pub struct MultiOracleConfig {
    pub primary_oracle: Pubkey,
    pub secondary_oracle: Pubkey,
    pub tertiary_oracle: Pubkey,
    pub max_deviation_between_oracles: u64,
    pub consensus_threshold: u8,
    pub _padding: [u8; 7],
}

impl Default for MultiOracleConfig {
    fn default() -> (r: MultiOracleConfig)
        ensures
            r.primary_oracle == Pubkey::spec_default(),
            r.secondary_oracle == Pubkey::spec_default(),
            r.tertiary_oracle == Pubkey::spec_default(),
            r.max_deviation_between_oracles == 0,
            r.consensus_threshold == 0,
            r._padding@ == Seq::new(7, |i: int| 0u8),
    {
        let r = MultiOracleConfig {
            primary_oracle: Pubkey::default(),
            secondary_oracle: Pubkey::default(),
            tertiary_oracle: Pubkey::default(),
            max_deviation_between_oracles: 0,
            consensus_threshold: 0,
            _padding: [0;7],
        };
        assert(r._padding@ =~= Seq::new(7, |i: int| 0u8));
        r
    }
}

/// A price kept by the protocol itself.
#[derive(Clone, Copy, PartialEq, Debug)]
pub struct CustomOracle {
    pub price: u64,
    pub conf: u64,
    pub ema: u64,
    pub publish_time: i64,
    pub expo: i32,
    pub last_update_authority: Pubkey,
    pub update_count: u64,
    /// Largest move accepted between two updates, in basis points.
    pub max_allowed_deviation: u64,
    pub bump: u8,
    pub _padding: [u8; 8],
}

impl Default for CustomOracle {
    fn default() -> (r: CustomOracle)
        ensures
            r.price == 0 && r.conf == 0 && r.ema == 0 && r.publish_time == 0 && r.expo == 0,
            r.last_update_authority == Pubkey::spec_default(),
            r.update_count == 0 && r.max_allowed_deviation == 0 && r.bump == 0,
            r._padding@ == Seq::new(8, |i: int| 0u8),
    {
        let r = CustomOracle {
            price: 0,
            conf: 0,
            ema: 0,
            publish_time: 0,
            expo: 0,
            last_update_authority: Pubkey::default(),
            update_count: 0,
            max_allowed_deviation: 0,
            bump: 0,
            _padding: [0;8],
        };
        assert(r._padding@ =~= Seq::new(8, |i: int| 0u8));
        r
    }
}

/// Largest confidence interval a custom oracle accepts, in basis points.
pub const MAX_CUSTOM_CONF_BPS: u128 = 5_000;

/// Whether a new custom price is acceptable after `old_price`: non-zero, within
/// `max_dev` basis points of a non-zero old price, and with a confidence
/// interval of at most half the price.
pub open spec fn custom_update_check(old_price: u64, max_dev: u64, new_price: u64, new_conf: u64) -> Result<
    (),
    ErrorCode,
> {
    if new_price == 0 {
        Err(ErrorCode::InvalidOraclePrice)
    } else if old_price > 0 && ratio_bps(abs_diff(new_price as int, old_price as int), old_price as int) is Err {
        Err(ErrorCode::MathError)
    } else if old_price > 0 && ratio_bps(abs_diff(new_price as int, old_price as int), old_price as int)->Ok_0
        > max_dev {
        Err(ErrorCode::PriceDeviationTooHigh)
    } else if conf_ratio(new_conf, new_price as u128) > MAX_CUSTOM_CONF_BPS {
        Err(ErrorCode::InvalidOraclePrice)
    } else {
        Ok(())
    }
}

/// Age of a price published at `publish_time`, seen at `current_time`.
pub open spec fn price_age(current_time: i64, publish_time: i64) -> Result<i64, ErrorCode> {
    if i64::MIN <= current_time - publish_time <= i64::MAX {
        Ok((current_time - publish_time) as i64)
    } else {
        Err(ErrorCode::MathError)
    }
}

impl CustomOracle {
    /// Stores a new price after `validate_price_update` accepts it and counts the
    /// update. When the count overflows the price is stored but the count is
    /// not, and `MathError` is returned.
    pub fn set(
        &mut self,
        price: u64,
        conf: u64,
        ema: u64,
        publish_time: i64,
        expo: i32,
        authority: Pubkey,
    ) -> (r: TYieldResult<()>)
        ensures
            custom_update_check(old(self).price, old(self).max_allowed_deviation, price, conf) matches Err(
                e,
            ) ==> r == Err::<(), ErrorCode>(e) && *final(self) == *old(self),
            custom_update_check(old(self).price, old(self).max_allowed_deviation, price, conf) is Ok
                ==> *final(self) == (CustomOracle {
                price,
                conf,
                ema,
                publish_time,
                expo,
                last_update_authority: authority,
                update_count: if old(self).update_count < u64::MAX {
                    (old(self).update_count + 1) as u64
                } else {
                    old(self).update_count
                },
                ..*old(self)
            }) && r == (if old(self).update_count < u64::MAX {
                Ok::<(), ErrorCode>(())
            } else {
                Err(ErrorCode::MathError)
            }),
    {
        self.validate_price_update(price, conf)?;
        self.price = price;
        self.conf = conf;
        self.ema = ema;
        self.publish_time = publish_time;
        self.expo = expo;
        self.last_update_authority = authority;
        self.update_count = self.update_count.safe_add(1)?;
        Ok(())
    }

    /// Checks a new price against the current one (see `custom_update_check`).
    pub fn validate_price_update(&self, new_price: u64, new_conf: u64) -> (r: TYieldResult<()>)
        ensures
            r == custom_update_check(self.price, self.max_allowed_deviation, new_price, new_conf),
    {
        if new_price == 0 {
            return Err(ErrorCode::InvalidOraclePrice);
        }
        if self.price > 0 {
            let deviation = deviation_bps(new_price, self.price, self.price)?;
            if deviation > self.max_allowed_deviation {
                return Err(ErrorCode::PriceDeviationTooHigh);
            }
        }
        let ratio = conf_ratio_bps(new_conf, new_price as u128);
        if ratio > MAX_CUSTOM_CONF_BPS {
            return Err(ErrorCode::InvalidOraclePrice);
        }
        Ok(())
    }

    /// The stored price, refused when older than `max_age_sec` at `current_time`
    /// (`StaleOraclePrice`), zero, or with a confidence interval above half the
    /// price (`InvalidOraclePrice`).
    pub fn get_secure_price(&self, current_time: i64, max_age_sec: u32) -> (r: TYieldResult<
        OraclePrice,
    >)
        ensures
            r == (match price_age(current_time, self.publish_time) {
                Err(e) => Err(e),
                Ok(age) => if age > max_age_sec {
                    Err(ErrorCode::StaleOraclePrice)
                } else if self.price == 0 || conf_ratio(self.conf, self.price as u128)
                    > MAX_CUSTOM_CONF_BPS {
                    Err(ErrorCode::InvalidOraclePrice)
                } else {
                    Ok(OraclePrice { price: self.price, exponent: self.expo })
                },
            }),
    {
        let age_sec = current_time.safe_sub(self.publish_time)?;
        if age_sec > max_age_sec as i64 {
            return Err(ErrorCode::StaleOraclePrice);
        }
        if self.price == 0 {
            return Err(ErrorCode::InvalidOraclePrice);
        }
        let ratio = conf_ratio_bps(self.conf, self.price as u128);
        if ratio > MAX_CUSTOM_CONF_BPS {
            return Err(ErrorCode::InvalidOraclePrice);
        }
        Ok(OraclePrice { price: self.price, exponent: self.expo })
    }
}

/// A price read from a Pyth price update.
#[derive(Clone, Copy, PartialEq, Eq, Structural, Debug)]
pub struct PythPrice {
    pub price: i64,
    pub conf: u64,
    pub exponent: i32,
    pub publish_time: i64,
}

/// A time-weighted average price read from a Pyth TWAP update.
#[derive(Clone, Copy, PartialEq, Eq, Structural, Debug)]
pub struct PythTwap {
    pub price: i64,
    pub conf: u64,
    pub exponent: i32,
}

/// A Pyth price update as an account holds it: the feed it prices, whether
/// its Wormhole signatures were fully verified, and the price message.
#[derive(Clone, Copy, PartialEq, Eq, Debug)]
pub struct PythUpdate {
    pub feed_id: [u8; 32],
    pub fully_verified: bool,
    pub price: i64,
    pub conf: u64,
    pub exponent: i32,
    pub publish_time: i64,
}

/// A Pyth TWAP update as an account holds it: the feed, the window it
/// averages over, and the average.
#[derive(Clone, Copy, PartialEq, Eq, Debug)]
pub struct PythTwapUpdate {
    pub feed_id: [u8; 32],
    pub start_time: i64,
    pub end_time: i64,
    pub price: i64,
    pub conf: u64,
    pub exponent: i32,
}

/// How old, in seconds, a Pyth update may be when it is read.
pub const PYTH_MAXIMUM_AGE: u64 = 600;

/// `x` clamped to the range of `i64`.
pub open spec fn saturating_i64(x: int) -> i64 {
    if x > i64::MAX {
        i64::MAX
    } else if x < i64::MIN {
        i64::MIN
    } else {
        x as i64
    }
}

/// The spot price of a Pyth update for `feed_id` at `now`: the update must be
/// fully verified, of that feed, and published at most `maximum_age` seconds
/// before `now` (the sum saturating); `InvalidOraclePrice` otherwise.
pub open spec fn price_no_older_than_spec(update: PythUpdate, now: i64, maximum_age: u64, feed_id: Seq<u8>) -> Result<
    PythPrice,
    ErrorCode,
> {
    if !update.fully_verified || update.feed_id@ != feed_id || saturating_i64(
        update.publish_time + maximum_age,
    ) < now {
        Err(ErrorCode::InvalidOraclePrice)
    } else {
        Ok(
            PythPrice {
                price: update.price,
                conf: update.conf,
                exponent: update.exponent,
                publish_time: update.publish_time,
            },
        )
    }
}

/// The average of a Pyth TWAP update for `feed_id` at `now`: the update must
/// be of that feed, end at most `maximum_age` seconds before `now` (the sum
/// saturating) and span exactly `window_seconds` (the difference
/// saturating); `InvalidOraclePrice` otherwise.
pub open spec fn twap_no_older_than_spec(
    update: PythTwapUpdate,
    now: i64,
    maximum_age: u64,
    window_seconds: u64,
    feed_id: Seq<u8>,
) -> Result<PythTwap, ErrorCode> {
    if update.feed_id@ != feed_id || saturating_i64(update.end_time + maximum_age) < now
        || saturating_i64(update.end_time - update.start_time) != window_seconds {
        Err(ErrorCode::InvalidOraclePrice)
    } else {
        Ok(PythTwap { price: update.price, conf: update.conf, exponent: update.exponent })
    }
}

/// `a + b` for a non-negative `b`, saturating at `i64::MAX`.
fn saturating_add_i64(a: i64, b: i64) -> (r: i64)
    requires
        b >= 0,
    ensures
        r == saturating_i64(a + b),
{
    match a.checked_add(b) {
        Some(s) => s,
        None => i64::MAX,
    }
}

/// `a - b`, saturating at the bounds of `i64`.
fn saturating_sub_i64(a: i64, b: i64) -> (r: i64)
    ensures
        r == saturating_i64(a - b),
{
    match a.checked_sub(b) {
        Some(s) => s,
        None => if b < 0 {
            i64::MAX
        } else {
            i64::MIN
        },
    }
}

/// The spot price of a Pyth update, with the checks the Pyth SDK's
/// `get_price_no_older_than` makes (see `price_no_older_than_spec`).
pub fn price_no_older_than(update: &PythUpdate, now: i64, maximum_age: u64, feed_id: &[u8; 32]) -> (r:
    TYieldResult<PythPrice>)
    requires
        maximum_age <= i64::MAX,
    ensures
        r == price_no_older_than_spec(*update, now, maximum_age, feed_id@),
{
    if !update.fully_verified {
        return Err(ErrorCode::InvalidOraclePrice);
    }
    if !bytes32_equal(&update.feed_id, feed_id) {
        return Err(ErrorCode::InvalidOraclePrice);
    }
    if saturating_add_i64(update.publish_time, maximum_age as i64) < now {
        return Err(ErrorCode::InvalidOraclePrice);
    }
    Ok(
        PythPrice {
            price: update.price,
            conf: update.conf,
            exponent: update.exponent,
            publish_time: update.publish_time,
        },
    )
}

/// The average of a Pyth TWAP update, with the checks the Pyth SDK's
/// `get_twap_no_older_than` makes (see `twap_no_older_than_spec`).
pub fn twap_no_older_than(
    update: &PythTwapUpdate,
    now: i64,
    maximum_age: u64,
    window_seconds: u64,
    feed_id: &[u8; 32],
) -> (r: TYieldResult<PythTwap>)
    requires
        maximum_age <= i64::MAX,
        window_seconds <= i64::MAX,
    ensures
        r == twap_no_older_than_spec(*update, now, maximum_age, window_seconds, feed_id@),
{
    if !bytes32_equal(&update.feed_id, feed_id) {
        return Err(ErrorCode::InvalidOraclePrice);
    }
    if saturating_add_i64(update.end_time, maximum_age as i64) < now {
        return Err(ErrorCode::InvalidOraclePrice);
    }
    if saturating_sub_i64(update.end_time, update.start_time) != window_seconds as i64 {
        return Err(ErrorCode::InvalidOraclePrice);
    }
    Ok(PythTwap { price: update.price, conf: update.conf, exponent: update.exponent })
}

/// `true` when `value` is zero or its confidence interval exceeds `max_error`
/// basis points. The value is read as `u128` the way a cast does it.
pub open spec fn out_of_bounds(value: i64, conf: u64, max_error: u64) -> bool {
    value == 0 || conf_ratio(conf, value as u128) > max_error
}

/// The price a Pyth reading gives: the TWAP when `use_ema` (`MissingTwap`
/// without one), else the spot price, refused when older than `max_age`
/// (`StaleOraclePrice`); then refused when zero or too uncertain
/// (`InvalidOraclePrice`).
pub open spec fn pyth_price_of(
    spot: PythPrice,
    twap: Option<PythTwap>,
    max_price_error: u64,
    max_age: u32,
    current_time: i64,
    use_ema: bool,
) -> Result<OraclePrice, ErrorCode> {
    if use_ema {
        match twap {
            None => Err(ErrorCode::MissingTwap),
            Some(t) => if out_of_bounds(t.price, t.conf, max_price_error) {
                Err(ErrorCode::InvalidOraclePrice)
            } else {
                Ok(OraclePrice { price: t.price as u64, exponent: t.exponent })
            },
        }
    } else {
        match price_age(current_time, spot.publish_time) {
            Err(e) => Err(e),
            Ok(age) => if age > max_age {
                Err(ErrorCode::StaleOraclePrice)
            } else if out_of_bounds(spot.price, spot.conf, max_price_error) {
                Err(ErrorCode::InvalidOraclePrice)
            } else {
                Ok(OraclePrice { price: spot.price as u64, exponent: spot.exponent })
            },
        }
    }
}

/// The price a custom oracle gives (see `OraclePrice::get_custom_price`).
pub open spec fn custom_price_of(
    oracle: CustomOracle,
    max_price_error: u64,
    max_age: u32,
    current_time: i64,
    use_ema: bool,
) -> Result<OraclePrice, ErrorCode> {
    let value = if use_ema {
        oracle.ema
    } else {
        oracle.price
    };
    match price_age(current_time, oracle.publish_time) {
        Err(e) => Err(e),
        Ok(age) => if age > max_age {
            Err(ErrorCode::StaleOraclePrice)
        } else if oracle.price == 0 || conf_ratio(oracle.conf, oracle.price as u128)
            > MAX_CUSTOM_CONF_BPS {
            Err(ErrorCode::InvalidOraclePrice)
        } else if value == 0 || conf_ratio(oracle.conf, value as u128) > max_price_error {
            Err(ErrorCode::InvalidOraclePrice)
        } else {
            Ok(OraclePrice { price: value, exponent: oracle.expo })
        },
    }
}

/// The price two oracles agree on (see `OraclePrice::get_multi_oracle_price`).
pub open spec fn multi_price_of(primary: OraclePrice, secondary: OraclePrice, params: OracleParams) -> Result<
    OraclePrice,
    ErrorCode,
> {
    match ratio_bps(abs_diff(primary.price as int, secondary.price as int), primary.price as int) {
        Err(e) => Err(e),
        Ok(dev) => if dev > params.max_price_deviation_bps {
            Err(ErrorCode::PriceDeviationTooHigh)
        } else if conf_ratio(100, primary.price as u128) > params.max_price_error {
            Err(ErrorCode::InvalidOraclePrice)
        } else {
            Ok(primary)
        },
    }
}

/// The price a Pyth update (and, optionally, a TWAP update) gives for
/// `feed_id`: the TWAP update is read first, over a window of `max_age`
/// seconds, then the price update, each no older than `PYTH_MAXIMUM_AGE`
/// (see `twap_no_older_than_spec`, `price_no_older_than_spec`); the readings
/// are then checked by `pyth_price_of`.
pub open spec fn pyth_reading_of(
    update: PythUpdate,
    twap: Option<PythTwapUpdate>,
    max_price_error: u64,
    max_age: u32,
    now: i64,
    use_ema: bool,
    feed_id: Seq<u8>,
) -> Result<OraclePrice, ErrorCode> {
    let twap_result = match twap {
        None => Ok(None),
        Some(t) => match twap_no_older_than_spec(t, now, PYTH_MAXIMUM_AGE, max_age as u64, feed_id) {
            Err(e) => Err(e),
            Ok(p) => Ok(Some(p)),
        },
    };
    match twap_result {
        Err(e) => Err(e),
        Ok(average) => match price_no_older_than_spec(update, now, PYTH_MAXIMUM_AGE, feed_id) {
            Err(e) => Err(e),
            Ok(spot) => pyth_price_of(spot, average, max_price_error, max_age, now, use_ema),
        },
    }
}

/// The price an asset's oracle gives, by its kind: `Custom` reads the custom
/// oracle, `Pyth` the Pyth reading, `MultiOracle` both, the custom one first.
/// A reading that the kind needs and that is missing is `InvalidOracleAccount`.
pub open spec fn oracle_price_of(
    custom: Option<CustomOracle>,
    pyth: Option<(PythUpdate, Option<PythTwapUpdate>)>,
    params: OracleParams,
    current_time: i64,
    use_ema: bool,
    feed_id: Seq<u8>,
) -> Result<OraclePrice, ErrorCode> {
    let custom_result = match custom {
        None => Err(ErrorCode::InvalidOracleAccount),
        Some(c) => custom_price_of(c, params.max_price_error, params.max_price_age_sec, current_time, use_ema),
    };
    let pyth_result = match pyth {
        None => Err(ErrorCode::InvalidOracleAccount),
        Some((update, twap)) => pyth_reading_of(
            update,
            twap,
            params.max_price_error,
            params.max_price_age_sec,
            current_time,
            use_ema,
            feed_id,
        ),
    };
    match params.oracle_type {
        OracleType::Custom => custom_result,
        OracleType::Pyth => pyth_result,
        OracleType::MultiOracle => match custom_result {
            Err(e) => Err(e),
            Ok(primary) => match pyth_result {
                Err(e) => Err(e),
                Ok(secondary) => multi_price_of(primary, secondary, params),
            },
        },
    }
}

/// Whether a value is zero or too uncertain (see `out_of_bounds`).
fn is_out_of_bounds(value: i64, conf: u64, max_error: u64) -> (r: bool)
    ensures
        r == out_of_bounds(value, conf, max_error),
{
    if value == 0 {
        return true;
    }
    assert(value != 0 ==> value as u128 != 0) by (bit_vector);
    let wide = #[verifier::truncate] (value as u128);
    conf_ratio_bps(conf, wide) > max_error as u128
}

/// `10^-n` for an exponent `-n` in the range a `u64` power of ten covers.
pub open spec fn pow10_fits(n: int) -> bool {
    0 <= n <= 19
}

/// `amount * 10^decimals * price`, moved from exponent `exponent + decimals`
/// to the USD exponent -6, with `MathError` on any overflow.
pub open spec fn asset_amount_usd(price: u64, exponent: i32, amount: u64, decimals: u8) -> Result<
    u64,
    ErrorCode,
> {
    let base = amount * pow10(decimals as nat);
    let adjusted = price * base;
    let e = exponent + decimals + USD_DECIMALS;
    if amount == 0 || price == 0 {
        Ok(0)
    } else if base > u64::MAX || adjusted > u64::MAX || e > i32::MAX {
        Err(ErrorCode::MathError)
    } else if e >= 0 {
        if adjusted * pow10(e as nat) > u64::MAX {
            Err(ErrorCode::MathError)
        } else {
            Ok((adjusted * pow10(e as nat)) as u64)
        }
    } else {
        Ok((adjusted / (pow10((-e) as nat) as int)) as u64)
    }
}

/// Whether `asset_amount_usd` gets to a power of ten that does not fit a
/// `u64`; the computation panics there.
pub open spec fn asset_amount_usd_pow_ok(price: u64, exponent: i32, amount: u64, decimals: u8) -> bool {
    let base = amount * pow10(decimals as nat);
    let adjusted = price * base;
    let e = exponent + decimals + USD_DECIMALS;
    decimals <= 19 && (amount == 0 || price == 0 || base > u64::MAX || adjusted > u64::MAX || e
        > i32::MAX || -19 <= e <= 19)
}

/// `amount * 10^6 / price`, moved from exponent `exponent - 6 + decimals` to the
/// token exponent, with `MathError` on overflow.
pub open spec fn token_amount_of(price: u64, exponent: i32, amount_usd: u64, decimals: u8) -> Result<
    u64,
    ErrorCode,
> {
    let base = amount_usd * pow10(USD_DECIMALS as nat);
    let adjusted = base / (price as int);
    let e = exponent - USD_DECIMALS + decimals;
    if amount_usd == 0 || price == 0 {
        Ok(0)
    } else if base > u64::MAX || exponent - USD_DECIMALS < i32::MIN || e > i32::MAX {
        Err(ErrorCode::MathError)
    } else if e >= 0 {
        if adjusted * pow10(e as nat) > u64::MAX {
            Err(ErrorCode::MathError)
        } else {
            Ok((adjusted * pow10(e as nat)) as u64)
        }
    } else {
        Ok((adjusted / (pow10((-e) as nat) as int)) as u64)
    }
}

/// Whether `token_amount_of` gets to a power of ten that does not fit a `u64`.
pub open spec fn token_amount_pow_ok(price: u64, exponent: i32, amount_usd: u64, decimals: u8) -> bool {
    let base = amount_usd * pow10(USD_DECIMALS as nat);
    let e = exponent - USD_DECIMALS + decimals;
    amount_usd == 0 || price == 0 || base > u64::MAX || exponent - USD_DECIMALS < i32::MIN || e
        > i32::MAX || -19 <= e <= 19
}

/// A price with the mantissa cut down (dividing by ten and raising the
/// exponent) until it is at most `ORACLE_MAX_PRICE`; `MathError` when the
/// exponent overflows.
pub open spec fn normalized(price: u64, exponent: i32) -> Result<OraclePrice, ErrorCode>
    decreases price,
{
    if price <= ORACLE_MAX_PRICE {
        Ok(OraclePrice { price, exponent })
    } else if exponent == i32::MAX {
        Err(ErrorCode::MathError)
    } else {
        normalized(price / 10, (exponent + 1) as i32)
    }
}

/// The same price at exponent `target`: the mantissa divided (rounding down)
/// or multiplied by the power of ten between the exponents, `MathError` on
/// overflow.
pub open spec fn scaled_to(price: u64, exponent: i32, target: i32) -> Result<OraclePrice, ErrorCode> {
    let delta = target - exponent;
    if target == exponent {
        Ok(OraclePrice { price, exponent })
    } else if delta > i32::MAX || delta < i32::MIN {
        Err(ErrorCode::MathError)
    } else if delta > 0 {
        Ok(OraclePrice { price: ((price as int) / (pow10(delta as nat) as int)) as u64, exponent: target })
    } else if price * pow10((-delta) as nat) > u64::MAX {
        Err(ErrorCode::MathError)
    } else {
        Ok(OraclePrice { price: (price * pow10((-delta) as nat)) as u64, exponent: target })
    }
}

/// Scaling to a lower exponent loses nothing: when it succeeds, scaling the
/// result back to the original exponent gives the original price. (Scaling
/// to a higher exponent divides, and so rounds down.)
pub proof fn lemma_scale_round_trip(price: u64, exponent: i32, target: i32)
    requires
        target <= exponent,
        exponent - target <= i32::MAX,
        scaled_to(price, exponent, target) is Ok,
    ensures
        scaled_to(scaled_to(price, exponent, target)->Ok_0.price, target, exponent) == Ok::<
            OraclePrice,
            ErrorCode,
        >(OraclePrice { price, exponent }),
{
    if target < exponent {
        let k = (exponent - target) as nat;
        lemma_pow10_monotone(0, k);
        let pk = pow10(k);
        assert(((price * pk) as int) / (pk as int) == price) by (nonlinear_arith)
            requires
                pk >= 1,
                price >= 0,
        ;
    }
}

/// Whether moving to exponent `target` stays within powers of ten a `u64`
/// holds (or fails earlier on an exponent overflow).
pub open spec fn scale_ok(exponent: i32, target: i32) -> bool {
    let delta = target - exponent;
    delta > i32::MAX || delta < i32::MIN || -19 <= delta <= 19
}

/// The two mantissas of a pair of prices brought to the lower exponent, or
/// `None` when that overflows.
pub open spec fn comparable_pair(a: OraclePrice, b: OraclePrice) -> Option<(u64, u64)> {
    if a.exponent == b.exponent {
        Some((a.price, b.price))
    } else if a.exponent < b.exponent {
        match scaled_to(b.price, b.exponent, a.exponent) {
            Ok(s) => Some((a.price, s.price)),
            Err(_) => None,
        }
    } else {
        match scaled_to(a.price, a.exponent, b.exponent) {
            Ok(s) => Some((s.price, b.price)),
            Err(_) => None,
        }
    }
}

/// Whether `a` is a lower price than `b` (never when they do not compare).
pub open spec fn price_lt(a: OraclePrice, b: OraclePrice) -> bool {
    comparable_pair(a, b) matches Some(p) && p.0 < p.1
}

/// `price` moved down to exponent `target` (below `exponent`), failing instead
/// of panicking on any overflow.
fn scale_down(price: u64, exponent: i32, target: i32) -> (r: Option<u64>)
    requires
        target < exponent,
    ensures
        r == (match scaled_to(price, exponent, target) {
            Ok(s) => Some(s.price),
            Err(_) => None,
        }),
{
    let delta = match target.checked_sub(exponent) {
        Some(d) => d,
        None => return None,
    };
    if delta < -19 {
        proof {
            lemma_pow10_19();
            lemma_pow10_monotone(20, (-delta) as nat);
        }
        if price == 0 {
            return Some(0);
        }
        proof {
            let p = pow10((target - exponent) as nat);
            let q = pow10((-(target - exponent)) as nat);
            assert(price * q >= q) by (nonlinear_arith)
                requires
                    price >= 1,
                    q >= 0,
            ;
        }
        return None;
    }
    price.checked_mul(pow10_u64((-delta) as u32))
}

impl OraclePrice {
    /// The two mantissas brought to the lower exponent (see `comparable_pair`).
    pub fn comparable_prices(&self, other: &OraclePrice) -> (r: Option<(u64, u64)>)
        ensures
            r == comparable_pair(*self, *other),
    {
        if self.exponent == other.exponent {
            Some((self.price, other.price))
        } else if self.exponent < other.exponent {
            match scale_down(other.price, other.exponent, self.exponent) {
                Some(s) => Some((self.price, s)),
                None => None,
            }
        } else {
            match scale_down(self.price, self.exponent, other.exponent) {
                Some(s) => Some((s, other.price)),
                None => None,
            }
        }
    }

    /// Whether this price is lower than `other` (see `price_lt`).
    pub fn is_lower_than(&self, other: &OraclePrice) -> (r: bool)
        ensures
            r == price_lt(*self, *other),
    {
        match self.comparable_prices(other) {
            Some((lhs, rhs)) => lhs < rhs,
            None => false,
        }
    }
}

/// The smaller of two prices when they compare (the second one otherwise),
/// capped at one dollar for a stable asset.
pub open spec fn min_price_of(a: OraclePrice, b: OraclePrice, is_stable: bool, a_lt_b: bool) -> OraclePrice {
    let m = if a_lt_b {
        a
    } else {
        b
    };
    if !is_stable {
        m
    } else if m.exponent > 0 {
        if m.price == 0 {
            m
        } else {
            OraclePrice { price: 1_000_000u64, exponent: -6i32 }
        }
    } else if m.price > pow10((-m.exponent) as nat) {
        OraclePrice { price: pow10((-m.exponent) as nat) as u64, exponent: m.exponent }
    } else {
        m
    }
}

impl OraclePrice {
    /// `price * 10^exponent`.
    pub fn new(price: u64, exponent: i32) -> (r: Self)
        ensures
            r == (OraclePrice { price, exponent }),
    {
        Self { price, exponent }
    }

    /// A token amount with its decimals, as `amount * 10^-decimals`.
    pub fn new_from_token(amount_and_decimals: (u64, u8)) -> (r: Self)
        ensures
            r == (OraclePrice {
                price: amount_and_decimals.0,
                exponent: -(amount_and_decimals.1 as i32) as i32,
            }),
    {
        Self { price: amount_and_decimals.0, exponent: -(amount_and_decimals.1 as i32) }
    }

    /// The USD value (6 decimals) of `token_amount` tokens with `token_decimals`
    /// decimals at this price.
    pub fn get_asset_amount_usd(&self, token_amount: u64, token_decimals: u8) -> (r: TYieldResult<
        u64,
    >)
        requires
            asset_amount_usd_pow_ok(self.price, self.exponent, token_amount, token_decimals),
        ensures
            r == asset_amount_usd(self.price, self.exponent, token_amount, token_decimals),
    {
        if token_amount == 0 || self.price == 0 {
            return Ok(0);
        }
        let token_base = token_amount.safe_mul(pow10_u64(token_decimals as u32))?;
        let price_adjusted = self.price.safe_mul(token_base)?;
        let exponent_adjustment = self.exponent.safe_add(token_decimals as i32)?;
        let usd_exponent = -(USD_DECIMALS as i32);
        let final_exponent = exponent_adjustment.safe_sub(usd_exponent)?;
        if final_exponent >= 0 {
            price_adjusted.safe_mul(pow10_u64(final_exponent as u32))
        } else {
            proof {
                lemma_pow10_monotone(0, (-final_exponent) as nat);
            }
            price_adjusted.safe_div(pow10_u64((-final_exponent) as u32))
        }
    }

    /// The number of tokens with `token_decimals` decimals that `asset_amount_usd`
    /// (6 decimals) buys at this price.
    pub fn get_token_amount(&self, asset_amount_usd: u64, token_decimals: u8) -> (r: TYieldResult<
        u64,
    >)
        requires
            token_amount_pow_ok(self.price, self.exponent, asset_amount_usd, token_decimals),
        ensures
            r == token_amount_of(self.price, self.exponent, asset_amount_usd, token_decimals),
    {
        if asset_amount_usd == 0 || self.price == 0 {
            return Ok(0);
        }
        let usd_base = asset_amount_usd.safe_mul(pow10_u64(USD_DECIMALS as u32))?;
        let price_adjusted = usd_base.safe_div(self.price)?;
        let exponent_adjustment = self.exponent.safe_sub(USD_DECIMALS as i32)?;
        let token_exponent = -(token_decimals as i32);
        let final_exponent = exponent_adjustment.safe_sub(token_exponent)?;
        if final_exponent >= 0 {
            price_adjusted.safe_mul(pow10_u64(final_exponent as u32))
        } else {
            proof {
                lemma_pow10_monotone(0, (-final_exponent) as nat);
            }
            price_adjusted.safe_div(pow10_u64((-final_exponent) as u32))
        }
    }

    /// This price with a mantissa of at most `ORACLE_MAX_PRICE`.
    pub fn normalize(&self) -> (r: TYieldResult<OraclePrice>)
        ensures
            r == normalized(self.price, self.exponent),
    {
        let mut p = self.price;
        let mut e = self.exponent;
        while p > ORACLE_MAX_PRICE
            invariant
                normalized(p, e) == normalized(self.price, self.exponent),
            decreases p,
        {
            p = p.safe_div(10)?;
            e = e.safe_add(1)?;
        }
        Ok(OraclePrice { price: p, exponent: e })
    }

    /// `self / other`, both normalized first, with nine more decimals of
    /// precision.
    pub fn checked_div(&self, other: &OraclePrice) -> (r: TYieldResult<OraclePrice>)
        ensures
            r == (match (normalized(self.price, self.exponent), normalized(other.price, other.exponent)) {
                (Err(e), _) => Err(e),
                (Ok(_), Err(e)) => Err(e),
                (Ok(a), Ok(b)) => if b.price == 0 || a.exponent + ORACLE_EXPONENT_SCALE - b.exponent
                    > i32::MAX || a.exponent + ORACLE_EXPONENT_SCALE - b.exponent < i32::MIN
                    || a.exponent + ORACLE_EXPONENT_SCALE < i32::MIN {
                    Err(ErrorCode::MathError)
                } else {
                    Ok(OraclePrice {
                        price: (a.price * ORACLE_PRICE_SCALE / (b.price as int)) as u64,
                        exponent: (a.exponent + ORACLE_EXPONENT_SCALE - b.exponent) as i32,
                    })
                },
            }),
    {
        let base = self.normalize()?;
        let other = other.normalize()?;
        proof {
            lemma_normalized_bound(self.price, self.exponent);
        }
        Ok(
            OraclePrice {
                price: base.price.safe_mul(ORACLE_PRICE_SCALE)?.safe_div(other.price)?,
                exponent: base.exponent.safe_add(ORACLE_EXPONENT_SCALE)?.safe_sub(other.exponent)?,
            },
        )
    }

    /// `self * other`: mantissas multiplied, exponents added, `MathError` on
    /// overflow.
    pub fn checked_mul(&self, other: &OraclePrice) -> (r: TYieldResult<OraclePrice>)
        ensures
            r == (if self.price * other.price > u64::MAX || self.exponent + other.exponent
                > i32::MAX || self.exponent + other.exponent < i32::MIN {
                Err(ErrorCode::MathError)
            } else {
                Ok(
                    OraclePrice {
                        price: (self.price * other.price) as u64,
                        exponent: (self.exponent + other.exponent) as i32,
                    },
                )
            }),
    {
        Ok(
            OraclePrice {
                price: self.price.safe_mul(other.price)?,
                exponent: self.exponent.safe_add(other.exponent)?,
            },
        )
    }

    /// This price at exponent `target_exponent`.
    pub fn scale_to_exponent(&self, target_exponent: i32) -> (r: TYieldResult<OraclePrice>)
        requires
            scale_ok(self.exponent, target_exponent),
        ensures
            r == scaled_to(self.price, self.exponent, target_exponent),
    {
        if target_exponent == self.exponent {
            return Ok(*self);
        }
        let delta = target_exponent.safe_sub(self.exponent)?;
        if delta > 0 {
            proof {
                lemma_pow10_monotone(0, delta as nat);
            }
            let divisor = pow10_u64(delta as u32);
            Ok(OraclePrice { price: self.price.safe_div(divisor)?, exponent: target_exponent })
        } else {
            let multiplier = pow10_u64((-delta) as u32);
            Ok(OraclePrice { price: self.price.safe_mul(multiplier)?, exponent: target_exponent })
        }
    }

    /// The lower of two prices; for a stable asset it is capped at one dollar
    /// (a positive exponent with a non-zero price gives exactly one dollar).
    pub fn get_min_price(&self, other: &OraclePrice, is_stable: bool) -> (r: TYieldResult<
        OraclePrice,
    >)
        requires
            is_stable ==> min_price_of(*self, *other, false, price_lt(*self, *other)).exponent
                > 0 || -19 <= min_price_of(*self, *other, false, price_lt(*self, *other)).exponent,
        ensures
            r == Ok::<OraclePrice, ErrorCode>(
                min_price_of(*self, *other, is_stable, price_lt(*self, *other)),
            ),
    {
        let min_price = if self.is_lower_than(other) {
            *self
        } else {
            *other
        };
        if is_stable {
            if min_price.exponent > 0 {
                if min_price.price == 0 {
                    return Ok(min_price);
                } else {
                    return Ok(OraclePrice { price: 1000000u64, exponent: -6 });
                }
            }
            let one_usd = pow10_u64((-min_price.exponent) as u32);
            if min_price.price > one_usd {
                Ok(OraclePrice { price: one_usd, exponent: min_price.exponent })
            } else {
                Ok(min_price)
            }
        } else {
            Ok(min_price)
        }
    }

    /// Checks a custom price: non-zero and with a confidence interval of at most
    /// `max_price_error` basis points; both failures are `MathError`.
    pub fn validate_custom_price(price: u64, conf: u64, max_price_error: u64) -> (r: TYieldResult<
        (),
    >)
        ensures
            r == (if price == 0 || conf_ratio(conf, price as u128) > max_price_error {
                Err::<(), ErrorCode>(ErrorCode::MathError)
            } else {
                Ok(())
            }),
    {
        if price == 0 {
            return Err(ErrorCode::MathError);
        }
        let ratio = conf_ratio_bps(conf, price as u128);
        if ratio > max_price_error as u128 {
            return Err(ErrorCode::MathError);
        }
        Ok(())
    }

    /// Checks that a price published at `publish_time` is at most `max_age_sec`
    /// old at `current_time`; a stale price is `MathError`.
    pub fn validate_price_age(current_time: i64, publish_time: i64, max_age_sec: u32) -> (r:
        TYieldResult<()>)
        ensures
            r == (match price_age(current_time, publish_time) {
                Err(e) => Err(e),
                Ok(age) => if age > max_age_sec {
                    Err(ErrorCode::MathError)
                } else {
                    Ok(())
                },
            }),
    {
        let age_sec = current_time.safe_sub(publish_time)?;
        if age_sec > max_age_sec as i64 {
            return Err(ErrorCode::MathError);
        }
        Ok(())
    }

    /// The price a custom oracle account gives: it must pass
    /// `get_secure_price`, then the EMA or spot price is taken and refused when
    /// zero or too uncertain for `max_price_error` (`InvalidOraclePrice`).
    pub fn get_custom_price(
        oracle: &CustomOracle,
        max_price_error: u64,
        max_price_age_sec: u32,
        current_time: i64,
        use_ema: bool,
    ) -> (r: TYieldResult<OraclePrice>)
        ensures
            r == custom_price_of(*oracle, max_price_error, max_price_age_sec, current_time, use_ema),
    {
        let _secure_price = oracle.get_secure_price(current_time, max_price_age_sec)?;
        let last_update_age_sec = current_time.safe_sub(oracle.publish_time)?;
        if last_update_age_sec > max_price_age_sec as i64 {
            return Err(ErrorCode::StaleOraclePrice);
        }
        let price = if use_ema {
            oracle.ema
        } else {
            oracle.price
        };
        if price == 0 {
            return Err(ErrorCode::InvalidOraclePrice);
        }
        if conf_ratio_bps(oracle.conf, price as u128) > max_price_error as u128 {
            return Err(ErrorCode::InvalidOraclePrice);
        }
        Ok(OraclePrice { price, exponent: oracle.expo })
    }

    /// The price the readings of a Pyth update give (see `pyth_price_of`).
    pub fn checked_pyth_price(
        spot: PythPrice,
        twap: Option<PythTwap>,
        max_price_error: u64,
        max_price_age_sec: u32,
        current_time: i64,
        use_ema: bool,
    ) -> (r: TYieldResult<OraclePrice>)
        ensures
            r == pyth_price_of(spot, twap, max_price_error, max_price_age_sec, current_time, use_ema),
    {
        if use_ema {
            match twap {
                None => Err(ErrorCode::MissingTwap),
                Some(t) => {
                    if is_out_of_bounds(t.price, t.conf, max_price_error) {
                        return Err(ErrorCode::InvalidOraclePrice);
                    }
                    Ok(OraclePrice { price: t.price as u64, exponent: t.exponent })
                },
            }
        } else {
            let last_update_age_sec = current_time.safe_sub(spot.publish_time)?;
            if last_update_age_sec > max_price_age_sec as i64 {
                return Err(ErrorCode::StaleOraclePrice);
            }
            if is_out_of_bounds(spot.price, spot.conf, max_price_error) {
                return Err(ErrorCode::InvalidOraclePrice);
            }
            Ok(OraclePrice { price: spot.price as u64, exponent: spot.exponent })
        }
    }

    /// The price a Pyth update (and, optionally, a TWAP update) gives for
    /// `feed_id` (see `pyth_reading_of`).
    pub fn get_pyth_price(
        update: &PythUpdate,
        twap_update: Option<&PythTwapUpdate>,
        max_price_error: u64,
        max_price_age_sec: u32,
        current_time: i64,
        use_ema: bool,
        feed_id: [u8; 32],
    ) -> (r: TYieldResult<OraclePrice>)
        ensures
            r == pyth_reading_of(
                *update,
                match twap_update {
                    Some(t) => Some(*t),
                    None => None,
                },
                max_price_error,
                max_price_age_sec,
                current_time,
                use_ema,
                feed_id@,
            ),
    {
        let average = match twap_update {
            Some(t) => Some(
                twap_no_older_than(t, current_time, PYTH_MAXIMUM_AGE, max_price_age_sec as u64, &feed_id)?,
            ),
            None => None,
        };
        let spot = price_no_older_than(update, current_time, PYTH_MAXIMUM_AGE, &feed_id)?;
        Self::checked_pyth_price(spot, average, max_price_error, max_price_age_sec, current_time, use_ema)
    }

    /// The primary price, accepted when the secondary one is within
    /// `max_price_deviation_bps` of it (`PriceDeviationTooHigh` otherwise) and
    /// when a confidence of 100 is within `max_price_error`
    /// (`InvalidOraclePrice` otherwise).
    pub fn get_multi_oracle_price(
        primary: OraclePrice,
        secondary: OraclePrice,
        oracle_params: &OracleParams,
    ) -> (r: TYieldResult<OraclePrice>)
        ensures
            r == multi_price_of(primary, secondary, *oracle_params),
    {
        let deviation = deviation_bps(primary.price, secondary.price, primary.price)?;
        if deviation > oracle_params.max_price_deviation_bps {
            return Err(ErrorCode::PriceDeviationTooHigh);
        }
        let final_price = primary.price;
        if final_price == 0 || conf_ratio_bps(100, final_price as u128)
            > oracle_params.max_price_error as u128 {
            return Err(ErrorCode::InvalidOraclePrice);
        }
        Ok(primary)
    }
    /// The price an asset's oracle gives for `feed_id` (see
    /// `oracle_price_of`), from what its accounts hold: a custom oracle, and
    /// a Pyth price update with its optional TWAP update, each `None` when the
    /// account holds none.
    pub fn new_from_oracle(
        custom: Option<CustomOracle>,
        pyth: Option<(PythUpdate, Option<PythTwapUpdate>)>,
        oracle_params: &OracleParams,
        current_time: i64,
        use_ema: bool,
        feed_id: [u8; 32],
    ) -> (r: TYieldResult<OraclePrice>)
        ensures
            r == oracle_price_of(custom, pyth, *oracle_params, current_time, use_ema, feed_id@),
    {
        let max_error = oracle_params.max_price_error;
        let max_age = oracle_params.max_price_age_sec;
        match oracle_params.oracle_type {
            OracleType::Custom => match custom {
                None => Err(ErrorCode::InvalidOracleAccount),
                Some(c) => Self::get_custom_price(&c, max_error, max_age, current_time, use_ema),
            },
            OracleType::Pyth => match pyth {
                None => Err(ErrorCode::InvalidOracleAccount),
                Some((update, twap)) => Self::get_pyth_price(
                    &update,
                    match &twap {
                        Some(t) => Some(t),
                        None => None,
                    },
                    max_error,
                    max_age,
                    current_time,
                    use_ema,
                    feed_id,
                ),
            },
            OracleType::MultiOracle => {
                let primary = match custom {
                    None => Err(ErrorCode::InvalidOracleAccount),
                    Some(c) => Self::get_custom_price(&c, max_error, max_age, current_time, use_ema),
                }?;
                let secondary = match pyth {
                    None => Err(ErrorCode::InvalidOracleAccount),
                    Some((update, twap)) => Self::get_pyth_price(
                    &update,
                    match &twap {
                        Some(t) => Some(t),
                        None => None,
                    },
                    max_error,
                    max_age,
                    current_time,
                    use_ema,
                    feed_id,
                ),
                }?;
                Self::get_multi_oracle_price(primary, secondary, oracle_params)
            },
        }
    }
}

/// A normalized mantissa is at most `ORACLE_MAX_PRICE`.
proof fn lemma_normalized_bound(price: u64, exponent: i32)
    ensures
        normalized(price, exponent) matches Ok(n) ==> n.price <= ORACLE_MAX_PRICE,
    decreases price,
{
    if price > ORACLE_MAX_PRICE && exponent != i32::MAX {
        lemma_normalized_bound(price / 10, (exponent + 1) as i32);
    }
}


/// A custom oracle's deviation limit is in basis points of the current
/// price, like the deviation it bounds: for non-zero old and new prices (and a
/// move whose basis points fit a `u64`), the update is refused with
/// `PriceDeviationTooHigh` exactly when
/// `|new - old| * 10_000 >= (max_dev + 1) * old`, that is when the move in
/// basis points, rounded down, exceeds `max_dev`.
pub proof fn lemma_custom_deviation_in_bps(old_price: u64, max_dev: u64, new_price: u64, new_conf: u64)
    requires
        old_price > 0,
        new_price > 0,
        (if new_price >= old_price {
            new_price - old_price
        } else {
            old_price - new_price
        }) * 10_000 <= u64::MAX,
    ensures
        (custom_update_check(old_price, max_dev, new_price, new_conf) == Err::<(), ErrorCode>(
            ErrorCode::PriceDeviationTooHigh,
        )) <==> (if new_price >= old_price {
            new_price - old_price
        } else {
            old_price - new_price
        }) * 10_000 >= (max_dev + 1) * old_price,
{
    let d: int = if new_price >= old_price {
        new_price - old_price
    } else {
        old_price - new_price
    };
    let e = old_price as int;
    let q = (d * 10_000) / e;
    let mx = max_dev as int;
    assert(q > mx <==> d * 10_000 >= (mx + 1) * e) by (nonlinear_arith)
        requires
            e > 0,
            d >= 0,
            q == (d * 10_000) / e,
    ;
}

/// Two oracles agree when the secondary price is within the allowed
/// deviation of the primary, in basis points of the primary, in either
/// direction: for a non-zero primary price (and a difference whose basis
/// points fit a `u64`), the pair is refused with `PriceDeviationTooHigh`
/// exactly when
/// `|secondary - primary| * 10_000 >= (max_price_deviation_bps + 1) * primary`;
/// an accepted pair gives the primary price.
pub proof fn lemma_multi_oracle_deviation_in_bps(primary: OraclePrice, secondary: OraclePrice, params: OracleParams)
    requires
        primary.price > 0,
        (if secondary.price >= primary.price {
            secondary.price - primary.price
        } else {
            primary.price - secondary.price
        }) * 10_000 <= u64::MAX,
    ensures
        (multi_price_of(primary, secondary, params) == Err::<OraclePrice, ErrorCode>(
            ErrorCode::PriceDeviationTooHigh,
        )) <==> (if secondary.price >= primary.price {
            secondary.price - primary.price
        } else {
            primary.price - secondary.price
        }) * 10_000 >= (params.max_price_deviation_bps + 1) * primary.price,
        multi_price_of(primary, secondary, params) matches Ok(p) ==> p == primary,
{
    let d: int = if secondary.price >= primary.price {
        secondary.price - primary.price
    } else {
        primary.price - secondary.price
    };
    let e = primary.price as int;
    let q = (d * 10_000) / e;
    let mx = params.max_price_deviation_bps as int;
    assert(q > mx <==> d * 10_000 >= (mx + 1) * e) by (nonlinear_arith)
        requires
            e > 0,
            d >= 0,
            q == (d * 10_000) / e,
    ;
}
} // verus!
