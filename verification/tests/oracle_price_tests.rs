use tubor_yield::error::ErrorCode;
use tubor_yield::state::oracle::{
    price_no_older_than, twap_no_older_than, CustomOracle, OracleParams, OraclePrice, OracleType,
    PythPrice, PythTwap, PythTwapUpdate, PythUpdate, PYTH_MAXIMUM_AGE,
};

#[test]
fn usd_and_token_amounts() {
    let price = OraclePrice::new(150, -2);
    // 2 tokens at 1.50 are 3.000000 USD.
    assert_eq!(price.get_asset_amount_usd(2, 0), Ok(3_000_000));
    assert_eq!(price.get_asset_amount_usd(0, 0), Ok(0));
    // 3e6 * 1e6 / 150 = 2e10, moved to exponent -8.
    assert_eq!(price.get_token_amount(3_000_000, 0), Ok(200));
    assert_eq!(OraclePrice::new(u64::MAX, 0).get_asset_amount_usd(2, 0), Err(ErrorCode::MathError));
}

#[test]
fn scaling_between_exponents() {
    let price = OraclePrice::new(1500, -3);
    assert_eq!(price.scale_to_exponent(0), Ok(OraclePrice::new(1, 0)));
    assert_eq!(price.scale_to_exponent(-5), Ok(OraclePrice::new(150_000, -5)));
    assert_eq!(price.scale_to_exponent(-3), Ok(price));
    assert_eq!(OraclePrice::new(u64::MAX, 0).scale_to_exponent(-1), Err(ErrorCode::MathError));
}

#[test]
fn pyth_price_checks() {
    let spot = PythPrice { price: 1000, conf: 1, exponent: -2, publish_time: 100 };
    assert_eq!(OraclePrice::checked_pyth_price(spot, None, 100, 60, 150, false), Ok(OraclePrice::new(1000, -2)));
    assert_eq!(
        OraclePrice::checked_pyth_price(spot, None, 100, 60, 200, false),
        Err(ErrorCode::StaleOraclePrice)
    );
    assert_eq!(OraclePrice::checked_pyth_price(spot, None, 100, 60, 150, true), Err(ErrorCode::MissingTwap));
    let twap = PythTwap { price: 990, conf: 50, exponent: -2 };
    // 50 / 990 is about 505 basis points, over the 100 allowed.
    assert_eq!(
        OraclePrice::checked_pyth_price(spot, Some(twap), 100, 60, 150, true),
        Err(ErrorCode::InvalidOraclePrice)
    );
    assert_eq!(
        OraclePrice::checked_pyth_price(spot, Some(twap), 1000, 60, 150, true),
        Ok(OraclePrice::new(990, -2))
    );
    let wide = PythPrice { conf: 20, ..spot };
    assert_eq!(OraclePrice::checked_pyth_price(wide, None, 100, 60, 150, false), Err(ErrorCode::InvalidOraclePrice));
}

#[test]
fn multi_oracle_checks() {
    let mut params = OracleParams::default();
    params.max_price_deviation_bps = 200;
    params.max_price_error = 2000;
    let primary = OraclePrice::new(1000, 0);
    assert_eq!(OraclePrice::get_multi_oracle_price(primary, OraclePrice::new(1010, 0), &params), Ok(primary));
    assert_eq!(
        OraclePrice::get_multi_oracle_price(primary, OraclePrice::new(1100, 0), &params),
        Err(ErrorCode::PriceDeviationTooHigh)
    );
    params.max_price_error = 100;
    assert_eq!(
        OraclePrice::get_multi_oracle_price(primary, OraclePrice::new(1010, 0), &params),
        Err(ErrorCode::InvalidOraclePrice)
    );
}

#[test]
fn custom_oracle_prices() {
    let mut oracle = CustomOracle::default();
    oracle.price = 1000;
    oracle.conf = 5;
    oracle.ema = 990;
    oracle.publish_time = 100;
    oracle.expo = -2;
    assert_eq!(OraclePrice::get_custom_price(&oracle, 100, 60, 150, false), Ok(OraclePrice::new(1000, -2)));
    assert_eq!(OraclePrice::get_custom_price(&oracle, 100, 60, 150, true), Ok(OraclePrice::new(990, -2)));
    assert_eq!(
        OraclePrice::get_custom_price(&oracle, 100, 60, 500, false),
        Err(ErrorCode::StaleOraclePrice)
    );
}

#[test]
fn oracle_price_by_kind() {
    let mut oracle = CustomOracle::default();
    oracle.price = 1000;
    oracle.conf = 5;
    oracle.ema = 990;
    oracle.publish_time = 100;
    oracle.expo = -2;
    let feed = [3u8; 32];
    let spot = PythUpdate {
        feed_id: feed,
        fully_verified: true,
        price: 1010,
        conf: 1,
        exponent: -2,
        publish_time: 100,
    };
    let mut params = OracleParams::default();
    params.max_price_error = 2000;
    params.max_price_age_sec = 60;
    params.max_price_deviation_bps = 200;

    params.oracle_type = OracleType::Pyth;
    assert_eq!(
        OraclePrice::new_from_oracle(Some(oracle), Some((spot, None)), &params, 150, false, feed),
        Ok(OraclePrice::new(1010, -2))
    );
    assert_eq!(
        OraclePrice::new_from_oracle(Some(oracle), None, &params, 150, false, feed),
        Err(ErrorCode::InvalidOracleAccount)
    );
    // Another feed is refused.
    assert_eq!(
        OraclePrice::new_from_oracle(Some(oracle), Some((spot, None)), &params, 150, false, [4u8; 32]),
        Err(ErrorCode::InvalidOraclePrice)
    );

    params.oracle_type = OracleType::Custom;
    assert_eq!(
        OraclePrice::new_from_oracle(Some(oracle), None, &params, 150, false, feed),
        Ok(OraclePrice::new(1000, -2))
    );
    assert_eq!(
        OraclePrice::new_from_oracle(None, Some((spot, None)), &params, 150, false, feed),
        Err(ErrorCode::InvalidOracleAccount)
    );

    params.oracle_type = OracleType::MultiOracle;
    assert_eq!(
        OraclePrice::new_from_oracle(Some(oracle), Some((spot, None)), &params, 150, false, feed),
        Ok(OraclePrice::new(1000, -2))
    );
    let far = PythUpdate { price: 1100, ..spot };
    assert_eq!(
        OraclePrice::new_from_oracle(Some(oracle), Some((far, None)), &params, 150, false, feed),
        Err(ErrorCode::PriceDeviationTooHigh)
    );
    assert_eq!(
        OraclePrice::new_from_oracle(Some(oracle), Some((spot, None)), &params, 500, false, feed),
        Err(ErrorCode::StaleOraclePrice)
    );
}

#[test]
fn pyth_update_checks() {
    let feed = [3u8; 32];
    let update = PythUpdate {
        feed_id: feed,
        fully_verified: true,
        price: 1000,
        conf: 1,
        exponent: -2,
        publish_time: 100,
    };
    let reading = PythPrice { price: 1000, conf: 1, exponent: -2, publish_time: 100 };
    assert_eq!(price_no_older_than(&update, 700, PYTH_MAXIMUM_AGE, &feed), Ok(reading));
    assert_eq!(price_no_older_than(&update, 701, PYTH_MAXIMUM_AGE, &feed), Err(ErrorCode::InvalidOraclePrice));
    assert_eq!(price_no_older_than(&update, 150, PYTH_MAXIMUM_AGE, &[4u8; 32]), Err(ErrorCode::InvalidOraclePrice));
    let partial = PythUpdate { fully_verified: false, ..update };
    assert_eq!(price_no_older_than(&partial, 150, PYTH_MAXIMUM_AGE, &feed), Err(ErrorCode::InvalidOraclePrice));
    // The age limit saturates instead of overflowing.
    let late = PythUpdate { publish_time: i64::MAX, ..update };
    assert!(price_no_older_than(&late, i64::MAX, PYTH_MAXIMUM_AGE, &feed).is_ok());

    let twap = PythTwapUpdate { feed_id: feed, start_time: 40, end_time: 100, price: 990, conf: 2, exponent: -2 };
    let average = PythTwap { price: 990, conf: 2, exponent: -2 };
    assert_eq!(twap_no_older_than(&twap, 700, PYTH_MAXIMUM_AGE, 60, &feed), Ok(average));
    assert_eq!(twap_no_older_than(&twap, 700, PYTH_MAXIMUM_AGE, 30, &feed), Err(ErrorCode::InvalidOraclePrice));
    assert_eq!(twap_no_older_than(&twap, 701, PYTH_MAXIMUM_AGE, 60, &feed), Err(ErrorCode::InvalidOraclePrice));
    assert_eq!(twap_no_older_than(&twap, 700, PYTH_MAXIMUM_AGE, 60, &[4u8; 32]), Err(ErrorCode::InvalidOraclePrice));

    // The EMA path reads the TWAP over a window of the maximum age.
    assert_eq!(
        OraclePrice::get_pyth_price(&update, Some(&twap), 1000, 60, 150, true, feed),
        Ok(OraclePrice::new(990, -2))
    );
    assert_eq!(
        OraclePrice::get_pyth_price(&update, Some(&twap), 1000, 30, 150, true, feed),
        Err(ErrorCode::InvalidOraclePrice)
    );
    assert_eq!(
        OraclePrice::get_pyth_price(&update, None, 1000, 60, 150, false, feed),
        Ok(OraclePrice::new(1000, -2))
    );
}

#[test]
fn scaling_down_and_back() {
    let price = OraclePrice::new(1234, -2);
    let finer = price.scale_to_exponent(-6).unwrap();
    assert_eq!(finer, OraclePrice::new(12_340_000, -6));
    assert_eq!(finer.scale_to_exponent(-2), Ok(price));
    // Upward scaling rounds down.
    assert_eq!(price.scale_to_exponent(0), Ok(OraclePrice::new(12, 0)));
}
