use tubor_yield::instructions::secure_oracle_update::{
    check_circuit_breaker, check_rate_limit, detect_price_manipulation, SecureOracleUpdateParams,
};
use tubor_yield::state::oracle::CustomOracle;

#[test]
fn secure_oracle_update_test_rate_limiting() {
    let mut oracle = CustomOracle::default();
    oracle.publish_time = 1000;

    let result = check_rate_limit(&oracle, 1050);
    assert!(result.is_err());

    let result = check_rate_limit(&oracle, 1070);
    assert!(result.is_ok());
}

#[test]
fn secure_oracle_update_test_circuit_breaker() {
    let mut oracle = CustomOracle::default();
    oracle.price = 1000;

    let params = SecureOracleUpdateParams {
        new_price: 1600,
        confidence: 100,
        ema: 1600,
        publish_time: 1000,
        exponent: 0,
        max_deviation_bps: 1000,
        is_emergency: false,
    };

    let result = check_circuit_breaker(&oracle, &params, 1000);
    assert!(result.is_err());
}

#[test]
fn test_price_manipulation_detection() {
    let mut oracle = CustomOracle::default();
    oracle.price = 1000;

    let params = SecureOracleUpdateParams {
        new_price: 11000,
        confidence: 100,
        ema: 11000,
        publish_time: 1000,
        exponent: 0,
        max_deviation_bps: 1000,
        is_emergency: false,
    };

    let result = detect_price_manipulation(&oracle, &params);
    assert!(result.is_err());
}
