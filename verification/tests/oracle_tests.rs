use tubor_yield::pubkey::Pubkey;
use tubor_yield::state::oracle::{CustomOracle, OracleParams, OracleType};

#[test]
fn test_custom_oracle_memory_layout() {
    let oracle = CustomOracle::default();
    assert_eq!(oracle.price, 0);
    assert_eq!(oracle.conf, 0);
    assert_eq!(oracle.ema, 0);
    assert_eq!(oracle.publish_time, 0);
    assert_eq!(oracle.expo, 0);
    assert_eq!(oracle.last_update_authority, Pubkey::default());
    assert_eq!(oracle.update_count, 0);
    assert_eq!(oracle.max_allowed_deviation, 0);
    assert_eq!(oracle._padding, [0; 8]);
}

#[test]
fn test_oracle_params_memory_layout() {
    let params = OracleParams::default();
    assert_eq!(params.oracle_account, Pubkey::default());
    assert_eq!(params.feed_id, [0; 32]);
    assert_eq!(params.max_price_error, 0);
    assert_eq!(params.max_price_age_sec, 0);
    assert_eq!(params.oracle_type, OracleType::default());
    assert_eq!(params.max_price_deviation_bps, 0);
    assert_eq!(params.min_oracle_consensus, 0);
    assert_eq!(params._padding, [0; 2]);
}
