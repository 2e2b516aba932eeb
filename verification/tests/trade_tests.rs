use tubor_yield::error::ErrorCode;
use tubor_yield::math::constants::PERCENTAGE_PRECISION_U64;
use tubor_yield::math::safe_math::SafeMath;
use tubor_yield::pubkey::Pubkey;
use tubor_yield::state::oracle::OraclePrice;
use tubor_yield::state::trade::{
    OracleConsensus, PriceValidationConfig, Trade, TradeInitParams, TradeResult, TradeSecurityConfig, TradeStatus,
    TradeType,
};

/// A distinct, non-default key for each `n`.
fn key(n: u8) -> Pubkey {
    let mut bytes = [0u8; 32];
    bytes[0] = n;
    bytes[31] = 0x11;
    Pubkey::new_from_array(bytes)
}

fn create_valid_buy_trade() -> Trade {
    Trade {
        master_agent: key(1),
        size: 100,
        entry_price: 1000,
        take_profit: 1100,
        stop_loss: 900,
        created_at: 1000,
        updated_at: 1000,
        pair: [65, 66, 67, 68, 69, 70, 71, 72],
        feed_id: [1; 32],
        status: TradeStatus::Active.bits(),
        trade_type: TradeType::Buy.bits(),
        result: TradeResult::Pending.bits(),
        bump: 1,
        authority: key(2),
        oracle_consensus_count: 0,
        last_price_update: 1000,
        circuit_breaker_triggered: false,
        _padding: [0; 2],
    }
}

fn create_valid_sell_trade() -> Trade {
    Trade {
        master_agent: key(3),
        size: 100,
        entry_price: 1000,
        take_profit: 900,
        stop_loss: 1100,
        created_at: 1000,
        updated_at: 1000,
        pair: [65, 66, 67, 68, 69, 70, 71, 72],
        feed_id: [1; 32],
        status: TradeStatus::Active.bits(),
        trade_type: TradeType::Sell.bits(),
        result: TradeResult::Pending.bits(),
        bump: 1,
        authority: key(4),
        oracle_consensus_count: 0,
        last_price_update: 1000,
        circuit_breaker_triggered: false,
        _padding: [0; 2],
    }
}

#[test]
fn test_trade_memory_layout() {
    let trade = Trade {
        master_agent: Pubkey::default(),
        size: 0,
        entry_price: 0,
        take_profit: 0,
        stop_loss: 0,
        created_at: 0,
        updated_at: 0,
        pair: [0; 8],
        feed_id: [0; 32],
        status: 0,
        trade_type: 0,
        result: 0,
        bump: 0,
        authority: Pubkey::default(),
        oracle_consensus_count: 0,
        last_price_update: 0,
        circuit_breaker_triggered: false,
        _padding: [0; 2],
    };

    assert_eq!(trade.master_agent, Pubkey::default());
    assert_eq!(trade.size, 0);
    assert_eq!(trade.entry_price, 0);
    assert_eq!(trade.take_profit, 0);
    assert_eq!(trade.stop_loss, 0);
    assert_eq!(trade.created_at, 0);
    assert_eq!(trade.pair, [0; 8]);
    assert_eq!(trade.feed_id, [0; 32]);
    assert_eq!(trade.status, 0);
    assert_eq!(trade.trade_type, 0);
    assert_eq!(trade.result, 0);
    assert_eq!(trade.bump, 0);
    assert_eq!(trade.authority, Pubkey::default());
    assert_eq!(trade.oracle_consensus_count, 0);
    assert_eq!(trade.last_price_update, 0);
    assert_eq!(trade.circuit_breaker_triggered, false);
    assert_eq!(trade._padding, [0; 2]);
}

#[test]
fn test_trade_status_enum_conversion() {
    let mut trade = create_valid_buy_trade();

    assert_eq!(trade.get_status(), TradeStatus::Active);
    assert_eq!(trade.get_trade_type(), TradeType::Buy);
    assert_eq!(trade.get_result(), TradeResult::Pending);

    let authority = trade.authority;
    trade.set_status(TradeStatus::Completed, &authority, 2000).unwrap();
    assert_eq!(trade.get_status(), TradeStatus::Completed);

    trade.set_status(TradeStatus::Cancelled, &authority, 2000).unwrap();
    assert_eq!(trade.get_status(), TradeStatus::Cancelled);

    trade.set_result(TradeResult::Success, &authority, 2000).unwrap();
    assert_eq!(trade.get_result(), TradeResult::Success);

    trade.set_result(TradeResult::Failed, &authority, 2000).unwrap();
    assert_eq!(trade.get_result(), TradeResult::Failed);
}

#[test]
fn test_trade_type_enum_conversion() {
    let mut trade = create_valid_buy_trade();

    assert_eq!(trade.get_trade_type(), TradeType::Buy);
    assert!(trade.is_buy());
    assert!(!trade.is_sell());

    trade.trade_type = TradeType::Sell.bits();
    assert_eq!(trade.get_trade_type(), TradeType::Sell);
    assert!(!trade.is_buy());
    assert!(trade.is_sell());
}

#[test]
fn test_trade_status_checks() {
    let mut trade = create_valid_buy_trade();

    assert!(trade.is_active());
    assert!(!trade.is_completed());
    assert!(!trade.is_cancelled());

    let authority = trade.authority;
    trade.set_status(TradeStatus::Completed, &authority, 2000).unwrap();
    assert!(!trade.is_active());
    assert!(trade.is_completed());
    assert!(!trade.is_cancelled());

    trade.set_status(TradeStatus::Cancelled, &authority, 2000).unwrap();
    assert!(!trade.is_active());
    assert!(!trade.is_completed());
    assert!(trade.is_cancelled());
}

#[test]
fn test_trade_validation() {
    let mut trade = create_valid_buy_trade();

    assert!(trade.validate().is_ok());

    trade.size = 0;
    assert!(trade.validate().is_err());

    trade.size = 1000;
    trade.entry_price = 0;
    assert!(trade.validate().is_err());

    trade.entry_price = 10000;
    trade.take_profit = 9000;
    assert!(trade.validate().is_err());

    trade.trade_type = TradeType::Sell.bits();
    trade.take_profit = 11000;
    assert!(trade.validate().is_err());

    trade.trade_type = TradeType::Buy.bits();
    trade.take_profit = 11000;
    trade.stop_loss = 11000;
    assert!(trade.validate().is_err());

    trade.trade_type = TradeType::Sell.bits();
    trade.stop_loss = 9000;
    assert!(trade.validate().is_err());
}

#[test]
fn test_calculate_pnl() {
    let trade = create_valid_buy_trade();

    let pnl = trade.calculate_pnl(1100);
    assert!(pnl > 0);

    let pnl = trade.calculate_pnl(900);
    assert!(pnl < 0);

    let pnl = trade.calculate_pnl(1000);
    assert_eq!(pnl, 0);
}

#[test]
fn test_calculate_pnl_safe() {
    let trade = create_valid_buy_trade();

    let pnl = trade.calculate_pnl_safe(1100);
    assert!(pnl.is_ok());
    assert!(pnl.unwrap() > 0);

    let pnl = trade.calculate_pnl_safe(0);
    assert!(pnl.is_err());

    let sell_trade = create_valid_sell_trade();
    let pnl = sell_trade.calculate_pnl_safe(900);
    assert!(pnl.is_ok());
    assert!(pnl.unwrap() > 0);
}

#[test]
fn test_calculate_pnl_percentage() {
    let trade = create_valid_buy_trade();

    let percentage = trade.calculate_pnl_percentage(1100);
    assert!(percentage.is_ok());
    assert!(percentage.unwrap() > 0);

    let percentage = trade.calculate_pnl_percentage(0);
    assert!(percentage.is_err());
}

#[test]
fn test_calculate_unrealized_pnl() {
    let mut trade = create_valid_buy_trade();

    let unrealized_pnl = trade.calculate_unrealized_pnl(1100);
    assert!(unrealized_pnl.is_ok());
    assert!(unrealized_pnl.unwrap() > 0);

    let authority = trade.authority;
    trade.set_status(TradeStatus::Completed, &authority, 2000).unwrap();
    let unrealized_pnl = trade.calculate_unrealized_pnl(1100);
    assert!(unrealized_pnl.is_ok());
    assert_eq!(unrealized_pnl.unwrap(), 0);

    trade.set_status(TradeStatus::Cancelled, &authority, 2000).unwrap();
    let unrealized_pnl = trade.calculate_unrealized_pnl(1100);
    assert!(unrealized_pnl.is_ok());
    assert_eq!(unrealized_pnl.unwrap(), 0);
}

#[test]
fn test_calculate_max_profit_and_loss() {
    let trade = create_valid_buy_trade();

    let max_profit = trade.calculate_max_profit();
    assert!(max_profit.is_ok());
    assert!(max_profit.unwrap() > 0);

    let max_loss = trade.calculate_max_loss();
    assert!(max_loss.is_ok());
    assert!(max_loss.unwrap() < 0);

    let sell_trade = create_valid_sell_trade();
    let max_profit = sell_trade.calculate_max_profit();
    assert!(max_profit.is_ok());
    assert!(max_profit.unwrap() > 0);

    let max_loss = sell_trade.calculate_max_loss();
    assert!(max_loss.is_ok());
    assert!(max_loss.unwrap() < 0);
}

#[test]
fn test_debug_pnl_calculation() {
    let trade = create_valid_buy_trade();
    println!(
        "Trade: size={}, entry_price={}, take_profit={}, stop_loss={}",
        trade.size, trade.entry_price, trade.take_profit, trade.stop_loss
    );

    let price_diff = trade.take_profit as i64 - trade.entry_price as i64;
    println!("Price diff: {:?}", price_diff);

    let pnl_numerator = price_diff * trade.size as i64;
    println!("PnL numerator: {:?}", pnl_numerator);

    let pnl = pnl_numerator / trade.entry_price as i64;
    println!("Final PnL: {:?}", pnl);
}

#[test]
fn test_debug_risk_reward_calculation() {
    let trade = create_valid_buy_trade();
    println!(
        "Trade: size={}, entry_price={}, take_profit={}, stop_loss={}",
        trade.size, trade.entry_price, trade.take_profit, trade.stop_loss
    );

    let max_profit = trade.calculate_max_profit();
    println!("Max profit: {:?}", max_profit);

    let max_loss = trade.calculate_max_loss();
    println!("Max loss: {:?}", max_loss);

    if let (Ok(profit), Ok(loss)) = (max_profit, max_loss) {
        println!("Profit: {}, Loss: {}", profit, loss);
        println!("Profit abs: {}, Loss abs: {}", profit.unsigned_abs(), loss.unsigned_abs());

        let ratio = profit.unsigned_abs().safe_mul(PERCENTAGE_PRECISION_U64);
        println!("Ratio numerator: {:?}", ratio);

        if let Ok(numerator) = ratio {
            let ratio_basis_points = numerator.safe_div(loss.unsigned_abs());
            println!("Final ratio: {:?}", ratio_basis_points);
        }
    }
}

#[test]
fn test_calculate_risk_reward_ratio() {
    let trade = create_valid_buy_trade();

    let ratio = trade.calculate_risk_reward_ratio();
    assert!(ratio.is_ok());
    assert!(ratio.unwrap() > 0);

    let sell_trade = create_valid_sell_trade();
    let ratio = sell_trade.calculate_risk_reward_ratio();
    assert!(ratio.is_ok());
    assert!(ratio.unwrap() > 0);

    let mut trade_zero_loss = create_valid_buy_trade();
    trade_zero_loss.stop_loss = trade_zero_loss.entry_price;
    let ratio = trade_zero_loss.calculate_risk_reward_ratio();
    assert!(ratio.is_err());
}

#[test]
fn test_has_hit_take_profit() {
    let trade = create_valid_buy_trade();

    assert!(trade.has_hit_take_profit(1100));
    assert!(trade.has_hit_take_profit(1200));

    assert!(!trade.has_hit_take_profit(1099));
    assert!(!trade.has_hit_take_profit(1000));

    let sell_trade = create_valid_sell_trade();
    assert!(sell_trade.has_hit_take_profit(900));
    assert!(sell_trade.has_hit_take_profit(800));
    assert!(!sell_trade.has_hit_take_profit(901));
    assert!(!sell_trade.has_hit_take_profit(1000));
}

#[test]
fn test_has_hit_stop_loss() {
    let trade = create_valid_buy_trade();

    assert!(trade.has_hit_stop_loss(900));
    assert!(trade.has_hit_stop_loss(800));

    assert!(!trade.has_hit_stop_loss(901));
    assert!(!trade.has_hit_stop_loss(1000));

    let sell_trade = create_valid_sell_trade();
    assert!(sell_trade.has_hit_stop_loss(1100));
    assert!(sell_trade.has_hit_stop_loss(1200));
    assert!(!sell_trade.has_hit_stop_loss(1099));
    assert!(!sell_trade.has_hit_stop_loss(1000));
}

#[test]
fn test_complete_and_cancel_trade() {
    let mut trade = create_valid_buy_trade();

    trade.complete(TradeResult::Success);
    assert_eq!(trade.get_status(), TradeStatus::Completed);
    assert_eq!(trade.get_result(), TradeResult::Success);

    let mut trade = create_valid_buy_trade();
    trade.cancel();
    assert_eq!(trade.get_status(), TradeStatus::Cancelled);
    assert_eq!(trade.get_result(), TradeResult::Failed);
}

#[test]
fn test_get_duration() {
    let trade = create_valid_buy_trade();
    let current_time = 2000;

    let duration = trade.get_duration(current_time);
    assert_eq!(duration, 1000);
}

#[test]
fn test_get_pair_string() {
    let trade = create_valid_buy_trade();
    let pair_string = trade.get_pair_string();

    assert!(!pair_string.is_empty());
    assert_eq!(pair_string.len(), 8);
}

#[test]
fn test_get_feed_id_string() {
    let trade = create_valid_buy_trade();
    let feed_id_string = trade.get_feed_id_string();

    assert!(!feed_id_string.is_empty());
    assert_eq!(feed_id_string.len(), 64);
    assert!(feed_id_string.chars().all(|c| c.is_ascii_hexdigit()));
}

#[test]
fn trade_test_edge_cases() {
    let trade = Trade {
        master_agent: key(5),
        size: u64::MAX,
        entry_price: u64::MAX,
        take_profit: u64::MAX,
        stop_loss: 0,
        created_at: i64::MAX,
        updated_at: i64::MAX,
        pair: [255; 8],
        feed_id: [255; 32],
        status: TradeStatus::Active.bits(),
        trade_type: TradeType::Buy.bits(),
        result: TradeResult::Pending.bits(),
        bump: 255,
        authority: key(6),
        oracle_consensus_count: 0,
        last_price_update: 0,
        circuit_breaker_triggered: false,
        _padding: [255; 2],
    };

    assert!(trade.get_status() == TradeStatus::Active);
    assert!(trade.get_trade_type() == TradeType::Buy);
    assert!(trade.get_result() == TradeResult::Pending);

    let trade = Trade {
        master_agent: Pubkey::default(),
        size: 1,
        entry_price: 1,
        take_profit: 2,
        stop_loss: 0,
        created_at: 0,
        updated_at: 0,
        pair: [0; 8],
        feed_id: [0; 32],
        status: 0,
        trade_type: 0,
        result: 0,
        bump: 0,
        authority: Pubkey::default(),
        oracle_consensus_count: 0,
        last_price_update: 0,
        circuit_breaker_triggered: false,
        _padding: [0; 2],
    };

    assert!(trade.get_status() == TradeStatus::Active);
    assert!(trade.get_trade_type() == TradeType::Buy);
    assert!(trade.get_result() == TradeResult::Pending);
}

#[test]
fn test_enum_values() {
    assert_eq!(TradeStatus::Active.bits(), 0b00000001);
    assert_eq!(TradeStatus::Completed.bits(), 0b00000010);
    assert_eq!(TradeStatus::Cancelled.bits(), 0b00000100);

    assert_eq!(TradeType::Buy.bits(), 0b00000001);
    assert_eq!(TradeType::Sell.bits(), 0b00000010);

    assert_eq!(TradeResult::Success.bits(), 0b00000001);
    assert_eq!(TradeResult::Failed.bits(), 0b00000010);
    assert_eq!(TradeResult::Pending.bits(), 0b00000100);
}

#[test]
fn test_pnl_calculations_edge_cases() {
    let trade = create_valid_buy_trade();

    let pnl = trade.calculate_pnl_safe(1001);
    assert!(pnl.is_ok());
    assert!(pnl.unwrap() >= 0);

    let pnl = trade.calculate_pnl_safe(2000);
    assert!(pnl.is_ok());
    assert!(pnl.unwrap() > 0);

    let pnl = trade.calculate_pnl_safe(900);
    assert!(pnl.is_ok());
    assert!(pnl.unwrap() < 0);

    let sell_trade = create_valid_sell_trade();
    let pnl = sell_trade.calculate_pnl_safe(999);
    assert!(pnl.is_ok());
    assert!(pnl.unwrap() >= 0);

    let pnl = sell_trade.calculate_pnl_safe(800);
    assert!(pnl.is_ok());
    assert!(pnl.unwrap() > 0);

    let pnl = sell_trade.calculate_pnl_safe(1100);
    assert!(pnl.is_ok());
    assert!(pnl.unwrap() < 0);

    let pnl = trade.calculate_pnl_safe(1000);
    assert!(pnl.is_ok());
    assert_eq!(pnl.unwrap(), 0);

    let pnl = sell_trade.calculate_pnl_safe(1000);
    assert!(pnl.is_ok());
    assert_eq!(pnl.unwrap(), 0);
}

#[test]
fn test_overflow_protection() {
    let mut trade = create_valid_buy_trade();
    trade.size = u64::MAX;
    trade.entry_price = 1;

    let pnl = trade.calculate_pnl_safe(2);
    assert!(pnl.is_ok() || pnl.is_err());
}

#[test]
fn test_init_trade() {
    let params = TradeInitParams {
        master_agent: key(7),
        size: 123,
        entry_price: 456,
        take_profit: 789,
        stop_loss: 321,
        created_at: 1111,
        pair: [1, 2, 3, 4, 5, 6, 7, 8],
        feed_id: [9; 32],
        status: TradeStatus::Active,
        trade_type: TradeType::Sell,
        result: TradeResult::Pending,
        bump: 2,
    };
    let mut trade = Trade::default();
    trade.init_trade(params);
    assert_eq!(trade.master_agent, params.master_agent);
    assert_eq!(trade.size, params.size);
    assert_eq!(trade.entry_price, params.entry_price);
    assert_eq!(trade.take_profit, params.take_profit);
    assert_eq!(trade.stop_loss, params.stop_loss);
    assert_eq!(trade.created_at, params.created_at);
    assert_eq!(trade.updated_at, params.created_at);
    assert_eq!(trade.pair, params.pair);
    assert_eq!(trade.feed_id, params.feed_id);
    assert_eq!(trade.get_status(), params.status);
    assert_eq!(trade.get_trade_type(), params.trade_type);
    assert_eq!(trade.get_result(), params.result);
    assert_eq!(trade.bump, params.bump);
}

#[test]
fn test_update_trade() {
    let params = TradeInitParams {
        master_agent: key(8),
        size: 100,
        entry_price: 1000,
        take_profit: 1100,
        stop_loss: 900,
        created_at: 1000,
        pair: [1, 2, 3, 4, 5, 6, 7, 8],
        feed_id: [1; 32],
        status: TradeStatus::Active,
        trade_type: TradeType::Buy,
        result: TradeResult::Pending,
        bump: 1,
    };
    let mut trade = Trade::default();
    trade.init_trade(params);
    trade.update_trade(200, 1200, 800, TradeStatus::Completed, TradeResult::Success, 2000);
    assert_eq!(trade.size, 200);
    assert_eq!(trade.take_profit, 1200);
    assert_eq!(trade.stop_loss, 800);
    assert_eq!(trade.get_status(), TradeStatus::Completed);
    assert_eq!(trade.get_result(), TradeResult::Success);
    assert_eq!(trade.updated_at, 2000);
}

#[test]
fn test_validate_price_with_slippage() {
    let trade = create_valid_buy_trade();
    let current_price = 1000;
    let max_slippage_bps = 100;
    let result = trade.validate_price_with_slippage(current_price, max_slippage_bps);
    assert!(result.is_ok());

    let current_price = 0;
    let result = trade.validate_price_with_slippage(current_price, max_slippage_bps);
    assert!(result.is_err());
}

#[test]
fn test_validate_risk_management_levels() {
    let trade = create_valid_buy_trade();
    let min_distance_bps = 100;
    let result = trade.validate_risk_management_levels(min_distance_bps);
    assert!(result.is_ok());

    let mut close_trade = create_valid_buy_trade();
    close_trade.stop_loss = 999;
    let result = close_trade.validate_risk_management_levels(min_distance_bps);
    assert!(result.is_err());
}

#[test]
fn test_validate_risk_reward_ratio() {
    let trade = create_valid_buy_trade();
    let min_ratio_bps = 100;
    let result = trade.validate_risk_reward_ratio(min_ratio_bps);
    assert!(result.is_ok());

    let mut poor_trade = create_valid_buy_trade();
    poor_trade.take_profit = 1001;
    poor_trade.stop_loss = 999;
    let result = poor_trade.validate_risk_reward_ratio(min_ratio_bps);
    assert!(result.is_err());
}

#[test]
fn test_validate_trade_execution() {
    let trade = create_valid_buy_trade();
    let current_price = 1000;
    let oracles = vec![
        OraclePrice { price: 1000, exponent: 0 },
        OraclePrice { price: 1001, exponent: 0 },
    ];
    let result = trade.validate_secure_trade_execution(
        current_price,
        &oracles,
        &TradeSecurityConfig::default(),
        &PriceValidationConfig::default(),
    );
    assert!(result.is_ok());

    let current_price = 0;
    let result = trade.validate_secure_trade_execution(
        current_price,
        &oracles,
        &TradeSecurityConfig::default(),
        &PriceValidationConfig::default(),
    );
    assert!(result.is_err());
}

#[test]
fn test_calculate_optimal_entry_price() {
    let trade = create_valid_buy_trade();
    let oracle_price = OraclePrice { price: 1000, exponent: 0 };
    let spread_bps = 100;
    let slippage_buffer_bps = 50;
    let result = trade.calculate_optimal_entry_price(&oracle_price, spread_bps, slippage_buffer_bps);
    assert!(result.is_ok());
    assert_eq!(result.unwrap(), 1015);

    let slippage_buffer_bps = u64::MAX;
    let result = trade.calculate_optimal_entry_price(&oracle_price, spread_bps, slippage_buffer_bps);
    assert!(result.is_err());
}

#[test]
fn test_calculate_optimal_price_with_config() {
    let trade = create_valid_buy_trade();
    let oracle_price = OraclePrice { price: 1000, exponent: 0 };
    let config = PriceValidationConfig::default();

    let result = trade.calculate_optimal_price_with_config(&oracle_price, &config);
    assert!(result.is_ok());
    assert_eq!(result.unwrap(), 1007);

    let conservative_config = PriceValidationConfig::conservative();
    let result = trade.calculate_optimal_price_with_config(&oracle_price, &conservative_config);
    assert!(result.is_ok());
    assert_eq!(result.unwrap(), 1003);
}

#[test]
fn test_comprehensive_validation() {
    let trade = create_valid_buy_trade();
    let current_price = 1000;
    let oracle_price = OraclePrice { price: 1000, exponent: 0 };
    let max_slippage_bps = 100;
    let min_distance_bps = 100;
    let min_risk_reward_bps = 100;
    let max_deviation_bps = 100;
    let range_buffer_bps = 100;
    let result = trade.comprehensive_validation(
        current_price,
        &oracle_price,
        max_slippage_bps,
        min_distance_bps,
        min_risk_reward_bps,
        max_deviation_bps,
        range_buffer_bps,
    );
    assert!(result.is_ok());

    let current_price = 2000;
    let result = trade.comprehensive_validation(
        current_price,
        &oracle_price,
        max_slippage_bps,
        min_distance_bps,
        min_risk_reward_bps,
        max_deviation_bps,
        range_buffer_bps,
    );
    assert!(result.is_err());
}

#[test]
fn test_validate_with_config() {
    let trade = create_valid_buy_trade();
    let current_price = 1000;
    let oracle_price = OraclePrice { price: 1000, exponent: 0 };
    let config = PriceValidationConfig::default();

    let result = trade.validate_with_config(current_price, &oracle_price, &config);
    assert!(result.is_ok());

    let conservative_config = PriceValidationConfig::conservative();
    let result = trade.validate_with_config(current_price, &oracle_price, &conservative_config);
    assert!(result.is_ok());

    let aggressive_config = PriceValidationConfig::aggressive();
    let result = trade.validate_with_config(current_price, &oracle_price, &aggressive_config);
    assert!(result.is_ok());
}

#[test]
fn test_can_execute_with_config() {
    let trade = create_valid_buy_trade();
    let current_price = 1000;
    let oracle_price = OraclePrice { price: 1000, exponent: 0 };
    let config = PriceValidationConfig::default();

    let result = trade.can_execute_with_config(current_price, &oracle_price, &config);
    assert!(result.is_ok());
    assert!(result.unwrap());

    let conservative_config = PriceValidationConfig::conservative();
    let result = trade.can_execute_with_config(current_price, &oracle_price, &conservative_config);
    assert!(result.is_ok());
    assert!(result.unwrap());
}

#[test]
fn test_complete_secure() {
    let mut trade = create_valid_buy_trade();
    let authority = trade.authority;
    let pnl = 1000;
    let result = trade.complete_secure(TradeResult::Success, &authority, pnl);
    assert!(result.is_ok());
    assert_eq!(trade.get_status(), TradeStatus::Completed);
    assert_eq!(trade.get_result(), TradeResult::Success);

    let result = trade.complete_secure(TradeResult::Failed, &authority, pnl);
    assert!(result.is_err());
}

#[test]
fn test_cancel_secure() {
    let mut trade = create_valid_buy_trade();
    let authority = trade.authority;
    let reason = "Test cancellation";
    let result = trade.cancel_secure(&authority, reason);
    assert!(result.is_ok());
    assert_eq!(trade.get_status(), TradeStatus::Cancelled);
    assert_eq!(trade.get_result(), TradeResult::Failed);

    let result = trade.cancel_secure(&authority, reason);
    assert!(result.is_err());
}

#[test]
fn test_trigger_circuit_breaker() {
    let mut trade = create_valid_buy_trade();
    let authority = trade.authority;
    let result = trade.trigger_circuit_breaker(&authority);
    assert!(result.is_ok());
    assert!(trade.circuit_breaker_triggered);

    let result = trade.trigger_circuit_breaker(&authority);
    assert!(result.is_ok());
    assert!(trade.circuit_breaker_triggered);
}

#[test]
fn test_reset_circuit_breaker() {
    let mut trade = create_valid_buy_trade();
    let admin_authority = trade.authority;
    let result = trade.reset_circuit_breaker(&admin_authority);
    assert!(result.is_ok());
    assert!(!trade.circuit_breaker_triggered);

    let result = trade.reset_circuit_breaker(&admin_authority);
    assert!(result.is_ok());
    assert!(!trade.circuit_breaker_triggered);
}

#[test]
fn test_init_trade_secure() {
    let params = TradeInitParams {
        master_agent: key(9),
        size: 123,
        entry_price: 1000,
        take_profit: 900,
        stop_loss: 1100,
        created_at: 1111,
        pair: [1, 2, 3, 4, 5, 6, 7, 8],
        feed_id: [9; 32],
        status: TradeStatus::Active,
        trade_type: TradeType::Sell,
        result: TradeResult::Pending,
        bump: 2,
    };
    let mut trade = Trade::default();
    let authority = key(10);
    let result = trade.init_trade_secure(params, authority);
    assert!(result.is_ok());
    assert_eq!(trade.master_agent, params.master_agent);
    assert_eq!(trade.size, params.size);
    assert_eq!(trade.entry_price, params.entry_price);
    assert_eq!(trade.take_profit, params.take_profit);
    assert_eq!(trade.stop_loss, params.stop_loss);
    assert_eq!(trade.created_at, params.created_at);
    assert_eq!(trade.updated_at, params.created_at);
    assert_eq!(trade.pair, params.pair);
    assert_eq!(trade.feed_id, params.feed_id);
    assert_eq!(trade.get_status(), params.status);
    assert_eq!(trade.get_trade_type(), params.trade_type);
    assert_eq!(trade.get_result(), params.result);
    assert_eq!(trade.bump, params.bump);
    assert_eq!(trade.authority, authority);
    assert_eq!(trade.oracle_consensus_count, 0);
    assert_eq!(trade.last_price_update, params.created_at);
    assert!(!trade.circuit_breaker_triggered);
}

#[test]
fn test_get_security_status() {
    let mut trade = create_valid_buy_trade();
    trade.oracle_consensus_count = 2;
    assert_eq!(trade.get_security_status(), "Secure");

    let mut trade = create_valid_buy_trade();
    trade.oracle_consensus_count = 2;
    trade.circuit_breaker_triggered = true;
    assert_eq!(trade.get_security_status(), "Circuit Breaker Active");

    let mut trade = create_valid_buy_trade();
    trade.oracle_consensus_count = 1;
    assert_eq!(trade.get_security_status(), "Low Oracle Consensus");

    let mut trade = create_valid_buy_trade();
    trade.circuit_breaker_triggered = true;
    trade.oracle_consensus_count = 1;
    assert_eq!(trade.get_security_status(), "Circuit Breaker Active, Low Oracle Consensus");
}

#[test]
fn trade_status_never_returns_to_active() {
    let mut trade = create_valid_buy_trade();
    let authority = trade.authority;
    trade.set_status(TradeStatus::Completed, &authority, 2000).unwrap();
    assert!(trade.set_status(TradeStatus::Active, &authority, 2001).is_err());
    trade.set_status(TradeStatus::Cancelled, &authority, 2002).unwrap();
    assert!(trade.set_status(TradeStatus::Completed, &authority, 2003).is_err());
    assert!(trade.set_status(TradeStatus::Active, &authority, 2003).is_err());
    assert_eq!(trade.get_status(), TradeStatus::Cancelled);
}

#[test]
fn trade_pnl_exact_values() {
    let trade = create_valid_buy_trade();
    // (1100 - 1000) * 100 / 1000
    assert_eq!(trade.calculate_pnl_safe(1100), Ok(10));
    assert_eq!(trade.calculate_pnl_safe(900), Ok(-10));
    assert_eq!(trade.calculate_risk_reward_ratio(), Ok(10000));
    assert_eq!(trade.get_feed_id_string(), "01".repeat(32));
    assert_eq!(trade.get_pair_string(), "ABCDEFGH");
}

#[test]
fn pnl_past_i64_is_a_math_error() {
    let trade = Trade {
        trade_type: TradeType::Buy.bits(),
        size: u64::MAX,
        entry_price: 1,
        ..Default::default()
    };
    assert_eq!(trade.calculate_pnl_safe(2), Err(ErrorCode::MathError));
    let small = Trade { size: 1 << 62, ..trade };
    assert_eq!(small.calculate_pnl_safe(2), Ok(1i64 << 62));
    assert_eq!(small.calculate_pnl_safe(1), Ok(0));
}

#[test]
fn consensus_ignores_reading_order() {
    let p = |price: u64| OraclePrice { price, exponent: 0 };
    let a = [p(100), p(0), p(102), p(98)];
    let b = [p(98), p(102), p(0), p(100)];
    let ca = OracleConsensus::calculate_consensus(&a, 500, 3);
    assert_eq!(ca, OracleConsensus::calculate_consensus(&b, 500, 3));
    let c = ca.unwrap();
    assert_eq!(c.consensus_price, 100);
    assert_eq!(c.consensus_count, 3);
}

#[test]
fn completing_and_cancelling_at_a_given_time() {
    let authority = key(5);
    let mut trade = Trade::default();
    trade.init_trade_secure(
        TradeInitParams {
            master_agent: key(6),
            size: 100,
            entry_price: 1000,
            take_profit: 1100,
            stop_loss: 900,
            created_at: 1_000,
            pair: *b"SOL/USDC",
            feed_id: [1; 32],
            status: TradeStatus::Active,
            trade_type: TradeType::Buy,
            result: TradeResult::Pending,
            bump: 1,
        },
        authority,
    )
    .unwrap();
    let mut other = trade;
    assert_eq!(trade.complete_secure_at(TradeResult::Success, &key(7), 10, 2_000), Err(ErrorCode::InvalidAuthority));
    assert_eq!(trade.complete_secure_at(TradeResult::Success, &authority, 10, 2_000), Ok(()));
    assert_eq!(trade.get_status(), TradeStatus::Completed);
    assert_eq!(trade.get_result(), TradeResult::Success);
    assert_eq!(trade.updated_at, 2_000);
    assert_eq!(trade.complete_secure_at(TradeResult::Success, &authority, 10, 3_000), Err(ErrorCode::CannotPerformAction));
    assert_eq!(trade.updated_at, 2_000);

    assert_eq!(other.cancel_secure_at(&authority, "stop", 2_500), Ok(()));
    assert_eq!(other.get_status(), TradeStatus::Cancelled);
    assert_eq!(other.updated_at, 2_500);
    assert_eq!(other.trigger_circuit_breaker_at(&authority, 2_600), Ok(()));
    assert!(other.circuit_breaker_triggered);
    assert_eq!(other.updated_at, 2_600);
    assert_eq!(other.reset_circuit_breaker_at(&authority, 2_700), Ok(()));
    assert!(!other.circuit_breaker_triggered);
    assert_eq!(other.updated_at, 2_700);

    let mut plain = Trade::default();
    plain.complete_at(TradeResult::Failed, 4_000);
    assert_eq!(plain.get_status(), TradeStatus::Completed);
    assert_eq!(plain.updated_at, 4_000);
    plain.cancel_at(5_000);
    assert_eq!(plain.get_status(), TradeStatus::Cancelled);
    assert_eq!(plain.updated_at, 5_000);
}
