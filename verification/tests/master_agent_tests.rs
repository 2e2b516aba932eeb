use tubor_yield::error::ErrorCode;
use tubor_yield::math::constants::PERCENTAGE_PRECISION_U64;
use tubor_yield::pubkey::Pubkey;
use tubor_yield::state::master_agent::{MasterAgent, MasterAgentInitParams, TaxConfig, TradingStatus};

/// A distinct, non-default key for each `n`.
fn key(n: u8) -> Pubkey {
    let mut bytes = [0u8; 32];
    bytes[0] = n;
    bytes[31] = 0x77;
    Pubkey::new_from_array(bytes)
}

fn create_test_master_agent() -> MasterAgent {
    let mut master_agent = MasterAgent::default();
    let params = MasterAgentInitParams {
        authority: key(1),
        mint: key(2),
        price: 1000000,
        w_yield: 500,
        trading_status: TradingStatus::WhiteList,
        max_supply: 100,
        auto_relist: false,
        current_time: 1640995200,
        bump: 1,
        tax_config: TaxConfig::default(),
    };
    master_agent.initialize(params).unwrap();
    master_agent
}

#[test]
fn test_master_agent_memory_layout() {
    let master_agent = MasterAgent::default();
    assert_eq!(master_agent.authority, Pubkey::default());
    assert_eq!(master_agent.mint, Pubkey::default());
    assert_eq!(master_agent.price, 0);
    assert_eq!(master_agent.w_yield, 0);
    assert_eq!(master_agent.max_supply, 0);
    assert_eq!(master_agent.agent_count, 0);
    assert_eq!(master_agent.trade_count, 0);
    assert_eq!(master_agent.last_updated, 0);
    assert_eq!(master_agent.created_at, 0);
    assert_eq!(master_agent.trading_status, TradingStatus::WhiteList.bits());
    assert_eq!(master_agent.auto_relist, false);
    assert_eq!(master_agent.bump, 0);
    assert_eq!(master_agent._padding, [0; 1]);
}

#[test]
fn test_initialize() {
    let mut master_agent = MasterAgent::default();
    let authority = key(3);
    let mint = key(4);
    let current_time = 1640995200;

    let params = MasterAgentInitParams {
        authority,
        mint,
        price: 1000000,
        w_yield: 5000,
        trading_status: TradingStatus::Public,
        max_supply: 50,
        auto_relist: true,
        current_time,
        bump: 2,
        tax_config: TaxConfig::default(),
    };
    let result = master_agent.initialize(params);

    assert!(result.is_ok());
    assert_eq!(master_agent.authority, authority);
    assert_eq!(master_agent.mint, mint);
    assert_eq!(master_agent.price, 1000000);
    assert_eq!(master_agent.w_yield, 5000);
    assert_eq!(master_agent.max_supply, 50);
    assert_eq!(master_agent.agent_count, 0);
    assert_eq!(master_agent.trade_count, 0);
    assert_eq!(master_agent.trading_status, TradingStatus::Public.bits());
    assert_eq!(master_agent.auto_relist, true);
    assert_eq!(master_agent.last_updated, current_time);
    assert_eq!(master_agent.created_at, current_time);
    assert_eq!(master_agent.bump, 2);
}

#[test]
fn test_update_price() {
    let mut master_agent = create_test_master_agent();
    let mut current_time = 1640995260;
    let authority = master_agent.authority;
    master_agent.last_price_update = current_time;
    master_agent.last_updated = current_time;

    let result = master_agent.update_price(1_100_000, current_time + 2 * 86400, &authority);
    assert!(result.is_ok());
    assert_eq!(master_agent.price, 1_100_000);
    assert_eq!(master_agent.last_updated, current_time + 2 * 86400);
    current_time += 2 * 86400;

    let result = master_agent.update_price(0, current_time + 86400, &authority);
    assert!(result.is_err());
    assert_eq!(result.unwrap_err(), ErrorCode::InvalidEntryPrice);
    current_time += 86400;

    let wrong_authority = key(9);
    let result = master_agent.update_price(3000000, current_time + 86400, &wrong_authority);
    assert!(result.is_err());
    assert_eq!(result.unwrap_err(), ErrorCode::InvalidAuthority);
    current_time += 86400;

    let result = master_agent.update_price(1_100_000, current_time + 86400, &authority);
    assert!(result.is_err());
    assert_eq!(result.unwrap_err(), ErrorCode::MathError);
    current_time += 86400;

    let result = master_agent.update_price(1_300_000, current_time + 86400, &authority);
    assert!(result.is_err());
    assert_eq!(result.unwrap_err(), ErrorCode::PriceUpdateTooHigh);
    current_time += 86400;

    let result = master_agent.update_price(2100000, current_time + 1800, &authority);
    assert!(result.is_err());
    assert_eq!(result.unwrap_err(), ErrorCode::PriceUpdateTooHigh);
}

#[test]
fn test_update_yield() {
    let mut master_agent = create_test_master_agent();
    let current_time = 1640995260 + 129600;
    let authority = master_agent.authority;

    let result = master_agent.update_yield(525, current_time, &authority);
    assert!(result.is_ok());
    assert_eq!(master_agent.w_yield, 525);
    assert_eq!(master_agent.last_updated, current_time);

    let result = master_agent.update_yield(600, current_time + 129600, &authority);
    assert!(result.is_err());
    assert_eq!(result.unwrap_err(), ErrorCode::PriceUpdateTooHigh);

    let result = master_agent.update_yield(50001, current_time + 129600, &authority);
    assert!(result.is_err());
    assert_eq!(result.unwrap_err(), ErrorCode::MathError);

    let result = master_agent.update_yield(0, current_time + 129600, &authority);
    assert!(result.is_err());
    assert_eq!(result.unwrap_err(), ErrorCode::MathError);

    let wrong_authority = key(9);
    let result = master_agent.update_yield(525, current_time + 129600, &wrong_authority);
    assert!(result.is_err());
    assert_eq!(result.unwrap_err(), ErrorCode::InvalidAuthority);

    let result = master_agent.update_yield(550, current_time + 1800, &authority);
    assert!(result.is_err());
    assert_eq!(result.unwrap_err(), ErrorCode::PriceUpdateTooSoon);
}

#[test]
fn test_update_max_supply() {
    let mut master_agent = create_test_master_agent();
    let current_time = 1640995260;

    master_agent.add_agent(current_time).unwrap();
    master_agent.add_agent(current_time).unwrap();

    let result = master_agent.update_max_supply(200, current_time);
    assert!(result.is_ok());
    assert_eq!(master_agent.max_supply, 200);
    assert_eq!(master_agent.last_updated, current_time);

    let result = master_agent.update_max_supply(1, current_time);
    assert!(result.is_err());
    assert_eq!(result.unwrap_err(), ErrorCode::MathError);
}

#[test]
fn test_add_agent() {
    let mut master_agent = create_test_master_agent();
    let current_time = 1640995260;

    let result = master_agent.add_agent(current_time);
    assert!(result.is_ok());
    assert_eq!(master_agent.agent_count, 1);
    assert_eq!(master_agent.last_updated, current_time);

    master_agent.add_agent(current_time).unwrap();
    master_agent.add_agent(current_time).unwrap();
    assert_eq!(master_agent.agent_count, 3);

    master_agent.agent_count = master_agent.max_supply;
    let result = master_agent.add_agent(current_time);
    assert!(result.is_err());
    assert_eq!(result.unwrap_err(), ErrorCode::InsufficientFunds);
}

#[test]
fn test_remove_agent() {
    let mut master_agent = create_test_master_agent();
    let current_time = 1640995260;

    master_agent.add_agent(current_time).unwrap();
    master_agent.add_agent(current_time).unwrap();
    assert_eq!(master_agent.agent_count, 2);

    let result = master_agent.remove_agent(current_time);
    assert!(result.is_ok());
    assert_eq!(master_agent.agent_count, 1);
    assert_eq!(master_agent.last_updated, current_time);

    master_agent.remove_agent(current_time).unwrap();
    assert_eq!(master_agent.agent_count, 0);

    let result = master_agent.remove_agent(current_time);
    assert!(result.is_err());
    assert_eq!(result.unwrap_err(), ErrorCode::InsufficientFunds);
}

#[test]
fn test_increment_trade_count() {
    let mut master_agent = create_test_master_agent();
    let current_time = 1640995260;

    let result = master_agent.increment_trade_count(current_time);
    assert!(result.is_ok());
    assert_eq!(master_agent.trade_count, 1);
    assert_eq!(master_agent.last_updated, current_time);

    master_agent.increment_trade_count(current_time).unwrap();
    master_agent.increment_trade_count(current_time).unwrap();
    assert_eq!(master_agent.trade_count, 3);
}

#[test]
fn test_auto_relist_functions() {
    let mut master_agent = create_test_master_agent();
    let current_time = 1640995260;

    assert_eq!(master_agent.auto_relist, false);

    master_agent.toggle_auto_relist(current_time);
    assert_eq!(master_agent.auto_relist, true);
    assert_eq!(master_agent.last_updated, current_time);

    master_agent.toggle_auto_relist(current_time);
    assert_eq!(master_agent.auto_relist, false);

    master_agent.set_auto_relist(true, current_time);
    assert_eq!(master_agent.auto_relist, true);

    master_agent.set_auto_relist(false, current_time);
    assert_eq!(master_agent.auto_relist, false);
}

#[test]
fn test_trading_status_functions() {
    let mut master_agent = create_test_master_agent();
    let current_time = 1640995260;

    assert_eq!(master_agent.get_trading_status(), TradingStatus::WhiteList);
    assert!(master_agent.is_whitelist_mode());
    assert!(!master_agent.is_public_mode());

    let authority = master_agent.authority;
    master_agent.set_trading_status(TradingStatus::Public, &authority, current_time).unwrap();
    assert_eq!(master_agent.get_trading_status(), TradingStatus::Public);
    assert!(!master_agent.is_whitelist_mode());
    assert!(master_agent.is_public_mode());

    master_agent.toggle_trading_status(current_time);
    assert_eq!(master_agent.get_trading_status(), TradingStatus::WhiteList);

    master_agent.toggle_trading_status(current_time);
    assert_eq!(master_agent.get_trading_status(), TradingStatus::Public);
}

#[test]
fn test_calculate_yield_amount() {
    let mut master_agent = create_test_master_agent();

    let yield_amount = master_agent.calculate_yield_amount().unwrap();
    let expected_yield = (1000000 * 500) / PERCENTAGE_PRECISION_U64;
    assert_eq!(yield_amount, expected_yield);

    master_agent.w_yield = 1000;
    let yield_amount = master_agent.calculate_yield_amount().unwrap();
    let expected_yield = (1000000 * 1000) / PERCENTAGE_PRECISION_U64;
    assert_eq!(yield_amount, expected_yield);
}

#[test]
fn test_get_yield_rate_percentage() {
    let mut master_agent = create_test_master_agent();

    let yield_rate = master_agent.get_yield_rate_percentage();
    assert_eq!(yield_rate, 5);

    master_agent.w_yield = 1500;
    let yield_rate = master_agent.get_yield_rate_percentage();
    assert_eq!(yield_rate, 15);
}

#[test]
fn test_supply_functions() {
    let mut master_agent = create_test_master_agent();
    let current_time = 1640995260;

    assert!(!master_agent.is_supply_full());
    assert_eq!(master_agent.get_remaining_supply(), 100);

    master_agent.add_agent(current_time).unwrap();
    master_agent.add_agent(current_time).unwrap();
    assert_eq!(master_agent.get_remaining_supply(), 98);

    for _ in 0..98 {
        master_agent.add_agent(current_time).unwrap();
    }

    assert!(master_agent.is_supply_full());
    assert_eq!(master_agent.get_remaining_supply(), 0);
}

#[test]
fn test_supply_utilization_percentage() {
    let mut master_agent = create_test_master_agent();
    let current_time = 1640995260;

    assert_eq!(master_agent.get_supply_utilization_percentage(), 0);

    for _ in 0..50 {
        master_agent.add_agent(current_time).unwrap();
    }
    assert_eq!(master_agent.get_supply_utilization_percentage(), 5000);

    for _ in 0..50 {
        master_agent.add_agent(current_time).unwrap();
    }
    assert_eq!(master_agent.get_supply_utilization_percentage(), 10000);
}

#[test]
fn test_average_trades_per_agent() {
    let mut master_agent = create_test_master_agent();
    let current_time = 1640995260;

    assert_eq!(master_agent.get_average_trades_per_agent(), 0);

    master_agent.add_agent(current_time).unwrap();
    master_agent.add_agent(current_time).unwrap();
    master_agent.increment_trade_count(current_time).unwrap();
    master_agent.increment_trade_count(current_time).unwrap();
    master_agent.increment_trade_count(current_time).unwrap();

    assert_eq!(master_agent.get_average_trades_per_agent(), 1);
}

#[test]
fn test_time_functions() {
    let mut master_agent = create_test_master_agent();
    let created_time = 1640995200;
    let current_time = 1641081600;

    master_agent.created_at = created_time;
    master_agent.last_updated = created_time;

    let days_since_created = master_agent.get_days_since_created(current_time);
    assert_eq!(days_since_created, 1);

    let days_since_updated = master_agent.get_days_since_updated(current_time);
    assert_eq!(days_since_updated, 1);

    master_agent.last_updated = current_time;
    let days_since_updated = master_agent.get_days_since_updated(current_time);
    assert_eq!(days_since_updated, 0);
}

#[test]
fn test_activity_functions() {
    let mut master_agent = create_test_master_agent();
    let current_time = 1640995260;

    assert!(!master_agent.is_active());

    master_agent.add_agent(current_time).unwrap();
    assert!(master_agent.is_active());

    assert!(!master_agent.is_idle(current_time, 86400));

    master_agent.last_updated = current_time - 100000;
    assert!(master_agent.is_idle(current_time, 86400));
}

#[test]
fn test_validate() {
    let mut master_agent = create_test_master_agent();

    assert!(master_agent.validate().is_ok());

    master_agent.authority = Pubkey::default();
    assert!(master_agent.validate().is_err());
    assert_eq!(master_agent.validate().unwrap_err(), ErrorCode::InvalidAuthority);

    master_agent = create_test_master_agent();
    master_agent.mint = Pubkey::default();
    assert!(master_agent.validate().is_err());
    assert_eq!(master_agent.validate().unwrap_err(), ErrorCode::InvalidAccount);

    master_agent = create_test_master_agent();
    master_agent.price = 0;
    assert!(master_agent.validate().is_err());
    assert_eq!(master_agent.validate().unwrap_err(), ErrorCode::InvalidEntryPrice);

    master_agent = create_test_master_agent();
    master_agent.w_yield = PERCENTAGE_PRECISION_U64 + 1;
    assert!(master_agent.validate().is_err());
    assert_eq!(master_agent.validate().unwrap_err(), ErrorCode::MathError);

    master_agent = create_test_master_agent();
    master_agent.max_supply = 0;
    assert!(master_agent.validate().is_err());
    assert_eq!(master_agent.validate().unwrap_err(), ErrorCode::MathError);

    master_agent = create_test_master_agent();
    master_agent.agent_count = 101;
    assert!(master_agent.validate().is_err());
    assert_eq!(master_agent.validate().unwrap_err(), ErrorCode::MathError);
}

#[test]
fn master_agent_test_can_perform_actions() {
    let mut master_agent = create_test_master_agent();

    assert!(!master_agent.can_perform_actions());

    master_agent.add_agent(1640995260).unwrap();
    assert!(master_agent.can_perform_actions());

    for _ in 0..99 {
        master_agent.add_agent(1640995260).unwrap();
    }
    assert!(!master_agent.can_perform_actions());
}

#[test]
fn test_can_be_accessed_by_user() {
    let mut master_agent = create_test_master_agent();

    assert_eq!(master_agent.get_trading_status(), TradingStatus::WhiteList);
    assert!(!master_agent.can_be_accessed_by_user(false));
    assert!(master_agent.can_be_accessed_by_user(true));

    let authority = master_agent.authority;
    master_agent.set_trading_status(TradingStatus::Public, &authority, 1640995260).unwrap();
    assert!(master_agent.can_be_accessed_by_user(false));
    assert!(master_agent.can_be_accessed_by_user(true));
}

#[test]
fn test_is_trading_allowed() {
    let mut master_agent = create_test_master_agent();

    assert!(!master_agent.is_trading_allowed());

    master_agent.add_agent(1640995260).unwrap();
    assert!(master_agent.is_trading_allowed());

    for _ in 0..99 {
        master_agent.add_agent(1640995260).unwrap();
    }
    assert!(!master_agent.is_trading_allowed());
}

#[test]
fn test_total_value_locked() {
    let mut master_agent = create_test_master_agent();

    assert_eq!(master_agent.get_total_value_locked(), 0);

    master_agent.add_agent(1640995260).unwrap();
    master_agent.add_agent(1640995260).unwrap();

    let expected_tvl = 2 * master_agent.price;
    assert_eq!(master_agent.get_total_value_locked(), expected_tvl);
}

#[test]
fn test_total_yield_generated() {
    let mut master_agent = create_test_master_agent();

    assert_eq!(master_agent.get_total_yield_generated().unwrap(), 0);

    master_agent.add_agent(1640995260).unwrap();
    master_agent.add_agent(1640995260).unwrap();

    let yield_per_agent = master_agent.calculate_yield_amount().unwrap();
    let expected_total_yield = yield_per_agent * 2;
    assert_eq!(master_agent.get_total_yield_generated().unwrap(), expected_total_yield);
}

#[test]
fn test_yield_efficiency() {
    let mut master_agent = create_test_master_agent();

    assert_eq!(master_agent.get_yield_efficiency().unwrap(), 0);

    master_agent.add_agent(1640995260).unwrap();
    master_agent.add_agent(1640995260).unwrap();

    let efficiency = master_agent.get_yield_efficiency().unwrap();
    assert!(efficiency > 0);
}

#[test]
fn test_trading_activity_score() {
    let mut master_agent = create_test_master_agent();
    let created_time = 1640995200;
    let current_time = 1641081600;

    master_agent.created_at = created_time;

    assert_eq!(master_agent.get_trading_activity_score(current_time), 0);

    master_agent.increment_trade_count(created_time).unwrap();
    master_agent.increment_trade_count(created_time).unwrap();
    master_agent.increment_trade_count(created_time).unwrap();

    assert_eq!(master_agent.get_trading_activity_score(current_time), 3);
}

#[test]
fn test_performance_metrics() {
    let mut master_agent = create_test_master_agent();
    let current_time = 1640995260;

    master_agent.add_agent(current_time).unwrap();
    master_agent.add_agent(current_time).unwrap();
    master_agent.increment_trade_count(current_time).unwrap();

    let metrics = master_agent.get_performance_metrics(current_time).unwrap();
    assert_eq!(metrics.0, master_agent.get_total_value_locked());
    assert_eq!(metrics.1, master_agent.get_total_yield_generated().unwrap());
    assert_eq!(metrics.2, master_agent.get_yield_efficiency().unwrap());
    assert_eq!(metrics.3, master_agent.get_trading_activity_score(current_time));
}

#[test]
fn test_reset() {
    let mut master_agent = create_test_master_agent();
    let current_time = 1640995260;

    master_agent.add_agent(current_time).unwrap();
    master_agent.add_agent(current_time).unwrap();
    master_agent.increment_trade_count(current_time).unwrap();
    let authority = master_agent.authority;
    master_agent.set_trading_status(TradingStatus::Public, &authority, current_time).unwrap();

    master_agent.reset();

    assert_eq!(master_agent.agent_count, 0);
    assert_eq!(master_agent.trade_count, 0);
    assert_eq!(master_agent.get_trading_status(), TradingStatus::WhiteList);
    assert_eq!(master_agent.last_updated, master_agent.created_at);
}

#[test]
fn test_get_summary() {
    let mut master_agent = create_test_master_agent();
    let current_time = 1640995260;

    master_agent.add_agent(current_time).unwrap();
    master_agent.increment_trade_count(current_time).unwrap();
    let authority = master_agent.authority;
    master_agent.set_trading_status(TradingStatus::Public, &authority, current_time).unwrap();

    let summary = master_agent.get_summary();
    assert_eq!(summary.0, 1);
    assert_eq!(summary.1, 1);
    assert_eq!(summary.2, 1000000);
    assert_eq!(summary.3, 500);
    assert_eq!(summary.4, false);
    assert_eq!(summary.5, TradingStatus::Public);
}

#[test]
fn test_needs_attention() {
    let mut master_agent = create_test_master_agent();
    let current_time = 1640995260;

    assert!(master_agent.needs_attention(current_time));

    master_agent.add_agent(current_time).unwrap();
    master_agent.last_updated = current_time;
    assert!(!master_agent.needs_attention(current_time));

    let old_time = current_time - (8 * 86400);
    master_agent.last_updated = old_time;
    assert!(master_agent.needs_attention(current_time));

    master_agent.last_updated = current_time;
    master_agent.agent_count = 95;
    assert!(master_agent.needs_attention(current_time));
}

#[test]
fn test_status_strings() {
    let mut master_agent = create_test_master_agent();

    assert_eq!(master_agent.get_status_string(), "Empty");
    assert_eq!(master_agent.get_auto_relist_status(), "Disabled");
    assert_eq!(master_agent.get_trading_status_string(), "Whitelist");

    master_agent.add_agent(1640995260).unwrap();
    assert_eq!(master_agent.get_status_string(), "Active");

    for _ in 0..99 {
        master_agent.add_agent(1640995260).unwrap();
    }
    assert_eq!(master_agent.get_status_string(), "Full");

    master_agent.set_auto_relist(true, 1640995260);
    assert_eq!(master_agent.get_auto_relist_status(), "Enabled");

    let authority = master_agent.authority;
    master_agent.set_trading_status(TradingStatus::Public, &authority, 1640995260).unwrap();
    assert_eq!(master_agent.get_trading_status_string(), "Public");
}

#[test]
fn master_agent_test_edge_cases() {
    let mut master_agent = create_test_master_agent();

    master_agent.w_yield = PERCENTAGE_PRECISION_U64;
    assert!(master_agent.validate().is_ok());

    master_agent.price = 1_000_000_000_000;
    master_agent.max_supply = 1_000_000;
    assert!(master_agent.validate().is_ok());

    let yield_amount = master_agent.calculate_yield_amount();
    assert!(yield_amount.is_ok());
}

#[test]
fn test_trading_status_enum() {
    assert_eq!(TradingStatus::WhiteList.bits(), 0b00000001);
    assert_eq!(TradingStatus::Public.bits(), 0b00000010);

    assert_ne!(TradingStatus::WhiteList, TradingStatus::Public);
    assert_eq!(TradingStatus::WhiteList, TradingStatus::WhiteList);
}

#[test]
fn test_tax_config_default() {
    let tax_config = TaxConfig::default();
    assert_eq!(tax_config.buy_tax_percentage, 250);
    assert_eq!(tax_config.sell_tax_percentage, 250);
    assert_eq!(tax_config.max_tax_percentage, 1000);
}

#[test]
fn test_calculate_buy_price_with_tax() {
    let master_agent = create_test_master_agent();
    let (total_price, tax_amount, base_price) = master_agent.calculate_buy_price_with_tax().unwrap();

    assert_eq!(base_price, 1000000);
    assert_eq!(tax_amount, 25000);
    assert_eq!(total_price, 1025000);
}

#[test]
fn test_calculate_sell_price_with_tax() {
    let master_agent = create_test_master_agent();
    let (net_price, tax_amount, base_price) = master_agent.calculate_sell_price_with_tax().unwrap();

    assert_eq!(base_price, 1000000);
    assert_eq!(tax_amount, 25000);
    assert_eq!(net_price, 975000);
}

#[test]
fn test_calculate_buy_for_usdc_amount() {
    let master_agent = create_test_master_agent();

    let (tokens_received, tax_paid, base_amount) =
        master_agent.calculate_buy_for_usdc_amount(1025000).unwrap();

    assert_eq!(tokens_received, 1);
    assert_eq!(tax_paid, 25000);
    assert_eq!(base_amount, 1000000);
}

#[test]
fn test_calculate_sell_for_token_amount() {
    let master_agent = create_test_master_agent();

    let (usdc_received, tax_paid, base_amount) =
        master_agent.calculate_sell_for_token_amount(1).unwrap();

    assert_eq!(usdc_received, 975000);
    assert_eq!(tax_paid, 25000);
    assert_eq!(base_amount, 1000000);
}

#[test]
fn test_get_buy_tax_rate() {
    let master_agent = create_test_master_agent();
    let tax_rate = master_agent.get_buy_tax_rate().unwrap();
    assert_eq!(tax_rate, 2);
}

#[test]
fn test_get_sell_tax_rate() {
    let master_agent = create_test_master_agent();
    let tax_rate = master_agent.get_sell_tax_rate().unwrap();
    assert_eq!(tax_rate, 2);
}

#[test]
fn test_calculate_buy_price_with_slippage() {
    let master_agent = create_test_master_agent();
    let slippage_bps = 100;

    let (base_price, max_price) =
        master_agent.calculate_buy_price_with_slippage(slippage_bps).unwrap();

    assert_eq!(base_price, 1025000);
    assert_eq!(max_price, 1035250);
}

#[test]
fn test_calculate_sell_price_with_slippage() {
    let master_agent = create_test_master_agent();
    let slippage_bps = 100;

    let (base_price, min_price) =
        master_agent.calculate_sell_price_with_slippage(slippage_bps).unwrap();

    assert_eq!(base_price, 975000);
    assert_eq!(min_price, 965250);
}

#[test]
fn test_validate_tax_config() {
    let mut master_agent = create_test_master_agent();
    assert!(master_agent.validate_tax_config().is_ok());

    master_agent.tax_config.buy_tax_percentage = 1500;
    assert!(master_agent.validate_tax_config().is_err());

    master_agent.tax_config = TaxConfig::default();
    master_agent.tax_config.sell_tax_percentage = 1500;
    assert!(master_agent.validate_tax_config().is_err());

    master_agent.tax_config = TaxConfig::default();
    master_agent.tax_config.max_tax_percentage = PERCENTAGE_PRECISION_U64 + 1;
    assert!(master_agent.validate_tax_config().is_err());
}

#[test]
fn test_get_tax_summary() {
    let master_agent = create_test_master_agent();
    let (buy_tax_rate, sell_tax_rate, max_tax_rate) = master_agent.get_tax_summary().unwrap();

    assert_eq!(buy_tax_rate, 2);
    assert_eq!(sell_tax_rate, 2);
    assert_eq!(max_tax_rate, 10);
}

#[test]
fn test_tax_calculations_with_different_rates() {
    let mut master_agent = create_test_master_agent();
    master_agent.tax_config.buy_tax_percentage = 500;
    master_agent.tax_config.sell_tax_percentage = 300;

    let (total_price, tax_amount, base_price) = master_agent.calculate_buy_price_with_tax().unwrap();

    assert_eq!(base_price, 1000000);
    assert_eq!(tax_amount, 50000);
    assert_eq!(total_price, 1050000);

    let (net_price, tax_amount, base_price) = master_agent.calculate_sell_price_with_tax().unwrap();

    assert_eq!(base_price, 1000000);
    assert_eq!(tax_amount, 30000);
    assert_eq!(net_price, 970000);
}

#[test]
fn test_tax_calculations_edge_cases() {
    let master_agent = create_test_master_agent();
    let (total_price, tax_amount, _) = master_agent.calculate_buy_price_with_tax().unwrap();

    assert_eq!(tax_amount, 25000);
    assert_eq!(total_price, 1025000);

    let (net_price, tax_amount, _) = master_agent.calculate_sell_price_with_tax().unwrap();

    assert_eq!(tax_amount, 25000);
    assert_eq!(net_price, 975000);
}

#[test]
fn test_large_amount_calculations() {
    let mut master_agent = create_test_master_agent();
    master_agent.price = 1_000_000_000;
    let (total_price, tax_amount, base_price) = master_agent.calculate_buy_price_with_tax().unwrap();

    assert_eq!(base_price, 1_000_000_000);
    assert_eq!(tax_amount, 25_000_000);
    assert_eq!(total_price, 1_025_000_000);

    let (net_price, tax_amount, base_price) = master_agent.calculate_sell_price_with_tax().unwrap();

    assert_eq!(base_price, 1_000_000_000);
    assert_eq!(tax_amount, 25_000_000);
    assert_eq!(net_price, 975_000_000);
}

#[test]
fn test_can_update_price() {
    let mut master_agent = create_test_master_agent();
    let now = 1_700_000_000;
    let base_price = 1_000_000;
    master_agent.price = base_price;
    master_agent.last_price_update = now - 2 * 86_400;
    master_agent.price_update_allowance = 2;

    let max_agent_price_new = 11_000;
    let allowed_price = base_price * max_agent_price_new / 10_000;

    master_agent.last_price_update = now - 1 * 86_400;
    let authority = master_agent.authority;
    let result = master_agent.can_update_price_secure_with_time(
        base_price,
        max_agent_price_new,
        &authority,
        now,
    );
    assert!(result.is_err());

    master_agent.last_price_update = now - 2 * 86_400;
    let too_high_price = allowed_price + 1;
    let result = master_agent.can_update_price_secure_with_time(
        too_high_price,
        max_agent_price_new,
        &authority,
        now,
    );
    assert!(result.is_err());

    let result = master_agent.can_update_price_secure_with_time(
        allowed_price,
        max_agent_price_new,
        &authority,
        now,
    );
    assert!(result.is_ok());

    master_agent.last_price_update = now - 2 * 86_400;
    let result = master_agent.can_update_price_secure_with_time(
        allowed_price,
        max_agent_price_new,
        &authority,
        now,
    );
    assert!(result.is_ok());

    master_agent.last_price_update = now + 100;
    let result = master_agent.can_update_price_secure_with_time(
        base_price,
        max_agent_price_new,
        &authority,
        now,
    );
    assert!(result.is_err());
}

#[test]
fn test_security_features() {
    let mut master_agent = create_test_master_agent();
    let current_time = 1640995260;

    let wrong_authority = key(9);
    let result =
        master_agent.set_trading_status(TradingStatus::Public, &wrong_authority, current_time);
    assert!(result.is_err());
    assert_eq!(result.unwrap_err(), ErrorCode::InvalidAuthority);

    let new_tax_config =
        TaxConfig { buy_tax_percentage: 300, sell_tax_percentage: 300, max_tax_percentage: 1000 };
    let result =
        master_agent.update_tax_config(new_tax_config.clone(), &wrong_authority, current_time);
    assert!(result.is_err());
    assert_eq!(result.unwrap_err(), ErrorCode::InvalidAuthority);

    let authority = master_agent.authority;
    let result =
        master_agent.update_tax_config(new_tax_config.clone(), &authority, current_time + 86400);
    assert!(result.is_ok());

    let next_update_time = current_time + 2 * 86400;
    let result = master_agent.update_tax_config(new_tax_config, &authority, next_update_time);
    assert!(result.is_ok());

    let mut fresh_master_agent = create_test_master_agent();
    let result = fresh_master_agent.validate_security(current_time);
    assert!(result.is_ok());

    fresh_master_agent.price = 1_000_000_000_000_000_001;
    let result = fresh_master_agent.validate_security(current_time);
    assert!(result.is_err());
    assert_eq!(result.unwrap_err(), ErrorCode::InvalidEntryPrice);

    fresh_master_agent = create_test_master_agent();
    fresh_master_agent.w_yield = 50001;
    let result = fresh_master_agent.validate_security(current_time);
    assert!(result.is_err());
    assert_eq!(result.unwrap_err(), ErrorCode::MathError);

    fresh_master_agent = create_test_master_agent();
    fresh_master_agent.max_supply = 1_000_001;
    let result = fresh_master_agent.validate_security(current_time);
    assert!(result.is_err());
    assert_eq!(result.unwrap_err(), ErrorCode::MathError);
}

#[test]
fn test_secure_time_method() {
    let result = MasterAgent::get_secure_time();
    assert!(result.is_ok() || result.is_err());
}

#[test]
fn test_suspicious_activity_detection() {
    let mut master_agent = create_test_master_agent();
    let current_time = 1640995260;

    let result = master_agent.detect_suspicious_activity(current_time);
    assert!(result.is_ok());

    master_agent.trade_count = 1001;
    master_agent.agent_count = 1;
    let result = master_agent.detect_suspicious_activity(current_time);
    assert!(result.is_err());
    assert_eq!(result.unwrap_err(), ErrorCode::CannotPerformAction);

    master_agent = create_test_master_agent();
    master_agent.created_at = current_time + 1000;
    let result = master_agent.detect_suspicious_activity(current_time);
    assert!(result.is_err());
    assert_eq!(result.unwrap_err(), ErrorCode::InvalidAccount);

    master_agent = create_test_master_agent();
    master_agent.last_updated = current_time + 1000;
    let result = master_agent.detect_suspicious_activity(current_time);
    assert!(result.is_err());
    assert_eq!(result.unwrap_err(), ErrorCode::InvalidAccount);
}
