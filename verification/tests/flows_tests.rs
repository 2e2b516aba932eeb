use tubor_yield::error::ErrorCode;
use tubor_yield::instructions::admin_flows::{
    ban_user, init, mint_agent, mint_master_agent, pause_protocol, update_price, update_status,
    update_yield, InitParams, MintMasterAgentParams, UpdateStatusParams,
};
use tubor_yield::instructions::trade_flows::{
    close_trade, new_trade, open_trade, update_trade, OpenTradeParams,
};
use tubor_yield::instructions::user_flows::{
    buy_agent, claim_referral_rewards, get_buy_agent_price, get_sell_agent_price, register_user,
    sell_agent, withdraw_yield, RegisterUserParams, WithdrawYieldParams,
};
use tubor_yield::pubkey::Pubkey;
use tubor_yield::state::agents::Agent;
use tubor_yield::state::master_agent::{MasterAgent, MasterAgentInitParams, TaxConfig, TradingStatus};
use tubor_yield::state::multisig::{Multisig, SignerInfo};
use tubor_yield::state::oracle::OraclePrice;
use tubor_yield::state::t_yield::TYield;
use tubor_yield::state::trade::{Trade, TradeResult, TradeStatus, TradeType};
use tubor_yield::state::user::{ReferralLink, ReferralRegistry, User, UserStatus};

const T0: i64 = 1_640_995_200;

/// A distinct, non-default key for each `n`.
fn key(n: u8) -> Pubkey {
    let mut bytes = [0u8; 32];
    bytes[0] = n;
    bytes[31] = 0x99;
    Pubkey::new_from_array(bytes)
}

fn master_agent(authority: Pubkey) -> MasterAgent {
    let mut m = MasterAgent::default();
    m.initialize(MasterAgentInitParams {
        authority,
        mint: key(2),
        price: 1_000_000,
        w_yield: 500,
        trading_status: TradingStatus::Public,
        max_supply: 100,
        auto_relist: false,
        current_time: T0,
        bump: 1,
        tax_config: TaxConfig::default(),
    })
    .unwrap();
    m
}

fn active_user(authority: Pubkey) -> User {
    let mut u = User::default();
    u.authority = authority;
    u.created_at = T0;
    u.updated_at = T0;
    u.name[0] = b'a';
    u.status = UserStatus::Active.bits();
    u
}

fn signer(key: Pubkey) -> SignerInfo {
    SignerInfo { key, is_signer: true }
}

#[test]
fn buy_then_sell_an_agent() {
    let master_key = key(10);
    let buyer = key(11);
    let protocol = key(12);
    let mut t_yield = TYield::default();
    let mut m = master_agent(key(1));
    m.add_agent(T0).unwrap();
    let mut user = active_user(buyer);
    let mut agent = Agent::default();
    agent.initialize(master_key, key(13), protocol, 10, T0, 1).unwrap();

    let price = buy_agent(&mut t_yield, &mut m, master_key, &mut user, &mut agent, buyer, T0 + 100)
        .unwrap();
    assert_eq!(price, (1_025_000, 25_000, 1_000_000));
    assert_eq!(m.agent_count, 0);
    assert_eq!(m.trade_count, 1);
    assert_eq!(t_yield.protocol_total_fees, 25_000);
    assert_eq!(t_yield.protocol_current_holding, 1_000_000);
    assert_eq!(t_yield.protocol_total_balance_usd, 25_000);
    assert_eq!(t_yield.protocol_total_earnings, 1_025_000);
    assert_eq!(user.total_agents_owned, 1);
    assert_eq!(user.total_agents_purchased, 1_000_000);
    assert_eq!(user.history.total_agents_ever_purchased, 2_000_000);
    assert_eq!(user.history.total_fees_spent, 25_000);
    assert_eq!(agent.owner, buyer);
    assert!(!agent.is_listed);

    let price =
        sell_agent(&mut t_yield, &mut m, master_key, &mut user, &mut agent, buyer, protocol, T0 + 200)
            .unwrap();
    assert_eq!(price, (975_000, 25_000, 1_000_000));
    assert_eq!(m.agent_count, 1);
    assert_eq!(t_yield.protocol_total_fees, 50_000);
    assert_eq!(t_yield.protocol_current_holding, 25_000);
    assert_eq!(t_yield.protocol_total_balance_usd, 0);
    assert_eq!(t_yield.protocol_total_earnings, 1_050_000);
    assert_eq!(user.total_agents_owned, 0);
    assert_eq!(user.history.total_fees_spent, 50_000);
    assert_eq!(agent.owner, protocol);
    assert!(agent.is_listed);
}

#[test]
fn buy_refusals() {
    let master_key = key(10);
    let buyer = key(11);
    let mut t_yield = TYield::default();
    let mut m = master_agent(key(1));
    let mut user = active_user(buyer);
    let mut agent = Agent::default();
    agent.initialize(master_key, key(13), key(12), 10, T0, 1).unwrap();

    // No agent left on the master agent.
    assert_eq!(
        buy_agent(&mut t_yield, &mut m, master_key, &mut user, &mut agent, buyer, T0 + 1),
        Err(ErrorCode::InsufficientFunds)
    );
    // An agent of another master agent.
    let before = (t_yield, m, user, agent);
    assert_eq!(
        buy_agent(&mut t_yield, &mut m, key(99), &mut user, &mut agent, buyer, T0 + 1),
        Err(ErrorCode::CannotPerformAction)
    );
    assert_eq!((t_yield, m, user, agent), before);
    // A banned buyer.
    let mut banned = active_user(buyer);
    banned.ban_user().unwrap();
    m.add_agent(T0).unwrap();
    assert_eq!(
        buy_agent(&mut t_yield, &mut m, master_key, &mut banned, &mut agent, buyer, T0 + 1),
        Err(ErrorCode::CannotPerformAction)
    );
    // A seller who does not own the agent.
    assert_eq!(
        sell_agent(&mut t_yield, &mut m, master_key, &mut user, &mut agent, buyer, key(12), T0 + 1),
        Err(ErrorCode::CannotPerformAction)
    );
}

#[test]
fn agent_prices() {
    let m = master_agent(key(1));
    let buy = get_buy_agent_price(&m).unwrap();
    assert_eq!((buy.total_price, buy.tax_amount, buy.base_price), (1_025_000, 25_000, 1_000_000));
    let sell = get_sell_agent_price(&m).unwrap();
    assert_eq!((sell.total_price, sell.tax_amount, sell.base_price), (975_000, 25_000, 1_000_000));
    let mut bad = m;
    bad.tax_config.buy_tax_percentage = 2000;
    assert_eq!(get_buy_agent_price(&bad), Err(ErrorCode::MathError));
}

#[test]
fn withdraw_and_claim_flows() {
    let mut user = active_user(key(20));
    user.add_unclaimed_yield(1_000).unwrap();
    let mut t_yield = TYield::default();
    t_yield.protocol_total_balance_usd = 5_000;

    assert_eq!(withdraw_yield(&mut user, &mut t_yield, &WithdrawYieldParams { amount: Some(400) }), Ok(400));
    assert_eq!(user.total_unclaimed_yield, 600);
    assert_eq!(user.history.total_yield_claimed, 400);
    assert_eq!(t_yield.protocol_total_balance_usd, 4_600);
    assert_eq!(
        withdraw_yield(&mut user, &mut t_yield, &WithdrawYieldParams { amount: Some(601) }),
        Err(ErrorCode::InsufficientFunds)
    );
    assert_eq!(withdraw_yield(&mut user, &mut t_yield, &WithdrawYieldParams { amount: None }), Ok(600));
    assert_eq!(user.total_unclaimed_yield + user.history.total_yield_claimed, 1_000);
    assert_eq!(
        withdraw_yield(&mut user, &mut t_yield, &WithdrawYieldParams { amount: None }),
        Err(ErrorCode::InsufficientFunds)
    );

    let mut registry = ReferralRegistry::default();
    registry.add_unclaimed_referral_earnings(300).unwrap();
    assert_eq!(claim_referral_rewards(&mut user, &mut registry, &mut t_yield), Ok(300));
    assert_eq!(registry.total_referral_earnings_uc, 0);
    assert_eq!(registry.total_referral_earnings, 300);
    assert_eq!(user.history.total_referral_earnings_ever, 300);
    assert_eq!(t_yield.protocol_total_balance_usd, 3_700);

    let mut banned = active_user(key(21));
    banned.ban_user().unwrap();
    assert_eq!(
        claim_referral_rewards(&mut banned, &mut registry, &mut t_yield),
        Err(ErrorCode::CannotPerformAction)
    );
}

#[test]
fn register_user_without_referrer() {
    let mut name = [0u8; 15];
    name[..5].copy_from_slice(b"alice");
    let reg = register_user(
        key(30),
        RegisterUserParams { name, referrer: None },
        None,
        None,
        None,
        7,
        None,
        None,
        T0,
    )
    .unwrap();
    assert_eq!(reg.user.authority, key(30));
    assert_eq!(reg.user.name, name);
    assert_eq!(reg.user.created_at, T0);
    assert_eq!(reg.user.bump, 7);
    assert!(reg.user.can_perform_actions());
    assert_eq!(reg.user.referrer, Pubkey::default());
    assert!(reg.referral_registry.is_none());

    assert_eq!(
        register_user(
            key(30),
            RegisterUserParams { name, referrer: Some(key(31)) },
            None,
            None,
            None,
            7,
            None,
            None,
            T0,
        )
        .map(|r| r.user.authority),
        Err(ErrorCode::ReferrerNotAUser)
    );
}

#[test]
fn init_sets_signers_and_protocol() {
    let mut multisig = Multisig::default();
    let mut t_yield = TYield::default();
    let params = InitParams {
        min_signatures: 2,
        allow_agent_deploy: true,
        allow_agent_buy: true,
        allow_agent_sell: false,
        allow_withdraw_yield: true,
        buy_tax: 250,
        sell_tax: 300,
        max_tax_percentage: 1000,
        ref_earn_percentage: 100,
        supported_mint: key(40),
        paused: None,
        circuit_breaker: None,
        rate_limiter: None,
        parameter_bounds: None,
    };
    let admins = [key(41), key(42)];
    let r = init(
        &mut multisig, &mut t_yield, &params, &admins, key(43), key(44), None, None, key(40), 5, 6,
        7, T0,
    );
    assert_eq!(r, Ok(()));
    assert_eq!(multisig.num_signers, 2);
    assert_eq!(multisig.min_signatures, 2);
    assert_eq!(multisig.bump, 5);
    assert_eq!(t_yield.y_mint, key(40));
    assert_eq!(t_yield.buy_tax, 250);
    assert_eq!(t_yield.sell_tax, 300);
    assert!(t_yield.permissions.allow_agent_deploy);
    assert!(!t_yield.permissions.allow_agent_sell);
    assert_eq!(t_yield.inception_time, T0);
    assert!(!t_yield.paused);

    let mut other = Multisig::default();
    let mut other_yield = TYield::default();
    assert_eq!(
        init(
            &mut other, &mut other_yield, &params, &admins, key(43), key(44), Some(key(45)), None,
            key(40), 5, 6, 7, T0,
        ),
        Err(ErrorCode::InvalidAuthority)
    );
    assert_eq!(
        init(
            &mut other, &mut other_yield, &params, &[key(41)], key(43), key(44), None, None,
            key(40), 5, 6, 7, T0,
        ),
        Err(ErrorCode::InvalidBump)
    );
    assert_eq!(other, Multisig::default());
}

#[test]
fn yield_update_needs_both_signatures() {
    let authority = key(50);
    let second = key(51);
    let mut multisig = Multisig::default();
    multisig.set_signers(&[authority, second], 2).unwrap();
    let mut m = master_agent(authority);
    let data = 525u64.to_le_bytes();
    let now = T0 + 200_000;

    assert_eq!(update_yield(&mut m, &mut multisig, &signer(authority), &[], 525, &data, now), Ok(1));
    assert_eq!(m.w_yield, 500);
    // The second signer completes the approval, but only the master agent's
    // authority may change its yield.
    let before = m;
    assert_eq!(
        update_yield(&mut m, &mut multisig, &signer(second), &[], 525, &data, now + 1),
        Err(ErrorCode::InvalidAuthority)
    );
    assert_eq!(m, before);
}

#[test]
fn single_signer_admin_actions() {
    let admin = key(60);
    let mut multisig = Multisig::default();
    multisig.set_signers(&[admin], 1).unwrap();
    let now = T0 + 200_000;

    // Yield and price changes by the master agent's authority.
    let mut m = master_agent(admin);
    assert_eq!(update_yield(&mut m, &mut multisig, &signer(admin), &[], 525, &[1], now), Ok(0));
    assert_eq!(m.w_yield, 525);
    assert_eq!(m.last_updated, now);
    let mut t_yield = TYield::default();
    t_yield.max_agent_price_new = 11_000;
    assert_eq!(
        update_price(&t_yield, &mut m, &mut multisig, &signer(admin), &[], 1_100_000, &[2], now + 150_000),
        Ok(0)
    );
    assert_eq!(m.price, 1_100_000);
    assert_eq!(
        update_price(&t_yield, &mut m, &mut multisig, &signer(admin), &[], 2_000_000, &[3], now + 300_000),
        Err(ErrorCode::PriceUpdateTooHigh)
    );

    // Bans and statuses.
    let mut user = active_user(key(61));
    assert_eq!(ban_user(&mut user, &mut multisig, &signer(admin), &[], now + 400_000), Ok(0));
    assert!(user.is_banned());
    assert!(!user.is_active());
    assert_eq!(
        update_status(
            &mut user,
            &mut multisig,
            &signer(admin),
            &[],
            &UpdateStatusParams { status: UserStatus::Active },
            &[1],
            now + 500_000,
        ),
        Err(ErrorCode::CannotPerformAction)
    );
    assert_eq!(
        update_status(
            &mut user,
            &mut multisig,
            &signer(admin),
            &[],
            &UpdateStatusParams { status: UserStatus::WithListed },
            &[2],
            now + 600_000,
        ),
        Ok(0)
    );
    assert!(user.is_whitelisted());

    // Pausing.
    let mut t_yield = TYield::default();
    assert_eq!(pause_protocol(&mut t_yield, &mut multisig, &signer(admin), &[], now + 700_000), Ok(0));
    assert!(t_yield.paused);
    assert_eq!(
        pause_protocol(&mut t_yield, &mut multisig, &signer(admin), &[], now + 800_000),
        Err(ErrorCode::CannotPerformAction)
    );
}

#[test]
fn minting_agents() {
    let admin = key(70);
    let mut multisig = Multisig::default();
    multisig.set_signers(&[admin], 1).unwrap();
    let mut t_yield = TYield::default();
    t_yield.permissions.allow_agent_deploy = true;
    t_yield.rate_limiter.max_updates_per_day = 10;
    let params = MintMasterAgentParams {
        name: "Master".to_string(),
        symbol: "MA".to_string(),
        uri: "https://example.invalid/ma.json".to_string(),
        seller_fee_basis_points: 100,
        price: 1_000_000,
        w_yield: 500,
        max_supply: 10,
        trading_status: TradingStatus::Public,
        auto_relist: true,
    };
    let mut m = MasterAgent::default();
    let r = mint_master_agent(&t_yield, &mut multisig, &signer(admin), &[], &mut m, admin, key(71), &params, &[9], 3, T0);
    assert_eq!(r, Ok(0));
    assert_eq!(m.price, 1_000_000);
    assert_eq!(m.max_supply, 10);
    assert_eq!(m.created_at, T0);
    assert_eq!(m.tax_config, TaxConfig::default());

    let mut agent = Agent::default();
    let r = mint_agent(&t_yield, &mut multisig, &signer(admin), &[], &[8], &mut m, key(72), &mut agent, key(73), admin, 4, T0 + 10);
    assert_eq!(r, Ok(0));
    assert_eq!(agent.master_agent, key(72));
    assert_eq!(agent.owner, admin);
    assert_eq!(agent.booster, 10);
    assert!(agent.is_listed);
    assert_eq!(m.agent_count, 1);

    let mut paused = t_yield;
    paused.paused = true;
    let mut other = MasterAgent::default();
    assert_eq!(
        mint_master_agent(&paused, &mut multisig, &signer(admin), &[], &mut other, admin, key(71), &params, &[9], 3, T0 + 20),
        Err(ErrorCode::EmergencyPauseActive)
    );
    assert_eq!(other, MasterAgent::default());
}

#[test]
fn open_and_close_a_trade() {
    let params = OpenTradeParams {
        entry_price: 1005,
        take_profit: 1100,
        size: 100,
        stop_loss: 900,
        trade_type: TradeType::Buy,
        feed_id: [1; 32],
        trade_pair: *b"SOL/USDC",
    };
    let price = OraclePrice { price: 1000, exponent: 0 };
    let trade = new_trade(&params, key(80), T0, &price);
    let mut trade = trade.unwrap();
    assert_eq!(trade.get_status(), TradeStatus::Active);
    assert_eq!(trade.get_result(), TradeResult::Pending);
    assert_eq!(trade.entry_price, 1005);
    assert_eq!(trade.created_at, T0);

    let mut m = master_agent(key(1));
    assert_eq!(close_trade(&mut trade, &mut m, 1105, T0 + 60), Ok(0));
    assert_eq!(trade.get_status(), TradeStatus::Completed);
    assert_eq!(trade.get_result(), TradeResult::Success);
    assert_eq!(m.completed_trades, 1);
    // (1105 - 1005) * 100 / 1005 = 9
    assert_eq!(m.total_pnl, 9);
    assert_eq!(close_trade(&mut trade, &mut m, 1105, T0 + 61), Err(ErrorCode::CannotPerformAction));

    // A buy below the market is refused.
    let low = OpenTradeParams { entry_price: 990, ..params };
    assert!(new_trade(&low, key(80), T0, &price).is_err());
}

#[test]
fn update_trade_outcomes() {
    let params = OpenTradeParams {
        entry_price: 1005,
        take_profit: 1100,
        size: 100,
        stop_loss: 900,
        trade_type: TradeType::Buy,
        feed_id: [1; 32],
        trade_pair: *b"SOL/USDC",
    };
    let price = OraclePrice { price: 1000, exponent: 0 };
    let mut m = master_agent(key(1));

    // Between the levels the trade only gets a new update time.
    let mut trade = new_trade(&params, key(80), T0, &price).unwrap();
    let before = trade;
    assert_eq!(update_trade(&mut trade, &mut m, 1050, T0 + 5), Ok(0));
    assert_eq!(trade.updated_at, T0 + 5);
    assert_eq!(trade.get_status(), TradeStatus::Active);
    assert_eq!(trade.entry_price, before.entry_price);
    assert_eq!(m.completed_trades, 0);

    // At the take profit: completed with success, (1100 - 1005) * 100 / 1005 = 9.
    assert_eq!(update_trade(&mut trade, &mut m, 1100, T0 + 6), Ok(1));
    assert_eq!(trade.get_status(), TradeStatus::Completed);
    assert_eq!(trade.get_result(), TradeResult::Success);
    assert_eq!(trade.updated_at, T0 + 6);
    assert_eq!(m.completed_trades, 1);
    assert_eq!(m.total_pnl, 9);

    // A finished trade is left alone.
    assert_eq!(update_trade(&mut trade, &mut m, 800, T0 + 7), Ok(0));
    assert_eq!(trade.updated_at, T0 + 6);
    assert_eq!(m.completed_trades, 1);

    // At the stop loss: completed as failed. The loss of 10 is added as its
    // two's complement bit pattern, which only fits on a total of at most 9.
    let mut fresh = master_agent(key(1));
    let mut loser = new_trade(&params, key(80), T0, &price).unwrap();
    assert_eq!(update_trade(&mut loser, &mut fresh, 900, T0 + 8), Ok(2));
    assert_eq!(loser.get_result(), TradeResult::Failed);
    assert_eq!(fresh.completed_trades, 1);
    assert_eq!(fresh.total_pnl, (-10i64) as u64);
    let mut loser2 = new_trade(&params, key(80), T0, &price).unwrap();
    assert_eq!(update_trade(&mut loser2, &mut fresh, 900, T0 + 8), Err(ErrorCode::MathError));

    // A zero price cannot be valued.
    let mut other = new_trade(&params, key(80), T0, &price).unwrap();
    assert_eq!(update_trade(&mut other, &mut m, 0, T0 + 9), Err(ErrorCode::InvalidEntryPrice));
}

#[test]
fn register_user_with_referrer() {
    let name = [b'b'; 15];
    let reg = register_user(
        key(30),
        RegisterUserParams { name, referrer: Some(key(31)) },
        Some(key(31)),
        Some(ReferralRegistry::default()),
        Some(ReferralLink::new(Pubkey::default(), Pubkey::default(), 0, 0)),
        7,
        Some(8),
        Some(9),
        T0,
    )
    .unwrap();
    assert_eq!(reg.user.referrer, key(31));
    let registry = reg.referral_registry.unwrap();
    assert_eq!(registry.referrer, key(31));
    assert_eq!(registry.total_referred_users, 1);
    assert_eq!(registry.created_at, T0);
    assert_eq!(registry.bump, 8);
    let link = reg.referral_link.unwrap();
    assert_eq!(link.referrer, key(31));
    assert_eq!(link.referred_user, key(30));
    assert_eq!(link.bump, 9);

    // A new registry without its bump.
    assert_eq!(
        register_user(
            key(30),
            RegisterUserParams { name, referrer: Some(key(31)) },
            Some(key(31)),
            Some(ReferralRegistry::default()),
            None,
            7,
            None,
            None,
            T0,
        )
        .map(|r| r.user.bump),
        Err(ErrorCode::InvalidBump)
    );
    // Referral accounts without a referrer.
    assert_eq!(
        register_user(
            key(30),
            RegisterUserParams { name, referrer: None },
            None,
            Some(ReferralRegistry::default()),
            None,
            7,
            None,
            None,
            T0,
        )
        .map(|r| r.user.bump),
        Err(ErrorCode::InvalidReferrer)
    );
}

#[test]
fn open_trade_needs_approval() {
    let first = key(90);
    let second = key(91);
    let mut multisig = Multisig::default();
    multisig.set_signers(&[first, second], 2).unwrap();
    let params = OpenTradeParams {
        entry_price: 1005,
        take_profit: 1100,
        size: 100,
        stop_loss: 900,
        trade_type: TradeType::Buy,
        feed_id: [1; 32],
        trade_pair: *b"SOL/USDC",
    };
    let data = [7u8; 4];
    let price = Ok(OraclePrice { price: 1000, exponent: 0 });
    let now = T0 + 200_000;
    let mut trade = Trade::default();
    let mut m = master_agent(key(1));

    // The first signature only signs: nothing is written.
    assert_eq!(
        open_trade(&mut trade, &mut m, key(80), &mut multisig, &signer(first), &[], &params, &data, price, now),
        Ok(1)
    );
    assert_eq!(trade, Trade::default());
    assert_eq!(m.trade_count, 0);

    // The second completes the approval: the trade is opened and counted.
    assert_eq!(
        open_trade(&mut trade, &mut m, key(80), &mut multisig, &signer(second), &[], &params, &data, price, now + 1),
        Ok(0)
    );
    assert_eq!(trade.get_status(), TradeStatus::Active);
    assert_eq!(trade.entry_price, 1005);
    assert_eq!(trade.created_at, now + 1);
    assert_eq!(m.trade_count, 1);

    // Approved, but without an oracle price.
    let mut single = Multisig::default();
    single.set_signers(&[first], 1).unwrap();
    let mut other = Trade::default();
    assert_eq!(
        open_trade(
            &mut other, &mut m, key(80), &mut single, &signer(first), &[], &params, &data,
            Err(ErrorCode::InvalidOraclePrice), now + 2,
        ),
        Err(ErrorCode::InvalidOraclePrice)
    );
    assert_eq!(other, Trade::default());
    assert_eq!(m.trade_count, 1);
}
