//! Opening, updating and closing trades against an oracle price.
use vstd::prelude::*;
use vstd::array::spec_array_fill_for_copy_type;
use crate::error::{ErrorCode, TYieldResult};
use crate::math::bps::{abs_diff, deviation_bps, ratio_bps};
use crate::math::safe_math::SafeMath;
use crate::pubkey::Pubkey;
use crate::state::master_agent::MasterAgent;
use crate::instructions::admin_flows::{approval_step, approve_admin_instruction, time_nonce};
use crate::state::multisig::{lookup_ok, sign_time_ok, AdminInstruction, Multisig, SignerInfo};
use crate::state::oracle::{scale_ok, OraclePrice};
use crate::state::trade::{
    can_execute, comprehensive_check, levels_check, optimal_price, pnl_at,
    risk_reward_of, status_from_byte, type_byte, unsigned_abs, abs_u64, whole_price,
    PriceValidationConfig, Trade, TradeInitParams, TradeResult, TradeStatus, TradeType,
};

verus! {

/// What a trade is opened with.
#[derive(Clone, Copy, PartialEq, Eq, Debug)]
pub struct OpenTradeParams {
    pub entry_price: u64,
    pub take_profit: u64,
    pub size: u64,
    pub stop_loss: u64,
    pub trade_type: TradeType,
    pub feed_id: [u8; 32],
    pub trade_pair: [u8; 8],
}

/// The trade the parameters describe, before it is opened.
pub open spec fn proposed_trade(params: OpenTradeParams, master_agent: Pubkey, now: i64) -> Trade {
    Trade {
        master_agent,
        size: params.size,
        entry_price: params.entry_price,
        take_profit: params.take_profit,
        stop_loss: params.stop_loss,
        created_at: now,
        updated_at: now,
        pair: params.trade_pair,
        feed_id: params.feed_id,
        status: 1,
        trade_type: type_byte(params.trade_type),
        result: 4,
        bump: 0,
        authority: Pubkey::spec_default(),
        oracle_consensus_count: 0,
        last_price_update: 0,
        circuit_breaker_triggered: false,
        _padding: spec_array_fill_for_copy_type::<u8, 2>(0u8),
    }
}

/// Whether an opening is refused, and why: the oracle price must be whole
/// (exponent 0 reachable), the trade must pass every check of the default
/// configuration and be executable, the entry must be within 5% of the
/// optimal price (`MaxPriceSlippage`), a buy may not enter below the market
/// and a sell not above it (`MaxPriceSlippage`), and risk-reward and level
/// distances must meet the configuration again.
pub open spec fn open_trade_check(t: Trade, o: OraclePrice, c: PriceValidationConfig) -> Result<(), ErrorCode> {
    match whole_price(o) {
        Err(e) => Err(e),
        Ok(market) => if c.check() is Err {
            c.check()
        } else if comprehensive_check(
            t,
            market,
            o,
            c.max_slippage_bps,
            c.min_distance_bps,
            c.min_risk_reward_bps,
            c.max_deviation_bps,
            c.range_buffer_bps,
        ) is Err {
            comprehensive_check(
                t,
                market,
                o,
                c.max_slippage_bps,
                c.min_distance_bps,
                c.min_risk_reward_bps,
                c.max_deviation_bps,
                c.range_buffer_bps,
            )
        } else {
            match can_execute(t, market, o, c.max_slippage_bps, c.max_deviation_bps, c.range_buffer_bps) {
                Err(e) => Err(e),
                Ok(ok) => if !ok {
                    Err(ErrorCode::PriceOutOfRange)
                } else {
                    match optimal_price(o, c.spread_bps, c.slippage_buffer_bps, t.trade_type_of()) {
                        Err(e) => Err(e),
                        Ok(optimal) => match ratio_bps(
                            abs_diff(t.entry_price as int, optimal as int),
                            optimal as int,
                        ) {
                            Err(e) => Err(e),
                            Ok(d) => if d > c.max_slippage_bps {
                                Err(ErrorCode::MaxPriceSlippage)
                            } else if (t.is_buy_spec() && t.entry_price < market) || (
                            !t.is_buy_spec() && t.entry_price > market) {
                                Err(ErrorCode::MaxPriceSlippage)
                            } else {
                                match risk_reward_of(t) {
                                    Err(e) => Err(e),
                                    Ok(rr) => if rr < c.min_risk_reward_bps {
                                        Err(ErrorCode::InsufficientRiskRewardRatio)
                                    } else {
                                        levels_check(t, c.min_distance_bps)
                                    },
                                }
                            },
                        },
                    }
                },
            }
        },
    }
}

impl Trade {
    /// The side of the trade.
    pub open spec fn trade_type_of(self) -> TradeType {
        crate::state::trade::type_from_byte(self.trade_type)
    }
}

/// Checks a trade proposed for `master_agent` at `current_time` against the
/// oracle price (see `open_trade_check`), with the default validation
/// configuration, and gives the trade to open: active, pending, with bump 2.
pub fn new_trade(
    params: &OpenTradeParams,
    master_agent: Pubkey,
    current_time: i64,
    token_price: &OraclePrice,
) -> (r: TYieldResult<Trade>)
    requires
        scale_ok(token_price.exponent, 0),
    ensures
        r is Err ==> r == Err::<Trade, ErrorCode>(
            open_trade_check(
                proposed_trade(*params, master_agent, current_time),
                *token_price,
                PriceValidationConfig::spec_custom(500, 100, 150, 200, 50, 50, 25),
            )->Err_0,
        ),
        r is Ok <==> open_trade_check(
            proposed_trade(*params, master_agent, current_time),
            *token_price,
            PriceValidationConfig::spec_custom(500, 100, 150, 200, 50, 50, 25),
        ) is Ok,
        r matches Ok(t) ==> t.initialized(
            TradeInitParams {
                master_agent,
                size: params.size,
                entry_price: params.entry_price,
                take_profit: params.take_profit,
                stop_loss: params.stop_loss,
                created_at: current_time,
                pair: params.trade_pair,
                feed_id: params.feed_id,
                status: TradeStatus::Active,
                trade_type: params.trade_type,
                result: TradeResult::Pending,
                bump: 2,
            },
            Pubkey::spec_default(),
        ),
{
    let validation_config = PriceValidationConfig::default();
    let temp_trade = Trade {
        master_agent,
        size: params.size,
        entry_price: params.entry_price,
        take_profit: params.take_profit,
        stop_loss: params.stop_loss,
        created_at: current_time,
        updated_at: current_time,
        pair: params.trade_pair,
        feed_id: params.feed_id,
        status: TradeStatus::Active.bits(),
        trade_type: params.trade_type.bits(),
        result: TradeResult::Pending.bits(),
        bump: 0,
        authority: Pubkey::default(),
        oracle_consensus_count: 0,
        last_price_update: 0,
        circuit_breaker_triggered: false,
        _padding: [0;2],
    };
    assert(temp_trade == proposed_trade(*params, master_agent, current_time));
    let current_market_price = token_price.scale_to_exponent(0)?.price;
    temp_trade.validate_with_config(current_market_price, token_price, &validation_config)?;
    if !temp_trade.can_execute_with_config(current_market_price, token_price, &validation_config)? {
        return Err(ErrorCode::PriceOutOfRange);
    }
    let optimal_entry_price = temp_trade.calculate_optimal_price_with_config(
        token_price,
        &validation_config,
    )?;
    let price_diff_bps = deviation_bps(params.entry_price, optimal_entry_price, optimal_entry_price)?;
    if price_diff_bps > validation_config.max_slippage_bps {
        return Err(ErrorCode::MaxPriceSlippage);
    }
    match params.trade_type {
        TradeType::Buy => {
            if params.entry_price < current_market_price {
                return Err(ErrorCode::MaxPriceSlippage);
            }
        },
        TradeType::Sell => {
            if params.entry_price > current_market_price {
                return Err(ErrorCode::MaxPriceSlippage);
            }
        },
    }
    let risk_reward_ratio = temp_trade.calculate_risk_reward_ratio()?;
    if risk_reward_ratio < validation_config.min_risk_reward_bps {
        return Err(ErrorCode::InsufficientRiskRewardRatio);
    }
    temp_trade.validate_risk_management_levels(validation_config.min_distance_bps)?;
    let mut trade = Trade::default();
    trade.init_trade(
        TradeInitParams {
            master_agent,
            size: params.size,
            entry_price: params.entry_price,
            take_profit: params.take_profit,
            stop_loss: params.stop_loss,
            created_at: current_time,
            pair: params.trade_pair,
            feed_id: params.feed_id,
            status: TradeStatus::Active,
            trade_type: params.trade_type,
            result: TradeResult::Pending,
            bump: 2,
        },
    );
    Ok(trade)
}

/// The trade `new_trade` gives for these inputs, when its checks pass.
pub open spec fn opened_trade(params: OpenTradeParams, master_agent: Pubkey, now: i64) -> TradeInitParams {
    TradeInitParams {
        master_agent,
        size: params.size,
        entry_price: params.entry_price,
        take_profit: params.take_profit,
        stop_loss: params.stop_loss,
        created_at: now,
        pair: params.trade_pair,
        feed_id: params.feed_id,
        status: TradeStatus::Active,
        trade_type: params.trade_type,
        result: TradeResult::Pending,
        bump: 2,
    }
}

/// Signs the opening of a trade with the multisig; once it has all its
/// signatures, the oracle price read for the pair must be there
/// (`InvalidOraclePrice`), the trade must pass `new_trade`'s checks, and it is
/// written to `trade` while the master agent counts one more trade
/// (`MathError` past `u64::MAX`). Answers the signatures still needed, with
/// the trade and the master agent unchanged while any are.
pub fn open_trade(
    trade: &mut Trade,
    master_agent: &mut MasterAgent,
    master_agent_key: Pubkey,
    multisig: &mut Multisig,
    authority: &SignerInfo,
    accounts: &[Pubkey],
    params: &OpenTradeParams,
    params_data: &[u8],
    token_price: TYieldResult<OraclePrice>,
    current_time: i64,
) -> (r: TYieldResult<u8>)
    requires
        sign_time_ok(old(multisig)@, current_time),
        lookup_ok(old(multisig)@, authority.key),
        approval_step(
            old(multisig)@,
            *authority,
            accounts@,
            AdminInstruction::OpenTrade,
            params_data@,
            time_nonce(current_time),
            current_time,
        ).0 == Ok::<u8, ErrorCode>(0) ==> (token_price matches Ok(p) ==> scale_ok(p.exponent, 0)),
    ensures
        ({
            let step = approval_step(
                old(multisig)@,
                *authority,
                accounts@,
                AdminInstruction::OpenTrade,
                params_data@,
                time_nonce(current_time),
                current_time,
            );
            let proposed = proposed_trade(*params, master_agent_key, current_time);
            let config = PriceValidationConfig::spec_custom(500, 100, 150, 200, 50, 50, 25);
            &&& final(multisig)@ == step.1
            &&& step.0 != Ok::<u8, ErrorCode>(0) ==> r == step.0 && *final(trade) == *old(trade)
                && *final(master_agent) == *old(master_agent)
            &&& step.0 == Ok::<u8, ErrorCode>(0) && token_price is Err ==> r == Err::<u8, ErrorCode>(
                ErrorCode::InvalidOraclePrice,
            ) && *final(trade) == *old(trade) && *final(master_agent) == *old(master_agent)
            &&& step.0 == Ok::<u8, ErrorCode>(0) && token_price is Ok && open_trade_check(
                proposed,
                token_price->Ok_0,
                config,
            ) is Err ==> r == Err::<u8, ErrorCode>(
                open_trade_check(proposed, token_price->Ok_0, config)->Err_0,
            ) && *final(trade) == *old(trade) && *final(master_agent) == *old(master_agent)
            &&& step.0 == Ok::<u8, ErrorCode>(0) && token_price is Ok && open_trade_check(
                proposed,
                token_price->Ok_0,
                config,
            ) is Ok ==> final(trade).initialized(
                opened_trade(*params, master_agent_key, current_time),
                Pubkey::spec_default(),
            ) && r == (if old(master_agent).trade_count < u64::MAX {
                Ok::<u8, ErrorCode>(0)
            } else {
                Err(ErrorCode::MathError)
            }) && (r is Ok ==> *final(master_agent) == (MasterAgent {
                trade_count: (old(master_agent).trade_count + 1) as u64,
                ..*old(master_agent)
            }))
        }),
{
    let left = approve_admin_instruction(
        multisig,
        authority,
        accounts,
        AdminInstruction::OpenTrade,
        params_data,
        current_time as u64,
        current_time,
    )?;
    if left > 0 {
        return Ok(left);
    }
    let price = match token_price {
        Ok(p) => p,
        Err(_) => {
            return Err(ErrorCode::InvalidOraclePrice);
        },
    };
    let opened = new_trade(params, master_agent_key, current_time, &price)?;
    *trade = opened;
    master_agent.trade_count = master_agent.trade_count.safe_add(1)?;
    Ok(0)
}

/// Records a finished trade on its master agent: one more completed trade and
/// the profit's magnitude added to the total; `MathError` on overflow.
pub fn record_trade_result(master_agent: &mut MasterAgent, pnl: i64) -> (r: TYieldResult<()>)
    ensures
        r is Ok <==> (old(master_agent).completed_trades < u64::MAX && old(master_agent).total_pnl
            + unsigned_abs(pnl) <= u64::MAX),
        r is Err ==> r == Err::<(), ErrorCode>(ErrorCode::MathError),
        r is Ok ==> *final(master_agent) == (MasterAgent {
            completed_trades: (old(master_agent).completed_trades + 1) as u64,
            total_pnl: (old(master_agent).total_pnl + unsigned_abs(pnl)) as u64,
            ..*old(master_agent)
        }),
{
    master_agent.completed_trades = master_agent.completed_trades.safe_add(1)?;
    master_agent.total_pnl = master_agent.total_pnl.safe_add(abs_u64(pnl))?;
    Ok(())
}

/// Closes an active trade at `current_price` (`CannotPerformAction` when it
/// is not active): completed with success for a non-negative profit and
/// failure otherwise, updated at `current_time`, and recorded on the master
/// agent.
pub fn close_trade(
    trade: &mut Trade,
    master_agent: &mut MasterAgent,
    current_price: u64,
    current_time: i64,
) -> (r: TYieldResult<u8>)
    ensures
        status_from_byte(old(trade).status) != TradeStatus::Active ==> r == Err::<u8, ErrorCode>(
            ErrorCode::CannotPerformAction,
        ),
        status_from_byte(old(trade).status) == TradeStatus::Active ==> r == (match pnl_at(
            *old(trade),
            current_price,
        ) {
            Err(e) => Err(e),
            Ok(p) => if old(master_agent).completed_trades + 1 > u64::MAX || old(
                master_agent,
            ).total_pnl + unsigned_abs(p) > u64::MAX {
                Err(ErrorCode::MathError)
            } else {
                Ok(0u8)
            },
        }),
        r is Ok ==> pnl_at(*old(trade), current_price) is Ok && *final(trade) == (Trade {
            status: 2,
            result: if pnl_at(*old(trade), current_price)->Ok_0 >= 0 {
                1u8
            } else {
                2u8
            },
            updated_at: current_time,
            ..*old(trade)
        }) && *final(master_agent) == (MasterAgent {
            completed_trades: (old(master_agent).completed_trades + 1) as u64,
            total_pnl: (old(master_agent).total_pnl + unsigned_abs(
                pnl_at(*old(trade), current_price)->Ok_0,
            )) as u64,
            ..*old(master_agent)
        }),
{
    if !trade.is_active() {
        return Err(ErrorCode::CannotPerformAction);
    }
    let pnl = trade.calculate_pnl_safe(current_price)?;
    let result = if pnl >= 0 {
        TradeResult::Success
    } else {
        TradeResult::Failed
    };
    trade.complete(result);
    trade.updated_at = current_time;
    record_trade_result(master_agent, pnl)?;
    Ok(0)
}

/// What checking an active trade at `price` answers: the profit there is
/// computed first (its error comes out); then 1 when the take profit was
/// reached, 2 when the stop loss was, 0 when neither; recording a finished
/// trade that overflows the master agent's counters is `MathError`.
pub open spec fn update_answer(t: Trade, m: MasterAgent, price: u64) -> Result<u8, ErrorCode> {
    let take_profit_hit = if t.is_buy_spec() {
        price >= t.take_profit
    } else {
        price <= t.take_profit
    };
    let stop_loss_hit = if t.is_buy_spec() {
        price <= t.stop_loss
    } else {
        price >= t.stop_loss
    };
    match pnl_at(t, price) {
        Err(e) => Err(e),
        Ok(p) => if !(take_profit_hit || stop_loss_hit) {
            Ok(0)
        } else if m.completed_trades + 1 > u64::MAX || m.total_pnl + (p as u64) > u64::MAX {
            Err(ErrorCode::MathError)
        } else if take_profit_hit {
            Ok(1)
        } else {
            Ok(2)
        },
    }
}

/// Checks an active trade at `current_price`: 1 when the take profit was
/// reached and 2 when the stop loss was (the trade is then completed and
/// recorded, with the profit read as unsigned), else 0 with the update time
/// set. An inactive trade is left alone and answers 0.
pub fn update_trade(
    trade: &mut Trade,
    master_agent: &mut MasterAgent,
    current_price: u64,
    current_time: i64,
) -> (r: TYieldResult<u8>)
    ensures
        status_from_byte(old(trade).status) != TradeStatus::Active ==> r == Ok::<u8, ErrorCode>(0)
            && *final(trade) == *old(trade) && *final(master_agent) == *old(master_agent),
        status_from_byte(old(trade).status) == TradeStatus::Active ==> r == update_answer(
            *old(trade),
            *old(master_agent),
            current_price,
        ),
        status_from_byte(old(trade).status) == TradeStatus::Active && r == Ok::<u8, ErrorCode>(0u8)
            ==> *final(trade) == (Trade { updated_at: current_time, ..*old(trade) })
            && *final(master_agent) == *old(master_agent),
        status_from_byte(old(trade).status) == TradeStatus::Active && (r == Ok::<u8, ErrorCode>(1u8)
            || r == Ok::<u8, ErrorCode>(2u8)) ==> *final(trade) == (Trade {
            status: 2,
            result: r->Ok_0,
            updated_at: current_time,
            ..*old(trade)
        }) && *final(master_agent) == (MasterAgent {
            completed_trades: (old(master_agent).completed_trades + 1) as u64,
            total_pnl: (old(master_agent).total_pnl + (pnl_at(*old(trade), current_price)->Ok_0 as u64)) as u64,
            ..*old(master_agent)
        }),
{
    if !trade.is_active() {
        return Ok(0);
    }
    if trade.has_hit_take_profit(current_price) {
        let pnl = trade.calculate_pnl_safe(current_price)?;
        trade.complete(TradeResult::Success);
        trade.updated_at = current_time;
        master_agent.completed_trades = master_agent.completed_trades.safe_add(1)?;
        master_agent.total_pnl = master_agent.total_pnl.safe_add(#[verifier::truncate] (pnl as u64))?;
        return Ok(1);
    }
    if trade.has_hit_stop_loss(current_price) {
        let pnl = trade.calculate_pnl_safe(current_price)?;
        trade.complete(TradeResult::Failed);
        trade.updated_at = current_time;
        master_agent.completed_trades = master_agent.completed_trades.safe_add(1)?;
        master_agent.total_pnl = master_agent.total_pnl.safe_add(#[verifier::truncate] (pnl as u64))?;
        return Ok(2);
    }
    let _unrealized_pnl = trade.calculate_unrealized_pnl(current_price)?;
    trade.updated_at = current_time;
    Ok(0)
}

/// The oracle price as a whole number at exponent 0.
pub fn get_pair_price(token_price: &OraclePrice) -> (r: TYieldResult<OraclePrice>)
    requires
        scale_ok(token_price.exponent, 0),
    ensures
        r == (match whole_price(*token_price) {
            Err(e) => Err(e),
            Ok(p) => Ok(OraclePrice { price: p, exponent: 0 }),
        }),
{
    let current_price = token_price.scale_to_exponent(0)?.price;
    Ok(OraclePrice { price: current_price, exponent: 0 })
}

} // verus!
