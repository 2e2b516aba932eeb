//! Master agents: the collections agents are minted from, with their price,
//! yield rate, supply, trading mode and buy and sell taxes.
use vstd::prelude::*;
use crate::clock::unix_timestamp_now;
use crate::error::{ErrorCode, TYieldResult};
use crate::math::constants::{DAILY_SECONDS_PRECISION, PERCENTAGE_PRECISION_U64, QUOTE_PRECISION_U64};
use crate::math::int_spec::{trunc_div, trunc_rem};
use crate::math::safe_math::SafeMath;
use crate::pubkey::Pubkey;

verus! {

/// A price split into its base and its tax.
#[derive(Clone, Copy, PartialEq, Eq, Structural, Debug)]
pub struct AgentPrice {
    pub total_price: u64,
    pub tax_amount: u64,
    pub base_price: u64,
}

/// Who may trade a master agent's agents.
#[derive(Clone, Copy, PartialEq, Eq, Structural, Debug)]
pub enum TradingStatus {
    /// Only whitelisted users.
    WhiteList,
    /// Everyone.
    Public,
}

/// The byte that stands for a trading status.
pub open spec fn trading_byte(s: TradingStatus) -> u8 {
    match s {
        TradingStatus::WhiteList => 1,
        TradingStatus::Public => 2,
    }
}

/// The trading status a byte stands for; an unknown byte reads as `WhiteList`.
pub open spec fn trading_from_byte(b: u8) -> TradingStatus {
    if b == 2 {
        TradingStatus::Public
    } else {
        TradingStatus::WhiteList
    }
}

impl TradingStatus {
    /// The byte that stands for this status (1 or 2).
    pub fn bits(&self) -> (r: u8)
        ensures
            r == trading_byte(*self),
    {
        match self {
            TradingStatus::WhiteList => 1,
            TradingStatus::Public => 2,
        }
    }
}

/// Buy and sell taxes and their cap, in basis points.
#[derive(Clone, Copy, PartialEq, Eq, Structural, Debug)]
pub struct TaxConfig {
    pub buy_tax_percentage: u64,
    pub sell_tax_percentage: u64,
    pub max_tax_percentage: u64,
}

impl Default for TaxConfig {
    fn default() -> (r: TaxConfig)
        ensures
            r == (TaxConfig {
                buy_tax_percentage: 250,
                sell_tax_percentage: 250,
                max_tax_percentage: 1000,
            }),
    {
        TaxConfig { buy_tax_percentage: 250, sell_tax_percentage: 250, max_tax_percentage: 1000 }
    }
}

/// A tax configuration is usable when both taxes are within the cap and the
/// cap is at most 100%; `MathError` otherwise.
pub open spec fn tax_config_check(t: TaxConfig) -> Result<(), ErrorCode> {
    if t.buy_tax_percentage > t.max_tax_percentage || t.sell_tax_percentage > t.max_tax_percentage
        || t.max_tax_percentage > 10_000 {
        Err(ErrorCode::MathError)
    } else {
        Ok(())
    }
}

/// What a master agent is created with.
#[derive(Clone, Copy, Debug)]
pub struct MasterAgentInitParams {
    pub authority: Pubkey,
    pub mint: Pubkey,
    pub price: u64,
    pub w_yield: u64,
    pub trading_status: TradingStatus,
    pub max_supply: u64,
    pub auto_relist: bool,
    pub current_time: i64,
    pub bump: u8,
    pub tax_config: TaxConfig,
}

/// A collection of agents with a shared price and yield.
#[derive(Clone, Copy, PartialEq, Eq, Debug)]
pub struct MasterAgent {
    pub authority: Pubkey,
    pub mint: Pubkey,
    pub price: u64,
    /// Yield rate in basis points.
    pub w_yield: u64,
    pub max_supply: u64,
    pub agent_count: u64,
    pub trade_count: u64,
    /// Days that must pass between two secure price updates.
    pub price_update_allowance: u64,
    pub completed_trades: u64,
    pub total_pnl: u64,
    pub last_updated: i64,
    pub created_at: i64,
    pub last_price_update: i64,
    pub trading_status: u8,
    pub auto_relist: bool,
    pub bump: u8,
    pub tax_config: TaxConfig,
    pub _padding: [u8; 1],
}

/// Seconds that must pass between two price or yield updates.
pub const MIN_UPDATE_INTERVAL: i64 = 129_600;

/// Seconds in a day.
pub const SECONDS_PER_DAY: i64 = 86_400;

impl Default for MasterAgent {
    fn default() -> (r: MasterAgent)
        ensures
            r.authority == Pubkey::spec_default() && r.mint == Pubkey::spec_default(),
            r.trading_status == 1,
            r.price == 0 && r.w_yield == 0 && r.price_update_allowance == 0 && r.max_supply == 0,
            r.agent_count == 0 && r.last_price_update == 0 && r.trade_count == 0,
            r.completed_trades == 0 && r.total_pnl == 0 && !r.auto_relist,
            r.last_updated == 0 && r.created_at == 0 && r.bump == 0,
            r.tax_config == (TaxConfig {
                buy_tax_percentage: 250,
                sell_tax_percentage: 250,
                max_tax_percentage: 1000,
            }),
            r._padding@ == seq![0u8],
    {
        let r = MasterAgent {
            authority: Pubkey::default(),
            mint: Pubkey::default(),
            trading_status: TradingStatus::WhiteList.bits(),
            price: 0,
            w_yield: 0,
            price_update_allowance: 0,
            max_supply: 0,
            agent_count: 0,
            last_price_update: 0,
            trade_count: 0,
            completed_trades: 0,
            total_pnl: 0,
            auto_relist: false,
            last_updated: 0,
            created_at: 0,
            bump: 0,
            tax_config: TaxConfig::default(),
            _padding: [0;1],
        };
        assert(r._padding@ =~= seq![0u8]);
        r
    }
}

/// `value * bps / 10_000`, `MathError` when the product overflows.
pub open spec fn apply_bps(value: u64, bps: u64) -> Result<u64, ErrorCode> {
    if value * bps > u64::MAX {
        Err(ErrorCode::MathError)
    } else {
        Ok((value * bps / 10_000) as u64)
    }
}

fn apply_bps_exec(value: u64, bps: u64) -> (r: TYieldResult<u64>)
    ensures
        r == apply_bps(value, bps),
{
    value.safe_mul(bps)?.safe_div(PERCENTAGE_PRECISION_U64)
}

/// `x / y` when the product `x * 100` fits, as a whole percentage of 10_000.
pub open spec fn whole_percent(bps: u64) -> Result<u64, ErrorCode> {
    if bps * 100 > u64::MAX {
        Err(ErrorCode::MathError)
    } else {
        Ok((bps * 100 / 10_000) as u64)
    }
}

impl MasterAgent {
    /// The buy price with tax: (total, tax, base). A buy tax above the cap is
    /// `MathError`, and so is overflow.
    pub open spec fn buy_price(self) -> Result<(u64, u64, u64), ErrorCode> {
        if self.tax_config.buy_tax_percentage > self.tax_config.max_tax_percentage {
            Err(ErrorCode::MathError)
        } else {
            match apply_bps(self.price, self.tax_config.buy_tax_percentage) {
                Err(e) => Err(e),
                Ok(tax) => if self.price + tax > u64::MAX {
                    Err(ErrorCode::MathError)
                } else {
                    Ok(((self.price + tax) as u64, tax, self.price))
                },
            }
        }
    }

    /// The sell price net of tax: (net, tax, base). A sell tax above the cap is
    /// `MathError`, and so is underflow.
    pub open spec fn sell_price(self) -> Result<(u64, u64, u64), ErrorCode> {
        if self.tax_config.sell_tax_percentage > self.tax_config.max_tax_percentage {
            Err(ErrorCode::MathError)
        } else {
            match apply_bps(self.price, self.tax_config.sell_tax_percentage) {
                Err(e) => Err(e),
                Ok(tax) => if tax > self.price {
                    Err(ErrorCode::MathError)
                } else {
                    Ok(((self.price - tax) as u64, tax, self.price))
                },
            }
        }
    }

    /// Yield per agent: `price * w_yield / 10_000`.
    pub open spec fn yield_amount(self) -> Result<u64, ErrorCode> {
        apply_bps(self.price, self.w_yield)
    }

    /// Yield of all agents.
    pub open spec fn total_yield(self) -> Result<u64, ErrorCode> {
        match self.yield_amount() {
            Err(e) => Err(e),
            Ok(y) => if y * self.agent_count > u64::MAX {
                Err(ErrorCode::MathError)
            } else {
                Ok((y * self.agent_count) as u64)
            },
        }
    }

    /// Agents times price, zero when that overflows.
    pub open spec fn value_locked(self) -> u64 {
        if self.agent_count * self.price > u64::MAX {
            0
        } else {
            (self.agent_count * self.price) as u64
        }
    }

    /// Total yield per unit of value locked, in quote precision.
    pub open spec fn yield_efficiency(self) -> Result<u64, ErrorCode> {
        if self.value_locked() == 0 {
            Ok(0)
        } else {
            match self.total_yield() {
                Err(e) => Err(e),
                Ok(y) => if y * QUOTE_PRECISION_U64 > u64::MAX {
                    Err(ErrorCode::MathError)
                } else {
                    Ok((y * QUOTE_PRECISION_U64 / (self.value_locked() as int)) as u64)
                },
            }
        }
    }

    /// Whole days since creation, rounded toward zero.
    pub open spec fn days_since_created(self, now: i64) -> int {
        trunc_div(now - self.created_at, SECONDS_PER_DAY as int)
    }

    /// Trades per day since creation (all trades in the first day); a negative
    /// day count reads as a huge divisor.
    pub open spec fn activity_score(self, now: i64) -> u64 {
        let days = self.days_since_created(now);
        if days == 0 {
            self.trade_count
        } else {
            (self.trade_count / ((days as i64) as u64)) as u64
        }
    }

    /// The agent count in basis points of the supply, zero without a supply
    /// (or when the product overflows).
    pub open spec fn utilization(self) -> u64 {
        if self.max_supply == 0 {
            0
        } else if self.agent_count * 10_000 > u64::MAX {
            0
        } else {
            (self.agent_count * 10_000 / (self.max_supply as int)) as u64
        }
    }

    /// The checks of `validate`.
    pub open spec fn validity(self) -> Result<(), ErrorCode> {
        if self.authority == Pubkey::spec_default() {
            Err(ErrorCode::InvalidAuthority)
        } else if self.mint == Pubkey::spec_default() {
            Err(ErrorCode::InvalidAccount)
        } else if self.price == 0 {
            Err(ErrorCode::InvalidEntryPrice)
        } else if self.w_yield > 10_000 || self.max_supply == 0 || self.agent_count
            > self.max_supply {
            Err(ErrorCode::MathError)
        } else if self.created_at <= 0 || self.last_updated < self.created_at {
            Err(ErrorCode::InvalidAccount)
        } else {
            Ok(())
        }
    }

    /// The checks of `detect_suspicious_activity`.
    pub open spec fn activity_check(self, now: i64) -> Result<(), ErrorCode> {
        let days = self.days_since_created(now);
        if days > 0 && self.price / ((days as i64) as u64) > self.price / 10 {
            Err(ErrorCode::PriceDeviationTooHigh)
        } else if self.trade_count > 0 && self.agent_count > 0 && self.trade_count
            / self.agent_count > 1000 {
            Err(ErrorCode::CannotPerformAction)
        } else if now < self.created_at || now < self.last_updated {
            Err(ErrorCode::InvalidAccount)
        } else {
            Ok(())
        }
    }

    /// Creates the master agent from `params`: no agents or trades yet, created
    /// and updated at `params.current_time`. The other fields are kept.
    pub fn initialize(&mut self, params: MasterAgentInitParams) -> (r: TYieldResult<()>)
        ensures
            r == Ok::<(), ErrorCode>(()),
            *final(self) == (MasterAgent {
                authority: params.authority,
                mint: params.mint,
                price: params.price,
                w_yield: params.w_yield,
                trading_status: trading_byte(params.trading_status),
                max_supply: params.max_supply,
                agent_count: 0,
                trade_count: 0,
                auto_relist: params.auto_relist,
                last_updated: params.current_time,
                created_at: params.current_time,
                bump: params.bump,
                tax_config: params.tax_config,
                ..*old(self)
            }),
    {
        self.authority = params.authority;
        self.mint = params.mint;
        self.price = params.price;
        self.w_yield = params.w_yield;
        self.trading_status = params.trading_status.bits();
        self.max_supply = params.max_supply;
        self.agent_count = 0;
        self.trade_count = 0;
        self.auto_relist = params.auto_relist;
        self.last_updated = params.current_time;
        self.created_at = params.current_time;
        self.bump = params.bump;
        self.tax_config = params.tax_config;
        Ok(())
    }

    /// What a price update answers (see `update_price`).
    pub open spec fn price_update_check(self, new_price: u64, current_time: i64, authority: Pubkey) -> Result<(), ErrorCode> {
        if authority != self.authority {
            Err(ErrorCode::InvalidAuthority)
        } else if new_price == 0 {
            Err(ErrorCode::InvalidEntryPrice)
        } else if new_price <= self.price {
            Err(ErrorCode::MathError)
        } else if !(i64::MIN <= current_time - self.last_updated <= i64::MAX) {
            Err(ErrorCode::MathError)
        } else if current_time - self.last_updated < MIN_UPDATE_INTERVAL {
            Err(ErrorCode::PriceUpdateTooSoon)
        } else if self.price * 11000 > u64::MAX {
            Err(ErrorCode::MathError)
        } else if new_price > self.price * 11000 / 10000 {
            Err(ErrorCode::PriceUpdateTooHigh)
        } else {
            Ok::<(), ErrorCode>(())
        }
    }

    /// What a yield update answers (see `update_yield`).
    pub open spec fn yield_update_check(self, new_yield: u64, current_time: i64, authority: Pubkey) -> Result<(), ErrorCode> {
        if authority != self.authority {
            Err(ErrorCode::InvalidAuthority)
        } else if new_yield == 0 || new_yield > 10_000 {
            Err(ErrorCode::MathError)
        } else if !(i64::MIN <= current_time - self.last_updated <= i64::MAX) {
            Err(ErrorCode::MathError)
        } else if current_time - self.last_updated < MIN_UPDATE_INTERVAL {
            Err(ErrorCode::PriceUpdateTooSoon)
        } else if self.w_yield * 10500 > u64::MAX {
            Err(ErrorCode::MathError)
        } else if new_yield > self.w_yield * 10500 / 10000 {
            Err(ErrorCode::PriceUpdateTooHigh)
        } else {
            Ok::<(), ErrorCode>(())
        }
    }

    /// Raises the price. Only the authority may (`InvalidAuthority`); the price
    /// must be non-zero (`InvalidEntryPrice`) and higher than the current one
    /// (`MathError`), `MIN_UPDATE_INTERVAL` seconds must have passed since the
    /// last update (`PriceUpdateTooSoon`), and the rise is at most 10%
    /// (`PriceUpdateTooHigh`).
    pub fn update_price(&mut self, new_price: u64, current_time: i64, authority: &Pubkey) -> (r:
        TYieldResult<()>)
        ensures
            r == old(self).price_update_check(new_price, current_time, *authority),
            r is Ok ==> *final(self) == (MasterAgent {
                price: new_price,
                last_updated: current_time,
                last_price_update: current_time,
                ..*old(self)
            }),
            r is Err ==> *final(self) == *old(self),
    {
        if *authority != self.authority {
            return Err(ErrorCode::InvalidAuthority);
        }
        if new_price == 0 {
            return Err(ErrorCode::InvalidEntryPrice);
        }
        if new_price <= self.price {
            return Err(ErrorCode::MathError);
        }
        let time_since_last_update = current_time.safe_sub(self.last_updated)?;
        if time_since_last_update < MIN_UPDATE_INTERVAL {
            return Err(ErrorCode::PriceUpdateTooSoon);
        }
        let max_allowed_price = self.price.safe_mul(11000)?.safe_div(10000)?;
        if new_price > max_allowed_price {
            return Err(ErrorCode::PriceUpdateTooHigh);
        }
        self.price = new_price;
        self.last_updated = current_time;
        self.last_price_update = current_time;
        Ok(())
    }

    /// One when the last price update falls in the day of `current_time`.
    fn _get_price_updates_today(&self, current_time: i64) -> (r: u64)
        ensures
            r == (if self.last_price_update >= current_time - trunc_rem(
                current_time as int,
                SECONDS_PER_DAY as int,
            ) {
                1u64
            } else {
                0u64
            }),
    {
        let day_start = current_time - (current_time % SECONDS_PER_DAY);
        if self.last_price_update >= day_start {
            1
        } else {
            0
        }
    }

    /// Changes the yield rate. Only the authority may (`InvalidAuthority`); the
    /// rate must be non-zero and at most 100% (`MathError`),
    /// `MIN_UPDATE_INTERVAL` seconds must have passed (`PriceUpdateTooSoon`),
    /// and the rise is at most 5% of the current rate (`PriceUpdateTooHigh`).
    pub fn update_yield(&mut self, new_yield: u64, current_time: i64, authority: &Pubkey) -> (r:
        TYieldResult<()>)
        ensures
            r == old(self).yield_update_check(new_yield, current_time, *authority),
            r is Ok ==> *final(self) == (MasterAgent {
                w_yield: new_yield,
                last_updated: current_time,
                ..*old(self)
            }),
            r is Err ==> *final(self) == *old(self),
    {
        if *authority != self.authority {
            return Err(ErrorCode::InvalidAuthority);
        }
        if new_yield == 0 {
            return Err(ErrorCode::MathError);
        }
        if new_yield > PERCENTAGE_PRECISION_U64 {
            return Err(ErrorCode::MathError);
        }
        let max_allowed_yield: u64 = 50000;
        if new_yield > max_allowed_yield {
            return Err(ErrorCode::MathError);
        }
        let time_since_last_update = current_time.safe_sub(self.last_updated)?;
        if time_since_last_update < MIN_UPDATE_INTERVAL {
            return Err(ErrorCode::PriceUpdateTooSoon);
        }
        let max_allowed_yield_increase = self.w_yield.safe_mul(10500)?.safe_div(10000)?;
        if new_yield > max_allowed_yield_increase {
            return Err(ErrorCode::PriceUpdateTooHigh);
        }
        self.w_yield = new_yield;
        self.last_updated = current_time;
        Ok(())
    }

    /// Changes the supply; below the agents already minted is `MathError`.
    pub fn update_max_supply(&mut self, new_max_supply: u64, current_time: i64) -> (r: TYieldResult<
        (),
    >)
        ensures
            new_max_supply < old(self).agent_count ==> r == Err::<(), ErrorCode>(
                ErrorCode::MathError,
            ) && *final(self) == *old(self),
            new_max_supply >= old(self).agent_count ==> r == Ok::<(), ErrorCode>(())
                && *final(self) == (MasterAgent {
                max_supply: new_max_supply,
                last_updated: current_time,
                ..*old(self)
            }),
    {
        if new_max_supply < self.agent_count {
            return Err(ErrorCode::MathError);
        }
        self.max_supply = new_max_supply;
        self.last_updated = current_time;
        Ok(())
    }

    /// Counts one more agent; a full supply is `InsufficientFunds`.
    pub fn add_agent(&mut self, current_time: i64) -> (r: TYieldResult<()>)
        ensures
            old(self).agent_count >= old(self).max_supply ==> r == Err::<(), ErrorCode>(
                ErrorCode::InsufficientFunds,
            ) && *final(self) == *old(self),
            old(self).agent_count < old(self).max_supply ==> r == Ok::<(), ErrorCode>(())
                && *final(self) == (MasterAgent {
                agent_count: (old(self).agent_count + 1) as u64,
                last_updated: current_time,
                ..*old(self)
            }),
    {
        if self.agent_count >= self.max_supply {
            return Err(ErrorCode::InsufficientFunds);
        }
        self.agent_count = self.agent_count.safe_add(1)?;
        self.last_updated = current_time;
        Ok(())
    }

    /// Counts one agent fewer; none left is `InsufficientFunds`.
    pub fn remove_agent(&mut self, current_time: i64) -> (r: TYieldResult<()>)
        ensures
            old(self).agent_count == 0 ==> r == Err::<(), ErrorCode>(ErrorCode::InsufficientFunds)
                && *final(self) == *old(self),
            old(self).agent_count > 0 ==> r == Ok::<(), ErrorCode>(()) && *final(self) == (
            MasterAgent {
                agent_count: (old(self).agent_count - 1) as u64,
                last_updated: current_time,
                ..*old(self)
            }),
    {
        if self.agent_count == 0 {
            return Err(ErrorCode::InsufficientFunds);
        }
        self.agent_count = self.agent_count.safe_sub(1)?;
        self.last_updated = current_time;
        Ok(())
    }

    /// Counts one more trade; overflow is `MathError`.
    pub fn increment_trade_count(&mut self, current_time: i64) -> (r: TYieldResult<()>)
        ensures
            old(self).trade_count == u64::MAX ==> r == Err::<(), ErrorCode>(ErrorCode::MathError)
                && *final(self) == *old(self),
            old(self).trade_count < u64::MAX ==> r == Ok::<(), ErrorCode>(()) && *final(self) == (
            MasterAgent {
                trade_count: (old(self).trade_count + 1) as u64,
                last_updated: current_time,
                ..*old(self)
            }),
    {
        self.trade_count = self.trade_count.safe_add(1)?;
        self.last_updated = current_time;
        Ok(())
    }

    /// Flips automatic relisting.
    pub fn toggle_auto_relist(&mut self, current_time: i64)
        ensures
            *final(self) == (MasterAgent {
                auto_relist: !old(self).auto_relist,
                last_updated: current_time,
                ..*old(self)
            }),
    {
        self.auto_relist = !self.auto_relist;
        self.last_updated = current_time;
    }

    /// Sets automatic relisting.
    pub fn set_auto_relist(&mut self, auto_relist: bool, current_time: i64)
        ensures
            *final(self) == (MasterAgent { auto_relist, last_updated: current_time, ..*old(self) }),
    {
        self.auto_relist = auto_relist;
        self.last_updated = current_time;
    }

    /// The trading status; an unknown byte reads as `WhiteList`.
    pub fn get_trading_status(&self) -> (r: TradingStatus)
        ensures
            r == trading_from_byte(self.trading_status),
    {
        match self.trading_status {
            2 => TradingStatus::Public,
            _ => TradingStatus::WhiteList,
        }
    }

    /// Sets the trading status; only the authority may (`InvalidAuthority`).
    pub fn set_trading_status(&mut self, status: TradingStatus, authority: &Pubkey, current_time: i64) -> (r:
        TYieldResult<()>)
        ensures
            *authority != old(self).authority ==> r == Err::<(), ErrorCode>(
                ErrorCode::InvalidAuthority,
            ) && *final(self) == *old(self),
            *authority == old(self).authority ==> r == Ok::<(), ErrorCode>(()) && *final(self) == (
            MasterAgent {
                trading_status: trading_byte(status),
                last_updated: current_time,
                ..*old(self)
            }),
    {
        if *authority != self.authority {
            return Err(ErrorCode::InvalidAuthority);
        }
        self.trading_status = status.bits();
        self.last_updated = current_time;
        Ok(())
    }

    /// Whether only whitelisted users may trade.
    pub fn is_whitelist_mode(&self) -> (r: bool)
        ensures
            r == (trading_from_byte(self.trading_status) == TradingStatus::WhiteList),
    {
        self.get_trading_status() == TradingStatus::WhiteList
    }

    /// Whether everyone may trade.
    pub fn is_public_mode(&self) -> (r: bool)
        ensures
            r == (trading_from_byte(self.trading_status) == TradingStatus::Public),
    {
        self.get_trading_status() == TradingStatus::Public
    }

    /// Switches between whitelist and public trading.
    pub fn toggle_trading_status(&mut self, current_time: i64)
        ensures
            *final(self) == (MasterAgent {
                trading_status: if trading_from_byte(old(self).trading_status)
                    == TradingStatus::WhiteList {
                    2u8
                } else {
                    1u8
                },
                last_updated: current_time,
                ..*old(self)
            }),
    {
        let new_status = if self.is_whitelist_mode() {
            TradingStatus::Public
        } else {
            TradingStatus::WhiteList
        };
        let authority = self.authority;
        let _ = self.set_trading_status(new_status, &authority, current_time);
    }

    /// Yield per agent (see `yield_amount`).
    pub fn calculate_yield_amount(&self) -> (r: TYieldResult<u64>)
        ensures
            r == self.yield_amount(),
    {
        let yield_amount = self.price.safe_mul(self.w_yield)?;
        let yield_with_precision = yield_amount.safe_div(PERCENTAGE_PRECISION_U64)?;
        Ok(yield_with_precision)
    }

    /// The yield rate as a whole percentage, zero when the computation overflows.
    pub fn get_yield_rate_percentage(&self) -> (r: u64)
        ensures
            r == (match whole_percent(self.w_yield) {
                Ok(v) => v,
                Err(_) => 0,
            }),
    {
        match self.w_yield.safe_mul(100) {
            Ok(v) => match v.safe_div(PERCENTAGE_PRECISION_U64) {
                Ok(q) => q,
                Err(_) => 0,
            },
            Err(_) => 0,
        }
    }

    /// Whether every agent of the supply is minted.
    pub fn is_supply_full(&self) -> (r: bool)
        ensures
            r == (self.agent_count >= self.max_supply),
    {
        self.agent_count >= self.max_supply
    }

    /// Agents that can still be minted.
    pub fn get_remaining_supply(&self) -> (r: u64)
        ensures
            r == (if self.agent_count >= self.max_supply {
                0
            } else {
                self.max_supply - self.agent_count
            }),
    {
        if self.agent_count >= self.max_supply {
            0
        } else {
            match self.max_supply.safe_sub(self.agent_count) {
                Ok(v) => v,
                Err(_) => 0,
            }
        }
    }

    /// The agent count in basis points of the supply (see `utilization`).
    pub fn get_supply_utilization_percentage(&self) -> (r: u64)
        ensures
            r == self.utilization(),
    {
        if self.max_supply == 0 {
            return 0;
        }
        let scaled = match self.agent_count.safe_mul(PERCENTAGE_PRECISION_U64) {
            Ok(v) => v,
            Err(_) => {
                return 0;
            },
        };
        match scaled.safe_div(self.max_supply) {
            Ok(v) => v,
            Err(_) => 0,
        }
    }

    /// Trades per agent, zero without agents.
    pub fn get_average_trades_per_agent(&self) -> (r: u64)
        ensures
            r == (if self.agent_count == 0 {
                0
            } else {
                self.trade_count / self.agent_count
            }),
    {
        if self.agent_count == 0 {
            return 0;
        }
        match self.trade_count.safe_div(self.agent_count) {
            Ok(v) => v,
            Err(_) => 0,
        }
    }

    /// Whole days since creation, rounded toward zero.
    pub fn get_days_since_created(&self, current_time: i64) -> (r: i64)
        requires
            i64::MIN <= current_time - self.created_at <= i64::MAX,
        ensures
            r == self.days_since_created(current_time),
    {
        (current_time - self.created_at) / SECONDS_PER_DAY
    }

    /// Whole days since the last update, rounded toward zero.
    pub fn get_days_since_updated(&self, current_time: i64) -> (r: i64)
        requires
            i64::MIN <= current_time - self.last_updated <= i64::MAX,
        ensures
            r == trunc_div(current_time - self.last_updated, SECONDS_PER_DAY as int),
    {
        (current_time - self.last_updated) / SECONDS_PER_DAY
    }

    /// Whether any agent is minted.
    pub fn is_active(&self) -> (r: bool)
        ensures
            r == (self.agent_count > 0),
    {
        self.agent_count > 0
    }

    /// Whether more than `idle_threshold` seconds passed since the last update.
    pub fn is_idle(&self, current_time: i64, idle_threshold: i64) -> (r: bool)
        requires
            i64::MIN <= current_time - self.last_updated <= i64::MAX,
        ensures
            r == (current_time - self.last_updated > idle_threshold),
    {
        let time_since_last_activity = current_time - self.last_updated;
        time_since_last_activity > idle_threshold
    }

    /// Checks the account (see `validity`).
    pub fn validate(&self) -> (r: TYieldResult<()>)
        ensures
            r == self.validity(),
    {
        if self.authority.is_default() {
            return Err(ErrorCode::InvalidAuthority);
        }
        if self.mint.is_default() {
            return Err(ErrorCode::InvalidAccount);
        }
        if self.price == 0 {
            return Err(ErrorCode::InvalidEntryPrice);
        }
        if self.w_yield > PERCENTAGE_PRECISION_U64 {
            return Err(ErrorCode::MathError);
        }
        if self.max_supply == 0 {
            return Err(ErrorCode::MathError);
        }
        if self.agent_count > self.max_supply {
            return Err(ErrorCode::MathError);
        }
        if self.created_at <= 0 {
            return Err(ErrorCode::InvalidAccount);
        }
        if self.last_updated < self.created_at {
            return Err(ErrorCode::InvalidAccount);
        }
        Ok(())
    }

    /// Whether agents are minted and the supply is not full.
    pub fn can_perform_actions(&self) -> (r: bool)
        ensures
            r == (self.agent_count > 0 && self.agent_count < self.max_supply),
    {
        self.is_active() && !self.is_supply_full()
    }

    /// Whether a user may access the master agent: anyone in public mode, only
    /// whitelisted users in whitelist mode.
    pub fn can_be_accessed_by_user(&self, user_is_whitelisted: bool) -> (r: bool)
        ensures
            r == (match trading_from_byte(self.trading_status) {
                TradingStatus::WhiteList => user_is_whitelisted,
                TradingStatus::Public => true,
            }),
    {
        match self.get_trading_status() {
            TradingStatus::WhiteList => user_is_whitelisted,
            TradingStatus::Public => true,
        }
    }

    /// Whether agents are minted and the supply is not full.
    pub fn is_trading_allowed(&self) -> (r: bool)
        ensures
            r == (self.agent_count > 0 && self.agent_count < self.max_supply),
    {
        self.is_active() && !self.is_supply_full()
    }

    /// Agents times price (see `value_locked`).
    pub fn get_total_value_locked(&self) -> (r: u64)
        ensures
            r == self.value_locked(),
    {
        match self.agent_count.safe_mul(self.price) {
            Ok(v) => v,
            Err(_) => 0,
        }
    }

    /// Yield of all agents (see `total_yield`).
    pub fn get_total_yield_generated(&self) -> (r: TYieldResult<u64>)
        ensures
            r == self.total_yield(),
    {
        let yield_per_agent = self.calculate_yield_amount()?;
        let total_yield = yield_per_agent.safe_mul(self.agent_count)?;
        Ok(total_yield)
    }

    /// Yield per value locked (see `yield_efficiency`).
    pub fn get_yield_efficiency(&self) -> (r: TYieldResult<u64>)
        ensures
            r == self.yield_efficiency(),
    {
        let total_value = self.get_total_value_locked();
        if total_value == 0 {
            return Ok(0);
        }
        let total_yield = self.get_total_yield_generated()?;
        let efficiency = (total_yield.safe_mul(QUOTE_PRECISION_U64)?).safe_div(total_value)?;
        Ok(efficiency)
    }

    /// Trades per day since creation (see `activity_score`).
    pub fn get_trading_activity_score(&self, current_time: i64) -> (r: u64)
        requires
            i64::MIN <= current_time - self.created_at <= i64::MAX,
        ensures
            r == self.activity_score(current_time),
    {
        let days_since_created = self.get_days_since_created(current_time);
        if days_since_created == 0 {
            return self.trade_count;
        }
        let days = #[verifier::truncate] (days_since_created as u64);
        assert(days_since_created != 0 ==> days_since_created as u64 != 0) by (bit_vector);
        match self.trade_count.safe_div(days) {
            Ok(v) => v,
            Err(_) => 0,
        }
    }

    /// (value locked, total yield, yield efficiency, activity score).
    pub fn get_performance_metrics(&self, current_time: i64) -> (r: TYieldResult<(u64, u64, u64, u64)>)
        requires
            i64::MIN <= current_time - self.created_at <= i64::MAX,
        ensures
            r == (match self.total_yield() {
                Err(e) => Err(e),
                Ok(y) => match self.yield_efficiency() {
                    Err(e) => Err(e),
                    Ok(eff) => Ok((self.value_locked(), y, eff, self.activity_score(current_time))),
                },
            }),
    {
        let total_value = self.get_total_value_locked();
        let total_yield = self.get_total_yield_generated()?;
        let yield_efficiency = self.get_yield_efficiency()?;
        let activity_score = self.get_trading_activity_score(current_time);
        Ok((total_value, total_yield, yield_efficiency, activity_score))
    }

    /// Clears agents and trades, returns to whitelist mode, and sets the last
    /// update back to creation.
    pub fn reset(&mut self)
        ensures
            *final(self) == (MasterAgent {
                agent_count: 0,
                trade_count: 0,
                trading_status: 1,
                last_updated: old(self).created_at,
                ..*old(self)
            }),
    {
        self.agent_count = 0;
        self.trade_count = 0;
        self.trading_status = TradingStatus::WhiteList.bits();
        self.last_updated = self.created_at;
    }

    /// (agents, trades, price, yield rate, auto relist, trading status).
    pub fn get_summary(&self) -> (r: (u64, u64, u64, u64, bool, TradingStatus))
        ensures
            r == (
                self.agent_count,
                self.trade_count,
                self.price,
                self.w_yield,
                self.auto_relist,
                trading_from_byte(self.trading_status),
            ),
    {
        (
            self.agent_count,
            self.trade_count,
            self.price,
            self.w_yield,
            self.auto_relist,
            self.get_trading_status(),
        )
    }

    /// Whether the master agent needs attention: no update for more than seven
    /// days, supply more than 90% used, or no agents.
    pub fn needs_attention(&self, current_time: i64) -> (r: bool)
        requires
            i64::MIN <= current_time - self.last_updated <= i64::MAX,
        ensures
            r == (trunc_div(current_time - self.last_updated, SECONDS_PER_DAY as int) > 7
                || self.utilization() > 9000 || self.agent_count == 0),
    {
        let days_since_update = self.get_days_since_updated(current_time);
        let supply_utilization = self.get_supply_utilization_percentage();
        days_since_update > 7 || supply_utilization > 9000 || self.agent_count == 0
    }

    /// "Full", "Empty" or "Active".
    pub fn get_status_string(&self) -> (r: String)
        ensures
            r@ == (if self.agent_count >= self.max_supply {
                "Full"@
            } else if self.agent_count == 0 {
                "Empty"@
            } else {
                "Active"@
            }),
    {
        if self.is_supply_full() {
            String::from_str("Full")
        } else if self.agent_count == 0 {
            String::from_str("Empty")
        } else {
            String::from_str("Active")
        }
    }

    /// "Enabled" or "Disabled".
    pub fn get_auto_relist_status(&self) -> (r: String)
        ensures
            r@ == (if self.auto_relist {
                "Enabled"@
            } else {
                "Disabled"@
            }),
    {
        if self.auto_relist {
            String::from_str("Enabled")
        } else {
            String::from_str("Disabled")
        }
    }

    /// "Whitelist" or "Public".
    pub fn get_trading_status_string(&self) -> (r: String)
        ensures
            r@ == (match trading_from_byte(self.trading_status) {
                TradingStatus::WhiteList => "Whitelist"@,
                TradingStatus::Public => "Public"@,
            }),
    {
        match self.get_trading_status() {
            TradingStatus::WhiteList => String::from_str("Whitelist"),
            TradingStatus::Public => String::from_str("Public"),
        }
    }

    /// The buy price with tax (see `buy_price`).
    pub fn calculate_buy_price_with_tax(&self) -> (r: TYieldResult<(u64, u64, u64)>)
        ensures
            r == self.buy_price(),
    {
        if self.tax_config.buy_tax_percentage > self.tax_config.max_tax_percentage {
            return Err(ErrorCode::MathError);
        }
        let base_price = self.price;
        let tax_amount = apply_bps_exec(base_price, self.tax_config.buy_tax_percentage)?;
        let total_price = base_price.safe_add(tax_amount)?;
        Ok((total_price, tax_amount, base_price))
    }

    /// The sell price net of tax (see `sell_price`).
    pub fn calculate_sell_price_with_tax(&self) -> (r: TYieldResult<(u64, u64, u64)>)
        ensures
            r == self.sell_price(),
    {
        if self.tax_config.sell_tax_percentage > self.tax_config.max_tax_percentage {
            return Err(ErrorCode::MathError);
        }
        let base_price = self.price;
        let tax_amount = apply_bps_exec(base_price, self.tax_config.sell_tax_percentage)?;
        let net_price = base_price.safe_sub(tax_amount)?;
        Ok((net_price, tax_amount, base_price))
    }

    /// What `usdc_amount` buys: (whole tokens, tax paid, base amount). Zero is
    /// `InvalidEntryPrice`; a zero total price or overflow is `MathError`.
    pub fn calculate_buy_for_usdc_amount(&self, usdc_amount: u64) -> (r: TYieldResult<(u64, u64, u64)>)
        ensures
            r == (if usdc_amount == 0 {
                Err(ErrorCode::InvalidEntryPrice)
            } else {
                match self.buy_price() {
                    Err(e) => Err(e),
                    Ok((total, tax, base)) => if total == 0 {
                        Err(ErrorCode::MathError)
                    } else {
                        let n = usdc_amount / total;
                        if n * total > u64::MAX || n * tax > u64::MAX || n * base > u64::MAX {
                            Err(ErrorCode::MathError)
                        } else {
                            Ok(((n as u64), (n * tax) as u64, (n * base) as u64))
                        }
                    },
                }
            }),
    {
        if usdc_amount == 0 {
            return Err(ErrorCode::InvalidEntryPrice);
        }
        let (total_price_per_token, tax_per_token, base_price_per_token) =
            self.calculate_buy_price_with_tax()?;
        let tokens_received = usdc_amount.safe_div(total_price_per_token)?;
        let _total_cost = tokens_received.safe_mul(total_price_per_token)?;
        let tax_paid = tokens_received.safe_mul(tax_per_token)?;
        let base_amount = tokens_received.safe_mul(base_price_per_token)?;
        Ok((tokens_received, tax_paid, base_amount))
    }

    /// What selling `token_amount` tokens gives: (USDC received, tax paid, base
    /// amount). Zero is `InvalidEntryPrice`; overflow is `MathError`.
    pub fn calculate_sell_for_token_amount(&self, token_amount: u64) -> (r: TYieldResult<(u64, u64, u64)>)
        ensures
            r == (if token_amount == 0 {
                Err(ErrorCode::InvalidEntryPrice)
            } else {
                match self.sell_price() {
                    Err(e) => Err(e),
                    Ok((net, tax, base)) => if token_amount * net > u64::MAX || token_amount * tax
                        > u64::MAX || token_amount * base > u64::MAX {
                        Err(ErrorCode::MathError)
                    } else {
                        Ok(
                            (
                                (token_amount * net) as u64,
                                (token_amount * tax) as u64,
                                (token_amount * base) as u64,
                            ),
                        )
                    },
                }
            }),
    {
        if token_amount == 0 {
            return Err(ErrorCode::InvalidEntryPrice);
        }
        let (net_price_per_token, tax_per_token, base_price_per_token) =
            self.calculate_sell_price_with_tax()?;
        let usdc_received = token_amount.safe_mul(net_price_per_token)?;
        let tax_paid = token_amount.safe_mul(tax_per_token)?;
        let base_amount = token_amount.safe_mul(base_price_per_token)?;
        Ok((usdc_received, tax_paid, base_amount))
    }

    /// The buy tax as a whole percentage, once the buy price computes.
    pub fn get_buy_tax_rate(&self) -> (r: TYieldResult<u64>)
        ensures
            r == (match self.buy_price() {
                Err(e) => Err(e),
                Ok(_) => whole_percent(self.tax_config.buy_tax_percentage),
            }),
    {
        if self.tax_config.buy_tax_percentage > self.tax_config.max_tax_percentage {
            return Err(ErrorCode::MathError);
        }
        let (_total_price, _, _) = self.calculate_buy_price_with_tax()?;
        let tax_rate = (self.tax_config.buy_tax_percentage.safe_mul(100)?).safe_div(
            PERCENTAGE_PRECISION_U64,
        )?;
        Ok(tax_rate)
    }

    /// The sell tax as a whole percentage, once the sell price computes.
    pub fn get_sell_tax_rate(&self) -> (r: TYieldResult<u64>)
        ensures
            r == (match self.sell_price() {
                Err(e) => Err(e),
                Ok(_) => whole_percent(self.tax_config.sell_tax_percentage),
            }),
    {
        if self.tax_config.sell_tax_percentage > self.tax_config.max_tax_percentage {
            return Err(ErrorCode::MathError);
        }
        let (_, _, _base_price) = self.calculate_sell_price_with_tax()?;
        let tax_rate = (self.tax_config.sell_tax_percentage.safe_mul(100)?).safe_div(
            PERCENTAGE_PRECISION_U64,
        )?;
        Ok(tax_rate)
    }

    /// (buy price with tax, that price plus `slippage_bps`).
    pub fn calculate_buy_price_with_slippage(&self, slippage_bps: u64) -> (r: TYieldResult<(u64, u64)>)
        ensures
            r == (match self.buy_price() {
                Err(e) => Err(e),
                Ok((total, _, _)) => match apply_bps(total, slippage_bps) {
                    Err(e) => Err(e),
                    Ok(s) => if total + s > u64::MAX {
                        Err(ErrorCode::MathError)
                    } else {
                        Ok((total, (total + s) as u64))
                    },
                },
            }),
    {
        let (base_total_price, _, _) = self.calculate_buy_price_with_tax()?;
        let slippage_amount = apply_bps_exec(base_total_price, slippage_bps)?;
        let max_price = base_total_price.safe_add(slippage_amount)?;
        Ok((base_total_price, max_price))
    }

    /// (sell price net of tax, that price less `slippage_bps`).
    pub fn calculate_sell_price_with_slippage(&self, slippage_bps: u64) -> (r: TYieldResult<(u64, u64)>)
        ensures
            r == (match self.sell_price() {
                Err(e) => Err(e),
                Ok((net, _, _)) => match apply_bps(net, slippage_bps) {
                    Err(e) => Err(e),
                    Ok(s) => if s > net {
                        Err(ErrorCode::MathError)
                    } else {
                        Ok((net, (net - s) as u64))
                    },
                },
            }),
    {
        let (base_net_price, _, _) = self.calculate_sell_price_with_tax()?;
        let slippage_amount = apply_bps_exec(base_net_price, slippage_bps)?;
        let min_price = base_net_price.safe_sub(slippage_amount)?;
        Ok((base_net_price, min_price))
    }

    /// Checks the tax configuration (see `tax_config_check`).
    pub fn validate_tax_config(&self) -> (r: TYieldResult<()>)
        ensures
            r == tax_config_check(self.tax_config),
    {
        if self.tax_config.buy_tax_percentage > self.tax_config.max_tax_percentage {
            return Err(ErrorCode::MathError);
        }
        if self.tax_config.sell_tax_percentage > self.tax_config.max_tax_percentage {
            return Err(ErrorCode::MathError);
        }
        if self.tax_config.max_tax_percentage > PERCENTAGE_PRECISION_U64 {
            return Err(ErrorCode::MathError);
        }
        Ok(())
    }

    /// (buy tax, sell tax, cap) as whole percentages, once the configuration
    /// checks out.
    pub fn get_tax_summary(&self) -> (r: TYieldResult<(u64, u64, u64)>)
        ensures
            r == (if tax_config_check(self.tax_config) is Err {
                Err(ErrorCode::MathError)
            } else {
                match self.buy_price() {
                    Err(e) => Err(e),
                    Ok(_) => match self.sell_price() {
                        Err(e) => Err(e),
                        Ok(_) => Ok(
                            (
                                (self.tax_config.buy_tax_percentage * 100 / 10_000) as u64,
                                (self.tax_config.sell_tax_percentage * 100 / 10_000) as u64,
                                (self.tax_config.max_tax_percentage * 100 / 10_000) as u64,
                            ),
                        ),
                    },
                }
            }),
    {
        self.validate_tax_config()?;
        let buy_tax_rate = self.get_buy_tax_rate()?;
        let sell_tax_rate = self.get_sell_tax_rate()?;
        let max_tax_rate = (self.tax_config.max_tax_percentage.safe_mul(100)?).safe_div(
            PERCENTAGE_PRECISION_U64,
        )?;
        Ok((buy_tax_rate, sell_tax_rate, max_tax_rate))
    }

    /// The cluster clock's Unix time; `ProgramError` where the clock cannot be
    /// read.
    pub fn get_secure_time() -> (r: TYieldResult<i64>)
        ensures
            r is Err ==> r == Err::<i64, ErrorCode>(ErrorCode::ProgramError),
    {
        match unix_timestamp_now() {
            Some(t) => Ok(t),
            None => Err(ErrorCode::ProgramError),
        }
    }

    /// What `can_update_price_secure_with_time` answers.
    pub open spec fn price_allowance_check(
        self,
        new_price: u64,
        max_agent_price_new: u64,
        authority: Pubkey,
        current_time: i64,
    ) -> Result<(), ErrorCode> {
        if authority != self.authority {
            Err(ErrorCode::InvalidAuthority)
        } else if !(i64::MIN <= current_time - self.last_price_update <= i64::MAX) {
            Err(ErrorCode::MathError)
        } else if current_time - self.last_price_update < 0 {
            Err(ErrorCode::PriceUpdateTooSoon)
        } else if self.price_update_allowance * DAILY_SECONDS_PRECISION > u64::MAX {
            Err(ErrorCode::MathError)
        } else if current_time - self.last_price_update < self.price_update_allowance
            * DAILY_SECONDS_PRECISION {
            Err(ErrorCode::PriceUpdateTooSoon)
        } else {
            match apply_bps(self.price, max_agent_price_new) {
                Err(e) => Err(e),
                Ok(max) => if new_price > max {
                    Err(ErrorCode::PriceUpdateTooHigh)
                } else {
                    Ok(())
                },
            }
        }
    }

    /// Whether `authority` may set the price to `new_price` at `current_time`:
    /// only the authority (`InvalidAuthority`), `price_update_allowance` days
    /// after the last price update (`PriceUpdateTooSoon`), and at most
    /// `max_agent_price_new` basis points of the current price
    /// (`PriceUpdateTooHigh`). Overflow is `MathError`.
    pub fn can_update_price_secure_with_time(
        &self,
        new_price: u64,
        max_agent_price_new: u64,
        authority: &Pubkey,
        current_time: i64,
    ) -> (r: TYieldResult<()>)
        ensures
            r == self.price_allowance_check(new_price, max_agent_price_new, *authority, current_time),
    {
        if *authority != self.authority {
            return Err(ErrorCode::InvalidAuthority);
        }
        let seconds_since_last_update = current_time.safe_sub(self.last_price_update)?;
        if seconds_since_last_update < 0 {
            return Err(ErrorCode::PriceUpdateTooSoon);
        }
        let seconds_since_last_update = seconds_since_last_update as u64;
        let min_seconds = self.price_update_allowance.safe_mul(DAILY_SECONDS_PRECISION)?;
        if seconds_since_last_update < min_seconds {
            return Err(ErrorCode::PriceUpdateTooSoon);
        }
        let max_allowed_price = apply_bps_exec(self.price, max_agent_price_new)?;
        if new_price > max_allowed_price {
            return Err(ErrorCode::PriceUpdateTooHigh);
        }
        Ok(())
    }

    /// Replaces the tax configuration, at most once a day. Only the authority
    /// may (`InvalidAuthority`); the new configuration must check out
    /// (`MathError`), and an update already made since the start of the day of
    /// `current_time` is `PriceUpdateTooSoon`.
    pub fn update_tax_config(&mut self, new_tax_config: TaxConfig, authority: &Pubkey, current_time: i64) -> (r:
        TYieldResult<()>)
        ensures
            r == (if *authority != old(self).authority {
                Err(ErrorCode::InvalidAuthority)
            } else if tax_config_check(new_tax_config) is Err {
                Err(ErrorCode::MathError)
            } else if old(self).last_updated >= current_time - trunc_rem(
                current_time as int,
                SECONDS_PER_DAY as int,
            ) {
                Err(ErrorCode::PriceUpdateTooSoon)
            } else {
                Ok::<(), ErrorCode>(())
            }),
            r is Ok ==> *final(self) == (MasterAgent {
                tax_config: new_tax_config,
                last_updated: current_time,
                ..*old(self)
            }),
            r is Err ==> *final(self) == *old(self),
    {
        if *authority != self.authority {
            return Err(ErrorCode::InvalidAuthority);
        }
        if new_tax_config.buy_tax_percentage > new_tax_config.max_tax_percentage {
            return Err(ErrorCode::MathError);
        }
        if new_tax_config.sell_tax_percentage > new_tax_config.max_tax_percentage {
            return Err(ErrorCode::MathError);
        }
        if new_tax_config.max_tax_percentage > PERCENTAGE_PRECISION_U64 {
            return Err(ErrorCode::MathError);
        }
        let day_start = current_time - (current_time % SECONDS_PER_DAY);
        if self.last_updated >= day_start {
            return Err(ErrorCode::PriceUpdateTooSoon);
        }
        self.tax_config = new_tax_config;
        self.last_updated = current_time;
        Ok(())
    }

    /// What `validate_security` answers: the master agent is valid, its taxes
    /// are consistent, its activity is not suspicious, and its price, yield
    /// and supply are within the security bounds.
    pub open spec fn security_check(self, current_time: i64) -> Result<(), ErrorCode> {
        if self.validity() is Err {
            self.validity()
        } else if tax_config_check(self.tax_config) is Err {
            tax_config_check(self.tax_config)
        } else if self.activity_check(current_time) is Err {
            self.activity_check(current_time)
        } else if self.price > 1_000_000_000_000_000 {
            Err(ErrorCode::InvalidEntryPrice)
        } else if self.w_yield > 50000 || self.max_supply > 1_000_000 {
            Err(ErrorCode::MathError)
        } else {
            Ok(())
        }
    }

    /// The security checks, in order: the account, the tax configuration, the
    /// activity patterns, then a price of at most 10^15 (`InvalidEntryPrice`),
    /// a yield of at most 500% and a supply of at most a million (`MathError`).
    pub fn validate_security(&self, current_time: i64) -> (r: TYieldResult<()>)
        requires
            self.validity() is Ok && tax_config_check(self.tax_config) is Ok ==> i64::MIN
                <= current_time - self.created_at <= i64::MAX,
        ensures
            r == self.security_check(current_time),
    {
        self.validate()?;
        self.validate_tax_config()?;
        self.detect_suspicious_activity(current_time)?;
        if self.authority.is_default() {
            return Err(ErrorCode::InvalidAuthority);
        }
        if self.price > 1_000_000_000_000_000 {
            return Err(ErrorCode::InvalidEntryPrice);
        }
        if self.w_yield > 50000 {
            return Err(ErrorCode::MathError);
        }
        if self.max_supply > 1_000_000 {
            return Err(ErrorCode::MathError);
        }
        Ok(())
    }

    /// Activity patterns (see `activity_check`): a price that moved more than
    /// 10% a day on average, more than 1000 trades per agent, or a time before
    /// creation or the last update.
    pub fn detect_suspicious_activity(&self, current_time: i64) -> (r: TYieldResult<()>)
        requires
            i64::MIN <= current_time - self.created_at <= i64::MAX,
        ensures
            r == self.activity_check(current_time),
    {
        let days_since_created = self.get_days_since_created(current_time);
        if days_since_created > 0 {
            let avg_price_change_per_day = self.price.safe_div(days_since_created as u64)?;
            if avg_price_change_per_day > self.price.safe_div(10)? {
                return Err(ErrorCode::PriceDeviationTooHigh);
            }
        }
        if self.trade_count > 0 && self.agent_count > 0 {
            let trades_per_agent = self.trade_count.safe_div(self.agent_count)?;
            if trades_per_agent > 1000 {
                return Err(ErrorCode::CannotPerformAction);
            }
        }
        if current_time < self.created_at {
            return Err(ErrorCode::InvalidAccount);
        }
        if current_time < self.last_updated {
            return Err(ErrorCode::InvalidAccount);
        }
        Ok(())
    }
}


/// The buy and sell prices are the agent price with the tax added or taken
/// off, the tax being the price's share at the tax rate in basis points,
/// rounded down: a computed buy price `(total, tax, base)` has
/// `base == price`, `total == base + tax` and
/// `tax * 10_000 <= price * buy_tax < (tax + 1) * 10_000`; a computed sell
/// price `(net, tax, base)` has `base == price`, `net + tax == base` and the
/// same bound at the sell tax rate. Neither rate may exceed the cap.
pub proof fn lemma_taxed_prices(m: MasterAgent)
    ensures
        m.buy_price() matches Ok(b) ==> {
            &&& b.2 == m.price
            &&& b.0 == b.2 + b.1
            &&& b.1 * 10_000 <= m.price * m.tax_config.buy_tax_percentage < (b.1 + 1) * 10_000
            &&& m.tax_config.buy_tax_percentage <= m.tax_config.max_tax_percentage
        },
        m.sell_price() matches Ok(v) ==> {
            &&& v.2 == m.price
            &&& v.0 + v.1 == v.2
            &&& v.1 * 10_000 <= m.price * m.tax_config.sell_tax_percentage < (v.1 + 1) * 10_000
            &&& m.tax_config.sell_tax_percentage <= m.tax_config.max_tax_percentage
        },
{
    let pb = m.price * m.tax_config.buy_tax_percentage;
    let ps = m.price * m.tax_config.sell_tax_percentage;
    assert(pb >= 0 && ps >= 0) by (nonlinear_arith)
        requires
            pb == m.price * m.tax_config.buy_tax_percentage,
            ps == m.price * m.tax_config.sell_tax_percentage,
    ;
    let qb = pb / 10_000;
    let qs = ps / 10_000;
    assert(qb * 10_000 <= pb < (qb + 1) * 10_000) by (nonlinear_arith)
        requires
            pb >= 0,
            qb == pb / 10_000,
    ;
    assert(qs * 10_000 <= ps < (qs + 1) * 10_000) by (nonlinear_arith)
        requires
            ps >= 0,
            qs == ps / 10_000,
    ;
}
} // verus!
