//! The protocol account: taxes, balances, permissions, the circuit breaker,
//! the rate limiter and the bounds the parameters must respect.
use vstd::prelude::*;
use crate::clock::unix_timestamp_now;
use crate::error::{ErrorCode, TYieldResult};
use crate::math::int_spec::trunc_rem;
use crate::math::safe_math::SafeMath;
use crate::pda::{spec_try_find_program_address, try_find_program_address};
use crate::pubkey::Pubkey;
use crate::state::oracle::OracleParams;

verus! {

/// What users may do.
#[derive(Clone, Copy, PartialEq, Eq, Structural, Debug)]
pub struct Permissions {
    pub allow_agent_deploy: bool,
    pub allow_agent_buy: bool,
    pub allow_agent_sell: bool,
    pub allow_withdraw_yield: bool,
}

impl Default for Permissions {
    fn default() -> (r: Permissions)
        ensures
            r == (Permissions {
                allow_agent_deploy: false,
                allow_agent_buy: false,
                allow_agent_sell: false,
                allow_withdraw_yield: false,
            }),
    {
        Permissions {
            allow_agent_deploy: false,
            allow_agent_buy: false,
            allow_agent_sell: false,
            allow_withdraw_yield: false,
        }
    }
}

/// The protocol's circuit breaker.
#[derive(Clone, Copy, PartialEq, Eq, Debug)]
pub struct CircuitBreaker {
    pub is_triggered: bool,
    pub trigger_time: i64,
    pub trigger_reason: u8,
    pub price_threshold: u64,
    pub volume_threshold: u64,
    /// Seconds the breaker holds once tripped.
    pub cooldown_period_sec: u32,
    pub _padding: [u8; 6],
}

impl Default for CircuitBreaker {
    fn default() -> (r: CircuitBreaker)
        ensures
            !r.is_triggered && r.trigger_time == 0 && r.trigger_reason == 0,
            r.price_threshold == 0 && r.volume_threshold == 0 && r.cooldown_period_sec == 0,
            r._padding@ == Seq::new(6, |i: int| 0u8),
    {
        let r = CircuitBreaker {
            is_triggered: false,
            trigger_time: 0,
            trigger_reason: 0,
            price_threshold: 0,
            volume_threshold: 0,
            cooldown_period_sec: 0,
            _padding: [0;6],
        };
        assert(r._padding@ =~= Seq::new(6, |i: int| 0u8));
        r
    }
}

/// The protocol's update rate limiter.
#[derive(Clone, Copy, PartialEq, Eq, Debug)]
pub struct RateLimiter {
    pub last_update_time: i64,
    pub min_interval_sec: u32,
    pub max_updates_per_day: u32,
    pub daily_update_count: u32,
    pub last_reset_day: i64,
    pub _padding: [u8; 4],
}

impl Default for RateLimiter {
    fn default() -> (r: RateLimiter)
        ensures
            r.last_update_time == 0 && r.min_interval_sec == 0 && r.max_updates_per_day == 0,
            r.daily_update_count == 0 && r.last_reset_day == 0,
            r._padding@ == Seq::new(4, |i: int| 0u8),
    {
        let r = RateLimiter {
            last_update_time: 0,
            min_interval_sec: 0,
            max_updates_per_day: 0,
            daily_update_count: 0,
            last_reset_day: 0,
            _padding: [0;4],
        };
        assert(r._padding@ =~= Seq::new(4, |i: int| 0u8));
        r
    }
}

/// Bounds on the protocol's parameters.
#[derive(Clone, Copy, PartialEq, Eq, Debug)]
pub struct ParameterBounds {
    pub max_tax_percentage: u64,
    pub max_price_deviation: u64,
    pub max_protocol_balance: u64,
    pub min_update_interval: u32,
    pub _padding: [u8; 4],
}

impl Default for ParameterBounds {
    fn default() -> (r: ParameterBounds)
        ensures
            r.max_tax_percentage == 0 && r.max_price_deviation == 0 && r.max_protocol_balance == 0,
            r.min_update_interval == 0,
            r._padding@ == Seq::new(4, |i: int| 0u8),
    {
        let r = ParameterBounds {
            max_tax_percentage: 0,
            max_price_deviation: 0,
            max_protocol_balance: 0,
            min_update_interval: 0,
            _padding: [0;4],
        };
        assert(r._padding@ =~= Seq::new(4, |i: int| 0u8));
        r
    }
}

/// The protocol account.
#[derive(Clone, Copy, PartialEq, Debug)]
pub struct TYield {
    pub oracle_param: OracleParams,
    pub y_mint: Pubkey,
    pub buy_tax: u64,
    pub sell_tax: u64,
    pub max_tax_percentage: u64,
    pub ref_earn_percentage: u64,
    pub max_agent_price_new: u64,
    pub protocol_current_holding: u64,
    pub protocol_total_fees: u64,
    pub protocol_total_earnings: u64,
    pub protocol_total_balance_usd: u64,
    pub inception_time: i64,
    pub permissions: Permissions,
    pub transfer_authority_bump: u8,
    pub t_yield_bump: u8,
    pub paused: bool,
    pub circuit_breaker: CircuitBreaker,
    pub rate_limiter: RateLimiter,
    pub parameter_bounds: ParameterBounds,
    pub _padding: [u8; 3],
}

impl Default for TYield {
    fn default() -> (r: TYield)
        ensures
            r.y_mint == Pubkey::spec_default(),
            r.buy_tax == 0 && r.sell_tax == 0 && r.max_tax_percentage == 0,
            r.ref_earn_percentage == 0 && r.max_agent_price_new == 0,
            r.protocol_current_holding == 0 && r.protocol_total_fees == 0,
            r.protocol_total_earnings == 0 && r.protocol_total_balance_usd == 0,
            r.inception_time == 0 && !r.paused,
            r.transfer_authority_bump == 0 && r.t_yield_bump == 0,
            !r.circuit_breaker.is_triggered && r.circuit_breaker.cooldown_period_sec == 0,
            r.rate_limiter.last_update_time == 0 && r.rate_limiter.min_interval_sec == 0,
            r.rate_limiter.max_updates_per_day == 0 && r.rate_limiter.daily_update_count == 0,
            r.rate_limiter.last_reset_day == 0,
            r.parameter_bounds.max_tax_percentage == 0,
            r.parameter_bounds.max_protocol_balance == 0,
    {
        TYield {
            oracle_param: OracleParams::default(),
            y_mint: Pubkey::default(),
            buy_tax: 0,
            sell_tax: 0,
            max_tax_percentage: 0,
            ref_earn_percentage: 0,
            max_agent_price_new: 0,
            protocol_current_holding: 0,
            protocol_total_fees: 0,
            protocol_total_earnings: 0,
            protocol_total_balance_usd: 0,
            inception_time: 0,
            permissions: Permissions::default(),
            transfer_authority_bump: 0,
            t_yield_bump: 0,
            paused: false,
            circuit_breaker: CircuitBreaker::default(),
            rate_limiter: RateLimiter::default(),
            parameter_bounds: ParameterBounds::default(),
            _padding: [0;3],
        }
    }
}

/// Seconds in a day.
pub const SECONDS_PER_DAY: i64 = 86_400;

/// The bytes of the program's id.
pub open spec fn program_id_bytes() -> Seq<u8> {
    seq![
        203u8, 215, 216, 213, 61, 2, 201, 89, 239, 18, 139, 24, 76, 199, 135, 183, 214, 99, 8, 64,
        62, 182, 39, 189, 225, 248, 242, 210, 40, 187, 44, 156,
    ]
}

/// The program's id.
pub fn program_id() -> (r: [u8; 32])
    ensures
        r@ == program_id_bytes(),
{
    let r: [u8; 32] = [
        203, 215, 216, 213, 61, 2, 201, 89, 239, 18, 139, 24, 76, 199, 135, 183, 214, 99, 8, 64, 62,
        182, 39, 189, 225, 248, 242, 210, 40, 187, 44, 156,
    ];
    assert(r@ =~= program_id_bytes());
    r
}

/// The seed of user accounts.
pub open spec fn user_seed() -> Seq<u8> {
    seq![117u8, 115, 101, 114]
}

/// The seed of referral registries.
pub open spec fn referral_registry_seed() -> Seq<u8> {
    seq![
        114u8, 101, 102, 101, 114, 114, 97, 108, 95, 114, 101, 103, 105, 115, 116, 114, 121,
    ]
}

/// The checks of tax rates against the bounds: each at most the configured
/// maximum and at most 100%; every failure is `MathError`.
pub open spec fn tax_check(bound: u64, buy_tax: u64, sell_tax: u64) -> Result<(), ErrorCode> {
    if buy_tax > bound || sell_tax > bound || buy_tax > 10000 || sell_tax > 10000 {
        Err(ErrorCode::MathError)
    } else {
        Ok(())
    }
}

/// What the upgrade-authority check answers: for an upgradeable program the
/// program data account is at its recorded address
/// (`InvalidProgramExecutable`) and a set upgrade authority is the expected
/// one (`ConstraintOwner`).
pub open spec fn upgrade_authority_check(
    expected_upgrade_authority: Pubkey,
    program_data_key: Pubkey,
    programdata_address: Option<Pubkey>,
    upgrade_authority_address: Option<Pubkey>,
) -> Result<(), ErrorCode> {
    match programdata_address {
        None => Ok(()),
        Some(address) => if address != program_data_key {
            Err(ErrorCode::InvalidProgramExecutable)
        } else {
            match upgrade_authority_address {
                Some(current) => if current != Pubkey::spec_default() && current
                    != expected_upgrade_authority {
                    Err(ErrorCode::ConstraintOwner)
                } else {
                    Ok(())
                },
                None => Ok(()),
            }
        },
    }
}

impl TYield {
    /// The rate limit: at least `min_interval_sec` since the last update, then
    /// free in a new day, else at most `max_updates_per_day` updates.
    pub open spec fn rate_check(self, now: i64) -> Result<(), ErrorCode> {
        let rl = self.rate_limiter;
        if !(i64::MIN <= now - rl.last_update_time <= i64::MAX) {
            Err(ErrorCode::MathError)
        } else if now - rl.last_update_time < rl.min_interval_sec {
            Err(ErrorCode::RateLimitExceeded)
        } else if now - trunc_rem(now as int, SECONDS_PER_DAY as int) > rl.last_reset_day {
            Ok(())
        } else if rl.daily_update_count >= rl.max_updates_per_day {
            Err(ErrorCode::RateLimitExceeded)
        } else {
            Ok(())
        }
    }

    /// The circuit breaker: while tripped and within its cooldown, refused.
    pub open spec fn breaker_check(self, now: i64) -> Result<(), ErrorCode> {
        let cb = self.circuit_breaker;
        if !cb.is_triggered {
            Ok(())
        } else if !(i64::MIN <= now - cb.trigger_time <= i64::MAX) {
            Err(ErrorCode::MathError)
        } else if now - cb.trigger_time < cb.cooldown_period_sec {
            Err(ErrorCode::CircuitBreakerTriggered)
        } else {
            Ok(())
        }
    }

    /// Checks tax rates (see `tax_check`).
    pub fn validate_tax_parameters(&self, buy_tax: u64, sell_tax: u64) -> (r: TYieldResult<()>)
        ensures
            r == tax_check(self.parameter_bounds.max_tax_percentage, buy_tax, sell_tax),
    {
        if buy_tax > self.parameter_bounds.max_tax_percentage {
            return Err(ErrorCode::MathError);
        }
        if sell_tax > self.parameter_bounds.max_tax_percentage {
            return Err(ErrorCode::MathError);
        }
        if buy_tax > 10000 || sell_tax > 10000 {
            return Err(ErrorCode::MathError);
        }
        Ok(())
    }

    /// A balance above the bound is `MathError`.
    pub fn validate_protocol_balance(&self, new_balance: u64) -> (r: TYieldResult<()>)
        ensures
            r == (if new_balance > self.parameter_bounds.max_protocol_balance {
                Err::<(), ErrorCode>(ErrorCode::MathError)
            } else {
                Ok(())
            }),
    {
        if new_balance > self.parameter_bounds.max_protocol_balance {
            return Err(ErrorCode::MathError);
        }
        Ok(())
    }

    /// Sets the USD balance within the bound (`MathError` above it) and records
    /// the update time.
    pub fn update_protocol_balance(&mut self, new_balance: u64, current_time: i64) -> (r:
        TYieldResult<()>)
        ensures
            new_balance > old(self).parameter_bounds.max_protocol_balance ==> r == Err::<
                (),
                ErrorCode,
            >(ErrorCode::MathError) && *final(self) == *old(self),
            new_balance <= old(self).parameter_bounds.max_protocol_balance ==> r == Ok::<
                (),
                ErrorCode,
            >(()) && *final(self) == (TYield {
                protocol_total_balance_usd: new_balance,
                rate_limiter: RateLimiter {
                    last_update_time: current_time,
                    ..old(self).rate_limiter
                },
                ..*old(self)
            }),
    {
        self.validate_protocol_balance(new_balance)?;
        self.protocol_total_balance_usd = new_balance;
        self.rate_limiter.last_update_time = current_time;
        Ok(())
    }

    /// Sets the fees, which may not exceed the balance (`MathError`), and
    /// records the update time.
    pub fn update_protocol_fees(&mut self, new_fees: u64, current_time: i64) -> (r: TYieldResult<()>)
        ensures
            new_fees > old(self).protocol_total_balance_usd ==> r == Err::<(), ErrorCode>(
                ErrorCode::MathError,
            ) && *final(self) == *old(self),
            new_fees <= old(self).protocol_total_balance_usd ==> r == Ok::<(), ErrorCode>(())
                && *final(self) == (TYield {
                protocol_total_fees: new_fees,
                rate_limiter: RateLimiter {
                    last_update_time: current_time,
                    ..old(self).rate_limiter
                },
                ..*old(self)
            }),
    {
        if new_fees > self.protocol_total_balance_usd {
            return Err(ErrorCode::MathError);
        }
        self.protocol_total_fees = new_fees;
        self.rate_limiter.last_update_time = current_time;
        Ok(())
    }

    /// The rate limit (see `rate_check`).
    pub fn check_rate_limit(&self, current_time: i64) -> (r: TYieldResult<()>)
        ensures
            r == self.rate_check(current_time),
    {
        let time_since_last = current_time.safe_sub(self.rate_limiter.last_update_time)?;
        if time_since_last < self.rate_limiter.min_interval_sec as i64 {
            return Err(ErrorCode::RateLimitExceeded);
        }
        let current_day = current_time - (current_time % SECONDS_PER_DAY);
        if current_day > self.rate_limiter.last_reset_day {
            return Ok(());
        }
        if self.rate_limiter.daily_update_count >= self.rate_limiter.max_updates_per_day {
            return Err(ErrorCode::RateLimitExceeded);
        }
        Ok(())
    }

    /// The circuit breaker (see `breaker_check`).
    pub fn check_circuit_breaker(&self, current_time: i64) -> (r: TYieldResult<()>)
        ensures
            r == self.breaker_check(current_time),
    {
        if self.circuit_breaker.is_triggered {
            let time_since_trigger = current_time.safe_sub(self.circuit_breaker.trigger_time)?;
            if time_since_trigger < self.circuit_breaker.cooldown_period_sec as i64 {
                return Err(ErrorCode::CircuitBreakerTriggered);
            }
        }
        Ok(())
    }

    /// Trips the circuit breaker at `current_time` for `reason`.
    pub fn trigger_circuit_breaker(&mut self, reason: u8, current_time: i64) -> (r: TYieldResult<
        (),
    >)
        ensures
            r == Ok::<(), ErrorCode>(()),
            *final(self) == (TYield {
                circuit_breaker: CircuitBreaker {
                    is_triggered: true,
                    trigger_time: current_time,
                    trigger_reason: reason,
                    ..old(self).circuit_breaker
                },
                ..*old(self)
            }),
    {
        self.circuit_breaker.is_triggered = true;
        self.circuit_breaker.trigger_time = current_time;
        self.circuit_breaker.trigger_reason = reason;
        Ok(())
    }

    /// Resets the circuit breaker.
    pub fn reset_circuit_breaker(&mut self) -> (r: TYieldResult<()>)
        ensures
            r == Ok::<(), ErrorCode>(()),
            *final(self) == (TYield {
                circuit_breaker: CircuitBreaker {
                    is_triggered: false,
                    trigger_time: 0,
                    trigger_reason: 0,
                    ..old(self).circuit_breaker
                },
                ..*old(self)
            }),
    {
        self.circuit_breaker.is_triggered = false;
        self.circuit_breaker.trigger_time = 0;
        self.circuit_breaker.trigger_reason = 0;
        Ok(())
    }

    /// The security checks, in order: not paused (`CannotPerformAction`), the
    /// circuit breaker, the tax rates, the balance bound and the rate limit.
    pub fn validate_security_state(&self, current_time: i64) -> (r: TYieldResult<()>)
        ensures
            r == (if self.paused {
                Err(ErrorCode::CannotPerformAction)
            } else if self.breaker_check(current_time) is Err {
                self.breaker_check(current_time)
            } else if tax_check(self.parameter_bounds.max_tax_percentage, self.buy_tax, self.sell_tax) is Err {
                Err(ErrorCode::MathError)
            } else if self.protocol_total_balance_usd > self.parameter_bounds.max_protocol_balance {
                Err(ErrorCode::MathError)
            } else {
                self.rate_check(current_time)
            }),
    {
        if self.paused {
            return Err(ErrorCode::CannotPerformAction);
        }
        self.check_circuit_breaker(current_time)?;
        self.validate_tax_parameters(self.buy_tax, self.sell_tax)?;
        self.validate_protocol_balance(self.protocol_total_balance_usd)?;
        self.check_rate_limit(current_time)?;
        Ok(())
    }

    /// Pauses the protocol and trips the breaker with reason 255.
    pub fn emergency_pause(&mut self, current_time: i64) -> (r: TYieldResult<()>)
        ensures
            r == Ok::<(), ErrorCode>(()),
            *final(self) == (TYield {
                paused: true,
                circuit_breaker: CircuitBreaker {
                    is_triggered: true,
                    trigger_time: current_time,
                    trigger_reason: 255,
                    ..old(self).circuit_breaker
                },
                ..*old(self)
            }),
    {
        self.paused = true;
        self.circuit_breaker.is_triggered = true;
        self.circuit_breaker.trigger_time = current_time;
        self.circuit_breaker.trigger_reason = 255;
        Ok(())
    }

    /// The cluster clock's Unix time; a clock that cannot be read or a time
    /// that is not positive is `MathError`.
    pub fn get_time(&self) -> (r: TYieldResult<i64>)
        ensures
            r matches Ok(t) ==> t > 0,
            r is Err ==> r == Err::<i64, ErrorCode>(ErrorCode::MathError),
    {
        let time = match unix_timestamp_now() {
            Some(t) => t,
            None => {
                return Err(ErrorCode::MathError);
            },
        };
        if time > 0 {
            Ok(time)
        } else {
            Err(ErrorCode::MathError)
        }
    }

    /// The address and bump of a user account.
    pub fn get_user_pda(authority: &Pubkey) -> (r: TYieldResult<(Pubkey, u8)>)
        ensures
            spec_try_find_program_address(user_seed(), authority.spec_bytes(), program_id_bytes()) == (match r {
                Ok(p) => Some((p.0.spec_bytes(), p.1)),
                Err(_) => None::<(Seq<u8>, u8)>,
            }),
            r is Err ==> r == Err::<(Pubkey, u8), ErrorCode>(ErrorCode::InvalidBump),
    {
        let seed: [u8; 4] = [117, 115, 101, 114];
        assert(seed@ =~= user_seed());
        let key = authority.to_bytes();
        match try_find_program_address(seed.as_slice(), key.as_slice(), &program_id()) {
            Some((address, bump)) => Ok((Pubkey::new_from_array(address), bump)),
            None => Err(ErrorCode::InvalidBump),
        }
    }

    /// The address and bump of a referrer's registry.
    pub fn get_referral_registry_pda(referrer: &Pubkey) -> (r: TYieldResult<(Pubkey, u8)>)
        ensures
            spec_try_find_program_address(referral_registry_seed(), referrer.spec_bytes(), program_id_bytes()) == (match r {
                Ok(p) => Some((p.0.spec_bytes(), p.1)),
                Err(_) => None::<(Seq<u8>, u8)>,
            }),
            r is Err ==> r == Err::<(Pubkey, u8), ErrorCode>(ErrorCode::InvalidBump),
    {
        let seed: [u8; 17] = [
            114, 101, 102, 101, 114, 114, 97, 108, 95, 114, 101, 103, 105, 115, 116, 114, 121,
        ];
        assert(seed@ =~= referral_registry_seed());
        let key = referrer.to_bytes();
        match try_find_program_address(seed.as_slice(), key.as_slice(), &program_id()) {
            Some((address, bump)) => Ok((Pubkey::new_from_array(address), bump)),
            None => Err(ErrorCode::InvalidBump),
        }
    }

    /// Checks the program's upgrade authority: when the program is upgradeable
    /// (`programdata_address` is set), the program data account must be at
    /// that address (`InvalidProgramExecutable`), and a set upgrade authority
    /// must be the expected one (`ConstraintOwner`).
    pub fn validate_upgrade_authority(
        expected_upgrade_authority: Pubkey,
        program_data_key: Pubkey,
        programdata_address: Option<Pubkey>,
        upgrade_authority_address: Option<Pubkey>,
    ) -> (r: TYieldResult<()>)
        ensures
            r == upgrade_authority_check(
                expected_upgrade_authority,
                program_data_key,
                programdata_address,
                upgrade_authority_address,
            ),
    {
        if let Some(address) = programdata_address {
            if address != program_data_key {
                return Err(ErrorCode::InvalidProgramExecutable);
            }
            if let Some(current) = upgrade_authority_address {
                if !current.is_default() && current != expected_upgrade_authority {
                    return Err(ErrorCode::ConstraintOwner);
                }
            }
        }
        Ok(())
    }

    /// Whether an account is empty: no data or no lamports.
    pub fn is_empty_account(data_len: usize, lamports: u64) -> (r: TYieldResult<bool>)
        ensures
            r == Ok::<bool, ErrorCode>(data_len == 0 || lamports == 0),
    {
        Ok(data_len == 0 || lamports == 0)
    }

    /// Moves `amount` lamports out of a program-owned account. The destination
    /// is credited first: an overflow there is `MathError` with nothing moved,
    /// while a source without enough lamports is `MathError` after the
    /// destination was credited.
    pub fn transfer_sol_from_owned(
        program_owned_source_lamports: &mut u64,
        destination_lamports: &mut u64,
        amount: u64,
    ) -> (r: TYieldResult<()>)
        ensures
            *old(destination_lamports) + amount > u64::MAX ==> r == Err::<(), ErrorCode>(
                ErrorCode::MathError,
            ) && *final(destination_lamports) == *old(destination_lamports) && *final(
            program_owned_source_lamports) == *old(program_owned_source_lamports),
            *old(destination_lamports) + amount <= u64::MAX ==> *final(destination_lamports) == *old(
            destination_lamports) + amount,
            *old(destination_lamports) + amount <= u64::MAX && *old(program_owned_source_lamports)
                < amount ==> r == Err::<(), ErrorCode>(ErrorCode::MathError) && *final(
            program_owned_source_lamports) == *old(program_owned_source_lamports),
            *old(destination_lamports) + amount <= u64::MAX && *old(program_owned_source_lamports)
                >= amount ==> r == Ok::<(), ErrorCode>(()) && *final(program_owned_source_lamports)
                == *old(program_owned_source_lamports) - amount,
    {
        *destination_lamports = (*destination_lamports).safe_add(amount)?;
        let source_balance = *program_owned_source_lamports;
        *program_owned_source_lamports = source_balance.safe_sub(amount)?;
        Ok(())
    }
}

} // verus!
