//! Agents: tokens minted from a master agent, with an owner, a boost and a
//! listing flag.
use vstd::prelude::*;
use crate::error::{ErrorCode, TYieldResult};
use crate::math::int_spec::trunc_div;
use crate::math::safe_math::SafeMath;
use crate::pubkey::Pubkey;

verus! {

/// An agent.
#[derive(Clone, Copy, PartialEq, Eq, Debug)]
pub struct Agent {
    pub master_agent: Pubkey,
    pub mint: Pubkey,
    pub owner: Pubkey,
    /// Boost in basis points.
    pub booster: u64,
    pub created_at: i64,
    pub last_updated: i64,
    pub is_listed: bool,
    pub bump: u8,
    pub _padding: [u8; 6],
}

/// Seconds in a day.
pub const SECONDS_PER_DAY: i64 = 86_400;

impl Default for Agent {
    fn default() -> (r: Agent)
        ensures
            r.master_agent == Pubkey::spec_default() && r.mint == Pubkey::spec_default() && r.owner
                == Pubkey::spec_default(),
            r.booster == 0 && r.created_at == 0 && r.last_updated == 0 && !r.is_listed && r.bump
                == 0,
            r._padding@ == Seq::new(6, |i: int| 0u8),
    {
        let r = Agent {
            master_agent: Pubkey::default(),
            mint: Pubkey::default(),
            owner: Pubkey::default(),
            booster: 0,
            created_at: 0,
            last_updated: 0,
            is_listed: false,
            bump: 0,
            _padding: [0;6],
        };
        assert(r._padding@ =~= Seq::new(6, |i: int| 0u8));
        r
    }
}

impl Agent {
    /// Whole days (rounded toward zero) from `from` to `now`.
    pub open spec fn days_between(now: i64, from: i64) -> int {
        trunc_div(now - from, SECONDS_PER_DAY as int)
    }

    /// Whether the agent was created and not updated before its creation.
    pub open spec fn active(self) -> bool {
        self.created_at > 0 && self.last_updated >= self.created_at
    }

    /// Whether both day counts of the agent fit the arithmetic at `now`.
    pub open spec fn times_ok(self, now: i64) -> bool {
        &&& i64::MIN <= now - self.created_at <= i64::MAX
        &&& i64::MIN <= now - self.last_updated <= i64::MAX
    }

    /// The boost plus 1000 when updated within a week (not at creation time),
    /// plus 500 when between 30 and 365 days old, less 2000 (down to zero) when
    /// older; a bonus that would overflow is skipped.
    pub open spec fn performance(self, now: i64) -> u64 {
        let age = Agent::days_between(now, self.created_at);
        let idle = Agent::days_between(now, self.last_updated);
        let s1 = if idle <= 7 && now != self.created_at && self.booster + 1000 <= u64::MAX {
            (self.booster + 1000) as u64
        } else {
            self.booster
        };
        let s2 = if 30 <= age <= 365 && s1 + 500 <= u64::MAX {
            (s1 + 500) as u64
        } else {
            s1
        };
        if age > 365 {
            if s2 >= 2000 {
                (s2 - 2000) as u64
            } else {
                0
            }
        } else {
            s2
        }
    }

    /// Creates the agent, listed, at `current_time`.
    pub fn initialize(
        &mut self,
        master_agent: Pubkey,
        mint: Pubkey,
        owner: Pubkey,
        booster: u64,
        current_time: i64,
        bump: u8,
    ) -> (r: TYieldResult<()>)
        ensures
            r == Ok::<(), ErrorCode>(()),
            *final(self) == (Agent {
                master_agent,
                mint,
                owner,
                booster,
                is_listed: true,
                created_at: current_time,
                last_updated: current_time,
                bump,
                ..*old(self)
            }),
    {
        self.master_agent = master_agent;
        self.mint = mint;
        self.owner = owner;
        self.booster = booster;
        self.is_listed = true;
        self.created_at = current_time;
        self.last_updated = current_time;
        self.bump = bump;
        Ok(())
    }

    /// Sets the boost; zero is `InvalidAccount`.
    pub fn update_booster(&mut self, new_booster: u64, current_time: i64) -> (r: TYieldResult<()>)
        ensures
            new_booster == 0 ==> r == Err::<(), ErrorCode>(ErrorCode::InvalidAccount) && *final(
            self) == *old(self),
            new_booster != 0 ==> r == Ok::<(), ErrorCode>(()) && *final(self) == (Agent {
                booster: new_booster,
                last_updated: current_time,
                ..*old(self)
            }),
    {
        if new_booster == 0 {
            return Err(ErrorCode::InvalidAccount);
        }
        self.booster = new_booster;
        self.last_updated = current_time;
        Ok(())
    }

    /// Lists the agent; an agent already listed is `InvalidAccount`.
    pub fn list(&mut self, current_time: i64) -> (r: TYieldResult<()>)
        ensures
            old(self).is_listed ==> r == Err::<(), ErrorCode>(ErrorCode::InvalidAccount) && *final(
            self) == *old(self),
            !old(self).is_listed ==> r == Ok::<(), ErrorCode>(()) && *final(self) == (Agent {
                is_listed: true,
                last_updated: current_time,
                ..*old(self)
            }),
    {
        if self.is_listed {
            return Err(ErrorCode::InvalidAccount);
        }
        self.is_listed = true;
        self.last_updated = current_time;
        Ok(())
    }

    /// Unlists the agent; an agent not listed is `InvalidAccount`.
    pub fn unlist(&mut self, current_time: i64) -> (r: TYieldResult<()>)
        ensures
            !old(self).is_listed ==> r == Err::<(), ErrorCode>(ErrorCode::InvalidAccount) && *final(
            self) == *old(self),
            old(self).is_listed ==> r == Ok::<(), ErrorCode>(()) && *final(self) == (Agent {
                is_listed: false,
                last_updated: current_time,
                ..*old(self)
            }),
    {
        if !self.is_listed {
            return Err(ErrorCode::InvalidAccount);
        }
        self.is_listed = false;
        self.last_updated = current_time;
        Ok(())
    }

    /// Flips the listing; always succeeds.
    pub fn toggle_listing(&mut self, current_time: i64) -> (r: TYieldResult<()>)
        ensures
            r == Ok::<(), ErrorCode>(()),
            *final(self) == (Agent {
                is_listed: !old(self).is_listed,
                last_updated: current_time,
                ..*old(self)
            }),
    {
        if self.is_listed {
            self.unlist(current_time)
        } else {
            self.list(current_time)
        }
    }

    /// Gives the agent to `new_owner`; the unset key is `InvalidAccount`.
    pub fn transfer_ownership(&mut self, new_owner: Pubkey, current_time: i64) -> (r: TYieldResult<
        (),
    >)
        ensures
            new_owner == Pubkey::spec_default() ==> r == Err::<(), ErrorCode>(
                ErrorCode::InvalidAccount,
            ) && *final(self) == *old(self),
            new_owner != Pubkey::spec_default() ==> r == Ok::<(), ErrorCode>(()) && *final(self)
                == (Agent { owner: new_owner, last_updated: current_time, ..*old(self) }),
    {
        if new_owner.is_default() {
            return Err(ErrorCode::InvalidAccount);
        }
        self.owner = new_owner;
        self.last_updated = current_time;
        Ok(())
    }

    /// Whether the agent is listed.
    pub fn is_listed_for_trading(&self) -> (r: bool)
        ensures
            r == self.is_listed,
    {
        self.is_listed
    }

    /// Whether `owner` owns the agent.
    pub fn is_owned_by(&self, owner: &Pubkey) -> (r: bool)
        ensures
            r == (self.owner == *owner),
    {
        self.owner == *owner
    }

    /// Whether the agent was minted from `master_agent`.
    pub fn belongs_to_master_agent(&self, master_agent: &Pubkey) -> (r: bool)
        ensures
            r == (self.master_agent == *master_agent),
    {
        self.master_agent == *master_agent
    }

    /// The boost in basis points.
    pub fn get_boost_percentage(&self) -> (r: u64)
        ensures
            r == self.booster,
    {
        self.booster
    }

    /// Whole days since creation, rounded toward zero.
    pub fn get_days_since_created(&self, current_time: i64) -> (r: i64)
        requires
            i64::MIN <= current_time - self.created_at <= i64::MAX,
        ensures
            r == Agent::days_between(current_time, self.created_at),
    {
        let seconds_diff = current_time - self.created_at;
        seconds_diff / SECONDS_PER_DAY
    }

    /// Whole days since the last update, rounded toward zero.
    pub fn get_days_since_updated(&self, current_time: i64) -> (r: i64)
        requires
            i64::MIN <= current_time - self.last_updated <= i64::MAX,
        ensures
            r == Agent::days_between(current_time, self.last_updated),
    {
        let seconds_diff = current_time - self.last_updated;
        seconds_diff / SECONDS_PER_DAY
    }

    /// Whether the agent was created and not updated before its creation.
    pub fn is_active(&self) -> (r: bool)
        ensures
            r == self.active(),
    {
        self.created_at > 0 && self.last_updated >= self.created_at
    }

    /// Whether more than `idle_threshold_days` whole days passed since the last
    /// update.
    pub fn is_idle(&self, current_time: i64, idle_threshold_days: i64) -> (r: bool)
        requires
            i64::MIN <= current_time - self.last_updated <= i64::MAX,
        ensures
            r == (Agent::days_between(current_time, self.last_updated) > idle_threshold_days),
    {
        let days_since_update = self.get_days_since_updated(current_time);
        days_since_update > idle_threshold_days
    }

    /// The checks of an agent account: keys set, a non-zero boost, a positive
    /// creation time and no update before it; every failure is
    /// `InvalidAccount`.
    pub fn validate(&self) -> (r: TYieldResult<()>)
        ensures
            r == (if self.master_agent == Pubkey::spec_default() || self.mint
                == Pubkey::spec_default() || self.owner == Pubkey::spec_default() || self.booster
                == 0 || self.created_at <= 0 || self.last_updated < self.created_at {
                Err::<(), ErrorCode>(ErrorCode::InvalidAccount)
            } else {
                Ok(())
            }),
    {
        if self.master_agent.is_default() {
            return Err(ErrorCode::InvalidAccount);
        }
        if self.mint.is_default() {
            return Err(ErrorCode::InvalidAccount);
        }
        if self.owner.is_default() {
            return Err(ErrorCode::InvalidAccount);
        }
        if self.booster == 0 {
            return Err(ErrorCode::InvalidAccount);
        }
        if self.created_at <= 0 {
            return Err(ErrorCode::InvalidAccount);
        }
        if self.last_updated < self.created_at {
            return Err(ErrorCode::InvalidAccount);
        }
        Ok(())
    }

    /// Whether the agent is active.
    pub fn can_perform_actions(&self) -> (r: bool)
        ensures
            r == self.active(),
    {
        self.is_active()
    }

    /// "Inactive", "Listed" or "Unlisted".
    pub fn get_status_string(&self) -> (r: String)
        ensures
            r@ == (if !self.active() {
                "Inactive"@
            } else if self.is_listed {
                "Listed"@
            } else {
                "Unlisted"@
            }),
    {
        if !self.is_active() {
            String::from_str("Inactive")
        } else if self.is_listed {
            String::from_str("Listed")
        } else {
            String::from_str("Unlisted")
        }
    }

    /// "Listed" or "Unlisted".
    pub fn get_listing_status_string(&self) -> (r: String)
        ensures
            r@ == (if self.is_listed {
                "Listed"@
            } else {
                "Unlisted"@
            }),
    {
        if self.is_listed {
            String::from_str("Listed")
        } else {
            String::from_str("Unlisted")
        }
    }

    /// (master agent, mint, owner, boost, listed, creation time).
    pub fn get_summary(&self) -> (r: (Pubkey, Pubkey, Pubkey, u64, bool, i64))
        ensures
            r == (self.master_agent, self.mint, self.owner, self.booster, self.is_listed, self.created_at),
    {
        (self.master_agent, self.mint, self.owner, self.booster, self.is_listed, self.created_at)
    }

    /// Whether the agent needs attention: no update for more than 30 days,
    /// older than 365 days, or inactive.
    pub fn needs_attention(&self, current_time: i64) -> (r: bool)
        requires
            self.times_ok(current_time),
        ensures
            r == (Agent::days_between(current_time, self.last_updated) > 30 || Agent::days_between(
                current_time,
                self.created_at,
            ) > 365 || !self.active()),
    {
        let days_since_update = self.get_days_since_updated(current_time);
        let days_since_created = self.get_days_since_created(current_time);
        days_since_update > 30 || days_since_created > 365 || !self.is_active()
    }

    /// Unlists the agent and sets its last update back to creation.
    pub fn reset(&mut self)
        ensures
            *final(self) == (Agent {
                is_listed: false,
                last_updated: old(self).created_at,
                ..*old(self)
            }),
    {
        self.is_listed = false;
        self.last_updated = self.created_at;
    }

    /// Whole days since creation.
    pub fn get_age_days(&self, current_time: i64) -> (r: i64)
        requires
            i64::MIN <= current_time - self.created_at <= i64::MAX,
        ensures
            r == Agent::days_between(current_time, self.created_at),
    {
        self.get_days_since_created(current_time)
    }

    /// Whether the agent is less than a week old.
    pub fn is_new(&self, current_time: i64) -> (r: bool)
        requires
            i64::MIN <= current_time - self.created_at <= i64::MAX,
        ensures
            r == (Agent::days_between(current_time, self.created_at) < 7),
    {
        self.get_age_days(current_time) < 7
    }

    /// Whether the agent is at least 30 days old.
    pub fn is_mature(&self, current_time: i64) -> (r: bool)
        requires
            i64::MIN <= current_time - self.created_at <= i64::MAX,
        ensures
            r == (Agent::days_between(current_time, self.created_at) >= 30),
    {
        self.get_age_days(current_time) >= 30
    }

    /// The performance score (see `performance`).
    pub fn get_performance_score(&self, current_time: i64) -> (r: u64)
        requires
            self.times_ok(current_time),
        ensures
            r == self.performance(current_time),
    {
        let age_days = self.get_age_days(current_time);
        let days_since_update = self.get_days_since_updated(current_time);
        let mut score = self.booster;
        if days_since_update <= 7 && current_time != self.created_at {
            score = match score.safe_add(1000) {
                Ok(s) => s,
                Err(_) => score,
            };
        }
        if 30 <= age_days && age_days <= 365 {
            score = match score.safe_add(500) {
                Ok(s) => s,
                Err(_) => score,
            };
        }
        if age_days > 365 {
            score = match score.safe_sub(2000) {
                Ok(s) => s,
                Err(_) => 0,
            };
        }
        score
    }
}

} // verus!
