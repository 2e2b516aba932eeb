//! User accounts: status flags, yield and agent bookkeeping, referrals, and the
//! lifetime statistics kept in `History`.
use vstd::prelude::*;
use vstd::array::spec_array_fill_for_copy_type;
use crate::error::{ErrorCode, TYieldResult};
use crate::math::constants::QUOTE_PRECISION_U64;
use crate::math::int_spec::trunc_div;
use crate::math::safe_math::SafeMath;
use crate::pubkey::Pubkey;
use crate::text::{utf8_lossy, spec_utf8_lossy, trim_zero_bytes, trim_zeros};

verus! {

/// Seconds in a day.
pub const SECONDS_PER_DAY: i64 = 86_400;

/// Status flags a user can carry. Each flag is one bit of `User::status`.
#[derive(Clone, Copy, PartialEq, Eq, Structural, Debug)]
pub enum UserStatus {
    /// The user may act in the protocol.
    Active,
    /// The user is barred from acting.
    Banned,
    /// The user may trade on whitelist-only master agents.
    WithListed,
}

/// The bit that stands for a status flag.
pub open spec fn status_bit(status: UserStatus) -> u8 {
    match status {
        UserStatus::Active => 1u8,
        UserStatus::Banned => 2u8,
        UserStatus::WithListed => 4u8,
    }
}

/// Whether a status byte carries a flag.
pub open spec fn status_has(s: u8, status: UserStatus) -> bool {
    s & status_bit(status) != 0
}

impl UserStatus {
    /// The bit that stands for this flag (1, 2 or 4).
    pub fn bits(&self) -> (r: u8)
        ensures
            r == status_bit(*self),
    {
        match self {
            UserStatus::Active => 1,
            UserStatus::Banned => 2,
            UserStatus::WithListed => 4,
        }
    }
}

/// Lifetime statistics of a user. All amounts are in quote precision.
#[derive(Clone, Copy, PartialEq, Eq, Structural, Debug)]
pub struct History {
    pub total_agents_ever_purchased: u64,
    pub total_fees_spent: u64,
    pub total_yield_claimed: u64,
    pub total_referral_earnings_ever: u64,
}

impl Default for History {
    fn default() -> (r: History)
        ensures
            r == History::spec_default(),
    {
        History {
            total_agents_ever_purchased: 0,
            total_fees_spent: 0,
            total_yield_claimed: 0,
            total_referral_earnings_ever: 0,
        }
    }
}

/// Outcome of adding a positive amount to a counter: zero is refused with
/// `MathError`, and so is a sum past `u64::MAX`.
pub open spec fn add_positive(counter: u64, amount: u64) -> Result<u64, ErrorCode> {
    if amount == 0 || counter + amount > u64::MAX {
        Err(ErrorCode::MathError)
    } else {
        Ok((counter + amount) as u64)
    }
}

/// `numerator * QUOTE_PRECISION / denominator`, zero when the denominator is
/// zero, and `MathError` when the product overflows.
pub open spec fn quote_ratio(numerator: u64, denominator: u64) -> Result<u64, ErrorCode> {
    if denominator == 0 {
        Ok(0u64)
    } else if numerator * QUOTE_PRECISION_U64 > u64::MAX {
        Err(ErrorCode::MathError)
    } else {
        Ok((numerator * QUOTE_PRECISION_U64 / (denominator as int)) as u64)
    }
}

impl History {
    pub open spec fn spec_default() -> History {
        History {
            total_agents_ever_purchased: 0,
            total_fees_spent: 0,
            total_yield_claimed: 0,
            total_referral_earnings_ever: 0,
        }
    }

    /// Records an agent purchase worth `amount`.
    pub fn add_agents_purchased(&mut self, amount: u64) -> (r: TYieldResult<()>)
        ensures
            add_positive(old(self).total_agents_ever_purchased, amount) matches Ok(v) ==> r
                == Ok::<(), ErrorCode>(()) && *final(self) == (History {
                total_agents_ever_purchased: v,
                ..*old(self)
            }),
            add_positive(old(self).total_agents_ever_purchased, amount) matches Err(e) ==> r
                == Err::<(), ErrorCode>(e) && *final(self) == *old(self),
    {
        if amount == 0 {
            return Err(ErrorCode::MathError);
        }
        self.total_agents_ever_purchased = self.total_agents_ever_purchased.safe_add(amount)?;
        Ok(())
    }

    /// Records `fees` spent in fees.
    pub fn add_fees_spent(&mut self, fees: u64) -> (r: TYieldResult<()>)
        ensures
            add_positive(old(self).total_fees_spent, fees) matches Ok(v) ==> r == Ok::<
                (),
                ErrorCode,
            >(()) && *final(self) == (History { total_fees_spent: v, ..*old(self) }),
            add_positive(old(self).total_fees_spent, fees) matches Err(e) ==> r == Err::<
                (),
                ErrorCode,
            >(e) && *final(self) == *old(self),
    {
        if fees == 0 {
            return Err(ErrorCode::MathError);
        }
        self.total_fees_spent = self.total_fees_spent.safe_add(fees)?;
        Ok(())
    }

    /// Records `yield_amount` of yield claimed.
    pub fn add_yield_claimed(&mut self, yield_amount: u64) -> (r: TYieldResult<()>)
        ensures
            add_positive(old(self).total_yield_claimed, yield_amount) matches Ok(v) ==> r
                == Ok::<(), ErrorCode>(()) && *final(self) == (History {
                total_yield_claimed: v,
                ..*old(self)
            }),
            add_positive(old(self).total_yield_claimed, yield_amount) matches Err(e) ==> r
                == Err::<(), ErrorCode>(e) && *final(self) == *old(self),
    {
        if yield_amount == 0 {
            return Err(ErrorCode::MathError);
        }
        self.total_yield_claimed = self.total_yield_claimed.safe_add(yield_amount)?;
        Ok(())
    }

    /// Records `earnings` of referral earnings.
    pub fn add_referral_earnings(&mut self, earnings: u64) -> (r: TYieldResult<()>)
        ensures
            add_positive(old(self).total_referral_earnings_ever, earnings) matches Ok(v) ==> r
                == Ok::<(), ErrorCode>(()) && *final(self) == (History {
                total_referral_earnings_ever: v,
                ..*old(self)
            }),
            add_positive(old(self).total_referral_earnings_ever, earnings) matches Err(e) ==> r
                == Err::<(), ErrorCode>(e) && *final(self) == *old(self),
    {
        if earnings == 0 {
            return Err(ErrorCode::MathError);
        }
        self.total_referral_earnings_ever = self.total_referral_earnings_ever.safe_add(earnings)?;
        Ok(())
    }

    /// Purchases plus yield plus referral earnings.
    pub fn get_total_lifetime_value(&self) -> (r: TYieldResult<u64>)
        ensures
            r == (if self.total_agents_ever_purchased + self.total_yield_claimed
                + self.total_referral_earnings_ever <= u64::MAX {
                Ok(
                    (self.total_agents_ever_purchased + self.total_yield_claimed
                        + self.total_referral_earnings_ever) as u64,
                )
            } else {
                Err::<u64, ErrorCode>(ErrorCode::MathError)
            }),
    {
        let agents_plus_yield = self.total_agents_ever_purchased.safe_add(
            self.total_yield_claimed,
        )?;
        agents_plus_yield.safe_add(self.total_referral_earnings_ever)
    }

    /// Return (yield plus referral earnings) as a whole percentage of purchases;
    /// zero when nothing was purchased.
    pub fn get_roi_percentage(&self) -> (r: TYieldResult<u64>)
        ensures
            r == (if self.total_agents_ever_purchased == 0 {
                Ok(0u64)
            } else if (self.total_yield_claimed + self.total_referral_earnings_ever) * 100
                > u64::MAX {
                Err::<u64, ErrorCode>(ErrorCode::MathError)
            } else {
                Ok(
                    ((self.total_yield_claimed + self.total_referral_earnings_ever) * 100
                        / self.total_agents_ever_purchased as int) as u64,
                )
            }),
    {
        if self.total_agents_ever_purchased == 0 {
            return Ok(0);
        }
        let total_return = self.total_yield_claimed.safe_add(self.total_referral_earnings_ever)?;
        let percentage = total_return.safe_mul(100)?;
        percentage.safe_div(self.total_agents_ever_purchased)
    }

    /// Yield claimed per unit purchased, in quote precision.
    pub fn get_yield_efficiency(&self) -> (r: TYieldResult<u64>)
        ensures
            r == quote_ratio(self.total_yield_claimed, self.total_agents_ever_purchased),
    {
        if self.total_agents_ever_purchased == 0 {
            return Ok(0);
        }
        let numerator = self.total_yield_claimed.safe_mul(QUOTE_PRECISION_U64)?;
        numerator.safe_div(self.total_agents_ever_purchased)
    }

    /// Referral earnings per unit purchased, in quote precision.
    pub fn get_referral_efficiency(&self) -> (r: TYieldResult<u64>)
        ensures
            r == quote_ratio(self.total_referral_earnings_ever, self.total_agents_ever_purchased),
    {
        if self.total_agents_ever_purchased == 0 {
            return Ok(0);
        }
        let numerator = self.total_referral_earnings_ever.safe_mul(QUOTE_PRECISION_U64)?;
        numerator.safe_div(self.total_agents_ever_purchased)
    }

    /// Fees spent per unit purchased, in quote precision.
    pub fn get_fee_ratio(&self) -> (r: TYieldResult<u64>)
        ensures
            r == quote_ratio(self.total_fees_spent, self.total_agents_ever_purchased),
    {
        if self.total_agents_ever_purchased == 0 {
            return Ok(0);
        }
        let numerator = self.total_fees_spent.safe_mul(QUOTE_PRECISION_U64)?;
        numerator.safe_div(self.total_agents_ever_purchased)
    }

    /// Whether yield plus referral earnings exceed what was spent on agents.
    pub fn is_profitable(&self) -> (r: TYieldResult<bool>)
        ensures
            r == (if self.total_yield_claimed + self.total_referral_earnings_ever <= u64::MAX {
                Ok(
                    self.total_yield_claimed + self.total_referral_earnings_ever
                        > self.total_agents_ever_purchased,
                )
            } else {
                Err::<bool, ErrorCode>(ErrorCode::MathError)
            }),
    {
        let total_return = self.total_yield_claimed.safe_add(self.total_referral_earnings_ever)?;
        Ok(total_return > self.total_agents_ever_purchased)
    }

    /// Return minus purchases, both read as `i64`.
    pub fn get_net_pnl(&self) -> (r: TYieldResult<i64>)
        requires
            self.total_yield_claimed + self.total_referral_earnings_ever <= u64::MAX ==> i64::MIN
                <= ((self.total_yield_claimed + self.total_referral_earnings_ever) as u64 as i64)
                - (self.total_agents_ever_purchased as i64) <= i64::MAX,
        ensures
            r == (if self.total_yield_claimed + self.total_referral_earnings_ever <= u64::MAX {
                Ok(
                    (((self.total_yield_claimed + self.total_referral_earnings_ever) as u64 as i64)
                        - (self.total_agents_ever_purchased as i64)) as i64,
                )
            } else {
                Err::<i64, ErrorCode>(ErrorCode::MathError)
            }),
    {
        let total_return = self.total_yield_claimed.safe_add(self.total_referral_earnings_ever)?;
        let net_pnl = total_return as i64 - self.total_agents_ever_purchased as i64;
        Ok(net_pnl)
    }

    /// Net profit as a whole percentage of purchases; zero when nothing was
    /// purchased or there is no profit.
    pub fn get_profit_margin(&self) -> (r: TYieldResult<i64>)
        requires
            self.total_yield_claimed + self.total_referral_earnings_ever <= u64::MAX ==> i64::MIN
                <= ((self.total_yield_claimed + self.total_referral_earnings_ever) as u64 as i64)
                - (self.total_agents_ever_purchased as i64) <= i64::MAX,
        ensures
            ({
                let ret = self.total_yield_claimed + self.total_referral_earnings_ever;
                let net = ((ret as u64 as i64) - (self.total_agents_ever_purchased as i64)) as i64;
                r == (if self.total_agents_ever_purchased == 0 {
                    Ok(0i64)
                } else if ret > u64::MAX {
                    Err::<i64, ErrorCode>(ErrorCode::MathError)
                } else if net <= 0 {
                    Ok(0i64)
                } else if net * 100 > u64::MAX {
                    Err::<i64, ErrorCode>(ErrorCode::MathError)
                } else {
                    Ok(((net * 100) / (self.total_agents_ever_purchased as int)) as u64 as i64)
                })
            }),
    {
        if self.total_agents_ever_purchased == 0 {
            return Ok(0);
        }
        let net_pnl = self.get_net_pnl()?;
        if net_pnl <= 0 {
            return Ok(0);
        }
        let percentage = (net_pnl as u64).safe_mul(100)?;
        let margin = percentage.safe_div(self.total_agents_ever_purchased)?;
        Ok(margin as i64)
    }

    /// Clears every counter.
    pub fn reset(&mut self)
        ensures
            *final(self) == History::spec_default(),
    {
        self.total_agents_ever_purchased = 0;
        self.total_fees_spent = 0;
        self.total_yield_claimed = 0;
        self.total_referral_earnings_ever = 0;
    }

    /// (purchases, fees, yield, referral earnings, lifetime value).
    pub fn get_summary(&self) -> (r: TYieldResult<(u64, u64, u64, u64, u64)>)
        ensures
            r == (if self.total_agents_ever_purchased + self.total_yield_claimed
                + self.total_referral_earnings_ever <= u64::MAX {
                Ok(
                    (
                        self.total_agents_ever_purchased,
                        self.total_fees_spent,
                        self.total_yield_claimed,
                        self.total_referral_earnings_ever,
                        (self.total_agents_ever_purchased + self.total_yield_claimed
                            + self.total_referral_earnings_ever) as u64,
                    ),
                )
            } else {
                Err::<(u64, u64, u64, u64, u64), ErrorCode>(ErrorCode::MathError)
            }),
    {
        let total_value = self.get_total_lifetime_value()?;
        Ok(
            (
                self.total_agents_ever_purchased,
                self.total_fees_spent,
                self.total_yield_claimed,
                self.total_referral_earnings_ever,
                total_value,
            ),
        )
    }
}


/// The on-chain account of a user.
#[derive(Clone, Copy, PartialEq, Eq, Debug)]
pub struct User {
    pub authority: Pubkey,
    pub delegate: Pubkey,
    pub referrer: Pubkey,
    pub history: History,
    pub total_agents_purchased: u64,
    pub total_unclaimed_yield: u64,
    pub updated_at: i64,
    pub created_at: i64,
    pub total_agents_owned: u32,
    pub name: [u8; 15],
    pub status: u8,
    pub idle: bool,
    pub bump: u8,
    pub _padding: [u8; 7],
}

/// Whether every byte of a name is zero.
pub open spec fn name_is_blank(name: Seq<u8>) -> bool {
    forall|i: int| 0 <= i < name.len() ==> name[i] == 0
}

/// Whether every byte of a name is zero.
fn blank_name(name: &[u8; 15]) -> (r: bool)
    ensures
        r == name_is_blank(name@),
{
    let mut i: usize = 0;
    while i < 15
        invariant
            0 <= i <= 15,
            forall|j: int| 0 <= j < i ==> name@[j] == 0,
        decreases 15 - i,
    {
        if name[i] != 0 {
            return false;
        }
        i = i + 1;
    }
    true
}

/// Whether the difference of two timestamps fits an `i64`.
pub open spec fn diff_fits_i64(a: i64, b: i64) -> bool {
    i64::MIN <= a - b <= i64::MAX
}

/// Whole days between `from` and `to` (rounded toward zero), refusing
/// non-positive timestamps with `InvalidAccount` and an overflowing difference
/// with `MathError`.
pub open spec fn days_between_checked(to: i64, from: i64) -> Result<i64, ErrorCode> {
    if to <= 0 || from <= 0 {
        Err(ErrorCode::InvalidAccount)
    } else if !diff_fits_i64(to, from) {
        Err(ErrorCode::MathError)
    } else {
        Ok(trunc_div(to - from, SECONDS_PER_DAY as int) as i64)
    }
}

/// The display text of a set of status flags, in the order Active, Banned,
/// Whitelisted, joined by ", "; "None" when no flag is set.
pub open spec fn status_string_of(s: u8) -> Seq<char> {
    let a = status_has(s, UserStatus::Active);
    let b = status_has(s, UserStatus::Banned);
    let w = status_has(s, UserStatus::WithListed);
    let parts = (if a { seq!["Active"@] } else { Seq::<Seq<char>>::empty() }) + (if b {
        seq!["Banned"@]
    } else {
        Seq::<Seq<char>>::empty()
    }) + (if w { seq!["Whitelisted"@] } else { Seq::<Seq<char>>::empty() });
    if parts.len() == 0 {
        "None"@
    } else {
        join_with_comma(parts)
    }
}

/// The parts joined by ", ".
pub open spec fn join_with_comma(parts: Seq<Seq<char>>) -> Seq<char>
    decreases parts.len(),
{
    if parts.len() == 0 {
        Seq::empty()
    } else if parts.len() == 1 {
        parts[0]
    } else {
        join_with_comma(parts.drop_last()) + ", "@ + parts.last()
    }
}

/// The flags set in a status byte, in the order Active, Banned, WithListed.
pub open spec fn status_flags_of(s: u8) -> Seq<UserStatus> {
    (if status_has(s, UserStatus::Active) {
        seq![UserStatus::Active]
    } else {
        Seq::<UserStatus>::empty()
    }) + (if status_has(s, UserStatus::Banned) {
        seq![UserStatus::Banned]
    } else {
        Seq::<UserStatus>::empty()
    }) + (if status_has(s, UserStatus::WithListed) {
        seq![UserStatus::WithListed]
    } else {
        Seq::<UserStatus>::empty()
    })
}

/// What `add_user_status` makes of a status byte: `None` when the flag cannot
/// be added (activating a banned user).
pub open spec fn status_after_add(s: u8, status: UserStatus) -> Option<u8> {
    match status {
        UserStatus::Active => if status_has(s, UserStatus::Banned) {
            None
        } else {
            Some(s | 1u8)
        },
        UserStatus::Banned => Some((s & !1u8) | 2u8),
        UserStatus::WithListed => Some(s | 4u8),
    }
}

/// A ban sticks: a banned user cannot be made active, adding any status
/// keeps the ban, and banning clears the active flag.
pub proof fn lemma_ban_sticks(s: u8, status: UserStatus)
    ensures
        status_has(s, UserStatus::Banned) ==> status_after_add(s, UserStatus::Active) is None,
        status_has(s, UserStatus::Banned) && status_after_add(s, status) is Some ==> status_has(
            status_after_add(s, status)->Some_0,
            UserStatus::Banned,
        ),
        status_has(status_after_add(s, UserStatus::Banned)->Some_0, UserStatus::Banned),
        !status_has(status_after_add(s, UserStatus::Banned)->Some_0, UserStatus::Active),
{
    assert(s & 2u8 != 0u8 ==> (s | 4u8) & 2u8 != 0u8) by (bit_vector);
    assert(((s & !1u8) | 2u8) & 2u8 != 0u8) by (bit_vector);
    assert(((s & !1u8) | 2u8) & 1u8 == 0u8) by (bit_vector);
}

impl Default for User {
    fn default() -> (r: User)
        ensures
            r.is_fresh(),
    {
        let u = User {
            authority: Pubkey::default(),
            delegate: Pubkey::default(),
            name: [0;15],
            total_agents_owned: 0,
            total_agents_purchased: 0,
            total_unclaimed_yield: 0,
            status: 2,
            idle: false,
            referrer: Pubkey::default(),
            history: History::default(),
            updated_at: 0,
            created_at: 0,
            bump: 0,
            _padding: [0;7],
        };
        assert(u.name@ =~= Seq::new(15, |i: int| 0u8));
        assert(u._padding@ =~= Seq::new(7, |i: int| 0u8));
        u
    }
}

impl User {
    /// The all-zero record a newly created user account holds.
    pub open spec fn spec_zeroed() -> User {
        User {
            authority: Pubkey::spec_default(),
            delegate: Pubkey::spec_default(),
            referrer: Pubkey::spec_default(),
            history: History::spec_default(),
            total_agents_purchased: 0,
            total_unclaimed_yield: 0,
            updated_at: 0,
            created_at: 0,
            total_agents_owned: 0,
            name: spec_array_fill_for_copy_type(0u8),
            status: 0,
            idle: false,
            bump: 0,
            _padding: spec_array_fill_for_copy_type(0u8),
        }
    }

    /// The all-zero record a newly created user account holds.
    pub fn zeroed() -> (r: User)
        ensures
            r == User::spec_zeroed(),
    {
        User {
            authority: Pubkey::default(),
            delegate: Pubkey::default(),
            referrer: Pubkey::default(),
            history: History::default(),
            total_agents_purchased: 0,
            total_unclaimed_yield: 0,
            updated_at: 0,
            created_at: 0,
            total_agents_owned: 0,
            name: [0u8; 15],
            status: 0,
            idle: false,
            bump: 0,
            _padding: [0u8; 7],
        }
    }
}

impl User {
    /// A fresh user: every key unset, every counter zero, a blank name, and
    /// banned.
    pub open spec fn is_fresh(self) -> bool {
        &&& self.authority == Pubkey::spec_default()
        &&& self.delegate == Pubkey::spec_default()
        &&& self.referrer == Pubkey::spec_default()
        &&& self.name@ == Seq::new(15, |i: int| 0u8)
        &&& self.total_agents_owned == 0
        &&& self.total_agents_purchased == 0
        &&& self.total_unclaimed_yield == 0
        &&& self.status == 2
        &&& !self.idle
        &&& self.history == History::spec_default()
        &&& self.updated_at == 0
        &&& self.created_at == 0
        &&& self.bump == 0
        &&& self._padding@ == Seq::new(7, |i: int| 0u8)
    }

    /// Adds a status flag. Activating a banned user is refused with
    /// `CannotPerformAction`; banning also clears the active flag.
    pub fn add_user_status(&mut self, status: UserStatus) -> (r: TYieldResult<()>)
        ensures
            status_after_add(old(self).status, status) matches Some(s) ==> r == Ok::<
                (),
                ErrorCode,
            >(()) && *final(self) == (User { status: s, ..*old(self) }),
            status_after_add(old(self).status, status) is None ==> r == Err::<(), ErrorCode>(
                ErrorCode::CannotPerformAction,
            ) && *final(self) == *old(self),
    {
        match status {
            UserStatus::Active => {
                if self.has_status(UserStatus::Banned) {
                    return Err(ErrorCode::CannotPerformAction);
                }
            },
            UserStatus::Banned => {
                self.status = self.status & !1u8;
            },
            UserStatus::WithListed => {},
        }
        self.status = self.status | status.bits();
        Ok(())
    }

    /// Removes a status flag; always succeeds.
    pub fn remove_user_status(&mut self, status: UserStatus) -> (r: TYieldResult<()>)
        ensures
            r == Ok::<(), ErrorCode>(()),
            *final(self) == (User { status: old(self).status & !status_bit(status), ..*old(self) }),
    {
        self.status = self.status & !status.bits();
        Ok(())
    }

    /// Whether the user carries a status flag.
    pub fn has_status(&self, status: UserStatus) -> (r: bool)
        ensures
            r == status_has(self.status, status),
    {
        (self.status & status.bits()) != 0
    }

    /// Whether the user is active.
    pub fn is_active(&self) -> (r: bool)
        ensures
            r == status_has(self.status, UserStatus::Active),
    {
        self.has_status(UserStatus::Active)
    }

    /// Whether the user is banned.
    pub fn is_banned(&self) -> (r: bool)
        ensures
            r == status_has(self.status, UserStatus::Banned),
    {
        self.has_status(UserStatus::Banned)
    }

    /// Whether the user is whitelisted.
    pub fn is_whitelisted(&self) -> (r: bool)
        ensures
            r == status_has(self.status, UserStatus::WithListed),
    {
        self.has_status(UserStatus::WithListed)
    }

    /// Bans the user: clears the active flag and sets the banned flag.
    pub fn ban_user(&mut self) -> (r: TYieldResult<()>)
        ensures
            r == Ok::<(), ErrorCode>(()),
            *final(self) == (User { status: (old(self).status & !1u8) | 2u8, ..*old(self) }),
            status_has(final(self).status, UserStatus::Banned),
            !status_has(final(self).status, UserStatus::Active),
    {
        self.remove_user_status(UserStatus::Active)?;
        self.add_user_status(UserStatus::Banned)?;
        proof {
            let s = old(self).status;
            assert((((s & !1u8) & !1u8) | 2u8) == ((s & !1u8) | 2u8)) by (bit_vector);
            assert((((s & !1u8) | 2u8) & 2u8) != 0u8) by (bit_vector);
            assert((((s & !1u8) | 2u8) & 1u8) == 0u8) by (bit_vector);
        }
        Ok(())
    }

    /// Lifts a ban: clears the banned flag and sets the active flag.
    pub fn un_ban_user(&mut self) -> (r: TYieldResult<()>)
        ensures
            r == Ok::<(), ErrorCode>(()),
            *final(self) == (User { status: (old(self).status & !2u8) | 1u8, ..*old(self) }),
            status_has(final(self).status, UserStatus::Active),
            !status_has(final(self).status, UserStatus::Banned),
    {
        self.remove_user_status(UserStatus::Banned)?;
        proof {
            let s = old(self).status;
            assert(((s & !2u8) & 2u8) == 0u8) by (bit_vector);
        }
        self.add_user_status(UserStatus::Active)?;
        proof {
            let s = old(self).status;
            assert((((s & !2u8) | 1u8) & 1u8) != 0u8) by (bit_vector);
            assert((((s & !2u8) | 1u8) & 2u8) == 0u8) by (bit_vector);
        }
        Ok(())
    }

    /// Sets the whitelisted flag.
    pub fn whitelist_user(&mut self) -> (r: TYieldResult<()>)
        ensures
            r == Ok::<(), ErrorCode>(()),
            *final(self) == (User { status: old(self).status | 4u8, ..*old(self) }),
    {
        self.add_user_status(UserStatus::WithListed)
    }

    /// Clears the whitelisted flag.
    pub fn remove_whitelist_user(&mut self) -> (r: TYieldResult<()>)
        ensures
            r == Ok::<(), ErrorCode>(()),
            *final(self) == (User { status: old(self).status & !4u8, ..*old(self) }),
    {
        self.remove_user_status(UserStatus::WithListed)
    }

    /// Adds `amount` to the unclaimed yield; zero and overflow are refused with
    /// `MathError`.
    pub fn add_unclaimed_yield(&mut self, amount: u64) -> (r: TYieldResult<()>)
        ensures
            add_positive(old(self).total_unclaimed_yield, amount) matches Ok(v) ==> r == Ok::<
                (),
                ErrorCode,
            >(()) && *final(self) == (User { total_unclaimed_yield: v, ..*old(self) }),
            add_positive(old(self).total_unclaimed_yield, amount) matches Err(e) ==> r == Err::<
                (),
                ErrorCode,
            >(e) && *final(self) == *old(self),
    {
        if amount == 0 {
            return Err(ErrorCode::MathError);
        }
        self.total_unclaimed_yield = self.total_unclaimed_yield.safe_add(amount)?;
        Ok(())
    }

    /// Moves `amount` from unclaimed yield to claimed yield. Zero is refused with
    /// `MathError`, more than the unclaimed yield with `InsufficientFunds`, and a
    /// claimed total past `u64::MAX` with `MathError` (the user is then left
    /// unchanged).
    pub fn claim_yield(&mut self, amount: u64) -> (r: TYieldResult<()>)
        ensures
            amount == 0 ==> r == Err::<(), ErrorCode>(ErrorCode::MathError) && *final(self)
                == *old(self),
            amount > old(self).total_unclaimed_yield && amount != 0 ==> r == Err::<(), ErrorCode>(
                ErrorCode::InsufficientFunds,
            ) && *final(self) == *old(self),
            0 < amount <= old(self).total_unclaimed_yield && old(self).history.total_yield_claimed
                + amount > u64::MAX ==> r == Err::<(), ErrorCode>(ErrorCode::MathError)
                && final(self).history == old(self).history,
            0 < amount <= old(self).total_unclaimed_yield && old(self).history.total_yield_claimed
                + amount <= u64::MAX ==> r == Ok::<(), ErrorCode>(()) && *final(self) == (User {
                total_unclaimed_yield: (old(self).total_unclaimed_yield - amount) as u64,
                history: History {
                    total_yield_claimed: (old(self).history.total_yield_claimed + amount) as u64,
                    ..old(self).history
                },
                ..*old(self)
            }),
    {
        if amount == 0 {
            return Err(ErrorCode::MathError);
        }
        if amount > self.total_unclaimed_yield {
            return Err(ErrorCode::InsufficientFunds);
        }
        let new_claimed = self.history.total_yield_claimed.safe_add(amount)?;
        self.total_unclaimed_yield = self.total_unclaimed_yield.safe_sub(amount)?;
        self.history.total_yield_claimed = new_claimed;
        Ok(())
    }

    /// The yield the user can claim.
    pub fn get_claimable_yield(&self) -> (r: u64)
        ensures
            r == self.total_unclaimed_yield,
    {
        self.total_unclaimed_yield
    }

    /// Records an agent bought for `agent_value`: one more agent owned, and the
    /// value added to the purchase totals. Zero value and overflow are refused
    /// with `MathError`, and the user is then left unchanged.
    pub fn add_agent(&mut self, agent_value: u64) -> (r: TYieldResult<()>)
        ensures
            (agent_value == 0 || old(self).total_agents_owned + 1 > u32::MAX
                || old(self).total_agents_purchased + agent_value > u64::MAX
                || old(self).history.total_agents_ever_purchased + agent_value > u64::MAX) ==> r
                == Err::<(), ErrorCode>(ErrorCode::MathError) && *final(self) == *old(self),
            !(agent_value == 0 || old(self).total_agents_owned + 1 > u32::MAX
                || old(self).total_agents_purchased + agent_value > u64::MAX
                || old(self).history.total_agents_ever_purchased + agent_value > u64::MAX) ==> r
                == Ok::<(), ErrorCode>(()) && *final(self) == (User {
                total_agents_owned: (old(self).total_agents_owned + 1) as u32,
                total_agents_purchased: (old(self).total_agents_purchased + agent_value) as u64,
                history: History {
                    total_agents_ever_purchased: (old(self).history.total_agents_ever_purchased
                        + agent_value) as u64,
                    ..old(self).history
                },
                ..*old(self)
            }),
    {
        if agent_value == 0 {
            return Err(ErrorCode::MathError);
        }
        let owned = self.total_agents_owned.safe_add(1)?;
        let purchased = self.total_agents_purchased.safe_add(agent_value)?;
        let ever = self.history.total_agents_ever_purchased.safe_add(agent_value)?;
        self.total_agents_owned = owned;
        self.total_agents_purchased = purchased;
        self.history.total_agents_ever_purchased = ever;
        Ok(())
    }

    /// Records an agent given up: one agent fewer, refused with
    /// `InsufficientFunds` when none is owned. The value is not used.
    pub fn remove_agent(&mut self, _agent_value: u64) -> (r: TYieldResult<()>)
        ensures
            old(self).total_agents_owned == 0 ==> r == Err::<(), ErrorCode>(
                ErrorCode::InsufficientFunds,
            ) && *final(self) == *old(self),
            old(self).total_agents_owned > 0 ==> r == Ok::<(), ErrorCode>(()) && *final(self) == (
            User { total_agents_owned: (old(self).total_agents_owned - 1) as u32, ..*old(self) }),
    {
        if self.total_agents_owned == 0 {
            return Err(ErrorCode::InsufficientFunds);
        }
        self.total_agents_owned = self.total_agents_owned.safe_sub(1)?;
        Ok(())
    }

    /// Number of agents owned.
    pub fn get_agent_count(&self) -> (r: u32)
        ensures
            r == self.total_agents_owned,
    {
        self.total_agents_owned
    }

    /// Total value of agents purchased.
    pub fn get_total_agents_purchased(&self) -> (r: u64)
        ensures
            r == self.total_agents_purchased,
    {
        self.total_agents_purchased
    }

    /// Adds `fees` to the fees spent; zero and overflow are refused with
    /// `MathError`.
    pub fn add_fees_spent(&mut self, fees: u64) -> (r: TYieldResult<()>)
        ensures
            add_positive(old(self).history.total_fees_spent, fees) matches Ok(v) ==> r == Ok::<
                (),
                ErrorCode,
            >(()) && *final(self) == (User {
                history: History { total_fees_spent: v, ..old(self).history },
                ..*old(self)
            }),
            add_positive(old(self).history.total_fees_spent, fees) matches Err(e) ==> r == Err::<
                (),
                ErrorCode,
            >(e) && *final(self) == *old(self),
    {
        if fees == 0 {
            return Err(ErrorCode::MathError);
        }
        self.history.total_fees_spent = self.history.total_fees_spent.safe_add(fees)?;
        Ok(())
    }

    /// Total fees spent.
    pub fn get_total_fees_spent(&self) -> (r: u64)
        ensures
            r == self.history.total_fees_spent,
    {
        self.history.total_fees_spent
    }

    /// Adds `earnings` to the referral earnings; zero and overflow are refused
    /// with `MathError`.
    pub fn add_referral_earnings(&mut self, earnings: u64) -> (r: TYieldResult<()>)
        ensures
            add_positive(old(self).history.total_referral_earnings_ever, earnings) matches Ok(v)
                ==> r == Ok::<(), ErrorCode>(()) && *final(self) == (User {
                history: History { total_referral_earnings_ever: v, ..old(self).history },
                ..*old(self)
            }),
            add_positive(old(self).history.total_referral_earnings_ever, earnings) matches Err(e)
                ==> r == Err::<(), ErrorCode>(e) && *final(self) == *old(self),
    {
        if earnings == 0 {
            return Err(ErrorCode::MathError);
        }
        self.history.total_referral_earnings_ever = self.history.total_referral_earnings_ever.safe_add(
            earnings,
        )?;
        Ok(())
    }

    /// Total referral earnings.
    pub fn get_total_referral_earnings(&self) -> (r: u64)
        ensures
            r == self.history.total_referral_earnings_ever,
    {
        self.history.total_referral_earnings_ever
    }

    /// Whether a referrer is set.
    pub fn has_referrer(&self) -> (r: bool)
        ensures
            r == (self.referrer != Pubkey::spec_default()),
    {
        !self.referrer.is_default()
    }

    /// Sets the referrer once. The unset key, the user's own authority, and a
    /// second referrer are refused with `InvalidReferrer`.
    pub fn set_referrer(&mut self, referrer: Pubkey) -> (r: TYieldResult<()>)
        ensures
            (referrer == Pubkey::spec_default() || referrer == old(self).authority
                || old(self).referrer != Pubkey::spec_default()) ==> r == Err::<(), ErrorCode>(
                ErrorCode::InvalidReferrer,
            ) && *final(self) == *old(self),
            !(referrer == Pubkey::spec_default() || referrer == old(self).authority
                || old(self).referrer != Pubkey::spec_default()) ==> r == Ok::<(), ErrorCode>(())
                && *final(self) == (User { referrer, ..*old(self) }),
    {
        if referrer.is_default() {
            return Err(ErrorCode::InvalidReferrer);
        }
        if referrer == self.authority {
            return Err(ErrorCode::InvalidReferrer);
        }
        if self.has_referrer() {
            return Err(ErrorCode::InvalidReferrer);
        }
        self.referrer = referrer;
        Ok(())
    }

    /// Records activity at `current_time` and clears the idle flag. A
    /// non-positive time, a time before creation, or a time before the last
    /// recorded activity is refused with `InvalidAccount`.
    pub fn update_last_activity(&mut self, current_time: i64) -> (r: TYieldResult<()>)
        ensures
            (current_time <= 0 || current_time < old(self).created_at || (old(self).updated_at > 0
                && current_time < old(self).updated_at)) ==> r == Err::<(), ErrorCode>(
                ErrorCode::InvalidAccount,
            ) && *final(self) == *old(self),
            !(current_time <= 0 || current_time < old(self).created_at || (old(self).updated_at > 0
                && current_time < old(self).updated_at)) ==> r == Ok::<(), ErrorCode>(())
                && *final(self) == (User { updated_at: current_time, idle: false, ..*old(self) }),
    {
        if current_time <= 0 {
            return Err(ErrorCode::InvalidAccount);
        }
        if current_time < self.created_at {
            return Err(ErrorCode::InvalidAccount);
        }
        if self.updated_at > 0 && current_time < self.updated_at {
            return Err(ErrorCode::InvalidAccount);
        }
        self.updated_at = current_time;
        self.idle = false;
        Ok(())
    }

    /// Sets the idle flag: the user is idle when more than `idle_threshold`
    /// seconds passed since the last activity. A non-positive time or a negative
    /// threshold is refused with `InvalidAccount`.
    pub fn check_idle_status(&mut self, current_time: i64, idle_threshold: i64) -> (r: TYieldResult<
        (),
    >)
        ensures
            (current_time <= 0 || idle_threshold < 0) ==> r == Err::<(), ErrorCode>(
                ErrorCode::InvalidAccount,
            ) && *final(self) == *old(self),
            !(current_time <= 0 || idle_threshold < 0) && !diff_fits_i64(
                current_time,
                old(self).updated_at,
            ) ==> r == Err::<(), ErrorCode>(ErrorCode::MathError) && *final(self) == *old(self),
            !(current_time <= 0 || idle_threshold < 0) && diff_fits_i64(
                current_time,
                old(self).updated_at,
            ) ==> r == Ok::<(), ErrorCode>(()) && *final(self) == (User {
                idle: current_time - old(self).updated_at > idle_threshold,
                ..*old(self)
            }),
    {
        if current_time <= 0 {
            return Err(ErrorCode::InvalidAccount);
        }
        if idle_threshold < 0 {
            return Err(ErrorCode::InvalidAccount);
        }
        let time_since_last_activity = current_time.safe_sub(self.updated_at)?;
        self.idle = time_since_last_activity > idle_threshold;
        Ok(())
    }

    /// Whether the user was found idle.
    pub fn is_idle(&self) -> (r: bool)
        ensures
            r == self.idle,
    {
        self.idle
    }

    /// Whole days since the account was created.
    pub fn get_days_since_created(&self, current_time: i64) -> (r: TYieldResult<i64>)
        ensures
            r == days_between_checked(current_time, self.created_at),
    {
        if current_time <= 0 {
            return Err(ErrorCode::InvalidAccount);
        }
        if self.created_at <= 0 {
            return Err(ErrorCode::InvalidAccount);
        }
        let time_diff = current_time.safe_sub(self.created_at)?;
        Ok(time_diff / SECONDS_PER_DAY)
    }

    /// Whole days since the last recorded activity.
    pub fn get_days_since_updated(&self, current_time: i64) -> (r: TYieldResult<i64>)
        ensures
            r == days_between_checked(current_time, self.updated_at),
    {
        if current_time <= 0 {
            return Err(ErrorCode::InvalidAccount);
        }
        if self.updated_at <= 0 {
            return Err(ErrorCode::InvalidAccount);
        }
        let time_diff = current_time.safe_sub(self.updated_at)?;
        Ok(time_diff / SECONDS_PER_DAY)
    }

    /// Sets the display name; a name of only zero bytes is refused with
    /// `InvalidAccount`.
    pub fn set_name(&mut self, name: [u8; 15]) -> (r: TYieldResult<()>)
        ensures
            name_is_blank(name@) ==> r == Err::<(), ErrorCode>(ErrorCode::InvalidAccount)
                && *final(self) == *old(self),
            !name_is_blank(name@) ==> r == Ok::<(), ErrorCode>(()) && *final(self) == (User {
                name,
                ..*old(self)
            }),
    {
        if blank_name(&name) {
            return Err(ErrorCode::InvalidAccount);
        }
        self.name = name;
        Ok(())
    }

    /// The display name bytes.
    pub fn get_name(&self) -> (r: [u8; 15])
        ensures
            r == self.name,
    {
        self.name
    }

    /// The display name as text, without leading or trailing zero bytes.
    pub fn get_name_string(&self) -> (r: String)
        ensures
            r@ == spec_utf8_lossy(trim_zeros(self.name@)),
    {
        let trimmed = trim_zero_bytes(self.name.as_slice());
        utf8_lossy(trimmed.as_slice())
    }

    /// Sets the delegate; the user's own authority is refused with
    /// `InvalidDelegate`.
    pub fn set_delegate(&mut self, delegate: Pubkey) -> (r: TYieldResult<()>)
        ensures
            delegate == old(self).authority ==> r == Err::<(), ErrorCode>(
                ErrorCode::InvalidDelegate,
            ) && *final(self) == *old(self),
            delegate != old(self).authority ==> r == Ok::<(), ErrorCode>(()) && *final(self) == (
            User { delegate, ..*old(self) }),
    {
        if delegate == self.authority {
            return Err(ErrorCode::InvalidDelegate);
        }
        self.delegate = delegate;
        Ok(())
    }

    /// The delegate.
    pub fn get_delegate(&self) -> (r: Pubkey)
        ensures
            r == self.delegate,
    {
        self.delegate
    }

    /// Whether a delegate is set.
    pub fn has_delegate(&self) -> (r: bool)
        ensures
            r == (self.delegate != Pubkey::spec_default()),
    {
        !self.delegate.is_default()
    }

    /// Unsets the delegate.
    pub fn clear_delegate(&mut self)
        ensures
            *final(self) == (User { delegate: Pubkey::spec_default(), ..*old(self) }),
    {
        self.delegate = Pubkey::default();
    }

    /// The status flags the user carries, in the order Active, Banned,
    /// WithListed.
    pub fn get_status_flags(&self) -> (r: Vec<UserStatus>)
        ensures
            r@ == status_flags_of(self.status),
    {
        let mut flags: Vec<UserStatus> = Vec::new();
        if self.has_status(UserStatus::Active) {
            flags.push(UserStatus::Active);
        }
        if self.has_status(UserStatus::Banned) {
            flags.push(UserStatus::Banned);
        }
        if self.has_status(UserStatus::WithListed) {
            flags.push(UserStatus::WithListed);
        }
        assert(flags@ =~= status_flags_of(self.status));
        flags
    }

    /// The status flags as text: "Active", "Banned", "Whitelisted" joined by
    /// ", ", or "None".
    pub fn get_status_string(&self) -> (r: String)
        ensures
            r@ == status_string_of(self.status),
    {
        let a = self.has_status(UserStatus::Active);
        let b = self.has_status(UserStatus::Banned);
        let w = self.has_status(UserStatus::WithListed);
        let ghost parts = (if a { seq!["Active"@] } else { Seq::<Seq<char>>::empty() }) + (if b {
            seq!["Banned"@]
        } else {
            Seq::<Seq<char>>::empty()
        }) + (if w { seq!["Whitelisted"@] } else { Seq::<Seq<char>>::empty() });
        if !a && !b && !w {
            assert(parts =~= Seq::<Seq<char>>::empty());
            return String::from_str("None");
        }
        let mut out = String::new();
        let mut first = true;
        let ghost mut done: Seq<Seq<char>> = Seq::empty();
        if a {
            out.append("Active");
            first = false;
            proof {
                done = done.push("Active"@);
                assert(join_with_comma(done) == "Active"@);
            }
            assert(out@ =~= join_with_comma(done));
        }
        if b {
            if !first {
                out.append(", ");
            }
            out.append("Banned");
            proof {
                let prev = done;
                done = done.push("Banned"@);
                assert(done.drop_last() =~= prev);
                if prev.len() == 0 {
                    assert(out@ =~= "Banned"@);
                }
            }
            first = false;
            assert(out@ =~= join_with_comma(done));
        }
        if w {
            if !first {
                out.append(", ");
            }
            out.append("Whitelisted");
            proof {
                let prev = done;
                done = done.push("Whitelisted"@);
                assert(done.drop_last() =~= prev);
                if prev.len() == 0 {
                    assert(out@ =~= "Whitelisted"@);
                }
            }
            assert(out@ =~= join_with_comma(done));
        }
        assert(done =~= parts);
        out
    }

    /// What `validate_user` answers: the account is set up (authority,
    /// creation and update times), the delegate and the referrer are not the
    /// user, and the name is not blank.
    pub open spec fn validity(self) -> Result<(), ErrorCode> {
        if self.authority == Pubkey::spec_default() || self.created_at <= 0
            || self.updated_at < self.created_at {
            Err::<(), ErrorCode>(ErrorCode::InvalidAccount)
        } else if self.delegate != Pubkey::spec_default() && self.delegate == self.authority {
            Err::<(), ErrorCode>(ErrorCode::InvalidDelegate)
        } else if self.referrer != Pubkey::spec_default() && self.referrer == self.authority {
            Err::<(), ErrorCode>(ErrorCode::InvalidReferrer)
        } else if name_is_blank(self.name@) {
            Err::<(), ErrorCode>(ErrorCode::InvalidAccount)
        } else {
            Ok::<(), ErrorCode>(())
        }
    }

    /// Checks the account: authority set, positive creation time, activity not
    /// before creation, delegate and referrer different from the authority, and
    /// a name that is not blank.
    pub fn validate_user(&self) -> (r: TYieldResult<()>)
        ensures
            r == self.validity(),
    {
        if self.authority.is_default() {
            return Err(ErrorCode::InvalidAccount);
        }
        if self.created_at <= 0 {
            return Err(ErrorCode::InvalidAccount);
        }
        if self.updated_at < self.created_at {
            return Err(ErrorCode::InvalidAccount);
        }
        if self.has_delegate() && self.delegate == self.authority {
            return Err(ErrorCode::InvalidDelegate);
        }
        if self.has_referrer() && self.referrer == self.authority {
            return Err(ErrorCode::InvalidReferrer);
        }
        if blank_name(&self.name) {
            return Err(ErrorCode::InvalidAccount);
        }
        Ok(())
    }

    /// Whether the user may act: active and not banned.
    pub fn can_perform_actions(&self) -> (r: bool)
        ensures
            r == (status_has(self.status, UserStatus::Active) && !status_has(
                self.status,
                UserStatus::Banned,
            )),
    {
        self.is_active() && !self.is_banned()
    }

    /// Total yield claimed.
    pub fn get_total_yield_ever_claimed(&self) -> (r: u64)
        ensures
            r == self.history.total_yield_claimed,
    {
        self.history.total_yield_claimed
    }

    /// Unclaimed plus claimed yield.
    pub fn get_lifetime_yield_earned(&self) -> (r: TYieldResult<u64>)
        ensures
            r == (if self.total_unclaimed_yield + self.history.total_yield_claimed <= u64::MAX {
                Ok((self.total_unclaimed_yield + self.history.total_yield_claimed) as u64)
            } else {
                Err::<u64, ErrorCode>(ErrorCode::MathError)
            }),
    {
        self.total_unclaimed_yield.safe_add(self.history.total_yield_claimed)
    }

    /// Yield claimed per unit of agents purchased, in quote precision.
    pub fn get_yield_claim_rate(&self) -> (r: TYieldResult<u64>)
        ensures
            r == quote_ratio(
                self.history.total_yield_claimed,
                self.history.total_agents_ever_purchased,
            ),
    {
        if self.history.total_agents_ever_purchased == 0 {
            return Ok(0);
        }
        let numerator = self.history.total_yield_claimed.safe_mul(QUOTE_PRECISION_U64)?;
        numerator.safe_div(self.history.total_agents_ever_purchased)
    }

    /// Zeroes the unclaimed and claimed yield.
    pub fn reset_yield(&mut self)
        ensures
            *final(self) == (User {
                total_unclaimed_yield: 0,
                history: History { total_yield_claimed: 0, ..old(self).history },
                ..*old(self)
            }),
    {
        self.total_unclaimed_yield = 0;
        self.history.total_yield_claimed = 0;
    }

    /// Zeroes the agent counters.
    pub fn reset_agents(&mut self)
        ensures
            *final(self) == (User {
                total_agents_owned: 0,
                total_agents_purchased: 0,
                history: History { total_agents_ever_purchased: 0, ..old(self).history },
                ..*old(self)
            }),
    {
        self.total_agents_owned = 0;
        self.total_agents_purchased = 0;
        self.history.total_agents_ever_purchased = 0;
    }

    /// Zeroes the fees spent.
    pub fn reset_fees(&mut self)
        ensures
            *final(self) == (User {
                history: History { total_fees_spent: 0, ..old(self).history },
                ..*old(self)
            }),
    {
        self.history.total_fees_spent = 0;
    }

    /// Zeroes the referral earnings.
    pub fn reset_referral_earnings(&mut self)
        ensures
            *final(self) == (User {
                history: History { total_referral_earnings_ever: 0, ..old(self).history },
                ..*old(self)
            }),
    {
        self.history.total_referral_earnings_ever = 0;
    }
}

/// Referral totals kept for one referrer.
#[derive(Clone, Copy, PartialEq, Eq, Debug)]
pub struct ReferralRegistry {
    pub referrer: Pubkey,
    pub total_referral_earnings: u64,
    /// Earnings not yet claimed.
    pub total_referral_earnings_uc: u64,
    pub total_referred_users: u32,
    pub created_at: i64,
    pub updated_at: i64,
    pub last_earning_claim: i64,
    pub bump: u8,
    pub _padding: [u8; 7],
}

impl Default for ReferralRegistry {
    fn default() -> (r: ReferralRegistry)
        ensures
            r.referrer == Pubkey::spec_default(),
            r.total_referral_earnings == 0,
            r.total_referral_earnings_uc == 0,
            r.total_referred_users == 0,
            r.created_at == 0,
            r.updated_at == 0,
            r.last_earning_claim == 0,
            r.bump == 0,
            r._padding@ == Seq::new(7, |i: int| 0u8),
    {
        let r = ReferralRegistry {
            referrer: Pubkey::default(),
            total_referral_earnings: 0,
            total_referral_earnings_uc: 0,
            total_referred_users: 0,
            created_at: 0,
            updated_at: 0,
            last_earning_claim: 0,
            bump: 0,
            _padding: [0;7],
        };
        assert(r._padding@ =~= Seq::new(7, |i: int| 0u8));
        r
    }
}

/// `total / users`, zero when there are no users.
pub open spec fn per_user(total: u64, users: u32) -> u64 {
    if users == 0 {
        0
    } else {
        (total / (users as u64)) as u64
    }
}

impl ReferralRegistry {
    /// Adds claimed earnings; zero and overflow are refused with `MathError`.
    pub fn add_referral_earnings(&mut self, earnings: u64) -> (r: TYieldResult<()>)
        ensures
            add_positive(old(self).total_referral_earnings, earnings) matches Ok(v) ==> r == Ok::<
                (),
                ErrorCode,
            >(()) && *final(self) == (ReferralRegistry {
                total_referral_earnings: v,
                ..*old(self)
            }),
            add_positive(old(self).total_referral_earnings, earnings) matches Err(e) ==> r == Err::<
                (),
                ErrorCode,
            >(e) && *final(self) == *old(self),
    {
        if earnings == 0 {
            return Err(ErrorCode::MathError);
        }
        self.total_referral_earnings = self.total_referral_earnings.safe_add(earnings)?;
        Ok(())
    }

    /// Adds unclaimed earnings; zero and overflow are refused with `MathError`.
    pub fn add_unclaimed_referral_earnings(&mut self, earnings: u64) -> (r: TYieldResult<()>)
        ensures
            add_positive(old(self).total_referral_earnings_uc, earnings) matches Ok(v) ==> r
                == Ok::<(), ErrorCode>(()) && *final(self) == (ReferralRegistry {
                total_referral_earnings_uc: v,
                ..*old(self)
            }),
            add_positive(old(self).total_referral_earnings_uc, earnings) matches Err(e) ==> r
                == Err::<(), ErrorCode>(e) && *final(self) == *old(self),
    {
        if earnings == 0 {
            return Err(ErrorCode::MathError);
        }
        self.total_referral_earnings_uc = self.total_referral_earnings_uc.safe_add(earnings)?;
        Ok(())
    }

    /// Moves `amount` from unclaimed to claimed earnings. Zero is refused with
    /// `MathError`, more than is unclaimed with `InsufficientFunds`, and a claimed
    /// total past `u64::MAX` with `MathError`.
    pub fn claim_referral_earnings(&mut self, amount: u64) -> (r: TYieldResult<()>)
        ensures
            amount == 0 ==> r == Err::<(), ErrorCode>(ErrorCode::MathError) && *final(self)
                == *old(self),
            amount > old(self).total_referral_earnings_uc && amount != 0 ==> r == Err::<
                (),
                ErrorCode,
            >(ErrorCode::InsufficientFunds) && *final(self) == *old(self),
            0 < amount <= old(self).total_referral_earnings_uc && old(self).total_referral_earnings
                + amount > u64::MAX ==> r == Err::<(), ErrorCode>(ErrorCode::MathError),
            0 < amount <= old(self).total_referral_earnings_uc && old(self).total_referral_earnings
                + amount <= u64::MAX ==> r == Ok::<(), ErrorCode>(()) && *final(self) == (
            ReferralRegistry {
                total_referral_earnings_uc: (old(self).total_referral_earnings_uc - amount) as u64,
                total_referral_earnings: (old(self).total_referral_earnings + amount) as u64,
                ..*old(self)
            }),
    {
        if amount == 0 {
            return Err(ErrorCode::MathError);
        }
        if amount > self.total_referral_earnings_uc {
            return Err(ErrorCode::InsufficientFunds);
        }
        self.total_referral_earnings_uc = self.total_referral_earnings_uc.safe_sub(amount)?;
        self.total_referral_earnings = self.total_referral_earnings.safe_add(amount)?;
        Ok(())
    }

    /// Claimed earnings.
    pub fn get_total_referral_earnings(&self) -> (r: u64)
        ensures
            r == self.total_referral_earnings,
    {
        self.total_referral_earnings
    }

    /// Unclaimed earnings.
    pub fn get_total_unclaimed_referral_earnings(&self) -> (r: u64)
        ensures
            r == self.total_referral_earnings_uc,
    {
        self.total_referral_earnings_uc
    }

    /// Claimed plus unclaimed earnings.
    pub fn get_total_aggregate_referral_earnings(&self) -> (r: TYieldResult<u64>)
        ensures
            r == (if self.total_referral_earnings + self.total_referral_earnings_uc <= u64::MAX {
                Ok((self.total_referral_earnings + self.total_referral_earnings_uc) as u64)
            } else {
                Err::<u64, ErrorCode>(ErrorCode::MathError)
            }),
    {
        self.total_referral_earnings.safe_add(self.total_referral_earnings_uc)
    }

    /// Claimed earnings per referred user, rounded down; zero without users.
    pub fn get_average_earnings_per_user(&self) -> (r: TYieldResult<u64>)
        ensures
            r == Ok::<u64, ErrorCode>(
                per_user(self.total_referral_earnings, self.total_referred_users),
            ),
    {
        if self.total_referred_users == 0 {
            return Ok(0);
        }
        self.total_referral_earnings.safe_div(self.total_referred_users as u64)
    }

    /// Unclaimed earnings per referred user, rounded down; zero without users.
    pub fn get_average_unclaimed_earnings_per_user(&self) -> (r: TYieldResult<u64>)
        ensures
            r == Ok::<u64, ErrorCode>(
                per_user(self.total_referral_earnings_uc, self.total_referred_users),
            ),
    {
        if self.total_referred_users == 0 {
            return Ok(0);
        }
        self.total_referral_earnings_uc.safe_div(self.total_referred_users as u64)
    }

    /// Records an update at `current_time`; a non-positive time or one before
    /// creation is refused with `InvalidAccount`.
    pub fn update_timestamp(&mut self, current_time: i64) -> (r: TYieldResult<()>)
        ensures
            (current_time <= 0 || current_time < old(self).created_at) ==> r == Err::<
                (),
                ErrorCode,
            >(ErrorCode::InvalidAccount) && *final(self) == *old(self),
            !(current_time <= 0 || current_time < old(self).created_at) ==> r == Ok::<
                (),
                ErrorCode,
            >(()) && *final(self) == (ReferralRegistry { updated_at: current_time, ..*old(self) }),
    {
        if current_time <= 0 {
            return Err(ErrorCode::InvalidAccount);
        }
        if current_time < self.created_at {
            return Err(ErrorCode::InvalidAccount);
        }
        self.updated_at = current_time;
        Ok(())
    }

    /// Whole days since the registry was created.
    pub fn get_days_since_created(&self, current_time: i64) -> (r: TYieldResult<i64>)
        ensures
            r == days_between_checked(current_time, self.created_at),
    {
        if current_time <= 0 {
            return Err(ErrorCode::InvalidAccount);
        }
        if self.created_at <= 0 {
            return Err(ErrorCode::InvalidAccount);
        }
        let time_diff = current_time.safe_sub(self.created_at)?;
        Ok(time_diff / SECONDS_PER_DAY)
    }

    /// Whole days since the last update.
    pub fn get_days_since_updated(&self, current_time: i64) -> (r: TYieldResult<i64>)
        ensures
            r == days_between_checked(current_time, self.updated_at),
    {
        if current_time <= 0 {
            return Err(ErrorCode::InvalidAccount);
        }
        if self.updated_at <= 0 {
            return Err(ErrorCode::InvalidAccount);
        }
        let time_diff = current_time.safe_sub(self.updated_at)?;
        Ok(time_diff / SECONDS_PER_DAY)
    }

    /// Checks the registry: referrer set, positive creation time, and no update
    /// before creation.
    pub fn validate_registry(&self) -> (r: TYieldResult<()>)
        ensures
            r == (if self.referrer == Pubkey::spec_default() || self.created_at <= 0
                || self.updated_at < self.created_at {
                Err::<(), ErrorCode>(ErrorCode::InvalidAccount)
            } else {
                Ok::<(), ErrorCode>(())
            }),
    {
        if self.referrer.is_default() {
            return Err(ErrorCode::InvalidAccount);
        }
        if self.created_at <= 0 {
            return Err(ErrorCode::InvalidAccount);
        }
        if self.updated_at < self.created_at {
            return Err(ErrorCode::InvalidAccount);
        }
        Ok(())
    }

    /// Zeroes claimed and unclaimed earnings.
    pub fn reset_earnings(&mut self)
        ensures
            *final(self) == (ReferralRegistry {
                total_referral_earnings: 0,
                total_referral_earnings_uc: 0,
                ..*old(self)
            }),
    {
        self.total_referral_earnings = 0;
        self.total_referral_earnings_uc = 0;
    }

    /// (referred users, claimed, claimed per user, unclaimed, unclaimed per user).
    pub fn get_referral_stats(&self) -> (r: TYieldResult<(u32, u64, u64, u64, u64)>)
        ensures
            r == Ok::<(u32, u64, u64, u64, u64), ErrorCode>(
                (
                    self.total_referred_users,
                    self.total_referral_earnings,
                    per_user(self.total_referral_earnings, self.total_referred_users),
                    self.total_referral_earnings_uc,
                    per_user(self.total_referral_earnings_uc, self.total_referred_users),
                ),
            ),
    {
        let avg = if self.total_referred_users > 0 {
            self.total_referral_earnings / self.total_referred_users as u64
        } else {
            0
        };
        let avg_unclaimed = self.get_average_unclaimed_earnings_per_user()?;
        Ok(
            (
                self.total_referred_users,
                self.total_referral_earnings,
                avg,
                self.total_referral_earnings_uc,
                avg_unclaimed,
            ),
        )
    }
}

/// The link between a referrer and a user it referred.
#[derive(Clone, Copy, PartialEq, Eq, Debug)]
pub struct ReferralLink {
    pub referrer: Pubkey,
    pub referred_user: Pubkey,
    pub created_at: i64,
    pub bump: u8,
    pub _padding: [u8; 7],
}

impl ReferralLink {
    /// A link with zero padding.
    pub fn new(referrer: Pubkey, referred_user: Pubkey, created_at: i64, bump: u8) -> (r: Self)
        ensures
            r.referrer == referrer,
            r.referred_user == referred_user,
            r.created_at == created_at,
            r.bump == bump,
            r._padding@ == Seq::new(7, |i: int| 0u8),
    {
        let r = Self { referrer, referred_user, created_at, bump, _padding: [0;7] };
        assert(r._padding@ =~= Seq::new(7, |i: int| 0u8));
        r
    }

    /// Checks the link: both keys set and a positive creation time.
    pub fn validate(&self) -> (r: TYieldResult<()>)
        ensures
            r == (if self.referrer == Pubkey::spec_default() || self.referred_user
                == Pubkey::spec_default() || self.created_at <= 0 {
                Err::<(), ErrorCode>(ErrorCode::InvalidAccount)
            } else {
                Ok::<(), ErrorCode>(())
            }),
    {
        if self.referrer.is_default() {
            return Err(ErrorCode::InvalidAccount);
        }
        if self.referred_user.is_default() {
            return Err(ErrorCode::InvalidAccount);
        }
        if self.created_at <= 0 {
            return Err(ErrorCode::InvalidAccount);
        }
        Ok(())
    }

    /// Whole days (rounded toward zero) between creation and `current_time`.
    pub fn get_age_days(&self, current_time: i64) -> (r: i64)
        requires
            diff_fits_i64(current_time, self.created_at),
        ensures
            r == trunc_div(current_time - self.created_at, SECONDS_PER_DAY as int),
    {
        (current_time - self.created_at) / SECONDS_PER_DAY
    }

    /// Overwrites the creation time.
    pub fn update_timestamp(&mut self, new_time: i64)
        ensures
            *final(self) == (ReferralLink { created_at: new_time, ..*old(self) }),
    {
        self.created_at = new_time;
    }

    /// Clears every field.
    pub fn reset(&mut self)
        ensures
            final(self).referrer == Pubkey::spec_default(),
            final(self).referred_user == Pubkey::spec_default(),
            final(self).created_at == 0,
            final(self).bump == 0,
            final(self)._padding@ == Seq::new(7, |i: int| 0u8),
    {
        self.referrer = Pubkey::default();
        self.referred_user = Pubkey::default();
        self.created_at = 0;
        self.bump = 0;
        self._padding = [0;7];
        assert(self._padding@ =~= Seq::new(7, |i: int| 0u8));
    }
}

} // verus!
