//! Registering users, buying and selling agents, withdrawing yield and
//! claiming referral rewards: the checks before the token transfers and the
//! account changes after them.
use vstd::prelude::*;
use crate::error::{ErrorCode, TYieldResult};
use crate::math::safe_math::SafeMath;
use crate::pubkey::Pubkey;
use crate::state::agents::Agent;
use crate::state::master_agent::{
    tax_config_check, trading_from_byte, AgentPrice, MasterAgent, TradingStatus,
};
use crate::state::t_yield::TYield;
use crate::state::user::{
    status_after_add, status_has, History, ReferralLink, ReferralRegistry, User, UserStatus,
};

verus! {

/// What a user registers with.
#[derive(Clone, Copy, PartialEq, Eq, Debug)]
pub struct RegisterUserParams {
    pub name: [u8; 15],
    pub referrer: Option<Pubkey>,
}

/// The accounts a registration writes.
#[derive(Clone, Copy, PartialEq, Eq, Debug)]
pub struct Registration {
    pub user: User,
    pub referral_registry: Option<ReferralRegistry>,
    pub referral_link: Option<ReferralLink>,
}

/// Whether a referrer key counts: set and not the unset key.
pub open spec fn real_referrer(referrer: Option<Pubkey>) -> bool {
    referrer matches Some(k) && k != Pubkey::spec_default()
}

/// The user a registration writes into the new, all-zero account: the
/// authority, the name, the active flag, the referrer (the unset key without
/// one), and `now` as creation and update time.
pub open spec fn registered_user(authority: Pubkey, params: RegisterUserParams, user_bump: u8, now: i64) -> User {
    User {
        authority,
        name: params.name,
        status: 1,
        referrer: match params.referrer {
            Some(k) => k,
            None => Pubkey::spec_default(),
        },
        updated_at: now,
        created_at: now,
        bump: user_bump,
        ..User::spec_zeroed()
    }
}

/// A referrer's registry after one more referred user: set up for the
/// referrer when new (a missing bump is `InvalidBump`), then counted
/// (`MathError` past `u32::MAX`).
pub open spec fn registry_after_referral(g: ReferralRegistry, referrer: Pubkey, registry_bump: Option<u8>, now: i64) -> Result<
    ReferralRegistry,
    ErrorCode,
> {
    let fresh = g.referrer == Pubkey::spec_default();
    if fresh && registry_bump is None {
        Err(ErrorCode::InvalidBump)
    } else if g.total_referred_users + 1 > u32::MAX {
        Err(ErrorCode::MathError)
    } else {
        let g1 = if fresh {
            ReferralRegistry { referrer, created_at: now, bump: registry_bump->Some_0, ..g }
        } else {
            g
        };
        Ok(ReferralRegistry { total_referred_users: (g.total_referred_users + 1) as u32, updated_at: now, ..g1 })
    }
}

/// A referral link after a registration: a new (unset) link records the
/// pair (a missing bump is `InvalidBump`); an existing one stays.
pub open spec fn link_after_referral(l: ReferralLink, referrer: Pubkey, referred: Pubkey, link_bump: Option<u8>, now: i64) -> Result<
    ReferralLink,
    ErrorCode,
> {
    if l.referrer == Pubkey::spec_default() && l.referred_user == Pubkey::spec_default() {
        match link_bump {
            None => Err(ErrorCode::InvalidBump),
            Some(b) => Ok(ReferralLink { referrer, referred_user: referred, created_at: now, bump: b, ..l }),
        }
    } else {
        Ok(l)
    }
}

/// What registering a user gives (see `register_user`).
pub open spec fn registration_of(
    authority: Pubkey,
    params: RegisterUserParams,
    referrer_user_authority: Option<Pubkey>,
    referral_registry: Option<ReferralRegistry>,
    referral_link: Option<ReferralLink>,
    user_bump: u8,
    registry_bump: Option<u8>,
    link_bump: Option<u8>,
    now: i64,
) -> Result<Registration, ErrorCode> {
    if params.referrer is None && (referral_registry is Some || referral_link is Some) {
        Err(ErrorCode::InvalidReferrer)
    } else if real_referrer(params.referrer) && referrer_user_authority != Some(params.referrer->Some_0) {
        Err(ErrorCode::ReferrerNotAUser)
    } else {
        let u = registered_user(authority, params, user_bump, now);
        if !real_referrer(params.referrer) {
            Ok(Registration { user: u, referral_registry, referral_link })
        } else {
            let k = params.referrer->Some_0;
            let registry = match referral_registry {
                None => Ok(None),
                Some(g) => match registry_after_referral(g, k, registry_bump, now) {
                    Err(e) => Err(e),
                    Ok(g2) => Ok(Some(g2)),
                },
            };
            match registry {
                Err(e) => Err(e),
                Ok(g2) => match referral_link {
                    None => Ok(Registration { user: u, referral_registry: g2, referral_link: None }),
                    Some(l) => match link_after_referral(l, k, authority, link_bump, now) {
                        Err(e) => Err(e),
                        Ok(l2) => Ok(Registration { user: u, referral_registry: g2, referral_link: Some(l2) }),
                    },
                },
            }
        }
    }
}

/// A successful registration gives an active, unbanned user with the
/// registration's authority, name and referrer (the unset key without one),
/// created and updated at `now`.
pub proof fn lemma_registration_activates(
    authority: Pubkey,
    params: RegisterUserParams,
    referrer_user_authority: Option<Pubkey>,
    referral_registry: Option<ReferralRegistry>,
    referral_link: Option<ReferralLink>,
    user_bump: u8,
    registry_bump: Option<u8>,
    link_bump: Option<u8>,
    now: i64,
)
    requires
        registration_of(
            authority,
            params,
            referrer_user_authority,
            referral_registry,
            referral_link,
            user_bump,
            registry_bump,
            link_bump,
            now,
        ) is Ok,
    ensures
        ({
            let u = registration_of(
                authority,
                params,
                referrer_user_authority,
                referral_registry,
                referral_link,
                user_bump,
                registry_bump,
                link_bump,
                now,
            )->Ok_0.user;
            &&& status_has(u.status, UserStatus::Active)
            &&& !status_has(u.status, UserStatus::Banned)
            &&& u.authority == authority
            &&& u.name == params.name
            &&& u.referrer == (match params.referrer {
                Some(k) => k,
                None => Pubkey::spec_default(),
            })
            &&& u.created_at == now
            &&& u.updated_at == now
        }),
{
    assert(1u8 & 1u8 != 0u8 && 1u8 & 2u8 == 0u8) by (bit_vector);
}

/// Registers a user. Referral accounts without a referrer are
/// `InvalidReferrer`; a referrer that is not a registered user (no referrer
/// account, or one of another authority) is `ReferrerNotAUser`. The new
/// account (all zero, as account creation hands it over) gets the authority,
/// the name, the active flag, the referrer, and `current_time` as creation and
/// update time. With a referrer,
/// its registry counts one more referred user (and is set up when new) and a
/// new link records the pair; a missing bump for a new registry or link is
/// `InvalidBump`, and too many referred users is `MathError`.
pub fn register_user(
    authority: Pubkey,
    params: RegisterUserParams,
    referrer_user_authority: Option<Pubkey>,
    referral_registry: Option<ReferralRegistry>,
    referral_link: Option<ReferralLink>,
    user_bump: u8,
    registry_bump: Option<u8>,
    link_bump: Option<u8>,
    current_time: i64,
) -> (r: TYieldResult<Registration>)
    ensures
        r == registration_of(
            authority,
            params,
            referrer_user_authority,
            referral_registry,
            referral_link,
            user_bump,
            registry_bump,
            link_bump,
            current_time,
        ),
{
    if params.referrer.is_none() && (referral_registry.is_some() || referral_link.is_some()) {
        return Err(ErrorCode::InvalidReferrer);
    }
    if let Some(referrer_pubkey) = params.referrer {
        if !referrer_pubkey.is_default() {
            match referrer_user_authority {
                None => {
                    return Err(ErrorCode::ReferrerNotAUser);
                },
                Some(a) => {
                    if a != referrer_pubkey {
                        return Err(ErrorCode::ReferrerNotAUser);
                    }
                },
            }
        }
    }
    let mut user = User::zeroed();
    user.authority = authority;
    user.name = params.name;
    let _ = user.add_user_status(UserStatus::Active);
    assert(0u8 & 2u8 == 0u8 && 0u8 | 1u8 == 1u8) by (bit_vector);
    user.referrer = match params.referrer {
        Some(k) => k,
        None => Pubkey::default(),
    };
    user.updated_at = current_time;
    user.created_at = current_time;
    user.bump = user_bump;
    let mut registry_out = referral_registry;
    let mut link_out = referral_link;
    if let Some(referrer_pubkey) = params.referrer {
        if !referrer_pubkey.is_default() {
            if let Some(registry) = referral_registry {
                let mut registry = registry;
                if registry.referrer.is_default() {
                    registry.referrer = referrer_pubkey;
                    registry.created_at = current_time;
                    registry.bump = match registry_bump {
                        Some(b) => b,
                        None => {
                            return Err(ErrorCode::InvalidBump);
                        },
                    };
                }
                registry.total_referred_users = registry.total_referred_users.safe_add(1)?;
                registry.updated_at = current_time;
                registry_out = Some(registry);
            }
            if let Some(link) = referral_link {
                let mut link = link;
                if link.referrer.is_default() && link.referred_user.is_default() {
                    link.referrer = referrer_pubkey;
                    link.referred_user = authority;
                    link.created_at = current_time;
                    link.bump = match link_bump {
                        Some(b) => b,
                        None => {
                            return Err(ErrorCode::InvalidBump);
                        },
                    };
                }
                link_out = Some(link);
            }
        }
    }
    Ok(Registration { user, referral_registry: registry_out, referral_link: link_out })
}

/// What the checks before a buy answer: the buy price with tax (total, tax,
/// base), or why the buyer may not buy this agent.
pub open spec fn buy_quote(user: User, master_agent: MasterAgent, master_agent_key: Pubkey, agent: Agent) -> Result<(u64, u64, u64), ErrorCode> {
    if !(status_has(user.status, UserStatus::Active) && !status_has(
        user.status,
        UserStatus::Banned,
    )) || (trading_from_byte(master_agent.trading_status) == TradingStatus::WhiteList
        && !status_has(user.status, UserStatus::WithListed)) || agent.master_agent
        != master_agent_key {
        Err(ErrorCode::CannotPerformAction)
    } else {
        master_agent.buy_price()
    }
}

/// The checks before buying an agent: the buyer may act
/// (`CannotPerformAction`), is whitelisted when the master agent requires it,
/// and the agent belongs to the master agent; then the buy price with tax
/// (total, tax, base).
pub fn buy_agent_quote(user: &User, master_agent: &MasterAgent, master_agent_key: Pubkey, agent: &Agent) -> (r:
    TYieldResult<(u64, u64, u64)>)
    ensures
        r == buy_quote(*user, *master_agent, master_agent_key, *agent),
{
    if !user.can_perform_actions() {
        return Err(ErrorCode::CannotPerformAction);
    }
    if master_agent.is_whitelist_mode() && !user.is_whitelisted() {
        return Err(ErrorCode::CannotPerformAction);
    }
    if !agent.belongs_to_master_agent(&master_agent_key) {
        return Err(ErrorCode::CannotPerformAction);
    }
    master_agent.calculate_buy_price_with_tax()
}

/// The protocol's books after a buy at `price` (total, tax, base): fees and
/// balance grow by the tax, holdings by the base, earnings by the total.
pub open spec fn books_after_buy(t: TYield, price: (u64, u64, u64)) -> Result<TYield, ErrorCode> {
    if t.protocol_total_fees + price.1 > u64::MAX || t.protocol_current_holding + price.2
        > u64::MAX || t.protocol_total_balance_usd + price.1 > u64::MAX || t.protocol_total_earnings
        + price.0 > u64::MAX {
        Err(ErrorCode::MathError)
    } else {
        Ok(
            TYield {
                protocol_total_fees: (t.protocol_total_fees + price.1) as u64,
                protocol_current_holding: (t.protocol_current_holding + price.2) as u64,
                protocol_total_balance_usd: (t.protocol_total_balance_usd + price.1) as u64,
                protocol_total_earnings: (t.protocol_total_earnings + price.0) as u64,
                ..t
            },
        )
    }
}

/// Records the protocol's side of a buy (see `books_after_buy`).
pub fn record_buy(t_yield: &mut TYield, price: (u64, u64, u64)) -> (r: TYieldResult<()>)
    ensures
        books_after_buy(*old(t_yield), price) matches Ok(t) ==> r == Ok::<(), ErrorCode>(())
            && *final(t_yield) == t,
        books_after_buy(*old(t_yield), price) is Err ==> r == Err::<(), ErrorCode>(
            ErrorCode::MathError,
        ),
{
    t_yield.protocol_total_fees = t_yield.protocol_total_fees.safe_add(price.1)?;
    t_yield.protocol_current_holding = t_yield.protocol_current_holding.safe_add(price.2)?;
    t_yield.protocol_total_balance_usd = t_yield.protocol_total_balance_usd.safe_add(price.1)?;
    t_yield.protocol_total_earnings = t_yield.protocol_total_earnings.safe_add(price.0)?;
    Ok(())
}

/// What the checks before a sale answer: the sell price net of tax (net,
/// tax, base), or why the seller may not sell this agent.
pub open spec fn sell_quote(user: User, master_agent: MasterAgent, master_agent_key: Pubkey, agent: Agent, seller: Pubkey) -> Result<(u64, u64, u64), ErrorCode> {
    if status_has(user.status, UserStatus::Banned) || agent.owner != seller
        || agent.master_agent != master_agent_key {
        Err(ErrorCode::CannotPerformAction)
    } else {
        master_agent.sell_price()
    }
}

/// The checks before selling an agent: the seller is not banned, owns the
/// agent, and the agent belongs to the master agent (`CannotPerformAction`);
/// then the sell price net of tax (net, tax, base).
pub fn sell_agent_quote(user: &User, master_agent: &MasterAgent, master_agent_key: Pubkey, agent: &Agent, seller: Pubkey) -> (r:
    TYieldResult<(u64, u64, u64)>)
    ensures
        r == sell_quote(*user, *master_agent, master_agent_key, *agent, seller),
{
    if user.has_status(UserStatus::Banned) {
        return Err(ErrorCode::CannotPerformAction);
    }
    if !agent.is_owned_by(&seller) {
        return Err(ErrorCode::CannotPerformAction);
    }
    if !agent.belongs_to_master_agent(&master_agent_key) {
        return Err(ErrorCode::CannotPerformAction);
    }
    master_agent.calculate_sell_price_with_tax()
}

/// The protocol's books after a sale at `price` (net, tax, base): fees and
/// earnings grow by the tax, holdings shrink by the net price paid out, and
/// the balance by the tax.
pub open spec fn books_after_sell(t: TYield, price: (u64, u64, u64)) -> Result<TYield, ErrorCode> {
    if t.protocol_total_fees + price.1 > u64::MAX || t.protocol_current_holding < price.0
        || t.protocol_total_balance_usd < price.1 || t.protocol_total_earnings + price.1
        > u64::MAX {
        Err(ErrorCode::MathError)
    } else {
        Ok(
            TYield {
                protocol_total_fees: (t.protocol_total_fees + price.1) as u64,
                protocol_current_holding: (t.protocol_current_holding - price.0) as u64,
                protocol_total_balance_usd: (t.protocol_total_balance_usd - price.1) as u64,
                protocol_total_earnings: (t.protocol_total_earnings + price.1) as u64,
                ..t
            },
        )
    }
}

/// Records the protocol's side of a sale (see `books_after_sell`).
pub fn record_sell(t_yield: &mut TYield, price: (u64, u64, u64)) -> (r: TYieldResult<()>)
    ensures
        books_after_sell(*old(t_yield), price) matches Ok(t) ==> r == Ok::<(), ErrorCode>(())
            && *final(t_yield) == t,
        books_after_sell(*old(t_yield), price) is Err ==> r == Err::<(), ErrorCode>(
            ErrorCode::MathError,
        ),
{
    t_yield.protocol_total_fees = t_yield.protocol_total_fees.safe_add(price.1)?;
    t_yield.protocol_current_holding = t_yield.protocol_current_holding.safe_sub(price.0)?;
    t_yield.protocol_total_balance_usd = t_yield.protocol_total_balance_usd.safe_sub(price.1)?;
    t_yield.protocol_total_earnings = t_yield.protocol_total_earnings.safe_add(price.1)?;
    Ok(())
}

/// What a withdrawal takes: a requested amount at most the claimable
/// yield, or all of a non-zero claimable yield; or why it is refused.
pub open spec fn withdraw_amount(user: User, amount: Option<u64>) -> Result<u64, ErrorCode> {
    if !(status_has(user.status, UserStatus::Active) && !status_has(
        user.status,
        UserStatus::Banned,
    )) {
        Err(ErrorCode::CannotPerformAction)
    } else {
        match amount {
            Some(a) => if a > user.total_unclaimed_yield {
                Err(ErrorCode::InsufficientFunds)
            } else {
                Ok(a)
            },
            None => if user.total_unclaimed_yield == 0 {
                Err(ErrorCode::InsufficientFunds)
            } else {
                Ok(user.total_unclaimed_yield)
            },
        }
    }
}

/// The amount a withdrawal takes: the user may act (`CannotPerformAction`);
/// a requested amount at most the claimable yield, or all of a non-zero
/// claimable yield (`InsufficientFunds`).
pub fn withdraw_yield_amount(user: &User, amount: Option<u64>) -> (r: TYieldResult<u64>)
    ensures
        r == withdraw_amount(*user, amount),
{
    if !user.can_perform_actions() {
        return Err(ErrorCode::CannotPerformAction);
    }
    let claimable = user.get_claimable_yield();
    match amount {
        Some(a) => {
            if a > claimable {
                return Err(ErrorCode::InsufficientFunds);
            }
            Ok(a)
        },
        None => {
            if claimable == 0 {
                return Err(ErrorCode::InsufficientFunds);
            }
            Ok(claimable)
        },
    }
}

/// After the transfer of a withdrawal: the user claims `amount` (see
/// `User::claim_yield`) and the protocol balance shrinks by it (`MathError`
/// when it is smaller).
pub fn settle_withdraw_yield(user: &mut User, t_yield: &mut TYield, amount: u64) -> (r: TYieldResult<
    (),
>)
    ensures
        r is Ok ==> final(user).total_unclaimed_yield == old(user).total_unclaimed_yield - amount
            && final(user).history.total_yield_claimed == old(user).history.total_yield_claimed
            + amount && final(t_yield).protocol_total_balance_usd == old(
        t_yield).protocol_total_balance_usd - amount,
        r is Ok <==> (0 < amount <= old(user).total_unclaimed_yield && old(
        user).history.total_yield_claimed + amount <= u64::MAX && old(
        t_yield).protocol_total_balance_usd >= amount),
{
    user.claim_yield(amount)?;
    t_yield.protocol_total_balance_usd = t_yield.protocol_total_balance_usd.safe_sub(amount)?;
    Ok(())
}

/// Before the transfer of referral rewards: the user may act
/// (`CannotPerformAction`); the amount is all unclaimed referral earnings.
pub fn referral_rewards_amount(user: &User, referral_registry: &ReferralRegistry) -> (r:
    TYieldResult<u64>)
    ensures
        r == (if !(status_has(user.status, UserStatus::Active) && !status_has(
            user.status,
            UserStatus::Banned,
        )) {
            Err(ErrorCode::CannotPerformAction)
        } else {
            Ok(referral_registry.total_referral_earnings_uc)
        }),
{
    if !user.can_perform_actions() {
        return Err(ErrorCode::CannotPerformAction);
    }
    Ok(referral_registry.get_total_unclaimed_referral_earnings())
}

/// After the transfer of referral rewards: the registry moves `amount` to
/// claimed, the protocol balance shrinks by it, and the user's history
/// counts it as referral earnings.
pub fn settle_referral_rewards(
    user: &mut User,
    referral_registry: &mut ReferralRegistry,
    t_yield: &mut TYield,
    amount: u64,
) -> (r: TYieldResult<()>)
    ensures
        r is Ok ==> final(referral_registry).total_referral_earnings_uc == old(
        referral_registry).total_referral_earnings_uc - amount && final(
        referral_registry).total_referral_earnings == old(referral_registry).total_referral_earnings
            + amount && final(t_yield).protocol_total_balance_usd == old(
        t_yield).protocol_total_balance_usd - amount && final(
        user).history.total_referral_earnings_ever == old(user).history.total_referral_earnings_ever
            + amount,
        r is Ok <==> (0 < amount <= old(referral_registry).total_referral_earnings_uc && old(
        referral_registry).total_referral_earnings + amount <= u64::MAX && old(
        t_yield).protocol_total_balance_usd >= amount && old(
        user).history.total_referral_earnings_ever + amount <= u64::MAX),
{
    referral_registry.claim_referral_earnings(amount)?;
    t_yield.protocol_total_balance_usd = t_yield.protocol_total_balance_usd.safe_sub(amount)?;
    user.history.add_referral_earnings(amount)?;
    Ok(())
}

/// The buy price with tax of a master agent's agents (see
/// `MasterAgent::buy_price`).
pub fn get_buy_agent_price(master_agent: &MasterAgent) -> (r: TYieldResult<AgentPrice>)
    ensures
        match master_agent.buy_price() {
            Ok(p) => r == Ok::<AgentPrice, ErrorCode>(
                AgentPrice { total_price: p.0, tax_amount: p.1, base_price: p.2 },
            ),
            Err(e) => r == Err::<AgentPrice, ErrorCode>(e),
        },
{
    let result = master_agent.calculate_buy_price_with_tax()?;
    Ok(AgentPrice { total_price: result.0, tax_amount: result.1, base_price: result.2 })
}

/// The sell price net of tax of a master agent's agents (see
/// `MasterAgent::sell_price`).
pub fn get_sell_agent_price(master_agent: &MasterAgent) -> (r: TYieldResult<AgentPrice>)
    ensures
        match master_agent.sell_price() {
            Ok(p) => r == Ok::<AgentPrice, ErrorCode>(
                AgentPrice { total_price: p.0, tax_amount: p.1, base_price: p.2 },
            ),
            Err(e) => r == Err::<AgentPrice, ErrorCode>(e),
        },
{
    let result = master_agent.calculate_sell_price_with_tax()?;
    Ok(AgentPrice { total_price: result.0, tax_amount: result.1, base_price: result.2 })
}

/// The buyer after a buy at `price` (total, tax, base): one more agent, the
/// base price added to the purchase total and twice to the purchases ever
/// made (once as the agent, once in the history), the tax to the fees spent.
pub open spec fn bought_user(u: User, price: (u64, u64, u64)) -> User {
    User {
        total_agents_owned: (u.total_agents_owned + 1) as u32,
        total_agents_purchased: (u.total_agents_purchased + price.2) as u64,
        history: History {
            total_agents_ever_purchased: (u.history.total_agents_ever_purchased + 2 * price.2) as u64,
            total_fees_spent: (u.history.total_fees_spent + price.1) as u64,
            ..u.history
        },
        ..u
    }
}

/// The master agent after one of its agents is bought: one agent fewer, one
/// trade more.
pub open spec fn bought_master_agent(m: MasterAgent, now: i64) -> MasterAgent {
    MasterAgent {
        agent_count: (m.agent_count - 1) as u64,
        trade_count: (m.trade_count + 1) as u64,
        last_updated: now,
        ..m
    }
}

/// The checks of a buy before the master agent's security checks: the price
/// paid (total, tax, base), or the first check that refuses it, in the order
/// the buy makes them.
pub open spec fn buy_precheck(
    t: TYield,
    m: MasterAgent,
    master_agent_key: Pubkey,
    u: User,
    a: Agent,
    buyer: Pubkey,
) -> Result<(u64, u64, u64), ErrorCode> {
    match buy_quote(u, m, master_agent_key, a) {
        Err(e) => Err(e),
        Ok(p) => if m.agent_count == 0 {
            Err(ErrorCode::InsufficientFunds)
        } else if books_after_buy(t, p) is Err {
            Err(ErrorCode::MathError)
        } else if p.2 == 0 || u.total_agents_owned + 1 > u32::MAX || u.total_agents_purchased + p.2
            > u64::MAX || u.history.total_agents_ever_purchased + p.2 > u64::MAX {
            Err(ErrorCode::MathError)
        } else if buyer == Pubkey::spec_default() || !a.is_listed {
            Err(ErrorCode::InvalidAccount)
        } else if u.history.total_agents_ever_purchased + 2 * p.2 > u64::MAX || p.1 == 0
            || u.history.total_fees_spent + p.1 > u64::MAX {
            Err(ErrorCode::MathError)
        } else if bought_user(u, p).validity() is Err {
            Err(bought_user(u, p).validity()->Err_0)
        } else if m.trade_count == u64::MAX {
            Err(ErrorCode::MathError)
        } else {
            Ok(p)
        },
    }
}

/// What a buy answers (see `buy_agent`): the checks of `buy_precheck`, then
/// the security checks of the master agent after the buy.
pub open spec fn buy_result(
    t: TYield,
    m: MasterAgent,
    master_agent_key: Pubkey,
    u: User,
    a: Agent,
    buyer: Pubkey,
    now: i64,
) -> Result<(u64, u64, u64), ErrorCode> {
    match buy_precheck(t, m, master_agent_key, u, a, buyer) {
        Err(e) => Err(e),
        Ok(p) => if bought_master_agent(m, now).security_check(now) is Err {
            Err(bought_master_agent(m, now).security_check(now)->Err_0)
        } else {
            Ok(p)
        },
    }
}

/// Whether a buy reaches the master agent's activity check, the first step
/// that measures the time since its creation.
pub open spec fn buy_reaches_activity_check(
    t: TYield,
    m: MasterAgent,
    master_agent_key: Pubkey,
    u: User,
    a: Agent,
    buyer: Pubkey,
    now: i64,
) -> bool {
    &&& buy_precheck(t, m, master_agent_key, u, a, buyer) is Ok
    &&& bought_master_agent(m, now).validity() is Ok
    &&& tax_config_check(bought_master_agent(m, now).tax_config) is Ok
}

/// A buy of `agent` by `buyer` (see `buy_result`): the master agent gives up
/// one agent and counts a trade, the protocol books the payment, the buyer
/// records the purchase, and the agent changes owner and leaves the market.
/// Answers the price, which the buyer pays; a refused quote changes nothing.
pub fn buy_agent(
    t_yield: &mut TYield,
    master_agent: &mut MasterAgent,
    master_agent_key: Pubkey,
    user: &mut User,
    agent: &mut Agent,
    buyer: Pubkey,
    current_time: i64,
) -> (r: TYieldResult<(u64, u64, u64)>)
    requires
        buy_reaches_activity_check(
            *old(t_yield),
            *old(master_agent),
            master_agent_key,
            *old(user),
            *old(agent),
            buyer,
            current_time,
        ) ==> i64::MIN <= current_time - bought_master_agent(*old(master_agent), current_time).created_at
            <= i64::MAX,
    ensures
        r == buy_result(
            *old(t_yield),
            *old(master_agent),
            master_agent_key,
            *old(user),
            *old(agent),
            buyer,
            current_time,
        ),
        buy_quote(*old(user), *old(master_agent), master_agent_key, *old(agent)) is Err ==> *final(
        t_yield) == *old(t_yield) && *final(master_agent) == *old(master_agent) && *final(user)
            == *old(user) && *final(agent) == *old(agent),
        r matches Ok(p) ==> books_after_buy(*old(t_yield), p) == Ok::<TYield, ErrorCode>(
            *final(t_yield),
        ) && *final(master_agent) == bought_master_agent(*old(master_agent), current_time)
            && *final(user) == bought_user(*old(user), p) && *final(agent) == (Agent {
            owner: buyer,
            is_listed: false,
            last_updated: current_time,
            ..*old(agent)
        }),
{
    let price = buy_agent_quote(user, master_agent, master_agent_key, agent)?;
    master_agent.remove_agent(current_time)?;
    record_buy(t_yield, price)?;
    user.add_agent(price.2)?;
    agent.transfer_ownership(buyer, current_time)?;
    agent.unlist(current_time)?;
    user.history.add_agents_purchased(price.2)?;
    user.history.add_fees_spent(price.1)?;
    assert(*user == bought_user(*old(user), price));
    user.validate_user()?;
    master_agent.increment_trade_count(current_time)?;
    assert(*master_agent == bought_master_agent(*old(master_agent), current_time));
    master_agent.validate_security(current_time)?;
    Ok(price)
}

/// The seller after a sale with tax `tax`: one agent fewer, the tax added to
/// the fees spent.
pub open spec fn sold_user(u: User, tax: u64) -> User {
    User {
        total_agents_owned: (u.total_agents_owned - 1) as u32,
        history: History { total_fees_spent: (u.history.total_fees_spent + tax) as u64, ..u.history },
        ..u
    }
}

/// What a sale answers: the price received (net, tax, base), or the first
/// check that refuses it, in the order the sale makes them.
pub open spec fn sell_result(
    t: TYield,
    m: MasterAgent,
    master_agent_key: Pubkey,
    u: User,
    a: Agent,
    seller: Pubkey,
    transfer_authority: Pubkey,
) -> Result<(u64, u64, u64), ErrorCode> {
    match sell_quote(u, m, master_agent_key, a, seller) {
        Err(e) => Err(e),
        Ok(p) => if books_after_sell(t, p) is Err {
            Err(ErrorCode::MathError)
        } else if m.agent_count >= m.max_supply {
            Err(ErrorCode::InsufficientFunds)
        } else if transfer_authority == Pubkey::spec_default() || a.is_listed {
            Err(ErrorCode::InvalidAccount)
        } else if u.total_agents_owned == 0 {
            Err(ErrorCode::InsufficientFunds)
        } else if p.1 == 0 || u.history.total_fees_spent + p.1 > u64::MAX {
            Err(ErrorCode::MathError)
        } else if sold_user(u, p.1).validity() is Err {
            Err(sold_user(u, p.1).validity()->Err_0)
        } else {
            Ok(p)
        },
    }
}

/// A sale of `agent` by `seller` back to the protocol (see `sell_result`):
/// the protocol books the payout, the master agent takes the agent back, the
/// agent goes to `transfer_authority` and back on the market, and the seller
/// records the sale. Answers the price, which the seller receives; a refused
/// quote changes nothing.
pub fn sell_agent(
    t_yield: &mut TYield,
    master_agent: &mut MasterAgent,
    master_agent_key: Pubkey,
    user: &mut User,
    agent: &mut Agent,
    seller: Pubkey,
    transfer_authority: Pubkey,
    current_time: i64,
) -> (r: TYieldResult<(u64, u64, u64)>)
    ensures
        r == sell_result(
            *old(t_yield),
            *old(master_agent),
            master_agent_key,
            *old(user),
            *old(agent),
            seller,
            transfer_authority,
        ),
        sell_quote(*old(user), *old(master_agent), master_agent_key, *old(agent), seller) is Err
            ==> *final(t_yield) == *old(t_yield) && *final(master_agent) == *old(master_agent)
            && *final(user) == *old(user) && *final(agent) == *old(agent),
        r matches Ok(p) ==> books_after_sell(*old(t_yield), p) == Ok::<TYield, ErrorCode>(
            *final(t_yield),
        ) && *final(master_agent) == (MasterAgent {
            agent_count: (old(master_agent).agent_count + 1) as u64,
            last_updated: current_time,
            ..*old(master_agent)
        }) && *final(user) == sold_user(*old(user), p.1) && *final(agent) == (Agent {
            owner: transfer_authority,
            is_listed: true,
            last_updated: current_time,
            ..*old(agent)
        }),
{
    let price = sell_agent_quote(user, master_agent, master_agent_key, agent, seller)?;
    record_sell(t_yield, price)?;
    master_agent.add_agent(current_time)?;
    agent.transfer_ownership(transfer_authority, current_time)?;
    agent.list(current_time)?;
    user.remove_agent(1)?;
    user.history.add_fees_spent(price.1)?;
    assert(*user == sold_user(*old(user), price.1));
    user.validate_user()?;
    Ok(price)
}

/// What a withdrawal asks for.
#[derive(Clone, Copy, PartialEq, Eq, Structural, Debug)]
pub struct WithdrawYieldParams {
    pub amount: Option<u64>,
}

/// A withdrawal of yield (see `withdraw_amount`): the user claims the amount
/// and the protocol balance shrinks by it (`MathError` when it is smaller).
/// Answers the amount, which the user receives; a refused amount changes
/// nothing.
pub fn withdraw_yield(user: &mut User, t_yield: &mut TYield, params: &WithdrawYieldParams) -> (r:
    TYieldResult<u64>)
    ensures
        withdraw_amount(*old(user), params.amount) matches Err(e) ==> r == Err::<u64, ErrorCode>(e)
            && *final(user) == *old(user) && *final(t_yield) == *old(t_yield),
        withdraw_amount(*old(user), params.amount) matches Ok(a) ==> r == (if a == 0 || old(
            user,
        ).history.total_yield_claimed + a > u64::MAX || old(t_yield).protocol_total_balance_usd
            < a {
            Err::<u64, ErrorCode>(ErrorCode::MathError)
        } else {
            Ok(a)
        }),
        r matches Ok(a) ==> withdraw_amount(*old(user), params.amount) == Ok::<u64, ErrorCode>(a)
            && *final(user) == (User {
            total_unclaimed_yield: (old(user).total_unclaimed_yield - a) as u64,
            history: History {
                total_yield_claimed: (old(user).history.total_yield_claimed + a) as u64,
                ..old(user).history
            },
            ..*old(user)
        }) && *final(t_yield) == (TYield {
            protocol_total_balance_usd: (old(t_yield).protocol_total_balance_usd - a) as u64,
            ..*old(t_yield)
        }),
        r is Ok ==> final(user).total_unclaimed_yield + final(user).history.total_yield_claimed
            == old(user).total_unclaimed_yield + old(user).history.total_yield_claimed,
{
    let amount = withdraw_yield_amount(user, params.amount)?;
    user.claim_yield(amount)?;
    t_yield.protocol_total_balance_usd = t_yield.protocol_total_balance_usd.safe_sub(amount)?;
    Ok(amount)
}

/// A claim of all unclaimed referral earnings by a user who may act
/// (`CannotPerformAction`): the registry moves them to claimed, the protocol
/// balance shrinks by them, and the user's history counts them. Answers the
/// amount, which the user receives.
pub fn claim_referral_rewards(
    user: &mut User,
    referral_registry: &mut ReferralRegistry,
    t_yield: &mut TYield,
) -> (r: TYieldResult<u64>)
    ensures
        !(status_has(old(user).status, UserStatus::Active) && !status_has(
            old(user).status,
            UserStatus::Banned,
        )) ==> r == Err::<u64, ErrorCode>(ErrorCode::CannotPerformAction) && *final(user) == *old(
        user) && *final(referral_registry) == *old(referral_registry) && *final(t_yield) == *old(
        t_yield),
        r is Ok <==> (status_has(old(user).status, UserStatus::Active) && !status_has(
            old(user).status,
            UserStatus::Banned,
        ) && 0 < old(referral_registry).total_referral_earnings_uc && old(
        referral_registry).total_referral_earnings + old(referral_registry).total_referral_earnings_uc
            <= u64::MAX && old(t_yield).protocol_total_balance_usd >= old(
        referral_registry).total_referral_earnings_uc && old(
        user).history.total_referral_earnings_ever + old(
        referral_registry).total_referral_earnings_uc <= u64::MAX),
        r matches Ok(a) ==> a == old(referral_registry).total_referral_earnings_uc && final(
        referral_registry).total_referral_earnings_uc == 0 && final(
        referral_registry).total_referral_earnings == old(referral_registry).total_referral_earnings
            + a && final(t_yield).protocol_total_balance_usd == old(
        t_yield).protocol_total_balance_usd - a && final(user).history.total_referral_earnings_ever
            == old(user).history.total_referral_earnings_ever + a,
        r is Ok ==> final(referral_registry).total_referral_earnings_uc + final(
        referral_registry).total_referral_earnings == old(
        referral_registry).total_referral_earnings_uc + old(
        referral_registry).total_referral_earnings,
{
    let amount = referral_rewards_amount(user, referral_registry)?;
    settle_referral_rewards(user, referral_registry, t_yield, amount)?;
    Ok(amount)
}

} // verus!
