//! What the admin instructions do once the multisig approved them, and the
//! checks of minting and transferring agents.
use vstd::prelude::*;
use crate::error::{ErrorCode, TYieldResult};
use crate::pubkey::Pubkey;
use crate::hash::spec_sha256;
use crate::state::agents::Agent;
use crate::state::master_agent::{
    trading_byte, MasterAgent, MasterAgentInitParams, TaxConfig, TradingStatus,
};
use crate::state::multisig::{
    installed_signers, instruction_bytes, instruction_tag, lookup_ok, sign_step, sign_time_ok,
    signers_acceptable, AdminInstruction, Multisig, MultisigView, SignerInfo,
};
use crate::state::t_yield::{
    upgrade_authority_check, CircuitBreaker, ParameterBounds, Permissions, RateLimiter, TYield,
};
use crate::state::user::{status_after_add, status_has, User, UserStatus};

verus! {

/// The protocol's configuration at initialisation.
#[derive(Clone, Copy, PartialEq, Debug)]
pub struct InitParams {
    pub min_signatures: u8,
    pub allow_agent_deploy: bool,
    pub allow_agent_buy: bool,
    pub allow_agent_sell: bool,
    pub allow_withdraw_yield: bool,
    pub buy_tax: u64,
    pub sell_tax: u64,
    pub max_tax_percentage: u64,
    pub ref_earn_percentage: u64,
    pub supported_mint: Pubkey,
    pub paused: Option<bool>,
    pub circuit_breaker: Option<CircuitBreaker>,
    pub rate_limiter: Option<RateLimiter>,
    pub parameter_bounds: Option<ParameterBounds>,
}

/// The protocol account set up from `params`, with the mint, the bumps and
/// the inception time given; the pause flag defaults to off and the security
/// settings are kept unless given.
pub open spec fn initialized_protocol(
    t: TYield,
    params: InitParams,
    y_mint: Pubkey,
    transfer_authority_bump: u8,
    t_yield_bump: u8,
    inception_time: i64,
) -> TYield {
    TYield {
        permissions: Permissions {
            allow_agent_deploy: params.allow_agent_deploy,
            allow_agent_buy: params.allow_agent_buy,
            allow_agent_sell: params.allow_agent_sell,
            allow_withdraw_yield: params.allow_withdraw_yield,
        },
        transfer_authority_bump,
        t_yield_bump,
        y_mint,
        buy_tax: params.buy_tax,
        sell_tax: params.sell_tax,
        max_tax_percentage: params.max_tax_percentage,
        ref_earn_percentage: params.ref_earn_percentage,
        inception_time,
        paused: match params.paused {
            Some(p) => p,
            None => false,
        },
        circuit_breaker: match params.circuit_breaker {
            Some(c) => c,
            None => t.circuit_breaker,
        },
        rate_limiter: match params.rate_limiter {
            Some(l) => l,
            None => t.rate_limiter,
        },
        parameter_bounds: match params.parameter_bounds {
            Some(b) => b,
            None => t.parameter_bounds,
        },
        ..t
    }
}

/// Sets up the protocol account from `params`, with the mint, the bumps and
/// the inception time given; the pause flag defaults to off and the security
/// settings are kept unless given.
pub fn init_protocol(
    t_yield: &mut TYield,
    params: &InitParams,
    y_mint: Pubkey,
    transfer_authority_bump: u8,
    t_yield_bump: u8,
    inception_time: i64,
)
    ensures
        *final(t_yield) == initialized_protocol(
            *old(t_yield),
            *params,
            y_mint,
            transfer_authority_bump,
            t_yield_bump,
            inception_time,
        ),
{
    t_yield.permissions.allow_agent_deploy = params.allow_agent_deploy;
    t_yield.permissions.allow_agent_buy = params.allow_agent_buy;
    t_yield.permissions.allow_agent_sell = params.allow_agent_sell;
    t_yield.permissions.allow_withdraw_yield = params.allow_withdraw_yield;
    t_yield.transfer_authority_bump = transfer_authority_bump;
    t_yield.t_yield_bump = t_yield_bump;
    t_yield.y_mint = y_mint;
    t_yield.buy_tax = params.buy_tax;
    t_yield.sell_tax = params.sell_tax;
    t_yield.max_tax_percentage = params.max_tax_percentage;
    t_yield.ref_earn_percentage = params.ref_earn_percentage;
    t_yield.inception_time = inception_time;
    t_yield.paused = match params.paused {
        Some(p) => p,
        None => false,
    };
    if let Some(cb) = params.circuit_breaker {
        t_yield.circuit_breaker = cb;
    }
    if let Some(rl) = params.rate_limiter {
        t_yield.rate_limiter = rl;
    }
    if let Some(pb) = params.parameter_bounds {
        t_yield.parameter_bounds = pb;
    }
}

/// Changes to the protocol's configuration; each one given is applied.
#[derive(Clone, Copy, PartialEq, Eq, Structural, Debug)]
pub struct UpdateProtocolConfigParams {
    pub buy_tax: Option<u64>,
    pub sell_tax: Option<u64>,
    pub max_tax_percentage: Option<u64>,
    pub allow_agent_deploy: Option<bool>,
    pub allow_agent_buy: Option<bool>,
    pub allow_agent_sell: Option<bool>,
    pub allow_withdraw_yield: Option<bool>,
}

/// A setting replaced when a new value is given.
pub open spec fn or_keep<T>(new: Option<T>, old: T) -> T {
    match new {
        Some(v) => v,
        None => old,
    }
}

/// The protocol account with the given configuration changes applied.
pub open spec fn configured_protocol(t: TYield, params: UpdateProtocolConfigParams) -> TYield {
    TYield {
        buy_tax: or_keep(params.buy_tax, t.buy_tax),
        sell_tax: or_keep(params.sell_tax, t.sell_tax),
        max_tax_percentage: or_keep(params.max_tax_percentage, t.max_tax_percentage),
        permissions: Permissions {
            allow_agent_deploy: or_keep(
                params.allow_agent_deploy,
                t.permissions.allow_agent_deploy,
            ),
            allow_agent_buy: or_keep(params.allow_agent_buy, t.permissions.allow_agent_buy),
            allow_agent_sell: or_keep(
                params.allow_agent_sell,
                t.permissions.allow_agent_sell,
            ),
            allow_withdraw_yield: or_keep(
                params.allow_withdraw_yield,
                t.permissions.allow_withdraw_yield,
            ),
        },
        ..t
    }
}

/// Applies the given configuration changes.
pub fn apply_protocol_config(t_yield: &mut TYield, params: &UpdateProtocolConfigParams)
    ensures
        *final(t_yield) == configured_protocol(*old(t_yield), *params),
{
    let buy_tax = match params.buy_tax {
        Some(v) => v,
        None => t_yield.buy_tax,
    };
    let sell_tax = match params.sell_tax {
        Some(v) => v,
        None => t_yield.sell_tax,
    };
    let max_tax_percentage = match params.max_tax_percentage {
        Some(v) => v,
        None => t_yield.max_tax_percentage,
    };
    let permissions = Permissions {
        allow_agent_deploy: match params.allow_agent_deploy {
            Some(v) => v,
            None => t_yield.permissions.allow_agent_deploy,
        },
        allow_agent_buy: match params.allow_agent_buy {
            Some(v) => v,
            None => t_yield.permissions.allow_agent_buy,
        },
        allow_agent_sell: match params.allow_agent_sell {
            Some(v) => v,
            None => t_yield.permissions.allow_agent_sell,
        },
        allow_withdraw_yield: match params.allow_withdraw_yield {
            Some(v) => v,
            None => t_yield.permissions.allow_withdraw_yield,
        },
    };
    t_yield.buy_tax = buy_tax;
    t_yield.sell_tax = sell_tax;
    t_yield.max_tax_percentage = max_tax_percentage;
    t_yield.permissions = permissions;
}

/// What the checks before minting a master agent answer (see
/// `mint_master_agent_checks`).
pub open spec fn mint_master_agent_check(
    t: TYield,
    price: u64,
    w_yield: u64,
    max_supply: u64,
    current_time: i64,
) -> Result<(), ErrorCode> {
    if t.paused {
        Err(ErrorCode::EmergencyPauseActive)
    } else if t.breaker_check(current_time) is Err {
        t.breaker_check(current_time)
    } else if t.rate_check(current_time) is Err {
        t.rate_check(current_time)
    } else if price == 0 {
        Err(ErrorCode::InvalidEntryPrice)
    } else if w_yield == 0 || max_supply == 0 {
        Err(ErrorCode::InvalidState)
    } else {
        Ok(())
    }
}

/// The checks before minting a master agent: the protocol is not paused
/// (`EmergencyPauseActive`), passes its breaker and rate limit, and the
/// price, yield and supply are non-zero (`InvalidEntryPrice`, `InvalidState`).
pub fn mint_master_agent_checks(
    t_yield: &TYield,
    price: u64,
    w_yield: u64,
    max_supply: u64,
    current_time: i64,
) -> (r: TYieldResult<()>)
    ensures
        r == mint_master_agent_check(*t_yield, price, w_yield, max_supply, current_time),
{
    if t_yield.paused {
        return Err(ErrorCode::EmergencyPauseActive);
    }
    t_yield.check_circuit_breaker(current_time)?;
    t_yield.check_rate_limit(current_time)?;
    if price == 0 {
        return Err(ErrorCode::InvalidEntryPrice);
    }
    if w_yield == 0 {
        return Err(ErrorCode::InvalidState);
    }
    if max_supply == 0 {
        return Err(ErrorCode::InvalidState);
    }
    Ok(())
}

/// Sets up a new master agent with the default taxes and checks it (see
/// `MasterAgent::validate` and `MasterAgent::validate_security`).
pub fn create_master_agent(
    master_agent: &mut MasterAgent,
    authority: Pubkey,
    mint: Pubkey,
    price: u64,
    w_yield: u64,
    trading_status: TradingStatus,
    max_supply: u64,
    auto_relist: bool,
    current_time: i64,
    bump: u8,
) -> (r: TYieldResult<()>)
    ensures
        *final(master_agent) == (MasterAgent {
            authority,
            mint,
            price,
            w_yield,
            trading_status: trading_byte(trading_status),
            max_supply,
            agent_count: 0,
            trade_count: 0,
            auto_relist,
            last_updated: current_time,
            created_at: current_time,
            bump,
            tax_config: TaxConfig {
                buy_tax_percentage: 250,
                sell_tax_percentage: 250,
                max_tax_percentage: 1000,
            },
            ..*old(master_agent)
        }),
        r == final(master_agent).security_check(current_time),
{
    let params = MasterAgentInitParams {
        authority,
        mint,
        price,
        w_yield,
        trading_status,
        max_supply,
        auto_relist,
        current_time,
        bump,
        tax_config: TaxConfig::default(),
    };
    master_agent.initialize(params)?;
    master_agent.validate()?;
    master_agent.validate_security(current_time)?;
    Ok(())
}

/// The checks and changes of minting an agent: deploying must be allowed and
/// the supply not full (`CannotPerformAction`); the agent is created for the
/// protocol authority with a boost of 10, checked, and counted on its master
/// agent.
pub fn create_agent(
    t_yield: &TYield,
    master_agent: &mut MasterAgent,
    master_agent_key: Pubkey,
    agent: &mut Agent,
    mint: Pubkey,
    owner: Pubkey,
    agent_bump: u8,
    current_time: i64,
) -> (r: TYieldResult<u8>)
    ensures
        !t_yield.permissions.allow_agent_deploy || old(master_agent).agent_count >= old(
        master_agent).max_supply ==> r == Err::<u8, ErrorCode>(ErrorCode::CannotPerformAction)
            && *final(master_agent) == *old(master_agent) && *final(agent) == *old(agent),
        r is Ok ==> r == Ok::<u8, ErrorCode>(0) && final(agent).master_agent == master_agent_key
            && final(agent).mint == mint && final(agent).owner == owner && final(agent).booster == 10
            && final(agent).is_listed && final(agent).created_at == current_time && final(
        master_agent).agent_count == old(master_agent).agent_count + 1,
        r is Ok <==> (t_yield.permissions.allow_agent_deploy && old(master_agent).agent_count < old(
        master_agent).max_supply && master_agent_key != Pubkey::spec_default() && mint
            != Pubkey::spec_default() && owner != Pubkey::spec_default() && current_time > 0),
{
    if !t_yield.permissions.allow_agent_deploy {
        return Err(ErrorCode::CannotPerformAction);
    }
    if master_agent.is_supply_full() {
        return Err(ErrorCode::CannotPerformAction);
    }
    agent.initialize(master_agent_key, mint, owner, 10, current_time, agent_bump)?;
    agent.validate()?;
    master_agent.add_agent(current_time)?;
    Ok(0)
}

/// Gives an agent from one user to another: the sender must own it and
/// neither user may be banned (`CannotPerformAction`); the agent changes
/// owner, the sender counts one agent fewer and the receiver one more, and
/// both must stay valid.
pub fn transfer_agent(
    sender: &mut User,
    receiver: &mut User,
    agent: &mut Agent,
    new_owner: Pubkey,
    current_time: i64,
) -> (r: TYieldResult<u8>)
    ensures
        (old(agent).owner != old(sender).authority || status_has(old(sender).status, UserStatus::Banned)
            || status_has(old(receiver).status, UserStatus::Banned)) ==> r == Err::<u8, ErrorCode>(
            ErrorCode::CannotPerformAction,
        ),
        r is Ok ==> r == Ok::<u8, ErrorCode>(0) && final(agent).owner == new_owner && final(
        sender).total_agents_owned == old(sender).total_agents_owned - 1 && final(
        receiver).total_agents_owned == old(receiver).total_agents_owned + 1,
{
    if !agent.is_owned_by(&sender.authority) {
        return Err(ErrorCode::CannotPerformAction);
    }
    if sender.is_banned() {
        return Err(ErrorCode::CannotPerformAction);
    }
    if receiver.is_banned() {
        return Err(ErrorCode::CannotPerformAction);
    }
    agent.transfer_ownership(new_owner, current_time)?;
    sender.remove_agent(1)?;
    receiver.add_agent(1)?;
    sender.validate_user()?;
    receiver.validate_user()?;
    Ok(0)
}

/// What signing an admin instruction does: `signer` signs `instruction`
/// with its serialized parameters `params` over `accounts` (see `sign_step`).
pub open spec fn approval_step(
    v: MultisigView,
    signer: SignerInfo,
    accounts: Seq<Pubkey>,
    instruction: AdminInstruction,
    params: Seq<u8>,
    nonce: u64,
    now: i64,
) -> (Result<u8, ErrorCode>, MultisigView) {
    let data = params.push(instruction_tag(instruction));
    sign_step(
        v,
        signer,
        spec_sha256(instruction_bytes(accounts, data)),
        accounts.len(),
        data.len(),
        nonce,
        now,
    )
}

/// Signs an admin instruction with the multisig and answers how many
/// signatures it still needs (see `approval_step`).
pub fn approve_admin_instruction(
    multisig: &mut Multisig,
    signer: &SignerInfo,
    accounts: &[Pubkey],
    instruction: AdminInstruction,
    params: &[u8],
    nonce: u64,
    current_time: i64,
) -> (r: TYieldResult<u8>)
    requires
        sign_time_ok(old(multisig)@, current_time),
        lookup_ok(old(multisig)@, signer.key),
    ensures
        r == approval_step(
            old(multisig)@,
            *signer,
            accounts@,
            instruction,
            params@,
            nonce,
            current_time,
        ).0,
        final(multisig)@ == approval_step(
            old(multisig)@,
            *signer,
            accounts@,
            instruction,
            params@,
            nonce,
            current_time,
        ).1,
{
    let data = Multisig::get_instruction_data(instruction, params);
    multisig.sign_multisig(signer, accounts, data.as_slice(), nonce, current_time)
}

/// The nonce of an admin signature: the time, read as unsigned.
pub open spec fn time_nonce(now: i64) -> u64 {
    now as u64
}

/// What signing an admin instruction would answer (see `approval_step`),
/// without signing it: the signatures it would still need, or why it would
/// be refused.
pub fn approval_preview(
    multisig: &Multisig,
    signer: &SignerInfo,
    accounts: &[Pubkey],
    instruction: AdminInstruction,
    params: &[u8],
    current_time: i64,
) -> (r: TYieldResult<u8>)
    requires
        sign_time_ok(multisig@, current_time),
        lookup_ok(multisig@, signer.key),
    ensures
        r == approval_step(
            multisig@,
            *signer,
            accounts@,
            instruction,
            params@,
            time_nonce(current_time),
            current_time,
        ).0,
{
    let mut copy = *multisig;
    approve_admin_instruction(
        &mut copy,
        signer,
        accounts,
        instruction,
        params,
        current_time as u64,
        current_time,
    )
}

/// Sets the signers and the protocol up: the upgrade authority must check
/// out (`InvalidAuthority`) and `set_signers` accept the signers
/// (`InvalidBump`); the multisig records its bump and the protocol account is
/// set up (see `initialized_protocol`).
pub fn init(
    multisig: &mut Multisig,
    t_yield: &mut TYield,
    params: &InitParams,
    admin_signers: &[Pubkey],
    upgrade_authority: Pubkey,
    program_data_key: Pubkey,
    programdata_address: Option<Pubkey>,
    upgrade_authority_address: Option<Pubkey>,
    supported_mint: Pubkey,
    multisig_bump: u8,
    transfer_authority_bump: u8,
    t_yield_bump: u8,
    inception_time: i64,
) -> (r: TYieldResult<()>)
    ensures
        upgrade_authority_check(
            upgrade_authority,
            program_data_key,
            programdata_address,
            upgrade_authority_address,
        ) is Err ==> r == Err::<(), ErrorCode>(ErrorCode::InvalidAuthority) && final(multisig)@
            == old(multisig)@ && *final(t_yield) == *old(t_yield),
        upgrade_authority_check(
            upgrade_authority,
            program_data_key,
            programdata_address,
            upgrade_authority_address,
        ) is Ok && !signers_acceptable(admin_signers@, params.min_signatures) ==> r == Err::<
            (),
            ErrorCode,
        >(ErrorCode::InvalidBump) && final(multisig)@ == old(multisig)@ && *final(t_yield)
            == *old(t_yield),
        upgrade_authority_check(
            upgrade_authority,
            program_data_key,
            programdata_address,
            upgrade_authority_address,
        ) is Ok && signers_acceptable(admin_signers@, params.min_signatures) ==> r == Ok::<
            (),
            ErrorCode,
        >(()) && final(multisig)@ == (MultisigView {
            bump: multisig_bump,
            ..installed_signers(old(multisig)@, admin_signers@, params.min_signatures)
        }) && *final(t_yield) == initialized_protocol(
            *old(t_yield),
            *params,
            supported_mint,
            transfer_authority_bump,
            t_yield_bump,
            inception_time,
        ),
{
    if TYield::validate_upgrade_authority(
        upgrade_authority,
        program_data_key,
        programdata_address,
        upgrade_authority_address,
    ).is_err() {
        return Err(ErrorCode::InvalidAuthority);
    }
    if multisig.set_signers(admin_signers, params.min_signatures).is_err() {
        return Err(ErrorCode::InvalidBump);
    }
    multisig.bump = multisig_bump;
    init_protocol(
        t_yield,
        params,
        supported_mint,
        transfer_authority_bump,
        t_yield_bump,
        inception_time,
    );
    Ok(())
}

/// Signs a configuration change; once it has all its signatures the changes
/// are applied (see `configured_protocol`). Answers the signatures still
/// needed.
pub fn update_protocol_config(
    t_yield: &mut TYield,
    multisig: &mut Multisig,
    admin: &SignerInfo,
    accounts: &[Pubkey],
    params: &UpdateProtocolConfigParams,
    params_data: &[u8],
    current_time: i64,
) -> (r: TYieldResult<u8>)
    requires
        sign_time_ok(old(multisig)@, current_time),
        lookup_ok(old(multisig)@, admin.key),
    ensures
        ({
            let step = approval_step(
                old(multisig)@,
                *admin,
                accounts@,
                AdminInstruction::PermManager,
                params_data@,
                time_nonce(current_time),
                current_time,
            );
            &&& r == step.0
            &&& final(multisig)@ == step.1
            &&& *final(t_yield) == (if step.0 == Ok::<u8, ErrorCode>(0) {
                configured_protocol(*old(t_yield), *params)
            } else {
                *old(t_yield)
            })
        }),
{
    let left = approve_admin_instruction(
        multisig,
        admin,
        accounts,
        AdminInstruction::PermManager,
        params_data,
        current_time as u64,
        current_time,
    )?;
    if left > 0 {
        return Ok(left);
    }
    apply_protocol_config(t_yield, params);
    Ok(0)
}

/// The nonce of a pause: the time, read as unsigned, plus the first byte of
/// the admin's key.
pub open spec fn pause_nonce(now: i64, admin: Pubkey) -> int {
    (now as u64) + admin.spec_bytes()[0]
}

/// Signs a pause; a paused protocol is `CannotPerformAction`. Once the pause
/// has all its signatures the protocol is paused. Answers the signatures
/// still needed.
pub fn pause_protocol(
    t_yield: &mut TYield,
    multisig: &mut Multisig,
    admin: &SignerInfo,
    accounts: &[Pubkey],
    current_time: i64,
) -> (r: TYieldResult<u8>)
    requires
        sign_time_ok(old(multisig)@, current_time),
        lookup_ok(old(multisig)@, admin.key),
        pause_nonce(current_time, admin.key) <= u64::MAX,
    ensures
        old(t_yield).paused ==> r == Err::<u8, ErrorCode>(ErrorCode::CannotPerformAction)
            && *final(t_yield) == *old(t_yield) && final(multisig)@ == old(multisig)@,
        !old(t_yield).paused ==> ({
            let step = approval_step(
                old(multisig)@,
                *admin,
                accounts@,
                AdminInstruction::PermManager,
                Seq::empty(),
                pause_nonce(current_time, admin.key) as u64,
                current_time,
            );
            &&& r == step.0
            &&& final(multisig)@ == step.1
            &&& *final(t_yield) == (if step.0 == Ok::<u8, ErrorCode>(0) {
                TYield { paused: true, ..*old(t_yield) }
            } else {
                *old(t_yield)
            })
        }),
{
    if t_yield.paused {
        return Err(ErrorCode::CannotPerformAction);
    }
    let key_bytes = admin.key.to_bytes();
    let nonce = (current_time as u64) + (key_bytes[0] as u64);
    let no_params: Vec<u8> = Vec::new();
    let left = approve_admin_instruction(
        multisig,
        admin,
        accounts,
        AdminInstruction::PermManager,
        no_params.as_slice(),
        nonce,
        current_time,
    )?;
    if left > 0 {
        return Ok(left);
    }
    t_yield.paused = true;
    Ok(0)
}

/// The parameters of a new master agent; the name, symbol, URI and fee go
/// to its token metadata.
#[derive(Debug)]
pub struct MintMasterAgentParams {
    pub name: String,
    pub symbol: String,
    pub uri: String,
    pub seller_fee_basis_points: u16,
    pub price: u64,
    pub w_yield: u64,
    pub max_supply: u64,
    pub trading_status: TradingStatus,
    pub auto_relist: bool,
}

/// Checks a new master agent and signs its deployment (see
/// `mint_master_agent_checks`); once it has all its signatures the master
/// agent is set up for `authority` and checked (see `create_master_agent`).
/// Answers the signatures still needed.
pub fn mint_master_agent(
    t_yield: &TYield,
    multisig: &mut Multisig,
    payer: &SignerInfo,
    accounts: &[Pubkey],
    master_agent: &mut MasterAgent,
    authority: Pubkey,
    mint: Pubkey,
    params: &MintMasterAgentParams,
    params_data: &[u8],
    master_agent_bump: u8,
    current_time: i64,
) -> (r: TYieldResult<u8>)
    requires
        sign_time_ok(old(multisig)@, current_time),
        lookup_ok(old(multisig)@, payer.key),
    ensures
        ({
            let checks = mint_master_agent_check(
                *t_yield,
                params.price,
                params.w_yield,
                params.max_supply,
                current_time,
            );
            let step = approval_step(
                old(multisig)@,
                *payer,
                accounts@,
                AdminInstruction::DeployAgent,
                params_data@,
                time_nonce(current_time),
                current_time,
            );
            &&& checks matches Err(e) ==> r == Err::<u8, ErrorCode>(e) && final(multisig)@ == old(multisig)@ && *final(master_agent) == *old(master_agent)
            &&& checks is Ok ==> final(multisig)@ == step.1
            &&& checks is Ok && step.0 != Ok::<u8, ErrorCode>(0) ==> r == step.0 && *final(master_agent) == *old(master_agent)
            &&& checks is Ok && step.0 == Ok::<u8, ErrorCode>(0) ==> *final(master_agent) == (
            MasterAgent {
                authority,
                mint,
                price: params.price,
                w_yield: params.w_yield,
                trading_status: trading_byte(params.trading_status),
                max_supply: params.max_supply,
                agent_count: 0,
                trade_count: 0,
                auto_relist: params.auto_relist,
                last_updated: current_time,
                created_at: current_time,
                bump: master_agent_bump,
                tax_config: TaxConfig {
                    buy_tax_percentage: 250,
                    sell_tax_percentage: 250,
                    max_tax_percentage: 1000,
                },
                ..*old(master_agent)
            }) && r == (match final(master_agent).security_check(current_time) {
                Ok(()) => Ok::<u8, ErrorCode>(0),
                Err(e) => Err(e),
            })
        }),
{
    mint_master_agent_checks(t_yield, params.price, params.w_yield, params.max_supply, current_time)?;
    let left = approve_admin_instruction(
        multisig,
        payer,
        accounts,
        AdminInstruction::DeployAgent,
        params_data,
        current_time as u64,
        current_time,
    )?;
    if left > 0 {
        return Ok(left);
    }
    create_master_agent(
        master_agent,
        authority,
        mint,
        params.price,
        params.w_yield,
        params.trading_status,
        params.max_supply,
        params.auto_relist,
        current_time,
        master_agent_bump,
    )?;
    Ok(0)
}

/// Signs the minting of an agent; once it has all its signatures the agent
/// is created (see `create_agent`). Answers the signatures still needed.
pub fn mint_agent(
    t_yield: &TYield,
    multisig: &mut Multisig,
    payer: &SignerInfo,
    accounts: &[Pubkey],
    params_data: &[u8],
    master_agent: &mut MasterAgent,
    master_agent_key: Pubkey,
    agent: &mut Agent,
    mint: Pubkey,
    owner: Pubkey,
    agent_bump: u8,
    current_time: i64,
) -> (r: TYieldResult<u8>)
    requires
        sign_time_ok(old(multisig)@, current_time),
        lookup_ok(old(multisig)@, payer.key),
    ensures
        ({
            let step = approval_step(
                old(multisig)@,
                *payer,
                accounts@,
                AdminInstruction::DeployAgent,
                params_data@,
                time_nonce(current_time),
                current_time,
            );
            &&& final(multisig)@ == step.1
            &&& step.0 != Ok::<u8, ErrorCode>(0) ==> r == step.0 && *final(master_agent) == *old(master_agent) && *final(agent) == *old(agent)
            &&& step.0 == Ok::<u8, ErrorCode>(0) ==> (!t_yield.permissions.allow_agent_deploy
                || old(master_agent).agent_count >= old(master_agent).max_supply ==> r == Err::<
                u8,
                ErrorCode,
            >(ErrorCode::CannotPerformAction) && *final(master_agent) == *old(master_agent)
                && *final(agent) == *old(agent))
            &&& step.0 == Ok::<u8, ErrorCode>(0) ==> (r is Ok ==> r == Ok::<u8, ErrorCode>(0)
                && final(agent).master_agent == master_agent_key && final(agent).mint == mint
                && final(agent).owner == owner && final(agent).booster == 10 && final(
            agent).is_listed && final(agent).created_at == current_time && final(
            master_agent).agent_count == old(master_agent).agent_count + 1)
            &&& step.0 == Ok::<u8, ErrorCode>(0) ==> (r is Ok <==> (
            t_yield.permissions.allow_agent_deploy && old(master_agent).agent_count < old(master_agent).max_supply && master_agent_key != Pubkey::spec_default() && mint
                != Pubkey::spec_default() && owner != Pubkey::spec_default() && current_time > 0))
        }),
{
    let left = approve_admin_instruction(
        multisig,
        payer,
        accounts,
        AdminInstruction::DeployAgent,
        params_data,
        current_time as u64,
        current_time,
    )?;
    if left > 0 {
        return Ok(left);
    }
    create_agent(
        t_yield,
        master_agent,
        master_agent_key,
        agent,
        mint,
        owner,
        agent_bump,
        current_time,
    )
}

/// Signs a yield change; once it has all its signatures the master agent's
/// yield changes (see `MasterAgent::update_yield`, with the signer as
/// authority) and the total yield of its agents must still be computable.
/// Answers the signatures still needed.
pub fn update_yield(
    master_agent: &mut MasterAgent,
    multisig: &mut Multisig,
    authority: &SignerInfo,
    accounts: &[Pubkey],
    new_yield_rate: u64,
    params_data: &[u8],
    current_time: i64,
) -> (r: TYieldResult<u8>)
    requires
        sign_time_ok(old(multisig)@, current_time),
        lookup_ok(old(multisig)@, authority.key),
    ensures
        ({
            let step = approval_step(
                old(multisig)@,
                *authority,
                accounts@,
                AdminInstruction::UpdateYield,
                params_data@,
                time_nonce(current_time),
                current_time,
            );
            let check = old(master_agent).yield_update_check(
                new_yield_rate,
                current_time,
                authority.key,
            );
            let updated = MasterAgent {
                w_yield: new_yield_rate,
                last_updated: current_time,
                ..*old(master_agent)
            };
            &&& final(multisig)@ == step.1
            &&& step.0 != Ok::<u8, ErrorCode>(0) ==> r == step.0 && *final(master_agent) == *old(master_agent)
            &&& step.0 == Ok::<u8, ErrorCode>(0) ==> (check matches Err(e) ==> r == Err::<
                u8,
                ErrorCode,
            >(e) && *final(master_agent) == *old(master_agent))
            &&& step.0 == Ok::<u8, ErrorCode>(0) && check is Ok ==> *final(master_agent)
                == updated && r == (match updated.total_yield() {
                Ok(_) => Ok::<u8, ErrorCode>(0),
                Err(e) => Err(e),
            })
        }),
{
    let left = approve_admin_instruction(
        multisig,
        authority,
        accounts,
        AdminInstruction::UpdateYield,
        params_data,
        current_time as u64,
        current_time,
    )?;
    if left > 0 {
        return Ok(left);
    }
    master_agent.update_yield(new_yield_rate, current_time, &authority.key)?;
    master_agent.get_total_yield_generated()?;
    Ok(0)
}

/// Signs a price change; once it has all its signatures the change must be
/// within the protocol's price allowance (see
/// `MasterAgent::price_allowance_check`) and the master agent's price changes
/// (see `MasterAgent::update_price`), with the signer as authority. Answers
/// the signatures still needed.
pub fn update_price(
    t_yield: &TYield,
    master_agent: &mut MasterAgent,
    multisig: &mut Multisig,
    authority: &SignerInfo,
    accounts: &[Pubkey],
    new_price: u64,
    params_data: &[u8],
    current_time: i64,
) -> (r: TYieldResult<u8>)
    requires
        sign_time_ok(old(multisig)@, current_time),
        lookup_ok(old(multisig)@, authority.key),
    ensures
        ({
            let step = approval_step(
                old(multisig)@,
                *authority,
                accounts@,
                AdminInstruction::UpdatePrice,
                params_data@,
                time_nonce(current_time),
                current_time,
            );
            let allowance = old(master_agent).price_allowance_check(
                new_price,
                t_yield.max_agent_price_new,
                authority.key,
                current_time,
            );
            let check = old(master_agent).price_update_check(new_price, current_time, authority.key);
            &&& final(multisig)@ == step.1
            &&& step.0 != Ok::<u8, ErrorCode>(0) ==> r == step.0 && *final(master_agent) == *old(master_agent)
            &&& step.0 == Ok::<u8, ErrorCode>(0) ==> (allowance matches Err(e) ==> r == Err::<
                u8,
                ErrorCode,
            >(e) && *final(master_agent) == *old(master_agent))
            &&& step.0 == Ok::<u8, ErrorCode>(0) && allowance is Ok ==> (check matches Err(e)
                ==> r == Err::<u8, ErrorCode>(e) && *final(master_agent) == *old(master_agent))
            &&& step.0 == Ok::<u8, ErrorCode>(0) && allowance is Ok && check is Ok ==> r == Ok::<
                u8,
                ErrorCode,
            >(0)
                && *final(master_agent) == (MasterAgent {
                price: new_price,
                last_updated: current_time,
                last_price_update: current_time,
                ..*old(master_agent)
            })
        }),
{
    let left = approve_admin_instruction(
        multisig,
        authority,
        accounts,
        AdminInstruction::UpdatePrice,
        params_data,
        current_time as u64,
        current_time,
    )?;
    if left > 0 {
        return Ok(left);
    }
    master_agent.can_update_price_secure_with_time(
        new_price,
        t_yield.max_agent_price_new,
        &authority.key,
        current_time,
    )?;
    master_agent.update_price(new_price, current_time, &authority.key)?;
    Ok(0)
}

/// The user after a ban: no longer active, banned.
pub open spec fn banned(user: User) -> User {
    User { status: (user.status & !1u8) | 2u8, ..user }
}

/// Signs a ban; once it has all its signatures the user is banned and must
/// still be valid (see `User::validity`). Answers the signatures still needed.
pub fn ban_user(
    user: &mut User,
    multisig: &mut Multisig,
    admin: &SignerInfo,
    accounts: &[Pubkey],
    current_time: i64,
) -> (r: TYieldResult<u8>)
    requires
        sign_time_ok(old(multisig)@, current_time),
        lookup_ok(old(multisig)@, admin.key),
    ensures
        ({
            let step = approval_step(
                old(multisig)@,
                *admin,
                accounts@,
                AdminInstruction::BanUser,
                Seq::empty(),
                time_nonce(current_time),
                current_time,
            );
            &&& final(multisig)@ == step.1
            &&& step.0 != Ok::<u8, ErrorCode>(0) ==> r == step.0 && *final(user) == *old(user)
            &&& step.0 == Ok::<u8, ErrorCode>(0) ==> *final(user) == banned(*old(user)) && r == (
            match banned(*old(user)).validity() {
                Ok(()) => Ok::<u8, ErrorCode>(0),
                Err(e) => Err(e),
            })
        }),
{
    let no_params: Vec<u8> = Vec::new();
    let left = approve_admin_instruction(
        multisig,
        admin,
        accounts,
        AdminInstruction::BanUser,
        no_params.as_slice(),
        current_time as u64,
        current_time,
    )?;
    if left > 0 {
        return Ok(left);
    }
    user.ban_user()?;
    user.validate_user()?;
    Ok(0)
}

/// The status an admin gives a user.
#[derive(Clone, Copy, PartialEq, Eq, Structural, Debug)]
pub struct UpdateStatusParams {
    pub status: UserStatus,
}

/// Signs a status change; once it has all its signatures the status is
/// added to the user (see `status_after_add`; a refused change is
/// `CannotPerformAction`). Answers the signatures still needed.
pub fn update_status(
    user: &mut User,
    multisig: &mut Multisig,
    admin: &SignerInfo,
    accounts: &[Pubkey],
    params: &UpdateStatusParams,
    params_data: &[u8],
    current_time: i64,
) -> (r: TYieldResult<u8>)
    requires
        sign_time_ok(old(multisig)@, current_time),
        lookup_ok(old(multisig)@, admin.key),
    ensures
        ({
            let step = approval_step(
                old(multisig)@,
                *admin,
                accounts@,
                AdminInstruction::PermManager,
                params_data@,
                time_nonce(current_time),
                current_time,
            );
            &&& final(multisig)@ == step.1
            &&& step.0 != Ok::<u8, ErrorCode>(0) ==> r == step.0 && *final(user) == *old(user)
            &&& step.0 == Ok::<u8, ErrorCode>(0) ==> (match status_after_add(
                old(user).status,
                params.status,
            ) {
                Some(s) => r == Ok::<u8, ErrorCode>(0) && *final(user) == (User {
                    status: s,
                    ..*old(user)
                }),
                None => r == Err::<u8, ErrorCode>(ErrorCode::CannotPerformAction) && *final(user)
                    == *old(user),
            })
        }),
{
    let left = approve_admin_instruction(
        multisig,
        admin,
        accounts,
        AdminInstruction::PermManager,
        params_data,
        current_time as u64,
        current_time,
    )?;
    if left > 0 {
        return Ok(left);
    }
    user.add_user_status(params.status)?;
    Ok(0)
}

} // verus!
