use tubor_yield::error::ErrorCode;
use tubor_yield::math::constants::QUOTE_PRECISION_U64;
use tubor_yield::pubkey::Pubkey;
use tubor_yield::state::user::{History, ReferralLink, ReferralRegistry, User, UserStatus};

/// A distinct, non-default key for each `n`.
fn key(n: u8) -> Pubkey {
    let mut bytes = [0u8; 32];
    bytes[0] = n;
    bytes[31] = 0x3C;
    Pubkey::new_from_array(bytes)
}

fn create_test_user() -> User {
    let mut user = User::default();
    user.authority = key(1);
    user.created_at = 1000;
    user.updated_at = 1000;

    let test_name = b"test_user";
    let mut name_array = [0u8; 15];
    name_array[..test_name.len()].copy_from_slice(test_name);
    user.name = name_array;

    user
}

fn create_test_user_with_status(status: UserStatus) -> User {
    let mut user = create_test_user();
    user.status = status.bits();
    user
}

#[test]
fn test_user_memory_layout() {
    let user = User::default();
    assert_eq!(user.authority, Pubkey::default());
    assert_eq!(user.delegate, Pubkey::default());
    assert_eq!(user.name, [0; 15]);
    assert_eq!(user.total_agents_owned, 0);
    assert_eq!(user.total_agents_purchased, 0);
    assert_eq!(user.total_unclaimed_yield, 0);
    assert_eq!(user.status, UserStatus::Banned.bits());
    assert_eq!(user.idle, false);
    assert_eq!(user._padding, [0; 7]);
    assert_eq!(user.referrer, Pubkey::default());
    assert_eq!(user.updated_at, 0);
    assert_eq!(user.created_at, 0);
    assert_eq!(user.bump, 0);
}

#[test]
fn test_user_status_management() {
    let mut user = create_test_user();

    assert!(!user.is_active());
    assert!(user.is_banned());
    assert!(!user.is_whitelisted());

    user.remove_user_status(UserStatus::Banned).unwrap();
    user.add_user_status(UserStatus::Active).unwrap();
    assert!(user.is_active());
    assert!(!user.is_banned());

    user.add_user_status(UserStatus::WithListed).unwrap();
    assert!(user.is_whitelisted());

    user.remove_user_status(UserStatus::Banned).unwrap();
    assert!(!user.is_banned());
    assert!(user.is_active());
    assert!(user.is_whitelisted());

    let flags = user.get_status_flags();
    assert_eq!(flags.len(), 2);
    assert!(flags.contains(&UserStatus::Active));
    assert!(flags.contains(&UserStatus::WithListed));

    let status_str = user.get_status_string();
    assert!(status_str.contains("Active"));
    assert!(status_str.contains("Whitelisted"));
}

#[test]
fn test_ban_and_unban_user() {
    let mut user = create_test_user_with_status(UserStatus::Active);

    user.ban_user().unwrap();
    assert!(user.is_banned());
    assert!(!user.is_active());

    user.un_ban_user().unwrap();
    assert!(!user.is_banned());
    assert!(user.is_active());
}

#[test]
fn test_whitelist_management() {
    let mut user = create_test_user();

    user.whitelist_user().unwrap();
    assert!(user.is_whitelisted());

    user.remove_whitelist_user().unwrap();
    assert!(!user.is_whitelisted());
}

#[test]
fn test_yield_management() {
    let mut user = create_test_user();

    user.add_unclaimed_yield(1000).unwrap();
    assert_eq!(user.get_claimable_yield(), 1000);

    user.add_unclaimed_yield(500).unwrap();
    assert_eq!(user.get_claimable_yield(), 1500);

    user.claim_yield(800).unwrap();
    assert_eq!(user.get_claimable_yield(), 700);
    assert_eq!(user.get_total_yield_ever_claimed(), 800);

    let result = user.claim_yield(1000);
    assert!(result.is_err());
    assert_eq!(user.get_claimable_yield(), 700);
}

#[test]
fn test_yield_statistics() {
    let mut user = create_test_user();

    user.add_unclaimed_yield(1000).unwrap();
    user.claim_yield(600).unwrap();

    assert_eq!(user.get_total_yield_ever_claimed(), 600);
    assert_eq!(user.get_lifetime_yield_earned().unwrap(), 1000);
}

#[test]
fn test_agent_management() {
    let mut user = create_test_user();

    user.add_agent(1000).unwrap();
    assert_eq!(user.get_agent_count(), 1);
    assert_eq!(user.get_total_agents_purchased(), 1000);

    user.add_agent(2000).unwrap();
    assert_eq!(user.get_agent_count(), 2);
    assert_eq!(user.get_total_agents_purchased(), 3000);

    user.remove_agent(1000).unwrap();
    assert_eq!(user.get_agent_count(), 1);
    assert_eq!(user.get_total_agents_purchased(), 3000);

    user.remove_agent(1000).unwrap();
    let result = user.remove_agent(1000);
    assert!(result.is_err());
}

#[test]
fn test_fee_management() {
    let mut user = create_test_user();

    user.add_fees_spent(100).unwrap();
    assert_eq!(user.get_total_fees_spent(), 100);

    user.add_fees_spent(200).unwrap();
    assert_eq!(user.get_total_fees_spent(), 300);
}

#[test]
fn test_referral_management() {
    let mut user = create_test_user();

    user.add_referral_earnings(500).unwrap();
    assert_eq!(user.get_total_referral_earnings(), 500);

    user.add_referral_earnings(300).unwrap();
    assert_eq!(user.get_total_referral_earnings(), 800);

    assert!(!user.has_referrer());

    let referrer = key(2);
    user.set_referrer(referrer).unwrap();
    assert!(user.has_referrer());
}

#[test]
fn test_time_based_functions() {
    let mut user = create_test_user();
    let current_time = 2000;

    user.update_last_activity(current_time).unwrap();
    assert_eq!(user.updated_at, current_time);
    assert!(!user.is_idle());

    let idle_threshold = 1000;
    user.check_idle_status(current_time + 500, idle_threshold).unwrap();
    assert!(!user.is_idle());

    user.check_idle_status(current_time + 1500, idle_threshold).unwrap();
    assert!(user.is_idle());

    assert_eq!(user.get_days_since_created(current_time).unwrap(), 0);
    assert_eq!(user.get_days_since_updated(current_time).unwrap(), 0);

    let future_time = current_time + 86400 * 2;
    assert_eq!(user.get_days_since_created(future_time).unwrap(), 2);
    assert_eq!(user.get_days_since_updated(future_time).unwrap(), 2);
}

#[test]
fn test_name_management() {
    let mut user = create_test_user();

    let test_name = b"test_user_name";
    let mut name_array = [0u8; 15];
    name_array[..test_name.len()].copy_from_slice(test_name);

    user.set_name(name_array).unwrap();
    assert_eq!(user.get_name(), name_array);
    assert_eq!(user.get_name_string(), "test_user_name");

    let name_with_nulls = [b't', b'e', b's', b't', 0, 0, 0];
    let mut name_array = [0u8; 15];
    name_array[..7].copy_from_slice(&name_with_nulls);

    user.set_name(name_array).unwrap();
    assert_eq!(user.get_name_string(), "test");
}

#[test]
fn test_delegate_management() {
    let mut user = create_test_user();

    assert!(!user.has_delegate());

    let delegate = key(3);
    user.set_delegate(delegate).unwrap();
    assert_eq!(user.get_delegate(), delegate);
    assert!(user.has_delegate());

    user.clear_delegate();
    assert_eq!(user.get_delegate(), Pubkey::default());
    assert!(!user.has_delegate());
}

#[test]
fn test_user_validation() {
    let mut user = create_test_user();

    assert!(user.validate_user().is_ok());

    user.authority = Pubkey::default();
    assert!(user.validate_user().is_err());

    user = create_test_user();
    user.created_at = 0;
    assert!(user.validate_user().is_err());

    user = create_test_user();
    user.updated_at = user.created_at - 1;
    assert!(user.validate_user().is_err());
}

#[test]
fn user_test_can_perform_actions() {
    let mut user = create_test_user_with_status(UserStatus::Active);
    assert!(user.can_perform_actions());

    user.ban_user().unwrap();
    assert!(!user.can_perform_actions());

    user.un_ban_user().unwrap();
    assert!(user.can_perform_actions());
}

#[test]
fn test_reset_functions() {
    let mut user = create_test_user();

    user.add_unclaimed_yield(1000).unwrap();
    user.add_agent(2000).unwrap();
    user.add_fees_spent(300).unwrap();
    user.add_referral_earnings(400).unwrap();

    user.reset_yield();
    assert_eq!(user.get_claimable_yield(), 0);
    assert_eq!(user.get_total_yield_ever_claimed(), 0);

    user.reset_agents();
    assert_eq!(user.get_agent_count(), 0);
    assert_eq!(user.get_total_agents_purchased(), 0);

    user.reset_fees();
    assert_eq!(user.get_total_fees_spent(), 0);

    user.reset_referral_earnings();
    assert_eq!(user.get_total_referral_earnings(), 0);
}

#[test]
fn test_history_functions() {
    let mut history = History::default();

    history.add_agents_purchased(1000).unwrap();
    history.add_fees_spent(100).unwrap();
    history.add_yield_claimed(500).unwrap();
    history.add_referral_earnings(200).unwrap();

    assert_eq!(history.total_agents_ever_purchased, 1000);
    assert_eq!(history.total_fees_spent, 100);
    assert_eq!(history.total_yield_claimed, 500);
    assert_eq!(history.total_referral_earnings_ever, 200);

    assert_eq!(history.get_total_lifetime_value().unwrap(), 1700);
    assert_eq!(history.get_roi_percentage().unwrap(), 70);
    assert!(!history.is_profitable().unwrap());
    assert_eq!(history.get_net_pnl().unwrap(), -300);
    assert_eq!(history.get_profit_margin().unwrap(), 0);

    assert_eq!(history.get_yield_efficiency().unwrap(), 500 * QUOTE_PRECISION_U64 / 1000);
    assert_eq!(history.get_referral_efficiency().unwrap(), 200 * QUOTE_PRECISION_U64 / 1000);
    assert_eq!(history.get_fee_ratio().unwrap(), 100 * QUOTE_PRECISION_U64 / 1000);

    let summary = history.get_summary().unwrap();
    assert_eq!(summary.0, 1000);
    assert_eq!(summary.1, 100);
    assert_eq!(summary.2, 500);
    assert_eq!(summary.3, 200);
    assert_eq!(summary.4, 1700);
}

#[test]
fn test_history_edge_cases() {
    let history = History::default();

    assert_eq!(history.get_roi_percentage().unwrap(), 0);
    assert_eq!(history.get_yield_efficiency().unwrap(), 0);
    assert_eq!(history.get_referral_efficiency().unwrap(), 0);
    assert_eq!(history.get_fee_ratio().unwrap(), 0);
    assert_eq!(history.get_profit_margin().unwrap(), 0);
    assert!(!history.is_profitable().unwrap());
    assert_eq!(history.get_net_pnl().unwrap(), 0);
}

#[test]
fn test_referral_registry_basic() {
    let mut registry = ReferralRegistry::default();
    let referrer = key(4);

    registry.referrer = referrer;
    registry.created_at = 1000;
    registry.updated_at = 1000;
    registry.total_referred_users = 1;

    registry.add_referral_earnings(1000).unwrap();
    assert_eq!(registry.total_referral_earnings, 1000);
    assert_eq!(registry.get_average_earnings_per_user().unwrap(), 1000);
}

#[test]
fn test_referral_registry_validation() {
    let mut registry = ReferralRegistry::default();

    assert!(registry.validate_registry().is_err());

    registry.referrer = key(5);
    registry.created_at = 1000;
    registry.updated_at = 1000;
    assert!(registry.validate_registry().is_ok());

    registry.updated_at = registry.created_at - 1;
    assert!(registry.validate_registry().is_err());
}

#[test]
fn test_referral_registry_statistics() {
    let mut registry = ReferralRegistry::default();
    registry.referrer = key(6);
    registry.created_at = 1000;
    registry.updated_at = 1000;
    registry.total_referred_users = 1;

    registry.add_referral_earnings(1000).unwrap();

    let stats = registry.get_referral_stats().unwrap();
    assert_eq!(stats.0, 1);
    assert_eq!(stats.1, 1000);
    assert_eq!(stats.2, 1000);

    let current_time = 2000;
    assert_eq!(registry.get_days_since_created(current_time).unwrap(), 0);
    assert_eq!(registry.get_days_since_updated(current_time).unwrap(), 0);

    let future_time = current_time + 86400 * 3;
    assert_eq!(registry.get_days_since_created(future_time).unwrap(), 3);
    assert_eq!(registry.get_days_since_updated(future_time).unwrap(), 3);
}

#[test]
fn test_user_integration_scenario() {
    let mut user = create_test_user_with_status(UserStatus::Active);

    user.add_agent(1000).unwrap();
    user.add_unclaimed_yield(500).unwrap();
    user.add_fees_spent(50).unwrap();
    user.add_referral_earnings(100).unwrap();

    user.claim_yield(300).unwrap();

    user.update_last_activity(2000).unwrap();

    assert_eq!(user.get_agent_count(), 1);
    assert_eq!(user.get_claimable_yield(), 200);
    assert_eq!(user.get_total_yield_ever_claimed(), 300);
    assert_eq!(user.get_total_fees_spent(), 50);
    assert_eq!(user.get_total_referral_earnings(), 100);
    assert!(!user.is_idle());
    assert!(user.can_perform_actions());
}

#[test]
fn test_yield_claim_rate_calculation() {
    let mut user = create_test_user();

    user.add_agent(1000).unwrap();
    user.add_agent(2000).unwrap();

    user.add_unclaimed_yield(600).unwrap();
    user.claim_yield(400).unwrap();

    let expected_rate = (400 * QUOTE_PRECISION_U64) / 3000;
    assert_eq!(user.get_yield_claim_rate().unwrap(), expected_rate);

    let empty_user = create_test_user();
    assert_eq!(empty_user.get_yield_claim_rate().unwrap(), 0);
}

#[test]
fn test_status_combinations() {
    let mut user = create_test_user();

    user.remove_user_status(UserStatus::Banned).unwrap();

    user.add_user_status(UserStatus::Active).unwrap();
    user.add_user_status(UserStatus::WithListed).unwrap();

    assert!(user.is_active());
    assert!(user.is_whitelisted());
    assert!(!user.is_banned());

    let status_str = user.get_status_string();
    assert!(status_str.contains("Active"));
    assert!(status_str.contains("Whitelisted"));
    assert!(!status_str.contains("Banned"));

    user.remove_user_status(UserStatus::Active).unwrap();
    assert!(!user.is_active());
    assert!(user.is_whitelisted());

    let status_str = user.get_status_string();
    assert!(!status_str.contains("Active"));
    assert!(status_str.contains("Whitelisted"));
}

#[test]
fn test_edge_cases_and_error_handling() {
    let mut user = create_test_user();

    user.add_unclaimed_yield(100).unwrap();
    let result = user.claim_yield(200);
    assert!(result.is_err());
    assert_eq!(user.get_claimable_yield(), 100);

    let result = user.remove_agent(100);
    assert!(result.is_err());
}

#[test]
fn test_profitable_history_scenario() {
    let mut history = History::default();

    history.add_agents_purchased(1000).unwrap();
    history.add_yield_claimed(800).unwrap();
    history.add_referral_earnings(400).unwrap();

    assert!(history.is_profitable().unwrap());
    assert_eq!(history.get_net_pnl().unwrap(), 200);
    assert_eq!(history.get_profit_margin().unwrap(), 20);
    assert_eq!(history.get_roi_percentage().unwrap(), 120);
}

#[test]
fn test_user_comprehensive_scenario() {
    let mut user = create_test_user();

    user.remove_user_status(UserStatus::Banned).unwrap();
    user.add_user_status(UserStatus::Active).unwrap();
    user.add_user_status(UserStatus::WithListed).unwrap();

    user.add_agent(1000).unwrap();
    user.add_agent(2000).unwrap();
    user.add_agent(1500).unwrap();

    user.add_unclaimed_yield(1000).unwrap();
    user.claim_yield(600).unwrap();

    user.add_fees_spent(200).unwrap();
    user.add_referral_earnings(300).unwrap();

    let delegate = key(7);
    let referrer = key(8);
    user.set_delegate(delegate).unwrap();
    user.set_referrer(referrer).unwrap();

    let name = b"test_user_123";
    let mut name_array = [0u8; 15];
    name_array[..name.len()].copy_from_slice(name);
    user.set_name(name_array).unwrap();

    user.update_last_activity(2000).unwrap();

    assert_eq!(user.get_agent_count(), 3);
    assert_eq!(user.get_total_agents_purchased(), 4500);
    assert_eq!(user.get_claimable_yield(), 400);
    assert_eq!(user.get_total_yield_ever_claimed(), 600);
    assert_eq!(user.get_total_fees_spent(), 200);
    assert_eq!(user.get_total_referral_earnings(), 300);
    assert_eq!(user.get_lifetime_yield_earned().unwrap(), 1000);
    assert_eq!(user.get_name_string(), "test_user_123");
    assert_eq!(user.get_delegate(), delegate);
    assert!(user.has_delegate());
    assert!(user.has_referrer());
    assert!(user.is_active());
    assert!(user.is_whitelisted());
    assert!(!user.is_banned());
    assert!(!user.is_idle());
    assert!(user.can_perform_actions());

    let flags = user.get_status_flags();
    assert_eq!(flags.len(), 2);
    assert!(flags.contains(&UserStatus::Active));
    assert!(flags.contains(&UserStatus::WithListed));

    let expected_rate = (600 * QUOTE_PRECISION_U64) / 4500;
    assert_eq!(user.get_yield_claim_rate().unwrap(), expected_rate);
}

#[test]
fn test_history_calculations_edge_cases() {
    let mut history = History::default();

    history.add_agents_purchased(u64::MAX / 2).unwrap();
    history.add_yield_claimed(u64::MAX / 4).unwrap();
    history.add_referral_earnings(u64::MAX / 4).unwrap();

    assert!(!history.is_profitable().unwrap());

    let empty_history = History::default();
    assert_eq!(empty_history.get_total_lifetime_value().unwrap(), 0);
    assert_eq!(empty_history.get_roi_percentage().unwrap(), 0);
    assert!(!empty_history.is_profitable().unwrap());
    assert_eq!(empty_history.get_net_pnl().unwrap(), 0);
    assert_eq!(empty_history.get_profit_margin().unwrap(), 0);
}

#[test]
fn test_referral_registry_edge_cases() {
    let mut registry = ReferralRegistry::default();
    registry.referrer = key(9);
    registry.created_at = 1000;
    registry.updated_at = 1000;

    assert_eq!(registry.get_average_earnings_per_user().unwrap(), 0);

    registry.total_referred_users = 1;
    registry.add_referral_earnings(500).unwrap();

    assert_eq!(registry.get_average_earnings_per_user().unwrap(), 500);
}

#[test]
fn test_user_validation_edge_cases() {
    let mut user = create_test_user();

    assert!(user.validate_user().is_ok());

    user.authority = Pubkey::default();
    assert!(user.validate_user().is_err());

    user = create_test_user();
    user.created_at = 0;
    assert!(user.validate_user().is_err());

    user = create_test_user();
    user.updated_at = user.created_at - 1;
    assert!(user.validate_user().is_err());

    user = create_test_user();
    user.created_at = -1;
    assert!(user.validate_user().is_err());
}

#[test]
fn test_time_calculations_edge_cases() {
    let mut user = create_test_user();

    assert_eq!(user.get_days_since_created(user.created_at).unwrap(), 0);
    assert_eq!(user.get_days_since_updated(user.updated_at).unwrap(), 0);

    let future_time = user.created_at + 86400 * 10;
    assert_eq!(user.get_days_since_created(future_time).unwrap(), 10);
    assert_eq!(user.get_days_since_updated(future_time).unwrap(), 10);

    user.update_last_activity(1000).unwrap();
    user.check_idle_status(1000, 0).unwrap();
    assert!(!user.is_idle());

    user.check_idle_status(1002, 1).unwrap();
    assert!(user.is_idle());
}

#[test]
fn test_referral_link_creation_and_validation() {
    let referrer = key(10);
    let referred_user = key(11);
    let created_at = 1_700_000_000;
    let bump = 1;
    let link = ReferralLink::new(referrer, referred_user, created_at, bump);
    assert_eq!(link.referrer, referrer);
    assert_eq!(link.referred_user, referred_user);
    assert_eq!(link.created_at, created_at);
    assert_eq!(link.bump, bump);
    assert!(link.validate().is_ok());
}

#[test]
fn test_referral_link_invalid_cases() {
    let valid_pk = key(12);
    let created_at = 1_700_000_000;
    let bump = 1;
    let link = ReferralLink::new(Pubkey::default(), valid_pk, created_at, bump);
    assert!(link.validate().is_err());
    let link = ReferralLink::new(valid_pk, Pubkey::default(), created_at, bump);
    assert!(link.validate().is_err());
    let link = ReferralLink::new(valid_pk, valid_pk, 0, bump);
    assert!(link.validate().is_err());
}

#[test]
fn test_referral_link_age_and_update() {
    let referrer = key(13);
    let referred_user = key(14);
    let created_at = 1_700_000_000;
    let bump = 1;
    let mut link = ReferralLink::new(referrer, referred_user, created_at, bump);
    let current_time = created_at + 86400 * 5;
    assert_eq!(link.get_age_days(current_time), 5);
    link.update_timestamp(created_at + 86400 * 10);
    assert_eq!(link.get_age_days(created_at + 86400 * 15), 5);
}

#[test]
fn test_referral_link_reset() {
    let referrer = key(15);
    let referred_user = key(16);
    let created_at = 1_700_000_000;
    let bump = 1;
    let mut link = ReferralLink::new(referrer, referred_user, created_at, bump);
    link.reset();
    assert_eq!(link.referrer, Pubkey::default());
    assert_eq!(link.referred_user, Pubkey::default());
    assert_eq!(link.created_at, 0);
    assert_eq!(link.bump, 0);
    assert_eq!(link._padding, [0; 7]);
}

#[test]
fn banned_user_cannot_be_made_active() {
    let mut user = create_test_user_with_status(UserStatus::Active);
    user.ban_user().unwrap();
    assert_eq!(user.add_user_status(UserStatus::Active), Err(ErrorCode::CannotPerformAction));
    user.add_user_status(UserStatus::WithListed).unwrap();
    assert!(user.is_banned());
    assert!(!user.is_active());
}

#[test]
fn referral_registry_claims_conserve_earnings() {
    let mut registry = ReferralRegistry::default();
    registry.add_unclaimed_referral_earnings(700).unwrap();
    let before = registry.total_referral_earnings_uc + registry.total_referral_earnings;
    registry.claim_referral_earnings(300).unwrap();
    assert_eq!(registry.total_referral_earnings_uc, 400);
    assert_eq!(registry.total_referral_earnings, 300);
    assert_eq!(registry.total_referral_earnings_uc + registry.total_referral_earnings, before);
    assert_eq!(registry.claim_referral_earnings(500), Err(ErrorCode::InsufficientFunds));
    assert_eq!(registry.claim_referral_earnings(0), Err(ErrorCode::MathError));
}
