use tubor_yield::error::ErrorCode;
use tubor_yield::pubkey::Pubkey;
use tubor_yield::state::t_yield::{program_id, TYield};

#[test]
fn test_t_yield_memory_layout() {
    let t_yield = TYield::default();
    assert_eq!(t_yield.y_mint, Pubkey::default());
    assert_eq!(t_yield.buy_tax, 0);
    assert_eq!(t_yield.sell_tax, 0);
    assert_eq!(t_yield.inception_time, 0);
    assert_eq!(t_yield.transfer_authority_bump, 0);
    assert_eq!(t_yield.t_yield_bump, 0);
    assert_eq!(t_yield.paused, false);
    assert_eq!(t_yield._padding, [0; 3]);
    assert_eq!(t_yield.circuit_breaker.is_triggered, false);
    assert_eq!(t_yield.rate_limiter.last_update_time, 0);
    assert_eq!(t_yield.parameter_bounds.max_tax_percentage, 0);
}

#[test]
fn test_validate_tax_parameters() {
    let mut t_yield = TYield::default();
    t_yield.parameter_bounds.max_tax_percentage = 1000;
    assert!(t_yield.validate_tax_parameters(500, 800).is_ok());
    assert!(t_yield.validate_tax_parameters(1500, 800).is_err());
    assert!(t_yield.validate_tax_parameters(500, 1200).is_err());
    assert!(t_yield.validate_tax_parameters(10001, 0).is_err());
}

#[test]
fn test_validate_protocol_balance() {
    let mut t_yield = TYield::default();
    t_yield.parameter_bounds.max_protocol_balance = 1_000_000;
    assert!(t_yield.validate_protocol_balance(500_000).is_ok());
    assert!(t_yield.validate_protocol_balance(1_000_001).is_err());
}

#[test]
fn test_rate_limiter() {
    let mut t_yield = TYield::default();
    t_yield.rate_limiter.last_update_time = 100;
    t_yield.rate_limiter.min_interval_sec = 10;
    t_yield.rate_limiter.max_updates_per_day = 2;
    t_yield.rate_limiter.daily_update_count = 1;
    t_yield.rate_limiter.last_reset_day = 0;
    assert!(t_yield.check_rate_limit(105).is_err());
    assert!(t_yield.check_rate_limit(111).is_ok());
    t_yield.rate_limiter.daily_update_count = 2;
    t_yield.rate_limiter.last_reset_day = 0;
    assert!(t_yield.check_rate_limit(200).is_err());
    t_yield.rate_limiter.last_reset_day = 0;
    assert!(t_yield.check_rate_limit(86400).is_ok());
}

#[test]
fn t_yield_test_circuit_breaker() {
    let mut t_yield = TYield::default();
    t_yield.circuit_breaker.is_triggered = false;
    t_yield.circuit_breaker.cooldown_period_sec = 10;
    assert!(t_yield.check_circuit_breaker(100).is_ok());
    t_yield.circuit_breaker.is_triggered = true;
    t_yield.circuit_breaker.trigger_time = 100;
    assert!(t_yield.check_circuit_breaker(105).is_err());
    assert!(t_yield.check_circuit_breaker(120).is_ok());
}

#[test]
fn test_comprehensive_security_validation() {
    let mut t_yield = TYield::default();
    t_yield.parameter_bounds.max_tax_percentage = 1000;
    t_yield.parameter_bounds.max_protocol_balance = 1_000_000;
    t_yield.buy_tax = 500;
    t_yield.sell_tax = 500;
    t_yield.protocol_total_balance_usd = 500_000;
    t_yield.rate_limiter.last_update_time = 0;
    t_yield.rate_limiter.min_interval_sec = 1;
    t_yield.rate_limiter.max_updates_per_day = 10;
    t_yield.rate_limiter.daily_update_count = 0;
    t_yield.rate_limiter.last_reset_day = 0;
    t_yield.circuit_breaker.cooldown_period_sec = 10;
    assert!(t_yield.validate_security_state(100).is_ok());
    t_yield.paused = true;
    assert!(t_yield.validate_security_state(100).is_err());
    t_yield.paused = false;
    t_yield.circuit_breaker.is_triggered = true;
    t_yield.circuit_breaker.trigger_time = 100;
    assert!(t_yield.validate_security_state(105).is_err());
    t_yield.circuit_breaker.is_triggered = false;
    t_yield.buy_tax = 2000;
    assert!(t_yield.validate_security_state(100).is_err());
    t_yield.buy_tax = 500;
    t_yield.protocol_total_balance_usd = 2_000_000;
    assert!(t_yield.validate_security_state(100).is_err());
}

#[test]
fn test_emergency_pause() {
    let mut t_yield = TYield::default();
    t_yield.paused = false;
    t_yield.circuit_breaker.is_triggered = false;
    t_yield.emergency_pause(123).unwrap();
    assert!(t_yield.paused);
    assert!(t_yield.circuit_breaker.is_triggered);
    assert_eq!(t_yield.circuit_breaker.trigger_time, 123);
    assert_eq!(t_yield.circuit_breaker.trigger_reason, 255);
}

#[test]
fn program_id_is_the_declared_address() {
    assert_eq!(
        program_id(),
        [
            203, 215, 216, 213, 61, 2, 201, 89, 239, 18, 139, 24, 76, 199, 135, 183, 214, 99, 8,
            64, 62, 182, 39, 189, 225, 248, 242, 210, 40, 187, 44, 156
        ]
    );
}

#[test]
fn user_pda_is_deterministic_and_distinct() {
    let mut a = [0u8; 32];
    a[0] = 1;
    let mut b = [0u8; 32];
    b[0] = 2;
    let ka = Pubkey::new_from_array(a);
    let kb = Pubkey::new_from_array(b);
    let (pa, bump_a) = TYield::get_user_pda(&ka).unwrap();
    let (pa2, bump_a2) = TYield::get_user_pda(&ka).unwrap();
    let (pb, _) = TYield::get_user_pda(&kb).unwrap();
    assert_eq!(pa, pa2);
    assert_eq!(bump_a, bump_a2);
    assert_ne!(pa, pb);
    assert_ne!(pa, ka);
    let (ra, _) = TYield::get_referral_registry_pda(&ka).unwrap();
    assert_ne!(ra, pa);
}

#[test]
fn upgrade_authority_checks() {
    let mut e = [0u8; 32];
    e[0] = 7;
    let expected = Pubkey::new_from_array(e);
    let mut d = [0u8; 32];
    d[0] = 8;
    let data = Pubkey::new_from_array(d);
    let mut o = [0u8; 32];
    o[0] = 9;
    let other = Pubkey::new_from_array(o);
    assert_eq!(TYield::validate_upgrade_authority(expected, data, None, None), Ok(()));
    assert_eq!(
        TYield::validate_upgrade_authority(expected, data, Some(other), None),
        Err(ErrorCode::InvalidProgramExecutable)
    );
    assert_eq!(
        TYield::validate_upgrade_authority(expected, data, Some(data), Some(other)),
        Err(ErrorCode::ConstraintOwner)
    );
    assert_eq!(
        TYield::validate_upgrade_authority(expected, data, Some(data), Some(expected)),
        Ok(())
    );
}

#[test]
fn sol_transfer_from_owned_account() {
    let mut source: u64 = 100;
    let mut destination: u64 = 5;
    assert_eq!(TYield::transfer_sol_from_owned(&mut source, &mut destination, 40), Ok(()));
    assert_eq!(source, 60);
    assert_eq!(destination, 45);
    assert_eq!(
        TYield::transfer_sol_from_owned(&mut source, &mut destination, 61),
        Err(ErrorCode::MathError)
    );
    assert_eq!(TYield::is_empty_account(0, 10), Ok(true));
    assert_eq!(TYield::is_empty_account(10, 10), Ok(false));
}
