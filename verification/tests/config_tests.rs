use pumpfun::errors::PumpfunError;
use pumpfun::state::{
    accept_authority, configure, nominate_authority, AmountConfig, Config, Pubkey,
};

fn key(n: u64) -> Pubkey {
    Pubkey::new(n, n, n, n)
}

fn base_config(authority: Pubkey) -> Config {
    Config {
        authority,
        pending_authority: Pubkey::default(),
        team_wallet: key(2),
        platform_buy_fee: 100,
        platform_sell_fee: 150,
        platform_migration_fee: 50,
        curve_limit: 1_000_000_000,
        lamport_amount_config: AmountConfig::Range { min: None, max: None },
        token_supply_config: AmountConfig::Range { min: None, max: None },
        token_decimals_config: AmountConfig::Range { min: None, max: None },
    }
}

#[test]
fn first_configure_is_open_to_its_caller() {
    let deployer = key(7);
    let installed = configure(None, deployer, base_config(deployer)).unwrap();
    assert_eq!(installed.authority, deployer);
    assert_eq!(installed.curve_limit, 1_000_000_000);
}

#[test]
fn configure_requires_current_authority() {
    let admin = key(1);
    let stranger = key(3);
    let current = base_config(admin);
    let r = configure(Some(&current), stranger, base_config(stranger));
    assert_eq!(r.unwrap_err(), PumpfunError::IncorrectAuthority);

    let mut update = base_config(admin);
    update.curve_limit = 42;
    let installed = configure(Some(&current), admin, update).unwrap();
    assert_eq!(installed.curve_limit, 42);
}

#[test]
fn nominate_by_non_authority_fails_and_changes_nothing() {
    let admin = key(1);
    let stranger = key(3);
    let mut cfg = base_config(admin);
    let r = nominate_authority(&mut cfg, stranger, key(4));
    assert_eq!(r, Err(PumpfunError::IncorrectAuthority));
    assert_eq!(cfg.pending_authority, Pubkey::default());
    assert_eq!(cfg.authority, admin);
}

#[test]
fn accept_by_wrong_identity_fails_and_changes_nothing() {
    let admin = key(1);
    let successor = key(4);
    let stranger = key(3);
    let mut cfg = base_config(admin);
    nominate_authority(&mut cfg, admin, successor).unwrap();
    let r = accept_authority(&mut cfg, stranger);
    assert_eq!(r, Err(PumpfunError::IncorrectAuthority));
    assert_eq!(cfg.authority, admin);
    assert_eq!(cfg.pending_authority, successor);
}

#[test]
fn handover_installs_successor_and_locks_out_old_authority() {
    let admin = key(1);
    let successor = key(4);
    let mut cfg = base_config(admin);
    nominate_authority(&mut cfg, admin, successor).unwrap();
    assert_eq!(cfg.pending_authority, successor);
    accept_authority(&mut cfg, successor).unwrap();
    assert_eq!(cfg.authority, successor);
    assert_eq!(cfg.pending_authority, Pubkey::default());

    // the old authority can no longer configure
    let r = configure(Some(&cfg), admin, base_config(admin));
    assert_eq!(r.unwrap_err(), PumpfunError::IncorrectAuthority);
    // the new one can
    assert!(configure(Some(&cfg), successor, base_config(successor)).is_ok());
}

#[test]
fn range_bounds_are_inclusive() {
    let c = AmountConfig::Range { min: Some(10), max: Some(20) };
    assert_eq!(c.validate(9), Err(PumpfunError::ValueTooSmall));
    assert_eq!(c.validate(10), Ok(()));
    assert_eq!(c.validate(20), Ok(()));
    assert_eq!(c.validate(21), Err(PumpfunError::ValueTooLarge));
}

#[test]
fn missing_bounds_are_unbounded() {
    let no_min = AmountConfig::Range { min: None, max: Some(5) };
    assert_eq!(no_min.validate(0), Ok(()));
    assert_eq!(no_min.validate(6), Err(PumpfunError::ValueTooLarge));
    let no_max = AmountConfig::Range { min: Some(5), max: None };
    assert_eq!(no_max.validate(u64::MAX), Ok(()));
    assert_eq!(no_max.validate(4), Err(PumpfunError::ValueTooSmall));
}

#[test]
fn enum_membership_is_by_equality() {
    let c = AmountConfig::Enum(vec![6, 8, 9]);
    assert_eq!(c.validate(6), Ok(()));
    assert_eq!(c.validate(9), Ok(()));
    assert_eq!(c.validate(7), Err(PumpfunError::ValueInvalid));
    let empty = AmountConfig::Enum(vec![]);
    assert_eq!(empty.validate(0), Err(PumpfunError::ValueInvalid));
}
