use pumpfun::curve::{launch, BondingCurve, MIGRATION_SIGNER_REFUND, POOL_CREATION_OVERHEAD};
use pumpfun::errors::PumpfunError;
use pumpfun::math::{apply_fee, constant_product_out, fee_portion, mul_div, pow10_u64, FEE_DENOM};
use pumpfun::state::{AmountConfig, Config, MintState, Pubkey};

fn key(n: u64) -> Pubkey {
    Pubkey::new(n, 0, 0, 0)
}

fn open_range() -> AmountConfig {
    AmountConfig::Range { min: None, max: None }
}

fn test_config() -> Config {
    Config {
        authority: key(1),
        pending_authority: key(0),
        team_wallet: key(2),
        platform_buy_fee: 100,
        platform_sell_fee: 100,
        platform_migration_fee: 100,
        curve_limit: 2_000_000_000,
        lamport_amount_config: open_range(),
        token_supply_config: open_range(),
        token_decimals_config: open_range(),
    }
}

fn curve(reserve_token: u64, reserve_lamport: u64, init_lamport: u64, completed: bool) -> BondingCurve {
    BondingCurve {
        token_mint: key(10),
        creator: key(11),
        init_lamport,
        reserve_lamport,
        reserve_token,
        is_completed: completed,
    }
}

#[test]
fn launch_initializes_reserves() {
    let cfg = test_config();
    let c = launch(&cfg, key(10), key(11), 6, 5_000_000_000_000, 7_500).unwrap();
    assert_eq!(c.token_mint, key(10));
    assert_eq!(c.creator, key(11));
    assert_eq!(c.reserve_token, 5_000_000_000_000);
    assert_eq!(c.reserve_lamport, 7_500);
    assert_eq!(c.init_lamport, 7_500);
    assert!(!c.is_completed);
}

#[test]
fn launch_rejects_fractional_supply() {
    let cfg = test_config();
    let r = launch(&cfg, key(10), key(11), 6, 1_000_000_000_001, 0);
    assert_eq!(r, Err(PumpfunError::ValueInvalid));
}

#[test]
fn launch_rejects_reserve_below_minimum() {
    let mut cfg = test_config();
    cfg.lamport_amount_config = AmountConfig::Range { min: Some(1_000), max: None };
    let r = launch(&cfg, key(10), key(11), 6, 1_000_000, 999);
    assert_eq!(r, Err(PumpfunError::ValueTooSmall));
    // the bound itself is accepted
    assert!(launch(&cfg, key(10), key(11), 6, 1_000_000, 1_000).is_ok());
}

#[test]
fn launch_rejects_supply_above_maximum() {
    let mut cfg = test_config();
    cfg.token_supply_config = AmountConfig::Range { min: None, max: Some(1_000_000) };
    let r = launch(&cfg, key(10), key(11), 6, 1_000_001_000_000, 0);
    assert_eq!(r, Err(PumpfunError::ValueTooLarge));
    assert!(launch(&cfg, key(10), key(11), 6, 1_000_000_000_000, 0).is_ok());
}

#[test]
fn launch_checks_decimals_against_enum() {
    let mut cfg = test_config();
    cfg.token_decimals_config = AmountConfig::Enum(vec![6, 9]);
    assert!(launch(&cfg, key(10), key(11), 9, 1_000_000_000, 0).is_ok());
    let r = launch(&cfg, key(10), key(11), 5, 1_000_000_000, 0);
    assert_eq!(r, Err(PumpfunError::ValueInvalid));
}

#[test]
fn buy_one_percent_fee_concrete() {
    // decimals 6, one million whole tokens, empty lamport reserve; a buy of
    // 1 SOL-worth of lamports at a one percent fee.
    let cfg = test_config();
    let mut c = launch(&cfg, key(10), key(11), 6, 1_000_000_000_000, 0).unwrap();
    let out = c.swap(&cfg, 1_000_000_000, 0).unwrap();
    assert_eq!(out.adjusted_amount, 990_000_000);
    assert_eq!(out.fee_amount, 10_000_000);
    let expected =
        (1_000_000_000_000u128 * 990_000_000u128 / (0u128 + 990_000_000u128)) as u64;
    assert_eq!(out.amount_out, expected);
    assert_eq!(c.reserve_lamport, 1_000_000_000);
    assert_eq!(c.reserve_token, 1_000_000_000_000 - expected);
}

#[test]
fn buy_strictly_increases_reserve_lamport() {
    let cfg = test_config();
    let mut c = curve(1_000_000_000_000, 500_000_000, 0, false);
    let before = c.reserve_lamport;
    let out = c.swap(&cfg, 1, 0).unwrap();
    assert!(c.reserve_lamport > before);
    assert_eq!(c.reserve_lamport, before + 1);
    // an amount this small is entirely consumed by rounding
    assert_eq!(out.amount_out, 0);
}

#[test]
fn sell_strictly_increases_reserve_token() {
    let cfg = test_config();
    let mut c = curve(1_000_000, 1_000_000_000, 0, false);
    let before_token = c.reserve_token;
    let before_lamport = c.reserve_lamport;
    let out = c.swap(&cfg, 10_000, 1).unwrap();
    assert!(c.reserve_token > before_token);
    assert_eq!(c.reserve_token, before_token + 10_000);
    let adjusted = (10_000u128 * 9_900 / 10_000) as u64; // 9_900
    assert_eq!(out.adjusted_amount, adjusted);
    let expected =
        (1_000_000_000u128 * adjusted as u128 / (1_000_000u128 + adjusted as u128)) as u64;
    assert_eq!(out.amount_out, expected);
    assert_eq!(c.reserve_lamport, before_lamport - expected);
}

#[test]
fn swap_rejects_zero_amount() {
    let cfg = test_config();
    let mut c = curve(1_000_000, 1_000_000_000, 0, false);
    let before = c;
    assert_eq!(c.swap(&cfg, 0, 0), Err(PumpfunError::InvalidAmount));
    assert_eq!(c.swap(&cfg, 0, 1), Err(PumpfunError::InvalidAmount));
    assert_eq!(c, before);
}

#[test]
fn swap_rejects_reserve_overflow() {
    let cfg = test_config();
    let mut c = curve(u64::MAX - 10, 1_000_000_000, 0, false);
    let before = c;
    let r = c.swap(&cfg, 1_000_000, 1);
    assert_eq!(r, Err(PumpfunError::OverflowOrUnderflowOccurred));
    assert_eq!(c, before);

    let mut c2 = curve(1_000_000, u64::MAX - 10, 0, false);
    let before2 = c2;
    let r2 = c2.swap(&cfg, 1_000_000, 0);
    assert_eq!(r2, Err(PumpfunError::OverflowOrUnderflowOccurred));
    assert_eq!(c2, before2);
}

#[test]
fn simulate_swap_matches_swap_payout() {
    let cfg = test_config();
    let c = curve(1_000_000_000_000, 750_000_000, 0, false);
    let quoted_buy = c.simulate_swap(&cfg, 40_000_000, 0).unwrap();
    let quoted_sell = c.simulate_swap(&cfg, 40_000_000, 1).unwrap();
    let mut cb = c;
    assert_eq!(cb.swap(&cfg, 40_000_000, 0).unwrap().amount_out, quoted_buy);
    let mut cs = c;
    assert_eq!(cs.swap(&cfg, 40_000_000, 1).unwrap().amount_out, quoted_sell);
    // simulation left the curve untouched
    assert_eq!(c, curve(1_000_000_000_000, 750_000_000, 0, false));
}

#[test]
fn higher_fee_yields_strictly_smaller_payout() {
    let lo = test_config(); // one percent
    let mut hi = test_config();
    hi.platform_buy_fee = 500; // five percent
    let c = curve(1_000_000_000_000, 1_000_000_000, 0, false);
    let out_lo = c.simulate_swap(&lo, 1_000_000_000, 0).unwrap();
    let out_hi = c.simulate_swap(&hi, 1_000_000_000, 0).unwrap();
    assert!(out_hi < out_lo);
}

#[test]
fn completion_triggers_at_curve_limit() {
    let cfg = test_config();
    let mut c = curve(1_000_000_000_000, 1_999_999_999, 0, false);
    let out = c.swap(&cfg, 1, 0).unwrap();
    assert!(out.is_completed);
    assert!(c.is_completed);
    assert_eq!(c.reserve_lamport, 2_000_000_000);
}

#[test]
fn completion_is_monotonic_across_swaps() {
    let cfg = test_config();
    let mut c = curve(1_000_000_000_000, 2_500_000_000, 0, true);
    c.swap(&cfg, 5_000, 0).unwrap();
    assert!(c.is_completed);
    c.swap(&cfg, 5_000, 1).unwrap();
    assert!(c.is_completed);
    c.swap(&cfg, 0, 0).unwrap_err();
    assert!(c.is_completed);
}

#[test]
fn drained_update_is_idempotent() {
    let cfg = test_config();
    let mut c = curve(1_000_000, 2_500_000_000, 0, true);
    c.update_reserves(&cfg, 0, 0);
    let flag = c.is_completed;
    assert_eq!((c.reserve_token, c.reserve_lamport), (0, 0));
    c.update_reserves(&cfg, 0, 0);
    assert_eq!((c.reserve_token, c.reserve_lamport), (0, 0));
    assert_eq!(c.is_completed, flag);
}

#[test]
fn withdraw_requires_completion() {
    let cfg = test_config();
    let mut c = curve(1_000_000, 1_000_000_000, 100, false);
    let before = c;
    assert_eq!(c.withdraw(&cfg), Err(PumpfunError::CurveNotCompleted));
    assert_eq!(c, before);
}

#[test]
fn withdraw_pays_earned_lamports_and_all_tokens() {
    let cfg = test_config();
    let mut c = curve(7_000, 2_000_000_000, 100, true);
    let out = c.withdraw(&cfg).unwrap();
    assert_eq!(out.lamport_amount, 1_999_999_900);
    assert_eq!(out.token_amount, 7_000);
    assert_eq!((c.reserve_token, c.reserve_lamport), (0, 0));
    assert!(c.is_completed);
}

fn revoked_mint() -> MintState {
    MintState { decimals: 6, mint_authority: None, freeze_authority: None }
}

#[test]
fn migrate_requires_completion() {
    let cfg = test_config();
    let mut c = curve(500_000_000_000, 2_000_000_000, 0, false);
    let before = c;
    let r = c.migrate(&cfg, &revoked_mint());
    assert_eq!(r, Err(PumpfunError::CurveNotCompleted));
    assert_eq!(c, before);
}

#[test]
fn migrate_requires_revoked_freeze_authority() {
    let cfg = test_config();
    let mut c = curve(500_000_000_000, 2_000_000_000, 0, true);
    let before = c;
    let mut mint = revoked_mint();
    mint.freeze_authority = Some(key(9));
    assert_eq!(c.migrate(&cfg, &mint), Err(PumpfunError::FreezeAuthorityEnabled));
    assert_eq!(c, before);
}

#[test]
fn migrate_requires_revoked_mint_authority() {
    let cfg = test_config();
    let mut c = curve(500_000_000_000, 2_000_000_000, 0, true);
    let before = c;
    let mut mint = revoked_mint();
    mint.mint_authority = Some(key(9));
    assert_eq!(c.migrate(&cfg, &mint), Err(PumpfunError::MintAuthorityEnabled));
    assert_eq!(c, before);
}

#[test]
fn migrate_splits_liquidity_proportionally() {
    let cfg = test_config(); // one percent migration fee
    let mut c = curve(500_000_000_000, 2_000_000_000, 0, true);
    let out = c.migrate(&cfg, &revoked_mint()).unwrap();
    // one percent of the two billion earned lamports
    assert_eq!(out.fee_lamport, 20_000_000);
    let seed_base = 2_000_000_000 - 20_000_000 - POOL_CREATION_OVERHEAD;
    assert_eq!(out.init_pc_amount, seed_base);
    let seed_token =
        (seed_base as u128 * 500_000_000_000u128 / 2_000_000_000u128) as u64;
    assert_eq!(out.coin_amount, seed_token);
    assert_eq!(out.fee_token, 500_000_000_000 - seed_token);
    assert_eq!((c.reserve_token, c.reserve_lamport), (0, 0));
    assert!(c.is_completed);
}

#[test]
fn migrate_fails_when_overhead_exceeds_earnings() {
    let cfg = test_config();
    // completed, but the earned lamports cannot cover the fixed overhead
    let mut c = curve(500_000_000_000, 500_000_000, 0, true);
    let before = c;
    let r = c.migrate(&cfg, &revoked_mint());
    assert_eq!(r, Err(PumpfunError::OverflowOrUnderflowOccurred));
    assert_eq!(c, before);
}

#[test]
fn signer_refund_is_within_pool_overhead() {
    assert!(MIGRATION_SIGNER_REFUND <= POOL_CREATION_OVERHEAD);
}

#[test]
fn fee_arithmetic_is_exact() {
    assert_eq!(FEE_DENOM, 10_000);
    assert_eq!(apply_fee(1_000_000_000, 100), 990_000_000);
    assert_eq!(apply_fee(1_000_000_000, 0), 1_000_000_000);
    assert_eq!(apply_fee(999, 100), 989); // 999 * 9900 / 10000 rounded down
    assert_eq!(fee_portion(1_000_000_000, 100), 10_000_000);
    assert_eq!(fee_portion(999, 100), 9); // 999 * 100 / 10000 rounded down
    assert_eq!(apply_fee(u64::MAX, 9_999), u64::MAX / 10_000);
}

#[test]
fn pow10_values() {
    assert_eq!(pow10_u64(0), 1);
    assert_eq!(pow10_u64(6), 1_000_000);
    assert_eq!(pow10_u64(19), 10_000_000_000_000_000_000);
}

#[test]
fn mul_div_rounds_down_at_full_precision() {
    assert_eq!(mul_div(1, 3, 2), 1); // 3 / 2 rounded down
    assert_eq!(mul_div(u64::MAX - 1, u64::MAX, u64::MAX), u64::MAX - 1);
    assert_eq!(constant_product_out(1_000_000_000, 0, 0), 0);
    assert_eq!(constant_product_out(1_000_000_000, 10_000, 1_000_000), 9_900_990);
}
