//! Remaining lifecycle operations: whole-position exits through the
//! operation cores, balance closing, bank reconfiguration, emissions
//! withdrawal, and the health pulse.

use surroundfi::account::SurroundfiAccount;
use surroundfi::bank::{
    Bank, BankConfig, BankConfigOpt, BankOperationalState, InterestRateConfig, OracleSetup,
    RiskTier,
};
use surroundfi::constants::{
    ASSET_TAG_DEFAULT, EMISSIONS_FLAG_LENDING_ACTIVE, FREEZE_SETTINGS,
};
use surroundfi::errors::SurroundfiError;
use surroundfi::group::{FeeStateCache, SurroundfiGroup};
use surroundfi::health_cache::HealthCache;
use surroundfi::i80f48::I80F48;
use surroundfi::ops;
use surroundfi::price::OracleFeed;
use surroundfi::risk::BankOracleInput;

fn fxv(v: f64) -> I80F48 {
    I80F48::from_bits(fixed::types::I80F48::from_num(v).to_bits())
}

fn base_group() -> SurroundfiGroup {
    SurroundfiGroup {
        admin: 7,
        group_flags: 0,
        fee_state_cache: FeeStateCache {
            global_fee_wallet: 0,
            program_fee_fixed: I80F48::zero(),
            program_fee_rate: I80F48::zero(),
        },
        banks: 2,
    }
}

fn base_bank(oracle_key: u64) -> Bank {
    Bank {
        group: 1,
        mint: 2,
        mint_decimals: 6,
        asset_share_value: I80F48::one(),
        liability_share_value: I80F48::one(),
        total_asset_shares: I80F48::zero(),
        total_liability_shares: I80F48::zero(),
        collected_insurance_fees_outstanding: I80F48::zero(),
        collected_group_fees_outstanding: I80F48::zero(),
        collected_program_fees_outstanding: I80F48::zero(),
        last_update: 0,
        flags: 0,
        emissions_rate: 0,
        emissions_remaining: I80F48::zero(),
        emissions_mint: 0,
        config: BankConfig {
            asset_weight_init: fxv(0.8),
            asset_weight_maint: fxv(0.9),
            liability_weight_init: fxv(1.25),
            liability_weight_maint: fxv(1.0),
            deposit_limit: u64::MAX,
            borrow_limit: u64::MAX,
            interest_rate_config: InterestRateConfig {
                optimal_utilization_rate: fxv(0.5),
                plateau_interest_rate: fxv(0.5),
                max_interest_rate: fxv(4.0),
                insurance_fee_fixed_apr: I80F48::zero(),
                insurance_ir_fee: I80F48::zero(),
                protocol_fixed_fee_apr: I80F48::zero(),
                protocol_ir_fee: I80F48::zero(),
                protocol_origination_fee: I80F48::zero(),
            },
            operational_state: BankOperationalState::Operational,
            oracle_setup: OracleSetup::PythPushOracle,
            oracle_key,
            oracle_max_age: 100,
            risk_tier: RiskTier::Collateral,
            asset_tag: ASSET_TAG_DEFAULT,
            total_asset_value_init_limit: 0,
        },
    }
}

fn base_account() -> SurroundfiAccount {
    SurroundfiAccount {
        group: 1,
        authority: 5,
        lending_account: surroundfi::account::LendingAccount::new(),
        account_flags: 0,
        emissions_destination_account: 0,
        health_cache: HealthCache::zeroed(),
    }
}

fn oracle(key: u64, now: i64) -> OracleFeed {
    OracleFeed {
        feed_key: key,
        price: I80F48::one(),
        conf: I80F48::zero(),
        ema_price: I80F48::one(),
        ema_conf: I80F48::zero(),
        publish_time: now,
    }
}

const BANK: u64 = 31;
const ORACLE: u64 = 311;
const T: i64 = 20;

#[test]
fn withdraw_all_through_the_operation() {
    let group = base_group();
    let mut bank = base_bank(ORACLE);
    let mut holder = base_account();
    ops::lending_account_deposit(&group, &mut bank, BANK, &mut holder, 1000, T).unwrap();
    let inputs = vec![BankOracleInput { bank_key: BANK, bank, feed: oracle(ORACLE, T) }];
    let paid = ops::lending_account_withdraw(
        &group,
        &mut bank,
        BANK,
        &mut holder,
        0,
        Some(true),
        &inputs,
        T,
    )
    .unwrap();
    assert_eq!(paid, 1000);
    // The slot is freed and the pool is empty again.
    assert_eq!(holder.lending_account.balances[0].active, 0);
    assert_eq!(bank.total_asset_shares, I80F48::zero());
    // Withdrawing from the freed slot is refused.
    let gone = ops::lending_account_withdraw(
        &group,
        &mut bank,
        BANK,
        &mut holder,
        1,
        Some(false),
        &inputs,
        T,
    );
    assert_eq!(gone, Err(SurroundfiError::BankAccountNotFound));
}

#[test]
fn close_balance_needs_both_sides_empty() {
    let group = base_group();
    let mut bank = base_bank(ORACLE);
    let mut holder = base_account();
    ops::lending_account_deposit(&group, &mut bank, BANK, &mut holder, 1000, T).unwrap();
    let held = ops::lending_account_close_balance(&group, &mut bank, BANK, &mut holder, T);
    assert_eq!(held, Err(SurroundfiError::IllegalBalanceState));

    let inputs = vec![BankOracleInput { bank_key: BANK, bank, feed: oracle(ORACLE, T) }];
    ops::lending_account_withdraw(
        &group,
        &mut bank,
        BANK,
        &mut holder,
        1000,
        Some(false),
        &inputs,
        T,
    )
    .unwrap();
    ops::lending_account_close_balance(&group, &mut bank, BANK, &mut holder, T).unwrap();
    assert_eq!(holder.lending_account.balances[0].active, 0);
}

#[test]
fn configure_bank_respects_the_freeze() {
    let mut bank = base_bank(ORACLE);
    let update = BankConfigOpt {
        asset_weight_init: Some(I80F48::one()),
        asset_weight_maint: None,
        liability_weight_init: None,
        liability_weight_maint: None,
        deposit_limit: Some(5000),
        borrow_limit: Some(4000),
        operational_state: Some(BankOperationalState::ReduceOnly),
        interest_rate_config: None,
        risk_tier: None,
        asset_tag: None,
        total_asset_value_init_limit: None,
        oracle_max_age: Some(300),
        permissionless_bad_debt_settlement: Some(true),
        freeze_settings: None,
    };
    ops::lending_pool_configure_bank(&mut bank, &update).unwrap();
    assert_eq!(bank.config.asset_weight_init, I80F48::one());
    assert_eq!(bank.config.deposit_limit, 5000);
    assert_eq!(bank.config.oracle_max_age, 300);
    assert!(matches!(
        bank.config.operational_state,
        BankOperationalState::ReduceOnly
    ));
    assert!(bank.get_flag(surroundfi::constants::PERMISSIONLESS_BAD_DEBT_SETTLEMENT_FLAG));

    // Frozen settings: only the caps move, everything else is ignored.
    bank.set_flag(FREEZE_SETTINGS);
    let frozen_update = BankConfigOpt {
        asset_weight_init: Some(fxv(0.1)),
        asset_weight_maint: None,
        liability_weight_init: None,
        liability_weight_maint: None,
        deposit_limit: Some(100),
        borrow_limit: None,
        operational_state: Some(BankOperationalState::Paused),
        interest_rate_config: None,
        risk_tier: None,
        asset_tag: None,
        total_asset_value_init_limit: None,
        oracle_max_age: None,
        permissionless_bad_debt_settlement: None,
        freeze_settings: None,
    };
    ops::lending_pool_configure_bank(&mut bank, &frozen_update).unwrap();
    assert_eq!(bank.config.deposit_limit, 100);
    assert_eq!(bank.config.asset_weight_init, I80F48::one());
    assert!(matches!(
        bank.config.operational_state,
        BankOperationalState::ReduceOnly
    ));
}

#[test]
fn pulse_health_records_the_verdict() {
    let group = base_group();
    let mut bank = base_bank(ORACLE);
    let mut holder = base_account();
    ops::lending_account_deposit(&group, &mut bank, BANK, &mut holder, 1000, T).unwrap();
    let inputs = vec![BankOracleInput { bank_key: BANK, bank, feed: oracle(ORACLE, T) }];
    ops::lending_account_pulse_health(&mut holder, &inputs, T).unwrap();
    assert!(holder.health_cache.is_healthy());
    assert_eq!(holder.health_cache.timestamp, T);
    // Assets valued at the initial weight: a thousandth of a token at
    // price one, weighted by four fifths, with the valuation's own
    // truncating division.
    let expected = fixed::types::I80F48::from_num(1000)
        .checked_mul(fixed::types::I80F48::from_num(0.8))
        .unwrap()
        .checked_div(fixed::types::I80F48::from_num(1_000_000))
        .unwrap();
    assert_eq!(holder.health_cache.asset_value.to_bits(), expected.to_bits());

    // With no inputs at all the engine cannot run; the pulse still
    // lands and records the failure.
    ops::lending_account_pulse_health(&mut holder, &vec![], T).unwrap();
    assert!(!holder.health_cache.is_healthy());
    assert_eq!(holder.health_cache.flags, 0);
}

#[test]
fn pulse_health_reports_unhealthy_diagnostics() {
    // An account that only owes: the health check fails, yet the pulse
    // still stores the totals and the unhealthy verdict, which is what
    // off-chain liquidators watch for.
    let bank = base_bank(ORACLE);
    let mut debtor = base_account();
    let mut slot = surroundfi::account::Balance::empty_deactivated();
    slot.active = 1;
    slot.bank_pk = BANK;
    slot.liability_shares = I80F48::from_num(400);
    debtor.lending_account.balances[0] = slot;

    let inputs = vec![BankOracleInput { bank_key: BANK, bank, feed: oracle(ORACLE, T) }];
    ops::lending_account_pulse_health(&mut debtor, &inputs, T).unwrap();
    assert!(!debtor.health_cache.is_healthy());
    assert_eq!(debtor.health_cache.flags, 0);
    assert_eq!(debtor.health_cache.timestamp, T);
    assert_eq!(debtor.health_cache.asset_value, I80F48::zero());
    // The debt valued at the init liability weight, with the valuation's
    // own truncating division.
    let expected = fixed::types::I80F48::from_num(400)
        .checked_mul(fixed::types::I80F48::from_num(1.25))
        .unwrap()
        .checked_div(fixed::types::I80F48::from_num(1_000_000))
        .unwrap();
    assert_eq!(debtor.health_cache.liability_value.to_bits(), expected.to_bits());
}

#[test]
fn emissions_withdrawal_through_the_operation() {
    let group = base_group();
    let mut bank = base_bank(ORACLE);
    bank.flags = EMISSIONS_FLAG_LENDING_ACTIVE;
    bank.emissions_rate = 1_000_000;
    bank.emissions_remaining = I80F48::from_num(10_000_000);
    let mut holder = base_account();
    let start: i64 = 2_000_000_000;
    ops::lending_account_deposit(&group, &mut bank, BANK, &mut holder, 2_000_000, start)
        .unwrap();
    // A year later the two whole tokens have earned the full annual rate.
    let later = start + 31_536_000;
    let claimed =
        ops::lending_account_withdraw_emissions(&mut bank, BANK, &mut holder, later).unwrap();
    assert_eq!(claimed, 2_000_000);
    assert_eq!(
        holder.lending_account.balances[0].emissions_outstanding,
        I80F48::zero()
    );
    assert_eq!(bank.emissions_remaining, I80F48::from_num(8_000_000));

    // Settling again immediately yields nothing more.
    ops::lending_account_settle_emissions(&mut bank, BANK, &mut holder, later).unwrap();
    assert_eq!(
        holder.lending_account.balances[0].emissions_outstanding,
        I80F48::zero()
    );
}

#[test]
fn utilization_bound_holds_after_operations() {
    let group = base_group();
    let mut bank = base_bank(ORACLE);
    let mut lender = base_account();
    let mut borrower = base_account();
    ops::lending_account_deposit(&group, &mut bank, BANK, &mut lender, 1000, T).unwrap();
    ops::lending_account_deposit(&group, &mut bank, BANK, &mut borrower, 4000, T).unwrap();
    // Someone elsewhere owes this pool six hundred units.
    bank.change_liability_shares(I80F48::from_num(600), false).unwrap();
    let inputs = vec![BankOracleInput { bank_key: BANK, bank, feed: oracle(ORACLE, T) }];
    ops::lending_account_withdraw(
        &group,
        &mut bank,
        BANK,
        &mut lender,
        500,
        Some(false),
        &inputs,
        T,
    )
    .unwrap();
    let assets = bank
        .get_asset_amount(bank.total_asset_shares)
        .unwrap();
    let liabs = bank
        .get_liability_amount(bank.total_liability_shares)
        .unwrap();
    assert!(liabs.le(assets));

    // Draining the pool below its outstanding debts is refused outright.
    let too_much = ops::lending_account_withdraw(
        &group,
        &mut bank,
        BANK,
        &mut borrower,
        4000,
        Some(false),
        &inputs,
        T,
    );
    assert_eq!(too_much, Err(SurroundfiError::IllegalUtilizationRatio));
}
