//! End-to-end exercises of the operation cores: deposits, borrows,
//! repayments, liquidation, and bankruptcy settlement against in-memory
//! groups, banks, and accounts.

use surroundfi::account::SurroundfiAccount;
use surroundfi::bank::{
    Bank, BankConfig, BankOperationalState, InterestRateConfig, OracleSetup, RiskTier,
};
use surroundfi::constants::{ACCOUNT_DISABLED, ASSET_TAG_DEFAULT};
use surroundfi::errors::SurroundfiError;
use surroundfi::group::{FeeStateCache, SurroundfiGroup};
use surroundfi::health_cache::HealthCache;
use surroundfi::i80f48::I80F48;
use surroundfi::liquidate::lending_account_liquidate;
use surroundfi::ops;
use surroundfi::price::OracleFeed;
use surroundfi::risk::{BankOracleInput, RiskEngine, RiskRequirementType};

fn fx(v: f64) -> I80F48 {
    I80F48::from_bits(fixed::types::I80F48::from_num(v).to_bits())
}

fn dummy_group() -> SurroundfiGroup {
    SurroundfiGroup {
        admin: 7,
        group_flags: 0,
        fee_state_cache: FeeStateCache {
            global_fee_wallet: 0,
            program_fee_fixed: I80F48::zero(),
            program_fee_rate: I80F48::zero(),
        },
        banks: 2,
    }
}

fn dummy_bank(group: u64, mint: u64, oracle_key: u64) -> Bank {
    Bank {
        group,
        mint,
        mint_decimals: 6,
        asset_share_value: I80F48::one(),
        liability_share_value: I80F48::one(),
        total_asset_shares: I80F48::zero(),
        total_liability_shares: I80F48::zero(),
        collected_insurance_fees_outstanding: I80F48::zero(),
        collected_group_fees_outstanding: I80F48::zero(),
        collected_program_fees_outstanding: I80F48::zero(),
        last_update: 0,
        flags: 0,
        emissions_rate: 0,
        emissions_remaining: I80F48::zero(),
        emissions_mint: 0,
        config: BankConfig {
            asset_weight_init: fx(0.8),
            asset_weight_maint: fx(0.9),
            liability_weight_init: fx(1.25),
            liability_weight_maint: fx(1.0),
            deposit_limit: u64::MAX,
            borrow_limit: u64::MAX,
            interest_rate_config: InterestRateConfig {
                optimal_utilization_rate: fx(0.5),
                plateau_interest_rate: fx(0.5),
                max_interest_rate: fx(4.0),
                insurance_fee_fixed_apr: fx(0.01),
                insurance_ir_fee: fx(0.05),
                protocol_fixed_fee_apr: fx(0.01),
                protocol_ir_fee: fx(0.1),
                protocol_origination_fee: I80F48::zero(),
            },
            operational_state: BankOperationalState::Operational,
            oracle_setup: OracleSetup::PythPushOracle,
            oracle_key,
            oracle_max_age: 100,
            risk_tier: RiskTier::Collateral,
            asset_tag: ASSET_TAG_DEFAULT,
            total_asset_value_init_limit: 0,
        },
    }
}

fn fresh_account(group: u64, authority: u64) -> SurroundfiAccount {
    SurroundfiAccount {
        group,
        authority,
        lending_account: surroundfi::account::LendingAccount::new(),
        account_flags: 0,
        emissions_destination_account: 0,
        health_cache: HealthCache::zeroed(),
    }
}

fn feed_at(key: u64, price: I80F48, publish_time: i64) -> OracleFeed {
    OracleFeed {
        feed_key: key,
        price,
        conf: I80F48::zero(),
        ema_price: price,
        ema_conf: I80F48::zero(),
        publish_time,
    }
}

fn input_of(bank_key: u64, bank: Bank, feed: OracleFeed) -> BankOracleInput {
    BankOracleInput { bank_key, bank, feed }
}

const BANK_A: u64 = 11;
const BANK_B: u64 = 22;
const ORACLE_A: u64 = 111;
const ORACLE_B: u64 = 222;
const NOW: i64 = 10;

#[test]
fn deposit_test() {
    let group = dummy_group();
    let mut bank_a = dummy_bank(1, 2, ORACLE_A);
    let mut account = fresh_account(1, 5);

    assert_eq!(group.admin, 7);

    ops::lending_account_deposit(&group, &mut bank_a, BANK_A, &mut account, 1000, NOW).unwrap();

    assert_eq!(
        account.lending_account.balances[0].asset_shares,
        I80F48::from_num(1000)
    );
}

#[test]
fn borrow_test() {
    let group = dummy_group();
    let mut bank_a = dummy_bank(1, 2, ORACLE_A);
    let mut bank_b = dummy_bank(1, 3, ORACLE_B);
    let mut lender = fresh_account(1, 5);
    let mut borrower = fresh_account(1, 6);
    let feed_a = feed_at(ORACLE_A, I80F48::one(), NOW);
    let feed_b = feed_at(ORACLE_B, I80F48::one(), NOW);

    ops::lending_account_deposit(&group, &mut bank_b, BANK_B, &mut lender, 1000, NOW).unwrap();
    ops::lending_account_deposit(&group, &mut bank_a, BANK_A, &mut borrower, 1000, NOW).unwrap();

    let inputs = vec![
        input_of(BANK_A, bank_a, feed_a),
        input_of(BANK_B, bank_b, feed_b),
    ];
    ops::lending_account_borrow(&group, &mut bank_b, BANK_B, &mut borrower, 100, &inputs, NOW)
        .unwrap();

    assert_eq!(
        borrower.lending_account.balances[0].asset_shares,
        I80F48::from_num(1000)
    );
    assert_eq!(
        borrower.lending_account.balances[1].liability_shares,
        I80F48::from_num(100)
    );

    ops::lending_account_repay(
        &group,
        &mut bank_b,
        BANK_B,
        &mut borrower,
        100,
        Some(false),
        NOW,
    )
    .unwrap();

    assert_eq!(
        borrower.lending_account.balances[1].liability_shares,
        I80F48::from_num(0)
    );
}

#[test]
fn liquidation_test() {
    let group = dummy_group();
    let mut bank_a = dummy_bank(1, 2, ORACLE_A);
    let mut bank_b = dummy_bank(1, 3, ORACLE_B);
    let mut lender = fresh_account(1, 5);
    let mut borrower = fresh_account(1, 6);
    let mut liquidator = fresh_account(1, 8);
    let feed_a = feed_at(ORACLE_A, I80F48::one(), NOW);
    let feed_b = feed_at(ORACLE_B, I80F48::one(), NOW);

    ops::lending_account_deposit(&group, &mut bank_b, BANK_B, &mut lender, 1000, NOW).unwrap();
    ops::lending_account_deposit(&group, &mut bank_a, BANK_A, &mut borrower, 1000, NOW).unwrap();
    let inputs = vec![
        input_of(BANK_A, bank_a, feed_a),
        input_of(BANK_B, bank_b, feed_b),
    ];
    ops::lending_account_borrow(&group, &mut bank_b, BANK_B, &mut borrower, 500, &inputs, NOW)
        .unwrap();

    // The borrowed asset's price spikes tenfold; the borrower is now
    // deeply unhealthy.
    let feed_b_spiked = feed_at(ORACLE_B, I80F48::from_num(10), NOW);

    {
        let check_inputs = vec![
            input_of(BANK_A, bank_a, feed_a),
            input_of(BANK_B, bank_b, feed_b_spiked),
        ];
        let engine = RiskEngine::new(&borrower, &check_inputs, NOW).unwrap();
        let (assets, liabs, _) = engine
            .get_account_health_components(RiskRequirementType::Maintenance)
            .unwrap();
        assert!(assets.lt(liabs));
    }

    ops::lending_account_deposit(&group, &mut bank_b, BANK_B, &mut liquidator, 1000, NOW)
        .unwrap();

    let liquidator_inputs = vec![
        input_of(BANK_B, bank_b, feed_b_spiked),
        input_of(BANK_A, bank_a, feed_a),
    ];
    let liquidatee_inputs = vec![
        input_of(BANK_A, bank_a, feed_a),
        input_of(BANK_B, bank_b, feed_b_spiked),
    ];
    lending_account_liquidate(
        &group,
        &mut bank_a,
        BANK_A,
        &mut bank_b,
        BANK_B,
        &mut liquidator,
        &mut borrower,
        50,
        &feed_a,
        &feed_b_spiked,
        &liquidator_inputs,
        &liquidatee_inputs,
        NOW,
    )
    .unwrap();

    assert_eq!(
        borrower.lending_account.balances[0].asset_shares,
        I80F48::from_num(950)
    );
}

#[test]
fn liquidation_and_bankruptcy() {
    let group = dummy_group();
    let mut bank_a = dummy_bank(1, 2, ORACLE_A);
    let mut bank_b = dummy_bank(1, 3, ORACLE_B);
    let mut lender = fresh_account(1, 5);
    let mut borrower = fresh_account(1, 6);
    let mut liquidator = fresh_account(1, 8);
    let feed_a = feed_at(ORACLE_A, I80F48::one(), NOW);
    let feed_b = feed_at(ORACLE_B, I80F48::one(), NOW);

    ops::lending_account_deposit(&group, &mut bank_b, BANK_B, &mut lender, 1000, NOW).unwrap();
    ops::lending_account_deposit(&group, &mut bank_a, BANK_A, &mut borrower, 1000, NOW).unwrap();
    let inputs = vec![
        input_of(BANK_A, bank_a, feed_a),
        input_of(BANK_B, bank_b, feed_b),
    ];
    ops::lending_account_borrow(&group, &mut bank_b, BANK_B, &mut borrower, 500, &inputs, NOW)
        .unwrap();

    let feed_b_spiked = feed_at(ORACLE_B, I80F48::from_num(10), NOW);

    ops::lending_account_deposit(&group, &mut bank_b, BANK_B, &mut liquidator, 1000, NOW)
        .unwrap();

    // Liquidate the whole collateral position.
    let liquidator_inputs = vec![
        input_of(BANK_B, bank_b, feed_b_spiked),
        input_of(BANK_A, bank_a, feed_a),
    ];
    let liquidatee_inputs = vec![
        input_of(BANK_A, bank_a, feed_a),
        input_of(BANK_B, bank_b, feed_b_spiked),
    ];
    lending_account_liquidate(
        &group,
        &mut bank_a,
        BANK_A,
        &mut bank_b,
        BANK_B,
        &mut liquidator,
        &mut borrower,
        1000,
        &feed_a,
        &feed_b_spiked,
        &liquidator_inputs,
        &liquidatee_inputs,
        NOW,
    )
    .unwrap();

    assert_eq!(
        borrower.lending_account.balances[0].asset_shares,
        I80F48::from_num(0)
    );
    assert_eq!(
        borrower.lending_account.balances[0].liability_shares,
        I80F48::from_num(0)
    );
}

#[test]
fn bankruptcy_settles_bad_debt() {
    let group = dummy_group();
    let mut bank_b = dummy_bank(1, 3, ORACLE_B);
    let mut lender = fresh_account(1, 5);
    let feed_b = feed_at(ORACLE_B, I80F48::one(), NOW);

    // A lender funds the pool; a stripped account owes 500 with no
    // collateral left anywhere.
    ops::lending_account_deposit(&group, &mut bank_b, BANK_B, &mut lender, 1000, NOW).unwrap();
    let mut bankrupt = fresh_account(1, 6);
    let mut slot = surroundfi::account::Balance::empty_deactivated();
    slot.active = 1;
    slot.bank_pk = BANK_B;
    slot.liability_shares = I80F48::from_num(500);
    bankrupt.lending_account.balances.remove(0);
    bankrupt.lending_account.balances.insert(0, slot);
    bank_b
        .change_liability_shares(I80F48::from_num(500), false)
        .unwrap();

    let inputs = vec![input_of(BANK_B, bank_b, feed_b)];
    // A stranger may not settle while the bank has not opted in.
    let denied = ops::lending_pool_handle_bankruptcy(
        &group,
        &mut bank_b,
        BANK_B,
        &mut bankrupt,
        99,
        100,
        &inputs,
        NOW,
    );
    assert_eq!(denied, Err(SurroundfiError::Unauthorized));

    // The group admin settles: 100 covered by insurance, 400 socialized.
    let transfer = ops::lending_pool_handle_bankruptcy(
        &group,
        &mut bank_b,
        BANK_B,
        &mut bankrupt,
        7,
        100,
        &inputs,
        NOW,
    )
    .unwrap();
    assert_eq!(transfer, 100);
    assert_eq!(
        bankrupt.lending_account.balances[0].liability_shares,
        I80F48::from_num(0)
    );
    assert!(bankrupt.account_flags & ACCOUNT_DISABLED != 0);
    // Lenders absorbed the shortfall: the asset share value fell from
    // one to six tenths (truncated as the fixed-point division rounds).
    let expected = fixed::types::I80F48::from_num(600)
        .checked_div(fixed::types::I80F48::from_num(1000))
        .unwrap();
    assert_eq!(bank_b.asset_share_value, I80F48::from_bits(expected.to_bits()));
}

#[test]
fn isolated_tier_caps_account_to_one_liability() {
    let group = dummy_group();
    let mut bank_a = dummy_bank(1, 2, ORACLE_A);
    let mut bank_b = dummy_bank(1, 3, ORACLE_B);
    let mut bank_iso = dummy_bank(1, 4, 333);
    bank_iso.config.risk_tier = RiskTier::Isolated;
    let mut lender = fresh_account(1, 5);
    let mut borrower = fresh_account(1, 6);
    let feed_a = feed_at(ORACLE_A, I80F48::one(), NOW);
    let feed_b = feed_at(ORACLE_B, I80F48::one(), NOW);
    let feed_iso = feed_at(333, I80F48::one(), NOW);

    ops::lending_account_deposit(&group, &mut bank_b, BANK_B, &mut lender, 1000, NOW).unwrap();
    ops::lending_account_deposit(&group, &mut bank_iso, 44, &mut lender, 1000, NOW).unwrap();
    ops::lending_account_deposit(&group, &mut bank_a, BANK_A, &mut borrower, 10000, NOW)
        .unwrap();

    // Borrowing from the isolated bank alone is legal.
    let inputs1 = vec![
        input_of(BANK_A, bank_a, feed_a),
        input_of(44, bank_iso, feed_iso),
    ];
    ops::lending_account_borrow(&group, &mut bank_iso, 44, &mut borrower, 100, &inputs1, NOW)
        .unwrap();

    // A second liability bank alongside the isolated one is refused.
    let inputs2 = vec![
        input_of(BANK_A, bank_a, feed_a),
        input_of(44, bank_iso, feed_iso),
        input_of(BANK_B, bank_b, feed_b),
    ];
    let refused = ops::lending_account_borrow(
        &group,
        &mut bank_b,
        BANK_B,
        &mut borrower,
        100,
        &inputs2,
        NOW,
    );
    assert_eq!(refused, Err(SurroundfiError::IsolatedAccountIllegalState));
}

#[test]
fn stale_oracle_fails_maintenance_but_not_initial_assets() {
    let group = dummy_group();
    let mut bank_a = dummy_bank(1, 2, ORACLE_A);
    let mut holder = fresh_account(1, 5);
    ops::lending_account_deposit(&group, &mut bank_a, BANK_A, &mut holder, 1000, NOW).unwrap();

    // The feed last updated long before the bank's maximum age allows.
    let stale = feed_at(ORACLE_A, I80F48::one(), NOW - 1000);
    let inputs = vec![input_of(BANK_A, bank_a, stale)];

    // Maintenance valuation of the asset fails hard.
    let engine = RiskEngine::new(&holder, &inputs, NOW).unwrap();
    let maint = engine.get_account_health_components(RiskRequirementType::Maintenance);
    assert_eq!(maint.unwrap_err(), SurroundfiError::PythPushStalePrice);

    // Initial valuation tolerates it, valuing the asset at zero.
    let (cache_opt, gate) = RiskEngine::check_account_init_health(&holder, &inputs, NOW);
    assert_eq!(gate, Ok(()));
    let cache = cache_opt.unwrap();
    assert_eq!(cache.asset_value, I80F48::zero());
    assert!(cache.is_healthy());
}

#[test]
fn operational_state_gates_operations() {
    let group = dummy_group();
    let mut bank_a = dummy_bank(1, 2, ORACLE_A);
    let mut holder = fresh_account(1, 5);
    ops::lending_account_deposit(&group, &mut bank_a, BANK_A, &mut holder, 1000, NOW).unwrap();

    // Reduce-only: withdrawing and repaying stay legal, new deposits and
    // borrows are refused.
    bank_a.config.operational_state = BankOperationalState::ReduceOnly;
    let r = ops::lending_account_deposit(&group, &mut bank_a, BANK_A, &mut holder, 100, NOW);
    assert_eq!(r, Err(SurroundfiError::BankReduceOnly));
    let feed_a = feed_at(ORACLE_A, I80F48::one(), NOW);
    let inputs = vec![input_of(BANK_A, bank_a, feed_a)];
    let w = ops::lending_account_withdraw(
        &group,
        &mut bank_a,
        BANK_A,
        &mut holder,
        100,
        Some(false),
        &inputs,
        NOW,
    );
    assert_eq!(w, Ok(100));

    // Paused: everything is refused.
    bank_a.config.operational_state = BankOperationalState::Paused;
    let w2 = ops::lending_account_withdraw(
        &group,
        &mut bank_a,
        BANK_A,
        &mut holder,
        100,
        Some(false),
        &inputs,
        NOW,
    );
    assert_eq!(w2, Err(SurroundfiError::BankPaused));
}

#[test]
fn liquidation_guards_reject_bad_requests() {
    let group = dummy_group();
    let mut bank_a = dummy_bank(1, 2, ORACLE_A);
    let mut bank_b = dummy_bank(1, 3, ORACLE_B);
    let mut liquidator = fresh_account(1, 8);
    let mut healthy = fresh_account(1, 6);
    let feed_a = feed_at(ORACLE_A, I80F48::one(), NOW);
    let feed_b = feed_at(ORACLE_B, I80F48::one(), NOW);
    ops::lending_account_deposit(&group, &mut bank_a, BANK_A, &mut healthy, 1000, NOW).unwrap();

    let same = lending_account_liquidate(
        &group,
        &mut bank_a,
        BANK_A,
        &mut bank_b,
        BANK_A,
        &mut liquidator,
        &mut healthy,
        50,
        &feed_a,
        &feed_b,
        &vec![],
        &vec![],
        NOW,
    );
    assert_eq!(same.unwrap_err(), SurroundfiError::SameAssetAndLiabilityBanks);

    let zero = lending_account_liquidate(
        &group,
        &mut bank_a,
        BANK_A,
        &mut bank_b,
        BANK_B,
        &mut liquidator,
        &mut healthy,
        0,
        &feed_a,
        &feed_b,
        &vec![],
        &vec![],
        NOW,
    );
    assert_eq!(zero.unwrap_err(), SurroundfiError::ZeroLiquidationAmount);

    // A healthy account with no debt in the target bank cannot be
    // liquidated.
    let inputs = vec![input_of(BANK_A, bank_a, feed_a)];
    let engine = RiskEngine::new(&healthy, &inputs, NOW).unwrap();
    let pre = engine.check_pre_liquidation_condition_and_get_account_health(BANK_B);
    assert_eq!(
        pre.unwrap_err(),
        SurroundfiError::LendingAccountBalanceNotFound
    );
}

#[test]
fn deposit_cap_is_enforced() {
    let group = dummy_group();
    let mut bank_a = dummy_bank(1, 2, ORACLE_A);
    bank_a.config.deposit_limit = 1500;
    let mut holder = fresh_account(1, 5);
    ops::lending_account_deposit(&group, &mut bank_a, BANK_A, &mut holder, 1000, NOW).unwrap();
    let over = ops::lending_account_deposit(&group, &mut bank_a, BANK_A, &mut holder, 600, NOW);
    assert_eq!(over, Err(SurroundfiError::BankAssetCapacityExceeded));
}

#[test]
fn disabled_account_is_refused() {
    let group = dummy_group();
    let mut bank_a = dummy_bank(1, 2, ORACLE_A);
    let mut holder = fresh_account(1, 5);
    holder.account_flags = ACCOUNT_DISABLED;
    let r = ops::lending_account_deposit(&group, &mut bank_a, BANK_A, &mut holder, 1000, NOW);
    assert_eq!(r, Err(SurroundfiError::AccountDisabled));
}

#[test]
fn withdraw_missing_position_is_refused() {
    let group = dummy_group();
    let mut bank_a = dummy_bank(1, 2, ORACLE_A);
    let mut holder = fresh_account(1, 5);
    let r = ops::lending_account_repay(
        &group,
        &mut bank_a,
        BANK_A,
        &mut holder,
        100,
        Some(false),
        NOW,
    );
    assert_eq!(r, Err(SurroundfiError::BankAccountNotFound));
}
