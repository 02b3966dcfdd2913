//! Valuation, interest accrual, and emissions arithmetic, checked
//! against exact expected values.

use surroundfi::bank::{
    Bank, BankConfig, BankOperationalState, InterestRateConfig, OracleSetup, RiskTier,
};
use surroundfi::constants::{
    ASSET_TAG_DEFAULT, EMISSIONS_FLAG_LENDING_ACTIVE, SECONDS_PER_YEAR_BITS,
};
use surroundfi::group::{FeeStateCache, SurroundfiGroup};
use surroundfi::i80f48::I80F48;
use surroundfi::risk::calc_value;
use surroundfi::wrapper::{calc_emissions, BankAccountWrapper};

type RefFx = fixed::types::I80F48;

fn lift(v: RefFx) -> I80F48 {
    I80F48::from_bits(v.to_bits())
}

fn rate_bank() -> Bank {
    Bank {
        group: 1,
        mint: 2,
        mint_decimals: 6,
        asset_share_value: I80F48::one(),
        liability_share_value: I80F48::one(),
        total_asset_shares: I80F48::from_num(1_000_000),
        total_liability_shares: I80F48::from_num(500_000),
        collected_insurance_fees_outstanding: I80F48::zero(),
        collected_group_fees_outstanding: I80F48::zero(),
        collected_program_fees_outstanding: I80F48::zero(),
        last_update: 0,
        flags: 0,
        emissions_rate: 0,
        emissions_remaining: I80F48::zero(),
        emissions_mint: 0,
        config: BankConfig {
            asset_weight_init: I80F48::one(),
            asset_weight_maint: I80F48::one(),
            liability_weight_init: I80F48::one(),
            liability_weight_maint: I80F48::one(),
            deposit_limit: u64::MAX,
            borrow_limit: u64::MAX,
            interest_rate_config: InterestRateConfig {
                optimal_utilization_rate: lift(RefFx::from_num(0.5)),
                plateau_interest_rate: lift(RefFx::from_num(0.5)),
                max_interest_rate: I80F48::from_num(4),
                insurance_fee_fixed_apr: I80F48::zero(),
                insurance_ir_fee: I80F48::zero(),
                protocol_fixed_fee_apr: I80F48::zero(),
                protocol_ir_fee: I80F48::zero(),
                protocol_origination_fee: I80F48::zero(),
            },
            operational_state: BankOperationalState::Operational,
            oracle_setup: OracleSetup::PythPushOracle,
            oracle_key: 111,
            oracle_max_age: 100,
            risk_tier: RiskTier::Collateral,
            asset_tag: ASSET_TAG_DEFAULT,
            total_asset_value_init_limit: 0,
        },
    }
}

fn plain_group() -> SurroundfiGroup {
    SurroundfiGroup {
        admin: 7,
        group_flags: 0,
        fee_state_cache: FeeStateCache {
            global_fee_wallet: 0,
            program_fee_fixed: I80F48::zero(),
            program_fee_rate: I80F48::zero(),
        },
        banks: 1,
    }
}

#[test]
fn test_calc_asset_value() {
    assert_eq!(
        calc_value(
            I80F48::from_num(10_000_000),
            I80F48::from_num(1_000_000),
            6,
            None,
        )
        .unwrap(),
        I80F48::from_num(10_000_000)
    );

    assert_eq!(
        calc_value(
            I80F48::from_num(1_000_000_000),
            I80F48::from_num(10_000_000),
            9,
            None,
        )
        .unwrap(),
        I80F48::from_num(10_000_000)
    );

    assert_eq!(
        calc_value(
            I80F48::from_num(1_000_000_000),
            I80F48::from_num(10_000_000),
            9,
            None,
        )
        .unwrap(),
        I80F48::from_num(10_000_000)
    );
}

#[test]
fn test_calc_emissions() {
    let balance_amount: u64 = 106153222432271169;
    let emissions_rate = 1.5f64;

    // 1 second
    let period = 1u64;
    let emissions = calc_emissions(
        I80F48::from_num(period),
        I80F48::from_num(balance_amount),
        9,
        lift(RefFx::from_num(emissions_rate)),
    );
    assert!(emissions.is_ok());
    assert_eq!(
        emissions.unwrap(),
        lift(RefFx::from_num(5.049144902600414f64))
    );

    // 126 days
    let period = 126u64 * 24 * 60 * 60;
    let emissions = calc_emissions(
        I80F48::from_num(period),
        I80F48::from_num(balance_amount),
        9,
        lift(RefFx::from_num(emissions_rate)),
    );
    assert!(emissions.is_ok());

    // 2 years
    let period = 2u64 * 365 * 24 * 60 * 60;
    let emissions = calc_emissions(
        I80F48::from_num(period),
        I80F48::from_num(balance_amount),
        9,
        lift(RefFx::from_num(emissions_rate)),
    );
    assert!(emissions.is_ok());

    {
        // 10x balance amount
        let balance_amount = balance_amount * 10;
        let emissions = calc_emissions(
            I80F48::from_num(period),
            I80F48::from_num(balance_amount),
            9,
            lift(RefFx::from_num(emissions_rate)),
        );
        assert!(emissions.is_ok());
    }

    // 20 years + 100x emissions rate
    let period = 20u64 * 365 * 24 * 60 * 60;
    let emissions_rate = emissions_rate * 100.0;
    let emissions = calc_emissions(
        I80F48::from_num(period),
        I80F48::from_num(balance_amount),
        9,
        lift(RefFx::from_num(emissions_rate)),
    );
    assert!(emissions.is_ok());

    {
        // u64::MAX deposit amount
        let balance_amount = u64::MAX;
        let emissions = calc_emissions(
            I80F48::from_num(period),
            I80F48::from_num(balance_amount),
            9,
            lift(RefFx::from_num(emissions_rate)),
        );
        assert!(emissions.is_ok());
    }

    {
        // 10000x emissions rate
        let balance_amount = u64::MAX;
        let emissions_rate = emissions_rate * 10000.;
        let emissions = calc_emissions(
            I80F48::from_num(period),
            I80F48::from_num(balance_amount),
            9,
            lift(RefFx::from_num(emissions_rate)),
        );
        assert!(emissions.is_ok());
    }

    {
        let balance_amount = I80F48::from_num(10000000);
        let emissions_rate = lift(RefFx::from_num(1.5));
        let period = I80F48::from_num(10u64 * 24 * 60 * 60);

        let emissions = period
            .checked_mul(balance_amount)
            .unwrap()
            .checked_div(surroundfi::constants::exp_10_i80f48(9))
            .unwrap()
            .checked_mul(emissions_rate)
            .unwrap()
            .checked_div(I80F48::from_bits(SECONDS_PER_YEAR_BITS))
            .unwrap();

        let emissions_new =
            calc_emissions(period, balance_amount, 9, emissions_rate).unwrap();

        let diff = emissions_new.checked_sub(emissions).unwrap();
        assert!(diff.lt(lift(RefFx::from_num(0.00000001f64))));
    }
}

#[test]
fn accrual_moves_both_share_values() {
    let group = plain_group();
    let mut bank = rate_bank();
    // Half utilization sits exactly at the curve's optimal point, so the
    // base borrow rate is the plateau rate: fifty percent annually.
    // Lenders earn that rate scaled by utilization: twenty-five percent.
    bank.accrue_interest(31_536_000, &group).unwrap();
    let expected_asset = RefFx::from_num(1.25);
    let expected_liab = RefFx::from_num(1.5);
    assert_eq!(bank.asset_share_value.to_bits(), expected_asset.to_bits());
    assert_eq!(bank.liability_share_value.to_bits(), expected_liab.to_bits());
    assert_eq!(bank.last_update, 31_536_000);
}

#[test]
fn accrual_twice_at_same_time_changes_nothing() {
    let group = plain_group();
    let mut bank = rate_bank();
    bank.accrue_interest(1000, &group).unwrap();
    let snapshot = bank;
    bank.accrue_interest(1000, &group).unwrap();
    assert_eq!(bank, snapshot);
}

#[test]
fn paused_bank_does_not_accrue() {
    let group = plain_group();
    let mut bank = rate_bank();
    bank.config.operational_state = BankOperationalState::Paused;
    bank.accrue_interest(1000, &group).unwrap();
    assert_eq!(bank.asset_share_value, I80F48::one());
    assert_eq!(bank.last_update, 0);
}

#[test]
fn emissions_accrue_on_the_active_side() {
    let mut bank = rate_bank();
    bank.flags = EMISSIONS_FLAG_LENDING_ACTIVE;
    bank.emissions_rate = 1_000_000;
    bank.emissions_remaining = I80F48::from_num(1_000_000);
    let mut balance = surroundfi::account::Balance::empty_deactivated();
    balance.active = 1;
    balance.bank_pk = 5;
    balance.asset_shares = I80F48::from_num(2_000_000);
    // Old enough to be treated as never updated: the clock just starts.
    balance.last_update = 0;
    let mut wrapper = BankAccountWrapper { balance, bank };
    wrapper.claim_emissions(2_000_000_000).unwrap();
    assert_eq!(wrapper.balance.last_update, 2_000_000_000);
    assert_eq!(wrapper.balance.emissions_outstanding, I80F48::zero());

    // A year later the position has earned a year of the emissions rate
    // on its two whole tokens, but the bank only had half of that left
    // to give: the payout is capped at what remains.
    wrapper.claim_emissions(2_000_000_000 + 31_536_000).unwrap();
    assert_eq!(
        wrapper.balance.emissions_outstanding,
        I80F48::from_num(1_000_000)
    );
    assert_eq!(wrapper.bank.emissions_remaining, I80F48::zero());
}

#[test]
fn whole_position_exits_round_in_the_protocols_favor() {
    let mut bank = rate_bank();
    // A share price that leaves fractional token amounts behind.
    bank.asset_share_value = lift(RefFx::from_num(1.5));
    bank.liability_share_value = lift(RefFx::from_num(1.5));
    bank.total_asset_shares = I80F48::from_num(1001);
    bank.total_liability_shares = I80F48::from_num(333);

    let mut asset_balance = surroundfi::account::Balance::empty_deactivated();
    asset_balance.active = 1;
    asset_balance.bank_pk = 5;
    asset_balance.asset_shares = I80F48::from_num(333);
    let mut w = BankAccountWrapper { balance: asset_balance, bank };
    // 333 shares at one and a half: 499.5 tokens; the payout floors to
    // 499 and the half token goes to the insurance accumulator.
    let paid = w.withdraw_all(10).unwrap();
    assert_eq!(paid, 499);
    assert_eq!(
        w.bank.collected_insurance_fees_outstanding,
        lift(RefFx::from_num(0.5))
    );
    assert_eq!(w.balance.active, 0);

    let mut liab_balance = surroundfi::account::Balance::empty_deactivated();
    liab_balance.active = 1;
    liab_balance.bank_pk = 5;
    liab_balance.liability_shares = I80F48::from_num(333);
    let mut w2 = BankAccountWrapper { balance: liab_balance, bank: rate_bank() };
    w2.bank.liability_share_value = lift(RefFx::from_num(1.5));
    // 499.5 tokens owed: the collection ceils to 500 and the surplus
    // half token goes to the insurance accumulator.
    let collected = w2.repay_all(10).unwrap();
    assert_eq!(collected, 500);
    assert_eq!(
        w2.bank.collected_insurance_fees_outstanding,
        lift(RefFx::from_num(0.5))
    );
}
