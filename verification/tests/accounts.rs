//! Account-level behavior: flags, authority transfer, slot management,
//! group administration, and the flashloan bracket checks.

use surroundfi::account::{Balance, LendingAccount, SurroundfiAccount};
use surroundfi::constants::{
    ACCOUNT_DISABLED, ACCOUNT_FLAG_DEPRECATED, ACCOUNT_IN_FLASHLOAN,
    ACCOUNT_TRANSFER_AUTHORITY_ALLOWED, ARENA_GROUP,
};
use surroundfi::errors::SurroundfiError;
use surroundfi::group::{FeeStateCache, SurroundfiGroup};
use surroundfi::health_cache::HealthCache;
use surroundfi::bank::{
    Bank, BankConfig, BankOperationalState, InterestRateConfig, OracleSetup, RiskTier,
};
use surroundfi::cli::{
    process_lip_subcmd, BankOperationalStateArg, LipCommand, LipListing, RiskTierArg,
};
use surroundfi::i80f48::I80F48;
use surroundfi::ops;
use surroundfi::wrapper::BankAccountWrapper;

fn plain_account(flags: u64) -> SurroundfiAccount {
    SurroundfiAccount {
        group: 0,
        authority: 1,
        lending_account: LendingAccount::new(),
        account_flags: flags,
        emissions_destination_account: 0,
        health_cache: HealthCache::zeroed(),
    }
}

#[test]
fn test_account_authority_transfer() {
    let group: u64 = 0;
    let authority: u64 = 1;
    let bank_pk: u64 = 2;
    let new_authority: u64 = 3;

    let mut acc = plain_account(ACCOUNT_TRANSFER_AUTHORITY_ALLOWED);
    acc.group = group;
    acc.authority = authority;
    for i in 0..16 {
        let mut b = Balance::empty_deactivated();
        b.active = 1;
        b.bank_pk = bank_pk;
        acc.lending_account.balances[i] = b;
    }

    assert!(acc.get_flag(ACCOUNT_TRANSFER_AUTHORITY_ALLOWED));

    match acc.set_new_account_authority_checked(new_authority) {
        Ok(_) => (),
        Err(_) => panic!("transerring account authority failed"),
    }
    assert_eq!(acc.authority, new_authority);
    // The permission is consumed by the transfer.
    assert!(!acc.get_flag(ACCOUNT_TRANSFER_AUTHORITY_ALLOWED));
    let again = acc.set_new_account_authority_checked(authority);
    assert_eq!(again, Err(SurroundfiError::IllegalAccountAuthorityTransfer));
}

#[test]
fn test_check_flag() {
    let flag1 = ACCOUNT_FLAG_DEPRECATED;
    let flag2 = ACCOUNT_FLAG_DEPRECATED + ACCOUNT_IN_FLASHLOAN;
    let flag3 = ACCOUNT_IN_FLASHLOAN + ACCOUNT_DISABLED + ACCOUNT_FLAG_DEPRECATED;
    let flag4 = ACCOUNT_DISABLED + ACCOUNT_IN_FLASHLOAN;
    let flag5 = ACCOUNT_FLAG_DEPRECATED + ACCOUNT_TRANSFER_AUTHORITY_ALLOWED;
    let flag6 = ACCOUNT_DISABLED + ACCOUNT_FLAG_DEPRECATED + ACCOUNT_TRANSFER_AUTHORITY_ALLOWED;
    let flag7 = ACCOUNT_DISABLED
        + ACCOUNT_FLAG_DEPRECATED
        + ACCOUNT_IN_FLASHLOAN
        + ACCOUNT_TRANSFER_AUTHORITY_ALLOWED;
    let flag8 = ACCOUNT_TRANSFER_AUTHORITY_ALLOWED;

    // Malformed flags should fail
    assert!(!ops::flag_can_be_set(flag1));
    assert!(!ops::flag_can_be_set(flag2));
    assert!(!ops::flag_can_be_set(flag3));
    assert!(!ops::flag_can_be_set(flag4));
    assert!(!ops::flag_can_be_set(flag5));
    assert!(!ops::flag_can_be_set(flag6));
    assert!(!ops::flag_can_be_set(flag7));

    // Good flags should succeed
    assert!(ops::flag_can_be_set(flag8));
}

#[test]
fn account_flag_setting_is_gated() {
    let mut acc = plain_account(0);
    assert_eq!(
        ops::set_account_flag(&mut acc, ACCOUNT_DISABLED),
        Err(SurroundfiError::IllegalFlag)
    );
    assert_eq!(acc.account_flags, 0);
    ops::set_account_flag(&mut acc, ACCOUNT_TRANSFER_AUTHORITY_ALLOWED).unwrap();
    assert_eq!(acc.account_flags, ACCOUNT_TRANSFER_AUTHORITY_ALLOWED);
    ops::unset_account_flag(&mut acc, ACCOUNT_TRANSFER_AUTHORITY_ALLOWED).unwrap();
    assert_eq!(acc.account_flags, 0);
}

#[test]
fn close_account_needs_empty_enabled_account() {
    let acc = plain_account(0);
    assert_eq!(ops::close_account(&acc), Ok(()));

    let disabled = plain_account(ACCOUNT_DISABLED);
    assert_eq!(ops::close_account(&disabled), Err(SurroundfiError::IllegalAction));

    let mut holding = plain_account(0);
    let mut b = Balance::empty_deactivated();
    b.active = 1;
    b.bank_pk = 9;
    b.asset_shares = I80F48::from_num(5);
    holding.lending_account.balances[0] = b;
    assert_eq!(ops::close_account(&holding), Err(SurroundfiError::IllegalAction));
}

#[test]
fn ledger_slot_management() {
    let mut ledger = LendingAccount::new();
    assert_eq!(ledger.get_first_empty_balance(), Some(0));
    assert_eq!(ledger.get_balance(9), None);

    let mut b = Balance::empty_deactivated();
    b.active = 1;
    b.bank_pk = 9;
    ledger.balances[0] = b;
    assert_eq!(ledger.get_first_empty_balance(), Some(1));
    assert_eq!(ledger.get_balance(9), Some(0));

    let actives = ledger.get_active_balances_iter();
    assert_eq!(actives.len(), 1);
    assert_eq!(actives[0].bank_pk, 9);
}

#[test]
fn remaining_accounts_count_by_tag() {
    let mut acc = plain_account(0);
    let mut b = Balance::empty_deactivated();
    b.active = 1;
    b.bank_pk = 9;
    acc.lending_account.balances[0] = b;
    let mut staked = Balance::empty_deactivated();
    staked.active = 1;
    staked.bank_pk = 10;
    staked.bank_asset_tag = surroundfi::constants::ASSET_TAG_STAKED;
    acc.lending_account.balances[1] = staked;
    // Two for the plain balance, four for the staked one.
    assert_eq!(acc.get_remaining_accounts_len(), Ok(6));
}

#[test]
fn arena_group_rules() {
    let mut group = SurroundfiGroup {
        admin: 7,
        group_flags: 0,
        fee_state_cache: FeeStateCache {
            global_fee_wallet: 0,
            program_fee_fixed: I80F48::zero(),
            program_fee_rate: I80F48::zero(),
        },
        banks: 3,
    };
    // Three banks cannot become an arena group.
    assert_eq!(
        ops::configure(&mut group, 8, true),
        Err(SurroundfiError::ArenaBankLimit)
    );
    group.banks = 2;
    ops::configure(&mut group, 8, true).unwrap();
    assert_eq!(group.admin, 8);
    assert!(group.group_flags & ARENA_GROUP != 0);
    // An arena group can never go back.
    assert_eq!(
        ops::configure(&mut group, 8, false),
        Err(SurroundfiError::ArenaSettingCannotChange)
    );
    ops::config_group_fee(&mut group, true);
    assert!(group.program_fees_enabled());
}

#[test]
fn find_or_create_reuses_or_creates_slots() {
    let mut ledger = LendingAccount::new();
    let mut held = Balance::empty_deactivated();
    held.active = 1;
    held.bank_pk = 9;
    held.asset_shares = I80F48::from_num(5);
    ledger.balances[0] = held;
    let bank = Bank {
        group: 1,
        mint: 2,
        mint_decimals: 6,
        asset_share_value: I80F48::one(),
        liability_share_value: I80F48::one(),
        total_asset_shares: I80F48::zero(),
        total_liability_shares: I80F48::zero(),
        collected_insurance_fees_outstanding: I80F48::zero(),
        collected_group_fees_outstanding: I80F48::zero(),
        collected_program_fees_outstanding: I80F48::zero(),
        last_update: 0,
        flags: 0,
        emissions_rate: 0,
        emissions_remaining: I80F48::zero(),
        emissions_mint: 0,
        config: BankConfig {
            asset_weight_init: I80F48::one(),
            asset_weight_maint: I80F48::one(),
            liability_weight_init: I80F48::one(),
            liability_weight_maint: I80F48::one(),
            deposit_limit: u64::MAX,
            borrow_limit: u64::MAX,
            interest_rate_config: InterestRateConfig {
                optimal_utilization_rate: I80F48::zero(),
                plateau_interest_rate: I80F48::zero(),
                max_interest_rate: I80F48::zero(),
                insurance_fee_fixed_apr: I80F48::zero(),
                insurance_ir_fee: I80F48::zero(),
                protocol_fixed_fee_apr: I80F48::zero(),
                protocol_ir_fee: I80F48::zero(),
                protocol_origination_fee: I80F48::zero(),
            },
            operational_state: BankOperationalState::Operational,
            oracle_setup: OracleSetup::PythPushOracle,
            oracle_key: 111,
            oracle_max_age: 100,
            risk_tier: RiskTier::Collateral,
            asset_tag: surroundfi::constants::ASSET_TAG_DEFAULT,
            total_asset_value_init_limit: 0,
        },
    };

    // An existing position is reused, never duplicated.
    let (w, i) = BankAccountWrapper::find_or_create(9, bank, &mut ledger, 7).unwrap();
    assert_eq!(i, 0);
    assert_eq!(w.balance.asset_shares, I80F48::from_num(5));

    // A new bank takes the first free slot, tag snapshotted, shares zero.
    let (w2, i2) = BankAccountWrapper::find_or_create(10, bank, &mut ledger, 7).unwrap();
    assert_eq!(i2, 1);
    assert_eq!(w2.balance.bank_pk, 10);
    assert_eq!(w2.balance.asset_shares, I80F48::zero());
    assert_eq!(w2.balance.last_update, 7);
    assert!(ledger.balances[1].active != 0);

    // With every slot busy, a further bank is refused.
    for k in 2..16 {
        let mut b = Balance::empty_deactivated();
        b.active = 1;
        b.bank_pk = 100 + k as u64;
        ledger.balances[k] = b;
    }
    let full = BankAccountWrapper::find_or_create(999, bank, &mut ledger, 7);
    assert!(matches!(
        full,
        Err(SurroundfiError::LendingAccountBalanceSlotsFull)
    ));
}

#[test]
fn flashloan_bracket_checks() {
    let acc = plain_account(0);
    let good_current = ops::InstructionFacts {
        program_is_self: true,
        is_end_flashloan: false,
        first_account_key: None,
    };
    let good_end = ops::InstructionFacts {
        program_is_self: true,
        is_end_flashloan: true,
        first_account_key: Some(55),
    };
    assert_eq!(
        ops::check_flashloan_can_start(&acc, 55, 0, 2, true, good_current, good_end),
        Ok(())
    );
    // The end call must come later in the transaction.
    assert_eq!(
        ops::check_flashloan_can_start(&acc, 55, 2, 2, true, good_current, good_end),
        Err(SurroundfiError::IllegalFlashloan)
    );
    // Nested calls are refused.
    assert_eq!(
        ops::check_flashloan_can_start(&acc, 55, 0, 2, false, good_current, good_end),
        Err(SurroundfiError::IllegalFlashloan)
    );
    // The end call must target the same account.
    let wrong_end = ops::InstructionFacts {
        first_account_key: Some(56),
        ..good_end
    };
    assert_eq!(
        ops::check_flashloan_can_start(&acc, 55, 0, 2, true, good_current, wrong_end),
        Err(SurroundfiError::IllegalFlashloan)
    );
    // A disabled account cannot start one.
    let disabled = plain_account(ACCOUNT_DISABLED);
    assert_eq!(
        ops::check_flashloan_can_start(&disabled, 55, 0, 2, true, good_current, good_end),
        Err(SurroundfiError::AccountDisabled)
    );

    // Starting sets the suspension flag; ending lifts it and re-checks
    // health, which passes trivially on an empty ledger.
    let mut live = plain_account(0);
    ops::lending_account_start_flashloan(&mut live, 55, 0, 2, true, good_current, good_end)
        .unwrap();
    assert!(live.account_flags & ACCOUNT_IN_FLASHLOAN != 0);
    ops::lending_account_end_flashloan(&mut live, &vec![], true, 10).unwrap();
    assert!(live.account_flags & ACCOUNT_IN_FLASHLOAN == 0);
}

#[test]
fn emissions_destination_opt_in() {
    let mut acc = plain_account(0);
    ops::surroundfi_account_update_emissions_destination_account(&mut acc, 42).unwrap();
    assert_eq!(acc.emissions_destination_account, 42);
    let mut disabled = plain_account(ACCOUNT_DISABLED);
    assert_eq!(
        ops::surroundfi_account_update_emissions_destination_account(&mut disabled, 42),
        Err(SurroundfiError::AccountDisabled)
    );
}

#[test]
fn cli_argument_conversions() {
    assert_eq!(RiskTier::from(RiskTierArg::Collateral), RiskTier::Collateral);
    assert_eq!(RiskTier::from(RiskTierArg::Isolated), RiskTier::Isolated);
    assert_eq!(
        BankOperationalState::from(BankOperationalStateArg::Paused),
        BankOperationalState::Paused
    );
    assert_eq!(
        BankOperationalState::from(BankOperationalStateArg::ReduceOnly),
        BankOperationalState::ReduceOnly
    );
    assert_eq!(
        process_lip_subcmd(LipCommand::ListCampaigns),
        LipListing::Campaigns
    );
    assert_eq!(
        process_lip_subcmd(LipCommand::ListDeposits),
        LipListing::Deposits
    );
}
