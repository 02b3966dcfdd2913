//! Liquidation orchestration: move collateral from an unhealthy account
//! to the liquidator at a discounted price, pay down the liquidatee's
//! debt by the equivalent value less the liquidation spread, route the
//! spread to the insurance fund, and prove the liquidation helped: the
//! liquidatee's health strictly improves yet stays at or below the
//! maintenance bar, and the liquidator stays healthy.

use vstd::prelude::*;
use crate::account::{spec_balance_index, Balance, LendingAccount, SurroundfiAccount};
use crate::bank::Bank;
use crate::constants::{
    LIQUIDATION_INSURANCE_FEE_BITS, LIQUIDATION_LIQUIDATOR_FEE_BITS, MAX_MINT_DECIMALS,
};
use crate::errors::SurroundfiError;
use crate::health_cache::{HealthCache, ENGINE_OK_FLAG, HEALTHY_FLAG};
use crate::i80f48::{s_mul, s_sub, I80F48, FRAC_SCALE};
use crate::interest::spec_accrue_interest;
use crate::ops::{
    account_meta_unchanged, ledger_with, refresh_inputs, spec_locate_or_new, spec_refresh_inputs,
    spec_stored_cache,
};
use crate::price::{
    spec_price_of_type, spec_validate_feed, OracleFeed, OraclePriceFeedAdapter, OraclePriceType,
    PriceBias,
};
use crate::risk::{
    spec_calc_amount, spec_calc_value, spec_init_health_check, spec_load, spec_post_liquidation,
    spec_pre_liquidation, BankOracleInput, RiskEngine,
};
use crate::wrapper::{
    spec_decrease_balance, spec_increase_balance, BalanceDecreaseType, BalanceIncreaseType,
    BankAccountWrapper,
};

verus! {

/// The amounts one liquidation moves, all derived from the real-time
/// biased prices of the two banks: the liability the liquidator takes
/// over (collateral value less the liquidator's share of the spread), the
/// liability forgiven to the liquidatee (less the whole spread), and the
/// spread's insurance part in whole native units, rounded up.
pub open spec fn spec_liquidate_amounts(
    asset_bank: Bank,
    liab_bank: Bank,
    asset_amount: u64,
    asset_feed: OracleFeed,
    liab_feed: OracleFeed,
    now: i64,
) -> Result<(int, int, u64), SurroundfiError> {
    match spec_validate_feed(asset_bank.config, asset_feed, now) {
        Err(e) => Err(e),
        Ok(asset_pf) => match spec_validate_feed(liab_bank.config, liab_feed, now) {
            Err(e) => Err(e),
            Ok(liab_pf) => match spec_price_of_type(
                asset_pf.feed,
                OraclePriceType::RealTime,
                Some(PriceBias::Low),
            ) {
                Err(e) => Err(e),
                Ok(asset_price) => match spec_price_of_type(
                    liab_pf.feed,
                    OraclePriceType::RealTime,
                    Some(PriceBias::High),
                ) {
                    Err(e) => Err(e),
                    Ok(liab_price) => match spec_calc_value(
                        asset_amount * FRAC_SCALE,
                        asset_price,
                        asset_bank.mint_decimals as nat,
                        None,
                    ) {
                        Err(e) => Err(e),
                        Ok(asset_value) => {
                            let liquidator_discount = FRAC_SCALE
                                - LIQUIDATION_LIQUIDATOR_FEE_BITS;
                            let final_discount = FRAC_SCALE - (LIQUIDATION_LIQUIDATOR_FEE_BITS
                                + LIQUIDATION_INSURANCE_FEE_BITS);
                            match (
                                s_mul(asset_value, liquidator_discount as int),
                                s_mul(asset_value, final_discount as int),
                            ) {
                                (Some(value_liquidator), Some(value_final)) => match (
                                    spec_calc_amount(
                                        value_liquidator,
                                        liab_price,
                                        liab_bank.mint_decimals as nat,
                                    ),
                                    spec_calc_amount(
                                        value_final,
                                        liab_price,
                                        liab_bank.mint_decimals as nat,
                                    ),
                                ) {
                                    (Ok(liab_liquidator), Ok(liab_final)) => match s_sub(
                                        liab_liquidator,
                                        liab_final,
                                    ) {
                                        None => Err(SurroundfiError::MathError),
                                        Some(insurance_fee) => {
                                            let transfer = crate::i80f48::ceil_bits(insurance_fee)
                                                / (FRAC_SCALE as int);
                                            if !(0 <= transfer <= u64::MAX) || !crate::i80f48::fits_i128(
                                                crate::i80f48::ceil_bits(insurance_fee),
                                            ) {
                                                Err(SurroundfiError::MathError)
                                            } else {
                                                Ok(
                                                    (
                                                        liab_liquidator,
                                                        liab_final,
                                                        transfer as u64,
                                                    ),
                                                )
                                            }
                                        },
                                    },
                                    (Err(e), _) => Err(e),
                                    (Ok(l), Err(e)) => Err(e),
                                },
                                (None, _) => Err(SurroundfiError::MathError),
                                (Some(v), None) => Err(SurroundfiError::MathError),
                            }
                        },
                    },
                },
            },
        },
    }
}

/// Compute the liability amounts and insurance transfer of one
/// liquidation from the two validated feeds.
fn liquidate_amounts(
    asset_bank: &Bank,
    liab_bank: &Bank,
    asset_amount: u64,
    asset_feed: &OracleFeed,
    liab_feed: &OracleFeed,
    now: i64,
) -> (r: Result<(I80F48, I80F48, u64), SurroundfiError>)
    requires
        asset_bank.mint_decimals < MAX_MINT_DECIMALS,
        liab_bank.mint_decimals < MAX_MINT_DECIMALS,
    ensures
        match spec_liquidate_amounts(
            *asset_bank,
            *liab_bank,
            asset_amount,
            *asset_feed,
            *liab_feed,
            now,
        ) {
            Ok((ll, lf, tr)) => r == Ok::<(I80F48, I80F48, u64), SurroundfiError>(
                (I80F48 { bits: ll as i128 }, I80F48 { bits: lf as i128 }, tr),
            ),
            Err(e) => r == Err::<(I80F48, I80F48, u64), SurroundfiError>(e),
        },
{
    let asset_pf = match OraclePriceFeedAdapter::try_from_bank_config(
        &asset_bank.config,
        asset_feed,
        now,
    ) {
        Ok(v) => v,
        Err(e) => {
            return Err(e);
        },
    };
    let liab_pf = match OraclePriceFeedAdapter::try_from_bank_config(
        &liab_bank.config,
        liab_feed,
        now,
    ) {
        Ok(v) => v,
        Err(e) => {
            return Err(e);
        },
    };
    let asset_price = match asset_pf.get_price_of_type(
        OraclePriceType::RealTime,
        Some(PriceBias::Low),
    ) {
        Ok(v) => v,
        Err(e) => {
            return Err(e);
        },
    };
    let liab_price = match liab_pf.get_price_of_type(
        OraclePriceType::RealTime,
        Some(PriceBias::High),
    ) {
        Ok(v) => v,
        Err(e) => {
            return Err(e);
        },
    };
    let asset_value = match crate::risk::calc_value(
        I80F48::from_num(asset_amount),
        asset_price,
        asset_bank.mint_decimals,
        None,
    ) {
        Ok(v) => v,
        Err(e) => {
            return Err(e);
        },
    };
    let liquidator_discount = I80F48 { bits: FRAC_SCALE - LIQUIDATION_LIQUIDATOR_FEE_BITS };
    let final_discount = I80F48 {
        bits: FRAC_SCALE - (LIQUIDATION_LIQUIDATOR_FEE_BITS + LIQUIDATION_INSURANCE_FEE_BITS),
    };
    let value_liquidator = match asset_value.checked_mul(liquidator_discount) {
        Some(v) => v,
        None => {
            return Err(SurroundfiError::MathError);
        },
    };
    let value_final = match asset_value.checked_mul(final_discount) {
        Some(v) => v,
        None => {
            return Err(SurroundfiError::MathError);
        },
    };
    let liab_liquidator = match crate::risk::calc_amount(
        value_liquidator,
        liab_price,
        liab_bank.mint_decimals,
    ) {
        Ok(v) => v,
        Err(e) => {
            return Err(e);
        },
    };
    let liab_final = match crate::risk::calc_amount(
        value_final,
        liab_price,
        liab_bank.mint_decimals,
    ) {
        Ok(v) => v,
        Err(e) => {
            return Err(e);
        },
    };
    let insurance_fee = match liab_liquidator.checked_sub(liab_final) {
        Some(v) => v,
        None => {
            return Err(SurroundfiError::MathError);
        },
    };
    let fee_ceil = match insurance_fee.checked_ceil() {
        Some(v) => v,
        None => {
            return Err(SurroundfiError::MathError);
        },
    };
    let transfer = match fee_ceil.checked_to_num_u64() {
        Some(v) => v,
        None => {
            return Err(SurroundfiError::MathError);
        },
    };
    Ok((liab_liquidator, liab_final, transfer))
}

/// Outcome of the four ledger mutations of one liquidation: the
/// liquidator receives the collateral past any deposit cap and takes on
/// the discounted liability past any borrow cap; the liquidatee gives up
/// the collateral withdraw-only and has the net liability repaid. Yields
/// both new ledgers and both new banks.
pub open spec fn spec_liquidate_mutate(
    asset_bank: Bank,
    liab_bank: Bank,
    asset_key: u64,
    liab_key: u64,
    liquidator_balances: Seq<Balance>,
    liquidatee_balances: Seq<Balance>,
    asset_amount: u64,
    liab_amount_liquidator: I80F48,
    liab_amount_final: I80F48,
    now: u64,
) -> Result<(Bank, Bank, Seq<Balance>, Seq<Balance>), SurroundfiError> {
    match spec_locate_or_new(liquidator_balances, asset_key, asset_bank.config.asset_tag, now) {
        Err(e) => Err(e),
        Ok((ri_a, r_bal_a)) => match spec_increase_balance(
            r_bal_a,
            asset_bank,
            I80F48 { bits: (asset_amount * FRAC_SCALE) as i128 },
            BalanceIncreaseType::BypassDepositLimit,
            now,
        ) {
            Err(e) => Err(e),
            Ok((r_bal_a2, a_bank2)) => match spec_balance_index(liquidatee_balances, asset_key) {
                None => Err(SurroundfiError::BankAccountNotFound),
                Some(ei_a) => match spec_decrease_balance(
                    liquidatee_balances[ei_a],
                    a_bank2,
                    I80F48 { bits: (asset_amount * FRAC_SCALE) as i128 },
                    BalanceDecreaseType::WithdrawOnly,
                    now,
                ) {
                    Err(e) => Err(e),
                    Ok((e_bal_a2, a_bank3)) => {
                        let liquidator_mid = liquidator_balances.update(ri_a, r_bal_a2);
                        let liquidatee_mid = liquidatee_balances.update(ei_a, e_bal_a2);
                        match spec_locate_or_new(
                            liquidator_mid,
                            liab_key,
                            liab_bank.config.asset_tag,
                            now,
                        ) {
                            Err(e) => Err(e),
                            Ok((ri_l, r_bal_l)) => match spec_decrease_balance(
                                r_bal_l,
                                liab_bank,
                                liab_amount_liquidator,
                                BalanceDecreaseType::BypassBorrowLimit,
                                now,
                            ) {
                                Err(e) => Err(e),
                                Ok((r_bal_l2, l_bank2)) => match spec_balance_index(
                                    liquidatee_mid,
                                    liab_key,
                                ) {
                                    None => Err(SurroundfiError::BankAccountNotFound),
                                    Some(ei_l) => match spec_increase_balance(
                                        liquidatee_mid[ei_l],
                                        l_bank2,
                                        liab_amount_final,
                                        BalanceIncreaseType::BypassDepositLimit,
                                        now,
                                    ) {
                                        Err(e) => Err(e),
                                        Ok((e_bal_l2, l_bank3)) => Ok(
                                            (
                                                a_bank3,
                                                l_bank3,
                                                liquidator_mid.update(ri_l, r_bal_l2),
                                                liquidatee_mid.update(ei_l, e_bal_l2),
                                            ),
                                        ),
                                    },
                                },
                            },
                        }
                    },
                },
            },
        },
    }
}

/// The middle of a liquidation on the two accrued banks: the liquidatee
/// must pass the pre-liquidation condition at the current prices, the
/// four ledger mutations go through, and the liquidatee must pass the
/// post-liquidation condition on the post state. Yields the new banks
/// and the new ledgers of both parties.
pub open spec fn spec_liquidate_exchange(
    a_bank1: Bank,
    l_bank1: Bank,
    asset_key: u64,
    liab_key: u64,
    liquidator_balances: Seq<Balance>,
    liquidatee_flags: u64,
    liquidatee_balances: Seq<Balance>,
    asset_amount: u64,
    liab_liq: I80F48,
    liab_fin: I80F48,
    liquidatee_inputs: Seq<BankOracleInput>,
    now: i64,
) -> Result<(Bank, Bank, Seq<Balance>, Seq<Balance>), SurroundfiError> {
    let pre_inputs = spec_refresh_inputs(
        spec_refresh_inputs(liquidatee_inputs, asset_key, a_bank1),
        liab_key,
        l_bank1,
    );
    if liquidatee_flags & crate::constants::ACCOUNT_IN_FLASHLOAN != 0 {
        Err(SurroundfiError::AccountInFlashloan)
    } else {
        match spec_load(liquidatee_balances, pre_inputs, now) {
            Err(e) => Err(e),
            Ok(pre_entries) => match spec_pre_liquidation(
                liquidatee_flags,
                pre_entries,
                liab_key,
            ) {
                Err(e) => Err(e),
                Ok(pre_health) => match spec_liquidate_mutate(
                    a_bank1,
                    l_bank1,
                    asset_key,
                    liab_key,
                    liquidator_balances,
                    liquidatee_balances,
                    asset_amount,
                    liab_liq,
                    liab_fin,
                    now as u64,
                ) {
                    Err(e) => Err(e),
                    Ok((a_bank3, l_bank3, liquidator_post, liquidatee_post)) => {
                        let post_inputs = spec_refresh_inputs(
                            spec_refresh_inputs(liquidatee_inputs, asset_key, a_bank3),
                            liab_key,
                            l_bank3,
                        );
                        match spec_load(liquidatee_post, post_inputs, now) {
                            Err(e) => Err(e),
                            Ok(post_entries) => match spec_post_liquidation(
                                liquidatee_flags,
                                post_entries,
                                liab_key,
                                pre_health,
                            ) {
                                Err(e) => Err(e),
                                Ok(post_health) => Ok(
                                    (a_bank3, l_bank3, liquidator_post, liquidatee_post),
                                ),
                            },
                        }
                    },
                },
            },
        }
    }
}

/// The middle of a liquidation: run the pre-liquidation check, apply the
/// four ledger mutations on staged copies, and run the post-liquidation
/// check; nothing of the callers' records changes here.
#[verifier::rlimit(100)]
fn liquidate_exchange(
    a_bank1: Bank,
    l_bank1: Bank,
    asset_key: u64,
    liab_key: u64,
    liquidator_ledger: &LendingAccount,
    liquidatee_flags: u64,
    liquidatee_ledger: &LendingAccount,
    asset_amount: u64,
    liab_liq: I80F48,
    liab_fin: I80F48,
    liquidatee_inputs: &Vec<BankOracleInput>,
    current_timestamp: i64,
) -> (r: Result<(Bank, Bank, LendingAccount, LendingAccount), SurroundfiError>)
    requires
        a_bank1.mint_decimals < MAX_MINT_DECIMALS,
        l_bank1.mint_decimals < MAX_MINT_DECIMALS,
        current_timestamp >= 0,
        forall|j: int|
            0 <= j < liquidatee_inputs@.len() ==> (
            #[trigger] liquidatee_inputs@[j]).bank.mint_decimals < MAX_MINT_DECIMALS,
    ensures
        match spec_liquidate_exchange(
            a_bank1,
            l_bank1,
            asset_key,
            liab_key,
            liquidator_ledger.balances@,
            liquidatee_flags,
            liquidatee_ledger.balances@,
            asset_amount,
            liab_liq,
            liab_fin,
            liquidatee_inputs@,
            current_timestamp,
        ) {
            Ok((a3, l3, r_bals, e_bals)) => r matches Ok(v) && v.0 == a3 && v.1 == l3
                && v.2.balances@ == r_bals && v.3.balances@ == e_bals,
            Err(e) => r == Err::<(Bank, Bank, LendingAccount, LendingAccount), SurroundfiError>(
                e,
            ),
        },
{
    let pre_inputs = refresh_inputs(
        &refresh_inputs(liquidatee_inputs, asset_key, a_bank1),
        liab_key,
        l_bank1,
    );
    if liquidatee_flags & crate::constants::ACCOUNT_IN_FLASHLOAN != 0 {
        return Err(SurroundfiError::AccountInFlashloan);
    }
    let pre_entries = match crate::risk::BankAccountWithPriceFeed::load(
        liquidatee_ledger,
        &pre_inputs,
        current_timestamp,
    ) {
        Ok(v) => v,
        Err(e) => {
            return Err(e);
        },
    };
    let pre_engine = RiskEngine { account_flags: liquidatee_flags, entries: pre_entries };
    let pre_health = match pre_engine.check_pre_liquidation_condition_and_get_account_health(
        liab_key,
    ) {
        Ok(v) => v,
        Err(e) => {
            return Err(e);
        },
    };
    // Liquidator receives the collateral, past any deposit cap.
    let (ri_a, r_bal_a) = match crate::ops::locate_or_new(
        liquidator_ledger,
        asset_key,
        a_bank1.config.asset_tag,
        current_timestamp as u64,
    ) {
        Ok(v) => v,
        Err(e) => {
            return Err(e);
        },
    };
    let mut w1 = BankAccountWrapper { balance: r_bal_a, bank: a_bank1 };
    match w1.increase_balance_in_liquidation(
        I80F48::from_num(asset_amount),
        current_timestamp as u64,
    ) {
        Ok(()) => {},
        Err(e) => {
            return Err(e);
        },
    }
    // Liquidatee gives it up, withdraw-only.
    let ei_a = match liquidatee_ledger.get_balance(asset_key) {
        Some(i) => i,
        None => {
            return Err(SurroundfiError::BankAccountNotFound);
        },
    };
    let mut w2 = BankAccountWrapper { balance: liquidatee_ledger.balances[ei_a], bank: w1.bank };
    match w2.withdraw(I80F48::from_num(asset_amount), current_timestamp as u64) {
        Ok(()) => {},
        Err(e) => {
            return Err(e);
        },
    }
    let liquidator_mid = ledger_with(liquidator_ledger, ri_a, w1.balance);
    let liquidatee_mid = ledger_with(liquidatee_ledger, ei_a, w2.balance);
    // Liquidator takes over the discounted liability, past any borrow cap.
    let (ri_l, r_bal_l) = match crate::ops::locate_or_new(
        &liquidator_mid,
        liab_key,
        l_bank1.config.asset_tag,
        current_timestamp as u64,
    ) {
        Ok(v) => v,
        Err(e) => {
            return Err(e);
        },
    };
    let mut w3 = BankAccountWrapper { balance: r_bal_l, bank: l_bank1 };
    match w3.decrease_balance_in_liquidation(liab_liq, current_timestamp as u64) {
        Ok(()) => {},
        Err(e) => {
            return Err(e);
        },
    }
    // Liquidatee's debt shrinks by the net value.
    let ei_l = match liquidatee_mid.get_balance(liab_key) {
        Some(i) => i,
        None => {
            return Err(SurroundfiError::BankAccountNotFound);
        },
    };
    let mut w4 = BankAccountWrapper { balance: liquidatee_mid.balances[ei_l], bank: w3.bank };
    match w4.increase_balance_in_liquidation(liab_fin, current_timestamp as u64) {
        Ok(()) => {},
        Err(e) => {
            return Err(e);
        },
    }
    let liquidator_post = ledger_with(&liquidator_mid, ri_l, w3.balance);
    let liquidatee_post = ledger_with(&liquidatee_mid, ei_l, w4.balance);
    let a_bank3 = w2.bank;
    let l_bank3 = w4.bank;
    // The liquidation must have helped the liquidatee without
    // over-correcting.
    let post_inputs = refresh_inputs(
        &refresh_inputs(liquidatee_inputs, asset_key, a_bank3),
        liab_key,
        l_bank3,
    );
    let post_entries = match crate::risk::BankAccountWithPriceFeed::load(
        &liquidatee_post,
        &post_inputs,
        current_timestamp,
    ) {
        Ok(v) => v,
        Err(e) => {
            return Err(e);
        },
    };
    let post_engine = RiskEngine { account_flags: liquidatee_flags, entries: post_entries };
    match post_engine.check_post_liquidation_condition_and_get_account_health(
        liab_key,
        pre_health,
    ) {
        Ok(_) => {},
        Err(e) => {
            return Err(e);
        },
    }
    Ok((a_bank3, l_bank3, liquidator_post, liquidatee_post))
}

/// Outcome of a whole liquidation: distinct banks, a positive amount,
/// accrual on both banks, amounts from the real-time biased prices, the
/// liquidatee's pre-check, the four ledger mutations, the liquidatee's
/// post-check, and the initial health gate on the liquidator. Yields the
/// two new banks, the two new ledgers, the insurance transfer, and the
/// liquidator's health outcome.
pub open spec fn spec_liquidate(
    group: crate::group::SurroundfiGroup,
    asset_bank: Bank,
    asset_key: u64,
    liab_bank: Bank,
    liab_key: u64,
    liquidator_flags: u64,
    liquidator_balances: Seq<Balance>,
    liquidatee_flags: u64,
    liquidatee_balances: Seq<Balance>,
    asset_amount: u64,
    asset_feed: OracleFeed,
    liab_feed: OracleFeed,
    liquidator_inputs: Seq<BankOracleInput>,
    liquidatee_inputs: Seq<BankOracleInput>,
    now: i64,
) -> Result<
    (Bank, Bank, Seq<Balance>, Seq<Balance>, u64, Option<(int, int, Seq<I80F48>, bool)>),
    SurroundfiError,
> {
    if asset_key == liab_key {
        Err(SurroundfiError::SameAssetAndLiabilityBanks)
    } else if asset_amount == 0 {
        Err(SurroundfiError::ZeroLiquidationAmount)
    } else {
        match spec_accrue_interest(asset_bank, now, group) {
            Err(e) => Err(e),
            Ok(a_bank1) => match spec_accrue_interest(liab_bank, now, group) {
                Err(e) => Err(e),
                Ok(l_bank1) => match spec_liquidate_amounts(
                    a_bank1,
                    l_bank1,
                    asset_amount,
                    asset_feed,
                    liab_feed,
                    now,
                ) {
                    Err(e) => Err(e),
                    Ok((liab_liq, liab_fin, insurance_transfer)) => match spec_liquidate_exchange(
                        a_bank1,
                        l_bank1,
                        asset_key,
                        liab_key,
                        liquidator_balances,
                        liquidatee_flags,
                        liquidatee_balances,
                        asset_amount,
                        I80F48 { bits: liab_liq as i128 },
                        I80F48 { bits: liab_fin as i128 },
                        liquidatee_inputs,
                        now,
                    ) {
                        Err(e) => Err(e),
                        Ok((a_bank3, l_bank3, liquidator_post, liquidatee_post)) => {
                            let liquidator_post_inputs = spec_refresh_inputs(
                                spec_refresh_inputs(liquidator_inputs, asset_key, a_bank3),
                                liab_key,
                                l_bank3,
                            );
                            let (hc, res) = spec_init_health_check(
                                liquidator_flags,
                                liquidator_post,
                                liquidator_post_inputs,
                                now,
                            );
                            match res {
                                Err(e) => Err(e),
                                Ok(()) => Ok(
                                    (
                                        a_bank3,
                                        l_bank3,
                                        liquidator_post,
                                        liquidatee_post,
                                        insurance_transfer,
                                        hc,
                                    ),
                                ),
                            }
                        },
                    },
                },
            },
        }
    }
}

/// Liquidate an unhealthy account: move `asset_amount` of its collateral
/// in the asset bank to the liquidator at the discounted price, pay down
/// its debt in the liability bank by the equivalent value less the
/// spread, route the spread's insurance part to the insurance fund, and
/// prove the exchange helped both sides. Yields the insurance amount the
/// host must move. Commits fully or not at all.
#[verifier::rlimit(100)]
pub fn lending_account_liquidate(
    group: &crate::group::SurroundfiGroup,
    asset_bank: &mut Bank,
    asset_key: u64,
    liab_bank: &mut Bank,
    liab_key: u64,
    liquidator: &mut SurroundfiAccount,
    liquidatee: &mut SurroundfiAccount,
    asset_amount: u64,
    asset_feed: &OracleFeed,
    liab_feed: &OracleFeed,
    liquidator_inputs: &Vec<BankOracleInput>,
    liquidatee_inputs: &Vec<BankOracleInput>,
    current_timestamp: i64,
) -> (r: Result<u64, SurroundfiError>)
    requires
        old(asset_bank).mint_decimals < MAX_MINT_DECIMALS,
        old(liab_bank).mint_decimals < MAX_MINT_DECIMALS,
        current_timestamp >= 0,
        forall|j: int|
            0 <= j < liquidator_inputs@.len() ==> (
            #[trigger] liquidator_inputs@[j]).bank.mint_decimals < MAX_MINT_DECIMALS,
        forall|j: int|
            0 <= j < liquidatee_inputs@.len() ==> (
            #[trigger] liquidatee_inputs@[j]).bank.mint_decimals < MAX_MINT_DECIMALS,
    ensures
        match spec_liquidate(
            *group,
            *old(asset_bank),
            asset_key,
            *old(liab_bank),
            liab_key,
            old(liquidator).account_flags,
            old(liquidator).lending_account.balances@,
            old(liquidatee).account_flags,
            old(liquidatee).lending_account.balances@,
            asset_amount,
            *asset_feed,
            *liab_feed,
            liquidator_inputs@,
            liquidatee_inputs@,
            current_timestamp,
        ) {
            Ok((a3, l3, r_bals, e_bals, transfer, hc)) => r == Ok::<u64, SurroundfiError>(
                transfer,
            ) && *final(asset_bank) == a3 && *final(liab_bank) == l3
                && final(liquidator).lending_account.balances@ == r_bals
                && final(liquidatee).lending_account.balances@ == e_bals && spec_stored_cache(
                hc,
                final(liquidator).health_cache,
                current_timestamp,
            ),
            Err(e) => r == Err::<u64, SurroundfiError>(e) && *final(asset_bank) == *old(asset_bank)
                && *final(liab_bank) == *old(liab_bank)
                && final(liquidator).lending_account.balances@ == old(
                liquidator,
            ).lending_account.balances@ && final(liquidatee).lending_account.balances@ == old(
                liquidatee,
            ).lending_account.balances@ && final(liquidator).health_cache == old(
                liquidator,
            ).health_cache,
        },
        account_meta_unchanged(*old(liquidator), *final(liquidator)),
        account_meta_unchanged(*old(liquidatee), *final(liquidatee)),
        final(liquidatee).health_cache == old(liquidatee).health_cache,
{
    if asset_key == liab_key {
        return Err(SurroundfiError::SameAssetAndLiabilityBanks);
    }
    if asset_amount == 0 {
        return Err(SurroundfiError::ZeroLiquidationAmount);
    }
    let mut a_bank = *asset_bank;
    match a_bank.accrue_interest(current_timestamp, group) {
        Ok(()) => {},
        Err(e) => {
            return Err(e);
        },
    }
    let mut l_bank = *liab_bank;
    match l_bank.accrue_interest(current_timestamp, group) {
        Ok(()) => {},
        Err(e) => {
            return Err(e);
        },
    }
    let (liab_liq, liab_fin, insurance_transfer) = match liquidate_amounts(
        &a_bank,
        &l_bank,
        asset_amount,
        asset_feed,
        liab_feed,
        current_timestamp,
    ) {
        Ok(v) => v,
        Err(e) => {
            return Err(e);
        },
    };
    let (a_bank3, l_bank3, liquidator_post, liquidatee_post) = match liquidate_exchange(
        a_bank,
        l_bank,
        asset_key,
        liab_key,
        &liquidator.lending_account,
        liquidatee.account_flags,
        &liquidatee.lending_account,
        asset_amount,
        liab_liq,
        liab_fin,
        liquidatee_inputs,
        current_timestamp,
    ) {
        Ok(v) => v,
        Err(e) => {
            return Err(e);
        },
    };
    // The liquidator must remain healthy under the initial requirement.
    let liquidator_post_inputs = refresh_inputs(
        &refresh_inputs(liquidator_inputs, asset_key, a_bank3),
        liab_key,
        l_bank3,
    );
    let (health, gate) = crate::risk::check_init_health_core(
        liquidator.account_flags,
        &liquidator_post,
        &liquidator_post_inputs,
        current_timestamp,
    );
    match gate {
        Ok(()) => {},
        Err(e) => {
            return Err(e);
        },
    }
    let mut cache = match health {
        Some(c) => c,
        None => HealthCache::zeroed(),
    };
    cache.set_engine_ok(true);
    cache.timestamp = current_timestamp;
    proof {
        assert(0u64 | ENGINE_OK_FLAG == ENGINE_OK_FLAG) by (bit_vector);
        assert(HEALTHY_FLAG | ENGINE_OK_FLAG == (HEALTHY_FLAG | ENGINE_OK_FLAG)) by (bit_vector);
    }
    *asset_bank = a_bank3;
    *liab_bank = l_bank3;
    liquidator.lending_account = liquidator_post;
    liquidator.health_cache = cache;
    liquidatee.lending_account = liquidatee_post;
    Ok(insurance_transfer)
}

} // verus!
