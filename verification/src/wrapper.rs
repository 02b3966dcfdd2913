//! The mutation layer: translates user intents (deposit, withdraw, borrow,
//! repay) into share-delta operations against one (balance, bank) pair,
//! crossing the zero line between the asset and liability sides by the
//! repay-then-deposit / withdraw-then-borrow hybrid rule, and enforcing
//! operation-type and operational-state policies. Every operation either
//! fully commits or leaves both the balance and the bank unchanged.

use vstd::prelude::*;
use crate::account::{spec_get_side, Balance, LendingAccount};
use crate::bank::{spec_change_asset_shares, spec_change_liability_shares, BalanceSide, Bank};
use crate::constants::{
    pow10, EMISSIONS_FLAG_BORROW_ACTIVE, EMISSIONS_FLAG_LENDING_ACTIVE, MAX_MINT_DECIMALS,
    MIN_EMISSIONS_START_TIME, SECONDS_PER_YEAR_BITS, ZERO_AMOUNT_THRESHOLD_BITS,
};
use crate::errors::SurroundfiError;
use crate::i80f48::{int_abs, s_add, s_div, s_mul, s_sub, I80F48, FRAC_SCALE};

verus! {

/// Policy of an increase operation: which of its two components (repay,
/// deposit) are allowed.
#[derive(Clone, Copy, Debug, PartialEq, Eq, Structural)]
pub enum BalanceIncreaseType {
    /// Repay what is owed, deposit the rest.
    Any,
    /// Error unless the deposit component is negligible.
    RepayOnly,
    /// Error unless the repay component is negligible.
    DepositOnly,
    /// Like `Any`, and push deposits past the bank's cap; only liquidation
    /// settlement uses this.
    BypassDepositLimit,
}

/// Policy of a decrease operation: which of its two components (withdraw,
/// borrow) are allowed.
#[derive(Clone, Copy, Debug, PartialEq, Eq, Structural)]
pub enum BalanceDecreaseType {
    /// Withdraw what is there, borrow the rest.
    Any,
    /// Error unless the borrow component is negligible.
    WithdrawOnly,
    /// Error unless the withdraw component is negligible.
    BorrowOnly,
    /// Like `Any`, and push borrows past the bank's cap; only liquidation
    /// settlement uses this.
    BypassBorrowLimit,
}

/// Emissions one period earns: the prorated annual emissions rate applied
/// to the balance amount expressed in whole tokens.
pub open spec fn spec_calc_emissions(period: int, amount: int, decimals: nat, rate: int) -> Option<
    int,
> {
    match s_div(amount, pow10(decimals) * FRAC_SCALE) {
        Some(ui) => match s_mul(period, ui) {
            Some(x) => match s_div(x, SECONDS_PER_YEAR_BITS as int) {
                Some(y) => s_mul(y, rate),
                None => None,
            },
            None => None,
        },
        None => None,
    }
}

/// Outcome of settling pending emissions on a (balance, bank) pair at time
/// `now`: whichever side the balance is on earns the bank's emissions rate
/// on its amount, capped by what the bank still has to give; the balance's
/// settlement clock always advances to `now`.
pub open spec fn spec_claim_emissions(balance: Balance, bank: Bank, now: u64) -> Result<
    (Balance, Bank),
    SurroundfiError,
> {
    let side = spec_get_side(balance);
    let amount_result: Result<Option<int>, SurroundfiError> = if side == Some(BalanceSide::Assets)
        && bank.flags & EMISSIONS_FLAG_LENDING_ACTIVE != 0 {
        match s_mul(balance.asset_shares.bits as int, bank.asset_share_value.bits as int) {
            Some(a) => Ok(Some(a)),
            None => Err(SurroundfiError::MathError),
        }
    } else if side == Some(BalanceSide::Liabilities) && bank.flags & EMISSIONS_FLAG_BORROW_ACTIVE
        != 0 {
        match s_mul(balance.liability_shares.bits as int, bank.liability_share_value.bits as int) {
            Some(a) => Ok(Some(a)),
            None => Err(SurroundfiError::MathError),
        }
    } else {
        Ok(None)
    };
    match amount_result {
        Err(e) => Err(e),
        Ok(None) => Ok((Balance { last_update: now, ..balance }, bank)),
        Ok(Some(amount)) => {
            let last = if balance.last_update < MIN_EMISSIONS_START_TIME {
                now as int
            } else {
                balance.last_update as int
            };
            if now < last {
                Err(SurroundfiError::MathError)
            } else {
                let period = (now - last) * FRAC_SCALE;
                let rate = bank.emissions_rate * FRAC_SCALE;
                match spec_calc_emissions(period, amount, bank.mint_decimals as nat, rate as int) {
                    None => Err(SurroundfiError::MathError),
                    Some(emissions) => {
                        let emissions_real = if emissions
                            <= bank.emissions_remaining.bits as int {
                            emissions
                        } else {
                            bank.emissions_remaining.bits as int
                        };
                        match (
                            s_add(balance.emissions_outstanding.bits as int, emissions_real),
                            s_sub(bank.emissions_remaining.bits as int, emissions_real),
                        ) {
                            (Some(new_outstanding), Some(new_remaining)) => Ok(
                                (
                                    Balance {
                                        emissions_outstanding: I80F48 { bits: new_outstanding as i128 },
                                        last_update: now,
                                        ..balance
                                    },
                                    Bank {
                                        emissions_remaining: I80F48 { bits: new_remaining as i128 },
                                        ..bank
                                    },
                                ),
                            ),
                            _ => Err(SurroundfiError::MathError),
                        }
                    },
                }
            }
        },
    }
}

/// Outcome of an increase (deposit / repay) by `delta` on a settled
/// (balance, bank) pair: first the existing liability shrinks by up to the
/// delta, then any remainder becomes new asset shares, each component
/// gated by the operation policy and the bank's operational state.
pub open spec fn spec_increase_settled(
    balance: Balance,
    bank: Bank,
    delta: I80F48,
    operation_type: BalanceIncreaseType,
) -> Result<(Balance, Bank), SurroundfiError> {
    match s_mul(balance.liability_shares.bits as int, bank.liability_share_value.bits as int) {
        None => Err(SurroundfiError::MathError),
        Some(liab_amount) => match s_sub(delta.bits as int, liab_amount) {
            None => Err(SurroundfiError::MathError),
            Some(diff) => {
                let liab_dec = if liab_amount <= delta.bits as int {
                    liab_amount
                } else {
                    delta.bits as int
                };
                let asset_inc = if diff >= 0 {
                    diff
                } else {
                    0
                };
                if operation_type is RepayOnly && !(int_abs(asset_inc)
                    < ZERO_AMOUNT_THRESHOLD_BITS) {
                    Err(SurroundfiError::OperationRepayOnly)
                } else if operation_type is DepositOnly && !(int_abs(liab_dec)
                    < ZERO_AMOUNT_THRESHOLD_BITS) {
                    Err(SurroundfiError::OperationDepositOnly)
                } else if bank.config.operational_state is Paused {
                    Err(SurroundfiError::BankPaused)
                } else if bank.config.operational_state is ReduceOnly && asset_inc
                    > ZERO_AMOUNT_THRESHOLD_BITS {
                    Err(SurroundfiError::BankReduceOnly)
                } else {
                    match s_div(asset_inc, bank.asset_share_value.bits as int) {
                        None => Err(SurroundfiError::MathError),
                        Some(asset_shares_inc) => match s_add(
                            balance.asset_shares.bits as int,
                            asset_shares_inc,
                        ) {
                            None => Err(SurroundfiError::MathError),
                            Some(new_asset_shares) => match spec_change_asset_shares(
                                bank,
                                I80F48 { bits: asset_shares_inc as i128 },
                                operation_type is BypassDepositLimit,
                            ) {
                                Err(e) => Err(e),
                                Ok(bank1) => match s_div(
                                    liab_dec,
                                    bank1.liability_share_value.bits as int,
                                ) {
                                    None => Err(SurroundfiError::MathError),
                                    Some(liab_shares_dec) => if !crate::i80f48::fits_i128(
                                        -liab_shares_dec,
                                    ) {
                                        Err(SurroundfiError::MathError)
                                    } else {
                                        match s_sub(
                                            balance.liability_shares.bits as int,
                                            liab_shares_dec,
                                        ) {
                                            None => Err(SurroundfiError::MathError),
                                            Some(new_liab_shares) => match spec_change_liability_shares(
                                                bank1,
                                                I80F48 { bits: (-liab_shares_dec) as i128 },
                                                true,
                                            ) {
                                                Err(e) => Err(e),
                                                Ok(bank2) => Ok(
                                                    (
                                                        Balance {
                                                            asset_shares: I80F48 { bits: new_asset_shares as i128 },
                                                            liability_shares: I80F48 { bits: new_liab_shares as i128 },
                                                            ..balance
                                                        },
                                                        bank2,
                                                    ),
                                                ),
                                            },
                                        }
                                    },
                                },
                            },
                        },
                    }
                }
            },
        },
    }
}

/// Outcome of a decrease (withdraw / borrow) by `delta` on a settled
/// (balance, bank) pair: first the existing assets shrink by up to the
/// delta, then any remainder becomes new liability shares; afterwards the
/// bank's utilization must still be within bounds.
pub open spec fn spec_decrease_settled(
    balance: Balance,
    bank: Bank,
    delta: I80F48,
    operation_type: BalanceDecreaseType,
) -> Result<(Balance, Bank), SurroundfiError> {
    match s_mul(balance.asset_shares.bits as int, bank.asset_share_value.bits as int) {
        None => Err(SurroundfiError::MathError),
        Some(asset_amount) => match s_sub(delta.bits as int, asset_amount) {
            None => Err(SurroundfiError::MathError),
            Some(diff) => {
                let asset_dec = if asset_amount <= delta.bits as int {
                    asset_amount
                } else {
                    delta.bits as int
                };
                let liab_inc = if diff >= 0 {
                    diff
                } else {
                    0
                };
                if operation_type is WithdrawOnly && !(int_abs(liab_inc)
                    < ZERO_AMOUNT_THRESHOLD_BITS) {
                    Err(SurroundfiError::OperationWithdrawOnly)
                } else if operation_type is BorrowOnly && !(int_abs(asset_dec)
                    < ZERO_AMOUNT_THRESHOLD_BITS) {
                    Err(SurroundfiError::OperationBorrowOnly)
                } else if bank.config.operational_state is Paused {
                    Err(SurroundfiError::BankPaused)
                } else if bank.config.operational_state is ReduceOnly && liab_inc
                    > ZERO_AMOUNT_THRESHOLD_BITS {
                    Err(SurroundfiError::BankReduceOnly)
                } else {
                    match s_div(asset_dec, bank.asset_share_value.bits as int) {
                        None => Err(SurroundfiError::MathError),
                        Some(asset_shares_dec) => if !crate::i80f48::fits_i128(
                            -asset_shares_dec,
                        ) {
                            Err(SurroundfiError::MathError)
                        } else {
                            match s_sub(balance.asset_shares.bits as int, asset_shares_dec) {
                                None => Err(SurroundfiError::MathError),
                                Some(new_asset_shares) => match spec_change_asset_shares(
                                    bank,
                                    I80F48 { bits: (-asset_shares_dec) as i128 },
                                    false,
                                ) {
                                    Err(e) => Err(e),
                                    Ok(bank1) => match s_div(
                                        liab_inc,
                                        bank1.liability_share_value.bits as int,
                                    ) {
                                        None => Err(SurroundfiError::MathError),
                                        Some(liab_shares_inc) => match s_add(
                                            balance.liability_shares.bits as int,
                                            liab_shares_inc,
                                        ) {
                                            None => Err(SurroundfiError::MathError),
                                            Some(new_liab_shares) => match spec_change_liability_shares(
                                                bank1,
                                                I80F48 { bits: liab_shares_inc as i128 },
                                                operation_type is BypassBorrowLimit,
                                            ) {
                                                Err(e) => Err(e),
                                                Ok(bank2) => {
                                                    let assets = s_mul(
                                                        bank2.total_asset_shares.bits as int,
                                                        bank2.asset_share_value.bits as int,
                                                    );
                                                    let liabs = s_mul(
                                                        bank2.total_liability_shares.bits as int,
                                                        bank2.liability_share_value.bits as int,
                                                    );
                                                    match (assets, liabs) {
                                                        (Some(a), Some(l)) => if a >= l {
                                                            Ok(
                                                                (
                                                                    Balance {
                                                                        asset_shares: I80F48 { bits: new_asset_shares as i128 },
                                                                        liability_shares: I80F48 { bits: new_liab_shares as i128 },
                                                                        ..balance
                                                                    },
                                                                    bank2,
                                                                ),
                                                            )
                                                        } else {
                                                            Err(SurroundfiError::IllegalUtilizationRatio)
                                                        },
                                                        _ => Err(SurroundfiError::MathError),
                                                    }
                                                },
                                            },
                                        },
                                    },
                                },
                            }
                        },
                    }
                }
            },
        },
    }
}

/// Outcome of a full increase operation: settle emissions, then apply the
/// hybrid repay-then-deposit rule.
pub open spec fn spec_increase_balance(
    balance: Balance,
    bank: Bank,
    delta: I80F48,
    operation_type: BalanceIncreaseType,
    now: u64,
) -> Result<(Balance, Bank), SurroundfiError> {
    match spec_claim_emissions(balance, bank, now) {
        Err(e) => Err(e),
        Ok((bal1, bank1)) => spec_increase_settled(bal1, bank1, delta, operation_type),
    }
}

/// Outcome of a full decrease operation: settle emissions, then apply the
/// hybrid withdraw-then-borrow rule.
pub open spec fn spec_decrease_balance(
    balance: Balance,
    bank: Bank,
    delta: I80F48,
    operation_type: BalanceDecreaseType,
    now: u64,
) -> Result<(Balance, Bank), SurroundfiError> {
    match spec_claim_emissions(balance, bank, now) {
        Err(e) => Err(e),
        Ok((bal1, bank1)) => spec_decrease_settled(bal1, bank1, delta, operation_type),
    }
}

/// Outcome of withdrawing a whole position: the asset side must be
/// non-negligible and the liability side negligible; the slot is freed,
/// the bank's totals shrink, utilization is re-checked, and the token
/// amount paid out is the floor of the position's value, the fractional
/// remainder going to the insurance-fee accumulator.
pub open spec fn spec_withdraw_all(balance: Balance, bank: Bank, now: u64) -> Result<
    (Balance, Bank, u64),
    SurroundfiError,
> {
    match spec_claim_emissions(balance, bank, now) {
        Err(e) => Err(e),
        Ok((bal, bank0)) => {
            if bank0.config.operational_state is Paused {
                Err(SurroundfiError::BankPaused)
            } else {
                match (
                    s_mul(bal.asset_shares.bits as int, bank0.asset_share_value.bits as int),
                    s_mul(
                        bal.liability_shares.bits as int,
                        bank0.liability_share_value.bits as int,
                    ),
                ) {
                    (Some(asset_amount), Some(liab_amount)) => {
                        if !(asset_amount > ZERO_AMOUNT_THRESHOLD_BITS) {
                            Err(SurroundfiError::NoAssetFound)
                        } else if !(int_abs(liab_amount) < ZERO_AMOUNT_THRESHOLD_BITS) {
                            Err(SurroundfiError::NoAssetFound)
                        } else if bal.emissions_outstanding.bits >= FRAC_SCALE {
                            Err(SurroundfiError::CannotCloseOutstandingEmissions)
                        } else if !crate::i80f48::fits_i128(-bal.asset_shares.bits) {
                            Err(SurroundfiError::MathError)
                        } else {
                            match spec_change_asset_shares(
                                bank0,
                                I80F48 { bits: (-bal.asset_shares.bits) as i128 },
                                false,
                            ) {
                                Err(e) => Err(e),
                                Ok(bank1) => match crate::bank::spec_check_utilization_ratio(
                                    bank1,
                                ) {
                                    Err(e) => Err(e),
                                    Ok(()) => {
                                        let spl = crate::i80f48::floor_bits(asset_amount);
                                        match s_add(
                                            bank1.collected_insurance_fees_outstanding.bits as int,
                                            asset_amount - spl,
                                        ) {
                                            None => Err(SurroundfiError::MathError),
                                            Some(new_insurance) => {
                                                let q = crate::i80f48::to_int_floor(asset_amount);
                                                if !(0 <= q <= u64::MAX) {
                                                    Err(SurroundfiError::MathError)
                                                } else {
                                                    Ok(
                                                        (
                                                            crate::account::spec_empty_deactivated(),
                                                            Bank {
                                                                collected_insurance_fees_outstanding: I80F48 {
                                                                    bits: new_insurance as i128,
                                                                },
                                                                ..bank1
                                                            },
                                                            q as u64,
                                                        ),
                                                    )
                                                }
                                            },
                                        }
                                    },
                                },
                            }
                        }
                    },
                    _ => Err(SurroundfiError::MathError),
                }
            }
        },
    }
}

/// Outcome of repaying a whole position: the liability side must be
/// non-negligible and the asset side negligible; the slot is freed, the
/// bank's totals shrink, and the token amount collected is the ceiling of
/// the debt's value, the rounding surplus going to the insurance-fee
/// accumulator.
pub open spec fn spec_repay_all(balance: Balance, bank: Bank, now: u64) -> Result<
    (Balance, Bank, u64),
    SurroundfiError,
> {
    match spec_claim_emissions(balance, bank, now) {
        Err(e) => Err(e),
        Ok((bal, bank0)) => {
            if bank0.config.operational_state is Paused {
                Err(SurroundfiError::BankPaused)
            } else {
                match (
                    s_mul(
                        bal.liability_shares.bits as int,
                        bank0.liability_share_value.bits as int,
                    ),
                    s_mul(bal.asset_shares.bits as int, bank0.asset_share_value.bits as int),
                ) {
                    (Some(liab_amount), Some(asset_amount)) => {
                        if !(liab_amount > ZERO_AMOUNT_THRESHOLD_BITS) {
                            Err(SurroundfiError::NoLiabilityFound)
                        } else if !(int_abs(asset_amount) < ZERO_AMOUNT_THRESHOLD_BITS) {
                            Err(SurroundfiError::NoLiabilityFound)
                        } else if bal.emissions_outstanding.bits >= FRAC_SCALE {
                            Err(SurroundfiError::CannotCloseOutstandingEmissions)
                        } else if !crate::i80f48::fits_i128(-bal.liability_shares.bits) {
                            Err(SurroundfiError::MathError)
                        } else {
                            match spec_change_liability_shares(
                                bank0,
                                I80F48 { bits: (-bal.liability_shares.bits) as i128 },
                                false,
                            ) {
                                Err(e) => Err(e),
                                Ok(bank1) => {
                                    if !crate::i80f48::fits_i128(
                                        crate::i80f48::ceil_bits(liab_amount),
                                    ) {
                                        Err(SurroundfiError::MathError)
                                    } else {
                                        let spl = crate::i80f48::ceil_bits(liab_amount);
                                        match s_add(
                                            bank1.collected_insurance_fees_outstanding.bits as int,
                                            spl - liab_amount,
                                        ) {
                                            None => Err(SurroundfiError::MathError),
                                            Some(new_insurance) => {
                                                let q = spl / (FRAC_SCALE as int);
                                                if !(0 <= q <= u64::MAX) {
                                                    Err(SurroundfiError::MathError)
                                                } else {
                                                    Ok(
                                                        (
                                                            crate::account::spec_empty_deactivated(),
                                                            Bank {
                                                                collected_insurance_fees_outstanding: I80F48 {
                                                                    bits: new_insurance as i128,
                                                                },
                                                                ..bank1
                                                            },
                                                            q as u64,
                                                        ),
                                                    )
                                                }
                                            },
                                        }
                                    }
                                },
                            }
                        }
                    },
                    _ => Err(SurroundfiError::MathError),
                }
            }
        },
    }
}

/// Outcome of closing a balance: both sides must already be negligible
/// and no whole unit of emissions unclaimed; the slot is freed.
pub open spec fn spec_close_balance(balance: Balance, bank: Bank, now: u64) -> Result<
    (Balance, Bank),
    SurroundfiError,
> {
    match spec_claim_emissions(balance, bank, now) {
        Err(e) => Err(e),
        Ok((bal, bank0)) => {
            match (
                s_mul(bal.liability_shares.bits as int, bank0.liability_share_value.bits as int),
                s_mul(bal.asset_shares.bits as int, bank0.asset_share_value.bits as int),
            ) {
                (Some(liab_amount), Some(asset_amount)) => {
                    if !(int_abs(liab_amount) < ZERO_AMOUNT_THRESHOLD_BITS) {
                        Err(SurroundfiError::IllegalBalanceState)
                    } else if !(int_abs(asset_amount) < ZERO_AMOUNT_THRESHOLD_BITS) {
                        Err(SurroundfiError::IllegalBalanceState)
                    } else if bal.emissions_outstanding.bits >= FRAC_SCALE {
                        Err(SurroundfiError::CannotCloseOutstandingEmissions)
                    } else {
                        Ok((crate::account::spec_empty_deactivated(), bank0))
                    }
                },
                _ => Err(SurroundfiError::MathError),
            }
        },
    }
}

/// Outcome of settling emissions and taking out the whole-unit part: the
/// outstanding amount keeps only its fraction, and the whole units are
/// returned for transfer.
pub open spec fn spec_settle_emissions(balance: Balance, bank: Bank, now: u64) -> Result<
    (Balance, Bank, u64),
    SurroundfiError,
> {
    match spec_claim_emissions(balance, bank, now) {
        Err(e) => Err(e),
        Ok((bal, bank0)) => {
            let outstanding = bal.emissions_outstanding.bits as int;
            let floored = crate::i80f48::floor_bits(outstanding);
            let q = crate::i80f48::to_int_floor(outstanding);
            if !(0 <= q <= u64::MAX) {
                Err(SurroundfiError::MathError)
            } else {
                Ok(
                    (
                        Balance {
                            emissions_outstanding: I80F48 { bits: (outstanding - floored) as i128 },
                            ..bal
                        },
                        bank0,
                        q as u64,
                    ),
                )
            }
        },
    }
}

/// One (balance, bank) pair checked out for mutation. The caller takes the
/// balance out of the account's ledger, mutates through this wrapper, and
/// writes the balance back.
#[derive(Clone, Copy, Debug)]
pub struct BankAccountWrapper {
    /// The user's balance in this bank.
    pub balance: Balance,
    /// The bank itself.
    pub bank: Bank,
}

impl BankAccountWrapper {
    /// Check out the active balance bound to the given bank, with its slot
    /// index; error when the account holds no position there.
    pub fn find(bank_pk: u64, bank: Bank, lending_account: &LendingAccount) -> (r: Result<
        (BankAccountWrapper, usize),
        SurroundfiError,
    >)
        ensures
            match r {
                Ok((w, i)) => crate::account::spec_balance_index(lending_account.balances@, bank_pk)
                    == Some(i as int) && i < lending_account.balances@.len() && w.bank == bank
                    && w.balance == lending_account.balances@[i as int] && w.balance.active != 0
                    && w.balance.bank_pk == bank_pk,
                Err(e) => e == SurroundfiError::BankAccountNotFound && crate::account::spec_balance_index(
                    lending_account.balances@,
                    bank_pk,
                ) is None,
            },
    {
        match lending_account.get_balance(bank_pk) {
            Some(i) => Ok((BankAccountWrapper { balance: lending_account.balances[i], bank }, i)),
            None => Err(SurroundfiError::BankAccountNotFound),
        }
    }

    /// Check out the active balance bound to the given bank: the slot the
    /// ledger's search yields when the account already holds a position
    /// there, else a fresh position in the first free slot, snapshotting
    /// the bank's asset tag and starting at zero shares; an error exactly
    /// when the account has no position here and no slot is free.
    pub fn find_or_create(
        bank_pk: u64,
        bank: Bank,
        lending_account: &mut LendingAccount,
        current_timestamp: u64,
    ) -> (r: Result<(BankAccountWrapper, usize), SurroundfiError>)
        ensures
            match crate::ops::spec_locate_or_new(
                old(lending_account).balances@,
                bank_pk,
                bank.config.asset_tag,
                current_timestamp,
            ) {
                Ok((i, b)) => {
                    &&& r matches Ok((w, ri)) && ri as int == i && w.bank == bank && w.balance == b
                    &&& i < old(lending_account).balances@.len()
                    &&& b.active != 0
                    &&& b.bank_pk == bank_pk
                    &&& final(lending_account).balances@ == old(
                        lending_account,
                    ).balances@.update(i, b)
                },
                Err(e) => {
                    &&& r == Err::<(BankAccountWrapper, usize), SurroundfiError>(e)
                    &&& final(lending_account).balances@ == old(lending_account).balances@
                },
            },
    {
        match lending_account.get_balance(bank_pk) {
            Some(i) => {
                proof {
                    assert(lending_account.balances@.update(
                        i as int,
                        lending_account.balances@[i as int],
                    ) =~= lending_account.balances@);
                }
                Ok((BankAccountWrapper { balance: lending_account.balances[i], bank }, i))
            },
            None => {
                let empty_index = match lending_account.get_first_empty_balance() {
                    Some(i) => i,
                    None => {
                        return Err(SurroundfiError::LendingAccountBalanceSlotsFull);
                    },
                };
                let new_balance = Balance {
                    active: 1,
                    bank_pk,
                    bank_asset_tag: bank.config.asset_tag,
                    asset_shares: I80F48::zero(),
                    liability_shares: I80F48::zero(),
                    emissions_outstanding: I80F48::zero(),
                    last_update: current_timestamp,
                };
                lending_account.balances.set(empty_index, new_balance);
                Ok((BankAccountWrapper { balance: new_balance, bank }, empty_index))
            },
        }
    }

    /// Settle pending emissions for this balance up to `now`; the bank's
    /// remaining emissions shrink by what the balance earns. On error
    /// nothing changes.
    pub fn claim_emissions(&mut self, current_timestamp: u64) -> (r: Result<(), SurroundfiError>)
        requires
            old(self).bank.mint_decimals < MAX_MINT_DECIMALS,
        ensures
            match spec_claim_emissions(old(self).balance, old(self).bank, current_timestamp) {
                Ok((bal, bank)) => r == Ok::<(), SurroundfiError>(()) && final(self).balance == bal
                    && final(self).bank == bank,
                Err(e) => r == Err::<(), SurroundfiError>(e) && *final(self) == *old(self),
            },
    {
        let side = self.balance.get_side();
        let is_asset_side = match side {
            Some(BalanceSide::Assets) => true,
            _ => false,
        };
        let is_liab_side = match side {
            Some(BalanceSide::Liabilities) => true,
            _ => false,
        };
        let amount: Option<I80F48> = if is_asset_side && self.bank.get_flag(
            EMISSIONS_FLAG_LENDING_ACTIVE,
        ) {
            match self.balance.asset_shares.checked_mul(self.bank.asset_share_value) {
                Some(a) => Some(a),
                None => {
                    return Err(SurroundfiError::MathError);
                },
            }
        } else if is_liab_side && self.bank.get_flag(EMISSIONS_FLAG_BORROW_ACTIVE) {
            match self.balance.liability_shares.checked_mul(self.bank.liability_share_value) {
                Some(a) => Some(a),
                None => {
                    return Err(SurroundfiError::MathError);
                },
            }
        } else {
            None
        };
        let balance_amount = match amount {
            None => {
                self.balance.last_update = current_timestamp;
                return Ok(());
            },
            Some(a) => a,
        };
        let last_update = if self.balance.last_update < MIN_EMISSIONS_START_TIME {
            current_timestamp
        } else {
            self.balance.last_update
        };
        if current_timestamp < last_update {
            return Err(SurroundfiError::MathError);
        }
        let period = I80F48::from_num(current_timestamp - last_update);
        let emissions_rate = I80F48::from_num(self.bank.emissions_rate);
        let emissions = match calc_emissions(
            period,
            balance_amount,
            self.bank.mint_decimals,
            emissions_rate,
        ) {
            Ok(e) => e,
            Err(e) => {
                return Err(e);
            },
        };
        let emissions_real = emissions.min(self.bank.emissions_remaining);
        let new_outstanding = match self.balance.emissions_outstanding.checked_add(
            emissions_real,
        ) {
            Some(v) => v,
            None => {
                return Err(SurroundfiError::MathError);
            },
        };
        let new_remaining = match self.bank.emissions_remaining.checked_sub(emissions_real) {
            Some(v) => v,
            None => {
                return Err(SurroundfiError::MathError);
            },
        };
        self.balance.emissions_outstanding = new_outstanding;
        self.bank.emissions_remaining = new_remaining;
        self.balance.last_update = current_timestamp;
        Ok(())
    }

    /// Apply an increase with the given policy: settle emissions, repay up
    /// to the delta, deposit the remainder. On error nothing changes.
    pub fn increase_balance_internal(
        &mut self,
        balance_delta: I80F48,
        operation_type: BalanceIncreaseType,
        current_timestamp: u64,
    ) -> (r: Result<(), SurroundfiError>)
        requires
            old(self).bank.mint_decimals < MAX_MINT_DECIMALS,
        ensures
            match spec_increase_balance(
                old(self).balance,
                old(self).bank,
                balance_delta,
                operation_type,
                current_timestamp,
            ) {
                Ok((bal, bank)) => r == Ok::<(), SurroundfiError>(()) && final(self).balance == bal
                    && final(self).bank == bank,
                Err(e) => r == Err::<(), SurroundfiError>(e) && *final(self) == *old(self),
            },
    {
        let mut staged = *self;
        match staged.claim_emissions(current_timestamp) {
            Ok(()) => {},
            Err(e) => {
                return Err(e);
            },
        }
        let current_liability_amount = match staged.balance.liability_shares.checked_mul(
            staged.bank.liability_share_value,
        ) {
            Some(v) => v,
            None => {
                return Err(SurroundfiError::MathError);
            },
        };
        let diff = match balance_delta.checked_sub(current_liability_amount) {
            Some(v) => v,
            None => {
                return Err(SurroundfiError::MathError);
            },
        };
        let liability_amount_decrease = current_liability_amount.min(balance_delta);
        let asset_amount_increase = diff.max(I80F48::zero());
        let zero_tolerance = I80F48 { bits: ZERO_AMOUNT_THRESHOLD_BITS };
        match operation_type {
            BalanceIncreaseType::RepayOnly => {
                if !asset_amount_increase.is_zero_with_tolerance(zero_tolerance) {
                    return Err(SurroundfiError::OperationRepayOnly);
                }
            },
            BalanceIncreaseType::DepositOnly => {
                if !liability_amount_decrease.is_zero_with_tolerance(zero_tolerance) {
                    return Err(SurroundfiError::OperationDepositOnly);
                }
            },
            _ => {},
        }
        let is_asset_amount_increasing = asset_amount_increase.is_positive_with_tolerance(
            zero_tolerance,
        );
        match staged.bank.assert_operational_mode(Some(is_asset_amount_increasing)) {
            Ok(()) => {},
            Err(e) => {
                return Err(e);
            },
        }
        let asset_shares_increase = match staged.bank.get_asset_shares(asset_amount_increase) {
            Ok(v) => v,
            Err(e) => {
                return Err(e);
            },
        };
        match staged.balance.change_asset_shares(asset_shares_increase) {
            Ok(()) => {},
            Err(e) => {
                return Err(e);
            },
        }
        let bypass = match operation_type {
            BalanceIncreaseType::BypassDepositLimit => true,
            _ => false,
        };
        match staged.bank.change_asset_shares(asset_shares_increase, bypass) {
            Ok(()) => {},
            Err(e) => {
                return Err(e);
            },
        }
        let liability_shares_decrease = match staged.bank.get_liability_shares(
            liability_amount_decrease,
        ) {
            Ok(v) => v,
            Err(e) => {
                return Err(e);
            },
        };
        let neg_decrease = match liability_shares_decrease.checked_neg() {
            Some(v) => v,
            None => {
                return Err(SurroundfiError::MathError);
            },
        };
        match staged.balance.change_liability_shares(neg_decrease) {
            Ok(()) => {},
            Err(e) => {
                return Err(e);
            },
        }
        match staged.bank.change_liability_shares(neg_decrease, true) {
            Ok(()) => {},
            Err(e) => {
                return Err(e);
            },
        }
        *self = staged;
        Ok(())
    }

    /// Apply a decrease with the given policy: settle emissions, withdraw
    /// up to the delta, borrow the remainder, and re-check the bank's
    /// utilization. On error nothing changes.
    pub fn decrease_balance_internal(
        &mut self,
        balance_delta: I80F48,
        operation_type: BalanceDecreaseType,
        current_timestamp: u64,
    ) -> (r: Result<(), SurroundfiError>)
        requires
            old(self).bank.mint_decimals < MAX_MINT_DECIMALS,
        ensures
            match spec_decrease_balance(
                old(self).balance,
                old(self).bank,
                balance_delta,
                operation_type,
                current_timestamp,
            ) {
                Ok((bal, bank)) => r == Ok::<(), SurroundfiError>(()) && final(self).balance == bal
                    && final(self).bank == bank,
                Err(e) => r == Err::<(), SurroundfiError>(e) && *final(self) == *old(self),
            },
    {
        let mut staged = *self;
        match staged.claim_emissions(current_timestamp) {
            Ok(()) => {},
            Err(e) => {
                return Err(e);
            },
        }
        let current_asset_amount = match staged.balance.asset_shares.checked_mul(
            staged.bank.asset_share_value,
        ) {
            Some(v) => v,
            None => {
                return Err(SurroundfiError::MathError);
            },
        };
        let diff = match balance_delta.checked_sub(current_asset_amount) {
            Some(v) => v,
            None => {
                return Err(SurroundfiError::MathError);
            },
        };
        let asset_amount_decrease = current_asset_amount.min(balance_delta);
        let liability_amount_increase = diff.max(I80F48::zero());
        let zero_tolerance = I80F48 { bits: ZERO_AMOUNT_THRESHOLD_BITS };
        match operation_type {
            BalanceDecreaseType::WithdrawOnly => {
                if !liability_amount_increase.is_zero_with_tolerance(zero_tolerance) {
                    return Err(SurroundfiError::OperationWithdrawOnly);
                }
            },
            BalanceDecreaseType::BorrowOnly => {
                if !asset_amount_decrease.is_zero_with_tolerance(zero_tolerance) {
                    return Err(SurroundfiError::OperationBorrowOnly);
                }
            },
            _ => {},
        }
        let is_liability_amount_increasing = liability_amount_increase.is_positive_with_tolerance(
            zero_tolerance,
        );
        match staged.bank.assert_operational_mode(Some(is_liability_amount_increasing)) {
            Ok(()) => {},
            Err(e) => {
                return Err(e);
            },
        }
        let asset_shares_decrease = match staged.bank.get_asset_shares(asset_amount_decrease) {
            Ok(v) => v,
            Err(e) => {
                return Err(e);
            },
        };
        let neg_decrease = match asset_shares_decrease.checked_neg() {
            Some(v) => v,
            None => {
                return Err(SurroundfiError::MathError);
            },
        };
        match staged.balance.change_asset_shares(neg_decrease) {
            Ok(()) => {},
            Err(e) => {
                return Err(e);
            },
        }
        match staged.bank.change_asset_shares(neg_decrease, false) {
            Ok(()) => {},
            Err(e) => {
                return Err(e);
            },
        }
        let liability_shares_increase = match staged.bank.get_liability_shares(
            liability_amount_increase,
        ) {
            Ok(v) => v,
            Err(e) => {
                return Err(e);
            },
        };
        match staged.balance.change_liability_shares(liability_shares_increase) {
            Ok(()) => {},
            Err(e) => {
                return Err(e);
            },
        }
        let bypass = match operation_type {
            BalanceDecreaseType::BypassBorrowLimit => true,
            _ => false,
        };
        match staged.bank.change_liability_shares(liability_shares_increase, bypass) {
            Ok(()) => {},
            Err(e) => {
                return Err(e);
            },
        }
        match staged.bank.check_utilization_ratio() {
            Ok(()) => {},
            Err(e) => {
                return Err(e);
            },
        }
        *self = staged;
        Ok(())
    }

    /// Deposit an asset; any outstanding liability is repaid first.
    pub fn deposit(&mut self, amount: I80F48, current_timestamp: u64) -> (r: Result<
        (),
        SurroundfiError,
    >)
        requires
            old(self).bank.mint_decimals < MAX_MINT_DECIMALS,
        ensures
            match spec_increase_balance(
                old(self).balance,
                old(self).bank,
                amount,
                BalanceIncreaseType::Any,
                current_timestamp,
            ) {
                Ok((bal, bank)) => r == Ok::<(), SurroundfiError>(()) && final(self).balance == bal
                    && final(self).bank == bank,
                Err(e) => r == Err::<(), SurroundfiError>(e) && *final(self) == *old(self),
            },
    {
        self.increase_balance_internal(amount, BalanceIncreaseType::Any, current_timestamp)
    }

    /// Repay a liability; errors if part of the amount would become a
    /// deposit.
    pub fn repay(&mut self, amount: I80F48, current_timestamp: u64) -> (r: Result<
        (),
        SurroundfiError,
    >)
        requires
            old(self).bank.mint_decimals < MAX_MINT_DECIMALS,
        ensures
            match spec_increase_balance(
                old(self).balance,
                old(self).bank,
                amount,
                BalanceIncreaseType::RepayOnly,
                current_timestamp,
            ) {
                Ok((bal, bank)) => r == Ok::<(), SurroundfiError>(()) && final(self).balance == bal
                    && final(self).bank == bank,
                Err(e) => r == Err::<(), SurroundfiError>(e) && *final(self) == *old(self),
            },
    {
        self.increase_balance_internal(amount, BalanceIncreaseType::RepayOnly, current_timestamp)
    }

    /// Withdraw an asset; errors if part of the amount would become a
    /// borrow.
    pub fn withdraw(&mut self, amount: I80F48, current_timestamp: u64) -> (r: Result<
        (),
        SurroundfiError,
    >)
        requires
            old(self).bank.mint_decimals < MAX_MINT_DECIMALS,
        ensures
            match spec_decrease_balance(
                old(self).balance,
                old(self).bank,
                amount,
                BalanceDecreaseType::WithdrawOnly,
                current_timestamp,
            ) {
                Ok((bal, bank)) => r == Ok::<(), SurroundfiError>(()) && final(self).balance == bal
                    && final(self).bank == bank,
                Err(e) => r == Err::<(), SurroundfiError>(e) && *final(self) == *old(self),
            },
    {
        self.decrease_balance_internal(
            amount,
            BalanceDecreaseType::WithdrawOnly,
            current_timestamp,
        )
    }

    /// Incur a borrow; any existing assets are withdrawn first.
    pub fn borrow(&mut self, amount: I80F48, current_timestamp: u64) -> (r: Result<
        (),
        SurroundfiError,
    >)
        requires
            old(self).bank.mint_decimals < MAX_MINT_DECIMALS,
        ensures
            match spec_decrease_balance(
                old(self).balance,
                old(self).bank,
                amount,
                BalanceDecreaseType::Any,
                current_timestamp,
            ) {
                Ok((bal, bank)) => r == Ok::<(), SurroundfiError>(()) && final(self).balance == bal
                    && final(self).bank == bank,
                Err(e) => r == Err::<(), SurroundfiError>(e) && *final(self) == *old(self),
            },
    {
        self.decrease_balance_internal(amount, BalanceDecreaseType::Any, current_timestamp)
    }

    /// Repay what is owed and deposit the remainder.
    pub fn increase_balance(&mut self, amount: I80F48, current_timestamp: u64) -> (r: Result<
        (),
        SurroundfiError,
    >)
        requires
            old(self).bank.mint_decimals < MAX_MINT_DECIMALS,
        ensures
            match spec_increase_balance(
                old(self).balance,
                old(self).bank,
                amount,
                BalanceIncreaseType::Any,
                current_timestamp,
            ) {
                Ok((bal, bank)) => r == Ok::<(), SurroundfiError>(()) && final(self).balance == bal
                    && final(self).bank == bank,
                Err(e) => r == Err::<(), SurroundfiError>(e) && *final(self) == *old(self),
            },
    {
        self.increase_balance_internal(amount, BalanceIncreaseType::Any, current_timestamp)
    }

    /// Like `increase_balance`, but pushes deposits past the bank's cap;
    /// only liquidation settlement uses this.
    pub fn increase_balance_in_liquidation(&mut self, amount: I80F48, current_timestamp: u64) -> (r:
        Result<(), SurroundfiError>)
        requires
            old(self).bank.mint_decimals < MAX_MINT_DECIMALS,
        ensures
            match spec_increase_balance(
                old(self).balance,
                old(self).bank,
                amount,
                BalanceIncreaseType::BypassDepositLimit,
                current_timestamp,
            ) {
                Ok((bal, bank)) => r == Ok::<(), SurroundfiError>(()) && final(self).balance == bal
                    && final(self).bank == bank,
                Err(e) => r == Err::<(), SurroundfiError>(e) && *final(self) == *old(self),
            },
    {
        self.increase_balance_internal(
            amount,
            BalanceIncreaseType::BypassDepositLimit,
            current_timestamp,
        )
    }

    /// Withdraw what is there and borrow the remainder.
    pub fn decrease_balance(&mut self, amount: I80F48, current_timestamp: u64) -> (r: Result<
        (),
        SurroundfiError,
    >)
        requires
            old(self).bank.mint_decimals < MAX_MINT_DECIMALS,
        ensures
            match spec_decrease_balance(
                old(self).balance,
                old(self).bank,
                amount,
                BalanceDecreaseType::Any,
                current_timestamp,
            ) {
                Ok((bal, bank)) => r == Ok::<(), SurroundfiError>(()) && final(self).balance == bal
                    && final(self).bank == bank,
                Err(e) => r == Err::<(), SurroundfiError>(e) && *final(self) == *old(self),
            },
    {
        self.decrease_balance_internal(amount, BalanceDecreaseType::Any, current_timestamp)
    }

    /// Like `decrease_balance`, but pushes borrows past the bank's cap so
    /// liquidations can proceed in maxed-out banks.
    pub fn decrease_balance_in_liquidation(&mut self, amount: I80F48, current_timestamp: u64) -> (r:
        Result<(), SurroundfiError>)
        requires
            old(self).bank.mint_decimals < MAX_MINT_DECIMALS,
        ensures
            match spec_decrease_balance(
                old(self).balance,
                old(self).bank,
                amount,
                BalanceDecreaseType::BypassBorrowLimit,
                current_timestamp,
            ) {
                Ok((bal, bank)) => r == Ok::<(), SurroundfiError>(()) && final(self).balance == bal
                    && final(self).bank == bank,
                Err(e) => r == Err::<(), SurroundfiError>(e) && *final(self) == *old(self),
            },
    {
        self.decrease_balance_internal(
            amount,
            BalanceDecreaseType::BypassBorrowLimit,
            current_timestamp,
        )
    }

    /// Withdraw the whole position: the asset side must hold something and
    /// the liability side nothing; the paid-out amount is rounded down and
    /// the remainder credited to the insurance-fee accumulator. On error
    /// nothing changes.
    pub fn withdraw_all(&mut self, current_timestamp: u64) -> (r: Result<u64, SurroundfiError>)
        requires
            old(self).bank.mint_decimals < MAX_MINT_DECIMALS,
        ensures
            match spec_withdraw_all(old(self).balance, old(self).bank, current_timestamp) {
                Ok((bal, bank, amount)) => r == Ok::<u64, SurroundfiError>(amount) && final(self).balance == bal && final(self).bank == bank,
                Err(e) => r == Err::<u64, SurroundfiError>(e) && *final(self) == *old(self),
            },
    {
        let mut staged = *self;
        match staged.claim_emissions(current_timestamp) {
            Ok(()) => {},
            Err(e) => {
                return Err(e);
            },
        }
        match staged.bank.assert_operational_mode(None) {
            Ok(()) => {},
            Err(e) => {
                return Err(e);
            },
        }
        let total_asset_shares = staged.balance.asset_shares;
        let current_asset_amount = match staged.bank.get_asset_amount(total_asset_shares) {
            Ok(v) => v,
            Err(e) => {
                return Err(e);
            },
        };
        let current_liability_amount = match staged.bank.get_liability_amount(
            staged.balance.liability_shares,
        ) {
            Ok(v) => v,
            Err(e) => {
                return Err(e);
            },
        };
        let zero_tolerance = I80F48 { bits: ZERO_AMOUNT_THRESHOLD_BITS };
        if !current_asset_amount.is_positive_with_tolerance(zero_tolerance) {
            return Err(SurroundfiError::NoAssetFound);
        }
        if !current_liability_amount.is_zero_with_tolerance(zero_tolerance) {
            return Err(SurroundfiError::NoAssetFound);
        }
        match staged.balance.close() {
            Ok(()) => {},
            Err(e) => {
                return Err(e);
            },
        }
        let neg_shares = match total_asset_shares.checked_neg() {
            Some(v) => v,
            None => {
                return Err(SurroundfiError::MathError);
            },
        };
        match staged.bank.change_asset_shares(neg_shares, false) {
            Ok(()) => {},
            Err(e) => {
                return Err(e);
            },
        }
        match staged.bank.check_utilization_ratio() {
            Ok(()) => {},
            Err(e) => {
                return Err(e);
            },
        }
        let spl_withdraw_amount = match current_asset_amount.checked_floor() {
            Some(v) => v,
            None => {
                return Err(SurroundfiError::MathError);
            },
        };
        let remainder = match current_asset_amount.checked_sub(spl_withdraw_amount) {
            Some(v) => v,
            None => {
                return Err(SurroundfiError::MathError);
            },
        };
        let new_insurance = match staged.bank.collected_insurance_fees_outstanding.checked_add(
            remainder,
        ) {
            Some(v) => v,
            None => {
                return Err(SurroundfiError::MathError);
            },
        };
        staged.bank.collected_insurance_fees_outstanding = new_insurance;
        proof {
            crate::i80f48::lemma_floor_keeps_int_part(current_asset_amount.bits as int);
        }
        let q = match spl_withdraw_amount.checked_to_num_u64() {
            Some(v) => v,
            None => {
                return Err(SurroundfiError::MathError);
            },
        };
        *self = staged;
        Ok(q)
    }

    /// Repay the whole debt: the liability side must owe something and
    /// the asset side hold nothing; the collected amount is rounded up and
    /// the surplus credited to the insurance-fee accumulator. On error
    /// nothing changes.
    pub fn repay_all(&mut self, current_timestamp: u64) -> (r: Result<u64, SurroundfiError>)
        requires
            old(self).bank.mint_decimals < MAX_MINT_DECIMALS,
        ensures
            match spec_repay_all(old(self).balance, old(self).bank, current_timestamp) {
                Ok((bal, bank, amount)) => r == Ok::<u64, SurroundfiError>(amount) && final(self).balance == bal && final(self).bank == bank,
                Err(e) => r == Err::<u64, SurroundfiError>(e) && *final(self) == *old(self),
            },
    {
        let mut staged = *self;
        match staged.claim_emissions(current_timestamp) {
            Ok(()) => {},
            Err(e) => {
                return Err(e);
            },
        }
        match staged.bank.assert_operational_mode(None) {
            Ok(()) => {},
            Err(e) => {
                return Err(e);
            },
        }
        let total_liability_shares = staged.balance.liability_shares;
        let current_liability_amount = match staged.bank.get_liability_amount(
            total_liability_shares,
        ) {
            Ok(v) => v,
            Err(e) => {
                return Err(e);
            },
        };
        let current_asset_amount = match staged.bank.get_asset_amount(
            staged.balance.asset_shares,
        ) {
            Ok(v) => v,
            Err(e) => {
                return Err(e);
            },
        };
        let zero_tolerance = I80F48 { bits: ZERO_AMOUNT_THRESHOLD_BITS };
        if !current_liability_amount.is_positive_with_tolerance(zero_tolerance) {
            return Err(SurroundfiError::NoLiabilityFound);
        }
        if !current_asset_amount.is_zero_with_tolerance(zero_tolerance) {
            return Err(SurroundfiError::NoLiabilityFound);
        }
        match staged.balance.close() {
            Ok(()) => {},
            Err(e) => {
                return Err(e);
            },
        }
        let neg_shares = match total_liability_shares.checked_neg() {
            Some(v) => v,
            None => {
                return Err(SurroundfiError::MathError);
            },
        };
        match staged.bank.change_liability_shares(neg_shares, false) {
            Ok(()) => {},
            Err(e) => {
                return Err(e);
            },
        }
        let spl_deposit_amount = match current_liability_amount.checked_ceil() {
            Some(v) => v,
            None => {
                return Err(SurroundfiError::MathError);
            },
        };
        let surplus = match spl_deposit_amount.checked_sub(current_liability_amount) {
            Some(v) => v,
            None => {
                return Err(SurroundfiError::MathError);
            },
        };
        let new_insurance = match staged.bank.collected_insurance_fees_outstanding.checked_add(
            surplus,
        ) {
            Some(v) => v,
            None => {
                return Err(SurroundfiError::MathError);
            },
        };
        staged.bank.collected_insurance_fees_outstanding = new_insurance;
        let q = match spl_deposit_amount.checked_to_num_u64() {
            Some(v) => v,
            None => {
                return Err(SurroundfiError::MathError);
            },
        };
        *self = staged;
        Ok(q)
    }

    /// Close a logically empty balance: both sides negligible and no whole
    /// unit of emissions unclaimed. On error nothing changes.
    pub fn close_balance(&mut self, current_timestamp: u64) -> (r: Result<(), SurroundfiError>)
        requires
            old(self).bank.mint_decimals < MAX_MINT_DECIMALS,
        ensures
            match spec_close_balance(old(self).balance, old(self).bank, current_timestamp) {
                Ok((bal, bank)) => r == Ok::<(), SurroundfiError>(()) && final(self).balance == bal
                    && final(self).bank == bank,
                Err(e) => r == Err::<(), SurroundfiError>(e) && *final(self) == *old(self),
            },
    {
        let mut staged = *self;
        match staged.claim_emissions(current_timestamp) {
            Ok(()) => {},
            Err(e) => {
                return Err(e);
            },
        }
        let current_liability_amount = match staged.bank.get_liability_amount(
            staged.balance.liability_shares,
        ) {
            Ok(v) => v,
            Err(e) => {
                return Err(e);
            },
        };
        let current_asset_amount = match staged.bank.get_asset_amount(
            staged.balance.asset_shares,
        ) {
            Ok(v) => v,
            Err(e) => {
                return Err(e);
            },
        };
        let zero_tolerance = I80F48 { bits: ZERO_AMOUNT_THRESHOLD_BITS };
        if !current_liability_amount.is_zero_with_tolerance(zero_tolerance) {
            return Err(SurroundfiError::IllegalBalanceState);
        }
        if !current_asset_amount.is_zero_with_tolerance(zero_tolerance) {
            return Err(SurroundfiError::IllegalBalanceState);
        }
        match staged.balance.close() {
            Ok(()) => {},
            Err(e) => {
                return Err(e);
            },
        }
        *self = staged;
        Ok(())
    }

    /// Settle pending emissions and take out the whole-unit part for
    /// transfer; the fraction stays on the balance. On error nothing
    /// changes.
    pub fn settle_emissions_and_get_transfer_amount(&mut self, current_timestamp: u64) -> (r:
        Result<u64, SurroundfiError>)
        requires
            old(self).bank.mint_decimals < MAX_MINT_DECIMALS,
        ensures
            match spec_settle_emissions(old(self).balance, old(self).bank, current_timestamp) {
                Ok((bal, bank, amount)) => r == Ok::<u64, SurroundfiError>(amount) && final(self).balance == bal && final(self).bank == bank,
                Err(e) => r == Err::<u64, SurroundfiError>(e) && *final(self) == *old(self),
            },
    {
        let mut staged = *self;
        match staged.claim_emissions(current_timestamp) {
            Ok(()) => {},
            Err(e) => {
                return Err(e);
            },
        }
        let outstanding = staged.balance.emissions_outstanding;
        let floored = match outstanding.checked_floor() {
            Some(v) => v,
            None => {
                return Err(SurroundfiError::MathError);
            },
        };
        let new_outstanding = match outstanding.checked_sub(floored) {
            Some(v) => v,
            None => {
                return Err(SurroundfiError::MathError);
            },
        };
        staged.balance.emissions_outstanding = new_outstanding;
        proof {
            crate::i80f48::lemma_floor_keeps_int_part(outstanding.bits as int);
        }
        let q = match floored.checked_to_num_u64() {
            Some(v) => v,
            None => {
                return Err(SurroundfiError::MathError);
            },
        };
        *self = staged;
        Ok(q)
    }
}

/// Emissions one period earns on a balance amount: the prorated annual
/// rate applied to the amount in whole tokens.
pub fn calc_emissions(
    period: I80F48,
    balance_amount: I80F48,
    mint_decimals: u8,
    emissions_rate: I80F48,
) -> (r: Result<I80F48, SurroundfiError>)
    requires
        mint_decimals < MAX_MINT_DECIMALS,
    ensures
        match spec_calc_emissions(
            period.bits as int,
            balance_amount.bits as int,
            mint_decimals as nat,
            emissions_rate.bits as int,
        ) {
            Some(v) => r == Ok::<I80F48, SurroundfiError>(I80F48 { bits: v as i128 }),
            None => r == Err::<I80F48, SurroundfiError>(SurroundfiError::MathError),
        },
{
    let exponent = crate::constants::exp_10_i80f48(mint_decimals);
    let balance_amount_ui = match balance_amount.checked_div(exponent) {
        Some(v) => v,
        None => {
            return Err(SurroundfiError::MathError);
        },
    };
    let x = match period.checked_mul(balance_amount_ui) {
        Some(v) => v,
        None => {
            return Err(SurroundfiError::MathError);
        },
    };
    let y = match x.checked_div(I80F48 { bits: SECONDS_PER_YEAR_BITS }) {
        Some(v) => v,
        None => {
            return Err(SurroundfiError::MathError);
        },
    };
    match y.checked_mul(emissions_rate) {
        Some(v) => Ok(v),
        None => Err(SurroundfiError::MathError),
    }
}

} // verus!
