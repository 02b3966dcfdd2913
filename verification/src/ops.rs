//! Operation cores: the compute part of each user-facing instruction.
//! Each takes the relevant state records and plain values the host has
//! already loaded, performs the full sequence the protocol prescribes
//! (accrue interest, mutate the ledger, re-check risk), and either commits
//! the whole outcome or reports the error with nothing changed. Token
//! transfers themselves are the host's job; these functions say which
//! amounts to move.

use vstd::prelude::*;
use crate::account::{
    spec_balance_index, spec_first_empty, Balance, LendingAccount, SurroundfiAccount,
};
use crate::bank::Bank;
use crate::constants::{
    ACCOUNT_DISABLED, ASSET_TAG_DEFAULT, ASSET_TAG_SOL, ASSET_TAG_STAKED, MAX_MINT_DECIMALS,
};
use crate::errors::SurroundfiError;
use crate::health_cache::{HealthCache, ENGINE_OK_FLAG, HEALTHY_FLAG};
use crate::i80f48::{s_add, s_mul, sat_bits, to_int_floor, I80F48, FRAC_SCALE};
use crate::interest::spec_accrue_interest;
use crate::risk::{spec_init_health_check, BankOracleInput};
use crate::wrapper::{
    spec_decrease_balance, spec_increase_balance, spec_repay_all, spec_withdraw_all,
    BalanceDecreaseType, BalanceIncreaseType, BankAccountWrapper,
};

verus! {

/// The fresh slot an operation creates when the account has no balance in
/// the target bank yet.
pub open spec fn spec_new_balance(bank_pk: u64, asset_tag: u8, now: u64) -> Balance {
    Balance {
        active: 1,
        bank_pk,
        bank_asset_tag: asset_tag,
        asset_shares: I80F48 { bits: 0 },
        liability_shares: I80F48 { bits: 0 },
        emissions_outstanding: I80F48 { bits: 0 },
        last_update: now,
    }
}

/// The slot an operation works on: the existing one bound to the bank, or
/// a fresh one in the first free slot; an error when all slots are busy.
pub open spec fn spec_locate_or_new(
    balances: Seq<Balance>,
    bank_pk: u64,
    asset_tag: u8,
    now: u64,
) -> Result<(int, Balance), SurroundfiError> {
    match spec_balance_index(balances, bank_pk) {
        Some(i) => Ok((i, balances[i])),
        None => match spec_first_empty(balances) {
            Some(i) => Ok((i, spec_new_balance(bank_pk, asset_tag, now))),
            None => Err(SurroundfiError::LendingAccountBalanceSlotsFull),
        },
    }
}

/// Which tags the active balances of a ledger carry, over the first `i`
/// slots: (any default-tagged, any staked-tagged); an unknown tag is a
/// mismatch error.
pub open spec fn spec_scan_tags(balances: Seq<Balance>, i: int) -> Result<
    (bool, bool),
    SurroundfiError,
>
    decreases i,
{
    if i <= 0 {
        Ok((false, false))
    } else {
        match spec_scan_tags(balances, i - 1) {
            Err(e) => Err(e),
            Ok((d, s)) => {
                let b = balances[i - 1];
                if b.active == 0 {
                    Ok((d, s))
                } else if b.bank_asset_tag == ASSET_TAG_DEFAULT {
                    Ok((true, s))
                } else if b.bank_asset_tag == ASSET_TAG_SOL {
                    Ok((d, s))
                } else if b.bank_asset_tag == ASSET_TAG_STAKED {
                    Ok((d, true))
                } else {
                    Err(SurroundfiError::AssetTagMismatch)
                }
            },
        }
    }
}

/// The asset-tag compatibility rule: a default-tagged bank cannot serve an
/// account holding staked-tag balances, and a staked-tag bank cannot serve
/// an account holding default-tag balances; the native tag mixes with
/// both.
pub open spec fn spec_validate_asset_tags(bank_tag: u8, balances: Seq<Balance>) -> Result<
    (),
    SurroundfiError,
> {
    match spec_scan_tags(balances, balances.len() as int) {
        Err(e) => Err(e),
        Ok((has_default, has_staked)) => if bank_tag == ASSET_TAG_DEFAULT && has_staked {
            Err(SurroundfiError::AssetTagMismatch)
        } else if bank_tag == ASSET_TAG_STAKED && has_default {
            Err(SurroundfiError::AssetTagMismatch)
        } else {
            Ok(())
        },
    }
}

/// A failed tag scan stays failed as the scan grows.
proof fn lemma_scan_tags_err_propagates(balances: Seq<Balance>, k: int, n: int)
    requires
        0 <= k <= n,
        spec_scan_tags(balances, k) is Err,
    ensures
        spec_scan_tags(balances, n) == spec_scan_tags(balances, k),
    decreases n - k,
{
    if k < n {
        lemma_scan_tags_err_propagates(balances, k, n - 1);
    }
}

/// Enforce the asset-tag compatibility rule between a bank and all active
/// balances of an account.
pub fn validate_asset_tags(bank: &Bank, account: &SurroundfiAccount) -> (r: Result<
    (),
    SurroundfiError,
>)
    ensures
        r == spec_validate_asset_tags(
            bank.config.asset_tag,
            account.lending_account.balances@,
        ),
{
    let n = account.lending_account.balances.len();
    let mut has_default = false;
    let mut has_staked = false;
    let mut i: usize = 0;
    while i < n
        invariant
            n == account.lending_account.balances@.len(),
            i <= n,
            spec_scan_tags(account.lending_account.balances@, i as int) == Ok::<
                _,
                SurroundfiError,
            >((has_default, has_staked)),
        decreases n - i,
    {
        let b = &account.lending_account.balances[i];
        if b.is_active() {
            if b.bank_asset_tag == ASSET_TAG_DEFAULT {
                has_default = true;
            } else if b.bank_asset_tag == ASSET_TAG_SOL {
            } else if b.bank_asset_tag == ASSET_TAG_STAKED {
                has_staked = true;
            } else {
                proof {
                    lemma_scan_tags_err_propagates(
                        account.lending_account.balances@,
                        i + 1,
                        n as int,
                    );
                }
                return Err(SurroundfiError::AssetTagMismatch);
            }
        }
        i = i + 1;
    }
    if bank.config.asset_tag == ASSET_TAG_DEFAULT && has_staked {
        return Err(SurroundfiError::AssetTagMismatch);
    }
    if bank.config.asset_tag == ASSET_TAG_STAKED && has_default {
        return Err(SurroundfiError::AssetTagMismatch);
    }
    Ok(())
}

/// The existing slot for the bank, or a fresh one in the first free slot;
/// nothing is written yet.
pub(crate) fn locate_or_new(
    lending_account: &LendingAccount,
    bank_pk: u64,
    asset_tag: u8,
    current_timestamp: u64,
) -> (r: Result<(usize, Balance), SurroundfiError>)
    ensures
        match spec_locate_or_new(
            lending_account.balances@,
            bank_pk,
            asset_tag,
            current_timestamp,
        ) {
            Ok((i, b)) => r matches Ok((ri, rb)) && ri as int == i && rb == b && i
                < lending_account.balances@.len(),
            Err(e) => r == Err::<(usize, Balance), SurroundfiError>(e),
        },
{
    match lending_account.get_balance(bank_pk) {
        Some(i) => Ok((i, lending_account.balances[i])),
        None => match lending_account.get_first_empty_balance() {
            Some(i) => Ok(
                (
                    i,
                    Balance {
                        active: 1,
                        bank_pk,
                        bank_asset_tag: asset_tag,
                        asset_shares: I80F48::zero(),
                        liability_shares: I80F48::zero(),
                        emissions_outstanding: I80F48::zero(),
                        last_update: current_timestamp,
                    },
                ),
            ),
            None => Err(SurroundfiError::LendingAccountBalanceSlotsFull),
        },
    }
}

/// A copy of a ledger with one slot replaced.
pub(crate) fn ledger_with(lending_account: &LendingAccount, idx: usize, b: Balance) -> (r: LendingAccount)
    requires
        idx < lending_account.balances@.len(),
    ensures
        r.balances@ == lending_account.balances@.update(idx as int, b),
{
    let n = lending_account.balances.len();
    let mut balances: Vec<Balance> = Vec::new();
    let mut i: usize = 0;
    while i < n
        invariant
            n == lending_account.balances@.len(),
            idx < n,
            i <= n,
            balances@ == lending_account.balances@.update(idx as int, b).take(i as int),
        decreases n - i,
    {
        proof {
            assert(lending_account.balances@.update(idx as int, b).take(i + 1).drop_last()
                =~= lending_account.balances@.update(idx as int, b).take(i as int));
        }
        if i == idx {
            balances.push(b);
        } else {
            balances.push(lending_account.balances[i]);
        }
        i = i + 1;
    }
    proof {
        assert(lending_account.balances@.update(idx as int, b).take(n as int)
            =~= lending_account.balances@.update(idx as int, b));
    }
    LendingAccount { balances }
}

/// The host-supplied inputs with every entry for the given bank replaced
/// by the freshly mutated bank state.
pub open spec fn spec_refresh_inputs(
    inputs: Seq<BankOracleInput>,
    bank_key: u64,
    bank: Bank,
) -> Seq<BankOracleInput> {
    inputs.map(
        |j: int, inp: BankOracleInput|
            if inp.bank_key == bank_key {
                BankOracleInput { bank, ..inp }
            } else {
                inp
            },
    )
}

/// Replace the bank state inside every input bound to the given bank, so
/// a risk check after a mutation sees the bank as it now is.
pub(crate) fn refresh_inputs(inputs: &Vec<BankOracleInput>, bank_key: u64, bank: Bank) -> (r: Vec<
    BankOracleInput,
>)
    ensures
        r@ == spec_refresh_inputs(inputs@, bank_key, bank),
{
    let n = inputs.len();
    let mut result: Vec<BankOracleInput> = Vec::new();
    let mut i: usize = 0;
    while i < n
        invariant
            n == inputs@.len(),
            i <= n,
            result@ == spec_refresh_inputs(inputs@, bank_key, bank).take(i as int),
        decreases n - i,
    {
        proof {
            assert(spec_refresh_inputs(inputs@, bank_key, bank).take(i + 1).drop_last()
                =~= spec_refresh_inputs(inputs@, bank_key, bank).take(i as int));
        }
        let inp = &inputs[i];
        if inp.bank_key == bank_key {
            result.push(BankOracleInput { bank_key: inp.bank_key, bank, feed: inp.feed });
        } else {
            result.push(*inp);
        }
        i = i + 1;
    }
    proof {
        assert(spec_refresh_inputs(inputs@, bank_key, bank).take(n as int) =~= spec_refresh_inputs(
            inputs@,
            bank_key,
            bank,
        ));
    }
    result
}

/// Everything of an account except its ledger and health cache.
pub open spec fn account_meta_unchanged(a: SurroundfiAccount, b: SurroundfiAccount) -> bool {
    &&& a.group == b.group
    &&& a.authority == b.authority
    &&& a.account_flags == b.account_flags
    &&& a.emissions_destination_account == b.emissions_destination_account
}

/// Outcome of a deposit: the account must be enabled; the bank accrues
/// interest; the tags must be compatible; the amount lands on the
/// account's slot for this bank by the repay-then-deposit rule.
pub open spec fn spec_deposit(
    group: crate::group::SurroundfiGroup,
    bank: Bank,
    balances: Seq<Balance>,
    account_flags: u64,
    bank_key: u64,
    amount: u64,
    now: i64,
) -> Result<(Bank, Seq<Balance>), SurroundfiError> {
    if account_flags & ACCOUNT_DISABLED != 0 {
        Err(SurroundfiError::AccountDisabled)
    } else {
        match spec_accrue_interest(bank, now, group) {
            Err(e) => Err(e),
            Ok(bank1) => match spec_validate_asset_tags(bank1.config.asset_tag, balances) {
                Err(e) => Err(e),
                Ok(()) => match spec_locate_or_new(
                    balances,
                    bank_key,
                    bank1.config.asset_tag,
                    now as u64,
                ) {
                    Err(e) => Err(e),
                    Ok((i, bal0)) => match spec_increase_balance(
                        bal0,
                        bank1,
                        I80F48 { bits: (amount * FRAC_SCALE) as i128 },
                        BalanceIncreaseType::Any,
                        now as u64,
                    ) {
                        Err(e) => Err(e),
                        Ok((bal1, bank2)) => Ok((bank2, balances.update(i, bal1))),
                    },
                },
            },
        }
    }
}

/// Deposit `amount` native units into the account's position in this
/// bank, repaying any outstanding debt there first. Commits fully or not
/// at all.
pub fn lending_account_deposit(
    group: &crate::group::SurroundfiGroup,
    bank: &mut Bank,
    bank_key: u64,
    account: &mut SurroundfiAccount,
    amount: u64,
    current_timestamp: i64,
) -> (r: Result<(), SurroundfiError>)
    requires
        old(account).wf(),
        old(bank).mint_decimals < MAX_MINT_DECIMALS,
        current_timestamp >= 0,
    ensures
        match spec_deposit(
            *group,
            *old(bank),
            old(account).lending_account.balances@,
            old(account).account_flags,
            bank_key,
            amount,
            current_timestamp,
        ) {
            Ok((bank2, newbals)) => r == Ok::<(), SurroundfiError>(()) && *final(bank) == bank2
                && final(account).lending_account.balances@ == newbals,
            Err(e) => r == Err::<(), SurroundfiError>(e) && *final(bank) == *old(bank) && final(account).lending_account.balances@ == old(account).lending_account.balances@,
        },
        account_meta_unchanged(*old(account), *final(account)),
        final(account).health_cache == old(account).health_cache,
{
    if account.get_flag(ACCOUNT_DISABLED) {
        return Err(SurroundfiError::AccountDisabled);
    }
    let mut staged_bank = *bank;
    match staged_bank.accrue_interest(current_timestamp, group) {
        Ok(()) => {},
        Err(e) => {
            return Err(e);
        },
    }
    match validate_asset_tags(&staged_bank, account) {
        Ok(()) => {},
        Err(e) => {
            return Err(e);
        },
    }
    let (idx, bal0) = match locate_or_new(
        &account.lending_account,
        bank_key,
        staged_bank.config.asset_tag,
        current_timestamp as u64,
    ) {
        Ok(v) => v,
        Err(e) => {
            return Err(e);
        },
    };
    let mut wrapper = BankAccountWrapper { balance: bal0, bank: staged_bank };
    match wrapper.deposit(I80F48::from_num(amount), current_timestamp as u64) {
        Ok(()) => {},
        Err(e) => {
            return Err(e);
        },
    }
    account.lending_account.balances.set(idx, wrapper.balance);
    *bank = wrapper.bank;
    Ok(())
}

/// Outcome of a repayment: the account must be enabled and hold a
/// position here; the bank accrues; either the whole debt is settled
/// (rounding up, surplus to insurance) or the amount is applied
/// repay-only. Yields the native units the host must collect.
pub open spec fn spec_repay(
    group: crate::group::SurroundfiGroup,
    bank: Bank,
    balances: Seq<Balance>,
    account_flags: u64,
    bank_key: u64,
    amount: u64,
    repay_all: bool,
    now: i64,
) -> Result<(Bank, Seq<Balance>, u64), SurroundfiError> {
    if account_flags & ACCOUNT_DISABLED != 0 {
        Err(SurroundfiError::AccountDisabled)
    } else {
        match spec_accrue_interest(bank, now, group) {
            Err(e) => Err(e),
            Ok(bank1) => match spec_balance_index(balances, bank_key) {
                None => Err(SurroundfiError::BankAccountNotFound),
                Some(i) => {
                    let bal0 = balances[i];
                    if repay_all {
                        match spec_repay_all(bal0, bank1, now as u64) {
                            Err(e) => Err(e),
                            Ok((bal1, bank2, amt)) => Ok((bank2, balances.update(i, bal1), amt)),
                        }
                    } else {
                        match spec_increase_balance(
                            bal0,
                            bank1,
                            I80F48 { bits: (amount * FRAC_SCALE) as i128 },
                            BalanceIncreaseType::RepayOnly,
                            now as u64,
                        ) {
                            Err(e) => Err(e),
                            Ok((bal1, bank2)) => Ok((bank2, balances.update(i, bal1), amount)),
                        }
                    }
                },
            },
        }
    }
}

/// Repay up to the outstanding debt in this bank, or the whole debt when
/// `repay_all` is set. Yields the native units the host must collect.
pub fn lending_account_repay(
    group: &crate::group::SurroundfiGroup,
    bank: &mut Bank,
    bank_key: u64,
    account: &mut SurroundfiAccount,
    amount: u64,
    repay_all: Option<bool>,
    current_timestamp: i64,
) -> (r: Result<u64, SurroundfiError>)
    requires
        old(account).wf(),
        old(bank).mint_decimals < MAX_MINT_DECIMALS,
        current_timestamp >= 0,
    ensures
        match spec_repay(
            *group,
            *old(bank),
            old(account).lending_account.balances@,
            old(account).account_flags,
            bank_key,
            amount,
            repay_all == Some(true),
            current_timestamp,
        ) {
            Ok((bank2, newbals, amt)) => r == Ok::<u64, SurroundfiError>(amt) && *final(bank)
                == bank2 && final(account).lending_account.balances@ == newbals,
            Err(e) => r == Err::<u64, SurroundfiError>(e) && *final(bank) == *old(bank) && final(account).lending_account.balances@ == old(account).lending_account.balances@,
        },
        account_meta_unchanged(*old(account), *final(account)),
        final(account).health_cache == old(account).health_cache,
{
    if account.get_flag(ACCOUNT_DISABLED) {
        return Err(SurroundfiError::AccountDisabled);
    }
    let mut staged_bank = *bank;
    match staged_bank.accrue_interest(current_timestamp, group) {
        Ok(()) => {},
        Err(e) => {
            return Err(e);
        },
    }
    let idx = match account.lending_account.get_balance(bank_key) {
        Some(i) => i,
        None => {
            return Err(SurroundfiError::BankAccountNotFound);
        },
    };
    let bal0 = account.lending_account.balances[idx];
    let mut wrapper = BankAccountWrapper { balance: bal0, bank: staged_bank };
    let repaid: u64;
    if repay_all == Some(true) {
        repaid = match wrapper.repay_all(current_timestamp as u64) {
            Ok(v) => v,
            Err(e) => {
                return Err(e);
            },
        };
    } else {
        match wrapper.repay(I80F48::from_num(amount), current_timestamp as u64) {
            Ok(()) => {},
            Err(e) => {
                return Err(e);
            },
        }
        repaid = amount;
    }
    account.lending_account.balances.set(idx, wrapper.balance);
    *bank = wrapper.bank;
    Ok(repaid)
}

/// The health cache an operation stores: totals, prices, and verdict
/// from the health check (healthy on these paths, because it passed
/// before anything committed), or a bare engine-ok stamp when the
/// flashloan suspension skipped it; always timestamped.
pub open spec fn spec_stored_cache(
    outcome: Option<(int, int, Seq<I80F48>, bool)>,
    cache: HealthCache,
    now: i64,
) -> bool {
    match outcome {
        None => {
            &&& cache.asset_value.bits == 0
            &&& cache.liability_value.bits == 0
            &&& cache.prices@.len() == crate::constants::MAX_LENDING_ACCOUNT_BALANCES
            &&& (forall|i: int| 0 <= i < cache.prices@.len() ==> (#[trigger] cache.prices@[i]).bits == 0)
            &&& cache.flags == ENGINE_OK_FLAG
            &&& cache.timestamp == now
        },
        Some((ta, tl, ps, healthy)) => {
            &&& cache.asset_value.bits == ta
            &&& cache.liability_value.bits == tl
            &&& cache.prices@ == ps
            &&& cache.flags == if healthy {
                HEALTHY_FLAG | ENGINE_OK_FLAG
            } else {
                ENGINE_OK_FLAG
            }
            &&& cache.timestamp == now
        },
    }
}

/// Outcome of a withdrawal: the account must be enabled and hold a
/// position here; the bank accrues; either the whole position leaves
/// (rounding down, remainder to insurance) or the amount is applied
/// withdraw-only; then the initial health gate must pass on the post
/// state. Yields the native units to pay out and the health outcome.
pub open spec fn spec_withdraw(
    group: crate::group::SurroundfiGroup,
    bank: Bank,
    balances: Seq<Balance>,
    account_flags: u64,
    bank_key: u64,
    amount: u64,
    withdraw_all: bool,
    inputs: Seq<BankOracleInput>,
    now: i64,
) -> Result<(Bank, Seq<Balance>, u64, Option<(int, int, Seq<I80F48>, bool)>), SurroundfiError> {
    if account_flags & ACCOUNT_DISABLED != 0 {
        Err(SurroundfiError::AccountDisabled)
    } else {
        match spec_accrue_interest(bank, now, group) {
            Err(e) => Err(e),
            Ok(bank1) => match spec_balance_index(balances, bank_key) {
                None => Err(SurroundfiError::BankAccountNotFound),
                Some(i) => {
                    let bal0 = balances[i];
                    let op_result: Result<(Balance, Bank, u64), SurroundfiError> = if withdraw_all {
                        spec_withdraw_all(bal0, bank1, now as u64)
                    } else {
                        match spec_decrease_balance(
                            bal0,
                            bank1,
                            I80F48 { bits: (amount * FRAC_SCALE) as i128 },
                            BalanceDecreaseType::WithdrawOnly,
                            now as u64,
                        ) {
                            Err(e) => Err(e),
                            Ok((bal1, bank2)) => Ok((bal1, bank2, amount)),
                        }
                    };
                    match op_result {
                        Err(e) => Err(e),
                        Ok((bal1, bank2, amount_out)) => {
                            let newbals = balances.update(i, bal1);
                            let (hc, res) = spec_init_health_check(
                                account_flags,
                                newbals,
                                spec_refresh_inputs(inputs, bank_key, bank2),
                                now,
                            );
                            match res {
                                Err(e) => Err(e),
                                Ok(()) => Ok((bank2, newbals, amount_out, hc)),
                            }
                        },
                    }
                },
            },
        }
    }
}

/// Withdraw `amount` native units from the account's position in this
/// bank, or the whole position when `withdraw_all` is set, then prove the
/// account still healthy. Yields the native units the host must pay out.
#[verifier::rlimit(100)]
pub fn lending_account_withdraw(
    group: &crate::group::SurroundfiGroup,
    bank: &mut Bank,
    bank_key: u64,
    account: &mut SurroundfiAccount,
    amount: u64,
    withdraw_all: Option<bool>,
    inputs: &Vec<BankOracleInput>,
    current_timestamp: i64,
) -> (r: Result<u64, SurroundfiError>)
    requires
        old(account).wf(),
        old(bank).mint_decimals < MAX_MINT_DECIMALS,
        current_timestamp >= 0,
        forall|j: int|
            0 <= j < inputs@.len() ==> (#[trigger] inputs@[j]).bank.mint_decimals
                < MAX_MINT_DECIMALS,
    ensures
        match spec_withdraw(
            *group,
            *old(bank),
            old(account).lending_account.balances@,
            old(account).account_flags,
            bank_key,
            amount,
            withdraw_all == Some(true),
            inputs@,
            current_timestamp,
        ) {
            Ok((bank2, newbals, amount_out, hc)) => r == Ok::<u64, SurroundfiError>(amount_out)
                && *final(bank) == bank2 && final(account).lending_account.balances@ == newbals
                && spec_stored_cache(hc, final(account).health_cache, current_timestamp),
            Err(e) => r == Err::<u64, SurroundfiError>(e) && *final(bank) == *old(bank) && final(account).lending_account.balances@ == old(account).lending_account.balances@ && final(account).health_cache == old(account).health_cache,
        },
        account_meta_unchanged(*old(account), *final(account)),
{
    if account.get_flag(ACCOUNT_DISABLED) {
        return Err(SurroundfiError::AccountDisabled);
    }
    let mut staged_bank = *bank;
    match staged_bank.accrue_interest(current_timestamp, group) {
        Ok(()) => {},
        Err(e) => {
            return Err(e);
        },
    }
    let idx = match account.lending_account.get_balance(bank_key) {
        Some(i) => i,
        None => {
            return Err(SurroundfiError::BankAccountNotFound);
        },
    };
    let bal0 = account.lending_account.balances[idx];
    let mut wrapper = BankAccountWrapper { balance: bal0, bank: staged_bank };
    let amount_out: u64;
    if withdraw_all == Some(true) {
        amount_out = match wrapper.withdraw_all(current_timestamp as u64) {
            Ok(v) => v,
            Err(e) => {
                return Err(e);
            },
        };
    } else {
        match wrapper.withdraw(I80F48::from_num(amount), current_timestamp as u64) {
            Ok(()) => {},
            Err(e) => {
                return Err(e);
            },
        }
        amount_out = amount;
    }
    let new_ledger = ledger_with(&account.lending_account, idx, wrapper.balance);
    let refreshed = refresh_inputs(inputs, bank_key, wrapper.bank);
    let (health, gate) = crate::risk::check_init_health_core(
        account.account_flags,
        &new_ledger,
        &refreshed,
        current_timestamp,
    );
    match gate {
        Ok(()) => {},
        Err(e) => {
            return Err(e);
        },
    }
    let mut cache = match health {
        Some(c) => c,
        None => HealthCache::zeroed(),
    };
    cache.set_engine_ok(true);
    cache.timestamp = current_timestamp;
    proof {
        assert(0u64 | ENGINE_OK_FLAG == ENGINE_OK_FLAG) by (bit_vector);
        assert(HEALTHY_FLAG | ENGINE_OK_FLAG == (HEALTHY_FLAG | ENGINE_OK_FLAG)) by (bit_vector);
    }
    account.lending_account = new_ledger;
    account.health_cache = cache;
    *bank = wrapper.bank;
    Ok(amount_out)
}

/// The middle stage of a borrow on a settled (balance, bank) pair: the
/// origination fee is computed on the amount, the amount plus fee is
/// applied by the withdraw-then-borrow rule, and the fee is split between
/// the group and program accumulators (saturating, as fee bookkeeping
/// must not abort a sound borrow). Yields the fee in whole native units.
pub open spec fn spec_borrow_apply(
    bal0: Balance,
    bank1: Bank,
    amount: u64,
    program_fee_rate: I80F48,
    now: u64,
) -> Result<(Balance, Bank, u64), SurroundfiError> {
    let fee_rate = bank1.config.interest_rate_config.protocol_origination_fee;
    let fee_result: Result<(int, int), SurroundfiError> = if fee_rate.bits != 0 {
        match s_mul(amount * FRAC_SCALE, fee_rate.bits as int) {
            None => Err(SurroundfiError::MathError),
            Some(fee) => {
                let fee_units = to_int_floor(fee);
                if !(0 <= fee_units <= u64::MAX) {
                    Err(SurroundfiError::MathError)
                } else {
                    Ok((fee, fee_units))
                }
            },
        }
    } else {
        Ok((0, 0))
    };
    match fee_result {
        Err(e) => Err(e),
        Ok((origination_fee, fee_units)) => match s_add(amount * FRAC_SCALE, origination_fee) {
            None => Err(SurroundfiError::MathError),
            Some(delta) => match spec_decrease_balance(
                bal0,
                bank1,
                I80F48 { bits: delta as i128 },
                BalanceDecreaseType::Any,
                now,
            ) {
                Err(e) => Err(e),
                Ok((bal1, bank2)) => {
                    let bank3 = if origination_fee != 0 {
                        if program_fee_rate.bits != 0 {
                            match s_mul(origination_fee, program_fee_rate.bits as int) {
                                None => Err(SurroundfiError::MathError),
                                Some(program_fee) => Ok(
                                    Bank {
                                        collected_group_fees_outstanding: I80F48 {
                                            bits: sat_bits(
                                                bank2.collected_group_fees_outstanding.bits
                                                    + sat_bits(origination_fee - program_fee),
                                            ) as i128,
                                        },
                                        collected_program_fees_outstanding: I80F48 {
                                            bits: sat_bits(
                                                bank2.collected_program_fees_outstanding.bits
                                                    + program_fee,
                                            ) as i128,
                                        },
                                        ..bank2
                                    },
                                ),
                            }
                        } else {
                            Ok(
                                Bank {
                                    collected_group_fees_outstanding: I80F48 {
                                        bits: sat_bits(
                                            bank2.collected_group_fees_outstanding.bits
                                                + origination_fee,
                                        ) as i128,
                                    },
                                    ..bank2
                                },
                            )
                        }
                    } else {
                        Ok(bank2)
                    };
                    match bank3 {
                        Err(e) => Err(e),
                        Ok(b3) => Ok((bal1, b3, fee_units as u64)),
                    }
                },
            },
        },
    }
}

/// The middle stage of a borrow: compute and apply the origination fee
/// and the balance decrease, splitting the fee between the group and
/// program accumulators.
fn borrow_apply(
    bal0: Balance,
    bank1: Bank,
    amount: u64,
    program_fee_rate: I80F48,
    now: u64,
) -> (r: Result<(Balance, Bank, u64), SurroundfiError>)
    requires
        bank1.mint_decimals < MAX_MINT_DECIMALS,
    ensures
        r == spec_borrow_apply(bal0, bank1, amount, program_fee_rate, now),
{
    let fee_rate = bank1.config.interest_rate_config.protocol_origination_fee;
    let amount_fx = I80F48::from_num(amount);
    let origination_fee: I80F48;
    let fee_units: u64;
    if !fee_rate.is_zero() {
        origination_fee = match amount_fx.checked_mul(fee_rate) {
            Some(v) => v,
            None => {
                return Err(SurroundfiError::MathError);
            },
        };
        fee_units = match origination_fee.checked_to_num_u64() {
            Some(v) => v,
            None => {
                return Err(SurroundfiError::MathError);
            },
        };
    } else {
        origination_fee = I80F48::zero();
        fee_units = 0;
    }
    let delta = match amount_fx.checked_add(origination_fee) {
        Some(v) => v,
        None => {
            return Err(SurroundfiError::MathError);
        },
    };
    let mut wrapper = BankAccountWrapper { balance: bal0, bank: bank1 };
    match wrapper.decrease_balance_internal(delta, BalanceDecreaseType::Any, now) {
        Ok(()) => {},
        Err(e) => {
            return Err(e);
        },
    }
    if !origination_fee.is_zero() {
        if !program_fee_rate.is_zero() {
            let program_fee = match origination_fee.checked_mul(program_fee_rate) {
                Some(v) => v,
                None => {
                    return Err(SurroundfiError::MathError);
                },
            };
            wrapper.bank.collected_group_fees_outstanding =
                wrapper.bank.collected_group_fees_outstanding.saturating_add(
                origination_fee.saturating_sub(program_fee),
            );
            wrapper.bank.collected_program_fees_outstanding =
                wrapper.bank.collected_program_fees_outstanding.saturating_add(program_fee);
        } else {
            wrapper.bank.collected_group_fees_outstanding =
                wrapper.bank.collected_group_fees_outstanding.saturating_add(origination_fee);
        }
    }
    Ok((wrapper.balance, wrapper.bank, fee_units))
}

/// Outcome of a borrow: the account must be enabled, the tags
/// compatible; the bank accrues; the borrowed amount plus any origination
/// fee is applied by the withdraw-then-borrow rule and the fee is split
/// into the fee accumulators; the initial health gate must pass on the
/// post state. Yields the total incurred debt in native units and the
/// health outcome.
pub open spec fn spec_borrow(
    group: crate::group::SurroundfiGroup,
    bank: Bank,
    balances: Seq<Balance>,
    account_flags: u64,
    bank_key: u64,
    amount: u64,
    inputs: Seq<BankOracleInput>,
    now: i64,
) -> Result<(Bank, Seq<Balance>, u64, Option<(int, int, Seq<I80F48>, bool)>), SurroundfiError> {
    if account_flags & ACCOUNT_DISABLED != 0 {
        Err(SurroundfiError::AccountDisabled)
    } else {
        match spec_accrue_interest(bank, now, group) {
            Err(e) => Err(e),
            Ok(bank1) => match spec_validate_asset_tags(bank1.config.asset_tag, balances) {
                Err(e) => Err(e),
                Ok(()) => match spec_locate_or_new(
                    balances,
                    bank_key,
                    bank1.config.asset_tag,
                    now as u64,
                ) {
                    Err(e) => Err(e),
                    Ok((i, bal0)) => match spec_borrow_apply(
                        bal0,
                        bank1,
                        amount,
                        group.fee_state_cache.program_fee_rate,
                        now as u64,
                    ) {
                        Err(e) => Err(e),
                        Ok((bal1, bank3, fee_units)) => {
                            if amount + fee_units > u64::MAX {
                                Err(SurroundfiError::MathError)
                            } else {
                                let newbals = balances.update(i, bal1);
                                let (hc, res) = spec_init_health_check(
                                    account_flags,
                                    newbals,
                                    spec_refresh_inputs(inputs, bank_key, bank3),
                                    now,
                                );
                                match res {
                                    Err(e) => Err(e),
                                    Ok(()) => Ok(
                                        (bank3, newbals, (amount + fee_units) as u64, hc),
                                    ),
                                }
                            }
                        },
                    },
                },
            },
        }
    }
}

/// Borrow `amount` native units against the account's collateral,
/// incurring the configured origination fee on top, then prove the
/// account still healthy. Yields the total debt incurred in native units.
pub fn lending_account_borrow(
    group: &crate::group::SurroundfiGroup,
    bank: &mut Bank,
    bank_key: u64,
    account: &mut SurroundfiAccount,
    amount: u64,
    inputs: &Vec<BankOracleInput>,
    current_timestamp: i64,
) -> (r: Result<u64, SurroundfiError>)
    requires
        old(account).wf(),
        old(bank).mint_decimals < MAX_MINT_DECIMALS,
        current_timestamp >= 0,
        forall|j: int|
            0 <= j < inputs@.len() ==> (#[trigger] inputs@[j]).bank.mint_decimals
                < MAX_MINT_DECIMALS,
    ensures
        match spec_borrow(
            *group,
            *old(bank),
            old(account).lending_account.balances@,
            old(account).account_flags,
            bank_key,
            amount,
            inputs@,
            current_timestamp,
        ) {
            Ok((bank3, newbals, total, hc)) => r == Ok::<u64, SurroundfiError>(total) && *final(bank) == bank3 && final(account).lending_account.balances@ == newbals
                && spec_stored_cache(hc, final(account).health_cache, current_timestamp),
            Err(e) => r == Err::<u64, SurroundfiError>(e) && *final(bank) == *old(bank)
                && final(account).lending_account.balances@ == old(account).lending_account.balances@ && final(account).health_cache == old(account).health_cache,
        },
        account_meta_unchanged(*old(account), *final(account)),
{
    if account.get_flag(ACCOUNT_DISABLED) {
        return Err(SurroundfiError::AccountDisabled);
    }
    let mut staged_bank = *bank;
    match staged_bank.accrue_interest(current_timestamp, group) {
        Ok(()) => {},
        Err(e) => {
            return Err(e);
        },
    }
    match validate_asset_tags(&staged_bank, account) {
        Ok(()) => {},
        Err(e) => {
            return Err(e);
        },
    }
    let (idx, bal0) = match locate_or_new(
        &account.lending_account,
        bank_key,
        staged_bank.config.asset_tag,
        current_timestamp as u64,
    ) {
        Ok(v) => v,
        Err(e) => {
            return Err(e);
        },
    };
    let (bal1, bank3, fee_units) = match borrow_apply(
        bal0,
        staged_bank,
        amount,
        group.fee_state_cache.program_fee_rate,
        current_timestamp as u64,
    ) {
        Ok(v) => v,
        Err(e) => {
            return Err(e);
        },
    };
    let total: u64 = if amount <= u64::MAX - fee_units {
        amount + fee_units
    } else {
        return Err(SurroundfiError::MathError);
    };
    let new_ledger = ledger_with(&account.lending_account, idx, bal1);
    let refreshed = refresh_inputs(inputs, bank_key, bank3);
    let (health, gate) = crate::risk::check_init_health_core(
        account.account_flags,
        &new_ledger,
        &refreshed,
        current_timestamp,
    );
    match gate {
        Ok(()) => {},
        Err(e) => {
            return Err(e);
        },
    }
    let mut cache = match health {
        Some(c) => c,
        None => HealthCache::zeroed(),
    };
    cache.set_engine_ok(true);
    cache.timestamp = current_timestamp;
    proof {
        assert(0u64 | ENGINE_OK_FLAG == ENGINE_OK_FLAG) by (bit_vector);
    }
    account.lending_account = new_ledger;
    account.health_cache = cache;
    *bank = bank3;
    Ok(total)
}

/// Outcome of closing a balance slot: the account must be enabled and
/// hold a position here; the bank accrues; both sides must be negligible
/// and no whole emissions unit unclaimed; the slot is freed.
pub open spec fn spec_close_balance_op(
    group: crate::group::SurroundfiGroup,
    bank: Bank,
    balances: Seq<Balance>,
    account_flags: u64,
    bank_key: u64,
    now: i64,
) -> Result<(Bank, Seq<Balance>), SurroundfiError> {
    if account_flags & ACCOUNT_DISABLED != 0 {
        Err(SurroundfiError::AccountDisabled)
    } else {
        match spec_accrue_interest(bank, now, group) {
            Err(e) => Err(e),
            Ok(bank1) => match spec_balance_index(balances, bank_key) {
                None => Err(SurroundfiError::BankAccountNotFound),
                Some(i) => match crate::wrapper::spec_close_balance(
                    balances[i],
                    bank1,
                    now as u64,
                ) {
                    Err(e) => Err(e),
                    Ok((bal1, bank2)) => Ok((bank2, balances.update(i, bal1))),
                },
            },
        }
    }
}

/// Close the account's logically empty position in this bank.
pub fn lending_account_close_balance(
    group: &crate::group::SurroundfiGroup,
    bank: &mut Bank,
    bank_key: u64,
    account: &mut SurroundfiAccount,
    current_timestamp: i64,
) -> (r: Result<(), SurroundfiError>)
    requires
        old(bank).mint_decimals < MAX_MINT_DECIMALS,
        current_timestamp >= 0,
    ensures
        match spec_close_balance_op(
            *group,
            *old(bank),
            old(account).lending_account.balances@,
            old(account).account_flags,
            bank_key,
            current_timestamp,
        ) {
            Ok((bank2, newbals)) => r == Ok::<(), SurroundfiError>(()) && *final(bank) == bank2
                && final(account).lending_account.balances@ == newbals,
            Err(e) => r == Err::<(), SurroundfiError>(e) && *final(bank) == *old(bank)
                && final(account).lending_account.balances@ == old(account).lending_account.balances@,
        },
        account_meta_unchanged(*old(account), *final(account)),
        final(account).health_cache == old(account).health_cache,
{
    if account.get_flag(ACCOUNT_DISABLED) {
        return Err(SurroundfiError::AccountDisabled);
    }
    let mut staged_bank = *bank;
    match staged_bank.accrue_interest(current_timestamp, group) {
        Ok(()) => {},
        Err(e) => {
            return Err(e);
        },
    }
    let idx = match account.lending_account.get_balance(bank_key) {
        Some(i) => i,
        None => {
            return Err(SurroundfiError::BankAccountNotFound);
        },
    };
    let mut wrapper = BankAccountWrapper {
        balance: account.lending_account.balances[idx],
        bank: staged_bank,
    };
    match wrapper.close_balance(current_timestamp as u64) {
        Ok(()) => {},
        Err(e) => {
            return Err(e);
        },
    }
    account.lending_account.balances.set(idx, wrapper.balance);
    *bank = wrapper.bank;
    Ok(())
}

/// Accrue interest on one bank, on anyone's request.
pub fn lending_pool_accrue_bank_interest(
    group: &crate::group::SurroundfiGroup,
    bank: &mut Bank,
    current_timestamp: i64,
) -> (r: Result<(), SurroundfiError>)
    ensures
        match spec_accrue_interest(*old(bank), current_timestamp, *group) {
            Ok(b) => r == Ok::<(), SurroundfiError>(()) && *final(bank) == b,
            Err(e) => r == Err::<(), SurroundfiError>(e) && *final(bank) == *old(bank),
        },
{
    bank.accrue_interest(current_timestamp, group)
}

/// Refresh the account's health cache, on anyone's request. Whenever the
/// valuation finished the cache carries its totals, prices, and verdict —
/// a failing gate included, so off-chain liquidators can see the unhealthy
/// account they are looking for; the engine-ok bit records whether the
/// whole gate passed. The pulse itself never fails.
pub fn lending_account_pulse_health(
    account: &mut SurroundfiAccount,
    inputs: &Vec<BankOracleInput>,
    current_timestamp: i64,
) -> (r: Result<(), SurroundfiError>)
    requires
        forall|j: int|
            0 <= j < inputs@.len() ==> (#[trigger] inputs@[j]).bank.mint_decimals
                < MAX_MINT_DECIMALS,
    ensures
        r == Ok::<(), SurroundfiError>(()),
        final(account).lending_account.balances@ == old(account).lending_account.balances@,
        account_meta_unchanged(*old(account), *final(account)),
        ({
            let (hc, res) = spec_init_health_check(
                old(account).account_flags,
                old(account).lending_account.balances@,
                inputs@,
                current_timestamp,
            );
            let cache = final(account).health_cache;
            &&& cache.timestamp == current_timestamp
            &&& match hc {
                Some((ta, tl, ps, healthy)) => {
                    &&& cache.asset_value.bits == ta
                    &&& cache.liability_value.bits == tl
                    &&& cache.prices@ == ps
                    &&& cache.flags == ((if healthy {
                        HEALTHY_FLAG
                    } else {
                        0u64
                    }) | (if res is Ok {
                        ENGINE_OK_FLAG
                    } else {
                        0u64
                    }))
                },
                None => cache.flags == if res is Ok {
                    ENGINE_OK_FLAG
                } else {
                    0u64
                },
            }
        }),
{
    let (health, gate) = crate::risk::check_init_health_core(
        account.account_flags,
        &account.lending_account,
        inputs,
        current_timestamp,
    );
    let mut cache: HealthCache = match health {
        Some(c) => c,
        None => HealthCache::zeroed(),
    };
    cache.set_engine_ok(gate.is_ok());
    cache.timestamp = current_timestamp;
    proof {
        assert(0u64 | ENGINE_OK_FLAG == ENGINE_OK_FLAG) by (bit_vector);
        assert(HEALTHY_FLAG | ENGINE_OK_FLAG == (HEALTHY_FLAG | ENGINE_OK_FLAG)) by (bit_vector);
        assert(0u64 & !ENGINE_OK_FLAG == 0u64) by (bit_vector);
        assert(HEALTHY_FLAG & !ENGINE_OK_FLAG == HEALTHY_FLAG) by (bit_vector);
        assert(HEALTHY_FLAG | 0u64 == HEALTHY_FLAG) by (bit_vector);
        assert(0u64 | 0u64 == 0u64) by (bit_vector);
    }
    account.health_cache = cache;
    Ok(())
}

/// Outcome of settling a bankruptcy: the settlement must be authorized,
/// the account bankrupt; the bank accrues; the full liability of the
/// target balance is the bad debt, covered by the available insurance as
/// far as it goes, the rest socialized across lenders; the debt is repaid
/// in full and the account disabled. Yields the insurance amount to move,
/// rounded up.
pub open spec fn spec_handle_bankruptcy(
    group: crate::group::SurroundfiGroup,
    bank: Bank,
    balances: Seq<Balance>,
    account_flags: u64,
    bank_key: u64,
    signer: u64,
    available_insurance: u64,
    inputs: Seq<BankOracleInput>,
    now: i64,
) -> Result<(Bank, Seq<Balance>, u64), SurroundfiError> {
    if bank.flags & crate::constants::PERMISSIONLESS_BAD_DEBT_SETTLEMENT_FLAG == 0 && signer
        != group.admin {
        Err(SurroundfiError::Unauthorized)
    } else if account_flags & crate::constants::ACCOUNT_IN_FLASHLOAN != 0 {
        Err(SurroundfiError::AccountInFlashloan)
    } else {
        match crate::risk::spec_load(balances, inputs, now) {
            Err(e) => Err(e),
            Ok(es) => match crate::risk::spec_check_bankrupt(account_flags, es) {
                Err(e) => Err(e),
                Ok(()) => match spec_accrue_interest(bank, now, group) {
                    Err(e) => Err(e),
                    Ok(bank1) => match spec_balance_index(balances, bank_key) {
                        None => Err(SurroundfiError::LendingAccountBalanceNotFound),
                        Some(i) => {
                            let bal0 = balances[i];
                            match s_mul(
                                bal0.liability_shares.bits as int,
                                bank1.liability_share_value.bits as int,
                            ) {
                                None => Err(SurroundfiError::MathError),
                                Some(bad_debt) => {
                                    if !(bad_debt
                                        > crate::constants::ZERO_AMOUNT_THRESHOLD_BITS) {
                                        Err(SurroundfiError::BalanceNotBadDebt)
                                    } else {
                                        let covered = if bad_debt <= available_insurance
                                            * FRAC_SCALE {
                                            bad_debt
                                        } else {
                                            available_insurance * FRAC_SCALE
                                        };
                                        let socialized = bad_debt - covered;
                                        let transfer = crate::i80f48::ceil_bits(covered) / (
                                        FRAC_SCALE as int);
                                        if !(0 <= transfer <= u64::MAX) {
                                            Err(SurroundfiError::MathError)
                                        } else {
                                            match crate::bank::spec_socialize_loss(
                                                bank1,
                                                I80F48 { bits: socialized as i128 },
                                            ) {
                                                Err(e) => Err(e),
                                                Ok(bank2) => match crate::wrapper::spec_increase_balance(
                                                    bal0,
                                                    bank2,
                                                    I80F48 { bits: bad_debt as i128 },
                                                    BalanceIncreaseType::RepayOnly,
                                                    now as u64,
                                                ) {
                                                    Err(e) => Err(e),
                                                    Ok((bal1, bank3)) => Ok(
                                                        (
                                                            bank3,
                                                            balances.update(i, bal1),
                                                            transfer as u64,
                                                        ),
                                                    ),
                                                },
                                            }
                                        }
                                    }
                                },
                            }
                        },
                    },
                },
            },
        }
    }
}

/// Settle a bankrupt account's bad debt in this bank: insurance covers
/// what it can, the rest is socialized across lenders, the debt is
/// repaid in full, and the account is permanently disabled. Yields the
/// insurance amount the host must move into the liquidity vault.
#[verifier::rlimit(100)]
pub fn lending_pool_handle_bankruptcy(
    group: &crate::group::SurroundfiGroup,
    bank: &mut Bank,
    bank_key: u64,
    account: &mut SurroundfiAccount,
    signer: u64,
    available_insurance: u64,
    inputs: &Vec<BankOracleInput>,
    current_timestamp: i64,
) -> (r: Result<u64, SurroundfiError>)
    requires
        old(bank).mint_decimals < MAX_MINT_DECIMALS,
        current_timestamp >= 0,
        forall|j: int|
            0 <= j < inputs@.len() ==> (#[trigger] inputs@[j]).bank.mint_decimals
                < MAX_MINT_DECIMALS,
    ensures
        match spec_handle_bankruptcy(
            *group,
            *old(bank),
            old(account).lending_account.balances@,
            old(account).account_flags,
            bank_key,
            signer,
            available_insurance,
            inputs@,
            current_timestamp,
        ) {
            Ok((bank3, newbals, transfer)) => r == Ok::<u64, SurroundfiError>(transfer) && *final(bank) == bank3 && final(account).lending_account.balances@ == newbals && final(account).account_flags == (old(account).account_flags | ACCOUNT_DISABLED),
            Err(e) => r == Err::<u64, SurroundfiError>(e) && *final(bank) == *old(bank)
                && final(account).lending_account.balances@ == old(account).lending_account.balances@ && final(account).account_flags == old(account).account_flags,
        },
        final(account).group == old(account).group,
        final(account).authority == old(account).authority,
        final(account).emissions_destination_account == old(account).emissions_destination_account,
        final(account).health_cache == old(account).health_cache,
{
    if !bank.get_flag(crate::constants::PERMISSIONLESS_BAD_DEBT_SETTLEMENT_FLAG) && signer
        != group.admin {
        return Err(SurroundfiError::Unauthorized);
    }
    let engine = match crate::risk::RiskEngine::new(account, inputs, current_timestamp) {
        Ok(e) => e,
        Err(e) => {
            return Err(e);
        },
    };
    match engine.check_account_bankrupt() {
        Ok(()) => {},
        Err(e) => {
            return Err(e);
        },
    }
    let mut staged_bank = *bank;
    match staged_bank.accrue_interest(current_timestamp, group) {
        Ok(()) => {},
        Err(e) => {
            return Err(e);
        },
    }
    let idx = match account.lending_account.get_balance(bank_key) {
        Some(i) => i,
        None => {
            return Err(SurroundfiError::LendingAccountBalanceNotFound);
        },
    };
    let bal0 = account.lending_account.balances[idx];
    let bad_debt = match staged_bank.get_liability_amount(bal0.liability_shares) {
        Ok(v) => v,
        Err(e) => {
            return Err(e);
        },
    };
    if !bad_debt.is_positive_with_tolerance(
        I80F48 { bits: crate::constants::ZERO_AMOUNT_THRESHOLD_BITS },
    ) {
        return Err(SurroundfiError::BalanceNotBadDebt);
    }
    let available = I80F48::from_num(available_insurance);
    let covered = bad_debt.min(available);
    let socialized = match bad_debt.checked_sub(covered) {
        Some(v) => v,
        None => {
            return Err(SurroundfiError::MathError);
        },
    };
    let covered_ceil = match covered.checked_ceil() {
        Some(v) => v,
        None => {
            return Err(SurroundfiError::MathError);
        },
    };
    let transfer = match covered_ceil.checked_to_num_u64() {
        Some(v) => v,
        None => {
            return Err(SurroundfiError::MathError);
        },
    };
    match staged_bank.socialize_loss(socialized) {
        Ok(()) => {},
        Err(e) => {
            return Err(e);
        },
    }
    let mut wrapper = BankAccountWrapper { balance: bal0, bank: staged_bank };
    match wrapper.repay(bad_debt, current_timestamp as u64) {
        Ok(()) => {},
        Err(e) => {
            return Err(e);
        },
    }
    account.lending_account.balances.set(idx, wrapper.balance);
    *bank = wrapper.bank;
    account.set_flag(ACCOUNT_DISABLED);
    Ok(transfer)
}

/// What the host learned about one instruction in the transaction, for
/// the flashloan bracket checks.
#[derive(Clone, Copy, Debug, PartialEq, Eq, Structural)]
pub struct InstructionFacts {
    /// The instruction targets this program.
    pub program_is_self: bool,
    /// The instruction is the flashloan-end instruction.
    pub is_end_flashloan: bool,
    /// The first account the instruction names, if any.
    pub first_account_key: Option<u64>,
}

/// Whether a flashloan may start: the end call must come later in the
/// same transaction, be this program's flashloan-end instruction on the
/// same account, neither call may be nested, and the account must be
/// enabled and not already mid-flashloan.
pub open spec fn spec_flashloan_can_start(
    account_flags: u64,
    account_key: u64,
    current_ix_idx: u64,
    end_fl_idx: u64,
    stack_height_is_transaction_level: bool,
    current_ix: InstructionFacts,
    end_ix: InstructionFacts,
) -> Result<(), SurroundfiError> {
    if !(current_ix_idx < end_fl_idx) {
        Err(SurroundfiError::IllegalFlashloan)
    } else if !stack_height_is_transaction_level {
        Err(SurroundfiError::IllegalFlashloan)
    } else if !current_ix.program_is_self {
        Err(SurroundfiError::IllegalFlashloan)
    } else if !end_ix.is_end_flashloan {
        Err(SurroundfiError::IllegalFlashloan)
    } else if !end_ix.program_is_self {
        Err(SurroundfiError::IllegalFlashloan)
    } else if end_ix.first_account_key != Some(account_key) {
        Err(SurroundfiError::IllegalFlashloan)
    } else if account_flags & ACCOUNT_DISABLED != 0 {
        Err(SurroundfiError::AccountDisabled)
    } else if account_flags & crate::constants::ACCOUNT_IN_FLASHLOAN != 0 {
        Err(SurroundfiError::IllegalFlashloan)
    } else {
        Ok(())
    }
}

/// Check every condition for starting a flashloan bracket.
pub fn check_flashloan_can_start(
    account: &SurroundfiAccount,
    account_key: u64,
    current_ix_idx: u64,
    end_fl_idx: u64,
    stack_height_is_transaction_level: bool,
    current_ix: InstructionFacts,
    end_ix: InstructionFacts,
) -> (r: Result<(), SurroundfiError>)
    ensures
        r == spec_flashloan_can_start(
            account.account_flags,
            account_key,
            current_ix_idx,
            end_fl_idx,
            stack_height_is_transaction_level,
            current_ix,
            end_ix,
        ),
{
    if !(current_ix_idx < end_fl_idx) {
        return Err(SurroundfiError::IllegalFlashloan);
    }
    if !stack_height_is_transaction_level {
        return Err(SurroundfiError::IllegalFlashloan);
    }
    if !current_ix.program_is_self {
        return Err(SurroundfiError::IllegalFlashloan);
    }
    if !end_ix.is_end_flashloan {
        return Err(SurroundfiError::IllegalFlashloan);
    }
    if !end_ix.program_is_self {
        return Err(SurroundfiError::IllegalFlashloan);
    }
    if end_ix.first_account_key != Some(account_key) {
        return Err(SurroundfiError::IllegalFlashloan);
    }
    if account.get_flag(ACCOUNT_DISABLED) {
        return Err(SurroundfiError::AccountDisabled);
    }
    if account.get_flag(crate::constants::ACCOUNT_IN_FLASHLOAN) {
        return Err(SurroundfiError::IllegalFlashloan);
    }
    Ok(())
}

/// Start a flashloan bracket: after all checks pass, suspend risk checks
/// by setting the in-flashloan flag.
pub fn lending_account_start_flashloan(
    account: &mut SurroundfiAccount,
    account_key: u64,
    current_ix_idx: u64,
    end_fl_idx: u64,
    stack_height_is_transaction_level: bool,
    current_ix: InstructionFacts,
    end_ix: InstructionFacts,
) -> (r: Result<(), SurroundfiError>)
    ensures
        match spec_flashloan_can_start(
            old(account).account_flags,
            account_key,
            current_ix_idx,
            end_fl_idx,
            stack_height_is_transaction_level,
            current_ix,
            end_ix,
        ) {
            Ok(()) => r == Ok::<(), SurroundfiError>(()) && final(account).account_flags == (old(account).account_flags | crate::constants::ACCOUNT_IN_FLASHLOAN),
            Err(e) => r == Err::<(), SurroundfiError>(e) && final(account).account_flags == old(account).account_flags,
        },
        final(account).lending_account.balances@ == old(account).lending_account.balances@,
        final(account).group == old(account).group,
        final(account).authority == old(account).authority,
        final(account).emissions_destination_account == old(account).emissions_destination_account,
        final(account).health_cache == old(account).health_cache,
{
    match check_flashloan_can_start(
        account,
        account_key,
        current_ix_idx,
        end_fl_idx,
        stack_height_is_transaction_level,
        current_ix,
        end_ix,
    ) {
        Ok(()) => {},
        Err(e) => {
            return Err(e);
        },
    }
    account.set_flag(crate::constants::ACCOUNT_IN_FLASHLOAN);
    Ok(())
}

/// End a flashloan bracket: the call must not be nested; the suspension
/// lifts and the initial health gate runs immediately; on failure the
/// bracket stays open and nothing changes.
pub fn lending_account_end_flashloan(
    account: &mut SurroundfiAccount,
    inputs: &Vec<BankOracleInput>,
    stack_height_is_transaction_level: bool,
    current_timestamp: i64,
) -> (r: Result<(), SurroundfiError>)
    requires
        forall|j: int|
            0 <= j < inputs@.len() ==> (#[trigger] inputs@[j]).bank.mint_decimals
                < MAX_MINT_DECIMALS,
    ensures
        !stack_height_is_transaction_level ==> r == Err::<(), SurroundfiError>(
            SurroundfiError::IllegalFlashloan,
        ) && final(account).account_flags == old(account).account_flags && final(account).health_cache == old(account).health_cache,
        stack_height_is_transaction_level ==> ({
            let (hc, res) = spec_init_health_check(
                old(account).account_flags & !crate::constants::ACCOUNT_IN_FLASHLOAN,
                old(account).lending_account.balances@,
                inputs@,
                current_timestamp,
            );
            match res {
                Ok(()) => r == Ok::<(), SurroundfiError>(()) && final(account).account_flags == (
                old(account).account_flags & !crate::constants::ACCOUNT_IN_FLASHLOAN),
                Err(e) => r == Err::<(), SurroundfiError>(e) && final(account).account_flags == old(account).account_flags,
            }
        }),
        final(account).lending_account.balances@ == old(account).lending_account.balances@,
        final(account).group == old(account).group,
        final(account).authority == old(account).authority,
        final(account).emissions_destination_account == old(account).emissions_destination_account,
        final(account).health_cache == old(account).health_cache,
{
    if !stack_height_is_transaction_level {
        return Err(SurroundfiError::IllegalFlashloan);
    }
    let new_flags = account.account_flags & !crate::constants::ACCOUNT_IN_FLASHLOAN;
    let (_diagnostics, gate) = crate::risk::check_init_health_core(
        new_flags,
        &account.lending_account,
        inputs,
        current_timestamp,
    );
    match gate {
        Ok(()) => {},
        Err(e) => {
            return Err(e);
        },
    }
    account.account_flags = new_flags;
    Ok(())
}

/// The account flags an admin may set or clear from outside.
pub const CONFIGURABLE_FLAGS: u64 = 8;

/// Whether a flag word touches only externally configurable bits.
pub fn flag_can_be_set(flag: u64) -> (r: bool)
    ensures
        r == (flag & !CONFIGURABLE_FLAGS == 0),
{
    flag & !CONFIGURABLE_FLAGS == 0
}

/// Set an account flag on the admin's behalf; only configurable bits are
/// legal.
pub fn set_account_flag(account: &mut SurroundfiAccount, flag: u64) -> (r: Result<
    (),
    SurroundfiError,
>)
    ensures
        flag & !CONFIGURABLE_FLAGS != 0 ==> r == Err::<(), SurroundfiError>(
            SurroundfiError::IllegalFlag,
        ) && final(account).account_flags == old(account).account_flags,
        flag & !CONFIGURABLE_FLAGS == 0 ==> r == Ok::<(), SurroundfiError>(()) && final(account).account_flags == (old(account).account_flags | flag),
        final(account).lending_account.balances@ == old(account).lending_account.balances@,
        final(account).group == old(account).group,
        final(account).authority == old(account).authority,
        final(account).emissions_destination_account == old(account).emissions_destination_account,
        final(account).health_cache == old(account).health_cache,
{
    if !flag_can_be_set(flag) {
        return Err(SurroundfiError::IllegalFlag);
    }
    account.set_flag(flag);
    Ok(())
}

/// Clear an account flag on the admin's behalf; only configurable bits
/// are legal.
pub fn unset_account_flag(account: &mut SurroundfiAccount, flag: u64) -> (r: Result<
    (),
    SurroundfiError,
>)
    ensures
        flag & !CONFIGURABLE_FLAGS != 0 ==> r == Err::<(), SurroundfiError>(
            SurroundfiError::IllegalFlag,
        ) && final(account).account_flags == old(account).account_flags,
        flag & !CONFIGURABLE_FLAGS == 0 ==> r == Ok::<(), SurroundfiError>(()) && final(account).account_flags == (old(account).account_flags & !flag),
        final(account).lending_account.balances@ == old(account).lending_account.balances@,
        final(account).group == old(account).group,
        final(account).authority == old(account).authority,
        final(account).emissions_destination_account == old(account).emissions_destination_account,
        final(account).health_cache == old(account).health_cache,
{
    if !flag_can_be_set(flag) {
        return Err(SurroundfiError::IllegalFlag);
    }
    account.unset_flag(flag);
    Ok(())
}

/// The fee a fee-on-transfer mint takes from a transfer of `pre_fee`
/// native units: the configured fraction in basis points, rounded up,
/// capped at the configured maximum.
pub open spec fn spec_transfer_fee(transfer_fee_bps: u16, maximum_fee: u64, pre_fee: u64) -> int {
    if transfer_fee_bps == 0 {
        0
    } else {
        let raw = (pre_fee * transfer_fee_bps + 9999) / 10000;
        if raw >= maximum_fee {
            maximum_fee as int
        } else {
            raw
        }
    }
}

/// What arrives after a fee-on-transfer mint takes its cut of a
/// transfer.
pub fn calculate_post_fee_spl_deposit_amount(
    transfer_fee_bps: u16,
    maximum_fee: u64,
    pre_fee_amount: u64,
) -> (r: u64)
    requires
        transfer_fee_bps <= 10000,
    ensures
        r == pre_fee_amount - spec_transfer_fee(transfer_fee_bps, maximum_fee, pre_fee_amount),
{
    if transfer_fee_bps == 0 {
        return pre_fee_amount;
    }
    proof {
        assert(pre_fee_amount * transfer_fee_bps <= 0xFFFFFFFFFFFFFFFF * 10000) by (nonlinear_arith)
            requires
                transfer_fee_bps <= 10000,
                pre_fee_amount <= 0xFFFFFFFFFFFFFFFF,
        ;
    }
    let raw: u128 = ((pre_fee_amount as u128) * (transfer_fee_bps as u128) + 9999) / 10000;
    proof {
        let pf = pre_fee_amount as int;
        assert(pf * transfer_fee_bps <= pf * 10000) by (nonlinear_arith)
            requires
                transfer_fee_bps <= 10000,
                pf >= 0,
        ;
        vstd::arithmetic::div_mod::lemma_div_is_ordered(
            pf * transfer_fee_bps + 9999,
            pf * 10000 + 9999,
            10000,
        );
        vstd::arithmetic::div_mod::lemma_fundamental_div_mod_converse(
            pf * 10000 + 9999,
            10000,
            pf,
            9999,
        );
    }
    let fee: u64 = if raw >= maximum_fee as u128 {
        maximum_fee
    } else {
        raw as u64
    };
    if fee > pre_fee_amount {
        0
    } else {
        pre_fee_amount - fee
    }
}

/// What must be sent through a fee-on-transfer mint so that the intended
/// amount arrives: the smallest gross amount whose net is at least the
/// target, symmetric with the fee rule.
pub open spec fn spec_pre_fee_amount(transfer_fee_bps: u16, maximum_fee: u64, post_fee: u64) -> Result<
    int,
    SurroundfiError,
> {
    if transfer_fee_bps == 0 {
        Ok(post_fee as int)
    } else if transfer_fee_bps >= 10000 {
        if post_fee + maximum_fee > u64::MAX {
            Err(SurroundfiError::MathError)
        } else {
            Ok(post_fee + maximum_fee)
        }
    } else {
        let raw = (post_fee * 10000 + (10000 - transfer_fee_bps) - 1) / (10000
            - transfer_fee_bps);
        let fee = raw - post_fee;
        if fee >= maximum_fee {
            if post_fee + maximum_fee > u64::MAX {
                Err(SurroundfiError::MathError)
            } else {
                Ok(post_fee + maximum_fee)
            }
        } else {
            if raw > u64::MAX {
                Err(SurroundfiError::MathError)
            } else {
                Ok(raw)
            }
        }
    }
}

/// The gross amount to send through a fee-on-transfer mint so that the
/// intended net amount arrives.
pub fn calculate_pre_fee_spl_deposit_amount(
    transfer_fee_bps: u16,
    maximum_fee: u64,
    post_fee_amount: u64,
) -> (r: Result<u64, SurroundfiError>)
    requires
        transfer_fee_bps <= 10000,
    ensures
        match spec_pre_fee_amount(transfer_fee_bps, maximum_fee, post_fee_amount) {
            Ok(v) => r == Ok::<u64, SurroundfiError>(v as u64),
            Err(e) => r == Err::<u64, SurroundfiError>(e),
        },
{
    if transfer_fee_bps == 0 {
        return Ok(post_fee_amount);
    }
    if transfer_fee_bps >= 10000 {
        if post_fee_amount <= u64::MAX - maximum_fee {
            return Ok(post_fee_amount + maximum_fee);
        } else {
            return Err(SurroundfiError::MathError);
        }
    }
    let den: u128 = 10000 - (transfer_fee_bps as u128);
    let raw: u128 = ((post_fee_amount as u128) * 10000 + den - 1) / den;
    proof {
        let pf = post_fee_amount as int;
        let d = den as int;
        assert(pf * 10000 + d - 1 >= pf * d) by (nonlinear_arith)
            requires
                1 <= d <= 10000,
                pf >= 0,
        ;
        vstd::arithmetic::div_mod::lemma_div_is_ordered(pf * d, pf * 10000 + d - 1, d);
        vstd::arithmetic::div_mod::lemma_div_multiples_vanish(pf, d);
    }
    let fee: u128 = raw - (post_fee_amount as u128);
    if fee >= maximum_fee as u128 {
        if post_fee_amount <= u64::MAX - maximum_fee {
            Ok(post_fee_amount + maximum_fee)
        } else {
            Err(SurroundfiError::MathError)
        }
    } else {
        if raw <= u64::MAX as u128 {
            Ok(raw as u64)
        } else {
            Err(SurroundfiError::MathError)
        }
    }
}

/// Destroy permission for an account: it must not be disabled and every
/// slot must be logically empty; actual reclamation is the host's job.
pub fn close_account(account: &SurroundfiAccount) -> (r: Result<(), SurroundfiError>)
    ensures
        (account.account_flags & ACCOUNT_DISABLED == 0 && forall|i: int|
            0 <= i < account.lending_account.balances@.len() ==> crate::account::spec_get_side(
                #[trigger] account.lending_account.balances@[i],
            ) is None) <==> r == Ok::<(), SurroundfiError>(()),
        r is Err ==> r == Err::<(), SurroundfiError>(SurroundfiError::IllegalAction),
{
    if account.can_be_closed() {
        Ok(())
    } else {
        Err(SurroundfiError::IllegalAction)
    }
}

/// First-time setup of an account: bind it to its group and owner.
pub fn initialize_account(account: &mut SurroundfiAccount, group: u64, authority: u64)
    ensures
        final(account).group == group,
        final(account).authority == authority,
        final(account).emissions_destination_account == 0,
        final(account).lending_account == old(account).lending_account,
        final(account).account_flags == old(account).account_flags,
        final(account).health_cache == old(account).health_cache,
{
    account.initialize(group, authority);
}

/// The flags a group carries after its arena choice is applied.
pub open spec fn spec_arena_flags(flags: u64, is_arena_group: bool) -> u64 {
    if is_arena_group {
        flags | crate::constants::ARENA_GROUP
    } else {
        flags & !crate::constants::ARENA_GROUP
    }
}

/// The two refusals of an arena choice: a group already holding more
/// than two banks cannot become an arena group, and an arena group can
/// never return to non-arena status.
pub open spec fn spec_arena_choice_error(
    group: crate::group::SurroundfiGroup,
    is_arena_group: bool,
) -> Option<SurroundfiError> {
    if is_arena_group && group.banks > 2 {
        Some(SurroundfiError::ArenaBankLimit)
    } else if group.group_flags & crate::constants::ARENA_GROUP != 0 && !is_arena_group {
        Some(SurroundfiError::ArenaSettingCannotChange)
    } else {
        None
    }
}

/// First-time setup of a group: record the admin, the arena choice
/// (under its refusal rules), the cached program-fee parameters, and a
/// bank count of zero. On refusal the group is unchanged.
pub fn initialize_group(
    group: &mut crate::group::SurroundfiGroup,
    admin: u64,
    is_arena_group: bool,
    fee_state: crate::group::FeeStateCache,
) -> (r: Result<(), SurroundfiError>)
    ensures
        match spec_arena_choice_error(*old(group), is_arena_group) {
            Some(e) => r == Err::<(), SurroundfiError>(e) && *final(group) == *old(group),
            None => r == Ok::<(), SurroundfiError>(()) && *final(group) == (
            crate::group::SurroundfiGroup {
                admin,
                group_flags: spec_arena_flags(old(group).group_flags, is_arena_group),
                fee_state_cache: fee_state,
                banks: 0,
            }),
        },
{
    let mut staged = *group;
    staged.set_initial_configuration(admin);
    match staged.set_arena_group(is_arena_group) {
        Ok(()) => {},
        Err(e) => {
            return Err(e);
        },
    }
    staged.fee_state_cache = fee_state;
    staged.banks = 0;
    *group = staged;
    Ok(())
}

/// Reconfigure a group: hand it to a new admin and apply the arena
/// choice under its refusal rules. On refusal the group is unchanged.
pub fn configure(
    group: &mut crate::group::SurroundfiGroup,
    new_admin: u64,
    is_arena_group: bool,
) -> (r: Result<(), SurroundfiError>)
    ensures
        match spec_arena_choice_error(*old(group), is_arena_group) {
            Some(e) => r == Err::<(), SurroundfiError>(e) && *final(group) == *old(group),
            None => r == Ok::<(), SurroundfiError>(()) && *final(group) == (
            crate::group::SurroundfiGroup {
                admin: new_admin,
                group_flags: spec_arena_flags(old(group).group_flags, is_arena_group),
                ..*old(group)
            }),
        },
{
    let mut staged = *group;
    staged.update_admin(new_admin);
    match staged.set_arena_group(is_arena_group) {
        Ok(()) => {},
        Err(e) => {
            return Err(e);
        },
    }
    *group = staged;
    Ok(())
}

/// Switch program-fee collection for a group on the fee admin's behalf.
pub fn config_group_fee(group: &mut crate::group::SurroundfiGroup, enable_program_fee: bool)
    ensures
        enable_program_fee ==> final(group).group_flags == (old(group).group_flags
            | crate::constants::PROGRAM_FEES_ENABLED),
        !enable_program_fee ==> final(group).group_flags == (old(group).group_flags
            & !crate::constants::PROGRAM_FEES_ENABLED),
        final(group).admin == old(group).admin,
        final(group).fee_state_cache == old(group).fee_state_cache,
        final(group).banks == old(group).banks,
{
    group.set_program_fee_enabled(enable_program_fee);
}

/// Opt the account into permissionless emissions withdrawal to a chosen
/// wallet.
pub fn surroundfi_account_update_emissions_destination_account(
    account: &mut SurroundfiAccount,
    destination: u64,
) -> (r: Result<(), SurroundfiError>)
    ensures
        old(account).account_flags & ACCOUNT_DISABLED != 0 ==> r == Err::<(), SurroundfiError>(
            SurroundfiError::AccountDisabled,
        ) && final(account).emissions_destination_account == old(account).emissions_destination_account,
        old(account).account_flags & ACCOUNT_DISABLED == 0 ==> r == Ok::<(), SurroundfiError>(())
            && final(account).emissions_destination_account == destination,
        final(account).lending_account.balances@ == old(account).lending_account.balances@,
        final(account).group == old(account).group,
        final(account).authority == old(account).authority,
        final(account).account_flags == old(account).account_flags,
        final(account).health_cache == old(account).health_cache,
{
    if account.get_flag(ACCOUNT_DISABLED) {
        return Err(SurroundfiError::AccountDisabled);
    }
    account.emissions_destination_account = destination;
    Ok(())
}

/// Outcome of withdrawing emissions: the account must be enabled and
/// hold a position here; pending emissions settle and the whole-unit
/// part leaves for transfer.
pub open spec fn spec_withdraw_emissions(
    bank: Bank,
    balances: Seq<Balance>,
    account_flags: u64,
    bank_key: u64,
    now: i64,
) -> Result<(Bank, Seq<Balance>, u64), SurroundfiError> {
    if account_flags & ACCOUNT_DISABLED != 0 {
        Err(SurroundfiError::AccountDisabled)
    } else {
        match spec_balance_index(balances, bank_key) {
            None => Err(SurroundfiError::BankAccountNotFound),
            Some(i) => match crate::wrapper::spec_settle_emissions(
                balances[i],
                bank,
                now as u64,
            ) {
                Err(e) => Err(e),
                Ok((bal1, bank1, amount)) => Ok((bank1, balances.update(i, bal1), amount)),
            },
        }
    }
}

/// Settle and withdraw the account's earned emissions in this bank.
/// Yields the whole-unit amount the host must transfer.
pub fn lending_account_withdraw_emissions(
    bank: &mut Bank,
    bank_key: u64,
    account: &mut SurroundfiAccount,
    current_timestamp: i64,
) -> (r: Result<u64, SurroundfiError>)
    requires
        old(bank).mint_decimals < MAX_MINT_DECIMALS,
        current_timestamp >= 0,
    ensures
        match spec_withdraw_emissions(
            *old(bank),
            old(account).lending_account.balances@,
            old(account).account_flags,
            bank_key,
            current_timestamp,
        ) {
            Ok((bank1, newbals, amount)) => r == Ok::<u64, SurroundfiError>(amount) && *final(bank) == bank1 && final(account).lending_account.balances@ == newbals,
            Err(e) => r == Err::<u64, SurroundfiError>(e) && *final(bank) == *old(bank)
                && final(account).lending_account.balances@ == old(account).lending_account.balances@,
        },
        account_meta_unchanged(*old(account), *final(account)),
        final(account).health_cache == old(account).health_cache,
{
    if account.get_flag(ACCOUNT_DISABLED) {
        return Err(SurroundfiError::AccountDisabled);
    }
    let idx = match account.lending_account.get_balance(bank_key) {
        Some(i) => i,
        None => {
            return Err(SurroundfiError::BankAccountNotFound);
        },
    };
    let mut wrapper = BankAccountWrapper {
        balance: account.lending_account.balances[idx],
        bank: *bank,
    };
    let amount = match wrapper.settle_emissions_and_get_transfer_amount(
        current_timestamp as u64,
    ) {
        Ok(v) => v,
        Err(e) => {
            return Err(e);
        },
    };
    account.lending_account.balances.set(idx, wrapper.balance);
    *bank = wrapper.bank;
    Ok(amount)
}

/// Permissionlessly settle pending emissions onto the account's balance
/// in this bank, without withdrawing anything.
pub fn lending_account_settle_emissions(
    bank: &mut Bank,
    bank_key: u64,
    account: &mut SurroundfiAccount,
    current_timestamp: i64,
) -> (r: Result<(), SurroundfiError>)
    requires
        old(bank).mint_decimals < MAX_MINT_DECIMALS,
        current_timestamp >= 0,
    ensures
        match spec_balance_index(old(account).lending_account.balances@, bank_key) {
            None => r == Err::<(), SurroundfiError>(SurroundfiError::BankAccountNotFound)
                && *final(bank) == *old(bank) && final(account).lending_account.balances@ == old(account).lending_account.balances@,
            Some(i) => match crate::wrapper::spec_claim_emissions(
                old(account).lending_account.balances@[i],
                *old(bank),
                current_timestamp as u64,
            ) {
                Ok((bal1, bank1)) => r == Ok::<(), SurroundfiError>(()) && *final(bank) == bank1
                    && final(account).lending_account.balances@ == old(account).lending_account.balances@.update(i, bal1),
                Err(e) => r == Err::<(), SurroundfiError>(e) && *final(bank) == *old(bank)
                    && final(account).lending_account.balances@ == old(account).lending_account.balances@,
            },
        },
        account_meta_unchanged(*old(account), *final(account)),
        final(account).health_cache == old(account).health_cache,
{
    let idx = match account.lending_account.get_balance(bank_key) {
        Some(i) => i,
        None => {
            return Err(SurroundfiError::BankAccountNotFound);
        },
    };
    let mut wrapper = BankAccountWrapper {
        balance: account.lending_account.balances[idx],
        bank: *bank,
    };
    match wrapper.claim_emissions(current_timestamp as u64) {
        Ok(()) => {},
        Err(e) => {
            return Err(e);
        },
    }
    account.lending_account.balances.set(idx, wrapper.balance);
    *bank = wrapper.bank;
    Ok(())
}

/// Reconfigure a bank on the admin's behalf: a frozen bank accepts only
/// cap updates, everything else updates in full.
pub fn lending_pool_configure_bank(
    bank: &mut Bank,
    bank_config: &crate::bank::BankConfigOpt,
) -> (r: Result<(), SurroundfiError>)
    ensures
        r == Ok::<(), SurroundfiError>(()),
        old(bank).flags & crate::constants::FREEZE_SETTINGS != 0 ==> *final(bank)
            == crate::bank::spec_configure_unfrozen_fields_only(*old(bank), *bank_config),
        old(bank).flags & crate::constants::FREEZE_SETTINGS == 0 ==> *final(bank)
            == crate::bank::spec_configure(*old(bank), *bank_config),
{
    if bank.get_flag(crate::constants::FREEZE_SETTINGS) {
        bank.configure_unfrozen_fields_only(bank_config)
    } else {
        bank.configure(bank_config)
    }
}

} // verus!
