//! The risk engine: pairs each active balance of an account with its bank
//! and a lazily validated price feed, values each side under a requirement
//! type, and enforces the health, liquidation, and bankruptcy conditions
//! that gate every state-changing operation.

use vstd::prelude::*;
use crate::account::{spec_get_side, spec_is_empty, Balance, LendingAccount, SurroundfiAccount};
use crate::bank::{spec_get_weight, BalanceSide, Bank, RequirementType, RiskTier};
use crate::constants::{
    pow10, ACCOUNT_IN_FLASHLOAN, BANKRUPT_THRESHOLD_BITS, MAX_MINT_DECIMALS,
    ZERO_AMOUNT_THRESHOLD_BITS,
};
use crate::errors::SurroundfiError;
use crate::health_cache::HealthCache;
use crate::i80f48::{s_add, s_div, s_mul, s_sub, I80F48, FRAC_SCALE};
use crate::price::{
    spec_price_of_type, spec_validate_feed, OracleFeed, OraclePriceFeedAdapter, PriceBias,
};

verus! {

/// The requirement a whole-account check runs under.
#[derive(Clone, Copy, Debug, PartialEq, Eq, Structural)]
pub enum RiskRequirementType {
    /// Strict, conservative check before any risk increase.
    Initial,
    /// Looser check whose failure makes an account liquidatable.
    Maintenance,
    /// Par valuation for bankruptcy determination.
    Equity,
}

impl RiskRequirementType {
    /// The per-balance weight regime this requirement values under.
    pub fn to_weight_type(&self) -> (r: RequirementType)
        ensures
            r == match *self {
                RiskRequirementType::Initial => RequirementType::Initial,
                RiskRequirementType::Maintenance => RequirementType::Maintenance,
                RiskRequirementType::Equity => RequirementType::Equity,
            },
    {
        match *self {
            RiskRequirementType::Initial => RequirementType::Initial,
            RiskRequirementType::Maintenance => RequirementType::Maintenance,
            RiskRequirementType::Equity => RequirementType::Equity,
        }
    }
}

/// The dollar value of a token quantity: amount, scaled by an optional
/// weight, times price, scaled down by the mint's decimals. Zero amounts
/// are worth zero outright.
pub open spec fn spec_calc_value(
    amount: int,
    price: int,
    mint_decimals: nat,
    weight: Option<int>,
) -> Result<int, SurroundfiError> {
    if amount == 0 {
        Ok(0)
    } else {
        match (match weight {
            Some(w) => s_mul(amount, w),
            None => Some(amount),
        }) {
            None => Err(SurroundfiError::MathError),
            Some(weighted) => match s_mul(weighted, price) {
                None => Err(SurroundfiError::MathError),
                Some(v) => match s_div(v, pow10(mint_decimals) * FRAC_SCALE) {
                    None => Err(SurroundfiError::MathError),
                    Some(value) => Ok(value),
                },
            },
        }
    }
}

/// The token quantity a dollar value buys: value scaled up by the mint's
/// decimals, divided by price.
pub open spec fn spec_calc_amount(value: int, price: int, mint_decimals: nat) -> Result<
    int,
    SurroundfiError,
> {
    match s_mul(value, pow10(mint_decimals) * FRAC_SCALE) {
        None => Err(SurroundfiError::MathError),
        Some(v) => match s_div(v, price) {
            None => Err(SurroundfiError::MathError),
            Some(qt) => Ok(qt),
        },
    }
}

/// The dollar value of an asset or liability quantity, given its price,
/// its mint's decimal exponent, and an optional valuation weight.
pub fn calc_value(amount: I80F48, price: I80F48, mint_decimals: u8, weight: Option<I80F48>) -> (r:
    Result<I80F48, SurroundfiError>)
    requires
        mint_decimals < MAX_MINT_DECIMALS,
    ensures
        match spec_calc_value(
            amount.bits as int,
            price.bits as int,
            mint_decimals as nat,
            match weight {
                Some(w) => Some(w.bits as int),
                None => None,
            },
        ) {
            Ok(v) => r == Ok::<I80F48, SurroundfiError>(I80F48 { bits: v as i128 }),
            Err(e) => r == Err::<I80F48, SurroundfiError>(e),
        },
{
    if amount.is_zero() {
        return Ok(I80F48::zero());
    }
    let scaling_factor = crate::constants::exp_10_i80f48(mint_decimals);
    let weighted = match weight {
        Some(w) => match amount.checked_mul(w) {
            Some(v) => v,
            None => {
                return Err(SurroundfiError::MathError);
            },
        },
        None => amount,
    };
    let v = match weighted.checked_mul(price) {
        Some(v) => v,
        None => {
            return Err(SurroundfiError::MathError);
        },
    };
    match v.checked_div(scaling_factor) {
        Some(value) => Ok(value),
        None => Err(SurroundfiError::MathError),
    }
}

/// The token quantity worth a given dollar value at a given price.
pub fn calc_amount(value: I80F48, price: I80F48, mint_decimals: u8) -> (r: Result<
    I80F48,
    SurroundfiError,
>)
    requires
        mint_decimals < MAX_MINT_DECIMALS,
    ensures
        match spec_calc_amount(value.bits as int, price.bits as int, mint_decimals as nat) {
            Ok(v) => r == Ok::<I80F48, SurroundfiError>(I80F48 { bits: v as i128 }),
            Err(e) => r == Err::<I80F48, SurroundfiError>(e),
        },
{
    let scaling_factor = crate::constants::exp_10_i80f48(mint_decimals);
    let v = match value.checked_mul(scaling_factor) {
        Some(v) => v,
        None => {
            return Err(SurroundfiError::MathError);
        },
    };
    match v.checked_div(price) {
        Some(qt) => Ok(qt),
        None => Err(SurroundfiError::MathError),
    }
}

/// The discount `maybe_get_asset_weight_init_discount` yields: once the
/// bank's total deposits are worth more than its configured soft cap in
/// dollars, the init asset weight is scaled by cap over value.
pub open spec fn spec_init_discount(bank: Bank, price: int) -> Result<
    Option<int>,
    SurroundfiError,
> {
    if bank.config.total_asset_value_init_limit == 0 {
        Ok(None)
    } else {
        match s_mul(bank.total_asset_shares.bits as int, bank.asset_share_value.bits as int) {
            None => Err(SurroundfiError::MathError),
            Some(amount) => match spec_calc_value(
                amount,
                price,
                bank.mint_decimals as nat,
                None,
            ) {
                Err(e) => Err(e),
                Ok(bank_value) => {
                    let limit = bank.config.total_asset_value_init_limit * FRAC_SCALE;
                    if bank_value > limit {
                        match s_div(limit, bank_value) {
                            None => Err(SurroundfiError::MathError),
                            Some(d) => Ok(Some(d)),
                        }
                    } else {
                        Ok(None)
                    }
                },
            },
        }
    }
}

impl Bank {
    /// The init-weight discount for concentrated collateral, where the
    /// bank's configured dollar soft cap is active and exceeded.
    pub fn maybe_get_asset_weight_init_discount(&self, price: I80F48) -> (r: Result<
        Option<I80F48>,
        SurroundfiError,
    >)
        requires
            self.mint_decimals < MAX_MINT_DECIMALS,
        ensures
            match spec_init_discount(*self, price.bits as int) {
                Ok(Some(d)) => r == Ok::<Option<I80F48>, SurroundfiError>(
                    Some(I80F48 { bits: d as i128 }),
                ),
                Ok(None) => r == Ok::<Option<I80F48>, SurroundfiError>(None),
                Err(e) => r == Err::<Option<I80F48>, SurroundfiError>(e),
            },
    {
        if !self.config.usd_init_limit_active() {
            return Ok(None);
        }
        let amount = match self.total_asset_shares.checked_mul(self.asset_share_value) {
            Some(v) => v,
            None => {
                return Err(SurroundfiError::MathError);
            },
        };
        let bank_value = match calc_value(amount, price, self.mint_decimals, None) {
            Ok(v) => v,
            Err(e) => {
                return Err(e);
            },
        };
        let limit = I80F48::from_num(self.config.total_asset_value_init_limit);
        if bank_value.gt(limit) {
            match limit.checked_div(bank_value) {
                Some(d) => Ok(Some(d)),
                None => Err(SurroundfiError::MathError),
            }
        } else {
            Ok(None)
        }
    }
}

/// What the host must supply for one active balance under the
/// remaining-accounts protocol: the bank (with the address it lives at)
/// and a snapshot of its oracle feed.
#[derive(Clone, Copy, Debug)]
pub struct BankOracleInput {
    /// Address the bank account lives at.
    pub bank_key: u64,
    /// The bank's state.
    pub bank: Bank,
    /// The parsed oracle feed snapshot.
    pub feed: OracleFeed,
}

/// One active balance paired with its bank and the (possibly failed)
/// validation of its price feed.
#[derive(Clone, Copy, Debug)]
pub struct BankAccountWithPriceFeed {
    /// The bank the balance is bound to.
    pub bank: Bank,
    /// The validated feed, or the validation failure, consulted lazily.
    pub price_feed: Result<OraclePriceFeedAdapter, SurroundfiError>,
    /// The balance itself.
    pub balance: Balance,
}

/// What the engine needs of every entry: banks with supported decimals.
pub open spec fn entries_wf(entries: Seq<BankAccountWithPriceFeed>) -> bool {
    forall|i: int|
        0 <= i < entries.len() ==> (#[trigger] entries[i]).bank.mint_decimals < MAX_MINT_DECIMALS
}

/// Pairing of active balances with the host-supplied inputs, walking the
/// ledger and the input list together from slot `i` and input `j`: every
/// active balance consumes the next input, whose bank address must match;
/// running out of inputs or a mismatch is a hard failure.
pub open spec fn spec_load_from(
    balances: Seq<Balance>,
    inputs: Seq<BankOracleInput>,
    now: i64,
    i: int,
    j: int,
) -> Result<Seq<BankAccountWithPriceFeed>, SurroundfiError>
    decreases balances.len() - i,
{
    if i < 0 || i >= balances.len() {
        Ok(Seq::empty())
    } else {
        let b = balances[i];
        if b.active == 0 {
            spec_load_from(balances, inputs, now, i + 1, j)
        } else if j < 0 || j >= inputs.len() {
            Err(SurroundfiError::InvalidBankAccount)
        } else if b.bank_pk != inputs[j].bank_key {
            Err(SurroundfiError::InvalidBankAccount)
        } else {
            let entry = BankAccountWithPriceFeed {
                bank: inputs[j].bank,
                price_feed: spec_validate_feed(inputs[j].bank.config, inputs[j].feed, now),
                balance: b,
            };
            match spec_load_from(balances, inputs, now, i + 1, j + 1) {
                Ok(rest) => Ok(seq![entry] + rest),
                Err(e) => Err(e),
            }
        }
    }
}

/// Pairing of all active balances of a ledger with the host-supplied
/// inputs, in ledger order.
pub open spec fn spec_load(
    balances: Seq<Balance>,
    inputs: Seq<BankOracleInput>,
    now: i64,
) -> Result<Seq<BankAccountWithPriceFeed>, SurroundfiError> {
    spec_load_from(balances, inputs, now, 0, 0)
}

/// The weighted value one entry contributes on the asset side, with the
/// price used. Isolated-tier collateral is worth nothing; a failed price
/// feed is tolerated as worth nothing for Initial checks only; the price
/// is biased low and the init weight may carry the concentration
/// discount.
pub open spec fn spec_weighted_asset_value(
    entry: BankAccountWithPriceFeed,
    requirement_type: RequirementType,
) -> Result<(int, int), SurroundfiError> {
    if entry.bank.config.risk_tier is Isolated {
        Ok((0, 0))
    } else {
        match entry.price_feed {
            Err(e) => if requirement_type is Initial {
                Ok((0, 0))
            } else {
                Err(e)
            },
            Ok(feed) => {
                let weight = spec_get_weight(
                    entry.bank.config,
                    requirement_type,
                    BalanceSide::Assets,
                );
                match spec_price_of_type(
                    feed.feed,
                    crate::price::spec_oracle_price_type(requirement_type),
                    Some(PriceBias::Low),
                ) {
                    Err(e) => Err(e),
                    Ok(lower_price) => {
                        let weight_result: Result<int, SurroundfiError> = if requirement_type
                            is Initial {
                            match spec_init_discount(entry.bank, lower_price) {
                                Err(e) => Err(e),
                                Ok(Some(discount)) => match s_mul(weight.bits as int, discount) {
                                    None => Err(SurroundfiError::MathError),
                                    Some(w) => Ok(w),
                                },
                                Ok(None) => Ok(weight.bits as int),
                            }
                        } else {
                            Ok(weight.bits as int)
                        };
                        match weight_result {
                            Err(e) => Err(e),
                            Ok(w) => match s_mul(
                                entry.balance.asset_shares.bits as int,
                                entry.bank.asset_share_value.bits as int,
                            ) {
                                None => Err(SurroundfiError::MathError),
                                Some(amount) => match spec_calc_value(
                                    amount,
                                    lower_price,
                                    entry.bank.mint_decimals as nat,
                                    Some(w),
                                ) {
                                    Err(e) => Err(e),
                                    Ok(value) => Ok((value, lower_price)),
                                },
                            },
                        }
                    },
                }
            },
        }
    }
}

/// The weighted value one entry contributes on the liability side, with
/// the price used. A liability always needs its price; it is biased high.
pub open spec fn spec_weighted_liab_value(
    entry: BankAccountWithPriceFeed,
    requirement_type: RequirementType,
) -> Result<(int, int), SurroundfiError> {
    match entry.price_feed {
        Err(e) => Err(e),
        Ok(feed) => {
            let weight = spec_get_weight(
                entry.bank.config,
                requirement_type,
                BalanceSide::Liabilities,
            );
            match spec_price_of_type(
                feed.feed,
                crate::price::spec_oracle_price_type(requirement_type),
                Some(PriceBias::High),
            ) {
                Err(e) => Err(e),
                Ok(higher_price) => match s_mul(
                    entry.balance.liability_shares.bits as int,
                    entry.bank.liability_share_value.bits as int,
                ) {
                    None => Err(SurroundfiError::MathError),
                    Some(amount) => match spec_calc_value(
                        amount,
                        higher_price,
                        entry.bank.mint_decimals as nat,
                        Some(weight.bits as int),
                    ) {
                        Err(e) => Err(e),
                        Ok(value) => Ok((value, higher_price)),
                    },
                },
            }
        },
    }
}

/// The (asset value, liability value, price) triple one entry contributes
/// under a requirement type: an empty balance contributes nothing, an
/// asset-side balance its weighted asset value, a liability-side balance
/// its weighted liability value.
pub open spec fn spec_weighted_value(
    entry: BankAccountWithPriceFeed,
    requirement_type: RequirementType,
) -> Result<(int, int, int), SurroundfiError> {
    match spec_get_side(entry.balance) {
        None => Ok((0, 0, 0)),
        Some(BalanceSide::Assets) => match spec_weighted_asset_value(entry, requirement_type) {
            Err(e) => Err(e),
            Ok((value, price)) => Ok((value, 0, price)),
        },
        Some(BalanceSide::Liabilities) => match spec_weighted_liab_value(
            entry,
            requirement_type,
        ) {
            Err(e) => Err(e),
            Ok((value, price)) => Ok((0, value, price)),
        },
    }
}

/// Totals over the first `i` entries: weighted assets, weighted
/// liabilities, and the price used per entry, every addition checked.
pub open spec fn spec_health_prefix(
    entries: Seq<BankAccountWithPriceFeed>,
    requirement_type: RequirementType,
    i: int,
) -> Result<(int, int, Seq<I80F48>), SurroundfiError>
    decreases i,
{
    if i <= 0 {
        Ok((0, 0, Seq::empty()))
    } else {
        match spec_health_prefix(entries, requirement_type, i - 1) {
            Err(e) => Err(e),
            Ok((ta, tl, ps)) => match spec_weighted_value(entries[i - 1], requirement_type) {
                Err(e) => Err(e),
                Ok((a, l, p)) => match (s_add(ta, a), s_add(tl, l)) {
                    (Some(ta2), Some(tl2)) => Ok(
                        (ta2, tl2, ps.push(I80F48 { bits: p as i128 })),
                    ),
                    _ => Err(SurroundfiError::MathError),
                },
            },
        }
    }
}

/// Totals over all entries of an engine.
pub open spec fn spec_health_components(
    entries: Seq<BankAccountWithPriceFeed>,
    requirement_type: RequirementType,
) -> Result<(int, int, Seq<I80F48>), SurroundfiError> {
    spec_health_prefix(entries, requirement_type, entries.len() as int)
}

/// The first entry bound to the given bank, front to back.
pub open spec fn spec_find_entry(
    entries: Seq<BankAccountWithPriceFeed>,
    bank_pk: u64,
    i: int,
) -> Option<int>
    decreases entries.len() - i,
{
    if i < 0 || i >= entries.len() {
        None
    } else if entries[i].balance.bank_pk == bank_pk {
        Some(i)
    } else {
        spec_find_entry(entries, bank_pk, i + 1)
    }
}

/// How many entries owe a non-negligible liability, and whether any of
/// them sits in an isolated-tier bank, over the first `i` entries.
pub open spec fn spec_liab_count_prefix(entries: Seq<BankAccountWithPriceFeed>, i: int) -> (
    int,
    bool,
)
    decreases i,
{
    if i <= 0 {
        (0, false)
    } else {
        let (n, iso) = spec_liab_count_prefix(entries, i - 1);
        let e = entries[i - 1];
        if !spec_is_empty(e.balance, BalanceSide::Liabilities) {
            (n + 1, iso || e.bank.config.risk_tier is Isolated)
        } else {
            (n, iso)
        }
    }
}

/// The isolated-tier exclusivity rule: where any liability-bearing entry
/// sits in an isolated-tier bank, it must be the only liability-bearing
/// entry of the account.
pub open spec fn spec_check_risk_tiers(entries: Seq<BankAccountWithPriceFeed>) -> Result<
    (),
    SurroundfiError,
> {
    let (n, iso) = spec_liab_count_prefix(entries, entries.len() as int);
    if iso && n != 1 {
        Err(SurroundfiError::IsolatedAccountIllegalState)
    } else {
        Ok(())
    }
}

/// The pre-liquidation condition on a liquidatee against its liability
/// bank: not mid-flashloan; the balance there owes a non-negligible
/// liability and holds no assets; and maintenance health is not positive.
/// Yields that health.
pub open spec fn spec_pre_liquidation(
    account_flags: u64,
    entries: Seq<BankAccountWithPriceFeed>,
    bank_pk: u64,
) -> Result<int, SurroundfiError> {
    if account_flags & ACCOUNT_IN_FLASHLOAN != 0 {
        Err(SurroundfiError::AccountInFlashloan)
    } else {
        match spec_find_entry(entries, bank_pk, 0) {
            None => Err(SurroundfiError::LendingAccountBalanceNotFound),
            Some(idx) => {
                let e = entries[idx];
                if spec_is_empty(e.balance, BalanceSide::Liabilities) {
                    Err(SurroundfiError::NoLiabilitiesInLiabilityBank)
                } else if !spec_is_empty(e.balance, BalanceSide::Assets) {
                    Err(SurroundfiError::AssetsInLiabilityBank)
                } else {
                    match spec_health_components(entries, RequirementType::Maintenance) {
                        Err(err) => Err(err),
                        Ok((ta, tl, ps)) => match s_sub(ta, tl) {
                            None => Err(SurroundfiError::MathError),
                            Some(h) => if h > 0 {
                                Err(SurroundfiError::HealthyAccount)
                            } else {
                                Ok(h)
                            },
                        },
                    }
                }
            },
        }
    }
}

/// The post-liquidation condition: not mid-flashloan; the liability
/// balance is not exhausted and still holds no assets; maintenance health
/// is still not positive, yet strictly better than before the
/// liquidation. Yields the new health.
pub open spec fn spec_post_liquidation(
    account_flags: u64,
    entries: Seq<BankAccountWithPriceFeed>,
    bank_pk: u64,
    pre_liquidation_health: int,
) -> Result<int, SurroundfiError> {
    if account_flags & ACCOUNT_IN_FLASHLOAN != 0 {
        Err(SurroundfiError::AccountInFlashloan)
    } else {
        match spec_find_entry(entries, bank_pk, 0) {
            None => Err(SurroundfiError::LendingAccountBalanceNotFound),
            Some(idx) => {
                let e = entries[idx];
                if spec_is_empty(e.balance, BalanceSide::Liabilities) {
                    Err(SurroundfiError::ExhaustedLiability)
                } else if !spec_is_empty(e.balance, BalanceSide::Assets) {
                    Err(SurroundfiError::TooSeverePayoff)
                } else {
                    match spec_health_components(entries, RequirementType::Maintenance) {
                        Err(err) => Err(err),
                        Ok((ta, tl, ps)) => match s_sub(ta, tl) {
                            None => Err(SurroundfiError::MathError),
                            Some(h) => if h > 0 {
                                Err(SurroundfiError::TooSevereLiquidation)
                            } else if !(h > pre_liquidation_health) {
                                Err(SurroundfiError::WorseHealthPostLiquidation)
                            } else {
                                Ok(h)
                            },
                        },
                    }
                }
            },
        }
    }
}

/// The bankruptcy condition: equity-valued assets strictly below
/// liabilities, assets below the absolute bankruptcy threshold, and
/// liabilities above the negligible-amount threshold; evaluated outside a
/// flashloan.
pub open spec fn spec_check_bankrupt(
    account_flags: u64,
    entries: Seq<BankAccountWithPriceFeed>,
) -> Result<(), SurroundfiError> {
    match spec_health_components(entries, RequirementType::Equity) {
        Err(err) => Err(err),
        Ok((ta, tl, ps)) => if account_flags & ACCOUNT_IN_FLASHLOAN != 0 {
            Err(SurroundfiError::AccountInFlashloan)
        } else if !(ta < tl) {
            Err(SurroundfiError::AccountNotBankrupt)
        } else if !(ta < BANKRUPT_THRESHOLD_BITS && tl > ZERO_AMOUNT_THRESHOLD_BITS) {
            Err(SurroundfiError::AccountNotBankrupt)
        } else {
            Ok(())
        },
    }
}

/// The initial health gate on a ledger, with its diagnostics. The first
/// component holds totals, per-entry prices, and verdict whenever the
/// valuation succeeds, a failing gate included, so off-chain consumers
/// see why; it is empty inside a flashloan and on a valuation error. The
/// second component is the outcome of the check itself: weighted assets
/// must cover weighted liabilities, and the isolated-tier rule must
/// hold.
pub open spec fn spec_init_health_check(
    account_flags: u64,
    balances: Seq<Balance>,
    inputs: Seq<BankOracleInput>,
    now: i64,
) -> (Option<(int, int, Seq<I80F48>, bool)>, Result<(), SurroundfiError>) {
    if account_flags & ACCOUNT_IN_FLASHLOAN != 0 {
        (None, Ok(()))
    } else {
        match spec_load(balances, inputs, now) {
            Err(e) => (None, Err(e)),
            Ok(es) => match spec_health_components(es, RequirementType::Initial) {
                Err(e) => (None, Err(e)),
                Ok((ta, tl, ps)) => if ta >= tl {
                    match spec_check_risk_tiers(es) {
                        Err(e) => (Some((ta, tl, ps, true)), Err(e)),
                        Ok(()) => (Some((ta, tl, ps, true)), Ok(())),
                    }
                } else {
                    (
                        Some((ta, tl, ps, false)),
                        Err(SurroundfiError::RiskEngineInitRejected),
                    )
                },
            },
        }
    }
}

/// The initial health gate over a bare ledger and flags; operation cores
/// apply it to their staged post-state before committing anything. The
/// returned cache holds totals and verdict whenever the valuation
/// succeeds, a failing gate included.
pub fn check_init_health_core(
    account_flags: u64,
    ledger: &LendingAccount,
    inputs: &Vec<BankOracleInput>,
    current_timestamp: i64,
) -> (r: (Option<HealthCache>, Result<(), SurroundfiError>))
    requires
        forall|j: int|
            0 <= j < inputs@.len() ==> (#[trigger] inputs@[j]).bank.mint_decimals
                < MAX_MINT_DECIMALS,
    ensures
        ({
            let (hc, res) = spec_init_health_check(
                account_flags,
                ledger.balances@,
                inputs@,
                current_timestamp,
            );
            &&& r.1 == res
            &&& match hc {
                None => r.0 is None,
                Some((ta, tl, ps, healthy)) => r.0 matches Some(c) && c.asset_value.bits == ta
                    && c.liability_value.bits == tl && c.prices@ == ps && c.timestamp == 0
                    && c.flags == if healthy {
                    crate::health_cache::HEALTHY_FLAG
                } else {
                    0u64
                },
            }
        }),
{
    if account_flags & ACCOUNT_IN_FLASHLOAN != 0 {
        return (None, Ok(()));
    }
    let entries = match BankAccountWithPriceFeed::load(ledger, inputs, current_timestamp) {
        Ok(es) => es,
        Err(e) => {
            return (None, Err(e));
        },
    };
    let engine = RiskEngine { account_flags, entries };
    let (total_assets, total_liabilities, prices) = match engine.get_account_health_components(
        RiskRequirementType::Initial,
    ) {
        Ok(v) => v,
        Err(e) => {
            return (None, Err(e));
        },
    };
    let healthy = total_assets.ge(total_liabilities);
    let mut cache = HealthCache::zeroed();
    cache.asset_value = total_assets;
    cache.liability_value = total_liabilities;
    cache.prices = prices;
    cache.set_healthy(healthy);
    proof {
        assert(0u64 | crate::health_cache::HEALTHY_FLAG == crate::health_cache::HEALTHY_FLAG)
            by (bit_vector);
        assert(0u64 & !crate::health_cache::HEALTHY_FLAG == 0u64) by (bit_vector);
    }
    if !healthy {
        return (Some(cache), Err(SurroundfiError::RiskEngineInitRejected));
    }
    match engine.check_account_risk_tiers() {
        Ok(()) => (Some(cache), Ok(())),
        Err(e) => (Some(cache), Err(e)),
    }
}

/// A failed prefix total stays failed as the prefix grows.
proof fn lemma_health_prefix_err_propagates(
    entries: Seq<BankAccountWithPriceFeed>,
    requirement_type: RequirementType,
    k: int,
    n: int,
)
    requires
        0 <= k <= n,
        spec_health_prefix(entries, requirement_type, k) is Err,
    ensures
        spec_health_prefix(entries, requirement_type, n) == spec_health_prefix(
            entries,
            requirement_type,
            k,
        ),
    decreases n - k,
{
    if k < n {
        lemma_health_prefix_err_propagates(entries, requirement_type, k, n - 1);
    }
}

/// Searching from the front is the same as searching from any point that
/// the search has already passed without a match.
proof fn lemma_find_entry_from(entries: Seq<BankAccountWithPriceFeed>, bank_pk: u64, k: int)
    requires
        0 <= k <= entries.len(),
        forall|j: int| 0 <= j < k ==> (#[trigger] entries[j]).balance.bank_pk != bank_pk,
    ensures
        spec_find_entry(entries, bank_pk, 0) == spec_find_entry(entries, bank_pk, k),
    decreases k,
{
    if k > 0 {
        lemma_find_entry_from(entries, bank_pk, k - 1);
    }
}

impl BankAccountWithPriceFeed {
    /// Pair each active balance of a ledger with the next host-supplied
    /// (bank, oracle) input, validating identities and feed freshness.
    pub fn load(
        lending_account: &LendingAccount,
        inputs: &Vec<BankOracleInput>,
        current_timestamp: i64,
    ) -> (r: Result<Vec<BankAccountWithPriceFeed>, SurroundfiError>)
        requires
            forall|j: int|
                0 <= j < inputs@.len() ==> (#[trigger] inputs@[j]).bank.mint_decimals
                    < MAX_MINT_DECIMALS,
        ensures
            match spec_load(lending_account.balances@, inputs@, current_timestamp) {
                Ok(es) => r matches Ok(v) && v@ == es && entries_wf(es),
                Err(e) => r == Err::<Vec<BankAccountWithPriceFeed>, SurroundfiError>(e),
            },
    {
        let balances_len = lending_account.balances.len();
        let mut result: Vec<BankAccountWithPriceFeed> = Vec::new();
        let mut i: usize = 0;
        let mut j: usize = 0;
        while i < balances_len
            invariant
                forall|jj: int|
                    0 <= jj < inputs@.len() ==> (#[trigger] inputs@[jj]).bank.mint_decimals
                        < MAX_MINT_DECIMALS,
                balances_len == lending_account.balances@.len(),
                i <= balances_len,
                j <= inputs@.len(),
                entries_wf(result@),
                ({
                    let full = spec_load(
                        lending_account.balances@,
                        inputs@,
                        current_timestamp,
                    );
                    match spec_load_from(
                        lending_account.balances@,
                        inputs@,
                        current_timestamp,
                        i as int,
                        j as int,
                    ) {
                        Ok(rest) => full == Ok::<_, SurroundfiError>(result@ + rest),
                        Err(e) => full == Err::<Seq<BankAccountWithPriceFeed>, _>(e),
                    }
                }),
            decreases balances_len - i,
        {
            let balance = lending_account.balances[i];
            if balance.is_active() {
                if j >= inputs.len() {
                    return Err(SurroundfiError::InvalidBankAccount);
                }
                let input = &inputs[j];
                if balance.bank_pk != input.bank_key {
                    return Err(SurroundfiError::InvalidBankAccount);
                }
                let price_feed = OraclePriceFeedAdapter::try_from_bank_config(
                    &input.bank.config,
                    &input.feed,
                    current_timestamp,
                );
                let entry = BankAccountWithPriceFeed { bank: input.bank, price_feed, balance };
                proof {
                    let bs = lending_account.balances@;
                    let is = inputs@;
                    match spec_load_from(bs, is, current_timestamp, i + 1, j + 1) {
                        Ok(rest2) => {
                            assert(result@.push(entry) + rest2 =~= result@ + (seq![entry]
                                + rest2));
                        },
                        Err(e) => {},
                    }
                }
                result.push(entry);
                j = j + 1;
            }
            i = i + 1;
        }
        Ok(result)
    }

    /// Whether this entry's balance is negligible on the given side.
    pub fn is_empty(&self, side: BalanceSide) -> (r: bool)
        ensures
            r == spec_is_empty(self.balance, side),
    {
        self.balance.is_empty(side)
    }

    /// The weighted asset value this entry contributes, with the price
    /// used: nothing for isolated-tier collateral; for Initial checks a
    /// failed feed is tolerated as zero, and the concentration discount
    /// may reduce the weight.
    fn calc_weighted_asset_value(&self, requirement_type: RequirementType) -> (r: Result<
        (I80F48, I80F48),
        SurroundfiError,
    >)
        requires
            self.bank.mint_decimals < MAX_MINT_DECIMALS,
        ensures
            match spec_weighted_asset_value(*self, requirement_type) {
                Ok((v, p)) => r == Ok::<(I80F48, I80F48), SurroundfiError>(
                    (I80F48 { bits: v as i128 }, I80F48 { bits: p as i128 }),
                ),
                Err(e) => r == Err::<(I80F48, I80F48), SurroundfiError>(e),
            },
    {
        match self.bank.config.risk_tier {
            RiskTier::Isolated => Ok((I80F48::zero(), I80F48::zero())),
            RiskTier::Collateral => {
                let feed = match &self.price_feed {
                    Err(e) => {
                        match requirement_type {
                            RequirementType::Initial => {
                                return Ok((I80F48::zero(), I80F48::zero()));
                            },
                            _ => {
                                return Err(*e);
                            },
                        }
                    },
                    Ok(f) => f,
                };
                let mut asset_weight = self.bank.config.get_weight(
                    requirement_type,
                    BalanceSide::Assets,
                );
                let lower_price = match feed.get_price_of_type(
                    requirement_type.get_oracle_price_type(),
                    Some(PriceBias::Low),
                ) {
                    Ok(p) => p,
                    Err(e) => {
                        return Err(e);
                    },
                };
                match requirement_type {
                    RequirementType::Initial => {
                        match self.bank.maybe_get_asset_weight_init_discount(lower_price) {
                            Ok(Some(discount)) => {
                                asset_weight = match asset_weight.checked_mul(discount) {
                                    Some(w) => w,
                                    None => {
                                        return Err(SurroundfiError::MathError);
                                    },
                                };
                            },
                            Ok(None) => {},
                            Err(e) => {
                                return Err(e);
                            },
                        }
                    },
                    _ => {},
                }
                let amount = match self.bank.get_asset_amount(self.balance.asset_shares) {
                    Ok(a) => a,
                    Err(e) => {
                        return Err(e);
                    },
                };
                match calc_value(
                    amount,
                    lower_price,
                    self.bank.mint_decimals,
                    Some(asset_weight),
                ) {
                    Ok(value) => Ok((value, lower_price)),
                    Err(e) => Err(e),
                }
            },
        }
    }

    /// The weighted liability value this entry contributes, with the
    /// price used; a liability can never tolerate a failed feed.
    fn calc_weighted_liab_value(&self, requirement_type: RequirementType) -> (r: Result<
        (I80F48, I80F48),
        SurroundfiError,
    >)
        requires
            self.bank.mint_decimals < MAX_MINT_DECIMALS,
        ensures
            match spec_weighted_liab_value(*self, requirement_type) {
                Ok((v, p)) => r == Ok::<(I80F48, I80F48), SurroundfiError>(
                    (I80F48 { bits: v as i128 }, I80F48 { bits: p as i128 }),
                ),
                Err(e) => r == Err::<(I80F48, I80F48), SurroundfiError>(e),
            },
    {
        let feed = match &self.price_feed {
            Err(e) => {
                return Err(*e);
            },
            Ok(f) => f,
        };
        let liability_weight = self.bank.config.get_weight(
            requirement_type,
            BalanceSide::Liabilities,
        );
        let higher_price = match feed.get_price_of_type(
            requirement_type.get_oracle_price_type(),
            Some(PriceBias::High),
        ) {
            Ok(p) => p,
            Err(e) => {
                return Err(e);
            },
        };
        let amount = match self.bank.get_liability_amount(self.balance.liability_shares) {
            Ok(a) => a,
            Err(e) => {
                return Err(e);
            },
        };
        match calc_value(amount, higher_price, self.bank.mint_decimals, Some(liability_weight)) {
            Ok(value) => Ok((value, higher_price)),
            Err(e) => Err(e),
        }
    }

    /// The (asset value, liability value, price) this entry contributes
    /// under a requirement type; an empty balance contributes nothing.
    pub fn calc_weighted_value(&self, requirement_type: RequirementType) -> (r: Result<
        (I80F48, I80F48, I80F48),
        SurroundfiError,
    >)
        requires
            self.bank.mint_decimals < MAX_MINT_DECIMALS,
        ensures
            match spec_weighted_value(*self, requirement_type) {
                Ok((a, l, p)) => r == Ok::<(I80F48, I80F48, I80F48), SurroundfiError>(
                    (
                        I80F48 { bits: a as i128 },
                        I80F48 { bits: l as i128 },
                        I80F48 { bits: p as i128 },
                    ),
                ),
                Err(e) => r == Err::<(I80F48, I80F48, I80F48), SurroundfiError>(e),
            },
    {
        match self.balance.get_side() {
            None => Ok((I80F48::zero(), I80F48::zero(), I80F48::zero())),
            Some(BalanceSide::Assets) => match self.calc_weighted_asset_value(requirement_type) {
                Ok((value, price)) => Ok((value, I80F48::zero(), price)),
                Err(e) => Err(e),
            },
            Some(BalanceSide::Liabilities) => match self.calc_weighted_liab_value(
                requirement_type,
            ) {
                Ok((value, price)) => Ok((I80F48::zero(), value, price)),
                Err(e) => Err(e),
            },
        }
    }
}

/// The per-balance weight regime a whole-account requirement values
/// under.
pub open spec fn spec_weight_type(requirement_type: RiskRequirementType) -> RequirementType {
    match requirement_type {
        RiskRequirementType::Initial => RequirementType::Initial,
        RiskRequirementType::Maintenance => RequirementType::Maintenance,
        RiskRequirementType::Equity => RequirementType::Equity,
    }
}

/// The risk engine for one account: its flags and one valued entry per
/// active balance.
#[derive(Clone, Debug)]
pub struct RiskEngine {
    /// The account's bitfield flags at engine construction.
    pub account_flags: u64,
    /// One entry per active balance, in ledger order.
    pub entries: Vec<BankAccountWithPriceFeed>,
}

impl RiskEngine {
    /// Build the engine for an account; refused mid-flashloan.
    pub fn new(
        account: &SurroundfiAccount,
        inputs: &Vec<BankOracleInput>,
        current_timestamp: i64,
    ) -> (r: Result<RiskEngine, SurroundfiError>)
        requires
            forall|j: int|
                0 <= j < inputs@.len() ==> (#[trigger] inputs@[j]).bank.mint_decimals
                    < MAX_MINT_DECIMALS,
        ensures
            account.account_flags & ACCOUNT_IN_FLASHLOAN != 0 ==> r == Err::<
                RiskEngine,
                SurroundfiError,
            >(SurroundfiError::AccountInFlashloan),
            account.account_flags & ACCOUNT_IN_FLASHLOAN == 0 ==> match spec_load(
                account.lending_account.balances@,
                inputs@,
                current_timestamp,
            ) {
                Ok(es) => r matches Ok(engine) && engine.entries@ == es && engine.account_flags
                    == account.account_flags && entries_wf(es),
                Err(e) => r == Err::<RiskEngine, SurroundfiError>(e),
            },
    {
        if account.get_flag(ACCOUNT_IN_FLASHLOAN) {
            return Err(SurroundfiError::AccountInFlashloan);
        }
        Self::new_no_flashloan_check(account, inputs, current_timestamp)
    }

    /// Build the engine without the flashloan refusal; the flashloan-end
    /// path re-checks health through this.
    fn new_no_flashloan_check(
        account: &SurroundfiAccount,
        inputs: &Vec<BankOracleInput>,
        current_timestamp: i64,
    ) -> (r: Result<RiskEngine, SurroundfiError>)
        requires
            forall|j: int|
                0 <= j < inputs@.len() ==> (#[trigger] inputs@[j]).bank.mint_decimals
                    < MAX_MINT_DECIMALS,
        ensures
            match spec_load(account.lending_account.balances@, inputs@, current_timestamp) {
                Ok(es) => r matches Ok(engine) && engine.entries@ == es && engine.account_flags
                    == account.account_flags && entries_wf(es),
                Err(e) => r == Err::<RiskEngine, SurroundfiError>(e),
            },
    {
        let entries = match BankAccountWithPriceFeed::load(
            &account.lending_account,
            inputs,
            current_timestamp,
        ) {
            Ok(es) => es,
            Err(e) => {
                return Err(e);
            },
        };
        Ok(RiskEngine { account_flags: account.account_flags, entries })
    }

    /// The account's weighted totals under a requirement, as (assets,
    /// liabilities, per-entry prices).
    pub fn get_account_health_components(&self, requirement_type: RiskRequirementType) -> (r:
        Result<(I80F48, I80F48, Vec<I80F48>), SurroundfiError>)
        requires
            entries_wf(self.entries@),
        ensures
            match spec_health_components(self.entries@, spec_weight_type(requirement_type)) {
                Ok((ta, tl, ps)) => r matches Ok((a, l, p)) && a.bits == ta && l.bits == tl && p@
                    == ps,
                Err(e) => r == Err::<(I80F48, I80F48, Vec<I80F48>), SurroundfiError>(e),
            },
    {
        let weight_type = requirement_type.to_weight_type();
        let n = self.entries.len();
        let mut total_assets = I80F48::zero();
        let mut total_liabilities = I80F48::zero();
        let mut prices: Vec<I80F48> = Vec::new();
        let mut i: usize = 0;
        while i < n
            invariant
                entries_wf(self.entries@),
                n == self.entries@.len(),
                i <= n,
                weight_type == spec_weight_type(requirement_type),
                spec_health_prefix(self.entries@, weight_type, i as int) == Ok::<
                    _,
                    SurroundfiError,
                >((total_assets.bits as int, total_liabilities.bits as int, prices@)),
            decreases n - i,
        {
            let (asset_val, liab_val, price) = match self.entries[i].calc_weighted_value(
                weight_type,
            ) {
                Ok(v) => v,
                Err(e) => {
                    proof {
                        lemma_health_prefix_err_propagates(
                            self.entries@,
                            weight_type,
                            i + 1,
                            n as int,
                        );
                    }
                    return Err(e);
                },
            };
            let new_assets = match total_assets.checked_add(asset_val) {
                Some(v) => v,
                None => {
                    proof {
                        lemma_health_prefix_err_propagates(
                            self.entries@,
                            weight_type,
                            i + 1,
                            n as int,
                        );
                    }
                    return Err(SurroundfiError::MathError);
                },
            };
            let new_liabs = match total_liabilities.checked_add(liab_val) {
                Some(v) => v,
                None => {
                    proof {
                        lemma_health_prefix_err_propagates(
                            self.entries@,
                            weight_type,
                            i + 1,
                            n as int,
                        );
                    }
                    return Err(SurroundfiError::MathError);
                },
            };
            total_assets = new_assets;
            total_liabilities = new_liabs;
            prices.push(price);
            i = i + 1;
        }
        Ok((total_assets, total_liabilities, prices))
    }

    /// The isolated-tier exclusivity rule: an account may owe in an
    /// isolated bank only if that is its only liability.
    pub fn check_account_risk_tiers(&self) -> (r: Result<(), SurroundfiError>)
        ensures
            r == spec_check_risk_tiers(self.entries@),
    {
        let n = self.entries.len();
        let mut count: usize = 0;
        let mut any_isolated = false;
        let mut i: usize = 0;
        while i < n
            invariant
                n == self.entries@.len(),
                i <= n,
                count <= i,
                (count as int, any_isolated) == spec_liab_count_prefix(self.entries@, i as int),
            decreases n - i,
        {
            let e = &self.entries[i];
            if !e.is_empty(BalanceSide::Liabilities) {
                count = count + 1;
                let isolated = match e.bank.config.risk_tier {
                    RiskTier::Isolated => true,
                    RiskTier::Collateral => false,
                };
                any_isolated = any_isolated || isolated;
            }
            i = i + 1;
        }
        if any_isolated && count != 1 {
            Err(SurroundfiError::IsolatedAccountIllegalState)
        } else {
            Ok(())
        }
    }

    /// The index of this engine's entry for the given bank, if any.
    fn find_entry_index(&self, bank_pk: u64) -> (r: Option<usize>)
        ensures
            match r {
                Some(i) => i < self.entries@.len() && spec_find_entry(self.entries@, bank_pk, 0)
                    == Some(i as int),
                None => spec_find_entry(self.entries@, bank_pk, 0) is None,
            },
    {
        let n = self.entries.len();
        let mut i: usize = 0;
        while i < n
            invariant
                n == self.entries@.len(),
                i <= n,
                forall|j: int|
                    0 <= j < i ==> (#[trigger] self.entries@[j]).balance.bank_pk != bank_pk,
            decreases n - i,
        {
            if self.entries[i].balance.bank_pk == bank_pk {
                proof {
                    lemma_find_entry_from(self.entries@, bank_pk, i as int);
                }
                return Some(i);
            }
            i = i + 1;
        }
        proof {
            lemma_find_entry_from(self.entries@, bank_pk, n as int);
        }
        None
    }

    /// Check the account is liquidatable against the given liability
    /// bank, and yield its (non-positive) maintenance health.
    pub fn check_pre_liquidation_condition_and_get_account_health(&self, bank_pk: u64) -> (r:
        Result<I80F48, SurroundfiError>)
        requires
            entries_wf(self.entries@),
        ensures
            match spec_pre_liquidation(self.account_flags, self.entries@, bank_pk) {
                Ok(h) => r == Ok::<I80F48, SurroundfiError>(I80F48 { bits: h as i128 }),
                Err(e) => r == Err::<I80F48, SurroundfiError>(e),
            },
    {
        if self.account_flags & ACCOUNT_IN_FLASHLOAN != 0 {
            return Err(SurroundfiError::AccountInFlashloan);
        }
        let idx = match self.find_entry_index(bank_pk) {
            Some(i) => i,
            None => {
                return Err(SurroundfiError::LendingAccountBalanceNotFound);
            },
        };
        let liability_bank_balance = &self.entries[idx];
        if liability_bank_balance.is_empty(BalanceSide::Liabilities) {
            return Err(SurroundfiError::NoLiabilitiesInLiabilityBank);
        }
        if !liability_bank_balance.is_empty(BalanceSide::Assets) {
            return Err(SurroundfiError::AssetsInLiabilityBank);
        }
        let (assets, liabs, _prices) = match self.get_account_health_components(
            RiskRequirementType::Maintenance,
        ) {
            Ok(v) => v,
            Err(e) => {
                return Err(e);
            },
        };
        let account_health = match assets.checked_sub(liabs) {
            Some(h) => h,
            None => {
                return Err(SurroundfiError::MathError);
            },
        };
        if account_health.gt(I80F48::zero()) {
            return Err(SurroundfiError::HealthyAccount);
        }
        Ok(account_health)
    }

    /// Check the liquidation left the account strictly healthier but
    /// still at or below the maintenance bar, with the target liability
    /// neither exhausted nor holding assets; yield the new health.
    pub fn check_post_liquidation_condition_and_get_account_health(
        &self,
        bank_pk: u64,
        pre_liquidation_health: I80F48,
    ) -> (r: Result<I80F48, SurroundfiError>)
        requires
            entries_wf(self.entries@),
        ensures
            match spec_post_liquidation(
                self.account_flags,
                self.entries@,
                bank_pk,
                pre_liquidation_health.bits as int,
            ) {
                Ok(h) => r == Ok::<I80F48, SurroundfiError>(I80F48 { bits: h as i128 }),
                Err(e) => r == Err::<I80F48, SurroundfiError>(e),
            },
    {
        if self.account_flags & ACCOUNT_IN_FLASHLOAN != 0 {
            return Err(SurroundfiError::AccountInFlashloan);
        }
        let idx = match self.find_entry_index(bank_pk) {
            Some(i) => i,
            None => {
                return Err(SurroundfiError::LendingAccountBalanceNotFound);
            },
        };
        let liability_bank_balance = &self.entries[idx];
        if liability_bank_balance.is_empty(BalanceSide::Liabilities) {
            return Err(SurroundfiError::ExhaustedLiability);
        }
        if !liability_bank_balance.is_empty(BalanceSide::Assets) {
            return Err(SurroundfiError::TooSeverePayoff);
        }
        let (assets, liabs, _prices) = match self.get_account_health_components(
            RiskRequirementType::Maintenance,
        ) {
            Ok(v) => v,
            Err(e) => {
                return Err(e);
            },
        };
        let account_health = match assets.checked_sub(liabs) {
            Some(h) => h,
            None => {
                return Err(SurroundfiError::MathError);
            },
        };
        if account_health.gt(I80F48::zero()) {
            return Err(SurroundfiError::TooSevereLiquidation);
        }
        if !account_health.gt(pre_liquidation_health) {
            return Err(SurroundfiError::WorseHealthPostLiquidation);
        }
        Ok(account_health)
    }

    /// The initial health gate, run after any operation that increases
    /// risk: skipped wholesale inside a flashloan; otherwise weighted
    /// assets must cover weighted liabilities and the isolated-tier rule
    /// must hold. Yields the diagnostic cache when the engine ran.
    pub fn check_account_init_health(
        account: &SurroundfiAccount,
        inputs: &Vec<BankOracleInput>,
        current_timestamp: i64,
    ) -> (r: (Option<HealthCache>, Result<(), SurroundfiError>))
        requires
            forall|j: int|
                0 <= j < inputs@.len() ==> (#[trigger] inputs@[j]).bank.mint_decimals
                    < MAX_MINT_DECIMALS,
        ensures
            ({
                let (hc, res) = spec_init_health_check(
                    account.account_flags,
                    account.lending_account.balances@,
                    inputs@,
                    current_timestamp,
                );
                &&& r.1 == res
                &&& match hc {
                    None => r.0 is None,
                    Some((ta, tl, ps, healthy)) => r.0 matches Some(c) && c.asset_value.bits == ta
                        && c.liability_value.bits == tl && c.prices@ == ps && c.timestamp == 0
                        && c.flags == if healthy {
                        crate::health_cache::HEALTHY_FLAG
                    } else {
                        0u64
                    },
                }
            }),
    {
        check_init_health_core(
            account.account_flags,
            &account.lending_account,
            inputs,
            current_timestamp,
        )
    }

    /// Check the account is bankrupt: insolvent under equity valuation,
    /// with assets below the bankruptcy threshold and a non-negligible
    /// debt.
    pub fn check_account_bankrupt(&self) -> (r: Result<(), SurroundfiError>)
        requires
            entries_wf(self.entries@),
        ensures
            r == spec_check_bankrupt(self.account_flags, self.entries@),
    {
        let (total_assets, total_liabilities, _prices) = match self.get_account_health_components(
            RiskRequirementType::Equity,
        ) {
            Ok(v) => v,
            Err(e) => {
                return Err(e);
            },
        };
        if self.account_flags & ACCOUNT_IN_FLASHLOAN != 0 {
            return Err(SurroundfiError::AccountInFlashloan);
        }
        if !total_assets.lt(total_liabilities) {
            return Err(SurroundfiError::AccountNotBankrupt);
        }
        if !(total_assets.lt(I80F48 { bits: BANKRUPT_THRESHOLD_BITS }) && total_liabilities.gt(
            I80F48 { bits: ZERO_AMOUNT_THRESHOLD_BITS },
        )) {
            return Err(SurroundfiError::AccountNotBankrupt);
        }
        Ok(())
    }
}

} // verus!
