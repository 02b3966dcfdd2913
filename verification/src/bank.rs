//! Per-asset pool state: configuration (weights, limits, interest curve,
//! oracle binding, operational state, risk tier, asset tag), the share-price
//! accumulators, fee accumulators, and the conversions between share units
//! and token amounts. Every mutation either fully commits or leaves the bank
//! unchanged and reports the error.

use vstd::prelude::*;
use crate::constants::{FREEZE_SETTINGS, LIMIT_INACTIVE, TOTAL_ASSET_VALUE_INIT_LIMIT_INACTIVE};
use crate::errors::SurroundfiError;
use crate::i80f48::{div_bits, fits_i128, mul_bits, I80F48, FRAC_SCALE};

verus! {

/// Whether a bank's deposits may back loans elsewhere, or are isolated.
#[derive(Clone, Copy, Debug, PartialEq, Eq, Structural)]
pub enum RiskTier {
    /// Deposits count as collateral for the whole account.
    Collateral,
    /// Deposits never count as collateral, and the account is capped to one
    /// liability bank.
    Isolated,
}

/// What operations a bank currently permits.
#[derive(Clone, Copy, Debug, PartialEq, Eq, Structural)]
pub enum BankOperationalState {
    /// Nothing is permitted.
    Paused,
    /// Everything is permitted.
    Operational,
    /// Only risk-reducing operations (withdraw, repay) are permitted.
    ReduceOnly,
}

/// The oracle wire format a bank's price feed uses.
#[derive(Clone, Copy, Debug, PartialEq, Eq, Structural)]
pub enum OracleSetup {
    /// No oracle bound yet.
    NoOracle,
    /// Legacy push-style feed.
    PythLegacy,
    /// Pull-style feed.
    PythPushOracle,
    /// Pull-style feed for staked collateral; needs two extra accounts.
    StakedWithPythPush,
}

/// Parameters of the piecewise-linear interest curve and the fee carve-outs
/// layered on the borrow rate. Rates are annualized fixed-point fractions.
#[derive(Clone, Copy, Debug, PartialEq, Eq, Structural)]
pub struct InterestRateConfig {
    /// Utilization at which the curve switches from the first to the second
    /// segment.
    pub optimal_utilization_rate: I80F48,
    /// Borrow rate at optimal utilization.
    pub plateau_interest_rate: I80F48,
    /// Borrow rate at full utilization.
    pub max_interest_rate: I80F48,
    /// Flat annual fee routed to the insurance fund.
    pub insurance_fee_fixed_apr: I80F48,
    /// Fraction of the base rate routed to the insurance fund.
    pub insurance_ir_fee: I80F48,
    /// Flat annual fee routed to the group.
    pub protocol_fixed_fee_apr: I80F48,
    /// Fraction of the base rate routed to the group.
    pub protocol_ir_fee: I80F48,
    /// One-off fee taken on each borrow.
    pub protocol_origination_fee: I80F48,
}

/// Per-bank configuration.
#[derive(Clone, Copy, Debug, PartialEq, Eq, Structural)]
pub struct BankConfig {
    /// Weight of deposits for the strict, pre-risk-increase check.
    pub asset_weight_init: I80F48,
    /// Weight of deposits for the liquidation-trigger check.
    pub asset_weight_maint: I80F48,
    /// Weight of borrows for the strict, pre-risk-increase check.
    pub liability_weight_init: I80F48,
    /// Weight of borrows for the liquidation-trigger check.
    pub liability_weight_maint: I80F48,
    /// Cap on total deposited amount, in native units; the maximum integer
    /// means no cap.
    pub deposit_limit: u64,
    /// Cap on total borrowed amount, in native units; the maximum integer
    /// means no cap.
    pub borrow_limit: u64,
    /// The interest curve and fee parameters.
    pub interest_rate_config: InterestRateConfig,
    /// What operations the bank currently permits.
    pub operational_state: BankOperationalState,
    /// The oracle wire format bound to this bank.
    pub oracle_setup: OracleSetup,
    /// Identity of the bound oracle feed.
    pub oracle_key: u64,
    /// Maximum accepted age of the oracle's last update, in seconds.
    pub oracle_max_age: u64,
    /// Whether deposits here may collateralize loans elsewhere.
    pub risk_tier: RiskTier,
    /// Classification of the underlying token.
    pub asset_tag: u8,
    /// Soft cap in dollars above which the init asset weight is discounted;
    /// zero means the discount is off.
    pub total_asset_value_init_limit: u64,
}

/// Which side of a balance a weight applies to.
#[derive(Clone, Copy, Debug, PartialEq, Eq, Structural)]
pub enum BalanceSide {
    Assets,
    Liabilities,
}

/// The check a weight is being fetched for. Initial gates risk-increasing
/// operations with conservative weights; Maintenance triggers liquidations;
/// Equity values everything at par for bankruptcy decisions.
#[derive(Clone, Copy, Debug, PartialEq, Eq, Structural)]
pub enum RequirementType {
    Initial,
    Maintenance,
    Equity,
}

/// The weight `get_weight` returns for each requirement type and side.
pub open spec fn spec_get_weight(
    config: BankConfig,
    requirement_type: RequirementType,
    side: BalanceSide,
) -> I80F48 {
    match (requirement_type, side) {
        (RequirementType::Initial, BalanceSide::Assets) => config.asset_weight_init,
        (RequirementType::Initial, BalanceSide::Liabilities) => config.liability_weight_init,
        (RequirementType::Maintenance, BalanceSide::Assets) => config.asset_weight_maint,
        (RequirementType::Maintenance, BalanceSide::Liabilities) => config.liability_weight_maint,
        (RequirementType::Equity, _) => I80F48 { bits: FRAC_SCALE },
    }
}

impl BankConfig {
    /// The valuation weight for one side of a balance under one requirement
    /// type: configured weights for Initial and Maintenance, par for Equity.
    pub fn get_weight(&self, requirement_type: RequirementType, side: BalanceSide) -> (r: I80F48)
        ensures
            r == spec_get_weight(*self, requirement_type, side),
    {
        match (requirement_type, side) {
            (RequirementType::Initial, BalanceSide::Assets) => self.asset_weight_init,
            (RequirementType::Initial, BalanceSide::Liabilities) => self.liability_weight_init,
            (RequirementType::Maintenance, BalanceSide::Assets) => self.asset_weight_maint,
            (RequirementType::Maintenance, BalanceSide::Liabilities) => self.liability_weight_maint,
            (RequirementType::Equity, _) => I80F48::one(),
        }
    }

    /// Whether the deposit cap is switched on.
    pub fn is_deposit_limit_active(&self) -> (r: bool)
        ensures
            r == (self.deposit_limit != LIMIT_INACTIVE),
    {
        self.deposit_limit != LIMIT_INACTIVE
    }

    /// Whether the borrow cap is switched on.
    pub fn is_borrow_limit_active(&self) -> (r: bool)
        ensures
            r == (self.borrow_limit != LIMIT_INACTIVE),
    {
        self.borrow_limit != LIMIT_INACTIVE
    }

    /// Whether the soft cap with the init-weight discount is switched on.
    pub fn usd_init_limit_active(&self) -> (r: bool)
        ensures
            r == (self.total_asset_value_init_limit != TOTAL_ASSET_VALUE_INIT_LIMIT_INACTIVE),
    {
        self.total_asset_value_init_limit != TOTAL_ASSET_VALUE_INIT_LIMIT_INACTIVE
    }
}

/// One per supported asset: the pool record the whole protocol revolves
/// around.
#[derive(Clone, Copy, Debug, PartialEq, Eq, Structural)]
pub struct Bank {
    /// Identity of the owning group.
    pub group: u64,
    /// Identity of the underlying mint.
    pub mint: u64,
    /// Decimals of the underlying mint.
    pub mint_decimals: u8,
    /// Price of one asset share in native units; grows as interest accrues.
    pub asset_share_value: I80F48,
    /// Price of one liability share in native units; grows as interest
    /// accrues.
    pub liability_share_value: I80F48,
    /// Sum of all asset shares across balances.
    pub total_asset_shares: I80F48,
    /// Sum of all liability shares across balances.
    pub total_liability_shares: I80F48,
    /// Insurance fees accrued and not yet moved, in native units.
    pub collected_insurance_fees_outstanding: I80F48,
    /// Group fees accrued and not yet moved, in native units.
    pub collected_group_fees_outstanding: I80F48,
    /// Program fees accrued and not yet moved, in native units.
    pub collected_program_fees_outstanding: I80F48,
    /// Time of the last interest accrual.
    pub last_update: i64,
    /// Bank bitfield flags.
    pub flags: u64,
    /// Emissions distributed per year for a full share of activity.
    pub emissions_rate: u64,
    /// Emissions still available for distribution.
    pub emissions_remaining: I80F48,
    /// Identity of the emissions mint.
    pub emissions_mint: u64,
    /// The bank's configuration.
    pub config: BankConfig,
}

/// Outcome of changing a bank's total asset shares by a delta: the new
/// total, guarded by the deposit cap on increases unless bypassed.
pub open spec fn spec_change_asset_shares(bank: Bank, shares: I80F48, bypass_deposit_limit: bool) -> Result<
    Bank,
    SurroundfiError,
> {
    let total = bank.total_asset_shares.bits + shares.bits;
    if !fits_i128(total) {
        Err(SurroundfiError::MathError)
    } else {
        let updated = Bank { total_asset_shares: I80F48 { bits: total as i128 }, ..bank };
        if shares.bits > 0 && bank.config.deposit_limit != LIMIT_INACTIVE && !bypass_deposit_limit {
            let amount = mul_bits(total, bank.asset_share_value.bits as int);
            if !fits_i128(amount) {
                Err(SurroundfiError::MathError)
            } else if amount >= bank.config.deposit_limit * FRAC_SCALE {
                Err(SurroundfiError::BankAssetCapacityExceeded)
            } else {
                Ok(updated)
            }
        } else {
            Ok(updated)
        }
    }
}

/// Outcome of changing a bank's total liability shares by a delta: the new
/// total, guarded by the borrow cap on increases unless bypassed.
pub open spec fn spec_change_liability_shares(
    bank: Bank,
    shares: I80F48,
    bypass_borrow_limit: bool,
) -> Result<Bank, SurroundfiError> {
    let total = bank.total_liability_shares.bits + shares.bits;
    if !fits_i128(total) {
        Err(SurroundfiError::MathError)
    } else {
        let updated = Bank { total_liability_shares: I80F48 { bits: total as i128 }, ..bank };
        if shares.bits > 0 && bank.config.borrow_limit != LIMIT_INACTIVE && !bypass_borrow_limit {
            let amount = mul_bits(total, bank.liability_share_value.bits as int);
            if !fits_i128(amount) {
                Err(SurroundfiError::MathError)
            } else if amount >= bank.config.borrow_limit * FRAC_SCALE {
                Err(SurroundfiError::BankLiabilityCapacityExceeded)
            } else {
                Ok(updated)
            }
        } else {
            Ok(updated)
        }
    }
}

/// Whether outstanding liabilities are still covered by deposits: the
/// total liability value must not exceed the total asset value.
pub open spec fn spec_check_utilization_ratio(bank: Bank) -> Result<(), SurroundfiError> {
    let assets = mul_bits(bank.total_asset_shares.bits as int, bank.asset_share_value.bits as int);
    let liabs = mul_bits(
        bank.total_liability_shares.bits as int,
        bank.liability_share_value.bits as int,
    );
    if !fits_i128(assets) || !fits_i128(liabs) {
        Err(SurroundfiError::MathError)
    } else if assets >= liabs {
        Ok(())
    } else {
        Err(SurroundfiError::IllegalUtilizationRatio)
    }
}

/// Outcome of spreading a loss across all lenders: the asset share value
/// drops so that the pool's total asset value falls by exactly the loss.
pub open spec fn spec_socialize_loss(bank: Bank, loss: I80F48) -> Result<Bank, SurroundfiError> {
    let total_value = mul_bits(
        bank.total_asset_shares.bits as int,
        bank.asset_share_value.bits as int,
    );
    if !fits_i128(total_value) {
        Err(SurroundfiError::MathError)
    } else if !fits_i128(total_value - loss.bits) {
        Err(SurroundfiError::MathError)
    } else if bank.total_asset_shares.bits == 0 {
        Err(SurroundfiError::MathError)
    } else {
        let new_value = div_bits(total_value - loss.bits, bank.total_asset_shares.bits as int);
        if !fits_i128(new_value) {
            Err(SurroundfiError::MathError)
        } else {
            Ok(Bank { asset_share_value: I80F48 { bits: new_value as i128 }, ..bank })
        }
    }
}

impl Bank {
    /// Whether the given bank flag is set.
    pub fn get_flag(&self, flag: u64) -> (r: bool)
        ensures
            r == (self.flags & flag != 0),
    {
        self.flags & flag != 0
    }

    /// Set the given bank flag.
    pub fn set_flag(&mut self, flag: u64)
        ensures
            *final(self) == (Bank { flags: old(self).flags | flag, ..*old(self) }),
    {
        self.flags = self.flags | flag;
    }

    /// Clear the given bank flag.
    pub fn unset_flag(&mut self, flag: u64)
        ensures
            *final(self) == (Bank { flags: old(self).flags & !flag, ..*old(self) }),
    {
        self.flags = self.flags & !flag;
    }

    /// Replace the emissions flags wholesale.
    pub fn override_emissions_flag(&mut self, flag: u64)
        ensures
            *final(self) == (Bank { flags: flag, ..*old(self) }),
    {
        self.flags = flag;
    }

    /// The token amount the given asset shares are worth: shares times the
    /// asset share value. Errors only where the product leaves the
    /// fixed-point range.
    pub fn get_asset_amount(&self, shares: I80F48) -> (r: Result<I80F48, SurroundfiError>)
        ensures
            fits_i128(mul_bits(shares.bits as int, self.asset_share_value.bits as int)) ==> r == Ok::<
                _,
                SurroundfiError,
            >(I80F48 { bits: mul_bits(shares.bits as int, self.asset_share_value.bits as int) as i128 }),
            !fits_i128(mul_bits(shares.bits as int, self.asset_share_value.bits as int)) ==> r == Err::<
                I80F48,
                _,
            >(SurroundfiError::MathError),
    {
        match shares.checked_mul(self.asset_share_value) {
            Some(v) => Ok(v),
            None => Err(SurroundfiError::MathError),
        }
    }

    /// The token amount the given liability shares are worth: shares times
    /// the liability share value.
    pub fn get_liability_amount(&self, shares: I80F48) -> (r: Result<I80F48, SurroundfiError>)
        ensures
            fits_i128(mul_bits(shares.bits as int, self.liability_share_value.bits as int)) ==> r
                == Ok::<_, SurroundfiError>(
                I80F48 { bits: mul_bits(shares.bits as int, self.liability_share_value.bits as int) as i128 },
            ),
            !fits_i128(mul_bits(shares.bits as int, self.liability_share_value.bits as int)) ==> r
                == Err::<I80F48, _>(SurroundfiError::MathError),
    {
        match shares.checked_mul(self.liability_share_value) {
            Some(v) => Ok(v),
            None => Err(SurroundfiError::MathError),
        }
    }

    /// The asset shares the given token amount buys: amount divided by the
    /// asset share value. Errors on a zero share value or overflow.
    pub fn get_asset_shares(&self, value: I80F48) -> (r: Result<I80F48, SurroundfiError>)
        ensures
            self.asset_share_value.bits != 0 && fits_i128(
                div_bits(value.bits as int, self.asset_share_value.bits as int),
            ) ==> r == Ok::<_, SurroundfiError>(
                I80F48 { bits: div_bits(value.bits as int, self.asset_share_value.bits as int) as i128 },
            ),
            !(self.asset_share_value.bits != 0 && fits_i128(
                div_bits(value.bits as int, self.asset_share_value.bits as int),
            )) ==> r == Err::<I80F48, _>(SurroundfiError::MathError),
    {
        match value.checked_div(self.asset_share_value) {
            Some(v) => Ok(v),
            None => Err(SurroundfiError::MathError),
        }
    }

    /// The liability shares the given token amount corresponds to: amount
    /// divided by the liability share value.
    pub fn get_liability_shares(&self, value: I80F48) -> (r: Result<I80F48, SurroundfiError>)
        ensures
            self.liability_share_value.bits != 0 && fits_i128(
                div_bits(value.bits as int, self.liability_share_value.bits as int),
            ) ==> r == Ok::<_, SurroundfiError>(
                I80F48 { bits: div_bits(value.bits as int, self.liability_share_value.bits as int) as i128 },
            ),
            !(self.liability_share_value.bits != 0 && fits_i128(
                div_bits(value.bits as int, self.liability_share_value.bits as int),
            )) ==> r == Err::<I80F48, _>(SurroundfiError::MathError),
    {
        match value.checked_div(self.liability_share_value) {
            Some(v) => Ok(v),
            None => Err(SurroundfiError::MathError),
        }
    }

    /// Change the bank-wide asset share total by a delta, enforcing the
    /// deposit cap on increases unless the liquidation path bypasses it.
    /// On error the bank is unchanged.
    pub fn change_asset_shares(&mut self, shares: I80F48, bypass_deposit_limit: bool) -> (r: Result<
        (),
        SurroundfiError,
    >)
        ensures
            match spec_change_asset_shares(*old(self), shares, bypass_deposit_limit) {
                Ok(b) => r == Ok::<(), SurroundfiError>(()) && *final(self) == b,
                Err(e) => r == Err::<(), SurroundfiError>(e) && *final(self) == *old(self),
            },
    {
        let total = match self.total_asset_shares.checked_add(shares) {
            Some(t) => t,
            None => {
                return Err(SurroundfiError::MathError);
            },
        };
        if shares.is_positive() && self.config.is_deposit_limit_active() && !bypass_deposit_limit {
            let amount = match total.checked_mul(self.asset_share_value) {
                Some(a) => a,
                None => {
                    return Err(SurroundfiError::MathError);
                },
            };
            let limit = I80F48::from_num(self.config.deposit_limit);
            if amount.ge(limit) {
                return Err(SurroundfiError::BankAssetCapacityExceeded);
            }
        }
        self.total_asset_shares = total;
        Ok(())
    }

    /// Change the bank-wide liability share total by a delta, enforcing the
    /// borrow cap on increases unless the liquidation path bypasses it.
    /// On error the bank is unchanged.
    pub fn change_liability_shares(&mut self, shares: I80F48, bypass_borrow_limit: bool) -> (r:
        Result<(), SurroundfiError>)
        ensures
            match spec_change_liability_shares(*old(self), shares, bypass_borrow_limit) {
                Ok(b) => r == Ok::<(), SurroundfiError>(()) && *final(self) == b,
                Err(e) => r == Err::<(), SurroundfiError>(e) && *final(self) == *old(self),
            },
    {
        let total = match self.total_liability_shares.checked_add(shares) {
            Some(t) => t,
            None => {
                return Err(SurroundfiError::MathError);
            },
        };
        if shares.is_positive() && self.config.is_borrow_limit_active() && !bypass_borrow_limit {
            let amount = match total.checked_mul(self.liability_share_value) {
                Some(a) => a,
                None => {
                    return Err(SurroundfiError::MathError);
                },
            };
            let limit = I80F48::from_num(self.config.borrow_limit);
            if amount.ge(limit) {
                return Err(SurroundfiError::BankLiabilityCapacityExceeded);
            }
        }
        self.total_liability_shares = total;
        Ok(())
    }

    /// Fail unless outstanding liabilities are still covered by deposits:
    /// the utilization ratio must not exceed one.
    pub fn check_utilization_ratio(&self) -> (r: Result<(), SurroundfiError>)
        ensures
            r == spec_check_utilization_ratio(*self),
    {
        let assets = match self.total_asset_shares.checked_mul(self.asset_share_value) {
            Some(a) => a,
            None => {
                return Err(SurroundfiError::MathError);
            },
        };
        let liabs = match self.total_liability_shares.checked_mul(self.liability_share_value) {
            Some(l) => l,
            None => {
                return Err(SurroundfiError::MathError);
            },
        };
        if assets.ge(liabs) {
            Ok(())
        } else {
            Err(SurroundfiError::IllegalUtilizationRatio)
        }
    }

    /// Fail if the operational state forbids the operation: a paused bank
    /// forbids everything; a reduce-only bank forbids operations that
    /// increase the pool's risk.
    pub fn assert_operational_mode(&self, is_asset_or_liability_amount_increasing: Option<bool>) -> (r:
        Result<(), SurroundfiError>)
        ensures
            self.config.operational_state is Paused ==> r == Err::<(), SurroundfiError>(
                SurroundfiError::BankPaused,
            ),
            self.config.operational_state is Operational ==> r == Ok::<(), SurroundfiError>(()),
            self.config.operational_state is ReduceOnly ==> r == (
            if is_asset_or_liability_amount_increasing == Some(true) {
                Err::<(), SurroundfiError>(SurroundfiError::BankReduceOnly)
            } else {
                Ok::<(), SurroundfiError>(())
            }),
    {
        match self.config.operational_state {
            BankOperationalState::Paused => Err(SurroundfiError::BankPaused),
            BankOperationalState::Operational => Ok(()),
            BankOperationalState::ReduceOnly => {
                match is_asset_or_liability_amount_increasing {
                    Some(true) => Err(SurroundfiError::BankReduceOnly),
                    _ => Ok(()),
                }
            },
        }
    }

    /// Spread uncovered bad debt across all lenders by lowering the asset
    /// share value so that the pool's total asset value falls by the loss.
    /// On error the bank is unchanged.
    pub fn socialize_loss(&mut self, loss: I80F48) -> (r: Result<(), SurroundfiError>)
        ensures
            match spec_socialize_loss(*old(self), loss) {
                Ok(b) => r == Ok::<(), SurroundfiError>(()) && *final(self) == b,
                Err(e) => r == Err::<(), SurroundfiError>(e) && *final(self) == *old(self),
            },
    {
        let total_value = match self.total_asset_shares.checked_mul(self.asset_share_value) {
            Some(v) => v,
            None => {
                return Err(SurroundfiError::MathError);
            },
        };
        let remaining = match total_value.checked_sub(loss) {
            Some(v) => v,
            None => {
                return Err(SurroundfiError::MathError);
            },
        };
        let new_value = match remaining.checked_div(self.total_asset_shares) {
            Some(v) => v,
            None => {
                return Err(SurroundfiError::MathError);
            },
        };
        self.asset_share_value = new_value;
        Ok(())
    }
}

/// A partial update an admin may apply to a bank's configuration; every
/// field is optional and unnamed fields keep their value.
#[derive(Clone, Copy, Debug)]
pub struct BankConfigOpt {
    /// New init asset weight.
    pub asset_weight_init: Option<I80F48>,
    /// New maintenance asset weight.
    pub asset_weight_maint: Option<I80F48>,
    /// New init liability weight.
    pub liability_weight_init: Option<I80F48>,
    /// New maintenance liability weight.
    pub liability_weight_maint: Option<I80F48>,
    /// New deposit cap.
    pub deposit_limit: Option<u64>,
    /// New borrow cap.
    pub borrow_limit: Option<u64>,
    /// New operational state.
    pub operational_state: Option<BankOperationalState>,
    /// New interest curve and fee parameters.
    pub interest_rate_config: Option<InterestRateConfig>,
    /// New risk tier.
    pub risk_tier: Option<RiskTier>,
    /// New asset tag.
    pub asset_tag: Option<u8>,
    /// New dollar soft cap for the init-weight discount.
    pub total_asset_value_init_limit: Option<u64>,
    /// New maximum accepted oracle age.
    pub oracle_max_age: Option<u64>,
    /// Switch permissionless bad-debt settlement on or off.
    pub permissionless_bad_debt_settlement: Option<bool>,
    /// Freeze or thaw the bank's settings.
    pub freeze_settings: Option<bool>,
}

/// A value, or a fallback where there is none.
pub open spec fn opt_or<T>(o: Option<T>, fallback: T) -> T {
    match o {
        Some(v) => v,
        None => fallback,
    }
}

/// The bank a full configuration update yields: every given field
/// replaced, the two settlement/freeze flags toggled as requested.
pub open spec fn spec_configure(bank: Bank, opt: BankConfigOpt) -> Bank {
    let flags1 = match opt.permissionless_bad_debt_settlement {
        Some(true) => bank.flags | crate::constants::PERMISSIONLESS_BAD_DEBT_SETTLEMENT_FLAG,
        Some(false) => bank.flags & !crate::constants::PERMISSIONLESS_BAD_DEBT_SETTLEMENT_FLAG,
        None => bank.flags,
    };
    let flags2 = match opt.freeze_settings {
        Some(true) => flags1 | FREEZE_SETTINGS,
        Some(false) => flags1 & !FREEZE_SETTINGS,
        None => flags1,
    };
    Bank {
        config: BankConfig {
            asset_weight_init: opt_or(opt.asset_weight_init, bank.config.asset_weight_init),
            asset_weight_maint: opt_or(opt.asset_weight_maint, bank.config.asset_weight_maint),
            liability_weight_init: opt_or(
                opt.liability_weight_init,
                bank.config.liability_weight_init,
            ),
            liability_weight_maint: opt_or(
                opt.liability_weight_maint,
                bank.config.liability_weight_maint,
            ),
            deposit_limit: opt_or(opt.deposit_limit, bank.config.deposit_limit),
            borrow_limit: opt_or(opt.borrow_limit, bank.config.borrow_limit),
            operational_state: opt_or(opt.operational_state, bank.config.operational_state),
            interest_rate_config: opt_or(
                opt.interest_rate_config,
                bank.config.interest_rate_config,
            ),
            risk_tier: opt_or(opt.risk_tier, bank.config.risk_tier),
            asset_tag: opt_or(opt.asset_tag, bank.config.asset_tag),
            total_asset_value_init_limit: opt_or(
                opt.total_asset_value_init_limit,
                bank.config.total_asset_value_init_limit,
            ),
            oracle_max_age: opt_or(opt.oracle_max_age, bank.config.oracle_max_age),
            ..bank.config
        },
        flags: flags2,
        ..bank
    }
}

/// The bank a frozen-settings update yields: only the deposit and borrow
/// caps move.
pub open spec fn spec_configure_unfrozen_fields_only(bank: Bank, opt: BankConfigOpt) -> Bank {
    Bank {
        config: BankConfig {
            deposit_limit: opt_or(opt.deposit_limit, bank.config.deposit_limit),
            borrow_limit: opt_or(opt.borrow_limit, bank.config.borrow_limit),
            ..bank.config
        },
        ..bank
    }
}

impl Bank {
    /// Apply a full configuration update.
    #[verifier::rlimit(100)]
    pub fn configure(&mut self, opt: &BankConfigOpt) -> (r: Result<(), SurroundfiError>)
        ensures
            r == Ok::<(), SurroundfiError>(()),
            *final(self) == spec_configure(*old(self), *opt),
    {
        let c = self.config;
        self.config = BankConfig {
            asset_weight_init: match opt.asset_weight_init {
                Some(v) => v,
                None => c.asset_weight_init,
            },
            asset_weight_maint: match opt.asset_weight_maint {
                Some(v) => v,
                None => c.asset_weight_maint,
            },
            liability_weight_init: match opt.liability_weight_init {
                Some(v) => v,
                None => c.liability_weight_init,
            },
            liability_weight_maint: match opt.liability_weight_maint {
                Some(v) => v,
                None => c.liability_weight_maint,
            },
            deposit_limit: match opt.deposit_limit {
                Some(v) => v,
                None => c.deposit_limit,
            },
            borrow_limit: match opt.borrow_limit {
                Some(v) => v,
                None => c.borrow_limit,
            },
            operational_state: match opt.operational_state {
                Some(v) => v,
                None => c.operational_state,
            },
            interest_rate_config: match opt.interest_rate_config {
                Some(v) => v,
                None => c.interest_rate_config,
            },
            risk_tier: match opt.risk_tier {
                Some(v) => v,
                None => c.risk_tier,
            },
            asset_tag: match opt.asset_tag {
                Some(v) => v,
                None => c.asset_tag,
            },
            total_asset_value_init_limit: match opt.total_asset_value_init_limit {
                Some(v) => v,
                None => c.total_asset_value_init_limit,
            },
            oracle_max_age: match opt.oracle_max_age {
                Some(v) => v,
                None => c.oracle_max_age,
            },
            oracle_setup: c.oracle_setup,
            oracle_key: c.oracle_key,
        };
        let flags1 = match opt.permissionless_bad_debt_settlement {
            Some(true) => self.flags | crate::constants::PERMISSIONLESS_BAD_DEBT_SETTLEMENT_FLAG,
            Some(false) => self.flags
                & !crate::constants::PERMISSIONLESS_BAD_DEBT_SETTLEMENT_FLAG,
            None => self.flags,
        };
        let flags2 = match opt.freeze_settings {
            Some(true) => flags1 | FREEZE_SETTINGS,
            Some(false) => flags1 & !FREEZE_SETTINGS,
            None => flags1,
        };
        self.flags = flags2;
        Ok(())
    }

    /// Apply only the cap updates; everything else is frozen.
    pub fn configure_unfrozen_fields_only(&mut self, opt: &BankConfigOpt) -> (r: Result<
        (),
        SurroundfiError,
    >)
        ensures
            r == Ok::<(), SurroundfiError>(()),
            *final(self) == spec_configure_unfrozen_fields_only(*old(self), *opt),
    {
        match opt.deposit_limit {
            Some(v) => {
                self.config.deposit_limit = v;
            },
            None => {},
        }
        match opt.borrow_limit {
            Some(v) => {
                self.config.borrow_limit = v;
            },
            None => {},
        }
        Ok(())
    }
}

} // verus!
