//! Interest accrual: the piecewise-linear rate curve, the split of the
//! borrow rate into lender yield and insurance, group, and program fee
//! carve-outs, and the periodic update of a bank's share-price accumulators.
//! Any overflow in any step aborts the whole accrual with a math error and
//! leaves the bank untouched.

use vstd::prelude::*;
use crate::bank::{Bank, BankOperationalState, InterestRateConfig};
use crate::constants::SECONDS_PER_YEAR_BITS;
use crate::errors::SurroundfiError;
use crate::group::SurroundfiGroup;
use crate::i80f48::{s_add, s_div, s_mul, s_sub, I80F48, FRAC_SCALE};

verus! {

/// The annualized rates one accrual works with: the lender rate, the
/// borrower rate, and the three fee components inside the borrower rate.
#[derive(Clone, Copy, Debug, PartialEq, Eq, Structural)]
pub struct InterestRateCalc {
    /// Annual growth rate of the asset share value.
    pub lending_rate_apr: I80F48,
    /// Annual growth rate of the liability share value.
    pub borrowing_rate_apr: I80F48,
    /// Annual fee rate routed to the group, on outstanding liabilities.
    pub group_fee_apr: I80F48,
    /// Annual fee rate routed to the insurance fund.
    pub insurance_fee_apr: I80F48,
    /// Annual fee rate routed to the program.
    pub program_fee_apr: I80F48,
}

/// The base borrow rate the curve yields at a given utilization: linear up
/// to the optimal utilization, then linear up to the max rate at full
/// utilization. `None` where a step overflows or a curve parameter is
/// degenerate.
pub open spec fn spec_interest_rate_curve(cfg: InterestRateConfig, util: int) -> Option<int> {
    if util <= cfg.optimal_utilization_rate.bits {
        match s_div(util, cfg.optimal_utilization_rate.bits as int) {
            Some(q) => s_mul(q, cfg.plateau_interest_rate.bits as int),
            None => None,
        }
    } else {
        match s_sub(util, cfg.optimal_utilization_rate.bits as int) {
            Some(num) => match s_sub(FRAC_SCALE as int, cfg.optimal_utilization_rate.bits as int) {
                Some(den) => match s_div(num, den) {
                    Some(q) => match s_sub(
                        cfg.max_interest_rate.bits as int,
                        cfg.plateau_interest_rate.bits as int,
                    ) {
                        Some(spread) => match s_mul(q, spread) {
                            Some(m) => s_add(m, cfg.plateau_interest_rate.bits as int),
                            None => None,
                        },
                        None => None,
                    },
                    None => None,
                },
                None => None,
            },
            None => None,
        }
    }
}

/// The five raw rates of one accrual, derived from the base curve rate:
/// lenders earn the base rate scaled by utilization; borrowers pay the base
/// rate plus the group, insurance, and program carve-outs. Listed as
/// (lending, borrowing, group fee, insurance fee, program fee).
pub open spec fn spec_interest_rates(
    cfg: InterestRateConfig,
    util: int,
    program_fee_fixed: int,
    program_fee_rate: int,
    program_fees_enabled: bool,
) -> Option<(int, int, int, int, int)> {
    match spec_interest_rate_curve(cfg, util) {
        Some(base) => match s_mul(base, util) {
            Some(lending) => match s_mul(base, cfg.protocol_ir_fee.bits as int) {
                Some(g1) => match s_add(g1, cfg.protocol_fixed_fee_apr.bits as int) {
                    Some(group_fee) => match s_mul(base, cfg.insurance_ir_fee.bits as int) {
                        Some(i1) => match s_add(i1, cfg.insurance_fee_fixed_apr.bits as int) {
                            Some(insurance_fee) => match (
                            if program_fees_enabled {
                                match s_mul(base, program_fee_rate) {
                                    Some(p1) => s_add(p1, program_fee_fixed),
                                    None => None,
                                }
                            } else {
                                Some(0int)
                            }) {
                                Some(program_fee) => match s_add(base, group_fee) {
                                    Some(b1) => match s_add(b1, insurance_fee) {
                                        Some(b2) => match s_add(b2, program_fee) {
                                            Some(borrowing) => Some(
                                                (lending, borrowing, group_fee, insurance_fee, program_fee),
                                            ),
                                            None => None,
                                        },
                                        None => None,
                                    },
                                    None => None,
                                },
                                None => None,
                            },
                            None => None,
                        },
                        None => None,
                    },
                    None => None,
                },
                None => None,
            },
            None => None,
        },
        None => None,
    }
}

/// A share value after one accrual period: the value scaled by one plus the
/// annual rate prorated over the period.
pub open spec fn spec_accrued_value(apr: int, time_delta: u64, value: int) -> Option<int> {
    match s_mul(apr, time_delta * FRAC_SCALE) {
        Some(x) => match s_div(x, SECONDS_PER_YEAR_BITS as int) {
            Some(ir_per_period) => match s_add(FRAC_SCALE as int, ir_per_period) {
                Some(factor) => s_mul(value, factor),
                None => None,
            },
            None => None,
        },
        None => None,
    }
}

/// The fee one accrual period collects: the annual fee rate prorated over
/// the period, applied to the outstanding amount.
pub open spec fn spec_fee_for_period(apr: int, time_delta: u64, amount: int) -> Option<int> {
    match s_mul(apr, time_delta * FRAC_SCALE) {
        Some(x) => match s_div(x, SECONDS_PER_YEAR_BITS as int) {
            Some(rate) => s_mul(amount, rate),
            None => None,
        },
        None => None,
    }
}

/// Outcome of accruing interest on a bank at time `now`: a no-op when the
/// bank is paused or no time has passed; only a timestamp touch when one
/// side of the pool is empty; otherwise both share values grow by their
/// prorated rates and the three fee accumulators gain their prorated cuts.
/// A math failure in any step yields an error and no change at all.
pub open spec fn spec_accrue_interest(bank: Bank, now: i64, group: SurroundfiGroup) -> Result<
    Bank,
    SurroundfiError,
> {
    if bank.config.operational_state is Paused {
        Ok(bank)
    } else if now <= bank.last_update {
        Ok(bank)
    } else {
        let time_delta = (now - bank.last_update) as u64;
        match (
            s_mul(bank.total_asset_shares.bits as int, bank.asset_share_value.bits as int),
            s_mul(bank.total_liability_shares.bits as int, bank.liability_share_value.bits as int),
        ) {
            (Some(total_assets), Some(total_liabs)) => {
                if total_assets == 0 || total_liabs == 0 {
                    Ok(Bank { last_update: now, ..bank })
                } else {
                    match s_div(total_liabs, total_assets) {
                        Some(util) => match spec_interest_rates(
                            bank.config.interest_rate_config,
                            util,
                            group.fee_state_cache.program_fee_fixed.bits as int,
                            group.fee_state_cache.program_fee_rate.bits as int,
                            group.group_flags & crate::constants::PROGRAM_FEES_ENABLED != 0,
                        ) {
                            Some((lending, borrowing, group_fee, insurance_fee, program_fee)) => {
                                match (
                                    spec_accrued_value(
                                        lending,
                                        time_delta,
                                        bank.asset_share_value.bits as int,
                                    ),
                                    spec_accrued_value(
                                        borrowing,
                                        time_delta,
                                        bank.liability_share_value.bits as int,
                                    ),
                                    spec_fee_for_period(group_fee, time_delta, total_liabs),
                                    spec_fee_for_period(insurance_fee, time_delta, total_liabs),
                                    spec_fee_for_period(program_fee, time_delta, total_liabs),
                                ) {
                                    (
                                        Some(nasv),
                                        Some(nlsv),
                                        Some(gf),
                                        Some(insf),
                                        Some(pf),
                                    ) => {
                                        match (
                                            s_add(
                                                bank.collected_group_fees_outstanding.bits as int,
                                                gf,
                                            ),
                                            s_add(
                                                bank.collected_insurance_fees_outstanding.bits as int,
                                                insf,
                                            ),
                                            s_add(
                                                bank.collected_program_fees_outstanding.bits as int,
                                                pf,
                                            ),
                                        ) {
                                            (Some(ngf), Some(ninsf), Some(npf)) => Ok(
                                                Bank {
                                                    asset_share_value: I80F48 { bits: nasv as i128 },
                                                    liability_share_value: I80F48 { bits: nlsv as i128 },
                                                    collected_group_fees_outstanding: I80F48 { bits: ngf as i128 },
                                                    collected_insurance_fees_outstanding: I80F48 { bits: ninsf as i128 },
                                                    collected_program_fees_outstanding: I80F48 { bits: npf as i128 },
                                                    last_update: now,
                                                    ..bank
                                                },
                                            ),
                                            _ => Err(SurroundfiError::MathError),
                                        }
                                    },
                                    _ => Err(SurroundfiError::MathError),
                                }
                            },
                            None => Err(SurroundfiError::MathError),
                        },
                        None => Err(SurroundfiError::MathError),
                    }
                }
            },
            _ => Err(SurroundfiError::MathError),
        }
    }
}

impl InterestRateConfig {
    /// The base borrow rate at the given utilization, from the
    /// piecewise-linear curve through the plateau and max control points.
    pub fn interest_rate_curve(&self, util: I80F48) -> (r: Option<I80F48>)
        ensures
            match spec_interest_rate_curve(*self, util.bits as int) {
                Some(b) => r == Some(I80F48 { bits: b as i128 }),
                None => r is None,
            },
    {
        let optimal = self.optimal_utilization_rate;
        let plateau = self.plateau_interest_rate;
        let max_rate = self.max_interest_rate;
        if util.le(optimal) {
            match util.checked_div(optimal) {
                Some(q) => q.checked_mul(plateau),
                None => None,
            }
        } else {
            let num = match util.checked_sub(optimal) {
                Some(v) => v,
                None => {
                    return None;
                },
            };
            let den = match I80F48::one().checked_sub(optimal) {
                Some(v) => v,
                None => {
                    return None;
                },
            };
            let q = match num.checked_div(den) {
                Some(v) => v,
                None => {
                    return None;
                },
            };
            let spread = match max_rate.checked_sub(plateau) {
                Some(v) => v,
                None => {
                    return None;
                },
            };
            match q.checked_mul(spread) {
                Some(m) => m.checked_add(plateau),
                None => None,
            }
        }
    }

    /// All five rates of one accrual at the given utilization, splitting
    /// the borrow rate into lender yield and the fee carve-outs.
    pub fn calc_interest_rate(
        &self,
        util: I80F48,
        program_fee_fixed: I80F48,
        program_fee_rate: I80F48,
        program_fees_enabled: bool,
    ) -> (r: Option<InterestRateCalc>)
        ensures
            match spec_interest_rates(
                *self,
                util.bits as int,
                program_fee_fixed.bits as int,
                program_fee_rate.bits as int,
                program_fees_enabled,
            ) {
                Some((lending, borrowing, group_fee, insurance_fee, program_fee)) => r == Some(
                    InterestRateCalc {
                        lending_rate_apr: I80F48 { bits: lending as i128 },
                        borrowing_rate_apr: I80F48 { bits: borrowing as i128 },
                        group_fee_apr: I80F48 { bits: group_fee as i128 },
                        insurance_fee_apr: I80F48 { bits: insurance_fee as i128 },
                        program_fee_apr: I80F48 { bits: program_fee as i128 },
                    },
                ),
                None => r is None,
            },
    {
        let base = match self.interest_rate_curve(util) {
            Some(b) => b,
            None => {
                return None;
            },
        };
        let lending = match base.checked_mul(util) {
            Some(v) => v,
            None => {
                return None;
            },
        };
        let g1 = match base.checked_mul(self.protocol_ir_fee) {
            Some(v) => v,
            None => {
                return None;
            },
        };
        let group_fee = match g1.checked_add(self.protocol_fixed_fee_apr) {
            Some(v) => v,
            None => {
                return None;
            },
        };
        let i1 = match base.checked_mul(self.insurance_ir_fee) {
            Some(v) => v,
            None => {
                return None;
            },
        };
        let insurance_fee = match i1.checked_add(self.insurance_fee_fixed_apr) {
            Some(v) => v,
            None => {
                return None;
            },
        };
        let program_fee = if program_fees_enabled {
            let p1 = match base.checked_mul(program_fee_rate) {
                Some(v) => v,
                None => {
                    return None;
                },
            };
            match p1.checked_add(program_fee_fixed) {
                Some(v) => v,
                None => {
                    return None;
                },
            }
        } else {
            I80F48::zero()
        };
        let b1 = match base.checked_add(group_fee) {
            Some(v) => v,
            None => {
                return None;
            },
        };
        let b2 = match b1.checked_add(insurance_fee) {
            Some(v) => v,
            None => {
                return None;
            },
        };
        let borrowing = match b2.checked_add(program_fee) {
            Some(v) => v,
            None => {
                return None;
            },
        };
        Some(
            InterestRateCalc {
                lending_rate_apr: lending,
                borrowing_rate_apr: borrowing,
                group_fee_apr: group_fee,
                insurance_fee_apr: insurance_fee,
                program_fee_apr: program_fee,
            },
        )
    }
}

/// A share value after one accrual period: scaled by one plus the prorated
/// annual rate.
pub fn calc_accrued_interest_payment_per_period(apr: I80F48, time_delta: u64, value: I80F48) -> (r:
    Option<I80F48>)
    ensures
        match spec_accrued_value(apr.bits as int, time_delta, value.bits as int) {
            Some(v) => r == Some(I80F48 { bits: v as i128 }),
            None => r is None,
        },
{
    let x = match apr.checked_mul(I80F48::from_num(time_delta)) {
        Some(v) => v,
        None => {
            return None;
        },
    };
    let ir_per_period = match x.checked_div(I80F48 { bits: SECONDS_PER_YEAR_BITS }) {
        Some(v) => v,
        None => {
            return None;
        },
    };
    let factor = match I80F48::one().checked_add(ir_per_period) {
        Some(v) => v,
        None => {
            return None;
        },
    };
    value.checked_mul(factor)
}

/// The fee one accrual period collects on an outstanding amount.
pub fn calc_fee_payment_for_period(apr: I80F48, time_delta: u64, amount: I80F48) -> (r: Option<
    I80F48,
>)
    ensures
        match spec_fee_for_period(apr.bits as int, time_delta, amount.bits as int) {
            Some(v) => r == Some(I80F48 { bits: v as i128 }),
            None => r is None,
        },
{
    let x = match apr.checked_mul(I80F48::from_num(time_delta)) {
        Some(v) => v,
        None => {
            return None;
        },
    };
    let rate = match x.checked_div(I80F48 { bits: SECONDS_PER_YEAR_BITS }) {
        Some(v) => v,
        None => {
            return None;
        },
    };
    amount.checked_mul(rate)
}

impl Bank {
    /// Accrue interest since the last update and split it into lender
    /// yield and the insurance, group, and program fee accumulators.
    /// Does nothing when the bank is paused or no time has passed; only
    /// touches the timestamp when either side of the pool is empty. On a
    /// math error nothing changes.
    pub fn accrue_interest(&mut self, current_timestamp: i64, group: &SurroundfiGroup) -> (r:
        Result<(), SurroundfiError>)
        ensures
            match spec_accrue_interest(*old(self), current_timestamp, *group) {
                Ok(b) => r == Ok::<(), SurroundfiError>(()) && *final(self) == b,
                Err(e) => r == Err::<(), SurroundfiError>(e) && *final(self) == *old(self),
            },
    {
        match self.config.operational_state {
            BankOperationalState::Paused => {
                return Ok(());
            },
            _ => {},
        }
        if current_timestamp <= self.last_update {
            return Ok(());
        }
        let time_delta: u64 = ((current_timestamp as i128) - (self.last_update as i128)) as u64;
        let total_assets = match self.total_asset_shares.checked_mul(self.asset_share_value) {
            Some(v) => v,
            None => {
                return Err(SurroundfiError::MathError);
            },
        };
        let total_liabs = match self.total_liability_shares.checked_mul(
            self.liability_share_value,
        ) {
            Some(v) => v,
            None => {
                return Err(SurroundfiError::MathError);
            },
        };
        if total_assets.is_zero() || total_liabs.is_zero() {
            self.last_update = current_timestamp;
            return Ok(());
        }
        let util = match total_liabs.checked_div(total_assets) {
            Some(v) => v,
            None => {
                return Err(SurroundfiError::MathError);
            },
        };
        let rates = match self.config.interest_rate_config.calc_interest_rate(
            util,
            group.fee_state_cache.program_fee_fixed,
            group.fee_state_cache.program_fee_rate,
            group.program_fees_enabled(),
        ) {
            Some(v) => v,
            None => {
                return Err(SurroundfiError::MathError);
            },
        };
        let nasv = match calc_accrued_interest_payment_per_period(
            rates.lending_rate_apr,
            time_delta,
            self.asset_share_value,
        ) {
            Some(v) => v,
            None => {
                return Err(SurroundfiError::MathError);
            },
        };
        let nlsv = match calc_accrued_interest_payment_per_period(
            rates.borrowing_rate_apr,
            time_delta,
            self.liability_share_value,
        ) {
            Some(v) => v,
            None => {
                return Err(SurroundfiError::MathError);
            },
        };
        let gf = match calc_fee_payment_for_period(rates.group_fee_apr, time_delta, total_liabs) {
            Some(v) => v,
            None => {
                return Err(SurroundfiError::MathError);
            },
        };
        let insf = match calc_fee_payment_for_period(
            rates.insurance_fee_apr,
            time_delta,
            total_liabs,
        ) {
            Some(v) => v,
            None => {
                return Err(SurroundfiError::MathError);
            },
        };
        let pf = match calc_fee_payment_for_period(
            rates.program_fee_apr,
            time_delta,
            total_liabs,
        ) {
            Some(v) => v,
            None => {
                return Err(SurroundfiError::MathError);
            },
        };
        let ngf = match self.collected_group_fees_outstanding.checked_add(gf) {
            Some(v) => v,
            None => {
                return Err(SurroundfiError::MathError);
            },
        };
        let ninsf = match self.collected_insurance_fees_outstanding.checked_add(insf) {
            Some(v) => v,
            None => {
                return Err(SurroundfiError::MathError);
            },
        };
        let npf = match self.collected_program_fees_outstanding.checked_add(pf) {
            Some(v) => v,
            None => {
                return Err(SurroundfiError::MathError);
            },
        };
        self.asset_share_value = nasv;
        self.liability_share_value = nlsv;
        self.collected_group_fees_outstanding = ngf;
        self.collected_insurance_fees_outstanding = ninsf;
        self.collected_program_fees_outstanding = npf;
        self.last_update = current_timestamp;
        Ok(())
    }
}

} // verus!
