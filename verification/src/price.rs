//! Oracle price adapter: normalizes an externally parsed feed snapshot
//! into a validated (price, confidence, type, timestamp) interface with
//! staleness and bias rules. The host fetches and decodes the raw oracle
//! account bytes; this module owns every decision made on the values.

use vstd::prelude::*;
use crate::bank::{BankConfig, OracleSetup, RequirementType};
use crate::constants::{CONF_INTERVAL_MULTIPLE_BITS, MAX_CONF_INTERVAL_BITS};
use crate::errors::SurroundfiError;
use crate::i80f48::{s_add, s_mul, s_sub, I80F48};

verus! {

/// Which price of a feed a valuation uses.
#[derive(Clone, Copy, Debug, PartialEq, Eq, Structural)]
pub enum OraclePriceType {
    /// The dampened, time-weighted price; preferred for checks that gate
    /// risk increases.
    TimeWeighted,
    /// The most current price; used for triggering liquidations promptly.
    RealTime,
}

/// The conservative direction a valuation biases a price in.
#[derive(Clone, Copy, Debug, PartialEq, Eq, Structural)]
pub enum PriceBias {
    /// Bias downward, for valuing collateral.
    Low,
    /// Bias upward, for valuing debt.
    High,
}

/// The price type each requirement reads: the real-time price for
/// maintenance checks, the time-weighted one otherwise.
pub open spec fn spec_oracle_price_type(requirement_type: RequirementType) -> OraclePriceType {
    match requirement_type {
        RequirementType::Initial | RequirementType::Equity => OraclePriceType::TimeWeighted,
        RequirementType::Maintenance => OraclePriceType::RealTime,
    }
}

impl RequirementType {
    /// The price type each requirement uses: maintenance checks read the
    /// real-time price, the others the time-weighted one.
    pub fn get_oracle_price_type(&self) -> (r: OraclePriceType)
        ensures
            r == spec_oracle_price_type(*self),
    {
        match *self {
            RequirementType::Initial | RequirementType::Equity => OraclePriceType::TimeWeighted,
            RequirementType::Maintenance => OraclePriceType::RealTime,
        }
    }
}

/// A feed snapshot as the host parsed it from the oracle account bytes:
/// plain values, not yet validated.
#[derive(Clone, Copy, Debug, PartialEq, Eq, Structural)]
pub struct OracleFeed {
    /// Identity of the feed account the snapshot came from.
    pub feed_key: u64,
    /// Spot price.
    pub price: I80F48,
    /// Confidence interval around the spot price.
    pub conf: I80F48,
    /// Time-weighted price.
    pub ema_price: I80F48,
    /// Confidence interval around the time-weighted price.
    pub ema_conf: I80F48,
    /// When the feed last updated.
    pub publish_time: i64,
}

/// A feed that passed identity and staleness validation against a bank's
/// oracle binding.
#[derive(Clone, Copy, Debug, PartialEq, Eq, Structural)]
pub struct OraclePriceFeedAdapter {
    /// The validated snapshot.
    pub feed: OracleFeed,
}

/// The biased price `get_price_of_type` yields: the chosen price shifted
/// down or up by the confidence interval, where the interval is the feed's
/// confidence scaled by a fixed multiple and capped at a fixed fraction of
/// the price. `Err` means a step overflowed.
pub open spec fn spec_price_of_type(
    feed: OracleFeed,
    price_type: OraclePriceType,
    bias: Option<PriceBias>,
) -> Result<int, SurroundfiError> {
    let base = match price_type {
        OraclePriceType::RealTime => feed.price.bits as int,
        OraclePriceType::TimeWeighted => feed.ema_price.bits as int,
    };
    let conf = match price_type {
        OraclePriceType::RealTime => feed.conf.bits as int,
        OraclePriceType::TimeWeighted => feed.ema_conf.bits as int,
    };
    match bias {
        None => Ok(base),
        Some(b) => match (s_mul(conf, CONF_INTERVAL_MULTIPLE_BITS as int), s_mul(
            base,
            MAX_CONF_INTERVAL_BITS as int,
        )) {
            (Some(scaled), Some(cap)) => {
                let interval = if scaled <= cap {
                    scaled
                } else {
                    cap
                };
                match b {
                    PriceBias::Low => match s_sub(base, interval) {
                        Some(p) => Ok(p),
                        None => Err(SurroundfiError::MathError),
                    },
                    PriceBias::High => match s_add(base, interval) {
                        Some(p) => Ok(p),
                        None => Err(SurroundfiError::MathError),
                    },
                }
            },
            _ => Err(SurroundfiError::MathError),
        },
    }
}

/// The validation `try_from_bank_config` performs: the bank must have an
/// oracle bound, the feed must be the bound one, and its last update must
/// be within the configured maximum age of the current time.
pub open spec fn spec_validate_feed(config: BankConfig, feed: OracleFeed, current_time: i64) -> Result<
    OraclePriceFeedAdapter,
    SurroundfiError,
> {
    if config.oracle_setup is NoOracle {
        Err(SurroundfiError::OracleNotSetup)
    } else if feed.feed_key != config.oracle_key {
        Err(SurroundfiError::WrongOracleAccountKeys)
    } else if current_time - feed.publish_time > config.oracle_max_age {
        Err(SurroundfiError::PythPushStalePrice)
    } else {
        Ok(OraclePriceFeedAdapter { feed })
    }
}

impl OraclePriceFeedAdapter {
    /// Validate a parsed feed snapshot against a bank's oracle binding:
    /// the right feed, bound at all, and not stale.
    pub fn try_from_bank_config(config: &BankConfig, feed: &OracleFeed, current_time: i64) -> (r:
        Result<OraclePriceFeedAdapter, SurroundfiError>)
        ensures
            r == spec_validate_feed(*config, *feed, current_time),
    {
        match config.oracle_setup {
            OracleSetup::NoOracle => {
                return Err(SurroundfiError::OracleNotSetup);
            },
            _ => {},
        }
        if feed.feed_key != config.oracle_key {
            return Err(SurroundfiError::WrongOracleAccountKeys);
        }
        let age: i128 = (current_time as i128) - (feed.publish_time as i128);
        if age > (config.oracle_max_age as i128) {
            return Err(SurroundfiError::PythPushStalePrice);
        }
        Ok(OraclePriceFeedAdapter { feed: *feed })
    }

    /// The requested price of the validated feed, biased conservatively
    /// when a direction is given: low for assets, high for liabilities.
    pub fn get_price_of_type(&self, price_type: OraclePriceType, bias: Option<PriceBias>) -> (r:
        Result<I80F48, SurroundfiError>)
        ensures
            match spec_price_of_type(self.feed, price_type, bias) {
                Ok(p) => r == Ok::<I80F48, SurroundfiError>(I80F48 { bits: p as i128 }),
                Err(e) => r == Err::<I80F48, SurroundfiError>(e),
            },
    {
        let base = match price_type {
            OraclePriceType::RealTime => self.feed.price,
            OraclePriceType::TimeWeighted => self.feed.ema_price,
        };
        let conf = match price_type {
            OraclePriceType::RealTime => self.feed.conf,
            OraclePriceType::TimeWeighted => self.feed.ema_conf,
        };
        let b = match bias {
            None => {
                return Ok(base);
            },
            Some(b) => b,
        };
        let scaled = match conf.checked_mul(I80F48 { bits: CONF_INTERVAL_MULTIPLE_BITS }) {
            Some(v) => v,
            None => {
                return Err(SurroundfiError::MathError);
            },
        };
        let cap = match base.checked_mul(I80F48 { bits: MAX_CONF_INTERVAL_BITS }) {
            Some(v) => v,
            None => {
                return Err(SurroundfiError::MathError);
            },
        };
        let interval = scaled.min(cap);
        match b {
            PriceBias::Low => match base.checked_sub(interval) {
                Some(p) => Ok(p),
                None => Err(SurroundfiError::MathError),
            },
            PriceBias::High => match base.checked_add(interval) {
                Some(p) => Ok(p),
                None => Err(SurroundfiError::MathError),
            },
        }
    }
}

} // verus!
