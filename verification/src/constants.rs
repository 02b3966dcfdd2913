//! Protocol-wide constants: thresholds on negligible balances, bitfield
//! flags, asset tags, fee rates for liquidation, and scaling tables.

use vstd::prelude::*;
use crate::i80f48::I80F48;

verus! {

/// Raw value of the threshold below which a share balance counts as empty
/// (one ten-thousandth of a share).
pub const EMPTY_BALANCE_THRESHOLD_BITS: i128 = 28147497671;

/// Raw value of the threshold below which a token amount counts as zero
/// (one ten-thousandth of a native unit).
pub const ZERO_AMOUNT_THRESHOLD_BITS: i128 = 28147497671;

/// Raw value of the asset-value bound under which an insolvent account may
/// be declared bankrupt (one tenth of a dollar).
pub const BANKRUPT_THRESHOLD_BITS: i128 = 28147497671066;

/// Raw value of the number of seconds in a year, the denominator of every
/// annualized rate.
pub const SECONDS_PER_YEAR_BITS: i128 = 8876594865547247616000;

/// Balances whose last update is before this time are treated as never
/// updated when emissions accrue.
pub const MIN_EMISSIONS_START_TIME: u64 = 1681989983;

/// Raw value of the multiple applied to an oracle's confidence interval.
pub const CONF_INTERVAL_MULTIPLE_BITS: i128 = 596726950626591;

/// Raw value of the cap on the confidence interval, as a fraction of price.
pub const MAX_CONF_INTERVAL_BITS: i128 = 14073748835533;

/// Raw value of the liquidator's share of the liquidation spread.
pub const LIQUIDATION_LIQUIDATOR_FEE_BITS: i128 = 7036874417766;

/// Raw value of the insurance fund's share of the liquidation spread.
pub const LIQUIDATION_INSURANCE_FEE_BITS: i128 = 7036874417766;

/// Account flag: the account is disabled and accepts no further actions.
pub const ACCOUNT_DISABLED: u64 = 1;

/// Account flag: the account is inside a flashloan bracket.
pub const ACCOUNT_IN_FLASHLOAN: u64 = 2;

/// Account flag: reserved, no longer assigned.
pub const ACCOUNT_FLAG_DEPRECATED: u64 = 4;

/// Account flag: the admin allowed the owner to move authority once.
pub const ACCOUNT_TRANSFER_AUTHORITY_ALLOWED: u64 = 8;

/// Bank flag: emissions accrue on the borrowed side.
pub const EMISSIONS_FLAG_BORROW_ACTIVE: u64 = 1;

/// Bank flag: emissions accrue on the lending side.
pub const EMISSIONS_FLAG_LENDING_ACTIVE: u64 = 2;

/// Bank flag: anyone may settle bad debt against this bank.
pub const PERMISSIONLESS_BAD_DEBT_SETTLEMENT_FLAG: u64 = 4;

/// Bank flag: settings are frozen; only deposit and borrow limits update.
pub const FREEZE_SETTINGS: u64 = 8;

/// Group flag: program-level fees are collected for banks of this group.
pub const PROGRAM_FEES_ENABLED: u64 = 1;

/// Group flag: the group is an arena group, capped at two banks.
pub const ARENA_GROUP: u64 = 2;

/// Asset tag of an ordinary token bank.
pub const ASSET_TAG_DEFAULT: u8 = 0;

/// Asset tag of a native-currency bank.
pub const ASSET_TAG_SOL: u8 = 1;

/// Asset tag of a staked-collateral bank; needs two extra linked accounts.
pub const ASSET_TAG_STAKED: u8 = 2;

/// Bound on supported mint decimals: powers of ten up to this exponent fit
/// the fixed-point range.
pub const MAX_MINT_DECIMALS: u8 = 24;

/// Number of balance slots in every account's ledger.
pub const MAX_LENDING_ACCOUNT_BALANCES: usize = 16;

/// A deposit or borrow limit equal to this value means the limit is off.
pub const LIMIT_INACTIVE: u64 = u64::MAX;

/// A soft cap on total asset value equal to this value means the
/// init-weight discount is off.
pub const TOTAL_ASSET_VALUE_INIT_LIMIT_INACTIVE: u64 = 0;

/// Ten to the given power, as a mathematical integer.
pub open spec fn pow10(d: nat) -> int
    decreases d,
{
    if d == 0 {
        1
    } else {
        10 * pow10((d - 1) as nat)
    }
}

/// Ten to the power of `decimals`, as a fixed-point number. This is the
/// scaling factor between a token's native units and whole tokens.
pub fn exp_10_i80f48(decimals: u8) -> (r: I80F48)
    requires
        decimals < MAX_MINT_DECIMALS,
    ensures
        r.bits == pow10(decimals as nat) * crate::i80f48::FRAC_SCALE,
{
    let mut i: u8 = 0;
    let mut bits: i128 = crate::i80f48::FRAC_SCALE;
    while i < decimals
        invariant
            i <= decimals,
            decimals < MAX_MINT_DECIMALS,
            bits == pow10(i as nat) * crate::i80f48::FRAC_SCALE,
        decreases decimals - i,
    {
        proof {
            lemma_pow10_step_bound(i as nat);
        }
        bits = bits * 10;
        i = i + 1;
    }
    I80F48 { bits }
}

/// A power of ten is positive.
pub proof fn lemma_pow10_pos(d: nat)
    ensures
        0 < pow10(d),
    decreases d,
{
    if d > 0 {
        lemma_pow10_pos((d - 1) as nat);
    }
}

/// Powers of ten grow with the exponent.
pub proof fn lemma_pow10_mono(d: nat, e: nat)
    requires
        d <= e,
    ensures
        pow10(d) <= pow10(e),
    decreases e,
{
    if d < e {
        lemma_pow10_mono(d, (e - 1) as nat);
        lemma_pow10_pos((e - 1) as nat);
    }
}

/// A power of ten whose exponent is below the last supported one stays
/// small enough to be scaled by ten once more inside the fixed-point
/// range.
pub proof fn lemma_pow10_step_bound(d: nat)
    requires
        d < 23,
    ensures
        0 < pow10(d) <= 10000000000000000000000,
{
    lemma_pow10_pos(d);
    lemma_pow10_mono(d, 22);
    assert(pow10(22) == 10000000000000000000000) by {
        reveal_with_fuel(pow10, 24);
    }
}

} // verus!
