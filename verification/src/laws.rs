//! The protocol's cross-cutting guarantees, stated and proved over the
//! same transition functions the executable operations are specified by:
//! the one-side balance invariant, the share/amount round-trip bound,
//! the utilization bound, health monotonicity under liquidation, the
//! idempotence of interest accrual over zero time, and isolated-tier
//! exclusivity.

use vstd::prelude::*;
use vstd::arithmetic::div_mod::{
    lemma_div_is_ordered, lemma_div_is_ordered_by_denominator, lemma_div_pos_is_pos,
    lemma_fundamental_div_mod, lemma_fundamental_div_mod_converse, lemma_div_multiples_vanish,
};
use crate::account::{spec_sides_disjoint, Balance};
use crate::bank::Bank;
use crate::errors::SurroundfiError;
use crate::group::SurroundfiGroup;
use crate::constants::pow10;
use crate::i80f48::{div_bits, fits_i128, mul_bits, s_div, s_mul, I80F48, FRAC_SCALE};
use crate::interest::spec_accrue_interest;
use crate::risk::{
    spec_calc_amount, spec_calc_value, spec_init_health_check, spec_liab_count_prefix, spec_load,
    spec_post_liquidation, spec_pre_liquidation, BankAccountWithPriceFeed, BankOracleInput,
};
use crate::wrapper::{
    spec_decrease_balance, spec_increase_balance, BalanceDecreaseType, BalanceIncreaseType,
};

verus! {

/// Division of a nonnegative raw value by a positive one is the plain
/// Euclidean quotient, and nonnegative.
proof fn lemma_div_bits_nonneg(a: int, b: int)
    requires
        0 <= a,
        0 < b,
    ensures
        div_bits(a, b) == (a * FRAC_SCALE) / b,
        0 <= div_bits(a, b),
{
    assert(a * FRAC_SCALE >= 0) by (nonlinear_arith)
        requires
            a >= 0,
    ;
    lemma_div_pos_is_pos(a * FRAC_SCALE, b);
}

/// Scaling down a product by a larger factor cannot increase it.
proof fn lemma_mul_bits_mono(a1: int, a2: int, v: int)
    requires
        a1 <= a2,
        0 <= v,
    ensures
        mul_bits(a1, v) <= mul_bits(a2, v),
{
    assert(a1 * v <= a2 * v) by (nonlinear_arith)
        requires
            a1 <= a2,
            0 <= v,
    ;
    lemma_div_is_ordered(a1 * v, a2 * v, FRAC_SCALE as int);
}

/// Converting a nonnegative share count to its token amount and the
/// amount back to shares loses at most one raw step, provided the share
/// price is at least one.
proof fn lemma_shares_amount_residual(l: int, v: int)
    requires
        0 <= l,
        FRAC_SCALE <= v,
    ensures
        ({
            let la = mul_bits(l, v);
            let sd = div_bits(la, v);
            &&& 0 <= la
            &&& la <= l * v / (FRAC_SCALE as int)
            &&& l - 1 <= sd <= l
            &&& 0 <= sd
        }),
{
    let s = FRAC_SCALE as int;
    let la = mul_bits(l, v);
    assert(l * v >= 0) by (nonlinear_arith)
        requires
            l >= 0,
            v >= 0,
    ;
    lemma_div_pos_is_pos(l * v, s);
    lemma_fundamental_div_mod(l * v, s);
    let r1 = (l * v) % s;
    assert(la * s == l * v - r1) by (nonlinear_arith)
        requires
            l * v == s * la + r1,
    ;
    assert(la * s >= 0) by (nonlinear_arith)
        requires
            la >= 0,
            s > 0,
    ;
    let sd = div_bits(la, v);
    assert(sd == (la * s) / v) by {
        lemma_trunc_div_nonneg(la * s, v);
    }
    if r1 == 0 {
        assert(la * s == v * l) by (nonlinear_arith)
            requires
                la * s == l * v - r1,
                r1 == 0,
        ;
        lemma_div_multiples_vanish(l, v);
        assert(sd == l);
    } else {
        assert(la * s == (l - 1) * v + (v - r1)) by (nonlinear_arith)
            requires
                la * s == l * v - r1,
        ;
        lemma_fundamental_div_mod_converse(la * s, v, l - 1, v - r1);
        assert(sd == l - 1);
    }
}

/// Truncating division agrees with Euclidean division on nonnegative
/// operands.
proof fn lemma_trunc_div_nonneg(n: int, d: int)
    requires
        0 <= n,
        0 < d,
    ensures
        crate::i80f48::trunc_div(n, d) == n / d,
{
}

/// Zero shares are worth zero, whatever the price.
proof fn lemma_div_bits_zero(b: int)
    requires
        b != 0,
    ensures
        div_bits(0, b) == 0,
{
    if b > 0 {
        lemma_fundamental_div_mod_converse(0, b, 0, 0);
    } else {
        lemma_fundamental_div_mod_converse(0, -b, 0, 0);
    }
}

/// No simultaneous sides, increase direction: a deposit or repayment of
/// a nonnegative amount never leaves a balance with non-negligible
/// shares on both sides, provided the liability share price is at least
/// one. (A liability share price starts at one and only ever grows.)
pub proof fn lemma_no_simultaneous_sides_increase(
    balance: Balance,
    bank: Bank,
    delta: I80F48,
    operation_type: BalanceIncreaseType,
    now: u64,
)
    requires
        spec_sides_disjoint(balance),
        0 <= balance.asset_shares.bits,
        0 <= balance.liability_shares.bits,
        0 <= delta.bits,
        FRAC_SCALE <= bank.liability_share_value.bits,
        0 < bank.asset_share_value.bits,
    ensures
        match spec_increase_balance(balance, bank, delta, operation_type, now) {
            Ok((bal1, bank1)) => spec_sides_disjoint(bal1) && 0 <= bal1.asset_shares.bits && 0
                <= bal1.liability_shares.bits,
            Err(e) => true,
        },
{
    match spec_increase_balance(balance, bank, delta, operation_type, now) {
        Ok((bal1, bank1)) => {
            let l = balance.liability_shares.bits as int;
            let a = balance.asset_shares.bits as int;
            let lsv = bank.liability_share_value.bits as int;
            let asv = bank.asset_share_value.bits as int;
            let la = mul_bits(l, lsv);
            lemma_shares_amount_residual(l, lsv);
            let liab_dec = if la <= delta.bits as int {
                la
            } else {
                delta.bits as int
            };
            let asset_inc = if delta.bits as int - la >= 0 {
                delta.bits as int - la
            } else {
                0
            };
            lemma_div_bits_nonneg(asset_inc, asv);
            let sd = div_bits(liab_dec, lsv);
            if la <= delta.bits as int {
                // The whole debt is repaid; at most one raw step of dust
                // remains, far below the emptiness threshold.
                assert(l - 1 <= sd <= l) by {
                    lemma_shares_amount_residual(l, lsv);
                }
            } else {
                // Only part of the debt is repaid; the asset side gains
                // nothing.
                assert(liab_dec == delta.bits as int);
                assert(asset_inc == 0);
                lemma_div_bits_zero(asv);
                assert(delta.bits * FRAC_SCALE <= la * FRAC_SCALE) by (nonlinear_arith)
                    requires
                        delta.bits <= la,
                ;
                assert(sd == (delta.bits * FRAC_SCALE) / lsv) by {
                    assert(delta.bits * FRAC_SCALE >= 0) by (nonlinear_arith)
                        requires
                            delta.bits >= 0,
                    ;
                    lemma_trunc_div_nonneg(delta.bits * FRAC_SCALE, lsv);
                }
                lemma_div_pos_is_pos(delta.bits * FRAC_SCALE, lsv);
                lemma_div_is_ordered(delta.bits * FRAC_SCALE, la * FRAC_SCALE, lsv);
                assert((la * FRAC_SCALE) / lsv <= l) by {
                    lemma_shares_amount_residual(l, lsv);
                    assert(div_bits(la, lsv) == (la * FRAC_SCALE) / lsv) by {
                        assert(la * FRAC_SCALE >= 0) by (nonlinear_arith)
                            requires
                                la >= 0,
                        ;
                        lemma_trunc_div_nonneg(la * FRAC_SCALE, lsv);
                    }
                }
            }
        },
        Err(e) => {},
    }
}

/// No simultaneous sides, decrease direction: a withdrawal or borrow of
/// a nonnegative amount never leaves a balance with non-negligible
/// shares on both sides, provided the asset share price is at least one.
/// (An asset share price starts at one and falls below it only through
/// socialized loss.)
pub proof fn lemma_no_simultaneous_sides_decrease(
    balance: Balance,
    bank: Bank,
    delta: I80F48,
    operation_type: BalanceDecreaseType,
    now: u64,
)
    requires
        spec_sides_disjoint(balance),
        0 <= balance.asset_shares.bits,
        0 <= balance.liability_shares.bits,
        0 <= delta.bits,
        FRAC_SCALE <= bank.asset_share_value.bits,
        0 < bank.liability_share_value.bits,
    ensures
        match spec_decrease_balance(balance, bank, delta, operation_type, now) {
            Ok((bal1, bank1)) => spec_sides_disjoint(bal1) && 0 <= bal1.asset_shares.bits && 0
                <= bal1.liability_shares.bits,
            Err(e) => true,
        },
{
    match spec_decrease_balance(balance, bank, delta, operation_type, now) {
        Ok((bal1, bank1)) => {
            let l = balance.liability_shares.bits as int;
            let a = balance.asset_shares.bits as int;
            let lsv = bank.liability_share_value.bits as int;
            let asv = bank.asset_share_value.bits as int;
            let aa = mul_bits(a, asv);
            lemma_shares_amount_residual(a, asv);
            let liab_inc = if delta.bits as int - aa >= 0 {
                delta.bits as int - aa
            } else {
                0
            };
            lemma_div_bits_nonneg(liab_inc, lsv);
            if aa <= delta.bits as int {
                // The whole position is withdrawn; at most one raw step
                // of dust remains, far below the emptiness threshold.
            } else {
                // Only part of the position leaves; the liability side
                // gains nothing.
                assert(liab_inc == 0);
                lemma_div_bits_zero(lsv);
                let sd = div_bits(delta.bits as int, asv);
                assert(delta.bits * FRAC_SCALE <= aa * FRAC_SCALE) by (nonlinear_arith)
                    requires
                        delta.bits <= aa,
                ;
                assert(sd == (delta.bits * FRAC_SCALE) / asv) by {
                    assert(delta.bits * FRAC_SCALE >= 0) by (nonlinear_arith)
                        requires
                            delta.bits >= 0,
                    ;
                    lemma_trunc_div_nonneg(delta.bits * FRAC_SCALE, asv);
                }
                lemma_div_pos_is_pos(delta.bits * FRAC_SCALE, asv);
                lemma_div_is_ordered(delta.bits * FRAC_SCALE, aa * FRAC_SCALE, asv);
                assert((aa * FRAC_SCALE) / asv <= a) by {
                    lemma_shares_amount_residual(a, asv);
                    assert(div_bits(aa, asv) == (aa * FRAC_SCALE) / asv) by {
                        assert(aa * FRAC_SCALE >= 0) by (nonlinear_arith)
                            requires
                                aa >= 0,
                        ;
                        lemma_trunc_div_nonneg(aa * FRAC_SCALE, asv);
                    }
                }
            }
        },
        Err(e) => {},
    }
}

/// Share/amount round-trip: converting a nonnegative amount to shares
/// and the shares back to an amount returns the amount, within one unit
/// of rounding per unit of share price, and never more than was put in.
pub proof fn lemma_share_amount_round_trip(x: I80F48, bank: Bank)
    requires
        0 <= x.bits,
        FRAC_SCALE <= bank.asset_share_value.bits,
    ensures
        ({
            let v = bank.asset_share_value.bits as int;
            let shares = div_bits(x.bits as int, v);
            let back = mul_bits(shares, v);
            &&& s_div(x.bits as int, v) == Some(shares)
            &&& s_mul(shares, v) == Some(back)
            &&& 0 <= back <= x.bits
            &&& (x.bits - back) * FRAC_SCALE < v + FRAC_SCALE
        }),
{
    let s = FRAC_SCALE as int;
    let v = bank.asset_share_value.bits as int;
    let x0 = x.bits as int;
    assert(x0 * s >= 0) by (nonlinear_arith)
        requires
            x0 >= 0,
            s >= 0,
    ;
    lemma_trunc_div_nonneg(x0 * s, v);
    let shares = div_bits(x0, v);
    lemma_div_pos_is_pos(x0 * s, v);
    lemma_div_is_ordered_by_denominator(x0 * s, s, v);
    lemma_div_multiples_vanish(x0, s);
    assert(x0 * s == s * x0) by (nonlinear_arith);
    assert(shares <= x0);
    lemma_fundamental_div_mod(x0 * s, v);
    let r = (x0 * s) % v;
    assert(shares * v == x0 * s - r) by (nonlinear_arith)
        requires
            x0 * s == v * shares + r,
    ;
    assert(shares * v >= 0) by (nonlinear_arith)
        requires
            shares >= 0,
            v > 0,
    ;
    lemma_trunc_div_nonneg(shares * v, s);
    let back = mul_bits(shares, v);
    lemma_div_pos_is_pos(shares * v, s);
    lemma_div_is_ordered(shares * v, x0 * s, s);
    lemma_fundamental_div_mod(shares * v, s);
    let r2 = (shares * v) % s;
    assert(back * s == x0 * s - r - r2) by (nonlinear_arith)
        requires
            shares * v == s * back + r2,
            shares * v == x0 * s - r,
    ;
    assert((x0 - back) * s == r + r2) by (nonlinear_arith)
        requires
            back * s == x0 * s - r - r2,
    ;
}

/// Value/amount round trip: pricing a nonnegative quantity and then
/// asking how much that value buys returns at most the quantity put in,
/// and the loss times the price stays below one rounding step of each of
/// the three scalings involved (two by the fixed-point unit, one by the
/// mint's decimal exponent).
pub proof fn lemma_value_amount_round_trip(x: I80F48, price: I80F48, mint_decimals: u8)
    requires
        0 <= x.bits,
        0 < price.bits,
        mint_decimals < crate::constants::MAX_MINT_DECIMALS,
        fits_i128(mul_bits(x.bits as int, price.bits as int)),
        fits_i128(
            mul_bits(
                div_bits(
                    mul_bits(x.bits as int, price.bits as int),
                    pow10(mint_decimals as nat) * FRAC_SCALE,
                ),
                pow10(mint_decimals as nat) * FRAC_SCALE,
            ),
        ),
    ensures
        ({
            let scale = pow10(mint_decimals as nat) * FRAC_SCALE;
            match spec_calc_value(x.bits as int, price.bits as int, mint_decimals as nat, None) {
                Ok(v) => match spec_calc_amount(v, price.bits as int, mint_decimals as nat) {
                    Ok(back) => {
                        &&& 0 <= back <= x.bits
                        &&& (x.bits - back) * price.bits < 2 * FRAC_SCALE + scale + price.bits
                    },
                    Err(e) => false,
                },
                Err(e) => false,
            }
        }),
{
    let s = FRAC_SCALE as int;
    let p = price.bits as int;
    let x0 = x.bits as int;
    let d = mint_decimals as nat;
    crate::constants::lemma_pow10_pos(d);
    let e = pow10(d) * s;
    assert(e >= s) by (nonlinear_arith)
        requires
            pow10(d) >= 1,
            s > 0,
            e == pow10(d) * s,
    ;
    if x0 == 0 {
        // A zero quantity is worth zero and buys zero back.
        lemma_div_bits_zero(s);
        assert(mul_bits(0, e) == 0) by {
            assert(0 * e == 0) by (nonlinear_arith);
            lemma_fundamental_div_mod_converse(0, s, 0, 0);
        }
        lemma_div_bits_zero(p);
        assert((0 - 0) * p == 0) by (nonlinear_arith);
    } else {
        assert(x0 * p >= 0) by (nonlinear_arith)
            requires
                x0 >= 0,
                p > 0,
        ;
        let m1 = mul_bits(x0, p);
        lemma_div_pos_is_pos(x0 * p, s);
        lemma_fundamental_div_mod(x0 * p, s);
        let r1 = (x0 * p) % s;
        // The dollar value: the priced quantity scaled down by the
        // decimal exponent.
        assert(m1 * s >= 0) by (nonlinear_arith)
            requires
                m1 >= 0,
                s > 0,
        ;
        let v = div_bits(m1, e);
        assert(v == (m1 * s) / e) by {
            lemma_trunc_div_nonneg(m1 * s, e);
        }
        lemma_div_pos_is_pos(m1 * s, e);
        lemma_div_is_ordered_by_denominator(m1 * s, s, e);
        lemma_div_multiples_vanish(m1, s);
        assert(m1 * s == s * m1) by (nonlinear_arith);
        assert(v <= m1);
        lemma_fundamental_div_mod(m1 * s, e);
        let r2 = (m1 * s) % e;
        // Back to a quantity: the value scaled up by the decimal
        // exponent, divided by the price.
        let v2 = mul_bits(v, e);
        lemma_fundamental_div_mod(v * e, s);
        let r3 = (v * e) % s;
        assert(v * e >= 0) by (nonlinear_arith)
            requires
                v >= 0,
                e > 0,
        ;
        lemma_div_pos_is_pos(v * e, s);
        assert(v2 * s >= 0) by (nonlinear_arith)
            requires
                v2 >= 0,
                s > 0,
        ;
        let back = div_bits(v2, p);
        assert(back == (v2 * s) / p) by {
            lemma_trunc_div_nonneg(v2 * s, p);
        }
        lemma_div_pos_is_pos(v2 * s, p);
        lemma_fundamental_div_mod(v2 * s, p);
        let r4 = (v2 * s) % p;
        // The four remainders are all that the round trip loses.
        assert((x0 - back) * p == r1 + r2 + r3 + r4) by (nonlinear_arith)
            requires
                x0 * p == s * m1 + r1,
                m1 * s == e * v + r2,
                v * e == s * v2 + r3,
                v2 * s == p * back + r4,
        ;
        assert(back <= x0) by (nonlinear_arith)
            requires
                (x0 - back) * p >= 0,
                p > 0,
        ;
    }
}

/// Utilization bound after a decrease: any withdrawal or borrow that
/// goes through re-proves that the bank's outstanding liabilities are
/// still covered by its deposits, bypass or not.
pub proof fn lemma_utilization_bound_decrease(
    balance: Balance,
    bank: Bank,
    delta: I80F48,
    operation_type: BalanceDecreaseType,
    now: u64,
)
    ensures
        match spec_decrease_balance(balance, bank, delta, operation_type, now) {
            Ok((bal1, bank1)) => mul_bits(
                bank1.total_liability_shares.bits as int,
                bank1.liability_share_value.bits as int,
            ) <= mul_bits(
                bank1.total_asset_shares.bits as int,
                bank1.asset_share_value.bits as int,
            ),
            Err(e) => true,
        },
{
}

/// Utilization bound after an increase: a deposit or repayment of a
/// nonnegative amount can only improve a bank's utilization, so a bank
/// within bounds stays within bounds.
pub proof fn lemma_utilization_bound_increase(
    balance: Balance,
    bank: Bank,
    delta: I80F48,
    operation_type: BalanceIncreaseType,
    now: u64,
)
    requires
        mul_bits(bank.total_liability_shares.bits as int, bank.liability_share_value.bits as int)
            <= mul_bits(bank.total_asset_shares.bits as int, bank.asset_share_value.bits as int),
        0 <= delta.bits,
        0 <= balance.liability_shares.bits,
        0 < bank.asset_share_value.bits,
        0 < bank.liability_share_value.bits,
    ensures
        match spec_increase_balance(balance, bank, delta, operation_type, now) {
            Ok((bal1, bank1)) => mul_bits(
                bank1.total_liability_shares.bits as int,
                bank1.liability_share_value.bits as int,
            ) <= mul_bits(
                bank1.total_asset_shares.bits as int,
                bank1.asset_share_value.bits as int,
            ),
            Err(e) => true,
        },
{
    match spec_increase_balance(balance, bank, delta, operation_type, now) {
        Ok((bal1, bank1)) => {
            let l = balance.liability_shares.bits as int;
            let lsv = bank.liability_share_value.bits as int;
            let asv = bank.asset_share_value.bits as int;
            let tas = bank.total_asset_shares.bits as int;
            let tls = bank.total_liability_shares.bits as int;
            let la = mul_bits(l, lsv);
            assert(l * lsv >= 0) by (nonlinear_arith)
                requires
                    l >= 0,
                    lsv > 0,
            ;
            lemma_div_pos_is_pos(l * lsv, FRAC_SCALE as int);
            let liab_dec = if la <= delta.bits as int {
                la
            } else {
                delta.bits as int
            };
            let diff = delta.bits as int - la;
            let asset_inc = if diff >= 0 {
                diff
            } else {
                0
            };
            lemma_div_bits_nonneg(asset_inc, asv);
            lemma_div_bits_nonneg(liab_dec, lsv);
            let inc_shares = div_bits(asset_inc, asv);
            let dec_shares = div_bits(liab_dec, lsv);
            lemma_mul_bits_mono(tas, tas + inc_shares, asv);
            lemma_mul_bits_mono(tls - dec_shares, tls, lsv);
        },
        Err(e) => {},
    }
}

/// Health monotonicity under liquidation: whenever the pre- and
/// post-liquidation checks both pass, the liquidatee entered at or below
/// zero maintenance health and left strictly healthier, yet still at or
/// below zero: a liquidation can only help, and never over-corrects.
pub proof fn lemma_liquidation_improves_health(
    account_flags: u64,
    entries_pre: Seq<BankAccountWithPriceFeed>,
    entries_post: Seq<BankAccountWithPriceFeed>,
    bank_pk: u64,
    pre_health: int,
)
    requires
        spec_pre_liquidation(account_flags, entries_pre, bank_pk) == Ok::<int, SurroundfiError>(
            pre_health,
        ),
        spec_post_liquidation(account_flags, entries_post, bank_pk, pre_health) is Ok,
    ensures
        pre_health <= 0,
        match spec_post_liquidation(account_flags, entries_post, bank_pk, pre_health) {
            Ok(post_health) => pre_health < post_health <= 0,
            Err(e) => false,
        },
{
}

/// Interest accrual is idempotent over zero time: accruing a second time
/// at the same timestamp changes nothing.
pub proof fn lemma_accrual_idempotent_over_zero_time(bank: Bank, now: i64, group: SurroundfiGroup)
    ensures
        match spec_accrue_interest(bank, now, group) {
            Ok(bank1) => spec_accrue_interest(bank1, now, group) == Ok::<Bank, SurroundfiError>(
                bank1,
            ),
            Err(e) => true,
        },
{
}

/// Isolated-tier exclusivity: an account whose initial health gate ran
/// and passed holds a liability in an isolated bank only if that is its
/// only liability.
pub proof fn lemma_isolated_exclusivity(
    account_flags: u64,
    balances: Seq<Balance>,
    inputs: Seq<BankOracleInput>,
    now: i64,
)
    requires
        spec_init_health_check(account_flags, balances, inputs, now).0 is Some,
        spec_init_health_check(account_flags, balances, inputs, now).1 is Ok,
    ensures
        spec_load(balances, inputs, now) is Ok,
        match spec_load(balances, inputs, now) {
            Ok(es) => ({
                let (liability_count, any_isolated) = spec_liab_count_prefix(
                    es,
                    es.len() as int,
                );
                any_isolated ==> liability_count == 1
            }),
            Err(e) => false,
        },
{
}

} // verus!
