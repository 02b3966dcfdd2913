//! The fixed-point layer against the outside crate it trusts, plus the
//! scaling table, transfer-fee arithmetic, and error codes.

use surroundfi::constants::{exp_10_i80f48, SECONDS_PER_YEAR_BITS};
use surroundfi::errors::SurroundfiError;
use surroundfi::i80f48::{I80F48, FRAC_SCALE};
use surroundfi::ops::{
    calculate_post_fee_spl_deposit_amount, calculate_pre_fee_spl_deposit_amount,
};
use surroundfi::risk::{calc_amount, calc_value};

type RefFx = fixed::types::I80F48;

fn of(v: f64) -> I80F48 {
    I80F48::from_bits(RefFx::from_num(v).to_bits())
}

#[test]
fn multiplication_matches_reference() {
    let a = I80F48::from_num(6);
    let b = I80F48::from_num(7);
    assert_eq!(a.checked_mul(b), Some(I80F48::from_num(42)));

    // A fractional product, checked bit for bit against the reference.
    let x = of(1.5);
    let y = of(2.25);
    let expected = RefFx::from_num(1.5).checked_mul(RefFx::from_num(2.25)).unwrap();
    assert_eq!(x.checked_mul(y).unwrap().to_bits(), expected.to_bits());

    // Overflow yields nothing rather than wrapping.
    let huge = I80F48::from_bits(i128::MAX);
    assert_eq!(huge.checked_mul(huge), None);
}

#[test]
fn division_matches_reference() {
    let a = I80F48::from_num(7);
    let b = I80F48::from_num(2);
    assert_eq!(a.checked_div(b), Some(of(3.5)));
    assert_eq!(a.checked_div(I80F48::zero()), None);

    // Negative quotients truncate toward zero, as the reference does.
    let n = I80F48::from_num_i64(-7);
    let expected = RefFx::from_num(-7).checked_div(RefFx::from_num(2)).unwrap();
    assert_eq!(n.checked_div(b).unwrap().to_bits(), expected.to_bits());
}

#[test]
fn floor_ceil_and_to_num() {
    let x = of(2.5);
    assert_eq!(x.checked_floor(), Some(I80F48::from_num(2)));
    assert_eq!(x.checked_ceil(), Some(I80F48::from_num(3)));
    assert_eq!(x.checked_to_num_u64(), Some(2));

    let n = of(-2.5);
    assert_eq!(n.checked_floor(), Some(I80F48::from_num_i64(-3)));
    assert_eq!(n.checked_ceil(), Some(I80F48::from_num_i64(-2)));
    // A negative value does not fit an unsigned amount.
    assert_eq!(n.checked_to_num_u64(), None);

    // Whole values pass through all three untouched.
    let w = I80F48::from_num(41);
    assert_eq!(w.checked_floor(), Some(w));
    assert_eq!(w.checked_ceil(), Some(w));
    assert_eq!(w.checked_to_num_u64(), Some(41));
}

#[test]
fn addition_saturation_and_comparison() {
    let a = I80F48::from_num(3);
    let b = I80F48::from_num(4);
    assert_eq!(a.checked_add(b), Some(I80F48::from_num(7)));
    assert_eq!(a.checked_sub(b), Some(I80F48::from_num_i64(-1)));
    let top = I80F48::from_bits(i128::MAX);
    assert_eq!(top.checked_add(I80F48::one()), None);
    assert_eq!(top.saturating_add(I80F48::one()), top);
    assert!(a.lt(b));
    assert!(b.ge(a));
    assert_eq!(a.min(b), a);
    assert_eq!(a.max(b), b);
}

#[test]
fn scaling_table_matches_reference() {
    for d in 0u8..24 {
        let expected = RefFx::from_num(10u128.pow(d as u32));
        assert_eq!(exp_10_i80f48(d).to_bits(), expected.to_bits());
    }
    let year = RefFx::from_num(31_536_000u64);
    assert_eq!(SECONDS_PER_YEAR_BITS, year.to_bits());
    assert_eq!(FRAC_SCALE, RefFx::from_num(1).to_bits());
}

#[test]
fn transfer_fee_round_trip() {
    // No fee configured: both directions are the identity.
    assert_eq!(calculate_post_fee_spl_deposit_amount(0, 50, 1000), 1000);
    assert_eq!(calculate_pre_fee_spl_deposit_amount(0, 50, 1000), Ok(1000));

    // One percent fee: sending the computed gross amount nets at least
    // the target.
    let pre = calculate_pre_fee_spl_deposit_amount(100, u64::MAX, 1000).unwrap();
    assert_eq!(pre, 1011);
    let post = calculate_post_fee_spl_deposit_amount(100, u64::MAX, pre);
    assert!(post >= 1000);

    // The cap binds: the fee never exceeds the configured maximum.
    let capped = calculate_pre_fee_spl_deposit_amount(5000, 3, 1000).unwrap();
    assert_eq!(capped, 1003);
    assert_eq!(calculate_post_fee_spl_deposit_amount(5000, 3, capped), 1000);
}

#[test]
fn error_codes_round_trip() {
    assert_eq!(SurroundfiError::InternalLogicError.error_code(), 6000);
    assert_eq!(SurroundfiError::MathError.error_code(), 6062);
    assert_eq!(SurroundfiError::from(6062u32), SurroundfiError::MathError);
    assert_eq!(
        SurroundfiError::from(6009u32),
        SurroundfiError::RiskEngineInitRejected
    );
    // Unmapped codes fall back to the internal-logic error.
    assert_eq!(SurroundfiError::from(42u32), SurroundfiError::InternalLogicError);
    assert_eq!(
        SurroundfiError::WorseHealthPostLiquidation.error_code(),
        6072
    );
}

#[test]
fn storage_round_trip_matches_reference_layout() {
    let x = of(123.456);
    let w = surroundfi::wrapped::WrappedI80F48::from_num(x);
    // The same sixteen little-endian bytes the trusted outside crate
    // writes on disk.
    let reference = RefFx::from_bits(x.to_bits()).to_le_bytes();
    assert_eq!(w.value, reference.to_vec());
    assert_eq!(w.to_num(), x);

    // Negative values survive the two's-complement round trip too.
    let neg = of(-42.5);
    let w2 = surroundfi::wrapped::WrappedI80F48::from_num(neg);
    assert_eq!(w2.value, RefFx::from_bits(neg.to_bits()).to_le_bytes().to_vec());
    assert_eq!(w2.to_num(), neg);
    assert_eq!(surroundfi::wrapped::round_trip_through_storage(neg), neg);
}

#[test]
fn value_amount_round_trip() {
    // A quantity priced and converted back with matching scales: this
    // instance loses nothing at all.
    let p = of(1.37);
    let x = I80F48::from_num(1_000_000);
    let v = calc_value(x, p, 6, None).unwrap();
    let back = calc_amount(v, p, 6).unwrap();
    assert_eq!(back, x);

    // A lossy instance: the decimal-exponent scaling truncates, yet the
    // trip never returns more than was put in, and never goes negative.
    let x2 = I80F48::from_num(7);
    let v2 = calc_value(x2, p, 2, None).unwrap();
    let back2 = calc_amount(v2, p, 2).unwrap();
    assert!(back2.le(x2));
    assert!(back2.ge(I80F48::zero()));
}

#[test]
fn share_amount_round_trip_within_one_unit() {
    // An awkward share price: the round trip through shares loses less
    // than one unit of the price, and never gains.
    let v = of(1.37);
    let x = I80F48::from_num(1_000_000);
    let shares = x.checked_div(v).unwrap();
    let back = shares.checked_mul(v).unwrap();
    assert!(back.le(x));
    let lost = x.checked_sub(back).unwrap();
    assert!(lost.lt(v.checked_add(I80F48::one()).unwrap()));
}
