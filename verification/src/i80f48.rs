//! Fixed-point numeric layer: a signed decimal with 80 integer bits and 48
//! fractional bits, stored as a 128-bit two's-complement raw value. All money
//! math of the protocol (shares, prices, weights, rates) uses this type; any
//! overflow is surfaced as `None` and never wraps silently.
//!
//! Addition, subtraction, comparison, and conversion from integers are
//! verified directly. Multiplication, division, floor, ceiling, and
//! conversion to integers go through the `fixed` crate behind trusted
//! wrappers whose contracts state the exact integer semantics of that crate:
//! multiplication is the exact product scaled down by the fractional width
//! and rounded toward negative infinity; division is the scaled-up dividend
//! divided with truncation toward zero.

use vstd::prelude::*;

verus! {

/// The unit of the raw representation: one equals 2^48 raw steps.
pub const FRAC_SCALE: i128 = 0x1000000000000;

/// Whether a mathematical integer fits the 128-bit raw representation.
pub open spec fn fits_i128(x: int) -> bool {
    i128::MIN <= x <= i128::MAX
}

/// Absolute value of a mathematical integer.
pub open spec fn int_abs(x: int) -> int {
    if x >= 0 {
        x
    } else {
        -x
    }
}

/// Integer division rounded toward zero, as the hardware divides.
pub open spec fn trunc_div(n: int, d: int) -> int {
    if (n >= 0) == (d >= 0) {
        int_abs(n) / int_abs(d)
    } else {
        -(int_abs(n) / int_abs(d))
    }
}

/// Raw result of fixed-point multiplication: the exact product of the raw
/// values scaled down by the fractional width, rounded toward negative
/// infinity.
pub open spec fn mul_bits(a: int, b: int) -> int {
    (a * b) / (FRAC_SCALE as int)
}

/// Raw result of fixed-point division: the raw dividend scaled up by the
/// fractional width, divided by the raw divisor with truncation toward zero.
pub open spec fn div_bits(a: int, b: int) -> int {
    trunc_div(a * (FRAC_SCALE as int), b)
}

/// Largest multiple of the fractional scale that is at or below `a`; this is
/// the raw value of the floor. It always fits, because the smallest raw
/// value is itself a multiple of the scale.
pub open spec fn floor_bits(a: int) -> int {
    a - (a % (FRAC_SCALE as int))
}

/// Smallest multiple of the fractional scale at or above `a`; the raw value
/// of the ceiling. Near the top of the range it may not fit the raw width.
pub open spec fn ceil_bits(a: int) -> int {
    if a % (FRAC_SCALE as int) == 0 {
        a
    } else {
        a - (a % (FRAC_SCALE as int)) + (FRAC_SCALE as int)
    }
}

/// The integer part of a raw value, rounded toward negative infinity.
pub open spec fn to_int_floor(a: int) -> int {
    a / (FRAC_SCALE as int)
}

/// A mathematical integer clamped to the representable raw range.
pub open spec fn sat_bits(x: int) -> int {
    if x > i128::MAX {
        i128::MAX as int
    } else if x < i128::MIN {
        i128::MIN as int
    } else {
        x
    }
}

/// Checked raw addition: the exact sum, or `None` out of range.
pub open spec fn s_add(a: int, b: int) -> Option<int> {
    if fits_i128(a + b) {
        Some(a + b)
    } else {
        None
    }
}

/// Checked raw subtraction: the exact difference, or `None` out of range.
pub open spec fn s_sub(a: int, b: int) -> Option<int> {
    if fits_i128(a - b) {
        Some(a - b)
    } else {
        None
    }
}

/// Checked fixed-point multiplication on raw values.
pub open spec fn s_mul(a: int, b: int) -> Option<int> {
    if fits_i128(mul_bits(a, b)) {
        Some(mul_bits(a, b))
    } else {
        None
    }
}

/// Checked fixed-point division on raw values.
pub open spec fn s_div(a: int, b: int) -> Option<int> {
    if b != 0 && fits_i128(div_bits(a, b)) {
        Some(div_bits(a, b))
    } else {
        None
    }
}

/// Flooring to a whole multiple of the scale does not change the integer
/// part.
pub proof fn lemma_floor_keeps_int_part(a: int)
    ensures
        to_int_floor(floor_bits(a)) == to_int_floor(a),
{
    let s = FRAC_SCALE as int;
    let q = a / s;
    vstd::arithmetic::div_mod::lemma_fundamental_div_mod(a, s);
    assert(floor_bits(a) == s * q);
    vstd::arithmetic::div_mod::lemma_div_multiples_vanish(q, s);
}

/// The signed fixed-point number: `bits` counts steps of 2^-48.
#[derive(Clone, Copy, Debug, PartialEq, Eq, Structural)]
pub struct I80F48 {
    pub bits: i128,
}

/// Relies on `fixed::types::I80F48::checked_mul` (fixed 1.31): the full
/// 256-bit product of the raw representations, arithmetically shifted right
/// by the 48 fractional bits (rounding toward negative infinity), or `None`
/// where the shifted product does not fit 128 bits.
#[verifier::external_body]
fn mul_raw(a: i128, b: i128) -> (r: Option<i128>)
    ensures
        fits_i128(mul_bits(a as int, b as int)) ==> r == Some(mul_bits(a as int, b as int) as i128),
        !fits_i128(mul_bits(a as int, b as int)) ==> r is None,
{
    let fa = fixed::types::I80F48::from_bits(a);
    let fb = fixed::types::I80F48::from_bits(b);
    match fa.checked_mul(fb) {
        Some(x) => Some(x.to_bits()),
        None => None,
    }
}

/// Relies on `fixed::types::I80F48::checked_div` (fixed 1.31): the raw
/// dividend widened and shifted up by the 48 fractional bits, divided by the
/// raw divisor with truncation toward zero; `None` on a zero divisor or
/// where the quotient does not fit 128 bits.
#[verifier::external_body]
fn div_raw(a: i128, b: i128) -> (r: Option<i128>)
    ensures
        b == 0 ==> r is None,
        b != 0 && fits_i128(div_bits(a as int, b as int)) ==> r == Some(
            div_bits(a as int, b as int) as i128,
        ),
        b != 0 && !fits_i128(div_bits(a as int, b as int)) ==> r is None,
{
    let fa = fixed::types::I80F48::from_bits(a);
    let fb = fixed::types::I80F48::from_bits(b);
    match fa.checked_div(fb) {
        Some(x) => Some(x.to_bits()),
        None => None,
    }
}

/// Relies on `fixed::types::I80F48::checked_floor` (fixed 1.31): rounds to
/// the largest integral value at or below the argument. For this type the
/// floor always fits, so the result is never `None`.
#[verifier::external_body]
fn floor_raw(a: i128) -> (r: Option<i128>)
    ensures
        r == Some(floor_bits(a as int) as i128),
{
    let fa = fixed::types::I80F48::from_bits(a);
    match fa.checked_floor() {
        Some(x) => Some(x.to_bits()),
        None => None,
    }
}

/// Relies on `fixed::types::I80F48::checked_ceil` (fixed 1.31): rounds to
/// the smallest integral value at or above the argument, or `None` where
/// that overflows the raw width.
#[verifier::external_body]
fn ceil_raw(a: i128) -> (r: Option<i128>)
    ensures
        fits_i128(ceil_bits(a as int)) ==> r == Some(ceil_bits(a as int) as i128),
        !fits_i128(ceil_bits(a as int)) ==> r is None,
{
    let fa = fixed::types::I80F48::from_bits(a);
    match fa.checked_ceil() {
        Some(x) => Some(x.to_bits()),
        None => None,
    }
}

/// Relies on `fixed::types::I80F48::checked_to_num::<u64>` (fixed 1.31):
/// the integer part rounded toward negative infinity, or `None` where that
/// does not fit an unsigned 64-bit integer.
#[verifier::external_body]
fn to_num_u64_raw(a: i128) -> (r: Option<u64>)
    ensures
        0 <= to_int_floor(a as int) <= u64::MAX ==> r == Some(to_int_floor(a as int) as u64),
        !(0 <= to_int_floor(a as int) <= u64::MAX) ==> r is None,
{
    let fa = fixed::types::I80F48::from_bits(a);
    fa.checked_to_num::<u64>()
}

impl I80F48 {
    /// The number whose raw representation is `bits`.
    pub fn from_bits(bits: i128) -> (r: I80F48)
        ensures
            r.bits == bits,
    {
        I80F48 { bits }
    }

    /// The raw representation.
    pub fn to_bits(self) -> (r: i128)
        ensures
            r == self.bits,
    {
        self.bits
    }

    /// Zero.
    pub fn zero() -> (r: I80F48)
        ensures
            r.bits == 0,
    {
        I80F48 { bits: 0 }
    }

    /// One.
    pub fn one() -> (r: I80F48)
        ensures
            r.bits == FRAC_SCALE,
    {
        I80F48 { bits: FRAC_SCALE }
    }

    /// The fixed-point number equal to the given token amount.
    pub fn from_num(v: u64) -> (r: I80F48)
        ensures
            r.bits == v * FRAC_SCALE,
    {
        I80F48 { bits: (v as i128) * FRAC_SCALE }
    }

    /// The fixed-point number equal to the given signed integer.
    pub fn from_num_i64(v: i64) -> (r: I80F48)
        ensures
            r.bits == v * FRAC_SCALE,
    {
        I80F48 { bits: (v as i128) * FRAC_SCALE }
    }

    /// Exact sum, or `None` where it leaves the representable range.
    pub fn checked_add(self, rhs: I80F48) -> (r: Option<I80F48>)
        ensures
            fits_i128(self.bits + rhs.bits) ==> r == Some(
                I80F48 { bits: (self.bits + rhs.bits) as i128 },
            ),
            !fits_i128(self.bits + rhs.bits) ==> r is None,
    {
        if rhs.bits >= 0 {
            if self.bits <= i128::MAX - rhs.bits {
                Some(I80F48 { bits: self.bits + rhs.bits })
            } else {
                None
            }
        } else {
            if self.bits >= i128::MIN - rhs.bits {
                Some(I80F48 { bits: self.bits + rhs.bits })
            } else {
                None
            }
        }
    }

    /// Exact difference, or `None` where it leaves the representable range.
    pub fn checked_sub(self, rhs: I80F48) -> (r: Option<I80F48>)
        ensures
            fits_i128(self.bits - rhs.bits) ==> r == Some(
                I80F48 { bits: (self.bits - rhs.bits) as i128 },
            ),
            !fits_i128(self.bits - rhs.bits) ==> r is None,
    {
        if rhs.bits <= 0 {
            if self.bits <= i128::MAX + rhs.bits {
                Some(I80F48 { bits: self.bits - rhs.bits })
            } else {
                None
            }
        } else {
            if self.bits >= i128::MIN + rhs.bits {
                Some(I80F48 { bits: self.bits - rhs.bits })
            } else {
                None
            }
        }
    }

    /// Exact negation, or `None` for the one value whose negation does not
    /// fit.
    pub fn checked_neg(self) -> (r: Option<I80F48>)
        ensures
            fits_i128(-self.bits) ==> r == Some(I80F48 { bits: (-self.bits) as i128 }),
            !fits_i128(-self.bits) ==> r is None,
    {
        if self.bits == i128::MIN {
            None
        } else {
            Some(I80F48 { bits: -self.bits })
        }
    }

    /// Fixed-point product, rounded toward negative infinity; `None` on
    /// overflow.
    pub fn checked_mul(self, rhs: I80F48) -> (r: Option<I80F48>)
        ensures
            fits_i128(mul_bits(self.bits as int, rhs.bits as int)) ==> r == Some(
                I80F48 { bits: mul_bits(self.bits as int, rhs.bits as int) as i128 },
            ),
            !fits_i128(mul_bits(self.bits as int, rhs.bits as int)) ==> r is None,
    {
        match mul_raw(self.bits, rhs.bits) {
            Some(bits) => Some(I80F48 { bits }),
            None => None,
        }
    }

    /// Fixed-point quotient, truncated toward zero; `None` on a zero divisor
    /// or overflow.
    pub fn checked_div(self, rhs: I80F48) -> (r: Option<I80F48>)
        ensures
            rhs.bits == 0 ==> r is None,
            rhs.bits != 0 && fits_i128(div_bits(self.bits as int, rhs.bits as int)) ==> r == Some(
                I80F48 { bits: div_bits(self.bits as int, rhs.bits as int) as i128 },
            ),
            rhs.bits != 0 && !fits_i128(div_bits(self.bits as int, rhs.bits as int)) ==> r is None,
    {
        match div_raw(self.bits, rhs.bits) {
            Some(bits) => Some(I80F48 { bits }),
            None => None,
        }
    }

    /// Largest integral value at or below this one; never fails for this
    /// type.
    pub fn checked_floor(self) -> (r: Option<I80F48>)
        ensures
            r == Some(I80F48 { bits: floor_bits(self.bits as int) as i128 }),
    {
        match floor_raw(self.bits) {
            Some(bits) => Some(I80F48 { bits }),
            None => None,
        }
    }

    /// Smallest integral value at or above this one, or `None` where that
    /// overflows.
    pub fn checked_ceil(self) -> (r: Option<I80F48>)
        ensures
            fits_i128(ceil_bits(self.bits as int)) ==> r == Some(
                I80F48 { bits: ceil_bits(self.bits as int) as i128 },
            ),
            !fits_i128(ceil_bits(self.bits as int)) ==> r is None,
    {
        match ceil_raw(self.bits) {
            Some(bits) => Some(I80F48 { bits }),
            None => None,
        }
    }

    /// The integer part rounded toward negative infinity, or `None` where it
    /// does not fit an unsigned 64-bit amount.
    pub fn checked_to_num_u64(self) -> (r: Option<u64>)
        ensures
            0 <= to_int_floor(self.bits as int) <= u64::MAX ==> r == Some(
                to_int_floor(self.bits as int) as u64,
            ),
            !(0 <= to_int_floor(self.bits as int) <= u64::MAX) ==> r is None,
    {
        to_num_u64_raw(self.bits)
    }

    /// Sum clamped to the representable range.
    pub fn saturating_add(self, rhs: I80F48) -> (r: I80F48)
        ensures
            r.bits == sat_bits(self.bits + rhs.bits),
    {
        match self.checked_add(rhs) {
            Some(v) => v,
            None => {
                if rhs.bits >= 0 {
                    I80F48 { bits: i128::MAX }
                } else {
                    I80F48 { bits: i128::MIN }
                }
            },
        }
    }

    /// Difference clamped to the representable range.
    pub fn saturating_sub(self, rhs: I80F48) -> (r: I80F48)
        ensures
            r.bits == sat_bits(self.bits - rhs.bits),
    {
        match self.checked_sub(rhs) {
            Some(v) => v,
            None => {
                if rhs.bits <= 0 {
                    I80F48 { bits: i128::MAX }
                } else {
                    I80F48 { bits: i128::MIN }
                }
            },
        }
    }

    /// Whether this value is strictly above the given tolerance.
    pub fn is_positive_with_tolerance(self, tolerance: I80F48) -> (r: bool)
        ensures
            r == (self.bits > tolerance.bits),
    {
        self.bits > tolerance.bits
    }

    /// Whether the magnitude of this value is below the given tolerance.
    pub fn is_zero_with_tolerance(self, tolerance: I80F48) -> (r: bool)
        ensures
            r == (int_abs(self.bits as int) < tolerance.bits),
    {
        if self.bits >= 0 {
            self.bits < tolerance.bits
        } else {
            if self.bits == i128::MIN {
                false
            } else {
                -self.bits < tolerance.bits
            }
        }
    }

    /// Whether this value is exactly zero.
    pub fn is_zero(self) -> (r: bool)
        ensures
            r == (self.bits == 0),
    {
        self.bits == 0
    }

    /// Whether this value is strictly positive.
    pub fn is_positive(self) -> (r: bool)
        ensures
            r == (self.bits > 0),
    {
        self.bits > 0
    }

    /// Raw-value comparison: strictly less.
    pub fn lt(self, rhs: I80F48) -> (r: bool)
        ensures
            r == (self.bits < rhs.bits),
    {
        self.bits < rhs.bits
    }

    /// Raw-value comparison: at most.
    pub fn le(self, rhs: I80F48) -> (r: bool)
        ensures
            r == (self.bits <= rhs.bits),
    {
        self.bits <= rhs.bits
    }

    /// Raw-value comparison: strictly greater.
    pub fn gt(self, rhs: I80F48) -> (r: bool)
        ensures
            r == (self.bits > rhs.bits),
    {
        self.bits > rhs.bits
    }

    /// Raw-value comparison: at least.
    pub fn ge(self, rhs: I80F48) -> (r: bool)
        ensures
            r == (self.bits >= rhs.bits),
    {
        self.bits >= rhs.bits
    }

    /// The smaller of two values.
    pub fn min(self, rhs: I80F48) -> (r: I80F48)
        ensures
            r.bits == if self.bits <= rhs.bits {
                self.bits
            } else {
                rhs.bits
            },
    {
        if self.bits <= rhs.bits {
            self
        } else {
            rhs
        }
    }

    /// The larger of two values.
    pub fn max(self, rhs: I80F48) -> (r: I80F48)
        ensures
            r.bits == if self.bits >= rhs.bits {
                self.bits
            } else {
                rhs.bits
            },
    {
        if self.bits >= rhs.bits {
            self
        } else {
            rhs
        }
    }
}

} // verus!
