//! The on-disk form of the fixed-point number: sixteen little-endian
//! bytes of the raw two's-complement value. Decoding what was encoded
//! gives back the number exactly; that lossless round trip is proved
//! here as an executable fact.

use vstd::prelude::*;
use vstd::arithmetic::div_mod::lemma_fundamental_div_mod;
use crate::i80f48::I80F48;

verus! {

/// 256 to the given power: the place value of each byte.
pub open spec fn pow256(i: nat) -> int
    decreases i,
{
    if i == 0 {
        1
    } else {
        256 * pow256((i - 1) as nat)
    }
}

/// The integer the first `n` little-endian bytes encode.
pub open spec fn spec_le_bytes_value(bytes: Seq<u8>, n: int) -> int
    decreases n,
{
    if n <= 0 {
        0
    } else {
        spec_le_bytes_value(bytes, n - 1) + bytes[n - 1] * pow256((n - 1) as nat)
    }
}

/// Place values are positive.
proof fn lemma_pow256_pos(i: nat)
    ensures
        0 < pow256(i),
    decreases i,
{
    if i > 0 {
        lemma_pow256_pos((i - 1) as nat);
    }
}

/// The value of `n` bytes stays below the place value of the next byte.
proof fn lemma_le_value_bound(bytes: Seq<u8>, n: int)
    requires
        0 <= n <= bytes.len(),
    ensures
        0 <= spec_le_bytes_value(bytes, n) < pow256(n as nat),
    decreases n,
{
    if n > 0 {
        lemma_le_value_bound(bytes, n - 1);
        lemma_pow256_pos((n - 1) as nat);
        assert(bytes[n - 1] * pow256((n - 1) as nat) <= 255 * pow256((n - 1) as nat))
            by (nonlinear_arith)
            requires
                bytes[n - 1] <= 255,
                pow256((n - 1) as nat) > 0,
        ;
    }
}

/// The value of a prefix ignores everything after it.
proof fn lemma_le_value_prefix(b1: Seq<u8>, b2: Seq<u8>, n: int)
    requires
        forall|j: int| 0 <= j < n ==> b1[j] == b2[j],
    ensures
        spec_le_bytes_value(b1, n) == spec_le_bytes_value(b2, n),
    decreases n,
{
    if n > 0 {
        lemma_le_value_prefix(b1, b2, n - 1);
    }
}

/// The stored form: sixteen little-endian bytes of the two's-complement
/// raw value.
#[derive(Clone, Debug)]
pub struct WrappedI80F48 {
    /// The bytes, lowest place first.
    pub value: Vec<u8>,
}

impl WrappedI80F48 {
    /// Well-formedness: exactly sixteen bytes.
    pub open spec fn wf(self) -> bool {
        self.value@.len() == 16
    }

    /// Encode a number into its stored form: the raw value, reduced to
    /// its unsigned two's-complement image, written out base 256.
    pub fn from_num(x: I80F48) -> (r: WrappedI80F48)
        ensures
            r.wf(),
            spec_le_bytes_value(r.value@, 16) == x.bits as u128,
    {
        let u: u128 = x.bits as u128;
        let mut bytes: Vec<u8> = Vec::new();
        let mut rem: u128 = u;
        let mut i: usize = 0;
        while i < 16
            invariant
                i <= 16,
                bytes@.len() == i,
                u == spec_le_bytes_value(bytes@, i as int) + rem * pow256(i as nat),
            decreases 16 - i,
        {
            let b: u8 = (rem % 256) as u8;
            let ghost old_bytes = bytes@;
            let ghost old_rem = rem as int;
            bytes.push(b);
            rem = rem / 256;
            proof {
                lemma_le_value_prefix(old_bytes, bytes@, i as int);
                lemma_fundamental_div_mod(old_rem, 256);
                lemma_pow256_pos(i as nat);
                assert(old_rem * pow256(i as nat) == (old_rem % 256) * pow256(i as nat) + (old_rem
                    / 256) * (256 * pow256(i as nat))) by (nonlinear_arith)
                    requires
                        old_rem == 256 * (old_rem / 256) + (old_rem % 256),
                ;
            }
            i = i + 1;
        }
        proof {
            // After sixteen digits nothing remains: the value fits the
            // sixteen places exactly.
            lemma_le_value_bound(bytes@, 16);
            lemma_pow256_pos(16);
            assert(pow256(16) == 0x100000000000000000000000000000000) by {
                reveal_with_fuel(pow256, 17);
            }
            assert(rem == 0) by (nonlinear_arith)
                requires
                    u == spec_le_bytes_value(bytes@, 16) + rem * pow256(16 as nat),
                    0 <= spec_le_bytes_value(bytes@, 16),
                    u < pow256(16 as nat),
                    pow256(16 as nat) > 0,
                    rem >= 0,
            ;
        }
        WrappedI80F48 { value: bytes }
    }

    /// Decode the stored form back into the number: read the sixteen
    /// digits, reassemble the unsigned image, reinterpret it as the
    /// signed raw value.
    pub fn to_num(&self) -> (r: I80F48)
        requires
            self.wf(),
        ensures
            r.bits as u128 == spec_le_bytes_value(self.value@, 16),
    {
        let mut acc: u128 = 0;
        let mut mult: u128 = 1;
        let mut i: usize = 0;
        while i < 16
            invariant
                i <= 16,
                self.value@.len() == 16,
                i < 16 ==> mult == pow256(i as nat),
                acc == spec_le_bytes_value(self.value@, i as int),
            decreases 16 - i,
        {
            proof {
                lemma_le_value_bound(self.value@, i as int);
                lemma_le_value_bound(self.value@, i + 1);
                lemma_pow256_pos(i as nat);
                assert(pow256(16) == 0x100000000000000000000000000000000) by {
                    reveal_with_fuel(pow256, 17);
                }
                lemma_pow256_mono((i + 1) as nat, 16);
            }
            acc = acc + (self.value[i] as u128) * mult;
            i = i + 1;
            if i < 16 {
                proof {
                    assert(pow256(15) == 0x1000000000000000000000000000000) by {
                        reveal_with_fuel(pow256, 16);
                    }
                    lemma_pow256_mono(i as nat, 15);
                    lemma_pow256_pos(i as nat);
                }
                mult = mult * 256;
            }
        }
        let bits: i128 = acc as i128;
        proof {
            assert(acc as i128 as u128 == acc) by (bit_vector);
        }
        I80F48 { bits }
    }
}

/// Smaller exponents give smaller place values.
proof fn lemma_pow256_mono(i: nat, j: nat)
    requires
        i <= j,
    ensures
        pow256(i) <= pow256(j),
    decreases j,
{
    if i < j {
        lemma_pow256_mono(i, (j - 1) as nat);
        lemma_pow256_pos((j - 1) as nat);
    }
}

/// The stored representation round-trips losslessly: decoding an encoded
/// number gives the number back, bit for bit.
pub fn round_trip_through_storage(x: I80F48) -> (r: I80F48)
    ensures
        r == x,
{
    let w = WrappedI80F48::from_num(x);
    let r = w.to_num();
    proof {
        let a = r.bits;
        let b = x.bits;
        assert(a as u128 == b as u128 ==> a == b) by (bit_vector);
    }
    r
}

} // verus!
