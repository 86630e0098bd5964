//! Quantization of samples to sixteen bits.
//!
//! A sample is the bit pattern of an IEEE-754 binary32 number. Its value is
//! read off the bits as an exact fraction, so that scaling and rounding are
//! done in integers and nothing is lost on the way: the quantized value is
//! the nearest integer to the sample times the full scale, clipped to the
//! range of sixteen signed bits.

use vstd::arithmetic::power2::{
    lemma2_to64, lemma2_to64_rest, lemma_pow2_pos, lemma_pow2_strictly_increases,
    lemma_pow2_unfold, pow2,
};
use vstd::prelude::*;

verus! {

/// The largest magnitude of a quantized sample: a sample of one is scaled to
/// this.
pub const FULL_SCALE: i16 = 32767;

/// Whether the sign bit of `bits` is set.
pub open spec fn is_negative(bits: u32) -> bool {
    bits >= 0x8000_0000
}

/// The eight exponent bits of `bits`.
pub open spec fn exponent_field(bits: u32) -> int {
    (bits / 0x80_0000 % 0x100) as int
}

/// The twenty-three fraction bits of `bits`.
pub open spec fn fraction_field(bits: u32) -> int {
    (bits % 0x80_0000) as int
}

/// Whether `bits` is a number and not an infinity.
pub open spec fn is_finite(bits: u32) -> bool {
    exponent_field(bits) != 255
}

/// Whether `bits` is not a number.
pub open spec fn is_nan(bits: u32) -> bool {
    exponent_field(bits) == 255 && fraction_field(bits) != 0
}

/// The significand of a finite `bits`, as an integer: the fraction bits, with
/// the hidden leading bit unless the number is subnormal.
pub open spec fn significand(bits: u32) -> int {
    if exponent_field(bits) == 0 {
        fraction_field(bits)
    } else {
        0x80_0000 + fraction_field(bits)
    }
}

/// The power of two by which the significand of a finite `bits` is scaled.
pub open spec fn binary_exponent(bits: u32) -> int {
    if exponent_field(bits) == 0 {
        -149
    } else {
        exponent_field(bits) - 150
    }
}

/// The magnitude of a finite `bits` is `magnitude_numerator(bits)` over
/// `denominator(bits)`, exactly.
pub open spec fn magnitude_numerator(bits: u32) -> int {
    if binary_exponent(bits) >= 0 {
        significand(bits) * pow2(binary_exponent(bits) as nat)
    } else {
        significand(bits)
    }
}

/// See [`magnitude_numerator`].
pub open spec fn denominator(bits: u32) -> int {
    if binary_exponent(bits) >= 0 {
        1
    } else {
        pow2((-binary_exponent(bits)) as nat) as int
    }
}

/// The value of a finite `bits` is `numerator(bits)` over
/// `denominator(bits)`, exactly.
pub open spec fn numerator(bits: u32) -> int {
    if is_negative(bits) {
        -magnitude_numerator(bits)
    } else {
        magnitude_numerator(bits)
    }
}

/// Whether `bits` is a number between minus one and one, both included.
pub open spec fn in_unit_range(bits: u32) -> bool {
    is_finite(bits) && magnitude_numerator(bits) <= denominator(bits)
}

/// The magnitude of a finite `bits`, scaled by the full scale and rounded to
/// the nearest integer, a half away from zero.
pub open spec fn rounded_magnitude(bits: u32) -> int {
    (2 * FULL_SCALE * magnitude_numerator(bits) + denominator(bits)) / (2 * denominator(bits))
}

/// The sixteen-bit value of the sample `bits`: the sample scaled by the full
/// scale, rounded to the nearest integer and clipped to the range of sixteen
/// signed bits. An infinity is clipped like any value out of range, and what
/// is not a number becomes zero.
pub open spec fn quantized(bits: u32) -> int {
    if is_nan(bits) {
        0
    } else if !is_finite(bits) {
        if is_negative(bits) {
            -32768
        } else {
            32767
        }
    } else if is_negative(bits) {
        if rounded_magnitude(bits) >= 32768 {
            -32768
        } else {
            -rounded_magnitude(bits)
        }
    } else {
        if rounded_magnitude(bits) >= 32767 {
            32767
        } else {
            rounded_magnitude(bits)
        }
    }
}

/// The sixteen-bit values of `samples`, in order.
pub open spec fn quantized_samples(samples: Seq<u32>) -> Seq<i16> {
    Seq::new(samples.len(), |i: int| quantized(samples[i]) as i16)
}

/// A quantized sample fits in sixteen signed bits.
pub proof fn lemma_quantized_range(bits: u32)
    ensures
        -32768 <= quantized(bits) <= 32767,
{
    if is_finite(bits) {
        lemma_rounded_magnitude_bounds(bits);
    }
}

/// The rounded magnitude of a finite sample is not negative, and twice its
/// product with the denominator is within one denominator of twice the
/// scaled numerator.
pub proof fn lemma_rounded_magnitude_bounds(bits: u32)
    requires
        is_finite(bits),
    ensures
        denominator(bits) >= 1,
        magnitude_numerator(bits) >= 0,
        rounded_magnitude(bits) >= 0,
        -denominator(bits) < 2 * rounded_magnitude(bits) * denominator(bits) - 2 * FULL_SCALE
            * magnitude_numerator(bits) <= denominator(bits),
{
    let d: int = denominator(bits);
    let m: int = magnitude_numerator(bits);
    if binary_exponent(bits) >= 0 {
        lemma_pow2_pos(binary_exponent(bits) as nat);
        assert(m >= 0) by (nonlinear_arith)
            requires
                m == significand(bits) * pow2(binary_exponent(bits) as nat),
                significand(bits) >= 0,
                pow2(binary_exponent(bits) as nat) > 0,
        ;
    } else {
        lemma_pow2_pos((-binary_exponent(bits)) as nat);
    }
    let x: int = 2 * FULL_SCALE * m + d;
    let r: int = x / (2 * d);
    assert(r == rounded_magnitude(bits));
    assert(r >= 0 && 2 * d * r <= x < 2 * d * r + 2 * d) by (nonlinear_arith)
        requires
            d >= 1,
            x >= 0,
            r == x / (2 * d),
    ;
    assert(2 * r * d == 2 * d * r) by (nonlinear_arith);
}

/// Quantization is off by at most half a step. For a sample between minus
/// one and one nothing is clipped, and the quantized value over the full
/// scale differs from the sample by at most one part in twice the full
/// scale; so reading a quantized sample back gives the sample to within one
/// part in the full scale.
///
/// With the sample as `numerator` over `denominator`, the difference between
/// `quantized / FULL_SCALE` and the sample is
/// `(quantized * denominator - FULL_SCALE * numerator)` over
/// `FULL_SCALE * denominator`.
pub proof fn lemma_quantization_error(bits: u32)
    requires
        in_unit_range(bits),
    ensures
        ({
            let off: int = quantized(bits) * denominator(bits) - FULL_SCALE * numerator(bits);
            &&& -FULL_SCALE <= quantized(bits) <= FULL_SCALE
            &&& denominator(bits) >= 1
            &&& -denominator(bits) <= 2 * off <= denominator(bits)
            &&& -denominator(bits) <= off <= denominator(bits)
        }),
{
    lemma_rounded_magnitude_bounds(bits);
    let d: int = denominator(bits);
    let m: int = magnitude_numerator(bits);
    let r: int = rounded_magnitude(bits);
    assert(r <= 32767) by (nonlinear_arith)
        requires
            d >= 1,
            0 <= m <= d,
            2 * r * d - 2 * 32767 * m <= d,
            r >= 0,
    ;
    if is_negative(bits) {
        assert(quantized(bits) == -r);
        assert((-r) * d == -(r * d)) by (nonlinear_arith);
        assert(2 * r * d == 2 * (r * d)) by (nonlinear_arith);
    } else {
        assert(quantized(bits) == r);
        assert(2 * r * d == 2 * (r * d)) by (nonlinear_arith);
    }
}

/// Two to the power of `exponent`.
fn power_of_two(exponent: u32) -> (power: u64)
    requires
        exponent <= 40,
    ensures
        power == pow2(exponent as nat),
        1 <= power <= 0x100_0000_0000,
{
    proof {
        lemma2_to64();
        lemma2_to64_rest();
    }
    let mut power: u64 = 1;
    let mut i: u32 = 0;
    while i < exponent
        invariant
            i <= exponent <= 40,
            power == pow2(i as nat),
            1 <= power <= pow2(40),
            pow2(40) == 0x100_0000_0000,
        decreases exponent - i,
    {
        proof {
            lemma_pow2_unfold((i + 1) as nat);
            if i + 1 < 40 {
                lemma_pow2_strictly_increases((i + 1) as nat, 40);
            }
        }
        power = 2 * power;
        i = i + 1;
    }
    power
}

/// The sixteen-bit value of the sample `bits`.
pub fn quantize(bits: u32) -> (value: i16)
    ensures
        value == quantized(bits),
{
    let negative: bool = bits >= 0x8000_0000;
    let exponent: u32 = bits / 0x80_0000 % 0x100;
    let fraction: u32 = bits % 0x80_0000;
    if exponent == 255 {
        if fraction != 0 {
            return 0;
        }
        return if negative {
            -32768
        } else {
            32767
        };
    }
    let significand: u64 = if exponent == 0 {
        fraction as u64
    } else {
        0x80_0000 + fraction as u64
    };
    let scaled: u64 = 32767 * significand;
    // The rounded magnitude, or 32768 in place of anything above it.
    let magnitude: u64 = if exponent >= 150 {
        proof {
            let e: nat = binary_exponent(bits) as nat;
            lemma_pow2_pos(e);
            let m: int = magnitude_numerator(bits);
            assert(m >= 0x80_0000) by (nonlinear_arith)
                requires
                    m == significand * pow2(e),
                    significand >= 0x80_0000,
                    pow2(e) >= 1,
            ;
            assert(rounded_magnitude(bits) == (2 * 32767 * m + 1) / 2);
        }
        32768
    } else {
        let shift: u32 = if exponent == 0 {
            149
        } else {
            150 - exponent
        };
        assert(shift as int == -binary_exponent(bits));
        if shift > 40 {
            proof {
                lemma2_to64();
                lemma2_to64_rest();
                if shift > 41 {
                    lemma_pow2_strictly_increases(41, shift as nat);
                }
                let d: int = denominator(bits);
                assert(d >= 0x200_0000_0000);
                let x: int = 2 * 32767 * significand + d;
                assert(2 * 32767 * significand == 65534 * significand) by (nonlinear_arith);
                assert(x / (2 * d) == 0) by (nonlinear_arith)
                    requires
                        0 <= x < 2 * d,
                ;
            }
            0
        } else {
            let d: u64 = power_of_two(shift);
            let rounded: u64 = (2 * scaled + d) / (2 * d);
            assert(rounded == rounded_magnitude(bits));
            if rounded > 32768 {
                32768
            } else {
                rounded
            }
        }
    };
    if negative {
        (0 - magnitude as i32) as i16
    } else if magnitude >= 32767 {
        32767
    } else {
        magnitude as i16
    }
}

/// The sixteen-bit values of `samples`, in order.
pub fn quantize_samples(samples: &[u32]) -> (values: Vec<i16>)
    ensures
        values@ == quantized_samples(samples@),
{
    let mut values: Vec<i16> = Vec::new();
    let mut i: usize = 0;
    while i < samples.len()
        invariant
            i <= samples@.len(),
            values@.len() == i,
            forall|j: int| 0 <= j < i ==> values@[j] == quantized_samples(samples@)[j],
        decreases samples@.len() - i,
    {
        values.push(quantize(samples[i]));
        i = i + 1;
    }
    assert(values@ =~= quantized_samples(samples@));
    values
}

} // verus!
