//! Thresholds arrive as binary64 numbers. The library holds them by their
//! IEEE-754 bit patterns and computes, with integers alone, the conversion of
//! such a number to `i64` that Rust's `as` performs: rounding toward zero,
//! NaN to zero, and saturation at the bounds of `i64`.

use vstd::prelude::*;
use vstd::arithmetic::power2::*;
use vstd::arithmetic::div_mod::lemma_basic_div;
use vstd::arithmetic::mul::lemma_mul_inequality;
use vstd::bits::*;

verus! {

/// 2^52: the weight of the implicit leading bit of a normal binary64 number.
pub open spec fn hidden_bit() -> int {
    0x10_0000_0000_0000
}

/// The sign bit of a binary64 bit pattern is set.
pub open spec fn float_negative(bits: u64) -> bool {
    bits >= 0x8000_0000_0000_0000u64
}

/// The 11-bit biased exponent field.
pub open spec fn float_exponent_field(bits: u64) -> int {
    (bits as int / hidden_bit()) % 0x800
}

/// The 52-bit fraction field.
pub open spec fn float_fraction_field(bits: u64) -> int {
    bits as int % hidden_bit()
}

/// The bit pattern encodes a NaN.
pub open spec fn float_is_nan(bits: u64) -> bool {
    float_exponent_field(bits) == 0x7ff && float_fraction_field(bits) != 0
}

/// The bit pattern encodes an infinity.
pub open spec fn float_is_infinite(bits: u64) -> bool {
    float_exponent_field(bits) == 0x7ff && float_fraction_field(bits) == 0
}

/// The significand as an integer: the fraction, with the hidden bit for normal
/// numbers.
pub open spec fn float_significand(bits: u64) -> int {
    if float_exponent_field(bits) == 0 {
        float_fraction_field(bits)
    } else {
        float_fraction_field(bits) + hidden_bit()
    }
}

/// The effective biased exponent (subnormal numbers share the exponent of the
/// smallest normal ones).
pub open spec fn float_effective_exponent(bits: u64) -> int {
    if float_exponent_field(bits) == 0 { 1 } else { float_exponent_field(bits) }
}

/// For a finite number, the integer part of its magnitude: the magnitude is
/// `significand * 2^(exponent - 1075)`.
pub open spec fn float_truncated_magnitude(bits: u64) -> int {
    let m = float_significand(bits);
    let e = float_effective_exponent(bits);
    if e >= 1075 {
        m * pow2((e - 1075) as nat)
    } else {
        m / (pow2((1075 - e) as nat) as int)
    }
}

/// An integer brought into the range of `i64` by saturation.
pub open spec fn clamp_i64(v: int) -> i64 {
    if v > i64::MAX {
        i64::MAX
    } else if v < i64::MIN {
        i64::MIN
    } else {
        v as i64
    }
}

/// What `x as i64` gives for the binary64 number `x` with this bit pattern.
pub open spec fn float_to_i64(bits: u64) -> i64 {
    if float_is_nan(bits) {
        0
    } else if float_is_infinite(bits) {
        if float_negative(bits) { i64::MIN } else { i64::MAX }
    } else if float_negative(bits) {
        clamp_i64(-float_truncated_magnitude(bits))
    } else {
        clamp_i64(float_truncated_magnitude(bits))
    }
}

/// Converts the binary64 number with the given bit pattern to `i64` as `as`
/// does: toward zero, NaN to zero, saturating out of range.
pub fn float_bits_to_i64(bits: u64) -> (r: i64)
    ensures
        r == float_to_i64(bits),
{
    let negative = bits >= 0x8000_0000_0000_0000u64;
    let exponent: u64 = (bits / 0x10_0000_0000_0000u64) % 0x800;
    let fraction: u64 = bits % 0x10_0000_0000_0000u64;
    if exponent == 0x7ff {
        if fraction != 0 {
            return 0;
        }
        return if negative { i64::MIN } else { i64::MAX };
    }
    let significand: u64 = if exponent == 0 { fraction } else { fraction + 0x10_0000_0000_0000u64 };
    let effective: u64 = if exponent == 0 { 1 } else { exponent };
    proof {
        lemma2_to64();
        lemma2_to64_rest();
        assert(significand as int == float_significand(bits));
        assert(effective as int == float_effective_exponent(bits));
        assert(significand < 0x20_0000_0000_0000u64);
    }
    if effective >= 1086 {
        proof {
            let k = (effective - 1075) as nat;
            if k > 11 {
                lemma_pow2_strictly_increases(11, k);
            }
            assert(significand >= 0x10_0000_0000_0000u64);
            lemma_mul_inequality(0x10_0000_0000_0000int, significand as int, pow2(k) as int);
            lemma_mul_inequality(pow2(11) as int, pow2(k) as int, 0x10_0000_0000_0000int);
            assert(float_truncated_magnitude(bits) >= 0x8000_0000_0000_0000int);
        }
        return if negative { i64::MIN } else { i64::MAX };
    }
    let magnitude: u64;
    if effective >= 1075 {
        let shift: u64 = effective - 1075;
        proof {
            if shift < 10 {
                lemma_pow2_strictly_increases(shift as nat, 10);
            }
            lemma_mul_inequality(significand as int, 0x1f_ffff_ffff_ffffint, pow2(shift as nat) as int);
            lemma_mul_inequality(pow2(shift as nat) as int, 0x400int, 0x1f_ffff_ffff_ffffint);
            assert(significand * pow2(shift as nat) < 0x8000_0000_0000_0000int);
            lemma_u64_shl_is_mul(significand, shift);
        }
        magnitude = significand << shift;
        assert(magnitude < 0x8000_0000_0000_0000u64);
    } else {
        let shift: u64 = 1075 - effective;
        if shift >= 64 {
            proof {
                if shift > 64 {
                    lemma_pow2_strictly_increases(64, shift as nat);
                }
                lemma_basic_div(significand as int, pow2(shift as nat) as int);
            }
            magnitude = 0;
        } else {
            proof {
                lemma_u64_shr_is_div(significand, shift);
                lemma_pow2_pos(shift as nat);
            }
            magnitude = significand >> shift;
        }
        proof {
            lemma_pow2_pos(shift as nat);
            assert(magnitude <= significand) by {
                vstd::arithmetic::div_mod::lemma_div_is_ordered_by_denominator(
                    significand as int, 1, pow2(shift as nat) as int);
            }
        }
    }
    assert(magnitude as int == float_truncated_magnitude(bits));
    assert(magnitude < 0x8000_0000_0000_0000u64);
    if negative {
        -(magnitude as i64)
    } else {
        magnitude as i64
    }
}

} // verus!
