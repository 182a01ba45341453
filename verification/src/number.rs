//! Double-precision measurements, held as IEEE 754 bit patterns.

use vstd::arithmetic::power2::{
    lemma2_to64, lemma_pow2_pos, lemma_pow2_strictly_increases, pow2,
};
use vstd::bits::{lemma_u64_shl_is_mul, lemma_u64_shr_is_div};
use vstd::prelude::*;

verus! {

/// The exponent bias of the double-precision format.
pub const EXPONENT_BIAS: u64 = 1023;

/// Whether the sign bit of a bit pattern is set.
pub open spec fn is_negative(bits: u64) -> bool {
    bits >= 0x8000_0000_0000_0000
}

/// The biased exponent field of a bit pattern: 11 bits.
pub open spec fn exponent(bits: u64) -> int {
    (bits as int / 0x10_0000_0000_0000) % 0x800
}

/// The fraction field of a bit pattern: 52 bits.
pub open spec fn fraction(bits: u64) -> int {
    bits as int % 0x10_0000_0000_0000
}

/// Whether a bit pattern is a NaN.
pub open spec fn is_nan(bits: u64) -> bool {
    exponent(bits) == 0x7ff && fraction(bits) != 0
}

/// The whole part of the magnitude of the number that a bit pattern
/// denotes, for a pattern that is no NaN; infinite magnitudes count as a
/// number beyond every 64-bit integer.
pub open spec fn whole_magnitude(bits: u64) -> int {
    let e = exponent(bits);
    let significand = 0x10_0000_0000_0000 + fraction(bits);
    if e < 1023 {
        0
    } else if e <= 1075 {
        significand / pow2((1075 - e) as nat) as int
    } else {
        significand * pow2((e - 1075) as nat)
    }
}

/// The 64-bit integer nearest to the number that a bit pattern denotes,
/// among those that are not greater in magnitude: the number without its
/// fractional part, brought into the range of `i64`; zero for a NaN.
pub open spec fn truncated(bits: u64) -> int {
    if is_nan(bits) {
        0
    } else {
        let signed = if is_negative(bits) {
            -whole_magnitude(bits)
        } else {
            whole_magnitude(bits)
        };
        if signed < i64::MIN {
            i64::MIN as int
        } else if signed > i64::MAX {
            i64::MAX as int
        } else {
            signed
        }
    }
}

/// Narrows a double-precision number, given as its bit pattern, to a 64-bit
/// integer: the fractional part is dropped, a number out of range becomes
/// the nearest bound, and a NaN becomes zero.
pub fn truncate(bits: u64) -> (n: i64)
    ensures
        n == truncated(bits),
{
    let negative = bits >= 0x8000_0000_0000_0000;
    let e: u64 = (bits / 0x10_0000_0000_0000) % 0x800;
    let f: u64 = bits % 0x10_0000_0000_0000;
    let significand: u64 = 0x10_0000_0000_0000 + f;
    if e == 0x7ff && f != 0 {
        0
    } else if e < 1023 {
        0
    } else if e <= 1075 {
        let shift: u64 = 1075 - e;
        let whole: u64 = significand >> shift;
        proof {
            lemma_u64_shr_is_div(significand, shift);
            lemma_pow2_pos(shift as nat);
        }
        if negative {
            -(whole as i64)
        } else {
            whole as i64
        }
    } else if e <= 1085 {
        let shift: u64 = e - 1075;
        proof {
            lemma2_to64();
            if shift < 10 {
                lemma_pow2_strictly_increases(shift as nat, 10);
            }
            assert(significand * pow2(shift as nat) <= significand * 1024) by (nonlinear_arith)
                requires
                    0 < pow2(shift as nat) <= 1024,
                    significand >= 0,
            ;
            lemma_u64_shl_is_mul(significand, shift);
        }
        let whole: u64 = significand << shift;
        if negative {
            -(whole as i64)
        } else {
            whole as i64
        }
    } else {
        proof {
            lemma2_to64();
            if e > 1086 {
                lemma_pow2_strictly_increases(11, (e - 1075) as nat);
            }
            assert(significand * pow2((e - 1075) as nat) >= 0x10_0000_0000_0000 * 2048)
                by (nonlinear_arith)
                requires
                    pow2((e - 1075) as nat) >= 2048,
                    significand >= 0x10_0000_0000_0000,
            ;
        }
        if negative {
            i64::MIN
        } else {
            i64::MAX
        }
    }
}

} // verus!
