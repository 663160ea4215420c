//! Fixed-point arithmetic for the property-resolution layer.
//!
//! Telemetry fields arrive as IEEE-754 single-precision bit patterns, which
//! the decoder passes through untouched.  Before a value takes part in rate
//! arithmetic it is converted, exactly and deterministically, to a
//! fixed-point integer in units of 2^-16.  The conversion truncates toward
//! zero, saturates at `FX_MAX`, and maps infinities and NaN to zero, so every
//! downstream computation stays in plain integers.

use vstd::prelude::*;
use vstd::arithmetic::power2::{lemma2_to64, lemma2_to64_rest, lemma_pow2_strictly_increases, pow2};
use vstd::arithmetic::div_mod::{lemma_basic_div, lemma_div_pos_is_pos, lemma_multiply_divide_lt};
use vstd::arithmetic::mul::lemma_mul_strict_inequality;
use vstd::bits::{lemma_u64_shl_is_mul, lemma_u64_shr_is_div};

verus! {

/// One whole unit in fixed-point form: 2^16.
pub const FX_ONE: i64 = 0x10000;

/// Saturation bound of the conversion: 2^61 fixed-point units.
///
/// Keeping converted magnitudes at or below this bound leaves headroom so
/// that a difference of two converted values never overflows an `i64`.
pub const FX_MAX: i64 = 0x2000_0000_0000_0000;

/// The fixed-point value (units of 2^-16) denoted by the IEEE-754
/// single-precision bit pattern `b`.
///
/// Normal and subnormal numbers convert to their value truncated toward
/// zero, saturated at `FX_MAX` in magnitude; infinities and NaN (exponent
/// field all ones) convert to zero.
pub open spec fn fx_of_bits(b: u32) -> int {
    let sign = b >> 31;
    let e = (b >> 23) & 0xff;
    let m = b & 0x7fffff;
    if e == 255 {
        0
    } else {
        let frac: int = if e == 0 { m as int } else { m + 0x800000 };
        let ebase: int = if e == 0 { 1 } else { e as int };
        let mag: int = if ebase >= 134 {
            frac * pow2((ebase - 134) as nat)
        } else {
            frac / pow2((134 - ebase) as nat) as int
        };
        let mag_sat: int = if mag > FX_MAX { FX_MAX as int } else { mag };
        if sign == 1 { -mag_sat } else { mag_sat }
    }
}

/// Converts a single-precision bit pattern to its fixed-point value.
pub fn fx_from_bits(b: u32) -> (r: i64)
    ensures
        r == fx_of_bits(b),
        -FX_MAX <= r <= FX_MAX,
{
    proof {
        assert(((b >> 23) & 0xff) < 256u32) by (bit_vector);
        assert((b & 0x7fffff) < 0x800000u32) by (bit_vector);
        assert((b >> 31) == 0u32 || (b >> 31) == 1u32) by (bit_vector);
        lemma2_to64();
        lemma2_to64_rest();
    }
    let e: u32 = (b >> 23) & 0xff;
    let m: u32 = b & 0x7fffff;
    if e == 255 {
        return 0;
    }
    let frac: u64 = if e == 0 { m as u64 } else { (m + 0x800000) as u64 };
    let ebase: u64 = if e == 0 { 1 } else { e as u64 };
    let mag: u64 = if ebase >= 134 {
        let k: u64 = ebase - 134;
        if k >= 40 {
            proof {
                if k > 40 {
                    lemma_pow2_strictly_increases(40, k as nat);
                }
                assert(frac as int * pow2(k as nat) > FX_MAX as int) by (nonlinear_arith)
                    requires
                        frac >= 0x800000,
                        pow2(k as nat) >= 0x100_0000_0000,
                ;
            }
            FX_MAX as u64
        } else {
            proof {
                if k < 39 {
                    lemma_pow2_strictly_increases(k as nat, 39);
                }
                assert(frac as int * pow2(k as nat) < 0x8000_0000_0000_0000) by (nonlinear_arith)
                    requires
                        frac < 0x1000000,
                        pow2(k as nat) <= 0x80_0000_0000,
                ;
                lemma_u64_shl_is_mul(frac, k);
            }
            let s: u64 = frac << k;
            if s > (FX_MAX as u64) {
                FX_MAX as u64
            } else {
                s
            }
        }
    } else {
        let k: u64 = 134 - ebase;
        if k >= 24 {
            proof {
                if k > 24 {
                    lemma_pow2_strictly_increases(24, k as nat);
                }
                lemma_basic_div(frac as int, pow2(k as nat) as int);
            }
            0
        } else {
            proof {
                lemma_u64_shr_is_div(frac, k);
                assert(frac >> k <= frac) by (bit_vector);
            }
            frac >> k
        }
    };
    let r: i64 = mag as i64;
    if (b >> 31) == 1 {
        -r
    } else {
        r
    }
}

/// The normalized rate for a current/maximum pair, scaled by `FX_ONE`:
/// `clamp(current / max, 0, 1)`, with a non-positive maximum treated as a
/// fully-drained rate (0) rather than a non-finite division result.
pub open spec fn spec_normalize(cur: int, max: int) -> int {
    if max <= 0 {
        0
    } else if cur <= 0 {
        0
    } else if cur >= max {
        FX_ONE as int
    } else {
        cur * (FX_ONE as int) / max
    }
}

/// Normalizes a fixed-point current/maximum pair to `0 ..= FX_ONE`.
pub fn normalize(cur: i64, max: i64) -> (r: u32)
    ensures
        r == spec_normalize(cur as int, max as int),
        0 <= r <= FX_ONE,
        max > 0 && cur >= max ==> r == FX_ONE,
        cur <= 0 ==> r == 0,
{
    if max <= 0 || cur <= 0 {
        0
    } else if cur >= max {
        FX_ONE as u32
    } else {
        proof {
            lemma_mul_strict_inequality(cur as int, max as int, FX_ONE as int);
            lemma_multiply_divide_lt(cur * (FX_ONE as int), max as int, FX_ONE as int);
            lemma_div_pos_is_pos(cur * (FX_ONE as int), max as int);
        }
        let q: u128 = (cur as u128) * (FX_ONE as u128) / (max as u128);
        q as u32
    }
}

/// Rate-normalization bounds: for every current/maximum pair with a positive
/// maximum the normalized rate lies in `[0, FX_ONE]`; a current at or above
/// the maximum normalizes to exactly `FX_ONE`, and a non-positive current to
/// exactly 0.
pub proof fn lemma_rate_normalization(cur: int, max: int)
    requires
        max > 0,
    ensures
        0 <= spec_normalize(cur, max) <= FX_ONE,
        cur >= max ==> spec_normalize(cur, max) == FX_ONE,
        cur <= 0 ==> spec_normalize(cur, max) == 0,
{
    if 0 < cur < max {
        lemma_mul_strict_inequality(cur, max, FX_ONE as int);
        lemma_multiply_divide_lt(cur * (FX_ONE as int), max, FX_ONE as int);
        lemma_div_pos_is_pos(cur * (FX_ONE as int), max);
    }
}

} // verus!
