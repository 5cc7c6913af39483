//! Heights, colours and positions reach the library as IEEE 754 binary32
//! bit patterns (what `f32::to_bits` gives). The library never does float
//! arithmetic: it carries the patterns through, and the one question its
//! rules ask of a height, whether it lies below a whole number of metres,
//! is answered here exactly from the pattern.
use vstd::arithmetic::power2::*;
use vstd::bits::*;
use vstd::prelude::*;

verus! {

/// The bit pattern of `1.0f32`.
pub const F32_ONE_BITS: u32 = 0x3f80_0000;

/// The bit pattern of `0.0f32`.
pub const F32_ZERO_BITS: u32 = 0;

/// The biased exponent field (bits 23..31).
pub open spec fn f32_exponent(bits: u32) -> int {
    (bits as int / 0x80_0000) % 0x100
}

/// The fraction field (bits 0..23).
pub open spec fn f32_fraction(bits: u32) -> int {
    bits as int % 0x80_0000
}

/// The sign bit is set.
pub open spec fn f32_negative(bits: u32) -> bool {
    bits >= 0x8000_0000
}

/// The pattern is a NaN: all exponent bits set and a non-zero fraction.
pub open spec fn f32_is_nan(bits: u32) -> bool {
    f32_exponent(bits) == 0xff && f32_fraction(bits) != 0
}

/// The pattern is an infinity (of either sign).
pub open spec fn f32_is_infinite(bits: u32) -> bool {
    f32_exponent(bits) == 0xff && f32_fraction(bits) == 0
}

/// The integer significand of a finite pattern: the fraction, with the hidden
/// leading one for normal numbers.
pub open spec fn f32_significand(bits: u32) -> int {
    if f32_exponent(bits) == 0 {
        f32_fraction(bits)
    } else {
        f32_fraction(bits) + 0x80_0000
    }
}

/// The power of two that scales the significand of a finite pattern:
/// its magnitude is `f32_significand(bits) * 2^f32_scale(bits)`.
pub open spec fn f32_scale(bits: u32) -> int {
    if f32_exponent(bits) == 0 {
        1 - 150
    } else {
        f32_exponent(bits) - 150
    }
}

/// Whether the finite magnitude of `bits` is below the whole number `h`.
pub open spec fn f32_magnitude_below(bits: u32, h: nat) -> bool {
    if f32_scale(bits) >= 0 {
        f32_significand(bits) * pow2(f32_scale(bits) as nat) < h
    } else {
        f32_significand(bits) < h * pow2((-f32_scale(bits)) as nat)
    }
}

/// Whether the float with bit pattern `bits` compares below (`<`) the whole
/// number `h`. A NaN is below nothing; a negative value (negative infinity
/// included) is below every positive number, and negative zero is below
/// `h` exactly when zero is; positive infinity is below nothing.
pub open spec fn f32_below_whole(bits: u32, h: nat) -> bool {
    if f32_is_nan(bits) {
        false
    } else if f32_negative(bits) {
        if f32_significand(bits) == 0 {
            0 < h
        } else {
            true
        }
    } else if f32_is_infinite(bits) {
        false
    } else {
        f32_magnitude_below(bits, h)
    }
}

/// Decides `f32::from_bits(bits) < h as f32` for a whole number `h`
/// (every `u32` up to 2^24 is exact as an `f32`, which the floor table needs).
pub fn f32_bits_below(bits: u32, h: u32) -> (below: bool)
    ensures
        below == f32_below_whole(bits, h as nat),
{
    let exponent: u32 = (bits / 0x80_0000) % 0x100;
    let fraction: u32 = bits % 0x80_0000;
    if exponent == 0xff && fraction != 0 {
        return false;
    }
    if bits >= 0x8000_0000 {
        if exponent == 0 && fraction == 0 {
            return 0 < h;
        }
        return true;
    }
    if exponent == 0xff {
        return false;
    }
    let significand: u64 = if exponent == 0 {
        fraction as u64
    } else {
        fraction as u64 + 0x80_0000
    };
    let biased: u64 = if exponent == 0 {
        1
    } else {
        exponent as u64
    };
    assert(significand == f32_significand(bits));
    assert(biased - 150 == f32_scale(bits));
    if biased >= 150 {
        let shift: u64 = biased - 150;
        if shift >= 9 {
            // The magnitude is at least 2^23 * 2^9 = 2^32, above every u32.
            proof {
                if shift > 9 {
                    lemma_pow2_strictly_increases(9, shift as nat);
                }
                lemma2_to64();
                assert(pow2(9) == 512);
                assert(significand >= 0x80_0000);
                assert(significand * pow2(shift as nat) >= 0x80_0000 * pow2(9)) by (nonlinear_arith)
                    requires
                        significand >= 0x80_0000,
                        pow2(shift as nat) >= pow2(9),
                ;
            }
            return false;
        }
        proof {
            lemma_pow2_strictly_increases(shift as nat, 9);
            lemma2_to64();
            assert(significand < 0x100_0000);
            assert(significand * pow2(shift as nat) <= 0x100_0000 * 512) by (nonlinear_arith)
                requires
                    significand < 0x100_0000,
                    pow2(shift as nat) <= 512,
            ;
            lemma_u64_shl_is_mul(significand, shift);
        }
        (significand << shift) < h as u64
    } else {
        let shift: u64 = 150 - biased;
        if h == 0 {
            return false;
        }
        if shift >= 24 {
            // The magnitude is below 2^24 * 2^-24 = 1 <= h.
            proof {
                if shift > 24 {
                    lemma_pow2_strictly_increases(24, shift as nat);
                }
                lemma2_to64();
                assert(pow2(24) == 0x100_0000);
                assert(h * pow2(shift as nat) >= pow2(24)) by (nonlinear_arith)
                    requires
                        h >= 1,
                        pow2(shift as nat) >= pow2(24),
                ;
            }
            return true;
        }
        proof {
            if shift < 24 {
                lemma_pow2_strictly_increases(shift as nat, 24);
            }
            lemma2_to64();
            assert((h as u64) * pow2(shift as nat) <= 0xffff_ffff * 0x100_0000) by (nonlinear_arith)
                requires
                    h <= 0xffff_ffff,
                    pow2(shift as nat) <= 0x100_0000,
            ;
            lemma_u64_shl_is_mul(h as u64, shift);
        }
        significand < ((h as u64) << shift)
    }
}

} // verus!
