//! Bit-level handling of `f32` operator arguments.
//!
//! The compiler never computes with floating-point values: every argument and
//! every shader constant is carried as the bit pattern of a finite `f32`
//! (IEEE 754 binary32), and lands verbatim in an `OpConstant` word of the
//! emitted module. The named constants below are the bit patterns of the
//! default argument values and of the fixed coefficients that the emitted
//! shader code uses.

use vstd::prelude::*;

verus! {

/// Bits of `0.0f32`.
pub const BITS_ZERO: u32 = 0x0000_0000;
/// Bits of `1.0f32`.
pub const BITS_ONE: u32 = 0x3F80_0000;
/// Bits of `0.5f32`.
pub const BITS_HALF: u32 = 0x3F00_0000;
/// Bits of `2.0f32`.
pub const BITS_TWO: u32 = 0x4000_0000;
/// Bits of `3.0f32`.
pub const BITS_THREE: u32 = 0x4040_0000;
/// Bits of `4.0f32`.
pub const BITS_FOUR: u32 = 0x4080_0000;
/// Bits of `5.0f32`.
pub const BITS_FIVE: u32 = 0x40A0_0000;
/// Bits of `6.0f32`.
pub const BITS_SIX: u32 = 0x40C0_0000;
/// Bits of `8.0f32`.
pub const BITS_EIGHT: u32 = 0x4100_0000;
/// Bits of `10.0f32`.
pub const BITS_TEN: u32 = 0x4120_0000;
/// Bits of `60.0f32`.
pub const BITS_SIXTY: u32 = 0x4270_0000;
/// Bits of `0.1f32`.
pub const BITS_TENTH: u32 = 0x3DCC_CCCD;
/// Bits of `0.01f32`.
pub const BITS_HUNDREDTH: u32 = 0x3C23_D70A;
/// Bits of `0.8f32`.
pub const BITS_0_8: u32 = 0x3F4C_CCCD;
/// Bits of `0.6f32`.
pub const BITS_0_6: u32 = 0x3F19_999A;
/// Bits of `0.02f32`.
pub const BITS_0_02: u32 = 0x3CA3_D70A;
/// Bits of `0.005f32`.
pub const BITS_0_005: u32 = 0x3BA3_D70A;
/// Bits of `1.5f32`.
pub const BITS_1_5: u32 = 0x3FC0_0000;
/// Bits of `2.5f32`.
pub const BITS_2_5: u32 = 0x4020_0000;
/// Bits of `3.5f32`.
pub const BITS_3_5: u32 = 0x4060_0000;
/// Bits of `-1.0f32`.
pub const BITS_NEG_ONE: u32 = 0xBF80_0000;
/// Bits of `1e-6f32`, the guard against division by a vanishing amplitude.
pub const BITS_EPS_1E6: u32 = 0x3586_37BD;
/// Bits of `1e-4f32`, the guard denominator of the polygon boundary.
pub const BITS_EPS_1E4: u32 = 0x38D1_B717;
/// Bits of `9999.0f32`, the starting "infinite" cell distance of voronoi.
pub const BITS_BIG: u32 = 0x461C_3C00;
/// Bits of `6.28318530718f32` (two pi).
pub const BITS_TWO_PI: u32 = 0x40C9_0FDB;
/// Bits of `3.14159265359f32` (pi).
pub const BITS_PI: u32 = 0x4049_0FDB;
/// Bits of `127.1f32`, the x coefficient of the lattice hash.
pub const BITS_HASH_X: u32 = 0x42FE_3333;
/// Bits of `311.7f32`, the y coefficient of the lattice hash.
pub const BITS_HASH_Y: u32 = 0x439B_D99A;
/// Bits of `43758.5453f32`, the scaling factor of the lattice hash.
pub const BITS_HASH_SCALE: u32 = 0x472A_EE8C;
/// Bits of `-2.0f32 / 60.0f32`, the red-channel offset multiplier of `osc`.
pub const BITS_OSC_MULT_R: u32 = 0xBD08_8889;
/// Bits of `0.0f32 / 60.0f32`, the green-channel offset multiplier of `osc`.
pub const BITS_OSC_MULT_G: u32 = 0x0000_0000;
/// Bits of `1.0f32 / 60.0f32`, the blue-channel offset multiplier of `osc`.
pub const BITS_OSC_MULT_B: u32 = 0x3C88_8889;
/// Bits of `2.51f32` (ACES numerator slope).
pub const BITS_ACES_A: u32 = 0x4020_A3D7;
/// Bits of `0.03f32` (ACES numerator offset).
pub const BITS_ACES_B: u32 = 0x3CF5_C28F;
/// Bits of `2.43f32` (ACES denominator slope).
pub const BITS_ACES_C: u32 = 0x401B_851F;
/// Bits of `0.59f32` (ACES denominator linear term).
pub const BITS_ACES_D: u32 = 0x3F17_0A3D;
/// Bits of `0.14f32` (ACES denominator offset).
pub const BITS_ACES_E: u32 = 0x3E0F_5C29;
/// Bits of `0.299f32`, the red luma weight.
pub const BITS_LUMA_R: u32 = 0x3E99_1687;
/// Bits of `0.587f32`, the green luma weight.
pub const BITS_LUMA_G: u32 = 0x3F16_45A2;
/// Bits of `0.114f32`, the blue luma weight.
pub const BITS_LUMA_B: u32 = 0x3DE9_78D5;
/// Bits of `0.596f32` (RGB to YIQ, I row, red).
pub const BITS_YIQ_I_R: u32 = 0x3F18_9375;
/// Bits of `-0.275f32` (RGB to YIQ, I row, green).
pub const BITS_YIQ_I_G: u32 = 0xBE8C_CCCD;
/// Bits of `-0.321f32` (RGB to YIQ, I row, blue).
pub const BITS_YIQ_I_B: u32 = 0xBEA4_5A1D;
/// Bits of `0.212f32` (RGB to YIQ, Q row, red).
pub const BITS_YIQ_Q_R: u32 = 0x3E59_1687;
/// Bits of `-0.523f32` (RGB to YIQ, Q row, green).
pub const BITS_YIQ_Q_G: u32 = 0xBF05_E354;
/// Bits of `0.311f32` (RGB to YIQ, Q row, blue).
pub const BITS_YIQ_Q_B: u32 = 0x3E9F_3B64;
/// Bits of `0.956f32` (YIQ to RGB, red, I).
pub const BITS_RGB_R_I: u32 = 0x3F74_BC6A;
/// Bits of `0.621f32` (YIQ to RGB, red, Q).
pub const BITS_RGB_R_Q: u32 = 0x3F1E_F9DB;
/// Bits of `-0.272f32` (YIQ to RGB, green, I).
pub const BITS_RGB_G_I: u32 = 0xBE8B_4396;
/// Bits of `-0.647f32` (YIQ to RGB, green, Q).
pub const BITS_RGB_G_Q: u32 = 0xBF25_A1CB;
/// Bits of `-1.105f32` (YIQ to RGB, blue, I).
pub const BITS_RGB_B_I: u32 = 0xBF8D_70A4;
/// Bits of `1.702f32` (YIQ to RGB, blue, Q).
pub const BITS_RGB_B_Q: u32 = 0x3FD9_DB23;
/// Bits of `0.0001f32`, the guard against a vanishing repeat factor.
pub const BITS_REPEAT_EPS: u32 = 0x38D1_B717;

/// The value of `f as u32` in Rust for the `f32` whose bits are `bits`:
/// round toward zero, saturate at the ends of the `u32` range, and send NaN
/// to zero.
pub open spec fn f32_bits_trunc_u32(bits: u32) -> u32 {
    let exp = (bits >> 23u32) & 0xffu32;
    let frac = bits & 0x007f_ffffu32;
    let neg = (bits >> 31u32) == 1u32;
    if exp == 0xffu32 {
        // NaN truncates to zero; the infinities saturate.
        if frac != 0u32 {
            0u32
        } else if neg {
            0u32
        } else {
            0xffff_ffffu32
        }
    } else if neg || exp < 127u32 {
        // Negative values and magnitudes below one truncate to zero.
        0u32
    } else if exp >= 159u32 {
        // The value is at least 2^32.
        0xffff_ffffu32
    } else {
        let m = (frac | 0x0080_0000u32) as u64;
        if exp >= 150u32 {
            (m << ((exp - 150u32) as u64)) as u32
        } else {
            (m >> ((150u32 - exp) as u64)) as u32
        }
    }
}

/// Truncates the `f32` whose bit pattern is `bits` to a `u32` index, with the
/// semantics of Rust's `as` conversion.
pub fn f32_bits_to_u32(bits: u32) -> (r: u32)
    ensures
        r == f32_bits_trunc_u32(bits),
{
    let exp: u32 = (bits >> 23u32) & 0xffu32;
    let frac: u32 = bits & 0x007f_ffffu32;
    let neg: bool = (bits >> 31u32) == 1u32;
    if exp == 0xffu32 {
        if frac != 0u32 {
            0u32
        } else if neg {
            0u32
        } else {
            0xffff_ffffu32
        }
    } else if neg || exp < 127u32 {
        0u32
    } else if exp >= 159u32 {
        0xffff_ffffu32
    } else {
        assert(((bits & 0x007f_ffffu32) | 0x0080_0000u32) < 0x0100_0000u32) by (bit_vector);
        let m: u64 = (frac | 0x0080_0000u32) as u64;
        if exp >= 150u32 {
            let sh: u64 = (exp - 150u32) as u64;
            assert(m << sh < 0x1_0000_0000u64) by (bit_vector)
                requires
                    m < 0x0100_0000u64,
                    sh <= 8u64,
            ;
            let shifted: u64 = m << sh;
            shifted as u32
        } else {
            let sh: u64 = (150u32 - exp) as u64;
            assert(m >> sh < 0x1_0000_0000u64) by (bit_vector)
                requires
                    m < 0x0100_0000u64,
            ;
            let shifted: u64 = m >> sh;
            shifted as u32
        }
    }
}

} // verus!
