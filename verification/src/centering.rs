//! Signed reinterpretation of torus coefficients and the modular wrap-back.
//!
//! A torus coefficient is a 32-bit pattern read modulo 2^32. Before the
//! numeric transform it is centered around zero by reading the pattern as a
//! signed two's-complement integer; after the inverse transform a rounded
//! signed 64-bit value is wrapped back into the 32-bit range. These two
//! conversions are exact integer functions and are verified here.

use vstd::arithmetic::div_mod::{
    lemma_fundamental_div_mod, lemma_fundamental_div_mod_converse_mod, lemma_mod_bound,
    lemma_mod_multiples_vanish, lemma_small_mod,
};
use vstd::prelude::*;

verus! {

/// The modulus of the torus representation: 2^32.
pub open spec fn torus_modulus() -> int {
    0x1_0000_0000
}

/// The value of a torus coefficient when its bit pattern is read as a
/// signed two's-complement integer: patterns at or above 2^31 stand for
/// negative values.
pub open spec fn torus_signed(x: u32) -> int {
    if x < 0x8000_0000u32 {
        x as int
    } else {
        x as int - torus_modulus()
    }
}

/// An integer wrapped into the torus range [0, 2^32).
pub open spec fn wrapped(x: int) -> int {
    x % torus_modulus()
}

/// Reinterpret a torus coefficient as a centered signed integer.
pub fn to_centered(x: u32) -> (r: i32)
    ensures
        r as int == torus_signed(x),
{
    if x < 0x8000_0000u32 {
        x as i32
    } else {
        let d: i64 = (x as i64) - 0x1_0000_0000i64;
        d as i32
    }
}

/// Wrap a rounded signed 64-bit value back to a 32-bit torus coefficient.
/// Negative values wrap around the modulus, never saturate.
pub fn wrap_to_torus(x: i64) -> (r: u32)
    ensures
        r as int == wrapped(x as int),
{
    if x >= 0 {
        let lo: u64 = (x as u64) % 0x1_0000_0000u64;
        proof {
            lemma_mod_bound(x as int, 0x1_0000_0000);
        }
        lo as u32
    } else {
        let y: u64 = (-(x + 1)) as u64;
        let m: u64 = y % 0x1_0000_0000u64;
        let r64: u64 = 0x1_0000_0000u64 - 1 - m;
        proof {
            let w: int = 0x1_0000_0000;
            let yi: int = y as int;
            let q: int = yi / w;
            lemma_fundamental_div_mod(yi, w);
            lemma_mod_bound(yi, w);
            assert(x as int == (-(q + 1)) * w + (w - 1 - yi % w)) by {
                assert(yi == w * q + yi % w);
                assert((-(q + 1)) * w == -(w * q) - w) by (nonlinear_arith);
            }
            lemma_fundamental_div_mod_converse_mod(
                x as int,
                w,
                -(q + 1),
                w - 1 - yi % w,
            );
        }
        r64 as u32
    }
}

/// Centering and wrapping are inverse to one another: wrapping the signed
/// reading of any torus coefficient recovers that coefficient exactly. This
/// is the integer skeleton of the round-trip guarantee: when the numeric
/// stages reproduce the centered values exactly, the wrap-back loses nothing.
pub proof fn lemma_center_then_wrap(c: u32)
    ensures
        wrapped(torus_signed(c)) == c as int,
{
    if c < 0x8000_0000u32 {
        lemma_small_mod(c as nat, 0x1_0000_0000nat);
    } else {
        lemma_mod_multiples_vanish(-1, c as int, 0x1_0000_0000);
        lemma_small_mod(c as nat, 0x1_0000_0000nat);
    }
}

/// A perturbation of the centered value acts modularly on the wrapped
/// coefficient: wrapping the signed reading of `c` shifted by an error `e`
/// gives exactly `c + e` modulo 2^32. So when the numeric stages reproduce
/// each centered value only up to a small rounding error, the recovered
/// coefficient is off by that same error, wrapped — never by more.
pub proof fn lemma_wrap_absorbs_error(c: u32, e: int)
    ensures
        wrapped(torus_signed(c) + e) == wrapped(c as int + e),
{
    if c < 0x8000_0000u32 {
    } else {
        lemma_mod_multiples_vanish(-1, c as int + e, 0x1_0000_0000);
    }
}

/// Zero is a fixed point of both conversions: the all-zero polynomial is
/// centered to all zeros, and all-zero rounded halves wrap back to the
/// all-zero polynomial.
pub proof fn lemma_zero_fixed()
    ensures
        torus_signed(0u32) == 0,
        wrapped(0) == 0,
{
    lemma_small_mod(0nat, 0x1_0000_0000nat);
}

} // verus!
