//! Saturating fixed-point arithmetic for pose channels and blend weights.
//!
//! A scalar is a raw `i64` count of 1/65536ths of a unit, so `FRAC_ONE`
//! raw units are the scalar one. Weighting multiplies two scalars, divides
//! by the scale (truncating toward zero, as the raw quotient of magnitudes)
//! and clamps the result into the `i64` range; accumulation adds with
//! saturation. Every operation is total.

use vstd::prelude::*;

verus! {

/// Number of raw units in one whole unit of the fixed-point scale.
pub const FRAC_ONE: i64 = 65536;

/// `x` clamped into the range of `i64`.
pub open spec fn sat64(x: int) -> int {
    if x < i64::MIN as int {
        i64::MIN as int
    } else if x > i64::MAX as int {
        i64::MAX as int
    } else {
        x
    }
}

/// `p` divided by the fixed-point scale, truncating toward zero.
pub open spec fn div_scale_trunc(p: int) -> int {
    if p >= 0 {
        p / (FRAC_ONE as int)
    } else {
        -((-p) / (FRAC_ONE as int))
    }
}

/// The value `v` weighted by `w`: their product at fixed-point scale,
/// truncated toward zero and clamped into the `i64` range.
pub open spec fn scale_spec(v: int, w: int) -> int {
    sat64(div_scale_trunc(v * w))
}

/// Saturating addition of two raw scalars.
pub fn sat_add(a: i64, b: i64) -> (r: i64)
    ensures
        r as int == sat64(a + b),
{
    match a.checked_add(b) {
        Some(v) => v,
        None => if b > 0 {
            i64::MAX
        } else {
            i64::MIN
        },
    }
}

/// Saturating subtraction of two raw scalars.
pub fn sat_sub(a: i64, b: i64) -> (r: i64)
    ensures
        r as int == sat64(a - b),
{
    match a.checked_sub(b) {
        Some(v) => v,
        None => if b < 0 {
            i64::MAX
        } else {
            i64::MIN
        },
    }
}

/// The value `v` weighted by `w`.
pub fn scale(v: i64, w: i64) -> (r: i64)
    ensures
        r as int == scale_spec(v as int, w as int),
{
    proof {
        assert((v as int) * (w as int) <= 0x4000_0000_0000_0000_0000_0000_0000_0000int
            && (v as int) * (w as int) >= -0x4000_0000_0000_0000_0000_0000_0000_0000int)
            by (nonlinear_arith)
            requires
                -0x8000_0000_0000_0000int <= v as int <= 0x7fff_ffff_ffff_ffffint,
                -0x8000_0000_0000_0000int <= w as int <= 0x7fff_ffff_ffff_ffffint,
        ;
    }
    let p: i128 = (v as i128) * (w as i128);
    if p >= 0 {
        let q: u128 = (p as u128) / (FRAC_ONE as u128);
        if q > i64::MAX as u128 {
            i64::MAX
        } else {
            q as i64
        }
    } else {
        let m: u128 = (-p) as u128;
        let q: u128 = m / (FRAC_ONE as u128);
        if q >= 0x8000_0000_0000_0000u128 {
            i64::MIN
        } else {
            -(q as i64)
        }
    }
}

/// Weighting by zero contributes nothing.
pub proof fn lemma_scale_zero(v: int)
    ensures
        scale_spec(v, 0) == 0,
{
    assert(v * 0 == 0) by (nonlinear_arith);
}

/// A zero value contributes nothing at any weight.
pub proof fn lemma_scale_of_zero(w: int)
    ensures
        scale_spec(0, w) == 0,
{
    assert(0 * w == 0) by (nonlinear_arith);
}

/// Weighting by the scalar one is the identity on raw values.
pub proof fn lemma_scale_one(v: int)
    requires
        i64::MIN as int <= v <= i64::MAX as int,
    ensures
        scale_spec(v, FRAC_ONE as int) == v,
{
    if v >= 0 {
        vstd::arithmetic::div_mod::lemma_div_multiples_vanish(v, FRAC_ONE as int);
        assert(v * (FRAC_ONE as int) == (FRAC_ONE as int) * v);
    } else {
        vstd::arithmetic::div_mod::lemma_div_multiples_vanish(-v, FRAC_ONE as int);
        assert(-(v * (FRAC_ONE as int)) == (FRAC_ONE as int) * (-v));
    }
}

} // verus!
