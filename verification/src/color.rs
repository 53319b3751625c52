//! Colors with three 8-bit channels and clamped channel arithmetic.
//!
//! Shading math may produce out-of-range intermediates; every operation
//! clamps each channel back into `[0, 255]` instead of wrapping or
//! panicking. Interpolation and scaling weights are fixed-point scalars
//! (see [`crate::fx`]).

use vstd::prelude::*;
use crate::fx::{FX_ONE, FX_MAX, fx_in_range, fx_tdiv, fx_mag, wide_tdiv};

verus! {

/// An immutable color value.
#[derive(Clone, Copy, PartialEq, Eq, Structural, Debug)]
pub struct Color {
    pub r: u8,
    pub g: u8,
    pub b: u8,
}

/// Clamp an integer into the channel band `[0, 255]`.
pub open spec fn chan_clamped(x: int) -> int {
    if x > 255 {
        255int
    } else if x < 0 {
        0int
    } else {
        x
    }
}

/// One channel of a linear interpolation from `a` toward `b` by weight `t`
/// (in micro-units): `a + (b - a) * t / FX_ONE`, truncated, clamped.
pub open spec fn chan_lerp(a: int, b: int, t: int) -> int {
    chan_clamped(a + fx_tdiv((b - a) * t, FX_ONE as int))
}

/// One channel scaled by the factor `f` (in micro-units), clamped.
pub open spec fn chan_scaled(a: int, f: int) -> int {
    chan_clamped(fx_tdiv(a * f, FX_ONE as int))
}

/// One channel of an additive combination, clamped.
pub open spec fn chan_added(a: int, b: int) -> int {
    chan_clamped(a + b)
}

/// The color whose channels interpolate from `a` toward `b` by weight `t`.
pub open spec fn color_lerp(a: Color, b: Color, t: int) -> Color {
    Color {
        r: chan_lerp(a.r as int, b.r as int, t) as u8,
        g: chan_lerp(a.g as int, b.g as int, t) as u8,
        b: chan_lerp(a.b as int, b.b as int, t) as u8,
    }
}

/// The color whose channels are scaled by `f`.
pub open spec fn color_scaled(a: Color, f: int) -> Color {
    Color {
        r: chan_scaled(a.r as int, f) as u8,
        g: chan_scaled(a.g as int, f) as u8,
        b: chan_scaled(a.b as int, f) as u8,
    }
}

/// The color whose channels are the clamped sums of the two arguments'.
pub open spec fn color_added(a: Color, b: Color) -> Color {
    Color {
        r: chan_added(a.r as int, b.r as int) as u8,
        g: chan_added(a.g as int, b.g as int) as u8,
        b: chan_added(a.b as int, b.b as int) as u8,
    }
}

/// The packed pixel value: red in the high byte, then green, then blue.
pub open spec fn color_packed(c: Color) -> int {
    (c.r as int) * 0x10000 + (c.g as int) * 0x100 + c.b as int
}

/// Clamp a wide channel intermediate into `[0, 255]`.
fn chan_clamp_wide(x: i128) -> (r: u8)
    ensures
        r as int == chan_clamped(x as int),
{
    if x > 255 {
        255
    } else if x < 0 {
        0
    } else {
        x as u8
    }
}

/// One executable channel interpolation step.
fn chan_lerp_exec(a: u8, b: u8, t: i64) -> (r: u8)
    requires
        fx_in_range(t as int),
    ensures
        r as int == chan_lerp(a as int, b as int, t as int),
{
    let diff: i128 = b as i128 - a as i128;
    proof {
        assert(fx_mag(diff as int * t as int) <= 255 * (FX_MAX as int))
            by (nonlinear_arith)
            requires
                -255 <= diff as int <= 255,
                -(FX_MAX as int) <= t as int <= FX_MAX as int,
        ;
    }
    let q: i128 = wide_tdiv(diff * t as i128, FX_ONE as i128);
    chan_clamp_wide(a as i128 + q)
}

/// The channel a scalar stands for: whole units, truncated, clamped.
pub open spec fn chan_of_fx(x: int) -> int {
    chan_clamped(fx_tdiv(x, FX_ONE as int))
}

/// Truncate a scalar to a whole-unit channel value in `[0, 255]`.
pub fn fx_to_channel(x: i64) -> (r: u8)
    ensures
        r as int == chan_of_fx(x as int),
{
    chan_clamp_wide(wide_tdiv(x as i128, FX_ONE as i128))
}

impl Color {
    /// Build a color from its three channels.
    pub fn new(r: u8, g: u8, b: u8) -> (c: Color)
        ensures
            c == (Color { r, g, b }),
    {
        Color { r, g, b }
    }

    /// Interpolate from `self` toward `other` by the weight `t`
    /// (micro-units; `FX_ONE` reaches `other` exactly).
    pub fn lerp(&self, other: &Color, t: i64) -> (c: Color)
        requires
            fx_in_range(t as int),
        ensures
            c == color_lerp(*self, *other, t as int),
    {
        Color {
            r: chan_lerp_exec(self.r, other.r, t),
            g: chan_lerp_exec(self.g, other.g, t),
            b: chan_lerp_exec(self.b, other.b, t),
        }
    }

    /// Scale every channel by the factor `f` (micro-units), clamped.
    pub fn mul(&self, f: i64) -> (c: Color)
        requires
            fx_in_range(f as int),
        ensures
            c == color_scaled(*self, f as int),
    {
        proof {
            assert(fx_mag(self.r as int * f as int) <= 255 * (FX_MAX as int)
                && fx_mag(self.g as int * f as int) <= 255 * (FX_MAX as int)
                && fx_mag(self.b as int * f as int) <= 255 * (FX_MAX as int))
                by (nonlinear_arith)
                requires
                    0 <= self.r as int <= 255,
                    0 <= self.g as int <= 255,
                    0 <= self.b as int <= 255,
                    -(FX_MAX as int) <= f as int <= FX_MAX as int,
            ;
        }
        Color {
            r: chan_clamp_wide(wide_tdiv(self.r as i128 * f as i128, FX_ONE as i128)),
            g: chan_clamp_wide(wide_tdiv(self.g as i128 * f as i128, FX_ONE as i128)),
            b: chan_clamp_wide(wide_tdiv(self.b as i128 * f as i128, FX_ONE as i128)),
        }
    }

    /// Add another color channel-wise, clamped at the channel maximum.
    pub fn add(&self, other: &Color) -> (c: Color)
        ensures
            c == color_added(*self, *other),
    {
        Color {
            r: chan_clamp_wide(self.r as i128 + other.r as i128),
            g: chan_clamp_wide(self.g as i128 + other.g as i128),
            b: chan_clamp_wide(self.b as i128 + other.b as i128),
        }
    }

    /// Pack the color for the pixel sink: `0x00RRGGBB`.
    pub fn to_hex(&self) -> (h: u32)
        ensures
            h as int == color_packed(*self),
    {
        (self.r as u32) * 0x10000 + (self.g as u32) * 0x100 + self.b as u32
    }
}

/// Every channel produced by interpolation, scaling or addition lies in
/// `[0, 255]`, whatever the inputs — including weights or factors outside
/// the unit interval.
pub proof fn lemma_channel_ops_bounded(a: int, b: int, t: int, f: int)
    ensures
        0 <= chan_lerp(a, b, t) <= 255,
        0 <= chan_scaled(a, f) <= 255,
        0 <= chan_added(a, b) <= 255,
{
}

/// Scaling by a factor of at most one full unit never raises a channel:
/// a lighting factor capped at one can only darken the unlit color.
pub proof fn lemma_scale_at_most_one_darkens(a: int, f: int)
    requires
        0 <= a <= 255,
        f <= FX_ONE,
    ensures
        chan_scaled(a, f) <= a,
{
    if f >= 0 {
        vstd::arithmetic::mul::lemma_mul_inequality(f, FX_ONE as int, a);
        assert(a * f == f * a && a * (FX_ONE as int) == (FX_ONE as int) * a)
            by (nonlinear_arith);
        vstd::arithmetic::mul::lemma_mul_nonnegative(a, f);
        vstd::arithmetic::div_mod::lemma_div_is_ordered(
            a * f, a * (FX_ONE as int), FX_ONE as int);
        vstd::arithmetic::div_mod::lemma_div_by_multiple(a, FX_ONE as int);
    } else {
        assert(a * f <= 0) by (nonlinear_arith)
            requires
                0 <= a,
                f < 0,
        ;
        vstd::arithmetic::div_mod::lemma_div_pos_is_pos(fx_mag(a * f), FX_ONE as int);
    }
}

/// Interpolating by weight zero returns the first color exactly; by a full
/// `FX_ONE` weight, the second, for all colors.
pub proof fn lemma_lerp_endpoints(a: Color, b: Color)
    ensures
        color_lerp(a, b, 0) == a,
        color_lerp(a, b, FX_ONE as int) == b,
{
    lemma_lerp_endpoints_chan(a.r as int, b.r as int);
    lemma_lerp_endpoints_chan(a.g as int, b.g as int);
    lemma_lerp_endpoints_chan(a.b as int, b.b as int);
    assert(color_lerp(a, b, 0) =~= a);
    assert(color_lerp(a, b, FX_ONE as int) =~= b);
}

proof fn lemma_lerp_endpoints_chan(a: int, b: int)
    requires
        0 <= a <= 255,
        0 <= b <= 255,
    ensures
        chan_lerp(a, b, 0) == a,
        chan_lerp(a, b, FX_ONE as int) == b,
{
    assert(fx_tdiv((b - a) * 0, FX_ONE as int) == 0) by {
        assert((b - a) * 0 == 0) by (nonlinear_arith);
        vstd::arithmetic::div_mod::lemma_div_of0(FX_ONE as int);
    };
    assert(fx_tdiv((b - a) * (FX_ONE as int), FX_ONE as int) == b - a) by {
        if b - a >= 0 {
            assert(fx_mag((b - a) * (FX_ONE as int)) == (b - a) * (FX_ONE as int))
                by (nonlinear_arith)
                requires b - a >= 0,
            ;
            vstd::arithmetic::div_mod::lemma_div_by_multiple(b - a, FX_ONE as int);
        } else {
            assert(fx_mag((b - a) * (FX_ONE as int)) == (a - b) * (FX_ONE as int))
                by (nonlinear_arith)
                requires b - a < 0,
            ;
            vstd::arithmetic::div_mod::lemma_div_by_multiple(a - b, FX_ONE as int);
        }
    };
}

} // verus!
