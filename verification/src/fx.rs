//! Signed decimal fixed-point scalars.
//!
//! A scalar is an `i64` counting micro-units: `FX_ONE` (one million) stands
//! for the real value 1.0. Every operation clamps its result into
//! `[-FX_MAX, FX_MAX]`, so chains of operations stay representable and no
//! operation panics or wraps.

use vstd::prelude::*;

verus! {

/// Micro-units per 1.0.
pub const FX_ONE: i64 = 1_000_000;

/// Largest magnitude a scalar may take (one billion units).
pub const FX_MAX: i64 = 1_000_000_000_000_000;

/// A scalar lies in the representable band.
pub open spec fn fx_in_range(x: int) -> bool {
    -(FX_MAX as int) <= x <= FX_MAX as int
}

/// Clamp an unbounded integer into the representable band.
pub open spec fn fx_clamped(x: int) -> int {
    if x > FX_MAX as int {
        FX_MAX as int
    } else if x < -(FX_MAX as int) {
        -(FX_MAX as int)
    } else {
        x
    }
}

/// Magnitude of an integer.
pub open spec fn fx_mag(x: int) -> int {
    if x < 0 { -x } else { x }
}

/// Division that truncates toward zero, as the hardware quotient does.
pub open spec fn fx_tdiv(a: int, b: int) -> int
    recommends b != 0,
{
    let q = fx_mag(a) / fx_mag(b);
    if (a < 0) == (b < 0) { q } else { -q }
}

/// The clamped sum.
pub open spec fn fx_add_spec(a: int, b: int) -> int {
    fx_clamped(a + b)
}

/// The clamped difference.
pub open spec fn fx_sub_spec(a: int, b: int) -> int {
    fx_clamped(a - b)
}

/// The clamped negation.
pub open spec fn fx_neg_spec(a: int) -> int {
    fx_clamped(-a)
}

/// The clamped magnitude.
pub open spec fn fx_abs_spec(a: int) -> int {
    fx_clamped(fx_mag(a))
}

/// The smaller of two scalars.
pub open spec fn fx_min_spec(a: int, b: int) -> int {
    if a <= b { a } else { b }
}

/// The larger of two scalars.
pub open spec fn fx_max_spec(a: int, b: int) -> int {
    if a >= b { a } else { b }
}

/// The scaled product of two scalars: `a * b / FX_ONE`, truncated, clamped.
pub open spec fn fx_mul_spec(a: int, b: int) -> int {
    fx_clamped(fx_tdiv(a * b, FX_ONE as int))
}

/// The scaled quotient of two scalars: `a * FX_ONE / b`, truncated, clamped.
pub open spec fn fx_div_spec(a: int, b: int) -> int
    recommends b != 0,
{
    fx_clamped(fx_tdiv(a * (FX_ONE as int), b))
}

/// Clamp a wide intermediate into the scalar band.
pub fn fx_clamp_wide(x: i128) -> (r: i64)
    ensures
        r as int == fx_clamped(x as int),
        fx_in_range(r as int),
{
    if x > FX_MAX as i128 {
        FX_MAX
    } else if x < -(FX_MAX as i128) {
        -FX_MAX
    } else {
        x as i64
    }
}

/// Clamped sum.
pub fn fx_add(a: i64, b: i64) -> (r: i64)
    ensures
        r as int == fx_clamped(a + b),
        fx_in_range(r as int),
{
    fx_clamp_wide(a as i128 + b as i128)
}

/// Clamped difference.
pub fn fx_sub(a: i64, b: i64) -> (r: i64)
    ensures
        r as int == fx_clamped(a - b),
        fx_in_range(r as int),
{
    fx_clamp_wide(a as i128 - b as i128)
}

/// Clamped negation.
pub fn fx_neg(a: i64) -> (r: i64)
    ensures
        r as int == fx_clamped(-a),
        fx_in_range(r as int),
{
    fx_clamp_wide(-(a as i128))
}

/// Clamped magnitude.
pub fn fx_abs(a: i64) -> (r: i64)
    ensures
        r as int == fx_clamped(fx_mag(a as int)),
        fx_in_range(r as int),
{
    if a < 0 {
        fx_clamp_wide(-(a as i128))
    } else {
        fx_clamp_wide(a as i128)
    }
}

/// The smaller of two scalars.
pub fn fx_min(a: i64, b: i64) -> (r: i64)
    ensures
        r == if a <= b { a } else { b },
{
    if a <= b { a } else { b }
}

/// The larger of two scalars.
pub fn fx_max(a: i64, b: i64) -> (r: i64)
    ensures
        r == if a >= b { a } else { b },
{
    if a >= b { a } else { b }
}

/// Truncating unsigned quotient on wide magnitudes.
fn wide_udiv(n: u128, d: u128) -> (q: u128)
    requires
        d > 0,
    ensures
        q == n as int / d as int,
{
    n / d
}

/// Truncating signed quotient on wide intermediates.
pub fn wide_tdiv(n: i128, d: i128) -> (q: i128)
    requires
        d != 0,
        n != i128::MIN,
        d != i128::MIN,
    ensures
        q as int == fx_tdiv(n as int, d as int),
        fx_mag(q as int) <= fx_mag(n as int),
{
    let neg: bool = (n < 0) != (d < 0);
    let nm: u128 = if n < 0 { (-n) as u128 } else { n as u128 };
    let dm: u128 = if d < 0 { (-d) as u128 } else { d as u128 };
    let q: u128 = wide_udiv(nm, dm);
    proof {
        assert(nm as int == fx_mag(n as int));
        assert(dm as int == fx_mag(d as int));
        vstd::arithmetic::div_mod::lemma_div_nonincreasing(nm as int, dm as int);
    }
    let qi: i128 = q as i128;
    if neg { -qi } else { qi }
}

/// Scalar product, rescaled by `FX_ONE` and clamped.
pub fn fx_mul(a: i64, b: i64) -> (r: i64)
    requires
        fx_in_range(a as int),
        fx_in_range(b as int),
    ensures
        r as int == fx_mul_spec(a as int, b as int),
        fx_in_range(r as int),
{
    proof {
        assert((a as int) * (b as int) <= (FX_MAX as int) * (FX_MAX as int)
            && (a as int) * (b as int) >= -((FX_MAX as int) * (FX_MAX as int)))
            by (nonlinear_arith)
            requires
                -(FX_MAX as int) <= a as int <= FX_MAX as int,
                -(FX_MAX as int) <= b as int <= FX_MAX as int,
        ;
    }
    let p: i128 = (a as i128) * (b as i128);
    let signed: i128 = wide_tdiv(p, FX_ONE as i128);
    fx_clamp_wide(signed)
}

/// Scalar quotient, rescaled by `FX_ONE` and clamped. The divisor must be
/// nonzero; every caller guards that.
pub fn fx_div(a: i64, b: i64) -> (r: i64)
    requires
        fx_in_range(a as int),
        b != 0,
    ensures
        r as int == fx_div_spec(a as int, b as int),
        fx_in_range(r as int),
{
    let n: i128 = (a as i128) * (FX_ONE as i128);
    let signed: i128 = wide_tdiv(n, b as i128);
    fx_clamp_wide(signed)
}

/// Scaling by exactly one is the identity on in-band scalars, on either
/// side of the product.
pub proof fn lemma_fx_mul_one(a: int)
    requires
        fx_in_range(a),
    ensures
        fx_mul_spec(a, FX_ONE as int) == a,
        fx_mul_spec(FX_ONE as int, a) == a,
{
    assert(fx_mag(a * (FX_ONE as int)) == fx_mag(a) * (FX_ONE as int)
        && fx_mag((FX_ONE as int) * a) == fx_mag(a) * (FX_ONE as int))
        by (nonlinear_arith);
    vstd::arithmetic::div_mod::lemma_div_by_multiple(fx_mag(a), FX_ONE as int);
}

/// Half the circle constant, in micro-units.
pub const FX_PI: i64 = 3_141_593;

/// The full circle constant, in micro-units.
pub const FX_TWO_PI: i64 = 6_283_186;

/// A quarter turn, in micro-units.
pub const FX_HALF_PI: i64 = 1_570_796;

/// Five times the squared half-circle constant, in micro-units.
pub const FX_FIVE_PI_SQ: i64 = 49_348_022;

/// `r` is the integer square root of `x * FX_ONE`.
pub open spec fn fx_sqrt_char(x: int, r: int) -> bool {
    0 <= r && r * r <= x * (FX_ONE as int) && x * (FX_ONE as int) < (r + 1) * (r + 1)
}

/// The square root of a scalar, in micro-units; zero for non-positive input.
pub open spec fn fx_sqrt_spec(x: int) -> int {
    if x <= 0 {
        0int
    } else {
        choose|r: int| fx_sqrt_char(x, r)
    }
}

/// No two integers satisfy the square-root characterization of one value.
pub proof fn lemma_sqrt_char_unique(x: int, r1: int, r2: int)
    by (nonlinear_arith)
    requires
        fx_sqrt_char(x, r1),
        fx_sqrt_char(x, r2),
    ensures
        r1 == r2,
{
}

/// Integer square root of the scaled input, by bisection.
pub fn fx_sqrt(x: i64) -> (r: i64)
    requires
        fx_in_range(x as int),
    ensures
        r as int == fx_sqrt_spec(x as int),
        0 <= r < 0x20000000000,
        fx_in_range(r as int),
        x > 0 ==> fx_sqrt_char(x as int, r as int),
{
    if x <= 0 {
        return 0;
    }
    let n: u128 = (x as u128) * (FX_ONE as u128);
    let mut lo: u64 = 0;
    let mut hi: u64 = 0x10000000000;
    proof {
        assert((0x10000000000u64 as int) * (0x10000000000u64 as int) > n as int);
    }
    while lo + 1 < hi
        invariant
            0 <= lo < hi <= 0x10000000000,
            (lo as int) * (lo as int) <= n as int,
            (n as int) < (hi as int) * (hi as int),
        decreases hi - lo,
    {
        let mid: u64 = lo + (hi - lo) / 2;
        proof {
            assert((mid as int) * (mid as int) <= 0x100000000000000000000int)
                by (nonlinear_arith)
                requires 0 <= mid as int <= 0x10000000000int,
            ;
        }
        if (mid as u128) * (mid as u128) <= n {
            lo = mid;
        } else {
            hi = mid;
        }
    }
    proof {
        assert(hi == lo + 1);
        assert(fx_sqrt_char(x as int, lo as int));
        let w = choose|r: int| fx_sqrt_char(x as int, r);
        lemma_sqrt_char_unique(x as int, w, lo as int);
    }
    lo as i64
}

/// Euclidean remainder of a scalar by the full circle constant,
/// in `[0, FX_TWO_PI)`.
fn fx_mod_two_pi(x: i64) -> (r: i64)
    requires
        fx_in_range(x as int),
    ensures
        r as int == (x as int) % (FX_TWO_PI as int),
        0 <= r < FX_TWO_PI,
{
    if x >= 0 {
        let m: u64 = (x as u64) % (FX_TWO_PI as u64);
        m as i64
    } else {
        let nm: u64 = (-x) as u64;
        let k: u64 = nm % (FX_TWO_PI as u64);
        let j: u64 = nm / (FX_TWO_PI as u64);
        proof {
            vstd::arithmetic::div_mod::lemma_fundamental_div_mod(
                nm as int, FX_TWO_PI as int);
            if k == 0 {
                vstd::arithmetic::div_mod::lemma_fundamental_div_mod_converse_mod(
                    x as int, FX_TWO_PI as int, -(j as int), 0);
            } else {
                vstd::arithmetic::div_mod::lemma_fundamental_div_mod_converse_mod(
                    x as int, FX_TWO_PI as int, -(j as int) - 1,
                    FX_TWO_PI as int - k as int);
            }
        }
        if k == 0 {
            0
        } else {
            FX_TWO_PI - k as i64
        }
    }
}

/// A scaled quotient of nonnegative scalars rounded to the nearest
/// whole micro-unit (halves round up), clamped:
/// `(a * FX_ONE + b/2) / b`.
pub open spec fn fx_rdiv_spec(a: int, b: int) -> int
    recommends
        0 <= a,
        0 < b,
{
    fx_clamped((a * (FX_ONE as int) + b / 2) / b)
}

/// Scaled quotient of nonnegative scalars, rounded to nearest.
pub fn fx_rdiv(a: i64, b: i64) -> (r: i64)
    requires
        0 <= a,
        fx_in_range(a as int),
        0 < b,
    ensures
        r as int == fx_rdiv_spec(a as int, b as int),
        0 <= r,
        fx_in_range(r as int),
{
    let n: u128 = (a as u128) * 1_000_000u128 + (b as u128) / 2;
    let q: u128 = wide_udiv(n, b as u128);
    proof {
        vstd::arithmetic::div_mod::lemma_div_nonincreasing(n as int, b as int);
        vstd::arithmetic::div_mod::lemma_div_pos_is_pos(n as int, b as int);
    }
    fx_clamp_wide(q as i128)
}

/// The rising half-wave of the sine approximation, on `[0, FX_PI]`:
/// a quadratic rational approximant, rounded to the nearest micro-unit
/// and capped at one, so it is exact at the ends and the peak of the
/// wave.
pub open spec fn fx_half_sin_spec(y: int) -> int {
    let a = fx_mul_spec(y, FX_PI as int - y);
    let den = FX_FIVE_PI_SQ as int - 4 * a;
    if den <= 0 {
        0int
    } else {
        let s = fx_rdiv_spec(16 * a, den);
        if s > FX_ONE as int {
            FX_ONE as int
        } else {
            s
        }
    }
}

/// The sine of a scalar angle in micro-radians: the angle is reduced into
/// one period, and the second half-period mirrors the first.
pub open spec fn fx_sin_spec(x: int) -> int {
    let m = x % (FX_TWO_PI as int);
    if m < FX_PI as int {
        fx_half_sin_spec(m)
    } else {
        -fx_half_sin_spec(m - FX_PI as int)
    }
}

/// The cosine, as the sine a quarter turn ahead.
pub open spec fn fx_cos_spec(x: int) -> int {
    fx_sin_spec(fx_clamped(x + FX_HALF_PI as int))
}

/// One half-wave of the sine approximant.
fn fx_half_sin(y: i64) -> (r: i64)
    requires
        0 <= y <= FX_PI,
    ensures
        r as int == fx_half_sin_spec(y as int),
        0 <= r <= FX_ONE,
{
    let a: i64 = fx_mul(y, FX_PI - y);
    proof {
        assert(fx_mag(y as int * (FX_PI as int - y as int))
            <= (FX_PI as int) * (FX_PI as int))
            by (nonlinear_arith)
            requires 0 <= y as int <= FX_PI as int,
        ;
        vstd::arithmetic::mul::lemma_mul_nonnegative(y as int, FX_PI as int - y as int);
        vstd::arithmetic::div_mod::lemma_div_nonincreasing(
            fx_mag(y as int * (FX_PI as int - y as int)), FX_ONE as int);
        vstd::arithmetic::div_mod::lemma_div_pos_is_pos(
            fx_mag(y as int * (FX_PI as int - y as int)), FX_ONE as int);
    }
    let den: i64 = FX_FIVE_PI_SQ - 4 * a;
    if den <= 0 {
        0
    } else {
        let s: i64 = fx_rdiv(16 * a, den);
        if s > FX_ONE {
            FX_ONE
        } else {
            s
        }
    }
}

/// The sine of a scalar angle (micro-radians), within `[-FX_ONE, FX_ONE]`.
pub fn fx_sin(x: i64) -> (r: i64)
    requires
        fx_in_range(x as int),
    ensures
        r as int == fx_sin_spec(x as int),
        -FX_ONE <= r <= FX_ONE,
{
    let m: i64 = fx_mod_two_pi(x);
    if m < FX_PI {
        fx_half_sin(m)
    } else {
        -fx_half_sin(m - FX_PI)
    }
}

/// The cosine of a scalar angle (micro-radians), within `[-FX_ONE, FX_ONE]`.
pub fn fx_cos(x: i64) -> (r: i64)
    requires
        fx_in_range(x as int),
    ensures
        r as int == fx_cos_spec(x as int),
        -FX_ONE <= r <= FX_ONE,
{
    fx_sin(fx_add(x, FX_HALF_PI))
}

/// The greatest whole unit at or below the scalar.
pub fn fx_floor_units(x: i64) -> (r: i64)
    requires
        fx_in_range(x as int),
    ensures
        r as int == (x as int) / (FX_ONE as int),
        -1_000_000_001 <= r <= 1_000_000_000,
{
    if x >= 0 {
        ((x as u64) / (FX_ONE as u64)) as i64
    } else {
        let nm: u64 = (-x) as u64;
        let q: u64 = nm / (FX_ONE as u64);
        let rem: u64 = nm % (FX_ONE as u64);
        proof {
            vstd::arithmetic::div_mod::lemma_fundamental_div_mod(
                nm as int, FX_ONE as int);
            if rem == 0 {
                vstd::arithmetic::div_mod::lemma_fundamental_div_mod_converse_div(
                    x as int, FX_ONE as int, -(q as int), 0);
            } else {
                vstd::arithmetic::div_mod::lemma_fundamental_div_mod_converse_div(
                    x as int, FX_ONE as int, -(q as int) - 1,
                    FX_ONE as int - rem as int);
            }
        }
        if rem == 0 {
            -(q as i64)
        } else {
            -(q as i64) - 1
        }
    }
}

/// The least whole unit at or above the scalar.
pub fn fx_ceil_units(x: i64) -> (r: i64)
    requires
        fx_in_range(x as int),
    ensures
        r as int == -((-(x as int)) / (FX_ONE as int)),
        -1_000_000_000 <= r <= 1_000_000_001,
{
    let f: i64 = fx_floor_units(-x);
    -f
}

/// The scalar at the center of a pixel: `p + 0.5` units, clamped.
pub fn px_center_fx(p: i64) -> (r: i64)
    ensures
        r as int == fx_clamped(p * (FX_ONE as int) + 500_000),
        fx_in_range(r as int),
{
    proof {
        assert(fx_mag((p as int) * (FX_ONE as int)) <= 0x8000000000000000 * (FX_ONE as int))
            by (nonlinear_arith)
            requires -0x8000000000000000 <= p as int <= 0x8000000000000000,
        ;
    }
    fx_clamp_wide((p as i128) * (FX_ONE as i128) + 500_000)
}

/// The scalar at a whole pixel coordinate, clamped.
pub fn px_fx(p: i64) -> (r: i64)
    ensures
        r as int == fx_clamped(p * (FX_ONE as int)),
        fx_in_range(r as int),
{
    proof {
        assert(fx_mag((p as int) * (FX_ONE as int)) <= 0x8000000000000000 * (FX_ONE as int))
            by (nonlinear_arith)
            requires -0x8000000000000000 <= p as int <= 0x8000000000000000,
        ;
    }
    fx_clamp_wide((p as i128) * (FX_ONE as i128))
}

} // verus!
