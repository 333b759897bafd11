//! Fixed-point trigonometry.
//!
//! Angles are radians on the fixed-point grid. The sine is computed by
//! wrapping the angle into one period, folding into the central half-period,
//! and evaluating a degree-seven Taylor polynomial there; the cosine is the
//! sine of the complementary angle. Each function's contract pins the exact
//! raw value produced, and the results always stay within [-1, 1].
use vstd::prelude::*;

use crate::fixed::{abs_i, fx_add, fx_div, fx_mul, fx_neg, fx_sqrt, fx_sub, Fx, SCALE};

verus! {

/// Half a turn, in raw angle units.
pub const PI_RAW: i64 = 314_159;

/// A full turn, in raw angle units.
pub const TWO_PI_RAW: i64 = 628_318;

/// A quarter turn, in raw angle units.
pub const HALF_PI_RAW: i64 = 157_079;

/// The angle wrapped into [-PI_RAW, PI_RAW] by whole turns.
pub open spec fn wrap_angle(x: int) -> int
    decreases abs_i(x),
{
    if x > PI_RAW {
        wrap_angle(x - TWO_PI_RAW)
    } else if x < -PI_RAW {
        wrap_angle(x + TWO_PI_RAW)
    } else {
        x
    }
}

/// Raw value of the sine of a wrapped, folded angle in the central
/// half-period: the degree-seven Taylor polynomial, clamped to [-1, 1].
pub open spec fn spec_sin_poly(y: int) -> int {
    let y2 = fx_mul(y, y);
    let y3 = fx_mul(y2, y);
    let y5 = fx_mul(y3, y2);
    let y7 = fx_mul(y5, y2);
    let t = fx_sub(
        fx_add(fx_sub(y, fx_div(y3, 6 * SCALE)), fx_div(y5, 120 * SCALE)),
        fx_div(y7, 5040 * SCALE),
    );
    if t > SCALE {
        SCALE as int
    } else if t < -SCALE {
        -SCALE as int
    } else {
        t
    }
}

/// Raw value of the sine of an angle in raw radians.
pub open spec fn spec_sin(x: int) -> int {
    let w = wrap_angle(x);
    let y = if w > HALF_PI_RAW {
        fx_sub(PI_RAW as int, w)
    } else if w < -HALF_PI_RAW {
        fx_sub(-PI_RAW as int, w)
    } else {
        w
    };
    spec_sin_poly(y)
}

/// Raw value of the cosine: the sine of the complementary angle.
pub open spec fn spec_cos(x: int) -> int {
    spec_sin(fx_sub(HALF_PI_RAW as int, x))
}

/// Wrap an angle into [-PI_RAW, PI_RAW] by whole turns.
fn wrap(x: Fx) -> (r: Fx)
    ensures
        r.r() == wrap_angle(x.r()),
        -PI_RAW <= r.raw <= PI_RAW,
{
    let mut a: i64 = x.raw;
    while a > PI_RAW
        invariant
            wrap_angle(a as int) == wrap_angle(x.r()),
        decreases abs_i(a as int),
    {
        a = a - TWO_PI_RAW;
    }
    while a < -PI_RAW
        invariant
            a <= PI_RAW,
            wrap_angle(a as int) == wrap_angle(x.r()),
        decreases abs_i(a as int),
    {
        a = a + TWO_PI_RAW;
    }
    Fx { raw: a }
}

/// The sine of an angle in radians.
pub fn sin(x: Fx) -> (r: Fx)
    ensures
        r.r() == spec_sin(x.r()),
        -SCALE <= r.raw <= SCALE,
{
    let w = wrap(x);
    let y = if w.raw > HALF_PI_RAW {
        Fx { raw: PI_RAW }.sub(w)
    } else if w.raw < -HALF_PI_RAW {
        Fx { raw: -PI_RAW }.sub(w)
    } else {
        w
    };
    let y2 = y.mul(y);
    let y3 = y2.mul(y);
    let y5 = y3.mul(y2);
    let y7 = y5.mul(y2);
    let t = y.sub(y3.div(Fx::from_int(6))).add(y5.div(Fx::from_int(120))).sub(
        y7.div(Fx::from_int(5040)),
    );
    t.clamp(Fx { raw: -SCALE }, Fx { raw: SCALE })
}

/// The cosine of an angle in radians.
pub fn cos(x: Fx) -> (r: Fx)
    ensures
        r.r() == spec_cos(x.r()),
        -SCALE <= r.raw <= SCALE,
{
    sin(Fx { raw: HALF_PI_RAW }.sub(x))
}

/// Raw value of an angle in degrees converted to radians.
pub open spec fn spec_deg_to_rad(d: int) -> int {
    fx_div(fx_mul(d, PI_RAW as int), 180 * SCALE)
}

/// Convert an angle from degrees to radians.
pub fn deg_to_rad(d: Fx) -> (r: Fx)
    ensures
        r.r() == spec_deg_to_rad(d.r()),
{
    d.mul(Fx { raw: PI_RAW }).div(Fx::from_int(180))
}

/// Raw value of an angle in radians converted to degrees.
pub open spec fn spec_rad_to_deg(x: int) -> int {
    fx_div(fx_mul(x, 180 * SCALE), PI_RAW as int)
}

/// Convert an angle from radians to degrees.
pub fn rad_to_deg(x: Fx) -> (r: Fx)
    ensures
        r.r() == spec_rad_to_deg(x.r()),
{
    x.mul(Fx::from_int(180)).div(Fx { raw: PI_RAW })
}


/// One bisection pass for the inverse sine: the midpoint splits the
/// interval by comparing the sine there with the target, and after the
/// budget runs out the midpoint is the answer.
pub open spec fn spec_asin_iter(y: int, lo: int, hi: int, n: nat) -> int
    decreases n,
{
    let mid = lo + (hi - lo) / 2;
    if n == 0 {
        mid
    } else {
        if spec_sin(mid) <= y {
            spec_asin_iter(y, mid, hi, (n - 1) as nat)
        } else {
            spec_asin_iter(y, lo, mid, (n - 1) as nat)
        }
    }
}

/// Raw value of the inverse sine in radians: the target is clamped to
/// [-1, 1] and the quarter-turn interval bisected a fixed number of times.
pub open spec fn spec_asin(y: int) -> int {
    let c = if y < -SCALE {
        -SCALE as int
    } else if y > SCALE {
        SCALE as int
    } else {
        y
    };
    spec_asin_iter(c, -HALF_PI_RAW as int, HALF_PI_RAW as int, 40)
}

/// Raw value of the inverse cosine: the complement of the inverse sine.
pub open spec fn spec_acos(y: int) -> int {
    fx_sub(HALF_PI_RAW as int, spec_asin(y))
}

/// The inverse sine of a ratio, as an angle in radians within a quarter
/// turn of zero, found by bisection against this module's sine.
pub fn asin(y: Fx) -> (r: Fx)
    ensures
        r.r() == spec_asin(y.r()),
        -HALF_PI_RAW <= r.raw <= HALF_PI_RAW,
{
    let c = y.clamp(Fx { raw: -SCALE }, Fx { raw: SCALE });
    let mut lo: i64 = -HALF_PI_RAW;
    let mut hi: i64 = HALF_PI_RAW;
    let mut i: u32 = 0;
    while i < 40
        invariant
            i <= 40,
            -HALF_PI_RAW <= lo <= hi <= HALF_PI_RAW,
            spec_asin_iter(c.r(), lo as int, hi as int, (40 - i) as nat) == spec_asin(y.r()),
        decreases 40 - i,
    {
        let mid: i64 = lo + (hi - lo) / 2;
        if sin(Fx { raw: mid }).raw <= c.raw {
            lo = mid;
        } else {
            hi = mid;
        }
        i = i + 1;
    }
    Fx { raw: lo + (hi - lo) / 2 }
}

/// The inverse cosine of a ratio, in radians.
pub fn acos(y: Fx) -> (r: Fx)
    ensures
        r.r() == spec_acos(y.r()),
{
    Fx { raw: HALF_PI_RAW }.sub(asin(y))
}

/// Raw value of the planar angle of the point (x, y) from the positive x
/// axis, in radians within half a turn of zero: the inverse sine of the
/// height over the distance, mirrored into the left half-plane by sign.
pub open spec fn spec_atan2(y: int, x: int) -> int {
    let d = fx_sqrt(fx_add(fx_mul(x, x), fx_mul(y, y)));
    if d == 0 {
        0
    } else {
        let a = spec_asin(fx_div(y, d));
        if x >= 0 {
            a
        } else if y >= 0 {
            fx_sub(PI_RAW as int, a)
        } else {
            fx_sub(-PI_RAW as int, a)
        }
    }
}

/// The planar angle of the point (x, y) from the positive x axis, in
/// radians; the origin reports angle zero.
pub fn atan2(y: Fx, x: Fx) -> (r: Fx)
    ensures
        r.r() == spec_atan2(y.r(), x.r()),
{
    proof {
        crate::vector::lemma_fx_square_nonneg(x.r());
        crate::vector::lemma_fx_square_nonneg(y.r());
    }
    let d = x.mul(x).add(y.mul(y)).sqrt();
    if d.raw == 0 {
        return Fx::zero();
    }
    let a = asin(y.div(d));
    if x.raw >= 0 {
        a
    } else if y.raw >= 0 {
        Fx { raw: PI_RAW }.sub(a)
    } else {
        Fx { raw: -PI_RAW }.sub(a)
    }
}

} // verus!
