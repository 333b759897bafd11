//! Free directions and displacements in three dimensions.
use vstd::prelude::*;

use crate::fixed::{
    Fx, approx, fx_add, fx_div, fx_mul, fx_neg, fx_sqrt, fx_sub, sat, tdiv, EPSILON, SCALE,
};

verus! {

/// Build a fixed-point number from its raw units, in specifications.
pub open spec fn fxr(v: int) -> Fx {
    Fx { raw: v as i64 }
}

/// A free direction or displacement; unlike a point it has no position.
#[derive(Clone, Copy, Debug, PartialEq, Eq, Structural)]
pub struct Vector {
    pub x: Fx,
    pub y: Fx,
    pub z: Fx,
}

/// Raw value of the dot product of two vectors, summed left to right.
pub open spec fn spec_dot(a: Vector, b: Vector) -> int {
    fx_add(
        fx_add(fx_mul(a.x.r(), b.x.r()), fx_mul(a.y.r(), b.y.r())),
        fx_mul(a.z.r(), b.z.r()),
    )
}

/// Raw value of the magnitude of a vector.
pub open spec fn spec_magnitude(a: Vector) -> int {
    fx_sqrt(spec_dot(a, a))
}

/// Componentwise sum.
pub open spec fn spec_vec_add(a: Vector, b: Vector) -> Vector {
    Vector {
        x: fxr(fx_add(a.x.r(), b.x.r())),
        y: fxr(fx_add(a.y.r(), b.y.r())),
        z: fxr(fx_add(a.z.r(), b.z.r())),
    }
}

/// Componentwise difference.
pub open spec fn spec_vec_sub(a: Vector, b: Vector) -> Vector {
    Vector {
        x: fxr(fx_sub(a.x.r(), b.x.r())),
        y: fxr(fx_sub(a.y.r(), b.y.r())),
        z: fxr(fx_sub(a.z.r(), b.z.r())),
    }
}

/// Componentwise negation.
pub open spec fn spec_vec_neg(a: Vector) -> Vector {
    Vector { x: fxr(fx_neg(a.x.r())), y: fxr(fx_neg(a.y.r())), z: fxr(fx_neg(a.z.r())) }
}

/// Scaling by a fixed-point factor.
pub open spec fn spec_vec_scale(a: Vector, k: int) -> Vector {
    Vector {
        x: fxr(fx_mul(a.x.r(), k)),
        y: fxr(fx_mul(a.y.r(), k)),
        z: fxr(fx_mul(a.z.r(), k)),
    }
}

/// Componentwise division by a nonzero fixed-point factor.
pub open spec fn spec_vec_div(a: Vector, k: int) -> Vector
    recommends
        k != 0,
{
    Vector {
        x: fxr(fx_div(a.x.r(), k)),
        y: fxr(fx_div(a.y.r(), k)),
        z: fxr(fx_div(a.z.r(), k)),
    }
}

/// The cross product, perpendicular to both arguments.
pub open spec fn spec_cross(a: Vector, b: Vector) -> Vector {
    Vector {
        x: fxr(fx_sub(fx_mul(a.y.r(), b.z.r()), fx_mul(a.z.r(), b.y.r()))),
        y: fxr(fx_sub(fx_mul(a.z.r(), b.x.r()), fx_mul(a.x.r(), b.z.r()))),
        z: fxr(fx_sub(fx_mul(a.x.r(), b.y.r()), fx_mul(a.y.r(), b.x.r()))),
    }
}

/// The vector of length one pointing the same way, or the vector itself when
/// its magnitude is zero.
pub open spec fn spec_normalize(a: Vector) -> Vector {
    let m = spec_magnitude(a);
    if m > 0 {
        spec_vec_div(a, m)
    } else {
        a
    }
}

/// The reflection of `a` about the surface normal `n`: the normal is doubled,
/// then scaled by the dot product, then subtracted.
pub open spec fn spec_reflect(a: Vector, n: Vector) -> Vector {
    spec_vec_sub(a, spec_vec_scale(spec_vec_scale(n, 2 * SCALE), spec_dot(a, n)))
}

/// Approximate equality, each component within the shared tolerance.
pub open spec fn spec_vec_approx(a: Vector, b: Vector) -> bool {
    approx(a.x.r(), b.x.r()) && approx(a.y.r(), b.y.r()) && approx(a.z.r(), b.z.r())
}

/// A product of a value with itself never truncates below zero.
pub proof fn lemma_fx_square_nonneg(a: int)
    ensures
        fx_mul(a, a) >= 0,
{
    assert(a * a >= 0) by (nonlinear_arith);
    assert(tdiv(a * a, SCALE as int) >= 0);
}

/// The dot product of a vector with itself is nonnegative.
pub proof fn lemma_dot_self_nonneg(a: Vector)
    ensures
        spec_dot(a, a) >= 0,
{
    lemma_fx_square_nonneg(a.x.r());
    lemma_fx_square_nonneg(a.y.r());
    lemma_fx_square_nonneg(a.z.r());
}

impl Vector {
    /// Build a vector from its components.
    pub fn new(x: Fx, y: Fx, z: Fx) -> (r: Vector)
        ensures
            r == (Vector { x, y, z }),
    {
        Vector { x, y, z }
    }

    /// Measure the similarity of two directions.
    pub fn dot(&self, other: &Vector) -> (r: Fx)
        ensures
            r.r() == spec_dot(*self, *other),
    {
        self.x.mul(other.x).add(self.y.mul(other.y)).add(self.z.mul(other.z))
    }

    /// The length of the vector.
    pub fn magnitude(&self) -> (r: Fx)
        ensures
            r.r() == spec_magnitude(*self),
            r.raw >= 0,
    {
        proof {
            lemma_dot_self_nonneg(*self);
        }
        self.dot(self).sqrt()
    }

    /// A vector with the same direction but length one; the zero vector is
    /// returned unchanged.
    pub fn normalize(&self) -> (r: Vector)
        ensures
            r == spec_normalize(*self),
    {
        let len = self.magnitude();
        if len.raw > 0 {
            Vector { x: self.x.div(len), y: self.y.div(len), z: self.z.div(len) }
        } else {
            *self
        }
    }

    /// A vector perpendicular to the two inputs.
    pub fn cross(&self, other: &Vector) -> (r: Vector)
        ensures
            r == spec_cross(*self, *other),
    {
        Vector {
            x: self.y.mul(other.z).sub(self.z.mul(other.y)),
            y: self.z.mul(other.x).sub(self.x.mul(other.z)),
            z: self.x.mul(other.y).sub(self.y.mul(other.x)),
        }
    }

    /// The reflection of the vector about a surface normal.
    pub fn reflect(&self, normal: &Vector) -> (r: Vector)
        ensures
            r == spec_reflect(*self, *normal),
    {
        let two = Fx::new_raw(2 * SCALE);
        self.sub(&normal.scale(two).scale(self.dot(normal)))
    }

    /// Componentwise sum.
    pub fn add(&self, rhs: &Vector) -> (r: Vector)
        ensures
            r == spec_vec_add(*self, *rhs),
    {
        Vector { x: self.x.add(rhs.x), y: self.y.add(rhs.y), z: self.z.add(rhs.z) }
    }

    /// Componentwise difference.
    pub fn sub(&self, rhs: &Vector) -> (r: Vector)
        ensures
            r == spec_vec_sub(*self, *rhs),
    {
        Vector { x: self.x.sub(rhs.x), y: self.y.sub(rhs.y), z: self.z.sub(rhs.z) }
    }

    /// Componentwise negation.
    pub fn neg(&self) -> (r: Vector)
        ensures
            r == spec_vec_neg(*self),
    {
        Vector { x: self.x.neg(), y: self.y.neg(), z: self.z.neg() }
    }

    /// Scale every component by a factor.
    pub fn scale(&self, k: Fx) -> (r: Vector)
        ensures
            r == spec_vec_scale(*self, k.r()),
    {
        Vector { x: self.x.mul(k), y: self.y.mul(k), z: self.z.mul(k) }
    }

    /// Divide every component by a nonzero factor.
    pub fn div_s(&self, k: Fx) -> (r: Vector)
        requires
            k.raw != 0,
        ensures
            r == spec_vec_div(*self, k.r()),
    {
        Vector { x: self.x.div(k), y: self.y.div(k), z: self.z.div(k) }
    }

    /// Approximate equality within the shared tolerance.
    pub fn approx_eq(&self, other: &Vector) -> (r: bool)
        ensures
            r == spec_vec_approx(*self, *other),
    {
        self.x.sub(other.x).abs().raw < EPSILON && self.y.sub(other.y).abs().raw < EPSILON
            && self.z.sub(other.z).abs().raw < EPSILON
    }
}


/// Law: normalizing an axis-aligned vector of whole length at least one
/// yields exactly the unit vector along that axis, whose magnitude is
/// exactly one. Near the fixed-point grid the general claim fails — a
/// vector a single raw unit long collapses to zero under normalization —
/// so the law is stated on lengths the grid resolves.
pub proof fn lemma_normalize_axis_unit(v: Vector, k: int)
    requires
        v.y.r() == 0,
        v.z.r() == 0,
        v.x.r() == k * SCALE,
        1 <= k <= 10_000,
    ensures
        spec_normalize(v) == (Vector { x: fxr(SCALE as int), y: fxr(0), z: fxr(0) }),
        spec_magnitude(spec_normalize(v)) == SCALE,
{
    let s = SCALE as int;
    let a = k * s;
    crate::fixed::lemma_fx_mul_whole(0, 0);
    assert(fx_mul(0, 0) == 0);

    // The self dot product is exactly the squared length on the grid.
    assert(a * a == (k * k * s) * s) by (nonlinear_arith)
        requires
            a == k * s,
    ;
    assert(1 <= k * k * s <= 10_000_000_000_000) by (nonlinear_arith)
        requires
            1 <= k <= 10_000 && s == 100_000,
    ;
    crate::fixed::lemma_tdiv_exact(k * k * s, s);
    assert(fx_mul(a, a) == k * k * s);
    assert(spec_dot(v, v) == k * k * s);

    // Its square root is exactly the length.
    assert((k * k * s) * s == a * a) by (nonlinear_arith)
        requires
            a == k * s,
    ;
    assert(a >= 1) by (nonlinear_arith)
        requires
            a == k * s && k >= 1 && s >= 1,
    ;
    assert(a * a < (a + 1) * (a + 1)) by (nonlinear_arith)
        requires
            a >= 1,
    ;
    crate::fixed::lemma_isqrt_unique(a * a, a);
    assert(spec_magnitude(v) == a);

    // Dividing by the length lands exactly on the unit grid point.
    assert(a * s == s * a) by (nonlinear_arith);
    assert(a > 0);
    crate::fixed::lemma_tdiv_exact(s, a);
    assert(fx_div(a, a) == s);
    assert(fx_div(0, a) == 0);
    let n = spec_normalize(v);
    assert(n == (Vector { x: fxr(s), y: fxr(0), z: fxr(0) }));

    // The unit grid point has magnitude exactly one.
    crate::fixed::lemma_fx_mul_whole(s, 1);
    assert(fx_mul(s, s) == s);
    assert(spec_dot(n, n) == s);
    assert(s * s < (s + 1) * (s + 1)) by (nonlinear_arith)
        requires
            s >= 1,
    ;
    crate::fixed::lemma_isqrt_unique(s * s, s);
}

} // verus!
