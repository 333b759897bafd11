//! Positions in affine space.
use vstd::prelude::*;

use crate::fixed::{approx, fx_add, fx_div, fx_neg, fx_sub, Fx, EPSILON};
use crate::vector::{fxr, Vector};

verus! {

/// A position in affine space; differences of points are vectors.
#[derive(Clone, Copy, Debug, PartialEq, Eq, Structural)]
pub struct Point {
    pub x: Fx,
    pub y: Fx,
    pub z: Fx,
}

/// The point reached from `a` by the displacement `v`.
pub open spec fn spec_pt_add_vec(a: Point, v: Vector) -> Point {
    Point {
        x: fxr(fx_add(a.x.r(), v.x.r())),
        y: fxr(fx_add(a.y.r(), v.y.r())),
        z: fxr(fx_add(a.z.r(), v.z.r())),
    }
}

/// The displacement leading from `b` to `a`.
pub open spec fn spec_pt_sub(a: Point, b: Point) -> Vector {
    Vector {
        x: fxr(fx_sub(a.x.r(), b.x.r())),
        y: fxr(fx_sub(a.y.r(), b.y.r())),
        z: fxr(fx_sub(a.z.r(), b.z.r())),
    }
}

/// The point reached from `a` by going back along `v`.
pub open spec fn spec_pt_sub_vec(a: Point, v: Vector) -> Point {
    Point {
        x: fxr(fx_sub(a.x.r(), v.x.r())),
        y: fxr(fx_sub(a.y.r(), v.y.r())),
        z: fxr(fx_sub(a.z.r(), v.z.r())),
    }
}

/// Componentwise division by a nonzero factor.
pub open spec fn spec_pt_div(a: Point, k: int) -> Point
    recommends
        k != 0,
{
    Point {
        x: fxr(fx_div(a.x.r(), k)),
        y: fxr(fx_div(a.y.r(), k)),
        z: fxr(fx_div(a.z.r(), k)),
    }
}

/// The point mirrored through the origin.
pub open spec fn spec_pt_neg(a: Point) -> Point {
    Point { x: fxr(fx_neg(a.x.r())), y: fxr(fx_neg(a.y.r())), z: fxr(fx_neg(a.z.r())) }
}

/// Approximate equality, each coordinate within the shared tolerance.
pub open spec fn spec_pt_approx(a: Point, b: Point) -> bool {
    approx(a.x.r(), b.x.r()) && approx(a.y.r(), b.y.r()) && approx(a.z.r(), b.z.r())
}

impl Point {
    /// Build a point from its coordinates.
    pub fn new(x: Fx, y: Fx, z: Fx) -> (r: Point)
        ensures
            r == (Point { x, y, z }),
    {
        Point { x, y, z }
    }

    /// Move the point by a displacement.
    pub fn add_vec(&self, rhs: &Vector) -> (r: Point)
        ensures
            r == spec_pt_add_vec(*self, *rhs),
    {
        Point { x: self.x.add(rhs.x), y: self.y.add(rhs.y), z: self.z.add(rhs.z) }
    }

    /// The displacement leading from `other` to this point.
    pub fn sub(&self, other: &Point) -> (r: Vector)
        ensures
            r == spec_pt_sub(*self, *other),
    {
        Vector { x: self.x.sub(other.x), y: self.y.sub(other.y), z: self.z.sub(other.z) }
    }

    /// Move the point back along a displacement.
    pub fn sub_vec(&self, rhs: &Vector) -> (r: Point)
        ensures
            r == spec_pt_sub_vec(*self, *rhs),
    {
        Point { x: self.x.sub(rhs.x), y: self.y.sub(rhs.y), z: self.z.sub(rhs.z) }
    }

    /// Divide every coordinate by a nonzero factor.
    pub fn div_s(&self, k: Fx) -> (r: Point)
        requires
            k.raw != 0,
        ensures
            r == spec_pt_div(*self, k.r()),
    {
        Point { x: self.x.div(k), y: self.y.div(k), z: self.z.div(k) }
    }

    /// The point mirrored through the origin.
    pub fn neg(&self) -> (r: Point)
        ensures
            r == spec_pt_neg(*self),
    {
        Point { x: self.x.neg(), y: self.y.neg(), z: self.z.neg() }
    }

    /// Approximate equality within the shared tolerance.
    pub fn approx_eq(&self, other: &Point) -> (r: bool)
        ensures
            r == spec_pt_approx(*self, *other),
    {
        self.x.sub(other.x).abs().raw < EPSILON && self.y.sub(other.y).abs().raw < EPSILON
            && self.z.sub(other.z).abs().raw < EPSILON
    }
}

} // verus!
