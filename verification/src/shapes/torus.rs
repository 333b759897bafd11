//! Torus placeholder.
//!
//! A correct torus intersection needs a quartic root finder, which this
//! library does not carry: the torus is an explicit placeholder primitive
//! that never intersects and reports a constant upward normal.
use vstd::prelude::*;

use crate::fixed::{Fx, SCALE};
use crate::intersection::LocalIntersection;
use crate::point::Point;
use crate::ray::Ray;
use crate::vector::{fxr, Vector};

verus! {

/// A torus: the major radius reaches the tube's center, the minor radius is
/// the tube's own.
#[derive(Clone, Copy, Debug, PartialEq, Eq, Structural)]
pub struct Torus {
    pub major_radius: Fx,
    pub minor_radius: Fx,
}

impl Torus {
    /// Build a torus from its radii.
    pub fn new(major_radius: Fx, minor_radius: Fx) -> (t: Torus)
        ensures
            t == (Torus { major_radius, minor_radius }),
    {
        Torus { major_radius, minor_radius }
    }

    /// The placeholder intersection: no ray ever hits.
    pub fn intersect(&self, _ray: Ray) -> (r: Option<LocalIntersection>)
        ensures
            r is None,
    {
        None
    }

    /// The placeholder normal: constant upward.
    pub fn normal_at(&self, _point: Point) -> (n: Vector)
        ensures
            n == (Vector { x: fxr(0), y: fxr(SCALE as int), z: fxr(0) }),
    {
        Vector::new(Fx::zero(), Fx::one(), Fx::zero())
    }
}

} // verus!
