//! Hit records produced by intersection tests.
use vstd::prelude::*;

use crate::fixed::Fx;
use crate::point::Point;
use crate::vector::Vector;

verus! {

/// The result of a shape-local intersection test: the hit distance along the
/// ray, the hit point, and the surface normal, all in the shape's own frame.
#[derive(Clone, Copy, Debug, PartialEq, Eq, Structural)]
pub struct LocalIntersection {
    pub point: Point,
    pub normal: Vector,
    pub t: Fx,
}

/// A world-space hit record. `object_index` names the hit object by its
/// position in the owning world's collection; an object tested on its own
/// reports index zero and the world overwrites it with the real position.
#[derive(Clone, Copy, Debug, PartialEq, Eq, Structural)]
pub struct Intersection {
    pub object_index: usize,
    pub t: Fx,
    pub point: Point,
    pub normal: Vector,
    pub hit_normal: Vector,
    pub over_point: Point,
    pub reflectv: Vector,
    pub n1: Fx,
}

impl Intersection {
    /// Build a hit record from its parts.
    pub fn new(
        object_index: usize,
        t: Fx,
        point: Point,
        normal: Vector,
        hit_normal: Vector,
        over_point: Point,
        reflectv: Vector,
        n1: Fx,
    ) -> (r: Intersection)
        ensures
            r == (Intersection { object_index, t, point, normal, hit_normal, over_point, reflectv, n1 }),
    {
        Intersection { object_index, t, point, normal, hit_normal, over_point, reflectv, n1 }
    }
}

} // verus!
