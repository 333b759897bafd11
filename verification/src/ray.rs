//! Parametric rays.
use vstd::prelude::*;

use crate::fixed::Fx;
use crate::point::{spec_pt_add_vec, Point};
use crate::vector::{spec_vec_scale, Vector};

verus! {

/// A parametric line: every `t` names the point `origin + direction * t`.
#[derive(Clone, Copy, Debug, PartialEq, Eq, Structural)]
pub struct Ray {
    pub origin: Point,
    pub direction: Vector,
}

/// The point a ray reaches at parameter `t` (raw units).
pub open spec fn spec_ray_position(ray: Ray, t: int) -> Point {
    spec_pt_add_vec(ray.origin, spec_vec_scale(ray.direction, t))
}

impl Ray {
    /// Build a ray from its origin and direction.
    pub fn new(origin: Point, direction: Vector) -> (r: Ray)
        ensures
            r == (Ray { origin, direction }),
    {
        Ray { origin, direction }
    }

    /// The point the ray reaches at parameter `t`.
    pub fn position(&self, t: Fx) -> (p: Point)
        ensures
            p == spec_ray_position(*self, t.r()),
    {
        self.origin.add_vec(&self.direction.scale(t))
    }
}

} // verus!
