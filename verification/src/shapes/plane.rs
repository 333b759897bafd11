//! The infinite plane at y = 0.
use vstd::prelude::*;

use crate::fixed::{abs_i, fx_div, fx_neg, Fx, EPSILON, SCALE};
use crate::intersection::LocalIntersection;
use crate::point::Point;
use crate::ray::{spec_ray_position, Ray};
use crate::vector::{fxr, spec_vec_neg, Vector};

verus! {

/// The infinite plane spanning x and z at height zero.
#[derive(Clone, Copy, Debug, PartialEq, Eq, Structural)]
pub struct Plane {}

/// The constant upward plane normal.
pub open spec fn spec_plane_normal() -> Vector {
    Vector { x: fxr(0), y: fxr(SCALE as int), z: fxr(0) }
}

/// The forward plane hit, or `None`: a ray nearly parallel to the plane, or
/// one leaving it behind, misses; the normal faces the ray's origin.
pub open spec fn spec_plane_intersect(ray: Ray) -> Option<LocalIntersection> {
    if abs_i(ray.direction.y.r()) < EPSILON {
        None
    } else {
        let t = fx_div(fx_neg(ray.origin.y.r()), ray.direction.y.r());
        if t < 0 {
            None
        } else {
            let point = spec_ray_position(ray, t);
            let normal = if ray.origin.y.r() > 0 {
                spec_plane_normal()
            } else {
                spec_vec_neg(spec_plane_normal())
            };
            Some(LocalIntersection { point, normal, t: fxr(t) })
        }
    }
}

impl Plane {
    /// Build the plane.
    pub fn new() -> (p: Plane)
        ensures
            p == (Plane {  }),
    {
        Plane {  }
    }

    /// The forward hit of a ray with the plane, in local space.
    pub fn intersect(&self, ray: Ray) -> (r: Option<LocalIntersection>)
        ensures
            r == spec_plane_intersect(ray),
    {
        if ray.direction.y.abs().raw < EPSILON {
            return None;
        }

        let t = ray.origin.y.neg().div(ray.direction.y);
        if t.raw < 0 {
            return None;
        }
        let point = ray.position(t);

        let normal = if ray.origin.y.raw > 0 {
            self.normal_at(point)
        } else {
            self.normal_at(point).neg()
        };

        Some(LocalIntersection { t, point, normal })
    }

    /// The constant upward normal.
    pub fn normal_at(&self, _point: Point) -> (n: Vector)
        ensures
            n == spec_plane_normal(),
    {
        Vector::new(Fx::zero(), Fx::one(), Fx::zero())
    }
}

} // verus!
