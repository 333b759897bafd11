//! Flat disks at y = 0.
use vstd::prelude::*;

use crate::fixed::{abs_i, fx_add, fx_div, fx_mul, fx_neg, Fx, EPSILON, SCALE};
use crate::intersection::LocalIntersection;
use crate::point::Point;
use crate::ray::{spec_ray_position, Ray};
use crate::shapes::plane::spec_plane_normal;
use crate::vector::{fxr, spec_vec_neg, Vector};

verus! {

/// A disk of the given radius lying in the plane y = 0.
#[derive(Clone, Copy, Debug, PartialEq, Eq, Structural)]
pub struct Disk {
    pub radius: Fx,
}

/// The forward disk hit, or `None`: as the plane, but a hit landing outside
/// the radius misses too.
pub open spec fn spec_disk_intersect(d: Disk, ray: Ray) -> Option<LocalIntersection> {
    if abs_i(ray.direction.y.r()) < EPSILON {
        None
    } else {
        let t = fx_div(fx_neg(ray.origin.y.r()), ray.direction.y.r());
        if t < 0 {
            None
        } else {
            let x = fx_add(ray.origin.x.r(), fx_mul(t, ray.direction.x.r()));
            let z = fx_add(ray.origin.z.r(), fx_mul(t, ray.direction.z.r()));
            if fx_add(fx_mul(x, x), fx_mul(z, z)) > fx_mul(d.radius.r(), d.radius.r()) {
                None
            } else {
                let point = spec_ray_position(ray, t);
                let normal = if ray.origin.y.r() > 0 {
                    spec_plane_normal()
                } else {
                    spec_vec_neg(spec_plane_normal())
                };
                Some(LocalIntersection { point, normal, t: fxr(t) })
            }
        }
    }
}

impl Disk {
    /// Build a disk with the given radius.
    pub fn new(radius: Fx) -> (d: Disk)
        ensures
            d == (Disk { radius }),
    {
        Disk { radius }
    }

    /// The forward hit of a ray with the disk, in local space.
    pub fn intersect(&self, ray: Ray) -> (r: Option<LocalIntersection>)
        ensures
            r == spec_disk_intersect(*self, ray),
    {
        if ray.direction.y.abs().raw < EPSILON {
            return None;
        }

        let t = ray.origin.y.neg().div(ray.direction.y);

        if t.raw < 0 {
            return None;
        }

        let x = ray.origin.x.add(t.mul(ray.direction.x));
        let z = ray.origin.z.add(t.mul(ray.direction.z));

        if x.mul(x).add(z.mul(z)).raw > self.radius.mul(self.radius).raw {
            return None;
        }

        let point = ray.position(t);
        let normal = if ray.origin.y.raw > 0 {
            self.normal_at(point)
        } else {
            self.normal_at(point).neg()
        };

        Some(LocalIntersection { point, normal, t })
    }

    /// The constant upward normal.
    pub fn normal_at(&self, _point: Point) -> (n: Vector)
        ensures
            n == spec_plane_normal(),
    {
        Vector::new(Fx::zero(), Fx::one(), Fx::zero())
    }
}

} // verus!
