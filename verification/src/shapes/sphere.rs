//! Spheres centered at the origin.
use vstd::prelude::*;

use crate::fixed::{fx_add, fx_div, fx_mul, fx_neg, fx_sqrt, fx_sub, Fx, SCALE};
use crate::intersection::LocalIntersection;
use crate::point::{spec_pt_div, spec_pt_sub, Point};
use crate::ray::{spec_ray_position, Ray};
use crate::vector::{fxr, spec_dot, Vector};

verus! {

/// A sphere of the given radius, centered at the origin of its local frame.
#[derive(Clone, Copy, Debug, PartialEq, Eq, Structural)]
pub struct Sphere {
    pub radius: Fx,
}

/// The local normal at a surface point: the point divided by the radius.
pub open spec fn spec_sphere_normal(s: Sphere, p: Point) -> Vector
    recommends
        s.radius.r() != 0,
{
    let q = spec_pt_div(Point { x: p.x, y: p.y, z: p.z }, s.radius.r());
    Vector { x: q.x, y: q.y, z: q.z }
}

/// The quadratic coefficients of the sphere intersection, as raw values:
/// `a` from the direction, `b` from origin and direction, `c` from the
/// origin and the radius.
pub open spec fn spec_sphere_abc(s: Sphere, ray: Ray) -> (int, int, int) {
    let o = spec_pt_sub(ray.origin, Point { x: fxr(0), y: fxr(0), z: fxr(0) });
    let ov = Vector { x: o.x, y: o.y, z: o.z };
    let d = ray.direction;
    let a = spec_dot(d, d);
    let b = fx_mul(2 * SCALE, spec_dot(ov, d));
    let c = fx_sub(spec_dot(ov, ov), fx_mul(s.radius.r(), s.radius.r()));
    (a, b, c)
}

/// The nearest forward sphere hit, or `None`: the discriminant decides
/// whether roots exist, the smaller nonnegative root is taken, and a ray
/// with both roots behind its origin misses.
pub open spec fn spec_sphere_intersect(s: Sphere, ray: Ray) -> Option<LocalIntersection>
    recommends
        s.radius.r() != 0,
{
    let (a, b, c) = spec_sphere_abc(s, ray);
    let disc = fx_sub(fx_mul(b, b), fx_mul(fx_mul(4 * SCALE, a), c));
    if a == 0 || disc < 0 {
        None
    } else {
        let sq = fx_sqrt(disc);
        let t0 = fx_div(fx_sub(fx_neg(b), sq), fx_mul(2 * SCALE, a));
        let t1 = fx_div(fx_add(fx_neg(b), sq), fx_mul(2 * SCALE, a));
        if t1 < 0 {
            None
        } else {
            let t = if t0 < 0 {
                t1
            } else {
                t0
            };
            let point = spec_ray_position(ray, t);
            Some(
                LocalIntersection { point, normal: spec_sphere_normal(s, point), t: fxr(t) },
            )
        }
    }
}

impl Sphere {
    /// Build a sphere with the given radius.
    pub fn new(radius: Fx) -> (s: Sphere)
        ensures
            s == (Sphere { radius }),
    {
        Sphere { radius }
    }

    /// The nearest forward hit of a ray with the sphere, in local space.
    pub fn intersect(&self, ray: Ray) -> (r: Option<LocalIntersection>)
        requires
            self.radius.raw != 0,
        ensures
            r == spec_sphere_intersect(*self, ray),
    {
        let center = Point::new(Fx::zero(), Fx::zero(), Fx::zero());
        let o = ray.origin.sub(&center);
        let d = ray.direction;

        let a = d.dot(&d);
        let b = Fx::from_int(2).mul(o.dot(&d));
        let c = o.dot(&o).sub(self.radius.mul(self.radius));

        let disc = b.mul(b).sub(Fx::from_int(4).mul(a).mul(c));

        if a.raw == 0 || disc.raw < 0 {
            return None;
        }

        let sq = disc.sqrt();
        let two_a = Fx::from_int(2).mul(a);
        let neg_b = b.neg();
        proof {
            crate::fixed::lemma_fx_mul_whole(a.r(), 2);
        }
        let t0 = neg_b.sub(sq).div(two_a);
        let t1 = neg_b.add(sq).div(two_a);

        if t1.raw < 0 {
            return None;
        }

        let t = if t0.raw < 0 {
            t1
        } else {
            t0
        };
        let point = ray.position(t);
        let normal = self.normal_at(point);
        Some(LocalIntersection { point, normal, t })
    }

    /// The outward unit normal at a point on the surface.
    pub fn normal_at(&self, point: Point) -> (n: Vector)
        requires
            self.radius.raw != 0,
        ensures
            n == spec_sphere_normal(*self, point),
    {
        let q = Point::new(point.x, point.y, point.z).div_s(self.radius);
        Vector { x: q.x, y: q.y, z: q.z }
    }
}


/// Law: on the unit sphere, the surface normal at a surface point is the
/// point itself read as a direction, its magnitude is one, and its dot
/// product with the point is one. A surface point is one whose dot product
/// with itself is one, with coordinates in the sphere's neighborhood and
/// away from the bottom of the machine range.
pub proof fn lemma_unit_sphere_normal(s: Sphere, p: Point)
    requires
        s.radius.r() == SCALE,
        spec_dot(Vector { x: p.x, y: p.y, z: p.z }, Vector { x: p.x, y: p.y, z: p.z })
            == SCALE,
        crate::fixed::abs_i(p.x.r()) <= 2 * SCALE,
        crate::fixed::abs_i(p.y.r()) <= 2 * SCALE,
        crate::fixed::abs_i(p.z.r()) <= 2 * SCALE,
    ensures
        spec_sphere_normal(s, p) == (Vector { x: p.x, y: p.y, z: p.z }),
        crate::vector::spec_magnitude(spec_sphere_normal(s, p)) == SCALE,
        spec_dot(Vector { x: p.x, y: p.y, z: p.z }, spec_sphere_normal(s, p)) == SCALE,
{
    crate::fixed::lemma_fx_div_one(p.x.r());
    crate::fixed::lemma_fx_div_one(p.y.r());
    crate::fixed::lemma_fx_div_one(p.z.r());
    assert(spec_sphere_normal(s, p) == (Vector { x: p.x, y: p.y, z: p.z }));
    assert((SCALE as int) * (SCALE as int) <= (SCALE as int) * (SCALE as int)
        && (SCALE as int) * (SCALE as int) < ((SCALE as int) + 1) * ((SCALE as int) + 1))
        by (nonlinear_arith);
    crate::fixed::lemma_isqrt_unique((SCALE as int) * (SCALE as int), SCALE as int);
}

} // verus!
