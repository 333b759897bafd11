//! Open tubes: cylinder walls without caps.
use vstd::prelude::*;

use crate::fixed::{fx_add, fx_div, fx_mul, fx_neg, fx_sqrt, fx_sub, Fx, EPSILON, SCALE};
use crate::intersection::LocalIntersection;
use crate::point::Point;
use crate::ray::{spec_ray_position, Ray};
use crate::vector::{fxr, spec_normalize, Vector};

verus! {

/// An open tube of the given radius and height, centered at the origin.
#[derive(Clone, Copy, Debug, PartialEq, Eq, Structural)]
pub struct Tube {
    pub height: Fx,
    pub radius: Fx,
}

/// The outward tube normal: the hit point's offset from the axis,
/// normalized.
pub open spec fn spec_tube_normal(p: Point) -> Vector {
    spec_normalize(Vector { x: p.x, y: fxr(0), z: p.z })
}

/// The forward tube hit, or `None`: the infinite-cylinder quadratic gives
/// two roots; the nearer forward root whose height falls inside the tube
/// wins, and a hit on the far wall reports the normal flipped inward.
pub open spec fn spec_tube_intersect(tu: Tube, ray: Ray) -> Option<LocalIntersection> {
    let ox = ray.origin.x.r();
    let oz = ray.origin.z.r();
    let dx = ray.direction.x.r();
    let dz = ray.direction.z.r();
    let a = fx_add(fx_mul(dx, dx), fx_mul(dz, dz));
    if a < EPSILON {
        None
    } else {
        let b = fx_add(fx_mul(fx_mul(2 * SCALE, ox), dx), fx_mul(fx_mul(2 * SCALE, oz), dz));
        let c = fx_sub(
            fx_add(fx_mul(ox, ox), fx_mul(oz, oz)),
            fx_mul(tu.radius.r(), tu.radius.r()),
        );
        let disc = fx_sub(fx_mul(b, b), fx_mul(fx_mul(4 * SCALE, a), c));
        if disc < 0 {
            None
        } else {
            let sq = fx_sqrt(disc);
            let t0 = fx_div(fx_sub(fx_neg(b), sq), fx_mul(2 * SCALE, a));
            let t1 = fx_div(fx_add(fx_neg(b), sq), fx_mul(2 * SCALE, a));
            let lo = if t1 < t0 {
                t1
            } else {
                t0
            };
            let hi = if t1 < t0 {
                t0
            } else {
                t1
            };
            let hh = fx_div(tu.height.r(), 2 * SCALE);
            if lo >= 0 && spec_tube_height_ok(ray, lo, hh) {
                Some(spec_tube_hit(ray, lo, lo == t0))
            } else if hi >= 0 && spec_tube_height_ok(ray, hi, hh) {
                Some(spec_tube_hit(ray, hi, hi == t0))
            } else {
                None
            }
        }
    }
}

/// The hit at parameter `t` lies between the tube's two rims.
pub open spec fn spec_tube_height_ok(ray: Ray, t: int, hh: int) -> bool {
    let y = spec_ray_position(ray, t).y.r();
    -hh <= y && y <= hh
}

/// The hit record at parameter `t`; the normal flips inward unless the hit
/// came from the first root.
pub open spec fn spec_tube_hit(ray: Ray, t: int, first: bool) -> LocalIntersection {
    let point = spec_ray_position(ray, t);
    let n = spec_tube_normal(point);
    LocalIntersection {
        point,
        normal: if first {
            n
        } else {
            crate::vector::spec_vec_neg(n)
        },
        t: fxr(t),
    }
}

impl Tube {
    /// Build a tube from its radius and height.
    pub fn new(radius: Fx, height: Fx) -> (t: Tube)
        ensures
            t == (Tube { radius, height }),
    {
        Tube { radius, height }
    }

    /// The forward hit of a ray with the tube wall, in local space.
    pub fn intersect(&self, ray: Ray) -> (r: Option<LocalIntersection>)
        ensures
            r == spec_tube_intersect(*self, ray),
    {
        let two = Fx::from_int(2);
        let a = ray.direction.x.mul(ray.direction.x).add(ray.direction.z.mul(ray.direction.z));
        if a.raw < EPSILON {
            return None;
        }

        let b = two.mul(ray.origin.x).mul(ray.direction.x).add(
            two.mul(ray.origin.z).mul(ray.direction.z),
        );
        let c = ray.origin.x.mul(ray.origin.x).add(ray.origin.z.mul(ray.origin.z)).sub(
            self.radius.mul(self.radius),
        );

        let disc = b.mul(b).sub(Fx::from_int(4).mul(a).mul(c));

        if disc.raw < 0 {
            return None;
        }

        let sq = disc.sqrt();
        let two_a = two.mul(a);
        proof {
            crate::fixed::lemma_fx_mul_whole(a.r(), 2);
        }
        let t0 = b.neg().sub(sq).div(two_a);
        let t1 = b.neg().add(sq).div(two_a);

        let lo = if t1.raw < t0.raw {
            t1
        } else {
            t0
        };
        let hi = if t1.raw < t0.raw {
            t0
        } else {
            t1
        };

        let hh = self.height.div(two);

        if lo.raw >= 0 {
            let p = ray.position(lo);
            if p.y.raw >= -hh.raw && p.y.raw <= hh.raw {
                let n = self.normal_at(p);
                let normal = if lo.raw == t0.raw {
                    n
                } else {
                    n.neg()
                };
                return Some(LocalIntersection { point: p, normal, t: lo });
            }
        }

        if hi.raw >= 0 {
            let p = ray.position(hi);
            if p.y.raw >= -hh.raw && p.y.raw <= hh.raw {
                let n = self.normal_at(p);
                let normal = if hi.raw == t0.raw {
                    n
                } else {
                    n.neg()
                };
                return Some(LocalIntersection { point: p, normal, t: hi });
            }
        }

        None
    }

    /// The outward wall normal at a surface point.
    pub fn normal_at(&self, point: Point) -> (n: Vector)
        ensures
            n == spec_tube_normal(point),
    {
        Vector::new(point.x, Fx::zero(), point.z).normalize()
    }
}

} // verus!
