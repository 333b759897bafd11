//! Cones standing on their base disk, apex upward along y.
use vstd::prelude::*;

use crate::fixed::{
    abs_i, fx_add, fx_div, fx_mul, fx_neg, fx_sqrt, fx_sub, Fx, EPSILON, SCALE,
};
use crate::intersection::LocalIntersection;
use crate::point::Point;
use crate::ray::{spec_ray_position, Ray};
use crate::vector::{fxr, spec_magnitude, spec_normalize, Vector};

verus! {

/// A cone whose base disk of the given radius sits at y = 0 and whose slope
/// is set by radius over height.
#[derive(Clone, Copy, Debug, PartialEq, Eq, Structural)]
pub struct Cone {
    pub radius: Fx,
    pub height: Fx,
}

/// A side candidate at parameter `t` counts when it is clearly forward and
/// its height lies between base and apex.
pub open spec fn spec_cone_side_ok(c: Cone, ray: Ray, t: int) -> bool {
    let y = spec_ray_position(ray, t).y.r();
    t > EPSILON && y >= 0 && y <= c.height.r()
}

/// The forward hit against the cone's slanted side, as a parameter, or
/// `None`. The quadratic mixes the slope into the coefficients; a
/// discriminant within the tolerance of zero counts as a grazing hit with a
/// single root.
pub open spec fn spec_cone_side_t(c: Cone, ray: Ray) -> Option<int>
    recommends
        c.height.r() != 0,
{
    let ox = ray.origin.x.r();
    let oy = ray.origin.y.r();
    let oz = ray.origin.z.r();
    let dx = ray.direction.x.r();
    let dy = ray.direction.y.r();
    let dz = ray.direction.z.r();
    let h = c.height.r();
    let tt2 = fx_mul(fx_div(c.radius.r(), h), fx_div(c.radius.r(), h));
    let a = fx_sub(fx_add(fx_mul(dx, dx), fx_mul(dz, dz)), fx_mul(tt2, fx_mul(dy, dy)));
    let b = fx_mul(
        2 * SCALE,
        fx_add(
            fx_sub(fx_add(fx_mul(ox, dx), fx_mul(oz, dz)), fx_mul(fx_mul(tt2, oy), dy)),
            fx_mul(fx_mul(tt2, h), dy),
        ),
    );
    let cc = fx_sub(
        fx_add(fx_mul(ox, ox), fx_mul(oz, oz)),
        fx_mul(
            tt2,
            fx_add(
                fx_sub(fx_mul(oy, oy), fx_mul(fx_mul(2 * SCALE, h), oy)),
                fx_mul(h, h),
            ),
        ),
    );
    let disc = fx_sub(fx_mul(b, b), fx_mul(fx_mul(4 * SCALE, a), cc));
    if a == 0 {
        None
    } else if abs_i(disc) < EPSILON {
        let t = fx_div(fx_neg(b), fx_mul(2 * SCALE, a));
        if spec_cone_side_ok(c, ray, t) {
            Some(t)
        } else {
            None
        }
    } else if disc > 0 {
        let sq = fx_sqrt(disc);
        let t0 = fx_div(fx_sub(fx_neg(b), sq), fx_mul(2 * SCALE, a));
        let t1 = fx_div(fx_add(fx_neg(b), sq), fx_mul(2 * SCALE, a));
        let ok0 = spec_cone_side_ok(c, ray, t0);
        let ok1 = spec_cone_side_ok(c, ray, t1);
        if ok0 && ok1 {
            Some(
                if t0 <= t1 {
                    t0
                } else {
                    t1
                },
            )
        } else if ok0 {
            Some(t0)
        } else if ok1 {
            Some(t1)
        } else {
            None
        }
    } else {
        None
    }
}

/// The forward hit against the base disk, as a parameter, or `None`.
pub open spec fn spec_cone_base_t(c: Cone, ray: Ray) -> Option<int> {
    let oy = ray.origin.y.r();
    let dy = ray.direction.y.r();
    if abs_i(dy) > EPSILON {
        let t = fx_div(fx_neg(oy), dy);
        let p = spec_ray_position(ray, t);
        let d2 = fx_add(fx_mul(p.x.r(), p.x.r()), fx_mul(p.z.r(), p.z.r()));
        if t > EPSILON && d2 <= fx_mul(c.radius.r(), c.radius.r()) {
            Some(t)
        } else {
            None
        }
    } else {
        None
    }
}

/// The cone normal: downward on the base, upward on the axis, and a blend
/// of the outward direction with the slope on the side.
pub open spec fn spec_cone_normal(c: Cone, p: Point) -> Vector
    recommends
        c.height.r() != 0,
{
    if abs_i(p.y.r()) < EPSILON {
        Vector { x: fxr(0), y: fxr(-SCALE as int), z: fxr(0) }
    } else {
        let tan_theta = fx_div(c.radius.r(), c.height.r());
        let dist = spec_magnitude(Vector { x: p.x, y: fxr(0), z: p.z });
        if dist < EPSILON {
            Vector { x: fxr(0), y: fxr(SCALE as int), z: fxr(0) }
        } else {
            spec_normalize(
                Vector {
                    x: fxr(fx_div(p.x.r(), dist)),
                    y: fxr(tan_theta),
                    z: fxr(fx_div(p.z.r(), dist)),
                },
            )
        }
    }
}

/// The forward cone hit, or `None`: the nearer of the side hit and the base
/// hit.
pub open spec fn spec_cone_intersect(c: Cone, ray: Ray) -> Option<LocalIntersection>
    recommends
        c.height.r() != 0,
{
    let ts = spec_cone_side_t(c, ray);
    let tb = spec_cone_base_t(c, ray);
    if ts is Some && tb is Some {
        let t = if ts->0 <= tb->0 {
            ts->0
        } else {
            tb->0
        };
        Some(spec_cone_hit(c, ray, t))
    } else if ts is Some {
        Some(spec_cone_hit(c, ray, ts->0))
    } else if tb is Some {
        Some(spec_cone_hit(c, ray, tb->0))
    } else {
        None
    }
}

/// The hit record at parameter `t`.
pub open spec fn spec_cone_hit(c: Cone, ray: Ray, t: int) -> LocalIntersection {
    let point = spec_ray_position(ray, t);
    LocalIntersection { point, normal: spec_cone_normal(c, point), t: fxr(t) }
}

impl Cone {
    /// Build a cone from its base radius and height.
    pub fn new(radius: Fx, height: Fx) -> (c: Cone)
        ensures
            c == (Cone { radius, height }),
    {
        Cone { radius, height }
    }

    /// The forward hit against the slanted side, as a parameter.
    fn intersect_side(&self, ray: Ray) -> (r: Option<Fx>)
        requires
            self.height.raw != 0,
        ensures
            r matches Some(t) ==> spec_cone_side_t(*self, ray) == Some(t.r()),
            r is None ==> spec_cone_side_t(*self, ray) is None,
    {
        let two = Fx::from_int(2);
        let tan_theta = self.radius.div(self.height);
        let tt2 = tan_theta.mul(tan_theta);

        let a = ray.direction.x.mul(ray.direction.x).add(
            ray.direction.z.mul(ray.direction.z),
        ).sub(tt2.mul(ray.direction.y.mul(ray.direction.y)));
        let b = two.mul(
            ray.origin.x.mul(ray.direction.x).add(ray.origin.z.mul(ray.direction.z)).sub(
                tt2.mul(ray.origin.y).mul(ray.direction.y),
            ).add(tt2.mul(self.height).mul(ray.direction.y)),
        );
        let cc = ray.origin.x.mul(ray.origin.x).add(ray.origin.z.mul(ray.origin.z)).sub(
            tt2.mul(
                ray.origin.y.mul(ray.origin.y).sub(
                    two.mul(self.height).mul(ray.origin.y),
                ).add(self.height.mul(self.height)),
            ),
        );

        let disc = b.mul(b).sub(Fx::from_int(4).mul(a).mul(cc));

        if a.raw == 0 {
            return None;
        }
        proof {
            crate::fixed::lemma_fx_mul_whole(a.r(), 2);
        }
        let two_a = two.mul(a);

        if disc.abs().raw < EPSILON {
            let t = b.neg().div(two_a);
            let p = ray.position(t);

            if t.raw > EPSILON && p.y.raw >= 0 && p.y.raw <= self.height.raw {
                Some(t)
            } else {
                None
            }
        } else if disc.raw > 0 {
            let sq = disc.sqrt();
            let t0 = b.neg().sub(sq).div(two_a);
            let t1 = b.neg().add(sq).div(two_a);

            let p0 = ray.position(t0);
            let p1 = ray.position(t1);

            let ok0 = t0.raw > EPSILON && p0.y.raw >= 0 && p0.y.raw <= self.height.raw;
            let ok1 = t1.raw > EPSILON && p1.y.raw >= 0 && p1.y.raw <= self.height.raw;

            if ok0 && ok1 {
                Some(t0.min(t1))
            } else if ok0 {
                Some(t0)
            } else if ok1 {
                Some(t1)
            } else {
                None
            }
        } else {
            None
        }
    }

    /// The forward hit against the base disk, as a parameter.
    fn intersect_base(&self, ray: Ray) -> (r: Option<Fx>)
        ensures
            r matches Some(t) ==> spec_cone_base_t(*self, ray) == Some(t.r()),
            r is None ==> spec_cone_base_t(*self, ray) is None,
    {
        if ray.direction.y.abs().raw > EPSILON {
            let t = ray.origin.y.neg().div(ray.direction.y);
            let p = ray.position(t);

            let d2 = p.x.mul(p.x).add(p.z.mul(p.z));
            if t.raw > EPSILON && d2.raw <= self.radius.mul(self.radius).raw {
                Some(t)
            } else {
                None
            }
        } else {
            None
        }
    }

    /// The forward hit of a ray with the cone, in local space.
    pub fn intersect(&self, ray: Ray) -> (r: Option<LocalIntersection>)
        requires
            self.height.raw != 0,
        ensures
            r == spec_cone_intersect(*self, ray),
    {
        let t_side = self.intersect_side(ray);
        let t_base = self.intersect_base(ray);

        match (t_side, t_base) {
            (Some(t_s), Some(t_b)) => {
                let t = t_s.min(t_b);
                let point = ray.position(t);
                let normal = self.normal_at(point);
                Some(LocalIntersection { point, normal, t })
            },
            (Some(t_s), None) => {
                let point = ray.position(t_s);
                let normal = self.normal_at(point);
                Some(LocalIntersection { point, normal, t: t_s })
            },
            (None, Some(t_b)) => {
                let point = ray.position(t_b);
                let normal = self.normal_at(point);
                Some(LocalIntersection { point, normal, t: t_b })
            },
            (None, None) => None,
        }
    }

    /// The base, axis or side normal at a surface point.
    pub fn normal_at(&self, point: Point) -> (n: Vector)
        requires
            self.height.raw != 0,
        ensures
            n == spec_cone_normal(*self, point),
    {
        if point.y.abs().raw < EPSILON {
            return Vector::new(Fx::zero(), Fx::one().neg(), Fx::zero());
        }

        let tan_theta = self.radius.div(self.height);

        let axis_to_point = Vector::new(point.x, Fx::zero(), point.z);
        let dist = axis_to_point.magnitude();

        if dist.raw < EPSILON {
            return Vector::new(Fx::zero(), Fx::one(), Fx::zero());
        }

        Vector::new(point.x.div(dist), tan_theta, point.z.div(dist)).normalize()
    }
}

} // verus!
