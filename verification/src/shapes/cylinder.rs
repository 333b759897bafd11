//! Capped cylinders centered at the origin.
use vstd::prelude::*;

use crate::fixed::{
    abs_i, fx_add, fx_div, fx_mul, fx_neg, fx_sqrt, fx_sub, Fx, EPSILON, SCALE,
};
use crate::intersection::LocalIntersection;
use crate::point::Point;
use crate::ray::{spec_ray_position, Ray};
use crate::vector::{fxr, spec_normalize, Vector};

verus! {

/// A cylinder with flat caps, of the given radius and height, centered at
/// the origin.
#[derive(Clone, Copy, Debug, PartialEq, Eq, Structural)]
pub struct Cylinder {
    pub radius: Fx,
    pub height: Fx,
}

/// The forward hit against the curved wall alone, as a parameter, or
/// `None`: rays nearly parallel to the axis, rays missing the infinite
/// cylinder, hits behind the origin, and hits beyond the rims all miss.
pub open spec fn spec_cyl_tube_t(cy: Cylinder, ray: Ray) -> Option<int> {
    let ox = ray.origin.x.r();
    let oz = ray.origin.z.r();
    let dx = ray.direction.x.r();
    let dz = ray.direction.z.r();
    let a = fx_add(fx_mul(dx, dx), fx_mul(dz, dz));
    if a < EPSILON {
        None
    } else {
        let b = fx_add(fx_mul(fx_mul(2 * SCALE, ox), dx), fx_mul(fx_mul(2 * SCALE, oz), dz));
        let c = fx_sub(
            fx_add(fx_mul(ox, ox), fx_mul(oz, oz)),
            fx_mul(cy.radius.r(), cy.radius.r()),
        );
        let disc = fx_sub(fx_mul(b, b), fx_mul(fx_mul(4 * SCALE, a), c));
        if disc < 0 {
            None
        } else {
            let sq = fx_sqrt(disc);
            let t0 = fx_div(fx_sub(fx_neg(b), sq), fx_mul(2 * SCALE, a));
            let t1 = fx_div(fx_add(fx_neg(b), sq), fx_mul(2 * SCALE, a));
            let t = if t0 < 0 {
                t1
            } else {
                t0
            };
            if t < 0 {
                None
            } else {
                let y = spec_ray_position(ray, t).y.r();
                let hh = fx_div(cy.height.r(), 2 * SCALE);
                if -hh <= y && y <= hh {
                    Some(t)
                } else {
                    None
                }
            }
        }
    }
}

/// A cap candidate at parameter `t` counts when it is forward and lands
/// within the cap's radius.
pub open spec fn spec_cyl_cap_ok(cy: Cylinder, ray: Ray, t: int) -> bool {
    if t < 0 {
        false
    } else {
        let x = fx_add(ray.origin.x.r(), fx_mul(t, ray.direction.x.r()));
        let z = fx_add(ray.origin.z.r(), fx_mul(t, ray.direction.z.r()));
        fx_add(fx_mul(x, x), fx_mul(z, z)) <= fx_mul(cy.radius.r(), cy.radius.r())
    }
}

/// The forward hit against either cap, as a parameter, or `None`: the nearer
/// of the two candidate cap crossings that lands on a cap, rejected when it
/// sits within the tolerance of the origin.
pub open spec fn spec_cyl_caps_t(cy: Cylinder, ray: Ray) -> Option<int> {
    let oy = ray.origin.y.r();
    let dy = ray.direction.y.r();
    if abs_i(dy) < EPSILON {
        None
    } else {
        let hh = fx_div(cy.height.r(), 2 * SCALE);
        let tl = fx_div(fx_sub(fx_neg(hh), oy), dy);
        let th = fx_div(fx_sub(hh, oy), dy);
        let okl = spec_cyl_cap_ok(cy, ray, tl);
        let okh = spec_cyl_cap_ok(cy, ray, th);
        if okl && okh {
            let t = if tl <= th {
                tl
            } else {
                th
            };
            if t < EPSILON {
                None
            } else {
                Some(t)
            }
        } else if okl {
            if tl < EPSILON {
                None
            } else {
                Some(tl)
            }
        } else if okh {
            if th < EPSILON {
                None
            } else {
                Some(th)
            }
        } else {
            None
        }
    }
}

/// The cylinder normal: a cap normal near either rim height while over the
/// cap's disk, the outward wall normal otherwise.
pub open spec fn spec_cyl_normal(cy: Cylinder, p: Point) -> Vector {
    let hh = fx_div(cy.height.r(), 2 * SCALE);
    let dist = fx_add(fx_mul(p.x.r(), p.x.r()), fx_mul(p.z.r(), p.z.r()));
    let rr = fx_mul(cy.radius.r(), cy.radius.r());
    if dist < rr && p.y.r() >= fx_sub(hh, EPSILON as int) {
        Vector { x: fxr(0), y: fxr(SCALE as int), z: fxr(0) }
    } else if dist < rr && p.y.r() <= fx_add(fx_neg(hh), EPSILON as int) {
        Vector { x: fxr(0), y: fxr(-SCALE as int), z: fxr(0) }
    } else {
        spec_normalize(Vector { x: p.x, y: fxr(0), z: p.z })
    }
}

/// The forward cylinder hit, or `None`: the nearer of the wall hit and the
/// cap hit.
pub open spec fn spec_cylinder_intersect(cy: Cylinder, ray: Ray) -> Option<LocalIntersection> {
    let tt = spec_cyl_tube_t(cy, ray);
    let tc = spec_cyl_caps_t(cy, ray);
    if tt is Some && tc is Some {
        let t = if tt->0 <= tc->0 {
            tt->0
        } else {
            tc->0
        };
        Some(spec_cyl_hit(cy, ray, t))
    } else if tt is Some {
        Some(spec_cyl_hit(cy, ray, tt->0))
    } else if tc is Some {
        Some(spec_cyl_hit(cy, ray, tc->0))
    } else {
        None
    }
}

/// The hit record at parameter `t`.
pub open spec fn spec_cyl_hit(cy: Cylinder, ray: Ray, t: int) -> LocalIntersection {
    let point = spec_ray_position(ray, t);
    LocalIntersection { point, normal: spec_cyl_normal(cy, point), t: fxr(t) }
}

impl Cylinder {
    /// Build a cylinder from its radius and height.
    pub fn new(radius: Fx, height: Fx) -> (c: Cylinder)
        ensures
            c == (Cylinder { radius, height }),
    {
        Cylinder { radius, height }
    }

    /// The forward wall hit, as a parameter.
    fn intersect_tube(&self, ray: Ray) -> (r: Option<Fx>)
        ensures
            r matches Some(t) ==> spec_cyl_tube_t(*self, ray) == Some(t.r()),
            r is None ==> spec_cyl_tube_t(*self, ray) is None,
    {
        let two = Fx::from_int(2);
        let a = ray.direction.x.mul(ray.direction.x).add(ray.direction.z.mul(ray.direction.z));

        if a.raw < EPSILON {
            return None;
        }

        let b = two.mul(ray.origin.x).mul(ray.direction.x).add(
            two.mul(ray.origin.z).mul(ray.direction.z),
        );
        let c = ray.origin.x.mul(ray.origin.x).add(ray.origin.z.mul(ray.origin.z)).sub(
            self.radius.mul(self.radius),
        );
        let disc = b.mul(b).sub(Fx::from_int(4).mul(a).mul(c));

        if disc.raw < 0 {
            return None;
        }

        let sq = disc.sqrt();
        let two_a = two.mul(a);
        proof {
            crate::fixed::lemma_fx_mul_whole(a.r(), 2);
        }
        let t0 = b.neg().sub(sq).div(two_a);
        let t1 = b.neg().add(sq).div(two_a);

        let t = if t0.raw < 0 {
            t1
        } else {
            t0
        };
        if t.raw < 0 {
            return None;
        }

        let point = ray.position(t);
        let hh = self.height.div(two);

        if point.y.raw >= -hh.raw && point.y.raw <= hh.raw {
            Some(t)
        } else {
            None
        }
    }

    /// Whether a cap candidate at `t` is forward and lands on the cap.
    fn check_cap(&self, ray: Ray, t: Fx) -> (ok: bool)
        ensures
            ok == spec_cyl_cap_ok(*self, ray, t.r()),
    {
        if t.raw < 0 {
            return false;
        }

        let x = ray.origin.x.add(t.mul(ray.direction.x));
        let z = ray.origin.z.add(t.mul(ray.direction.z));

        x.mul(x).add(z.mul(z)).raw <= self.radius.mul(self.radius).raw
    }

    /// The forward cap hit, as a parameter.
    fn intersect_caps(&self, ray: Ray) -> (r: Option<Fx>)
        ensures
            r matches Some(t) ==> spec_cyl_caps_t(*self, ray) == Some(t.r()),
            r is None ==> spec_cyl_caps_t(*self, ray) is None,
    {
        if ray.direction.y.abs().raw < EPSILON {
            return None;
        }

        let hh = self.height.div(Fx::from_int(2));
        let tl = hh.neg().sub(ray.origin.y).div(ray.direction.y);
        let th = hh.sub(ray.origin.y).div(ray.direction.y);

        let okl = self.check_cap(ray, tl);
        let okh = self.check_cap(ray, th);

        let t = if okl && okh {
            tl.min(th)
        } else if okl {
            tl
        } else if okh {
            th
        } else {
            return None;
        };

        if t.raw < EPSILON {
            return None;
        }

        Some(t)
    }

    /// The forward hit of a ray with the cylinder, in local space.
    pub fn intersect(&self, ray: Ray) -> (r: Option<LocalIntersection>)
        ensures
            r == spec_cylinder_intersect(*self, ray),
    {
        let t_tube = self.intersect_tube(ray);
        let t_caps = self.intersect_caps(ray);

        match (t_tube, t_caps) {
            (Some(t_t), Some(t_c)) => {
                let t = t_t.min(t_c);
                let point = ray.position(t);
                let normal = self.normal_at(point);
                Some(LocalIntersection { point, normal, t })
            },
            (Some(t_t), None) => {
                let point = ray.position(t_t);
                let normal = self.normal_at(point);
                Some(LocalIntersection { point, normal, t: t_t })
            },
            (None, Some(t_c)) => {
                let point = ray.position(t_c);
                let normal = self.normal_at(point);
                Some(LocalIntersection { point, normal, t: t_c })
            },
            (None, None) => None,
        }
    }

    /// The cap or wall normal at a surface point.
    pub fn normal_at(&self, point: Point) -> (n: Vector)
        ensures
            n == spec_cyl_normal(*self, point),
    {
        let hh = self.height.div(Fx::from_int(2));
        let dist = point.x.mul(point.x).add(point.z.mul(point.z));
        let rr = self.radius.mul(self.radius);

        if dist.raw < rr.raw && point.y.raw >= hh.sub(Fx { raw: EPSILON }).raw {
            Vector::new(Fx::zero(), Fx::one(), Fx::zero())
        } else if dist.raw < rr.raw && point.y.raw <= hh.neg().add(Fx { raw: EPSILON }).raw {
            Vector::new(Fx::zero(), Fx::one().neg(), Fx::zero())
        } else {
            Vector::new(point.x, Fx::zero(), point.z).normalize()
        }
    }
}

} // verus!
