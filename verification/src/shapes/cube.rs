//! Axis-aligned cubes centered at the origin.
use vstd::prelude::*;

use crate::fixed::{abs_i, fx_abs, fx_div, fx_neg, fx_sub, Fx, EPSILON, MAX_RAW, SCALE};
use crate::intersection::LocalIntersection;
use crate::point::Point;
use crate::ray::{spec_ray_position, Ray};
use crate::vector::{fxr, Vector};

verus! {

/// A cube with the given edge length, centered at the origin.
#[derive(Clone, Copy, Debug, PartialEq, Eq, Structural)]
pub struct Cube {
    pub size: Fx,
}

/// The entry and exit parameters of a ray against one slab. A ray nearly
/// parallel to the slab is inside it forever or outside it forever: the
/// interval becomes the whole line, or empty, by the sign of the numerators,
/// with an origin lying exactly on a face counted as inside.
pub open spec fn spec_check_axis(size: int, o: int, d: int) -> (int, int) {
    let hs = fx_div(size, 2 * SCALE);
    let tmin_num = fx_sub(fx_neg(hs), o);
    let tmax_num = fx_sub(hs, o);
    let tmin = if abs_i(d) >= EPSILON {
        fx_div(tmin_num, d)
    } else if tmin_num > 0 {
        MAX_RAW as int
    } else {
        -MAX_RAW as int
    };
    let tmax = if abs_i(d) >= EPSILON {
        fx_div(tmax_num, d)
    } else if tmax_num < 0 {
        -MAX_RAW as int
    } else {
        MAX_RAW as int
    };
    if tmin > tmax {
        (tmax, tmin)
    } else {
        (tmin, tmax)
    }
}

/// The sign of a coordinate carried onto the unit grid: one, minus one, or
/// zero for a degenerate coordinate on the axis itself.
pub open spec fn spec_sign_unit(v: int) -> int {
    if v > 0 {
        SCALE as int
    } else if v < 0 {
        -SCALE as int
    } else {
        0
    }
}

/// The cube normal: the signed unit vector of the axis on which the
/// point's coordinate has the largest magnitude.
pub open spec fn spec_cube_normal(p: Point) -> Vector {
    let ax = fx_abs(p.x.r());
    let ay = fx_abs(p.y.r());
    let az = fx_abs(p.z.r());
    let m = if ay >= az {
        if ax >= ay {
            ax
        } else {
            ay
        }
    } else {
        if ax >= az {
            ax
        } else {
            az
        }
    };
    if m == ax {
        Vector { x: fxr(spec_sign_unit(p.x.r())), y: fxr(0), z: fxr(0) }
    } else if m == ay {
        Vector { x: fxr(0), y: fxr(spec_sign_unit(p.y.r())), z: fxr(0) }
    } else {
        Vector { x: fxr(0), y: fxr(0), z: fxr(spec_sign_unit(p.z.r())) }
    }
}

/// The sign of a coordinate as a unit value.
fn sign_unit(v: Fx) -> (r: Fx)
    ensures
        r.r() == spec_sign_unit(v.r()),
{
    if v.raw > 0 {
        Fx::one()
    } else if v.raw < 0 {
        Fx::one().neg()
    } else {
        Fx::zero()
    }
}

/// The forward cube hit, or `None`: the three slab intervals are
/// intersected; an empty intersection, or one entirely behind the origin,
/// misses; a ray starting inside leaves through the exit parameter.
pub open spec fn spec_cube_intersect(c: Cube, ray: Ray) -> Option<LocalIntersection> {
    let (xtmin, xtmax) = spec_check_axis(c.size.r(), ray.origin.x.r(), ray.direction.x.r());
    let (ytmin, ytmax) = spec_check_axis(c.size.r(), ray.origin.y.r(), ray.direction.y.r());
    let (ztmin, ztmax) = spec_check_axis(c.size.r(), ray.origin.z.r(), ray.direction.z.r());
    let tmin = if xtmin >= ytmin && xtmin >= ztmin {
        xtmin
    } else if ytmin >= ztmin {
        ytmin
    } else {
        ztmin
    };
    let tmax = if xtmax <= ytmax && xtmax <= ztmax {
        xtmax
    } else if ytmax <= ztmax {
        ytmax
    } else {
        ztmax
    };
    if tmin > tmax || tmax < 0 {
        None
    } else {
        let t = if tmin < 0 {
            tmax
        } else {
            tmin
        };
        let point = spec_ray_position(ray, t);
        Some(LocalIntersection { point, normal: spec_cube_normal(point), t: fxr(t) })
    }
}

/// The slab interval of one axis.
fn check_axis(size: Fx, o: Fx, d: Fx) -> (r: (Fx, Fx))
    ensures
        (r.0.r(), r.1.r()) == spec_check_axis(size.r(), o.r(), d.r()),
{
    let hs = size.div(Fx::from_int(2));
    let tmin_num = hs.neg().sub(o);
    let tmax_num = hs.sub(o);

    let parallel = d.abs().raw < EPSILON;
    let tmin = if !parallel {
        tmin_num.div(d)
    } else if tmin_num.raw > 0 {
        Fx { raw: MAX_RAW }
    } else {
        Fx { raw: -MAX_RAW }
    };
    let tmax = if !parallel {
        tmax_num.div(d)
    } else if tmax_num.raw < 0 {
        Fx { raw: -MAX_RAW }
    } else {
        Fx { raw: MAX_RAW }
    };

    if tmin.raw > tmax.raw {
        (tmax, tmin)
    } else {
        (tmin, tmax)
    }
}

impl Cube {
    /// Build a cube with the given edge length.
    pub fn new(size: Fx) -> (c: Cube)
        ensures
            c == (Cube { size }),
    {
        Cube { size }
    }

    /// The forward hit of a ray with the cube, in local space.
    pub fn intersect(&self, ray: Ray) -> (r: Option<LocalIntersection>)
        ensures
            r == spec_cube_intersect(*self, ray),
    {
        let (xtmin, xtmax) = check_axis(self.size, ray.origin.x, ray.direction.x);
        let (ytmin, ytmax) = check_axis(self.size, ray.origin.y, ray.direction.y);
        let (ztmin, ztmax) = check_axis(self.size, ray.origin.z, ray.direction.z);

        let tmin = xtmin.max(ytmin.max(ztmin));
        let tmax = xtmax.min(ytmax.min(ztmax));

        if tmin.raw > tmax.raw {
            return None;
        }

        if tmax.raw < 0 {
            return None;
        }

        let t = if tmin.raw < 0 {
            tmax
        } else {
            tmin
        };
        let point = ray.position(t);
        let normal = self.normal_at(point);

        Some(LocalIntersection { point, normal, t })
    }

    /// The face normal: the signed unit vector of the axis on which the
    /// point's coordinate has the largest magnitude.
    pub fn normal_at(&self, point: Point) -> (n: Vector)
        ensures
            n == spec_cube_normal(point),
    {
        let ax = point.x.abs();
        let ay = point.y.abs();
        let az = point.z.abs();
        let m = ax.max(ay.max(az));

        if m.raw == ax.raw {
            Vector::new(sign_unit(point.x), Fx::zero(), Fx::zero())
        } else if m.raw == ay.raw {
            Vector::new(Fx::zero(), sign_unit(point.y), Fx::zero())
        } else {
            Vector::new(Fx::zero(), Fx::zero(), sign_unit(point.z))
        }
    }
}

} // verus!
