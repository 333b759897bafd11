//! Triangles given by three vertices.
use vstd::prelude::*;

use crate::fixed::{abs_i, fx_add, fx_div, fx_mul, Fx, EPSILON, SCALE};
use crate::intersection::LocalIntersection;
use crate::point::{spec_pt_sub, Point};
use crate::ray::{spec_ray_position, Ray};
use crate::vector::{
    fxr, spec_cross, spec_dot, spec_normalize, spec_vec_neg, Vector,
};

verus! {

/// A triangle with its face normal derived from the vertices at
/// construction.
#[derive(Clone, Copy, Debug, PartialEq, Eq, Structural)]
pub struct Triangle {
    pub p1: Point,
    pub p2: Point,
    pub p3: Point,
    pub normal: Vector,
}

/// The face normal a triangle is built with: the normalized cross product
/// of its two edges from the first vertex.
pub open spec fn spec_triangle_normal(p1: Point, p2: Point, p3: Point) -> Vector {
    spec_normalize(spec_cross(spec_pt_sub(p2, p1), spec_pt_sub(p3, p1)))
}

/// The forward triangle hit, or `None`: a ray nearly parallel to the face
/// misses; barycentric coordinates outside the triangle miss; a hit not
/// clearly in front of the origin misses. The reported normal faces the
/// incoming ray.
pub open spec fn spec_triangle_intersect(tr: Triangle, ray: Ray) -> Option<LocalIntersection> {
    let edge1 = spec_pt_sub(tr.p2, tr.p1);
    let edge2 = spec_pt_sub(tr.p3, tr.p1);
    let h = spec_cross(ray.direction, edge2);
    let a = spec_dot(edge1, h);
    if abs_i(a) < EPSILON {
        None
    } else {
        let f = fx_div(SCALE as int, a);
        let s = spec_pt_sub(ray.origin, tr.p1);
        let u = fx_mul(f, spec_dot(s, h));
        if u < 0 || u > SCALE {
            None
        } else {
            let q = spec_cross(s, edge1);
            let v = fx_mul(f, spec_dot(ray.direction, q));
            if v < 0 || fx_add(u, v) > SCALE {
                None
            } else {
                let t = fx_mul(f, spec_dot(edge2, q));
                if t <= EPSILON {
                    None
                } else {
                    let point = spec_ray_position(ray, t);
                    let normal = if spec_dot(ray.direction, tr.normal) > 0 {
                        spec_vec_neg(tr.normal)
                    } else {
                        tr.normal
                    };
                    Some(LocalIntersection { point, normal, t: fxr(t) })
                }
            }
        }
    }
}

impl Triangle {
    /// Build a triangle; the face normal is derived from the vertices.
    pub fn new(p1: Point, p2: Point, p3: Point) -> (t: Triangle)
        ensures
            t == (Triangle { p1, p2, p3, normal: spec_triangle_normal(p1, p2, p3) }),
    {
        let edge1 = p2.sub(&p1);
        let edge2 = p3.sub(&p1);
        let normal = edge1.cross(&edge2).normalize();

        Triangle { p1, p2, p3, normal }
    }

    /// The forward hit of a ray with the triangle, in local space.
    pub fn intersect(&self, ray: Ray) -> (r: Option<LocalIntersection>)
        ensures
            r == spec_triangle_intersect(*self, ray),
    {
        let edge1 = self.p2.sub(&self.p1);
        let edge2 = self.p3.sub(&self.p1);

        let h = ray.direction.cross(&edge2);
        let a = edge1.dot(&h);

        if a.abs().raw < EPSILON {
            return None;
        }

        let f = Fx::one().div(a);
        let s = ray.origin.sub(&self.p1);
        let u = f.mul(s.dot(&h));

        if u.raw < 0 || u.raw > SCALE {
            return None;
        }

        let q = s.cross(&edge1);
        let v = f.mul(ray.direction.dot(&q));

        if v.raw < 0 || u.add(v).raw > SCALE {
            return None;
        }

        let t = f.mul(edge2.dot(&q));

        if t.raw <= EPSILON {
            return None;
        }

        let point = ray.position(t);
        let normal = if ray.direction.dot(&self.normal).raw > 0 {
            self.normal.neg()
        } else {
            self.normal
        };

        Some(LocalIntersection { point, normal, t })
    }

    /// The stored face normal.
    pub fn normal_at(&self, _point: Point) -> (n: Vector)
        ensures
            n == self.normal,
    {
        self.normal
    }
}

} // verus!
