//! The closed union of primitives and its dispatch.
use vstd::prelude::*;

use crate::intersection::LocalIntersection;
use crate::ray::Ray;
use crate::shapes::cone::{spec_cone_intersect, Cone};
use crate::shapes::cube::{spec_cube_intersect, Cube};
use crate::shapes::cylinder::{spec_cylinder_intersect, Cylinder};
use crate::shapes::disk::{spec_disk_intersect, Disk};
use crate::shapes::plane::{spec_plane_intersect, Plane};
use crate::shapes::sphere::{spec_sphere_intersect, Sphere};
use crate::shapes::torus::Torus;
use crate::shapes::triangle::{spec_triangle_intersect, Triangle};
use crate::shapes::tube::{spec_tube_intersect, Tube};

verus! {

/// The closed set of primitives a scene can hold, each carrying its own
/// parameters.
#[derive(Clone, Copy, Debug, PartialEq, Eq, Structural)]
pub enum Shape {
    Sphere(Sphere),
    Cube(Cube),
    Disk(Disk),
    Torus(Torus),
    Triangle(Triangle),
    Tube(Tube),
    Plane(Plane),
    Cone(Cone),
    Cylinder(Cylinder),
}

/// A shape's parameters keep its own intersection arithmetic well defined:
/// a sphere needs a radius to divide by, a cone a height for its slope.
pub open spec fn spec_shape_wf(s: Shape) -> bool {
    match s {
        Shape::Sphere(sp) => sp.radius.r() != 0,
        Shape::Cone(c) => c.height.r() != 0,
        _ => true,
    }
}

/// The local hit of a ray with a shape, routed by the shape's kind.
pub open spec fn spec_shape_intersect(s: Shape, ray: Ray) -> Option<LocalIntersection>
    recommends
        spec_shape_wf(s),
{
    match s {
        Shape::Sphere(sp) => spec_sphere_intersect(sp, ray),
        Shape::Cube(c) => spec_cube_intersect(c, ray),
        Shape::Disk(d) => spec_disk_intersect(d, ray),
        Shape::Torus(_) => None,
        Shape::Triangle(tr) => spec_triangle_intersect(tr, ray),
        Shape::Tube(tu) => spec_tube_intersect(tu, ray),
        Shape::Plane(_) => spec_plane_intersect(ray),
        Shape::Cone(c) => spec_cone_intersect(c, ray),
        Shape::Cylinder(cy) => spec_cylinder_intersect(cy, ray),
    }
}

impl Shape {
    /// Whether the shape's parameters are well formed.
    pub fn wf(&self) -> (r: bool)
        ensures
            r == spec_shape_wf(*self),
    {
        match self {
            Shape::Sphere(sp) => sp.radius.raw != 0,
            Shape::Cone(c) => c.height.raw != 0,
            _ => true,
        }
    }

    /// The forward hit of a ray with the shape, in the shape's local space.
    pub fn intersect(&self, ray: Ray) -> (r: Option<LocalIntersection>)
        requires
            spec_shape_wf(*self),
        ensures
            r == spec_shape_intersect(*self, ray),
    {
        match self {
            Shape::Sphere(s) => s.intersect(ray),
            Shape::Cube(s) => s.intersect(ray),
            Shape::Disk(s) => s.intersect(ray),
            Shape::Torus(s) => s.intersect(ray),
            Shape::Triangle(s) => s.intersect(ray),
            Shape::Tube(s) => s.intersect(ray),
            Shape::Plane(s) => s.intersect(ray),
            Shape::Cone(s) => s.intersect(ray),
            Shape::Cylinder(s) => s.intersect(ray),
        }
    }
}

} // verus!
