//! The scene aggregate: objects, lights, the nearest-hit search and the
//! Phong lighting function.
use vstd::prelude::*;

use crate::color::{spec_col_add, spec_col_mul, spec_col_scale, Color};
use crate::fixed::{fx_powi, Fx, SCALE};
use crate::intersection::Intersection;
use crate::light::Light;
use crate::material::Material;
use crate::object::{spec_object_intersect, Object};
use crate::point::{spec_pt_sub, Point};
use crate::ray::Ray;
use crate::shapes::shape::spec_shape_wf;
use crate::vector::{spec_dot, spec_normalize, spec_reflect, spec_vec_neg, Vector};

verus! {

/// A scene: all objects and lights, owned together, with no identity beyond
/// position in the collections.
#[derive(Clone, Debug)]
pub struct World {
    pub objects: Vec<Object>,
    pub lights: Vec<Light>,
}

/// Every shape in the world keeps its intersection arithmetic well defined.
pub open spec fn spec_world_wf(w: World) -> bool {
    forall|i: int|
        0 <= i < w.objects@.len() ==> spec_shape_wf(#[trigger] w.objects@[i].shape)
}

/// The hit of the ray with the object at index `j`, labeled with `j`.
pub open spec fn spec_obj_hit(w: World, j: int, ray: Ray, n1: Fx) -> Option<Intersection>
    recommends
        0 <= j < w.objects@.len(),
{
    match spec_object_intersect(w.objects@[j], ray, n1) {
        Some(c) => Some(Intersection { object_index: j as usize, ..c }),
        None => None,
    }
}

/// The winning hit among the first `n` objects: the strictly smallest hit
/// distance wins, and among equals the earliest object keeps its claim.
pub open spec fn spec_world_best(w: World, ray: Ray, n1: Fx, n: int) -> Option<Intersection>
    decreases n,
{
    if n <= 0 {
        None
    } else {
        let prev = spec_world_best(w, ray, n1, n - 1);
        let cur = spec_obj_hit(w, n - 1, ray, n1);
        match (prev, cur) {
            (Some(p), Some(c)) => if p.t.r() > c.t.r() {
                Some(c)
            } else {
                Some(p)
            },
            (Some(p), None) => Some(p),
            (None, Some(c)) => Some(c),
            (None, None) => None,
        }
    }
}

/// The nearest hit of the ray across the whole scene.
pub open spec fn spec_world_intersect(w: World, ray: Ray, n1: Fx) -> Option<Intersection> {
    spec_world_best(w, ray, n1, w.objects@.len() as int)
}

/// The winning hit never loses to any object hit it has passed: its
/// distance is least among the first `n` objects, and a scan that found
/// nothing saw only misses.
#[verifier::rlimit(60)]
pub proof fn lemma_world_best_min(w: World, ray: Ray, n1: Fx, n: int)
    requires
        0 <= n <= w.objects@.len(),
    ensures
        forall|j: int|
            0 <= j < n && spec_obj_hit(w, j, ray, n1) is Some ==> spec_world_best(
                w,
                ray,
                n1,
                n,
            ) is Some && spec_world_best(w, ray, n1, n)->0.t.r() <= spec_obj_hit(
                w,
                j,
                ray,
                n1,
            )->0.t.r(),
    decreases n,
{
    if n > 0 {
        lemma_world_best_min(w, ray, n1, n - 1);
    }
}

/// The Phong lighting of one surface point under one light: the ambient
/// term always contributes; the diffuse term joins when the light faces the
/// surface and no shadow intervenes; the specular term joins when the
/// reflected light also faces the eye, raised to the shininess.
pub open spec fn spec_lighting(
    material: Material,
    light: Light,
    point: Point,
    eyev: Vector,
    normalv: Vector,
    shadowed: bool,
) -> Color {
    let effective = spec_col_mul(material.color, light.intensity);
    let lightv = spec_normalize(spec_pt_sub(light.position, point));
    let ambient = spec_col_scale(effective, material.ambient.r());
    let ldn = spec_dot(lightv, normalv);
    if ldn < 0 || shadowed {
        ambient
    } else {
        let diffuse = spec_col_scale(spec_col_scale(effective, material.diffuse.r()), ldn);
        let reflectv = spec_reflect(spec_vec_neg(lightv), normalv);
        let rde = spec_dot(reflectv, eyev);
        if rde <= 0 {
            spec_col_add(ambient, diffuse)
        } else {
            let factor = fx_powi(rde, (material.shininess.r() / (SCALE as int)) as nat);
            let specular = spec_col_scale(
                spec_col_scale(light.intensity, material.specular.r()),
                factor,
            );
            spec_col_add(spec_col_add(ambient, diffuse), specular)
        }
    }
}

impl World {
    /// Build an empty scene.
    pub fn new() -> (w: World)
        ensures
            w.objects@.len() == 0,
            w.lights@.len() == 0,
            spec_world_wf(w),
    {
        World { lights: Vec::new(), objects: Vec::new() }
    }

    /// Append an object to the scene.
    pub fn add_object(&mut self, object: Object)
        requires
            spec_shape_wf(object.shape),
        ensures
            final(self).objects@ == old(self).objects@.push(object),
            final(self).lights == old(self).lights,
            spec_world_wf(*old(self)) ==> spec_world_wf(*final(self)),
    {
        self.objects.push(object);
    }

    /// Append a light to the scene.
    pub fn add_light(&mut self, light: Light)
        ensures
            final(self).lights@ == old(self).lights@.push(light),
            final(self).objects == old(self).objects,
    {
        self.lights.push(light);
    }

    /// The nearest hit of a ray across all objects: a linear scan keeping
    /// the intersection with the strictly smallest distance, ties going to
    /// the earliest object.
    #[verifier::rlimit(60)]
    pub fn intersect(&self, ray: &Ray, n1: Fx) -> (r: Option<Intersection>)
        requires
            spec_world_wf(*self),
        ensures
            r == spec_world_intersect(*self, *ray, n1),
            r matches Some(h) ==> forall|j: int|
                0 <= j < self.objects@.len() && spec_obj_hit(*self, j, *ray, n1) is Some
                    ==> h.t.r() <= spec_obj_hit(*self, j, *ray, n1)->0.t.r(),
    {
        let mut closest: Option<Intersection> = None;

        let mut i: usize = 0;
        while i < self.objects.len()
            invariant
                spec_world_wf(*self),
                i <= self.objects@.len(),
                closest == spec_world_best(*self, *ray, n1, i as int),
            decreases self.objects@.len() - i,
        {
            let intersection = self.objects[i].intersect(ray, n1);

            match intersection {
                Some(h) => {
                    let labeled = Intersection { object_index: i, ..h };
                    match &closest {
                        None => {
                            closest = Some(labeled);
                        },
                        Some(best) => {
                            if best.t.raw > labeled.t.raw {
                                closest = Some(labeled);
                            }
                        },
                    }
                },
                None => {},
            }
            i = i + 1;
        }

        proof {
            lemma_world_best_min(*self, *ray, n1, self.objects@.len() as int);
        }
        closest
    }

    /// The Phong lighting of one surface point on an object under one
    /// light.
    pub fn lighting(
        obj: &Object,
        light: &Light,
        point: &Point,
        eyev: &Vector,
        normalv: &Vector,
        shadowed: bool,
    ) -> (c: Color)
        requires
            0 <= obj.material.shininess.raw <= 200 * SCALE,
        ensures
            c == spec_lighting(obj.material, *light, *point, *eyev, *normalv, shadowed),
    {
        let effective_color = obj.material.color.mul(&light.intensity);

        let lightv = light.position.sub(point).normalize();

        let ambient = effective_color.scale(obj.material.ambient);
        let light_dot_normal = lightv.dot(normalv);

        if light_dot_normal.raw < 0 || shadowed {
            return ambient;
        }

        let diffuse = effective_color.scale(obj.material.diffuse).scale(light_dot_normal);

        let reflectv = lightv.neg().reflect(normalv);
        let reflect_dot_eye = reflectv.dot(eyev);

        if reflect_dot_eye.raw <= 0 {
            ambient.add(&diffuse)
        } else {
            let exponent: i64 = obj.material.shininess.raw / SCALE;
            let factor = reflect_dot_eye.powi(exponent as u32);
            let specular = light.intensity.scale(obj.material.specular).scale(factor);
            ambient.add(&diffuse).add(&specular)
        }
    }
}


/// A winning hit names an object the scan has really seen: its index is in
/// range and it is exactly that object's labeled hit.
pub proof fn lemma_world_best_props(w: World, ray: Ray, n1: Fx, n: int)
    requires
        0 <= n <= w.objects@.len(),
        w.objects@.len() <= usize::MAX,
    ensures
        spec_world_best(w, ray, n1, n) matches Some(h) ==> 0 <= h.object_index < n
            && spec_obj_hit(w, h.object_index as int, ray, n1) == Some(h),
    decreases n,
{
    if n > 0 {
        lemma_world_best_props(w, ray, n1, n - 1);
    }
}

} // verus!
