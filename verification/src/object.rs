//! Placed, transformed shapes.
use vstd::prelude::*;

use crate::fixed::{Fx, EPSILON, SCALE};
use crate::intersection::Intersection;
use crate::material::{spec_material_default, Material};
use crate::matrix::{
    lemma_identity_consistent, spec_mat_identity, spec_mat_mul, spec_mat_mul_point,
    spec_mat_mul_vector, spec_rotation, spec_scaling, spec_translation, Matrix,
};
use crate::point::{spec_pt_add_vec, Point};
use crate::ray::Ray;
use crate::shapes::shape::{spec_shape_intersect, spec_shape_wf, Shape};
use crate::texture::Texture;
use crate::vector::{
    fxr, spec_normalize, spec_reflect, spec_vec_neg, spec_vec_scale, Vector,
};

verus! {

/// A shape placed in the world: a material, a pose, and the two cached
/// placement matrices. The matrices are a derived cache: the mutators
/// rebuild them together with the pose in one step, and every contract that
/// leans on the cache names the consistency it needs.
#[derive(Clone, Debug)]
pub struct Object {
    pub material: Material,
    pub position: Point,
    pub pitch: Fx,
    pub yaw: Fx,
    pub roll: Fx,
    pub scale: Vector,
    pub shape: Shape,
    pub world_to_local: Matrix,
    pub local_to_world: Matrix,
    pub tex_img_name: Option<String>,
    pub tex: Option<Texture>,
}

impl Object {
    /// The cached local-to-world matrix.
    pub open spec fn spec_ltw(self) -> Matrix {
        self.local_to_world
    }

    /// The cached world-to-local matrix.
    pub open spec fn spec_wtl(self) -> Matrix {
        self.world_to_local
    }

    /// The object's position.
    pub open spec fn spec_position(self) -> Point {
        self.position
    }

    /// The object's pitch, yaw and roll, in radians.
    pub open spec fn spec_angles(self) -> (Fx, Fx, Fx) {
        (self.pitch, self.yaw, self.roll)
    }

    /// The object's per-axis scale factors.
    pub open spec fn spec_scale(self) -> Vector {
        self.scale
    }

    /// The transform the pose describes: translation, then rotation, then
    /// scaling.
    pub open spec fn spec_pose_ltw(self) -> Matrix {
        spec_mat_mul(
            spec_mat_mul(
                spec_translation(
                    Vector {
                        x: self.spec_position().x,
                        y: self.spec_position().y,
                        z: self.spec_position().z,
                    },
                ),
                spec_rotation(
                    self.spec_angles().0.r(),
                    self.spec_angles().1.r(),
                    self.spec_angles().2.r(),
                ),
            ),
            spec_scaling(self.spec_scale()),
        )
    }

    /// The cached matrices are exact partners: the world-to-local matrix is
    /// the cofactor inverse of the local-to-world matrix, and that inverse
    /// passed its residual check, so the two undo each other within the
    /// shared tolerance.
    pub open spec fn spec_mat_consistent(self) -> bool {
        self.spec_wtl() == crate::matrix::spec_inverse(self.spec_ltw())
            && crate::matrix::spec_inverse_ok(self.spec_ltw())
    }
}

/// An update of the object's transform cache succeeds: either the cache
/// already matches the pose, or the pose transform has a residual-checked
/// cofactor inverse.
pub open spec fn spec_update_ok(o: Object) -> bool {
    o.spec_ltw() == o.spec_pose_ltw() || crate::matrix::spec_inverse_ok(o.spec_pose_ltw())
}

/// The world-space hit of a ray with an object: the ray is pulled into the
/// object's local frame, tested against the shape, and the hit data pushed
/// back out, with the normal renormalized, the hit point nudged along the
/// normal to avoid self-shadowing, and the reflection direction attached.
#[verifier::opaque]
pub open spec fn spec_object_intersect(o: Object, ray: Ray, n1: Fx) -> Option<Intersection>
    recommends
        spec_shape_wf(o.shape),
{
    let local_ray = Ray {
        origin: spec_mat_mul_point(o.spec_wtl(), ray.origin),
        direction: spec_mat_mul_vector(o.spec_wtl(), ray.direction),
    };
    match spec_shape_intersect(o.shape, local_ray) {
        None => None,
        Some(lh) => {
            let world_point = spec_mat_mul_point(o.spec_ltw(), lh.point);
            let world_normal = spec_normalize(spec_mat_mul_vector(o.spec_ltw(), lh.normal));
            Some(
                Intersection {
                    object_index: 0,
                    t: lh.t,
                    point: world_point,
                    normal: world_normal,
                    hit_normal: spec_vec_neg(ray.direction),
                    over_point: spec_pt_add_vec(
                        world_point,
                        spec_vec_scale(world_normal, EPSILON as int),
                    ),
                    reflectv: spec_reflect(ray.direction, world_normal),
                    n1,
                },
            )
        },
    }
}

impl Object {
    /// Build an object at the origin with the default material and pose.
    pub fn new(shape: Shape) -> (o: Object)
        ensures
            o.material == spec_material_default(),
            o.spec_position() == (Point { x: fxr(0), y: fxr(0), z: fxr(0) }),
            o.spec_angles() == (fxr(0), fxr(0), fxr(0)),
            o.spec_scale() == (Vector {
                x: fxr(SCALE as int),
                y: fxr(SCALE as int),
                z: fxr(SCALE as int),
            }),
            o.shape == shape,
            o.spec_ltw() == spec_mat_identity(),
            o.spec_wtl() == spec_mat_identity(),
            o.tex_img_name is None,
            o.tex is None,
            o.spec_mat_consistent(),
    {
        proof {
            lemma_identity_consistent();
            crate::matrix::lemma_identity_invertible();
        }
        Object {
            material: Material::new(),
            position: Point::new(Fx::zero(), Fx::zero(), Fx::zero()),
            pitch: Fx::zero(),
            yaw: Fx::zero(),
            roll: Fx::zero(),
            shape,
            scale: Vector::new(Fx::one(), Fx::one(), Fx::one()),
            world_to_local: Matrix::identity(),
            local_to_world: Matrix::identity(),
            tex_img_name: None,
            tex: None,
        }
    }

    /// Replace the material.
    pub fn material(self, material: Material) -> (o: Object)
        ensures
            o == (Object { material, ..self }),
    {
        Object { material, ..self }
    }

    /// The object's position.
    pub fn position(&self) -> (p: Point)
        ensures
            p == self.spec_position(),
    {
        self.position
    }

    /// The object's pitch, yaw and roll, in radians.
    pub fn angles(&self) -> (a: (Fx, Fx, Fx))
        ensures
            a == self.spec_angles(),
    {
        (self.pitch, self.yaw, self.roll)
    }

    /// The object's per-axis scale factors.
    pub fn scale_factors(&self) -> (s: Vector)
        ensures
            s == self.spec_scale(),
    {
        self.scale
    }

    /// The cached local-to-world matrix.
    pub fn local_to_world(&self) -> (m: Matrix)
        ensures
            m == self.spec_ltw(),
    {
        self.local_to_world
    }

    /// The cached world-to-local matrix.
    pub fn world_to_local(&self) -> (m: Matrix)
        ensures
            m == self.spec_wtl(),
    {
        self.world_to_local
    }

    /// Rebuild the cached matrices from the pose. When the cached transform
    /// already matches the pose nothing is recomputed and the matrices stay
    /// byte-identical, so a second update with an unchanged pose leaves the
    /// object exactly as it was. A pose whose transform cannot be inverted
    /// is rejected: nothing changes and the update reports failure.
    pub fn update(&mut self) -> (ok: bool)
        requires
            old(self).spec_mat_consistent(),
        ensures
            ok <==> spec_update_ok(*old(self)),
            ok ==> *final(self) == (Object {
                world_to_local: crate::matrix::spec_inverse(old(self).spec_pose_ltw()),
                local_to_world: old(self).spec_pose_ltw(),
                ..*old(self)
            }),
            ok ==> final(self).spec_mat_consistent(),
            !ok ==> *final(self) == *old(self),
            old(self).spec_ltw() == old(self).spec_pose_ltw() ==> ok && *final(self) == *old(self),
    {
        let vt = Vector::new(self.position.x, self.position.y, self.position.z);

        let translation = Matrix::translation(vt);
        let rotation = Matrix::rotation(self.pitch, self.yaw, self.roll);
        let scaling = Matrix::scaling(self.scale);

        let ltw = translation.mul_mat(&rotation).mul_mat(&scaling);
        if ltw == self.local_to_world {
            return true;
        }
        match ltw.inverse() {
            Some(wtl) => {
                self.local_to_world = ltw;
                self.world_to_local = wtl;
                true
            },
            None => false,
        }
    }

    /// The world-space hit of a ray with this object, carrying the medium's
    /// refractive index through.
    pub fn intersect(&self, ray: &Ray, n1: Fx) -> (r: Option<Intersection>)
        requires
            spec_shape_wf(self.shape),
        ensures
            r == spec_object_intersect(*self, *ray, n1),
    {
        proof {
            reveal(spec_object_intersect);
        }
        let local_ray = self.world_to_local.mul_ray(ray);

        if let Some(local_hit) = self.shape.intersect(local_ray) {
            let world_point = self.local_to_world.mul_point(&local_hit.point);
            let world_normal = self.local_to_world.mul_vector(&local_hit.normal).normalize();

            let over_point = world_point.add_vec(&world_normal.scale(Fx { raw: EPSILON }));

            Some(
                Intersection::new(
                    0,
                    local_hit.t,
                    world_point,
                    world_normal,
                    ray.direction.neg(),
                    over_point,
                    ray.direction.reflect(&world_normal),
                    n1,
                ),
            )
        } else {
            None
        }
    }

    /// Move the object by a displacement; a pose whose transform cannot be
    /// inverted is rejected and nothing changes.
    pub fn translate(&mut self, vec: Vector) -> (ok: bool)
        requires
            old(self).spec_mat_consistent(),
        ensures
            ok <==> spec_update_ok(
                Object { position: spec_pt_add_vec(old(self).spec_position(), vec), ..*old(self) },
            ),
            ok ==> ({
                let cand = Object {
                    position: spec_pt_add_vec(old(self).spec_position(), vec),
                    ..*old(self)
                };
                *final(self) == (Object {
                    world_to_local: crate::matrix::spec_inverse(cand.spec_pose_ltw()),
                    local_to_world: cand.spec_pose_ltw(),
                    ..cand
                })
            }),
            ok ==> final(self).spec_mat_consistent(),
            !ok ==> *final(self) == *old(self),
    {
        let saved = self.position;
        self.position = self.position.add_vec(&vec);
        if self.update() {
            true
        } else {
            self.position = saved;
            false
        }
    }

    /// Re-orient the object; a pose whose transform cannot be inverted is
    /// rejected and nothing changes.
    pub fn rotate(&mut self, pitch: Fx, yaw: Fx, roll: Fx) -> (ok: bool)
        requires
            old(self).spec_mat_consistent(),
        ensures
            ok <==> spec_update_ok(Object { pitch, yaw, roll, ..*old(self) }),
            ok ==> ({
                let cand = Object { pitch, yaw, roll, ..*old(self) };
                *final(self) == (Object {
                    world_to_local: crate::matrix::spec_inverse(cand.spec_pose_ltw()),
                    local_to_world: cand.spec_pose_ltw(),
                    ..cand
                })
            }),
            ok ==> final(self).spec_mat_consistent(),
            !ok ==> *final(self) == *old(self),
    {
        let saved_pitch = self.pitch;
        let saved_yaw = self.yaw;
        let saved_roll = self.roll;
        self.pitch = pitch;
        self.yaw = yaw;
        self.roll = roll;
        if self.update() {
            true
        } else {
            self.pitch = saved_pitch;
            self.yaw = saved_yaw;
            self.roll = saved_roll;
            false
        }
    }

    /// Rescale the object; a pose whose transform cannot be inverted is
    /// rejected and nothing changes.
    pub fn scale(&mut self, vec: Vector) -> (ok: bool)
        requires
            old(self).spec_mat_consistent(),
        ensures
            ok <==> spec_update_ok(Object { scale: vec, ..*old(self) }),
            ok ==> ({
                let cand = Object { scale: vec, ..*old(self) };
                *final(self) == (Object {
                    world_to_local: crate::matrix::spec_inverse(cand.spec_pose_ltw()),
                    local_to_world: cand.spec_pose_ltw(),
                    ..cand
                })
            }),
            ok ==> final(self).spec_mat_consistent(),
            !ok ==> *final(self) == *old(self),
    {
        let saved = self.scale;
        self.scale = vec;
        if self.update() {
            true
        } else {
            self.scale = saved;
            false
        }
    }
}

} // verus!
