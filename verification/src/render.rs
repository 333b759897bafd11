//! The renderer: primary rays, shadow tests, shading and the frame loop
//! decisions.
use vstd::prelude::*;

use crate::camera::{
    spec_camera_direction, spec_lerp, spec_move_vector, spec_wrap_deg, Camera,
};
use crate::canvas::Canvas;
use crate::color::{spec_col_add, spec_col_scale, Color};
use crate::enums::Direction;
use crate::fixed::{fx_add, fx_div, fx_mul, fx_sub, sat, Fx, SCALE};
use crate::intersection::Intersection;
use crate::light::Light;
use crate::matrix::{
    spec_mat_approx, spec_mat_identity, spec_mat_mul, spec_mat_mul_point, spec_projection,
    spec_view, Matrix,
};
use crate::point::{spec_pt_add_vec, spec_pt_sub, Point};
use crate::ray::Ray;
use crate::vector::{fxr, spec_magnitude, spec_normalize, Vector};
use crate::shapes::shape::spec_shape_wf;
use crate::world::{
    lemma_world_best_props, spec_lighting, spec_world_intersect, spec_world_wf, World,
};

verus! {

/// The renderer: the target canvas, the frozen scene, the camera, and the
/// background color.
#[derive(Clone, Debug)]
pub struct Renderer {
    pub canvas: Canvas,
    pub world: World,
    pub camera: Camera,
    pub sky: Color,
}

/// One frame's worth of input: the surface's current size and which
/// movement and rotation requests are held down.
#[derive(Clone, Copy, Debug, PartialEq, Eq, Structural)]
pub struct FrameInput {
    pub current_width: usize,
    pub current_height: usize,
    pub move_left: bool,
    pub move_right: bool,
    pub move_forward: bool,
    pub move_backward: bool,
    pub look_up: bool,
    pub look_down: bool,
    pub look_right: bool,
    pub look_left: bool,
}

/// Every object's shininess stays in the range the material model allows.
pub open spec fn spec_shininess_ok(w: World) -> bool {
    forall|i: int|
        0 <= i < w.objects@.len() ==> 0 <= (#[trigger] w.objects@[i]).material.shininess.r()
            <= 200 * SCALE
}

/// The renderer's standing assumptions: a well-formed scene and canvas of
/// workable size.
pub open spec fn spec_renderer_wf(r: Renderer) -> bool {
    spec_world_wf(r.world) && spec_shininess_ok(r.world) && r.canvas.wf() && 1 <= r.canvas.width
        < 0x8000_0000 && 1 <= r.canvas.height < 0x8000_0000 && r.world.objects@.len()
        <= usize::MAX && r.world.lights@.len() < 0x8000_0000
}

/// A point is shadowed from a light when something in the scene stands
/// strictly nearer along the ray toward the light than the light itself.
pub open spec fn spec_is_shadowed(w: World, point: Point, light: Light) -> bool {
    let v = spec_pt_sub(light.position, point);
    let distance = spec_magnitude(v);
    let dir = spec_normalize(v);
    match spec_world_intersect(w, Ray { origin: point, direction: dir }, fxr(SCALE as int)) {
        Some(h) => h.t.r() < distance,
        None => false,
    }
}

/// The shaded color accumulated over the first `n` lights, each light's
/// contribution averaged by the light count.
pub open spec fn spec_shade_acc(w: World, comps: Intersection, n: int) -> Color
    recommends
        comps.object_index < w.objects@.len(),
        n <= w.lights@.len(),
    decreases n,
{
    if n <= 0 {
        Color { r: fxr(0), g: fxr(0), b: fxr(0) }
    } else {
        let prev = spec_shade_acc(w, comps, n - 1);
        let light = w.lights@[n - 1];
        let shadowed = spec_is_shadowed(w, comps.over_point, light);
        let tc = spec_lighting(
            w.objects@[comps.object_index as int].material,
            light,
            comps.over_point,
            comps.hit_normal,
            comps.normal,
            shadowed,
        );
        let inv = fx_div(SCALE as int, sat(w.lights@.len() * (SCALE as int)));
        spec_col_add(prev, spec_col_scale(tc, inv))
    }
}

/// The shaded color of a hit: every light's contribution, averaged.
pub open spec fn spec_shade_it(w: World, comps: Intersection) -> Color
    recommends
        comps.object_index < w.objects@.len(),
{
    spec_shade_acc(w, comps, w.lights@.len() as int)
}

/// The shaded color of a hit with one reflection bounce: a reflective
/// surface casts one more ray along the stored reflection direction and
/// adds that hit's shade, scaled by the reflectivity.
pub open spec fn spec_phong(w: World, initial: Intersection) -> Color
    recommends
        initial.object_index < w.objects@.len(),
{
    let reflective = w.objects@[initial.object_index as int].material.reflective;
    let base = spec_shade_it(w, initial);
    if reflective.r() > 0 {
        match spec_world_intersect(
            w,
            Ray { origin: initial.point, direction: initial.reflectv },
            fxr(SCALE as int),
        ) {
            Some(rh) => spec_col_add(
                base,
                spec_col_scale(
                    spec_col_scale(spec_shade_it(w, rh), reflective.r()),
                    SCALE as int,
                ),
            ),
            None => base,
        }
    } else {
        base
    }
}

/// The color a primary ray produces: the shaded nearest hit plus a fixed
/// ambient floor, or the sky on a miss.
pub open spec fn spec_get_pixel(w: World, sky: Color, ray: Ray) -> Color {
    match spec_world_intersect(w, ray, fxr(SCALE as int)) {
        Some(inter) => spec_col_add(
            spec_phong(w, inter),
            Color {
                r: fxr((SCALE as int) / 10),
                g: fxr((SCALE as int) / 10),
                b: fxr((SCALE as int) / 10),
            },
        ),
        None => sky,
    }
}

/// The color of the pixel at (x, y): the pixel center is unprojected
/// through the given inverse view-projection onto the near and far planes,
/// and the ray between them cast into the scene.
pub open spec fn spec_pixel_color(
    w: World,
    sky: Color,
    ivp: Matrix,
    width: int,
    height: int,
    x: int,
    y: int,
) -> Color {
    let ndc_y = fx_sub(
        SCALE as int,
        fx_div(
            fx_mul(2 * SCALE, fx_add(sat((height - y) * SCALE), (SCALE as int) / 2)),
            sat(height * SCALE),
        ),
    );
    let ndc_x = fx_sub(
        fx_div(fx_mul(2 * SCALE, fx_add(sat(x * SCALE), (SCALE as int) / 2)), sat(width * SCALE)),
        SCALE as int,
    );
    let origin = spec_mat_mul_point(
        ivp,
        Point { x: fxr(ndc_x), y: fxr(ndc_y), z: fxr(-SCALE as int) },
    );
    let target = spec_mat_mul_point(
        ivp,
        Point { x: fxr(ndc_x), y: fxr(ndc_y), z: fxr(SCALE as int) },
    );
    let direction = spec_normalize(spec_pt_sub(target, origin));
    spec_get_pixel(w, sky, Ray { origin, direction })
}

/// The combined view-projection transform of a camera.
#[verifier::opaque]
pub open spec fn spec_view_proj(camera: Camera) -> Matrix {
    spec_mat_mul(
        spec_projection(camera.fov.r(), camera.aspect.r(), camera.near.r(), camera.far.r()),
        spec_view(
            camera.position,
            spec_pt_add_vec(
                camera.position,
                spec_camera_direction(camera.pitch.r(), camera.yaw.r()),
            ),
            Vector { x: fxr(0), y: fxr(SCALE as int), z: fxr(0) },
        ),
    )
}

/// The frame was drawn through some matrix that inverts the camera's
/// view-projection within tolerance, and every pixel holds the color its
/// ray produces through that matrix.
#[verifier::opaque]
pub open spec fn spec_frame_drawn(r_old: Renderer, r_new: Renderer, ivp: Matrix) -> bool {
    let vp = spec_view_proj(r_old.camera);
    &&& spec_mat_approx(spec_mat_mul(vp, ivp), spec_mat_identity())
    &&& spec_mat_approx(spec_mat_mul(ivp, vp), spec_mat_identity())
    &&& forall|xx: int, yy: int|
        0 <= xx < r_old.canvas.width && 0 <= yy < r_old.canvas.height
            ==> r_new.canvas.spec_pixels()[yy * (r_old.canvas.width as int) + xx]
            == spec_pixel_color(
            r_old.world,
            r_old.sky,
            ivp,
            r_old.canvas.width as int,
            r_old.canvas.height as int,
            xx,
            yy,
        )
}

impl Renderer {
    /// Whether a point is shadowed from a light.
    pub fn is_shadowed(&self, point: &Point, light: &Light) -> (r: bool)
        requires
            spec_world_wf(self.world),
        ensures
            r == spec_is_shadowed(self.world, *point, *light),
    {
        let v = light.position.sub(point);
        let distance = v.magnitude();
        let direction = v.normalize();

        let r = Ray::new(*point, direction);

        let intersection = self.world.intersect(&r, Fx::one());

        if let Some(h) = intersection {
            if h.t.raw < distance.raw {
                return true;
            }
        }

        false
    }

    /// The shaded color of a hit: every light's contribution under its own
    /// shadow test, averaged over the light count.
    pub fn shade_it(&self, comps: &Intersection) -> (c: Color)
        requires
            spec_world_wf(self.world),
            spec_shininess_ok(self.world),
            self.world.lights@.len() < 0x8000_0000,
            comps.object_index < self.world.objects@.len(),
        ensures
            c == spec_shade_it(self.world, *comps),
    {
        let mut color = Color::new(Fx::zero(), Fx::zero(), Fx::zero());
        let light_number = self.world.lights.len();

        let mut i: usize = 0;
        while i < light_number
            invariant
                spec_world_wf(self.world),
                spec_shininess_ok(self.world),
                self.world.lights@.len() < 0x8000_0000,
                comps.object_index < self.world.objects@.len(),
                light_number == self.world.lights@.len(),
                i <= light_number,
                color == spec_shade_acc(self.world, *comps, i as int),
            decreases light_number - i,
        {
            let light = self.world.lights[i];
            let shadowed = self.is_shadowed(&comps.over_point, &light);

            let temporary_color = World::lighting(
                &self.world.objects[comps.object_index],
                &light,
                &comps.over_point,
                &comps.hit_normal,
                &comps.normal,
                shadowed,
            );

            let inv = Fx::one().div(Fx::from_int(light_number as i64));
            color = color.add(&temporary_color.scale(inv));
            i = i + 1;
        }

        color
    }

    /// The shaded color of a hit with one reflection bounce added in.
    pub fn get_phong_color(&self, initial_hit: &Intersection) -> (c: Color)
        requires
            spec_world_wf(self.world),
            spec_shininess_ok(self.world),
            self.world.objects@.len() <= usize::MAX,
            self.world.lights@.len() < 0x8000_0000,
            initial_hit.object_index < self.world.objects@.len(),
        ensures
            c == spec_phong(self.world, *initial_hit),
    {
        let mut reflected_color = Color::new(Fx::zero(), Fx::zero(), Fx::zero());

        if self.world.objects[initial_hit.object_index].material.reflective.raw > 0 {
            let reflected_ray = Ray::new(initial_hit.point, initial_hit.reflectv);

            let reflected_hit = self.world.intersect(&reflected_ray, Fx::one());
            if let Some(reflected_inter) = reflected_hit {
                proof {
                    lemma_world_best_props(
                        self.world,
                        reflected_ray,
                        Fx { raw: SCALE },
                        self.world.objects@.len() as int,
                    );
                }
                reflected_color = reflected_color.add(
                    &self.shade_it(&reflected_inter).scale(
                        self.world.objects[initial_hit.object_index].material.reflective,
                    ).scale(Fx::one()),
                );
            }
        }

        self.shade_it(initial_hit).add(&reflected_color)
    }

    /// The color a primary ray produces.
    pub fn get_pixel(&self, ray: &Ray) -> (c: Color)
        requires
            spec_world_wf(self.world),
            spec_shininess_ok(self.world),
            self.world.objects@.len() <= usize::MAX,
            self.world.lights@.len() < 0x8000_0000,
        ensures
            c == spec_get_pixel(self.world, self.sky, *ray),
    {
        let hit = self.world.intersect(ray, Fx::one());
        match hit {
            Some(inter) => {
                proof {
                    lemma_world_best_props(
                        self.world,
                        *ray,
                        Fx { raw: SCALE },
                        self.world.objects@.len() as int,
                    );
                }
                let floor = Fx::from_milli(100);
                self.get_phong_color(&inter).add(&Color::new(floor, floor, floor))
            },
            None => self.sky,
        }
    }

    /// Draw the whole frame: every pixel's ray is unprojected through the
    /// inverse of the camera's view-projection and cast into the scene. A
    /// camera whose projection is degenerate, or whose view-projection
    /// cannot be inverted, draws nothing and reports failure.
    #[verifier::rlimit(100)]
    pub fn update_image(&mut self) -> (ok: bool)
        requires
            spec_renderer_wf(*old(self)),
        ensures
            final(self).world == old(self).world,
            final(self).camera == old(self).camera,
            final(self).sky == old(self).sky,
            final(self).canvas.width == old(self).canvas.width,
            final(self).canvas.height == old(self).canvas.height,
            final(self).canvas.wf(),
            spec_renderer_wf(*final(self)),
            ok <==> crate::matrix::spec_projection_defined(
                old(self).camera.fov.r(),
                old(self).camera.aspect.r(),
                old(self).camera.near.r(),
                old(self).camera.far.r(),
            ) && crate::matrix::spec_inverse_ok(spec_view_proj(old(self).camera)),
            !ok ==> *final(self) == *old(self),
            ok ==> exists|ivp: Matrix| spec_frame_drawn(*old(self), *final(self), ivp),
    {
        proof {
            reveal(spec_view_proj);
        }
        let view = Matrix::view(
            self.camera.position,
            self.camera.position.add_vec(&self.camera.direction()),
            Vector::new(Fx::zero(), Fx::one(), Fx::zero()),
        );

        let projection = match Matrix::projection(
            self.camera.fov,
            self.camera.aspect,
            self.camera.near,
            self.camera.far,
        ) {
            Some(p) => p,
            None => {
                return false;
            },
        };

        let view_proj = projection.mul_mat(&view);
        let inv_view_proj = match view_proj.inverse() {
            Some(m) => m,
            None => {
                return false;
            },
        };

        let width = self.canvas.width;
        let height = self.canvas.height;
        let ghost w0 = self.world;
        let ghost sky0 = self.sky;

        let mut y: usize = 0;
        while y < height
            invariant
                spec_world_wf(self.world),
                spec_shininess_ok(self.world),
                self.world.objects@.len() <= usize::MAX,
                self.world.lights@.len() < 0x8000_0000,
                self.world == w0,
                self.sky == sky0,
                self.camera == old(self).camera,
                width == self.canvas.width,
                height == self.canvas.height,
                1 <= width < 0x8000_0000,
                1 <= height < 0x8000_0000,
                self.canvas.wf(),
                y <= height,
                forall|xx: int, yy: int|
                    0 <= xx < width && 0 <= yy < y ==> self.canvas.spec_pixels()[yy * (
                    width as int) + xx] == spec_pixel_color(
                        w0,
                        sky0,
                        inv_view_proj,
                        width as int,
                        height as int,
                        xx,
                        yy,
                    ),
            decreases height - y,
        {
            let ndc_y = Fx::one().sub(
                Fx::from_int(2).mul(
                    Fx::from_int((height - y) as i64).add(Fx::from_milli(500)),
                ).div(Fx::from_int(height as i64)),
            );

            let mut x: usize = 0;
            while x < width
                invariant
                    spec_world_wf(self.world),
                    spec_shininess_ok(self.world),
                    self.world.objects@.len() <= usize::MAX,
                    self.world.lights@.len() < 0x8000_0000,
                    self.world == w0,
                    self.sky == sky0,
                    self.camera == old(self).camera,
                    width == self.canvas.width,
                    height == self.canvas.height,
                    1 <= width < 0x8000_0000,
                    1 <= height < 0x8000_0000,
                    self.canvas.wf(),
                    y < height,
                    x <= width,
                    ndc_y.r() == fx_sub(
                        SCALE as int,
                        fx_div(
                            fx_mul(
                                2 * SCALE,
                                fx_add(sat((height - y) * SCALE), (SCALE as int) / 2),
                            ),
                            sat(height * SCALE),
                        ),
                    ),
                    forall|xx: int, yy: int|
                        (0 <= xx < width && 0 <= yy < y) || (0 <= xx < x && yy == y)
                            ==> self.canvas.spec_pixels()[yy * (width as int) + xx]
                            == spec_pixel_color(
                            w0,
                            sky0,
                            inv_view_proj,
                            width as int,
                            height as int,
                            xx,
                            yy,
                        ),
                decreases width - x,
            {
                let ndc_x = Fx::from_int(2).mul(
                    Fx::from_int(x as i64).add(Fx::from_milli(500)),
                ).div(Fx::from_int(width as i64)).sub(Fx::one());

                let origin = inv_view_proj.mul_point(
                    &Point::new(ndc_x, ndc_y, Fx::one().neg()),
                );
                let target = inv_view_proj.mul_point(&Point::new(ndc_x, ndc_y, Fx::one()));

                let direction = target.sub(&origin).normalize();

                let ray = Ray::new(Point::new(origin.x, origin.y, origin.z), direction);
                let color = self.get_pixel(&ray);
                self.canvas.write(x, y, color);
                proof {
                    let wi = width as int;
                    let xi = x as int;
                    let yi = y as int;
                    assert forall|xx: int, yy: int|
                        (0 <= xx < wi && 0 <= yy < yi) || (0 <= xx < xi + 1 && yy == yi)
                            implies self.canvas.spec_pixels()[yy * wi + xx] == spec_pixel_color(
                        w0,
                        sky0,
                        inv_view_proj,
                        wi,
                        height as int,
                        xx,
                        yy,
                    ) by {
                        let hi2 = height as int;
                        assert(0 <= yy * wi + xx < wi * hi2) by (nonlinear_arith)
                            requires
                                0 <= xx < wi,
                                0 <= yy < hi2,
                        ;
                        assert(0 <= yi * wi + xi < wi * hi2) by (nonlinear_arith)
                            requires
                                0 <= xi < wi,
                                0 <= yi < hi2,
                        ;
                        if yy != yi || xx != xi {
                            assert(yy * wi + xx != yi * wi + xi) by (nonlinear_arith)
                                requires
                                    0 <= xx < wi,
                                    0 <= xi < wi,
                                    yy != yi || xx != xi,
                            ;
                        }
                    }
                }
                x = x + 1;
            }
            y = y + 1;
        }

        proof {
            reveal(spec_frame_drawn);
            reveal(spec_view_proj);
            reveal(crate::matrix::spec_inverse_ok);
            assert(view_proj == spec_view_proj(old(self).camera));
            assert(spec_frame_drawn(*old(self), *self, inv_view_proj));
        }
        true
    }
}


/// An object whose cached matrices have just been rebuilt from its pose:
/// nothing but the matrices changed, the cache matches the pose, and the
/// two matrices undo each other.
#[verifier::opaque]
pub open spec fn spec_obj_updated(orig: crate::object::Object, upd: crate::object::Object) -> bool {
    &&& upd == (crate::object::Object {
        world_to_local: upd.spec_wtl(),
        local_to_world: upd.spec_ltw(),
        ..orig
    })
    &&& upd.spec_ltw() == upd.spec_pose_ltw()
    &&& upd.spec_mat_consistent()
}

/// The camera after a surface resize: a changed size adopts the ratio of
/// the old canvas.
pub open spec fn spec_step_resize(cam: Camera, old_w: int, old_h: int, input: FrameInput) -> Camera {
    if !(old_w == input.current_width && old_h == input.current_height) {
        Camera {
            aspect: fxr(fx_div(sat(old_w * (SCALE as int)), sat(old_h * (SCALE as int)))),
            ..cam
        }
    } else {
        cam
    }
}

/// The camera after the held movement keys, applied left, right, forward,
/// backward.
pub open spec fn spec_step_moves(cam: Camera, input: FrameInput) -> Camera {
    let c1 = if input.move_left {
        Camera {
            target: spec_pt_add_vec(
                cam.position,
                spec_move_vector(cam.pitch.r(), cam.yaw.r(), Direction::Left),
            ),
            ..cam
        }
    } else {
        cam
    };
    let c2 = if input.move_right {
        Camera {
            target: spec_pt_add_vec(
                c1.position,
                spec_move_vector(c1.pitch.r(), c1.yaw.r(), Direction::Right),
            ),
            ..c1
        }
    } else {
        c1
    };
    let c3 = if input.move_forward {
        Camera {
            target: spec_pt_add_vec(
                c2.position,
                spec_move_vector(c2.pitch.r(), c2.yaw.r(), Direction::Forward),
            ),
            ..c2
        }
    } else {
        c2
    };
    if input.move_backward {
        Camera {
            target: spec_pt_add_vec(
                c3.position,
                spec_move_vector(c3.pitch.r(), c3.yaw.r(), Direction::Backward),
            ),
            ..c3
        }
    } else {
        c3
    }
}

/// The camera after the held rotation keys, applied up, down, right, left,
/// each a one-degree step.
pub open spec fn spec_step_looks(cam: Camera, input: FrameInput) -> Camera {
    let c5 = if input.look_up {
        Camera { pitch: fxr(spec_wrap_deg(cam.pitch.r(), SCALE as int)), ..cam }
    } else {
        cam
    };
    let c6 = if input.look_down {
        Camera { pitch: fxr(spec_wrap_deg(c5.pitch.r(), -SCALE as int)), ..c5 }
    } else {
        c5
    };
    let c7 = if input.look_right {
        Camera { yaw: fxr(spec_wrap_deg(c6.yaw.r(), SCALE as int)), ..c6 }
    } else {
        c6
    };
    if input.look_left {
        Camera { yaw: fxr(spec_wrap_deg(c7.yaw.r(), -SCALE as int)), ..c7 }
    } else {
        c7
    }
}

/// The camera after its position eased toward the target.
pub open spec fn spec_step_ease(cam: Camera) -> Camera {
    Camera {
        position: Point {
            x: fxr(spec_lerp(cam.position.x.r(), cam.target.x.r(), (75 * SCALE) as int / 100)),
            y: fxr(spec_lerp(cam.position.y.r(), cam.target.y.r(), (75 * SCALE) as int / 100)),
            z: fxr(spec_lerp(cam.position.z.r(), cam.target.z.r(), (75 * SCALE) as int / 100)),
        },
        ..cam
    }
}

/// The camera state after one frame's input: resize, movement keys,
/// rotation keys, then easing.
pub open spec fn spec_step_camera(cam: Camera, old_w: int, old_h: int, input: FrameInput) -> Camera {
    spec_step_ease(
        spec_step_looks(spec_step_moves(spec_step_resize(cam, old_w, old_h, input), input), input),
    )
}

/// Rebuild every object's transform cache, failing closed on the first
/// object whose pose transform has no residual-checked inverse.
#[verifier::rlimit(100)]
fn update_all(objects: Vec<crate::object::Object>) -> (r: Option<Vec<crate::object::Object>>)
    requires
        forall|i: int|
            0 <= i < objects@.len() ==> (#[trigger] objects@[i]).spec_mat_consistent(),
    ensures
        r is Some <==> (forall|i: int|
            0 <= i < objects@.len() ==> crate::object::spec_update_ok(#[trigger] objects@[i])),
        r matches Some(v) ==> v@.len() == objects@.len() && (forall|i: int|
            0 <= i < objects@.len() ==> spec_obj_updated(objects@[i], #[trigger] v@[i])),
{
    let mut remaining = objects;
    let ghost orig = remaining@;
    let mut updated: Vec<crate::object::Object> = Vec::new();
    while remaining.len() > 0
        invariant
            orig == objects@,
            updated@.len() + remaining@.len() == orig.len(),
            remaining@ == orig.skip(updated@.len() as int),
            forall|i: int|
                0 <= i < orig.len() ==> (#[trigger] orig[i]).spec_mat_consistent(),
            forall|i: int|
                0 <= i < updated@.len() ==> spec_obj_updated(orig[i], #[trigger] updated@[i]),
        decreases remaining@.len(),
    {
        let ghost k = updated@.len() as int;
        proof {
            assert(remaining@[0] == orig[k]);
        }
        let mut o = remaining.remove(0);
        if !o.update() {
            proof {
                assert(orig == objects@);
                assert(0 <= k < objects@.len());
                assert(!crate::object::spec_update_ok(objects@[k]));
            }
            return None;
        }
        updated.push(o);
        proof {
            assert(spec_obj_updated(orig[k], o)) by {
                reveal(spec_obj_updated);
            }
            assert(remaining@ =~= orig.skip(updated@.len() as int));
        }
    }
    proof {
        assert forall|i: int| 0 <= i < objects@.len() implies crate::object::spec_update_ok(
            #[trigger] objects@[i],
        ) by {
            reveal(spec_obj_updated);
            assert(spec_obj_updated(orig[i], updated@[i]));
            assert(updated@[i].spec_pose_ltw() == orig[i].spec_pose_ltw());
        }
    }
    Some(updated)
}

impl Renderer {
    /// Build a renderer over a canvas and scene: every object's transform
    /// cache is rebuilt, the camera starts ten units out looking down the
    /// negative z axis, and the sky is black. An object whose pose cannot
    /// be inverted makes the whole construction fail closed.
    #[verifier::rlimit(100)]
    pub fn new(canvas: Canvas, world: World) -> (r: Option<Renderer>)
        requires
            canvas.wf(),
            1 <= canvas.width < 0x8000_0000,
            1 <= canvas.height < 0x8000_0000,
            spec_world_wf(world),
            spec_shininess_ok(world),
            world.lights@.len() < 0x8000_0000,
            forall|i: int|
                0 <= i < world.objects@.len() ==> (#[trigger] world.objects@[i]).spec_mat_consistent(),
        ensures
            r is Some <==> (forall|i: int|
                0 <= i < world.objects@.len() ==> crate::object::spec_update_ok(
                    #[trigger] world.objects@[i],
                )),
            r matches Some(rr) ==> {
                &&& rr.canvas == canvas
                &&& rr.sky == (Color { r: fxr(0), g: fxr(0), b: fxr(0) })
                &&& rr.world.lights == world.lights
                &&& rr.world.objects@.len() == world.objects@.len()
                &&& forall|i: int|
                    0 <= i < world.objects@.len() ==> spec_obj_updated(
                        world.objects@[i],
                        #[trigger] rr.world.objects@[i],
                    )
                &&& rr.camera.position == (Point {
                    x: fxr(0),
                    y: fxr(0),
                    z: fxr(10 * SCALE),
                })
                &&& rr.camera.target == rr.camera.position
                &&& rr.camera.aspect.r() == fx_div(
                    sat((canvas.width as int) * (SCALE as int)),
                    sat((canvas.height as int) * (SCALE as int)),
                )
                &&& rr.camera.near.r() == (SCALE as int) / 10
                &&& rr.camera.far.r() == 100 * SCALE
                &&& spec_renderer_wf(rr)
            },
    {
        let camera = Camera::new(
            Point::new(Fx::zero(), Fx::zero(), Fx::from_int(10)),
            Vector::new(Fx::zero(), Fx::zero(), Fx::one().neg()),
            Fx::from_int(canvas.width as i64).div(Fx::from_int(canvas.height as i64)),
            crate::trig::deg_to_rad(Fx::from_int(45)),
            Fx::from_milli(100),
            Fx::from_int(100),
        );

        let updated = match update_all(world.objects) {
            Some(v) => v,
            None => {
                return None;
            },
        };
        let lights = world.lights;
        let ghost orig = world.objects@;
        proof {
            assert forall|i: int| 0 <= i < updated@.len() implies spec_shape_wf(
                (#[trigger] updated@[i]).shape,
            ) && 0 <= updated@[i].material.shininess.r() <= 200 * SCALE
                && updated@[i].spec_mat_consistent() by {
                reveal(spec_obj_updated);
                assert(spec_obj_updated(orig[i], updated@[i]));
            }
        }
        let n_objs = updated.len();
        let rr = Renderer {
            canvas,
            world: World { objects: updated, lights },
            camera,
            sky: Color::new(Fx::zero(), Fx::zero(), Fx::zero()),
        };
        proof {
            assert(rr.world.objects@.len() == n_objs as int);
        }
        proof {
            assert(rr.canvas == canvas);
            assert(rr.sky == (Color { r: fxr(0), g: fxr(0), b: fxr(0) }));
            assert(rr.world.lights == world.lights);
            assert(rr.world.objects@.len() == world.objects@.len());
            assert(forall|i: int|
                0 <= i < world.objects@.len() ==> spec_obj_updated(
                    world.objects@[i],
                    #[trigger] rr.world.objects@[i],
                ));
            assert(rr.camera.position == (Point { x: fxr(0), y: fxr(0), z: fxr(10 * SCALE) }));
            assert(rr.camera.target == rr.camera.position);
            assert(rr.camera.aspect.r() == fx_div(
                sat((canvas.width as int) * (SCALE as int)),
                sat((canvas.height as int) * (SCALE as int)),
            ));
            assert(rr.camera.near.r() == (SCALE as int) / 10);
            assert(rr.camera.far.r() == 100 * SCALE);
            assert(spec_world_wf(rr.world));
            assert(spec_shininess_ok(rr.world));
            assert(spec_renderer_wf(rr));
        }
        Some(rr)
    }

    /// Apply one frame's input to the canvas size and the camera: a size
    /// change resizes the canvas and re-derives the aspect from the old
    /// one, held keys move and turn the camera, and the position eases
    /// toward its target.
    #[verifier::rlimit(100)]
    pub fn apply_input(&mut self, input: FrameInput)
        requires
            spec_renderer_wf(*old(self)),
            1 <= input.current_width < 0x8000_0000,
            1 <= input.current_height < 0x8000_0000,
            (input.current_width as int) * (input.current_height as int) <= usize::MAX,
        ensures
            final(self).world == old(self).world,
            final(self).sky == old(self).sky,
            final(self).camera == spec_step_camera(
                old(self).camera,
                old(self).canvas.width as int,
                old(self).canvas.height as int,
                input,
            ),
            final(self).canvas.width == input.current_width,
            final(self).canvas.height == input.current_height,
            spec_renderer_wf(*final(self)),
    {
        let old_w = self.canvas.width;
        let old_h = self.canvas.height;
        if !(old_w == input.current_width && old_h == input.current_height) {
            self.canvas.resize(input.current_width, input.current_height);
            self.camera.resize(
                Fx::from_int(old_w as i64).div(Fx::from_int(old_h as i64)),
            );
        }

        let ghost cam_resized = spec_step_resize(
            old(self).camera,
            old(self).canvas.width as int,
            old(self).canvas.height as int,
            input,
        );
        proof {
            assert(self.camera == cam_resized);
        }

        if input.move_left {
            self.camera.translate(Direction::Left);
        }
        if input.move_right {
            self.camera.translate(Direction::Right);
        }
        if input.move_forward {
            self.camera.translate(Direction::Forward);
        }
        if input.move_backward {
            self.camera.translate(Direction::Backward);
        }
        let ghost cam_moved = spec_step_moves(cam_resized, input);
        proof {
            assert(self.camera == cam_moved);
        }

        if input.look_up {
            self.camera.rotate_x(Fx::one());
        }
        if input.look_down {
            self.camera.rotate_x(Fx::one().neg());
        }
        if input.look_right {
            self.camera.rotate_y(Fx::one());
        }
        if input.look_left {
            self.camera.rotate_y(Fx::one().neg());
        }
        let ghost cam_looked = spec_step_looks(cam_moved, input);
        proof {
            assert(self.camera == cam_looked);
        }

        self.camera.update();
        proof {
            assert(self.camera == spec_step_ease(cam_looked));
        }
    }

    /// Apply one frame's input and redraw. Drawing fails when the camera's
    /// projection degenerates or its view-projection cannot be inverted.
    pub fn step(&mut self, input: FrameInput) -> (ok: bool)
        requires
            spec_renderer_wf(*old(self)),
            1 <= input.current_width < 0x8000_0000,
            1 <= input.current_height < 0x8000_0000,
            (input.current_width as int) * (input.current_height as int) <= usize::MAX,
        ensures
            final(self).world == old(self).world,
            final(self).sky == old(self).sky,
            final(self).camera == spec_step_camera(
                old(self).camera,
                old(self).canvas.width as int,
                old(self).canvas.height as int,
                input,
            ),
            final(self).canvas.width == input.current_width,
            final(self).canvas.height == input.current_height,
            spec_renderer_wf(*final(self)),
            ok <==> crate::matrix::spec_projection_defined(
                final(self).camera.fov.r(),
                final(self).camera.aspect.r(),
                final(self).camera.near.r(),
                final(self).camera.far.r(),
            ) && crate::matrix::spec_inverse_ok(spec_view_proj(final(self).camera)),
            ok ==> exists|ivp: Matrix| spec_frame_drawn(*final(self), *final(self), ivp),
    {
        self.apply_input(input);

        let ghost mid = *self;
        let ok = self.update_image();
        proof {
            if ok {
                reveal(spec_frame_drawn);
                let ivp = choose|ivp: Matrix| spec_frame_drawn(mid, *self, ivp);
                assert(spec_frame_drawn(*self, *self, ivp));
            }
        }
        ok
    }
}

} // verus!
