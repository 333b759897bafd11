//! Procedural two-color patterns.
use vstd::prelude::*;

use crate::color::{spec_col_add, spec_col_scale, spec_col_sub, Color};
use crate::fixed::{fx_abs, fx_add, fx_mul, fx_sqrt, Fx, SCALE};
use crate::matrix::{
    spec_mat_identity, spec_mat_mul, spec_mat_mul_point, spec_rotation, spec_scaling,
    spec_translation, Matrix,
};
use crate::object::Object;
use crate::point::Point;
use crate::vector::{fxr, lemma_fx_square_nonneg, Vector};

verus! {

/// The axis or axes a stripe pattern runs along, or all three for a
/// checker-like spread.
#[derive(Clone, Copy, Debug, PartialEq, Eq, Structural)]
pub enum Axis {
    X,
    Y,
    Z,
    XY,
    XZ,
    YZ,
    XYZ,
}

/// A two-color procedural texture with its own placement transform layered
/// over the owning object's.
#[derive(Clone, Copy, Debug, PartialEq, Eq, Structural)]
pub struct Pattern {
    pub a: Color,
    pub b: Color,
    pub axis: Axis,
    pub blending: bool,
    pub local_to_world: Matrix,
    pub world_to_local: Matrix,
    pub scale: Vector,
    pub position: Point,
    pub pitch: Fx,
    pub yaw: Fx,
    pub roll: Fx,
}

/// The first color when the ring index of the two given coordinates is
/// even, the second otherwise.
pub open spec fn spec_stripe_two(p: Pattern, pos1: int, pos2: int) -> Color {
    let s = fx_sqrt(fx_add(fx_mul(pos1, pos1), fx_mul(pos2, pos2)));
    if (s / (SCALE as int)) % 2 == 0 {
        p.a
    } else {
        p.b
    }
}

/// The first color when the summed floor of all three coordinates is even,
/// the second otherwise.
pub open spec fn spec_stripe_three(p: Pattern, pt: Point) -> Color {
    let fs = pt.x.r() / (SCALE as int) + pt.y.r() / (SCALE as int) + pt.z.r() / (SCALE as int);
    if fs % 2 == 0 {
        p.a
    } else {
        p.b
    }
}

/// The stripe color of a local-space point, routed by the pattern's axis.
pub open spec fn spec_stripe_at(p: Pattern, pt: Point) -> Color {
    if p.axis == Axis::XYZ {
        spec_stripe_three(p, pt)
    } else if p.axis == Axis::XY {
        spec_stripe_two(p, pt.x.r(), pt.y.r())
    } else if p.axis == Axis::XZ {
        spec_stripe_two(p, pt.x.r(), pt.z.r())
    } else if p.axis == Axis::YZ {
        spec_stripe_two(p, pt.z.r(), pt.y.r())
    } else {
        let x = if pt.x.r() < 0 {
            fx_add(fx_abs(pt.x.r()), SCALE as int) % (2 * SCALE as int)
        } else {
            pt.x.r() % (2 * SCALE as int)
        };
        if x < SCALE {
            p.a
        } else {
            p.b
        }
    }
}

/// The linear blend between the two colors by the fractional part of the
/// local x coordinate.
pub open spec fn spec_pattern_at(p: Pattern, pt: Point) -> Color {
    let frac = pt.x.r() % (SCALE as int);
    spec_col_add(p.a, spec_col_scale(spec_col_sub(p.b, p.a), frac))
}

/// The pattern color of a world-space point on an object: the point is
/// pulled into the object's local frame, then into the pattern's own.
pub open spec fn spec_stripe_at_object(p: Pattern, obj: Object, world_point: Point) -> Color {
    let obj_point = spec_mat_mul_point(obj.spec_wtl(), world_point);
    let pattern_point = spec_mat_mul_point(p.world_to_local, obj_point);
    if p.blending {
        spec_pattern_at(p, pattern_point)
    } else {
        spec_stripe_at(p, pattern_point)
    }
}

/// The placement transform a pattern's pose describes.
pub open spec fn spec_pattern_ltw(p: Pattern) -> Matrix {
    spec_mat_mul(
        spec_mat_mul(
            spec_translation(Vector { x: p.position.x, y: p.position.y, z: p.position.z }),
            spec_rotation(p.pitch.r(), p.yaw.r(), p.roll.r()),
        ),
        spec_scaling(p.scale),
    )
}

impl Pattern {
    /// Build a pattern from its two colors, axis and blending flag, placed
    /// with the identity transform.
    pub fn new(color_a: Color, color_b: Color, axis: Axis, blending: bool) -> (p: Pattern)
        ensures
            p == (Pattern {
                a: color_a,
                b: color_b,
                axis,
                blending,
                local_to_world: spec_mat_identity(),
                world_to_local: spec_mat_identity(),
                scale: Vector { x: fxr(SCALE as int), y: fxr(SCALE as int), z: fxr(SCALE as int) },
                position: Point { x: fxr(0), y: fxr(0), z: fxr(0) },
                pitch: fxr(0),
                yaw: fxr(0),
                roll: fxr(0),
            }),
    {
        Pattern {
            a: color_a,
            b: color_b,
            axis,
            blending,
            local_to_world: Matrix::identity(),
            world_to_local: Matrix::identity(),
            scale: Vector::new(Fx::one(), Fx::one(), Fx::one()),
            position: Point::new(Fx::zero(), Fx::zero(), Fx::zero()),
            pitch: Fx::zero(),
            yaw: Fx::zero(),
            roll: Fx::zero(),
        }
    }

    /// The stripe color from two coordinates: rings of alternating color.
    pub fn stripe_two_colors(&self, pos1: &Fx, pos2: &Fx) -> (c: Color)
        ensures
            c == spec_stripe_two(*self, pos1.r(), pos2.r()),
    {
        proof {
            lemma_fx_square_nonneg(pos1.r());
            lemma_fx_square_nonneg(pos2.r());
        }
        let s = pos1.mul(*pos1).add(pos2.mul(*pos2)).sqrt();
        if (s.raw / SCALE) % 2 == 0 {
            self.a
        } else {
            self.b
        }
    }

    /// The stripe color from the floors of all three coordinates.
    pub fn stripe_three_colors(&self, point: &Point) -> (c: Color)
        ensures
            c == spec_stripe_three(*self, *point),
    {
        let fs: i64 = point.x.floor_units() + point.y.floor_units() + point.z.floor_units();
        if crate::fixed::units_even(fs) {
            self.a
        } else {
            self.b
        }
    }

    /// The stripe color of a local-space point.
    pub fn stripe_at(&self, point: &Point) -> (c: Color)
        ensures
            c == spec_stripe_at(*self, *point),
    {
        if self.axis == Axis::XYZ {
            return self.stripe_three_colors(point);
        } else if self.axis == Axis::XY {
            return self.stripe_two_colors(&point.x, &point.y);
        } else if self.axis == Axis::XZ {
            return self.stripe_two_colors(&point.x, &point.z);
        } else if self.axis == Axis::YZ {
            return self.stripe_two_colors(&point.z, &point.y);
        }

        let x: i64 = if point.x.raw < 0 {
            let vv: i64 = point.x.abs().add(Fx::one()).raw;
            (((vv as u64) % ((2 * SCALE) as u64)) as i64)
        } else {
            (((point.x.raw as u64) % ((2 * SCALE) as u64)) as i64)
        };

        if x < SCALE {
            self.a
        } else {
            self.b
        }
    }

    /// The pattern color of a world-space point on an object.
    pub fn stripe_at_object(&self, obj: &Object, world_point: &Point) -> (c: Color)
        ensures
            c == spec_stripe_at_object(*self, *obj, *world_point),
    {
        let obj_point = obj.world_to_local().mul_point(world_point);
        let pattern_point = self.world_to_local.mul_point(&obj_point);

        if self.blending {
            self.pattern_at(&pattern_point)
        } else {
            self.stripe_at(&pattern_point)
        }
    }

    /// The blended color of a local-space point.
    pub fn pattern_at(&self, point: &Point) -> (c: Color)
        ensures
            c == spec_pattern_at(*self, *point),
    {
        let frac = Fx { raw: point.x.rem_units() };
        self.a.add(&self.b.sub(&self.a).scale(frac))
    }

    /// Recompute the placement matrices from the pose; a pose whose
    /// transform cannot be inverted is rejected and nothing changes.
    fn update(&mut self) -> (ok: bool)
        ensures
            ok <==> crate::matrix::spec_inverse_ok(spec_pattern_ltw(*old(self))),
            ok ==> *final(self) == (Pattern {
                local_to_world: spec_pattern_ltw(*old(self)),
                world_to_local: crate::matrix::spec_inverse(spec_pattern_ltw(*old(self))),
                ..*old(self)
            }),
            !ok ==> *final(self) == *old(self),
    {
        let vt = Vector::new(self.position.x, self.position.y, self.position.z);

        let translation = Matrix::translation(vt);
        let rotation = Matrix::rotation(self.pitch, self.yaw, self.roll);
        let scaling = Matrix::scaling(self.scale);

        let ltw = translation.mul_mat(&rotation).mul_mat(&scaling);
        match ltw.inverse() {
            Some(wtl) => {
                self.local_to_world = ltw;
                self.world_to_local = wtl;
                true
            },
            None => false,
        }
    }

    /// Move the pattern; a degenerate resulting transform is rejected.
    pub fn translate(&mut self, vec: Vector) -> (ok: bool)
        ensures
            ok <==> crate::matrix::spec_inverse_ok(
                spec_pattern_ltw(
                    Pattern {
                        position: crate::point::spec_pt_add_vec(old(self).position, vec),
                        ..*old(self)
                    },
                ),
            ),
            ok ==> ({
                let cand = Pattern {
                    position: crate::point::spec_pt_add_vec(old(self).position, vec),
                    ..*old(self)
                };
                *final(self) == (Pattern {
                    local_to_world: spec_pattern_ltw(cand),
                    world_to_local: crate::matrix::spec_inverse(spec_pattern_ltw(cand)),
                    ..cand
                })
            }),
            !ok ==> *final(self) == *old(self),
    {
        let saved = self.position;
        self.position = self.position.add_vec(&vec);
        if self.update() {
            true
        } else {
            self.position = saved;
            false
        }
    }

    /// Re-orient the pattern; a degenerate resulting transform is rejected.
    pub fn rotate(&mut self, pitch: Fx, yaw: Fx, roll: Fx) -> (ok: bool)
        ensures
            ok <==> crate::matrix::spec_inverse_ok(
                spec_pattern_ltw(Pattern { pitch, yaw, roll, ..*old(self) }),
            ),
            ok ==> ({
                let cand = Pattern { pitch, yaw, roll, ..*old(self) };
                *final(self) == (Pattern {
                    local_to_world: spec_pattern_ltw(cand),
                    world_to_local: crate::matrix::spec_inverse(spec_pattern_ltw(cand)),
                    ..cand
                })
            }),
            !ok ==> *final(self) == *old(self),
    {
        let saved_pitch = self.pitch;
        let saved_yaw = self.yaw;
        let saved_roll = self.roll;
        self.pitch = pitch;
        self.yaw = yaw;
        self.roll = roll;
        if self.update() {
            true
        } else {
            self.pitch = saved_pitch;
            self.yaw = saved_yaw;
            self.roll = saved_roll;
            false
        }
    }

    /// Rescale the pattern; a degenerate resulting transform is rejected.
    pub fn scale(&mut self, vec: Vector) -> (ok: bool)
        ensures
            ok <==> crate::matrix::spec_inverse_ok(
                spec_pattern_ltw(Pattern { scale: vec, ..*old(self) }),
            ),
            ok ==> ({
                let cand = Pattern { scale: vec, ..*old(self) };
                *final(self) == (Pattern {
                    local_to_world: spec_pattern_ltw(cand),
                    world_to_local: crate::matrix::spec_inverse(spec_pattern_ltw(cand)),
                    ..cand
                })
            }),
            !ok ==> *final(self) == *old(self),
    {
        let saved = self.scale;
        self.scale = vec;
        if self.update() {
            true
        } else {
            self.scale = saved;
            false
        }
    }
}

} // verus!
