//! The orbiting, smoothed camera.
use vstd::prelude::*;

use crate::enums::Direction;
use crate::fixed::{fx_add, fx_mul, fx_sub, fx_trem, Fx, SCALE};
use crate::point::{spec_pt_add_vec, Point};
use crate::trig::{
    spec_asin, spec_atan2, spec_cos, spec_deg_to_rad, spec_rad_to_deg, spec_sin,
};
use crate::vector::{
    fxr, spec_cross, spec_normalize, spec_vec_neg, spec_vec_scale, Vector,
};

verus! {

/// The camera: where it stands, where it is easing to, its lens settings,
/// and its orientation as pitch and yaw in degrees.
#[derive(Clone, Copy, Debug, PartialEq, Eq, Structural)]
pub struct Camera {
    pub target: Point,
    pub position: Point,
    pub aspect: Fx,
    pub fov: Fx,
    pub near: Fx,
    pub far: Fx,
    pub pitch: Fx,
    pub yaw: Fx,
}

/// The unit view direction a pitch and yaw in degrees describe.
pub open spec fn spec_camera_direction(pitch: int, yaw: int) -> Vector {
    let yr = spec_deg_to_rad(yaw);
    let pr = spec_deg_to_rad(pitch);
    spec_normalize(
        Vector {
            x: fxr(fx_mul(spec_cos(yr), spec_cos(pr))),
            y: fxr(spec_sin(pr)),
            z: fxr(fx_mul(spec_sin(yr), spec_cos(pr))),
        },
    )
}

/// A coordinate eased most of the way from start toward end.
pub open spec fn spec_lerp(start: int, end: int, t: int) -> int {
    let tc = if t < 0 {
        0
    } else if t > SCALE {
        SCALE as int
    } else {
        t
    };
    fx_add(fx_mul(start, fx_sub(SCALE as int, tc)), fx_mul(end, tc))
}

/// An angle stepped and wrapped into one turn, in degrees.
pub open spec fn spec_wrap_deg(angle: int, delta: int) -> int {
    fx_trem(fx_add(fx_add(angle, 360 * SCALE), delta), 360 * SCALE)
}

/// The unit displacement a movement key asks for, given the view direction.
#[verifier::opaque]
pub open spec fn spec_move_vector(pitch: int, yaw: int, direction: Direction) -> Vector {
    let d = spec_camera_direction(pitch, yaw);
    let up = Vector { x: fxr(0), y: fxr(SCALE as int), z: fxr(0) };
    let m = match direction {
        Direction::Forward => d,
        Direction::Backward => spec_vec_neg(d),
        Direction::Left => spec_vec_neg(spec_normalize(spec_cross(d, up))),
        Direction::Right => spec_normalize(spec_cross(d, up)),
    };
    spec_vec_scale(spec_normalize(m), SCALE as int)
}

impl Camera {
    /// Build a camera at a position looking along a direction, deriving the
    /// pitch and yaw in degrees from that direction by this module's
    /// inverse trigonometry; the easing target starts at the position.
    pub fn new(position: Point, direction: Vector, aspect: Fx, fov: Fx, near: Fx, far: Fx) -> (c:
        Camera)
        ensures
            c.target == position,
            c.position == position,
            c.aspect == aspect,
            c.fov == fov,
            c.near == near,
            c.far == far,
            c.pitch.r() == spec_rad_to_deg(spec_asin(spec_normalize(direction).y.r())),
            c.yaw.r() == spec_rad_to_deg(
                spec_atan2(spec_normalize(direction).z.r(), spec_normalize(direction).x.r()),
            ),
    {
        let dn = direction.normalize();
        let pitch = crate::trig::rad_to_deg(crate::trig::asin(dn.y));
        let yaw = crate::trig::rad_to_deg(crate::trig::atan2(dn.z, dn.x));

        Camera { target: position, position, aspect, fov, near, far, pitch, yaw }
    }

    /// The unit view direction of the current pitch and yaw.
    pub fn direction(&self) -> (d: Vector)
        ensures
            d == spec_camera_direction(self.pitch.r(), self.yaw.r()),
    {
        let yaw = crate::trig::deg_to_rad(self.yaw);
        let pitch = crate::trig::deg_to_rad(self.pitch);

        let cy = crate::trig::cos(yaw);
        let sy = crate::trig::sin(yaw);
        let cp = crate::trig::cos(pitch);
        let sp = crate::trig::sin(pitch);

        Vector::new(cy.mul(cp), sp, sy.mul(cp)).normalize()
    }

    /// Tilt the view up or down by a step in degrees, wrapped into one turn.
    pub fn rotate_x(&mut self, angle: Fx)
        ensures
            *final(self) == (Camera {
                pitch: fxr(spec_wrap_deg(old(self).pitch.r(), angle.r())),
                ..*old(self)
            }),
    {
        let full = Fx::from_int(360);
        self.pitch = self.pitch.add(full).add(angle).rem(full);
    }

    /// Turn the view left or right by a step in degrees, wrapped into one
    /// turn.
    pub fn rotate_y(&mut self, angle: Fx)
        ensures
            *final(self) == (Camera {
                yaw: fxr(spec_wrap_deg(old(self).yaw.r(), angle.r())),
                ..*old(self)
            }),
    {
        let full = Fx::from_int(360);
        self.yaw = self.yaw.add(full).add(angle).rem(full);
    }

    /// Adopt a new aspect ratio.
    pub fn resize(&mut self, aspect: Fx)
        ensures
            *final(self) == (Camera { aspect, ..*old(self) }),
    {
        self.aspect = aspect;
    }

    /// Set the easing target one unit from the position along the direction
    /// a movement key asks for.
    pub fn translate(&mut self, direction: Direction)
        ensures
            *final(self) == (Camera {
                target: spec_pt_add_vec(
                    old(self).position,
                    spec_move_vector(old(self).pitch.r(), old(self).yaw.r(), direction),
                ),
                ..*old(self)
            }),
    {
        proof {
            reveal(spec_move_vector);
        }
        let d = self.direction();
        let up = Vector::new(Fx::zero(), Fx::one(), Fx::zero());
        let movement = match direction {
            Direction::Forward => d,
            Direction::Backward => d.neg(),
            Direction::Left => d.cross(&up).normalize().neg(),
            Direction::Right => d.cross(&up).normalize(),
        }.normalize().scale(Fx::one());

        self.target = self.position.add_vec(&movement);
    }

    /// Ease the position three quarters of the way toward the target.
    pub fn update(&mut self)
        ensures
            *final(self) == (Camera {
                position: Point {
                    x: fxr(
                        spec_lerp(
                            old(self).position.x.r(),
                            old(self).target.x.r(),
                            (75 * SCALE) as int / 100,
                        ),
                    ),
                    y: fxr(
                        spec_lerp(
                            old(self).position.y.r(),
                            old(self).target.y.r(),
                            (75 * SCALE) as int / 100,
                        ),
                    ),
                    z: fxr(
                        spec_lerp(
                            old(self).position.z.r(),
                            old(self).target.z.r(),
                            (75 * SCALE) as int / 100,
                        ),
                    ),
                },
                ..*old(self)
            }),
    {
        let factor = Fx::from_milli(750);
        self.position.x = lerp(self.position.x, self.target.x, factor);
        self.position.y = lerp(self.position.y, self.target.y, factor);
        self.position.z = lerp(self.position.z, self.target.z, factor);
    }
}

/// Ease one coordinate from start toward end by a clamped factor.
fn lerp(start: Fx, end: Fx, t: Fx) -> (r: Fx)
    ensures
        r.r() == spec_lerp(start.r(), end.r(), t.r()),
{
    let tc = t.clamp(Fx::zero(), Fx::one());
    start.mul(Fx::one().sub(tc)).add(end.mul(tc))
}

} // verus!
