//! Image textures, held as plain pixel grids.
use vstd::prelude::*;

use crate::color::{spec_col_add, spec_col_scale, Color};
use crate::fixed::{fx_add, fx_mul, fx_sub, sat, Fx, SCALE};

verus! {

/// A decoded image: a row-major grid of colors. Decoding image files is an
/// outside concern; the library receives the pixels as plain values.
#[derive(Clone, Debug)]
pub struct Texture {
    pub width: u32,
    pub height: u32,
    pub pixels: Vec<Color>,
}

/// A texture holds exactly one color per pixel of its grid.
pub open spec fn spec_texture_wf(t: Texture) -> bool {
    t.width >= 1 && t.height >= 1 && t.pixels@.len() == (t.width as int) * (t.height as int)
}

/// The sampled color: both coordinates clamped to [0, 1], u mirrored, then
/// scaled to the grid, truncated, and kept inside the edges.
pub open spec fn spec_sample_uv(t: Texture, u: int, v: int) -> Color
    recommends
        spec_texture_wf(t),
{
    let uu = if u < 0 {
        0
    } else if u > SCALE {
        SCALE as int
    } else {
        u
    };
    let vv = if v < 0 {
        0
    } else if v > SCALE {
        SCALE as int
    } else {
        v
    };
    let xs = fx_mul(fx_sub(SCALE as int, uu), sat((t.width as int) * (SCALE as int)));
    let ys = fx_mul(vv, sat((t.height as int) * (SCALE as int)));
    let x = if xs / (SCALE as int) < t.width - 1 {
        xs / (SCALE as int)
    } else {
        t.width - 1
    };
    let y = if ys / (SCALE as int) < t.height - 1 {
        ys / (SCALE as int)
    } else {
        t.height - 1
    };
    t.pixels@[y * (t.width as int) + x]
}

impl Texture {
    /// Build a texture from its dimensions and row-major pixels.
    pub fn new(width: u32, height: u32, pixels: Vec<Color>) -> (t: Texture)
        requires
            width >= 1,
            height >= 1,
            pixels@.len() == (width as int) * (height as int),
        ensures
            t == (Texture { width, height, pixels }),
            spec_texture_wf(t),
    {
        Texture { width, height, pixels }
    }

    /// Sample the texture at texture coordinates in [0, 1].
    pub fn sample_uv(&self, u: Fx, v: Fx) -> (c: Color)
        requires
            spec_texture_wf(*self),
        ensures
            c == spec_sample_uv(*self, u.r(), v.r()),
    {
        let uu = u.clamp(Fx::zero(), Fx::one());
        let vv = v.clamp(Fx::zero(), Fx::one());

        let wfx = Fx::from_int(self.width as i64);
        let hfx = Fx::from_int(self.height as i64);

        let xf = Fx::one().sub(uu).mul(wfx);
        let yf = vv.mul(hfx);

        proof {
            crate::fixed::lemma_fx_mul_nonneg(fx_sub(SCALE as int, uu.r()), wfx.r());
            crate::fixed::lemma_fx_mul_nonneg(vv.r(), hfx.r());
        }
        let xq: i64 = xf.floor_units();
        let yq: i64 = yf.floor_units();

        let x: u32 = if xq < (self.width - 1) as i64 {
            xq as u32
        } else {
            self.width - 1
        };
        let y: u32 = if yq < (self.height - 1) as i64 {
            yq as u32
        } else {
            self.height - 1
        };

        let total: usize = self.pixels.len();
        proof {
            let wi = self.width as int;
            let hi = self.height as int;
            let xi = x as int;
            let yi = y as int;
            assert(yi * wi + xi < wi * hi) by (nonlinear_arith)
                requires
                    0 <= xi < wi,
                    0 <= yi < hi,
            ;
            assert(yi * wi <= wi * hi) by (nonlinear_arith)
                requires
                    0 <= yi < hi,
                    0 <= wi,
            ;
            assert(wi * hi == total as int);
        }
        self.pixels[(y as usize) * (self.width as usize) + (x as usize)]
    }
}


/// Maps from surface points to texture coordinates in [0, 1].
pub struct TextureMapping;

/// The spherical texture coordinates of a local-space point: longitude from
/// the planar angle, latitude from the inclination against the radius; a
/// point at the center maps to the top left.
pub open spec fn spec_spherical_uv(p: crate::point::Point) -> (int, int) {
    let theta = crate::trig::spec_atan2(p.z.r(), p.x.r());
    let radius = crate::fixed::fx_sqrt(
        fx_add(
            fx_add(fx_mul(p.x.r(), p.x.r()), fx_mul(p.y.r(), p.y.r())),
            fx_mul(p.z.r(), p.z.r()),
        ),
    );
    if radius == 0 {
        (0, 0)
    } else {
        let phi = crate::trig::spec_acos(crate::fixed::fx_div(p.y.r(), radius));
        (
            crate::fixed::fx_div(
                fx_add(theta, crate::trig::PI_RAW as int),
                2 * crate::trig::PI_RAW as int,
            ),
            crate::fixed::fx_div(phi, crate::trig::PI_RAW as int),
        )
    }
}

/// The planar texture coordinates: each coordinate's offset into its unit
/// cell.
pub open spec fn spec_planar_uv(p: crate::point::Point) -> (int, int) {
    (p.x.r() % (SCALE as int), p.z.r() % (SCALE as int))
}

/// The cylindrical texture coordinates: longitude from the planar angle,
/// height from the unit-cell offset.
pub open spec fn spec_cylindrical_uv(p: crate::point::Point) -> (int, int) {
    let theta = crate::trig::spec_atan2(p.z.r(), p.x.r());
    (
        crate::fixed::fx_div(
            fx_add(theta, crate::trig::PI_RAW as int),
            2 * crate::trig::PI_RAW as int,
        ),
        p.y.r() % (SCALE as int),
    )
}

impl TextureMapping {
    /// The spherical texture coordinates of a local-space point.
    pub fn spherical_uv(point: &crate::point::Point) -> (r: (Fx, Fx))
        ensures
            (r.0.r(), r.1.r()) == spec_spherical_uv(*point),
    {
        let theta = crate::trig::atan2(point.z, point.x);
        proof {
            crate::vector::lemma_fx_square_nonneg(point.x.r());
            crate::vector::lemma_fx_square_nonneg(point.y.r());
            crate::vector::lemma_fx_square_nonneg(point.z.r());
        }
        let radius = point.x.mul(point.x).add(point.y.mul(point.y)).add(
            point.z.mul(point.z),
        ).sqrt();
        if radius.raw == 0 {
            return (Fx::zero(), Fx::zero());
        }
        let phi = crate::trig::acos(point.y.div(radius));

        let pi = Fx { raw: crate::trig::PI_RAW };
        let two_pi = Fx { raw: 2 * crate::trig::PI_RAW };
        let u = theta.add(pi).div(two_pi);
        let v = phi.div(pi);

        (u, v)
    }

    /// The planar texture coordinates of a local-space point.
    pub fn planar_uv(point: &crate::point::Point) -> (r: (Fx, Fx))
        ensures
            (r.0.r(), r.1.r()) == spec_planar_uv(*point),
    {
        (Fx { raw: point.x.rem_units() }, Fx { raw: point.z.rem_units() })
    }

    /// The cylindrical texture coordinates of a local-space point.
    pub fn cylindrical_uv(point: &crate::point::Point) -> (r: (Fx, Fx))
        ensures
            (r.0.r(), r.1.r()) == spec_cylindrical_uv(*point),
    {
        let theta = crate::trig::atan2(point.z, point.x);
        let pi = Fx { raw: crate::trig::PI_RAW };
        let two_pi = Fx { raw: 2 * crate::trig::PI_RAW };
        let u = theta.add(pi).div(two_pi);
        let v = Fx { raw: point.y.rem_units() };
        (u, v)
    }
}

impl Texture {
    /// The texture color of a world-space point on an object: the point is
    /// pulled into the object's local frame and sampled spherically.
    pub fn stripe_at_object(&self, obj: &crate::object::Object, world_point: &crate::point::Point) -> (c: Color)
        requires
            spec_texture_wf(*self),
        ensures
            ({
                let obj_point = crate::matrix::spec_mat_mul_point(obj.spec_wtl(), *world_point);
                let uv = spec_spherical_uv(obj_point);
                c == spec_sample_uv(*self, uv.0, uv.1)
            }),
    {
        let obj_point = obj.world_to_local().mul_point(world_point);
        let coord = TextureMapping::spherical_uv(&obj_point);
        self.sample_uv(coord.0, coord.1)
    }
}


/// The toroidal texture coordinates of a local-space point on a torus with
/// the given radii: longitude from the planar angle about the axis, and
/// latitude from the angle about the tube, measured from the nearest point
/// of the major circle.
pub open spec fn spec_toroidal_uv(p: crate::point::Point, major: int, minor: int) -> (int, int) {
    let theta = crate::trig::spec_atan2(p.z.r(), p.x.r());
    let mcx = fx_mul(major, crate::trig::spec_cos(theta));
    let mcz = fx_mul(major, crate::trig::spec_sin(theta));
    let tpx = fx_sub(p.x.r(), mcx);
    let tpz = fx_sub(p.z.r(), mcz);
    let tpy = p.y.r();
    let phi = crate::trig::spec_atan2(
        tpy,
        crate::fixed::fx_sqrt(fx_add(fx_mul(tpx, tpx), fx_mul(tpz, tpz))),
    );
    (
        crate::fixed::fx_div(
            fx_add(theta, crate::trig::PI_RAW as int),
            2 * crate::trig::PI_RAW as int,
        ),
        crate::fixed::fx_div(
            fx_add(phi, crate::trig::PI_RAW as int),
            2 * crate::trig::PI_RAW as int,
        ),
    )
}

impl TextureMapping {
    /// The toroidal texture coordinates of a local-space point. The minor
    /// radius plays no part in the angles, but a torus carries both.
    pub fn toroidal_uv(point: &crate::point::Point, major_radius: Fx, _minor_radius: Fx) -> (r: (
        Fx,
        Fx,
    ))
        ensures
            (r.0.r(), r.1.r()) == spec_toroidal_uv(*point, major_radius.r(), _minor_radius.r()),
    {
        let theta = crate::trig::atan2(point.z, point.x);

        let major_circle_x = major_radius.mul(crate::trig::cos(theta));
        let major_circle_z = major_radius.mul(crate::trig::sin(theta));

        let to_point_x = point.x.sub(major_circle_x);
        let to_point_z = point.z.sub(major_circle_z);
        let to_point_y = point.y;

        proof {
            crate::vector::lemma_fx_square_nonneg(to_point_x.r());
            crate::vector::lemma_fx_square_nonneg(to_point_z.r());
        }
        let phi = crate::trig::atan2(
            to_point_y,
            to_point_x.mul(to_point_x).add(to_point_z.mul(to_point_z)).sqrt(),
        );

        let pi = Fx { raw: crate::trig::PI_RAW };
        let two_pi = Fx { raw: 2 * crate::trig::PI_RAW };
        let u = theta.add(pi).div(two_pi);
        let v = phi.add(pi).div(two_pi);

        (u, v)
    }
}

/// The bilinear sample at clamped coordinates: the four neighboring pixels
/// blended by the fractional offsets, with u mirrored vertically through v.
pub open spec fn spec_sample_uv_filtered(t: Texture, u: int, v: int) -> Color
    recommends
        spec_texture_wf(t),
{
    let uu = if u < 0 {
        0
    } else if u > SCALE {
        SCALE as int
    } else {
        u
    };
    let vv = if v < 0 {
        0
    } else if v > SCALE {
        SCALE as int
    } else {
        v
    };
    let xf = fx_mul(uu, sat(((t.width - 1) as int) * (SCALE as int)));
    let yf = fx_mul(fx_sub(SCALE as int, vv), sat(((t.height - 1) as int) * (SCALE as int)));
    let x1 = xf / (SCALE as int);
    let y1 = yf / (SCALE as int);
    let x2 = if x1 + 1 < (t.width - 1) as int {
        x1 + 1
    } else {
        (t.width - 1) as int
    };
    let y2 = if y1 + 1 < (t.height - 1) as int {
        y1 + 1
    } else {
        (t.height - 1) as int
    };
    let fxw = xf % (SCALE as int);
    let fyw = yf % (SCALE as int);
    let c00 = t.pixels@[y1 * (t.width as int) + x1];
    let c10 = t.pixels@[y1 * (t.width as int) + x2];
    let c01 = t.pixels@[y2 * (t.width as int) + x1];
    let c11 = t.pixels@[y2 * (t.width as int) + x2];
    let c0 = spec_col_add(
        spec_col_scale(c00, fx_sub(SCALE as int, fxw)),
        spec_col_scale(c10, fxw),
    );
    let c1 = spec_col_add(
        spec_col_scale(c01, fx_sub(SCALE as int, fxw)),
        spec_col_scale(c11, fxw),
    );
    spec_col_add(spec_col_scale(c0, fx_sub(SCALE as int, fyw)), spec_col_scale(c1, fyw))
}

impl Texture {
    /// Sample the texture with bilinear filtering: the four pixels around
    /// the continuous coordinate, blended by its fractional offsets.
    pub fn sample_uv_filtered(&self, u: Fx, v: Fx) -> (c: Color)
        requires
            spec_texture_wf(*self),
        ensures
            c == spec_sample_uv_filtered(*self, u.r(), v.r()),
    {
        let uu = u.clamp(Fx::zero(), Fx::one());
        let vv = v.clamp(Fx::zero(), Fx::one());

        let wm1 = Fx::from_int((self.width - 1) as i64);
        let hm1 = Fx::from_int((self.height - 1) as i64);

        let xf = uu.mul(wm1);
        let yf = Fx::one().sub(vv).mul(hm1);

        proof {
            crate::fixed::lemma_fx_mul_le(uu.r(), wm1.r());
            crate::fixed::lemma_fx_mul_le(fx_sub(SCALE as int, vv.r()), hm1.r());
        }
        let x1: i64 = xf.floor_units();
        let y1: i64 = yf.floor_units();
        let x2: i64 = if x1 + 1 < (self.width - 1) as i64 {
            x1 + 1
        } else {
            (self.width - 1) as i64
        };
        let y2: i64 = if y1 + 1 < (self.height - 1) as i64 {
            y1 + 1
        } else {
            (self.height - 1) as i64
        };

        let frac_x = Fx { raw: xf.rem_units() };
        let frac_y = Fx { raw: yf.rem_units() };

        let c00 = self.pixel_at(x1 as u32, y1 as u32);
        let c10 = self.pixel_at(x2 as u32, y1 as u32);
        let c01 = self.pixel_at(x1 as u32, y2 as u32);
        let c11 = self.pixel_at(x2 as u32, y2 as u32);

        let inv_x = Fx::one().sub(frac_x);
        let inv_y = Fx::one().sub(frac_y);

        let c0 = c00.scale(inv_x).add(&c10.scale(frac_x));
        let c1 = c01.scale(inv_x).add(&c11.scale(frac_x));
        c0.scale(inv_y).add(&c1.scale(frac_y))
    }

    /// One stored pixel by its grid coordinates.
    fn pixel_at(&self, x: u32, y: u32) -> (c: Color)
        requires
            spec_texture_wf(*self),
            x < self.width,
            y < self.height,
        ensures
            c == self.pixels@[(y as int) * (self.width as int) + (x as int)],
    {
        let total: usize = self.pixels.len();
        proof {
            let wi = self.width as int;
            let hi = self.height as int;
            let xi = x as int;
            let yi = y as int;
            assert(yi * wi + xi < wi * hi) by (nonlinear_arith)
                requires
                    0 <= xi < wi,
                    0 <= yi < hi,
            ;
            assert(yi * wi <= wi * hi) by (nonlinear_arith)
                requires
                    0 <= yi < hi,
                    0 <= wi,
            ;
            assert(wi * hi == total as int);
        }
        self.pixels[(y as usize) * (self.width as usize) + (x as usize)]
    }
}

} // verus!
