//! Surface appearance.
use vstd::prelude::*;

use crate::color::Color;
use crate::fixed::{Fx, SCALE};
use crate::pattern::Pattern;
use crate::vector::fxr;

verus! {

/// How a surface responds to light: its base color, the Phong coefficients,
/// the reflection strength, the refraction parameters, and an optional
/// procedural pattern.
#[derive(Clone, Debug)]
pub struct Material {
    pub color: Color,
    pub shininess: Fx,
    pub ambient: Fx,
    pub diffuse: Fx,
    pub specular: Fx,
    pub reflective: Fx,
    pub refractive_index: Fx,
    pub pattern: Option<Pattern>,
    pub transparency: Fx,
}

/// The default material: white, ambient one tenth, diffuse and specular nine
/// tenths, shininess two hundred, no reflection, no transparency.
pub open spec fn spec_material_default() -> Material {
    Material {
        color: Color { r: fxr(SCALE as int), g: fxr(SCALE as int), b: fxr(SCALE as int) },
        shininess: fxr(200 * SCALE),
        ambient: fxr((SCALE as int) / 10),
        diffuse: fxr((9 * SCALE) as int / 10),
        specular: fxr((9 * SCALE) as int / 10),
        reflective: fxr(0),
        refractive_index: fxr(SCALE as int),
        pattern: None,
        transparency: fxr(0),
    }
}

/// A value clamped into the closed raw interval `[lo, hi]`.
pub open spec fn spec_clamped(v: int, lo: int, hi: int) -> int {
    if v < lo {
        lo
    } else if v > hi {
        hi
    } else {
        v
    }
}

impl Default for Material {
    /// The default material.
    fn default() -> (m: Material)
        ensures
            m == spec_material_default(),
    {
        Material {
            color: Color::new(Fx::one(), Fx::one(), Fx::one()),
            shininess: Fx::from_int(200),
            ambient: Fx::from_milli(100),
            diffuse: Fx::from_milli(900),
            specular: Fx::from_milli(900),
            reflective: Fx::zero(),
            refractive_index: Fx::one(),
            pattern: None,
            transparency: Fx::zero(),
        }
    }
}

impl Material {
    /// The default material.
    pub fn new() -> (m: Material)
        ensures
            m == spec_material_default(),
    {
        Material::default()
    }

    /// Replace the base color.
    pub fn color(self, color: Color) -> (m: Material)
        ensures
            m == (Material { color, ..self }),
    {
        Material { color, ..self }
    }

    /// Replace the reflection strength, clamped to [0, 1].
    pub fn reflective(self, reflective: Fx) -> (m: Material)
        ensures
            m == (Material { reflective: fxr(spec_clamped(reflective.r(), 0, SCALE as int)), ..self }),
    {
        Material { reflective: reflective.clamp(Fx::zero(), Fx::one()), ..self }
    }

    /// Replace the specular coefficient, clamped to [0, 1].
    pub fn specular(self, specular: Fx) -> (m: Material)
        ensures
            m == (Material { specular: fxr(spec_clamped(specular.r(), 0, SCALE as int)), ..self }),
    {
        Material { specular: specular.clamp(Fx::zero(), Fx::one()), ..self }
    }

    /// Replace the diffuse coefficient, clamped to [0, 1].
    pub fn diffuse(self, diffuse: Fx) -> (m: Material)
        ensures
            m == (Material { diffuse: fxr(spec_clamped(diffuse.r(), 0, SCALE as int)), ..self }),
    {
        Material { diffuse: diffuse.clamp(Fx::zero(), Fx::one()), ..self }
    }

    /// Replace the shininess, clamped to [10, 200].
    pub fn shininess(self, shininess: Fx) -> (m: Material)
        ensures
            m == (Material {
                shininess: fxr(spec_clamped(shininess.r(), 10 * SCALE, 200 * SCALE)),
                ..self
            }),
    {
        Material { shininess: shininess.clamp(Fx::from_int(10), Fx::from_int(200)), ..self }
    }

    /// Replace the ambient coefficient, clamped to [0, 1].
    pub fn ambient(self, ambient: Fx) -> (m: Material)
        ensures
            m == (Material { ambient: fxr(spec_clamped(ambient.r(), 0, SCALE as int)), ..self }),
    {
        Material { ambient: ambient.clamp(Fx::zero(), Fx::one()), ..self }
    }
}

} // verus!
