//! Point lights.
use vstd::prelude::*;

use crate::color::Color;
use crate::point::Point;

verus! {

/// A point light: a position and a radiant intensity, which may exceed one.
#[derive(Clone, Copy, Debug, PartialEq, Eq, Structural)]
pub struct Light {
    pub position: Point,
    pub intensity: Color,
}

impl Light {
    /// Build a light from its position and intensity.
    pub fn new(position: Point, intensity: Color) -> (l: Light)
        ensures
            l == (Light { position, intensity }),
    {
        Light { position, intensity }
    }
}

} // verus!
