//! Linear RGB colors.
use vstd::prelude::*;

use crate::fixed::{approx, fx_add, fx_mul, fx_sub, Fx, EPSILON};
use crate::vector::fxr;

verus! {

/// A linear RGB color; channels may leave [0, 1] while light accumulates.
#[derive(Clone, Copy, Debug, PartialEq, Eq, Structural)]
pub struct Color {
    pub r: Fx,
    pub g: Fx,
    pub b: Fx,
}

/// Channelwise sum.
pub open spec fn spec_col_add(a: Color, b: Color) -> Color {
    Color {
        r: fxr(fx_add(a.r.r(), b.r.r())),
        g: fxr(fx_add(a.g.r(), b.g.r())),
        b: fxr(fx_add(a.b.r(), b.b.r())),
    }
}

/// Channelwise difference.
pub open spec fn spec_col_sub(a: Color, b: Color) -> Color {
    Color {
        r: fxr(fx_sub(a.r.r(), b.r.r())),
        g: fxr(fx_sub(a.g.r(), b.g.r())),
        b: fxr(fx_sub(a.b.r(), b.b.r())),
    }
}

/// Scaling of every channel by a factor.
pub open spec fn spec_col_scale(a: Color, k: int) -> Color {
    Color {
        r: fxr(fx_mul(a.r.r(), k)),
        g: fxr(fx_mul(a.g.r(), k)),
        b: fxr(fx_mul(a.b.r(), k)),
    }
}

/// The Hadamard product, combining light with surface color.
pub open spec fn spec_col_mul(a: Color, b: Color) -> Color {
    Color {
        r: fxr(fx_mul(a.r.r(), b.r.r())),
        g: fxr(fx_mul(a.g.r(), b.g.r())),
        b: fxr(fx_mul(a.b.r(), b.b.r())),
    }
}

/// Approximate equality, each channel within the shared tolerance.
pub open spec fn spec_col_approx(a: Color, b: Color) -> bool {
    approx(a.r.r(), b.r.r()) && approx(a.g.r(), b.g.r()) && approx(a.b.r(), b.b.r())
}

impl Color {
    /// Build a color from its channels.
    pub fn new(r: Fx, g: Fx, b: Fx) -> (c: Color)
        ensures
            c == (Color { r, g, b }),
    {
        Color { r, g, b }
    }

    /// Pure black: every channel zero.
    pub fn black() -> (c: Color)
        ensures
            c.r.raw == 0 && c.g.raw == 0 && c.b.raw == 0,
    {
        Color { r: Fx::zero(), g: Fx::zero(), b: Fx::zero() }
    }

    /// The red channel.
    pub fn red(&self) -> (v: Fx)
        ensures
            v == self.r,
    {
        self.r
    }

    /// The green channel.
    pub fn green(&self) -> (v: Fx)
        ensures
            v == self.g,
    {
        self.g
    }

    /// The blue channel.
    pub fn blue(&self) -> (v: Fx)
        ensures
            v == self.b,
    {
        self.b
    }

    /// Channelwise sum.
    pub fn add(&self, rhs: &Color) -> (c: Color)
        ensures
            c == spec_col_add(*self, *rhs),
    {
        Color { r: self.r.add(rhs.r), g: self.g.add(rhs.g), b: self.b.add(rhs.b) }
    }

    /// Channelwise difference.
    pub fn sub(&self, rhs: &Color) -> (c: Color)
        ensures
            c == spec_col_sub(*self, *rhs),
    {
        Color { r: self.r.sub(rhs.r), g: self.g.sub(rhs.g), b: self.b.sub(rhs.b) }
    }

    /// Scale every channel by a factor.
    pub fn scale(&self, k: Fx) -> (c: Color)
        ensures
            c == spec_col_scale(*self, k.r()),
    {
        Color { r: self.r.mul(k), g: self.g.mul(k), b: self.b.mul(k) }
    }

    /// The Hadamard product with another color.
    pub fn mul(&self, rhs: &Color) -> (c: Color)
        ensures
            c == spec_col_mul(*self, *rhs),
    {
        Color { r: self.r.mul(rhs.r), g: self.g.mul(rhs.g), b: self.b.mul(rhs.b) }
    }

    /// Approximate equality within the shared tolerance.
    pub fn approx_eq(&self, other: &Color) -> (v: bool)
        ensures
            v == spec_col_approx(*self, *other),
    {
        self.r.sub(other.r).abs().raw < EPSILON && self.g.sub(other.g).abs().raw < EPSILON
            && self.b.sub(other.b).abs().raw < EPSILON
    }
}

} // verus!
