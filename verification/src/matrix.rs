//! Four-by-four transform matrices, stored column-major.
use vstd::prelude::*;

use crate::fixed::{abs_i, fx_add, fx_div, fx_mul, fx_neg, fx_sub, Fx, EPSILON, SCALE};
use crate::point::{spec_pt_div, spec_pt_sub, Point};
use crate::ray::{Ray};
use crate::trig::{spec_cos, spec_sin};
use crate::vector::{fxr, spec_cross, spec_normalize, spec_vec_neg, Vector};

verus! {

/// A 4x4 affine transform; entry `mCR` sits in column C, row R.
#[derive(Clone, Copy, Debug, PartialEq, Eq, Structural)]
pub struct Matrix {
    pub m00: Fx,
    pub m01: Fx,
    pub m02: Fx,
    pub m03: Fx,
    pub m10: Fx,
    pub m11: Fx,
    pub m12: Fx,
    pub m13: Fx,
    pub m20: Fx,
    pub m21: Fx,
    pub m22: Fx,
    pub m23: Fx,
    pub m30: Fx,
    pub m31: Fx,
    pub m32: Fx,
    pub m33: Fx,
}

impl Matrix {
    /// Raw value of the entry in column `c`, row `r`.
    pub open spec fn m(self, c: int, r: int) -> int {
        if c == 0 {
            if r == 0 { self.m00.r() }
            else if r == 1 { self.m01.r() }
            else if r == 2 { self.m02.r() }
            else { self.m03.r() }
        } else if c == 1 {
            if r == 0 { self.m10.r() }
            else if r == 1 { self.m11.r() }
            else if r == 2 { self.m12.r() }
            else { self.m13.r() }
        } else if c == 2 {
            if r == 0 { self.m20.r() }
            else if r == 1 { self.m21.r() }
            else if r == 2 { self.m22.r() }
            else { self.m23.r() }
        } else {
            if r == 0 { self.m30.r() }
            else if r == 1 { self.m31.r() }
            else if r == 2 { self.m32.r() }
            else { self.m33.r() }
        }
    }

    /// The entry in column `c`, row `r`.
    pub fn at(&self, c: usize, r: usize) -> (v: Fx)
        requires c < 4, r < 4,
        ensures v.r() == self.m(c as int, r as int),
    {
        if c == 0 {
            if r == 0 { self.m00 }
            else if r == 1 { self.m01 }
            else if r == 2 { self.m02 }
            else { self.m03 }
        } else if c == 1 {
            if r == 0 { self.m10 }
            else if r == 1 { self.m11 }
            else if r == 2 { self.m12 }
            else { self.m13 }
        } else if c == 2 {
            if r == 0 { self.m20 }
            else if r == 1 { self.m21 }
            else if r == 2 { self.m22 }
            else { self.m23 }
        } else {
            if r == 0 { self.m30 }
            else if r == 1 { self.m31 }
            else if r == 2 { self.m32 }
            else { self.m33 }
        }
    }

    /// Replace the entry in column `c`, row `r`, leaving the rest.
    pub fn set_at(&mut self, c: usize, r: usize, v: Fx)
        requires c < 4, r < 4,
        ensures
            final(self).m(c as int, r as int) == v.r(),
            forall|cc: int, rr: int| 0 <= cc < 4 && 0 <= rr < 4 && !(cc == c && rr == r) ==> final(self).m(cc, rr) == old(self).m(cc, rr),
    {
        if c == 0 {
            if r == 0 { self.m00 = v; }
            else if r == 1 { self.m01 = v; }
            else if r == 2 { self.m02 = v; }
            else { self.m03 = v; }
        } else if c == 1 {
            if r == 0 { self.m10 = v; }
            else if r == 1 { self.m11 = v; }
            else if r == 2 { self.m12 = v; }
            else { self.m13 = v; }
        } else if c == 2 {
            if r == 0 { self.m20 = v; }
            else if r == 1 { self.m21 = v; }
            else if r == 2 { self.m22 = v; }
            else { self.m23 = v; }
        } else {
            if r == 0 { self.m30 = v; }
            else if r == 1 { self.m31 = v; }
            else if r == 2 { self.m32 = v; }
            else { self.m33 = v; }
        }
    }

    /// The matrix with every entry zero.
    pub fn new() -> (r: Matrix)
        ensures
            r == spec_mat_zero(),
    {
        Matrix {
            m00: Fx::zero(),
            m01: Fx::zero(),
            m02: Fx::zero(),
            m03: Fx::zero(),
            m10: Fx::zero(),
            m11: Fx::zero(),
            m12: Fx::zero(),
            m13: Fx::zero(),
            m20: Fx::zero(),
            m21: Fx::zero(),
            m22: Fx::zero(),
            m23: Fx::zero(),
            m30: Fx::zero(),
            m31: Fx::zero(),
            m32: Fx::zero(),
            m33: Fx::zero(),
        }
    }

    /// The identity transform.
    pub fn identity() -> (r: Matrix)
        ensures
            r == spec_mat_identity(),
    {
        Matrix {
            m00: Fx::one(),
            m01: Fx::zero(),
            m02: Fx::zero(),
            m03: Fx::zero(),
            m10: Fx::zero(),
            m11: Fx::one(),
            m12: Fx::zero(),
            m13: Fx::zero(),
            m20: Fx::zero(),
            m21: Fx::zero(),
            m22: Fx::one(),
            m23: Fx::zero(),
            m30: Fx::zero(),
            m31: Fx::zero(),
            m32: Fx::zero(),
            m33: Fx::one(),
        }
    }

    /// Build a matrix from its entries given row by row.
    pub fn from_rows(r0c0: Fx, r0c1: Fx, r0c2: Fx, r0c3: Fx, r1c0: Fx, r1c1: Fx, r1c2: Fx, r1c3: Fx, r2c0: Fx, r2c1: Fx, r2c2: Fx, r2c3: Fx, r3c0: Fx, r3c1: Fx, r3c2: Fx, r3c3: Fx) -> (m: Matrix)
        ensures
            m.m00 == r0c0,
            m.m10 == r0c1,
            m.m20 == r0c2,
            m.m30 == r0c3,
            m.m01 == r1c0,
            m.m11 == r1c1,
            m.m21 == r1c2,
            m.m31 == r1c3,
            m.m02 == r2c0,
            m.m12 == r2c1,
            m.m22 == r2c2,
            m.m32 == r2c3,
            m.m03 == r3c0,
            m.m13 == r3c1,
            m.m23 == r3c2,
            m.m33 == r3c3,
    {
        Matrix {
            m00: r0c0,
            m01: r1c0,
            m02: r2c0,
            m03: r3c0,
            m10: r0c1,
            m11: r1c1,
            m12: r2c1,
            m13: r3c1,
            m20: r0c2,
            m21: r1c2,
            m22: r2c2,
            m23: r3c2,
            m30: r0c3,
            m31: r1c3,
            m32: r2c3,
            m33: r3c3,
        }
    }

    /// Build a matrix from its entries given column by column.
    pub fn from_cols(c0r0: Fx, c0r1: Fx, c0r2: Fx, c0r3: Fx, c1r0: Fx, c1r1: Fx, c1r2: Fx, c1r3: Fx, c2r0: Fx, c2r1: Fx, c2r2: Fx, c2r3: Fx, c3r0: Fx, c3r1: Fx, c3r2: Fx, c3r3: Fx) -> (m: Matrix)
        ensures
            m.m00 == c0r0,
            m.m01 == c0r1,
            m.m02 == c0r2,
            m.m03 == c0r3,
            m.m10 == c1r0,
            m.m11 == c1r1,
            m.m12 == c1r2,
            m.m13 == c1r3,
            m.m20 == c2r0,
            m.m21 == c2r1,
            m.m22 == c2r2,
            m.m23 == c2r3,
            m.m30 == c3r0,
            m.m31 == c3r1,
            m.m32 == c3r2,
            m.m33 == c3r3,
    {
        Matrix {
            m00: c0r0,
            m01: c0r1,
            m02: c0r2,
            m03: c0r3,
            m10: c1r0,
            m11: c1r1,
            m12: c1r2,
            m13: c1r3,
            m20: c2r0,
            m21: c2r1,
            m22: c2r2,
            m23: c2r3,
            m30: c3r0,
            m31: c3r1,
            m32: c3r2,
            m33: c3r3,
        }
    }

    /// The transpose: rows and columns exchanged.
    pub fn transpose(&self) -> (t: Matrix)
        ensures
            t == spec_transpose(*self),
    {
        Matrix {
            m00: self.m00,
            m01: self.m10,
            m02: self.m20,
            m03: self.m30,
            m10: self.m01,
            m11: self.m11,
            m12: self.m21,
            m13: self.m31,
            m20: self.m02,
            m21: self.m12,
            m22: self.m22,
            m23: self.m32,
            m30: self.m03,
            m31: self.m13,
            m32: self.m23,
            m33: self.m33,
        }
    }

    /// The matrix product, composing this transform after `rhs`.
    pub fn mul_mat(&self, rhs: &Matrix) -> (m: Matrix)
        ensures
            m == spec_mat_mul(*self, *rhs),
    {
        Matrix {
            m00: self.m00.mul(rhs.m00).add(self.m10.mul(rhs.m01)).add(self.m20.mul(rhs.m02)).add(self.m30.mul(rhs.m03)),
            m01: self.m01.mul(rhs.m00).add(self.m11.mul(rhs.m01)).add(self.m21.mul(rhs.m02)).add(self.m31.mul(rhs.m03)),
            m02: self.m02.mul(rhs.m00).add(self.m12.mul(rhs.m01)).add(self.m22.mul(rhs.m02)).add(self.m32.mul(rhs.m03)),
            m03: self.m03.mul(rhs.m00).add(self.m13.mul(rhs.m01)).add(self.m23.mul(rhs.m02)).add(self.m33.mul(rhs.m03)),
            m10: self.m00.mul(rhs.m10).add(self.m10.mul(rhs.m11)).add(self.m20.mul(rhs.m12)).add(self.m30.mul(rhs.m13)),
            m11: self.m01.mul(rhs.m10).add(self.m11.mul(rhs.m11)).add(self.m21.mul(rhs.m12)).add(self.m31.mul(rhs.m13)),
            m12: self.m02.mul(rhs.m10).add(self.m12.mul(rhs.m11)).add(self.m22.mul(rhs.m12)).add(self.m32.mul(rhs.m13)),
            m13: self.m03.mul(rhs.m10).add(self.m13.mul(rhs.m11)).add(self.m23.mul(rhs.m12)).add(self.m33.mul(rhs.m13)),
            m20: self.m00.mul(rhs.m20).add(self.m10.mul(rhs.m21)).add(self.m20.mul(rhs.m22)).add(self.m30.mul(rhs.m23)),
            m21: self.m01.mul(rhs.m20).add(self.m11.mul(rhs.m21)).add(self.m21.mul(rhs.m22)).add(self.m31.mul(rhs.m23)),
            m22: self.m02.mul(rhs.m20).add(self.m12.mul(rhs.m21)).add(self.m22.mul(rhs.m22)).add(self.m32.mul(rhs.m23)),
            m23: self.m03.mul(rhs.m20).add(self.m13.mul(rhs.m21)).add(self.m23.mul(rhs.m22)).add(self.m33.mul(rhs.m23)),
            m30: self.m00.mul(rhs.m30).add(self.m10.mul(rhs.m31)).add(self.m20.mul(rhs.m32)).add(self.m30.mul(rhs.m33)),
            m31: self.m01.mul(rhs.m30).add(self.m11.mul(rhs.m31)).add(self.m21.mul(rhs.m32)).add(self.m31.mul(rhs.m33)),
            m32: self.m02.mul(rhs.m30).add(self.m12.mul(rhs.m31)).add(self.m22.mul(rhs.m32)).add(self.m32.mul(rhs.m33)),
            m33: self.m03.mul(rhs.m30).add(self.m13.mul(rhs.m31)).add(self.m23.mul(rhs.m32)).add(self.m33.mul(rhs.m33)),
        }
    }

    /// Apply the transform to a point: homogeneous multiply with w read
    /// as one, then division by the resulting w unless it is zero.
    pub fn mul_point(&self, p: &Point) -> (q: Point)
        ensures
            q == spec_mat_mul_point(*self, *p),
    {
        let x = p.x.mul(self.m00).add(p.y.mul(self.m10)).add(p.z.mul(self.m20)).add(self.m30);
        let y = p.x.mul(self.m01).add(p.y.mul(self.m11)).add(p.z.mul(self.m21)).add(self.m31);
        let z = p.x.mul(self.m02).add(p.y.mul(self.m12)).add(p.z.mul(self.m22)).add(self.m32);
        let w = p.x.mul(self.m03).add(p.y.mul(self.m13)).add(p.z.mul(self.m23)).add(self.m33);
        if w.raw != 0 {
            Point { x, y, z }.div_s(w)
        } else {
            Point { x, y, z }
        }
    }

    /// Apply the transform to a direction: w is read as zero, so the
    /// translation column never moves a direction.
    pub fn mul_vector(&self, v: &Vector) -> (u: Vector)
        ensures
            u == spec_mat_mul_vector(*self, *v),
    {
        Vector {
            x: v.x.mul(self.m00).add(v.y.mul(self.m10)).add(v.z.mul(self.m20)),
            y: v.x.mul(self.m01).add(v.y.mul(self.m11)).add(v.z.mul(self.m21)),
            z: v.x.mul(self.m02).add(v.y.mul(self.m12)).add(v.z.mul(self.m22)),
        }
    }

    /// Apply the transform to a ray: origin as a point, direction as a
    /// vector.
    pub fn mul_ray(&self, ray: &Ray) -> (s: Ray)
        ensures
            s == (Ray { origin: spec_mat_mul_point(*self, ray.origin), direction: spec_mat_mul_vector(*self, ray.direction) }),
    {
        Ray { origin: self.mul_point(&ray.origin), direction: self.mul_vector(&ray.direction) }
    }

    /// Approximate equality: no entry differs by more than the shared
    /// tolerance.
    pub fn approx_eq(&self, other: &Matrix) -> (v: bool)
        ensures
            v == spec_mat_approx(*self, *other),
    {
        let mut col: usize = 0;
        while col < 4
            invariant
                col <= 4,
                forall|cc: int, rr: int| 0 <= cc < col && 0 <= rr < 4 ==> abs_i(self.m(cc, rr) - other.m(cc, rr)) <= EPSILON,
            decreases 4 - col,
        {
            let mut row: usize = 0;
            while row < 4
                invariant
                    col < 4,
                    row <= 4,
                    forall|cc: int, rr: int| 0 <= cc < col && 0 <= rr < 4 ==> abs_i(self.m(cc, rr) - other.m(cc, rr)) <= EPSILON,
                    forall|rr: int| 0 <= rr < row ==> abs_i(self.m(col as int, rr) - other.m(col as int, rr)) <= EPSILON,
                decreases 4 - row,
            {
                if self.at(col, row).sub(other.at(col, row)).abs().raw > EPSILON {
                    return false;
                }
                row = row + 1;
            }
            col = col + 1;
        }
        true
    }

    /// The transform moving every point by `vector`.
    pub fn translation(vector: Vector) -> (m: Matrix)
        ensures
            m == spec_translation(vector),
    {
        let mut t = Matrix::identity();
        t.m30 = vector.x;
        t.m31 = vector.y;
        t.m32 = vector.z;
        t
    }

    /// The transform scaling each axis by the matching component.
    pub fn scaling(vector: Vector) -> (m: Matrix)
        ensures
            m == spec_scaling(vector),
    {
        let mut s = Matrix::new();
        s.m00 = vector.x;
        s.m11 = vector.y;
        s.m22 = vector.z;
        s.m33 = Fx::one();
        s
    }

    /// The shear transform: each coordinate moves in proportion to the
    /// other two.
    pub fn shearing(xy: Fx, xz: Fx, yx: Fx, yz: Fx, zx: Fx, zy: Fx) -> (m: Matrix)
        ensures
            m == spec_shearing(xy, xz, yx, yz, zx, zy),
    {
        let mut s = Matrix::identity();
        s.m10 = xy;
        s.m20 = xz;
        s.m01 = yx;
        s.m21 = yz;
        s.m02 = zx;
        s.m12 = zy;
        s
    }

    /// The view transform looking from `from` toward `to` with `up`
    /// roughly upward.
    pub fn view(from: Point, to: Point, up: Vector) -> (m: Matrix)
        ensures
            m == spec_view(from, to, up),
    {
        let forward = from.sub(&to).normalize();
        let upn = up.normalize();
        let right = upn.cross(&forward).normalize();
        let up2 = forward.cross(&right).normalize();
        let zero = Fx::zero();
        let one = Fx::one();
        let orientation = Matrix::from_cols(
            right.x, up2.x, forward.x, zero,
            right.y, up2.y, forward.y, zero,
            right.z, up2.z, forward.z, zero,
            zero, zero, zero, one,
        );
        orientation.mul_mat(&Matrix::translation(Vector { x: from.x.neg(), y: from.y.neg(), z: from.z.neg() }))
    }
}

/// The matrix with every entry zero.
pub open spec fn spec_mat_zero() -> Matrix {
    Matrix {
        m00: fxr(0),
        m01: fxr(0),
        m02: fxr(0),
        m03: fxr(0),
        m10: fxr(0),
        m11: fxr(0),
        m12: fxr(0),
        m13: fxr(0),
        m20: fxr(0),
        m21: fxr(0),
        m22: fxr(0),
        m23: fxr(0),
        m30: fxr(0),
        m31: fxr(0),
        m32: fxr(0),
        m33: fxr(0),
    }
}

/// The identity transform.
pub open spec fn spec_mat_identity() -> Matrix {
    Matrix {
        m00: fxr(SCALE as int),
        m01: fxr(0),
        m02: fxr(0),
        m03: fxr(0),
        m10: fxr(0),
        m11: fxr(SCALE as int),
        m12: fxr(0),
        m13: fxr(0),
        m20: fxr(0),
        m21: fxr(0),
        m22: fxr(SCALE as int),
        m23: fxr(0),
        m30: fxr(0),
        m31: fxr(0),
        m32: fxr(0),
        m33: fxr(SCALE as int),
    }
}

/// The transpose of a matrix.
pub open spec fn spec_transpose(a: Matrix) -> Matrix {
    Matrix {
        m00: a.m00,
        m01: a.m10,
        m02: a.m20,
        m03: a.m30,
        m10: a.m01,
        m11: a.m11,
        m12: a.m21,
        m13: a.m31,
        m20: a.m02,
        m21: a.m12,
        m22: a.m22,
        m23: a.m32,
        m30: a.m03,
        m31: a.m13,
        m32: a.m23,
        m33: a.m33,
    }
}

/// Raw value of one entry of a matrix product: the row of `a` folded
/// with the column of `b`, summed left to right.
pub open spec fn spec_mm_entry(a: Matrix, b: Matrix, p: int, r: int) -> int {
    fx_add(
        fx_add(
            fx_add(fx_mul(a.m(0, r), b.m(p, 0)), fx_mul(a.m(1, r), b.m(p, 1))),
            fx_mul(a.m(2, r), b.m(p, 2)),
        ),
        fx_mul(a.m(3, r), b.m(p, 3)),
    )
}

/// The matrix product.
pub open spec fn spec_mat_mul(a: Matrix, b: Matrix) -> Matrix {
    Matrix {
        m00: fxr(spec_mm_entry(a, b, 0, 0)),
        m01: fxr(spec_mm_entry(a, b, 0, 1)),
        m02: fxr(spec_mm_entry(a, b, 0, 2)),
        m03: fxr(spec_mm_entry(a, b, 0, 3)),
        m10: fxr(spec_mm_entry(a, b, 1, 0)),
        m11: fxr(spec_mm_entry(a, b, 1, 1)),
        m12: fxr(spec_mm_entry(a, b, 1, 2)),
        m13: fxr(spec_mm_entry(a, b, 1, 3)),
        m20: fxr(spec_mm_entry(a, b, 2, 0)),
        m21: fxr(spec_mm_entry(a, b, 2, 1)),
        m22: fxr(spec_mm_entry(a, b, 2, 2)),
        m23: fxr(spec_mm_entry(a, b, 2, 3)),
        m30: fxr(spec_mm_entry(a, b, 3, 0)),
        m31: fxr(spec_mm_entry(a, b, 3, 1)),
        m32: fxr(spec_mm_entry(a, b, 3, 2)),
        m33: fxr(spec_mm_entry(a, b, 3, 3)),
    }
}

/// A point pushed through the transform, with the homogeneous divide.
pub open spec fn spec_mat_mul_point(a: Matrix, p: Point) -> Point {
    let x = fx_add(fx_add(fx_add(fx_mul(p.x.r(), a.m00.r()), fx_mul(p.y.r(), a.m10.r())), fx_mul(p.z.r(), a.m20.r())), a.m30.r());
    let y = fx_add(fx_add(fx_add(fx_mul(p.x.r(), a.m01.r()), fx_mul(p.y.r(), a.m11.r())), fx_mul(p.z.r(), a.m21.r())), a.m31.r());
    let z = fx_add(fx_add(fx_add(fx_mul(p.x.r(), a.m02.r()), fx_mul(p.y.r(), a.m12.r())), fx_mul(p.z.r(), a.m22.r())), a.m32.r());
    let w = fx_add(fx_add(fx_add(fx_mul(p.x.r(), a.m03.r()), fx_mul(p.y.r(), a.m13.r())), fx_mul(p.z.r(), a.m23.r())), a.m33.r());
    if w != 0 {
        spec_pt_div(Point { x: fxr(x), y: fxr(y), z: fxr(z) }, w)
    } else {
        Point { x: fxr(x), y: fxr(y), z: fxr(z) }
    }
}

/// A direction pushed through the transform; translation is not applied.
pub open spec fn spec_mat_mul_vector(a: Matrix, v: Vector) -> Vector {
    Vector {
        x: fxr(fx_add(fx_add(fx_mul(v.x.r(), a.m00.r()), fx_mul(v.y.r(), a.m10.r())), fx_mul(v.z.r(), a.m20.r()))),
        y: fxr(fx_add(fx_add(fx_mul(v.x.r(), a.m01.r()), fx_mul(v.y.r(), a.m11.r())), fx_mul(v.z.r(), a.m21.r()))),
        z: fxr(fx_add(fx_add(fx_mul(v.x.r(), a.m02.r()), fx_mul(v.y.r(), a.m12.r())), fx_mul(v.z.r(), a.m22.r()))),
    }
}

/// No entry of `a` differs from `b` by more than the shared tolerance.
pub open spec fn spec_mat_approx(a: Matrix, b: Matrix) -> bool {
    forall|c: int, r: int| 0 <= c < 4 && 0 <= r < 4 ==> abs_i(a.m(c, r) - b.m(c, r)) <= EPSILON
}

/// The translation transform.
pub open spec fn spec_translation(v: Vector) -> Matrix {
    Matrix { m30: v.x, m31: v.y, m32: v.z, ..spec_mat_identity() }
}

/// The axis-aligned scaling transform.
pub open spec fn spec_scaling(v: Vector) -> Matrix {
    Matrix { m00: v.x, m11: v.y, m22: v.z, m33: fxr(SCALE as int), ..spec_mat_zero() }
}

/// The shear transform.
pub open spec fn spec_shearing(xy: Fx, xz: Fx, yx: Fx, yz: Fx, zx: Fx, zy: Fx) -> Matrix {
    Matrix { m10: xy, m20: xz, m01: yx, m21: yz, m02: zx, m12: zy, ..spec_mat_identity() }
}

/// The view transform: an orthonormal orientation composed with the
/// translation taking the eye to the origin.
pub open spec fn spec_view(from: Point, to: Point, up: Vector) -> Matrix {
    let forward = spec_normalize(spec_pt_sub(from, to));
    let upn = spec_normalize(up);
    let right = spec_normalize(spec_cross(upn, forward));
    let up2 = spec_normalize(spec_cross(forward, right));
    let orientation = Matrix {
        m00: right.x, m01: up2.x, m02: forward.x, m03: fxr(0),
        m10: right.y, m11: up2.y, m12: forward.y, m13: fxr(0),
        m20: right.z, m21: up2.z, m22: forward.z, m23: fxr(0),
        m30: fxr(0), m31: fxr(0), m32: fxr(0), m33: fxr(SCALE as int),
    };
    spec_mat_mul(orientation, spec_translation(spec_vec_neg(Vector { x: from.x, y: from.y, z: from.z })))
}


/// Raw value of a 3x3 determinant, expanded along the first row.
pub open spec fn spec_det3(
    a: int, b: int, c: int,
    d: int, e: int, f: int,
    g: int, h: int, i: int,
) -> int {
    fx_add(
        fx_sub(
            fx_mul(a, fx_sub(fx_mul(e, i), fx_mul(f, h))),
            fx_mul(b, fx_sub(fx_mul(d, i), fx_mul(f, g))),
        ),
        fx_mul(c, fx_sub(fx_mul(d, h), fx_mul(e, g))),
    )
}

/// Raw value of the determinant: cofactor expansion along the first row.
pub open spec fn spec_det(m: Matrix) -> int {
    let c0 = spec_det3(
        m.m11.r(), m.m21.r(), m.m31.r(),
        m.m12.r(), m.m22.r(), m.m32.r(),
        m.m13.r(), m.m23.r(), m.m33.r(),
    );
    let c1 = spec_det3(
        m.m01.r(), m.m21.r(), m.m31.r(),
        m.m02.r(), m.m22.r(), m.m32.r(),
        m.m03.r(), m.m23.r(), m.m33.r(),
    );
    let c2 = spec_det3(
        m.m01.r(), m.m11.r(), m.m31.r(),
        m.m02.r(), m.m12.r(), m.m32.r(),
        m.m03.r(), m.m13.r(), m.m33.r(),
    );
    let c3 = spec_det3(
        m.m01.r(), m.m11.r(), m.m21.r(),
        m.m02.r(), m.m12.r(), m.m22.r(),
        m.m03.r(), m.m13.r(), m.m23.r(),
    );
    fx_add(
        fx_sub(fx_mul(m.m00.r(), c0), fx_mul(m.m10.r(), c1)),
        fx_sub(fx_mul(m.m20.r(), c2), fx_mul(m.m30.r(), c3)),
    )
}

/// A 3x3 determinant, expanded along the first row.
fn det3(a: Fx, b: Fx, c: Fx, d: Fx, e: Fx, f: Fx, g: Fx, h: Fx, i: Fx) -> (r: Fx)
    ensures
        r.r() == spec_det3(a.r(), b.r(), c.r(), d.r(), e.r(), f.r(), g.r(), h.r(), i.r()),
{
    a.mul(e.mul(i).sub(f.mul(h)))
        .sub(b.mul(d.mul(i).sub(f.mul(g))))
        .add(c.mul(d.mul(h).sub(e.mul(g))))
}

impl Matrix {
    /// The determinant of the transform.
    pub fn determinant(&self) -> (r: Fx)
        ensures
            r.r() == spec_det(*self),
    {
        let c0 = det3(
            self.m11, self.m21, self.m31,
            self.m12, self.m22, self.m32,
            self.m13, self.m23, self.m33,
        );
        let c1 = det3(
            self.m01, self.m21, self.m31,
            self.m02, self.m22, self.m32,
            self.m03, self.m23, self.m33,
        );
        let c2 = det3(
            self.m01, self.m11, self.m31,
            self.m02, self.m12, self.m32,
            self.m03, self.m13, self.m33,
        );
        let c3 = det3(
            self.m01, self.m11, self.m21,
            self.m02, self.m12, self.m22,
            self.m03, self.m13, self.m23,
        );
        self.m00.mul(c0).sub(self.m10.mul(c1)).add(self.m20.mul(c2).sub(self.m30.mul(c3)))
    }

    /// The cofactor-rule inverse candidate for a nonzero determinant.
    #[verifier::rlimit(100)]
    fn cofactor_inverse(&self, det: Fx) -> (inv: Matrix)
        requires
            det.r() == spec_det(*self),
            det.raw != 0,
        ensures
            inv == spec_inverse(*self),
    {
        proof {
            reveal(spec_inverse);
        }
        Matrix {
            m00: det3(self.m11, self.m21, self.m31, self.m12, self.m22, self.m32, self.m13, self.m23, self.m33).div(det),
            m01: det3(self.m01, self.m21, self.m31, self.m02, self.m22, self.m32, self.m03, self.m23, self.m33).neg().div(det),
            m02: det3(self.m01, self.m11, self.m31, self.m02, self.m12, self.m32, self.m03, self.m13, self.m33).div(det),
            m03: det3(self.m01, self.m11, self.m21, self.m02, self.m12, self.m22, self.m03, self.m13, self.m23).neg().div(det),
            m10: det3(self.m10, self.m20, self.m30, self.m12, self.m22, self.m32, self.m13, self.m23, self.m33).neg().div(det),
            m11: det3(self.m00, self.m20, self.m30, self.m02, self.m22, self.m32, self.m03, self.m23, self.m33).div(det),
            m12: det3(self.m00, self.m10, self.m30, self.m02, self.m12, self.m32, self.m03, self.m13, self.m33).neg().div(det),
            m13: det3(self.m00, self.m10, self.m20, self.m02, self.m12, self.m22, self.m03, self.m13, self.m23).div(det),
            m20: det3(self.m10, self.m20, self.m30, self.m11, self.m21, self.m31, self.m13, self.m23, self.m33).div(det),
            m21: det3(self.m00, self.m20, self.m30, self.m01, self.m21, self.m31, self.m03, self.m23, self.m33).neg().div(det),
            m22: det3(self.m00, self.m10, self.m30, self.m01, self.m11, self.m31, self.m03, self.m13, self.m33).div(det),
            m23: det3(self.m00, self.m10, self.m20, self.m01, self.m11, self.m21, self.m03, self.m13, self.m23).neg().div(det),
            m30: det3(self.m10, self.m20, self.m30, self.m11, self.m21, self.m31, self.m12, self.m22, self.m32).neg().div(det),
            m31: det3(self.m00, self.m20, self.m30, self.m01, self.m21, self.m31, self.m02, self.m22, self.m32).div(det),
            m32: det3(self.m00, self.m10, self.m30, self.m01, self.m11, self.m31, self.m02, self.m12, self.m32).neg().div(det),
            m33: det3(self.m00, self.m10, self.m20, self.m01, self.m11, self.m21, self.m02, self.m12, self.m22).div(det),
        }
    }

    /// The inverse transform, by the cofactor rule, verified as it is
    /// produced: each entry is the signed complementary minor over the
    /// determinant, and the candidate is only returned after both products
    /// with the original match the identity within the shared tolerance.
    /// `None` comes exactly when the determinant is zero or the residual
    /// check fails: a degenerate transform is a configuration error and is
    /// rejected rather than propagated.
    #[verifier::rlimit(100)]
    pub fn inverse(&self) -> (r: Option<Matrix>)
        ensures
            r is Some <==> spec_inverse_ok(*self),
            r matches Some(inv) ==> inv == spec_inverse(*self),
    {
        proof {
            reveal(spec_inverse_ok);
        }
        let det = self.determinant();
        if det.raw == 0 {
            return None;
        }
        let inv = self.cofactor_inverse(det);

        let id = Matrix::identity();
        if self.mul_mat(&inv).approx_eq(&id) && inv.mul_mat(self).approx_eq(&id) {
            Some(inv)
        } else {
            None
        }
    }
}

/// The cofactor inverse: entry by entry, the signed complementary minor
/// divided by the determinant.
#[verifier::opaque]
pub open spec fn spec_inverse(m: Matrix) -> Matrix
    recommends
        spec_det(m) != 0,
{
    let det = spec_det(m);
    Matrix {
        m00: fxr(fx_div(spec_det3(m.m11.r(), m.m21.r(), m.m31.r(), m.m12.r(), m.m22.r(), m.m32.r(), m.m13.r(), m.m23.r(), m.m33.r()), det)),
        m01: fxr(fx_div(fx_neg(spec_det3(m.m01.r(), m.m21.r(), m.m31.r(), m.m02.r(), m.m22.r(), m.m32.r(), m.m03.r(), m.m23.r(), m.m33.r())), det)),
        m02: fxr(fx_div(spec_det3(m.m01.r(), m.m11.r(), m.m31.r(), m.m02.r(), m.m12.r(), m.m32.r(), m.m03.r(), m.m13.r(), m.m33.r()), det)),
        m03: fxr(fx_div(fx_neg(spec_det3(m.m01.r(), m.m11.r(), m.m21.r(), m.m02.r(), m.m12.r(), m.m22.r(), m.m03.r(), m.m13.r(), m.m23.r())), det)),
        m10: fxr(fx_div(fx_neg(spec_det3(m.m10.r(), m.m20.r(), m.m30.r(), m.m12.r(), m.m22.r(), m.m32.r(), m.m13.r(), m.m23.r(), m.m33.r())), det)),
        m11: fxr(fx_div(spec_det3(m.m00.r(), m.m20.r(), m.m30.r(), m.m02.r(), m.m22.r(), m.m32.r(), m.m03.r(), m.m23.r(), m.m33.r()), det)),
        m12: fxr(fx_div(fx_neg(spec_det3(m.m00.r(), m.m10.r(), m.m30.r(), m.m02.r(), m.m12.r(), m.m32.r(), m.m03.r(), m.m13.r(), m.m33.r())), det)),
        m13: fxr(fx_div(spec_det3(m.m00.r(), m.m10.r(), m.m20.r(), m.m02.r(), m.m12.r(), m.m22.r(), m.m03.r(), m.m13.r(), m.m23.r()), det)),
        m20: fxr(fx_div(spec_det3(m.m10.r(), m.m20.r(), m.m30.r(), m.m11.r(), m.m21.r(), m.m31.r(), m.m13.r(), m.m23.r(), m.m33.r()), det)),
        m21: fxr(fx_div(fx_neg(spec_det3(m.m00.r(), m.m20.r(), m.m30.r(), m.m01.r(), m.m21.r(), m.m31.r(), m.m03.r(), m.m23.r(), m.m33.r())), det)),
        m22: fxr(fx_div(spec_det3(m.m00.r(), m.m10.r(), m.m30.r(), m.m01.r(), m.m11.r(), m.m31.r(), m.m03.r(), m.m13.r(), m.m33.r()), det)),
        m23: fxr(fx_div(fx_neg(spec_det3(m.m00.r(), m.m10.r(), m.m20.r(), m.m01.r(), m.m11.r(), m.m21.r(), m.m03.r(), m.m13.r(), m.m23.r())), det)),
        m30: fxr(fx_div(fx_neg(spec_det3(m.m10.r(), m.m20.r(), m.m30.r(), m.m11.r(), m.m21.r(), m.m31.r(), m.m12.r(), m.m22.r(), m.m32.r())), det)),
        m31: fxr(fx_div(spec_det3(m.m00.r(), m.m20.r(), m.m30.r(), m.m01.r(), m.m21.r(), m.m31.r(), m.m02.r(), m.m22.r(), m.m32.r()), det)),
        m32: fxr(fx_div(fx_neg(spec_det3(m.m00.r(), m.m10.r(), m.m30.r(), m.m01.r(), m.m11.r(), m.m31.r(), m.m02.r(), m.m12.r(), m.m32.r())), det)),
        m33: fxr(fx_div(spec_det3(m.m00.r(), m.m10.r(), m.m20.r(), m.m01.r(), m.m11.r(), m.m21.r(), m.m02.r(), m.m12.r(), m.m22.r()), det)),
    }
}

/// The inverse is delivered: the determinant is nonzero and both products
/// of the matrix with its cofactor inverse match the identity within the
/// shared tolerance.
#[verifier::opaque]
pub open spec fn spec_inverse_ok(m: Matrix) -> bool {
    spec_det(m) != 0 && spec_mat_approx(spec_mat_mul(m, spec_inverse(m)), spec_mat_identity())
        && spec_mat_approx(spec_mat_mul(spec_inverse(m), m), spec_mat_identity())
}


/// The rotation about the x axis by an angle in radians.
pub open spec fn spec_rotation_x(angle: int) -> Matrix {
    Matrix {
        m11: fxr(spec_cos(angle)),
        m12: fxr(spec_sin(angle)),
        m21: fxr(fx_neg(spec_sin(angle))),
        m22: fxr(spec_cos(angle)),
        ..spec_mat_identity()
    }
}

/// The rotation about the y axis by an angle in radians.
pub open spec fn spec_rotation_y(angle: int) -> Matrix {
    Matrix {
        m00: fxr(spec_cos(angle)),
        m02: fxr(fx_neg(spec_sin(angle))),
        m20: fxr(spec_sin(angle)),
        m22: fxr(spec_cos(angle)),
        ..spec_mat_identity()
    }
}

/// The rotation about the z axis by an angle in radians.
pub open spec fn spec_rotation_z(angle: int) -> Matrix {
    Matrix {
        m00: fxr(spec_cos(angle)),
        m01: fxr(spec_sin(angle)),
        m10: fxr(fx_neg(spec_sin(angle))),
        m11: fxr(spec_cos(angle)),
        ..spec_mat_identity()
    }
}

/// The combined rotation: roll about z, then yaw about y, then pitch about x,
/// composed as z-rotation times y-rotation times x-rotation.
pub open spec fn spec_rotation(pitch: int, yaw: int, roll: int) -> Matrix {
    spec_mat_mul(spec_mat_mul(spec_rotation_z(roll), spec_rotation_y(yaw)), spec_rotation_x(pitch))
}

/// The perspective projection matrix entries, defined where no denominator
/// vanishes.
pub open spec fn spec_projection(fov: int, ratio: int, near: int, far: int) -> Matrix {
    let h = fx_div(fov, 2 * SCALE);
    let tanh = fx_div(spec_sin(h), spec_cos(h));
    let ff = fx_div(SCALE as int, tanh);
    let range = fx_sub(near, far);
    Matrix {
        m00: fxr(fx_div(ff, ratio)),
        m11: fxr(fx_neg(ff)),
        m22: fxr(fx_div(far, range)),
        m23: fxr(-SCALE as int),
        m32: fxr(fx_div(fx_mul(far, near), range)),
        ..spec_mat_zero()
    }
}

/// Every denominator of the projection is nonzero: the half-angle cosine,
/// the half-angle tangent, the aspect ratio, and the near-far range.
pub open spec fn spec_projection_defined(fov: int, ratio: int, near: int, far: int) -> bool {
    let h = fx_div(fov, 2 * SCALE);
    spec_cos(h) != 0 && fx_div(spec_sin(h), spec_cos(h)) != 0 && ratio != 0 && fx_sub(near, far)
        != 0
}

impl Matrix {
    /// The rotation about the x axis by an angle in radians.
    pub fn rotation_x(angle: Fx) -> (m: Matrix)
        ensures
            m == spec_rotation_x(angle.r()),
    {
        let c = crate::trig::cos(angle);
        let s = crate::trig::sin(angle);
        let mut r = Matrix::identity();
        r.m11 = c;
        r.m12 = s;
        r.m21 = s.neg();
        r.m22 = c;
        r
    }

    /// The rotation about the y axis by an angle in radians.
    pub fn rotation_y(angle: Fx) -> (m: Matrix)
        ensures
            m == spec_rotation_y(angle.r()),
    {
        let c = crate::trig::cos(angle);
        let s = crate::trig::sin(angle);
        let mut r = Matrix::identity();
        r.m00 = c;
        r.m02 = s.neg();
        r.m20 = s;
        r.m22 = c;
        r
    }

    /// The rotation about the z axis by an angle in radians.
    pub fn rotation_z(angle: Fx) -> (m: Matrix)
        ensures
            m == spec_rotation_z(angle.r()),
    {
        let c = crate::trig::cos(angle);
        let s = crate::trig::sin(angle);
        let mut r = Matrix::identity();
        r.m00 = c;
        r.m01 = s;
        r.m10 = s.neg();
        r.m11 = c;
        r
    }

    /// The combined rotation from pitch, yaw and roll, in radians.
    pub fn rotation(pitch: Fx, yaw: Fx, roll: Fx) -> (m: Matrix)
        ensures
            m == spec_rotation(pitch.r(), yaw.r(), roll.r()),
    {
        Matrix::rotation_z(roll).mul_mat(&Matrix::rotation_y(yaw)).mul_mat(
            &Matrix::rotation_x(pitch),
        )
    }

    /// The perspective projection, or `None` when a denominator vanishes:
    /// a degenerate field of view, aspect ratio or depth range is a
    /// configuration error and is rejected.
    pub fn projection(fov: Fx, ratio: Fx, near: Fx, far: Fx) -> (m: Option<Matrix>)
        ensures
            m is Some <==> spec_projection_defined(fov.r(), ratio.r(), near.r(), far.r()),
            m matches Some(p) ==> p == spec_projection(fov.r(), ratio.r(), near.r(), far.r()),
    {
        let h = fov.div(Fx::from_int(2));
        let c = crate::trig::cos(h);
        if c.raw == 0 {
            return None;
        }
        let tanh = crate::trig::sin(h).div(c);
        if tanh.raw == 0 {
            return None;
        }
        if ratio.raw == 0 {
            return None;
        }
        let range = near.sub(far);
        if range.raw == 0 {
            return None;
        }
        let ff = Fx::one().div(tanh);
        let mut p = Matrix::new();
        p.m00 = ff.div(ratio);
        p.m11 = ff.neg();
        p.m22 = far.div(range);
        p.m23 = Fx { raw: -SCALE };
        p.m32 = far.mul(near).div(range);
        Some(p)
    }
}


/// The identity transform composed with itself is itself, and any matrix is
/// within tolerance of itself.
pub proof fn lemma_identity_consistent()
    ensures
        spec_mat_mul(spec_mat_identity(), spec_mat_identity()) == spec_mat_identity(),
        spec_mat_approx(spec_mat_identity(), spec_mat_identity()),
{
    crate::fixed::lemma_tdiv_exact(SCALE as int, SCALE as int);
    assert(fx_mul(SCALE as int, SCALE as int) == SCALE as int);
    assert(fx_mul(0, 0) == 0);
    assert(fx_mul(SCALE as int, 0) == 0) by {
        crate::fixed::lemma_tdiv_exact(0, SCALE as int);
    }
    assert(fx_mul(0, SCALE as int) == 0) by {
        crate::fixed::lemma_tdiv_exact(0, SCALE as int);
    }
    assert(spec_mat_mul(spec_mat_identity(), spec_mat_identity()) == spec_mat_identity());
}


/// Law: composing two translations is the translation by the summed
/// displacement, exactly, for displacements away from the bottom of the
/// machine range.
pub proof fn lemma_translation_compose(v1: Vector, v2: Vector)
    requires
        v1.x.raw > i64::MIN,
        v1.y.raw > i64::MIN,
        v1.z.raw > i64::MIN,
        v2.x.raw > i64::MIN,
        v2.y.raw > i64::MIN,
        v2.z.raw > i64::MIN,
    ensures
        spec_mat_mul(spec_translation(v1), spec_translation(v2)) == spec_translation(
            crate::vector::spec_vec_add(v1, v2),
        ),
{
    crate::fixed::lemma_fx_mul_whole(SCALE as int, 1);
    crate::fixed::lemma_fx_mul_whole(SCALE as int, 0);
    crate::fixed::lemma_fx_mul_whole(0, 0);
    crate::fixed::lemma_fx_mul_whole(0, 1);
    crate::fixed::lemma_fx_mul_whole(v1.x.r(), 0);
    crate::fixed::lemma_fx_mul_whole(v1.y.r(), 0);
    crate::fixed::lemma_fx_mul_whole(v1.z.r(), 0);
    crate::fixed::lemma_fx_mul_whole(v2.x.r(), 0);
    crate::fixed::lemma_fx_mul_whole(v2.y.r(), 0);
    crate::fixed::lemma_fx_mul_whole(v2.z.r(), 0);
    crate::fixed::lemma_fx_mul_whole(v1.x.r(), 1);
    crate::fixed::lemma_fx_mul_whole(v1.y.r(), 1);
    crate::fixed::lemma_fx_mul_whole(v1.z.r(), 1);
    crate::fixed::lemma_fx_mul_whole(v2.x.r(), 1);
    crate::fixed::lemma_fx_mul_whole(v2.y.r(), 1);
    crate::fixed::lemma_fx_mul_whole(v2.z.r(), 1);
    let lhs = spec_mat_mul(spec_translation(v1), spec_translation(v2));
    let rhs = spec_translation(crate::vector::spec_vec_add(v1, v2));
    assert(lhs.m00 == rhs.m00);
    assert(lhs.m01 == rhs.m01);
    assert(lhs.m02 == rhs.m02);
    assert(lhs.m03 == rhs.m03);
    assert(lhs.m10 == rhs.m10);
    assert(lhs.m11 == rhs.m11);
    assert(lhs.m12 == rhs.m12);
    assert(lhs.m13 == rhs.m13);
    assert(lhs.m20 == rhs.m20);
    assert(lhs.m21 == rhs.m21);
    assert(lhs.m22 == rhs.m22);
    assert(lhs.m23 == rhs.m23);
    assert(lhs.m30 == rhs.m30);
    assert(lhs.m31 == rhs.m31);
    assert(lhs.m32 == rhs.m32);
    assert(lhs.m33 == rhs.m33);
}

/// Law: reflecting about any of the six axis-aligned unit normals sends
/// the dot product with the normal to its exact negation, for vectors of
/// at most half the machine range.
#[verifier::rlimit(60)]
pub proof fn lemma_reflect_axis_normal(v: Vector, n: Vector)
    requires
        (n == (Vector { x: fxr(SCALE as int), y: fxr(0), z: fxr(0) }) || n == (Vector {
            x: fxr(-SCALE as int),
            y: fxr(0),
            z: fxr(0),
        }) || n == (Vector { x: fxr(0), y: fxr(SCALE as int), z: fxr(0) }) || n == (Vector {
            x: fxr(0),
            y: fxr(-SCALE as int),
            z: fxr(0),
        }) || n == (Vector { x: fxr(0), y: fxr(0), z: fxr(SCALE as int) }) || n == (Vector {
            x: fxr(0),
            y: fxr(0),
            z: fxr(-SCALE as int),
        })),
        crate::fixed::abs_i(v.x.r()) <= (crate::fixed::MAX_RAW as int) / 2,
        crate::fixed::abs_i(v.y.r()) <= (crate::fixed::MAX_RAW as int) / 2,
        crate::fixed::abs_i(v.z.r()) <= (crate::fixed::MAX_RAW as int) / 2,
    ensures
        crate::vector::spec_dot(crate::vector::spec_reflect(v, n), n) == -crate::vector::spec_dot(
            v,
            n,
        ),
{
    crate::fixed::lemma_fx_mul_whole(v.x.r(), 1);
    crate::fixed::lemma_fx_mul_whole(v.y.r(), 1);
    crate::fixed::lemma_fx_mul_whole(v.z.r(), 1);
    crate::fixed::lemma_fx_mul_whole(v.x.r(), -1);
    crate::fixed::lemma_fx_mul_whole(v.y.r(), -1);
    crate::fixed::lemma_fx_mul_whole(v.z.r(), -1);
    crate::fixed::lemma_fx_mul_whole(v.x.r(), 0);
    crate::fixed::lemma_fx_mul_whole(v.y.r(), 0);
    crate::fixed::lemma_fx_mul_whole(v.z.r(), 0);
    crate::fixed::lemma_fx_mul_whole(SCALE as int, 2);
    crate::fixed::lemma_fx_mul_whole(-SCALE as int, 2);
    crate::fixed::lemma_fx_mul_whole(0, 2);
    crate::fixed::lemma_fx_mul_whole(0, 0);
    crate::fixed::lemma_fx_mul_whole(0, 1);
    crate::fixed::lemma_fx_mul_whole(SCALE as int, 0);
    crate::fixed::lemma_fx_mul_whole(SCALE as int, 1);
    let d = crate::vector::spec_dot(v, n);
    crate::fixed::lemma_fx_mul_whole(d, 2);
    crate::fixed::lemma_fx_mul_whole(d, -2);
    crate::fixed::lemma_fx_mul_whole(d, 0);
    crate::fixed::lemma_fx_mul_whole(d, 1);
    crate::fixed::lemma_fx_mul_whole(fx_sub(v.x.r(), crate::fixed::fx_mul(2 * SCALE, d)), 1);
    crate::fixed::lemma_fx_mul_whole(fx_sub(v.x.r(), crate::fixed::fx_mul(2 * SCALE, d)), -1);
    crate::fixed::lemma_fx_mul_whole(fx_sub(v.x.r(), crate::fixed::fx_mul(-2 * SCALE, d)), 1);
    crate::fixed::lemma_fx_mul_whole(fx_sub(v.x.r(), crate::fixed::fx_mul(-2 * SCALE, d)), -1);
    crate::fixed::lemma_fx_mul_whole(fx_sub(v.y.r(), crate::fixed::fx_mul(2 * SCALE, d)), 1);
    crate::fixed::lemma_fx_mul_whole(fx_sub(v.y.r(), crate::fixed::fx_mul(2 * SCALE, d)), -1);
    crate::fixed::lemma_fx_mul_whole(fx_sub(v.y.r(), crate::fixed::fx_mul(-2 * SCALE, d)), 1);
    crate::fixed::lemma_fx_mul_whole(fx_sub(v.y.r(), crate::fixed::fx_mul(-2 * SCALE, d)), -1);
    crate::fixed::lemma_fx_mul_whole(fx_sub(v.z.r(), crate::fixed::fx_mul(2 * SCALE, d)), 1);
    crate::fixed::lemma_fx_mul_whole(fx_sub(v.z.r(), crate::fixed::fx_mul(2 * SCALE, d)), -1);
    crate::fixed::lemma_fx_mul_whole(fx_sub(v.z.r(), crate::fixed::fx_mul(-2 * SCALE, d)), 1);
    crate::fixed::lemma_fx_mul_whole(fx_sub(v.z.r(), crate::fixed::fx_mul(-2 * SCALE, d)), -1);
}


/// The identity transform is its own cofactor inverse, with determinant
/// one, and it passes its own residual check.
pub proof fn lemma_identity_invertible()
    ensures
        spec_det(spec_mat_identity()) == SCALE,
        spec_inverse(spec_mat_identity()) == spec_mat_identity(),
        spec_inverse_ok(spec_mat_identity()),
{
    reveal(spec_inverse);
    reveal(spec_inverse_ok);
    lemma_identity_consistent();
    crate::fixed::lemma_tdiv_exact(SCALE as int, SCALE as int);
    crate::fixed::lemma_tdiv_exact(0, SCALE as int);
    crate::fixed::lemma_fx_mul_whole(SCALE as int, 1);
    crate::fixed::lemma_fx_mul_whole(SCALE as int, 0);
    crate::fixed::lemma_fx_mul_whole(0, 1);
    crate::fixed::lemma_fx_mul_whole(0, 0);
    assert(fx_mul(SCALE as int, SCALE as int) == SCALE as int);
    assert(fx_mul(SCALE as int, 0) == 0);
    assert(fx_mul(0, SCALE as int) == 0);
    assert(fx_mul(0, 0) == 0);
    assert(fx_div(SCALE as int, SCALE as int) == SCALE as int);
    assert(fx_div(0, SCALE as int) == 0);
    assert(fx_neg(0) == 0);
    assert(spec_det(spec_mat_identity()) == SCALE);
    assert(spec_inverse(spec_mat_identity()) == spec_mat_identity());
}

} // verus!
