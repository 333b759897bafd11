//! Fixed-point scalar arithmetic.
//!
//! Every coordinate, color channel and matrix entry in this crate is an `Fx`:
//! a signed fixed-point number holding `raw / SCALE` with `SCALE = 100_000`.
//! All operations are total: results outside the representable range saturate
//! to the largest magnitude, and each operation's contract states the exact
//! raw value produced, so every computation built from these is pinned down.
use vstd::prelude::*;

verus! {

/// Number of raw units in one whole unit: values have five decimal places.
pub const SCALE: i64 = 100_000;

/// Largest raw magnitude a fixed-point number may hold.
pub const MAX_RAW: i64 = 9_223_372_036_854_775_807;

/// Shared tolerance, in raw units, for approximate comparisons, root
/// rejection and surface offsets: 0.001 in scaled units.
pub const EPSILON: i64 = 100;

/// Magnitude of an integer.
pub open spec fn abs_i(a: int) -> int {
    if a >= 0 {
        a
    } else {
        -a
    }
}

/// Saturation: clamp a mathematical integer into the representable raw range.
pub open spec fn sat(x: int) -> int {
    if x > MAX_RAW {
        MAX_RAW as int
    } else if x < -MAX_RAW {
        -MAX_RAW as int
    } else {
        x
    }
}

/// Division truncated toward zero, as the machine performs it.
pub open spec fn tdiv(a: int, b: int) -> int
    recommends
        b != 0,
{
    if (a >= 0) == (b >= 0) {
        abs_i(a) / abs_i(b)
    } else {
        -(abs_i(a) / abs_i(b))
    }
}

/// Raw value of a fixed-point sum.
pub open spec fn fx_add(a: int, b: int) -> int {
    sat(a + b)
}

/// Raw value of a fixed-point difference.
pub open spec fn fx_sub(a: int, b: int) -> int {
    sat(a - b)
}

/// Raw value of a fixed-point negation.
pub open spec fn fx_neg(a: int) -> int {
    sat(-a)
}

/// Raw value of a fixed-point product: the exact product is rescaled with
/// truncation toward zero, then saturated.
pub open spec fn fx_mul(a: int, b: int) -> int {
    sat(tdiv(a * b, SCALE as int))
}

/// Raw value of a fixed-point quotient, truncated toward zero, saturated.
pub open spec fn fx_div(a: int, b: int) -> int
    recommends
        b != 0,
{
    sat(tdiv(a * (SCALE as int), b))
}

/// Raw value of a fixed-point absolute value.
pub open spec fn fx_abs(a: int) -> int {
    sat(abs_i(a))
}

/// Integer square root: the largest r with r * r <= n (0 for negative n).
pub open spec fn isqrt_s(n: int) -> int
    decreases n,
{
    if n < 1 {
        0
    } else {
        let r = 2 * isqrt_s(n / 4);
        if (r + 1) * (r + 1) <= n {
            r + 1
        } else {
            r
        }
    }
}

/// Raw value of a fixed-point square root: sqrt(a / S) = isqrt(a * S) / S.
pub open spec fn fx_sqrt(a: int) -> int {
    isqrt_s(a * (SCALE as int))
}

/// Raw value of a fixed-point power with natural exponent, by squaring.
pub open spec fn fx_powi(a: int, n: nat) -> int
    decreases n,
{
    if n == 0 {
        SCALE as int
    } else if n % 2 == 0 {
        let h = fx_powi(a, n / 2);
        fx_mul(h, h)
    } else {
        fx_mul(fx_powi(a, (n - 1) as nat), a)
    }
}

/// Approximate equality of raw values, within the shared tolerance.
pub open spec fn approx(a: int, b: int) -> bool {
    abs_i(a - b) < EPSILON
}

/// Truncated division of an exact multiple is exact.
pub proof fn lemma_tdiv_exact(a: int, b: int)
    requires
        b > 0,
    ensures
        tdiv(a * b, b) == a,
{
    if a >= 0 {
        assert(a * b >= 0) by (nonlinear_arith)
            requires
                a >= 0 && b > 0,
        ;
        vstd::arithmetic::div_mod::lemma_div_multiples_vanish(a, b);
        assert(b * a == a * b) by (nonlinear_arith);
    } else {
        assert(a * b < 0) by (nonlinear_arith)
            requires
                a < 0 && b > 0,
        ;
        assert((-a) * b == -(a * b)) by (nonlinear_arith);
        vstd::arithmetic::div_mod::lemma_div_multiples_vanish(-a, b);
        assert(b * (-a) == (-a) * b) by (nonlinear_arith);
    }
}

/// Multiplying by a whole number held on the scale grid only scales:
/// `a * (k S) / S` is exactly `a k`, then saturated.
pub proof fn lemma_fx_mul_whole(a: int, k: int)
    ensures
        fx_mul(a, k * SCALE) == sat(a * k),
        fx_mul(k * SCALE, a) == sat(a * k),
{
    assert(a * (k * (SCALE as int)) == (a * k) * (SCALE as int)) by (nonlinear_arith);
    assert((k * (SCALE as int)) * a == (a * k) * (SCALE as int)) by (nonlinear_arith);
    lemma_tdiv_exact(a * k, SCALE as int);
}

/// Dividing by one is exact up to saturation.
pub proof fn lemma_fx_div_one(a: int)
    ensures
        fx_div(a, SCALE as int) == sat(a),
{
    lemma_tdiv_exact(a, SCALE as int);
}

/// A product of nonnegative values never rescales below zero.
pub proof fn lemma_fx_mul_nonneg(a: int, b: int)
    requires
        a >= 0,
        b >= 0,
    ensures
        fx_mul(a, b) >= 0,
{
    assert(a * b >= 0) by (nonlinear_arith)
        requires
            a >= 0 && b >= 0,
    ;
}

/// A product with a factor of at most one never grows the other factor.
pub proof fn lemma_fx_mul_le(a: int, b: int)
    requires
        0 <= a <= SCALE,
        0 <= b,
    ensures
        0 <= fx_mul(a, b) <= b,
{
    assert(0 <= a * b <= (SCALE as int) * b) by (nonlinear_arith)
        requires
            0 <= a <= SCALE && 0 <= b,
    ;
    lemma_tdiv_exact(b, SCALE as int);
    assert(b * (SCALE as int) == (SCALE as int) * b) by (nonlinear_arith);
    vstd::arithmetic::div_mod::lemma_div_is_ordered(a * b, (SCALE as int) * b, SCALE as int);
}

/// The integer square root is nonnegative and brackets its argument.
pub proof fn lemma_isqrt(n: int)
    ensures
        isqrt_s(n) >= 0,
        n >= 0 ==> isqrt_s(n) * isqrt_s(n) <= n,
        n >= 0 ==> n < (isqrt_s(n) + 1) * (isqrt_s(n) + 1),
    decreases n,
{
    if n < 1 {
    } else {
        lemma_isqrt(n / 4);
        let q = isqrt_s(n / 4);
        let r = 2 * q;
        assert(4 * (n / 4) <= n && n < 4 * (n / 4) + 4) by (nonlinear_arith);
        assert(r * r <= 4 * (n / 4)) by (nonlinear_arith)
            requires
                q * q <= n / 4,
                r == 2 * q,
        ;
        assert(4 * (n / 4) + 4 <= (r + 2) * (r + 2)) by (nonlinear_arith)
            requires
                n / 4 < (q + 1) * (q + 1),
                r == 2 * q,
        ;
        assert(((r + 1) + 1) * ((r + 1) + 1) == (r + 2) * (r + 2)) by (nonlinear_arith);
        if (r + 1) * (r + 1) <= n {
            assert(isqrt_s(n) == r + 1);
        } else {
            assert(isqrt_s(n) == r);
        }
    }
}

/// Any nonnegative bracketing root is the integer square root.
pub proof fn lemma_isqrt_unique(n: int, r: int)
    requires
        r >= 0,
        r * r <= n,
        n < (r + 1) * (r + 1),
    ensures
        r == isqrt_s(n),
{
    lemma_isqrt(n);
    let s = isqrt_s(n);
    if r < s {
        assert((r + 1) * (r + 1) <= s * s) by (nonlinear_arith)
            requires
                0 <= r < s,
        ;
    }
    if s < r {
        assert((s + 1) * (s + 1) <= r * r) by (nonlinear_arith)
            requires
                0 <= s < r,
        ;
    }
}

/// The product of two machine-word values fits in a double-width word.
proof fn lemma_i64_product_bounded(a: int, b: int)
    requires
        -0x8000_0000_0000_0000 <= a <= 0x7fff_ffff_ffff_ffff,
        -0x8000_0000_0000_0000 <= b <= 0x7fff_ffff_ffff_ffff,
    ensures
        -0x4000_0000_0000_0000_0000_0000_0000_0000 < a * b,
        a * b < 0x4000_0000_0000_0000_0000_0000_0000_0001,
{
    assert(-0x4000_0000_0000_0000_0000_0000_0000_0000 < a * b
        && a * b < 0x4000_0000_0000_0000_0000_0000_0000_0001) by (nonlinear_arith)
        requires
            -0x8000_0000_0000_0000 <= a <= 0x7fff_ffff_ffff_ffff,
            -0x8000_0000_0000_0000 <= b <= 0x7fff_ffff_ffff_ffff,
    ;
}

/// A fixed-point number: the value `raw / SCALE`.
#[derive(Clone, Copy, Debug, PartialEq, Eq, Structural)]
pub struct Fx {
    pub raw: i64,
}

/// Saturating conversion from a wide intermediate back to a raw value.
fn sat_i128(x: i128) -> (r: i64)
    ensures
        r as int == sat(x as int),
{
    if x > MAX_RAW as i128 {
        MAX_RAW
    } else if x < -(MAX_RAW as i128) {
        -MAX_RAW
    } else {
        x as i64
    }
}

/// Truncated division on wide intermediates, bounded away from overflow.
fn tdiv_i128(a: i128, b: i128) -> (r: i128)
    requires
        b != 0,
        -0x4000_0000_0000_0000_0000_0000_0000_0000 < a,
        -0x4000_0000_0000_0000_0000_0000_0000_0000 < b,
    ensures
        r as int == tdiv(a as int, b as int),
{
    let am: u128 = if a < 0 {
        (-a) as u128
    } else {
        a as u128
    };
    let bm: u128 = if b < 0 {
        (-b) as u128
    } else {
        b as u128
    };
    let q: u128 = am / bm;
    if (a < 0) == (b < 0) {
        q as i128
    } else {
        -(q as i128)
    }
}

impl Fx {
    /// The raw units this number holds.
    pub open spec fn r(self) -> int {
        self.raw as int
    }

    /// Build a number from its raw units.
    pub fn new_raw(raw: i64) -> (r: Fx)
        ensures
            r.raw == raw,
    {
        Fx { raw }
    }

    /// The number zero.
    pub fn zero() -> (r: Fx)
        ensures
            r.raw == 0,
    {
        Fx { raw: 0 }
    }

    /// The number one.
    pub fn one() -> (r: Fx)
        ensures
            r.raw == SCALE,
    {
        Fx { raw: SCALE }
    }

    /// The whole number `v`.
    pub fn from_int(v: i64) -> (r: Fx)
        ensures
            r.r() == sat(v * (SCALE as int)),
    {
        proof {
            lemma_i64_product_bounded(v as int, SCALE as int);
        }
        Fx { raw: sat_i128((v as i128) * (SCALE as i128)) }
    }

    /// The number `v / 1000`: thousandths are exactly representable.
    pub fn from_milli(v: i64) -> (r: Fx)
        ensures
            r.r() == sat(v * ((SCALE as int) / 1000)),
    {
        proof {
            lemma_i64_product_bounded(v as int, (SCALE / 1000) as int);
        }
        Fx { raw: sat_i128((v as i128) * ((SCALE / 1000) as i128)) }
    }

    /// Sum.
    pub fn add(self, o: Fx) -> (r: Fx)
        ensures
            r.r() == fx_add(self.r(), o.r()),
    {
        Fx { raw: sat_i128((self.raw as i128) + (o.raw as i128)) }
    }

    /// Difference.
    pub fn sub(self, o: Fx) -> (r: Fx)
        ensures
            r.r() == fx_sub(self.r(), o.r()),
    {
        Fx { raw: sat_i128((self.raw as i128) - (o.raw as i128)) }
    }

    /// Negation.
    pub fn neg(self) -> (r: Fx)
        ensures
            r.r() == fx_neg(self.r()),
    {
        Fx { raw: sat_i128(-(self.raw as i128)) }
    }

    /// Product, rescaled with truncation toward zero.
    pub fn mul(self, o: Fx) -> (r: Fx)
        ensures
            r.r() == fx_mul(self.r(), o.r()),
    {
        proof {
            lemma_i64_product_bounded(self.raw as int, o.raw as int);
        }
        let wide: i128 = (self.raw as i128) * (o.raw as i128);
        Fx { raw: sat_i128(tdiv_i128(wide, SCALE as i128)) }
    }

    /// Quotient, truncated toward zero.
    pub fn div(self, o: Fx) -> (r: Fx)
        requires
            o.raw != 0,
        ensures
            r.r() == fx_div(self.r(), o.r()),
    {
        proof {
            lemma_i64_product_bounded(self.raw as int, SCALE as int);
        }
        let wide: i128 = (self.raw as i128) * (SCALE as i128);
        Fx { raw: sat_i128(tdiv_i128(wide, o.raw as i128)) }
    }

    /// Absolute value.
    pub fn abs(self) -> (r: Fx)
        ensures
            r.r() == fx_abs(self.r()),
    {
        if self.raw < 0 {
            Fx { raw: sat_i128(-(self.raw as i128)) }
        } else {
            self
        }
    }

    /// The smaller of two numbers.
    pub fn min(self, o: Fx) -> (r: Fx)
        ensures
            r.r() == if self.r() <= o.r() {
                self.r()
            } else {
                o.r()
            },
    {
        if self.raw <= o.raw {
            self
        } else {
            o
        }
    }

    /// The larger of two numbers.
    pub fn max(self, o: Fx) -> (r: Fx)
        ensures
            r.r() == if self.r() >= o.r() {
                self.r()
            } else {
                o.r()
            },
    {
        if self.raw >= o.raw {
            self
        } else {
            o
        }
    }

    /// Clamp into the closed interval `[lo, hi]`.
    pub fn clamp(self, lo: Fx, hi: Fx) -> (r: Fx)
        requires
            lo.raw <= hi.raw,
        ensures
            r.r() == if self.r() < lo.r() {
                lo.r()
            } else if self.r() > hi.r() {
                hi.r()
            } else {
                self.r()
            },
    {
        if self.raw < lo.raw {
            lo
        } else if self.raw > hi.raw {
            hi
        } else {
            self
        }
    }

    /// Square root of a nonnegative number, truncated to the raw grid.
    pub fn sqrt(self) -> (r: Fx)
        requires
            self.raw >= 0,
        ensures
            r.r() == fx_sqrt(self.r()),
            r.raw >= 0,
    {
        proof {
            assert((self.raw as int) * (SCALE as int) < 0x1_0000_0000_0000_0000_0000_0000int)
                by (nonlinear_arith)
                requires
                    0 <= self.raw <= 0x7fff_ffff_ffff_ffffi64,
            ;
        }
        let n: u128 = (self.raw as u128) * (SCALE as u128);
        let root: u128 = isqrt_u128(n);
        proof {
            lemma_isqrt_unique(n as int, root as int);
        }
        Fx { raw: root as i64 }
    }

    /// Power with a natural exponent, by squaring: far fewer roundings
    /// than a plain product chain.
    pub fn powi(self, n: u32) -> (r: Fx)
        ensures
            r.r() == fx_powi(self.r(), n as nat),
        decreases n,
    {
        if n == 0 {
            Fx::one()
        } else if n % 2 == 0 {
            let h = self.powi(n / 2);
            h.mul(h)
        } else {
            self.powi(n - 1).mul(self)
        }
    }
}

impl Fx {
    /// The number rounded down to a whole number of units.
    pub fn floor_units(self) -> (r: i64)
        ensures
            r as int == self.r() / (SCALE as int),
    {
        if self.raw >= 0 {
            self.raw / SCALE
        } else {
            let m: u128 = (-(self.raw as i128)) as u128;
            let q: u128 = m / (SCALE as u128);
            let rem: u128 = m % (SCALE as u128);
            proof {
                vstd::arithmetic::div_mod::lemma_fundamental_div_mod(m as int, SCALE as int);
                if rem == 0 {
                    vstd::arithmetic::div_mod::lemma_fundamental_div_mod_converse_div(
                        self.raw as int,
                        SCALE as int,
                        -(q as int),
                        0,
                    );
                } else {
                    vstd::arithmetic::div_mod::lemma_fundamental_div_mod_converse_div(
                        self.raw as int,
                        SCALE as int,
                        -(q as int) - 1,
                        (SCALE as int) - (rem as int),
                    );
                }
            }
            if rem == 0 {
                -(q as i64)
            } else {
                -(q as i64) - 1
            }
        }
    }

    /// The remainder of the number against one whole unit: the raw offset
    /// into its unit cell, always in [0, SCALE).
    pub fn rem_units(self) -> (r: i64)
        ensures
            r as int == self.r() % (SCALE as int),
            0 <= r < SCALE,
    {
        if self.raw >= 0 {
            self.raw % SCALE
        } else {
            let m: u128 = (-(self.raw as i128)) as u128;
            let q: u128 = m / (SCALE as u128);
            let rem: u128 = m % (SCALE as u128);
            proof {
                vstd::arithmetic::div_mod::lemma_fundamental_div_mod(m as int, SCALE as int);
                if rem == 0 {
                    vstd::arithmetic::div_mod::lemma_fundamental_div_mod_converse_mod(
                        self.raw as int,
                        SCALE as int,
                        -(q as int),
                        0,
                    );
                } else {
                    vstd::arithmetic::div_mod::lemma_fundamental_div_mod_converse_mod(
                        self.raw as int,
                        SCALE as int,
                        -(q as int) - 1,
                        (SCALE as int) - (rem as int),
                    );
                }
            }
            if rem == 0 {
                0
            } else {
                SCALE - (rem as i64)
            }
        }
    }
}

/// Truncated remainder: the remainder of machine division, carrying the
/// sign of the dividend.
pub open spec fn fx_trem(a: int, m: int) -> int
    recommends
        m != 0,
{
    if a >= 0 {
        abs_i(a) % abs_i(m)
    } else {
        -(abs_i(a) % abs_i(m))
    }
}

impl Fx {
    /// The truncated remainder against a nonzero modulus.
    pub fn rem(self, m: Fx) -> (r: Fx)
        requires
            m.raw != 0,
        ensures
            r.r() == fx_trem(self.r(), m.r()),
    {
        let am: u128 = if self.raw < 0 {
            (-(self.raw as i128)) as u128
        } else {
            self.raw as u128
        };
        let mm: u128 = if m.raw < 0 {
            (-(m.raw as i128)) as u128
        } else {
            m.raw as u128
        };
        let rm: u128 = am % mm;
        if self.raw < 0 {
            Fx { raw: -(rm as i64) }
        } else {
            Fx { raw: rm as i64 }
        }
    }
}

/// Whether a number of whole units is even.
pub fn units_even(n: i64) -> (r: bool)
    requires
        -4_611_686_018_427_387_903 <= n <= 4_611_686_018_427_387_903,
    ensures
        r == ((n as int) % 2 == 0),
{
    if n >= 0 {
        n % 2 == 0
    } else {
        let m: i64 = -n;
        let q: i64 = m / 2;
        let rem: i64 = m % 2;
        proof {
            vstd::arithmetic::div_mod::lemma_fundamental_div_mod(m as int, 2);
            if rem == 0 {
                vstd::arithmetic::div_mod::lemma_fundamental_div_mod_converse_mod(
                    n as int,
                    2,
                    -(q as int),
                    0,
                );
            } else {
                vstd::arithmetic::div_mod::lemma_fundamental_div_mod_converse_mod(
                    n as int,
                    2,
                    -(q as int) - 1,
                    1,
                );
            }
        }
        rem == 0
    }
}

/// Integer square root of a wide unsigned value, by bisection.
fn isqrt_u128(n: u128) -> (r: u128)
    requires
        n < 0x1_0000_0000_0000_0000_0000_0000,  // 2^96
    ensures
        r * r <= n < (r + 1) * (r + 1),
        r < 0x1_0000_0000_0000,  // 2^48
{
    let mut lo: u128 = 0;
    let mut hi: u128 = 0x1_0000_0000_0000;  // 2^48, so hi * hi = 2^96 > n
    proof {
        assert((0x1_0000_0000_0000u128 as int) * (0x1_0000_0000_0000u128 as int) == (
        0x1_0000_0000_0000_0000_0000_0000u128 as int)) by (nonlinear_arith);
    }
    while hi - lo > 1
        invariant
            lo < hi <= 0x1_0000_0000_0000,
            lo * lo <= n,
            n < hi * hi,
        decreases hi - lo,
    {
        let mid: u128 = lo + (hi - lo) / 2;
        proof {
            assert(mid * mid <= 0x1_0000_0000_0000_0000_0000_0000) by (nonlinear_arith)
                requires
                    0 <= mid <= 0x1_0000_0000_0000,
            ;
        }
        if mid * mid <= n {
            lo = mid;
        } else {
            hi = mid;
        }
    }
    proof {
        assert(n < (lo + 1) * (lo + 1)) by (nonlinear_arith)
            requires
                hi == lo + 1,
                n < hi * hi,
        ;
    }
    lo
}

/// Two numbers agree within the shared tolerance.
pub fn are_almost_equal(x: Fx, y: Fx) -> (r: bool)
    ensures
        r == approx(x.r(), y.r()),
{
    x.sub(y).abs().raw < EPSILON
}

} // verus!
