//! The pixel grid a frame is rendered into.
use vstd::prelude::*;

use crate::color::Color;
use crate::fixed::{Fx, SCALE};
use crate::parser::NewCanvas;

verus! {

/// A width-by-height grid of colors, row-major.
#[derive(Clone, Debug)]
pub struct Canvas {
    pub width: usize,
    pub height: usize,
    pub pixels: Vec<Color>,
}

/// The value of one color channel as an output byte: clamped to [0, 1] and
/// scaled to 0..=255, rounding down.
pub open spec fn spec_chan(v: int) -> int {
    let c = if v < 0 {
        0
    } else if v > SCALE {
        SCALE as int
    } else {
        v
    };
    (c * 255) / (SCALE as int)
}

/// A color packed into one machine word: red, green, blue from high to low.
pub open spec fn spec_pack(c: Color) -> int {
    spec_chan(c.r.r()) * 65536 + spec_chan(c.g.r()) * 256 + spec_chan(c.b.r())
}

/// The decimal digits of a nonnegative number, most significant first.
pub open spec fn spec_dec(n: int) -> Seq<u8>
    decreases n,
{
    if n < 10 {
        seq![(48 + n) as u8]
    } else {
        spec_dec(n / 10).push((48 + n % 10) as u8)
    }
}

/// The bytes of one pixel in the text image format: the three channel
/// values, each followed by a space.
pub open spec fn spec_pixel_bytes(c: Color) -> Seq<u8> {
    spec_dec(spec_chan(c.r.r())) + seq![32u8] + spec_dec(spec_chan(c.g.r())) + seq![32u8]
        + spec_dec(spec_chan(c.b.r())) + seq![32u8]
}

impl Canvas {
    /// The stored pixels, row-major.
    pub open spec fn spec_pixels(self) -> Seq<Color> {
        self.pixels@
    }

    /// The canvas holds exactly one color per cell of its grid.
    pub open spec fn wf(self) -> bool {
        self.spec_pixels().len() == (self.width as int) * (self.height as int)
    }

    /// The bytes of one row of the image body.
    pub open spec fn spec_row_bytes(self, y: int, n: int) -> Seq<u8>
        decreases n,
    {
        if n <= 0 {
            Seq::empty()
        } else {
            self.spec_row_bytes(y, n - 1) + spec_pixel_bytes(
                self.spec_pixels()[y * (self.width as int) + (n - 1)],
            )
        }
    }

    /// The bytes of the first `n` rows of the image body, each row ended by
    /// a line break.
    pub open spec fn spec_rows_bytes(self, n: int) -> Seq<u8>
        decreases n,
    {
        if n <= 0 {
            Seq::empty()
        } else {
            self.spec_rows_bytes(n - 1) + self.spec_row_bytes(n - 1, self.width as int) + seq![
                10u8,
            ]
        }
    }

    /// The whole image in the plain-text portable pixmap format: the magic
    /// line, the dimensions, the channel maximum, then the rows.
    pub open spec fn spec_ppm(self) -> Seq<u8> {
        seq![80u8, 51u8, 10u8] + spec_dec(self.width as int) + seq![32u8] + spec_dec(
            self.height as int,
        ) + seq![10u8] + seq![50u8, 53u8, 53u8, 10u8] + self.spec_rows_bytes(self.height as int)
    }

    /// Build a canvas of the requested size, all pixels black.
    pub fn new(new_canvas: NewCanvas) -> (c: Canvas)
        requires
            (new_canvas.width as int) * (new_canvas.height as int) <= usize::MAX,
        ensures
            c.width == new_canvas.width,
            c.height == new_canvas.height,
            c.wf(),
            forall|i: int|
                0 <= i < c.spec_pixels().len() ==> c.spec_pixels()[i] == (Color {
                    r: Fx { raw: 0 },
                    g: Fx { raw: 0 },
                    b: Fx { raw: 0 },
                }),
    {
        let pixel_count = new_canvas.width * new_canvas.height;
        let mut pixels: Vec<Color> = Vec::new();
        let mut i: usize = 0;
        while i < pixel_count
            invariant
                i <= pixel_count,
                pixels@.len() == i,
                forall|j: int|
                    0 <= j < i ==> pixels@[j] == (Color {
                        r: Fx { raw: 0 },
                        g: Fx { raw: 0 },
                        b: Fx { raw: 0 },
                    }),
            decreases pixel_count - i,
        {
            pixels.push(Color::black());
            i = i + 1;
        }
        Canvas { width: new_canvas.width, height: new_canvas.height, pixels }
    }

    /// Resize the canvas, clearing every pixel to black.
    pub fn resize(&mut self, width: usize, height: usize)
        requires
            (width as int) * (height as int) <= usize::MAX,
        ensures
            final(self).width == width,
            final(self).height == height,
            final(self).wf(),
            forall|i: int|
                0 <= i < final(self).spec_pixels().len() ==> final(self).spec_pixels()[i]
                    == (Color { r: Fx { raw: 0 }, g: Fx { raw: 0 }, b: Fx { raw: 0 } }),
    {
        let fresh = Canvas::new(NewCanvas { width, height });
        self.width = fresh.width;
        self.height = fresh.height;
        self.pixels = fresh.pixels;
    }

    /// Overwrite one pixel.
    pub fn write(&mut self, x: usize, y: usize, color: Color)
        requires
            old(self).wf(),
            x < old(self).width,
            y < old(self).height,
        ensures
            final(self).width == old(self).width,
            final(self).height == old(self).height,
            final(self).wf(),
            final(self).spec_pixels() == old(self).spec_pixels().update(
                (y * old(self).width + x) as int,
                color,
            ),
    {
        let n = self.pixels.len();
        proof {
            lemma_grid_index(self.width as int, self.height as int, x as int, y as int);
            assert((self.width as int) * (self.height as int) == n as int);
        }
        let index = y * self.width + x;
        self.pixels[index] = color;
    }

    /// Read one pixel.
    pub fn at(&self, x: usize, y: usize) -> (c: Color)
        requires
            self.wf(),
            x < self.width,
            y < self.height,
        ensures
            c == self.spec_pixels()[(y * self.width + x) as int],
    {
        let n = self.pixels.len();
        proof {
            lemma_grid_index(self.width as int, self.height as int, x as int, y as int);
            assert((self.width as int) * (self.height as int) == n as int);
        }
        let index = y * self.width + x;
        self.pixels[index]
    }

    /// The framebuffer as packed machine words, row-major.
    pub fn pixels(&self) -> (r: Vec<u32>)
        requires
            self.wf(),
        ensures
            r@.len() == self.spec_pixels().len(),
            forall|i: int| 0 <= i < r@.len() ==> r@[i] as int == spec_pack(self.spec_pixels()[i]),
    {
        let mut out: Vec<u32> = Vec::new();
        let mut i: usize = 0;
        let n = self.pixels.len();
        while i < n
            invariant
                i <= n,
                n == self.spec_pixels().len(),
                out@.len() == i,
                forall|j: int|
                    0 <= j < i ==> out@[j] as int == spec_pack(self.spec_pixels()[j]),
            decreases n - i,
        {
            let c = self.pixels[i];
            let r = chan_byte(c.r);
            let g = chan_byte(c.g);
            let b = chan_byte(c.b);
            out.push((r as u32) * 65536 + (g as u32) * 256 + (b as u32));
            i = i + 1;
        }
        out
    }

    /// Encode the whole canvas in the plain-text portable pixmap format.
    pub fn to_ppm(&self) -> (r: Vec<u8>)
        requires
            self.wf(),
        ensures
            r@ == self.spec_ppm(),
    {
        let mut out: Vec<u8> = Vec::new();
        out.push(80);
        out.push(51);
        out.push(10);
        push_dec(&mut out, self.width as u64);
        out.push(32);
        push_dec(&mut out, self.height as u64);
        out.push(10);
        out.push(50);
        out.push(53);
        out.push(53);
        out.push(10);
        let ghost header = out@;

        let mut y: usize = 0;
        while y < self.height
            invariant
                self.wf(),
                y <= self.height,
                out@ == header + self.spec_rows_bytes(y as int),
                header == seq![80u8, 51u8, 10u8] + spec_dec(self.width as int) + seq![32u8]
                    + spec_dec(self.height as int) + seq![10u8] + seq![50u8, 53u8, 53u8, 10u8],
            decreases self.height - y,
        {
            let mut x: usize = 0;
            while x < self.width
                invariant
                    self.wf(),
                    y < self.height,
                    x <= self.width,
                    out@ == header + self.spec_rows_bytes(y as int) + self.spec_row_bytes(
                        y as int,
                        x as int,
                    ),
                decreases self.width - x,
            {
                let c = self.at(x, y);
                push_dec(&mut out, chan_byte(c.r) as u64);
                out.push(32);
                push_dec(&mut out, chan_byte(c.g) as u64);
                out.push(32);
                push_dec(&mut out, chan_byte(c.b) as u64);
                out.push(32);
                x = x + 1;
            }
            out.push(10);
            y = y + 1;
        }
        out
    }
}

/// A cell's flat index stays inside the grid.
proof fn lemma_grid_index(w: int, h: int, x: int, y: int)
    requires
        0 <= x < w,
        0 <= y < h,
    ensures
        0 <= y * w + x < w * h,
        y * w + x <= (h - 1) * w + (w - 1),
{
    assert(y * w + x < w * h && y * w + x <= (h - 1) * w + (w - 1)) by (nonlinear_arith)
        requires
            0 <= x < w,
            0 <= y < h,
    ;
}

/// One channel of a color as an output byte.
fn chan_byte(v: Fx) -> (r: u8)
    ensures
        r as int == spec_chan(v.r()),
{
    let c = v.clamp(Fx::zero(), Fx::one());
    proof {
        crate::fixed::lemma_fx_mul_whole(c.r(), 255);
    }
    let scaled = c.mul(Fx::from_int(255));
    let units = scaled.floor_units();
    units as u8
}

/// Append the decimal digits of a number, most significant first.
fn push_dec(out: &mut Vec<u8>, n: u64)
    ensures
        final(out)@ == old(out)@ + spec_dec(n as int),
    decreases n,
{
    if n >= 10 {
        push_dec(out, n / 10);
    }
    out.push(48 + (n % 10) as u8);
}

} // verus!
