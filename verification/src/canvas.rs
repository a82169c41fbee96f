//! The pixel raster and its plain-text serialization.
//!
//! The serialization is the P3 form: a header with the dimensions and the
//! channel ceiling, then each pixel's three channels scaled to 0..=255,
//! floored and clamped, written as space-separated decimal numbers with a
//! line break at the start of every row.

use vstd::prelude::*;

use crate::color::Color;
use crate::fx::{fx_floor_units, fx_mul, fxmul, ifloor};

verus! {

/// The scalar 255.0 in raw units: the channel scale of the image format.
pub const FX255: i64 = 2_550_000_000_000_000;

#[derive(Clone, Debug)]
pub struct Canvas {
    pub width: usize,
    pub height: usize,
    pub pixels: Vec<Color>,
}

/// A canvas holds exactly one color per pixel.
pub open spec fn canvas_wf(c: Canvas) -> bool {
    c.pixels@.len() == c.width * c.height
}

/// A channel scaled to 0..=255, floored and clamped.
pub open spec fn clamp255(c: i64) -> int {
    let v = ifloor(fxmul(c, FX255));
    if v < 0 {
        0
    } else if v > 255 {
        255
    } else {
        v
    }
}

/// The decimal digits of a nonnegative number, as bytes.
pub open spec fn spec_dec(n: int) -> Seq<u8>
    recommends
        n >= 0,
    decreases n,
{
    if n < 10 {
        seq![(48 + n) as u8]
    } else {
        spec_dec(n / 10).push((48 + n % 10) as u8)
    }
}

/// One pixel's three channels, each followed by a space.
pub open spec fn pixel_bytes(c: Color) -> Seq<u8> {
    spec_dec(clamp255(c.red)) + seq![32u8] + spec_dec(clamp255(c.green)) + seq![32u8] + spec_dec(
        clamp255(c.blue),
    ) + seq![32u8]
}

/// The serialized pixels up to index `k`, with a break at each row start.
pub open spec fn ppm_body(pixels: Seq<Color>, width: int, k: int) -> Seq<u8>
    recommends
        width > 0,
    decreases k,
{
    if k <= 0 {
        Seq::empty()
    } else {
        ppm_body(pixels, width, k - 1) + (if (k - 1) % width == 0 {
            seq![10u8]
        } else {
            Seq::empty()
        }) + pixel_bytes(pixels[k - 1])
    }
}

/// The whole serialized image: the header, then every pixel.
pub open spec fn spec_ppm(width: int, height: int, pixels: Seq<Color>) -> Seq<u8> {
    seq![80u8, 51u8, 10u8] + spec_dec(width) + seq![32u8] + spec_dec(height) + seq![
        10u8,
        50u8,
        53u8,
        53u8,
    ] + ppm_body(pixels, width, pixels.len() as int)
}

/// The decimal digits of a number, as bytes.
fn dec_bytes(n: usize) -> (v: Vec<u8>)
    ensures
        v@ == spec_dec(n as int),
    decreases n,
{
    if n < 10 {
        let mut v: Vec<u8> = Vec::new();
        v.push(48 + n as u8);
        proof {
            assert(v@ =~= spec_dec(n as int));
        }
        v
    } else {
        let mut v = dec_bytes(n / 10);
        v.push(48 + (n % 10) as u8);
        v
    }
}

/// Append one channel's clamped decimal value and a trailing space.
fn push_channel(out: &mut Vec<u8>, c: i64)
    ensures
        final(out)@ == old(out)@ + spec_dec(clamp255(c)) + seq![32u8],
{
    let f = fx_mul(c, FX255);
    let u = fx_floor_units(f);
    let clamped: usize = if u < 0 {
        0
    } else if u > 255 {
        255
    } else {
        u as usize
    };
    let mut digits = dec_bytes(clamped);
    out.append(&mut digits);
    out.push(32);
}

impl Canvas {
    /// A canvas of the given size, every pixel black.
    pub fn new(width: usize, height: usize) -> (c: Canvas)
        requires
            width * height <= usize::MAX,
        ensures
            c.width == width,
            c.height == height,
            canvas_wf(c),
            forall|k: int|
                0 <= k < c.pixels@.len() ==> c.pixels@[k] == (Color {
                    red: 0i64,
                    green: 0i64,
                    blue: 0i64,
                }),
    {
        let n = width * height;
        let mut pixels: Vec<Color> = Vec::new();
        let mut i: usize = 0;
        while i < n
            invariant
                i <= n,
                pixels@.len() == i,
                forall|k: int|
                    0 <= k < i ==> pixels@[k] == (Color { red: 0i64, green: 0i64, blue: 0i64 }),
            decreases n - i,
        {
            pixels.push(Color::black());
            i = i + 1;
        }
        Canvas { width, height, pixels }
    }

    /// Paint one pixel.
    pub fn write(&mut self, x: usize, y: usize, color: Color)
        requires
            canvas_wf(*old(self)),
            x < old(self).width,
            y < old(self).height,
        ensures
            final(self).width == old(self).width,
            final(self).height == old(self).height,
            final(self).pixels@ == old(self).pixels@.update(
                (y * old(self).width + x) as int,
                color,
            ),
            canvas_wf(*final(self)),
    {
        let n = self.pixels.len();
        proof {
            assert(y * self.width + x < self.width * self.height) by (nonlinear_arith)
                requires
                    x < self.width,
                    y < self.height,
            ;
            assert(self.width * y == y * self.width) by (nonlinear_arith);
            assert(self.width * y + x < n);
        }
        let index = self.width * y + x;
        self.pixels.set(index, color);
    }

    /// Read one pixel.
    pub fn pixel_at(&self, x: usize, y: usize) -> (c: Color)
        requires
            canvas_wf(*self),
            x < self.width,
            y < self.height,
        ensures
            c == self.pixels@[(y * self.width + x) as int],
    {
        let n = self.pixels.len();
        proof {
            assert(y * self.width + x < self.width * self.height) by (nonlinear_arith)
                requires
                    x < self.width,
                    y < self.height,
            ;
            assert(self.width * y == y * self.width) by (nonlinear_arith);
            assert(self.width * y + x < n);
        }
        self.pixels[self.width * y + x]
    }

    /// Serialize the image to its textual form.
    pub fn to_ppm(&self) -> (r: Vec<u8>)
        requires
            canvas_wf(*self),
        ensures
            r@ == spec_ppm(self.width as int, self.height as int, self.pixels@),
    {
        let mut out: Vec<u8> = Vec::new();
        out.push(80);
        out.push(51);
        out.push(10);
        let mut wd = dec_bytes(self.width);
        out.append(&mut wd);
        out.push(32);
        let mut hd = dec_bytes(self.height);
        out.append(&mut hd);
        out.push(10);
        out.push(50);
        out.push(53);
        out.push(53);
        let ghost header = out@;
        proof {
            assert(header =~= seq![80u8, 51u8, 10u8] + spec_dec(self.width as int) + seq![32u8]
                + spec_dec(self.height as int) + seq![10u8, 50u8, 53u8, 53u8]);
        }
        let mut i: usize = 0;
        while i < self.pixels.len()
            invariant
                i <= self.pixels@.len(),
                canvas_wf(*self),
                out@ == header + ppm_body(self.pixels@, self.width as int, i as int),
            decreases self.pixels@.len() - i,
        {
            proof {
                if self.width == 0 {
                    assert(self.pixels@.len() == 0);
                }
            }
            let ghost out0 = out@;
            if i % self.width == 0 {
                out.push(10);
            }
            let p = self.pixels[i];
            push_channel(&mut out, p.red);
            push_channel(&mut out, p.green);
            push_channel(&mut out, p.blue);
            proof {
                assert(out@ =~= header + ppm_body(self.pixels@, self.width as int, i + 1 as int));
            }
            i = i + 1;
        }
        proof {
            assert(out@ =~= spec_ppm(self.width as int, self.height as int, self.pixels@));
        }
        out
    }
}

} // verus!
