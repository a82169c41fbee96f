//! Colors: red, green and blue channels as fixed-point scalars.

use vstd::prelude::*;

use crate::fx::{
    fx_add, fx_approx, fx_mul, fx_sqrt, fx_sub, fxadd, fxmul, fxsub, fxsqrt, fx_near, ONE,
};

verus! {

#[derive(Clone, Copy, Debug, PartialEq, Eq, Structural)]
pub struct Color {
    pub red: i64,
    pub green: i64,
    pub blue: i64,
}

/// Channelwise nearness under the crate's tolerance.
pub open spec fn color_near(a: Color, b: Color) -> bool {
    fx_near(a.red, b.red) && fx_near(a.green, b.green) && fx_near(a.blue, b.blue)
}

impl Color {
    pub fn new(red: i64, green: i64, blue: i64) -> (c: Color)
        ensures
            c == (Color { red, green, blue }),
    {
        Color { red, green, blue }
    }

    pub fn black() -> (c: Color)
        ensures
            c == (Color { red: 0i64, green: 0i64, blue: 0i64 }),
    {
        Color { red: 0, green: 0, blue: 0 }
    }

    pub fn white() -> (c: Color)
        ensures
            c == (Color { red: ONE, green: ONE, blue: ONE }),
    {
        Color { red: ONE, green: ONE, blue: ONE }
    }

    /// The Euclidean length of the channel triple.
    pub open spec fn spec_magnitude(self) -> i64 {
        fxsqrt(
            fxadd(fxadd(fxmul(self.red, self.red), fxmul(self.green, self.green)), fxmul(self.blue, self.blue)),
        )
    }

    pub fn magnitude(&self) -> (m: i64)
        ensures
            m == self.spec_magnitude(),
    {
        proof {
            crate::fx::lemma_square_nonneg(self.red);
            crate::fx::lemma_square_nonneg(self.green);
            crate::fx::lemma_square_nonneg(self.blue);
        }
        let s = fx_add(
            fx_add(fx_mul(self.red, self.red), fx_mul(self.green, self.green)),
            fx_mul(self.blue, self.blue),
        );
        fx_sqrt(s)
    }

    pub open spec fn spec_add(self, other: Color) -> Color {
        Color {
            red: fxadd(self.red, other.red),
            green: fxadd(self.green, other.green),
            blue: fxadd(self.blue, other.blue),
        }
    }

    pub fn add(&self, other: Color) -> (c: Color)
        ensures
            c == self.spec_add(other),
    {
        Color {
            red: fx_add(self.red, other.red),
            green: fx_add(self.green, other.green),
            blue: fx_add(self.blue, other.blue),
        }
    }

    pub open spec fn spec_sub(self, other: Color) -> Color {
        Color {
            red: fxsub(self.red, other.red),
            green: fxsub(self.green, other.green),
            blue: fxsub(self.blue, other.blue),
        }
    }

    pub fn sub(&self, other: Color) -> (c: Color)
        ensures
            c == self.spec_sub(other),
    {
        Color {
            red: fx_sub(self.red, other.red),
            green: fx_sub(self.green, other.green),
            blue: fx_sub(self.blue, other.blue),
        }
    }

    /// Channelwise product of two colors.
    pub open spec fn spec_mul(self, other: Color) -> Color {
        Color {
            red: fxmul(self.red, other.red),
            green: fxmul(self.green, other.green),
            blue: fxmul(self.blue, other.blue),
        }
    }

    pub fn mul(&self, other: Color) -> (c: Color)
        ensures
            c == self.spec_mul(other),
    {
        Color {
            red: fx_mul(self.red, other.red),
            green: fx_mul(self.green, other.green),
            blue: fx_mul(self.blue, other.blue),
        }
    }

    pub open spec fn spec_scale(self, s: i64) -> Color {
        Color { red: fxmul(self.red, s), green: fxmul(self.green, s), blue: fxmul(self.blue, s) }
    }

    pub fn scale(&self, s: i64) -> (c: Color)
        ensures
            c == self.spec_scale(s),
    {
        Color { red: fx_mul(self.red, s), green: fx_mul(self.green, s), blue: fx_mul(self.blue, s) }
    }

    pub fn approx_eq(&self, other: &Color) -> (r: bool)
        ensures
            r == color_near(*self, *other),
    {
        fx_approx(self.red, other.red) && fx_approx(self.green, other.green) && fx_approx(
            self.blue,
            other.blue,
        )
    }
}

impl Default for Color {
    /// The default color is black.
    fn default() -> (c: Color)
        ensures
            c == (Color { red: 0i64, green: 0i64, blue: 0i64 }),
    {
        Color { red: 0, green: 0, blue: 0 }
    }
}

} // verus!
