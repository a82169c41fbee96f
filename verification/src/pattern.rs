//! Surface patterns: stripes, a gradient, rings and a checkerboard.
//!
//! A pattern is a pure function from a point in pattern space to a color.
//! `pattern_at` first maps the given point through the inverse of the
//! pattern's own transform; `pattern_at_shape` first maps a world point into
//! the shape's object space.

use vstd::prelude::*;

use crate::color::Color;
use crate::fx::{fx_add, fx_floor_even, fx_mul, fx_sqrt, fx_sub, fxadd, fxmul, fxsqrt, fxsub, ifloor};
use crate::matrix::{invertible, mat_mul_point, spec_inverse, Matrix};
use crate::shape::Shape;
use crate::tuple::Point;

verus! {

#[derive(Clone, Copy, Debug, PartialEq, Eq)]
pub struct Stripe {
    pub a: Color,
    pub b: Color,
    pub transform: Matrix,
}

#[derive(Clone, Copy, Debug, PartialEq, Eq)]
pub struct Gradient {
    pub a: Color,
    pub b: Color,
    pub transform: Matrix,
}

#[derive(Clone, Copy, Debug, PartialEq, Eq)]
pub struct Ring {
    pub a: Color,
    pub b: Color,
    pub transform: Matrix,
}

#[derive(Clone, Copy, Debug, PartialEq, Eq)]
pub struct Checkerboard {
    pub a: Color,
    pub b: Color,
    pub transform: Matrix,
}

/// The closed set of pattern variants.
#[derive(Clone, Copy, Debug, PartialEq, Eq)]
pub enum Pattern {
    Stripe(Stripe),
    Gradient(Gradient),
    Ring(Ring),
    Checkerboard(Checkerboard),
}

/// The pattern's own transform.
pub open spec fn pattern_transform(p: Pattern) -> Matrix {
    match p {
        Pattern::Stripe(s) => s.transform,
        Pattern::Gradient(g) => g.transform,
        Pattern::Ring(r) => r.transform,
        Pattern::Checkerboard(c) => c.transform,
    }
}

/// A pattern is usable when its transform has an inverse.
pub open spec fn pattern_wf(p: Pattern) -> bool {
    invertible(pattern_transform(p))
}

/// The same pattern with its transform replaced.
pub open spec fn pattern_with_transform(p: Pattern, t: Matrix) -> Pattern {
    match p {
        Pattern::Stripe(s) => Pattern::Stripe(Stripe { a: s.a, b: s.b, transform: t }),
        Pattern::Gradient(g) => Pattern::Gradient(Gradient { a: g.a, b: g.b, transform: t }),
        Pattern::Ring(r) => Pattern::Ring(Ring { a: r.a, b: r.b, transform: t }),
        Pattern::Checkerboard(c) => Pattern::Checkerboard(
            Checkerboard { a: c.a, b: c.b, transform: t },
        ),
    }
}

/// Stripes alternate with the floor of x: the first color on even units.
pub open spec fn spec_stripe_at(s: Stripe, point: Point) -> Color
    recommends
        invertible(s.transform),
{
    let q = mat_mul_point(spec_inverse(s.transform).unwrap(), point);
    if ifloor(q.x) % 2int == 0 {
        s.a
    } else {
        s.b
    }
}

/// The gradient blends from the first color by the fractional part of x.
pub open spec fn spec_gradient_at(g: Gradient, point: Point) -> Color
    recommends
        invertible(g.transform),
{
    let q = mat_mul_point(spec_inverse(g.transform).unwrap(), point);
    let fraction = fxsub(q.x, crate::fx::fxfloor(q.x));
    g.a.spec_add(g.b.spec_sub(g.a).spec_scale(fraction))
}

/// Rings alternate with the floor of the planar distance from the y axis.
pub open spec fn spec_ring_at(r: Ring, point: Point) -> Color
    recommends
        invertible(r.transform),
{
    let q = mat_mul_point(spec_inverse(r.transform).unwrap(), point);
    let d = fxsqrt(fxadd(fxmul(q.x, q.x), fxmul(q.z, q.z)));
    if ifloor(d) % 2int == 0 {
        r.a
    } else {
        r.b
    }
}

/// The checkerboard alternates with the summed floors of all three axes.
pub open spec fn spec_checkerboard_at(c: Checkerboard, point: Point) -> Color
    recommends
        invertible(c.transform),
{
    let q = mat_mul_point(spec_inverse(c.transform).unwrap(), point);
    if (ifloor(q.x) + ifloor(q.y) + ifloor(q.z)) % 2int == 0 {
        c.a
    } else {
        c.b
    }
}

/// The color of a pattern at a point in pattern space.
pub open spec fn spec_pattern_at(p: Pattern, point: Point) -> Color
    recommends
        pattern_wf(p),
{
    match p {
        Pattern::Stripe(s) => spec_stripe_at(s, point),
        Pattern::Gradient(g) => spec_gradient_at(g, point),
        Pattern::Ring(r) => spec_ring_at(r, point),
        Pattern::Checkerboard(c) => spec_checkerboard_at(c, point),
    }
}

/// The color of a pattern at a world point on a shape: the point is first
/// mapped into the shape's object space, then handed to the pattern.
pub open spec fn spec_pattern_at_shape(p: Pattern, shape: Shape, point: Point) -> Color
    recommends
        pattern_wf(p),
        invertible(crate::shape::shape_transform(shape)),
{
    let object_point = mat_mul_point(
        spec_inverse(crate::shape::shape_transform(shape)).unwrap(),
        point,
    );
    spec_pattern_at(p, object_point)
}

impl Stripe {
    pub fn new(a: Color, b: Color) -> (s: Stripe)
        ensures
            s == (Stripe { a, b, transform: crate::matrix::spec_identity() }),
    {
        Stripe { a, b, transform: Matrix::identity() }
    }

    pub fn pattern_at(&self, point: &Point) -> (c: Color)
        requires
            invertible(self.transform),
        ensures
            c == spec_stripe_at(*self, *point),
    {
        let q = self.transform.inverted().mul_point(*point);
        if fx_floor_even(q.x) {
            self.a
        } else {
            self.b
        }
    }
}

impl Gradient {
    pub fn new(a: Color, b: Color) -> (g: Gradient)
        ensures
            g == (Gradient { a, b, transform: crate::matrix::spec_identity() }),
    {
        Gradient { a, b, transform: Matrix::identity() }
    }

    pub fn pattern_at(&self, point: &Point) -> (c: Color)
        requires
            invertible(self.transform),
        ensures
            c == spec_gradient_at(*self, *point),
    {
        let q = self.transform.inverted().mul_point(*point);
        let fraction = fx_sub(q.x, crate::fx::fx_floor(q.x));
        self.a.add(self.b.sub(self.a).scale(fraction))
    }
}

impl Ring {
    pub fn new(a: Color, b: Color) -> (r: Ring)
        ensures
            r == (Ring { a, b, transform: crate::matrix::spec_identity() }),
    {
        Ring { a, b, transform: Matrix::identity() }
    }

    pub fn pattern_at(&self, point: &Point) -> (c: Color)
        requires
            invertible(self.transform),
        ensures
            c == spec_ring_at(*self, *point),
    {
        let q = self.transform.inverted().mul_point(*point);
        proof {
            crate::fx::lemma_square_nonneg(q.x);
            crate::fx::lemma_square_nonneg(q.z);
        }
        let d = fx_sqrt(fx_add(fx_mul(q.x, q.x), fx_mul(q.z, q.z)));
        if fx_floor_even(d) {
            self.a
        } else {
            self.b
        }
    }
}

impl Checkerboard {
    pub fn new(a: Color, b: Color) -> (c: Checkerboard)
        ensures
            c == (Checkerboard { a, b, transform: crate::matrix::spec_identity() }),
    {
        Checkerboard { a, b, transform: Matrix::identity() }
    }

    pub fn pattern_at(&self, point: &Point) -> (c: Color)
        requires
            invertible(self.transform),
        ensures
            c == spec_checkerboard_at(*self, *point),
    {
        let q = self.transform.inverted().mul_point(*point);
        let fx_ = crate::fx::fx_floor_units(q.x);
        let fy = crate::fx::fx_floor_units(q.y);
        let fz = crate::fx::fx_floor_units(q.z);
        let s: i128 = fx_ as i128 + fy as i128 + fz as i128;
        let m = match s.checked_rem_euclid(2) {
            Some(m) => m,
            None => unreached(),
        };
        if m == 0 {
            self.a
        } else {
            self.b
        }
    }
}

impl Pattern {
    /// The pattern's own transform.
    pub fn transform(&self) -> (t: Matrix)
        ensures
            t == pattern_transform(*self),
    {
        match self {
            Pattern::Stripe(s) => s.transform,
            Pattern::Gradient(g) => g.transform,
            Pattern::Ring(r) => r.transform,
            Pattern::Checkerboard(c) => c.transform,
        }
    }

    /// Replace the pattern's transform, keeping its colors.
    pub fn set_transform(&mut self, transform: Matrix)
        ensures
            *final(self) == pattern_with_transform(*old(self), transform),
    {
        match self {
            Pattern::Stripe(s) => s.transform = transform,
            Pattern::Gradient(g) => g.transform = transform,
            Pattern::Ring(r) => r.transform = transform,
            Pattern::Checkerboard(c) => c.transform = transform,
        }
    }

    pub fn pattern_at(&self, point: &Point) -> (c: Color)
        requires
            pattern_wf(*self),
        ensures
            c == spec_pattern_at(*self, *point),
    {
        match self {
            Pattern::Stripe(s) => s.pattern_at(point),
            Pattern::Gradient(g) => g.pattern_at(point),
            Pattern::Ring(r) => r.pattern_at(point),
            Pattern::Checkerboard(c) => c.pattern_at(point),
        }
    }

    /// The pattern's color at a world point on a shape.
    pub fn pattern_at_shape(&self, shape: &Shape, point: &Point) -> (c: Color)
        requires
            pattern_wf(*self),
            invertible(crate::shape::shape_transform(*shape)),
        ensures
            c == spec_pattern_at_shape(*self, *shape, *point),
    {
        let object_point = shape.get_transform().inverted().mul_point(*point);
        self.pattern_at(&object_point)
    }
}

} // verus!
