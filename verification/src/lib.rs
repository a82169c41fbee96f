//! A ray tracer built on exact fixed-point arithmetic.
//!
//! Scalars are `i64` values scaled by `fx::SCALE`; every arithmetic step is a
//! total, saturating operation with a spec-level mirror, so the color of every
//! pixel is pinned down exactly by the contracts.

pub mod camera;
pub mod canvas;
pub mod color;
pub mod fx;
pub mod lights;
pub mod materials;
pub mod matrix;
pub mod pattern;
pub mod ray;
pub mod shape;
pub mod transformations;
pub mod trig;
pub mod tuple;
pub mod world;

use vstd::prelude::*;

verus! {

/// How many reflection / refraction bounces a rendered ray may take.
pub const DEFAULT_REFLECTION_COUNT: u32 = 4;

} // verus!
