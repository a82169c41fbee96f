//! The closed set of shape variants and their local-space geometry.
//!
//! Every shape is a unit solid in its own object space: a unit sphere at the
//! origin, the y = 0 plane, the unit cube, and unit cylinders and cones along
//! the y axis, optionally truncated and capped. `local_intersect` returns the
//! ray parameters where a ray in object space meets the shape, and
//! `normal_at` maps a world point into object space, takes the local normal,
//! and carries it back through the inverse transpose of the transform.

use vstd::prelude::*;

use crate::fx::{
    fx_abs, fx_add, fx_approx, fx_div, fx_max, fx_min, fx_mul, fx_neg, fx_sqrt, fx_sub, fxabs,
    fxadd, fxdiv, fxmax, fxmin, fxmul, fxneg, fxsqrt, fxsub, EPS, ONE, TWO,
};
use crate::materials::{spec_default_material, Material};
use crate::matrix::{
    invertible, mat_mul_point, mat_mul_vector, spec_identity, spec_inverse, spec_transpose, Matrix,
};
use crate::pattern::pattern_wf;
use crate::ray::Ray;
use crate::tuple::{Point, Vector};

verus! {

/// The scalar 4.0 in raw units, the coefficient of the discriminant.
pub const FOUR: i64 = 40_000_000_000_000;

#[derive(Clone, Copy, Debug, PartialEq, Eq)]
pub struct Sphere {
    pub id: usize,
    pub transform: Matrix,
    pub material: Material,
}

#[derive(Clone, Copy, Debug, PartialEq, Eq)]
pub struct Plane {
    pub id: usize,
    pub transform: Matrix,
    pub material: Material,
}

#[derive(Clone, Copy, Debug, PartialEq, Eq)]
pub struct Cube {
    pub id: usize,
    pub transform: Matrix,
    pub material: Material,
}

#[derive(Clone, Copy, Debug, PartialEq, Eq)]
pub struct Cylinder {
    pub id: usize,
    pub transform: Matrix,
    pub material: Material,
    pub minimum: i64,
    pub maximum: i64,
    pub closed: bool,
}

#[derive(Clone, Copy, Debug, PartialEq, Eq)]
pub struct Cone {
    pub id: usize,
    pub transform: Matrix,
    pub material: Material,
    pub minimum: i64,
    pub maximum: i64,
    pub closed: bool,
}

/// The closed set of shape variants.
#[derive(Clone, Copy, Debug, PartialEq, Eq)]
pub enum Shape {
    Sphere(Sphere),
    Plane(Plane),
    Cube(Cube),
    Cylinder(Cylinder),
    Cone(Cone),
}

/// The identity a shape is known by.
pub open spec fn shape_id(s: Shape) -> usize {
    match s {
        Shape::Sphere(v) => v.id,
        Shape::Plane(v) => v.id,
        Shape::Cube(v) => v.id,
        Shape::Cylinder(v) => v.id,
        Shape::Cone(v) => v.id,
    }
}

/// The shape's object-to-world transform.
pub open spec fn shape_transform(s: Shape) -> Matrix {
    match s {
        Shape::Sphere(v) => v.transform,
        Shape::Plane(v) => v.transform,
        Shape::Cube(v) => v.transform,
        Shape::Cylinder(v) => v.transform,
        Shape::Cone(v) => v.transform,
    }
}

/// The shape's material.
pub open spec fn shape_material(s: Shape) -> Material {
    match s {
        Shape::Sphere(v) => v.material,
        Shape::Plane(v) => v.material,
        Shape::Cube(v) => v.material,
        Shape::Cylinder(v) => v.material,
        Shape::Cone(v) => v.material,
    }
}

/// The same shape with another transform.
pub open spec fn shape_with_transform(s: Shape, t: Matrix) -> Shape {
    match s {
        Shape::Sphere(v) => Shape::Sphere(Sphere { transform: t, ..v }),
        Shape::Plane(v) => Shape::Plane(Plane { transform: t, ..v }),
        Shape::Cube(v) => Shape::Cube(Cube { transform: t, ..v }),
        Shape::Cylinder(v) => Shape::Cylinder(Cylinder { transform: t, ..v }),
        Shape::Cone(v) => Shape::Cone(Cone { transform: t, ..v }),
    }
}

/// The same shape with another material.
pub open spec fn shape_with_material(s: Shape, m: Material) -> Shape {
    match s {
        Shape::Sphere(v) => Shape::Sphere(Sphere { material: m, ..v }),
        Shape::Plane(v) => Shape::Plane(Plane { material: m, ..v }),
        Shape::Cube(v) => Shape::Cube(Cube { material: m, ..v }),
        Shape::Cylinder(v) => Shape::Cylinder(Cylinder { material: m, ..v }),
        Shape::Cone(v) => Shape::Cone(Cone { material: m, ..v }),
    }
}

/// What rendering needs of a shape: an invertible transform, a positive
/// refractive index, and a usable pattern where one is set.
pub open spec fn shape_wf(s: Shape) -> bool {
    &&& invertible(shape_transform(s))
    &&& shape_material(s).refractive_index > 0
    &&& (shape_material(s).pattern is Some ==> pattern_wf(shape_material(s).pattern.unwrap()))
}

/// The reflection of an incoming vector about a surface normal.
pub open spec fn spec_reflect(i: Vector, normal: Vector) -> Vector {
    i.spec_sub(normal.spec_scale(TWO).spec_scale(i.spec_dot(normal)))
}

/// Reflect an incoming vector about a surface normal.
pub fn reflect(i: Vector, normal: Vector) -> (r: Vector)
    ensures
        r == spec_reflect(i, normal),
{
    i.sub(normal.scale(TWO).scale(i.dot(normal)))
}

/// Where a ray meets the unit sphere: the two quadratic roots in ascending
/// order, none when the discriminant is negative, and none for the degenerate
/// ray whose direction squares away to nothing.
pub open spec fn sphere_intersect(r: Ray) -> Seq<i64> {
    let center = Point { x: 0i64, y: 0i64, z: 0i64 };
    let sphere_to_ray = r.origin.spec_sub(center);
    let a = r.direction.spec_dot(r.direction);
    let b = fxmul(TWO, r.direction.spec_dot(sphere_to_ray));
    let c = fxsub(sphere_to_ray.spec_dot(sphere_to_ray), ONE);
    let disc = fxsub(fxmul(b, b), fxmul(fxmul(FOUR, a), c));
    let denom = fxmul(TWO, a);
    if disc < 0 || denom == 0 {
        Seq::empty()
    } else {
        let sq = fxsqrt(disc);
        let t1 = fxdiv(fxsub(fxneg(b), sq), denom);
        let t2 = fxdiv(fxadd(fxneg(b), sq), denom);
        seq![fxmin(t1, t2), fxmax(t2, t1)]
    }
}

/// Where a ray meets the y = 0 plane: nothing for a ray parallel to it.
pub open spec fn plane_intersect(r: Ray) -> Seq<i64> {
    if r.direction.y == 0 {
        Seq::empty()
    } else {
        seq![fxdiv(fxneg(r.origin.y), r.direction.y)]
    }
}

/// The stand-in for an infinite slab parameter: the whole scalar range, on
/// the side the numerator's sign points to.
pub open spec fn axis_infinity(numerator: i64) -> i64 {
    if numerator > 0 {
        i64::MAX
    } else if numerator < 0 {
        i64::MIN
    } else {
        0i64
    }
}

/// One axis of the cube's slab test: the parameter interval between the two
/// face planes; where the ray runs along the slab, each bound is a signed
/// infinity, stood in for by the saturated scalar of the numerator's sign.
pub open spec fn spec_check_axis(origin: i64, direction: i64) -> (i64, i64) {
    let tmin_numerator = fxsub(fxneg(ONE), origin);
    let tmax_numerator = fxsub(ONE, origin);
    let pair = if fxabs(direction) >= EPS {
        (fxdiv(tmin_numerator, direction), fxdiv(tmax_numerator, direction))
    } else {
        (axis_infinity(tmin_numerator), axis_infinity(tmax_numerator))
    };
    if pair.0 > pair.1 {
        (pair.1, pair.0)
    } else {
        pair
    }
}

/// Where a ray meets the unit cube: the overlap of the three slab intervals.
pub open spec fn cube_intersect(r: Ray) -> Seq<i64> {
    let xt = spec_check_axis(r.origin.x, r.direction.x);
    let yt = spec_check_axis(r.origin.y, r.direction.y);
    let zt = spec_check_axis(r.origin.z, r.direction.z);
    let tmin = fxmax(fxmax(xt.0, yt.0), zt.0);
    let tmax = fxmin(fxmin(xt.1, yt.1), zt.1);
    if tmin > tmax {
        Seq::empty()
    } else {
        seq![tmin, tmax]
    }
}

/// Whether the ray at parameter `t` is within one unit of the y axis, where
/// a cylinder cap extends.
pub open spec fn cyl_check_cap(r: Ray, t: i64) -> bool {
    let x = fxadd(r.origin.x, fxmul(t, r.direction.x));
    let z = fxadd(r.origin.z, fxmul(t, r.direction.z));
    fxadd(fxmul(x, x), fxmul(z, z)) <= ONE
}

/// Where a ray meets the end caps of a closed cylinder.
pub open spec fn cyl_caps(minimum: i64, maximum: i64, closed: bool, r: Ray) -> Seq<i64> {
    if !closed || fxabs(r.direction.y) <= EPS {
        Seq::empty()
    } else {
        let t0 = fxdiv(fxsub(minimum, r.origin.y), r.direction.y);
        let t1 = fxdiv(fxsub(maximum, r.origin.y), r.direction.y);
        let s0: Seq<i64> = if cyl_check_cap(r, t0) {
            seq![t0]
        } else {
            Seq::empty()
        };
        let s1: Seq<i64> = if cyl_check_cap(r, t1) {
            seq![t1]
        } else {
            Seq::empty()
        };
        s0 + s1
    }
}

/// Where a ray meets a cylinder: the quadratic roots in x and z, each kept
/// only within the height range, then the caps.
pub open spec fn cylinder_intersect(c: Cylinder, r: Ray) -> Seq<i64> {
    let a = fxadd(fxmul(r.direction.x, r.direction.x), fxmul(r.direction.z, r.direction.z));
    if a == 0 {
        cyl_caps(c.minimum, c.maximum, c.closed, r)
    } else {
        let b = fxadd(
            fxmul(fxmul(TWO, r.origin.x), r.direction.x),
            fxmul(fxmul(TWO, r.origin.z), r.direction.z),
        );
        let cc = fxsub(fxadd(fxmul(r.origin.x, r.origin.x), fxmul(r.origin.z, r.origin.z)), ONE);
        let disc = fxsub(fxmul(b, b), fxmul(fxmul(FOUR, a), cc));
        let denom = fxmul(TWO, a);
        if disc < 0 || denom == 0 {
            Seq::empty()
        } else {
            let sq = fxsqrt(disc);
            let ta = fxdiv(fxsub(fxneg(b), sq), denom);
            let tb = fxdiv(fxadd(fxneg(b), sq), denom);
            let lo = fxmin(ta, tb);
            let hi = fxmax(ta, tb);
            let y0 = fxadd(r.origin.y, fxmul(lo, r.direction.y));
            let y1 = fxadd(r.origin.y, fxmul(hi, r.direction.y));
            let s0: Seq<i64> = if c.minimum < y0 && y0 < c.maximum {
                seq![lo]
            } else {
                Seq::empty()
            };
            let s1: Seq<i64> = if c.minimum < y1 && y1 < c.maximum {
                seq![hi]
            } else {
                Seq::empty()
            };
            s0 + s1 + cyl_caps(c.minimum, c.maximum, c.closed, r)
        }
    }
}

/// Whether the ray at parameter `t` is within the cone cap at height `y`,
/// whose radius equals that height's magnitude.
pub open spec fn cone_check_cap(r: Ray, t: i64, y: i64) -> bool {
    let x = fxadd(r.origin.x, fxmul(t, r.direction.x));
    let z = fxadd(r.origin.z, fxmul(t, r.direction.z));
    fxadd(fxmul(x, x), fxmul(z, z)) <= fxabs(y)
}

/// Where a ray meets the end caps of a closed cone.
pub open spec fn cone_caps(minimum: i64, maximum: i64, closed: bool, r: Ray) -> Seq<i64> {
    if !closed || fxabs(r.direction.y) <= EPS {
        Seq::empty()
    } else {
        let t0 = fxdiv(fxsub(minimum, r.origin.y), r.direction.y);
        let t1 = fxdiv(fxsub(maximum, r.origin.y), r.direction.y);
        let s0: Seq<i64> = if cone_check_cap(r, t0, minimum) {
            seq![t0]
        } else {
            Seq::empty()
        };
        let s1: Seq<i64> = if cone_check_cap(r, t1, maximum) {
            seq![t1]
        } else {
            Seq::empty()
        };
        s0 + s1
    }
}

/// Where a ray meets a double cone: a quadratic with a cross term, a single
/// root where the quadratic degenerates to a line, then the caps.
pub open spec fn cone_intersect(c: Cone, r: Ray) -> Seq<i64> {
    let a = fxadd(
        fxsub(fxmul(r.direction.x, r.direction.x), fxmul(r.direction.y, r.direction.y)),
        fxmul(r.direction.z, r.direction.z),
    );
    let b = fxadd(
        fxsub(
            fxmul(fxmul(TWO, r.origin.x), r.direction.x),
            fxmul(fxmul(TWO, r.origin.y), r.direction.y),
        ),
        fxmul(fxmul(TWO, r.origin.z), r.direction.z),
    );
    let cc = fxadd(
        fxsub(fxmul(r.origin.x, r.origin.x), fxmul(r.origin.y, r.origin.y)),
        fxmul(r.origin.z, r.origin.z),
    );
    if a == 0 && b == 0 {
        Seq::empty()
    } else if a == 0 {
        let denom = fxmul(TWO, b);
        if denom == 0 {
            Seq::empty()
        } else {
            seq![fxdiv(fxneg(cc), denom)] + cone_caps(c.minimum, c.maximum, c.closed, r)
        }
    } else {
        let disc = fxsub(fxmul(b, b), fxmul(fxmul(FOUR, a), cc));
        let denom = fxmul(TWO, a);
        if disc < 0 || denom == 0 {
            Seq::empty()
        } else {
            let sq = fxsqrt(disc);
            let ta = fxdiv(fxsub(fxneg(b), sq), denom);
            let tb = fxdiv(fxadd(fxneg(b), sq), denom);
            let lo = fxmin(ta, tb);
            let hi = fxmax(ta, tb);
            let y0 = fxadd(r.origin.y, fxmul(lo, r.direction.y));
            let y1 = fxadd(r.origin.y, fxmul(hi, r.direction.y));
            let s0: Seq<i64> = if c.minimum < y0 && y0 < c.maximum {
                seq![lo]
            } else {
                Seq::empty()
            };
            let s1: Seq<i64> = if c.minimum < y1 && y1 < c.maximum {
                seq![hi]
            } else {
                Seq::empty()
            };
            s0 + s1 + cone_caps(c.minimum, c.maximum, c.closed, r)
        }
    }
}

/// The local normal of the unit sphere: the point taken as a vector.
pub open spec fn sphere_local_normal(p: Point) -> Vector {
    let center = Point { x: 0i64, y: 0i64, z: 0i64 };
    p.spec_sub(center)
}

/// The local normal of the plane: constant, straight up.
pub open spec fn plane_local_normal() -> Vector {
    Vector { x: 0i64, y: ONE, z: 0i64 }
}

/// The local normal of the cube: the axis of the largest coordinate.
pub open spec fn cube_local_normal(p: Point) -> Vector {
    let maxc = fxmax(fxmax(fxabs(p.x), fxabs(p.y)), fxabs(p.z));
    if maxc == fxabs(p.x) {
        Vector { x: p.x, y: 0i64, z: 0i64 }
    } else if maxc == fxabs(p.y) {
        Vector { x: 0i64, y: p.y, z: 0i64 }
    } else {
        Vector { x: 0i64, y: 0i64, z: p.z }
    }
}

/// The local normal of a cylinder: up or down on the caps, else radial.
pub open spec fn cylinder_local_normal(c: Cylinder, p: Point) -> Vector {
    let dist = fxadd(fxmul(p.x, p.x), fxmul(p.z, p.z));
    if dist < ONE && p.y >= fxsub(c.maximum, EPS) {
        Vector { x: 0i64, y: ONE, z: 0i64 }
    } else if dist < ONE && p.y <= fxadd(c.minimum, EPS) {
        Vector { x: 0i64, y: fxneg(ONE), z: 0i64 }
    } else {
        Vector { x: p.x, y: 0i64, z: p.z }
    }
}

/// The local normal of a cone: up or down on the caps, else sloped along the
/// surface, pointing away from the apex.
pub open spec fn cone_local_normal(c: Cone, p: Point) -> Vector {
    let dist = fxadd(fxmul(p.x, p.x), fxmul(p.z, p.z));
    if dist < ONE && p.y >= fxsub(c.maximum, EPS) {
        Vector { x: 0i64, y: ONE, z: 0i64 }
    } else if dist < ONE && p.y <= fxadd(c.minimum, EPS) {
        Vector { x: 0i64, y: fxneg(ONE), z: 0i64 }
    } else {
        let y = fxsqrt(dist);
        let y2 = if p.y > 0 {
            fxneg(y)
        } else {
            y
        };
        Vector { x: p.x, y: y2, z: p.z }
    }
}

/// The local normal of any shape at a point in its object space.
pub open spec fn spec_local_normal(s: Shape, p: Point) -> Vector {
    match s {
        Shape::Sphere(_) => sphere_local_normal(p),
        Shape::Plane(_) => plane_local_normal(),
        Shape::Cube(_) => cube_local_normal(p),
        Shape::Cylinder(c) => cylinder_local_normal(c, p),
        Shape::Cone(c) => cone_local_normal(c, p),
    }
}

/// The ray parameters where a ray in object space meets a shape.
pub open spec fn spec_local_intersect(s: Shape, r: Ray) -> Seq<i64> {
    match s {
        Shape::Sphere(_) => sphere_intersect(r),
        Shape::Plane(_) => plane_intersect(r),
        Shape::Cube(_) => cube_intersect(r),
        Shape::Cylinder(c) => cylinder_intersect(c, r),
        Shape::Cone(c) => cone_intersect(c, r),
    }
}

/// The world-space normal: the point is mapped into object space, the local
/// normal is taken there and carried back through the inverse transpose of
/// the transform, then normalized.
pub open spec fn spec_normal_at(s: Shape, p: Point) -> Vector
    recommends
        invertible(shape_transform(s)),
{
    let inv = spec_inverse(shape_transform(s)).unwrap();
    let local_point = mat_mul_point(inv, p);
    let local_normal = spec_local_normal(s, local_point);
    let world_normal = mat_mul_vector(spec_transpose(inv), local_normal);
    world_normal.spec_normalize()
}

/// The world normal before normalization: what `spec_normal_at` hands to
/// `spec_normalize`.
pub open spec fn unnormalized_normal(s: Shape, p: Point) -> Vector
    recommends
        invertible(shape_transform(s)),
{
    let inv = spec_inverse(shape_transform(s)).unwrap();
    let local_point = mat_mul_point(inv, p);
    let local_normal = spec_local_normal(s, local_point);
    mat_mul_vector(spec_transpose(inv), local_normal)
}

/// Law: wherever the world normal before normalization is of ordinary size
/// (components at most three hundred, length at least one part in five
/// thousand), the surface normal handed back has unit length within the
/// crate's tolerance. The hypothesis leaves out only the degenerate points,
/// such as a cone's apex, where the unnormalized normal is the zero vector
/// and is returned unchanged.
pub proof fn lemma_normal_at_near_unit(s: Shape, p: Point)
    requires
        invertible(shape_transform(s)),
        -3_000_000_000_000_000 <= unnormalized_normal(s, p).x <= 3_000_000_000_000_000,
        -3_000_000_000_000_000 <= unnormalized_normal(s, p).y <= 3_000_000_000_000_000,
        -3_000_000_000_000_000 <= unnormalized_normal(s, p).z <= 3_000_000_000_000_000,
        unnormalized_normal(s, p).spec_magnitude() >= 2_000_000_000,
    ensures
        crate::fx::fx_near(spec_normal_at(s, p).spec_magnitude(), ONE),
{
    assert(spec_normal_at(s, p) == unnormalized_normal(s, p).spec_normalize());
    crate::tuple::lemma_normalize_near_unit(unnormalized_normal(s, p));
}

impl Sphere {
    pub fn new(id: usize) -> (s: Sphere)
        ensures
            s == (Sphere { id, transform: spec_identity(), material: spec_default_material() }),
    {
        Sphere { id, transform: Matrix::identity(), material: Material::default() }
    }

    /// A glass sphere: fully transparent, with the refractive index of glass.
    pub fn new_glass(id: usize) -> (s: Sphere)
        ensures
            s == (Sphere {
                id,
                transform: spec_identity(),
                material: Material {
                    transparency: ONE,
                    refractive_index: 15_000_000_000_000i64,
                    ..spec_default_material()
                },
            }),
    {
        let mut material = Material::default();
        material.transparency = ONE;
        material.refractive_index = 15_000_000_000_000;
        Sphere { id, transform: Matrix::identity(), material }
    }

    pub fn local_intersect(&self, r: &Ray) -> (v: Vec<i64>)
        ensures
            v@ == sphere_intersect(*r),
    {
        Shape::Sphere(*self).local_intersect(r)
    }

    pub fn local_normal_at(&self, p: &Point) -> (n: Vector)
        ensures
            n == sphere_local_normal(*p),
    {
        Shape::Sphere(*self).local_normal_at(p)
    }

    pub fn normal_at(&self, p: Point) -> (n: Vector)
        requires
            invertible(self.transform),
        ensures
            n == spec_normal_at(Shape::Sphere(*self), p),
    {
        Shape::Sphere(*self).normal_at(p)
    }
}

impl Plane {
    pub fn new(id: usize) -> (s: Plane)
        ensures
            s == (Plane { id, transform: spec_identity(), material: spec_default_material() }),
    {
        Plane { id, transform: Matrix::identity(), material: Material::default() }
    }

    pub fn local_intersect(&self, r: &Ray) -> (v: Vec<i64>)
        ensures
            v@ == plane_intersect(*r),
    {
        Shape::Plane(*self).local_intersect(r)
    }

    pub fn local_normal_at(&self, p: &Point) -> (n: Vector)
        ensures
            n == plane_local_normal(),
    {
        Shape::Plane(*self).local_normal_at(p)
    }

    pub fn normal_at(&self, p: Point) -> (n: Vector)
        requires
            invertible(self.transform),
        ensures
            n == spec_normal_at(Shape::Plane(*self), p),
    {
        Shape::Plane(*self).normal_at(p)
    }
}

impl Cube {
    pub fn new(id: usize) -> (s: Cube)
        ensures
            s == (Cube { id, transform: spec_identity(), material: spec_default_material() }),
    {
        Cube { id, transform: Matrix::identity(), material: Material::default() }
    }

    pub fn local_intersect(&self, r: &Ray) -> (v: Vec<i64>)
        ensures
            v@ == cube_intersect(*r),
    {
        Shape::Cube(*self).local_intersect(r)
    }

    pub fn local_normal_at(&self, p: &Point) -> (n: Vector)
        ensures
            n == cube_local_normal(*p),
    {
        Shape::Cube(*self).local_normal_at(p)
    }

    pub fn normal_at(&self, p: Point) -> (n: Vector)
        requires
            invertible(self.transform),
        ensures
            n == spec_normal_at(Shape::Cube(*self), p),
    {
        Shape::Cube(*self).normal_at(p)
    }
}

impl Cylinder {
    /// A new cylinder is unbounded and open.
    pub fn new(id: usize) -> (s: Cylinder)
        ensures
            s == (Cylinder {
                id,
                transform: spec_identity(),
                material: spec_default_material(),
                minimum: i64::MIN,
                maximum: i64::MAX,
                closed: false,
            }),
    {
        Cylinder {
            id,
            transform: Matrix::identity(),
            material: Material::default(),
            minimum: i64::MIN,
            maximum: i64::MAX,
            closed: false,
        }
    }

    pub fn local_intersect(&self, r: &Ray) -> (v: Vec<i64>)
        ensures
            v@ == cylinder_intersect(*self, *r),
    {
        Shape::Cylinder(*self).local_intersect(r)
    }

    pub fn local_normal_at(&self, p: &Point) -> (n: Vector)
        ensures
            n == cylinder_local_normal(*self, *p),
    {
        Shape::Cylinder(*self).local_normal_at(p)
    }

    pub fn normal_at(&self, p: Point) -> (n: Vector)
        requires
            invertible(self.transform),
        ensures
            n == spec_normal_at(Shape::Cylinder(*self), p),
    {
        Shape::Cylinder(*self).normal_at(p)
    }
}

impl Cone {
    /// A new cone is unbounded and open.
    pub fn new(id: usize) -> (s: Cone)
        ensures
            s == (Cone {
                id,
                transform: spec_identity(),
                material: spec_default_material(),
                minimum: i64::MIN,
                maximum: i64::MAX,
                closed: false,
            }),
    {
        Cone {
            id,
            transform: Matrix::identity(),
            material: Material::default(),
            minimum: i64::MIN,
            maximum: i64::MAX,
            closed: false,
        }
    }

    pub fn local_intersect(&self, r: &Ray) -> (v: Vec<i64>)
        ensures
            v@ == cone_intersect(*self, *r),
    {
        Shape::Cone(*self).local_intersect(r)
    }

    pub fn local_normal_at(&self, p: &Point) -> (n: Vector)
        ensures
            n == cone_local_normal(*self, *p),
    {
        Shape::Cone(*self).local_normal_at(p)
    }

    pub fn normal_at(&self, p: Point) -> (n: Vector)
        requires
            invertible(self.transform),
        ensures
            n == spec_normal_at(Shape::Cone(*self), p),
    {
        Shape::Cone(*self).normal_at(p)
    }
}

/// The saturated signed infinity of a degenerate slab axis.
fn axis_infinity_exec(numerator: i64) -> (r: i64)
    ensures
        r == axis_infinity(numerator),
{
    if numerator > 0 {
        i64::MAX
    } else if numerator < 0 {
        i64::MIN
    } else {
        0
    }
}

/// One axis of the cube's slab test.
fn check_axis(origin: i64, direction: i64) -> (pair: (i64, i64))
    ensures
        pair == spec_check_axis(origin, direction),
{
    let tmin_numerator = fx_sub(fx_neg(ONE), origin);
    let tmax_numerator = fx_sub(ONE, origin);
    let tmin: i64;
    let tmax: i64;
    if fx_abs(direction) >= EPS {
        tmin = fx_div(tmin_numerator, direction);
        tmax = fx_div(tmax_numerator, direction);
    } else {
        tmin = axis_infinity_exec(tmin_numerator);
        tmax = axis_infinity_exec(tmax_numerator);
    }
    if tmin > tmax {
        (tmax, tmin)
    } else {
        (tmin, tmax)
    }
}

impl Shape {
    pub fn id(&self) -> (r: usize)
        ensures
            r == shape_id(*self),
    {
        match self {
            Shape::Sphere(v) => v.id,
            Shape::Plane(v) => v.id,
            Shape::Cube(v) => v.id,
            Shape::Cylinder(v) => v.id,
            Shape::Cone(v) => v.id,
        }
    }

    pub fn get_transform(&self) -> (t: Matrix)
        ensures
            t == shape_transform(*self),
    {
        match self {
            Shape::Sphere(v) => v.transform,
            Shape::Plane(v) => v.transform,
            Shape::Cube(v) => v.transform,
            Shape::Cylinder(v) => v.transform,
            Shape::Cone(v) => v.transform,
        }
    }

    pub fn set_transform(&mut self, transform: Matrix)
        ensures
            *final(self) == shape_with_transform(*old(self), transform),
    {
        match self {
            Shape::Sphere(v) => v.transform = transform,
            Shape::Plane(v) => v.transform = transform,
            Shape::Cube(v) => v.transform = transform,
            Shape::Cylinder(v) => v.transform = transform,
            Shape::Cone(v) => v.transform = transform,
        }
    }

    pub fn get_material(&self) -> (m: Material)
        ensures
            m == shape_material(*self),
    {
        match self {
            Shape::Sphere(v) => v.material,
            Shape::Plane(v) => v.material,
            Shape::Cube(v) => v.material,
            Shape::Cylinder(v) => v.material,
            Shape::Cone(v) => v.material,
        }
    }

    pub fn set_material(&mut self, material: Material)
        ensures
            *final(self) == shape_with_material(*old(self), material),
    {
        match self {
            Shape::Sphere(v) => v.material = material,
            Shape::Plane(v) => v.material = material,
            Shape::Cube(v) => v.material = material,
            Shape::Cylinder(v) => v.material = material,
            Shape::Cone(v) => v.material = material,
        }
    }

    pub fn local_normal_at(&self, p: &Point) -> (n: Vector)
        ensures
            n == spec_local_normal(*self, *p),
    {
        match self {
            Shape::Sphere(_) => {
                let center = Point::new(0, 0, 0);
                p.sub(center)
            },
            Shape::Plane(_) => Vector::new(0, ONE, 0),
            Shape::Cube(_) => {
                let ax = fx_abs(p.x);
                let ay = fx_abs(p.y);
                let az = fx_abs(p.z);
                let maxc = fx_max(fx_max(ax, ay), az);
                if maxc == ax {
                    Vector::new(p.x, 0, 0)
                } else if maxc == ay {
                    Vector::new(0, p.y, 0)
                } else {
                    Vector::new(0, 0, p.z)
                }
            },
            Shape::Cylinder(c) => {
                let dist = fx_add(fx_mul(p.x, p.x), fx_mul(p.z, p.z));
                if dist < ONE && p.y >= fx_sub(c.maximum, EPS) {
                    Vector::new(0, ONE, 0)
                } else if dist < ONE && p.y <= fx_add(c.minimum, EPS) {
                    Vector::new(0, fx_neg(ONE), 0)
                } else {
                    Vector::new(p.x, 0, p.z)
                }
            },
            Shape::Cone(c) => {
                proof {
                    crate::fx::lemma_square_nonneg(p.x);
                    crate::fx::lemma_square_nonneg(p.z);
                }
                let dist = fx_add(fx_mul(p.x, p.x), fx_mul(p.z, p.z));
                if dist < ONE && p.y >= fx_sub(c.maximum, EPS) {
                    Vector::new(0, ONE, 0)
                } else if dist < ONE && p.y <= fx_add(c.minimum, EPS) {
                    Vector::new(0, fx_neg(ONE), 0)
                } else {
                    let y = fx_sqrt(dist);
                    let y2 = if p.y > 0 {
                        fx_neg(y)
                    } else {
                        y
                    };
                    Vector::new(p.x, y2, p.z)
                }
            },
        }
    }

    pub fn local_intersect(&self, r: &Ray) -> (v: Vec<i64>)
        ensures
            v@ == spec_local_intersect(*self, *r),
    {
        match self {
            Shape::Sphere(_) => {
                let mut xs: Vec<i64> = Vec::new();
                let center = Point::new(0, 0, 0);
                let sphere_to_ray = r.origin.sub(center);
                let a = r.direction.dot(r.direction);
                let b = fx_mul(TWO, r.direction.dot(sphere_to_ray));
                let c = fx_sub(sphere_to_ray.dot(sphere_to_ray), ONE);
                let disc = fx_sub(fx_mul(b, b), fx_mul(fx_mul(FOUR, a), c));
                let denom = fx_mul(TWO, a);
                if !(disc < 0 || denom == 0) {
                    let sq = fx_sqrt(disc);
                    let t1 = fx_div(fx_sub(fx_neg(b), sq), denom);
                    let t2 = fx_div(fx_add(fx_neg(b), sq), denom);
                    xs.push(fx_min(t1, t2));
                    xs.push(fx_max(t2, t1));
                    proof {
                        assert(xs@ =~= sphere_intersect(*r));
                    }
                }
                xs
            },
            Shape::Plane(_) => {
                let mut xs: Vec<i64> = Vec::new();
                if r.direction.y != 0 {
                    xs.push(fx_div(fx_neg(r.origin.y), r.direction.y));
                    proof {
                        assert(xs@ =~= plane_intersect(*r));
                    }
                }
                xs
            },
            Shape::Cube(_) => {
                let mut xs: Vec<i64> = Vec::new();
                let xt = check_axis(r.origin.x, r.direction.x);
                let yt = check_axis(r.origin.y, r.direction.y);
                let zt = check_axis(r.origin.z, r.direction.z);
                let tmin = fx_max(fx_max(xt.0, yt.0), zt.0);
                let tmax = fx_min(fx_min(xt.1, yt.1), zt.1);
                if !(tmin > tmax) {
                    xs.push(tmin);
                    xs.push(tmax);
                    proof {
                        assert(xs@ =~= cube_intersect(*r));
                    }
                }
                xs
            },
            Shape::Cylinder(c) => {
                let mut xs: Vec<i64> = Vec::new();
                let a = fx_add(
                    fx_mul(r.direction.x, r.direction.x),
                    fx_mul(r.direction.z, r.direction.z),
                );
                if a == 0 {
                    intersect_caps_cylinder(c.minimum, c.maximum, c.closed, r, &mut xs);
                    proof {
                        assert(xs@ =~= cylinder_intersect(*c, *r));
                    }
                } else {
                    let b = fx_add(
                        fx_mul(fx_mul(TWO, r.origin.x), r.direction.x),
                        fx_mul(fx_mul(TWO, r.origin.z), r.direction.z),
                    );
                    let cc = fx_sub(
                        fx_add(fx_mul(r.origin.x, r.origin.x), fx_mul(r.origin.z, r.origin.z)),
                        ONE,
                    );
                    let disc = fx_sub(fx_mul(b, b), fx_mul(fx_mul(FOUR, a), cc));
                    let denom = fx_mul(TWO, a);
                    if !(disc < 0 || denom == 0) {
                        let sq = fx_sqrt(disc);
                        let ta = fx_div(fx_sub(fx_neg(b), sq), denom);
                        let tb = fx_div(fx_add(fx_neg(b), sq), denom);
                        let lo = fx_min(ta, tb);
                        let hi = fx_max(ta, tb);
                        let y0 = fx_add(r.origin.y, fx_mul(lo, r.direction.y));
                        if c.minimum < y0 && y0 < c.maximum {
                            xs.push(lo);
                        }
                        let y1 = fx_add(r.origin.y, fx_mul(hi, r.direction.y));
                        if c.minimum < y1 && y1 < c.maximum {
                            xs.push(hi);
                        }
                        intersect_caps_cylinder(c.minimum, c.maximum, c.closed, r, &mut xs);
                        proof {
                            assert(xs@ =~= cylinder_intersect(*c, *r));
                        }
                    }
                }
                xs
            },
            Shape::Cone(c) => {
                let mut xs: Vec<i64> = Vec::new();
                let a = fx_add(
                    fx_sub(
                        fx_mul(r.direction.x, r.direction.x),
                        fx_mul(r.direction.y, r.direction.y),
                    ),
                    fx_mul(r.direction.z, r.direction.z),
                );
                let b = fx_add(
                    fx_sub(
                        fx_mul(fx_mul(TWO, r.origin.x), r.direction.x),
                        fx_mul(fx_mul(TWO, r.origin.y), r.direction.y),
                    ),
                    fx_mul(fx_mul(TWO, r.origin.z), r.direction.z),
                );
                let cc = fx_add(
                    fx_sub(fx_mul(r.origin.x, r.origin.x), fx_mul(r.origin.y, r.origin.y)),
                    fx_mul(r.origin.z, r.origin.z),
                );
                if a == 0 && b == 0 {
                    // no surface along this ray
                } else if a == 0 {
                    let denom = fx_mul(TWO, b);
                    if denom != 0 {
                        xs.push(fx_div(fx_neg(cc), denom));
                        intersect_caps_cone(c.minimum, c.maximum, c.closed, r, &mut xs);
                        proof {
                            assert(xs@ =~= cone_intersect(*c, *r));
                        }
                    }
                } else {
                    let disc = fx_sub(fx_mul(b, b), fx_mul(fx_mul(FOUR, a), cc));
                    let denom = fx_mul(TWO, a);
                    if !(disc < 0 || denom == 0) {
                        let sq = fx_sqrt(disc);
                        let ta = fx_div(fx_sub(fx_neg(b), sq), denom);
                        let tb = fx_div(fx_add(fx_neg(b), sq), denom);
                        let lo = fx_min(ta, tb);
                        let hi = fx_max(ta, tb);
                        let y0 = fx_add(r.origin.y, fx_mul(lo, r.direction.y));
                        if c.minimum < y0 && y0 < c.maximum {
                            xs.push(lo);
                        }
                        let y1 = fx_add(r.origin.y, fx_mul(hi, r.direction.y));
                        if c.minimum < y1 && y1 < c.maximum {
                            xs.push(hi);
                        }
                        intersect_caps_cone(c.minimum, c.maximum, c.closed, r, &mut xs);
                        proof {
                            assert(xs@ =~= cone_intersect(*c, *r));
                        }
                    }
                }
                xs
            },
        }
    }

    pub fn normal_at(&self, p: Point) -> (n: Vector)
        requires
            invertible(shape_transform(*self)),
        ensures
            n == spec_normal_at(*self, p),
    {
        let inv = self.get_transform().inverted();
        let local_point = inv.mul_point(p);
        let local_normal = self.local_normal_at(&local_point);
        let world_normal = inv.transpose().mul_vector(local_normal);
        world_normal.normalize()
    }
}

/// Append the cap hits of a closed cylinder to the list.
fn intersect_caps_cylinder(minimum: i64, maximum: i64, closed: bool, r: &Ray, xs: &mut Vec<i64>)
    ensures
        final(xs)@ == old(xs)@ + cyl_caps(minimum, maximum, closed, *r),
{
    if !closed || fx_abs(r.direction.y) <= EPS {
        proof {
            assert(xs@ =~= xs@ + cyl_caps(minimum, maximum, closed, *r));
        }
        return ;
    }
    let ghost xs0 = xs@;
    let t0 = fx_div(fx_sub(minimum, r.origin.y), r.direction.y);
    if check_cap_cylinder(r, t0) {
        xs.push(t0);
    }
    let t1 = fx_div(fx_sub(maximum, r.origin.y), r.direction.y);
    if check_cap_cylinder(r, t1) {
        xs.push(t1);
    }
    proof {
        assert(xs@ =~= xs0 + cyl_caps(minimum, maximum, closed, *r));
    }
}

/// Whether the ray at `t` lands within a cylinder cap.
fn check_cap_cylinder(r: &Ray, t: i64) -> (b: bool)
    ensures
        b == cyl_check_cap(*r, t),
{
    let x = fx_add(r.origin.x, fx_mul(t, r.direction.x));
    let z = fx_add(r.origin.z, fx_mul(t, r.direction.z));
    fx_add(fx_mul(x, x), fx_mul(z, z)) <= ONE
}

/// Append the cap hits of a closed cone to the list.
fn intersect_caps_cone(minimum: i64, maximum: i64, closed: bool, r: &Ray, xs: &mut Vec<i64>)
    ensures
        final(xs)@ == old(xs)@ + cone_caps(minimum, maximum, closed, *r),
{
    if !closed || fx_abs(r.direction.y) <= EPS {
        proof {
            assert(xs@ =~= xs@ + cone_caps(minimum, maximum, closed, *r));
        }
        return ;
    }
    let ghost xs0 = xs@;
    let t0 = fx_div(fx_sub(minimum, r.origin.y), r.direction.y);
    if check_cap_cone(r, t0, minimum) {
        xs.push(t0);
    }
    let t1 = fx_div(fx_sub(maximum, r.origin.y), r.direction.y);
    if check_cap_cone(r, t1, maximum) {
        xs.push(t1);
    }
    proof {
        assert(xs@ =~= xs0 + cone_caps(minimum, maximum, closed, *r));
    }
}

/// Whether the ray at `t` lands within the cone cap at height `y`.
fn check_cap_cone(r: &Ray, t: i64, y: i64) -> (b: bool)
    ensures
        b == cone_check_cap(*r, t, y),
{
    let x = fx_add(r.origin.x, fx_mul(t, r.direction.x));
    let z = fx_add(r.origin.z, fx_mul(t, r.direction.z));
    fx_add(fx_mul(x, x), fx_mul(z, z)) <= fx_abs(y)
}

} // verus!
