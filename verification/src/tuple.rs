//! Points, vectors, and the four-component tuple they share.
//!
//! A tuple's `w` component is `ONE` for a point and `0` for a vector, so the
//! affine operations keep the point/vector distinction. All componentwise
//! arithmetic is the saturating fixed-point arithmetic of `fx`, and each
//! method's contract states the resulting components exactly.

use vstd::prelude::*;

use crate::fx::{
    fx_add, fx_div, fx_mul, fx_neg, fx_sqrt, fx_sub, fxadd, fxdiv, fxmul, fxneg, fxsqrt, fxsub,
    iabs, ONE, SCALE,
};

verus! {

#[derive(Clone, Copy, Debug, PartialEq, Eq, Structural)]
pub struct Tuple {
    pub x: i64,
    pub y: i64,
    pub z: i64,
    pub w: i64,
}

#[derive(Clone, Copy, Debug, PartialEq, Eq, Structural)]
pub struct Point {
    pub x: i64,
    pub y: i64,
    pub z: i64,
}

#[derive(Clone, Copy, Debug, PartialEq, Eq, Structural)]
pub struct Vector {
    pub x: i64,
    pub y: i64,
    pub z: i64,
}

/// The squared length of the three spatial components, saturated.
pub open spec fn mag2(x: i64, y: i64, z: i64) -> i64 {
    fxadd(fxadd(fxmul(x, x), fxmul(y, y)), fxmul(z, z))
}

/// The length of the three spatial components: the fixed-point square root
/// of the saturated sum of squares.
pub open spec fn mag3(x: i64, y: i64, z: i64) -> i64 {
    fxsqrt(mag2(x, y, z))
}

/// The dot product of two spatial vectors.
pub open spec fn dot3(ax: i64, ay: i64, az: i64, bx: i64, by: i64, bz: i64) -> i64 {
    fxadd(fxadd(fxmul(ax, bx), fxmul(ay, by)), fxmul(az, bz))
}

impl Tuple {
    pub fn point(x: i64, y: i64, z: i64) -> (t: Tuple)
        ensures
            t == (Tuple { x, y, z, w: ONE }),
    {
        Tuple { x, y, z, w: ONE }
    }

    pub fn vector(x: i64, y: i64, z: i64) -> (t: Tuple)
        ensures
            t == (Tuple { x, y, z, w: 0i64 }),
    {
        Tuple { x, y, z, w: 0 }
    }

    pub fn x(&self) -> (r: i64)
        ensures
            r == self.x,
    {
        self.x
    }

    pub fn y(&self) -> (r: i64)
        ensures
            r == self.y,
    {
        self.y
    }

    pub fn z(&self) -> (r: i64)
        ensures
            r == self.z,
    {
        self.z
    }

    pub fn w(&self) -> (r: i64)
        ensures
            r == self.w,
    {
        self.w
    }

    pub fn is_point(&self) -> (r: bool)
        ensures
            r == (self.w == ONE),
    {
        self.w == ONE
    }

    pub fn is_vector(&self) -> (r: bool)
        ensures
            r == (self.w == 0),
    {
        self.w == 0
    }

    /// The tuple's length over all four components.
    pub open spec fn spec_magnitude(self) -> i64 {
        fxsqrt(fxadd(mag2(self.x, self.y, self.z), fxmul(self.w, self.w)))
    }

    pub fn magnitude(&self) -> (m: i64)
        ensures
            m == self.spec_magnitude(),
    {
        proof {
            crate::fx::lemma_square_nonneg(self.x);
            crate::fx::lemma_square_nonneg(self.y);
            crate::fx::lemma_square_nonneg(self.z);
            crate::fx::lemma_square_nonneg(self.w);
        }
        let s = fx_add(
            fx_add(fx_add(fx_mul(self.x, self.x), fx_mul(self.y, self.y)), fx_mul(self.z, self.z)),
            fx_mul(self.w, self.w),
        );
        fx_sqrt(s)
    }

    /// Each component divided by the magnitude; the zero tuple is unchanged.
    pub open spec fn spec_normalize(self) -> Tuple {
        let m = self.spec_magnitude();
        if m == 0 {
            self
        } else {
            Tuple {
                x: fxdiv(self.x, m),
                y: fxdiv(self.y, m),
                z: fxdiv(self.z, m),
                w: fxdiv(self.w, m),
            }
        }
    }

    pub fn normalize(&self) -> (t: Tuple)
        ensures
            t == self.spec_normalize(),
    {
        let m = self.magnitude();
        if m == 0 {
            *self
        } else {
            Tuple {
                x: fx_div(self.x, m),
                y: fx_div(self.y, m),
                z: fx_div(self.z, m),
                w: fx_div(self.w, m),
            }
        }
    }

    /// The dot product over all four components.
    pub open spec fn spec_dot(self, other: Tuple) -> i64 {
        fxadd(dot3(self.x, self.y, self.z, other.x, other.y, other.z), fxmul(self.w, other.w))
    }

    pub fn dot(&self, other: Tuple) -> (r: i64)
        ensures
            r == self.spec_dot(other),
    {
        fx_add(
            fx_add(fx_add(fx_mul(self.x, other.x), fx_mul(self.y, other.y)), fx_mul(self.z, other.z)),
            fx_mul(self.w, other.w),
        )
    }

    /// The cross product of the spatial components, as a vector tuple.
    pub open spec fn spec_cross(self, other: Tuple) -> Tuple {
        Tuple {
            x: fxsub(fxmul(self.y, other.z), fxmul(self.z, other.y)),
            y: fxsub(fxmul(self.z, other.x), fxmul(self.x, other.z)),
            z: fxsub(fxmul(self.x, other.y), fxmul(self.y, other.x)),
            w: 0,
        }
    }

    pub fn cross(&self, other: Tuple) -> (t: Tuple)
        ensures
            t == self.spec_cross(other),
    {
        Tuple {
            x: fx_sub(fx_mul(self.y, other.z), fx_mul(self.z, other.y)),
            y: fx_sub(fx_mul(self.z, other.x), fx_mul(self.x, other.z)),
            z: fx_sub(fx_mul(self.x, other.y), fx_mul(self.y, other.x)),
            w: 0,
        }
    }

    pub open spec fn spec_add(self, other: Tuple) -> Tuple {
        Tuple {
            x: fxadd(self.x, other.x),
            y: fxadd(self.y, other.y),
            z: fxadd(self.z, other.z),
            w: fxadd(self.w, other.w),
        }
    }

    pub fn add(&self, other: Tuple) -> (t: Tuple)
        ensures
            t == self.spec_add(other),
    {
        Tuple {
            x: fx_add(self.x, other.x),
            y: fx_add(self.y, other.y),
            z: fx_add(self.z, other.z),
            w: fx_add(self.w, other.w),
        }
    }

    pub open spec fn spec_sub(self, other: Tuple) -> Tuple {
        Tuple {
            x: fxsub(self.x, other.x),
            y: fxsub(self.y, other.y),
            z: fxsub(self.z, other.z),
            w: fxsub(self.w, other.w),
        }
    }

    pub fn sub(&self, other: Tuple) -> (t: Tuple)
        ensures
            t == self.spec_sub(other),
    {
        Tuple {
            x: fx_sub(self.x, other.x),
            y: fx_sub(self.y, other.y),
            z: fx_sub(self.z, other.z),
            w: fx_sub(self.w, other.w),
        }
    }

    pub open spec fn spec_neg(self) -> Tuple {
        Tuple { x: fxneg(self.x), y: fxneg(self.y), z: fxneg(self.z), w: fxneg(self.w) }
    }

    pub fn neg(&self) -> (t: Tuple)
        ensures
            t == self.spec_neg(),
    {
        Tuple { x: fx_neg(self.x), y: fx_neg(self.y), z: fx_neg(self.z), w: fx_neg(self.w) }
    }

    pub open spec fn spec_scale(self, s: i64) -> Tuple {
        Tuple {
            x: fxmul(self.x, s),
            y: fxmul(self.y, s),
            z: fxmul(self.z, s),
            w: fxmul(self.w, s),
        }
    }

    pub fn scale(&self, s: i64) -> (t: Tuple)
        ensures
            t == self.spec_scale(s),
    {
        Tuple {
            x: fx_mul(self.x, s),
            y: fx_mul(self.y, s),
            z: fx_mul(self.z, s),
            w: fx_mul(self.w, s),
        }
    }

    pub open spec fn spec_divide(self, s: i64) -> Tuple
        recommends
            s != 0,
    {
        Tuple {
            x: fxdiv(self.x, s),
            y: fxdiv(self.y, s),
            z: fxdiv(self.z, s),
            w: fxdiv(self.w, s),
        }
    }

    pub fn divide(&self, s: i64) -> (t: Tuple)
        requires
            s != 0,
        ensures
            t == self.spec_divide(s),
    {
        Tuple {
            x: fx_div(self.x, s),
            y: fx_div(self.y, s),
            z: fx_div(self.z, s),
            w: fx_div(self.w, s),
        }
    }
}

/// One component of a normalized vector: how the magnitude of the quotient
/// relates to the exact scaled ratio, squared, with one truncation step of
/// slack on the low side.
proof fn lemma_scaled_quotient_bounds(x: i64, m: i64)
    requires
        m >= 2_000_000_000,
        iabs(x as int) <= m + 5_500_000,
    ensures
        iabs(fxdiv(x, m) as int) <= 20_000_000_000_000,
        iabs(fxdiv(x, m) as int) * iabs(fxdiv(x, m) as int) * ((m as int) * (m as int)) <= (
        x as int) * (x as int) * ((SCALE as int) * (SCALE as int)),
        iabs(fxdiv(x, m) as int) * iabs(fxdiv(x, m) as int) * ((m as int) * (m as int)) + 2 * iabs(
            x as int,
        ) * (SCALE as int) * (m as int) >= (x as int) * (x as int) * ((SCALE as int) * (
        SCALE as int)),
{
    let s = SCALE as int;
    let mi = m as int;
    let a = iabs(x as int);
    assert(a * SCALE < m * i64::MAX) by (nonlinear_arith)
        requires
            a <= mi + 5_500_000,
            mi >= 2_000_000_000,
            a >= 0,
            mi == m as int,
            SCALE as int == 10_000_000_000_000,
            i64::MAX as int == 0x7fffffffffffffff,
    ;
    crate::fx::lemma_fxdiv_brackets(x, m);
    let q = iabs(fxdiv(x, m) as int);
    let u = a * s;
    let k = q * mi;
    assert(u >= 0 && u == a * s) by (nonlinear_arith)
        requires
            a >= 0,
            s > 0,
            u == a * s,
    ;
    assert(q <= 20_000_000_000_000) by (nonlinear_arith)
        requires
            k <= u,
            u == a * s,
            a <= mi + 5_500_000,
            mi >= 2_000_000_000,
            s == 10_000_000_000_000,
            k == q * mi,
            q >= 0,
    ;
    assert(k >= 0) by (nonlinear_arith)
        requires
            q >= 0,
            mi > 0,
            k == q * mi,
    ;
    assert((q + 1) * mi == k + mi) by (nonlinear_arith)
        requires
            k == q * mi,
    ;
    assert(u < k + mi);
    assert(k * k <= u * u) by (nonlinear_arith)
        requires
            0 <= k <= u,
    ;
    assert(k * k + 2 * u * mi >= u * u) by (nonlinear_arith)
        requires
            u < k + mi,
            k >= 0,
            u >= 0,
            mi > 0,
    ;
    assert(k * k == q * q * (mi * mi)) by (nonlinear_arith)
        requires
            k == q * mi,
    ;
    assert(u * u == a * a * (s * s)) by (nonlinear_arith)
        requires
            u == a * s,
    ;
    assert(a * a == (x as int) * (x as int)) by (nonlinear_arith)
        requires
            a == iabs(x as int),
    ;
    assert(2 * u * mi == 2 * a * s * mi) by (nonlinear_arith)
        requires
            u == a * s,
    ;
}

/// Law: normalizing any vector of ordinary size yields a vector of unit
/// length, within the crate's tolerance. "Ordinary size" leaves out only
/// what the scalar range cannot carry: components at most three hundred in
/// magnitude, and a length of at least one part in five thousand.
pub proof fn lemma_normalize_near_unit(v: Vector)
    requires
        -3_000_000_000_000_000 <= v.x <= 3_000_000_000_000_000,
        -3_000_000_000_000_000 <= v.y <= 3_000_000_000_000_000,
        -3_000_000_000_000_000 <= v.z <= 3_000_000_000_000_000,
        v.spec_magnitude() >= 2_000_000_000,
    ensures
        crate::fx::fx_near(v.spec_normalize().spec_magnitude(), ONE),
{
    let s = SCALE as int;
    let x = v.x as int;
    let y = v.y as int;
    let z = v.z as int;
    crate::fx::lemma_fxmul_square(v.x);
    crate::fx::lemma_fxmul_square(v.y);
    crate::fx::lemma_fxmul_square(v.z);
    let qx = fxmul(v.x, v.x) as int;
    let qy = fxmul(v.y, v.y) as int;
    let qz = fxmul(v.z, v.z) as int;
    assert(qx <= 900_000_000_000_000_000 && qy <= 900_000_000_000_000_000 && qz
        <= 900_000_000_000_000_000) by (nonlinear_arith)
        requires
            s * qx <= x * x,
            s * qy <= y * y,
            s * qz <= z * z,
            -3_000_000_000_000_000 <= x <= 3_000_000_000_000_000,
            -3_000_000_000_000_000 <= y <= 3_000_000_000_000_000,
            -3_000_000_000_000_000 <= z <= 3_000_000_000_000_000,
            s == 10_000_000_000_000,
            qx >= 0,
            qy >= 0,
            qz >= 0,
    ;
    let s2 = mag2(v.x, v.y, v.z) as int;
    assert(s2 == qx + qy + qz);
    let t = x * x + y * y + z * z;
    assert(s * s2 <= t && t < s * s2 + 3 * s) by (nonlinear_arith)
        requires
            s * qx <= x * x < s * (qx + 1),
            s * qy <= y * y < s * (qy + 1),
            s * qz <= z * z < s * (qz + 1),
            s2 == qx + qy + qz,
            t == x * x + y * y + z * z,
            s > 0,
    ;
    crate::fx::lemma_isqrt_exists(s2 * s);
    let m = crate::fx::isqrt_spec(s2 * s);
    assert(m <= 5_200_000_000_000_000) by (nonlinear_arith)
        requires
            m * m <= s2 * s,
            s2 <= 2_700_000_000_000_000_000,
            s == 10_000_000_000_000,
            m >= 0,
    ;
    assert(v.spec_magnitude() as int == m);
    let mv = v.spec_magnitude();
    assert(mv as int >= 2_000_000_000);
    assert(m * m <= t) by (nonlinear_arith)
        requires
            m * m <= s2 * s,
            s * s2 <= t,
            s2 * s == s * s2,
    ;
    assert(t < (m + 1) * (m + 1) + 30_000_000_000_000) by (nonlinear_arith)
        requires
            s2 * s < (m + 1) * (m + 1),
            t < s * s2 + 3 * s,
            s == 10_000_000_000_000,
            s2 * s == s * s2,
    ;
    assert(iabs(x) <= m + 5_500_000 && iabs(y) <= m + 5_500_000 && iabs(z) <= m + 5_500_000)
        by (nonlinear_arith)
        requires
            x * x <= t,
            y * y <= t,
            z * z <= t,
            t < (m + 1) * (m + 1) + 30_000_000_000_000,
            m >= 2_000_000_000,
    ;
    lemma_scaled_quotient_bounds(v.x, mv);
    lemma_scaled_quotient_bounds(v.y, mv);
    lemma_scaled_quotient_bounds(v.z, mv);
    let n = v.spec_normalize();
    assert(n == (Vector { x: fxdiv(v.x, mv), y: fxdiv(v.y, mv), z: fxdiv(v.z, mv) }));
    let qnx = iabs(n.x as int);
    let qny = iabs(n.y as int);
    let qnz = iabs(n.z as int);
    crate::fx::lemma_fxmul_square(n.x);
    crate::fx::lemma_fxmul_square(n.y);
    crate::fx::lemma_fxmul_square(n.z);
    let px = fxmul(n.x, n.x) as int;
    let py = fxmul(n.y, n.y) as int;
    let pz = fxmul(n.z, n.z) as int;
    assert(n.x as int * (n.x as int) == qnx * qnx) by (nonlinear_arith)
        requires
            qnx == iabs(n.x as int),
    ;
    assert(n.y as int * (n.y as int) == qny * qny) by (nonlinear_arith)
        requires
            qny == iabs(n.y as int),
    ;
    assert(n.z as int * (n.z as int) == qnz * qnz) by (nonlinear_arith)
        requires
            qnz == iabs(n.z as int),
    ;
    let sq = qnx * qnx + qny * qny + qnz * qnz;
    // the sum of the squared quotients, against the exact squared ratio
    assert(sq * (m * m) == qnx * qnx * (m * m) + qny * qny * (m * m) + qnz * qnz * (m * m))
        by (nonlinear_arith)
        requires
            sq == qnx * qnx + qny * qny + qnz * qnz,
    ;
    assert(t * (s * s) == x * x * (s * s) + y * y * (s * s) + z * z * (s * s)) by (nonlinear_arith)
        requires
            t == x * x + y * y + z * z,
    ;
    assert(sq * (m * m) <= t * (s * s));
    assert(sq * (m * m) + 2 * (iabs(x) + iabs(y) + iabs(z)) * s * m >= t * (s * s))
        by (nonlinear_arith)
        requires
            sq * (m * m) == qnx * qnx * (m * m) + qny * qny * (m * m) + qnz * qnz * (m * m),
            t * (s * s) == x * x * (s * s) + y * y * (s * s) + z * z * (s * s),
            qnx * qnx * (m * m) + 2 * iabs(x) * s * m >= x * x * (s * s),
            qny * qny * (m * m) + 2 * iabs(y) * s * m >= y * y * (s * s),
            qnz * qnz * (m * m) + 2 * iabs(z) * s * m >= z * z * (s * s),
    ;
    // upper side: the squared sum stays under the squared tolerance band
    assert(t * (s * s) < ((s + 200_000_000) * (s + 200_000_000)) * (m * m)) by (nonlinear_arith)
        requires
            t < (m + 1) * (m + 1) + 30_000_000_000_000,
            m >= 2_000_000_000,
            s == 10_000_000_000_000,
    ;
    assert(sq < (s + 200_000_000) * (s + 200_000_000)) by (nonlinear_arith)
        requires
            sq * (m * m) < ((s + 200_000_000) * (s + 200_000_000)) * (m * m),
            m > 0,
    ;
    // lower side: the truncations cost at most a few scaled units
    assert(t * (s * s) >= (m * m) * (s * s)) by (nonlinear_arith)
        requires
            t >= m * m,
            s > 0,
    ;
    assert(sq * (m * m) >= (s * s - 7 * s) * (m * m)) by (nonlinear_arith)
        requires
            sq * (m * m) + 2 * (iabs(x) + iabs(y) + iabs(z)) * s * m >= t * (s * s),
            t * (s * s) >= (m * m) * (s * s),
            iabs(x) <= m + 5_500_000,
            iabs(y) <= m + 5_500_000,
            iabs(z) <= m + 5_500_000,
            iabs(x) >= 0,
            iabs(y) >= 0,
            iabs(z) >= 0,
            m >= 2_000_000_000,
            s == 10_000_000_000_000,
    ;
    assert(sq >= s * s - 7 * s) by (nonlinear_arith)
        requires
            sq * (m * m) >= (s * s - 7 * s) * (m * m),
            m > 0,
    ;
    // carry the band through the final square root
    let s2n = mag2(n.x, n.y, n.z) as int;
    assert(s2n == px + py + pz);
    assert(s * s2n <= sq && sq < s * s2n + 3 * s) by (nonlinear_arith)
        requires
            s * px <= qnx * qnx < s * (px + 1),
            s * py <= qny * qny < s * (py + 1),
            s * pz <= qnz * qnz < s * (pz + 1),
            s2n == px + py + pz,
            sq == qnx * qnx + qny * qny + qnz * qnz,
            s > 0,
    ;
    crate::fx::lemma_isqrt_exists(s2n * s);
    let w = crate::fx::isqrt_spec(s2n * s);
    assert(s2n * s <= sq && s2n * s >= sq - 3 * s) by (nonlinear_arith)
        requires
            s * s2n <= sq,
            sq < s * s2n + 3 * s,
            s2n * s == s * s2n,
    ;
    assert(w < s + 200_000_000) by (nonlinear_arith)
        requires
            w * w <= s2n * s,
            s2n * s <= sq,
            sq < (s + 200_000_000) * (s + 200_000_000),
            w >= 0,
            s == 10_000_000_000_000,
    ;
    assert(w >= s - 6) by (nonlinear_arith)
        requires
            s2n * s < (w + 1) * (w + 1),
            s2n * s >= sq - 3 * s,
            sq >= s * s - 7 * s,
            s == 10_000_000_000_000,
            w >= 0,
    ;
    assert(n.spec_magnitude() as int == w);
}

/// Law: a vector of unit length is unchanged by normalization, so the
/// magnitude of its normalization is exactly one.
pub proof fn lemma_normalize_unit(v: Vector)
    requires
        v.spec_magnitude() == crate::fx::ONE,
    ensures
        v.spec_normalize() == v,
        v.spec_normalize().spec_magnitude() == crate::fx::ONE,
{
    crate::fx::lemma_fxdiv_one(v.x);
    crate::fx::lemma_fxdiv_one(v.y);
    crate::fx::lemma_fxdiv_one(v.z);
}

impl Point {
    pub fn new(x: i64, y: i64, z: i64) -> (p: Point)
        ensures
            p == (Point { x, y, z }),
    {
        Point { x, y, z }
    }

    /// A point moved along a vector is a point.
    pub open spec fn spec_add(self, v: Vector) -> Point {
        Point { x: fxadd(self.x, v.x), y: fxadd(self.y, v.y), z: fxadd(self.z, v.z) }
    }

    pub fn add(&self, v: Vector) -> (p: Point)
        ensures
            p == self.spec_add(v),
    {
        Point { x: fx_add(self.x, v.x), y: fx_add(self.y, v.y), z: fx_add(self.z, v.z) }
    }

    /// The difference of two points is the vector between them.
    pub open spec fn spec_sub(self, other: Point) -> Vector {
        Vector { x: fxsub(self.x, other.x), y: fxsub(self.y, other.y), z: fxsub(self.z, other.z) }
    }

    pub fn sub(&self, other: Point) -> (v: Vector)
        ensures
            v == self.spec_sub(other),
    {
        Vector { x: fx_sub(self.x, other.x), y: fx_sub(self.y, other.y), z: fx_sub(self.z, other.z) }
    }

    /// A point moved against a vector is a point.
    pub open spec fn spec_sub_vector(self, v: Vector) -> Point {
        Point { x: fxsub(self.x, v.x), y: fxsub(self.y, v.y), z: fxsub(self.z, v.z) }
    }

    pub fn sub_vector(&self, v: Vector) -> (p: Point)
        ensures
            p == self.spec_sub_vector(v),
    {
        Point { x: fx_sub(self.x, v.x), y: fx_sub(self.y, v.y), z: fx_sub(self.z, v.z) }
    }

    pub open spec fn spec_neg(self) -> Point {
        Point { x: fxneg(self.x), y: fxneg(self.y), z: fxneg(self.z) }
    }

    pub fn neg(&self) -> (p: Point)
        ensures
            p == self.spec_neg(),
    {
        Point { x: fx_neg(self.x), y: fx_neg(self.y), z: fx_neg(self.z) }
    }
}

impl Vector {
    pub fn new(x: i64, y: i64, z: i64) -> (v: Vector)
        ensures
            v == (Vector { x, y, z }),
    {
        Vector { x, y, z }
    }

    /// The vector's length.
    pub open spec fn spec_magnitude(self) -> i64 {
        mag3(self.x, self.y, self.z)
    }

    pub fn magnitude(&self) -> (m: i64)
        ensures
            m == self.spec_magnitude(),
    {
        proof {
            crate::fx::lemma_square_nonneg(self.x);
            crate::fx::lemma_square_nonneg(self.y);
            crate::fx::lemma_square_nonneg(self.z);
        }
        let s = fx_add(
            fx_add(fx_mul(self.x, self.x), fx_mul(self.y, self.y)),
            fx_mul(self.z, self.z),
        );
        fx_sqrt(s)
    }

    /// Each component divided by the magnitude; the zero vector is unchanged.
    pub open spec fn spec_normalize(self) -> Vector {
        let m = self.spec_magnitude();
        if m == 0 {
            self
        } else {
            Vector { x: fxdiv(self.x, m), y: fxdiv(self.y, m), z: fxdiv(self.z, m) }
        }
    }

    pub fn normalize(&self) -> (v: Vector)
        ensures
            v == self.spec_normalize(),
    {
        let m = self.magnitude();
        if m == 0 {
            *self
        } else {
            Vector { x: fx_div(self.x, m), y: fx_div(self.y, m), z: fx_div(self.z, m) }
        }
    }

    pub open spec fn spec_dot(self, other: Vector) -> i64 {
        dot3(self.x, self.y, self.z, other.x, other.y, other.z)
    }

    pub fn dot(&self, other: Vector) -> (r: i64)
        ensures
            r == self.spec_dot(other),
    {
        fx_add(fx_add(fx_mul(self.x, other.x), fx_mul(self.y, other.y)), fx_mul(self.z, other.z))
    }

    pub open spec fn spec_cross(self, other: Vector) -> Vector {
        Vector {
            x: fxsub(fxmul(self.y, other.z), fxmul(self.z, other.y)),
            y: fxsub(fxmul(self.z, other.x), fxmul(self.x, other.z)),
            z: fxsub(fxmul(self.x, other.y), fxmul(self.y, other.x)),
        }
    }

    pub fn cross(&self, other: Vector) -> (v: Vector)
        ensures
            v == self.spec_cross(other),
    {
        Vector {
            x: fx_sub(fx_mul(self.y, other.z), fx_mul(self.z, other.y)),
            y: fx_sub(fx_mul(self.z, other.x), fx_mul(self.x, other.z)),
            z: fx_sub(fx_mul(self.x, other.y), fx_mul(self.y, other.x)),
        }
    }

    pub open spec fn spec_add(self, other: Vector) -> Vector {
        Vector { x: fxadd(self.x, other.x), y: fxadd(self.y, other.y), z: fxadd(self.z, other.z) }
    }

    pub fn add(&self, other: Vector) -> (v: Vector)
        ensures
            v == self.spec_add(other),
    {
        Vector { x: fx_add(self.x, other.x), y: fx_add(self.y, other.y), z: fx_add(self.z, other.z) }
    }

    /// A vector moved from a point is a point.
    pub open spec fn spec_add_point(self, p: Point) -> Point {
        Point { x: fxadd(self.x, p.x), y: fxadd(self.y, p.y), z: fxadd(self.z, p.z) }
    }

    pub fn add_point(&self, p: Point) -> (r: Point)
        ensures
            r == self.spec_add_point(p),
    {
        Point { x: fx_add(self.x, p.x), y: fx_add(self.y, p.y), z: fx_add(self.z, p.z) }
    }

    pub open spec fn spec_sub(self, other: Vector) -> Vector {
        Vector { x: fxsub(self.x, other.x), y: fxsub(self.y, other.y), z: fxsub(self.z, other.z) }
    }

    pub fn sub(&self, other: Vector) -> (v: Vector)
        ensures
            v == self.spec_sub(other),
    {
        Vector { x: fx_sub(self.x, other.x), y: fx_sub(self.y, other.y), z: fx_sub(self.z, other.z) }
    }

    pub open spec fn spec_neg(self) -> Vector {
        Vector { x: fxneg(self.x), y: fxneg(self.y), z: fxneg(self.z) }
    }

    pub fn neg(&self) -> (v: Vector)
        ensures
            v == self.spec_neg(),
    {
        Vector { x: fx_neg(self.x), y: fx_neg(self.y), z: fx_neg(self.z) }
    }

    pub open spec fn spec_scale(self, s: i64) -> Vector {
        Vector { x: fxmul(self.x, s), y: fxmul(self.y, s), z: fxmul(self.z, s) }
    }

    pub fn scale(&self, s: i64) -> (v: Vector)
        ensures
            v == self.spec_scale(s),
    {
        Vector { x: fx_mul(self.x, s), y: fx_mul(self.y, s), z: fx_mul(self.z, s) }
    }

    pub open spec fn spec_divide(self, s: i64) -> Vector
        recommends
            s != 0,
    {
        Vector { x: fxdiv(self.x, s), y: fxdiv(self.y, s), z: fxdiv(self.z, s) }
    }

    pub fn divide(&self, s: i64) -> (v: Vector)
        requires
            s != 0,
        ensures
            v == self.spec_divide(s),
    {
        Vector { x: fx_div(self.x, s), y: fx_div(self.y, s), z: fx_div(self.z, s) }
    }
}

} // verus!
