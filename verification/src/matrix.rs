//! Square matrices of fixed-point scalars, sizes two to four.
//!
//! The four-by-four `Matrix` carries every transform in the crate. The
//! determinant is the Laplace expansion along the first row, through minors
//! and cofactors of the smaller sizes, and `inverse` is the cofactor and
//! adjugate construction; the product of the result with the original matrix
//! is compared against the identity before the result is handed out, so a
//! returned inverse always multiplies back to the identity within tolerance.

use vstd::prelude::*;

use crate::fx::{fx_add, fx_approx, fx_div, fx_mul, fx_neg, fxadd, fxdiv, fxmul, fxneg, fx_near, ONE};
use crate::tuple::{Point, Vector};

verus! {

#[derive(Clone, Copy, Debug, PartialEq, Eq, Structural)]
pub struct Matrix2 {
    pub m00: i64,
    pub m01: i64,
    pub m10: i64,
    pub m11: i64,
}

#[derive(Clone, Copy, Debug, PartialEq, Eq, Structural)]
pub struct Matrix3 {
    pub m00: i64,
    pub m01: i64,
    pub m02: i64,
    pub m10: i64,
    pub m11: i64,
    pub m12: i64,
    pub m20: i64,
    pub m21: i64,
    pub m22: i64,
}

#[derive(Clone, Copy, Debug, PartialEq, Eq, Structural)]
pub struct Matrix {
    pub m00: i64,
    pub m01: i64,
    pub m02: i64,
    pub m03: i64,
    pub m10: i64,
    pub m11: i64,
    pub m12: i64,
    pub m13: i64,
    pub m20: i64,
    pub m21: i64,
    pub m22: i64,
    pub m23: i64,
    pub m30: i64,
    pub m31: i64,
    pub m32: i64,
    pub m33: i64,
}

/// The error a matrix inversion returns when no usable inverse exists.
#[derive(Clone, Copy, Debug, PartialEq, Eq, Structural)]
pub struct SingularMatrixError;

/// A four-term fixed-point dot product, summed left to right.
pub open spec fn dot4(a0: i64, a1: i64, a2: i64, a3: i64, b0: i64, b1: i64, b2: i64, b3: i64) -> i64 {
    fxadd(fxadd(fxadd(fxmul(a0, b0), fxmul(a1, b1)), fxmul(a2, b2)), fxmul(a3, b3))
}

fn dot4_exec(a0: i64, a1: i64, a2: i64, a3: i64, b0: i64, b1: i64, b2: i64, b3: i64) -> (r: i64)
    ensures
        r == dot4(a0, a1, a2, a3, b0, b1, b2, b3),
{
    fx_add(fx_add(fx_add(fx_mul(a0, b0), fx_mul(a1, b1)), fx_mul(a2, b2)), fx_mul(a3, b3))
}

/// The entry of a two-by-two matrix at row `r`, column `c`.
pub open spec fn at2(m: Matrix2, r: int, c: int) -> i64
    recommends
        0 <= r < 2,
        0 <= c < 2,
{
    if r == 0 && c == 0 {
        (m.m00)
    } else if r == 0 && c == 1 {
        (m.m01)
    } else if r == 1 && c == 0 {
        (m.m10)
    } else {
        (m.m11)
    }
}

/// The entry of a three-by-three matrix at row `r`, column `c`.
pub open spec fn at3(m: Matrix3, r: int, c: int) -> i64
    recommends
        0 <= r < 3,
        0 <= c < 3,
{
    if r == 0 && c == 0 {
        (m.m00)
    } else if r == 0 && c == 1 {
        (m.m01)
    } else if r == 0 && c == 2 {
        (m.m02)
    } else if r == 1 && c == 0 {
        (m.m10)
    } else if r == 1 && c == 1 {
        (m.m11)
    } else if r == 1 && c == 2 {
        (m.m12)
    } else if r == 2 && c == 0 {
        (m.m20)
    } else if r == 2 && c == 1 {
        (m.m21)
    } else {
        (m.m22)
    }
}

/// The entry of a four-by-four matrix at row `r`, column `c`.
pub open spec fn at4(m: Matrix, r: int, c: int) -> i64
    recommends
        0 <= r < 4,
        0 <= c < 4,
{
    if r == 0 && c == 0 {
        (m.m00)
    } else if r == 0 && c == 1 {
        (m.m01)
    } else if r == 0 && c == 2 {
        (m.m02)
    } else if r == 0 && c == 3 {
        (m.m03)
    } else if r == 1 && c == 0 {
        (m.m10)
    } else if r == 1 && c == 1 {
        (m.m11)
    } else if r == 1 && c == 2 {
        (m.m12)
    } else if r == 1 && c == 3 {
        (m.m13)
    } else if r == 2 && c == 0 {
        (m.m20)
    } else if r == 2 && c == 1 {
        (m.m21)
    } else if r == 2 && c == 2 {
        (m.m22)
    } else if r == 2 && c == 3 {
        (m.m23)
    } else if r == 3 && c == 0 {
        (m.m30)
    } else if r == 3 && c == 1 {
        (m.m31)
    } else if r == 3 && c == 2 {
        (m.m32)
    } else {
        (m.m33)
    }
}

/// Determinant of a two-by-two matrix.
pub open spec fn det2(m: Matrix2) -> i64 {
    fxadd(fxmul(m.m00, m.m11), fxneg(fxmul(m.m01, m.m10)))
}

/// Minor of a two-by-two matrix: the opposite entry.
pub open spec fn minor2(m: Matrix2, r: int, c: int) -> i64
    recommends
        0 <= r < 2,
        0 <= c < 2,
{
    at2(m, 1 - r, 1 - c)
}

/// Cofactor: the minor, negated on the odd positions.
pub open spec fn cof2(m: Matrix2, r: int, c: int) -> i64
    recommends
        0 <= r < 2,
        0 <= c < 2,
{
    if (r + c) % 2 == 0 {
        minor2(m, r, c)
    } else {
        fxneg(minor2(m, r, c))
    }
}

/// The three-by-three matrix left when row `r` and column `c` are removed.
pub open spec fn sub4(m: Matrix, r: int, c: int) -> Matrix3
    recommends
        0 <= r < 4,
        0 <= c < 4,
{
    if r == 0 && c == 0 {
        (Matrix3 { m00: m.m11, m01: m.m12, m02: m.m13, m10: m.m21, m11: m.m22, m12: m.m23, m20: m.m31, m21: m.m32, m22: m.m33 })
    } else if r == 0 && c == 1 {
        (Matrix3 { m00: m.m10, m01: m.m12, m02: m.m13, m10: m.m20, m11: m.m22, m12: m.m23, m20: m.m30, m21: m.m32, m22: m.m33 })
    } else if r == 0 && c == 2 {
        (Matrix3 { m00: m.m10, m01: m.m11, m02: m.m13, m10: m.m20, m11: m.m21, m12: m.m23, m20: m.m30, m21: m.m31, m22: m.m33 })
    } else if r == 0 && c == 3 {
        (Matrix3 { m00: m.m10, m01: m.m11, m02: m.m12, m10: m.m20, m11: m.m21, m12: m.m22, m20: m.m30, m21: m.m31, m22: m.m32 })
    } else if r == 1 && c == 0 {
        (Matrix3 { m00: m.m01, m01: m.m02, m02: m.m03, m10: m.m21, m11: m.m22, m12: m.m23, m20: m.m31, m21: m.m32, m22: m.m33 })
    } else if r == 1 && c == 1 {
        (Matrix3 { m00: m.m00, m01: m.m02, m02: m.m03, m10: m.m20, m11: m.m22, m12: m.m23, m20: m.m30, m21: m.m32, m22: m.m33 })
    } else if r == 1 && c == 2 {
        (Matrix3 { m00: m.m00, m01: m.m01, m02: m.m03, m10: m.m20, m11: m.m21, m12: m.m23, m20: m.m30, m21: m.m31, m22: m.m33 })
    } else if r == 1 && c == 3 {
        (Matrix3 { m00: m.m00, m01: m.m01, m02: m.m02, m10: m.m20, m11: m.m21, m12: m.m22, m20: m.m30, m21: m.m31, m22: m.m32 })
    } else if r == 2 && c == 0 {
        (Matrix3 { m00: m.m01, m01: m.m02, m02: m.m03, m10: m.m11, m11: m.m12, m12: m.m13, m20: m.m31, m21: m.m32, m22: m.m33 })
    } else if r == 2 && c == 1 {
        (Matrix3 { m00: m.m00, m01: m.m02, m02: m.m03, m10: m.m10, m11: m.m12, m12: m.m13, m20: m.m30, m21: m.m32, m22: m.m33 })
    } else if r == 2 && c == 2 {
        (Matrix3 { m00: m.m00, m01: m.m01, m02: m.m03, m10: m.m10, m11: m.m11, m12: m.m13, m20: m.m30, m21: m.m31, m22: m.m33 })
    } else if r == 2 && c == 3 {
        (Matrix3 { m00: m.m00, m01: m.m01, m02: m.m02, m10: m.m10, m11: m.m11, m12: m.m12, m20: m.m30, m21: m.m31, m22: m.m32 })
    } else if r == 3 && c == 0 {
        (Matrix3 { m00: m.m01, m01: m.m02, m02: m.m03, m10: m.m11, m11: m.m12, m12: m.m13, m20: m.m21, m21: m.m22, m22: m.m23 })
    } else if r == 3 && c == 1 {
        (Matrix3 { m00: m.m00, m01: m.m02, m02: m.m03, m10: m.m10, m11: m.m12, m12: m.m13, m20: m.m20, m21: m.m22, m22: m.m23 })
    } else if r == 3 && c == 2 {
        (Matrix3 { m00: m.m00, m01: m.m01, m02: m.m03, m10: m.m10, m11: m.m11, m12: m.m13, m20: m.m20, m21: m.m21, m22: m.m23 })
    } else {
        (Matrix3 { m00: m.m00, m01: m.m01, m02: m.m02, m10: m.m10, m11: m.m11, m12: m.m12, m20: m.m20, m21: m.m21, m22: m.m22 })
    }
}

/// The two-by-two matrix left when row `r` and column `c` are removed.
pub open spec fn sub3(m: Matrix3, r: int, c: int) -> Matrix2
    recommends
        0 <= r < 3,
        0 <= c < 3,
{
    if r == 0 && c == 0 {
        (Matrix2 { m00: m.m11, m01: m.m12, m10: m.m21, m11: m.m22 })
    } else if r == 0 && c == 1 {
        (Matrix2 { m00: m.m10, m01: m.m12, m10: m.m20, m11: m.m22 })
    } else if r == 0 && c == 2 {
        (Matrix2 { m00: m.m10, m01: m.m11, m10: m.m20, m11: m.m21 })
    } else if r == 1 && c == 0 {
        (Matrix2 { m00: m.m01, m01: m.m02, m10: m.m21, m11: m.m22 })
    } else if r == 1 && c == 1 {
        (Matrix2 { m00: m.m00, m01: m.m02, m10: m.m20, m11: m.m22 })
    } else if r == 1 && c == 2 {
        (Matrix2 { m00: m.m00, m01: m.m01, m10: m.m20, m11: m.m21 })
    } else if r == 2 && c == 0 {
        (Matrix2 { m00: m.m01, m01: m.m02, m10: m.m11, m11: m.m12 })
    } else if r == 2 && c == 1 {
        (Matrix2 { m00: m.m00, m01: m.m02, m10: m.m10, m11: m.m12 })
    } else {
        (Matrix2 { m00: m.m00, m01: m.m01, m10: m.m10, m11: m.m11 })
    }
}

/// Minor of a three-by-three matrix: the determinant of the submatrix.
pub open spec fn minor3(m: Matrix3, r: int, c: int) -> i64
    recommends
        0 <= r < 3,
        0 <= c < 3,
{
    det2(sub3(m, r, c))
}

/// Cofactor of a three-by-three matrix.
pub open spec fn cof3(m: Matrix3, r: int, c: int) -> i64
    recommends
        0 <= r < 3,
        0 <= c < 3,
{
    if (r + c) % 2 == 0 {
        minor3(m, r, c)
    } else {
        fxneg(minor3(m, r, c))
    }
}

/// Determinant of a three-by-three matrix: Laplace expansion along row zero.
pub open spec fn det3(m: Matrix3) -> i64 {
    fxadd(fxadd(fxmul(m.m00, cof3(m, 0, 0)), fxmul(m.m01, cof3(m, 0, 1))), fxmul(m.m02, cof3(m, 0, 2)))
}

/// Minor of a four-by-four matrix: the determinant of the submatrix.
pub open spec fn minor4(m: Matrix, r: int, c: int) -> i64
    recommends
        0 <= r < 4,
        0 <= c < 4,
{
    det3(sub4(m, r, c))
}

/// Cofactor of a four-by-four matrix.
pub open spec fn cof4(m: Matrix, r: int, c: int) -> i64
    recommends
        0 <= r < 4,
        0 <= c < 4,
{
    if (r + c) % 2 == 0 {
        minor4(m, r, c)
    } else {
        fxneg(minor4(m, r, c))
    }
}

/// Determinant of a four-by-four matrix: Laplace expansion along row zero.
pub open spec fn det4(m: Matrix) -> i64 {
    fxadd(
        fxadd(fxadd(fxmul(m.m00, cof4(m, 0, 0)), fxmul(m.m01, cof4(m, 0, 1))), fxmul(m.m02, cof4(m, 0, 2))),
        fxmul(m.m03, cof4(m, 0, 3)),
    )
}

/// The identity matrix.
pub open spec fn spec_identity() -> Matrix {
    Matrix {
        m00: ONE,
        m01: 0i64,
        m02: 0i64,
        m03: 0i64,
        m10: 0i64,
        m11: ONE,
        m12: 0i64,
        m13: 0i64,
        m20: 0i64,
        m21: 0i64,
        m22: ONE,
        m23: 0i64,
        m30: 0i64,
        m31: 0i64,
        m32: 0i64,
        m33: ONE,
    }
}

/// The matrix product, each entry a left-to-right fixed-point dot product.
pub open spec fn mat_mul(a: Matrix, b: Matrix) -> Matrix {
    Matrix {
        m00: dot4(a.m00, a.m01, a.m02, a.m03, b.m00, b.m10, b.m20, b.m30),
        m01: dot4(a.m00, a.m01, a.m02, a.m03, b.m01, b.m11, b.m21, b.m31),
        m02: dot4(a.m00, a.m01, a.m02, a.m03, b.m02, b.m12, b.m22, b.m32),
        m03: dot4(a.m00, a.m01, a.m02, a.m03, b.m03, b.m13, b.m23, b.m33),
        m10: dot4(a.m10, a.m11, a.m12, a.m13, b.m00, b.m10, b.m20, b.m30),
        m11: dot4(a.m10, a.m11, a.m12, a.m13, b.m01, b.m11, b.m21, b.m31),
        m12: dot4(a.m10, a.m11, a.m12, a.m13, b.m02, b.m12, b.m22, b.m32),
        m13: dot4(a.m10, a.m11, a.m12, a.m13, b.m03, b.m13, b.m23, b.m33),
        m20: dot4(a.m20, a.m21, a.m22, a.m23, b.m00, b.m10, b.m20, b.m30),
        m21: dot4(a.m20, a.m21, a.m22, a.m23, b.m01, b.m11, b.m21, b.m31),
        m22: dot4(a.m20, a.m21, a.m22, a.m23, b.m02, b.m12, b.m22, b.m32),
        m23: dot4(a.m20, a.m21, a.m22, a.m23, b.m03, b.m13, b.m23, b.m33),
        m30: dot4(a.m30, a.m31, a.m32, a.m33, b.m00, b.m10, b.m20, b.m30),
        m31: dot4(a.m30, a.m31, a.m32, a.m33, b.m01, b.m11, b.m21, b.m31),
        m32: dot4(a.m30, a.m31, a.m32, a.m33, b.m02, b.m12, b.m22, b.m32),
        m33: dot4(a.m30, a.m31, a.m32, a.m33, b.m03, b.m13, b.m23, b.m33),
    }
}

/// A point transformed by a matrix (its fourth component is one).
pub open spec fn mat_mul_point(m: Matrix, p: Point) -> Point {
    Point {
        x: dot4(m.m00, m.m01, m.m02, m.m03, p.x, p.y, p.z, ONE),
        y: dot4(m.m10, m.m11, m.m12, m.m13, p.x, p.y, p.z, ONE),
        z: dot4(m.m20, m.m21, m.m22, m.m23, p.x, p.y, p.z, ONE),
    }
}

/// A vector transformed by a matrix (its fourth component is zero).
pub open spec fn mat_mul_vector(m: Matrix, v: Vector) -> Vector {
    Vector {
        x: dot4(m.m00, m.m01, m.m02, m.m03, v.x, v.y, v.z, 0i64),
        y: dot4(m.m10, m.m11, m.m12, m.m13, v.x, v.y, v.z, 0i64),
        z: dot4(m.m20, m.m21, m.m22, m.m23, v.x, v.y, v.z, 0i64),
    }
}

/// The transpose of a four-by-four matrix.
pub open spec fn spec_transpose(m: Matrix) -> Matrix {
    Matrix {
        m00: m.m00,
        m01: m.m10,
        m02: m.m20,
        m03: m.m30,
        m10: m.m01,
        m11: m.m11,
        m12: m.m21,
        m13: m.m31,
        m20: m.m02,
        m21: m.m12,
        m22: m.m22,
        m23: m.m32,
        m30: m.m03,
        m31: m.m13,
        m32: m.m23,
        m33: m.m33,
    }
}

/// Entrywise nearness of two matrices under the crate's tolerance.
pub open spec fn mat_near(a: Matrix, b: Matrix) -> bool {
    fx_near(a.m00, b.m00) && fx_near(a.m01, b.m01) && fx_near(a.m02, b.m02) && fx_near(a.m03, b.m03) && fx_near(a.m10, b.m10) && fx_near(a.m11, b.m11) && fx_near(a.m12, b.m12) && fx_near(a.m13, b.m13) && fx_near(a.m20, b.m20) && fx_near(a.m21, b.m21) && fx_near(a.m22, b.m22) && fx_near(a.m23, b.m23) && fx_near(a.m30, b.m30) && fx_near(a.m31, b.m31) && fx_near(a.m32, b.m32) && fx_near(a.m33, b.m33)
}

/// The cofactor/adjugate inverse candidate: the transposed cofactors, each
/// divided by the determinant.
#[verifier::opaque]
pub open spec fn inv_cand4(m: Matrix) -> Matrix
    recommends
        det4(m) != 0,
{
    Matrix {
        m00: fxdiv(cof4(m, 0, 0), det4(m)),
        m01: fxdiv(cof4(m, 1, 0), det4(m)),
        m02: fxdiv(cof4(m, 2, 0), det4(m)),
        m03: fxdiv(cof4(m, 3, 0), det4(m)),
        m10: fxdiv(cof4(m, 0, 1), det4(m)),
        m11: fxdiv(cof4(m, 1, 1), det4(m)),
        m12: fxdiv(cof4(m, 2, 1), det4(m)),
        m13: fxdiv(cof4(m, 3, 1), det4(m)),
        m20: fxdiv(cof4(m, 0, 2), det4(m)),
        m21: fxdiv(cof4(m, 1, 2), det4(m)),
        m22: fxdiv(cof4(m, 2, 2), det4(m)),
        m23: fxdiv(cof4(m, 3, 2), det4(m)),
        m30: fxdiv(cof4(m, 0, 3), det4(m)),
        m31: fxdiv(cof4(m, 1, 3), det4(m)),
        m32: fxdiv(cof4(m, 2, 3), det4(m)),
        m33: fxdiv(cof4(m, 3, 3), det4(m)),
    }
}

/// The inverse of a matrix, if one exists that multiplies back to the
/// identity within tolerance, on both sides.
#[verifier::opaque]
pub open spec fn spec_inverse(m: Matrix) -> Option<Matrix> {
    if det4(m) == 0 {
        None
    } else {
        let cand = inv_cand4(m);
        if mat_near(mat_mul(m, cand), spec_identity()) && mat_near(
            mat_mul(cand, m),
            spec_identity(),
        ) {
            Some(cand)
        } else {
            None
        }
    }
}

/// Whether a matrix has a usable inverse.
pub open spec fn invertible(m: Matrix) -> bool {
    spec_inverse(m) is Some
}

/// Law: a matrix times the inverse this crate hands out is the identity,
/// entry by entry, within the crate's tolerance — in both orders.
pub proof fn lemma_mul_inverse_near_identity(m: Matrix, inv: Matrix)
    requires
        spec_inverse(m) == Some(inv),
    ensures
        mat_near(mat_mul(m, inv), spec_identity()),
        mat_near(mat_mul(inv, m), spec_identity()),
{
    reveal(spec_inverse);
}

/// Law: the inverse handed out for a product of two matrices multiplies that
/// product back to the identity, within the crate's tolerance. (That it
/// agrees entrywise with the reverse product of the factors' inverses is a
/// statement about exact arithmetic; under fixed-point rounding the two
/// sides only agree approximately, which the tests exercise on values.)
pub proof fn lemma_product_inverse_near_identity(a: Matrix, b: Matrix, inv: Matrix)
    requires
        spec_inverse(mat_mul(a, b)) == Some(inv),
    ensures
        mat_near(mat_mul(mat_mul(a, b), inv), spec_identity()),
        mat_near(mat_mul(inv, mat_mul(a, b)), spec_identity()),
{
    lemma_mul_inverse_near_identity(mat_mul(a, b), inv);
}

impl Matrix2 {
    pub fn new(data: [[i64; 2]; 2]) -> (m: Matrix2)
        ensures
            m.m00 == data[0][0],
            m.m01 == data[0][1],
            m.m10 == data[1][0],
            m.m11 == data[1][1],
    {
        let r0 = data[0];
        let r1 = data[1];
        Matrix2 { m00: r0[0], m01: r0[1], m10: r1[0], m11: r1[1] }
    }

    pub fn at(&self, r: usize, c: usize) -> (v: i64)
        requires
            r < 2,
            c < 2,
        ensures
            v == at2(*self, r as int, c as int),
    {
        if r == 0 && c == 0 {
            (self.m00)
        } else if r == 0 && c == 1 {
            (self.m01)
        } else if r == 1 && c == 0 {
            (self.m10)
        } else {
            (self.m11)
        }
    }

    pub fn determinant(&self) -> (d: i64)
        ensures
            d == det2(*self),
    {
        fx_add(fx_mul(self.m00, self.m11), fx_neg(fx_mul(self.m01, self.m10)))
    }

    pub fn minor(&self, r: usize, c: usize) -> (v: i64)
        requires
            r < 2,
            c < 2,
        ensures
            v == minor2(*self, r as int, c as int),
    {
        self.at(1 - r, 1 - c)
    }

    pub fn cofactor(&self, r: usize, c: usize) -> (v: i64)
        requires
            r < 2,
            c < 2,
        ensures
            v == cof2(*self, r as int, c as int),
    {
        let mnr = self.minor(r, c);
        if (r + c) % 2 == 0 {
            mnr
        } else {
            fx_neg(mnr)
        }
    }

    pub fn is_invertible(&self) -> (r: bool)
        ensures
            r == (det2(*self) != 0),
    {
        self.determinant() != 0
    }
}

impl Matrix3 {
    pub fn new(data: [[i64; 3]; 3]) -> (m: Matrix3)
        ensures
            m.m00 == data[0][0],
            m.m01 == data[0][1],
            m.m02 == data[0][2],
            m.m10 == data[1][0],
            m.m11 == data[1][1],
            m.m12 == data[1][2],
            m.m20 == data[2][0],
            m.m21 == data[2][1],
            m.m22 == data[2][2],
    {
        let r0 = data[0];
        let r1 = data[1];
        let r2 = data[2];
        Matrix3 {
            m00: r0[0], m01: r0[1], m02: r0[2],
            m10: r1[0], m11: r1[1], m12: r1[2],
            m20: r2[0], m21: r2[1], m22: r2[2],
        }
    }

    pub fn at(&self, r: usize, c: usize) -> (v: i64)
        requires
            r < 3,
            c < 3,
        ensures
            v == at3(*self, r as int, c as int),
    {
        if r == 0 && c == 0 {
            (self.m00)
        } else if r == 0 && c == 1 {
            (self.m01)
        } else if r == 0 && c == 2 {
            (self.m02)
        } else if r == 1 && c == 0 {
            (self.m10)
        } else if r == 1 && c == 1 {
            (self.m11)
        } else if r == 1 && c == 2 {
            (self.m12)
        } else if r == 2 && c == 0 {
            (self.m20)
        } else if r == 2 && c == 1 {
            (self.m21)
        } else {
            (self.m22)
        }
    }

    pub fn submatrix(&self, r: usize, c: usize) -> (s: Matrix2)
        requires
            r < 3,
            c < 3,
        ensures
            s == sub3(*self, r as int, c as int),
    {
        if r == 0 && c == 0 {
            (Matrix2 { m00: self.m11, m01: self.m12, m10: self.m21, m11: self.m22 })
        } else if r == 0 && c == 1 {
            (Matrix2 { m00: self.m10, m01: self.m12, m10: self.m20, m11: self.m22 })
        } else if r == 0 && c == 2 {
            (Matrix2 { m00: self.m10, m01: self.m11, m10: self.m20, m11: self.m21 })
        } else if r == 1 && c == 0 {
            (Matrix2 { m00: self.m01, m01: self.m02, m10: self.m21, m11: self.m22 })
        } else if r == 1 && c == 1 {
            (Matrix2 { m00: self.m00, m01: self.m02, m10: self.m20, m11: self.m22 })
        } else if r == 1 && c == 2 {
            (Matrix2 { m00: self.m00, m01: self.m01, m10: self.m20, m11: self.m21 })
        } else if r == 2 && c == 0 {
            (Matrix2 { m00: self.m01, m01: self.m02, m10: self.m11, m11: self.m12 })
        } else if r == 2 && c == 1 {
            (Matrix2 { m00: self.m00, m01: self.m02, m10: self.m10, m11: self.m12 })
        } else {
            (Matrix2 { m00: self.m00, m01: self.m01, m10: self.m10, m11: self.m11 })
        }
    }

    pub fn minor(&self, r: usize, c: usize) -> (v: i64)
        requires
            r < 3,
            c < 3,
        ensures
            v == minor3(*self, r as int, c as int),
    {
        self.submatrix(r, c).determinant()
    }

    pub fn cofactor(&self, r: usize, c: usize) -> (v: i64)
        requires
            r < 3,
            c < 3,
        ensures
            v == cof3(*self, r as int, c as int),
    {
        let mnr = self.minor(r, c);
        if (r + c) % 2 == 0 {
            mnr
        } else {
            fx_neg(mnr)
        }
    }

    pub fn determinant(&self) -> (d: i64)
        ensures
            d == det3(*self),
    {
        let c0 = self.cofactor(0, 0);
        let c1 = self.cofactor(0, 1);
        let c2 = self.cofactor(0, 2);
        fx_add(fx_add(fx_mul(self.m00, c0), fx_mul(self.m01, c1)), fx_mul(self.m02, c2))
    }

    pub fn is_invertible(&self) -> (r: bool)
        ensures
            r == (det3(*self) != 0),
    {
        self.determinant() != 0
    }
}

impl Matrix {
    pub fn new(data: [[i64; 4]; 4]) -> (m: Matrix)
        ensures
            m.m00 == data[0][0],
            m.m01 == data[0][1],
            m.m02 == data[0][2],
            m.m03 == data[0][3],
            m.m10 == data[1][0],
            m.m11 == data[1][1],
            m.m12 == data[1][2],
            m.m13 == data[1][3],
            m.m20 == data[2][0],
            m.m21 == data[2][1],
            m.m22 == data[2][2],
            m.m23 == data[2][3],
            m.m30 == data[3][0],
            m.m31 == data[3][1],
            m.m32 == data[3][2],
            m.m33 == data[3][3],
    {
        let r0 = data[0];
        let r1 = data[1];
        let r2 = data[2];
        let r3 = data[3];
        Matrix {
            m00: r0[0], m01: r0[1], m02: r0[2], m03: r0[3],
            m10: r1[0], m11: r1[1], m12: r1[2], m13: r1[3],
            m20: r2[0], m21: r2[1], m22: r2[2], m23: r2[3],
            m30: r3[0], m31: r3[1], m32: r3[2], m33: r3[3],
        }
    }

    pub fn identity() -> (m: Matrix)
        ensures
            m == spec_identity(),
    {
        Matrix {
            m00: ONE,
            m01: 0,
            m02: 0,
            m03: 0,
            m10: 0,
            m11: ONE,
            m12: 0,
            m13: 0,
            m20: 0,
            m21: 0,
            m22: ONE,
            m23: 0,
            m30: 0,
            m31: 0,
            m32: 0,
            m33: ONE,
        }
    }

    pub fn at(&self, r: usize, c: usize) -> (v: i64)
        requires
            r < 4,
            c < 4,
        ensures
            v == at4(*self, r as int, c as int),
    {
        if r == 0 && c == 0 {
            (self.m00)
        } else if r == 0 && c == 1 {
            (self.m01)
        } else if r == 0 && c == 2 {
            (self.m02)
        } else if r == 0 && c == 3 {
            (self.m03)
        } else if r == 1 && c == 0 {
            (self.m10)
        } else if r == 1 && c == 1 {
            (self.m11)
        } else if r == 1 && c == 2 {
            (self.m12)
        } else if r == 1 && c == 3 {
            (self.m13)
        } else if r == 2 && c == 0 {
            (self.m20)
        } else if r == 2 && c == 1 {
            (self.m21)
        } else if r == 2 && c == 2 {
            (self.m22)
        } else if r == 2 && c == 3 {
            (self.m23)
        } else if r == 3 && c == 0 {
            (self.m30)
        } else if r == 3 && c == 1 {
            (self.m31)
        } else if r == 3 && c == 2 {
            (self.m32)
        } else {
            (self.m33)
        }
    }

    pub fn transpose(&self) -> (t: Matrix)
        ensures
            t == spec_transpose(*self),
    {
        Matrix {
            m00: self.m00,
            m01: self.m10,
            m02: self.m20,
            m03: self.m30,
            m10: self.m01,
            m11: self.m11,
            m12: self.m21,
            m13: self.m31,
            m20: self.m02,
            m21: self.m12,
            m22: self.m22,
            m23: self.m32,
            m30: self.m03,
            m31: self.m13,
            m32: self.m23,
            m33: self.m33,
        }
    }

    pub fn approx_eq(&self, other: &Matrix) -> (r: bool)
        ensures
            r == mat_near(*self, *other),
    {
        fx_approx(self.m00, other.m00)
            && fx_approx(self.m01, other.m01)
            && fx_approx(self.m02, other.m02)
            && fx_approx(self.m03, other.m03)
            && fx_approx(self.m10, other.m10)
            && fx_approx(self.m11, other.m11)
            && fx_approx(self.m12, other.m12)
            && fx_approx(self.m13, other.m13)
            && fx_approx(self.m20, other.m20)
            && fx_approx(self.m21, other.m21)
            && fx_approx(self.m22, other.m22)
            && fx_approx(self.m23, other.m23)
            && fx_approx(self.m30, other.m30)
            && fx_approx(self.m31, other.m31)
            && fx_approx(self.m32, other.m32)
            && fx_approx(self.m33, other.m33)
    }

    pub fn mul_matrix(&self, other: &Matrix) -> (m: Matrix)
        ensures
            m == mat_mul(*self, *other),
    {
        Matrix {
            m00: dot4_exec(self.m00, self.m01, self.m02, self.m03, other.m00, other.m10, other.m20, other.m30),
            m01: dot4_exec(self.m00, self.m01, self.m02, self.m03, other.m01, other.m11, other.m21, other.m31),
            m02: dot4_exec(self.m00, self.m01, self.m02, self.m03, other.m02, other.m12, other.m22, other.m32),
            m03: dot4_exec(self.m00, self.m01, self.m02, self.m03, other.m03, other.m13, other.m23, other.m33),
            m10: dot4_exec(self.m10, self.m11, self.m12, self.m13, other.m00, other.m10, other.m20, other.m30),
            m11: dot4_exec(self.m10, self.m11, self.m12, self.m13, other.m01, other.m11, other.m21, other.m31),
            m12: dot4_exec(self.m10, self.m11, self.m12, self.m13, other.m02, other.m12, other.m22, other.m32),
            m13: dot4_exec(self.m10, self.m11, self.m12, self.m13, other.m03, other.m13, other.m23, other.m33),
            m20: dot4_exec(self.m20, self.m21, self.m22, self.m23, other.m00, other.m10, other.m20, other.m30),
            m21: dot4_exec(self.m20, self.m21, self.m22, self.m23, other.m01, other.m11, other.m21, other.m31),
            m22: dot4_exec(self.m20, self.m21, self.m22, self.m23, other.m02, other.m12, other.m22, other.m32),
            m23: dot4_exec(self.m20, self.m21, self.m22, self.m23, other.m03, other.m13, other.m23, other.m33),
            m30: dot4_exec(self.m30, self.m31, self.m32, self.m33, other.m00, other.m10, other.m20, other.m30),
            m31: dot4_exec(self.m30, self.m31, self.m32, self.m33, other.m01, other.m11, other.m21, other.m31),
            m32: dot4_exec(self.m30, self.m31, self.m32, self.m33, other.m02, other.m12, other.m22, other.m32),
            m33: dot4_exec(self.m30, self.m31, self.m32, self.m33, other.m03, other.m13, other.m23, other.m33),
        }
    }

    pub fn mul_point(&self, p: Point) -> (q: Point)
        ensures
            q == mat_mul_point(*self, p),
    {
        Point {
            x: dot4_exec(self.m00, self.m01, self.m02, self.m03, p.x, p.y, p.z, ONE),
            y: dot4_exec(self.m10, self.m11, self.m12, self.m13, p.x, p.y, p.z, ONE),
            z: dot4_exec(self.m20, self.m21, self.m22, self.m23, p.x, p.y, p.z, ONE),
        }
    }

    pub fn mul_vector(&self, v: Vector) -> (w: Vector)
        ensures
            w == mat_mul_vector(*self, v),
    {
        Vector {
            x: dot4_exec(self.m00, self.m01, self.m02, self.m03, v.x, v.y, v.z, 0),
            y: dot4_exec(self.m10, self.m11, self.m12, self.m13, v.x, v.y, v.z, 0),
            z: dot4_exec(self.m20, self.m21, self.m22, self.m23, v.x, v.y, v.z, 0),
        }
    }

    pub fn submatrix(&self, r: usize, c: usize) -> (s: Matrix3)
        requires
            r < 4,
            c < 4,
        ensures
            s == sub4(*self, r as int, c as int),
    {
        if r == 0 && c == 0 {
            (Matrix3 { m00: self.m11, m01: self.m12, m02: self.m13, m10: self.m21, m11: self.m22, m12: self.m23, m20: self.m31, m21: self.m32, m22: self.m33 })
        } else if r == 0 && c == 1 {
            (Matrix3 { m00: self.m10, m01: self.m12, m02: self.m13, m10: self.m20, m11: self.m22, m12: self.m23, m20: self.m30, m21: self.m32, m22: self.m33 })
        } else if r == 0 && c == 2 {
            (Matrix3 { m00: self.m10, m01: self.m11, m02: self.m13, m10: self.m20, m11: self.m21, m12: self.m23, m20: self.m30, m21: self.m31, m22: self.m33 })
        } else if r == 0 && c == 3 {
            (Matrix3 { m00: self.m10, m01: self.m11, m02: self.m12, m10: self.m20, m11: self.m21, m12: self.m22, m20: self.m30, m21: self.m31, m22: self.m32 })
        } else if r == 1 && c == 0 {
            (Matrix3 { m00: self.m01, m01: self.m02, m02: self.m03, m10: self.m21, m11: self.m22, m12: self.m23, m20: self.m31, m21: self.m32, m22: self.m33 })
        } else if r == 1 && c == 1 {
            (Matrix3 { m00: self.m00, m01: self.m02, m02: self.m03, m10: self.m20, m11: self.m22, m12: self.m23, m20: self.m30, m21: self.m32, m22: self.m33 })
        } else if r == 1 && c == 2 {
            (Matrix3 { m00: self.m00, m01: self.m01, m02: self.m03, m10: self.m20, m11: self.m21, m12: self.m23, m20: self.m30, m21: self.m31, m22: self.m33 })
        } else if r == 1 && c == 3 {
            (Matrix3 { m00: self.m00, m01: self.m01, m02: self.m02, m10: self.m20, m11: self.m21, m12: self.m22, m20: self.m30, m21: self.m31, m22: self.m32 })
        } else if r == 2 && c == 0 {
            (Matrix3 { m00: self.m01, m01: self.m02, m02: self.m03, m10: self.m11, m11: self.m12, m12: self.m13, m20: self.m31, m21: self.m32, m22: self.m33 })
        } else if r == 2 && c == 1 {
            (Matrix3 { m00: self.m00, m01: self.m02, m02: self.m03, m10: self.m10, m11: self.m12, m12: self.m13, m20: self.m30, m21: self.m32, m22: self.m33 })
        } else if r == 2 && c == 2 {
            (Matrix3 { m00: self.m00, m01: self.m01, m02: self.m03, m10: self.m10, m11: self.m11, m12: self.m13, m20: self.m30, m21: self.m31, m22: self.m33 })
        } else if r == 2 && c == 3 {
            (Matrix3 { m00: self.m00, m01: self.m01, m02: self.m02, m10: self.m10, m11: self.m11, m12: self.m12, m20: self.m30, m21: self.m31, m22: self.m32 })
        } else if r == 3 && c == 0 {
            (Matrix3 { m00: self.m01, m01: self.m02, m02: self.m03, m10: self.m11, m11: self.m12, m12: self.m13, m20: self.m21, m21: self.m22, m22: self.m23 })
        } else if r == 3 && c == 1 {
            (Matrix3 { m00: self.m00, m01: self.m02, m02: self.m03, m10: self.m10, m11: self.m12, m12: self.m13, m20: self.m20, m21: self.m22, m22: self.m23 })
        } else if r == 3 && c == 2 {
            (Matrix3 { m00: self.m00, m01: self.m01, m02: self.m03, m10: self.m10, m11: self.m11, m12: self.m13, m20: self.m20, m21: self.m21, m22: self.m23 })
        } else {
            (Matrix3 { m00: self.m00, m01: self.m01, m02: self.m02, m10: self.m10, m11: self.m11, m12: self.m12, m20: self.m20, m21: self.m21, m22: self.m22 })
        }
    }

    pub fn minor(&self, r: usize, c: usize) -> (v: i64)
        requires
            r < 4,
            c < 4,
        ensures
            v == minor4(*self, r as int, c as int),
    {
        self.submatrix(r, c).determinant()
    }

    pub fn cofactor(&self, r: usize, c: usize) -> (v: i64)
        requires
            r < 4,
            c < 4,
        ensures
            v == cof4(*self, r as int, c as int),
    {
        let mnr = self.minor(r, c);
        if (r + c) % 2 == 0 {
            mnr
        } else {
            fx_neg(mnr)
        }
    }

    pub fn determinant(&self) -> (d: i64)
        ensures
            d == det4(*self),
    {
        let c0 = self.cofactor(0, 0);
        let c1 = self.cofactor(0, 1);
        let c2 = self.cofactor(0, 2);
        let c3 = self.cofactor(0, 3);
        fx_add(
            fx_add(fx_add(fx_mul(self.m00, c0), fx_mul(self.m01, c1)), fx_mul(self.m02, c2)),
            fx_mul(self.m03, c3),
        )
    }

    pub fn is_invertible(&self) -> (r: bool)
        ensures
            r == (det4(*self) != 0),
    {
        self.determinant() != 0
    }

    /// The certified inverse: `Ok` exactly when the determinant is nonzero
    /// and the adjugate candidate multiplies back to the identity within
    /// tolerance, from either side; the error is the typed singular-matrix
    /// failure.
    pub fn inverse(&self) -> (r: Result<Matrix, SingularMatrixError>)
        ensures
            r is Ok <==> invertible(*self),
            r is Ok ==> spec_inverse(*self) == Some(r->Ok_0),
    {
        proof {
            reveal(spec_inverse);
            reveal(inv_cand4);
        }
        let det = self.determinant();
        if det == 0 {
            return Err(SingularMatrixError);
        }
        let cand = Matrix {
            m00: fx_div(self.cofactor(0, 0), det),
            m01: fx_div(self.cofactor(1, 0), det),
            m02: fx_div(self.cofactor(2, 0), det),
            m03: fx_div(self.cofactor(3, 0), det),
            m10: fx_div(self.cofactor(0, 1), det),
            m11: fx_div(self.cofactor(1, 1), det),
            m12: fx_div(self.cofactor(2, 1), det),
            m13: fx_div(self.cofactor(3, 1), det),
            m20: fx_div(self.cofactor(0, 2), det),
            m21: fx_div(self.cofactor(1, 2), det),
            m22: fx_div(self.cofactor(2, 2), det),
            m23: fx_div(self.cofactor(3, 2), det),
            m30: fx_div(self.cofactor(0, 3), det),
            m31: fx_div(self.cofactor(1, 3), det),
            m32: fx_div(self.cofactor(2, 3), det),
            m33: fx_div(self.cofactor(3, 3), det),
        };
        let right = self.mul_matrix(&cand);
        let left = cand.mul_matrix(self);
        let id = Matrix::identity();
        if right.approx_eq(&id) && left.approx_eq(&id) {
            Ok(cand)
        } else {
            Err(SingularMatrixError)
        }
    }

    /// The inverse of a matrix already known to be invertible.
    pub fn inverted(&self) -> (r: Matrix)
        requires
            invertible(*self),
        ensures
            Some(r) == spec_inverse(*self),
    {
        match self.inverse() {
            Ok(i) => i,
            Err(_) => unreached(),
        }
    }
}

impl Default for Matrix {
    /// The default matrix is the identity.
    fn default() -> (m: Matrix)
        ensures
            m == spec_identity(),
    {
        Matrix::identity()
    }
}

} // verus!
