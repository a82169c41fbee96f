//! Transform builders: translation, scaling, shearing, rotations, and the
//! view transform.
//!
//! Each builder left-multiplies a freshly built matrix onto the receiver, so
//! chained calls apply the listed transforms in the order they are written.

use vstd::prelude::*;

use crate::fx::{fx_neg, fxneg, ONE};
use crate::matrix::{mat_mul, Matrix};
use crate::trig::{fx_cos, fx_sin, fxcos, fxsin};
use crate::tuple::{Point, Vector};

verus! {

/// The translation matrix by (x, y, z).
pub open spec fn translation_matrix(x: i64, y: i64, z: i64) -> Matrix {
    Matrix {
        m00: ONE, m01: 0i64, m02: 0i64, m03: x,
        m10: 0i64, m11: ONE, m12: 0i64, m13: y,
        m20: 0i64, m21: 0i64, m22: ONE, m23: z,
        m30: 0i64, m31: 0i64, m32: 0i64, m33: ONE,
    }
}

/// The scaling matrix by (x, y, z).
pub open spec fn scaling_matrix(x: i64, y: i64, z: i64) -> Matrix {
    Matrix {
        m00: x, m01: 0i64, m02: 0i64, m03: 0i64,
        m10: 0i64, m11: y, m12: 0i64, m13: 0i64,
        m20: 0i64, m21: 0i64, m22: z, m23: 0i64,
        m30: 0i64, m31: 0i64, m32: 0i64, m33: ONE,
    }
}

/// The shearing matrix moving each coordinate in proportion to the others.
pub open spec fn shearing_matrix(xy: i64, xz: i64, yx: i64, yz: i64, zx: i64, zy: i64) -> Matrix {
    Matrix {
        m00: ONE, m01: xy, m02: xz, m03: 0i64,
        m10: yx, m11: ONE, m12: yz, m13: 0i64,
        m20: zx, m21: zy, m22: ONE, m23: 0i64,
        m30: 0i64, m31: 0i64, m32: 0i64, m33: ONE,
    }
}

/// The rotation matrix about the x axis by `r` radians.
pub open spec fn rotation_x_matrix(r: i64) -> Matrix {
    Matrix {
        m00: ONE, m01: 0i64, m02: 0i64, m03: 0i64,
        m10: 0i64, m11: fxcos(r), m12: fxneg(fxsin(r)), m13: 0i64,
        m20: 0i64, m21: fxsin(r), m22: fxcos(r), m23: 0i64,
        m30: 0i64, m31: 0i64, m32: 0i64, m33: ONE,
    }
}

/// The rotation matrix about the y axis by `r` radians.
pub open spec fn rotation_y_matrix(r: i64) -> Matrix {
    Matrix {
        m00: fxcos(r), m01: 0i64, m02: fxsin(r), m03: 0i64,
        m10: 0i64, m11: ONE, m12: 0i64, m13: 0i64,
        m20: fxneg(fxsin(r)), m21: 0i64, m22: fxcos(r), m23: 0i64,
        m30: 0i64, m31: 0i64, m32: 0i64, m33: ONE,
    }
}

/// The rotation matrix about the z axis by `r` radians.
pub open spec fn rotation_z_matrix(r: i64) -> Matrix {
    Matrix {
        m00: fxcos(r), m01: fxneg(fxsin(r)), m02: 0i64, m03: 0i64,
        m10: fxsin(r), m11: fxcos(r), m12: 0i64, m13: 0i64,
        m20: 0i64, m21: 0i64, m22: ONE, m23: 0i64,
        m30: 0i64, m31: 0i64, m32: 0i64, m33: ONE,
    }
}

/// The camera orientation and shift derived from eye, target and up.
pub open spec fn spec_view_transform(from: Point, to: Point, up: Vector) -> Matrix {
    let forward = to.spec_sub(from).spec_normalize();
    let upn = up.spec_normalize();
    let left = forward.spec_cross(upn);
    let true_up = left.spec_cross(forward);
    let orientation = Matrix {
        m00: left.x, m01: left.y, m02: left.z, m03: 0i64,
        m10: true_up.x, m11: true_up.y, m12: true_up.z, m13: 0i64,
        m20: fxneg(forward.x), m21: fxneg(forward.y), m22: fxneg(forward.z), m23: 0i64,
        m30: 0i64, m31: 0i64, m32: 0i64, m33: ONE,
    };
    mat_mul(orientation, translation_matrix(fxneg(from.x), fxneg(from.y), fxneg(from.z)))
}

impl Matrix {
    pub fn translation(&self, x: i64, y: i64, z: i64) -> (m: Matrix)
        ensures
            m == mat_mul(translation_matrix(x, y, z), *self),
    {
        let t = Matrix {
            m00: ONE, m01: 0, m02: 0, m03: x,
            m10: 0, m11: ONE, m12: 0, m13: y,
            m20: 0, m21: 0, m22: ONE, m23: z,
            m30: 0, m31: 0, m32: 0, m33: ONE,
        };
        t.mul_matrix(self)
    }

    pub fn scaling(&self, x: i64, y: i64, z: i64) -> (m: Matrix)
        ensures
            m == mat_mul(scaling_matrix(x, y, z), *self),
    {
        let t = Matrix {
            m00: x, m01: 0, m02: 0, m03: 0,
            m10: 0, m11: y, m12: 0, m13: 0,
            m20: 0, m21: 0, m22: z, m23: 0,
            m30: 0, m31: 0, m32: 0, m33: ONE,
        };
        t.mul_matrix(self)
    }

    pub fn shearing(&self, xy: i64, xz: i64, yx: i64, yz: i64, zx: i64, zy: i64) -> (m: Matrix)
        ensures
            m == mat_mul(shearing_matrix(xy, xz, yx, yz, zx, zy), *self),
    {
        let t = Matrix {
            m00: ONE, m01: xy, m02: xz, m03: 0,
            m10: yx, m11: ONE, m12: yz, m13: 0,
            m20: zx, m21: zy, m22: ONE, m23: 0,
            m30: 0, m31: 0, m32: 0, m33: ONE,
        };
        t.mul_matrix(self)
    }

    pub fn rotation_x(&self, r: i64) -> (m: Matrix)
        ensures
            m == mat_mul(rotation_x_matrix(r), *self),
    {
        let c = fx_cos(r);
        let s = fx_sin(r);
        let t = Matrix {
            m00: ONE, m01: 0, m02: 0, m03: 0,
            m10: 0, m11: c, m12: fx_neg(s), m13: 0,
            m20: 0, m21: s, m22: c, m23: 0,
            m30: 0, m31: 0, m32: 0, m33: ONE,
        };
        t.mul_matrix(self)
    }

    pub fn rotation_y(&self, r: i64) -> (m: Matrix)
        ensures
            m == mat_mul(rotation_y_matrix(r), *self),
    {
        let c = fx_cos(r);
        let s = fx_sin(r);
        let t = Matrix {
            m00: c, m01: 0, m02: s, m03: 0,
            m10: 0, m11: ONE, m12: 0, m13: 0,
            m20: fx_neg(s), m21: 0, m22: c, m23: 0,
            m30: 0, m31: 0, m32: 0, m33: ONE,
        };
        t.mul_matrix(self)
    }

    pub fn rotation_z(&self, r: i64) -> (m: Matrix)
        ensures
            m == mat_mul(rotation_z_matrix(r), *self),
    {
        let c = fx_cos(r);
        let s = fx_sin(r);
        let t = Matrix {
            m00: c, m01: fx_neg(s), m02: 0, m03: 0,
            m10: s, m11: c, m12: 0, m13: 0,
            m20: 0, m21: 0, m22: ONE, m23: 0,
            m30: 0, m31: 0, m32: 0, m33: ONE,
        };
        t.mul_matrix(self)
    }
}

pub fn view_transform(from: Point, to: Point, up: Vector) -> (m: Matrix)
    ensures
        m == spec_view_transform(from, to, up),
{
    let forward = to.sub(from).normalize();
    let upn = up.normalize();
    let left = forward.cross(upn);
    let true_up = left.cross(forward);
    let orientation = Matrix {
        m00: left.x, m01: left.y, m02: left.z, m03: 0,
        m10: true_up.x, m11: true_up.y, m12: true_up.z, m13: 0,
        m20: fx_neg(forward.x), m21: fx_neg(forward.y), m22: fx_neg(forward.z), m23: 0,
        m30: 0, m31: 0, m32: 0, m33: ONE,
    };
    let shift = Matrix {
        m00: ONE, m01: 0, m02: 0, m03: fx_neg(from.x),
        m10: 0, m11: ONE, m12: 0, m13: fx_neg(from.y),
        m20: 0, m21: 0, m22: ONE, m23: fx_neg(from.z),
        m30: 0, m31: 0, m32: 0, m33: ONE,
    };
    orientation.mul_matrix(&shift)
}

} // verus!
