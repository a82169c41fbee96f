//! Sine, cosine and tangent on fixed-point radians.
//!
//! The angle is reduced to a quarter turn around zero and the result comes
//! from a short odd/even polynomial in fixed-point arithmetic; the spec
//! mirrors (`fxsin`, `fxcos`, `fxtan`) state that computation exactly.

use vstd::prelude::*;

use crate::fx::{
    fx_add, fx_divn, fx_mul, fx_neg, fx_sub, fxadd, fxdiv, fxdivn, fxmul, fxneg, fxsub, fx_div,
    ONE,
};

verus! {

/// Half pi (a quarter turn) in raw units.
pub const HALF_PI: i64 = 15_707_963_267_949;

/// A quarter of half pi, the midpoint shift of the angle reduction.
pub const QUARTER_SHIFT: i64 = 7_853_981_633_974;

/// The reduced angle: `x` minus the nearest multiple of `HALF_PI`.
pub open spec fn redr(x: i64) -> i64 {
    ((x + QUARTER_SHIFT) % (HALF_PI as int) - QUARTER_SHIFT) as i64
}

/// Which quarter turn `x` lies in (0 to 3).
pub open spec fn redq(x: i64) -> int {
    ((x + QUARTER_SHIFT) / (HALF_PI as int)) % 4
}

/// Sine of a reduced angle by its odd polynomial up to the seventh power.
pub open spec fn sin_poly(r: i64) -> i64 {
    let r2 = fxmul(r, r);
    let r3 = fxmul(r2, r);
    let r5 = fxmul(r3, r2);
    let r7 = fxmul(r5, r2);
    fxsub(fxadd(fxsub(r, fxdivn(r3, 6)), fxdivn(r5, 120)), fxdivn(r7, 5040))
}

/// Cosine of a reduced angle by its even polynomial up to the eighth power.
pub open spec fn cos_poly(r: i64) -> i64 {
    let r2 = fxmul(r, r);
    let r4 = fxmul(r2, r2);
    let r6 = fxmul(r4, r2);
    let r8 = fxmul(r6, r2);
    fxadd(fxsub(fxadd(fxsub(ONE, fxdivn(r2, 2)), fxdivn(r4, 24)), fxdivn(r6, 720)), fxdivn(r8, 40320))
}

/// Fixed-point sine of an angle in radians.
pub open spec fn fxsin(x: i64) -> i64 {
    let r = redr(x);
    let q = redq(x);
    if q == 0 {
        sin_poly(r)
    } else if q == 1 {
        cos_poly(r)
    } else if q == 2 {
        fxneg(sin_poly(r))
    } else {
        fxneg(cos_poly(r))
    }
}

/// Fixed-point cosine of an angle in radians.
pub open spec fn fxcos(x: i64) -> i64 {
    let r = redr(x);
    let q = redq(x);
    if q == 0 {
        cos_poly(r)
    } else if q == 1 {
        fxneg(sin_poly(r))
    } else if q == 2 {
        fxneg(cos_poly(r))
    } else {
        sin_poly(r)
    }
}

/// Fixed-point tangent; saturated where the cosine vanishes.
pub open spec fn fxtan(x: i64) -> i64 {
    let c = fxcos(x);
    if c == 0 {
        if fxsin(x) >= 0 {
            i64::MAX
        } else {
            i64::MIN
        }
    } else {
        fxdiv(fxsin(x), c)
    }
}

/// The reduced angle and the quarter turn of `x`.
fn reduce(x: i64) -> (res: (i64, i64))
    ensures
        res.0 == redr(x),
        res.1 as int == redq(x),
{
    let num: i128 = x as i128 + QUARTER_SHIFT as i128;
    let m: i128 = match num.checked_rem_euclid(HALF_PI as i128) {
        Some(m) => m,
        None => unreached(),
    };
    let k: i128 = match num.checked_div_euclid(HALF_PI as i128) {
        Some(k) => k,
        None => unreached(),
    };
    let q: i128 = match k.checked_rem_euclid(4) {
        Some(q) => q,
        None => unreached(),
    };
    let r = (m - QUARTER_SHIFT as i128) as i64;
    (r, q as i64)
}

fn sin_poly_exec(r: i64) -> (s: i64)
    ensures
        s == sin_poly(r),
{
    let r2 = fx_mul(r, r);
    let r3 = fx_mul(r2, r);
    let r5 = fx_mul(r3, r2);
    let r7 = fx_mul(r5, r2);
    fx_sub(fx_add(fx_sub(r, fx_divn(r3, 6)), fx_divn(r5, 120)), fx_divn(r7, 5040))
}

fn cos_poly_exec(r: i64) -> (c: i64)
    ensures
        c == cos_poly(r),
{
    let r2 = fx_mul(r, r);
    let r4 = fx_mul(r2, r2);
    let r6 = fx_mul(r4, r2);
    let r8 = fx_mul(r6, r2);
    fx_add(fx_sub(fx_add(fx_sub(ONE, fx_divn(r2, 2)), fx_divn(r4, 24)), fx_divn(r6, 720)), fx_divn(r8, 40320))
}

pub fn fx_sin(x: i64) -> (s: i64)
    ensures
        s == fxsin(x),
{
    let (r, q) = reduce(x);
    if q == 0 {
        sin_poly_exec(r)
    } else if q == 1 {
        cos_poly_exec(r)
    } else if q == 2 {
        fx_neg(sin_poly_exec(r))
    } else {
        fx_neg(cos_poly_exec(r))
    }
}

pub fn fx_cos(x: i64) -> (c: i64)
    ensures
        c == fxcos(x),
{
    let (r, q) = reduce(x);
    if q == 0 {
        cos_poly_exec(r)
    } else if q == 1 {
        fx_neg(sin_poly_exec(r))
    } else if q == 2 {
        fx_neg(cos_poly_exec(r))
    } else {
        sin_poly_exec(r)
    }
}

pub fn fx_tan(x: i64) -> (t: i64)
    ensures
        t == fxtan(x),
{
    let s = fx_sin(x);
    let c = fx_cos(x);
    if c == 0 {
        if s >= 0 {
            i64::MAX
        } else {
            i64::MIN
        }
    } else {
        fx_div(s, c)
    }
}

} // verus!
