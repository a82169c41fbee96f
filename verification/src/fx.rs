//! Fixed-point scalars: an `i64` holds a real number scaled by `SCALE`.
//!
//! Every operation is total: results outside the `i64` range saturate, and
//! multiplication and division truncate toward zero, exactly as the spec
//! mirrors (`fxadd`, `fxmul`, ...) say. All contracts in this crate are stated
//! over those mirrors, so each arithmetic step of the renderer is pinned down.

use vstd::prelude::*;

verus! {

/// Raw units per 1.0; every scalar in the crate is a multiple of 1/SCALE.
pub const SCALE: i64 = 10_000_000_000_000;

/// The scalar 1.0 in raw units.
pub const ONE: i64 = 10_000_000_000_000;

/// The scalar 2.0 in raw units.
pub const TWO: i64 = 20_000_000_000_000;

/// Tolerance of the approximate comparisons (0.00003).
pub const EPS: i64 = 300_000_000;

/// Absolute value over mathematical integers.
pub open spec fn iabs(x: int) -> int {
    if x < 0 {
        -x
    } else {
        x
    }
}

/// Clamp a mathematical integer into the `i64` range.
pub open spec fn sat(x: int) -> i64 {
    if x > i64::MAX {
        i64::MAX
    } else if x < i64::MIN {
        i64::MIN
    } else {
        x as i64
    }
}

/// Division truncating toward zero (the direction Rust's `/` rounds).
pub open spec fn qdiv(n: int, d: int) -> int
    recommends
        d != 0,
{
    if n == 0 {
        0
    } else if n > 0 && d > 0 {
        n / d
    } else if n < 0 && d < 0 {
        (n * -1) / (d * -1)
    } else if n < 0 {
        ((n * -1) / d) * -1
    } else {
        (n / (d * -1)) * -1
    }
}

/// Saturating fixed-point addition.
pub open spec fn fxadd(a: i64, b: i64) -> i64 {
    sat(a + b)
}

/// Saturating fixed-point subtraction.
pub open spec fn fxsub(a: i64, b: i64) -> i64 {
    sat(a - b)
}

/// Saturating fixed-point negation.
pub open spec fn fxneg(a: i64) -> i64 {
    sat(-a)
}

/// Saturating fixed-point absolute value.
pub open spec fn fxabs(a: i64) -> i64 {
    sat(iabs(a as int))
}

/// Saturating fixed-point multiplication, truncating toward zero.
pub open spec fn fxmul(a: i64, b: i64) -> i64 {
    sat(qdiv(a * b, SCALE as int))
}

/// Saturating fixed-point division, truncating toward zero.
pub open spec fn fxdiv(a: i64, b: i64) -> i64
    recommends
        b != 0,
{
    sat(qdiv(a * SCALE, b as int))
}

/// Divide a scalar by a plain integer count, truncating toward zero.
pub open spec fn fxdivn(a: i64, n: i64) -> i64
    recommends
        n != 0,
{
    sat(qdiv(a as int, n as int))
}

pub open spec fn fxmin(a: i64, b: i64) -> i64 {
    if a <= b {
        a
    } else {
        b
    }
}

pub open spec fn fxmax(a: i64, b: i64) -> i64 {
    if a >= b {
        a
    } else {
        b
    }
}

/// The whole multiple of `SCALE` at or below `a` (the floor), saturated.
pub open spec fn fxfloor(a: i64) -> i64 {
    sat((a as int / SCALE as int) * SCALE)
}

/// The floor of `a` as a plain integer count of whole units.
pub open spec fn ifloor(a: i64) -> int {
    a as int / SCALE as int
}

/// Two scalars are near when they differ by at most `EPS` raw units.
pub open spec fn fx_near(a: i64, b: i64) -> bool {
    iabs(a - b) <= EPS
}

/// `r` is the integer square root of `n`.
pub open spec fn is_isqrt(n: int, r: int) -> bool {
    0 <= r && r * r <= n && n < (r + 1) * (r + 1)
}

/// The integer square root (floor of the real square root).
pub open spec fn isqrt_spec(n: int) -> int
    recommends
        n >= 0,
{
    choose|r: int| is_isqrt(n, r)
}

/// Fixed-point square root: the floor square root in raw units.
pub open spec fn fxsqrt(a: i64) -> i64
    recommends
        a >= 0,
{
    sat(isqrt_spec(a * SCALE))
}

/// Fixed-point power with a plain integer exponent.
pub open spec fn fxpowi(b: i64, n: nat) -> i64
    decreases n,
{
    if n == 0 {
        ONE
    } else {
        fxmul(fxpowi(b, (n - 1) as nat), b)
    }
}

proof fn lemma_isqrt_unique(n: int, a: int, b: int)
    requires
        is_isqrt(n, a),
        is_isqrt(n, b),
    ensures
        a == b,
{
    assert(a == b) by (nonlinear_arith)
        requires
            0 <= a && a * a <= n && n < (a + 1) * (a + 1),
            0 <= b && b * b <= n && n < (b + 1) * (b + 1),
    ;
}

/// Every nonnegative number has an integer square root, so `isqrt_spec`
/// satisfies its characterization.
pub proof fn lemma_isqrt_exists(n: int)
    requires
        n >= 0,
    ensures
        is_isqrt(n, isqrt_spec(n)),
    decreases n,
{
    if n == 0 {
        assert(is_isqrt(0, 0));
    } else {
        lemma_isqrt_exists(n - 1);
        let r = isqrt_spec(n - 1);
        if (r + 1) * (r + 1) <= n {
            assert((r + 1) * (r + 1) == n);
            assert(n < (r + 2) * (r + 2)) by (nonlinear_arith)
                requires
                    r >= 0,
                    (r + 1) * (r + 1) == n,
            ;
            assert(is_isqrt(n, r + 1));
        } else {
            assert(is_isqrt(n, r));
        }
    }
}

/// Dividing by 1.0 returns the scalar unchanged.
pub proof fn lemma_fxdiv_one(x: i64)
    ensures
        fxdiv(x, ONE) == x,
{
    if x > 0 {
        vstd::arithmetic::div_mod::lemma_div_multiples_vanish(x as int, SCALE as int);
        assert(x * (SCALE as int) == (SCALE as int) * x);
    } else if x < 0 {
        vstd::arithmetic::div_mod::lemma_div_multiples_vanish(-(x as int), SCALE as int);
        assert((x * SCALE) * -1 == (SCALE as int) * (-(x as int)));
    }
}

/// The fixed-point square of a scalar is never negative.
pub proof fn lemma_square_nonneg(x: i64)
    ensures
        fxmul(x, x) >= 0,
{
    assert(x as int * x as int >= 0) by (nonlinear_arith);
    if x as int * x as int > 0 {
        vstd::arithmetic::div_mod::lemma_div_pos_is_pos(x as int * x as int, SCALE as int);
    }
}

/// For a scalar whose square stays in range, the fixed-point square brackets
/// the exact square from below, one truncation step wide.
pub proof fn lemma_fxmul_square(x: i64)
    requires
        -3_000_000_000_000_000 <= x <= 3_000_000_000_000_000,
    ensures
        fxmul(x, x) >= 0,
        (SCALE as int) * fxmul(x, x) <= x * x,
        x * x < (SCALE as int) * (fxmul(x, x) + 1),
{
    let p = x as int * x as int;
    let s = SCALE as int;
    assert(0 <= p <= 9_000_000_000_000_000_000_000_000_000_000) by (nonlinear_arith)
        requires
            -3_000_000_000_000_000 <= x as int <= 3_000_000_000_000_000,
            p == x as int * x as int,
    ;
    vstd::arithmetic::div_mod::lemma_fundamental_div_mod(p, s);
    if p > 0 {
        vstd::arithmetic::div_mod::lemma_div_pos_is_pos(p, s);
    }
    assert(qdiv(p, s) == p / s);
    assert(p / s <= 900_000_000_000_000_000) by (nonlinear_arith)
        requires
            s * (p / s) <= p,
            p <= 9_000_000_000_000_000_000_000_000_000_000,
            s == 10_000_000_000_000,
            p / s >= 0,
    ;
    assert(fxmul(x, x) == p / s);
}

/// For a positive divisor, the magnitude of the fixed-point quotient
/// brackets the exact scaled ratio, one truncation step wide.
pub proof fn lemma_fxdiv_brackets(x: i64, m: i64)
    requires
        m > 0,
        iabs(x as int) * SCALE < m * i64::MAX,
    ensures
        iabs(fxdiv(x, m) as int) * m <= iabs(x as int) * SCALE,
        iabs(x as int) * SCALE < (iabs(fxdiv(x, m) as int) + 1) * m,
{
    let s = SCALE as int;
    let a = iabs(x as int);
    let q = a * s / (m as int);
    assert(a * s >= 0) by (nonlinear_arith)
        requires
            a >= 0,
            s > 0,
    ;
    vstd::arithmetic::div_mod::lemma_fundamental_div_mod(a * s, m as int);
    vstd::arithmetic::div_mod::lemma_mod_bound(a * s, m as int);
    if a * s > 0 {
        vstd::arithmetic::div_mod::lemma_div_pos_is_pos(a * s, m as int);
    }
    assert(q >= 0);
    assert(q < i64::MAX) by (nonlinear_arith)
        requires
            (m as int) * q <= a * s,
            a * s < m * i64::MAX,
            m > 0,
            q >= 0,
    ;
    assert((m as int) * q == q * (m as int)) by (nonlinear_arith);
    assert((m as int) * (q + 1) == (m as int) * q + m) by (nonlinear_arith);
    assert((m as int) * (q + 1) == (q + 1) * (m as int)) by (nonlinear_arith);
    if x >= 0 {
        assert(x * SCALE == a * s);
        assert(qdiv(x * SCALE, m as int) == q);
        assert(fxdiv(x, m) as int == q);
        assert(iabs(q) == q);
    } else {
        assert(x * SCALE < 0) by (nonlinear_arith)
            requires
                x < 0,
                SCALE as int > 0,
        ;
        assert((x * SCALE) * -1 == a * s) by (nonlinear_arith)
            requires
                x < 0,
                a == -(x as int),
                s == SCALE as int,
        ;
        assert(qdiv(x * SCALE, m as int) == q * -1);
        assert(fxdiv(x, m) as int == q * -1);
        assert(iabs(q * -1) == q);
    }
}

fn sat_i128(x: i128) -> (r: i64)
    ensures
        r == sat(x as int),
{
    if x > i64::MAX as i128 {
        i64::MAX
    } else if x < i64::MIN as i128 {
        i64::MIN
    } else {
        x as i64
    }
}

pub fn fx_add(a: i64, b: i64) -> (r: i64)
    ensures
        r == fxadd(a, b),
{
    sat_i128(a as i128 + b as i128)
}

pub fn fx_sub(a: i64, b: i64) -> (r: i64)
    ensures
        r == fxsub(a, b),
{
    sat_i128(a as i128 - b as i128)
}

pub fn fx_neg(a: i64) -> (r: i64)
    ensures
        r == fxneg(a),
{
    sat_i128(-(a as i128))
}

pub fn fx_abs(a: i64) -> (r: i64)
    ensures
        r == fxabs(a),
{
    if a < 0 {
        sat_i128(-(a as i128))
    } else {
        a
    }
}

pub fn fx_min(a: i64, b: i64) -> (r: i64)
    ensures
        r == fxmin(a, b),
{
    if a <= b {
        a
    } else {
        b
    }
}

pub fn fx_max(a: i64, b: i64) -> (r: i64)
    ensures
        r == fxmax(a, b),
{
    if a >= b {
        a
    } else {
        b
    }
}

/// Truncating division of an `i128` (above `i128::MIN`) by a nonzero divisor.
fn tdiv_i128(n: i128, d: i128) -> (r: i128)
    requires
        d != 0,
        n != i128::MIN,
    ensures
        r == qdiv(n as int, d as int),
{
    proof {
        let x = n as int;
        let y = d as int;
        if x > 0 && y > 0 {
            vstd::arithmetic::div_mod::lemma_div_pos_is_pos(x, y);
            vstd::arithmetic::div_mod::lemma_div_nonincreasing(x, y);
        } else if x < 0 && y < 0 {
            vstd::arithmetic::div_mod::lemma_div_pos_is_pos(-x, -y);
            vstd::arithmetic::div_mod::lemma_div_nonincreasing(-x, -y);
        } else if x < 0 {
            vstd::arithmetic::div_mod::lemma_div_pos_is_pos(-x, y);
            vstd::arithmetic::div_mod::lemma_div_nonincreasing(-x, y);
        } else if x > 0 {
            vstd::arithmetic::div_mod::lemma_div_pos_is_pos(x, -y);
            vstd::arithmetic::div_mod::lemma_div_nonincreasing(x, -y);
        }
    }
    match n.checked_div(d) {
        Some(q) => q,
        None => unreached(),
    }
}

pub proof fn lemma_i64_product_in_i128(a: int, b: int)
    requires
        -0x8000000000000000 <= a <= 0x7fffffffffffffff,
        -0x8000000000000000 <= b <= 0x7fffffffffffffff,
    ensures
        -0x40000000000000000000000000000000 <= a * b <= 0x40000000000000000000000000000000,
{
    assert(-0x40000000000000000000000000000000 <= a * b <= 0x40000000000000000000000000000000)
        by (nonlinear_arith)
        requires
            -0x8000000000000000 <= a <= 0x7fffffffffffffff,
            -0x8000000000000000 <= b <= 0x7fffffffffffffff,
    ;
}

pub fn fx_mul(a: i64, b: i64) -> (r: i64)
    ensures
        r == fxmul(a, b),
{
    proof {
        lemma_i64_product_in_i128(a as int, b as int);
    }
    let p: i128 = (a as i128) * (b as i128);
    let q = tdiv_i128(p, SCALE as i128);
    sat_i128(q)
}

pub fn fx_div(a: i64, b: i64) -> (r: i64)
    requires
        b != 0,
    ensures
        r == fxdiv(a, b),
{
    proof {
        lemma_i64_product_in_i128(a as int, SCALE as int);
    }
    let p: i128 = (a as i128) * (SCALE as i128);
    let q = tdiv_i128(p, b as i128);
    sat_i128(q)
}

pub fn fx_divn(a: i64, n: i64) -> (r: i64)
    requires
        n != 0,
    ensures
        r == fxdivn(a, n),
{
    let q = tdiv_i128(a as i128, n as i128);
    sat_i128(q)
}

pub fn fx_floor(a: i64) -> (r: i64)
    ensures
        r == fxfloor(a),
{
    let q = match (a as i128).checked_div_euclid(SCALE as i128) {
        Some(q) => q,
        None => unreached(),
    };
    sat_i128(q * SCALE as i128)
}

/// The floor of `a` in whole units, as a plain integer.
pub fn fx_floor_units(a: i64) -> (r: i64)
    ensures
        r as int == ifloor(a),
{
    match a.checked_div_euclid(SCALE) {
        Some(q) => q,
        None => unreached(),
    }
}

/// Whether the floor of `a` (in whole units) is even.
pub fn fx_floor_even(a: i64) -> (r: bool)
    ensures
        r == (ifloor(a) % 2int == 0),
{
    let u = fx_floor_units(a);
    let m = match u.checked_rem_euclid(2) {
        Some(m) => m,
        None => unreached(),
    };
    m == 0
}

pub fn fx_approx(a: i64, b: i64) -> (r: bool)
    ensures
        r == fx_near(a, b),
{
    let d: i128 = a as i128 - b as i128;
    let d = if d < 0 {
        -d
    } else {
        d
    };
    d <= EPS as i128
}

fn isqrt_u128(n: u128) -> (r: u128)
    ensures
        is_isqrt(n as int, r as int),
{
    let mut r: u128 = 0;
    let mut step: u128 = 0x10000000000000000u128;
    let ghost mut k: nat = 64;
    proof {
        vstd::arithmetic::power2::lemma2_to64();
        assert((0x10000000000000000int) * (0x10000000000000000int) > n as int)
            by (nonlinear_arith)
            requires
                n as int <= 0xffffffffffffffffffffffffffffffffint,
        ;
    }
    while step > 1
        invariant
            1 <= step,
            step as nat == vstd::arithmetic::power2::pow2(k),
            r <= 0xffffffffffffffffu128,
            r * r <= n,
            (r + step) * (r + step) > n,
        decreases step,
    {
        proof {
            if k == 0 {
                vstd::arithmetic::power2::lemma2_to64();
            }
            vstd::arithmetic::power2::lemma_pow2_unfold(k);
            k = (k - 1) as nat;
        }
        let half = step / 2;
        let c = r + half;
        if c <= 0xffffffffffffffffu128 {
            proof {
                assert(c * c <= 0xffffffffffffffffffffffffffffffffint) by (nonlinear_arith)
                    requires
                        0 <= c as int <= 0xffffffffffffffffint,
                ;
            }
            if c * c <= n {
                r = c;
            }
        } else {
            proof {
                assert(c * c > n) by (nonlinear_arith)
                    requires
                        c as int >= 0x10000000000000000int,
                        n as int <= 0xffffffffffffffffffffffffffffffffint,
                ;
            }
        }
        step = half;
    }
    r
}

pub fn fx_sqrt(a: i64) -> (r: i64)
    requires
        a >= 0,
    ensures
        r == fxsqrt(a),
{
    proof {
        lemma_i64_product_in_i128(a as int, SCALE as int);
    }
    let n: u128 = (a as u128) * (SCALE as u128);
    let s = isqrt_u128(n);
    proof {
        assert(is_isqrt(n as int, s as int));
        assert(is_isqrt(a as int * SCALE as int, isqrt_spec(a as int * SCALE as int)));
        lemma_isqrt_unique(n as int, s as int, isqrt_spec(a as int * SCALE as int));
        assert(n as int <= 0x10000000000000000000000000000int);
        assert(s as int <= 0x7fffffffffffffffint) by (nonlinear_arith)
            requires
                s as int * s as int <= n as int,
                n as int <= 0x10000000000000000000000000000int,
                s as int >= 0,
        ;
    }
    s as i64
}

pub fn fx_powi(b: i64, n: u32) -> (r: i64)
    ensures
        r == fxpowi(b, n as nat),
{
    let mut acc: i64 = ONE;
    let mut i: u32 = 0;
    while i < n
        invariant
            i <= n,
            acc == fxpowi(b, i as nat),
        decreases n - i,
    {
        acc = fx_mul(acc, b);
        i = i + 1;
    }
    acc
}

} // verus!
