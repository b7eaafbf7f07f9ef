//! Fixed-point representation of the real-valued quantities of the engine.
//!
//! Coordinates, times, angles, noise samples and sizes are carried as
//! integers counting millionths of their unit (`UNIT` stands for `1.0`).
//! Rounding is always towards negative infinity.

use vstd::prelude::*;

verus! {

/// The integer that stands for `1.0`.
pub const UNIT: i64 = 1_000_000;

/// Clamps `x` into the range of `i64`.
pub open spec fn clamp_i64(x: int) -> int {
    if x < i64::MIN {
        i64::MIN as int
    } else if x > i64::MAX {
        i64::MAX as int
    } else {
        x
    }
}

/// Bound under which `floor_div` takes its dividend.
pub open spec fn small_i128(a: int) -> bool {
    -0x1_0000_0000_0000_0000_0000_0000_0000 < a < 0x1_0000_0000_0000_0000_0000_0000_0000
}

/// Division rounded towards negative infinity, for a positive divisor.
pub fn floor_div(a: i128, d: i128) -> (r: i128)
    requires
        d > 0,
        small_i128(a as int),
        small_i128(d as int),
    ensures
        r == a as int / d as int,
{
    if a >= 0 {
        let q = (a as u128) / (d as u128);
        assert(q as int == a as int / d as int);
        q as i128
    } else {
        let n: u128 = (-a) as u128;
        let dd: u128 = d as u128;
        let q: u128 = (n + dd - 1) / dd;
        proof {
            let qi = q as int;
            let ai = a as int;
            let di = d as int;
            let ni = n as int;
            assert(ni == -ai);
            vstd::arithmetic::div_mod::lemma_fundamental_div_mod(ni + di - 1, di);
            vstd::arithmetic::div_mod::lemma_fundamental_div_mod(ai, di);
            assert(qi == (ni + di - 1) / di);
            let r1 = (ni + di - 1) % di;
            assert(di * qi + r1 == ni + di - 1);
            assert(0 <= r1 < di);
            // -qi * di <= ai < -qi * di + di
            let q2 = ai / di;
            let r2 = ai % di;
            assert(di * q2 + r2 == ai);
            assert(0 <= r2 < di);
            assert(di * (-qi) <= ai < di * (-qi) + di) by (nonlinear_arith)
                requires
                    di * qi + r1 == ni + di - 1,
                    0 <= r1 < di,
                    ni == -ai,
            ;
            assert(q2 == -qi) by (nonlinear_arith)
                requires
                    di * q2 + r2 == ai,
                    0 <= r2 < di,
                    di * (-qi) <= ai < di * (-qi) + di,
                    di > 0,
            ;
        }
        -(q as i128)
    }
}

/// The product of two fixed-point values: `a * b / UNIT`.
pub open spec fn fixed_product(a: i32, b: i32) -> int {
    (a as int * b as int) / (UNIT as int)
}

/// The product of two fixed-point values, rounded down.
pub fn mul_fixed(a: i32, b: i32) -> (r: i64)
    ensures
        r == fixed_product(a, b),
        -0x4000_0000_0000_0000 <= r <= 0x4000_0000_0000_0000,
{
    assert(-0x4000_0000_0000_0000 <= a * b <= 0x4000_0000_0000_0000) by (nonlinear_arith)
        requires
            -0x8000_0000 <= a < 0x8000_0000,
            -0x8000_0000 <= b < 0x8000_0000,
    ;
    let p: i128 = a as i128 * b as i128;
    let q = floor_div(p, UNIT as i128);
    proof {
        let pi = p as int;
        let u = UNIT as int;
        vstd::arithmetic::div_mod::lemma_fundamental_div_mod(pi, u);
        let r = pi % u;
        assert(-0x4000_0000_0000_0000 <= q <= 0x4000_0000_0000_0000) by (nonlinear_arith)
            requires
                u * q + r == pi,
                0 <= r < u,
                u == 1_000_000,
                -0x4000_0000_0000_0000 <= pi <= 0x4000_0000_0000_0000,
        ;
    }
    q as i64
}

/// Clamps a wide value into `i64`.
pub fn saturate_i64(x: i128) -> (r: i64)
    ensures
        r == clamp_i64(x as int),
{
    if x < i64::MIN as i128 {
        i64::MIN
    } else if x > i64::MAX as i128 {
        i64::MAX
    } else {
        x as i64
    }
}

} // verus!
