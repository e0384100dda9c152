//! Fixed-point arithmetic helpers for the simulation.
//!
//! Every physical quantity in the library is an integer count of
//! thousandths of its unit (milli-units).  This module holds the shared
//! range constants and the small numeric kernel the integrator needs:
//! clamping, division that rounds toward zero, a Euclidean remainder,
//! an integer square root, and a polynomial sine approximation on
//! milli-radians.

use vstd::arithmetic::div_mod::{
    lemma_div_is_ordered, lemma_div_multiples_vanish, lemma_div_pos_is_pos,
    lemma_fundamental_div_mod, lemma_fundamental_div_mod_converse, lemma_small_mod,
};
use vstd::prelude::*;

verus! {

/// Largest value a derived car statistic may take (fixed-point steps).
pub const STAT_MAX: i64 = 1_000_000_000_000_000;

/// Largest magnitude of a velocity component (milli-metres per second).
pub const VEL_MAX: i64 = 1_000_000_000_000_000;

/// Largest magnitude of a position coordinate (milli-metres).
pub const POS_MAX: i64 = 100_000_000_000_000_000;

/// Largest accumulated time, distance or fuel amount.
pub const ACC_MAX: i64 = 100_000_000_000_000_000;

/// Longest simulation step, in milliseconds.
pub const DT_MAX_MS: i64 = 10_000;

/// Milli-radian approximation of pi used by the angle kernel.
pub const PI_MRAD: i64 = 3142;

/// Milli-radian approximation of 2*pi; angles live in [0, TAU_MRAD).
pub const TAU_MRAD: i64 = 6284;

/// Milli-radian approximation of pi/2.
pub const HALF_PI_MRAD: i64 = 1571;

/// A product of non-negative factors is bounded by the product of
/// their bounds.
pub proof fn lemma_mul_le(a: int, b: int, bound_a: int, bound_b: int) by (nonlinear_arith)
    requires
        0 <= a <= bound_a,
        0 <= b <= bound_b,
    ensures
        0 <= a * b <= bound_a * bound_b,
{
}

/// A product of factors of bounded magnitude has bounded magnitude.
pub proof fn lemma_mul_abs_le(a: int, b: int, bound_a: int, bound_b: int) by (nonlinear_arith)
    requires
        -bound_a <= a <= bound_a,
        -bound_b <= b <= bound_b,
        0 <= bound_a,
        0 <= bound_b,
    ensures
        -(bound_a * bound_b) <= a * b <= bound_a * bound_b,
{
}

/// Widening multiplication; the caller shows the product fits.
pub fn mul_u128(a: u128, b: u128) -> (r: u128)
    requires
        (a as int) * (b as int) <= u128::MAX,
    ensures
        r == (a as int) * (b as int),
{
    a * b
}

/// Signed widening multiplication; the caller shows the product fits.
pub fn mul_i128(a: i128, b: i128) -> (r: i128)
    requires
        i128::MIN <= (a as int) * (b as int) <= i128::MAX,
    ensures
        r == (a as int) * (b as int),
{
    a * b
}

pub open spec fn clamp_spec(v: int, lo: int, hi: int) -> int {
    if v < lo {
        lo
    } else if v > hi {
        hi
    } else {
        v
    }
}

/// Clamp a wide intermediate into an `i64` range.
pub fn clamp_i128(v: i128, lo: i64, hi: i64) -> (r: i64)
    requires
        lo <= hi,
    ensures
        r == clamp_spec(v as int, lo as int, hi as int),
{
    if v < lo as i128 {
        lo
    } else if v > hi as i128 {
        hi
    } else {
        v as i64
    }
}

/// Division by a positive divisor that rounds toward zero, as the
/// simulation's signed fixed-point products require.
pub open spec fn div_tz(a: int, b: int) -> int {
    if a >= 0 {
        a / b
    } else {
        -((-a) / b)
    }
}

pub fn div_tz_i128(a: i128, b: i128) -> (q: i128)
    requires
        b > 0,
        a > i128::MIN,
    ensures
        q == div_tz(a as int, b as int),
{
    if a >= 0 {
        let ua: u128 = a as u128;
        let ub: u128 = b as u128;
        let uq: u128 = ua / ub;
        proof {
            lemma_div_is_ordered(uq as int, ua as int, 1);
            assert(uq as int == a as int / b as int);
        }
        uq as i128
    } else {
        let ua: u128 = (-a) as u128;
        let ub: u128 = b as u128;
        let uq: u128 = ua / ub;
        proof {
            assert(uq <= ua) by {
                lemma_div_is_ordered(ua as int, ua as int, ub as int);
                vstd::arithmetic::div_mod::lemma_div_nonincreasing(ua as int, ub as int);
            }
        }
        -(uq as i128)
    }
}

/// Euclidean remainder by a positive modulus, matching `%` in
/// specifications.
pub fn rem_euclid_i64(a: i64, m: i64) -> (r: i64)
    requires
        m > 0,
        a > i64::MIN,
    ensures
        r == a as int % m as int,
        0 <= r < m,
{
    if a >= 0 {
        let ua: u64 = a as u64;
        let um: u64 = m as u64;
        let ur: u64 = ua % um;
        ur as i64
    } else {
        let na: u64 = (-a) as u64;
        let um: u64 = m as u64;
        let t: u64 = na % um;
        proof {
            let mi = m as int;
            let nai = na as int;
            lemma_fundamental_div_mod(nai, mi);
            let k = nai / mi;
            let ti = nai % mi;
            if t == 0 {
                assert(a as int == (-k) * mi + 0) by (nonlinear_arith)
                    requires
                        nai == mi * k + ti,
                        ti == 0,
                        a as int == -nai;
                lemma_fundamental_div_mod_converse(a as int, mi, -k, 0);
            } else {
                assert(a as int == (-k - 1) * mi + (mi - ti)) by (nonlinear_arith)
                    requires
                        nai == mi * k + ti,
                        a as int == -nai;
                lemma_fundamental_div_mod_converse(a as int, mi, -k - 1, mi - ti);
            }
        }
        if t == 0 {
            0
        } else {
            m - (t as i64)
        }
    }
}

/// Floor of the square root, defined by counting up.
pub open spec fn sqrt_floor(n: nat) -> nat
    decreases n,
{
    if n == 0 {
        0
    } else {
        let r = sqrt_floor((n - 1) as nat);
        if (r + 1) * (r + 1) <= n {
            r + 1
        } else {
            r
        }
    }
}

pub proof fn lemma_sqrt_floor_bounds(n: nat)
    ensures
        sqrt_floor(n) * sqrt_floor(n) <= n,
        n < (sqrt_floor(n) + 1) * (sqrt_floor(n) + 1),
    decreases n,
{
    if n > 0 {
        lemma_sqrt_floor_bounds((n - 1) as nat);
        let r0 = sqrt_floor((n - 1) as nat);
        assert(r0 * r0 <= n - 1);
        assert(((n - 1) as nat) < (r0 + 1) * (r0 + 1));
        if (r0 + 1) * (r0 + 1) <= n {
            assert(sqrt_floor(n) == r0 + 1);
            assert((r0 + 1 + 1) * (r0 + 1 + 1) > n) by (nonlinear_arith)
                requires
                    n <= (r0 + 1) * (r0 + 1);
        } else {
            assert(sqrt_floor(n) == r0);
        }
    } else {
        assert(sqrt_floor(n) == 0);
        assert(n < (sqrt_floor(n) + 1) * (sqrt_floor(n) + 1)) by (nonlinear_arith)
            requires
                n == 0,
                sqrt_floor(n) == 0;
    }
}

pub proof fn lemma_sqrt_floor_unique(n: nat, r: nat)
    requires
        r * r <= n,
        n < (r + 1) * (r + 1),
    ensures
        r == sqrt_floor(n),
{
    let s = sqrt_floor(n);
    lemma_sqrt_floor_bounds(n);
    if r < s {
        assert((r + 1) * (r + 1) <= s * s) by (nonlinear_arith)
            requires
                r + 1 <= s;
    }
    if s < r {
        assert((s + 1) * (s + 1) <= r * r) by (nonlinear_arith)
            requires
                s + 1 <= r;
    }
}

/// Upper bound on the squared magnitudes handed to `isqrt_u128`:
/// three squared velocity components at most.
pub const MAG2_MAX: u128 = 3_000_000_000_000_000_000_000_000_000_000;

/// Integer square root by bisection.
pub fn isqrt_u128(n: u128) -> (r: u64)
    requires
        n <= MAG2_MAX,
    ensures
        r as nat == sqrt_floor(n as nat),
        (r as nat) * (r as nat) <= n as nat,
        (n as nat) < ((r as nat) + 1) * ((r as nat) + 1),
        r <= 2_000_000_000_000_000,
{
    let mut lo: u64 = 0;
    let mut hi: u64 = 2_000_000_000_000_001;
    proof {
        assert((hi as nat) * (hi as nat) > n as nat) by (nonlinear_arith)
            requires
                hi as nat == 2_000_000_000_000_001nat,
                n as nat <= 3_000_000_000_000_000_000_000_000_000_000nat;
    }
    while lo + 1 < hi
        invariant
            lo < hi,
            hi <= 2_000_000_000_000_001,
            (lo as nat) * (lo as nat) <= n as nat,
            (n as nat) < (hi as nat) * (hi as nat),
        decreases hi - lo,
    {
        let mid: u64 = lo + (hi - lo) / 2;
        proof {
            assert((mid as int) * (mid as int) <= u128::MAX) by (nonlinear_arith)
                requires
                    0 <= (mid as int) <= 2_000_000_000_000_001;
        }
        let sq: u128 = (mid as u128) * (mid as u128);
        if sq <= n {
            lo = mid;
        } else {
            hi = mid;
        }
    }
    proof {
        lemma_sqrt_floor_unique(n as nat, lo as nat);
    }
    lo
}

/// Quadratic sine approximation on a half period, in milli-radians in
/// and milli-steps out.
pub open spec fn sin_half_spec(x: int) -> int {
    let p = x * (PI_MRAD - x);
    16000 * p / (5 * PI_MRAD * PI_MRAD - 4 * p)
}

/// Sine over a full period [0, TAU_MRAD), odd around PI_MRAD.
pub open spec fn sin_mrad_spec(x: int) -> int {
    if x <= PI_MRAD {
        sin_half_spec(x)
    } else {
        -sin_half_spec(x - PI_MRAD)
    }
}

/// Cosine as the quarter-period shift of the sine.
pub open spec fn cos_mrad_spec(x: int) -> int {
    sin_mrad_spec((x + HALF_PI_MRAD) % (TAU_MRAD as int))
}

proof fn lemma_sin_half_bounds(x: int)
    requires
        0 <= x <= PI_MRAD,
    ensures
        0 <= sin_half_spec(x) <= 1000,
{
    let p = x * (PI_MRAD - x);
    assert(0 <= p <= HALF_PI_MRAD * HALF_PI_MRAD) by (nonlinear_arith)
        requires
            0 <= x <= PI_MRAD,
            p == x * (PI_MRAD - x);
    let num = 16000 * p;
    let den = 5 * PI_MRAD * PI_MRAD - 4 * p;
    assert(den >= 39488656);
    assert(num <= 1000 * den);
    assert(num / den <= (den * 1000) / den) by {
        lemma_div_is_ordered(num, 1000 * den, den);
        assert(1000 * den == den * 1000);
    }
    lemma_div_multiples_vanish(1000, den);
    lemma_div_pos_is_pos(num, den);
}

fn sin_half_mrad(x: i64) -> (s: i64)
    requires
        0 <= x <= PI_MRAD,
    ensures
        s == sin_half_spec(x as int),
        0 <= s <= 1000,
{
    proof {
        assert((x as int) * ((PI_MRAD - x) as int) <= HALF_PI_MRAD * HALF_PI_MRAD)
            by (nonlinear_arith)
            requires
                0 <= (x as int) <= PI_MRAD;
        assert((x as int) * ((PI_MRAD - x) as int) >= 0) by (nonlinear_arith)
            requires
                0 <= (x as int) <= PI_MRAD;
        lemma_sin_half_bounds(x as int);
    }
    let p: u128 = (x as u128) * ((PI_MRAD - x) as u128);
    let num: u128 = 16000 * p;
    let den: u128 = 49360820 - 4 * p;
    let s: u128 = num / den;
    proof {
        assert(5 * PI_MRAD * PI_MRAD == 49360820);
    }
    s as i64
}

/// Sine of an angle in [0, TAU_MRAD), in milli-steps.
pub fn sin_mrad(x: i64) -> (s: i64)
    requires
        0 <= x < TAU_MRAD,
    ensures
        s == sin_mrad_spec(x as int),
        -1000 <= s <= 1000,
{
    if x <= PI_MRAD {
        sin_half_mrad(x)
    } else {
        let s0 = sin_half_mrad(x - PI_MRAD);
        -s0
    }
}

/// Cosine of an angle in [0, TAU_MRAD), in milli-steps.
pub fn cos_mrad(x: i64) -> (c: i64)
    requires
        0 <= x < TAU_MRAD,
    ensures
        c == cos_mrad_spec(x as int),
        -1000 <= c <= 1000,
{
    let y: i64 = if x + HALF_PI_MRAD >= TAU_MRAD {
        x + HALF_PI_MRAD - TAU_MRAD
    } else {
        x + HALF_PI_MRAD
    };
    proof {
        if x + HALF_PI_MRAD >= TAU_MRAD {
            lemma_fundamental_div_mod_converse(
                x as int + HALF_PI_MRAD,
                TAU_MRAD as int,
                1,
                x as int + HALF_PI_MRAD - TAU_MRAD,
            );
        } else {
            lemma_small_mod((x + HALF_PI_MRAD) as nat, TAU_MRAD as nat);
        }
    }
    sin_mrad(y)
}

} // verus!
