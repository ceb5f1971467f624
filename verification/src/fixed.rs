//! Fixed-point scalar arithmetic.
//!
//! Scalars (positions, quaternion components, interpolation fractions) are
//! `i64` values carrying `ONE` units per 1.0; angles are `i64` values in
//! thousandths of a degree, `TURN` units per full turn.  All operations
//! round by flooring, so every executable result equals the mathematical
//! expression written with the `/` of specifications (Euclidean division).

use vstd::prelude::*;
use vstd::arithmetic::div_mod::lemma_fundamental_div_mod_converse;

verus! {

/// Fixed-point scale: this many units represent the scalar value 1.0.
pub const ONE: i64 = 1_000_000;

/// Angle units in a full turn (thousandths of a degree).
pub const TURN: i64 = 360_000;

/// Angle units in half a turn.
pub const HALF_TURN: i64 = 180_000;

/// Angle units in a quarter turn.
pub const QUARTER_TURN: i64 = 90_000;

/// Scaled product of two fixed-point scalars: `a * b / ONE`, floored.
pub open spec fn spec_mul_fp(a: int, b: int) -> int {
    a * b / (ONE as int)
}

/// Scaled quotient of two fixed-point scalars: `a * ONE / b`, floored.
pub open spec fn spec_div_fp(a: int, b: int) -> int {
    a * (ONE as int) / b
}

/// |x| <= bx and |y| <= by imply |x * y| <= bx * by.
pub proof fn lemma_mul_fits(x: int, y: int, bx: int, by: int)
    by (nonlinear_arith)
    requires
        -bx <= x <= bx,
        -by <= y <= by,
    ensures
        -(bx * by) <= x * y <= bx * by,
{
}

/// Floor division of an `i128` by a positive divisor, through unsigned
/// division on magnitudes.
fn div_floor_i128(a: i128, b: i128) -> (r: i128)
    requires
        0 < b,
        a > i128::MIN,
    ensures
        r == a as int / b as int,
{
    let neg: bool = a < 0;
    let m: u128 = if neg { (-a) as u128 } else { a as u128 };
    let bu: u128 = b as u128;
    let q: u128 = m / bu;
    let rr: u128 = m % bu;
    proof {
        assert(m == bu * q + rr) by (nonlinear_arith)
            requires q == m as int / bu as int, rr == m as int % bu as int, bu > 0;
    }
    if !neg {
        proof {
            lemma_fundamental_div_mod_converse(a as int, b as int, q as int, rr as int);
        }
        q as i128
    } else if rr == 0 {
        proof {
            assert(a as int == (-(q as int)) * (b as int) + 0) by (nonlinear_arith)
                requires m == bu * q, a == -(m as int), bu == b;
            lemma_fundamental_div_mod_converse(a as int, b as int, -(q as int), 0);
            assert(q <= m) by (nonlinear_arith)
                requires m == bu * q, bu >= 1, q >= 0;
        }
        -(q as i128)
    } else {
        proof {
            assert(a as int == (-(q as int) - 1) * (b as int) + (b - rr)) by (nonlinear_arith)
                requires m == bu * q + rr, a == -(m as int), bu == b;
            lemma_fundamental_div_mod_converse(a as int, b as int, -(q as int) - 1, b - rr);
            assert(q <= m) by (nonlinear_arith)
                requires m == bu * q + rr, bu >= 1, q >= 0, rr >= 0;
        }
        -(q as i128) - 1
    }
}

/// Rescale a double-scale product: `p / ONE`, floored.
pub fn div_one_i128(p: i128) -> (r: i64)
    requires
        -0x4000_0000_0000_0000 * (ONE as int) <= p <= 0x4000_0000_0000_0000 * (ONE as int),
    ensures
        r == p as int / (ONE as int),
{
    let q: i128 = div_floor_i128(p, ONE as i128);
    proof {
        assert(-0x4000_0000_0000_0000 <= (p as int) / (ONE as int) <= 0x4000_0000_0000_0000)
            by (nonlinear_arith)
            requires
                -0x4000_0000_0000_0000 * (ONE as int) <= p <= 0x4000_0000_0000_0000 * (ONE as int),
                ONE == 1_000_000;
    }
    q as i64
}

/// Floor of half an angle or scalar: `a / 2`.
pub fn half_floor(a: i64) -> (r: i64)
    requires
        a > i64::MIN,
    ensures
        r == a as int / 2,
{
    let q: i64 = a / 2;
    if a % 2 != 0 && a < 0 {
        q - 1
    } else {
        q
    }
}

/// Fixed-point multiply: `a * b / ONE`, floored.
pub fn mul_fp(a: i64, b: i64) -> (r: i64)
    requires
        -0x4000_0000_0000_0000 * (ONE as int) <= a * b <= 0x4000_0000_0000_0000 * (ONE as int),
    ensures
        r == spec_mul_fp(a as int, b as int),
{
    let p: i128 = (a as i128) * (b as i128);
    let q: i128 = div_floor_i128(p, ONE as i128);
    proof {
        assert(-0x4000_0000_0000_0000 <= (p as int) / (ONE as int) <= 0x4000_0000_0000_0000) by (nonlinear_arith)
            requires
                -0x4000_0000_0000_0000 * (ONE as int) <= p <= 0x4000_0000_0000_0000 * (ONE as int),
                ONE == 1_000_000;
    }
    q as i64
}

/// Fixed-point divide by a positive divisor: `a * ONE / b`, floored.
pub fn div_fp(a: i64, b: i64) -> (r: i64)
    requires
        0 < b,
        -0x4000_0000_0000_0000 * (b as int) <= a * (ONE as int) <= 0x4000_0000_0000_0000 * (b as int),
    ensures
        r == spec_div_fp(a as int, b as int),
{
    let p: i128 = (a as i128) * (ONE as i128);
    let q: i128 = div_floor_i128(p, b as i128);
    proof {
        assert(-0x4000_0000_0000_0000 <= (p as int) / (b as int) <= 0x4000_0000_0000_0000) by (nonlinear_arith)
            requires
                -0x4000_0000_0000_0000 * (b as int) <= p <= 0x4000_0000_0000_0000 * (b as int),
                b > 0;
    }
    q as i64
}

/// Euclidean remainder of `a` modulo a positive divisor `b`: the result
/// lies in `[0, b)` and agrees with the `%` of specifications.
pub fn rem_euclid_fp(a: i64, b: i64) -> (r: i64)
    requires
        0 < b,
        a > i64::MIN,
    ensures
        r == a as int % b as int,
{
    let neg: bool = a < 0;
    let m: u64 = if neg { (-a) as u64 } else { a as u64 };
    let bu: u64 = b as u64;
    let rr: u64 = m % bu;
    proof {
        let q = m as int / bu as int;
        assert(m == bu * q + rr) by (nonlinear_arith)
            requires q == m as int / bu as int, rr == m as int % bu as int, bu > 0;
        if neg {
            if rr == 0 {
                assert(a as int == (-q) * (b as int) + 0) by (nonlinear_arith)
                    requires m == bu * q, a == -(m as int), bu == b;
                lemma_fundamental_div_mod_converse(a as int, b as int, -q, 0);
            } else {
                assert(a as int == (-q - 1) * (b as int) + (b - rr)) by (nonlinear_arith)
                    requires m == bu * q + rr, a == -(m as int), bu == b;
                lemma_fundamental_div_mod_converse(a as int, b as int, -q - 1, b - rr);
            }
        } else {
            lemma_fundamental_div_mod_converse(a as int, b as int, q, rr as int);
        }
    }
    if !neg {
        rr as i64
    } else if rr == 0 {
        0
    } else {
        b - (rr as i64)
    }
}

/// Floor of the square root of a natural number.
pub open spec fn sqrt_floor(n: nat) -> nat
    decreases n,
{
    if n == 0 {
        0
    } else {
        let r = sqrt_floor((n - 1) as nat);
        if (r + 1) * (r + 1) <= n {
            r + 1
        } else {
            r
        }
    }
}

/// `sqrt_floor(n)` is the unique value whose square is at most `n` while
/// the next square exceeds `n`.
pub proof fn lemma_sqrt_floor_bounds(n: nat)
    ensures
        sqrt_floor(n) * sqrt_floor(n) <= n,
        n < (sqrt_floor(n) + 1) * (sqrt_floor(n) + 1),
    decreases n,
{
    if n == 0 {
        assert(sqrt_floor(n) * sqrt_floor(n) <= n && n < (sqrt_floor(n) + 1) * (sqrt_floor(n) + 1))
            by (nonlinear_arith)
            requires
                n == 0,
                sqrt_floor(n) == 0;
    } else {
        lemma_sqrt_floor_bounds((n - 1) as nat);
        let r = sqrt_floor((n - 1) as nat);
        let s = sqrt_floor(n);
        assert(r * r <= n - 1 && n - 1 < (r + 1) * (r + 1));
        if (r + 1) * (r + 1) <= n {
            assert(s == r + 1);
            assert(s * s <= n && n < (s + 1) * (s + 1)) by (nonlinear_arith)
                requires
                    s == r + 1,
                    (r + 1) * (r + 1) <= n,
                    n - 1 < (r + 1) * (r + 1),
                    r >= 0;
        } else {
            assert(s == r);
            assert(s * s <= n && n < (s + 1) * (s + 1)) by (nonlinear_arith)
                requires
                    s == r,
                    r * r <= n - 1,
                    !((r + 1) * (r + 1) <= n),
                    n >= 1;
        }
        assert(sqrt_floor(n) * sqrt_floor(n) <= n && n < (sqrt_floor(n) + 1) * (sqrt_floor(n) + 1))
            by (nonlinear_arith)
            requires
                sqrt_floor(n) == s,
                s * s <= n,
                n < (s + 1) * (s + 1);
    }
}

/// Any value bracketed by consecutive squares around `n` is `sqrt_floor(n)`.
pub proof fn lemma_sqrt_floor_unique(n: nat, r: nat)
    requires
        r * r <= n,
        n < (r + 1) * (r + 1),
    ensures
        r == sqrt_floor(n),
{
    lemma_sqrt_floor_bounds(n);
    let s = sqrt_floor(n);
    assert(r == s) by (nonlinear_arith)
        requires
            r * r <= n < (r + 1) * (r + 1),
            s * s <= n < (s + 1) * (s + 1),
            r >= 0,
            s >= 0;
}

/// Integer square root of a `u128`, floored.
pub fn isqrt(n: u128) -> (r: u64)
    requires
        n <= 0xFFFF_FFFF_FFFF_FFFF * 0xFFFF_FFFF_FFFF_FFFF,
    ensures
        r == sqrt_floor(n as nat),
        r * r <= n,
        n < (r + 1) * (r + 1),
{
    let mut lo: u128 = 0;
    let mut hi: u128 = 0x1_0000_0000_0000_0000;
    proof {
        assert(n < hi * hi) by (nonlinear_arith)
            requires n <= 0xFFFF_FFFF_FFFF_FFFF * 0xFFFF_FFFF_FFFF_FFFF, hi == 0x1_0000_0000_0000_0000;
    }
    while lo + 1 < hi
        invariant
            0 <= lo < hi <= 0x1_0000_0000_0000_0000,
            lo * lo <= n,
            n < hi * hi,
        decreases hi - lo,
    {
        let mid: u128 = lo + (hi - lo) / 2;
        assert(lo < mid < hi);
        proof {
            assert(mid * mid <= 0xFFFF_FFFF_FFFF_FFFF * 0xFFFF_FFFF_FFFF_FFFF) by (nonlinear_arith)
                requires 0 <= mid <= 0xFFFF_FFFF_FFFF_FFFF;
        }
        let sq: u128 = mid * mid;
        if sq <= n {
            lo = mid;
        } else {
            hi = mid;
        }
    }
    proof {
        assert(n < (lo + 1) * (lo + 1));
        lemma_sqrt_floor_unique(n as nat, lo as nat);
    }
    lo as u64
}

} // verus!
