//! Fixed-point trigonometry over angles in thousandths of a degree.
//!
//! The sine over a half turn is the classical rational approximation
//! `sin(x) = 4 x (H - x) / (K - x (H - x))` with `H` a half turn; it is
//! exact at `0`, a quarter turn and a half turn, and weakly monotone on
//! the first quarter turn.  Cosine is the shifted sine.  Inverse
//! functions are defined by downward scans over the quarter turn and are
//! computed by verified binary searches.

use vstd::prelude::*;
use vstd::arithmetic::div_mod::lemma_div_is_ordered;
use vstd::arithmetic::div_mod::lemma_div_is_ordered_by_denominator;
use vstd::arithmetic::div_mod::lemma_div_multiples_vanish;
use vstd::arithmetic::div_mod::lemma_div_pos_is_pos;
use crate::fixed::ONE;
use crate::fixed::TURN;
use crate::fixed::HALF_TURN;
use crate::fixed::QUARTER_TURN;
use crate::fixed::rem_euclid_fp;

verus! {

/// Denominator constant of the rational sine approximation, scaled to
/// angle units: `40500 * 10^6`.
pub const SIN_K: i64 = 40_500_000_000;

/// Sine over the first half turn: `x` in `[0, HALF_TURN]`, result in
/// `[0, ONE]`.
pub open spec fn spec_sin_half(x: int) -> int {
    4 * x * (HALF_TURN - x) * ONE / (SIN_K - x * (HALF_TURN - x))
}

/// Sine of any angle, by wrapping into `[0, TURN)` and odd symmetry
/// about the half turn.
pub open spec fn spec_sin(a: int) -> int {
    let w = a % (TURN as int);
    if w < HALF_TURN {
        spec_sin_half(w)
    } else {
        -spec_sin_half(w - HALF_TURN)
    }
}

/// Cosine of any angle: the sine shifted by a quarter turn.
pub open spec fn spec_cos(a: int) -> int {
    spec_sin(a + QUARTER_TURN)
}

/// The argument product `x * (HALF_TURN - x)` stays within `[0, QH]`
/// for `x` in `[0, HALF_TURN]`, where `QH` is its peak value.
proof fn lemma_sin_arg_product(x: int)
    by (nonlinear_arith)
    requires
        0 <= x <= HALF_TURN,
    ensures
        0 <= x * (HALF_TURN - x) <= 8_100_000_000,
{
    assert((x - QUARTER_TURN) * (x - QUARTER_TURN) >= 0);
}

/// The half-turn sine lies in `[0, ONE]`.
pub proof fn lemma_sin_half_bounds(x: int)
    requires
        0 <= x <= HALF_TURN,
    ensures
        0 <= spec_sin_half(x) <= ONE,
{
    lemma_sin_arg_product(x);
    let u = x * (HALF_TURN - x);
    let num = 4 * x * (HALF_TURN - x) * ONE;
    let den = SIN_K - u;
    assert(num == 4 * u * ONE && den >= SIN_K - 8_100_000_000) by (nonlinear_arith)
        requires
            num == 4 * x * (HALF_TURN - x) * ONE,
            den == SIN_K - u,
            u == x * (HALF_TURN - x),
            0 <= u <= 8_100_000_000;
    assert(num <= den * ONE) by (nonlinear_arith)
        requires num == 4 * u * ONE, den == SIN_K - u, 0 <= u <= 8_100_000_000;
    lemma_div_pos_is_pos(num, den);
    lemma_div_is_ordered(num, den * ONE, den);
    lemma_div_multiples_vanish(ONE as int, den);
    assert(den * ONE == den * (ONE as int));
}

/// The half-turn sine is weakly monotone on the first quarter turn.
pub proof fn lemma_sin_half_mono(x1: int, x2: int)
    requires
        0 <= x1 <= x2 <= QUARTER_TURN,
    ensures
        spec_sin_half(x1) <= spec_sin_half(x2),
{
    let u1 = x1 * (HALF_TURN - x1);
    let u2 = x2 * (HALF_TURN - x2);
    assert(0 <= u1 <= u2 <= 8_100_000_000) by (nonlinear_arith)
        requires
            u1 == x1 * (HALF_TURN - x1),
            u2 == x2 * (HALF_TURN - x2),
            0 <= x1 <= x2 <= QUARTER_TURN,
            HALF_TURN == 180_000,
            QUARTER_TURN == 90_000;
    let num1 = 4 * x1 * (HALF_TURN - x1) * ONE;
    let num2 = 4 * x2 * (HALF_TURN - x2) * ONE;
    assert(num1 == 4 * u1 * ONE && num2 == 4 * u2 * ONE && num1 <= num2 && num1 >= 0)
        by (nonlinear_arith)
        requires
            u1 == x1 * (HALF_TURN - x1),
            u2 == x2 * (HALF_TURN - x2),
            num1 == 4 * x1 * (HALF_TURN - x1) * ONE,
            num2 == 4 * x2 * (HALF_TURN - x2) * ONE,
            0 <= u1 <= u2;
    let den1 = SIN_K - u1;
    let den2 = SIN_K - u2;
    lemma_div_is_ordered(num1, num2, den1);
    lemma_div_is_ordered_by_denominator(num2, den2, den1);
}

/// Sine over the first half turn, exactly `spec_sin_half`.
pub fn sin_half_fp(x: i64) -> (r: i64)
    requires
        0 <= x <= HALF_TURN,
    ensures
        r == spec_sin_half(x as int),
        0 <= r <= ONE,
{
    proof {
        lemma_sin_arg_product(x as int);
        lemma_sin_half_bounds(x as int);
    }
    let u: i64 = x * (HALF_TURN - x);
    let num: u64 = (4 * u * ONE) as u64;
    let den: u64 = (SIN_K - u) as u64;
    proof {
        assert(4 * (u as int) * (ONE as int) == 4 * (x as int) * (HALF_TURN - x as int) * ONE)
            by (nonlinear_arith)
            requires u == x as int * (HALF_TURN - x as int);
    }
    (num / den) as i64
}

/// Sine of any angle, exactly `spec_sin`.
pub fn sin_fp(a: i64) -> (r: i64)
    requires
        a > i64::MIN,
    ensures
        r == spec_sin(a as int),
        -ONE <= r <= ONE,
{
    let w: i64 = rem_euclid_fp(a, TURN);
    if w < HALF_TURN {
        sin_half_fp(w)
    } else {
        -sin_half_fp(w - HALF_TURN)
    }
}

/// Cosine of any angle, exactly `spec_cos`.
pub fn cos_fp(a: i64) -> (r: i64)
    requires
        i64::MIN < a <= i64::MAX - QUARTER_TURN,
    ensures
        r == spec_cos(a as int),
        -ONE <= r <= ONE,
{
    sin_fp(a + QUARTER_TURN)
}

/// The half-turn sine is exactly `0` at `0` and exactly `ONE` at a
/// quarter turn.
pub proof fn lemma_sin_half_ends()
    ensures
        spec_sin_half(0) == 0,
        spec_sin_half(QUARTER_TURN as int) == ONE,
{
    assert(4 * 0 * (HALF_TURN - 0) * ONE == 0) by (nonlinear_arith);
    lemma_div_pos_is_pos(0, SIN_K - 0 * (HALF_TURN - 0));
    assert(0 * (HALF_TURN as int - 0) == 0) by (nonlinear_arith);
    lemma_div_is_ordered(0, 0, SIN_K as int);
    assert(spec_sin_half(0) == 0int / (SIN_K as int));
    assert(0int / (SIN_K as int) == 0) by {
        vstd::arithmetic::div_mod::lemma_div_of0(SIN_K as int);
    }
    let q = QUARTER_TURN as int;
    let u = q * (HALF_TURN - q);
    let num = 4 * q * (HALF_TURN - q) * ONE;
    let den = SIN_K - u;
    assert(u == 8_100_000_000 && num == 32_400_000_000_000_000 && den == 32_400_000_000
        && num == den * (ONE as int)) by (nonlinear_arith)
        requires
            q == 90_000,
            HALF_TURN == 180_000,
            ONE == 1_000_000,
            SIN_K == 40_500_000_000,
            u == q * (HALF_TURN - q),
            num == 4 * q * (HALF_TURN - q) * ONE,
            den == SIN_K - u;
    lemma_div_multiples_vanish(ONE as int, den);
    assert(den * (ONE as int) / den == ONE);
}

/// Largest angle `k <= m` in the first quarter turn whose half-turn sine
/// does not exceed `v`; `0` if there is none.
pub open spec fn arcsin_scan(v: int, m: nat) -> nat
    decreases m,
{
    if m == 0 {
        0
    } else if spec_sin_half(m as int) <= v {
        m
    } else {
        arcsin_scan(v, (m - 1) as nat)
    }
}

/// Arcsine of a fixed-point value, in angle units within
/// `[-QUARTER_TURN, QUARTER_TURN]`.
pub open spec fn spec_asin(v: int) -> int {
    if v >= 0 {
        arcsin_scan(v, QUARTER_TURN as nat) as int
    } else {
        -(arcsin_scan(-v, QUARTER_TURN as nat) as int)
    }
}

/// Arccosine of a fixed-point value, in angle units within
/// `[0, HALF_TURN]`.
pub open spec fn spec_acos(v: int) -> int {
    QUARTER_TURN - spec_asin(v)
}

/// What the downward scan returns: a value below the target (or `0`),
/// with everything above it exceeding the target.
proof fn lemma_arcsin_scan_char(v: int, m: nat)
    ensures
        arcsin_scan(v, m) <= m,
        arcsin_scan(v, m) > 0 ==> spec_sin_half(arcsin_scan(v, m) as int) <= v,
        forall|k: int| arcsin_scan(v, m) < k <= m ==> spec_sin_half(k) > v,
    decreases m,
{
    if m > 0 {
        if !(spec_sin_half(m as int) <= v) {
            lemma_arcsin_scan_char(v, (m - 1) as nat);
        }
    }
}

/// A bracketing pair of the half-turn sine around `v` pins the scan.
proof fn lemma_arcsin_unique(v: int, r: nat)
    requires
        r <= QUARTER_TURN,
        spec_sin_half(r as int) <= v,
        r == QUARTER_TURN || spec_sin_half(r as int + 1) > v,
    ensures
        r == arcsin_scan(v, QUARTER_TURN as nat),
{
    lemma_arcsin_scan_char(v, QUARTER_TURN as nat);
    let s = arcsin_scan(v, QUARTER_TURN as nat);
    if s < r {
        assert(spec_sin_half(r as int) > v);
    } else if s > r {
        assert(r < QUARTER_TURN);
        assert(spec_sin_half(s as int) <= v);
        lemma_sin_half_mono(r as int + 1, s as int);
    }
}

/// Arcsine restricted to non-negative values: the largest first-quarter
/// angle whose sine does not exceed `v`.
fn arcsin_q(v: i64) -> (r: i64)
    requires
        v >= 0,
    ensures
        r == arcsin_scan(v as int, QUARTER_TURN as nat),
        0 <= r <= QUARTER_TURN,
{
    proof {
        lemma_sin_half_ends();
    }
    let top: i64 = sin_half_fp(QUARTER_TURN);
    if top <= v {
        proof {
            lemma_arcsin_unique(v as int, QUARTER_TURN as nat);
        }
        return QUARTER_TURN;
    }
    let mut lo: i64 = 0;
    let mut hi: i64 = QUARTER_TURN;
    while lo + 1 < hi
        invariant
            0 <= lo < hi <= QUARTER_TURN,
            spec_sin_half(lo as int) <= v,
            spec_sin_half(hi as int) > v,
        decreases hi - lo,
    {
        let mid: i64 = lo + (hi - lo) / 2;
        let s: i64 = sin_half_fp(mid);
        if s <= v {
            lo = mid;
        } else {
            hi = mid;
        }
    }
    proof {
        lemma_arcsin_unique(v as int, lo as nat);
    }
    lo
}

/// Arcsine, exactly `spec_asin`.
pub fn asin_fp(v: i64) -> (r: i64)
    requires
        v > i64::MIN,
    ensures
        r == spec_asin(v as int),
        -QUARTER_TURN <= r <= QUARTER_TURN,
{
    if v >= 0 {
        arcsin_q(v)
    } else {
        -arcsin_q(-v)
    }
}

/// Arccosine, exactly `spec_acos`.
pub fn acos_fp(v: i64) -> (r: i64)
    requires
        v > i64::MIN,
    ensures
        r == spec_acos(v as int),
        0 <= r <= HALF_TURN,
{
    QUARTER_TURN - asin_fp(v)
}

/// The arcsine lies within a quarter turn either way, so the arccosine
/// lies within the first half turn.
pub proof fn lemma_asin_range(v: int)
    ensures
        -QUARTER_TURN <= spec_asin(v) <= QUARTER_TURN,
        0 <= spec_acos(v) <= HALF_TURN,
{
    lemma_arcsin_scan_char(v, QUARTER_TURN as nat);
    lemma_arcsin_scan_char(-v, QUARTER_TURN as nat);
}

/// The arcsine of anything at or above `ONE` is a full quarter turn,
/// so the arccosine there is exactly zero.
pub proof fn lemma_asin_saturated(v: int)
    requires
        v >= ONE,
    ensures
        spec_asin(v) == QUARTER_TURN,
        spec_acos(v) == 0,
{
    lemma_sin_half_ends();
    assert(arcsin_scan(v, QUARTER_TURN as nat) == QUARTER_TURN);
}

/// Cosine over the first quarter turn, as the mirrored half-turn sine.
pub open spec fn spec_cos_q(t: int) -> int {
    spec_sin_half(QUARTER_TURN - t)
}

/// Sign comparator for the arctangent: positive once the candidate angle
/// `t` passes the direction of the vector `(x, y)` in the first quadrant.
pub open spec fn atan_cmp(y: int, x: int, t: int) -> int {
    x * spec_sin_half(t) - y * spec_cos_q(t)
}

/// Largest angle `t <= m` in the first quarter turn whose comparator is
/// not positive; `0` if there is none.
pub open spec fn arctan_scan(y: int, x: int, m: nat) -> nat
    decreases m,
{
    if m == 0 {
        0
    } else if atan_cmp(y, x, m as int) <= 0 {
        m
    } else {
        arctan_scan(y, x, (m - 1) as nat)
    }
}

/// Two-argument arctangent of a vector `(x, y)`, in angle units within
/// `[-HALF_TURN, HALF_TURN]`, by quadrant reduction.
pub open spec fn spec_atan2(y: int, x: int) -> int {
    if x == 0 && y == 0 {
        0
    } else if x >= 0 && y >= 0 {
        arctan_scan(y, x, QUARTER_TURN as nat) as int
    } else if x < 0 && y >= 0 {
        HALF_TURN - arctan_scan(y, -x, QUARTER_TURN as nat)
    } else if x < 0 && y < 0 {
        -(HALF_TURN - arctan_scan(-y, -x, QUARTER_TURN as nat))
    } else {
        -(arctan_scan(-y, x, QUARTER_TURN as nat) as int)
    }
}

/// The comparator is weakly monotone in the candidate angle for a
/// first-quadrant vector.
proof fn lemma_atan_cmp_mono(y: int, x: int, t1: int, t2: int)
    requires
        x >= 0,
        y >= 0,
        0 <= t1 <= t2 <= QUARTER_TURN,
    ensures
        atan_cmp(y, x, t1) <= atan_cmp(y, x, t2),
{
    lemma_sin_half_mono(t1, t2);
    lemma_sin_half_mono(QUARTER_TURN - t2, QUARTER_TURN - t1);
    let s1 = spec_sin_half(t1);
    let s2 = spec_sin_half(t2);
    let c1 = spec_cos_q(t1);
    let c2 = spec_cos_q(t2);
    assert(x * s1 - y * c1 <= x * s2 - y * c2) by (nonlinear_arith)
        requires x >= 0, y >= 0, s1 <= s2, c2 <= c1;
}

/// What the arctangent scan returns: a non-positive comparator (or `0`),
/// with everything above it strictly positive.
proof fn lemma_arctan_scan_char(y: int, x: int, m: nat)
    ensures
        arctan_scan(y, x, m) <= m,
        arctan_scan(y, x, m) > 0 ==> atan_cmp(y, x, arctan_scan(y, x, m) as int) <= 0,
        forall|k: int| arctan_scan(y, x, m) < k <= m ==> atan_cmp(y, x, k) > 0,
    decreases m,
{
    if m > 0 {
        if !(atan_cmp(y, x, m as int) <= 0) {
            lemma_arctan_scan_char(y, x, (m - 1) as nat);
        }
    }
}

/// A bracketing pair of the comparator pins the arctangent scan.
proof fn lemma_arctan_unique(y: int, x: int, r: nat)
    requires
        x >= 0,
        y >= 0,
        r <= QUARTER_TURN,
        atan_cmp(y, x, r as int) <= 0,
        r == QUARTER_TURN || atan_cmp(y, x, r as int + 1) > 0,
    ensures
        r == arctan_scan(y, x, QUARTER_TURN as nat),
{
    lemma_arctan_scan_char(y, x, QUARTER_TURN as nat);
    let s = arctan_scan(y, x, QUARTER_TURN as nat);
    if s < r {
        assert(atan_cmp(y, x, r as int) > 0);
    } else if s > r {
        assert(atan_cmp(y, x, s as int) <= 0);
        lemma_atan_cmp_mono(y, x, r as int + 1, s as int);
    }
}

/// Bound on inputs to the arctangent, generous enough for all scaled
/// rotation components.
pub const ATAN_IN_MAX: i64 = 1_000_000_000_000;

/// Comparator, executable: `x * sin(t) - y * cos(t)`.
fn atan_cmp_fp(y: i64, x: i64, t: i64) -> (r: i64)
    requires
        0 <= y <= ATAN_IN_MAX,
        0 <= x <= ATAN_IN_MAX,
        0 <= t <= QUARTER_TURN,
    ensures
        r == atan_cmp(y as int, x as int, t as int),
{
    let s: i64 = sin_half_fp(t);
    let c: i64 = sin_half_fp(QUARTER_TURN - t);
    proof {
        crate::fixed::lemma_mul_fits(x as int, s as int, ATAN_IN_MAX as int, ONE as int);
        crate::fixed::lemma_mul_fits(y as int, c as int, ATAN_IN_MAX as int, ONE as int);
    }
    x * s - y * c
}

/// Arctangent of a first-quadrant vector: the largest first-quarter
/// angle not past the vector's direction.
fn arctan_q(y: i64, x: i64) -> (r: i64)
    requires
        0 <= y <= ATAN_IN_MAX,
        0 <= x <= ATAN_IN_MAX,
    ensures
        r == arctan_scan(y as int, x as int, QUARTER_TURN as nat),
        0 <= r <= QUARTER_TURN,
{
    let top: i64 = atan_cmp_fp(y, x, QUARTER_TURN);
    if top <= 0 {
        proof {
            lemma_arctan_unique(y as int, x as int, QUARTER_TURN as nat);
        }
        return QUARTER_TURN;
    }
    let bot: i64 = atan_cmp_fp(y, x, 0);
    proof {
        lemma_sin_half_ends();
    }
    assert(bot <= 0);
    let mut lo: i64 = 0;
    let mut hi: i64 = QUARTER_TURN;
    while lo + 1 < hi
        invariant
            0 <= lo < hi <= QUARTER_TURN,
            0 <= y <= ATAN_IN_MAX,
            0 <= x <= ATAN_IN_MAX,
            atan_cmp(y as int, x as int, lo as int) <= 0,
            atan_cmp(y as int, x as int, hi as int) > 0,
        decreases hi - lo,
    {
        let mid: i64 = lo + (hi - lo) / 2;
        let s: i64 = atan_cmp_fp(y, x, mid);
        if s <= 0 {
            lo = mid;
        } else {
            hi = mid;
        }
    }
    proof {
        lemma_arctan_unique(y as int, x as int, lo as nat);
    }
    lo
}

/// Two-argument arctangent, exactly `spec_atan2`.
pub fn atan2_fp(y: i64, x: i64) -> (r: i64)
    requires
        -ATAN_IN_MAX <= y <= ATAN_IN_MAX,
        -ATAN_IN_MAX <= x <= ATAN_IN_MAX,
    ensures
        r == spec_atan2(y as int, x as int),
        -HALF_TURN <= r <= HALF_TURN,
{
    if x == 0 && y == 0 {
        0
    } else if x >= 0 && y >= 0 {
        arctan_q(y, x)
    } else if x < 0 && y >= 0 {
        HALF_TURN - arctan_q(y, -x)
    } else if x < 0 && y < 0 {
        -(HALF_TURN - arctan_q(-y, -x))
    } else {
        -arctan_q(-y, x)
    }
}

} // verus!
