//! Interpolation between two quaternions under a selected law.
//!
//! The linear law blends components with weights `(1 - t, t)`.  The
//! spherical law weighs by `sin((1 - t) theta) / sin theta` and
//! `sin(t theta) / sin theta`, falling back to the linear weights when
//! `sin theta` vanishes (coinciding or numerically antipodal
//! endpoints).  Either way the blend is renormalized to unit length.

use vstd::prelude::*;
use vstd::arithmetic::div_mod::lemma_div_is_ordered;
use vstd::arithmetic::div_mod::lemma_div_pos_is_pos;
use vstd::arithmetic::div_mod::lemma_div_nonincreasing;
use crate::fixed::ONE;
use crate::fixed::TURN;
use crate::fixed::HALF_TURN;
use crate::fixed::spec_mul_fp;
use crate::fixed::spec_div_fp;
use crate::animation_data::QuaternionInterpolationType;
use crate::quaternion::Quat;
use crate::quaternion::QuatModel;
use crate::quaternion::quat_within;
use crate::quaternion::spec_normalize;
use crate::quaternion::spec_dot;
use crate::quaternion::RAW_COMP_MAX;
use crate::trig::spec_sin;
use crate::trig::spec_acos;
use crate::trig::lemma_sin_half_bounds;
use crate::angles::CAND_COMP_MAX;

verus! {

/// Magnitude bound on interpolation weights.
pub const WEIGHT_MAX: i64 = 1_000_000_000_000;

/// A fixed-point value clamped into `[-ONE, ONE]`.
pub open spec fn spec_clamp_one(v: int) -> int {
    if v < -(ONE as int) {
        -(ONE as int)
    } else if v > ONE {
        ONE as int
    } else {
        v
    }
}

/// Weighted component blend of two quaternions:
/// `(s1 * a + s2 * b) / ONE` per component.
pub open spec fn spec_combine(s1: int, s2: int, a: QuatModel, b: QuatModel) -> QuatModel {
    QuatModel {
        w: (s1 * a.w + s2 * b.w) / (ONE as int),
        x: (s1 * a.x + s2 * b.x) / (ONE as int),
        y: (s1 * a.y + s2 * b.y) / (ONE as int),
        z: (s1 * a.z + s2 * b.z) / (ONE as int),
    }
}

/// The blended quaternion before renormalization, under either law.
pub open spec fn spec_interp_raw(
    b: QuatModel,
    e: QuatModel,
    t: int,
    ty: QuaternionInterpolationType,
) -> QuatModel {
    match ty {
        QuaternionInterpolationType::Linear => spec_combine(ONE - t, t, b, e),
        QuaternionInterpolationType::Spherical => {
            let c = spec_clamp_one(spec_dot(b, e));
            let theta = spec_acos(c);
            let st = spec_sin(theta);
            if st == 0 {
                spec_combine(ONE - t, t, b, e)
            } else {
                spec_combine(
                    spec_div_fp(spec_sin(spec_mul_fp((ONE - t) as int, theta)), st),
                    spec_div_fp(spec_sin(spec_mul_fp(t, theta)), st),
                    b,
                    e,
                )
            }
        },
    }
}

/// The interpolated unit quaternion at fraction `t` under law `ty`.
pub open spec fn spec_interpolate(
    b: QuatModel,
    e: QuatModel,
    t: int,
    ty: QuaternionInterpolationType,
) -> QuatModel {
    spec_normalize(spec_interp_raw(b, e, t, ty))
}

/// Weighted component blend, exactly `spec_combine`.
fn combine_fp(s1: i64, s2: i64, a: Quat, b: Quat) -> (r: Quat)
    requires
        -WEIGHT_MAX <= s1 <= WEIGHT_MAX,
        -WEIGHT_MAX <= s2 <= WEIGHT_MAX,
        quat_within(a@, CAND_COMP_MAX as int),
        quat_within(b@, CAND_COMP_MAX as int),
    ensures
        r@ == spec_combine(s1 as int, s2 as int, a@, b@),
        quat_within(r@, RAW_COMP_MAX as int),
{
    proof {
        crate::fixed::lemma_mul_fits(s1 as int, a@.w, WEIGHT_MAX as int, CAND_COMP_MAX as int);
        crate::fixed::lemma_mul_fits(s1 as int, a@.x, WEIGHT_MAX as int, CAND_COMP_MAX as int);
        crate::fixed::lemma_mul_fits(s1 as int, a@.y, WEIGHT_MAX as int, CAND_COMP_MAX as int);
        crate::fixed::lemma_mul_fits(s1 as int, a@.z, WEIGHT_MAX as int, CAND_COMP_MAX as int);
        crate::fixed::lemma_mul_fits(s2 as int, b@.w, WEIGHT_MAX as int, CAND_COMP_MAX as int);
        crate::fixed::lemma_mul_fits(s2 as int, b@.x, WEIGHT_MAX as int, CAND_COMP_MAX as int);
        crate::fixed::lemma_mul_fits(s2 as int, b@.y, WEIGHT_MAX as int, CAND_COMP_MAX as int);
        crate::fixed::lemma_mul_fits(s2 as int, b@.z, WEIGHT_MAX as int, CAND_COMP_MAX as int);
        crate::quaternion::lemma_div_one_bound(s1 * a@.w + s2 * b@.w, 2 * WEIGHT_MAX as int * (CAND_COMP_MAX as int));
        crate::quaternion::lemma_div_one_bound(s1 * a@.x + s2 * b@.x, 2 * WEIGHT_MAX as int * (CAND_COMP_MAX as int));
        crate::quaternion::lemma_div_one_bound(s1 * a@.y + s2 * b@.y, 2 * WEIGHT_MAX as int * (CAND_COMP_MAX as int));
        crate::quaternion::lemma_div_one_bound(s1 * a@.z + s2 * b@.z, 2 * WEIGHT_MAX as int * (CAND_COMP_MAX as int));
        assert(2 * WEIGHT_MAX as int * (CAND_COMP_MAX as int) / (ONE as int) + 1
            <= RAW_COMP_MAX) by (nonlinear_arith)
            requires
                WEIGHT_MAX == 1_000_000_000_000,
                CAND_COMP_MAX == 64_000_021,
                ONE == 1_000_000,
                RAW_COMP_MAX == 1_000_000_000_000_000;
    }
    let s1l = s1 as i128;
    let s2l = s2 as i128;
    Quat {
        w: crate::fixed::div_one_i128(s1l * (a.w as i128) + s2l * (b.w as i128)),
        x: crate::fixed::div_one_i128(s1l * (a.x as i128) + s2l * (b.x as i128)),
        y: crate::fixed::div_one_i128(s1l * (a.y as i128) + s2l * (b.y as i128)),
        z: crate::fixed::div_one_i128(s1l * (a.z as i128) + s2l * (b.z as i128)),
    }
}

/// The sine of an angle within the first half turn is non-negative.
pub proof fn lemma_sin_first_half_nonneg(a: int)
    requires
        0 <= a <= HALF_TURN,
    ensures
        0 <= spec_sin(a) <= ONE,
{
    assert(a % (TURN as int) == a);
    if a < HALF_TURN {
        lemma_sin_half_bounds(a);
    } else {
        lemma_sin_half_bounds(0);
        crate::trig::lemma_sin_half_ends();
    }
}

/// One spherical weight: `sin(x) / sin(theta)`, scaled.
fn spherical_weight(x: i64, st: i64) -> (r: i64)
    requires
        0 <= x <= HALF_TURN,
        0 < st <= ONE,
    ensures
        r == spec_div_fp(spec_sin(x as int), st as int),
        0 <= r <= WEIGHT_MAX,
{
    let sv: i64 = crate::trig::sin_fp(x);
    proof {
        lemma_sin_first_half_nonneg(x as int);
        lemma_div_pos_is_pos(sv * (ONE as int), st as int);
        lemma_div_nonincreasing(sv * (ONE as int), st as int);
        assert(sv * (ONE as int) <= WEIGHT_MAX) by (nonlinear_arith)
            requires 0 <= sv <= ONE, ONE == 1_000_000, WEIGHT_MAX == 1_000_000_000_000;
        assert(-0x4000_0000_0000_0000 * (st as int) <= sv * (ONE as int)
            <= 0x4000_0000_0000_0000 * (st as int)) by (nonlinear_arith)
            requires 0 <= sv <= ONE, ONE == 1_000_000, st >= 1;
    }
    crate::fixed::div_fp(sv, st)
}

/// Interpolate two resolved quaternions at fraction `t` under the
/// selected law, exactly `spec_interpolate`; the result is normalized.
pub fn get_quaternions_interpolation(
    begin: &Quat,
    end: &Quat,
    t: i64,
    interpolation_type: &QuaternionInterpolationType,
) -> (r: Quat)
    requires
        quat_within(begin@, CAND_COMP_MAX as int),
        quat_within(end@, CAND_COMP_MAX as int),
        0 <= t <= ONE,
    ensures
        r@ == spec_interpolate(begin@, end@, t as int, *interpolation_type),
        quat_within(r@, ONE as int),
{
    let raw: Quat = match interpolation_type {
        QuaternionInterpolationType::Linear => combine_fp(ONE - t, t, *begin, *end),
        QuaternionInterpolationType::Spherical => {
            let d: i64 = begin.dot(*end);
            let c: i64 = if d < -ONE {
                -ONE
            } else if d > ONE {
                ONE
            } else {
                d
            };
            let theta: i64 = crate::trig::acos_fp(c);
            let st: i64 = crate::trig::sin_fp(theta);
            proof {
                lemma_sin_first_half_nonneg(theta as int);
            }
            if st == 0 {
                combine_fp(ONE - t, t, *begin, *end)
            } else {
                proof {
                    crate::fixed::lemma_mul_fits(ONE - t, theta as int, ONE as int, HALF_TURN as int);
                    crate::fixed::lemma_mul_fits(t as int, theta as int, ONE as int, HALF_TURN as int);
                }
                let x1: i64 = crate::fixed::mul_fp(ONE - t, theta);
                let x2: i64 = crate::fixed::mul_fp(t, theta);
                proof {
                    lemma_mul_fp_fraction_range(ONE - t, theta as int);
                    lemma_mul_fp_fraction_range(t as int, theta as int);
                }
                let s1: i64 = spherical_weight(x1, st);
                let s2: i64 = spherical_weight(x2, st);
                combine_fp(s1, s2, *begin, *end)
            }
        },
    };
    raw.normalize()
}

/// The blend is exact at full weights: `(ONE, 0)` returns the first
/// quaternion unchanged and `(0, ONE)` the second.
pub proof fn lemma_combine_ends(a: QuatModel, b: QuatModel)
    ensures
        spec_combine(ONE as int, 0, a, b) == a,
        spec_combine(0, ONE as int, a, b) == b,
{
    let o = ONE as int;
    assert(0 * a.w == 0 && 0 * a.x == 0 && 0 * a.y == 0 && 0 * a.z == 0 && 0 * b.w == 0 && 0
        * b.x == 0 && 0 * b.y == 0 && 0 * b.z == 0) by (nonlinear_arith);
    vstd::arithmetic::div_mod::lemma_div_multiples_vanish(a.w, o);
    vstd::arithmetic::div_mod::lemma_div_multiples_vanish(a.x, o);
    vstd::arithmetic::div_mod::lemma_div_multiples_vanish(a.y, o);
    vstd::arithmetic::div_mod::lemma_div_multiples_vanish(a.z, o);
    vstd::arithmetic::div_mod::lemma_div_multiples_vanish(b.w, o);
    vstd::arithmetic::div_mod::lemma_div_multiples_vanish(b.x, o);
    vstd::arithmetic::div_mod::lemma_div_multiples_vanish(b.y, o);
    vstd::arithmetic::div_mod::lemma_div_multiples_vanish(b.z, o);
}

/// Both interpolation laws agree exactly at the ends: at fraction `0`
/// the result is the normalized begin quaternion, at fraction `ONE`
/// the normalized end quaternion, whichever law is selected.
pub proof fn lemma_interp_endpoints(b: QuatModel, e: QuatModel, ty: QuaternionInterpolationType)
    ensures
        spec_interpolate(b, e, 0, ty) == crate::quaternion::spec_normalize(b),
        spec_interpolate(b, e, ONE as int, ty) == crate::quaternion::spec_normalize(e),
{
    let o = ONE as int;
    lemma_combine_ends(b, e);
    match ty {
        QuaternionInterpolationType::Linear => {
        },
        QuaternionInterpolationType::Spherical => {
            let c = spec_clamp_one(spec_dot(b, e));
            let theta = spec_acos(c);
            let st = spec_sin(theta);
            crate::trig::lemma_asin_range(c);
            lemma_sin_first_half_nonneg(theta);
            if st != 0 {
                assert(0 * theta == 0) by (nonlinear_arith);
                vstd::arithmetic::div_mod::lemma_div_of0(o);
                vstd::arithmetic::div_mod::lemma_div_of0(st);
                assert(0int % (TURN as int) == 0);
                crate::trig::lemma_sin_half_ends();
                assert(crate::trig::spec_sin(0) == 0);
                assert(spec_mul_fp(0, theta) == 0);
                vstd::arithmetic::div_mod::lemma_div_multiples_vanish(theta, o);
                assert(spec_mul_fp(o, theta) == theta);
                vstd::arithmetic::div_mod::lemma_div_multiples_vanish(o, st);
                assert(spec_div_fp(st, st) == (st * o) / st);
                assert(st * o == st * (ONE as int));
                assert(spec_div_fp(spec_sin(theta), st) == ONE);
                assert(0 * o == 0) by (nonlinear_arith);
                assert(spec_div_fp(0, st) == 0);
            }
        },
    }
}

/// Interpolating the identity with itself yields the identity at every
/// fraction, under either law: a degenerate pair never produces a
/// degenerate rotation.
pub proof fn lemma_interp_identity(t: int, ty: QuaternionInterpolationType)
    requires
        0 <= t <= ONE,
    ensures
        spec_interpolate(
            crate::quaternion::spec_identity(),
            crate::quaternion::spec_identity(),
            t,
            ty,
        ) == crate::quaternion::spec_identity(),
{
    let id = crate::quaternion::spec_identity();
    let o = ONE as int;
    crate::quaternion::lemma_identity_ops();
    assert((o - t) * o + t * o == o * o && (o - t) * 0 + t * 0 == 0) by (nonlinear_arith);
    vstd::arithmetic::div_mod::lemma_div_multiples_vanish(o, o);
    vstd::arithmetic::div_mod::lemma_div_of0(o);
    assert(spec_combine(o - t, t, id, id) == id);
    match ty {
        QuaternionInterpolationType::Linear => {
        },
        QuaternionInterpolationType::Spherical => {
            assert(spec_clamp_one(spec_dot(id, id)) == o);
            crate::trig::lemma_asin_saturated(o);
            assert(spec_acos(o) == 0);
            assert(0int % (TURN as int) == 0);
            crate::trig::lemma_sin_half_ends();
            assert(spec_sin(0) == 0);
        },
    }
}

/// A fraction of an angle within the first half turn stays within the
/// first half turn.
proof fn lemma_mul_fp_fraction_range(t: int, theta: int)
    requires
        0 <= t <= ONE,
        0 <= theta <= HALF_TURN,
    ensures
        0 <= spec_mul_fp(t, theta) <= theta,
{
    assert(0 <= t * theta <= ONE * (theta as int)) by (nonlinear_arith)
        requires 0 <= t <= ONE, 0 <= theta;
    lemma_div_pos_is_pos(t * theta, ONE as int);
    lemma_div_is_ordered(t * theta, ONE * (theta as int), ONE as int);
    vstd::arithmetic::div_mod::lemma_div_multiples_vanish(theta, ONE as int);
    assert(ONE * (theta as int) == (ONE as int) * theta);
}

} // verus!