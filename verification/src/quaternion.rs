//! Quaternions and three-component vectors in fixed-point arithmetic.
//!
//! A quaternion stores components in order w, x, y, z at scale `ONE`.
//! The mathematical model of a value is its view: the same components as
//! unbounded integers, over which every contract is stated.

use vstd::prelude::*;
use vstd::arithmetic::div_mod::lemma_div_is_ordered;
use vstd::arithmetic::div_mod::lemma_div_multiples_vanish;
use crate::fixed::ONE;
use crate::fixed::QUARTER_TURN;
use crate::fixed::sqrt_floor;
use crate::fixed::lemma_sqrt_floor_bounds;
use crate::fixed::isqrt;
use crate::trig::spec_asin;
use crate::trig::spec_atan2;
use crate::trig::asin_fp;
use crate::trig::atan2_fp;

verus! {

/// Magnitude bound accepted for raw quaternion components:
/// 1 000 000 000 in scalar value.
pub const RAW_COMP_MAX: i64 = 1_000_000_000_000_000;

/// Squared-norm threshold below which a quaternion counts as
/// numerically null: `1e-6` at the squared scale `ONE * ONE`.
pub const NEAR_ZERO_NORM_SQ: i64 = 1_000_000;

/// Mathematical model of a quaternion: unbounded integer components.
pub ghost struct QuatModel {
    pub w: int,
    pub x: int,
    pub y: int,
    pub z: int,
}

/// Mathematical model of a vector: unbounded integer components.
pub ghost struct VecModel {
    pub x: int,
    pub y: int,
    pub z: int,
}

/// A quaternion with components at scale `ONE`, in order w, x, y, z.
#[derive(Clone, Copy, Debug, PartialEq, Eq, Structural)]
pub struct Quat {
    pub w: i64,
    pub x: i64,
    pub y: i64,
    pub z: i64,
}

/// A three-component vector: a position or a direction at scale `ONE`,
/// or an Euler-angle triple in angle units.
#[derive(Clone, Copy, Debug, PartialEq, Eq, Structural)]
pub struct Vec3 {
    pub x: i64,
    pub y: i64,
    pub z: i64,
}

impl View for Quat {
    type V = QuatModel;

    open spec fn view(&self) -> QuatModel {
        QuatModel { w: self.w as int, x: self.x as int, y: self.y as int, z: self.z as int }
    }
}

impl View for Vec3 {
    type V = VecModel;

    open spec fn view(&self) -> VecModel {
        VecModel { x: self.x as int, y: self.y as int, z: self.z as int }
    }
}

/// The identity rotation.
pub open spec fn spec_identity() -> QuatModel {
    QuatModel { w: ONE as int, x: 0, y: 0, z: 0 }
}

/// All components within `b` in magnitude.
pub open spec fn quat_within(q: QuatModel, b: int) -> bool {
    &&& -b <= q.w <= b
    &&& -b <= q.x <= b
    &&& -b <= q.y <= b
    &&& -b <= q.z <= b
}

/// All components within `b` in magnitude.
pub open spec fn vec_within(v: VecModel, b: int) -> bool {
    &&& -b <= v.x <= b
    &&& -b <= v.y <= b
    &&& -b <= v.z <= b
}

/// Unscaled dot product of two quaternions, at scale `ONE * ONE`.
pub open spec fn spec_dot_raw(a: QuatModel, b: QuatModel) -> int {
    a.w * b.w + a.x * b.x + a.y * b.y + a.z * b.z
}

/// Squared norm of a quaternion, at scale `ONE * ONE`.
pub open spec fn spec_norm_sq(q: QuatModel) -> int {
    spec_dot_raw(q, q)
}

/// A squared norm is never negative.
pub proof fn lemma_norm_sq_nonneg(q: QuatModel)
    by (nonlinear_arith)
    ensures
        spec_norm_sq(q) >= 0,
        q.w * q.w <= spec_norm_sq(q),
        q.x * q.x <= spec_norm_sq(q),
        q.y * q.y <= spec_norm_sq(q),
        q.z * q.z <= spec_norm_sq(q),
{
}

/// Norm of a quaternion, at scale `ONE`.
pub open spec fn spec_norm(q: QuatModel) -> int {
    sqrt_floor(spec_norm_sq(q) as nat) as int
}

/// Normalization to unit length, with the near-zero guard: a quaternion
/// whose squared norm lies below the threshold becomes the identity.
pub open spec fn spec_normalize(q: QuatModel) -> QuatModel {
    if spec_norm_sq(q) < NEAR_ZERO_NORM_SQ {
        spec_identity()
    } else {
        let n = spec_norm(q);
        QuatModel {
            w: q.w * ONE / n,
            x: q.x * ONE / n,
            y: q.y * ONE / n,
            z: q.z * ONE / n,
        }
    }
}

/// A normalized quaternion has components within `ONE`.
pub proof fn lemma_normalize_within(q: QuatModel)
    ensures
        quat_within(spec_normalize(q), ONE as int),
{
    if spec_norm_sq(q) < NEAR_ZERO_NORM_SQ {
    } else {
        let n2 = spec_norm_sq(q);
        lemma_norm_sq_nonneg(q);
        lemma_sqrt_floor_bounds(n2 as nat);
        let n = spec_norm(q);
        assert(n * n <= n2 < (n + 1) * (n + 1));
        assert(n >= 1000) by (nonlinear_arith)
            requires n2 < (n + 1) * (n + 1), n2 >= NEAR_ZERO_NORM_SQ, n >= 0,
                NEAR_ZERO_NORM_SQ == 1_000_000;
        lemma_div_comp_within(q.w, n, n2, q.w * q.w);
        lemma_div_comp_within(q.x, n, n2, q.x * q.x);
        lemma_div_comp_within(q.y, n, n2, q.y * q.y);
        lemma_div_comp_within(q.z, n, n2, q.z * q.z);
    }
}

/// A component whose square is below the squared norm divides by the
/// norm to something within `ONE`.
proof fn lemma_div_comp_within(c: int, n: int, n2: int, csq: int)
    requires
        n >= 1,
        csq == c * c,
        csq <= n2,
        n * n <= n2 < (n + 1) * (n + 1),
    ensures
        -ONE <= c * ONE / n <= ONE,
{
    assert(-n <= c <= n) by (nonlinear_arith)
        requires c * c <= n2 < (n + 1) * (n + 1), n >= 1;
    assert(c * ONE <= n * ONE && -(n * ONE) <= c * ONE) by (nonlinear_arith)
        requires -n <= c <= n, ONE == 1_000_000;
    lemma_div_is_ordered(c * ONE, n * ONE, n);
    lemma_div_is_ordered(-(n * ONE), c * ONE, n);
    lemma_div_multiples_vanish(ONE as int, n);
    lemma_div_multiples_vanish(-(ONE as int), n);
    assert(n * ONE == n * (ONE as int));
    assert(-(n * ONE) == n * (-(ONE as int))) by (nonlinear_arith);
}

impl Quat {
    /// The identity rotation.
    pub fn identity() -> (r: Quat)
        ensures
            r@ == spec_identity(),
    {
        Quat { w: ONE, x: 0, y: 0, z: 0 }
    }

    /// Normalize to unit length, replacing a numerically null quaternion
    /// by the identity.
    pub fn normalize(self) -> (r: Quat)
        requires
            quat_within(self@, RAW_COMP_MAX as int),
        ensures
            r@ == spec_normalize(self@),
            quat_within(r@, ONE as int),
    {
        proof {
            lemma_norm_sq_nonneg(self@);
            lemma_normalize_within(self@);
            crate::fixed::lemma_mul_fits(self.w as int, self.w as int, RAW_COMP_MAX as int, RAW_COMP_MAX as int);
            crate::fixed::lemma_mul_fits(self.x as int, self.x as int, RAW_COMP_MAX as int, RAW_COMP_MAX as int);
            crate::fixed::lemma_mul_fits(self.y as int, self.y as int, RAW_COMP_MAX as int, RAW_COMP_MAX as int);
            crate::fixed::lemma_mul_fits(self.z as int, self.z as int, RAW_COMP_MAX as int, RAW_COMP_MAX as int);
        }
        let n2: i128 = (self.w as i128) * (self.w as i128) + (self.x as i128) * (self.x as i128)
            + (self.y as i128) * (self.y as i128) + (self.z as i128) * (self.z as i128);
        if n2 < NEAR_ZERO_NORM_SQ as i128 {
            Quat::identity()
        } else {
            let n: u64 = isqrt(n2 as u128);
            proof {
                assert(n2 == spec_norm_sq(self@));
                assert(n >= 1000) by (nonlinear_arith)
                    requires n2 < (n + 1) * (n + 1), n2 >= NEAR_ZERO_NORM_SQ, n >= 0,
                        NEAR_ZERO_NORM_SQ == 1_000_000;
                assert(n <= 2_000_000_000_000_000) by (nonlinear_arith)
                    requires n * n <= n2, n2 <= 4 * (RAW_COMP_MAX as int) * (RAW_COMP_MAX as int),
                        n >= 0, RAW_COMP_MAX == 1_000_000_000_000_000;
            }
            let nd: i64 = n as i64;
            Quat {
                w: Self::norm_div(self.w, nd, Ghost(self@)),
                x: Self::norm_div(self.x, nd, Ghost(self@)),
                y: Self::norm_div(self.y, nd, Ghost(self@)),
                z: Self::norm_div(self.z, nd, Ghost(self@)),
            }
        }
    }

    /// One component of the normalization quotient.
    fn norm_div(c: i64, n: i64, q: Ghost<QuatModel>) -> (r: i64)
        requires
            n >= 1000,
            c * c <= spec_norm_sq(q@),
            spec_norm(q@) == n,
            spec_norm_sq(q@) >= NEAR_ZERO_NORM_SQ,
        ensures
            r == c * ONE / (n as int),
            -ONE <= r <= ONE,
    {
        proof {
            lemma_norm_sq_nonneg(q@);
            lemma_sqrt_floor_bounds(spec_norm_sq(q@) as nat);
            lemma_div_comp_within(c as int, n as int, spec_norm_sq(q@), (c as int) * (c as int));
            assert(-n <= c <= n) by (nonlinear_arith)
                requires
                    c * c <= spec_norm_sq(q@),
                    spec_norm_sq(q@) < (n + 1) * (n + 1),
                    n >= 1;
        }
        crate::fixed::div_fp(c, n)
    }
}

/// Magnitude bound accepted for components entering a Hamilton product.
pub const QMUL_IN_MAX: i64 = 100_000_000;

/// Hamilton product of two quaternions, components rescaled to `ONE`.
pub open spec fn spec_q_mul(a: QuatModel, b: QuatModel) -> QuatModel {
    QuatModel {
        w: (a.w * b.w - a.x * b.x - a.y * b.y - a.z * b.z) / (ONE as int),
        x: (a.w * b.x + a.x * b.w + a.y * b.z - a.z * b.y) / (ONE as int),
        y: (a.w * b.y - a.x * b.z + a.y * b.w + a.z * b.x) / (ONE as int),
        z: (a.w * b.z + a.x * b.y - a.y * b.x + a.z * b.w) / (ONE as int),
    }
}

/// Scaled dot product of two quaternions, at scale `ONE`.
pub open spec fn spec_dot(a: QuatModel, b: QuatModel) -> int {
    spec_dot_raw(a, b) / (ONE as int)
}

/// A quotient by `ONE` of a bounded value is bounded.
pub proof fn lemma_div_one_bound(p: int, m: int)
    by (nonlinear_arith)
    requires
        -m <= p <= m,
        m >= 0,
    ensures
        -(m / (ONE as int)) - 1 <= p / (ONE as int) <= m / (ONE as int),
{
}

/// Components of a Hamilton product of bounded quaternions are bounded
/// by the rescaled product of the bounds.
pub proof fn lemma_q_mul_within(a: QuatModel, b: QuatModel, ba: int, bb: int)
    requires
        quat_within(a, ba),
        quat_within(b, bb),
        ba >= 0,
        bb >= 0,
    ensures
        quat_within(spec_q_mul(a, b), 4 * ba * bb / (ONE as int) + 1),
{
    let m = 4 * ba * bb;
    let bp = ba * bb;
    crate::fixed::lemma_mul_fits(a.w, b.w, ba, bb);
    crate::fixed::lemma_mul_fits(a.w, b.x, ba, bb);
    crate::fixed::lemma_mul_fits(a.w, b.y, ba, bb);
    crate::fixed::lemma_mul_fits(a.w, b.z, ba, bb);
    crate::fixed::lemma_mul_fits(a.x, b.w, ba, bb);
    crate::fixed::lemma_mul_fits(a.x, b.x, ba, bb);
    crate::fixed::lemma_mul_fits(a.x, b.y, ba, bb);
    crate::fixed::lemma_mul_fits(a.x, b.z, ba, bb);
    crate::fixed::lemma_mul_fits(a.y, b.w, ba, bb);
    crate::fixed::lemma_mul_fits(a.y, b.x, ba, bb);
    crate::fixed::lemma_mul_fits(a.y, b.y, ba, bb);
    crate::fixed::lemma_mul_fits(a.y, b.z, ba, bb);
    crate::fixed::lemma_mul_fits(a.z, b.w, ba, bb);
    crate::fixed::lemma_mul_fits(a.z, b.x, ba, bb);
    crate::fixed::lemma_mul_fits(a.z, b.y, ba, bb);
    crate::fixed::lemma_mul_fits(a.z, b.z, ba, bb);
    assert(m == 4 * bp && m >= 0) by (nonlinear_arith)
        requires m == 4 * ba * bb, bp == ba * bb, ba >= 0, bb >= 0;
    lemma_div_one_bound(a.w * b.w - a.x * b.x - a.y * b.y - a.z * b.z, m);
    lemma_div_one_bound(a.w * b.x + a.x * b.w + a.y * b.z - a.z * b.y, m);
    lemma_div_one_bound(a.w * b.y - a.x * b.z + a.y * b.w + a.z * b.x, m);
    lemma_div_one_bound(a.w * b.z + a.x * b.y - a.y * b.x + a.z * b.w, m);
}

impl Quat {
    /// Hamilton product, exactly `spec_q_mul`.
    pub fn multiply(self, o: Quat) -> (r: Quat)
        requires
            quat_within(self@, QMUL_IN_MAX as int),
            quat_within(o@, QMUL_IN_MAX as int),
        ensures
            r@ == spec_q_mul(self@, o@),
    {
        proof {
            let m = 4 * (QMUL_IN_MAX as int) * (QMUL_IN_MAX as int);
            assert(forall|p: int, q: int|
                -(QMUL_IN_MAX as int) <= p <= QMUL_IN_MAX && -(QMUL_IN_MAX as int) <= q
                    <= QMUL_IN_MAX ==> -(m / 4) <= #[trigger] (p * q) <= m / 4) by {
                assert forall|p: int, q: int|
                    -(QMUL_IN_MAX as int) <= p <= QMUL_IN_MAX && -(QMUL_IN_MAX as int) <= q
                        <= QMUL_IN_MAX implies -(m / 4) <= #[trigger] (p * q) <= m / 4 by {
                    crate::fixed::lemma_mul_fits(p, q, QMUL_IN_MAX as int, QMUL_IN_MAX as int);
                }
            }
        }
        let aw = self.w as i128;
        let ax = self.x as i128;
        let ay = self.y as i128;
        let az = self.z as i128;
        let bw = o.w as i128;
        let bx = o.x as i128;
        let by = o.y as i128;
        let bz = o.z as i128;
        Quat {
            w: crate::fixed::div_one_i128(aw * bw - ax * bx - ay * by - az * bz),
            x: crate::fixed::div_one_i128(aw * bx + ax * bw + ay * bz - az * by),
            y: crate::fixed::div_one_i128(aw * by - ax * bz + ay * bw + az * bx),
            z: crate::fixed::div_one_i128(aw * bz + ax * by - ay * bx + az * bw),
        }
    }

    /// Scaled dot product, exactly `spec_dot`.
    pub fn dot(self, o: Quat) -> (r: i64)
        requires
            quat_within(self@, QMUL_IN_MAX as int),
            quat_within(o@, QMUL_IN_MAX as int),
        ensures
            r == spec_dot(self@, o@),
    {
        proof {
            crate::fixed::lemma_mul_fits(self.w as int, o.w as int, QMUL_IN_MAX as int, QMUL_IN_MAX as int);
            crate::fixed::lemma_mul_fits(self.x as int, o.x as int, QMUL_IN_MAX as int, QMUL_IN_MAX as int);
            crate::fixed::lemma_mul_fits(self.y as int, o.y as int, QMUL_IN_MAX as int, QMUL_IN_MAX as int);
            crate::fixed::lemma_mul_fits(self.z as int, o.z as int, QMUL_IN_MAX as int, QMUL_IN_MAX as int);
        }
        let p: i128 = (self.w as i128) * (o.w as i128) + (self.x as i128) * (o.x as i128)
            + (self.y as i128) * (o.y as i128) + (self.z as i128) * (o.z as i128);
        crate::fixed::div_one_i128(p)
    }
}

/// The identity quaternion is a fixed point of every basic operation:
/// its squared norm is exactly one, it normalizes to itself, it is
/// neutral under the Hamilton product with itself, and its self-dot is
/// exactly one.
pub proof fn lemma_identity_ops()
    ensures
        spec_norm_sq(spec_identity()) == (ONE as int) * (ONE as int),
        spec_normalize(spec_identity()) == spec_identity(),
        spec_q_mul(spec_identity(), spec_identity()) == spec_identity(),
        spec_dot(spec_identity(), spec_identity()) == ONE,
{
    let id = spec_identity();
    let o = ONE as int;
    assert(o * o == 1_000_000_000_000 && 0 * o == 0 && o * 0 == 0 && 0 * 0 == 0)
        by (nonlinear_arith)
        requires o == 1_000_000;
    assert(spec_norm_sq(id) == o * o);
    lemma_div_multiples_vanish(ONE as int, ONE as int);
    vstd::arithmetic::div_mod::lemma_div_of0(ONE as int);
    assert(spec_dot(id, id) == ONE);
    assert(spec_q_mul(id, id) == id);
    let n = spec_norm(id);
    assert(1_000_000 * 1_000_000 <= 1_000_000_000_000int
        && 1_000_000_000_000int < (1_000_000 + 1) * (1_000_000 + 1)) by (nonlinear_arith);
    crate::fixed::lemma_sqrt_floor_unique(1_000_000_000_000nat, 1_000_000nat);
    assert(n == 1_000_000);
    lemma_div_multiples_vanish(ONE as int, n);
    vstd::arithmetic::div_mod::lemma_div_of0(n);
    assert(spec_normalize(id) == id);
}

/// The zero Euler triple builds exactly the identity quaternion: no
/// near-zero degeneracy arises from a null rotation.
pub proof fn lemma_from_euler_zero()
    ensures
        spec_from_euler(VecModel { x: 0, y: 0, z: 0 }) == spec_identity(),
{
    crate::trig::lemma_sin_half_ends();
    assert(0int / 2 == 0);
    assert(0int % (crate::fixed::TURN as int) == 0);
    assert((crate::fixed::QUARTER_TURN as int) % (crate::fixed::TURN as int)
        == crate::fixed::QUARTER_TURN);
    assert(crate::trig::spec_sin(0) == 0);
    assert(crate::trig::spec_cos(0) == ONE);
    assert(spec_axis_x(0) == spec_identity());
    assert(spec_axis_y(0) == spec_identity());
    assert(spec_axis_z(0) == spec_identity());
    lemma_identity_ops();
}

/// Magnitude bound accepted for Euler-angle components entering the
/// quaternion construction: ten full turns.
pub const EULER_IN_MAX: i64 = 3_600_000;

/// Rotation about the x axis by an angle, as a quaternion (half-angle
/// construction).
pub open spec fn spec_axis_x(a: int) -> QuatModel {
    QuatModel { w: crate::trig::spec_cos(a / 2), x: crate::trig::spec_sin(a / 2), y: 0, z: 0 }
}

/// Rotation about the y axis by an angle, as a quaternion.
pub open spec fn spec_axis_y(a: int) -> QuatModel {
    QuatModel { w: crate::trig::spec_cos(a / 2), x: 0, y: crate::trig::spec_sin(a / 2), z: 0 }
}

/// Rotation about the z axis by an angle, as a quaternion.
pub open spec fn spec_axis_z(a: int) -> QuatModel {
    QuatModel { w: crate::trig::spec_cos(a / 2), x: 0, y: 0, z: crate::trig::spec_sin(a / 2) }
}

/// Quaternion of an Euler triple in x-y-z convention: the product of
/// the yaw, pitch and roll axis rotations, in that order.
pub open spec fn spec_from_euler(e: VecModel) -> QuatModel {
    spec_q_mul(spec_q_mul(spec_axis_z(e.z), spec_axis_y(e.y)), spec_axis_x(e.x))
}

/// Euler triple of a unit quaternion in x-y-z convention, through the
/// standard arctangent and arcsine decomposition.
pub open spec fn spec_to_euler(q: QuatModel) -> VecModel {
    let sp = 2 * (q.w * q.y - q.z * q.x) / (ONE as int);
    VecModel {
        x: spec_atan2(
            2 * (q.w * q.x + q.y * q.z) / (ONE as int),
            ONE - 2 * (q.x * q.x + q.y * q.y) / (ONE as int),
        ),
        y: if sp >= ONE {
            QUARTER_TURN as int
        } else if sp <= -(ONE as int) {
            -(QUARTER_TURN as int)
        } else {
            spec_asin(sp)
        },
        z: spec_atan2(
            2 * (q.w * q.z + q.x * q.y) / (ONE as int),
            ONE - 2 * (q.y * q.y + q.z * q.z) / (ONE as int),
        ),
    }
}

impl Quat {
    /// One axis rotation, executable.
    fn axis_parts(a: i64) -> (r: (i64, i64))
        requires
            -EULER_IN_MAX <= a <= EULER_IN_MAX,
        ensures
            r.0 == crate::trig::spec_cos(a as int / 2),
            r.1 == crate::trig::spec_sin(a as int / 2),
            -ONE <= r.0 <= ONE,
            -ONE <= r.1 <= ONE,
    {
        let h: i64 = crate::fixed::half_floor(a);
        (crate::trig::cos_fp(h), crate::trig::sin_fp(h))
    }

    /// Quaternion of an Euler triple, exactly `spec_from_euler`; the
    /// result components stay within a small multiple of `ONE`.
    pub fn from_euler(e: Vec3) -> (r: Quat)
        requires
            vec_within(e@, EULER_IN_MAX as int),
        ensures
            r@ == spec_from_euler(e@),
            quat_within(r@, 17_000_000),
    {
        let (cx, sx) = Self::axis_parts(e.x);
        let (cy, sy) = Self::axis_parts(e.y);
        let (cz, sz) = Self::axis_parts(e.z);
        let qx = Quat { w: cx, x: sx, y: 0, z: 0 };
        let qy = Quat { w: cy, x: 0, y: sy, z: 0 };
        let qz = Quat { w: cz, x: 0, y: 0, z: sz };
        proof {
            lemma_q_mul_within(qz@, qy@, ONE as int, ONE as int);
            assert(4 * (ONE as int) * (ONE as int) / (ONE as int) + 1 == 4_000_001)
                by (nonlinear_arith)
                requires ONE == 1_000_000;
        }
        let zy = qz.multiply(qy);
        proof {
            lemma_q_mul_within(zy@, qx@, 4_000_001, ONE as int);
            assert(4 * 4_000_001 * (ONE as int) / (ONE as int) + 1 == 16_000_005)
                by (nonlinear_arith)
                requires ONE == 1_000_000;
        }
        zy.multiply(qx)
    }

    /// Euler triple of a unit quaternion, exactly `spec_to_euler`; the
    /// components lie within half a turn.
    pub fn to_euler(self) -> (r: Vec3)
        requires
            quat_within(self@, ONE as int),
        ensures
            r@ == spec_to_euler(self@),
            vec_within(r@, crate::fixed::HALF_TURN as int),
    {
        proof {
            crate::fixed::lemma_mul_fits(self.w as int, self.x as int, ONE as int, ONE as int);
            crate::fixed::lemma_mul_fits(self.w as int, self.y as int, ONE as int, ONE as int);
            crate::fixed::lemma_mul_fits(self.w as int, self.z as int, ONE as int, ONE as int);
            crate::fixed::lemma_mul_fits(self.x as int, self.y as int, ONE as int, ONE as int);
            crate::fixed::lemma_mul_fits(self.x as int, self.x as int, ONE as int, ONE as int);
            crate::fixed::lemma_mul_fits(self.y as int, self.y as int, ONE as int, ONE as int);
            crate::fixed::lemma_mul_fits(self.y as int, self.z as int, ONE as int, ONE as int);
            crate::fixed::lemma_mul_fits(self.z as int, self.x as int, ONE as int, ONE as int);
            crate::fixed::lemma_mul_fits(self.z as int, self.z as int, ONE as int, ONE as int);
            crate::fixed::lemma_mul_fits(self.x as int, self.z as int, ONE as int, ONE as int);
        }
        let w = self.w as i128;
        let x = self.x as i128;
        let y = self.y as i128;
        let z = self.z as i128;
        let sr: i64 = crate::fixed::div_one_i128(2 * (w * x + y * z));
        let cr: i64 = ONE - crate::fixed::div_one_i128(2 * (x * x + y * y));
        let sp: i64 = crate::fixed::div_one_i128(2 * (w * y - z * x));
        let sy_: i64 = crate::fixed::div_one_i128(2 * (w * z + x * y));
        let cy_: i64 = ONE - crate::fixed::div_one_i128(2 * (y * y + z * z));
        let pitch: i64 = if sp >= ONE {
            QUARTER_TURN
        } else if sp <= -ONE {
            -QUARTER_TURN
        } else {
            asin_fp(sp)
        };
        Vec3 { x: atan2_fp(sr, cr), y: pitch, z: atan2_fp(sy_, cy_) }
    }
}

} // verus!
