//! Rotation matrices and homogeneous transforms in fixed-point
//! arithmetic.
//!
//! A transform is `Translate(position) ∘ Rotate(rotation)`: the 3×3
//! rotation block, the translation in the last column, and `0 0 0 ONE`
//! as the last row, all at scale `ONE`, row-major.

use vstd::prelude::*;
use crate::fixed::ONE;
use crate::quaternion::Quat;
use crate::quaternion::Vec3;
use crate::quaternion::QuatModel;
use crate::quaternion::VecModel;
use crate::quaternion::quat_within;
use crate::quaternion::vec_within;
use crate::trig::spec_sin;
use crate::trig::spec_cos;

verus! {

/// Mathematical model of a 3×3 matrix: unbounded integer entries,
/// row-major.
pub ghost struct Mat3Model {
    pub m00: int, pub m01: int, pub m02: int,
    pub m10: int, pub m11: int, pub m12: int,
    pub m20: int, pub m21: int, pub m22: int,
}

/// Mathematical model of a homogeneous 4×4 transform.
pub ghost struct TransformModel {
    pub m00: int, pub m01: int, pub m02: int, pub m03: int,
    pub m10: int, pub m11: int, pub m12: int, pub m13: int,
    pub m20: int, pub m21: int, pub m22: int, pub m23: int,
    pub m30: int, pub m31: int, pub m32: int, pub m33: int,
}

/// A 3×3 rotation matrix at scale `ONE`, row-major.
#[derive(Clone, Copy, Debug, PartialEq, Eq, Structural)]
pub struct Mat3 {
    pub m00: i64, pub m01: i64, pub m02: i64,
    pub m10: i64, pub m11: i64, pub m12: i64,
    pub m20: i64, pub m21: i64, pub m22: i64,
}

/// A homogeneous 4×4 transform at scale `ONE`, row-major.
#[derive(Clone, Copy, Debug, PartialEq, Eq, Structural)]
pub struct Transform4 {
    pub m00: i64, pub m01: i64, pub m02: i64, pub m03: i64,
    pub m10: i64, pub m11: i64, pub m12: i64, pub m13: i64,
    pub m20: i64, pub m21: i64, pub m22: i64, pub m23: i64,
    pub m30: i64, pub m31: i64, pub m32: i64, pub m33: i64,
}

impl View for Mat3 {
    type V = Mat3Model;

    open spec fn view(&self) -> Mat3Model {
        Mat3Model {
            m00: self.m00 as int, m01: self.m01 as int, m02: self.m02 as int,
            m10: self.m10 as int, m11: self.m11 as int, m12: self.m12 as int,
            m20: self.m20 as int, m21: self.m21 as int, m22: self.m22 as int,
        }
    }
}

impl View for Transform4 {
    type V = TransformModel;

    open spec fn view(&self) -> TransformModel {
        TransformModel {
            m00: self.m00 as int, m01: self.m01 as int, m02: self.m02 as int, m03: self.m03 as int,
            m10: self.m10 as int, m11: self.m11 as int, m12: self.m12 as int, m13: self.m13 as int,
            m20: self.m20 as int, m21: self.m21 as int, m22: self.m22 as int, m23: self.m23 as int,
            m30: self.m30 as int, m31: self.m31 as int, m32: self.m32 as int, m33: self.m33 as int,
        }
    }
}

/// All entries within `b` in magnitude.
pub open spec fn mat3_within(m: Mat3Model, b: int) -> bool {
    &&& -b <= m.m00 <= b && -b <= m.m01 <= b && -b <= m.m02 <= b
    &&& -b <= m.m10 <= b && -b <= m.m11 <= b && -b <= m.m12 <= b
    &&& -b <= m.m20 <= b && -b <= m.m21 <= b && -b <= m.m22 <= b
}

/// The identity rotation matrix.
pub open spec fn spec_mat3_identity() -> Mat3Model {
    Mat3Model {
        m00: ONE as int, m01: 0, m02: 0,
        m10: 0, m11: ONE as int, m12: 0,
        m20: 0, m21: 0, m22: ONE as int,
    }
}

/// Rotation matrix of a unit quaternion, by the standard expansion.
pub open spec fn spec_rot_from_quat(q: QuatModel) -> Mat3Model {
    Mat3Model {
        m00: ONE - 2 * (q.y * q.y + q.z * q.z) / (ONE as int),
        m01: 2 * (q.x * q.y - q.w * q.z) / (ONE as int),
        m02: 2 * (q.x * q.z + q.w * q.y) / (ONE as int),
        m10: 2 * (q.x * q.y + q.w * q.z) / (ONE as int),
        m11: ONE - 2 * (q.x * q.x + q.z * q.z) / (ONE as int),
        m12: 2 * (q.y * q.z - q.w * q.x) / (ONE as int),
        m20: 2 * (q.x * q.z - q.w * q.y) / (ONE as int),
        m21: 2 * (q.y * q.z + q.w * q.x) / (ONE as int),
        m22: ONE - 2 * (q.x * q.x + q.y * q.y) / (ONE as int),
    }
}

/// Basic rotation about the x axis.
pub open spec fn spec_rot_x(a: int) -> Mat3Model {
    Mat3Model {
        m00: ONE as int, m01: 0, m02: 0,
        m10: 0, m11: spec_cos(a), m12: -spec_sin(a),
        m20: 0, m21: spec_sin(a), m22: spec_cos(a),
    }
}

/// Basic rotation about the y axis.
pub open spec fn spec_rot_y(a: int) -> Mat3Model {
    Mat3Model {
        m00: spec_cos(a), m01: 0, m02: spec_sin(a),
        m10: 0, m11: ONE as int, m12: 0,
        m20: -spec_sin(a), m21: 0, m22: spec_cos(a),
    }
}

/// Basic rotation about the z axis.
pub open spec fn spec_rot_z(a: int) -> Mat3Model {
    Mat3Model {
        m00: spec_cos(a), m01: -spec_sin(a), m02: 0,
        m10: spec_sin(a), m11: spec_cos(a), m12: 0,
        m20: 0, m21: 0, m22: ONE as int,
    }
}

/// Matrix product with one rescale per entry:
/// `(sum of products) / ONE`.
pub open spec fn spec_mat3_mul(a: Mat3Model, b: Mat3Model) -> Mat3Model {
    Mat3Model {
        m00: (a.m00 * b.m00 + a.m01 * b.m10 + a.m02 * b.m20) / (ONE as int),
        m01: (a.m00 * b.m01 + a.m01 * b.m11 + a.m02 * b.m21) / (ONE as int),
        m02: (a.m00 * b.m02 + a.m01 * b.m12 + a.m02 * b.m22) / (ONE as int),
        m10: (a.m10 * b.m00 + a.m11 * b.m10 + a.m12 * b.m20) / (ONE as int),
        m11: (a.m10 * b.m01 + a.m11 * b.m11 + a.m12 * b.m21) / (ONE as int),
        m12: (a.m10 * b.m02 + a.m11 * b.m12 + a.m12 * b.m22) / (ONE as int),
        m20: (a.m20 * b.m00 + a.m21 * b.m10 + a.m22 * b.m20) / (ONE as int),
        m21: (a.m20 * b.m01 + a.m21 * b.m11 + a.m22 * b.m21) / (ONE as int),
        m22: (a.m20 * b.m02 + a.m21 * b.m12 + a.m22 * b.m22) / (ONE as int),
    }
}

/// Rotation matrix of an Euler triple in x-y-z convention: yaw, then
/// pitch, then roll.
pub open spec fn spec_rot_from_euler(e: VecModel) -> Mat3Model {
    spec_mat3_mul(spec_mat3_mul(spec_rot_z(e.z), spec_rot_y(e.y)), spec_rot_x(e.x))
}

/// The homogeneous transform `Translate(t) ∘ Rotate(r)`: rotation
/// applied first, translation second.
pub open spec fn spec_compose(t: VecModel, r: Mat3Model) -> TransformModel {
    TransformModel {
        m00: r.m00, m01: r.m01, m02: r.m02, m03: t.x,
        m10: r.m10, m11: r.m11, m12: r.m12, m13: t.y,
        m20: r.m20, m21: r.m21, m22: r.m22, m23: t.z,
        m30: 0, m31: 0, m32: 0, m33: ONE as int,
    }
}

/// The identity quaternion maps to exactly the identity rotation
/// matrix: a degenerate rotation leaves a pure translation.
pub proof fn lemma_rot_identity()
    ensures
        spec_rot_from_quat(crate::quaternion::spec_identity()) == spec_mat3_identity(),
{
    let id = crate::quaternion::spec_identity();
    let o = ONE as int;
    assert(o * o == 1_000_000_000_000 && 0 * o == 0 && o * 0 == 0 && 0 * 0 == 0)
        by (nonlinear_arith)
        requires o == 1_000_000;
    vstd::arithmetic::div_mod::lemma_div_of0(ONE as int);
}

/// Magnitude bound on entries of rotation matrices handled here.
pub const MAT_IN_MAX: i64 = 100_000_000;

/// Rotation matrix of a unit quaternion, exactly `spec_rot_from_quat`.
pub fn rot_from_quat(q: Quat) -> (r: Mat3)
    requires
        quat_within(q@, ONE as int),
    ensures
        r@ == spec_rot_from_quat(q@),
        mat3_within(r@, 6 * ONE as int),
{
    proof {
        crate::fixed::lemma_mul_fits(q@.x, q@.x, ONE as int, ONE as int);
        crate::fixed::lemma_mul_fits(q@.x, q@.y, ONE as int, ONE as int);
        crate::fixed::lemma_mul_fits(q@.x, q@.z, ONE as int, ONE as int);
        crate::fixed::lemma_mul_fits(q@.y, q@.y, ONE as int, ONE as int);
        crate::fixed::lemma_mul_fits(q@.y, q@.z, ONE as int, ONE as int);
        crate::fixed::lemma_mul_fits(q@.z, q@.z, ONE as int, ONE as int);
        crate::fixed::lemma_mul_fits(q@.w, q@.x, ONE as int, ONE as int);
        crate::fixed::lemma_mul_fits(q@.w, q@.y, ONE as int, ONE as int);
        crate::fixed::lemma_mul_fits(q@.w, q@.z, ONE as int, ONE as int);
        let bb = 2 * (ONE as int) * (ONE as int) + 2 * (ONE as int) * (ONE as int);
        crate::quaternion::lemma_div_one_bound(2 * (q@.y * q@.y + q@.z * q@.z), bb);
        crate::quaternion::lemma_div_one_bound(2 * (q@.x * q@.y - q@.w * q@.z), bb);
        crate::quaternion::lemma_div_one_bound(2 * (q@.x * q@.z + q@.w * q@.y), bb);
        crate::quaternion::lemma_div_one_bound(2 * (q@.x * q@.y + q@.w * q@.z), bb);
        crate::quaternion::lemma_div_one_bound(2 * (q@.x * q@.x + q@.z * q@.z), bb);
        crate::quaternion::lemma_div_one_bound(2 * (q@.y * q@.z - q@.w * q@.x), bb);
        crate::quaternion::lemma_div_one_bound(2 * (q@.x * q@.z - q@.w * q@.y), bb);
        crate::quaternion::lemma_div_one_bound(2 * (q@.y * q@.z + q@.w * q@.x), bb);
        crate::quaternion::lemma_div_one_bound(2 * (q@.x * q@.x + q@.y * q@.y), bb);
        assert(bb / (ONE as int) + 1 == 4 * (ONE as int) + 1) by (nonlinear_arith)
            requires bb == 4 * (ONE as int) * (ONE as int), ONE == 1_000_000;
    }
    let w = q.w as i128;
    let x = q.x as i128;
    let y = q.y as i128;
    let z = q.z as i128;
    Mat3 {
        m00: ONE - crate::fixed::div_one_i128(2 * (y * y + z * z)),
        m01: crate::fixed::div_one_i128(2 * (x * y - w * z)),
        m02: crate::fixed::div_one_i128(2 * (x * z + w * y)),
        m10: crate::fixed::div_one_i128(2 * (x * y + w * z)),
        m11: ONE - crate::fixed::div_one_i128(2 * (x * x + z * z)),
        m12: crate::fixed::div_one_i128(2 * (y * z - w * x)),
        m20: crate::fixed::div_one_i128(2 * (x * z - w * y)),
        m21: crate::fixed::div_one_i128(2 * (y * z + w * x)),
        m22: ONE - crate::fixed::div_one_i128(2 * (x * x + y * y)),
    }
}

/// Matrix product, exactly `spec_mat3_mul`.
pub fn mat3_mul(a: Mat3, b: Mat3) -> (r: Mat3)
    requires
        mat3_within(a@, MAT_IN_MAX as int),
        mat3_within(b@, MAT_IN_MAX as int),
    ensures
        r@ == spec_mat3_mul(a@, b@),
{
    proof {
        let mb = MAT_IN_MAX as int;
        assert forall|p: int, q: int| -mb <= p <= mb && -mb <= q <= mb
            implies -(mb * mb) <= #[trigger] (p * q) <= mb * mb by {
            crate::fixed::lemma_mul_fits(p, q, mb, mb);
        }
        assert(3 * (mb * mb) <= 0x4000_0000_0000_0000 * (ONE as int)) by (nonlinear_arith)
            requires mb == 100_000_000, ONE == 1_000_000;
    }
    let a00 = a.m00 as i128; let a01 = a.m01 as i128; let a02 = a.m02 as i128;
    let a10 = a.m10 as i128; let a11 = a.m11 as i128; let a12 = a.m12 as i128;
    let a20 = a.m20 as i128; let a21 = a.m21 as i128; let a22 = a.m22 as i128;
    let b00 = b.m00 as i128; let b01 = b.m01 as i128; let b02 = b.m02 as i128;
    let b10 = b.m10 as i128; let b11 = b.m11 as i128; let b12 = b.m12 as i128;
    let b20 = b.m20 as i128; let b21 = b.m21 as i128; let b22 = b.m22 as i128;
    Mat3 {
        m00: crate::fixed::div_one_i128(a00 * b00 + a01 * b10 + a02 * b20),
        m01: crate::fixed::div_one_i128(a00 * b01 + a01 * b11 + a02 * b21),
        m02: crate::fixed::div_one_i128(a00 * b02 + a01 * b12 + a02 * b22),
        m10: crate::fixed::div_one_i128(a10 * b00 + a11 * b10 + a12 * b20),
        m11: crate::fixed::div_one_i128(a10 * b01 + a11 * b11 + a12 * b21),
        m12: crate::fixed::div_one_i128(a10 * b02 + a11 * b12 + a12 * b22),
        m20: crate::fixed::div_one_i128(a20 * b00 + a21 * b10 + a22 * b20),
        m21: crate::fixed::div_one_i128(a20 * b01 + a21 * b11 + a22 * b21),
        m22: crate::fixed::div_one_i128(a20 * b02 + a21 * b12 + a22 * b22),
    }
}

/// Entries of a product of bounded matrices are bounded.
pub proof fn lemma_mat3_mul_within(a: Mat3Model, b: Mat3Model, ba: int, bb: int)
    requires
        mat3_within(a, ba),
        mat3_within(b, bb),
        ba >= 0,
        bb >= 0,
    ensures
        mat3_within(spec_mat3_mul(a, b), 3 * ba * bb / (ONE as int) + 1),
{
    let m = 3 * ba * bb;
    let bp = ba * bb;
    assert forall|p: int, q: int| -ba <= p <= ba && -bb <= q <= bb
        implies -bp <= #[trigger] (p * q) <= bp by {
        crate::fixed::lemma_mul_fits(p, q, ba, bb);
    }
    assert(m == 3 * bp && m >= 0) by (nonlinear_arith)
        requires m == 3 * ba * bb, bp == ba * bb, ba >= 0, bb >= 0;
    crate::quaternion::lemma_div_one_bound(a.m00 * b.m00 + a.m01 * b.m10 + a.m02 * b.m20, m);
    crate::quaternion::lemma_div_one_bound(a.m00 * b.m01 + a.m01 * b.m11 + a.m02 * b.m21, m);
    crate::quaternion::lemma_div_one_bound(a.m00 * b.m02 + a.m01 * b.m12 + a.m02 * b.m22, m);
    crate::quaternion::lemma_div_one_bound(a.m10 * b.m00 + a.m11 * b.m10 + a.m12 * b.m20, m);
    crate::quaternion::lemma_div_one_bound(a.m10 * b.m01 + a.m11 * b.m11 + a.m12 * b.m21, m);
    crate::quaternion::lemma_div_one_bound(a.m10 * b.m02 + a.m11 * b.m12 + a.m12 * b.m22, m);
    crate::quaternion::lemma_div_one_bound(a.m20 * b.m00 + a.m21 * b.m10 + a.m22 * b.m20, m);
    crate::quaternion::lemma_div_one_bound(a.m20 * b.m01 + a.m21 * b.m11 + a.m22 * b.m21, m);
    crate::quaternion::lemma_div_one_bound(a.m20 * b.m02 + a.m21 * b.m12 + a.m22 * b.m22, m);
}

/// Rotation matrix of an Euler triple, exactly `spec_rot_from_euler`.
pub fn rot_from_euler(e: Vec3) -> (r: Mat3)
    requires
        vec_within(e@, 4 * crate::fixed::TURN as int),
    ensures
        r@ == spec_rot_from_euler(e@),
{
    let rx = Mat3 {
        m00: ONE, m01: 0, m02: 0,
        m10: 0, m11: crate::trig::cos_fp(e.x), m12: -crate::trig::sin_fp(e.x),
        m20: 0, m21: crate::trig::sin_fp(e.x), m22: crate::trig::cos_fp(e.x),
    };
    let ry = Mat3 {
        m00: crate::trig::cos_fp(e.y), m01: 0, m02: crate::trig::sin_fp(e.y),
        m10: 0, m11: ONE, m12: 0,
        m20: -crate::trig::sin_fp(e.y), m21: 0, m22: crate::trig::cos_fp(e.y),
    };
    let rz = Mat3 {
        m00: crate::trig::cos_fp(e.z), m01: -crate::trig::sin_fp(e.z), m02: 0,
        m10: crate::trig::sin_fp(e.z), m11: crate::trig::cos_fp(e.z), m12: 0,
        m20: 0, m21: 0, m22: ONE,
    };
    let zy = mat3_mul(rz, ry);
    proof {
        lemma_mat3_mul_within(rz@, ry@, ONE as int, ONE as int);
        assert(3 * (ONE as int) * (ONE as int) / (ONE as int) + 1 == 3_000_001)
            by (nonlinear_arith)
            requires ONE == 1_000_000;
    }
    mat3_mul(zy, rx)
}

/// Magnitude bound accepted for position components:
/// 1 000 000 000 000 in scalar value.
pub const POS_MAX: i64 = 1_000_000_000_000_000_000;

/// Component-wise linear blend of two vectors with weights
/// `(1 - t, t)`, rescaled.
pub open spec fn spec_lerp_vec(a: VecModel, b: VecModel, t: int) -> VecModel {
    VecModel {
        x: ((ONE - t) * a.x + t * b.x) / (ONE as int),
        y: ((ONE - t) * a.y + t * b.y) / (ONE as int),
        z: ((ONE - t) * a.z + t * b.z) / (ONE as int),
    }
}

/// One component of the linear blend stays within the bound of its
/// endpoints, up to the floor rounding.
proof fn lemma_lerp_comp_within(a: int, b: int, t: int, bound: int)
    requires
        0 <= t <= ONE,
        -bound <= a <= bound,
        -bound <= b <= bound,
        bound >= 0,
    ensures
        -bound - 1 <= ((ONE - t) * a + t * b) / (ONE as int) <= bound,
{
    assert(-(ONE as int) * bound <= (ONE - t) * a + t * b <= (ONE as int) * bound)
        by (nonlinear_arith)
        requires
            0 <= t <= ONE,
            -bound <= a <= bound,
            -bound <= b <= bound,
            bound >= 0;
    vstd::arithmetic::div_mod::lemma_div_is_ordered(
        (ONE - t) * a + t * b,
        (ONE as int) * bound,
        ONE as int,
    );
    vstd::arithmetic::div_mod::lemma_div_is_ordered(
        -(ONE as int) * bound,
        (ONE - t) * a + t * b,
        ONE as int,
    );
    vstd::arithmetic::div_mod::lemma_div_multiples_vanish(bound, ONE as int);
    vstd::arithmetic::div_mod::lemma_div_multiples_vanish(-bound, ONE as int);
    assert(-(ONE as int) * bound == (ONE as int) * (-bound)) by (nonlinear_arith);
}

/// Linear blend of two vectors, exactly `spec_lerp_vec`; components
/// stay within one unit of the endpoint bound.
pub fn lerp_vec(a: Vec3, b: Vec3, t: i64, bound: Ghost<int>) -> (r: Vec3)
    requires
        0 <= t <= ONE,
        0 <= bound@ <= POS_MAX,
        vec_within(a@, bound@),
        vec_within(b@, bound@),
    ensures
        r@ == spec_lerp_vec(a@, b@, t as int),
        vec_within(r@, bound@ + 1),
{
    proof {
        lemma_lerp_comp_within(a@.x, b@.x, t as int, bound@);
        lemma_lerp_comp_within(a@.y, b@.y, t as int, bound@);
        lemma_lerp_comp_within(a@.z, b@.z, t as int, bound@);
        crate::fixed::lemma_mul_fits(ONE - t, a@.x, ONE as int, POS_MAX as int);
        crate::fixed::lemma_mul_fits(ONE - t, a@.y, ONE as int, POS_MAX as int);
        crate::fixed::lemma_mul_fits(ONE - t, a@.z, ONE as int, POS_MAX as int);
        crate::fixed::lemma_mul_fits(t as int, b@.x, ONE as int, POS_MAX as int);
        crate::fixed::lemma_mul_fits(t as int, b@.y, ONE as int, POS_MAX as int);
        crate::fixed::lemma_mul_fits(t as int, b@.z, ONE as int, POS_MAX as int);
    }
    let s1 = (ONE - t) as i128;
    let s2 = t as i128;
    Vec3 {
        x: crate::fixed::div_one_i128(s1 * (a.x as i128) + s2 * (b.x as i128)),
        y: crate::fixed::div_one_i128(s1 * (a.y as i128) + s2 * (b.y as i128)),
        z: crate::fixed::div_one_i128(s1 * (a.z as i128) + s2 * (b.z as i128)),
    }
}

/// The zero Euler triple maps to exactly the identity rotation matrix.
pub proof fn lemma_rot_from_euler_zero()
    ensures
        spec_rot_from_euler(VecModel { x: 0, y: 0, z: 0 }) == spec_mat3_identity(),
{
    let o = ONE as int;
    crate::trig::lemma_sin_half_ends();
    assert(0int % (crate::fixed::TURN as int) == 0);
    assert((crate::fixed::QUARTER_TURN as int) % (crate::fixed::TURN as int)
        == crate::fixed::QUARTER_TURN);
    assert(spec_sin(0) == 0);
    assert(spec_cos(0) == ONE);
    assert(spec_rot_x(0) == spec_mat3_identity());
    assert(spec_rot_y(0) == spec_mat3_identity());
    assert(spec_rot_z(0) == spec_mat3_identity());
    assert(o * o == 1_000_000_000_000 && 0 * o == 0 && o * 0 == 0 && 0 * 0 == 0)
        by (nonlinear_arith)
        requires o == 1_000_000;
    vstd::arithmetic::div_mod::lemma_div_multiples_vanish(o, o);
    vstd::arithmetic::div_mod::lemma_div_of0(o);
    assert(spec_mat3_mul(spec_mat3_identity(), spec_mat3_identity()) == spec_mat3_identity());
}

/// The linear blend is exact at its ends: fraction `0` returns the
/// first vector unchanged and fraction `ONE` the second.
pub proof fn lemma_lerp_vec_ends(a: VecModel, b: VecModel)
    ensures
        spec_lerp_vec(a, b, 0) == a,
        spec_lerp_vec(a, b, ONE as int) == b,
{
    let o = ONE as int;
    assert(0 * a.x == 0 && 0 * a.y == 0 && 0 * a.z == 0 && 0 * b.x == 0 && 0 * b.y == 0 && 0
        * b.z == 0 && (o - o) == 0) by (nonlinear_arith);
    vstd::arithmetic::div_mod::lemma_div_multiples_vanish(a.x, o);
    vstd::arithmetic::div_mod::lemma_div_multiples_vanish(a.y, o);
    vstd::arithmetic::div_mod::lemma_div_multiples_vanish(a.z, o);
    vstd::arithmetic::div_mod::lemma_div_multiples_vanish(b.x, o);
    vstd::arithmetic::div_mod::lemma_div_multiples_vanish(b.y, o);
    vstd::arithmetic::div_mod::lemma_div_multiples_vanish(b.z, o);
}

/// Assemble the homogeneous transform, exactly `spec_compose`.
pub fn compose_transform(t: Vec3, r: Mat3) -> (m: Transform4)
    ensures
        m@ == spec_compose(t@, r@),
{
    Transform4 {
        m00: r.m00, m01: r.m01, m02: r.m02, m03: t.x,
        m10: r.m10, m11: r.m11, m12: r.m12, m13: t.y,
        m20: r.m20, m21: r.m21, m22: r.m22, m23: t.z,
        m30: 0, m31: 0, m32: 0, m33: ONE,
    }
}

} // verus!
