//! Rotation inputs and path resolution.
//!
//! An [`AnimationAngle`] is either a raw quaternion or an Euler triple.
//! Either form deconstructs into a canonical pair: a normalized
//! quaternion and an Euler triple wrapped into `[0, TURN)`.  A pair of
//! endpoints is then adjusted for shortest rotational travel: per-axis
//! wrapping for Euler angles, and a combinatorial winding search for
//! quaternion endpoints.

use vstd::prelude::*;
use vstd::arithmetic::div_mod::lemma_mod_multiples_vanish;
use crate::fixed::ONE;
use crate::fixed::TURN;
use crate::fixed::HALF_TURN;
use crate::fixed::rem_euclid_fp;
use crate::quaternion::Quat;
use crate::quaternion::Vec3;
use crate::quaternion::QuatModel;
use crate::quaternion::VecModel;
use crate::quaternion::quat_within;
use crate::quaternion::vec_within;
use crate::quaternion::spec_normalize;
use crate::quaternion::spec_from_euler;
use crate::quaternion::spec_to_euler;
use crate::quaternion::RAW_COMP_MAX;

verus! {

/// A rotation given either as a raw quaternion (w, x, y, z) or as an
/// Euler triple in angle units, x-y-z convention.
#[derive(Clone, Copy, Debug)]
pub enum AnimationAngle {
    Quternion(Quat),
    Euler(Vec3),
}

/// Mathematical model of a rotation input.
pub ghost enum AngleModel {
    Quternion(QuatModel),
    Euler(VecModel),
}

impl View for AnimationAngle {
    type V = AngleModel;

    open spec fn view(&self) -> AngleModel {
        match *self {
            AnimationAngle::Quternion(q) => AngleModel::Quternion(q@),
            AnimationAngle::Euler(e) => AngleModel::Euler(e@),
        }
    }
}

/// A rotation input the library accepts: quaternion components within
/// `RAW_COMP_MAX`, Euler components within the symmetric `i64` range.
pub open spec fn angle_wf(a: AngleModel) -> bool {
    match a {
        AngleModel::Quternion(q) => quat_within(q, RAW_COMP_MAX as int),
        AngleModel::Euler(e) => vec_within(e, i64::MAX as int),
    }
}

/// An angle wrapped into `[0, TURN)`.
pub open spec fn spec_normalize_angle(a: int) -> int {
    a % (TURN as int)
}

/// An Euler triple wrapped per axis into `[0, TURN)`.
pub open spec fn spec_wrap3(v: VecModel) -> VecModel {
    VecModel {
        x: spec_normalize_angle(v.x),
        y: spec_normalize_angle(v.y),
        z: spec_normalize_angle(v.z),
    }
}

/// Shortest-path adjustment of one axis pair: when the direct delta
/// exceeds half a turn in magnitude, one endpoint is shifted by a full
/// turn so that travel wraps the short way round.
pub open spec fn spec_shortest_path(begin: int, end: int) -> (int, int) {
    if end - begin > HALF_TURN {
        if begin < end {
            (begin, end - TURN)
        } else {
            (begin, end + TURN)
        }
    } else if end - begin < -HALF_TURN {
        if begin < end {
            (begin + TURN, end)
        } else {
            (begin - TURN, end)
        }
    } else {
        (begin, end)
    }
}

impl AnimationAngle {
    /// A rotation from raw quaternion components.
    pub fn new_quternion(q: Quat) -> (r: AnimationAngle)
        ensures
            r@ == AngleModel::Quternion(q@),
    {
        AnimationAngle::Quternion(q)
    }

    /// A rotation from an Euler triple in angle units.
    pub fn new_euler(e: Vec3) -> (r: AnimationAngle)
        ensures
            r@ == AngleModel::Euler(e@),
    {
        AnimationAngle::Euler(e)
    }

    /// Wrap an angle into `[0, TURN)`.
    pub fn normalize_angle(angle: i64) -> (r: i64)
        requires
            angle > i64::MIN,
        ensures
            r == spec_normalize_angle(angle as int),
            0 <= r < TURN,
    {
        rem_euclid_fp(angle, TURN)
    }

    /// Shortest-path adjustment of one axis pair, exactly
    /// `spec_shortest_path`.
    pub fn angles_shortest_path(begin: i64, end: i64) -> (r: (i64, i64))
        requires
            -TURN <= begin <= 2 * TURN,
            -TURN <= end <= 2 * TURN,
        ensures
            (r.0 as int, r.1 as int) == spec_shortest_path(begin as int, end as int),
    {
        let mut begin = begin;
        let mut end = end;
        if end - begin > HALF_TURN {
            if begin < end {
                end = end - TURN;
            } else {
                end = end + TURN;
            }
        } else if end - begin < -HALF_TURN {
            if begin < end {
                begin = begin + TURN;
            } else {
                begin = begin - TURN;
            }
        }
        (begin, end)
    }
}

/// Canonical quaternion of a rotation input: the normalized raw
/// quaternion, or the quaternion built from the wrapped Euler triple.
pub open spec fn spec_deconstruct_quat(a: AngleModel) -> QuatModel {
    match a {
        AngleModel::Quternion(q) => spec_normalize(q),
        AngleModel::Euler(e) => spec_normalize(spec_from_euler(spec_wrap3(e))),
    }
}

/// Canonical Euler triple of a rotation input, wrapped per axis into
/// `[0, TURN)`: decomposed from the normalized quaternion, or the
/// wrapped input triple.
pub open spec fn spec_deconstruct_euler(a: AngleModel) -> VecModel {
    match a {
        AngleModel::Quternion(q) => spec_wrap3(spec_to_euler(spec_normalize(q))),
        AngleModel::Euler(e) => spec_wrap3(spec_wrap3(e)),
    }
}

/// Every component lies in `[0, TURN)`.
pub open spec fn vec_wrapped(v: VecModel) -> bool {
    &&& 0 <= v.x < TURN
    &&& 0 <= v.y < TURN
    &&& 0 <= v.z < TURN
}

/// Wrap an Euler triple per axis, exactly `spec_wrap3`.
fn wrap3_fp(e: Vec3) -> (r: Vec3)
    requires
        vec_within(e@, i64::MAX as int),
    ensures
        r@ == spec_wrap3(e@),
        vec_wrapped(r@),
{
    Vec3 {
        x: AnimationAngle::normalize_angle(e.x),
        y: AnimationAngle::normalize_angle(e.y),
        z: AnimationAngle::normalize_angle(e.z),
    }
}

impl AnimationAngle {
    /// Split a rotation input into its canonical pair: the normalized
    /// quaternion and the wrapped Euler triple describing the same
    /// rotation.
    pub fn deconstruct(&self) -> (r: (Quat, Vec3))
        requires
            angle_wf(self@),
        ensures
            r.0@ == spec_deconstruct_quat(self@),
            r.1@ == spec_deconstruct_euler(self@),
            quat_within(r.0@, ONE as int),
            vec_wrapped(r.1@),
    {
        match self {
            AnimationAngle::Quternion(q) => {
                let qn = q.normalize();
                let e = qn.to_euler();
                (qn, wrap3_fp(e))
            },
            AnimationAngle::Euler(e) => {
                let ew = wrap3_fp(*e);
                let q = Quat::from_euler(ew).normalize();
                (q, wrap3_fp(ew))
            },
        }
    }
}

/// For endpoints wrapped into `[0, TURN)`, the shortest-path adjustment
/// leaves a delta of at most half a turn in magnitude and congruent to
/// the direct delta modulo a full turn.
pub proof fn lemma_shortest_path_delta(begin: int, end: int)
    requires
        0 <= begin < TURN,
        0 <= end < TURN,
    ensures
        ({
            let (b2, e2) = spec_shortest_path(begin, end);
            &&& -HALF_TURN <= e2 - b2 <= HALF_TURN
            &&& (e2 - b2) % (TURN as int) == (end - begin) % (TURN as int)
        }),
{
    let (b2, e2) = spec_shortest_path(begin, end);
    if end - begin > HALF_TURN {
        lemma_mod_multiples_vanish(-1, end - begin, TURN as int);
    } else if end - begin < -HALF_TURN {
        lemma_mod_multiples_vanish(1, end - begin, TURN as int);
    } else {
        lemma_mod_multiples_vanish(0, end - begin, TURN as int);
    }
}

/// Wrapping an angle is idempotent: a wrapped angle wraps to itself.
pub proof fn lemma_normalize_angle_idempotent(a: int)
    ensures
        spec_normalize_angle(spec_normalize_angle(a)) == spec_normalize_angle(a),
{
    assert(0 <= a % (TURN as int) < TURN);
}

/// Deconstructing an Euler input keeps exactly its wrapped triple: the
/// round trip through the canonical form loses nothing but whole
/// turns.
pub proof fn lemma_deconstruct_euler_wrap(e: VecModel)
    ensures
        spec_deconstruct_euler(AngleModel::Euler(e)) == spec_wrap3(e),
{
    lemma_normalize_angle_idempotent(e.x);
    lemma_normalize_angle_idempotent(e.y);
    lemma_normalize_angle_idempotent(e.z);
}

/// Resolving the all-zero Euler pair yields exactly the identity
/// quaternion at both endpoints and the zero Euler triples: a null
/// rotation never trips the near-zero guard.
pub proof fn lemma_resolved_zero_pair()
    ensures
        ({
            let z = AngleModel::Euler(VecModel { x: 0, y: 0, z: 0 });
            &&& spec_resolved_quats(z, z).0 == crate::quaternion::spec_identity()
            &&& spec_resolved_quats(z, z).1 == crate::quaternion::spec_identity()
            &&& spec_resolved_eulers(z, z).0 == VecModel { x: 0, y: 0, z: 0 }
            &&& spec_resolved_eulers(z, z).1 == VecModel { x: 0, y: 0, z: 0 }
        }),
{
    let zv = VecModel { x: 0, y: 0, z: 0 };
    let z = AngleModel::Euler(zv);
    assert(0int % (TURN as int) == 0);
    assert(spec_wrap3(zv) == zv);
    assert(spec_deconstruct_euler(z) == zv);
    assert(spec_shortest_path(0, 0) == (0int, 0int));
    assert(spec_resolved_eulers(z, z).0 == zv);
    assert(spec_resolved_eulers(z, z).1 == zv);
    crate::quaternion::lemma_from_euler_zero();
    crate::quaternion::lemma_identity_ops();
    assert(both_euler(z, z));
}

/// Number of winding candidates: seven generators composed pairwise
/// across two rounds, each scored against both endpoints.
pub const WINDING_CANDIDATES: usize = 686;

/// Euler triple of one winding generator: the identity or a whole turn,
/// forward or backward, about one axis.
pub open spec fn spec_gen_euler(i: int) -> VecModel {
    if i == 0 {
        VecModel { x: 0, y: 0, z: 0 }
    } else if i == 1 {
        VecModel { x: TURN as int, y: 0, z: 0 }
    } else if i == 2 {
        VecModel { x: -(TURN as int), y: 0, z: 0 }
    } else if i == 3 {
        VecModel { x: 0, y: TURN as int, z: 0 }
    } else if i == 4 {
        VecModel { x: 0, y: -(TURN as int), z: 0 }
    } else if i == 5 {
        VecModel { x: 0, y: 0, z: TURN as int }
    } else {
        VecModel { x: 0, y: 0, z: -(TURN as int) }
    }
}

/// One winding generator as a unit quaternion.
pub open spec fn spec_gen_quat(i: int) -> QuatModel {
    spec_normalize(spec_from_euler(spec_gen_euler(i)))
}

/// Squared Euclidean distance between two quaternions as 4-vectors, at
/// scale `ONE * ONE`.
pub open spec fn spec_dist_sq(p: QuatModel, q: QuatModel) -> int {
    (p.w - q.w) * (p.w - q.w) + (p.x - q.x) * (p.x - q.x) + (p.y - q.y) * (p.y - q.y) + (p.z
        - q.z) * (p.z - q.z)
}

/// Winding candidate `idx` in enumeration order: the composite rotation
/// of three generators, applied to either the begin or the end
/// quaternion.
pub open spec fn spec_winding_cand(bq: QuatModel, eq: QuatModel, idx: int) -> (QuatModel, QuatModel) {
    let i = idx / 98;
    let j = (idx / 14) % 7;
    let k = (idx / 2) % 7;
    let a = crate::quaternion::spec_q_mul(
        crate::quaternion::spec_q_mul(spec_gen_quat(i), spec_gen_quat(j)),
        spec_gen_quat(k),
    );
    if idx % 2 == 0 {
        (crate::quaternion::spec_q_mul(a, bq), eq)
    } else {
        (bq, crate::quaternion::spec_q_mul(a, eq))
    }
}

/// Distance score of winding candidate `idx`.
pub open spec fn spec_winding_dist(bq: QuatModel, eq: QuatModel, idx: int) -> int {
    let (p, q) = spec_winding_cand(bq, eq, idx);
    spec_dist_sq(p, q)
}

/// Index kept by the left fold over candidates `0..=m` that keeps the
/// earlier candidate only at strictly smaller distance: the last index
/// attaining the minimal distance.
pub open spec fn spec_winding_best(bq: QuatModel, eq: QuatModel, m: nat) -> int
    decreases m,
{
    if m == 0 {
        0
    } else {
        let p = spec_winding_best(bq, eq, (m - 1) as nat);
        if spec_winding_dist(bq, eq, p) < spec_winding_dist(bq, eq, m as int) {
            p
        } else {
            m as int
        }
    }
}

/// The chosen pair of the winding disambiguation.
pub open spec fn spec_winding(bq: QuatModel, eq: QuatModel) -> (QuatModel, QuatModel) {
    spec_winding_cand(bq, eq, spec_winding_best(bq, eq, (WINDING_CANDIDATES - 1) as nat))
}

/// The winding disambiguation is globally minimal: the chosen pair's
/// distance is at most the distance of every candidate pairing.
pub proof fn lemma_winding_minimal(bq: QuatModel, eq: QuatModel)
    ensures
        forall|idx: int|
            0 <= idx < WINDING_CANDIDATES ==> spec_dist_sq(
                spec_winding(bq, eq).0,
                spec_winding(bq, eq).1,
            ) <= #[trigger] spec_winding_dist(bq, eq, idx),
{
    lemma_winding_best_min(bq, eq, (WINDING_CANDIDATES - 1) as nat);
}

/// The fold keeps an index within range whose distance is minimal over
/// every candidate seen.
proof fn lemma_winding_best_min(bq: QuatModel, eq: QuatModel, m: nat)
    ensures
        0 <= spec_winding_best(bq, eq, m) <= m,
        forall|idx: int|
            0 <= idx <= m ==> spec_winding_dist(bq, eq, spec_winding_best(bq, eq, m))
                <= #[trigger] spec_winding_dist(bq, eq, idx),
    decreases m,
{
    if m > 0 {
        lemma_winding_best_min(bq, eq, (m - 1) as nat);
    }
}

/// One winding generator, executable.
fn gen_quat(i: usize) -> (r: Quat)
    requires
        i < 7,
    ensures
        r@ == spec_gen_quat(i as int),
        quat_within(r@, ONE as int),
{
    let e: Vec3 = if i == 0 {
        Vec3 { x: 0, y: 0, z: 0 }
    } else if i == 1 {
        Vec3 { x: TURN, y: 0, z: 0 }
    } else if i == 2 {
        Vec3 { x: -TURN, y: 0, z: 0 }
    } else if i == 3 {
        Vec3 { x: 0, y: TURN, z: 0 }
    } else if i == 4 {
        Vec3 { x: 0, y: -TURN, z: 0 }
    } else if i == 5 {
        Vec3 { x: 0, y: 0, z: TURN }
    } else {
        Vec3 { x: 0, y: 0, z: -TURN }
    };
    Quat::from_euler(e).normalize()
}

/// Magnitude bound on the components of every winding candidate.
pub const CAND_COMP_MAX: i64 = 64_000_021;

/// Winding candidate `idx`, executable.
#[verifier::rlimit(100)]
fn winding_cand(bq: Quat, eq: Quat, idx: usize) -> (r: (Quat, Quat))
    requires
        quat_within(bq@, ONE as int),
        quat_within(eq@, ONE as int),
        idx < WINDING_CANDIDATES,
    ensures
        (r.0@, r.1@) == spec_winding_cand(bq@, eq@, idx as int),
        quat_within(r.0@, CAND_COMP_MAX as int),
        quat_within(r.1@, CAND_COMP_MAX as int),
{
    let gi = gen_quat(idx / 98);
    let gj = gen_quat((idx / 14) % 7);
    let gk = gen_quat((idx / 2) % 7);
    let h = gi.multiply(gj);
    proof {
        crate::quaternion::lemma_q_mul_within(gi@, gj@, ONE as int, ONE as int);
        assert(4 * (ONE as int) * (ONE as int) / (ONE as int) + 1 == 4_000_001)
            by (nonlinear_arith)
            requires ONE == 1_000_000;
    }
    let a = h.multiply(gk);
    proof {
        crate::quaternion::lemma_q_mul_within(h@, gk@, 4_000_001, ONE as int);
        assert(4 * 4_000_001 * (ONE as int) / (ONE as int) + 1 == 16_000_005)
            by (nonlinear_arith)
            requires ONE == 1_000_000;
    }
    proof {
        crate::quaternion::lemma_q_mul_within(a@, bq@, 16_000_005, ONE as int);
        crate::quaternion::lemma_q_mul_within(a@, eq@, 16_000_005, ONE as int);
        assert(4 * 16_000_005 * (ONE as int) / (ONE as int) + 1 == CAND_COMP_MAX)
            by (nonlinear_arith)
            requires ONE == 1_000_000, CAND_COMP_MAX == 64_000_021;
    }
    if idx % 2 == 0 {
        (a.multiply(bq), eq)
    } else {
        (bq, a.multiply(eq))
    }
}

/// Squared distance between two candidate quaternions, executable.
fn dist_sq(p: Quat, q: Quat) -> (r: i64)
    requires
        quat_within(p@, CAND_COMP_MAX as int),
        quat_within(q@, CAND_COMP_MAX as int),
    ensures
        r == spec_dist_sq(p@, q@),
{
    let dw: i64 = p.w - q.w;
    let dx: i64 = p.x - q.x;
    let dy: i64 = p.y - q.y;
    let dz: i64 = p.z - q.z;
    proof {
        crate::fixed::lemma_mul_fits(dw as int, dw as int, 2 * CAND_COMP_MAX as int, 2 * CAND_COMP_MAX as int);
        crate::fixed::lemma_mul_fits(dx as int, dx as int, 2 * CAND_COMP_MAX as int, 2 * CAND_COMP_MAX as int);
        crate::fixed::lemma_mul_fits(dy as int, dy as int, 2 * CAND_COMP_MAX as int, 2 * CAND_COMP_MAX as int);
        crate::fixed::lemma_mul_fits(dz as int, dz as int, 2 * CAND_COMP_MAX as int, 2 * CAND_COMP_MAX as int);
    }
    let s: i128 = (dw as i128) * (dw as i128) + (dx as i128) * (dx as i128) + (dy as i128) * (dy
        as i128) + (dz as i128) * (dz as i128);
    s as i64
}

/// The winding disambiguation: over all candidate composite rotations
/// applied to either endpoint, keep the pair at minimal distance,
/// resolving ties towards the last candidate in enumeration order.
#[verifier::rlimit(100)]
fn winding_search(bq: Quat, eq: Quat) -> (r: (Quat, Quat))
    requires
        quat_within(bq@, ONE as int),
        quat_within(eq@, ONE as int),
    ensures
        (r.0@, r.1@) == spec_winding(bq@, eq@),
        quat_within(r.0@, CAND_COMP_MAX as int),
        quat_within(r.1@, CAND_COMP_MAX as int),
{
    let mut best_pair: (Quat, Quat) = winding_cand(bq, eq, 0);
    let mut best_dist: i64 = dist_sq(best_pair.0, best_pair.1);
    let mut idx: usize = 1;
    while idx < WINDING_CANDIDATES
        invariant
            1 <= idx <= WINDING_CANDIDATES,
            quat_within(bq@, ONE as int),
            quat_within(eq@, ONE as int),
            (best_pair.0@, best_pair.1@) == spec_winding_cand(
                bq@,
                eq@,
                spec_winding_best(bq@, eq@, (idx - 1) as nat),
            ),
            best_dist == spec_winding_dist(bq@, eq@, spec_winding_best(bq@, eq@, (idx - 1) as nat)),
            quat_within(best_pair.0@, CAND_COMP_MAX as int),
            quat_within(best_pair.1@, CAND_COMP_MAX as int),
        decreases WINDING_CANDIDATES - idx,
    {
        let c = winding_cand(bq, eq, idx);
        let cd = dist_sq(c.0, c.1);
        if !(best_dist < cd) {
            best_pair = c;
            best_dist = cd;
        }
        idx = idx + 1;
    }
    best_pair
}

/// Both endpoints were supplied as Euler triples, so no winding
/// correction is needed.
pub open spec fn both_euler(b: AngleModel, e: AngleModel) -> bool {
    b is Euler && e is Euler
}

/// The shortest-path-adjusted Euler pair of two rotation inputs.
pub open spec fn spec_resolved_eulers(b: AngleModel, e: AngleModel) -> (VecModel, VecModel) {
    let be = spec_deconstruct_euler(b);
    let ee = spec_deconstruct_euler(e);
    let (bx, ex) = spec_shortest_path(be.x, ee.x);
    let (by, ey) = spec_shortest_path(be.y, ee.y);
    let (bz, ez) = spec_shortest_path(be.z, ee.z);
    (VecModel { x: bx, y: by, z: bz }, VecModel { x: ex, y: ey, z: ez })
}

/// The resolved quaternion pair of two rotation inputs: rebuilt from
/// the adjusted Euler pair when both inputs were Euler, otherwise
/// chosen by the winding disambiguation.
pub open spec fn spec_resolved_quats(b: AngleModel, e: AngleModel) -> (QuatModel, QuatModel) {
    if both_euler(b, e) {
        let (b2, e2) = spec_resolved_eulers(b, e);
        (spec_normalize(spec_from_euler(b2)), spec_normalize(spec_from_euler(e2)))
    } else {
        spec_winding(spec_deconstruct_quat(b), spec_deconstruct_quat(e))
    }
}

impl AnimationAngle {
    /// Resolve a begin/end pair of rotation inputs into adjusted
    /// quaternion and Euler endpoints chosen for shortest travel.
    pub fn get_normalized_angles(begin: &AnimationAngle, end: &AnimationAngle) -> (r: (
        Quat,
        Vec3,
        Quat,
        Vec3,
    ))
        requires
            angle_wf(begin@),
            angle_wf(end@),
        ensures
            r.0@ == spec_resolved_quats(begin@, end@).0,
            r.2@ == spec_resolved_quats(begin@, end@).1,
            r.1@ == spec_resolved_eulers(begin@, end@).0,
            r.3@ == spec_resolved_eulers(begin@, end@).1,
            quat_within(r.0@, CAND_COMP_MAX as int),
            quat_within(r.2@, CAND_COMP_MAX as int),
            vec_within(r.1@, 2 * TURN as int),
            vec_within(r.3@, 2 * TURN as int),
    {
        let (bq, be) = begin.deconstruct();
        let (eq, ee) = end.deconstruct();
        let (bx, ex) = Self::angles_shortest_path(be.x, ee.x);
        let (by, ey) = Self::angles_shortest_path(be.y, ee.y);
        let (bz, ez) = Self::angles_shortest_path(be.z, ee.z);
        let be2 = Vec3 { x: bx, y: by, z: bz };
        let ee2 = Vec3 { x: ex, y: ey, z: ez };
        let is_euler_pair = match (begin, end) {
            (AnimationAngle::Euler(_), AnimationAngle::Euler(_)) => true,
            _ => false,
        };
        let (rbq, req) = if is_euler_pair {
            (Quat::from_euler(be2).normalize(), Quat::from_euler(ee2).normalize())
        } else {
            winding_search(bq, eq)
        };
        (rbq, be2, req, ee2)
    }
}

} // verus!
