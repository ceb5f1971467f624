//! The two time models over the shared rotation math.
//!
//! A discrete animation bakes a fixed count of frames once, on the
//! first step, and ignores time afterwards.  A continuous animation
//! advances a saturating clock and evaluates one live transform per
//! query.  Both expose a quaternion-path track and an Euler-path track,
//! queried independently.

use vstd::prelude::*;
use vstd::arithmetic::div_mod::lemma_div_is_ordered;
use vstd::arithmetic::div_mod::lemma_div_pos_is_pos;
use vstd::arithmetic::div_mod::lemma_div_multiples_vanish;
use crate::fixed::ONE;
use crate::fixed::TURN;
use crate::animation_data::QuaternionInterpolationType;
use crate::quaternion::Quat;
use crate::quaternion::Vec3;
use crate::quaternion::QuatModel;
use crate::quaternion::VecModel;
use crate::quaternion::quat_within;
use crate::quaternion::vec_within;
use crate::angles::AnimationAngle;
use crate::angles::angle_wf;
use crate::angles::spec_resolved_quats;
use crate::angles::spec_resolved_eulers;
use crate::angles::CAND_COMP_MAX;
use crate::interpolation::get_quaternions_interpolation;
use crate::interpolation::spec_interpolate;
use crate::matrix::Transform4;
use crate::matrix::TransformModel;
use crate::matrix::spec_compose;
use crate::matrix::spec_rot_from_quat;
use crate::matrix::spec_rot_from_euler;
use crate::matrix::spec_lerp_vec;
use crate::matrix::lerp_vec;
use crate::matrix::rot_from_quat;
use crate::matrix::rot_from_euler;
use crate::matrix::compose_transform;
use crate::matrix::POS_MAX;

verus! {

/// Largest accepted duration, in microseconds.
pub const TIME_MAX: u64 = 1_000_000_000_000;

/// One quaternion-path frame: position blended linearly, rotation
/// interpolated between the resolved quaternions under the selected
/// law.
pub open spec fn spec_frame_quat(
    bp: VecModel,
    ep: VecModel,
    bq: QuatModel,
    eq: QuatModel,
    t: int,
    ty: QuaternionInterpolationType,
) -> TransformModel {
    spec_compose(spec_lerp_vec(bp, ep, t), spec_rot_from_quat(spec_interpolate(bq, eq, t, ty)))
}

/// One Euler-path frame: position and Euler angles blended linearly,
/// the rotation matrix built from the blended angles.
pub open spec fn spec_frame_euler(
    bp: VecModel,
    ep: VecModel,
    be: VecModel,
    ee: VecModel,
    t: int,
) -> TransformModel {
    spec_compose(spec_lerp_vec(bp, ep, t), spec_rot_from_euler(spec_lerp_vec(be, ee, t)))
}

/// Quaternion-path frame, executable.
fn eval_frame_quat(
    bp: Vec3,
    ep: Vec3,
    bq: &Quat,
    eq: &Quat,
    t: i64,
    ty: &QuaternionInterpolationType,
) -> (r: Transform4)
    requires
        vec_within(bp@, POS_MAX as int),
        vec_within(ep@, POS_MAX as int),
        quat_within(bq@, CAND_COMP_MAX as int),
        quat_within(eq@, CAND_COMP_MAX as int),
        0 <= t <= ONE,
    ensures
        r@ == spec_frame_quat(bp@, ep@, bq@, eq@, t as int, *ty),
{
    let pos = lerp_vec(bp, ep, t, Ghost(POS_MAX as int));
    let q = get_quaternions_interpolation(bq, eq, t, ty);
    compose_transform(pos, rot_from_quat(q))
}

/// Euler-path frame, executable.
fn eval_frame_euler(bp: Vec3, ep: Vec3, be: Vec3, ee: Vec3, t: i64) -> (r: Transform4)
    requires
        vec_within(bp@, POS_MAX as int),
        vec_within(ep@, POS_MAX as int),
        vec_within(be@, 2 * TURN as int),
        vec_within(ee@, 2 * TURN as int),
        0 <= t <= ONE,
    ensures
        r@ == spec_frame_euler(bp@, ep@, be@, ee@, t as int),
{
    let pos = lerp_vec(bp, ep, t, Ghost(POS_MAX as int));
    let e = lerp_vec(be, ee, t, Ghost(2 * TURN as int));
    compose_transform(pos, rot_from_euler(e))
}

/// The frame fraction `f / (n - 1)` in fixed point.
pub open spec fn spec_fraction(f: int, n: int) -> int {
    f * (ONE as int) / (n - 1)
}

/// The frame fraction runs from exactly `0` at the first frame to
/// exactly `ONE` at the last.
pub proof fn lemma_fraction_range(f: int, n: int)
    requires
        2 <= n,
        0 <= f < n,
    ensures
        0 <= spec_fraction(f, n) <= ONE,
        f == 0 ==> spec_fraction(f, n) == 0,
        f == n - 1 ==> spec_fraction(f, n) == ONE,
{
    lemma_div_pos_is_pos(f * (ONE as int), n - 1);
    assert(f * (ONE as int) <= (n - 1) * (ONE as int)) by (nonlinear_arith)
        requires 0 <= f <= n - 1;
    lemma_div_is_ordered(f * (ONE as int), (n - 1) * (ONE as int), n - 1);
    lemma_div_multiples_vanish(ONE as int, n - 1);
    if f == 0 {
        assert(0 * (ONE as int) == 0) by (nonlinear_arith);
        vstd::arithmetic::div_mod::lemma_div_of0(n - 1);
    }
    if f == n - 1 {
        assert(f * (ONE as int) == (n - 1) * (ONE as int));
    }
}

/// One animation: per-tick stepping and the two frame tracks.
pub trait Animation {
    /// Well-formed state.
    spec fn wf(&self) -> bool;

    /// The frame tracks may be queried.
    spec fn frames_ready(&self) -> bool;

    /// The quaternion-path track in the current state.
    spec fn quaternion_frames_model(&self) -> Seq<TransformModel>;

    /// The Euler-path track in the current state.
    spec fn euler_frames_model(&self) -> Seq<TransformModel>;

    /// How one step transforms the state.
    spec fn step_post(&self, time_elapsed: u64, post: &Self) -> bool;

    /// Advance the animation by one tick.
    fn make_step(&mut self, time_elapsed: u64)
        requires
            old(self).wf(),
        ensures
            final(self).wf(),
            final(self).frames_ready(),
            old(self).step_post(time_elapsed, final(self)),
    ;

    /// The quaternion-path transforms.
    fn get_quaternion_frames(&self) -> (r: Vec<Transform4>)
        requires
            self.wf(),
            self.frames_ready(),
        ensures
            r@.len() == self.quaternion_frames_model().len(),
            forall|i: int|
                0 <= i < r@.len() ==> r@[i]@ == self.quaternion_frames_model()[i],
    ;

    /// The Euler-path transforms.
    fn get_euler_frames(&self) -> (r: Vec<Transform4>)
        requires
            self.wf(),
            self.frames_ready(),
        ensures
            r@.len() == self.euler_frames_model().len(),
            forall|i: int| 0 <= i < r@.len() ==> r@[i]@ == self.euler_frames_model()[i],
    ;
}

/// The frame cache of a discrete animation: absent until the first
/// step, then built once and kept for the lifetime of the instance.
#[derive(Clone, Debug)]
pub enum FrameCache {
    Pending,
    Ready { quaternion_frames: Vec<Transform4>, euler_frames: Vec<Transform4> },
}

/// A frame-count-driven animation: the first step bakes all frames,
/// and every further step is a no-op.
#[derive(Clone, Debug)]
pub struct DiscreteFrameAnimation {
    pub begin_position: Vec3,
    pub end_position: Vec3,
    pub frames_count: u8,
    pub begin_angle: AnimationAngle,
    pub end_angle: AnimationAngle,
    pub quaternion_interpolation_type: QuaternionInterpolationType,
    pub cache: FrameCache,
}

impl DiscreteFrameAnimation {
    /// The configuration is within the library's accepted ranges.
    pub open spec fn inputs_wf(self) -> bool {
        &&& angle_wf(self.begin_angle@)
        &&& angle_wf(self.end_angle@)
        &&& vec_within(self.begin_position@, POS_MAX as int)
        &&& vec_within(self.end_position@, POS_MAX as int)
        &&& self.frames_count >= 2
    }

    /// Quaternion-path frame `f` of this configuration.
    pub open spec fn qframe_at(self, f: int) -> TransformModel {
        let r = spec_resolved_quats(self.begin_angle@, self.end_angle@);
        spec_frame_quat(
            self.begin_position@,
            self.end_position@,
            r.0,
            r.1,
            spec_fraction(f, self.frames_count as int),
            self.quaternion_interpolation_type,
        )
    }

    /// Euler-path frame `f` of this configuration.
    pub open spec fn eframe_at(self, f: int) -> TransformModel {
        let e = spec_resolved_eulers(self.begin_angle@, self.end_angle@);
        spec_frame_euler(
            self.begin_position@,
            self.end_position@,
            e.0,
            e.1,
            spec_fraction(f, self.frames_count as int),
        )
    }

    /// A built cache holds exactly the frames of this configuration.
    pub open spec fn cache_wf(self) -> bool {
        match self.cache {
            FrameCache::Pending => true,
            FrameCache::Ready { quaternion_frames, euler_frames } => {
                &&& quaternion_frames@.len() == self.frames_count
                &&& euler_frames@.len() == self.frames_count
                &&& forall|f: int|
                    0 <= f < self.frames_count ==> quaternion_frames@[f]@ == self.qframe_at(f)
                &&& forall|f: int|
                    0 <= f < self.frames_count ==> euler_frames@[f]@ == self.eframe_at(f)
            },
        }
    }

}

/// Copy a frame vector element by element.
fn copy_frames(v: &Vec<Transform4>) -> (r: Vec<Transform4>)
    ensures
        r@ =~= v@,
{
    let mut r: Vec<Transform4> = Vec::new();
    let mut i: usize = 0;
    while i < v.len()
        invariant
            0 <= i <= v@.len(),
            r@.len() == i,
            forall|k: int| 0 <= k < i ==> r@[k] == v@[k],
        decreases v@.len() - i,
    {
        r.push(v[i]);
        i = i + 1;
    }
    r
}

/// Bake the quaternion-path track: one frame per fraction step.
fn build_quat_track(
    bp: Vec3,
    ep: Vec3,
    bq: &Quat,
    eq: &Quat,
    ty: &QuaternionInterpolationType,
    n: u8,
) -> (r: Vec<Transform4>)
    requires
        vec_within(bp@, POS_MAX as int),
        vec_within(ep@, POS_MAX as int),
        quat_within(bq@, CAND_COMP_MAX as int),
        quat_within(eq@, CAND_COMP_MAX as int),
        n >= 2,
    ensures
        r@.len() == n,
        forall|f: int|
            0 <= f < n ==> r@[f]@ == spec_frame_quat(
                bp@,
                ep@,
                bq@,
                eq@,
                spec_fraction(f, n as int),
                *ty,
            ),
{
    let mut frames: Vec<Transform4> = Vec::new();
    let mut f: usize = 0;
    while f < n as usize
        invariant
            vec_within(bp@, POS_MAX as int),
            vec_within(ep@, POS_MAX as int),
            quat_within(bq@, CAND_COMP_MAX as int),
            quat_within(eq@, CAND_COMP_MAX as int),
            2 <= n,
            0 <= f <= n as int,
            frames@.len() == f,
            forall|k: int|
                0 <= k < f ==> frames@[k]@ == spec_frame_quat(
                    bp@,
                    ep@,
                    bq@,
                    eq@,
                    spec_fraction(k, n as int),
                    *ty,
                ),
        decreases n as int - f,
    {
        proof {
            lemma_fraction_range(f as int, n as int);
        }
        let t: i64 = ((f as u64 * (ONE as u64)) / ((n - 1) as u64)) as i64;
        frames.push(eval_frame_quat(bp, ep, bq, eq, t, ty));
        f = f + 1;
    }
    frames
}

/// Bake the Euler-path track: one frame per fraction step.
fn build_euler_track(bp: Vec3, ep: Vec3, be: Vec3, ee: Vec3, n: u8) -> (r: Vec<Transform4>)
    requires
        vec_within(bp@, POS_MAX as int),
        vec_within(ep@, POS_MAX as int),
        vec_within(be@, 2 * TURN as int),
        vec_within(ee@, 2 * TURN as int),
        n >= 2,
    ensures
        r@.len() == n,
        forall|f: int|
            0 <= f < n ==> r@[f]@ == spec_frame_euler(
                bp@,
                ep@,
                be@,
                ee@,
                spec_fraction(f, n as int),
            ),
{
    let mut frames: Vec<Transform4> = Vec::new();
    let mut f: usize = 0;
    while f < n as usize
        invariant
            vec_within(bp@, POS_MAX as int),
            vec_within(ep@, POS_MAX as int),
            vec_within(be@, 2 * TURN as int),
            vec_within(ee@, 2 * TURN as int),
            2 <= n,
            0 <= f <= n as int,
            frames@.len() == f,
            forall|k: int|
                0 <= k < f ==> frames@[k]@ == spec_frame_euler(
                    bp@,
                    ep@,
                    be@,
                    ee@,
                    spec_fraction(k, n as int),
                ),
        decreases n as int - f,
    {
        proof {
            lemma_fraction_range(f as int, n as int);
        }
        let t: i64 = ((f as u64 * (ONE as u64)) / ((n - 1) as u64)) as i64;
        frames.push(eval_frame_euler(bp, ep, be, ee, t));
        f = f + 1;
    }
    frames
}

impl Animation for DiscreteFrameAnimation {
    open spec fn wf(&self) -> bool {
        self.inputs_wf() && self.cache_wf()
    }

    open spec fn frames_ready(&self) -> bool {
        self.cache is Ready
    }

    open spec fn quaternion_frames_model(&self) -> Seq<TransformModel> {
        Seq::new(self.frames_count as nat, |f: int| self.qframe_at(f))
    }

    open spec fn euler_frames_model(&self) -> Seq<TransformModel> {
        Seq::new(self.frames_count as nat, |f: int| self.eframe_at(f))
    }

    /// The step bakes the cache once and never touches the
    /// configuration; the time argument is ignored.  A second step
    /// leaves the state exactly as it was.
    open spec fn step_post(&self, time_elapsed: u64, post: &Self) -> bool {
        &&& post.begin_position == self.begin_position
        &&& post.end_position == self.end_position
        &&& post.frames_count == self.frames_count
        &&& post.begin_angle == self.begin_angle
        &&& post.end_angle == self.end_angle
        &&& post.quaternion_interpolation_type == self.quaternion_interpolation_type
        &&& (self.frames_ready() ==> post.cache == self.cache)
    }

    fn make_step(&mut self, _time_elapsed: u64) {
        match &self.cache {
            FrameCache::Ready { .. } => {
                return;
            },
            FrameCache::Pending => {},
        }
        let (bq, be, eq, ee) = AnimationAngle::get_normalized_angles(
            &self.begin_angle,
            &self.end_angle,
        );
        let quaternion_frames = build_quat_track(
            self.begin_position,
            self.end_position,
            &bq,
            &eq,
            &self.quaternion_interpolation_type,
            self.frames_count,
        );
        let euler_frames = build_euler_track(
            self.begin_position,
            self.end_position,
            be,
            ee,
            self.frames_count,
        );
        let ghost pre = *self;
        self.cache = FrameCache::Ready { quaternion_frames, euler_frames };
        proof {
            assert forall|f: int| 0 <= f < self.frames_count implies self.qframe_at(f)
                == spec_frame_quat(
                    pre.begin_position@,
                    pre.end_position@,
                    bq@,
                    eq@,
                    spec_fraction(f, pre.frames_count as int),
                    pre.quaternion_interpolation_type,
                ) by {}
            assert forall|f: int| 0 <= f < self.frames_count implies self.eframe_at(f)
                == spec_frame_euler(
                    pre.begin_position@,
                    pre.end_position@,
                    be@,
                    ee@,
                    spec_fraction(f, pre.frames_count as int),
                ) by {}
        }
    }

    fn get_quaternion_frames(&self) -> (r: Vec<Transform4>) {
        match &self.cache {
            FrameCache::Ready { quaternion_frames, .. } => copy_frames(quaternion_frames),
            FrameCache::Pending => vstd::pervasive::unreached(),
        }
    }

    fn get_euler_frames(&self) -> (r: Vec<Transform4>) {
        match &self.cache {
            FrameCache::Ready { euler_frames, .. } => copy_frames(euler_frames),
            FrameCache::Pending => vstd::pervasive::unreached(),
        }
    }
}

/// A time-driven animation: a saturating clock and one live transform
/// per query, with no caching.
#[derive(Clone, Copy, Debug)]
pub struct ContinuousAnimation {
    pub begin_position: Vec3,
    pub end_position: Vec3,
    pub animation_time: u64,
    pub begin_angle: AnimationAngle,
    pub end_angle: AnimationAngle,
    pub quaternion_interpolation_type: QuaternionInterpolationType,
    pub time_elapsed: u64,
}

/// The clock fraction `elapsed / duration` runs from exactly `0` to
/// exactly `ONE` at saturation.
pub proof fn lemma_clock_fraction_range(e: int, at: int)
    requires
        0 < at,
        0 <= e <= at,
    ensures
        0 <= e * (ONE as int) / at <= ONE,
        e == 0 ==> e * (ONE as int) / at == 0,
        e == at ==> e * (ONE as int) / at == ONE,
{
    lemma_div_pos_is_pos(e * (ONE as int), at);
    assert(e * (ONE as int) <= at * (ONE as int)) by (nonlinear_arith)
        requires 0 <= e <= at;
    lemma_div_is_ordered(e * (ONE as int), at * (ONE as int), at);
    lemma_div_multiples_vanish(ONE as int, at);
    if e == 0 {
        assert(0 * (ONE as int) == 0) by (nonlinear_arith);
        vstd::arithmetic::div_mod::lemma_div_of0(at);
    }
    if e == at {
        assert(e * (ONE as int) == at * (ONE as int));
    }
}

impl ContinuousAnimation {
    /// The configuration is within the library's accepted ranges.
    pub open spec fn inputs_wf(self) -> bool {
        &&& angle_wf(self.begin_angle@)
        &&& angle_wf(self.end_angle@)
        &&& vec_within(self.begin_position@, POS_MAX as int)
        &&& vec_within(self.end_position@, POS_MAX as int)
        &&& 0 < self.animation_time <= TIME_MAX
    }

    /// The clock fraction of the current state, in fixed point.
    pub open spec fn fraction(self) -> int {
        self.time_elapsed * (ONE as int) / (self.animation_time as int)
    }

    /// The live quaternion-path transform of the current state.
    pub open spec fn qframe(self) -> TransformModel {
        let r = spec_resolved_quats(self.begin_angle@, self.end_angle@);
        spec_frame_quat(
            self.begin_position@,
            self.end_position@,
            r.0,
            r.1,
            self.fraction(),
            self.quaternion_interpolation_type,
        )
    }

    /// The live Euler-path transform of the current state.
    pub open spec fn eframe(self) -> TransformModel {
        let e = spec_resolved_eulers(self.begin_angle@, self.end_angle@);
        spec_frame_euler(self.begin_position@, self.end_position@, e.0, e.1, self.fraction())
    }
}

impl Animation for ContinuousAnimation {
    open spec fn wf(&self) -> bool {
        self.inputs_wf() && self.time_elapsed <= self.animation_time
    }

    open spec fn frames_ready(&self) -> bool {
        true
    }

    open spec fn quaternion_frames_model(&self) -> Seq<TransformModel> {
        seq![self.qframe()]
    }

    open spec fn euler_frames_model(&self) -> Seq<TransformModel> {
        seq![self.eframe()]
    }

    /// The step advances the clock by the tick, saturating at the
    /// duration, and never touches the configuration.
    open spec fn step_post(&self, time_elapsed: u64, post: &Self) -> bool {
        &&& post.begin_position == self.begin_position
        &&& post.end_position == self.end_position
        &&& post.animation_time == self.animation_time
        &&& post.begin_angle == self.begin_angle
        &&& post.end_angle == self.end_angle
        &&& post.quaternion_interpolation_type == self.quaternion_interpolation_type
        &&& post.time_elapsed == if self.time_elapsed + time_elapsed >= self.animation_time {
            self.animation_time as int
        } else {
            self.time_elapsed + time_elapsed
        }
    }

    fn make_step(&mut self, time_elapsed: u64) {
        let remaining: u64 = self.animation_time - self.time_elapsed;
        if time_elapsed >= remaining {
            self.time_elapsed = self.animation_time;
        } else {
            self.time_elapsed = self.time_elapsed + time_elapsed;
        }
    }

    fn get_quaternion_frames(&self) -> (r: Vec<Transform4>) {
        let (bq, _be, eq, _ee) = AnimationAngle::get_normalized_angles(
            &self.begin_angle,
            &self.end_angle,
        );
        proof {
            lemma_clock_fraction_range(self.time_elapsed as int, self.animation_time as int);
        }
        let t: i64 = ((self.time_elapsed * (ONE as u64)) / self.animation_time) as i64;
        let frame = eval_frame_quat(
            self.begin_position,
            self.end_position,
            &bq,
            &eq,
            t,
            &self.quaternion_interpolation_type,
        );
        let mut r: Vec<Transform4> = Vec::new();
        r.push(frame);
        r
    }

    fn get_euler_frames(&self) -> (r: Vec<Transform4>) {
        let (_bq, be, _eq, ee) = AnimationAngle::get_normalized_angles(
            &self.begin_angle,
            &self.end_angle,
        );
        proof {
            lemma_clock_fraction_range(self.time_elapsed as int, self.animation_time as int);
        }
        let t: i64 = ((self.time_elapsed * (ONE as u64)) / self.animation_time) as i64;
        let frame = eval_frame_euler(self.begin_position, self.end_position, be, ee, t);
        let mut r: Vec<Transform4> = Vec::new();
        r.push(frame);
        r
    }
}

/// The first and last frames of a discrete animation are exactly the
/// begin-pose and end-pose transforms, on both tracks: the begin (or
/// end) position with the rotation of the resolved begin (or end)
/// orientation.  With a frame count of two the track is exactly this
/// pair.
pub proof fn lemma_discrete_endpoint_frames(a: DiscreteFrameAnimation)
    requires
        a.inputs_wf(),
    ensures
        ({
            let r = spec_resolved_quats(a.begin_angle@, a.end_angle@);
            let e = spec_resolved_eulers(a.begin_angle@, a.end_angle@);
            let n = a.frames_count as int;
            &&& a.quaternion_frames_model().len() == n
            &&& a.euler_frames_model().len() == n
            &&& a.quaternion_frames_model()[0] == spec_compose(
                a.begin_position@,
                spec_rot_from_quat(crate::quaternion::spec_normalize(r.0)),
            )
            &&& a.quaternion_frames_model()[n - 1] == spec_compose(
                a.end_position@,
                spec_rot_from_quat(crate::quaternion::spec_normalize(r.1)),
            )
            &&& a.euler_frames_model()[0] == spec_compose(
                a.begin_position@,
                spec_rot_from_euler(e.0),
            )
            &&& a.euler_frames_model()[n - 1] == spec_compose(
                a.end_position@,
                spec_rot_from_euler(e.1),
            )
        }),
{
    let r = spec_resolved_quats(a.begin_angle@, a.end_angle@);
    let e = spec_resolved_eulers(a.begin_angle@, a.end_angle@);
    let n = a.frames_count as int;
    lemma_fraction_range(0, n);
    lemma_fraction_range(n - 1, n);
    crate::matrix::lemma_lerp_vec_ends(a.begin_position@, a.end_position@);
    crate::matrix::lemma_lerp_vec_ends(e.0, e.1);
    crate::interpolation::lemma_interp_endpoints(r.0, r.1, a.quaternion_interpolation_type);
}

/// Once the clock of a continuous animation has saturated, a further
/// step of any size leaves the whole state, and hence both frame
/// tracks, exactly unchanged.
pub proof fn lemma_saturated_step_is_noop(
    a: ContinuousAnimation,
    post: ContinuousAnimation,
    dt: u64,
)
    requires
        a.wf(),
        a.time_elapsed == a.animation_time,
        a.step_post(dt, &post),
    ensures
        post == a,
        post.quaternion_frames_model() == a.quaternion_frames_model(),
        post.euler_frames_model() == a.euler_frames_model(),
{
}

/// The clock of a continuous animation never decreases: every step
/// leaves it at least where it was, and never past the duration.
pub proof fn lemma_clock_monotone(a: ContinuousAnimation, post: ContinuousAnimation, dt: u64)
    requires
        a.wf(),
        a.step_post(dt, &post),
    ensures
        a.time_elapsed <= post.time_elapsed <= a.animation_time,
{
}

/// An all-zero Euler pair produces pure translation: at every fraction
/// and under either law, both tracks' frames carry the identity
/// rotation block.
pub proof fn lemma_degenerate_pair_translates(
    bp: VecModel,
    ep: VecModel,
    t: int,
    ty: QuaternionInterpolationType,
)
    requires
        0 <= t <= ONE,
    ensures
        ({
            let z = crate::angles::AngleModel::Euler(VecModel { x: 0, y: 0, z: 0 });
            let r = spec_resolved_quats(z, z);
            let e = spec_resolved_eulers(z, z);
            &&& spec_frame_quat(bp, ep, r.0, r.1, t, ty) == spec_compose(
                spec_lerp_vec(bp, ep, t),
                crate::matrix::spec_mat3_identity(),
            )
            &&& spec_frame_euler(bp, ep, e.0, e.1, t) == spec_compose(
                spec_lerp_vec(bp, ep, t),
                crate::matrix::spec_mat3_identity(),
            )
        }),
{
    let zv = VecModel { x: 0, y: 0, z: 0 };
    crate::angles::lemma_resolved_zero_pair();
    crate::interpolation::lemma_interp_identity(t, ty);
    crate::matrix::lemma_rot_identity();
    assert((ONE - t) * 0 + t * 0 == 0) by (nonlinear_arith);
    vstd::arithmetic::div_mod::lemma_div_of0(ONE as int);
    assert(spec_lerp_vec(zv, zv, t) == zv);
    crate::matrix::lemma_rot_from_euler_zero();
}

/// Step-by-step construction of a discrete animation, validated on
/// build.
#[derive(Clone, Copy, Debug)]
pub struct DiscreteFrameAnimationBuilder {
    pub begin_position: Option<Vec3>,
    pub end_position: Option<Vec3>,
    pub frames_count: Option<u8>,
    pub begin_angle: Option<AnimationAngle>,
    pub end_angle: Option<AnimationAngle>,
    pub quaternion_interpolation_type: Option<QuaternionInterpolationType>,
}

impl Default for DiscreteFrameAnimationBuilder {
    /// The empty builder: no field set.
    fn default() -> (r: Self)
        ensures
            r.begin_position is None,
            r.end_position is None,
            r.frames_count is None,
            r.begin_angle is None,
            r.end_angle is None,
            r.quaternion_interpolation_type is None,
    {
        DiscreteFrameAnimationBuilder {
            begin_position: None,
            end_position: None,
            frames_count: None,
            begin_angle: None,
            end_angle: None,
            quaternion_interpolation_type: None,
        }
    }
}

impl DiscreteFrameAnimationBuilder {
    /// Set the begin position.
    pub fn begin_position(self, v: Vec3) -> (r: Self)
        ensures
            r == (Self { begin_position: Some(v), ..self }),
    {
        Self { begin_position: Some(v), ..self }
    }

    /// Set the end position.
    pub fn end_position(self, v: Vec3) -> (r: Self)
        ensures
            r == (Self { end_position: Some(v), ..self }),
    {
        Self { end_position: Some(v), ..self }
    }

    /// Set the frame count.
    pub fn frames_count(self, v: u8) -> (r: Self)
        ensures
            r == (Self { frames_count: Some(v), ..self }),
    {
        Self { frames_count: Some(v), ..self }
    }

    /// Set the begin rotation.
    pub fn begin_angle(self, v: AnimationAngle) -> (r: Self)
        ensures
            r == (Self { begin_angle: Some(v), ..self }),
    {
        Self { begin_angle: Some(v), ..self }
    }

    /// Set the end rotation.
    pub fn end_angle(self, v: AnimationAngle) -> (r: Self)
        ensures
            r == (Self { end_angle: Some(v), ..self }),
    {
        Self { end_angle: Some(v), ..self }
    }

    /// Set the interpolation law.
    pub fn quaternion_interpolation_type(self, v: QuaternionInterpolationType) -> (r: Self)
        ensures
            r == (Self { quaternion_interpolation_type: Some(v), ..self }),
    {
        Self { quaternion_interpolation_type: Some(v), ..self }
    }

    /// A set frame count below two is rejected.
    pub open spec fn frames_count_acceptable(self) -> bool {
        match self.frames_count {
            Some(fc) => fc >= 2,
            None => true,
        }
    }

    /// Every field is set and within the library's accepted ranges.
    pub open spec fn buildable(self) -> bool {
        &&& self.begin_position matches Some(bp) && vec_within(bp@, POS_MAX as int)
        &&& self.end_position matches Some(ep) && vec_within(ep@, POS_MAX as int)
        &&& self.frames_count matches Some(fc) && fc >= 2
        &&& self.begin_angle matches Some(ba) && angle_wf(ba@)
        &&& self.end_angle matches Some(ea) && angle_wf(ea@)
        &&& self.quaternion_interpolation_type is Some
    }

    /// Check the frame count: fails, naming the reason, exactly when a
    /// count below two has been set.
    pub fn validate(&self) -> (r: Result<(), String>)
        ensures
            r is Ok <==> self.frames_count_acceptable(),
            r matches Err(m) ==> m@ == "Frames count too low"@,
    {
        if let Some(fc) = self.frames_count {
            if fc >= 2 {
                return Ok(());
            } else {
                proof {
                    reveal_strlit("Frames count too low");
                }
                return Result::Err(String::from_str("Frames count too low"));
            }
        } else {
            return Ok(());
        }
    }

    /// Build the animation: succeeds exactly when every field is set
    /// and acceptable; the cache starts out pending.
    pub fn build(&self) -> (r: Result<DiscreteFrameAnimation, String>)
        ensures
            r is Ok <==> self.buildable(),
            r matches Ok(a) ==> {
                &&& a.begin_position == self.begin_position.unwrap()
                &&& a.end_position == self.end_position.unwrap()
                &&& a.frames_count == self.frames_count.unwrap()
                &&& a.begin_angle == self.begin_angle.unwrap()
                &&& a.end_angle == self.end_angle.unwrap()
                &&& a.quaternion_interpolation_type
                    == self.quaternion_interpolation_type.unwrap()
                &&& a.cache is Pending
                &&& a.wf()
                &&& !a.frames_ready()
            },
    {
        if let Err(e) = self.validate() {
            return Err(e);
        }
        let bp = match self.begin_position {
            Some(v) => v,
            None => {
                return Err(String::from_str("begin position not set"));
            },
        };
        if !(-POS_MAX <= bp.x && bp.x <= POS_MAX && -POS_MAX <= bp.y && bp.y <= POS_MAX
            && -POS_MAX <= bp.z && bp.z <= POS_MAX) {
            return Err(String::from_str("begin position out of range"));
        }
        let ep = match self.end_position {
            Some(v) => v,
            None => {
                return Err(String::from_str("end position not set"));
            },
        };
        if !(-POS_MAX <= ep.x && ep.x <= POS_MAX && -POS_MAX <= ep.y && ep.y <= POS_MAX
            && -POS_MAX <= ep.z && ep.z <= POS_MAX) {
            return Err(String::from_str("end position out of range"));
        }
        let fc = match self.frames_count {
            Some(v) => v,
            None => {
                return Err(String::from_str("frames count not set"));
            },
        };
        let ba = match self.begin_angle {
            Some(v) => v,
            None => {
                return Err(String::from_str("begin angle not set"));
            },
        };
        if !angle_in_range(&ba) {
            return Err(String::from_str("begin angle out of range"));
        }
        let ea = match self.end_angle {
            Some(v) => v,
            None => {
                return Err(String::from_str("end angle not set"));
            },
        };
        if !angle_in_range(&ea) {
            return Err(String::from_str("end angle out of range"));
        }
        let ty = match self.quaternion_interpolation_type {
            Some(v) => v,
            None => {
                return Err(String::from_str("interpolation type not set"));
            },
        };
        Ok(DiscreteFrameAnimation {
            begin_position: bp,
            end_position: ep,
            frames_count: fc,
            begin_angle: ba,
            end_angle: ea,
            quaternion_interpolation_type: ty,
            cache: FrameCache::Pending,
        })
    }
}

/// Range check of a rotation input, exactly `angle_wf`.
fn angle_in_range(a: &AnimationAngle) -> (r: bool)
    ensures
        r == angle_wf(a@),
{
    match a {
        AnimationAngle::Quternion(q) => {
            let m = crate::quaternion::RAW_COMP_MAX;
            -m <= q.w && q.w <= m && -m <= q.x && q.x <= m && -m <= q.y && q.y <= m && -m <= q.z
                && q.z <= m
        },
        AnimationAngle::Euler(e) => {
            e.x > i64::MIN && e.y > i64::MIN && e.z > i64::MIN
        },
    }
}

/// Step-by-step construction of a continuous animation, validated on
/// build.
#[derive(Clone, Copy, Debug)]
pub struct ContinuousAnimationBuilder {
    pub begin_position: Option<Vec3>,
    pub end_position: Option<Vec3>,
    pub animation_time: Option<u64>,
    pub begin_angle: Option<AnimationAngle>,
    pub end_angle: Option<AnimationAngle>,
    pub quaternion_interpolation_type: Option<QuaternionInterpolationType>,
}

impl Default for ContinuousAnimationBuilder {
    /// The empty builder: no field set.
    fn default() -> (r: Self)
        ensures
            r.begin_position is None,
            r.end_position is None,
            r.animation_time is None,
            r.begin_angle is None,
            r.end_angle is None,
            r.quaternion_interpolation_type is None,
    {
        ContinuousAnimationBuilder {
            begin_position: None,
            end_position: None,
            animation_time: None,
            begin_angle: None,
            end_angle: None,
            quaternion_interpolation_type: None,
        }
    }
}

impl ContinuousAnimationBuilder {
    /// Set the begin position.
    pub fn begin_position(self, v: Vec3) -> (r: Self)
        ensures
            r == (Self { begin_position: Some(v), ..self }),
    {
        Self { begin_position: Some(v), ..self }
    }

    /// Set the end position.
    pub fn end_position(self, v: Vec3) -> (r: Self)
        ensures
            r == (Self { end_position: Some(v), ..self }),
    {
        Self { end_position: Some(v), ..self }
    }

    /// Set the duration, in microseconds.
    pub fn animation_time(self, v: u64) -> (r: Self)
        ensures
            r == (Self { animation_time: Some(v), ..self }),
    {
        Self { animation_time: Some(v), ..self }
    }

    /// Set the begin rotation.
    pub fn begin_angle(self, v: AnimationAngle) -> (r: Self)
        ensures
            r == (Self { begin_angle: Some(v), ..self }),
    {
        Self { begin_angle: Some(v), ..self }
    }

    /// Set the end rotation.
    pub fn end_angle(self, v: AnimationAngle) -> (r: Self)
        ensures
            r == (Self { end_angle: Some(v), ..self }),
    {
        Self { end_angle: Some(v), ..self }
    }

    /// Set the interpolation law.
    pub fn quaternion_interpolation_type(self, v: QuaternionInterpolationType) -> (r: Self)
        ensures
            r == (Self { quaternion_interpolation_type: Some(v), ..self }),
    {
        Self { quaternion_interpolation_type: Some(v), ..self }
    }

    /// Every field is set and within the library's accepted ranges; a
    /// duration of zero is rejected.
    pub open spec fn buildable(self) -> bool {
        &&& self.begin_position matches Some(bp) && vec_within(bp@, POS_MAX as int)
        &&& self.end_position matches Some(ep) && vec_within(ep@, POS_MAX as int)
        &&& self.animation_time matches Some(at) && 0 < at <= TIME_MAX
        &&& self.begin_angle matches Some(ba) && angle_wf(ba@)
        &&& self.end_angle matches Some(ea) && angle_wf(ea@)
        &&& self.quaternion_interpolation_type is Some
    }

    /// Build the animation: succeeds exactly when every field is set
    /// and acceptable; the clock starts at zero.
    pub fn build(&self) -> (r: Result<ContinuousAnimation, String>)
        ensures
            r is Ok <==> self.buildable(),
            r matches Ok(a) ==> {
                &&& a.begin_position == self.begin_position.unwrap()
                &&& a.end_position == self.end_position.unwrap()
                &&& a.animation_time == self.animation_time.unwrap()
                &&& a.begin_angle == self.begin_angle.unwrap()
                &&& a.end_angle == self.end_angle.unwrap()
                &&& a.quaternion_interpolation_type
                    == self.quaternion_interpolation_type.unwrap()
                &&& a.time_elapsed == 0
                &&& a.wf()
            },
    {
        let bp = match self.begin_position {
            Some(v) => v,
            None => {
                return Err(String::from_str("begin position not set"));
            },
        };
        if !(-POS_MAX <= bp.x && bp.x <= POS_MAX && -POS_MAX <= bp.y && bp.y <= POS_MAX
            && -POS_MAX <= bp.z && bp.z <= POS_MAX) {
            return Err(String::from_str("begin position out of range"));
        }
        let ep = match self.end_position {
            Some(v) => v,
            None => {
                return Err(String::from_str("end position not set"));
            },
        };
        if !(-POS_MAX <= ep.x && ep.x <= POS_MAX && -POS_MAX <= ep.y && ep.y <= POS_MAX
            && -POS_MAX <= ep.z && ep.z <= POS_MAX) {
            return Err(String::from_str("end position out of range"));
        }
        let at = match self.animation_time {
            Some(v) => v,
            None => {
                return Err(String::from_str("animation time not set"));
            },
        };
        if at == 0 || at > TIME_MAX {
            return Err(String::from_str("animation time out of range"));
        }
        let ba = match self.begin_angle {
            Some(v) => v,
            None => {
                return Err(String::from_str("begin angle not set"));
            },
        };
        if !angle_in_range(&ba) {
            return Err(String::from_str("begin angle out of range"));
        }
        let ea = match self.end_angle {
            Some(v) => v,
            None => {
                return Err(String::from_str("end angle not set"));
            },
        };
        if !angle_in_range(&ea) {
            return Err(String::from_str("end angle out of range"));
        }
        let ty = match self.quaternion_interpolation_type {
            Some(v) => v,
            None => {
                return Err(String::from_str("interpolation type not set"));
            },
        };
        Ok(ContinuousAnimation {
            begin_position: bp,
            end_position: ep,
            animation_time: at,
            begin_angle: ba,
            end_angle: ea,
            quaternion_interpolation_type: ty,
            time_elapsed: 0,
        })
    }
}

} // verus!