use movement_interpolation::angles::AnimationAngle;
use movement_interpolation::animation::Animation;
use movement_interpolation::animation::ContinuousAnimationBuilder;
use movement_interpolation::animation::DiscreteFrameAnimationBuilder;
use movement_interpolation::animation_data::QuaternionInterpolationType;
use movement_interpolation::interpolation::get_quaternions_interpolation;
use movement_interpolation::quaternion::Quat;
use movement_interpolation::quaternion::Vec3;

const ONE: i64 = 1_000_000;

fn euler_angle(x: i64, y: i64, z: i64) -> AnimationAngle {
    AnimationAngle::new_euler(Vec3 { x, y, z })
}

#[test]
fn spherical_halfway_is_exact_quarter_turn() {
    // Identity to a 180-degree x rotation at t = 1/2 under the
    // spherical law: the result has equal w and x components and no
    // other, which is exactly a 90-degree rotation about x.
    let begin = Quat { w: ONE, x: 0, y: 0, z: 0 };
    let end = Quat { w: 0, x: ONE, y: 0, z: 0 };
    let r = get_quaternions_interpolation(
        &begin,
        &end,
        ONE / 2,
        &QuaternionInterpolationType::Spherical,
    );
    assert_eq!(r.w, r.x);
    assert!(r.w > 0);
    assert_eq!(r.y, 0);
    assert_eq!(r.z, 0);
}

#[test]
fn linear_speed_is_not_constant() {
    // At t = 1/4 the two laws disagree: the linear blend, even after
    // renormalization, does not move at constant angular velocity.
    let begin = Quat { w: ONE, x: 0, y: 0, z: 0 };
    let end = Quat { w: 0, x: ONE, y: 0, z: 0 };
    let lin = get_quaternions_interpolation(
        &begin,
        &end,
        ONE / 4,
        &QuaternionInterpolationType::Linear,
    );
    let sph = get_quaternions_interpolation(
        &begin,
        &end,
        ONE / 4,
        &QuaternionInterpolationType::Spherical,
    );
    // Spherical gives 22.5 degrees, linear about 18.4 degrees.
    assert!((lin.w - sph.w).abs() > 10_000);
    let lin_angle = 2.0 * f64::acos(lin.w as f64 / ONE as f64).to_degrees();
    let sph_angle = 2.0 * f64::acos(sph.w as f64 / ONE as f64).to_degrees();
    assert!((sph_angle - 45.0).abs() < 0.5, "spherical angle {}", sph_angle);
    assert!((lin_angle - 36.87).abs() < 0.5, "linear angle {}", lin_angle);
}

#[test]
fn laws_agree_exactly_at_the_ends() {
    let begin = Quat { w: 900_000, x: 300_000, y: 200_000, z: 100_000 };
    let end = Quat { w: 0, x: ONE, y: 0, z: 0 };
    for t in [0i64, ONE] {
        let lin =
            get_quaternions_interpolation(&begin, &end, t, &QuaternionInterpolationType::Linear);
        let sph = get_quaternions_interpolation(
            &begin,
            &end,
            t,
            &QuaternionInterpolationType::Spherical,
        );
        assert_eq!(lin, sph);
    }
}

#[test]
fn discrete_builder_rejects_low_frame_counts() {
    for fc in [0u8, 1u8] {
        let r = DiscreteFrameAnimationBuilder::default()
            .frames_count(fc)
            .begin_position(Vec3 { x: 0, y: 0, z: 0 })
            .end_position(Vec3 { x: 0, y: 0, z: 0 })
            .begin_angle(euler_angle(0, 0, 0))
            .end_angle(euler_angle(0, 0, 0))
            .quaternion_interpolation_type(QuaternionInterpolationType::Linear)
            .build();
        assert_eq!(r.unwrap_err(), "Frames count too low");
    }
}

#[test]
fn discrete_builder_rejects_missing_fields() {
    assert!(DiscreteFrameAnimationBuilder::default().build().is_err());
}

#[test]
fn discrete_two_frames_are_begin_and_end() {
    // frames_count = 2 succeeds and bakes exactly the begin and end
    // transforms.
    let mut a = DiscreteFrameAnimationBuilder::default()
        .frames_count(2)
        .begin_position(Vec3 { x: 0, y: 0, z: 0 })
        .end_position(Vec3 { x: ONE, y: 2 * ONE, z: 0 })
        .begin_angle(euler_angle(0, 0, 0))
        .end_angle(euler_angle(90_000, 0, 0))
        .quaternion_interpolation_type(QuaternionInterpolationType::Spherical)
        .build()
        .unwrap();
    a.make_step(123);
    let q = a.get_quaternion_frames();
    let e = a.get_euler_frames();
    assert_eq!(q.len(), 2);
    assert_eq!(e.len(), 2);
    // Frame 0: begin pose, identity rotation, begin translation.
    assert_eq!((q[0].m03, q[0].m13, q[0].m23), (0, 0, 0));
    assert_eq!((q[0].m00, q[0].m11, q[0].m22), (ONE, ONE, ONE));
    // Frame 1: end pose, 90 degrees about x, end translation.
    assert_eq!((q[1].m03, q[1].m13, q[1].m23), (ONE, 2 * ONE, 0));
    assert!(q[1].m11.abs() < 5_000, "cos 90 entry {}", q[1].m11);
    assert!((q[1].m21 - ONE).abs() < 5_000, "sin 90 entry {}", q[1].m21);
    assert!((q[1].m12 + ONE).abs() < 5_000);
    // The Euler track agrees at both ends.
    assert_eq!((e[0].m03, e[0].m13, e[0].m23), (0, 0, 0));
    assert_eq!((e[1].m03, e[1].m13, e[1].m23), (ONE, 2 * ONE, 0));
    assert!((e[1].m21 - ONE).abs() < 5_000);
    // The last row is homogeneous.
    assert_eq!((q[1].m30, q[1].m31, q[1].m32, q[1].m33), (0, 0, 0, ONE));
}

#[test]
fn discrete_step_is_one_shot() {
    let mut a = DiscreteFrameAnimationBuilder::default()
        .frames_count(5)
        .begin_position(Vec3 { x: 0, y: 0, z: 0 })
        .end_position(Vec3 { x: ONE, y: 0, z: 0 })
        .begin_angle(euler_angle(10_000, 20_000, 30_000))
        .end_angle(euler_angle(350_000, 20_000, 30_000))
        .quaternion_interpolation_type(QuaternionInterpolationType::Linear)
        .build()
        .unwrap();
    a.make_step(1);
    let first = a.get_quaternion_frames();
    a.make_step(1_000_000);
    let second = a.get_quaternion_frames();
    assert_eq!(first, second);
    assert_eq!(first.len(), 5);
}

#[test]
fn continuous_builder_rejects_zero_duration() {
    let r = ContinuousAnimationBuilder::default()
        .animation_time(0)
        .begin_position(Vec3 { x: 0, y: 0, z: 0 })
        .end_position(Vec3 { x: 0, y: 0, z: 0 })
        .begin_angle(euler_angle(0, 0, 0))
        .end_angle(euler_angle(0, 0, 0))
        .quaternion_interpolation_type(QuaternionInterpolationType::Linear)
        .build();
    assert!(r.is_err());
}

#[test]
fn continuous_clock_saturates() {
    // Stepping past the duration pins the clock there, and further
    // steps change nothing observable.
    let mut a = ContinuousAnimationBuilder::default()
        .animation_time(1_000_000)
        .begin_position(Vec3 { x: 0, y: 0, z: 0 })
        .end_position(Vec3 { x: ONE, y: 0, z: 0 })
        .begin_angle(euler_angle(0, 0, 0))
        .end_angle(euler_angle(0, 0, 90_000))
        .quaternion_interpolation_type(QuaternionInterpolationType::Spherical)
        .build()
        .unwrap();
    a.make_step(400_000);
    assert_eq!(a.time_elapsed, 400_000);
    a.make_step(700_000);
    assert_eq!(a.time_elapsed, 1_000_000);
    let at_end = a.get_quaternion_frames();
    a.make_step(123_456);
    assert_eq!(a.time_elapsed, 1_000_000);
    assert_eq!(a.get_quaternion_frames(), at_end);
    assert_eq!(at_end.len(), 1);
    // Saturated: the single live frame carries the end translation.
    assert_eq!(at_end[0].m03, ONE);
}

#[test]
fn continuous_emits_one_frame_per_query() {
    let a = ContinuousAnimationBuilder::default()
        .animation_time(2_000_000)
        .begin_position(Vec3 { x: 0, y: 0, z: 0 })
        .end_position(Vec3 { x: 0, y: ONE, z: 0 })
        .begin_angle(euler_angle(0, 0, 0))
        .end_angle(euler_angle(0, 90_000, 0))
        .quaternion_interpolation_type(QuaternionInterpolationType::Linear)
        .build()
        .unwrap();
    assert_eq!(a.get_quaternion_frames().len(), 1);
    assert_eq!(a.get_euler_frames().len(), 1);
}

#[test]
fn degenerate_pair_is_pure_translation() {
    // Begin and end Euler (0,0,0): no zero-quaternion singularity, the
    // rotation block of every frame is exactly the identity.
    let mut a = DiscreteFrameAnimationBuilder::default()
        .frames_count(4)
        .begin_position(Vec3 { x: 0, y: 0, z: 0 })
        .end_position(Vec3 { x: 3 * ONE, y: 0, z: 0 })
        .begin_angle(euler_angle(0, 0, 0))
        .end_angle(euler_angle(0, 0, 0))
        .quaternion_interpolation_type(QuaternionInterpolationType::Spherical)
        .build()
        .unwrap();
    a.make_step(0);
    for f in a.get_quaternion_frames().iter().chain(a.get_euler_frames().iter()) {
        assert_eq!((f.m00, f.m11, f.m22), (ONE, ONE, ONE));
        assert_eq!((f.m01, f.m02, f.m10, f.m12, f.m20, f.m21), (0, 0, 0, 0, 0, 0));
    }
}

#[test]
fn euler_track_wraps_the_short_way() {
    // Begin 350 deg, end 10 deg about x: halfway the Euler track sits
    // at 0 degrees, not at 180.
    let mut a = DiscreteFrameAnimationBuilder::default()
        .frames_count(3)
        .begin_position(Vec3 { x: 0, y: 0, z: 0 })
        .end_position(Vec3 { x: 0, y: 0, z: 0 })
        .begin_angle(euler_angle(350_000, 0, 0))
        .end_angle(euler_angle(10_000, 0, 0))
        .quaternion_interpolation_type(QuaternionInterpolationType::Linear)
        .build()
        .unwrap();
    a.make_step(0);
    let e = a.get_euler_frames();
    // The middle frame's rotation is the identity (0 degrees).
    assert!((e[1].m00 - ONE).abs() < 5_000);
    assert!(e[1].m21.abs() < 5_000);
}
