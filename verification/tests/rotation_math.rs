use movement_interpolation::angles::AnimationAngle;
use movement_interpolation::quaternion::Quat;
use movement_interpolation::quaternion::Vec3;
use movement_interpolation::trig::acos_fp;
use movement_interpolation::trig::asin_fp;
use movement_interpolation::trig::atan2_fp;
use movement_interpolation::trig::cos_fp;
use movement_interpolation::trig::sin_fp;

const ONE: i64 = 1_000_000;
const TURN: i64 = 360_000;

fn assert_close(actual: i64, expected: f64, tol: f64) {
    let a = actual as f64 / ONE as f64;
    assert!(
        (a - expected).abs() < tol,
        "value {} not within {} of {}",
        a,
        tol,
        expected
    );
}

#[test]
fn wrap_into_one_turn() {
    assert_eq!(AnimationAngle::normalize_angle(0), 0);
    assert_eq!(AnimationAngle::normalize_angle(-90_000), 270_000);
    assert_eq!(AnimationAngle::normalize_angle(730_000), 10_000);
    assert_eq!(AnimationAngle::normalize_angle(TURN), 0);
    assert_eq!(AnimationAngle::normalize_angle(-TURN), 0);
}

#[test]
fn wrap_is_idempotent() {
    for a in [-123_456_789i64, -1, 0, 359_999, 360_001, 987_654_321] {
        let w = AnimationAngle::normalize_angle(a);
        assert_eq!(AnimationAngle::normalize_angle(w), w);
    }
}

#[test]
fn shortest_path_wraps_through_zero() {
    // begin 350 deg, end 10 deg: the resolved delta is +20 deg, never -340.
    let (b, e) = AnimationAngle::angles_shortest_path(350_000, 10_000);
    assert_eq!(e - b, 20_000);
    assert_eq!((b, e), (-10_000, 10_000));
}

#[test]
fn shortest_path_wraps_backwards() {
    let (b, e) = AnimationAngle::angles_shortest_path(10_000, 350_000);
    assert_eq!(e - b, -20_000);
}

#[test]
fn shortest_path_short_deltas_untouched() {
    assert_eq!(
        AnimationAngle::angles_shortest_path(30_000, 150_000),
        (30_000, 150_000)
    );
    assert_eq!(AnimationAngle::angles_shortest_path(0, 180_000), (0, 180_000));
}

#[test]
fn sine_matches_reference() {
    let mut a = 0i64;
    while a < TURN {
        let rad = (a as f64 / 1000.0).to_radians();
        assert_close(sin_fp(a), rad.sin(), 0.002);
        assert_close(cos_fp(a), rad.cos(), 0.002);
        a += 10_000;
    }
}

#[test]
fn sine_exact_points() {
    assert_eq!(sin_fp(0), 0);
    assert_eq!(sin_fp(90_000), ONE);
    assert_eq!(sin_fp(180_000), 0);
    assert_eq!(sin_fp(270_000), -ONE);
    assert_eq!(cos_fp(0), ONE);
    assert_eq!(cos_fp(180_000), -ONE);
}

#[test]
fn inverse_trig_exact_points() {
    assert_eq!(asin_fp(ONE), 90_000);
    assert_eq!(asin_fp(-ONE), -90_000);
    assert_eq!(asin_fp(0), 0);
    assert_eq!(acos_fp(ONE), 0);
    assert_eq!(acos_fp(0), 90_000);
    assert_eq!(acos_fp(-ONE), 180_000);
}

#[test]
fn atan2_quadrants() {
    assert_eq!(atan2_fp(0, ONE), 0);
    assert_eq!(atan2_fp(ONE, 0), 90_000);
    assert_eq!(atan2_fp(0, -ONE), 180_000);
    assert_eq!(atan2_fp(-ONE, 0), -90_000);
    // 45 degrees in every quadrant, within the approximation tolerance.
    assert!((atan2_fp(ONE, ONE) - 45_000).abs() < 200);
    assert!((atan2_fp(ONE, -ONE) - 135_000).abs() < 200);
}

#[test]
fn normalize_rescales_exactly() {
    let q = Quat { w: 2 * ONE, x: 0, y: 0, z: 0 };
    assert_eq!(q.normalize(), Quat { w: ONE, x: 0, y: 0, z: 0 });
}

#[test]
fn normalize_guards_near_zero() {
    // The all-zero quaternion and anything of norm below 1e-3 become
    // the identity instead of dividing by (nearly) zero.
    let zero = Quat { w: 0, x: 0, y: 0, z: 0 };
    assert_eq!(zero.normalize(), Quat { w: ONE, x: 0, y: 0, z: 0 });
    let tiny = Quat { w: 500, x: 100, y: 0, z: 0 };
    assert_eq!(tiny.normalize(), Quat { w: ONE, x: 0, y: 0, z: 0 });
}

#[test]
fn euler_quaternion_round_trip_preserves_rotation() {
    // Construct from an Euler triple, deconstruct, feed the quaternion
    // back in as a raw quaternion input, and deconstruct again: the
    // rotation matrices agree within tolerance even though the raw
    // triples may differ.
    let e = Vec3 { x: 30_000, y: 40_000, z: 50_000 };
    let a = AnimationAngle::new_euler(e);
    let (q1, e1) = a.deconstruct();
    let b = AnimationAngle::new_quternion(q1);
    let (q2, e2) = b.deconstruct();
    let m1 = movement_interpolation::matrix::rot_from_euler(e1);
    let m2 = movement_interpolation::matrix::rot_from_euler(e2);
    for (x, y) in [
        (m1.m00, m2.m00),
        (m1.m01, m2.m01),
        (m1.m02, m2.m02),
        (m1.m10, m2.m10),
        (m1.m11, m2.m11),
        (m1.m12, m2.m12),
        (m1.m20, m2.m20),
        (m1.m21, m2.m21),
        (m1.m22, m2.m22),
    ] {
        assert!((x - y).abs() < 15_000, "entries {} and {} differ", x, y);
    }
    assert_eq!(q2, q1.normalize());
}

#[test]
fn rotation_matrix_matches_quaternion_matrix() {
    // The two rotation constructions (from the quaternion, from the
    // Euler triple) describe the same rotation for one input.
    let e = Vec3 { x: 20_000, y: 70_000, z: 110_000 };
    let (q, we) = AnimationAngle::new_euler(e).deconstruct();
    let mq = movement_interpolation::matrix::rot_from_quat(q);
    let me = movement_interpolation::matrix::rot_from_euler(we);
    for (x, y) in [
        (mq.m00, me.m00),
        (mq.m01, me.m01),
        (mq.m02, me.m02),
        (mq.m10, me.m10),
        (mq.m11, me.m11),
        (mq.m12, me.m12),
        (mq.m20, me.m20),
        (mq.m21, me.m21),
        (mq.m22, me.m22),
    ] {
        assert!((x - y).abs() < 15_000, "entries {} and {} differ", x, y);
    }
}

#[test]
fn quaternion_input_decomposes_to_euler() {
    // A 90-degree rotation about z, given as a raw quaternion,
    // decomposes to the Euler triple (0, 0, 90 deg).
    let s = 707_107; // sin(45 deg) at scale ONE
    let a = AnimationAngle::new_quternion(Quat { w: s, x: 0, y: 0, z: s });
    let (_, e) = a.deconstruct();
    assert_eq!(e.x, 0);
    assert_eq!(e.y, 0);
    assert!((e.z - 90_000).abs() < 300, "yaw {}", e.z);
}

#[test]
fn winding_pairs_opposite_signs() {
    // The same rotation supplied with opposite signs: the winding
    // search finds a pairing at distance zero, so the resolved
    // quaternions coincide.
    let a = AnimationAngle::new_quternion(Quat { w: ONE, x: 0, y: 0, z: 0 });
    let b = AnimationAngle::new_quternion(Quat { w: -ONE, x: 0, y: 0, z: 0 });
    let (bq, _, eq, _) = AnimationAngle::get_normalized_angles(&a, &b);
    assert_eq!(bq, eq);
}
