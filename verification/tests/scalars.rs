use camera_pose::config::{pitch_limits_valid, CameraConfig};
use camera_pose::fixed::{clamp, mul_scaled, smoothing_factor, unscale_wide, within_limit};
use camera_pose::fixed::{HALF_TURN, LIMIT, ONE};
use camera_pose::host::{HostReply, HostRequest};
use camera_pose::input::{CameraInput, InputError};
use camera_pose::pitch::clamp_pitch;
use camera_pose::vector::{Quat, Transform, Vec2, Vec3, REACH};

#[test]
fn scaled_product_rounds_toward_zero() {
    assert_eq!(mul_scaled(1_500_000, 2_000_000), 3_000_000);
    assert_eq!(mul_scaled(3, 500_000), 1);
    assert_eq!(mul_scaled(-3, 500_000), -1);
    assert_eq!(mul_scaled(3, -500_000), -1);
    assert_eq!(mul_scaled(-3, -500_000), 1);
    assert_eq!(mul_scaled(1, 999_999), 0);
    assert_eq!(mul_scaled(-1, 999_999), 0);
    assert_eq!(mul_scaled(LIMIT, LIMIT), 1_000_000_000_000_000_000);
    assert_eq!(mul_scaled(-LIMIT, LIMIT), -1_000_000_000_000_000_000);
    assert_eq!(mul_scaled(123_456, ONE), 123_456);
    assert_eq!(unscale_wide(-1_999_999), -1);
    assert_eq!(unscale_wide(1_999_999), 1);
}

#[test]
fn clamp_bounds_a_value() {
    assert_eq!(clamp(5, 1, 10), 5);
    assert_eq!(clamp(0, 1, 10), 1);
    assert_eq!(clamp(11, 1, 10), 10);
    assert_eq!(clamp(i64::MIN, -3, -3), -3);
    assert!(within_limit(LIMIT) && within_limit(-LIMIT));
    assert!(!within_limit(LIMIT + 1) && !within_limit(-LIMIT - 1));
}

#[test]
fn smoothing_factor_is_rate_times_time_up_to_one() {
    assert_eq!(smoothing_factor(10_000_000, 16_000), 160_000);
    assert_eq!(smoothing_factor(10_000_000, 99_999), 999_990);
    assert_eq!(smoothing_factor(10_000_000, 100_000), ONE);
    assert_eq!(smoothing_factor(10_000_000, 100_001), ONE);
    assert_eq!(smoothing_factor(LIMIT, u64::MAX), ONE);
    assert_eq!(smoothing_factor(1, u64::MAX), ONE);
    assert_eq!(smoothing_factor(0, u64::MAX), 0);
    assert_eq!(smoothing_factor(10_000_000, 0), 0);
}

#[test]
fn pitch_within_the_limits_passes_unchanged() {
    assert_eq!(clamp_pitch(1_570_796, 500_000, 628_319, 897_598), 500_000);
    assert_eq!(clamp_pitch(1_570_796, -500_000, 628_319, 897_598), -500_000);
    assert_eq!(clamp_pitch(1_570_796, 0, 628_319, 897_598), 0);
    assert_eq!(clamp_pitch(1_570_796, 942_477, 628_319, 897_598), 942_477);
    assert_eq!(clamp_pitch(1_570_796, -673_199, 628_319, 897_598), -673_199);
}

#[test]
fn pitch_is_cut_at_the_limit_from_above() {
    assert_eq!(clamp_pitch(1_570_796, 1_500_000, 628_319, 897_598), 942_477);
    assert_eq!(clamp_pitch(1_570_796, 942_478, 628_319, 897_598), 942_477);
    assert_eq!(clamp_pitch(628_319, 1, 628_319, 897_598), 0);
    assert_eq!(clamp_pitch(1_570_796, i64::MAX, 628_319, 897_598), 942_477);
}

#[test]
fn pitch_is_cut_at_the_limit_from_below() {
    assert_eq!(clamp_pitch(1_570_796, -1_500_000, 628_319, 897_598), -673_199);
    assert_eq!(clamp_pitch(1_570_796, -673_200, 628_319, 897_598), -673_199);
    assert_eq!(clamp_pitch(2_243_995, -1, 628_319, 897_598), 0);
    assert_eq!(clamp_pitch(1_570_796, i64::MIN, 628_319, 897_598), -673_199);
}

#[test]
fn pitch_brings_a_view_beyond_the_limits_back() {
    // the view stands closer to up than allowed: even no change is turned into one away from up
    assert_eq!(clamp_pitch(100_000, 0, 628_319, 897_598), -528_319);
    assert_eq!(clamp_pitch(0, 50_000, 628_319, 897_598), -628_319);
    assert_eq!(clamp_pitch(HALF_TURN, -50_000, 628_319, 897_598), 897_598);
}

#[test]
fn clamped_pitch_always_ends_between_the_limits() {
    let above = 628_319;
    let below = 897_598;
    for angle in [0, 1, 628_318, 628_319, 1_000_000, 2_243_995, 2_243_996, HALF_TURN] {
        for proposed in [i64::MIN, -LIMIT, -4_000_000, -1, 0, 1, 700_000, 4_000_000, LIMIT, i64::MAX] {
            let allowed = clamp_pitch(angle, proposed, above, below);
            let after = angle - allowed;
            assert!(above <= after && after <= HALF_TURN - below);
        }
    }
}

#[test]
fn pitch_limits_must_leave_room() {
    assert!(pitch_limits_valid(0, 0));
    assert!(pitch_limits_valid(628_319, 897_598));
    assert!(pitch_limits_valid(HALF_TURN, 0));
    assert!(pitch_limits_valid(1_570_796, 1_570_797));
    assert!(!pitch_limits_valid(1_570_797, 1_570_797));
    assert!(!pitch_limits_valid(-1, 0));
    assert!(!pitch_limits_valid(0, -1));
    assert!(!pitch_limits_valid(i64::MAX, i64::MAX));
}

#[test]
fn default_config_is_all_zero_and_valid() {
    let config = CameraConfig::default();
    assert_eq!(config.mouse_sensitivity_x, 0);
    assert_eq!(config.mouse_sensitivity_y, 0);
    assert_eq!(config.first_person.translation_smoothing, 0);
    assert_eq!(config.first_person.rotation_smoothing, 0);
    assert_eq!(config.third_person.min_distance, 0);
    assert_eq!(config.third_person.max_distance, 0);
    assert_eq!(config.third_person.min_distance_to_objects, 0);
    assert!(config.is_valid());
    assert!(config.first_person.is_valid());
    assert!(config.third_person.is_valid());
    let mut config = CameraConfig::default();
    config.third_person.max_distance = LIMIT + 1;
    assert!(!config.is_valid());
    let mut config = CameraConfig::default();
    config.mouse_sensitivity_x = -LIMIT - 1;
    assert!(!config.is_valid());
    let mut config = CameraConfig::default();
    config.third_person.min_distance_to_objects = -1;
    assert!(!config.is_valid());
}

#[test]
fn input_without_pan_gives_the_error() {
    let input = CameraInput { pan: None, zoom: 0 };
    assert_eq!(input.axis_pair(), Err(InputError::PanNotAxisPair));
    let input = CameraInput { pan: Some(Vec2::new(3, -4)), zoom: 0 };
    assert_eq!(input.axis_pair(), Ok(Vec2::new(3, -4)));
    assert!(input.is_valid());
    assert!(!CameraInput { pan: Some(Vec2::new(LIMIT + 1, 0)), zoom: 0 }.is_valid());
    assert!(!CameraInput { pan: None, zoom: LIMIT + 1 }.is_valid());
    assert!(CameraInput { pan: None, zoom: -LIMIT }.is_valid());
}

#[test]
fn two_component_vector_measures() {
    let v = Vec2::new(3_000, -4_000);
    assert_eq!(v.length_squared(), 25_000_000);
    assert!(!v.is_approx_zero());
    assert!(Vec2::new(3_162, 0).is_approx_zero());
    assert!(!Vec2::new(3_163, 0).is_approx_zero());
    assert!(Vec2::new(0, 0).is_approx_zero());
    assert!(v.is_within(4_000));
    assert!(!v.is_within(3_999));
}

#[test]
fn vector_arithmetic() {
    let a = Vec3::new(1_000_000, -2_000_000, 3_000_000);
    let b = Vec3::new(500_000, 500_000, -500_000);
    assert_eq!(a.plus(b), Vec3::new(1_500_000, -1_500_000, 2_500_000));
    assert_eq!(a.minus(b), Vec3::new(500_000, -2_500_000, 3_500_000));
    assert_eq!(a.neg(), Vec3::new(-1_000_000, 2_000_000, -3_000_000));
    assert_eq!(a.dot(b), -2_000_000_000_000);
    assert_eq!(a.length_squared(), 14_000_000_000_000);
    assert_eq!(b.scale(3_000_000), Vec3::new(1_500_000, 1_500_000, -1_500_000));
    assert_eq!(b.scale(-1), Vec3::new(0, 0, 0));
    assert_eq!(Vec3::new(1, 2, 3).scale(1_500_000), Vec3::new(1, 3, 4));
    assert_eq!(Vec3::new(-1, -2, -3).scale(1_500_000), Vec3::new(-1, -3, -4));
    assert!(Vec3::new(3_162, 0, 0).is_approx_zero());
    assert!(!Vec3::new(0, 3_163, 0).is_approx_zero());
    assert!(!Vec3::new(0, 2_000, 2_500).is_approx_zero());
    assert!(a.is_within(3_000_000));
    assert!(!a.is_within(2_999_999));
    assert_eq!(Vec3::zero(), Vec3::new(0, 0, 0));
    assert_eq!(Vec3::unit_y(), Vec3::new(0, ONE, 0));
}

#[test]
fn lerp_moves_a_fraction_of_the_way() {
    let from = Vec3::new(0, 10_000_000, -REACH);
    let to = Vec3::new(10_000_000, 0, REACH);
    assert_eq!(from.lerp(to, 0), from);
    assert_eq!(from.lerp(to, ONE), to);
    assert_eq!(from.lerp(to, 160_000), Vec3::new(1_600_000, 8_400_000, -3_400_000_000_000));
    assert_eq!(from.lerp(to, 500_000), Vec3::new(5_000_000, 5_000_000, 0));
    assert_eq!(Vec3::new(0, 0, 0).lerp(Vec3::new(3, -3, 1), 500_000), Vec3::new(1, -1, 0));
}

#[test]
fn horizontal_takes_away_the_part_along_up() {
    let up = Vec3::unit_y();
    assert_eq!(
        Vec3::new(1_000_000, 5_000_000, -2_000_000).horizontal(up),
        Vec3::new(1_000_000, 0, -2_000_000)
    );
    assert_eq!(Vec3::new(0, -7_000_000, 0).horizontal(up), Vec3::new(0, 0, 0));
    let tilted = Vec3::new(600_000, 800_000, 0);
    assert_eq!(
        Vec3::new(1_000_000, 0, 3_000_000).horizontal(tilted),
        Vec3::new(640_000, -480_000, 3_000_000)
    );
}

#[test]
fn forward_follows_the_orientation() {
    assert_eq!(Quat::identity().forward(), Vec3::new(0, 0, -ONE));
    // half a turn about the second axis
    assert_eq!(Quat::new(0, ONE, 0, 0).forward(), Vec3::new(0, 0, ONE));
    // a quarter turn about the second axis, to the left
    assert_eq!(Quat::new(0, 707_107, 0, 707_107).forward(), Vec3::new(-1_000_000, 0, 0));
    // a quarter turn about the first axis, upward
    assert_eq!(Quat::new(707_107, 0, 0, 707_107).forward(), Vec3::new(0, 1_000_000, 0));
    let pose = Transform::new(Vec3::new(1, 2, 3), Quat::new(0, ONE, 0, 0));
    assert_eq!(pose.forward(), Vec3::new(0, 0, ONE));
    assert_eq!(
        pose.with_translation(Vec3::new(4, 5, 6)),
        Transform::new(Vec3::new(4, 5, 6), Quat::new(0, ONE, 0, 0))
    );
}

#[test]
fn poses_out_of_limits_are_not_valid() {
    assert!(Transform::identity().is_valid());
    assert!(Transform::new(Vec3::new(REACH, -REACH, 0), Quat::identity()).is_valid());
    assert!(!Transform::new(Vec3::new(REACH + 1, 0, 0), Quat::identity()).is_valid());
    assert!(!Transform::new(Vec3::new(0, 0, 0), Quat::new(0, 0, -ONE - 1, 0)).is_valid());
    assert!(Quat::new(ONE, -ONE, ONE, -ONE).is_valid());
}

#[test]
fn replies_answer_their_requests() {
    let look = HostRequest::LookAt {
        eye: Vec3::zero(),
        target: Vec3::unit_y(),
        up: Vec3::unit_y(),
    };
    let ray = HostRequest::CastRay {
        origin: Vec3::zero(),
        direction: Vec3::unit_y(),
        max_distance: 5,
    };
    let angle = HostRequest::AngleBetween { from: Vec3::unit_y(), to: Vec3::unit_y() };
    let orbit = HostRequest::Orbit {
        transform: Transform::identity(),
        pivot: Vec3::zero(),
        up: Vec3::unit_y(),
        yaw: 1,
        pitch: 2,
    };
    assert!(HostReply::Rotation(Quat::identity()).is_answer_to(&look));
    assert!(!HostReply::Rotation(Quat::new(0, 0, 0, ONE + 1)).is_answer_to(&look));
    assert!(!HostReply::Rotation(Quat::identity()).is_answer_to(&ray));
    assert!(HostReply::Hit(None).is_answer_to(&ray));
    assert!(HostReply::Hit(Some(0)).is_answer_to(&ray));
    assert!(HostReply::Hit(Some(LIMIT)).is_answer_to(&ray));
    assert!(!HostReply::Hit(Some(-1)).is_answer_to(&ray));
    assert!(HostReply::Angle(0).is_answer_to(&angle));
    assert!(HostReply::Angle(HALF_TURN).is_answer_to(&angle));
    assert!(!HostReply::Angle(HALF_TURN + 1).is_answer_to(&angle));
    assert!(HostReply::Pose(Transform::identity()).is_answer_to(&orbit));
    assert!(!HostReply::Pose(Transform::identity()).is_answer_to(&angle));
    assert!(HostReply::Hit(Some(3)).is_valid());
    assert!(!HostReply::Hit(Some(LIMIT + 1)).is_valid());
}
