use trivert::SCALE;
use trivert::mathf::Mathf;

#[test]
fn clamp_returns_value_in_range() {
    assert_eq!(Mathf::clamp(7 * SCALE, 5 * SCALE, 19 * SCALE), 7 * SCALE);
}

#[test]
fn clamp_returns_lower_bound_below_range() {
    assert_eq!(Mathf::clamp(2 * SCALE, 5 * SCALE, 19 * SCALE), 5 * SCALE);
}

#[test]
fn clamp_returns_upper_bound_above_range() {
    // The end-to-end example: clamp(23, 5, 19) == 19.
    assert_eq!(Mathf::clamp(23 * SCALE, 5 * SCALE, 19 * SCALE), 19 * SCALE);
}

#[test]
fn clamp_keeps_the_bounds_themselves() {
    assert_eq!(Mathf::clamp(5 * SCALE, 5 * SCALE, 19 * SCALE), 5 * SCALE);
    assert_eq!(Mathf::clamp(19 * SCALE, 5 * SCALE, 19 * SCALE), 19 * SCALE);
}

#[test]
fn min_picks_the_smaller_value() {
    assert_eq!(Mathf::min(3 * SCALE, 9 * SCALE), 3 * SCALE);
    assert_eq!(Mathf::min(9 * SCALE, 3 * SCALE), 3 * SCALE);
    assert_eq!(Mathf::min(-SCALE, SCALE), -SCALE);
}

#[test]
fn max_picks_the_larger_value() {
    assert_eq!(Mathf::max(3 * SCALE, 9 * SCALE), 9 * SCALE);
    assert_eq!(Mathf::max(9 * SCALE, 3 * SCALE), 9 * SCALE);
    assert_eq!(Mathf::max(-SCALE, SCALE), SCALE);
}

#[test]
fn deg_2_rad_uses_the_low_precision_factor() {
    // 95 degrees: 95 * 0.017453 = 1.658035 exactly in fixed point.
    assert_eq!(Mathf::deg_2_rad(95 * SCALE), 1_658_035);
}

#[test]
fn rad_2_deg_uses_the_low_precision_factor() {
    // 2.5 radians: 2.5 * 57.295779 = 143.2394475, rounded toward zero.
    assert_eq!(Mathf::rad_2_deg(2_500_000), 143_239_447);
}

#[test]
fn deg_rad_round_trip_loses_little() {
    // 10 degrees to radians and back: short by 168 millionths.
    let there = Mathf::deg_2_rad(10 * SCALE);
    let back = Mathf::rad_2_deg(there);
    assert_eq!(there, 174_530);
    assert_eq!(back, 9_999_832);
    assert!(10 * SCALE - back <= 10 * SCALE / 59_000 + 59);
}

#[test]
fn deg_2_rad_of_a_negative_angle_is_symmetric() {
    assert_eq!(Mathf::deg_2_rad(-95 * SCALE), -1_658_035);
    assert_eq!(Mathf::rad_2_deg(-2_500_000), -143_239_447);
}

#[test]
fn lerp_midpoint_of_the_smallest_gap_rounds_toward_zero() {
    // A gap of one millionth cannot be halved: the product rounds
    // toward zero and the start value stays.
    assert_eq!(Mathf::lerp(1, 2, SCALE / 2), 1);
    assert_eq!(Mathf::lerp(0, -1, SCALE / 2), 0);
}

#[test]
fn lerp_midpoint() {
    // The end-to-end example: lerp(9, 22, 0.5) == 15.5.
    assert_eq!(Mathf::lerp(9 * SCALE, 22 * SCALE, SCALE / 2), 15_500_000);
}

#[test]
fn lerp_endpoints() {
    assert_eq!(Mathf::lerp(9 * SCALE, 22 * SCALE, 0), 9 * SCALE);
    assert_eq!(Mathf::lerp(9 * SCALE, 22 * SCALE, SCALE), 22 * SCALE);
}

#[test]
fn lerp_clamps_the_fraction() {
    assert_eq!(Mathf::lerp(9 * SCALE, 22 * SCALE, 2 * SCALE), 22 * SCALE);
    assert_eq!(Mathf::lerp(9 * SCALE, 22 * SCALE, -SCALE), 9 * SCALE);
}

#[test]
fn lerp_unclamped_extrapolates() {
    assert_eq!(Mathf::lerp_unclamped(9 * SCALE, 22 * SCALE, 2 * SCALE), 35 * SCALE);
    assert_eq!(Mathf::lerp_unclamped(9 * SCALE, 22 * SCALE, -SCALE), -4 * SCALE);
}
