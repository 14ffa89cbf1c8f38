use trivert::SCALE;
use trivert::vec2::Vec2;

fn v(x: i64, y: i64) -> Vec2 {
    Vec2 { x: x * SCALE, y: y * SCALE }
}

#[test]
fn vec2_new_is_zero() {
    let z = Vec2::new();
    assert!(z.x == 0 && z.y == 0);
}

#[test]
fn vec2_named_directions() {
    assert!(Vec2::up() == v(0, 1));
    assert!(Vec2::down() == v(0, -1));
    assert!(Vec2::left() == v(-1, 0));
    assert!(Vec2::right() == v(1, 0));
}

#[test]
fn vec2_equality_is_componentwise() {
    assert!(v(10, 10) == v(10, 10));
    assert!(v(10, 10) != v(10, 11));
    assert!(v(10, 10) != v(11, 10));
}

#[test]
fn vec2_dot_product() {
    // (1, 2) . (3, 4) = 11.
    assert_eq!(Vec2::dot(&v(1, 2), &v(3, 4)), 11 * SCALE);
}

#[test]
fn vec2_dot_is_commutative() {
    let a = Vec2 { x: 1_500_000, y: -2_250_000 };
    let b = Vec2 { x: -777_777, y: 3_141_592 };
    assert_eq!(Vec2::dot(&a, &b), Vec2::dot(&b, &a));
}

#[test]
fn vec2_length_of_a_pythagorean_pair() {
    assert_eq!(Vec2::length(&v(3, 4)), 5 * SCALE);
    assert_eq!(Vec2::length(&Vec2::new()), 0);
}

#[test]
fn vec2_distance() {
    assert_eq!(Vec2::distance(&v(1, 1), &v(4, 5)), 5 * SCALE);
    assert_eq!(Vec2::distance(&v(4, 5), &v(1, 1)), 5 * SCALE);
}

#[test]
fn vec2_normalize_gives_a_unit_vector() {
    let n = Vec2::normalize(&v(3, 4));
    assert!(n == Vec2 { x: 600_000, y: 800_000 });
    // Its length is exactly one unit here.
    assert_eq!(Vec2::length(&n), SCALE);
}

#[test]
fn vec2_normalize_of_zero_is_zero() {
    assert!(Vec2::normalize(&Vec2::new()) == Vec2::new());
}

#[test]
fn vec2_normalize_length_is_near_one() {
    let n = Vec2::normalize(&Vec2 { x: 1_234_567, y: -7_654_321 });
    let len = Vec2::length(&n);
    assert!(SCALE - 2 <= len && len <= SCALE + 2);
}

#[test]
fn vec2_lerp_componentwise() {
    let r = Vec2::lerp(&v(0, 10), &v(10, 20), SCALE / 2);
    assert!(r == v(5, 15));
    assert!(Vec2::lerp(&v(0, 10), &v(10, 20), 0) == v(0, 10));
    assert!(Vec2::lerp(&v(0, 10), &v(10, 20), 3 * SCALE) == v(10, 20));
}

#[test]
fn vec2_lerp_unclamped_componentwise() {
    let r = Vec2::lerp_unclamped(&v(0, 10), &v(10, 20), 2 * SCALE);
    assert!(r == v(20, 30));
}

#[test]
fn vec2_add_sub() {
    assert!(v(1, 2).add(v(3, 4)) == v(4, 6));
    assert!(v(4, 6).sub(v(3, 4)) == v(1, 2));
    assert!(v(1, 2).add(v(3, 4)).sub(v(3, 4)) == v(1, 2));
}

#[test]
fn vec2_scalar_variants() {
    assert!(v(1, 2).add_scalar(SCALE) == v(2, 3));
    assert!(v(1, 2).sub_scalar(SCALE) == v(0, 1));
    assert!(v(1, 2).mul_scalar(3 * SCALE) == v(3, 6));
    assert!(v(3, 6).div_scalar(3 * SCALE) == v(1, 2));
}

#[test]
fn vec2_mul_div_componentwise() {
    assert!(v(2, 3).mul(v(4, 5)) == v(8, 15));
    assert!(v(8, 15).div(v(4, 5)) == v(2, 3));
    // Multiplying by one changes nothing.
    assert!(v(7, -9).mul(v(1, 1)) == v(7, -9));
}

#[test]
fn vec2_neg() {
    assert!(v(1, -2).neg() == v(-1, 2));
    assert!(v(1, -2).neg().neg() == v(1, -2));
}

#[test]
fn vec2_assign_variants() {
    let mut a = v(1, 2);
    a.add_assign(v(3, 4));
    assert!(a == v(4, 6));
    a.sub_assign(v(1, 1));
    assert!(a == v(3, 5));
    a.mul_assign(v(2, 2));
    assert!(a == v(6, 10));
    a.div_assign(v(3, 5));
    assert!(a == v(2, 2));
    a.add_assign_scalar(SCALE);
    assert!(a == v(3, 3));
    a.sub_assign_scalar(2 * SCALE);
    assert!(a == v(1, 1));
    a.mul_assign_scalar(5 * SCALE);
    assert!(a == v(5, 5));
    a.div_assign_scalar(5 * SCALE);
    assert!(a == v(1, 1));
}

#[test]
fn vec2_indexing() {
    let a = v(10, 20);
    assert_eq!(a.index(0), a.x);
    assert_eq!(a.index(1), a.y);
    let mut b = v(0, 0);
    b.set_index(0, 7 * SCALE);
    b.set_index(1, 8 * SCALE);
    assert!(b == v(7, 8));
}

#[test]
fn vec2_to_string_renders_components() {
    // The end-to-end example: (10, 10) renders as "10, 10".
    assert_eq!(v(10, 10).to_string(), "10, 10");
    assert_eq!(Vec2 { x: 15_500_000, y: -1_250_000 }.to_string(), "15.5, -1.25");
    assert_eq!(Vec2 { x: 0, y: 17_453 }.to_string(), "0, 0.017453");
}
