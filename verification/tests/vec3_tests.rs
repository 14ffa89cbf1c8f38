use trivert::SCALE;
use trivert::vec3::Vec3;

fn v(x: i64, y: i64, z: i64) -> Vec3 {
    Vec3 { x: x * SCALE, y: y * SCALE, z: z * SCALE }
}

#[test]
fn vec3_new_is_zero() {
    let z = Vec3::new();
    assert!(z.x == 0 && z.y == 0 && z.z == 0);
}

#[test]
fn vec3_named_directions() {
    assert!(Vec3::up() == v(0, 1, 0));
    assert!(Vec3::down() == v(0, -1, 0));
    assert!(Vec3::left() == v(-1, 0, 0));
    assert!(Vec3::right() == v(1, 0, 0));
    assert!(Vec3::forward() == v(0, 0, 1));
    assert!(Vec3::back() == v(0, 0, -1));
}

#[test]
fn vec3_equality_is_componentwise() {
    assert!(v(1, 2, 3) == v(1, 2, 3));
    assert!(v(1, 2, 3) != v(1, 2, 4));
}

#[test]
fn vec3_cross_of_the_axes() {
    // The right-handed basis: x cross y = z, y cross z = x, z cross x = y.
    assert!(Vec3::cross(&Vec3::right(), &Vec3::up()) == Vec3::forward());
    assert!(Vec3::cross(&Vec3::up(), &Vec3::forward()) == Vec3::right());
    assert!(Vec3::cross(&Vec3::forward(), &Vec3::right()) == Vec3::up());
}

#[test]
fn vec3_cross_with_itself_is_zero() {
    let a = Vec3 { x: 1_234_567, y: -2_345_678, z: 3_456_789 };
    assert!(Vec3::cross(&a, &a) == Vec3::new());
}

#[test]
fn vec3_cross_concrete_value() {
    // (1, 2, 3) x (4, 5, 6) = (-3, 6, -3).
    assert!(Vec3::cross(&v(1, 2, 3), &v(4, 5, 6)) == v(-3, 6, -3));
}

#[test]
fn vec3_dot_product() {
    // (1, 2, 3) . (4, 5, 6) = 32.
    assert_eq!(Vec3::dot(&v(1, 2, 3), &v(4, 5, 6)), 32 * SCALE);
}

#[test]
fn vec3_dot_is_commutative() {
    let a = Vec3 { x: 1_500_000, y: -2_250_000, z: 999_999 };
    let b = Vec3 { x: -777_777, y: 3_141_592, z: -1 };
    assert_eq!(Vec3::dot(&a, &b), Vec3::dot(&b, &a));
}

#[test]
fn vec3_length_of_a_pythagorean_triple() {
    assert_eq!(Vec3::length(&v(1, 2, 2)), 3 * SCALE);
    assert_eq!(Vec3::length(&Vec3::new()), 0);
}

#[test]
fn vec3_distance() {
    assert_eq!(Vec3::distance(&v(1, 1, 1), &v(2, 3, 3)), 3 * SCALE);
}

#[test]
fn vec3_normalize_gives_a_unit_vector() {
    let n = Vec3::normalize(&v(1, 2, 2));
    assert!(n == Vec3 { x: 333_333, y: 666_666, z: 666_666 });
    let len = Vec3::length(&n);
    assert!(SCALE - 2 <= len && len <= SCALE + 2);
}

#[test]
fn vec3_normalize_of_zero_is_zero() {
    assert!(Vec3::normalize(&Vec3::new()) == Vec3::new());
}

#[test]
fn vec3_lerp_componentwise() {
    assert!(Vec3::lerp(&v(0, 10, -4), &v(10, 20, 4), SCALE / 2) == v(5, 15, 0));
    assert!(Vec3::lerp(&v(0, 10, -4), &v(10, 20, 4), 0) == v(0, 10, -4));
    assert!(Vec3::lerp(&v(0, 10, -4), &v(10, 20, 4), 2 * SCALE) == v(10, 20, 4));
}

#[test]
fn vec3_lerp_unclamped_componentwise() {
    assert!(Vec3::lerp_unclamped(&v(0, 10, 0), &v(10, 20, 1), 2 * SCALE) == v(20, 30, 2));
}

#[test]
fn vec3_add_sub() {
    assert!(v(1, 2, 3).add(v(4, 5, 6)) == v(5, 7, 9));
    assert!(v(5, 7, 9).sub(v(4, 5, 6)) == v(1, 2, 3));
    assert!(v(1, 2, 3).add(v(4, 5, 6)).sub(v(4, 5, 6)) == v(1, 2, 3));
}

#[test]
fn vec3_scalar_variants() {
    assert!(v(1, 2, 3).add_scalar(SCALE) == v(2, 3, 4));
    assert!(v(1, 2, 3).sub_scalar(SCALE) == v(0, 1, 2));
    assert!(v(1, 2, 3).mul_scalar(2 * SCALE) == v(2, 4, 6));
    assert!(v(2, 4, 6).div_scalar(2 * SCALE) == v(1, 2, 3));
}

#[test]
fn vec3_mul_div_componentwise() {
    assert!(v(2, 3, 4).mul(v(5, 6, 7)) == v(10, 18, 28));
    assert!(v(10, 18, 28).div(v(5, 6, 7)) == v(2, 3, 4));
    assert!(v(7, -9, 11).mul(v(1, 1, 1)) == v(7, -9, 11));
}

#[test]
fn vec3_neg() {
    assert!(v(1, -2, 3).neg() == v(-1, 2, -3));
    assert!(v(1, -2, 3).neg().neg() == v(1, -2, 3));
}

#[test]
fn vec3_assign_variants() {
    let mut a = v(1, 2, 3);
    a.add_assign(v(1, 1, 1));
    assert!(a == v(2, 3, 4));
    a.sub_assign(v(1, 1, 1));
    assert!(a == v(1, 2, 3));
    a.mul_assign(v(2, 2, 2));
    assert!(a == v(2, 4, 6));
    a.div_assign(v(2, 2, 2));
    assert!(a == v(1, 2, 3));
    a.add_assign_scalar(SCALE);
    assert!(a == v(2, 3, 4));
    a.sub_assign_scalar(SCALE);
    assert!(a == v(1, 2, 3));
    a.mul_assign_scalar(3 * SCALE);
    assert!(a == v(3, 6, 9));
    a.div_assign_scalar(3 * SCALE);
    assert!(a == v(1, 2, 3));
}

#[test]
fn vec3_indexing() {
    let a = v(10, 20, 30);
    assert_eq!(a.index(0), a.x);
    assert_eq!(a.index(1), a.y);
    assert_eq!(a.index(2), a.z);
    let mut b = Vec3::new();
    b.set_index(0, SCALE);
    b.set_index(1, 2 * SCALE);
    b.set_index(2, 3 * SCALE);
    assert!(b == v(1, 2, 3));
}

#[test]
fn vec3_to_string_renders_components() {
    assert_eq!(v(10, 5, 1).to_string(), "10, 5, 1");
    assert_eq!(
        Vec3 { x: 3_141_592, y: -1_570_796, z: 0 }.to_string(),
        "3.141592, -1.570796, 0"
    );
}
