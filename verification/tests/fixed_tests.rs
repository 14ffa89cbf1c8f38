use trivert::{HALF_PI, PI, SCALE};
use trivert::fixed::{fx_div, fx_mul, isqrt, scalar_to_string, u64_to_dec};

#[test]
fn scale_represents_the_framework_constants_exactly() {
    assert_eq!(scalar_to_string(PI), "3.141592");
    assert_eq!(scalar_to_string(HALF_PI), "1.570796");
    assert_eq!(scalar_to_string(SCALE), "1");
}

#[test]
fn fx_mul_rescales_and_rounds_toward_zero() {
    assert_eq!(fx_mul(2 * SCALE, 3 * SCALE), 6 * SCALE);
    assert_eq!(fx_mul(-2 * SCALE, 3 * SCALE), -6 * SCALE);
    assert_eq!(fx_mul(-2 * SCALE, -3 * SCALE), 6 * SCALE);
    // 0.000001 * 0.5 rounds down to zero; so does its negation.
    assert_eq!(fx_mul(1, SCALE / 2), 0);
    assert_eq!(fx_mul(-1, SCALE / 2), 0);
}

#[test]
fn fx_div_rescales_and_rounds_toward_zero() {
    assert_eq!(fx_div(6 * SCALE, 3 * SCALE), 2 * SCALE);
    assert_eq!(fx_div(-6 * SCALE, 3 * SCALE), -2 * SCALE);
    assert_eq!(fx_div(SCALE, 3 * SCALE), 333_333);
    assert_eq!(fx_div(-SCALE, 3 * SCALE), -333_333);
}

#[test]
fn isqrt_brackets_the_square() {
    assert_eq!(isqrt(0), 0);
    assert_eq!(isqrt(1), 1);
    assert_eq!(isqrt(3), 1);
    assert_eq!(isqrt(4), 2);
    assert_eq!(isqrt(999_998_000_000), 999_998);
    assert_eq!(isqrt(u64::MAX), 4_294_967_295);
}

#[test]
fn u64_to_dec_renders_decimals() {
    assert_eq!(u64_to_dec(0), "0");
    assert_eq!(u64_to_dec(7), "7");
    assert_eq!(u64_to_dec(1_000_000), "1000000");
    assert_eq!(u64_to_dec(18_446_744_073_709_551_615), "18446744073709551615");
}

#[test]
fn scalar_to_string_strips_trailing_zeros() {
    assert_eq!(scalar_to_string(0), "0");
    assert_eq!(scalar_to_string(10 * SCALE), "10");
    assert_eq!(scalar_to_string(15_500_000), "15.5");
    assert_eq!(scalar_to_string(-1_250_000), "-1.25");
    assert_eq!(scalar_to_string(17_453), "0.017453");
    assert_eq!(scalar_to_string(-1), "-0.000001");
    assert_eq!(scalar_to_string(1_000_001), "1.000001");
}
