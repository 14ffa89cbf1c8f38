//! Scalar utility functions: clamping, selection, angle conversion and
//! linear interpolation over fixed-point scalars.

use vstd::prelude::*;
use vstd::math::abs;
use crate::fixed::{fx_mul, fx_mul_ok, fx_mul_spec, scale_int};

verus! {

/// The factor that converts degrees to radians, in fixed-point units
/// (a low-precision rendering of pi / 180).
pub const DEG_TO_RAD: i64 = 17_453;

/// The factor that converts radians to degrees, in fixed-point units
/// (a low-precision rendering of 180 / pi).
pub const RAD_TO_DEG: i64 = 57_295_779;

/// `value` bounded to `[lo, hi]`.  When `lo > hi` this still follows the
/// two comparisons in order, so the lower bound wins.
pub open spec fn clamp_spec(value: int, lo: int, hi: int) -> int {
    if value < lo {
        lo
    } else if value > hi {
        hi
    } else {
        value
    }
}

/// The smaller of two scalars; on a tie the second one.
pub open spec fn min_spec(lhs: int, rhs: int) -> int {
    if lhs < rhs {
        lhs
    } else {
        rhs
    }
}

/// The larger of two scalars; on a tie the second one.
pub open spec fn max_spec(lhs: int, rhs: int) -> int {
    if lhs > rhs {
        lhs
    } else {
        rhs
    }
}

/// Interpolation from `start` to `end` by a fraction `t` of `SCALE`,
/// with `t` bounded to `[0, SCALE]`.
pub open spec fn lerp_spec(start: int, end: int, t: int) -> int {
    start + fx_mul_spec(end - start, clamp_spec(t, 0, scale_int()))
}

/// Interpolation with an unbounded fraction: `t` may extrapolate.
pub open spec fn lerp_unclamped_spec(start: int, end: int, t: int) -> int {
    start + fx_mul_spec(end - start, t)
}

/// The conditions under which `lerp` stays within `i64`.
pub open spec fn lerp_ok(start: int, end: int, t: int) -> bool {
    &&& i64::MIN < end - start <= i64::MAX
    &&& fx_mul_ok(end - start, clamp_spec(t, 0, scale_int()))
    &&& i64::MIN <= lerp_spec(start, end, t) <= i64::MAX
}

/// The conditions under which `lerp_unclamped` stays within `i64`.
pub open spec fn lerp_unclamped_ok(start: int, end: int, t: int) -> bool {
    &&& i64::MIN < end - start <= i64::MAX
    &&& fx_mul_ok(end - start, t)
    &&& i64::MIN <= lerp_unclamped_spec(start, end, t) <= i64::MAX
}

/// The math utility struct.
///
/// It contains various utility functions such as: clamp, lerp, min, max.
#[derive(Copy, Clone)]
pub struct Mathf;

impl Mathf {
    /// Clamps a value between two numbers.
    pub fn clamp(value: i64, min: i64, max: i64) -> (r: i64)
        ensures
            r == clamp_spec(value as int, min as int, max as int),
            min <= max ==> min <= r <= max,
            min <= value <= max ==> r == value,
    {
        if value < min {
            return min;
        } else if value > max {
            return max;
        }
        value
    }

    /// Returns the smallest of two numbers; on a tie the second one.
    pub fn min(lhs: i64, rhs: i64) -> (r: i64)
        ensures
            r == min_spec(lhs as int, rhs as int),
            r <= lhs && r <= rhs,
    {
        if lhs < rhs {
            return lhs;
        }
        rhs
    }

    /// Returns the largest of two numbers; on a tie the second one.
    pub fn max(lhs: i64, rhs: i64) -> (r: i64)
        ensures
            r == max_spec(lhs as int, rhs as int),
            r >= lhs && r >= rhs,
    {
        if lhs > rhs {
            return lhs;
        }
        rhs
    }

    /// Converts a number from degrees to radians.
    pub fn deg_2_rad(value: i64) -> (r: i64)
        requires
            fx_mul_ok(value as int, DEG_TO_RAD as int),
        ensures
            r == fx_mul_spec(value as int, DEG_TO_RAD as int),
    {
        fx_mul(value, DEG_TO_RAD)
    }

    /// Converts a number from radians to degrees.
    pub fn rad_2_deg(value: i64) -> (r: i64)
        requires
            fx_mul_ok(value as int, RAD_TO_DEG as int),
        ensures
            r == fx_mul_spec(value as int, RAD_TO_DEG as int),
    {
        fx_mul(value, RAD_TO_DEG)
    }

    /// Linearly interpolates between two numbers.
    pub fn lerp(start: i64, end: i64, percentage: i64) -> (r: i64)
        requires
            lerp_ok(start as int, end as int, percentage as int),
        ensures
            r == lerp_spec(start as int, end as int, percentage as int),
    {
        let d: i64 = end - start;
        let c: i64 = Mathf::clamp(percentage, 0, crate::SCALE);
        start + fx_mul(d, c)
    }

    /// Linearly interpolates between two numbers without clamping.
    pub fn lerp_unclamped(start: i64, end: i64, percentage: i64) -> (r: i64)
        requires
            lerp_unclamped_ok(start as int, end as int, percentage as int),
        ensures
            r == lerp_unclamped_spec(start as int, end as int, percentage as int),
    {
        let d: i64 = end - start;
        start + fx_mul(d, percentage)
    }
}

/// Interpolating by a fraction of zero gives the start value exactly.
pub proof fn lemma_lerp_zero(start: int, end: int)
    ensures
        lerp_spec(start, end, 0) == start,
{
    assert(clamp_spec(0, 0, scale_int()) == 0);
    assert(abs(end - start) * abs(0) == 0) by (nonlinear_arith);
}

/// Interpolating by a fraction of one (`SCALE`) gives the end value
/// exactly.
pub proof fn lemma_lerp_one(start: int, end: int)
    ensures
        lerp_spec(start, end, scale_int()) == end,
{
    assert(clamp_spec(scale_int(), 0, scale_int()) == scale_int());
    crate::fixed::lemma_fx_mul_one(end - start);
}

/// When the gap between the two values is even, interpolating by a
/// fraction of one half gives their exact midpoint.
pub proof fn lemma_lerp_half(start: int, end: int)
    requires
        (end - start) % 2 == 0,
    ensures
        lerp_spec(start, end, 500_000) == (start + end) / 2,
{
    let d = end - start;
    let k = abs(d) as int;
    assert(k % 2 == 0);
    let j = k / 2;
    vstd::arithmetic::div_mod::lemma_fundamental_div_mod(k, 2);
    assert(k == 2 * j);
    assert(k * 500_000 == 1_000_000 * j);
    vstd::arithmetic::div_mod::lemma_div_multiples_vanish(j, 1_000_000);
    assert(k * 500_000 / 1_000_000 == j);
    assert(clamp_spec(500_000, 0, scale_int()) == 500_000);
    assert(abs(500_000) == 500_000);
    assert(k * abs(500_000) == k * 500_000) by (nonlinear_arith)
        requires abs(500_000) == 500_000;
    if d >= 0 {
        assert(fx_mul_spec(d, 500_000) == j);
        assert(start + end == 2 * (start + j));
        vstd::arithmetic::div_mod::lemma_div_multiples_vanish(start + j, 2);
    } else {
        assert(fx_mul_spec(d, 500_000) == -j);
        assert(start + end == 2 * (start - j));
        vstd::arithmetic::div_mod::lemma_div_multiples_vanish(start - j, 2);
    }
}

/// Converting a nonnegative angle to radians and back to degrees comes
/// back short, never long, and short by at most about seventeen
/// millionths of the angle plus a constant: the loss that the two
/// low-precision conversion factors and the two roundings force.
/// A negative angle behaves symmetrically (`lemma_fx_mul_neg`).
pub proof fn lemma_deg_rad_round_trip(v: int)
    requires
        v >= 0,
    ensures
        fx_mul_spec(fx_mul_spec(v, DEG_TO_RAD as int), RAD_TO_DEG as int) <= v,
        1_000_000_000_000 * (v - fx_mul_spec(
            fx_mul_spec(v, DEG_TO_RAD as int),
            RAD_TO_DEG as int,
        )) <= 16_769_113 * v + 58_295_779_000_000,
{
    let w = fx_mul_spec(v, 17_453);
    assert(abs(v) == v);
    assert(abs(17_453) == 17_453);
    assert(w == v * 17_453 / 1_000_000);
    vstd::arithmetic::div_mod::lemma_div_pos_is_pos(v * 17_453, 1_000_000);
    vstd::arithmetic::div_mod::lemma_fundamental_div_mod(v * 17_453, 1_000_000);
    vstd::arithmetic::div_mod::lemma_mod_bound(v * 17_453, 1_000_000);
    let rem1 = (v * 17_453) % 1_000_000;
    assert(v * 17_453 == 1_000_000 * w + rem1);
    let r = fx_mul_spec(w, 57_295_779);
    assert(abs(w) == w);
    assert(abs(57_295_779) == 57_295_779);
    assert(r == w * 57_295_779 / 1_000_000);
    vstd::arithmetic::div_mod::lemma_fundamental_div_mod(w * 57_295_779, 1_000_000);
    vstd::arithmetic::div_mod::lemma_mod_bound(w * 57_295_779, 1_000_000);
    let rem2 = (w * 57_295_779) % 1_000_000;
    assert(w * 57_295_779 == 1_000_000 * r + rem2);
    assert(1_000_000_000_000 * r == 999_983_230_887 * v - 57_295_779 * rem1 - 1_000_000 * rem2);
}

} // verus!
