//! The fixed-point scalar representation.
//!
//! A scalar stores its real value times [`crate::SCALE`].  Multiplication
//! and division therefore rescale their result; both round toward zero,
//! stated below over the magnitudes of the operands.

use vstd::prelude::*;
use vstd::math::abs;
use vstd::string::StringExecFns;

verus! {

/// `SCALE` as a mathematical integer, for use in specifications.
pub open spec fn scale_int() -> int {
    crate::SCALE as int
}

/// The product of two fixed-point scalars, rounded toward zero.
pub open spec fn fx_mul_spec(a: int, b: int) -> int {
    let m = ((abs(a) * abs(b)) as int) / scale_int();
    if (a < 0) == (b < 0) {
        m
    } else {
        -m
    }
}

/// The conditions under which `fx_mul` neither overflows `i64` nor
/// loses the sign of its operands.
pub open spec fn fx_mul_ok(a: int, b: int) -> bool {
    &&& a > i64::MIN
    &&& b > i64::MIN
    &&& abs(a) * abs(b) <= u64::MAX
    &&& ((abs(a) * abs(b)) as int) / scale_int() <= i64::MAX
}

/// Fixed-point multiplication: `(a * b) / SCALE`, rounded toward zero.
pub fn fx_mul(a: i64, b: i64) -> (r: i64)
    requires
        fx_mul_ok(a as int, b as int),
    ensures
        r == fx_mul_spec(a as int, b as int),
{
    let na: bool = a < 0;
    let nb: bool = b < 0;
    let ua: u64 = if na { (-a) as u64 } else { a as u64 };
    let ub: u64 = if nb { (-b) as u64 } else { b as u64 };
    let p: u64 = (ua * ub) / 1_000_000;
    if na != nb {
        -(p as i64)
    } else {
        p as i64
    }
}

/// The quotient of two fixed-point scalars, rounded toward zero.
pub open spec fn fx_div_spec(a: int, b: int) -> int {
    let q = ((abs(a) * scale_int()) as int) / (abs(b) as int);
    if (a < 0) == (b < 0) {
        q
    } else {
        -q
    }
}

/// The conditions under which `fx_div` is defined and neither overflows
/// `i64` nor loses the sign of its operands.
pub open spec fn fx_div_ok(a: int, b: int) -> bool {
    &&& a > i64::MIN
    &&& b > i64::MIN
    &&& b != 0
    &&& abs(a) * scale_int() <= u64::MAX
    &&& ((abs(a) * scale_int()) as int) / (abs(b) as int) <= i64::MAX
}

/// Fixed-point division: `(a * SCALE) / b`, rounded toward zero.
pub fn fx_div(a: i64, b: i64) -> (r: i64)
    requires
        fx_div_ok(a as int, b as int),
    ensures
        r == fx_div_spec(a as int, b as int),
{
    let na: bool = a < 0;
    let nb: bool = b < 0;
    let ua: u64 = if na { (-a) as u64 } else { a as u64 };
    let ub: u64 = if nb { (-b) as u64 } else { b as u64 };
    let q: u64 = (ua * 1_000_000) / ub;
    if na != nb {
        -(q as i64)
    } else {
        q as i64
    }
}

/// The integer square root: the largest `r` with `r * r <= n`.
pub open spec fn isqrt_spec(n: nat) -> nat
    decreases n,
{
    if n == 0 {
        0
    } else {
        let r = isqrt_spec((n - 1) as nat);
        if (r + 1) * (r + 1) <= n {
            r + 1
        } else {
            r
        }
    }
}

/// `isqrt_spec(n)` is the unique value whose square is at most `n` while
/// the next square is beyond `n`.
pub proof fn lemma_isqrt_bounds(n: nat)
    ensures
        isqrt_spec(n) * isqrt_spec(n) <= n,
        n < (isqrt_spec(n) + 1) * (isqrt_spec(n) + 1),
    decreases n,
{
    if n == 0 {
        assert(isqrt_spec(n) == 0);
        assert((isqrt_spec(n) + 1) * (isqrt_spec(n) + 1) == 1) by (nonlinear_arith)
            requires isqrt_spec(n) == 0;
    } else {
        lemma_isqrt_bounds((n - 1) as nat);
        let r = isqrt_spec((n - 1) as nat);
        if (r + 1) * (r + 1) <= n {
            assert(isqrt_spec(n) == r + 1);
            assert(n <= (r + 1) * (r + 1));
            assert((r + 1) * (r + 1) < (r + 2) * (r + 2)) by (nonlinear_arith);
            assert(n < (r + 2) * (r + 2));
            assert((isqrt_spec(n) + 1) * (isqrt_spec(n) + 1) == (r + 2) * (r + 2)) by (nonlinear_arith)
                requires isqrt_spec(n) == r + 1;
        } else {
            assert(isqrt_spec(n) == r);
            assert(n < (r + 1) * (r + 1));
            assert((isqrt_spec(n) + 1) * (isqrt_spec(n) + 1) == (r + 1) * (r + 1)) by (nonlinear_arith)
                requires isqrt_spec(n) == r;
        }
    }
}

/// Any value bracketed by the two squares is the integer square root.
pub proof fn lemma_isqrt_unique(n: nat, r: nat)
    requires
        r * r <= n,
        n < (r + 1) * (r + 1),
    ensures
        r == isqrt_spec(n),
{
    lemma_isqrt_bounds(n);
    let s = isqrt_spec(n);
    if r < s {
        assert((r + 1) * (r + 1) <= s * s) by (nonlinear_arith)
            requires r + 1 <= s;
    }
    if s < r {
        assert((s + 1) * (s + 1) <= r * r) by (nonlinear_arith)
            requires s + 1 <= r;
    }
}

/// The integer square root of a machine word, by binary search.
pub fn isqrt(n: u64) -> (r: u64)
    ensures
        r == isqrt_spec(n as nat),
{
    let mut lo: u64 = 0;
    let mut hi: u64 = 4_294_967_296;
    proof {
        assert((4_294_967_296 as int) * (4_294_967_296 as int) > u64::MAX as int) by (nonlinear_arith);
    }
    while lo + 1 < hi
        invariant
            lo < hi <= 4_294_967_296,
            (lo as int) * (lo as int) <= n as int,
            (n as int) < (hi as int) * (hi as int),
        decreases hi - lo,
    {
        let mid: u64 = lo + (hi - lo) / 2;
        proof {
            assert(mid < 4_294_967_296);
            assert((mid as int) * (mid as int) <= u64::MAX as int) by (nonlinear_arith)
                requires (mid as int) < 4_294_967_296;
        }
        if mid * mid <= n {
            lo = mid;
        } else {
            hi = mid;
        }
    }
    proof {
        lemma_isqrt_unique(n as nat, lo as nat);
    }
    lo
}

/// Fixed-point multiplication does not care about operand order.
pub proof fn lemma_fx_mul_comm(a: int, b: int)
    ensures
        fx_mul_spec(a, b) == fx_mul_spec(b, a),
{
    assert(abs(a) * abs(b) == abs(b) * abs(a)) by (nonlinear_arith);
}

/// Fixed-point multiplication carries a flipped sign straight through.
pub proof fn lemma_fx_mul_neg(a: int, b: int)
    ensures
        fx_mul_spec(-a, b) == -fx_mul_spec(a, b),
{
    assert(abs(-a) == abs(a));
    if a == 0 {
        assert(abs(0) * abs(b) == 0) by (nonlinear_arith);
    }
}

/// One (that is, `SCALE`) is the identity of fixed-point multiplication.
pub proof fn lemma_fx_mul_one(a: int)
    ensures
        fx_mul_spec(a, scale_int()) == a,
{
    vstd::arithmetic::div_mod::lemma_div_multiples_vanish(abs(a) as int, scale_int());
    assert(abs(a) * scale_int() == scale_int() * abs(a)) by (nonlinear_arith);
}

/// The magnitude of a fixed-point product is at most `u64::MAX / SCALE`.
pub proof fn lemma_fx_mul_bound(a: int, b: int)
    requires
        fx_mul_ok(a, b),
    ensures
        -18_446_744_073_709 <= fx_mul_spec(a, b) <= 18_446_744_073_709,
{
    let p = (abs(a) * abs(b)) as int;
    vstd::arithmetic::div_mod::lemma_div_is_ordered(p, u64::MAX as int, scale_int());
    vstd::arithmetic::div_mod::lemma_div_pos_is_pos(p, scale_int());
    assert(u64::MAX as int / scale_int() == 18_446_744_073_709) by (nonlinear_arith);
}

/// Dividing a component of a vector by the vector's length keeps it
/// within one unit, and within the machine's range.
pub proof fn lemma_component_div_ok(x: int, q: int, len: int)
    requires
        x > i64::MIN,
        x * x <= q <= u64::MAX,
        len == isqrt_spec(q as nat),
        len > 0,
    ensures
        fx_div_ok(x, len),
        -scale_int() <= fx_div_spec(x, len) <= scale_int(),
{
    lemma_isqrt_bounds(q as nat);
    assert((abs(x) * abs(x)) as int == x * x) by (nonlinear_arith);
    assert(abs(x) <= len) by (nonlinear_arith)
        requires
            (abs(x) * abs(x)) as int <= q,
            q < (len + 1) * (len + 1),
            len > 0;
    assert(len <= 4_294_967_295) by (nonlinear_arith)
        requires
            len * len <= q,
            q <= u64::MAX as int,
            len > 0;
    assert(abs(x) * scale_int() <= u64::MAX) by (nonlinear_arith)
        requires
            abs(x) <= 4_294_967_295,
            scale_int() == 1_000_000;
    let num = (abs(x) * scale_int()) as int;
    vstd::arithmetic::mul::lemma_mul_inequality(abs(x) as int, len, scale_int());
    vstd::arithmetic::div_mod::lemma_div_is_ordered(num, len * scale_int(), len);
    vstd::arithmetic::div_mod::lemma_div_multiples_vanish(scale_int(), len);
    vstd::arithmetic::div_mod::lemma_div_pos_is_pos(num, len);
    assert(abs(len) == len);
    assert(num / len <= scale_int());
}

/// Squaring keeps the order of nonnegative values.
pub proof fn lemma_sq_le(a: int, b: int)
    requires
        0 <= a <= b,
    ensures
        a * a <= b * b,
{
    assert(a * a <= b * b) by (nonlinear_arith)
        requires 0 <= a <= b;
}

/// Squaring keeps the strict order of nonnegative values.
pub proof fn lemma_sq_lt(a: int, b: int)
    requires
        0 <= a < b,
    ensures
        a * a < b * b,
{
    assert(a * a < b * b) by (nonlinear_arith)
        requires 0 <= a < b;
}

/// An order of squares of nonnegative values reflects to the values.
pub proof fn lemma_sq_reflect(a: int, b: int)
    requires
        0 <= a,
        0 <= b,
        a * a < b * b,
    ensures
        a < b,
{
    if b <= a {
        lemma_sq_le(b, a);
    }
}

/// The quotient of a fixed-point division, in magnitude, brackets the
/// exact ratio: `|r| * b <= |a| * SCALE < (|r| + 1) * b`.
pub proof fn lemma_fx_div_brackets(a: int, b: int)
    requires
        b > 0,
    ensures
        abs(fx_div_spec(a, b)) >= 0,
        abs(fx_div_spec(a, b)) * b <= abs(a) * scale_int(),
        abs(a) * scale_int() < (abs(fx_div_spec(a, b)) + 1) * b,
{
    let num = (abs(a) * scale_int()) as int;
    let m = num / b;
    vstd::arithmetic::div_mod::lemma_div_pos_is_pos(num, b);
    vstd::arithmetic::div_mod::lemma_fundamental_div_mod(num, b);
    vstd::arithmetic::div_mod::lemma_mod_bound(num, b);
    assert(abs(b) == b);
    assert(abs(fx_div_spec(a, b)) == m);
    assert(num == b * m + num % b);
    assert(num < b * m + b);
    assert((m + 1) * b == b * m + b) by (nonlinear_arith);
    assert(m * b == b * m) by (nonlinear_arith);
}

/// The decimal digit character for a value below ten.
pub open spec fn digit_char(d: nat) -> char {
    if d == 0 {
        '0'
    } else if d == 1 {
        '1'
    } else if d == 2 {
        '2'
    } else if d == 3 {
        '3'
    } else if d == 4 {
        '4'
    } else if d == 5 {
        '5'
    } else if d == 6 {
        '6'
    } else if d == 7 {
        '7'
    } else if d == 8 {
        '8'
    } else {
        '9'
    }
}

/// The decimal rendering of a natural number, without leading zeros.
pub open spec fn udec_spec(n: nat) -> Seq<char>
    decreases n,
{
    if n < 10 {
        seq![digit_char(n)]
    } else {
        udec_spec(n / 10) + seq![digit_char(n % 10)]
    }
}

/// The decimal rendering of `n % 10^width` in exactly `width` digits,
/// with leading zeros.
pub open spec fn fixed_width_spec(n: nat, width: nat) -> Seq<char>
    decreases width,
{
    if width == 0 {
        Seq::empty()
    } else {
        fixed_width_spec(n / 10, (width - 1) as nat) + seq![digit_char(n % 10)]
    }
}

/// `fixed_width_spec` with the trailing zero digits removed.
pub open spec fn frac_spec(n: nat, width: nat) -> Seq<char>
    decreases width,
{
    if width == 0 {
        Seq::empty()
    } else if n % 10 == 0 {
        frac_spec(n / 10, (width - 1) as nat)
    } else {
        fixed_width_spec(n, width)
    }
}

/// The rendering of a nonnegative scalar: integer part, then a dot and
/// the fractional digits when the value is not whole.
pub open spec fn mag_str_spec(m: nat) -> Seq<char> {
    let ip = m / 1_000_000;
    let fp = m % 1_000_000;
    if fp == 0 {
        udec_spec(ip)
    } else {
        udec_spec(ip) + seq!['.'] + frac_spec(fp, 6)
    }
}

/// The decimal rendering of a fixed-point scalar.
pub open spec fn scalar_str_spec(v: int) -> Seq<char> {
    if v < 0 {
        seq!['-'] + mag_str_spec(abs(v))
    } else {
        mag_str_spec(abs(v))
    }
}

fn digit_str(d: u64) -> (r: &'static str)
    requires
        d < 10,
    ensures
        r@ == seq![digit_char(d as nat)],
{
    let r: &'static str = if d == 0 {
        "0"
    } else if d == 1 {
        "1"
    } else if d == 2 {
        "2"
    } else if d == 3 {
        "3"
    } else if d == 4 {
        "4"
    } else if d == 5 {
        "5"
    } else if d == 6 {
        "6"
    } else if d == 7 {
        "7"
    } else if d == 8 {
        "8"
    } else {
        "9"
    };
    proof {
        reveal_strlit("0");
        reveal_strlit("1");
        reveal_strlit("2");
        reveal_strlit("3");
        reveal_strlit("4");
        reveal_strlit("5");
        reveal_strlit("6");
        reveal_strlit("7");
        reveal_strlit("8");
        reveal_strlit("9");
        assert(r@ =~= seq![digit_char(d as nat)]);
    }
    r
}

/// The decimal rendering of a machine word, without leading zeros.
pub fn u64_to_dec(n: u64) -> (r: String)
    ensures
        r@ == udec_spec(n as nat),
    decreases n,
{
    if n < 10 {
        String::from_str(digit_str(n))
    } else {
        let front: String = u64_to_dec(n / 10);
        front.concat(digit_str(n % 10))
    }
}

/// The decimal rendering of `n % 10^width` in exactly `width` digits.
pub fn fixed_width_dec(n: u64, width: u64) -> (r: String)
    ensures
        r@ == fixed_width_spec(n as nat, width as nat),
    decreases width,
{
    if width == 0 {
        String::new()
    } else {
        let front: String = fixed_width_dec(n / 10, width - 1);
        front.concat(digit_str(n % 10))
    }
}

/// The rendering of a fraction numerator, trailing zero digits removed.
pub fn frac_dec(n: u64, width: u64) -> (r: String)
    ensures
        r@ == frac_spec(n as nat, width as nat),
    decreases width,
{
    if width == 0 {
        String::new()
    } else if n % 10 == 0 {
        frac_dec(n / 10, width - 1)
    } else {
        fixed_width_dec(n, width)
    }
}

/// The decimal rendering of a fixed-point scalar, in the shape the
/// framework prints: no trailing zeros, no dot on whole values.
pub fn scalar_to_string(v: i64) -> (r: String)
    requires
        v > i64::MIN,
    ensures
        r@ == scalar_str_spec(v as int),
{
    let neg: bool = v < 0;
    let m: u64 = if neg { (-v) as u64 } else { v as u64 };
    let ip: u64 = m / 1_000_000;
    let fp: u64 = m % 1_000_000;
    let mut s: String = if neg {
        proof {
            reveal_strlit("-");
        }
        String::from_str("-")
    } else {
        String::new()
    };
    let front: String = u64_to_dec(ip);
    s.append(front.as_str());
    if fp != 0 {
        proof {
            reveal_strlit(".");
        }
        s.append(".");
        let frac: String = frac_dec(fp, 6);
        s.append(frac.as_str());
    }
    proof {
        assert(s@ =~= scalar_str_spec(v as int));
    }
    s
}

} // verus!
