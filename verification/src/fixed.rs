//! Saturating fixed-point scalars.
//!
//! A scalar is an `i64` that counts millionths: `ONE` stands for 1.0. Every
//! operation is total; a result outside the range of `i64` is replaced by the
//! nearest end of that range, and quotients are rounded toward zero.

use vstd::prelude::*;

verus! {

/// The raw value that stands for one.
pub const ONE: i64 = 1_000_000;

/// The largest magnitude of an `i64`, two to the power 63.
pub const HALF_RANGE: u128 = 9_223_372_036_854_775_808;

/// The largest value that `root_up` returns, two to the power 64.
pub const ROOT_LIMIT: u128 = 18_446_744_073_709_551_616;

/// Clamps a mathematical integer into the range of `i64`.
pub open spec fn saturate(x: int) -> int {
    if x < i64::MIN {
        i64::MIN as int
    } else if x > i64::MAX {
        i64::MAX as int
    } else {
        x
    }
}

/// Distance of an integer from zero.
pub open spec fn magnitude_of(x: int) -> int {
    if x < 0 {
        -x
    } else {
        x
    }
}

/// Quotient of `x` by a non-zero `d`, rounded toward zero.
pub open spec fn quot(x: int, d: int) -> int {
    if d > 0 {
        if x >= 0 {
            x / d
        } else {
            -((-x) / d)
        }
    } else {
        if x >= 0 {
            -(x / (-d))
        } else {
            (-x) / (-d)
        }
    }
}

/// Saturating sum.
pub open spec fn sum(a: int, b: int) -> int {
    saturate(a + b)
}

/// Saturating difference.
pub open spec fn difference(a: int, b: int) -> int {
    saturate(a - b)
}

/// Saturating negation.
pub open spec fn negated(a: int) -> int {
    saturate(-a)
}

/// Saturating fixed-point product, rounded toward zero.
pub open spec fn times(a: int, b: int) -> int {
    saturate(quot(a * b, 1_000_000))
}

/// Saturating fixed-point quotient, rounded toward zero. Division by zero
/// saturates in the direction of the dividend's sign.
pub open spec fn ratio(a: int, b: int) -> int {
    if b != 0 {
        saturate(quot(a * 1_000_000, b))
    } else if a > 0 {
        i64::MAX as int
    } else if a < 0 {
        i64::MIN as int
    } else {
        0
    }
}

/// `x` limited to the interval from `lo` to `hi`.
pub open spec fn clamped(x: int, lo: int, hi: int) -> int {
    if x < lo {
        lo
    } else if x > hi {
        hi
    } else {
        x
    }
}

/// `r` is the least non-negative integer whose square is at least `n`.
pub open spec fn is_root_up(n: int, r: int) -> bool {
    &&& r >= 0
    &&& r * r >= n
    &&& (r == 0 || (r - 1) * (r - 1) < n)
}

/// The square root of `n`, rounded up.
pub open spec fn root_up_of(n: int) -> int {
    choose|r: int| is_root_up(n, r)
}

/// At most one integer is the rounded-up root of `n`.
pub proof fn lemma_root_up_unique(n: int, a: int, b: int)
    requires
        is_root_up(n, a),
        is_root_up(n, b),
    ensures
        a == b,
{
    if a < b {
        assert(a * a <= (b - 1) * (b - 1)) by (nonlinear_arith)
            requires
                0 <= a <= b - 1,
        ;
    } else if b < a {
        assert(b * b <= (a - 1) * (a - 1)) by (nonlinear_arith)
            requires
                0 <= b <= a - 1,
        ;
    }
}

/// Every non-negative integer has a rounded-up root, and `root_up_of` is it.
pub proof fn lemma_root_up_exists(n: nat)
    ensures
        is_root_up(n as int, root_up_of(n as int)),
    decreases n,
{
    if n == 0 {
        assert(is_root_up(0, 0));
    } else {
        lemma_root_up_exists((n - 1) as nat);
        let r = root_up_of(n - 1);
        if r * r >= n {
            assert(is_root_up(n as int, r));
        } else {
            assert((r + 1) * (r + 1) >= n) by (nonlinear_arith)
                requires
                    r * r >= n - 1,
                    r >= 0,
            ;
            assert(is_root_up(n as int, r + 1));
        }
    }
}

/// The product of two `i64` values has magnitude at most two to the power 126.
pub proof fn lemma_product_bound(a: int, b: int)
    requires
        magnitude_of(a) <= HALF_RANGE,
        magnitude_of(b) <= HALF_RANGE,
    ensures
        magnitude_of(a * b) <= HALF_RANGE * HALF_RANGE,
        magnitude_of(a * b) == magnitude_of(a) * magnitude_of(b),
{
    let x = magnitude_of(a);
    let y = magnitude_of(b);
    assert(magnitude_of(a * b) == x * y) by (nonlinear_arith)
        requires
            x == magnitude_of(a),
            y == magnitude_of(b),
    ;
    assert(x * y <= HALF_RANGE * HALF_RANGE) by (nonlinear_arith)
        requires
            0 <= x <= HALF_RANGE,
            0 <= y <= HALF_RANGE,
    ;
}

/// Rounding toward zero and saturating never increase a magnitude:
/// `|saturate(quot(x, d))| * |d| <= |x|`.
pub proof fn lemma_quot_shrinks(x: int, d: int)
    requires
        d != 0,
    ensures
        magnitude_of(saturate(quot(x, d))) * magnitude_of(d) <= magnitude_of(x),
        x >= 0 && d > 0 ==> saturate(quot(x, d)) >= 0,
        x <= 0 && d > 0 ==> saturate(quot(x, d)) <= 0,
{
    let mx = magnitude_of(x);
    let md = magnitude_of(d);
    let q = mx / md;
    assert(0 <= q && q * md <= mx) by (nonlinear_arith)
        requires
            q == mx / md,
            md > 0,
            mx >= 0,
    ;
    let s = magnitude_of(saturate(quot(x, d)));
    assert(s <= q);
    assert(s * md <= q * md) by (nonlinear_arith)
        requires
            0 <= s <= q,
            md > 0,
    ;
}

/// Multiplying by a factor between minus one and one never increases a
/// magnitude.
pub proof fn lemma_times_shrinks(a: int, b: int)
    requires
        magnitude_of(b) <= ONE,
    ensures
        magnitude_of(times(a, b)) <= magnitude_of(a),
{
    lemma_quot_shrinks(a * b, ONE as int);
    let t = magnitude_of(times(a, b));
    let ma = magnitude_of(a);
    let mb = magnitude_of(b);
    assert(magnitude_of(a * b) == ma * mb) by (nonlinear_arith)
        requires
            ma == magnitude_of(a),
            mb == magnitude_of(b),
    ;
    assert(t <= ma) by (nonlinear_arith)
        requires
            t * ONE <= ma * mb,
            0 <= mb <= ONE,
            ma >= 0,
            t >= 0,
    ;
}

/// A mathematical integer narrowed to `i64` by saturation.
fn narrow(x: i128) -> (r: i64)
    ensures
        r == saturate(x as int),
{
    if x < -9_223_372_036_854_775_808i128 {
        i64::MIN
    } else if x > 9_223_372_036_854_775_807i128 {
        i64::MAX
    } else {
        x as i64
    }
}

/// Distance from zero, as an unsigned value.
fn magnitude(x: i128) -> (r: u128)
    requires
        x > i128::MIN,
    ensures
        r == magnitude_of(x as int),
{
    if x < 0 {
        (-x) as u128
    } else {
        x as u128
    }
}

/// Saturating sum of two scalars.
pub fn sat_add(a: i64, b: i64) -> (r: i64)
    ensures
        r == sum(a as int, b as int),
{
    narrow(a as i128 + b as i128)
}

/// Saturating difference of two scalars.
pub fn sat_sub(a: i64, b: i64) -> (r: i64)
    ensures
        r == difference(a as int, b as int),
{
    narrow(a as i128 - b as i128)
}

/// Saturating negation of a scalar.
pub fn sat_neg(a: i64) -> (r: i64)
    ensures
        r == negated(a as int),
{
    narrow(-(a as i128))
}

/// `a * b / d`, rounded toward zero and saturated. The product is exact.
pub fn mul_div(a: i64, b: i64, d: i128) -> (r: i64)
    requires
        d != 0,
        d > i128::MIN,
    ensures
        r == saturate(quot(a * b, d as int)),
{
    proof {
        lemma_product_bound(a as int, b as int);
    }
    let p: i128 = (a as i128) * (b as i128);
    let q: u128 = magnitude(p) / magnitude(d);
    if (p < 0) == (d < 0) {
        if q > 9_223_372_036_854_775_807u128 {
            i64::MAX
        } else {
            q as i64
        }
    } else {
        if q > 9_223_372_036_854_775_808u128 {
            i64::MIN
        } else {
            narrow(-(q as i128))
        }
    }
}

/// Saturating fixed-point product of two scalars.
pub fn sat_mul(a: i64, b: i64) -> (r: i64)
    ensures
        r == times(a as int, b as int),
{
    mul_div(a, b, 1_000_000i128)
}

/// Saturating fixed-point quotient of two scalars.
pub fn sat_div(a: i64, b: i64) -> (r: i64)
    ensures
        r == ratio(a as int, b as int),
{
    if b != 0 {
        mul_div(a, ONE, b as i128)
    } else if a > 0 {
        i64::MAX
    } else if a < 0 {
        i64::MIN
    } else {
        0
    }
}

/// `x` limited to the interval from `lo` to `hi`.
pub fn clamp(x: i64, lo: i64, hi: i64) -> (r: i64)
    requires
        lo <= hi,
    ensures
        r == clamped(x as int, lo as int, hi as int),
{
    if x < lo {
        lo
    } else if x > hi {
        hi
    } else {
        x
    }
}

/// The square root of `n`, rounded up.
pub fn root_up(n: u128) -> (r: u128)
    ensures
        is_root_up(n as int, r as int),
        r == root_up_of(n as int),
        r <= ROOT_LIMIT,
{
    let mut lo: u128 = 0;
    let mut hi: u128 = 18_446_744_073_709_551_616u128;
    while lo < hi
        invariant
            lo <= hi <= ROOT_LIMIT,
            hi * hi >= n,
            lo == 0 || (lo - 1) * (lo - 1) < n,
        decreases hi - lo,
    {
        let mid: u128 = lo + (hi - lo) / 2;
        assert(mid * mid <= u128::MAX) by (nonlinear_arith)
            requires
                0 <= mid <= 18_446_744_073_709_551_615int,
        ;
        if mid * mid >= n {
            hi = mid;
        } else {
            lo = mid + 1;
        }
    }
    proof {
        let witness = choose|r: int| is_root_up(n as int, r);
        assert(is_root_up(n as int, lo as int));
        lemma_root_up_unique(n as int, lo as int, witness);
    }
    lo
}

} // verus!
