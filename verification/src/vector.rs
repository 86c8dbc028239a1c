//! Vectors of fixed-point scalars.

use vstd::prelude::*;
use crate::fixed::{
    lemma_product_bound, lemma_quot_shrinks, lemma_root_up_exists, magnitude_of, mul_div, quot, root_up, root_up_of,
    sat_add, sat_mul, saturate, sum, times, HALF_RANGE,
};

verus! {

/// A vector in the plane.
#[derive(Clone, Copy, Debug, PartialEq, Eq, Structural)]
pub struct Vec2 {
    pub x: i64,
    pub y: i64,
}

/// A vector in space; `y` points up.
#[derive(Clone, Copy, Debug, PartialEq, Eq, Structural)]
pub struct Vec3 {
    pub x: i64,
    pub y: i64,
    pub z: i64,
}

/// The squared length of `v`, in squared raw units.
pub open spec fn norm_sq(v: Vec3) -> int {
    v.x * v.x + v.y * v.y + v.z * v.z
}

/// Component-wise saturating sum.
pub open spec fn vec_sum(a: Vec3, b: Vec3) -> Vec3 {
    Vec3 { x: sum(a.x as int, b.x as int) as i64, y: sum(a.y as int, b.y as int) as i64, z: sum(a.z as int, b.z as int) as i64 }
}

/// Each component multiplied by the scalar `s`.
pub open spec fn vec_scaled(v: Vec3, s: int) -> Vec3 {
    Vec3 { x: times(v.x as int, s) as i64, y: times(v.y as int, s) as i64, z: times(v.z as int, s) as i64 }
}

/// Each component multiplied by `m` and divided by the positive `l`.
pub open spec fn vec_rescaled(v: Vec3, m: int, l: int) -> Vec3 {
    Vec3 {
        x: saturate(quot(v.x * m, l)) as i64,
        y: saturate(quot(v.y * m, l)) as i64,
        z: saturate(quot(v.z * m, l)) as i64,
    }
}

/// `v` itself where it is no longer than `max`; otherwise `v` shortened to
/// that length, by the ratio of `max` to the rounded-up length of `v`.
pub open spec fn vec_limited(v: Vec3, max: int) -> Vec3 {
    if norm_sq(v) > max * max {
        vec_rescaled(v, max, root_up_of(norm_sq(v)))
    } else {
        v
    }
}

/// The planar vector `v` limited to the length `max`.
pub open spec fn planar_limited(v: Vec2, max: int) -> Vec2 {
    let w = vec_limited(Vec3 { x: v.x, y: v.y, z: 0 }, max);
    Vec2 { x: w.x, y: w.y }
}

/// The squared length of a planar vector, in squared raw units.
pub open spec fn planar_norm_sq(v: Vec2) -> int {
    v.x * v.x + v.y * v.y
}

/// A vector rescaled by `m / l`, where `l` is at least its length, is no
/// longer than `|m|`.
pub proof fn lemma_rescaled_within(v: Vec3, m: int, l: int)
    requires
        l > 0,
        l * l >= norm_sq(v),
    ensures
        norm_sq(vec_rescaled(v, m, l)) <= m * m,
{
    let w = vec_rescaled(v, m, l);
    lemma_component_rescaled(v.x as int, m, l);
    lemma_component_rescaled(v.y as int, m, l);
    lemma_component_rescaled(v.z as int, m, l);
    let s = norm_sq(w);
    let n = norm_sq(v);
    let ll = l * l;
    let mm = m * m;
    assert(s * ll <= mm * n) by (nonlinear_arith)
        requires
            (w.x * w.x) * ll <= (v.x * v.x) * mm,
            (w.y * w.y) * ll <= (v.y * v.y) * mm,
            (w.z * w.z) * ll <= (v.z * v.z) * mm,
            s == w.x * w.x + w.y * w.y + w.z * w.z,
            n == v.x * v.x + v.y * v.y + v.z * v.z,
    ;
    assert(ll > 0 && mm >= 0 && s >= 0) by (nonlinear_arith)
        requires
            l > 0,
            ll == l * l,
            mm == m * m,
            s == w.x * w.x + w.y * w.y + w.z * w.z,
    ;
    assert(s <= mm) by (nonlinear_arith)
        requires
            s * ll <= mm * n,
            n <= ll,
            ll > 0,
            mm >= 0,
            s >= 0,
    ;
}

/// A vector limited to the length `max` is no longer than `|max|`.
pub proof fn lemma_limited_within(v: Vec3, max: int)
    ensures
        norm_sq(vec_limited(v, max)) <= max * max,
{
    let n = norm_sq(v);
    assert(max * max >= 0 && n >= 0) by (nonlinear_arith)
        requires
            n == v.x * v.x + v.y * v.y + v.z * v.z,
    ;
    if n > max * max {
        lemma_root_up_exists(n as nat);
        lemma_rescaled_within(v, max, root_up_of(n));
    }
}

/// One component of `lemma_rescaled_within`: with `w = a * m / l` rounded
/// toward zero and saturated, `w * w * l * l <= a * a * m * m`.
pub proof fn lemma_component_rescaled(a: int, m: int, l: int)
    requires
        l > 0,
    ensures
        (saturate(quot(a * m, l)) * saturate(quot(a * m, l))) * (l * l) <= (a * a) * (m * m),
{
    let w = saturate(quot(a * m, l));
    lemma_quot_shrinks(a * m, l);
    let p = magnitude_of(w);
    let t = magnitude_of(a * m);
    assert(p * l <= t);
    assert((p * l) * (p * l) <= t * t) by (nonlinear_arith)
        requires
            0 <= p * l <= t,
    ;
    assert(t * t == (a * a) * (m * m)) by (nonlinear_arith)
        requires
            t == a * m || t == -(a * m),
    ;
    assert((w * w) * (l * l) == (p * l) * (p * l)) by (nonlinear_arith)
        requires
            p == w || p == -w,
    ;
}

/// A vector whose components shrank in magnitude is no longer than before.
pub proof fn lemma_shorter(w: Vec3, v: Vec3)
    requires
        magnitude_of(w.x as int) <= magnitude_of(v.x as int),
        magnitude_of(w.y as int) <= magnitude_of(v.y as int),
        magnitude_of(w.z as int) <= magnitude_of(v.z as int),
    ensures
        norm_sq(w) <= norm_sq(v),
{
    lemma_square_monotone(w.x as int, v.x as int);
    lemma_square_monotone(w.y as int, v.y as int);
    lemma_square_monotone(w.z as int, v.z as int);
}

/// Squares grow with magnitude.
pub proof fn lemma_square_monotone(a: int, b: int)
    requires
        magnitude_of(a) <= magnitude_of(b),
    ensures
        a * a <= b * b,
{
    let p = magnitude_of(a);
    let q = magnitude_of(b);
    assert(p * p <= q * q) by (nonlinear_arith)
        requires
            0 <= p <= q,
    ;
    assert(a * a == p * p) by (nonlinear_arith)
        requires
            p == a || p == -a,
    ;
    assert(b * b == q * q) by (nonlinear_arith)
        requires
            q == b || q == -b,
    ;
}

/// The square of a scalar's magnitude.
fn square(a: i64) -> (r: u128)
    ensures
        r == a * a,
        r <= HALF_RANGE * HALF_RANGE,
{
    proof {
        lemma_product_bound(a as int, a as int);
    }
    let m: u128 = if a < 0 {
        (-(a as i128)) as u128
    } else {
        a as u128
    };
    assert(m * m == a * a) by (nonlinear_arith)
        requires
            m == a || m == -a,
    ;
    m * m
}

impl Vec2 {
    /// The vector with both components zero.
    pub fn zero() -> (r: Vec2)
        ensures
            r == (Vec2 { x: 0, y: 0 }),
    {
        Vec2 { x: 0, y: 0 }
    }

    /// The vector limited to the length `max`.
    pub fn clamp_length_max(self, max: i64) -> (r: Vec2)
        ensures
            r == planar_limited(self, max as int),
            planar_norm_sq(r) <= max * max,
    {
        let w = Vec3 { x: self.x, y: self.y, z: 0 }.clamp_length_max(max);
        assert(w.z * w.z >= 0) by (nonlinear_arith);
        Vec2 { x: w.x, y: w.y }
    }
}

impl Vec3 {
    /// The vector with all components zero.
    pub fn zero() -> (r: Vec3)
        ensures
            r == (Vec3 { x: 0, y: 0, z: 0 }),
    {
        Vec3 { x: 0, y: 0, z: 0 }
    }

    /// Component-wise saturating sum.
    pub fn plus(self, other: Vec3) -> (r: Vec3)
        ensures
            r == vec_sum(self, other),
    {
        Vec3 { x: sat_add(self.x, other.x), y: sat_add(self.y, other.y), z: sat_add(self.z, other.z) }
    }

    /// Each component multiplied by the scalar `s`.
    pub fn scaled(self, s: i64) -> (r: Vec3)
        ensures
            r == vec_scaled(self, s as int),
    {
        Vec3 { x: sat_mul(self.x, s), y: sat_mul(self.y, s), z: sat_mul(self.z, s) }
    }

    /// The squared length, in squared raw units.
    pub fn length_squared(self) -> (r: u128)
        ensures
            r == norm_sq(self),
    {
        let a: u128 = square(self.x);
        let b: u128 = square(self.y);
        let c: u128 = square(self.z);
        a + b + c
    }

    /// The vector limited to the length `max`: the result is never longer
    /// than `|max|` where the vector was shortened.
    pub fn clamp_length_max(self, max: i64) -> (r: Vec3)
        ensures
            r == vec_limited(self, max as int),
            norm_sq(r) <= max * max,
            norm_sq(self) <= max * max ==> r == self,
    {
        let n: u128 = self.length_squared();
        let limit: u128 = square(max);
        if n > limit {
            let l: u128 = root_up(n);
            proof {
                lemma_rescaled_within(self, max as int, l as int);
            }
            Vec3 {
                x: mul_div(self.x, max, l as i128),
                y: mul_div(self.y, max, l as i128),
                z: mul_div(self.z, max, l as i128),
            }
        } else {
            self
        }
    }
}

} // verus!
