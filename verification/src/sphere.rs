//! The sphere: its size, its velocity and its motion.

use vstd::prelude::*;
use crate::fixed::{sat_mul, times};
use crate::vector::{norm_sq, vec_limited, vec_scaled, vec_sum, Vec3};

verus! {

/// Share of the velocity that is left after one frame of friction.
pub const FRICTION: i64 = 980_000;

/// The sphere's size and charge.
#[derive(Clone, Copy, Debug, PartialEq, Eq, Structural)]
pub struct Sphere {
    pub radius: i64,
    pub energy_level: i64,
}

/// The sphere's velocity and the speed that it never exceeds.
#[derive(Clone, Copy, Debug, PartialEq, Eq, Structural)]
pub struct SphereVelocity {
    pub velocity: Vec3,
    pub max_speed: i64,
}

/// The frame time as the simulation feels it: dilated by the time scale.
pub open spec fn effective_dt(dt: int, time_scale: int) -> int {
    times(dt, time_scale)
}

/// A position carried along a velocity for the dilated frame time.
pub open spec fn moved(position: Vec3, velocity: Vec3, eff: int) -> Vec3 {
    vec_sum(position, vec_scaled(velocity, eff))
}

/// A velocity after friction and the speed limit.
pub open spec fn slowed(velocity: Vec3, max_speed: int) -> Vec3 {
    vec_limited(vec_scaled(velocity, FRICTION as int), max_speed)
}

/// Moves the sphere along its velocity for the dilated frame time, then
/// applies friction and limits the speed.
pub fn apply_sphere_momentum(dt: i64, time_scale: i64, position: &mut Vec3, velocity: &mut SphereVelocity)
    ensures
        *final(position) == moved(*old(position), old(velocity).velocity, effective_dt(dt as int, time_scale as int)),
        final(velocity).velocity == slowed(old(velocity).velocity, old(velocity).max_speed as int),
        final(velocity).max_speed == old(velocity).max_speed,
        norm_sq(final(velocity).velocity) <= final(velocity).max_speed * final(velocity).max_speed,
{
    let delta: i64 = sat_mul(dt, time_scale);
    *position = position.plus(velocity.velocity.scaled(delta));
    velocity.velocity = velocity.velocity.scaled(FRICTION).clamp_length_max(velocity.max_speed);
}

} // verus!
