//! Gravity, drag and the bounded domain.

use vstd::prelude::*;
use crate::fixed::{
    difference, lemma_times_shrinks, magnitude_of, negated, sat_add, sat_mul, sat_neg, sat_sub, sum,
    times, ONE,
};
use crate::sphere::{effective_dt, Sphere, SphereVelocity};
use crate::vector::{lemma_shorter, norm_sq, vec_scaled, vec_sum, Vec3};

verus! {

/// Depth of the ground plane below the origin.
pub const GROUND_LEVEL: i64 = 5_000_000;

/// Distance of each lateral wall from the origin.
pub const WALL_BOUND: i64 = 25_000_000;

/// Share of the lateral velocity that is left after a landing.
pub const IMPACT_DAMPING: i64 = 900_000;

/// Tunable knobs of the body simulation.
#[derive(Clone, Copy, Debug, PartialEq, Eq, Structural)]
pub struct PhysicsSettings {
    pub gravity: Vec3,
    pub air_resistance: i64,
    pub bounce_factor: i64,
}

/// A velocity after gravity has acted for the dilated frame time.
pub open spec fn with_gravity(velocity: Vec3, gravity: Vec3, eff: int) -> Vec3 {
    vec_sum(velocity, vec_scaled(gravity, eff))
}

/// The factor that drag leaves of a velocity.
pub open spec fn drag_factor(air_resistance: int, eff: int) -> int {
    difference(ONE as int, times(air_resistance, eff))
}

/// A velocity after drag.
pub open spec fn with_drag(velocity: Vec3, air_resistance: int, eff: int) -> Vec3 {
    vec_scaled(velocity, drag_factor(air_resistance, eff))
}

/// The sphere touches or is below the ground plane.
pub open spec fn hits_ground(y: int, radius: int) -> bool {
    difference(y, radius) <= -GROUND_LEVEL
}

/// A coordinate kept between the two walls of its axis.
pub open spec fn walled(c: int) -> int {
    if c > WALL_BOUND {
        WALL_BOUND as int
    } else if c < -WALL_BOUND {
        -WALL_BOUND as int
    } else {
        c
    }
}

/// A velocity component turned round and scaled by the bounce factor.
pub open spec fn reflected(v: int, bounce: int) -> int {
    times(v, negated(bounce))
}

/// A lateral velocity component after the collision checks: damped by a
/// landing, then reflected where the coordinate `c` is beyond a wall.
pub open spec fn lateral_after(v: int, c: int, landed: bool, bounce: int) -> int {
    let damped = if landed {
        times(v, IMPACT_DAMPING as int)
    } else {
        v
    };
    if c > WALL_BOUND || c < -WALL_BOUND {
        reflected(damped, bounce)
    } else {
        damped
    }
}

/// The position after the collision checks.
pub open spec fn collided_position(p: Vec3, radius: int) -> Vec3 {
    Vec3 {
        x: walled(p.x as int) as i64,
        y: if hits_ground(p.y as int, radius) {
            sum(-GROUND_LEVEL, radius) as i64
        } else {
            p.y
        },
        z: walled(p.z as int) as i64,
    }
}

/// The velocity after the collision checks at position `p`.
pub open spec fn collided_velocity(v: Vec3, p: Vec3, radius: int, bounce: int) -> Vec3 {
    let landed = hits_ground(p.y as int, radius);
    Vec3 {
        x: lateral_after(v.x as int, p.x as int, landed, bounce) as i64,
        y: if landed {
            reflected(v.y as int, bounce) as i64
        } else {
            v.y
        },
        z: lateral_after(v.z as int, p.z as int, landed, bounce) as i64,
    }
}

/// A collision with a bounce factor between minus one and one never makes
/// the velocity longer.
pub proof fn lemma_collision_slows(v: Vec3, p: Vec3, radius: int, bounce: int)
    requires
        -ONE <= bounce <= ONE,
    ensures
        norm_sq(collided_velocity(v, p, radius, bounce)) <= norm_sq(v),
{
    let w = collided_velocity(v, p, radius, bounce);
    lemma_lateral_shrinks(v.x as int, p.x as int, hits_ground(p.y as int, radius), bounce);
    lemma_lateral_shrinks(v.z as int, p.z as int, hits_ground(p.y as int, radius), bounce);
    lemma_times_shrinks(v.y as int, negated(bounce));
    lemma_shorter(w, v);
}

/// The collision checks never increase a lateral component's magnitude.
pub proof fn lemma_lateral_shrinks(v: int, c: int, landed: bool, bounce: int)
    requires
        -ONE <= bounce <= ONE,
    ensures
        magnitude_of(lateral_after(v, c, landed, bounce)) <= magnitude_of(v),
{
    lemma_times_shrinks(v, IMPACT_DAMPING as int);
    let damped = if landed {
        times(v, IMPACT_DAMPING as int)
    } else {
        v
    };
    lemma_times_shrinks(damped, negated(bounce));
}

impl Default for PhysicsSettings {
    fn default() -> (r: Self)
        ensures
            r == (PhysicsSettings {
                gravity: Vec3 { x: 0, y: -9_810_000i64, z: 0 },
                air_resistance: 20_000,
                bounce_factor: 700_000,
            }),
    {
        PhysicsSettings {
            gravity: Vec3 { x: 0, y: -9_810_000, z: 0 },
            air_resistance: 20_000,
            bounce_factor: 700_000,
        }
    }
}

/// Accelerates the sphere by gravity for the dilated frame time.
pub fn apply_gravity(dt: i64, time_scale: i64, physics: &PhysicsSettings, velocity: &mut SphereVelocity)
    ensures
        final(velocity).velocity == with_gravity(
            old(velocity).velocity,
            physics.gravity,
            effective_dt(dt as int, time_scale as int),
        ),
        final(velocity).max_speed == old(velocity).max_speed,
{
    let delta: i64 = sat_mul(dt, time_scale);
    velocity.velocity = velocity.velocity.plus(physics.gravity.scaled(delta));
}

/// Slows the sphere by drag, in proportion to the dilated frame time.
pub fn apply_air_resistance(dt: i64, time_scale: i64, physics: &PhysicsSettings, velocity: &mut SphereVelocity)
    ensures
        final(velocity).velocity == with_drag(
            old(velocity).velocity,
            physics.air_resistance as int,
            effective_dt(dt as int, time_scale as int),
        ),
        final(velocity).max_speed == old(velocity).max_speed,
{
    let delta: i64 = sat_mul(dt, time_scale);
    let resistance_factor: i64 = sat_sub(ONE, sat_mul(physics.air_resistance, delta));
    velocity.velocity = velocity.velocity.scaled(resistance_factor);
}

/// A lateral velocity component after the collision checks.
fn lateral_bounce(v: i64, c: i64, landed: bool, bounce: i64) -> (r: i64)
    ensures
        r == lateral_after(v as int, c as int, landed, bounce as int),
{
    let damped: i64 = if landed {
        sat_mul(v, IMPACT_DAMPING)
    } else {
        v
    };
    if c > WALL_BOUND || c < -WALL_BOUND {
        sat_mul(damped, sat_neg(bounce))
    } else {
        damped
    }
}

/// A coordinate kept between the two walls of its axis.
fn keep_between_walls(c: i64) -> (r: i64)
    ensures
        r == walled(c as int),
{
    if c > WALL_BOUND {
        WALL_BOUND
    } else if c < -WALL_BOUND {
        -WALL_BOUND
    } else {
        c
    }
}

/// Keeps the sphere on the ground plane and between the lateral walls: a
/// sphere at or below the ground is put on it and bounces, one beyond a wall
/// is put on it and bounces back.
pub fn handle_bounds_collision(
    physics: &PhysicsSettings,
    position: &mut Vec3,
    velocity: &mut SphereVelocity,
    sphere: &Sphere,
)
    ensures
        *final(position) == collided_position(*old(position), sphere.radius as int),
        final(velocity).velocity == collided_velocity(
            old(velocity).velocity,
            *old(position),
            sphere.radius as int,
            physics.bounce_factor as int,
        ),
        final(velocity).max_speed == old(velocity).max_speed,
        final(position).y - sphere.radius >= -GROUND_LEVEL,
        -WALL_BOUND <= final(position).x <= WALL_BOUND,
        -WALL_BOUND <= final(position).z <= WALL_BOUND,
        -ONE <= physics.bounce_factor <= ONE ==> norm_sq(final(velocity).velocity) <= norm_sq(
            old(velocity).velocity,
        ),
{
    proof {
        if -ONE <= physics.bounce_factor <= ONE {
            lemma_collision_slows(
                velocity.velocity,
                *position,
                sphere.radius as int,
                physics.bounce_factor as int,
            );
        }
    }
    let p: Vec3 = *position;
    let v: Vec3 = velocity.velocity;
    let landed: bool = sat_sub(p.y, sphere.radius) <= -GROUND_LEVEL;
    velocity.velocity = Vec3 {
        x: lateral_bounce(v.x, p.x, landed, physics.bounce_factor),
        y: if landed {
            sat_mul(v.y, sat_neg(physics.bounce_factor))
        } else {
            v.y
        },
        z: lateral_bounce(v.z, p.z, landed, physics.bounce_factor),
    };
    *position = Vec3 {
        x: keep_between_walls(p.x),
        y: if landed {
            sat_add(-GROUND_LEVEL, sphere.radius)
        } else {
            p.y
        },
        z: keep_between_walls(p.z),
    };
}

} // verus!
