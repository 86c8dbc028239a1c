//! The frame: input, then the chrono controller, then the body, then the
//! visual feedback, each step on what the one before it left.

use vstd::prelude::*;
use crate::chrono_slowmo::{
    after_frame, update_chrono, update_visual_effects, visual_of, ChronoSettings, ChronoState,
    VisualEffects,
};
use crate::controls::{
    apply_tilt_controls, apply_touch_force, with_tilt, with_touch, ControlSettings, InputState,
};
use crate::fixed::ONE;
use crate::physics::{
    apply_air_resistance, apply_gravity, collided_position, collided_velocity,
    handle_bounds_collision, lemma_collision_slows, with_drag, with_gravity, PhysicsSettings,
    GROUND_LEVEL, WALL_BOUND,
};
use crate::sphere::{
    apply_sphere_momentum, effective_dt, moved, slowed, Sphere, SphereVelocity, FRICTION,
};
use crate::vector::{lemma_limited_within, norm_sq, vec_scaled, Vec3};

verus! {

/// The velocity once all forces of the frame have acted: gravity, drag, the
/// tilt force and the engage boost, in this order.
pub open spec fn driven(
    v: Vec3,
    input: InputState,
    control: ControlSettings,
    physics: PhysicsSettings,
    eff: int,
) -> Vec3 {
    with_touch(
        with_tilt(
            with_drag(with_gravity(v, physics.gravity, eff), physics.air_resistance as int, eff),
            input.tilt_input,
            control,
            eff,
        ),
        input,
        control,
        eff,
    )
}

/// The position at the end of the frame: moved along the driven velocity,
/// then kept inside the domain.
pub open spec fn body_position_after(
    p: Vec3,
    v: Vec3,
    input: InputState,
    control: ControlSettings,
    physics: PhysicsSettings,
    radius: int,
    eff: int,
) -> Vec3 {
    collided_position(moved(p, driven(v, input, control, physics, eff), eff), radius)
}

/// The velocity at the end of the frame: driven, slowed by friction, limited
/// in speed, then changed by the collisions at the new position.
pub open spec fn body_velocity_after(
    p: Vec3,
    v: SphereVelocity,
    input: InputState,
    control: ControlSettings,
    physics: PhysicsSettings,
    radius: int,
    eff: int,
) -> Vec3 {
    let u = driven(v.velocity, input, control, physics, eff);
    collided_velocity(slowed(u, v.max_speed as int), moved(p, u, eff), radius, physics.bounce_factor as int)
}

/// The domain holds every position that a collision check left: on or above
/// the ground and between the walls. So a sphere that rests on the ground
/// does not sink below it, whatever its velocity.
pub proof fn lemma_stays_in_domain(p: Vec3, radius: int)
    requires
        i64::MIN <= radius <= i64::MAX,
    ensures
        collided_position(p, radius).y - radius >= -GROUND_LEVEL,
        -WALL_BOUND <= collided_position(p, radius).x <= WALL_BOUND,
        -WALL_BOUND <= collided_position(p, radius).z <= WALL_BOUND,
{
}

/// After every frame the body is inside the domain, wherever it was and
/// however it moved.
pub proof fn lemma_body_stays_in_domain(
    p: Vec3,
    v: Vec3,
    input: InputState,
    control: ControlSettings,
    physics: PhysicsSettings,
    radius: int,
    eff: int,
)
    requires
        i64::MIN <= radius <= i64::MAX,
    ensures
        body_position_after(p, v, input, control, physics, radius, eff).y - radius >= -GROUND_LEVEL,
        -WALL_BOUND <= body_position_after(p, v, input, control, physics, radius, eff).x <= WALL_BOUND,
        -WALL_BOUND <= body_position_after(p, v, input, control, physics, radius, eff).z <= WALL_BOUND,
{
    lemma_stays_in_domain(moved(p, driven(v, input, control, physics, eff), eff), radius);
}

/// After every frame the speed is within its limit: where the bounce factor
/// lies between minus one and one, the velocity at the end of the frame is no
/// longer than the maximal speed, whatever the forces were.
pub proof fn lemma_speed_bounded(
    p: Vec3,
    v: SphereVelocity,
    input: InputState,
    control: ControlSettings,
    physics: PhysicsSettings,
    radius: int,
    eff: int,
)
    requires
        -ONE <= physics.bounce_factor <= ONE,
    ensures
        norm_sq(body_velocity_after(p, v, input, control, physics, radius, eff)) <= v.max_speed * v.max_speed,
{
    let u = driven(v.velocity, input, control, physics, eff);
    lemma_limited_within(vec_scaled(u, FRICTION as int), v.max_speed as int);
    lemma_collision_slows(slowed(u, v.max_speed as int), moved(p, u, eff), radius, physics.bounce_factor as int);
}

/// Simulates the body for one frame at the given time scale.
pub fn update_body(
    dt: i64,
    time_scale: i64,
    input_state: &InputState,
    control_settings: &ControlSettings,
    physics: &PhysicsSettings,
    sphere: &Sphere,
    position: &mut Vec3,
    velocity: &mut SphereVelocity,
)
    ensures
        *final(position) == body_position_after(
            *old(position),
            old(velocity).velocity,
            *input_state,
            *control_settings,
            *physics,
            sphere.radius as int,
            effective_dt(dt as int, time_scale as int),
        ),
        final(velocity).velocity == body_velocity_after(
            *old(position),
            *old(velocity),
            *input_state,
            *control_settings,
            *physics,
            sphere.radius as int,
            effective_dt(dt as int, time_scale as int),
        ),
        final(velocity).max_speed == old(velocity).max_speed,
        final(position).y - sphere.radius >= -GROUND_LEVEL,
        -WALL_BOUND <= final(position).x <= WALL_BOUND,
        -WALL_BOUND <= final(position).z <= WALL_BOUND,
        -ONE <= physics.bounce_factor <= ONE ==> norm_sq(final(velocity).velocity) <= old(velocity).max_speed
            * old(velocity).max_speed,
{
    apply_gravity(dt, time_scale, physics, velocity);
    apply_air_resistance(dt, time_scale, physics, velocity);
    apply_tilt_controls(dt, time_scale, control_settings, input_state, velocity);
    apply_touch_force(dt, time_scale, control_settings, input_state, velocity);
    apply_sphere_momentum(dt, time_scale, position, velocity);
    handle_bounds_collision(physics, position, velocity, sphere);
}

/// Runs one whole frame on sampled input: the chrono controller first, then
/// the body at the time scale that the controller left, then the feedback.
pub fn update_frame(
    dt: i64,
    input_state: &InputState,
    chrono_settings: &ChronoSettings,
    control_settings: &ControlSettings,
    physics: &PhysicsSettings,
    sphere: &Sphere,
    chrono_state: &mut ChronoState,
    position: &mut Vec3,
    velocity: &mut SphereVelocity,
) -> (effects: VisualEffects)
    ensures
        *final(chrono_state) == after_frame(
            *old(chrono_state),
            input_state.is_touching,
            *chrono_settings,
            dt as int,
        ),
        final(chrono_state).in_range(),
        *final(position) == body_position_after(
            *old(position),
            old(velocity).velocity,
            *input_state,
            *control_settings,
            *physics,
            sphere.radius as int,
            effective_dt(dt as int, final(chrono_state).current_time_scale as int),
        ),
        final(velocity).velocity == body_velocity_after(
            *old(position),
            *old(velocity),
            *input_state,
            *control_settings,
            *physics,
            sphere.radius as int,
            effective_dt(dt as int, final(chrono_state).current_time_scale as int),
        ),
        final(velocity).max_speed == old(velocity).max_speed,
        final(position).y - sphere.radius >= -GROUND_LEVEL,
        -WALL_BOUND <= final(position).x <= WALL_BOUND,
        -WALL_BOUND <= final(position).z <= WALL_BOUND,
        -ONE <= physics.bounce_factor <= ONE ==> norm_sq(final(velocity).velocity) <= old(velocity).max_speed
            * old(velocity).max_speed,
        effects == visual_of(final(chrono_state).current_time_scale as int),
{
    let time_scale: i64 = update_chrono(input_state.is_touching, dt, chrono_settings, chrono_state);
    update_body(dt, time_scale, input_state, control_settings, physics, sphere, position, velocity);
    update_visual_effects(chrono_state)
}

} // verus!
