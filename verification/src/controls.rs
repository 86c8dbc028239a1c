//! The input sampler and the forces that input puts on the sphere.

use vstd::prelude::*;
use crate::fixed::{difference, negated, ratio, sat_div, sat_mul, sat_neg, sat_sub, times, ONE};
use crate::sphere::{effective_dt, SphereVelocity};
use crate::vector::{planar_limited, planar_norm_sq, vec_limited, vec_scaled, vec_sum, Vec2, Vec3};

verus! {

/// Share of the tilt that is left after one frame without a pointer.
pub const RETURN_FACTOR: i64 = 900_000;

/// Upward force added while the input is engaged.
pub const VERTICAL_BOOST: i64 = 2_000_000;

/// The raw value that stands for two.
pub const TWO: i64 = 2_000_000;

/// Tunable knobs of the controls.
#[derive(Clone, Copy, Debug, PartialEq, Eq, Structural)]
pub struct ControlSettings {
    pub tilt_sensitivity: i64,
    pub touch_force_multiplier: i64,
    pub max_tilt_force: i64,
}

/// What the input sampler hands on each frame.
#[derive(Clone, Copy, Debug, PartialEq, Eq, Structural)]
pub struct InputState {
    /// Direction of the tilt.
    pub tilt_input: Vec2,
    /// Whether the input is engaged.
    pub is_touching: bool,
    /// The pointer's last position in the viewport.
    pub touch_position: Vec2,
}

/// The keys that the discrete source reads, each pressed or not.
#[derive(Clone, Copy, Debug, PartialEq, Eq, Structural)]
pub struct KeyStates {
    pub arrow_left: bool,
    pub arrow_right: bool,
    pub arrow_up: bool,
    pub arrow_down: bool,
    pub key_a: bool,
    pub key_d: bool,
    pub key_w: bool,
    pub key_s: bool,
    pub space: bool,
}

/// One axis of the discrete source: plus one for the positive key, minus one
/// for the negative key, summed.
pub open spec fn key_axis(negative: bool, positive: bool) -> int {
    (if positive {
        ONE as int
    } else {
        0
    }) - (if negative {
        ONE as int
    } else {
        0
    })
}

/// The input after the discrete source was sampled with the keys in the
/// states `keys`.
pub open spec fn after_keyboard(s: InputState, keys: KeyStates) -> InputState {
    InputState {
        tilt_input: Vec2 {
            x: key_axis(keys.arrow_left || keys.key_a, keys.arrow_right || keys.key_d) as i64,
            y: key_axis(keys.arrow_down || keys.key_s, keys.arrow_up || keys.key_w) as i64,
        },
        is_touching: keys.space,
        ..s
    }
}

/// The tilt that a pointer at `p` gives in a viewport of the size `size`:
/// the offset from the centre, divided by the half extent on each axis, and
/// limited to the length one.
pub open spec fn pointer_tilt(p: Vec2, size: Vec2) -> Vec2 {
    let cx = ratio(size.x as int, TWO as int);
    let cy = ratio(size.y as int, TWO as int);
    planar_limited(
        Vec2 { x: ratio(difference(p.x as int, cx), cx) as i64, y: ratio(difference(p.y as int, cy), cy) as i64 },
        ONE as int,
    )
}

/// A tilt one frame nearer to neutral.
pub open spec fn decayed(tilt: Vec2) -> Vec2 {
    Vec2 { x: times(tilt.x as int, RETURN_FACTOR as int) as i64, y: times(tilt.y as int, RETURN_FACTOR as int) as i64 }
}

/// The input after the pointer source was sampled. Without a viewport
/// nothing changes; with a pointer the tilt follows it; without one the tilt
/// decays toward neutral.
pub open spec fn after_touch(s: InputState, touch: Option<Vec2>, window: Option<Vec2>) -> InputState {
    match window {
        None => s,
        Some(size) => match touch {
            Some(p) => InputState { tilt_input: pointer_tilt(p, size), is_touching: true, touch_position: p },
            None => InputState { tilt_input: decayed(s.tilt_input), is_touching: false, ..s },
        },
    }
}

/// The input after both sources were sampled: the discrete source first, then
/// the pointer source, which overrides it wherever there is a viewport.
pub open spec fn after_sampling(s: InputState, keys: KeyStates, touch: Option<Vec2>, window: Option<Vec2>) -> InputState {
    after_touch(after_keyboard(s, keys), touch, window)
}

/// The horizontal force of a tilt, before its limit.
pub open spec fn tilt_force(tilt: Vec2, sensitivity: int) -> Vec3 {
    Vec3 { x: times(tilt.x as int, sensitivity) as i64, y: 0, z: times(negated(tilt.y as int), sensitivity) as i64 }
}

/// A velocity after the limited tilt force has acted for the dilated frame
/// time.
pub open spec fn with_tilt(velocity: Vec3, tilt: Vec2, control: ControlSettings, eff: int) -> Vec3 {
    vec_sum(
        velocity,
        vec_scaled(
            vec_limited(tilt_force(tilt, control.tilt_sensitivity as int), control.max_tilt_force as int),
            eff,
        ),
    )
}

/// The force added while the input is engaged: horizontal along the tilt,
/// with a fixed upward part.
pub open spec fn touch_boost(tilt: Vec2, multiplier: int) -> Vec3 {
    Vec3 {
        x: times(tilt.x as int, multiplier) as i64,
        y: VERTICAL_BOOST,
        z: times(negated(tilt.y as int), multiplier) as i64,
    }
}

/// A velocity after the engage boost, which acts only while the input is
/// engaged.
pub open spec fn with_touch(velocity: Vec3, input: InputState, control: ControlSettings, eff: int) -> Vec3 {
    if input.is_touching {
        vec_sum(velocity, vec_scaled(touch_boost(input.tilt_input, control.touch_force_multiplier as int), eff))
    } else {
        velocity
    }
}

impl Default for ControlSettings {
    fn default() -> (r: Self)
        ensures
            r == (ControlSettings {
                tilt_sensitivity: 15_000_000,
                touch_force_multiplier: 8_000_000,
                max_tilt_force: 20_000_000,
            }),
    {
        ControlSettings { tilt_sensitivity: 15_000_000, touch_force_multiplier: 8_000_000, max_tilt_force: 20_000_000 }
    }
}

impl Default for KeyStates {
    fn default() -> (r: Self)
        ensures
            r == (KeyStates {
                arrow_left: false,
                arrow_right: false,
                arrow_up: false,
                arrow_down: false,
                key_a: false,
                key_d: false,
                key_w: false,
                key_s: false,
                space: false,
            }),
    {
        KeyStates {
            arrow_left: false,
            arrow_right: false,
            arrow_up: false,
            arrow_down: false,
            key_a: false,
            key_d: false,
            key_w: false,
            key_s: false,
            space: false,
        }
    }
}

impl Default for InputState {
    fn default() -> (r: Self)
        ensures
            r == (InputState {
                tilt_input: Vec2 { x: 0, y: 0 },
                is_touching: false,
                touch_position: Vec2 { x: 0, y: 0 },
            }),
    {
        InputState { tilt_input: Vec2::zero(), is_touching: false, touch_position: Vec2::zero() }
    }
}

/// One axis of the discrete source.
fn axis(negative: bool, positive: bool) -> (r: i64)
    ensures
        r == key_axis(negative, positive),
{
    let mut tilt: i64 = 0;
    if negative {
        tilt = tilt - ONE;
    }
    if positive {
        tilt = tilt + ONE;
    }
    tilt
}

/// Turns the key states into a tilt: the four directions, each on two keys,
/// summed and not normalised, and the engage key.
pub fn apply_key_states(keyboard: &KeyStates, input_state: &mut InputState)
    ensures
        *final(input_state) == after_keyboard(*old(input_state), *keyboard),
{
    let x: i64 = axis(keyboard.arrow_left || keyboard.key_a, keyboard.arrow_right || keyboard.key_d);
    let y: i64 = axis(keyboard.arrow_down || keyboard.key_s, keyboard.arrow_up || keyboard.key_w);
    input_state.tilt_input = Vec2 { x, y };
    input_state.is_touching = keyboard.space;
}

/// Samples the pointer source: `touch` is the active pointer's position, if
/// any, and `window` the viewport's size, if there is a viewport.
pub fn handle_touch_input(touch: Option<Vec2>, window: Option<Vec2>, input_state: &mut InputState)
    ensures
        *final(input_state) == after_touch(*old(input_state), touch, window),
        window.is_some() ==> final(input_state).is_touching == touch.is_some(),
        window.is_some() && touch.is_some() ==> planar_norm_sq(final(input_state).tilt_input) <= ONE * ONE,
{
    if let Some(size) = window {
        if let Some(p) = touch {
            input_state.is_touching = true;
            input_state.touch_position = p;
            let cx: i64 = sat_div(size.x, TWO);
            let cy: i64 = sat_div(size.y, TWO);
            let touch_offset = Vec2 { x: sat_div(sat_sub(p.x, cx), cx), y: sat_div(sat_sub(p.y, cy), cy) };
            input_state.tilt_input = touch_offset.clamp_length_max(ONE);
        } else {
            input_state.is_touching = false;
            input_state.tilt_input = Vec2 {
                x: sat_mul(input_state.tilt_input.x, RETURN_FACTOR),
                y: sat_mul(input_state.tilt_input.y, RETURN_FACTOR),
            };
        }
    }
}

/// Samples both sources for one frame, the discrete one first.
pub fn sample_input(keyboard: &KeyStates, touch: Option<Vec2>, window: Option<Vec2>, input_state: &mut InputState)
    ensures
        *final(input_state) == after_sampling(*old(input_state), *keyboard, touch, window),
        window.is_some() ==> final(input_state).is_touching == touch.is_some(),
        window.is_none() ==> final(input_state).is_touching == keyboard.space,
{
    apply_key_states(keyboard, input_state);
    handle_touch_input(touch, window, input_state);
}

/// Pushes the sphere along the tilt, with the force limited in length.
pub fn apply_tilt_controls(
    dt: i64,
    time_scale: i64,
    control_settings: &ControlSettings,
    input_state: &InputState,
    velocity: &mut SphereVelocity,
)
    ensures
        final(velocity).velocity == with_tilt(
            old(velocity).velocity,
            input_state.tilt_input,
            *control_settings,
            effective_dt(dt as int, time_scale as int),
        ),
        final(velocity).max_speed == old(velocity).max_speed,
{
    let delta: i64 = sat_mul(dt, time_scale);
    let force = Vec3 {
        x: sat_mul(input_state.tilt_input.x, control_settings.tilt_sensitivity),
        y: 0,
        z: sat_mul(sat_neg(input_state.tilt_input.y), control_settings.tilt_sensitivity),
    };
    let clamped_force = force.clamp_length_max(control_settings.max_tilt_force);
    velocity.velocity = velocity.velocity.plus(clamped_force.scaled(delta));
}

/// Adds the engage boost while the input is engaged.
pub fn apply_touch_force(
    dt: i64,
    time_scale: i64,
    control_settings: &ControlSettings,
    input_state: &InputState,
    velocity: &mut SphereVelocity,
)
    ensures
        final(velocity).velocity == with_touch(
            old(velocity).velocity,
            *input_state,
            *control_settings,
            effective_dt(dt as int, time_scale as int),
        ),
        final(velocity).max_speed == old(velocity).max_speed,
{
    if input_state.is_touching {
        let delta: i64 = sat_mul(dt, time_scale);
        let boost = Vec3 {
            x: sat_mul(input_state.tilt_input.x, control_settings.touch_force_multiplier),
            y: VERTICAL_BOOST,
            z: sat_mul(sat_neg(input_state.tilt_input.y), control_settings.touch_force_multiplier),
        };
        velocity.velocity = velocity.velocity.plus(boost.scaled(delta));
    }
}

} // verus!
