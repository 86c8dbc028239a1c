//! The chrono controller: slow motion gated by an energy reserve.
//!
//! Each frame runs three steps in order: the engage decision, one smoothing
//! step of the time scale toward its target, and the energy update.

use vstd::prelude::*;
use crate::fixed::{
    clamp, clamped, difference, lemma_quot_shrinks, magnitude_of, sat_add, sat_mul, sat_sub, sum,
    times, ONE,
};

verus! {

/// The smallest time scale, one tenth.
pub const MIN_TIME_SCALE: i64 = 100_000;

/// A full energy reserve, one hundred.
pub const FULL_ENERGY: i64 = 100_000_000;

/// Tunable knobs of the chrono controller.
#[derive(Clone, Copy, Debug, PartialEq, Eq, Structural)]
pub struct ChronoSettings {
    /// Time scale aimed at while slow motion is active.
    pub slowmo_factor: i64,
    /// Rate, per second, at which the time scale approaches its target.
    pub transition_speed: i64,
    /// Share of a full reserve drained per second of slow motion.
    pub energy_drain_rate: i64,
    /// Share of a full reserve regained per second otherwise.
    pub energy_recharge_rate: i64,
}

/// The live state of the chrono controller.
#[derive(Clone, Copy, Debug, PartialEq, Eq, Structural)]
pub struct ChronoState {
    /// The smoothed time scale applied to the simulation.
    pub current_time_scale: i64,
    /// The time scale that the smoothing aims at.
    pub target_time_scale: i64,
    /// The remaining energy.
    pub chrono_energy: i64,
    /// Whether slow motion is engaged this frame.
    pub is_slowmo_active: bool,
}

/// Colour and opacity derived from the time scale.
#[derive(Clone, Copy, Debug, PartialEq, Eq, Structural)]
pub struct VisualEffects {
    pub emissive_red: i64,
    pub emissive_green: i64,
    pub emissive_blue: i64,
    pub alpha: i64,
}

/// The state after the engage decision: slow motion is active exactly when
/// the input is engaged and energy is left, and the target follows it.
pub open spec fn after_input(s: ChronoState, engaged: bool, settings: ChronoSettings) -> ChronoState {
    let active = engaged && s.chrono_energy > 0;
    ChronoState {
        is_slowmo_active: active,
        target_time_scale: if active {
            settings.slowmo_factor
        } else {
            ONE
        },
        ..s
    }
}

/// The change that one smoothing step adds to the time scale, before the
/// clamp: the distance to the target, times the speed, times the frame time.
pub open spec fn smoothing_step(current: int, target: int, speed: int, dt: int) -> int {
    times(times(difference(target, current), speed), dt)
}

/// The time scale after one smoothing step.
pub open spec fn smoothed(current: int, target: int, speed: int, dt: int) -> int {
    clamped(sum(current, smoothing_step(current, target, speed, dt)), MIN_TIME_SCALE as int, ONE as int)
}

/// The time scale after `frames` smoothing steps toward a fixed target.
pub open spec fn smoothed_over(current: int, target: int, speed: int, dt: int, frames: nat) -> int
    decreases frames,
{
    if frames == 0 {
        current
    } else {
        smoothed(smoothed_over(current, target, speed, dt, (frames - 1) as nat), target, speed, dt)
    }
}

/// Energy moved in one frame at `rate`: the rate, times the frame time, times
/// a full reserve.
pub open spec fn energy_change(rate: int, dt: int) -> int {
    times(times(rate, dt), FULL_ENERGY as int)
}

/// The energy after one frame: drained while slow motion is active,
/// recharged otherwise, and kept between empty and full.
pub open spec fn next_energy(energy: int, active: bool, settings: ChronoSettings, dt: int) -> int {
    if active {
        clamped(
            difference(energy, energy_change(settings.energy_drain_rate as int, dt)),
            0,
            FULL_ENERGY as int,
        )
    } else {
        clamped(
            sum(energy, energy_change(settings.energy_recharge_rate as int, dt)),
            0,
            FULL_ENERGY as int,
        )
    }
}

/// The state after the smoothing step.
pub open spec fn after_smoothing(s: ChronoState, settings: ChronoSettings, dt: int) -> ChronoState {
    ChronoState {
        current_time_scale: smoothed(
            s.current_time_scale as int,
            s.target_time_scale as int,
            settings.transition_speed as int,
            dt,
        ) as i64,
        ..s
    }
}

/// The state after the energy update.
pub open spec fn after_energy(s: ChronoState, settings: ChronoSettings, dt: int) -> ChronoState {
    ChronoState {
        chrono_energy: next_energy(s.chrono_energy as int, s.is_slowmo_active, settings, dt) as i64,
        ..s
    }
}

/// The state after a whole frame: decision, smoothing, energy, in this order.
pub open spec fn after_frame(s: ChronoState, engaged: bool, settings: ChronoSettings, dt: int) -> ChronoState {
    after_energy(after_smoothing(after_input(s, engaged, settings), settings, dt), settings, dt)
}

/// How far the time scale is below real time.
pub open spec fn intensity_of(time_scale: int) -> int {
    difference(ONE as int, time_scale)
}

/// The visual parameters that belong to a time scale: each channel rises
/// linearly with the intensity from its base value.
pub open spec fn visual_of(time_scale: int) -> VisualEffects {
    let i = intensity_of(time_scale);
    VisualEffects {
        emissive_red: sum(100_000, times(i, 400_000)) as i64,
        emissive_green: sum(400_000, times(i, 400_000)) as i64,
        emissive_blue: sum(600_000, times(i, 600_000)) as i64,
        alpha: sum(900_000, times(i, 100_000)) as i64,
    }
}

impl ChronoState {
    /// The time scale and the energy lie in their intervals.
    pub open spec fn in_range(self) -> bool {
        &&& MIN_TIME_SCALE <= self.current_time_scale <= ONE
        &&& 0 <= self.chrono_energy <= FULL_ENERGY
    }

    /// The target is the slow-motion factor while active and one otherwise.
    pub open spec fn target_follows(self, settings: ChronoSettings) -> bool {
        self.target_time_scale == if self.is_slowmo_active {
            settings.slowmo_factor
        } else {
            ONE
        }
    }
}

impl Default for ChronoSettings {
    fn default() -> (r: Self)
        ensures
            r == (ChronoSettings {
                slowmo_factor: 300_000,
                transition_speed: 5_000_000,
                energy_drain_rate: 1_000_000,
                energy_recharge_rate: 500_000,
            }),
    {
        ChronoSettings {
            slowmo_factor: 300_000,
            transition_speed: 5_000_000,
            energy_drain_rate: 1_000_000,
            energy_recharge_rate: 500_000,
        }
    }
}

impl Default for ChronoState {
    fn default() -> (r: Self)
        ensures
            r == (ChronoState {
                current_time_scale: ONE,
                target_time_scale: ONE,
                chrono_energy: FULL_ENERGY,
                is_slowmo_active: false,
            }),
            r.in_range(),
    {
        ChronoState {
            current_time_scale: ONE,
            target_time_scale: ONE,
            chrono_energy: FULL_ENERGY,
            is_slowmo_active: false,
        }
    }
}

/// Decides whether slow motion is active this frame and sets the target.
pub fn handle_chrono_input(engaged: bool, state: &mut ChronoState, settings: &ChronoSettings)
    ensures
        *final(state) == after_input(*old(state), engaged, *settings),
        final(state).is_slowmo_active <==> engaged && old(state).chrono_energy > 0,
        final(state).target_follows(*settings),
{
    let wants_slowmo: bool = engaged;
    let has_energy: bool = state.chrono_energy > 0;
    if wants_slowmo && has_energy {
        state.is_slowmo_active = true;
        state.target_time_scale = settings.slowmo_factor;
    } else {
        state.is_slowmo_active = false;
        state.target_time_scale = ONE;
    }
}

/// Moves the time scale one smoothing step toward its target.
pub fn update_time_scale(dt: i64, settings: &ChronoSettings, state: &mut ChronoState)
    ensures
        *final(state) == after_smoothing(*old(state), *settings, dt as int),
        MIN_TIME_SCALE <= final(state).current_time_scale <= ONE,
{
    let diff: i64 = sat_sub(state.target_time_scale, state.current_time_scale);
    let step: i64 = sat_mul(sat_mul(diff, settings.transition_speed), dt);
    state.current_time_scale = clamp(sat_add(state.current_time_scale, step), MIN_TIME_SCALE, ONE);
}

/// Drains the energy while slow motion is active and recharges it otherwise.
pub fn manage_chrono_energy(dt: i64, settings: &ChronoSettings, state: &mut ChronoState)
    ensures
        *final(state) == after_energy(*old(state), *settings, dt as int),
        0 <= final(state).chrono_energy <= FULL_ENERGY,
{
    if state.is_slowmo_active {
        let drained: i64 = sat_mul(sat_mul(settings.energy_drain_rate, dt), FULL_ENERGY);
        state.chrono_energy = clamp(sat_sub(state.chrono_energy, drained), 0, FULL_ENERGY);
    } else {
        let gained: i64 = sat_mul(sat_mul(settings.energy_recharge_rate, dt), FULL_ENERGY);
        state.chrono_energy = clamp(sat_add(state.chrono_energy, gained), 0, FULL_ENERGY);
    }
}

/// Runs the controller for one frame and returns the time scale to apply.
pub fn update_chrono(engaged: bool, dt: i64, settings: &ChronoSettings, state: &mut ChronoState) -> (time_scale: i64)
    ensures
        *final(state) == after_frame(*old(state), engaged, *settings, dt as int),
        time_scale == final(state).current_time_scale,
        final(state).in_range(),
        final(state).target_follows(*settings),
        final(state).is_slowmo_active <==> engaged && old(state).chrono_energy > 0,
{
    handle_chrono_input(engaged, state, settings);
    update_time_scale(dt, settings, state);
    manage_chrono_energy(dt, settings, state);
    state.current_time_scale
}

/// Derives the emissive colour and the opacity from the time scale.
pub fn update_visual_effects(state: &ChronoState) -> (r: VisualEffects)
    ensures
        r == visual_of(state.current_time_scale as int),
        state.in_range() ==> 0 <= intensity_of(state.current_time_scale as int) <= 900_000,
{
    let slowmo_intensity: i64 = sat_sub(ONE, state.current_time_scale);
    VisualEffects {
        emissive_red: sat_add(100_000, sat_mul(slowmo_intensity, 400_000)),
        emissive_green: sat_add(400_000, sat_mul(slowmo_intensity, 400_000)),
        emissive_blue: sat_add(600_000, sat_mul(slowmo_intensity, 600_000)),
        alpha: sat_add(900_000, sat_mul(slowmo_intensity, 100_000)),
    }
}

/// A product of a scalar with two non-negative factors whose own product is
/// at most one has the scalar's sign and at most its magnitude.
pub proof fn lemma_damped(d: int, p: int, q: int)
    requires
        p >= 0,
        q >= 0,
        p * q <= ONE * ONE,
    ensures
        magnitude_of(times(times(d, p), q)) <= magnitude_of(d),
        d >= 0 ==> times(times(d, p), q) >= 0,
        d <= 0 ==> times(times(d, p), q) <= 0,
{
    let a = times(d, p);
    let b = times(a, q);
    lemma_quot_shrinks(d * p, ONE as int);
    lemma_quot_shrinks(a * q, ONE as int);
    let ma = magnitude_of(a);
    let mb = magnitude_of(b);
    let md = magnitude_of(d);
    assert(magnitude_of(d * p) == md * p) by (nonlinear_arith)
        requires
            p >= 0,
            md == magnitude_of(d),
    ;
    assert(magnitude_of(a * q) == ma * q) by (nonlinear_arith)
        requires
            q >= 0,
            ma == magnitude_of(a),
    ;
    assert(d >= 0 ==> d * p >= 0) by (nonlinear_arith)
        requires
            p >= 0,
    ;
    assert(d <= 0 ==> d * p <= 0) by (nonlinear_arith)
        requires
            p >= 0,
    ;
    assert(a >= 0 ==> a * q >= 0) by (nonlinear_arith)
        requires
            q >= 0,
    ;
    assert(a <= 0 ==> a * q <= 0) by (nonlinear_arith)
        requires
            q >= 0,
    ;
    assert(mb <= md) by (nonlinear_arith)
        requires
            ma * ONE <= md * p,
            mb * ONE <= ma * q,
            p * q <= ONE * ONE,
            p >= 0,
            q >= 0,
            ma >= 0,
            mb >= 0,
            md >= 0,
    ;
}

/// One smoothing step never overshoots: where the speed and the frame time
/// are non-negative and their product is at most one, the new time scale lies
/// between the old one and the target, on the old one's side. Toward a target
/// inside the interval of time scales the clamp does nothing: the time scale
/// moves by the whole step, so it comes closer whenever the step is not
/// rounded to zero.
pub proof fn lemma_smoothing_no_overshoot(current: int, target: int, speed: int, dt: int)
    requires
        MIN_TIME_SCALE <= current <= ONE,
        speed >= 0,
        dt >= 0,
        speed * dt <= ONE * ONE,
    ensures
        current <= target ==> current <= smoothed(current, target, speed, dt) <= target,
        target <= current ==> target <= smoothed(current, target, speed, dt) <= current,
        MIN_TIME_SCALE <= smoothed(current, target, speed, dt) <= ONE,
        MIN_TIME_SCALE <= target <= ONE ==> smoothed(current, target, speed, dt) == current
            + smoothing_step(current, target, speed, dt),
{
    lemma_damped(difference(target, current), speed, dt);
}

/// With the target held fixed, the time scale moves toward it frame after
/// frame, never away and never past it.
pub proof fn lemma_smoothing_monotone(current: int, target: int, speed: int, dt: int, frames: nat)
    requires
        MIN_TIME_SCALE <= current <= ONE,
        speed >= 0,
        dt >= 0,
        speed * dt <= ONE * ONE,
    ensures
        MIN_TIME_SCALE <= smoothed_over(current, target, speed, dt, frames) <= ONE,
        current <= target ==> current <= smoothed_over(current, target, speed, dt, frames)
            <= smoothed_over(current, target, speed, dt, frames + 1) <= target,
        target <= current ==> target <= smoothed_over(current, target, speed, dt, frames + 1)
            <= smoothed_over(current, target, speed, dt, frames) <= current,
    decreases frames,
{
    if frames > 0 {
        lemma_smoothing_monotone(current, target, speed, dt, (frames - 1) as nat);
    }
    let here = smoothed_over(current, target, speed, dt, frames);
    assert(smoothed_over(current, target, speed, dt, frames + 1) == smoothed(here, target, speed, dt));
    lemma_smoothing_no_overshoot(here, target, speed, dt);
}

/// While slow motion is active the energy does not rise; otherwise it does
/// not fall. The rates and the frame time are non-negative and the energy
/// starts between empty and full.
pub proof fn lemma_energy_direction(energy: int, active: bool, settings: ChronoSettings, dt: int)
    requires
        0 <= energy <= FULL_ENERGY,
        settings.energy_drain_rate >= 0,
        settings.energy_recharge_rate >= 0,
        dt >= 0,
    ensures
        active ==> next_energy(energy, active, settings, dt) <= energy,
        !active ==> next_energy(energy, active, settings, dt) >= energy,
        0 <= next_energy(energy, active, settings, dt) <= FULL_ENERGY,
{
    let rate = if active {
        settings.energy_drain_rate as int
    } else {
        settings.energy_recharge_rate as int
    };
    let a = times(rate, dt);
    lemma_quot_shrinks(rate * dt, ONE as int);
    assert(rate * dt >= 0) by (nonlinear_arith)
        requires
            rate >= 0,
            dt >= 0,
    ;
    lemma_quot_shrinks(a * FULL_ENERGY, ONE as int);
    assert(a * FULL_ENERGY >= 0) by (nonlinear_arith)
        requires
            a >= 0,
    ;
}

/// An empty reserve overrides the input: with no energy left, slow motion is
/// off after the next frame however the input stands.
pub proof fn lemma_forced_disengage(s: ChronoState, engaged: bool, settings: ChronoSettings, dt: int)
    requires
        s.chrono_energy == 0,
    ensures
        !after_input(s, engaged, settings).is_slowmo_active,
        !after_frame(s, engaged, settings, dt).is_slowmo_active,
        after_frame(s, engaged, settings, dt).target_time_scale == ONE,
{
}

/// After every frame the time scale and the energy lie in their intervals,
/// whatever the state, the settings and the frame time were.
pub proof fn lemma_frame_in_range(s: ChronoState, engaged: bool, settings: ChronoSettings, dt: int)
    ensures
        after_frame(s, engaged, settings, dt).in_range(),
        after_frame(s, engaged, settings, dt).target_follows(settings),
{
}

} // verus!
