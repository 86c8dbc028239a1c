use chrono_sphere::chrono_slowmo::{
    handle_chrono_input, manage_chrono_energy, update_chrono, update_time_scale,
    update_visual_effects, ChronoSettings, ChronoState, VisualEffects, FULL_ENERGY, MIN_TIME_SCALE,
};
use chrono_sphere::fixed::ONE;

const FRAME: i64 = 16_667;

#[test]
fn chrono_defaults() {
    let settings = ChronoSettings::default();
    assert_eq!(settings.slowmo_factor, 300_000);
    assert_eq!(settings.transition_speed, 5_000_000);
    assert_eq!(settings.energy_drain_rate, 1_000_000);
    assert_eq!(settings.energy_recharge_rate, 500_000);
    let state = ChronoState::default();
    assert_eq!(state.current_time_scale, ONE);
    assert_eq!(state.target_time_scale, ONE);
    assert_eq!(state.chrono_energy, FULL_ENERGY);
    assert!(!state.is_slowmo_active);
}

#[test]
fn engaging_with_energy_dilates() {
    let settings = ChronoSettings::default();
    let mut state = ChronoState::default();
    handle_chrono_input(true, &mut state, &settings);
    assert!(state.is_slowmo_active);
    assert_eq!(state.target_time_scale, 300_000);
    assert_eq!(state.current_time_scale, ONE);
    assert_eq!(state.chrono_energy, FULL_ENERGY);
}

#[test]
fn releasing_returns_to_normal() {
    let settings = ChronoSettings::default();
    let mut state = ChronoState { current_time_scale: 400_000, target_time_scale: 300_000, chrono_energy: 50_000_000, is_slowmo_active: true };
    handle_chrono_input(false, &mut state, &settings);
    assert!(!state.is_slowmo_active);
    assert_eq!(state.target_time_scale, ONE);
    assert_eq!(state.current_time_scale, 400_000);
}

#[test]
fn empty_reserve_overrides_the_input() {
    let settings = ChronoSettings::default();
    let mut state = ChronoState { current_time_scale: 300_000, target_time_scale: 300_000, chrono_energy: 0, is_slowmo_active: true };
    handle_chrono_input(true, &mut state, &settings);
    assert!(!state.is_slowmo_active);
    assert_eq!(state.target_time_scale, ONE);
    let mut least = ChronoState { chrono_energy: 1, ..state };
    handle_chrono_input(true, &mut least, &settings);
    assert!(least.is_slowmo_active);
}

#[test]
fn one_smoothing_step_is_exact() {
    let settings = ChronoSettings::default();
    let mut state = ChronoState { current_time_scale: ONE, target_time_scale: 300_000, chrono_energy: FULL_ENERGY, is_slowmo_active: true };
    update_time_scale(FRAME, &settings, &mut state);
    assert_eq!(state.current_time_scale, 941_666);
    assert_eq!(state.target_time_scale, 300_000);
    let mut back = ChronoState { current_time_scale: 300_000, target_time_scale: ONE, chrono_energy: 0, is_slowmo_active: false };
    update_time_scale(FRAME, &settings, &mut back);
    assert_eq!(back.current_time_scale, 358_334);
}

#[test]
fn time_scale_is_clamped() {
    let settings = ChronoSettings { slowmo_factor: 0, ..ChronoSettings::default() };
    let mut low = ChronoState { current_time_scale: 110_000, target_time_scale: -5_000_000, chrono_energy: FULL_ENERGY, is_slowmo_active: true };
    update_time_scale(ONE, &settings, &mut low);
    assert_eq!(low.current_time_scale, MIN_TIME_SCALE);
    let mut high = ChronoState { current_time_scale: 900_000, target_time_scale: ONE, chrono_energy: FULL_ENERGY, is_slowmo_active: false };
    update_time_scale(10 * ONE, &settings, &mut high);
    assert_eq!(high.current_time_scale, ONE);
    let mut zero_dt = ChronoState { current_time_scale: 500_000, target_time_scale: ONE, chrono_energy: FULL_ENERGY, is_slowmo_active: false };
    update_time_scale(0, &settings, &mut zero_dt);
    assert_eq!(zero_dt.current_time_scale, 500_000);
}

#[test]
fn smoothing_approaches_the_target_without_overshoot() {
    let settings = ChronoSettings::default();
    let mut state = ChronoState { current_time_scale: ONE, target_time_scale: 300_000, chrono_energy: FULL_ENERGY, is_slowmo_active: true };
    let mut previous: i64 = state.current_time_scale;
    for _ in 0..600 {
        update_time_scale(FRAME, &settings, &mut state);
        assert!(state.current_time_scale <= previous);
        assert!(state.current_time_scale >= 300_000);
        previous = state.current_time_scale;
    }
    assert!(state.current_time_scale - 300_000 < 20);
    state.target_time_scale = ONE;
    for _ in 0..600 {
        update_time_scale(FRAME, &settings, &mut state);
        assert!(state.current_time_scale >= previous);
        assert!(state.current_time_scale <= ONE);
        previous = state.current_time_scale;
    }
    assert!(ONE - state.current_time_scale < 20);
}

#[test]
fn energy_drains_while_active() {
    let settings = ChronoSettings::default();
    let mut state = ChronoState { current_time_scale: ONE, target_time_scale: 300_000, chrono_energy: FULL_ENERGY, is_slowmo_active: true };
    manage_chrono_energy(FRAME, &settings, &mut state);
    assert_eq!(state.chrono_energy, 98_333_300);
    let mut nearly = ChronoState { chrono_energy: 1_000_000, ..state };
    manage_chrono_energy(FRAME, &settings, &mut nearly);
    assert_eq!(nearly.chrono_energy, 0);
}

#[test]
fn energy_recharges_while_idle() {
    let settings = ChronoSettings::default();
    let mut state = ChronoState { current_time_scale: ONE, target_time_scale: ONE, chrono_energy: 50_000_000, is_slowmo_active: false };
    manage_chrono_energy(FRAME, &settings, &mut state);
    assert_eq!(state.chrono_energy, 50_833_300);
    let mut nearly = ChronoState { chrono_energy: 99_900_000, ..state };
    manage_chrono_energy(FRAME, &settings, &mut nearly);
    assert_eq!(nearly.chrono_energy, FULL_ENERGY);
}

#[test]
fn energy_is_clamped_on_both_sides_in_both_modes() {
    let settings = ChronoSettings { energy_drain_rate: -1_000_000, energy_recharge_rate: -500_000, ..ChronoSettings::default() };
    let mut active = ChronoState { current_time_scale: ONE, target_time_scale: 300_000, chrono_energy: 99_000_000, is_slowmo_active: true };
    manage_chrono_energy(ONE, &settings, &mut active);
    assert_eq!(active.chrono_energy, FULL_ENERGY);
    let mut idle = ChronoState { current_time_scale: ONE, target_time_scale: ONE, chrono_energy: 10_000_000, is_slowmo_active: false };
    manage_chrono_energy(ONE, &settings, &mut idle);
    assert_eq!(idle.chrono_energy, 0);
}

#[test]
fn energy_moves_in_one_direction() {
    let settings = ChronoSettings::default();
    let mut state = ChronoState::default();
    state.is_slowmo_active = true;
    let mut previous: i64 = state.chrono_energy;
    for _ in 0..100 {
        manage_chrono_energy(FRAME, &settings, &mut state);
        assert!(state.chrono_energy <= previous);
        previous = state.chrono_energy;
    }
    state.is_slowmo_active = false;
    for _ in 0..300 {
        manage_chrono_energy(FRAME, &settings, &mut state);
        assert!(state.chrono_energy >= previous);
        previous = state.chrono_energy;
    }
    assert_eq!(state.chrono_energy, FULL_ENERGY);
}

#[test]
fn held_engage_drains_the_reserve_in_a_second() {
    let settings = ChronoSettings::default();
    let mut state = ChronoState::default();
    let mut frames_active: i64 = 0;
    let mut first_refusal: i64 = 0;
    for frame in 1..=200i64 {
        let energy_before: i64 = state.chrono_energy;
        update_chrono(true, FRAME, &settings, &mut state);
        assert_eq!(state.is_slowmo_active, energy_before > 0);
        if state.is_slowmo_active {
            frames_active += 1;
        } else if first_refusal == 0 {
            first_refusal = frame;
        }
        if frame <= 60 {
            assert!(state.is_slowmo_active);
            assert_eq!(state.chrono_energy, (FULL_ENERGY - frame * 1_666_700).max(0));
        }
        assert!(MIN_TIME_SCALE <= state.current_time_scale && state.current_time_scale <= ONE);
        assert!(0 <= state.chrono_energy && state.chrono_energy <= FULL_ENERGY);
    }
    assert_eq!(first_refusal, 61);
    assert!(frames_active >= 60);
}

#[test]
fn frame_returns_the_new_time_scale() {
    let settings = ChronoSettings::default();
    let mut state = ChronoState::default();
    let scale = update_chrono(true, FRAME, &settings, &mut state);
    assert_eq!(scale, 941_666);
    assert_eq!(state, ChronoState { current_time_scale: 941_666, target_time_scale: 300_000, chrono_energy: 98_333_300, is_slowmo_active: true });
    let scale = update_chrono(false, FRAME, &settings, &mut state);
    assert_eq!(scale, 946_527);
    assert_eq!(state, ChronoState { current_time_scale: 946_527, target_time_scale: ONE, chrono_energy: 99_166_600, is_slowmo_active: false });
}

#[test]
fn state_stays_in_range_on_wild_input() {
    let wild: [i64; 6] = [i64::MIN, -3_000_000, 0, 1, 77_000_000, i64::MAX];
    for dt in wild {
        for speed in wild {
            for rate in wild {
                let settings = ChronoSettings { slowmo_factor: rate, transition_speed: speed, energy_drain_rate: rate, energy_recharge_rate: speed };
                let mut state = ChronoState { current_time_scale: dt, target_time_scale: rate, chrono_energy: speed, is_slowmo_active: false };
                for engaged in [true, false, true] {
                    update_chrono(engaged, dt, &settings, &mut state);
                    assert!(MIN_TIME_SCALE <= state.current_time_scale && state.current_time_scale <= ONE);
                    assert!(0 <= state.chrono_energy && state.chrono_energy <= FULL_ENERGY);
                }
            }
        }
    }
}

#[test]
fn feedback_follows_the_time_scale() {
    let mut state = ChronoState::default();
    assert_eq!(
        update_visual_effects(&state),
        VisualEffects { emissive_red: 100_000, emissive_green: 400_000, emissive_blue: 600_000, alpha: 900_000 }
    );
    state.current_time_scale = 300_000;
    assert_eq!(
        update_visual_effects(&state),
        VisualEffects { emissive_red: 380_000, emissive_green: 680_000, emissive_blue: 1_020_000, alpha: 970_000 }
    );
    state.current_time_scale = MIN_TIME_SCALE;
    assert_eq!(
        update_visual_effects(&state),
        VisualEffects { emissive_red: 460_000, emissive_green: 760_000, emissive_blue: 1_140_000, alpha: 990_000 }
    );
}
