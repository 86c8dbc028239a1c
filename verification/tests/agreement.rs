use chrono_sphere::chrono_slowmo::{
    manage_chrono_energy, update_time_scale, update_visual_effects, ChronoSettings, ChronoState,
};
use chrono_sphere::controls::{apply_tilt_controls, ControlSettings, InputState};
use chrono_sphere::physics::{apply_air_resistance, apply_gravity, PhysicsSettings};
use chrono_sphere::sphere::{apply_sphere_momentum, SphereVelocity};
use chrono_sphere::vector::{Vec2, Vec3};

fn as_number(raw: i64) -> f64 {
    raw as f64 / 1_000_000.0
}

fn close(raw: i64, expected: f64) -> bool {
    (as_number(raw) - expected).abs() <= 0.00001
}

#[test]
fn smoothing_agrees_with_the_real_formula() {
    let settings = ChronoSettings::default();
    for current in [100_000i64, 300_000, 555_555, 941_666, 1_000_000] {
        for target in [300_000i64, 1_000_000] {
            for dt in [0i64, 4_000, 16_667, 33_333] {
                let mut state = ChronoState { current_time_scale: current, target_time_scale: target, chrono_energy: 50_000_000, is_slowmo_active: target < 1_000_000 };
                update_time_scale(dt, &settings, &mut state);
                let expected = (as_number(current) + (as_number(target) - as_number(current)) * 5.0 * as_number(dt)).clamp(0.1, 1.0);
                assert!(close(state.current_time_scale, expected));
            }
        }
    }
}

#[test]
fn energy_agrees_with_the_real_formula() {
    let settings = ChronoSettings::default();
    for energy in [0i64, 1_000_000, 50_000_000, 99_500_000, 100_000_000] {
        for dt in [0i64, 4_000, 16_667, 33_333] {
            let mut active = ChronoState { current_time_scale: 300_000, target_time_scale: 300_000, chrono_energy: energy, is_slowmo_active: true };
            manage_chrono_energy(dt, &settings, &mut active);
            let drained = (as_number(energy) - 1.0 * as_number(dt) * 100.0).clamp(0.0, 100.0);
            assert!((as_number(active.chrono_energy) - drained).abs() <= 0.0001);
            let mut idle = ChronoState { is_slowmo_active: false, chrono_energy: energy, ..active };
            manage_chrono_energy(dt, &settings, &mut idle);
            let gained = (as_number(energy) + 0.5 * as_number(dt) * 100.0).clamp(0.0, 100.0);
            assert!((as_number(idle.chrono_energy) - gained).abs() <= 0.0001);
        }
    }
}

#[test]
fn feedback_agrees_with_the_real_formula() {
    for scale in [100_000i64, 250_000, 300_000, 777_777, 1_000_000] {
        let state = ChronoState { current_time_scale: scale, target_time_scale: 1_000_000, chrono_energy: 0, is_slowmo_active: false };
        let effects = update_visual_effects(&state);
        let intensity = 1.0 - as_number(scale);
        assert!((0.0..=0.9).contains(&intensity));
        assert!(close(effects.emissive_red, 0.1 + intensity * 0.4));
        assert!(close(effects.emissive_green, 0.4 + intensity * 0.4));
        assert!(close(effects.emissive_blue, 0.6 + intensity * 0.6));
        assert!(close(effects.alpha, 0.9 + intensity * 0.1));
    }
}

#[test]
fn forces_agree_with_the_real_formulas() {
    let physics = PhysicsSettings::default();
    let control = ControlSettings::default();
    for scale in [100_000i64, 300_000, 1_000_000] {
        let eff = as_number(16_667) * as_number(scale);
        let start = Vec3 { x: 2_500_000, y: -7_000_000, z: 1_250_000 };
        let mut v = SphereVelocity { velocity: start, max_speed: 10_000_000 };
        apply_gravity(16_667, scale, &physics, &mut v);
        assert!(close(v.velocity.x, 2.5));
        assert!(close(v.velocity.y, -7.0 - 9.81 * eff));
        assert!(close(v.velocity.z, 1.25));
        let mut w = SphereVelocity { velocity: start, max_speed: 10_000_000 };
        apply_air_resistance(16_667, scale, &physics, &mut w);
        assert!(close(w.velocity.x, 2.5 * (1.0 - 0.02 * eff)));
        assert!(close(w.velocity.y, -7.0 * (1.0 - 0.02 * eff)));
        let input = InputState { tilt_input: Vec2 { x: 800_000, y: -900_000 }, is_touching: false, touch_position: Vec2::zero() };
        let mut t = SphereVelocity { velocity: start, max_speed: 10_000_000 };
        apply_tilt_controls(16_667, scale, &control, &input, &mut t);
        let (fx, fz): (f64, f64) = (0.8 * 15.0, 0.9 * 15.0);
        let length: f64 = (fx * fx + fz * fz).sqrt();
        let k = if length > 20.0 { 20.0 / length } else { 1.0 };
        assert!(close(t.velocity.x, 2.5 + fx * k * eff));
        assert!(close(t.velocity.z, 1.25 + fz * k * eff));
        assert!(close(t.velocity.y, -7.0));
    }
}

#[test]
fn momentum_agrees_with_the_real_formulas() {
    for scale in [100_000i64, 300_000, 1_000_000] {
        let eff = as_number(16_667) * as_number(scale);
        let mut p = Vec3 { x: 1_000_000, y: 2_000_000, z: -3_000_000 };
        let mut v = SphereVelocity { velocity: Vec3 { x: 9_000_000, y: -12_000_000, z: 4_000_000 }, max_speed: 10_000_000 };
        apply_sphere_momentum(16_667, scale, &mut p, &mut v);
        assert!(close(p.x, 1.0 + 9.0 * eff));
        assert!(close(p.y, 2.0 - 12.0 * eff));
        assert!(close(p.z, -3.0 + 4.0 * eff));
        let (x, y, z): (f64, f64, f64) = (9.0 * 0.98, -12.0 * 0.98, 4.0 * 0.98);
        let length: f64 = (x * x + y * y + z * z).sqrt();
        assert!(length > 10.0);
        assert!(close(v.velocity.x, x / length * 10.0));
        assert!(close(v.velocity.y, y / length * 10.0));
        assert!(close(v.velocity.z, z / length * 10.0));
    }
}
