//! The engine's keyboard snapshot, read through one trusted call.

use vstd::prelude::*;
use bevy::input::keyboard::KeyCode;
use bevy::input::ButtonInput;
use crate::controls::{after_keyboard, apply_key_states, InputState, KeyStates};

verus! {

/// The keys that the discrete source reads.
#[derive(Clone, Copy, Debug, PartialEq, Eq, Structural)]
pub enum Key {
    ArrowLeft,
    ArrowRight,
    ArrowUp,
    ArrowDown,
    KeyA,
    KeyD,
    KeyW,
    KeyS,
    Space,
}

/// The engine's `ButtonInput`, carried as an opaque value.
#[verifier::external_type_specification]
#[verifier::external_body]
#[verifier::reject_recursive_types(T)]
pub struct ExButtonInput<T: Copy + Eq + std::hash::Hash + Send + Sync + 'static>(ButtonInput<T>);

/// The engine's `KeyCode`, carried as an opaque value.
#[verifier::external_type_specification]
#[verifier::external_body]
pub struct ExKeyCode(KeyCode);

/// The keys of the discrete source that a keyboard snapshot holds as pressed.
pub uninterp spec fn pressed_keys(keyboard: ButtonInput<KeyCode>) -> Set<Key>;

/// Calls `ButtonInput::pressed` with the key code that `key` stands for.
/// Trusted: the call answers whether that code is among those that the
/// snapshot holds as pressed, which is what `pressed_keys` names.
#[verifier::external_body]
fn key_is_pressed(keyboard: &ButtonInput<KeyCode>, key: Key) -> (r: bool)
    ensures
        r == pressed_keys(*keyboard).contains(key),
{
    keyboard.pressed(match key {
        Key::ArrowLeft => KeyCode::ArrowLeft,
        Key::ArrowRight => KeyCode::ArrowRight,
        Key::ArrowUp => KeyCode::ArrowUp,
        Key::ArrowDown => KeyCode::ArrowDown,
        Key::KeyA => KeyCode::KeyA,
        Key::KeyD => KeyCode::KeyD,
        Key::KeyW => KeyCode::KeyW,
        Key::KeyS => KeyCode::KeyS,
        Key::Space => KeyCode::Space,
    })
}

/// The key states that belong to a set of pressed keys.
pub open spec fn key_states_of(pressed: Set<Key>) -> KeyStates {
    KeyStates {
        arrow_left: pressed.contains(Key::ArrowLeft),
        arrow_right: pressed.contains(Key::ArrowRight),
        arrow_up: pressed.contains(Key::ArrowUp),
        arrow_down: pressed.contains(Key::ArrowDown),
        key_a: pressed.contains(Key::KeyA),
        key_d: pressed.contains(Key::KeyD),
        key_w: pressed.contains(Key::KeyW),
        key_s: pressed.contains(Key::KeyS),
        space: pressed.contains(Key::Space),
    }
}

/// Reads the nine keys of the discrete source from a keyboard snapshot.
pub fn read_keys(keyboard: &ButtonInput<KeyCode>) -> (r: KeyStates)
    ensures
        r == key_states_of(pressed_keys(*keyboard)),
{
    KeyStates {
        arrow_left: key_is_pressed(keyboard, Key::ArrowLeft),
        arrow_right: key_is_pressed(keyboard, Key::ArrowRight),
        arrow_up: key_is_pressed(keyboard, Key::ArrowUp),
        arrow_down: key_is_pressed(keyboard, Key::ArrowDown),
        key_a: key_is_pressed(keyboard, Key::KeyA),
        key_d: key_is_pressed(keyboard, Key::KeyD),
        key_w: key_is_pressed(keyboard, Key::KeyW),
        key_s: key_is_pressed(keyboard, Key::KeyS),
        space: key_is_pressed(keyboard, Key::Space),
    }
}

/// Samples the discrete source from a keyboard snapshot.
pub fn handle_keyboard_input(keyboard: &ButtonInput<KeyCode>, input_state: &mut InputState)
    ensures
        *final(input_state) == after_keyboard(*old(input_state), key_states_of(pressed_keys(*keyboard))),
        final(input_state).is_touching == pressed_keys(*keyboard).contains(Key::Space),
{
    let keys = read_keys(keyboard);
    apply_key_states(&keys, input_state);
}

} // verus!
