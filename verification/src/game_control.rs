//! Directional player input and its mapping to herding commands.

use vstd::prelude::*;
use crate::dog::DogCommand;

verus! {

/// The four directional inputs a player can give.
#[derive(Clone, Copy, Debug, PartialEq, Eq, Structural)]
pub enum GameControl {
    Up,
    Down,
    Left,
    Right,
}

/// The pressed state of the eight bound keys, polled once per tick. Each
/// direction accepts two bindings: a letter key and an arrow key.
#[derive(Clone, Copy, Debug, PartialEq, Eq, Structural)]
pub struct KeyboardState {
    pub key_w: bool,
    pub key_a: bool,
    pub key_s: bool,
    pub key_d: bool,
    pub arrow_up: bool,
    pub arrow_down: bool,
    pub arrow_left: bool,
    pub arrow_right: bool,
}

impl GameControl {
    /// Whether this direction counts as pressed under the given keys.
    pub open spec fn pressed_spec(self, keys: KeyboardState) -> bool {
        match self {
            GameControl::Up => keys.key_w || keys.arrow_up,
            GameControl::Down => keys.key_s || keys.arrow_down,
            GameControl::Left => keys.key_a || keys.arrow_left,
            GameControl::Right => keys.key_d || keys.arrow_right,
        }
    }

    /// A direction is pressed when either of its two bindings is down.
    pub fn pressed(&self, keyboard_input: &KeyboardState) -> (r: bool)
        ensures
            r == self.pressed_spec(*keyboard_input),
    {
        match self {
            GameControl::Up => keyboard_input.key_w || keyboard_input.arrow_up,
            GameControl::Down => keyboard_input.key_s || keyboard_input.arrow_down,
            GameControl::Left => keyboard_input.key_a || keyboard_input.arrow_left,
            GameControl::Right => keyboard_input.key_d || keyboard_input.arrow_right,
        }
    }
}

/// The command the pressed directions select. When several directions are
/// active at once, precedence is fixed: Down beats Right beats Left beats
/// Up; no active direction selects no command.
pub open spec fn command_for_input_spec(keys: KeyboardState) -> Option<DogCommand> {
    if GameControl::Down.pressed_spec(keys) {
        Some(DogCommand::LayDown)
    } else if GameControl::Right.pressed_spec(keys) {
        Some(DogCommand::Away)
    } else if GameControl::Left.pressed_spec(keys) {
        Some(DogCommand::ComeBye)
    } else if GameControl::Up.pressed_spec(keys) {
        Some(DogCommand::WalkOn)
    } else {
        None
    }
}

/// Map the polled keys to a herding command. Returns `Some` exactly when
/// at least one direction is pressed, picking the highest-precedence one:
/// Down yields `LayDown`, then Right `Away`, then Left `ComeBye`, then Up
/// `WalkOn`.
pub fn get_command_for_input(input: &KeyboardState) -> (cmd: Option<DogCommand>)
    ensures
        cmd == command_for_input_spec(*input),
{
    if GameControl::Down.pressed(input) {
        Some(DogCommand::LayDown)
    } else if GameControl::Right.pressed(input) {
        Some(DogCommand::Away)
    } else if GameControl::Left.pressed(input) {
        Some(DogCommand::ComeBye)
    } else if GameControl::Up.pressed(input) {
        Some(DogCommand::WalkOn)
    } else {
        None
    }
}

} // verus!
