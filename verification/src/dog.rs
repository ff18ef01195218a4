//! The herder: a dog that obeys discrete commands and patrols in a small
//! circle while free to move.

use vstd::prelude::*;
use crate::num::div_floor;
use crate::num::lemma_div_floor_bounds;
use crate::vec2::Vec2;

verus! {

/// The five herding commands a dog understands.
#[derive(Clone, Copy, Debug, PartialEq, Eq, Structural)]
pub enum DogCommand {
    ComeBye,
    Away,
    LayDown,
    WalkOn,
    Easy,
}

/// The herder's state: the command currently in force.
#[derive(Clone, Copy, Debug, PartialEq, Eq, Structural)]
pub struct Dog {
    command: DogCommand,
}

impl Dog {
    /// The command in force, as contracts see it.
    pub closed spec fn command_spec(self) -> DogCommand {
        self.command
    }

    /// A fresh dog starts under `Away`.
    pub fn new() -> (d: Dog)
        ensures
            d.command_spec() == DogCommand::Away,
    {
        Dog { command: DogCommand::Away }
    }

    /// Replace the command in force.
    pub fn set_command(&mut self, command: &DogCommand)
        ensures
            final(self).command_spec() == *command,
    {
        self.command = *command;
    }

    /// The command currently in force.
    pub fn command(&self) -> (c: DogCommand)
        ensures
            c == self.command_spec(),
    {
        self.command
    }
}

/// The displacement one tick of idle patrol produces under a command.
/// The drift components are the sine and cosine of the elapsed time in
/// milli-units (already scaled down to a tenth by the caller); each is
/// multiplied by the patrol speed and brought back from milli-units.
/// `Away` and `ComeBye` put the two drift components on opposite axes,
/// circling in mirrored directions; `LayDown` holds still; `WalkOn` and
/// `Easy` have no motion policy yet and deliberately fall through as a
/// no-op.
pub open spec fn circle_step_spec(cmd: DogCommand, speed: int, sin_milli: int, cos_milli: int) -> Vec2 {
    match cmd {
        DogCommand::Away => Vec2 {
            x: (speed * cos_milli / 1000) as i64,
            y: (speed * sin_milli / 1000) as i64,
        },
        DogCommand::ComeBye => Vec2 {
            x: (speed * sin_milli / 1000) as i64,
            y: (speed * cos_milli / 1000) as i64,
        },
        DogCommand::LayDown => Vec2 { x: 0, y: 0 },
        DogCommand::WalkOn => Vec2 { x: 0, y: 0 },
        DogCommand::Easy => Vec2 { x: 0, y: 0 },
    }
}

/// One tick of the dog's idle circling patrol: how far it moves this
/// tick, given the command in force and the time-derived drift
/// components.
pub fn run_in_a_circle(dog: &Dog, speed: i64, sin_milli: i64, cos_milli: i64) -> (d: Vec2)
    requires
        0 <= speed <= 1_000_000,
        -1000 <= sin_milli <= 1000,
        -1000 <= cos_milli <= 1000,
    ensures
        d == circle_step_spec(dog.command_spec(), speed as int, sin_milli as int, cos_milli as int),
{
    proof {
        assert(-1_000_000_000 <= speed * sin_milli <= 1_000_000_000) by (nonlinear_arith)
            requires
                0 <= speed <= 1_000_000,
                -1000 <= sin_milli <= 1000,
        ;
        assert(-1_000_000_000 <= speed * cos_milli <= 1_000_000_000) by (nonlinear_arith)
            requires
                0 <= speed <= 1_000_000,
                -1000 <= cos_milli <= 1000,
        ;
        lemma_div_floor_bounds(speed as int * sin_milli as int, 1000);
        lemma_div_floor_bounds(speed as int * cos_milli as int, 1000);
    }
    match dog.command {
        DogCommand::Away => {
            let x = div_floor(speed * cos_milli, 1000);
            let y = div_floor(speed * sin_milli, 1000);
            Vec2 { x, y }
        },
        DogCommand::ComeBye => {
            let x = div_floor(speed * sin_milli, 1000);
            let y = div_floor(speed * cos_milli, 1000);
            Vec2 { x, y }
        },
        DogCommand::LayDown => Vec2 { x: 0, y: 0 },
        DogCommand::WalkOn => Vec2 { x: 0, y: 0 },
        DogCommand::Easy => Vec2 { x: 0, y: 0 },
    }
}

} // verus!
