use sheep_herd::dog::{run_in_a_circle, Dog, DogCommand};
use sheep_herd::game_control::{get_command_for_input, GameControl, KeyboardState};

fn keys(
    key_w: bool,
    key_a: bool,
    key_s: bool,
    key_d: bool,
    arrow_up: bool,
    arrow_down: bool,
    arrow_left: bool,
    arrow_right: bool,
) -> KeyboardState {
    KeyboardState { key_w, key_a, key_s, key_d, arrow_up, arrow_down, arrow_left, arrow_right }
}

#[test]
fn pressed_accepts_either_binding() {
    let none = keys(false, false, false, false, false, false, false, false);
    assert!(!GameControl::Up.pressed(&none));
    assert!(GameControl::Up.pressed(&keys(true, false, false, false, false, false, false, false)));
    assert!(GameControl::Up.pressed(&keys(false, false, false, false, true, false, false, false)));
    assert!(GameControl::Down.pressed(&keys(false, false, true, false, false, false, false, false)));
    assert!(GameControl::Down.pressed(&keys(false, false, false, false, false, true, false, false)));
    assert!(GameControl::Left.pressed(&keys(false, true, false, false, false, false, false, false)));
    assert!(GameControl::Left.pressed(&keys(false, false, false, false, false, false, true, false)));
    assert!(GameControl::Right.pressed(&keys(false, false, false, true, false, false, false, false)));
    assert!(GameControl::Right.pressed(&keys(false, false, false, false, false, false, false, true)));
}

#[test]
fn command_mapping_per_direction() {
    let down = keys(false, false, true, false, false, false, false, false);
    assert_eq!(get_command_for_input(&down), Some(DogCommand::LayDown));
    let right = keys(false, false, false, true, false, false, false, false);
    assert_eq!(get_command_for_input(&right), Some(DogCommand::Away));
    let left = keys(false, true, false, false, false, false, false, false);
    assert_eq!(get_command_for_input(&left), Some(DogCommand::ComeBye));
    let up = keys(true, false, false, false, false, false, false, false);
    assert_eq!(get_command_for_input(&up), Some(DogCommand::WalkOn));
    let none = keys(false, false, false, false, false, false, false, false);
    assert_eq!(get_command_for_input(&none), None);
}

#[test]
fn command_precedence_down_beats_up() {
    // Simultaneous "down" and "up" key-equivalents yield LayDown, never
    // WalkOn — in every binding combination.
    let both = keys(true, false, true, false, false, false, false, false);
    assert_eq!(get_command_for_input(&both), Some(DogCommand::LayDown));
    let both_arrows = keys(false, false, false, false, true, true, false, false);
    assert_eq!(get_command_for_input(&both_arrows), Some(DogCommand::LayDown));
    let mixed = keys(true, false, false, false, false, true, false, false);
    assert_eq!(get_command_for_input(&mixed), Some(DogCommand::LayDown));
}

#[test]
fn command_precedence_full_order() {
    // Down > Right > Left > Up.
    let all = keys(true, true, true, true, true, true, true, true);
    assert_eq!(get_command_for_input(&all), Some(DogCommand::LayDown));
    let no_down = keys(true, true, false, true, true, false, true, true);
    assert_eq!(get_command_for_input(&no_down), Some(DogCommand::Away));
    let left_up = keys(true, true, false, false, true, false, true, false);
    assert_eq!(get_command_for_input(&left_up), Some(DogCommand::ComeBye));
}

#[test]
fn dog_starts_away_and_takes_commands() {
    let mut dog = Dog::new();
    assert_eq!(dog.command(), DogCommand::Away);
    dog.set_command(&DogCommand::LayDown);
    assert_eq!(dog.command(), DogCommand::LayDown);
    dog.set_command(&DogCommand::Easy);
    assert_eq!(dog.command(), DogCommand::Easy);
}

#[test]
fn dog_motion_policy_by_command() {
    let mut dog = Dog::new();
    // Away puts the cosine drift on x and the sine drift on y.
    let d = run_in_a_circle(&dog, 20, 100, 50);
    assert_eq!(d.x, 1);
    assert_eq!(d.y, 2);
    // ComeBye mirrors the axes.
    dog.set_command(&DogCommand::ComeBye);
    let d = run_in_a_circle(&dog, 20, 100, 50);
    assert_eq!(d.x, 2);
    assert_eq!(d.y, 1);
    // LayDown halts the patrol; WalkOn and Easy are deliberate no-ops.
    dog.set_command(&DogCommand::LayDown);
    let d = run_in_a_circle(&dog, 20, 100, 50);
    assert_eq!(d.x, 0);
    assert_eq!(d.y, 0);
    dog.set_command(&DogCommand::WalkOn);
    let d = run_in_a_circle(&dog, 20, 100, 50);
    assert_eq!(d.x, 0);
    assert_eq!(d.y, 0);
    dog.set_command(&DogCommand::Easy);
    let d = run_in_a_circle(&dog, 20, 100, 50);
    assert_eq!(d.x, 0);
    assert_eq!(d.y, 0);
}
