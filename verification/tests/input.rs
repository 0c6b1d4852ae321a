use angler::components::{Direction, Velocity};
use angler::input::{action_input, game_input, menu_input, steer, ActionCommand, GameCommand, InputSnapshot};

fn nothing() -> InputSnapshot {
    InputSnapshot {
        move_left: false,
        move_right: false,
        act_pressed: false,
        act_released: false,
        secondary_released: false,
        open_menu: false,
        quit: false,
    }
}

#[test]
fn movement_keys_give_the_velocity() {
    assert_eq!(game_input(&nothing()), GameCommand::Steer { velocity: 0, act: false });
    assert_eq!(
        game_input(&InputSnapshot { move_left: true, ..nothing() }),
        GameCommand::Steer { velocity: 1, act: false }
    );
    assert_eq!(
        game_input(&InputSnapshot { move_right: true, ..nothing() }),
        GameCommand::Steer { velocity: -1, act: false }
    );
    assert_eq!(
        game_input(&InputSnapshot { move_left: true, move_right: true, ..nothing() }),
        GameCommand::Steer { velocity: 0, act: false }
    );
}

#[test]
fn acting_stops_the_movement() {
    assert_eq!(
        game_input(&InputSnapshot { move_left: true, act_pressed: true, ..nothing() }),
        GameCommand::Steer { velocity: 0, act: true }
    );
    assert_eq!(
        game_input(&InputSnapshot { act_pressed: true, act_released: true, secondary_released: true, ..nothing() }),
        GameCommand::Steer { velocity: 0, act: true }
    );
}

#[test]
fn quitting_goes_before_the_menu_and_the_menu_before_the_rest() {
    let all = InputSnapshot {
        move_left: true,
        move_right: false,
        act_pressed: true,
        act_released: true,
        secondary_released: true,
        open_menu: true,
        quit: true,
    };
    assert_eq!(game_input(&all), GameCommand::Quit);
    assert_eq!(game_input(&InputSnapshot { quit: false, ..all }), GameCommand::OpenMenu);
    assert_eq!(
        game_input(&InputSnapshot { quit: false, open_menu: false, ..all }),
        GameCommand::Steer { velocity: 0, act: true }
    );
}

#[test]
fn releases_hook_and_end_the_action() {
    assert_eq!(action_input(&nothing()), ActionCommand { hook: false, end_action: false });
    assert_eq!(
        action_input(&InputSnapshot { secondary_released: true, ..nothing() }),
        ActionCommand { hook: true, end_action: false }
    );
    assert_eq!(
        action_input(&InputSnapshot { act_released: true, ..nothing() }),
        ActionCommand { hook: false, end_action: true }
    );
    assert_eq!(
        action_input(&InputSnapshot { act_released: true, secondary_released: true, quit: true, ..nothing() }),
        ActionCommand { hook: true, end_action: true }
    );
}

#[test]
fn two_keys_close_the_menu() {
    assert!(!menu_input(&nothing()));
    assert!(menu_input(&InputSnapshot { quit: true, ..nothing() }));
    assert!(menu_input(&InputSnapshot { open_menu: true, ..nothing() }));
    assert!(!menu_input(&InputSnapshot { act_pressed: true, move_left: true, ..nothing() }));
}

#[test]
fn steering_turns_the_entity() {
    let mut velocity = Velocity::default();
    assert_eq!(velocity, Velocity { value: 0 });
    let mut direction = Direction::Right;
    steer(1, &mut velocity, &mut direction);
    assert_eq!((velocity.value, direction), (1, Direction::Left));
    steer(0, &mut velocity, &mut direction);
    assert_eq!((velocity.value, direction), (0, Direction::Left));
    steer(-1, &mut velocity, &mut direction);
    assert_eq!((velocity.value, direction), (-1, Direction::Right));
    steer(0, &mut velocity, &mut direction);
    assert_eq!((velocity.value, direction), (0, Direction::Right));
}
