//! Input handling: what the player's intents ask the simulation to do.

use vstd::prelude::*;
use crate::components::{Direction, Velocity};

verus! {

/// What the game as a whole is busy with.
#[derive(Debug, Clone, Copy, PartialEq, Eq, Structural)]
pub enum GameState {
    /// The player moves about.
    InGame,
    /// The player holds the action key.
    InAction,
    /// The inventory is shown and time stands still.
    InPlayerMenu,
}

/// The input intents of one tick.
#[derive(Debug, Clone, Copy, PartialEq, Eq, Structural)]
pub struct InputSnapshot {
    /// The key for moving left is held.
    pub move_left: bool,
    /// The key for moving right is held.
    pub move_right: bool,
    /// The action key has just been pressed.
    pub act_pressed: bool,
    /// The action key has just been released.
    pub act_released: bool,
    /// One of the secondary action keys has just been released.
    pub secondary_released: bool,
    /// The menu key has just been pressed.
    pub open_menu: bool,
    /// The quit key has just been pressed.
    pub quit: bool,
}

/// What the input asks for while the player moves about.
#[derive(Debug, Clone, Copy, PartialEq, Eq, Structural)]
pub enum GameCommand {
    /// Leave the game.
    Quit,
    /// Show the inventory.
    OpenMenu,
    /// Move the controlled entities with `velocity`; with `act`, raise an
    /// Action and go over to it.
    Steer { velocity: i32, act: bool },
}

/// What the input asks for during an action.
#[derive(Debug, Clone, Copy, PartialEq, Eq, Structural)]
pub struct ActionCommand {
    /// Raise a Hook.
    pub hook: bool,
    /// Raise an EndAction and go back to moving about.
    pub end_action: bool,
}

/// The velocity that the movement keys ask for: 1 to the left, -1 to the
/// right, 0 for none or both.
pub open spec fn steering(input: InputSnapshot) -> int {
    (if input.move_left {
        1int
    } else {
        0int
    }) - (if input.move_right {
        1int
    } else {
        0int
    })
}

/// What `game_input` answers.
pub open spec fn game_command(input: InputSnapshot) -> GameCommand {
    if input.quit {
        GameCommand::Quit
    } else if input.open_menu {
        GameCommand::OpenMenu
    } else if input.act_pressed {
        GameCommand::Steer { velocity: 0, act: true }
    } else {
        GameCommand::Steer { velocity: steering(input) as i32, act: false }
    }
}

/// Reads the input while the player moves about. Quitting goes before the
/// menu, and the menu before everything else; pressing the action key
/// stops the movement.
pub fn game_input(input: &InputSnapshot) -> (command: GameCommand)
    ensures
        command == game_command(*input),
{
    if input.quit {
        return GameCommand::Quit;
    }
    if input.open_menu {
        return GameCommand::OpenMenu;
    }
    let mut vel: i32 = 0;
    if input.move_left {
        vel += 1;
    }
    if input.move_right {
        vel -= 1;
    }
    let mut act = false;
    if input.act_pressed {
        vel = 0;
        act = true;
    }
    GameCommand::Steer { velocity: vel, act }
}

/// Reads the input during an action: releasing a secondary key hooks,
/// releasing the action key ends the action.
pub fn action_input(input: &InputSnapshot) -> (command: ActionCommand)
    ensures
        command == (ActionCommand { hook: input.secondary_released, end_action: input.act_released }),
{
    ActionCommand { hook: input.secondary_released, end_action: input.act_released }
}

/// Reads the input while the inventory is shown: whether to go back to
/// the game, which both the quit key and the menu key ask for.
pub fn menu_input(input: &InputSnapshot) -> (back: bool)
    ensures
        back == (input.quit || input.open_menu),
{
    input.quit || input.open_menu
}

/// The direction that an entity faces after it was told to move with
/// `velocity`: left for a positive one, right for a negative one, and as
/// before when it stands still.
pub open spec fn facing(velocity: i32, direction: Direction) -> Direction {
    if velocity > 0 {
        Direction::Left
    } else if velocity < 0 {
        Direction::Right
    } else {
        direction
    }
}

/// Hands a controlled entity its velocity, and turns it that way.
pub fn steer(vel: i32, velocity: &mut Velocity, direction: &mut Direction)
    ensures
        final(velocity).value == vel,
        *final(direction) == facing(vel, *old(direction)),
{
    velocity.value = vel;
    if vel != 0 {
        *direction = if vel > 0 {
            Direction::Left
        } else {
            Direction::Right
        };
    }
}

} // verus!
