//! The player's action state machine.
//!
//! | From   | Trigger                    | To          | Raises |
//! |--------|----------------------------|-------------|--------|
//! | Walk   | Action, inside an ocean    | Fish        |        |
//! | Walk   | Action, elsewhere          | Idle        |        |
//! | Row    | land entered               | Walk        |        |
//! | Walk   | ocean entered              | Row         |        |
//! | Fish   | Hook                       | Hook        |        |
//! | Idle   | Hook                       | Attack      |        |
//! | Hook   | animation complete         | Fish        | Catch  |
//! | Attack | animation complete         | Idle        | Hit    |
//! | any    | EndAction, inside an ocean | Row         |        |
//! | any    | EndAction, elsewhere       | Walk        |        |
//!
//! Whatever is not in the table leaves the state as it is.

use vstd::prelude::*;
use crate::components::{
    ActiveSprite, AnimationState, Boat, Land, Ocean, PlayerState, Position,
};
use crate::constants::{
    K_GROUND_LEVEL, K_OCEAN_LAND_BORDER, K_PLAYER_HEIGHT, K_SIT_DEPTH, K_SIT_OFFSET,
};
use crate::events::Event;
use crate::zones::{in_any_ocean, in_ocean, ZoneCrossing, ZoneDetector};

verus! {

/// What the state machine can be asked to react to: the events, and the
/// conditions that the animation controller and the zone detector report.
#[derive(Debug, Clone, Copy, PartialEq, Eq, Structural)]
pub enum Trigger {
    /// An Action event, with whether the player stands inside an ocean.
    Action { in_ocean: bool },
    /// An EndAction event, with whether the player stands inside an ocean.
    EndAction { in_ocean: bool },
    /// A Hook event.
    Hook,
    /// A Catch event.
    Catch,
    /// A Hit event.
    Hit,
    /// A Sell event.
    Sell,
    /// A SwitchSprite event.
    SwitchSprite,
    /// The animation controller reports that a sequence has run to its end.
    AnimationComplete,
    /// The zone detector reports that the player has entered land.
    EnterLand,
    /// The zone detector reports that the player has entered an ocean.
    EnterOcean,
}

/// Whether the transition table has a row for `trigger` in `state`.
pub open spec fn in_table(state: PlayerState, trigger: Trigger) -> bool {
    match (state, trigger) {
        (PlayerState::Walk, Trigger::Action { .. }) => true,
        (PlayerState::Row, Trigger::EnterLand) => true,
        (PlayerState::Walk, Trigger::EnterOcean) => true,
        (PlayerState::Fish, Trigger::Hook) => true,
        (PlayerState::Idle, Trigger::Hook) => true,
        (PlayerState::Hook, Trigger::AnimationComplete) => true,
        (PlayerState::Attack, Trigger::AnimationComplete) => true,
        (_, Trigger::EndAction { .. }) => true,
        _ => false,
    }
}

/// The state that follows `state` on `trigger`.
pub open spec fn next_state(state: PlayerState, trigger: Trigger) -> PlayerState {
    match (state, trigger) {
        (PlayerState::Walk, Trigger::Action { in_ocean }) => if in_ocean {
            PlayerState::Fish
        } else {
            PlayerState::Idle
        },
        (PlayerState::Row, Trigger::EnterLand) => PlayerState::Walk,
        (PlayerState::Walk, Trigger::EnterOcean) => PlayerState::Row,
        (PlayerState::Fish, Trigger::Hook) => PlayerState::Hook,
        (PlayerState::Idle, Trigger::Hook) => PlayerState::Attack,
        (PlayerState::Hook, Trigger::AnimationComplete) => PlayerState::Fish,
        (PlayerState::Attack, Trigger::AnimationComplete) => PlayerState::Idle,
        (_, Trigger::EndAction { in_ocean }) => if in_ocean {
            PlayerState::Row
        } else {
            PlayerState::Walk
        },
        _ => state,
    }
}

/// The event that the state machine raises when it reacts to `trigger` in
/// `state`.
pub open spec fn follow_up(state: PlayerState, trigger: Trigger) -> Option<Event> {
    match (state, trigger) {
        (PlayerState::Hook, Trigger::AnimationComplete) => Some(Event::Catch),
        (PlayerState::Attack, Trigger::AnimationComplete) => Some(Event::Hit),
        _ => None,
    }
}

/// Whether the transition table has a row for `trigger` in `state`.
pub fn has_row(state: PlayerState, trigger: Trigger) -> (r: bool)
    ensures
        r == in_table(state, trigger),
{
    match trigger {
        Trigger::Action { .. } => matches!(state, PlayerState::Walk),
        Trigger::EndAction { .. } => true,
        Trigger::Hook => matches!(state, PlayerState::Fish | PlayerState::Idle),
        Trigger::AnimationComplete => matches!(state, PlayerState::Hook | PlayerState::Attack),
        Trigger::EnterLand => matches!(state, PlayerState::Row),
        Trigger::EnterOcean => matches!(state, PlayerState::Walk),
        _ => false,
    }
}

/// One step of the state machine: the next state, and the event to raise.
pub fn transition(state: PlayerState, trigger: Trigger) -> (r: (PlayerState, Option<Event>))
    ensures
        r.0 == next_state(state, trigger),
        r.1 == follow_up(state, trigger),
{
    match trigger {
        Trigger::Action { in_ocean } => match state {
            PlayerState::Walk => if in_ocean {
                (PlayerState::Fish, None)
            } else {
                (PlayerState::Idle, None)
            },
            _ => (state, None),
        },
        Trigger::EndAction { in_ocean } => if in_ocean {
            (PlayerState::Row, None)
        } else {
            (PlayerState::Walk, None)
        },
        Trigger::Hook => match state {
            PlayerState::Fish => (PlayerState::Hook, None),
            PlayerState::Idle => (PlayerState::Attack, None),
            _ => (state, None),
        },
        Trigger::AnimationComplete => match state {
            PlayerState::Hook => (PlayerState::Fish, Some(Event::Catch)),
            PlayerState::Attack => (PlayerState::Idle, Some(Event::Hit)),
            _ => (state, None),
        },
        Trigger::EnterLand => match state {
            PlayerState::Row => (PlayerState::Walk, None),
            _ => (state, None),
        },
        Trigger::EnterOcean => match state {
            PlayerState::Walk => (PlayerState::Row, None),
            _ => (state, None),
        },
        _ => (state, None),
    }
}

/// Handles a Hook event: a fishing player pulls the rod, an idle one
/// strikes.
pub fn on_hook(state: &mut PlayerState)
    ensures
        *final(state) == next_state(*old(state), Trigger::Hook),
{
    *state = transition(*state, Trigger::Hook).0;
}

/// Handles an Action event for a player at `x`: a walking player starts to
/// fish inside an ocean, and stands idle anywhere else.
pub fn on_action(state: &mut PlayerState, x: i64, oceans: &Vec<Ocean>)
    ensures
        *final(state) == next_state(
            *old(state),
            Trigger::Action { in_ocean: in_ocean(x as int, oceans@) },
        ),
{
    let in_ocean = in_any_ocean(x, oceans);
    *state = transition(*state, Trigger::Action { in_ocean }).0;
}

/// Handles an EndAction event for a player at `x`: the player goes back to
/// rowing inside an ocean, and to walking anywhere else.
pub fn on_end_action(state: &mut PlayerState, x: i64, oceans: &Vec<Ocean>)
    ensures
        *final(state) == next_state(
            *old(state),
            Trigger::EndAction { in_ocean: in_ocean(x as int, oceans@) },
        ),
{
    let in_ocean = in_any_ocean(x, oceans);
    *state = transition(*state, Trigger::EndAction { in_ocean }).0;
}

/// Reacts to the animation controller: when the sequence has run to its
/// end, a hooking player is back to fishing with a Catch to resolve, and
/// an attacking player is back to idling with a Hit to resolve.
pub fn changed_animation_player(player_state: &mut PlayerState, state: &AnimationState) -> (raised:
    Option<Event>)
    ensures
        *state == AnimationState::Finish ==> *final(player_state) == next_state(
            *old(player_state),
            Trigger::AnimationComplete,
        ) && raised == follow_up(*old(player_state), Trigger::AnimationComplete),
        *state != AnimationState::Finish ==> *final(player_state) == *old(player_state) && raised
            is None,
{
    match state {
        AnimationState::Finish => {
            let (next, raised) = transition(*player_state, Trigger::AnimationComplete);
            *player_state = next;
            raised
        },
        AnimationState::Run => None,
    }
}

/// The state after the zone detector has reported `crossing`: a rowing
/// player who has entered land walks, a walking player who has entered an
/// ocean rows.
pub open spec fn walk_or_row(state: PlayerState, crossing: ZoneCrossing) -> PlayerState {
    if crossing.entered_land && state == PlayerState::Row {
        next_state(state, Trigger::EnterLand)
    } else if crossing.entered_ocean && state == PlayerState::Walk {
        next_state(state, Trigger::EnterOcean)
    } else {
        state
    }
}

/// Runs the zone detector on the player's position `x` and lets the state
/// machine react to what it reports. A zone counts as entered only in the
/// tick in which the player gets into it.
pub fn player_state_walk_or_row(
    state: &mut PlayerState,
    detector: &mut ZoneDetector,
    x: i64,
    oceans: &Vec<Ocean>,
    lands: &Vec<Land>,
)
    ensures
        *final(detector) == ZoneDetector::at(x as int, oceans@, lands@),
        *final(state) == walk_or_row(*old(state), old(detector).crossing(*final(detector))),
{
    let crossing = detector.observe(x, oceans, lands);
    if crossing.entered_land && *state == PlayerState::Row {
        *state = transition(*state, Trigger::EnterLand).0;
    } else if crossing.entered_ocean && *state == PlayerState::Walk {
        *state = transition(*state, Trigger::EnterOcean).0;
    }
}

/// The entry of the player's sprite collection that is shown in `state`.
pub open spec fn sprite_index(state: PlayerState) -> usize {
    match state {
        PlayerState::Walk => 0,
        PlayerState::Row => 1,
        PlayerState::Fish => 2,
        PlayerState::Idle => 3,
        PlayerState::Hook => 4,
        PlayerState::Attack => 5,
    }
}

/// Where the player is drawn in `state`, standing at `position`: on the
/// ground, or lower and further to the front while sitting in the boat.
pub open spec fn posed(state: PlayerState, position: Position) -> Position {
    if state == PlayerState::Row {
        Position { x: position.x, y: (K_GROUND_LEVEL + K_PLAYER_HEIGHT + K_SIT_OFFSET) as i64, z: K_SIT_DEPTH }
    } else {
        Position { x: position.x, y: (K_GROUND_LEVEL + K_PLAYER_HEIGHT) as i64, z: 0 }
    }
}

/// What becomes of the boat when the player gets into `state`: a walking
/// player has left it at the dock, a rowing player steers it.
pub open spec fn moored(state: PlayerState, boat: Boat) -> Boat {
    match state {
        PlayerState::Walk => Boat { x: K_OCEAN_LAND_BORDER, on_control: false, ..boat },
        PlayerState::Row => Boat { on_control: true, ..boat },
        _ => boat,
    }
}

/// The entry of the player's sprite collection that is shown in `state`.
pub fn sprite_for(state: PlayerState) -> (index: usize)
    ensures
        index == sprite_index(state),
{
    match state {
        PlayerState::Walk => 0,
        PlayerState::Row => 1,
        PlayerState::Fish => 2,
        PlayerState::Idle => 3,
        PlayerState::Hook => 4,
        PlayerState::Attack => 5,
    }
}

/// Brings the world in line with the player's new state: selects the
/// sprite of that state, places the player, and hands the boat over or
/// leaves it at the dock.
pub fn changed_player_state(
    state: &PlayerState,
    active: &mut ActiveSprite,
    position: &mut Position,
    boat: &mut Boat,
)
    ensures
        final(active).index == sprite_index(*state),
        *final(position) == posed(*state, *old(position)),
        *final(boat) == moored(*state, *old(boat)),
{
    active.index = sprite_for(*state);
    position.y = K_GROUND_LEVEL + K_PLAYER_HEIGHT;
    position.z = 0;
    match state {
        PlayerState::Walk => {
            boat.on_control = false;
            boat.x = K_OCEAN_LAND_BORDER;
        },
        PlayerState::Row => {
            position.y = K_GROUND_LEVEL + K_PLAYER_HEIGHT + K_SIT_OFFSET;
            position.z = K_SIT_DEPTH;
            boat.on_control = true;
        },
        _ => {},
    }
}

} // verus!
