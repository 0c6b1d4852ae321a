//! One tick of the simulation. Within a tick the zone detector looks at
//! the player first, then the input is read and its events are handled,
//! then the controlled entities move, then the animation is advanced, and
//! at last a sequence that has run to its end is answered. A state that
//! is entered in a tick shows its animation in that same tick.

use vstd::prelude::*;
use crate::animation::{
    action_animation_control, animation, changed_direction, game_animation_control, Playback,
};
use crate::components::{AnimationState, Boat, Direction, PlayerState, Velocity};
use crate::dispatch::lemma_draw_decides_catch_only;
use crate::economy::{draw_catch, CatchDraw, K_WEIGHT_MIN};
use crate::events::Event;
use crate::input::{
    action_input, facing, game_command, game_input, menu_input, steer, GameCommand, GameState,
    InputSnapshot,
};
use crate::machine::{
    changed_animation_player, follow_up, next_state, player_state_walk_or_row, walk_or_row,
    Trigger,
};
use crate::motion::{advance, advanced, move_control, moved};
use crate::world::{Camera, HeroView, World, WorldView};
use crate::zones::ZoneDetector;

verus! {

impl HeroView {
    /// The player after being told to move with `velocity`: it turns that
    /// way, and its sprite with it.
    pub open spec fn steered(self, velocity: i32) -> HeroView {
        HeroView {
            velocity: Velocity { value: velocity },
            direction: facing(velocity, self.direction),
            playback: if velocity != 0 {
                Playback {
                    flip_x: facing(velocity, self.direction) == Direction::Left,
                    ..self.playback
                }
            } else {
                self.playback
            },
            ..self
        }
    }

    /// The player after the animation clock was driven for `delta_ns`
    /// nanoseconds. While the game is played the clock runs only while
    /// the player moves, and is run to its end otherwise; during an
    /// action it always runs.
    pub open spec fn clocked(self, mode: GameState, delta_ns: u64) -> HeroView {
        let timer = match mode {
            GameState::InGame => if self.velocity.value != 0 {
                self.playback.timer.ticked(delta_ns)
            } else {
                self.playback.timer.completed()
            },
            GameState::InAction => self.playback.timer.ticked(delta_ns),
            GameState::InPlayerMenu => self.playback.timer,
        };
        HeroView { playback: Playback { timer, ..self.playback }, ..self }
    }
}

/// The boat after being told to move with `velocity`, which it heeds only
/// while the player steers it.
pub open spec fn boat_steered(boat: Boat, velocity: i32) -> Boat {
    if boat.on_control {
        Boat { velocity: Velocity { value: velocity }, ..boat }
    } else {
        boat
    }
}

/// The boat after `delta_ns` nanoseconds, which it moves in only while
/// the player steers it.
pub open spec fn boat_moved(boat: Boat, delta_ns: u64) -> Boat {
    if boat.on_control {
        Boat { x: advanced(boat.x, boat.velocity.value, delta_ns), ..boat }
    } else {
        boat
    }
}

impl WorldView {
    /// The world at the start of a tick: nothing delivered yet, and no
    /// wish to leave.
    pub open spec fn opened(self) -> WorldView {
        WorldView { quit: false, events: Seq::empty(), ..self }
    }

    /// The world after the controlled entities were told to move with
    /// `velocity`.
    pub open spec fn steered(self, velocity: i32) -> WorldView {
        WorldView {
            camera: Camera { velocity: Velocity { value: velocity }, ..self.camera },
            player: match self.player {
                Some(h) => Some(h.steered(velocity)),
                None => None,
            },
            boat: match self.boat {
                Some(b) => Some(boat_steered(b, velocity)),
                None => None,
            },
            ..self
        }
    }

    /// The world after the input was read while the player moves about.
    pub open spec fn commanded(self, input: InputSnapshot, draw: CatchDraw) -> WorldView {
        match game_command(input) {
            GameCommand::Quit => WorldView { quit: true, ..self },
            GameCommand::OpenMenu => WorldView { mode: GameState::InPlayerMenu, ..self },
            GameCommand::Steer { velocity, act } => if act {
                WorldView {
                    mode: GameState::InAction,
                    ..self.steered(velocity).delivered(Event::Action, draw)
                }
            } else {
                self.steered(velocity)
            },
        }
    }

    /// The world after the input was read during an action: first a Hook,
    /// then an EndAction, as far as the input asks for them.
    pub open spec fn directed(self, input: InputSnapshot, draw: CatchDraw) -> WorldView {
        let hooked = if input.secondary_released {
            self.delivered(Event::Hook, draw)
        } else {
            self
        };
        if input.act_released {
            WorldView { mode: GameState::InGame, ..hooked.delivered(Event::EndAction, draw) }
        } else {
            hooked
        }
    }

    /// The world after the zone detector has looked at the player and the
    /// state machine has reacted to what it reported.
    pub open spec fn surveyed(self) -> WorldView {
        match self.player {
            Some(h) => if self.manned() {
                let now = ZoneDetector::at(h.position.x as int, self.oceans, self.lands);
                let state = walk_or_row(h.state, self.detector.crossing(now));
                let seen = WorldView { detector: now, ..self };
                if state != h.state {
                    seen.entering(state)
                } else {
                    seen
                }
            } else {
                self
            },
            None => self,
        }
    }

    /// The world after the controlled entities have moved for `delta_ns`
    /// nanoseconds.
    pub open spec fn travelled(self, delta_ns: u64) -> WorldView {
        WorldView {
            camera: Camera {
                position: moved(self.camera.position, self.camera.velocity, true, delta_ns),
                ..self.camera
            },
            player: match self.player {
                Some(h) => Some(
                    HeroView { position: moved(h.position, h.velocity, false, delta_ns), ..h },
                ),
                None => None,
            },
            boat: match self.boat {
                Some(b) => Some(boat_moved(b, delta_ns)),
                None => None,
            },
            ..self
        }
    }

    /// The world after the player's animation was advanced by `delta_ns`
    /// nanoseconds: the clock was driven as `mode` asks, and the
    /// animation controller has made its step.
    pub open spec fn animated(self, mode: GameState, delta_ns: u64) -> WorldView {
        match self.player {
            Some(h) => {
                let clocked = h.clocked(mode, delta_ns);
                WorldView {
                    player: Some(HeroView { playback: clocked.playback.animated(), ..clocked }),
                    ..self
                }
            },
            None => self,
        }
    }

    /// The answer of the state machine to the animation controller: the
    /// event to raise and the state to get into, if a sequence has run
    /// to its end that the table has a row for.
    pub open spec fn completion(self) -> Option<(Event, PlayerState)> {
        match self.player {
            Some(h) => if self.manned() && h.playback.state == AnimationState::Finish {
                match follow_up(h.state, Trigger::AnimationComplete) {
                    Some(event) => Some((event, next_state(h.state, Trigger::AnimationComplete))),
                    None => None,
                }
            } else {
                None
            },
            None => None,
        }
    }

    /// The world after a sequence that has run to its end was answered:
    /// what the state machine raises is delivered, and then the player
    /// gets into the next state.
    pub open spec fn concluded(self, draw: CatchDraw) -> WorldView {
        match self.completion() {
            Some((event, state)) => self.delivered(event, draw).entering(state),
            None => self,
        }
    }

    /// The world after everything in a tick of `delta_ns` nanoseconds but
    /// the answer to a finished sequence.
    pub open spec fn advanced(self, input: InputSnapshot, delta_ns: u64, draw: CatchDraw) -> WorldView {
        match self.mode {
            GameState::InPlayerMenu => if input.quit || input.open_menu {
                WorldView { mode: GameState::InGame, ..self.opened() }
            } else {
                self.opened()
            },
            GameState::InGame => self.opened().surveyed().commanded(input, draw).travelled(
                delta_ns,
            ).animated(GameState::InGame, delta_ns),
            GameState::InAction => self.opened().surveyed().directed(input, draw).travelled(
                delta_ns,
            ).animated(GameState::InAction, delta_ns),
        }
    }

    /// The world after one tick of `delta_ns` nanoseconds with the given
    /// input; `draw` decides a catch. While the inventory is shown, time
    /// stands still and the input can only close it.
    pub open spec fn ticked(self, input: InputSnapshot, delta_ns: u64, draw: CatchDraw) -> WorldView {
        match self.mode {
            GameState::InPlayerMenu => self.advanced(input, delta_ns, draw),
            _ => self.advanced(input, delta_ns, draw).concluded(draw),
        }
    }
}

impl World {
    /// Tells the controlled entities to move with `velocity`.
    fn steer_all(&mut self, velocity: i32)
        requires
            old(self)@.wf(),
        ensures
            final(self)@ == old(self)@.steered(velocity),
            final(self)@.wf(),
    {
        self.camera.velocity.value = velocity;
        match &mut self.player {
            Some(hero) => {
                steer(velocity, &mut hero.velocity, &mut hero.direction);
                if velocity != 0 {
                    let direction = hero.direction;
                    changed_direction(&direction, &mut hero.playback);
                }
            },
            None => {},
        }
        match &mut self.boat {
            Some(boat) => {
                if boat.on_control {
                    boat.velocity.value = velocity;
                }
            },
            None => {},
        }
    }

    /// Reads the input while the player moves about.
    fn command(&mut self, input: &InputSnapshot, draw: CatchDraw)
        requires
            old(self)@.wf(),
        ensures
            final(self)@ == old(self)@.commanded(*input, draw),
            final(self)@.wf(),
    {
        match game_input(input) {
            GameCommand::Quit => {
                self.quit = true;
            },
            GameCommand::OpenMenu => {
                self.mode = GameState::InPlayerMenu;
            },
            GameCommand::Steer { velocity, act } => {
                self.steer_all(velocity);
                if act {
                    self.raise_with(Event::Action, draw);
                    self.mode = GameState::InAction;
                }
            },
        }
    }

    /// Reads the input during an action.
    fn direct(&mut self, input: &InputSnapshot, draw: CatchDraw)
        requires
            old(self)@.wf(),
        ensures
            final(self)@ == old(self)@.directed(*input, draw),
            final(self)@.wf(),
    {
        let command = action_input(input);
        if command.hook {
            self.raise_with(Event::Hook, draw);
        }
        if command.end_action {
            self.raise_with(Event::EndAction, draw);
            self.mode = GameState::InGame;
        }
    }

    /// Lets the zone detector look at the player.
    fn survey(&mut self)
        requires
            old(self)@.wf(),
        ensures
            final(self)@ == old(self)@.surveyed(),
            final(self)@.wf(),
    {
        let next = match &self.player {
            Some(hero) => {
                if self.boat.is_some() {
                    let mut state = hero.state;
                    player_state_walk_or_row(
                        &mut state,
                        &mut self.detector,
                        hero.position.x,
                        &self.oceans,
                        &self.lands,
                    );
                    if state != hero.state {
                        Some(state)
                    } else {
                        None
                    }
                } else {
                    None
                }
            },
            None => None,
        };
        if let Some(state) = next {
            self.enter(state);
        }
    }

    /// Moves the controlled entities.
    fn travel(&mut self, delta_ns: u64)
        requires
            old(self)@.wf(),
        ensures
            final(self)@ == old(self)@.travelled(delta_ns),
            final(self)@.wf(),
    {
        move_control(delta_ns, &mut self.camera.position, &self.camera.velocity, true);
        match &mut self.player {
            Some(hero) => {
                move_control(delta_ns, &mut hero.position, &hero.velocity, false);
            },
            None => {},
        }
        match &mut self.boat {
            Some(boat) => {
                if boat.on_control {
                    boat.x = advance(boat.x, boat.velocity.value, delta_ns);
                }
            },
            None => {},
        }
    }

    /// Advances the player's animation.
    fn animate(&mut self, mode: GameState, delta_ns: u64)
        requires
            old(self)@.wf(),
        ensures
            final(self)@ == old(self)@.animated(mode, delta_ns),
            final(self)@.wf(),
    {
        match &mut self.player {
            Some(hero) => {
                match mode {
                    GameState::InGame => {
                        game_animation_control(delta_ns, &mut hero.playback.timer, &hero.velocity);
                    },
                    GameState::InAction => {
                        action_animation_control(delta_ns, &mut hero.playback.timer);
                    },
                    GameState::InPlayerMenu => {},
                }
                animation(&mut hero.playback);
            },
            None => {},
        }
    }

    /// Asks the state machine for its answer to the animation controller:
    /// the event to raise and the state to get into, if a sequence has
    /// run to its end that the table has a row for.
    fn completion(&self) -> (answer: Option<(Event, PlayerState)>)
        ensures
            answer == self@.completion(),
    {
        match &self.player {
            Some(hero) => {
                if self.boat.is_some() {
                    let mut state = hero.state;
                    match changed_animation_player(&mut state, &hero.playback.state) {
                        Some(event) => Some((event, state)),
                        None => None,
                    }
                } else {
                    None
                }
            },
            None => None,
        }
    }

    /// Everything in a tick but the answer to a finished sequence.
    fn advance(&mut self, input: &InputSnapshot, delta_ns: u64, draw: CatchDraw)
        requires
            old(self)@.wf(),
        ensures
            final(self)@ == old(self)@.advanced(*input, delta_ns, draw),
            final(self)@.wf(),
    {
        let mode = self.mode;
        self.quit = false;
        self.events.clear();
        assert(self@ =~= old(self)@.opened());
        match mode {
            GameState::InPlayerMenu => {
                if menu_input(input) {
                    self.mode = GameState::InGame;
                }
            },
            GameState::InGame => {
                self.survey();
                self.command(input, draw);
                self.travel(delta_ns);
                self.animate(mode, delta_ns);
            },
            GameState::InAction => {
                self.survey();
                self.direct(input, draw);
                self.travel(delta_ns);
                self.animate(mode, delta_ns);
            },
        }
    }

    /// Answers a sequence that has run to its end.
    fn conclude(&mut self, answer: Option<(Event, PlayerState)>, draw: CatchDraw)
        requires
            old(self)@.wf(),
            answer == old(self)@.completion(),
        ensures
            final(self)@ == old(self)@.concluded(draw),
            final(self)@.wf(),
    {
        if let Some((event, state)) = answer {
            self.raise_with(event, draw);
            self.enter(state);
        }
    }

    /// One tick of `delta_ns` nanoseconds with the given input; `draw`
    /// decides a catch, and is not looked at if there is none.
    pub fn tick_with(&mut self, input: &InputSnapshot, delta_ns: u64, draw: CatchDraw)
        requires
            old(self)@.wf(),
        ensures
            final(self)@ == old(self)@.ticked(*input, delta_ns, draw),
            final(self)@.wf(),
    {
        let mode = self.mode;
        self.advance(input, delta_ns, draw);
        match mode {
            GameState::InPlayerMenu => {},
            _ => {
                let answer = self.completion();
                self.conclude(answer, draw);
            },
        }
    }

    /// One tick of `delta_ns` nanoseconds with the given input. A catch
    /// is decided by two numbers drawn at random.
    pub fn tick(&mut self, input: &InputSnapshot, delta_ns: u64)
        requires
            old(self)@.wf(),
        ensures
            exists|draw: CatchDraw| #[trigger]
                draw.valid() && final(self)@ == old(self)@.ticked(*input, delta_ns, draw),
            final(self)@.wf(),
    {
        let mode = self.mode;
        let idle = CatchDraw { chance: 0, weight: K_WEIGHT_MIN };
        self.advance(input, delta_ns, idle);
        let answer = match mode {
            GameState::InPlayerMenu => None,
            _ => self.completion(),
        };
        let draw = match answer {
            Some((Event::Catch, _)) => draw_catch(),
            _ => idle,
        };
        proof {
            old(self)@.lemma_advance_ignores_draw(*input, delta_ns, idle, draw);
        }
        match mode {
            GameState::InPlayerMenu => {},
            _ => {
                self.conclude(answer, draw);
            },
        }
        assert(draw.valid() && self@ == old(self)@.ticked(*input, delta_ns, draw));
    }
}

impl WorldView {
    /// Only the answer to a finished sequence depends on the draw: what
    /// comes before it in a tick is the same for any two draws.
    pub proof fn lemma_advance_ignores_draw(
        self,
        input: InputSnapshot,
        delta_ns: u64,
        a: CatchDraw,
        b: CatchDraw,
    )
        ensures
            self.advanced(input, delta_ns, a) == self.advanced(input, delta_ns, b),
    {
        let surveyed = self.opened().surveyed();
        lemma_draw_decides_catch_only(surveyed.steered(0), Event::Action, a, b);
        lemma_draw_decides_catch_only(surveyed, Event::Hook, a, b);
        lemma_draw_decides_catch_only(surveyed.delivered(Event::Hook, a), Event::EndAction, a, b);
        lemma_draw_decides_catch_only(surveyed, Event::EndAction, a, b);
    }
}

} // verus!
