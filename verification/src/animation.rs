//! The animation controller: which frame of its sprite sheet an entity
//! shows, and when a sequence has run to its end.

use vstd::prelude::*;
use crate::components::{
    ActiveSprite, AnimationConfig, AnimationState, AnimationTimer, Direction, LoopMode,
    SpriteCollection, Velocity,
};

verus! {

/// The animation that an entity is playing.
#[derive(Debug, Clone, Copy, PartialEq, Eq, Structural)]
pub struct Playback {
    pub config: AnimationConfig,
    pub timer: AnimationTimer,
    pub state: AnimationState,
    /// The frame that is shown.
    pub frame: usize,
    /// Whether the sprite is mirrored, to face left.
    pub flip_x: bool,
}

/// The frame of `config` that is shown after `elapsed_ns` nanoseconds: one
/// frame further for every full frame duration, and never past the last.
pub open spec fn frame_at(config: AnimationConfig, elapsed_ns: int) -> int {
    let index = config.first_index + (elapsed_ns / 1_000_000) / (config.ms as int);
    if index > config.last_index {
        config.last_index as int
    } else {
        index
    }
}

/// Whether a sprite that faces `direction` is mirrored.
pub open spec fn flipped(direction: Option<Direction>) -> bool {
    direction == Some(Direction::Left)
}

impl Playback {
    /// The configuration and the clock are usable, and the frame shown
    /// belongs to the sequence.
    pub open spec fn wf(self) -> bool {
        &&& self.config.wf()
        &&& self.timer.wf()
        &&& self.config.first_index <= self.frame <= self.config.last_index
    }

    /// `config` played from its start.
    pub open spec fn started(config: AnimationConfig, flip_x: bool) -> Playback {
        Playback {
            config,
            timer: AnimationTimer::seeded(config.total_ns() as u64),
            state: AnimationState::Run,
            frame: config.first_index,
            flip_x,
        }
    }

    /// The playback with a fresh clock for its whole sequence, running.
    pub open spec fn reseeded(self) -> Playback {
        Playback {
            timer: AnimationTimer::seeded(self.config.total_ns() as u64),
            state: AnimationState::Run,
            ..self
        }
    }

    /// What one step of the controller makes of the playback.
    ///
    /// While the clock runs, the frame follows the elapsed time. Once the
    /// clock is finished the frame goes back to the first one; a repeating
    /// sequence then starts over with a fresh clock, any other one is
    /// marked as finished.
    pub open spec fn animated(self) -> Playback {
        if self.timer.finished {
            let rewound = Playback { frame: self.config.first_index, state: AnimationState::Finish, ..self };
            if self.config.mode == LoopMode::Repeating {
                rewound.reseeded()
            } else {
                rewound
            }
        } else {
            Playback { frame: frame_at(self.config, self.timer.elapsed_ns as int) as usize, ..self }
        }
    }

    /// Whether the playback is in order.
    pub fn is_valid(&self) -> (r: bool)
        ensures
            r == self.wf(),
    {
        self.config.is_valid() && self.timer.is_valid() && self.config.first_index <= self.frame
            && self.frame <= self.config.last_index
    }

    /// Starts `config` from its first frame.
    pub fn start(config: AnimationConfig, flip_x: bool) -> (p: Playback)
        requires
            config.wf(),
        ensures
            p == Self::started(config, flip_x),
            p.wf(),
    {
        Playback {
            config,
            timer: AnimationTimer::new(config.duration_ns()),
            state: AnimationState::Run,
            frame: config.first_index,
            flip_x,
        }
    }
}

/// The frame of `config` that is shown after `elapsed_ns` nanoseconds.
pub fn frame_for(config: &AnimationConfig, elapsed_ns: u64) -> (frame: usize)
    requires
        config.wf(),
    ensures
        frame == frame_at(*config, elapsed_ns as int),
        config.first_index <= frame <= config.last_index,
{
    let index: u64 = elapsed_ns / 1_000_000 / config.ms;
    let span: usize = config.last_index - config.first_index;
    if index >= span as u64 {
        config.last_index
    } else {
        config.first_index + index as usize
    }
}

/// Gives a playback that has just been set up its clock: a fresh one for
/// the whole sequence, and marks it as running.
pub fn added_animation(playback: &mut Playback)
    requires
        old(playback).config.wf(),
    ensures
        *final(playback) == old(playback).reseeded(),
{
    playback.timer = AnimationTimer::new(playback.config.duration_ns());
    playback.state = AnimationState::Run;
}

/// One step of the animation controller.
pub fn animation(playback: &mut Playback)
    requires
        old(playback).config.wf(),
    ensures
        *final(playback) == old(playback).animated(),
        final(playback).config.first_index <= final(playback).frame,
        final(playback).frame <= final(playback).config.last_index,
{
    if playback.timer.is_finished() {
        playback.frame = playback.config.first_index;
        playback.state = AnimationState::Finish;
        if playback.config.mode == LoopMode::Repeating {
            added_animation(playback);
        }
    } else {
        playback.frame = frame_for(&playback.config, playback.timer.elapsed_ns);
    }
}

/// Drives the clock of a controlled entity while the game is played: the
/// clock runs while the entity moves, and is run to its end when it
/// stands still.
pub fn game_animation_control(delta_ns: u64, timer: &mut AnimationTimer, velocity: &Velocity)
    requires
        old(timer).wf(),
    ensures
        *final(timer) == if velocity.value != 0 {
            old(timer).ticked(delta_ns)
        } else {
            old(timer).completed()
        },
        final(timer).wf(),
{
    if velocity.value != 0 {
        timer.tick(delta_ns);
    } else {
        timer.finish();
    }
}

/// Drives the clock of a controlled entity during an action: the clock
/// always runs.
pub fn action_animation_control(delta_ns: u64, timer: &mut AnimationTimer)
    requires
        old(timer).wf(),
    ensures
        *final(timer) == old(timer).ticked(delta_ns),
        final(timer).wf(),
{
    timer.tick(delta_ns);
}

/// Switches an entity to the animation that its active sprite selects.
/// Whatever was playing is dropped: the new sequence starts at its first
/// frame with a fresh clock, mirrored if the entity faces left.
pub fn changed_active_sprite(
    active: &ActiveSprite,
    collection: &SpriteCollection,
    direction: Option<Direction>,
    playback: &mut Playback,
)
    requires
        active.index < collection@.len(),
        collection@[active.index as int].wf(),
    ensures
        *final(playback) == Playback::started(collection@[active.index as int], flipped(direction)),
        final(playback).wf(),
{
    let config = collection.animations[active.index];
    let flip_x = match direction {
        Some(Direction::Left) => true,
        Some(Direction::Right) => false,
        None => false,
    };
    playback.config = config;
    playback.frame = config.first_index;
    playback.flip_x = flip_x;
    playback.timer = AnimationTimer::default();
    added_animation(playback);
}

/// Mirrors the sprite of an entity that has turned.
pub fn changed_direction(direction: &Direction, playback: &mut Playback)
    ensures
        *final(playback) == (Playback { flip_x: *direction == Direction::Left, ..*old(playback) }),
{
    match direction {
        Direction::Left => {
            playback.flip_x = true;
        },
        Direction::Right => {
            playback.flip_x = false;
        },
    }
}

} // verus!
