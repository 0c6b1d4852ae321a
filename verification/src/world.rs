//! The world: the player, the boat, the camera, the zones and buildings,
//! and the two ways in which it changes, by an event and by a tick.

use vstd::prelude::*;
use crate::animation::{flipped, Playback};
use crate::components::{
    ActiveSprite, AnimationConfig, Boat, Building, ConfigError, Direction, Land, Ocean, Player,
    PlayerState, PlayerView, Position, SpriteCollection, Velocity,
};
use crate::constants::{K_GROUND_LEVEL, K_PLAYER_HEIGHT};
use crate::economy::SellPolicy;
use crate::events::Event;
use crate::input::GameState;
use crate::items::Item;
use crate::machine::{posed, sprite_for, sprite_index};
use crate::zones::{check_zones, zones_disjoint, ZoneDetector};

verus! {

/// The number of sprites that the player needs: one for each state.
pub const K_PLAYER_SPRITES: usize = 6;

/// The player as an entity of the world.
#[derive(Debug, Clone, PartialEq, Eq)]
pub struct Hero {
    pub player: Player,
    pub state: PlayerState,
    pub direction: Direction,
    pub velocity: Velocity,
    pub position: Position,
    pub active: ActiveSprite,
    pub sprites: SpriteCollection,
    pub playback: Playback,
}

/// The mathematical content of a `Hero`.
pub struct HeroView {
    pub player: PlayerView,
    pub state: PlayerState,
    pub direction: Direction,
    pub velocity: Velocity,
    pub position: Position,
    pub active: ActiveSprite,
    pub sprites: Seq<AnimationConfig>,
    pub playback: Playback,
}

impl View for Hero {
    type V = HeroView;

    open spec fn view(&self) -> HeroView {
        HeroView {
            player: self.player@,
            state: self.state,
            direction: self.direction,
            velocity: self.velocity,
            position: self.position,
            active: self.active,
            sprites: self.sprites@,
            playback: self.playback,
        }
    }
}

/// The camera, which follows the movement input.
#[derive(Debug, Clone, Copy, PartialEq, Eq, Structural)]
pub struct Camera {
    pub position: Position,
    pub velocity: Velocity,
}

/// Everything that the simulation keeps.
#[derive(Debug, Clone, PartialEq, Eq)]
pub struct World {
    pub mode: GameState,
    pub player: Option<Hero>,
    pub boat: Option<Boat>,
    pub camera: Camera,
    pub oceans: Vec<Ocean>,
    pub lands: Vec<Land>,
    pub buildings: Vec<Building>,
    pub detector: ZoneDetector,
    pub policy: SellPolicy,
    /// Whether the last tick asked to leave the game.
    pub quit: bool,
    /// The events delivered since the last tick began, in order.
    pub events: Vec<Event>,
}

/// The mathematical content of a `World`.
pub struct WorldView {
    pub mode: GameState,
    pub player: Option<HeroView>,
    pub boat: Option<Boat>,
    pub camera: Camera,
    pub oceans: Seq<Ocean>,
    pub lands: Seq<Land>,
    pub buildings: Seq<Building>,
    pub detector: ZoneDetector,
    pub policy: SellPolicy,
    pub quit: bool,
    pub events: Seq<Event>,
}

/// The mathematical content of an entity that may be missing.
pub open spec fn hero_view(hero: Option<Hero>) -> Option<HeroView> {
    match hero {
        Some(h) => Some(h@),
        None => None,
    }
}

impl View for World {
    type V = WorldView;

    open spec fn view(&self) -> WorldView {
        WorldView {
            mode: self.mode,
            player: hero_view(self.player),
            boat: self.boat,
            camera: self.camera,
            oceans: self.oceans@,
            lands: self.lands@,
            buildings: self.buildings@,
            detector: self.detector,
            policy: self.policy,
            quit: self.quit,
            events: self.events@,
        }
    }
}

/// Why a world cannot be set up.
#[derive(Debug, Clone, Copy, PartialEq, Eq, Structural)]
pub enum SetupError {
    /// The player's sprite collection has no entries.
    EmptySpriteCollection,
    /// The player's sprite collection has entries, but not one for each
    /// state.
    MissingSprite,
    /// The animation with this index cannot be played.
    InvalidAnimation(usize, ConfigError),
    /// The player does not show the sprite of its state, or what it
    /// plays is not in order.
    InconsistentPlayer,
    /// A land and an ocean share a point.
    OverlappingZones,
}

/// Whether every animation of the collection can be played.
pub open spec fn all_playable(sprites: Seq<AnimationConfig>) -> bool {
    forall|i: int| 0 <= i < sprites.len() ==> (#[trigger] sprites[i]).wf()
}

/// Whether animation `i` is the first of the collection that cannot be
/// played, for the reason `why`.
pub open spec fn first_unplayable(sprites: Seq<AnimationConfig>, i: int, why: ConfigError) -> bool {
    &&& 0 <= i < sprites.len()
    &&& forall|j: int| 0 <= j < i ==> (#[trigger] sprites[j]).wf()
    &&& AnimationConfig::check(
        sprites[i].first_index,
        sprites[i].last_index,
        sprites[i].ms,
        sprites[i].mode,
    ) == Err::<AnimationConfig, ConfigError>(why)
}

impl HeroView {
    /// The sprite collection has a playable animation for each state, the
    /// active sprite is the one of the current state, and it is the one
    /// being played.
    pub open spec fn wf(self) -> bool {
        &&& self.sprites.len() >= K_PLAYER_SPRITES
        &&& all_playable(self.sprites)
        &&& self.active.index == sprite_index(self.state)
        &&& self.playback.config == self.sprites[self.active.index as int]
        &&& self.playback.wf()
    }

    /// The player after getting into `state`: it shows the sprite of that
    /// state from its first frame, with a fresh clock, and is placed as
    /// the state asks.
    pub open spec fn entered(self, state: PlayerState) -> HeroView {
        HeroView {
            state,
            active: ActiveSprite { index: sprite_index(state) },
            position: posed(state, self.position),
            playback: Playback::started(
                self.sprites[sprite_index(state) as int],
                flipped(Some(self.direction)),
            ),
            ..self
        }
    }

    /// A player who has just been put into the world at `x`: walking,
    /// facing right, standing still, with nothing in hand.
    pub open spec fn fresh(sprites: Seq<AnimationConfig>, x: i64) -> HeroView {
        HeroView {
            player: PlayerView { money: 0, items: Seq::empty() },
            state: PlayerState::Walk,
            direction: Direction::Right,
            velocity: Velocity { value: 0 },
            position: Position { x, y: (K_GROUND_LEVEL + K_PLAYER_HEIGHT) as i64, z: 0 },
            active: ActiveSprite { index: 0 },
            sprites,
            playback: Playback::started(sprites[0], false),
        }
    }
}

/// What `check_sprites` answers.
pub open spec fn sprites_checked(sprites: Seq<AnimationConfig>, r: Result<(), SetupError>) -> bool {
    match r {
        Ok(()) => sprites.len() >= K_PLAYER_SPRITES && all_playable(sprites),
        Err(SetupError::EmptySpriteCollection) => sprites.len() == 0,
        Err(SetupError::MissingSprite) => 0 < sprites.len() < K_PLAYER_SPRITES,
        Err(SetupError::InvalidAnimation(i, why)) => sprites.len() >= K_PLAYER_SPRITES
            && first_unplayable(sprites, i as int, why),
        Err(_) => false,
    }
}

/// Checks that a sprite collection can serve the player: that it has an
/// entry for each state, and that each entry can be played. Of several
/// faults the first in this order is reported, and of several unplayable
/// animations the first.
pub fn check_sprites(sprites: &SpriteCollection) -> (r: Result<(), SetupError>)
    ensures
        sprites_checked(sprites@, r),
        r is Ok <==> sprites@.len() >= K_PLAYER_SPRITES && all_playable(sprites@),
{
    if sprites.animations.len() == 0 {
        return Err(SetupError::EmptySpriteCollection);
    }
    if sprites.animations.len() < K_PLAYER_SPRITES {
        return Err(SetupError::MissingSprite);
    }
    let mut i: usize = 0;
    while i < sprites.animations.len()
        invariant
            i <= sprites.animations.len(),
            sprites@.len() >= K_PLAYER_SPRITES,
            forall|j: int| 0 <= j < i ==> (#[trigger] sprites@[j]).wf(),
        decreases sprites.animations.len() - i,
    {
        let c = sprites.animations[i];
        match AnimationConfig::new(c.first_index, c.last_index, c.ms, c.mode) {
            Ok(_) => {},
            Err(why) => {
                return Err(SetupError::InvalidAnimation(i, why));
            },
        }
        i += 1;
    }
    Ok(())
}

impl Hero {
    /// Whether the player is well formed.
    pub fn is_valid(&self) -> (r: bool)
        ensures
            r == self@.wf(),
    {
        match check_sprites(&self.sprites) {
            Ok(()) => {
                self.active.index == sprite_for(self.state) && self.playback.config
                    == self.sprites.animations[self.active.index] && self.playback.is_valid()
            },
            Err(_) => false,
        }
    }

    /// Puts a player into the world at `x`, with the sprite collection
    /// that it is to be drawn from.
    pub fn new(sprites: SpriteCollection, x: i64) -> (r: Result<Hero, SetupError>)
        ensures
            r is Ok <==> sprites@.len() >= K_PLAYER_SPRITES && all_playable(sprites@),
            r matches Ok(h) ==> h@ == HeroView::fresh(sprites@, x) && h@.wf(),
            r matches Err(e) ==> sprites_checked(sprites@, Err(e)),
    {
        match check_sprites(&sprites) {
            Err(e) => Err(e),
            Ok(()) => {
                let playback = Playback::start(sprites.animations[0], false);
                let hero = Hero {
                    player: Player::new(),
                    state: PlayerState::Walk,
                    direction: Direction::Right,
                    velocity: Velocity { value: 0 },
                    position: Position { x, y: K_GROUND_LEVEL + K_PLAYER_HEIGHT, z: 0 },
                    active: ActiveSprite { index: 0 },
                    sprites,
                    playback,
                };
                assert(hero@.player.items =~= Seq::<Item>::empty());
                Ok(hero)
            },
        }
    }
}

impl WorldView {
    /// A world in which the game is on, nothing has happened yet and the
    /// zone detector has not looked yet.
    pub open spec fn initial(
        player: Option<HeroView>,
        boat: Option<Boat>,
        camera: Camera,
        oceans: Seq<Ocean>,
        lands: Seq<Land>,
        buildings: Seq<Building>,
        policy: SellPolicy,
    ) -> WorldView {
        WorldView {
            mode: GameState::InGame,
            player,
            boat,
            camera,
            oceans,
            lands,
            buildings,
            detector: ZoneDetector { in_ocean: false, in_land: false },
            policy,
            quit: false,
            events: Seq::empty(),
        }
    }

    /// The player, if there is one, is well formed, and no land shares a
    /// point with an ocean.
    pub open spec fn wf(self) -> bool {
        &&& self.player matches Some(h) ==> h.wf()
        &&& zones_disjoint(self.lands, self.oceans)
    }
}

impl World {
    /// Whether the world is well formed.
    pub fn is_valid(&self) -> (r: bool)
        ensures
            r == self@.wf(),
    {
        let player_ok = match &self.player {
            Some(hero) => hero.is_valid(),
            None => true,
        };
        player_ok && check_zones(&self.lands, &self.oceans)
    }

    /// Sets up a world. A player that is not well formed is refused, and
    /// so are lands and oceans that share a point.
    pub fn new(
        player: Option<Hero>,
        boat: Option<Boat>,
        camera: Camera,
        oceans: Vec<Ocean>,
        lands: Vec<Land>,
        buildings: Vec<Building>,
        policy: SellPolicy,
    ) -> (r: Result<World, SetupError>)
        ensures
            match r {
                Ok(w) => {
                    &&& w@ == WorldView::initial(
                        hero_view(player),
                        boat,
                        camera,
                        oceans@,
                        lands@,
                        buildings@,
                        policy,
                    )
                    &&& w@.wf()
                },
                Err(e) => e == if hero_view(player) matches Some(h) && !h.wf() {
                    SetupError::InconsistentPlayer
                } else {
                    SetupError::OverlappingZones
                },
            },
            r is Ok <==> WorldView::initial(
                hero_view(player),
                boat,
                camera,
                oceans@,
                lands@,
                buildings@,
                policy,
            ).wf(),
    {
        let player_ok = match &player {
            Some(hero) => hero.is_valid(),
            None => true,
        };
        if !player_ok {
            return Err(SetupError::InconsistentPlayer);
        }
        if !check_zones(&lands, &oceans) {
            return Err(SetupError::OverlappingZones);
        }
        let world = World {
            mode: GameState::InGame,
            player,
            boat,
            camera,
            oceans,
            lands,
            buildings,
            detector: ZoneDetector::new(),
            policy,
            quit: false,
            events: Vec::new(),
        };
        assert(world@.events =~= Seq::<Event>::empty());
        Ok(world)
    }
}

} // verus!
