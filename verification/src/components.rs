//! The plain data records that the simulation works on.

use vstd::prelude::*;
use crate::items::Item;

verus! {

/// What the player is doing. Exactly one state is active at a time.
#[derive(Debug, Clone, Copy, PartialEq, Eq, Structural)]
pub enum PlayerState {
    Idle,
    Walk,
    Row,
    Fish,
    Hook,
    Attack,
}

/// Which way an entity faces.
#[derive(Debug, Clone, Copy, PartialEq, Eq, Structural)]
pub enum Direction {
    Left,
    Right,
}

/// Whether an animation is playing or has run to its end.
#[derive(Debug, Clone, Copy, PartialEq, Eq, Structural)]
pub enum AnimationState {
    Run,
    Finish,
}

impl Default for AnimationState {
    fn default() -> (s: AnimationState)
        ensures
            s == AnimationState::Finish,
    {
        AnimationState::Finish
    }
}

/// What an animation does when it has shown its last frame.
#[derive(Debug, Clone, Copy, PartialEq, Eq, Structural)]
pub enum LoopMode {
    /// Play once, then signal completion and hold on the first frame.
    Once,
    /// Start over.
    Repeating,
}

/// One playback sequence: the frames `first_index..=last_index`, each
/// shown for `ms` milliseconds.
#[derive(Debug, Clone, Copy, PartialEq, Eq, Structural)]
pub struct AnimationConfig {
    pub first_index: usize,
    pub last_index: usize,
    /// Duration per frame in ms.
    pub ms: u64,
    pub mode: LoopMode,
}

/// Why an animation configuration is refused.
#[derive(Debug, Clone, Copy, PartialEq, Eq, Structural)]
pub enum ConfigError {
    /// The first frame lies behind the last one.
    EmptyFrameRange,
    /// A frame would be shown for no time at all.
    ZeroFrameDuration,
    /// The whole sequence lasts longer than a timer can count.
    TooLong,
    /// The sprite sheet has no columns or no rows.
    EmptyGrid,
}

impl AnimationConfig {
    /// Number of frames in the sequence.
    pub open spec fn frame_count(self) -> int {
        self.last_index - self.first_index + 1
    }

    /// Duration of the whole sequence in nanoseconds.
    pub open spec fn total_ns(self) -> int {
        self.frame_count() * self.ms * 1_000_000
    }

    /// A usable configuration has at least one frame, shows each frame for
    /// some time, and its total duration can be counted in 64 bits.
    pub open spec fn wf(self) -> bool {
        &&& self.first_index <= self.last_index
        &&& self.ms > 0
        &&& self.total_ns() <= u64::MAX
    }

    /// What `new` answers for the given values.
    pub open spec fn check(first_index: usize, last_index: usize, ms: u64, mode: LoopMode) -> Result<
        AnimationConfig,
        ConfigError,
    > {
        let config = AnimationConfig { first_index, last_index, ms, mode };
        if first_index > last_index {
            Err(ConfigError::EmptyFrameRange)
        } else if ms == 0 {
            Err(ConfigError::ZeroFrameDuration)
        } else if config.total_ns() > u64::MAX {
            Err(ConfigError::TooLong)
        } else {
            Ok(config)
        }
    }

    /// Builds a configuration, refusing values that no animation can be
    /// played from.
    pub fn new(first_index: usize, last_index: usize, ms: u64, mode: LoopMode) -> (r: Result<
        AnimationConfig,
        ConfigError,
    >)
        ensures
            r == Self::check(first_index, last_index, ms, mode),
            r matches Ok(c) ==> c.wf(),
    {
        if first_index > last_index {
            return Err(ConfigError::EmptyFrameRange);
        }
        if ms == 0 {
            return Err(ConfigError::ZeroFrameDuration);
        }
        let config = AnimationConfig { first_index, last_index, ms, mode };
        let frames: u128 = (last_index - first_index) as u128 + 1;
        assert(frames * (ms as u128) <= 0x1_0000_0000_0000_0000 * 0xFFFF_FFFF_FFFF_FFFF)
            by (nonlinear_arith)
            requires
                frames <= 0x1_0000_0000_0000_0000,
                ms <= 0xFFFF_FFFF_FFFF_FFFF,
        ;
        let frame_ms: u128 = frames * (ms as u128);
        if frame_ms > 18_446_744_073_709u128 {
            assert(config.total_ns() > u64::MAX) by (nonlinear_arith)
                requires
                    config.total_ns() == frame_ms * 1_000_000,
                    frame_ms > 18_446_744_073_709,
            ;
            return Err(ConfigError::TooLong);
        }
        assert(config.total_ns() <= u64::MAX) by (nonlinear_arith)
            requires
                config.total_ns() == frame_ms * 1_000_000,
                frame_ms <= 18_446_744_073_709,
        ;
        Ok(config)
    }

    /// Whether the configuration is usable.
    pub fn is_valid(&self) -> (r: bool)
        ensures
            r == self.wf(),
    {
        Self::new(self.first_index, self.last_index, self.ms, self.mode).is_ok()
    }

    /// The last frame of a sprite sheet of `cols` by `rows` tiles that is
    /// laid out along its longer side.
    pub open spec fn grid_last(cols: u32, rows: u32) -> int {
        if cols >= rows {
            cols - 1
        } else {
            rows - 1
        }
    }

    /// What `from_grid` answers for the given values.
    pub open spec fn check_grid(index: usize, cols: u32, rows: u32, ms: u64, mode: LoopMode) -> Result<
        AnimationConfig,
        ConfigError,
    > {
        if cols == 0 || rows == 0 {
            Err(ConfigError::EmptyGrid)
        } else {
            Self::check(index, Self::grid_last(cols, rows) as usize, ms, mode)
        }
    }

    /// The animation of a sprite sheet of `cols` by `rows` tiles, from
    /// the tile `index` to the last tile of the longer side.
    pub fn from_grid(index: usize, cols: u32, rows: u32, ms: u64, mode: LoopMode) -> (r: Result<
        AnimationConfig,
        ConfigError,
    >)
        ensures
            r == Self::check_grid(index, cols, rows, ms, mode),
            r matches Ok(c) ==> c.wf(),
    {
        if cols == 0 || rows == 0 {
            return Err(ConfigError::EmptyGrid);
        }
        let last: u32 = if cols >= rows {
            cols - 1
        } else {
            rows - 1
        };
        Self::new(index, last as usize, ms, mode)
    }

    /// Duration of the whole sequence in nanoseconds.
    pub fn duration_ns(&self) -> (d: u64)
        requires
            self.wf(),
        ensures
            d == self.total_ns(),
    {
        assert(self.frame_count() <= self.frame_count() * self.ms <= self.total_ns())
            by (nonlinear_arith)
            requires
                self.total_ns() == self.frame_count() * self.ms * 1_000_000,
                self.frame_count() >= 1,
                self.ms >= 1,
        ;
        let frames: u64 = (self.last_index - self.first_index) as u64 + 1;
        frames * self.ms * 1_000_000
    }
}

/// A countdown clock for one animation. It counts `elapsed_ns` up to
/// `duration_ns`, and is `finished` once it has been advanced that far.
#[derive(Debug, Clone, Copy, PartialEq, Eq, Structural)]
pub struct AnimationTimer {
    pub elapsed_ns: u64,
    pub duration_ns: u64,
    pub finished: bool,
}

impl AnimationTimer {
    /// The clock never runs past its duration, and a finished clock rests
    /// on it.
    pub open spec fn wf(self) -> bool {
        &&& self.elapsed_ns <= self.duration_ns
        &&& self.finished ==> self.elapsed_ns == self.duration_ns
    }

    /// A clock at zero that will run for `duration_ns`.
    pub open spec fn seeded(duration_ns: u64) -> AnimationTimer {
        AnimationTimer { elapsed_ns: 0, duration_ns, finished: false }
    }

    /// Whether the clock is in order.
    pub fn is_valid(&self) -> (r: bool)
        ensures
            r == self.wf(),
    {
        self.elapsed_ns <= self.duration_ns && (!self.finished || self.elapsed_ns
            == self.duration_ns)
    }

    /// A clock at zero that will run for `duration_ns`.
    pub fn new(duration_ns: u64) -> (t: AnimationTimer)
        ensures
            t == Self::seeded(duration_ns),
            t.wf(),
    {
        AnimationTimer { elapsed_ns: 0, duration_ns, finished: false }
    }
}

impl Default for AnimationTimer {
    fn default() -> (t: AnimationTimer)
        ensures
            t == AnimationTimer::seeded(0),
    {
        AnimationTimer::new(0)
    }
}

/// The animations an entity can play, one per sprite sheet.
#[derive(Debug, Clone, PartialEq, Eq)]
pub struct SpriteCollection {
    pub animations: Vec<AnimationConfig>,
}

impl View for SpriteCollection {
    type V = Seq<AnimationConfig>;

    open spec fn view(&self) -> Seq<AnimationConfig> {
        self.animations@
    }
}

/// Which entry of its sprite collection an entity shows.
#[derive(Debug, Clone, Copy, PartialEq, Eq, Structural)]
pub struct ActiveSprite {
    pub index: usize,
}

/// Movement intent along the x axis: 1 towards smaller x, -1 towards
/// larger x, 0 to stand still.
#[derive(Debug, Clone, Copy, PartialEq, Eq, Structural)]
pub struct Velocity {
    pub value: i32,
}

impl Default for Velocity {
    fn default() -> (v: Velocity)
        ensures
            v.value == 0,
    {
        Velocity { value: 0 }
    }
}

/// A place in the world.
#[derive(Debug, Clone, Copy, PartialEq, Eq, Structural)]
pub struct Position {
    pub x: i64,
    pub y: i64,
    pub z: i64,
}

/// The player's purse and inventory. Items are sold last in, first out.
#[derive(Debug, Clone, PartialEq, Eq)]
pub struct Player {
    /// In thousandths of a coin.
    pub money: u64,
    pub items: Vec<Item>,
}

/// The mathematical content of a `Player`.
pub struct PlayerView {
    pub money: nat,
    pub items: Seq<Item>,
}

impl View for Player {
    type V = PlayerView;

    open spec fn view(&self) -> PlayerView {
        PlayerView { money: self.money as nat, items: self.items@ }
    }
}

impl Player {
    /// A player with no money and an empty inventory.
    pub fn new() -> (p: Player)
        ensures
            p@.money == 0,
            p@.items == Seq::<Item>::empty(),
    {
        Player { money: 0, items: Vec::new() }
    }
}

/// The boat that carries the player across the ocean.
#[derive(Debug, Clone, Copy, PartialEq, Eq, Structural)]
pub struct Boat {
    pub x: i64,
    /// Whether the boat follows the movement input.
    pub on_control: bool,
    pub velocity: Velocity,
}

/// Half the width of the interval around a centre within which actions
/// take effect.
#[derive(Debug, Clone, Copy, PartialEq, Eq, Structural)]
pub struct ActionRange {
    pub range: u64,
}

impl ActionRange {
    /// The range of something that is `width` wide: half of it.
    pub fn of_width(width: u64) -> (r: ActionRange)
        ensures
            r.range == width / 2,
    {
        ActionRange { range: width / 2 }
    }
}

/// A stretch of land: the open interval of half-width `half_width` around `x`.
#[derive(Debug, Clone, Copy, PartialEq, Eq, Structural)]
pub struct Land {
    pub x: i64,
    pub half_width: u64,
}

impl Land {
    /// The land of the given width around `x`.
    pub fn new(x: i64, width: u64) -> (land: Land)
        ensures
            land == (Land { x, half_width: width / 2 }),
    {
        Land { x, half_width: width / 2 }
    }
}

/// A stretch of ocean: the open interval of half-width `half_width` around `x`.
#[derive(Debug, Clone, Copy, PartialEq, Eq, Structural)]
pub struct Ocean {
    pub x: i64,
    pub half_width: u64,
}

impl Ocean {
    /// The ocean of the given width around `x`.
    pub fn new(x: i64, width: u64) -> (ocean: Ocean)
        ensures
            ocean == (Ocean { x, half_width: width / 2 }),
    {
        Ocean { x, half_width: width / 2 }
    }
}

/// A building that buys what the player brings.
#[derive(Debug, Clone, Copy, PartialEq, Eq, Structural)]
pub struct Building {
    pub x: i64,
    pub action: ActionRange,
}

impl Building {
    /// The building of the given width around `x`, which can be reached
    /// from anywhere in front of it.
    pub fn new(x: i64, width: u64) -> (building: Building)
        ensures
            building == (Building { x, action: ActionRange { range: width / 2 } }),
    {
        Building { x, action: ActionRange::of_width(width) }
    }
}

} // verus!
