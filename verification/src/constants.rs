//! Game constants.
//!
//! Coordinate space, in world units:
//!
//! ```text
//! (-w/2, h/2)       (w/2, h/2)
//!      +----------------+
//!      |     (0,0)      |
//!      |       |        |
//!      +----------------+
//! (-w/2, -h/2)       (w/2, -h/2)
//! ```

use vstd::prelude::*;

verus! {

/// Thousandths per world unit, weight unit and coin.
pub const K_UNIT: i64 = 1_000;

/// Nanoseconds per millisecond.
pub const K_NANOS_PER_MILLI: u64 = 1_000_000;

/// Nanoseconds per second.
pub const K_NANOS_PER_SEC: u64 = 1_000_000_000;

/// Width of the visible world.
pub const K_WIDTH: i64 = 1_280_000;

/// Height of the visible world.
pub const K_HEIGHT: i64 = 720_000;

/// Height of the ground line.
pub const K_GROUND_LEVEL: i64 = -328_000;

/// Distance covered per second by a controlled entity.
pub const K_SPEED: i64 = 150_000;

/// Default duration of one animation frame, in milliseconds.
pub const K_ANIMATION_FRAME_MS: u64 = 100;

/// Where land ends and the ocean begins; also the boat's dock.
pub const K_OCEAN_LAND_BORDER: i64 = 512_000;

/// Width of the ocean.
pub const K_OCEAN_SIZE: i64 = 4_096_000;

/// Width of the land.
pub const K_LAND_SIZE: i64 = 4_096_000;

/// Vertical offset of the player while sitting in the boat.
pub const K_SIT_OFFSET: i64 = -22_000;

/// Height of the player's feet above the ground line.
pub const K_PLAYER_HEIGHT: i64 = 64_000;

/// Depth at which the player is drawn while sitting in the boat.
pub const K_SIT_DEPTH: i64 = 550;

} // verus!
