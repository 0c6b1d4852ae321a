//! The simulation core of a side-scrolling fishing game: the player's action
//! state machine, sprite animation playback, zone detection and the small
//! economy of catching and selling fish.
//!
//! All quantities are fixed-point integers. Lengths and positions are counted
//! in thousandths of a world unit, weights in thousandths of a weight unit,
//! money in thousandths of a coin and time in nanoseconds.
//!
//! The parts, from the leaves up:
//!
//! - `items`, `components`, `events`: the data.
//! - `clock`, `animation`: the animation controller.
//! - `zones`: the zone detector.
//! - `economy`: catches and sales.
//! - `machine`: the player's state machine.
//! - `input`, `motion`, `menu`: what the keys ask for, how entities move,
//!   what the inventory shows.
//! - `world`, `dispatch`, `tick`: the world, and how it changes by an
//!   event and by a tick.
//! - `laws`: what holds of all of it.

pub mod animation;
pub mod chance;
pub mod clock;
pub mod components;
pub mod constants;
pub mod dispatch;
pub mod economy;
pub mod events;
pub mod input;
pub mod items;
pub mod laws;
pub mod machine;
pub mod menu;
pub mod motion;
pub mod tick;
pub mod world;
pub mod zones;
