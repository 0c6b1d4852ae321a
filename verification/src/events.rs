//! The events that the parts of the simulation raise for one another.

use vstd::prelude::*;

verus! {

/// A discrete game event. An event is delivered to its handler at once,
/// within the tick in which it is raised, and then forgotten.
#[derive(Debug, Clone, Copy, PartialEq, Eq, Structural)]
pub enum Event {
    /// The player starts to act.
    Action,
    /// The player stops acting.
    EndAction,
    /// The player pulls the rod, or strikes.
    Hook,
    /// The hook has come up.
    Catch,
    /// A strike has landed.
    Hit,
    /// A building buys an item.
    Sell,
    /// The player shows another sprite of its collection.
    SwitchSprite(usize),
}

} // verus!
