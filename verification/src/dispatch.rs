//! Event delivery. An event is handed to its handler at once; what the
//! handler raises in turn is delivered before the handler goes on, so
//! that the whole cascade is over when `raise` returns.

use vstd::prelude::*;
use crate::animation::{changed_active_sprite, flipped, Playback};
use crate::components::PlayerState;
use crate::economy::{
    buyer_count, catch_outcome, draw_catch, on_hit, on_sell, take_catch, CatchDraw, K_WEIGHT_MIN,
};
use crate::events::Event;
use crate::machine::{
    changed_player_state, has_row, in_table, moored, next_state, sprite_index, transition, Trigger,
};
use crate::world::{HeroView, World, WorldView};
use crate::zones::{in_any_ocean, in_ocean};

verus! {

impl WorldView {
    /// Whether there are both a player and a boat. The state machine
    /// needs both, and does nothing as long as one of them is missing.
    pub open spec fn manned(self) -> bool {
        self.player is Some && self.boat is Some
    }

    /// Whether the player stands inside an ocean.
    pub open spec fn at_sea(self) -> bool {
        self.player matches Some(h) && in_ocean(h.position.x as int, self.oceans)
    }

    /// What the state machine is asked to react to when `event` is
    /// delivered.
    pub open spec fn trigger_for(self, event: Event) -> Trigger {
        match event {
            Event::Action => Trigger::Action { in_ocean: self.at_sea() },
            Event::EndAction => Trigger::EndAction { in_ocean: self.at_sea() },
            Event::Hook => Trigger::Hook,
            Event::Catch => Trigger::Catch,
            Event::Hit => Trigger::Hit,
            Event::Sell => Trigger::Sell,
            Event::SwitchSprite(_) => Trigger::SwitchSprite,
        }
    }

    /// The world with `event` noted as delivered.
    pub open spec fn logged(self, event: Event) -> WorldView {
        WorldView { events: self.events.push(event), ..self }
    }

    /// The world after the player has got into `state`: the player shows
    /// the sprite of that state from its start, which is announced by a
    /// SwitchSprite, and the boat is handed over or left at the dock.
    pub open spec fn entering(self, state: PlayerState) -> WorldView {
        match (self.player, self.boat) {
            (Some(h), Some(b)) => WorldView {
                player: Some(h.entered(state)),
                boat: Some(moored(state, b)),
                events: self.events.push(Event::SwitchSprite(sprite_index(state))),
                ..self
            },
            _ => self,
        }
    }

    /// The world after the state machine has reacted to `trigger`. With a
    /// row for it in the table the player gets into the next state, even
    /// if that is the state it is in already. Without one, or while the
    /// player or the boat is missing, nothing changes.
    pub open spec fn reacting(self, trigger: Trigger) -> WorldView {
        match self.player {
            Some(h) => if self.manned() && in_table(h.state, trigger) {
                self.entering(next_state(h.state, trigger))
            } else {
                self
            },
            None => self,
        }
    }

    /// The world after a catch decided by `draw`.
    pub open spec fn catching(self, draw: CatchDraw) -> WorldView {
        match self.player {
            Some(h) => WorldView {
                player: Some(HeroView { player: h.player.caught(draw.kind(), draw.weight), ..h }),
                ..self
            },
            None => self,
        }
    }

    /// The world after one Sell has been raised and handled.
    pub open spec fn sale(self) -> WorldView {
        let noted = self.logged(Event::Sell);
        match self.player {
            Some(h) => WorldView { player: Some(HeroView { player: h.player.sold(), ..h }), ..noted },
            None => noted,
        }
    }

    /// The world after `n` Sells have been raised and handled in turn.
    pub open spec fn sales(self, n: nat) -> WorldView
        decreases n,
    {
        if n == 0 {
            self
        } else {
            self.sale().sales((n - 1) as nat)
        }
    }

    /// The world after a strike has landed: every building that buys is
    /// served with one Sell.
    pub open spec fn hitting(self) -> WorldView {
        match self.player {
            Some(h) => self.sales(buyer_count(h.position.x as int, self.buildings, self.policy)),
            None => self,
        }
    }

    /// The world after the player was told to show sprite `index`. The
    /// sprite of the current state starts over; any other index is
    /// ignored, since the sprite shown always is the one of the state.
    pub open spec fn reselecting(self, index: usize) -> WorldView {
        match self.player {
            Some(h) => if index == h.active.index && index < h.sprites.len() {
                WorldView {
                    player: Some(
                        HeroView {
                            playback: Playback::started(
                                h.sprites[index as int],
                                flipped(Some(h.direction)),
                            ),
                            ..h
                        },
                    ),
                    ..self
                }
            } else {
                self
            },
            None => self,
        }
    }

    /// The world after `event` has been raised and its whole cascade has
    /// been handled; `draw` decides a catch.
    pub open spec fn delivered(self, event: Event, draw: CatchDraw) -> WorldView {
        let noted = self.logged(event);
        match event {
            Event::Action | Event::EndAction | Event::Hook => noted.reacting(self.trigger_for(event)),
            Event::Catch => noted.catching(draw),
            Event::Hit => noted.hitting(),
            Event::Sell => self.sale(),
            Event::SwitchSprite(index) => noted.reselecting(index),
        }
    }
}

impl World {
    /// Lets the player get into `state`.
    pub(crate) fn enter(&mut self, state: PlayerState)
        requires
            old(self)@.wf(),
        ensures
            final(self)@ == old(self)@.entering(state),
            final(self)@.wf(),
    {
        match &mut self.player {
            Some(hero) => match &mut self.boat {
                Some(boat) => {
                    hero.state = state;
                    changed_player_state(&state, &mut hero.active, &mut hero.position, boat);
                    self.events.push(Event::SwitchSprite(hero.active.index));
                    changed_active_sprite(
                        &hero.active,
                        &hero.sprites,
                        Some(hero.direction),
                        &mut hero.playback,
                    );
                },
                None => {},
            },
            None => {},
        }
    }

    /// Lets the state machine react to `trigger`.
    pub(crate) fn react(&mut self, trigger: Trigger)
        requires
            old(self)@.wf(),
        ensures
            final(self)@ == old(self)@.reacting(trigger),
            final(self)@.wf(),
    {
        let next = match &self.player {
            Some(hero) => {
                if self.boat.is_some() && has_row(hero.state, trigger) {
                    Some(transition(hero.state, trigger).0)
                } else {
                    None
                }
            },
            None => None,
        };
        if let Some(state) = next {
            self.enter(state);
        }
    }
    /// Whether the player stands inside an ocean.
    pub fn is_at_sea(&self) -> (r: bool)
        ensures
            r == self@.at_sea(),
    {
        match &self.player {
            Some(hero) => in_any_ocean(hero.position.x, &self.oceans),
            None => false,
        }
    }

    /// Raises one Sell and handles it.
    fn sell(&mut self)
        requires
            old(self)@.wf(),
        ensures
            final(self)@ == old(self)@.sale(),
            final(self)@.wf(),
    {
        self.events.push(Event::Sell);
        match &mut self.player {
            Some(hero) => {
                on_sell(&mut hero.player);
            },
            None => {},
        }
    }

    /// Handles a Hit: asks which buildings buy, and raises a Sell for
    /// each of them.
    fn hit(&mut self)
        requires
            old(self)@.wf(),
        ensures
            final(self)@ == old(self)@.hitting(),
            final(self)@.wf(),
    {
        let buyers = match &self.player {
            Some(hero) => on_hit(hero.position.x, &self.buildings, self.policy),
            None => Vec::new(),
        };
        let mut i: usize = 0;
        while i < buyers.len()
            invariant
                i <= buyers.len(),
                self@.wf(),
                self@.sales((buyers.len() - i) as nat) == old(self)@.sales(buyers.len() as nat),
            decreases buyers.len() - i,
        {
            self.sell();
            i += 1;
        }
    }

    /// Handles a SwitchSprite.
    fn reselect(&mut self, index: usize)
        requires
            old(self)@.wf(),
        ensures
            final(self)@ == old(self)@.reselecting(index),
            final(self)@.wf(),
    {
        match &mut self.player {
            Some(hero) => {
                if index == hero.active.index && index < hero.sprites.animations.len() {
                    changed_active_sprite(
                        &hero.active,
                        &hero.sprites,
                        Some(hero.direction),
                        &mut hero.playback,
                    );
                }
            },
            None => {},
        }
    }

    /// Raises `event` and handles its whole cascade; `draw` decides a
    /// catch, and is not looked at for any other event.
    pub fn raise_with(&mut self, event: Event, draw: CatchDraw)
        requires
            old(self)@.wf(),
        ensures
            final(self)@ == old(self)@.delivered(event, draw),
            final(self)@.wf(),
    {
        match event {
            Event::Action => {
                let in_ocean = self.is_at_sea();
                self.events.push(event);
                self.react(Trigger::Action { in_ocean });
            },
            Event::EndAction => {
                let in_ocean = self.is_at_sea();
                self.events.push(event);
                self.react(Trigger::EndAction { in_ocean });
            },
            Event::Hook => {
                self.events.push(event);
                self.react(Trigger::Hook);
            },
            Event::Catch => {
                self.events.push(event);
                match &mut self.player {
                    Some(hero) => {
                        take_catch(&mut hero.player, catch_outcome(draw.chance), draw.weight);
                    },
                    None => {},
                }
            },
            Event::Hit => {
                self.events.push(event);
                self.hit();
            },
            Event::Sell => {
                self.sell();
            },
            Event::SwitchSprite(index) => {
                self.events.push(event);
                self.reselect(index);
            },
        }
    }

    /// Raises `event` and handles its whole cascade. A Catch is decided by
    /// two numbers drawn at random.
    pub fn raise(&mut self, event: Event)
        requires
            old(self)@.wf(),
        ensures
            exists|draw: CatchDraw| #[trigger]
                draw.valid() && final(self)@ == old(self)@.delivered(event, draw),
            final(self)@.wf(),
    {
        let draw = match event {
            Event::Catch => draw_catch(),
            _ => CatchDraw { chance: 0, weight: K_WEIGHT_MIN },
        };
        self.raise_with(event, draw);
        assert(draw.valid() && self@ == old(self)@.delivered(event, draw));
    }
}

/// The draw decides a catch and nothing else: any event but a Catch is
/// delivered in the same way whatever the draw.
pub proof fn lemma_draw_decides_catch_only(w: WorldView, event: Event, a: CatchDraw, b: CatchDraw)
    requires
        event != Event::Catch,
    ensures
        w.delivered(event, a) == w.delivered(event, b),
{
}

} // verus!
