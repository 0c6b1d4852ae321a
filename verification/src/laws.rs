//! What holds of the simulation as a whole.

use vstd::prelude::*;
use vstd::set_lib::{lemma_int_range, set_int_range};
use crate::animation::{frame_at, Playback};
use crate::components::{AnimationConfig, Building, Land, Ocean, PlayerState};
use crate::economy::{buyer_count, catch_kind, reached, CatchDraw, K_CHANCE_SCALE};
use crate::events::Event;
use crate::input::{game_command, GameCommand, GameState, InputSnapshot};
use crate::items::FishType;
use crate::machine::{follow_up, in_table, next_state, sprite_index, walk_or_row, Trigger};
use crate::world::WorldView;
use crate::zones::{in_land, in_ocean, overlapping, zones_disjoint, ZoneDetector};

verus! {

/// The state machine makes no transition that the table does not hold: a
/// trigger without a row for the current state leaves the state as it is
/// and raises nothing.
pub proof fn lemma_no_accidental_transition(state: PlayerState, trigger: Trigger)
    requires
        !in_table(state, trigger),
    ensures
        next_state(state, trigger) == state,
        follow_up(state, trigger) is None,
{
}

/// An event without a row in the table for the player's state leaves the
/// player's state as it is when it is delivered, whatever else it does.
pub proof fn lemma_delivery_keeps_state(w: WorldView, event: Event, draw: CatchDraw)
    requires
        w.player is Some,
        !in_table(w.player->0.state, w.trigger_for(event)),
    ensures
        w.delivered(event, draw).player is Some,
        w.delivered(event, draw).player->0.state == w.player->0.state,
{
    if event == Event::Hit {
        let noted = w.logged(event);
        lemma_sales_keep_state(
            noted,
            buyer_count(noted.player->0.position.x as int, noted.buildings, noted.policy),
        );
    }
}

/// Sales change the purse and the inventory, and nothing else of the
/// player.
pub proof fn lemma_sales_keep_state(w: WorldView, n: nat)
    requires
        w.player is Some,
    ensures
        w.sales(n).player is Some,
        w.sales(n).player->0.state == w.player->0.state,
        w.sales(n).player->0.playback == w.player->0.playback,
        w.sales(n).player->0.position == w.player->0.position,
        w.sales(n).boat == w.boat,
        w.wf() ==> w.sales(n).wf(),
    decreases n,
{
    if n > 0 {
        lemma_sales_keep_state(w.sale(), (n - 1) as nat);
    }
}

/// The chances out of `0..K_CHANCE_SCALE` that bring up a catch of the
/// given kind, or none.
pub open spec fn chances_of(kind: Option<FishType>) -> Set<int> {
    Set::new(|c: int| 0 <= c < K_CHANCE_SCALE && catch_kind(c as u32) == kind)
}

/// Of the thousand chances that can be drawn, a hundred bring up a golden
/// fish, four hundred a silver one and five hundred nothing: a chance
/// drawn evenly catches gold one time in ten, silver four times in ten
/// and nothing every other time.
pub proof fn lemma_chances_split_one_four_five()
    ensures
        chances_of(Some(FishType::Golden)).finite(),
        chances_of(Some(FishType::Silver)).finite(),
        chances_of(None).finite(),
        chances_of(Some(FishType::Golden)).len() == 100,
        chances_of(Some(FishType::Silver)).len() == 400,
        chances_of(None).len() == 500,
{
    lemma_int_range(0, 100);
    lemma_int_range(100, 500);
    lemma_int_range(500, 1000);
    assert(chances_of(Some(FishType::Golden)) =~= set_int_range(0, 100));
    assert(chances_of(Some(FishType::Silver)) =~= set_int_range(100, 500));
    assert(chances_of(None) =~= set_int_range(500, 1000));
}

/// Sales are recorded one by one behind what was recorded before.
pub proof fn lemma_sales_are_recorded(w: WorldView, n: nat)
    ensures
        w.sales(n).events.len() == w.events.len() + n,
        w.events.is_prefix_of(w.sales(n).events),
        forall|i: int|
            w.events.len() <= i < w.events.len() + n ==> #[trigger] w.sales(n).events[i]
                == Event::Sell,
    decreases n,
{
    if n > 0 {
        lemma_sales_are_recorded(w.sale(), (n - 1) as nat);
        assert(w.sale().events == w.events.push(Event::Sell));
        assert forall|i: int| w.events.len() <= i < w.events.len() + n implies #[trigger] w.sales(
            n,
        ).events[i] == Event::Sell by {
            if i == w.events.len() {
                assert(w.sale().events.is_prefix_of(w.sales(n).events));
                assert(w.sale().events[i] == Event::Sell);
            }
        }
    }
}

/// No more buildings are reached than there are.
pub proof fn lemma_reached_is_bounded(x: int, buildings: Seq<Building>, n: int)
    requires
        0 <= n <= buildings.len(),
    ensures
        reached(x, buildings, n).len() <= n,
    decreases n,
{
    if n > 0 {
        lemma_reached_is_bounded(x, buildings, n - 1);
    }
}

/// No event is dropped, and no cascade runs on for ever: an event that is
/// raised is recorded behind what was recorded before, followed by what
/// its handler raised in turn, which is one event at most or one Sell
/// for each building.
pub proof fn lemma_delivery_is_recorded(w: WorldView, event: Event, draw: CatchDraw)
    ensures
        w.events.push(event).is_prefix_of(w.delivered(event, draw).events),
        w.delivered(event, draw).events.len() <= w.events.len() + 2 + w.buildings.len(),
{
    let noted = w.logged(event);
    if event == Event::Hit && noted.player is Some {
        let x = noted.player->0.position.x as int;
        lemma_sales_are_recorded(noted, buyer_count(x, noted.buildings, noted.policy));
        lemma_reached_is_bounded(x, noted.buildings, noted.buildings.len() as int);
    }
}

/// A second EndAction in a row gives the state that the first one gave.
pub proof fn lemma_end_action_idempotent(state: PlayerState, in_ocean: bool)
    ensures
        next_state(next_state(state, Trigger::EndAction { in_ocean }), Trigger::EndAction { in_ocean })
            == next_state(state, Trigger::EndAction { in_ocean }),
{
}

/// Raising EndAction twice in a row leaves the world as raising it once
/// does, but for the record of the events delivered.
pub proof fn lemma_end_action_twice(w: WorldView, a: CatchDraw, b: CatchDraw)
    requires
        w.wf(),
    ensures
        w.delivered(Event::EndAction, a).delivered(Event::EndAction, b) == (WorldView {
            events: w.delivered(Event::EndAction, a).delivered(Event::EndAction, b).events,
            ..w.delivered(Event::EndAction, a)
        }),
{
    let once = w.delivered(Event::EndAction, a);
    let twice = once.delivered(Event::EndAction, b);
    if w.manned() {
        let h = w.player->0;
        let state = next_state(h.state, Trigger::EndAction { in_ocean: w.at_sea() });
        assert(once.at_sea() == w.at_sea());
        assert(once.player->0 == h.entered(state));
        assert(twice.player->0 == h.entered(state).entered(state));
        assert(h.entered(state).entered(state) == h.entered(state));
    }
}

/// Where lands and oceans keep clear of one another, the player is in at
/// most one kind of zone at a time.
pub proof fn lemma_one_zone_at_a_time(x: int, lands: Seq<Land>, oceans: Seq<Ocean>)
    requires
        zones_disjoint(lands, oceans),
    ensures
        !(in_land(x, lands) && in_ocean(x, oceans)),
{
    if in_land(x, lands) && in_ocean(x, oceans) {
        let i = choose|i: int| 0 <= i < lands.len() && #[trigger] lands[i].covers(x);
        let j = choose|j: int| 0 <= j < oceans.len() && #[trigger] oceans[j].covers(x);
        assert(overlapping(lands[i], oceans[j]));
    }
}

/// The frame shown of a sequence belongs to the sequence, however much
/// time has passed.
pub proof fn lemma_frame_in_range(config: AnimationConfig, elapsed_ns: int)
    requires
        config.wf(),
        elapsed_ns >= 0,
    ensures
        config.first_index <= frame_at(config, elapsed_ns) <= config.last_index,
{
    assert((elapsed_ns / 1_000_000) / (config.ms as int) >= 0) by (nonlinear_arith)
        requires
            elapsed_ns >= 0,
            config.ms > 0,
    ;
}

/// A step of the animation controller shows a frame of the sequence.
pub proof fn lemma_animated_in_range(playback: Playback)
    requires
        playback.config.wf(),
    ensures
        playback.config.first_index <= playback.animated().frame <= playback.config.last_index,
        playback.animated().config == playback.config,
{
    lemma_frame_in_range(playback.config, playback.timer.elapsed_ns as int);
}

/// After every tick the player shows a frame of the sequence being
/// played, which is the one of the player's state.
pub proof fn lemma_tick_keeps_frame_in_range(
    w: WorldView,
    input: InputSnapshot,
    delta_ns: u64,
    draw: CatchDraw,
)
    requires
        w.wf(),
        w.player is Some,
    ensures
        w.ticked(input, delta_ns, draw).player matches Some(h) && {
            &&& h.playback.config.first_index <= h.playback.frame <= h.playback.config.last_index
            &&& h.playback.config == h.sprites[sprite_index(h.state) as int]
        },
{
    lemma_tick_keeps_wf(w, input, delta_ns, draw);
}

/// A tick keeps a well-formed world well formed, and neither makes nor
/// loses a player.
pub proof fn lemma_tick_keeps_wf(w: WorldView, input: InputSnapshot, delta_ns: u64, draw: CatchDraw)
    requires
        w.wf(),
    ensures
        w.ticked(input, delta_ns, draw).wf(),
        w.ticked(input, delta_ns, draw).player is Some <==> w.player is Some,
{
    let opened = w.opened();
    match w.mode {
        GameState::InPlayerMenu => {},
        GameState::InGame => {
            lemma_survey_keeps_wf(opened);
            let surveyed = opened.surveyed();
            match game_command(input) {
                GameCommand::Steer { velocity, act } => {
                    if act {
                        lemma_delivery_keeps_wf(surveyed.steered(velocity), Event::Action, draw);
                    }
                },
                _ => {},
            }
            lemma_rest_of_tick_keeps_wf(
                surveyed.commanded(input, draw),
                GameState::InGame,
                delta_ns,
                draw,
            );
        },
        GameState::InAction => {
            lemma_survey_keeps_wf(opened);
            let surveyed = opened.surveyed();
            lemma_delivery_keeps_wf(surveyed, Event::Hook, draw);
            let hooked = if input.secondary_released {
                surveyed.delivered(Event::Hook, draw)
            } else {
                surveyed
            };
            lemma_delivery_keeps_wf(hooked, Event::EndAction, draw);
            lemma_rest_of_tick_keeps_wf(
                surveyed.directed(input, draw),
                GameState::InAction,
                delta_ns,
                draw,
            );
        },
    }
}

/// A look of the zone detector keeps a well-formed world well formed,
/// and neither makes nor loses a player.
pub proof fn lemma_survey_keeps_wf(w: WorldView)
    requires
        w.wf(),
    ensures
        w.surveyed().wf(),
        w.surveyed().player is Some <==> w.player is Some,
{
    if w.player is Some {
        let h = w.player->0;
        let now = ZoneDetector::at(h.position.x as int, w.oceans, w.lands);
        lemma_entering_keeps_wf(
            WorldView { detector: now, ..w },
            walk_or_row(h.state, w.detector.crossing(now)),
        );
    }
}

/// Getting into a state keeps a well-formed world well formed.
pub proof fn lemma_entering_keeps_wf(w: WorldView, state: PlayerState)
    requires
        w.wf(),
    ensures
        w.entering(state).wf(),
        w.entering(state).player is Some <==> w.player is Some,
{
}

/// Delivering an event keeps a well-formed world well formed, and
/// neither makes nor loses a player.
pub proof fn lemma_delivery_keeps_wf(w: WorldView, event: Event, draw: CatchDraw)
    requires
        w.wf(),
    ensures
        w.delivered(event, draw).wf(),
        w.delivered(event, draw).player is Some <==> w.player is Some,
{
    let noted = w.logged(event);
    match event {
        Event::Action | Event::EndAction | Event::Hook => {
            if noted.player is Some {
                lemma_entering_keeps_wf(
                    noted,
                    next_state(noted.player->0.state, w.trigger_for(event)),
                );
            }
        },
        Event::Hit => {
            if noted.player is Some {
                lemma_sales_keep_state(
                    noted,
                    buyer_count(noted.player->0.position.x as int, noted.buildings, noted.policy),
                );
            }
        },
        _ => {},
    }
}

/// What follows the input in a tick keeps a well-formed world well
/// formed, and neither makes nor loses a player.
proof fn lemma_rest_of_tick_keeps_wf(w: WorldView, mode: GameState, delta_ns: u64, draw: CatchDraw)
    requires
        w.wf(),
    ensures
        w.travelled(delta_ns).animated(mode, delta_ns).concluded(draw).wf(),
        w.travelled(delta_ns).animated(mode, delta_ns).concluded(draw).player is Some
            <==> w.player is Some,
{
    let travelled = w.travelled(delta_ns);
    let animated = travelled.animated(mode, delta_ns);
    if travelled.player is Some {
        let clocked = travelled.player->0.clocked(mode, delta_ns);
        lemma_animated_in_range(clocked.playback);
    }
    assert(animated.wf());
    match animated.completion() {
        Some((event, state)) => {
            lemma_delivery_keeps_wf(animated, event, draw);
            lemma_entering_keeps_wf(animated.delivered(event, draw), state);
        },
        None => {},
    }
}

} // verus!
