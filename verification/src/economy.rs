//! The economy: what a catch brings up, which buildings buy, and what a
//! sale pays.

use vstd::prelude::*;
use crate::chance::draw;
use crate::components::{Building, Player, PlayerView};
use crate::items::{Fish, FishType, Item, Value};
use crate::zones::distance;

verus! {

/// A chance is drawn from `0..K_CHANCE_SCALE`.
pub const K_CHANCE_SCALE: u32 = 1_000;

/// Chances below this bring up a golden fish: one in ten.
pub const K_GOLDEN_BELOW: u32 = 100;

/// Chances below this, and not golden, bring up a silver fish: four in ten.
pub const K_SILVER_BELOW: u32 = 500;

/// The lightest fish, a tenth of a weight unit.
pub const K_WEIGHT_MIN: u32 = 100;

/// Every fish is lighter than this, twenty weight units.
pub const K_WEIGHT_END: u32 = 20_000;

/// The kind of fish that the chance `chance` brings up, if any.
pub open spec fn catch_kind(chance: u32) -> Option<FishType> {
    if chance < K_GOLDEN_BELOW {
        Some(FishType::Golden)
    } else if chance < K_SILVER_BELOW {
        Some(FishType::Silver)
    } else {
        None
    }
}

/// The kind of fish that the chance `chance` brings up, if any.
pub fn catch_outcome(chance: u32) -> (kind: Option<FishType>)
    ensures
        kind == catch_kind(chance),
{
    if chance < K_GOLDEN_BELOW {
        Some(FishType::Golden)
    } else if chance < K_SILVER_BELOW {
        Some(FishType::Silver)
    } else {
        None
    }
}

impl PlayerView {
    /// The player with `item` added on top of the inventory.
    pub open spec fn holding(self, item: Item) -> PlayerView {
        PlayerView { money: self.money, items: self.items.push(item) }
    }

    /// The player after a catch of the given kind and weight.
    pub open spec fn caught(self, kind: Option<FishType>, weight: u32) -> PlayerView {
        match kind {
            Some(t) => self.holding(Item::Fish(Fish { t, weight })),
            None => self,
        }
    }

    /// The money after `price` has been paid in. The purse holds no more
    /// than `u64::MAX`.
    pub open spec fn paid(self, price: nat) -> nat {
        if self.money + price > u64::MAX {
            u64::MAX as nat
        } else {
            self.money + price
        }
    }

    /// The player after one sale: the item caught last is gone and its
    /// value is paid in. With an empty inventory nothing happens.
    pub open spec fn sold(self) -> PlayerView {
        if self.items.len() == 0 {
            self
        } else {
            PlayerView { money: self.paid(self.items.last().value_spec()), items: self.items.drop_last() }
        }
    }

    /// The player after `n` sales in a row.
    pub open spec fn sold_times(self, n: nat) -> PlayerView
        decreases n,
    {
        if n == 0 {
            self
        } else {
            self.sold().sold_times((n - 1) as nat)
        }
    }
}

/// Puts what a catch brought up into the player's inventory.
pub fn take_catch(player: &mut Player, kind: Option<FishType>, weight: u32)
    ensures
        final(player)@ == old(player)@.caught(kind, weight),
{
    match kind {
        Some(t) => {
            player.items.push(Item::Fish(Fish { t, weight }));
        },
        None => {},
    }
}

/// The two numbers that decide a catch.
#[derive(Debug, Clone, Copy, PartialEq, Eq, Structural)]
pub struct CatchDraw {
    /// Decides whether a fish comes up, and of which kind.
    pub chance: u32,
    /// The weight of the fish, if one comes up.
    pub weight: u32,
}

impl CatchDraw {
    /// Both numbers lie in the range that they are drawn from.
    pub open spec fn valid(self) -> bool {
        &&& self.chance < K_CHANCE_SCALE
        &&& K_WEIGHT_MIN <= self.weight < K_WEIGHT_END
    }

    /// The kind of fish that comes up, if any.
    pub open spec fn kind(self) -> Option<FishType> {
        catch_kind(self.chance)
    }
}

/// Draws the numbers that decide a catch: a chance, and a weight if the
/// chance brings up a fish. Without a fish the weight is not drawn and
/// is given as the least one.
pub fn draw_catch() -> (d: CatchDraw)
    ensures
        d.valid(),
{
    let chance = draw(0, K_CHANCE_SCALE);
    let weight = match catch_outcome(chance) {
        Some(_) => draw(K_WEIGHT_MIN, K_WEIGHT_END),
        None => K_WEIGHT_MIN,
    };
    CatchDraw { chance, weight }
}

/// Handles a Catch event: draws a chance, and for a chance that brings up
/// a fish draws its weight and puts the fish into the inventory.
pub fn on_catch(player: &mut Player)
    ensures
        exists|d: CatchDraw| #[trigger] d.valid() && final(player)@ == old(player)@.caught(d.kind(), d.weight),
{
    let d = draw_catch();
    take_catch(player, catch_outcome(d.chance), d.weight);
}

/// Handles a Sell event: the item caught last leaves the inventory and
/// its value is added to the money. Returns the item sold, if there was
/// one.
pub fn on_sell(player: &mut Player) -> (item: Option<Item>)
    ensures
        final(player)@ == old(player)@.sold(),
        item == if old(player)@.items.len() == 0 {
            None
        } else {
            Some(old(player)@.items.last())
        },
{
    let item = player.items.pop();
    if let Some(item) = item {
        player.money = player.money.saturating_add(item.value());
        assert(player@.items =~= old(player)@.items.drop_last());
    }
    item
}

/// Which of the buildings in reach buy when a strike lands.
#[derive(Debug, Clone, Copy, PartialEq, Eq, Structural)]
pub enum SellPolicy {
    /// Every building in reach buys one item, in the order of the list.
    EveryInRange,
    /// The first building in reach buys one item.
    FirstInRange,
    /// The building in reach that is nearest to the player buys one item;
    /// of several equally near, the first.
    Nearest,
}

/// The buildings among the first `n` that an action at `x` reaches, in
/// the order of the list.
pub open spec fn reached(x: int, buildings: Seq<Building>, n: int) -> Seq<usize>
    decreases n,
{
    if n <= 0 {
        Seq::empty()
    } else if buildings[n - 1].reaches(x) {
        reached(x, buildings, n - 1).push((n - 1) as usize)
    } else {
        reached(x, buildings, n - 1)
    }
}

/// Whether building `i` is the first that an action at `x` reaches.
pub open spec fn is_first(x: int, buildings: Seq<Building>, i: int) -> bool {
    &&& 0 <= i < buildings.len()
    &&& buildings[i].reaches(x)
    &&& forall|j: int| 0 <= j < i ==> !(#[trigger] buildings[j]).reaches(x)
}

/// Whether building `i` is the nearest that an action at `x` reaches, and
/// the first of those equally near.
pub open spec fn is_nearest(x: int, buildings: Seq<Building>, i: int) -> bool {
    &&& 0 <= i < buildings.len()
    &&& buildings[i].reaches(x)
    &&& forall|j: int|
        0 <= j < buildings.len() && (#[trigger] buildings[j]).reaches(x) ==> {
            ||| distance(x, buildings[i].x as int) < distance(x, buildings[j].x as int)
            ||| distance(x, buildings[i].x as int) == distance(x, buildings[j].x as int) && i <= j
        }
}

/// Whether an action at `x` reaches none of the buildings.
pub open spec fn none_reached(x: int, buildings: Seq<Building>) -> bool {
    forall|j: int| 0 <= j < buildings.len() ==> !(#[trigger] buildings[j]).reaches(x)
}

/// How many buildings buy under `policy` when a strike lands at `x`.
pub open spec fn buyer_count(x: int, buildings: Seq<Building>, policy: SellPolicy) -> nat {
    match policy {
        SellPolicy::EveryInRange => reached(x, buildings, buildings.len() as int).len(),
        _ => if none_reached(x, buildings) {
            0
        } else {
            1
        },
    }
}

/// Whether `buyers` are the buildings that buy under `policy` when a
/// strike lands at `x`.
pub open spec fn buys(x: int, buildings: Seq<Building>, policy: SellPolicy, buyers: Seq<usize>) -> bool {
    match policy {
        SellPolicy::EveryInRange => buyers == reached(x, buildings, buildings.len() as int),
        SellPolicy::FirstInRange => if none_reached(x, buildings) {
            buyers.len() == 0
        } else {
            buyers.len() == 1 && is_first(x, buildings, buyers[0] as int)
        },
        SellPolicy::Nearest => if none_reached(x, buildings) {
            buyers.len() == 0
        } else {
            buyers.len() == 1 && is_nearest(x, buildings, buyers[0] as int)
        },
    }
}

/// The distance between two points on the x axis.
pub fn gap(x: i64, center: i64) -> (d: u64)
    ensures
        d == distance(x as int, center as int),
{
    if x >= center {
        (x as i128 - center as i128) as u64
    } else {
        (center as i128 - x as i128) as u64
    }
}

/// The buildings that an action at `x` reaches, in the order of the list.
pub fn buildings_in_reach(x: i64, buildings: &Vec<Building>) -> (found: Vec<usize>)
    ensures
        found@ == reached(x as int, buildings@, buildings@.len() as int),
{
    let mut found: Vec<usize> = Vec::new();
    let mut i: usize = 0;
    while i < buildings.len()
        invariant
            i <= buildings.len(),
            found@ == reached(x as int, buildings@, i as int),
        decreases buildings.len() - i,
    {
        if buildings[i].in_reach(x) {
            found.push(i);
        }
        i += 1;
    }
    found
}

/// The first building that an action at `x` reaches.
pub fn first_in_reach(x: i64, buildings: &Vec<Building>) -> (found: Option<usize>)
    ensures
        found is None <==> none_reached(x as int, buildings@),
        found matches Some(i) ==> is_first(x as int, buildings@, i as int),
{
    let mut i: usize = 0;
    while i < buildings.len()
        invariant
            i <= buildings.len(),
            forall|j: int| 0 <= j < i ==> !(#[trigger] buildings@[j]).reaches(x as int),
        decreases buildings.len() - i,
    {
        if buildings[i].in_reach(x) {
            return Some(i);
        }
        i += 1;
    }
    None
}

/// The nearest building that an action at `x` reaches; of several equally
/// near, the first.
pub fn nearest_in_reach(x: i64, buildings: &Vec<Building>) -> (found: Option<usize>)
    ensures
        found is None <==> none_reached(x as int, buildings@),
        found matches Some(i) ==> is_nearest(x as int, buildings@, i as int),
{
    let mut best: Option<usize> = None;
    let mut i: usize = 0;
    while i < buildings.len()
        invariant
            i <= buildings.len(),
            best is None ==> forall|j: int|
                0 <= j < i ==> !(#[trigger] buildings@[j]).reaches(x as int),
            best matches Some(b) ==> {
                &&& b < i
                &&& buildings@[b as int].reaches(x as int)
                &&& forall|j: int|
                    0 <= j < i && (#[trigger] buildings@[j]).reaches(x as int) ==> {
                        ||| distance(x as int, buildings@[b as int].x as int) < distance(
                            x as int,
                            buildings@[j].x as int,
                        )
                        ||| distance(x as int, buildings@[b as int].x as int) == distance(
                            x as int,
                            buildings@[j].x as int,
                        ) && b <= j
                    }
            },
        decreases buildings.len() - i,
    {
        if buildings[i].in_reach(x) {
            match best {
                Some(b) => {
                    if gap(x, buildings[i].x) < gap(x, buildings[b].x) {
                        best = Some(i);
                    }
                },
                None => {
                    best = Some(i);
                },
            }
        }
        i += 1;
    }
    best
}

/// Handles a Hit event for a player at `x`: returns the buildings that
/// buy under `policy`; each of them is to be served with one Sell.
pub fn on_hit(x: i64, buildings: &Vec<Building>, policy: SellPolicy) -> (buyers: Vec<usize>)
    ensures
        buys(x as int, buildings@, policy, buyers@),
        buyers@.len() == buyer_count(x as int, buildings@, policy),
{
    match policy {
        SellPolicy::EveryInRange => buildings_in_reach(x, buildings),
        SellPolicy::FirstInRange => {
            let mut buyers: Vec<usize> = Vec::new();
            if let Some(i) = first_in_reach(x, buildings) {
                buyers.push(i);
            }
            buyers
        },
        SellPolicy::Nearest => {
            let mut buyers: Vec<usize> = Vec::new();
            if let Some(i) = nearest_in_reach(x, buildings) {
                buyers.push(i);
            }
            buyers
        },
    }
}

} // verus!
