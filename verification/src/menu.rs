//! What the inventory menu shows.

use vstd::prelude::*;
use crate::components::Player;
use crate::items::{Item, Value, Weight};

verus! {

/// One line of the menu: an item by name and weight.
#[derive(Debug, Clone, PartialEq, Eq)]
pub struct MenuLine {
    pub name: String,
    /// In thousandths of a weight unit.
    pub weight: u32,
}

/// The mathematical content of a `MenuLine`.
pub struct MenuLineView {
    pub name: Seq<char>,
    pub weight: nat,
}

impl View for MenuLine {
    type V = MenuLineView;

    open spec fn view(&self) -> MenuLineView {
        MenuLineView { name: self.name@, weight: self.weight as nat }
    }
}

/// The menu: the player's money, and a line for each item in the order
/// in which the items were caught.
#[derive(Debug, Clone, PartialEq, Eq)]
pub struct PlayerMenu {
    /// In thousandths of a coin.
    pub money: u64,
    pub lines: Vec<MenuLine>,
}

/// The line that the menu shows for `item`.
pub open spec fn line_of(item: Item) -> MenuLineView {
    MenuLineView { name: item.name_spec(), weight: item.weight_spec() }
}

/// Lists what the menu shows for `player`.
pub fn enter_player_menu(player: &Player) -> (menu: PlayerMenu)
    ensures
        menu.money == player.money,
        menu.lines@.len() == player@.items.len(),
        forall|i: int| 0 <= i < menu.lines@.len() ==> (#[trigger] menu.lines@[i])@ == line_of(player@.items[i]),
{
    let mut lines: Vec<MenuLine> = Vec::new();
    let mut i: usize = 0;
    while i < player.items.len()
        invariant
            i <= player.items.len(),
            lines@.len() == i,
            forall|j: int| 0 <= j < i ==> (#[trigger] lines@[j])@ == line_of(player@.items[j]),
        decreases player.items.len() - i,
    {
        let item = player.items[i];
        lines.push(MenuLine { name: item.name(), weight: item.weight() });
        i += 1;
    }
    PlayerMenu { money: player.money, lines }
}

} // verus!
