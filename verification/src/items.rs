//! Items that the player can carry and sell.

use vstd::prelude::*;

verus! {

/// Something that has a weight, in thousandths of a weight unit.
pub trait Weight {
    spec fn weight_spec(&self) -> nat;

    fn weight(&self) -> (w: u32)
        ensures
            w == self.weight_spec(),
    ;
}

/// Something that has a name and a price.
pub trait Value {
    spec fn name_spec(&self) -> Seq<char>;

    spec fn value_spec(&self) -> nat;

    fn name(&self) -> (n: String)
        ensures
            n@ == self.name_spec(),
    ;

    fn value(&self) -> (v: u64)
        ensures
            v == self.value_spec(),
    ;
}

/// The kinds of fish that can be caught.
#[derive(Debug, Clone, Copy, PartialEq, Eq, Structural)]
pub enum FishType {
    Silver,
    Golden,
}

/// A caught fish.
#[derive(Debug, Clone, Copy, PartialEq, Eq, Structural)]
pub struct Fish {
    pub t: FishType,
    /// In thousandths of a weight unit.
    pub weight: u32,
}

/// Anything that can sit in the player's inventory.
#[derive(Debug, Clone, Copy, PartialEq, Eq, Structural)]
pub enum Item {
    Fish(Fish),
}

/// The value of a fish type is its price in coins per unit of weight.
impl Value for FishType {
    open spec fn name_spec(&self) -> Seq<char> {
        match self {
            FishType::Silver => "Silver"@,
            FishType::Golden => "Golden"@,
        }
    }

    open spec fn value_spec(&self) -> nat {
        match self {
            FishType::Silver => 1,
            FishType::Golden => 100,
        }
    }

    fn name(&self) -> (n: String) {
        match self {
            FishType::Silver => "Silver".to_owned(),
            FishType::Golden => "Golden".to_owned(),
        }
    }

    fn value(&self) -> (v: u64) {
        match self {
            FishType::Silver => 1,
            FishType::Golden => 100,
        }
    }
}

/// The value of a fish is its weight times the price of its type, in
/// thousandths of a coin.
impl Value for Fish {
    open spec fn name_spec(&self) -> Seq<char> {
        "Fish - "@ + self.t.name_spec()
    }

    open spec fn value_spec(&self) -> nat {
        self.weight as nat * self.t.value_spec()
    }

    fn name(&self) -> (n: String) {
        proof {
            reveal_strlit("Fish - ");
            reveal_strlit("Silver");
            reveal_strlit("Golden");
            reveal_strlit("Fish - Silver");
            reveal_strlit("Fish - Golden");
        }
        match self.t {
            FishType::Silver => {
                let n = "Fish - Silver".to_owned();
                assert(n@ =~= "Fish - "@ + "Silver"@);
                n
            },
            FishType::Golden => {
                let n = "Fish - Golden".to_owned();
                assert(n@ =~= "Fish - "@ + "Golden"@);
                n
            },
        }
    }

    fn value(&self) -> (v: u64) {
        let weight: u64 = self.weight as u64;
        weight * self.t.value()
    }
}

impl Weight for Fish {
    open spec fn weight_spec(&self) -> nat {
        self.weight as nat
    }

    fn weight(&self) -> (w: u32) {
        self.weight
    }
}

impl Value for Item {
    open spec fn name_spec(&self) -> Seq<char> {
        match self {
            Item::Fish(fish) => fish.name_spec(),
        }
    }

    open spec fn value_spec(&self) -> nat {
        match self {
            Item::Fish(fish) => fish.value_spec(),
        }
    }

    fn name(&self) -> (n: String) {
        match self {
            Item::Fish(fish) => fish.name(),
        }
    }

    fn value(&self) -> (v: u64) {
        match self {
            Item::Fish(fish) => fish.value(),
        }
    }
}

impl Weight for Item {
    open spec fn weight_spec(&self) -> nat {
        match self {
            Item::Fish(fish) => fish.weight_spec(),
        }
    }

    fn weight(&self) -> (w: u32) {
        match self {
            Item::Fish(fish) => fish.weight,
        }
    }
}

} // verus!
