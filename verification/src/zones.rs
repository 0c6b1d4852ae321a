//! The zone detector: where the player stands relative to land, ocean and
//! buildings.

use vstd::prelude::*;
use crate::components::{Building, Land, Ocean};

verus! {

/// Whether `x` lies in the open interval of half-width `half` around
/// `center`, that is, whether the distance between `x` and `center` is
/// less than `half`.
pub open spec fn within(x: int, center: int, half: int) -> bool {
    -half < x - center < half
}

/// The distance between two points on the x axis.
pub open spec fn distance(x: int, center: int) -> int {
    if x >= center {
        x - center
    } else {
        center - x
    }
}

/// Whether `x` lies in the open interval of half-width `half` around `center`.
pub fn in_range(x: i64, center: i64, half: u64) -> (r: bool)
    ensures
        r == within(x as int, center as int, half as int),
        r == (distance(x as int, center as int) < half),
{
    let offset: i128 = x as i128 - center as i128;
    let reach: i128 = half as i128;
    -reach < offset && offset < reach
}

impl Ocean {
    /// Whether the point `x` belongs to this ocean.
    pub open spec fn covers(self, x: int) -> bool {
        within(x, self.x as int, self.half_width as int)
    }

    /// Whether the point `x` belongs to this ocean.
    pub fn contains(&self, x: i64) -> (r: bool)
        ensures
            r == self.covers(x as int),
    {
        in_range(x, self.x, self.half_width)
    }
}

impl Land {
    /// Whether the point `x` belongs to this land.
    pub open spec fn covers(self, x: int) -> bool {
        within(x, self.x as int, self.half_width as int)
    }

    /// Whether the point `x` belongs to this land.
    pub fn contains(&self, x: i64) -> (r: bool)
        ensures
            r == self.covers(x as int),
    {
        in_range(x, self.x, self.half_width)
    }
}

impl Building {
    /// Whether an action at the point `x` reaches this building.
    pub open spec fn reaches(self, x: int) -> bool {
        within(x, self.x as int, self.action.range as int)
    }

    /// Whether an action at the point `x` reaches this building.
    pub fn in_reach(&self, x: i64) -> (r: bool)
        ensures
            r == self.reaches(x as int),
    {
        in_range(x, self.x, self.action.range)
    }
}

/// Whether `x` belongs to one of the oceans.
pub open spec fn in_ocean(x: int, oceans: Seq<Ocean>) -> bool {
    exists|i: int| 0 <= i < oceans.len() && #[trigger] oceans[i].covers(x)
}

/// Whether `x` belongs to one of the lands.
pub open spec fn in_land(x: int, lands: Seq<Land>) -> bool {
    exists|i: int| 0 <= i < lands.len() && #[trigger] lands[i].covers(x)
}

/// Whether `x` belongs to one of the oceans.
pub fn in_any_ocean(x: i64, oceans: &Vec<Ocean>) -> (r: bool)
    ensures
        r == in_ocean(x as int, oceans@),
{
    let mut i: usize = 0;
    while i < oceans.len()
        invariant
            i <= oceans.len(),
            forall|j: int| 0 <= j < i ==> !(#[trigger] oceans@[j]).covers(x as int),
        decreases oceans.len() - i,
    {
        if oceans[i].contains(x) {
            return true;
        }
        i += 1;
    }
    false
}

/// Whether `x` belongs to one of the lands.
pub fn in_any_land(x: i64, lands: &Vec<Land>) -> (r: bool)
    ensures
        r == in_land(x as int, lands@),
{
    let mut i: usize = 0;
    while i < lands.len()
        invariant
            i <= lands.len(),
            forall|j: int| 0 <= j < i ==> !(#[trigger] lands@[j]).covers(x as int),
        decreases lands.len() - i,
    {
        if lands[i].contains(x) {
            return true;
        }
        i += 1;
    }
    false
}

/// What the detector saw of the player's position when it last looked.
#[derive(Debug, Clone, Copy, PartialEq, Eq, Structural)]
pub struct ZoneDetector {
    pub in_ocean: bool,
    pub in_land: bool,
}

/// The zones that the player has entered since the detector last looked.
#[derive(Debug, Clone, Copy, PartialEq, Eq, Structural)]
pub struct ZoneCrossing {
    pub entered_ocean: bool,
    pub entered_land: bool,
}

impl ZoneDetector {
    /// What the detector records for a player at `x`.
    pub open spec fn at(x: int, oceans: Seq<Ocean>, lands: Seq<Land>) -> ZoneDetector {
        ZoneDetector { in_ocean: in_ocean(x, oceans), in_land: in_land(x, lands) }
    }

    /// The zones that a player is in now and was not in before.
    pub open spec fn crossing(self, now: ZoneDetector) -> ZoneCrossing {
        ZoneCrossing {
            entered_ocean: now.in_ocean && !self.in_ocean,
            entered_land: now.in_land && !self.in_land,
        }
    }

    /// A detector that has not seen the player in any zone yet.
    pub fn new() -> (d: ZoneDetector)
        ensures
            d == (ZoneDetector { in_ocean: false, in_land: false }),
    {
        ZoneDetector { in_ocean: false, in_land: false }
    }

    /// Looks at the player's position. A zone is reported as entered only
    /// when the player is in it now and was not when the detector last
    /// looked; the detector then remembers what it saw.
    pub fn observe(&mut self, x: i64, oceans: &Vec<Ocean>, lands: &Vec<Land>) -> (c: ZoneCrossing)
        ensures
            *final(self) == Self::at(x as int, oceans@, lands@),
            c == old(self).crossing(*final(self)),
    {
        let now = ZoneDetector { in_ocean: in_any_ocean(x, oceans), in_land: in_any_land(x, lands) };
        let crossing = ZoneCrossing {
            entered_ocean: now.in_ocean && !self.in_ocean,
            entered_land: now.in_land && !self.in_land,
        };
        *self = now;
        crossing
    }
}

/// Whether some point belongs to both the land and the ocean.
pub open spec fn overlapping(land: Land, ocean: Ocean) -> bool {
    exists|x: int| #[trigger] land.covers(x) && ocean.covers(x)
}

/// No point belongs to a land and to an ocean at once.
pub open spec fn zones_disjoint(lands: Seq<Land>, oceans: Seq<Ocean>) -> bool {
    forall|i: int, j: int|
        0 <= i < lands.len() && 0 <= j < oceans.len() ==> !overlapping(
            #[trigger] lands[i],
            #[trigger] oceans[j],
        )
}

/// Whether some point belongs to both the land and the ocean.
pub fn overlap(land: &Land, ocean: &Ocean) -> (r: bool)
    ensures
        r == overlapping(*land, *ocean),
{
    let land_low: i128 = land.x as i128 - land.half_width as i128;
    let land_high: i128 = land.x as i128 + land.half_width as i128;
    let ocean_low: i128 = ocean.x as i128 - ocean.half_width as i128;
    let ocean_high: i128 = ocean.x as i128 + ocean.half_width as i128;
    let low: i128 = if land_low > ocean_low {
        land_low
    } else {
        ocean_low
    };
    let high: i128 = if land_high < ocean_high {
        land_high
    } else {
        ocean_high
    };
    let r = low + 1 < high;
    proof {
        if r {
            assert(land.covers(low + 1) && ocean.covers(low + 1));
        } else {
            assert forall|x: int| !(#[trigger] land.covers(x) && ocean.covers(x)) by {
                if land.covers(x) && ocean.covers(x) {
                    assert(low < x < high);
                }
            }
        }
    }
    r
}

/// Whether the lands and oceans keep clear of one another.
pub fn check_zones(lands: &Vec<Land>, oceans: &Vec<Ocean>) -> (r: bool)
    ensures
        r == zones_disjoint(lands@, oceans@),
{
    let mut i: usize = 0;
    while i < lands.len()
        invariant
            i <= lands.len(),
            forall|a: int, b: int|
                0 <= a < i && 0 <= b < oceans.len() ==> !overlapping(
                    #[trigger] lands@[a],
                    #[trigger] oceans@[b],
                ),
        decreases lands.len() - i,
    {
        let mut j: usize = 0;
        while j < oceans.len()
            invariant
                i < lands.len(),
                j <= oceans.len(),
                forall|a: int, b: int|
                    0 <= a < i && 0 <= b < oceans.len() ==> !overlapping(
                        #[trigger] lands@[a],
                        #[trigger] oceans@[b],
                    ),
                forall|b: int| 0 <= b < j ==> !overlapping(lands@[i as int], #[trigger] oceans@[b]),
            decreases oceans.len() - j,
        {
            if overlap(&lands[i], &oceans[j]) {
                return false;
            }
            j += 1;
        }
        i += 1;
    }
    true
}

} // verus!
