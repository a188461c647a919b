//! Stocks of the five building materials.

use crate::chance::random_index;
use vstd::prelude::*;

verus! {

/// Amount of each material that a resource-producing tile yields in one tick.
pub const MATERIAL_YIELD: i64 = 5;

/// A stock of the five materials. Amounts may go negative only through the arithmetic that
/// callers perform on the public fields.
#[derive(Clone, Copy, Debug, PartialEq, Eq, Structural)]
pub struct Materials {
    pub clay: i64,
    pub grain: i64,
    pub iron: i64,
    pub stone: i64,
    pub wood: i64,
}

/// A stock with the same amount of every material.
pub open spec fn uniform_materials(n: i64) -> Materials {
    Materials { clay: n, grain: n, iron: n, stone: n, wood: n }
}

/// What one tile yields when the material at position `index` of `get_material_keys`
/// (clay, grain, iron, stone, wood) is drawn: `MATERIAL_YIELD` of it and nothing else.
pub open spec fn yield_of(index: int) -> Materials {
    Materials {
        clay: if index == 0 { MATERIAL_YIELD } else { 0 },
        grain: if index == 1 { MATERIAL_YIELD } else { 0 },
        iron: if index == 2 { MATERIAL_YIELD } else { 0 },
        stone: if index == 3 { MATERIAL_YIELD } else { 0 },
        wood: if index == 4 { MATERIAL_YIELD } else { 0 },
    }
}

/// Field-wise sum of two stocks, as integers.
pub open spec fn sum_fits(a: Materials, b: Materials) -> bool {
    &&& i64::MIN <= a.clay + b.clay <= i64::MAX
    &&& i64::MIN <= a.grain + b.grain <= i64::MAX
    &&& i64::MIN <= a.iron + b.iron <= i64::MAX
    &&& i64::MIN <= a.stone + b.stone <= i64::MAX
    &&& i64::MIN <= a.wood + b.wood <= i64::MAX
}

/// Field-wise sum of two stocks (meaningful where `sum_fits` holds).
pub open spec fn sum_of(a: Materials, b: Materials) -> Materials {
    Materials {
        clay: (a.clay + b.clay) as i64,
        grain: (a.grain + b.grain) as i64,
        iron: (a.iron + b.iron) as i64,
        stone: (a.stone + b.stone) as i64,
        wood: (a.wood + b.wood) as i64,
    }
}

/// Field-wise difference `a - b` fits in `i64`.
pub open spec fn difference_fits(a: Materials, b: Materials) -> bool {
    &&& i64::MIN <= a.clay - b.clay <= i64::MAX
    &&& i64::MIN <= a.grain - b.grain <= i64::MAX
    &&& i64::MIN <= a.iron - b.iron <= i64::MAX
    &&& i64::MIN <= a.stone - b.stone <= i64::MAX
    &&& i64::MIN <= a.wood - b.wood <= i64::MAX
}

/// Field-wise difference `a - b` (meaningful where `difference_fits` holds).
pub open spec fn difference_of(a: Materials, b: Materials) -> Materials {
    Materials {
        clay: (a.clay - b.clay) as i64,
        grain: (a.grain - b.grain) as i64,
        iron: (a.iron - b.iron) as i64,
        stone: (a.stone - b.stone) as i64,
        wood: (a.wood - b.wood) as i64,
    }
}

/// Every amount of `have` is at least the matching amount of `need`.
pub open spec fn covers(have: Materials, need: Materials) -> bool {
    &&& have.clay >= need.clay
    &&& have.grain >= need.grain
    &&& have.iron >= need.iron
    &&& have.stone >= need.stone
    &&& have.wood >= need.wood
}

/// The total of all five amounts.
pub open spec fn total(m: Materials) -> int {
    m.clay + m.grain + m.iron + m.stone + m.wood
}

impl Materials {
    /// The market's opening stock: 100 of each material.
    pub fn init_market() -> (m: Materials)
        ensures
            m == uniform_materials(100),
    {
        Materials { clay: 100, grain: 100, iron: 100, stone: 100, wood: 100 }
    }

    /// A player's opening stock: 50 of each material.
    pub fn init_player() -> (m: Materials)
        ensures
            m == uniform_materials(50),
    {
        Materials { clay: 50, grain: 50, iron: 50, stone: 50, wood: 50 }
    }

    /// The whole stock.
    pub fn get_all_materials(&self) -> (m: &Materials)
        ensures
            *m == *self,
    {
        self
    }

    /// The market's growth in one tick: five more wood.
    pub fn add_per_tick(&mut self)
        requires
            old(self).wood + 5 <= i64::MAX,
        ensures
            *final(self) == (Materials { wood: (old(self).wood + 5) as i64, ..*old(self) }),
    {
        self.wood = self.wood + 5;
    }

    /// The names of the materials, in field order.
    pub fn get_material_keys() -> (keys: [&'static str; 5])
        ensures
            keys[0]@ == "clay"@,
            keys[1]@ == "grain"@,
            keys[2]@ == "iron"@,
            keys[3]@ == "stone"@,
            keys[4]@ == "wood"@,
    {
        ["clay", "grain", "iron", "stone", "wood"]
    }

    /// The yield of one tile for a drawn material position `index` (see `yield_of`).
    pub fn yield_for_key(index: usize) -> (m: Materials)
        requires
            index < 5,
        ensures
            m == yield_of(index as int),
    {
        Materials {
            clay: if index == 0 { MATERIAL_YIELD } else { 0 },
            grain: if index == 1 { MATERIAL_YIELD } else { 0 },
            iron: if index == 2 { MATERIAL_YIELD } else { 0 },
            stone: if index == 3 { MATERIAL_YIELD } else { 0 },
            wood: if index == 4 { MATERIAL_YIELD } else { 0 },
        }
    }

    /// One tile's yield: `MATERIAL_YIELD` of one material drawn at random.
    pub fn get_random_materials() -> (m: Materials)
        ensures
            exists|i: int| 0 <= i < 5 && m == #[trigger] yield_of(i),
    {
        let keys = Materials::get_material_keys();
        let index = random_index(keys.len());
        let m = Materials::yield_for_key(index);
        assert(m == yield_of(index as int));
        m
    }

    /// Field-wise sum.
    pub(crate) fn plus(&self, other: &Materials) -> (m: Materials)
        requires
            sum_fits(*self, *other),
        ensures
            m == sum_of(*self, *other),
    {
        Materials {
            clay: self.clay + other.clay,
            grain: self.grain + other.grain,
            iron: self.iron + other.iron,
            stone: self.stone + other.stone,
            wood: self.wood + other.wood,
        }
    }
}

} // verus!
