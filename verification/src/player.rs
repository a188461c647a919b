//! Players: their cash, their materials and the actions left in the current turn.

use crate::chance::random_index;
use crate::map::MapTile;
use crate::materials::{
    covers, difference_fits, difference_of, sum_of, total, uniform_materials, yield_of, Materials,
    MATERIAL_YIELD,
};
use vstd::prelude::*;

verus! {

/// Actions a player may take in one turn.
pub const ACTIONS_PER_TURN: i32 = 2;

/// Cash a player starts with, in cents.
pub const STARTING_CASH: i64 = 10000000;

/// The two seats at the table.
#[derive(Clone, Copy, Debug, PartialEq, Eq, Structural)]
pub enum PlayerId {
    Player,
    Enemy,
}

/// The integer under which a seat's player is filed in `Game::players`.
pub open spec fn player_key(id: PlayerId) -> u64 {
    match id {
        PlayerId::Player => 0,
        PlayerId::Enemy => 1,
    }
}

impl PlayerId {
    /// The integer under which this seat's player is filed.
    pub fn key(&self) -> (k: u64)
        ensures
            k == player_key(*self),
    {
        match self {
            PlayerId::Player => 0,
            PlayerId::Enemy => 1,
        }
    }
}

pub struct Player {
    pub id: String,
    pub actions_left_in_turn: i32,
    /// Cash in cents.
    pub cash: i64,
    pub name: String,
    pub materials: Materials,
}

/// The stock after adding, in order, the yield of each drawn material position in `picks`.
pub open spec fn yields_applied(start: Materials, picks: Seq<int>) -> Materials
    decreases picks.len(),
{
    if picks.len() == 0 {
        start
    } else {
        sum_of(yields_applied(start, picks.drop_last()), yield_of(picks.last()))
    }
}

/// Every entry of `picks` names one of the five materials.
pub open spec fn valid_picks(picks: Seq<int>) -> bool {
    forall|i: int| 0 <= i < picks.len() ==> 0 <= #[trigger] picks[i] < 5
}

/// Adding `n` tile yields to `start` cannot overflow.
pub open spec fn room_for_yields(start: Materials, n: int) -> bool {
    &&& start.clay + MATERIAL_YIELD * n <= i64::MAX
    &&& start.grain + MATERIAL_YIELD * n <= i64::MAX
    &&& start.iron + MATERIAL_YIELD * n <= i64::MAX
    &&& start.stone + MATERIAL_YIELD * n <= i64::MAX
    &&& start.wood + MATERIAL_YIELD * n <= i64::MAX
}

/// Each amount lies between its start and its start plus `MATERIAL_YIELD * n`.
pub open spec fn within_yields(start: Materials, m: Materials, n: int) -> bool {
    &&& start.clay <= m.clay <= start.clay + MATERIAL_YIELD * n
    &&& start.grain <= m.grain <= start.grain + MATERIAL_YIELD * n
    &&& start.iron <= m.iron <= start.iron + MATERIAL_YIELD * n
    &&& start.stone <= m.stone <= start.stone + MATERIAL_YIELD * n
    &&& start.wood <= m.wood <= start.wood + MATERIAL_YIELD * n
}

/// Applying valid picks adds exactly `MATERIAL_YIELD` per pick to the total, and keeps every
/// amount between its start and its start plus `MATERIAL_YIELD` per pick.
pub proof fn lemma_yields_applied(start: Materials, picks: Seq<int>)
    requires
        valid_picks(picks),
        room_for_yields(start, picks.len() as int),
    ensures
        within_yields(start, yields_applied(start, picks), picks.len() as int),
        total(yields_applied(start, picks)) == total(start) + MATERIAL_YIELD * picks.len(),
    decreases picks.len(),
{
    if picks.len() > 0 {
        let rest = picks.drop_last();
        assert(valid_picks(rest)) by {
            assert forall|i: int| 0 <= i < rest.len() implies 0 <= #[trigger] rest[i] < 5 by {
                assert(rest[i] == picks[i]);
            }
        }
        lemma_yields_applied(start, rest);
        assert(0 <= picks[picks.len() - 1] < 5);
    }
}

impl Player {
    /// A fresh player filed under `id`: two actions, 100000.00 in cash, the starting
    /// materials, and the name "Kacper".
    pub fn init(id: &str) -> (p: Player)
        ensures
            p.id@ == id@,
            p.actions_left_in_turn == ACTIONS_PER_TURN,
            p.actions_left_in_turn == 2,
            p.cash == STARTING_CASH,
            p.cash == 10000000,
            p.name@ == "Kacper"@,
            p.materials == uniform_materials(50),
    {
        Player {
            id: id.to_owned(),
            actions_left_in_turn: 2,
            cash: 10000000,
            name: "Kacper".to_owned(),
            materials: Materials::init_player(),
        }
    }

    pub fn add_cash(&mut self, amount: i64)
        requires
            i64::MIN <= old(self).cash + amount <= i64::MAX,
        ensures
            *final(self) == (Player { cash: (old(self).cash + amount) as i64, ..*old(self) }),
    {
        self.cash = self.cash + amount;
    }

    /// The player's materials after one random material yield for each of `map_tiles`;
    /// the player itself is left as it was.
    pub fn change_materials(&mut self, map_tiles: &Vec<&MapTile>) -> (m: Materials)
        requires
            room_for_yields(old(self).materials, map_tiles.len() as int),
        ensures
            *final(self) == *old(self),
            exists|picks: Seq<int>|
                #![trigger yields_applied(old(self).materials, picks)]
                picks.len() == map_tiles.len() && valid_picks(picks) && m == yields_applied(
                    old(self).materials,
                    picks,
                ),
            within_yields(old(self).materials, m, map_tiles.len() as int),
            total(m) == total(old(self).materials) + MATERIAL_YIELD * map_tiles.len(),
    {
        let start = self.materials;
        let mut acc = start;
        let ghost mut picks: Seq<int> = Seq::empty();
        let mut i: usize = 0;
        while i < map_tiles.len()
            invariant
                i <= map_tiles.len(),
                picks.len() == i,
                valid_picks(picks),
                room_for_yields(start, map_tiles.len() as int),
                acc == yields_applied(start, picks),
            decreases map_tiles.len() - i,
        {
            let gain = Materials::get_random_materials();
            let ghost pick = choose|k: int| 0 <= k < 5 && gain == #[trigger] yield_of(k);
            proof {
                lemma_yields_applied(start, picks);
                assert(valid_picks(picks.push(pick)));
                assert(picks.push(pick).drop_last() == picks);
            }
            acc = acc.plus(&gain);
            proof {
                picks = picks.push(pick);
            }
            i = i + 1;
        }
        proof {
            lemma_yields_applied(start, picks);
        }
        acc
    }

    pub fn check_if_out_of_actions_left(&self) -> (out: bool)
        ensures
            out == (self.actions_left_in_turn <= 0),
    {
        if self.actions_left_in_turn > 0 {
            return false;
        }
        true
    }

    /// Whether the player holds at least `materials` of every material.
    pub fn check_if_can_afford(&self, materials: Materials) -> (ok: bool)
        ensures
            ok == covers(self.materials, materials),
    {
        self.materials.clay >= materials.clay && self.materials.grain >= materials.grain
            && self.materials.iron >= materials.iron && self.materials.stone >= materials.stone
            && self.materials.wood >= materials.wood
    }

    /// Spends one action of the turn; refused when none is left.
    pub fn take_one_action(&mut self) -> (r: Result<String, String>)
        ensures
            old(self).actions_left_in_turn <= 0 ==> {
                &&& *final(self) == *old(self)
                &&& r matches Err(e) && e@ == "Not enough actions left"@
            },
            old(self).actions_left_in_turn > 0 ==> {
                &&& *final(self) == (Player {
                    actions_left_in_turn: (old(self).actions_left_in_turn - 1) as i32,
                    ..*old(self)
                })
                &&& r matches Ok(s) && s@ == "Action deleted sucessfully"@
            },
    {
        if self.check_if_out_of_actions_left() {
            return Err("Not enough actions left".to_string());
        }
        self.actions_left_in_turn = self.actions_left_in_turn - 1;
        Ok("Action deleted sucessfully".to_string())
    }

    pub fn get_cash(&self) -> (c: i64)
        ensures
            c == self.cash,
    {
        self.cash
    }

    pub fn subtract_cash(&mut self, amount: i64)
        requires
            i64::MIN <= old(self).cash - amount <= i64::MAX,
        ensures
            *final(self) == (Player { cash: (old(self).cash - amount) as i64, ..*old(self) }),
    {
        self.cash = self.cash - amount;
    }

    /// Takes `materials` out of the player's stock, field by field.
    pub fn subtract_materials(&mut self, materials: Materials)
        requires
            difference_fits(old(self).materials, materials),
        ensures
            *final(self) == (Player {
                materials: difference_of(old(self).materials, materials),
                ..*old(self)
            }),
    {
        self.materials.clay = self.materials.clay - materials.clay;
        self.materials.grain = self.materials.grain - materials.grain;
        self.materials.iron = self.materials.iron - materials.iron;
        self.materials.stone = self.materials.stone - materials.stone;
        self.materials.wood = self.materials.wood - materials.wood;
    }
}

} // verus!
