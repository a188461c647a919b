//! The board: a square of tiles, each with a building, an owner and a value.

use crate::chance::random_index;
use crate::materials::Materials;
use crate::text::{int_to_decimal, push_decimal};
use vstd::prelude::*;

verus! {

/// Side length of the square board.
pub const DIMENSIONS: i64 = 20;

#[derive(Clone, Copy, Debug, PartialEq, Eq, Structural)]
pub enum BuildingKind {
    APARTMENT,
    EMPTY,
    FACTORY,
    FARM,
    HOUSE,
    OFFICE,
    SHOP,
}

#[derive(Clone, Copy, Debug, PartialEq, Eq, Structural)]
pub enum OwnerKind {
    Player,
    Game,
}

/// What a tile holds, as plain values.
pub struct TileView {
    pub building: BuildingKind,
    pub id: Seq<char>,
    pub owner: OwnerKind,
    pub x: i64,
    pub y: i64,
    pub value: i64,
}

pub struct MapTile {
    building: BuildingKind,
    id: String,
    owner: OwnerKind,
    x: i64,
    y: i64,
    value: i64,
}

impl View for MapTile {
    type V = TileView;

    closed spec fn view(&self) -> TileView {
        TileView {
            building: self.building,
            id: self.id@,
            owner: self.owner,
            x: self.x,
            y: self.y,
            value: self.value,
        }
    }
}

/// The views of a row of tiles.
pub open spec fn tiles_view(tiles: Seq<MapTile>) -> Seq<TileView> {
    tiles.map_values(|t: MapTile| t@)
}

/// `i` is the first position of `tiles` whose id is `id`.
pub open spec fn is_first_with_id(tiles: Seq<TileView>, id: Seq<char>, i: int) -> bool {
    &&& 0 <= i < tiles.len()
    &&& tiles[i].id == id
    &&& forall|j: int| 0 <= j < i ==> #[trigger] tiles[j].id != id
}

/// The first position of `tiles` whose id is `id`, if any.
pub open spec fn tile_position(tiles: Seq<TileView>, id: Seq<char>) -> Option<int> {
    if exists|i: int| #[trigger] is_first_with_id(tiles, id, i) {
        Some(choose|i: int| #[trigger] is_first_with_id(tiles, id, i))
    } else {
        None
    }
}

/// The first position with a given id is unique.
pub proof fn lemma_first_with_id_unique(tiles: Seq<TileView>, id: Seq<char>, i: int, k: int)
    requires
        is_first_with_id(tiles, id, i),
        is_first_with_id(tiles, id, k),
    ensures
        i == k,
{
    if i < k {
        assert(tiles[i].id != id);
    } else if k < i {
        assert(tiles[k].id != id);
    }
}

/// A tile's value, by its distance from the centre of a board of side `dim`.
pub open spec fn tile_value(x: int, y: int, dim: int) -> int {
    let center = dim / 2;
    -(x - center) * (x - center) - (y - center) * (y - center) + dim * dim
}

/// On the board, a tile's value lies between 200 (a corner) and 400 (the centre).
pub proof fn lemma_tile_value_bounds(x: int, y: int)
    requires
        1 <= x <= DIMENSIONS,
        1 <= y <= DIMENSIONS,
    ensures
        200 <= tile_value(x, y, DIMENSIONS as int) <= 400,
        tile_value(x, y, DIMENSIONS as int) == 400 <==> x == 10 && y == 10,
{
    assert(0 <= (x - 10) * (x - 10) <= 100) by (nonlinear_arith)
        requires
            1 <= x <= 20,
    ;
    assert(0 <= (y - 10) * (y - 10) <= 100) by (nonlinear_arith)
        requires
            1 <= y <= 20,
    ;
    assert((x - 10) * (x - 10) == 0 <==> x == 10) by (nonlinear_arith);
    assert((y - 10) * (y - 10) == 0 <==> y == 10) by (nonlinear_arith);
    assert(DIMENSIONS as int / 2 == 10);
    assert((-(x - 10)) * (x - 10) == -((x - 10) * (x - 10))) by (nonlinear_arith);
    assert((-(y - 10)) * (y - 10) == -((y - 10) * (y - 10))) by (nonlinear_arith);
}

/// The buildings that a fresh tile of the given value may carry, one of which is drawn
/// at random. The bands are fractions of the board's top value `DIMENSIONS * DIMENSIONS`:
/// 98.5%, 92%, 89%, 85% and 80%.
pub open spec fn default_buildings(value: int) -> Seq<BuildingKind> {
    let max = DIMENSIONS * DIMENSIONS;
    if value * 1000 >= max * 985 {
        seq![BuildingKind::OFFICE]
    } else if value * 100 >= max * 92 {
        seq![BuildingKind::APARTMENT, BuildingKind::OFFICE]
    } else if value * 100 >= max * 89 {
        seq![BuildingKind::APARTMENT, BuildingKind::HOUSE, BuildingKind::SHOP]
    } else if value * 100 >= max * 85 {
        seq![BuildingKind::HOUSE, BuildingKind::SHOP]
    } else if value * 100 >= max * 80 {
        seq![BuildingKind::FACTORY, BuildingKind::FARM, BuildingKind::HOUSE, BuildingKind::EMPTY]
    } else {
        seq![BuildingKind::EMPTY]
    }
}

/// The text id of the tile at `(x, y)`: the decimal of `x` followed by that of `y`.
pub open spec fn tile_id_text(x: int, y: int) -> Seq<char> {
    int_to_decimal(x) + int_to_decimal(y)
}

/// `t` is the freshly generated tile at `(x, y)`.
pub open spec fn is_generated_tile(t: TileView, x: int, y: int) -> bool {
    &&& t.x == x
    &&& t.y == y
    &&& t.id == tile_id_text(x, y)
    &&& t.owner == OwnerKind::Game
    &&& t.value == tile_value(x, y, DIMENSIONS as int)
    &&& default_buildings(t.value as int).contains(t.building)
}

/// What it costs in materials to put up a building of the given kind.
pub open spec fn build_cost(kind: BuildingKind) -> Materials {
    match kind {
        BuildingKind::APARTMENT => Materials { clay: 20, grain: 0, iron: 10, stone: 20, wood: 10 },
        BuildingKind::EMPTY => Materials { clay: 0, grain: 0, iron: 0, stone: 0, wood: 0 },
        BuildingKind::FACTORY => Materials { clay: 10, grain: 0, iron: 30, stone: 20, wood: 10 },
        BuildingKind::FARM => Materials { clay: 0, grain: 20, iron: 0, stone: 5, wood: 20 },
        BuildingKind::HOUSE => Materials { clay: 10, grain: 0, iron: 0, stone: 10, wood: 20 },
        BuildingKind::OFFICE => Materials { clay: 10, grain: 0, iron: 20, stone: 30, wood: 10 },
        BuildingKind::SHOP => Materials { clay: 10, grain: 0, iron: 0, stone: 10, wood: 10 },
    }
}

/// The materials needed to put up a building of the given kind.
pub fn get_build_cost(kind: BuildingKind) -> (m: Materials)
    ensures
        m == build_cost(kind),
{
    match kind {
        BuildingKind::APARTMENT => Materials { clay: 20, grain: 0, iron: 10, stone: 20, wood: 10 },
        BuildingKind::EMPTY => Materials { clay: 0, grain: 0, iron: 0, stone: 0, wood: 0 },
        BuildingKind::FACTORY => Materials { clay: 10, grain: 0, iron: 30, stone: 20, wood: 10 },
        BuildingKind::FARM => Materials { clay: 0, grain: 20, iron: 0, stone: 5, wood: 20 },
        BuildingKind::HOUSE => Materials { clay: 10, grain: 0, iron: 0, stone: 10, wood: 20 },
        BuildingKind::OFFICE => Materials { clay: 10, grain: 0, iron: 20, stone: 30, wood: 10 },
        BuildingKind::SHOP => Materials { clay: 10, grain: 0, iron: 0, stone: 10, wood: 10 },
    }
}

impl MapTile {
    /// A tile with the given contents.
    pub fn new(
        building: BuildingKind,
        id: String,
        owner: OwnerKind,
        x: i64,
        y: i64,
        value: i64,
    ) -> (t: MapTile)
        ensures
            t@ == (TileView { building, id: id@, owner, x, y, value }),
    {
        MapTile { building, id, owner, x, y, value }
    }

    pub fn change_building(&mut self, new_building: BuildingKind)
        ensures
            final(self)@ == (TileView { building: new_building, ..old(self)@ }),
    {
        self.building = new_building;
    }

    pub fn get_id(&self) -> (id: &str)
        ensures
            id@ == self@.id,
    {
        self.id.as_str()
    }

    pub fn get_value(&self) -> (v: i64)
        ensures
            v == self@.value,
    {
        self.value
    }

    pub fn get_building(&self) -> (b: BuildingKind)
        ensures
            b == self@.building,
    {
        self.building
    }

    pub fn get_owner(&self) -> (o: OwnerKind)
        ensures
            o == self@.owner,
    {
        self.owner
    }

    /// The tile's coordinates `(x, y)`.
    pub fn get_position(&self) -> (p: (i64, i64))
        ensures
            p == (self@.x, self@.y),
    {
        (self.x, self.y)
    }

    pub fn is_owned_by_player(&self) -> (owned: bool)
        ensures
            owned == (self@.owner == OwnerKind::Player),
    {
        match self.owner {
            OwnerKind::Player => true,
            OwnerKind::Game => false,
        }
    }

    pub fn set_owner_to_player(&mut self)
        ensures
            final(self)@ == (TileView { owner: OwnerKind::Player, ..old(self)@ }),
    {
        self.owner = OwnerKind::Player;
    }

    pub fn set_owner_to_game(&mut self)
        ensures
            final(self)@ == (TileView { owner: OwnerKind::Game, ..old(self)@ }),
    {
        self.owner = OwnerKind::Game;
    }
}

/// The first position of `map` holding a tile with id `tile_id`, if any.
pub fn find_tile_index(map: &Vec<MapTile>, tile_id: &str) -> (r: Option<usize>)
    ensures
        match r {
            Some(i) => tile_position(tiles_view(map@), tile_id@) == Some(i as int),
            None => tile_position(tiles_view(map@), tile_id@) is None,
        },
{
    let target = tile_id.to_owned();
    let ghost tiles = tiles_view(map@);
    let mut i: usize = 0;
    while i < map.len()
        invariant
            i <= map.len(),
            target@ == tile_id@,
            tiles == tiles_view(map@),
            forall|j: int| 0 <= j < i ==> #[trigger] tiles[j].id != tile_id@,
        decreases map.len() - i,
    {
        if map[i].id == target {
            assert(is_first_with_id(tiles, tile_id@, i as int));
            proof {
                let k = choose|k: int| #[trigger] is_first_with_id(tiles, tile_id@, k);
                lemma_first_with_id_unique(tiles, tile_id@, i as int, k);
            }
            return Some(i);
        }
        i = i + 1;
    }
    assert(!exists|k: int| #[trigger] is_first_with_id(tiles, tile_id@, k));
    None
}

/// Whether the tile with id `tile_id` is owned by a player; `false` when there is no such tile.
pub fn check_if_player_owns_tile(tile_id: &str, map: &Vec<MapTile>) -> (owned: bool)
    ensures
        owned == match tile_position(tiles_view(map@), tile_id@) {
            Some(i) => tiles_view(map@)[i].owner == OwnerKind::Player,
            None => false,
        },
{
    match find_tile_index(map, tile_id) {
        Some(i) => map[i].is_owned_by_player(),
        None => false,
    }
}

fn calc_tile_value(x: i64, y: i64, dim: i64) -> (v: i64)
    requires
        -1000000 <= x <= 1000000,
        -1000000 <= y <= 1000000,
        0 <= dim <= 1000000,
    ensures
        v == tile_value(x as int, y as int, dim as int),
{
    let center = dim / 2;
    let dx = x - center;
    let dy = y - center;
    assert(dx * dx <= 4000000000000) by (nonlinear_arith)
        requires
            -2000000 <= dx <= 2000000,
    ;
    assert(dy * dy <= 4000000000000) by (nonlinear_arith)
        requires
            -2000000 <= dy <= 2000000,
    ;
    assert(dim * dim <= 1000000000000) by (nonlinear_arith)
        requires
            0 <= dim <= 1000000,
    ;
    assert(0 <= dx * dx && 0 <= dy * dy) by (nonlinear_arith);
    let v = -(dx * dx) - dy * dy + dim * dim;
    assert(v == tile_value(x as int, y as int, dim as int)) by (nonlinear_arith)
        requires
            center == dim as int / 2,
            dx == x - center,
            dy == y - center,
            v == -(dx * dx) - dy * dy + dim * dim,
    ;
    v
}

/// The building a fresh tile of the given value gets for the draw `roll` among its
/// `default_buildings`.
pub fn default_building_for_roll(value: i64, roll: usize) -> (b: BuildingKind)
    requires
        roll < default_buildings(value as int).len(),
    ensures
        b == default_buildings(value as int)[roll as int],
{
    let max: i64 = DIMENSIONS * DIMENSIONS;
    if value >= max * 985 / 1000 {
        BuildingKind::OFFICE
    } else if value >= max * 92 / 100 {
        if roll == 0 {
            BuildingKind::APARTMENT
        } else {
            BuildingKind::OFFICE
        }
    } else if value >= max * 89 / 100 {
        if roll == 0 {
            BuildingKind::APARTMENT
        } else if roll == 1 {
            BuildingKind::HOUSE
        } else {
            BuildingKind::SHOP
        }
    } else if value >= max * 85 / 100 {
        if roll == 0 {
            BuildingKind::HOUSE
        } else {
            BuildingKind::SHOP
        }
    } else if value >= max * 80 / 100 {
        if roll == 0 {
            BuildingKind::FACTORY
        } else if roll == 1 {
            BuildingKind::FARM
        } else if roll == 2 {
            BuildingKind::HOUSE
        } else {
            BuildingKind::EMPTY
        }
    } else {
        BuildingKind::EMPTY
    }
}

fn default_building_count(value: i64) -> (n: usize)
    ensures
        n == default_buildings(value as int).len(),
{
    let max: i64 = DIMENSIONS * DIMENSIONS;
    if value >= max * 985 / 1000 {
        1
    } else if value >= max * 92 / 100 {
        2
    } else if value >= max * 89 / 100 {
        3
    } else if value >= max * 85 / 100 {
        2
    } else if value >= max * 80 / 100 {
        4
    } else {
        1
    }
}

/// A building for a fresh tile of the given value, drawn at random among its
/// `default_buildings`; no draw is made where there is a single choice.
fn get_default_building(value: i64) -> (b: BuildingKind)
    ensures
        default_buildings(value as int).contains(b),
{
    let n = default_building_count(value);
    let roll = if n > 1 {
        random_index(n)
    } else {
        0
    };
    let b = default_building_for_roll(value, roll);
    assert(default_buildings(value as int)[roll as int] == b);
    b
}

/// The text id of the tile at `(x, y)`.
fn tile_id(x: i64, y: i64) -> (id: String)
    ensures
        id@ == tile_id_text(x as int, y as int),
{
    let mut id = String::new();
    push_decimal(&mut id, x);
    push_decimal(&mut id, y);
    id
}

/// A fresh board: `DIMENSIONS * DIMENSIONS` tiles, row by row from `(1, 1)` to
/// `(DIMENSIONS, DIMENSIONS)`, all owned by the game, valued by their distance from the
/// centre, each with a building drawn from those its value allows.
pub fn generate_map() -> (map: Vec<MapTile>)
    ensures
        map.len() == DIMENSIONS * DIMENSIONS,
        forall|k: int|
            0 <= k < map.len() ==> is_generated_tile(
                #[trigger] map@[k]@,
                k / DIMENSIONS as int + 1,
                k % DIMENSIONS as int + 1,
            ),
        forall|k: int|
            0 <= k < map.len() ==> {
                let x = k / 20 + 1;
                let y = k % 20 + 1;
                &&& (#[trigger] map@[k]@).id == int_to_decimal(x) + int_to_decimal(y)
                &&& map@[k]@.value == 400 - (x - 10) * (x - 10) - (y - 10) * (y - 10)
                &&& map@[k]@.owner == OwnerKind::Game
                &&& map@[k]@.x == x && map@[k]@.y == y
            },
{
    let mut map: Vec<MapTile> = Vec::new();
    let mut i: i64 = 0;
    while i < DIMENSIONS
        invariant
            0 <= i <= DIMENSIONS,
            map.len() == i * DIMENSIONS,
            forall|k: int|
                0 <= k < map.len() ==> is_generated_tile(
                    #[trigger] map@[k]@,
                    k / DIMENSIONS as int + 1,
                    k % DIMENSIONS as int + 1,
                ),
        decreases DIMENSIONS - i,
    {
        i = i + 1;
        let mut j: i64 = 0;
        while j < DIMENSIONS
            invariant
                1 <= i <= DIMENSIONS,
                0 <= j <= DIMENSIONS,
                map.len() == (i - 1) * DIMENSIONS + j,
                forall|k: int|
                    0 <= k < map.len() ==> is_generated_tile(
                        #[trigger] map@[k]@,
                        k / DIMENSIONS as int + 1,
                        k % DIMENSIONS as int + 1,
                    ),
            decreases DIMENSIONS - j,
        {
            j = j + 1;
            let x = i;
            let y = j;
            let value = calc_tile_value(x, y, DIMENSIONS);
            let tile = MapTile {
                building: get_default_building(value),
                id: tile_id(x, y),
                owner: OwnerKind::Game,
                value,
                x,
                y,
            };
            let ghost k = map.len() as int;
            assert(k / DIMENSIONS as int + 1 == x && k % DIMENSIONS as int + 1 == y);
            map.push(tile);
        }
    }
    assert forall|k: int| 0 <= k < map.len() implies {
        let x = k / 20 + 1;
        let y = k % 20 + 1;
        &&& (#[trigger] map@[k]@).id == int_to_decimal(x) + int_to_decimal(y)
        &&& map@[k]@.value == 400 - (x - 10) * (x - 10) - (y - 10) * (y - 10)
        &&& map@[k]@.owner == OwnerKind::Game
        &&& map@[k]@.x == x && map@[k]@.y == y
    } by {
        let x = k / 20 + 1;
        let y = k % 20 + 1;
        assert(is_generated_tile(map@[k]@, x, y));
        assert((-(x - 10)) * (x - 10) == -((x - 10) * (x - 10))) by (nonlinear_arith);
        assert((-(y - 10)) * (y - 10) == -((y - 10) * (y - 10))) by (nonlinear_arith);
    }
    map
}

} // verus!
