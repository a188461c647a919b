//! The game state and the moves players make on it: buying, selling and building on
//! tiles, and ending a turn.

use crate::map::{
    build_cost, find_tile_index, generate_map, get_build_cost, is_generated_tile, tile_position,
    tiles_view, BuildingKind, MapTile, OwnerKind, TileView, DIMENSIONS,
};
use crate::materials::{covers, difference_of, uniform_materials, Materials};
use crate::player::{
    player_key, room_for_yields, valid_picks, yields_applied, Player, PlayerId, ACTIONS_PER_TURN,
    STARTING_CASH,
};
use crate::text::{int_to_decimal, push_decimal};
use std::collections::HashMap;
use vstd::prelude::*;

verus! {

/// Cash, in cents, that ending a turn costs for each tile owned plus one.
pub const UPKEEP_PER_TILE: i64 = 100;

pub struct Game {
    pub current_player_turn: PlayerId,
    pub map: Vec<MapTile>,
    pub market: Materials,
    /// The players, filed under `PlayerId::key` of their seat.
    pub players: HashMap<u64, Player>,
    pub players_queue: Vec<PlayerId>,
}

/// The game as plain values.
#[verifier::ext_equal]
pub struct GameView {
    pub current: PlayerId,
    pub map: Seq<TileView>,
    pub market: Materials,
    pub players: Map<u64, Player>,
    pub queue: Seq<PlayerId>,
}

impl View for Game {
    type V = GameView;

    open spec fn view(&self) -> GameView {
        GameView {
            current: self.current_player_turn,
            map: tiles_view(self.map@),
            market: self.market,
            players: self.players@,
            queue: self.players_queue@,
        }
    }
}

/// The texts of a move's result.
pub open spec fn result_view(r: Result<String, String>) -> Result<Seq<char>, Seq<char>> {
    match r {
        Ok(s) => Ok(s@),
        Err(e) => Err(e@),
    }
}

/// The player whose turn it is.
pub open spec fn current_player(g: GameView) -> Player {
    g.players[player_key(g.current)]
}

/// The player whose turn it is has an entry.
pub open spec fn has_current_player(g: GameView) -> bool {
    g.players.contains_key(player_key(g.current))
}

/// The seat whose turn it is sits in the queue, and every seat in the queue has a player.
pub open spec fn turn_order_ok(g: GameView) -> bool {
    &&& g.queue.contains(g.current)
    &&& forall|i: int| 0 <= i < g.queue.len() ==> g.players.contains_key(player_key(#[trigger] g.queue[i]))
}

pub open spec fn no_actions_message() -> Seq<char> {
    "No actions left in this turn"@
}

pub open spec fn tile_not_found_message(tile_id: Seq<char>) -> Seq<char> {
    "Tile with id "@ + tile_id + " not found"@
}

pub open spec fn bought_message(tile_id: Seq<char>, value: int) -> Seq<char> {
    "Successfully bought tile "@ + tile_id + " for $"@ + int_to_decimal(value)
}

/// The state and answer after the current player tries to buy the tile with id `tile_id`.
pub open spec fn buy_outcome(g: GameView, tile_id: Seq<char>) -> (GameView, Result<Seq<char>, Seq<char>>) {
    let p = current_player(g);
    if p.actions_left_in_turn <= 0 {
        (g, Err(no_actions_message()))
    } else {
        match tile_position(g.map, tile_id) {
            None => (g, Err(tile_not_found_message(tile_id))),
            Some(i) => {
                let t = g.map[i];
                if t.owner == OwnerKind::Player {
                    (g, Err("Tile is already owned"@))
                } else if p.cash < t.value {
                    (g, Err("Not enough cash to buy this tile"@))
                } else {
                    let buyer = Player {
                        cash: (p.cash - t.value) as i64,
                        actions_left_in_turn: (p.actions_left_in_turn - 1) as i32,
                        ..p
                    };
                    (
                        GameView {
                            map: g.map.update(i, TileView { owner: OwnerKind::Player, ..t }),
                            players: g.players.insert(player_key(g.current), buyer),
                            ..g
                        },
                        Ok(bought_message(tile_id, t.value as int)),
                    )
                }
            },
        }
    }
}

/// Where the purchase of the tile with id `tile_id` goes through, paying for it cannot
/// overflow the buyer's cash.
pub open spec fn purchase_fits(g: GameView, tile_id: Seq<char>) -> bool {
    let p = current_player(g);
    match tile_position(g.map, tile_id) {
        Some(i) => p.actions_left_in_turn > 0 && g.map[i].owner != OwnerKind::Player && p.cash
            >= g.map[i].value ==> p.cash - g.map[i].value <= i64::MAX,
        None => true,
    }
}

/// The state and answer after the current player tries to sell the tile with id `tile_id`.
/// The action is spent before the tile is looked up; the seller is paid the tile's value
/// whoever owned it.
pub open spec fn sell_outcome(g: GameView, tile_id: Seq<char>) -> (GameView, Result<Seq<char>, Seq<char>>) {
    let p = current_player(g);
    if p.actions_left_in_turn <= 0 {
        (g, Err(no_actions_message()))
    } else {
        let seller = Player { actions_left_in_turn: (p.actions_left_in_turn - 1) as i32, ..p };
        match tile_position(g.map, tile_id) {
            None => (
                GameView { players: g.players.insert(player_key(g.current), seller), ..g },
                Err(tile_not_found_message(tile_id)),
            ),
            Some(i) => {
                let t = g.map[i];
                (
                    GameView {
                        map: g.map.update(i, TileView { owner: OwnerKind::Game, ..t }),
                        players: g.players.insert(
                            player_key(g.current),
                            Player { cash: (p.cash + t.value) as i64, ..seller },
                        ),
                        ..g
                    },
                    Ok("MapTile has been sold"@),
                )
            },
        }
    }
}

/// Where the sale of the tile with id `tile_id` goes through, the payment cannot overflow
/// the seller's cash.
pub open spec fn sale_fits(g: GameView, tile_id: Seq<char>) -> bool {
    let p = current_player(g);
    match tile_position(g.map, tile_id) {
        Some(i) => p.actions_left_in_turn > 0 ==> i64::MIN <= p.cash + g.map[i].value
            <= i64::MAX,
        None => true,
    }
}

/// The state and answer after the current player tries to put up a `kind` building on the
/// tile with id `tile_id`. The materials are paid before the tile is looked up.
pub open spec fn build_outcome(g: GameView, tile_id: Seq<char>, kind: BuildingKind) -> (
    GameView,
    Result<Seq<char>, Seq<char>>,
) {
    let p = current_player(g);
    let cost = build_cost(kind);
    if p.actions_left_in_turn <= 0 {
        (g, Err(no_actions_message()))
    } else if !covers(p.materials, cost) {
        (g, Err("Not enough materials to build"@))
    } else {
        let payer = Player { materials: difference_of(p.materials, cost), ..p };
        match tile_position(g.map, tile_id) {
            None => (
                GameView { players: g.players.insert(player_key(g.current), payer), ..g },
                Err(tile_not_found_message(tile_id)),
            ),
            Some(i) => (
                GameView {
                    map: g.map.update(i, TileView { building: kind, ..g.map[i] }),
                    players: g.players.insert(
                        player_key(g.current),
                        Player {
                            actions_left_in_turn: (p.actions_left_in_turn - 1) as i32,
                            ..payer
                        },
                    ),
                    ..g
                },
                Ok("Building's been changed."@),
            ),
        }
    }
}

/// The first position of `q` holding `p`.
pub open spec fn is_first_position(q: Seq<PlayerId>, p: PlayerId, i: int) -> bool {
    &&& 0 <= i < q.len()
    &&& q[i] == p
    &&& forall|j: int| 0 <= j < i ==> #[trigger] q[j] != p
}

pub open spec fn queue_position(q: Seq<PlayerId>, p: PlayerId) -> int {
    choose|i: int| #[trigger] is_first_position(q, p, i)
}

/// The seat after `p` in the queue, wrapping round from the last to the first.
pub open spec fn next_in_queue(q: Seq<PlayerId>, p: PlayerId) -> PlayerId {
    let i = queue_position(q, p);
    if i == q.len() - 1 {
        q[0]
    } else {
        q[i + 1]
    }
}

pub proof fn lemma_first_position_unique(q: Seq<PlayerId>, p: PlayerId, i: int, k: int)
    requires
        is_first_position(q, p, i),
        is_first_position(q, p, k),
    ensures
        i == k,
{
    if i < k {
        assert(q[i] != p);
    } else if k < i {
        assert(q[k] != p);
    }
}

/// A seat that is queued has a first position in the queue.
pub proof fn lemma_first_position_exists(q: Seq<PlayerId>, p: PlayerId, i: int)
    requires
        0 <= i < q.len(),
        q[i] == p,
    ensures
        is_first_position(q, p, queue_position(q, p)),
    decreases i,
{
    if exists|j: int| 0 <= j < i && #[trigger] q[j] == p {
        let j = choose|j: int| 0 <= j < i && #[trigger] q[j] == p;
        lemma_first_position_exists(q, p, j);
    } else {
        assert(is_first_position(q, p, i));
    }
}

/// The number of tiles owned by a player.
pub open spec fn owned_count(tiles: Seq<TileView>) -> nat
    decreases tiles.len(),
{
    if tiles.len() == 0 {
        0
    } else {
        owned_count(tiles.drop_last()) + if tiles.last().owner == OwnerKind::Player {
            1nat
        } else {
            0nat
        }
    }
}

/// The state after the current player ends the turn, where `picks` are the materials drawn
/// for the player's tiles, one per tile.
pub open spec fn tick_outcome(g: GameView, picks: Seq<int>) -> GameView {
    let p = current_player(g);
    let n = owned_count(g.map);
    GameView {
        players: g.players.insert(
            player_key(g.current),
            Player {
                materials: yields_applied(p.materials, picks),
                cash: (p.cash - (1 + n) * UPKEEP_PER_TILE) as i64,
                actions_left_in_turn: ACTIONS_PER_TURN,
                ..p
            },
        ),
        market: Materials { wood: (g.market.wood + 5) as i64, ..g.market },
        current: next_in_queue(g.queue, g.current),
        ..g
    }
}

/// Ending the turn cannot overflow.
pub open spec fn tick_fits(g: GameView) -> bool {
    let p = current_player(g);
    let n = owned_count(g.map);
    &&& room_for_yields(p.materials, n as int)
    &&& (1 + n) * UPKEEP_PER_TILE <= i64::MAX
    &&& p.cash - (1 + n) * UPKEEP_PER_TILE >= i64::MIN
    &&& g.market.wood + 5 <= i64::MAX
}

/// `p` is a player as `Player::init` makes it, filed under `id`.
pub open spec fn is_fresh_player(p: Player, id: Seq<char>) -> bool {
    &&& p.id@ == id
    &&& p.actions_left_in_turn == ACTIONS_PER_TURN
    &&& p.cash == STARTING_CASH
    &&& p.name@ == "Kacper"@
    &&& p.materials == uniform_materials(50)
}

fn tile_not_found(tile_id: &str) -> (s: String)
    ensures
        s@ == tile_not_found_message(tile_id@),
{
    let mut s = String::new();
    s.append("Tile with id ");
    s.append(tile_id);
    s.append(" not found");
    s
}

impl Game {
    /// A fresh game: the generated board, the market's opening stock, the two seats with
    /// fresh players, the enemy queued first and the player to move.
    pub fn new() -> (g: Game)
        ensures
            g.current_player_turn == PlayerId::Player,
            g.players_queue@ == seq![PlayerId::Enemy, PlayerId::Player],
            g.market == uniform_materials(100),
            g.players@.dom() == set![player_key(PlayerId::Player), player_key(PlayerId::Enemy)],
            is_fresh_player(g.players@[player_key(PlayerId::Player)], "Player"@),
            is_fresh_player(g.players@[player_key(PlayerId::Enemy)], "Enemy"@),
            forall|k: u64|
                #![trigger g.players@[k]]
                g.players@.contains_key(k) ==> {
                    &&& g.players@[k].cash == 10000000
                    &&& g.players@[k].actions_left_in_turn == 2
                    &&& g.players@[k].materials == (Materials {
                        clay: 50,
                        grain: 50,
                        iron: 50,
                        stone: 50,
                        wood: 50,
                    })
                },
            g.market == (Materials { clay: 100, grain: 100, iron: 100, stone: 100, wood: 100 }),
            g.map.len() == DIMENSIONS * DIMENSIONS,
            forall|k: int|
                0 <= k < g.map.len() ==> is_generated_tile(
                    #[trigger] g.map@[k]@,
                    k / DIMENSIONS as int + 1,
                    k % DIMENSIONS as int + 1,
                ),
            forall|k: int|
                0 <= k < g.map.len() ==> {
                    let x = k / 20 + 1;
                    let y = k % 20 + 1;
                    &&& (#[trigger] g.map@[k]@).id == int_to_decimal(x) + int_to_decimal(y)
                    &&& g.map@[k]@.value == 400 - (x - 10) * (x - 10) - (y - 10) * (y - 10)
                    &&& g.map@[k]@.owner == OwnerKind::Game
                },
            turn_order_ok(g@),
    {
        let mut players_queue: Vec<PlayerId> = Vec::new();
        let mut players: HashMap<u64, Player> = HashMap::new();
        players.insert(PlayerId::Player.key(), Player::init("Player"));
        players.insert(PlayerId::Enemy.key(), Player::init("Enemy"));
        players_queue.push(PlayerId::Enemy);
        players_queue.push(PlayerId::Player);
        let g = Game {
            current_player_turn: PlayerId::Player,
            map: generate_map(),
            market: Materials::init_market(),
            players,
            players_queue,
        };
        assert(g.players_queue@[1] == PlayerId::Player);
        g
    }

    /// The seat whose turn comes after the current one.
    pub fn get_next_turn_player(&self) -> (next: PlayerId)
        requires
            self.players_queue@.contains(self.current_player_turn),
        ensures
            next == next_in_queue(self.players_queue@, self.current_player_turn),
    {
        let q = &self.players_queue;
        let ghost p = self.current_player_turn;
        let mut i: usize = 0;
        while i < q.len()
            invariant
                i <= q.len(),
                q@.contains(p),
                p == self.current_player_turn,
                q@ == self.players_queue@,
                forall|j: int| 0 <= j < i ==> #[trigger] q@[j] != p,
            decreases q.len() - i,
        {
            if q[i] == self.current_player_turn {
                assert(is_first_position(q@, p, i as int));
                proof {
                    lemma_first_position_unique(q@, p, i as int, queue_position(q@, p));
                }

                if i == q.len() - 1 {
                    return q[0];
                }
                return q[i + 1];
            }
            i = i + 1;
        }
        proof {
            let k = choose|k: int| 0 <= k < q@.len() && q@[k] == p;
            assert(q@[k] != p);
        }
        q[0]
    }

    /// The current player buys the tile with id `tile_id`, if the turn has an action left,
    /// the tile exists and is not yet owned by a player, and the player has the cash.
    pub fn buy_map_tile(tile_id: &str, game_state: &mut Game) -> (r: Result<String, String>)
        requires
            has_current_player(old(game_state)@),
            purchase_fits(old(game_state)@, tile_id@),
        ensures
            final(game_state)@ == buy_outcome(old(game_state)@, tile_id@).0,
            result_view(r) == buy_outcome(old(game_state)@, tile_id@).1,
    {
        let key = game_state.current_player_turn.key();
        let player = game_state.players.get(&key).unwrap();
        if player.check_if_out_of_actions_left() {
            return Err("No actions left in this turn".to_string());
        }
        let tile_index = match find_tile_index(&game_state.map, tile_id) {
            Some(i) => i,
            None => {
                return Err(tile_not_found(tile_id));
            },
        };
        if game_state.map[tile_index].is_owned_by_player() {
            return Err("Tile is already owned".to_string());
        }
        let tile_value = game_state.map[tile_index].get_value();
        if player.get_cash() < tile_value {
            return Err("Not enough cash to buy this tile".to_string());
        }
        let mut player = game_state.players.remove(&key).unwrap();
        player.subtract_cash(tile_value);
        game_state.map[tile_index].set_owner_to_player();
        let _ = player.take_one_action();
        game_state.players.insert(key, player);
        let mut message = String::new();
        message.append("Successfully bought tile ");
        message.append(tile_id);
        message.append(" for $");
        push_decimal(&mut message, tile_value);
        Ok(message)
    }
    /// The current player puts up a `kind` building on the tile with id `tile_id`, paying its
    /// materials first; the tile may belong to anyone.
    pub fn change_building(
        tile_id: &str,
        building_kind: BuildingKind,
        game_state: &mut Game,
    ) -> (r: Result<String, String>)
        requires
            has_current_player(old(game_state)@),
        ensures
            final(game_state)@ == build_outcome(old(game_state)@, tile_id@, building_kind).0,
            result_view(r) == build_outcome(old(game_state)@, tile_id@, building_kind).1,
    {
        let key = game_state.current_player_turn.key();
        let player = game_state.players.get(&key).unwrap();
        if player.check_if_out_of_actions_left() {
            return Err("No actions left in this turn".to_string());
        }
        let build_cost_materials = get_build_cost(building_kind);
        if !player.check_if_can_afford(build_cost_materials) {
            return Err("Not enough materials to build".to_string());
        }
        let mut player = game_state.players.remove(&key).unwrap();
        player.subtract_materials(build_cost_materials);
        let map_tile_index = match find_tile_index(&game_state.map, tile_id) {
            Some(i) => i,
            None => {
                game_state.players.insert(key, player);
                return Err(tile_not_found(tile_id));
            },
        };
        game_state.map[map_tile_index].change_building(building_kind);
        let _ = player.take_one_action();
        game_state.players.insert(key, player);
        Ok("Building's been changed.".to_string())
    }

    /// The current player sells the tile with id `tile_id` back to the game for its value,
    /// spending an action; the action is spent even when there is no such tile.
    pub fn sell_map_tile(tile_id: &str, game_state: &mut Game) -> (r: Result<String, String>)
        requires
            has_current_player(old(game_state)@),
            sale_fits(old(game_state)@, tile_id@),
        ensures
            final(game_state)@ == sell_outcome(old(game_state)@, tile_id@).0,
            result_view(r) == sell_outcome(old(game_state)@, tile_id@).1,
    {
        let key = game_state.current_player_turn.key();
        let mut player = game_state.players.remove(&key).unwrap();
        if player.take_one_action().is_err() {
            game_state.players.insert(key, player);
            assert(game_state.players@ =~= old(game_state).players@);
            return Err("No actions left in this turn".to_string());
        }
        let tile_index = match find_tile_index(&game_state.map, tile_id) {
            Some(i) => i,
            None => {
                game_state.players.insert(key, player);
                return Err(tile_not_found(tile_id));
            },
        };
        game_state.map[tile_index].set_owner_to_game();
        player.add_cash(game_state.map[tile_index].get_value());
        game_state.players.insert(key, player);
        Ok("MapTile has been sold".to_string())
    }

    /// Ends the current player's turn: the player gains one random material yield per owned
    /// tile, pays upkeep for the owned tiles plus one, gets a full set of actions back; the
    /// market grows and the turn passes to the next seat in the queue.
    pub fn tick(game_state: &mut Game)
        requires
            has_current_player(old(game_state)@),
            old(game_state).players_queue@.contains(old(game_state).current_player_turn),
            tick_fits(old(game_state)@),
        ensures
            exists|picks: Seq<int>|
                #![trigger tick_outcome(old(game_state)@, picks)]
                picks.len() == owned_count(old(game_state)@.map) && valid_picks(picks)
                    && final(game_state)@ == tick_outcome(old(game_state)@, picks),
    {
        let key = game_state.current_player_turn.key();
        let mut player = game_state.players.remove(&key).unwrap();
        let ghost tiles = tiles_view(game_state.map@);
        let mut tiles_owned: Vec<&MapTile> = Vec::new();
        let mut i: usize = 0;
        while i < game_state.map.len()
            invariant
                i <= game_state.map.len(),
                tiles == tiles_view(game_state.map@),
                tiles_owned.len() == owned_count(tiles.take(i as int)),
                tiles_owned.len() <= i,
            decreases game_state.map.len() - i,
        {
            assert(tiles.take(i + 1).drop_last() =~= tiles.take(i as int));
            if game_state.map[i].is_owned_by_player() {
                tiles_owned.push(&game_state.map[i]);
            }
            i = i + 1;
        }
        assert(tiles.take(i as int) =~= tiles);
        let materials = player.change_materials(&tiles_owned);
        let ghost picks = choose|picks: Seq<int>|
            #![trigger yields_applied(player.materials, picks)]
            picks.len() == tiles_owned.len() && valid_picks(picks) && materials == yields_applied(
                player.materials,
                picks,
            );
        player.materials = materials;
        let number_of_tiles_owned = tiles_owned.len() as i64;
        player.cash = player.cash - (1 + number_of_tiles_owned) * UPKEEP_PER_TILE;
        player.actions_left_in_turn = ACTIONS_PER_TURN;
        game_state.players.insert(key, player);
        game_state.market.add_per_tick();
        game_state.current_player_turn = game_state.get_next_turn_player();
        assert(game_state@ =~= tick_outcome(old(game_state)@, picks));
    }
}

} // verus!
