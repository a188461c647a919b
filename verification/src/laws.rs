//! Properties that hold across the game's moves.

use crate::game::{
    build_outcome, buy_outcome, current_player, purchase_fits, sale_fits, has_current_player, is_first_position,
    lemma_first_position_exists, lemma_first_position_unique, next_in_queue, owned_count, queue_position, sell_outcome,
    tick_fits, tick_outcome, turn_order_ok, GameView,
};
use crate::map::{
    build_cost, default_buildings, is_first_with_id, is_generated_tile, lemma_first_with_id_unique, tile_position,
    BuildingKind, OwnerKind, TileView,
};
use crate::text::{decimal_digits, digit_char, int_to_decimal};
use crate::materials::{covers, difference_fits, difference_of, total, yield_of, Materials};
use crate::player::{lemma_yields_applied, player_key, valid_picks, PlayerId};
use vstd::prelude::*;

verus! {

/// A stock can afford a cost exactly when paying it leaves no amount below zero.
pub proof fn lemma_afford_iff_no_shortfall(have: Materials, need: Materials)
    requires
        difference_fits(have, need),
    ensures
        covers(have, need) <==> covers(difference_of(have, need), Materials { clay: 0, grain: 0, iron: 0, stone: 0, wood: 0 }),
{
}

/// The seat whose turn it is after `k` turns have ended, starting from `p`.
pub open spec fn turn_after(q: Seq<PlayerId>, p: PlayerId, k: nat) -> PlayerId
    decreases k,
{
    if k == 0 {
        p
    } else {
        next_in_queue(q, turn_after(q, p, (k - 1) as nat))
    }
}

/// Position `j` of a queue without repeated seats is the first position of its seat.
proof fn lemma_position_of_entry(q: Seq<PlayerId>, j: int)
    requires
        q.no_duplicates(),
        0 <= j < q.len(),
    ensures
        queue_position(q, q[j]) == j,
{
    assert(is_first_position(q, q[j], j));
    lemma_first_position_unique(q, q[j], j, queue_position(q, q[j]));
}

proof fn lemma_turn_after_index(q: Seq<PlayerId>, p: PlayerId, k: nat)
    requires
        q.no_duplicates(),
        q.contains(p),
        k <= q.len(),
    ensures
        ({
            let pos = queue_position(q, p);
            let idx = if pos + k < q.len() { pos + k } else { pos + k - q.len() };
            &&& 0 <= pos < q.len()
            &&& 0 <= idx < q.len()
            &&& turn_after(q, p, k) == q[idx]
        }),
    decreases k,
{
    let i = choose|i: int| 0 <= i < q.len() && q[i] == p;
    lemma_position_of_entry(q, i);
    if k > 0 {
        lemma_turn_after_index(q, p, (k - 1) as nat);
        let pos = queue_position(q, p);
        let j = if pos + k - 1 < q.len() { pos + k - 1 } else { pos + k - 1 - q.len() };
        lemma_position_of_entry(q, j);
    }
}

/// Turns go round the queue: when no seat is queued twice, a seat in the queue has the
/// turn again after exactly as many turns as there are seats, and not before.
pub proof fn lemma_turn_order_cycles(q: Seq<PlayerId>, p: PlayerId)
    requires
        q.no_duplicates(),
        q.contains(p),
    ensures
        turn_after(q, p, q.len()) == p,
        forall|k: nat| 0 < k < q.len() ==> #[trigger] turn_after(q, p, k) != p,
        forall|k: nat| k <= q.len() ==> q.contains(#[trigger] turn_after(q, p, k)),
{
    let i = choose|i: int| 0 <= i < q.len() && q[i] == p;
    lemma_position_of_entry(q, i);
    let pos = queue_position(q, p);
    lemma_turn_after_index(q, p, q.len());
    assert forall|k: nat| 0 < k < q.len() implies #[trigger] turn_after(q, p, k) != p by {
        lemma_turn_after_index(q, p, k);
        let idx = if pos + k < q.len() { pos + k } else { pos + k - q.len() };
        assert(idx != pos);
        assert(q[idx] != q[pos]);
    }
    assert forall|k: nat| k <= q.len() implies q.contains(#[trigger] turn_after(q, p, k)) by {
        lemma_turn_after_index(q, p, k);
        let idx = if pos + k < q.len() { pos + k } else { pos + k - q.len() };
        assert(q[idx] == turn_after(q, p, k));
    }
}

/// Changing a tile but not its id leaves where each id is first found unchanged.
proof fn lemma_position_kept(tiles: Seq<TileView>, i: int, t: TileView, id: Seq<char>)
    requires
        0 <= i < tiles.len(),
        t.id == tiles[i].id,
    ensures
        tile_position(tiles.update(i, t), id) == tile_position(tiles, id),
{
    let updated = tiles.update(i, t);
    assert forall|j: int| 0 <= j < tiles.len() implies #[trigger] updated[j].id == tiles[j].id by {}
    assert forall|k: int| #[trigger] is_first_with_id(tiles, id, k) implies is_first_with_id(updated, id, k) by {
        assert forall|j: int| 0 <= j < k implies #[trigger] updated[j].id != id by {
            assert(tiles[j].id != id);
        }
    }
    assert forall|k: int| #[trigger] is_first_with_id(updated, id, k) implies is_first_with_id(tiles, id, k) by {
        assert forall|j: int| 0 <= j < k implies #[trigger] tiles[j].id != id by {
            assert(updated[j].id != id);
        }
    }
    if exists|k: int| #[trigger] is_first_with_id(tiles, id, k) {
        let a = choose|k: int| #[trigger] is_first_with_id(tiles, id, k);
        assert(is_first_with_id(updated, id, a));
        let b = choose|k: int| #[trigger] is_first_with_id(updated, id, k);
        lemma_first_with_id_unique(tiles, id, a, b);
    } else {
        assert(!exists|k: int| #[trigger] is_first_with_id(updated, id, k));
    }
}

/// Buying a tile from the game and selling it straight back in the same turn restores the
/// board and the buyer's cash; only the two actions are gone.
pub proof fn lemma_buy_then_sell_restores(g: GameView, tile_id: Seq<char>)
    requires
        has_current_player(g),
        current_player(g).actions_left_in_turn >= 2,
        tile_position(g.map, tile_id) is Some,
        g.map[tile_position(g.map, tile_id)->0].owner == OwnerKind::Game,
        current_player(g).cash >= g.map[tile_position(g.map, tile_id)->0].value,
        current_player(g).cash - g.map[tile_position(g.map, tile_id)->0].value <= i64::MAX,
    ensures
        ({
            let (bought, answer) = buy_outcome(g, tile_id);
            let (sold, answer2) = sell_outcome(bought, tile_id);
            let p = current_player(g);
            &&& answer is Ok
            &&& answer2 is Ok
            &&& sold.map == g.map
            &&& sold.players == g.players.insert(
                player_key(g.current),
                crate::player::Player { actions_left_in_turn: (p.actions_left_in_turn - 2) as i32, ..p },
            )
            &&& sold.market == g.market
            &&& sold.current == g.current
            &&& sold.queue == g.queue
        }),
{
    let i = tile_position(g.map, tile_id)->0;
    let t = g.map[i];
    lemma_position_kept(g.map, i, TileView { owner: OwnerKind::Player, ..t }, tile_id);
    let (bought, _) = buy_outcome(g, tile_id);
    let (sold, _) = sell_outcome(bought, tile_id);
    assert(sold.map =~= g.map);
    let p = current_player(g);
    assert(sold.players =~= g.players.insert(
        player_key(g.current),
        crate::player::Player { actions_left_in_turn: (p.actions_left_in_turn - 2) as i32, ..p },
    ));
}

/// A refused purchase changes nothing.
pub proof fn lemma_refused_purchase_changes_nothing(g: GameView, tile_id: Seq<char>)
    ensures
        buy_outcome(g, tile_id).1 is Err ==> buy_outcome(g, tile_id).0 == g,
{
}

/// No move drives the current player's count of actions below zero, and every accepted
/// move spends exactly one action.
pub proof fn lemma_moves_spend_one_action(g: GameView, tile_id: Seq<char>, kind: BuildingKind)
    requires
        has_current_player(g),
        current_player(g).actions_left_in_turn >= 0,
    ensures
        current_player(buy_outcome(g, tile_id).0).actions_left_in_turn >= 0,
        current_player(sell_outcome(g, tile_id).0).actions_left_in_turn >= 0,
        current_player(build_outcome(g, tile_id, kind).0).actions_left_in_turn >= 0,
        buy_outcome(g, tile_id).1 is Ok ==> current_player(buy_outcome(g, tile_id).0).actions_left_in_turn
            == current_player(g).actions_left_in_turn - 1,
        sell_outcome(g, tile_id).1 is Ok ==> current_player(sell_outcome(g, tile_id).0).actions_left_in_turn
            == current_player(g).actions_left_in_turn - 1,
        build_outcome(g, tile_id, kind).1 is Ok ==> current_player(
            build_outcome(g, tile_id, kind).0,
        ).actions_left_in_turn == current_player(g).actions_left_in_turn - 1,
{
}

/// A build never leaves the builder with a negative amount of a material it had none
/// negative of.
pub proof fn lemma_build_keeps_materials_nonnegative(
    g: GameView,
    tile_id: Seq<char>,
    kind: BuildingKind,
)
    requires
        has_current_player(g),
        current_player(g).materials.clay >= 0,
        current_player(g).materials.grain >= 0,
        current_player(g).materials.iron >= 0,
        current_player(g).materials.stone >= 0,
        current_player(g).materials.wood >= 0,
    ensures
        ({
            let m = current_player(build_outcome(g, tile_id, kind).0).materials;
            m.clay >= 0 && m.grain >= 0 && m.iron >= 0 && m.stone >= 0 && m.wood >= 0
        }),
{
}

/// Buying, selling, building and ending a turn all keep the turn order sound: the seat to
/// move is queued and every queued seat has a player.
pub proof fn lemma_moves_keep_turn_order(
    g: GameView,
    tile_id: Seq<char>,
    kind: BuildingKind,
    picks: Seq<int>,
)
    requires
        turn_order_ok(g),
    ensures
        turn_order_ok(buy_outcome(g, tile_id).0),
        turn_order_ok(sell_outcome(g, tile_id).0),
        turn_order_ok(build_outcome(g, tile_id, kind).0),
        turn_order_ok(tick_outcome(g, picks)),
{
    let q = g.queue;
    let i = choose|i: int| 0 <= i < q.len() && q[i] == g.current;
    lemma_first_position_exists(q, g.current, i);
    let pos = queue_position(q, g.current);
    let next = next_in_queue(q, g.current);
    let j = if pos == q.len() - 1 { 0 } else { pos + 1 };
    assert(q[j] == next);
    assert(tick_outcome(g, picks).queue.contains(next));
    assert(g.players.contains_key(player_key(g.current))) by {
        assert(g.players.contains_key(player_key(q[i])));
    }
}

/// Ending a turn gives the player back two actions and adds exactly five materials in
/// total per owned tile.
pub proof fn lemma_tick_restocks(g: GameView, picks: Seq<int>)
    requires
        has_current_player(g),
        tick_fits(g),
        picks.len() == owned_count(g.map),
        valid_picks(picks),
    ensures
        tick_outcome(g, picks).players[player_key(g.current)].actions_left_in_turn
            == 2,
        total(tick_outcome(g, picks).players[player_key(g.current)].materials) == total(
            current_player(g).materials,
        ) + 5 * owned_count(g.map),
{
    lemma_yields_applied(current_player(g).materials, picks);
}

/// The count of owned tiles is the number of tiles whose owner is a player.
pub proof fn lemma_owned_count_counts(tiles: Seq<TileView>)
    ensures
        owned_count(tiles) == tiles.filter(|t: TileView| t.owner == OwnerKind::Player).len(),
    decreases tiles.len(),
{
    reveal(Seq::filter);
    if tiles.len() > 0 {
        lemma_owned_count_counts(tiles.drop_last());
    }
}

/// Ending a turn charges the player 100 for every owned tile plus 100, whatever the
/// number of owned tiles (none included), gives back two actions, and touches no other
/// player.
pub proof fn lemma_tick_charges_upkeep(g: GameView, picks: Seq<int>)
    requires
        has_current_player(g),
        tick_fits(g),
    ensures
        ({
            let h = tick_outcome(g, picks);
            let key = player_key(g.current);
            let p = current_player(g);
            let n = g.map.filter(|t: TileView| t.owner == OwnerKind::Player).len();
            &&& h.players[key].cash == p.cash - (1 + n) * 100
            &&& h.players[key].actions_left_in_turn == 2
            &&& h.players[key].id == p.id
            &&& h.players[key].name == p.name
            &&& h.players.dom() == g.players.dom()
            &&& forall|k: u64| k != key ==> #[trigger] h.players[k] == g.players[k]
        }),
{
    lemma_owned_count_counts(g.map);
    let h = tick_outcome(g, picks);
    assert(h.players.dom() =~= g.players.dom());
}

/// Ending a turn leaves the board and the queue alone and grows the market by five wood.
pub proof fn lemma_tick_grows_market(g: GameView, picks: Seq<int>)
    requires
        tick_fits(g),
    ensures
        ({
            let h = tick_outcome(g, picks);
            &&& h.map == g.map
            &&& h.queue == g.queue
            &&& h.market.wood == g.market.wood + 5
            &&& h.market.clay == g.market.clay
            &&& h.market.grain == g.market.grain
            &&& h.market.iron == g.market.iron
            &&& h.market.stone == g.market.stone
        }),
{
}

/// The seat after `p` is the one following the first place of `p` in the queue, counting
/// round from the last place to the first.
pub proof fn lemma_next_seat(q: Seq<PlayerId>, p: PlayerId)
    requires
        q.contains(p),
    ensures
        exists|i: int|
            #[trigger] is_first_position(q, p, i) && next_in_queue(q, p) == q[(i + 1) % (
            q.len() as int)],
{
    let w = choose|i: int| 0 <= i < q.len() && q[i] == p;
    lemma_first_position_exists(q, p, w);
    let i = queue_position(q, p);
    let n = q.len() as int;
    let m = (i + 1) % n;
    if i == n - 1 {
        vstd::arithmetic::div_mod::lemma_mod_self_0(n);
        assert(m == 0);
    } else {
        vstd::arithmetic::div_mod::lemma_small_mod((i + 1) as nat, q.len());
        assert(m == i + 1);
    }
    assert(next_in_queue(q, p) == q[m]);
    assert(is_first_position(q, p, i));
}

/// Ending a turn hands it to the seat after the first place of the current seat in the
/// queue, counting round from the last place to the first.
pub proof fn lemma_tick_passes_turn(g: GameView, picks: Seq<int>)
    requires
        g.queue.contains(g.current),
    ensures
        exists|i: int|
            #[trigger] is_first_position(g.queue, g.current, i) && tick_outcome(g, picks).current
                == g.queue[(i + 1) % (g.queue.len() as int)],
{
    lemma_next_seat(g.queue, g.current);
    assert(tick_outcome(g, picks).current == next_in_queue(g.queue, g.current));
}

/// A purchase goes through exactly when the turn has an action left, the tile exists, is
/// not owned by a player and the buyer's cash covers its value. Then the first tile with
/// that id, and only it, passes to the player, the buyer pays its value and spends one
/// action, and nothing else changes. A refused purchase changes nothing.
pub proof fn lemma_purchase_effects(g: GameView, tile_id: Seq<char>)
    requires
        has_current_player(g),
        purchase_fits(g, tile_id),
    ensures
        ({
            let (h, r) = buy_outcome(g, tile_id);
            let key = player_key(g.current);
            let p = current_player(g);
            let pos = tile_position(g.map, tile_id);
            &&& r is Ok <==> (p.actions_left_in_turn > 0 && pos is Some && g.map[pos->0].owner
                != OwnerKind::Player && p.cash >= g.map[pos->0].value)
            &&& r is Err ==> h == g
            &&& r is Ok ==> {
                let i = pos->0;
                let t = g.map[i];
                &&& 0 <= i < g.map.len()
                &&& t.id == tile_id
                &&& h.map.len() == g.map.len()
                &&& h.map[i].owner == OwnerKind::Player
                &&& h.map[i].id == t.id
                &&& h.map[i].building == t.building
                &&& h.map[i].value == t.value
                &&& h.map[i].x == t.x && h.map[i].y == t.y
                &&& forall|j: int| 0 <= j < g.map.len() && j != i ==> #[trigger] h.map[j] == g.map[j]
                &&& h.players.dom() == g.players.dom()
                &&& h.players[key].cash == p.cash - t.value
                &&& h.players[key].actions_left_in_turn == p.actions_left_in_turn - 1
                &&& h.players[key].materials == p.materials
                &&& h.players[key].id == p.id && h.players[key].name == p.name
                &&& forall|k: u64| k != key ==> #[trigger] h.players[k] == g.players[k]
                &&& h.current == g.current && h.queue == g.queue && h.market == g.market
            }
        }),
{
    let (h, r) = buy_outcome(g, tile_id);
    if r is Ok {
        let i = tile_position(g.map, tile_id)->0;
        assert(is_first_with_id(g.map, tile_id, i));
        assert(h.players.dom() =~= g.players.dom());
    }
}

/// A build goes through exactly when the turn has an action left, the builder holds the
/// building's cost and the tile exists. Then the first tile with that id, whoever owns it,
/// carries the requested building and is otherwise unchanged, no other tile changes, the
/// builder pays the cost material by material and spends one action. Without an action or
/// the materials nothing changes; with them but without the tile, the cost is paid and no
/// action spent.
pub proof fn lemma_build_effects(g: GameView, tile_id: Seq<char>, kind: BuildingKind)
    requires
        has_current_player(g),
    ensures
        ({
            let (h, r) = build_outcome(g, tile_id, kind);
            let key = player_key(g.current);
            let p = current_player(g);
            let cost = build_cost(kind);
            let pos = tile_position(g.map, tile_id);
            &&& r is Ok <==> (p.actions_left_in_turn > 0 && covers(p.materials, cost) && pos is Some)
            &&& (p.actions_left_in_turn <= 0 || !covers(p.materials, cost)) ==> h == g
            &&& (p.actions_left_in_turn > 0 && covers(p.materials, cost)) ==> {
                &&& h.players.dom() == g.players.dom()
                &&& h.players[key].materials.clay == p.materials.clay - cost.clay
                &&& h.players[key].materials.grain == p.materials.grain - cost.grain
                &&& h.players[key].materials.iron == p.materials.iron - cost.iron
                &&& h.players[key].materials.stone == p.materials.stone - cost.stone
                &&& h.players[key].materials.wood == p.materials.wood - cost.wood
                &&& h.players[key].cash == p.cash
                &&& forall|k: u64| k != key ==> #[trigger] h.players[k] == g.players[k]
                &&& h.current == g.current && h.queue == g.queue && h.market == g.market
            }
            &&& (r is Err && pos is None) ==> h.map == g.map && h.players[key].actions_left_in_turn
                == p.actions_left_in_turn
            &&& r is Ok ==> {
                let i = pos->0;
                let t = g.map[i];
                &&& 0 <= i < g.map.len()
                &&& t.id == tile_id
                &&& h.map.len() == g.map.len()
                &&& h.map[i].building == kind
                &&& h.map[i].owner == t.owner
                &&& h.map[i].id == t.id && h.map[i].value == t.value
                &&& h.map[i].x == t.x && h.map[i].y == t.y
                &&& forall|j: int| 0 <= j < g.map.len() && j != i ==> #[trigger] h.map[j] == g.map[j]
                &&& h.players[key].actions_left_in_turn == p.actions_left_in_turn - 1
            }
        }),
{
    let (h, r) = build_outcome(g, tile_id, kind);
    let p = current_player(g);
    if p.actions_left_in_turn > 0 && covers(p.materials, build_cost(kind)) {
        assert(h.players.dom() =~= g.players.dom());
        if let Some(i) = tile_position(g.map, tile_id) {
            assert(is_first_with_id(g.map, tile_id, i));
        }
    }
}

/// A sale goes through exactly when the turn has an action left and the tile exists. Then
/// the first tile with that id, and only it, goes back to the game, the seller is paid its
/// value and spends one action. Without an action nothing changes; without the tile the
/// action is spent and nothing else changes.
pub proof fn lemma_sale_effects(g: GameView, tile_id: Seq<char>)
    requires
        has_current_player(g),
        sale_fits(g, tile_id),
    ensures
        ({
            let (h, r) = sell_outcome(g, tile_id);
            let key = player_key(g.current);
            let p = current_player(g);
            let pos = tile_position(g.map, tile_id);
            &&& r is Ok <==> (p.actions_left_in_turn > 0 && pos is Some)
            &&& p.actions_left_in_turn <= 0 ==> h == g
            &&& p.actions_left_in_turn > 0 ==> {
                &&& h.players.dom() == g.players.dom()
                &&& h.players[key].actions_left_in_turn == p.actions_left_in_turn - 1
                &&& h.players[key].materials == p.materials
                &&& forall|k: u64| k != key ==> #[trigger] h.players[k] == g.players[k]
                &&& h.current == g.current && h.queue == g.queue && h.market == g.market
            }
            &&& (p.actions_left_in_turn > 0 && pos is None) ==> h.map == g.map && h.players[key].cash
                == p.cash
            &&& r is Ok ==> {
                let i = pos->0;
                let t = g.map[i];
                &&& 0 <= i < g.map.len()
                &&& t.id == tile_id
                &&& h.map.len() == g.map.len()
                &&& h.map[i].owner == OwnerKind::Game
                &&& h.map[i].building == t.building && h.map[i].id == t.id
                &&& h.map[i].value == t.value && h.map[i].x == t.x && h.map[i].y == t.y
                &&& forall|j: int| 0 <= j < g.map.len() && j != i ==> #[trigger] h.map[j] == g.map[j]
                &&& h.players[key].cash == p.cash + t.value
            }
        }),
{
    let (h, r) = sell_outcome(g, tile_id);
    let p = current_player(g);
    if p.actions_left_in_turn > 0 {
        assert(h.players.dom() =~= g.players.dom());
        if let Some(i) = tile_position(g.map, tile_id) {
            assert(is_first_with_id(g.map, tile_id, i));
        }
    }
}

/// A generated tile's id is the decimal text of its x coordinate followed by that of its
/// y coordinate; in particular tiles at different positions in the first nine rows and
/// columns get different ids.
pub proof fn lemma_generated_ids(t: TileView, x: int, y: int, u: TileView, a: int, b: int)
    requires
        is_generated_tile(t, x, y),
        is_generated_tile(u, a, b),
        1 <= x <= 20,
        1 <= y <= 20,
    ensures
        t.id.subrange(0, int_to_decimal(x).len() as int) == int_to_decimal(x),
        t.id.subrange(int_to_decimal(x).len() as int, t.id.len() as int) == int_to_decimal(y),
        (1 <= x <= 9 && 1 <= y <= 9) ==> t.id == seq![digit_char(x as nat), digit_char(y as nat)],
        (1 <= x <= 9 && 1 <= y <= 9 && 1 <= a <= 9 && 1 <= b <= 9 && (x != a || y != b)) ==> t.id
            != u.id,
{
    let dx = int_to_decimal(x);
    assert(t.id.subrange(0, dx.len() as int) =~= dx);
    assert(t.id.subrange(dx.len() as int, t.id.len() as int) =~= int_to_decimal(y));
    if 1 <= x <= 9 && 1 <= y <= 9 {
        assert(decimal_digits(x as nat) == seq![digit_char(x as nat)]);
        assert(decimal_digits(y as nat) == seq![digit_char(y as nat)]);
        assert(t.id =~= seq![digit_char(x as nat), digit_char(y as nat)]);
        if 1 <= a <= 9 && 1 <= b <= 9 && (x != a || y != b) {
            assert(decimal_digits(a as nat) == seq![digit_char(a as nat)]);
            assert(decimal_digits(b as nat) == seq![digit_char(b as nat)]);
            assert(u.id =~= seq![digit_char(a as nat), digit_char(b as nat)]);
            if x != a {
                assert(t.id[0] != u.id[0]);
            } else {
                assert(t.id[1] != u.id[1]);
            }
        }
    }
}

/// `tile_position` finds the first tile carrying the id, and finds none only when no tile
/// carries it.
pub proof fn lemma_tile_position_is_first(tiles: Seq<TileView>, id: Seq<char>)
    ensures
        match tile_position(tiles, id) {
            Some(i) => 0 <= i < tiles.len() && tiles[i].id == id && forall|j: int|
                0 <= j < i ==> #[trigger] tiles[j].id != id,
            None => forall|j: int| 0 <= j < tiles.len() ==> #[trigger] tiles[j].id != id,
        },
{
    if tile_position(tiles, id) is None {
        assert forall|j: int| 0 <= j < tiles.len() implies #[trigger] tiles[j].id != id by {
            if tiles[j].id == id {
                lemma_some_first_with_id(tiles, id, j);
            }
        }
    }
}

proof fn lemma_some_first_with_id(tiles: Seq<TileView>, id: Seq<char>, j: int)
    requires
        0 <= j < tiles.len(),
        tiles[j].id == id,
    ensures
        exists|k: int| #[trigger] is_first_with_id(tiles, id, k),
    decreases j,
{
    if exists|k: int| 0 <= k < j && #[trigger] tiles[k].id == id {
        let k = choose|k: int| 0 <= k < j && #[trigger] tiles[k].id == id;
        lemma_some_first_with_id(tiles, id, k);
    } else {
        assert(is_first_with_id(tiles, id, j));
    }
}

/// The buildings a fresh tile may get, by value: an office from 394 up; an apartment or an
/// office from 368; an apartment, a house or a shop from 356; a house or a shop from 340;
/// a factory, a farm, a house or nothing from 320; nothing below 320.
pub proof fn lemma_default_building_bands(value: int)
    ensures
        value >= 394 ==> default_buildings(value) == seq![BuildingKind::OFFICE],
        368 <= value < 394 ==> default_buildings(value) == seq![BuildingKind::APARTMENT, BuildingKind::OFFICE],
        356 <= value < 368 ==> default_buildings(value) == seq![
            BuildingKind::APARTMENT,
            BuildingKind::HOUSE,
            BuildingKind::SHOP,
        ],
        340 <= value < 356 ==> default_buildings(value) == seq![BuildingKind::HOUSE, BuildingKind::SHOP],
        320 <= value < 340 ==> default_buildings(value) == seq![
            BuildingKind::FACTORY,
            BuildingKind::FARM,
            BuildingKind::HOUSE,
            BuildingKind::EMPTY,
        ],
        value < 320 ==> default_buildings(value) == seq![BuildingKind::EMPTY],
{
}

/// One tile's yield is five of a single material: clay, grain, iron, stone or wood for the
/// draws 0 to 4, and nothing of the others.
pub proof fn lemma_yield_is_five_of_one(i: int)
    requires
        0 <= i < 5,
    ensures
        total(yield_of(i)) == 5,
        yield_of(i).clay == (if i == 0 { 5int } else { 0 }),
        yield_of(i).grain == (if i == 1 { 5int } else { 0 }),
        yield_of(i).iron == (if i == 2 { 5int } else { 0 }),
        yield_of(i).stone == (if i == 3 { 5int } else { 0 }),
        yield_of(i).wood == (if i == 4 { 5int } else { 0 }),
{
}

} // verus!
