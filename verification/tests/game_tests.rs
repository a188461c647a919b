use std::collections::HashMap;
use tile_game::game::Game;
use tile_game::map::{BuildingKind, MapTile, OwnerKind};
use tile_game::materials::Materials;
use tile_game::player::{Player, PlayerId};

fn tile(id: &str, owner: OwnerKind, value: i64) -> MapTile {
    MapTile::new(BuildingKind::EMPTY, id.to_string(), owner, 0, 0, value)
}

fn small_game() -> Game {
    let mut players = HashMap::new();
    players.insert(PlayerId::Player.key(), Player::init("Player"));
    players.insert(PlayerId::Enemy.key(), Player::init("Enemy"));
    Game {
        current_player_turn: PlayerId::Player,
        map: vec![
            tile("11", OwnerKind::Game, 300),
            tile("12", OwnerKind::Player, 250),
            tile("13", OwnerKind::Game, 400),
        ],
        market: Materials::init_market(),
        players,
        players_queue: vec![PlayerId::Enemy, PlayerId::Player],
    }
}

fn current(g: &Game) -> &Player {
    g.players.get(&g.current_player_turn.key()).unwrap()
}

#[test]
fn new_game() {
    let g = Game::new();
    assert_eq!(g.current_player_turn, PlayerId::Player);
    assert_eq!(g.players_queue, vec![PlayerId::Enemy, PlayerId::Player]);
    assert_eq!(g.market, Materials::init_market());
    assert_eq!(g.players.len(), 2);
    assert_eq!(g.players[&PlayerId::Player.key()].id, "Player");
    assert_eq!(g.players[&PlayerId::Enemy.key()].id, "Enemy");
    assert_eq!(g.players[&PlayerId::Enemy.key()].cash, 10000000);
    assert_eq!(g.map.len(), 400);
}

#[test]
fn next_turn_wraps_round_the_queue() {
    let mut g = small_game();
    assert_eq!(g.get_next_turn_player(), PlayerId::Enemy);
    g.current_player_turn = PlayerId::Enemy;
    assert_eq!(g.get_next_turn_player(), PlayerId::Player);
}

#[test]
fn next_turn_in_a_longer_queue() {
    let mut g = small_game();
    g.players_queue = vec![PlayerId::Player, PlayerId::Enemy, PlayerId::Player];
    // the first place of the current seat decides
    assert_eq!(g.get_next_turn_player(), PlayerId::Enemy);
    g.current_player_turn = PlayerId::Enemy;
    assert_eq!(g.get_next_turn_player(), PlayerId::Player);
}

#[test]
fn buying_a_tile() {
    let mut g = small_game();
    let r = Game::buy_map_tile("13", &mut g);
    assert_eq!(r, Ok("Successfully bought tile 13 for $400".to_string()));
    assert!(g.map[2].is_owned_by_player());
    assert_eq!(current(&g).cash, 10000000 - 400);
    assert_eq!(current(&g).actions_left_in_turn, 1);
    assert_eq!(g.players[&PlayerId::Enemy.key()].cash, 10000000);
}

#[test]
fn buying_an_owned_tile_is_refused() {
    let mut g = small_game();
    let r = Game::buy_map_tile("12", &mut g);
    assert_eq!(r, Err("Tile is already owned".to_string()));
    assert_eq!(current(&g).cash, 10000000);
    assert_eq!(current(&g).actions_left_in_turn, 2);
}

#[test]
fn buying_an_unknown_tile_is_refused() {
    let mut g = small_game();
    let r = Game::buy_map_tile("99", &mut g);
    assert_eq!(r, Err("Tile with id 99 not found".to_string()));
    assert_eq!(current(&g).actions_left_in_turn, 2);
}

#[test]
fn buying_without_cash_is_refused() {
    let mut g = small_game();
    g.players.get_mut(&PlayerId::Player.key()).unwrap().cash = 399;
    let r = Game::buy_map_tile("13", &mut g);
    assert_eq!(r, Err("Not enough cash to buy this tile".to_string()));
    assert!(!g.map[2].is_owned_by_player());
    assert_eq!(current(&g).cash, 399);
}

#[test]
fn buying_with_exact_cash_succeeds() {
    let mut g = small_game();
    g.players.get_mut(&PlayerId::Player.key()).unwrap().cash = 400;
    assert!(Game::buy_map_tile("13", &mut g).is_ok());
    assert_eq!(current(&g).cash, 0);
}

#[test]
fn buying_without_actions_is_refused() {
    let mut g = small_game();
    assert!(Game::buy_map_tile("11", &mut g).is_ok());
    assert!(Game::buy_map_tile("13", &mut g).is_ok());
    let r = Game::buy_map_tile("11", &mut g);
    assert_eq!(r, Err("No actions left in this turn".to_string()));
    g.map[0].set_owner_to_game();
    let r = Game::buy_map_tile("11", &mut g);
    assert_eq!(r, Err("No actions left in this turn".to_string()));
    assert_eq!(current(&g).cash, 10000000 - 700);
}

#[test]
fn selling_a_tile() {
    let mut g = small_game();
    let r = Game::sell_map_tile("12", &mut g);
    assert_eq!(r, Ok("MapTile has been sold".to_string()));
    assert!(!g.map[1].is_owned_by_player());
    assert_eq!(current(&g).cash, 10000250);
    assert_eq!(current(&g).actions_left_in_turn, 1);
}

#[test]
fn selling_an_unknown_tile_still_spends_the_action() {
    let mut g = small_game();
    let r = Game::sell_map_tile("77", &mut g);
    assert_eq!(r, Err("Tile with id 77 not found".to_string()));
    assert_eq!(current(&g).actions_left_in_turn, 1);
    assert_eq!(current(&g).cash, 10000000);
}

#[test]
fn selling_without_actions_is_refused() {
    let mut g = small_game();
    g.players.get_mut(&PlayerId::Player.key()).unwrap().actions_left_in_turn = 0;
    let r = Game::sell_map_tile("12", &mut g);
    assert_eq!(r, Err("No actions left in this turn".to_string()));
    assert!(g.map[1].is_owned_by_player());
    assert_eq!(current(&g).cash, 10000000);
}

#[test]
fn buy_then_sell_restores_cash() {
    let mut g = small_game();
    assert!(Game::buy_map_tile("11", &mut g).is_ok());
    assert!(Game::sell_map_tile("11", &mut g).is_ok());
    assert_eq!(current(&g).cash, 10000000);
    assert!(!g.map[0].is_owned_by_player());
    assert_eq!(current(&g).actions_left_in_turn, 0);
}

#[test]
fn building_on_a_tile() {
    let mut g = small_game();
    let r = Game::change_building("11", BuildingKind::HOUSE, &mut g);
    assert_eq!(r, Ok("Building's been changed.".to_string()));
    assert_eq!(g.map[0].get_building(), BuildingKind::HOUSE);
    assert_eq!(
        current(&g).materials,
        Materials { clay: 40, grain: 50, iron: 50, stone: 40, wood: 30 }
    );
    assert_eq!(current(&g).actions_left_in_turn, 1);
}

#[test]
fn building_without_materials_is_refused() {
    let mut g = small_game();
    g.players.get_mut(&PlayerId::Player.key()).unwrap().materials.iron = 29;
    let r = Game::change_building("11", BuildingKind::FACTORY, &mut g);
    assert_eq!(r, Err("Not enough materials to build".to_string()));
    assert_eq!(g.map[0].get_building(), BuildingKind::EMPTY);
    assert_eq!(current(&g).actions_left_in_turn, 2);
}

#[test]
fn building_without_actions_is_refused() {
    let mut g = small_game();
    g.players.get_mut(&PlayerId::Player.key()).unwrap().actions_left_in_turn = 0;
    let r = Game::change_building("11", BuildingKind::SHOP, &mut g);
    assert_eq!(r, Err("No actions left in this turn".to_string()));
    assert_eq!(current(&g).materials, Materials::init_player());
}

#[test]
fn building_on_an_unknown_tile_still_pays() {
    let mut g = small_game();
    let r = Game::change_building("nope", BuildingKind::SHOP, &mut g);
    assert_eq!(r, Err("Tile with id nope not found".to_string()));
    assert_eq!(
        current(&g).materials,
        Materials { clay: 40, grain: 50, iron: 50, stone: 40, wood: 40 }
    );
    assert_eq!(current(&g).actions_left_in_turn, 2);
}

#[test]
fn ending_a_turn() {
    let mut g = small_game();
    g.players.get_mut(&PlayerId::Player.key()).unwrap().actions_left_in_turn = 0;
    Game::tick(&mut g);
    let p = &g.players[&PlayerId::Player.key()];
    // one owned tile: upkeep (1 + 1) * 100
    assert_eq!(p.cash, 10000000 - 200);
    assert_eq!(p.actions_left_in_turn, 2);
    let m = p.materials;
    assert_eq!(m.clay + m.grain + m.iron + m.stone + m.wood, 250 + 5);
    assert_eq!(g.market.wood, 105);
    assert_eq!(g.market.clay, 100);
    assert_eq!(g.current_player_turn, PlayerId::Enemy);
    assert_eq!(g.players[&PlayerId::Enemy.key()].cash, 10000000);
}

#[test]
fn turns_go_round() {
    let mut g = small_game();
    Game::tick(&mut g);
    assert_eq!(g.current_player_turn, PlayerId::Enemy);
    Game::tick(&mut g);
    assert_eq!(g.current_player_turn, PlayerId::Player);
    // a tile owned by a player counts for whichever seat ends its turn: upkeep (1 + 1) * 100
    assert_eq!(g.players[&PlayerId::Enemy.key()].cash, 10000000 - 200);
    assert_eq!(g.market.wood, 110);
}
