use tile_game::map::{generate_map, MapTile};
use tile_game::materials::Materials;
use tile_game::player::{Player, PlayerId};

#[test]
fn fresh_player() {
    let p = Player::init("Enemy");
    assert_eq!(p.id, "Enemy");
    assert_eq!(p.name, "Kacper");
    assert_eq!(p.actions_left_in_turn, 2);
    assert_eq!(p.cash, 10000000);
    assert_eq!(p.materials, Materials::init_player());
}

#[test]
fn seat_keys() {
    assert_eq!(PlayerId::Player.key(), 0);
    assert_eq!(PlayerId::Enemy.key(), 1);
}

#[test]
fn cash_goes_up_and_down() {
    let mut p = Player::init("Player");
    p.add_cash(250);
    assert_eq!(p.get_cash(), 10000250);
    p.subtract_cash(10000500);
    assert_eq!(p.get_cash(), -250);
}

#[test]
fn adding_then_subtracting_cash_restores_it() {
    let mut p = Player::init("Player");
    p.add_cash(12345);
    p.subtract_cash(12345);
    assert_eq!(p.cash, 10000000);
}

#[test]
fn two_actions_per_turn() {
    let mut p = Player::init("Player");
    assert!(!p.check_if_out_of_actions_left());
    assert_eq!(p.take_one_action(), Ok("Action deleted sucessfully".to_string()));
    assert_eq!(p.actions_left_in_turn, 1);
    assert_eq!(p.take_one_action(), Ok("Action deleted sucessfully".to_string()));
    assert_eq!(p.actions_left_in_turn, 0);
    assert!(p.check_if_out_of_actions_left());
    assert_eq!(p.take_one_action(), Err("Not enough actions left".to_string()));
    assert_eq!(p.actions_left_in_turn, 0);
}

#[test]
fn negative_actions_count_as_none_left() {
    let mut p = Player::init("Player");
    p.actions_left_in_turn = -3;
    assert!(p.check_if_out_of_actions_left());
    assert!(p.take_one_action().is_err());
    assert_eq!(p.actions_left_in_turn, -3);
}

#[test]
fn affording_and_paying_materials() {
    let mut p = Player::init("Player");
    let cost = Materials { clay: 50, grain: 0, iron: 10, stone: 49, wood: 1 };
    assert!(p.check_if_can_afford(cost));
    assert!(!p.check_if_can_afford(Materials { clay: 51, grain: 0, iron: 0, stone: 0, wood: 0 }));
    p.subtract_materials(cost);
    assert_eq!(p.materials, Materials { clay: 0, grain: 50, iron: 40, stone: 1, wood: 49 });
    assert!(!p.check_if_can_afford(cost));
}

#[test]
fn materials_grow_by_five_per_tile() {
    let map = generate_map();
    let tiles: Vec<&MapTile> = map.iter().take(7).collect();
    let mut p = Player::init("Player");
    let before = p.materials;
    let after = p.change_materials(&tiles);
    assert_eq!(p.materials, before);
    let total = |m: &Materials| m.clay + m.grain + m.iron + m.stone + m.wood;
    assert_eq!(total(&after), total(&before) + 35);
    assert!(after.clay >= 50 && after.grain >= 50 && after.iron >= 50);
    assert!(after.stone >= 50 && after.wood >= 50);
    for v in [after.clay, after.grain, after.iron, after.stone, after.wood] {
        assert_eq!((v - 50) % 5, 0);
    }
}

#[test]
fn no_tiles_no_materials() {
    let tiles: Vec<&MapTile> = Vec::new();
    let mut p = Player::init("Player");
    assert_eq!(p.change_materials(&tiles), Materials::init_player());
}
