use tile_game::map::{
    check_if_player_owns_tile, default_building_for_roll, find_tile_index, generate_map,
    get_build_cost, BuildingKind, MapTile, OwnerKind,
};
use tile_game::materials::Materials;

fn tile(id: &str, owner: OwnerKind, value: i64) -> MapTile {
    MapTile::new(BuildingKind::EMPTY, id.to_string(), owner, 0, 0, value)
}

#[test]
fn board_has_400_tiles_row_by_row() {
    let map = generate_map();
    assert_eq!(map.len(), 400);
    assert_eq!(map[0].get_position(), (1, 1));
    assert_eq!(map[0].get_id(), "11");
    assert_eq!(map[19].get_position(), (1, 20));
    assert_eq!(map[19].get_id(), "120");
    assert_eq!(map[20].get_position(), (2, 1));
    assert_eq!(map[399].get_position(), (20, 20));
    assert_eq!(map[399].get_id(), "2020");
}

#[test]
fn board_values_by_distance_from_centre() {
    let map = generate_map();
    for t in &map {
        let (x, y) = t.get_position();
        assert_eq!(t.get_value(), -(x - 10) * (x - 10) - (y - 10) * (y - 10) + 400);
        assert!(t.get_value() >= 200 && t.get_value() <= 400);
        assert_eq!(t.get_owner(), OwnerKind::Game);
        assert!(!t.is_owned_by_player());
    }
    // (1, 1): 400 - 81 - 81
    assert_eq!(map[0].get_value(), 238);
    // centre (10, 10)
    assert_eq!(map[9 * 20 + 9].get_value(), 400);
    // corner (20, 20)
    assert_eq!(map[399].get_value(), 200);
}

#[test]
fn board_buildings_follow_value_bands() {
    let map = generate_map();
    for t in &map {
        let v = t.get_value();
        let b = t.get_building();
        let allowed: Vec<BuildingKind> = if v >= 394 {
            vec![BuildingKind::OFFICE]
        } else if v >= 368 {
            vec![BuildingKind::APARTMENT, BuildingKind::OFFICE]
        } else if v >= 356 {
            vec![BuildingKind::APARTMENT, BuildingKind::HOUSE, BuildingKind::SHOP]
        } else if v >= 340 {
            vec![BuildingKind::HOUSE, BuildingKind::SHOP]
        } else if v >= 320 {
            vec![BuildingKind::FACTORY, BuildingKind::FARM, BuildingKind::HOUSE, BuildingKind::EMPTY]
        } else {
            vec![BuildingKind::EMPTY]
        };
        assert!(allowed.contains(&b));
    }
    assert_eq!(map[9 * 20 + 9].get_building(), BuildingKind::OFFICE);
    assert_eq!(map[0].get_building(), BuildingKind::EMPTY);
}

#[test]
fn building_for_each_band_and_roll() {
    assert_eq!(default_building_for_roll(400, 0), BuildingKind::OFFICE);
    assert_eq!(default_building_for_roll(394, 0), BuildingKind::OFFICE);
    assert_eq!(default_building_for_roll(393, 0), BuildingKind::APARTMENT);
    assert_eq!(default_building_for_roll(368, 1), BuildingKind::OFFICE);
    assert_eq!(default_building_for_roll(367, 0), BuildingKind::APARTMENT);
    assert_eq!(default_building_for_roll(356, 1), BuildingKind::HOUSE);
    assert_eq!(default_building_for_roll(356, 2), BuildingKind::SHOP);
    assert_eq!(default_building_for_roll(355, 0), BuildingKind::HOUSE);
    assert_eq!(default_building_for_roll(340, 1), BuildingKind::SHOP);
    assert_eq!(default_building_for_roll(339, 0), BuildingKind::FACTORY);
    assert_eq!(default_building_for_roll(320, 1), BuildingKind::FARM);
    assert_eq!(default_building_for_roll(320, 2), BuildingKind::HOUSE);
    assert_eq!(default_building_for_roll(320, 3), BuildingKind::EMPTY);
    assert_eq!(default_building_for_roll(319, 0), BuildingKind::EMPTY);
    assert_eq!(default_building_for_roll(-5, 0), BuildingKind::EMPTY);
}

#[test]
fn tile_getters_and_setters() {
    let mut t = MapTile::new(BuildingKind::FARM, "57".to_string(), OwnerKind::Game, 5, 7, 321);
    assert_eq!(t.get_id(), "57");
    assert_eq!(t.get_value(), 321);
    assert_eq!(t.get_building(), BuildingKind::FARM);
    assert_eq!(t.get_position(), (5, 7));
    assert!(!t.is_owned_by_player());
    t.set_owner_to_player();
    assert!(t.is_owned_by_player());
    assert_eq!(t.get_owner(), OwnerKind::Player);
    t.set_owner_to_game();
    assert_eq!(t.get_owner(), OwnerKind::Game);
    t.change_building(BuildingKind::SHOP);
    assert_eq!(t.get_building(), BuildingKind::SHOP);
    assert_eq!(t.get_value(), 321);
    assert_eq!(t.get_id(), "57");
}

#[test]
fn finding_tiles_by_id() {
    let map = vec![
        tile("a", OwnerKind::Game, 1),
        tile("b", OwnerKind::Player, 2),
        tile("b", OwnerKind::Game, 3),
    ];
    assert_eq!(find_tile_index(&map, "a"), Some(0));
    assert_eq!(find_tile_index(&map, "b"), Some(1));
    assert_eq!(find_tile_index(&map, "c"), None);
    assert_eq!(find_tile_index(&Vec::new(), "a"), None);
}

#[test]
fn generated_ids_repeat_and_the_first_wins() {
    let map = generate_map();
    // (1, 11) and (11, 1) both get the id "111"
    assert_eq!(map[10].get_id(), "111");
    assert_eq!(map[200].get_id(), "111");
    assert_eq!(find_tile_index(&map, "111"), Some(10));
}

#[test]
fn ownership_check_by_id() {
    let map = vec![
        tile("a", OwnerKind::Game, 1),
        tile("b", OwnerKind::Player, 2),
        tile("b", OwnerKind::Game, 3),
    ];
    assert!(!check_if_player_owns_tile("a", &map));
    assert!(check_if_player_owns_tile("b", &map));
    assert!(!check_if_player_owns_tile("zzz", &map));
}

#[test]
fn build_costs() {
    assert_eq!(get_build_cost(BuildingKind::EMPTY), Materials { clay: 0, grain: 0, iron: 0, stone: 0, wood: 0 });
    assert_eq!(get_build_cost(BuildingKind::HOUSE), Materials { clay: 10, grain: 0, iron: 0, stone: 10, wood: 20 });
    assert_eq!(get_build_cost(BuildingKind::FACTORY), Materials { clay: 10, grain: 0, iron: 30, stone: 20, wood: 10 });
    let fresh = Materials::init_player();
    for kind in [
        BuildingKind::APARTMENT,
        BuildingKind::EMPTY,
        BuildingKind::FACTORY,
        BuildingKind::FARM,
        BuildingKind::HOUSE,
        BuildingKind::OFFICE,
        BuildingKind::SHOP,
    ] {
        let c = get_build_cost(kind);
        assert!(c.clay >= 0 && c.grain >= 0 && c.iron >= 0 && c.stone >= 0 && c.wood >= 0);
        assert!(c.clay <= fresh.clay && c.grain <= fresh.grain && c.iron <= fresh.iron);
        assert!(c.stone <= fresh.stone && c.wood <= fresh.wood);
    }
}
