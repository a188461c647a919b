use tile_game::materials::Materials;

fn total(m: &Materials) -> i64 {
    m.clay + m.grain + m.iron + m.stone + m.wood
}

#[test]
fn market_opens_with_100_of_each() {
    let m = Materials::init_market();
    assert_eq!(m, Materials { clay: 100, grain: 100, iron: 100, stone: 100, wood: 100 });
}

#[test]
fn player_opens_with_50_of_each() {
    let m = Materials::init_player();
    assert_eq!(m, Materials { clay: 50, grain: 50, iron: 50, stone: 50, wood: 50 });
}

#[test]
fn get_all_materials_returns_the_stock() {
    let m = Materials { clay: 1, grain: 2, iron: 3, stone: 4, wood: 5 };
    assert_eq!(*m.get_all_materials(), m);
}

#[test]
fn market_grows_five_wood_per_tick() {
    let mut m = Materials::init_market();
    m.add_per_tick();
    m.add_per_tick();
    assert_eq!(m, Materials { clay: 100, grain: 100, iron: 100, stone: 100, wood: 110 });
}

#[test]
fn material_keys_in_field_order() {
    assert_eq!(Materials::get_material_keys(), ["clay", "grain", "iron", "stone", "wood"]);
}

#[test]
fn yield_for_each_key() {
    assert_eq!(Materials::yield_for_key(0), Materials { clay: 5, grain: 0, iron: 0, stone: 0, wood: 0 });
    assert_eq!(Materials::yield_for_key(1), Materials { clay: 0, grain: 5, iron: 0, stone: 0, wood: 0 });
    assert_eq!(Materials::yield_for_key(2), Materials { clay: 0, grain: 0, iron: 5, stone: 0, wood: 0 });
    assert_eq!(Materials::yield_for_key(3), Materials { clay: 0, grain: 0, iron: 0, stone: 5, wood: 0 });
    assert_eq!(Materials::yield_for_key(4), Materials { clay: 0, grain: 0, iron: 0, stone: 0, wood: 5 });
}

#[test]
fn random_materials_yield_five_of_one_material() {
    for _ in 0..200 {
        let m = Materials::get_random_materials();
        assert_eq!(total(&m), 5);
        let fields = [m.clay, m.grain, m.iron, m.stone, m.wood];
        assert_eq!(fields.iter().filter(|&&v| v == 5).count(), 1);
        assert!(fields.iter().all(|&v| v == 0 || v == 5));
    }
}

#[test]
fn random_materials_reach_every_material() {
    let mut seen = [false; 5];
    for _ in 0..2000 {
        let m = Materials::get_random_materials();
        let fields = [m.clay, m.grain, m.iron, m.stone, m.wood];
        for (i, v) in fields.iter().enumerate() {
            if *v == 5 {
                seen[i] = true;
            }
        }
    }
    assert!(seen.iter().all(|&s| s));
}
