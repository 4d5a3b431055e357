use kek_of_shadows::errors::GameError;
use kek_of_shadows::game::Game;
use kek_of_shadows::types::{Monster, StatBonus, TileMap};

fn game_with_character() -> Game {
    let mut g = Game::new();
    g.create_character(
        "Hero".to_string(),
        "Human".to_string(),
        "Warrior".to_string(),
        "w".to_string(),
    )
    .unwrap();
    g
}

fn map_with_wall() -> TileMap {
    // A 3 x 2 map whose tile (1, 0) is impassable.
    TileMap {
        width: 3,
        height: 2,
        tiles: vec![
            vec!["grass".to_string(), "stone".to_string(), "grass".to_string()],
            vec!["grass".to_string(), "grass".to_string(), "water".to_string()],
        ],
        collisions: vec![vec![false, true, false], vec![false, false, false]],
    }
}

#[test]
fn moving_onto_a_collision_tile_is_rejected() {
    let mut g = game_with_character();
    g.load_map("Town".to_string(), map_with_wall()).unwrap();
    let r = g.update_position(1, 0, "Town".to_string());
    assert_eq!(r, Err(GameError::OutOfBounds));
    let c = g.get_character().unwrap();
    assert_eq!((c.x, c.y), (5, 5));
}

#[test]
fn moving_outside_the_grid_is_rejected() {
    let mut g = game_with_character();
    g.load_map("Town".to_string(), map_with_wall()).unwrap();
    assert_eq!(
        g.update_position(3, 0, "Town".to_string()),
        Err(GameError::OutOfBounds)
    );
    assert_eq!(
        g.update_position(0, 2, "Town".to_string()),
        Err(GameError::OutOfBounds)
    );
}

#[test]
fn valid_move_overwrites_position_and_location() {
    let mut g = game_with_character();
    g.load_map("Harbor".to_string(), map_with_wall()).unwrap();
    g.update_position(2, 1, "Harbor".to_string()).unwrap();
    let c = g.get_character().unwrap();
    assert_eq!((c.x, c.y), (2, 1));
    assert_eq!(c.location, "Harbor");
}

#[test]
fn moving_on_an_unloaded_map_is_rejected() {
    let mut g = game_with_character();
    assert_eq!(
        g.update_position(0, 0, "Nowhere".to_string()),
        Err(GameError::NotFound)
    );
}

#[test]
fn movement_needs_a_character() {
    let mut g = Game::new();
    g.load_map("Town".to_string(), map_with_wall()).unwrap();
    assert_eq!(
        g.update_position(0, 0, "Town".to_string()),
        Err(GameError::NoCharacter)
    );
}

#[test]
fn mismatched_grid_dimensions_are_rejected() {
    let mut g = game_with_character();
    let mut bad = map_with_wall();
    bad.collisions.pop();
    assert_eq!(
        g.load_map("Town".to_string(), bad),
        Err(GameError::InvalidInput)
    );
    let mut short_row = map_with_wall();
    short_row.tiles[1].pop();
    assert_eq!(
        g.load_map("Town".to_string(), short_row),
        Err(GameError::InvalidInput)
    );
}

#[test]
fn reloading_a_location_replaces_its_map() {
    let mut g = game_with_character();
    g.load_map("Town".to_string(), map_with_wall()).unwrap();
    let mut open = map_with_wall();
    open.collisions[0][1] = false;
    g.load_map("Town".to_string(), open).unwrap();
    // The wall of the first load is gone.
    g.update_position(1, 0, "Town".to_string()).unwrap();
    assert_eq!(g.get_character().unwrap().x, 1);
}

#[test]
fn malformed_gold_range_rejects_the_whole_catalog() {
    let mut g = game_with_character();
    let bad = Monster {
        id: 1,
        name: "Imp".to_string(),
        level: 1,
        stats: vec![StatBonus { name: "health".to_string(), value: 1 }],
        exp_reward: 5,
        gold_reward: [9, 3],
    };
    assert_eq!(
        g.load_game_data(Vec::new(), vec![bad]),
        Err(GameError::InvalidInput)
    );
    assert!(g.monsters.is_empty());
}
