use kek_of_shadows::errors::GameError;
use kek_of_shadows::game::Game;
use kek_of_shadows::types::{Monster, StatBonus};

fn game_with_character() -> Game {
    let mut g = Game::new();
    g.create_character(
        "Hero".to_string(),
        "Human".to_string(),
        "Warrior".to_string(),
        "w".to_string(),
    )
    .unwrap();
    g
}

fn pushover() -> Monster {
    Monster {
        id: 1,
        name: "Slime".to_string(),
        level: 1,
        stats: vec![StatBonus { name: "health".to_string(), value: 1 }],
        exp_reward: 10,
        gold_reward: [5, 5],
    }
}

#[test]
fn unlocking_adjacent_node_spends_one_point_and_applies_effect() {
    let mut g = game_with_character();
    let sword_before = g.get_character().unwrap().sword;
    g.unlock_skill_node(1).unwrap();
    let c = g.get_character().unwrap();
    assert!(c.skill_tree[1].unlocked);
    assert_eq!(c.skill_points, 0);
    // Node 1 grants "+5 Sword".
    assert_eq!(c.sword, sword_before + 5);
}

#[test]
fn locked_prerequisite_is_rejected() {
    let mut g = game_with_character();
    // Node 3 is adjacent only to nodes 1 and 2, both still locked.
    let r = g.unlock_skill_node(3);
    assert_eq!(r, Err(GameError::InvalidState));
    let c = g.get_character().unwrap();
    assert!(!c.skill_tree[3].unlocked);
    assert_eq!(c.skill_points, 1);
}

#[test]
fn reunlocking_an_unlocked_node_is_rejected() {
    let mut g = game_with_character();
    let r = g.unlock_skill_node(0);
    assert_eq!(r, Err(GameError::InvalidState));
    assert_eq!(g.get_character().unwrap().skill_points, 1);
}

#[test]
fn unlock_without_skill_points_is_rejected() {
    let mut g = game_with_character();
    g.unlock_skill_node(1).unwrap();
    let r = g.unlock_skill_node(2);
    assert_eq!(r, Err(GameError::InsufficientResource));
    assert_eq!(g.get_character().unwrap().skill_points, 0);
}

#[test]
fn unknown_node_is_rejected() {
    let mut g = game_with_character();
    assert_eq!(g.unlock_skill_node(99), Err(GameError::NotFound));
}

#[test]
fn unlock_needs_a_character() {
    let mut g = Game::new();
    assert_eq!(g.unlock_skill_node(0), Err(GameError::NoCharacter));
}

#[test]
fn node_becomes_unlockable_once_a_neighbor_is_unlocked() {
    let mut g = game_with_character();
    g.unlock_skill_node(1).unwrap();
    // Earn one more skill point by defeating a monster.
    g.load_game_data(Vec::new(), vec![pushover()]).unwrap();
    g.fight_monster_with_rolls(0, 5, 2, 3).unwrap();
    assert_eq!(g.get_character().unwrap().skill_points, 1);
    let endurance_before = g.get_character().unwrap().endurance;
    // Node 3 is now adjacent to the unlocked node 1; it grants "+10 Health",
    // which raises endurance.
    g.unlock_skill_node(3).unwrap();
    let c = g.get_character().unwrap();
    assert!(c.skill_tree[3].unlocked);
    assert_eq!(c.endurance, endurance_before + 10);
    assert_eq!(c.skill_points, 0);
}
