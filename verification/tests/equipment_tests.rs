use kek_of_shadows::errors::GameError;
use kek_of_shadows::game::Game;
use kek_of_shadows::types::{Item, StatBonus};

fn game_with_character() -> Game {
    let mut g = Game::new();
    g.create_character(
        "Hero".to_string(),
        "Human".to_string(),
        "Warrior".to_string(),
        "w".to_string(),
    )
    .unwrap();
    g
}

fn sword_item(slot: &str, stats: Vec<StatBonus>) -> Item {
    Item {
        id: 1,
        name: "Sword of Dawn".to_string(),
        type_: "weapon".to_string(),
        slot: slot.to_string(),
        stats,
        value: 120,
    }
}

#[test]
fn equipping_binds_slot_removes_unit_and_applies_bonuses() {
    let mut g = game_with_character();
    g.load_game_data(
        vec![sword_item(
            "weapon",
            vec![
                StatBonus { name: "strength".to_string(), value: 5 },
                StatBonus { name: "accuracy".to_string(), value: 2 },
            ],
        )],
        Vec::new(),
    )
    .unwrap();
    // The starting inventory holds one unit of item 1.
    g.equip_item(1).unwrap();
    let c = g.get_character().unwrap();
    assert_eq!(c.equipment.weapon, Some("Sword of Dawn".to_string()));
    assert_eq!(c.strength, 20);
    assert_eq!(c.accuracy, 12);
    // The single unit was consumed, so its stack is gone.
    assert!(g.get_inventory().unwrap().iter().all(|s| s.item_id != 1));
}

#[test]
fn equipping_overwrites_the_previous_occupant() {
    let mut g = game_with_character();
    g.load_game_data(vec![sword_item("weapon", Vec::new())], Vec::new()).unwrap();
    assert_eq!(
        g.get_character().unwrap().equipment.weapon,
        Some("Iron Sword".to_string())
    );
    g.equip_item(1).unwrap();
    let c = g.get_character().unwrap();
    // The previous weapon is destroyed, not returned to the inventory.
    assert_eq!(c.equipment.weapon, Some("Sword of Dawn".to_string()));
    assert!(g.get_inventory().unwrap().iter().all(|s| s.item_id != 1));
}

#[test]
fn unknown_catalog_item_is_rejected() {
    let mut g = game_with_character();
    assert_eq!(g.equip_item(42), Err(GameError::NotFound));
}

#[test]
fn item_not_held_is_rejected() {
    let mut g = game_with_character();
    let mut item = sword_item("weapon", Vec::new());
    item.id = 9;
    g.load_game_data(vec![item], Vec::new()).unwrap();
    assert_eq!(g.equip_item(9), Err(GameError::NotFound));
}

#[test]
fn unrecognized_slot_is_rejected_before_any_change() {
    let mut g = game_with_character();
    g.load_game_data(vec![sword_item("tail", Vec::new())], Vec::new()).unwrap();
    let inventory_before = g.get_inventory().unwrap().clone();
    assert_eq!(g.equip_item(1), Err(GameError::InvalidInput));
    // Nothing was removed from the inventory.
    assert_eq!(*g.get_inventory().unwrap(), inventory_before);
}

#[test]
fn unrecognized_stat_names_are_silently_ignored() {
    let mut g = game_with_character();
    g.load_game_data(
        vec![sword_item(
            "ring",
            vec![
                StatBonus { name: "luck".to_string(), value: 9 },
                StatBonus { name: "magic".to_string(), value: 3 },
            ],
        )],
        Vec::new(),
    )
    .unwrap();
    g.equip_item(1).unwrap();
    let c = g.get_character().unwrap();
    // "luck" is not a bonus the equipment manager recognizes.
    assert_eq!(c.luck, 5);
    assert_eq!(c.magic, 3);
    assert_eq!(c.equipment.ring, Some("Sword of Dawn".to_string()));
}

#[test]
fn equipping_needs_a_character() {
    let mut g = Game::new();
    assert_eq!(g.equip_item(1), Err(GameError::NoCharacter));
}
