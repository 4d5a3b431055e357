use kek_of_shadows::errors::GameError;
use kek_of_shadows::game::Game;
use kek_of_shadows::types::InventoryItem;

fn created(race: &str, profession: &str) -> Game {
    let mut g = Game::new();
    g.create_character(
        "Hero".to_string(),
        race.to_string(),
        profession.to_string(),
        "wallet-1".to_string(),
    )
    .unwrap();
    g
}

#[test]
fn human_warrior_starts_with_table_row() {
    let g = created("Human", "Warrior");
    let c = g.get_character().unwrap();
    assert_eq!(c.level, 1);
    assert_eq!(c.experience, 0);
    assert_eq!(c.gold, 100);
    assert_eq!(c.skill_points, 1);
    assert_eq!(
        (c.strength, c.endurance, c.wisdom, c.mystic),
        (15, 15, 5, 5)
    );
    assert_eq!(
        (c.agility, c.accuracy, c.intellect, c.luck),
        (10, 10, 5, 5)
    );
    assert_eq!(c.equipment.weapon, Some("Iron Sword".to_string()));
    assert_eq!(c.equipment.shield, Some("Steel Shield".to_string()));
    assert_eq!(c.equipment.armor, None);
    assert_eq!(c.sword, 10);
    assert_eq!(c.shield_skill, 10);
    assert_eq!(c.magic, 0);
    assert_eq!(c.bow, 0);
    assert_eq!(c.mining, 0);
    assert_eq!(c.location, "Town");
    assert_eq!((c.x, c.y), (5, 5));
}

#[test]
fn elf_mage_starts_with_table_row() {
    let g = created("Elf", "Mage");
    let c = g.get_character().unwrap();
    assert_eq!(
        (c.strength, c.endurance, c.wisdom, c.mystic),
        (5, 5, 15, 15)
    );
    assert_eq!(
        (c.agility, c.accuracy, c.intellect, c.luck),
        (10, 5, 15, 5)
    );
    assert_eq!(c.equipment.weapon, Some("Magic Staff".to_string()));
    assert_eq!(c.equipment.shield, None);
    assert_eq!(c.magic, 10);
    assert_eq!(c.sword, 0);
}

#[test]
fn orc_archer_starts_with_table_row() {
    let g = created("Orc", "Archer");
    let c = g.get_character().unwrap();
    assert_eq!(
        (c.strength, c.endurance, c.wisdom, c.mystic),
        (10, 10, 5, 5)
    );
    assert_eq!(
        (c.agility, c.accuracy, c.intellect, c.luck),
        (15, 15, 5, 5)
    );
    assert_eq!(c.equipment.weapon, Some("Bow".to_string()));
    assert_eq!(c.bow, 10);
}

#[test]
fn dwarf_blacksmith_starts_with_table_row() {
    let g = created("Dwarf", "Blacksmith");
    let c = g.get_character().unwrap();
    assert_eq!(
        (c.strength, c.endurance, c.wisdom, c.mystic),
        (15, 15, 5, 5)
    );
    assert_eq!(
        (c.agility, c.accuracy, c.intellect, c.luck),
        (5, 5, 10, 10)
    );
    assert_eq!(c.equipment.weapon, Some("Blacksmith Hammer".to_string()));
    assert_eq!(c.mining, 10);
}

#[test]
fn unmatched_pair_gets_uniform_default() {
    let g = created("Human", "Mage");
    let c = g.get_character().unwrap();
    assert_eq!(
        (c.strength, c.endurance, c.wisdom, c.mystic),
        (10, 10, 10, 10)
    );
    assert_eq!(
        (c.agility, c.accuracy, c.intellect, c.luck),
        (10, 10, 10, 10)
    );
    assert_eq!(c.equipment.weapon, None);
    assert_eq!(c.equipment.shield, None);
    // The profession seed applies whatever the pair.
    assert_eq!(c.magic, 10);
    assert_eq!(c.level, 1);
    assert_eq!(c.gold, 100);
}

#[test]
fn invalid_race_is_rejected() {
    let mut g = Game::new();
    let r = g.create_character(
        "Hero".to_string(),
        "Gnome".to_string(),
        "Warrior".to_string(),
        "w".to_string(),
    );
    assert_eq!(r, Err(GameError::InvalidInput));
    assert!(g.get_character().is_err());
}

#[test]
fn invalid_profession_is_rejected() {
    let mut g = Game::new();
    let r = g.create_character(
        "Hero".to_string(),
        "Human".to_string(),
        "Bard".to_string(),
        "w".to_string(),
    );
    assert_eq!(r, Err(GameError::InvalidInput));
    assert!(g.get_character().is_err());
}

#[test]
fn starting_inventory_and_tree() {
    let g = created("Human", "Warrior");
    let inv = g.get_inventory().unwrap();
    assert_eq!(
        inv.as_slice(),
        &[
            InventoryItem { item_id: 1, quantity: 1 },
            InventoryItem { item_id: 2, quantity: 1 },
        ]
    );
    let c = g.get_character().unwrap();
    assert_eq!(c.skill_tree.len(), 4);
    assert!(c.skill_tree[0].unlocked);
    assert!(!c.skill_tree[1].unlocked);
    assert!(!c.skill_tree[2].unlocked);
    assert!(!c.skill_tree[3].unlocked);
    assert_eq!(c.skill_tree[0].skill, "+5 Strength");
    assert_eq!(c.skill_tree[1].connections, vec![0, 3]);
}

#[test]
fn creation_pushes_self_entry_for_peers() {
    let g = created("Human", "Warrior");
    assert_eq!(g.other_players.len(), 1);
    let p = &g.other_players[0];
    assert_eq!(p.wallet, "wallet-1");
    assert_eq!(p.name, "Hero");
    assert_eq!(p.level, 1);
    assert_eq!(p.location, "Town");
    assert_eq!((p.x, p.y), (5, 5));
    assert_eq!(p.equipment.weapon, Some("Iron Sword".to_string()));
}

#[test]
fn recreation_replaces_character() {
    let mut g = created("Human", "Warrior");
    g.create_character(
        "Other".to_string(),
        "Elf".to_string(),
        "Mage".to_string(),
        "wallet-2".to_string(),
    )
    .unwrap();
    let c = g.get_character().unwrap();
    assert_eq!(c.name, "Other");
    assert_eq!(c.magic, 10);
    // The registry accumulates a self entry per creation.
    assert_eq!(g.other_players.len(), 2);
}
