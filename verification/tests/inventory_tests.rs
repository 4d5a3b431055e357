use kek_of_shadows::errors::GameError;
use kek_of_shadows::game::Game;
use kek_of_shadows::types::InventoryItem;

fn game_with_character() -> Game {
    let mut g = Game::new();
    g.create_character(
        "Hero".to_string(),
        "Human".to_string(),
        "Warrior".to_string(),
        "w".to_string(),
    )
    .unwrap();
    g
}

fn inventory_of(g: &Game) -> Vec<InventoryItem> {
    g.get_inventory().unwrap().clone()
}

#[test]
fn add_new_then_remove_restores_prior_state() {
    let mut g = game_with_character();
    let before = inventory_of(&g);
    g.add_to_inventory(7, 3).unwrap();
    assert_eq!(
        inventory_of(&g).last(),
        Some(&InventoryItem { item_id: 7, quantity: 3 })
    );
    g.remove_from_inventory(7, 3).unwrap();
    // The depleted stack is removed, not left at zero.
    assert_eq!(inventory_of(&g), before);
}

#[test]
fn add_existing_then_remove_restores_prior_state() {
    let mut g = game_with_character();
    let before = inventory_of(&g);
    g.add_to_inventory(1, 2).unwrap();
    assert_eq!(
        inventory_of(&g)[0],
        InventoryItem { item_id: 1, quantity: 3 }
    );
    g.remove_from_inventory(1, 2).unwrap();
    assert_eq!(inventory_of(&g), before);
}

#[test]
fn remove_more_than_held_fails_and_changes_nothing() {
    let mut g = game_with_character();
    let before = inventory_of(&g);
    let r = g.remove_from_inventory(1, 5);
    assert_eq!(r, Err(GameError::InsufficientResource));
    assert_eq!(inventory_of(&g), before);
}

#[test]
fn remove_missing_item_fails() {
    let mut g = game_with_character();
    let r = g.remove_from_inventory(99, 1);
    assert_eq!(r, Err(GameError::NotFound));
}

#[test]
fn exact_depletion_removes_the_stack() {
    let mut g = game_with_character();
    g.remove_from_inventory(1, 1).unwrap();
    let inv = inventory_of(&g);
    assert_eq!(inv, vec![InventoryItem { item_id: 2, quantity: 1 }]);
    assert!(inv.iter().all(|s| s.quantity > 0));
}

#[test]
fn partial_removal_keeps_the_stack() {
    let mut g = game_with_character();
    g.add_to_inventory(1, 4).unwrap();
    g.remove_from_inventory(1, 2).unwrap();
    assert_eq!(
        inventory_of(&g)[0],
        InventoryItem { item_id: 1, quantity: 3 }
    );
}

#[test]
fn inventory_actions_need_a_character() {
    let mut g = Game::new();
    assert_eq!(g.add_to_inventory(1, 1), Err(GameError::NoCharacter));
    assert_eq!(g.remove_from_inventory(1, 1), Err(GameError::NoCharacter));
    assert!(g.get_inventory().is_err());
}
