use kek_of_shadows::combat::is_pvp_zone;
use kek_of_shadows::errors::GameError;
use kek_of_shadows::game::Game;
use kek_of_shadows::types::{FightOutcome, Monster, Player, StatBonus, TileMap};

fn game_with_character() -> Game {
    let mut g = Game::new();
    g.create_character(
        "Hero".to_string(),
        "Human".to_string(),
        "Warrior".to_string(),
        "wallet-1".to_string(),
    )
    .unwrap();
    g
}

fn monster(health: u32, exp_reward: u32, gold_reward: [u32; 2]) -> Monster {
    Monster {
        id: 1,
        name: "Ghoul".to_string(),
        level: 3,
        stats: vec![StatBonus { name: "health".to_string(), value: health }],
        exp_reward,
        gold_reward,
    }
}

fn open_map(width: u32, height: u32) -> TileMap {
    TileMap {
        width,
        height,
        tiles: vec![vec!["grass".to_string(); width as usize]; height as usize],
        collisions: vec![vec![false; width as usize]; height as usize],
    }
}

fn move_to_wilderness(g: &mut Game) {
    g.load_map("Wilderness".to_string(), open_map(8, 8)).unwrap();
    g.update_position(2, 2, "Wilderness".to_string()).unwrap();
}

#[test]
fn weak_monster_is_always_defeated() {
    // Human/Warrior: strength 15, accuracy 10, so damage = floor(25 / 2) = 12.
    let mut g = game_with_character();
    g.load_game_data(Vec::new(), vec![monster(12, 50, [10, 20])]).unwrap();
    let outcome = g.fight_monster_with_rolls(0, 15, 2, 3).unwrap();
    assert_eq!(
        outcome,
        FightOutcome::Defeated { exp_gain: 50, gold_gain: 15, item_drop: 3, leveled_up: false }
    );
    let c = g.get_character().unwrap();
    assert_eq!(c.experience, 50);
    assert_eq!(c.gold, 115);
    assert_eq!(c.skill_points, 2);
    // Warriors train the sword proficiency by the rolled amount.
    assert_eq!(c.sword, 12);
    // One unit of the rolled drop joined the inventory.
    let inv = g.get_inventory().unwrap();
    assert!(inv.iter().any(|s| s.item_id == 3 && s.quantity == 1));
}

#[test]
fn surviving_monster_changes_nothing() {
    // Damage 12 falls short of health 20: the monster survives.
    let mut g = game_with_character();
    g.load_game_data(Vec::new(), vec![monster(20, 50, [10, 20])]).unwrap();
    let outcome = g.fight_monster_with_rolls(0, 15, 2, 3).unwrap();
    assert_eq!(outcome, FightOutcome::Survived);
    let c = g.get_character().unwrap();
    assert_eq!(c.experience, 0);
    assert_eq!(c.gold, 100);
    assert_eq!(c.skill_points, 1);
    assert_eq!(c.level, 1);
    assert_eq!(g.get_inventory().unwrap().len(), 2);
}

#[test]
fn crossing_the_threshold_levels_up_exactly_once() {
    // 250 experience crosses level x 100 = 100, and would cross 200 as well;
    // still only one level-up fires.
    let mut g = game_with_character();
    g.load_game_data(Vec::new(), vec![monster(1, 250, [10, 10])]).unwrap();
    let outcome = g.fight_monster_with_rolls(0, 10, 1, 1).unwrap();
    assert_eq!(
        outcome,
        FightOutcome::Defeated { exp_gain: 250, gold_gain: 10, item_drop: 1, leveled_up: true }
    );
    let c = g.get_character().unwrap();
    assert_eq!(c.level, 2);
    assert_eq!(c.strength, 17);
    assert_eq!(c.endurance, 17);
    assert_eq!(c.agility, 12);
}

#[test]
fn below_threshold_no_level_up() {
    let mut g = game_with_character();
    g.load_game_data(Vec::new(), vec![monster(1, 99, [10, 10])]).unwrap();
    g.fight_monster_with_rolls(0, 10, 1, 1).unwrap();
    let c = g.get_character().unwrap();
    assert_eq!(c.level, 1);
    assert_eq!(c.strength, 15);
}

#[test]
fn missing_health_stat_defaults_to_zero() {
    let mut g = game_with_character();
    let no_health = Monster {
        id: 1,
        name: "Wisp".to_string(),
        level: 1,
        stats: Vec::new(),
        exp_reward: 5,
        gold_reward: [1, 1],
    };
    g.load_game_data(Vec::new(), vec![no_health]).unwrap();
    let outcome = g.fight_monster_with_rolls(0, 1, 1, 1).unwrap();
    assert!(matches!(outcome, FightOutcome::Defeated { .. }));
}

#[test]
fn random_fight_rewards_stay_in_range() {
    // Exercises the random draws end to end: the monster index, the gold roll
    // within the monster's range, the proficiency roll and the item drop.
    let mut g = game_with_character();
    g.load_game_data(Vec::new(), vec![monster(1, 50, [10, 20])]).unwrap();
    let narration = g.fight_monster().unwrap();
    assert!(narration.starts_with("Defeated Ghoul (Level 3)!"));
    let c = g.get_character().unwrap();
    let gold_gain = c.gold - 100;
    assert!((10..=20).contains(&gold_gain));
    assert_eq!(c.experience, 50);
    assert_eq!(c.skill_points, 2);
    let sword_gain = c.sword - 10;
    assert!((1..=4).contains(&sword_gain));
    let dropped: Vec<u32> = g
        .get_inventory()
        .unwrap()
        .iter()
        .map(|s| s.item_id)
        .filter(|id| (1..=4).contains(id))
        .collect();
    assert!(!dropped.is_empty());
}

#[test]
fn surviving_fight_narration() {
    let mut g = game_with_character();
    g.load_game_data(Vec::new(), vec![monster(20, 50, [10, 20])]).unwrap();
    let narration = g.fight_monster().unwrap();
    assert_eq!(narration, "Attacked Ghoul but it survived!");
}

#[test]
fn fight_monster_needs_a_loaded_catalog() {
    let mut g = game_with_character();
    assert_eq!(g.fight_monster(), Err(GameError::NotFound));
}

#[test]
fn fight_monster_needs_a_character() {
    let mut g = Game::new();
    assert_eq!(g.fight_monster(), Err(GameError::NoCharacter));
}

#[test]
fn pvp_in_town_is_rejected() {
    let mut g = game_with_character();
    let r = g.fight_player("wallet-1".to_string());
    assert_eq!(r, Err(GameError::InvalidState));
    let c = g.get_character().unwrap();
    assert_eq!(c.gold, 100);
    assert_eq!(c.experience, 0);
}

#[test]
fn pvp_in_wilderness_raises_gold_and_experience() {
    let mut g = game_with_character();
    move_to_wilderness(&mut g);
    // The creation self-entry carries wallet-1 at level 1.
    g.fight_player("wallet-1".to_string()).unwrap();
    let c = g.get_character().unwrap();
    assert_eq!(c.experience, 5);
    assert!(c.gold > 100);
    assert!((20..=99).contains(&(c.gold - 100)));
}

#[test]
fn pvp_against_unknown_wallet_is_rejected() {
    let mut g = game_with_character();
    move_to_wilderness(&mut g);
    assert_eq!(
        g.fight_player("nobody".to_string()),
        Err(GameError::NotFound)
    );
}

#[test]
fn pvp_target_comes_from_the_synced_registry() {
    let mut g = game_with_character();
    move_to_wilderness(&mut g);
    g.update_other_players(vec![Player {
        wallet: "rival".to_string(),
        name: "Rival".to_string(),
        level: 7,
        x: 1,
        y: 1,
        location: "Wilderness".to_string(),
        equipment: Default::default(),
    }]);
    let narration = g.fight_player_with_roll("rival", 42).unwrap();
    assert_eq!(narration, "Attacked Rival (Level 7)! Gained 35 EXP and 142 gold.");
    let c = g.get_character().unwrap();
    assert_eq!(c.experience, 35);
    assert_eq!(c.gold, 142);
}

#[test]
fn pvp_zone_classification() {
    assert!(!is_pvp_zone("Town"));
    assert!(!is_pvp_zone("Temple"));
    assert!(!is_pvp_zone("Building"));
    assert!(is_pvp_zone("Wilderness"));
    assert!(is_pvp_zone("HuntingGround"));
    assert!(is_pvp_zone("BossArea"));
    assert!(is_pvp_zone("QuestArea"));
    assert!(is_pvp_zone("Castle"));
    assert!(is_pvp_zone("Island"));
    // Unrecognized names fail open: PvP is permitted there.
    assert!(is_pvp_zone("Atlantis"));
}

#[test]
fn example_scenario_monster_survives() {
    // strength 15, accuracy 10: damage = floor((15 + 10) / 2) = 12 < 20, so
    // the monster survives and nothing changes but the narration.
    let mut g = game_with_character();
    g.load_game_data(Vec::new(), vec![monster(20, 50, [10, 20])]).unwrap();
    let outcome = g.fight_monster_with_rolls(0, 12, 2, 2).unwrap();
    assert_eq!(outcome, FightOutcome::Survived);
    let c = g.get_character().unwrap();
    assert_eq!(c.experience, 0);
    assert_eq!(c.gold, 100);
    assert_eq!(c.level, 1);
}
