use vstd::prelude::*;

use crate::errors::GameError;
use crate::game::{game_wf, Game};
use crate::strutil::str_eq;
use crate::types::{
    empty_equipment_view, Character, Equipment, EquipmentView, InventoryItem, Player, Profession,
    Race, SkillNode,
};

verus! {

/// The race named by a creation request, if any.
pub open spec fn parse_race(s: Seq<char>) -> Option<Race> {
    if s == "Human"@ {
        Some(Race::Human)
    } else if s == "Elf"@ {
        Some(Race::Elf)
    } else if s == "Dwarf"@ {
        Some(Race::Dwarf)
    } else if s == "Orc"@ {
        Some(Race::Orc)
    } else {
        None
    }
}

/// The profession named by a creation request, if any.
pub open spec fn parse_profession(s: Seq<char>) -> Option<Profession> {
    if s == "Warrior"@ {
        Some(Profession::Warrior)
    } else if s == "Mage"@ {
        Some(Profession::Mage)
    } else if s == "Archer"@ {
        Some(Profession::Archer)
    } else if s == "Blacksmith"@ {
        Some(Profession::Blacksmith)
    } else {
        None
    }
}

/// The eight primary attributes a new character starts with.
#[derive(Clone, Copy, Debug, PartialEq, Eq, Structural)]
pub struct StartingAttributes {
    pub strength: u32,
    pub endurance: u32,
    pub wisdom: u32,
    pub mystic: u32,
    pub agility: u32,
    pub accuracy: u32,
    pub intellect: u32,
    pub luck: u32,
}

/// Whether the (race, profession) pair has a dedicated row in the starting
/// bonus table; every other pair receives the uniform default.
pub open spec fn in_bonus_table(race: Race, profession: Profession) -> bool {
    ||| (race == Race::Human && profession == Profession::Warrior)
    ||| (race == Race::Elf && profession == Profession::Mage)
    ||| (race == Race::Orc && profession == Profession::Archer)
    ||| (race == Race::Dwarf && profession == Profession::Blacksmith)
}

/// The starting-attribute table, keyed by (race, profession); pairs outside
/// the table receive the uniform default of 10 everywhere.
pub open spec fn starting_attributes(race: Race, profession: Profession) -> StartingAttributes {
    if race == Race::Human && profession == Profession::Warrior {
        StartingAttributes {
            strength: 15,
            endurance: 15,
            wisdom: 5,
            mystic: 5,
            agility: 10,
            accuracy: 10,
            intellect: 5,
            luck: 5,
        }
    } else if race == Race::Elf && profession == Profession::Mage {
        StartingAttributes {
            strength: 5,
            endurance: 5,
            wisdom: 15,
            mystic: 15,
            agility: 10,
            accuracy: 5,
            intellect: 15,
            luck: 5,
        }
    } else if race == Race::Orc && profession == Profession::Archer {
        StartingAttributes {
            strength: 10,
            endurance: 10,
            wisdom: 5,
            mystic: 5,
            agility: 15,
            accuracy: 15,
            intellect: 5,
            luck: 5,
        }
    } else if race == Race::Dwarf && profession == Profession::Blacksmith {
        StartingAttributes {
            strength: 15,
            endurance: 15,
            wisdom: 5,
            mystic: 5,
            agility: 5,
            accuracy: 5,
            intellect: 10,
            luck: 10,
        }
    } else {
        StartingAttributes {
            strength: 10,
            endurance: 10,
            wisdom: 10,
            mystic: 10,
            agility: 10,
            accuracy: 10,
            intellect: 10,
            luck: 10,
        }
    }
}

/// The starting-equipment table, keyed by (race, profession); pairs outside
/// the table start with every slot empty.
pub open spec fn starting_equipment_view(race: Race, profession: Profession) -> EquipmentView {
    if race == Race::Human && profession == Profession::Warrior {
        EquipmentView {
            weapon: Some("Iron Sword"@),
            shield: Some("Steel Shield"@),
            ..empty_equipment_view()
        }
    } else if race == Race::Elf && profession == Profession::Mage {
        EquipmentView { weapon: Some("Magic Staff"@), ..empty_equipment_view() }
    } else if race == Race::Orc && profession == Profession::Archer {
        EquipmentView { weapon: Some("Bow"@), ..empty_equipment_view() }
    } else if race == Race::Dwarf && profession == Profession::Blacksmith {
        EquipmentView { weapon: Some("Blacksmith Hammer"@), ..empty_equipment_view() }
    } else {
        empty_equipment_view()
    }
}

/// The fixed four-node starting skill tree: node 0 unlocked, the rest locked,
/// arranged as a diamond (0 adjacent to 1 and 2, 3 adjacent to 1 and 2).
pub open spec fn initial_tree(tree: Seq<SkillNode>) -> bool {
    &&& tree.len() == 4
    &&& tree[0] == SkillNode {
        id: 0u32,
        x: 0i32,
        y: 0i32,
        skill: tree[0].skill,
        connections: tree[0].connections,
        unlocked: true,
    }
    &&& tree[0].skill@ == "+5 Strength"@
    &&& tree[0].connections@ == seq![1u32, 2u32]
    &&& tree[1] == SkillNode {
        id: 1u32,
        x: 50i32,
        y: 0i32,
        skill: tree[1].skill,
        connections: tree[1].connections,
        unlocked: false,
    }
    &&& tree[1].skill@ == "+5 Sword"@
    &&& tree[1].connections@ == seq![0u32, 3u32]
    &&& tree[2] == SkillNode {
        id: 2u32,
        x: 0i32,
        y: 50i32,
        skill: tree[2].skill,
        connections: tree[2].connections,
        unlocked: false,
    }
    &&& tree[2].skill@ == "+5 Endurance"@
    &&& tree[2].connections@ == seq![0u32, 3u32]
    &&& tree[3] == SkillNode {
        id: 3u32,
        x: 50i32,
        y: 50i32,
        skill: tree[3].skill,
        connections: tree[3].connections,
        unlocked: false,
    }
    &&& tree[3].skill@ == "+10 Health"@
    &&& tree[3].connections@ == seq![1u32, 2u32]
}

/// What a freshly created character looks like: the fixed starting resources,
/// the table-derived attributes and equipment, the profession-seeded
/// proficiency, the fixed skill tree and the two starting inventory stacks,
/// standing on tile (5, 5) of "Town".
pub open spec fn created_character(
    name: Seq<char>,
    race: Race,
    profession: Profession,
    c: Character,
) -> bool {
    let attrs = starting_attributes(race, profession);
    &&& c.name@ == name
    &&& c.race == race
    &&& c.profession == profession
    &&& c.level == 1
    &&& c.experience == 0
    &&& c.gold == 100
    &&& c.guild is None
    &&& c.skill_points == 1
    &&& c.strength == attrs.strength
    &&& c.endurance == attrs.endurance
    &&& c.wisdom == attrs.wisdom
    &&& c.mystic == attrs.mystic
    &&& c.agility == attrs.agility
    &&& c.accuracy == attrs.accuracy
    &&& c.intellect == attrs.intellect
    &&& c.luck == attrs.luck
    &&& c.sword == (if profession == Profession::Warrior {
        10u32
    } else {
        0u32
    })
    &&& c.spear == 0
    &&& c.axe == 0
    &&& c.dagger == 0
    &&& c.bow == (if profession == Profession::Archer {
        10u32
    } else {
        0u32
    })
    &&& c.shield_skill == (if profession == Profession::Warrior {
        10u32
    } else {
        0u32
    })
    &&& c.magic == (if profession == Profession::Mage {
        10u32
    } else {
        0u32
    })
    &&& c.rune_magic == 0
    &&& c.magic_resistance == 0
    &&& c.healing == 0
    &&& c.mining == (if profession == Profession::Blacksmith {
        10u32
    } else {
        0u32
    })
    &&& c.fishing == 0
    &&& c.alchemy == 0
    &&& c.equipment@ == starting_equipment_view(race, profession)
    &&& c.inventory@.len() == 2
    &&& c.inventory@[0] == InventoryItem { item_id: 1u32, quantity: 1u32 }
    &&& c.inventory@[1] == InventoryItem { item_id: 2u32, quantity: 1u32 }
    &&& initial_tree(c.skill_tree@)
    &&& c.x == 5
    &&& c.y == 5
    &&& c.location@ == "Town"@
}

/// The self-entry pushed into the remote-player registry on creation, which
/// mirrors the starting position so peers can see the new character.
pub open spec fn created_player_entry(
    wallet: Seq<char>,
    name: Seq<char>,
    race: Race,
    profession: Profession,
    p: Player,
) -> bool {
    &&& p.wallet@ == wallet
    &&& p.name@ == name
    &&& p.level == 1
    &&& p.x == 5
    &&& p.y == 5
    &&& p.location@ == "Town"@
    &&& p.equipment@ == starting_equipment_view(race, profession)
}

/// Law: pairs outside the bonus table receive the uniform default of 10 in
/// every attribute and start with every equipment slot empty.
pub proof fn lemma_default_pair_uniform(race: Race, profession: Profession)
    requires
        !in_bonus_table(race, profession),
    ensures
        starting_attributes(race, profession) == (StartingAttributes {
            strength: 10u32,
            endurance: 10u32,
            wisdom: 10u32,
            mystic: 10u32,
            agility: 10u32,
            accuracy: 10u32,
            intellect: 10u32,
            luck: 10u32,
        }),
        starting_equipment_view(race, profession) == empty_equipment_view(),
{
}

/// Parse a race name.
fn parse_race_exec(s: &str) -> (r: Option<Race>)
    ensures
        r == parse_race(s@),
{
    if str_eq(s, "Human") {
        Some(Race::Human)
    } else if str_eq(s, "Elf") {
        Some(Race::Elf)
    } else if str_eq(s, "Dwarf") {
        Some(Race::Dwarf)
    } else if str_eq(s, "Orc") {
        Some(Race::Orc)
    } else {
        None
    }
}

/// Parse a profession name.
fn parse_profession_exec(s: &str) -> (r: Option<Profession>)
    ensures
        r == parse_profession(s@),
{
    if str_eq(s, "Warrior") {
        Some(Profession::Warrior)
    } else if str_eq(s, "Mage") {
        Some(Profession::Mage)
    } else if str_eq(s, "Archer") {
        Some(Profession::Archer)
    } else if str_eq(s, "Blacksmith") {
        Some(Profession::Blacksmith)
    } else {
        None
    }
}

/// The starting attributes of a (race, profession) pair.
fn starting_attributes_exec(race: Race, profession: Profession) -> (r: StartingAttributes)
    ensures
        r == starting_attributes(race, profession),
{
    match (race, profession) {
        (Race::Human, Profession::Warrior) => StartingAttributes {
            strength: 15,
            endurance: 15,
            wisdom: 5,
            mystic: 5,
            agility: 10,
            accuracy: 10,
            intellect: 5,
            luck: 5,
        },
        (Race::Elf, Profession::Mage) => StartingAttributes {
            strength: 5,
            endurance: 5,
            wisdom: 15,
            mystic: 15,
            agility: 10,
            accuracy: 5,
            intellect: 15,
            luck: 5,
        },
        (Race::Orc, Profession::Archer) => StartingAttributes {
            strength: 10,
            endurance: 10,
            wisdom: 5,
            mystic: 5,
            agility: 15,
            accuracy: 15,
            intellect: 5,
            luck: 5,
        },
        (Race::Dwarf, Profession::Blacksmith) => StartingAttributes {
            strength: 15,
            endurance: 15,
            wisdom: 5,
            mystic: 5,
            agility: 5,
            accuracy: 5,
            intellect: 10,
            luck: 10,
        },
        _ => StartingAttributes {
            strength: 10,
            endurance: 10,
            wisdom: 10,
            mystic: 10,
            agility: 10,
            accuracy: 10,
            intellect: 10,
            luck: 10,
        },
    }
}

/// The starting equipment of a (race, profession) pair.
fn starting_equipment_exec(race: Race, profession: Profession) -> (r: Equipment)
    ensures
        r@ == starting_equipment_view(race, profession),
{
    match (race, profession) {
        (Race::Human, Profession::Warrior) => Equipment {
            weapon: Some("Iron Sword".to_owned()),
            shield: Some("Steel Shield".to_owned()),
            ..Equipment::default()
        },
        (Race::Elf, Profession::Mage) => Equipment {
            weapon: Some("Magic Staff".to_owned()),
            ..Equipment::default()
        },
        (Race::Orc, Profession::Archer) => Equipment {
            weapon: Some("Bow".to_owned()),
            ..Equipment::default()
        },
        (Race::Dwarf, Profession::Blacksmith) => Equipment {
            weapon: Some("Blacksmith Hammer".to_owned()),
            ..Equipment::default()
        },
        _ => Equipment::default(),
    }
}

/// The fixed starting skill tree.
fn initial_tree_exec() -> (r: Vec<SkillNode>)
    ensures
        initial_tree(r@),
{
    let mut c0: Vec<u32> = Vec::new();
    c0.push(1);
    c0.push(2);
    let mut c1: Vec<u32> = Vec::new();
    c1.push(0);
    c1.push(3);
    let mut c2: Vec<u32> = Vec::new();
    c2.push(0);
    c2.push(3);
    let mut c3: Vec<u32> = Vec::new();
    c3.push(1);
    c3.push(2);
    proof {
        assert(c0@ =~= seq![1u32, 2u32]);
        assert(c1@ =~= seq![0u32, 3u32]);
        assert(c2@ =~= seq![0u32, 3u32]);
        assert(c3@ =~= seq![1u32, 2u32]);
    }
    let mut tree: Vec<SkillNode> = Vec::new();
    tree.push(
        SkillNode {
            id: 0,
            x: 0,
            y: 0,
            skill: "+5 Strength".to_owned(),
            connections: c0,
            unlocked: true,
        },
    );
    tree.push(
        SkillNode { id: 1, x: 50, y: 0, skill: "+5 Sword".to_owned(), connections: c1, unlocked: false },
    );
    tree.push(
        SkillNode {
            id: 2,
            x: 0,
            y: 50,
            skill: "+5 Endurance".to_owned(),
            connections: c2,
            unlocked: false,
        },
    );
    tree.push(
        SkillNode {
            id: 3,
            x: 50,
            y: 50,
            skill: "+10 Health".to_owned(),
            connections: c3,
            unlocked: false,
        },
    );
    tree
}

impl Game {
    /// Create the session's character. Fails with `InvalidInput` when `race`
    /// or `profession` names no known variant; a prior character, if any, is
    /// replaced outright. On success the character starts with the
    /// table-derived attributes and equipment for the pair, level 1, no
    /// experience, 100 gold, one skill point, ten points in the proficiency
    /// matching the profession, the fixed skill tree, two starting inventory
    /// stacks, and a mirroring entry is appended to the remote-player
    /// registry under `wallet`.
    pub fn create_character(
        &mut self,
        name: String,
        race: String,
        profession: String,
        wallet: String,
    ) -> (r: Result<(), GameError>)
        requires
            game_wf(*old(self)),
        ensures
            game_wf(*final(self)),
            parse_race(race@) is None || parse_profession(profession@) is None ==> r == Err::<
                (),
                GameError,
            >(GameError::InvalidInput) && *final(self) == *old(self),
            parse_race(race@) is Some && parse_profession(profession@) is Some ==> {
                &&& r == Ok::<(), GameError>(())
                &&& final(self).character is Some
                &&& created_character(
                    name@,
                    parse_race(race@)->Some_0,
                    parse_profession(profession@)->Some_0,
                    final(self).character->Some_0,
                )
                &&& final(self).other_players@.len() == old(self).other_players@.len() + 1
                &&& final(self).other_players@.subrange(
                    0,
                    old(self).other_players@.len() as int,
                ) == old(self).other_players@
                &&& created_player_entry(
                    wallet@,
                    name@,
                    parse_race(race@)->Some_0,
                    parse_profession(profession@)->Some_0,
                    final(self).other_players@.last(),
                )
                &&& final(self).items == old(self).items
                &&& final(self).monsters == old(self).monsters
                &&& final(self).maps == old(self).maps
            },
    {
        let race_parsed = match parse_race_exec(race.as_str()) {
            Some(r) => r,
            None => {
                return Err(GameError::InvalidInput);
            },
        };
        let profession_parsed = match parse_profession_exec(profession.as_str()) {
            Some(p) => p,
            None => {
                return Err(GameError::InvalidInput);
            },
        };
        let attrs = starting_attributes_exec(race_parsed, profession_parsed);
        let equipment = starting_equipment_exec(race_parsed, profession_parsed);
        let player_equipment = starting_equipment_exec(race_parsed, profession_parsed);
        let player_name = name.clone();
        let tree = initial_tree_exec();
        let mut inventory: Vec<InventoryItem> = Vec::new();
        inventory.push(InventoryItem { item_id: 1, quantity: 1 });
        inventory.push(InventoryItem { item_id: 2, quantity: 1 });
        self.character = Some(
            Character {
                name,
                race: race_parsed,
                profession: profession_parsed,
                level: 1,
                experience: 0,
                gold: 100,
                guild: None,
                skill_points: 1,
                strength: attrs.strength,
                endurance: attrs.endurance,
                wisdom: attrs.wisdom,
                mystic: attrs.mystic,
                agility: attrs.agility,
                accuracy: attrs.accuracy,
                intellect: attrs.intellect,
                luck: attrs.luck,
                sword: if matches!(profession_parsed, Profession::Warrior) {
                    10
                } else {
                    0
                },
                spear: 0,
                axe: 0,
                dagger: 0,
                bow: if matches!(profession_parsed, Profession::Archer) {
                    10
                } else {
                    0
                },
                shield_skill: if matches!(profession_parsed, Profession::Warrior) {
                    10
                } else {
                    0
                },
                magic: if matches!(profession_parsed, Profession::Mage) {
                    10
                } else {
                    0
                },
                rune_magic: 0,
                magic_resistance: 0,
                healing: 0,
                mining: if matches!(profession_parsed, Profession::Blacksmith) {
                    10
                } else {
                    0
                },
                fishing: 0,
                alchemy: 0,
                equipment,
                inventory,
                skill_tree: tree,
                x: 5,
                y: 5,
                location: "Town".to_owned(),
            },
        );
        self.other_players.push(
            Player {
                wallet,
                name: player_name,
                level: 1,
                x: 5,
                y: 5,
                location: "Town".to_owned(),
                equipment: player_equipment,
            },
        );
        Ok(())
    }
}

} // verus!
