use vstd::prelude::*;

use crate::errors::GameError;
use crate::inventory::inv_wf;
use crate::skills::tree_wf;
use crate::types::{Character, InventoryItem, Item, Monster, Player, TileMap, map_wf};

verus! {

/// One loaded map, keyed by the location name it was loaded under.
#[derive(Clone, Debug)]
pub struct MapEntry {
    pub location: String,
    pub map: TileMap,
}

/// The session state: at most one owned character, the remote-player
/// registry, and the immutable catalog of items, monsters and maps.
pub struct Game {
    pub character: Option<Character>,
    pub other_players: Vec<Player>,
    pub items: Vec<Item>,
    pub monsters: Vec<Monster>,
    pub maps: Vec<MapEntry>,
}

/// A monster's gold reward range is a real inclusive range: min at most max.
pub open spec fn monster_wf(m: Monster) -> bool {
    m.gold_reward@[0] <= m.gold_reward@[1]
}

/// Character well-formedness: the inventory and the skill tree hold their
/// invariants.
pub open spec fn char_wf(c: Character) -> bool {
    &&& inv_wf(c.inventory@)
    &&& tree_wf(c.skill_tree@)
}

/// Loaded maps are keyed by unique location names.
pub open spec fn maps_unique(maps: Seq<MapEntry>) -> bool {
    forall|i: int, j: int|
        0 <= i < j < maps.len() ==> (#[trigger] maps[i]).location@ != (
        #[trigger] maps[j]).location@
}

/// Whether a map is loaded under this location name.
pub open spec fn maps_has(maps: Seq<MapEntry>, loc: Seq<char>) -> bool {
    exists|i: int| 0 <= i < maps.len() && (#[trigger] maps[i]).location@ == loc
}

/// The index of the map loaded under this location name; meaningful when
/// `maps_has` holds and the keys are unique, in which case it is the one such
/// index.
pub open spec fn maps_idx(maps: Seq<MapEntry>, loc: Seq<char>) -> int {
    choose|i: int| 0 <= i < maps.len() && (#[trigger] maps[i]).location@ == loc
}

/// With unique keys, `maps_idx` is the one index of the entry under `loc`.
pub proof fn lemma_maps_idx(maps: Seq<MapEntry>, loc: Seq<char>)
    requires
        maps_unique(maps),
        maps_has(maps, loc),
    ensures
        0 <= maps_idx(maps, loc) < maps.len(),
        maps[maps_idx(maps, loc)].location@ == loc,
        forall|k: int|
            0 <= k < maps.len() && (#[trigger] maps[k]).location@ == loc ==> k == maps_idx(
                maps,
                loc,
            ),
{
    let i = maps_idx(maps, loc);
    assert(0 <= i < maps.len() && maps[i].location@ == loc);
    assert forall|k: int|
        0 <= k < maps.len() && (#[trigger] maps[k]).location@ == loc implies k == i by {
        if k < i {
            assert(maps[k].location@ != maps[i].location@);
        } else if i < k {
            assert(maps[i].location@ != maps[k].location@);
        }
    }
}

/// Session well-formedness: the character (when one exists), every catalog
/// monster and every loaded map are well-formed, and map location keys are
/// unique.
pub open spec fn game_wf(g: Game) -> bool {
    &&& match g.character {
        Some(c) => char_wf(c),
        None => true,
    }
    &&& forall|i: int| 0 <= i < g.monsters@.len() ==> monster_wf(#[trigger] g.monsters@[i])
    &&& forall|i: int| 0 <= i < g.maps@.len() ==> map_wf((#[trigger] g.maps@[i]).map)
    &&& maps_unique(g.maps@)
}

/// The two games agree on everything but the character.
pub open spec fn same_game_except_character(g1: Game, g2: Game) -> bool {
    &&& g1.other_players == g2.other_players
    &&& g1.items == g2.items
    &&& g1.monsters == g2.monsters
    &&& g1.maps == g2.maps
}

/// The two characters agree on everything but the inventory.
pub open spec fn same_character_except_inventory(c1: Character, c2: Character) -> bool {
    &&& c1.name == c2.name
    &&& c1.race == c2.race
    &&& c1.profession == c2.profession
    &&& c1.level == c2.level
    &&& c1.experience == c2.experience
    &&& c1.gold == c2.gold
    &&& c1.guild == c2.guild
    &&& c1.skill_points == c2.skill_points
    &&& c1.strength == c2.strength
    &&& c1.endurance == c2.endurance
    &&& c1.wisdom == c2.wisdom
    &&& c1.mystic == c2.mystic
    &&& c1.agility == c2.agility
    &&& c1.accuracy == c2.accuracy
    &&& c1.intellect == c2.intellect
    &&& c1.luck == c2.luck
    &&& c1.sword == c2.sword
    &&& c1.spear == c2.spear
    &&& c1.axe == c2.axe
    &&& c1.dagger == c2.dagger
    &&& c1.bow == c2.bow
    &&& c1.shield_skill == c2.shield_skill
    &&& c1.magic == c2.magic
    &&& c1.rune_magic == c2.rune_magic
    &&& c1.magic_resistance == c2.magic_resistance
    &&& c1.healing == c2.healing
    &&& c1.mining == c2.mining
    &&& c1.fishing == c2.fishing
    &&& c1.alchemy == c2.alchemy
    &&& c1.equipment == c2.equipment
    &&& c1.skill_tree == c2.skill_tree
    &&& c1.x == c2.x
    &&& c1.y == c2.y
    &&& c1.location == c2.location
}

impl Game {
    /// A fresh session: no character, no remote players, an empty catalog.
    pub fn new() -> (g: Game)
        ensures
            game_wf(g),
            g.character is None,
            g.other_players@ == Seq::<Player>::empty(),
            g.items@ == Seq::<Item>::empty(),
            g.monsters@ == Seq::<Monster>::empty(),
            g.maps@ == Seq::<MapEntry>::empty(),
    {
        Game {
            character: None,
            other_players: Vec::new(),
            items: Vec::new(),
            monsters: Vec::new(),
            maps: Vec::new(),
        }
    }

    /// The full character state, read-only; fails when no character exists.
    pub fn get_character(&self) -> (r: Result<&Character, GameError>)
        ensures
            match self.character {
                Some(_) => r == Ok::<&Character, GameError>(&self.character->Some_0),
                None => r == Err::<&Character, GameError>(GameError::NoCharacter),
            },
    {
        match &self.character {
            Some(c) => Ok(c),
            None => Err(GameError::NoCharacter),
        }
    }

    /// The inventory, read-only; fails when no character exists.
    pub fn get_inventory(&self) -> (r: Result<&Vec<InventoryItem>, GameError>)
        ensures
            match self.character {
                Some(c) => r is Ok && r->Ok_0@ == c.inventory@,
                None => r == Err::<&Vec<InventoryItem>, GameError>(GameError::NoCharacter),
            },
    {
        match &self.character {
            Some(c) => Ok(&c.inventory),
            None => Err(GameError::NoCharacter),
        }
    }
}

} // verus!
