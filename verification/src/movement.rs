use vstd::prelude::*;

use crate::errors::GameError;
use crate::game::{
    game_wf, lemma_maps_idx, maps_has, maps_idx, same_game_except_character, Game, MapEntry,
};
use crate::strutil::str_eq;
use crate::types::{Character, TileMap};

verus! {

/// A movement target is illegal when it lies outside the map or the collision
/// grid marks its tile impassable.
pub open spec fn tile_blocked(m: TileMap, x: u32, y: u32) -> bool {
    ||| x >= m.width
    ||| y >= m.height
    ||| m.collisions@[y as int]@[x as int]
}

/// The two characters agree on everything but the spatial state (x, y,
/// location).
pub open spec fn same_character_except_position(c1: Character, c2: Character) -> bool {
    &&& c1.name == c2.name
    &&& c1.race == c2.race
    &&& c1.profession == c2.profession
    &&& c1.level == c2.level
    &&& c1.experience == c2.experience
    &&& c1.gold == c2.gold
    &&& c1.guild == c2.guild
    &&& c1.skill_points == c2.skill_points
    &&& c1.strength == c2.strength
    &&& c1.endurance == c2.endurance
    &&& c1.wisdom == c2.wisdom
    &&& c1.mystic == c2.mystic
    &&& c1.agility == c2.agility
    &&& c1.accuracy == c2.accuracy
    &&& c1.intellect == c2.intellect
    &&& c1.luck == c2.luck
    &&& c1.sword == c2.sword
    &&& c1.spear == c2.spear
    &&& c1.axe == c2.axe
    &&& c1.dagger == c2.dagger
    &&& c1.bow == c2.bow
    &&& c1.shield_skill == c2.shield_skill
    &&& c1.magic == c2.magic
    &&& c1.rune_magic == c2.rune_magic
    &&& c1.magic_resistance == c2.magic_resistance
    &&& c1.healing == c2.healing
    &&& c1.mining == c2.mining
    &&& c1.fishing == c2.fishing
    &&& c1.alchemy == c2.alchemy
    &&& c1.equipment == c2.equipment
    &&& c1.inventory == c2.inventory
    &&& c1.skill_tree == c2.skill_tree
}

/// Find the map loaded under this location name.
pub(crate) fn maps_find(maps: &Vec<MapEntry>, loc: &str) -> (r: Option<usize>)
    ensures
        match r {
            Some(i) => i < maps@.len() && maps@[i as int].location@ == loc@,
            None => !maps_has(maps@, loc@),
        },
{
    let mut i: usize = 0;
    while i < maps.len()
        invariant
            i <= maps@.len(),
            forall|j: int| 0 <= j < i ==> (#[trigger] maps@[j]).location@ != loc@,
        decreases maps@.len() - i,
    {
        if str_eq(maps[i].location.as_str(), loc) {
            return Some(i);
        }
        i = i + 1;
    }
    None
}

impl Game {
    /// Move the character to tile `(x, y)` of the map loaded under
    /// `location`. Fails with `NoCharacter`, with `NotFound` when no map is
    /// loaded under `location`, and with `OutOfBounds` when the target tile
    /// lies outside the map or its collision grid marks the tile impassable;
    /// failures leave the game untouched. On success, the character's x, y
    /// and location are all overwritten together.
    pub fn update_position(&mut self, x: u32, y: u32, location: String) -> (r: Result<
        (),
        GameError,
    >)
        requires
            game_wf(*old(self)),
        ensures
            game_wf(*final(self)),
            old(self).character is None ==> r == Err::<(), GameError>(GameError::NoCharacter)
                && *final(self) == *old(self),
            old(self).character is Some && !maps_has(old(self).maps@, location@) ==> r == Err::<
                (),
                GameError,
            >(GameError::NotFound) && *final(self) == *old(self),
            old(self).character is Some && maps_has(old(self).maps@, location@) && tile_blocked(
                old(self).maps@[maps_idx(old(self).maps@, location@)].map,
                x,
                y,
            ) ==> r == Err::<(), GameError>(GameError::OutOfBounds) && *final(self) == *old(self),
            old(self).character is Some && maps_has(old(self).maps@, location@) && !tile_blocked(
                old(self).maps@[maps_idx(old(self).maps@, location@)].map,
                x,
                y,
            ) ==> {
                &&& r == Ok::<(), GameError>(())
                &&& final(self).character is Some
                &&& final(self).character->Some_0.x == x
                &&& final(self).character->Some_0.y == y
                &&& final(self).character->Some_0.location == location
                &&& same_character_except_position(
                    old(self).character->Some_0,
                    final(self).character->Some_0,
                )
                &&& same_game_except_character(*old(self), *final(self))
            },
    {
        if self.character.is_none() {
            return Err(GameError::NoCharacter);
        }
        match maps_find(&self.maps, location.as_str()) {
            None => Err(GameError::NotFound),
            Some(mi) => {
                proof {
                    lemma_maps_idx(self.maps@, location@);
                }
                let map = &self.maps[mi].map;
                if x >= map.width || y >= map.height {
                    return Err(GameError::OutOfBounds);
                }
                let row = &map.collisions[y as usize];
                if row[x as usize] {
                    return Err(GameError::OutOfBounds);
                }
                match &mut self.character {
                    Some(c) => {
                        c.x = x;
                        c.y = y;
                        c.location = location;
                        Ok(())
                    },
                    None => Err(GameError::NoCharacter),
                }
            },
        }
    }
}

} // verus!
