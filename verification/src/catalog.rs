use vstd::prelude::*;

use crate::errors::GameError;
use crate::game::{
    game_wf, lemma_maps_idx, maps_has, maps_idx, maps_unique, monster_wf, Game, MapEntry,
};
use crate::movement::maps_find;
use crate::types::{map_wf, Item, Monster, Player, TileMap};

verus! {

/// The loaded maps after binding `map` under `location`: an existing entry
/// under the same location is replaced, otherwise a new entry is appended.
pub open spec fn maps_insert(maps: Seq<MapEntry>, location: Seq<char>, entry: MapEntry) -> Seq<
    MapEntry,
> {
    if maps_has(maps, location) {
        maps.update(maps_idx(maps, location), entry)
    } else {
        maps.push(entry)
    }
}

/// Inserting under a location keeps the keys unique, and afterwards that
/// location is bound to the inserted entry.
pub proof fn lemma_maps_insert(maps: Seq<MapEntry>, location: Seq<char>, entry: MapEntry)
    requires
        maps_unique(maps),
        entry.location@ == location,
    ensures
        maps_unique(maps_insert(maps, location, entry)),
        maps_has(maps_insert(maps, location, entry), location),
        maps_insert(maps, location, entry)[maps_idx(
            maps_insert(maps, location, entry),
            location,
        )] == entry,
{
    let out = maps_insert(maps, location, entry);
    if maps_has(maps, location) {
        lemma_maps_idx(maps, location);
        let i = maps_idx(maps, location);
        assert forall|k: int, l: int|
            0 <= k < l < out.len() implies (#[trigger] out[k]).location@ != (
        #[trigger] out[l]).location@ by {
            if k != i && l != i {
                assert(out[k] == maps[k]);
                assert(out[l] == maps[l]);
            }
        }
        assert(out[i] == entry);
        lemma_maps_idx(out, location);
        assert(maps_idx(out, location) == i);
    } else {
        let n = maps.len() as int;
        assert forall|k: int, l: int|
            0 <= k < l < out.len() implies (#[trigger] out[k]).location@ != (
        #[trigger] out[l]).location@ by {
            if l == n {
                assert(out[k] == maps[k]);
                assert(out[l] == entry);
            }
        }
        assert(out[n] == entry);
        lemma_maps_idx(out, location);
        assert(maps_idx(out, location) == n);
    }
}

/// Check that every monster's gold reward range has min at most max.
fn monsters_well_formed(monsters: &Vec<Monster>) -> (r: bool)
    ensures
        r == (forall|i: int| 0 <= i < monsters@.len() ==> monster_wf(#[trigger] monsters@[i])),
{
    let mut i: usize = 0;
    while i < monsters.len()
        invariant
            i <= monsters@.len(),
            forall|j: int| 0 <= j < i ==> monster_wf(#[trigger] monsters@[j]),
        decreases monsters@.len() - i,
    {
        if monsters[i].gold_reward[0] > monsters[i].gold_reward[1] {
            return false;
        }
        i = i + 1;
    }
    true
}

/// Check that both grids of a map have exactly `height` rows of exactly
/// `width` columns.
fn map_well_formed(map: &TileMap) -> (r: bool)
    ensures
        r == map_wf(*map),
{
    if map.tiles.len() != map.height as usize || map.collisions.len() != map.height as usize {
        return false;
    }
    let mut i: usize = 0;
    while i < map.tiles.len()
        invariant
            i <= map.tiles@.len(),
            forall|j: int| 0 <= j < i ==> (#[trigger] map.tiles@[j])@.len() == map.width,
        decreases map.tiles@.len() - i,
    {
        if map.tiles[i].len() != map.width as usize {
            return false;
        }
        i = i + 1;
    }
    let mut k: usize = 0;
    while k < map.collisions.len()
        invariant
            k <= map.collisions@.len(),
            forall|j: int| 0 <= j < k ==> (#[trigger] map.collisions@[j])@.len() == map.width,
        decreases map.collisions@.len() - k,
    {
        if map.collisions[k].len() != map.width as usize {
            return false;
        }
        k = k + 1;
    }
    true
}

impl Game {
    /// Replace the whole item and monster catalog with the given collections.
    /// Fails with `InvalidInput`, loading nothing, when some monster's gold
    /// reward range has min above max.
    pub fn load_game_data(&mut self, items: Vec<Item>, monsters: Vec<Monster>) -> (r: Result<
        (),
        GameError,
    >)
        requires
            game_wf(*old(self)),
        ensures
            game_wf(*final(self)),
            (forall|i: int|
                0 <= i < monsters@.len() ==> monster_wf(#[trigger] monsters@[i])) ==> {
                &&& r == Ok::<(), GameError>(())
                &&& final(self).items == items
                &&& final(self).monsters == monsters
                &&& final(self).character == old(self).character
                &&& final(self).other_players == old(self).other_players
                &&& final(self).maps == old(self).maps
            },
            !(forall|i: int| 0 <= i < monsters@.len() ==> monster_wf(#[trigger] monsters@[i]))
                ==> r == Err::<(), GameError>(GameError::InvalidInput) && *final(self) == *old(
                self,
            ),
    {
        if !monsters_well_formed(&monsters) {
            return Err(GameError::InvalidInput);
        }
        self.items = items;
        self.monsters = monsters;
        Ok(())
    }

    /// Load (or replace) the map under `location`. Fails with `InvalidInput`,
    /// loading nothing, when the tile or collision grid does not match the
    /// declared width and height.
    pub fn load_map(&mut self, location: String, map: TileMap) -> (r: Result<(), GameError>)
        requires
            game_wf(*old(self)),
        ensures
            game_wf(*final(self)),
            !map_wf(map) ==> r == Err::<(), GameError>(GameError::InvalidInput) && *final(self)
                == *old(self),
            map_wf(map) ==> {
                &&& r == Ok::<(), GameError>(())
                &&& final(self).maps@ == maps_insert(
                    old(self).maps@,
                    location@,
                    MapEntry { location, map },
                )
                &&& maps_has(final(self).maps@, location@)
                &&& final(self).maps@[maps_idx(final(self).maps@, location@)].map == map
                &&& final(self).character == old(self).character
                &&& final(self).other_players == old(self).other_players
                &&& final(self).items == old(self).items
                &&& final(self).monsters == old(self).monsters
            },
    {
        if !map_well_formed(&map) {
            return Err(GameError::InvalidInput);
        }
        proof {
            lemma_maps_insert(self.maps@, location@, MapEntry { location, map });
        }
        match maps_find(&self.maps, location.as_str()) {
            Some(i) => {
                proof {
                    lemma_maps_idx(self.maps@, location@);
                }
                self.maps[i] = MapEntry { location, map };
            },
            None => {
                self.maps.push(MapEntry { location, map });
            },
        }
        Ok(())
    }

    /// Replace the whole remote-player registry with the given snapshots.
    pub fn update_other_players(&mut self, players: Vec<Player>)
        requires
            game_wf(*old(self)),
        ensures
            game_wf(*final(self)),
            final(self).other_players == players,
            final(self).character == old(self).character,
            final(self).items == old(self).items,
            final(self).monsters == old(self).monsters,
            final(self).maps == old(self).maps,
    {
        self.other_players = players;
    }
}

} // verus!
