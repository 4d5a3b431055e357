use vstd::prelude::*;

use crate::errors::GameError;
use crate::game::{game_wf, same_game_except_character, Game};
use crate::inventory::{inv_has, inv_remove, inventory_remove};
use crate::strutil::str_eq;
use crate::types::{Character, EquipSlot, EquipmentView, Item, StatBonus};

verus! {

/// The slot named by an item's slot field, if recognized.
pub open spec fn parse_slot(s: Seq<char>) -> Option<EquipSlot> {
    if s == "armor"@ {
        Some(EquipSlot::Armor)
    } else if s == "helmet"@ {
        Some(EquipSlot::Helmet)
    } else if s == "amulet"@ {
        Some(EquipSlot::Amulet)
    } else if s == "gloves"@ {
        Some(EquipSlot::Gloves)
    } else if s == "ring"@ {
        Some(EquipSlot::Ring)
    } else if s == "weapon"@ {
        Some(EquipSlot::Weapon)
    } else if s == "shield"@ {
        Some(EquipSlot::Shield)
    } else if s == "legs"@ {
        Some(EquipSlot::Legs)
    } else if s == "boots"@ {
        Some(EquipSlot::Boots)
    } else {
        None
    }
}

/// The first catalog item with this id, if any.
pub open spec fn find_item(items: Seq<Item>, id: u32) -> Option<Item>
    decreases items.len(),
{
    if items.len() == 0 {
        None
    } else if items[0].id == id {
        Some(items[0])
    } else {
        find_item(items.skip(1), id)
    }
}

/// The equipment after binding an item name into a slot; the previous
/// occupant of the slot, if any, is overwritten and not returned to the
/// inventory.
pub open spec fn equip_bound(e: EquipmentView, slot: EquipSlot, name: Seq<char>) -> EquipmentView {
    match slot {
        EquipSlot::Armor => EquipmentView { armor: Some(name), ..e },
        EquipSlot::Helmet => EquipmentView { helmet: Some(name), ..e },
        EquipSlot::Amulet => EquipmentView { amulet: Some(name), ..e },
        EquipSlot::Gloves => EquipmentView { gloves: Some(name), ..e },
        EquipSlot::Ring => EquipmentView { ring: Some(name), ..e },
        EquipSlot::Weapon => EquipmentView { weapon: Some(name), ..e },
        EquipSlot::Shield => EquipmentView { shield: Some(name), ..e },
        EquipSlot::Legs => EquipmentView { legs: Some(name), ..e },
        EquipSlot::Boots => EquipmentView { boots: Some(name), ..e },
    }
}

/// The five attributes an item bonus can raise; bonuses under any other stat
/// name are silently ignored.
#[derive(Clone, Copy, Debug, PartialEq, Eq, Structural)]
pub struct BonusBlock {
    pub strength: u32,
    pub endurance: u32,
    pub accuracy: u32,
    pub magic: u32,
    pub shield_skill: u32,
}

/// The bonus-modifiable attributes of a character.
pub open spec fn bonus_block(c: Character) -> BonusBlock {
    BonusBlock {
        strength: c.strength,
        endurance: c.endurance,
        accuracy: c.accuracy,
        magic: c.magic,
        shield_skill: c.shield_skill,
    }
}

/// One bonus applied: the named attribute is raised by `v`; unrecognized
/// names apply nothing.
pub open spec fn apply_bonus(b: BonusBlock, name: Seq<char>, v: u32) -> BonusBlock {
    if name == "strength"@ {
        BonusBlock { strength: (b.strength + v) as u32, ..b }
    } else if name == "endurance"@ {
        BonusBlock { endurance: (b.endurance + v) as u32, ..b }
    } else if name == "accuracy"@ {
        BonusBlock { accuracy: (b.accuracy + v) as u32, ..b }
    } else if name == "magic"@ {
        BonusBlock { magic: (b.magic + v) as u32, ..b }
    } else if name == "shield_skill"@ {
        BonusBlock { shield_skill: (b.shield_skill + v) as u32, ..b }
    } else {
        b
    }
}

/// One bonus stays within its attribute's machine width.
pub open spec fn bonus_fits(b: BonusBlock, name: Seq<char>, v: u32) -> bool {
    if name == "strength"@ {
        b.strength + v <= u32::MAX
    } else if name == "endurance"@ {
        b.endurance + v <= u32::MAX
    } else if name == "accuracy"@ {
        b.accuracy + v <= u32::MAX
    } else if name == "magic"@ {
        b.magic + v <= u32::MAX
    } else if name == "shield_skill"@ {
        b.shield_skill + v <= u32::MAX
    } else {
        true
    }
}

/// All of an item's bonuses applied in order.
pub open spec fn apply_bonuses(b: BonusBlock, stats: Seq<StatBonus>) -> BonusBlock
    decreases stats.len(),
{
    if stats.len() == 0 {
        b
    } else {
        apply_bonuses(apply_bonus(b, stats[0].name@, stats[0].value), stats.skip(1))
    }
}

/// Every bonus of the list, applied in order, stays within its attribute's
/// machine width.
pub open spec fn bonuses_fit(b: BonusBlock, stats: Seq<StatBonus>) -> bool
    decreases stats.len(),
{
    if stats.len() == 0 {
        true
    } else {
        &&& bonus_fits(b, stats[0].name@, stats[0].value)
        &&& bonuses_fit(apply_bonus(b, stats[0].name@, stats[0].value), stats.skip(1))
    }
}

/// The two characters agree on every field equipping an item leaves alone:
/// all but the inventory, the equipment, and the five bonus-modifiable
/// attributes.
pub open spec fn same_character_except_equip(c1: Character, c2: Character) -> bool {
    &&& c1.name == c2.name
    &&& c1.race == c2.race
    &&& c1.profession == c2.profession
    &&& c1.level == c2.level
    &&& c1.experience == c2.experience
    &&& c1.gold == c2.gold
    &&& c1.guild == c2.guild
    &&& c1.skill_points == c2.skill_points
    &&& c1.wisdom == c2.wisdom
    &&& c1.mystic == c2.mystic
    &&& c1.agility == c2.agility
    &&& c1.intellect == c2.intellect
    &&& c1.luck == c2.luck
    &&& c1.sword == c2.sword
    &&& c1.spear == c2.spear
    &&& c1.axe == c2.axe
    &&& c1.dagger == c2.dagger
    &&& c1.bow == c2.bow
    &&& c1.rune_magic == c2.rune_magic
    &&& c1.magic_resistance == c2.magic_resistance
    &&& c1.healing == c2.healing
    &&& c1.mining == c2.mining
    &&& c1.fishing == c2.fishing
    &&& c1.alchemy == c2.alchemy
    &&& c1.skill_tree == c2.skill_tree
    &&& c1.x == c2.x
    &&& c1.y == c2.y
    &&& c1.location == c2.location
}

/// The slot named by an item's slot field, if recognized.
fn parse_slot_exec(s: &str) -> (r: Option<EquipSlot>)
    ensures
        r == parse_slot(s@),
{
    if str_eq(s, "armor") {
        Some(EquipSlot::Armor)
    } else if str_eq(s, "helmet") {
        Some(EquipSlot::Helmet)
    } else if str_eq(s, "amulet") {
        Some(EquipSlot::Amulet)
    } else if str_eq(s, "gloves") {
        Some(EquipSlot::Gloves)
    } else if str_eq(s, "ring") {
        Some(EquipSlot::Ring)
    } else if str_eq(s, "weapon") {
        Some(EquipSlot::Weapon)
    } else if str_eq(s, "shield") {
        Some(EquipSlot::Shield)
    } else if str_eq(s, "legs") {
        Some(EquipSlot::Legs)
    } else if str_eq(s, "boots") {
        Some(EquipSlot::Boots)
    } else {
        None
    }
}

/// Find the first catalog item with this id.
fn items_find(items: &Vec<Item>, id: u32) -> (r: Option<usize>)
    ensures
        match r {
            Some(i) => i < items@.len() && find_item(items@, id) == Some(items@[i as int]),
            None => find_item(items@, id) is None,
        },
{
    proof {
        assert(items@.skip(0) =~= items@);
    }
    let mut i: usize = 0;
    while i < items.len()
        invariant
            i <= items@.len(),
            find_item(items@, id) == find_item(items@.skip(i as int), id),
        decreases items@.len() - i,
    {
        proof {
            assert(items@.skip(i as int)[0] == items@[i as int]);
            assert(items@.skip(i as int).skip(1) =~= items@.skip(i as int + 1));
        }
        if items[i].id == id {
            return Some(i);
        }
        i = i + 1;
    }
    None
}

impl Game {
    /// Equip the catalog item with this id: one unit of it leaves the
    /// inventory, its name is bound into the slot its definition names
    /// (overwriting the previous occupant, which is not returned to the
    /// inventory), and each of its recognized stat bonuses is added to the
    /// matching attribute; unrecognized stat names are silently ignored.
    /// Fails with `NoCharacter`, with `NotFound` when the catalog has no item
    /// with this id or the inventory holds none of it, and with
    /// `InvalidInput` when the item's slot field names no known slot; all
    /// checks precede any change, so failures leave the game untouched.
    pub fn equip_item(&mut self, item_id: u32) -> (r: Result<(), GameError>)
        requires
            game_wf(*old(self)),
            (match (old(self).character, find_item(old(self).items@, item_id)) {
                (Some(c), Some(item)) => bonuses_fit(bonus_block(c), item.stats@),
                _ => true,
            }),
        ensures
            game_wf(*final(self)),
            (r is Ok <==> old(self).character is Some && find_item(
                old(self).items@,
                item_id,
            ) is Some && parse_slot(find_item(old(self).items@, item_id)->Some_0.slot@) is Some
                && inv_has(old(self).character->Some_0.inventory@, item_id)),
            old(self).character is None ==> r == Err::<(), GameError>(GameError::NoCharacter)
                && *final(self) == *old(self),
            old(self).character is Some && find_item(old(self).items@, item_id) is None ==> r
                == Err::<(), GameError>(GameError::NotFound) && *final(self) == *old(self),
            old(self).character is Some && find_item(old(self).items@, item_id) is Some
                && parse_slot(find_item(old(self).items@, item_id)->Some_0.slot@) is None ==> r
                == Err::<(), GameError>(GameError::InvalidInput) && *final(self) == *old(self),
            old(self).character is Some && find_item(old(self).items@, item_id) is Some
                && parse_slot(find_item(old(self).items@, item_id)->Some_0.slot@) is Some
                && !inv_has(old(self).character->Some_0.inventory@, item_id) ==> r == Err::<
                (),
                GameError,
            >(GameError::NotFound) && *final(self) == *old(self),
            old(self).character is Some && find_item(old(self).items@, item_id) is Some
                && parse_slot(find_item(old(self).items@, item_id)->Some_0.slot@) is Some
                && inv_has(old(self).character->Some_0.inventory@, item_id) ==> {
                let c = old(self).character->Some_0;
                let item = find_item(old(self).items@, item_id)->Some_0;
                let slot = parse_slot(item.slot@)->Some_0;
                &&& r == Ok::<(), GameError>(())
                &&& final(self).character is Some
                &&& final(self).character->Some_0.inventory@ == inv_remove(
                    c.inventory@,
                    item_id,
                    1,
                )
                &&& final(self).character->Some_0.equipment@ == equip_bound(
                    c.equipment@,
                    slot,
                    item.name@,
                )
                &&& bonus_block(final(self).character->Some_0) == apply_bonuses(
                    bonus_block(c),
                    item.stats@,
                )
                &&& same_character_except_equip(c, final(self).character->Some_0)
                &&& same_game_except_character(*old(self), *final(self))
            },
    {
        if self.character.is_none() {
            return Err(GameError::NoCharacter);
        }
        let item_i = match items_find(&self.items, item_id) {
            Some(i) => i,
            None => {
                return Err(GameError::NotFound);
            },
        };
        let slot = match parse_slot_exec(self.items[item_i].slot.as_str()) {
            Some(s) => s,
            None => {
                return Err(GameError::InvalidInput);
            },
        };
        // Fold the item's bonuses over the current attributes first; nothing
        // is written until every check has passed.
        let mut block = match &self.character {
            Some(c) => BonusBlock {
                strength: c.strength,
                endurance: c.endurance,
                accuracy: c.accuracy,
                magic: c.magic,
                shield_skill: c.shield_skill,
            },
            None => {
                return Err(GameError::NoCharacter);
            },
        };
        let ghost b0 = block;
        let stats = &self.items[item_i].stats;
        proof {
            assert(stats@.skip(0) =~= stats@);
        }
        let mut k: usize = 0;
        while k < stats.len()
            invariant
                k <= stats@.len(),
                apply_bonuses(b0, stats@) == apply_bonuses(block, stats@.skip(k as int)),
                bonuses_fit(block, stats@.skip(k as int)),
            decreases stats@.len() - k,
        {
            proof {
                assert(stats@.skip(k as int)[0] == stats@[k as int]);
                assert(stats@.skip(k as int).skip(1) =~= stats@.skip(k as int + 1));
            }
            let v = stats[k].value;
            if str_eq(stats[k].name.as_str(), "strength") {
                block.strength = block.strength + v;
            } else if str_eq(stats[k].name.as_str(), "endurance") {
                block.endurance = block.endurance + v;
            } else if str_eq(stats[k].name.as_str(), "accuracy") {
                block.accuracy = block.accuracy + v;
            } else if str_eq(stats[k].name.as_str(), "magic") {
                block.magic = block.magic + v;
            } else if str_eq(stats[k].name.as_str(), "shield_skill") {
                block.shield_skill = block.shield_skill + v;
            }
            k = k + 1;
        }
        let item_name = self.items[item_i].name.clone();
        let c = match &mut self.character {
            Some(c) => c,
            None => {
                return Err(GameError::NoCharacter);
            },
        };
        match inventory_remove(&mut c.inventory, item_id, 1) {
            Ok(_) => {},
            Err(e) => {
                return Err(e);
            },
        }
        match slot {
            EquipSlot::Armor => c.equipment.armor = Some(item_name),
            EquipSlot::Helmet => c.equipment.helmet = Some(item_name),
            EquipSlot::Amulet => c.equipment.amulet = Some(item_name),
            EquipSlot::Gloves => c.equipment.gloves = Some(item_name),
            EquipSlot::Ring => c.equipment.ring = Some(item_name),
            EquipSlot::Weapon => c.equipment.weapon = Some(item_name),
            EquipSlot::Shield => c.equipment.shield = Some(item_name),
            EquipSlot::Legs => c.equipment.legs = Some(item_name),
            EquipSlot::Boots => c.equipment.boots = Some(item_name),
        }
        c.strength = block.strength;
        c.endurance = block.endurance;
        c.accuracy = block.accuracy;
        c.magic = block.magic;
        c.shield_skill = block.shield_skill;
        Ok(())
    }
}

} // verus!
