use vstd::prelude::*;

verus! {

/// A playable race.
#[derive(Clone, Copy, Debug, PartialEq, Eq, Structural)]
pub enum Race {
    Human,
    Elf,
    Dwarf,
    Orc,
}

/// A character profession; it selects the seeded proficiency at creation and
/// the proficiency trained by monster combat.
#[derive(Clone, Copy, Debug, PartialEq, Eq, Structural)]
pub enum Profession {
    Warrior,
    Mage,
    Archer,
    Blacksmith,
}

/// The nine equipment-slot bindings. A slot holds the name of an item only if
/// that item was successfully equipped, which removed one unit of it from the
/// inventory.
#[derive(Clone, Debug)]
pub struct Equipment {
    pub armor: Option<String>,
    pub helmet: Option<String>,
    pub amulet: Option<String>,
    pub gloves: Option<String>,
    pub ring: Option<String>,
    pub weapon: Option<String>,
    pub shield: Option<String>,
    pub legs: Option<String>,
    pub boots: Option<String>,
}

/// The mathematical view of an [`Equipment`] record: each slot as an optional
/// character sequence.
pub struct EquipmentView {
    pub armor: Option<Seq<char>>,
    pub helmet: Option<Seq<char>>,
    pub amulet: Option<Seq<char>>,
    pub gloves: Option<Seq<char>>,
    pub ring: Option<Seq<char>>,
    pub weapon: Option<Seq<char>>,
    pub shield: Option<Seq<char>>,
    pub legs: Option<Seq<char>>,
    pub boots: Option<Seq<char>>,
}

/// The view of an optional item name.
pub open spec fn opt_name_view(o: Option<String>) -> Option<Seq<char>> {
    match o {
        Some(s) => Some(s@),
        None => None,
    }
}

impl View for Equipment {
    type V = EquipmentView;

    open spec fn view(&self) -> EquipmentView {
        EquipmentView {
            armor: opt_name_view(self.armor),
            helmet: opt_name_view(self.helmet),
            amulet: opt_name_view(self.amulet),
            gloves: opt_name_view(self.gloves),
            ring: opt_name_view(self.ring),
            weapon: opt_name_view(self.weapon),
            shield: opt_name_view(self.shield),
            legs: opt_name_view(self.legs),
            boots: opt_name_view(self.boots),
        }
    }
}

/// The view of an equipment record with every slot empty.
pub open spec fn empty_equipment_view() -> EquipmentView {
    EquipmentView {
        armor: None,
        helmet: None,
        amulet: None,
        gloves: None,
        ring: None,
        weapon: None,
        shield: None,
        legs: None,
        boots: None,
    }
}

impl Default for Equipment {
    /// An equipment record with every slot empty.
    fn default() -> (r: Equipment)
        ensures
            r@ == empty_equipment_view(),
    {
        Equipment {
            armor: None,
            helmet: None,
            amulet: None,
            gloves: None,
            ring: None,
            weapon: None,
            shield: None,
            legs: None,
            boots: None,
        }
    }
}

/// The nine recognized equipment slots an item definition can name.
#[derive(Clone, Copy, Debug, PartialEq, Eq, Structural)]
pub enum EquipSlot {
    Armor,
    Helmet,
    Amulet,
    Gloves,
    Ring,
    Weapon,
    Shield,
    Legs,
    Boots,
}

/// One stack of a stackable item: its catalog id and the held quantity.
/// A stack never holds quantity zero; depleted stacks are removed.
#[derive(Clone, Copy, Debug, PartialEq, Eq, Structural)]
pub struct InventoryItem {
    pub item_id: u32,
    pub quantity: u32,
}

/// One node of the skill-tree graph. `x` and `y` place the node for layout
/// only and carry no game meaning; `connections` lists the ids of adjacent
/// nodes of the undirected graph.
#[derive(Clone, Debug)]
pub struct SkillNode {
    pub id: u32,
    pub x: i32,
    pub y: i32,
    pub skill: String,
    pub connections: Vec<u32>,
    pub unlocked: bool,
}

/// One named stat bonus of a catalog item.
#[derive(Clone, Debug)]
pub struct StatBonus {
    pub name: String,
    pub value: u32,
}

/// An item definition of the immutable catalog.
#[derive(Clone, Debug)]
pub struct Item {
    pub id: u32,
    pub name: String,
    pub type_: String,
    pub slot: String,
    pub stats: Vec<StatBonus>,
    pub value: u32,
}

/// A monster definition of the immutable catalog. `gold_reward` is an
/// inclusive `[min, max]` range.
#[derive(Clone, Debug)]
pub struct Monster {
    pub id: u32,
    pub name: String,
    pub level: u32,
    pub stats: Vec<StatBonus>,
    pub exp_reward: u32,
    pub gold_reward: [u32; 2],
}

/// A tile map: a grid of tile-type names and a matching boolean collision
/// grid, both indexed `[row][column]`, that is `[y][x]`.
#[derive(Clone, Debug)]
pub struct TileMap {
    pub width: u32,
    pub height: u32,
    pub tiles: Vec<Vec<String>>,
    pub collisions: Vec<Vec<bool>>,
}

/// Both grids of a map have exactly `height` rows of exactly `width` columns.
pub open spec fn map_wf(m: TileMap) -> bool {
    &&& m.tiles@.len() == m.height
    &&& forall|i: int| 0 <= i < m.tiles@.len() ==> (#[trigger] m.tiles@[i])@.len() == m.width
    &&& m.collisions@.len() == m.height
    &&& forall|i: int|
        0 <= i < m.collisions@.len() ==> (#[trigger] m.collisions@[i])@.len() == m.width
}

/// A snapshot of a remote player, replaced wholesale on each world sync.
/// `x` and `y` are whole tile coordinates.
#[derive(Clone, Debug)]
pub struct Player {
    pub wallet: String,
    pub name: String,
    pub level: u32,
    pub x: u32,
    pub y: u32,
    pub location: String,
    pub equipment: Equipment,
}

/// The single owned character of a session. `x` and `y` are whole tile
/// coordinates; `location` names the map the character stands on.
#[derive(Clone, Debug)]
pub struct Character {
    pub name: String,
    pub race: Race,
    pub profession: Profession,
    pub level: u32,
    pub experience: u64,
    pub gold: u64,
    pub guild: Option<String>,
    pub skill_points: u32,
    pub strength: u32,
    pub endurance: u32,
    pub wisdom: u32,
    pub mystic: u32,
    pub agility: u32,
    pub accuracy: u32,
    pub intellect: u32,
    pub luck: u32,
    pub sword: u32,
    pub spear: u32,
    pub axe: u32,
    pub dagger: u32,
    pub bow: u32,
    pub shield_skill: u32,
    pub magic: u32,
    pub rune_magic: u32,
    pub magic_resistance: u32,
    pub healing: u32,
    pub mining: u32,
    pub fishing: u32,
    pub alchemy: u32,
    pub equipment: Equipment,
    pub inventory: Vec<InventoryItem>,
    pub skill_tree: Vec<SkillNode>,
    pub x: u32,
    pub y: u32,
    pub location: String,
}

/// The outcome of one round of monster combat, as reported to the caller.
#[derive(Clone, Copy, Debug, PartialEq, Eq, Structural)]
pub enum FightOutcome {
    /// The monster was defeated: the listed rewards were applied, and
    /// `leveled_up` says whether the one permitted level-up fired.
    Defeated { exp_gain: u32, gold_gain: u32, item_drop: u32, leveled_up: bool },
    /// The character's damage fell short; nothing changed.
    Survived,
}

} // verus!
