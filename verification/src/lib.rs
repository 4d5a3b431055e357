//! Game-state engine for a tile-based role-playing game: a single owned
//! character with attributes, inventory, equipment and a skill-tree graph,
//! resolved actions (combat, leveling, equipping, skill unlocking, movement
//! validation) against immutable catalog data (items, monsters, maps) and a
//! registry of remote player snapshots.

pub mod catalog;
pub mod combat;
pub mod creation;
pub mod equipment;
pub mod errors;
pub mod game;
pub mod inventory;
pub mod movement;
pub mod narrate;
pub mod rng;
pub mod skills;
pub mod strutil;
pub mod types;
