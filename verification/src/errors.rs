use vstd::prelude::*;

verus! {

/// The error taxonomy of the engine.
///
/// Every failing action reports one of these kinds; no action partially
/// commits on failure.
#[derive(Clone, Copy, Debug, PartialEq, Eq, Structural)]
pub enum GameError {
    /// The action needs a character, but none was created yet.
    NoCharacter,
    /// An input string (race, profession, equipment slot) or payload is not
    /// recognized.
    InvalidInput,
    /// A lookup by id, name or wallet found nothing (item, monster, node,
    /// player, map).
    NotFound,
    /// A quantity or skill-point shortfall.
    InsufficientResource,
    /// The action is not legal in the current state (already-unlocked node,
    /// locked prerequisite, non-PvP zone).
    InvalidState,
    /// A movement target outside the map or on an impassable tile.
    OutOfBounds,
}

} // verus!
