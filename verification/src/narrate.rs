use vstd::prelude::*;

verus! {

/// Relies on std's string formatting to compose the victory narration.
#[verifier::external_body]
pub(crate) fn narrate_victory(
    name: &str,
    level: u32,
    exp_gain: u32,
    gold_gain: u32,
    item_drop: u32,
) -> String {
    format!(
        "Defeated {} (Level {})! Gained {} EXP, {} gold, 1 skill point, and item {}.",
        name,
        level,
        exp_gain,
        gold_gain,
        item_drop,
    )
}

/// Relies on std's string formatting to compose the survival narration.
#[verifier::external_body]
pub(crate) fn narrate_survival(name: &str) -> String {
    format!("Attacked {} but it survived!", name)
}

/// Relies on std's string formatting to compose the attack narration of a
/// player fight; as in the rest of the engine, the gold figure reported is
/// the attacker's new total.
#[verifier::external_body]
pub(crate) fn narrate_player_attack(name: &str, level: u32, exp_gain: u64, total_gold: u64) -> String {
    format!("Attacked {} (Level {})! Gained {} EXP and {} gold.", name, level, exp_gain, total_gold)
}

} // verus!
