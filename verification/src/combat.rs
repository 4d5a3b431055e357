use vstd::prelude::*;

use crate::errors::GameError;
use crate::game::{game_wf, monster_wf, same_game_except_character, Game};
use crate::inventory::{inv_add, inv_qty, inventory_add};
use crate::narrate::{narrate_player_attack, narrate_survival, narrate_victory};
use crate::rng::{rand_below, rand_between};
use crate::strutil::str_eq;
use crate::types::{Character, FightOutcome, Monster, Player, Profession, StatBonus};

verus! {

/// Whether player-versus-player combat is permitted in this location. The
/// non-PvP set is closed ("Town", "Temple", "Building"); every other name,
/// known or not, permits PvP — a deliberate fail-open default.
pub open spec fn spec_is_pvp_zone(loc: Seq<char>) -> bool {
    !(loc == "Town"@ || loc == "Temple"@ || loc == "Building"@)
}

/// Whether player-versus-player combat is permitted in this location.
pub fn is_pvp_zone(location: &str) -> (r: bool)
    ensures
        r == spec_is_pvp_zone(location@),
{
    !(str_eq(location, "Town") || str_eq(location, "Temple") || str_eq(location, "Building"))
}

/// The character's raw damage: the floor of the mean of strength and
/// accuracy.
pub open spec fn damage_of(c: Character) -> int {
    (c.strength + c.accuracy) / 2
}

/// The value of the first stat of this name, or zero when none is listed.
pub open spec fn stat_lookup(stats: Seq<StatBonus>, name: Seq<char>) -> u32
    decreases stats.len(),
{
    if stats.len() == 0 {
        0
    } else if stats[0].name@ == name {
        stats[0].value
    } else {
        stat_lookup(stats.skip(1), name)
    }
}

/// A monster's health stat; a monster that lists none has health zero and is
/// defeated by any character.
pub open spec fn monster_health(m: Monster) -> u32 {
    stat_lookup(m.stats@, "health"@)
}

/// The first remote-player snapshot under this wallet, if any.
pub open spec fn find_player(players: Seq<Player>, wallet: Seq<char>) -> Option<Player>
    decreases players.len(),
{
    if players.len() == 0 {
        None
    } else if players[0].wallet@ == wallet {
        Some(players[0])
    } else {
        find_player(players.skip(1), wallet)
    }
}

/// The proficiency counter trained by the character's profession.
pub open spec fn trained_skill(c: Character) -> u32 {
    match c.profession {
        Profession::Warrior => c.sword,
        Profession::Mage => c.magic,
        Profession::Archer => c.bow,
        Profession::Blacksmith => c.mining,
    }
}

/// Every counter a victory can raise has headroom for the largest possible
/// reward, so no reward overflows its machine width.
pub open spec fn monster_fight_fits(c: Character, m: Monster) -> bool {
    &&& c.experience + m.exp_reward <= u64::MAX
    &&& c.gold + m.gold_reward@[1] <= u64::MAX
    &&& c.skill_points + 1 <= u32::MAX
    &&& c.strength + 2 <= u32::MAX
    &&& c.endurance + 2 <= u32::MAX
    &&& c.agility + 2 <= u32::MAX
    &&& c.level + 1 <= u32::MAX
    &&& trained_skill(c) + 4 <= u32::MAX
    &&& forall|d: u32| 1 <= d <= 4 ==> inv_qty(c.inventory@, d) + 1 <= u32::MAX
}

/// The two characters agree on every field a monster victory leaves alone.
pub open spec fn same_character_except_monster_rewards(c1: Character, c2: Character) -> bool {
    &&& c1.name == c2.name
    &&& c1.race == c2.race
    &&& c1.profession == c2.profession
    &&& c1.guild == c2.guild
    &&& c1.wisdom == c2.wisdom
    &&& c1.mystic == c2.mystic
    &&& c1.accuracy == c2.accuracy
    &&& c1.intellect == c2.intellect
    &&& c1.luck == c2.luck
    &&& c1.spear == c2.spear
    &&& c1.axe == c2.axe
    &&& c1.dagger == c2.dagger
    &&& c1.shield_skill == c2.shield_skill
    &&& c1.rune_magic == c2.rune_magic
    &&& c1.magic_resistance == c2.magic_resistance
    &&& c1.healing == c2.healing
    &&& c1.fishing == c2.fishing
    &&& c1.alchemy == c2.alchemy
    &&& c1.equipment == c2.equipment
    &&& c1.skill_tree == c2.skill_tree
    &&& c1.x == c2.x
    &&& c1.y == c2.y
    &&& c1.location == c2.location
}

/// The character after defeating monster `m` with the given random draws:
/// the experience reward and the rolled gold are awarded, one skill point is
/// granted, one unit of the rolled item drop joins the inventory, the
/// profession's proficiency gains the rolled amount, and at most one level-up
/// fires, exactly when the new experience reaches level x 100.
pub open spec fn monster_defeat_applied(
    c: Character,
    m: Monster,
    gold_roll: u32,
    skill_roll: u32,
    item_roll: u32,
    out: Character,
) -> bool {
    let leveled = c.experience + m.exp_reward >= c.level * 100;
    &&& out.experience == c.experience + m.exp_reward
    &&& out.gold == c.gold + gold_roll
    &&& out.skill_points == c.skill_points + 1
    &&& out.inventory@ == inv_add(c.inventory@, item_roll, 1)
    &&& out.level == c.level + (if leveled {
        1int
    } else {
        0int
    })
    &&& out.strength == c.strength + (if leveled {
        2int
    } else {
        0int
    })
    &&& out.endurance == c.endurance + (if leveled {
        2int
    } else {
        0int
    })
    &&& out.agility == c.agility + (if leveled {
        2int
    } else {
        0int
    })
    &&& out.sword == c.sword + (if c.profession == Profession::Warrior {
        skill_roll as int
    } else {
        0int
    })
    &&& out.magic == c.magic + (if c.profession == Profession::Mage {
        skill_roll as int
    } else {
        0int
    })
    &&& out.bow == c.bow + (if c.profession == Profession::Archer {
        skill_roll as int
    } else {
        0int
    })
    &&& out.mining == c.mining + (if c.profession == Profession::Blacksmith {
        skill_roll as int
    } else {
        0int
    })
    &&& same_character_except_monster_rewards(c, out)
}

/// The outcome reported for a victory over `m` with the given draws.
pub open spec fn defeat_outcome(c: Character, m: Monster, gold_roll: u32, item_roll: u32) -> FightOutcome {
    FightOutcome::Defeated {
        exp_gain: m.exp_reward,
        gold_gain: gold_roll,
        item_drop: item_roll,
        leveled_up: c.experience + m.exp_reward >= c.level * 100,
    }
}

/// One round of monster combat against monster `idx` with the given draws,
/// as a relation between the session before and after: with the draws in
/// range, the monster is defeated exactly when its health is at most the
/// character's damage, a defeat awards as `monster_defeat_applied` says, and
/// a survival changes nothing.
pub open spec fn monster_fight_transition(
    g0: Game,
    g1: Game,
    idx: int,
    gold_roll: u32,
    skill_roll: u32,
    item_roll: u32,
) -> bool {
    let c = g0.character->Some_0;
    let m = g0.monsters@[idx];
    &&& 0 <= idx < g0.monsters@.len()
    &&& m.gold_reward@[0] <= gold_roll <= m.gold_reward@[1]
    &&& 1 <= skill_roll <= 4
    &&& 1 <= item_roll <= 4
    &&& if damage_of(c) >= monster_health(m) {
        &&& g1.character is Some
        &&& monster_defeat_applied(c, m, gold_roll, skill_roll, item_roll, g1.character->Some_0)
        &&& same_game_except_character(g0, g1)
    } else {
        g1 == g0
    }
}

/// The two characters agree on everything but experience and gold, the only
/// two fields a player fight touches.
pub open spec fn same_character_except_pvp_rewards(c1: Character, c2: Character) -> bool {
    &&& c1.name == c2.name
    &&& c1.race == c2.race
    &&& c1.profession == c2.profession
    &&& c1.level == c2.level
    &&& c1.guild == c2.guild
    &&& c1.skill_points == c2.skill_points
    &&& c1.strength == c2.strength
    &&& c1.endurance == c2.endurance
    &&& c1.wisdom == c2.wisdom
    &&& c1.mystic == c2.mystic
    &&& c1.agility == c2.agility
    &&& c1.accuracy == c2.accuracy
    &&& c1.intellect == c2.intellect
    &&& c1.luck == c2.luck
    &&& c1.sword == c2.sword
    &&& c1.spear == c2.spear
    &&& c1.axe == c2.axe
    &&& c1.dagger == c2.dagger
    &&& c1.bow == c2.bow
    &&& c1.shield_skill == c2.shield_skill
    &&& c1.magic == c2.magic
    &&& c1.rune_magic == c2.rune_magic
    &&& c1.magic_resistance == c2.magic_resistance
    &&& c1.healing == c2.healing
    &&& c1.mining == c2.mining
    &&& c1.fishing == c2.fishing
    &&& c1.alchemy == c2.alchemy
    &&& c1.equipment == c2.equipment
    &&& c1.inventory == c2.inventory
    &&& c1.skill_tree == c2.skill_tree
    &&& c1.x == c2.x
    &&& c1.y == c2.y
    &&& c1.location == c2.location
}

/// The character after a one-sided player fight against target `t`: five
/// experience per target level and the rolled gold are awarded; the target
/// suffers nothing.
pub open spec fn player_fight_applied(c: Character, t: Player, gold_roll: u32, out: Character) -> bool {
    &&& out.experience == c.experience + t.level * 5
    &&& out.gold == c.gold + gold_roll
    &&& same_character_except_pvp_rewards(c, out)
}

/// Law: a victory raises the level by at most one — exactly when the new
/// experience reaches level x 100 — and never twice in one fight, whatever
/// the rolls were.
pub proof fn lemma_single_level_up(
    c: Character,
    m: Monster,
    gold_roll: u32,
    skill_roll: u32,
    item_roll: u32,
    out: Character,
)
    requires
        monster_defeat_applied(c, m, gold_roll, skill_roll, item_roll, out),
    ensures
        out.level == c.level || out.level == c.level + 1,
        (out.level == c.level + 1) <==> (c.experience + m.exp_reward >= c.level * 100),
        out.experience == c.experience + m.exp_reward,
{
}

/// Law: "Town", "Temple" and "Building" are the non-PvP zones; "Wilderness"
/// and the other world locations permit PvP.
pub proof fn lemma_pvp_zone_examples()
    ensures
        !spec_is_pvp_zone("Town"@),
        !spec_is_pvp_zone("Temple"@),
        !spec_is_pvp_zone("Building"@),
        spec_is_pvp_zone("Wilderness"@),
        spec_is_pvp_zone("HuntingGround"@),
        spec_is_pvp_zone("BossArea"@),
        spec_is_pvp_zone("QuestArea"@),
        spec_is_pvp_zone("Castle"@),
        spec_is_pvp_zone("Island"@),
{
    reveal_strlit("Town");
    reveal_strlit("Temple");
    reveal_strlit("Building");
    reveal_strlit("Wilderness");
    reveal_strlit("HuntingGround");
    reveal_strlit("BossArea");
    reveal_strlit("QuestArea");
    reveal_strlit("Castle");
    reveal_strlit("Island");
    assert("Town"@.len() == 4);
    assert("Temple"@.len() == 6);
    assert("Building"@.len() == 8);
    assert("Wilderness"@.len() == 10);
    assert("HuntingGround"@.len() == 13);
    assert("BossArea"@.len() == 8);
    assert("QuestArea"@.len() == 9);
    assert("Castle"@.len() == 6);
    assert("Island"@.len() == 6);
    // Same-length pairs differ in their first character.
    assert("BossArea"@[1] != "Building"@[1]);
    assert("Castle"@[0] != "Temple"@[0]);
    assert("Island"@[0] != "Temple"@[0]);
}

/// Law: whatever was rolled, the gold awarded for a defeated monster lies
/// within its inclusive reward range.
pub proof fn lemma_gold_reward_in_range(
    g0: Game,
    g1: Game,
    idx: int,
    gold_roll: u32,
    skill_roll: u32,
    item_roll: u32,
)
    requires
        g0.character is Some,
        monster_fight_transition(g0, g1, idx, gold_roll, skill_roll, item_roll),
        damage_of(g0.character->Some_0) >= monster_health(g0.monsters@[idx]),
    ensures
        g1.character is Some,
        g0.monsters@[idx].gold_reward@[0] <= g1.character->Some_0.gold
            - g0.character->Some_0.gold <= g0.monsters@[idx].gold_reward@[1],
{
}

/// Find the first remote-player snapshot under this wallet.
fn players_find(players: &Vec<Player>, wallet: &str) -> (r: Option<usize>)
    ensures
        match r {
            Some(i) => i < players@.len() && find_player(players@, wallet@) == Some(
                players@[i as int],
            ),
            None => find_player(players@, wallet@) is None,
        },
{
    proof {
        assert(players@.skip(0) =~= players@);
    }
    let mut i: usize = 0;
    while i < players.len()
        invariant
            i <= players@.len(),
            find_player(players@, wallet@) == find_player(players@.skip(i as int), wallet@),
        decreases players@.len() - i,
    {
        proof {
            assert(players@.skip(i as int)[0] == players@[i as int]);
            assert(players@.skip(i as int).skip(1) =~= players@.skip(i as int + 1));
        }
        if str_eq(players[i].wallet.as_str(), wallet) {
            return Some(i);
        }
        i = i + 1;
    }
    None
}

/// The value of the first stat of this name, or zero when none is listed.
fn stat_value(stats: &Vec<StatBonus>, name: &str) -> (r: u32)
    ensures
        r == stat_lookup(stats@, name@),
{
    proof {
        assert(stats@.skip(0) =~= stats@);
    }
    let mut i: usize = 0;
    while i < stats.len()
        invariant
            i <= stats@.len(),
            stat_lookup(stats@, name@) == stat_lookup(stats@.skip(i as int), name@),
        decreases stats@.len() - i,
    {
        proof {
            assert(stats@.skip(i as int)[0] == stats@[i as int]);
            assert(stats@.skip(i as int).skip(1) =~= stats@.skip(i as int + 1));
        }
        if str_eq(stats[i].name.as_str(), name) {
            return stats[i].value;
        }
        i = i + 1;
    }
    0
}

impl Game {
    /// One round of monster combat against the monster at `monster_idx` of
    /// the catalog, with every random draw passed in, so that the resolution
    /// itself is deterministic: `gold_roll` from the monster's inclusive gold
    /// range, `skill_roll` from [1, 4], `item_roll` from [1, 4]. Fails with
    /// `NoCharacter`, or with `NotFound` when the catalog holds no monsters.
    /// The monster is defeated exactly when its health is at most the
    /// character's damage, floor((strength + accuracy) / 2); a defeat awards
    /// as `monster_defeat_applied` says, a survival changes nothing.
    pub fn fight_monster_with_rolls(
        &mut self,
        monster_idx: usize,
        gold_roll: u32,
        skill_roll: u32,
        item_roll: u32,
    ) -> (r: Result<FightOutcome, GameError>)
        requires
            game_wf(*old(self)),
            old(self).character is Some && old(self).monsters@.len() > 0 ==> {
                let c = old(self).character->Some_0;
                let m = old(self).monsters@[monster_idx as int];
                &&& monster_idx < old(self).monsters@.len()
                &&& m.gold_reward@[0] <= gold_roll <= m.gold_reward@[1]
                &&& 1 <= skill_roll <= 4
                &&& 1 <= item_roll <= 4
                &&& monster_fight_fits(c, m)
            },
        ensures
            game_wf(*final(self)),
            old(self).character is None ==> r == Err::<FightOutcome, GameError>(
                GameError::NoCharacter,
            ) && *final(self) == *old(self),
            old(self).character is Some && old(self).monsters@.len() == 0 ==> r == Err::<
                FightOutcome,
                GameError,
            >(GameError::NotFound) && *final(self) == *old(self),
            old(self).character is Some && old(self).monsters@.len() > 0 ==> {
                let c = old(self).character->Some_0;
                let m = old(self).monsters@[monster_idx as int];
                &&& r is Ok
                &&& monster_fight_transition(
                    *old(self),
                    *final(self),
                    monster_idx as int,
                    gold_roll,
                    skill_roll,
                    item_roll,
                )
                &&& (damage_of(c) >= monster_health(m) ==> r == Ok::<FightOutcome, GameError>(
                    defeat_outcome(c, m, gold_roll, item_roll),
                ))
                &&& (damage_of(c) < monster_health(m) ==> r == Ok::<FightOutcome, GameError>(
                    FightOutcome::Survived,
                ))
            },
    {
        if self.character.is_none() {
            return Err(GameError::NoCharacter);
        }
        if self.monsters.len() == 0 {
            return Err(GameError::NotFound);
        }
        let m_exp = self.monsters[monster_idx].exp_reward;
        let health = stat_value(&self.monsters[monster_idx].stats, "health");
        let c = match &mut self.character {
            Some(c) => c,
            None => {
                return Err(GameError::NoCharacter);
            },
        };
        let damage: u64 = ((c.strength as u64) + (c.accuracy as u64)) / 2;
        if damage >= health as u64 {
            c.experience = c.experience + (m_exp as u64);
            c.gold = c.gold + (gold_roll as u64);
            c.skill_points = c.skill_points + 1;
            inventory_add(&mut c.inventory, item_roll, 1);
            let next_level_exp: u64 = (c.level as u64) * 100;
            let leveled_up = c.experience >= next_level_exp;
            if leveled_up {
                c.level = c.level + 1;
                c.strength = c.strength + 2;
                c.endurance = c.endurance + 2;
                c.agility = c.agility + 2;
            }
            match c.profession {
                Profession::Warrior => c.sword = c.sword + skill_roll,
                Profession::Mage => c.magic = c.magic + skill_roll,
                Profession::Archer => c.bow = c.bow + skill_roll,
                Profession::Blacksmith => c.mining = c.mining + skill_roll,
            }
            Ok(
                FightOutcome::Defeated {
                    exp_gain: m_exp,
                    gold_gain: gold_roll,
                    item_drop: item_roll,
                    leveled_up,
                },
            )
        } else {
            Ok(FightOutcome::Survived)
        }
    }

    /// One round of monster combat against a monster drawn uniformly from the
    /// whole catalog (not scoped to the character's location), with the gold,
    /// proficiency and item-drop rewards drawn as `monster_fight_transition`
    /// says; a narration describes either outcome. Fails with `NoCharacter`,
    /// or with `NotFound` when the catalog holds no monsters.
    pub fn fight_monster(&mut self) -> (r: Result<String, GameError>)
        requires
            game_wf(*old(self)),
            old(self).character is Some && old(self).monsters@.len() > 0 ==> forall|i: int|
                0 <= i < old(self).monsters@.len() ==> monster_fight_fits(
                    old(self).character->Some_0,
                    #[trigger] old(self).monsters@[i],
                ),
        ensures
            game_wf(*final(self)),
            old(self).character is None ==> r == Err::<String, GameError>(GameError::NoCharacter)
                && *final(self) == *old(self),
            old(self).character is Some && old(self).monsters@.len() == 0 ==> r == Err::<
                String,
                GameError,
            >(GameError::NotFound) && *final(self) == *old(self),
            old(self).character is Some && old(self).monsters@.len() > 0 ==> r is Ok && (exists|
                idx: int,
                gold_roll: u32,
                skill_roll: u32,
                item_roll: u32,
            |
                monster_fight_transition(
                    *old(self),
                    *final(self),
                    idx,
                    gold_roll,
                    skill_roll,
                    item_roll,
                )),
    {
        if self.character.is_none() {
            return Err(GameError::NoCharacter);
        }
        if self.monsters.len() == 0 {
            return Err(GameError::NotFound);
        }
        let monster_idx = rand_below(self.monsters.len());
        let gold_lo = self.monsters[monster_idx].gold_reward[0];
        let gold_hi = self.monsters[monster_idx].gold_reward[1];
        let gold_roll = rand_between(gold_lo, gold_hi);
        let skill_roll = rand_between(1, 4);
        let item_roll = rand_between(1, 4);
        let monster_name = self.monsters[monster_idx].name.clone();
        let monster_level = self.monsters[monster_idx].level;
        let outcome = self.fight_monster_with_rolls(monster_idx, gold_roll, skill_roll, item_roll);
        proof {
            assert(monster_fight_transition(
                *old(self),
                *self,
                monster_idx as int,
                gold_roll,
                skill_roll,
                item_roll,
            ));
        }
        match outcome {
            Ok(FightOutcome::Defeated { exp_gain, gold_gain, item_drop, leveled_up: _ }) => Ok(
                narrate_victory(monster_name.as_str(), monster_level, exp_gain, gold_gain, item_drop),
            ),
            Ok(FightOutcome::Survived) => Ok(narrate_survival(monster_name.as_str())),
            Err(e) => Err(e),
        }
    }

    /// One round of player-versus-player combat against the first snapshot
    /// under `target_wallet`, with the gold draw passed in, so that the
    /// resolution itself is deterministic. Fails with `NoCharacter`, with
    /// `InvalidState` in a non-PvP location, and with `NotFound` when no
    /// snapshot carries that wallet. The attacker always wins: five
    /// experience per target level and the rolled gold are awarded; the
    /// target suffers nothing.
    pub fn fight_player_with_roll(&mut self, target_wallet: &str, gold_roll: u32) -> (r: Result<
        String,
        GameError,
    >)
        requires
            game_wf(*old(self)),
            20 <= gold_roll <= 99,
            (match (
                old(self).character,
                find_player(old(self).other_players@, target_wallet@),
            ) {
                (Some(c), Some(t)) => c.experience + t.level * 5 <= u64::MAX && c.gold + gold_roll
                    <= u64::MAX,
                _ => true,
            }),
        ensures
            game_wf(*final(self)),
            old(self).character is None ==> r == Err::<String, GameError>(GameError::NoCharacter)
                && *final(self) == *old(self),
            old(self).character is Some && !spec_is_pvp_zone(
                old(self).character->Some_0.location@,
            ) ==> r == Err::<String, GameError>(GameError::InvalidState) && *final(self) == *old(
                self,
            ),
            old(self).character is Some && spec_is_pvp_zone(old(self).character->Some_0.location@)
                && find_player(old(self).other_players@, target_wallet@) is None ==> r == Err::<
                String,
                GameError,
            >(GameError::NotFound) && *final(self) == *old(self),
            old(self).character is Some && spec_is_pvp_zone(old(self).character->Some_0.location@)
                && find_player(old(self).other_players@, target_wallet@) is Some ==> {
                let c = old(self).character->Some_0;
                let t = find_player(old(self).other_players@, target_wallet@)->Some_0;
                &&& r is Ok
                &&& final(self).character is Some
                &&& player_fight_applied(c, t, gold_roll, final(self).character->Some_0)
                &&& final(self).character->Some_0.gold > c.gold
                &&& final(self).character->Some_0.experience >= c.experience
                &&& same_game_except_character(*old(self), *final(self))
            },
    {
        let pvp = match &self.character {
            Some(c) => is_pvp_zone(c.location.as_str()),
            None => {
                return Err(GameError::NoCharacter);
            },
        };
        if !pvp {
            return Err(GameError::InvalidState);
        }
        let target_idx = match players_find(&self.other_players, target_wallet) {
            Some(i) => i,
            None => {
                return Err(GameError::NotFound);
            },
        };
        let target_level = self.other_players[target_idx].level;
        let target_name = self.other_players[target_idx].name.clone();
        let c = match &mut self.character {
            Some(c) => c,
            None => {
                return Err(GameError::NoCharacter);
            },
        };
        let exp_gain: u64 = (target_level as u64) * 5;
        c.experience = c.experience + exp_gain;
        c.gold = c.gold + (gold_roll as u64);
        Ok(narrate_player_attack(target_name.as_str(), target_level, exp_gain, c.gold))
    }

    /// One round of player-versus-player combat against the first snapshot
    /// under `target_wallet`, with the gold reward drawn uniformly from
    /// [20, 99]. Fails with `NoCharacter`, with `InvalidState` in a non-PvP
    /// location, and with `NotFound` when no snapshot carries that wallet;
    /// a success strictly increases gold and never decreases experience.
    pub fn fight_player(&mut self, target_wallet: String) -> (r: Result<String, GameError>)
        requires
            game_wf(*old(self)),
            (match (
                old(self).character,
                find_player(old(self).other_players@, target_wallet@),
            ) {
                (Some(c), Some(t)) => c.experience + t.level * 5 <= u64::MAX && c.gold + 99
                    <= u64::MAX,
                _ => true,
            }),
        ensures
            game_wf(*final(self)),
            old(self).character is None ==> r == Err::<String, GameError>(GameError::NoCharacter)
                && *final(self) == *old(self),
            old(self).character is Some && !spec_is_pvp_zone(
                old(self).character->Some_0.location@,
            ) ==> r == Err::<String, GameError>(GameError::InvalidState) && *final(self) == *old(
                self,
            ),
            old(self).character is Some && spec_is_pvp_zone(old(self).character->Some_0.location@)
                && find_player(old(self).other_players@, target_wallet@) is None ==> r == Err::<
                String,
                GameError,
            >(GameError::NotFound) && *final(self) == *old(self),
            old(self).character is Some && spec_is_pvp_zone(old(self).character->Some_0.location@)
                && find_player(old(self).other_players@, target_wallet@) is Some ==> {
                let c = old(self).character->Some_0;
                let t = find_player(old(self).other_players@, target_wallet@)->Some_0;
                &&& r is Ok
                &&& final(self).character is Some
                &&& (exists|gold_roll: u32|
                    20 <= gold_roll <= 99 && player_fight_applied(
                        c,
                        t,
                        gold_roll,
                        final(self).character->Some_0,
                    ))
                &&& final(self).character->Some_0.gold > c.gold
                &&& final(self).character->Some_0.experience >= c.experience
                &&& same_game_except_character(*old(self), *final(self))
            },
    {
        let gold_roll = rand_between(20, 99);
        self.fight_player_with_roll(target_wallet.as_str(), gold_roll)
    }
}

} // verus!
