use vstd::prelude::*;

use crate::errors::GameError;
use crate::game::{game_wf, same_game_except_character, Game};
use crate::strutil::str_eq;
use crate::types::{Character, SkillNode};

verus! {

/// Skill-tree well-formedness: node ids are unique within the tree.
pub open spec fn tree_wf(tree: Seq<SkillNode>) -> bool {
    forall|i: int, j: int|
        0 <= i < j < tree.len() ==> (#[trigger] tree[i]).id != (#[trigger] tree[j]).id
}

/// Whether the tree holds a node with this id.
pub open spec fn tree_has(tree: Seq<SkillNode>, id: u32) -> bool {
    exists|i: int| 0 <= i < tree.len() && (#[trigger] tree[i]).id == id
}

/// The index of the node with this id; meaningful when `tree_has` holds and
/// the tree is well-formed, in which case the index is unique.
pub open spec fn tree_idx(tree: Seq<SkillNode>, id: u32) -> int {
    choose|i: int| 0 <= i < tree.len() && (#[trigger] tree[i]).id == id
}

/// Whether some already-unlocked node lists `id` among its connections: the
/// graph-reachability gate for unlocking any node other than node 0.
pub open spec fn has_unlocked_neighbor(tree: Seq<SkillNode>, id: u32) -> bool {
    exists|i: int|
        0 <= i < tree.len() && (#[trigger] tree[i]).unlocked && tree[i].connections@.contains(id)
}

/// All unlock gates pass: a skill point is available, the node exists and is
/// still locked, and it is node 0 or adjacent to an unlocked node.
pub open spec fn can_unlock(c: Character, node_id: u32) -> bool {
    &&& c.skill_points >= 1
    &&& tree_has(c.skill_tree@, node_id)
    &&& !c.skill_tree@[tree_idx(c.skill_tree@, node_id)].unlocked
    &&& (node_id == 0 || has_unlocked_neighbor(c.skill_tree@, node_id))
}

/// The one-time stat effect of a node, selected by exact match on its skill
/// description; descriptions that match no known effect apply nothing.
pub open spec fn apply_skill_effect(c: Character, skill: Seq<char>) -> Character {
    if skill == "+5 Strength"@ {
        Character { strength: (c.strength + 5) as u32, ..c }
    } else if skill == "+5 Sword"@ {
        Character { sword: (c.sword + 5) as u32, ..c }
    } else if skill == "+5 Endurance"@ {
        Character { endurance: (c.endurance + 5) as u32, ..c }
    } else if skill == "+10 Health"@ {
        Character { endurance: (c.endurance + 10) as u32, ..c }
    } else {
        c
    }
}

/// The stat touched by the node's effect stays within its machine width.
pub open spec fn skill_effect_fits(c: Character, skill: Seq<char>) -> bool {
    if skill == "+5 Strength"@ {
        c.strength + 5 <= u32::MAX
    } else if skill == "+5 Sword"@ {
        c.sword + 5 <= u32::MAX
    } else if skill == "+5 Endurance"@ {
        c.endurance + 5 <= u32::MAX
    } else if skill == "+10 Health"@ {
        c.endurance + 10 <= u32::MAX
    } else {
        true
    }
}

/// The two characters agree on everything the unlock of a node leaves alone:
/// all fields but the skill tree, the skill points, and the three stats a
/// node effect can raise.
pub open spec fn same_character_except_unlock(c1: Character, c2: Character) -> bool {
    &&& c1.name == c2.name
    &&& c1.race == c2.race
    &&& c1.profession == c2.profession
    &&& c1.level == c2.level
    &&& c1.experience == c2.experience
    &&& c1.gold == c2.gold
    &&& c1.guild == c2.guild
    &&& c1.wisdom == c2.wisdom
    &&& c1.mystic == c2.mystic
    &&& c1.agility == c2.agility
    &&& c1.accuracy == c2.accuracy
    &&& c1.intellect == c2.intellect
    &&& c1.luck == c2.luck
    &&& c1.spear == c2.spear
    &&& c1.axe == c2.axe
    &&& c1.dagger == c2.dagger
    &&& c1.bow == c2.bow
    &&& c1.shield_skill == c2.shield_skill
    &&& c1.magic == c2.magic
    &&& c1.rune_magic == c2.rune_magic
    &&& c1.magic_resistance == c2.magic_resistance
    &&& c1.healing == c2.healing
    &&& c1.mining == c2.mining
    &&& c1.fishing == c2.fishing
    &&& c1.alchemy == c2.alchemy
    &&& c1.equipment == c2.equipment
    &&& c1.inventory == c2.inventory
    &&& c1.x == c2.x
    &&& c1.y == c2.y
    &&& c1.location == c2.location
}

/// The character after a successful unlock of `node_id`: the node is marked
/// unlocked, exactly one skill point is spent, and the node's one-time effect
/// is applied.
pub open spec fn unlock_applied(c: Character, node_id: u32, out: Character) -> bool {
    let i = tree_idx(c.skill_tree@, node_id);
    let node = c.skill_tree@[i];
    let eff = apply_skill_effect(c, node.skill@);
    &&& out.skill_tree@ == c.skill_tree@.update(i, SkillNode { unlocked: true, ..node })
    &&& out.skill_points == c.skill_points - 1
    &&& out.strength == eff.strength
    &&& out.sword == eff.sword
    &&& out.endurance == eff.endurance
    &&& same_character_except_unlock(c, out)
}

/// Law: node 0 passes the adjacency gate unconditionally: with a skill point
/// available it is unlockable whenever it exists and is still locked,
/// whatever the rest of the tree looks like.
pub proof fn lemma_node_zero_unlockable(c: Character)
    requires
        c.skill_points >= 1,
        tree_has(c.skill_tree@, 0),
        !c.skill_tree@[tree_idx(c.skill_tree@, 0)].unlocked,
    ensures
        can_unlock(c, 0),
{
}

/// In a well-formed tree that has `id`, `tree_idx` is the one index of the
/// node with that id.
pub proof fn lemma_tree_idx(tree: Seq<SkillNode>, id: u32)
    requires
        tree_wf(tree),
        tree_has(tree, id),
    ensures
        0 <= tree_idx(tree, id) < tree.len(),
        tree[tree_idx(tree, id)].id == id,
        forall|k: int|
            0 <= k < tree.len() && (#[trigger] tree[k]).id == id ==> k == tree_idx(tree, id),
{
    let i = tree_idx(tree, id);
    assert(0 <= i < tree.len() && tree[i].id == id);
    assert forall|k: int| 0 <= k < tree.len() && (#[trigger] tree[k]).id == id implies k == i by {
        if k < i {
            assert(tree[k].id != tree[i].id);
        } else if i < k {
            assert(tree[i].id != tree[k].id);
        }
    }
}

/// Find the node with this id in a tree.
fn tree_find(tree: &Vec<SkillNode>, id: u32) -> (r: Option<usize>)
    ensures
        match r {
            Some(i) => i < tree@.len() && tree@[i as int].id == id,
            None => !tree_has(tree@, id),
        },
{
    let mut i: usize = 0;
    while i < tree.len()
        invariant
            i <= tree@.len(),
            forall|j: int| 0 <= j < i ==> (#[trigger] tree@[j]).id != id,
        decreases tree@.len() - i,
    {
        if tree[i].id == id {
            return Some(i);
        }
        i = i + 1;
    }
    None
}

/// Whether a vector of node ids contains `x`.
fn ids_contain(v: &Vec<u32>, x: u32) -> (r: bool)
    ensures
        r == v@.contains(x),
{
    let mut i: usize = 0;
    while i < v.len()
        invariant
            i <= v@.len(),
            forall|j: int| 0 <= j < i ==> v@[j] != x,
        decreases v@.len() - i,
    {
        if v[i] == x {
            return true;
        }
        i = i + 1;
    }
    false
}

/// Whether some unlocked node of the tree lists `id` among its connections.
fn find_unlocked_neighbor(tree: &Vec<SkillNode>, id: u32) -> (r: bool)
    ensures
        r == has_unlocked_neighbor(tree@, id),
{
    let mut i: usize = 0;
    while i < tree.len()
        invariant
            i <= tree@.len(),
            forall|j: int|
                0 <= j < i ==> !((#[trigger] tree@[j]).unlocked && tree@[j].connections@.contains(
                    id,
                )),
        decreases tree@.len() - i,
    {
        if tree[i].unlocked && ids_contain(&tree[i].connections, id) {
            return true;
        }
        i = i + 1;
    }
    false
}

impl Game {
    /// Unlock a node of the skill tree. In this order of checks, the action
    /// fails with `NoCharacter`, with `InsufficientResource` when no skill
    /// point is available, with `NotFound` when no node has `node_id`, and
    /// with `InvalidState` when the node is already unlocked or when it is
    /// not node 0 and no adjacent node is unlocked; failures leave the game
    /// untouched. On success the node is marked unlocked, exactly one skill
    /// point is spent, and the node's one-time stat effect is applied.
    pub fn unlock_skill_node(&mut self, node_id: u32) -> (r: Result<(), GameError>)
        requires
            game_wf(*old(self)),
            match old(self).character {
                Some(c) => tree_has(c.skill_tree@, node_id) ==> skill_effect_fits(
                    c,
                    c.skill_tree@[tree_idx(c.skill_tree@, node_id)].skill@,
                ),
                None => true,
            },
        ensures
            game_wf(*final(self)),
            old(self).character is None ==> r == Err::<(), GameError>(GameError::NoCharacter)
                && *final(self) == *old(self),
            old(self).character is Some ==> {
                let c = old(self).character->Some_0;
                &&& (r is Ok <==> can_unlock(c, node_id))
                &&& c.skill_points == 0 ==> r == Err::<(), GameError>(
                    GameError::InsufficientResource,
                ) && *final(self) == *old(self)
                &&& c.skill_points >= 1 && !tree_has(c.skill_tree@, node_id) ==> r == Err::<
                    (),
                    GameError,
                >(GameError::NotFound) && *final(self) == *old(self)
                &&& c.skill_points >= 1 && tree_has(c.skill_tree@, node_id) && !can_unlock(
                    c,
                    node_id,
                ) ==> r == Err::<(), GameError>(GameError::InvalidState) && *final(self) == *old(
                    self,
                )
                &&& can_unlock(c, node_id) ==> {
                    &&& r == Ok::<(), GameError>(())
                    &&& final(self).character is Some
                    &&& unlock_applied(c, node_id, final(self).character->Some_0)
                    &&& same_game_except_character(*old(self), *final(self))
                }
            },
    {
        match &mut self.character {
            None => Err(GameError::NoCharacter),
            Some(c) => {
                if c.skill_points == 0 {
                    return Err(GameError::InsufficientResource);
                }
                match tree_find(&c.skill_tree, node_id) {
                    None => Err(GameError::NotFound),
                    Some(i) => {
                        proof {
                            lemma_tree_idx(c.skill_tree@, node_id);
                        }
                        if c.skill_tree[i].unlocked {
                            return Err(GameError::InvalidState);
                        }
                        let neighbor = find_unlocked_neighbor(&c.skill_tree, node_id);
                        if !neighbor && node_id != 0 {
                            return Err(GameError::InvalidState);
                        }
                        c.skill_tree[i].unlocked = true;
                        c.skill_points = c.skill_points - 1;
                        let ghost tree0 = old(self).character->Some_0.skill_tree@;
                        proof {
                            assert forall|k: int, l: int|
                                0 <= k < l < c.skill_tree@.len() implies (
                            #[trigger] c.skill_tree@[k]).id != (#[trigger] c.skill_tree@[l]).id by {
                                assert(c.skill_tree@[k].id == tree0[k].id);
                                assert(c.skill_tree@[l].id == tree0[l].id);
                            }
                        }
                        if str_eq(c.skill_tree[i].skill.as_str(), "+5 Strength") {
                            c.strength = c.strength + 5;
                        } else if str_eq(c.skill_tree[i].skill.as_str(), "+5 Sword") {
                            c.sword = c.sword + 5;
                        } else if str_eq(c.skill_tree[i].skill.as_str(), "+5 Endurance") {
                            c.endurance = c.endurance + 5;
                        } else if str_eq(c.skill_tree[i].skill.as_str(), "+10 Health") {
                            c.endurance = c.endurance + 10;
                        }
                        Ok(())
                    },
                }
            },
        }
    }
}

} // verus!
