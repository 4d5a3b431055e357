use vstd::prelude::*;

use crate::errors::GameError;
use crate::game::{same_character_except_inventory, same_game_except_character, game_wf, Game};
use crate::types::InventoryItem;

verus! {

/// Inventory well-formedness: item ids are unique and every stack holds a
/// positive quantity.
pub open spec fn inv_wf(inv: Seq<InventoryItem>) -> bool {
    &&& forall|i: int, j: int|
        0 <= i < j < inv.len() ==> (#[trigger] inv[i]).item_id != (#[trigger] inv[j]).item_id
    &&& forall|i: int| 0 <= i < inv.len() ==> (#[trigger] inv[i]).quantity > 0
}

/// Whether the inventory holds a stack of `id`.
pub open spec fn inv_has(inv: Seq<InventoryItem>, id: u32) -> bool {
    exists|i: int| 0 <= i < inv.len() && (#[trigger] inv[i]).item_id == id
}

/// The index of the stack of `id`; meaningful when `inv_has` holds and the
/// inventory is well-formed, in which case the index is unique.
pub open spec fn inv_idx(inv: Seq<InventoryItem>, id: u32) -> int {
    choose|i: int| 0 <= i < inv.len() && (#[trigger] inv[i]).item_id == id
}

/// The quantity held of `id`; zero when no stack of `id` exists.
pub open spec fn inv_qty(inv: Seq<InventoryItem>, id: u32) -> u32 {
    if inv_has(inv, id) {
        inv[inv_idx(inv, id)].quantity
    } else {
        0
    }
}

/// The inventory after adding `q` units of `id`: an existing stack is
/// incremented in place, otherwise a new stack is appended.
pub open spec fn inv_add(inv: Seq<InventoryItem>, id: u32, q: u32) -> Seq<InventoryItem> {
    if inv_has(inv, id) {
        inv.update(
            inv_idx(inv, id),
            InventoryItem { item_id: id, quantity: (inv_qty(inv, id) + q) as u32 },
        )
    } else {
        inv.push(InventoryItem { item_id: id, quantity: q })
    }
}

/// The inventory after removing `q` units of `id`: the stack is decremented,
/// and removed entirely when it reaches zero. Meaningful when the inventory
/// holds at least `q` units of `id`.
pub open spec fn inv_remove(inv: Seq<InventoryItem>, id: u32, q: u32) -> Seq<InventoryItem> {
    if inv_qty(inv, id) == q {
        inv.remove(inv_idx(inv, id))
    } else {
        inv.update(
            inv_idx(inv, id),
            InventoryItem { item_id: id, quantity: (inv_qty(inv, id) - q) as u32 },
        )
    }
}

/// In a well-formed inventory that holds `id`, `inv_idx` is the one index of
/// the stack of `id`.
pub proof fn lemma_inv_idx(inv: Seq<InventoryItem>, id: u32)
    requires
        inv_wf(inv),
        inv_has(inv, id),
    ensures
        0 <= inv_idx(inv, id) < inv.len(),
        inv[inv_idx(inv, id)].item_id == id,
        forall|k: int|
            0 <= k < inv.len() && (#[trigger] inv[k]).item_id == id ==> k == inv_idx(inv, id),
{
    let i = inv_idx(inv, id);
    assert(0 <= i < inv.len() && inv[i].item_id == id);
    assert forall|k: int|
        0 <= k < inv.len() && (#[trigger] inv[k]).item_id == id implies k == i by {
        if k < i {
            assert(inv[k].item_id != inv[i].item_id);
        } else if i < k {
            assert(inv[i].item_id != inv[k].item_id);
        }
    }
}

/// Adding preserves well-formedness; the added id gains exactly `q` units and
/// every other id keeps its quantity.
pub proof fn lemma_inv_add(inv: Seq<InventoryItem>, id: u32, q: u32)
    requires
        inv_wf(inv),
        q > 0,
        inv_qty(inv, id) + q <= u32::MAX,
    ensures
        inv_wf(inv_add(inv, id, q)),
        inv_has(inv_add(inv, id, q), id),
        inv_qty(inv_add(inv, id, q), id) == inv_qty(inv, id) + q,
        forall|id2: u32| id2 != id ==> inv_qty(inv_add(inv, id, q), id2) == inv_qty(inv, id2),
{
    let out = inv_add(inv, id, q);
    if inv_has(inv, id) {
        lemma_inv_idx(inv, id);
        let i = inv_idx(inv, id);
        assert(inv_wf(out));
        assert(out[i].item_id == id);
        lemma_inv_idx(out, id);
        assert(inv_qty(out, id) == inv_qty(inv, id) + q);
        assert forall|id2: u32| id2 != id implies inv_qty(out, id2) == inv_qty(inv, id2) by {
            if inv_has(inv, id2) {
                lemma_inv_idx(inv, id2);
                let k = inv_idx(inv, id2);
                assert(out[k] == inv[k]);
                assert(inv_has(out, id2));
                lemma_inv_idx(out, id2);
                let l = inv_idx(out, id2);
                assert(out[l] == inv[l]);
                assert(l == k);
            } else if inv_has(out, id2) {
                lemma_inv_idx(out, id2);
                let l = inv_idx(out, id2);
                assert(out[l] == inv[l]);
                assert(inv_has(inv, id2));
            }
        }
    } else {
        let n = inv.len() as int;
        assert forall|k: int, l: int|
            0 <= k < l < out.len() implies (#[trigger] out[k]).item_id != (
        #[trigger] out[l]).item_id by {
            if l == n {
                assert(out[l].item_id == id);
                assert(out[k] == inv[k]);
            }
        }
        assert(inv_wf(out));
        assert(out[n].item_id == id);
        lemma_inv_idx(out, id);
        assert(inv_qty(out, id) == q);
        assert forall|id2: u32| id2 != id implies inv_qty(out, id2) == inv_qty(inv, id2) by {
            if inv_has(inv, id2) {
                lemma_inv_idx(inv, id2);
                let k = inv_idx(inv, id2);
                assert(out[k] == inv[k]);
                assert(inv_has(out, id2));
                lemma_inv_idx(out, id2);
                let l = inv_idx(out, id2);
                assert(out[l] == inv[l]);
                assert(l == k);
            } else if inv_has(out, id2) {
                lemma_inv_idx(out, id2);
                let l = inv_idx(out, id2);
                assert(out[l] == inv[l]);
                assert(inv_has(inv, id2));
            }
        }
    }
}

/// Removing preserves well-formedness; the removed id loses exactly `q` units
/// and every other id keeps its quantity.
pub proof fn lemma_inv_remove(inv: Seq<InventoryItem>, id: u32, q: u32)
    requires
        inv_wf(inv),
        inv_has(inv, id),
        q <= inv_qty(inv, id),
    ensures
        inv_wf(inv_remove(inv, id, q)),
        inv_qty(inv_remove(inv, id, q), id) == inv_qty(inv, id) - q,
        forall|id2: u32| id2 != id ==> inv_qty(inv_remove(inv, id, q), id2) == inv_qty(inv, id2),
{
    lemma_inv_idx(inv, id);
    let i = inv_idx(inv, id);
    let out = inv_remove(inv, id, q);
    if inv_qty(inv, id) == q {
        assert forall|k: int, l: int|
            0 <= k < l < out.len() implies (#[trigger] out[k]).item_id != (
        #[trigger] out[l]).item_id by {
            assert(out[k] == if k < i { inv[k] } else { inv[k + 1] });
            assert(out[l] == if l < i { inv[l] } else { inv[l + 1] });
        }
        assert(inv_wf(out));
        assert forall|k: int| 0 <= k < out.len() implies (#[trigger] out[k]).item_id != id by {
            assert(out[k] == if k < i { inv[k] } else { inv[k + 1] });
        }
        assert(!inv_has(out, id));
        assert(inv_qty(out, id) == 0);
        assert forall|id2: u32| id2 != id implies inv_qty(out, id2) == inv_qty(inv, id2) by {
            if inv_has(inv, id2) {
                lemma_inv_idx(inv, id2);
                let k = inv_idx(inv, id2);
                let k2: int = if k < i {
                    k
                } else {
                    k - 1
                };
                assert(out[k2] == inv[k]);
                assert(inv_has(out, id2));
                lemma_inv_idx(out, id2);
                let l = inv_idx(out, id2);
                let m: int = if l < i {
                    l
                } else {
                    l + 1
                };
                assert(out[l] == inv[m]);
                assert(m == k);
            } else if inv_has(out, id2) {
                lemma_inv_idx(out, id2);
                let l = inv_idx(out, id2);
                let m: int = if l < i {
                    l
                } else {
                    l + 1
                };
                assert(out[l] == inv[m]);
                assert(inv_has(inv, id2));
            }
        }
    } else {
        assert(inv_wf(out));
        assert(out[i].item_id == id);
        lemma_inv_idx(out, id);
        assert(inv_qty(out, id) == inv_qty(inv, id) - q);
        assert forall|id2: u32| id2 != id implies inv_qty(out, id2) == inv_qty(inv, id2) by {
            if inv_has(inv, id2) {
                lemma_inv_idx(inv, id2);
                let k = inv_idx(inv, id2);
                assert(out[k] == inv[k]);
                assert(inv_has(out, id2));
                lemma_inv_idx(out, id2);
                let l = inv_idx(out, id2);
                assert(out[l] == inv[l]);
                assert(l == k);
            } else if inv_has(out, id2) {
                lemma_inv_idx(out, id2);
                let l = inv_idx(out, id2);
                assert(out[l] == inv[l]);
                assert(inv_has(inv, id2));
            }
        }
    }
}

/// Law: adding `q` units of an item and then removing `q` units returns the
/// inventory to exactly its prior state; a stack that reaches zero is removed
/// rather than left behind.
pub proof fn lemma_add_remove_roundtrip(inv: Seq<InventoryItem>, id: u32, q: u32)
    requires
        inv_wf(inv),
        q > 0,
        inv_qty(inv, id) + q <= u32::MAX,
    ensures
        inv_has(inv_add(inv, id, q), id),
        inv_qty(inv_add(inv, id, q), id) >= q,
        inv_remove(inv_add(inv, id, q), id, q) == inv,
{
    lemma_inv_add(inv, id, q);
    let mid = inv_add(inv, id, q);
    let out = inv_remove(mid, id, q);
    lemma_inv_idx(mid, id);
    let j = inv_idx(mid, id);
    if inv_has(inv, id) {
        lemma_inv_idx(inv, id);
        let i = inv_idx(inv, id);
        assert(mid[i].item_id == id);
        assert(j == i);
        // The prior stack was positive, so the stack does not reach zero.
        assert(inv_qty(mid, id) != q);
        assert(out == mid.update(i, InventoryItem { item_id: id, quantity: (inv_qty(mid, id) - q) as u32 }));
        assert(InventoryItem { item_id: id, quantity: (inv_qty(mid, id) - q) as u32 } == inv[i]);
        assert(out =~= inv);
    } else {
        let n = inv.len() as int;
        assert(mid[n].item_id == id);
        assert(j == n);
        assert(inv_qty(mid, id) == q);
        assert(out == mid.remove(n));
        assert(out =~= inv);
    }
}

/// Find the stack of `id` in an inventory.
fn inv_find(inv: &Vec<InventoryItem>, id: u32) -> (r: Option<usize>)
    ensures
        match r {
            Some(i) => i < inv@.len() && inv@[i as int].item_id == id,
            None => !inv_has(inv@, id),
        },
{
    let mut i: usize = 0;
    while i < inv.len()
        invariant
            i <= inv@.len(),
            forall|j: int| 0 <= j < i ==> (#[trigger] inv@[j]).item_id != id,
        decreases inv@.len() - i,
    {
        if inv[i].item_id == id {
            return Some(i);
        }
        i = i + 1;
    }
    None
}

/// Add `q` units of `id` to an inventory: an existing stack is incremented,
/// otherwise a new stack is appended.
pub fn inventory_add(inv: &mut Vec<InventoryItem>, id: u32, q: u32)
    requires
        inv_wf(old(inv)@),
        q > 0,
        inv_qty(old(inv)@, id) + q <= u32::MAX,
    ensures
        final(inv)@ == inv_add(old(inv)@, id, q),
        inv_wf(final(inv)@),
{
    proof {
        lemma_inv_add(old(inv)@, id, q);
    }
    match inv_find(inv, id) {
        Some(i) => {
            proof {
                lemma_inv_idx(inv@, id);
            }
            let held = inv[i].quantity;
            inv[i] = InventoryItem { item_id: id, quantity: held + q };
        },
        None => {
            inv.push(InventoryItem { item_id: id, quantity: q });
        },
    }
}

/// Remove `q` units of `id` from an inventory. Fails with `NotFound` when no
/// stack of `id` exists and with `InsufficientResource` when fewer than `q`
/// units are held; either failure leaves the inventory untouched.
pub fn inventory_remove(inv: &mut Vec<InventoryItem>, id: u32, q: u32) -> (r: Result<(), GameError>)
    requires
        inv_wf(old(inv)@),
    ensures
        inv_wf(final(inv)@),
        !inv_has(old(inv)@, id) ==> r == Err::<(), GameError>(GameError::NotFound) && *final(inv)
            == *old(inv),
        inv_has(old(inv)@, id) && inv_qty(old(inv)@, id) < q ==> r == Err::<(), GameError>(
            GameError::InsufficientResource,
        ) && *final(inv) == *old(inv),
        inv_has(old(inv)@, id) && inv_qty(old(inv)@, id) >= q ==> r == Ok::<(), GameError>(())
            && final(inv)@ == inv_remove(old(inv)@, id, q),
{
    match inv_find(inv, id) {
        Some(i) => {
            proof {
                lemma_inv_idx(inv@, id);
            }
            let held = inv[i].quantity;
            if held >= q {
                proof {
                    lemma_inv_remove(inv@, id, q);
                }
                if held == q {
                    inv.remove(i);
                } else {
                    inv[i] = InventoryItem { item_id: id, quantity: held - q };
                }
                Ok(())
            } else {
                Err(GameError::InsufficientResource)
            }
        },
        None => Err(GameError::NotFound),
    }
}

impl Game {
    /// Add `quantity` units of `item_id` to the character's inventory;
    /// fails only when no character exists.
    pub fn add_to_inventory(&mut self, item_id: u32, quantity: u32) -> (r: Result<(), GameError>)
        requires
            game_wf(*old(self)),
            quantity > 0,
            old(self).character is Some ==> inv_qty(
                old(self).character->Some_0.inventory@,
                item_id,
            ) + quantity <= u32::MAX,
        ensures
            game_wf(*final(self)),
            old(self).character is None ==> r == Err::<(), GameError>(GameError::NoCharacter)
                && *final(self) == *old(self),
            old(self).character is Some ==> {
                &&& r == Ok::<(), GameError>(())
                &&& final(self).character is Some
                &&& final(self).character->Some_0.inventory@ == inv_add(
                    old(self).character->Some_0.inventory@,
                    item_id,
                    quantity,
                )
                &&& same_character_except_inventory(
                    old(self).character->Some_0,
                    final(self).character->Some_0,
                )
                &&& same_game_except_character(*old(self), *final(self))
            },
    {
        match &mut self.character {
            None => Err(GameError::NoCharacter),
            Some(c) => {
                inventory_add(&mut c.inventory, item_id, quantity);
                Ok(())
            },
        }
    }

    /// Remove `quantity` units of `item_id` from the character's inventory.
    /// Fails with `NotFound` when no stack of `item_id` exists and with
    /// `InsufficientResource` when fewer units are held; failures leave the
    /// game untouched.
    pub fn remove_from_inventory(&mut self, item_id: u32, quantity: u32) -> (r: Result<
        (),
        GameError,
    >)
        requires
            game_wf(*old(self)),
        ensures
            game_wf(*final(self)),
            old(self).character is None ==> r == Err::<(), GameError>(GameError::NoCharacter)
                && *final(self) == *old(self),
            old(self).character is Some && !inv_has(
                old(self).character->Some_0.inventory@,
                item_id,
            ) ==> r == Err::<(), GameError>(GameError::NotFound) && *final(self) == *old(self),
            old(self).character is Some && inv_has(old(self).character->Some_0.inventory@, item_id)
                && inv_qty(old(self).character->Some_0.inventory@, item_id) < quantity ==> {
                &&& r == Err::<(), GameError>(GameError::InsufficientResource)
                &&& *final(self) == *old(self)
            },
            old(self).character is Some && inv_has(old(self).character->Some_0.inventory@, item_id)
                && inv_qty(old(self).character->Some_0.inventory@, item_id) >= quantity ==> {
                &&& r == Ok::<(), GameError>(())
                &&& final(self).character is Some
                &&& final(self).character->Some_0.inventory@ == inv_remove(
                    old(self).character->Some_0.inventory@,
                    item_id,
                    quantity,
                )
                &&& same_character_except_inventory(
                    old(self).character->Some_0,
                    final(self).character->Some_0,
                )
                &&& same_game_except_character(*old(self), *final(self))
            },
    {
        match &mut self.character {
            None => Err(GameError::NoCharacter),
            Some(c) => inventory_remove(&mut c.inventory, item_id, quantity),
        }
    }
}

} // verus!
