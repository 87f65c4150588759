//! The arena that holds every control block. Handles address their block by
//! its slot in the arena; the slot of a released block is handed out again.

use crate::block::Block;
use crate::model::Handle;
use crate::model::Store;
use vstd::prelude::*;

verus! {

/// The home of the control blocks of any number of handles.
///
/// Every operation on a handle names the arena that the handle was made in.
pub struct Arena<T> {
    blocks: Vec<Block<T>>,
    free: Vec<usize>,
    next_id: Ghost<nat>,
}

impl<T> View for Arena<T> {
    type V = Store<T>;

    /// The control blocks that have not been released, each under its slot.
    closed spec fn view(&self) -> Store<T> {
        Store {
            blocks: Map::new(
                |b: nat| b < self.blocks.len() && !self.blocks[b as int].state().released(),
                |b: nat| self.blocks[b as int].state(),
            ),
        }
    }
}

impl<T> Arena<T> {
    /// What holds of the representation: every slot is counted correctly, its
    /// payload is there exactly while an owner is, and the free list holds
    /// each released slot once and no other slot.
    pub closed spec fn inv(&self) -> bool {
        &&& forall|i: int|
            0 <= i < self.blocks.len() ==> {
                let block = #[trigger] self.blocks[i];
                &&& block.counted()
                &&& (block.value is Some <==> block.strong > 0)
                &&& forall|id: nat| block.owners@.contains(id) ==> id < self.next_id@
                &&& forall|id: nat| block.observers@.contains(id) ==> id < self.next_id@
                &&& (block.state().released() ==> self.free@.contains(i as usize))
            }
        &&& forall|k: int|
            0 <= k < self.free.len() ==> {
                let slot = #[trigger] self.free[k];
                &&& slot < self.blocks.len()
                &&& self.blocks[slot as int].state().released()
            }
        &&& forall|j: int, k: int|
            0 <= j < k < self.free.len() ==> #[trigger] self.free[j] != #[trigger] self.free[k]
        &&& self@.blocks.dom().len() + self.free.len() == self.blocks.len()
    }

    /// The arena is well formed: its representation is sound and its blocks
    /// form a valid store. Every arena that this library hands out is, and
    /// every operation keeps it so.
    pub open spec fn wf(&self) -> bool {
        self.inv() && self@.valid()
    }

    /// Count symmetry, at any moment. In a well-formed arena the strong count
    /// that a handle sees is the number of live owning handles on its block,
    /// and the weak count is the number of live observing handles on it.
    pub proof fn theorem_counts_are_live_handles(self, h: Handle)
        requires
            self.wf(),
            self@.attached(h),
        ensures
            self@.strong(h) == self@.blocks[h.block->0].owners.len(),
            self@.weak(h) == self@.blocks[h.block->0].observers.len(),
    {
        assert(self@.blocks[h.block->0].valid());
    }

    /// An arena without any control block.
    pub fn new() -> (arena: Self)
        ensures
            arena.wf(),
            arena@ == Store::<T>::empty(),
    {
        let arena = Arena { blocks: Vec::new(), free: Vec::new(), next_id: Ghost(0) };
        assert(arena@.blocks =~= Map::empty());
        arena
    }

    /// The number of control blocks that have not been released.
    pub fn live_blocks(&self) -> (n: usize)
        requires
            self.wf(),
        ensures
            n == self@.blocks.dom().len(),
    {
        self.blocks.len() - self.free.len()
    }

    /// Puts `value` into a control block of its own, in a slot that no live
    /// block has, and returns the slot and the identity of the first owner.
    pub(crate) fn allocate(&mut self, value: T) -> (r: (usize, Ghost<nat>))
        requires
            old(self).wf(),
        ensures
            final(self).wf(),
            !old(self)@.blocks.dom().contains(r.0 as nat),
            final(self)@ == old(self)@.allocate(r.0 as nat, r.1@, value),
    {
        let ghost id = self.next_id@;
        let ghost before = *self;
        let block = Block::new(value, Ghost(id));
        self.next_id = Ghost(id + 1);
        let slot = match self.free.pop() {
            Some(slot) => {
                assert(before.free[before.free.len() - 1] == slot);
                self.blocks[slot] = block;
                slot
            },
            None => {
                self.blocks.push(block);
                self.blocks.len() - 1
            },
        };
        proof {
            assert(self@.blocks =~= before@.allocate(slot as nat, id, value).blocks);
            before@.lemma_allocate_valid(slot as nat, id, value);
            assert forall|i: int| 0 <= i < self.blocks.len() && (#[trigger] self.blocks[i]).state().released()
                implies self.free@.contains(i as usize) by {
                assert(i != slot);
                assert(before.blocks[i].state().released());
                let k = choose|k: int| 0 <= k < before.free.len() && before.free[k] == i as usize;
                assert(self.free@[k] == i as usize);
            }
        }
        (slot, Ghost(id))
    }

    /// Reads the strong counter of the block in `slot`.
    pub(crate) fn strong_at(&self, slot: usize) -> (n: usize)
        requires
            self.wf(),
            self@.blocks.dom().contains(slot as nat),
        ensures
            n == self@.blocks[slot as nat].strong,
    {
        self.blocks[slot].strong()
    }

    /// Reads the weak counter of the block in `slot`.
    pub(crate) fn weak_at(&self, slot: usize) -> (n: usize)
        requires
            self.wf(),
            self@.blocks.dom().contains(slot as nat),
        ensures
            n == self@.blocks[slot as nat].weak,
    {
        self.blocks[slot].weak()
    }

    /// Tells whether `slot` holds a block that has not been released.
    pub(crate) fn holds(&self, slot: usize) -> (b: bool)
        requires
            self.wf(),
        ensures
            b == self@.blocks.dom().contains(slot as nat),
    {
        slot < self.blocks.len() && (self.blocks[slot].strong() > 0 || self.blocks[slot].weak() > 0)
    }

    /// Counts one more owning handle for the block in `slot`, and returns the
    /// identity that the new handle gets.
    pub(crate) fn add_owner(&mut self, slot: usize) -> (id: Ghost<nat>)
        requires
            old(self).wf(),
            old(self)@.blocks.dom().contains(slot as nat),
            0 < old(self)@.blocks[slot as nat].strong < usize::MAX,
        ensures
            final(self).wf(),
            !old(self)@.blocks[slot as nat].owners.contains(id@),
            final(self)@ == old(self)@.add_owner(slot as nat, id@),
    {
        let ghost id = self.next_id@;
        let ghost before = *self;
        self.next_id = Ghost(id + 1);
        self.blocks[slot].inc_strong(Ghost(id));
        proof {
            assert(self@.blocks =~= before@.add_owner(slot as nat, id).blocks);
            before@.lemma_add_owner_valid(slot as nat, id);
        }
        Ghost(id)
    }

    /// Counts one more observing handle for the block in `slot`, and returns
    /// the identity that the new handle gets.
    pub(crate) fn add_observer(&mut self, slot: usize) -> (id: Ghost<nat>)
        requires
            old(self).wf(),
            old(self)@.blocks.dom().contains(slot as nat),
            old(self)@.blocks[slot as nat].weak < usize::MAX,
        ensures
            final(self).wf(),
            !old(self)@.blocks[slot as nat].observers.contains(id@),
            final(self)@ == old(self)@.add_observer(slot as nat, id@),
    {
        let ghost id = self.next_id@;
        let ghost before = *self;
        self.next_id = Ghost(id + 1);
        self.blocks[slot].inc_weak(Ghost(id));
        proof {
            assert(self@.blocks =~= before@.add_observer(slot as nat, id).blocks);
            before@.lemma_add_observer_valid(slot as nat, id);
        }
        Ghost(id)
    }

    /// The owning handle `id` of the block in `slot` departs. With the last
    /// owner the payload leaves the block and is returned; if no observer is
    /// left either, the slot is released.
    pub(crate) fn remove_owner(&mut self, slot: usize, id: Ghost<nat>) -> (payload: Option<T>)
        requires
            old(self).wf(),
            old(self)@.blocks.dom().contains(slot as nat),
            old(self)@.blocks[slot as nat].owners.contains(id@),
        ensures
            final(self).wf(),
            final(self)@ == old(self)@.remove_owner(slot as nat, id@),
            payload == if old(self)@.blocks[slot as nat].strong == 1 {
                old(self)@.blocks[slot as nat].payload
            } else {
                None
            },
    {
        let ghost before = *self;
        proof {
            before.lemma_live_slot_not_free(slot);
        }
        self.blocks[slot].dec_strong(id);
        let payload = if self.blocks[slot].strong() == 0 {
            let payload = self.blocks[slot].value.take();
            if self.blocks[slot].weak() == 0 {
                self.release(slot);
            }
            payload
        } else {
            None
        };
        proof {
            self.lemma_free_kept(before, slot);
            assert(self@.blocks =~= before@.remove_owner(slot as nat, id@).blocks);
            before@.lemma_remove_owner_valid(slot as nat, id@);
        }
        payload
    }

    /// The observing handle `id` of the block in `slot` departs. If no handle
    /// of either kind is left, the slot is released.
    pub(crate) fn remove_observer(&mut self, slot: usize, id: Ghost<nat>)
        requires
            old(self).wf(),
            old(self)@.blocks.dom().contains(slot as nat),
            old(self)@.blocks[slot as nat].observers.contains(id@),
        ensures
            final(self).wf(),
            final(self)@ == old(self)@.remove_observer(slot as nat, id@),
    {
        let ghost before = *self;
        proof {
            before.lemma_live_slot_not_free(slot);
        }
        self.blocks[slot].dec_weak(id);
        if self.blocks[slot].weak() == 0 && self.blocks[slot].strong() == 0 {
            self.release(slot);
        }
        proof {
            self.lemma_free_kept(before, slot);
            assert(self@.blocks =~= before@.remove_observer(slot as nat, id@).blocks);
            before@.lemma_remove_observer_valid(slot as nat, id@);
        }
    }

    /// The slot of a block that has not been released is not in the free list.
    proof fn lemma_live_slot_not_free(self, slot: usize)
        requires
            self.inv(),
            slot < self.blocks.len(),
            !self.blocks[slot as int].state().released(),
        ensures
            !self.free@.contains(slot),
    {
        if self.free@.contains(slot) {
            let k = choose|k: int| 0 <= k < self.free.len() && self.free[k] == slot;
            assert(self.blocks[self.free[k] as int].state().released());
        }
    }

    /// The free list stays sound when only the block in `slot` has changed,
    /// and `slot` has joined the list if and only if that block is now
    /// released.
    proof fn lemma_free_kept(self, before: Self, slot: usize)
        requires
            before.inv(),
            slot < before.blocks.len(),
            !before.free@.contains(slot),
            self.blocks.len() == before.blocks.len(),
            forall|i: int| 0 <= i < self.blocks.len() && i != slot ==> self.blocks[i] == before.blocks[i],
            self.blocks[slot as int].state().released() ==> self.free@ == before.free@.push(slot),
            !self.blocks[slot as int].state().released() ==> self.free@ == before.free@,
        ensures
            forall|i: int|
                0 <= i < self.blocks.len() && (#[trigger] self.blocks[i]).state().released()
                    ==> self.free@.contains(i as usize),
            forall|k: int|
                0 <= k < self.free.len() ==> {
                    let s = #[trigger] self.free[k];
                    &&& s < self.blocks.len()
                    &&& self.blocks[s as int].state().released()
                },
            forall|j: int, k: int|
                0 <= j < k < self.free.len() ==> #[trigger] self.free[j] != #[trigger] self.free[k],
    {
        assert forall|i: int|
            0 <= i < self.blocks.len() && (#[trigger] self.blocks[i]).state().released()
            implies self.free@.contains(i as usize) by {
            if i == slot {
                assert(self.free@[self.free.len() - 1] == slot);
            } else {
                assert(before.blocks[i].state().released());
                let k = choose|k: int| 0 <= k < before.free.len() && before.free[k] == i as usize;
                assert(self.free@[k] == i as usize);
            }
        }
        assert forall|k: int| 0 <= k < self.free.len() implies {
            let s = #[trigger] self.free[k];
            &&& s < self.blocks.len()
            &&& self.blocks[s as int].state().released()
        } by {
            if k < before.free.len() {
                assert(before.free[k] == self.free[k]);
                assert(before.free@.contains(before.free[k]));
            }
        }
        assert forall|j: int, k: int| 0 <= j < k < self.free.len() implies #[trigger] self.free[j]
            != #[trigger] self.free[k] by {
            assert(before.free[j] == self.free[j]);
            if k < before.free.len() {
                assert(before.free[k] == self.free[k]);
            } else {
                assert(before.free@.contains(before.free[j]));
            }
        }
    }

    /// Hands the slot of a block that nothing refers to any more back for
    /// reuse.
    fn release(&mut self, slot: usize)
        requires
            slot < old(self).blocks.len(),
            !old(self).free@.contains(slot),
        ensures
            final(self).blocks == old(self).blocks,
            final(self).next_id == old(self).next_id,
            final(self).free@ == old(self).free@.push(slot),
    {
        self.free.push(slot);
    }

    /// The payload of the block in `slot`.
    pub(crate) fn value_at(&self, slot: usize) -> (value: &T)
        requires
            self.wf(),
            self@.blocks.dom().contains(slot as nat),
            self@.blocks[slot as nat].payload is Some,
        ensures
            Some(*value) == self@.blocks[slot as nat].payload,
    {
        self.blocks[slot].value.as_ref().unwrap()
    }

    /// The payload of the block in `slot`, to be written through.
    pub(crate) fn value_at_mut(&mut self, slot: usize) -> (value: &mut T)
        requires
            old(self).wf(),
            old(self)@.blocks.dom().contains(slot as nat),
            old(self)@.blocks[slot as nat].payload is Some,
        ensures
            Some(*value) == old(self)@.blocks[slot as nat].payload,
            final(self).wf(),
            final(self)@ == old(self)@.store(slot as nat, *final(value)),
    {
        let ghost before = *self;
        proof {
            assert forall|after: Self, v: T| #[trigger]
                after.rewritten(before, slot, v) implies after.wf() && after@ == before@.store(
                slot as nat,
                v,
            ) by {
                after.lemma_rewritten(before, slot, v);
            }
        }
        self.payload_mut(slot)
    }

    /// Borrows the payload in `slot` for writing; whatever is written, only
    /// that payload changes.
    fn payload_mut(&mut self, slot: usize) -> (value: &mut T)
        requires
            slot < old(self).blocks.len(),
            old(self).blocks[slot as int].value is Some,
        ensures
            Some(*value) == old(self).blocks[slot as int].value,
            final(self).rewritten(*old(self), slot, *final(value)),
    {
        self.blocks[slot].value.as_mut().unwrap()
    }

    /// `self` is `before` but for the payload of the block in `slot`, which is
    /// `value`.
    spec fn rewritten(self, before: Self, slot: usize, value: T) -> bool {
        &&& self.free == before.free
        &&& self.next_id == before.next_id
        &&& self.blocks.len() == before.blocks.len()
        &&& forall|i: int|
            0 <= i < self.blocks.len() && i != slot ==> #[trigger] self.blocks[i] == before.blocks[i]
        &&& self.blocks[slot as int].value == Some(value)
        &&& self.blocks[slot as int].strong == before.blocks[slot as int].strong
        &&& self.blocks[slot as int].weak == before.blocks[slot as int].weak
        &&& self.blocks[slot as int].owners == before.blocks[slot as int].owners
        &&& self.blocks[slot as int].observers == before.blocks[slot as int].observers
    }

    /// Writing a payload over a present one keeps the arena well formed, and
    /// changes its view by [`Store::store`].
    proof fn lemma_rewritten(self, before: Self, slot: usize, value: T)
        requires
            before.wf(),
            before@.blocks.dom().contains(slot as nat),
            before@.blocks[slot as nat].payload is Some,
            self.rewritten(before, slot, value),
        ensures
            self.wf(),
            self@ == before@.store(slot as nat, value),
    {
        assert(self@.blocks =~= before@.store(slot as nat, value).blocks);
        before@.lemma_store_valid(slot as nat, value);
        assert forall|i: int| 0 <= i < self.blocks.len() implies {
            let block = #[trigger] self.blocks[i];
            &&& block.counted()
            &&& (block.value is Some <==> block.strong > 0)
            &&& forall|id: nat| block.owners@.contains(id) ==> id < self.next_id@
            &&& forall|id: nat| block.observers@.contains(id) ==> id < self.next_id@
            &&& (block.state().released() ==> self.free@.contains(i as usize))
        } by {
            let old_block = before.blocks[i];
            assert(old_block.counted());
        }
    }
}

} // verus!
