//! Chains of operations on a store, and what holds after any of them.

use crate::model::Store;
use vstd::prelude::*;

verus! {

/// One change of a store, as the operations on handles make them.
pub enum Step<T> {
    /// A new owning handle `id` with a block of its own in `block`.
    Allocate { block: nat, id: nat, value: T },
    /// A further owning handle `id` on `block`: a share or an upgrade.
    AddOwner { block: nat, id: nat },
    /// A further observing handle `id` on `block`: a downgrade or a share.
    AddObserver { block: nat, id: nat },
    /// The owning handle `id` of `block` goes away.
    RemoveOwner { block: nat, id: nat },
    /// The observing handle `id` of `block` goes away.
    RemoveObserver { block: nat, id: nat },
    /// The payload of `block` is overwritten.
    Write { block: nat, value: T },
}

impl<T> Store<T> {
    /// Whether `step` can be taken from this store: a new block takes an
    /// unused slot, a new handle an unused identity on a block that can have
    /// it, only a live handle goes away, and only a present payload is written
    /// over.
    pub open spec fn admits(self, step: Step<T>) -> bool {
        match step {
            Step::Allocate { block, id, value } => !self.blocks.dom().contains(block),
            Step::AddOwner { block, id } => {
                &&& self.blocks.dom().contains(block)
                &&& self.blocks[block].strong > 0
                &&& !self.blocks[block].owners.contains(id)
            },
            Step::AddObserver { block, id } => {
                &&& self.blocks.dom().contains(block)
                &&& !self.blocks[block].observers.contains(id)
            },
            Step::RemoveOwner { block, id } => {
                &&& self.blocks.dom().contains(block)
                &&& self.blocks[block].owners.contains(id)
            },
            Step::RemoveObserver { block, id } => {
                &&& self.blocks.dom().contains(block)
                &&& self.blocks[block].observers.contains(id)
            },
            Step::Write { block, value } => {
                &&& self.blocks.dom().contains(block)
                &&& self.blocks[block].payload is Some
            },
        }
    }

    /// The store after `step`.
    pub open spec fn apply(self, step: Step<T>) -> Self {
        match step {
            Step::Allocate { block, id, value } => self.allocate(block, id, value),
            Step::AddOwner { block, id } => self.add_owner(block, id),
            Step::AddObserver { block, id } => self.add_observer(block, id),
            Step::RemoveOwner { block, id } => self.remove_owner(block, id),
            Step::RemoveObserver { block, id } => self.remove_observer(block, id),
            Step::Write { block, value } => self.store(block, value),
        }
    }

    /// Whether the steps can be taken one after the other from this store.
    pub open spec fn admits_all(self, steps: Seq<Step<T>>) -> bool
        decreases steps.len(),
    {
        if steps.len() == 0 {
            true
        } else {
            self.admits(steps[0]) && self.apply(steps[0]).admits_all(steps.drop_first())
        }
    }

    /// The store after all the steps, taken in order.
    pub open spec fn apply_all(self, steps: Seq<Step<T>>) -> Self
        decreases steps.len(),
    {
        if steps.len() == 0 {
            self
        } else {
            self.apply(steps[0]).apply_all(steps.drop_first())
        }
    }

    /// A step that can be taken keeps a valid store valid.
    pub proof fn lemma_step_valid(self, step: Step<T>)
        requires
            self.valid(),
            self.admits(step),
        ensures
            self.apply(step).valid(),
    {
        match step {
            Step::Allocate { block, id, value } => self.lemma_allocate_valid(block, id, value),
            Step::AddOwner { block, id } => self.lemma_add_owner_valid(block, id),
            Step::AddObserver { block, id } => self.lemma_add_observer_valid(block, id),
            Step::RemoveOwner { block, id } => self.lemma_remove_owner_valid(block, id),
            Step::RemoveObserver { block, id } => self.lemma_remove_observer_valid(block, id),
            Step::Write { block, value } => self.lemma_store_valid(block, value),
        }
    }

    /// Any chain of steps that can be taken keeps a valid store valid.
    pub proof fn lemma_chain_valid(self, steps: Seq<Step<T>>)
        requires
            self.valid(),
            self.admits_all(steps),
        ensures
            self.apply_all(steps).valid(),
        decreases steps.len(),
    {
        if steps.len() > 0 {
            self.lemma_step_valid(steps[0]);
            self.apply(steps[0]).lemma_chain_valid(steps.drop_first());
        }
    }

    /// Count symmetry. After any chain of allocations, shares, downgrades,
    /// upgrades, writes and departures of handles, the strong count of every
    /// block is the number of live owning handles that refer to it, and its
    /// weak count is the number of live observing handles that do.
    pub proof fn theorem_count_symmetry(self, steps: Seq<Step<T>>, b: nat)
        requires
            self.valid(),
            self.admits_all(steps),
            self.apply_all(steps).blocks.dom().contains(b),
        ensures
            self.apply_all(steps).blocks[b].owners.finite(),
            self.apply_all(steps).blocks[b].observers.finite(),
            self.apply_all(steps).blocks[b].strong == self.apply_all(steps).blocks[b].owners.len(),
            self.apply_all(steps).blocks[b].weak == self.apply_all(steps).blocks[b].observers.len(),
    {
        self.lemma_chain_valid(steps);
        assert(self.apply_all(steps).blocks[b].valid());
    }
}

} // verus!
