//! The control block: two counters, the payload slot, and the identities of the
//! handles that are counted.

use crate::model::BlockState;
use vstd::prelude::*;

verus! {

/// The allocation behind one logical value.
pub(crate) struct Block<T> {
    pub(crate) strong: usize,
    pub(crate) weak: usize,
    pub(crate) value: Option<T>,
    pub(crate) owners: Ghost<Set<nat>>,
    pub(crate) observers: Ghost<Set<nat>>,
}

impl<T> Block<T> {
    /// The block as a specification sees it.
    pub(crate) open spec fn state(self) -> BlockState<T> {
        BlockState {
            strong: self.strong as nat,
            weak: self.weak as nat,
            payload: self.value,
            owners: self.owners@,
            observers: self.observers@,
        }
    }

    /// Each counter is the number of registered handles of its kind.
    pub(crate) open spec fn counted(self) -> bool {
        &&& self.owners@.finite()
        &&& self.observers@.finite()
        &&& self.strong == self.owners@.len()
        &&& self.weak == self.observers@.len()
    }

    /// A block for `value` with `id` as its only owner.
    pub(crate) fn new(value: T, id: Ghost<nat>) -> (block: Self)
        ensures
            block.state() == BlockState::fresh(id@, value),
            block.counted(),
    {
        Block {
            strong: 1,
            weak: 0,
            value: Some(value),
            owners: Ghost(Set::empty().insert(id@)),
            observers: Ghost(Set::empty()),
        }
    }

    /// Reads the strong counter.
    pub(crate) fn strong(&self) -> (n: usize)
        ensures
            n == self.state().strong,
    {
        self.strong
    }

    /// Reads the weak counter.
    pub(crate) fn weak(&self) -> (n: usize)
        ensures
            n == self.state().weak,
    {
        self.weak
    }

    /// Counts the new owning handle `id`.
    pub(crate) fn inc_strong(&mut self, id: Ghost<nat>)
        requires
            old(self).counted(),
            old(self).strong < usize::MAX,
            !old(self).owners@.contains(id@),
        ensures
            final(self).counted(),
            final(self).state() == old(self).state().add_owner(id@),
    {
        self.strong = self.strong + 1;
        self.owners = Ghost(self.owners@.insert(id@));
    }

    /// Stops counting the owning handle `id`. The payload is left as it is.
    pub(crate) fn dec_strong(&mut self, id: Ghost<nat>)
        requires
            old(self).counted(),
            old(self).owners@.contains(id@),
        ensures
            final(self).counted(),
            final(self).strong == old(self).strong - 1,
            final(self).owners@ == old(self).owners@.remove(id@),
            final(self).weak == old(self).weak,
            final(self).observers == old(self).observers,
            final(self).value == old(self).value,
    {
        self.strong = self.strong - 1;
        self.owners = Ghost(self.owners@.remove(id@));
    }

    /// Counts the new observing handle `id`.
    pub(crate) fn inc_weak(&mut self, id: Ghost<nat>)
        requires
            old(self).counted(),
            old(self).weak < usize::MAX,
            !old(self).observers@.contains(id@),
        ensures
            final(self).counted(),
            final(self).state() == old(self).state().add_observer(id@),
    {
        self.weak = self.weak + 1;
        self.observers = Ghost(self.observers@.insert(id@));
    }

    /// Stops counting the observing handle `id`.
    pub(crate) fn dec_weak(&mut self, id: Ghost<nat>)
        requires
            old(self).counted(),
            old(self).observers@.contains(id@),
        ensures
            final(self).counted(),
            final(self).state() == old(self).state().remove_observer(id@),
    {
        self.weak = self.weak - 1;
        self.observers = Ghost(self.observers@.remove(id@));
    }
}

} // verus!
