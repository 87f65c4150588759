//! The observing handle.

use crate::arena::Arena;
use crate::model::Handle;
use crate::owning::Rcn;
use std::marker::PhantomData;
use vstd::prelude::*;

verus! {

/// A handle that watches a control block without keeping its value alive.
///
/// It is made by [`Rcn::downgrade`] and turned back into an owning handle by
/// [`Weakn::upgrade`] for as long as an owner is left. It does not give its
/// count back by going out of scope: hand it to [`Weakn::drop`].
pub struct Weakn<T> {
    slot: Option<usize>,
    id: Ghost<nat>,
    phantom: PhantomData<T>,
}

impl<T> View for Weakn<T> {
    type V = Handle;

    /// The block that the handle refers to, and the handle's identity.
    closed spec fn view(&self) -> Handle {
        Handle {
            block: match self.slot {
                Some(slot) => Some(slot as nat),
                None => None,
            },
            id: self.id@,
        }
    }
}

impl<T> Weakn<T> {
    /// The handle `id` of the block in `slot`.
    pub(crate) fn attach(slot: usize, id: Ghost<nat>) -> (r: Weakn<T>)
        ensures
            r@ == (Handle { block: Some(slot as nat), id: id@ }),
    {
        Weakn { slot: Some(slot), id, phantom: PhantomData }
    }

    /// A handle that observes nothing.
    pub fn new() -> (w: Weakn<T>)
        ensures
            w@.block is None,
    {
        Weakn { slot: None, id: Ghost(0), phantom: PhantomData }
    }

    /// A handle that observes nothing.
    pub fn none() -> (w: Weakn<T>)
        ensures
            w@.block is None,
    {
        Weakn::new()
    }

    /// The strong counter of the block, or zero without a block.
    fn strong(&self, arena: &Arena<T>) -> (n: usize)
        requires
            arena.wf(),
        ensures
            n == arena@.strong(self@),
    {
        match self.slot {
            None => 0,
            Some(slot) => if arena.holds(slot) {
                arena.strong_at(slot)
            } else {
                0
            },
        }
    }

    /// Another observing handle on the same control block: the weak count
    /// goes up by one.
    pub fn share(&self, arena: &mut Arena<T>) -> (w: Weakn<T>)
        requires
            old(arena).wf(),
            old(arena)@.payload(self@) is Some,
            old(arena)@.weak(self@) < usize::MAX,
        ensures
            final(arena).wf(),
            w@.block == self@.block,
            !old(arena)@.blocks[self@.block->0].observers.contains(w@.id),
            final(arena)@ == old(arena)@.add_observer(self@.block->0, w@.id),
    {
        let slot = self.slot.unwrap();
        let id = arena.add_observer(slot);
        Weakn::attach(slot, id)
    }

    /// Whether the observed value is gone, or nothing is observed.
    pub fn is_none(&self, arena: &Arena<T>) -> (b: bool)
        requires
            arena.wf(),
        ensures
            b == (arena@.payload(self@) is None),
    {
        self.strong(arena) == 0 || self.slot.is_none()
    }

    /// Whether the observed value is still there.
    pub fn is_some(&self, arena: &Arena<T>) -> (b: bool)
        requires
            arena.wf(),
        ensures
            b == (arena@.payload(self@) is Some),
    {
        self.strong(arena) > 0 && self.slot.is_some()
    }

    /// An owning handle on the observed block, while an owner is left: the
    /// strong count goes up by one. `None`, and nothing changed, once the
    /// value is gone or where nothing is observed.
    pub fn upgrade(&self, arena: &mut Arena<T>) -> (r: Option<Rcn<T>>)
        requires
            old(arena).wf(),
            old(arena)@.strong(self@) < usize::MAX,
        ensures
            final(arena).wf(),
            match r {
                Some(handle) => {
                    &&& old(arena)@.strong(self@) > 0
                    &&& handle@.block == self@.block
                    &&& !old(arena)@.blocks[self@.block->0].owners.contains(handle@.id)
                    &&& final(arena)@ == old(arena)@.add_owner(self@.block->0, handle@.id)
                },
                None => {
                    &&& old(arena)@.strong(self@) == 0
                    &&& final(arena)@ == old(arena)@
                },
            },
    {
        if self.strong(arena) == 0 {
            return None;
        }
        let slot = self.slot.unwrap();
        let id = arena.add_owner(slot);
        Some(Rcn::attach(slot, id))
    }

    /// Gives the handle's count back. With the last handle of either kind
    /// the control block is released. A handle that observes nothing leaves
    /// nothing behind.
    pub fn drop(self, arena: &mut Arena<T>)
        requires
            old(arena).wf(),
            old(arena)@.has_observer(self@),
        ensures
            final(arena).wf(),
            final(arena)@ == old(arena)@.drop_observer(self@),
    {
        match self.slot {
            Some(slot) => arena.remove_observer(slot, self.id),
            None => {},
        }
    }

    /// The observed value, to be read.
    pub fn deref<'a>(&self, arena: &'a Arena<T>) -> (value: &'a T)
        requires
            arena.wf(),
            arena@.payload(self@) is Some,
        ensures
            arena@.payload(self@) == Some(*value),
    {
        arena.value_at(self.slot.unwrap())
    }
}

impl<T: Clone> Weakn<T> {
    /// An observing handle has no value of its own to copy: its copy observes
    /// nothing.
    pub fn clone(&self) -> (w: Weakn<T>)
        ensures
            w@.block is None,
    {
        Weakn::new()
    }
}

} // verus!
