//! The owning handle.

use crate::arena::Arena;
use crate::model::Handle;
use crate::observing::Weakn;
use std::marker::PhantomData;
use vstd::prelude::*;

verus! {

/// A reference-counted handle that keeps its value alive, or holds none.
///
/// The value lives in a control block of an [`Arena`]. Handles made by
/// [`Rcn::share`] refer to one block and see one value; a handle made by
/// [`Rcn::clone`] has a block and a value of its own. A handle does not give
/// its count back by going out of scope: hand it to [`Rcn::drop`].
pub struct Rcn<T> {
    slot: Option<usize>,
    id: Ghost<nat>,
    phantom: PhantomData<T>,
}

impl<T> View for Rcn<T> {
    type V = Handle;

    /// The block that the handle refers to, and the handle's identity.
    closed spec fn view(&self) -> Handle {
        Handle {
            block: match self.slot {
                Some(slot) => Some(slot as nat),
                None => None,
            },
            id: self.id@,
        }
    }
}

impl<T> Rcn<T> {
    /// The handle `id` of the block in `slot`.
    pub(crate) fn attach(slot: usize, id: Ghost<nat>) -> (r: Rcn<T>)
        ensures
            r@ == (Handle { block: Some(slot as nat), id: id@ }),
    {
        Rcn { slot: Some(slot), id, phantom: PhantomData }
    }

    /// Puts `data` into a control block of its own and returns its first
    /// owner: strong count one, weak count zero.
    pub fn new(arena: &mut Arena<T>, data: T) -> (r: Rcn<T>)
        requires
            old(arena).wf(),
        ensures
            final(arena).wf(),
            r@.block is Some,
            !old(arena)@.blocks.dom().contains(r@.block->0),
            final(arena)@ == old(arena)@.allocate(r@.block->0, r@.id, data),
    {
        let (slot, id) = arena.allocate(data);
        Rcn::attach(slot, id)
    }

    /// A handle that holds no value and refers to no control block.
    pub fn none() -> (r: Rcn<T>)
        ensures
            r@.block is None,
    {
        Rcn { slot: None, id: Ghost(0), phantom: PhantomData }
    }

    /// The strong counter of the block, or zero without a block.
    fn strong(&self, arena: &Arena<T>) -> (n: usize)
        requires
            arena.wf(),
        ensures
            n == arena@.strong(self@),
    {
        match self.slot {
            None => 0,
            Some(slot) => if arena.holds(slot) {
                arena.strong_at(slot)
            } else {
                0
            },
        }
    }

    /// The weak counter of the block, or zero without a block.
    fn weak(&self, arena: &Arena<T>) -> (n: usize)
        requires
            arena.wf(),
        ensures
            n == arena@.weak(self@),
    {
        match self.slot {
            None => 0,
            Some(slot) => if arena.holds(slot) {
                arena.weak_at(slot)
            } else {
                0
            },
        }
    }

    /// The number of owning handles that refer to this handle's block.
    pub fn strong_count(&self, arena: &Arena<T>) -> (n: usize)
        requires
            arena.wf(),
        ensures
            n == arena@.strong(self@),
    {
        self.strong(arena)
    }

    /// The number of observing handles that refer to this handle's block.
    pub fn weak_count(&self, arena: &Arena<T>) -> (n: usize)
        requires
            arena.wf(),
        ensures
            n == arena@.weak(self@),
    {
        self.weak(arena)
    }

    /// Whether this is the only handle of either kind on its block.
    pub fn is_unique(&self, arena: &Arena<T>) -> (b: bool)
        requires
            arena.wf(),
        ensures
            b == arena@.unique(self@),
    {
        self.weak_count(arena) == 0 && self.strong_count(arena) == 1
    }

    /// Whether the handle holds no value.
    pub fn is_none(&self, arena: &Arena<T>) -> (b: bool)
        requires
            arena.wf(),
        ensures
            b == (arena@.payload(self@) is None),
    {
        self.strong(arena) == 0 || self.slot.is_none()
    }

    /// Whether the handle holds a value.
    pub fn is_some(&self, arena: &Arena<T>) -> (b: bool)
        requires
            arena.wf(),
        ensures
            b == (arena@.payload(self@) is Some),
    {
        self.strong(arena) > 0 && self.slot.is_some()
    }

    /// Whether the two handles refer to the same control block. Two handles
    /// without a block count as the same.
    pub fn ptr_eq(this: &Self, other: &Self) -> (b: bool)
        ensures
            b == (this@.block == other@.block),
    {
        match (this.slot, other.slot) {
            (Some(a), Some(b)) => a == b,
            (None, None) => true,
            _ => false,
        }
    }

    /// Another handle on the same control block: the strong count goes up by
    /// one and no value is copied.
    pub fn share(&self, arena: &mut Arena<T>) -> (r: Rcn<T>)
        requires
            old(arena).wf(),
            old(arena)@.payload(self@) is Some,
            old(arena)@.strong(self@) < usize::MAX,
        ensures
            final(arena).wf(),
            r@.block == self@.block,
            !old(arena)@.blocks[self@.block->0].owners.contains(r@.id),
            final(arena)@ == old(arena)@.add_owner(self@.block->0, r@.id),
    {
        let slot = self.slot.unwrap();
        let id = arena.add_owner(slot);
        Rcn::attach(slot, id)
    }

    /// An observing handle on the same control block: the weak count goes up
    /// by one, and this handle and the strong count stay as they are.
    pub fn downgrade(&self, arena: &mut Arena<T>) -> (w: Weakn<T>)
        requires
            old(arena).wf(),
            old(arena)@.attached(self@),
            old(arena)@.weak(self@) < usize::MAX,
        ensures
            final(arena).wf(),
            w@.block == self@.block,
            !old(arena)@.blocks[self@.block->0].observers.contains(w@.id),
            final(arena)@ == old(arena)@.add_observer(self@.block->0, w@.id),
    {
        let slot = self.slot.unwrap();
        let id = arena.add_observer(slot);
        Weakn::attach(slot, id)
    }

    /// Takes the value out if this is the only handle of either kind on its
    /// block, and leaves the handle without a block. Otherwise returns `None`
    /// and changes nothing.
    pub fn take(&mut self, arena: &mut Arena<T>) -> (r: Option<T>)
        requires
            old(arena).wf(),
            old(arena)@.has_owner(old(self)@),
        ensures
            final(arena).wf(),
            old(arena)@.unique(old(self)@) ==> {
                &&& r is Some
                &&& r == old(arena)@.payload(old(self)@)
                &&& final(self)@.block is None
                &&& final(arena)@ == old(arena)@.drop_owner(old(self)@)
            },
            !old(arena)@.unique(old(self)@) ==> {
                &&& r is None
                &&& final(self)@ == old(self)@
                &&& final(arena)@ == old(arena)@
            },
    {
        if self.is_unique(arena) {
            let slot = self.slot.unwrap();
            self.slot = None;
            arena.remove_owner(slot, self.id)
        } else {
            None
        }
    }

    /// Returns the value if `this` is the only owning handle on its block,
    /// whether or not observers are left: they find the value gone. Otherwise
    /// returns the handle as it came, and changes nothing.
    pub fn try_unwrap(this: Self, arena: &mut Arena<T>) -> (r: Result<T, Self>)
        requires
            old(arena).wf(),
            old(arena)@.has_owner(this@),
        ensures
            final(arena).wf(),
            match r {
                Ok(value) => {
                    &&& old(arena)@.strong(this@) == 1
                    &&& old(arena)@.payload(this@) == Some(value)
                    &&& final(arena)@ == old(arena)@.drop_owner(this@)
                },
                Err(handle) => {
                    &&& old(arena)@.strong(this@) != 1
                    &&& handle@ == this@
                    &&& final(arena)@ == old(arena)@
                },
            },
    {
        if this.strong_count(arena) == 1 {
            let slot = this.slot.unwrap();
            let value = arena.remove_owner(slot, this.id);
            Ok(value.unwrap())
        } else {
            Err(this)
        }
    }

    /// Gives the handle's count back. With the last owning handle the value
    /// is destroyed; with the last handle of either kind the control block is
    /// released. A handle without a block leaves nothing behind.
    pub fn drop(self, arena: &mut Arena<T>)
        requires
            old(arena).wf(),
            old(arena)@.has_owner(self@),
        ensures
            final(arena).wf(),
            final(arena)@ == old(arena)@.drop_owner(self@),
    {
        if self.is_some(arena) {
            let slot = self.slot.unwrap();
            let _ = arena.remove_owner(slot, self.id);
        }
    }

    /// The value, to be read.
    pub fn deref<'a>(&self, arena: &'a Arena<T>) -> (value: &'a T)
        requires
            arena.wf(),
            arena@.payload(self@) is Some,
        ensures
            arena@.payload(self@) == Some(*value),
    {
        arena.value_at(self.slot.unwrap())
    }

    /// The value, to be written through. Every handle on the same block sees
    /// what is written.
    pub fn deref_mut<'a>(&mut self, arena: &'a mut Arena<T>) -> (value: &'a mut T)
        requires
            old(arena).wf(),
            old(arena)@.payload(old(self)@) is Some,
        ensures
            old(arena)@.payload(old(self)@) == Some(*value),
            final(self)@ == old(self)@,
            final(arena).wf(),
            final(arena)@ == old(arena)@.store(old(self)@.block->0, *final(value)),
    {
        arena.value_at_mut(self.slot.unwrap())
    }
}

impl<T: Clone> Rcn<T> {
    /// A copy of the value.
    pub fn get(&self, arena: &Arena<T>) -> (value: T)
        requires
            arena.wf(),
            arena@.payload(self@) is Some,
        ensures
            cloned(arena@.payload(self@)->0, value),
    {
        arena.value_at(self.slot.unwrap()).clone()
    }

    /// Puts a copy of `data` in place of the value. The control block stays
    /// the same, so every handle on it sees the new value.
    pub fn set(&mut self, arena: &mut Arena<T>, data: &T)
        requires
            old(arena).wf(),
            old(arena)@.payload(old(self)@) is Some,
        ensures
            final(arena).wf(),
            final(self)@ == old(self)@,
            final(arena)@.payload(old(self)@) is Some,
            cloned(*data, final(arena)@.payload(old(self)@)->0),
            final(arena)@ == old(arena)@.store(
                old(self)@.block->0,
                final(arena)@.payload(old(self)@)->0,
            ),
    {
        let value = arena.value_at_mut(self.slot.unwrap());
        *value = data.clone();
    }

    /// A handle on a new control block that holds a copy of the value, with
    /// strong count one and weak count zero; or a handle without a block if
    /// this one holds no value. The two blocks never share a value.
    pub fn clone(&self, arena: &mut Arena<T>) -> (r: Rcn<T>)
        requires
            old(arena).wf(),
        ensures
            final(arena).wf(),
            match old(arena)@.payload(self@) {
                Some(value) => {
                    &&& r@.block is Some
                    &&& !old(arena)@.blocks.dom().contains(r@.block->0)
                    &&& final(arena)@.payload(r@) is Some
                    &&& cloned(value, final(arena)@.payload(r@)->0)
                    &&& final(arena)@ == old(arena)@.allocate(
                        r@.block->0,
                        r@.id,
                        final(arena)@.payload(r@)->0,
                    )
                },
                None => r@.block is None && final(arena)@ == old(arena)@,
            },
    {
        if self.is_some(arena) {
            let copy = arena.value_at(self.slot.unwrap()).clone();
            Rcn::new(arena, copy)
        } else {
            Rcn::none()
        }
    }
}

} // verus!
