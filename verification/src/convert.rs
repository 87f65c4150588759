//! Other ways to make an owning handle.

use crate::arena::Arena;
use crate::owning::Rcn;
use std::rc::Rc;
use vstd::prelude::*;

verus! {

impl<T> Rcn<T> {
    /// A handle that owns `value`, as [`Rcn::new`] makes it.
    pub fn from(arena: &mut Arena<T>, value: T) -> (r: Rcn<T>)
        requires
            old(arena).wf(),
        ensures
            final(arena).wf(),
            r@.block is Some,
            !old(arena)@.blocks.dom().contains(r@.block->0),
            final(arena)@ == old(arena)@.allocate(r@.block->0, r@.id, value),
    {
        Rcn::new(arena, value)
    }

    /// The value, to be read: the same as [`Rcn::deref`].
    pub fn as_ref<'a>(&self, arena: &'a Arena<T>) -> (value: &'a T)
        requires
            arena.wf(),
            arena@.payload(self@) is Some,
        ensures
            arena@.payload(self@) == Some(*value),
    {
        self.deref(arena)
    }
}

impl<T: Default> Rcn<T> {
    /// A handle that owns the default value of `T`.
    pub fn default(arena: &mut Arena<T>) -> (r: Rcn<T>)
        requires
            old(arena).wf(),
        ensures
            final(arena).wf(),
            r@.block is Some,
            !old(arena)@.blocks.dom().contains(r@.block->0),
            final(arena)@.payload(r@) is Some,
            T::default.ensures((), final(arena)@.payload(r@)->0),
            final(arena)@ == old(arena)@.allocate(
                r@.block->0,
                r@.id,
                final(arena)@.payload(r@)->0,
            ),
    {
        Rcn::new(arena, T::default())
    }
}

impl<T: Clone> Rcn<T> {
    /// A handle that owns a copy of what the box holds.
    pub fn from_box(arena: &mut Arena<T>, v: Box<T>) -> (r: Rcn<T>)
        requires
            old(arena).wf(),
        ensures
            final(arena).wf(),
            r@.block is Some,
            !old(arena)@.blocks.dom().contains(r@.block->0),
            final(arena)@.payload(r@) is Some,
            cloned(*v, final(arena)@.payload(r@)->0),
            final(arena)@ == old(arena)@.allocate(
                r@.block->0,
                r@.id,
                final(arena)@.payload(r@)->0,
            ),
    {
        let copy = (*v).clone();
        Rcn::new(arena, copy)
    }

    /// A handle that owns a copy of what the `Rc` refers to.
    pub fn from_rc(arena: &mut Arena<T>, v: Rc<T>) -> (r: Rcn<T>)
        requires
            old(arena).wf(),
        ensures
            final(arena).wf(),
            r@.block is Some,
            !old(arena)@.blocks.dom().contains(r@.block->0),
            final(arena)@.payload(r@) is Some,
            cloned(*v, final(arena)@.payload(r@)->0),
            final(arena)@ == old(arena)@.allocate(
                r@.block->0,
                r@.id,
                final(arena)@.payload(r@)->0,
            ),
    {
        let copy = (*v).clone();
        Rcn::new(arena, copy)
    }
}

} // verus!
