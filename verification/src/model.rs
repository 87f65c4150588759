//! The mathematical model of the counting protocol.
//!
//! A [`Store`] maps the slot of every control block that has not been released
//! to its [`BlockState`]. Beside the two counters and the payload, a block's
//! state records which handles currently refer to it: every handle carries an
//! identity, and the block keeps the identities of its live owning handles and
//! of its live observing handles. The counters and these two sets are kept
//! separately, so that "the strong count is the number of live owning handles"
//! is a statement that can be proved rather than a definition.

use vstd::prelude::*;

verus! {

/// What a handle is, seen from a specification: the control block it refers to
/// (`None` for a handle that refers to no block) and its own identity among the
/// handles of that block.
pub struct Handle {
    pub block: Option<nat>,
    pub id: nat,
}

/// The state of one control block.
pub struct BlockState<T> {
    /// The strong counter.
    pub strong: nat,
    /// The weak counter.
    pub weak: nat,
    /// The payload slot.
    pub payload: Option<T>,
    /// Identities of the live owning handles that refer to this block.
    pub owners: Set<nat>,
    /// Identities of the live observing handles that refer to this block.
    pub observers: Set<nat>,
}

impl<T> BlockState<T> {
    /// The invariant of a block that has not been released: each counter is the
    /// number of live handles of its kind, the payload is present exactly while
    /// an owner is left, and somebody still refers to the block.
    pub open spec fn valid(self) -> bool {
        &&& self.owners.finite()
        &&& self.observers.finite()
        &&& self.strong == self.owners.len()
        &&& self.weak == self.observers.len()
        &&& (self.payload is Some <==> self.strong > 0)
        &&& !self.released()
    }

    /// Both counters are zero: nothing refers to the block any more.
    pub open spec fn released(self) -> bool {
        self.strong == 0 && self.weak == 0
    }

    /// The block as its first owner `id` finds it: one owner, no observer.
    pub open spec fn fresh(id: nat, value: T) -> Self {
        BlockState {
            strong: 1,
            weak: 0,
            payload: Some(value),
            owners: Set::empty().insert(id),
            observers: Set::empty(),
        }
    }

    /// One more owning handle, `id`.
    pub open spec fn add_owner(self, id: nat) -> Self {
        BlockState { strong: self.strong + 1, owners: self.owners.insert(id), ..self }
    }

    /// One more observing handle, `id`.
    pub open spec fn add_observer(self, id: nat) -> Self {
        BlockState { weak: self.weak + 1, observers: self.observers.insert(id), ..self }
    }

    /// The owning handle `id` departs. With the last owner the payload goes.
    pub open spec fn remove_owner(self, id: nat) -> Self {
        BlockState {
            strong: (self.strong - 1) as nat,
            owners: self.owners.remove(id),
            payload: if self.strong == 1 {
                None
            } else {
                self.payload
            },
            ..self
        }
    }

    /// The observing handle `id` departs.
    pub open spec fn remove_observer(self, id: nat) -> Self {
        BlockState { weak: (self.weak - 1) as nat, observers: self.observers.remove(id), ..self }
    }

    /// The payload is replaced by `value`.
    pub open spec fn store(self, value: T) -> Self {
        BlockState { payload: Some(value), ..self }
    }
}

/// All control blocks that have not been released, by slot.
pub struct Store<T> {
    pub blocks: Map<nat, BlockState<T>>,
}

impl<T> Store<T> {
    /// No control block at all.
    pub open spec fn empty() -> Self {
        Store { blocks: Map::empty() }
    }

    /// Every block of the store satisfies [`BlockState::valid`], and there are
    /// finitely many of them.
    pub open spec fn valid(self) -> bool {
        &&& self.blocks.dom().finite()
        &&& forall|b: nat| self.blocks.dom().contains(b) ==> (#[trigger] self.blocks[b]).valid()
    }

    /// `h` refers to a block of this store.
    pub open spec fn attached(self, h: Handle) -> bool {
        h.block is Some && self.blocks.dom().contains(h.block->0)
    }

    /// `h` is a live owning handle of this store, or refers to no block.
    pub open spec fn has_owner(self, h: Handle) -> bool {
        h.block is Some ==> self.attached(h) && self.blocks[h.block->0].owners.contains(h.id)
    }

    /// `h` is a live observing handle of this store, or refers to no block.
    pub open spec fn has_observer(self, h: Handle) -> bool {
        h.block is Some ==> self.attached(h) && self.blocks[h.block->0].observers.contains(h.id)
    }

    /// The strong counter that `h` sees; zero where it refers to no block.
    pub open spec fn strong(self, h: Handle) -> nat {
        if self.attached(h) {
            self.blocks[h.block->0].strong
        } else {
            0
        }
    }

    /// The weak counter that `h` sees; zero where it refers to no block.
    pub open spec fn weak(self, h: Handle) -> nat {
        if self.attached(h) {
            self.blocks[h.block->0].weak
        } else {
            0
        }
    }

    /// The payload that `h` sees, if there is one.
    pub open spec fn payload(self, h: Handle) -> Option<T> {
        if self.attached(h) {
            self.blocks[h.block->0].payload
        } else {
            None
        }
    }

    /// `h` is the only handle of either kind that refers to its block.
    pub open spec fn unique(self, h: Handle) -> bool {
        self.strong(h) == 1 && self.weak(h) == 0
    }

    /// A new block in the unused slot `b`, holding `value` for its first owner `id`.
    pub open spec fn allocate(self, b: nat, id: nat, value: T) -> Self {
        Store { blocks: self.blocks.insert(b, BlockState::fresh(id, value)) }
    }

    /// Block `b` gains the owning handle `id`.
    pub open spec fn add_owner(self, b: nat, id: nat) -> Self {
        Store { blocks: self.blocks.insert(b, self.blocks[b].add_owner(id)) }
    }

    /// Block `b` gains the observing handle `id`.
    pub open spec fn add_observer(self, b: nat, id: nat) -> Self {
        Store { blocks: self.blocks.insert(b, self.blocks[b].add_observer(id)) }
    }

    /// Block `b` loses the owning handle `id`. The payload is destroyed with
    /// the last owner, and the block is released once no observer is left
    /// either.
    pub open spec fn remove_owner(self, b: nat, id: nat) -> Self {
        let after = self.blocks[b].remove_owner(id);
        if after.released() {
            Store { blocks: self.blocks.remove(b) }
        } else {
            Store { blocks: self.blocks.insert(b, after) }
        }
    }

    /// Block `b` loses the observing handle `id`, and is released if that was
    /// the last handle of either kind.
    pub open spec fn remove_observer(self, b: nat, id: nat) -> Self {
        let after = self.blocks[b].remove_observer(id);
        if after.released() {
            Store { blocks: self.blocks.remove(b) }
        } else {
            Store { blocks: self.blocks.insert(b, after) }
        }
    }

    /// The payload of block `b` becomes `value`; nothing else changes.
    pub open spec fn store(self, b: nat, value: T) -> Self {
        Store { blocks: self.blocks.insert(b, self.blocks[b].store(value)) }
    }

    /// The owning handle `h` goes away. A handle without a block leaves
    /// nothing behind.
    pub open spec fn drop_owner(self, h: Handle) -> Self {
        if h.block is Some {
            self.remove_owner(h.block->0, h.id)
        } else {
            self
        }
    }

    /// The observing handle `h` goes away. A handle without a block leaves
    /// nothing behind.
    pub open spec fn drop_observer(self, h: Handle) -> Self {
        if h.block is Some {
            self.remove_observer(h.block->0, h.id)
        } else {
            self
        }
    }
}

impl<T> Store<T> {
    /// A new block in an unused slot keeps the store valid.
    pub proof fn lemma_allocate_valid(self, b: nat, id: nat, value: T)
        requires
            self.valid(),
            !self.blocks.dom().contains(b),
        ensures
            self.allocate(b, id, value).valid(),
    {
        let next = self.allocate(b, id, value);
        assert forall|c: nat| next.blocks.dom().contains(c) implies (#[trigger] next.blocks[c]).valid() by {
            if c != b {
                assert(self.blocks[c].valid());
            }
        }
    }

    /// A further owner of a block that still has one keeps the store valid.
    pub proof fn lemma_add_owner_valid(self, b: nat, id: nat)
        requires
            self.valid(),
            self.blocks.dom().contains(b),
            self.blocks[b].strong > 0,
            !self.blocks[b].owners.contains(id),
        ensures
            self.add_owner(b, id).valid(),
    {
        let next = self.add_owner(b, id);
        assert(self.blocks[b].valid());
        assert forall|c: nat| next.blocks.dom().contains(c) implies (#[trigger] next.blocks[c]).valid() by {
            if c != b {
                assert(self.blocks[c].valid());
            }
        }
        assert(next.blocks.dom() =~= self.blocks.dom());
    }

    /// A further observer keeps the store valid.
    pub proof fn lemma_add_observer_valid(self, b: nat, id: nat)
        requires
            self.valid(),
            self.blocks.dom().contains(b),
            !self.blocks[b].observers.contains(id),
        ensures
            self.add_observer(b, id).valid(),
    {
        let next = self.add_observer(b, id);
        assert(self.blocks[b].valid());
        assert forall|c: nat| next.blocks.dom().contains(c) implies (#[trigger] next.blocks[c]).valid() by {
            if c != b {
                assert(self.blocks[c].valid());
            }
        }
        assert(next.blocks.dom() =~= self.blocks.dom());
    }

    /// The departure of a live owner keeps the store valid.
    pub proof fn lemma_remove_owner_valid(self, b: nat, id: nat)
        requires
            self.valid(),
            self.blocks.dom().contains(b),
            self.blocks[b].owners.contains(id),
        ensures
            self.remove_owner(b, id).valid(),
    {
        let next = self.remove_owner(b, id);
        assert(self.blocks[b].valid());
        assert forall|c: nat| next.blocks.dom().contains(c) implies (#[trigger] next.blocks[c]).valid() by {
            if c != b {
                assert(self.blocks[c].valid());
            }
        }
    }

    /// The departure of a live observer keeps the store valid.
    pub proof fn lemma_remove_observer_valid(self, b: nat, id: nat)
        requires
            self.valid(),
            self.blocks.dom().contains(b),
            self.blocks[b].observers.contains(id),
        ensures
            self.remove_observer(b, id).valid(),
    {
        let next = self.remove_observer(b, id);
        assert(self.blocks[b].valid());
        assert forall|c: nat| next.blocks.dom().contains(c) implies (#[trigger] next.blocks[c]).valid() by {
            if c != b {
                assert(self.blocks[c].valid());
            }
        }
    }

    /// A new payload in place of a present one keeps the store valid.
    pub proof fn lemma_store_valid(self, b: nat, value: T)
        requires
            self.valid(),
            self.blocks.dom().contains(b),
            self.blocks[b].payload is Some,
        ensures
            self.store(b, value).valid(),
    {
        let next = self.store(b, value);
        assert(self.blocks[b].valid());
        assert forall|c: nat| next.blocks.dom().contains(c) implies (#[trigger] next.blocks[c]).valid() by {
            if c != b {
                assert(self.blocks[c].valid());
            }
        }
        assert(next.blocks.dom() =~= self.blocks.dom());
    }
}

} // verus!
