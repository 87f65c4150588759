//! What the operations on handles add up to, proved over the model that
//! their contracts are stated in.

use crate::model::Handle;
use crate::model::Store;
use vstd::prelude::*;

verus! {

/// Aliasing against duplication. Let `a` hold a value, let `b` be made by
/// sharing `a` and `c` by cloning it into a new block with the copy `copy`.
/// A value written through `b` is what `a` sees, and the clone keeps its
/// copy; a value written through `c` is seen by neither `a` nor `b`.
pub proof fn theorem_share_aliases_clone_duplicates<T>(
    s: Store<T>,
    a: Handle,
    b: Handle,
    c: Handle,
    copy: T,
    written: T,
)
    requires
        s.valid(),
        s.has_owner(a),
        s.payload(a) is Some,
        b.block == a.block,
        !s.blocks[a.block->0].owners.contains(b.id),
        c.block is Some,
        !s.blocks.dom().contains(c.block->0),
    ensures
        ({
            let both = s.add_owner(a.block->0, b.id).allocate(c.block->0, c.id, copy);
            let through_b = both.store(b.block->0, written);
            let through_c = both.store(c.block->0, written);
            &&& both.valid()
            &&& both.has_owner(a) && both.has_owner(b) && both.has_owner(c)
            &&& through_b.payload(a) == Some(written)
            &&& through_b.payload(b) == Some(written)
            &&& through_b.payload(c) == Some(copy)
            &&& through_c.payload(c) == Some(written)
            &&& through_c.payload(a) == s.payload(a)
            &&& through_c.payload(b) == s.payload(a)
        }),
{
    let shared = s.add_owner(a.block->0, b.id);
    assert(s.blocks[a.block->0].valid());
    s.lemma_add_owner_valid(a.block->0, b.id);
    shared.lemma_allocate_valid(c.block->0, c.id, copy);
}

/// Dead-weak safety. Once the only owning handle of a block has gone, an
/// observing handle made before is still live, so it can be asked and given
/// back; it finds no value, and the strong count it sees is zero, which is
/// when an upgrade returns `None`.
pub proof fn theorem_observer_survives_last_owner<T>(s: Store<T>, owner: Handle, w: Handle)
    requires
        s.valid(),
        s.attached(owner),
        s.has_owner(owner),
        s.strong(owner) == 1,
        w.block == owner.block,
        s.has_observer(w),
    ensures
        ({
            let after = s.drop_owner(owner);
            &&& after.valid()
            &&& after.attached(w)
            &&& after.has_observer(w)
            &&& after.payload(w) is None
            &&& after.strong(w) == 0
        }),
{
    let b = owner.block->0;
    assert(s.blocks[b].valid());
    s.lemma_remove_owner_valid(b, owner.id);
    assert(s.blocks[b].observers.len() > 0) by {
        if s.blocks[b].observers.len() == 0 {
            s.blocks[b].observers.lemma_len0_is_empty();
        }
    }
}

/// Round trip. A downgrade of a live owning handle `a` followed at once by
/// an upgrade of the observer succeeds, and the handle `u` it returns refers
/// to the block of `a` and sees the value that `a` saw. The strong count is
/// up by exactly one, the weak count by the one observer.
pub proof fn theorem_downgrade_upgrade_round_trip<T>(s: Store<T>, a: Handle, w: Handle, u: Handle)
    requires
        s.valid(),
        s.attached(a),
        s.has_owner(a),
        w.block == a.block,
        !s.blocks[a.block->0].observers.contains(w.id),
        u.block == a.block,
        !s.blocks[a.block->0].owners.contains(u.id),
    ensures
        ({
            let observed = s.add_observer(a.block->0, w.id);
            let upgraded = observed.add_owner(a.block->0, u.id);
            &&& observed.strong(w) > 0
            &&& upgraded.valid()
            &&& upgraded.has_owner(a) && upgraded.has_owner(u) && upgraded.has_observer(w)
            &&& upgraded.payload(u) == s.payload(a)
            &&& upgraded.payload(a) == s.payload(a)
            &&& upgraded.strong(a) == s.strong(a) + 1
            &&& upgraded.weak(a) == s.weak(a) + 1
        }),
{
    let b = a.block->0;
    assert(s.blocks[b].valid());
    assert(s.blocks[b].strong > 0) by {
        if s.blocks[b].owners.len() == 0 {
            s.blocks[b].owners.lemma_len0_is_empty();
        }
    }
    s.lemma_add_observer_valid(b, w.id);
    s.add_observer(b, w.id).lemma_add_owner_valid(b, u.id);
}

} // verus!
