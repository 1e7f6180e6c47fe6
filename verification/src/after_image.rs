//! Round-robin choice of the ghost slot that the after-image effect places
//! next.

use vstd::prelude::*;

verus! {

/// Where the next ghost goes among the pre-placed ghost slots.
#[derive(Clone, Copy, Debug, PartialEq, Eq, Structural)]
pub struct GhostCursor {
    /// Index the next spawn starts from, taken modulo the slot count.
    pub next: usize,
}

/// Slot that a spawn takes when the cursor is at `next` and there are
/// `slot_count` slots.
pub open spec fn slot_taken(next: int, slot_count: int) -> int {
    next % slot_count
}

/// Cursor after the first `k` spawns that follow a reset, with `slot_count`
/// slots.
pub open spec fn cursor_after(k: nat, slot_count: int) -> int
    decreases k,
{
    if k == 0 {
        0
    } else {
        slot_taken(cursor_after((k - 1) as nat, slot_count), slot_count) + 1
    }
}

impl GhostCursor {
    /// A cursor that has not been reset to the first slot yet.
    pub fn new() -> (r: GhostCursor)
        ensures
            r.next == usize::MAX,
    {
        GhostCursor { next: usize::MAX }
    }

    /// Point at the first slot.
    pub fn reset(&mut self)
        ensures
            final(self).next == 0,
    {
        self.next = 0;
    }

    /// Take the slot for a new ghost and move past it.
    pub fn take_slot(&mut self, slot_count: usize) -> (slot: usize)
        requires
            slot_count > 0,
        ensures
            slot == slot_taken(old(self).next as int, slot_count as int),
            slot as int == old(self).next as int % slot_count as int,
            slot < slot_count,
            final(self).next == slot + 1,
    {
        let slot = self.next % slot_count;
        self.next = slot + 1;
        slot
    }
}

/// A spawn takes the slot the cursor points at, wrapped into range.
pub proof fn lemma_slot_taken_wraps(next: int, slot_count: int)
    requires
        0 <= next,
        slot_count > 0,
    ensures
        0 <= slot_taken(next, slot_count) < slot_count,
        next < slot_count ==> slot_taken(next, slot_count) == next,
        slot_taken(next + slot_count, slot_count) == slot_taken(next, slot_count),
{
    vstd::arithmetic::div_mod::lemma_mod_bound(next, slot_count);
    if next < slot_count {
        vstd::arithmetic::div_mod::lemma_small_mod(next as nat, slot_count as nat);
    }
    vstd::arithmetic::div_mod::lemma_mod_add_multiples_vanish(next, slot_count);
}

/// After a reset, spawns take the slots in turn: the `k`-th spawn (counting
/// from 0) takes slot `k % slot_count`, so any `slot_count` consecutive
/// spawns use every slot once.
pub proof fn lemma_round_robin(k: nat, slot_count: int)
    requires
        slot_count > 0,
    ensures
        slot_taken(cursor_after(k, slot_count), slot_count) == (k as int) % slot_count,
        0 <= cursor_after(k, slot_count) <= slot_count,
    decreases k,
{
    if k > 0 {
        lemma_round_robin((k - 1) as nat, slot_count);
        vstd::arithmetic::div_mod::lemma_add_mod_noop_right(1, k - 1, slot_count);
        vstd::arithmetic::div_mod::lemma_mod_bound(cursor_after((k - 1) as nat, slot_count), slot_count);
    }
}

} // verus!
