//! Round-robin fan-out / fan-in cursors.
//!
//! The generator advances one cursor per worker family to pick the channel
//! that receives the next item, and the merger rotates through the same
//! family's output channels with an identical cursor, so that each worker's
//! partition is produced and drained in the same deterministic order.

use vstd::prelude::*;

verus! {

/// Which channel of a family the item with the given index is assigned to:
/// the cursors below walk exactly this partition.
pub open spec fn fan_assignment(index: nat, width: nat) -> nat
    recommends
        width >= 1,
{
    index % width
}

/// A cursor that cycles through `width` channels, one step per item.
pub struct RoundRobin {
    cursor: usize,
    width: usize,
}

impl RoundRobin {
    /// The channel the next item will be assigned to.
    pub closed spec fn cursor(self) -> nat {
        self.cursor as nat
    }

    /// How many channels the cursor cycles through.
    pub closed spec fn width(self) -> nat {
        self.width as nat
    }

    pub open spec fn wf(self) -> bool {
        &&& self.width() >= 1
        &&& self.cursor() < self.width()
    }

    /// A fresh cursor starts at channel 0.
    pub fn new(width: usize) -> (r: RoundRobin)
        requires
            width >= 1,
        ensures
            r.wf(),
            r.width() == width,
            r.cursor() == 0,
    {
        RoundRobin { cursor: 0, width }
    }

    /// Hand out the current channel index and advance, wrapping at `width`.
    pub fn next_slot(&mut self) -> (i: usize)
        requires
            old(self).wf(),
        ensures
            final(self).wf(),
            final(self).width() == old(self).width(),
            i == old(self).cursor(),
            i < old(self).width(),
            final(self).cursor() == (old(self).cursor() + 1) % old(self).width(),
    {
        let i = self.cursor;
        self.cursor = if self.cursor + 1 == self.width {
            0
        } else {
            self.cursor + 1
        };
        proof {
            if i + 1 == self.width {
                vstd::arithmetic::div_mod::lemma_mod_self_0(self.width as int);
            } else {
                vstd::arithmetic::div_mod::lemma_small_mod((i + 1) as nat, self.width as nat);
            }
        }
        i
    }
}

/// Determinism law: a cursor that has been advanced once per item so far
/// sits at the assignment of the next item, and stepping it keeps that in
/// sync — the `k`-th item of a family always goes to channel `k % width`.
pub proof fn lemma_round_robin_tracks_assignment(k: nat, width: nat)
    requires
        width >= 1,
    ensures
        (fan_assignment(k, width) as int + 1) % (width as int) == fan_assignment(k + 1, width) as int,
{
    let w = width as int;
    let ki = k as int;
    vstd::arithmetic::div_mod::lemma_add_mod_noop(ki, 1, w);
    if width == 1 {
        assert((ki % 1int + 1int % 1int) % 1int == (ki + 1) % 1int);
    } else {
        vstd::arithmetic::div_mod::lemma_small_mod(1nat, width);
    }
}

} // verus!
