//! Per-thread pin bookkeeping.
//!
//! A [`ThreadState`] records whether its thread is currently pinned and, if
//! so, at which generation, together with a pin depth so that a second
//! shield on the same thread nests instead of losing the first pin.  It is
//! mutated only through the collector that owns it and scanned by the
//! advancement check.

use crate::epoch::Epoch;
use vstd::prelude::*;

verus! {

/// The pin record of one registered thread.
#[derive(Clone, Copy, Debug, PartialEq, Eq, Structural)]
pub struct ThreadState {
    /// The epoch the thread last recorded.  Its marker is set exactly while
    /// the thread is pinned; its generation is then the one the thread
    /// observed when its outermost pin began.
    pub epoch: Epoch,
    /// How many nested pins the thread currently holds.
    pub depth: u64,
}

impl ThreadState {
    /// The record is internally consistent: the pinned marker is set if and
    /// only if at least one pin is held.
    pub open spec fn inv(self) -> bool {
        self.depth == 0 <==> !self.epoch.pinned
    }

    /// Whether the thread currently holds at least one pin.
    pub open spec fn pinned(self) -> bool {
        self.depth > 0
    }

    /// The generation the thread recorded.
    pub open spec fn generation(self) -> u64 {
        self.epoch.generation
    }

    /// The record of a freshly registered, unpinned thread.
    pub open spec fn initial() -> ThreadState {
        ThreadState { epoch: Epoch { generation: 0, pinned: false }, depth: 0 }
    }

    /// The record after one pin at global epoch `global`: an unpinned
    /// thread records the observed generation with the marker set; a pinned
    /// thread only deepens its pin, keeping the recorded generation.
    pub open spec fn entered(self, global: Epoch) -> ThreadState {
        if self.depth == 0 {
            ThreadState {
                epoch: Epoch { generation: global.generation, pinned: true },
                depth: 1,
            }
        } else {
            ThreadState { epoch: self.epoch, depth: (self.depth + 1) as u64 }
        }
    }

    /// The record after one unpin: the innermost of several nested pins is
    /// released; releasing the outermost pin clears the marker.
    pub open spec fn exited(self) -> ThreadState {
        if self.depth == 1 {
            ThreadState {
                epoch: Epoch { generation: self.epoch.generation, pinned: false },
                depth: 0,
            }
        } else {
            ThreadState { epoch: self.epoch, depth: (self.depth - 1) as u64 }
        }
    }

    /// A freshly registered, unpinned thread record.
    pub fn new() -> (ts: ThreadState)
        ensures
            ts == ThreadState::initial(),
            ts.inv(),
    {
        ThreadState { epoch: Epoch::zero(), depth: 0 }
    }

    /// The epoch the thread last recorded, as the advancement scan reads it.
    pub fn load_epoch_relaxed(&self) -> (e: Epoch)
        ensures
            e == self.epoch,
    {
        self.epoch
    }

    /// Takes one pin at the global epoch `global`.
    pub fn enter(&mut self, global: Epoch)
        requires
            old(self).inv(),
            !global.pinned,
            old(self).depth < u64::MAX,
        ensures
            *final(self) == old(self).entered(global),
            final(self).inv(),
            final(self).pinned(),
    {
        if self.depth == 0 {
            self.epoch = global.pinned();
            self.depth = 1;
        } else {
            self.depth = self.depth + 1;
        }
    }

    /// Releases one pin.  Releasing more pins than were taken is a contract
    /// violation, excluded by the precondition.
    pub fn exit(&mut self)
        requires
            old(self).inv(),
            old(self).depth >= 1,
        ensures
            *final(self) == old(self).exited(),
            final(self).inv(),
            final(self).generation() == old(self).generation(),
            final(self).pinned() <==> old(self).depth > 1,
    {
        if self.depth == 1 {
            self.epoch = self.epoch.unpinned();
            self.depth = 0;
        } else {
            self.depth = self.depth - 1;
        }
    }
}

/// Depth correctness: a cloned shield is a second independent pin.  After
/// pinning twice, releasing one pin leaves the thread pinned at the same
/// generation; only releasing the second pin unpins it.
pub proof fn lemma_pin_depth(ts: ThreadState, global: Epoch)
    requires
        ts.inv(),
        !ts.pinned(),
        !global.pinned,
    ensures
        ({
            let twice = ts.entered(global).entered(global);
            &&& twice.depth == 2
            &&& twice.exited().pinned()
            &&& twice.exited().generation() == global.generation
            &&& !twice.exited().exited().pinned()
        }),
{
}

} // verus!
