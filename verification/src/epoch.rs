//! The generation value that drives reclamation.
//!
//! An [`Epoch`] pairs a generation counter with a pinned marker.  The global
//! epoch of a collector always carries a cleared marker; the epoch recorded
//! by a pinned thread carries a set marker.  The raw slot index, generation
//! modulo three, selects one of the three reclamation queues.

use vstd::prelude::*;

verus! {

/// How many reclamation slots a generation value is folded into.
pub const SLOT_COUNT: usize = 3;

/// A generation counter together with a pinned marker.
#[derive(Clone, Copy, Debug, PartialEq, Eq, Structural)]
pub struct Epoch {
    /// The generation this epoch represents.
    pub generation: u64,
    /// Whether this epoch was recorded by a pinned thread.
    pub pinned: bool,
}

impl Epoch {
    /// The slot index that a generation selects, as a mathematical value.
    pub open spec fn slot(self) -> int {
        (self.generation as int) % 3
    }

    /// The epoch at generation zero, unpinned.
    pub fn zero() -> (e: Epoch)
        ensures
            e.generation == 0,
            !e.pinned,
    {
        Epoch { generation: 0, pinned: false }
    }

    /// Whether the pinned marker is set.
    pub fn is_pinned(&self) -> (r: bool)
        ensures
            r == self.pinned,
    {
        self.pinned
    }

    /// The same generation with the pinned marker cleared.
    pub fn unpinned(&self) -> (e: Epoch)
        ensures
            e.generation == self.generation,
            !e.pinned,
    {
        Epoch { generation: self.generation, pinned: false }
    }

    /// The same generation with the pinned marker set.
    pub fn pinned(&self) -> (e: Epoch)
        ensures
            e.generation == self.generation,
            e.pinned,
    {
        Epoch { generation: self.generation, pinned: true }
    }

    /// The successor generation, unpinned.
    pub fn next(&self) -> (e: Epoch)
        requires
            self.generation < u64::MAX,
        ensures
            e.generation == self.generation + 1,
            !e.pinned,
    {
        Epoch { generation: self.generation + 1, pinned: false }
    }

    /// The reclamation slot this generation selects, always within
    /// `{0, 1, 2}` by construction.
    pub fn into_raw(&self) -> (slot: usize)
        ensures
            slot == self.slot(),
            slot < SLOT_COUNT,
    {
        (self.generation % 3) as usize
    }
}

} // verus!
