//! The stats stage's accounting: a running block count turned into a
//! percentage after every delta. The stream's consumer loop and its display
//! live with the program around the library.

use vstd::prelude::*;

use crate::utils::get_percentage;

verus! {

/// Progress over a run of `total` blocks: how many block deltas have been
/// folded in so far.
#[derive(Debug, Clone, Copy, PartialEq, Eq, Structural)]
pub struct ProgressTracker {
    pub current: u64,
    pub total: u64,
}

impl ProgressTracker {
    /// A tracker for a run of `total` blocks.
    pub fn new(total: u64) -> (t: Self)
        requires
            total > 0,
        ensures
            t.current == 0,
            t.total == total,
    {
        ProgressTracker { current: 0, total }
    }

    /// Folds one progress delta in and reports the percentage done, rounded
    /// down. The consumer stops once this reaches one hundred.
    pub fn advance(&mut self, delta: u64) -> (pct: u64)
        requires
            old(self).total > 0,
            (old(self).current + delta) * 100 <= u64::MAX,
        ensures
            final(self).total == old(self).total,
            final(self).current == old(self).current + delta,
            pct == (old(self).current + delta) * 100 / old(self).total as int,
    {
        self.current = self.current + delta;
        get_percentage(self.current, self.total)
    }
}

} // verus!
