//! The recursion guard: a counter of nested descents with its limit.

use vstd::prelude::*;

verus! {

/// The limit on nested descents that a guard has unless told otherwise.
pub const DEFAULT_MAX_DEPTH: usize = 1000;

/// How deep a run has descended into branches, loop bodies and function
/// bodies, and how deep it may. An action runs only at a depth below the
/// limit.
#[derive(Clone, Copy, Debug)]
pub struct RecursionGuard {
    pub depth: usize,
    pub max_depth: usize,
}

impl RecursionGuard {
    /// The number of descents that are left.
    pub open spec fn remaining(self) -> int {
        self.max_depth - self.depth
    }

    /// No descent is left: nothing runs at this depth.
    pub open spec fn exhausted(self) -> bool {
        self.depth >= self.max_depth
    }

    /// The guard one level further down.
    pub open spec fn deeper(self) -> RecursionGuard {
        RecursionGuard { depth: (self.depth + 1) as usize, max_depth: self.max_depth }
    }

    /// A guard at depth 0 with limit `max_depth`.
    pub fn new(max_depth: usize) -> (r: RecursionGuard)
        ensures
            r.depth == 0,
            r.max_depth == max_depth,
    {
        RecursionGuard { depth: 0, max_depth }
    }

    /// Whether no descent is left.
    pub fn is_exhausted(&self) -> (r: bool)
        ensures
            r == self.exhausted(),
    {
        self.depth >= self.max_depth
    }

    /// The guard one level further down, where a descent is left.
    pub fn enter(&self) -> (r: Option<RecursionGuard>)
        ensures
            r == (if self.exhausted() {
                None
            } else {
                Some(self.deeper())
            }),
    {
        if self.depth >= self.max_depth {
            None
        } else {
            Some(RecursionGuard { depth: self.depth + 1, max_depth: self.max_depth })
        }
    }
}

impl Default for RecursionGuard {
    fn default() -> (r: RecursionGuard)
        ensures
            r.depth == 0,
            r.max_depth == DEFAULT_MAX_DEPTH,
    {
        RecursionGuard { depth: 0, max_depth: DEFAULT_MAX_DEPTH }
    }
}

} // verus!
