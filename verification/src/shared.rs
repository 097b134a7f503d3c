//! The single source of truth: a cell holding the last-known protection
//! status, created as `Unknown` and written only by the poller.
//!
//! Concurrent access is arbitrated outside this core (the cell is placed
//! behind a mutual-exclusion lock by the embedding program); the methods
//! here state how each access reads or rewrites the value.

use vstd::prelude::*;
use crate::status::ProtectionState;

verus! {

/// The last-known protection status shared between the poller (its only
/// writer), the indicator and the command handler (its readers).
pub struct SharedStatus {
    current: ProtectionState,
}

impl View for SharedStatus {
    type V = ProtectionState;

    closed spec fn view(&self) -> ProtectionState {
        self.current
    }
}

impl SharedStatus {
    /// Creates the cell in its initial state, `Unknown`.
    pub fn new() -> (s: Self)
        ensures
            s@ == ProtectionState::Unknown,
    {
        SharedStatus { current: ProtectionState::Unknown }
    }

    /// Reads the current value.
    pub fn read(&self) -> (r: ProtectionState)
        ensures
            r == self@,
    {
        self.current
    }

    /// Adopts a newly observed value and reports whether it differed from
    /// the value held before (a transition worth acting on).
    pub fn adopt(&mut self, v: ProtectionState) -> (changed: bool)
        ensures
            final(self)@ == v,
            changed == (old(self)@ != v),
    {
        let changed = self.current != v;
        self.current = v;
        changed
    }
}

} // verus!
