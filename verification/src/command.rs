//! The toggle command: from the current shared status, decide which target
//! value to apply, or refuse when the status is unknown.

use vstd::prelude::*;
use crate::status::ProtectionState;

verus! {

/// What the toggle action does for a given current status.
#[derive(Clone, Copy, Debug, PartialEq, Eq, Structural)]
pub enum ToggleDecision {
    /// Invoke the mutator with this target value.
    Apply { target: bool },
    /// Launch nothing and report that the status is unknown.
    RefuseUnknown,
}

/// The toggle decision table: `Enabled` is toggled off, `Disabled` is
/// toggled on, `Unknown` is never toggled.
pub open spec fn spec_toggle_decision(current: ProtectionState) -> ToggleDecision {
    match current {
        ProtectionState::Enabled => ToggleDecision::Apply { target: false },
        ProtectionState::Disabled => ToggleDecision::Apply { target: true },
        ProtectionState::Unknown => ToggleDecision::RefuseUnknown,
    }
}

/// Decides what the toggle action does given the current shared status.
/// The decision never updates the shared status itself: the next poller
/// cycle remains the sole writer of truth.
pub fn toggle_decision(current: ProtectionState) -> (d: ToggleDecision)
    ensures
        d == spec_toggle_decision(current),
{
    match current {
        ProtectionState::Enabled => ToggleDecision::Apply { target: false },
        ProtectionState::Disabled => ToggleDecision::Apply { target: true },
        ProtectionState::Unknown => ToggleDecision::RefuseUnknown,
    }
}

/// The text reported when a toggle is refused because the status is unknown.
pub fn toggle_refusal_message() -> (r: &'static str)
    ensures
        r@ == "Cannot toggle: status unknown"@,
{
    "Cannot toggle: status unknown"
}

/// The toggle decision table, stated case by case: toggling from `Enabled`
/// applies `false`, toggling from `Disabled` applies `true`, and toggling
/// from `Unknown` applies nothing.
pub proof fn lemma_toggle_decision_table()
    ensures
        spec_toggle_decision(ProtectionState::Enabled) == (ToggleDecision::Apply { target: false }),
        spec_toggle_decision(ProtectionState::Disabled) == (ToggleDecision::Apply { target: true }),
        spec_toggle_decision(ProtectionState::Unknown) == ToggleDecision::RefuseUnknown,
{
}

} // verus!
