//! The poller's cycle logic: map the latest observation outcome to a status
//! value, adopt it into the shared status, and decide whether the indicator
//! icon must be repainted (only on an observed transition, never on a
//! repeat).

use vstd::prelude::*;
use crate::shared::SharedStatus;
use crate::status::{ObserveError, ProtectionState, spec_map_observation, map_observation};

verus! {

/// The fixed interval, in seconds, between two poller cycles.
pub const POLL_INTERVAL_SECS: u64 = 10;

/// What one poller cycle produced: the status it adopted, and the icon
/// update it issued, if any.
#[derive(Clone, Copy, Debug, PartialEq, Eq)]
pub struct CycleReport {
    /// The status held after the cycle.
    pub status: ProtectionState,
    /// `Some(s)` when the cycle observed a transition and repainted the
    /// icon to render `s`; `None` when the observation repeated the held
    /// value and the indicator was left untouched.
    pub icon_update: Option<ProtectionState>,
}

/// The status held just before the cycle at position `i` of an observation
/// sequence runs: the initial value for the first cycle, and the mapping of
/// the previous observation for every later one.
pub open spec fn spec_status_before(
    initial: ProtectionState,
    obs: Seq<Result<bool, ObserveError>>,
    i: int,
) -> ProtectionState {
    if i == 0 {
        initial
    } else {
        spec_map_observation(obs[i - 1])
    }
}

/// What the cycle at position `i` of an observation sequence reports: it
/// adopts the mapping of observation `i`, and repaints the icon exactly
/// when that mapping differs from the status held before the cycle.
pub open spec fn spec_cycle_report(
    initial: ProtectionState,
    obs: Seq<Result<bool, ObserveError>>,
    i: int,
) -> CycleReport {
    let adopted = spec_map_observation(obs[i]);
    CycleReport {
        status: adopted,
        icon_update: if adopted != spec_status_before(initial, obs, i) {
            Some(adopted)
        } else {
            None
        },
    }
}

/// Runs one poller cycle on an observation outcome: adopts the mapped value
/// into the shared status and returns the icon update to issue — `Some` of
/// the new status exactly when it differs from the status held before, so
/// that the indicator is repainted only on transitions.
pub fn cycle(status: &mut SharedStatus, obs: Result<bool, ObserveError>) -> (icon_update: Option<
    ProtectionState,
>)
    ensures
        final(status)@ == spec_map_observation(obs),
        icon_update == (if spec_map_observation(obs) != old(status)@ {
            Some(spec_map_observation(obs))
        } else {
            None::<ProtectionState>
        }),
{
    let new_status = map_observation(obs);
    let changed = status.adopt(new_status);
    if changed {
        Some(new_status)
    } else {
        None
    }
}

/// Runs one poller cycle per observation outcome, in order, and reports
/// each cycle's adopted status and icon update. After the run the shared
/// status holds the mapping of the most recent observation (or its prior
/// value, when there was none).
pub fn run_cycles(
    status: &mut SharedStatus,
    observations: &Vec<Result<bool, ObserveError>>,
) -> (reports: Vec<CycleReport>)
    ensures
        reports@.len() == observations@.len(),
        forall|i: int|
            0 <= i < observations@.len() ==> reports@[i] == spec_cycle_report(
                old(status)@,
                observations@,
                i,
            ),
        final(status)@ == spec_status_before(
            old(status)@,
            observations@,
            observations@.len() as int,
        ),
{
    let mut reports: Vec<CycleReport> = Vec::new();
    let mut idx: usize = 0;
    while idx < observations.len()
        invariant
            idx <= observations@.len(),
            reports@.len() == idx as int,
            forall|i: int|
                0 <= i < idx as int ==> reports@[i] == spec_cycle_report(
                    old(status)@,
                    observations@,
                    i,
                ),
            status@ == spec_status_before(old(status)@, observations@, idx as int),
        decreases observations@.len() - idx,
    {
        let obs = observations[idx];
        let icon_update = cycle(status, obs);
        let adopted = status.read();
        reports.push(CycleReport { status: adopted, icon_update });
        idx = idx + 1;
    }
    reports
}

/// After any poller cycle the shared status equals the enumeration mapping
/// of the most recent observation outcome, whatever the sequence observed
/// before it.
pub proof fn lemma_status_tracks_latest_observation(
    initial: ProtectionState,
    obs: Seq<Result<bool, ObserveError>>,
    i: int,
)
    requires
        0 <= i < obs.len(),
    ensures
        spec_cycle_report(initial, obs, i).status == spec_map_observation(obs[i]),
{
}

/// Idempotence of the icon update: when two consecutive observations map to
/// the same status value, the repeat cycle issues no icon update — the side
/// effect fires at most once, on the first transition into that value.
pub proof fn lemma_icon_update_idempotent(
    initial: ProtectionState,
    obs: Seq<Result<bool, ObserveError>>,
    i: int,
)
    requires
        0 < i < obs.len(),
        spec_map_observation(obs[i]) == spec_map_observation(obs[i - 1]),
    ensures
        spec_cycle_report(initial, obs, i).icon_update is None,
{
}

} // verus!
