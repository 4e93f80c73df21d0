//! Error kinds and stop outcomes shared by the lifecycle operations.

use vstd::prelude::*;

verus! {

/// A failure that aborts a launch (or a port detection) and surfaces to the
/// caller. Best-effort steps (granting execute permission, a missing
/// introspection tool) never produce one of these.
#[derive(Clone, Copy, Debug, PartialEq, Eq, Structural)]
pub enum LifecycleError {
    /// The executable script path does not exist, or a file to read is absent.
    NotFound,
    /// A log directory or file could not be created or opened, or a read failed.
    IoFailure,
    /// The operating system refused to create the process.
    SpawnFailed,
}

/// How a stop operation ended. All three are successes: stopping something
/// that is not running is not a failure.
#[derive(Clone, Copy, Debug, PartialEq, Eq, Structural)]
pub enum StopOutcome {
    /// Real occupants of the port were found and the termination protocol ran
    /// against every one of them.
    StoppedOccupants,
    /// No occupant was found, but a stale registry entry existed and was
    /// cleared.
    StaleEntryCleared,
    /// Neither an occupant nor a registry entry: nothing was running.
    NothingRunning,
}

/// The outcome a stop reports, given the registry entry it removed and the
/// process ids the termination protocol processed.
pub open spec fn spec_stop_outcome(known: Option<u32>, processed: Seq<u32>) -> StopOutcome {
    if processed.len() > 0 {
        StopOutcome::StoppedOccupants
    } else if known is Some {
        StopOutcome::StaleEntryCleared
    } else {
        StopOutcome::NothingRunning
    }
}

/// Exec mirror of `spec_stop_outcome`, used when a stop session reports.
pub fn stop_outcome_of(known: &Option<u32>, processed: &Vec<u32>) -> (o: StopOutcome)
    ensures
        o == spec_stop_outcome(*known, processed@),
{
    if processed.len() > 0 {
        StopOutcome::StoppedOccupants
    } else if known.is_some() {
        StopOutcome::StaleEntryCleared
    } else {
        StopOutcome::NothingRunning
    }
}

} // verus!
