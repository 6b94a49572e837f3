use vstd::prelude::*;
use crate::errors::{CleanupError, InitError};

verus! {

/// Where region setup stands. The steps run in a fixed order: remove any
/// stale region left by a crashed prior run, create the named region,
/// size it, map it.
#[derive(Clone, Copy, PartialEq, Eq, Structural, Debug)]
pub enum SetupPhase {
    /// Removing a possible stale region of the same name.
    RemovingStale,
    /// Creating the named region with read-write access.
    Creating,
    /// Sizing the region to its capacity.
    Sizing,
    /// Mapping the region into the address space.
    Mapping,
    /// The region is up and mapped.
    Ready,
    /// Setup failed; the worker must exit after the cleanup below.
    Aborted,
}

/// What the caller must do after reporting one setup step's outcome:
/// which phase to run next, which error to propagate, and which cleanup
/// the failed step owes before propagating it.
#[derive(Clone, Copy, PartialEq, Eq, Debug)]
pub struct SetupOutcome {
    /// The phase to run next.
    pub next: SetupPhase,
    /// The fatal error to propagate, if the step failed.
    pub error: Option<InitError>,
    /// Whether the named region must be unlinked now, so that a failed
    /// setup does not leak a named object.
    pub unlink_region: bool,
    /// Whether the region handle must be closed now.
    pub close_handle: bool,
}

/// The setup decision table. Removal of a stale region is best-effort
/// and its outcome is ignored; each later step aborts setup when it
/// fails, owing the cleanup of whatever earlier steps created: a failed
/// sizing closes the handle, a failed mapping also unlinks the region.
pub open spec fn spec_setup_advance(phase: SetupPhase, succeeded: bool) -> SetupOutcome {
    match phase {
        SetupPhase::RemovingStale => SetupOutcome {
            next: SetupPhase::Creating,
            error: None,
            unlink_region: false,
            close_handle: false,
        },
        SetupPhase::Creating => if succeeded {
            SetupOutcome {
                next: SetupPhase::Sizing,
                error: None,
                unlink_region: false,
                close_handle: false,
            }
        } else {
            SetupOutcome {
                next: SetupPhase::Aborted,
                error: Some(InitError::CreateFailed),
                unlink_region: false,
                close_handle: false,
            }
        },
        SetupPhase::Sizing => if succeeded {
            SetupOutcome {
                next: SetupPhase::Mapping,
                error: None,
                unlink_region: false,
                close_handle: false,
            }
        } else {
            SetupOutcome {
                next: SetupPhase::Aborted,
                error: Some(InitError::SizeFailed),
                unlink_region: false,
                close_handle: true,
            }
        },
        SetupPhase::Mapping => if succeeded {
            SetupOutcome {
                next: SetupPhase::Ready,
                error: None,
                unlink_region: false,
                close_handle: false,
            }
        } else {
            SetupOutcome {
                next: SetupPhase::Aborted,
                error: Some(InitError::MapFailed),
                unlink_region: true,
                close_handle: true,
            }
        },
        SetupPhase::Ready => SetupOutcome {
            next: SetupPhase::Ready,
            error: None,
            unlink_region: false,
            close_handle: false,
        },
        SetupPhase::Aborted => SetupOutcome {
            next: SetupPhase::Aborted,
            error: None,
            unlink_region: false,
            close_handle: false,
        },
    }
}

/// Decides what follows one setup step, given whether it succeeded.
pub fn setup_advance(phase: SetupPhase, succeeded: bool) -> (o: SetupOutcome)
    ensures
        o == spec_setup_advance(phase, succeeded),
{
    match phase {
        SetupPhase::RemovingStale => SetupOutcome {
            next: SetupPhase::Creating,
            error: None,
            unlink_region: false,
            close_handle: false,
        },
        SetupPhase::Creating => if succeeded {
            SetupOutcome {
                next: SetupPhase::Sizing,
                error: None,
                unlink_region: false,
                close_handle: false,
            }
        } else {
            SetupOutcome {
                next: SetupPhase::Aborted,
                error: Some(InitError::CreateFailed),
                unlink_region: false,
                close_handle: false,
            }
        },
        SetupPhase::Sizing => if succeeded {
            SetupOutcome {
                next: SetupPhase::Mapping,
                error: None,
                unlink_region: false,
                close_handle: false,
            }
        } else {
            SetupOutcome {
                next: SetupPhase::Aborted,
                error: Some(InitError::SizeFailed),
                unlink_region: false,
                close_handle: true,
            }
        },
        SetupPhase::Mapping => if succeeded {
            SetupOutcome {
                next: SetupPhase::Ready,
                error: None,
                unlink_region: false,
                close_handle: false,
            }
        } else {
            SetupOutcome {
                next: SetupPhase::Aborted,
                error: Some(InitError::MapFailed),
                unlink_region: true,
                close_handle: true,
            }
        },
        SetupPhase::Ready => SetupOutcome {
            next: SetupPhase::Ready,
            error: None,
            unlink_region: false,
            close_handle: false,
        },
        SetupPhase::Aborted => SetupOutcome {
            next: SetupPhase::Aborted,
            error: None,
            unlink_region: false,
            close_handle: false,
        },
    }
}

/// Startup is idempotent with respect to stale regions: whether a stale
/// region of the same name existed and was removed, or there was nothing
/// to remove, setup proceeds identically from the same phase.
pub proof fn lemma_stale_removal_ignored(left_over: bool, removed: bool)
    ensures
        spec_setup_advance(SetupPhase::RemovingStale, left_over) == spec_setup_advance(
            SetupPhase::RemovingStale,
            removed,
        ),
{
}

/// Where teardown stands. The steps run in a fixed order: unmap, unlink,
/// close.
#[derive(Clone, Copy, PartialEq, Eq, Structural, Debug)]
pub enum TeardownPhase {
    /// Unmapping the region from the address space.
    Unmapping,
    /// Unlinking the named region.
    Unlinking,
    /// Closing the region handle.
    Closing,
    /// Nothing is left to do.
    Finished,
}

/// The phase that follows each teardown phase. Deliberately independent
/// of any step's outcome: teardown is best-effort.
pub open spec fn spec_teardown_next(phase: TeardownPhase) -> TeardownPhase {
    match phase {
        TeardownPhase::Unmapping => TeardownPhase::Unlinking,
        TeardownPhase::Unlinking => TeardownPhase::Closing,
        TeardownPhase::Closing => TeardownPhase::Finished,
        TeardownPhase::Finished => TeardownPhase::Finished,
    }
}

/// The error a failed teardown step is reported as; only for logging,
/// never for aborting.
pub open spec fn spec_teardown_error(phase: TeardownPhase, succeeded: bool) -> Option<
    CleanupError,
> {
    if succeeded {
        None
    } else {
        match phase {
            TeardownPhase::Unmapping => Some(CleanupError::UnmapFailed),
            TeardownPhase::Unlinking => Some(CleanupError::UnlinkFailed),
            TeardownPhase::Closing => Some(CleanupError::CloseFailed),
            TeardownPhase::Finished => None,
        }
    }
}

/// Decides what follows one teardown step, given whether it succeeded:
/// the next phase, and the failure to log if there was one.
pub fn teardown_advance(phase: TeardownPhase, succeeded: bool) -> (r: (
    TeardownPhase,
    Option<CleanupError>,
))
    ensures
        r.0 == spec_teardown_next(phase),
        r.1 == spec_teardown_error(phase, succeeded),
{
    let next = match phase {
        TeardownPhase::Unmapping => TeardownPhase::Unlinking,
        TeardownPhase::Unlinking => TeardownPhase::Closing,
        TeardownPhase::Closing => TeardownPhase::Finished,
        TeardownPhase::Finished => TeardownPhase::Finished,
    };
    let error = if succeeded {
        None
    } else {
        match phase {
            TeardownPhase::Unmapping => Some(CleanupError::UnmapFailed),
            TeardownPhase::Unlinking => Some(CleanupError::UnlinkFailed),
            TeardownPhase::Closing => Some(CleanupError::CloseFailed),
            TeardownPhase::Finished => None,
        }
    };
    (next, error)
}

/// Teardown is best-effort: a failing step never blocks the following
/// ones, since the next phase does not depend on the outcome, and every
/// phase strictly advances until nothing is left to do.
pub proof fn lemma_teardown_best_effort(phase: TeardownPhase)
    ensures
        phase != TeardownPhase::Finished ==> spec_teardown_next(phase) != phase,
        spec_teardown_next(spec_teardown_next(spec_teardown_next(TeardownPhase::Unmapping)))
            == TeardownPhase::Finished,
{
}

} // verus!
