use vstd::prelude::*;

verus! {

/// A condition that makes one input cycle unprocessable. The cycle is
/// refused; the worker itself keeps running.
#[derive(Clone, Copy, PartialEq, Eq, Structural, Debug)]
pub enum CycleError {
    /// The metadata asks for rows of zero columns; a row must have at
    /// least one pixel for a dominant color to exist.
    EmptyRow,
    /// The metadata asks for more pixel and result bytes than the region
    /// can hold.
    OversizeImage,
}

/// A failure while bringing the shared region up. Fatal at startup.
#[derive(Clone, Copy, PartialEq, Eq, Structural, Debug)]
pub enum InitError {
    /// The named region could not be created or opened.
    CreateFailed,
    /// The region could not be sized to the requested capacity.
    SizeFailed,
    /// The region could not be mapped into the address space.
    MapFailed,
}

/// A failure during best-effort teardown. Never fatal: each remaining
/// teardown step is still attempted.
#[derive(Clone, Copy, PartialEq, Eq, Structural, Debug)]
pub enum CleanupError {
    /// Unmapping the region failed.
    UnmapFailed,
    /// Unlinking the named region failed.
    UnlinkFailed,
    /// Closing the region handle failed.
    CloseFailed,
}

} // verus!
