//! The renderer's surface decisions: when a resize reconfigures the
//! surface, and what to do when the next frame cannot be acquired.

use vstd::prelude::*;

verus! {

/// Why acquiring the next surface frame failed.
#[derive(Clone, Copy, Debug, PartialEq, Eq, Structural)]
pub enum SurfaceFailure {
    /// Acquiring the frame timed out.
    Timeout,
    /// The surface changed and must be configured again.
    Outdated,
    /// The swap chain was lost and must be recreated.
    Lost,
    /// No memory is left for a new frame.
    OutOfMemory,
}

/// What the renderer does after a failed acquire.
#[derive(Clone, Copy, Debug, PartialEq, Eq, Structural)]
pub enum AcquireAction {
    /// Configure the surface again at its current size and skip the frame.
    ReconfigureAndSkip,
    /// Skip the frame; the next one may succeed.
    Skip,
    /// Give up: the error is reported to the caller.
    Fatal,
}

/// A surface size that can be configured: neither side is zero (a
/// minimized window reports zero).
pub open spec fn has_area(width: u32, height: u32) -> bool {
    width > 0 && height > 0
}

/// The action for a failed acquire on a surface of the given size: a lost
/// or outdated surface is configured again when it has an area, a timeout
/// skips the frame, running out of memory is fatal.
pub open spec fn recovery(failure: SurfaceFailure, width: u32, height: u32) -> AcquireAction {
    match failure {
        SurfaceFailure::Lost | SurfaceFailure::Outdated => if has_area(width, height) {
            AcquireAction::ReconfigureAndSkip
        } else {
            AcquireAction::Skip
        },
        SurfaceFailure::Timeout => AcquireAction::Skip,
        SurfaceFailure::OutOfMemory => AcquireAction::Fatal,
    }
}

/// Does a resize to `width` x `height` reconfigure the surface? Resizes to
/// a zero side (a minimized window) are ignored.
pub fn resize_applies(width: u32, height: u32) -> (r: bool)
    ensures
        r == has_area(width, height),
{
    width != 0 && height != 0
}

/// What to do after acquiring a frame failed with `failure`, on a surface
/// configured at `width` x `height`.
pub fn acquire_recovery(failure: SurfaceFailure, width: u32, height: u32) -> (a: AcquireAction)
    ensures
        a == recovery(failure, width, height),
{
    match failure {
        SurfaceFailure::Lost | SurfaceFailure::Outdated => {
            if width > 0 && height > 0 {
                AcquireAction::ReconfigureAndSkip
            } else {
                AcquireAction::Skip
            }
        },
        SurfaceFailure::Timeout => AcquireAction::Skip,
        SurfaceFailure::OutOfMemory => AcquireAction::Fatal,
    }
}

/// Only running out of memory is fatal; every other failure skips the frame
/// and the renderer tries again next frame. A surface without an area is
/// never configured.
pub proof fn law_only_out_of_memory_is_fatal(failure: SurfaceFailure, width: u32, height: u32)
    ensures
        recovery(failure, width, height) == AcquireAction::Fatal <==> failure
            == SurfaceFailure::OutOfMemory,
        recovery(failure, width, height) == AcquireAction::ReconfigureAndSkip ==> has_area(
            width,
            height,
        ),
{
}

/// The size a surface is first configured at: the window's size, with each
/// side raised to at least 1 (a window can report zero while minimized).
pub fn initial_extent(width: u32, height: u32) -> (r: (u32, u32))
    ensures
        r.0 == (if width == 0 { 1 } else { width }),
        r.1 == (if height == 0 { 1 } else { height }),
        has_area(r.0, r.1),
{
    let w = if width == 0 { 1 } else { width };
    let h = if height == 0 { 1 } else { height };
    (w, h)
}

/// A lost or outdated surface is configured again exactly when it has an
/// area, and skipped otherwise; a timeout always just skips the frame.
pub proof fn law_lost_surface_recovers(width: u32, height: u32)
    ensures
        recovery(SurfaceFailure::Lost, width, height) == (if width > 0 && height > 0 {
            AcquireAction::ReconfigureAndSkip
        } else {
            AcquireAction::Skip
        }),
        recovery(SurfaceFailure::Outdated, width, height) == recovery(
            SurfaceFailure::Lost,
            width,
            height,
        ),
        recovery(SurfaceFailure::Timeout, width, height) == AcquireAction::Skip,
{
}

} // verus!
