//! A verified model of a timer-paced analog clock renderer.
//!
//! The library captures the logic of a single-window vector-graphics clock:
//! deriving the face geometry from the render-target size, managing the
//! device-dependent resource tier (render target and brushes) through its
//! create / discard / recreate state machine, producing the per-frame draw
//! command sequence from a sampled wall-clock time, and coalescing periodic
//! timer wake-ups into single redraw requests.
//!
//! The window system itself (window creation, message dispatch, the actual
//! drawing device and the waitable timer) is a host that the library never
//! touches: the host feeds notifications and plain values in, and carries the
//! returned draw commands and redraw requests out.

use vstd::prelude::*;

pub mod clock;
pub mod geometry;
pub mod pacer;
pub mod render;
pub mod scene;
pub mod window;

verus! {

/// The error taxonomy of the renderer.
#[derive(Clone, Copy, Debug, PartialEq, Eq, Structural)]
pub enum AppError {
    /// Creating the render target or its brushes failed (for example, the
    /// surface has no valid handle). Recoverable: the frame is skipped and
    /// creation is retried on the next paint.
    ResourceCreation,
    /// Ending a draw session reported that the device must be recreated.
    /// Recoverable: the dependent resource tier is dropped and rebuilt on the
    /// next paint.
    DeviceLost,
    /// The periodic wake source could not be created or armed. Recoverable:
    /// redraws degrade to paint and resize events only.
    WakeSource,
    /// The window surface is invalid outside of the destroy flow. Not
    /// recoverable: the host should terminate.
    FatalHost,
    /// Ending a draw session failed for a reason other than device loss.
    /// The frame is lost; the error is surfaced for logging only.
    DrawFailed,
}

} // verus!
