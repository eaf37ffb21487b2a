//! Commands the engine issues to its collaborators, and the snapshot of
//! what they would answer if queried.
//!
//! The engine never touches the native window or a display itself: each
//! operation returns the ordered commands to issue, fire-and-forget, and
//! the surrounding shell performs them.  Conversely, whatever the engine
//! would have to ask the OS at decision time is handed in as an
//! [`OsSnapshot`] taken by the shell just before the call.

use vstd::prelude::*;

use crate::geometry::Rect;
use crate::modes::DisplayCapture;
use crate::modes::Fullscreen;
use crate::modes::VideoMode;
use crate::style::PresentationOptions;
use crate::style::StyleMask;

verus! {

/// The window level a surface is ordered to.
#[derive(Clone, Copy, Debug, PartialEq, Eq, Hash, Structural)]
pub enum WindowLevel {
    /// The ordinary level of document windows.
    Normal,
    /// One level above the shielding layer a display capture raises, so
    /// the window stays visible over the captured display.
    AboveShield,
}

/// One fire-and-forget command to the surface or display collaborator.
#[derive(Clone, Copy, Debug, PartialEq, Eq, Hash, Structural)]
pub enum Command {
    /// Move the window so its top-left corner sits at the given point
    /// (bottom-left coordinate system, y growing upwards).
    SetFrameTopLeft { x: i64, y: i64 },
    /// Resize and move the window to the given frame.
    SetFrame { frame: Rect },
    /// Apply the given chrome mask to the surface, synchronously or not.
    SetStyleMask { mask: StyleMask, sync: bool },
    /// Apply the given application-wide presentation options.
    SetPresentationOptions { opts: PresentationOptions },
    /// Order the window to the given level.
    SetWindowLevel { level: WindowLevel },
    /// Allow or forbid dragging the window.
    SetMovable { movable: bool },
    /// Zoom the window to the maximized state or back.
    SetZoom { maximized: bool },
    /// Start the native animated fullscreen toggle on the window's current
    /// screen; completion arrives later through the delegate bridge.
    ToggleNativeFullscreen,
    /// Best-effort: fade the screen to black before a capture, to hide
    /// flicker.  Failure to reserve the fade is not an error.
    FadeOut,
    /// Best-effort: fade the screen back in after the mode switch.
    FadeIn,
    /// Restore the given display's desktop video mode.
    RestoreVideoMode { display: u32 },
    /// Give up the capture of the given display.
    ReleaseDisplayCapture { display: u32 },
}

/// What the OS would answer if queried at the moment of a call: the
/// engine's decisions read this instead of performing queries themselves.
#[derive(Clone, Copy, Debug, PartialEq, Eq, Hash, Structural)]
pub struct OsSnapshot {
    /// The monitor the window currently occupies.
    pub current_monitor: u32,
    /// The chrome mask the surface currently carries.
    pub style_mask: StyleMask,
    /// The presentation options currently applied application-wide.
    pub presentation_options: PresentationOptions,
    /// The window's current content frame.
    pub frame: Rect,
    /// The frame of the monitor the call concerns: the requested
    /// monitor's frame for a fullscreen request that names one, the
    /// current monitor's frame otherwise.
    pub monitor_frame: Rect,
    /// Whether the window is currently zoomed to its maximized frame.
    pub zoomed: bool,
}

impl OsSnapshot {
    /// The snapshot's frames admit exact arithmetic.
    pub open spec fn wf(self) -> bool {
        &&& self.frame.wf()
        &&& self.monitor_frame.wf()
    }
}

/// Outcome of a fullscreen request.
#[derive(Clone, Copy, Debug, PartialEq, Eq, Hash, Structural)]
pub enum RequestOutcome {
    /// Simple fullscreen is active; the request was dropped untouched.
    RejectedSimpleFullscreen,
    /// A transition is in flight; the request became the deferred target
    /// and will be replayed when the transition ends.
    Deferred,
    /// The requested mode is already current; nothing was issued and
    /// nothing changed.
    AlreadyCurrent,
    /// The transition was recorded and its commands returned.
    Committed,
    /// The request enters exclusive fullscreen: the caller must capture
    /// the display and switch its video mode, then hand the result to
    /// the engine to finish the transition.
    CapturePending,
}

/// The half-open state of a request that enters exclusive fullscreen,
/// returned to the caller between the request and its completion.  The
/// shared state is not committed until the capture's result comes back.
#[derive(Clone, Copy, Debug, PartialEq, Eq, Hash, Structural)]
pub struct PendingExclusive {
    /// The video mode being entered.
    pub mode: VideoMode,
    /// The mode that was confirmed when the request was made.
    pub prior: Option<Fullscreen>,
    /// The presentation options in force when the request was made; saved
    /// on success when the prior mode was borderless, so that reverting
    /// later restores what the user had.
    pub opts_at_request: PresentationOptions,
    /// The window's content frame when the request was made; saved on
    /// success so that leaving fullscreen can restore it.
    pub frame_at_request: Rect,
}

/// Why an exclusive-fullscreen entry failed, as reported by the caller
/// that performed the capture.
#[derive(Debug, PartialEq, Eq, Structural)]
pub enum CaptureFailure {
    /// The display could not be captured.
    CaptureFailed,
    /// The display was captured but its video mode could not be switched;
    /// the token comes back so the engine can order its release.
    ModeSetFailed(DisplayCapture),
}

/// The error an aborted exclusive-fullscreen entry reports.  The engine
/// leaves the pre-transition mode in force rather than proceed
/// inconsistently.
#[derive(Clone, Copy, Debug, PartialEq, Eq, Hash, Structural)]
pub enum FullscreenError {
    /// The target display could not be captured.
    DisplayCaptureFailed { display: u32 },
    /// The target display's video mode could not be switched.
    VideoModeSetFailed { display: u32 },
}

/// What a fullscreen request returns: the commands to issue, in order,
/// the outcome, and — exactly when the outcome is `CapturePending` — the
/// half-open exclusive entry.
#[derive(Debug, PartialEq, Eq)]
pub struct FullscreenResponse {
    /// The commands to issue, in order.
    pub commands: Vec<Command>,
    /// What the request amounted to.
    pub outcome: RequestOutcome,
    /// The half-open exclusive entry, when one was started.
    pub pending: Option<PendingExclusive>,
}

/// What finishing an exclusive entry returns: the commands to issue, and
/// the error when the entry was aborted.
#[derive(Debug, PartialEq, Eq)]
pub struct FinishResponse {
    /// The commands to issue, in order.
    pub commands: Vec<Command>,
    /// The failure report, when the entry was aborted.
    pub error: Option<FullscreenError>,
}

/// What the transition-end notification returns: the restoration
/// commands, and, when a deferred request was replayed, that request's
/// own response (its commands follow the restoration commands).
#[derive(Debug, PartialEq, Eq)]
pub struct CompletionResponse {
    /// The restoration commands to issue, in order.
    pub commands: Vec<Command>,
    /// The replayed deferred request's response, when one was pending.
    pub replay: Option<FullscreenResponse>,
}

} // verus!
