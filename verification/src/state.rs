//! The shared transition state: one record per window, read and written by
//! every operation of the engine and by the delegate bridge.

use vstd::prelude::*;

use crate::geometry::Rect;
use crate::geometry::fallback_frame;
use crate::geometry::spec_fallback_frame;
use crate::modes::DisplayCapture;
use crate::modes::Fullscreen;
use crate::style::PresentationOptions;
use crate::style::StyleMask;

verus! {

/// The mutable record a window's transitions revolve around.  In a live
/// system one instance sits behind a mutex for the window's lifetime; the
/// engine here owns it and models the locked regions, one per operation.
pub struct SharedState {
    /// User-requested resizability, independent of transient mask changes.
    pub resizable: bool,
    /// The last confirmed fullscreen mode.
    pub fullscreen: Option<Fullscreen>,
    /// True between the transition-start and transition-end notifications
    /// of a native animated toggle.  While it holds, no new OS-level
    /// toggle may be issued; requests go to `target_fullscreen` instead.
    pub in_fullscreen_transition: bool,
    /// A request deferred because a transition was already in flight.
    /// Always the most recent such request; an earlier one is overwritten.
    pub target_fullscreen: Option<Option<Fullscreen>>,
    /// Logical maximize state, tracked across fullscreen toggles.
    pub maximized: bool,
    /// Window geometry captured before simple fullscreen, for restoration.
    pub standard_frame: Option<Rect>,
    /// Whether simple (non-native) fullscreen is active.  It is mutually
    /// exclusive with the native transition engine.
    pub is_simple_fullscreen: bool,
    /// Chrome bits captured before a mode that overrides them.
    pub saved_style: Option<StyleMask>,
    /// Presentation options captured before entering simple fullscreen,
    /// and before switching from borderless to exclusive fullscreen, so
    /// that reverting restores what the user had.
    pub save_presentation_opts: Option<PresentationOptions>,
    /// Ownership token of the captured display, held exactly while
    /// exclusive fullscreen is active.
    pub display_capture: Option<DisplayCapture>,
}

impl SharedState {
    /// The record's invariant, established at creation and preserved by
    /// every operation:
    /// - the display capture is held if and only if the confirmed mode is
    ///   exclusive, and then it is the capture of that mode's monitor;
    /// - a deferred request exists only while a transition is in flight;
    /// - simple fullscreen excludes a native fullscreen mode;
    /// - a saved chrome mask exists only while simple fullscreen, the one
    ///   mode that overrides chrome by direct mask writes, is active.
    pub open spec fn wf(self) -> bool {
        &&& self.display_capture is Some <==> self.spec_is_exclusive()
        &&& self.fullscreen matches Some(Fullscreen::Exclusive(vm)) ==> self.display_capture
            matches Some(c) && c.display == vm.monitor
        &&& self.target_fullscreen is Some ==> self.in_fullscreen_transition
        &&& self.is_simple_fullscreen ==> self.fullscreen is None
        &&& self.saved_style is Some ==> self.is_simple_fullscreen
    }

    /// The confirmed mode is exclusive fullscreen.
    pub open spec fn spec_is_exclusive(self) -> bool {
        self.fullscreen matches Some(Fullscreen::Exclusive(_))
    }

    /// A fresh record for a window that is not yet fullscreen.
    pub open spec fn spec_initial(resizable: bool, maximized: bool) -> SharedState {
        SharedState {
            resizable,
            fullscreen: None,
            in_fullscreen_transition: false,
            target_fullscreen: None,
            maximized,
            standard_frame: None,
            is_simple_fullscreen: false,
            saved_style: None,
            save_presentation_opts: None,
            display_capture: None,
        }
    }

    /// A fresh record for a window that is not yet fullscreen.  The
    /// fullscreen field starts at `None` even when the window is created
    /// fullscreen: the first request then differs from it and is not
    /// mistaken for a no-op.
    pub fn new(resizable: bool, maximized: bool) -> (s: SharedState)
        ensures
            s == SharedState::spec_initial(resizable, maximized),
            s == (SharedState {
                resizable,
                fullscreen: None,
                in_fullscreen_transition: false,
                target_fullscreen: None,
                maximized,
                standard_frame: None,
                is_simple_fullscreen: false,
                saved_style: None,
                save_presentation_opts: None,
                display_capture: None,
            }),
            s.wf(),
    {
        SharedState {
            resizable,
            fullscreen: None,
            in_fullscreen_transition: false,
            target_fullscreen: None,
            maximized,
            standard_frame: None,
            is_simple_fullscreen: false,
            saved_style: None,
            save_presentation_opts: None,
            display_capture: None,
        }
    }

    /// The frame saved for restoration, or the fallback frame when none
    /// was saved.
    pub open spec fn spec_saved_standard_frame(self) -> Rect {
        match self.standard_frame {
            Some(f) => f,
            None => spec_fallback_frame(),
        }
    }

    /// The frame saved for restoration, or the fallback frame.
    pub fn saved_standard_frame(&self) -> (r: Rect)
        ensures
            r == self.spec_saved_standard_frame(),
    {
        match self.standard_frame {
            Some(f) => f,
            None => fallback_frame(),
        }
    }
}

} // verus!
