//! Fullscreen and window-chrome transition core.
//!
//! A single on-screen window moves between three display modes — windowed,
//! borderless fullscreen and exclusive fullscreen — while style attributes
//! (resizable, decorated, maximized) interact with those modes.  The engine
//! here is the decision half of that machine: every operation reads a
//! snapshot of what the OS would answer, updates the shared transition
//! state, and returns the ordered list of commands the surrounding shell
//! must issue to the native window and display.  Asynchronous completion
//! arrives back through the delegate entry points.

use vstd::prelude::*;

pub mod commands;
pub mod engine;
pub mod geometry;
pub mod laws;
pub mod model;
pub mod modes;
pub mod state;
pub mod style;

verus! {

/// Identifier of a native window, as handed out by the windowing system.
#[derive(Clone, Copy, Debug, PartialEq, Eq, Hash, Structural)]
pub struct WindowId(pub usize);

impl WindowId {
    /// Placeholder identifier used before a real window exists.
    pub fn dummy() -> (r: Self)
        ensures
            r.0 == 0,
    {
        WindowId(0usize)
    }
}

impl From<WindowId> for u64 {
    fn from(window_id: WindowId) -> (r: Self) {
        window_id.0 as u64
    }
}

impl vstd::std_specs::convert::FromSpecImpl<WindowId> for u64 {
    open spec fn obeys_from_spec() -> bool {
        true
    }

    open spec fn from_spec(window_id: WindowId) -> Self {
        window_id.0 as u64
    }
}

impl From<u64> for WindowId {
    fn from(raw_id: u64) -> (r: Self) {
        WindowId(raw_id as usize)
    }
}

impl vstd::std_specs::convert::FromSpecImpl<u64> for WindowId {
    open spec fn obeys_from_spec() -> bool {
        true
    }

    open spec fn from_spec(raw_id: u64) -> Self {
        WindowId(raw_id as usize)
    }
}

} // verus!
