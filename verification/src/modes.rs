//! Fullscreen modes and the display-capture ownership token.

use vstd::prelude::*;

verus! {

/// A display resolution and refresh-rate descriptor of one monitor, as
/// previously enumerated from the display collaborator.
#[derive(Clone, Copy, Debug, PartialEq, Eq, Hash, Structural)]
pub struct VideoMode {
    /// The monitor this descriptor belongs to.
    pub monitor: u32,
    /// The native identifier of the descriptor itself.
    pub native_mode: u32,
    /// Horizontal resolution, in physical pixels.
    pub width: u32,
    /// Vertical resolution, in physical pixels.
    pub height: u32,
    /// Refresh rate, in millihertz.
    pub refresh_millihertz: u32,
    /// Colour depth, in bits per pixel.
    pub bit_depth: u16,
}

/// A fullscreen flavour.  Equality is structural — same variant, same
/// monitor or video mode — and is what detects a no-op request.
#[derive(Clone, Copy, Debug, PartialEq, Eq, Hash, Structural)]
pub enum Fullscreen {
    /// The window fills a screen without capturing the display.  With no
    /// monitor given, the window's current monitor is meant.
    Borderless(Option<u32>),
    /// The display is captured and switched to the given video mode.
    Exclusive(VideoMode),
}

/// Ownership token over a captured display.  At most one may exist per
/// monitor system-wide; it is deliberately neither `Clone` nor `Copy`, and
/// the engine gives it up on every path that leaves exclusive fullscreen.
#[derive(Debug, PartialEq, Eq, Structural)]
pub struct DisplayCapture {
    /// The captured monitor.
    pub display: u32,
}

/// Structural equality of two video modes.
pub fn video_mode_eq(a: &VideoMode, b: &VideoMode) -> (r: bool)
    ensures
        r == (a == b),
{
    a.monitor == b.monitor && a.native_mode == b.native_mode && a.width == b.width && a.height
        == b.height && a.refresh_millihertz == b.refresh_millihertz && a.bit_depth == b.bit_depth
}

/// Structural equality of two fullscreen flavours.
pub fn fullscreen_eq(a: &Fullscreen, b: &Fullscreen) -> (r: bool)
    ensures
        r == (a == b),
{
    match (a, b) {
        (Fullscreen::Borderless(ma), Fullscreen::Borderless(mb)) => match (ma, mb) {
            (Option::None, Option::None) => true,
            (Option::Some(x), Option::Some(y)) => x == y,
            _ => false,
        },
        (Fullscreen::Exclusive(va), Fullscreen::Exclusive(vb)) => video_mode_eq(va, vb),
        _ => false,
    }
}

/// Structural equality of two optional fullscreen flavours.
pub fn mode_eq(a: &Option<Fullscreen>, b: &Option<Fullscreen>) -> (r: bool)
    ensures
        r == (a == b),
{
    match (a, b) {
        (Option::None, Option::None) => true,
        (Option::Some(x), Option::Some(y)) => fullscreen_eq(x, y),
        _ => false,
    }
}

/// The monitor a fullscreen flavour targets, given the monitor the window
/// currently occupies (for `Borderless(None)`, which means "stay here").
pub open spec fn spec_target_monitor(mode: Fullscreen, current_monitor: u32) -> u32 {
    match mode {
        Fullscreen::Borderless(Option::Some(m)) => m,
        Fullscreen::Borderless(Option::None) => current_monitor,
        Fullscreen::Exclusive(vm) => vm.monitor,
    }
}

/// The monitor a fullscreen flavour targets.
pub fn target_monitor(mode: &Fullscreen, current_monitor: u32) -> (r: u32)
    ensures
        r == spec_target_monitor(*mode, current_monitor),
{
    match mode {
        Fullscreen::Borderless(Option::Some(m)) => *m,
        Fullscreen::Borderless(Option::None) => current_monitor,
        Fullscreen::Exclusive(vm) => vm.monitor,
    }
}

} // verus!
