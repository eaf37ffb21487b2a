//! Chrome style masks and application presentation options.
//!
//! The style mediator maps the boolean chrome attributes a caller asks for
//! (resizable, decorated) to the bitset of chrome flags the surface carries,
//! and knows the presentation-option sets that each fullscreen flavour
//! applies to the application-wide UI (menu bar, dock).

use vstd::prelude::*;

verus! {

/// Style-mask bit: the window has a title bar.
pub const MASK_TITLED: u64 = 1;

/// Style-mask bit: the window has a close button.
pub const MASK_CLOSABLE: u64 = 2;

/// Style-mask bit: the window can be miniaturized.
pub const MASK_MINIATURIZABLE: u64 = 4;

/// Style-mask bit: the window can be resized by the user.
pub const MASK_RESIZABLE: u64 = 8;

/// The chrome flags of a surface, as a bitset.
#[derive(Clone, Copy, Debug, PartialEq, Eq, Hash, Structural)]
pub struct StyleMask {
    pub bits: u64,
}

impl StyleMask {
    /// At least one of the given bits is set.
    pub open spec fn spec_has(self, bits: u64) -> bool {
        self.bits & bits != 0
    }

    /// At least one of the given bits is set.
    pub fn has(&self, bits: u64) -> (r: bool)
        ensures
            r == self.spec_has(bits),
    {
        self.bits & bits != 0
    }

    /// The mask with the given bits set.
    pub open spec fn spec_with(self, bits: u64) -> StyleMask {
        StyleMask { bits: self.bits | bits }
    }

    /// The mask with the given bits set.
    pub fn with(&self, bits: u64) -> (r: StyleMask)
        ensures
            r == self.spec_with(bits),
    {
        StyleMask { bits: self.bits | bits }
    }

    /// The mask with the given bits cleared.
    pub open spec fn spec_without(self, bits: u64) -> StyleMask {
        StyleMask { bits: self.bits & !bits }
    }

    /// The mask with the given bits cleared.
    pub fn without(&self, bits: u64) -> (r: StyleMask)
        ensures
            r == self.spec_without(bits),
    {
        StyleMask { bits: self.bits & !bits }
    }
}

/// The given mask with its resizable bit forced to the requested value.
pub open spec fn spec_with_resizable(mask: StyleMask, resizable: bool) -> StyleMask {
    if resizable {
        mask.spec_with(MASK_RESIZABLE)
    } else {
        mask.spec_without(MASK_RESIZABLE)
    }
}

/// The given mask with its resizable bit forced to the requested value.
pub fn with_resizable(mask: StyleMask, resizable: bool) -> (r: StyleMask)
    ensures
        r == spec_with_resizable(mask, resizable),
{
    if resizable {
        mask.with(MASK_RESIZABLE)
    } else {
        mask.without(MASK_RESIZABLE)
    }
}

/// Forcing the resizable bit leaves it equal to the requested value.
pub proof fn lemma_with_resizable_sets_bit(mask: StyleMask, resizable: bool)
    ensures
        spec_with_resizable(mask, resizable).spec_has(MASK_RESIZABLE) == resizable,
{
    let b = mask.bits;
    assert((b | 8u64) & 8u64 != 0u64) by (bit_vector);
    assert((b & !8u64) & 8u64 == 0u64) by (bit_vector);
}

/// The full chrome mask for a windowed surface with the given attributes:
/// a decorated window is titled, closable and miniaturizable, an
/// undecorated one is borderless; the resizable bit follows `resizable`.
pub open spec fn spec_chrome_mask(decorated: bool, resizable: bool) -> StyleMask {
    let base = if decorated {
        StyleMask { bits: MASK_TITLED | MASK_CLOSABLE | MASK_MINIATURIZABLE | MASK_RESIZABLE }
    } else {
        StyleMask { bits: MASK_RESIZABLE }
    };
    spec_with_resizable(base, resizable)
}

/// The full chrome mask for a windowed surface with the given attributes.
pub fn chrome_mask(decorated: bool, resizable: bool) -> (r: StyleMask)
    ensures
        r == spec_chrome_mask(decorated, resizable),
{
    let base = if decorated {
        StyleMask { bits: MASK_TITLED | MASK_CLOSABLE | MASK_MINIATURIZABLE | MASK_RESIZABLE }
    } else {
        StyleMask { bits: MASK_RESIZABLE }
    };
    with_resizable(base, resizable)
}

/// Presentation-option bit: the dock hides until the pointer seeks it.
pub const PRESENTATION_AUTO_HIDE_DOCK: u64 = 1;

/// Presentation-option bit: the dock is entirely hidden.
pub const PRESENTATION_HIDE_DOCK: u64 = 2;

/// Presentation-option bit: the menu bar hides until the pointer seeks it.
pub const PRESENTATION_AUTO_HIDE_MENU_BAR: u64 = 4;

/// Presentation-option bit: the menu bar is entirely hidden.
pub const PRESENTATION_HIDE_MENU_BAR: u64 = 8;

/// Presentation-option bit: the application is in fullscreen presentation.
pub const PRESENTATION_FULLSCREEN: u64 = 1024;

/// Application-wide UI suppression flags, as a bitset.
#[derive(Clone, Copy, Debug, PartialEq, Eq, Hash, Structural)]
pub struct PresentationOptions {
    pub bits: u64,
}

/// The options applied while exclusive fullscreen is active: the menu bar
/// and dock are entirely hidden so the captured display is unobstructed.
pub open spec fn spec_exclusive_options() -> PresentationOptions {
    PresentationOptions {
        bits: PRESENTATION_FULLSCREEN | PRESENTATION_HIDE_DOCK | PRESENTATION_HIDE_MENU_BAR,
    }
}

/// The options applied while exclusive fullscreen is active.
pub fn exclusive_options() -> (r: PresentationOptions)
    ensures
        r == spec_exclusive_options(),
{
    PresentationOptions {
        bits: PRESENTATION_FULLSCREEN | PRESENTATION_HIDE_DOCK | PRESENTATION_HIDE_MENU_BAR,
    }
}

/// The options assumed for borderless fullscreen when none were saved:
/// menu bar and dock auto-hide.
pub open spec fn spec_borderless_fallback_options() -> PresentationOptions {
    PresentationOptions {
        bits: PRESENTATION_FULLSCREEN | PRESENTATION_AUTO_HIDE_DOCK
            | PRESENTATION_AUTO_HIDE_MENU_BAR,
    }
}

/// The options assumed for borderless fullscreen when none were saved.
pub fn borderless_fallback_options() -> (r: PresentationOptions)
    ensures
        r == spec_borderless_fallback_options(),
{
    PresentationOptions {
        bits: PRESENTATION_FULLSCREEN | PRESENTATION_AUTO_HIDE_DOCK
            | PRESENTATION_AUTO_HIDE_MENU_BAR,
    }
}

/// The options applied while simple (non-native) fullscreen is active:
/// menu bar and dock auto-hide, without the fullscreen presentation bit.
pub open spec fn spec_simple_fullscreen_options() -> PresentationOptions {
    PresentationOptions { bits: PRESENTATION_AUTO_HIDE_DOCK | PRESENTATION_AUTO_HIDE_MENU_BAR }
}

/// The options applied while simple (non-native) fullscreen is active.
pub fn simple_fullscreen_options() -> (r: PresentationOptions)
    ensures
        r == spec_simple_fullscreen_options(),
{
    PresentationOptions { bits: PRESENTATION_AUTO_HIDE_DOCK | PRESENTATION_AUTO_HIDE_MENU_BAR }
}

} // verus!
