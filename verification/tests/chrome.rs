//! The style mediator: resizable, decorated and maximized attributes,
//! and the chrome masks they map to.

use fullscreen_core::commands::{Command, OsSnapshot};
use fullscreen_core::engine::UnownedWindow;
use fullscreen_core::geometry::Rect;
use fullscreen_core::modes::Fullscreen;
use fullscreen_core::style::{
    chrome_mask, with_resizable, PresentationOptions, StyleMask, MASK_CLOSABLE,
    MASK_MINIATURIZABLE, MASK_RESIZABLE, MASK_TITLED,
};

fn snap(zoomed: bool) -> OsSnapshot {
    OsSnapshot {
        current_monitor: 1,
        style_mask: StyleMask { bits: 15 },
        presentation_options: PresentationOptions { bits: 0 },
        frame: Rect { x: 10, y: 20, w: 640, h: 480 },
        monitor_frame: Rect { x: 0, y: 0, w: 1920, h: 1080 },
        zoomed,
    }
}

#[test]
fn chrome_mask_maps_the_attributes_to_exact_bits() {
    assert_eq!(
        chrome_mask(true, true).bits,
        MASK_TITLED | MASK_CLOSABLE | MASK_MINIATURIZABLE | MASK_RESIZABLE
    );
    assert_eq!(
        chrome_mask(true, false).bits,
        MASK_TITLED | MASK_CLOSABLE | MASK_MINIATURIZABLE
    );
    assert_eq!(chrome_mask(false, true).bits, MASK_RESIZABLE);
    assert_eq!(chrome_mask(false, false).bits, 0);
}

#[test]
fn with_resizable_forces_exactly_the_resizable_bit() {
    let m = StyleMask { bits: MASK_TITLED | MASK_CLOSABLE };
    assert_eq!(with_resizable(m, true).bits, MASK_TITLED | MASK_CLOSABLE | MASK_RESIZABLE);
    assert_eq!(with_resizable(m, false).bits, MASK_TITLED | MASK_CLOSABLE);
    let r = StyleMask { bits: MASK_RESIZABLE | MASK_TITLED };
    assert_eq!(with_resizable(r, false).bits, MASK_TITLED);
    assert_eq!(with_resizable(r, true).bits, MASK_RESIZABLE | MASK_TITLED);
}

#[test]
fn set_resizable_rewrites_the_mask_while_windowed() {
    let mut w = UnownedWindow::new(true, false, true);
    let os = snap(false);
    let cmds = w.set_resizable(false, &os);
    assert_eq!(
        cmds,
        vec![Command::SetStyleMask { mask: StyleMask { bits: 7 }, sync: false }]
    );
    assert!(!w.is_resizable());
    let cmds = w.set_resizable(true, &os);
    assert_eq!(
        cmds,
        vec![Command::SetStyleMask { mask: StyleMask { bits: 15 }, sync: false }]
    );
    assert!(w.is_resizable());
}

#[test]
fn set_resizable_is_deferred_while_fullscreen() {
    let mut w = UnownedWindow::new(true, false, true);
    let os = snap(false);
    let _ = w.set_fullscreen(Some(Fullscreen::Borderless(None)), &os);
    let _ = w.on_transition_did_end(true, &os);

    let cmds = w.set_resizable(false, &os);
    assert!(cmds.is_empty());
    assert!(!w.is_resizable());
}

#[test]
fn set_decorations_is_a_no_op_when_unchanged() {
    let mut w = UnownedWindow::new(true, false, true);
    let cmds = w.set_decorations(true);
    assert!(cmds.is_empty());
    assert!(w.is_decorated());
}

#[test]
fn set_decorations_applies_the_full_chrome_mask() {
    let mut w = UnownedWindow::new(true, false, true);
    let cmds = w.set_decorations(false);
    assert_eq!(
        cmds,
        vec![Command::SetStyleMask { mask: StyleMask { bits: MASK_RESIZABLE }, sync: false }]
    );
    assert!(!w.is_decorated());
    let cmds = w.set_decorations(true);
    assert_eq!(
        cmds,
        vec![Command::SetStyleMask { mask: StyleMask { bits: 15 }, sync: false }]
    );
}

#[test]
fn set_decorations_is_deferred_while_fullscreen() {
    let mut w = UnownedWindow::new(true, false, true);
    let os = snap(false);
    let _ = w.set_fullscreen(Some(Fullscreen::Borderless(None)), &os);
    let _ = w.on_transition_did_end(true, &os);

    let cmds = w.set_decorations(false);
    assert!(cmds.is_empty());
    assert!(!w.is_decorated());
}

#[test]
fn set_maximized_is_a_no_op_at_the_requested_zoom_state() {
    let mut w = UnownedWindow::new(true, false, true);
    let cmds = w.set_maximized(false, &snap(false));
    assert!(cmds.is_empty());
    assert!(!w.is_maximized());
    let cmds = w.set_maximized(true, &snap(true));
    assert!(cmds.is_empty());
}

#[test]
fn set_maximized_toggles_the_zoom_and_tracks_the_state() {
    let mut w = UnownedWindow::new(true, false, true);
    let cmds = w.set_maximized(true, &snap(false));
    assert_eq!(cmds, vec![Command::SetZoom { maximized: true }]);
    assert!(w.is_maximized());
    let cmds = w.set_maximized(false, &snap(true));
    assert_eq!(cmds, vec![Command::SetZoom { maximized: false }]);
    assert!(!w.is_maximized());
}

#[test]
fn restoration_reasserts_the_maximized_state() {
    let mut w = UnownedWindow::new(true, true, true);
    let os = snap(false);
    let _ = w.set_fullscreen(Some(Fullscreen::Borderless(None)), &os);
    let _ = w.on_transition_did_end(true, &os);
    let _ = w.set_fullscreen(None, &os);
    let done = w.on_transition_did_end(false, &os);
    // the window is not zoomed but the logical state says maximized
    assert!(done.commands.contains(&Command::SetZoom { maximized: true }));
    assert!(w.is_maximized());
}

#[test]
fn borderless_round_trip_preserves_the_chrome_attributes() {
    let mut w = UnownedWindow::new(false, true, false);
    let os = snap(true);
    let _ = w.set_fullscreen(Some(Fullscreen::Borderless(None)), &os);
    let _ = w.on_transition_did_end(true, &os);
    let _ = w.set_fullscreen(None, &os);
    let done = w.on_transition_did_end(false, &os);

    assert!(!w.is_resizable());
    assert!(w.is_maximized());
    assert!(!w.is_decorated());
    // the reapplied mask carries the stored resizable attribute: bit cleared
    assert_eq!(
        done.commands[0],
        Command::SetStyleMask { mask: StyleMask { bits: 7 }, sync: false }
    );
}
