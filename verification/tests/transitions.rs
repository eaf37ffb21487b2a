//! The fullscreen transition engine, driven through whole request and
//! completion cycles.

use fullscreen_core::commands::{
    CaptureFailure, Command, FullscreenError, OsSnapshot, RequestOutcome, WindowLevel,
};
use fullscreen_core::engine::UnownedWindow;
use fullscreen_core::geometry::Rect;
use fullscreen_core::modes::{DisplayCapture, Fullscreen, VideoMode};
use fullscreen_core::style::{PresentationOptions, StyleMask};

fn snap(current_monitor: u32, zoomed: bool) -> OsSnapshot {
    OsSnapshot {
        current_monitor,
        style_mask: StyleMask { bits: 15 },
        presentation_options: PresentationOptions { bits: 0 },
        frame: Rect { x: 10, y: 20, w: 640, h: 480 },
        monitor_frame: Rect { x: 0, y: 0, w: 1920, h: 1080 },
        zoomed,
    }
}

fn mode_1080(monitor: u32) -> VideoMode {
    VideoMode {
        monitor,
        native_mode: 42,
        width: 1920,
        height: 1080,
        refresh_millihertz: 60_000,
        bit_depth: 32,
    }
}

#[test]
fn scenario_borderless_cycle_reapplies_resizable() {
    let mut w = UnownedWindow::new(true, false, true);
    let os = snap(1, false);

    let r = w.set_fullscreen(Some(Fullscreen::Borderless(Some(1))), &os);
    assert_eq!(r.outcome, RequestOutcome::Committed);
    assert_eq!(r.commands, vec![Command::ToggleNativeFullscreen]);
    assert!(w.shared_state.in_fullscreen_transition);

    let done = w.on_transition_did_end(true, &os);
    assert!(done.commands.is_empty());
    assert!(done.replay.is_none());
    assert_eq!(w.fullscreen(), Some(Fullscreen::Borderless(Some(1))));
    assert!(!w.shared_state.in_fullscreen_transition);

    let cmds = w.set_resizable(false, &os);
    assert!(cmds.is_empty());
    assert!(!w.is_resizable());

    let r2 = w.set_fullscreen(None, &os);
    assert_eq!(r2.outcome, RequestOutcome::Committed);
    assert_eq!(r2.commands, vec![Command::ToggleNativeFullscreen]);

    let done2 = w.on_transition_did_end(false, &os);
    assert_eq!(
        done2.commands,
        vec![Command::SetStyleMask { mask: StyleMask { bits: 7 }, sync: false }]
    );
    assert!(done2.replay.is_none());
    assert_eq!(w.fullscreen(), None);
}

#[test]
fn requesting_the_current_mode_is_a_no_op() {
    let mut w = UnownedWindow::new(true, false, true);
    let os = snap(1, false);

    let r = w.set_fullscreen(None, &os);
    assert_eq!(r.outcome, RequestOutcome::AlreadyCurrent);
    assert!(r.commands.is_empty());
    assert!(!w.shared_state.in_fullscreen_transition);

    let r = w.set_fullscreen(Some(Fullscreen::Borderless(None)), &os);
    assert_eq!(r.outcome, RequestOutcome::Committed);
    let _ = w.on_transition_did_end(true, &os);

    let r = w.set_fullscreen(Some(Fullscreen::Borderless(None)), &os);
    assert_eq!(r.outcome, RequestOutcome::AlreadyCurrent);
    assert!(r.commands.is_empty());
    assert!(!w.shared_state.in_fullscreen_transition);
}

#[test]
fn deferred_requests_collapse_to_the_latest() {
    let mut w = UnownedWindow::new(true, false, true);
    let os = snap(1, false);

    let r = w.set_fullscreen(Some(Fullscreen::Borderless(Some(1))), &os);
    assert_eq!(r.outcome, RequestOutcome::Committed);
    assert!(w.shared_state.in_fullscreen_transition);

    let a = w.set_fullscreen(None, &os);
    assert_eq!(a.outcome, RequestOutcome::Deferred);
    assert!(a.commands.is_empty());
    let b = w.set_fullscreen(Some(Fullscreen::Borderless(Some(2))), &os);
    assert_eq!(b.outcome, RequestOutcome::Deferred);
    assert!(b.commands.is_empty());
    let c = w.set_fullscreen(None, &os);
    assert_eq!(c.outcome, RequestOutcome::Deferred);
    assert_eq!(w.shared_state.target_fullscreen, Some(None));

    let done = w.on_transition_did_end(true, &os);
    assert!(done.commands.is_empty());
    let replay = done.replay.expect("the latest deferred request is replayed");
    assert_eq!(replay.outcome, RequestOutcome::Committed);
    assert_eq!(replay.commands, vec![Command::ToggleNativeFullscreen]);
    assert_eq!(w.fullscreen(), None);
    assert_eq!(w.shared_state.target_fullscreen, None);
    assert!(w.shared_state.in_fullscreen_transition);

    let done2 = w.on_transition_did_end(false, &os);
    assert!(done2.replay.is_none());
    assert_eq!(w.fullscreen(), None);
}

#[test]
fn cross_monitor_move_comes_before_the_toggle() {
    let mut w = UnownedWindow::new(true, false, true);
    let os = snap(1, false);

    let r = w.set_fullscreen(Some(Fullscreen::Borderless(Some(2))), &os);
    assert_eq!(r.outcome, RequestOutcome::Committed);
    assert_eq!(
        r.commands,
        vec![
            Command::SetFrameTopLeft { x: 0, y: 1080 },
            Command::ToggleNativeFullscreen,
        ]
    );
}

#[test]
fn borderless_to_borderless_relocates_without_a_toggle() {
    let mut w = UnownedWindow::new(true, false, true);
    let os = snap(1, false);
    let _ = w.set_fullscreen(Some(Fullscreen::Borderless(Some(1))), &os);
    let _ = w.on_transition_did_end(true, &os);

    let r = w.set_fullscreen(Some(Fullscreen::Borderless(Some(2))), &os);
    assert_eq!(r.outcome, RequestOutcome::Committed);
    assert_eq!(r.commands, vec![Command::SetFrameTopLeft { x: 0, y: 1080 }]);
    assert!(!w.shared_state.in_fullscreen_transition);
    assert_eq!(w.fullscreen(), Some(Fullscreen::Borderless(Some(2))));
}

#[test]
fn exclusive_entry_holds_the_capture_exactly_while_exclusive() {
    let mut w = UnownedWindow::new(true, false, true);
    let os = snap(1, false);
    let vm = mode_1080(1);

    assert!(w.shared_state.display_capture.is_none());

    let r = w.set_fullscreen(Some(Fullscreen::Exclusive(vm)), &os);
    assert_eq!(r.outcome, RequestOutcome::CapturePending);
    assert_eq!(r.commands, vec![Command::FadeOut]);
    let pending = r.pending.expect("an exclusive entry is pending");
    // not yet committed: the capture has not succeeded
    assert_eq!(w.fullscreen(), None);
    assert!(w.shared_state.display_capture.is_none());

    let fin = w.finish_exclusive_transition(pending, Ok(DisplayCapture { display: 1 }));
    assert_eq!(fin.error, None);
    assert_eq!(
        fin.commands,
        vec![Command::FadeIn, Command::ToggleNativeFullscreen]
    );
    assert_eq!(w.fullscreen(), Some(Fullscreen::Exclusive(vm)));
    assert!(w.shared_state.display_capture.is_some());
    assert!(w.shared_state.in_fullscreen_transition);
    let _ = w.on_transition_did_end(true, &os);

    let r2 = w.set_fullscreen(None, &os);
    assert_eq!(r2.outcome, RequestOutcome::Committed);
    assert_eq!(
        r2.commands,
        vec![
            Command::RestoreVideoMode { display: 1 },
            Command::ReleaseDisplayCapture { display: 1 },
            Command::ToggleNativeFullscreen,
        ]
    );
    assert!(w.shared_state.display_capture.is_none());
    assert_eq!(w.fullscreen(), None);
}

#[test]
fn capture_failure_aborts_and_reports() {
    let mut w = UnownedWindow::new(true, false, true);
    let os = snap(1, false);
    let vm = mode_1080(1);

    let r = w.set_fullscreen(Some(Fullscreen::Exclusive(vm)), &os);
    let pending = r.pending.unwrap();
    let fin = w.finish_exclusive_transition(pending, Err(CaptureFailure::CaptureFailed));
    assert_eq!(
        fin.error,
        Some(FullscreenError::DisplayCaptureFailed { display: 1 })
    );
    assert_eq!(fin.commands, vec![Command::FadeIn]);
    // the pre-transition mode stays in force
    assert_eq!(w.fullscreen(), None);
    assert!(w.shared_state.display_capture.is_none());
}

#[test]
fn video_mode_failure_releases_the_fresh_capture() {
    let mut w = UnownedWindow::new(true, false, true);
    let os = snap(1, false);
    let vm = mode_1080(1);

    let r = w.set_fullscreen(Some(Fullscreen::Exclusive(vm)), &os);
    let pending = r.pending.unwrap();
    let fin = w.finish_exclusive_transition(
        pending,
        Err(CaptureFailure::ModeSetFailed(DisplayCapture { display: 1 })),
    );
    assert_eq!(
        fin.error,
        Some(FullscreenError::VideoModeSetFailed { display: 1 })
    );
    assert_eq!(
        fin.commands,
        vec![
            Command::ReleaseDisplayCapture { display: 1 },
            Command::FadeIn,
        ]
    );
    assert_eq!(w.fullscreen(), None);
    assert!(w.shared_state.display_capture.is_none());
}

#[test]
fn presentation_options_survive_an_exclusive_round_trip() {
    let mut w = UnownedWindow::new(true, false, true);
    let vm = mode_1080(1);
    let mut os = snap(1, false);

    // reach borderless fullscreen with the user's options in force
    os.presentation_options = PresentationOptions { bits: 37 };
    let _ = w.set_fullscreen(Some(Fullscreen::Borderless(Some(1))), &os);
    let _ = w.on_transition_did_end(true, &os);

    // borderless -> exclusive: the user's options are saved
    let r = w.set_fullscreen(Some(Fullscreen::Exclusive(vm)), &os);
    assert_eq!(r.outcome, RequestOutcome::CapturePending);
    let pending = r.pending.unwrap();
    assert_eq!(pending.opts_at_request, PresentationOptions { bits: 37 });
    let fin = w.finish_exclusive_transition(pending, Ok(DisplayCapture { display: 1 }));
    assert_eq!(fin.error, None);
    assert_eq!(
        fin.commands,
        vec![
            Command::FadeIn,
            Command::SetPresentationOptions { opts: PresentationOptions { bits: 1034 } },
            Command::SetWindowLevel { level: WindowLevel::AboveShield },
        ]
    );
    assert_eq!(
        w.shared_state.save_presentation_opts,
        Some(PresentationOptions { bits: 37 })
    );

    // exclusive -> borderless: exactly the saved options come back
    let r2 = w.set_fullscreen(Some(Fullscreen::Borderless(Some(1))), &os);
    assert_eq!(
        r2.commands,
        vec![
            Command::SetPresentationOptions { opts: PresentationOptions { bits: 37 } },
            Command::RestoreVideoMode { display: 1 },
            Command::ReleaseDisplayCapture { display: 1 },
            Command::SetWindowLevel { level: WindowLevel::Normal },
        ]
    );

    // borderless -> exclusive again: the same options are saved again
    let os_back = {
        let mut o = snap(1, false);
        o.presentation_options = PresentationOptions { bits: 37 };
        o
    };
    let r3 = w.set_fullscreen(Some(Fullscreen::Exclusive(vm)), &os_back);
    let pending3 = r3.pending.unwrap();
    let fin3 = w.finish_exclusive_transition(pending3, Ok(DisplayCapture { display: 1 }));
    assert_eq!(fin3.error, None);
    assert_eq!(
        w.shared_state.save_presentation_opts,
        Some(PresentationOptions { bits: 37 })
    );
}

#[test]
fn os_initiated_exit_releases_the_capture() {
    let mut w = UnownedWindow::new(true, false, true);
    let os = snap(1, false);
    let vm = mode_1080(1);

    let r = w.set_fullscreen(Some(Fullscreen::Exclusive(vm)), &os);
    let pending = r.pending.unwrap();
    let _ = w.finish_exclusive_transition(pending, Ok(DisplayCapture { display: 1 }));
    let _ = w.on_transition_did_end(true, &os);

    // the user leaves fullscreen through the OS, with no request made
    w.on_transition_will_begin();
    assert!(w.shared_state.in_fullscreen_transition);
    let done = w.on_transition_did_end(false, &os);
    assert_eq!(done.commands[0], Command::RestoreVideoMode { display: 1 });
    assert_eq!(done.commands[1], Command::ReleaseDisplayCapture { display: 1 });
    assert_eq!(w.fullscreen(), None);
    assert!(w.shared_state.display_capture.is_none());
    // the frame saved on entering exclusive mode is put back
    assert!(done
        .commands
        .contains(&Command::SetFrame { frame: Rect { x: 10, y: 20, w: 640, h: 480 } }));
}

#[test]
fn exclusive_to_exclusive_swaps_the_capture() {
    let mut w = UnownedWindow::new(true, false, true);
    let os = snap(1, false);
    let vm1 = mode_1080(1);
    let vm2 = mode_1080(2);

    let r = w.set_fullscreen(Some(Fullscreen::Exclusive(vm1)), &os);
    let _ = w.finish_exclusive_transition(r.pending.unwrap(), Ok(DisplayCapture { display: 1 }));
    let _ = w.on_transition_did_end(true, &os);

    let r2 = w.set_fullscreen(Some(Fullscreen::Exclusive(vm2)), &os);
    assert_eq!(r2.outcome, RequestOutcome::CapturePending);
    // the relocation to monitor 2 comes before the fade
    assert_eq!(
        r2.commands,
        vec![Command::SetFrameTopLeft { x: 0, y: 1080 }, Command::FadeOut]
    );
    let fin = w.finish_exclusive_transition(
        r2.pending.unwrap(),
        Ok(DisplayCapture { display: 2 }),
    );
    assert_eq!(fin.error, None);
    assert_eq!(
        fin.commands,
        vec![
            Command::FadeIn,
            Command::RestoreVideoMode { display: 1 },
            Command::ReleaseDisplayCapture { display: 1 },
        ]
    );
    assert_eq!(w.fullscreen(), Some(Fullscreen::Exclusive(vm2)));
    assert_eq!(w.shared_state.display_capture, Some(DisplayCapture { display: 2 }));
}
