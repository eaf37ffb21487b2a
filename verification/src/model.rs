//! The transition relation, stated as spec functions.
//!
//! Every operation of the engine is deterministic in the shared state and
//! the OS snapshot it reads; the functions here say, value by value, what
//! state it leaves behind and what commands it issues.  The executable
//! engine carries an `ensures` tying each method to its function here, so
//! the laws about sequences of operations are proved once, over these
//! functions, and hold of the engine through those contracts.

use vstd::prelude::*;

use crate::commands::Command;
use crate::commands::CaptureFailure;
use crate::commands::FullscreenError;
use crate::commands::OsSnapshot;
use crate::commands::PendingExclusive;
use crate::commands::RequestOutcome;
use crate::commands::WindowLevel;
use crate::modes::DisplayCapture;
use crate::modes::Fullscreen;
use crate::modes::spec_target_monitor;
use crate::state::SharedState;
use crate::style::spec_borderless_fallback_options;
use crate::style::spec_chrome_mask;
use crate::style::spec_exclusive_options;
use crate::style::spec_simple_fullscreen_options;
use crate::style::spec_with_resizable;
use crate::style::MASK_MINIATURIZABLE;
use crate::style::MASK_RESIZABLE;
use crate::style::MASK_TITLED;

verus! {

/// One step of a fullscreen request: the state it leaves behind and what
/// it returns.
pub ghost struct FullscreenStep {
    /// The shared state after the request.
    pub state: SharedState,
    /// The commands the request issues, in order.
    pub commands: Seq<Command>,
    /// What the request amounts to.
    pub outcome: RequestOutcome,
    /// The half-open exclusive entry, when one is started.
    pub pending: Option<PendingExclusive>,
}

/// One step of finishing an exclusive entry.
pub ghost struct FinishStep {
    /// The shared state after the completion.
    pub state: SharedState,
    /// The commands the completion issues, in order.
    pub commands: Seq<Command>,
    /// The failure report, when the entry is aborted.
    pub error: Option<FullscreenError>,
}

/// One step of the transition-end notification.
pub ghost struct CompletionStep {
    /// The shared state after the notification, the replayed deferred
    /// request included.
    pub state: SharedState,
    /// The restoration commands, in order; a replayed request's commands
    /// follow them.
    pub commands: Seq<Command>,
    /// The replayed deferred request's step, when one was pending.
    pub replay: Option<FullscreenStep>,
}

/// The commands that relocate the window to the requested monitor.  They
/// come before any toggle, because the native toggle primitive always
/// targets the window's current screen.
pub open spec fn spec_move_commands(mode: Option<Fullscreen>, os: OsSnapshot) -> Seq<Command> {
    match mode {
        Some(m) => if spec_target_monitor(m, os.current_monitor) != os.current_monitor {
            seq![
                Command::SetFrameTopLeft {
                    x: os.monitor_frame.x,
                    y: (os.monitor_frame.y + os.monitor_frame.h) as i64,
                },
            ]
        } else {
            Seq::<Command>::empty()
        },
        None => Seq::<Command>::empty(),
    }
}

/// What a fullscreen request does.  The guards come in the fixed order:
/// simple fullscreen rejects the request, an in-flight transition defers
/// it, the current mode makes it a no-op; only then is a transition
/// started, one handler per ordered pair of modes.
pub open spec fn spec_set_fullscreen(
    s: SharedState,
    mode: Option<Fullscreen>,
    os: OsSnapshot,
) -> FullscreenStep {
    if s.is_simple_fullscreen {
        FullscreenStep {
            state: s,
            commands: Seq::<Command>::empty(),
            outcome: RequestOutcome::RejectedSimpleFullscreen,
            pending: None,
        }
    } else if s.in_fullscreen_transition {
        FullscreenStep {
            state: SharedState { target_fullscreen: Some(mode), ..s },
            commands: Seq::<Command>::empty(),
            outcome: RequestOutcome::Deferred,
            pending: None,
        }
    } else if mode == s.fullscreen {
        FullscreenStep {
            state: s,
            commands: Seq::<Command>::empty(),
            outcome: RequestOutcome::AlreadyCurrent,
            pending: None,
        }
    } else {
        let moves = spec_move_commands(mode, os);
        match mode {
            Some(Fullscreen::Exclusive(vm)) => FullscreenStep {
                state: s,
                commands: moves.push(Command::FadeOut),
                outcome: RequestOutcome::CapturePending,
                pending: Some(
                    PendingExclusive {
                        mode: vm,
                        prior: s.fullscreen,
                        opts_at_request: os.presentation_options,
                        frame_at_request: os.frame,
                    },
                ),
            },
            _ => {
                let s1 = SharedState { fullscreen: mode, ..s };
                match (s.fullscreen, mode) {
                    (None, Some(_)) => FullscreenStep {
                        state: SharedState { in_fullscreen_transition: true, ..s1 },
                        commands: moves.push(Command::ToggleNativeFullscreen),
                        outcome: RequestOutcome::Committed,
                        pending: None,
                    },
                    (Some(Fullscreen::Borderless(_)), None) => FullscreenStep {
                        state: SharedState { in_fullscreen_transition: true, ..s1 },
                        commands: moves.push(Command::ToggleNativeFullscreen),
                        outcome: RequestOutcome::Committed,
                        pending: None,
                    },
                    (Some(Fullscreen::Exclusive(vm_old)), None) => FullscreenStep {
                        state: SharedState {
                            in_fullscreen_transition: true,
                            display_capture: None,
                            ..s1
                        },
                        commands: moves + seq![
                            Command::RestoreVideoMode { display: vm_old.monitor },
                            Command::ReleaseDisplayCapture { display: vm_old.monitor },
                            Command::ToggleNativeFullscreen,
                        ],
                        outcome: RequestOutcome::Committed,
                        pending: None,
                    },
                    (Some(Fullscreen::Exclusive(vm_old)), Some(Fullscreen::Borderless(_))) => {
                        let opts = match s.save_presentation_opts {
                            Some(o) => o,
                            None => spec_borderless_fallback_options(),
                        };
                        FullscreenStep {
                            state: SharedState { display_capture: None, ..s1 },
                            commands: moves + seq![
                                Command::SetPresentationOptions { opts },
                                Command::RestoreVideoMode { display: vm_old.monitor },
                                Command::ReleaseDisplayCapture { display: vm_old.monitor },
                                Command::SetWindowLevel { level: WindowLevel::Normal },
                            ],
                            outcome: RequestOutcome::Committed,
                            pending: None,
                        }
                    },
                    // Borderless to borderless on another monitor: the
                    // relocation is the whole transition, no toggle runs.
                    _ => FullscreenStep {
                        state: s1,
                        commands: moves,
                        outcome: RequestOutcome::Committed,
                        pending: None,
                    },
                }
            },
        }
    }
}

/// What finishing an exclusive entry does.  On success the new mode and
/// the capture are committed together; on failure the pre-transition
/// state stays in force and any fresh token is ordered released.
pub open spec fn spec_finish_exclusive(
    s: SharedState,
    pending: PendingExclusive,
    outcome: Result<DisplayCapture, CaptureFailure>,
) -> FinishStep {
    match outcome {
        Ok(cap) => {
            let base = SharedState {
                fullscreen: Some(Fullscreen::Exclusive(pending.mode)),
                display_capture: Some(cap),
                standard_frame: Some(pending.frame_at_request),
                ..s
            };
            match pending.prior {
                None => FinishStep {
                    state: SharedState { in_fullscreen_transition: true, ..base },
                    commands: seq![Command::FadeIn, Command::ToggleNativeFullscreen],
                    error: None,
                },
                Some(Fullscreen::Borderless(_)) => FinishStep {
                    state: SharedState {
                        save_presentation_opts: Some(pending.opts_at_request),
                        ..base
                    },
                    commands: seq![
                        Command::FadeIn,
                        Command::SetPresentationOptions { opts: spec_exclusive_options() },
                        Command::SetWindowLevel { level: WindowLevel::AboveShield },
                    ],
                    error: None,
                },
                Some(Fullscreen::Exclusive(vm_old)) => FinishStep {
                    state: base,
                    commands: if vm_old.monitor == cap.display {
                        seq![Command::FadeIn]
                    } else {
                        seq![
                            Command::FadeIn,
                            Command::RestoreVideoMode { display: vm_old.monitor },
                            Command::ReleaseDisplayCapture { display: vm_old.monitor },
                        ]
                    },
                    error: None,
                },
            }
        },
        Err(CaptureFailure::CaptureFailed) => FinishStep {
            state: s,
            commands: seq![Command::FadeIn],
            error: Some(FullscreenError::DisplayCaptureFailed { display: pending.mode.monitor }),
        },
        Err(CaptureFailure::ModeSetFailed(h)) => {
            let rejoins = match s.fullscreen {
                Some(Fullscreen::Exclusive(vm_old)) => vm_old.monitor == h.display,
                _ => false,
            };
            if rejoins {
                FinishStep {
                    state: SharedState { display_capture: Some(h), ..s },
                    commands: seq![Command::FadeIn],
                    error: Some(
                        FullscreenError::VideoModeSetFailed { display: pending.mode.monitor },
                    ),
                }
            } else {
                FinishStep {
                    state: s,
                    commands: seq![
                        Command::ReleaseDisplayCapture { display: h.display },
                        Command::FadeIn,
                    ],
                    error: Some(
                        FullscreenError::VideoModeSetFailed { display: pending.mode.monitor },
                    ),
                }
            }
        },
    }
}

/// The state after the restoration an exited native fullscreen performs.
pub open spec fn spec_restore_state(s: SharedState) -> SharedState {
    SharedState {
        fullscreen: None,
        display_capture: None,
        saved_style: None,
        standard_frame: None,
        ..s
    }
}

/// The commands the restoration issues: any still-held capture is given
/// up first, then the chrome mask is reapplied with the stored resizable
/// attribute, the logical maximize state is reasserted, and a saved frame
/// is put back.
pub open spec fn spec_restore_commands(s: SharedState, os: OsSnapshot) -> Seq<Command> {
    let cap_cmds = match s.display_capture {
        Some(c) => seq![
            Command::RestoreVideoMode { display: c.display },
            Command::ReleaseDisplayCapture { display: c.display },
        ],
        None => Seq::<Command>::empty(),
    };
    let base = match s.saved_style {
        Some(m) => m,
        None => os.style_mask,
    };
    let mask_cmds = seq![
        Command::SetStyleMask { mask: spec_with_resizable(base, s.resizable), sync: false },
    ];
    let zoom_cmds = if os.zoomed != s.maximized {
        seq![Command::SetZoom { maximized: s.maximized }]
    } else {
        Seq::<Command>::empty()
    };
    let frame_cmds = match s.standard_frame {
        Some(f) => seq![Command::SetFrame { frame: f }],
        None => Seq::<Command>::empty(),
    };
    cap_cmds + mask_cmds + zoom_cmds + frame_cmds
}

/// The state the transition-end notification settles into before any
/// deferred request is replayed: the in-flight flag has fallen, and an
/// exit has restored pre-fullscreen state.
pub open spec fn spec_settled(s: SharedState, entered: bool) -> SharedState {
    let s0 = SharedState { in_fullscreen_transition: false, ..s };
    if entered {
        s0
    } else {
        spec_restore_state(s0)
    }
}

/// What the transition-end notification does: the in-flight flag falls,
/// an exit restores pre-fullscreen state, and a deferred target — always
/// the most recent request — is replayed exactly once.
pub open spec fn spec_did_end(s: SharedState, entered: bool, os: OsSnapshot) -> CompletionStep {
    let s1 = spec_settled(s, entered);
    let restore_cmds = if entered {
        Seq::<Command>::empty()
    } else {
        spec_restore_commands(SharedState { in_fullscreen_transition: false, ..s }, os)
    };
    match s1.target_fullscreen {
        Some(t) => {
            let step = spec_set_fullscreen(
                SharedState { target_fullscreen: None, ..s1 },
                t,
                os,
            );
            CompletionStep { state: step.state, commands: restore_cmds, replay: Some(step) }
        },
        None => CompletionStep { state: s1, commands: restore_cmds, replay: None },
    }
}

/// What setting the resizable attribute does: the attribute is stored;
/// while any fullscreen mode is active the mask change is deferred to
/// restoration, otherwise the surface's mask is rewritten now.
pub open spec fn spec_set_resizable(
    s: SharedState,
    resizable: bool,
    os: OsSnapshot,
) -> (SharedState, Seq<Command>) {
    let s1 = SharedState { resizable, ..s };
    if s.fullscreen is Some {
        (s1, Seq::<Command>::empty())
    } else {
        (
            s1,
            seq![
                Command::SetStyleMask {
                    mask: spec_with_resizable(os.style_mask, resizable),
                    sync: false,
                },
            ],
        )
    }
}

/// What setting the decorated attribute does: unchanged values are a
/// no-op; while any fullscreen mode is active the change is recorded and
/// deferred to restoration; otherwise the full chrome mask is rebuilt.
pub open spec fn spec_set_decorations(
    decorations: bool,
    s: SharedState,
    decorated: bool,
) -> (bool, Seq<Command>) {
    if decorated == decorations {
        (decorations, Seq::<Command>::empty())
    } else if s.fullscreen is Some {
        (decorated, Seq::<Command>::empty())
    } else {
        (
            decorated,
            seq![
                Command::SetStyleMask {
                    mask: spec_chrome_mask(decorated, s.resizable),
                    sync: false,
                },
            ],
        )
    }
}

/// What setting the maximize state does: a request matching the current
/// zoom state is a no-op, otherwise the zoom is toggled and the logical
/// state updated.
pub open spec fn spec_set_maximized(
    s: SharedState,
    maximized: bool,
    os: OsSnapshot,
) -> (SharedState, Seq<Command>) {
    if os.zoomed == maximized {
        (s, Seq::<Command>::empty())
    } else {
        (SharedState { maximized, ..s }, seq![Command::SetZoom { maximized }])
    }
}

/// What toggling simple (non-native) fullscreen does.  It is rejected
/// while native fullscreen is active and when already in the requested
/// state.  Entering captures frame, chrome mask and presentation options
/// and hides chrome by direct mask writes; exiting reverses each captured
/// field exactly.
pub open spec fn spec_set_simple_fullscreen(
    s: SharedState,
    fullscreen: bool,
    os: OsSnapshot,
) -> (SharedState, bool, Seq<Command>) {
    if s.fullscreen is Some || fullscreen == s.is_simple_fullscreen {
        (s, false, Seq::<Command>::empty())
    } else if fullscreen {
        let s1 = SharedState {
            standard_frame: Some(os.frame),
            saved_style: Some(os.style_mask),
            save_presentation_opts: Some(os.presentation_options),
            is_simple_fullscreen: true,
            ..s
        };
        let m1 = os.style_mask.spec_without(MASK_TITLED);
        let m2 = m1.spec_without(MASK_MINIATURIZABLE | MASK_RESIZABLE);
        (
            s1,
            true,
            seq![
                Command::SetPresentationOptions { opts: spec_simple_fullscreen_options() },
                Command::SetStyleMask { mask: m1, sync: true },
                Command::SetFrame { frame: os.monitor_frame },
                Command::SetStyleMask { mask: m2, sync: true },
                Command::SetMovable { movable: false },
            ],
        )
    } else {
        let base = match s.saved_style {
            Some(m) => m,
            None => os.style_mask,
        };
        let mask = spec_with_resizable(base, s.resizable);
        let frame = s.spec_saved_standard_frame();
        let s1 = SharedState {
            is_simple_fullscreen: false,
            saved_style: None,
            standard_frame: None,
            ..s
        };
        let opts_cmds = match s.save_presentation_opts {
            Some(o) => seq![Command::SetPresentationOptions { opts: o }],
            None => Seq::<Command>::empty(),
        };
        (
            s1,
            true,
            seq![Command::SetStyleMask { mask, sync: false }] + opts_cmds + seq![
                Command::SetFrame { frame },
                Command::SetMovable { movable: true },
            ],
        )
    }
}

} // verus!
