//! The fullscreen transition engine.
//!
//! Each method plays one locked region of the live system: it reads the
//! snapshot of what the OS would answer, updates the shared state, and
//! returns the commands the surrounding shell must issue, in order.  The
//! contract of every method equals the transition relation in
//! [`crate::model`], so properties of operation sequences proved there
//! carry over to this code.

use vstd::prelude::*;

use crate::commands::CaptureFailure;
use crate::commands::Command;
use crate::commands::CompletionResponse;
use crate::commands::FinishResponse;
use crate::commands::FullscreenError;
use crate::commands::FullscreenResponse;
use crate::commands::OsSnapshot;
use crate::commands::PendingExclusive;
use crate::commands::RequestOutcome;
use crate::commands::WindowLevel;
use crate::model::spec_did_end;
use crate::model::spec_finish_exclusive;
use crate::model::spec_set_decorations;
use crate::model::spec_set_fullscreen;
use crate::model::spec_set_maximized;
use crate::model::spec_set_resizable;
use crate::model::spec_set_simple_fullscreen;
use crate::modes::DisplayCapture;
use crate::modes::Fullscreen;
use crate::modes::mode_eq;
use crate::modes::target_monitor;
use crate::state::SharedState;
use crate::style::borderless_fallback_options;
use crate::style::chrome_mask;
use crate::style::exclusive_options;
use crate::style::simple_fullscreen_options;
use crate::style::with_resizable;
use crate::style::MASK_MINIATURIZABLE;
use crate::style::MASK_RESIZABLE;
use crate::style::MASK_TITLED;

verus! {

/// One window's half of the transition machinery: the shared state and
/// the sticky decorated attribute.  In the live system the state sits
/// behind a mutex reached from user calls and from OS callbacks; here
/// each method models one lock-to-unlock span, and the lock is never held
/// across the asynchronous commands a method returns.
pub struct UnownedWindow {
    /// The mutex-guarded transition record.
    pub shared_state: SharedState,
    /// Whether the caller wants window decorations; like `resizable`, it
    /// survives fullscreen spans and is reapplied on restoration.
    pub decorations: bool,
}

impl UnownedWindow {
    /// A fresh window, not fullscreen, with the given attributes.
    pub fn new(resizable: bool, maximized: bool, decorations: bool) -> (w: UnownedWindow)
        ensures
            w.shared_state == SharedState::spec_initial(resizable, maximized),
            w.decorations == decorations,
            w.shared_state.wf(),
    {
        UnownedWindow { shared_state: SharedState::new(resizable, maximized), decorations }
    }

    /// The last confirmed fullscreen mode.
    pub fn fullscreen(&self) -> (r: Option<Fullscreen>)
        ensures
            r == self.shared_state.fullscreen,
    {
        self.shared_state.fullscreen
    }

    /// The logical maximize state, tracked across fullscreen toggles.
    pub fn is_maximized(&self) -> (r: bool)
        ensures
            r == self.shared_state.maximized,
    {
        self.shared_state.maximized
    }

    /// The user-requested resizability.
    pub fn is_resizable(&self) -> (r: bool)
        ensures
            r == self.shared_state.resizable,
    {
        self.shared_state.resizable
    }

    /// Whether the caller wants window decorations.
    pub fn is_decorated(&self) -> (r: bool)
        ensures
            r == self.decorations,
    {
        self.decorations
    }

    /// Whether simple (non-native) fullscreen is active.
    pub fn simple_fullscreen(&self) -> (r: bool)
        ensures
            r == self.shared_state.is_simple_fullscreen,
    {
        self.shared_state.is_simple_fullscreen
    }

    /// Request a fullscreen mode change.
    ///
    /// Exactly [`crate::model::spec_set_fullscreen`]: simple fullscreen
    /// rejects the request; an in-flight transition stores it as the
    /// deferred target, the latest such request winning; the current mode
    /// makes it a no-op with no command issued; otherwise the transition
    /// for the ordered pair of modes is recorded and its commands
    /// returned, with a cross-monitor relocation first, before any
    /// toggle.  Entering exclusive fullscreen is not committed here: the
    /// caller must capture the display and then call
    /// [`Self::finish_exclusive_transition`].
    pub fn set_fullscreen(&mut self, fullscreen: Option<Fullscreen>, os: &OsSnapshot) -> (r:
        FullscreenResponse)
        requires
            old(self).shared_state.wf(),
            os.wf(),
        ensures
            ({
                let step = spec_set_fullscreen(old(self).shared_state, fullscreen, *os);
                &&& final(self).shared_state == step.state
                &&& r.commands@ == step.commands
                &&& r.outcome == step.outcome
                &&& r.pending == step.pending
            }),
            final(self).shared_state.wf(),
            final(self).decorations == old(self).decorations,
            // idempotence: requesting the current mode changes nothing
            // and issues no command
            (!old(self).shared_state.is_simple_fullscreen
                && !old(self).shared_state.in_fullscreen_transition
                && fullscreen == old(self).shared_state.fullscreen)
                ==> (final(self).shared_state == old(self).shared_state
                && r.commands@.len() == 0 && r.outcome == RequestOutcome::AlreadyCurrent),
            // deferral: the stored target is this request, whatever was
            // stored before
            (!old(self).shared_state.is_simple_fullscreen
                && old(self).shared_state.in_fullscreen_transition)
                ==> (final(self).shared_state.target_fullscreen == Some(fullscreen)
                && r.commands@.len() == 0 && r.outcome == RequestOutcome::Deferred),
            r.pending is Some <==> r.outcome == RequestOutcome::CapturePending,
            // rejection: while simple fullscreen is active nothing
            // changes and nothing is issued
            old(self).shared_state.is_simple_fullscreen
                ==> (final(self).shared_state == old(self).shared_state
                && r.commands@.len() == 0
                && r.outcome == RequestOutcome::RejectedSimpleFullscreen),
            // an exclusive entry commits nothing until the capture's
            // result comes back
            r.outcome == RequestOutcome::CapturePending
                ==> final(self).shared_state == old(self).shared_state,
    {
        if self.shared_state.is_simple_fullscreen {
            return FullscreenResponse {
                commands: Vec::new(),
                outcome: RequestOutcome::RejectedSimpleFullscreen,
                pending: None,
            };
        }
        if self.shared_state.in_fullscreen_transition {
            self.shared_state.target_fullscreen = Some(fullscreen);
            return FullscreenResponse {
                commands: Vec::new(),
                outcome: RequestOutcome::Deferred,
                pending: None,
            };
        }
        let old_mode = self.shared_state.fullscreen;
        if mode_eq(&fullscreen, &old_mode) {
            return FullscreenResponse {
                commands: Vec::new(),
                outcome: RequestOutcome::AlreadyCurrent,
                pending: None,
            };
        }
        let mut commands: Vec<Command> = Vec::new();
        if let Some(m) = fullscreen {
            let target = target_monitor(&m, os.current_monitor);
            if target != os.current_monitor {
                commands.push(
                    Command::SetFrameTopLeft { x: os.monitor_frame.x, y: os.monitor_frame.top() },
                );
            }
        }
        if let Some(Fullscreen::Exclusive(vm)) = fullscreen {
            commands.push(Command::FadeOut);
            proof {
                assert(commands@ =~= spec_set_fullscreen(
                    old(self).shared_state,
                    fullscreen,
                    *os,
                ).commands);
            }
            return FullscreenResponse {
                commands,
                outcome: RequestOutcome::CapturePending,
                pending: Some(
                    PendingExclusive {
                        mode: vm,
                        prior: old_mode,
                        opts_at_request: os.presentation_options,
                        frame_at_request: os.frame,
                    },
                ),
            };
        }
        self.shared_state.fullscreen = fullscreen;
        match (old_mode, fullscreen) {
            (None, Some(_)) => {
                self.shared_state.in_fullscreen_transition = true;
                commands.push(Command::ToggleNativeFullscreen);
            },
            (Some(Fullscreen::Borderless(_)), None) => {
                self.shared_state.in_fullscreen_transition = true;
                commands.push(Command::ToggleNativeFullscreen);
            },
            (Some(Fullscreen::Exclusive(vm_old)), None) => {
                self.shared_state.display_capture = None;
                self.shared_state.in_fullscreen_transition = true;
                commands.push(Command::RestoreVideoMode { display: vm_old.monitor });
                commands.push(Command::ReleaseDisplayCapture { display: vm_old.monitor });
                commands.push(Command::ToggleNativeFullscreen);
            },
            (Some(Fullscreen::Exclusive(vm_old)), Some(Fullscreen::Borderless(_))) => {
                let opts = match self.shared_state.save_presentation_opts {
                    Some(o) => o,
                    None => borderless_fallback_options(),
                };
                self.shared_state.display_capture = None;
                commands.push(Command::SetPresentationOptions { opts });
                commands.push(Command::RestoreVideoMode { display: vm_old.monitor });
                commands.push(Command::ReleaseDisplayCapture { display: vm_old.monitor });
                commands.push(Command::SetWindowLevel { level: WindowLevel::Normal });
            },
            _ => {},
        }
        proof {
            assert(commands@ =~= spec_set_fullscreen(old(self).shared_state, fullscreen, *os)
                .commands);
        }
        FullscreenResponse { commands, outcome: RequestOutcome::Committed, pending: None }
    }

    /// Finish an exclusive-fullscreen entry started by
    /// [`Self::set_fullscreen`], handing back what the capture attempt
    /// yielded.  Exactly [`crate::model::spec_finish_exclusive`]: on
    /// success the new mode and the capture token are committed together;
    /// on failure the pre-transition mode stays in force, any fresh token
    /// is ordered released, and the failure is reported.  The request's
    /// sequencing discipline is the precondition: no other transition ran
    /// in between.
    pub fn finish_exclusive_transition(
        &mut self,
        pending: PendingExclusive,
        outcome: Result<DisplayCapture, CaptureFailure>,
    ) -> (r: FinishResponse)
        requires
            old(self).shared_state.wf(),
            !old(self).shared_state.in_fullscreen_transition,
            !old(self).shared_state.is_simple_fullscreen,
            pending.prior == old(self).shared_state.fullscreen,
            outcome matches Ok(cap) ==> cap.display == pending.mode.monitor,
        ensures
            ({
                let step = spec_finish_exclusive(old(self).shared_state, pending, outcome);
                &&& final(self).shared_state == step.state
                &&& r.commands@ == step.commands
                &&& r.error == step.error
            }),
            final(self).shared_state.wf(),
            final(self).decorations == old(self).decorations,
            r.error is Some <==> outcome is Err,
            outcome is Ok ==> final(self).shared_state.fullscreen == Some(
                Fullscreen::Exclusive(pending.mode),
            ),
            outcome matches Err(CaptureFailure::CaptureFailed) ==> final(self).shared_state == old(
                self,
            ).shared_state,
    {
        match outcome {
            Ok(cap) => {
                self.shared_state.fullscreen = Some(Fullscreen::Exclusive(pending.mode));
                self.shared_state.standard_frame = Some(pending.frame_at_request);
                let mut commands: Vec<Command> = Vec::new();
                commands.push(Command::FadeIn);
                match pending.prior {
                    None => {
                        self.shared_state.display_capture = Some(cap);
                        self.shared_state.in_fullscreen_transition = true;
                        commands.push(Command::ToggleNativeFullscreen);
                    },
                    Some(Fullscreen::Borderless(_)) => {
                        self.shared_state.display_capture = Some(cap);
                        self.shared_state.save_presentation_opts = Some(pending.opts_at_request);
                        commands.push(
                            Command::SetPresentationOptions { opts: exclusive_options() },
                        );
                        commands.push(Command::SetWindowLevel { level: WindowLevel::AboveShield });
                    },
                    Some(Fullscreen::Exclusive(vm_old)) => {
                        let same = vm_old.monitor == cap.display;
                        self.shared_state.display_capture = Some(cap);
                        if !same {
                            commands.push(Command::RestoreVideoMode { display: vm_old.monitor });
                            commands.push(
                                Command::ReleaseDisplayCapture { display: vm_old.monitor },
                            );
                        }
                    },
                }
                proof {
                    assert(commands@ =~= spec_finish_exclusive(
                        old(self).shared_state,
                        pending,
                        outcome,
                    ).commands);
                }
                FinishResponse { commands, error: None }
            },
            Err(CaptureFailure::CaptureFailed) => {
                let mut commands: Vec<Command> = Vec::new();
                commands.push(Command::FadeIn);
                proof {
                    assert(commands@ =~= spec_finish_exclusive(
                        old(self).shared_state,
                        pending,
                        outcome,
                    ).commands);
                }
                FinishResponse {
                    commands,
                    error: Some(
                        FullscreenError::DisplayCaptureFailed { display: pending.mode.monitor },
                    ),
                }
            },
            Err(CaptureFailure::ModeSetFailed(h)) => {
                let rejoins = match self.shared_state.fullscreen {
                    Some(Fullscreen::Exclusive(vm_old)) => vm_old.monitor == h.display,
                    _ => false,
                };
                let mut commands: Vec<Command> = Vec::new();
                if rejoins {
                    self.shared_state.display_capture = Some(h);
                    commands.push(Command::FadeIn);
                } else {
                    commands.push(Command::ReleaseDisplayCapture { display: h.display });
                    commands.push(Command::FadeIn);
                }
                proof {
                    assert(commands@ =~= spec_finish_exclusive(
                        old(self).shared_state,
                        pending,
                        outcome,
                    ).commands);
                }
                FinishResponse {
                    commands,
                    error: Some(
                        FullscreenError::VideoModeSetFailed { display: pending.mode.monitor },
                    ),
                }
            },
        }
    }

    /// The OS reports that a native transition has visually started.
    /// Requests made from now on are deferred until the matching
    /// transition-end notification.
    pub fn on_transition_will_begin(&mut self)
        requires
            old(self).shared_state.wf(),
        ensures
            final(self).shared_state == (SharedState {
                in_fullscreen_transition: true,
                ..old(self).shared_state
            }),
            final(self).decorations == old(self).decorations,
            final(self).shared_state.wf(),
    {
        self.shared_state.in_fullscreen_transition = true;
    }

    /// The OS reports that a native transition has finished; `entered`
    /// tells whether the window ended up in fullscreen or out of it.
    ///
    /// Exactly [`crate::model::spec_did_end`]: the in-flight flag falls;
    /// an exit gives up any still-held display capture, reapplies the
    /// chrome mask with the stored resizable attribute, reasserts the
    /// logical maximize state and puts a saved frame back; and a deferred
    /// target — always the most recent request — is replayed exactly
    /// once, its commands following the restoration commands.
    pub fn on_transition_did_end(&mut self, entered: bool, os: &OsSnapshot) -> (r:
        CompletionResponse)
        requires
            old(self).shared_state.wf(),
            os.wf(),
        ensures
            ({
                let step = spec_did_end(old(self).shared_state, entered, *os);
                &&& final(self).shared_state == step.state
                &&& r.commands@ == step.commands
                &&& match (r.replay, step.replay) {
                    (Some(rr), Some(sr)) => {
                        &&& rr.commands@ == sr.commands
                        &&& rr.outcome == sr.outcome
                        &&& rr.pending == sr.pending
                    },
                    (None, None) => true,
                    _ => false,
                }
            }),
            final(self).shared_state.wf(),
            final(self).decorations == old(self).decorations,
            final(self).shared_state.target_fullscreen is None,
            // every exit path gives the display back: after an exit with
            // no deferred target, no mode and no capture is held
            (!entered && old(self).shared_state.target_fullscreen is None)
                ==> (final(self).shared_state.fullscreen is None
                && final(self).shared_state.display_capture is None),
    {
        self.shared_state.in_fullscreen_transition = false;
        let mut commands: Vec<Command> = Vec::new();
        if !entered {
            match self.shared_state.display_capture.take() {
                Some(c) => {
                    commands.push(Command::RestoreVideoMode { display: c.display });
                    commands.push(Command::ReleaseDisplayCapture { display: c.display });
                },
                None => {},
            }
            self.shared_state.fullscreen = None;
            let base = match self.shared_state.saved_style.take() {
                Some(m) => m,
                None => os.style_mask,
            };
            let mask = with_resizable(base, self.shared_state.resizable);
            commands.push(Command::SetStyleMask { mask, sync: false });
            if os.zoomed != self.shared_state.maximized {
                commands.push(Command::SetZoom { maximized: self.shared_state.maximized });
            }
            match self.shared_state.standard_frame.take() {
                Some(f) => commands.push(Command::SetFrame { frame: f }),
                None => {},
            }
            proof {
                assert(commands@ =~= spec_did_end(old(self).shared_state, entered, *os).commands);
            }
        }
        let replay = match self.shared_state.target_fullscreen.take() {
            Some(t) => Some(self.set_fullscreen(t, os)),
            None => None,
        };
        CompletionResponse { commands, replay }
    }

    /// Store the user-requested resizability.  Exactly
    /// [`crate::model::spec_set_resizable`]: while any fullscreen mode is
    /// active the mask change is deferred until restoration, because the
    /// chrome bits are overridden there; otherwise the surface's mask is
    /// rewritten now with the bit forced to the request.
    pub fn set_resizable(&mut self, resizable: bool, os: &OsSnapshot) -> (cmds: Vec<Command>)
        requires
            old(self).shared_state.wf(),
        ensures
            (final(self).shared_state, cmds@) == spec_set_resizable(
                old(self).shared_state,
                resizable,
                *os,
            ),
            final(self).shared_state.wf(),
            final(self).decorations == old(self).decorations,
            final(self).shared_state.resizable == resizable,
            old(self).shared_state.fullscreen is Some ==> cmds@.len() == 0,
    {
        self.shared_state.resizable = resizable;
        let mut commands: Vec<Command> = Vec::new();
        if self.shared_state.fullscreen.is_none() {
            let mask = with_resizable(os.style_mask, resizable);
            commands.push(Command::SetStyleMask { mask, sync: false });
        }
        proof {
            assert(commands@ =~= spec_set_resizable(old(self).shared_state, resizable, *os).1);
        }
        commands
    }

    /// Store the decorated attribute.  Exactly
    /// [`crate::model::spec_set_decorations`]: an unchanged value is a
    /// no-op; while any fullscreen mode is active the change is recorded
    /// and deferred until restoration; otherwise the full chrome mask for
    /// the stored attributes is applied now.
    pub fn set_decorations(&mut self, decorations: bool) -> (cmds: Vec<Command>)
        requires
            old(self).shared_state.wf(),
        ensures
            (final(self).decorations, cmds@) == spec_set_decorations(
                old(self).decorations,
                old(self).shared_state,
                decorations,
            ),
            final(self).shared_state == old(self).shared_state,
            final(self).shared_state.wf(),
            final(self).decorations == decorations,
            old(self).shared_state.fullscreen is Some ==> cmds@.len() == 0,
    {
        let mut commands: Vec<Command> = Vec::new();
        if decorations != self.decorations {
            self.decorations = decorations;
            if self.shared_state.fullscreen.is_none() {
                let mask = chrome_mask(decorations, self.shared_state.resizable);
                commands.push(Command::SetStyleMask { mask, sync: false });
            }
        }
        proof {
            assert(commands@ =~= spec_set_decorations(
                old(self).decorations,
                old(self).shared_state,
                decorations,
            ).1);
        }
        commands
    }

    /// Request the maximized state.  Exactly
    /// [`crate::model::spec_set_maximized`]: a request matching the
    /// current zoom state is a no-op; otherwise the zoom is toggled
    /// asynchronously and the logical state updated.
    pub fn set_maximized(&mut self, maximized: bool, os: &OsSnapshot) -> (cmds: Vec<Command>)
        requires
            old(self).shared_state.wf(),
        ensures
            (final(self).shared_state, cmds@) == spec_set_maximized(
                old(self).shared_state,
                maximized,
                *os,
            ),
            final(self).shared_state.wf(),
            final(self).decorations == old(self).decorations,
            os.zoomed == maximized ==> final(self).shared_state == old(self).shared_state
                && cmds@.len() == 0,
    {
        let mut commands: Vec<Command> = Vec::new();
        if os.zoomed != maximized {
            self.shared_state.maximized = maximized;
            commands.push(Command::SetZoom { maximized });
        }
        proof {
            assert(commands@ =~= spec_set_maximized(old(self).shared_state, maximized, *os).1);
        }
        commands
    }

    /// Enter or leave simple (non-native) fullscreen, used where the
    /// animated native toggle is unavailable.  Exactly
    /// [`crate::model::spec_set_simple_fullscreen`]: rejected — returning
    /// `false` with nothing issued — while native fullscreen is active or
    /// when already in the requested state.  Entering captures the frame,
    /// chrome mask and presentation options and hides chrome by direct
    /// mask writes, without the native toggle or a display capture;
    /// leaving reverses each captured field exactly.
    pub fn set_simple_fullscreen(&mut self, fullscreen: bool, os: &OsSnapshot) -> (r: (
        bool,
        Vec<Command>,
    ))
        requires
            old(self).shared_state.wf(),
        ensures
            (final(self).shared_state, r.0, r.1@) == spec_set_simple_fullscreen(
                old(self).shared_state,
                fullscreen,
                *os,
            ),
            final(self).shared_state.wf(),
            final(self).decorations == old(self).decorations,
            !r.0 ==> final(self).shared_state == old(self).shared_state && r.1@.len() == 0,
            r.0 ==> final(self).shared_state.is_simple_fullscreen == fullscreen,
    {
        let mut commands: Vec<Command> = Vec::new();
        if self.shared_state.fullscreen.is_some() || fullscreen
            == self.shared_state.is_simple_fullscreen {
            proof {
                assert(commands@ =~= spec_set_simple_fullscreen(
                    old(self).shared_state,
                    fullscreen,
                    *os,
                ).2);
            }
            return (false, commands);
        }
        if fullscreen {
            self.shared_state.standard_frame = Some(os.frame);
            self.shared_state.saved_style = Some(os.style_mask);
            self.shared_state.save_presentation_opts = Some(os.presentation_options);
            self.shared_state.is_simple_fullscreen = true;
            let m1 = os.style_mask.without(MASK_TITLED);
            let m2 = m1.without(MASK_MINIATURIZABLE | MASK_RESIZABLE);
            commands.push(
                Command::SetPresentationOptions { opts: simple_fullscreen_options() },
            );
            commands.push(Command::SetStyleMask { mask: m1, sync: true });
            commands.push(Command::SetFrame { frame: os.monitor_frame });
            commands.push(Command::SetStyleMask { mask: m2, sync: true });
            commands.push(Command::SetMovable { movable: false });
        } else {
            let base = match self.shared_state.saved_style.take() {
                Some(m) => m,
                None => os.style_mask,
            };
            let mask = with_resizable(base, self.shared_state.resizable);
            let frame = self.shared_state.saved_standard_frame();
            self.shared_state.is_simple_fullscreen = false;
            self.shared_state.standard_frame = None;
            commands.push(Command::SetStyleMask { mask, sync: false });
            match self.shared_state.save_presentation_opts {
                Some(o) => commands.push(Command::SetPresentationOptions { opts: o }),
                None => {},
            }
            commands.push(Command::SetFrame { frame });
            commands.push(Command::SetMovable { movable: true });
        }
        proof {
            assert(commands@ =~= spec_set_simple_fullscreen(
                old(self).shared_state,
                fullscreen,
                *os,
            ).2);
        }
        (true, commands)
    }
}

} // verus!
