//! The engine's laws: properties of operation sequences, proved over the
//! transition relation of [`crate::model`].  Each executable method's
//! contract equals that relation, so what is proved here holds of the
//! engine itself.

use vstd::prelude::*;

use crate::commands::Command;
use crate::commands::OsSnapshot;
use crate::commands::PendingExclusive;
use crate::modes::DisplayCapture;
use crate::modes::Fullscreen;
use crate::modes::VideoMode;
use crate::model::spec_did_end;
use crate::model::spec_finish_exclusive;
use crate::model::spec_set_fullscreen;
use crate::model::spec_settled;
use crate::state::SharedState;
use crate::style::lemma_with_resizable_sets_bit;
use crate::style::spec_with_resizable;
use crate::style::PresentationOptions;
use crate::style::MASK_RESIZABLE;

verus! {

/// Capture/mode duality: in every well-formed state the display capture
/// is held if and only if the confirmed mode is exclusive fullscreen.
/// Every operation of the engine requires and re-establishes
/// well-formedness, so this holds of every reachable state.
pub proof fn lemma_capture_mode_duality(s: SharedState)
    requires
        s.wf(),
    ensures
        (s.display_capture is Some) == (s.fullscreen matches Some(Fullscreen::Exclusive(_))),
{
}

/// Deferred-request collapse: while a transition is in flight, requests
/// for `a`, then `b`, then `c` issue no command and leave exactly `c` as
/// the deferred target — `b` is overwritten and never applied.  When the
/// transition ends, exactly one request is replayed, and it is the
/// request for `c` on the settled state.
pub proof fn lemma_deferred_request_collapse(
    s: SharedState,
    a: Option<Fullscreen>,
    b: Option<Fullscreen>,
    c: Option<Fullscreen>,
    entered: bool,
    os: OsSnapshot,
)
    requires
        s.wf(),
        s.in_fullscreen_transition,
        !s.is_simple_fullscreen,
    ensures
        ({
            let first = spec_set_fullscreen(s, a, os);
            let second = spec_set_fullscreen(first.state, b, os);
            let third = spec_set_fullscreen(second.state, c, os);
            let done = spec_did_end(third.state, entered, os);
            &&& first.commands.len() == 0
            &&& second.commands.len() == 0
            &&& third.commands.len() == 0
            &&& third.state.target_fullscreen == Some(c)
            &&& done.replay == Some(
                spec_set_fullscreen(
                    SharedState { target_fullscreen: None, ..spec_settled(third.state, entered) },
                    c,
                    os,
                ),
            )
            &&& done.state.target_fullscreen is None
        }),
{
}

/// Restoration fidelity: entering and then leaving borderless fullscreen
/// with no intervening chrome change leaves the stored resizable and
/// maximized attributes exactly as they were, and the restoration
/// reapplies a chrome mask whose resizable bit equals the stored
/// attribute.  The decorated attribute lives outside the shared state
/// and no fullscreen operation touches it (each method's contract keeps
/// `decorations` unchanged).
pub proof fn lemma_borderless_round_trip_restores_chrome(
    s: SharedState,
    m: Option<u32>,
    os_enter: OsSnapshot,
    os_mid: OsSnapshot,
    os_exit: OsSnapshot,
)
    requires
        s.wf(),
        !s.in_fullscreen_transition,
        !s.is_simple_fullscreen,
        s.fullscreen is None,
    ensures
        ({
            let enter = spec_set_fullscreen(s, Some(Fullscreen::Borderless(m)), os_enter);
            let settled = spec_did_end(enter.state, true, os_mid);
            let exit = spec_set_fullscreen(settled.state, None, os_exit);
            let done = spec_did_end(exit.state, false, os_exit);
            let restored_mask = spec_with_resizable(os_exit.style_mask, s.resizable);
            &&& done.state.resizable == s.resizable
            &&& done.state.maximized == s.maximized
            &&& done.state.fullscreen is None
            &&& done.commands.contains(
                Command::SetStyleMask { mask: restored_mask, sync: false },
            )
            &&& restored_mask.spec_has(MASK_RESIZABLE) == s.resizable
        }),
{
    let enter = spec_set_fullscreen(s, Some(Fullscreen::Borderless(m)), os_enter);
    let settled = spec_did_end(enter.state, true, os_mid);
    let exit = spec_set_fullscreen(settled.state, None, os_exit);
    let done = spec_did_end(exit.state, false, os_exit);
    let restored_mask = spec_with_resizable(os_exit.style_mask, s.resizable);
    assert(done.commands[0] == (Command::SetStyleMask { mask: restored_mask, sync: false }));
    lemma_with_resizable_sets_bit(os_exit.style_mask, s.resizable);
}

/// Cross-monitor move: a borderless request naming another monitor than
/// the one the window occupies issues exactly two commands — first the
/// relocation of the window's origin to that monitor's frame, then the
/// native toggle — so the toggle, which always targets the window's
/// current screen, lands on the requested monitor.
pub proof fn lemma_cross_monitor_move(s: SharedState, m2: u32, os: OsSnapshot)
    requires
        s.wf(),
        !s.in_fullscreen_transition,
        !s.is_simple_fullscreen,
        s.fullscreen is None,
        os.current_monitor != m2,
    ensures
        ({
            let step = spec_set_fullscreen(s, Some(Fullscreen::Borderless(Some(m2))), os);
            &&& step.commands.len() == 2
            &&& step.commands[0] == (Command::SetFrameTopLeft {
                x: os.monitor_frame.x,
                y: (os.monitor_frame.y + os.monitor_frame.h) as i64,
            })
            &&& step.commands[1] == Command::ToggleNativeFullscreen
            &&& step.state.in_fullscreen_transition
            &&& step.state.fullscreen == Some(Fullscreen::Borderless(Some(m2)))
        }),
{
}

/// Presentation-option round trip: leaving exclusive for borderless
/// fullscreen applies exactly the options saved before exclusive mode —
/// what the user had, not the exclusive defaults — and returning to
/// exclusive saves those same options again, bit for bit, so the next
/// exit restores them too.  The hypothesis on `os_back` says the shell
/// performed the restoration command before the second request.
pub proof fn lemma_presentation_options_round_trip(
    s: SharedState,
    vm: VideoMode,
    mb: Option<u32>,
    opts0: PresentationOptions,
    os_leave: OsSnapshot,
    os_back: OsSnapshot,
    cap: DisplayCapture,
)
    requires
        s.wf(),
        !s.in_fullscreen_transition,
        !s.is_simple_fullscreen,
        s.fullscreen == Some(Fullscreen::Exclusive(vm)),
        s.save_presentation_opts == Some(opts0),
        os_back.presentation_options == opts0,
        cap.display == vm.monitor,
    ensures
        ({
            let leave = spec_set_fullscreen(s, Some(Fullscreen::Borderless(mb)), os_leave);
            let back = spec_set_fullscreen(leave.state, Some(Fullscreen::Exclusive(vm)), os_back);
            let pending = PendingExclusive {
                mode: vm,
                prior: Some(Fullscreen::Borderless(mb)),
                opts_at_request: opts0,
                frame_at_request: os_back.frame,
            };
            let fin = spec_finish_exclusive(back.state, pending, Ok(cap));
            &&& leave.commands.contains(Command::SetPresentationOptions { opts: opts0 })
            &&& back.pending == Some(pending)
            &&& fin.error is None
            &&& fin.state.save_presentation_opts == Some(opts0)
            &&& fin.state.fullscreen == Some(Fullscreen::Exclusive(vm))
        }),
{
    let leave = spec_set_fullscreen(s, Some(Fullscreen::Borderless(mb)), os_leave);
    let moves = crate::model::spec_move_commands(
        Some(Fullscreen::Borderless(mb)),
        os_leave,
    );
    assert(leave.commands[moves.len() as int] == (Command::SetPresentationOptions {
        opts: opts0,
    }));
}

} // verus!

