//! What holds of the overlay whatever happens to it.

use crate::bridge::{ArgView, MessageView, FINGER_SELECTED, VERIFY_STATUS};
use crate::geometry::Geometry;
use crate::input::lemma_presses_decide;
use crate::state::{Event, LayerState};
use vstd::prelude::*;

verus! {

/// A size left open in either direction is stored as 256 by 256, and any
/// other size as it stands.
pub proof fn lemma_configure_stores_size(state: LayerState, width: nat, height: nat)
    ensures
        width == 0 || height == 0 ==> state.configure(width, height).width == 256
            && state.configure(width, height).height == 256,
        width != 0 && height != 0 ==> state.configure(width, height).width == width
            && state.configure(width, height).height == height,
{
}

/// The same size suggested twice over leaves the overlay as the first
/// suggestion left it.
pub proof fn lemma_configure_idempotent(state: LayerState, width: nat, height: nat)
    ensures
        state.configure(width, height).configure(width, height) == state.configure(width, height),
{
}

/// Only the first size that follows the commit brings the surface to life:
/// whatever the overlay was, after one suggestion it no longer waits for
/// its first, so that no later one asks for the first frame again.
pub proof fn lemma_first_configure_once(state: LayerState, width: nat, height: nat)
    ensures
        !(state.configure(width, height).phase is AwaitingFirstConfigure),
        state.phase is AwaitingFirstConfigure ==> state.configure(width, height).phase is Live,
        state.phase is Live ==> state.configure(width, height).phase is Live,
{
}

/// A stored size is never empty, so a live surface always has pixels.
pub proof fn lemma_configured_size_not_empty(state: LayerState, width: nat, height: nat)
    ensures
        state.configure(width, height).width > 0,
        state.configure(width, height).height > 0,
{
}

/// Every event that can happen leaves a well-formed overlay well formed.
pub proof fn lemma_event_keeps_wf(state: LayerState, event: Event)
    requires
        state.wf(),
        event.fits(),
        state.allows(event),
    ensures
        state.after(event).wf(),
{
    match event {
        Event::PointerFrame { events } => {
            lemma_presses_decide(state.shift, events);
        },
        _ => {},
    }
}

/// The overlay is well formed when it is made and stays so through
/// everything that can happen to it.
pub proof fn lemma_history_keeps_wf(pos: Geometry, history: Seq<Event>)
    requires
        pos.wf(),
        LayerState::initial(pos).allows_all(history),
    ensures
        LayerState::initial(pos).after_all(history).wf(),
    decreases history.len(),
{
    if history.len() > 0 {
        lemma_history_keeps_wf(pos, history.drop_last());
        lemma_event_keeps_wf(
            LayerState::initial(pos).after_all(history.drop_last()),
            history.last(),
        );
    }
}

/// Nothing brings a closed surface back: whatever follows, the overlay
/// stays closed.
pub proof fn lemma_closed_is_terminal(state: LayerState, history: Seq<Event>)
    requires
        state.phase is Closed,
    ensures
        state.after_all(history).phase is Closed,
        state.after_all(history).should_exit(),
        !state.after_all(history).frame_due(),
    decreases history.len(),
{
    if history.len() > 0 {
        lemma_closed_is_terminal(state, history.drop_last());
    }
}

/// A request to end the program stays in force whatever follows.
pub proof fn lemma_exit_is_kept(state: LayerState, history: Seq<Event>)
    requires
        state.should_exit(),
    ensures
        state.after_all(history).should_exit(),
    decreases history.len(),
{
    if history.len() > 0 {
        lemma_exit_is_kept(state, history.drop_last());
    }
}

/// The geometry is fixed once the overlay is made: nothing that happens
/// changes it.
pub proof fn lemma_geometry_is_fixed(state: LayerState, history: Seq<Event>)
    ensures
        state.after_all(history).pos == state.pos,
    decreases history.len(),
{
    if history.len() > 0 {
        lemma_geometry_is_fixed(state, history.drop_last());
    }
}

/// Each part of what is shown has one master. Only the bus changes the
/// prompt, and it changes nothing else; only the compositor's preferred
/// scale changes the scale; only suggested sizes change the size, and with
/// it at most the phase; only presses and frames move the animation.
pub proof fn lemma_each_part_has_one_master(state: LayerState, event: Event)
    ensures
        match event {
            Event::BusMessage { msg } => state.after(event) == (LayerState {
                prompt: state.after(event).prompt,
                ..state
            }),
            Event::PreferredScale { scale120 } => state.after(event) == (LayerState {
                scale120: state.after(event).scale120,
                ..state
            }),
            Event::Configure { width, height } => state.after(event) == (LayerState {
                width: state.after(event).width,
                height: state.after(event).height,
                phase: state.after(event).phase,
                ..state
            }),
            Event::PointerFrame { events } => state.after(event) == (LayerState {
                shift: state.after(event).shift,
                ..state
            }),
            Event::FrameDrawn => state.after(event) == (LayerState {
                shift: state.after(event).shift,
                frame_requested: true,
                ..state
            }),
            _ => state.after(event).shows_the_same_as(state),
        },
{
}

/// Frames and the compositor's calls take turns: once a frame is drawn no
/// other is due until the compositor has called back, and then one is due
/// again.
pub proof fn lemma_one_frame_in_flight(state: LayerState)
    requires
        state.frame_due(),
    ensures
        !state.frame_drawn().frame_due(),
        state.frame_drawn().frame().frame_due(),
{
}

/// A message that is no signal of the fingerprint interface changes nothing,
/// whatever its member and its arguments.
pub proof fn lemma_foreign_message_changes_nothing(state: LayerState, msg: MessageView)
    requires
        !msg.is_fprint_signal(),
    ensures
        state.bus_message(msg) == state,
{
}

/// The signal that names a finger makes that finger the prompt, and the
/// signal that reports a verification as over ends the prompt, whatever
/// the overlay showed before. A verification that goes on changes nothing.
pub proof fn lemma_signals_set_the_prompt(state: LayerState, msg: MessageView)
    requires
        msg.is_fprint_signal(),
    ensures
        msg.member == Some(FINGER_SELECTED@) && msg.args.len() >= 1 && msg.args[0] is Str
            ==> state.bus_message(msg).prompt == Some(msg.args[0]->Str_0),
        msg.member == Some(VERIFY_STATUS@) && msg.args.len() >= 2 && msg.args[0] is Str
            && msg.args[1] == ArgView::Bool(true) ==> state.bus_message(msg).prompt is None,
        msg.member == Some(VERIFY_STATUS@) && msg.args.len() >= 2 && msg.args[0] is Str
            && msg.args[1] == ArgView::Bool(false) ==> state.bus_message(msg) == state,
{
    reveal_strlit("VerifyFingerSelected");
    reveal_strlit("VerifyStatus");
    assert(FINGER_SELECTED@.len() != VERIFY_STATUS@.len());
}

/// An animation that runs while `n` frames are drawn on a surface of
/// unchanged width has moved on by `n`, around that width. An idle
/// animation stays idle, and nothing else changes but that the compositor
/// is to call back once more.
pub proof fn lemma_animation_after_frames(state: LayerState, n: nat)
    requires
        state.width > 0,
    ensures
        state.frames_drawn(n) == (LayerState {
            frame_requested: n > 0 || state.frame_requested,
            shift: match state.shift {
                Some(s) => if n == 0 {
                    Some(s)
                } else {
                    Some((((s + n) as int) % (state.width as int)) as nat)
                },
                None => None,
            },
            ..state
        }),
    decreases n,
{
    if n > 0 {
        let m = (n - 1) as nat;
        lemma_animation_after_frames(state, m);
        match state.shift {
            Some(s) => {
                let w = state.width as int;
                let a = (s + m) as int;
                if m > 0 {
                    assert(((a % w) + 1) % w == (a + 1) % w) by (nonlinear_arith)
                        requires
                            w > 0,
                            a >= 0,
                    ;
                }
            },
            None => {},
        }
    }
}

} // verus!
