//! What the seat reports: keys, pointer events and the devices themselves.

use vstd::prelude::*;

verus! {

/// The key symbol of the Escape key.
pub const KEYSYM_ESCAPE: u32 = 0xff1b;

/// A kind of input device that a seat may offer.
#[derive(Clone, Copy, Debug, PartialEq, Eq, Structural)]
pub enum Capability {
    Keyboard,
    Pointer,
    Touch,
}

/// What happened to the pointer.
#[derive(Clone, Copy, Debug, PartialEq, Eq, Structural)]
pub enum PointerEventKind {
    Enter,
    Leave,
    Motion,
    Press,
    Release,
    Axis,
}

/// One pointer event, and whether it happened over the overlay's own surface.
#[derive(Clone, Copy, Debug, PartialEq, Eq, Structural)]
pub struct PointerEvent {
    pub on_surface: bool,
    pub kind: PointerEventKind,
}

impl PointerEvent {
    /// Whether a button went down over the overlay.
    pub open spec fn spec_is_press_here(self) -> bool {
        self.on_surface && self.kind is Press
    }

    /// Whether a button went down over the overlay.
    #[verifier::when_used_as_spec(spec_is_press_here)]
    pub fn is_press_here(self) -> (r: bool)
        ensures
            r == self.spec_is_press_here(),
    {
        self.on_surface && self.kind == PointerEventKind::Press
    }
}

/// How many of `events` are button presses over the overlay.
pub open spec fn presses(events: Seq<PointerEvent>) -> nat
    decreases events.len(),
{
    if events.len() == 0 {
        0
    } else {
        presses(events.drop_last()) + if events.last().is_press_here() {
            1nat
        } else {
            0nat
        }
    }
}

/// A press starts the animation where it is idle and stops it where it runs.
pub open spec fn toggled(shift: Option<nat>) -> Option<nat> {
    if shift is Some {
        None
    } else {
        Some(0nat)
    }
}

/// The animation offset after `events`, taken in order, starting from `shift`.
pub open spec fn after_pointer_events(shift: Option<nat>, events: Seq<PointerEvent>) -> Option<nat>
    decreases events.len(),
{
    if events.len() == 0 {
        shift
    } else {
        let before = after_pointer_events(shift, events.drop_last());
        if events.last().is_press_here() {
            toggled(before)
        } else {
            before
        }
    }
}

/// Only the number of presses matters: none leaves the offset alone, an odd
/// number flips between idle and running, and an even number restarts a
/// running animation at zero and leaves an idle one idle.
pub proof fn lemma_presses_decide(shift: Option<nat>, events: Seq<PointerEvent>)
    ensures
        after_pointer_events(shift, events) == if presses(events) == 0 {
            shift
        } else if presses(events) % 2 == 1 {
            toggled(shift)
        } else {
            toggled(toggled(shift))
        },
    decreases events.len(),
{
    if events.len() > 0 {
        lemma_presses_decide(shift, events.drop_last());
    }
}

} // verus!
