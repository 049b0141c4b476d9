//! The overlay as a mathematical object: what it consists of, what holds of
//! it at all times, and what each event makes of it.

use crate::bridge::{EventView, MessageView};
use crate::geometry::Geometry;
use crate::input::{after_pointer_events, Capability, PointerEvent, KEYSYM_ESCAPE};
use crate::scale::{scaled, MAX_EXTENT, SCALE_UNIT};
use vstd::prelude::*;

verus! {

/// The extent taken in each direction where the compositor leaves the size
/// to the client.
pub const FALLBACK_EXTENT: u32 = 256;

/// Where the surface stands in its life.
#[derive(Clone, Copy, Debug, PartialEq, Eq, Structural)]
pub enum Phase {
    /// Made and set up, nothing committed yet.
    Unconfigured,
    /// Committed without a buffer; the compositor has yet to say where the
    /// surface goes.
    AwaitingFirstConfigure,
    /// Placed; frames are drawn.
    Live,
    /// Taken away by the compositor. Nothing follows.
    Closed,
}

/// The mathematical content of a [`SimpleLayer`](crate::layer::SimpleLayer).
pub ghost struct LayerState {
    pub pos: Geometry,
    pub phase: Phase,
    pub width: nat,
    pub height: nat,
    pub frame_requested: bool,
    pub shift: Option<nat>,
    pub prompt: Option<Seq<char>>,
    pub scale120: nat,
    pub exit_requested: bool,
    pub keyboard_focus: bool,
    pub has_keyboard: bool,
    pub has_pointer: bool,
}

/// The size that is stored for a size that the compositor suggests: the
/// fallback in both directions where it leaves either open, else the
/// suggestion as it stands.
pub open spec fn negotiated(width: nat, height: nat) -> (nat, nat) {
    if width == 0 || height == 0 {
        (FALLBACK_EXTENT as nat, FALLBACK_EXTENT as nat)
    } else {
        (width, height)
    }
}

impl LayerState {
    /// What holds of the overlay at all times: its geometry is well formed,
    /// its scale is positive, once placed its surface is not empty, and
    /// before it is placed no frame has been drawn.
    pub open spec fn wf(self) -> bool {
        &&& self.pos.wf()
        &&& self.width <= u32::MAX
        &&& self.height <= u32::MAX
        &&& self.shift matches Some(s) ==> s <= u32::MAX
        &&& 0 < self.scale120 <= u32::MAX
        &&& self.phase is Live ==> self.width > 0 && self.height > 0
        &&& self.frame_requested ==> self.phase is Live || self.phase is Closed
    }

    /// The overlay as it is made: sized as its geometry asks, at scale 1.0,
    /// idle, with no prompt to show.
    pub open spec fn initial(pos: Geometry) -> LayerState {
        LayerState {
            pos,
            phase: Phase::Unconfigured,
            width: pos.width(),
            height: pos.height(),
            frame_requested: false,
            shift: None,
            prompt: None,
            scale120: SCALE_UNIT as nat,
            exit_requested: false,
            keyboard_focus: false,
            has_keyboard: false,
            has_pointer: false,
        }
    }

    /// After the first commit, which carries no buffer.
    pub open spec fn initial_commit(self) -> LayerState {
        if self.phase is Unconfigured {
            LayerState { phase: Phase::AwaitingFirstConfigure, ..self }
        } else {
            self
        }
    }

    /// After the compositor has suggested a size. The first suggestion that
    /// follows the commit brings the surface to life.
    pub open spec fn configure(self, width: nat, height: nat) -> LayerState {
        LayerState {
            width: negotiated(width, height).0,
            height: negotiated(width, height).1,
            phase: if self.phase is AwaitingFirstConfigure {
                Phase::Live
            } else {
                self.phase
            },
            ..self
        }
    }

    /// After the compositor has taken the surface away.
    pub open spec fn closed(self) -> LayerState {
        LayerState { phase: Phase::Closed, ..self }
    }

    /// Whether a frame is to be drawn now: the surface is live, and the
    /// compositor is not still to call back for the frame before.
    pub open spec fn frame_due(self) -> bool {
        self.phase is Live && !self.frame_requested
    }

    /// After the compositor has called back for the next frame.
    pub open spec fn frame(self) -> LayerState {
        LayerState { frame_requested: false, ..self }
    }

    /// After a frame has been drawn and handed over with the request to be
    /// called back for the next: a running animation has moved on by one,
    /// around the width of the surface.
    pub open spec fn frame_drawn(self) -> LayerState {
        LayerState {
            frame_requested: true,
            shift: match self.shift {
                Some(s) => Some((((s + 1) as int) % (self.width as int)) as nat),
                None => None,
            },
            ..self
        }
    }

    /// After the compositor has called back `n` times and a frame was drawn
    /// each time, with nothing else in between.
    pub open spec fn frames_drawn(self, n: nat) -> LayerState
        decreases n,
    {
        if n == 0 {
            self
        } else {
            self.frames_drawn((n - 1) as nat).frame().frame_drawn()
        }
    }

    /// After a group of pointer events.
    pub open spec fn pointer_frame(self, events: Seq<PointerEvent>) -> LayerState {
        LayerState { shift: after_pointer_events(self.shift, events), ..self }
    }

    /// After a key has gone down.
    pub open spec fn press_key(self, keysym: u32) -> LayerState {
        if keysym == KEYSYM_ESCAPE {
            LayerState { exit_requested: true, ..self }
        } else {
            self
        }
    }

    /// After the keyboard's focus has come to a surface.
    pub open spec fn enter(self, on_surface: bool) -> LayerState {
        if on_surface {
            LayerState { keyboard_focus: true, ..self }
        } else {
            self
        }
    }

    /// After the keyboard's focus has left a surface.
    pub open spec fn leave(self, on_surface: bool) -> LayerState {
        if on_surface {
            LayerState { keyboard_focus: false, ..self }
        } else {
            self
        }
    }

    /// Whether a device that the seat now offers is still to be taken up.
    pub open spec fn lacks(self, capability: Capability) -> bool {
        match capability {
            Capability::Keyboard => !self.has_keyboard,
            Capability::Pointer => !self.has_pointer,
            Capability::Touch => false,
        }
    }

    /// Whether a device that the seat withdraws is held.
    pub open spec fn holds(self, capability: Capability) -> bool {
        match capability {
            Capability::Keyboard => self.has_keyboard,
            Capability::Pointer => self.has_pointer,
            Capability::Touch => false,
        }
    }

    /// After the seat has offered a device.
    pub open spec fn new_capability(self, capability: Capability) -> LayerState {
        match capability {
            Capability::Keyboard => LayerState { has_keyboard: true, ..self },
            Capability::Pointer => LayerState { has_pointer: true, ..self },
            Capability::Touch => self,
        }
    }

    /// After the seat has withdrawn a device.
    pub open spec fn remove_capability(self, capability: Capability) -> LayerState {
        match capability {
            Capability::Keyboard => LayerState { has_keyboard: false, ..self },
            Capability::Pointer => LayerState { has_pointer: false, ..self },
            Capability::Touch => self,
        }
    }

    /// The size to ask for at scale `scale120`, so that the buffer, drawn at
    /// the size of the geometry, covers the surface.
    pub open spec fn target_size(self, scale120: nat) -> (nat, nat) {
        (scaled(self.pos.width(), scale120), scaled(self.pos.height(), scale120))
    }

    /// Whether a preferred scale can be followed: it is positive, and the
    /// size to ask for is one that surface and viewport can carry.
    pub open spec fn accepts_scale(self, scale120: nat) -> bool {
        &&& scale120 > 0
        &&& self.target_size(scale120).0 <= MAX_EXTENT
        &&& self.target_size(scale120).1 <= MAX_EXTENT
    }

    /// After the compositor has named the scale it prefers.
    pub open spec fn preferred_scale(self, scale120: nat) -> LayerState {
        if self.accepts_scale(scale120) {
            LayerState { scale120, ..self }
        } else {
            self
        }
    }

    /// After the fingerprint service has spoken: a selected finger is the
    /// prompt to show, and a verification that is over ends the prompt.
    pub open spec fn apply_event(self, event: EventView) -> LayerState {
        match event {
            EventView::VerifyFingerSelected { finger_name } => LayerState {
                prompt: finger_name,
                ..self
            },
            EventView::VerifyStatus { result, done } => if done == Some(true) {
                LayerState { prompt: None, ..self }
            } else {
                self
            },
        }
    }

    /// After a message has come off the bus.
    pub open spec fn bus_message(self, msg: MessageView) -> LayerState {
        match msg.decode() {
            Some(event) => self.apply_event(event),
            None => self,
        }
    }

    /// Whether the main loop is to end.
    pub open spec fn should_exit(self) -> bool {
        self.phase is Closed || self.exit_requested
    }

    /// Whether two states agree in all that decides the next frame and the
    /// size to ask for: prompt, scale, size and animation.
    pub open spec fn shows_the_same_as(self, other: LayerState) -> bool {
        &&& self.prompt == other.prompt
        &&& self.scale120 == other.scale120
        &&& self.width == other.width
        &&& self.height == other.height
        &&& self.shift == other.shift
    }
}

/// Anything that can happen to the overlay.
pub ghost enum Event {
    /// The first commit was made.
    InitialCommit,
    /// The compositor suggested a size.
    Configure { width: nat, height: nat },
    /// The compositor took the surface away.
    Closed,
    /// The compositor called back for the next frame.
    Frame,
    /// A frame was drawn and handed over.
    FrameDrawn,
    /// A group of pointer events came in.
    PointerFrame { events: Seq<PointerEvent> },
    /// A key went down.
    PressKey { keysym: u32 },
    /// The keyboard's focus came to a surface.
    Enter { on_surface: bool },
    /// The keyboard's focus left a surface.
    Leave { on_surface: bool },
    /// The seat offered a device.
    NewCapability { capability: Capability },
    /// The seat withdrew a device.
    RemoveCapability { capability: Capability },
    /// The compositor named the scale it prefers.
    PreferredScale { scale120: nat },
    /// A message came off the bus.
    BusMessage { msg: MessageView },
}

impl Event {
    /// Whether the numbers that the event carries are such as the protocol
    /// can carry.
    pub open spec fn fits(self) -> bool {
        match self {
            Event::Configure { width, height } => width <= u32::MAX && height <= u32::MAX,
            Event::PreferredScale { scale120 } => scale120 <= u32::MAX,
            _ => true,
        }
    }
}

impl LayerState {
    /// Whether `event` can happen now: a frame is drawn only where one is
    /// due. Everything else can happen at any time.
    pub open spec fn allows(self, event: Event) -> bool {
        event is FrameDrawn ==> self.frame_due()
    }

    /// The overlay after `event`.
    pub open spec fn after(self, event: Event) -> LayerState {
        match event {
            Event::InitialCommit => self.initial_commit(),
            Event::Configure { width, height } => self.configure(width, height),
            Event::Closed => self.closed(),
            Event::Frame => self.frame(),
            Event::FrameDrawn => self.frame_drawn(),
            Event::PointerFrame { events } => self.pointer_frame(events),
            Event::PressKey { keysym } => self.press_key(keysym),
            Event::Enter { on_surface } => self.enter(on_surface),
            Event::Leave { on_surface } => self.leave(on_surface),
            Event::NewCapability { capability } => self.new_capability(capability),
            Event::RemoveCapability { capability } => self.remove_capability(capability),
            Event::PreferredScale { scale120 } => self.preferred_scale(scale120),
            Event::BusMessage { msg } => self.bus_message(msg),
        }
    }

    /// Whether the events of `history` can happen one after the other,
    /// starting now.
    pub open spec fn allows_all(self, history: Seq<Event>) -> bool
        decreases history.len(),
    {
        history.len() > 0 ==> {
            &&& self.allows_all(history.drop_last())
            &&& history.last().fits()
            &&& self.after_all(history.drop_last()).allows(history.last())
        }
    }

    /// The overlay after the events of `history`, one after the other.
    pub open spec fn after_all(self, history: Seq<Event>) -> LayerState
        decreases history.len(),
    {
        if history.len() == 0 {
            self
        } else {
            self.after_all(history.drop_last()).after(history.last())
        }
    }
}

} // verus!
