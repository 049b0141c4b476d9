//! The overlay itself: what it knows between two events, and how each event
//! changes it.
//!
//! Nothing here talks to the compositor or to the bus. Whoever does hands
//! each event to the method that stands for it, carries out what the method
//! asks for, and lends `draw` the buffer to paint.

use crate::bridge::{text_of, verify_status_msg, BusMessage, FprintEvent};
use crate::canvas::{
    layout_fits, lemma_frame_shows_rows, paint, painted, shows_rows, BufferLayout, Damage,
};
use crate::geometry::PositionInfo;
use crate::input::{after_pointer_events, Capability, PointerEvent, KEYSYM_ESCAPE};
use crate::scale::{scaled_extent, SCALE_UNIT};
use crate::state::{LayerState, Phase, FALLBACK_EXTENT};
use vstd::prelude::*;

verus! {

/// The overlay between two events: where its surface stands, what it is to
/// show, and what it has been told of its seat. Every change goes through a
/// method that stands for one event.
#[derive(Debug)]
pub struct SimpleLayer {
    pos: PositionInfo,
    phase: Phase,
    width: u32,
    height: u32,
    frame_requested: bool,
    shift: Option<u32>,
    prompt: Option<String>,
    scale120: u32,
    exit_requested: bool,
    keyboard_focus: bool,
    has_keyboard: bool,
    has_pointer: bool,
}

impl View for SimpleLayer {
    type V = LayerState;

    closed spec fn view(&self) -> LayerState {
        LayerState {
            pos: self.pos@,
            phase: self.phase,
            width: self.width as nat,
            height: self.height as nat,
            frame_requested: self.frame_requested,
            shift: match self.shift {
                Some(s) => Some(s as nat),
                None => None,
            },
            prompt: text_of(self.prompt),
            scale120: self.scale120 as nat,
            exit_requested: self.exit_requested,
            keyboard_focus: self.keyboard_focus,
            has_keyboard: self.has_keyboard,
            has_pointer: self.has_pointer,
        }
    }
}

impl SimpleLayer {
    /// Every value of this type is well formed.
    #[verifier::type_invariant]
    pub open spec fn inv(&self) -> bool {
        self@.wf()
    }

    /// The overlay for a bar at `pos`, before anything is committed.
    pub fn new(pos: PositionInfo) -> (r: SimpleLayer)
        ensures
            r@ == LayerState::initial(pos@),
    {
        proof {
            use_type_invariant(&pos);
        }
        let width: u32 = pos.win_width();
        let height: u32 = pos.win_height();
        SimpleLayer {
            pos,
            phase: Phase::Unconfigured,
            width,
            height,
            frame_requested: false,
            shift: None,
            prompt: None,
            scale120: SCALE_UNIT,
            exit_requested: false,
            keyboard_focus: false,
            has_keyboard: false,
            has_pointer: false,
        }
    }

    /// Notes the first commit, made without a buffer so that the compositor
    /// answers with a size.
    pub fn initial_commit(&mut self)
        ensures
            final(self)@ == old(self)@.initial_commit(),
    {
        proof {
            use_type_invariant(&*self);
        }
        if self.phase == Phase::Unconfigured {
            self.phase = Phase::AwaitingFirstConfigure;
        }
    }

    /// Takes the size that the compositor suggests. Where it leaves either
    /// extent open the surface is 256 by 256; any other suggestion is kept
    /// as it stands. Returns whether this was the first size since the
    /// commit: the first frame is then due at once, and later frames follow
    /// the compositor's frame callbacks.
    pub fn configure(&mut self, width: u32, height: u32) -> (first: bool)
        ensures
            final(self)@ == old(self)@.configure(width as nat, height as nat),
            first == (old(self)@.phase is AwaitingFirstConfigure),
            first ==> final(self)@.frame_due(),
            width == 0 || height == 0 ==> final(self)@.width == 256 && final(self)@.height == 256,
            width != 0 && height != 0 ==> final(self)@.width == width && final(self)@.height
                == height,
    {
        proof {
            use_type_invariant(&*self);
        }
        let first: bool = self.phase == Phase::AwaitingFirstConfigure;
        let fallback: bool = width == 0 || height == 0;
        let new_width: u32 = if fallback {
            FALLBACK_EXTENT
        } else {
            width
        };
        let new_height: u32 = if fallback {
            FALLBACK_EXTENT
        } else {
            height
        };
        self.width = new_width;
        self.height = new_height;
        if first {
            self.phase = Phase::Live;
        }
        first
    }

    /// Notes that the compositor has taken the surface away.
    pub fn closed(&mut self)
        ensures
            final(self)@ == old(self)@.closed(),
            final(self)@.should_exit(),
    {
        proof {
            use_type_invariant(&*self);
        }
        self.phase = Phase::Closed;
    }

    /// Whether frames are drawn: the surface is placed and not closed.
    pub fn is_live(&self) -> (r: bool)
        ensures
            r == (self@.phase is Live),
    {
        self.phase == Phase::Live
    }

    /// Whether a frame is to be drawn now.
    pub fn frame_due(&self) -> (r: bool)
        ensures
            r == self@.frame_due(),
    {
        self.phase == Phase::Live && !self.frame_requested
    }

    /// Notes that the compositor has called back for the next frame.
    /// Returns whether a frame is to be drawn in answer: one is, unless the
    /// surface was closed in the meantime.
    pub fn frame(&mut self) -> (draw: bool)
        ensures
            final(self)@ == old(self)@.frame(),
            draw == final(self)@.frame_due(),
            draw == (old(self)@.phase is Live),
    {
        proof {
            use_type_invariant(&*self);
        }
        self.frame_requested = false;
        self.phase == Phase::Live
    }

    /// The layout of the buffer that the next frame is drawn into, or
    /// nothing where the surface is too large for one.
    pub fn buffer_layout(&self) -> (r: Option<BufferLayout>)
        ensures
            r is Some <==> layout_fits(self@.width, self@.height),
            r matches Some(layout) ==> {
                &&& layout.width == self@.width
                &&& layout.height == self@.height
                &&& layout.stride == 4 * self@.width
                &&& layout.len == 4 * self@.width * self@.height
            },
    {
        BufferLayout::for_size(self.width, self.height)
    }

    /// Draws one frame into `canvas`, the buffer of the surface at its
    /// present size, and moves a running animation on by one. Returns what
    /// of the surface is to be marked as changed, which is all of it. The
    /// frame is to be handed over with the request to be called back for
    /// the next: until that call comes no other frame is due.
    ///
    /// Without a prompt the frame is clear. With one, the rows above the
    /// geometry's offset are clear and the rows from there on are white.
    /// How far the animation has moved does not show in the frame.
    pub fn draw(&mut self, canvas: &mut [u8]) -> (damage: Damage)
        requires
            old(self)@.frame_due(),
        ensures
            damage.x == 0 && damage.y == 0,
            damage.width == old(self)@.width && damage.height == old(self)@.height,
            final(canvas)@ == painted(
                old(canvas)@,
                old(self)@.width,
                old(self)@.pos.offset,
                old(self)@.prompt is Some,
            ),
            old(canvas)@.len() == 4 * old(self)@.width * old(self)@.height ==> shows_rows(
                final(canvas)@,
                old(self)@.width,
                old(self)@.height,
                old(self)@.pos.offset,
                old(self)@.prompt is Some,
            ),
            final(self)@ == old(self)@.frame_drawn(),
            !final(self)@.frame_due(),
    {
        proof {
            use_type_invariant(&*self);
        }
        paint(canvas, self.width, self.pos.offset(), self.prompt.is_some());
        proof {
            if old(canvas)@.len() == 4 * self@.width * self@.height {
                lemma_frame_shows_rows(
                    canvas@,
                    self@.width,
                    self@.height,
                    self@.pos.offset,
                    self@.prompt is Some,
                );
            }
        }
        match self.shift {
            Some(s) => {
                let next: u64 = (s as u64 + 1) % (self.width as u64);
                self.shift = Some(next as u32);
            },
            None => {},
        }
        self.frame_requested = true;
        Damage { x: 0, y: 0, width: self.width, height: self.height }
    }

    /// Takes a group of pointer events in order: each press of a button
    /// over the overlay starts the animation where it is idle and stops it
    /// where it runs. Events over other surfaces, and events of other
    /// kinds, change nothing.
    pub fn pointer_frame(&mut self, events: &[PointerEvent])
        ensures
            final(self)@ == old(self)@.pointer_frame(events@),
    {
        proof {
            use_type_invariant(&*self);
        }
        let n: usize = events.len();
        let mut shift: Option<u32> = self.shift;
        let mut i: usize = 0;
        while i < n
            invariant
                i <= n,
                n == events@.len(),
                match shift {
                    Some(s) => Some(s as nat),
                    None => None,
                } == after_pointer_events(self@.shift, events@.take(i as int)),
            decreases n - i,
        {
            assert(events@.take(i + 1).drop_last() =~= events@.take(i as int));
            if events[i].is_press_here() {
                shift = match shift {
                    Some(_) => None,
                    None => Some(0),
                };
            }
            i = i + 1;
        }
        assert(events@.take(n as int) =~= events@);
        self.shift = shift;
    }

    /// Takes a key press: Escape asks for the program to end.
    pub fn press_key(&mut self, keysym: u32)
        ensures
            final(self)@ == old(self)@.press_key(keysym),
            keysym == KEYSYM_ESCAPE ==> final(self)@.should_exit(),
    {
        proof {
            use_type_invariant(&*self);
        }
        if keysym == KEYSYM_ESCAPE {
            self.exit_requested = true;
        }
    }

    /// Notes that the keyboard's focus has come to a surface, which is the
    /// overlay's own where `on_surface` holds.
    pub fn enter(&mut self, on_surface: bool)
        ensures
            final(self)@ == old(self)@.enter(on_surface),
    {
        proof {
            use_type_invariant(&*self);
        }
        if on_surface {
            self.keyboard_focus = true;
        }
    }

    /// Notes that the keyboard's focus has left a surface, which is the
    /// overlay's own where `on_surface` holds.
    pub fn leave(&mut self, on_surface: bool)
        ensures
            final(self)@ == old(self)@.leave(on_surface),
    {
        proof {
            use_type_invariant(&*self);
        }
        if on_surface {
            self.keyboard_focus = false;
        }
    }

    /// Notes that the seat offers a device. Returns whether the device is
    /// to be taken up now: it is a keyboard or a pointer, and none of its
    /// kind is held yet.
    pub fn new_capability(&mut self, capability: Capability) -> (acquire: bool)
        ensures
            acquire == old(self)@.lacks(capability),
            final(self)@ == old(self)@.new_capability(capability),
    {
        proof {
            use_type_invariant(&*self);
        }
        match capability {
            Capability::Keyboard => {
                let acquire: bool = !self.has_keyboard;
                self.has_keyboard = true;
                acquire
            },
            Capability::Pointer => {
                let acquire: bool = !self.has_pointer;
                self.has_pointer = true;
                acquire
            },
            Capability::Touch => false,
        }
    }

    /// Notes that the seat withdraws a device. Returns whether the device
    /// held is to be released now.
    pub fn remove_capability(&mut self, capability: Capability) -> (release: bool)
        ensures
            release == old(self)@.holds(capability),
            final(self)@ == old(self)@.remove_capability(capability),
    {
        proof {
            use_type_invariant(&*self);
        }
        match capability {
            Capability::Keyboard => {
                let release: bool = self.has_keyboard;
                self.has_keyboard = false;
                release
            },
            Capability::Pointer => {
                let release: bool = self.has_pointer;
                self.has_pointer = false;
                release
            },
            Capability::Touch => false,
        }
    }

    /// Takes the scale that the compositor prefers, in 120ths. Returns the
    /// size to ask for, as the surface's size and as the viewport's
    /// destination: the geometry's size divided by the scale, rounded up.
    /// A scale of zero, or one so small that the size cannot be carried, is
    /// passed over.
    pub fn preferred_scale(&mut self, scale120: u32) -> (r: Option<(u32, u32)>)
        ensures
            r is Some <==> old(self)@.accepts_scale(scale120 as nat),
            r matches Some(size) ==> size.0 == old(self)@.target_size(scale120 as nat).0 && size.1
                == old(self)@.target_size(scale120 as nat).1,
            final(self)@ == old(self)@.preferred_scale(scale120 as nat),
    {
        proof {
            use_type_invariant(&*self);
        }
        let width: Option<u32> = scaled_extent(self.pos.win_width(), scale120);
        let height: Option<u32> = scaled_extent(self.pos.win_height(), scale120);
        match (width, height) {
            (Some(width), Some(height)) => {
                self.scale120 = scale120;
                Some((width, height))
            },
            _ => None,
        }
    }

    /// Takes what the fingerprint service has told: a selected finger is
    /// the prompt to show from the next frame on, and a verification that
    /// is over ends the prompt.
    pub fn apply_event(&mut self, event: FprintEvent)
        ensures
            final(self)@ == old(self)@.apply_event(event@),
    {
        proof {
            use_type_invariant(&*self);
        }
        match event {
            FprintEvent::VerifyFingerSelected { finger_name } => {
                self.prompt = finger_name;
            },
            FprintEvent::VerifyStatus { result: _, done } => {
                match done {
                    Some(true) => {
                        self.prompt = None;
                    },
                    _ => {},
                }
            },
        }
    }

    /// Takes a message off the bus: the event it stands for is applied, and
    /// a message that stands for none changes nothing.
    pub fn bus_message(&mut self, msg: &BusMessage)
        ensures
            final(self)@ == old(self)@.bus_message(msg@),
    {
        match verify_status_msg(msg) {
            Some(event) => self.apply_event(event),
            None => {},
        }
    }

    /// Ends one turn of the main loop, after the compositor's events have
    /// been handed over: takes the one message, if any, that the bus had
    /// waiting, and returns whether the loop is to end.
    pub fn end_turn(&mut self, pending: Option<&BusMessage>) -> (exit: bool)
        ensures
            final(self)@ == match pending {
                Some(msg) => old(self)@.bus_message(msg@),
                None => old(self)@,
            },
            exit == final(self)@.should_exit(),
            exit == old(self)@.should_exit(),
    {
        match pending {
            Some(msg) => self.bus_message(msg),
            None => {},
        }
        self.should_exit()
    }

    /// Whether the main loop is to end: the surface is closed, or Escape
    /// was pressed.
    pub fn should_exit(&self) -> (r: bool)
        ensures
            r == self@.should_exit(),
    {
        self.phase == Phase::Closed || self.exit_requested
    }

    /// The geometry that the overlay was made with.
    pub fn pos(&self) -> (r: PositionInfo)
        ensures
            r@ == self@.pos,
    {
        self.pos
    }

    /// Where the surface stands in its life.
    pub fn phase(&self) -> (r: Phase)
        ensures
            r == self@.phase,
    {
        self.phase
    }

    /// The width of the surface as last negotiated.
    pub fn width(&self) -> (r: u32)
        ensures
            r == self@.width,
    {
        self.width
    }

    /// The height of the surface as last negotiated.
    pub fn height(&self) -> (r: u32)
        ensures
            r == self@.height,
    {
        self.height
    }

    /// How far a running animation has moved; nothing while it is idle.
    pub fn shift(&self) -> (r: Option<u32>)
        ensures
            match r {
                Some(s) => self@.shift == Some(s as nat),
                None => self@.shift is None,
            },
    {
        self.shift
    }

    /// The finger that the prompt asks for; nothing while no prompt shows.
    pub fn prompt(&self) -> (r: Option<&str>)
        ensures
            match r {
                Some(name) => self@.prompt == Some(name@),
                None => self@.prompt is None,
            },
    {
        match &self.prompt {
            Some(name) => Some(name.as_str()),
            None => None,
        }
    }

    /// The scale last taken from the compositor, in 120ths.
    pub fn scale120(&self) -> (r: u32)
        ensures
            r == self@.scale120,
            r > 0,
    {
        proof {
            use_type_invariant(self);
        }
        self.scale120
    }

    /// Whether Escape was pressed.
    pub fn exit_requested(&self) -> (r: bool)
        ensures
            r == self@.exit_requested,
    {
        self.exit_requested
    }

    /// Whether the keyboard's focus is on the overlay.
    pub fn keyboard_focus(&self) -> (r: bool)
        ensures
            r == self@.keyboard_focus,
    {
        self.keyboard_focus
    }

    /// Whether a keyboard is held.
    pub fn has_keyboard(&self) -> (r: bool)
        ensures
            r == self@.has_keyboard,
    {
        self.has_keyboard
    }

    /// Whether a pointer is held.
    pub fn has_pointer(&self) -> (r: bool)
        ensures
            r == self@.has_pointer,
    {
        self.has_pointer
    }
}

} // verus!
