//! Reading the fingerprint service's signals off the message bus.
//!
//! Of all that travels on the bus only two signals of one interface matter
//! here: the one that names the finger to present, and the one that reports
//! how a verification went. Everything else is passed over in silence.

use vstd::prelude::*;

verus! {

/// The interface whose signals drive the prompt.
pub const FPRINT_INTERFACE: &'static str = "net.reactivated.Fprint.Device";

/// The signal that names the finger to present.
pub const FINGER_SELECTED: &'static str = "VerifyFingerSelected";

/// The signal that reports how a verification went.
pub const VERIFY_STATUS: &'static str = "VerifyStatus";

/// How long the main loop waits for a message in each of its turns, in
/// milliseconds.
pub const BUS_POLL_MS: u32 = 10;

/// The four kinds of message that travel on the bus.
#[derive(Clone, Copy, Debug, PartialEq, Eq, Structural)]
pub enum MessageType {
    MethodCall,
    MethodReturn,
    Error,
    Signal,
}

/// One argument of a message, as far as this bridge tells arguments apart.
#[derive(Debug, PartialEq, Eq)]
pub enum BusArg {
    Str(String),
    Bool(bool),
    /// An argument of any other type.
    Other,
}

/// The mathematical content of a [`BusArg`].
pub ghost enum ArgView {
    Str(Seq<char>),
    Bool(bool),
    Other,
}

impl View for BusArg {
    type V = ArgView;

    open spec fn view(&self) -> ArgView {
        match self {
            BusArg::Str(s) => ArgView::Str(s@),
            BusArg::Bool(b) => ArgView::Bool(*b),
            BusArg::Other => ArgView::Other,
        }
    }
}

/// A message taken off the bus.
#[derive(Debug, PartialEq, Eq)]
pub struct BusMessage {
    pub msg_type: MessageType,
    pub interface: Option<String>,
    pub member: Option<String>,
    pub args: Vec<BusArg>,
}

/// The mathematical content of a [`BusMessage`].
pub ghost struct MessageView {
    pub msg_type: MessageType,
    pub interface: Option<Seq<char>>,
    pub member: Option<Seq<char>>,
    pub args: Seq<ArgView>,
}

/// The text of an optional string.
pub open spec fn text_of(s: Option<String>) -> Option<Seq<char>> {
    match s {
        Some(s) => Some(s@),
        None => None,
    }
}

impl View for BusMessage {
    type V = MessageView;

    open spec fn view(&self) -> MessageView {
        MessageView {
            msg_type: self.msg_type,
            interface: text_of(self.interface),
            member: text_of(self.member),
            args: Seq::new(self.args@.len(), |i: int| self.args@[i]@),
        }
    }
}

/// What the fingerprint service tells the prompt.
#[derive(Debug, PartialEq, Eq)]
pub enum FprintEvent {
    VerifyFingerSelected { finger_name: Option<String> },
    VerifyStatus { result: Option<String>, done: Option<bool> },
}

/// The mathematical content of a [`FprintEvent`].
pub ghost enum EventView {
    VerifyFingerSelected { finger_name: Option<Seq<char>> },
    VerifyStatus { result: Option<Seq<char>>, done: Option<bool> },
}

impl View for FprintEvent {
    type V = EventView;

    open spec fn view(&self) -> EventView {
        match self {
            FprintEvent::VerifyFingerSelected { finger_name } => EventView::VerifyFingerSelected {
                finger_name: text_of(*finger_name),
            },
            FprintEvent::VerifyStatus { result, done } => EventView::VerifyStatus {
                result: text_of(*result),
                done: *done,
            },
        }
    }
}

impl MessageView {
    /// Whether this is a signal of the fingerprint interface.
    pub open spec fn is_fprint_signal(self) -> bool {
        self.msg_type is Signal && self.interface == Some(FPRINT_INTERFACE@)
    }

    /// The event that a message stands for, if it stands for one.
    ///
    /// The finger signal carries the finger's name as its first argument;
    /// the status signal carries the result's name and then whether the
    /// verification is over. Arguments behind those are not looked at. A
    /// signal whose arguments are missing or of another type stands for no
    /// event, as does any message that is not one of these two signals.
    pub open spec fn decode(self) -> Option<EventView> {
        if !self.is_fprint_signal() {
            None
        } else if self.member == Some(FINGER_SELECTED@) {
            if self.args.len() >= 1 && self.args[0] is Str {
                Some(EventView::VerifyFingerSelected { finger_name: Some(self.args[0]->Str_0) })
            } else {
                None
            }
        } else if self.member == Some(VERIFY_STATUS@) {
            if self.args.len() >= 2 && self.args[0] is Str && self.args[1] is Bool {
                Some(
                    EventView::VerifyStatus {
                        result: Some(self.args[0]->Str_0),
                        done: Some(self.args[1]->Bool_0),
                    },
                )
            } else {
                None
            }
        } else {
            None
        }
    }
}

/// Whether `s` holds the text `want`.
fn holds_text(s: &Option<String>, want: &str) -> (r: bool)
    ensures
        r == (text_of(*s) == Some(want@)),
{
    match s {
        Some(s) => {
            let want: String = want.to_owned();
            *s == want
        },
        None => false,
    }
}

/// Decodes a message off the bus into the event it stands for.
pub fn verify_status_msg(msg: &BusMessage) -> (r: Option<FprintEvent>)
    ensures
        match r {
            Some(event) => msg@.decode() == Some(event@),
            None => msg@.decode() is None,
        },
        r is Some ==> msg@.is_fprint_signal(),
{
    if msg.msg_type != MessageType::Signal {
        return None;
    }
    if !holds_text(&msg.interface, FPRINT_INTERFACE) {
        return None;
    }
    if holds_text(&msg.member, FINGER_SELECTED) {
        if msg.args.len() < 1 {
            return None;
        }
        match &msg.args[0] {
            BusArg::Str(name) => Some(
                FprintEvent::VerifyFingerSelected { finger_name: Some(name.clone()) },
            ),
            _ => None,
        }
    } else if holds_text(&msg.member, VERIFY_STATUS) {
        if msg.args.len() < 2 {
            return None;
        }
        match (&msg.args[0], &msg.args[1]) {
            (BusArg::Str(result), BusArg::Bool(done)) => Some(
                FprintEvent::VerifyStatus { result: Some(result.clone()), done: Some(*done) },
            ),
            _ => None,
        }
    } else {
        None
    }
}

/// A message of any interface but the fingerprint service's stands for no
/// event, whatever its member and its arguments.
pub proof fn lemma_other_interface_ignored(msg: MessageView)
    requires
        msg.interface != Some(FPRINT_INTERFACE@),
    ensures
        msg.decode() is None,
{
}

/// The bus's own interface is not the fingerprint service's: none of its
/// signals stands for an event.
pub proof fn lemma_bus_interface_ignored(msg: MessageView)
    requires
        msg.interface == Some("org.freedesktop.DBus"@),
    ensures
        msg.decode() is None,
{
    reveal_strlit("org.freedesktop.DBus");
    reveal_strlit("net.reactivated.Fprint.Device");
    assert("org.freedesktop.DBus"@.len() != FPRINT_INTERFACE@.len());
}

/// Only signals stand for events.
pub proof fn lemma_only_signals_decoded(msg: MessageView)
    requires
        !(msg.msg_type is Signal),
    ensures
        msg.decode() is None,
{
}

} // verus!
