//! The listener and the connection it serves, as a state machine: each
//! event that the network brings moves it on and yields the actions to
//! perform before the next event is awaited.
use vstd::prelude::*;
use vstd::utf8::{valid_utf8, decode_utf8};
use crate::actuator::Action;
use crate::interpreter::{message_actions, plan_read};

verus! {

/// The TCP port on which the device listens.
pub const PORT: u16 = 80;

/// The size in bytes of the buffer that one read fills.
pub const BUFFER_SIZE: usize = 4096;

/// Seconds without a completed read after which a connection's read fails.
pub const READ_TIMEOUT_SECS: u64 = 60;

/// Where the device stands between two events.
#[derive(Clone, Copy, Debug, PartialEq, Eq, Structural)]
pub enum Session {
    /// No client: the LED is low and a connection is awaited.
    Listening,
    /// A client is connected and its next message is awaited.
    Serving,
}

/// What the network reports after the device last waited on it.
#[derive(Clone, Debug)]
pub enum Event {
    /// A client connected.
    Accepted,
    /// Waiting for a client failed.
    AcceptFailed,
    /// A read on the connection completed with these bytes; none means the
    /// client closed its side.
    Received(Vec<u8>),
    /// A read on the connection failed, or timed out.
    ReadFailed,
}

/// The state after an event, and the actions to perform on the way.
pub struct Step {
    pub next: Session,
    pub actions: Vec<Action>,
}

/// The actions that end a connection and return to listening.
pub open spec fn teardown_actions() -> Seq<Action> {
    seq![Action::Close, Action::SetPin(false)]
}

/// The state that follows an event.
pub open spec fn next_session(s: Session, e: Event) -> Session {
    match (s, e) {
        (Session::Listening, Event::Accepted) => Session::Serving,
        (Session::Serving, Event::Received(b)) => {
            if b@.len() > 0 && valid_utf8(b@) {
                Session::Serving
            } else {
                Session::Listening
            }
        },
        (Session::Serving, Event::ReadFailed) => Session::Listening,
        _ => s,
    }
}

/// The actions that an event gives. Accepting a client lights the LED; a
/// failed accept keeps it low and waits again. On a connection, an empty
/// read, a failed read or bytes that are not UTF-8 close it; any other read
/// is one message, played and answered. An event that cannot come in the
/// current state gives nothing.
pub open spec fn step_actions(s: Session, e: Event) -> Seq<Action> {
    match (s, e) {
        (Session::Listening, Event::Accepted) => seq![Action::SetPin(true)],
        (Session::Listening, Event::AcceptFailed) => seq![Action::SetPin(false)],
        (Session::Serving, Event::Received(b)) => {
            if b@.len() > 0 && valid_utf8(b@) {
                message_actions(decode_utf8(b@))
            } else {
                teardown_actions()
            }
        },
        (Session::Serving, Event::ReadFailed) => teardown_actions(),
        _ => seq![],
    }
}

/// The state in which the device starts, and what it does first: the LED
/// goes low before the first client is awaited.
pub fn start() -> (r: Step)
    ensures
        r.next == Session::Listening,
        r.actions@ == seq![Action::SetPin(false)],
{
    Step { next: Session::Listening, actions: vec![Action::SetPin(false)] }
}

/// The actions that close the connection and go back to listening.
fn teardown() -> (r: Vec<Action>)
    ensures
        r@ == teardown_actions(),
{
    vec![Action::Close, Action::SetPin(false)]
}

/// Moves the device on by one event.
pub fn step(s: Session, e: &Event) -> (r: Step)
    ensures
        r.next == next_session(s, *e),
        r.actions@ == step_actions(s, *e),
{
    match (s, e) {
        (Session::Listening, Event::Accepted) => {
            Step { next: Session::Serving, actions: vec![Action::SetPin(true)] }
        },
        (Session::Listening, Event::AcceptFailed) => {
            Step { next: Session::Listening, actions: vec![Action::SetPin(false)] }
        },
        (Session::Serving, Event::Received(b)) => {
            if b.len() == 0 {
                Step { next: Session::Listening, actions: teardown() }
            } else {
                match plan_read(b.as_slice()) {
                    Some(actions) => Step { next: Session::Serving, actions },
                    None => Step { next: Session::Listening, actions: teardown() },
                }
            }
        },
        (Session::Serving, Event::ReadFailed) => {
            Step { next: Session::Listening, actions: teardown() }
        },
        _ => Step { next: s, actions: Vec::new() },
    }
}

} // verus!
