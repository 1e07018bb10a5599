//! The actions that the device performs, and the actions of each symbol.
use vstd::prelude::*;
use crate::symbol::{Symbol, STANDARD_DURATION, MEDIUM_DURATION, WORD_GAP_DURATION};
use crate::reply::Response;

verus! {

/// One thing for the device to do, in order.
#[derive(Clone, Copy, Debug, PartialEq, Eq, Structural)]
pub enum Action {
    /// Drive the LED pin high (`true`) or low (`false`).
    SetPin(bool),
    /// Wait this many milliseconds, with the pin left as it is.
    Pause(u64),
    /// Write the reply for a response to the client.
    Reply(Response),
    /// Close the current connection.
    Close,
}

/// The actions that play a recognised symbol; none for an unknown one.
pub open spec fn symbol_actions(s: Symbol) -> Seq<Action> {
    match s {
        Symbol::Dit => seq![
            Action::SetPin(true),
            Action::Pause(STANDARD_DURATION),
            Action::SetPin(false),
            Action::Pause(STANDARD_DURATION),
        ],
        Symbol::Dah => seq![
            Action::SetPin(true),
            Action::Pause(MEDIUM_DURATION),
            Action::SetPin(false),
            Action::Pause(STANDARD_DURATION),
        ],
        Symbol::LetterGap => seq![Action::Pause(MEDIUM_DURATION)],
        Symbol::WordGap => seq![Action::Pause(WORD_GAP_DURATION)],
        Symbol::Unknown(_) => seq![],
    }
}

/// The time in milliseconds that one action holds the device.
pub open spec fn action_time(a: Action) -> nat {
    match a {
        Action::Pause(ms) => ms as nat,
        _ => 0,
    }
}

/// The time in milliseconds that a sequence of actions takes, summed in order.
pub open spec fn total_time(a: Seq<Action>) -> nat
    decreases a.len(),
{
    if a.len() == 0 {
        0
    } else {
        action_time(a[0]) + total_time(a.drop_first())
    }
}

/// The number of replies among a sequence of actions.
pub open spec fn reply_count(a: Seq<Action>) -> nat
    decreases a.len(),
{
    if a.len() == 0 {
        0
    } else {
        (if a[0] is Reply { 1nat } else { 0nat }) + reply_count(a.drop_first())
    }
}

/// A short pulse: pin high for one standard unit, then low for one.
pub fn dit() -> (r: Vec<Action>)
    ensures
        r@ == symbol_actions(Symbol::Dit),
{
    vec![
        Action::SetPin(true),
        Action::Pause(STANDARD_DURATION),
        Action::SetPin(false),
        Action::Pause(STANDARD_DURATION),
    ]
}

/// A long pulse: pin high for a medium unit, then low for one standard unit.
pub fn dah() -> (r: Vec<Action>)
    ensures
        r@ == symbol_actions(Symbol::Dah),
{
    vec![
        Action::SetPin(true),
        Action::Pause(MEDIUM_DURATION),
        Action::SetPin(false),
        Action::Pause(STANDARD_DURATION),
    ]
}

/// The actions of one symbol: a pulse, a pause, or nothing for an unknown one.
pub fn play(s: Symbol) -> (r: Vec<Action>)
    ensures
        r@ == symbol_actions(s),
{
    match s {
        Symbol::Dit => dit(),
        Symbol::Dah => dah(),
        Symbol::LetterGap => vec![Action::Pause(MEDIUM_DURATION)],
        Symbol::WordGap => vec![Action::Pause(WORD_GAP_DURATION)],
        Symbol::Unknown(_) => Vec::new(),
    }
}

} // verus!
