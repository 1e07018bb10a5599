//! Turning one received message into the actions that play it.
use vstd::prelude::*;
use vstd::string::{StrSliceExecFns, StringSliceAdditionalSpecFns};
use vstd::utf8::{valid_utf8, decode_utf8, encode_utf8_decode_utf8};
use crate::symbol::{Symbol, symbol_of, raw_byte, classify, byte_of};
use crate::actuator::{Action, symbol_actions, play};
use crate::reply::Response;

verus! {

/// The actions that one message gives, in order: each recognised symbol is
/// played left to right, and the message ends with exactly one reply. At
/// the first character outside the alphabet playing stops, the rest of the
/// message is dropped, and the reply is an error naming that character.
pub open spec fn message_actions(m: Seq<char>) -> Seq<Action>
    decreases m.len(),
{
    if m.len() == 0 {
        seq![Action::Reply(Response::Success)]
    } else {
        match symbol_of(m[0]) {
            Symbol::Unknown(c) => seq![Action::Reply(Response::Error(raw_byte(c)))],
            s => symbol_actions(s) + message_actions(m.drop_first()),
        }
    }
}

/// The actions that the bytes of one read give, or `None` where they are not
/// valid UTF-8.
pub open spec fn read_actions(b: Seq<u8>) -> Option<Seq<Action>> {
    if valid_utf8(b) {
        Some(message_actions(decode_utf8(b)))
    } else {
        None
    }
}

/// Relies on `core::str::from_utf8`: it succeeds exactly when the bytes are
/// valid UTF-8, and the text it then returns is made of those same bytes.
#[verifier::external_body]
fn decode_text(b: &[u8]) -> (r: Option<&str>)
    ensures
        r is Some <==> valid_utf8(b@),
        r matches Some(s) ==> s.spec_bytes() == b@,
{
    core::str::from_utf8(b).ok()
}

/// The actions that play a message and report on it.
pub fn interpret(message: &str) -> (r: Vec<Action>)
    ensures
        r@ == message_actions(message@),
{
    let ghost m = message@;
    let n = message.unicode_len();
    let mut out: Vec<Action> = Vec::new();
    let mut i: usize = 0;
    assert(m.subrange(0, n as int) == m);
    assert(out@ + message_actions(m) == message_actions(m));
    while i < n
        invariant
            n == m.len(),
            m == message@,
            0 <= i <= n,
            out@ + message_actions(m.subrange(i as int, n as int)) == message_actions(m),
        decreases n - i,
    {
        let ghost rest = m.subrange(i as int, n as int);
        assert(rest.drop_first() == m.subrange(i + 1, n as int));
        let c = message.get_char(i);
        match classify(c) {
            Symbol::Unknown(u) => {
                out.push(Action::Reply(Response::Error(byte_of(u))));
                return out;
            },
            s => {
                let mut acts = play(s);
                out.append(&mut acts);
                assert(out@ + message_actions(m.subrange(i + 1, n as int)) == message_actions(m));
            },
        }
        i += 1;
    }
    out.push(Action::Reply(Response::Success));
    out
}

/// The actions for the bytes of one read: `None` where they are not valid
/// UTF-8, else the actions of the text they encode.
pub fn plan_read(bytes: &[u8]) -> (r: Option<Vec<Action>>)
    ensures
        r is Some <==> valid_utf8(bytes@),
        r matches Some(a) ==> read_actions(bytes@) == Some(a@),
{
    match decode_text(bytes) {
        None => None,
        Some(text) => {
            proof {
                encode_utf8_decode_utf8(text@);
            }
            Some(interpret(text))
        },
    }
}

} // verus!
