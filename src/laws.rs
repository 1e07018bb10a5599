//! Properties that hold of every message and every connection.
use vstd::prelude::*;
use vstd::utf8::{valid_utf8, decode_utf8};
use crate::symbol::{Symbol, symbol_of, in_alphabet, all_in_alphabet, symbol_cost, message_cost, raw_byte};
use crate::actuator::{Action, symbol_actions, total_time, reply_count};
use crate::reply::{Response, response_bytes_of, error_prefix_bytes, error_end_bytes};
use crate::interpreter::message_actions;
use crate::session::{Session, Event, next_session, step_actions, teardown_actions};

verus! {

/// The actions of the recognised symbols of a message, all of them, in order.
pub open spec fn played(m: Seq<char>) -> Seq<Action>
    decreases m.len(),
{
    if m.len() == 0 {
        seq![]
    } else {
        symbol_actions(symbol_of(m[0])) + played(m.drop_first())
    }
}

/// Time adds up over a concatenation of actions.
pub proof fn lemma_total_time_concat(a: Seq<Action>, b: Seq<Action>)
    ensures
        total_time(a + b) == total_time(a) + total_time(b),
    decreases a.len(),
{
    if a.len() == 0 {
        assert(a + b == b);
    } else {
        assert((a + b).drop_first() == a.drop_first() + b);
        lemma_total_time_concat(a.drop_first(), b);
    }
}

/// Replies add up over a concatenation of actions.
pub proof fn lemma_reply_count_concat(a: Seq<Action>, b: Seq<Action>)
    ensures
        reply_count(a + b) == reply_count(a) + reply_count(b),
    decreases a.len(),
{
    if a.len() == 0 {
        assert(a + b == b);
    } else {
        assert((a + b).drop_first() == a.drop_first() + b);
        lemma_reply_count_concat(a.drop_first(), b);
    }
}

/// Each symbol's actions take exactly its cost and hold no reply.
pub proof fn lemma_symbol_actions(s: Symbol)
    ensures
        total_time(symbol_actions(s)) == symbol_cost(s),
        reply_count(symbol_actions(s)) == 0,
{
    let a = symbol_actions(s);
    reveal_with_fuel(total_time, 5);
    reveal_with_fuel(reply_count, 5);
    if a.len() == 4 {
        assert(a.drop_first().drop_first().drop_first().drop_first() == Seq::<Action>::empty());
    }
}

/// The played actions of a message take the sum of its symbols' costs and
/// hold no reply.
pub proof fn lemma_played(m: Seq<char>)
    ensures
        total_time(played(m)) == message_cost(m),
        reply_count(played(m)) == 0,
    decreases m.len(),
{
    if m.len() > 0 {
        lemma_symbol_actions(symbol_of(m[0]));
        lemma_played(m.drop_first());
        lemma_total_time_concat(symbol_actions(symbol_of(m[0])), played(m.drop_first()));
        lemma_reply_count_concat(symbol_actions(symbol_of(m[0])), played(m.drop_first()));
    }
}

/// A message of the alphabet alone plays every symbol and then replies with
/// success.
pub proof fn lemma_valid_message_shape(m: Seq<char>)
    requires
        all_in_alphabet(m),
    ensures
        message_actions(m) == played(m) + seq![Action::Reply(Response::Success)],
    decreases m.len(),
{
    if m.len() > 0 {
        assert(in_alphabet(m[0]));
        assert(all_in_alphabet(m.drop_first())) by {
            assert forall|i: int| 0 <= i < m.drop_first().len() implies in_alphabet(
                #[trigger] m.drop_first()[i],
            ) by {
                assert(m.drop_first()[i] == m[i + 1]);
            }
        }
        lemma_valid_message_shape(m.drop_first());
    }
}

/// For a message made only of `. _ + *`, the time that playing it takes is
/// the sum of each symbol's fixed cost, taken left to right: twice the
/// standard unit for a dit, a medium and a standard unit for a dah, a medium
/// unit for a letter gap, seven standard units for a word gap.
pub proof fn law_message_time(m: Seq<char>)
    requires
        all_in_alphabet(m),
    ensures
        total_time(message_actions(m)) == message_cost(m),
{
    lemma_valid_message_shape(m);
    lemma_played(m);
    lemma_total_time_concat(played(m), seq![Action::Reply(Response::Success)]);
    reveal_with_fuel(total_time, 2);
}

/// For a message made only of `. _ + *`, exactly one reply comes, it is a
/// success, and it comes last, after every symbol has been played.
pub proof fn law_valid_message_one_success(m: Seq<char>)
    requires
        all_in_alphabet(m),
    ensures
        message_actions(m) == played(m) + seq![Action::Reply(Response::Success)],
        reply_count(message_actions(m)) == 1,
        message_actions(m).last() == Action::Reply(Response::Success),
{
    lemma_valid_message_shape(m);
    lemma_played(m);
    lemma_reply_count_concat(played(m), seq![Action::Reply(Response::Success)]);
    reveal_with_fuel(reply_count, 2);
}

/// The actions of a message whose first character outside the alphabet
/// stands at `k`: the symbols before it are played, then comes the error
/// reply naming it, and nothing else.
proof fn lemma_invalid_message_shape(m: Seq<char>, k: int)
    requires
        0 <= k < m.len(),
        !in_alphabet(m[k]),
        all_in_alphabet(m.take(k)),
    ensures
        message_actions(m) == played(m.take(k)) + seq![
            Action::Reply(Response::Error(raw_byte(m[k]))),
        ],
    decreases k,
{
    if k == 0 {
        assert(m.take(0) == Seq::<char>::empty());
        assert(played(m.take(0)) + seq![Action::Reply(Response::Error(raw_byte(m[k])))] == seq![
            Action::Reply(Response::Error(raw_byte(m[k]))),
        ]);
    } else {
        let rest = m.drop_first();
        assert(m.take(k)[0] == m[0]);
        assert(in_alphabet(m[0]));
        assert(rest[k - 1] == m[k]);
        assert(rest.take(k - 1) == m.take(k).drop_first());
        assert(all_in_alphabet(rest.take(k - 1))) by {
            assert forall|i: int| 0 <= i < rest.take(k - 1).len() implies in_alphabet(
                #[trigger] rest.take(k - 1)[i],
            ) by {
                assert(rest.take(k - 1)[i] == m.take(k)[i + 1]);
            }
        }
        lemma_invalid_message_shape(rest, k - 1);
        assert(played(m.take(k)) == symbol_actions(symbol_of(m[0])) + played(rest.take(k - 1)));
        assert(message_actions(m) == symbol_actions(symbol_of(m[0])) + message_actions(rest));
    }
}

/// For a message whose first character outside the alphabet stands at `k`:
/// exactly one reply comes, an error carrying that character's raw byte;
/// only the symbols before `k` are played, and no success is reported.
pub proof fn law_invalid_message_one_error(m: Seq<char>, k: int)
    requires
        0 <= k < m.len(),
        !in_alphabet(m[k]),
        all_in_alphabet(m.take(k)),
    ensures
        message_actions(m) == played(m.take(k)) + seq![
            Action::Reply(Response::Error(raw_byte(m[k]))),
        ],
        reply_count(message_actions(m)) == 1,
        !message_actions(m).contains(Action::Reply(Response::Success)),
        response_bytes_of(Response::Error(raw_byte(m[k]))) == error_prefix_bytes() + seq![
            raw_byte(m[k]),
        ] + error_end_bytes(),
{
    let e = seq![Action::Reply(Response::Error(raw_byte(m[k])))];
    lemma_invalid_message_shape(m, k);
    lemma_played(m.take(k));
    lemma_reply_count_concat(played(m.take(k)), e);
    reveal_with_fuel(reply_count, 2);
    if message_actions(m).contains(Action::Reply(Response::Success)) {
        let j = choose|j: int|
            0 <= j < message_actions(m).len() && message_actions(m)[j] == Action::Reply(
                Response::Success,
            );
        if j < played(m.take(k)).len() {
            lemma_reply_in_count(played(m.take(k)), j);
        }
    }
}

/// A sequence with a reply at some index holds at least one reply.
proof fn lemma_reply_in_count(a: Seq<Action>, j: int)
    requires
        0 <= j < a.len(),
        a[j] is Reply,
    ensures
        reply_count(a) > 0,
    decreases a.len(),
{
    if j > 0 {
        assert(a.drop_first()[j - 1] == a[j]);
        lemma_reply_in_count(a.drop_first(), j - 1);
    }
}

/// Every message, whatever it holds, gets exactly one reply, and it is its
/// last action.
pub proof fn law_every_message_one_reply(m: Seq<char>)
    ensures
        reply_count(message_actions(m)) == 1,
        message_actions(m).last() is Reply,
    decreases m.len(),
{
    reveal_with_fuel(reply_count, 2);
    if m.len() > 0 {
        let s = symbol_of(m[0]);
        if !(s is Unknown) {
            law_every_message_one_reply(m.drop_first());
            lemma_symbol_actions(s);
            lemma_reply_count_concat(symbol_actions(s), message_actions(m.drop_first()));
        }
    }
}

/// A read of valid text on a connection keeps the connection open and gets
/// exactly one reply, after everything that it plays.
pub proof fn law_read_one_reply(b: Vec<u8>)
    requires
        b@.len() > 0,
        valid_utf8(b@),
    ensures
        next_session(Session::Serving, Event::Received(b)) == Session::Serving,
        step_actions(Session::Serving, Event::Received(b)) == message_actions(decode_utf8(b@)),
        reply_count(step_actions(Session::Serving, Event::Received(b))) == 1,
        step_actions(Session::Serving, Event::Received(b)).last() is Reply,
{
    law_every_message_one_reply(decode_utf8(b@));
}

/// A message on a connection is handled the same whatever came before it:
/// in any two states that serve a client, the same bytes give the same
/// actions, hence the same timing and the same reply bytes, and leave the
/// same state behind.
pub proof fn law_same_message_same_handling(s: Session, t: Session, b: Vec<u8>)
    requires
        s == Session::Serving,
        t == Session::Serving,
    ensures
        step_actions(s, Event::Received(b)) == step_actions(t, Event::Received(b)),
        next_session(s, Event::Received(b)) == next_session(t, Event::Received(b)),
{
}

/// Every new connection starts in the same state, whatever state the
/// listener was reached from.
pub proof fn law_new_connection_alike(s: Session, t: Session)
    requires
        s == Session::Listening,
        t == Session::Listening,
    ensures
        next_session(s, Event::Accepted) == Session::Serving,
        next_session(s, Event::Accepted) == next_session(t, Event::Accepted),
        step_actions(s, Event::Accepted) == step_actions(t, Event::Accepted),
{
}

/// An empty read, a failed read and bytes that are not UTF-8 each end the
/// connection and go back to listening, with no reply and no pulse.
pub proof fn law_connection_ends_without_reply(b: Vec<u8>)
    ensures
        b@.len() == 0 ==> next_session(Session::Serving, Event::Received(b))
            == Session::Listening && step_actions(Session::Serving, Event::Received(b))
            == teardown_actions(),
        !valid_utf8(b@) ==> next_session(Session::Serving, Event::Received(b))
            == Session::Listening && step_actions(Session::Serving, Event::Received(b))
            == teardown_actions(),
        next_session(Session::Serving, Event::ReadFailed) == Session::Listening,
        step_actions(Session::Serving, Event::ReadFailed) == teardown_actions(),
        reply_count(teardown_actions()) == 0,
        teardown_actions().contains(Action::Close),
{
    reveal_with_fuel(reply_count, 3);
    assert(teardown_actions()[0] == Action::Close);
}

} // verus!
