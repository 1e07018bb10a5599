use morse_blink::actuator::{dah, dit, play, Action};
use morse_blink::interpreter::{interpret, plan_read};
use morse_blink::reply::{
    error_reply_end, error_reply_prefix, response_bytes, success_reply, Response,
};
use morse_blink::session::{start, step, Event, Session, BUFFER_SIZE, PORT, READ_TIMEOUT_SECS};
use morse_blink::symbol::{
    byte_of, classify, Symbol, MEDIUM_DURATION, STANDARD_DURATION, WORD_GAP_DURATION,
};

fn total_ms(actions: &[Action]) -> u64 {
    actions
        .iter()
        .map(|a| match a {
            Action::Pause(ms) => *ms,
            _ => 0,
        })
        .sum()
}

fn replies(actions: &[Action]) -> Vec<Response> {
    actions
        .iter()
        .filter_map(|a| match a {
            Action::Reply(r) => Some(*r),
            _ => None,
        })
        .collect()
}

fn dit_actions() -> Vec<Action> {
    vec![
        Action::SetPin(true),
        Action::Pause(100),
        Action::SetPin(false),
        Action::Pause(100),
    ]
}

fn dah_actions() -> Vec<Action> {
    vec![
        Action::SetPin(true),
        Action::Pause(300),
        Action::SetPin(false),
        Action::Pause(100),
    ]
}

#[test]
fn timing_constants() {
    assert_eq!(STANDARD_DURATION, 100);
    assert_eq!(MEDIUM_DURATION, 3 * STANDARD_DURATION);
    assert_eq!(WORD_GAP_DURATION, 7 * STANDARD_DURATION);
    assert_eq!(PORT, 80);
    assert_eq!(BUFFER_SIZE, 4096);
    assert_eq!(READ_TIMEOUT_SECS, 60);
}

#[test]
fn classify_each_character() {
    assert_eq!(classify('.'), Symbol::Dit);
    assert_eq!(classify('_'), Symbol::Dah);
    assert_eq!(classify('+'), Symbol::LetterGap);
    assert_eq!(classify('*'), Symbol::WordGap);
    assert_eq!(classify('#'), Symbol::Unknown('#'));
    assert_eq!(classify('-'), Symbol::Unknown('-'));
    assert_eq!(classify(' '), Symbol::Unknown(' '));
}

#[test]
fn raw_byte_of_characters() {
    assert_eq!(byte_of('#'), 0x23);
    assert_eq!(byte_of('a'), 0x61);
    assert_eq!(byte_of('\u{e9}'), 0xe9);
    assert_eq!(byte_of('\u{20ac}'), 0xac);
}

#[test]
fn pulses_and_pauses() {
    assert_eq!(dit(), dit_actions());
    assert_eq!(dah(), dah_actions());
    assert_eq!(play(Symbol::Dit), dit_actions());
    assert_eq!(play(Symbol::Dah), dah_actions());
    assert_eq!(play(Symbol::LetterGap), vec![Action::Pause(300)]);
    assert_eq!(play(Symbol::WordGap), vec![Action::Pause(700)]);
    assert_eq!(play(Symbol::Unknown('x')), Vec::<Action>::new());
    assert_eq!(total_ms(&dit()), 200);
    assert_eq!(total_ms(&dah()), 400);
}

#[test]
fn reply_bytes() {
    assert_eq!(success_reply(), b"HTTP/1.1 200 OK\r\nContent-Length: 0\r\n\r\n".to_vec());
    assert_eq!(
        error_reply_prefix(),
        b"HTTP/1.1 400 Bad Request\r\nX-Unknown-Morse-Character: ".to_vec()
    );
    assert_eq!(error_reply_end(), b"\r\n\r\n".to_vec());
    assert_eq!(response_bytes(Response::Success), success_reply());
    assert_eq!(
        response_bytes(Response::Error(0x23)),
        b"HTTP/1.1 400 Bad Request\r\nX-Unknown-Morse-Character: #\r\n\r\n".to_vec()
    );
}

#[test]
fn single_dit_message() {
    let mut expected = dit_actions();
    expected.push(Action::Reply(Response::Success));
    let actions = interpret(".");
    assert_eq!(actions, expected);
    assert_eq!(total_ms(&actions), 200);
}

#[test]
fn single_dah_message() {
    let mut expected = dah_actions();
    expected.push(Action::Reply(Response::Success));
    let actions = interpret("_");
    assert_eq!(actions, expected);
    assert_eq!(total_ms(&actions), 400);
}

#[test]
fn letter_gap_is_a_pure_pause() {
    let actions = interpret("+");
    assert_eq!(actions, vec![Action::Pause(300), Action::Reply(Response::Success)]);
    assert!(!actions.iter().any(|a| matches!(a, Action::SetPin(_))));
}

#[test]
fn dah_word_gap_dit() {
    let mut expected = dah_actions();
    expected.push(Action::Pause(700));
    expected.extend(dit_actions());
    expected.push(Action::Reply(Response::Success));
    let actions = interpret("_*.");
    assert_eq!(actions, expected);
    assert_eq!(total_ms(&actions), 1300);
}

#[test]
fn unknown_after_dit() {
    let mut expected = dit_actions();
    expected.push(Action::Reply(Response::Error(0x23)));
    let actions = interpret(".#");
    assert_eq!(actions, expected);
    assert_eq!(replies(&actions), vec![Response::Error(0x23)]);
}

#[test]
fn characters_after_unknown_are_dropped() {
    let mut expected = dit_actions();
    expected.push(Action::Reply(Response::Error(b'x')));
    assert_eq!(interpret(".x._+*"), expected);
    assert_eq!(interpret("#."), vec![Action::Reply(Response::Error(0x23))]);
}

#[test]
fn unknown_multibyte_character() {
    assert_eq!(interpret("\u{e9}"), vec![Action::Reply(Response::Error(0xe9))]);
    let mut expected = dah_actions();
    expected.push(Action::Reply(Response::Error(0xac)));
    assert_eq!(interpret("_\u{20ac}."), expected);
}

#[test]
fn empty_message_replies_success() {
    assert_eq!(interpret(""), vec![Action::Reply(Response::Success)]);
}

#[test]
fn valid_message_time_is_sum_of_costs() {
    let actions = interpret("._+*._");
    assert_eq!(total_ms(&actions), 200 + 400 + 300 + 700 + 200 + 400);
    assert_eq!(replies(&actions), vec![Response::Success]);
    assert_eq!(actions.last(), Some(&Action::Reply(Response::Success)));
}

#[test]
fn invalid_message_one_error_and_prefix_only() {
    let actions = interpret("_.-_");
    let mut expected = dah_actions();
    expected.extend(dit_actions());
    expected.push(Action::Reply(Response::Error(b'-')));
    assert_eq!(actions, expected);
    assert_eq!(replies(&actions), vec![Response::Error(b'-')]);
}

#[test]
fn plan_read_decodes_or_refuses() {
    assert_eq!(plan_read(b"+"), Some(vec![Action::Pause(300), Action::Reply(Response::Success)]));
    assert_eq!(plan_read(&[0xff, 0x2e]), None);
    assert_eq!(plan_read(&[0xc3]), None);
    assert_eq!(plan_read(&[0xc3, 0xa9]), Some(vec![Action::Reply(Response::Error(0xe9))]));
}

#[test]
fn session_start_and_accept() {
    let s = start();
    assert_eq!(s.next, Session::Listening);
    assert_eq!(s.actions, vec![Action::SetPin(false)]);
    let a = step(Session::Listening, &Event::Accepted);
    assert_eq!(a.next, Session::Serving);
    assert_eq!(a.actions, vec![Action::SetPin(true)]);
    let f = step(Session::Listening, &Event::AcceptFailed);
    assert_eq!(f.next, Session::Listening);
    assert_eq!(f.actions, vec![Action::SetPin(false)]);
}

#[test]
fn session_eof_and_errors_close_without_reply() {
    let teardown = vec![Action::Close, Action::SetPin(false)];
    let eof = step(Session::Serving, &Event::Received(Vec::new()));
    assert_eq!(eof.next, Session::Listening);
    assert_eq!(eof.actions, teardown);
    let failed = step(Session::Serving, &Event::ReadFailed);
    assert_eq!(failed.next, Session::Listening);
    assert_eq!(failed.actions, teardown);
    let bad = step(Session::Serving, &Event::Received(vec![b'.', 0xff]));
    assert_eq!(bad.next, Session::Listening);
    assert_eq!(bad.actions, teardown);
    assert!(replies(&bad.actions).is_empty());
}

#[test]
fn session_message_keeps_connection() {
    let r = step(Session::Serving, &Event::Received(b".#".to_vec()));
    assert_eq!(r.next, Session::Serving);
    let mut expected = dit_actions();
    expected.push(Action::Reply(Response::Error(0x23)));
    assert_eq!(r.actions, expected);
    let again = step(r.next, &Event::Received(b"+".to_vec()));
    assert_eq!(again.next, Session::Serving);
    assert_eq!(again.actions, vec![Action::Pause(300), Action::Reply(Response::Success)]);
}

#[test]
fn session_ignores_events_out_of_place() {
    let r = step(Session::Listening, &Event::Received(b".".to_vec()));
    assert_eq!(r.next, Session::Listening);
    assert!(r.actions.is_empty());
    let r = step(Session::Listening, &Event::ReadFailed);
    assert_eq!(r.next, Session::Listening);
    assert!(r.actions.is_empty());
    let r = step(Session::Serving, &Event::Accepted);
    assert_eq!(r.next, Session::Serving);
    assert!(r.actions.is_empty());
}

#[test]
fn same_message_on_new_connection_is_handled_alike() {
    let message = b"_*.+.#".to_vec();
    let first = step(Session::Listening, &Event::Accepted);
    let one = step(first.next, &Event::Received(message.clone()));
    let closed = step(one.next, &Event::Received(Vec::new()));
    let second = step(closed.next, &Event::Accepted);
    let two = step(second.next, &Event::Received(message));
    assert_eq!(one.actions, two.actions);
    assert_eq!(total_ms(&one.actions), total_ms(&two.actions));
    let bytes_one: Vec<Vec<u8>> = replies(&one.actions).into_iter().map(response_bytes).collect();
    let bytes_two: Vec<Vec<u8>> = replies(&two.actions).into_iter().map(response_bytes).collect();
    assert_eq!(bytes_one, bytes_two);
}
