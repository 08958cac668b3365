use jgrab_client::input::{Input, Stream};
use jgrab_client::relay::{
    send_message, show_daemon_version, Action, Exchange, Phase, Reply, ADDRESS, CHUNK,
};
use jgrab_client::report::Exit;

fn fatal(message: &str) -> Exit {
    Exit { line: format!("### JGrab Client Error - {} ###", message), code: 1 }
}

fn at(phase: Phase) -> Exchange {
    Exchange { phase, is_retry: false, ignore_read_error: false }
}

fn step(exchange: Exchange, reply: Reply) -> (Exchange, Vec<Action>) {
    let mut input = Input::text("x".to_string());
    send_message(exchange, &mut input, reply)
}

#[test]
fn daemon_listens_on_a_fixed_loopback_port() {
    assert_eq!(ADDRESS, "127.0.0.1:5002");
    assert_eq!(CHUNK, 4096);
}

#[test]
fn new_exchange_has_not_begun() {
    assert_eq!(
        Exchange::new(true, false),
        Exchange { phase: Phase::Idle, is_retry: true, ignore_read_error: false }
    );
}

#[test]
fn exchange_begins_by_connecting() {
    assert_eq!(step(at(Phase::Idle), Reply::Begin), (at(Phase::Connecting), vec![Action::Connect]));
}

#[test]
fn first_connection_is_not_announced() {
    assert_eq!(
        step(at(Phase::Connecting), Reply::Connected),
        (at(Phase::ReadingToken), vec![Action::ReadToken])
    );
}

#[test]
fn later_connection_is_announced() {
    let retry = Exchange { phase: Phase::Connecting, is_retry: true, ignore_read_error: false };
    let (next, actions) = step(retry, Reply::Connected);
    assert_eq!(next.phase, Phase::ReadingToken);
    assert_eq!(
        actions,
        vec![Action::Log("=== JGrab Client - Connected! ===".to_string()), Action::ReadToken]
    );
}

#[test]
fn no_connection_is_reported_to_the_caller() {
    assert_eq!(
        step(at(Phase::Connecting), Reply::ConnectFailed("refused".to_string())),
        (at(Phase::Finished), vec![Action::Unreachable("refused".to_string())])
    );
}

#[test]
fn token_is_sent_as_a_line() {
    assert_eq!(
        step(at(Phase::ReadingToken), Reply::Token("s3cr€t".to_string())),
        (at(Phase::Handshaking), vec![Action::Send("s3cr€t\n".as_bytes().to_vec())])
    );
    assert_eq!(
        step(at(Phase::ReadingToken), Reply::Token(String::new())),
        (at(Phase::Handshaking), vec![Action::Send(vec![b'\n'])])
    );
}

#[test]
fn missing_token_counts_as_no_connection() {
    assert_eq!(
        step(at(Phase::ReadingToken), Reply::TokenUnreadable("not found".to_string())),
        (at(Phase::Finished), vec![Action::Unreachable("not found".to_string())])
    );
}

#[test]
fn text_is_forwarded_in_chunks() {
    let text = "a".repeat(CHUNK) + "tail";
    let mut input = Input::text(text);
    let (next, actions) = send_message(at(Phase::Handshaking), &mut input, Reply::Written);
    assert_eq!(next, at(Phase::Sending));
    assert_eq!(actions, vec![Action::Send(vec![b'a'; CHUNK])]);
    let (next, actions) = send_message(next, &mut input, Reply::Written);
    assert_eq!(next, at(Phase::Sending));
    assert_eq!(actions, vec![Action::Send(b"tail".to_vec())]);
    let (next, actions) = send_message(next, &mut input, Reply::Written);
    assert_eq!(next, at(Phase::Closing));
    assert_eq!(actions, vec![Action::HalfClose]);
}

#[test]
fn stream_is_forwarded_read_by_read() {
    let mut input = Input::StdinIn(false);
    let (next, actions) = send_message(at(Phase::Handshaking), &mut input, Reply::Written);
    assert_eq!((next, actions), (at(Phase::Reading), vec![Action::ReadInput(Stream::Stdin)]));
    let (next, actions) = send_message(next, &mut input, Reply::InputRead(b"int x;".to_vec()));
    assert_eq!((next, actions), (at(Phase::Sending), vec![Action::Send(b"int x;".to_vec())]));
    let (next, actions) = send_message(next, &mut input, Reply::Written);
    assert_eq!((next, actions), (at(Phase::Reading), vec![Action::ReadInput(Stream::Stdin)]));
    let (next, actions) = send_message(next, &mut input, Reply::InputRead(vec![]));
    assert_eq!((next, actions), (at(Phase::Closing), vec![Action::HalfClose]));
    assert!(input.spent());
}

#[test]
fn empty_input_goes_straight_to_the_half_close() {
    let mut input = Input::text(String::new());
    assert_eq!(
        send_message(at(Phase::Handshaking), &mut input, Reply::Written),
        (at(Phase::Closing), vec![Action::HalfClose])
    );
}

#[test]
fn failed_writes_are_fatal() {
    assert_eq!(
        step(at(Phase::Handshaking), Reply::WriteFailed("broken pipe".to_string())),
        (at(Phase::Finished), vec![Action::Exit(fatal("socket write error (token): broken pipe"))])
    );
    assert_eq!(
        step(at(Phase::Sending), Reply::WriteFailed("broken pipe".to_string())),
        (at(Phase::Finished), vec![Action::Exit(fatal("socket write error (message): broken pipe"))])
    );
    assert_eq!(
        step(at(Phase::Closing), Reply::CloseFailed("not connected".to_string())),
        (at(Phase::Finished), vec![Action::Exit(fatal("shutdown socket write: not connected"))])
    );
    assert_eq!(
        step(at(Phase::Printing), Reply::PrintFailed("closed".to_string())),
        (at(Phase::Finished), vec![Action::Exit(fatal("stdout write error: closed"))])
    );
}

#[test]
fn failed_read_of_the_input_is_fatal() {
    assert_eq!(
        step(at(Phase::Reading), Reply::InputFailed("stream did not contain valid data".to_string())),
        (at(Phase::Finished), vec![Action::Exit(fatal("stream did not contain valid data"))])
    );
}

#[test]
fn answer_is_printed_as_it_comes() {
    assert_eq!(step(at(Phase::Closing), Reply::Closed), (at(Phase::Draining), vec![Action::Receive]));
    assert_eq!(
        step(at(Phase::Draining), Reply::Received(b"3\n".to_vec())),
        (at(Phase::Printing), vec![Action::Print(b"3\n".to_vec())])
    );
    assert_eq!(step(at(Phase::Printing), Reply::Printed), (at(Phase::Draining), vec![Action::Receive]));
    assert_eq!(
        step(at(Phase::Draining), Reply::Received(vec![])),
        (at(Phase::Finished), vec![Action::Done])
    );
}

#[test]
fn read_error_in_the_answer_is_fatal_for_a_request() {
    assert_eq!(
        step(at(Phase::Draining), Reply::ReceiveFailed("connection reset".to_string())),
        (at(Phase::Finished), vec![Action::Exit(fatal("connection reset"))])
    );
}

#[test]
fn read_error_in_the_answer_ends_a_stop_request_well() {
    let stopping = Exchange { phase: Phase::Draining, is_retry: false, ignore_read_error: true };
    let (next, actions) = step(stopping, Reply::ReceiveFailed("connection reset".to_string()));
    assert_eq!(next.phase, Phase::Finished);
    assert_eq!(actions, vec![Action::Done]);
}

#[test]
fn ignoring_read_errors_excuses_nothing_else() {
    let stopping = Exchange { phase: Phase::Sending, is_retry: false, ignore_read_error: true };
    let (_, actions) = step(stopping, Reply::WriteFailed("broken pipe".to_string()));
    assert_eq!(actions, vec![Action::Exit(fatal("socket write error (message): broken pipe"))]);
}

#[test]
fn exchange_ignores_what_was_not_asked_for() {
    let stray = vec![
        (Phase::Idle, Reply::Connected),
        (Phase::Connecting, Reply::Begin),
        (Phase::ReadingToken, Reply::Written),
        (Phase::Handshaking, Reply::Token("t".to_string())),
        (Phase::Sending, Reply::InputRead(vec![1])),
        (Phase::Reading, Reply::Written),
        (Phase::Closing, Reply::Received(vec![1])),
        (Phase::Draining, Reply::Printed),
        (Phase::Printing, Reply::Closed),
        (Phase::Finished, Reply::Begin),
        (Phase::Finished, Reply::ReceiveFailed("late".to_string())),
    ];
    for (phase, reply) in stray {
        let mut input = Input::text("keep".to_string());
        assert_eq!(send_message(at(phase), &mut input, reply), (at(phase), vec![]));
        assert_eq!(input, Input::text("keep".to_string()));
    }
}

#[test]
fn daemon_version_hint_only_without_a_connection() {
    assert_eq!(show_daemon_version(&None), None);
    assert_eq!(
        show_daemon_version(&Some("refused".to_string())),
        Some("(Run the JGrab daemon to see its version)".to_string())
    );
}
