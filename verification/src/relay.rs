//! One exchange with the daemon: connect, show the token, forward the request,
//! close the sending half, and hand the answer on as it comes.

use crate::input::{
    after_end_of_stream, after_read, lemma_read_lightens, next_chunk, taken, weight, yielded,
    Chunk, ChunkView, Input, Segment, Stream,
};
use crate::report::{error, error_exit, log, log_line, Exit, ExitView};
use crate::text::views;
use vstd::prelude::*;
use vstd::string::*;
use vstd::utf8::*;

verus! {

/// Where the daemon listens: a fixed port of this machine.
pub const ADDRESS: &'static str = "127.0.0.1:5002";

/// How many bytes one read takes, and so one write carries, at most.
pub const CHUNK: usize = 4096;

/// How far an exchange has come.
#[derive(Debug, Clone, Copy, PartialEq, Eq, Structural)]
pub enum Phase {
    /// Nothing has been done yet.
    Idle,
    /// The caller is connecting.
    Connecting,
    /// The caller is reading the token.
    ReadingToken,
    /// The caller is writing the token line to the socket.
    Handshaking,
    /// The caller is writing a part of the request to the socket.
    Sending,
    /// The caller is reading a part of the request from a stream.
    Reading,
    /// The caller is closing the sending half of the socket.
    Closing,
    /// The caller is reading a part of the answer from the socket.
    Draining,
    /// The caller is writing a part of the answer to standard output.
    Printing,
    /// The exchange is over.
    Finished,
}

/// An exchange: how far it has come, and what it was set up with.
#[derive(Debug, Clone, Copy, PartialEq, Eq, Structural)]
pub struct Exchange {
    pub phase: Phase,
    /// Whether an attempt has failed before: a connection is then announced.
    pub is_retry: bool,
    /// Whether an error while reading the answer counts as the answer's end.
    pub ignore_read_error: bool,
}

/// What the caller did for the exchange, and how it went.
#[derive(Debug, Clone, PartialEq, Eq)]
pub enum Reply {
    /// The exchange is to begin.
    Begin,
    Connected,
    ConnectFailed(String),
    /// The token was read: this is it.
    Token(String),
    TokenUnreadable(String),
    /// A write to the socket went through.
    Written,
    WriteFailed(String),
    /// A read of the request's stream gave these bytes; none at its end.
    InputRead(Vec<u8>),
    InputFailed(String),
    /// The sending half of the socket is closed.
    Closed,
    CloseFailed(String),
    /// A read of the socket gave these bytes; none at the answer's end.
    Received(Vec<u8>),
    ReceiveFailed(String),
    /// A write to standard output went through.
    Printed,
    PrintFailed(String),
}

/// A `Reply` as plain values.
pub enum ReplyView {
    Begin,
    Connected,
    ConnectFailed(Seq<char>),
    Token(Seq<char>),
    TokenUnreadable(Seq<char>),
    Written,
    WriteFailed(Seq<char>),
    InputRead(Seq<u8>),
    InputFailed(Seq<char>),
    Closed,
    CloseFailed(Seq<char>),
    Received(Seq<u8>),
    ReceiveFailed(Seq<char>),
    Printed,
    PrintFailed(Seq<char>),
}

impl View for Reply {
    type V = ReplyView;

    open spec fn view(&self) -> ReplyView {
        match self {
            Reply::Begin => ReplyView::Begin,
            Reply::Connected => ReplyView::Connected,
            Reply::ConnectFailed(cause) => ReplyView::ConnectFailed(cause@),
            Reply::Token(token) => ReplyView::Token(token@),
            Reply::TokenUnreadable(cause) => ReplyView::TokenUnreadable(cause@),
            Reply::Written => ReplyView::Written,
            Reply::WriteFailed(cause) => ReplyView::WriteFailed(cause@),
            Reply::InputRead(bytes) => ReplyView::InputRead(bytes@),
            Reply::InputFailed(cause) => ReplyView::InputFailed(cause@),
            Reply::Closed => ReplyView::Closed,
            Reply::CloseFailed(cause) => ReplyView::CloseFailed(cause@),
            Reply::Received(bytes) => ReplyView::Received(bytes@),
            Reply::ReceiveFailed(cause) => ReplyView::ReceiveFailed(cause@),
            Reply::Printed => ReplyView::Printed,
            Reply::PrintFailed(cause) => ReplyView::PrintFailed(cause@),
        }
    }
}

/// What the caller is to do next for the exchange.
#[derive(Debug, Clone, PartialEq, Eq)]
pub enum Action {
    /// Connect to the daemon; answer with `Connected` or `ConnectFailed`.
    Connect,
    /// Print this line.
    Log(String),
    /// Read the token file; answer with `Token` or `TokenUnreadable`.
    ReadToken,
    /// Write all of these bytes to the socket; answer with `Written` or
    /// `WriteFailed`.
    Send(Vec<u8>),
    /// Read once from this stream of the request, `CHUNK` bytes at most;
    /// answer with `InputRead` or `InputFailed`.
    ReadInput(Stream),
    /// Close the sending half of the socket and keep the other; answer with
    /// `Closed` or `CloseFailed`.
    HalfClose,
    /// Read once from the socket, `CHUNK` bytes at most; answer with
    /// `Received` or `ReceiveFailed`.
    Receive,
    /// Write all of these bytes to standard output at once; answer with
    /// `Printed` or `PrintFailed`.
    Print(Vec<u8>),
    /// The request was sent and answered.
    Done,
    /// There is no connection to speak of, for this cause.
    Unreachable(String),
    /// Print the line and leave the process with the code.
    Exit(Exit),
}

/// An `Action` as plain values.
pub enum ActionView {
    Connect,
    Log(Seq<char>),
    ReadToken,
    Send(Seq<u8>),
    ReadInput(Stream),
    HalfClose,
    Receive,
    Print(Seq<u8>),
    Done,
    Unreachable(Seq<char>),
    Exit(ExitView),
}

impl View for Action {
    type V = ActionView;

    open spec fn view(&self) -> ActionView {
        match self {
            Action::Connect => ActionView::Connect,
            Action::Log(line) => ActionView::Log(line@),
            Action::ReadToken => ActionView::ReadToken,
            Action::Send(bytes) => ActionView::Send(bytes@),
            Action::ReadInput(stream) => ActionView::ReadInput(*stream),
            Action::HalfClose => ActionView::HalfClose,
            Action::Receive => ActionView::Receive,
            Action::Print(bytes) => ActionView::Print(bytes@),
            Action::Done => ActionView::Done,
            Action::Unreachable(cause) => ActionView::Unreachable(cause@),
            Action::Exit(exit) => ActionView::Exit(exit@),
        }
    }
}

/// The exchange in another phase.
pub open spec fn at(exchange: Exchange, phase: Phase) -> Exchange {
    Exchange { phase, ..exchange }
}

/// The line that shows the token to the daemon: the token, then a line end.
pub open spec fn token_line(token: Seq<char>) -> Seq<u8> {
    encode_utf8(token).push(10u8)
}

/// The end that a failed write or close makes: a fatal error that says what
/// failed, and why.
pub open spec fn broken(what: Seq<char>, cause: Seq<char>) -> ActionView {
    ActionView::Exit(error_exit(what + ": "@ + cause))
}

/// The next move of the forward phase on what `input` still has to give:
/// bytes from memory are sent, `CHUNK` at most; a stream is read; and at the
/// end of the input the sending half is closed.
pub open spec fn forward(exchange: Exchange, input: Seq<Segment>) -> (
    Exchange,
    Seq<Segment>,
    Seq<ActionView>,
) {
    match next_chunk(input, CHUNK as nat) {
        ChunkView::Bytes(bytes) => (
            at(exchange, Phase::Sending),
            after_read(input, CHUNK as nat),
            seq![ActionView::Send(bytes)],
        ),
        ChunkView::Outside(stream) => (
            at(exchange, Phase::Reading),
            input,
            seq![ActionView::ReadInput(stream)],
        ),
        ChunkView::End => (at(exchange, Phase::Closing), input, seq![ActionView::HalfClose]),
    }
}

/// One step of an exchange: the next state, what is left of the input, and
/// what the caller is to do, in order.
///
/// The caller connects; a connection after a failed attempt is announced. The
/// token is read and sent as a line. No connection, or no token, ends the
/// exchange as unreachable, which the caller may try again. Then the input is
/// forwarded, each part as it was read, until a read gives no byte. The
/// sending half is closed, and the answer is printed part by part until a
/// read of the socket gives no byte. From the token line on, a failed write,
/// close or read is a fatal error; only an error while reading the answer
/// counts as the answer's end where the exchange was set up so. An event that
/// does not answer what was asked changes nothing.
pub open spec fn exchange_step(exchange: Exchange, input: Seq<Segment>, reply: ReplyView) -> (
    Exchange,
    Seq<Segment>,
    Seq<ActionView>,
) {
    let finished = at(exchange, Phase::Finished);
    match (exchange.phase, reply) {
        (Phase::Idle, ReplyView::Begin) => (
            at(exchange, Phase::Connecting),
            input,
            seq![ActionView::Connect],
        ),
        (Phase::Connecting, ReplyView::Connected) => (
            at(exchange, Phase::ReadingToken),
            input,
            if exchange.is_retry {
                seq![ActionView::Log(log_line("Connected!"@)), ActionView::ReadToken]
            } else {
                seq![ActionView::ReadToken]
            },
        ),
        (Phase::Connecting, ReplyView::ConnectFailed(cause)) => (
            finished,
            input,
            seq![ActionView::Unreachable(cause)],
        ),
        (Phase::ReadingToken, ReplyView::Token(token)) => (
            at(exchange, Phase::Handshaking),
            input,
            seq![ActionView::Send(token_line(token))],
        ),
        (Phase::ReadingToken, ReplyView::TokenUnreadable(cause)) => (
            finished,
            input,
            seq![ActionView::Unreachable(cause)],
        ),
        (Phase::Handshaking, ReplyView::Written) => forward(exchange, input),
        (Phase::Handshaking, ReplyView::WriteFailed(cause)) => (
            finished,
            input,
            seq![broken("socket write error (token)"@, cause)],
        ),
        (Phase::Sending, ReplyView::Written) => forward(exchange, input),
        (Phase::Sending, ReplyView::WriteFailed(cause)) => (
            finished,
            input,
            seq![broken("socket write error (message)"@, cause)],
        ),
        (Phase::Reading, ReplyView::InputRead(bytes)) => if bytes.len() == 0 {
            forward(exchange, after_end_of_stream(input))
        } else {
            (at(exchange, Phase::Sending), input, seq![ActionView::Send(bytes)])
        },
        (Phase::Reading, ReplyView::InputFailed(cause)) => (
            finished,
            input,
            seq![ActionView::Exit(error_exit(cause))],
        ),
        (Phase::Closing, ReplyView::Closed) => (
            at(exchange, Phase::Draining),
            input,
            seq![ActionView::Receive],
        ),
        (Phase::Closing, ReplyView::CloseFailed(cause)) => (
            finished,
            input,
            seq![broken("shutdown socket write"@, cause)],
        ),
        (Phase::Draining, ReplyView::Received(bytes)) => if bytes.len() == 0 {
            (finished, input, seq![ActionView::Done])
        } else {
            (at(exchange, Phase::Printing), input, seq![ActionView::Print(bytes)])
        },
        (Phase::Draining, ReplyView::ReceiveFailed(cause)) => (
            finished,
            input,
            if exchange.ignore_read_error {
                seq![ActionView::Done]
            } else {
                seq![ActionView::Exit(error_exit(cause))]
            },
        ),
        (Phase::Printing, ReplyView::Printed) => (
            at(exchange, Phase::Draining),
            input,
            seq![ActionView::Receive],
        ),
        (Phase::Printing, ReplyView::PrintFailed(cause)) => (
            finished,
            input,
            seq![broken("stdout write error"@, cause)],
        ),
        _ => (exchange, input, Seq::empty()),
    }
}

impl Exchange {
    /// An exchange that has not begun.
    pub fn new(is_retry: bool, ignore_read_error: bool) -> (exchange: Exchange)
        ensures
            exchange == (Exchange { phase: Phase::Idle, is_retry, ignore_read_error }),
    {
        Exchange { phase: Phase::Idle, is_retry, ignore_read_error }
    }

    fn at(self, phase: Phase) -> (exchange: Exchange)
        ensures
            exchange == at(self, phase),
    {
        Exchange { phase, is_retry: self.is_retry, ignore_read_error: self.ignore_read_error }
    }
}

fn one(action: Action) -> (actions: Vec<Action>)
    ensures
        views(actions@) == seq![action@],
{
    let mut actions: Vec<Action> = Vec::new();
    actions.push(action);
    assert(views(actions@) =~= seq![action@]);
    actions
}

fn fail(what: &str, cause: &str) -> (actions: Vec<Action>)
    ensures
        views(actions@) == seq![broken(what@, cause@)],
{
    let mut message = String::from_str(what);
    message.append(": ");
    message.append(cause);
    one(Action::Exit(error(message.as_str())))
}

fn forward_next(exchange: Exchange, input: &mut Input) -> (next: (Exchange, Vec<Action>))
    ensures
        (next.0, final(input)@, views(next.1@)) == forward(exchange, old(input)@),
{
    match input.read(CHUNK) {
        Chunk::Bytes(bytes) => (exchange.at(Phase::Sending), one(Action::Send(bytes))),
        Chunk::Outside(stream) => (exchange.at(Phase::Reading), one(Action::ReadInput(stream))),
        Chunk::End => (exchange.at(Phase::Closing), one(Action::HalfClose)),
    }
}

/// Takes one step of an exchange that reads its request from `input`.
pub fn send_message(exchange: Exchange, input: &mut Input, reply: Reply) -> (next: (
    Exchange,
    Vec<Action>,
))
    ensures
        (next.0, final(input)@, views(next.1@)) == exchange_step(exchange, old(input)@, reply@),
{
    let finished = exchange.at(Phase::Finished);
    match (exchange.phase, reply) {
        (Phase::Idle, Reply::Begin) => (exchange.at(Phase::Connecting), one(Action::Connect)),
        (Phase::Connecting, Reply::Connected) => {
            let mut actions: Vec<Action> = Vec::new();
            if exchange.is_retry {
                actions.push(Action::Log(log("Connected!")));
            }
            actions.push(Action::ReadToken);
            assert(views(actions@) =~= exchange_step(exchange, old(input)@, reply@).2);
            (exchange.at(Phase::ReadingToken), actions)
        },
        (Phase::Connecting, Reply::ConnectFailed(cause)) => (
            finished,
            one(Action::Unreachable(cause)),
        ),
        (Phase::ReadingToken, Reply::Token(token)) => {
            let mut line = token.as_str().as_bytes_vec();
            line.push(10u8);
            (exchange.at(Phase::Handshaking), one(Action::Send(line)))
        },
        (Phase::ReadingToken, Reply::TokenUnreadable(cause)) => (
            finished,
            one(Action::Unreachable(cause)),
        ),
        (Phase::Handshaking, Reply::Written) => forward_next(exchange, input),
        (Phase::Handshaking, Reply::WriteFailed(cause)) => (
            finished,
            fail("socket write error (token)", cause.as_str()),
        ),
        (Phase::Sending, Reply::Written) => forward_next(exchange, input),
        (Phase::Sending, Reply::WriteFailed(cause)) => (
            finished,
            fail("socket write error (message)", cause.as_str()),
        ),
        (Phase::Reading, Reply::InputRead(bytes)) => if bytes.len() == 0 {
            input.end_of_stream();
            forward_next(exchange, input)
        } else {
            (exchange.at(Phase::Sending), one(Action::Send(bytes)))
        },
        (Phase::Reading, Reply::InputFailed(cause)) => (
            finished,
            one(Action::Exit(error(cause.as_str()))),
        ),
        (Phase::Closing, Reply::Closed) => (exchange.at(Phase::Draining), one(Action::Receive)),
        (Phase::Closing, Reply::CloseFailed(cause)) => (
            finished,
            fail("shutdown socket write", cause.as_str()),
        ),
        (Phase::Draining, Reply::Received(bytes)) => if bytes.len() == 0 {
            (finished, one(Action::Done))
        } else {
            (exchange.at(Phase::Printing), one(Action::Print(bytes)))
        },
        (Phase::Draining, Reply::ReceiveFailed(cause)) => if exchange.ignore_read_error {
            (finished, one(Action::Done))
        } else {
            (finished, one(Action::Exit(error(cause.as_str()))))
        },
        (Phase::Printing, Reply::Printed) => (exchange.at(Phase::Draining), one(Action::Receive)),
        (Phase::Printing, Reply::PrintFailed(cause)) => (
            finished,
            fail("stdout write error", cause.as_str()),
        ),
        _ => {
            let actions: Vec<Action> = Vec::new();
            assert(views(actions@) =~= Seq::<ActionView>::empty());
            (exchange, actions)
        },
    }
}

/// The bytes that the forward phase sends from here on, one write after the
/// other, where every write goes through and `reads` is what the reads of the
/// input's streams give, one after the other.
pub open spec fn sent(exchange: Exchange, input: Seq<Segment>, reads: Seq<Seq<u8>>) -> Seq<u8>
    decreases
            reads.len(),
            weight(input),
            (if exchange.phase == Phase::Reading {
                0nat
            } else {
                1nat
            }),
{
    if exchange.phase == Phase::Handshaking || exchange.phase == Phase::Sending {
        let (after, left, actions) = exchange_step(exchange, input, ReplyView::Written);
        proof {
            if input.len() > 0 && input[0] is Memory {
                lemma_read_lightens(input, CHUNK as nat);
            }
        }
        match actions[0] {
            ActionView::Send(bytes) => bytes + sent(after, left, reads),
            ActionView::ReadInput(_) => sent(after, left, reads),
            _ => Seq::empty(),
        }
    } else if exchange.phase == Phase::Reading && reads.len() > 0 {
        let (after, left, actions) = exchange_step(
            exchange,
            input,
            ReplyView::InputRead(reads[0]),
        );
        match actions[0] {
            ActionView::Send(bytes) => bytes + sent(after, left, reads.skip(1)),
            ActionView::ReadInput(_) => sent(after, left, reads.skip(1)),
            _ => Seq::empty(),
        }
    } else {
        Seq::empty()
    }
}

/// The socket sees exactly the bytes that the source gives: what the forward
/// phase sends, write after write, is what reading the input to its end would
/// give by itself, whatever the source is made of and however its streams
/// deliver.
pub proof fn lemma_forward_is_faithful(
    exchange: Exchange,
    input: Seq<Segment>,
    reads: Seq<Seq<u8>>,
)
    requires
        exchange.phase == Phase::Handshaking || exchange.phase == Phase::Sending || (
        exchange.phase == Phase::Reading && input.len() > 0 && input[0] is Outside),
    ensures
        sent(exchange, input, reads) == yielded(input, reads),
    decreases
            reads.len(),
            weight(input),
            (if exchange.phase == Phase::Reading {
                0nat
            } else {
                1nat
            }),
{
    if exchange.phase == Phase::Reading {
        if reads.len() > 0 {
            let (after, left, actions) = exchange_step(
                exchange,
                input,
                ReplyView::InputRead(reads[0]),
            );
            if reads[0].len() == 0 {
                let writing = at(exchange, Phase::Sending);
                let rest = input.skip(1);
                assert(exchange_step(writing, rest, ReplyView::Written) == (after, left, actions));
                assert(sent(exchange, input, reads) == sent(writing, rest, reads.skip(1)));
                lemma_forward_is_faithful(writing, rest, reads.skip(1));
            } else {
                lemma_forward_is_faithful(after, left, reads.skip(1));
            }
        }
    } else {
        let (after, left, actions) = exchange_step(exchange, input, ReplyView::Written);
        if input.len() > 0 {
            match input[0] {
                Segment::Memory(bytes) => {
                    lemma_read_lightens(input, CHUNK as nat);
                    lemma_forward_is_faithful(after, left, reads);
                    let n = taken(bytes, CHUNK as nat);
                    let rest = yielded(input.skip(1), reads);
                    if CHUNK < bytes.len() {
                        assert(left[0] == Segment::Memory(bytes.skip(n)));
                        assert(left.skip(1) =~= input.skip(1));
                        assert(bytes.take(n) + (bytes.skip(n) + rest) =~= bytes + rest);
                    } else {
                        assert(bytes.take(n) =~= bytes);
                    }
                },
                Segment::Outside(_) => {
                    lemma_forward_is_faithful(after, left, reads);
                },
            }
        }
    }
}

/// Whether the request has been sent in full: the sending half of the socket
/// is being closed, or is closed.
pub open spec fn request_is_over(phase: Phase) -> bool {
    phase == Phase::Closing || phase == Phase::Draining || phase == Phase::Printing || phase
        == Phase::Finished
}

/// Once the sending half is being closed, the request stays over: nothing is
/// sent any more, the input is neither read nor changed, and the exchange
/// never goes back to sending.
pub proof fn lemma_nothing_follows_the_half_close(
    exchange: Exchange,
    input: Seq<Segment>,
    reply: ReplyView,
)
    requires
        request_is_over(exchange.phase),
    ensures
        ({
            let (after, left, actions) = exchange_step(exchange, input, reply);
            &&& request_is_over(after.phase)
            &&& left == input
            &&& forall|i: int|
                0 <= i < actions.len() ==> !(actions[i] is Send) && !(actions[i] is ReadInput)
        }),
{
}

/// An error while the answer is read ends a stop request as if the answer
/// were complete, and is a fatal error for every other request.
pub proof fn lemma_read_error_while_draining(
    exchange: Exchange,
    input: Seq<Segment>,
    cause: Seq<char>,
)
    requires
        exchange.phase == Phase::Draining,
    ensures
        exchange.ignore_read_error ==> exchange_step(
            exchange,
            input,
            ReplyView::ReceiveFailed(cause),
        ).2 == seq![ActionView::Done],
        !exchange.ignore_read_error ==> exchange_step(
            exchange,
            input,
            ReplyView::ReceiveFailed(cause),
        ).2 == seq![ActionView::Exit(error_exit(cause))],
        error_exit(cause).code != 0,
        exchange_step(exchange, input, ReplyView::ReceiveFailed(cause)).0.phase == Phase::Finished,
{
}

/// What to print after the daemon was asked for its version: a hint, where
/// there was no connection.
pub fn show_daemon_version(failure: &Option<String>) -> (hint: Option<String>)
    ensures
        failure is None ==> hint is None,
        failure is Some ==> (hint matches Some(line) && line@
            == "(Run the JGrab daemon to see its version)"@),
{
    match failure {
        Some(_) => Some(String::from_str("(Run the JGrab daemon to see its version)")),
        None => None,
    }
}

} // verus!
