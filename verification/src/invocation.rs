//! What an invocation asks for, told from the shape of its arguments.

use crate::input::{
    create_message, create_wrapped_message, file_input, memory, Input, Segment, Stream,
};
use crate::report::{error_exit, log, log_line, usage_error, usage_error_exit, Exit, ExitView};
use crate::text::{joined, same_text, texts, trim, trimmed};
use vstd::prelude::*;
use vstd::slice::*;
use vstd::string::*;
use vstd::utf8::*;

verus! {

/// What to relay to the daemon, before any file has been opened.
#[derive(Debug, PartialEq, Eq)]
pub enum Request {
    /// Standard input.
    Stdin,
    /// The file at this path.
    File(String),
    /// This message.
    Message(Input),
    /// This message, then the file at this path.
    FileWithArgs(String, Input),
}

/// What an invocation asks for.
#[derive(Debug, PartialEq, Eq)]
pub enum Invocation {
    /// Print the help text and leave; no socket is opened.
    Help,
    /// Print the client's version, then ask the daemon for its own.
    Version,
    /// Stop the daemon, if one is listening.
    Stop,
    /// Refuse the arguments with a usage error.
    Reject(Exit),
    /// Relay a request, starting the daemon if need be.
    Relay(Request),
}

/// A `Request` as plain values.
pub enum RequestView {
    Stdin,
    File(Seq<char>),
    Message(Seq<Segment>),
    FileWithArgs(Seq<char>, Seq<Segment>),
}

/// An `Invocation` as plain values.
pub enum InvocationView {
    Help,
    Version,
    Stop,
    Reject(ExitView),
    Relay(RequestView),
}

impl View for Request {
    type V = RequestView;

    open spec fn view(&self) -> RequestView {
        match self {
            Request::Stdin => RequestView::Stdin,
            Request::File(path) => RequestView::File(path@),
            Request::Message(message) => RequestView::Message(message@),
            Request::FileWithArgs(path, args) => RequestView::FileWithArgs(path@, args@),
        }
    }
}

impl View for Invocation {
    type V = InvocationView;

    open spec fn view(&self) -> InvocationView {
        match self {
            Invocation::Help => InvocationView::Help,
            Invocation::Version => InvocationView::Version,
            Invocation::Stop => InvocationView::Stop,
            Invocation::Reject(exit) => InvocationView::Reject(exit@),
            Invocation::Relay(request) => InvocationView::Relay(request@),
        }
    }
}

/// A request with what the exchange needs to know of it.
#[derive(Debug, PartialEq, Eq)]
pub struct Job {
    /// The source of the request's bytes.
    pub input: Input,
    /// Whether an error while reading the daemon's answer counts as the end of
    /// the answer: so for a stop request, and for no other.
    pub ignore_read_error: bool,
}

/// The text that asks the daemon to do nothing: sent to get a daemon started.
pub open spec fn start_text() -> Seq<char> {
    "-e null"@
}

/// The text that asks the daemon to stop.
pub open spec fn stop_text() -> Seq<char> {
    "--stop"@
}

/// The text that asks the daemon for its version.
pub open spec fn version_text() -> Seq<char> {
    "--version"@
}

/// Whether `arg` begins with a hyphen.
pub open spec fn is_option(arg: Seq<char>) -> bool {
    arg.len() > 0 && arg[0] == '-'
}

/// What a single option asks for. The option counts without the white space
/// at its ends.
pub open spec fn option_selection(arg: Seq<char>) -> InvocationView {
    let option = trimmed(arg);
    if option == "--help"@ || option == "-h"@ {
        InvocationView::Help
    } else if option == "--start"@ || option == "-t"@ {
        InvocationView::Relay(RequestView::Message(memory(encode_utf8(start_text()))))
    } else if option == "--stop"@ || option == "-s"@ {
        InvocationView::Stop
    } else if option == "--version"@ || option == "-v"@ {
        InvocationView::Version
    } else if option == "-e"@ {
        InvocationView::Reject(usage_error_exit("-e option missing code snippet"@))
    } else {
        InvocationView::Reject(usage_error_exit("invalid option"@))
    }
}

/// The list of a file's arguments as the daemon reads it: in square brackets,
/// single spaces between, and a line end.
pub open spec fn bracketed(args: Seq<Seq<char>>) -> Seq<char> {
    "["@ + joined(args, " "@) + "]\n"@
}

/// What the arguments ask for:
/// none, standard input is relayed;
/// one that is no option, the file of that name;
/// one option, what `option_selection` says;
/// several after `-e`, those that follow it, joined by single spaces;
/// several otherwise, the file named first, behind the bracketed list of the
/// others.
pub open spec fn selection(args: Seq<Seq<char>>) -> InvocationView {
    if args.len() == 0 {
        InvocationView::Relay(RequestView::Stdin)
    } else if args.len() == 1 {
        if is_option(args[0]) {
            option_selection(args[0])
        } else {
            InvocationView::Relay(RequestView::File(args[0]))
        }
    } else if trimmed(args[0]) == "-e"@ {
        InvocationView::Relay(
            RequestView::Message(memory(encode_utf8(joined(args.skip(1), " "@)))),
        )
    } else {
        InvocationView::Relay(
            RequestView::FileWithArgs(args[0], memory(encode_utf8(bracketed(args.skip(1))))),
        )
    }
}

fn select_option(arg: &str) -> (invocation: Invocation)
    ensures
        invocation@ == option_selection(arg@),
{
    let option = trim(arg);
    if same_text(option, "--help") || same_text(option, "-h") {
        Invocation::Help
    } else if same_text(option, "--start") || same_text(option, "-t") {
        Invocation::Relay(Request::Message(Input::text(String::from_str("-e null"))))
    } else if same_text(option, "--stop") || same_text(option, "-s") {
        Invocation::Stop
    } else if same_text(option, "--version") || same_text(option, "-v") {
        Invocation::Version
    } else if same_text(option, "-e") {
        Invocation::Reject(usage_error("-e option missing code snippet"))
    } else {
        Invocation::Reject(usage_error("invalid option"))
    }
}

/// Tells what the arguments of an invocation ask for.
pub fn select(args: &Vec<String>) -> (invocation: Invocation)
    ensures
        invocation@ == selection(texts(args@)),
{
    if args.len() == 0 {
        Invocation::Relay(Request::Stdin)
    } else if args.len() == 1 {
        let arg = args[0].as_str();
        if !arg.is_empty() && arg.get_char(0) == '-' {
            select_option(arg)
        } else {
            Invocation::Relay(Request::File(args[0].clone()))
        }
    } else {
        let rest = slice_subrange(args.as_slice(), 1, args.len());
        assert(texts(rest@) =~= texts(args@).skip(1));
        if same_text(trim(args[0].as_str()), "-e") {
            Invocation::Relay(Request::Message(create_message(rest)))
        } else {
            Invocation::Relay(
                Request::FileWithArgs(args[0].clone(), create_wrapped_message("[", rest, "]\n")),
            )
        }
    }
}

impl Request {
    /// The path of the file that the caller is to open before `open`, if the
    /// request reads one.
    pub fn path(&self) -> (path: Option<&String>)
        ensures
            match self {
                Request::File(file) => path == Some(file),
                Request::FileWithArgs(file, _) => path == Some(file),
                _ => path is None,
            },
    {
        match self {
            Request::File(file) => Some(file),
            Request::FileWithArgs(file, _) => Some(file),
            _ => None,
        }
    }

    /// The job for this request. `opened` says how opening the file of `path`
    /// went; it is not looked at where the request reads no file. A file that
    /// could not be opened is a fatal error.
    pub fn open(self, opened: Result<(), String>) -> (job: Result<Job, Exit>)
        ensures
            match (self@, opened) {
                (RequestView::Stdin, _) => job matches Ok(j) && !j.ignore_read_error && j.input@
                    == seq![Segment::Outside(Stream::Stdin)],
                (RequestView::Message(message), _) => job matches Ok(j) && !j.ignore_read_error
                    && j.input@ == message,
                (RequestView::File(_), Ok(_)) => job matches Ok(j) && !j.ignore_read_error
                    && j.input@ == seq![Segment::Outside(Stream::File)],
                (RequestView::FileWithArgs(_, args), Ok(_)) => job matches Ok(j)
                    && !j.ignore_read_error && j.input@ == args + seq![
                    Segment::Outside(Stream::File),
                ],
                (_, Err(cause)) => job matches Err(exit) && exit@ == error_exit(
                    "unable to read file: "@ + cause@,
                ),
            },
    {
        match self {
            Request::Stdin => Ok(Job { input: Input::StdinIn(false), ignore_read_error: false }),
            Request::Message(message) => Ok(Job { input: message, ignore_read_error: false }),
            Request::File(_) => match file_input(opened) {
                Ok(file) => Ok(Job { input: file, ignore_read_error: false }),
                Err(exit) => Err(exit),
            },
            Request::FileWithArgs(_, args) => match file_input(opened) {
                Ok(file) => Ok(Job { input: Input::chain(args, file), ignore_read_error: false }),
                Err(exit) => Err(exit),
            },
        }
    }
}

/// What a stop request does once it is known whether a daemon listens.
#[derive(Debug, PartialEq, Eq)]
pub enum Stop {
    /// No daemon listens: print this notice and leave; none is started.
    NotRunning(String),
    /// One listens: relay this job.
    Proceed(Job),
}

/// Decides a stop request. With no daemon listening there is nothing to stop.
/// Otherwise the stop message is relayed, and an error while reading the
/// answer counts as its end, since the daemon may go down mid-answer.
pub fn stop(listening: bool) -> (stop: Stop)
    ensures
        listening ==> (stop matches Stop::Proceed(job) && job.ignore_read_error && job.input@
            == memory(encode_utf8(stop_text()))),
        !listening ==> (stop matches Stop::NotRunning(notice) && notice@ == log_line(
            "daemon is not running"@,
        )),
{
    if listening {
        Stop::Proceed(
            Job { input: Input::text(String::from_str("--stop")), ignore_read_error: true },
        )
    } else {
        Stop::NotRunning(log("daemon is not running"))
    }
}

/// The job that asks the daemon for its version.
pub fn version_query() -> (job: Job)
    ensures
        !job.ignore_read_error,
        job.input@ == memory(encode_utf8(version_text())),
{
    Job { input: Input::text(String::from_str("--version")), ignore_read_error: false }
}

} // verus!
