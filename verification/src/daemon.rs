//! Bringing a daemon into existence: the steps of starting one, and what a
//! look at its process means for the client.

use crate::report::{error, error_exit, log, log_line, Exit, ExitView};
use crate::text::{decimal, to_decimal, views};
use vstd::prelude::*;
use vstd::string::*;

verus! {

/// For how many seconds a probe waits for the daemon's process to exit.
pub const PROBE_SECS: u64 = 1;

/// For how many seconds the client pauses after a probe that found the daemon
/// running, so that the daemon's listener can come up.
pub const PAUSE_SECS: u64 = 1;

/// What a probe of the daemon's process found.
#[derive(Debug, Clone, PartialEq, Eq)]
pub enum Probe {
    /// The process has exited, with this status.
    Exited(String),
    /// The process was still running when the probe's time was up.
    Running,
    /// The probe itself failed, for this cause.
    Failed(String),
}

/// A `Probe` as plain values.
pub enum ProbeView {
    Exited(Seq<char>),
    Running,
    Failed(Seq<char>),
}

impl View for Probe {
    type V = ProbeView;

    open spec fn view(&self) -> ProbeView {
        match self {
            Probe::Exited(status) => ProbeView::Exited(status@),
            Probe::Running => ProbeView::Running,
            Probe::Failed(cause) => ProbeView::Failed(cause@),
        }
    }
}

/// What the client does after a probe.
#[derive(Debug, Clone, PartialEq, Eq)]
pub enum Verdict {
    /// Pause for so many seconds, then go on.
    Proceed(u64),
    /// Give up.
    Fatal(Exit),
}

/// A `Verdict` as plain values.
pub enum VerdictView {
    Proceed(int),
    Fatal(ExitView),
}

impl View for Verdict {
    type V = VerdictView;

    open spec fn view(&self) -> VerdictView {
        match self {
            Verdict::Proceed(secs) => VerdictView::Proceed(*secs as int),
            Verdict::Fatal(exit) => VerdictView::Fatal(exit@),
        }
    }
}

/// What a probe means: a daemon that has exited is a fatal error that names
/// its status; one still running is likely still starting, and the client goes
/// on after `PAUSE_SECS`; a probe that failed is a fatal error too.
pub open spec fn status_verdict(probe: ProbeView) -> VerdictView {
    match probe {
        ProbeView::Exited(status) => VerdictView::Fatal(
            error_exit("The JGrab daemon has died prematurely, "@ + status),
        ),
        ProbeView::Running => VerdictView::Proceed(PAUSE_SECS as int),
        ProbeView::Failed(cause) => VerdictView::Fatal(
            error_exit("unable to wait for JGrab daemon process status: "@ + cause),
        ),
    }
}

/// Judges a probe of the daemon's process.
pub fn check_status(probe: &Probe) -> (verdict: Verdict)
    ensures
        verdict@ == status_verdict(probe@),
{
    match probe {
        Probe::Exited(status) => {
            let mut message = String::from_str("The JGrab daemon has died prematurely, ");
            message.append(status.as_str());
            Verdict::Fatal(error(message.as_str()))
        },
        Probe::Running => Verdict::Proceed(PAUSE_SECS),
        Probe::Failed(cause) => {
            let mut message = String::from_str(
                "unable to wait for JGrab daemon process status: ",
            );
            message.append(cause.as_str());
            Verdict::Fatal(error(message.as_str()))
        },
    }
}

/// A probe that found the process gone never lets the client go on, and one
/// that found it running always does, after the fixed pause.
pub proof fn lemma_probe_never_reversed(probe: ProbeView)
    ensures
        probe is Exited ==> status_verdict(probe) is Fatal,
        probe is Running ==> status_verdict(probe) == VerdictView::Proceed(PAUSE_SECS as int),
        probe is Failed ==> status_verdict(probe) is Fatal,
        status_verdict(probe) matches VerdictView::Fatal(exit) ==> exit.code != 0,
{
}

/// How writing the jar out went.
#[derive(Debug, Clone, PartialEq, Eq)]
pub enum Written {
    /// The jar is in place.
    Done,
    /// The file could not be created, for this cause.
    NotCreated(String),
    /// The file was created but could not be filled, for this cause.
    NotFilled(String),
}

/// A `Written` as plain values.
pub enum WrittenView {
    Done,
    NotCreated(Seq<char>),
    NotFilled(Seq<char>),
}

impl View for Written {
    type V = WrittenView;

    open spec fn view(&self) -> WrittenView {
        match self {
            Written::Done => WrittenView::Done,
            Written::NotCreated(cause) => WrittenView::NotCreated(cause@),
            Written::NotFilled(cause) => WrittenView::NotFilled(cause@),
        }
    }
}

/// What follows from writing the jar out to `jar`: a notice that names the
/// place, or a fatal error that names the cause.
pub open spec fn jar_report(jar: Seq<char>, written: WrittenView) -> Result<Seq<char>, ExitView> {
    match written {
        WrittenView::Done => Ok(log_line("Created JGrab jar at: "@ + jar)),
        WrittenView::NotCreated(cause) => Err(error_exit("Cannot create jgrab jar: "@ + cause)),
        WrittenView::NotFilled(cause) => Err(
            error_exit("Cannot write to jgrab jar path: "@ + cause),
        ),
    }
}

/// Reports how writing the daemon's jar out to `jar` went.
pub fn create_jgrab_jar(jar: &str, written: &Written) -> (report: Result<String, Exit>)
    ensures
        match jar_report(jar@, written@) {
            Ok(notice) => report matches Ok(line) && line@ == notice,
            Err(end) => report matches Err(exit) && exit@ == end,
        },
{
    match written {
        Written::Done => {
            let mut message = String::from_str("Created JGrab jar at: ");
            message.append(jar);
            Ok(log(message.as_str()))
        },
        Written::NotCreated(cause) => {
            let mut message = String::from_str("Cannot create jgrab jar: ");
            message.append(cause.as_str());
            Err(error(message.as_str()))
        },
        Written::NotFilled(cause) => {
            let mut message = String::from_str("Cannot write to jgrab jar path: ");
            message.append(cause.as_str());
            Err(error(message.as_str()))
        },
    }
}

/// How far the start of a daemon has come.
#[derive(Debug, Clone, Copy, PartialEq, Eq, Structural)]
pub enum Launch {
    /// Nothing has been done yet.
    Idle,
    /// The caller is looking whether the jar is in place.
    FindingJar,
    /// The caller is writing the jar out.
    WritingJar,
    /// The caller is starting the process.
    Spawning,
    /// The daemon's process runs.
    Started,
    /// The start has failed for good.
    Failed,
}

/// What the caller did for the start of a daemon, and how it went.
#[derive(Debug, Clone, PartialEq, Eq)]
pub enum LaunchEvent {
    /// The start is asked for.
    Begin,
    /// Whether the jar is a file in its place.
    JarFound(bool),
    /// How writing the jar out went.
    JarWritten(Written),
    /// The process was started, under this id.
    Spawned(u32),
    /// The process could not be started, for this cause.
    SpawnFailed(String),
}

/// A `LaunchEvent` as plain values.
pub enum LaunchEventView {
    Begin,
    JarFound(bool),
    JarWritten(WrittenView),
    Spawned(int),
    SpawnFailed(Seq<char>),
}

impl View for LaunchEvent {
    type V = LaunchEventView;

    open spec fn view(&self) -> LaunchEventView {
        match self {
            LaunchEvent::Begin => LaunchEventView::Begin,
            LaunchEvent::JarFound(found) => LaunchEventView::JarFound(*found),
            LaunchEvent::JarWritten(written) => LaunchEventView::JarWritten(written@),
            LaunchEvent::Spawned(pid) => LaunchEventView::Spawned(*pid as int),
            LaunchEvent::SpawnFailed(cause) => LaunchEventView::SpawnFailed(cause@),
        }
    }
}

/// What the caller is to do next for the start of a daemon.
#[derive(Debug, Clone, PartialEq, Eq)]
pub enum LaunchEffect {
    /// Print this line.
    Log(String),
    /// Look whether the jar is a file in its place; answer with `JarFound`.
    FindJar,
    /// Write the jar out, making its directory first; answer with `JarWritten`.
    WriteJar,
    /// Start a process with this command line, and do not wait for its end;
    /// answer with `Spawned` or `SpawnFailed`.
    Spawn(Vec<String>),
    /// The daemon's process runs: the start is done.
    Done,
    /// Print the line and leave the process with the code.
    Exit(Exit),
}

/// A `LaunchEffect` as plain values.
pub enum LaunchEffectView {
    Log(Seq<char>),
    FindJar,
    WriteJar,
    Spawn(Seq<Seq<char>>),
    Done,
    Exit(ExitView),
}

impl View for LaunchEffect {
    type V = LaunchEffectView;

    open spec fn view(&self) -> LaunchEffectView {
        match self {
            LaunchEffect::Log(line) => LaunchEffectView::Log(line@),
            LaunchEffect::FindJar => LaunchEffectView::FindJar,
            LaunchEffect::WriteJar => LaunchEffectView::WriteJar,
            LaunchEffect::Spawn(command) => LaunchEffectView::Spawn(views(command@)),
            LaunchEffect::Done => LaunchEffectView::Done,
            LaunchEffect::Exit(exit) => LaunchEffectView::Exit(exit@),
        }
    }
}

/// The command line that starts the daemon from `jar`.
pub open spec fn daemon_command(jar: Seq<char>) -> Seq<Seq<char>> {
    seq!["java"@, "-jar"@, jar, "--daemon"@]
}

/// One step of starting a daemon from `jar`: the next state, and what the
/// caller is to do, in order. The start is announced, the jar is written out
/// where it is not in place, and the process is started. An event that does
/// not answer what was asked changes nothing.
pub open spec fn launch_step(jar: Seq<char>, state: Launch, event: LaunchEventView) -> (
    Launch,
    Seq<LaunchEffectView>,
) {
    match (state, event) {
        (Launch::Idle, LaunchEventView::Begin) => (
            Launch::FindingJar,
            seq![LaunchEffectView::Log(log_line("Starting daemon"@)), LaunchEffectView::FindJar],
        ),
        (Launch::FindingJar, LaunchEventView::JarFound(found)) => if found {
            (Launch::Spawning, seq![LaunchEffectView::Spawn(daemon_command(jar))])
        } else {
            (Launch::WritingJar, seq![LaunchEffectView::WriteJar])
        },
        (Launch::WritingJar, LaunchEventView::JarWritten(written)) => match jar_report(
            jar,
            written,
        ) {
            Ok(notice) => (
                Launch::Spawning,
                seq![LaunchEffectView::Log(notice), LaunchEffectView::Spawn(daemon_command(jar))],
            ),
            Err(exit) => (Launch::Failed, seq![LaunchEffectView::Exit(exit)]),
        },
        (Launch::Spawning, LaunchEventView::Spawned(pid)) => (
            Launch::Started,
            seq![
                LaunchEffectView::Log(log_line("Daemon started, pid="@ + decimal(pid as nat))),
                LaunchEffectView::Done,
            ],
        ),
        (Launch::Spawning, LaunchEventView::SpawnFailed(cause)) => (
            Launch::Failed,
            seq![LaunchEffectView::Exit(error_exit(cause))],
        ),
        _ => (state, Seq::empty()),
    }
}

/// How far a start has come, as a number that only grows.
pub open spec fn progress(state: Launch) -> nat {
    match state {
        Launch::Idle => 0,
        Launch::FindingJar => 1,
        Launch::WritingJar => 2,
        Launch::Spawning => 3,
        Launch::Started => 4,
        Launch::Failed => 4,
    }
}

/// A start only moves forward: a step that asks for anything leaves the start
/// further on than it was, and a process is asked for only on the way into
/// `Spawning`. So no start asks for a second process.
pub proof fn lemma_start_only_advances(jar: Seq<char>, state: Launch, event: LaunchEventView)
    ensures
        ({
            let (after, effects) = launch_step(jar, state, event);
            &&& effects.len() == 0 ==> after == state
            &&& effects.len() > 0 ==> progress(after) > progress(state)
            &&& forall|i: int|
                0 <= i < effects.len() && effects[i] is Spawn ==> after == Launch::Spawning
                    && progress(state) < 3
        }),
{
}

fn spawn_daemon(jar: &str) -> (effect: LaunchEffect)
    ensures
        effect@ == LaunchEffectView::Spawn(daemon_command(jar@)),
{
    let mut command: Vec<String> = Vec::new();
    command.push(String::from_str("java"));
    command.push(String::from_str("-jar"));
    command.push(String::from_str(jar));
    command.push(String::from_str("--daemon"));
    assert(views(command@) =~= daemon_command(jar@));
    LaunchEffect::Spawn(command)
}

/// Takes one step of starting a daemon from `jar`.
pub fn start_daemon(jar: &str, state: Launch, event: &LaunchEvent) -> (next: (
    Launch,
    Vec<LaunchEffect>,
))
    ensures
        (next.0, views(next.1@)) == launch_step(jar@, state, event@),
{
    let mut effects: Vec<LaunchEffect> = Vec::new();
    let ghost expected = launch_step(jar@, state, event@);
    let after = match (state, event) {
        (Launch::Idle, LaunchEvent::Begin) => {
            effects.push(LaunchEffect::Log(log("Starting daemon")));
            effects.push(LaunchEffect::FindJar);
            Launch::FindingJar
        },
        (Launch::FindingJar, LaunchEvent::JarFound(found)) => if *found {
            effects.push(spawn_daemon(jar));
            Launch::Spawning
        } else {
            effects.push(LaunchEffect::WriteJar);
            Launch::WritingJar
        },
        (Launch::WritingJar, LaunchEvent::JarWritten(written)) => match create_jgrab_jar(
            jar,
            written,
        ) {
            Ok(notice) => {
                effects.push(LaunchEffect::Log(notice));
                effects.push(spawn_daemon(jar));
                Launch::Spawning
            },
            Err(exit) => {
                effects.push(LaunchEffect::Exit(exit));
                Launch::Failed
            },
        },
        (Launch::Spawning, LaunchEvent::Spawned(pid)) => {
            let mut message = String::from_str("Daemon started, pid=");
            message.append(to_decimal(*pid as u64).as_str());
            effects.push(LaunchEffect::Log(log(message.as_str())));
            effects.push(LaunchEffect::Done);
            Launch::Started
        },
        (Launch::Spawning, LaunchEvent::SpawnFailed(cause)) => {
            effects.push(LaunchEffect::Exit(error(cause.as_str())));
            Launch::Failed
        },
        _ => state,
    };
    assert(views(effects@) =~= expected.1);
    (after, effects)
}

} // verus!
