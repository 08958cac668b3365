//! Reaching the daemon: one attempt; where that fails, one start of a daemon;
//! then a bounded number of further attempts.

use crate::daemon::{
    check_status, status_verdict, Probe, ProbeView, Verdict, VerdictView, PAUSE_SECS, PROBE_SECS,
};
use crate::report::{error, error_exit, log, log_line, Exit, ExitView};
use crate::text::{decimal, to_decimal, views};
use vstd::prelude::*;
use vstd::string::*;

verus! {

/// How many attempts follow the start of a daemon, at most.
pub const MAX_RETRIES: usize = 5;

/// How far the client has come in reaching the daemon.
#[derive(Debug, Clone, PartialEq, Eq)]
pub enum Connector {
    /// Nothing has been tried yet.
    Idle,
    /// The first attempt is under way.
    FirstAttempt,
    /// The first attempt has failed, and a daemon is being started.
    Bootstrapping,
    /// The daemon's process is being probed, with so many attempts left. After
    /// a failed attempt, the failure waits here to be reported.
    Probing(usize, Option<String>),
    /// A further attempt is under way; counting it, so many are left.
    Retrying(usize),
    /// An attempt went through: the exchange is over.
    Connected,
    /// Every attempt has failed.
    Exhausted,
    /// The daemon's process is gone, or could not be probed.
    Dead,
}

/// A `Connector` as plain values.
pub enum ConnectorView {
    Idle,
    FirstAttempt,
    Bootstrapping,
    Probing(nat, Option<Seq<char>>),
    Retrying(nat),
    Connected,
    Exhausted,
    Dead,
}

impl View for Connector {
    type V = ConnectorView;

    open spec fn view(&self) -> ConnectorView {
        match self {
            Connector::Idle => ConnectorView::Idle,
            Connector::FirstAttempt => ConnectorView::FirstAttempt,
            Connector::Bootstrapping => ConnectorView::Bootstrapping,
            Connector::Probing(left, failure) => ConnectorView::Probing(
                *left as nat,
                match failure {
                    Some(cause) => Some(cause@),
                    None => None,
                },
            ),
            Connector::Retrying(left) => ConnectorView::Retrying(*left as nat),
            Connector::Connected => ConnectorView::Connected,
            Connector::Exhausted => ConnectorView::Exhausted,
            Connector::Dead => ConnectorView::Dead,
        }
    }
}

/// What the caller did for the connector, and how it went.
#[derive(Debug, Clone, PartialEq, Eq)]
pub enum Event {
    /// The request is to be sent.
    Begin,
    /// An attempt is over: the exchange took place, or there was no
    /// connection, for this cause.
    Attempted(Option<String>),
    /// A daemon's process was started.
    Started,
    /// The daemon's process was probed.
    Probed(Probe),
}

/// An `Event` as plain values.
pub enum EventView {
    Begin,
    Attempted(Option<Seq<char>>),
    Started,
    Probed(ProbeView),
}

impl View for Event {
    type V = EventView;

    open spec fn view(&self) -> EventView {
        match self {
            Event::Begin => EventView::Begin,
            Event::Attempted(failure) => EventView::Attempted(
                match failure {
                    Some(cause) => Some(cause@),
                    None => None,
                },
            ),
            Event::Started => EventView::Started,
            Event::Probed(probe) => EventView::Probed(probe@),
        }
    }
}

/// What the caller is to do next for the connector.
#[derive(Debug, Clone, PartialEq, Eq)]
pub enum Effect {
    /// Try to connect and to make the exchange; the flag says whether this is
    /// a further attempt. Answer with `Attempted`.
    Attempt(bool),
    /// Start a daemon; answer with `Started`.
    StartDaemon,
    /// Wait up to so many seconds for the daemon's process to exit; answer
    /// with `Probed`.
    Probe(u64),
    /// Do nothing for so many seconds.
    Pause(u64),
    /// Print this line.
    Log(String),
    /// The request was sent and answered: leave with code zero.
    Done,
    /// Print the line and leave the process with the code.
    Exit(Exit),
}

/// An `Effect` as plain values.
pub enum EffectView {
    Attempt(bool),
    StartDaemon,
    Probe(int),
    Pause(int),
    Log(Seq<char>),
    Done,
    Exit(ExitView),
}

impl View for Effect {
    type V = EffectView;

    open spec fn view(&self) -> EffectView {
        match self {
            Effect::Attempt(again) => EffectView::Attempt(*again),
            Effect::StartDaemon => EffectView::StartDaemon,
            Effect::Probe(secs) => EffectView::Probe(*secs as int),
            Effect::Pause(secs) => EffectView::Pause(*secs as int),
            Effect::Log(line) => EffectView::Log(line@),
            Effect::Done => EffectView::Done,
            Effect::Exit(exit) => EffectView::Exit(exit@),
        }
    }
}

/// The fatal error of a client that has run out of attempts.
pub open spec fn exhausted_exit() -> ExitView {
    error_exit(
        "unable to start JGrab daemon. Make sure JGrab's port [5002] is not already bound"@,
    )
}

/// The two lines that report a failed attempt: its cause, and how many
/// attempts were left when it was made.
pub open spec fn failure_report(cause: Seq<char>, left: nat) -> Seq<EffectView> {
    seq![
        EffectView::Log(log_line("unable to connect to JGrab daemon: "@ + cause)),
        EffectView::Log(log_line("will re-try "@ + decimal(left) + " more times"@)),
    ]
}

/// What follows a probe that found the daemon running, with `left` attempts
/// left: the pause; after a failed attempt its report, which uses that attempt
/// up; then the next attempt, or the fatal error where none is left.
pub open spec fn after_probe(pause: int, left: nat, failure: Option<Seq<char>>) -> (
    ConnectorView,
    Seq<EffectView>,
) {
    let (remaining, report) = match failure {
        Some(cause) => (if left > 0 {
            (left - 1) as nat
        } else {
            0
        }, failure_report(cause, left)),
        None => (left, Seq::empty()),
    };
    if remaining > 0 {
        (
            ConnectorView::Retrying(remaining),
            seq![EffectView::Pause(pause)] + report + seq![EffectView::Attempt(true)],
        )
    } else {
        (
            ConnectorView::Exhausted,
            seq![EffectView::Pause(pause)] + report + seq![EffectView::Exit(exhausted_exit())],
        )
    }
}

/// One step of the connector: the next state, and what the caller is to do, in
/// order.
///
/// The first attempt is made as it is. If it goes through, that is all. If
/// not, a daemon is started, once, and its process probed. A probe that finds
/// the process gone, or fails, ends the run with a fatal error. After a probe
/// that finds it running the client pauses and tries again, `MAX_RETRIES`
/// times at most; each failed attempt is followed by a probe and reported.
/// An event that does not answer what was asked changes nothing.
pub open spec fn step(state: ConnectorView, event: EventView) -> (ConnectorView, Seq<EffectView>) {
    match (state, event) {
        (ConnectorView::Idle, EventView::Begin) => (
            ConnectorView::FirstAttempt,
            seq![EffectView::Attempt(false)],
        ),
        (ConnectorView::FirstAttempt, EventView::Attempted(None)) => (
            ConnectorView::Connected,
            seq![EffectView::Done],
        ),
        (ConnectorView::FirstAttempt, EventView::Attempted(Some(_))) => (
            ConnectorView::Bootstrapping,
            seq![EffectView::StartDaemon],
        ),
        (ConnectorView::Bootstrapping, EventView::Started) => (
            ConnectorView::Probing(MAX_RETRIES as nat, None),
            seq![EffectView::Probe(PROBE_SECS as int)],
        ),
        (ConnectorView::Probing(left, failure), EventView::Probed(probe)) => match status_verdict(
            probe,
        ) {
            VerdictView::Fatal(exit) => (ConnectorView::Dead, seq![EffectView::Exit(exit)]),
            VerdictView::Proceed(pause) => after_probe(pause, left, failure),
        },
        (ConnectorView::Retrying(_), EventView::Attempted(None)) => (
            ConnectorView::Connected,
            seq![EffectView::Done],
        ),
        (ConnectorView::Retrying(left), EventView::Attempted(Some(cause))) => (
            ConnectorView::Probing(left, Some(cause)),
            seq![EffectView::Probe(PROBE_SECS as int)],
        ),
        _ => (state, Seq::empty()),
    }
}

fn resume(pause: u64, left: usize, failure: Option<String>) -> (next: (Connector, Vec<Effect>))
    ensures
        (next.0@, views(next.1@)) == after_probe(
            pause as int,
            left as nat,
            match failure {
                Some(cause) => Some(cause@),
                None => None,
            },
        ),
{
    let mut effects: Vec<Effect> = Vec::new();
    effects.push(Effect::Pause(pause));
    let mut remaining = left;
    match failure {
        Some(cause) => {
            let mut unable = String::from_str("unable to connect to JGrab daemon: ");
            unable.append(cause.as_str());
            effects.push(Effect::Log(log(unable.as_str())));
            let mut again = String::from_str("will re-try ");
            again.append(to_decimal(left as u64).as_str());
            again.append(" more times");
            effects.push(Effect::Log(log(again.as_str())));
            if left > 0 {
                remaining = left - 1;
            }
            assert(views(effects@) =~= seq![EffectView::Pause(pause as int)] + failure_report(
                cause@,
                left as nat,
            ));
        },
        None => {
            assert(views(effects@) =~= seq![EffectView::Pause(pause as int)]
                + Seq::<EffectView>::empty());
        },
    }
    let ghost before = views(effects@);
    if remaining > 0 {
        effects.push(Effect::Attempt(true));
        assert(views(effects@) =~= before + seq![EffectView::Attempt(true)]);
        (Connector::Retrying(remaining), effects)
    } else {
        effects.push(
            Effect::Exit(
                error(
                    "unable to start JGrab daemon. Make sure JGrab's port [5002] is not already bound",
                ),
            ),
        );
        assert(views(effects@) =~= before + seq![EffectView::Exit(exhausted_exit())]);
        (Connector::Exhausted, effects)
    }
}

/// Takes one step of sending a request to a daemon that may have to be
/// started first.
pub fn send_message_retrying(state: Connector, event: Event) -> (next: (Connector, Vec<Effect>))
    ensures
        (next.0@, views(next.1@)) == step(state@, event@),
{
    let ghost expected = step(state@, event@);
    let mut effects: Vec<Effect> = Vec::new();
    let after = match (state, event) {
        (Connector::Idle, Event::Begin) => {
            effects.push(Effect::Attempt(false));
            Connector::FirstAttempt
        },
        (Connector::FirstAttempt, Event::Attempted(None)) => {
            effects.push(Effect::Done);
            Connector::Connected
        },
        (Connector::FirstAttempt, Event::Attempted(Some(_))) => {
            effects.push(Effect::StartDaemon);
            Connector::Bootstrapping
        },
        (Connector::Bootstrapping, Event::Started) => {
            effects.push(Effect::Probe(PROBE_SECS));
            Connector::Probing(MAX_RETRIES, None)
        },
        (Connector::Probing(left, failure), Event::Probed(probe)) => match check_status(&probe) {
            Verdict::Fatal(exit) => {
                effects.push(Effect::Exit(exit));
                Connector::Dead
            },
            Verdict::Proceed(pause) => {
                return resume(pause, left, failure);
            },
        },
        (Connector::Retrying(_), Event::Attempted(None)) => {
            effects.push(Effect::Done);
            Connector::Connected
        },
        (Connector::Retrying(left), Event::Attempted(Some(cause))) => {
            effects.push(Effect::Probe(PROBE_SECS));
            Connector::Probing(left, Some(cause))
        },
        (state, _) => state,
    };
    assert(views(effects@) =~= expected.1);
    (after, effects)
}

/// Where a run of events leads from `state`: the last state, and everything
/// the caller was told to do on the way, in order.
pub open spec fn run(state: ConnectorView, events: Seq<EventView>) -> (
    ConnectorView,
    Seq<EffectView>,
)
    decreases events.len(),
{
    if events.len() == 0 {
        (state, Seq::empty())
    } else {
        let before = run(state, events.drop_last());
        let last = step(before.0, events.last());
        (last.0, before.1 + last.1)
    }
}

/// How many times `effects` asks for a daemon to be started.
pub open spec fn starts(effects: Seq<EffectView>) -> nat
    decreases effects.len(),
{
    if effects.len() == 0 {
        0
    } else {
        starts(effects.drop_last()) + if effects.last() is StartDaemon {
            1nat
        } else {
            0nat
        }
    }
}

/// How many times `effects` asks for an attempt.
pub open spec fn attempts(effects: Seq<EffectView>) -> nat
    decreases effects.len(),
{
    if effects.len() == 0 {
        0
    } else {
        attempts(effects.drop_last()) + if effects.last() is Attempt {
            1nat
        } else {
            0nat
        }
    }
}

/// The events of attempts that fail one after the other, for these causes,
/// each followed by a probe that finds the daemon running.
pub open spec fn failures(causes: Seq<Seq<char>>) -> Seq<EventView>
    decreases causes.len(),
{
    if causes.len() == 0 {
        Seq::empty()
    } else {
        failures(causes.drop_last()) + seq![
            EventView::Attempted(Some(causes.last())),
            EventView::Probed(ProbeView::Running),
        ]
    }
}

/// Whether the one start of a daemon that a run may ask for lies behind.
pub open spec fn bootstrapped(state: ConnectorView) -> bool {
    !(state is Idle) && !(state is FirstAttempt)
}

proof fn lemma_starts_add(a: Seq<EffectView>, b: Seq<EffectView>)
    ensures
        starts(a + b) == starts(a) + starts(b),
    decreases b.len(),
{
    if b.len() == 0 {
        assert(a + b =~= a);
    } else {
        assert((a + b).drop_last() =~= a + b.drop_last());
        lemma_starts_add(a, b.drop_last());
    }
}

proof fn lemma_attempts_add(a: Seq<EffectView>, b: Seq<EffectView>)
    ensures
        attempts(a + b) == attempts(a) + attempts(b),
    decreases b.len(),
{
    if b.len() == 0 {
        assert(a + b =~= a);
    } else {
        assert((a + b).drop_last() =~= a + b.drop_last());
        lemma_attempts_add(a, b.drop_last());
    }
}

proof fn lemma_counts_one(effect: EffectView)
    ensures
        starts(seq![effect]) == if effect is StartDaemon {
            1nat
        } else {
            0nat
        },
        attempts(seq![effect]) == if effect is Attempt {
            1nat
        } else {
            0nat
        },
{
    reveal_with_fuel(starts, 2);
    reveal_with_fuel(attempts, 2);
    assert(seq![effect].drop_last() =~= Seq::<EffectView>::empty());
}

proof fn lemma_counts_after_probe(pause: int, left: nat, failure: Option<Seq<char>>)
    ensures
        starts(after_probe(pause, left, failure).1) == 0,
        attempts(after_probe(pause, left, failure).1) == if after_probe(
            pause,
            left,
            failure,
        ).0 is Retrying {
            1nat
        } else {
            0nat
        },
{
    let report = match failure {
        Some(cause) => failure_report(cause, left),
        None => Seq::empty(),
    };
    let head = seq![EffectView::Pause(pause)];
    let tail = after_probe(pause, left, failure).1.skip((head.len() + report.len()) as int);
    assert(after_probe(pause, left, failure).1 =~= head + report + tail);
    lemma_starts_add(head + report, tail);
    lemma_starts_add(head, report);
    lemma_attempts_add(head + report, tail);
    lemma_attempts_add(head, report);
    lemma_counts_one(head[0]);
    lemma_counts_one(tail[0]);
    assert(tail =~= seq![tail[0]]);
    if failure is Some {
        let first = seq![report[0]];
        let second = seq![report[1]];
        assert(report =~= first + second);
        lemma_starts_add(first, second);
        lemma_attempts_add(first, second);
        lemma_counts_one(report[0]);
        lemma_counts_one(report[1]);
    }
}

proof fn lemma_counts_step(state: ConnectorView, event: EventView)
    ensures
        starts(step(state, event).1) <= 1,
        bootstrapped(state) ==> starts(step(state, event).1) == 0,
        bootstrapped(state) || starts(step(state, event).1) == 1 ==> bootstrapped(
            step(state, event).0,
        ),
{
    let effects = step(state, event).1;
    if effects.len() == 1 {
        assert(effects =~= seq![effects[0]]);
        lemma_counts_one(effects[0]);
    } else if effects.len() > 1 {
        match (state, event) {
            (ConnectorView::Probing(left, failure), EventView::Probed(probe)) => {
                match status_verdict(probe) {
                    VerdictView::Proceed(pause) => {
                        lemma_counts_after_probe(pause, left, failure);
                    },
                    VerdictView::Fatal(_) => {},
                }
            },
            _ => {},
        }
    }
}

/// A daemon is started once at most, whatever happens: of all that a run of
/// events from any state asks for, at most one is the start of a daemon, and
/// none is where the run begins behind that start.
pub proof fn lemma_bootstrap_at_most_once(state: ConnectorView, events: Seq<EventView>)
    ensures
        starts(run(state, events).1) <= 1,
        bootstrapped(state) ==> starts(run(state, events).1) == 0,
        bootstrapped(state) || starts(run(state, events).1) == 1 ==> bootstrapped(
            run(state, events).0,
        ),
    decreases events.len(),
{
    if events.len() > 0 {
        let before = run(state, events.drop_last());
        lemma_bootstrap_at_most_once(state, events.drop_last());
        lemma_counts_step(before.0, events.last());
        lemma_starts_add(before.1, step(before.0, events.last()).1);
    }
}

/// How many attempts a state still allows once a daemon has been started.
pub open spec fn budget(state: ConnectorView) -> nat {
    match state {
        ConnectorView::Idle | ConnectorView::FirstAttempt | ConnectorView::Bootstrapping => {
            MAX_RETRIES as nat
        },
        ConnectorView::Probing(left, _) => left,
        ConnectorView::Retrying(left) => left,
        ConnectorView::Connected | ConnectorView::Exhausted | ConnectorView::Dead => 0,
    }
}

/// The number of attempts left never grows, whatever happens; each failed
/// attempt that is reported takes one away; and with none left after a probe
/// the run is over.
pub proof fn lemma_budget_never_grows(state: ConnectorView, events: Seq<EventView>)
    ensures
        budget(run(state, events).0) <= budget(state),
        forall|left: nat, cause: Seq<char>|
            left > 0 ==> budget(
                #[trigger] step(
                    ConnectorView::Probing(left, Some(cause)),
                    EventView::Probed(ProbeView::Running),
                ).0,
            ) == left - 1,
        forall|left: nat, failure: Option<Seq<char>>, probe: ProbeView|
            budget(#[trigger] step(ConnectorView::Probing(left, failure), EventView::Probed(probe)).0)
                == 0 ==> !(step(
                ConnectorView::Probing(left, failure),
                EventView::Probed(probe),
            ).0 is Retrying),
    decreases events.len(),
{
    if events.len() > 0 {
        lemma_budget_never_grows(state, events.drop_last());
    }
}

/// A run of events in two parts leads where the second part leads from where
/// the first has led.
pub proof fn lemma_run_add(state: ConnectorView, first: Seq<EventView>, second: Seq<EventView>)
    ensures
        run(state, first + second).0 == run(run(state, first).0, second).0,
        run(state, first + second).1 == run(state, first).1 + run(run(state, first).0, second).1,
    decreases second.len(),
{
    if second.len() == 0 {
        assert(first + second =~= first);
        assert(run(state, first).1 + Seq::<EffectView>::empty() =~= run(state, first).1);
    } else {
        assert((first + second).drop_last() =~= first + second.drop_last());
        lemma_run_add(state, first, second.drop_last());
        let middle = run(state, first);
        let before = run(middle.0, second.drop_last());
        let last = step(before.0, second.last());
        assert(middle.1 + (before.1 + last.1) =~= (middle.1 + before.1) + last.1);
    }
}

/// A run of two events takes two steps.
pub proof fn lemma_run_two(state: ConnectorView, first: EventView, second: EventView)
    ensures
        run(state, seq![first, second]).0 == step(step(state, first).0, second).0,
        run(state, seq![first, second]).1 == step(state, first).1 + step(
            step(state, first).0,
            second,
        ).1,
{
    let events = seq![first, second];
    assert(events.drop_last() =~= seq![first]);
    assert(events.drop_last().drop_last() =~= Seq::<EventView>::empty());
    reveal_with_fuel(run, 3);
    assert(Seq::<EffectView>::empty() + step(state, first).1 =~= step(state, first).1);
}

/// Once every attempt has failed, nothing more is asked for, whatever comes.
pub proof fn lemma_exhausted_is_final(events: Seq<EventView>)
    ensures
        run(ConnectorView::Exhausted, events) == (
            ConnectorView::Exhausted,
            Seq::<EffectView>::empty(),
        ),
    decreases events.len(),
{
    if events.len() > 0 {
        lemma_exhausted_is_final(events.drop_last());
        assert(Seq::<EffectView>::empty() + Seq::<EffectView>::empty() =~= Seq::<
            EffectView,
        >::empty());
    }
}

/// Where failed attempts lead after the start of a daemon whose process keeps
/// running: while fewer than `MAX_RETRIES` have failed, to the next attempt,
/// one for each failure so far and one more; once `MAX_RETRIES` have failed,
/// to the end, with no attempt beyond those.
pub proof fn lemma_failures_count_down(causes: Seq<Seq<char>>)
    requires
        causes.len() <= MAX_RETRIES,
    ensures
        ({
            let (state, effects) = run(
                ConnectorView::Bootstrapping,
                seq![EventView::Started, EventView::Probed(ProbeView::Running)] + failures(
                    causes,
                ),
            );
            &&& causes.len() < MAX_RETRIES ==> state == ConnectorView::Retrying(
                (MAX_RETRIES - causes.len()) as nat,
            ) && attempts(effects) == causes.len() + 1
            &&& causes.len() == MAX_RETRIES ==> state == ConnectorView::Exhausted && attempts(
                effects,
            ) == MAX_RETRIES && effects.last() == EffectView::Exit(exhausted_exit())
        }),
    decreases causes.len(),
{
    let start = seq![EventView::Started, EventView::Probed(ProbeView::Running)];
    if causes.len() == 0 {
        assert(start + failures(causes) =~= start);
        lemma_run_two(ConnectorView::Bootstrapping, start[0], start[1]);
        let probing = step(ConnectorView::Bootstrapping, start[0]);
        let resumed = step(probing.0, start[1]);
        assert(probing.1 =~= seq![probing.1[0]]);
        lemma_counts_one(probing.1[0]);
        lemma_counts_after_probe(PAUSE_SECS as int, MAX_RETRIES as nat, None);
        lemma_attempts_add(probing.1, resumed.1);
    } else {
        let earlier = causes.drop_last();
        lemma_failures_count_down(earlier);
        let round = seq![
            EventView::Attempted(Some(causes.last())),
            EventView::Probed(ProbeView::Running),
        ];
        assert(start + failures(causes) =~= (start + failures(earlier)) + round);
        lemma_run_add(ConnectorView::Bootstrapping, start + failures(earlier), round);
        let before = run(ConnectorView::Bootstrapping, start + failures(earlier));
        let left = (MAX_RETRIES - earlier.len()) as nat;
        lemma_run_two(before.0, round[0], round[1]);
        let probing = step(before.0, round[0]);
        let resumed = step(probing.0, round[1]);
        assert(probing.1 =~= seq![probing.1[0]]);
        lemma_counts_one(probing.1[0]);
        lemma_counts_after_probe(PAUSE_SECS as int, left, Some(causes.last()));
        lemma_attempts_add(probing.1, resumed.1);
        lemma_attempts_add(before.1, probing.1 + resumed.1);
        assert((before.1 + (probing.1 + resumed.1)).last() == resumed.1.last());
    }
}

/// The number of attempts after the start of a daemon is bounded: when
/// exactly `MAX_RETRIES` of them have failed one after the other, the client
/// ends with the fatal error that says the daemon could not be started, it has
/// made `MAX_RETRIES` attempts since the start and no more, and nothing that
/// happens afterwards makes it ask for anything.
pub proof fn lemma_retry_ceiling(causes: Seq<Seq<char>>, later: Seq<EventView>)
    requires
        causes.len() == MAX_RETRIES,
    ensures
        ({
            let events = seq![EventView::Started, EventView::Probed(ProbeView::Running)]
                + failures(causes);
            let (state, effects) = run(ConnectorView::Bootstrapping, events);
            &&& state == ConnectorView::Exhausted
            &&& effects.last() == EffectView::Exit(exhausted_exit())
            &&& attempts(effects) == MAX_RETRIES
            &&& run(ConnectorView::Bootstrapping, events + later) == (state, effects)
        }),
{
    let events = seq![EventView::Started, EventView::Probed(ProbeView::Running)] + failures(
        causes,
    );
    lemma_failures_count_down(causes);
    lemma_run_add(ConnectorView::Bootstrapping, events, later);
    lemma_exhausted_is_final(later);
    let effects = run(ConnectorView::Bootstrapping, events).1;
    assert(effects + Seq::<EffectView>::empty() =~= effects);
}

} // verus!
