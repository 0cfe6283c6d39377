use vstd::prelude::*;

use crate::options::{spec_log_sink, LogSink, Options};

verus! {

/// The path of the one route.
pub const ROOT_PATH: &'static str = "/";

/// The body that `GET /` answers with.
pub fn root() -> (r: &'static str)
    ensures
        r@ == "Hello, World!"@,
{
    "Hello, World!"
}

/// Why startup gave up.
#[derive(Clone, Copy, Debug, PartialEq, Eq, Structural)]
pub enum StartupError {
    /// The logging sink could not be installed.
    SinkInit,
    /// The bind address does not parse.
    InvalidAddress,
}

/// Where startup stands.
#[derive(Clone, Copy, Debug, PartialEq, Eq, Structural)]
pub enum Phase {
    /// Configuration is read; the logging sink is being installed.
    Configured,
    /// The sink is in place; the bind address is being checked.
    SinkReady,
    /// Connections are being accepted.
    Serving,
    /// Startup was abandoned; nothing is accepted.
    Aborted(StartupError),
}

/// The outcome of a piece of outside work, handed back to the state machine.
#[derive(Clone, Copy, Debug, PartialEq, Eq, Structural)]
pub enum Event {
    /// Installing the logging sink succeeded (`true`) or failed.
    SinkInstalled(bool),
    /// The bind address parsed (`true`) or did not.
    AddressChecked(bool),
}

/// What the runner does next.
#[derive(Clone, Copy, Debug, PartialEq, Eq, Structural)]
pub enum Action {
    InstallSink(LogSink),
    CheckAddress,
    Serve,
    Abort(StartupError),
    /// The event did not belong to the phase; nothing to do.
    Ignore,
}

#[derive(Clone, Copy, Debug, PartialEq, Eq, Structural)]
pub struct Transition {
    pub phase: Phase,
    pub action: Action,
}

/// One step of startup: install the sink, then check the address, then serve;
/// a failure at either step aborts, and the end phases never change.
pub open spec fn spec_step(phase: Phase, event: Event) -> Transition {
    match (phase, event) {
        (Phase::Configured, Event::SinkInstalled(true)) => Transition {
            phase: Phase::SinkReady,
            action: Action::CheckAddress,
        },
        (Phase::Configured, Event::SinkInstalled(false)) => Transition {
            phase: Phase::Aborted(StartupError::SinkInit),
            action: Action::Abort(StartupError::SinkInit),
        },
        (Phase::SinkReady, Event::AddressChecked(true)) => Transition {
            phase: Phase::Serving,
            action: Action::Serve,
        },
        (Phase::SinkReady, Event::AddressChecked(false)) => Transition {
            phase: Phase::Aborted(StartupError::InvalidAddress),
            action: Action::Abort(StartupError::InvalidAddress),
        },
        _ => Transition { phase, action: Action::Ignore },
    }
}

/// The phase after a whole sequence of events.
pub open spec fn run(phase: Phase, events: Seq<Event>) -> Phase
    decreases events.len(),
{
    if events.len() == 0 {
        phase
    } else {
        run(spec_step(phase, events[0]).phase, events.drop_first())
    }
}

/// The first action of startup: install the sink the configuration selects.
pub fn start(options: &Options) -> (r: Transition)
    ensures
        r == (Transition {
            phase: Phase::Configured,
            action: Action::InstallSink(spec_log_sink(options.tracing)),
        }),
{
    Transition { phase: Phase::Configured, action: Action::InstallSink(options.log_sink()) }
}

/// The next phase and action after `event` in `phase`.
pub fn step(phase: Phase, event: Event) -> (r: Transition)
    ensures
        r == spec_step(phase, event),
{
    match (phase, event) {
        (Phase::Configured, Event::SinkInstalled(ok)) => {
            if ok {
                Transition { phase: Phase::SinkReady, action: Action::CheckAddress }
            } else {
                Transition {
                    phase: Phase::Aborted(StartupError::SinkInit),
                    action: Action::Abort(StartupError::SinkInit),
                }
            }
        },
        (Phase::SinkReady, Event::AddressChecked(ok)) => {
            if ok {
                Transition { phase: Phase::Serving, action: Action::Serve }
            } else {
                Transition {
                    phase: Phase::Aborted(StartupError::InvalidAddress),
                    action: Action::Abort(StartupError::InvalidAddress),
                }
            }
        },
        _ => Transition { phase, action: Action::Ignore },
    }
}

/// Once startup has aborted, no later event changes that.
pub proof fn lemma_aborted_is_final(e: StartupError, events: Seq<Event>)
    ensures
        run(Phase::Aborted(e), events) == Phase::Aborted(e),
    decreases events.len(),
{
    if events.len() > 0 {
        lemma_aborted_is_final(e, events.drop_first());
    }
}

/// Serving is only ever entered from a successful address check: if no event
/// reports a valid address, a run that has not yet started serving never does.
pub proof fn lemma_invalid_address_never_serves(phase: Phase, events: Seq<Event>)
    requires
        phase != Phase::Serving,
        forall|i: int| 0 <= i < events.len() ==> events[i] != Event::AddressChecked(true),
    ensures
        run(phase, events) != Phase::Serving,
    decreases events.len(),
{
    if events.len() > 0 {
        let next = spec_step(phase, events[0]).phase;
        assert(next != Phase::Serving);
        let rest = events.drop_first();
        assert forall|i: int| 0 <= i < rest.len() implies rest[i] != Event::AddressChecked(
            true,
        ) by {
            assert(rest[i] == events[i + 1]);
        }
        lemma_invalid_address_never_serves(next, rest);
    }
}

/// An address that does not parse, once the sink is in place, aborts startup
/// for good, whatever comes after.
pub proof fn lemma_invalid_address_aborts(events: Seq<Event>)
    ensures
        run(Phase::SinkReady, seq![Event::AddressChecked(false)] + events) == Phase::Aborted(
            StartupError::InvalidAddress,
        ),
{
    let all = seq![Event::AddressChecked(false)] + events;
    assert(all[0] == Event::AddressChecked(false));
    assert(all.drop_first() =~= events);
    lemma_aborted_is_final(StartupError::InvalidAddress, events);
}

} // verus!
