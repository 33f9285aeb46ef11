//! When the service stops.
//!
//! The listener runs until the hosting environment asks the process to stop,
//! by an interrupt or by a termination signal. The first of them begins the
//! shutdown: no new call is accepted and the calls in flight run to their end.
//! Whatever arrives after that finds the shutdown under way and changes
//! nothing. Waiting for the signals and draining the listener is the work of
//! the caller; what a signal means is decided here.

use vstd::prelude::*;

verus! {

/// How the hosting environment asks the process to stop.
#[derive(Clone, Copy, Debug, PartialEq, Eq, Hash, Structural)]
pub enum Signal {
    /// An interrupt from the terminal.
    Interrupt,
    /// A request to terminate.
    Terminate,
}

/// Where the service is in its life.
#[derive(Clone, Copy, Debug, PartialEq, Eq, Hash, Structural)]
pub enum Phase {
    /// The listener accepts calls.
    Serving,
    /// A signal was observed: the listener accepts no new call and the calls
    /// in flight are left to complete.
    ShuttingDown,
}

/// What a signal asks of the listener.
#[derive(Clone, Copy, Debug, PartialEq, Eq, Hash, Structural)]
pub enum Action {
    /// Stop accepting calls and let those in flight complete.
    BeginShutdown,
    /// Nothing: the shutdown is under way.
    Ignore,
}

/// The phase after a signal and what the signal asks for: the first signal
/// begins the shutdown, of whichever kind it is, and every later one is
/// ignored.
pub open spec fn on_signal_spec(phase: Phase, signal: Signal) -> (Phase, Action) {
    match phase {
        Phase::Serving => (Phase::ShuttingDown, Action::BeginShutdown),
        Phase::ShuttingDown => (Phase::ShuttingDown, Action::Ignore),
    }
}

/// The phase after each of `signals` has been observed in turn.
pub open spec fn after_signals(phase: Phase, signals: Seq<Signal>) -> Phase
    decreases signals.len(),
{
    if signals.len() == 0 {
        phase
    } else {
        on_signal_spec(after_signals(phase, signals.drop_last()), signals.last()).0
    }
}

impl Phase {
    /// The phase of a service that has just been started.
    pub fn start() -> (phase: Phase)
        ensures
            phase == Phase::Serving,
    {
        Phase::Serving
    }

    /// Observes one signal: the phase that follows, and what to do now.
    pub fn on_signal(self, signal: Signal) -> (next: (Phase, Action))
        ensures
            next == on_signal_spec(self, signal),
    {
        match self {
            Phase::Serving => (Phase::ShuttingDown, Action::BeginShutdown),
            Phase::ShuttingDown => (Phase::ShuttingDown, Action::Ignore),
        }
    }
}

/// Once any signal has been observed, the service is shutting down, however
/// many signals follow.
pub proof fn lemma_signals_end_serving(phase: Phase, signals: Seq<Signal>)
    ensures
        after_signals(phase, signals) == if signals.len() == 0 {
            phase
        } else {
            Phase::ShuttingDown
        },
    decreases signals.len(),
{
    if signals.len() > 0 {
        lemma_signals_end_serving(phase, signals.drop_last());
    }
}

/// The first signal wins: of the signals that a serving service observes, the
/// one that arrives first begins the shutdown, and no other does.
pub proof fn lemma_first_signal_wins(signals: Seq<Signal>, i: int)
    requires
        0 <= i < signals.len(),
    ensures
        on_signal_spec(after_signals(Phase::Serving, signals.take(i)), signals[i]).1
            == Action::BeginShutdown <==> i == 0,
{
    lemma_signals_end_serving(Phase::Serving, signals.take(i));
}

/// Which of the two kinds the first signal is makes no difference.
pub proof fn lemma_signal_kind_is_irrelevant(phase: Phase, first: Signal, second: Signal)
    ensures
        on_signal_spec(phase, first) == on_signal_spec(phase, second),
{
}

} // verus!
