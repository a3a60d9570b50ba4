use vstd::prelude::*;

use crate::error::{ConnectionError, Error};

verus! {

/// Where one operation call stands.
#[derive(Clone, Copy, Debug, PartialEq, Eq, Structural)]
pub enum Phase {
    /// Waiting for the connection provider.
    Connecting,
    /// The connections went to the protocol engine; waiting for its answer.
    Running,
    /// The call has its result; nothing more happens in it.
    Finished,
}

/// What a call does once its connect attempt has returned.
#[derive(Debug)]
pub enum Step<C> {
    /// Hand these connections to the protocol engine.
    Run(C),
    /// Return this error to the caller; the engine is not called.
    Finish(Error),
}

/// The decisions of one operation call, apart from the waiting: a call
/// connects once, runs the engine at most once on the connections it got,
/// and returns the first failure or the engine's result.
#[derive(Debug)]
pub struct Dispatch {
    phase: Phase,
}

impl View for Dispatch {
    type V = Phase;

    closed spec fn view(&self) -> Phase {
        self.phase
    }
}

/// The step that follows a connect attempt.
pub open spec fn connect_step<C>(r: Result<C, ConnectionError>) -> Step<C> {
    match r {
        Ok(c) => Step::Run(c),
        Err(e) => Step::Finish(Error::Connection(e)),
    }
}

/// The phase that follows a connect attempt.
pub open spec fn phase_after_connect<C>(r: Result<C, ConnectionError>) -> Phase {
    if r is Ok {
        Phase::Running
    } else {
        Phase::Finished
    }
}

/// What the caller of a whole operation receives: the connect failure, or,
/// once connected, the engine's answer as it is.
pub open spec fn call_outcome<C, V>(
    connected: Result<C, ConnectionError>,
    answer: Result<V, Error>,
) -> Result<V, Error> {
    match connected {
        Ok(_) => answer,
        Err(e) => Err(Error::Connection(e)),
    }
}

/// A connect failure ends the call at once with that same failure as a
/// connection error: the engine is not called, and the caller receives no
/// share set and no evaluation result.
pub proof fn lemma_connect_failure_ends_call<C, V>(e: ConnectionError)
    ensures
        connect_step::<C>(Err(e)) == Step::<C>::Finish(Error::Connection(e)),
        phase_after_connect::<C>(Err(e)) == Phase::Finished,
        forall|answer: Result<V, Error>|
            #[trigger] call_outcome::<C, V>(Err(e), answer) == Err::<V, Error>(Error::Connection(e)),
{
}

/// A transport drop, whether connect fails or the engine reports the lost
/// connection, reaches the caller as a connection error and with no value.
pub proof fn lemma_transport_drop_surfaces<C, V>(
    connected: Result<C, ConnectionError>,
    answer: Result<V, Error>,
)
    requires
        connected is Err || (answer is Err && answer->Err_0 is Connection),
    ensures
        call_outcome(connected, answer) is Err,
        call_outcome(connected, answer)->Err_0 is Connection,
{
}

/// A successful connect hands its own connections to the engine: the
/// connections the engine runs on are those that this call's connect
/// attempt produced.
pub proof fn lemma_engine_gets_own_connections<C>(c: C)
    ensures
        connect_step::<C>(Ok(c)) == Step::Run(c),
        phase_after_connect::<C>(Ok(c)) == Phase::Running,
{
}

/// Once connected, the engine's answer reaches the caller unchanged: its
/// value as is, and its failure as it classified it.
pub proof fn lemma_engine_result_forwarded<C, V>(c: C, answer: Result<V, Error>)
    ensures
        call_outcome::<C, V>(Ok(c), answer) == answer,
{
}

impl Dispatch {
    /// A new call, about to connect.
    pub fn start() -> (d: Dispatch)
        ensures
            d@ == Phase::Connecting,
    {
        Dispatch { phase: Phase::Connecting }
    }

    pub fn phase(&self) -> (p: Phase)
        ensures
            p == self@,
    {
        self.phase
    }

    /// Takes the connect attempt's result: on success the connections go
    /// on to the engine, on failure the call ends with that error.
    pub fn connected<C>(&mut self, r: Result<C, ConnectionError>) -> (s: Step<C>)
        requires
            old(self)@ == Phase::Connecting,
        ensures
            s == connect_step(r),
            final(self)@ == phase_after_connect(r),
    {
        match r {
            Ok(c) => {
                self.phase = Phase::Running;
                Step::Run(c)
            },
            Err(e) => {
                self.phase = Phase::Finished;
                Step::Finish(Error::Connection(e))
            },
        }
    }

    /// Takes the engine's answer and ends the call with it.
    pub fn completed<V>(&mut self, r: Result<V, Error>) -> (out: Result<V, Error>)
        requires
            old(self)@ == Phase::Running,
        ensures
            out == r,
            final(self)@ == Phase::Finished,
    {
        self.phase = Phase::Finished;
        r
    }
}

} // verus!
