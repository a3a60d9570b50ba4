use vstd::prelude::*;

use crate::dispatch::{call_outcome, Dispatch, Step};
use crate::error::{ConnectionError, Error};
use crate::types::{EvaluationResult, MaxTries, OpaqueMaskedShareSet};

verus! {

/// A cryptographically secure generator supplied by the caller and
/// threaded through to the protocol engine. It may be handed to another
/// thread with the call that uses it, hence `Send`; one instance must not
/// serve two unrelated secrets.
pub trait RandomSource: Send {
    fn fill_bytes(&mut self, dest: &mut [u8]);
}

/// The multi-party protocol engine for one kind of connection bundle. Its
/// failures come classified: a protocol error, or a connection error where
/// the transport dropped while it ran.
pub trait PpssEngine {
    /// The quorum of open channels this engine runs over.
    type Connections;

    fn do_backup<R: RandomSource>(
        connections: Self::Connections,
        password: &str,
        secret: [u8; 32],
        max_tries: MaxTries,
        rng: &mut R,
    ) -> Result<OpaqueMaskedShareSet, Error>;

    fn do_restore<R: RandomSource>(
        connections: Self::Connections,
        password: &str,
        share_set: OpaqueMaskedShareSet,
        rng: &mut R,
    ) -> Result<EvaluationResult, Error>;

    fn do_remove(connections: Self::Connections) -> Result<(), Error>;

    fn do_query(connections: Self::Connections) -> Result<u32, Error>;
}

/// A provider of fresh quorum connections, paired with the engine that can
/// use them: a provider only yields bundles of its engine's type.
pub trait Svr3Connect {
    type Env: PpssEngine;

    fn connect(&self) -> Result<<Self::Env as PpssEngine>::Connections, ConnectionError>;
}

/// Stores a 32-byte secret under a password with a try limit, and returns
/// the share set that a later restore needs.
pub trait Backup {
    fn backup<R: RandomSource>(
        &self,
        password: &str,
        secret: [u8; 32],
        max_tries: MaxTries,
        rng: &mut R,
    ) -> Result<OpaqueMaskedShareSet, Error>;
}

/// Recovers the secret of a backup from its share set and the password.
/// A wrong password is not detected here: the engine decides what it yields.
pub trait Restore {
    fn restore<R: RandomSource>(
        &self,
        password: &str,
        share_set: OpaqueMaskedShareSet,
        rng: &mut R,
    ) -> Result<EvaluationResult, Error>;
}

/// Reports how many restore attempts the servers still allow.
pub trait Query {
    fn query(&self) -> Result<u32, Error>;
}

/// Deletes the backup from the servers, for good.
pub trait Remove {
    fn remove(&self) -> Result<(), Error>;
}

/// The results that `provider`'s connect attempts may report.
pub open spec fn may_connect<T: Svr3Connect>(
    provider: &T,
    c: Result<<T::Env as PpssEngine>::Connections, ConnectionError>,
) -> bool {
    call_ensures(T::connect, (provider,), c)
}

// Every provider gains the four operations. Each connects once; if that
// fails, the connect failure is returned and the engine is not called;
// otherwise the engine runs on those connections with the caller's
// arguments, and its answer is returned as it is.
impl<T: Svr3Connect + Sync> Backup for T {
    fn backup<R: RandomSource>(
        &self,
        password: &str,
        secret: [u8; 32],
        max_tries: MaxTries,
        rng: &mut R,
    ) -> (r: Result<OpaqueMaskedShareSet, Error>)
        ensures
            exists|c, a: Result<OpaqueMaskedShareSet, Error>|
                may_connect(self, c) && (c is Ok ==> exists|g: &mut R|
                    #[trigger] call_ensures(T::Env::do_backup::<R>, (c->Ok_0, password, secret, max_tries, g), a)
                        && *g == *old(rng)
                        && *final(g) == *final(rng))
                    && (c is Err ==> *final(rng) == *old(rng))
                    && r == call_outcome(c, a),
    {
        let mut call = Dispatch::start();
        let connected = self.connect();
        let ghost c = connected;
        match call.connected(connected) {
            Step::Run(connections) => {
                let ghost k = connections;
                let answer = T::Env::do_backup(connections, password, secret, max_tries, rng);
                let ghost a = answer;
                let r = call.completed(answer);
                assert(exists|g: &mut R|
                    #[trigger] call_ensures(T::Env::do_backup::<R>, (k, password, secret, max_tries, g), a)
                        && *g == *old(rng)
                        && *final(g) == *rng);
                assert(may_connect(self, c) && r == call_outcome(c, a));
                r
            },
            Step::Finish(e) => {
                let r: Result<OpaqueMaskedShareSet, Error> = Err(e);
                assert(r == call_outcome(c, arbitrary::<Result<OpaqueMaskedShareSet, Error>>()));
                r
            },
        }
    }
}

impl<T: Svr3Connect + Sync> Restore for T {
    fn restore<R: RandomSource>(
        &self,
        password: &str,
        share_set: OpaqueMaskedShareSet,
        rng: &mut R,
    ) -> (r: Result<EvaluationResult, Error>)
        ensures
            exists|c, a: Result<EvaluationResult, Error>|
                may_connect(self, c) && (c is Ok ==> exists|g: &mut R|
                    #[trigger] call_ensures(T::Env::do_restore::<R>, (c->Ok_0, password, share_set, g), a)
                        && *g == *old(rng)
                        && *final(g) == *final(rng))
                    && (c is Err ==> *final(rng) == *old(rng))
                    && r == call_outcome(c, a),
    {
        let mut call = Dispatch::start();
        let connected = self.connect();
        let ghost c = connected;
        match call.connected(connected) {
            Step::Run(connections) => {
                let ghost k = connections;
                let answer = T::Env::do_restore(connections, password, share_set, rng);
                let ghost a = answer;
                let r = call.completed(answer);
                assert(exists|g: &mut R|
                    #[trigger] call_ensures(T::Env::do_restore::<R>, (k, password, share_set, g), a)
                        && *g == *old(rng)
                        && *final(g) == *rng);
                assert(may_connect(self, c) && r == call_outcome(c, a));
                r
            },
            Step::Finish(e) => {
                let r: Result<EvaluationResult, Error> = Err(e);
                assert(r == call_outcome(c, arbitrary::<Result<EvaluationResult, Error>>()));
                r
            },
        }
    }
}

impl<T: Svr3Connect + Sync> Remove for T {
    fn remove(&self) -> (r: Result<(), Error>)
        ensures
            exists|c, a: Result<(), Error>|
                may_connect(self, c) && (c is Ok ==> call_ensures(T::Env::do_remove, (c->Ok_0,), a))
                    && r == call_outcome(c, a),
    {
        let mut call = Dispatch::start();
        let connected = self.connect();
        let ghost c = connected;
        match call.connected(connected) {
            Step::Run(connections) => {
                let answer = T::Env::do_remove(connections);
                let ghost a = answer;
                let r = call.completed(answer);
                assert(may_connect(self, c) && r == call_outcome(c, a));
                r
            },
            Step::Finish(e) => {
                let r: Result<(), Error> = Err(e);
                assert(r == call_outcome(c, arbitrary::<Result<(), Error>>()));
                r
            },
        }
    }
}

impl<T: Svr3Connect + Sync> Query for T {
    fn query(&self) -> (r: Result<u32, Error>)
        ensures
            exists|c, a: Result<u32, Error>|
                may_connect(self, c) && (c is Ok ==> call_ensures(T::Env::do_query, (c->Ok_0,), a))
                    && r == call_outcome(c, a),
    {
        let mut call = Dispatch::start();
        let connected = self.connect();
        let ghost c = connected;
        match call.connected(connected) {
            Step::Run(connections) => {
                let answer = T::Env::do_query(connections);
                let ghost a = answer;
                let r = call.completed(answer);
                assert(may_connect(self, c) && r == call_outcome(c, a));
                r
            },
            Step::Finish(e) => {
                let r: Result<u32, Error> = Err(e);
                assert(r == call_outcome(c, arbitrary::<Result<u32, Error>>()));
                r
            },
        }
    }
}

} // verus!
