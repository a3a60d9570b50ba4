use vstd::prelude::*;

verus! {

/// Why a quorum connection could not be established.
#[derive(Clone, Copy, Debug, PartialEq, Eq, Structural)]
pub enum ConnectionError {
    /// The network failed before a channel was open.
    Network,
    /// The transport handshake with a replica failed.
    Handshake,
    /// A replica's attestation was rejected.
    Attestation,
}

/// A failure reported by the protocol engine, as it classified it.
#[derive(Clone, Copy, Debug, PartialEq, Eq, Structural)]
pub enum ProtocolError {
    /// Not enough replicas agreed on the result.
    QuorumNotReached,
    /// The servers report that no restore attempts are left.
    TriesExhausted,
    /// A cryptographic check on the servers' answers failed.
    VerificationFailed,
    /// The share set could not be read.
    MalformedShareSet,
    /// The servers hold no shares for this backup.
    DataMissing,
}

/// The one error type that every operation surfaces.
#[derive(Clone, Copy, Debug, PartialEq, Eq, Structural)]
pub enum Error {
    /// The quorum connection could not be established.
    Connection(ConnectionError),
    /// The protocol engine failed.
    Protocol(ProtocolError),
}

} // verus!
