//! Client-side dispatch of the four secure-value-recovery operations
//! (backup, restore, query, remove) over a quorum connection provider.
//!
//! Each operation opens its own connections, hands them to the protocol
//! engine that is paired with the provider, and returns the engine's result
//! or the first failure, unchanged.

pub mod dispatch;
pub mod error;
pub mod traits;
pub mod types;

pub use dispatch::{Dispatch, Phase, Step};
pub use error::{ConnectionError, Error, ProtocolError};
pub use traits::{Backup, PpssEngine, Query, RandomSource, Remove, Restore, Svr3Connect};
pub use types::{EvaluationResult, MaxTries, OpaqueMaskedShareSet};
