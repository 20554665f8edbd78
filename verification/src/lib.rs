//! A minimal concurrent connection-processing core: an externally accepted
//! connection, identified by a raw OS handle, is claimed as an exclusively
//! owned `ConnectionHandle` and handed to a bounded worker pool, which runs a
//! byte-for-byte echo loop over it and releases the handle on every exit path.
//!
//! The crate verifies the parts that decide: the single-initialization /
//! drain-on-shutdown lifecycle of the pool singleton, and the echo session
//! state machine. The blocking I/O itself is performed by the embedding
//! program, which drives the state machine with the events it observes.

pub mod echo;
pub mod handle;
pub mod lifecycle;
mod pool;

pub use echo::EchoAction;
pub use echo::EchoEvent;
pub use echo::EchoState;
pub use handle::ConnectionHandle;
pub use lifecycle::InitStatus;
pub use lifecycle::Lifecycle;
pub use lifecycle::PoolPhase;
pub use lifecycle::SubmitOutcome;
