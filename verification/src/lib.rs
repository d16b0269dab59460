//! Verified core of a channel pool: a fixed set of workers, each fed by its own
//! bounded job queue, with a shared semaphore that bounds the jobs in flight.
//!
//! The library holds the pool's configuration, its errors, the queues and the
//! semaphore, and decides every answer that a submission or a wait gives.
//! Spawning workers and awaiting on channels is left to the caller's runtime.

pub mod config;
pub mod dispatch;
pub mod error;
pub mod handle;

pub use config::PoolConfig;
pub use dispatch::{Dispatcher, JobQueue, Permits, Reservation};
pub use error::PoolError;
pub use handle::{settle, Outcome};
