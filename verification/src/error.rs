use vstd::prelude::*;

verus! {

/// Errors that can occur when using the channel pool.
#[derive(Debug)]
pub enum PoolError {
    /// The pool is at capacity and cannot accept more jobs.
    PoolAtCapacity,
    /// A job was submitted but its worker has been shut down.
    WorkerShutDown,
    /// A job did not complete within its timeout.
    Timeout,
    /// A job was cancelled before it produced a result.
    Cancelled,
    /// A job failed with the given message.
    JobFailed(String),
}

/// The text that describes an error to a person.
pub open spec fn error_message(e: PoolError) -> Seq<char> {
    match e {
        PoolError::PoolAtCapacity => "pool is at capacity"@,
        PoolError::WorkerShutDown => "worker is shut down"@,
        PoolError::Timeout => "job timed out"@,
        PoolError::Cancelled => "job was cancelled"@,
        PoolError::JobFailed(msg) => "job failed: "@ + msg@,
    }
}

impl PoolError {
    /// The human-readable description of this error.
    pub fn message(&self) -> (text: String)
        ensures
            text@ == error_message(*self),
    {
        match self {
            PoolError::PoolAtCapacity => String::from_str("pool is at capacity"),
            PoolError::WorkerShutDown => String::from_str("worker is shut down"),
            PoolError::Timeout => String::from_str("job timed out"),
            PoolError::Cancelled => String::from_str("job was cancelled"),
            PoolError::JobFailed(msg) => String::from_str("job failed: ").concat(msg.as_str()),
        }
    }
}

} // verus!
