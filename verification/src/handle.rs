use vstd::prelude::*;

use crate::error::PoolError;

verus! {

/// How waiting on a submitted job's response channel ended.
pub enum Outcome<R> {
    /// The worker sent the job's result: the value its handler returned,
    /// or the error it failed with.
    Completed(Result<R, PoolError>),
    /// The response channel was dropped before any result was sent.
    Dropped,
    /// The job's timeout elapsed before a result arrived.
    TimedOut,
}

/// What waiting on a job answers: the job's own result where one arrived,
/// `Cancelled` where the response channel was dropped, `Timeout` where the
/// job's timeout elapsed first.
pub fn settle<R>(outcome: Outcome<R>) -> (answer: Result<R, PoolError>)
    ensures
        match outcome {
            Outcome::Completed(result) => answer == result,
            Outcome::Dropped => answer == Err::<R, PoolError>(PoolError::Cancelled),
            Outcome::TimedOut => answer == Err::<R, PoolError>(PoolError::Timeout),
        },
{
    match outcome {
        Outcome::Completed(result) => result,
        Outcome::Dropped => Err(PoolError::Cancelled),
        Outcome::TimedOut => Err(PoolError::Timeout),
    }
}

} // verus!
