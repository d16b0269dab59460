use std::time::Duration;
use vstd::prelude::*;

verus! {

/// The number of jobs each worker's queue holds when nothing else is said.
pub const DEFAULT_QUEUE_CAPACITY: usize = 100;

/// Configuration for the channel pool.
#[derive(Debug, Clone)]
pub struct PoolConfig {
    /// The number of workers in the pool.
    pub workers: usize,
    /// The capacity of each worker's job queue.
    pub queue_capacity: usize,
    /// The timeout given to jobs submitted without one of their own.
    pub default_timeout: Option<Duration>,
}

/// The number of logical CPUs that the current process may use.
///
/// Calls `num_cpus::get`. The count comes from the machine (CPU affinity and
/// cgroup quotas); what its documentation promises of every outcome is that
/// it is at least 1.
#[verifier::external_body]
fn logical_cpus() -> (count: usize)
    ensures
        count >= 1,
{
    num_cpus::get()
}

impl PoolConfig {
    /// The configuration used by default on a machine with `workers` CPUs:
    /// one worker per CPU, queues of `DEFAULT_QUEUE_CAPACITY` jobs, no timeout.
    pub fn default_for(workers: usize) -> (config: PoolConfig)
        ensures
            config.workers == workers,
            config.queue_capacity == DEFAULT_QUEUE_CAPACITY,
            config.default_timeout is None,
    {
        PoolConfig { workers, queue_capacity: DEFAULT_QUEUE_CAPACITY, default_timeout: None }
    }
}

impl Default for PoolConfig {
    /// One worker per logical CPU of this machine, queues of
    /// `DEFAULT_QUEUE_CAPACITY` jobs, no timeout.
    fn default() -> (config: PoolConfig)
        ensures
            config.workers >= 1,
            config.queue_capacity == DEFAULT_QUEUE_CAPACITY,
            config.default_timeout is None,
    {
        let workers = logical_cpus();
        PoolConfig::default_for(workers)
    }
}

} // verus!
