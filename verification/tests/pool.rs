use std::time::Duration;

use rust_chanpool::dispatch::{admission, MAX_PERMITS};
use rust_chanpool::{settle, Dispatcher, Outcome, PoolConfig, PoolError};

fn config(workers: usize, queue_capacity: usize) -> PoolConfig {
    PoolConfig { workers, queue_capacity, default_timeout: None }
}

#[test]
fn error_messages() {
    assert_eq!(PoolError::PoolAtCapacity.message(), "pool is at capacity");
    assert_eq!(PoolError::WorkerShutDown.message(), "worker is shut down");
    assert_eq!(PoolError::Timeout.message(), "job timed out");
    assert_eq!(PoolError::Cancelled.message(), "job was cancelled");
    assert_eq!(
        PoolError::JobFailed("negative input".to_string()).message(),
        "job failed: negative input"
    );
    assert_eq!(PoolError::JobFailed(String::new()).message(), "job failed: ");
}

#[test]
fn default_config_uses_cpu_count() {
    let c = PoolConfig::default();
    assert_eq!(c.workers, num_cpus::get());
    assert!(c.workers >= 1);
    assert_eq!(c.queue_capacity, 100);
    assert!(c.default_timeout.is_none());
}

#[test]
fn default_for_given_workers() {
    let c = PoolConfig::default_for(7);
    assert_eq!(c.workers, 7);
    assert_eq!(c.queue_capacity, 100);
    assert!(c.default_timeout.is_none());
}

#[test]
fn new_pool_has_one_queue_per_worker() {
    let (pool, receivers) = Dispatcher::<u32>::new(config(2, 10));
    assert_eq!(receivers.len(), 2);
    assert_eq!(pool.config().workers, 2);
    assert_eq!(pool.config().queue_capacity, 10);
    assert_eq!(pool.sender(0).max_capacity(), 10);
    assert_eq!(pool.sender(1).max_capacity(), 10);
    assert_eq!(receivers[1].max_capacity(), 10);
}

#[test]
fn every_queue_has_the_configured_bound() {
    let (pool, _receivers) = Dispatcher::<u32>::new(config(3, 7));
    for i in 0..3 {
        assert_eq!(pool.queue(i).bound(), 7);
        assert_eq!(pool.queue(i).sender().max_capacity(), 7);
    }
    let (queue, rx) = rust_chanpool::JobQueue::<u8>::open(4);
    assert_eq!(queue.bound(), 4);
    assert_eq!(rx.max_capacity(), 4);
}

#[test]
fn reserved_permit_comes_from_the_pool_semaphore() {
    let (pool, _receivers) = Dispatcher::<u32>::new(config(2, 2));
    let r = pool.reserve().unwrap();
    assert!(std::sync::Arc::ptr_eq(r.permit.semaphore(), pool.semaphore()));
}

#[test]
fn total_capacity_is_workers_times_queue() {
    let (pool, _receivers) = Dispatcher::<u32>::new(config(4, 10));
    assert_eq!(pool.total_capacity(), 40);
    let (pool, _receivers) = Dispatcher::<u32>::new(config(1, 1));
    assert_eq!(pool.total_capacity(), 1);
}

#[test]
fn fresh_pool_has_all_slots_free() {
    let (pool, _receivers) = Dispatcher::<u32>::new(config(2, 3));
    assert_eq!(pool.available_capacity(), 6);
    assert_eq!(pool.available_capacity(), pool.total_capacity());
}

#[test]
fn empty_pool_builds() {
    let (pool, receivers) = Dispatcher::<u32>::new(config(0, 0));
    assert!(receivers.is_empty());
    assert_eq!(pool.total_capacity(), 0);
    assert_eq!(pool.available_capacity(), 0);
}

#[test]
fn reserve_picks_a_worker_of_the_pool() {
    let (pool, _receivers) = Dispatcher::<u32>::new(config(4, 10));
    for _ in 0..20 {
        let r = pool.reserve().unwrap();
        assert!(r.worker < 4);
    }
}

#[test]
fn reservation_holds_a_permit_until_dropped() {
    let (pool, _receivers) = Dispatcher::<u32>::new(config(1, 2));
    let first = pool.reserve().unwrap();
    assert_eq!(pool.available_capacity(), 1);
    let second = pool.reserve().unwrap();
    assert_eq!(pool.available_capacity(), 0);
    // The queue still has room, but every permit is held.
    assert!(matches!(pool.reserve(), Err(PoolError::PoolAtCapacity)));
    drop(first);
    assert_eq!(pool.available_capacity(), 1);
    drop(second);
    assert_eq!(pool.available_capacity(), 2);
}

#[test]
fn full_queue_refuses_without_taking_a_permit() {
    let (pool, _receivers) = Dispatcher::<u32>::new(config(1, 1));
    pool.sender(0).try_send(1).unwrap();
    assert!(matches!(pool.reserve(), Err(PoolError::PoolAtCapacity)));
    assert_eq!(pool.available_capacity(), 1);
}

#[test]
fn room_comes_back_when_a_worker_takes_its_job() {
    let (pool, mut receivers) = Dispatcher::<u32>::new(config(1, 1));
    pool.sender(0).try_send(5).unwrap();
    assert!(matches!(pool.reserve(), Err(PoolError::PoolAtCapacity)));
    assert_eq!(receivers[0].try_recv().unwrap(), 5);
    let r = pool.reserve().unwrap();
    assert_eq!(r.worker, 0);
}

#[test]
fn admission_verdicts() {
    assert!(matches!(admission(0, Some(9u8)), Err(PoolError::PoolAtCapacity)));
    assert!(matches!(admission::<u8>(0, None), Err(PoolError::PoolAtCapacity)));
    assert!(matches!(admission::<u8>(3, None), Err(PoolError::PoolAtCapacity)));
    assert!(matches!(admission(1, Some(9u8)), Ok(9)));
}

#[test]
fn completed_reservation_keeps_its_permit() {
    let (pool, _receivers) = Dispatcher::<u32>::new(config(1, 2));
    let r = pool.reserve().unwrap();
    let permit = r.complete(true).unwrap();
    assert_eq!(permit.num_permits(), 1);
    assert_eq!(pool.available_capacity(), 1);
    drop(permit);
    assert_eq!(pool.available_capacity(), 2);
}

#[test]
fn refused_reservation_releases_its_permit() {
    let (pool, _receivers) = Dispatcher::<u32>::new(config(1, 2));
    let r = pool.reserve().unwrap();
    assert_eq!(pool.available_capacity(), 1);
    assert!(matches!(r.complete(false), Err(PoolError::WorkerShutDown)));
    assert_eq!(pool.available_capacity(), 2);
}

#[test]
fn settle_gives_back_the_job_result() {
    assert_eq!(settle::<u32>(Outcome::Completed(Ok(42))).unwrap(), 42);
    let failed = settle::<i32>(Outcome::Completed(Err(PoolError::JobFailed(
        "negative input".to_string(),
    ))));
    assert!(matches!(failed, Err(PoolError::JobFailed(msg)) if msg == "negative input"));
    assert!(matches!(settle::<u32>(Outcome::Dropped), Err(PoolError::Cancelled)));
    assert!(matches!(settle::<u32>(Outcome::TimedOut), Err(PoolError::Timeout)));
}

#[test]
fn config_keeps_its_timeout() {
    let c = PoolConfig {
        workers: 1,
        queue_capacity: 1,
        default_timeout: Some(Duration::from_millis(50)),
    };
    let (pool, _receivers) = Dispatcher::<u32>::new(c);
    assert_eq!(pool.config().default_timeout, Some(Duration::from_millis(50)));
}

#[test]
fn max_permits_matches_tokio() {
    assert_eq!(MAX_PERMITS, tokio::sync::Semaphore::MAX_PERMITS);
}
