use std::sync::Arc;
use tokio::sync::mpsc;
use tokio::sync::{OwnedSemaphorePermit, Semaphore};
use vstd::prelude::*;

use crate::config::PoolConfig;
use crate::error::PoolError;

verus! {

#[verifier::external_type_specification]
#[verifier::external_body]
#[verifier::reject_recursive_types(T)]
pub struct ExJobSender<T>(mpsc::Sender<T>);

#[verifier::external_type_specification]
#[verifier::external_body]
#[verifier::reject_recursive_types(T)]
pub struct ExJobReceiver<T>(mpsc::Receiver<T>);

#[verifier::external_type_specification]
#[verifier::external_body]
pub struct ExSemaphore(Semaphore);

#[verifier::external_type_specification]
#[verifier::external_body]
pub struct ExOwnedSemaphorePermit(OwnedSemaphorePermit);

/// The largest number of permits a semaphore can hold (`Semaphore::MAX_PERMITS`,
/// which tokio defines as `usize::MAX >> 3`). It also bounds a queue's size.
pub const MAX_PERMITS: usize = usize::MAX / 8;

/// Creates a semaphore holding `permits` permits, shared through an `Arc`,
/// and keeps it with the number of permits it was created with.
///
/// Calls `tokio::sync::Semaphore::new`, which panics above `MAX_PERMITS` and
/// otherwise creates the semaphore "with the initial number of permits"; the
/// record's count is that argument. Nothing is claimed of the live count.
#[verifier::external_body]
fn new_semaphore(permits: usize) -> (created: Permits)
    requires
        permits <= MAX_PERMITS,
    ensures
        created.spec_initial() == permits,
{
    Permits { semaphore: Arc::new(Semaphore::new(permits)), initial: permits }
}

/// Creates a bounded job queue that holds up to `buffer` jobs.
///
/// Calls `tokio::sync::mpsc::channel`, which panics when `buffer` is zero
/// or above `MAX_PERMITS` and otherwise opens a channel whose buffer holds
/// `buffer` messages (its `max_capacity`); the queue records that bound.
/// Nothing is claimed of the room left at any moment.
#[verifier::external_body]
fn bounded_queue<J>(buffer: usize) -> (ends: (JobQueue<J>, mpsc::Receiver<J>))
    requires
        0 < buffer <= MAX_PERMITS,
    ensures
        ends.0.spec_bound() == buffer,
{
    let (tx, rx) = mpsc::channel(buffer);
    (JobQueue { tx, bound: buffer }, rx)
}

/// A pool's semaphore, with the number of permits it was created with.
#[derive(Debug)]
pub struct Permits {
    semaphore: Arc<Semaphore>,
    initial: usize,
}

impl Permits {
    /// The number of permits the semaphore was created with.
    pub closed spec fn spec_initial(&self) -> usize {
        self.initial
    }

    /// The semaphore.
    pub closed spec fn spec_semaphore(&self) -> Arc<Semaphore> {
        self.semaphore
    }

    /// The number of permits the semaphore was created with.
    pub fn initial(&self) -> (initial: usize)
        ensures
            initial == self.spec_initial(),
    {
        self.initial
    }

    /// The semaphore.
    pub fn semaphore(&self) -> (semaphore: &Arc<Semaphore>)
        ensures
            *semaphore == self.spec_semaphore(),
    {
        &self.semaphore
    }
}

/// How many more jobs the queue behind `tx` accepts right now.
///
/// Calls `tokio::sync::mpsc::Sender::capacity`. The room changes as other
/// tasks send and receive, so nothing is claimed of it.
#[verifier::external_body]
fn queue_room<J>(tx: &mpsc::Sender<J>) -> (room: usize) {
    tx.capacity()
}

/// The semaphore a permit was taken from: what
/// `tokio::sync::OwnedSemaphorePermit::semaphore` returns, a function of the
/// permit alone.
pub uninterp spec fn permit_origin(permit: OwnedSemaphorePermit) -> Arc<Semaphore>;

/// Takes one permit from the semaphore if one is free, without waiting.
///
/// Calls `tokio::sync::Semaphore::try_acquire_owned` on a clone of the `Arc`
/// and keeps the permit, or `None` where it returned an error (no permit
/// free, or the semaphore closed). Whether a permit comes depends on other
/// tasks; what is claimed is that a permit it gives was taken from this
/// semaphore (tokio builds it holding the `Arc` it was called on).
#[verifier::external_body]
fn try_take_permit(semaphore: &Arc<Semaphore>) -> (permit: Option<OwnedSemaphorePermit>)
    ensures
        permit matches Some(p) ==> permit_origin(p) == *semaphore,
{
    semaphore.clone().try_acquire_owned().ok()
}

/// The permits of the semaphore that no one holds right now.
///
/// Calls `tokio::sync::Semaphore::available_permits`. The count changes as
/// other tasks take, drop and add permits, and no bound holds of every
/// reading (a release that overflows `MAX_PERMITS` panics only after adding
/// its permits), so nothing is claimed of it.
#[verifier::external_body]
fn free_permits(semaphore: &Semaphore) -> (count: usize) {
    semaphore.available_permits()
}

/// Picks a worker uniformly at random among `workers` of them.
///
/// Calls `fastrand::usize(..workers)`, which panics on an empty range and
/// otherwise returns a number in the range.
#[verifier::external_body]
fn random_worker(workers: usize) -> (index: usize)
    requires
        workers > 0,
    ensures
        index < workers,
{
    fastrand::usize(..workers)
}

/// What the pool answers a submission, from what it saw: the room left in
/// the chosen worker's queue, and the permit it took (only tried where the
/// queue had room).
pub fn admission<P>(room: usize, permit: Option<P>) -> (verdict: Result<P, PoolError>)
    ensures
        room == 0 ==> verdict == Err::<P, PoolError>(PoolError::PoolAtCapacity),
        room > 0 ==> verdict == match permit {
            Some(p) => Ok::<P, PoolError>(p),
            None => Err(PoolError::PoolAtCapacity),
        },
{
    if room == 0 {
        return Err(PoolError::PoolAtCapacity);
    }
    match permit {
        Some(p) => Ok(p),
        None => Err(PoolError::PoolAtCapacity),
    }
}

/// The total number of job slots of a pool: one queue per worker.
pub open spec fn slots(config: PoolConfig) -> int {
    config.workers * config.queue_capacity
}

/// A configuration from which a pool can be built: the slots fit in a
/// semaphore, and where there are workers their queues hold at least one job.
pub open spec fn buildable(config: PoolConfig) -> bool {
    &&& slots(config) <= MAX_PERMITS
    &&& config.workers > 0 ==> config.queue_capacity > 0
}

/// A place in a worker's queue, held while the job is handed over.
#[verifier::reject_recursive_types(J)]
pub struct Reservation<J> {
    /// The worker whose queue takes the job.
    pub worker: usize,
    /// The permit that counts the job against the pool's capacity.
    pub permit: OwnedSemaphorePermit,
    /// The queue whose room was found free when the place was granted.
    pub queue: Ghost<JobQueue<J>>,
}

impl<J> Reservation<J> {
    /// Settles the reservation once the job was handed to the worker's
    /// queue, or not: a job whose worker is gone is refused with
    /// `WorkerShutDown` and its permit is released at once; a job that went
    /// through keeps its permit, which is given back to the caller.
    pub fn complete(self, sent: bool) -> (verdict: Result<OwnedSemaphorePermit, PoolError>)
        ensures
            sent ==> verdict == Ok::<OwnedSemaphorePermit, PoolError>(self.permit),
            !sent ==> verdict == Err::<OwnedSemaphorePermit, PoolError>(PoolError::WorkerShutDown),
    {
        if sent {
            Ok(self.permit)
        } else {
            Err(PoolError::WorkerShutDown)
        }
    }
}

/// A worker's job queue: the sending end of a bounded channel, with the
/// number of jobs the channel was opened to hold.
#[derive(Debug)]
#[verifier::reject_recursive_types(J)]
pub struct JobQueue<J> {
    tx: mpsc::Sender<J>,
    bound: usize,
}

impl<J> JobQueue<J> {
    /// The number of jobs the queue was opened to hold.
    pub closed spec fn spec_bound(&self) -> usize {
        self.bound
    }

    /// The sending end of the queue's channel.
    pub closed spec fn spec_sender(&self) -> mpsc::Sender<J> {
        self.tx
    }

    /// Opens a queue that holds up to `bound` jobs, and returns it with the
    /// receiving end of its channel.
    pub fn open(bound: usize) -> (ends: (JobQueue<J>, mpsc::Receiver<J>))
        requires
            0 < bound <= MAX_PERMITS,
        ensures
            ends.0.spec_bound() == bound,
    {
        bounded_queue(bound)
    }

    /// Grants worker `worker` a place in this queue: reads the room left in
    /// this queue, takes a permit of `semaphore` only where there is room, and
    /// answers as `admission` does. A granted place names this queue, the
    /// given worker, and a permit of `semaphore`.
    pub fn grant(&self, worker: usize, semaphore: &Arc<Semaphore>) -> (granted: Result<
        Reservation<J>,
        PoolError,
    >)
        ensures
            match granted {
                Ok(r) => {
                    &&& r.worker == worker
                    &&& r.queue@ == *self
                    &&& permit_origin(r.permit) == *semaphore
                },
                Err(e) => e == PoolError::PoolAtCapacity,
            },
    {
        let room = queue_room(&self.tx);
        let permit = if room > 0 {
            try_take_permit(semaphore)
        } else {
            None
        };
        match admission(room, permit) {
            Ok(permit) => Ok(Reservation { worker, permit, queue: Ghost(*self) }),
            Err(e) => Err(e),
        }
    }

    /// The number of jobs the queue was opened to hold.
    pub fn bound(&self) -> (bound: usize)
        ensures
            bound == self.spec_bound(),
    {
        self.bound
    }

    /// The sending end of the queue's channel.
    pub fn sender(&self) -> (tx: &mpsc::Sender<J>)
        ensures
            *tx == self.spec_sender(),
    {
        &self.tx
    }
}

/// The number of jobs a sequence of queues holds when every one is full.
pub open spec fn total_bound<J>(queues: Seq<JobQueue<J>>) -> int
    decreases queues.len(),
{
    if queues.len() == 0 {
        0
    } else {
        total_bound(queues.drop_last()) + queues.last().spec_bound()
    }
}

/// Queues that all hold `bound` jobs hold, together, `bound` jobs per queue.
pub proof fn lemma_uniform_bounds_total<J>(queues: Seq<JobQueue<J>>, bound: int)
    requires
        forall|i: int| 0 <= i < queues.len() ==> (#[trigger] queues[i]).spec_bound() == bound,
    ensures
        total_bound(queues) == queues.len() * bound,
    decreases queues.len(),
{
    if queues.len() > 0 {
        let rest = queues.drop_last();
        assert forall|i: int| 0 <= i < rest.len() implies (#[trigger] rest[i]).spec_bound()
            == bound by {
            assert(rest[i] == queues[i]);
        }
        lemma_uniform_bounds_total(rest, bound);
        assert(queues.last() == queues[queues.len() - 1]);
        assert((rest.len() + 1) * bound == rest.len() * bound + bound) by (nonlinear_arith);
    }
}

/// The job queues of a pool's workers and the semaphore that bounds the
/// jobs in flight.
#[derive(Debug)]
#[verifier::reject_recursive_types(J)]
pub struct Dispatcher<J> {
    queues: Vec<JobQueue<J>>,
    permits: Permits,
    config: PoolConfig,
}

impl<J> Dispatcher<J> {
    #[verifier::type_invariant]
    spec fn well_formed(self) -> bool {
        &&& self.queues.len() == self.config.workers
        &&& forall|i: int|
            0 <= i < self.queues.len() ==> (#[trigger] self.queues[i]).spec_bound()
                == self.config.queue_capacity
        &&& self.permits.spec_initial() == slots(self.config)
        &&& buildable(self.config)
    }

    /// The configuration the pool was built with.
    pub closed spec fn spec_config(&self) -> PoolConfig {
        self.config
    }

    /// The workers' queues, in worker order.
    pub closed spec fn queues(&self) -> Seq<JobQueue<J>> {
        self.queues@
    }

    /// The semaphore shared by the pool and its workers.
    pub closed spec fn spec_semaphore(&self) -> Arc<Semaphore> {
        self.permits.spec_semaphore()
    }

    /// The number of permits the pool's semaphore was created with.
    pub closed spec fn spec_initial_permits(&self) -> usize {
        self.permits.spec_initial()
    }

    /// Builds the queues of `config.workers` workers, each holding up to
    /// `config.queue_capacity` jobs, and a semaphore with one permit per slot.
    /// Returns the receiving end of each queue, in worker order, for the
    /// workers to run on.
    pub fn new(config: PoolConfig) -> (built: (Dispatcher<J>, Vec<mpsc::Receiver<J>>))
        requires
            buildable(config),
        ensures
            built.0.spec_config() == config,
            built.0.queues().len() == config.workers,
            forall|i: int|
                0 <= i < config.workers ==> (#[trigger] built.0.queues()[i]).spec_bound()
                    == config.queue_capacity,
            built.0.spec_initial_permits() == slots(config),
            built.0.spec_initial_permits() == total_bound(built.0.queues()),
            built.1.len() == config.workers,
    {
        let workers = config.workers;
        let queue_capacity = config.queue_capacity;
        proof {
            if workers > 0 {
                assert(queue_capacity <= workers * queue_capacity) by (nonlinear_arith)
                    requires
                        workers > 0,
                ;
            }
        }
        let permits = new_semaphore(workers * queue_capacity);
        let mut queues: Vec<JobQueue<J>> = Vec::with_capacity(workers);
        let mut job_rxs: Vec<mpsc::Receiver<J>> = Vec::with_capacity(workers);
        let mut id: usize = 0;
        while id < workers
            invariant
                id <= workers,
                queues.len() == id,
                forall|i: int|
                    0 <= i < id ==> (#[trigger] queues[i]).spec_bound() == queue_capacity,
                job_rxs.len() == id,
                workers > 0 ==> 0 < queue_capacity <= MAX_PERMITS,
            decreases workers - id,
        {
            let (queue, job_rx) = JobQueue::open(queue_capacity);
            queues.push(queue);
            job_rxs.push(job_rx);
            id = id + 1;
        }
        proof {
            lemma_uniform_bounds_total(queues@, queue_capacity as int);
        }
        (Dispatcher { queues, permits, config }, job_rxs)
    }

    /// The configuration the pool was built with.
    pub fn config(&self) -> (config: &PoolConfig)
        ensures
            *config == self.spec_config(),
    {
        &self.config
    }

    /// The sending end of worker `worker`'s queue.
    pub fn sender(&self, worker: usize) -> (tx: &mpsc::Sender<J>)
        requires
            worker < self.spec_config().workers,
        ensures
            *tx == self.queues()[worker as int].spec_sender(),
    {
        proof {
            use_type_invariant(self);
        }
        self.queues[worker].sender()
    }

    /// Worker `worker`'s queue.
    pub fn queue(&self, worker: usize) -> (queue: &JobQueue<J>)
        requires
            worker < self.spec_config().workers,
        ensures
            *queue == self.queues()[worker as int],
    {
        proof {
            use_type_invariant(self);
        }
        &self.queues[worker]
    }

    /// The semaphore that counts the jobs in flight.
    pub fn semaphore(&self) -> (semaphore: &Arc<Semaphore>)
        ensures
            *semaphore == self.spec_semaphore(),
    {
        self.permits.semaphore()
    }

    /// The number of permits the pool's semaphore was created with: one per
    /// job slot.
    pub fn initial_permits(&self) -> (count: usize)
        ensures
            count == self.spec_initial_permits(),
            count == slots(self.spec_config()),
    {
        proof {
            use_type_invariant(self);
        }
        self.permits.initial()
    }

    /// Picks a worker at random and reserves a place for one job: refused
    /// with `PoolAtCapacity` where the worker's queue is full or no permit of
    /// the pool is free. A permit is only taken where the queue has room, and
    /// always from the pool's own semaphore.
    pub fn reserve(&self) -> (reserved: Result<Reservation<J>, PoolError>)
        requires
            self.spec_config().workers > 0,
        ensures
            match reserved {
                Ok(r) => {
                    &&& r.worker < self.spec_config().workers
                    &&& r.queue@ == self.queues()[r.worker as int]
                    &&& permit_origin(r.permit) == self.spec_semaphore()
                },
                Err(e) => e == PoolError::PoolAtCapacity,
            },
    {
        proof {
            use_type_invariant(self);
        }
        let worker = random_worker(self.queues.len());
        self.queues[worker].grant(worker, self.permits.semaphore())
    }

    /// The number of job slots of the pool that are free right now: the
    /// permits of its semaphore that no job holds. Other tasks take, drop and
    /// add permits concurrently, so the count is a snapshot and nothing is
    /// claimed of it.
    pub fn available_capacity(&self) -> (count: usize) {
        free_permits(self.permits.semaphore())
    }

    /// The total number of job slots of the pool: its workers times the
    /// capacity of each worker's queue.
    pub fn total_capacity(&self) -> (count: usize)
        ensures
            count == slots(self.spec_config()),
    {
        proof {
            use_type_invariant(self);
        }
        self.config.workers * self.config.queue_capacity
    }
}

} // verus!
