//! The runner: its configuration, and the decisions by which it locks,
//! runs and finishes jobs.
//!
//! The runner does not touch the database, and it submits no work to its
//! threads. Its caller does: it performs what the runner decides and
//! reports back what came of it.

pub mod attempt;
pub mod channel;
pub mod event;
pub mod fetch;
pub mod worker;

use crate::errors::FailedJobsError;
use crate::errors::PerformError;
use crate::job::BackgroundJob;
use crate::registry::registered;
use crate::registry::unknown_job_type_text;
use crate::registry::JobVTable;
use crate::registry::PerformJob;
use crate::registry::Registry;
use crate::runner::channel::Sender;
use crate::runner::event::Event;
use crate::runner::fetch::jobs_to_queue;
use crate::runner::fetch::PendingJobs;
use crate::runner::fetch::Round;
use std::sync::mpsc::Receiver;
use std::sync::Arc;
use std::time::Duration;
use threadpool::ThreadPool;
use vstd::prelude::*;

verus! {

/// `threadpool::ThreadPool`, the pool of threads that run the worker tasks.
#[verifier::external_type_specification]
#[verifier::external_body]
pub struct ExThreadPool(ThreadPool);

/// The number of threads that `pool` was made with: the number that
/// `ThreadPool::new` was given when it made the pool.
pub uninterp spec fn threads_made_with(pool: ThreadPool) -> usize;

/// `ThreadPool::new` starts a pool of `num_threads` threads. It panics for
/// a pool without threads, which is left out here, and where the system
/// refuses a thread, which cannot be. Of the pool only the number of
/// threads that it was made with is claimed.
pub assume_specification[ ThreadPool::new ](num_threads: usize) -> (pool: ThreadPool)
    requires
        num_threads > 0,
    ensures
        threads_made_with(pool) == num_threads,
;

/// `ThreadPool::join` blocks until the pool has run the jobs it was given.
/// It does not return when it is called from a thread of the pool itself.
pub assume_specification[ ThreadPool::join ](pool: &ThreadPool);

/// `ThreadPool::active_count` is the number of threads of the pool that run
/// a job at this moment. Nothing is claimed of it.
pub assume_specification[ ThreadPool::active_count ](pool: &ThreadPool) -> (count: usize);

/// `ThreadPool::panic_count` is the number of jobs of the pool that have
/// panicked so far. Nothing is claimed of it.
pub assume_specification[ ThreadPool::panic_count ](pool: &ThreadPool) -> (count: usize);

/// The span of `secs` whole seconds, as `Duration::from_secs` makes it.
pub uninterp spec fn duration_from_secs(secs: u64) -> Duration;

/// `Duration::from_secs` makes the span of that many whole seconds.
pub assume_specification[ Duration::from_secs ](secs: u64) -> (span: Duration)
    ensures
        span == duration_from_secs(secs),
;

/// The number of threads of a runner for which none was set.
pub const DEFAULT_THREAD_COUNT: usize = 5;

/// The seconds that a runner waits for a job to start when no other
/// timeout was set.
pub const DEFAULT_JOB_START_TIMEOUT_SECS: u64 = 10;

/// The start of a run of all pending jobs.
pub struct FirstRound {
    /// Where each worker task of the run sends its message.
    pub sender: Sender<Event>,
    /// Where the messages of the workers arrive.
    pub receiver: Receiver<Event>,
    /// The run.
    pub run: PendingJobs,
    /// The number of worker tasks to submit before waiting for the first
    /// message.
    pub jobs_to_queue: usize,
}

/// The configuration of a runner that is yet to be built.
pub struct Builder<Env, ConnectionPool> {
    connection_pool: ConnectionPool,
    environment: Env,
    thread_count: Option<usize>,
    job_start_timeout: Option<Duration>,
}

/// The core runner responsible for locking and running jobs.
#[verifier::reject_recursive_types(H)]
pub struct Runner<Env, ConnectionPool, H> {
    connection_pool: ConnectionPool,
    thread_pool: ThreadPool,
    max_threads: usize,
    environment: Arc<Env>,
    registry: Arc<Registry<Env, H>>,
    job_start_timeout: Duration,
}

impl<Env, ConnectionPool> Builder<Env, ConnectionPool> {
    /// The connection pool that the runner will use.
    pub closed spec fn spec_connection_pool(&self) -> ConnectionPool {
        self.connection_pool
    }

    /// The environment that the runner will pass to the jobs.
    pub closed spec fn spec_environment(&self) -> Env {
        self.environment
    }

    /// The number of threads, if one was set.
    pub closed spec fn spec_thread_count(&self) -> Option<usize> {
        self.thread_count
    }

    /// The start timeout, if one was set.
    pub closed spec fn spec_job_start_timeout(&self) -> Option<Duration> {
        self.job_start_timeout
    }

    /// Set the number of threads to be used to run jobs concurrently.
    ///
    /// Defaults to 5.
    pub fn thread_count(self, thread_count: usize) -> (builder: Self)
        ensures
            builder.spec_thread_count() == Some(thread_count),
            builder.spec_job_start_timeout() == self.spec_job_start_timeout(),
            builder.spec_connection_pool() == self.spec_connection_pool(),
            builder.spec_environment() == self.spec_environment(),
    {
        Builder {
            connection_pool: self.connection_pool,
            environment: self.environment,
            thread_count: Some(thread_count),
            job_start_timeout: self.job_start_timeout,
        }
    }

    /// The amount of time to wait for a job to start before assuming an
    /// error has occurred.
    ///
    /// Defaults to 10 seconds.
    pub fn job_start_timeout(self, timeout: Duration) -> (builder: Self)
        ensures
            builder.spec_job_start_timeout() == Some(timeout),
            builder.spec_thread_count() == self.spec_thread_count(),
            builder.spec_connection_pool() == self.spec_connection_pool(),
            builder.spec_environment() == self.spec_environment(),
    {
        Builder {
            connection_pool: self.connection_pool,
            environment: self.environment,
            thread_count: self.thread_count,
            job_start_timeout: Some(timeout),
        }
    }
}

impl<Env: 'static, ConnectionPool> Builder<Env, ConnectionPool> {
    /// Whether `runner` is what this builder builds from `entries`: it has
    /// the pool and the environment of the builder; the number of threads
    /// and the start timeout that were set, or else 5 threads and 10
    /// seconds; a registry of those of `entries` that are declared for its
    /// environment type; and a thread pool made with that number of
    /// threads.
    pub open spec fn builds<H>(
        &self,
        entries: Seq<JobVTable<H>>,
        runner: Runner<Env, ConnectionPool, H>,
    ) -> bool {
        &&& runner.spec_connection_pool() == self.spec_connection_pool()
        &&& runner.spec_environment() == self.spec_environment()
        &&& runner.max_threads() == match self.spec_thread_count() {
            Some(thread_count) => thread_count,
            None => DEFAULT_THREAD_COUNT,
        }
        &&& runner.spec_job_start_timeout() == match self.spec_job_start_timeout() {
            Some(timeout) => timeout,
            None => duration_from_secs(DEFAULT_JOB_START_TIMEOUT_SECS),
        }
        &&& runner.spec_registry()@ == registered(entries, runner.spec_registry().env_type())
        &&& threads_made_with(runner.spec_thread_pool()) == runner.max_threads()
    }

    /// Build the runner, with a registry of those of `entries` that are
    /// declared for the environment type `Env`.
    ///
    /// A runner needs at least one thread.
    pub fn build<H: Copy>(self, entries: Vec<JobVTable<H>>) -> (runner: Runner<
        Env,
        ConnectionPool,
        H,
    >)
        requires
            self.spec_thread_count() != Some(0usize),
        ensures
            self.builds(entries@, runner),
    {
        let max_threads: usize = match self.thread_count {
            Some(thread_count) => thread_count,
            None => DEFAULT_THREAD_COUNT,
        };
        let job_start_timeout = match self.job_start_timeout {
            Some(timeout) => timeout,
            None => Duration::from_secs(DEFAULT_JOB_START_TIMEOUT_SECS),
        };
        Runner {
            connection_pool: self.connection_pool,
            thread_pool: ThreadPool::new(max_threads),
            max_threads,
            environment: Arc::new(self.environment),
            registry: Arc::new(Registry::load(entries)),
            job_start_timeout,
        }
    }
    /// Build the runner as [`Builder::build`] does, if it has a thread to
    /// run on. A builder that was given no threads is handed back.
    pub fn try_build<H: Copy>(self, entries: Vec<JobVTable<H>>) -> (built: Result<
        Runner<Env, ConnectionPool, H>,
        Self,
    >)
        ensures
            match built {
                Ok(runner) => self.spec_thread_count() != Some(0usize) && self.builds(
                    entries@,
                    runner,
                ),
                Err(builder) => self.spec_thread_count() == Some(0usize) && builder == self,
            },
    {
        match self.thread_count {
            Some(thread_count) => if thread_count == 0 {
                return Err(self);
            },
            None => {},
        }
        Ok(self.build(entries))
    }
}

/// What the panics of the worker threads mean for a check: none is fine,
/// any is an error that tells their number.
pub fn panic_verdict(panic_count: usize) -> (verdict: Result<(), FailedJobsError>)
    ensures
        panic_count == 0 ==> verdict is Ok,
        panic_count != 0 ==> (verdict matches Err(FailedJobsError::Unknown(message)) && message@
            == FailedJobsError::threads_panicked_text(panic_count as nat)),
{
    if panic_count == 0 {
        Ok(())
    } else {
        Err(FailedJobsError::threads_panicked(panic_count))
    }
}

/// What the count of recently failed jobs means for a check. `counted` is
/// the count, or the message of the error that kept it from being read.
pub open spec fn failed_jobs_verdict_spec(counted: Result<i64, String>) -> Result<
    (),
    FailedJobsError,
> {
    match counted {
        Ok(failed_jobs) => if failed_jobs > 0 {
            Err(FailedJobsError::JobsFailed(failed_jobs))
        } else {
            Ok(())
        },
        Err(message) => Err(FailedJobsError::Unknown(message)),
    }
}

/// What the count of recently failed jobs means for a check: the check
/// fails with `JobsFailed(n)` exactly when `n` jobs have failed and `n` is
/// more than none. A count that could not be read fails the check with the
/// message of the error.
pub fn failed_jobs_verdict(counted: Result<i64, String>) -> (verdict: Result<(), FailedJobsError>)
    ensures
        verdict == failed_jobs_verdict_spec(counted),
{
    match counted {
        Ok(failed_jobs) => if failed_jobs > 0 {
            Err(FailedJobsError::JobsFailed(failed_jobs))
        } else {
            Ok(())
        },
        Err(message) => Err(FailedJobsError::Unknown(message)),
    }
}

impl<Env, ConnectionPool> Runner<Env, ConnectionPool, ()> {
    /// Create a builder for a job runner.
    ///
    /// This method takes the two required configurations, the database
    /// connection pool, and the environment to pass to your jobs. If your
    /// environment contains a connection pool, it should be the same pool
    /// given here.
    pub fn builder(connection_pool: ConnectionPool, environment: Env) -> (builder: Builder<
        Env,
        ConnectionPool,
    >)
        ensures
            builder.spec_connection_pool() == connection_pool,
            builder.spec_environment() == environment,
            builder.spec_thread_count() == None::<usize>,
            builder.spec_job_start_timeout() == None::<Duration>,
    {
        Builder { connection_pool, environment, thread_count: None, job_start_timeout: None }
    }
}

impl<Env, ConnectionPool, H> Runner<Env, ConnectionPool, H> {
    /// The connection pool of the runner.
    pub closed spec fn spec_connection_pool(&self) -> ConnectionPool {
        self.connection_pool
    }

    /// The environment that the runner passes to the jobs.
    pub closed spec fn spec_environment(&self) -> Env {
        *self.environment
    }

    /// The pool of threads that run the worker tasks.
    pub closed spec fn spec_thread_pool(&self) -> ThreadPool {
        self.thread_pool
    }

    /// The number of threads that run the worker tasks.
    pub closed spec fn max_threads(&self) -> usize {
        self.max_threads
    }

    /// The time that the runner waits for a job to start.
    pub closed spec fn spec_job_start_timeout(&self) -> Duration {
        self.job_start_timeout
    }

    /// The registry in which the runner looks up the handlers.
    pub closed spec fn spec_registry(&self) -> Registry<Env, H> {
        *self.registry
    }

    /// The connection pool of the runner.
    pub fn connection_pool(&self) -> (pool: &ConnectionPool)
        ensures
            *pool == self.spec_connection_pool(),
    {
        &self.connection_pool
    }

    /// The pool of threads that run the worker tasks.
    pub fn thread_pool(&self) -> (pool: &ThreadPool)
        ensures
            *pool == self.spec_thread_pool(),
    {
        &self.thread_pool
    }

    /// The number of threads that run the worker tasks.
    pub fn thread_count(&self) -> (count: usize)
        ensures
            count == self.max_threads(),
    {
        self.max_threads
    }

    /// The environment, shared with every handler.
    pub fn environment(&self) -> (environment: &Arc<Env>)
        ensures
            **environment == self.spec_environment(),
    {
        &self.environment
    }

    /// The registry, shared with every worker task.
    pub fn registry(&self) -> (registry: &Arc<Registry<Env, H>>)
        ensures
            **registry == self.spec_registry(),
    {
        &self.registry
    }

    /// The time to wait for a job to start before assuming an error has
    /// occurred.
    pub fn job_start_timeout(&self) -> (timeout: Duration)
        ensures
            timeout == self.spec_job_start_timeout(),
    {
        self.job_start_timeout
    }

    /// Whether `first` is the start of a run while `active_count` threads
    /// are busy: its channel buffers one message for each thread of the
    /// runner; its run is on that many threads; and the number of worker
    /// tasks to submit is what [`jobs_to_queue`] says for a run without
    /// pending messages, each of which is then a pending message.
    pub open spec fn begun(&self, active_count: usize, first: FirstRound) -> bool {
        &&& first.sender.bound() == self.max_threads()
        &&& first.run.max_threads() == self.max_threads()
        &&& first.jobs_to_queue == jobs_to_queue(
            self.max_threads() as int,
            active_count as int,
            0,
        )
        &&& first.run.pending_messages() == first.jobs_to_queue
    }

    /// Begins to run all pending jobs in the queue, while `active_count`
    /// threads are busy.
    ///
    /// Returns the channel on which the workers of this run report, which
    /// buffers one message for each thread, the run, and the number of
    /// worker tasks to submit before waiting for the first message;
    /// [`PendingJobs::next`] takes each message from there. A run ends with
    /// success once a worker has tried to acquire a new job and found there
    /// were none in the queue: all jobs in the queue have then begun
    /// running, though they need not be complete.
    ///
    /// No more threads can be busy than the runner has.
    pub fn run_all_pending_jobs_with(&self, active_count: usize) -> (first: FirstRound)
        requires
            active_count <= self.max_threads(),
        ensures
            self.begun(active_count, first),
    {
        let (sender, receiver) = channel::event_channel(self.max_threads);
        let (run, jobs_to_queue) = PendingJobs::begin(self.max_threads, active_count);
        FirstRound { sender, receiver, run, jobs_to_queue }
    }

    /// Begins to run all pending jobs in the queue as
    /// [`Runner::run_all_pending_jobs_with`] does, if no more than the
    /// threads of the runner are said to be busy. The result is `None`
    /// where more are.
    pub fn try_run_all_pending_jobs_with(&self, active_count: usize) -> (first: Option<FirstRound>)
        ensures
            self.begins(active_count, first),
    {
        if active_count <= self.max_threads {
            Some(self.run_all_pending_jobs_with(active_count))
        } else {
            None
        }
    }

    /// Whether `first` is how a run begins while `active_count` threads are
    /// said to be busy: as [`Runner::run_all_pending_jobs_with`] begins it
    /// where that is no more than the runner has, and not at all where it
    /// is more.
    pub open spec fn begins(&self, active_count: usize, first: Option<FirstRound>) -> bool {
        match first {
            Some(first) => active_count <= self.max_threads() && self.begun(active_count, first),
            None => active_count > self.max_threads(),
        }
    }

    /// Begins to run all pending jobs in the queue.
    ///
    /// Asks the thread pool how many threads are busy, and begins the run
    /// as [`Runner::try_run_all_pending_jobs_with`] does with that number.
    /// The result is `None` where the pool says that more threads are busy
    /// than the runner has.
    pub fn run_all_pending_jobs(&self) -> (first: Option<FirstRound>)
        ensures
            exists|active_count: usize| #[trigger] self.begins(active_count, first),
    {
        let active_count: usize = self.thread_pool.active_count();
        let first = self.try_run_all_pending_jobs_with(active_count);
        assert(self.begins(active_count, first));
        first
    }

    /// Takes the message that the wait returned (`None` when the start
    /// timeout passed first).
    ///
    /// Asks the thread pool how many threads are busy, and goes on as
    /// [`PendingJobs::try_next`] does with that number: the result is the
    /// round that follows, or `None`, and the run is over, where the
    /// message cannot be taken with that number of busy threads.
    pub fn next_round(&self, run: PendingJobs, received: Option<Event>) -> (round: Option<Round>)
        ensures
            exists|active_count: usize| #[trigger] run.takes(received, active_count, round),
    {
        let active_count: usize = self.thread_pool.active_count();
        let round = run.try_next(received, active_count);
        assert(run.takes(received, active_count, round));
        round
    }

    /// The largest number of connections of a pool that is built for this
    /// runner when no size was asked for: one for each thread.
    pub fn default_connection_count(&self) -> (count: u32)
        ensures
            count == if self.max_threads() <= u32::MAX {
                self.max_threads() as u32
            } else {
                u32::MAX
            },
    {
        if self.max_threads <= u32::MAX as usize {
            self.max_threads as u32
        } else {
            u32::MAX
        }
    }

    /// Waits for all running jobs to complete, and returns an error if any
    /// worker thread panicked.
    pub fn wait_for_jobs(&self) -> (verdict: Result<(), FailedJobsError>)
        ensures
            verdict matches Err(e) ==> exists|panic_count: nat|
                e matches FailedJobsError::Unknown(message) && panic_count > 0 && message@
                    == #[trigger] FailedJobsError::threads_panicked_text(panic_count),
    {
        self.thread_pool.join();
        let panic_count: usize = self.thread_pool.panic_count();
        panic_verdict(panic_count)
    }

    /// Waits for all running jobs to complete, and returns an error if any
    /// failed.
    ///
    /// `failed_job_count` reads the number of jobs that have failed
    /// recently, or gives the message of the error that kept it from that.
    /// It is called once, after the jobs are complete, and only if no
    /// worker thread panicked. If any jobs have failed, the result is
    /// `JobsFailed` with the number of jobs that failed.
    pub fn check_for_failed_jobs<F: FnOnce() -> Result<i64, String>>(
        &self,
        failed_job_count: F,
    ) -> (verdict: Result<(), FailedJobsError>)
        requires
            failed_job_count.requires(()),
        ensures
            match verdict {
                Ok(_) => exists|counted: Result<i64, String>|
                    failed_job_count.ensures((), counted) && failed_jobs_verdict_spec(counted)
                        is Ok,
                Err(e) => (exists|panic_count: nat|
                    e matches FailedJobsError::Unknown(message) && panic_count > 0 && message@
                        == #[trigger] FailedJobsError::threads_panicked_text(panic_count)) || (
                exists|counted: Result<i64, String>|
                    failed_job_count.ensures((), counted) && failed_jobs_verdict_spec(counted)
                        == Err::<(), FailedJobsError>(e)),
            },
    {
        match self.wait_for_jobs() {
            Err(e) => Err(e),
            Ok(_) => {
                let counted = failed_job_count();
                failed_jobs_verdict(counted)
            },
        }
    }
}

impl<Env: 'static, ConnectionPool, H: Copy> Runner<Env, ConnectionPool, H> {
    /// Finds the handler for `job`.
    ///
    /// A job whose type is not registered has no handler: the result is
    /// then the error "Unknown job type " followed by the type, which is a
    /// failure of the job like any other.
    pub fn run_single_job(&self, job: &BackgroundJob) -> (found: Result<
        PerformJob<Env, H>,
        PerformError,
    >)
        ensures
            match found {
                Ok(perform_job) => self.spec_registry()@.contains_key(job.job_type@)
                    && perform_job.vtable == self.spec_registry()@[job.job_type@]
                    && perform_job.vtable.job_type@ == job.job_type@ && perform_job.vtable.env_type
                    == self.spec_registry().env_type(),
                Err(e) => !self.spec_registry()@.contains_key(job.job_type@) && e.message@
                    == unknown_job_type_text(job.job_type@),
            },
    {
        self.registry.handler_for(job)
    }
}

} // verus!
