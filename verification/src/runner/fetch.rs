//! The rounds of `run_all_pending_jobs`: how many worker tasks to submit, and
//! what each message from a worker means for the run.
//!
//! The caller performs the rounds. It submits the worker tasks it is told to
//! submit, waits for one message (or for the start timeout to pass), and
//! hands the message back together with the number of workers that are busy
//! at that moment.

use crate::errors::FetchError;
use crate::runner::event::Event;
use vstd::prelude::*;

verus! {

/// The number of worker tasks to submit in a round.
///
/// That is the number of idle threads; but when no submitted task has yet
/// to report, at least one task is submitted even if every thread is busy,
/// so that a message will arrive.
pub open spec fn jobs_to_queue(max_threads: int, active_count: int, pending_messages: int) -> int {
    let available_threads: int = max_threads - active_count;
    if pending_messages == 0 && available_threads < 1 {
        1
    } else {
        available_threads
    }
}

/// What a received message decides: `None` while the run goes on, else the
/// result of the run. `received` is `None` when the start timeout passed
/// without a message.
pub open spec fn verdict(received: Option<Event>) -> Option<Result<(), FetchError>> {
    match received {
        Some(Event::Working) => None,
        Some(Event::NoJobAvailable) => Some(Ok(())),
        Some(Event::ErrorLoadingJob(e)) => Some(Err(FetchError::FailedLoadingJob(e))),
        Some(Event::FailedToAcquireConnection(e)) => Some(Err(FetchError::NoDatabaseConnection(e))),
        None => Some(Err(FetchError::NoMessageReceived)),
    }
}

/// The result of a run that receives `messages` in this order: what the
/// first deciding message decides, or `None` while none has decided.
pub open spec fn outcome(messages: Seq<Option<Event>>) -> Option<Result<(), FetchError>>
    decreases messages.len(),
{
    if messages.len() == 0 {
        None
    } else {
        match verdict(messages[0]) {
            Some(result) => Some(result),
            None => outcome(messages.drop_first()),
        }
    }
}

/// Whether the message at `k` reports that no job is left to start, after
/// nothing but reports of started jobs.
pub open spec fn drained_at(messages: Seq<Option<Event>>, k: int) -> bool {
    &&& 0 <= k < messages.len()
    &&& messages[k] == Some(Event::NoJobAvailable)
    &&& forall|j: int| 0 <= j < k ==> messages[j] == Some(Event::Working)
}

/// The first message that is not a report of a started job decides the run.
pub proof fn lemma_first_deciding_message_decides(messages: Seq<Option<Event>>, k: int)
    requires
        0 <= k < messages.len(),
        forall|j: int| 0 <= j < k ==> messages[j] == Some(Event::Working),
        verdict(messages[k]) is Some,
    ensures
        outcome(messages) == verdict(messages[k]),
    decreases messages.len(),
{
    if k > 0 {
        let rest = messages.drop_first();
        assert(messages[0] == Some(Event::Working));
        assert(rest[k - 1] == messages[k]);
        assert forall|j: int| 0 <= j < k - 1 implies rest[j] == Some(Event::Working) by {
            assert(rest[j] == messages[j + 1]);
        }
        lemma_first_deciding_message_decides(rest, k - 1);
    }
}

/// A run returns success exactly when a worker reported that no job was
/// left to start, after nothing but reports of started jobs.
pub proof fn lemma_success_iff_queue_drained(messages: Seq<Option<Event>>)
    ensures
        outcome(messages) == Some(Ok::<(), FetchError>(())) <==> exists|k: int|
            drained_at(messages, k),
    decreases messages.len(),
{
    if messages.len() > 0 {
        let rest = messages.drop_first();
        lemma_success_iff_queue_drained(rest);
        if outcome(messages) == Some(Ok::<(), FetchError>(())) {
            if verdict(messages[0]) is Some {
                assert(drained_at(messages, 0));
            } else {
                let k = choose|k: int| drained_at(rest, k);
                assert(messages[k + 1] == rest[k]);
                assert forall|j: int| 0 <= j < k + 1 implies messages[j] == Some(
                    Event::Working,
                ) by {
                    if j > 0 {
                        assert(messages[j] == rest[j - 1]);
                    }
                }
                assert(drained_at(messages, k + 1));
            }
        }
        if exists|k: int| drained_at(messages, k) {
            let k = choose|k: int| drained_at(messages, k);
            lemma_first_deciding_message_decides(messages, k);
        }
    }
}

/// On an empty queue the first worker reports that no job is left, and the
/// run returns success. Where at most one thread is idle, exactly one worker
/// task was submitted for that.
pub proof fn lemma_empty_queue_submits_one_worker(max_threads: usize, active_count: usize)
    requires
        active_count <= max_threads,
        max_threads - active_count <= 1,
    ensures
        jobs_to_queue(max_threads as int, active_count as int, 0) == 1,
        outcome(seq![Some(Event::NoJobAvailable)]) == Some(Ok::<(), FetchError>(())),
{
}

/// A run that is under way: the workers that were submitted and have not yet
/// reported.
#[derive(Debug)]
pub struct PendingJobs {
    max_threads: usize,
    pending_messages: usize,
}

/// What the caller does after a message.
#[derive(Debug)]
pub enum Round {
    /// Submit `jobs_to_queue` worker tasks, then wait for the next message.
    Continue { run: PendingJobs, jobs_to_queue: usize },
    /// Return `result` from the run.
    Finished { result: Result<(), FetchError> },
}

impl PendingJobs {
    /// While a run is under way, at least one submitted worker has yet to
    /// report.
    #[verifier::type_invariant]
    closed spec fn inv(&self) -> bool {
        self.pending_messages >= 1
    }

    /// The number of threads of the pool that runs the workers.
    pub closed spec fn max_threads(&self) -> usize {
        self.max_threads
    }

    /// The number of workers that were submitted and have not yet reported.
    pub closed spec fn pending_messages(&self) -> usize {
        self.pending_messages
    }

    /// The number of workers that were submitted and have not yet reported.
    pub fn pending(&self) -> (pending: usize)
        ensures
            pending == self.pending_messages(),
            pending >= 1,
    {
        proof {
            use_type_invariant(self);
        }
        self.pending_messages
    }

    /// Begins a run on a pool of `max_threads` threads of which
    /// `active_count` are busy. Returns the run and the number of worker
    /// tasks to submit before waiting for the first message.
    ///
    /// No more threads can be busy than the pool has.
    pub fn begin(max_threads: usize, active_count: usize) -> (first: (PendingJobs, usize))
        requires
            active_count <= max_threads,
        ensures
            first.0.max_threads() == max_threads,
            first.1 == jobs_to_queue(max_threads as int, active_count as int, 0),
            first.0.pending_messages() == first.1,
    {
        let available_threads: usize = max_threads - active_count;
        let jobs_to_queue: usize = if available_threads < 1 {
            1
        } else {
            available_threads
        };
        (PendingJobs { max_threads, pending_messages: jobs_to_queue }, jobs_to_queue)
    }

    /// Whether `round` is what follows when this run receives `received`
    /// while `active_count` threads are busy.
    ///
    /// A deciding message ends the run with its verdict. A report of a
    /// started job keeps the run going, with one message less pending, and
    /// with new workers as [`jobs_to_queue`] says, each of which is one
    /// more pending message.
    pub open spec fn follows(self, received: Option<Event>, active_count: usize, round: Round) -> bool {
        match verdict(received) {
            Some(result) => round == (Round::Finished { result }),
            None => round matches Round::Continue { run, jobs_to_queue } && run.max_threads()
                == self.max_threads() && jobs_to_queue == self::jobs_to_queue(
                self.max_threads() as int,
                active_count as int,
                self.pending_messages() - 1,
            ) && run.pending_messages() == self.pending_messages() - 1 + jobs_to_queue,
        }
    }

    /// Takes the message that the wait returned (`None` when the start
    /// timeout passed first) and `active_count`, the number of busy threads
    /// after it arrived.
    ///
    /// `Working` means that one more job has started: the run goes on, with
    /// one message less pending and with new workers for the idle threads.
    /// Every other message ends the run: `NoJobAvailable` with success, an
    /// error or the timeout with the matching `FetchError`.
    ///
    /// No more threads can be busy than the pool has, and the number of
    /// pending messages must stay within `usize`.
    pub fn next(self, received: Option<Event>, active_count: usize) -> (round: Round)
        requires
            active_count <= self.max_threads(),
            self.pending_messages() - 1 + self.max_threads() <= usize::MAX,
        ensures
            self.follows(received, active_count, round),
    {
        proof {
            use_type_invariant(&self);
        }
        match received {
            Some(Event::Working) => {
                let pending_messages: usize = self.pending_messages - 1;
                let available_threads: usize = self.max_threads - active_count;
                let jobs_to_queue: usize = if pending_messages == 0 && available_threads < 1 {
                    1
                } else {
                    available_threads
                };
                Round::Continue {
                    run: PendingJobs {
                        max_threads: self.max_threads,
                        pending_messages: pending_messages + jobs_to_queue,
                    },
                    jobs_to_queue,
                }
            },
            Some(Event::NoJobAvailable) => Round::Finished { result: Ok(()) },
            Some(Event::ErrorLoadingJob(e)) => Round::Finished {
                result: Err(FetchError::FailedLoadingJob(e)),
            },
            Some(Event::FailedToAcquireConnection(e)) => Round::Finished {
                result: Err(FetchError::NoDatabaseConnection(e)),
            },
            None => Round::Finished { result: Err(FetchError::NoMessageReceived) },
        }
    }

    /// Whether [`PendingJobs::next`] can take a message while
    /// `active_count` threads are busy: no more than the pool has, and the
    /// number of pending messages stays within `usize`.
    pub open spec fn can_take(&self, active_count: usize) -> bool {
        active_count <= self.max_threads() && self.pending_messages() - 1 + self.max_threads()
            <= usize::MAX
    }

    /// Whether `round` is what comes of taking `received` while
    /// `active_count` threads are busy, if the message can be taken: the
    /// round that follows where it can, and `None` where it cannot.
    pub open spec fn takes(
        self,
        received: Option<Event>,
        active_count: usize,
        round: Option<Round>,
    ) -> bool {
        match round {
            Some(taken) => self.can_take(active_count) && self.follows(
                received,
                active_count,
                taken,
            ),
            None => !self.can_take(active_count),
        }
    }

    /// Takes a message as [`PendingJobs::next`] does, if it can: the result
    /// is `None`, and the run is over, where more threads are said to be
    /// busy than the pool has or the number of pending messages would leave
    /// `usize`.
    pub fn try_next(self, received: Option<Event>, active_count: usize) -> (round: Option<Round>)
        ensures
            self.takes(received, active_count, round),
    {
        proof {
            use_type_invariant(&self);
        }
        if active_count <= self.max_threads && self.pending_messages - 1 <= usize::MAX
            - self.max_threads {
            Some(self.next(received, active_count))
        } else {
            None
        }
    }
}

} // verus!
