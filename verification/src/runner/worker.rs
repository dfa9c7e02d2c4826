//! One worker task: a single attempt at a single job, inside one
//! transaction.
//!
//! The task is a state machine. The caller performs each action that the
//! machine asks for (it talks to the connection pool and the database, runs
//! the handler, sends the message) and hands the result back as the next
//! input. The machine decides what follows.

use crate::errors::optional;
use crate::errors::optional_spec;
use crate::errors::PerformError;
use crate::errors::StorageError;
use crate::errors::StorageErrorKind;
use crate::job::BackgroundJob;
use crate::runner::event::Event;
use crate::text::i64_to_string;
use crate::text::signed_decimal;
use vstd::prelude::*;
use vstd::string::StringExecFns;

verus! {

/// What was recovered from a handler that panicked.
#[derive(Debug)]
pub enum PanicPayload {
    /// The payload could be rendered as text.
    Text(String),
    /// The payload has no known rendering.
    Opaque,
}

/// How the handler of a job ended.
#[derive(Debug)]
pub enum Outcome {
    /// The handler returned.
    Returned(Result<(), PerformError>),
    /// The handler panicked, and the panic was caught.
    Panicked(PanicPayload),
}

/// The message of the error that stands for a caught panic.
pub open spec fn panic_text(payload: PanicPayload) -> Seq<char> {
    match payload {
        PanicPayload::Text(text) => "job panicked: "@ + text@,
        PanicPayload::Opaque => "job panicked"@,
    }
}

/// Try to figure out what's in the box, and say it if we can: the error
/// that stands for a caught panic names what the panic carried, where that
/// can be rendered.
pub fn try_to_extract_panic_info(payload: &PanicPayload) -> (e: PerformError)
    ensures
        e.message@ == panic_text(*payload),
{
    match payload {
        PanicPayload::Text(text) => PerformError {
            message: String::from_str("job panicked: ").concat(text.as_str()),
        },
        PanicPayload::Opaque => PerformError::new("job panicked"),
    }
}

impl Outcome {
    /// The message of the failure, or `None` for a handler that returned
    /// success.
    pub open spec fn failure(self) -> Option<Seq<char>> {
        match self {
            Outcome::Returned(Ok(_)) => None,
            Outcome::Returned(Err(e)) => Some(e.message@),
            Outcome::Panicked(payload) => Some(panic_text(payload)),
        }
    }

    /// Turns a caught panic into the error that stands for it.
    pub fn into_result(self) -> (result: Result<(), PerformError>)
        ensures
            match self.failure() {
                None => result is Ok,
                Some(message) => result matches Err(e) && e.message@ == message,
            },
    {
        match self {
            Outcome::Returned(result) => result,
            Outcome::Panicked(payload) => Err(try_to_extract_panic_info(&payload)),
        }
    }
}

/// The line that is logged for a job that failed.
pub open spec fn failure_log(job_id: i64, message: Seq<char>) -> Seq<char> {
    "Job "@ + signed_decimal(job_id as int) + " failed to run: "@ + message
}

/// The line that is logged for the job `job_id` that failed with `error`.
pub fn failure_log_line(job_id: i64, error: &PerformError) -> (line: String)
    ensures
        line@ == failure_log(job_id, error.message@),
{
    let mut line = String::from_str("Job ");
    line.append(i64_to_string(job_id).as_str());
    line.append(" failed to run: ");
    line.append(error.message.as_str());
    assert(line@ =~= failure_log(job_id, error.message@));
    line
}

/// How the body of the transaction ended, which decides how the transaction
/// is closed and what its result is.
#[derive(Debug)]
pub enum Closing {
    /// The body succeeded: the transaction is committed.
    Commit,
    /// The body asked for a rollback that is no error.
    RollBack,
    /// The body failed with this error: the transaction is rolled back.
    Abort(StorageError),
}

/// Where a worker task stands: what it waits for.
#[derive(Debug)]
pub enum WorkerState {
    /// For the pool to hand out a connection.
    Connecting,
    /// For the transaction to be opened.
    Beginning,
    /// For the locking query.
    Locking,
    /// For the handler of the job `job_id`.
    Performing { job_id: i64 },
    /// For the row of the job to be deleted.
    Deleting,
    /// For the row of the job to be marked as failed.
    MarkingFailed,
    /// For the transaction to be closed.
    Ending { closing: Closing },
    /// For nothing: the task is over.
    Finished,
}

/// The result of the action that the task asked for last.
#[derive(Debug)]
pub enum WorkerInput {
    /// The pool handed out a connection, or failed with this message.
    Connected(Result<(), String>),
    /// The transaction was opened, or could not be.
    Began(Result<(), StorageError>),
    /// The locking query returned this row, or failed.
    Locked(Result<BackgroundJob, StorageError>),
    /// The handler ended.
    Performed(Outcome),
    /// The row was deleted, or could not be.
    Deleted(Result<(), StorageError>),
    /// The attempt to mark the row as failed is over.
    MarkedFailed,
    /// The transaction was closed as asked, or could not be.
    Ended(Result<(), StorageError>),
}

/// What the caller of a worker task does next.
#[derive(Debug)]
#[allow(inconsistent_fields)]
pub enum WorkerAction {
    /// Ask the pool for a connection.
    Connect,
    /// Open a transaction on the connection.
    Begin,
    /// Run the locking query: find the next job that is not locked and lock
    /// its row.
    Lock,
    /// Send `notify`, then run the handler of `job` and catch its panics.
    Perform { notify: Event, job: BackgroundJob },
    /// Delete the row of the job `job_id`.
    Delete { job_id: i64 },
    /// Write `log` to standard error, then add one to the retries of the
    /// job `job_id` and set the time of its last retry, in one statement.
    /// A failure of that statement is ignored.
    MarkFailed { job_id: i64, log: String },
    /// Send `notify` if there is one, then commit the transaction if
    /// `commit` holds and roll it back if not.
    End { notify: Option<Event>, commit: bool },
    /// Send `notify` if there is one, and release the connection.
    Finish { notify: Option<Event> },
    /// Release the connection and panic: the job could not be updated.
    Panic { error: StorageError },
}

/// A worker action as contracts speak of it: the log line as plain text.
#[allow(inconsistent_fields)]
pub enum WorkerActionView {
    Connect,
    Begin,
    Lock,
    Perform { notify: Event, job: BackgroundJob },
    Delete { job_id: i64 },
    MarkFailed { job_id: i64, log: Seq<char> },
    End { notify: Option<Event>, commit: bool },
    Finish { notify: Option<Event> },
    Panic { error: StorageError },
}

impl View for WorkerAction {
    type V = WorkerActionView;

    open spec fn view(&self) -> WorkerActionView {
        match *self {
            WorkerAction::Connect => WorkerActionView::Connect,
            WorkerAction::Begin => WorkerActionView::Begin,
            WorkerAction::Lock => WorkerActionView::Lock,
            WorkerAction::Perform { notify, job } => WorkerActionView::Perform { notify, job },
            WorkerAction::Delete { job_id } => WorkerActionView::Delete { job_id },
            WorkerAction::MarkFailed { job_id, log } => WorkerActionView::MarkFailed {
                job_id,
                log: log@,
            },
            WorkerAction::End { notify, commit } => WorkerActionView::End { notify, commit },
            WorkerAction::Finish { notify } => WorkerActionView::Finish { notify },
            WorkerAction::Panic { error } => WorkerActionView::Panic { error },
        }
    }
}

/// What follows from the result of a transaction: the rollback that was
/// asked for stands silently, any other error is fatal for the task.
pub open spec fn conclude(result: Result<(), StorageError>) -> WorkerActionView {
    match result {
        Ok(_) => WorkerActionView::Finish { notify: None },
        Err(error) => if error.kind == StorageErrorKind::RollbackTransaction {
            WorkerActionView::Finish { notify: None }
        } else {
            WorkerActionView::Panic { error }
        },
    }
}

/// Whether `closing` with `ended` is the silent rollback or a success.
pub open spec fn ends_quietly(closing: Closing, ended: Result<(), StorageError>) -> bool {
    match ended {
        Err(error) => error.kind == StorageErrorKind::RollbackTransaction,
        Ok(_) => match closing {
            Closing::Commit => true,
            Closing::RollBack => true,
            Closing::Abort(error) => error.kind == StorageErrorKind::RollbackTransaction,
        },
    }
}

/// The error that is fatal for the task when `closing` with `ended` does
/// not end quietly: that of closing the transaction, else that of its body.
pub open spec fn fatal_error(closing: Closing, ended: Result<(), StorageError>) -> StorageError {
    match ended {
        Err(error) => error,
        Ok(_) => closing->Abort_0,
    }
}

impl WorkerState {
    /// Whether `input` is the result of the action that a task in this
    /// state waits for.
    pub open spec fn accepts(self, input: WorkerInput) -> bool {
        match (self, input) {
            (WorkerState::Connecting, WorkerInput::Connected(_)) => true,
            (WorkerState::Beginning, WorkerInput::Began(_)) => true,
            (WorkerState::Locking, WorkerInput::Locked(_)) => true,
            (WorkerState::Performing { .. }, WorkerInput::Performed(_)) => true,
            (WorkerState::Deleting, WorkerInput::Deleted(_)) => true,
            (WorkerState::MarkingFailed, WorkerInput::MarkedFailed) => true,
            (WorkerState::Ending { .. }, WorkerInput::Ended(_)) => true,
            _ => false,
        }
    }

    /// The state that follows this one on `input`, and the action that the
    /// task asks for.
    pub open spec fn step_spec(self, input: WorkerInput) -> (WorkerState, WorkerActionView) {
        match (self, input) {
            (WorkerState::Connecting, WorkerInput::Connected(Ok(_))) => (
                WorkerState::Beginning,
                WorkerActionView::Begin,
            ),
            (WorkerState::Connecting, WorkerInput::Connected(Err(e))) => (
                WorkerState::Finished,
                WorkerActionView::Finish { notify: Some(Event::FailedToAcquireConnection(e)) },
            ),
            (WorkerState::Beginning, WorkerInput::Began(Ok(_))) => (
                WorkerState::Locking,
                WorkerActionView::Lock,
            ),
            (WorkerState::Beginning, WorkerInput::Began(Err(e))) => (
                WorkerState::Finished,
                conclude(Err(e)),
            ),
            (WorkerState::Locking, WorkerInput::Locked(found)) => match optional_spec(found) {
                Ok(Some(job)) => (
                    WorkerState::Performing { job_id: job.id },
                    WorkerActionView::Perform { notify: Event::Working, job },
                ),
                Ok(None) => (
                    WorkerState::Ending { closing: Closing::Commit },
                    WorkerActionView::End { notify: Some(Event::NoJobAvailable), commit: true },
                ),
                Err(e) => (
                    WorkerState::Ending { closing: Closing::RollBack },
                    WorkerActionView::End {
                        notify: Some(Event::ErrorLoadingJob(e)),
                        commit: false,
                    },
                ),
            },
            (WorkerState::Performing { job_id }, WorkerInput::Performed(outcome)) => match outcome.failure() {
                None => (WorkerState::Deleting, WorkerActionView::Delete { job_id }),
                Some(message) => (
                    WorkerState::MarkingFailed,
                    WorkerActionView::MarkFailed { job_id, log: failure_log(job_id, message) },
                ),
            },
            (WorkerState::Deleting, WorkerInput::Deleted(Ok(_))) => (
                WorkerState::Ending { closing: Closing::Commit },
                WorkerActionView::End { notify: None, commit: true },
            ),
            (WorkerState::Deleting, WorkerInput::Deleted(Err(e))) => (
                WorkerState::Ending { closing: Closing::Abort(e) },
                WorkerActionView::End { notify: None, commit: false },
            ),
            (WorkerState::MarkingFailed, WorkerInput::MarkedFailed) => (
                WorkerState::Ending { closing: Closing::Commit },
                WorkerActionView::End { notify: None, commit: true },
            ),
            (WorkerState::Ending { closing }, WorkerInput::Ended(ended)) => (
                WorkerState::Finished,
                if ends_quietly(closing, ended) {
                    WorkerActionView::Finish { notify: None }
                } else {
                    WorkerActionView::Panic { error: fatal_error(closing, ended) }
                },
            ),
            _ => (WorkerState::Finished, WorkerActionView::Finish { notify: None }),
        }
    }
}

impl WorkerState {
    /// A new task, and its first action.
    pub fn start() -> (first: (WorkerState, WorkerAction))
        ensures
            first.0 == WorkerState::Connecting,
            first.1@ == WorkerActionView::Connect,
    {
        (WorkerState::Connecting, WorkerAction::Connect)
    }

    /// Whether the task is over.
    pub fn is_finished(&self) -> (finished: bool)
        ensures
            finished == (*self == WorkerState::Finished),
    {
        match self {
            WorkerState::Finished => true,
            _ => false,
        }
    }

    /// Whether `input` is the result of the action that a task in this
    /// state waits for.
    pub fn accepts_input(&self, input: &WorkerInput) -> (accepted: bool)
        ensures
            accepted == self.accepts(*input),
    {
        match (self, input) {
            (WorkerState::Connecting, WorkerInput::Connected(_)) => true,
            (WorkerState::Beginning, WorkerInput::Began(_)) => true,
            (WorkerState::Locking, WorkerInput::Locked(_)) => true,
            (WorkerState::Performing { .. }, WorkerInput::Performed(_)) => true,
            (WorkerState::Deleting, WorkerInput::Deleted(_)) => true,
            (WorkerState::MarkingFailed, WorkerInput::MarkedFailed) => true,
            (WorkerState::Ending { .. }, WorkerInput::Ended(_)) => true,
            _ => false,
        }
    }

    /// Takes the result of the action that the task asked for last, and
    /// says what the caller does next.
    ///
    /// - No connection: the task reports it and is over. Nothing in the
    ///   database was touched.
    /// - A locked job: the task reports that it is working, and the job is
    ///   run. No row: it reports that no job is available and commits. A
    ///   failed query: it reports the error and rolls back, which is no
    ///   failure of the task.
    /// - A handler that returned success: the row is deleted. A handler
    ///   that failed or panicked: the failure is logged and the row is
    ///   marked as failed. Either way in the transaction that holds the
    ///   lock, which is then committed.
    /// - A transaction that could not be opened or committed, or a row that
    ///   could not be deleted: the task panics.
    ///
    /// The input must be the result of the action that the task asked for
    /// last; [`WorkerState::accepts_input`] tells.
    pub fn step(self, input: WorkerInput) -> (next: (WorkerState, WorkerAction))
        requires
            self.accepts(input),
        ensures
            (next.0, next.1@) == self.step_spec(input),
    {
        match (self, input) {
            (WorkerState::Connecting, WorkerInput::Connected(Ok(_))) => (
                WorkerState::Beginning,
                WorkerAction::Begin,
            ),
            (WorkerState::Connecting, WorkerInput::Connected(Err(e))) => (
                WorkerState::Finished,
                WorkerAction::Finish { notify: Some(Event::FailedToAcquireConnection(e)) },
            ),
            (WorkerState::Beginning, WorkerInput::Began(Ok(_))) => (
                WorkerState::Locking,
                WorkerAction::Lock,
            ),
            (WorkerState::Beginning, WorkerInput::Began(Err(e))) => (
                WorkerState::Finished,
                if e.is_rollback() {
                    WorkerAction::Finish { notify: None }
                } else {
                    WorkerAction::Panic { error: e }
                },
            ),
            (WorkerState::Locking, WorkerInput::Locked(found)) => match optional(found) {
                Ok(Some(job)) => (
                    WorkerState::Performing { job_id: job.id },
                    WorkerAction::Perform { notify: Event::Working, job },
                ),
                Ok(None) => (
                    WorkerState::Ending { closing: Closing::Commit },
                    WorkerAction::End { notify: Some(Event::NoJobAvailable), commit: true },
                ),
                Err(e) => (
                    WorkerState::Ending { closing: Closing::RollBack },
                    WorkerAction::End { notify: Some(Event::ErrorLoadingJob(e)), commit: false },
                ),
            },
            (WorkerState::Performing { job_id }, WorkerInput::Performed(outcome)) => {
                match outcome.into_result() {
                    Ok(_) => (WorkerState::Deleting, WorkerAction::Delete { job_id }),
                    Err(e) => (
                        WorkerState::MarkingFailed,
                        WorkerAction::MarkFailed { job_id, log: failure_log_line(job_id, &e) },
                    ),
                }
            },
            (WorkerState::Deleting, WorkerInput::Deleted(Ok(_))) => (
                WorkerState::Ending { closing: Closing::Commit },
                WorkerAction::End { notify: None, commit: true },
            ),
            (WorkerState::Deleting, WorkerInput::Deleted(Err(e))) => (
                WorkerState::Ending { closing: Closing::Abort(e) },
                WorkerAction::End { notify: None, commit: false },
            ),
            (WorkerState::MarkingFailed, WorkerInput::MarkedFailed) => (
                WorkerState::Ending { closing: Closing::Commit },
                WorkerAction::End { notify: None, commit: true },
            ),
            (WorkerState::Ending { closing }, WorkerInput::Ended(ended)) => {
                let result = match ended {
                    Err(e) => Err(e),
                    Ok(_) => match closing {
                        Closing::Abort(e) => Err(e),
                        _ => Ok(()),
                    },
                };
                (
                    WorkerState::Finished,
                    match result {
                        Ok(_) => WorkerAction::Finish { notify: None },
                        Err(e) => if e.is_rollback() {
                            WorkerAction::Finish { notify: None }
                        } else {
                            WorkerAction::Panic { error: e }
                        },
                    },
                )
            },
            _ => (WorkerState::Finished, WorkerAction::Finish { notify: None }),
        }
    }

    /// Takes `input` as [`WorkerState::step`] does, if it is the result of
    /// the action that the task asked for last. Any other input is handed
    /// back with the state as it was.
    pub fn try_step(self, input: WorkerInput) -> (next: Result<
        (WorkerState, WorkerAction),
        (WorkerState, WorkerInput),
    >)
        ensures
            match next {
                Ok(stepped) => self.accepts(input) && (stepped.0, stepped.1@) == self.step_spec(
                    input,
                ),
                Err(refused) => !self.accepts(input) && refused == (self, input),
            },
    {
        if self.accepts_input(&input) {
            Ok(self.step(input))
        } else {
            Err((self, input))
        }
    }
}

} // verus!
