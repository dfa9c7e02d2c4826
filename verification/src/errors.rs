//! The error values that cross the boundary of the runner.

use crate::text::decimal;
use crate::text::usize_to_string;
use vstd::prelude::*;
use vstd::std_specs::cmp::PartialEqSpecImpl;
use vstd::string::StringExecFns;

verus! {

/// An error occurred performing a job. Handlers may fail with any message;
/// the runner logs it and counts the attempt as failed.
#[derive(Debug)]
pub struct PerformError {
    pub message: String,
}

impl PerformError {
    /// A handler error that carries `message`.
    pub fn new(message: &str) -> (e: PerformError)
        ensures
            e.message@ == message@,
    {
        PerformError { message: String::from_str(message) }
    }

    /// The message of the error.
    pub fn to_string(&self) -> (s: String)
        ensures
            s@ == self.message@,
    {
        self.message.clone()
    }
}

/// What the runner needs to tell apart among the errors of the database.
#[derive(Clone, Copy, Debug, PartialEq, Eq, Structural)]
pub enum StorageErrorKind {
    /// The sentinel by which a transaction asks to be rolled back.
    RollbackTransaction,
    /// A query that expects one row found none.
    NotFound,
    /// Any other failure.
    Other,
}

/// A failure reported by the database, as far as the runner reads it: which
/// kind it is, and how it renders.
#[derive(Debug)]
pub struct StorageError {
    pub kind: StorageErrorKind,
    pub message: String,
}

impl StorageError {
    /// True for the rollback sentinel.
    pub fn is_rollback(&self) -> (b: bool)
        ensures
            b == (self.kind == StorageErrorKind::RollbackTransaction),
    {
        self.kind == StorageErrorKind::RollbackTransaction
    }

    /// True when a query that expects one row found none.
    pub fn is_not_found(&self) -> (b: bool)
        ensures
            b == (self.kind == StorageErrorKind::NotFound),
    {
        self.kind == StorageErrorKind::NotFound
    }

    /// The message of the error.
    pub fn to_string(&self) -> (s: String)
        ensures
            s@ == self.message@,
    {
        self.message.clone()
    }
}

/// Turns "no row" into an absent value and leaves every other result alone.
pub open spec fn optional_spec<T>(result: Result<T, StorageError>) -> Result<Option<T>, StorageError> {
    match result {
        Ok(value) => Ok(Some(value)),
        Err(e) => if e.kind == StorageErrorKind::NotFound {
            Ok(None)
        } else {
            Err(e)
        },
    }
}

/// Turns "no row" into an absent value and leaves every other result alone.
pub fn optional<T>(result: Result<T, StorageError>) -> (r: Result<Option<T>, StorageError>)
    ensures
        r == optional_spec(result),
{
    match result {
        Ok(value) => Ok(Some(value)),
        Err(e) => if e.is_not_found() {
            Ok(None)
        } else {
            Err(e)
        },
    }
}

/// An error occurred while attempting to fetch jobs from the queue.
#[derive(Debug)]
pub enum FetchError {
    /// We could not acquire a database connection from the pool. Either the
    /// connection pool is too small, or new connections cannot be
    /// established. Holds the pool's own message.
    NoDatabaseConnection(String),
    /// Could not execute the query to load a job from the database.
    FailedLoadingJob(StorageError),
    /// No message was received from the worker thread. Either the thread
    /// pool is too small, or jobs have hung indefinitely.
    NoMessageReceived,
}

impl FetchError {
    /// The text by which the error describes itself.
    pub open spec fn text(&self) -> Seq<char> {
        match self {
            FetchError::NoDatabaseConnection(e) =>
                "Timed out acquiring a database connection. Try increasing the connection pool size: "@
                    + e@,
            FetchError::FailedLoadingJob(e) =>
                "An error occurred loading a job from the database: "@ + e.message@,
            FetchError::NoMessageReceived =>
                "No message was received from the worker thread. Try increasing the thread pool size or timeout period."@,
        }
    }

    /// Describes the error, naming the likely remedy and the cause.
    pub fn to_string(&self) -> (s: String)
        ensures
            s@ == self.text(),
    {
        match self {
            FetchError::NoDatabaseConnection(e) => {
                let head = String::from_str(
                    "Timed out acquiring a database connection. Try increasing the connection pool size: ",
                );
                head.concat(e.as_str())
            },
            FetchError::FailedLoadingJob(e) => {
                let head = String::from_str("An error occurred loading a job from the database: ");
                head.concat(e.message.as_str())
            },
            FetchError::NoMessageReceived => String::from_str(
                "No message was received from the worker thread. Try increasing the thread pool size or timeout period.",
            ),
        }
    }
}

/// Why `check_for_failed_jobs` did not come back clean.
#[derive(Debug)]
pub enum FailedJobsError {
    /// This many jobs have failed recently and wait for a retry.
    JobsFailed(i64),
    /// Something else went wrong: worker threads panicked, or the failed
    /// jobs could not be counted. Holds the message.
    Unknown(String),
}

pub use FailedJobsError::JobsFailed;

impl PartialEq for FailedJobsError {
    /// Two failure counts are equal when the counts are; an unknown error
    /// equals nothing, not even itself.
    fn eq(&self, other: &FailedJobsError) -> (r: bool) {
        match (self, other) {
            (FailedJobsError::JobsFailed(x), FailedJobsError::JobsFailed(y)) => *x == *y,
            _ => false,
        }
    }
}

impl PartialEqSpecImpl for FailedJobsError {
    open spec fn obeys_eq_spec() -> bool {
        true
    }

    open spec fn eq_spec(&self, other: &FailedJobsError) -> bool {
        match (self, other) {
            (FailedJobsError::JobsFailed(x), FailedJobsError::JobsFailed(y)) => x == y,
            _ => false,
        }
    }
}

impl FailedJobsError {
    /// The message of an error that reports `panic_count` panicked threads.
    pub open spec fn threads_panicked_text(panic_count: nat) -> Seq<char> {
        decimal(panic_count) + " threads panicked"@
    }

    /// The error that reports `panic_count` panicked worker threads.
    pub fn threads_panicked(panic_count: usize) -> (e: FailedJobsError)
        ensures
            e matches FailedJobsError::Unknown(message) && message@
                == FailedJobsError::threads_panicked_text(panic_count as nat),
    {
        let count = usize_to_string(panic_count);
        FailedJobsError::Unknown(count.concat(" threads panicked"))
    }
}

} // verus!
