//! What a worker reports to the caller of `run_all_pending_jobs`.

use crate::errors::StorageError;
use vstd::prelude::*;

verus! {

/// The one message that every worker task sends.
#[derive(Debug)]
pub enum Event {
    /// The worker has locked a job and is about to run it.
    Working,
    /// The locking query returned no row: nothing is left to start.
    NoJobAvailable,
    /// The locking query itself failed.
    ErrorLoadingJob(StorageError),
    /// The pool gave the worker no connection. Holds the pool's message.
    FailedToAcquireConnection(String),
}

} // verus!
