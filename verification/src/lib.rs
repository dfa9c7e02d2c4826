//! A durable background-job runner backed by a relational database: the
//! rules by which jobs are declared, looked up, locked, run and finished.
//!
//! This crate decides; it does not act on the database. Of the threads it
//! knows the pool, which it starts, asks how busy it is, and waits for.
//! Its callers perform what it decides and tell it what came of that.

pub mod background_job;
pub mod db;
pub mod errors;
pub mod job;
pub mod registry;
pub mod runner;
pub mod text;

pub use errors::FailedJobsError;
pub use errors::FetchError;
pub use errors::JobsFailed;
pub use errors::PerformError;
pub use errors::StorageError;
pub use errors::StorageErrorKind;
pub use job::BackgroundJob;
pub use registry::JobVTable;
pub use registry::PerformFn;
pub use registry::PerformJob;
pub use registry::Registry;
pub use runner::event::Event;
pub use runner::Builder;
pub use runner::Runner;
