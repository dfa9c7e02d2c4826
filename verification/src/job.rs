//! A row of the queue, as a worker holds it while it has the row locked.

use vstd::prelude::*;

verus! {

/// `serde_json::Value`, the document in which a job's payload is stored. The
/// runner never looks inside: it hands the document to the handler.
#[verifier::external_type_specification]
#[verifier::external_body]
pub struct ExJsonValue(serde_json::Value);

/// One job of the queue: its row id, the tag that names its handler, and the
/// serialized payload.
#[derive(Debug)]
pub struct BackgroundJob {
    pub id: i64,
    pub job_type: String,
    pub data: serde_json::Value,
}

} // verus!
