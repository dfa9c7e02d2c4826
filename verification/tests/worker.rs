use swirl::errors::PerformError;
use swirl::errors::StorageError;
use swirl::errors::StorageErrorKind;
use swirl::job::BackgroundJob;
use swirl::runner::event::Event;
use swirl::runner::worker::failure_log_line;
use swirl::runner::worker::try_to_extract_panic_info;
use swirl::runner::worker::Outcome;
use swirl::runner::worker::PanicPayload;
use swirl::runner::worker::WorkerAction;
use swirl::runner::worker::WorkerInput;
use swirl::runner::worker::WorkerState;

fn job(id: i64) -> BackgroundJob {
    BackgroundJob { id, job_type: "Foo".to_string(), data: serde_json::Value::Null }
}

fn storage_error(kind: StorageErrorKind, message: &str) -> StorageError {
    StorageError { kind, message: message.to_string() }
}

fn step(state: WorkerState, input: WorkerInput) -> (WorkerState, WorkerAction) {
    assert!(state.accepts_input(&input), "{:?} does not wait for {:?}", state, input);
    state.step(input)
}

fn locked(id: i64) -> WorkerState {
    let (state, action) = WorkerState::start();
    assert!(matches!(action, WorkerAction::Connect));
    let (state, action) = step(state, WorkerInput::Connected(Ok(())));
    assert!(matches!(action, WorkerAction::Begin));
    let (state, action) = step(state, WorkerInput::Began(Ok(())));
    assert!(matches!(action, WorkerAction::Lock));
    let (state, action) = step(state, WorkerInput::Locked(Ok(job(id))));
    match action {
        WorkerAction::Perform { notify: Event::Working, job } => assert_eq!(job.id, id),
        other => panic!("unexpected action {:?}", other),
    }
    assert!(matches!(state, WorkerState::Performing { job_id } if job_id == id));
    state
}

#[test]
fn panic_with_text_is_named_in_the_error() {
    let error = try_to_extract_panic_info(&PanicPayload::Text("explicit panic".to_string()));
    assert_eq!(error.message, "job panicked: explicit panic");
}

#[test]
fn panic_without_text_has_the_plain_message() {
    let error = try_to_extract_panic_info(&PanicPayload::Opaque);
    assert_eq!(error.message, "job panicked");
}

#[test]
fn failure_log_names_job_and_message() {
    assert_eq!(failure_log_line(17, &PerformError::new("nope")), "Job 17 failed to run: nope");
    assert_eq!(failure_log_line(-3, &PerformError::new("")), "Job -3 failed to run: ");
}

#[test]
fn outcome_turns_panics_into_errors() {
    assert!(Outcome::Returned(Ok(())).into_result().is_ok());
    assert_eq!(Outcome::Returned(Err(PerformError::new("failed"))).into_result().unwrap_err().message, "failed");
    assert_eq!(Outcome::Panicked(PanicPayload::Opaque).into_result().unwrap_err().message, "job panicked");
}

#[test]
fn worker_without_connection_reports_it_and_stops() {
    let (state, _) = WorkerState::start();
    let (state, action) = step(state, WorkerInput::Connected(Err("pool is empty".to_string())));
    match action {
        WorkerAction::Finish { notify: Some(Event::FailedToAcquireConnection(message)) } => {
            assert_eq!(message, "pool is empty")
        }
        other => panic!("unexpected action {:?}", other),
    }
    assert!(state.is_finished());
}

#[test]
fn worker_without_job_reports_it_and_commits() {
    let (state, _) = WorkerState::start();
    let (state, _) = step(state, WorkerInput::Connected(Ok(())));
    let (state, _) = step(state, WorkerInput::Began(Ok(())));
    let (state, action) = step(state, WorkerInput::Locked(Err(storage_error(StorageErrorKind::NotFound, "Record not found"))));
    assert!(matches!(action, WorkerAction::End { notify: Some(Event::NoJobAvailable), commit: true }));
    let (state, action) = step(state, WorkerInput::Ended(Ok(())));
    assert!(matches!(action, WorkerAction::Finish { notify: None }));
    assert!(state.is_finished());
}

#[test]
fn worker_reports_a_failed_query_and_rolls_back_silently() {
    let (state, _) = WorkerState::start();
    let (state, _) = step(state, WorkerInput::Connected(Ok(())));
    let (state, _) = step(state, WorkerInput::Began(Ok(())));
    let (state, action) = step(state, WorkerInput::Locked(Err(storage_error(StorageErrorKind::Other, "read-only"))));
    match action {
        WorkerAction::End { notify: Some(Event::ErrorLoadingJob(e)), commit: false } => assert_eq!(e.message, "read-only"),
        other => panic!("unexpected action {:?}", other),
    }
    let (state, action) = step(state, WorkerInput::Ended(Ok(())));
    assert!(matches!(action, WorkerAction::Finish { notify: None }));
    assert!(state.is_finished());
}

#[test]
fn successful_job_is_deleted_and_committed() {
    let state = locked(5);
    let (state, action) = step(state, WorkerInput::Performed(Outcome::Returned(Ok(()))));
    assert!(matches!(action, WorkerAction::Delete { job_id: 5 }));
    let (state, action) = step(state, WorkerInput::Deleted(Ok(())));
    assert!(matches!(action, WorkerAction::End { notify: None, commit: true }));
    let (state, action) = step(state, WorkerInput::Ended(Ok(())));
    assert!(matches!(action, WorkerAction::Finish { notify: None }));
    assert!(state.is_finished());
}

#[test]
fn failed_job_is_logged_and_marked_failed() {
    let state = locked(8);
    let (state, action) = step(state, WorkerInput::Performed(Outcome::Returned(Err(PerformError::new("nope")))));
    match action {
        WorkerAction::MarkFailed { job_id, log } => {
            assert_eq!(job_id, 8);
            assert_eq!(log, "Job 8 failed to run: nope");
        }
        other => panic!("unexpected action {:?}", other),
    }
    let (state, action) = step(state, WorkerInput::MarkedFailed);
    assert!(matches!(action, WorkerAction::End { notify: None, commit: true }));
    let (state, action) = step(state, WorkerInput::Ended(Ok(())));
    assert!(matches!(action, WorkerAction::Finish { notify: None }));
    assert!(state.is_finished());
}

#[test]
fn panicked_job_is_marked_failed_and_the_worker_goes_on() {
    let state = locked(9);
    let (state, action) = step(state, WorkerInput::Performed(Outcome::Panicked(PanicPayload::Text("boom".to_string()))));
    match action {
        WorkerAction::MarkFailed { job_id, log } => {
            assert_eq!(job_id, 9);
            assert_eq!(log, "Job 9 failed to run: job panicked: boom");
        }
        other => panic!("unexpected action {:?}", other),
    }
    let (_, action) = step(state, WorkerInput::MarkedFailed);
    assert!(matches!(action, WorkerAction::End { notify: None, commit: true }));
}

#[test]
fn failed_commit_is_fatal_for_the_worker() {
    let state = locked(1);
    let (state, _) = step(state, WorkerInput::Performed(Outcome::Returned(Ok(()))));
    let (state, _) = step(state, WorkerInput::Deleted(Ok(())));
    let (state, action) = step(state, WorkerInput::Ended(Err(storage_error(StorageErrorKind::Other, "connection lost"))));
    match action {
        WorkerAction::Panic { error } => assert_eq!(error.message, "connection lost"),
        other => panic!("unexpected action {:?}", other),
    }
    assert!(state.is_finished());
}

#[test]
fn failed_delete_rolls_back_and_is_fatal() {
    let state = locked(1);
    let (state, _) = step(state, WorkerInput::Performed(Outcome::Returned(Ok(()))));
    let (state, action) = step(state, WorkerInput::Deleted(Err(storage_error(StorageErrorKind::Other, "deadlock"))));
    assert!(matches!(action, WorkerAction::End { notify: None, commit: false }));
    let (_, action) = step(state, WorkerInput::Ended(Ok(())));
    match action {
        WorkerAction::Panic { error } => assert_eq!(error.message, "deadlock"),
        other => panic!("unexpected action {:?}", other),
    }
}

#[test]
fn rollback_sentinel_is_never_fatal() {
    let state = locked(1);
    let (state, _) = step(state, WorkerInput::Performed(Outcome::Returned(Ok(()))));
    let (state, _) = step(state, WorkerInput::Deleted(Err(storage_error(StorageErrorKind::RollbackTransaction, "rollback"))));
    let (_, action) = step(state, WorkerInput::Ended(Ok(())));
    assert!(matches!(action, WorkerAction::Finish { notify: None }));
}

#[test]
fn transaction_that_cannot_open_is_fatal() {
    let (state, _) = WorkerState::start();
    let (state, _) = step(state, WorkerInput::Connected(Ok(())));
    let (state, action) = step(state, WorkerInput::Began(Err(storage_error(StorageErrorKind::Other, "server closed"))));
    assert!(matches!(action, WorkerAction::Panic { .. }));
    assert!(state.is_finished());
}

#[test]
fn worker_waits_for_the_answer_to_its_own_action_only() {
    let (state, _) = WorkerState::start();
    assert!(state.accepts_input(&WorkerInput::Connected(Ok(()))));
    assert!(!state.accepts_input(&WorkerInput::Began(Ok(()))));
    assert!(!state.accepts_input(&WorkerInput::MarkedFailed));
    assert!(!WorkerState::Finished.accepts_input(&WorkerInput::Ended(Ok(()))));
    assert!(!WorkerState::Deleting.accepts_input(&WorkerInput::MarkedFailed));
    assert!(WorkerState::MarkingFailed.accepts_input(&WorkerInput::MarkedFailed));
}
