use swirl::errors::FetchError;
use swirl::errors::StorageError;
use swirl::errors::StorageErrorKind;
use swirl::runner::event::Event;
use swirl::runner::fetch::PendingJobs;
use swirl::runner::fetch::Round;

fn expect_continue(round: Round) -> (PendingJobs, usize) {
    match round {
        Round::Continue { run, jobs_to_queue } => (run, jobs_to_queue),
        Round::Finished { result } => panic!("the run ended with {:?}", result),
    }
}

fn expect_finished(round: Round) -> Result<(), FetchError> {
    match round {
        Round::Finished { result } => result,
        Round::Continue { .. } => panic!("the run goes on"),
    }
}

#[test]
fn first_round_fills_the_idle_threads() {
    let (run, jobs_to_queue) = PendingJobs::begin(5, 0);
    assert_eq!(jobs_to_queue, 5);
    assert_eq!(run.pending(), 5);
    let (run, jobs_to_queue) = PendingJobs::begin(5, 3);
    assert_eq!(jobs_to_queue, 2);
    assert_eq!(run.pending(), 2);
}

#[test]
fn first_round_submits_one_worker_to_a_saturated_pool() {
    let (run, jobs_to_queue) = PendingJobs::begin(4, 4);
    assert_eq!(jobs_to_queue, 1);
    assert_eq!(run.pending(), 1);
}

#[test]
fn empty_queue_returns_success_after_one_worker() {
    let (run, jobs_to_queue) = PendingJobs::begin(1, 0);
    assert_eq!(jobs_to_queue, 1);
    let result = expect_finished(run.next(Some(Event::NoJobAvailable), 0));
    assert!(result.is_ok());
}

#[test]
fn working_keeps_the_run_going_and_refills_idle_threads() {
    let (run, _) = PendingJobs::begin(5, 0);
    let (run, jobs_to_queue) = expect_continue(run.next(Some(Event::Working), 5));
    assert_eq!(jobs_to_queue, 0);
    assert_eq!(run.pending(), 4);
    let (run, jobs_to_queue) = expect_continue(run.next(Some(Event::Working), 3));
    assert_eq!(jobs_to_queue, 2);
    assert_eq!(run.pending(), 5);
    assert!(expect_finished(run.next(Some(Event::NoJobAvailable), 5)).is_ok());
}

#[test]
fn last_pending_message_forces_one_more_worker() {
    let (run, jobs_to_queue) = PendingJobs::begin(1, 0);
    assert_eq!(jobs_to_queue, 1);
    let (run, jobs_to_queue) = expect_continue(run.next(Some(Event::Working), 1));
    assert_eq!(jobs_to_queue, 1);
    assert_eq!(run.pending(), 1);
}

#[test]
fn load_error_ends_the_run_with_failed_loading_job() {
    let (run, _) = PendingJobs::begin(2, 0);
    let error = StorageError { kind: StorageErrorKind::Other, message: "cannot execute in a read-only transaction".to_string() };
    match expect_finished(run.next(Some(Event::ErrorLoadingJob(error)), 1)) {
        Err(FetchError::FailedLoadingJob(e)) => {
            assert_eq!(e.message, "cannot execute in a read-only transaction");
            assert_eq!(e.kind, StorageErrorKind::Other);
        }
        other => panic!("unexpected result {:?}", other),
    }
}

#[test]
fn connection_error_ends_the_run_with_no_database_connection() {
    let (run, _) = PendingJobs::begin(2, 0);
    match expect_finished(run.next(Some(Event::FailedToAcquireConnection("pool timed out".to_string())), 0)) {
        Err(FetchError::NoDatabaseConnection(message)) => assert_eq!(message, "pool timed out"),
        other => panic!("unexpected result {:?}", other),
    }
}

#[test]
fn timeout_ends_the_run_with_no_message_received() {
    let (run, _) = PendingJobs::begin(2, 0);
    assert!(matches!(expect_finished(run.next(None, 2)), Err(FetchError::NoMessageReceived)));
}
