//! What holds of every attempt: of every run of a worker task from its
//! start, whatever the pool, the database and the handler answer.

use crate::errors::StorageErrorKind;
use crate::runner::event::Event;
use crate::runner::worker::failure_log;
use crate::runner::worker::WorkerActionView;
use crate::runner::worker::WorkerInput;
use crate::runner::worker::WorkerState;
use vstd::prelude::*;

verus! {

/// How far a task has come. Every step takes it further.
pub open spec fn rank(state: WorkerState) -> nat {
    match state {
        WorkerState::Connecting => 0,
        WorkerState::Beginning => 1,
        WorkerState::Locking => 2,
        WorkerState::Performing { .. } => 3,
        WorkerState::Deleting => 4,
        WorkerState::MarkingFailed => 4,
        WorkerState::Ending { .. } => 5,
        WorkerState::Finished => 6,
    }
}

/// The state of a task that has taken `inputs` in this order since its
/// start.
pub open spec fn state_after(inputs: Seq<WorkerInput>) -> WorkerState
    decreases inputs.len(),
{
    if inputs.len() == 0 {
        WorkerState::Connecting
    } else {
        state_after(inputs.drop_last()).step_spec(inputs.last()).0
    }
}

/// Whether each of `inputs` answers the action that the task asked for
/// before it.
pub open spec fn well_driven(inputs: Seq<WorkerInput>) -> bool
    decreases inputs.len(),
{
    inputs.len() == 0 || (well_driven(inputs.drop_last()) && state_after(
        inputs.drop_last(),
    ).accepts(inputs.last()))
}

/// The action that the task asks for on the input at `i`.
pub open spec fn action_at(inputs: Seq<WorkerInput>, i: int) -> WorkerActionView {
    state_after(inputs.take(i)).step_spec(inputs[i]).1
}

/// The message that the caller sends with `action`, if any.
pub open spec fn notification(action: WorkerActionView) -> Option<Event> {
    match action {
        WorkerActionView::Perform { notify, .. } => Some(notify),
        WorkerActionView::End { notify, .. } => notify,
        WorkerActionView::Finish { notify } => notify,
        _ => None,
    }
}

/// Whether `action` changes the row of the job.
pub open spec fn changes_row(action: WorkerActionView) -> bool {
    action is Delete || action is MarkFailed
}

/// Every step takes the task further, so no state comes twice.
pub proof fn lemma_step_advances(state: WorkerState, input: WorkerInput)
    requires
        state.accepts(input),
    ensures
        rank(state.step_spec(input).0) > rank(state),
{
}

/// What was well driven up to its end was well driven up to `n`, and the
/// state after `n + 1` inputs is one step from the state after `n`.
pub proof fn lemma_prefix(inputs: Seq<WorkerInput>, n: int)
    requires
        well_driven(inputs),
        0 <= n <= inputs.len(),
    ensures
        well_driven(inputs.take(n)),
        n < inputs.len() ==> state_after(inputs.take(n)).accepts(inputs[n]) && state_after(
            inputs.take(n + 1),
        ) == state_after(inputs.take(n)).step_spec(inputs[n]).0,
    decreases inputs.len(),
{
    if n == inputs.len() {
        assert(inputs.take(n) =~= inputs);
    } else {
        let shorter = inputs.drop_last();
        assert(shorter.take(n) =~= inputs.take(n));
        if n == inputs.len() - 1 {
            assert(shorter =~= inputs.take(n));
            assert(inputs.take(n + 1) =~= inputs);
        } else {
            lemma_prefix(shorter, n);
            assert(shorter.take(n + 1) =~= inputs.take(n + 1));
            assert(shorter[n] == inputs[n]);
        }
    }
}

/// The longer a task has run, the further it has come.
pub proof fn lemma_ranks_increase(inputs: Seq<WorkerInput>, i: int, j: int)
    requires
        well_driven(inputs),
        0 <= i < j <= inputs.len(),
    ensures
        rank(state_after(inputs.take(i))) < rank(state_after(inputs.take(j))),
    decreases j - i,
{
    lemma_prefix(inputs, j - 1);
    lemma_step_advances(state_after(inputs.take(j - 1)), inputs[j - 1]);
    if i < j - 1 {
        lemma_ranks_increase(inputs, i, j - 1);
    }
}

/// An attempt takes at most six steps.
pub proof fn lemma_attempt_is_short(inputs: Seq<WorkerInput>)
    requires
        well_driven(inputs),
    ensures
        inputs.len() <= 6,
        inputs.len() <= rank(state_after(inputs)),
    decreases inputs.len(),
{
    if inputs.len() > 0 {
        let shorter = inputs.drop_last();
        lemma_attempt_is_short(shorter);
        lemma_step_advances(state_after(shorter), inputs.last());
    }
}

/// A task runs the locking query as its third action.
pub proof fn lemma_locking_is_third(inputs: Seq<WorkerInput>, n: int)
    requires
        well_driven(inputs),
        0 <= n <= inputs.len(),
        state_after(inputs.take(n)) is Locking,
    ensures
        n == 2,
{
    if n == 0 {
        assert(inputs.take(0).len() == 0);
    } else {
        lemma_prefix(inputs, n - 1);
        assert(state_after(inputs.take(n - 1)) is Beginning);
        if n - 1 == 0 {
            assert(inputs.take(0).len() == 0);
        } else {
            lemma_prefix(inputs, n - 2);
            assert(state_after(inputs.take(n - 2)) is Connecting);
            if n - 2 > 0 {
                lemma_ranks_increase(inputs, 0, n - 2);
            }
        }
    }
}

/// The handler runs on the result of the locking query, as the fourth
/// action of the task, and the task knows the job that the query returned.
pub proof fn lemma_performing_the_locked_job(inputs: Seq<WorkerInput>, n: int)
    requires
        well_driven(inputs),
        0 <= n <= inputs.len(),
        state_after(inputs.take(n)) is Performing,
    ensures
        n == 3,
        inputs[2] matches WorkerInput::Locked(Ok(job)) && state_after(inputs.take(n))
            == (WorkerState::Performing { job_id: job.id }),
{
    if n == 0 {
        assert(inputs.take(0).len() == 0);
    } else {
        lemma_prefix(inputs, n - 1);
        assert(state_after(inputs.take(n - 1)) is Locking);
        lemma_locking_is_third(inputs, n - 1);
    }
}

/// The task asks for a change of a row only on the result of the handler.
pub proof fn lemma_changes_follow_the_handler(inputs: Seq<WorkerInput>, i: int)
    requires
        well_driven(inputs),
        0 <= i < inputs.len(),
        changes_row(action_at(inputs, i)),
    ensures
        i == 3,
        state_after(inputs.take(i)) is Performing,
        inputs[i] is Performed,
{
    lemma_prefix(inputs, i);
    lemma_performing_the_locked_job(inputs, i);
}

/// The task asks for the deletion of a row only after the handler of the
/// job that it has locked returned success, and it is that job's row.
pub proof fn lemma_row_deleted_only_after_success(inputs: Seq<WorkerInput>, i: int)
    requires
        well_driven(inputs),
        0 <= i < inputs.len(),
        action_at(inputs, i) is Delete,
    ensures
        i == 3,
        inputs[2] matches WorkerInput::Locked(Ok(job)) && action_at(inputs, i)
            == (WorkerActionView::Delete { job_id: job.id }),
        inputs[3] matches WorkerInput::Performed(outcome) && outcome.failure() is None,
{
    lemma_changes_follow_the_handler(inputs, i);
    lemma_performing_the_locked_job(inputs, i);
}

/// When the handler returns success, the task asks for the deletion of the
/// row of the job that it has locked; and when the row is deleted, it
/// commits the transaction that holds the lock.
pub proof fn lemma_success_deletes_the_row(inputs: Seq<WorkerInput>, i: int)
    requires
        well_driven(inputs),
        0 <= i < inputs.len(),
        inputs[i] matches WorkerInput::Performed(outcome) && outcome.failure() is None,
    ensures
        i == 3,
        inputs[2] matches WorkerInput::Locked(Ok(job)) && action_at(inputs, 3)
            == (WorkerActionView::Delete { job_id: job.id }),
        inputs.len() > 4 ==> inputs[4] is Deleted,
        inputs.len() > 4 && inputs[4] == WorkerInput::Deleted(Ok(())) ==> action_at(inputs, 4)
            == (WorkerActionView::End { notify: None, commit: true }),
{
    lemma_prefix(inputs, i);
    lemma_performing_the_locked_job(inputs, i);
    if inputs.len() > 4 {
        lemma_prefix(inputs, 4);
    }
}

/// When the handler fails or panics, the task logs the failure and asks
/// for the row of the job that it has locked to be marked as failed, once,
/// and then commits the transaction that holds the lock. It does not panic
/// and it does not delete the row.
pub proof fn lemma_failure_marks_the_job_failed(inputs: Seq<WorkerInput>, i: int)
    requires
        well_driven(inputs),
        0 <= i < inputs.len(),
        inputs[i] matches WorkerInput::Performed(outcome) && outcome.failure() is Some,
    ensures
        i == 3,
        inputs[2] matches WorkerInput::Locked(Ok(job)) && action_at(inputs, 3)
            == (WorkerActionView::MarkFailed {
            job_id: job.id,
            log: failure_log(job.id, inputs[3]->Performed_0.failure()->Some_0),
        }),
        inputs.len() > 4 ==> inputs[4] == WorkerInput::MarkedFailed && action_at(inputs, 4)
            == (WorkerActionView::End { notify: None, commit: true }),
        forall|j: int| 0 <= j < inputs.len() && j != 3 ==> !changes_row(action_at(inputs, j)),
{
    lemma_prefix(inputs, i);
    lemma_performing_the_locked_job(inputs, i);
    if inputs.len() > 4 {
        lemma_prefix(inputs, 4);
    }
    assert forall|j: int| 0 <= j < inputs.len() && j != 3 implies !changes_row(
        action_at(inputs, j),
    ) by {
        if changes_row(action_at(inputs, j)) {
            lemma_changes_follow_the_handler(inputs, j);
        }
    }
}

/// A task asks for at most one change of a row.
pub proof fn lemma_one_change_per_attempt(inputs: Seq<WorkerInput>, i: int, j: int)
    requires
        well_driven(inputs),
        0 <= i < inputs.len(),
        0 <= j < inputs.len(),
        changes_row(action_at(inputs, i)),
        changes_row(action_at(inputs, j)),
    ensures
        i == j,
{
    lemma_changes_follow_the_handler(inputs, i);
    lemma_changes_follow_the_handler(inputs, j);
}

/// A task sends a message only when it has no connection, or with the
/// result of the locking query.
pub proof fn lemma_messages_follow_the_lock(inputs: Seq<WorkerInput>, i: int)
    requires
        well_driven(inputs),
        0 <= i < inputs.len(),
        notification(action_at(inputs, i)) is Some,
    ensures
        i == 0 || i == 2,
        i == 0 ==> inputs[0] is Connected && inputs[0]->Connected_0 is Err && inputs.len() == 1,
        i == 2 ==> inputs[2] is Locked,
{
    lemma_prefix(inputs, i);
    let state = state_after(inputs.take(i));
    if state is Connecting {
        if i > 0 {
            lemma_ranks_increase(inputs, 0, i);
        }
        assert(inputs.take(0).len() == 0);
        if inputs.len() > 1 {
            lemma_prefix(inputs, 1);
        }
    } else {
        assert(state is Locking);
        lemma_locking_is_third(inputs, i);
    }
}

/// A task sends at most one message.
pub proof fn lemma_at_most_one_message(inputs: Seq<WorkerInput>, i: int, j: int)
    requires
        well_driven(inputs),
        0 <= i < inputs.len(),
        0 <= j < inputs.len(),
        notification(action_at(inputs, i)) is Some,
        notification(action_at(inputs, j)) is Some,
    ensures
        i == j,
{
    lemma_messages_follow_the_lock(inputs, i);
    lemma_messages_follow_the_lock(inputs, j);
}

/// A task that is over has sent its one message, unless its transaction
/// could not be opened.
pub proof fn lemma_finished_task_has_reported(inputs: Seq<WorkerInput>)
    requires
        well_driven(inputs),
        state_after(inputs) == WorkerState::Finished,
        !(inputs.len() == 2 && inputs[1] matches WorkerInput::Began(Err(_))),
    ensures
        exists|i: int| 0 <= i < inputs.len() && notification(#[trigger] action_at(inputs, i)) is Some,
{
    assert(inputs.take(0).len() == 0);
    assert(inputs.len() > 0);
    lemma_prefix(inputs, 0);
    lemma_prefix(inputs, inputs.len() as int);
    if inputs[0] matches WorkerInput::Connected(Err(_)) {
        assert(notification(action_at(inputs, 0)) is Some);
    } else {
        assert(state_after(inputs.take(1)) is Beginning);
        assert(inputs.len() > 1);
        lemma_prefix(inputs, 1);
        if inputs[1] matches WorkerInput::Began(Err(_)) {
            assert(state_after(inputs.take(2)) is Finished);
            if inputs.len() > 2 {
                lemma_prefix(inputs, 2);
            }
        } else {
            assert(state_after(inputs.take(2)) is Locking);
            assert(inputs.len() > 2);
            lemma_prefix(inputs, 2);
            assert(notification(action_at(inputs, 2)) is Some);
        }
    }
}

/// A task reports that it is working exactly when the locking query
/// returned a job, and before the handler runs; it reports that no job is
/// available exactly when the locking query found no row.
pub proof fn lemma_message_tells_the_lock(state: WorkerState, input: WorkerInput)
    requires
        state.accepts(input),
    ensures
        notification(state.step_spec(input).1) == Some(Event::Working) <==> state.step_spec(
            input,
        ).1 is Perform,
        state.step_spec(input).1 is Perform <==> input matches WorkerInput::Locked(Ok(_)),
        notification(state.step_spec(input).1) == Some(Event::NoJobAvailable) <==> (
        input matches WorkerInput::Locked(Err(e)) && e.kind == StorageErrorKind::NotFound),
{
}

/// Once the handler has run, the task closes its transaction, which holds
/// the lock on the row, only after it has asked for the row to be deleted
/// or marked as failed.
pub proof fn lemma_row_changes_before_the_lock_is_released(inputs: Seq<WorkerInput>, i: int)
    requires
        well_driven(inputs),
        0 <= i < inputs.len(),
        inputs.len() > 3,
        inputs[3] is Performed,
        action_at(inputs, i) is End,
    ensures
        i == 4,
        changes_row(action_at(inputs, 3)),
{
    lemma_prefix(inputs, 3);
    lemma_prefix(inputs, i);
    lemma_performing_the_locked_job(inputs, 3);
    lemma_prefix(inputs, 4);
    if i < 3 {
        lemma_ranks_increase(inputs, i, 3);
    } else if i > 4 {
        lemma_ranks_increase(inputs, 4, i);
    }
}

/// A task ends by releasing its connection, and not before it has closed
/// the transaction that it opened: its last action is to finish or to
/// panic, and if its transaction was opened, the action before that was to
/// commit it or to roll it back.
pub proof fn lemma_finished_task_has_closed_its_transaction(inputs: Seq<WorkerInput>)
    requires
        well_driven(inputs),
        state_after(inputs) == WorkerState::Finished,
    ensures
        inputs.len() > 0,
        action_at(inputs, inputs.len() - 1) is Finish || action_at(inputs, inputs.len() - 1)
            is Panic,
        inputs.len() > 1 && inputs[1] == WorkerInput::Began(Ok(())) ==> inputs.len() > 3
            && action_at(inputs, inputs.len() - 2) is End,
{
    let n = inputs.len() as int;
    assert(inputs.take(0).len() == 0);
    assert(inputs.take(n) =~= inputs);
    lemma_prefix(inputs, n - 1);
    if n > 1 && inputs[1] == WorkerInput::Began(Ok(())) {
        lemma_prefix(inputs, 0);
        lemma_prefix(inputs, 1);
        assert(state_after(inputs.take(2)) is Locking);
        if n - 1 > 2 {
            lemma_ranks_increase(inputs, 2, n - 1);
        }
        assert(state_after(inputs.take(n - 1)) is Ending);
        lemma_prefix(inputs, n - 2);
    }
}

} // verus!
