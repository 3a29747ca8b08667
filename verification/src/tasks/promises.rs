//! What the task operations promise over several calls.
use crate::tasks::create;
use crate::tasks::create::PreparedCreate;
use crate::tasks::dispatch;
use crate::tasks::errors::{ErrorCode, TaskError};
use crate::tasks::laws;
use crate::tasks::model::{
    AttemptOutcome, RevisionedTaskQueueState, RevisionedTaskSequence, TaskCancelParams,
    TaskCreateParams, TaskState, TaskView,
};
use crate::tasks::service;
use crate::tasks::service::{CancelPlan, StepView, SynapseService};
use crate::tasks::store;
use crate::tasks::store::PreparedMutation;
use crate::tasks::transitions;
use crate::tasks::transitions::SpawnTerminalCompletion;
use vstd::prelude::*;
use vstd::string::*;

verus! {

/// A task is enqueued behind every task that was created before it, whatever became
/// of those since: all that is asked of the queue at the later creation is that its
/// watermark has not gone back. The new task waits, without an attempt, a
/// reservation or a review, as the request describes it.
pub proof fn law_later_tasks_come_later(
    before: SynapseService,
    first_params: TaskCreateParams,
    first_now: u64,
    first: PreparedCreate,
    later: SynapseService,
    second_params: TaskCreateParams,
    second_now: u64,
    second: PreparedCreate,
)
    requires
        service::create_outcome(before, first_params, first_now, Ok(first)),
        store::sequence_reading(later.sequence) matches Ok(Some(sequence)) && sequence.value
            >= first.next_seq,
        service::create_outcome(later, second_params, second_now, Ok(second)),
    ensures
        first.task@.enqueue_seq == first.next_seq,
        second.task@.enqueue_seq == second.next_seq,
        first.task@.enqueue_seq < second.task@.enqueue_seq,
        second.task@ == create::created(
            second_params,
            second.next_seq,
            second.next_queue.mutation_generation,
            second_now,
        ),
        second.task@.state == TaskState::Todo,
        second.task@.attempts.len() == 0,
        second.task@.dispatch_reservation is None,
        second.task@.review_reason is None,
{
}

/// A task id is taken once: a second creation under it is never prepared, and a queue
/// that is in order refuses it as a bad request.
pub proof fn law_taken_ids_are_refused(
    image: SynapseService,
    params: TaskCreateParams,
    now: u64,
    prepared: Result<PreparedCreate, TaskError>,
)
    requires
        store::task_reading(image.rows@, params.task_id@) matches Ok(Some(_)),
        service::create_outcome(image, params, now, prepared),
    ensures
        prepared is Err,
        create::create_refusal(params) is None && store::audit_reading(
            image.queue,
            image.sequence,
            image.rows@,
        ) is Ok && store::queue_reading(image.queue) != Ok::<
            Option<RevisionedTaskQueueState>,
            TaskError,
        >(None) && store::sequence_reading(image.sequence) != Ok::<
            Option<RevisionedTaskSequence>,
            TaskError,
        >(None) ==> (prepared matches Err(error) && error is AlreadyExists && error.code_spec()
            == ErrorCode::ToolParamsInvalid),
{
}

/// A cancelled task is answered as it is, with its generation and its time of
/// change, and nothing is written.
pub proof fn law_cancelled_tasks_are_left_alone(
    image: SynapseService,
    params: TaskCancelParams,
    now: u64,
    plan: Result<CancelPlan, TaskError>,
)
    requires
        store::task_reading(image.rows@, params.task_id@) matches Ok(Some(task)) && task.state
            == TaskState::Cancelled,
        service::cancel_outcome(image, params, now, plan),
    ensures
        plan matches Ok(CancelPlan::Unchanged(kept)) && store::task_reading(
            image.rows@,
            params.task_id@,
        ) == Ok::<Option<TaskView>, TaskError>(Some(kept@)),
{
}

/// Cancelling a task a second time changes nothing: the row that the first
/// cancellation wrote is answered, and nothing is written.
pub proof fn law_cancelling_twice_is_cancelling_once(
    image: SynapseService,
    params: TaskCancelParams,
    now: u64,
    prepared: PreparedMutation,
    later: SynapseService,
    again: TaskCancelParams,
    later_now: u64,
    plan: Result<CancelPlan, TaskError>,
)
    requires
        service::cancel_outcome(image, params, now, Ok(CancelPlan::Write(prepared))),
        again.task_id@ == params.task_id@,
        store::task_reading(later.rows@, again.task_id@) == Ok::<Option<TaskView>, TaskError>(
            Some(prepared.task@),
        ),
        service::cancel_outcome(later, again, later_now, plan),
    ensures
        prepared.task@.state == TaskState::Cancelled,
        prepared.task@.live() is None,
        plan matches Ok(CancelPlan::Unchanged(kept)) && kept@ == prepared.task@,
{
    let task = service::mutation_base(image, params.task_id@)->Ok_0.1;
    laws::law_leaving_in_progress_settles(
        task,
        TaskState::Cancelled,
        crate::text::opt_text(params.reason),
        now,
    );
}

/// A task that a dispatch has reserved is not cancelled under it.
pub proof fn law_reserved_tasks_are_not_cancelled(
    image: SynapseService,
    params: TaskCancelParams,
    now: u64,
    plan: Result<CancelPlan, TaskError>,
)
    requires
        service::mutation_base(image, params.task_id@) matches Ok((_, task))
            && task.dispatch_reservation is Some,
        service::cancel_outcome(image, params, now, plan),
    ensures
        plan matches Err(error) && error is ReservationActive && error.code_spec()
            == ErrorCode::AgentTaskInvalidTransition,
{
    let task = service::mutation_base(image, params.task_id@)->Ok_0.1;
    store::law_rows_read_under_their_own_key(image.rows@, params.task_id@);
    laws::law_reservation_means_in_progress(task);
}

/// A finished task cannot be cancelled: the request is refused as a transition that
/// does not exist.
pub proof fn law_finished_tasks_stay_finished(
    image: SynapseService,
    params: TaskCancelParams,
    now: u64,
    plan: Result<CancelPlan, TaskError>,
)
    requires
        service::mutation_base(image, params.task_id@) matches Ok((_, task)) && task.state
            == TaskState::Done,
        service::cancel_outcome(image, params, now, plan),
    ensures
        plan matches Err(error) && error == TaskError::TransitionForbidden && error.code_spec()
            == ErrorCode::AgentTaskInvalidTransition,
{
    let task = service::mutation_base(image, params.task_id@)->Ok_0.1;
    store::law_rows_read_under_their_own_key(image.rows@, params.task_id@);
    if task.dispatch_reservation is Some {
        laws::law_reservation_means_in_progress(task);
    }
}

proof fn lemma_same_order(tasks: Seq<TaskView>, a: Seq<int>, b: Seq<int>, end: int)
    requires
        dispatch::is_listing(tasks, a),
        dispatch::is_listing(tasks, b),
        0 <= end <= tasks.len(),
    ensures
        forall|p: int| 0 <= p < end ==> a[p] == b[p],
    decreases end,
{
    if end > 0 {
        lemma_same_order(tasks, a, b, end - 1);
        let p = end - 1;
        if a[p] != b[p] {
            dispatch::law_listing_is_complete(tasks, b, a[p]);
            dispatch::law_listing_is_complete(tasks, a, b[p]);
            let q = choose|q: int| 0 <= q < b.len() && b[q] == a[p];
            let r = choose|r: int| 0 <= r < a.len() && a[r] == b[p];
            if q < p {
                assert(a[q] == b[q]);
                assert(dispatch::precedes(tasks, a[q], a[p]));
            }
            if r < p {
                assert(a[r] == b[r]);
                assert(dispatch::precedes(tasks, b[r], b[p]));
            }
            assert(dispatch::precedes(tasks, b[p], b[q]));
            assert(dispatch::precedes(tasks, a[p], a[r]));
        }
    }
}

/// The order in which tasks are listed is unique.
pub proof fn law_listing_is_unique(tasks: Seq<TaskView>, a: Seq<TaskView>, b: Seq<TaskView>)
    requires
        dispatch::is_listing_of(a, tasks),
        dispatch::is_listing_of(b, tasks),
    ensures
        a == b,
{
    let left = choose|order: Seq<int>| #[trigger]
        dispatch::is_listing(tasks, order) && a == order.map_values(|index: int| tasks[index]);
    let right = choose|order: Seq<int>| #[trigger]
        dispatch::is_listing(tasks, order) && b == order.map_values(|index: int| tasks[index]);
    lemma_same_order(tasks, left, right, tasks.len() as int);
    assert(left =~= right);
}

/// Two listings of the same tasks, for the same state and length, show the same
/// tasks in the same order.
pub proof fn law_shown_tasks_are_unique(
    tasks: Seq<TaskView>,
    state: Option<TaskState>,
    max: int,
    a: Seq<TaskView>,
    b: Seq<TaskView>,
)
    requires
        service::is_shown(a, tasks, state, max),
        service::is_shown(b, tasks, state, max),
    ensures
        a == b,
{
    let left = choose|listed: Seq<TaskView>| #[trigger]
        dispatch::is_listing_of(listed, tasks) && a == service::shown(listed, state, max);
    let right = choose|listed: Seq<TaskView>| #[trigger]
        dispatch::is_listing_of(listed, tasks) && b == service::shown(listed, state, max);
    law_listing_is_unique(tasks, left, right);
}

proof fn lemma_nothing_filtered(listed: Seq<TaskView>, keep: spec_fn(TaskView) -> bool)
    requires
        forall|task: TaskView| #[trigger] keep(task),
    ensures
        listed.filter(keep) == listed,
    decreases listed.len(),
{
    reveal(Seq::filter);
    if listed.len() > 0 {
        lemma_nothing_filtered(listed.drop_last(), keep);
        assert(keep(listed.last()));
        assert(listed.drop_last().push(listed.last()) =~= listed);
    }
}

/// The dashboard shows what an unfiltered listing shows: as many of the tasks as it
/// asked for, from the front of the order in which all of them are listed.
pub proof fn law_dashboard_shows_the_front_of_the_list(
    tasks: Seq<TaskView>,
    listed: Seq<TaskView>,
    max: int,
    snapshot: Seq<TaskView>,
)
    requires
        0 <= max,
        dispatch::is_listing_of(listed, tasks),
        service::is_shown(snapshot, tasks, None, max),
    ensures
        listed.len() == tasks.len(),
        snapshot.len() == (if tasks.len() <= max {
            tasks.len() as int
        } else {
            max
        }),
        snapshot == listed.subrange(0, snapshot.len() as int),
{
    let source = choose|source: Seq<TaskView>| #[trigger]
        dispatch::is_listing_of(source, tasks) && snapshot == service::shown(source, None, max);
    law_listing_is_unique(tasks, source, listed);
    let state: Option<TaskState> = None;
    let keep = |task: TaskView| state matches Some(kept) ==> task.state == kept;
    lemma_nothing_filtered(listed, keep);
    let order = choose|order: Seq<int>| #[trigger]
        dispatch::is_listing(tasks, order) && listed == order.map_values(
            |index: int| tasks[index],
        );
    assert(listed.len() == order.len());
    assert(listed.subrange(0, listed.len() as int) =~= listed);
}

/// Whether `after` is what a reconciliation makes of the task `before`: the task
/// itself where it has nothing to settle, else the task under review, written at
/// some time under some queue generation.
pub open spec fn settled_into(
    before: TaskView,
    after: TaskView,
    live: Seq<String>,
    now: u64,
    completion: Option<SpawnTerminalCompletion>,
) -> bool {
    match service::reconcile_step(before, live, now) {
        None => after == before,
        Some(StepView::Expire { reason, .. }) => exists|generation: u64, at: u64|
            after == #[trigger] laws::stamped(
                transitions::reviewed(before, AttemptOutcome::Orphaned, at, reason, Some(reason)),
                generation,
                at,
            ),
        Some(StepView::Vanish { spawn_id, .. }) => exists|generation: u64, at: u64|
            after == #[trigger] laws::stamped(
                transitions::vanished(before, service::counted_completion(spawn_id, completion), at),
                generation,
                at,
            ),
    }
}

/// Whether `after` is what a reconciliation makes of the tasks, where `completions`
/// are the artifacts that it found for them, by the id of the task.
pub open spec fn reconciled(
    before: Seq<TaskView>,
    after: Seq<TaskView>,
    live: Seq<String>,
    now: u64,
    completions: Map<Seq<char>, Option<SpawnTerminalCompletion>>,
) -> bool {
    &&& after.len() == before.len()
    &&& forall|i: int|
        0 <= i < before.len() ==> settled_into(
            #[trigger] before[i],
            after[i],
            live,
            now,
            completions[before[i].task_id],
        )
}

/// The ids of those of the first `end` tasks that a reconciliation flags as
/// orphaned.
pub open spec fn flagged_ids(
    tasks: Seq<TaskView>,
    live: Seq<String>,
    now: u64,
    completions: Map<Seq<char>, Option<SpawnTerminalCompletion>>,
    end: int,
) -> Seq<Seq<char>>
    decreases end,
{
    if end <= 0 {
        Seq::empty()
    } else {
        let earlier = flagged_ids(tasks, live, now, completions, end - 1);
        match service::reconcile_step(tasks[end - 1], live, now) {
            Some(step) => if service::flagged_by(step, completions[tasks[end - 1].task_id]) {
                earlier.push(tasks[end - 1].task_id)
            } else {
                earlier
            },
            None => earlier,
        }
    }
}

/// Whether a task with an id stands under review.
pub open spec fn under_review(tasks: Seq<TaskView>, task_id: Seq<char>) -> bool {
    exists|i: int|
        0 <= i < tasks.len() && (#[trigger] tasks[i]).task_id == task_id && tasks[i].state
            == TaskState::Review
}

/// No two of the tasks have the same id.
pub open spec fn ids_distinct(tasks: Seq<TaskView>) -> bool {
    forall|i: int, j: int|
        0 <= i < j < tasks.len() ==> (#[trigger] tasks[i]).task_id != (
        #[trigger] tasks[j]).task_id
}

/// The commit of a settlement writes what a reconciliation makes of the task.
pub proof fn law_settlements_are_reconciliations(
    image: SynapseService,
    before: TaskView,
    live: Seq<String>,
    planned: u64,
    completion: Option<SpawnTerminalCompletion>,
    now: u64,
    prepared: PreparedMutation,
)
    requires
        store::task_reading(image.rows@, before.task_id) == Ok::<Option<TaskView>, TaskError>(
            Some(before),
        ),
        service::reconcile_step(before, live, planned) matches Some(step)
            && service::settle_outcome(image, step, live, completion, now, Ok(prepared)),
    ensures
        settled_into(before, prepared.task@, live, planned, completion),
        prepared.task@.state == TaskState::Review,
{
    let step = service::reconcile_step(before, live, planned)->Some_0;
    let base = service::mutation_base(image, before.task_id);
    assert(base is Ok && base->Ok_0.1 == before);
    match step {
        StepView::Expire { reason, .. } => {
            assert(prepared.task@ == laws::stamped(
                transitions::reviewed(before, AttemptOutcome::Orphaned, now, reason, Some(reason)),
                prepared.next_queue.mutation_generation,
                now,
            ));
        },
        StepView::Vanish { spawn_id, .. } => {
            assert(prepared.task@ == laws::stamped(
                transitions::vanished(
                    before,
                    service::counted_completion(spawn_id, completion),
                    now,
                ),
                prepared.next_queue.mutation_generation,
                now,
            ));
        },
    }
}

spec fn was_flagged(
    before: Seq<TaskView>,
    after: Seq<TaskView>,
    task_id: Seq<char>,
    end: int,
) -> bool {
    exists|i: int|
        0 <= i < end && (#[trigger] before[i]).task_id == task_id && after[i].task_id
            == before[i].task_id && after[i].state == TaskState::Review
}

proof fn lemma_flagged(
    before: Seq<TaskView>,
    after: Seq<TaskView>,
    live: Seq<String>,
    now: u64,
    completions: Map<Seq<char>, Option<SpawnTerminalCompletion>>,
    end: int,
)
    requires
        reconciled(before, after, live, now, completions),
        0 <= end <= before.len(),
    ensures
        flagged_ids(before, live, now, completions, end).len() <= dispatch::in_flight_upto(
            before,
            end,
        ),
        forall|p: int|
            0 <= p < flagged_ids(before, live, now, completions, end).len() ==> was_flagged(
                before,
                after,
                #[trigger] flagged_ids(before, live, now, completions, end)[p],
                end,
            ),
        ids_distinct(before) ==> flagged_ids(before, live, now, completions, end).no_duplicates(),
    decreases end,
{
    if end > 0 {
        lemma_flagged(before, after, live, now, completions, end - 1);
        let earlier = flagged_ids(before, live, now, completions, end - 1);
        let flagged = flagged_ids(before, live, now, completions, end);
        let last = before[end - 1];
        assert(settled_into(last, after[end - 1], live, now, completions[last.task_id]));
        assert forall|p: int| 0 <= p < flagged.len() implies was_flagged(
            before,
            after,
            #[trigger] flagged[p],
            end,
        ) by {
            if p < earlier.len() {
                assert(flagged[p] == earlier[p]);
                assert(was_flagged(before, after, earlier[p], end - 1));
            } else {
                assert(before[end - 1].task_id == flagged[p]);
            }
        }
        if ids_distinct(before) && flagged.len() > earlier.len() {
            assert forall|p: int, q: int|
                0 <= p < flagged.len() && 0 <= q < flagged.len() && p != q implies flagged[p]
                != flagged[q] by {
                let low = if p < q {
                    p
                } else {
                    q
                };
                let high = if p < q {
                    q
                } else {
                    p
                };
                if high < earlier.len() {
                    assert(earlier[low] != earlier[high]);
                } else {
                    assert(was_flagged(before, after, earlier[low], end - 1));
                }
            }
        }
    }
}

proof fn lemma_nothing_to_settle(
    tasks: Seq<TaskView>,
    live: Seq<String>,
    now: u64,
    completions: Map<Seq<char>, Option<SpawnTerminalCompletion>>,
    end: int,
)
    requires
        0 <= end <= tasks.len(),
        forall|i: int|
            0 <= i < tasks.len() ==> service::reconcile_step(
                #[trigger] tasks[i],
                live,
                now,
            ) is None,
    ensures
        service::reconcile_steps(tasks, live, now, end).len() == 0,
        flagged_ids(tasks, live, now, completions, end).len() == 0,
    decreases end,
{
    if end > 0 {
        lemma_nothing_to_settle(tasks, live, now, completions, end - 1);
        assert(service::reconcile_step(tasks[end - 1], live, now) is None);
    }
}

/// Settling the steps of a reconciliation flags exactly the tasks that it flags.
pub proof fn law_steps_flag_their_tasks(
    tasks: Seq<TaskView>,
    live: Seq<String>,
    now: u64,
    completions: Map<Seq<char>, Option<SpawnTerminalCompletion>>,
    end: int,
)
    requires
        0 <= end <= tasks.len(),
    ensures
        ({
            let steps = service::reconcile_steps(tasks, live, now, end);
            service::flagged_upto(steps, completions, steps.len() as int) == flagged_ids(
                tasks,
                live,
                now,
                completions,
                end,
            )
        }),
    decreases end,
{
    if end > 0 {
        law_steps_flag_their_tasks(tasks, live, now, completions, end - 1);
        let earlier = service::reconcile_steps(tasks, live, now, end - 1);
        let steps = service::reconcile_steps(tasks, live, now, end);
        if service::reconcile_step(tasks[end - 1], live, now) is Some {
            lemma_flagged_prefix(earlier, steps, completions, earlier.len() as int);
        }
    }
}

proof fn lemma_flagged_prefix(
    earlier: Seq<StepView>,
    steps: Seq<StepView>,
    completions: Map<Seq<char>, Option<SpawnTerminalCompletion>>,
    end: int,
)
    requires
        0 <= end <= earlier.len() <= steps.len(),
        forall|i: int| 0 <= i < earlier.len() ==> earlier[i] == #[trigger] steps[i],
    ensures
        service::flagged_upto(earlier, completions, end) == service::flagged_upto(
            steps,
            completions,
            end,
        ),
    decreases end,
{
    if end > 0 {
        lemma_flagged_prefix(earlier, steps, completions, end - 1);
        assert(earlier[end - 1] == steps[end - 1]);
    }
}

/// A reconciliation flags no more tasks than it looked at, none of them twice, and
/// each of them stands under review afterwards.
pub proof fn law_flagged_tasks_are_under_review(
    before: Seq<TaskView>,
    after: Seq<TaskView>,
    live: Seq<String>,
    now: u64,
    completions: Map<Seq<char>, Option<SpawnTerminalCompletion>>,
)
    requires
        ids_distinct(before),
        reconciled(before, after, live, now, completions),
    ensures
        ({
            let flagged = flagged_ids(before, live, now, completions, before.len() as int);
            &&& flagged.len() <= dispatch::in_flight_count(before)
            &&& flagged.no_duplicates()
            &&& forall|p: int|
                0 <= p < flagged.len() ==> under_review(after, #[trigger] flagged[p])
        }),
{
    lemma_flagged(before, after, live, now, completions, before.len() as int);
    let flagged = flagged_ids(before, live, now, completions, before.len() as int);
    assert forall|p: int| 0 <= p < flagged.len() implies under_review(
        after,
        #[trigger] flagged[p],
    ) by {
        assert(was_flagged(before, after, flagged[p], before.len() as int));
        let i = choose|i: int|
            0 <= i < before.len() && (#[trigger] before[i]).task_id == flagged[p]
                && after[i].task_id == before[i].task_id && after[i].state == TaskState::Review;
        assert(after[i].task_id == flagged[p]);
    }
}

/// A second reconciliation against the same sessions finds nothing: it flags no
/// task and changes none. Only a reservation that expires in between gives it
/// something to do.
pub proof fn law_reconciling_twice_is_reconciling_once(
    before: Seq<TaskView>,
    after: Seq<TaskView>,
    again: Seq<TaskView>,
    live: Seq<String>,
    now: u64,
    later: u64,
    completions: Map<Seq<char>, Option<SpawnTerminalCompletion>>,
    later_completions: Map<Seq<char>, Option<SpawnTerminalCompletion>>,
)
    requires
        reconciled(before, after, live, now, completions),
        forall|i: int|
            0 <= i < before.len() && (#[trigger] before[i]).dispatch_reservation is Some
                && before[i].dispatch_reservation->Some_0.expires_at_unix_ms > now
                ==> before[i].dispatch_reservation->Some_0.expires_at_unix_ms > later,
        reconciled(after, again, live, later, later_completions),
    ensures
        service::reconcile_steps(after, live, later, after.len() as int).len() == 0,
        flagged_ids(after, live, later, later_completions, after.len() as int).len() == 0,
        again == after,
{
    assert forall|i: int| 0 <= i < after.len() implies service::reconcile_step(
        #[trigger] after[i],
        live,
        later,
    ) is None by {
        assert(settled_into(before[i], after[i], live, now, completions[before[i].task_id]));
    }
    lemma_nothing_to_settle(after, live, later, later_completions, after.len() as int);
    assert(again =~= after) by {
        assert forall|i: int| 0 <= i < after.len() implies again[i] == after[i] by {
            assert(settled_into(
                after[i],
                again[i],
                live,
                later,
                later_completions[after[i].task_id],
            ));
        }
    }
}

} // verus!
