//! What every task transition keeps.
use crate::digest;
use crate::tasks::dispatch;
use crate::tasks::errors::{BlockedOperation, TaskError};
use crate::tasks::model;
use crate::tasks::model::{
    AttemptOutcome, AttemptView, ReservationView, TASK_DISPATCH_RESERVATION_SCHEMA_VERSION,
    TaskState, TaskUpdateParams, TaskView,
};
use crate::tasks::transitions;
use crate::tasks::transitions::SpawnTerminalCompletion;
use crate::tasks::validate;
use crate::text;
use vstd::prelude::*;
use vstd::string::*;

verus! {

/// A row as a guarded commit writes it: with the next queue generation and the
/// time of the commit.
pub open spec fn stamped(task: TaskView, generation: u64, now: u64) -> TaskView {
    TaskView { mutation_generation: generation, updated_unix_ms: now, ..task }
}

/// The clock has not gone back behind the row or its attempts.
pub open spec fn clock_ok(task: TaskView, now: u64) -> bool {
    &&& task.created_unix_ms <= now
    &&& forall|i: int|
        0 <= i < task.attempts.len() ==> (#[trigger] task.attempts[i]).started_unix_ms <= now
}

proof fn lemma_attempts_ok(attempts: Seq<AttemptView>, from: int)
    requires
        0 <= from <= attempts.len(),
    ensures
        validate::attempts_refusal(attempts, from) is None <==> (from == attempts.len()
            || (attempts.len()
            <= u32::MAX && forall|i: int|
            from <= i < attempts.len() ==> validate::attempt_valid(#[trigger] attempts[i], i))),
    decreases attempts.len() - from,
{
    if from < attempts.len() {
        lemma_attempts_ok(attempts, from + 1);
        if validate::attempts_refusal(attempts, from) is None {
            assert(validate::attempt_valid(attempts[from], from));
        }
        if attempts.len() <= u32::MAX && (forall|i: int|
            from <= i < attempts.len() ==> validate::attempt_valid(#[trigger] attempts[i], i)) {
            assert(validate::attempt_valid(attempts[from], from));
        }
    }
}

proof fn lemma_pending_zero(attempts: Seq<AttemptView>)
    ensures
        validate::pending_count(attempts) == 0 <==> forall|i: int|
            0 <= i < attempts.len() ==> (#[trigger] attempts[i]).outcome
                != AttemptOutcome::Pending,
    decreases attempts.len(),
{
    if attempts.len() > 0 {
        let shorter = attempts.drop_last();
        lemma_pending_zero(shorter);
        assert(forall|i: int| 0 <= i < shorter.len() ==> shorter[i] == attempts[i]);
        if validate::pending_count(attempts) == 0 {
            assert forall|i: int| 0 <= i < attempts.len() implies (
            #[trigger] attempts[i]).outcome != AttemptOutcome::Pending by {
                if i < shorter.len() {
                    assert(shorter[i].outcome != AttemptOutcome::Pending);
                }
            }
        }
        if forall|i: int|
            0 <= i < attempts.len() ==> (#[trigger] attempts[i]).outcome
                != AttemptOutcome::Pending {
            assert(attempts[attempts.len() - 1].outcome != AttemptOutcome::Pending);
            assert forall|i: int| 0 <= i < shorter.len() implies (#[trigger] shorter[i]).outcome
                != AttemptOutcome::Pending by {
                assert(attempts[i].outcome != AttemptOutcome::Pending);
            }
        }
    }
}

/// The position `index` holds the only pending attempt.
pub open spec fn only_pending(attempts: Seq<AttemptView>, index: int) -> bool {
    &&& 0 <= index < attempts.len()
    &&& attempts[index].outcome == AttemptOutcome::Pending
    &&& forall|i: int|
        0 <= i < attempts.len() && i != index ==> (#[trigger] attempts[i]).outcome
            != AttemptOutcome::Pending
}

proof fn lemma_first_pending(attempts: Seq<AttemptView>, index: int, from: int)
    requires
        0 <= from <= index,
        only_pending(attempts, index),
    ensures
        model::first_pending(attempts, from) == Some(index),
    decreases index - from,
{
    if from < index {
        assert(attempts[from].outcome != AttemptOutcome::Pending);
        lemma_first_pending(attempts, index, from + 1);
    }
}

proof fn lemma_pending_one(attempts: Seq<AttemptView>) -> (index: int)
    requires
        validate::pending_count(attempts) == 1,
    ensures
        only_pending(attempts, index),
        model::first_pending(attempts, 0) == Some(index),
    decreases attempts.len(),
{
    let shorter = attempts.drop_last();
    let last = attempts.len() - 1;
    assert(forall|i: int| 0 <= i < shorter.len() ==> shorter[i] == attempts[i]);
    let index = if attempts.last().outcome == AttemptOutcome::Pending {
        lemma_pending_zero(shorter);
        last
    } else {
        lemma_pending_one(shorter)
    };
    assert forall|i: int| 0 <= i < attempts.len() && i != index implies (
    #[trigger] attempts[i]).outcome != AttemptOutcome::Pending by {
        if i < shorter.len() {
            assert(shorter[i].outcome == attempts[i].outcome);
        }
    }
    lemma_first_pending(attempts, index, 0);
    index
}

proof fn lemma_only_pending_count(attempts: Seq<AttemptView>, index: int)
    requires
        only_pending(attempts, index),
    ensures
        validate::pending_count(attempts) == 1,
    decreases attempts.len(),
{
    let shorter = attempts.drop_last();
    assert(forall|i: int| 0 <= i < shorter.len() ==> shorter[i] == attempts[i]);
    if index == attempts.len() - 1 {
        lemma_pending_zero(shorter);
        assert forall|i: int| 0 <= i < shorter.len() implies (#[trigger] shorter[i]).outcome
            != AttemptOutcome::Pending by {
            assert(attempts[i].outcome != AttemptOutcome::Pending);
        }
    } else {
        assert(attempts[attempts.len() - 1].outcome != AttemptOutcome::Pending);
        assert(only_pending(shorter, index)) by {
            assert forall|i: int| 0 <= i < shorter.len() && i != index implies (
            #[trigger] shorter[i]).outcome != AttemptOutcome::Pending by {
                assert(attempts[i].outcome != AttemptOutcome::Pending);
            }
        }
        lemma_only_pending_count(shorter, index);
    }
}

proof fn lemma_session_not_blank(reservation_id: Seq<char>)
    ensures
        !text::is_blank_spec(validate::reservation_session(reservation_id)),
{
    reveal_strlit("task-dispatch-reservation-");
    let session = validate::reservation_session(reservation_id);
    assert(session[0] == 't');
    assert(!text::is_white_space(session[0]));
}

/// A task is in progress exactly where one of its attempts, and then only one,
/// is pending; that one is the live attempt.
pub proof fn law_live_attempt_is_unique(task: TaskView)
    requires
        validate::task_valid(task),
    ensures
        task.state == TaskState::InProgress <==> task.live() is Some,
        task.state == TaskState::InProgress ==> exists|index: int|
            #[trigger] only_pending(task.attempts, index) && task.live() == Some(
                task.attempts[index],
            ),
{
    if task.state == TaskState::InProgress {
        let index = lemma_pending_one(task.attempts);
        assert(only_pending(task.attempts, index));
    } else {
        lemma_pending_zero(task.attempts);
        lemma_none_pending(task.attempts, 0);
    }
}

proof fn lemma_none_pending(attempts: Seq<AttemptView>, from: int)
    requires
        0 <= from,
        forall|i: int|
            0 <= i < attempts.len() ==> (#[trigger] attempts[i]).outcome
                != AttemptOutcome::Pending,
    ensures
        model::first_pending(attempts, from) is None,
    decreases attempts.len() - from,
{
    if from < attempts.len() {
        assert(attempts[from].outcome != AttemptOutcome::Pending);
        lemma_none_pending(attempts, from + 1);
    }
}

/// A dispatch reservation is held only by a task in progress.
pub proof fn law_reservation_means_in_progress(task: TaskView)
    requires
        validate::task_valid(task),
        task.dispatch_reservation is Some,
    ensures
        task.state == TaskState::InProgress,
{
    if task.state != TaskState::InProgress {
        lemma_pending_zero(task.attempts);
        lemma_none_pending(task.attempts, 0);
    }
}

/// Claiming a waiting task gives a valid row: in progress, the new attempt
/// live and bound to the session.
pub proof fn law_claim_keeps_rows_valid(
    task: TaskView,
    session_id: Seq<char>,
    spawn_id: Option<Seq<char>>,
    template_version: Option<u32>,
    generation: u64,
    now: u64,
)
    requires
        validate::task_valid(task),
        transitions::claim_refusal(task) is None,
        !text::is_blank_spec(session_id),
        clock_ok(task, now),
    ensures
        validate::task_valid(
            stamped(transitions::claimed(task, session_id, spawn_id, template_version, now), generation, now),
        ),
        transitions::claimed(task, session_id, spawn_id, template_version, now).live() == Some(
            transitions::pending_attempt(
                (task.attempts.len() + 1) as u32,
                session_id,
                spawn_id,
                template_version,
                now,
            ),
        ),
{
    let after = transitions::claimed(task, session_id, spawn_id, template_version, now);
    let last = task.attempts.len() as int;
    lemma_attempts_ok(task.attempts, 0);
    lemma_attempts_ok(after.attempts, 0);
    lemma_pending_zero(task.attempts);
    assert forall|i: int| 0 <= i < after.attempts.len() implies validate::attempt_valid(
        #[trigger] after.attempts[i],
        i,
    ) by {
        if i < last {
            assert(after.attempts[i] == task.attempts[i]);
        }
    }
    assert(only_pending(after.attempts, last)) by {
        assert forall|i: int| 0 <= i < after.attempts.len() && i != last implies (
        #[trigger] after.attempts[i]).outcome != AttemptOutcome::Pending by {
            assert(task.attempts[i].outcome != AttemptOutcome::Pending);
        }
    }
    lemma_only_pending_count(after.attempts, last);
    lemma_first_pending(after.attempts, last, 0);
}

proof fn lemma_settled_valid(
    task: TaskView,
    outcome: AttemptOutcome,
    now: u64,
    reason: Option<Seq<char>>,
)
    requires
        validate::task_valid(task),
        outcome != AttemptOutcome::Pending,
        validate::text_fits(reason),
        clock_ok(task, now),
    ensures
        validate::attempts_refusal(transitions::settled_all(task.attempts, outcome, now, reason), 0) is None,
        validate::pending_count(transitions::settled_all(task.attempts, outcome, now, reason)) == 0,
{
    let after = transitions::settled_all(task.attempts, outcome, now, reason);
    lemma_attempts_ok(task.attempts, 0);
    lemma_attempts_ok(after, 0);
    assert forall|i: int| 0 <= i < after.len() implies validate::attempt_valid(#[trigger] after[i], i) by {
        assert(validate::attempt_valid(task.attempts[i], i));
        assert(task.attempts[i].started_unix_ms <= now);
    }
    lemma_pending_zero(after);
}

/// An accepted update gives a valid row.
pub proof fn law_update_keeps_rows_valid(
    task: TaskView,
    params: TaskUpdateParams,
    generation: u64,
    now: u64,
)
    requires
        validate::task_valid(task),
        transitions::update_params_refusal(params) is None,
        transitions::update_refusal(task, params) is None,
        validate::text_fits(text::opt_text(params.reason)),
        clock_ok(task, now),
    ensures
        validate::task_valid(stamped(transitions::updated(task, params, now), generation, now)),
{
    let after = transitions::updated(task, params, now);
    assert(transitions::edited(task, params).attempts == task.attempts);
    match params.state {
        Some(target) => {
            if target != task.state {
                lemma_settled_valid(
                    task,
                    transitions::outcome_towards(target),
                    now,
                    text::opt_text(params.reason),
                );
            }
        },
        None => {},
    }
}

/// Reserving a waiting task gives a valid row that the reservation owns.
pub proof fn law_reservation_keeps_rows_valid(
    task: TaskView,
    reservation: ReservationView,
    generation: u64,
    now: u64,
)
    requires
        validate::task_valid(task),
        transitions::claim_refusal(task) is None,
        reservation.schema_version == TASK_DISPATCH_RESERVATION_SCHEMA_VERSION,
        digest::is_lower_sha256_spec(reservation.reservation_id),
        reservation.reserved_unix_ms == now,
        now < reservation.expires_at_unix_ms,
        clock_ok(task, now),
    ensures
        validate::task_valid(stamped(transitions::reserved(task, reservation, now), generation, now)),
{
    let session = validate::reservation_session(reservation.reservation_id);
    lemma_session_not_blank(reservation.reservation_id);
    law_claim_keeps_rows_valid(task, session, None, None, generation, now);
}

/// Binding a reservation gives a valid row without one: still in progress, the
/// live attempt bound to the spawned agent.
pub proof fn law_bind_keeps_rows_valid(
    task: TaskView,
    reservation_id: Seq<char>,
    session_id: Seq<char>,
    spawn_id: Seq<char>,
    template_version: Option<u32>,
    generation: u64,
    now: u64,
)
    requires
        validate::task_valid(task),
        transitions::bind_refusal(task, reservation_id, session_id, spawn_id) is None,
        clock_ok(task, now),
    ensures
        validate::task_valid(
            stamped(transitions::bound(task, session_id, spawn_id, template_version), generation, now),
        ),
        transitions::bound(task, session_id, spawn_id, template_version).state
            == TaskState::InProgress,
        transitions::bound(task, session_id, spawn_id, template_version).live() matches Some(attempt)
            && attempt.session_id == session_id && attempt.spawn_id == Some(spawn_id),
{
    law_reservation_means_in_progress(task);
    let index = lemma_pending_one(task.attempts);
    let after = transitions::bound(task, session_id, spawn_id, template_version);
    lemma_attempts_ok(task.attempts, 0);
    lemma_attempts_ok(after.attempts, 0);
    assert forall|i: int| 0 <= i < after.attempts.len() implies validate::attempt_valid(
        #[trigger] after.attempts[i],
        i,
    ) by {
        assert(validate::attempt_valid(task.attempts[i], i));
    }
    assert(only_pending(after.attempts, index)) by {
        assert forall|i: int| 0 <= i < after.attempts.len() && i != index implies (
        #[trigger] after.attempts[i]).outcome != AttemptOutcome::Pending by {
            assert(task.attempts[i].outcome != AttemptOutcome::Pending);
        }
    }
    lemma_only_pending_count(after.attempts, index);
    lemma_first_pending(after.attempts, index, 0);
}

/// A failed dispatch gives a valid row that waits again, with one attempt more
/// in its history than before the reservation.
pub proof fn law_failed_dispatch_requeues(
    task: TaskView,
    reservation: ReservationView,
    reason: Seq<char>,
    generation: u64,
    now: u64,
    failed_at: u64,
)
    requires
        validate::task_valid(task),
        transitions::claim_refusal(task) is None,
        validate::text_fits(Some(reason)),
        now != 0,
        now <= failed_at,
        clock_ok(task, failed_at),
    ensures
        transitions::failure_refusal(transitions::reserved(task, reservation, now), reservation.reservation_id) is None,
        ({
            let after = transitions::dispatch_failed(transitions::reserved(task, reservation, now), reason, failed_at);
            &&& validate::task_valid(stamped(after, generation, failed_at))
            &&& after.state == TaskState::Todo
            &&& after.dispatch_reservation is None
            &&& after.attempts.len() == task.attempts.len() + 1
            &&& after.attempts.drop_last() == task.attempts
            &&& after.attempts.last().outcome == AttemptOutcome::Failed
            &&& after.attempts.last().reason == Some(reason)
        }),
{
    let held = transitions::reserved(task, reservation, now);
    let last = task.attempts.len() as int;
    let after = transitions::dispatch_failed(held, reason, failed_at);
    lemma_pending_zero(task.attempts);
    assert(only_pending(held.attempts, last)) by {
        assert forall|i: int| 0 <= i < held.attempts.len() && i != last implies (
        #[trigger] held.attempts[i]).outcome != AttemptOutcome::Pending by {
            assert(task.attempts[i].outcome != AttemptOutcome::Pending);
        }
    }
    lemma_first_pending(held.attempts, last, 0);
    lemma_attempts_ok(task.attempts, 0);
    lemma_attempts_ok(after.attempts, 0);
    assert(after.attempts.drop_last() =~= task.attempts);
    assert forall|i: int| 0 <= i < after.attempts.len() implies validate::attempt_valid(
        #[trigger] after.attempts[i],
        i,
    ) by {
        if i < last {
            assert(after.attempts[i] == task.attempts[i]);
            assert(validate::attempt_valid(task.attempts[i], i));
        }
    }
    lemma_pending_zero(after.attempts);
    assert forall|i: int| 0 <= i < after.attempts.len() implies (
    #[trigger] after.attempts[i]).outcome != AttemptOutcome::Pending by {
        if i < last {
            assert(task.attempts[i].outcome != AttemptOutcome::Pending);
        }
    }
}

/// Reconciliation never puts a task back into the queue: whatever a vanished
/// or expired attempt left behind, the task is under review, without a live
/// attempt, and its row is valid.
pub proof fn law_reconciliation_never_requeues(
    task: TaskView,
    outcome: AttemptOutcome,
    attempt_reason: Seq<char>,
    review_reason: Option<Seq<char>>,
    generation: u64,
    now: u64,
)
    requires
        validate::task_valid(task),
        outcome != AttemptOutcome::Pending,
        validate::text_fits(Some(attempt_reason)),
        validate::text_fits(review_reason),
        clock_ok(task, now),
    ensures
        ({
            let after = transitions::reviewed(task, outcome, now, attempt_reason, review_reason);
            &&& after.state == TaskState::Review
            &&& after.live() is None
            &&& after.dispatch_reservation is None
            &&& validate::task_valid(stamped(after, generation, now))
        }),
{
    lemma_settled_valid(task, outcome, now, Some(attempt_reason));
    let after = transitions::reviewed(task, outcome, now, attempt_reason, review_reason);
    lemma_pending_zero(after.attempts);
    lemma_none_pending(after.attempts, 0);
}

/// Leaving `in_progress` by an update or a cancellation ends the live attempt:
/// none is left pending.
pub proof fn law_leaving_in_progress_settles(
    task: TaskView,
    target: TaskState,
    reason: Option<Seq<char>>,
    now: u64,
)
    ensures
        transitions::moved(task, target, reason, now).live() is None,
        transitions::moved(task, target, reason, now).attempts.len() == task.attempts.len(),
{
    let after = transitions::moved(task, target, reason, now);
    lemma_none_pending(after.attempts, 0);
}

/// Ordinary operations never touch a row that a dispatch has reserved.
pub proof fn law_reservation_blocks_ordinary_operations(task: TaskView, params: TaskUpdateParams)
    requires
        task.dispatch_reservation is Some,
    ensures
        transitions::claim_refusal(task) == Some(
            TaskError::ReservationActive { operation: BlockedOperation::Claim },
        ),
        transitions::update_refusal(task, params) == Some(
            TaskError::ReservationActive { operation: BlockedOperation::Update },
        ),
{
}

/// A task can be claimed once: after a claim a second one is refused.
pub proof fn law_second_claim_is_refused(
    task: TaskView,
    session_id: Seq<char>,
    spawn_id: Option<Seq<char>>,
    template_version: Option<u32>,
    now: u64,
)
    requires
        transitions::claim_refusal(task) is None,
    ensures
        transitions::claim_refusal(transitions::claimed(task, session_id, spawn_id, template_version, now)) == Some(
            TaskError::NotClaimable,
        ),
{
}

/// No transition changes what a task is: its id, template, enqueue sequence
/// and creation time stay.
pub proof fn law_identity_is_kept(
    task: TaskView,
    params: TaskUpdateParams,
    reservation: ReservationView,
    session_id: Seq<char>,
    spawn_id: Seq<char>,
    reason: Seq<char>,
    completion: Option<SpawnTerminalCompletion>,
    now: u64,
)
    ensures
        same_identity(task, transitions::claimed(task, session_id, Some(spawn_id), None, now)),
        same_identity(task, transitions::updated(task, params, now)),
        same_identity(task, transitions::reserved(task, reservation, now)),
        same_identity(task, transitions::bound(task, session_id, spawn_id, None)),
        same_identity(task, transitions::dispatch_failed(task, reason, now)),
        same_identity(task, transitions::reviewed(task, AttemptOutcome::Orphaned, now, reason, Some(reason))),
        same_identity(task, transitions::vanished(task, completion, now)),
{
}

/// Two rows of the same task.
pub open spec fn same_identity(left: TaskView, right: TaskView) -> bool {
    &&& left.task_id == right.task_id
    &&& left.template_id == right.template_id
    &&& left.template_params == right.template_params
    &&& left.enqueue_seq == right.enqueue_seq
    &&& left.created_unix_ms == right.created_unix_ms
    &&& left.schema_version == right.schema_version
}

proof fn lemma_one_more_in_flight(tasks: Seq<TaskView>, index: int, after: TaskView, end: int)
    requires
        0 <= index < tasks.len(),
        0 <= end <= tasks.len(),
        !tasks[index].in_flight(),
        after.in_flight(),
    ensures
        dispatch::in_flight_upto(tasks.update(index, after), end) == dispatch::in_flight_upto(
            tasks,
            end,
        ) + (if index < end {
            1int
        } else {
            0int
        }),
    decreases end,
{
    if end > 0 {
        lemma_one_more_in_flight(tasks, index, after, end - 1);
    }
}

/// A dispatch never passes the cap: the task that it reserves counts as in flight
/// from then on, and with it no more tasks are in flight than the cap allows.
pub proof fn law_dispatch_keeps_the_cap(
    tasks: Seq<TaskView>,
    index: int,
    reservation: ReservationView,
    now: u64,
    concurrency_cap: nat,
)
    requires
        dispatch::is_next(tasks, index),
        dispatch::in_flight_count(tasks) < concurrency_cap,
    ensures
        ({
            let after = tasks.update(index, transitions::reserved(tasks[index], reservation, now));
            &&& dispatch::in_flight_count(after) == dispatch::in_flight_count(tasks) + 1
            &&& dispatch::in_flight_count(after) <= concurrency_cap
        }),
{
    lemma_one_more_in_flight(
        tasks,
        index,
        transitions::reserved(tasks[index], reservation, now),
        tasks.len() as int,
    );
}

} // verus!
