//! What each operation does to a task, field by field, and which requests it takes.
use crate::json;
use crate::tasks::create;
use crate::tasks::errors::{BlockedOperation, TaskError, TextField};
use crate::tasks::model;
use crate::tasks::model::{
    AttemptOutcome, AttemptView, ReservationView, TaskCreateParams, TaskState, TaskUpdateParams,
    TaskView,
};
use crate::tasks::transitions;
use crate::tasks::transitions::SpawnTerminalCompletion;
use crate::tasks::validate;
use crate::text;
use vstd::prelude::*;
use vstd::string::*;

verus! {

/// Where an update moves a task to another state, each attempt that was live has ended
/// by the update: it succeeded on the way to `review` or `done`, and failed on the way
/// to `todo` or `cancelled`, at the time of the update and for its reason. The attempts
/// that had ended before stay as they were.
pub proof fn law_update_ends_the_live_attempt(
    task: TaskView,
    params: TaskUpdateParams,
    now: u64,
    at: int,
)
    requires
        params.state matches Some(target) && target != task.state,
        0 <= at < task.attempts.len(),
    ensures
        ({
            let before = task.attempts[at];
            let after = transitions::updated(task, params, now).attempts[at];
            let live = before.outcome == AttemptOutcome::Pending;
            &&& transitions::updated(task, params, now).attempts.len() == task.attempts.len()
            &&& live && params.state == Some(TaskState::Review) ==> after.outcome
                == AttemptOutcome::Succeeded
            &&& live && params.state == Some(TaskState::Done) ==> after.outcome
                == AttemptOutcome::Succeeded
            &&& live && params.state == Some(TaskState::Todo) ==> after.outcome
                == AttemptOutcome::Failed
            &&& live && params.state == Some(TaskState::Cancelled) ==> after.outcome
                == AttemptOutcome::Failed
            &&& live ==> after.ended_unix_ms == Some(now)
            &&& live && params.reason is None ==> after.reason is None
            &&& live && params.reason is Some ==> after.reason == Some(params.reason->0@)
            &&& live ==> after.attempt_id == before.attempt_id && after.session_id
                == before.session_id && after.spawn_id == before.spawn_id
                && after.template_version == before.template_version && after.started_unix_ms
                == before.started_unix_ms
            &&& !live ==> after == before
        }),
{
}

/// An update sets the fields that it names and leaves the others; where it moves the
/// task, the task is in the new state, with the reason of the update as the reason of
/// its review if the new state is `review` and none otherwise; where it does not, state,
/// attempts and review reason stay.
pub proof fn law_update_sets_what_it_names(task: TaskView, params: TaskUpdateParams, now: u64)
    ensures
        ({
            let after = transitions::updated(task, params, now);
            let moves = params.state is Some && params.state != Some(task.state);
            &&& params.priority is Some ==> Some(after.priority) == params.priority
            &&& params.priority is None ==> after.priority == task.priority
            &&& params.title is Some ==> after.title == params.title->0@
            &&& params.title is None ==> after.title == task.title
            &&& params.description is Some ==> after.description == Some(params.description->0@)
            &&& params.description is None ==> after.description == task.description
            &&& params.acceptance is Some ==> after.acceptance == Some(params.acceptance->0@)
            &&& params.acceptance is None ==> after.acceptance == task.acceptance
            &&& moves ==> Some(after.state) == params.state
            &&& moves && params.state == Some(TaskState::Review) && params.reason is Some
                ==> after.review_reason == Some(params.reason->0@)
            &&& moves && params.state == Some(TaskState::Review) && params.reason is None
                ==> after.review_reason is None
            &&& moves && params.state != Some(TaskState::Review) ==> after.review_reason is None
            &&& !moves ==> after.state == task.state && after.attempts == task.attempts
                && after.review_reason == task.review_reason
            &&& after.task_id == task.task_id
            &&& after.template_id == task.template_id
            &&& after.template_params == task.template_params
            &&& after.enqueue_seq == task.enqueue_seq
            &&& after.dispatch_reservation == task.dispatch_reservation
            &&& after.created_unix_ms == task.created_unix_ms
        }),
{
}

/// A task that no dispatch has reserved takes an update that names no state or its own;
/// from `todo` it can be cancelled, from `in_progress` it can go back to `todo`, on to
/// `review` or `done` or be cancelled, from `review` back to `todo`, on to `done` or be
/// cancelled, and from `done` and `cancelled` nowhere. Into `in_progress` no update leads.
pub proof fn law_updates_follow_the_states(task: TaskView, params: TaskUpdateParams)
    ensures
        task.dispatch_reservation is Some ==> transitions::update_refusal(task, params) == Some(
            TaskError::ReservationActive { operation: BlockedOperation::Update },
        ),
        task.dispatch_reservation is None ==> {
            &&& transitions::update_refusal(task, params) is None <==> match params.state {
                None => true,
                Some(TaskState::Todo) => task.state == TaskState::Todo || task.state
                    == TaskState::InProgress || task.state == TaskState::Review,
                Some(TaskState::InProgress) => task.state == TaskState::InProgress,
                Some(TaskState::Review) => task.state == TaskState::InProgress || task.state
                    == TaskState::Review,
                Some(TaskState::Done) => task.state == TaskState::InProgress || task.state
                    == TaskState::Review || task.state == TaskState::Done,
                Some(TaskState::Cancelled) => task.state != TaskState::Done,
            }
            &&& params.state == Some(TaskState::InProgress) && task.state != TaskState::InProgress
                ==> transitions::update_refusal(task, params) == Some(
                TaskError::InProgressNeedsClaim,
            )
            &&& params.state != Some(TaskState::InProgress) && transitions::update_refusal(
                task,
                params,
            ) is Some ==> transitions::update_refusal(task, params) == Some(
                TaskError::TransitionForbidden,
            )
        },
{
}

/// An update is well formed exactly where the priority it names is one of 1 to 5, the
/// title it names is not blank and has at most 500 characters, and the description and
/// the acceptance it names have at most 16384 each.
pub proof fn law_updates_are_within_limits(params: TaskUpdateParams)
    ensures
        transitions::update_params_refusal(params) is None <==> {
            &&& params.priority is Some ==> 1 <= params.priority->0 && params.priority->0 <= 5
            &&& params.title is Some ==> !text::is_blank_spec(params.title->0@)
                && params.title->0@.len() <= 500
            &&& params.description is Some ==> params.description->0@.len() <= 16_384
            &&& params.acceptance is Some ==> params.acceptance->0@.len() <= 16_384
        },
        params.priority is Some && (params.priority->0 < 1 || params.priority->0 > 5)
            ==> transitions::update_params_refusal(params) == Some(
            TaskError::PriorityOutOfRange { priority: params.priority->0 },
        ),
        transitions::update_params_refusal(params) matches Some(TaskError::PriorityOutOfRange { .. })
            ==> params.priority is Some && (params.priority->0 < 1 || params.priority->0 > 5),
        transitions::update_params_refusal(params) == Some(TaskError::TitleEmpty)
            ==> params.title is Some && text::is_blank_spec(params.title->0@),
        transitions::update_params_refusal(params) matches Some(TaskError::TextTooLong { field, max })
            ==> {
            ||| field == TextField::Title && max == 500 && params.title is Some
                && params.title->0@.len() > 500
            ||| field == TextField::Description && max == 16_384 && params.description is Some
                && params.description->0@.len() > 16_384
            ||| field == TextField::Acceptance && max == 16_384 && params.acceptance is Some
                && params.acceptance->0@.len() > 16_384
        },
{
}

/// A task can be claimed exactly where it waits, no dispatch has reserved it, and its
/// attempts can still be numbered.
pub proof fn law_claims_take_waiting_tasks(task: TaskView)
    ensures
        transitions::claim_refusal(task) is None <==> task.state == TaskState::Todo
            && task.dispatch_reservation is None && task.attempts.len() < 0xffff_ffff,
        task.dispatch_reservation is Some ==> transitions::claim_refusal(task) == Some(
            TaskError::ReservationActive { operation: BlockedOperation::Claim },
        ),
        task.dispatch_reservation is None && task.state != TaskState::Todo
            ==> transitions::claim_refusal(task) == Some(TaskError::NotClaimable),
        task.dispatch_reservation is None && task.state == TaskState::Todo && task.attempts.len()
            >= 0xffff_ffff ==> transitions::claim_refusal(task) == Some(
            TaskError::AttemptIdExhausted,
        ),
{
}

/// A claim adds one attempt behind all others, numbered by its place, live from now on
/// and bound to the claiming session, and puts the task in progress; the earlier attempts
/// and every other field stay.
pub proof fn law_claims_begin_one_attempt(
    task: TaskView,
    session_id: Seq<char>,
    spawn_id: Option<Seq<char>>,
    template_version: Option<u32>,
    now: u64,
)
    requires
        task.attempts.len() < 0xffff_ffff,
    ensures
        ({
            let after = transitions::claimed(task, session_id, spawn_id, template_version, now);
            let attempt = after.attempts.last();
            &&& after.state == TaskState::InProgress
            &&& after.attempts.len() == task.attempts.len() + 1
            &&& forall|i: int|
                0 <= i < task.attempts.len() ==> #[trigger] after.attempts[i] == task.attempts[i]
            &&& attempt.attempt_id == task.attempts.len() + 1
            &&& attempt.session_id == session_id
            &&& attempt.spawn_id == spawn_id
            &&& attempt.template_version == template_version
            &&& attempt.outcome == AttemptOutcome::Pending
            &&& attempt.started_unix_ms == now
            &&& attempt.ended_unix_ms is None
            &&& attempt.reason is None
            &&& after == (TaskView { attempts: after.attempts, state: after.state, ..task })
        }),
{
}

/// A reservation holds the task for a dispatch: the task is in progress under the
/// reservation, with one more attempt whose session is named after the reservation.
pub proof fn law_reservations_hold_the_task(task: TaskView, reservation: ReservationView, now: u64)
    requires
        task.attempts.len() < 0xffff_ffff,
    ensures
        ({
            let after = transitions::reserved(task, reservation, now);
            let attempt = after.attempts.last();
            &&& after.state == TaskState::InProgress
            &&& after.dispatch_reservation == Some(reservation)
            &&& after.attempts.len() == task.attempts.len() + 1
            &&& after.attempts.drop_last() == task.attempts
            &&& attempt.attempt_id == task.attempts.len() + 1
            &&& attempt.session_id == "task-dispatch-reservation-"@ + reservation.reservation_id
            &&& attempt.spawn_id is None
            &&& attempt.template_version is None
            &&& attempt.outcome == AttemptOutcome::Pending
            &&& attempt.started_unix_ms == now
            &&& attempt.ended_unix_ms is None
            &&& attempt.reason is None
            &&& after.review_reason == task.review_reason
        }),
{
    assert(transitions::reserved(task, reservation, now).attempts.drop_last() =~= task.attempts);
}

/// A reservation lasts as long as the spawn may take and five minutes more, and never
/// less than fifteen minutes.
pub proof fn law_leases_outlast_the_spawn(wait_timeout_ms: u64)
    ensures
        transitions::lease_spec(wait_timeout_ms) >= wait_timeout_ms + 5 * 60 * 1000,
        transitions::lease_spec(wait_timeout_ms) >= 15 * 60 * 1000,
        transitions::lease_spec(wait_timeout_ms) == wait_timeout_ms + 5 * 60 * 1000
            || transitions::lease_spec(wait_timeout_ms) == 15 * 60 * 1000,
{
}

proof fn lemma_live_at(attempts: Seq<AttemptView>, at: int, from: int)
    requires
        0 <= from <= at < attempts.len(),
        attempts[at].outcome == AttemptOutcome::Pending,
        forall|i: int| from <= i < at ==> (#[trigger] attempts[i]).outcome != AttemptOutcome::Pending,
    ensures
        model::first_pending(attempts, from) == Some(at),
    decreases at - from,
{
    if from < at {
        assert(attempts[from].outcome != AttemptOutcome::Pending);
        lemma_live_at(attempts, at, from + 1);
    }
}

proof fn lemma_none_live(attempts: Seq<AttemptView>, from: int)
    requires
        0 <= from <= attempts.len(),
        forall|i: int|
            from <= i < attempts.len() ==> (#[trigger] attempts[i]).outcome
                != AttemptOutcome::Pending,
    ensures
        model::first_pending(attempts, from) is None,
    decreases attempts.len() - from,
{
    if from < attempts.len() {
        assert(attempts[from].outcome != AttemptOutcome::Pending);
        lemma_none_live(attempts, from + 1);
    }
}

/// The live attempt is the first pending one; a task without a pending attempt has none.
pub proof fn law_live_attempt_is_the_first_pending(task: TaskView, at: int)
    ensures
        0 <= at < task.attempts.len() && task.attempts[at].outcome == AttemptOutcome::Pending && (
        forall|i: int|
            0 <= i < at ==> (#[trigger] task.attempts[i]).outcome != AttemptOutcome::Pending)
            ==> task.live() == Some(task.attempts[at]),
        (forall|i: int|
            0 <= i < task.attempts.len() ==> (#[trigger] task.attempts[i]).outcome
                != AttemptOutcome::Pending) ==> task.live() is None,
{
    if 0 <= at < task.attempts.len() && task.attempts[at].outcome == AttemptOutcome::Pending && (
    forall|i: int| 0 <= i < at ==> (#[trigger] task.attempts[i]).outcome != AttemptOutcome::Pending) {
        lemma_live_at(task.attempts, at, 0);
    }
    if forall|i: int|
        0 <= i < task.attempts.len() ==> (#[trigger] task.attempts[i]).outcome
            != AttemptOutcome::Pending {
        lemma_none_live(task.attempts, 0);
    }
}

/// Binding gives the live attempt its session, its agent and its template version, and
/// takes the reservation off; the task, its state and its other attempts stay.
pub proof fn law_binding_names_the_agent(
    task: TaskView,
    session_id: Seq<char>,
    spawn_id: Seq<char>,
    template_version: Option<u32>,
    at: int,
)
    requires
        0 <= at < task.attempts.len(),
        task.attempts[at].outcome == AttemptOutcome::Pending,
        forall|i: int|
            0 <= i < at ==> (#[trigger] task.attempts[i]).outcome != AttemptOutcome::Pending,
    ensures
        ({
            let after = transitions::bound(task, session_id, spawn_id, template_version);
            &&& after.attempts.len() == task.attempts.len()
            &&& after.attempts[at].session_id == session_id
            &&& after.attempts[at].spawn_id == Some(spawn_id)
            &&& after.attempts[at].template_version == template_version
            &&& after.attempts[at].outcome == AttemptOutcome::Pending
            &&& after.attempts[at].attempt_id == task.attempts[at].attempt_id
            &&& after.attempts[at].started_unix_ms == task.attempts[at].started_unix_ms
            &&& after.attempts[at].ended_unix_ms == task.attempts[at].ended_unix_ms
            &&& after.attempts[at].reason == task.attempts[at].reason
            &&& forall|i: int|
                0 <= i < task.attempts.len() && i != at ==> #[trigger] after.attempts[i]
                    == task.attempts[i]
            &&& after.dispatch_reservation is None
            &&& after.state == task.state
            &&& after.review_reason == task.review_reason
            &&& after.title == task.title
            &&& after.priority == task.priority
        }),
{
    lemma_live_at(task.attempts, at, 0);
}

/// A reservation is bound by its own id, to a session that is not blank and an agent
/// whose id has the shape of one, while its attempt is untouched; every other request is
/// refused.
pub proof fn law_bindings_take_their_own_reservation(
    task: TaskView,
    reservation_id: Seq<char>,
    session_id: Seq<char>,
    spawn_id: Seq<char>,
    at: int,
)
    requires
        0 <= at < task.attempts.len(),
        task.attempts[at].outcome == AttemptOutcome::Pending,
        forall|i: int|
            0 <= i < at ==> (#[trigger] task.attempts[i]).outcome != AttemptOutcome::Pending,
    ensures
        ({
            let refusal = transitions::bind_refusal(task, reservation_id, session_id, spawn_id);
            let named = !text::is_blank_spec(session_id) && transitions::is_spawn_id_spec(spawn_id);
            let held = task.dispatch_reservation;
            let attempt = task.attempts[at];
            &&& !named ==> refusal == Some(TaskError::BindIdentityInvalid)
            &&& named && held is None ==> refusal == Some(TaskError::BindReservationMissing)
            &&& named && held is Some && held->0.reservation_id != reservation_id ==> refusal
                == Some(TaskError::BindReservationConflict)
            &&& refusal is None <==> named && held is Some && held->0.reservation_id
                == reservation_id && attempt.session_id == "task-dispatch-reservation-"@
                + reservation_id && attempt.spawn_id is None && attempt.template_version is None
            &&& named && held is Some && held->0.reservation_id == reservation_id
                && refusal is Some ==> refusal == Some(TaskError::BindAttemptDrift)
        }),
{
    lemma_live_at(task.attempts, at, 0);
}

/// An agent's id begins with `agent-spawn-` and holds ASCII letters, digits and hyphens
/// only.
pub proof fn law_agent_ids_have_their_shape(value: Seq<char>)
    ensures
        transitions::is_spawn_id_spec(value) <==> (exists|rest: Seq<char>|
            value == #[trigger] ("agent-spawn-"@ + rest)) && (forall|i: int|
            0 <= i < value.len() ==> {
                let code = (#[trigger] value[i]) as int;
                ||| 0x61 <= code <= 0x7a
                ||| 0x41 <= code <= 0x5a
                ||| 0x30 <= code <= 0x39
                ||| code == 0x2d
            }),
{
    text::law_prefixes_are_fronts(value, "agent-spawn-"@);
    if transitions::is_spawn_id_spec(value) {
        assert forall|i: int| 0 <= i < value.len() implies {
            let code = (#[trigger] value[i]) as int;
            ||| 0x61 <= code <= 0x7a
            ||| 0x41 <= code <= 0x5a
            ||| 0x30 <= code <= 0x39
            ||| code == 0x2d
        } by {
            assert(transitions::is_spawn_char(value[i]));
        }
    } else if text::has_prefix(value, "agent-spawn-"@) {
        let i = choose|i: int| 0 <= i < value.len() && !transitions::is_spawn_char(#[trigger] value[i]);
        assert(!transitions::is_spawn_char(value[i]));
        let code = value[i] as int;
        assert(!(0x61 <= code <= 0x7a || 0x41 <= code <= 0x5a || 0x30 <= code <= 0x39 || code == 0x2d));
    }
}

/// A failed dispatch ends the live attempt as failed, for the reason given, takes the
/// reservation off and puts the task back into the queue; the other attempts stay.
pub proof fn law_failed_dispatches_end_the_attempt(
    task: TaskView,
    reason: Seq<char>,
    now: u64,
    at: int,
)
    requires
        0 <= at < task.attempts.len(),
        task.attempts[at].outcome == AttemptOutcome::Pending,
        forall|i: int|
            0 <= i < at ==> (#[trigger] task.attempts[i]).outcome != AttemptOutcome::Pending,
    ensures
        ({
            let after = transitions::dispatch_failed(task, reason, now);
            &&& after.state == TaskState::Todo
            &&& after.dispatch_reservation is None
            &&& after.review_reason is None
            &&& after.attempts.len() == task.attempts.len()
            &&& after.attempts[at].outcome == AttemptOutcome::Failed
            &&& after.attempts[at].ended_unix_ms == Some(now)
            &&& after.attempts[at].reason == Some(reason)
            &&& after.attempts[at].session_id == task.attempts[at].session_id
            &&& after.attempts[at].attempt_id == task.attempts[at].attempt_id
            &&& after.attempts[at].started_unix_ms == task.attempts[at].started_unix_ms
            &&& forall|i: int|
                0 <= i < task.attempts.len() && i != at ==> #[trigger] after.attempts[i]
                    == task.attempts[i]
        }),
{
    lemma_live_at(task.attempts, at, 0);
}

/// A dispatch fails under its own reservation only, while the attempt is the
/// reservation's.
pub proof fn law_failures_take_their_own_reservation(
    task: TaskView,
    reservation_id: Seq<char>,
    at: int,
)
    requires
        0 <= at < task.attempts.len(),
        task.attempts[at].outcome == AttemptOutcome::Pending,
        forall|i: int|
            0 <= i < at ==> (#[trigger] task.attempts[i]).outcome != AttemptOutcome::Pending,
    ensures
        ({
            let refusal = transitions::failure_refusal(task, reservation_id);
            let held = task.dispatch_reservation;
            &&& held is None ==> refusal == Some(TaskError::FailureReservationMissing)
            &&& held is Some && held->0.reservation_id != reservation_id ==> refusal == Some(
                TaskError::FailureReservationConflict,
            )
            &&& held is Some && held->0.reservation_id == reservation_id
                && task.attempts[at].session_id != "task-dispatch-reservation-"@ + reservation_id
                ==> refusal == Some(TaskError::FailureAttemptDrift)
            &&& held is Some && held->0.reservation_id == reservation_id
                && task.attempts[at].session_id == "task-dispatch-reservation-"@ + reservation_id
                ==> refusal is None
        }),
{
    lemma_live_at(task.attempts, at, 0);
}

/// A reservation is settled as expired under its own id, from the moment of its expiry
/// on.
pub proof fn law_reservations_expire_in_time(task: TaskView, reservation_id: Seq<char>, now: u64)
    ensures
        transitions::expiry_refusal(task, reservation_id, now) is None
            <==> task.dispatch_reservation is Some && task.dispatch_reservation->0.reservation_id
            == reservation_id && task.dispatch_reservation->0.expires_at_unix_ms <= now,
        task.dispatch_reservation is None ==> transitions::expiry_refusal(task, reservation_id, now)
            == Some(TaskError::ReconcileReservationSuperseded),
        task.dispatch_reservation is Some && transitions::expiry_refusal(task, reservation_id, now)
            is Some ==> transitions::expiry_refusal(task, reservation_id, now) == Some(
            TaskError::ReconcileReservationConflict,
        ),
{
}

/// A task in progress that no dispatch holds is reconciled exactly where the session of
/// its live attempt is not among the live ones, or where it has no live attempt.
pub proof fn law_vanished_sessions_are_reconciled(task: TaskView, live: Seq<String>)
    ensures
        transitions::reconcile_refusal(task, live) is None <==> task.state == TaskState::InProgress
            && task.dispatch_reservation is None && (task.live() is Some ==> forall|i: int|
            0 <= i < live.len() ==> (#[trigger] live[i])@ != task.live()->0.session_id),
        task.state != TaskState::InProgress || task.dispatch_reservation is Some
            ==> transitions::reconcile_refusal(task, live) == Some(TaskError::ReconcileSuperseded),
        task.state == TaskState::InProgress && task.dispatch_reservation is None
            && transitions::reconcile_refusal(task, live) is Some ==> transitions::reconcile_refusal(
            task,
            live,
        ) == Some(TaskError::ReconcileSessionRecovered),
{
    if task.live() is Some {
        let session_id = task.live()->0.session_id;
        if forall|i: int| 0 <= i < live.len() ==> (#[trigger] live[i])@ != session_id {
            assert(!transitions::session_live(live, session_id));
        } else {
            let i = choose|i: int| 0 <= i < live.len() && (#[trigger] live[i])@ == session_id;
            assert(live[i]@ == session_id);
            assert(transitions::session_live(live, session_id));
        }
    }
}

/// Whose session is gone is under review. With a completion of status `ok` its attempt
/// succeeded and the review has no reason; with any other completion it failed; without
/// one it is orphaned; and then the review has the reason of the attempt. The attempts
/// that had ended before stay.
pub proof fn law_vanished_attempts_are_judged_by_their_completion(
    task: TaskView,
    completion: Option<SpawnTerminalCompletion>,
    now: u64,
    at: int,
)
    requires
        0 <= at < task.attempts.len(),
    ensures
        ({
            let before = task.attempts[at];
            let after = transitions::vanished(task, completion, now);
            let live = before.outcome == AttemptOutcome::Pending;
            &&& after.state == TaskState::Review
            &&& after.dispatch_reservation is None
            &&& after.attempts.len() == task.attempts.len()
            &&& !live ==> after.attempts[at] == before
            &&& live ==> after.attempts[at].ended_unix_ms == Some(now) && after.attempts[at].reason
                is Some && after.attempts[at].session_id == before.session_id
                && after.attempts[at].attempt_id == before.attempt_id
                && after.attempts[at].started_unix_ms == before.started_unix_ms
            &&& completion is None ==> {
                &&& live ==> after.attempts[at].outcome == AttemptOutcome::Orphaned
                &&& live ==> after.review_reason == after.attempts[at].reason
                &&& after.review_reason == Some(
                    "orphaned: in_progress attempt session no longer live and no terminal completion artifact was available (reconciled at "@
                        + text::decimal_text(now as nat) + " ms)"@,
                )
            }
            &&& completion is Some && completion->0.status@ == "ok"@ ==> {
                &&& live ==> after.attempts[at].outcome == AttemptOutcome::Succeeded
                &&& after.review_reason is None
            }
            &&& completion is Some && completion->0.status@ != "ok"@ ==> {
                &&& live ==> after.attempts[at].outcome == AttemptOutcome::Failed
                &&& live ==> after.review_reason == after.attempts[at].reason
                &&& after.review_reason is Some
            }
            &&& completion is Some && live && completion->0.error_message is None
                ==> after.attempts[at].reason == Some(
                "spawned agent terminal artifact status="@ + completion->0.status@ + " at "@
                    + completion->0.path@,
            )
            &&& completion is Some && live && completion->0.error_message is Some
                && completion->0.error_message->0@.len() > 0 ==> after.attempts[at].reason == Some(
                "spawned agent terminal artifact status="@ + completion->0.status@ + " at "@
                    + completion->0.path@ + " ("@ + completion->0.error_message->0@ + ")"@,
            )
        }),
{
}

/// Review settles every live attempt with the outcome and the reason given and takes any
/// reservation off.
pub proof fn law_reviews_settle_live_attempts(
    task: TaskView,
    outcome: AttemptOutcome,
    now: u64,
    attempt_reason: Seq<char>,
    review_reason: Option<Seq<char>>,
    at: int,
)
    requires
        0 <= at < task.attempts.len(),
    ensures
        ({
            let before = task.attempts[at];
            let after = transitions::reviewed(task, outcome, now, attempt_reason, review_reason);
            &&& after.state == TaskState::Review
            &&& after.dispatch_reservation is None
            &&& after.review_reason == review_reason
            &&& after.attempts.len() == task.attempts.len()
            &&& before.outcome != AttemptOutcome::Pending ==> after.attempts[at] == before
            &&& before.outcome == AttemptOutcome::Pending ==> after.attempts[at].outcome == outcome
                && after.attempts[at].ended_unix_ms == Some(now) && after.attempts[at].reason
                == Some(attempt_reason)
        }),
{
}

/// The reason for an expired reservation names the reservation and the time of its
/// expiry.
pub proof fn law_expiry_reasons_name_the_reservation(reservation_id: Seq<char>, expires_at: u64)
    ensures
        transitions::expired_reason(reservation_id, expires_at)
            == "expired durable dispatch reservation "@ + reservation_id + " at "@
            + text::decimal_text(expires_at as nat)
            + " ms before a spawned session was bound; external spawn outcome is unknown and requires review"@,
{
}

/// An artifact is a completion exactly where its bytes are a JSON object with a string
/// `status` other than `running`; it keeps the path, the status and the string
/// `error_message`.
pub proof fn law_completions_have_ended(path: Seq<char>, bytes: Seq<u8>)
    ensures
        transitions::completion_spec(path, bytes) is Some <==> (json::json_of_bytes(bytes) is Some
            && json::str_member(json::json_of_bytes(bytes)->0, "status"@) is Some
            && json::str_member(json::json_of_bytes(bytes)->0, "status"@) != Some("running"@)),
        transitions::completion_spec(path, bytes) matches Some(found) ==> {
            &&& found.path == path
            &&& json::str_member(json::json_of_bytes(bytes)->0, "status"@) == Some(found.status)
            &&& json::str_member(json::json_of_bytes(bytes)->0, "error_message"@)
                == found.error_message
        },
{
}

/// A completion is looked for under the agent of the live attempt, where its id has the
/// shape of one.
pub proof fn law_completions_are_looked_for_under_the_agent(task: TaskView)
    ensures
        transitions::completion_spawn(task) is Some <==> task.live() is Some
            && task.live()->0.spawn_id is Some && transitions::is_spawn_id_spec(
            task.live()->0.spawn_id->0,
        ),
        transitions::completion_spawn(task) is Some ==> transitions::completion_spawn(task)
            == task.live()->0.spawn_id,
{
}

/// A created task holds what its creation names, each under its own field; it waits,
/// without attempts, and was created and updated now.
pub proof fn law_created_tasks_hold_their_request(
    params: TaskCreateParams,
    enqueue_seq: u64,
    generation: u64,
    now: u64,
)
    ensures
        ({
            let task = create::created(params, enqueue_seq, generation, now);
            &&& task.schema_version == 1
            &&& task.task_id == params.task_id@
            &&& task.state == TaskState::Todo
            &&& task.title == params.title@
            &&& params.description is Some ==> task.description == Some(params.description->0@)
            &&& params.description is None ==> task.description is None
            &&& params.acceptance is Some ==> task.acceptance == Some(params.acceptance->0@)
            &&& params.acceptance is None ==> task.acceptance is None
            &&& task.priority == params.priority
            &&& task.template_id == params.template_id@
            &&& task.template_params.len() == params.template_params@.len()
            &&& forall|i: int|
                0 <= i < params.template_params@.len() ==> {
                    &&& (#[trigger] task.template_params[i]).0 == params.template_params@[i].0@
                    &&& task.template_params[i].1 == params.template_params@[i].1@
                }
            &&& task.enqueue_seq == enqueue_seq
            &&& task.mutation_generation == generation
            &&& task.attempts.len() == 0
            &&& task.dispatch_reservation is None
            &&& task.review_reason is None
            &&& task.created_unix_ms == now
            &&& task.updated_unix_ms == now
        }),
{
}

proof fn lemma_params_taken(params: Seq<(Seq<char>, Seq<char>)>, from: int)
    requires
        0 <= from <= params.len(),
    ensures
        validate::params_refusal(params, from) is None <==> forall|i: int|
            from <= i < params.len() ==> vstd::utf8::encode_utf8((#[trigger] params[i]).1).len()
                <= 16_384 && !params[i].1.contains('\0'),
    decreases params.len() - from,
{
    if from < params.len() {
        lemma_params_taken(params, from + 1);
        if validate::params_refusal(params, from) is None {
            assert forall|i: int| from <= i < params.len() implies vstd::utf8::encode_utf8(
                (#[trigger] params[i]).1,
            ).len() <= 16_384 && !params[i].1.contains('\0') by {}
        }
        if forall|i: int|
            from <= i < params.len() ==> vstd::utf8::encode_utf8((#[trigger] params[i]).1).len()
                <= 16_384 && !params[i].1.contains('\0') {
            assert(params[from].1.contains('\0') || !params[from].1.contains('\0'));
        }
    }
}

proof fn lemma_params_refused_at(params: Seq<(Seq<char>, Seq<char>)>, from: int, at: int)
    requires
        0 <= from <= at < params.len(),
        at <= usize::MAX,
        vstd::utf8::encode_utf8(params[at].1).len() > 16_384 || params[at].1.contains('\0'),
        forall|i: int|
            from <= i < at ==> vstd::utf8::encode_utf8((#[trigger] params[i]).1).len() <= 16_384
                && !params[i].1.contains('\0'),
    ensures
        validate::params_refusal(params, from) == Some(
            if vstd::utf8::encode_utf8(params[at].1).len() > 16_384 {
                TaskError::ParamValueTooLong { index: at as usize }
            } else {
                TaskError::ParamValueHasNul { index: at as usize }
            },
        ),
    decreases at - from,
{
    if from < at {
        assert(!params[from].1.contains('\0'));
        lemma_params_refused_at(params, from + 1, at);
    }
}

/// Of template parameters the first is refused whose value is longer than 16384 bytes
/// of UTF-8 or holds a NUL character.
pub proof fn law_first_bad_parameter_is_refused(params: Seq<(Seq<char>, Seq<char>)>, at: int)
    requires
        0 <= at < params.len(),
        at <= usize::MAX,
        forall|i: int|
            0 <= i < at ==> vstd::utf8::encode_utf8((#[trigger] params[i]).1).len() <= 16_384
                && !params[i].1.contains('\0'),
    ensures
        vstd::utf8::encode_utf8(params[at].1).len() > 16_384 ==> validate::params_refusal(params, 0)
            == Some(TaskError::ParamValueTooLong { index: at as usize }),
        vstd::utf8::encode_utf8(params[at].1).len() <= 16_384 && params[at].1.contains('\0')
            ==> validate::params_refusal(params, 0) == Some(
            TaskError::ParamValueHasNul { index: at as usize },
        ),
{
    if vstd::utf8::encode_utf8(params[at].1).len() > 16_384 || params[at].1.contains('\0') {
        lemma_params_refused_at(params, 0, at);
    }
}

/// An id is not empty and holds lowercase ASCII letters, digits, dots, underscores and
/// hyphens only; a task's id has at most 200 of them.
pub proof fn law_ids_have_their_shape(value: Seq<char>)
    ensures
        validate::is_kebab_spec(value) <==> value.len() > 0 && (forall|i: int|
            0 <= i < value.len() ==> {
                let code = (#[trigger] value[i]) as int;
                ||| 0x61 <= code <= 0x7a
                ||| 0x30 <= code <= 0x39
                ||| code == 0x2e
                ||| code == 0x5f
                ||| code == 0x2d
            }),
        validate::is_task_id(value) <==> validate::is_kebab_spec(value) && value.len() <= 200,
{
    if validate::is_kebab_spec(value) {
        assert forall|i: int| 0 <= i < value.len() implies {
            let code = (#[trigger] value[i]) as int;
            ||| 0x61 <= code <= 0x7a
            ||| 0x30 <= code <= 0x39
            ||| code == 0x2e
            ||| code == 0x5f
            ||| code == 0x2d
        } by {
            assert(validate::is_id_char(value[i]));
        }
    } else if value.len() > 0 {
        let i = choose|i: int| 0 <= i < value.len() && !validate::is_id_char(#[trigger] value[i]);
        assert(!validate::is_id_char(value[i]));
        let code = value[i] as int;
        assert(!(0x61 <= code <= 0x7a || 0x30 <= code <= 0x39 || code == 0x2e || code == 0x5f || code
            == 0x2d));
    }
}

/// A creation is taken exactly where its id is a task's, its title is not blank and has
/// at most 500 characters, its description and acceptance have at most 16384 each, its
/// priority is one of 1 to 5, its template's id is an id, and every template parameter
/// has at most 16384 bytes and no NUL. Each refusal names what is wrong.
pub proof fn law_creations_are_within_limits(params: TaskCreateParams)
    ensures
        create::create_refusal(params) is None <==> {
            &&& validate::is_task_id(params.task_id@)
            &&& !text::is_blank_spec(params.title@)
            &&& params.title@.len() <= 500
            &&& params.description is Some ==> params.description->0@.len() <= 16_384
            &&& params.acceptance is Some ==> params.acceptance->0@.len() <= 16_384
            &&& 1 <= params.priority <= 5
            &&& validate::is_kebab_spec(params.template_id@)
            &&& forall|i: int|
                0 <= i < params.template_params@.len() ==> vstd::utf8::encode_utf8(
                    (#[trigger] params.template_params@[i]).1@,
                ).len() <= 16_384 && !params.template_params@[i].1@.contains('\0')
        },
        create::create_refusal(params) == Some(TaskError::TaskIdInvalid) <==> !validate::is_task_id(
            params.task_id@,
        ),
        create::create_refusal(params) == Some(TaskError::TitleEmpty) ==> text::is_blank_spec(
            params.title@,
        ),
        create::create_refusal(params) matches Some(TaskError::PriorityOutOfRange { priority })
            ==> priority == params.priority && !(1 <= params.priority <= 5),
        create::create_refusal(params) == Some(TaskError::TemplateIdInvalid)
            ==> !validate::is_kebab_spec(params.template_id@),
        create::create_refusal(params) matches Some(TaskError::TextTooLong { field, max }) ==> {
            ||| field == TextField::Title && max == 500 && params.title@.len() > 500
            ||| field == TextField::Description && max == 16_384 && params.description is Some
                && params.description->0@.len() > 16_384
            ||| field == TextField::Acceptance && max == 16_384 && params.acceptance is Some
                && params.acceptance->0@.len() > 16_384
        },
{
    let views = model::pair_views(params.template_params@);
    lemma_params_taken(views, 0);
    assert(forall|i: int| 0 <= i < views.len() ==> views[i].1 == params.template_params@[i].1@);
    if validate::params_refusal(views, 0) is Some {
        lemma_params_refusals(views, 0);
        let i = choose|i: int|
            0 <= i < views.len() && !(vstd::utf8::encode_utf8((#[trigger] views[i]).1).len()
                <= 16_384 && !views[i].1.contains('\0'));
        assert(params.template_params@[i].1@ == views[i].1);
    } else {
        assert forall|i: int| 0 <= i < params.template_params@.len() implies vstd::utf8::encode_utf8(
            (#[trigger] params.template_params@[i]).1@,
        ).len() <= 16_384 && !params.template_params@[i].1@.contains('\0') by {
            assert(views[i].1 == params.template_params@[i].1@);
        }
    }
}

proof fn lemma_params_refusals(params: Seq<(Seq<char>, Seq<char>)>, from: int)
    ensures
        validate::params_refusal(params, from) matches Some(error) ==> error is ParamValueTooLong
            || error is ParamValueHasNul,
    decreases params.len() - from,
{
    if 0 <= from < params.len() {
        lemma_params_refusals(params, from + 1);
    }
}

} // verus!
