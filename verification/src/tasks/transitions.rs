//! How a task row changes: claims, edits, dispatch reservations, and
//! reconciliation.
use crate::digest;
use crate::json;
use crate::json::{Json, get_string};
use crate::tasks::errors::{BlockedOperation, TaskError, TextField};
use crate::tasks::model;
use crate::tasks::model::{
    AgentTask, AttemptOutcome, AttemptView, MAX_TEXT_CHARS, MAX_TITLE_CHARS, ReservationView,
    TASK_DISPATCH_RESERVATION_GRACE_MS, TASK_DISPATCH_RESERVATION_MIN_LEASE_MS,
    TASK_DISPATCH_RESERVATION_SCHEMA_VERSION, TaskAttempt, TaskDispatchReservation, TaskState,
    TaskUpdateParams, TaskView,
};
use crate::tasks::validate;
use crate::tasks::validate::{reservation_session_id, validate_priority, validate_text};
use crate::text;
use vstd::prelude::*;
use vstd::string::*;

verus! {

/// The number of the next attempt of a task.
pub fn next_attempt_id(task: &AgentTask) -> (id: Result<u32, TaskError>)
    ensures
        id == (if task@.attempts.len() < u32::MAX {
            Ok::<u32, TaskError>((task@.attempts.len() + 1) as u32)
        } else {
            Err(TaskError::AttemptIdExhausted)
        }),
{
    if task.attempts.len() < u32::MAX as usize {
        Ok(task.attempts.len() as u32 + 1)
    } else {
        Err(TaskError::AttemptIdExhausted)
    }
}

/// A pending attempt that starts now.
pub open spec fn pending_attempt(
    attempt_id: u32,
    session_id: Seq<char>,
    spawn_id: Option<Seq<char>>,
    template_version: Option<u32>,
    now: u64,
) -> AttemptView {
    AttemptView {
        attempt_id,
        session_id,
        spawn_id,
        template_version,
        outcome: AttemptOutcome::Pending,
        started_unix_ms: now,
        ended_unix_ms: None,
        reason: None,
    }
}

/// One attempt, ended now if it was pending.
pub open spec fn settled(
    attempt: AttemptView,
    outcome: AttemptOutcome,
    now: u64,
    reason: Option<Seq<char>>,
) -> AttemptView {
    if attempt.outcome == AttemptOutcome::Pending {
        AttemptView { outcome, ended_unix_ms: Some(now), reason, ..attempt }
    } else {
        attempt
    }
}

/// The attempts, every pending one ended now.
pub open spec fn settled_all(
    attempts: Seq<AttemptView>,
    outcome: AttemptOutcome,
    now: u64,
    reason: Option<Seq<char>>,
) -> Seq<AttemptView> {
    Seq::new(attempts.len(), |i: int| settled(attempts[i], outcome, now, reason))
}

fn settle_attempts(
    attempts: &Vec<TaskAttempt>,
    outcome: AttemptOutcome,
    now: u64,
    reason: &Option<String>,
) -> (settled_attempts: Vec<TaskAttempt>)
    ensures
        model::attempt_views(settled_attempts@) == settled_all(
            model::attempt_views(attempts@),
            outcome,
            now,
            text::opt_text(*reason),
        ),
{
    let mut out: Vec<TaskAttempt> = Vec::new();
    let mut index: usize = 0;
    while index < attempts.len()
        invariant
            index <= attempts@.len(),
            out@.len() == index,
            forall|k: int|
                0 <= k < index ==> (#[trigger] out@[k])@ == settled(
                    attempts@[k]@,
                    outcome,
                    now,
                    text::opt_text(*reason),
                ),
        decreases attempts@.len() - index,
    {
        let mut attempt = attempts[index].clone();
        if attempt.outcome == AttemptOutcome::Pending {
            attempt.outcome = outcome;
            attempt.ended_unix_ms = Some(now);
            attempt.reason = reason.clone();
        }
        out.push(attempt);
        index = index + 1;
    }
    assert(model::attempt_views(out@) =~= settled_all(
        model::attempt_views(attempts@),
        outcome,
        now,
        text::opt_text(*reason),
    ));
    out
}

/// The task with one more pending attempt, in progress.
pub open spec fn claimed(
    task: TaskView,
    session_id: Seq<char>,
    spawn_id: Option<Seq<char>>,
    template_version: Option<u32>,
    now: u64,
) -> TaskView {
    TaskView {
        attempts: task.attempts.push(
            pending_attempt(
                (task.attempts.len() + 1) as u32,
                session_id,
                spawn_id,
                template_version,
                now,
            ),
        ),
        state: TaskState::InProgress,
        ..task
    }
}

/// Why a claim is refused, if it is.
pub open spec fn claim_refusal(task: TaskView) -> Option<TaskError> {
    if task.dispatch_reservation is Some {
        Some(TaskError::ReservationActive { operation: BlockedOperation::Claim })
    } else if task.state != TaskState::Todo {
        Some(TaskError::NotClaimable)
    } else if task.attempts.len() >= u32::MAX {
        Some(TaskError::AttemptIdExhausted)
    } else {
        None
    }
}

/// Moves a waiting task to `in_progress` with a pending attempt bound to
/// `session_id`. A task that does not wait, or that a dispatch has reserved,
/// cannot be claimed.
pub fn claim_internal(
    predecessor: &AgentTask,
    session_id: &str,
    spawn_id: Option<String>,
    template_version: Option<u32>,
    now: u64,
) -> (successor: Result<AgentTask, TaskError>)
    ensures
        match claim_refusal(predecessor@) {
            Some(error) => successor == Err::<AgentTask, TaskError>(error),
            None => successor matches Ok(task) && task@ == claimed(
                predecessor@,
                session_id@,
                text::opt_text(spawn_id),
                template_version,
                now,
            ),
        },
{
    if predecessor.dispatch_reservation.is_some() {
        return Err(TaskError::ReservationActive { operation: BlockedOperation::Claim });
    }
    if predecessor.state != TaskState::Todo {
        return Err(TaskError::NotClaimable);
    }
    let attempt_id: u32 = match next_attempt_id(predecessor) {
        Ok(id) => id,
        Err(error) => {
            return Err(error);
        },
    };
    let mut task = predecessor.clone();
    let attempt = TaskAttempt {
        attempt_id,
        session_id: session_id.to_owned(),
        spawn_id,
        template_version,
        outcome: AttemptOutcome::Pending,
        started_unix_ms: now,
        ended_unix_ms: None,
        reason: None,
    };
    task.attempts.push(attempt);
    task.state = TaskState::InProgress;
    assert(task@.attempts =~= claimed(
        predecessor@,
        session_id@,
        text::opt_text(spawn_id),
        template_version,
        now,
    ).attempts);
    Ok(task)
}

/// Why an update request is malformed, if it is.
pub open spec fn update_params_refusal(params: TaskUpdateParams) -> Option<TaskError> {
    if params.priority matches Some(priority) && !(1 <= priority <= 5) {
        Some(TaskError::PriorityOutOfRange { priority: params.priority->0 })
    } else if params.title matches Some(title) && text::is_blank_spec(title@) {
        Some(TaskError::TitleEmpty)
    } else if params.title matches Some(title) && title@.len() > MAX_TITLE_CHARS {
        Some(TaskError::TextTooLong { field: TextField::Title, max: MAX_TITLE_CHARS })
    } else if params.description matches Some(description) && description@.len()
        > MAX_TEXT_CHARS {
        Some(TaskError::TextTooLong { field: TextField::Description, max: MAX_TEXT_CHARS })
    } else if params.acceptance matches Some(acceptance) && acceptance@.len() > MAX_TEXT_CHARS {
        Some(TaskError::TextTooLong { field: TextField::Acceptance, max: MAX_TEXT_CHARS })
    } else {
        None
    }
}

/// Refuses an update request whose new values are out of range.
pub fn check_update_params(params: &TaskUpdateParams) -> (checked: Result<(), TaskError>)
    ensures
        checked == validate::verdict(update_params_refusal(*params)),
{
    if let Some(priority) = params.priority {
        if let Err(error) = validate_priority(priority) {
            return Err(error);
        }
    }
    if let Some(title) = &params.title {
        if text::is_blank(title.as_str()) {
            return Err(TaskError::TitleEmpty);
        }
        if let Err(error) = validate_text(TextField::Title, title.as_str(), MAX_TITLE_CHARS) {
            return Err(error);
        }
    }
    if let Some(description) = &params.description {
        if let Err(error) = validate_text(
            TextField::Description,
            description.as_str(),
            MAX_TEXT_CHARS,
        ) {
            return Err(error);
        }
    }
    if let Some(acceptance) = &params.acceptance {
        if let Err(error) = validate_text(
            TextField::Acceptance,
            acceptance.as_str(),
            MAX_TEXT_CHARS,
        ) {
            return Err(error);
        }
    }
    Ok(())
}

/// How the live attempt ends when a task leaves for `target`.
pub open spec fn outcome_towards(target: TaskState) -> AttemptOutcome {
    if target == TaskState::Review || target == TaskState::Done {
        AttemptOutcome::Succeeded
    } else {
        AttemptOutcome::Failed
    }
}

/// The task moved to `target`: its live attempt ends, and only a move to
/// review keeps the reason as the review reason.
pub open spec fn moved(
    task: TaskView,
    target: TaskState,
    reason: Option<Seq<char>>,
    now: u64,
) -> TaskView {
    TaskView {
        attempts: settled_all(task.attempts, outcome_towards(target), now, reason),
        review_reason: if target == TaskState::Review {
            reason
        } else {
            None
        },
        state: target,
        ..task
    }
}

/// The task with the edited fields.
pub open spec fn edited(task: TaskView, params: TaskUpdateParams) -> TaskView {
    TaskView {
        priority: match params.priority {
            Some(priority) => priority,
            None => task.priority,
        },
        title: match params.title {
            Some(title) => title@,
            None => task.title,
        },
        description: match params.description {
            Some(description) => Some(description@),
            None => task.description,
        },
        acceptance: match params.acceptance {
            Some(acceptance) => Some(acceptance@),
            None => task.acceptance,
        },
        ..task
    }
}

/// Why an update of a task is refused, if it is.
pub open spec fn update_refusal(task: TaskView, params: TaskUpdateParams) -> Option<TaskError> {
    if task.dispatch_reservation is Some {
        Some(TaskError::ReservationActive { operation: BlockedOperation::Update })
    } else {
        match params.state {
            Some(target) => if target == task.state {
                None
            } else if target == TaskState::InProgress {
                Some(TaskError::InProgressNeedsClaim)
            } else if !task.state.reaches(target) {
                Some(TaskError::TransitionForbidden)
            } else {
                None
            },
            None => None,
        }
    }
}

/// The task after an accepted update.
pub open spec fn updated(task: TaskView, params: TaskUpdateParams, now: u64) -> TaskView {
    match params.state {
        Some(target) => if target == task.state {
            edited(task, params)
        } else {
            moved(edited(task, params), target, text::opt_text(params.reason), now)
        },
        None => edited(task, params),
    }
}

/// Edits a task and moves it along the transition matrix. Entering
/// `in_progress` takes a claim or a dispatch; leaving it ends the live attempt.
pub fn update_task(predecessor: &AgentTask, params: &TaskUpdateParams, now: u64) -> (successor:
    Result<AgentTask, TaskError>)
    ensures
        match update_refusal(predecessor@, *params) {
            Some(error) => successor == Err::<AgentTask, TaskError>(error),
            None => successor matches Ok(task) && task@ == updated(predecessor@, *params, now),
        },
{
    if predecessor.dispatch_reservation.is_some() {
        return Err(TaskError::ReservationActive { operation: BlockedOperation::Update });
    }
    let mut task = predecessor.clone();
    if let Some(priority) = params.priority {
        task.priority = priority;
    }
    if let Some(title) = &params.title {
        task.title = title.clone();
    }
    if let Some(description) = &params.description {
        task.description = Some(description.clone());
    }
    if let Some(acceptance) = &params.acceptance {
        task.acceptance = Some(acceptance.clone());
    }
    assert(task@ == edited(predecessor@, *params));
    if let Some(target) = params.state {
        if target != task.state {
            if target == TaskState::InProgress {
                return Err(TaskError::InProgressNeedsClaim);
            }
            if !task.state.can_transition_to(target) {
                return Err(TaskError::TransitionForbidden);
            }
            let outcome = match target {
                TaskState::Review => AttemptOutcome::Succeeded,
                TaskState::Done => AttemptOutcome::Succeeded,
                _ => AttemptOutcome::Failed,
            };
            task.attempts = settle_attempts(&task.attempts, outcome, now, &params.reason);
            task.review_reason = if target == TaskState::Review {
                params.reason.clone()
            } else {
                None
            };
            task.state = target;
        }
    }
    Ok(task)
}

/// What a cancellation does with a task.
#[derive(Debug)]
pub enum CancelDecision {
    /// The task is cancelled already: nothing is written.
    Unchanged,
    /// The task moves to `cancelled`.
    Write(AgentTask),
}

/// Cancels a task: a cancelled task stays as it is, unwritten; any other moves
/// along the transition matrix.
pub fn cancel_task(predecessor: &AgentTask, reason: Option<String>, now: u64) -> (decision: Result<
    CancelDecision,
    TaskError,
>)
    ensures
        predecessor@.state == TaskState::Cancelled ==> decision == Ok::<CancelDecision, TaskError>(
            CancelDecision::Unchanged,
        ),
        predecessor@.state != TaskState::Cancelled && predecessor@.dispatch_reservation is Some
            ==> decision == Err::<CancelDecision, TaskError>(
            TaskError::ReservationActive { operation: BlockedOperation::Update },
        ),
        predecessor@.state == TaskState::Done && predecessor@.dispatch_reservation is None
            ==> decision == Err::<CancelDecision, TaskError>(TaskError::TransitionForbidden),
        !predecessor@.state.terminal() && predecessor@.dispatch_reservation is None ==> (decision
            matches Ok(CancelDecision::Write(task)) && task@ == moved(
            predecessor@,
            TaskState::Cancelled,
            text::opt_text(reason),
            now,
        )),
{
    if predecessor.state == TaskState::Cancelled {
        return Ok(CancelDecision::Unchanged);
    }
    let params = TaskUpdateParams {
        task_id: predecessor.task_id.clone(),
        state: Some(TaskState::Cancelled),
        reason,
        priority: None,
        title: None,
        description: None,
        acceptance: None,
    };
    match update_task(predecessor, &params, now) {
        Ok(task) => Ok(CancelDecision::Write(task)),
        Err(error) => Err(error),
    }
}

/// How long a reservation is held: the wait and a grace period, and never less
/// than the minimum lease.
pub open spec fn lease_spec(wait_timeout_ms: u64) -> int {
    if wait_timeout_ms + TASK_DISPATCH_RESERVATION_GRACE_MS
        < TASK_DISPATCH_RESERVATION_MIN_LEASE_MS {
        TASK_DISPATCH_RESERVATION_MIN_LEASE_MS as int
    } else {
        wait_timeout_ms + TASK_DISPATCH_RESERVATION_GRACE_MS
    }
}

/// How long a dispatch that waits `wait_timeout_ms` holds its reservation.
pub fn task_dispatch_reservation_lease_ms(wait_timeout_ms: u64) -> (lease: Result<u64, TaskError>)
    ensures
        match lease {
            Ok(ms) => ms == lease_spec(wait_timeout_ms),
            Err(error) => error == TaskError::ReservationLeaseExhausted && wait_timeout_ms
                + TASK_DISPATCH_RESERVATION_GRACE_MS > u64::MAX,
        },
{
    match wait_timeout_ms.checked_add(TASK_DISPATCH_RESERVATION_GRACE_MS) {
        Some(sum) => if sum < TASK_DISPATCH_RESERVATION_MIN_LEASE_MS {
            Ok(TASK_DISPATCH_RESERVATION_MIN_LEASE_MS)
        } else {
            Ok(sum)
        },
        None => Err(TaskError::ReservationLeaseExhausted),
    }
}

/// What a reservation id is the digest of.
#[derive(Debug)]
pub struct TaskDispatchReservationIdentity {
    pub schema_version: u32,
    pub task_id: String,
    pub enqueue_seq: u64,
    pub queue_generation: u64,
    pub reserved_unix_ms: u64,
    pub expires_at_unix_ms: u64,
}

/// The identity of a new reservation of `task`.
pub fn reservation_identity(
    task: &AgentTask,
    queue_generation: u64,
    reserved_unix_ms: u64,
    wait_timeout_ms: u64,
) -> (identity: Result<TaskDispatchReservationIdentity, TaskError>)
    ensures
        match identity {
            Ok(made) => {
                &&& made.schema_version == TASK_DISPATCH_RESERVATION_SCHEMA_VERSION
                &&& made.task_id@ == task@.task_id
                &&& made.enqueue_seq == task@.enqueue_seq
                &&& made.queue_generation == queue_generation
                &&& made.reserved_unix_ms == reserved_unix_ms
                &&& made.expires_at_unix_ms == reserved_unix_ms + lease_spec(wait_timeout_ms)
            },
            Err(error) => if wait_timeout_ms + TASK_DISPATCH_RESERVATION_GRACE_MS > u64::MAX {
                error == TaskError::ReservationLeaseExhausted
            } else {
                &&& error == TaskError::ReservationTimestampExhausted
                &&& reserved_unix_ms + lease_spec(wait_timeout_ms) > u64::MAX
            },
        },
{
    let lease: u64 = match task_dispatch_reservation_lease_ms(wait_timeout_ms) {
        Ok(ms) => ms,
        Err(error) => {
            return Err(error);
        },
    };
    match reserved_unix_ms.checked_add(lease) {
        Some(expires_at_unix_ms) => Ok(
            TaskDispatchReservationIdentity {
                schema_version: TASK_DISPATCH_RESERVATION_SCHEMA_VERSION,
                task_id: task.task_id.clone(),
                enqueue_seq: task.enqueue_seq,
                queue_generation,
                reserved_unix_ms,
                expires_at_unix_ms,
            },
        ),
        None => Err(TaskError::ReservationTimestampExhausted),
    }
}

/// The reservation whose id is the digest of the encoded identity.
pub fn build_task_dispatch_reservation(
    identity: &TaskDispatchReservationIdentity,
    encoded_identity: &[u8],
) -> (reservation: TaskDispatchReservation)
    ensures
        reservation@ == (ReservationView {
            schema_version: TASK_DISPATCH_RESERVATION_SCHEMA_VERSION,
            reservation_id: digest::sha256_text(encoded_identity@),
            reserved_unix_ms: identity.reserved_unix_ms,
            expires_at_unix_ms: identity.expires_at_unix_ms,
        }),
        digest::is_lower_sha256_spec(reservation@.reservation_id),
{
    TaskDispatchReservation {
        schema_version: TASK_DISPATCH_RESERVATION_SCHEMA_VERSION,
        reservation_id: digest::sha256_hex(encoded_identity),
        reserved_unix_ms: identity.reserved_unix_ms,
        expires_at_unix_ms: identity.expires_at_unix_ms,
    }
}

/// The task that a dispatch has reserved: in progress, with a pending attempt
/// that the reservation owns.
pub open spec fn reserved(task: TaskView, reservation: ReservationView, now: u64) -> TaskView {
    TaskView {
        dispatch_reservation: Some(reservation),
        ..claimed(task, validate::reservation_session(reservation.reservation_id), None, None, now)
    }
}

/// Reserves a selected task for a dispatch.
pub fn reserve_task(predecessor: &AgentTask, reservation: TaskDispatchReservation, now: u64) -> (
successor: Result<AgentTask, TaskError>)
    ensures
        if predecessor@.state != TaskState::Todo || predecessor@.dispatch_reservation is Some {
            successor == Err::<AgentTask, TaskError>(TaskError::SelectionInvalid)
        } else if predecessor@.attempts.len() >= u32::MAX {
            successor == Err::<AgentTask, TaskError>(TaskError::AttemptIdExhausted)
        } else {
            successor matches Ok(task) && task@ == reserved(predecessor@, reservation@, now)
        },
{
    if predecessor.state != TaskState::Todo || predecessor.dispatch_reservation.is_some() {
        return Err(TaskError::SelectionInvalid);
    }
    let session = reservation_session_id(reservation.reservation_id.as_str());
    match claim_internal(predecessor, session.as_str(), None, None, now) {
        Ok(claimed_task) => {
            let mut task = claimed_task;
            task.dispatch_reservation = Some(reservation);
            Ok(task)
        },
        Err(error) => Err(error),
    }
}

/// Whether a spawn id has the shape that every reader relies on.
pub open spec fn is_spawn_id_spec(value: Seq<char>) -> bool {
    &&& text::has_prefix(value, "agent-spawn-"@)
    &&& forall|i: int| 0 <= i < value.len() ==> is_spawn_char(#[trigger] value[i])
}

/// ASCII letters, digits and the hyphen.
pub open spec fn is_spawn_char(ch: char) -> bool {
    ('a' <= ch <= 'z') || ('A' <= ch <= 'Z') || ('0' <= ch <= '9') || ch == '-'
}

/// Whether `value` begins with `agent-spawn-` and holds only ASCII letters,
/// digits and hyphens.
pub fn is_spawn_id_shape(value: &str) -> (accepted: bool)
    ensures
        accepted == is_spawn_id_spec(value@),
{
    if !text::starts_with(value, "agent-spawn-") {
        return false;
    }
    let chars = text::chars_of(value);
    let mut index: usize = 0;
    while index < chars.len()
        invariant
            index <= chars@.len(),
            chars@ == value@,
            forall|i: int| 0 <= i < index ==> is_spawn_char(#[trigger] value@[i]),
        decreases chars@.len() - index,
    {
        let ch: char = chars[index];
        if !(('a' <= ch && ch <= 'z') || ('A' <= ch && ch <= 'Z') || ('0' <= ch && ch <= '9') || ch
            == '-') {
            assert(!is_spawn_char(value@[index as int]));
            return false;
        }
        index = index + 1;
    }
    true
}

/// Why a bind is refused, if it is.
pub open spec fn bind_refusal(
    task: TaskView,
    reservation_id: Seq<char>,
    session_id: Seq<char>,
    spawn_id: Seq<char>,
) -> Option<TaskError> {
    if text::is_blank_spec(session_id) || !is_spawn_id_spec(spawn_id) {
        Some(TaskError::BindIdentityInvalid)
    } else {
        match task.dispatch_reservation {
            None => Some(TaskError::BindReservationMissing),
            Some(reservation) => if reservation.reservation_id != reservation_id {
                Some(TaskError::BindReservationConflict)
            } else {
                match task.live() {
                    None => Some(TaskError::BindAttemptMissing),
                    Some(pending) => if pending.session_id != validate::reservation_session(reservation_id)
                        || pending.spawn_id is Some || pending.template_version is Some {
                        Some(TaskError::BindAttemptDrift)
                    } else {
                        None
                    },
                }
            },
        }
    }
}

/// The task whose reserved attempt is bound to the spawned agent.
pub open spec fn bound(
    task: TaskView,
    session_id: Seq<char>,
    spawn_id: Seq<char>,
    template_version: Option<u32>,
) -> TaskView {
    let index = model::first_pending(task.attempts, 0)->0;
    TaskView {
        attempts: task.attempts.update(
            index,
            AttemptView {
                session_id,
                spawn_id: Some(spawn_id),
                template_version,
                ..task.attempts[index]
            },
        ),
        dispatch_reservation: None,
        ..task
    }
}

/// Binds the reserved attempt to the agent that was spawned for it and gives
/// the reservation up.
pub fn bind_dispatch_reservation(
    predecessor: &AgentTask,
    reservation_id: &str,
    session_id: &str,
    spawn_id: String,
    template_version: Option<u32>,
) -> (successor: Result<AgentTask, TaskError>)
    ensures
        match bind_refusal(predecessor@, reservation_id@, session_id@, spawn_id@) {
            Some(error) => successor == Err::<AgentTask, TaskError>(error),
            None => successor matches Ok(task) && task@ == bound(
                predecessor@,
                session_id@,
                spawn_id@,
                template_version,
            ),
        },
{
    if text::is_blank(session_id) || !is_spawn_id_shape(spawn_id.as_str()) {
        return Err(TaskError::BindIdentityInvalid);
    }
    match &predecessor.dispatch_reservation {
        None => {
            return Err(TaskError::BindReservationMissing);
        },
        Some(reservation) => {
            if !text::str_equal(reservation.reservation_id.as_str(), reservation_id) {
                return Err(TaskError::BindReservationConflict);
            }
        },
    }
    let expected_session = reservation_session_id(reservation_id);
    match predecessor.live_index() {
        None => Err(TaskError::BindAttemptMissing),
        Some(index) => {
            let mut pending = predecessor.attempts[index].clone();
            if !text::str_equal(pending.session_id.as_str(), expected_session.as_str())
                || pending.spawn_id.is_some() || pending.template_version.is_some() {
                return Err(TaskError::BindAttemptDrift);
            }
            pending.session_id = session_id.to_owned();
            pending.spawn_id = Some(spawn_id);
            pending.template_version = template_version;
            let mut task = predecessor.clone();
            assert(task.attempts@.len() == predecessor.attempts@.len()) by {
                assert(model::attempt_views(task.attempts@).len() == model::attempt_views(
                    predecessor.attempts@,
                ).len());
            }
            let before: Ghost<Seq<TaskAttempt>> = Ghost(task.attempts@);
            task.attempts.set(index, pending);
            task.dispatch_reservation = None;
            assert(task@.attempts =~= bound(
                predecessor@,
                session_id@,
                spawn_id@,
                template_version,
            ).attempts) by {
                assert forall|k: int| 0 <= k < task.attempts@.len() && k != index implies (
                #[trigger] task.attempts@[k])@ == predecessor@.attempts[k] by {
                    assert(model::attempt_views(before@)[k] == predecessor@.attempts[k]);
                }
            }
            Ok(task)
        },
    }
}

/// Why the failure of a reservation cannot be recorded, if it cannot.
pub open spec fn failure_refusal(task: TaskView, reservation_id: Seq<char>) -> Option<TaskError> {
    match task.dispatch_reservation {
        None => Some(TaskError::FailureReservationMissing),
        Some(reservation) => if reservation.reservation_id != reservation_id {
            Some(TaskError::FailureReservationConflict)
        } else {
            match task.live() {
                None => Some(TaskError::FailureAttemptMissing),
                Some(pending) => if pending.session_id != validate::reservation_session(reservation_id) {
                    Some(TaskError::FailureAttemptDrift)
                } else {
                    None
                },
            }
        },
    }
}

/// The task whose dispatch failed: waiting again, its attempt recorded.
pub open spec fn dispatch_failed(task: TaskView, reason: Seq<char>, now: u64) -> TaskView {
    let index = model::first_pending(task.attempts, 0)->0;
    TaskView {
        attempts: task.attempts.update(
            index,
            settled(task.attempts[index], AttemptOutcome::Failed, now, Some(reason)),
        ),
        dispatch_reservation: None,
        state: TaskState::Todo,
        review_reason: None,
        ..task
    }
}

/// Records that the spawn for a reservation failed: the task waits again, with
/// the failed attempt in its history.
pub fn fail_dispatch_reservation(
    predecessor: &AgentTask,
    reservation_id: &str,
    reason: String,
    now: u64,
) -> (successor: Result<AgentTask, TaskError>)
    ensures
        match failure_refusal(predecessor@, reservation_id@) {
            Some(error) => successor == Err::<AgentTask, TaskError>(error),
            None => successor matches Ok(task) && task@ == dispatch_failed(
                predecessor@,
                reason@,
                now,
            ),
        },
{
    match &predecessor.dispatch_reservation {
        None => {
            return Err(TaskError::FailureReservationMissing);
        },
        Some(reservation) => {
            if !text::str_equal(reservation.reservation_id.as_str(), reservation_id) {
                return Err(TaskError::FailureReservationConflict);
            }
        },
    }
    let expected_session = reservation_session_id(reservation_id);
    match predecessor.live_index() {
        None => Err(TaskError::FailureAttemptMissing),
        Some(index) => {
            let mut pending = predecessor.attempts[index].clone();
            if !text::str_equal(pending.session_id.as_str(), expected_session.as_str()) {
                return Err(TaskError::FailureAttemptDrift);
            }
            pending.outcome = AttemptOutcome::Failed;
            pending.ended_unix_ms = Some(now);
            pending.reason = Some(reason);
            let mut task = predecessor.clone();
            assert(task.attempts@.len() == predecessor.attempts@.len()) by {
                assert(model::attempt_views(task.attempts@).len() == model::attempt_views(
                    predecessor.attempts@,
                ).len());
            }
            let before: Ghost<Seq<TaskAttempt>> = Ghost(task.attempts@);
            task.attempts.set(index, pending);
            task.dispatch_reservation = None;
            task.state = TaskState::Todo;
            task.review_reason = None;
            assert(task@.attempts =~= dispatch_failed(predecessor@, reason@, now).attempts) by {
                assert forall|k: int| 0 <= k < task.attempts@.len() && k != index implies (
                #[trigger] task.attempts@[k])@ == predecessor@.attempts[k] by {
                    assert(model::attempt_views(before@)[k] == predecessor@.attempts[k]);
                }
            }
            Ok(task)
        },
    }
}

/// What a finished agent left behind.
#[derive(Debug)]
pub struct SpawnTerminalCompletion {
    pub path: String,
    pub status: String,
    pub error_message: Option<String>,
}

impl SpawnTerminalCompletion {
    /// The explanation of a completion.
    pub open spec fn reason_text(self) -> Seq<char> {
        let stem = "spawned agent terminal artifact status="@ + self.status@ + " at "@
            + self.path@;
        match self.error_message {
            Some(message) => if message@.len() > 0 {
                stem + " ("@ + message@ + ")"@
            } else {
                stem
            },
            None => stem,
        }
    }

    /// Whether the agent finished with the status `ok`.
    pub fn is_success(&self) -> (success: bool)
        ensures
            success == (self.status@ == "ok"@),
    {
        text::str_equal(self.status.as_str(), "ok")
    }

    /// The explanation that the settled attempt keeps.
    pub fn reason(&self) -> (reason: String)
        ensures
            reason@ == self.reason_text(),
    {
        let mut reason = "spawned agent terminal artifact status=".to_owned();
        reason.append(self.status.as_str());
        reason.append(" at ");
        reason.append(self.path.as_str());
        if let Some(message) = &self.error_message {
            if !message.as_str().is_empty() {
                reason.append(" (");
                reason.append(message.as_str());
                reason.append(")");
            }
        }
        reason
    }
}

/// A completion with its strings taken as text.
pub struct CompletionView {
    pub path: Seq<char>,
    pub status: Seq<char>,
    pub error_message: Option<Seq<char>>,
}

/// What the completion artifact at a path reports: present once it holds a `status`
/// string other than `running`.
pub open spec fn completion_spec(path: Seq<char>, bytes: Seq<u8>) -> Option<CompletionView> {
    if !vstd::utf8::valid_utf8(bytes) {
        None
    } else {
        match json::json_reading(vstd::utf8::decode_utf8(bytes)) {
            Ok(Json::Object(entries)) => match json::entry_str(entries@, "status"@) {
                Some(status) => if status == "running"@ {
                    None
                } else {
                    Some(
                        CompletionView {
                            path,
                            status,
                            error_message: json::entry_str(entries@, "error_message"@),
                        },
                    )
                },
                None => None,
            },
            _ => None,
        }
    }
}

/// The spawn whose completion artifact tells how the live attempt of a task ended,
/// where the attempt names one of the right shape.
pub open spec fn completion_spawn(task: TaskView) -> Option<Seq<char>> {
    match task.live() {
        Some(attempt) => match attempt.spawn_id {
            Some(spawn_id) => if is_spawn_id_spec(spawn_id) {
                Some(spawn_id)
            } else {
                None
            },
            None => None,
        },
        None => None,
    }
}

/// The spawn whose completion artifact tells how the live attempt of a task ended.
pub fn find_completion_spawn(task: &AgentTask) -> (spawn_id: Option<String>)
    ensures
        text::opt_text(spawn_id) == completion_spawn(task@),
{
    match task.live_attempt() {
        Some(attempt) => match &attempt.spawn_id {
            Some(spawn_id) => if is_spawn_id_shape(spawn_id.as_str()) {
                Some(spawn_id.clone())
            } else {
                None
            },
            None => None,
        },
        None => None,
    }
}

/// What a completion says.
pub open spec fn completion_view(completion: Option<SpawnTerminalCompletion>) -> Option<
    CompletionView,
> {
    match completion {
        Some(found) => Some(
            CompletionView {
                path: found.path@,
                status: found.status@,
                error_message: text::opt_text(found.error_message),
            },
        ),
        None => None,
    }
}

/// Reads the bytes of a completion artifact: nothing where they are no JSON
/// object with a `status` string, or where the agent still runs.
pub fn read_spawn_terminal_completion(path: &str, bytes: &[u8]) -> (completion: Option<
    SpawnTerminalCompletion,
>)
    ensures
        completion_view(completion) == completion_spec(path@, bytes@),
{
    match text::utf8_text(bytes) {
        Err(_) => None,
        Ok(content) => {
            proof {
                vstd::utf8::encode_utf8_decode_utf8(content@);
            }
            match json::read_json(content) {
                Ok(Json::Object(entries)) => completion_of(path, &entries),
                _ => None,
            }
        },
    }
}

/// What the entries of a completion artifact say.
pub fn completion_of(path: &str, entries: &Vec<(String, Json)>) -> (completion: Option<
    SpawnTerminalCompletion,
>)
    ensures
        match completion {
            Some(found) => {
                &&& found.path@ == path@
                &&& json::entry_str(entries@, "status"@) == Some(found.status@)
                &&& found.status@ != "running"@
                &&& text::opt_text(found.error_message) == json::entry_str(
                    entries@,
                    "error_message"@,
                )
            },
            None => {
                ||| json::entry_str(entries@, "status"@) is None
                ||| json::entry_str(entries@, "status"@) == Some("running"@)
            },
        },
{
    match get_string(entries, "status") {
        None => None,
        Some(status) => {
            if text::str_equal(status.as_str(), "running") {
                return None;
            }
            Some(
                SpawnTerminalCompletion {
                    path: path.to_owned(),
                    status,
                    error_message: get_string(entries, "error_message"),
                },
            )
        },
    }
}

/// Why an expired reservation puts its task under review.
pub open spec fn expired_reason(reservation_id: Seq<char>, expires_at: u64) -> Seq<char> {
    "expired durable dispatch reservation "@ + reservation_id + " at "@ + text::decimal_text(
        expires_at as nat,
    )
        + " ms before a spawned session was bound; external spawn outcome is unknown and requires review"@
}

/// The explanation of an expired reservation.
pub fn expired_reservation_reason(reservation: &TaskDispatchReservation) -> (reason: String)
    ensures
        reason@ == expired_reason(reservation@.reservation_id, reservation@.expires_at_unix_ms),
{
    let mut reason = "expired durable dispatch reservation ".to_owned();
    reason.append(reservation.reservation_id.as_str());
    reason.append(" at ");
    reason.append(text::decimal(reservation.expires_at_unix_ms).as_str());
    reason.append(
        " ms before a spawned session was bound; external spawn outcome is unknown and requires review",
    );
    reason
}

/// Why a task whose session vanished is under review.
pub open spec fn orphaned_reason(now: u64) -> Seq<char> {
    "orphaned: in_progress attempt session no longer live and no terminal completion artifact was available (reconciled at "@
        + text::decimal_text(now as nat) + " ms)"@
}

/// The task under review, its live attempt ended with `outcome`.
pub open spec fn reviewed(
    task: TaskView,
    outcome: AttemptOutcome,
    now: u64,
    attempt_reason: Seq<char>,
    review_reason: Option<Seq<char>>,
) -> TaskView {
    TaskView {
        attempts: settled_all(task.attempts, outcome, now, Some(attempt_reason)),
        dispatch_reservation: None,
        state: TaskState::Review,
        review_reason,
        ..task
    }
}

/// Why an expired reservation cannot be reconciled any more, if it cannot.
pub open spec fn expiry_refusal(
    task: TaskView,
    reservation_id: Seq<char>,
    now: u64,
) -> Option<TaskError> {
    match task.dispatch_reservation {
        None => Some(TaskError::ReconcileReservationSuperseded),
        Some(current) => if current.reservation_id != reservation_id || current.expires_at_unix_ms
            > now {
            Some(TaskError::ReconcileReservationConflict)
        } else {
            None
        },
    }
}

/// Puts a task whose reservation expired under review, its attempt orphaned.
pub fn reconcile_expired_reservation(
    predecessor: &AgentTask,
    reservation_id: &str,
    reason: String,
    now: u64,
) -> (successor: Result<AgentTask, TaskError>)
    ensures
        match expiry_refusal(predecessor@, reservation_id@, now) {
            Some(error) => successor == Err::<AgentTask, TaskError>(error),
            None => successor matches Ok(task) && task@ == reviewed(
                predecessor@,
                AttemptOutcome::Orphaned,
                now,
                reason@,
                Some(reason@),
            ),
        },
{
    match &predecessor.dispatch_reservation {
        None => {
            return Err(TaskError::ReconcileReservationSuperseded);
        },
        Some(current) => {
            if !text::str_equal(current.reservation_id.as_str(), reservation_id)
                || current.expires_at_unix_ms > now {
                return Err(TaskError::ReconcileReservationConflict);
            }
        },
    }
    let mut task = predecessor.clone();
    let kept = Some(reason);
    task.attempts = settle_attempts(&task.attempts, AttemptOutcome::Orphaned, now, &kept);
    task.dispatch_reservation = None;
    task.state = TaskState::Review;
    task.review_reason = kept;
    Ok(task)
}

/// Whether a session is among the live ones.
pub open spec fn session_live(live: Seq<String>, session_id: Seq<char>) -> bool {
    exists|i: int| 0 <= i < live.len() && (#[trigger] live[i])@ == session_id
}

/// Whether a task's live attempt has lost its session.
pub open spec fn session_missing(task: TaskView, live: Seq<String>) -> bool {
    match task.live() {
        None => true,
        Some(attempt) => !session_live(live, attempt.session_id),
    }
}

fn is_session_live(live: &Vec<String>, session_id: &str) -> (found: bool)
    ensures
        found == session_live(live@, session_id@),
{
    let mut index: usize = 0;
    while index < live.len()
        invariant
            index <= live@.len(),
            forall|i: int| 0 <= i < index ==> (#[trigger] live@[i])@ != session_id@,
        decreases live@.len() - index,
    {
        if text::str_equal(live[index].as_str(), session_id) {
            return true;
        }
        index = index + 1;
    }
    false
}

/// Whether the live attempt of `task` has lost its session.
pub fn is_session_missing(task: &AgentTask, live: &Vec<String>) -> (missing: bool)
    ensures
        missing == session_missing(task@, live@),
{
    match task.live_attempt() {
        None => true,
        Some(attempt) => !is_session_live(live, attempt.session_id.as_str()),
    }
}

/// Why a vanished session cannot be reconciled any more, if it cannot.
pub open spec fn reconcile_refusal(task: TaskView, live: Seq<String>) -> Option<TaskError> {
    if task.state != TaskState::InProgress || task.dispatch_reservation is Some {
        Some(TaskError::ReconcileSuperseded)
    } else if !session_missing(task, live) {
        Some(TaskError::ReconcileSessionRecovered)
    } else {
        None
    }
}

/// How the attempt of a vanished session ended.
pub open spec fn vanished_outcome(completion: Option<SpawnTerminalCompletion>) -> AttemptOutcome {
    match completion {
        Some(found) => if found.status@ == "ok"@ {
            AttemptOutcome::Succeeded
        } else {
            AttemptOutcome::Failed
        },
        None => AttemptOutcome::Orphaned,
    }
}

/// What the attempt of a vanished session keeps as its reason.
pub open spec fn vanished_reason(
    completion: Option<SpawnTerminalCompletion>,
    now: u64,
) -> Seq<char> {
    match completion {
        Some(found) => found.reason_text(),
        None => orphaned_reason(now),
    }
}

/// The task whose session vanished, under review: settled from the completion
/// that the agent left, or orphaned where it left none.
pub open spec fn vanished(
    task: TaskView,
    completion: Option<SpawnTerminalCompletion>,
    now: u64,
) -> TaskView {
    let outcome = vanished_outcome(completion);
    let reason = vanished_reason(completion, now);
    reviewed(
        task,
        outcome,
        now,
        reason,
        if outcome == AttemptOutcome::Succeeded {
            None
        } else {
            Some(reason)
        },
    )
}

/// Puts a task whose session vanished under review. A completion artifact says
/// how the attempt ended; without one the attempt is orphaned.
pub fn reconcile_vanished_session(
    predecessor: &AgentTask,
    live: &Vec<String>,
    completion: &Option<SpawnTerminalCompletion>,
    now: u64,
) -> (successor: Result<AgentTask, TaskError>)
    ensures
        match reconcile_refusal(predecessor@, live@) {
            Some(error) => successor == Err::<AgentTask, TaskError>(error),
            None => successor matches Ok(task) && task@ == vanished(
                predecessor@,
                *completion,
                now,
            ),
        },
{
    if predecessor.state != TaskState::InProgress || predecessor.dispatch_reservation.is_some() {
        return Err(TaskError::ReconcileSuperseded);
    }
    if !is_session_missing(predecessor, live) {
        return Err(TaskError::ReconcileSessionRecovered);
    }
    let outcome = match completion {
        Some(found) => if found.is_success() {
            AttemptOutcome::Succeeded
        } else {
            AttemptOutcome::Failed
        },
        None => AttemptOutcome::Orphaned,
    };
    let reason = match completion {
        Some(found) => found.reason(),
        None => {
            let mut orphaned =
                "orphaned: in_progress attempt session no longer live and no terminal completion artifact was available (reconciled at ".to_owned();
            orphaned.append(text::decimal(now).as_str());
            orphaned.append(" ms)");
            orphaned
        },
    };
    let review_reason = if outcome == AttemptOutcome::Succeeded {
        None
    } else {
        Some(reason.clone())
    };
    let kept = Some(reason);
    let mut task = predecessor.clone();
    task.attempts = settle_attempts(&task.attempts, outcome, now, &kept);
    task.dispatch_reservation = None;
    task.state = TaskState::Review;
    task.review_reason = review_reason;
    Ok(task)
}

} // verus!
