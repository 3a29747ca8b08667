//! Which rows are valid, how the queue is read back, and what repairs and pruning make of it.
use crate::digest;
use crate::tasks::errors::{TaskError, TextField};
use crate::tasks::model::{
    AgentTask, AgentTaskRow, AttemptOutcome, AttemptView, RevisionedTaskQueueState,
    RevisionedTaskSequence, TaskAttempt, TaskDispatchReservation, TaskQueueState,
    TaskQueueStateRepairParams, TaskRowRepairParams, TaskSequenceRepairParams, TaskState, TaskView,
};
use crate::tasks::prune;
use crate::tasks::repair;
use crate::tasks::run;
use crate::tasks::run::{DispatchEvent, DispatchOrigin};
use crate::tasks::service;
use crate::tasks::store;
use crate::tasks::store::{StoredQueueState, StoredSequence, StoredTask, StoredTaskRow};
use crate::tasks::transitions;
use crate::tasks::validate;
use crate::text;
use vstd::prelude::*;
use vstd::string::*;

verus! {

/// The views of a task, an attempt and a reservation show every field under its own name.
pub proof fn law_task_views_show_their_fields(
    task: AgentTask,
    attempt: TaskAttempt,
    reservation: TaskDispatchReservation,
)
    ensures
        task@.schema_version == task.schema_version,
        task@.task_id == task.task_id@,
        task@.state == task.state,
        task@.title == task.title@,
        task.description is None ==> task@.description is None,
        task.description is Some ==> task@.description == Some(task.description->0@),
        task.acceptance is None ==> task@.acceptance is None,
        task.acceptance is Some ==> task@.acceptance == Some(task.acceptance->0@),
        task@.priority == task.priority,
        task@.template_id == task.template_id@,
        task@.template_params.len() == task.template_params@.len(),
        forall|i: int|
            0 <= i < task.template_params@.len() ==> #[trigger] task@.template_params[i] == (
                task.template_params@[i].0@,
                task.template_params@[i].1@,
            ),
        task@.enqueue_seq == task.enqueue_seq,
        task@.mutation_generation == task.mutation_generation,
        task@.attempts.len() == task.attempts@.len(),
        forall|i: int|
            0 <= i < task.attempts@.len() ==> #[trigger] task@.attempts[i] == task.attempts@[i]@,
        task.dispatch_reservation is None ==> task@.dispatch_reservation is None,
        task.dispatch_reservation is Some ==> task@.dispatch_reservation == Some(
            task.dispatch_reservation->0@,
        ),
        task.review_reason is None ==> task@.review_reason is None,
        task.review_reason is Some ==> task@.review_reason == Some(task.review_reason->0@),
        task@.created_unix_ms == task.created_unix_ms,
        task@.updated_unix_ms == task.updated_unix_ms,
        attempt@.attempt_id == attempt.attempt_id,
        attempt@.session_id == attempt.session_id@,
        attempt.spawn_id is None ==> attempt@.spawn_id is None,
        attempt.spawn_id is Some ==> attempt@.spawn_id == Some(attempt.spawn_id->0@),
        attempt@.template_version == attempt.template_version,
        attempt@.outcome == attempt.outcome,
        attempt@.started_unix_ms == attempt.started_unix_ms,
        attempt@.ended_unix_ms == attempt.ended_unix_ms,
        attempt.reason is None ==> attempt@.reason is None,
        attempt.reason is Some ==> attempt@.reason == Some(attempt.reason->0@),
        reservation@.schema_version == reservation.schema_version,
        reservation@.reservation_id == reservation.reservation_id@,
        reservation@.reserved_unix_ms == reservation.reserved_unix_ms,
        reservation@.expires_at_unix_ms == reservation.expires_at_unix_ms,
{
}

proof fn lemma_pending_is_filter(attempts: Seq<AttemptView>)
    ensures
        validate::pending_count(attempts) == attempts.filter(
            |attempt: AttemptView| attempt.outcome == AttemptOutcome::Pending,
        ).len(),
    decreases attempts.len(),
{
    reveal(Seq::filter);
    if attempts.len() > 0 {
        lemma_pending_is_filter(attempts.drop_last());
    }
}

proof fn lemma_attempts_taken(attempts: Seq<AttemptView>, from: int)
    requires
        0 <= from <= attempts.len(),
    ensures
        validate::attempts_refusal(attempts, from) is None <==> (from == attempts.len() || (
        attempts.len() <= u32::MAX && forall|i: int|
            from <= i < attempts.len() ==> validate::attempt_valid(#[trigger] attempts[i], i))),
    decreases attempts.len() - from,
{
    if from < attempts.len() {
        lemma_attempts_taken(attempts, from + 1);
        if validate::attempts_refusal(attempts, from) is None {
            assert(validate::attempt_valid(attempts[from], from));
        }
        if attempts.len() <= u32::MAX && (forall|i: int|
            from <= i < attempts.len() ==> validate::attempt_valid(#[trigger] attempts[i], i)) {
            assert(validate::attempt_valid(attempts[from], from));
        }
    }
}

/// A text that may be missing has at most 16384 characters.
pub open spec fn is_short(value: Option<Seq<char>>) -> bool {
    value is Some ==> value->0.len() <= 16_384
}

/// An attempt at its place is valid where it bears the number of its place and has begun; a
/// live one has a session, no end and no reason, an ended one ended no earlier than it began;
/// and its reason is short.
pub proof fn law_attempts_are_valid_at_their_place(attempt: AttemptView, at: int)
    ensures
        validate::attempt_valid(attempt, at) <==> {
            &&& attempt.attempt_id == at + 1
            &&& attempt.started_unix_ms > 0
            &&& is_short(attempt.reason)
            &&& attempt.outcome == AttemptOutcome::Pending ==> !text::is_blank_spec(
                attempt.session_id,
            ) && attempt.ended_unix_ms is None && attempt.reason is None
            &&& attempt.outcome != AttemptOutcome::Pending ==> attempt.ended_unix_ms is Some
                && attempt.ended_unix_ms->0 >= attempt.started_unix_ms
        },
{
}

/// A row is valid exactly where its fields are within their limits, its attempts are valid in
/// their places, one attempt is live where the task is in progress and none otherwise, and a
/// reservation, if there is one, is the live attempt's own.
pub proof fn law_valid_rows(task: TaskView)
    requires
        task.attempts.len() <= u32::MAX,
    ensures
        ({
            let fields = {
                &&& validate::is_task_id(task.task_id)
                &&& !text::is_blank_spec(task.title)
                &&& task.title.len() <= 500
                &&& is_short(task.description)
                &&& is_short(task.acceptance)
                &&& is_short(task.review_reason)
                &&& validate::is_kebab_spec(task.template_id)
                &&& 1 <= task.priority <= 5
                &&& 0 < task.created_unix_ms <= task.updated_unix_ms
                &&& forall|i: int|
                    0 <= i < task.template_params.len() ==> vstd::utf8::encode_utf8(
                        (#[trigger] task.template_params[i]).1,
                    ).len() <= 16_384 && !task.template_params[i].1.contains('\0')
            };
            let attempts = forall|i: int|
                0 <= i < task.attempts.len() ==> validate::attempt_valid(
                    #[trigger] task.attempts[i],
                    i,
                );
            let live = task.attempts.filter(
                |attempt: AttemptView| attempt.outcome == AttemptOutcome::Pending,
            ).len();
            let expected: nat = if task.state == TaskState::InProgress {
                1
            } else {
                0
            };
            let held = task.dispatch_reservation;
            &&& validate::row_refusal(task) is None <==> fields && attempts && live == expected && (
            held is Some ==> task.live() is Some && held->0.schema_version == 1
                && digest::is_lower_sha256_spec(held->0.reservation_id)
                && held->0.reserved_unix_ms > 0 && held->0.reserved_unix_ms
                < held->0.expires_at_unix_ms && task.live()->0.session_id
                == "task-dispatch-reservation-"@ + held->0.reservation_id
                && task.live()->0.started_unix_ms == held->0.reserved_unix_ms
                && task.live()->0.spawn_id is None && task.live()->0.template_version is None)
            &&& !fields ==> validate::row_refusal(task) == Some(TaskError::RowFieldsInvalid)
            &&& fields && attempts && live != expected ==> validate::row_refusal(task) == Some(
                TaskError::PendingAttemptInvariant { pending: live as usize },
            )
        }),
{
    lemma_pending_is_filter(task.attempts);
    lemma_attempts_taken(task.attempts, 0);
    let values = forall|i: int|
        0 <= i < task.template_params.len() ==> vstd::utf8::encode_utf8(
            (#[trigger] task.template_params[i]).1,
        ).len() <= 16_384 && !task.template_params[i].1.contains('\0');
    if validate::param_values_ok(task.template_params) {
        assert forall|i: int| 0 <= i < task.template_params.len() implies vstd::utf8::encode_utf8(
            (#[trigger] task.template_params[i]).1,
        ).len() <= 16_384 && !task.template_params[i].1.contains('\0') by {
            assert(validate::param_value_ok(task.template_params[i].1));
        }
    }
    if values {
        assert forall|i: int| 0 <= i < task.template_params.len() implies validate::param_value_ok(
            (#[trigger] task.template_params[i]).1,
        ) by {}
    }
    if task.attempts.len() == 0 {
        assert(forall|i: int|
            0 <= i < task.attempts.len() ==> validate::attempt_valid(#[trigger] task.attempts[i], i));
    }
}

/// A row stands under the key of its task, has the known version and a place in the queue, and
/// is valid; a key of another form, another task and a row without a place are refused.
pub proof fn law_rows_stand_under_their_key(row_key: Seq<char>, task: TaskView)
    requires
        task.task_id.len() > 0,
        !task.task_id.contains('/'),
    ensures
        validate::task_key_spec(task.task_id) == "agent-task/v1/task/"@ + task.task_id,
        validate::decode_refusal(row_key, task) is None <==> row_key == "agent-task/v1/task/"@
            + task.task_id && task.schema_version == 1 && task.enqueue_seq > 0
            && validate::row_refusal(task) is None,
        !text::has_prefix(row_key, "agent-task/v1/task/"@) ==> validate::decode_refusal(
            row_key,
            task,
        ) == Some(TaskError::RowKeyInvalid),
        row_key == "agent-task/v1/task/"@ + task.task_id && (task.schema_version != 1
            || task.enqueue_seq == 0) ==> validate::decode_refusal(row_key, task) == Some(
            TaskError::RowIdentityInvalid,
        ),
{
    let prefix = "agent-task/v1/task/"@;
    if text::has_prefix(row_key, prefix) {
        let id = row_key.subrange(prefix.len() as int, row_key.len() as int);
        assert(row_key =~= prefix + id);
    }
    let own = prefix + task.task_id;
    assert(own.subrange(0, prefix.len() as int) =~= prefix);
    assert(own.subrange(prefix.len() as int, own.len() as int) =~= task.task_id);
}

/// The next coordination row has the next generation and the time of the change; the greatest
/// generation has no next.
pub proof fn law_next_generation_is_one_more(queue: TaskQueueState, now: u64)
    ensures
        queue.mutation_generation < 0xffff_ffff_ffff_ffff ==> {
            &&& store::next_queue(queue, now) is Ok
            &&& store::next_queue(queue, now)->Ok_0.mutation_generation == queue.mutation_generation
                + 1
            &&& store::next_queue(queue, now)->Ok_0.updated_unix_ms == now
            &&& store::next_queue(queue, now)->Ok_0.schema_version == 1
        },
        queue.mutation_generation == 0xffff_ffff_ffff_ffff ==> store::next_queue(queue, now) is Err,
{
}

/// The coordination row is read where it is live and has the known version; an absent one is
/// none, an expired or undecodable one, or one of another version, is refused.
pub proof fn law_queue_rows_are_read(state: TaskQueueState, revision_sha256: [u8; 32])
    ensures
        store::queue_reading(StoredQueueState::Absent) == Ok::<
            Option<RevisionedTaskQueueState>,
            TaskError,
        >(None),
        store::queue_reading(StoredQueueState::Expired { revision_sha256 }) == Err::<
            Option<RevisionedTaskQueueState>,
            TaskError,
        >(TaskError::QueueStateExpired),
        store::queue_reading(StoredQueueState::Undecodable { revision_sha256 }) == Err::<
            Option<RevisionedTaskQueueState>,
            TaskError,
        >(TaskError::QueueStateUndecodable),
        state.schema_version != 1 ==> store::queue_reading(
            StoredQueueState::Decoded { state, revision_sha256 },
        ) == Err::<Option<RevisionedTaskQueueState>, TaskError>(
            TaskError::QueueStateVersionInvalid,
        ),
        state.schema_version == 1 ==> store::queue_reading(
            StoredQueueState::Decoded { state, revision_sha256 },
        ) == Ok::<Option<RevisionedTaskQueueState>, TaskError>(
            Some(RevisionedTaskQueueState { state, revision_sha256 }),
        ),
{
}

/// A stored row is the task that it holds where that is valid under its key; an expired one is
/// none, and one that cannot be decoded or is not valid is refused.
pub proof fn law_stored_rows_are_read(row: StoredTaskRow)
    ensures
        row.value is Expired ==> store::row_reading(row) == Ok::<Option<TaskView>, TaskError>(None),
        row.value is Undecodable ==> store::row_reading(row) == Err::<Option<TaskView>, TaskError>(
            TaskError::RowUndecodable,
        ),
        row.value matches StoredTask::Decoded(task) ==> {
            &&& validate::row_valid(row.key@, task@) ==> store::row_reading(row) == Ok::<
                Option<TaskView>,
                TaskError,
            >(Some(task@))
            &&& !validate::row_valid(row.key@, task@) ==> store::row_reading(row) == Err::<
                Option<TaskView>,
                TaskError,
            >(validate::decode_refusal(row.key@, task@)->0)
        },
{
}

proof fn lemma_scan_push(
    rows: Seq<StoredTaskRow>,
    row: StoredTaskRow,
    from: int,
    found: Seq<TaskView>,
)
    requires
        0 <= from <= rows.len(),
    ensures
        store::scan_from(rows.push(row), from, found) == match store::scan_from(rows, from, found) {
            Err(error) => Err::<Seq<TaskView>, TaskError>(error),
            Ok(tasks) => match store::row_reading(row) {
                Err(error) => Err(error),
                Ok(None) => Ok(tasks),
                Ok(Some(task)) => Ok(tasks.push(task)),
            },
        },
    decreases rows.len() - from,
{
    reveal_with_fuel(store::scan_from, 2);
    if from < rows.len() {
        assert(rows.push(row)[from] == rows[from]);
        match store::row_reading(rows[from]) {
            Err(_) => {},
            Ok(None) => lemma_scan_push(rows, row, from + 1, found),
            Ok(Some(task)) => lemma_scan_push(rows, row, from + 1, found.push(task)),
        }
    }
}

/// A scan reads every live row in its order; the first row that cannot be read refuses it.
pub proof fn law_scans_read_every_row(rows: Seq<StoredTaskRow>, row: StoredTaskRow)
    ensures
        store::scan_spec(Seq::<StoredTaskRow>::empty()) == Ok::<Seq<TaskView>, TaskError>(
            Seq::<TaskView>::empty(),
        ),
        store::scan_spec(rows) is Err ==> store::scan_spec(rows.push(row)) == store::scan_spec(rows),
        store::scan_spec(rows) matches Ok(tasks) ==> match store::row_reading(row) {
            Err(error) => store::scan_spec(rows.push(row)) == Err::<Seq<TaskView>, TaskError>(error),
            Ok(None) => store::scan_spec(rows.push(row)) == Ok::<Seq<TaskView>, TaskError>(tasks),
            Ok(Some(task)) => store::scan_spec(rows.push(row)) == Ok::<Seq<TaskView>, TaskError>(
                tasks.push(task),
            ),
        },
{
    lemma_scan_push(rows, row, 0, Seq::<TaskView>::empty());
}

/// Two keys in the bytes' own order: by the first byte in which they differ, the shorter first
/// where one begins the other.
pub proof fn law_keys_are_ordered_by_their_bytes(left: Seq<u8>, right: Seq<u8>, at: int)
    requires
        0 <= at <= left.len(),
        at < right.len(),
        forall|i: int| 0 <= i < at ==> left[i] == right[i],
        at < left.len() ==> left[at] < right[at],
    ensures
        prune::bytes_less(left, right),
        !prune::bytes_less(right, left),
    decreases at,
{
    if at > 0 {
        assert(left[0] == right[0]);
        let lower = left.subrange(1, left.len() as int);
        let upper = right.subrange(1, right.len() as int);
        assert forall|i: int| 0 <= i < at - 1 implies lower[i] == upper[i] by {
            assert(left[i + 1] == right[i + 1]);
        }
        law_keys_are_ordered_by_their_bytes(lower, upper, at - 1);
    }
}

/// A finished task outlives its retention seven days after its last change.
pub proof fn law_finished_tasks_are_kept_seven_days(updated_unix_ms: u64, now: u64)
    requires
        updated_unix_ms + 7 * 24 * 60 * 60 * 1000 <= 0xffff_ffff_ffff_ffff,
    ensures
        prune::outlived(updated_unix_ms, now) <==> now >= updated_unix_ms + 7 * 24 * 60 * 60 * 1000,
{
}

/// A row is pruned exactly where its task is done or cancelled and either has outlived its
/// retention or is older than the five thousand finished tasks that are kept.
pub proof fn law_pruned_rows_are_finished_and_old(rows: Seq<AgentTaskRow>, now: u64, at: int)
    requires
        0 <= at < rows.len(),
    ensures
        prune::pruned(rows, now, at) <==> (rows[at].task@.state == TaskState::Done
            || rows[at].task@.state == TaskState::Cancelled) && (prune::outlived(
            rows[at].task@.updated_unix_ms,
            now,
        ) || prune::age_rank(rows, at) + 5_000 < prune::finished_count(rows)),
{
}

proof fn lemma_finished_upto(rows: Seq<AgentTaskRow>, end: int)
    requires
        0 <= end <= rows.len(),
    ensures
        prune::finished_upto(rows, end) == rows.subrange(0, end).filter(
            |row: AgentTaskRow|
                row.task@.state == TaskState::Done || row.task@.state == TaskState::Cancelled,
        ).len(),
    decreases end,
{
    reveal(Seq::filter);
    if end > 0 {
        lemma_finished_upto(rows, end - 1);
        assert(rows.subrange(0, end).drop_last() =~= rows.subrange(0, end - 1));
    }
}

/// The finished tasks are those that are done or cancelled.
pub proof fn law_finished_tasks_are_counted(rows: Seq<AgentTaskRow>)
    ensures
        prune::finished_count(rows) == rows.filter(
            |row: AgentTaskRow|
                row.task@.state == TaskState::Done || row.task@.state == TaskState::Cancelled,
        ).len(),
{
    lemma_finished_upto(rows, rows.len() as int);
    assert(rows.subrange(0, rows.len() as int) =~= rows);
}

/// Of two rows the one changed earlier is older; of two changed at once the one with the lower
/// key.
pub proof fn law_older_rows_changed_earlier(rows: Seq<AgentTaskRow>, a: int, b: int)
    ensures
        rows[a].task@.updated_unix_ms < rows[b].task@.updated_unix_ms ==> prune::older(rows, a, b)
            && !prune::older(rows, b, a),
        rows[a].task@.updated_unix_ms == rows[b].task@.updated_unix_ms && rows[a].key@
            != rows[b].key@ ==> prune::older(rows, a, b) == prune::bytes_less(
            rows[a].key@,
            rows[b].key@,
        ),
{
}

/// One row more is a row older than another exactly where its task is finished and it is older.
pub proof fn law_age_ranks_count_older_rows(rows: Seq<AgentTaskRow>, at: int, end: int)
    requires
        0 < end <= rows.len(),
    ensures
        prune::older_upto(rows, at, 0) == 0,
        prune::age_rank(rows, at) == prune::older_upto(rows, at, rows.len() as int),
        rows[end - 1].task@.state.terminal() && prune::older(rows, end - 1, at) ==> prune::older_upto(
            rows,
            at,
            end,
        ) == prune::older_upto(rows, at, end - 1) + 1,
        !rows[end - 1].task@.state.terminal() || !prune::older(rows, end - 1, at)
            ==> prune::older_upto(rows, at, end) == prune::older_upto(rows, at, end - 1),
{
}

/// The reason of a repair is not blank and has at most 16384 characters.
pub proof fn law_repairs_have_a_reason(reason: Seq<char>)
    ensures
        repair::reason_refusal(reason) is None <==> !text::is_blank_spec(reason) && reason.len()
            <= 16_384,
        text::is_blank_spec(reason) ==> repair::reason_refusal(reason) == Some(
            TaskError::RepairReasonEmpty,
        ),
        !text::is_blank_spec(reason) && reason.len() > 16_384 ==> repair::reason_refusal(reason)
            == Some(TaskError::TextTooLong { field: TextField::RepairReason, max: 16_384 }),
{
}

/// A repaired sequence is no less than the floor that was asked for, than what was stored and
/// than that of any readable task, and is one of these.
pub proof fn law_repaired_sequences_cover_what_is_known(
    params: TaskSequenceRepairParams,
    stored: StoredSequence,
    rows: Seq<StoredTaskRow>,
    at: int,
)
    ensures
        ({
            let repaired = repair::repaired_sequence(params, stored, rows);
            let tasks = repair::readable_tasks(rows, rows.len() as int);
            let previous = repair::previous_sequence(stored);
            &&& repaired >= params.minimum_last_enqueue_seq
            &&& previous is Some ==> repaired >= previous->0
            &&& 0 <= at < tasks.len() ==> repaired >= tasks[at].enqueue_seq
            &&& repaired == params.minimum_last_enqueue_seq || previous == Some(repaired) || repaired
                == 0 || exists|i: int| 0 <= i < tasks.len() && #[trigger] tasks[i].enqueue_seq
                == repaired
        }),
{
    let tasks = repair::readable_tasks(rows, rows.len() as int);
    let values = store::sequences(tasks);
    store::lemma_max_bounds(values);
    if 0 <= at < tasks.len() {
        assert(values[at] == tasks[at].enqueue_seq);
    }
    if values.len() > 0 {
        store::lemma_max_attained(values);
        let i = choose|i: int| 0 <= i < values.len() && values[i] == store::max_of(values);
        assert(tasks[i].enqueue_seq == store::max_of(values));
    }
}

/// A repaired generation is no less than the floor that was asked for, than what was stored and
/// than that of any readable task, and is one of these.
pub proof fn law_repaired_generations_cover_what_is_known(
    params: TaskQueueStateRepairParams,
    stored: StoredQueueState,
    rows: Seq<StoredTaskRow>,
    at: int,
)
    ensures
        ({
            let repaired = repair::repaired_generation(params, stored, rows);
            let tasks = repair::readable_tasks(rows, rows.len() as int);
            let previous = repair::previous_generation(stored);
            &&& repaired >= params.minimum_mutation_generation
            &&& previous is Some ==> repaired >= previous->0
            &&& 0 <= at < tasks.len() ==> repaired >= tasks[at].mutation_generation
            &&& repaired == params.minimum_mutation_generation || previous == Some(repaired)
                || repaired == 0 || exists|i: int|
                0 <= i < tasks.len() && #[trigger] tasks[i].mutation_generation == repaired
        }),
{
    let tasks = repair::readable_tasks(rows, rows.len() as int);
    let values = store::generations(tasks);
    store::lemma_max_bounds(values);
    if 0 <= at < tasks.len() {
        assert(values[at] == tasks[at].mutation_generation);
    }
    if values.len() > 0 {
        store::lemma_max_attained(values);
        let i = choose|i: int| 0 <= i < values.len() && values[i] == store::max_of(values);
        assert(tasks[i].mutation_generation == store::max_of(values));
    }
}

/// Every row is live unless it has expired, unreadable if its reading fails, and one of the
/// readable tasks otherwise.
pub proof fn law_surveys_count_each_row(rows: Seq<StoredTaskRow>, end: int)
    requires
        0 < end <= rows.len(),
    ensures
        ({
            let row = rows[end - 1];
            let before = end - 1;
            &&& repair::live_rows(rows, 0) == 0
            &&& repair::unreadable_rows(rows, 0) == 0
            &&& repair::readable_tasks(rows, 0).len() == 0
            &&& row.value is Expired ==> repair::live_rows(rows, end) == repair::live_rows(
                rows,
                before,
            )
            &&& row.value !is Expired ==> repair::live_rows(rows, end) == repair::live_rows(
                rows,
                before,
            ) + 1
            &&& store::row_reading(row) is Err ==> repair::unreadable_rows(rows, end)
                == repair::unreadable_rows(rows, before) + 1
            &&& store::row_reading(row) is Ok ==> repair::unreadable_rows(rows, end)
                == repair::unreadable_rows(rows, before)
            &&& store::row_reading(row) matches Ok(Some(task)) ==> repair::readable_tasks(rows, end)
                == repair::readable_tasks(rows, before) + seq![task]
            &&& !(store::row_reading(row) matches Ok(Some(_))) ==> repair::readable_tasks(rows, end)
                == repair::readable_tasks(rows, before)
        }),
{
    match store::row_reading(rows[end - 1]) {
        Ok(Some(task)) => {
            let earlier = repair::readable_tasks(rows, end - 1);
            assert(earlier.push(task) =~= earlier + seq![task]);
        },
        _ => {},
    }
}

/// A sequence is repaired with a reason, and with a floor where a row or the stored sequence
/// cannot be read.
pub proof fn law_sequence_repairs_need_a_floor(
    params: TaskSequenceRepairParams,
    stored: StoredSequence,
    rows: Seq<StoredTaskRow>,
)
    ensures
        ({
            let unreadable = repair::unreadable_rows(rows, rows.len() as int);
            let lost = stored !is Absent && !(store::sequence_reading(stored) matches Ok(Some(_)));
            repair::sequence_repair_refusal(params, stored, rows) is None
                <==> repair::reason_refusal(params.reason@) is None && (
            params.minimum_last_enqueue_seq > 0 || (!lost && unreadable == 0))
        }),
{
}

/// The coordination row is repaired with a reason, at the revision that was observed, and with
/// a floor where a row or the stored state cannot be read.
pub proof fn law_queue_repairs_need_revision_and_floor(
    params: TaskQueueStateRepairParams,
    stored: StoredQueueState,
    rows: Seq<StoredTaskRow>,
)
    ensures
        ({
            let refusal = repair::queue_repair_refusal(params, stored, rows);
            let unreadable = repair::unreadable_rows(rows, rows.len() as int);
            let lost = stored !is Absent && !(store::queue_reading(stored) matches Ok(Some(_)));
            let observed = params.expected_revision_sha256;
            let well_formed = observed is None || digest::is_lower_sha256_spec(observed->0@);
            let same = match stored {
                StoredQueueState::Absent => observed is None,
                StoredQueueState::Expired { revision_sha256 } => observed is Some && observed->0@
                    == digest::hex_text(revision_sha256@),
                StoredQueueState::Undecodable { revision_sha256 } => observed is Some
                    && observed->0@ == digest::hex_text(revision_sha256@),
                StoredQueueState::Decoded { revision_sha256, .. } => observed is Some
                    && observed->0@ == digest::hex_text(revision_sha256@),
            };
            let reasoned = repair::reason_refusal(params.reason@) is None;
            &&& refusal is None <==> reasoned && well_formed && same && (
            params.minimum_mutation_generation > 0 || (!lost && unreadable == 0))
            &&& reasoned && !well_formed ==> refusal == Some(TaskError::RevisionMalformed)
            &&& reasoned && well_formed && !same ==> refusal == Some(
                TaskError::RepairRevisionMismatch,
            )
        }),
{
}

/// A row repair names a task, has a reason and a revision, and replaces the row by one of the
/// same task without a generation.
pub proof fn law_row_repairs_replace_their_own_row(params: TaskRowRepairParams, generation: u64)
    ensures
        repair::row_repair_params_refusal(params) is None <==> validate::is_task_id(params.task_id@)
            && repair::reason_refusal(params.reason@) is None && digest::is_lower_sha256_spec(
            params.expected_revision_sha256@,
        ) && params.replacement@.task_id == params.task_id@
            && params.replacement@.mutation_generation == 0,
        !validate::is_task_id(params.task_id@) ==> repair::row_repair_params_refusal(params) == Some(
            TaskError::TaskIdInvalid,
        ),
        ({
            let after = repair::replaced(params.replacement@, generation);
            &&& after.schema_version == 1
            &&& after.mutation_generation == generation
            &&& after.task_id == params.replacement@.task_id
            &&& after.state == params.replacement@.state
            &&& after.attempts == params.replacement@.attempts
            &&& after.enqueue_seq == params.replacement@.enqueue_seq
        }),
{
}

/// Conflicts are retried sixty-three times; then the operation gives up.
pub proof fn law_conflicts_are_retried(retry: usize)
    ensures
        retry < 63 ==> store::retry_spec(retry) == Ok::<usize, TaskError>((retry + 1) as usize),
        retry >= 63 ==> store::retry_spec(retry) == Err::<usize, TaskError>(TaskError::Contention),
{
}

/// The reason of a failed dispatch says where it came from, the code and the message; that of a
/// stopped one also how the agent was cleaned up. A spawned agent is no failure.
pub proof fn law_failed_dispatches_have_a_reason(code: String, message: String, cleanup: String)
    ensures
        run::failure_reason(DispatchOrigin::Tool, DispatchEvent::SpawnFailed { code, message })
            == Some("dispatch spawn "@ + "failed ["@ + code@ + "]: "@ + message@),
        run::failure_reason(DispatchOrigin::Dashboard, DispatchEvent::SpawnFailed { code, message })
            == Some("dashboard dispatch spawn "@ + "failed ["@ + code@ + "]: "@ + message@),
        run::failure_reason(
            DispatchOrigin::Tool,
            DispatchEvent::Superseded { code, message, cleanup },
        ) == Some(
            "dispatch spawn "@ + "superseded by operator panic ["@ + code@ + "]: "@ + message@
                + "; cleanup="@ + cleanup@,
        ),
        run::failure_reason(
            DispatchOrigin::Dashboard,
            DispatchEvent::Superseded { code, message, cleanup },
        ) == Some(
            "dashboard dispatch spawn "@ + "superseded by operator panic ["@ + code@ + "]: "@
                + message@ + "; cleanup="@ + cleanup@,
        ),
        run::failure_reason(DispatchOrigin::Tool, DispatchEvent::Spawned) is None,
        run::failure_reason(DispatchOrigin::Dashboard, DispatchEvent::Spawned) is None,
{
}

/// A task in progress is settled as expired once its reservation has expired, as vanished where
/// no reservation holds it and its session is gone, and not at all otherwise.
pub proof fn law_tasks_in_progress_are_settled(task: TaskView, live: Seq<String>, now: u64)
    ensures
        ({
            let step = service::reconcile_step(task, live, now);
            let held = task.dispatch_reservation;
            let gone = task.live() is None || forall|i: int|
                0 <= i < live.len() ==> (#[trigger] live[i])@ != task.live()->0.session_id;
            &&& task.state != TaskState::InProgress ==> step is None
            &&& task.state == TaskState::InProgress && held is Some && held->0.expires_at_unix_ms
                > now ==> step is None
            &&& task.state == TaskState::InProgress && held is Some && held->0.expires_at_unix_ms
                <= now ==> step is Some && step->0 is Expire && step->0->Expire_task_id
                == task.task_id && step->0->Expire_reservation_id == held->0.reservation_id
            &&& task.state == TaskState::InProgress && held is None && !gone ==> step is None
            &&& task.state == TaskState::InProgress && held is None && gone ==> step is Some
                && step->0 is Vanish && step->0->Vanish_task_id == task.task_id
                && step->0->Vanish_spawn_id == transitions::completion_spawn(task)
        }),
{
    if task.live() is Some {
        let session_id = task.live()->0.session_id;
        if forall|i: int| 0 <= i < live.len() ==> (#[trigger] live[i])@ != session_id {
            assert(!transitions::session_live(live, session_id));
        } else {
            let i = choose|i: int| 0 <= i < live.len() && (#[trigger] live[i])@ == session_id;
            assert(live[i]@ == session_id);
            assert(transitions::session_live(live, session_id));
        }
    }
}

/// Cancelling a task interrupts the agent of its live attempt: by the id of the agent, or by the
/// session where the attempt has none.
pub proof fn law_cancelling_interrupts_the_live_agent(task: TaskView)
    ensures
        task.live() is None ==> service::interrupt_of(task) is None,
        task.live() matches Some(attempt) ==> {
            let named = attempt.spawn_id is Some && !text::is_blank_spec(attempt.spawn_id->0);
            &&& named ==> service::interrupt_of(task) == attempt.spawn_id
            &&& !named && !text::is_blank_spec(attempt.session_id) ==> service::interrupt_of(task)
                == Some(attempt.session_id)
            &&& !named && text::is_blank_spec(attempt.session_id) ==> service::interrupt_of(
                task,
            ) is None
        },
{
}

/// A full queue says how many tasks are in flight.
pub proof fn law_full_queues_say_how_full(in_flight: usize)
    ensures
        service::at_capacity_text(in_flight) == "at_capacity:"@ + text::decimal_text(
            in_flight as nat,
        ),
        text::decimal_value(
            service::at_capacity_text(in_flight).subrange(
                "at_capacity:"@.len() as int,
                service::at_capacity_text(in_flight).len() as int,
            ),
        ) == in_flight,
{
    let digits = text::decimal_text(in_flight as nat);
    let whole = "at_capacity:"@ + digits;
    assert(whole.subrange("at_capacity:"@.len() as int, whole.len() as int) =~= digits);
    text::law_decimal_round_trip(in_flight as nat);
}

/// A successor is written where it is of the same task and version, the queue has a next
/// generation, and the row with that generation and the time of the change is valid.
pub proof fn law_successors_are_valid_rows(
    predecessor: TaskView,
    queue: TaskQueueState,
    successor: TaskView,
    now: u64,
)
    requires
        queue.mutation_generation < 0xffff_ffff_ffff_ffff,
    ensures
        ({
            let refusal = store::successor_refusal(predecessor, queue, successor, now);
            let own = successor.task_id == predecessor.task_id && successor.schema_version == 1;
            let row = TaskView {
                mutation_generation: (queue.mutation_generation + 1) as u64,
                updated_unix_ms: now,
                ..successor
            };
            &&& !own ==> refusal == Some(TaskError::MutationIdentityInvalid)
            &&& own ==> refusal == validate::decode_refusal(
                "agent-task/v1/task/"@ + predecessor.task_id,
                row,
            )
        }),
{
}

/// A written row is proved where the bytes that were written read back, decode to a valid row of
/// the task with the generation of the change, and the queue has not gone back behind it.
pub proof fn law_mutations_read_back(
    readback: store::MutationReadback,
    task_id: Seq<char>,
    encoded: Seq<u8>,
    generation: u64,
)
    ensures
        ({
            let refusal = store::readback_refusal(readback, task_id, encoded, generation);
            let same = readback.stored is Some && readback.stored->0@ == encoded;
            let valid = readback.decoded is Some && validate::row_valid(
                "agent-task/v1/task/"@ + task_id,
                readback.decoded->0@,
            );
            let current = valid && readback.decoded->0@.mutation_generation == generation;
            let queue = store::queue_reading(readback.queue);
            &&& refusal is None <==> same && current && queue is Ok && queue->Ok_0 is Some
                && queue->Ok_0->0.state.mutation_generation >= generation
            &&& readback.stored is None ==> refusal == Some(TaskError::MutationReadbackMissing)
            &&& readback.stored is Some && !same ==> refusal == Some(
                TaskError::MutationReadbackDrift,
            )
            &&& same && readback.decoded is None ==> refusal == Some(TaskError::RowUndecodable)
            &&& same && valid && !current ==> refusal == Some(TaskError::MutationGenerationDrift)
            &&& same && current && queue is Ok && queue->Ok_0 is None ==> refusal == Some(
                TaskError::QueueStateMissing,
            )
            &&& same && current && queue is Ok && queue->Ok_0 is Some
                && queue->Ok_0->0.state.mutation_generation < generation ==> refusal == Some(
                TaskError::QueueGenerationRollback,
            )
        }),
{
}

/// A snapshot is refused where the queue or a row cannot be read, and where a task has a later
/// generation than the queue; an audit also where a task has a later place than the sequence.
pub proof fn law_snapshots_are_coherent(
    queue: StoredQueueState,
    sequence: StoredSequence,
    rows: Seq<StoredTaskRow>,
    tasks: Seq<TaskView>,
    current: RevisionedTaskQueueState,
    last: RevisionedTaskSequence,
)
    requires
        store::queue_reading(queue) == Ok::<Option<RevisionedTaskQueueState>, TaskError>(
            Some(current),
        ),
        store::sequence_reading(sequence) == Ok::<Option<RevisionedTaskSequence>, TaskError>(
            Some(last),
        ),
        store::scan_spec(rows) == Ok::<Seq<TaskView>, TaskError>(tasks),
    ensures
        ({
            let generations = forall|i: int|
                0 <= i < tasks.len() ==> (#[trigger] tasks[i]).mutation_generation
                    <= current.state.mutation_generation;
            let places = forall|i: int|
                0 <= i < tasks.len() ==> (#[trigger] tasks[i]).enqueue_seq <= last.value;
            &&& generations ==> store::snapshot_reading(queue, rows) == Ok::<
                Seq<TaskView>,
                TaskError,
            >(tasks)
            &&& !generations ==> store::snapshot_reading(queue, rows) == Err::<
                Seq<TaskView>,
                TaskError,
            >(TaskError::QueueGenerationDrift)
            &&& generations && places ==> store::audit_reading(queue, sequence, rows) == Ok::<
                Seq<TaskView>,
                TaskError,
            >(tasks)
            &&& generations && !places ==> store::audit_reading(queue, sequence, rows) == Err::<
                Seq<TaskView>,
                TaskError,
            >(TaskError::SequenceDrift)
        }),
{
    let values = store::sequences(tasks);
    store::lemma_max_bounds(values);
    store::lemma_max_attained(values);
    if forall|i: int| 0 <= i < tasks.len() ==> (#[trigger] tasks[i]).enqueue_seq <= last.value {
        if store::max_of(values) > last.value {
            let i = choose|i: int| 0 <= i < values.len() && values[i] == store::max_of(values);
            assert(tasks[i].enqueue_seq == values[i]);
        }
    } else {
        let i = choose|i: int|
            0 <= i < tasks.len() && !((#[trigger] tasks[i]).enqueue_seq <= last.value);
        assert(values[i] == tasks[i].enqueue_seq);
    }
    if forall|i: int|
        0 <= i < tasks.len() ==> (#[trigger] tasks[i]).mutation_generation
            <= current.state.mutation_generation {
        assert(!store::generation_drift(tasks, current.state.mutation_generation));
    } else {
        let i = choose|i: int|
            0 <= i < tasks.len() && !((#[trigger] tasks[i]).mutation_generation
                <= current.state.mutation_generation);
        assert(tasks[i].mutation_generation > current.state.mutation_generation);
        assert(store::generation_drift(tasks, current.state.mutation_generation));
    }
}

/// What a reader of the queue is told: the tasks of a state if one is asked for, in the order
/// of the list, the first of them up to the limit.
pub proof fn law_shown_tasks_are_the_first_wanted(
    listed: Seq<TaskView>,
    state: TaskState,
    max: nat,
    at: int,
)
    ensures
        ({
            let every = service::shown(listed, None, max as int);
            let wanted = service::shown(listed, Some(state), max as int);
            let kept = listed.filter(|task: TaskView| task.state == state);
            &&& every.len() <= max
            &&& wanted.len() <= max
            &&& listed.len() <= max ==> every == listed
            &&& 0 <= at < every.len() ==> every[at] == listed[at]
            &&& 0 <= at < wanted.len() ==> wanted[at] == kept[at] && wanted[at].state == state
            &&& wanted.len() == (if kept.len() <= max {
                kept.len()
            } else {
                max
            })
        }),
{
    lemma_filter_of_all(listed);
    lemma_filter_by_state(listed, state);
    let kept = listed.filter(|task: TaskView| task.state == state);
    if 0 <= at < kept.len() {
        broadcast use vstd::seq_lib::group_filter_ensures;

        assert(kept[at].state == state);
    }
}

proof fn lemma_filter_of_all(listed: Seq<TaskView>)
    ensures
        ({
            let asked: Option<TaskState> = None;
            listed.filter(|task: TaskView| asked matches Some(kept) ==> task.state == kept) == listed
        }),
{
    let asked: Option<TaskState> = None;
    lemma_filter_same(
        listed,
        |task: TaskView| asked matches Some(kept) ==> task.state == kept,
        |task: TaskView| true,
    );
    lemma_filter_true(listed);
}

proof fn lemma_filter_true(listed: Seq<TaskView>)
    ensures
        listed.filter(|task: TaskView| true) == listed,
    decreases listed.len(),
{
    reveal(Seq::filter);
    if listed.len() > 0 {
        lemma_filter_true(listed.drop_last());
        assert(listed.drop_last().push(listed.last()) =~= listed);
    } else {
        assert(listed =~= Seq::<TaskView>::empty());
    }
}

proof fn lemma_filter_same(
    listed: Seq<TaskView>,
    left: spec_fn(TaskView) -> bool,
    right: spec_fn(TaskView) -> bool,
)
    requires
        forall|task: TaskView| #[trigger] left(task) == right(task),
    ensures
        listed.filter(left) == listed.filter(right),
    decreases listed.len(),
{
    reveal(Seq::filter);
    if listed.len() > 0 {
        lemma_filter_same(listed.drop_last(), left, right);
        assert(left(listed.last()) == right(listed.last()));
    }
}

proof fn lemma_filter_by_state(listed: Seq<TaskView>, state: TaskState)
    ensures
        ({
            let asked: Option<TaskState> = Some(state);
            listed.filter(|task: TaskView| asked matches Some(kept) ==> task.state == kept)
                == listed.filter(|task: TaskView| task.state == state)
        }),
{
    let asked: Option<TaskState> = Some(state);
    lemma_filter_same(
        listed,
        |task: TaskView| asked matches Some(kept) ==> task.state == kept,
        |task: TaskView| task.state == state,
    );
}

} // verus!
