//! When a write to the queue counts as committed.
use crate::tasks::create;
use crate::tasks::create::CreateReadback;
use crate::tasks::errors::{ErrorCode, TaskError};
use crate::tasks::model;
use crate::tasks::model::{
    AttemptView, RevisionedTaskQueueState, RevisionedTaskSequence, TaskCreateParams,
    TaskRowRepairParams, TaskState, TaskUpdateParams, TaskView,
};
use crate::tasks::repair;
use crate::tasks::repair::{PreparedQueueRepair, QueueReadback};
use crate::tasks::service;
use crate::tasks::service::{StepView, SynapseService};
use crate::tasks::store;
use crate::tasks::store::{CommitOutcome, RevisionGuard, StoredTaskRow};
use crate::tasks::transitions;
use crate::tasks::transitions::SpawnTerminalCompletion;
use crate::tasks::validate;
use vstd::prelude::*;
use vstd::string::*;

verus! {

/// A creation is proved where the row that was written reads back as it was and as the same task
/// at the same place and generation, and neither sequence nor queue is behind it.
pub proof fn law_created_rows_read_back(
    task: TaskView,
    encoded: Seq<u8>,
    stored: Seq<u8>,
    decoded: TaskView,
    sequence: RevisionedTaskSequence,
    queue: RevisionedTaskQueueState,
)
    ensures
        create::create_proved(task, encoded, stored, decoded, sequence, queue) <==> stored == encoded
            && decoded.task_id == task.task_id && decoded.enqueue_seq == task.enqueue_seq
            && decoded.mutation_generation == task.mutation_generation && task.enqueue_seq
            <= sequence.value && task.mutation_generation <= queue.state.mutation_generation,
{
}

/// A commit that was applied is proved by the readback or names what it lacks; one that failed
/// counts as committed only where the readback proves it, and otherwise fails with its own code.
pub proof fn law_creations_are_proved_by_readback(
    task: TaskView,
    encoded: Seq<u8>,
    code: &'static str,
    committed_seq: u64,
    readback: CreateReadback,
    sequence: RevisionedTaskSequence,
    queue: RevisionedTaskQueueState,
)
    requires
        store::sequence_reading(readback.sequence) == Ok::<Option<RevisionedTaskSequence>, TaskError>(
            Some(sequence),
        ),
        store::queue_reading(readback.queue) == Ok::<Option<RevisionedTaskQueueState>, TaskError>(
            Some(queue),
        ),
    ensures
        ({
            let applied = create::create_commit_refusal(
                task,
                encoded,
                CommitOutcome::Applied { committed_seq },
                readback,
            );
            let failed = create::create_commit_refusal(
                task,
                encoded,
                CommitOutcome::Failed { code },
                readback,
            );
            let valid = readback.decoded is Some && validate::row_valid(
                "agent-task/v1/task/"@ + task.task_id,
                readback.decoded->0@,
            );
            let proved = readback.stored is Some && valid && create::create_proved(
                task,
                encoded,
                readback.stored->0@,
                readback.decoded->0@,
                sequence,
                queue,
            );
            &&& applied is None <==> proved
            &&& failed is None <==> proved
            &&& readback.stored is None ==> applied == Some(TaskError::MutationReadbackMissing)
                && failed == Some(TaskError::CreateNotCommitted { code })
            &&& readback.stored is Some && readback.decoded is None ==> applied == Some(
                TaskError::RowUndecodable,
            ) && failed == Some(TaskError::RowUndecodable)
            &&& readback.stored is Some && valid && !proved ==> applied == Some(
                TaskError::CreateReadbackDrift,
            ) && failed == Some(TaskError::CreateNotCommitted { code })
        }),
{
}

/// A creation is guarded by the queue and the sequence as they were read, and by the absence of
/// the row; a change by the queue and the row as they were read.
pub proof fn law_commits_are_guarded_by_what_was_read(
    guards: Seq<RevisionGuard>,
    queue: RevisionedTaskQueueState,
    sequence: RevisionedTaskSequence,
    task_id: Seq<char>,
    row_revision: [u8; 32],
)
    ensures
        create::create_guards(guards, queue, sequence, task_id) <==> {
            &&& guards.len() == 3
            &&& guards[0].key@ == "agent-task/v2/meta/queue_state"@
            &&& guards[0].revision_sha256 == Some(queue.revision_sha256)
            &&& guards[1].key@ == "agent-task/v1/meta/last_enqueue_seq"@
            &&& guards[1].revision_sha256 == Some(sequence.revision_sha256)
            &&& guards[2].key@ == "agent-task/v1/task/"@ + task_id
            &&& guards[2].revision_sha256 is None
        },
        store::mutation_guards(guards, queue, "agent-task/v1/task/"@ + task_id, row_revision) <==> {
            &&& guards.len() == 2
            &&& guards[0].key@ == "agent-task/v2/meta/queue_state"@
            &&& guards[0].revision_sha256 == Some(queue.revision_sha256)
            &&& guards[1].key@ == "agent-task/v1/task/"@ + task_id
            &&& guards[1].revision_sha256 == Some(row_revision)
        },
{
}

/// A task is read under its own key: none where no row stands there, refused where the row has
/// expired.
pub proof fn law_tasks_are_read_by_id(rows: Seq<StoredTaskRow>, task_id: Seq<char>, at: int)
    requires
        0 <= at < rows.len(),
        rows[at].key@ == "agent-task/v1/task/"@ + task_id,
        forall|i: int|
            0 <= i < at ==> (#[trigger] rows[i]).key@ != "agent-task/v1/task/"@ + task_id,
    ensures
        store::row_reading(rows[at]) == Ok::<Option<TaskView>, TaskError>(None)
            ==> store::task_reading(rows, task_id) == Err::<Option<TaskView>, TaskError>(
            TaskError::RowExpired,
        ),
        store::row_reading(rows[at]) != Ok::<Option<TaskView>, TaskError>(None)
            ==> store::task_reading(rows, task_id) == store::row_reading(rows[at]),
{
    store::lemma_find_key(rows, validate::task_key_spec(task_id), 0);
    let found = store::find_key(rows, validate::task_key_spec(task_id), 0);
    if found is None {
        assert(rows[at].key@ != validate::task_key_spec(task_id));
    } else if found->0 < at {
        assert(rows[found->0].key@ != "agent-task/v1/task/"@ + task_id);
    } else if found->0 > at {
        assert(rows[at].key@ != validate::task_key_spec(task_id));
    }
}

/// A task that no row stands for is not found; a change begins with the queue and the task.
pub proof fn law_changes_begin_with_queue_and_task(service: SynapseService, task_id: Seq<char>)
    ensures
        ({
            let base = service::mutation_base(service, task_id);
            let queue = store::queue_reading(service.queue);
            let task = store::task_reading(service.rows@, task_id);
            &&& queue matches Err(error) ==> base is Err && base->Err_0 == error
            &&& queue is Ok && queue->Ok_0 is None ==> base is Err && base->Err_0
                == TaskError::QueueStateMissing
            &&& queue is Ok && queue->Ok_0 is Some && task is Err ==> base is Err && base->Err_0
                == task->Err_0
            &&& queue is Ok && queue->Ok_0 is Some && task is Ok && task->Ok_0 is None
                ==> base is Err && base->Err_0 == TaskError::NotFound
            &&& queue is Ok && queue->Ok_0 is Some && task is Ok && task->Ok_0 is Some ==> base is Ok
                && base->Ok_0.0 == queue->Ok_0->0 && base->Ok_0.1 == task->Ok_0->0
        }),
{
}

/// A repair of the coordination row is proved where the commit was applied, or failed but stands
/// there byte for byte, and the row then reads back as it was repaired.
pub proof fn law_queue_repairs_are_proved(
    plan: PreparedQueueRepair,
    encoded: Seq<u8>,
    commit: CommitOutcome,
    readback: QueueReadback,
)
    ensures
        ({
            let refusal = repair::queue_repair_commit_refusal(plan, encoded, commit, readback);
            let found = store::queue_reading(readback.queue);
            let stands = commit is Applied || (commit is Failed && readback.stored is Some
                && readback.stored->0@ == encoded);
            &&& refusal is None <==> stands && found is Ok && found->Ok_0 is Some
                && found->Ok_0->0.state == plan.repaired
            &&& commit is Conflict ==> refusal == Some(TaskError::RepairConflict)
            &&& commit is Failed && !stands ==> refusal == Some(
                TaskError::RepairNotCommitted { code: commit->code },
            )
            &&& stands && found is Ok && found->Ok_0 is None ==> refusal == Some(
                TaskError::QueueStateMissing,
            )
            &&& stands && found is Ok && found->Ok_0 is Some && found->Ok_0->0.state
                != plan.repaired ==> refusal == Some(TaskError::RepairReadbackDrift)
        }),
        commit matches CommitOutcome::Applied { committed_seq } ==> repair::committed(commit) == Some(
            committed_seq,
        ),
        commit !is Applied ==> repair::committed(commit) is None,
{
}

proof fn lemma_sequence_taken(
    rows: Seq<StoredTaskRow>,
    key: Seq<char>,
    enqueue_seq: u64,
    from: int,
)
    requires
        0 <= from <= rows.len(),
    ensures
        repair::sequence_taken(rows, key, enqueue_seq, from) <==> exists|i: int|
            from <= i < rows.len() && (#[trigger] rows[i]).key@ != key && (store::row_reading(
                rows[i],
            ) matches Ok(Some(task)) && task.enqueue_seq == enqueue_seq),
    decreases rows.len() - from,
{
    if from < rows.len() {
        lemma_sequence_taken(rows, key, enqueue_seq, from + 1);
        if rows[from].key@ != key && (store::row_reading(rows[from]) matches Ok(Some(task))
            && task.enqueue_seq == enqueue_seq) {
        } else if repair::sequence_taken(rows, key, enqueue_seq, from + 1) {
            let i = choose|i: int|
                from + 1 <= i < rows.len() && (#[trigger] rows[i]).key@ != key && (
                store::row_reading(rows[i]) matches Ok(Some(task)) && task.enqueue_seq
                    == enqueue_seq);
            assert(rows[i].key@ != key);
        }
    }
}

/// A place in the queue is taken where another row holds a task at it.
pub proof fn law_places_are_taken_by_other_rows(
    rows: Seq<StoredTaskRow>,
    key: Seq<char>,
    enqueue_seq: u64,
)
    ensures
        repair::sequence_taken(rows, key, enqueue_seq, 0) <==> exists|i: int|
            0 <= i < rows.len() && (#[trigger] rows[i]).key@ != key && (store::row_reading(
                rows[i],
            ) matches Ok(Some(task)) && task.enqueue_seq == enqueue_seq),
{
    lemma_sequence_taken(rows, key, enqueue_seq, 0);
}

/// What a step of the reconciliation flags: an expired reservation always, a vanished session
/// where no completion counts; a completion counts only where the agent has an id of its shape.
pub proof fn law_steps_flag_what_has_no_completion(
    task_id: Seq<char>,
    reservation_id: Seq<char>,
    reason: Seq<char>,
    spawn_id: Option<Seq<char>>,
    completion: Option<SpawnTerminalCompletion>,
)
    ensures
        service::flagged_by(StepView::Expire { task_id, reservation_id, reason }, completion),
        service::flagged_by(StepView::Vanish { task_id, spawn_id }, completion) <==> spawn_id is None
            || completion is None,
        service::step_task(StepView::Expire { task_id, reservation_id, reason }) == task_id,
        service::step_task(StepView::Vanish { task_id, spawn_id }) == task_id,
        spawn_id is Some ==> service::counted_completion(spawn_id, completion) == completion,
        spawn_id is None ==> service::counted_completion(spawn_id, completion) is None,
{
}

/// A vanished session is settled while its task is still to be reconciled and its agent is the
/// one that was looked for.
pub proof fn law_vanished_sessions_are_settled_once(
    task: TaskView,
    live: Seq<String>,
    spawn_id: Option<Seq<char>>,
)
    ensures
        service::vanish_refusal(task, live, spawn_id) is None <==> transitions::reconcile_refusal(
            task,
            live,
        ) is None && transitions::completion_spawn(task) == spawn_id,
        transitions::reconcile_refusal(task, live) matches Some(error) ==> service::vanish_refusal(
            task,
            live,
            spawn_id,
        ) == Some(error),
        transitions::reconcile_refusal(task, live) is None && transitions::completion_spawn(task)
            != spawn_id ==> service::vanish_refusal(task, live, spawn_id) == Some(
            TaskError::ReconcileSuperseded,
        ),
{
}

/// One task more is one step more exactly where it has to be settled, behind those before it.
pub proof fn law_reconciliations_settle_each_task(
    tasks: Seq<TaskView>,
    live: Seq<String>,
    now: u64,
    end: int,
)
    requires
        0 < end <= tasks.len(),
    ensures
        service::reconcile_steps(tasks, live, now, 0).len() == 0,
        service::reconcile_step(tasks[end - 1], live, now) matches Some(step)
            ==> service::reconcile_steps(tasks, live, now, end) == service::reconcile_steps(
            tasks,
            live,
            now,
            end - 1,
        ).push(step),
        service::reconcile_step(tasks[end - 1], live, now) is None ==> service::reconcile_steps(
            tasks,
            live,
            now,
            end,
        ) == service::reconcile_steps(tasks, live, now, end - 1),
{
}

/// The states have the names under which they are stored and told.
pub proof fn law_states_are_named()
    ensures
        TaskState::Todo.name() == "todo"@,
        TaskState::InProgress.name() == "in_progress"@,
        TaskState::Review.name() == "review"@,
        TaskState::Done.name() == "done"@,
        TaskState::Cancelled.name() == "cancelled"@,
        TaskState::Done.terminal(),
        TaskState::Cancelled.terminal(),
        !TaskState::Todo.terminal(),
        !TaskState::InProgress.terminal(),
        !TaskState::Review.terminal(),
{
}

proof fn lemma_params_code(params: Seq<(Seq<char>, Seq<char>)>, from: int)
    ensures
        validate::params_refusal(params, from) matches Some(error) ==> error.code_spec()
            == ErrorCode::ToolParamsInvalid,
    decreases params.len() - from,
{
    if 0 <= from < params.len() {
        lemma_params_code(params, from + 1);
    }
}

proof fn lemma_attempts_code(attempts: Seq<AttemptView>, from: int)
    ensures
        validate::attempts_refusal(attempts, from) matches Some(error) ==> error.code_spec()
            == ErrorCode::StorageCorrupted,
    decreases attempts.len() - from,
{
    if 0 <= from < attempts.len() {
        lemma_attempts_code(attempts, from + 1);
    }
}

/// A request that is not well formed is told as such, whether it creates, updates or repairs; a
/// row that cannot be taken as one is told as corrupted storage.
pub proof fn law_malformed_requests_blame_the_request(
    creation: TaskCreateParams,
    update: TaskUpdateParams,
    repaired: TaskRowRepairParams,
    reason: Seq<char>,
    row_key: Seq<char>,
    task: TaskView,
)
    ensures
        create::create_refusal(creation) matches Some(error) ==> error.code_spec()
            == ErrorCode::ToolParamsInvalid,
        transitions::update_params_refusal(update) matches Some(error) ==> error.code_spec()
            == ErrorCode::ToolParamsInvalid,
        repair::row_repair_params_refusal(repaired) matches Some(error) ==> error.code_spec()
            == ErrorCode::ToolParamsInvalid,
        repair::reason_refusal(reason) matches Some(error) ==> error.code_spec()
            == ErrorCode::ToolParamsInvalid,
        validate::decode_refusal(row_key, task) matches Some(error) ==> error.code_spec()
            == ErrorCode::StorageCorrupted,
{
    lemma_params_code(model::pair_views(creation.template_params@), 0);
    lemma_attempts_code(task.attempts, 0);
}

/// What a task's state does not allow is told as an invalid transition: claims, updates,
/// bindings, failures and settlements out of turn.
pub proof fn law_untimely_requests_blame_the_state(
    task: TaskView,
    params: TaskUpdateParams,
    reservation_id: Seq<char>,
    live: Seq<String>,
    now: u64,
)
    ensures
        transitions::update_refusal(task, params) matches Some(error) ==> error.code_spec()
            == ErrorCode::AgentTaskInvalidTransition,
        task.attempts.len() < 0xffff_ffff ==> (transitions::claim_refusal(task) matches Some(error)
            ==> error.code_spec() == ErrorCode::AgentTaskInvalidTransition),
        transitions::expiry_refusal(task, reservation_id, now) matches Some(error)
            ==> error.code_spec() == ErrorCode::AgentTaskInvalidTransition,
        transitions::reconcile_refusal(task, live) matches Some(error) ==> error.code_spec()
            == ErrorCode::AgentTaskInvalidTransition,
        task.dispatch_reservation is None ==> (transitions::failure_refusal(
            task,
            reservation_id,
        ) matches Some(error) && error.code_spec() == ErrorCode::AgentTaskInvalidTransition),
{
}

/// The codes of errors that have one of their own: a task that is not there, a write that came
/// too late, an agent that was lost, and the store's own codes.
pub proof fn law_other_errors_have_their_code(code: &'static str, enqueue_seq: u64)
    ensures
        TaskError::NotFound.code_spec() == ErrorCode::AgentTaskNotFound,
        TaskError::RepairRowAbsent.code_spec() == ErrorCode::AgentTaskNotFound,
        TaskError::Contention.code_spec() == ErrorCode::StorageWriteFailed,
        TaskError::RepairConflict.code_spec() == ErrorCode::StorageWriteFailed,
        TaskError::RepairRevisionMismatch.code_spec() == ErrorCode::StorageWriteFailed,
        TaskError::FailureSettleFailed.code_spec() == ErrorCode::StorageWriteFailed,
        TaskError::BindFailedAfterSpawn.code_spec() == ErrorCode::ToolInternalError,
        (TaskError::RepairNotCommitted { code }).code_spec() == ErrorCode::Storage(code),
        (TaskError::CreateNotCommitted { code }).code_spec() == ErrorCode::Storage(code),
        (TaskError::MutationCommitAmbiguous { code }).code_spec() == ErrorCode::Storage(code),
        (TaskError::RetentionCommitAmbiguous { code }).code_spec() == ErrorCode::Storage(code),
        (TaskError::QueueStateCommitAmbiguous { code }).code_spec() == ErrorCode::Storage(code),
        TaskError::QueueStateMissing.code_spec() == ErrorCode::StorageCorrupted,
        TaskError::SequenceMissing.code_spec() == ErrorCode::StorageCorrupted,
        TaskError::QueueGenerationDrift.code_spec() == ErrorCode::StorageCorrupted,
        TaskError::SequenceDrift.code_spec() == ErrorCode::StorageCorrupted,
        (TaskError::AlreadyExists { enqueue_seq }).code_spec() == ErrorCode::ToolParamsInvalid,
        TaskError::ClaimSessionEmpty.code_spec() == ErrorCode::ToolParamsInvalid,
        TaskError::ConcurrencyCapZero.code_spec() == ErrorCode::ToolParamsInvalid,
        TaskError::WaitTimeoutOutOfRange.code_spec() == ErrorCode::ToolParamsInvalid,
        TaskError::ReservationLeaseExhausted.code_spec() == ErrorCode::ToolParamsInvalid,
        ErrorCode::ToolParamsInvalid.name() == "TOOL_PARAMS_INVALID"@,
        ErrorCode::AgentTaskNotFound.name() == "AGENT_TASK_NOT_FOUND"@,
        ErrorCode::AgentTaskInvalidTransition.name() == "AGENT_TASK_INVALID_TRANSITION"@,
        ErrorCode::StorageCorrupted.name() == "STORAGE_CORRUPTED"@,
        ErrorCode::StorageWriteFailed.name() == "STORAGE_WRITE_FAILED"@,
        ErrorCode::ToolInternalError.name() == "TOOL_INTERNAL_ERROR"@,
        ErrorCode::Storage(code).name() == code@,
{
}

} // verus!
