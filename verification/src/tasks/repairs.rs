//! How rows are repaired and finished tasks are deleted.
use crate::digest;
use crate::text;
use crate::tasks::errors::{TaskError, TextField};
use crate::tasks::model;
use crate::tasks::model::{
    AgentTaskRow, RevisionedTaskQueueState, RevisionedTaskSequence, TaskQueueStateRepairParams,
    TaskRowRepairParams, TaskSequenceRepairParams, TaskView,
};
use crate::tasks::prune;
use crate::tasks::repair;
use crate::tasks::repair::{PreparedRowRepair, RowRepairReadback};
use crate::tasks::store;
use crate::tasks::store::{CommitOutcome, StoredQueueState, StoredSequence, StoredTaskRow};
use crate::tasks::validate;
use vstd::prelude::*;
use vstd::string::*;

verus! {

/// A repair says why it was made, in at most as many characters as any text of a task.
pub proof fn law_repairs_name_a_bad_reason(reason: Seq<char>)
    ensures
        text::is_blank_spec(reason) ==> repair::reason_refusal(reason) == Some(
            TaskError::RepairReasonEmpty,
        ),
        !text::is_blank_spec(reason) && reason.len() > 16_384 ==> repair::reason_refusal(
            reason,
        ) == Some(
            TaskError::TextTooLong { field: TextField::RepairReason, max: 16_384 },
        ),
{
}

/// A repair of the sequence without a floor says how many rows hide one; a hidden sequence
/// comes before hidden rows. The revision it is guarded by is that of what stands there.
pub proof fn law_sequence_repairs_name_what_they_lack(
    params: TaskSequenceRepairParams,
    stored: StoredSequence,
    rows: Seq<StoredTaskRow>,
)
    ensures
        ({
            let refusal = repair::sequence_repair_refusal(params, stored, rows);
            let bad_reason = repair::reason_refusal(params.reason@);
            let hidden = repair::unreadable_rows(rows, rows.len() as int);
            let lost = stored !is Absent && !(store::sequence_reading(stored) is Ok
                && store::sequence_reading(stored)->Ok_0 is Some);
            let bare = params.minimum_last_enqueue_seq == 0;
            &&& bad_reason is Some ==> refusal == bad_reason
            &&& bad_reason is None && bare && lost ==> refusal == Some(
                TaskError::RepairSequenceFloorRequired { unobservable_rows: 0 },
            )
            &&& bad_reason is None && bare && !lost && hidden > 0 ==> refusal == Some(
                TaskError::RepairSequenceFloorRequired { unobservable_rows: hidden as usize },
            )
        }),
        match stored {
            StoredSequence::Absent => repair::sequence_revision(stored) is None
                && repair::previous_sequence(stored) is None,
            StoredSequence::Expired { revision_sha256 } => repair::sequence_revision(stored) == Some(
                revision_sha256,
            ) && repair::previous_sequence(stored) is None,
            StoredSequence::Present { revision_sha256, .. } => repair::sequence_revision(stored)
                == Some(revision_sha256),
        },
{
}

/// A repair of the coordination row without a floor says what hides one: the row itself, the
/// rows of tasks, or both. The revision it is guarded by is that of what stands there.
pub proof fn law_queue_repairs_name_what_they_lack(
    params: TaskQueueStateRepairParams,
    stored: StoredQueueState,
    rows: Seq<StoredTaskRow>,
    revision: [u8; 32],
)
    requires
        repair::queue_revision(stored) == Some(revision),
        params.expected_revision_sha256 is Some,
        params.expected_revision_sha256->0@ == digest::hex_text(revision@),
        digest::is_lower_sha256_spec(digest::hex_text(revision@)),
    ensures
        ({
            let refusal = repair::queue_repair_refusal(params, stored, rows);
            let bad_reason = repair::reason_refusal(params.reason@);
            let hidden = repair::unreadable_rows(rows, rows.len() as int);
            let lost = !(store::queue_reading(stored) is Ok && store::queue_reading(
                stored,
            )->Ok_0 is Some);
            let bare = params.minimum_mutation_generation == 0;
            &&& bad_reason is Some ==> refusal == bad_reason
            &&& bad_reason is None && bare && (lost || hidden > 0) ==> refusal == Some(
                TaskError::RepairGenerationFloorRequired {
                    queue_state_unobservable: lost,
                    unobservable_rows: hidden as usize,
                },
            )
        }),
        match stored {
            StoredQueueState::Absent => false,
            StoredQueueState::Expired { revision_sha256 } => revision == revision_sha256,
            StoredQueueState::Undecodable { revision_sha256 } => revision == revision_sha256,
            StoredQueueState::Decoded { revision_sha256, .. } => revision == revision_sha256,
        },
{
}

/// A malformed row repair names its first fault: the id, the reason, the revision, another
/// task, then a generation of its own.
pub proof fn law_row_repairs_name_their_first_fault(params: TaskRowRepairParams)
    requires
        validate::is_task_id(params.task_id@),
    ensures
        ({
            let refusal = repair::row_repair_params_refusal(params);
            let bad_reason = repair::reason_refusal(params.reason@);
            let named = digest::is_lower_sha256_spec(params.expected_revision_sha256@);
            let own = params.replacement@.task_id == params.task_id@;
            &&& bad_reason is Some ==> refusal == bad_reason
            &&& bad_reason is None && !named ==> refusal == Some(TaskError::RevisionMalformed)
            &&& bad_reason is None && named && !own ==> refusal == Some(
                TaskError::RepairIdentityMismatch,
            )
            &&& bad_reason is None && named && own && params.replacement@.mutation_generation != 0
                ==> refusal == Some(TaskError::RepairGenerationNotZero)
        }),
        forall|rows: Seq<StoredTaskRow>, queue: StoredQueueState, sequence: StoredSequence, now: u64|
            repair::row_repair_params_refusal(params) is Some ==> #[trigger]
                repair::row_repair_refusal(params, rows, queue, sequence, now)
                == repair::row_repair_params_refusal(params),
{
}

proof fn lemma_find_first(rows: Seq<StoredTaskRow>, key: Seq<char>, from: int, at: int)
    requires
        0 <= from <= at < rows.len(),
        rows[at].key@ == key,
        forall|i: int| from <= i < at ==> (#[trigger] rows[i]).key@ != key,
    ensures
        store::find_key(rows, key, from) == Some(at),
    decreases at - from,
{
    if from < at {
        assert(rows[from].key@ != key);
        lemma_find_first(rows, key, from + 1, at);
    }
}

proof fn lemma_find_none(rows: Seq<StoredTaskRow>, key: Seq<char>, from: int)
    requires
        0 <= from <= rows.len(),
        forall|i: int| from <= i < rows.len() ==> (#[trigger] rows[i]).key@ != key,
    ensures
        store::find_key(rows, key, from) is None,
    decreases rows.len() - from,
{
    if from < rows.len() {
        assert(rows[from].key@ != key);
        lemma_find_none(rows, key, from + 1);
    }
}

/// A row that does not stand in the queue cannot be repaired.
pub proof fn law_absent_rows_are_not_repaired(
    params: TaskRowRepairParams,
    rows: Seq<StoredTaskRow>,
    queue: StoredQueueState,
    sequence: StoredSequence,
    now: u64,
)
    requires
        repair::row_repair_params_refusal(params) is None,
        forall|i: int|
            0 <= i < rows.len() ==> (#[trigger] rows[i]).key@ != "agent-task/v1/task/"@
                + params.task_id@,
    ensures
        repair::row_repair_refusal(params, rows, queue, sequence, now) == Some(
            TaskError::RepairRowAbsent,
        ),
{
    lemma_find_none(rows, "agent-task/v1/task/"@ + params.task_id@, 0);
}

/// A row is repaired at the revision that was observed, and only where the coordination row
/// and the sequence can be read.
pub proof fn law_row_repairs_need_the_observed_revision(
    params: TaskRowRepairParams,
    rows: Seq<StoredTaskRow>,
    queue: StoredQueueState,
    sequence: StoredSequence,
    now: u64,
    at: int,
)
    requires
        repair::row_repair_params_refusal(params) is None,
        0 <= at < rows.len(),
        rows[at].key@ == "agent-task/v1/task/"@ + params.task_id@,
        forall|i: int| 0 <= i < at ==> (#[trigger] rows[i]).key@ != rows[at].key@,
    ensures
        ({
            let refusal = repair::row_repair_refusal(params, rows, queue, sequence, now);
            let same = params.expected_revision_sha256@ == digest::hex_text(
                rows[at].revision_sha256@,
            );
            let coordination = store::queue_reading(queue);
            let watermark = store::sequence_reading(sequence);
            &&& !same ==> refusal == Some(TaskError::RepairRevisionMismatch)
            &&& same && coordination is Err ==> refusal == Some(coordination->Err_0)
            &&& same && coordination is Ok && coordination->Ok_0 is None ==> refusal == Some(
                TaskError::RepairQueueStateMissing,
            )
            &&& same && coordination is Ok && coordination->Ok_0 is Some && watermark is Err
                ==> refusal == Some(watermark->Err_0)
            &&& same && coordination is Ok && coordination->Ok_0 is Some && watermark is Ok
                && watermark->Ok_0 is None ==> refusal == Some(TaskError::RepairSequenceMissing)
        }),
{
    lemma_find_first(rows, rows[at].key@, 0, at);
}

/// The task that replaces a row stands at a place that the sequence has reached and no other
/// row takes, and is valid under the key of the row with the next generation of the queue.
pub proof fn law_row_repairs_keep_places_apart(
    params: TaskRowRepairParams,
    rows: Seq<StoredTaskRow>,
    queue: StoredQueueState,
    sequence: StoredSequence,
    now: u64,
    at: int,
    current: RevisionedTaskQueueState,
    watermark: RevisionedTaskSequence,
)
    requires
        repair::row_repair_params_refusal(params) is None,
        0 <= at < rows.len(),
        rows[at].key@ == "agent-task/v1/task/"@ + params.task_id@,
        forall|i: int| 0 <= i < at ==> (#[trigger] rows[i]).key@ != rows[at].key@,
        params.expected_revision_sha256@ == digest::hex_text(rows[at].revision_sha256@),
        store::queue_reading(queue) == Ok::<Option<RevisionedTaskQueueState>, TaskError>(
            Some(current),
        ),
        store::sequence_reading(sequence) == Ok::<Option<RevisionedTaskSequence>, TaskError>(
            Some(watermark),
        ),
    ensures
        ({
            let refusal = repair::row_repair_refusal(params, rows, queue, sequence, now);
            let place = params.replacement@.enqueue_seq;
            let taken = repair::sequence_taken(rows, rows[at].key@, place, 0);
            let last = current.state.mutation_generation == 0xffff_ffff_ffff_ffff;
            let written = TaskView {
                schema_version: 1,
                mutation_generation: (current.state.mutation_generation + 1) as u64,
                ..params.replacement@
            };
            &&& refusal is None <==> place <= watermark.value && !taken && !last
                && validate::row_valid(rows[at].key@, written)
            &&& place > watermark.value ==> refusal == Some(
                TaskError::RepairSequenceBeyondWatermark {
                    enqueue_seq: place,
                    watermark: watermark.value,
                },
            )
            &&& place <= watermark.value && taken ==> refusal == Some(
                TaskError::RepairSequenceTaken { enqueue_seq: place },
            )
            &&& place <= watermark.value && !taken && last ==> refusal == Some(
                TaskError::QueueGenerationExhausted,
            )
        }),
{
    lemma_find_first(rows, rows[at].key@, 0, at);
}

/// A repaired row reads back where it holds the task that was written and the queue has
/// reached the generation of the repair; otherwise what is wrong is named, the row before the
/// queue.
pub proof fn law_repaired_rows_read_back(
    plan: PreparedRowRepair,
    encoded: Seq<u8>,
    committed_seq: u64,
    readback: RowRepairReadback,
)
    ensures
        ({
            let refusal = repair::row_repair_commit_refusal(
                plan,
                encoded,
                CommitOutcome::Applied { committed_seq },
                readback,
            );
            let found = store::row_reading(readback.row->0);
            let same = readback.row is Some && found == Ok::<Option<TaskView>, TaskError>(
                Some(plan.task@),
            );
            let queue = store::queue_reading(readback.queue);
            let reached = queue is Ok && queue->Ok_0 is Some
                && queue->Ok_0->0.state.mutation_generation >= plan.next_queue.mutation_generation;
            &&& refusal is None <==> same && reached
            &&& readback.row is None ==> refusal == Some(TaskError::MutationReadbackMissing)
            &&& readback.row is Some && found is Err ==> refusal == Some(found->Err_0)
            &&& readback.row is Some && found is Ok && found->Ok_0 is None ==> refusal == Some(
                TaskError::RowExpired,
            )
            &&& readback.row is Some && found is Ok && found->Ok_0 is Some && !same ==> refusal
                == Some(TaskError::RepairReadbackDrift)
            &&& same && queue is Err ==> refusal == Some(queue->Err_0)
            &&& same && queue is Ok && queue->Ok_0 is None ==> refusal == Some(
                TaskError::QueueStateMissing,
            )
            &&& same && queue is Ok && queue->Ok_0 is Some && !reached ==> refusal == Some(
                TaskError::QueueGenerationRollback,
            )
        }),
{
}

/// A repair that met a conflict is refused. One whose commit failed counts where the bytes
/// stand there as they were written and the queue has reached its generation, and then as much
/// as one that was applied.
pub proof fn law_failed_row_repairs_are_proved(
    plan: PreparedRowRepair,
    encoded: Seq<u8>,
    committed_seq: u64,
    code: &'static str,
    readback: RowRepairReadback,
)
    ensures
        repair::row_repair_commit_refusal(plan, encoded, CommitOutcome::Conflict, readback) == Some(
            TaskError::RepairConflict,
        ),
        ({
            let failed = repair::row_repair_commit_refusal(
                plan,
                encoded,
                CommitOutcome::Failed { code },
                readback,
            );
            let applied = repair::row_repair_commit_refusal(
                plan,
                encoded,
                CommitOutcome::Applied { committed_seq },
                readback,
            );
            let queue = store::queue_reading(readback.queue);
            let stands = readback.stored is Some && readback.stored->0@ == encoded && queue is Ok
                && queue->Ok_0 is Some && queue->Ok_0->0.state.mutation_generation
                >= plan.next_queue.mutation_generation;
            &&& stands ==> failed == applied
            &&& queue is Err ==> failed == Some(queue->Err_0)
            &&& queue is Ok && !stands ==> failed == Some(TaskError::RepairNotCommitted { code })
        }),
{
}

proof fn lemma_unreadable_others(rows: Seq<StoredTaskRow>, key: Seq<char>, end: int)
    requires
        0 <= end <= rows.len(),
    ensures
        repair::unreadable_others(rows, key, end) == rows.subrange(0, end).filter(
            |row: StoredTaskRow| row.key@ != key && store::row_reading(row) is Err,
        ).len(),
    decreases end,
{
    reveal(Seq::filter);
    if end > 0 {
        lemma_unreadable_others(rows, key, end - 1);
        assert(rows.subrange(0, end).drop_last() =~= rows.subrange(0, end - 1));
    }
}

/// A row repair counts the other rows that cannot be read.
pub proof fn law_other_unreadable_rows_are_counted(rows: Seq<StoredTaskRow>, key: Seq<char>)
    ensures
        repair::unreadable_others(rows, key, rows.len() as int) == rows.filter(
            |row: StoredTaskRow| row.key@ != key && store::row_reading(row) is Err,
        ).len(),
{
    lemma_unreadable_others(rows, key, rows.len() as int);
    assert(rows.subrange(0, rows.len() as int) =~= rows);
}

proof fn lemma_live_places(rows: Seq<StoredTaskRow>, end: int)
    requires
        0 <= end <= rows.len(),
    ensures
        forall|at: int|
            #![trigger prune::live_upto(rows, end).contains(at)]
            prune::live_upto(rows, end).contains(at) <==> 0 <= at < end && (store::row_reading(
                rows[at],
            ) is Ok && store::row_reading(rows[at])->Ok_0 is Some),
        forall|a: int, b: int|
            0 <= a < b < prune::live_upto(rows, end).len() ==> (#[trigger] prune::live_upto(
                rows,
                end,
            )[a]) < (#[trigger] prune::live_upto(rows, end)[b]),
    decreases end,
{
    let live = prune::live_upto(rows, end);
    if end > 0 {
        let before = prune::live_upto(rows, end - 1);
        lemma_live_places(rows, end - 1);
        assert forall|at: int| #[trigger] live.contains(at) <==> 0 <= at < end && (
        store::row_reading(rows[at]) is Ok && store::row_reading(rows[at])->Ok_0 is Some) by {
            assert(before.contains(at) <==> 0 <= at < end - 1 && (store::row_reading(rows[at]) is Ok
                && store::row_reading(rows[at])->Ok_0 is Some));
            if before.contains(at) {
                let k = before.index_of(at);
                assert(live[k] == at);
            }
            if live.len() > before.len() {
                assert(live[before.len() as int] == end - 1);
            }
            if live.contains(at) {
                let k = live.index_of(at);
                if k < before.len() {
                    assert(before[k] == at);
                }
            }
        }
        assert forall|a: int, b: int| 0 <= a < b < live.len() implies (#[trigger] live[a])
            < (#[trigger] live[b]) by {
            assert(live[a] == before[a]);
            if b < before.len() {
                assert(live[b] == before[b]);
            } else {
                assert(before.contains(before[a]));
            }
        }
    }
}

/// The rows that hold a task are those that read as one, each once and in their order.
pub proof fn law_live_rows_are_those_that_hold_a_task(
    rows: Seq<StoredTaskRow>,
    at: int,
    a: int,
    b: int,
)
    requires
        0 <= at < rows.len(),
        0 <= a < b < prune::live_upto(rows, rows.len() as int).len(),
    ensures
        prune::live_upto(rows, rows.len() as int).contains(at) <==> (store::row_reading(
            rows[at],
        ) is Ok && store::row_reading(rows[at])->Ok_0 is Some),
        prune::live_upto(rows, rows.len() as int)[a] < prune::live_upto(rows, rows.len() as int)[b],
{
    lemma_live_places(rows, rows.len() as int);
}

proof fn lemma_pruned_places(rows: Seq<AgentTaskRow>, now: u64, end: int)
    requires
        0 <= end <= rows.len(),
    ensures
        forall|at: int|
            #![trigger prune::pruned_upto(rows, now, end).contains(at)]
            prune::pruned_upto(rows, now, end).contains(at) <==> 0 <= at < end && prune::pruned(
                rows,
                now,
                at,
            ),
        forall|a: int, b: int|
            0 <= a < b < prune::pruned_upto(rows, now, end).len() ==> (#[trigger] prune::pruned_upto(
                rows,
                now,
                end,
            )[a]) < (#[trigger] prune::pruned_upto(rows, now, end)[b]),
    decreases end,
{
    let gone = prune::pruned_upto(rows, now, end);
    if end > 0 {
        let before = prune::pruned_upto(rows, now, end - 1);
        lemma_pruned_places(rows, now, end - 1);
        assert forall|at: int| #[trigger] gone.contains(at) <==> 0 <= at < end && prune::pruned(
            rows,
            now,
            at,
        ) by {
            assert(before.contains(at) <==> 0 <= at < end - 1 && prune::pruned(rows, now, at));
            if before.contains(at) {
                let k = before.index_of(at);
                assert(gone[k] == at);
            }
            if gone.len() > before.len() {
                assert(gone[before.len() as int] == end - 1);
            }
            if gone.contains(at) {
                let k = gone.index_of(at);
                if k < before.len() {
                    assert(before[k] == at);
                }
            }
        }
        assert forall|a: int, b: int| 0 <= a < b < gone.len() implies (#[trigger] gone[a])
            < (#[trigger] gone[b]) by {
            assert(gone[a] == before[a]);
            if b < before.len() {
                assert(gone[b] == before[b]);
            } else {
                assert(before.contains(before[a]));
            }
        }
    }
}

/// A prune deletes exactly the rows that are due, each once: a row is among the deleted ones
/// where its task is finished and has outlived its retention or the limit on finished tasks.
pub proof fn law_prunes_delete_what_is_due(
    delete: Seq<AgentTaskRow>,
    rows: Seq<AgentTaskRow>,
    now: u64,
    at: int,
)
    requires
        prune::deletes_pruned(delete, rows, now),
        0 <= at < rows.len(),
    ensures
        prune::pruned(rows, now, at) ==> exists|k: int|
            0 <= k < delete.len() && (#[trigger] delete[k]).key@ == rows[at].key@
                && delete[k].revision_sha256 == rows[at].revision_sha256 && delete[k].task@
                == rows[at].task@,
        forall|k: int|
            0 <= k < delete.len() ==> exists|i: int|
                0 <= i < rows.len() && prune::pruned(rows, now, i) && (#[trigger] rows[i]).key@ == (
                #[trigger] delete[k]).key@,
        delete.len() <= rows.len(),
{
    let gone = prune::pruned_upto(rows, now, rows.len() as int);
    lemma_pruned_places(rows, now, rows.len() as int);
    if prune::pruned(rows, now, at) {
        assert(gone.contains(at));
        let k = gone.index_of(at);
        assert(prune::same_row(delete[k], rows[gone[k]]));
    }
    assert forall|k: int| 0 <= k < delete.len() implies exists|i: int|
        0 <= i < rows.len() && prune::pruned(rows, now, i) && (#[trigger] rows[i]).key@ == (
        #[trigger] delete[k]).key@ by {
        assert(prune::same_row(delete[k], rows[gone[k]]));
        assert(gone.contains(gone[k]));
        assert(rows[gone[k]].key@ == delete[k].key@);
    }
    lemma_pruned_length(rows, now, rows.len() as int);
}

proof fn lemma_pruned_length(rows: Seq<AgentTaskRow>, now: u64, end: int)
    requires
        0 <= end,
    ensures
        prune::pruned_upto(rows, now, end).len() <= end,
    decreases end,
{
    if end > 0 {
        lemma_pruned_length(rows, now, end - 1);
    }
}

/// The total counts every batch, up to the greatest number there is.
pub proof fn law_deleted_rows_add_up(total: usize, batch: nat)
    ensures
        total + batch <= usize::MAX ==> prune::total_after(total, batch) == total + batch,
        total + batch > usize::MAX ==> prune::total_after(total, batch) == usize::MAX,
{
}

/// A row stands for its task under its key and revision.
pub proof fn law_rows_are_read_under_their_key(row: StoredTaskRow, read: AgentTaskRow)
    ensures
        prune::reads_as(row, read) <==> read.key@ == vstd::utf8::encode_utf8(row.key@)
            && read.revision_sha256 == row.revision_sha256 && store::row_reading(row) == Ok::<
            Option<TaskView>,
            TaskError,
        >(Some(read.task@)),
{
}

/// Finished tasks are deleted in batches of at most 512, and the rows of the queue stand apart
/// from the rows of its tasks.
pub proof fn law_limits_of_the_queue(task_id: Seq<char>)
    ensures
        model::DELETE_BATCH_ROWS == 512,
        model::TASK_SEQUENCE_KEY@ == "agent-task/v1/meta/last_enqueue_seq"@,
        model::TASK_QUEUE_STATE_KEY@ == "agent-task/v2/meta/queue_state"@,
        validate::task_key_spec(task_id) == "agent-task/v1/task/"@ + task_id,
        validate::task_key_spec(task_id) != model::TASK_SEQUENCE_KEY@,
        validate::task_key_spec(task_id) != model::TASK_QUEUE_STATE_KEY@,
        model::DASHBOARD_TASK_DISPATCH_WAIT_TIMEOUT_MS == 600_000,
        model::MAX_DISPATCH_WAIT_TIMEOUT_MS == 1_800_000,
        model::TASK_DISPATCH_RESERVATION_MIN_LEASE_MS
            == model::DASHBOARD_TASK_DISPATCH_WAIT_TIMEOUT_MS
            + model::TASK_DISPATCH_RESERVATION_GRACE_MS,
        model::TASK_DISPATCH_RESERVATION_GRACE_MS == 300_000,
{
    reveal_strlit("agent-task/v1/task/");
    reveal_strlit("agent-task/v1/meta/last_enqueue_seq");
    reveal_strlit("agent-task/v2/meta/queue_state");
    let key = "agent-task/v1/task/"@ + task_id;
    assert(key[14] == 't');
    assert(model::TASK_SEQUENCE_KEY@[14] == 'm');
    assert(model::TASK_QUEUE_STATE_KEY@[14] == 'm');
}

} // verus!
