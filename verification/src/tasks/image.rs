//! Keeping an image of the store in step with the commits that it accepted.
use crate::tasks::create;
use crate::tasks::create::PreparedCreate;
use crate::tasks::errors::TaskError;
use crate::tasks::model::{
    RevisionedTaskSequence, TASK_QUEUE_STATE_SCHEMA_VERSION, TaskCreateParams, TaskQueueState,
    TaskView,
};
use crate::tasks::service::SynapseService;
use crate::tasks::store;
use crate::tasks::store::{
    PreparedMutation, StoredQueueState, StoredSequence, StoredTask, StoredTaskRow,
    encode_enqueue_seq_watermark, find_row,
};
use crate::tasks::validate;
use crate::tasks::validate::task_key;
use vstd::prelude::*;
use vstd::string::*;
use vstd::utf8::*;

verus! {

/// The row at a position reads, is not ahead of the queue generation, and uses
/// no enqueue sequence beyond the watermark.
pub open spec fn row_coherent(
    row: StoredTaskRow,
    queue: TaskQueueState,
    sequence: u64,
) -> bool {
    &&& store::row_reading(row) matches Ok(Some(task))
    &&& task.mutation_generation <= queue.mutation_generation
    &&& task.enqueue_seq <= sequence
}

/// The enqueue sequence of a decoded row.
pub open spec fn row_sequence(row: StoredTaskRow) -> u64 {
    match row.value {
        StoredTask::Decoded(task) => task@.enqueue_seq,
        _ => 0,
    }
}

/// Everything reads; no row is ahead of the queue or the watermark; no two
/// rows share a key or an enqueue sequence.
pub open spec fn coherent(service: SynapseService) -> bool {
    &&& store::queue_reading(service.queue) matches Ok(Some(queue))
    &&& store::sequence_reading(service.sequence) matches Ok(Some(sequence))
    &&& forall|i: int|
        0 <= i < service.rows@.len() ==> row_coherent(
            #[trigger] service.rows@[i],
            queue.state,
            sequence.value,
        )
    &&& forall|i: int, j: int|
        #![trigger service.rows@[i], service.rows@[j]]
        0 <= i < j < service.rows@.len() ==> service.rows@[i].key@ != service.rows@[j].key@
            && row_sequence(service.rows@[i]) != row_sequence(service.rows@[j])
}

/// The revisions that a store gave the rows of a commit.
#[derive(Clone, Copy, Debug)]
pub struct CommittedRevisions {
    pub queue_sha256: [u8; 32],
    pub sequence_sha256: [u8; 32],
    pub row_sha256: [u8; 32],
    pub value_len_bytes: u64,
}

proof fn lemma_find_unique(rows: Seq<StoredTaskRow>, key: Seq<char>, index: int, from: int)
    requires
        0 <= from <= index < rows.len(),
        rows[index].key@ == key,
        forall|i: int| from <= i < index ==> (#[trigger] rows[i]).key@ != key,
    ensures
        store::find_key(rows, key, from) == Some(index),
    decreases index - from,
{
    if from < index {
        assert(rows[from].key@ != key);
        lemma_find_unique(rows, key, index, from + 1);
    }
}

impl SynapseService {
    /// Takes an accepted creation into the image: the task is there, reads as
    /// it was created, and nothing else changed.
    pub fn record_create(&mut self, plan: PreparedCreate, revisions: CommittedRevisions)
        ensures
            final(self).queue == (StoredQueueState::Decoded {
                state: plan.next_queue,
                revision_sha256: revisions.queue_sha256,
            }),
            store::sequence_reading(final(self).sequence) == Ok::<
                Option<RevisionedTaskSequence>,
                TaskError,
            >(
                Some(
                    RevisionedTaskSequence {
                        value: plan.next_seq,
                        revision_sha256: revisions.sequence_sha256,
                    },
                ),
            ),
            final(self).rows@.len() == old(self).rows@.len() + 1,
            ({
                let row = final(self).rows@[old(self).rows@.len() as int];
                &&& row.key@ == validate::task_key_spec(plan.task@.task_id)
                &&& row.revision_sha256 == revisions.row_sha256
                &&& row.value_len_bytes == revisions.value_len_bytes
                &&& row.value == StoredTask::Decoded(plan.task)
            }),
            forall|i: int|
                0 <= i < old(self).rows@.len() ==> final(self).rows@[i] == #[trigger] old(
                    self,
                ).rows@[i],
            coherent(*old(self))
                && validate::row_valid(validate::task_key_spec(plan.task@.task_id), plan.task@)
                && store::task_reading(old(self).rows@, plan.task@.task_id) == Ok::<
                Option<TaskView>,
                TaskError,
            >(None) && plan.task@.enqueue_seq == plan.next_seq && plan.task@.mutation_generation
                == plan.next_queue.mutation_generation && plan.next_queue.schema_version
                == TASK_QUEUE_STATE_SCHEMA_VERSION
                    && (store::queue_reading(old(self).queue) matches Ok(
                Some(queue),
            ) && queue.state.mutation_generation < plan.next_queue.mutation_generation) && (
            store::sequence_reading(old(self).sequence) matches Ok(Some(sequence)) && sequence.value
                < plan.next_seq) ==> coherent(*final(self)) && store::task_reading(
                final(self).rows@,
                plan.task@.task_id,
            ) == Ok::<Option<TaskView>, TaskError>(Some(plan.task@)),
    {
        let key = task_key(plan.task.task_id.as_str());
        let encoded = encode_enqueue_seq_watermark(plan.next_seq);
        let before: Ghost<SynapseService> = Ghost(*self);
        let row = StoredTaskRow {
            key,
            revision_sha256: revisions.row_sha256,
            value_len_bytes: revisions.value_len_bytes,
            value: StoredTask::Decoded(plan.task),
        };
        self.queue = StoredQueueState::Decoded {
            state: plan.next_queue,
            revision_sha256: revisions.queue_sha256,
        };
        self.sequence = StoredSequence::Present {
            value: encoded,
            revision_sha256: revisions.sequence_sha256,
        };
        self.rows.push(row);
        proof {
            let last = before@.rows@.len() as int;
            if coherent(before@) && validate::row_valid(
                validate::task_key_spec(plan.task@.task_id),
                plan.task@,
            ) && store::task_reading(before@.rows@, plan.task@.task_id) == Ok::<
                Option<TaskView>,
                TaskError,
            >(None) && plan.task@.enqueue_seq == plan.next_seq && plan.task@.mutation_generation
                == plan.next_queue.mutation_generation && plan.next_queue.schema_version
                == TASK_QUEUE_STATE_SCHEMA_VERSION && (store::queue_reading(
                before@.queue,
            ) matches Ok(Some(queue)) && queue.state.mutation_generation
                < plan.next_queue.mutation_generation) && (store::sequence_reading(
                before@.sequence,
            ) matches Ok(Some(sequence)) && sequence.value < plan.next_seq) {
                let key_chars = validate::task_key_spec(plan.task@.task_id);
                store::lemma_find_key(before@.rows@, key_chars, 0);
                if store::find_key(before@.rows@, key_chars, 0) is Some {
                    let index = store::find_key(before@.rows@, key_chars, 0)->0;
                    assert(row_coherent(
                        before@.rows@[index],
                        store::queue_reading(before@.queue)->Ok_0->Some_0.state,
                        store::sequence_reading(before@.sequence)->Ok_0->Some_0.value,
                    ));
                    assert(false);
                }
                assert(forall|i: int|
                    0 <= i < last ==> (#[trigger] before@.rows@[i]).key@ != key_chars);
                assert forall|i: int| 0 <= i < self.rows@.len() implies row_coherent(
                    #[trigger] self.rows@[i],
                    plan.next_queue,
                    plan.next_seq,
                ) by {
                    if i < last {
                        assert(self.rows@[i] == before@.rows@[i]);
                        assert(row_coherent(
                            before@.rows@[i],
                            store::queue_reading(before@.queue)->Ok_0->Some_0.state,
                            store::sequence_reading(before@.sequence)->Ok_0->Some_0.value,
                        ));
                    }
                }
                assert forall|i: int, j: int|
                    #![trigger self.rows@[i], self.rows@[j]]
                    0 <= i < j < self.rows@.len() implies self.rows@[i].key@ != self.rows@[j].key@
                    && row_sequence(self.rows@[i]) != row_sequence(self.rows@[j]) by {
                    assert(self.rows@[i] == before@.rows@[i]);
                    if j < last {
                        assert(self.rows@[j] == before@.rows@[j]);
                    } else {
                        assert(row_coherent(
                            before@.rows@[i],
                            store::queue_reading(before@.queue)->Ok_0->Some_0.state,
                            store::sequence_reading(before@.sequence)->Ok_0->Some_0.value,
                        ));
                    }
                }
                assert forall|i: int| 0 <= i < last implies (#[trigger] self.rows@[i]).key@
                    != key_chars by {
                    assert(self.rows@[i] == before@.rows@[i]);
                }
                lemma_find_unique(self.rows@, key_chars, last, 0);
            }
        }
    }

    /// Takes an accepted mutation into the image: the row is the one that was
    /// written, and no other row changed. A row that the image does not hold is not
    /// added.
    pub fn record_mutation(&mut self, prepared: PreparedMutation, revisions: CommittedRevisions)
        ensures
            match store::find_key(
                old(self).rows@,
                validate::task_key_spec(prepared.task@.task_id),
                0,
            ) {
                Some(index) => {
                    let row = final(self).rows@[index];
                    &&& final(self).rows@.len() == old(self).rows@.len()
                    &&& row.key@ == validate::task_key_spec(prepared.task@.task_id)
                    &&& row.revision_sha256 == revisions.row_sha256
                    &&& row.value_len_bytes == revisions.value_len_bytes
                    &&& row.value == StoredTask::Decoded(prepared.task)
                    &&& forall|i: int|
                        0 <= i < old(self).rows@.len() && i != index ==> final(self).rows@[i]
                            == #[trigger] old(self).rows@[i]
                },
                None => final(self).rows@ == old(self).rows@,
            },
            final(self).sequence == old(self).sequence,
            final(self).queue == (StoredQueueState::Decoded {
                state: prepared.next_queue,
                revision_sha256: revisions.queue_sha256,
            }),
            coherent(*old(self)) && validate::row_valid(
                validate::task_key_spec(prepared.task@.task_id),
                prepared.task@,
            ) && prepared.task@.mutation_generation == prepared.next_queue.mutation_generation
                && prepared.next_queue.schema_version == TASK_QUEUE_STATE_SCHEMA_VERSION && (
            store::queue_reading(old(self).queue) matches Ok(Some(queue))
                && queue.state.mutation_generation < prepared.next_queue.mutation_generation) && (
            store::task_reading(old(self).rows@, prepared.task@.task_id) matches Ok(Some(before))
                && before.enqueue_seq == prepared.task@.enqueue_seq) ==> coherent(*final(self))
                && store::task_reading(final(self).rows@, prepared.task@.task_id) == Ok::<
                Option<TaskView>,
                TaskError,
            >(Some(prepared.task@)),
    {
        let key = task_key(prepared.task.task_id.as_str());
        let before: Ghost<SynapseService> = Ghost(*self);
        let next = prepared.next_queue;
        let task_view: Ghost<TaskView> = Ghost(prepared.task@);
        self.queue = StoredQueueState::Decoded {
            state: next,
            revision_sha256: revisions.queue_sha256,
        };
        match find_row(&self.rows, key.as_str()) {
            None => {},
            Some(index) => {
                let row = StoredTaskRow {
                    key,
                    revision_sha256: revisions.row_sha256,
                    value_len_bytes: revisions.value_len_bytes,
                    value: StoredTask::Decoded(prepared.task),
                };
                self.rows.set(index, row);
                proof {
                    if coherent(before@) && validate::row_valid(
                        validate::task_key_spec(task_view@.task_id),
                        task_view@,
                    ) && task_view@.mutation_generation == next.mutation_generation
                        && next.schema_version == TASK_QUEUE_STATE_SCHEMA_VERSION && (
                    store::queue_reading(before@.queue) matches Ok(Some(queue))
                        && queue.state.mutation_generation < next.mutation_generation) && (
                    store::task_reading(before@.rows@, task_view@.task_id) matches Ok(Some(old_task))
                        && old_task.enqueue_seq == task_view@.enqueue_seq) {
                        let key_chars = validate::task_key_spec(task_view@.task_id);
                        let sequence = store::sequence_reading(before@.sequence)->Ok_0->Some_0.value;
                        let old_state = store::queue_reading(before@.queue)->Ok_0->Some_0.state;
                        let at = index as int;
                        store::lemma_find_key(before@.rows@, key_chars, 0);
                        assert(row_coherent(before@.rows@[at], old_state, sequence));
                        assert(row_sequence(before@.rows@[at]) == task_view@.enqueue_seq);
                        assert forall|i: int| 0 <= i < self.rows@.len() implies row_coherent(
                            #[trigger] self.rows@[i],
                            next,
                            sequence,
                        ) by {
                            assert(row_coherent(before@.rows@[i], old_state, sequence));
                        }
                        assert forall|i: int, j: int|
                            #![trigger self.rows@[i], self.rows@[j]]
                            0 <= i < j < self.rows@.len() implies self.rows@[i].key@
                            != self.rows@[j].key@ && row_sequence(self.rows@[i])
                            != row_sequence(self.rows@[j]) by {
                            assert(before@.rows@[i].key@ != before@.rows@[j].key@);
                        }
                        assert forall|i: int| 0 <= i < at implies (#[trigger] self.rows@[i]).key@
                            != key_chars by {
                            assert(self.rows@[i] == before@.rows@[i]);
                        }
                        lemma_find_unique(self.rows@, key_chars, at, 0);
                    }
                }
            },
        }
    }
}

proof fn lemma_coherent_scan(
    rows: Seq<StoredTaskRow>,
    queue: TaskQueueState,
    sequence: u64,
    from: int,
    found: Seq<TaskView>,
)
    requires
        0 <= from,
        forall|i: int| 0 <= i < rows.len() ==> row_coherent(#[trigger] rows[i], queue, sequence),
        forall|i: int|
            0 <= i < found.len() ==> (#[trigger] found[i]).mutation_generation
                <= queue.mutation_generation && found[i].enqueue_seq <= sequence,
    ensures
        store::scan_from(rows, from, found) matches Ok(tasks) && forall|i: int|
            0 <= i < tasks.len() ==> (#[trigger] tasks[i]).mutation_generation
                <= queue.mutation_generation && tasks[i].enqueue_seq <= sequence,
    decreases rows.len() - from,
{
    if from < rows.len() {
        assert(row_coherent(rows[from], queue, sequence));
        let task = store::row_reading(rows[from])->Ok_0->Some_0;
        lemma_coherent_scan(rows, queue, sequence, from + 1, found.push(task));
    }
}

/// A coherent queue passes its audit: no operation is refused on account of rows that
/// are ahead of the queue or of the watermark.
pub proof fn law_coherent_queues_pass_the_audit(service: SynapseService)
    requires
        coherent(service),
    ensures
        store::snapshot_reading(service.queue, service.rows@) is Ok,
        store::audit_reading(service.queue, service.sequence, service.rows@) is Ok,
{
    let queue = store::queue_reading(service.queue)->Ok_0->Some_0.state;
    let sequence = store::sequence_reading(service.sequence)->Ok_0->Some_0.value;
    lemma_coherent_scan(service.rows@, queue, sequence, 0, Seq::<TaskView>::empty());
    let tasks = store::scan_spec(service.rows@)->Ok_0;
    store::lemma_max_attained(store::sequences(tasks));
}

/// What a creation promises of a coherent queue: the new row is valid under its
/// own key, its enqueue sequence is greater than any in use, and its
/// generation is greater than any row's.
pub proof fn law_created_tasks_are_last_in_line(
    service: SynapseService,
    params: TaskCreateParams,
    plan: PreparedCreate,
    now: u64,
    index: int,
)
    requires
        coherent(service),
        now != 0,
        create::create_refusal(params) is None,
        store::sequence_reading(service.sequence) matches Ok(Some(sequence)) && plan.next_seq
            == sequence.value + 1,
        store::queue_reading(service.queue) matches Ok(Some(queue))
            && store::next_queue(queue.state, now)
            == Ok::<TaskQueueState, TaskError>(plan.next_queue),
        plan.task@
            == create::created(params, plan.next_seq, plan.next_queue.mutation_generation, now),
        0 <= index < service.rows@.len(),
    ensures
        validate::row_valid(validate::task_key_spec(plan.task@.task_id), plan.task@),
        row_sequence(service.rows@[index]) < plan.task@.enqueue_seq,
        store::row_reading(service.rows@[index]) matches Ok(Some(task)) && task.mutation_generation
            < plan.task@.mutation_generation,
{
    create::law_created_rows_are_valid(params, plan.next_seq, plan.next_queue.mutation_generation, now);
    assert(row_coherent(
        service.rows@[index],
        store::queue_reading(service.queue)->Ok_0->Some_0.state,
        store::sequence_reading(service.sequence)->Ok_0->Some_0.value,
    ));
}

} // verus!
