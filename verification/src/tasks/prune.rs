//! Retention of finished tasks.
use crate::tasks::errors::TaskError;
use crate::tasks::model::{
    AgentTaskRow, DELETE_BATCH_ROWS, RevisionedTaskQueueState, TERMINAL_TASK_RETAIN_ROWS,
    TERMINAL_TASK_RETENTION_MS, TaskQueueState, TaskView,
};
use crate::tasks::service::SynapseService;
use crate::tasks::store;
use crate::tasks::store::{
    CommitOutcome, StoredQueueState, StoredTaskRow, audit_tasks, next_retry, next_task_queue_state,
    read_enqueue_seq_watermark_revisioned, read_row, read_task_queue_state_revisioned,
};
use crate::text;
use vstd::prelude::*;
use vstd::set_lib::*;
use vstd::string::*;
use vstd::utf8::*;

verus! {

/// Lexicographic order of byte strings.
pub open spec fn bytes_less(left: Seq<u8>, right: Seq<u8>) -> bool
    decreases left.len(),
{
    if right.len() == 0 {
        false
    } else if left.len() == 0 {
        true
    } else if left[0] != right[0] {
        left[0] < right[0]
    } else {
        bytes_less(left.subrange(1, left.len() as int), right.subrange(1, right.len() as int))
    }
}

/// Whether `left` comes before `right`.
pub fn is_bytes_less(left: &Vec<u8>, right: &Vec<u8>) -> (less: bool)
    ensures
        less == bytes_less(left@, right@),
{
    let mut index: usize = 0;
    assert(left@.subrange(0, left@.len() as int) =~= left@);
    assert(right@.subrange(0, right@.len() as int) =~= right@);
    loop
        invariant
            index <= left@.len(),
            index <= right@.len(),
            bytes_less(left@, right@) == bytes_less(
                left@.subrange(index as int, left@.len() as int),
                right@.subrange(index as int, right@.len() as int),
            ),
        decreases left@.len() - index,
    {
        if index >= right.len() {
            return false;
        }
        if index >= left.len() {
            return true;
        }
        let rest_left: Ghost<Seq<u8>> = Ghost(left@.subrange(index as int, left@.len() as int));
        let rest_right: Ghost<Seq<u8>> = Ghost(right@.subrange(index as int, right@.len() as int));
        proof {
            assert(rest_left@[0] == left@[index as int]);
            assert(rest_right@[0] == right@[index as int]);
            assert(rest_left@.subrange(1, rest_left@.len() as int) =~= left@.subrange(
                index as int + 1,
                left@.len() as int,
            ));
            assert(rest_right@.subrange(1, rest_right@.len() as int) =~= right@.subrange(
                index as int + 1,
                right@.len() as int,
            ));
        }
        if left[index] != right[index] {
            return left[index] < right[index];
        }
        index = index + 1;
    }
}

proof fn lemma_bytes_total(left: Seq<u8>, right: Seq<u8>)
    ensures
        left != right ==> bytes_less(left, right) || bytes_less(right, left),
        !(bytes_less(left, right) && bytes_less(right, left)),
        left == right ==> !bytes_less(left, right),
    decreases left.len(),
{
    if left.len() > 0 && right.len() > 0 && left[0] == right[0] {
        let l = left.subrange(1, left.len() as int);
        let r = right.subrange(1, right.len() as int);
        lemma_bytes_total(l, r);
        if l == r {
            assert(left =~= seq![left[0]] + l);
            assert(right =~= seq![right[0]] + r);
        }
    } else if left.len() == 0 && right.len() == 0 {
        assert(left =~= right);
    }
}

proof fn lemma_bytes_transitive(a: Seq<u8>, b: Seq<u8>, c: Seq<u8>)
    requires
        bytes_less(a, b),
        bytes_less(b, c),
    ensures
        bytes_less(a, c),
    decreases a.len(),
{
    if a.len() > 0 && a[0] == b[0] && b[0] == c[0] {
        lemma_bytes_transitive(
            a.subrange(1, a.len() as int),
            b.subrange(1, b.len() as int),
            c.subrange(1, c.len() as int),
        );
    }
}

/// Whether the row at a position is finished.
pub open spec fn finished(rows: Seq<AgentTaskRow>, index: int) -> bool {
    rows[index].task@.state.terminal()
}

/// Whether the row at `a` is older than the row at `b`: by the time of the
/// last change, then by key.
pub open spec fn older(rows: Seq<AgentTaskRow>, a: int, b: int) -> bool {
    if rows[a].task@.updated_unix_ms != rows[b].task@.updated_unix_ms {
        rows[a].task@.updated_unix_ms < rows[b].task@.updated_unix_ms
    } else if rows[a].key@ != rows[b].key@ {
        bytes_less(rows[a].key@, rows[b].key@)
    } else {
        a < b
    }
}

/// How many of the first `end` rows are finished.
pub open spec fn finished_upto(rows: Seq<AgentTaskRow>, end: int) -> nat
    decreases end,
{
    if end <= 0 {
        0
    } else {
        finished_upto(rows, end - 1) + if finished(rows, end - 1) {
            1nat
        } else {
            0nat
        }
    }
}

/// How many rows are finished.
pub open spec fn finished_count(rows: Seq<AgentTaskRow>) -> nat {
    finished_upto(rows, rows.len() as int)
}

/// How many of the first `end` rows are finished and older than a row.
pub open spec fn older_upto(rows: Seq<AgentTaskRow>, index: int, end: int) -> nat
    decreases end,
{
    if end <= 0 {
        0
    } else {
        older_upto(rows, index, end - 1) + if finished(rows, end - 1) && older(
            rows,
            end - 1,
            index,
        ) {
            1nat
        } else {
            0nat
        }
    }
}

/// How many finished rows are older than a row.
pub open spec fn age_rank(rows: Seq<AgentTaskRow>, index: int) -> nat {
    older_upto(rows, index, rows.len() as int)
}

/// Whether a finished row has outlived its retention.
pub open spec fn outlived(updated_unix_ms: u64, now: u64) -> bool {
    if updated_unix_ms + TERMINAL_TASK_RETENTION_MS > u64::MAX {
        now == u64::MAX
    } else {
        updated_unix_ms + TERMINAL_TASK_RETENTION_MS <= now
    }
}

/// Whether a row is pruned: it is finished, and has outlived its retention or
/// is among the oldest beyond the rows that are kept.
pub open spec fn pruned(rows: Seq<AgentTaskRow>, now: u64, index: int) -> bool {
    &&& finished(rows, index)
    &&& outlived(rows[index].task@.updated_unix_ms, now) || age_rank(rows, index)
        + TERMINAL_TASK_RETAIN_ROWS < finished_count(rows)
}

/// The positions of the pruned rows among the first `end`, ascending.
pub open spec fn pruned_upto(rows: Seq<AgentTaskRow>, now: u64, end: int) -> Seq<int>
    decreases end,
{
    if end <= 0 {
        Seq::empty()
    } else if pruned(rows, now, end - 1) {
        pruned_upto(rows, now, end - 1).push(end - 1)
    } else {
        pruned_upto(rows, now, end - 1)
    }
}

fn count_finished(rows: &Vec<AgentTaskRow>) -> (count: usize)
    ensures
        count == finished_count(rows@),
{
    let mut count: usize = 0;
    let mut index: usize = 0;
    while index < rows.len()
        invariant
            index <= rows@.len(),
            count == finished_upto(rows@, index as int),
            count <= index,
        decreases rows@.len() - index,
    {
        if rows[index].task.state.is_terminal() {
            count = count + 1;
        }
        index = index + 1;
    }
    count
}

fn count_older(rows: &Vec<AgentTaskRow>, row: usize) -> (count: usize)
    requires
        row < rows@.len(),
    ensures
        count == age_rank(rows@, row as int),
        count <= rows@.len(),
{
    let mut count: usize = 0;
    let mut index: usize = 0;
    while index < rows.len()
        invariant
            row < rows@.len(),
            index <= rows@.len(),
            count == older_upto(rows@, row as int, index as int),
            count <= index,
        decreases rows@.len() - index,
    {
        if rows[index].task.state.is_terminal() {
            let is_older = if rows[index].task.updated_unix_ms != rows[row].task.updated_unix_ms {
                rows[index].task.updated_unix_ms < rows[row].task.updated_unix_ms
            } else if !text::bytes_equal(rows[index].key.as_slice(), rows[row].key.as_slice()) {
                is_bytes_less(&rows[index].key, &rows[row].key)
            } else {
                index < row
            };
            if is_older {
                count = count + 1;
            }
        }
        index = index + 1;
    }
    count
}

/// A copy of a row.
pub fn copy_row(row: &AgentTaskRow) -> (copy: AgentTaskRow)
    ensures
        copy.key@ == row.key@,
        copy.revision_sha256 == row.revision_sha256,
        copy.task@ == row.task@,
{
    AgentTaskRow {
        key: row.key.clone(),
        revision_sha256: row.revision_sha256,
        task: row.task.clone(),
    }
}

/// The same row.
pub open spec fn same_row(left: AgentTaskRow, right: AgentTaskRow) -> bool {
    &&& left.key@ == right.key@
    &&& left.revision_sha256 == right.revision_sha256
    &&& left.task@ == right.task@
}

/// Picks the finished rows to delete, in row order: those that have outlived
/// their retention, and the oldest beyond the number that is kept.
pub fn terminal_task_rows_to_prune(now: u64, rows: &Vec<AgentTaskRow>) -> (delete: Vec<
    AgentTaskRow,
>)
    ensures
        deletes_pruned(delete@, rows@, now),
{
    let total: usize = count_finished(rows);
    let mut delete: Vec<AgentTaskRow> = Vec::new();
    let mut index: usize = 0;
    while index < rows.len()
        invariant
            index <= rows@.len(),
            total == finished_count(rows@),
            delete@.len() == pruned_upto(rows@, now, index as int).len(),
            forall|k: int|
                0 <= k < delete@.len() ==> same_row(
                    #[trigger] delete@[k],
                    rows@[pruned_upto(rows@, now, index as int)[k]],
                ),
        decreases rows@.len() - index,
    {
        if rows[index].task.state.is_terminal() {
            let due = rows[index].task.updated_unix_ms.saturating_add(TERMINAL_TASK_RETENTION_MS)
                <= now;
            let surplus = total > TERMINAL_TASK_RETAIN_ROWS && count_older(rows, index) < total
                - TERMINAL_TASK_RETAIN_ROWS;
            if due || surplus {
                let row = copy_row(&rows[index]);
                delete.push(row);
            }
        }
        index = index + 1;
    }
    delete
}

proof fn lemma_rank_below(rows: Seq<AgentTaskRow>, a: int, b: int, end: int)
    requires
        0 <= a < rows.len(),
        0 <= b < rows.len(),
        finished(rows, a),
        older(rows, a, b),
        0 <= end <= rows.len(),
    ensures
        older_upto(rows, a, end) + (if a < end {
            1nat
        } else {
            0nat
        }) <= older_upto(rows, b, end),
    decreases end,
{
    if end > 0 {
        lemma_rank_below(rows, a, b, end - 1);
        let j = end - 1;
        if older(rows, j, a) {
            lemma_older_transitive(rows, j, a, b);
        }
        if j == a {
            lemma_bytes_total(rows[a].key@, rows[a].key@);
        }
    }
}

proof fn lemma_older_transitive(rows: Seq<AgentTaskRow>, a: int, b: int, c: int)
    requires
        older(rows, a, b),
        older(rows, b, c),
    ensures
        older(rows, a, c),
{
    lemma_bytes_total(rows[a].key@, rows[b].key@);
    lemma_bytes_total(rows[b].key@, rows[c].key@);
    lemma_bytes_total(rows[a].key@, rows[c].key@);
    if bytes_less(rows[a].key@, rows[b].key@) && bytes_less(rows[b].key@, rows[c].key@) {
        lemma_bytes_transitive(rows[a].key@, rows[b].key@, rows[c].key@);
    }
}

proof fn lemma_rank_bound(rows: Seq<AgentTaskRow>, index: int, end: int)
    requires
        0 <= index < rows.len(),
        finished(rows, index),
        0 <= end <= rows.len(),
    ensures
        older_upto(rows, index, end) + (if index < end {
            1nat
        } else {
            0nat
        }) <= finished_upto(rows, end),
    decreases end,
{
    if end > 0 {
        lemma_rank_bound(rows, index, end - 1);
        lemma_bytes_total(rows[index].key@, rows[index].key@);
    }
}

/// The finished rows that a prune keeps.
pub open spec fn kept_finished(rows: Seq<AgentTaskRow>, now: u64) -> Set<int> {
    Set::new(|index: int| 0 <= index < rows.len() && finished(rows, index)
        && !pruned(rows, now, index))
}

/// A prune never deletes a task that is not finished.
pub proof fn law_only_finished_tasks_are_pruned(rows: Seq<AgentTaskRow>, now: u64, index: int)
    ensures
        pruned(rows, now, index) ==> rows[index].task@.state.terminal(),
{
}

/// A prune keeps no more finished rows than the retention limit.
pub proof fn law_retention_limit(rows: Seq<AgentTaskRow>, now: u64)
    ensures
        kept_finished(rows, now).finite(),
        kept_finished(rows, now).len() <= TERMINAL_TASK_RETAIN_ROWS,
{
    let kept = kept_finished(rows, now);
    let total = finished_count(rows) as int;
    let low = if total > TERMINAL_TASK_RETAIN_ROWS {
        total - TERMINAL_TASK_RETAIN_ROWS
    } else {
        0
    };
    let rank = |index: int| age_rank(rows, index) as int;
    let positions = set_int_range(0, rows.len() as int);
    lemma_int_range(0, rows.len() as int);
    assert(kept.subset_of(positions));
    lemma_len_subset(kept, positions);
    let image = kept.map(rank);
    assert forall|a: int, b: int|
        kept.contains(a) && kept.contains(b) && #[trigger] rank(a) == #[trigger] rank(
            b,
        ) implies a == b by {
        if a != b {
            lemma_bytes_total(rows[a].key@, rows[b].key@);
            if older(rows, a, b) {
                lemma_rank_below(rows, a, b, rows.len() as int);
            } else {
                assert(older(rows, b, a));
                lemma_rank_below(rows, b, a, rows.len() as int);
            }
        }
    }
    lemma_map_size(kept, image, rank);
    let range = set_int_range(low, total);
    if low <= total {
        lemma_int_range(low, total);
    }
    assert(image.subset_of(range)) by {
        assert forall|r: int| image.contains(r) implies range.contains(r) by {
            let index = choose|index: int| kept.contains(index) && rank(index) == r;
            lemma_rank_bound(rows, index, rows.len() as int);
            assert(!pruned(rows, now, index));
        }
    }
    lemma_len_subset(image, range);
}

/// The positions of the rows that hold a task among the first `end`, ascending.
pub open spec fn live_upto(rows: Seq<StoredTaskRow>, end: int) -> Seq<int>
    decreases end,
{
    if end <= 0 {
        Seq::empty()
    } else if store::row_reading(rows[end - 1]) matches Ok(Some(_)) {
        live_upto(rows, end - 1).push(end - 1)
    } else {
        live_upto(rows, end - 1)
    }
}

/// A stored row as it reads, under the bytes of its key and its revision.
pub open spec fn reads_as(row: StoredTaskRow, read: AgentTaskRow) -> bool {
    &&& read.key@ == encode_utf8(row.key@)
    &&& read.revision_sha256 == row.revision_sha256
    &&& store::row_reading(row) == Ok::<Option<TaskView>, TaskError>(Some(read.task@))
}

/// The first `end` stored rows that hold a task, in order, as they read.
pub open spec fn are_live_rows(live: Seq<AgentTaskRow>, rows: Seq<StoredTaskRow>, end: int) -> bool {
    &&& live.len() == live_upto(rows, end).len()
    &&& forall|k: int|
        0 <= k < live.len() ==> reads_as(rows[live_upto(rows, end)[k]], #[trigger] live[k])
}

fn live_task_rows(rows: &Vec<StoredTaskRow>) -> (live: Result<Vec<AgentTaskRow>, TaskError>)
    ensures
        match store::scan_spec(rows@) {
            Err(error) => live matches Err(given) && given == error,
            Ok(_) => live matches Ok(found) && are_live_rows(
                found@,
                rows@,
                rows@.len() as int,
            ),
        },
{
    let mut live: Vec<AgentTaskRow> = Vec::new();
    let mut index: usize = 0;
    let mut found: Ghost<Seq<TaskView>> = Ghost(Seq::empty());
    while index < rows.len()
        invariant
            index <= rows@.len(),
            store::scan_spec(rows@) == store::scan_from(rows@, index as int, found@),
            are_live_rows(live@, rows@, index as int),
        decreases rows@.len() - index,
    {
        match read_row(&rows[index]) {
            Err(error) => {
                return Err(error);
            },
            Ok(None) => {},
            Ok(Some(task)) => {
                proof {
                    found@ = found@.push(task@);
                }
                live.push(
                    AgentTaskRow {
                        key: rows[index].key.as_str().as_bytes_vec(),
                        revision_sha256: rows[index].revision_sha256,
                        task: task.clone(),
                    },
                );
            },
        }
        index = index + 1;
    }
    Ok(live)
}

/// `delete` are the rows that a prune deletes, in row order.
pub open spec fn deletes_pruned(
    delete: Seq<AgentTaskRow>,
    rows: Seq<AgentTaskRow>,
    now: u64,
) -> bool {
    &&& delete.len() == pruned_upto(rows, now, rows.len() as int).len()
    &&& forall|k: int|
        0 <= k < delete.len() ==> same_row(
            #[trigger] delete[k],
            rows[pruned_upto(rows, now, rows.len() as int)[k]],
        )
}

/// The rows that a prune deletes, and the coordination row that it begins with.
#[derive(Debug)]
pub struct PrunePlan {
    pub queue: RevisionedTaskQueueState,
    pub delete: Vec<AgentTaskRow>,
}

impl SynapseService {
    /// Plans the retention of finished tasks. A queue that does not pass its audit
    /// loses no row.
    pub fn prune_terminal_tasks(&self, now: u64) -> (plan: Result<PrunePlan, TaskError>)
        ensures
            match (
                store::audit_reading(self.queue, self.sequence, self.rows@),
                store::queue_reading(self.queue),
                store::sequence_reading(self.sequence),
            ) {
                (Err(error), _, _) => plan matches Err(given) && given == error,
                (Ok(_), Ok(Some(queue)), Ok(Some(_))) => {
                    &&& plan matches Ok(made)
                    &&& made.queue == queue
                    &&& exists|live: Seq<AgentTaskRow>| #[trigger]
                        are_live_rows(live, self.rows@, self.rows@.len() as int)
                            && deletes_pruned(made.delete@, live, now)
                },
                (Ok(_), Ok(Some(_)), _) => plan matches Err(given) && given
                    == TaskError::SequenceMissing,
                (Ok(_), _, _) => plan matches Err(given) && given == TaskError::QueueStateMissing,
            },
    {
        if let Err(error) = audit_tasks(&self.queue, &self.sequence, &self.rows) {
            return Err(error);
        }
        let queue = match read_task_queue_state_revisioned(&self.queue) {
            Err(error) => {
                return Err(error);
            },
            Ok(None) => {
                return Err(TaskError::QueueStateMissing);
            },
            Ok(Some(found)) => found,
        };
        match read_enqueue_seq_watermark_revisioned(&self.sequence) {
            Err(error) => {
                return Err(error);
            },
            Ok(None) => {
                return Err(TaskError::SequenceMissing);
            },
            Ok(Some(_)) => {},
        }
        match live_task_rows(&self.rows) {
            Err(error) => Err(error),
            Ok(rows) => {
                let delete = terminal_task_rows_to_prune(now, &rows);
                assert(are_live_rows(rows@, self.rows@, self.rows@.len() as int));
                assert(deletes_pruned(delete@, rows@, now));
                Ok(PrunePlan { queue, delete })
            },
        }
    }
}

/// One batch of deletions, with the coordination row that goes with it.
#[derive(Debug)]
pub struct PruneBatch {
    pub next_queue: TaskQueueState,
    /// The revision that the coordination row must still have.
    pub queue_revision_sha256: [u8; 32],
    /// The rows to delete, each guarded by its revision.
    pub rows: Vec<AgentTaskRow>,
}

/// Prepares the next batch of at most `DELETE_BATCH_ROWS` deletions, from
/// position `from` of the rows to delete.
pub fn prepare_prune_batch(
    delete: &Vec<AgentTaskRow>,
    from: usize,
    queue: &RevisionedTaskQueueState,
    now: u64,
) -> (batch: Result<PruneBatch, TaskError>)
    requires
        from <= delete@.len(),
    ensures
        match store::next_queue(queue.state, now) {
            Err(error) => batch matches Err(given) && given == error,
            Ok(next) => batch matches Ok(made) && made.next_queue == next
                && made.queue_revision_sha256 == queue.revision_sha256 && made.rows@.len() == (
            if delete@.len() - from <= DELETE_BATCH_ROWS {
                delete@.len() - from
            } else {
                DELETE_BATCH_ROWS as int
            }) && forall|k: int|
                0 <= k < made.rows@.len() ==> same_row(#[trigger] made.rows@[k], delete@[from + k]),
        },
{
    let next = match next_task_queue_state(&queue.state, now) {
        Err(error) => {
            return Err(error);
        },
        Ok(state) => state,
    };
    let count: usize = if delete.len() - from <= DELETE_BATCH_ROWS {
        delete.len() - from
    } else {
        DELETE_BATCH_ROWS
    };
    let mut rows: Vec<AgentTaskRow> = Vec::new();
    let mut index: usize = 0;
    while index < count
        invariant
            index <= count,
            from + count <= delete.len(),
            delete.len() == delete@.len(),
            rows@.len() == index,
            forall|k: int| 0 <= k < index ==> same_row(#[trigger] rows@[k], delete@[from + k]),
        decreases count - index,
    {
        let row = copy_row(&delete[from + index]);
        rows.push(row);
        index = index + 1;
    }
    Ok(
        PruneBatch { next_queue: next, queue_revision_sha256: queue.revision_sha256, rows },
    )
}

/// What the commit of a batch came to.
#[derive(Clone, Copy, Debug)]
pub enum PruneVerdict {
    /// The batch is gone: go on with this coordination row.
    Deleted { queue: RevisionedTaskQueueState, deleted_total: usize },
    /// A row changed: take a new snapshot and begin again.
    Restart(usize),
}

/// The total after one more batch.
pub open spec fn total_after(total: usize, batch: nat) -> usize {
    if total + batch > usize::MAX {
        usize::MAX
    } else {
        (total + batch) as usize
    }
}

/// Decides what the commit of a batch came to: deleted only where a separate
/// read finds every row gone and the queue generation reached.
pub fn settle_prune_batch(
    batch: &PruneBatch,
    commit: CommitOutcome,
    all_absent: bool,
    readback: &StoredQueueState,
    deleted_total: usize,
    retry: usize,
) -> (settled_as: Result<PruneVerdict, TaskError>)
    ensures
        match commit {
            CommitOutcome::Conflict => match store::retry_spec(retry) {
                Ok(next) => settled_as matches Ok(PruneVerdict::Restart(again)) && again == next,
                Err(error) => settled_as matches Err(given) && given == error,
            },
            CommitOutcome::Applied { .. } => if !all_absent {
                settled_as matches Err(given) && given == TaskError::RetentionReadbackPresent
            } else {
                match store::queue_reading(*readback) {
                    Err(error) => settled_as matches Err(given) && given == error,
                    Ok(None) => settled_as matches Err(given) && given
                        == TaskError::QueueStateMissing,
                    Ok(Some(found)) => if found.state.mutation_generation
                        < batch.next_queue.mutation_generation {
                        settled_as matches Err(given) && given
                            == TaskError::QueueGenerationRollback
                    } else {
                        settled_as matches Ok(PruneVerdict::Deleted { queue, deleted_total: sum })
                            && queue == found && sum == total_after(
                            deleted_total,
                            batch.rows@.len(),
                        )
                    },
                }
            },
            CommitOutcome::Failed { code } => match store::queue_reading(*readback) {
                Err(error) => settled_as matches Err(given) && given == error,
                Ok(None) => settled_as matches Err(given) && given
                    == (TaskError::RetentionCommitAmbiguous { code }),
                Ok(Some(found)) => if !all_absent || found.state.mutation_generation
                    < batch.next_queue.mutation_generation {
                    settled_as matches Err(given) && given == (TaskError::RetentionCommitAmbiguous {
                        code,
                    })
                } else {
                    settled_as matches Ok(PruneVerdict::Deleted { queue, deleted_total: sum })
                        && queue == found && sum == total_after(deleted_total, batch.rows@.len())
                },
            },
        },
{
    if matches!(commit, CommitOutcome::Conflict) {
        return match next_retry(retry) {
            Ok(next) => Ok(PruneVerdict::Restart(next)),
            Err(error) => Err(error),
        };
    }
    let failed: Option<&'static str> = match commit {
        CommitOutcome::Failed { code } => Some(code),
        _ => None,
    };
    if failed.is_none() && !all_absent {
        return Err(TaskError::RetentionReadbackPresent);
    }
    match read_task_queue_state_revisioned(readback) {
        Err(error) => Err(error),
        Ok(None) => match failed {
            Some(code) => Err(TaskError::RetentionCommitAmbiguous { code }),
            None => Err(TaskError::QueueStateMissing),
        },
        Ok(Some(found)) => {
            if !all_absent || found.state.mutation_generation
                < batch.next_queue.mutation_generation {
                return match failed {
                    Some(code) => Err(TaskError::RetentionCommitAmbiguous { code }),
                    None => Err(TaskError::QueueGenerationRollback),
                };
            }
            Ok(
                PruneVerdict::Deleted {
                    queue: found,
                    deleted_total: deleted_total.saturating_add(batch.rows.len()),
                },
            )
        },
    }
}

} // verus!
