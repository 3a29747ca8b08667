//! The stored queue as it is read: its coordination row, its sequence
//! watermark, its task rows, and the guarded commits that change them.
use crate::digest;
use crate::tasks::dispatch;
use crate::tasks::errors::TaskError;
use crate::tasks::laws;
use crate::tasks::model::{
    AgentTask, AgentTaskRow, RevisionedTaskQueueState, RevisionedTaskSequence,
    TASK_CREATE_MAX_CONFLICT_RETRIES, TASK_QUEUE_STATE_KEY, TASK_QUEUE_STATE_SCHEMA_VERSION,
    TASK_SCHEMA_VERSION, TASK_SEQUENCE_KEY, TaskMutationResponse, TaskQueueState, TaskRowReadback,
    TaskView,
};
use crate::tasks::validate;
use crate::tasks::validate::{check_task_row, task_key};
use crate::text;
use vstd::prelude::*;
use vstd::string::*;
use vstd::utf8::*;

verus! {

/// What a stored task row decodes to.
#[derive(Debug)]
pub enum StoredTask {
    /// The row is a physical envelope without a live value.
    Expired,
    /// The bytes are no task.
    Undecodable,
    Decoded(AgentTask),
}

/// A task row as it is stored.
#[derive(Debug)]
pub struct StoredTaskRow {
    pub key: String,
    pub revision_sha256: [u8; 32],
    pub value_len_bytes: u64,
    pub value: StoredTask,
}

/// The coordination row as it is stored.
#[derive(Clone, Copy, Debug)]
pub enum StoredQueueState {
    Absent,
    Expired { revision_sha256: [u8; 32] },
    Undecodable { revision_sha256: [u8; 32] },
    Decoded { state: TaskQueueState, revision_sha256: [u8; 32] },
}

/// The sequence watermark as it is stored.
#[derive(Debug)]
pub enum StoredSequence {
    Absent,
    Expired { revision_sha256: [u8; 32] },
    Present { value: Vec<u8>, revision_sha256: [u8; 32] },
}

/// The revision that a key must still have for a commit to take effect.
#[derive(Debug)]
pub struct RevisionGuard {
    pub key: String,
    /// `None` demands that the key is absent.
    pub revision_sha256: Option<[u8; 32]>,
}

/// What a store said of a guarded commit.
#[derive(Clone, Copy, Debug, PartialEq, Eq)]
pub enum CommitOutcome {
    Applied { committed_seq: u64 },
    /// A guard did not hold: nothing was written.
    Conflict,
    /// The commit failed with the store's own code, and may or may not have taken
    /// effect.
    Failed { code: &'static str },
}

/// The key of the coordination row.
pub open spec fn queue_state_key() -> Seq<char> {
    TASK_QUEUE_STATE_KEY@
}

/// The key of the sequence watermark.
pub open spec fn sequence_key() -> Seq<char> {
    TASK_SEQUENCE_KEY@
}

/// A guard, its key taken as characters.
pub open spec fn guards_key(guard: RevisionGuard, key: Seq<char>, revision: Option<[u8; 32]>) -> bool {
    guard.key@ == key && guard.revision_sha256 == revision
}

/// How the coordination row reads.
pub open spec fn queue_reading(stored: StoredQueueState) -> Result<
    Option<RevisionedTaskQueueState>,
    TaskError,
> {
    match stored {
        StoredQueueState::Absent => Ok(None),
        StoredQueueState::Expired { .. } => Err(TaskError::QueueStateExpired),
        StoredQueueState::Undecodable { .. } => Err(TaskError::QueueStateUndecodable),
        StoredQueueState::Decoded { state, revision_sha256 } => if state.schema_version
            != TASK_QUEUE_STATE_SCHEMA_VERSION {
            Err(TaskError::QueueStateVersionInvalid)
        } else {
            Ok(Some(RevisionedTaskQueueState { state, revision_sha256 }))
        },
    }
}

/// Reads the coordination row: absent, current, or refused.
pub fn read_task_queue_state_revisioned(stored: &StoredQueueState) -> (reading: Result<
    Option<RevisionedTaskQueueState>,
    TaskError,
>)
    ensures
        reading == queue_reading(*stored),
{
    match stored {
        StoredQueueState::Absent => Ok(None),
        StoredQueueState::Expired { .. } => Err(TaskError::QueueStateExpired),
        StoredQueueState::Undecodable { .. } => Err(TaskError::QueueStateUndecodable),
        StoredQueueState::Decoded { state, revision_sha256 } => {
            if state.schema_version != TASK_QUEUE_STATE_SCHEMA_VERSION {
                return Err(TaskError::QueueStateVersionInvalid);
            }
            Ok(Some(RevisionedTaskQueueState { state: *state, revision_sha256: *revision_sha256 }))
        },
    }
}

/// The coordination row after one more mutation.
pub open spec fn next_queue(current: TaskQueueState, now: u64) -> Result<
    TaskQueueState,
    TaskError,
> {
    if current.mutation_generation == u64::MAX {
        Err(TaskError::QueueGenerationExhausted)
    } else {
        Ok(
            TaskQueueState {
                schema_version: TASK_QUEUE_STATE_SCHEMA_VERSION,
                mutation_generation: (current.mutation_generation + 1) as u64,
                updated_unix_ms: now,
            },
        )
    }
}

/// The coordination row after one more mutation: the generation grows by one.
pub fn next_task_queue_state(current: &TaskQueueState, now: u64) -> (next: Result<
    TaskQueueState,
    TaskError,
>)
    ensures
        next == next_queue(*current, now),
{
    match current.mutation_generation.checked_add(1) {
        Some(mutation_generation) => Ok(
            TaskQueueState {
                schema_version: TASK_QUEUE_STATE_SCHEMA_VERSION,
                mutation_generation,
                updated_unix_ms: now,
            },
        ),
        None => Err(TaskError::QueueGenerationExhausted),
    }
}

/// What a watermark says: the number whose canonical decimal notation the
/// bytes are.
pub open spec fn watermark(bytes: Seq<u8>) -> Option<u64> {
    if exists|value: u64| #[trigger] encode_utf8(text::decimal_text(value as nat)) == bytes {
        Some(choose|value: u64| #[trigger] encode_utf8(text::decimal_text(value as nat)) == bytes)
    } else {
        None
    }
}

proof fn lemma_watermark(bytes: Seq<u8>, value: u64)
    requires
        encode_utf8(text::decimal_text(value as nat)) == bytes,
    ensures
        watermark(bytes) == Some(value),
{
    let other = choose|other: u64| #[trigger]
        encode_utf8(text::decimal_text(other as nat)) == bytes;
    encode_utf8_decode_utf8(text::decimal_text(value as nat));
    encode_utf8_decode_utf8(text::decimal_text(other as nat));
    text::law_decimal_round_trip(value as nat);
    text::law_decimal_round_trip(other as nat);
}

/// A watermark that was written reads back as the same number.
pub proof fn law_watermark_round_trip(value: u64)
    ensures
        watermark(encode_utf8(text::decimal_text(value as nat))) == Some(value),
{
    lemma_watermark(encode_utf8(text::decimal_text(value as nat)), value);
}

/// Reads a watermark: only the canonical decimal notation of a `u64` is one.
pub fn decode_enqueue_seq_watermark(value: &[u8]) -> (decoded: Result<u64, TaskError>)
    ensures
        decoded == match watermark(value@) {
            Some(number) => Ok::<u64, TaskError>(number),
            None => Err(TaskError::SequenceCorrupted),
        },
{
    proof {
        if watermark(value@) is Some {
            let number = watermark(value@)->0;
            encode_utf8_valid_utf8(text::decimal_text(number as nat));
        }
    }
    match text::utf8_text(value) {
        Err(_) => Err(TaskError::SequenceCorrupted),
        Ok(content) => match text::parse_canonical_decimal(content) {
            Some(number) => {
                proof {
                    lemma_watermark(value@, number);
                }
                Ok(number)
            },
            None => {
                proof {
                    if watermark(value@) is Some {
                        let number = watermark(value@)->0;
                        encode_utf8_decode_utf8(text::decimal_text(number as nat));
                        encode_utf8_decode_utf8(content@);
                    }
                }
                Err(TaskError::SequenceCorrupted)
            },
        },
    }
}

/// The bytes of a watermark.
pub fn encode_enqueue_seq_watermark(value: u64) -> (encoded: Vec<u8>)
    ensures
        encoded@ == encode_utf8(text::decimal_text(value as nat)),
        watermark(encoded@) == Some(value),
{
    proof {
        law_watermark_round_trip(value);
    }
    text::decimal(value).as_str().as_bytes_vec()
}

/// How the sequence watermark reads.
pub open spec fn sequence_reading(stored: StoredSequence) -> Result<
    Option<RevisionedTaskSequence>,
    TaskError,
> {
    match stored {
        StoredSequence::Absent => Ok(None),
        StoredSequence::Expired { .. } => Err(TaskError::SequenceExpired),
        StoredSequence::Present { value, revision_sha256 } => match watermark(value@) {
            Some(number) => Ok(Some(RevisionedTaskSequence { value: number, revision_sha256 })),
            None => Err(TaskError::SequenceCorrupted),
        },
    }
}

/// Reads the sequence watermark: absent, current, or refused.
pub fn read_enqueue_seq_watermark_revisioned(stored: &StoredSequence) -> (reading: Result<
    Option<RevisionedTaskSequence>,
    TaskError,
>)
    ensures
        reading == sequence_reading(*stored),
{
    match stored {
        StoredSequence::Absent => Ok(None),
        StoredSequence::Expired { .. } => Err(TaskError::SequenceExpired),
        StoredSequence::Present { value, revision_sha256 } => {
            match decode_enqueue_seq_watermark(value.as_slice()) {
                Ok(number) => Ok(
                    Some(
                        RevisionedTaskSequence { value: number, revision_sha256: *revision_sha256 },
                    ),
                ),
                Err(error) => Err(error),
            }
        },
    }
}

/// How one stored row reads: nothing where it holds no live value, else the
/// task, unless the row is refused.
pub open spec fn row_reading(row: StoredTaskRow) -> Result<Option<TaskView>, TaskError> {
    match row.value {
        StoredTask::Expired => Ok(None),
        StoredTask::Undecodable => Err(TaskError::RowUndecodable),
        StoredTask::Decoded(task) => match validate::decode_refusal(row.key@, task@) {
            Some(error) => Err(error),
            None => Ok(Some(task@)),
        },
    }
}

/// Reads one stored row.
pub fn read_row(row: &StoredTaskRow) -> (reading: Result<Option<&AgentTask>, TaskError>)
    ensures
        match reading {
            Ok(None) => row_reading(*row) == Ok::<Option<TaskView>, TaskError>(None),
            Ok(Some(task)) => row_reading(*row) == Ok::<Option<TaskView>, TaskError>(Some(task@)),
            Err(error) => row_reading(*row) == Err::<Option<TaskView>, TaskError>(error),
        },
{
    match &row.value {
        StoredTask::Expired => Ok(None),
        StoredTask::Undecodable => Err(TaskError::RowUndecodable),
        StoredTask::Decoded(task) => match check_task_row(row.key.as_str(), task) {
            Ok(()) => Ok(Some(task)),
            Err(error) => Err(error),
        },
    }
}

/// The tasks that a scan finds from position `from` on, after those in
/// `found`; the first row that is refused refuses the scan.
pub open spec fn scan_from(
    rows: Seq<StoredTaskRow>,
    from: int,
    found: Seq<TaskView>,
) -> Result<Seq<TaskView>, TaskError>
    decreases rows.len() - from,
{
    if from < 0 || from >= rows.len() {
        Ok(found)
    } else {
        match row_reading(rows[from]) {
            Err(error) => Err(error),
            Ok(None) => scan_from(rows, from + 1, found),
            Ok(Some(task)) => scan_from(rows, from + 1, found.push(task)),
        }
    }
}

/// Every live task, in key order; or the refusal of the first corrupt row.
pub open spec fn scan_spec(rows: Seq<StoredTaskRow>) -> Result<Seq<TaskView>, TaskError> {
    scan_from(rows, 0, Seq::<TaskView>::empty())
}

/// Decodes every live task row; a corrupt row is never skipped.
pub fn scan_task_values(rows: &Vec<StoredTaskRow>) -> (tasks: Result<Vec<AgentTask>, TaskError>)
    ensures
        match tasks {
            Ok(found) => scan_spec(rows@)
                == Ok::<Seq<TaskView>, TaskError>(dispatch::task_views(found@)),
            Err(error) => scan_spec(rows@) == Err::<Seq<TaskView>, TaskError>(error),
        },
{
    let mut found: Vec<AgentTask> = Vec::new();
    let mut index: usize = 0;
    assert(dispatch::task_views(found@) =~= Seq::<TaskView>::empty());
    while index < rows.len()
        invariant
            index <= rows@.len(),
            scan_spec(rows@) == scan_from(rows@, index as int, dispatch::task_views(found@)),
        decreases rows@.len() - index,
    {
        match read_row(&rows[index]) {
            Err(error) => {
                return Err(error);
            },
            Ok(None) => {},
            Ok(Some(task)) => {
                let before: Ghost<Seq<TaskView>> = Ghost(dispatch::task_views(found@));
                found.push(task.clone());
                assert(dispatch::task_views(found@) =~= before@.push(task@));
            },
        }
        index = index + 1;
    }
    Ok(found)
}

/// The position of the row with a key, from `from` on.
pub open spec fn find_key(rows: Seq<StoredTaskRow>, key: Seq<char>, from: int) -> Option<int>
    decreases rows.len() - from,
{
    if from < 0 || from >= rows.len() {
        None
    } else if rows[from].key@ == key {
        Some(from)
    } else {
        find_key(rows, key, from + 1)
    }
}

/// The position of the row with the key `key`.
pub fn find_row(rows: &Vec<StoredTaskRow>, key: &str) -> (found: Option<usize>)
    ensures
        found is Some == find_key(rows@, key@, 0) is Some,
        found matches Some(index) ==> index < rows@.len() && find_key(rows@, key@, 0) == Some(
            index as int,
        ) && rows@[index as int].key@ == key@,
{
    let mut index: usize = 0;
    while index < rows.len()
        invariant
            index <= rows@.len(),
            find_key(rows@, key@, 0) == find_key(rows@, key@, index as int),
        decreases rows@.len() - index,
    {
        if text::str_equal(rows[index].key.as_str(), key) {
            return Some(index);
        }
        index = index + 1;
    }
    None
}

/// How the row of one task reads: absent, a task, or refused. An expired row
/// is refused here, since its identity is taken.
pub open spec fn task_reading(rows: Seq<StoredTaskRow>, task_id: Seq<char>) -> Result<
    Option<TaskView>,
    TaskError,
> {
    match find_key(rows, validate::task_key_spec(task_id), 0) {
        None => Ok(None),
        Some(index) => match row_reading(rows[index]) {
            Ok(None) => Err(TaskError::RowExpired),
            other => other,
        },
    }
}

/// Reads the row of the task `task_id`.
pub fn read_task_row_revisioned(rows: &Vec<StoredTaskRow>, task_id: &str) -> (reading: Result<
    Option<AgentTaskRow>,
    TaskError,
>)
    ensures
        match reading {
            Ok(None) => task_reading(rows@, task_id@) == Ok::<Option<TaskView>, TaskError>(None),
            Ok(Some(row)) => {
                &&& task_reading(rows@, task_id@) == Ok::<Option<TaskView>, TaskError>(
                    Some(row.task@),
                )
                &&& row.key@ == encode_utf8(validate::task_key_spec(task_id@))
                &&& find_key(rows@, validate::task_key_spec(task_id@), 0) matches Some(index)
                    && row.revision_sha256 == rows@[index].revision_sha256
            },
            Err(error) => task_reading(rows@, task_id@) == Err::<Option<TaskView>, TaskError>(
                error,
            ),
        },
{
    let key = task_key(task_id);
    match find_row(rows, key.as_str()) {
        None => Ok(None),
        Some(index) => match read_row(&rows[index]) {
            Err(error) => Err(error),
            Ok(None) => Err(TaskError::RowExpired),
            Ok(Some(task)) => Ok(
                Some(
                    AgentTaskRow {
                        key: key.as_str().as_bytes_vec(),
                        revision_sha256: rows[index].revision_sha256,
                        task: task.clone(),
                    },
                ),
            ),
        },
    }
}

/// A row that reads has the identity that its key says.
pub proof fn law_rows_read_under_their_own_key(rows: Seq<StoredTaskRow>, task_id: Seq<char>)
    ensures
        task_reading(rows, task_id) matches Ok(Some(task)) ==> task.task_id == task_id
            && validate::task_valid(task) && task.enqueue_seq != 0 && task.schema_version
            == TASK_SCHEMA_VERSION,
{
    if let Some(index) = find_key(rows, validate::task_key_spec(task_id), 0) {
        lemma_find_key(rows, validate::task_key_spec(task_id), 0);
        let prefix = validate::task_prefix_spec();
        let key = validate::task_key_spec(task_id);
        assert(key.subrange(prefix.len() as int, key.len() as int) =~= task_id);
    }
}

/// Where a key is found, the row there has it, and no earlier row has.
pub proof fn lemma_find_key(rows: Seq<StoredTaskRow>, key: Seq<char>, from: int)
    requires
        0 <= from,
    ensures
        find_key(rows, key, from) matches Some(index) ==> from <= index < rows.len()
            && rows[index].key@ == key && (forall|i: int|
            from <= i < index ==> (#[trigger] rows[i]).key@ != key),
        find_key(rows, key, from) is None ==> forall|i: int|
            from <= i < rows.len() ==> (#[trigger] rows[i]).key@ != key,
    decreases rows.len() - from,
{
    if from < rows.len() && rows[from].key@ != key {
        lemma_find_key(rows, key, from + 1);
    }
}

/// The greatest value of a sequence, and zero where it is empty.
pub open spec fn max_of(values: Seq<u64>) -> u64
    decreases values.len(),
{
    if values.len() == 0 {
        0
    } else {
        let rest = max_of(values.drop_last());
        if rest < values.last() {
            values.last()
        } else {
            rest
        }
    }
}

/// No value exceeds the greatest.
pub proof fn lemma_max_bounds(values: Seq<u64>)
    ensures
        forall|i: int| 0 <= i < values.len() ==> #[trigger] values[i] <= max_of(values),
    decreases values.len(),
{
    if values.len() > 0 {
        let shorter = values.drop_last();
        lemma_max_bounds(shorter);
        assert forall|i: int| 0 <= i < values.len() implies #[trigger] values[i] <= max_of(
            values,
        ) by {
            if i < shorter.len() {
                assert(shorter[i] == values[i]);
            }
        }
    }
}

/// The greatest value is one of the values, where there are any.
pub proof fn lemma_max_attained(values: Seq<u64>)
    ensures
        max_of(values) == 0 || exists|i: int|
            0 <= i < values.len() && #[trigger] values[i] == max_of(values),
    decreases values.len(),
{
    if values.len() > 0 {
        let shorter = values.drop_last();
        lemma_max_attained(shorter);
        if max_of(values) != 0 {
            if max_of(shorter) < values.last() {
                assert(values[values.len() - 1] == max_of(values));
            } else {
                let i = choose|i: int| 0 <= i < shorter.len() && #[trigger] shorter[i] == max_of(
                    shorter,
                );
                assert(values[i] == max_of(values));
            }
        }
    }
}

/// The generations of a list of tasks.
pub open spec fn generations(tasks: Seq<TaskView>) -> Seq<u64> {
    tasks.map_values(|task: TaskView| task.mutation_generation)
}

/// The enqueue sequences of a list of tasks.
pub open spec fn sequences(tasks: Seq<TaskView>) -> Seq<u64> {
    tasks.map_values(|task: TaskView| task.enqueue_seq)
}

/// The greatest generation of a list of tasks.
pub fn max_generation(tasks: &Vec<AgentTask>) -> (max: u64)
    ensures
        max == max_of(generations(dispatch::task_views(tasks@))),
{
    let mut max: u64 = 0;
    let mut index: usize = 0;
    let all: Ghost<Seq<u64>> = Ghost(generations(dispatch::task_views(tasks@)));
    assert(all@.subrange(0, 0) =~= Seq::<u64>::empty());
    while index < tasks.len()
        invariant
            index <= tasks@.len(),
            all@ == generations(dispatch::task_views(tasks@)),
            max == max_of(all@.subrange(0, index as int)),
        decreases tasks@.len() - index,
    {
        proof {
            let longer = all@.subrange(0, index as int + 1);
            assert(longer.drop_last() =~= all@.subrange(0, index as int));
            assert(longer.last() == tasks@[index as int].mutation_generation);
        }
        if max < tasks[index].mutation_generation {
            max = tasks[index].mutation_generation;
        }
        index = index + 1;
    }
    assert(all@.subrange(0, all@.len() as int) =~= all@);
    max
}

/// The greatest enqueue sequence of a list of tasks.
pub fn max_sequence(tasks: &Vec<AgentTask>) -> (max: u64)
    ensures
        max == max_of(sequences(dispatch::task_views(tasks@))),
{
    let mut max: u64 = 0;
    let mut index: usize = 0;
    let all: Ghost<Seq<u64>> = Ghost(sequences(dispatch::task_views(tasks@)));
    assert(all@.subrange(0, 0) =~= Seq::<u64>::empty());
    while index < tasks.len()
        invariant
            index <= tasks@.len(),
            all@ == sequences(dispatch::task_views(tasks@)),
            max == max_of(all@.subrange(0, index as int)),
        decreases tasks@.len() - index,
    {
        proof {
            let longer = all@.subrange(0, index as int + 1);
            assert(longer.drop_last() =~= all@.subrange(0, index as int));
            assert(longer.last() == tasks@[index as int].enqueue_seq);
        }
        if max < tasks[index].enqueue_seq {
            max = tasks[index].enqueue_seq;
        }
        index = index + 1;
    }
    assert(all@.subrange(0, all@.len() as int) =~= all@);
    max
}

/// What to do after a conflicting commit: try again, up to a limit.
pub open spec fn retry_spec(retry: usize) -> Result<usize, TaskError> {
    if retry + 1 < TASK_CREATE_MAX_CONFLICT_RETRIES {
        Ok((retry + 1) as usize)
    } else {
        Err(TaskError::Contention)
    }
}

/// The number of the next try after the try `retry` met a conflict.
pub fn next_retry(retry: usize) -> (next: Result<usize, TaskError>)
    ensures
        next == retry_spec(retry),
{
    if retry < TASK_CREATE_MAX_CONFLICT_RETRIES - 1 {
        Ok(retry + 1)
    } else {
        Err(TaskError::Contention)
    }
}

/// Whether the coordination row can be used, or must be written first.
#[derive(Clone, Copy, Debug)]
pub enum QueueReadiness {
    Ready(RevisionedTaskQueueState),
    /// The row is absent: write this one, guarded by its absence.
    Initialize(TaskQueueState),
}

/// Finds the coordination row, or the one to begin with: its generation is the
/// greatest of all rows, every one of which must decode.
pub fn initialize_task_queue_state(
    stored: &StoredQueueState,
    rows: &Vec<StoredTaskRow>,
    now: u64,
) -> (readiness: Result<QueueReadiness, TaskError>)
    ensures
        match queue_reading(*stored) {
            Err(error) => readiness == Err::<QueueReadiness, TaskError>(error),
            Ok(Some(current)) => readiness == Ok::<QueueReadiness, TaskError>(
                QueueReadiness::Ready(current),
            ),
            Ok(None) => match scan_spec(rows@) {
                Err(error) => readiness == Err::<QueueReadiness, TaskError>(error),
                Ok(tasks) => readiness == Ok::<QueueReadiness, TaskError>(
                    QueueReadiness::Initialize(
                        TaskQueueState {
                            schema_version: TASK_QUEUE_STATE_SCHEMA_VERSION,
                            mutation_generation: max_of(generations(tasks)),
                            updated_unix_ms: now,
                        },
                    ),
                ),
            },
        },
{
    match read_task_queue_state_revisioned(stored) {
        Err(error) => Err(error),
        Ok(Some(current)) => Ok(QueueReadiness::Ready(current)),
        Ok(None) => match scan_task_values(rows) {
            Err(error) => Err(error),
            Ok(tasks) => Ok(
                QueueReadiness::Initialize(
                    TaskQueueState {
                        schema_version: TASK_QUEUE_STATE_SCHEMA_VERSION,
                        mutation_generation: max_generation(&tasks),
                        updated_unix_ms: now,
                    },
                ),
            ),
        },
    }
}

/// What follows a commit that initialized a row.
#[derive(Debug)]
pub enum InitVerdict<T> {
    Ready(T),
    Retry(usize),
}

/// Decides what a commit that initialized the coordination row came to: the
/// separate readback must show exactly the row that was written.
pub fn settle_queue_state_init(
    written: &TaskQueueState,
    commit: CommitOutcome,
    readback: &StoredQueueState,
    retry: usize,
) -> (verdict_of_init: Result<InitVerdict<RevisionedTaskQueueState>, TaskError>)
    ensures
        match commit {
            CommitOutcome::Conflict => match retry_spec(retry) {
                Ok(next) => verdict_of_init matches Ok(InitVerdict::Retry(again)) && again == next,
                Err(error) => verdict_of_init matches Err(given) && given == error,
            },
            CommitOutcome::Applied { .. } => match queue_reading(*readback) {
                Err(error) => verdict_of_init matches Err(given) && given == error,
                Ok(None) => verdict_of_init matches Err(given) && given
                    == TaskError::QueueStateMissing,
                Ok(Some(found)) => if found.state == *written {
                    verdict_of_init matches Ok(InitVerdict::Ready(ready)) && ready == found
                } else {
                    verdict_of_init matches Err(given) && given
                        == TaskError::QueueStateReadbackDrift
                },
            },
            CommitOutcome::Failed { code } => match queue_reading(*readback) {
                Err(error) => verdict_of_init matches Err(given) && given == error,
                Ok(Some(found)) => if found.state == *written {
                    verdict_of_init matches Ok(InitVerdict::Ready(ready)) && ready == found
                } else {
                    verdict_of_init matches Err(given) && given
                        == (TaskError::QueueStateCommitAmbiguous { code })
                },
                Ok(None) => verdict_of_init matches Err(given) && given
                    == (TaskError::QueueStateCommitAmbiguous { code }),
            },
        },
{
    match commit {
        CommitOutcome::Conflict => match next_retry(retry) {
            Ok(next) => Ok(InitVerdict::Retry(next)),
            Err(error) => Err(error),
        },
        CommitOutcome::Applied { .. } => match read_task_queue_state_revisioned(readback) {
            Err(error) => Err(error),
            Ok(None) => Err(TaskError::QueueStateMissing),
            Ok(Some(found)) => if found.state == *written {
                Ok(InitVerdict::Ready(found))
            } else {
                Err(TaskError::QueueStateReadbackDrift)
            },
        },
        CommitOutcome::Failed { code } => match read_task_queue_state_revisioned(readback) {
            Err(error) => Err(error),
            Ok(Some(found)) => if found.state == *written {
                Ok(InitVerdict::Ready(found))
            } else {
                Err(TaskError::QueueStateCommitAmbiguous { code })
            },
            Ok(None) => Err(TaskError::QueueStateCommitAmbiguous { code }),
        },
    }
}

/// Whether the watermark can be used, or must be written first.
#[derive(Clone, Copy, Debug)]
pub enum SequenceReadiness {
    Ready(RevisionedTaskSequence),
    /// The watermark is absent: write this one, guarded by its absence.
    Initialize(u64),
}

/// Finds the watermark, or the one to begin with: the greatest enqueue
/// sequence of all rows, every one of which must decode.
pub fn initialize_enqueue_seq_watermark(
    stored: &StoredSequence,
    rows: &Vec<StoredTaskRow>,
) -> (readiness: Result<SequenceReadiness, TaskError>)
    ensures
        match sequence_reading(*stored) {
            Err(error) => readiness == Err::<SequenceReadiness, TaskError>(error),
            Ok(Some(current)) => readiness == Ok::<SequenceReadiness, TaskError>(
                SequenceReadiness::Ready(current),
            ),
            Ok(None) => match scan_spec(rows@) {
                Err(error) => readiness == Err::<SequenceReadiness, TaskError>(error),
                Ok(tasks) => readiness == Ok::<SequenceReadiness, TaskError>(
                    SequenceReadiness::Initialize(max_of(sequences(tasks))),
                ),
            },
        },
{
    match read_enqueue_seq_watermark_revisioned(stored) {
        Err(error) => Err(error),
        Ok(Some(current)) => Ok(SequenceReadiness::Ready(current)),
        Ok(None) => match scan_task_values(rows) {
            Err(error) => Err(error),
            Ok(tasks) => Ok(SequenceReadiness::Initialize(max_sequence(&tasks))),
        },
    }
}

/// Decides what a commit that initialized the watermark came to.
pub fn settle_sequence_init(
    written: u64,
    commit: CommitOutcome,
    readback: &StoredSequence,
    retry: usize,
) -> (verdict_of_init: Result<InitVerdict<RevisionedTaskSequence>, TaskError>)
    ensures
        match commit {
            CommitOutcome::Conflict => match retry_spec(retry) {
                Ok(next) => verdict_of_init matches Ok(InitVerdict::Retry(again)) && again == next,
                Err(error) => verdict_of_init matches Err(given) && given == error,
            },
            CommitOutcome::Applied { .. } => match sequence_reading(*readback) {
                Err(error) => verdict_of_init matches Err(given) && given == error,
                Ok(None) => verdict_of_init matches Err(given) && given
                    == TaskError::SequenceMissing,
                Ok(Some(found)) => if found.value == written {
                    verdict_of_init matches Ok(InitVerdict::Ready(ready)) && ready == found
                } else {
                    verdict_of_init matches Err(given) && given
                        == TaskError::SequenceReadbackDrift
                },
            },
            CommitOutcome::Failed { code } => verdict_of_init matches Err(given) && given
                == (TaskError::QueueStateCommitAmbiguous { code }),
        },
{
    match commit {
        CommitOutcome::Conflict => match next_retry(retry) {
            Ok(next) => Ok(InitVerdict::Retry(next)),
            Err(error) => Err(error),
        },
        CommitOutcome::Applied { .. } => match read_enqueue_seq_watermark_revisioned(readback) {
            Err(error) => Err(error),
            Ok(None) => Err(TaskError::SequenceMissing),
            Ok(Some(found)) => if found.value == written {
                Ok(InitVerdict::Ready(found))
            } else {
                Err(TaskError::SequenceReadbackDrift)
            },
        },
        CommitOutcome::Failed { code } => Err(TaskError::QueueStateCommitAmbiguous { code }),
    }
}

/// What a scan between two reads of the coordination row came to.
#[derive(Debug)]
pub enum SnapshotVerdict {
    /// Nothing changed in between: these tasks belong to this generation.
    Stable { queue: RevisionedTaskQueueState, tasks: Vec<AgentTask> },
    Retry(usize),
}

/// Some row claims a generation that the queue has not reached.
pub open spec fn generation_drift(tasks: Seq<TaskView>, generation: u64) -> bool {
    exists|i: int|
        0 <= i < tasks.len() && (#[trigger] tasks[i]).mutation_generation > generation
}

fn has_generation_drift(tasks: &Vec<AgentTask>, generation: u64) -> (drift: bool)
    ensures
        drift == generation_drift(dispatch::task_views(tasks@), generation),
{
    let mut index: usize = 0;
    while index < tasks.len()
        invariant
            index <= tasks@.len(),
            forall|i: int|
                0 <= i < index ==> (#[trigger] dispatch::task_views(tasks@)[i]).mutation_generation
                    <= generation,
        decreases tasks@.len() - index,
    {
        assert(dispatch::task_views(tasks@)[index as int] == tasks@[index as int]@);
        if tasks[index].mutation_generation > generation {
            return true;
        }
        index = index + 1;
    }
    false
}

/// Decides whether a scan is a coherent snapshot: no row may have changed under
/// it (`rows_unchanged`), the coordination row must be the same before and
/// after, and no row may be ahead of it.
pub fn stable_task_snapshot(
    before: &RevisionedTaskQueueState,
    rows: &Vec<StoredTaskRow>,
    rows_unchanged: bool,
    after: &StoredQueueState,
    retry: usize,
) -> (verdict_of_scan: Result<SnapshotVerdict, TaskError>)
    ensures
        match (scan_spec(rows@), queue_reading(*after)) {
            (Err(error), _) => verdict_of_scan matches Err(given) && given == error,
            (Ok(_), Err(error)) => verdict_of_scan matches Err(given) && given == error,
            (Ok(_), Ok(None)) => verdict_of_scan matches Err(given) && given
                == TaskError::QueueStateMissing,
            (Ok(tasks), Ok(Some(current))) => if !rows_unchanged || before.revision_sha256@
                != current.revision_sha256@ {
                match retry_spec(retry) {
                    Ok(next) => verdict_of_scan matches Ok(SnapshotVerdict::Retry(again)) && again
                        == next,
                    Err(error) => verdict_of_scan matches Err(given) && given == error,
                }
            } else if generation_drift(tasks, current.state.mutation_generation) {
                verdict_of_scan matches Err(given) && given == TaskError::QueueGenerationDrift
            } else {
                verdict_of_scan matches Ok(SnapshotVerdict::Stable { queue, tasks: found })
                    && queue == current && dispatch::task_views(found@) == tasks
            },
        },
{
    let tasks = match scan_task_values(rows) {
        Err(error) => {
            return Err(error);
        },
        Ok(found) => found,
    };
    let current = match read_task_queue_state_revisioned(after) {
        Err(error) => {
            return Err(error);
        },
        Ok(None) => {
            return Err(TaskError::QueueStateMissing);
        },
        Ok(Some(found)) => found,
    };
    if !rows_unchanged || !digest::digests_equal(
        &before.revision_sha256,
        &current.revision_sha256,
    ) {
        return match next_retry(retry) {
            Ok(next) => Ok(SnapshotVerdict::Retry(next)),
            Err(error) => Err(error),
        };
    }
    if has_generation_drift(&tasks, current.state.mutation_generation) {
        return Err(TaskError::QueueGenerationDrift);
    }
    Ok(SnapshotVerdict::Stable { queue: current, tasks })
}

/// How the queue as a whole reads: every live task, unless the coordination row or a
/// task row is refused, or a row is ahead of the queue. An absent coordination row
/// holds no row back: it begins with the greatest generation of all.
pub open spec fn snapshot_reading(
    queue: StoredQueueState,
    rows: Seq<StoredTaskRow>,
) -> Result<Seq<TaskView>, TaskError> {
    match (queue_reading(queue), scan_spec(rows)) {
        (Err(error), _) => Err(error),
        (Ok(_), Err(error)) => Err(error),
        (Ok(None), Ok(tasks)) => Ok(tasks),
        (Ok(Some(current)), Ok(tasks)) => if generation_drift(
            tasks,
            current.state.mutation_generation,
        ) {
            Err(TaskError::QueueGenerationDrift)
        } else {
            Ok(tasks)
        },
    }
}

/// Reads every live task of a queue that no row is ahead of.
pub fn read_all_tasks(queue: &StoredQueueState, rows: &Vec<StoredTaskRow>) -> (tasks: Result<
    Vec<AgentTask>,
    TaskError,
>)
    ensures
        match tasks {
            Ok(found) => snapshot_reading(*queue, rows@)
                == Ok::<Seq<TaskView>, TaskError>(dispatch::task_views(found@)),
            Err(error) => snapshot_reading(*queue, rows@)
                == Err::<Seq<TaskView>, TaskError>(error),
        },
{
    let current = match read_task_queue_state_revisioned(queue) {
        Err(error) => {
            return Err(error);
        },
        Ok(found) => found,
    };
    let tasks = match scan_task_values(rows) {
        Err(error) => {
            return Err(error);
        },
        Ok(found) => found,
    };
    if let Some(found) = current {
        if has_generation_drift(&tasks, found.state.mutation_generation) {
            return Err(TaskError::QueueGenerationDrift);
        }
    }
    Ok(tasks)
}

/// How the queue reads under an audit, which every listing, preview and creation
/// begins with: no row may be ahead of the queue, nor use an enqueue sequence beyond
/// the watermark. An absent watermark begins with the greatest sequence of all.
pub open spec fn audit_reading(
    queue: StoredQueueState,
    sequence: StoredSequence,
    rows: Seq<StoredTaskRow>,
) -> Result<Seq<TaskView>, TaskError> {
    match (snapshot_reading(queue, rows), sequence_reading(sequence)) {
        (Err(error), _) => Err(error),
        (Ok(_), Err(error)) => Err(error),
        (Ok(tasks), Ok(None)) => Ok(tasks),
        (Ok(tasks), Ok(Some(current))) => if max_of(sequences(tasks)) > current.value {
            Err(TaskError::SequenceDrift)
        } else {
            Ok(tasks)
        },
    }
}

/// Reads every live task of a queue that passes its audit.
pub fn audit_tasks(
    queue: &StoredQueueState,
    sequence: &StoredSequence,
    rows: &Vec<StoredTaskRow>,
) -> (tasks: Result<Vec<AgentTask>, TaskError>)
    ensures
        match tasks {
            Ok(found) => audit_reading(*queue, *sequence, rows@)
                == Ok::<Seq<TaskView>, TaskError>(dispatch::task_views(found@)),
            Err(error) => audit_reading(*queue, *sequence, rows@)
                == Err::<Seq<TaskView>, TaskError>(error),
        },
{
    let tasks = match read_all_tasks(queue, rows) {
        Err(error) => {
            return Err(error);
        },
        Ok(found) => found,
    };
    match read_enqueue_seq_watermark_revisioned(sequence) {
        Err(error) => Err(error),
        Ok(None) => Ok(tasks),
        Ok(Some(current)) => {
            if max_sequence(&tasks) > current.value {
                return Err(TaskError::SequenceDrift);
            }
            Ok(tasks)
        },
    }
}

/// A row mutation that is ready to be committed: the stamped successor, the
/// coordination row that goes with it, and the revisions that both need.
#[derive(Debug)]
pub struct PreparedMutation {
    pub task: AgentTask,
    pub next_queue: TaskQueueState,
    pub guards: Vec<RevisionGuard>,
}

/// The guards of a row mutation: the coordination row first, then the task row.
pub open spec fn mutation_guards(
    guards: Seq<RevisionGuard>,
    queue: RevisionedTaskQueueState,
    row_key: Seq<char>,
    row_revision: [u8; 32],
) -> bool {
    &&& guards.len() == 2
    &&& guards_key(guards[0], queue_state_key(), Some(queue.revision_sha256))
    &&& guards_key(guards[1], row_key, Some(row_revision))
}

/// Why a successor row cannot be committed, if it cannot.
pub open spec fn successor_refusal(
    predecessor: TaskView,
    queue: TaskQueueState,
    successor: TaskView,
    now: u64,
) -> Option<TaskError> {
    if successor.task_id != predecessor.task_id || successor.schema_version
        != TASK_SCHEMA_VERSION {
        Some(TaskError::MutationIdentityInvalid)
    } else {
        match next_queue(queue, now) {
            Err(error) => Some(error),
            Ok(next) => validate::decode_refusal(
                validate::task_key_spec(predecessor.task_id),
                laws::stamped(successor, next.mutation_generation, now),
            ),
        }
    }
}

/// Prepares the commit of a successor row: it keeps the identity of its
/// predecessor, gets the next queue generation, and must be a valid row.
pub fn commit_guarded_task_successor(
    predecessor: &AgentTaskRow,
    queue: &RevisionedTaskQueueState,
    successor: AgentTask,
    now: u64,
) -> (prepared: Result<PreparedMutation, TaskError>)
    ensures
        match successor_refusal(predecessor.task@, queue.state, successor@, now) {
            Some(error) => prepared matches Err(given) && given == error,
            None => prepared matches Ok(mutation) && next_queue(queue.state, now) == Ok::<
                TaskQueueState,
                TaskError,
            >(mutation.next_queue) && mutation.task@ == laws::stamped(
                successor@,
                mutation.next_queue.mutation_generation,
                now,
            ) && mutation_guards(
                mutation.guards@,
                *queue,
                validate::task_key_spec(predecessor.task@.task_id),
                predecessor.revision_sha256,
            ),
        },
{
    if !text::str_equal(successor.task_id.as_str(), predecessor.task.task_id.as_str())
        || successor.schema_version != TASK_SCHEMA_VERSION {
        return Err(TaskError::MutationIdentityInvalid);
    }
    let next = match next_task_queue_state(&queue.state, now) {
        Err(error) => {
            return Err(error);
        },
        Ok(state) => state,
    };
    let mut task = successor;
    task.mutation_generation = next.mutation_generation;
    task.updated_unix_ms = now;
    let key = task_key(predecessor.task.task_id.as_str());
    if let Err(error) = check_task_row(key.as_str(), &task) {
        return Err(error);
    }
    let mut guards: Vec<RevisionGuard> = Vec::new();
    guards.push(
        RevisionGuard {
            key: TASK_QUEUE_STATE_KEY.to_owned(),
            revision_sha256: Some(queue.revision_sha256),
        },
    );
    guards.push(RevisionGuard { key, revision_sha256: Some(predecessor.revision_sha256) });
    Ok(PreparedMutation { task, next_queue: next, guards })
}

/// What a separate read found after a commit.
#[derive(Debug)]
pub struct MutationReadback {
    /// The bytes of the task row, if it is there.
    pub stored: Option<Vec<u8>>,
    /// What these bytes decode to.
    pub decoded: Option<AgentTask>,
    pub queue: StoredQueueState,
}

/// Why a readback does not prove that a successor is stored, if it does not.
pub open spec fn readback_refusal(
    readback: MutationReadback,
    task_id: Seq<char>,
    encoded: Seq<u8>,
    generation: u64,
) -> Option<TaskError> {
    match readback.stored {
        None => Some(TaskError::MutationReadbackMissing),
        Some(stored) => if stored@ != encoded {
            Some(TaskError::MutationReadbackDrift)
        } else {
            match readback.decoded {
                None => Some(TaskError::RowUndecodable),
                Some(task) => match validate::decode_refusal(validate::task_key_spec(task_id), task@) {
                    Some(error) => Some(error),
                    None => if task@.mutation_generation != generation {
                        Some(TaskError::MutationGenerationDrift)
                    } else {
                        match queue_reading(readback.queue) {
                            Err(error) => Some(error),
                            Ok(None) => Some(TaskError::QueueStateMissing),
                            Ok(Some(queue)) => if queue.state.mutation_generation < generation {
                                Some(TaskError::QueueGenerationRollback)
                            } else {
                                None
                            },
                        }
                    },
                },
            }
        },
    }
}

/// Checks that a separate read found exactly the committed successor, under a
/// queue generation that has reached it.
pub fn verify_guarded_task_successor(
    readback: &MutationReadback,
    task_id: &str,
    encoded_successor: &[u8],
    expected_generation: u64,
    cf_name: &str,
) -> (verified: Result<TaskRowReadback, TaskError>)
    ensures
        match readback_refusal(
            *readback,
            task_id@,
            encoded_successor@,
            expected_generation,
        ) {
            Some(error) => verified matches Err(given) && given == error,
            None => verified matches Ok(row) && row.cf_name@ == cf_name@ && row.row_key@
                == validate::task_key_spec(task_id@)
                    && row.value_len_bytes == encoded_successor@.len(),
        },
{
    let key = task_key(task_id);
    match &readback.stored {
        None => Err(TaskError::MutationReadbackMissing),
        Some(stored) => {
            if !text::bytes_equal(stored.as_slice(), encoded_successor) {
                return Err(TaskError::MutationReadbackDrift);
            }
            match &readback.decoded {
                None => Err(TaskError::RowUndecodable),
                Some(task) => {
                    if let Err(error) = check_task_row(key.as_str(), task) {
                        return Err(error);
                    }
                    if task.mutation_generation != expected_generation {
                        return Err(TaskError::MutationGenerationDrift);
                    }
                    match read_task_queue_state_revisioned(&readback.queue) {
                        Err(error) => Err(error),
                        Ok(None) => Err(TaskError::QueueStateMissing),
                        Ok(Some(queue)) => {
                            if queue.state.mutation_generation < expected_generation {
                                return Err(TaskError::QueueGenerationRollback);
                            }
                            Ok(
                                TaskRowReadback {
                                    cf_name: cf_name.to_owned(),
                                    row_key: key,
                                    value_len_bytes: stored.len() as u64,
                                },
                            )
                        },
                    }
                },
            }
        },
    }
}

/// What the commit of a mutation came to.
#[derive(Debug)]
pub enum MutationVerdict {
    Committed(TaskMutationResponse),
    /// Read everything anew and recompute the transition.
    Retry(usize),
}

/// Decides what the commit of a mutation came to. A conflict is retried; a
/// failed commit counts only where the readback proves it; an applied one must
/// be proved by the readback too.
pub fn settle_mutation(
    prepared: PreparedMutation,
    encoded: &[u8],
    commit: CommitOutcome,
    readback: &MutationReadback,
    cf_name: &str,
    retry: usize,
) -> (settled_as: Result<MutationVerdict, TaskError>)
    ensures
        ({
            let refusal = readback_refusal(
                *readback,
                prepared.task@.task_id,
                encoded@,
                prepared.next_queue.mutation_generation,
            );
            match commit {
                CommitOutcome::Conflict => match retry_spec(retry) {
                    Ok(next) => settled_as matches Ok(MutationVerdict::Retry(again)) && again
                        == next,
                    Err(error) => settled_as matches Err(given) && given == error,
                },
                _ => match refusal {
                    None => settled_as matches Ok(MutationVerdict::Committed(response))
                        && response.ok && response.task == prepared.task
                        && response.written_row.row_key@ == validate::task_key_spec(
                        prepared.task@.task_id,
                    ) && response.written_row.cf_name@ == cf_name@
                        && response.written_row.value_len_bytes == encoded@.len(),
                    Some(error) => settled_as matches Err(given) && given == (match commit {
                        CommitOutcome::Failed { code } => TaskError::MutationCommitAmbiguous {
                            code,
                        },
                        _ => error,
                    }),
                },
            }
        }),
{
    if matches!(commit, CommitOutcome::Conflict) {
        return match next_retry(retry) {
            Ok(next) => Ok(MutationVerdict::Retry(next)),
            Err(error) => Err(error),
        };
    }
    match verify_guarded_task_successor(
        readback,
        prepared.task.task_id.as_str(),
        encoded,
        prepared.next_queue.mutation_generation,
        cf_name,
    ) {
        Ok(written_row) => Ok(
            MutationVerdict::Committed(
                TaskMutationResponse { ok: true, task: prepared.task, written_row },
            ),
        ),
        Err(error) => {
            match commit {
                CommitOutcome::Failed { code } => Err(TaskError::MutationCommitAmbiguous { code }),
                _ => Err(error),
            }
        },
    }
}

/// Each commit moves the queue to a generation that no earlier commit had.
pub proof fn law_generations_grow(queue: TaskQueueState, now: u64)
    ensures
        next_queue(queue, now) matches Ok(next) ==> next.mutation_generation
            > queue.mutation_generation,
        next_queue(queue, now) is Err <==> queue.mutation_generation == u64::MAX,
{
}

} // verus!
