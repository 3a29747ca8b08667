//! Explicit repairs of the queue's metadata and of one row.
use crate::digest;
use crate::tasks::errors::{TaskError, TextField};
use crate::tasks::model;
use crate::tasks::model::{
    AgentTask, MAX_TEXT_CHARS, RevisionedTaskQueueState, TASK_QUEUE_STATE_KEY,
    TASK_QUEUE_STATE_SCHEMA_VERSION, TASK_SCHEMA_VERSION, TASK_SEQUENCE_KEY, TaskAttempt,
    TaskQueueState, TaskQueueStateRepairParams, TaskQueueStateRepairResponse, TaskRowReadback,
    TaskRowRepairParams, TaskRowRepairResponse, TaskSequenceRepairParams,
    TaskSequenceRepairResponse, TaskView,
};
use crate::tasks::store;
use crate::tasks::store::{
    CommitOutcome, RevisionGuard, StoredQueueState, StoredSequence, StoredTask, StoredTaskRow,
    encode_enqueue_seq_watermark, find_row, max_generation, max_sequence, next_retry,
    next_task_queue_state, read_enqueue_seq_watermark_revisioned, read_row,
    read_task_queue_state_revisioned,
};
use crate::tasks::validate;
use crate::tasks::validate::{check_task_row, task_id_accepted, task_key, validate_text};
use crate::text;
use vstd::prelude::*;
use vstd::string::*;
use vstd::utf8::*;

verus! {

/// How many of the first `end` rows hold a live value.
pub open spec fn live_rows(rows: Seq<StoredTaskRow>, end: int) -> nat
    decreases end,
{
    if end <= 0 {
        0
    } else {
        live_rows(rows, end - 1) + if rows[end - 1].value is Expired {
            0nat
        } else {
            1nat
        }
    }
}

/// How many of the first `end` rows are too corrupt to be read.
pub open spec fn unreadable_rows(rows: Seq<StoredTaskRow>, end: int) -> nat
    decreases end,
{
    if end <= 0 {
        0
    } else {
        unreadable_rows(rows, end - 1) + if store::row_reading(rows[end - 1]) is Err {
            1nat
        } else {
            0nat
        }
    }
}

/// The tasks among the first `end` rows that can be read.
pub open spec fn readable_tasks(rows: Seq<StoredTaskRow>, end: int) -> Seq<TaskView>
    decreases end,
{
    if end <= 0 {
        Seq::empty()
    } else {
        match store::row_reading(rows[end - 1]) {
            Ok(Some(task)) => readable_tasks(rows, end - 1).push(task),
            _ => readable_tasks(rows, end - 1),
        }
    }
}

/// What a repair can see of the rows.
#[derive(Clone, Copy, Debug)]
pub struct RowSurvey {
    pub observed_rows: usize,
    pub unobservable_rows: usize,
    pub max_sequence: u64,
    pub max_generation: u64,
}

/// Surveys every row without trusting any: corrupt rows are counted, never
/// hidden.
pub fn survey_rows(rows: &Vec<StoredTaskRow>) -> (survey: RowSurvey)
    ensures
        survey.observed_rows == live_rows(rows@, rows@.len() as int),
        survey.unobservable_rows == unreadable_rows(rows@, rows@.len() as int),
        survey.max_sequence
            == store::max_of(store::sequences(readable_tasks(rows@, rows@.len() as int))),
        survey.max_generation
            == store::max_of(store::generations(readable_tasks(rows@, rows@.len() as int))),
{
    let mut survey = RowSurvey {
        observed_rows: 0,
        unobservable_rows: 0,
        max_sequence: 0,
        max_generation: 0,
    };
    let mut index: usize = 0;
    while index < rows.len()
        invariant
            index <= rows@.len(),
            survey.observed_rows == live_rows(rows@, index as int),
            survey.observed_rows <= index,
            survey.unobservable_rows == unreadable_rows(rows@, index as int),
            survey.unobservable_rows <= index,
            survey.max_sequence
                == store::max_of(store::sequences(readable_tasks(rows@, index as int))),
            survey.max_generation
                == store::max_of(store::generations(readable_tasks(rows@, index as int))),
        decreases rows@.len() - index,
    {
        let before: Ghost<Seq<TaskView>> = Ghost(readable_tasks(rows@, index as int));
        match &rows[index].value {
            StoredTask::Expired => {},
            _ => {
                survey.observed_rows = survey.observed_rows + 1;
            },
        }
        match read_row(&rows[index]) {
            Err(_) => {
                survey.unobservable_rows = survey.unobservable_rows + 1;
            },
            Ok(None) => {},
            Ok(Some(task)) => {
                proof {
                    let after = before@.push(task@);
                    assert(store::sequences(after).drop_last() =~= store::sequences(before@));
                    assert(store::generations(after).drop_last() =~= store::generations(before@));
                }
                if survey.max_sequence < task.enqueue_seq {
                    survey.max_sequence = task.enqueue_seq;
                }
                if survey.max_generation < task.mutation_generation {
                    survey.max_generation = task.mutation_generation;
                }
            },
        }
        index = index + 1;
    }
    survey
}

/// The greater of two numbers.
pub open spec fn greater(left: u64, right: u64) -> u64 {
    if left < right {
        right
    } else {
        left
    }
}

fn greater_of(left: u64, right: u64) -> (max: u64)
    ensures
        max == greater(left, right),
{
    if left < right {
        right
    } else {
        left
    }
}

/// Zero where nothing is known.
pub open spec fn known(value: Option<u64>) -> u64 {
    match value {
        Some(number) => number,
        None => 0,
    }
}

fn known_or_zero(value: Option<u64>) -> (number: u64)
    ensures
        number == known(value),
{
    match value {
        Some(known_value) => known_value,
        None => 0,
    }
}

/// Why a repair's audit reason is refused, if it is.
pub open spec fn reason_refusal(reason: Seq<char>) -> Option<TaskError> {
    if text::is_blank_spec(reason) {
        Some(TaskError::RepairReasonEmpty)
    } else if reason.len() > MAX_TEXT_CHARS {
        Some(TaskError::TextTooLong { field: TextField::RepairReason, max: MAX_TEXT_CHARS })
    } else {
        None
    }
}

fn check_reason(reason: &str) -> (checked: Result<(), TaskError>)
    ensures
        checked == validate::verdict(reason_refusal(reason@)),
{
    if text::is_blank(reason) {
        return Err(TaskError::RepairReasonEmpty);
    }
    validate_text(TextField::RepairReason, reason, MAX_TEXT_CHARS)
}

/// What the stored watermark says, if it can be read.
pub open spec fn previous_sequence(stored: StoredSequence) -> Option<u64> {
    match store::sequence_reading(stored) {
        Ok(Some(found)) => Some(found.value),
        _ => None,
    }
}

/// The revision of the stored watermark.
pub open spec fn sequence_revision(stored: StoredSequence) -> Option<[u8; 32]> {
    match stored {
        StoredSequence::Absent => None,
        StoredSequence::Expired { revision_sha256 } => Some(revision_sha256),
        StoredSequence::Present { revision_sha256, .. } => Some(revision_sha256),
    }
}

/// Why a watermark cannot be repaired as asked, if it cannot: what cannot be
/// seen needs an observed lower bound.
pub open spec fn sequence_repair_refusal(
    params: TaskSequenceRepairParams,
    stored: StoredSequence,
    rows: Seq<StoredTaskRow>,
) -> Option<TaskError> {
    let unreadable = unreadable_rows(rows, rows.len() as int);
    if reason_refusal(params.reason@) is Some {
        reason_refusal(params.reason@)
    } else if stored !is Absent && previous_sequence(stored) is None
        && params.minimum_last_enqueue_seq == 0 {
        Some(TaskError::RepairSequenceFloorRequired { unobservable_rows: 0 })
    } else if unreadable > 0 && params.minimum_last_enqueue_seq == 0 {
        Some(TaskError::RepairSequenceFloorRequired { unobservable_rows: unreadable as usize })
    } else {
        None
    }
}

/// The repaired watermark: the greatest of the observed lower bound, what the
/// rows use, and what the old watermark said.
pub open spec fn repaired_sequence(
    params: TaskSequenceRepairParams,
    stored: StoredSequence,
    rows: Seq<StoredTaskRow>,
) -> u64 {
    greater(
        greater(
            params.minimum_last_enqueue_seq,
            store::max_of(store::sequences(readable_tasks(rows, rows.len() as int))),
        ),
        known(previous_sequence(stored)),
    )
}

/// A watermark repair that is ready to be committed.
#[derive(Debug)]
pub struct PreparedSequenceRepair {
    pub survey: RowSurvey,
    pub previous_decodable_sequence: Option<u64>,
    pub requested_minimum_sequence: u64,
    pub repaired_sequence: u64,
    pub expected_revision_sha256: Option<[u8; 32]>,
}

/// Prepares the repair of the watermark.
pub fn prepare_sequence_repair(
    params: &TaskSequenceRepairParams,
    stored: &StoredSequence,
    rows: &Vec<StoredTaskRow>,
) -> (prepared: Result<PreparedSequenceRepair, TaskError>)
    ensures
        match sequence_repair_refusal(*params, *stored, rows@) {
            Some(error) => prepared matches Err(given) && given == error,
            None => prepared matches Ok(plan) && plan.repaired_sequence == repaired_sequence(
                *params,
                *stored,
                rows@,
            ) && plan.previous_decodable_sequence == previous_sequence(*stored)
                && plan.requested_minimum_sequence == params.minimum_last_enqueue_seq
                && plan.expected_revision_sha256 == sequence_revision(*stored)
                && plan.survey.observed_rows == live_rows(rows@, rows@.len() as int)
                && plan.survey.unobservable_rows == unreadable_rows(rows@, rows@.len() as int)
                && plan.survey.max_sequence == store::max_of(
                store::sequences(readable_tasks(rows@, rows@.len() as int)),
            ),
        },
{
    if let Err(error) = check_reason(params.reason.as_str()) {
        return Err(error);
    }
    let previous: Option<u64> = match read_enqueue_seq_watermark_revisioned(stored) {
        Ok(Some(found)) => Some(found.value),
        _ => None,
    };
    let (present, revision) = match stored {
        StoredSequence::Absent => (false, None),
        StoredSequence::Expired { revision_sha256 } => (true, Some(*revision_sha256)),
        StoredSequence::Present { revision_sha256, .. } => (true, Some(*revision_sha256)),
    };
    if present && previous.is_none() && params.minimum_last_enqueue_seq == 0 {
        return Err(TaskError::RepairSequenceFloorRequired { unobservable_rows: 0 });
    }
    let survey = survey_rows(rows);
    if survey.unobservable_rows > 0 && params.minimum_last_enqueue_seq == 0 {
        return Err(
            TaskError::RepairSequenceFloorRequired {
                unobservable_rows: survey.unobservable_rows,
            },
        );
    }
    let repaired: u64 = greater_of(
        greater_of(params.minimum_last_enqueue_seq, survey.max_sequence),
        known_or_zero(previous),
    );
    Ok(
        PreparedSequenceRepair {
            survey,
            previous_decodable_sequence: previous,
            requested_minimum_sequence: params.minimum_last_enqueue_seq,
            repaired_sequence: repaired,
            expected_revision_sha256: revision,
        },
    )
}

/// A repair never rewinds the watermark, nor below any sequence in use, nor
/// below the bound that the operator observed.
pub proof fn law_sequence_repair_never_rewinds(
    params: TaskSequenceRepairParams,
    stored: StoredSequence,
    rows: Seq<StoredTaskRow>,
    index: int,
)
    requires
        0 <= index < rows.len(),
    ensures
        repaired_sequence(params, stored, rows) >= params.minimum_last_enqueue_seq,
        previous_sequence(stored) matches Some(previous) ==> repaired_sequence(
            params,
            stored,
            rows,
        ) >= previous,
        store::row_reading(rows[index]) matches Ok(Some(task)) ==> repaired_sequence(
            params,
            stored,
            rows,
        ) >= task.enqueue_seq,
{
    let tasks = readable_tasks(rows, rows.len() as int);
    if let Ok(Some(task)) = store::row_reading(rows[index]) {
        lemma_readable(rows, index, rows.len() as int);
        let at = choose|k: int| 0 <= k < tasks.len() && tasks[k] == task;
        store::lemma_max_bounds(store::sequences(tasks));
        assert(store::sequences(tasks)[at] == task.enqueue_seq);
    }
}

proof fn lemma_readable(rows: Seq<StoredTaskRow>, index: int, end: int)
    requires
        0 <= index < end <= rows.len(),
        store::row_reading(rows[index]) matches Ok(Some(_)),
    ensures
        exists|k: int|
            0 <= k < readable_tasks(rows, end).len() && readable_tasks(rows, end)[k]
                == store::row_reading(rows[index])->Ok_0->Some_0,
    decreases end,
{
    let task = store::row_reading(rows[index])->Ok_0->Some_0;
    let all = readable_tasks(rows, end);
    if index == end - 1 {
        assert(all[all.len() - 1] == task);
    } else {
        lemma_readable(rows, index, end - 1);
        let before = readable_tasks(rows, end - 1);
        let k = choose|k: int| 0 <= k < before.len() && before[k] == task;
        assert(all[k] == task);
    }
}

/// What the commit of a watermark repair came to.
#[derive(Debug)]
pub enum SequenceRepairVerdict {
    Repaired(TaskSequenceRepairResponse),
    Retry(usize),
}

/// Decides what the commit of a watermark repair came to.
pub fn settle_sequence_repair(
    plan: &PreparedSequenceRepair,
    commit: CommitOutcome,
    readback: &StoredSequence,
    cf_name: &str,
    retry: usize,
) -> (settled_as: Result<SequenceRepairVerdict, TaskError>)
    ensures
        match commit {
            CommitOutcome::Conflict => match store::retry_spec(retry) {
                Ok(next) => settled_as matches Ok(SequenceRepairVerdict::Retry(again)) && again
                    == next,
                Err(error) => settled_as matches Err(given) && given == error,
            },
            CommitOutcome::Failed { code } => settled_as matches Err(given) && given == (
            TaskError::RepairNotCommitted { code }),
            CommitOutcome::Applied { committed_seq } => match store::sequence_reading(*readback) {
                Err(error) => settled_as matches Err(given) && given == error,
                Ok(None) => settled_as matches Err(given) && given == TaskError::SequenceMissing,
                Ok(Some(found)) => if found.value != plan.repaired_sequence {
                    settled_as matches Err(given) && given == TaskError::RepairReadbackDrift
                } else {
                    settled_as matches Ok(SequenceRepairVerdict::Repaired(response)) && response.ok
                        && response.repaired_sequence == plan.repaired_sequence
                        && response.committed_seq == committed_seq
                        && response.observed_task_rows == plan.survey.observed_rows
                        && response.unobservable_task_sequences == plan.survey.unobservable_rows
                        && response.observed_max_task_sequence == plan.survey.max_sequence
                        && response.previous_decodable_sequence
                        == plan.previous_decodable_sequence
                        && response.requested_minimum_sequence == plan.requested_minimum_sequence
                        && response.written_row.cf_name@ == cf_name@
                        && response.written_row.row_key@ == store::sequence_key()
                        && response.written_row.value_len_bytes == encode_utf8(
                        text::decimal_text(plan.repaired_sequence as nat),
                    ).len()
                },
            },
        },
{
    match commit {
        CommitOutcome::Conflict => match next_retry(retry) {
            Ok(next) => Ok(SequenceRepairVerdict::Retry(next)),
            Err(error) => Err(error),
        },
        CommitOutcome::Failed { code } => Err(TaskError::RepairNotCommitted { code }),
        CommitOutcome::Applied { committed_seq } => {
            match read_enqueue_seq_watermark_revisioned(readback) {
                Err(error) => Err(error),
                Ok(None) => Err(TaskError::SequenceMissing),
                Ok(Some(found)) => {
                    if found.value != plan.repaired_sequence {
                        return Err(TaskError::RepairReadbackDrift);
                    }
                    let encoded = encode_enqueue_seq_watermark(plan.repaired_sequence);
                    Ok(
                        SequenceRepairVerdict::Repaired(
                            TaskSequenceRepairResponse {
                                ok: true,
                                observed_task_rows: plan.survey.observed_rows,
                                unobservable_task_sequences: plan.survey.unobservable_rows,
                                observed_max_task_sequence: plan.survey.max_sequence,
                                previous_decodable_sequence: plan.previous_decodable_sequence,
                                requested_minimum_sequence: plan.requested_minimum_sequence,
                                repaired_sequence: plan.repaired_sequence,
                                committed_seq,
                                written_row: TaskRowReadback {
                                    cf_name: cf_name.to_owned(),
                                    row_key: TASK_SEQUENCE_KEY.to_owned(),
                                    value_len_bytes: encoded.len() as u64,
                                },
                            },
                        ),
                    )
                },
            }
        },
    }
}

/// Reads a revision that an operator gave.
pub fn parse_revision_sha256(value: &str) -> (revision: Result<[u8; 32], TaskError>)
    ensures
        match revision {
            Ok(bytes) => digest::hex_text(bytes@) == value@,
            Err(error) => error == TaskError::RevisionMalformed && !digest::is_lower_sha256_spec(
                value@,
            ),
        },
{
    match digest::decode_sha256_hex(value) {
        Some(bytes) => Ok(bytes),
        None => Err(TaskError::RevisionMalformed),
    }
}

/// A revision as operators see it.
pub fn revision_sha256_hex(revision: &[u8; 32]) -> (text_of_revision: String)
    ensures
        text_of_revision@ == digest::hex_text(revision@),
{
    digest::hex_encode(revision)
}

/// A revision that is shown reads back as itself.
pub proof fn law_revision_round_trip(shown: [u8; 32], read: [u8; 32])
    requires
        digest::hex_text(read@) == digest::hex_text(shown@),
    ensures
        read@ == shown@,
{
    digest::law_hex_is_injective(read@, shown@);
}

/// The generation of the stored coordination row, if it can be read.
pub open spec fn previous_generation(stored: StoredQueueState) -> Option<u64> {
    match store::queue_reading(stored) {
        Ok(Some(found)) => Some(found.state.mutation_generation),
        _ => None,
    }
}

/// The revision of the stored coordination row.
pub open spec fn queue_revision(stored: StoredQueueState) -> Option<[u8; 32]> {
    match stored {
        StoredQueueState::Absent => None,
        StoredQueueState::Expired { revision_sha256 } => Some(revision_sha256),
        StoredQueueState::Undecodable { revision_sha256 } => Some(revision_sha256),
        StoredQueueState::Decoded { revision_sha256, .. } => Some(revision_sha256),
    }
}

/// Whether the revision that an operator observed is the stored one.
pub open spec fn revision_matches(observed: Option<String>, stored: Option<[u8; 32]>) -> bool {
    match (observed, stored) {
        (None, None) => true,
        (Some(text_of_revision), Some(revision)) => text_of_revision@ == digest::hex_text(
            revision@,
        ),
        _ => false,
    }
}

/// Why the coordination row cannot be repaired as asked, if it cannot.
pub open spec fn queue_repair_refusal(
    params: TaskQueueStateRepairParams,
    stored: StoredQueueState,
    rows: Seq<StoredTaskRow>,
) -> Option<TaskError> {
    let unreadable = unreadable_rows(rows, rows.len() as int);
    let unobservable = stored !is Absent && previous_generation(stored) is None;
    if reason_refusal(params.reason@) is Some {
        reason_refusal(params.reason@)
    } else if params.expected_revision_sha256 matches Some(observed)
        && !digest::is_lower_sha256_spec(observed@) {
        Some(TaskError::RevisionMalformed)
    } else if !revision_matches(params.expected_revision_sha256, queue_revision(stored)) {
        Some(TaskError::RepairRevisionMismatch)
    } else if (unobservable || unreadable > 0) && params.minimum_mutation_generation == 0 {
        Some(
            TaskError::RepairGenerationFloorRequired {
                queue_state_unobservable: unobservable,
                unobservable_rows: unreadable as usize,
            },
        )
    } else {
        None
    }
}

/// The repaired generation: the greatest of the observed lower bound, what the
/// rows carry, and what the old row said.
pub open spec fn repaired_generation(
    params: TaskQueueStateRepairParams,
    stored: StoredQueueState,
    rows: Seq<StoredTaskRow>,
) -> u64 {
    greater(
        greater(
            params.minimum_mutation_generation,
            store::max_of(store::generations(readable_tasks(rows, rows.len() as int))),
        ),
        known(previous_generation(stored)),
    )
}

/// A repair of the coordination row that is ready to be committed.
#[derive(Debug)]
pub struct PreparedQueueRepair {
    pub survey: RowSurvey,
    pub previous_decodable_generation: Option<u64>,
    pub requested_minimum_generation: u64,
    pub repaired: TaskQueueState,
    pub expected_revision_sha256: Option<[u8; 32]>,
}

fn is_revision_matching(observed: &Option<String>, stored: &Option<[u8; 32]>) -> (matching: bool)
    ensures
        matching == revision_matches(*observed, *stored),
{
    match (observed, stored) {
        (None, None) => true,
        (Some(text_of_revision), Some(revision)) => text::str_equal(
            text_of_revision.as_str(),
            digest::hex_encode(revision).as_str(),
        ),
        _ => false,
    }
}

/// Prepares the repair of the coordination row. The observed revision must be
/// the stored one, and what cannot be seen needs an observed lower bound.
pub fn prepare_queue_state_repair(
    params: &TaskQueueStateRepairParams,
    stored: &StoredQueueState,
    rows: &Vec<StoredTaskRow>,
    now: u64,
) -> (prepared: Result<PreparedQueueRepair, TaskError>)
    ensures
        match queue_repair_refusal(*params, *stored, rows@) {
            Some(error) => prepared matches Err(given) && given == error,
            None => prepared matches Ok(plan) && plan.repaired == (TaskQueueState {
                schema_version: TASK_QUEUE_STATE_SCHEMA_VERSION,
                mutation_generation: repaired_generation(*params, *stored, rows@),
                updated_unix_ms: now,
            }) && plan.previous_decodable_generation == previous_generation(*stored)
                && plan.requested_minimum_generation == params.minimum_mutation_generation
                && plan.expected_revision_sha256 == queue_revision(*stored)
                && plan.survey.observed_rows == live_rows(rows@, rows@.len() as int)
                && plan.survey.unobservable_rows == unreadable_rows(rows@, rows@.len() as int)
                && plan.survey.max_generation == store::max_of(
                store::generations(readable_tasks(rows@, rows@.len() as int)),
            ),
        },
{
    if let Err(error) = check_reason(params.reason.as_str()) {
        return Err(error);
    }
    if let Some(observed) = &params.expected_revision_sha256 {
        if !digest::is_lower_sha256(observed.as_str()) {
            return Err(TaskError::RevisionMalformed);
        }
    }
    let (present, revision) = match stored {
        StoredQueueState::Absent => (false, None),
        StoredQueueState::Expired { revision_sha256 } => (true, Some(*revision_sha256)),
        StoredQueueState::Undecodable { revision_sha256 } => (true, Some(*revision_sha256)),
        StoredQueueState::Decoded { revision_sha256, .. } => (true, Some(*revision_sha256)),
    };
    if !is_revision_matching(&params.expected_revision_sha256, &revision) {
        return Err(TaskError::RepairRevisionMismatch);
    }
    let previous: Option<u64> = match read_task_queue_state_revisioned(stored) {
        Ok(Some(found)) => Some(found.state.mutation_generation),
        _ => None,
    };
    let survey = survey_rows(rows);
    let unobservable = present && previous.is_none();
    if (unobservable || survey.unobservable_rows > 0) && params.minimum_mutation_generation == 0 {
        return Err(
            TaskError::RepairGenerationFloorRequired {
                queue_state_unobservable: unobservable,
                unobservable_rows: survey.unobservable_rows,
            },
        );
    }
    let generation: u64 = greater_of(
        greater_of(params.minimum_mutation_generation, survey.max_generation),
        known_or_zero(previous),
    );
    Ok(
        PreparedQueueRepair {
            survey,
            previous_decodable_generation: previous,
            requested_minimum_generation: params.minimum_mutation_generation,
            repaired: TaskQueueState {
                schema_version: TASK_QUEUE_STATE_SCHEMA_VERSION,
                mutation_generation: generation,
                updated_unix_ms: now,
            },
            expected_revision_sha256: revision,
        },
    )
}

/// A repair never rewinds the generation, nor below that of any row, nor below
/// the bound that the operator observed.
pub proof fn law_queue_repair_never_rewinds(
    params: TaskQueueStateRepairParams,
    stored: StoredQueueState,
    rows: Seq<StoredTaskRow>,
    index: int,
)
    requires
        0 <= index < rows.len(),
    ensures
        repaired_generation(params, stored, rows) >= params.minimum_mutation_generation,
        previous_generation(stored) matches Some(previous) ==> repaired_generation(
            params,
            stored,
            rows,
        ) >= previous,
        store::row_reading(rows[index]) matches Ok(Some(task)) ==> repaired_generation(
            params,
            stored,
            rows,
        ) >= task.mutation_generation,
{
    let tasks = readable_tasks(rows, rows.len() as int);
    if let Ok(Some(task)) = store::row_reading(rows[index]) {
        lemma_readable(rows, index, rows.len() as int);
        let at = choose|k: int| 0 <= k < tasks.len() && tasks[k] == task;
        store::lemma_max_bounds(store::generations(tasks));
        assert(store::generations(tasks)[at] == task.mutation_generation);
    }
}

/// The bytes of the coordination row, and how it reads, after a commit.
#[derive(Debug)]
pub struct QueueReadback {
    pub stored: Option<Vec<u8>>,
    pub queue: StoredQueueState,
}

/// Whether a commit took effect, as far as can be proved: an applied one did, a
/// failed one only where the stored bytes are the written ones.
pub open spec fn repair_commit_proved(
    commit: CommitOutcome,
    stored: Option<Vec<u8>>,
    encoded: Seq<u8>,
) -> bool {
    match commit {
        CommitOutcome::Applied { .. } => true,
        CommitOutcome::Conflict => false,
        CommitOutcome::Failed { .. } => stored matches Some(bytes) && bytes@ == encoded,
    }
}

/// Why the commit of a repair of the coordination row is not accepted, if it
/// is not.
pub open spec fn queue_repair_commit_refusal(
    plan: PreparedQueueRepair,
    encoded: Seq<u8>,
    commit: CommitOutcome,
    readback: QueueReadback,
) -> Option<TaskError> {
    if commit is Conflict {
        Some(TaskError::RepairConflict)
    } else if !repair_commit_proved(commit, readback.stored, encoded) {
        Some(TaskError::RepairNotCommitted { code: commit->code })
    } else {
        match store::queue_reading(readback.queue) {
            Err(error) => Some(error),
            Ok(None) => Some(TaskError::QueueStateMissing),
            Ok(Some(found)) => if found.state != plan.repaired {
                Some(TaskError::RepairReadbackDrift)
            } else {
                None
            },
        }
    }
}

/// The sequence number of a commit, where the store named one.
pub open spec fn committed(commit: CommitOutcome) -> Option<u64> {
    match commit {
        CommitOutcome::Applied { committed_seq } => Some(committed_seq),
        _ => None,
    }
}

fn committed_seq_of(commit: CommitOutcome) -> (seq: Option<u64>)
    ensures
        seq == committed(commit),
{
    match commit {
        CommitOutcome::Applied { committed_seq } => Some(committed_seq),
        _ => None,
    }
}

fn stored_equals(stored: &Option<Vec<u8>>, encoded: &[u8]) -> (equal: bool)
    ensures
        equal == (*stored matches Some(bytes) && bytes@ == encoded@),
{
    match stored {
        Some(bytes) => text::bytes_equal(bytes.as_slice(), encoded),
        None => false,
    }
}

/// Decides what the commit of a repair of the coordination row came to.
pub fn settle_queue_state_repair(
    plan: &PreparedQueueRepair,
    encoded: &[u8],
    commit: CommitOutcome,
    readback: &QueueReadback,
    cf_name: &str,
) -> (response: Result<TaskQueueStateRepairResponse, TaskError>)
    ensures
        match queue_repair_commit_refusal(*plan, encoded@, commit, *readback) {
            Some(error) => response matches Err(given) && given == error,
            None => response matches Ok(repaired) && repaired.ok && repaired.repaired_generation
                == plan.repaired.mutation_generation && repaired.committed_seq == committed(
                commit,
            ) && repaired.observed_task_rows == plan.survey.observed_rows
                && repaired.unobservable_task_generations == plan.survey.unobservable_rows
                && repaired.observed_max_task_generation == plan.survey.max_generation
                && repaired.previous_decodable_generation == plan.previous_decodable_generation
                && repaired.requested_minimum_generation == plan.requested_minimum_generation
                && text::opt_text(repaired.previous_revision_sha256)
                    == (match plan.expected_revision_sha256 {
                Some(revision) => Some(digest::hex_text(revision@)),
                None => None,
            }) && repaired.written_row.cf_name@ == cf_name@ && repaired.written_row.row_key@
                == store::queue_state_key()
                    && repaired.written_row.value_len_bytes == encoded@.len(),
        },
{
    match commit {
        CommitOutcome::Conflict => {
            return Err(TaskError::RepairConflict);
        },
        CommitOutcome::Failed { code } => {
            if !stored_equals(&readback.stored, encoded) {
                return Err(TaskError::RepairNotCommitted { code });
            }
        },
        CommitOutcome::Applied { .. } => {},
    }
    match read_task_queue_state_revisioned(&readback.queue) {
        Err(error) => Err(error),
        Ok(None) => Err(TaskError::QueueStateMissing),
        Ok(Some(found)) => {
            if found.state != plan.repaired {
                return Err(TaskError::RepairReadbackDrift);
            }
            Ok(
                TaskQueueStateRepairResponse {
                    ok: true,
                    observed_task_rows: plan.survey.observed_rows,
                    unobservable_task_generations: plan.survey.unobservable_rows,
                    observed_max_task_generation: plan.survey.max_generation,
                    previous_decodable_generation: plan.previous_decodable_generation,
                    requested_minimum_generation: plan.requested_minimum_generation,
                    repaired_generation: plan.repaired.mutation_generation,
                    previous_revision_sha256: match &plan.expected_revision_sha256 {
                        Some(revision) => Some(revision_sha256_hex(revision)),
                        None => None,
                    },
                    committed_seq: committed_seq_of(commit),
                    written_row: TaskRowReadback {
                        cf_name: cf_name.to_owned(),
                        row_key: TASK_QUEUE_STATE_KEY.to_owned(),
                        value_len_bytes: encoded.len() as u64,
                    },
                },
            )
        },
    }
}

/// Why a row repair request is malformed, if it is.
pub open spec fn row_repair_params_refusal(params: TaskRowRepairParams) -> Option<TaskError> {
    if !validate::is_task_id(params.task_id@) {
        Some(TaskError::TaskIdInvalid)
    } else if reason_refusal(params.reason@) is Some {
        reason_refusal(params.reason@)
    } else if !digest::is_lower_sha256_spec(params.expected_revision_sha256@) {
        Some(TaskError::RevisionMalformed)
    } else if params.replacement@.task_id != params.task_id@ {
        Some(TaskError::RepairIdentityMismatch)
    } else if params.replacement@.mutation_generation != 0 {
        Some(TaskError::RepairGenerationNotZero)
    } else {
        None
    }
}

/// Refuses a malformed request to repair a row.
pub fn check_row_repair_params(params: &TaskRowRepairParams) -> (checked: Result<(), TaskError>)
    ensures
        checked == validate::verdict(row_repair_params_refusal(*params)),
{
    if !task_id_accepted(params.task_id.as_str()) {
        return Err(TaskError::TaskIdInvalid);
    }
    if let Err(error) = check_reason(params.reason.as_str()) {
        return Err(error);
    }
    if !digest::is_lower_sha256(params.expected_revision_sha256.as_str()) {
        return Err(TaskError::RevisionMalformed);
    }
    if !text::str_equal(params.replacement.task_id.as_str(), params.task_id.as_str()) {
        return Err(TaskError::RepairIdentityMismatch);
    }
    if params.replacement.mutation_generation != 0 {
        return Err(TaskError::RepairGenerationNotZero);
    }
    Ok(())
}

/// Whether a readable row other than that of `key` uses an enqueue sequence.
pub open spec fn sequence_taken(
    rows: Seq<StoredTaskRow>,
    key: Seq<char>,
    enqueue_seq: u64,
    from: int,
) -> bool
    decreases rows.len() - from,
{
    if from < 0 || from >= rows.len() {
        false
    } else if rows[from].key@ != key && (store::row_reading(rows[from]) matches Ok(Some(task))
        && task.enqueue_seq == enqueue_seq) {
        true
    } else {
        sequence_taken(rows, key, enqueue_seq, from + 1)
    }
}

/// How many rows other than that of `key`, among the first `end`, cannot be
/// read.
pub open spec fn unreadable_others(rows: Seq<StoredTaskRow>, key: Seq<char>, end: int) -> nat
    decreases end,
{
    if end <= 0 {
        0
    } else {
        unreadable_others(rows, key, end - 1) + if rows[end - 1].key@ != key && store::row_reading(
            rows[end - 1],
        ) is Err {
            1nat
        } else {
            0nat
        }
    }
}

/// The replacement as it is written.
pub open spec fn replaced(replacement: TaskView, generation: u64) -> TaskView {
    TaskView { schema_version: TASK_SCHEMA_VERSION, mutation_generation: generation, ..replacement }
}

/// Why a row cannot be replaced as asked, if it cannot.
pub open spec fn row_repair_refusal(
    params: TaskRowRepairParams,
    rows: Seq<StoredTaskRow>,
    queue: StoredQueueState,
    sequence: StoredSequence,
    now: u64,
) -> Option<TaskError> {
    let key = validate::task_key_spec(params.task_id@);
    if row_repair_params_refusal(params) is Some {
        row_repair_params_refusal(params)
    } else {
        match store::find_key(rows, key, 0) {
            None => Some(TaskError::RepairRowAbsent),
            Some(index) => if params.expected_revision_sha256@ != digest::hex_text(
                rows[index].revision_sha256@,
            ) {
                Some(TaskError::RepairRevisionMismatch)
            } else {
                match (store::queue_reading(queue), store::sequence_reading(sequence)) {
                    (Err(error), _) => Some(error),
                    (Ok(None), _) => Some(TaskError::RepairQueueStateMissing),
                    (Ok(Some(_)), Err(error)) => Some(error),
                    (Ok(Some(_)), Ok(None)) => Some(TaskError::RepairSequenceMissing),
                    (Ok(Some(current)), Ok(Some(watermark_row))) => {
                        let seq = params.replacement@.enqueue_seq;
                        if seq > watermark_row.value {
                            Some(
                                TaskError::RepairSequenceBeyondWatermark {
                                    enqueue_seq: seq,
                                    watermark: watermark_row.value,
                                },
                            )
                        } else if sequence_taken(rows, key, seq, 0) {
                            Some(TaskError::RepairSequenceTaken { enqueue_seq: seq })
                        } else {
                            match store::next_queue(current.state, now) {
                                Err(error) => Some(error),
                                Ok(next) => validate::decode_refusal(
                                    key,
                                    replaced(params.replacement@, next.mutation_generation),
                                ),
                            }
                        }
                    },
                }
            },
        }
    }
}

/// A row repair that is ready to be committed.
#[derive(Debug)]
pub struct PreparedRowRepair {
    pub task: AgentTask,
    pub next_queue: TaskQueueState,
    pub guards: Vec<RevisionGuard>,
    pub previous_revision_sha256: String,
    pub previous_value_len_bytes: u64,
    pub unobservable_other_task_rows: usize,
}

fn is_sequence_taken(rows: &Vec<StoredTaskRow>, key: &str, enqueue_seq: u64) -> (taken: bool)
    ensures
        taken == sequence_taken(rows@, key@, enqueue_seq, 0),
{
    let mut index: usize = 0;
    while index < rows.len()
        invariant
            index <= rows@.len(),
            sequence_taken(rows@, key@, enqueue_seq, 0) == sequence_taken(
                rows@,
                key@,
                enqueue_seq,
                index as int,
            ),
        decreases rows@.len() - index,
    {
        if !text::str_equal(rows[index].key.as_str(), key) {
            if let Ok(Some(task)) = read_row(&rows[index]) {
                if task.enqueue_seq == enqueue_seq {
                    return true;
                }
            }
        }
        index = index + 1;
    }
    false
}

fn count_unreadable_others(rows: &Vec<StoredTaskRow>, key: &str) -> (count: usize)
    ensures
        count == unreadable_others(rows@, key@, rows@.len() as int),
{
    let mut count: usize = 0;
    let mut index: usize = 0;
    while index < rows.len()
        invariant
            index <= rows@.len(),
            count == unreadable_others(rows@, key@, index as int),
            count <= index,
        decreases rows@.len() - index,
    {
        if !text::str_equal(rows[index].key.as_str(), key) {
            if let Err(_) = read_row(&rows[index]) {
                count = count + 1;
            }
        }
        index = index + 1;
    }
    count
}

/// Prepares the replacement of one row. The row must exist under the observed
/// revision; the replacement keeps the task's identity, takes no enqueue
/// sequence from another task, and gets the next queue generation.
pub fn prepare_row_repair(
    params: TaskRowRepairParams,
    rows: &Vec<StoredTaskRow>,
    queue: &StoredQueueState,
    sequence: &StoredSequence,
    now: u64,
) -> (prepared: Result<PreparedRowRepair, TaskError>)
    ensures
        match row_repair_refusal(params, rows@, *queue, *sequence, now) {
            Some(error) => prepared matches Err(given) && given == error,
            None => {
                &&& prepared matches Ok(plan)
                &&& store::queue_reading(*queue) matches Ok(Some(current))
                &&& store::find_key(rows@, validate::task_key_spec(params.task_id@), 0) matches Some(
                    index,
                )
                &&& store::next_queue(current.state, now) == Ok::<TaskQueueState, TaskError>(
                    plan.next_queue,
                )
                &&& plan.task@ == replaced(
                    params.replacement@,
                    plan.next_queue.mutation_generation,
                )
                &&& store::mutation_guards(
                    plan.guards@,
                    current,
                    validate::task_key_spec(params.task_id@),
                    rows@[index].revision_sha256,
                )
                &&& plan.previous_revision_sha256@ == params.expected_revision_sha256@
                &&& plan.previous_value_len_bytes == (if rows@[index].value is Expired {
                    0
                } else {
                    rows@[index].value_len_bytes
                })
                &&& plan.unobservable_other_task_rows == unreadable_others(
                    rows@,
                    validate::task_key_spec(params.task_id@),
                    rows@.len() as int,
                )
            },
        },
{
    if let Err(error) = check_row_repair_params(&params) {
        return Err(error);
    }
    let key = task_key(params.task_id.as_str());
    let index: usize = match find_row(rows, key.as_str()) {
        None => {
            return Err(TaskError::RepairRowAbsent);
        },
        Some(found) => found,
    };
    let revision = rows[index].revision_sha256;
    if !text::str_equal(
        params.expected_revision_sha256.as_str(),
        digest::hex_encode(&revision).as_str(),
    ) {
        return Err(TaskError::RepairRevisionMismatch);
    }
    let previous_value_len_bytes: u64 = match &rows[index].value {
        StoredTask::Expired => 0,
        _ => rows[index].value_len_bytes,
    };
    let current = match read_task_queue_state_revisioned(queue) {
        Err(error) => {
            return Err(error);
        },
        Ok(None) => {
            return Err(TaskError::RepairQueueStateMissing);
        },
        Ok(Some(found)) => found,
    };
    let watermark_row = match read_enqueue_seq_watermark_revisioned(sequence) {
        Err(error) => {
            return Err(error);
        },
        Ok(None) => {
            return Err(TaskError::RepairSequenceMissing);
        },
        Ok(Some(found)) => found,
    };
    let enqueue_seq: u64 = params.replacement.enqueue_seq;
    if enqueue_seq > watermark_row.value {
        return Err(
            TaskError::RepairSequenceBeyondWatermark {
                enqueue_seq,
                watermark: watermark_row.value,
            },
        );
    }
    if is_sequence_taken(rows, key.as_str(), enqueue_seq) {
        return Err(TaskError::RepairSequenceTaken { enqueue_seq });
    }
    let unobservable_other_task_rows: usize = count_unreadable_others(rows, key.as_str());
    let next = match next_task_queue_state(&current.state, now) {
        Err(error) => {
            return Err(error);
        },
        Ok(state) => state,
    };
    let mut task = params.replacement;
    task.schema_version = TASK_SCHEMA_VERSION;
    task.mutation_generation = next.mutation_generation;
    if let Err(error) = check_task_row(key.as_str(), &task) {
        return Err(error);
    }
    let mut guards: Vec<RevisionGuard> = Vec::new();
    guards.push(
        RevisionGuard {
            key: TASK_QUEUE_STATE_KEY.to_owned(),
            revision_sha256: Some(current.revision_sha256),
        },
    );
    guards.push(RevisionGuard { key, revision_sha256: Some(revision) });
    Ok(
        PreparedRowRepair {
            task,
            next_queue: next,
            guards,
            previous_revision_sha256: params.expected_revision_sha256,
            previous_value_len_bytes,
            unobservable_other_task_rows,
        },
    )
}

/// Two row contents are the same.
pub fn same_task(left: &AgentTask, right: &AgentTask) -> (same: bool)
    ensures
        same == (left@ == right@),
{
    if left.schema_version != right.schema_version || left.state != right.state || left.priority
        != right.priority || left.enqueue_seq != right.enqueue_seq || left.mutation_generation
        != right.mutation_generation || left.created_unix_ms != right.created_unix_ms
        || left.updated_unix_ms != right.updated_unix_ms {
        return false;
    }
    if !text::str_equal(left.task_id.as_str(), right.task_id.as_str()) || !text::str_equal(
        left.title.as_str(),
        right.title.as_str(),
    ) || !text::str_equal(left.template_id.as_str(), right.template_id.as_str())
        || !text::opt_equal(&left.description, &right.description) || !text::opt_equal(
        &left.acceptance,
        &right.acceptance,
    ) || !text::opt_equal(&left.review_reason, &right.review_reason) {
        return false;
    }
    let same_reservation = match (&left.dispatch_reservation, &right.dispatch_reservation) {
        (None, None) => true,
        (Some(a), Some(b)) => a.schema_version == b.schema_version && text::str_equal(
            a.reservation_id.as_str(),
            b.reservation_id.as_str(),
        ) && a.reserved_unix_ms == b.reserved_unix_ms && a.expires_at_unix_ms
            == b.expires_at_unix_ms,
        _ => false,
    };
    if !same_reservation {
        return false;
    }
    same_pairs(&left.template_params, &right.template_params) && same_attempts(
        &left.attempts,
        &right.attempts,
    )
}

fn same_pairs(left: &Vec<(String, String)>, right: &Vec<(String, String)>) -> (same: bool)
    ensures
        same == (model::pair_views(left@) == model::pair_views(right@)),
{
    if left.len() != right.len() {
        assert(model::pair_views(left@).len() != model::pair_views(right@).len());
        return false;
    }
    let mut index: usize = 0;
    while index < left.len()
        invariant
            left@.len() == right@.len(),
            index <= left@.len(),
            forall|k: int| 0 <= k < index
                ==> model::pair_views(left@)[k] == model::pair_views(right@)[k],
        decreases left@.len() - index,
    {
        if !text::str_equal(left[index].0.as_str(), right[index].0.as_str()) || !text::str_equal(
            left[index].1.as_str(),
            right[index].1.as_str(),
        ) {
            assert(model::pair_views(left@)[index as int] != model::pair_views(right@)[index as int]);
            return false;
        }
        index = index + 1;
    }
    assert(model::pair_views(left@) =~= model::pair_views(right@));
    true
}

fn same_attempt(left: &TaskAttempt, right: &TaskAttempt) -> (same: bool)
    ensures
        same == (left@ == right@),
{
    left.attempt_id == right.attempt_id && text::str_equal(
        left.session_id.as_str(),
        right.session_id.as_str(),
    ) && text::opt_equal(&left.spawn_id, &right.spawn_id) && left.template_version
        == right.template_version && left.outcome == right.outcome && left.started_unix_ms
        == right.started_unix_ms && left.ended_unix_ms == right.ended_unix_ms && text::opt_equal(
        &left.reason,
        &right.reason,
    )
}

fn same_attempts(left: &Vec<TaskAttempt>, right: &Vec<TaskAttempt>) -> (same: bool)
    ensures
        same == (model::attempt_views(left@) == model::attempt_views(right@)),
{
    if left.len() != right.len() {
        assert(model::attempt_views(left@).len() != model::attempt_views(right@).len());
        return false;
    }
    let mut index: usize = 0;
    while index < left.len()
        invariant
            left@.len() == right@.len(),
            index <= left@.len(),
            forall|k: int| 0 <= k < index
                ==> model::attempt_views(left@)[k] == model::attempt_views(right@)[k],
        decreases left@.len() - index,
    {
        if !same_attempt(&left[index], &right[index]) {
            assert(model::attempt_views(left@)[index as int] != model::attempt_views(right@)[index as int]);
            return false;
        }
        index = index + 1;
    }
    assert(model::attempt_views(left@) =~= model::attempt_views(right@));
    true
}

/// What a separate read found after the commit of a row repair.
#[derive(Debug)]
pub struct RowRepairReadback {
    /// The bytes of the row, if it is there.
    pub stored: Option<Vec<u8>>,
    /// How the row reads.
    pub row: Option<StoredTaskRow>,
    pub queue: StoredQueueState,
}

/// Whether the queue has reached a generation.
pub open spec fn has_reached(queue: Option<RevisionedTaskQueueState>, generation: u64) -> bool {
    queue matches Some(found) && found.state.mutation_generation >= generation
}

/// Why a repaired row does not read back, if it does not: first the row is read,
/// then the queue.
pub open spec fn row_repair_readback_refusal(
    plan: PreparedRowRepair,
    readback: RowRepairReadback,
) -> Option<TaskError> {
    match readback.row {
        None => Some(TaskError::MutationReadbackMissing),
        Some(row) => match store::row_reading(row) {
            Err(error) => Some(error),
            Ok(None) => Some(TaskError::RowExpired),
            Ok(Some(task)) => if task != plan.task@ {
                Some(TaskError::RepairReadbackDrift)
            } else {
                match store::queue_reading(readback.queue) {
                    Err(error) => Some(error),
                    Ok(None) => Some(TaskError::QueueStateMissing),
                    Ok(Some(found)) => if found.state.mutation_generation
                        < plan.next_queue.mutation_generation {
                        Some(TaskError::QueueGenerationRollback)
                    } else {
                        None
                    },
                }
            },
        },
    }
}

/// Why the commit of a row repair is not accepted, if it is not.
pub open spec fn row_repair_commit_refusal(
    plan: PreparedRowRepair,
    encoded: Seq<u8>,
    commit: CommitOutcome,
    readback: RowRepairReadback,
) -> Option<TaskError> {
    match commit {
        CommitOutcome::Conflict => Some(TaskError::RepairConflict),
        CommitOutcome::Applied { .. } => row_repair_readback_refusal(plan, readback),
        CommitOutcome::Failed { code } => match store::queue_reading(readback.queue) {
            Err(error) => Some(error),
            Ok(queue) => if !repair_commit_proved(commit, readback.stored, encoded) || !has_reached(
                queue,
                plan.next_queue.mutation_generation,
            ) {
                Some(TaskError::RepairNotCommitted { code })
            } else {
                row_repair_readback_refusal(plan, readback)
            },
        },
    }
}

fn check_row_repair_readback(plan: &PreparedRowRepair, readback: &RowRepairReadback) -> (checked:
    Result<(), TaskError>)
    ensures
        checked == validate::verdict(row_repair_readback_refusal(*plan, *readback)),
{
    match &readback.row {
        None => Err(TaskError::MutationReadbackMissing),
        Some(row) => match read_row(row) {
            Err(error) => Err(error),
            Ok(None) => Err(TaskError::RowExpired),
            Ok(Some(task)) => {
                if !same_task(task, &plan.task) {
                    return Err(TaskError::RepairReadbackDrift);
                }
                match read_task_queue_state_revisioned(&readback.queue) {
                    Err(error) => Err(error),
                    Ok(None) => Err(TaskError::QueueStateMissing),
                    Ok(Some(found)) => if found.state.mutation_generation
                        < plan.next_queue.mutation_generation {
                        Err(TaskError::QueueGenerationRollback)
                    } else {
                        Ok(())
                    },
                }
            },
        },
    }
}

fn check_row_repair_commit(
    plan: &PreparedRowRepair,
    encoded: &[u8],
    commit: CommitOutcome,
    readback: &RowRepairReadback,
) -> (checked: Result<(), TaskError>)
    ensures
        checked == validate::verdict(row_repair_commit_refusal(*plan, encoded@, commit, *readback)),
{
    match commit {
        CommitOutcome::Conflict => Err(TaskError::RepairConflict),
        CommitOutcome::Applied { .. } => check_row_repair_readback(plan, readback),
        CommitOutcome::Failed { code } => {
            let queue = match read_task_queue_state_revisioned(&readback.queue) {
                Err(error) => {
                    return Err(error);
                },
                Ok(found) => found,
            };
            let reached: bool = match &queue {
                Some(found) => found.state.mutation_generation
                    >= plan.next_queue.mutation_generation,
                None => false,
            };
            if !stored_equals(&readback.stored, encoded) || !reached {
                return Err(TaskError::RepairNotCommitted { code });
            }
            check_row_repair_readback(plan, readback)
        },
    }
}

/// Decides what the commit of a row repair came to: only a readback of exactly
/// the replacement, under a queue generation that has reached it, counts.
pub fn settle_row_repair(
    plan: PreparedRowRepair,
    encoded: &[u8],
    commit: CommitOutcome,
    readback: &RowRepairReadback,
    cf_name: &str,
) -> (response: Result<TaskRowRepairResponse, TaskError>)
    ensures
        match row_repair_commit_refusal(plan, encoded@, commit, *readback) {
            Some(error) => response matches Err(given) && given == error,
            None => response matches Ok(repaired) && repaired.ok && repaired.task == plan.task
                && repaired.committed_seq == committed(commit)
                && repaired.previous_revision_sha256@ == plan.previous_revision_sha256@
                && repaired.previous_value_len_bytes == plan.previous_value_len_bytes
                && repaired.unobservable_other_task_rows == plan.unobservable_other_task_rows
                && repaired.written_row.cf_name@ == cf_name@ && repaired.written_row.row_key@
                == validate::task_key_spec(plan.task@.task_id)
                    && repaired.written_row.value_len_bytes
                == encoded@.len(),
        },
{
    if let Err(error) = check_row_repair_commit(&plan, encoded, commit, readback) {
        return Err(error);
    }
    let row_key = task_key(plan.task.task_id.as_str());
    Ok(
        TaskRowRepairResponse {
            ok: true,
            previous_revision_sha256: plan.previous_revision_sha256,
            previous_value_len_bytes: plan.previous_value_len_bytes,
            unobservable_other_task_rows: plan.unobservable_other_task_rows,
            committed_seq: committed_seq_of(commit),
            task: plan.task,
            written_row: TaskRowReadback {
                cf_name: cf_name.to_owned(),
                row_key,
                value_len_bytes: encoded.len() as u64,
            },
        },
    )
}

} // verus!
