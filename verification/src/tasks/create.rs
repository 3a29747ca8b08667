//! Creating a task: the request's limits, the row that is written, and what
//! the commit came to.
use crate::tasks::errors::{TaskError, TextField};
use crate::tasks::model;
use crate::tasks::model::{
    AgentTask, AttemptView, MAX_TEXT_CHARS, MAX_TITLE_CHARS, RevisionedTaskQueueState,
    RevisionedTaskSequence, TASK_QUEUE_STATE_KEY, TASK_SCHEMA_VERSION, TASK_SEQUENCE_KEY,
    TaskCreateParams, TaskMutationResponse, TaskQueueState, TaskRowReadback, TaskState, TaskView,
    copy_pairs,
};
use crate::tasks::store;
use crate::tasks::store::{
    CommitOutcome, MutationVerdict, RevisionGuard, StoredQueueState, StoredSequence, StoredTaskRow,
    next_retry, next_task_queue_state, read_enqueue_seq_watermark_revisioned,
    read_task_queue_state_revisioned, read_task_row_revisioned,
};
use crate::tasks::validate;
use crate::tasks::validate::{
    check_task_row, is_kebab_id, task_id_accepted, task_key, validate_priority,
    validate_template_params, validate_text,
};
use crate::text;
use vstd::prelude::*;
use vstd::string::*;

verus! {

/// A text that is too long.
pub open spec fn too_long(value: Option<String>, max: usize) -> bool {
    value matches Some(content) && content@.len() > max
}

/// Why a request for a new task is malformed, if it is.
pub open spec fn create_refusal(params: TaskCreateParams) -> Option<TaskError> {
    if !validate::is_task_id(params.task_id@) {
        Some(TaskError::TaskIdInvalid)
    } else if text::is_blank_spec(params.title@) {
        Some(TaskError::TitleEmpty)
    } else if params.title@.len() > MAX_TITLE_CHARS {
        Some(TaskError::TextTooLong { field: TextField::Title, max: MAX_TITLE_CHARS })
    } else if too_long(params.description, MAX_TEXT_CHARS) {
        Some(TaskError::TextTooLong { field: TextField::Description, max: MAX_TEXT_CHARS })
    } else if too_long(params.acceptance, MAX_TEXT_CHARS) {
        Some(TaskError::TextTooLong { field: TextField::Acceptance, max: MAX_TEXT_CHARS })
    } else if !(1 <= params.priority <= 5) {
        Some(TaskError::PriorityOutOfRange { priority: params.priority })
    } else if !validate::is_kebab_spec(params.template_id@) {
        Some(TaskError::TemplateIdInvalid)
    } else {
        validate::params_refusal(model::pair_views(params.template_params@), 0)
    }
}

/// Refuses a malformed request for a new task.
pub fn check_create_params(params: &TaskCreateParams) -> (checked: Result<(), TaskError>)
    ensures
        checked == validate::verdict(create_refusal(*params)),
{
    if !task_id_accepted(params.task_id.as_str()) {
        return Err(TaskError::TaskIdInvalid);
    }
    if text::is_blank(params.title.as_str()) {
        return Err(TaskError::TitleEmpty);
    }
    if let Err(error) = validate_text(TextField::Title, params.title.as_str(), MAX_TITLE_CHARS) {
        return Err(error);
    }
    if let Some(description) = &params.description {
        if let Err(error) = validate_text(
            TextField::Description,
            description.as_str(),
            MAX_TEXT_CHARS,
        ) {
            return Err(error);
        }
    }
    if let Some(acceptance) = &params.acceptance {
        if let Err(error) = validate_text(
            TextField::Acceptance,
            acceptance.as_str(),
            MAX_TEXT_CHARS,
        ) {
            return Err(error);
        }
    }
    if let Err(error) = validate_priority(params.priority) {
        return Err(error);
    }
    if !is_kebab_id(params.template_id.as_str()) {
        return Err(TaskError::TemplateIdInvalid);
    }
    validate_template_params(&params.template_params)
}

/// The row of a new task.
pub open spec fn created(
    params: TaskCreateParams,
    enqueue_seq: u64,
    generation: u64,
    now: u64,
) -> TaskView {
    TaskView {
        schema_version: TASK_SCHEMA_VERSION,
        task_id: params.task_id@,
        state: TaskState::Todo,
        title: params.title@,
        description: text::opt_text(params.description),
        acceptance: text::opt_text(params.acceptance),
        priority: params.priority,
        template_id: params.template_id@,
        template_params: model::pair_views(params.template_params@),
        enqueue_seq,
        mutation_generation: generation,
        attempts: Seq::empty(),
        dispatch_reservation: None,
        review_reason: None,
        created_unix_ms: now,
        updated_unix_ms: now,
    }
}

/// A new task that is ready to be committed.
#[derive(Debug)]
pub struct PreparedCreate {
    pub task: AgentTask,
    pub next_seq: u64,
    pub next_queue: TaskQueueState,
    pub guards: Vec<RevisionGuard>,
}

/// The guards of a creation: the coordination row, the watermark, and the
/// absence of the task row.
pub open spec fn create_guards(
    guards: Seq<RevisionGuard>,
    queue: RevisionedTaskQueueState,
    sequence: RevisionedTaskSequence,
    task_id: Seq<char>,
) -> bool {
    &&& guards.len() == 3
    &&& store::guards_key(guards[0], store::queue_state_key(), Some(queue.revision_sha256))
    &&& store::guards_key(guards[1], store::sequence_key(), Some(sequence.revision_sha256))
    &&& store::guards_key(guards[2], validate::task_key_spec(task_id), None)
}

/// Prepares a new task: it waits, with the next enqueue sequence and the next
/// queue generation. A task id is a permanent identity: it cannot be taken
/// twice, not even from a row that has expired.
pub fn prepare_create(
    params: &TaskCreateParams,
    queue: &RevisionedTaskQueueState,
    sequence: &RevisionedTaskSequence,
    rows: &Vec<StoredTaskRow>,
    now: u64,
) -> (prepared: Result<PreparedCreate, TaskError>)
    ensures
        match create_refusal(*params) {
            Some(error) => prepared matches Err(given) && given == error,
            None => match store::task_reading(rows@, params.task_id@) {
                Err(error) => prepared matches Err(given) && given == error,
                Ok(Some(existing)) => prepared matches Err(given) && given
                    == (TaskError::AlreadyExists { enqueue_seq: existing.enqueue_seq }),
                Ok(None) => if sequence.value == u64::MAX {
                    prepared matches Err(given) && given == TaskError::SequenceExhausted
                } else {
                    match store::next_queue(queue.state, now) {
                        Err(error) => prepared matches Err(given) && given == error,
                        Ok(next) => prepared matches Ok(plan) && plan.next_queue == next
                            && plan.next_seq == sequence.value + 1 && plan.task@ == created(
                            *params,
                            plan.next_seq,
                            next.mutation_generation,
                            now,
                        ) && create_guards(plan.guards@, *queue, *sequence, params.task_id@),
                    }
                },
            },
        },
{
    if let Err(error) = check_create_params(params) {
        return Err(error);
    }
    match read_task_row_revisioned(rows, params.task_id.as_str()) {
        Err(error) => {
            return Err(error);
        },
        Ok(Some(existing)) => {
            return Err(TaskError::AlreadyExists { enqueue_seq: existing.task.enqueue_seq });
        },
        Ok(None) => {},
    }
    let next_seq: u64 = match sequence.value.checked_add(1) {
        Some(seq) => seq,
        None => {
            return Err(TaskError::SequenceExhausted);
        },
    };
    let next = match next_task_queue_state(&queue.state, now) {
        Err(error) => {
            return Err(error);
        },
        Ok(state) => state,
    };
    let task = AgentTask {
        schema_version: TASK_SCHEMA_VERSION,
        task_id: params.task_id.clone(),
        state: TaskState::Todo,
        title: params.title.clone(),
        description: params.description.clone(),
        acceptance: params.acceptance.clone(),
        priority: params.priority,
        template_id: params.template_id.clone(),
        template_params: copy_pairs(&params.template_params),
        enqueue_seq: next_seq,
        mutation_generation: next.mutation_generation,
        attempts: Vec::new(),
        dispatch_reservation: None,
        review_reason: None,
        created_unix_ms: now,
        updated_unix_ms: now,
    };
    assert(task@.attempts =~= Seq::<AttemptView>::empty());
    let mut guards: Vec<RevisionGuard> = Vec::new();
    guards.push(
        RevisionGuard {
            key: TASK_QUEUE_STATE_KEY.to_owned(),
            revision_sha256: Some(queue.revision_sha256),
        },
    );
    guards.push(
        RevisionGuard {
            key: TASK_SEQUENCE_KEY.to_owned(),
            revision_sha256: Some(sequence.revision_sha256),
        },
    );
    guards.push(
        RevisionGuard { key: task_key(params.task_id.as_str()), revision_sha256: None },
    );
    Ok(PreparedCreate { task, next_seq, next_queue: next, guards })
}

/// What a separate read found after the commit of a creation.
#[derive(Debug)]
pub struct CreateReadback {
    /// The bytes of the task row, if it is there.
    pub stored: Option<Vec<u8>>,
    /// What these bytes decode to.
    pub decoded: Option<AgentTask>,
    pub sequence: StoredSequence,
    pub queue: StoredQueueState,
}

/// The readback shows exactly the created row, under a watermark and a queue
/// generation that have reached it.
pub open spec fn create_proved(
    task: TaskView,
    encoded: Seq<u8>,
    stored: Seq<u8>,
    decoded: TaskView,
    sequence: RevisionedTaskSequence,
    queue: RevisionedTaskQueueState,
) -> bool {
    &&& stored == encoded
    &&& decoded.task_id == task.task_id
    &&& decoded.enqueue_seq == task.enqueue_seq
    &&& decoded.mutation_generation == task.mutation_generation
    &&& sequence.value >= task.enqueue_seq
    &&& queue.state.mutation_generation >= task.mutation_generation
}

/// Why an applied creation is not accepted, if it is not.
pub open spec fn applied_create_refusal(
    task: TaskView,
    encoded: Seq<u8>,
    readback: CreateReadback,
) -> Option<TaskError> {
    match readback.stored {
        None => Some(TaskError::MutationReadbackMissing),
        Some(stored) => match readback.decoded {
            None => Some(TaskError::RowUndecodable),
            Some(decoded) => match validate::decode_refusal(validate::task_key_spec(task.task_id), decoded@) {
                Some(error) => Some(error),
                None => match (store::sequence_reading(readback.sequence), store::queue_reading(readback.queue)) {
                    (Err(error), _) => Some(error),
                    (Ok(None), _) => Some(TaskError::SequenceMissing),
                    (Ok(Some(_)), Err(error)) => Some(error),
                    (Ok(Some(_)), Ok(None)) => Some(TaskError::QueueStateMissing),
                    (Ok(Some(sequence)), Ok(Some(queue))) => if create_proved(
                        task,
                        encoded,
                        stored@,
                        decoded@,
                        sequence,
                        queue,
                    ) {
                        None
                    } else {
                        Some(TaskError::CreateReadbackDrift)
                    },
                },
            },
        },
    }
}

/// Why a failed creation did not take effect, as far as can be proved, if it
/// did not.
pub open spec fn failed_create_refusal(
    task: TaskView,
    encoded: Seq<u8>,
    code: &'static str,
    readback: CreateReadback,
) -> Option<TaskError> {
    match (store::sequence_reading(readback.sequence), store::queue_reading(readback.queue)) {
        (Err(error), _) => Some(error),
        (Ok(_), Err(error)) => Some(error),
        (Ok(Some(sequence)), Ok(Some(queue))) => match readback.stored {
            None => Some(TaskError::CreateNotCommitted { code }),
            Some(stored) => match readback.decoded {
                None => Some(TaskError::RowUndecodable),
                Some(decoded) => match validate::decode_refusal(validate::task_key_spec(task.task_id), decoded@) {
                    Some(error) => Some(error),
                    None => if create_proved(
                        task,
                        encoded,
                        stored@,
                        decoded@,
                        sequence,
                        queue,
                    ) {
                        None
                    } else {
                        Some(TaskError::CreateNotCommitted { code })
                    },
                },
            },
        },
        _ => Some(TaskError::CreateNotCommitted { code }),
    }
}

fn proves_create(
    task: &AgentTask,
    encoded: &[u8],
    stored: &Vec<u8>,
    decoded: &AgentTask,
    sequence: &RevisionedTaskSequence,
    queue: &RevisionedTaskQueueState,
) -> (proved: bool)
    ensures
        proved == create_proved(task@, encoded@, stored@, decoded@, *sequence, *queue),
{
    text::bytes_equal(stored.as_slice(), encoded) && text::str_equal(
        decoded.task_id.as_str(),
        task.task_id.as_str(),
    ) && decoded.enqueue_seq == task.enqueue_seq && decoded.mutation_generation
        == task.mutation_generation && sequence.value >= task.enqueue_seq
        && queue.state.mutation_generation >= task.mutation_generation
}

fn check_applied_create(task: &AgentTask, encoded: &[u8], readback: &CreateReadback) -> (checked:
    Result<(), TaskError>)
    ensures
        checked == validate::verdict(applied_create_refusal(task@, encoded@, *readback)),
{
    let key = task_key(task.task_id.as_str());
    match (&readback.stored, &readback.decoded) {
        (None, _) => Err(TaskError::MutationReadbackMissing),
        (Some(_), None) => Err(TaskError::RowUndecodable),
        (Some(stored), Some(decoded)) => {
            if let Err(error) = check_task_row(key.as_str(), decoded) {
                return Err(error);
            }
            let sequence = match read_enqueue_seq_watermark_revisioned(&readback.sequence) {
                Err(error) => {
                    return Err(error);
                },
                Ok(None) => {
                    return Err(TaskError::SequenceMissing);
                },
                Ok(Some(found)) => found,
            };
            let queue = match read_task_queue_state_revisioned(&readback.queue) {
                Err(error) => {
                    return Err(error);
                },
                Ok(None) => {
                    return Err(TaskError::QueueStateMissing);
                },
                Ok(Some(found)) => found,
            };
            if proves_create(task, encoded, stored, decoded, &sequence, &queue) {
                Ok(())
            } else {
                Err(TaskError::CreateReadbackDrift)
            }
        },
    }
}

fn check_failed_create(
    task: &AgentTask,
    encoded: &[u8],
    code: &'static str,
    readback: &CreateReadback,
) -> (checked: Result<(), TaskError>)
    ensures
        checked == validate::verdict(failed_create_refusal(task@, encoded@, code, *readback)),
{
    let sequence = match read_enqueue_seq_watermark_revisioned(&readback.sequence) {
        Err(error) => {
            return Err(error);
        },
        Ok(found) => found,
    };
    let queue = match read_task_queue_state_revisioned(&readback.queue) {
        Err(error) => {
            return Err(error);
        },
        Ok(found) => found,
    };
    let key = task_key(task.task_id.as_str());
    match (&readback.stored, sequence, queue) {
        (Some(stored), Some(sequence), Some(queue)) => match &readback.decoded {
            None => Err(TaskError::RowUndecodable),
            Some(decoded) => {
                if let Err(error) = check_task_row(key.as_str(), decoded) {
                    return Err(error);
                }
                if proves_create(task, encoded, stored, decoded, &sequence, &queue) {
                    Ok(())
                } else {
                    Err(TaskError::CreateNotCommitted { code })
                }
            },
        },
        _ => Err(TaskError::CreateNotCommitted { code }),
    }
}

/// Why a creation that did not conflict is not accepted, if it is not.
pub open spec fn create_commit_refusal(
    task: TaskView,
    encoded: Seq<u8>,
    commit: CommitOutcome,
    readback: CreateReadback,
) -> Option<TaskError> {
    match commit {
        CommitOutcome::Failed { code } => failed_create_refusal(task, encoded, code, readback),
        _ => applied_create_refusal(task, encoded, readback),
    }
}

/// Decides what the commit of a creation came to. A conflict is retried; in any
/// other case only a readback of the exact row, under a watermark and a queue
/// generation that have reached it, counts as created.
pub fn settle_create(
    plan: PreparedCreate,
    encoded: &[u8],
    commit: CommitOutcome,
    readback: &CreateReadback,
    cf_name: &str,
    retry: usize,
) -> (settled_as: Result<MutationVerdict, TaskError>)
    ensures
        commit is Conflict ==> match store::retry_spec(retry) {
            Ok(next) => settled_as matches Ok(MutationVerdict::Retry(again)) && again == next,
            Err(error) => settled_as matches Err(given) && given == error,
        },
        !(commit is Conflict) ==> match create_commit_refusal(
            plan.task@,
            encoded@,
            commit,
            *readback,
        ) {
            Some(error) => settled_as matches Err(given) && given == error,
            None => settled_as matches Ok(MutationVerdict::Committed(response)) && response.ok
                && response.task == plan.task && response.written_row.cf_name@ == cf_name@
                && response.written_row.row_key@ == validate::task_key_spec(plan.task@.task_id)
                && response.written_row.value_len_bytes == encoded@.len(),
        },
{
    let checked = match commit {
        CommitOutcome::Conflict => {
            return match next_retry(retry) {
                Ok(next) => Ok(MutationVerdict::Retry(next)),
                Err(error) => Err(error),
            };
        },
        CommitOutcome::Failed { code } => check_failed_create(
            &plan.task,
            encoded,
            code,
            readback,
        ),
        CommitOutcome::Applied { .. } => check_applied_create(&plan.task, encoded, readback),
    };
    match checked {
        Err(error) => Err(error),
        Ok(()) => {
            let written_row = TaskRowReadback {
                cf_name: cf_name.to_owned(),
                row_key: task_key(plan.task.task_id.as_str()),
                value_len_bytes: encoded.len() as u64,
            };
            Ok(
                MutationVerdict::Committed(
                    TaskMutationResponse { ok: true, task: plan.task, written_row },
                ),
            )
        },
    }
}

proof fn lemma_params_ok(params: Seq<(Seq<char>, Seq<char>)>, from: int)
    requires
        0 <= from,
        validate::params_refusal(params, from) is None,
    ensures
        forall|i: int| from <= i < params.len()
            ==> validate::param_value_ok((#[trigger] params[i]).1),
    decreases params.len() - from,
{
    if from < params.len() {
        lemma_params_ok(params, from + 1);
    }
}

/// A task that was accepted for creation is a valid row under its own key,
/// whenever the clock runs.
pub proof fn law_created_rows_are_valid(
    params: TaskCreateParams,
    enqueue_seq: u64,
    generation: u64,
    now: u64,
)
    requires
        create_refusal(params) is None,
        enqueue_seq != 0,
        now != 0,
    ensures
        validate::row_valid(
            validate::task_key_spec(params.task_id@),
            created(params, enqueue_seq, generation, now),
        ),
{
    let task = created(params, enqueue_seq, generation, now);
    let key = validate::task_key_spec(params.task_id@);
    let prefix = validate::task_prefix_spec();
    lemma_params_ok(model::pair_views(params.template_params@), 0);
    assert(key.subrange(0, prefix.len() as int) =~= prefix);
    assert(key.subrange(prefix.len() as int, key.len() as int) =~= params.task_id@);
    assert(!params.task_id@.contains('/')) by {
        if params.task_id@.contains('/') {
            let i = choose|i: int|
                0 <= i < params.task_id@.len() && params.task_id@[i] == '/';
            assert(validate::is_id_char(params.task_id@[i]));
        }
    }
}

} // verus!
