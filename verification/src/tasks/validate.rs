//! Which requests and which stored task rows are well formed.
use crate::digest;
use crate::tasks::errors::{TaskError, TextField};
use crate::tasks::model;
use crate::tasks::model::{
    AgentTask, AttemptOutcome, AttemptView, MAX_PARAM_VALUE_BYTES, MAX_PRIORITY, MAX_TASK_ID_CHARS,
    MAX_TEXT_CHARS, MAX_TITLE_CHARS, MIN_PRIORITY, ReservationView,
    TASK_DISPATCH_RESERVATION_SCHEMA_VERSION, TASK_SCHEMA_VERSION, TaskAttempt,
    TaskDispatchReservation, TaskState, TaskView,
};
use crate::text;
use vstd::prelude::*;
use vstd::string::*;
use vstd::utf8::*;

verus! {

/// The characters of a task or template id.
pub open spec fn is_id_char(ch: char) -> bool {
    ('a' <= ch <= 'z') || ('0' <= ch <= '9') || ch == '.' || ch == '_' || ch == '-'
}

/// A non-empty string of id characters.
pub open spec fn is_kebab_spec(value: Seq<char>) -> bool {
    &&& value.len() > 0
    &&& forall|i: int| 0 <= i < value.len() ==> is_id_char(#[trigger] value[i])
}

/// Whether `value` is a non-empty string of id characters.
pub fn is_kebab_id(value: &str) -> (accepted: bool)
    ensures
        accepted == is_kebab_spec(value@),
{
    let chars = text::chars_of(value);
    if chars.len() == 0 {
        return false;
    }
    let mut index: usize = 0;
    while index < chars.len()
        invariant
            index <= chars@.len(),
            chars@ == value@,
            forall|i: int| 0 <= i < index ==> is_id_char(#[trigger] value@[i]),
        decreases chars@.len() - index,
    {
        let ch: char = chars[index];
        if !(('a' <= ch && ch <= 'z') || ('0' <= ch && ch <= '9') || ch == '.' || ch == '_' || ch
            == '-') {
            assert(!is_id_char(value@[index as int]));
            return false;
        }
        index = index + 1;
    }
    true
}

/// A task id: an id of at most two hundred characters.
pub open spec fn is_task_id(value: Seq<char>) -> bool {
    is_kebab_spec(value) && value.len() <= MAX_TASK_ID_CHARS
}

/// Whether `value` can name a task.
pub fn task_id_accepted(value: &str) -> (accepted: bool)
    ensures
        accepted == is_task_id(value@),
{
    is_kebab_id(value) && value.unicode_len() <= MAX_TASK_ID_CHARS
}

/// Refuses a text of more than `max` characters.
pub fn validate_text(field: TextField, value: &str, max: usize) -> (checked: Result<(), TaskError>)
    ensures
        checked == (if value@.len() > max {
            Err::<(), TaskError>(TaskError::TextTooLong { field, max })
        } else {
            Ok(())
        }),
{
    if value.unicode_len() > max {
        return Err(TaskError::TextTooLong { field, max });
    }
    Ok(())
}

/// Refuses a priority outside 1 to 5.
pub fn validate_priority(priority: u8) -> (checked: Result<(), TaskError>)
    ensures
        checked == (if 1 <= priority <= 5 {
            Ok::<(), TaskError>(())
        } else {
            Err(TaskError::PriorityOutOfRange { priority })
        }),
{
    if priority < MIN_PRIORITY || priority > MAX_PRIORITY {
        return Err(TaskError::PriorityOutOfRange { priority });
    }
    Ok(())
}

/// A parameter value that is not too long and holds no NUL.
pub open spec fn param_value_ok(value: Seq<char>) -> bool {
    encode_utf8(value).len() <= MAX_PARAM_VALUE_BYTES && !value.contains('\0')
}

/// Why the first unacceptable parameter from `from` on is refused.
pub open spec fn params_refusal(
    params: Seq<(Seq<char>, Seq<char>)>,
    from: int,
) -> Option<TaskError>
    decreases params.len() - from,
{
    if from < 0 || from >= params.len() {
        None
    } else if encode_utf8(params[from].1).len() > MAX_PARAM_VALUE_BYTES {
        Some(TaskError::ParamValueTooLong { index: from as usize })
    } else if params[from].1.contains('\0') {
        Some(TaskError::ParamValueHasNul { index: from as usize })
    } else {
        params_refusal(params, from + 1)
    }
}

/// `Ok` where nothing refuses, the refusal where something does.
pub open spec fn verdict(refusal: Option<TaskError>) -> Result<(), TaskError> {
    match refusal {
        Some(error) => Err(error),
        None => Ok(()),
    }
}

/// Refuses the first parameter whose value is too long or holds a NUL.
pub fn validate_template_params(params: &Vec<(String, String)>) -> (checked: Result<
    (),
    TaskError,
>)
    ensures
        checked == verdict(params_refusal(model::pair_views(params@), 0)),
        checked is Ok <==> forall|i: int|
            0 <= i < params@.len() ==> param_value_ok((#[trigger] params@[i]).1@),
{
    let mut index: usize = 0;
    while index < params.len()
        invariant
            index <= params@.len(),
            params_refusal(model::pair_views(params@), 0) == params_refusal(
                model::pair_views(params@),
                index as int,
            ),
            forall|i: int| 0 <= i < index ==> param_value_ok((#[trigger] params@[i]).1@),
        decreases params@.len() - index,
    {
        let value = params[index].1.as_str();
        assert(model::pair_views(params@)[index as int].1 == value@);
        if value.as_bytes().len() > MAX_PARAM_VALUE_BYTES {
            assert(!param_value_ok(params@[index as int].1@));
            return Err(TaskError::ParamValueTooLong { index });
        }
        if text::contains_char(value, '\0') {
            assert(!param_value_ok(params@[index as int].1@));
            return Err(TaskError::ParamValueHasNul { index });
        }
        index = index + 1;
    }
    Ok(())
}

/// A text that is absent or within the limit.
pub open spec fn text_fits(value: Option<Seq<char>>) -> bool {
    value matches Some(content) ==> content.len() <= MAX_TEXT_CHARS
}

fn opt_text_fits(value: &Option<String>) -> (fits: bool)
    ensures
        fits == text_fits(text::opt_text(*value)),
{
    match value {
        Some(content) => content.as_str().unicode_len() <= MAX_TEXT_CHARS,
        None => true,
    }
}

/// Whether every parameter value of a row is acceptable.
pub open spec fn param_values_ok(params: Seq<(Seq<char>, Seq<char>)>) -> bool {
    forall|i: int| 0 <= i < params.len() ==> param_value_ok((#[trigger] params[i]).1)
}

/// The plain fields of a stored task are within their limits.
pub open spec fn fields_valid(task: TaskView) -> bool {
    &&& is_task_id(task.task_id)
    &&& !text::is_blank_spec(task.title)
    &&& task.title.len() <= MAX_TITLE_CHARS
    &&& text_fits(task.description)
    &&& text_fits(task.acceptance)
    &&& is_kebab_spec(task.template_id)
    &&& param_values_ok(task.template_params)
    &&& 1 <= task.priority <= 5
    &&& text_fits(task.review_reason)
    &&& task.created_unix_ms != 0
    &&& task.created_unix_ms <= task.updated_unix_ms
}

/// An attempt is well formed at a position: pending attempts are bound to a
/// session and open, settled ones ended no earlier than they began.
pub open spec fn attempt_valid(attempt: AttemptView, index: int) -> bool {
    &&& attempt.attempt_id == index + 1
    &&& attempt.started_unix_ms != 0
    &&& attempt.outcome == AttemptOutcome::Pending ==> {
        &&& !text::is_blank_spec(attempt.session_id)
        &&& attempt.ended_unix_ms is None
        &&& attempt.reason is None
    }
    &&& attempt.outcome != AttemptOutcome::Pending ==> {
        &&& attempt.ended_unix_ms matches Some(ended)
        &&& attempt.started_unix_ms <= ended
    }
    &&& text_fits(attempt.reason)
}

/// How many attempts are pending.
pub open spec fn pending_count(attempts: Seq<AttemptView>) -> nat
    decreases attempts.len(),
{
    if attempts.len() == 0 {
        0
    } else {
        pending_count(attempts.drop_last()) + if attempts.last().outcome
            == AttemptOutcome::Pending {
            1nat
        } else {
            0nat
        }
    }
}

/// The session name that stands in for an agent while a reservation is held.
pub open spec fn reservation_session(reservation_id: Seq<char>) -> Seq<char> {
    "task-dispatch-reservation-"@ + reservation_id
}

/// A reservation owns the pending attempt of its task.
pub open spec fn reservation_valid(reservation: ReservationView, pending: AttemptView) -> bool {
    &&& reservation.schema_version == TASK_DISPATCH_RESERVATION_SCHEMA_VERSION
    &&& digest::is_lower_sha256_spec(reservation.reservation_id)
    &&& reservation.reserved_unix_ms != 0
    &&& reservation.reserved_unix_ms < reservation.expires_at_unix_ms
    &&& pending.session_id == reservation_session(reservation.reservation_id)
    &&& pending.started_unix_ms == reservation.reserved_unix_ms
    &&& pending.spawn_id is None
    &&& pending.template_version is None
}

/// The first attempt from `from` on that is out of order or malformed.
pub open spec fn attempts_refusal(attempts: Seq<AttemptView>, from: int) -> Option<TaskError>
    decreases attempts.len() - from,
{
    if from < 0 || from >= attempts.len() {
        None
    } else if from >= u32::MAX {
        Some(TaskError::AttemptIdExhausted)
    } else if !attempt_valid(attempts[from], from) {
        Some(TaskError::AttemptInvalid { index: from as usize })
    } else {
        attempts_refusal(attempts, from + 1)
    }
}

/// Exactly the in-progress tasks have a pending attempt, and then one.
pub open spec fn expected_pending(state: TaskState) -> nat {
    if state == TaskState::InProgress {
        1
    } else {
        0
    }
}

/// Why a stored task is refused, if it is.
pub open spec fn row_refusal(task: TaskView) -> Option<TaskError> {
    if !fields_valid(task) {
        Some(TaskError::RowFieldsInvalid)
    } else if attempts_refusal(task.attempts, 0) is Some {
        attempts_refusal(task.attempts, 0)
    } else if pending_count(task.attempts) != expected_pending(task.state) {
        Some(
            TaskError::PendingAttemptInvariant { pending: pending_count(task.attempts) as usize },
        )
    } else {
        match task.dispatch_reservation {
            Some(reservation) => match task.live() {
                None => Some(TaskError::ReservationAttemptMissing),
                Some(pending) => if reservation_valid(reservation, pending) {
                    None
                } else {
                    Some(TaskError::ReservationInvalid)
                },
            },
            None => None,
        }
    }
}

/// A stored task that every operation accepts.
pub open spec fn task_valid(task: TaskView) -> bool {
    row_refusal(task) is None
}

/// The session name that stands in for an agent while the reservation is held.
pub fn reservation_session_id(reservation_id: &str) -> (session: String)
    ensures
        session@ == reservation_session(reservation_id@),
{
    text::joined("task-dispatch-reservation-", reservation_id)
}

fn row_fields_accepted(task: &AgentTask) -> (accepted: bool)
    ensures
        accepted == fields_valid(task@),
{
    let params_ok = validate_template_params(&task.template_params).is_ok();
    proof {
        assert(forall|i: int|
            0 <= i < task.template_params@.len() ==> (#[trigger] task@.template_params[i]).1
                == task.template_params@[i].1@);
        if param_values_ok(task@.template_params) {
            assert forall|i: int| 0 <= i < task.template_params@.len() implies param_value_ok(
                (#[trigger] task.template_params@[i]).1@,
            ) by {
                assert(param_value_ok(task@.template_params[i].1));
            }
        }
    }
    task_id_accepted(task.task_id.as_str()) && !text::is_blank(task.title.as_str())
        && task.title.as_str().unicode_len() <= MAX_TITLE_CHARS && opt_text_fits(&task.description)
        && opt_text_fits(&task.acceptance) && is_kebab_id(task.template_id.as_str()) && params_ok
        && task.priority >= MIN_PRIORITY && task.priority <= MAX_PRIORITY && opt_text_fits(
        &task.review_reason,
    ) && task.created_unix_ms != 0 && task.created_unix_ms <= task.updated_unix_ms
}

fn attempt_accepted(attempt: &TaskAttempt, index: u32) -> (accepted: bool)
    requires
        index < u32::MAX,
    ensures
        accepted == attempt_valid(attempt@, index as int),
{
    if attempt.attempt_id != index + 1 || attempt.started_unix_ms == 0 || !opt_text_fits(
        &attempt.reason,
    ) {
        return false;
    }
    if attempt.outcome == AttemptOutcome::Pending {
        !text::is_blank(attempt.session_id.as_str()) && attempt.ended_unix_ms.is_none()
            && attempt.reason.is_none()
    } else {
        match attempt.ended_unix_ms {
            Some(ended) => attempt.started_unix_ms <= ended,
            None => false,
        }
    }
}

fn reservation_accepted(reservation: &TaskDispatchReservation, pending: &TaskAttempt) -> (accepted:
    bool)
    ensures
        accepted == reservation_valid(reservation@, pending@),
{
    reservation.schema_version == TASK_DISPATCH_RESERVATION_SCHEMA_VERSION
        && digest::is_lower_sha256(reservation.reservation_id.as_str())
        && reservation.reserved_unix_ms != 0 && reservation.reserved_unix_ms
        < reservation.expires_at_unix_ms && text::str_equal(
        pending.session_id.as_str(),
        reservation_session_id(reservation.reservation_id.as_str()).as_str(),
    ) && pending.started_unix_ms == reservation.reserved_unix_ms && pending.spawn_id.is_none()
        && pending.template_version.is_none()
}

/// Refuses a stored task whose fields, attempts or reservation are not what
/// every operation keeps them to be.
pub fn validate_decoded_task(task: &AgentTask) -> (checked: Result<(), TaskError>)
    ensures
        checked == verdict(row_refusal(task@)),
{
    if !row_fields_accepted(task) {
        return Err(TaskError::RowFieldsInvalid);
    }
    let mut index: usize = 0;
    let mut pending: usize = 0;
    assert(task@.attempts.subrange(0, 0) =~= Seq::<AttemptView>::empty());
    while index < task.attempts.len()
        invariant
            fields_valid(task@),
            index <= task.attempts@.len(),
            attempts_refusal(task@.attempts, 0) == attempts_refusal(task@.attempts, index as int),
            pending == pending_count(task@.attempts.subrange(0, index as int)),
            pending <= index,
        decreases task.attempts@.len() - index,
    {
        assert(task@.attempts[index as int] == task.attempts@[index as int]@);
        if index >= u32::MAX as usize {
            return Err(TaskError::AttemptIdExhausted);
        }
        if !attempt_accepted(&task.attempts[index], index as u32) {
            return Err(TaskError::AttemptInvalid { index });
        }
        proof {
            let longer = task@.attempts.subrange(0, index as int + 1);
            assert(longer.drop_last() =~= task@.attempts.subrange(0, index as int));
        }
        if task.attempts[index].outcome == AttemptOutcome::Pending {
            pending = pending + 1;
        }
        index = index + 1;
    }
    assert(task@.attempts.subrange(0, task@.attempts.len() as int) =~= task@.attempts);
    let expected: usize = if task.state == TaskState::InProgress {
        1
    } else {
        0
    };
    if pending != expected {
        return Err(TaskError::PendingAttemptInvariant { pending });
    }
    match &task.dispatch_reservation {
        Some(reservation) => match task.live_attempt() {
            None => Err(TaskError::ReservationAttemptMissing),
            Some(attempt) => if reservation_accepted(reservation, attempt) {
                Ok(())
            } else {
                Err(TaskError::ReservationInvalid)
            },
        },
        None => Ok(()),
    }
}

/// Every task key begins with this.
pub open spec fn task_prefix_spec() -> Seq<char> {
    "agent-task/v1/task/"@
}

/// The row key of a task.
pub open spec fn task_key_spec(task_id: Seq<char>) -> Seq<char> {
    task_prefix_spec() + task_id
}

/// What every task key begins with.
pub fn task_prefix() -> (prefix: String)
    ensures
        prefix@ == task_prefix_spec(),
{
    "agent-task/v1/task/".to_owned()
}

/// The row key of the task `task_id`.
pub fn task_key(task_id: &str) -> (key: String)
    ensures
        key@ == task_key_spec(task_id@),
{
    text::joined("agent-task/v1/task/", task_id)
}

/// Two tasks share a row key only where they share their id.
pub proof fn law_task_keys_are_distinct(left: Seq<char>, right: Seq<char>)
    requires
        task_key_spec(left) == task_key_spec(right),
    ensures
        left == right,
{
    let prefix = task_prefix_spec();
    assert(left =~= task_key_spec(left).subrange(
        prefix.len() as int,
        task_key_spec(left).len() as int,
    ));
    assert(right =~= task_key_spec(right).subrange(
        prefix.len() as int,
        task_key_spec(right).len() as int,
    ));
}

/// The least key after `key`: `key` and a zero byte.
pub fn key_after(key: &[u8]) -> (next: Vec<u8>)
    ensures
        next@ == key@.push(0),
{
    let mut next: Vec<u8> = Vec::new();
    let mut index: usize = 0;
    while index < key.len()
        invariant
            index <= key@.len(),
            next@ == key@.subrange(0, index as int),
        decreases key@.len() - index,
    {
        next.push(key[index]);
        index = index + 1;
        assert(next@ =~= key@.subrange(0, index as int));
    }
    assert(key@.subrange(0, key@.len() as int) =~= key@);
    next.push(0);
    next
}

/// Why the row at `row_key` that decodes to `task` is refused, if it is.
pub open spec fn decode_refusal(row_key: Seq<char>, task: TaskView) -> Option<TaskError> {
    if !text::has_prefix(row_key, task_prefix_spec()) {
        Some(TaskError::RowKeyInvalid)
    } else {
        let id = row_key.subrange(task_prefix_spec().len() as int, row_key.len() as int);
        if id.len() == 0 || id.contains('/') || task.schema_version != TASK_SCHEMA_VERSION
            || task.task_id != id || task.enqueue_seq == 0 {
            Some(TaskError::RowIdentityInvalid)
        } else {
            row_refusal(task)
        }
    }
}

/// The row at `row_key` is a task that every operation accepts.
pub open spec fn row_valid(row_key: Seq<char>, task: TaskView) -> bool {
    decode_refusal(row_key, task) is None
}

/// Checks that a decoded row belongs under its key and is well formed.
pub fn check_task_row(row_key: &str, task: &AgentTask) -> (checked: Result<(), TaskError>)
    ensures
        checked == verdict(decode_refusal(row_key@, task@)),
{
    match text::strip_prefix(row_key, "agent-task/v1/task/") {
        None => Err(TaskError::RowKeyInvalid),
        Some(id) => {
            if id.is_empty() || text::contains_char(id, '/') || task.schema_version
                != TASK_SCHEMA_VERSION || !text::str_equal(task.task_id.as_str(), id)
                || task.enqueue_seq == 0 {
                return Err(TaskError::RowIdentityInvalid);
            }
            validate_decoded_task(task)
        },
    }
}

/// The task that a stored row holds: what its bytes decode to, checked against
/// the key that it is stored under. `decoded` is empty where the bytes are no
/// task.
pub fn decode_task(row_key: &str, decoded: Option<AgentTask>) -> (task: Result<
    AgentTask,
    TaskError,
>)
    ensures
        decoded is None ==> task == Err::<AgentTask, TaskError>(TaskError::RowUndecodable),
        decoded matches Some(row) ==> match decode_refusal(row_key@, row@) {
            Some(error) => task == Err::<AgentTask, TaskError>(error),
            None => task == Ok::<AgentTask, TaskError>(row),
        },
{
    match decoded {
        None => Err(TaskError::RowUndecodable),
        Some(row) => match check_task_row(row_key, &row) {
            Ok(()) => Ok(row),
            Err(error) => Err(error),
        },
    }
}

} // verus!
