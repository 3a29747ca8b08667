//! Task rows, attempts, reservations, and the requests and responses about them.
use crate::text;
use vstd::prelude::*;
use vstd::string::*;

verus! {

/// The row of the enqueue watermark.
pub const TASK_SEQUENCE_KEY: &'static str = "agent-task/v1/meta/last_enqueue_seq";

/// The row of the queue state.
pub const TASK_QUEUE_STATE_KEY: &'static str = "agent-task/v2/meta/queue_state";

pub const TASK_SCHEMA_VERSION: u32 = 1;

pub const TASK_QUEUE_STATE_SCHEMA_VERSION: u32 = 1;

pub const TASK_CREATE_MAX_CONFLICT_RETRIES: usize = 64;

pub const TASK_DISPATCH_RESERVATION_SCHEMA_VERSION: u32 = 1;

pub const TASK_DISPATCH_RESERVATION_MIN_LEASE_MS: u64 = 900_000;

pub const TASK_DISPATCH_RESERVATION_GRACE_MS: u64 = 300_000;

pub const MAX_TASK_ID_CHARS: usize = 200;

pub const MAX_TITLE_CHARS: usize = 500;

pub const MAX_TEXT_CHARS: usize = 16_384;

pub const MAX_PARAM_VALUE_BYTES: usize = 16_384;

pub const MIN_PRIORITY: u8 = 1;

pub const MAX_PRIORITY: u8 = 5;

pub const MAX_LIST_TASKS: usize = 1_000;

pub const TERMINAL_TASK_RETENTION_MS: u64 = 604_800_000;

pub const TERMINAL_TASK_RETAIN_ROWS: usize = 5_000;

pub const DELETE_BATCH_ROWS: usize = 512;

/// How many in-flight tasks the dispatcher allows where a caller names no cap.
pub const DEFAULT_CONCURRENCY_CAP: usize = 8;

/// Dashboard dispatches often wait for a human approval, so they wait at least
/// this long.
pub const DASHBOARD_TASK_DISPATCH_WAIT_TIMEOUT_MS: u64 = 600_000;

/// The longest wait that a dispatch accepts.
pub const MAX_DISPATCH_WAIT_TIMEOUT_MS: u64 = 1_800_000;

/// The lifecycle states of a task; `Done` and `Cancelled` are terminal.
#[derive(Clone, Copy, Debug, PartialEq, Eq, Structural)]
pub enum TaskState {
    Todo,
    InProgress,
    Review,
    Done,
    Cancelled,
}

impl TaskState {
    /// The name under which a state is stored and shown.
    pub open spec fn name(self) -> Seq<char> {
        match self {
            TaskState::Todo => "todo"@,
            TaskState::InProgress => "in_progress"@,
            TaskState::Review => "review"@,
            TaskState::Done => "done"@,
            TaskState::Cancelled => "cancelled"@,
        }
    }

    /// The name under which this state is stored and shown.
    pub fn as_str(self) -> (name: &'static str)
        ensures
            name@ == self.name(),
    {
        match self {
            TaskState::Todo => "todo",
            TaskState::InProgress => "in_progress",
            TaskState::Review => "review",
            TaskState::Done => "done",
            TaskState::Cancelled => "cancelled",
        }
    }

    /// `Done` and `Cancelled`.
    pub open spec fn terminal(self) -> bool {
        self == TaskState::Done || self == TaskState::Cancelled
    }

    /// Whether no transition leaves this state.
    pub fn is_terminal(self) -> (terminal: bool)
        ensures
            terminal == self.terminal(),
    {
        match self {
            TaskState::Done => true,
            TaskState::Cancelled => true,
            _ => false,
        }
    }

    /// The transition matrix.
    pub open spec fn reaches(self, to: TaskState) -> bool {
        match self {
            TaskState::Todo => to == TaskState::InProgress || to == TaskState::Cancelled,
            TaskState::InProgress => to != TaskState::InProgress,
            TaskState::Review => to != TaskState::Review,
            TaskState::Done => false,
            TaskState::Cancelled => false,
        }
    }

    /// Whether the transition matrix has an edge from this state to `to`.
    pub fn can_transition_to(self, to: TaskState) -> (allowed: bool)
        ensures
            allowed == self.reaches(to),
    {
        match (self, to) {
            (TaskState::Todo, TaskState::InProgress) => true,
            (TaskState::Todo, TaskState::Cancelled) => true,
            (TaskState::InProgress, TaskState::Review) => true,
            (TaskState::InProgress, TaskState::Done) => true,
            (TaskState::InProgress, TaskState::Cancelled) => true,
            (TaskState::InProgress, TaskState::Todo) => true,
            (TaskState::Review, TaskState::Done) => true,
            (TaskState::Review, TaskState::Todo) => true,
            (TaskState::Review, TaskState::InProgress) => true,
            (TaskState::Review, TaskState::Cancelled) => true,
            _ => false,
        }
    }

    /// The states in the order in which targets are listed.
    pub open spec fn listed() -> Seq<TaskState> {
        seq![
            TaskState::Todo,
            TaskState::InProgress,
            TaskState::Review,
            TaskState::Done,
            TaskState::Cancelled,
        ]
    }

    /// The states that this one can move to, in listed order.
    pub open spec fn targets(self) -> Seq<TaskState> {
        TaskState::listed().filter(|to: TaskState| self.reaches(to))
    }

    /// The names of the states that this one can move to, in listed order.
    pub fn allowed_targets(self) -> (names: Vec<&'static str>)
        ensures
            names@.len() == self.targets().len(),
            forall|i: int|
                0 <= i < names@.len() ==> (#[trigger] names@[i])@ == self.targets()[i].name(),
    {
        let all: [TaskState; 5] = [
            TaskState::Todo,
            TaskState::InProgress,
            TaskState::Review,
            TaskState::Done,
            TaskState::Cancelled,
        ];
        let mut names: Vec<&'static str> = Vec::new();
        let mut index: usize = 0;
        let test = Ghost(|to: TaskState| self.reaches(to));
        assert(all@ =~= TaskState::listed());
        proof {
            reveal(Seq::filter);
            assert(all@.subrange(0, 0) =~= Seq::<TaskState>::empty());
        }
        while index < 5
            invariant
                index <= 5,
                all@ == TaskState::listed(),
                test@ == (|to: TaskState| self.reaches(to)),
                names@.len() == all@.subrange(0, index as int).filter(test@).len(),
                forall|i: int|
                    0 <= i < names@.len() ==> (#[trigger] names@[i])@ == all@.subrange(
                        0,
                        index as int,
                    ).filter(test@)[i].name(),
            decreases 5 - index,
        {
            proof {
                reveal(Seq::filter);
                let longer = all@.subrange(0, index as int + 1);
                assert(longer.drop_last() =~= all@.subrange(0, index as int));
                assert(longer.last() == all@[index as int]);
            }
            if self.can_transition_to(all[index]) {
                names.push(all[index].as_str());
            }
            index = index + 1;
        }
        assert(all@.subrange(0, 5) =~= TaskState::listed());
        names
    }
}

/// Terminal states are sinks, and every other state reaches `Cancelled`.
pub proof fn law_terminal_states_are_sinks(from: TaskState, to: TaskState)
    ensures
        from.terminal() ==> !from.reaches(to),
        !from.terminal() ==> from.reaches(TaskState::Cancelled),
        !from.reaches(from),
{
}

/// A task is listed as a target exactly where the matrix allows the move.
pub proof fn law_listed_targets_are_the_reachable_states(from: TaskState, to: TaskState)
    ensures
        from.targets().contains(to) <==> from.reaches(to),
{
    let all = TaskState::listed();
    let test = |state: TaskState| from.reaches(state);
    broadcast use vstd::seq_lib::group_filter_ensures;

    assert(all[0] == TaskState::Todo && all[1] == TaskState::InProgress && all[2]
        == TaskState::Review && all[3] == TaskState::Done && all[4] == TaskState::Cancelled);
    assert(all.contains(to));
    if from.reaches(to) {
        let i = choose|i: int| 0 <= i < all.len() && all[i] == to;
        assert(test(all[i]));
        assert(all.filter(test).contains(all[i]));
    }
    if from.targets().contains(to) {
        let i = choose|i: int| 0 <= i < from.targets().len() && from.targets()[i] == to;
        assert(test(from.targets()[i]));
    }
}

/// The outcome of one dispatch attempt.
#[derive(Clone, Copy, Debug, PartialEq, Eq, Structural)]
pub enum AttemptOutcome {
    /// The attempt is live: its session is expected to be working the task.
    Pending,
    Succeeded,
    Failed,
    /// The attempt's session vanished before completion.
    Orphaned,
}

/// One dispatch attempt of a task.
#[derive(Debug)]
pub struct TaskAttempt {
    /// One-based position in the task's list of attempts.
    pub attempt_id: u32,
    /// The session bound to this attempt.
    pub session_id: String,
    /// The spawned agent, where a dispatch created the attempt.
    pub spawn_id: Option<String>,
    /// The version of the template that the attempt was dispatched with.
    pub template_version: Option<u32>,
    pub outcome: AttemptOutcome,
    pub started_unix_ms: u64,
    pub ended_unix_ms: Option<u64>,
    pub reason: Option<String>,
}

/// A [`TaskAttempt`] with its strings taken as sequences of characters.
pub struct AttemptView {
    pub attempt_id: u32,
    pub session_id: Seq<char>,
    pub spawn_id: Option<Seq<char>>,
    pub template_version: Option<u32>,
    pub outcome: AttemptOutcome,
    pub started_unix_ms: u64,
    pub ended_unix_ms: Option<u64>,
    pub reason: Option<Seq<char>>,
}

impl View for TaskAttempt {
    type V = AttemptView;

    open spec fn view(&self) -> AttemptView {
        AttemptView {
            attempt_id: self.attempt_id,
            session_id: self.session_id@,
            spawn_id: text::opt_text(self.spawn_id),
            template_version: self.template_version,
            outcome: self.outcome,
            started_unix_ms: self.started_unix_ms,
            ended_unix_ms: self.ended_unix_ms,
            reason: text::opt_text(self.reason),
        }
    }
}

impl Clone for TaskAttempt {
    fn clone(&self) -> (copy: Self)
        ensures
            copy@ == self@,
    {
        TaskAttempt {
            attempt_id: self.attempt_id,
            session_id: self.session_id.clone(),
            spawn_id: self.spawn_id.clone(),
            template_version: self.template_version,
            outcome: self.outcome,
            started_unix_ms: self.started_unix_ms,
            ended_unix_ms: self.ended_unix_ms,
            reason: self.reason.clone(),
        }
    }
}

/// The durable admission that one dispatch call owns before any agent process
/// can be launched. It already counts toward the concurrency cap.
#[derive(Debug)]
pub struct TaskDispatchReservation {
    pub schema_version: u32,
    pub reservation_id: String,
    pub reserved_unix_ms: u64,
    pub expires_at_unix_ms: u64,
}

/// A [`TaskDispatchReservation`] with its string taken as characters.
pub struct ReservationView {
    pub schema_version: u32,
    pub reservation_id: Seq<char>,
    pub reserved_unix_ms: u64,
    pub expires_at_unix_ms: u64,
}

impl View for TaskDispatchReservation {
    type V = ReservationView;

    open spec fn view(&self) -> ReservationView {
        ReservationView {
            schema_version: self.schema_version,
            reservation_id: self.reservation_id@,
            reserved_unix_ms: self.reserved_unix_ms,
            expires_at_unix_ms: self.expires_at_unix_ms,
        }
    }
}

impl Clone for TaskDispatchReservation {
    fn clone(&self) -> (copy: Self)
        ensures
            copy@ == self@,
    {
        TaskDispatchReservation {
            schema_version: self.schema_version,
            reservation_id: self.reservation_id.clone(),
            reserved_unix_ms: self.reserved_unix_ms,
            expires_at_unix_ms: self.expires_at_unix_ms,
        }
    }
}

/// The durable task record, one row per task.
#[derive(Debug)]
pub struct AgentTask {
    pub schema_version: u32,
    pub task_id: String,
    pub state: TaskState,
    pub title: String,
    pub description: Option<String>,
    pub acceptance: Option<String>,
    /// 1 (highest) to 5 (lowest).
    pub priority: u8,
    /// The template that a dispatcher spawns the agent of the task from.
    pub template_id: String,
    /// The parameters passed to the template, by ascending name.
    pub template_params: Vec<(String, String)>,
    /// Global enqueue sequence: first in, first out within a tier.
    pub enqueue_seq: u64,
    /// Queue-wide mutation generation written with this row.
    pub mutation_generation: u64,
    pub attempts: Vec<TaskAttempt>,
    /// Present only between dispatch admission and its binding or failure.
    pub dispatch_reservation: Option<TaskDispatchReservation>,
    /// Why the task entered review, where that was no success.
    pub review_reason: Option<String>,
    pub created_unix_ms: u64,
    pub updated_unix_ms: u64,
}

/// An [`AgentTask`] with its strings and lists taken as sequences.
pub struct TaskView {
    pub schema_version: u32,
    pub task_id: Seq<char>,
    pub state: TaskState,
    pub title: Seq<char>,
    pub description: Option<Seq<char>>,
    pub acceptance: Option<Seq<char>>,
    pub priority: u8,
    pub template_id: Seq<char>,
    pub template_params: Seq<(Seq<char>, Seq<char>)>,
    pub enqueue_seq: u64,
    pub mutation_generation: u64,
    pub attempts: Seq<AttemptView>,
    pub dispatch_reservation: Option<ReservationView>,
    pub review_reason: Option<Seq<char>>,
    pub created_unix_ms: u64,
    pub updated_unix_ms: u64,
}

/// The views of a list of attempts.
pub open spec fn attempt_views(attempts: Seq<TaskAttempt>) -> Seq<AttemptView> {
    Seq::new(attempts.len(), |i: int| attempts[i]@)
}

/// The views of a list of name and value pairs.
pub open spec fn pair_views(pairs: Seq<(String, String)>) -> Seq<(Seq<char>, Seq<char>)> {
    Seq::new(pairs.len(), |i: int| (pairs[i].0@, pairs[i].1@))
}

/// The view of an optional reservation.
pub open spec fn reservation_view(reservation: Option<TaskDispatchReservation>) -> Option<
    ReservationView,
> {
    match reservation {
        Some(held) => Some(held@),
        None => None,
    }
}

impl View for AgentTask {
    type V = TaskView;

    open spec fn view(&self) -> TaskView {
        TaskView {
            schema_version: self.schema_version,
            task_id: self.task_id@,
            state: self.state,
            title: self.title@,
            description: text::opt_text(self.description),
            acceptance: text::opt_text(self.acceptance),
            priority: self.priority,
            template_id: self.template_id@,
            template_params: pair_views(self.template_params@),
            enqueue_seq: self.enqueue_seq,
            mutation_generation: self.mutation_generation,
            attempts: attempt_views(self.attempts@),
            dispatch_reservation: reservation_view(self.dispatch_reservation),
            review_reason: text::opt_text(self.review_reason),
            created_unix_ms: self.created_unix_ms,
            updated_unix_ms: self.updated_unix_ms,
        }
    }
}

/// Copies a list of name and value pairs.
pub fn copy_pairs(pairs: &Vec<(String, String)>) -> (copy: Vec<(String, String)>)
    ensures
        pair_views(copy@) == pair_views(pairs@),
{
    let mut copy: Vec<(String, String)> = Vec::new();
    let mut index: usize = 0;
    while index < pairs.len()
        invariant
            index <= pairs@.len(),
            copy@.len() == index,
            forall|k: int|
                0 <= k < index ==> (#[trigger] copy@[k]).0@ == pairs@[k].0@ && copy@[k].1@
                    == pairs@[k].1@,
        decreases pairs@.len() - index,
    {
        copy.push((pairs[index].0.clone(), pairs[index].1.clone()));
        index = index + 1;
    }
    assert(pair_views(copy@) =~= pair_views(pairs@));
    copy
}

/// Copies a list of attempts.
pub fn copy_attempts(attempts: &Vec<TaskAttempt>) -> (copy: Vec<TaskAttempt>)
    ensures
        attempt_views(copy@) == attempt_views(attempts@),
{
    let mut copy: Vec<TaskAttempt> = Vec::new();
    let mut index: usize = 0;
    while index < attempts.len()
        invariant
            index <= attempts@.len(),
            copy@.len() == index,
            forall|k: int| 0 <= k < index ==> (#[trigger] copy@[k])@ == attempts@[k]@,
        decreases attempts@.len() - index,
    {
        copy.push(attempts[index].clone());
        index = index + 1;
    }
    assert(attempt_views(copy@) =~= attempt_views(attempts@));
    copy
}

impl Clone for AgentTask {
    fn clone(&self) -> (copy: Self)
        ensures
            copy@ == self@,
    {
        AgentTask {
            schema_version: self.schema_version,
            task_id: self.task_id.clone(),
            state: self.state,
            title: self.title.clone(),
            description: self.description.clone(),
            acceptance: self.acceptance.clone(),
            priority: self.priority,
            template_id: self.template_id.clone(),
            template_params: copy_pairs(&self.template_params),
            enqueue_seq: self.enqueue_seq,
            mutation_generation: self.mutation_generation,
            attempts: copy_attempts(&self.attempts),
            dispatch_reservation: match &self.dispatch_reservation {
                Some(held) => Some(held.clone()),
                None => None,
            },
            review_reason: self.review_reason.clone(),
            created_unix_ms: self.created_unix_ms,
            updated_unix_ms: self.updated_unix_ms,
        }
    }
}

/// The position of the first pending attempt from `from` on.
pub open spec fn first_pending(attempts: Seq<AttemptView>, from: int) -> Option<int>
    decreases attempts.len() - from,
{
    if from < 0 || from >= attempts.len() {
        None
    } else if attempts[from].outcome == AttemptOutcome::Pending {
        Some(from)
    } else {
        first_pending(attempts, from + 1)
    }
}

impl TaskView {
    /// The live attempt, if any.
    pub open spec fn live(self) -> Option<AttemptView> {
        match first_pending(self.attempts, 0) {
            Some(index) => Some(self.attempts[index]),
            None => None,
        }
    }

    /// Whether the task counts toward the concurrency cap.
    pub open spec fn in_flight(self) -> bool {
        self.state == TaskState::InProgress
    }
}

impl AgentTask {
    /// The position of the first pending attempt.
    pub fn live_index(&self) -> (found: Option<usize>)
        ensures
            found is Some == first_pending(self@.attempts, 0) is Some,
            found matches Some(index) ==> first_pending(self@.attempts, 0) == Some(index as int)
                && index < self.attempts@.len() && self.attempts@[index as int].outcome
                == AttemptOutcome::Pending,
    {
        let mut index: usize = 0;
        while index < self.attempts.len()
            invariant
                index <= self.attempts@.len(),
                first_pending(self@.attempts, 0) == first_pending(self@.attempts, index as int),
            decreases self.attempts@.len() - index,
        {
            assert(self@.attempts[index as int] == self.attempts@[index as int]@);
            if self.attempts[index].outcome == AttemptOutcome::Pending {
                return Some(index);
            }
            index = index + 1;
        }
        None
    }

    /// The live (pending) attempt, if any: the one that reconciliation checks.
    pub fn live_attempt(&self) -> (found: Option<&TaskAttempt>)
        ensures
            found is Some == self@.live() is Some,
            found matches Some(attempt) ==> self@.live() == Some(attempt@) && attempt.outcome
                == AttemptOutcome::Pending,
    {
        match self.live_index() {
            Some(index) => Some(&self.attempts[index]),
            None => None,
        }
    }

    /// Whether the task counts toward the concurrency cap.
    pub fn is_in_flight(&self) -> (in_flight: bool)
        ensures
            in_flight == self@.in_flight(),
    {
        match self.state {
            TaskState::InProgress => true,
            _ => false,
        }
    }
}

/// Asks for a new task.
#[derive(Debug)]
pub struct TaskCreateParams {
    /// Stable task id (`[a-z0-9._-]`).
    pub task_id: String,
    pub title: String,
    pub description: Option<String>,
    pub acceptance: Option<String>,
    /// 1 (highest) to 5 (lowest).
    pub priority: u8,
    /// Template to dispatch the agent of the task from.
    pub template_id: String,
    /// Template parameters by ascending name.
    pub template_params: Vec<(String, String)>,
}

/// The priority of a task whose request names none.
pub fn default_priority() -> (priority: u8)
    ensures
        priority == 3,
{
    3
}

/// Where a row was written and how long its value is.
#[derive(Debug)]
pub struct TaskRowReadback {
    pub cf_name: String,
    pub row_key: String,
    pub value_len_bytes: u64,
}

/// The task after a mutation, and the row that holds it.
#[derive(Debug)]
pub struct TaskMutationResponse {
    pub ok: bool,
    pub task: AgentTask,
    pub written_row: TaskRowReadback,
}

/// Names one task.
#[derive(Debug)]
pub struct TaskIdParams {
    pub task_id: String,
}

/// One task.
#[derive(Debug)]
pub struct TaskGetResponse {
    pub ok: bool,
    pub task: AgentTask,
}

/// Asks to move or edit a task.
#[derive(Debug)]
pub struct TaskUpdateParams {
    pub task_id: String,
    /// The state to move to.
    pub state: Option<TaskState>,
    /// The reason recorded for the transition.
    pub reason: Option<String>,
    pub priority: Option<u8>,
    pub title: Option<String>,
    pub description: Option<String>,
    pub acceptance: Option<String>,
}

/// Asks to claim a task for a session.
#[derive(Debug)]
pub struct TaskClaimParams {
    pub task_id: String,
    /// The session that claims the task.
    pub session_id: String,
}

/// Asks to cancel a task.
#[derive(Debug)]
pub struct TaskCancelParams {
    pub task_id: String,
    pub reason: Option<String>,
}

/// Asks for a list of tasks.
#[derive(Debug)]
pub struct TaskListParams {
    /// Keep only the tasks in this state.
    pub state: Option<TaskState>,
    pub max: usize,
}

/// The length of a list whose request names none.
pub fn default_max_list() -> (max: usize)
    ensures
        max == 1000,
{
    MAX_LIST_TASKS
}

/// A list of tasks.
#[derive(Debug)]
pub struct TaskListResponse {
    pub ok: bool,
    pub count: usize,
    /// The queue in dispatch order (priority, fairness, FIFO); then the other
    /// states by enqueue sequence.
    pub tasks: Vec<AgentTask>,
    /// The tasks that reconciliation flagged as orphaned during this read.
    pub reconciled_orphans: Vec<String>,
}

/// Asks which task is dispatched next.
#[derive(Debug)]
pub struct TaskNextParams {
    /// The most tasks that may be in flight.
    pub concurrency_cap: usize,
}

/// The concurrency cap of a request that names none.
pub fn default_cap() -> (cap: usize)
    ensures
        cap == 8,
{
    DEFAULT_CONCURRENCY_CAP
}

/// The next task, or why there is none.
#[derive(Debug)]
pub struct TaskNextResponse {
    pub ok: bool,
    /// `dispatch`, `empty`, or `at_capacity:N`.
    pub decision: String,
    pub task: Option<AgentTask>,
    pub in_flight: usize,
    pub concurrency_cap: usize,
}

/// What a reconciliation found.
#[derive(Debug)]
pub struct TaskReconcileResponse {
    pub ok: bool,
    pub scanned_in_progress: usize,
    pub flagged_orphans: Vec<String>,
}

/// Asks to repair the enqueue sequence watermark.
#[derive(Debug)]
pub struct TaskSequenceRepairParams {
    /// A lower bound that an operator observed, so that a repair never reuses a
    /// sequence that may have existed.
    pub minimum_last_enqueue_seq: u64,
    /// Why the metadata is repaired.
    pub reason: String,
}

/// The repaired watermark and what it was computed from.
#[derive(Debug)]
pub struct TaskSequenceRepairResponse {
    pub ok: bool,
    pub observed_task_rows: usize,
    pub unobservable_task_sequences: usize,
    pub observed_max_task_sequence: u64,
    pub previous_decodable_sequence: Option<u64>,
    pub requested_minimum_sequence: u64,
    pub repaired_sequence: u64,
    pub committed_seq: u64,
    pub written_row: TaskRowReadback,
}

/// Asks to repair the queue state row.
#[derive(Debug)]
pub struct TaskQueueStateRepairParams {
    /// The revision that a separate read observed; `None` only where the row is
    /// absent.
    pub expected_revision_sha256: Option<String>,
    /// A lower bound for the last durable generation.
    pub minimum_mutation_generation: u64,
    /// Why the metadata is repaired.
    pub reason: String,
}

/// The repaired queue state and what it was computed from.
#[derive(Debug)]
pub struct TaskQueueStateRepairResponse {
    pub ok: bool,
    pub observed_task_rows: usize,
    pub unobservable_task_generations: usize,
    pub observed_max_task_generation: u64,
    pub previous_decodable_generation: Option<u64>,
    pub requested_minimum_generation: u64,
    pub repaired_generation: u64,
    pub previous_revision_sha256: Option<String>,
    pub committed_seq: Option<u64>,
    pub written_row: TaskRowReadback,
}

/// Asks to replace one task row.
#[derive(Debug)]
pub struct TaskRowRepairParams {
    pub task_id: String,
    /// The revision that a separate read observed.
    pub expected_revision_sha256: String,
    /// The complete replacement, with generation zero.
    pub replacement: AgentTask,
    /// Why the row is repaired.
    pub reason: String,
}

/// The replaced row.
#[derive(Debug)]
pub struct TaskRowRepairResponse {
    pub ok: bool,
    pub previous_revision_sha256: String,
    pub previous_value_len_bytes: u64,
    pub unobservable_other_task_rows: usize,
    pub committed_seq: Option<u64>,
    pub task: AgentTask,
    pub written_row: TaskRowReadback,
}

/// Asks to dispatch the next task.
#[derive(Debug)]
pub struct TaskDispatchOnceParams {
    /// The most tasks that may be in flight.
    pub concurrency_cap: usize,
    /// The endpoint that the spawned agent connects to.
    pub mcp_url: String,
    /// How long the spawn may take.
    pub wait_timeout_ms: u64,
}

/// What the spawn of a dispatched agent reported.
#[derive(Debug)]
pub struct DispatchSpawnReadback {
    pub spawn_id: String,
    pub session_id: String,
    pub template_id: Option<String>,
    pub template_version: Option<u32>,
    pub agent_process_id: Option<u32>,
    pub launched_at_unix_ms: u64,
    pub task_started_at_unix_ms: u64,
}

/// The outcome of one dispatch.
#[derive(Debug)]
pub struct TaskDispatchOnceResponse {
    pub ok: bool,
    /// `dispatched`, `empty`, or `at_capacity:N`.
    pub decision: String,
    pub task: Option<AgentTask>,
    pub spawn: Option<DispatchSpawnReadback>,
    pub in_flight: usize,
    pub concurrency_cap: usize,
}

/// The outcome of a cancellation from the dashboard.
#[derive(Debug)]
pub struct DashboardTaskCancelResponse {
    pub ok: bool,
    pub cancel: TaskMutationResponse,
    /// What the interruption of the live agent reported.
    pub interrupt: Option<String>,
}

/// A request without parameters.
#[derive(Clone, Copy, Debug)]
pub struct EmptyParams {}

/// The queue-wide coordination row.
#[derive(Clone, Copy, Debug, PartialEq, Eq, Structural)]
pub struct TaskQueueState {
    pub schema_version: u32,
    pub mutation_generation: u64,
    pub updated_unix_ms: u64,
}

/// The coordination row with the revision that guards it.
#[derive(Clone, Copy, Debug)]
pub struct RevisionedTaskQueueState {
    pub state: TaskQueueState,
    pub revision_sha256: [u8; 32],
}

/// The enqueue sequence watermark with the revision that guards it.
#[derive(Clone, Copy, Debug)]
pub struct RevisionedTaskSequence {
    pub value: u64,
    pub revision_sha256: [u8; 32],
}

/// A task row with the revision that guards it.
#[derive(Debug)]
pub struct AgentTaskRow {
    pub key: Vec<u8>,
    pub revision_sha256: [u8; 32],
    pub task: AgentTask,
}

} // verus!
