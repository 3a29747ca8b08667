//! The task operations over the stored queue: each reads an image of the
//! store, decides, and hands out the commit that the store must accept.
use crate::tasks::create;
use crate::tasks::create::{PreparedCreate, check_create_params, prepare_create};
use crate::tasks::dispatch;
use crate::tasks::dispatch::{DispatchDecision, count_in_flight, dispatch_decision, order_for_list};
use crate::tasks::errors::{BlockedOperation, TaskError};
use crate::tasks::laws;
use crate::tasks::model::{
    AgentTask, AgentTaskRow, AttemptOutcome, DispatchSpawnReadback, MAX_DISPATCH_WAIT_TIMEOUT_MS,
    ReservationView, RevisionedTaskQueueState, TASK_DISPATCH_RESERVATION_SCHEMA_VERSION,
    TaskCancelParams, TaskClaimParams, TaskCreateParams, TaskDispatchOnceResponse, TaskGetResponse,
    TaskIdParams, TaskListParams, TaskListResponse, TaskMutationResponse, TaskNextParams,
    TaskNextResponse, TaskQueueState, TaskReconcileResponse, TaskRowReadback, TaskState,
    TaskUpdateParams, TaskView,
};
use crate::tasks::store;
use crate::tasks::store::{
    PreparedMutation, StoredQueueState, StoredSequence, StoredTaskRow, audit_tasks,
    commit_guarded_task_successor, next_task_queue_state, read_all_tasks,
    read_enqueue_seq_watermark_revisioned, read_task_queue_state_revisioned,
    read_task_row_revisioned,
};
use crate::tasks::transitions;
use crate::tasks::transitions::{
    CancelDecision, SpawnTerminalCompletion, TaskDispatchReservationIdentity,
    bind_dispatch_reservation, build_task_dispatch_reservation, cancel_task, check_update_params,
    claim_internal, expired_reservation_reason, fail_dispatch_reservation, find_completion_spawn,
    is_session_missing, is_spawn_id_shape, reconcile_expired_reservation,
    reconcile_vanished_session, reservation_identity, reserve_task, update_task,
};
use crate::tasks::validate;
use crate::text;
use vstd::prelude::*;
use vstd::string::*;
use vstd::utf8::*;

verus! {

/// The queue as one read of the store shows it.
#[derive(Debug)]
pub struct SynapseService {
    pub queue: StoredQueueState,
    pub sequence: StoredSequence,
    pub rows: Vec<StoredTaskRow>,
}

/// What a mutation of one task starts from: the coordination row and the task.
pub open spec fn mutation_base(service: SynapseService, task_id: Seq<char>) -> Result<
    (RevisionedTaskQueueState, TaskView),
    TaskError,
> {
    match store::queue_reading(service.queue) {
        Err(error) => Err(error),
        Ok(None) => Err(TaskError::QueueStateMissing),
        Ok(Some(queue)) => match store::task_reading(service.rows@, task_id) {
            Err(error) => Err(error),
            Ok(None) => Err(TaskError::NotFound),
            Ok(Some(task)) => Ok((queue, task)),
        },
    }
}

/// A prepared mutation writes `successor`, stamped, over the row of the task.
pub open spec fn writes_successor(
    service: SynapseService,
    prepared: PreparedMutation,
    task_id: Seq<char>,
    successor: TaskView,
    now: u64,
) -> bool {
    &&& mutation_base(service, task_id) matches Ok((queue, predecessor))
    &&& store::find_key(service.rows@, validate::task_key_spec(task_id), 0) matches Some(index)
    &&& store::next_queue(queue.state, now) == Ok::<TaskQueueState, TaskError>(prepared.next_queue)
    &&& prepared.task@ == laws::stamped(successor, prepared.next_queue.mutation_generation, now)
    &&& validate::row_valid(validate::task_key_spec(task_id), prepared.task@)
    &&& store::mutation_guards(
        prepared.guards@,
        queue,
        validate::task_key_spec(task_id),
        service.rows@[index].revision_sha256,
    )
}

/// What the creation of a task gives: the first refusal, or the write of the task
/// behind all tasks that were created before it. A queue that does not pass its audit
/// takes no task.
pub open spec fn create_outcome(
    service: SynapseService,
    params: TaskCreateParams,
    now: u64,
    prepared: Result<PreparedCreate, TaskError>,
) -> bool {
    match (
        create::create_refusal(params),
        store::audit_reading(service.queue, service.sequence, service.rows@),
        store::queue_reading(service.queue),
        store::sequence_reading(service.sequence),
    ) {
        (Some(error), _, _, _) => prepared matches Err(given) && given == error,
        (None, Err(error), _, _) => prepared matches Err(given) && given == error,
        (None, Ok(_), Ok(Some(queue)), Ok(Some(sequence))) => match store::task_reading(
            service.rows@,
            params.task_id@,
        ) {
            Err(error) => prepared matches Err(given) && given == error,
            Ok(Some(existing)) => prepared matches Err(given) && given
                == (TaskError::AlreadyExists { enqueue_seq: existing.enqueue_seq }),
            Ok(None) => if sequence.value == u64::MAX {
                prepared matches Err(given) && given == TaskError::SequenceExhausted
            } else {
                match store::next_queue(queue.state, now) {
                    Err(error) => prepared matches Err(given) && given == error,
                    Ok(next) => prepared matches Ok(plan) && plan.next_queue == next
                        && plan.next_seq == sequence.value + 1 && plan.task@ == create::created(
                        params,
                        plan.next_seq,
                        next.mutation_generation,
                        now,
                    ) && create::create_guards(plan.guards@, queue, sequence, params.task_id@),
                }
            },
        },
        (None, Ok(_), Ok(Some(_)), _) => prepared matches Err(given) && given
            == TaskError::SequenceMissing,
        (None, Ok(_), _, _) => prepared matches Err(given) && given
            == TaskError::QueueStateMissing,
    }
}

/// What comes of a transition: its refusal, the refusal of its commit, or the
/// prepared commit of the successor.
pub open spec fn transition_outcome(
    service: SynapseService,
    task_id: Seq<char>,
    refusal: Option<TaskError>,
    successor: TaskView,
    now: u64,
    outcome: Result<PreparedMutation, TaskError>,
) -> bool {
    match mutation_base(service, task_id) {
        Err(error) => outcome matches Err(given) && given == error,
        Ok((queue, task)) => match refusal {
            Some(error) => outcome matches Err(given) && given == error,
            None => match store::successor_refusal(task, queue.state, successor, now) {
                Some(error) => outcome matches Err(given) && given == error,
                None => outcome matches Ok(prepared) && writes_successor(
                    service,
                    prepared,
                    task_id,
                    successor,
                    now,
                ),
            },
        },
    }
}

/// The decision text of a full queue.
pub open spec fn at_capacity_text(in_flight: usize) -> Seq<char> {
    "at_capacity:"@ + text::decimal_text(in_flight as nat)
}

fn at_capacity(in_flight: usize) -> (decision: String)
    ensures
        decision@ == at_capacity_text(in_flight),
{
    let count: u64 = in_flight as u64;
    text::joined("at_capacity:", text::decimal(count).as_str())
}

/// What a listing shows: the tasks in the wanted state, and no more than
/// `max` of them.
pub open spec fn shown(listed: Seq<TaskView>, state: Option<TaskState>, max: int) -> Seq<TaskView> {
    let wanted = listed.filter(|task: TaskView| state matches Some(kept) ==> task.state == kept);
    if wanted.len() <= max {
        wanted
    } else {
        wanted.subrange(0, max)
    }
}

/// `list` is what a listing of `tasks` shows.
pub open spec fn is_shown(
    list: Seq<TaskView>,
    tasks: Seq<TaskView>,
    state: Option<TaskState>,
    max: int,
) -> bool {
    exists|listed: Seq<TaskView>| #[trigger]
        dispatch::is_listing_of(listed, tasks) && list == shown(listed, state, max)
}

/// A task that reconciliation must settle.
#[derive(Debug)]
pub enum ReconcileStep {
    /// The reservation of the task expired before an agent was bound.
    Expire { task_id: String, reservation_id: String, reason: String },
    /// The session of the live attempt is gone; the spawned agent, where its id has
    /// the right shape, may have left a completion artifact.
    Vanish { task_id: String, spawn_id: Option<String> },
}

/// A [`ReconcileStep`] with its strings taken as characters.
pub enum StepView {
    Expire { task_id: Seq<char>, reservation_id: Seq<char>, reason: Seq<char> },
    Vanish { task_id: Seq<char>, spawn_id: Option<Seq<char>> },
}

impl View for ReconcileStep {
    type V = StepView;

    open spec fn view(&self) -> StepView {
        match self {
            ReconcileStep::Expire { task_id, reservation_id, reason } => StepView::Expire {
                task_id: task_id@,
                reservation_id: reservation_id@,
                reason: reason@,
            },
            ReconcileStep::Vanish { task_id, spawn_id } => StepView::Vanish {
                task_id: task_id@,
                spawn_id: text::opt_text(*spawn_id),
            },
        }
    }
}

/// What reconciliation does with one task, if anything.
pub open spec fn reconcile_step(task: TaskView, live: Seq<String>, now: u64) -> Option<StepView> {
    if task.state != TaskState::InProgress {
        None
    } else {
        match task.dispatch_reservation {
            Some(reservation) => if reservation.expires_at_unix_ms > now {
                None
            } else {
                Some(
                    StepView::Expire {
                        task_id: task.task_id,
                        reservation_id: reservation.reservation_id,
                        reason: transitions::expired_reason(
                            reservation.reservation_id,
                            reservation.expires_at_unix_ms,
                        ),
                    },
                )
            },
            None => if transitions::session_missing(task, live) {
                Some(
                    StepView::Vanish {
                        task_id: task.task_id,
                        spawn_id: transitions::completion_spawn(task),
                    },
                )
            } else {
                None
            },
        }
    }
}

/// Why a vanished session is not settled, if it is not: the task went on, the
/// session came back, or its live attempt names another spawn by now.
pub open spec fn vanish_refusal(
    task: TaskView,
    live: Seq<String>,
    spawn_id: Option<Seq<char>>,
) -> Option<TaskError> {
    match transitions::reconcile_refusal(task, live) {
        Some(error) => Some(error),
        None => if transitions::completion_spawn(task) == spawn_id {
            None
        } else {
            Some(TaskError::ReconcileSuperseded)
        },
    }
}

/// The completion that counts: none where no spawn could have left one.
pub open spec fn counted_completion(
    spawn_id: Option<Seq<char>>,
    completion: Option<SpawnTerminalCompletion>,
) -> Option<SpawnTerminalCompletion> {
    if spawn_id is Some {
        completion
    } else {
        None
    }
}

/// What reconciliation does with the first `end` tasks, in order.
pub open spec fn reconcile_steps(
    tasks: Seq<TaskView>,
    live: Seq<String>,
    now: u64,
    end: int,
) -> Seq<StepView>
    decreases end,
{
    if end <= 0 {
        Seq::empty()
    } else {
        match reconcile_step(tasks[end - 1], live, now) {
            Some(step) => reconcile_steps(tasks, live, now, end - 1).push(step),
            None => reconcile_steps(tasks, live, now, end - 1),
        }
    }
}

/// The views of a list of steps.
pub open spec fn step_views(steps: Seq<ReconcileStep>) -> Seq<StepView> {
    Seq::new(steps.len(), |i: int| steps[i]@)
}

/// The tasks that a reconciliation settles, and how many it looked at.
#[derive(Debug)]
pub struct ReconcilePlan {
    pub scanned_in_progress: usize,
    pub steps: Vec<ReconcileStep>,
}

fn plan_step(task: &AgentTask, live: &Vec<String>, now: u64) -> (step: Option<ReconcileStep>)
    ensures
        step is Some == reconcile_step(task@, live@, now) is Some,
        step matches Some(made) ==> reconcile_step(task@, live@, now) == Some(made@),
{
    if !task.is_in_flight() {
        return None;
    }
    match &task.dispatch_reservation {
        Some(reservation) => {
            if reservation.expires_at_unix_ms > now {
                return None;
            }
            Some(
                ReconcileStep::Expire {
                    task_id: task.task_id.clone(),
                    reservation_id: reservation.reservation_id.clone(),
                    reason: expired_reservation_reason(reservation),
                },
            )
        },
        None => {
            if !is_session_missing(task, live) {
                return None;
            }
            Some(
                ReconcileStep::Vanish {
                    task_id: task.task_id.clone(),
                    spawn_id: find_completion_spawn(task),
                },
            )
        },
    }
}

/// Finds the tasks in progress whose reservation expired or whose session is
/// gone.
pub fn reconcile_task_rows(tasks: &Vec<AgentTask>, live: &Vec<String>, now: u64) -> (plan:
    ReconcilePlan)
    ensures
        plan.scanned_in_progress == dispatch::in_flight_count(dispatch::task_views(tasks@)),
        step_views(plan.steps@) == reconcile_steps(
            dispatch::task_views(tasks@),
            live@,
            now,
            tasks@.len() as int,
        ),
{
    let mut steps: Vec<ReconcileStep> = Vec::new();
    let mut index: usize = 0;
    assert(step_views(steps@) =~= Seq::<StepView>::empty());
    while index < tasks.len()
        invariant
            index <= tasks@.len(),
            step_views(steps@)
                == reconcile_steps(dispatch::task_views(tasks@), live@, now, index as int),
        decreases tasks@.len() - index,
    {
        let before: Ghost<Seq<StepView>> = Ghost(step_views(steps@));
        if let Some(step) = plan_step(&tasks[index], live, now) {
            steps.push(step);
            assert(step_views(steps@) =~= before@.push(step@));
        }
        index = index + 1;
    }
    ReconcilePlan { scanned_in_progress: count_in_flight(tasks), steps }
}

/// Whether settling a step flags its task as orphaned: an expired reservation
/// always does, a vanished session where no completion artifact counts.
pub open spec fn flagged_by(step: StepView, completion: Option<SpawnTerminalCompletion>) -> bool {
    match step {
        StepView::Expire { .. } => true,
        StepView::Vanish { spawn_id, .. } => counted_completion(spawn_id, completion) is None,
    }
}

/// Whether settling a step flags its task as orphaned.
pub fn flags_orphan(step: &ReconcileStep, completion: &Option<SpawnTerminalCompletion>) -> (flagged:
    bool)
    ensures
        flagged == flagged_by(step@, *completion),
        step@ matches StepView::Vanish { spawn_id, .. } ==> flagged == (
        transitions::vanished_outcome(counted_completion(spawn_id, *completion))
            == AttemptOutcome::Orphaned),
{
    match step {
        ReconcileStep::Expire { .. } => true,
        ReconcileStep::Vanish { spawn_id, .. } => spawn_id.is_none() || completion.is_none(),
    }
}

/// The task that a step settles.
pub open spec fn step_task(step: StepView) -> Seq<char> {
    match step {
        StepView::Expire { task_id, .. } => task_id,
        StepView::Vanish { task_id, .. } => task_id,
    }
}

/// The tasks that the first `end` steps flag as orphaned, where `completions` are
/// the artifacts that were found, by the id of the task.
pub open spec fn flagged_upto(
    steps: Seq<StepView>,
    completions: Map<Seq<char>, Option<SpawnTerminalCompletion>>,
    end: int,
) -> Seq<Seq<char>>
    decreases end,
{
    if end <= 0 {
        Seq::empty()
    } else {
        let earlier = flagged_upto(steps, completions, end - 1);
        let step = steps[end - 1];
        if flagged_by(step, completions[step_task(step)]) {
            earlier.push(step_task(step))
        } else {
            earlier
        }
    }
}

/// A reconciliation that settles its steps one after the other.
#[derive(Debug)]
pub struct ReconcileRun {
    pub plan: ReconcilePlan,
    /// How many of the steps are settled.
    pub settled: usize,
    pub flagged_orphans: Vec<String>,
}

impl ReconcileRun {
    /// Starts to settle the steps of a plan.
    pub fn start(plan: ReconcilePlan) -> (run: Self)
        ensures
            run.plan == plan,
            run.settled == 0,
            run.flagged_orphans@.len() == 0,
    {
        ReconcileRun { plan, settled: 0, flagged_orphans: Vec::new() }
    }

    /// The step that is settled next.
    pub fn step(&self) -> (step: Option<&ReconcileStep>)
        ensures
            match step {
                Some(next) => self.settled < self.plan.steps@.len() && *next
                    == self.plan.steps@[self.settled as int],
                None => self.settled >= self.plan.steps@.len(),
            },
    {
        if self.settled < self.plan.steps.len() {
            Some(&self.plan.steps[self.settled])
        } else {
            None
        }
    }

    /// Goes on from the commit of a step, which `step` is as the task stood then.
    pub fn on_settled(
        &mut self,
        step: &ReconcileStep,
        completion: &Option<SpawnTerminalCompletion>,
    )
        requires
            old(self).settled < old(self).plan.steps@.len(),
        ensures
            final(self).plan == old(self).plan,
            final(self).settled == old(self).settled + 1,
            text::texts(final(self).flagged_orphans@) == (if flagged_by(step@, *completion) {
                text::texts(old(self).flagged_orphans@).push(step_task(step@))
            } else {
                text::texts(old(self).flagged_orphans@)
            }),
    {
        let ghost before = text::texts(self.flagged_orphans@);
        if flags_orphan(step, completion) {
            let task_id = match step {
                ReconcileStep::Expire { task_id, .. } => task_id.clone(),
                ReconcileStep::Vanish { task_id, .. } => task_id.clone(),
            };
            self.flagged_orphans.push(task_id);
            assert(text::texts(self.flagged_orphans@) =~= before.push(task_id@));
        }
        let steps: usize = self.plan.steps.len();
        assert(self.settled < steps);
        self.settled = self.settled + 1;
    }
}

/// What a dispatch does with the queue.
#[derive(Debug)]
pub enum ReservePlan {
    Empty { in_flight: usize },
    AtCapacity { in_flight: usize },
    /// Reserve the task under the digest of this identity.
    Reserve { identity: TaskDispatchReservationIdentity, in_flight_before: usize },
}

/// What a cancellation does with the store.
#[derive(Debug)]
pub enum CancelPlan {
    /// The task is cancelled already: nothing is written.
    Unchanged(AgentTask),
    Write(PreparedMutation),
}

/// What the settlement of a step gives: its refusal, or the write of the task
/// under review.
pub open spec fn settle_outcome(
    service: SynapseService,
    step: StepView,
    live: Seq<String>,
    completion: Option<SpawnTerminalCompletion>,
    now: u64,
    prepared: Result<PreparedMutation, TaskError>,
) -> bool {
    match step {
        StepView::Expire { task_id, reservation_id, reason } => transition_outcome(
            service,
            task_id,
            transitions::expiry_refusal(
                mutation_base(service, task_id)->Ok_0.1,
                reservation_id,
                now,
            ),
            transitions::reviewed(
                mutation_base(service, task_id)->Ok_0.1,
                AttemptOutcome::Orphaned,
                now,
                reason,
                Some(reason),
            ),
            now,
            prepared,
        ),
        StepView::Vanish { task_id, spawn_id } => transition_outcome(
            service,
            task_id,
            vanish_refusal(mutation_base(service, task_id)->Ok_0.1, live, spawn_id),
            transitions::vanished(
                mutation_base(service, task_id)->Ok_0.1,
                counted_completion(spawn_id, completion),
                now,
            ),
            now,
            prepared,
        ),
    }
}

/// What a cancellation gives: its refusal, nothing to write where the task is
/// cancelled already, or the write of the cancelled task.
pub open spec fn cancel_outcome(
    service: SynapseService,
    params: TaskCancelParams,
    now: u64,
    plan: Result<CancelPlan, TaskError>,
) -> bool {
    match store::task_reading(service.rows@, params.task_id@) {
        Err(error) => plan matches Err(given) && given == error,
        Ok(None) => plan matches Err(given) && given == TaskError::NotFound,
        Ok(Some(task)) => if task.state == TaskState::Cancelled {
            plan matches Ok(CancelPlan::Unchanged(kept)) && kept@ == task
        } else {
            match mutation_base(service, params.task_id@) {
                Err(error) => plan matches Err(given) && given == error,
                Ok((queue, _)) => if task.dispatch_reservation is Some {
                    plan matches Err(given) && given == (TaskError::ReservationActive {
                        operation: BlockedOperation::Update,
                    })
                } else if task.state == TaskState::Done {
                    plan matches Err(given) && given == TaskError::TransitionForbidden
                } else {
                    let successor = transitions::moved(
                        task,
                        TaskState::Cancelled,
                        text::opt_text(params.reason),
                        now,
                    );
                    match store::successor_refusal(task, queue.state, successor, now) {
                        Some(error) => plan matches Err(given) && given == error,
                        None => plan matches Ok(CancelPlan::Write(prepared))
                            && writes_successor(
                            service,
                            prepared,
                            params.task_id@,
                            successor,
                            now,
                        ),
                    }
                },
            }
        },
    }
}

/// Whom a cancellation from the dashboard interrupts: the spawned agent of the
/// live attempt, else its session, as far as they are named.
pub open spec fn interrupt_of(task: TaskView) -> Option<Seq<char>> {
    match task.live() {
        None => None,
        Some(attempt) => if attempt.spawn_id matches Some(spawn) && !text::is_blank_spec(spawn) {
            attempt.spawn_id
        } else if !text::is_blank_spec(attempt.session_id) {
            Some(attempt.session_id)
        } else {
            None
        },
    }
}

impl SynapseService {
    fn load_for_mutation(&self, task_id: &str) -> (base: Result<
        (RevisionedTaskQueueState, AgentTaskRow),
        TaskError,
    >)
        ensures
            match base {
                Err(error) => mutation_base(*self, task_id@) == Err::<
                    (RevisionedTaskQueueState, TaskView),
                    TaskError,
                >(error),
                Ok((queue, row)) => {
                    &&& mutation_base(*self, task_id@) == Ok::<
                        (RevisionedTaskQueueState, TaskView),
                        TaskError,
                    >((queue, row.task@))
                    &&& store::find_key(self.rows@, validate::task_key_spec(task_id@), 0) matches Some(index)
                    &&& row.revision_sha256 == self.rows@[index].revision_sha256
                    &&& row.task@.task_id == task_id@
                },
            },
    {
        let queue = match read_task_queue_state_revisioned(&self.queue) {
            Err(error) => {
                return Err(error);
            },
            Ok(None) => {
                return Err(TaskError::QueueStateMissing);
            },
            Ok(Some(found)) => found,
        };
        match read_task_row_revisioned(&self.rows, task_id) {
            Err(error) => Err(error),
            Ok(None) => Err(TaskError::NotFound),
            Ok(Some(row)) => {
                proof {
                    store::law_rows_read_under_their_own_key(self.rows@, task_id@);
                }
                Ok((queue, row))
            },
        }
    }

    /// Prepares the guarded commit of one transition of one task.
    fn mutate_task_guarded(
        &self,
        queue: &RevisionedTaskQueueState,
        row: &AgentTaskRow,
        transition: Result<AgentTask, TaskError>,
        now: u64,
    ) -> (prepared: Result<PreparedMutation, TaskError>)
        ensures
            transition matches Err(error) ==> (prepared matches Err(given) && given == error),
            transition matches Ok(successor) ==> match store::successor_refusal(
                row.task@,
                queue.state,
                successor@,
                now,
            ) {
                Some(error) => prepared matches Err(given) && given == error,
                None => prepared matches Ok(mutation)
                    && store::next_queue(queue.state, now) == Ok::<
                    TaskQueueState,
                    TaskError,
                >(mutation.next_queue) && mutation.task@ == laws::stamped(
                    successor@,
                    mutation.next_queue.mutation_generation,
                    now,
                ) && store::mutation_guards(
                    mutation.guards@,
                    *queue,
                    validate::task_key_spec(row.task@.task_id),
                    row.revision_sha256,
                ),
            },
    {
        match transition {
            Err(error) => Err(error),
            Ok(successor) => commit_guarded_task_successor(row, queue, successor, now),
        }
    }

    /// Reads one task with its attempts.
    pub fn task_get_impl(&self, params: TaskIdParams) -> (response: Result<
        TaskGetResponse,
        TaskError,
    >)
        ensures
            match store::task_reading(self.rows@, params.task_id@) {
                Err(error) => response matches Err(given) && given == error,
                Ok(None) => response matches Err(given) && given == TaskError::NotFound,
                Ok(Some(task)) => response matches Ok(found) && found.ok && found.task@ == task,
            },
    {
        match read_task_row_revisioned(&self.rows, params.task_id.as_str()) {
            Err(error) => Err(error),
            Ok(None) => Err(TaskError::NotFound),
            Ok(Some(row)) => Ok(TaskGetResponse { ok: true, task: row.task }),
        }
    }

    /// Prepares the creation of a task.
    pub fn task_create_impl(&self, params: &TaskCreateParams, now: u64) -> (prepared: Result<
        PreparedCreate,
        TaskError,
    >)
        ensures
            create_outcome(*self, *params, now, prepared),
    {
        if let Err(error) = check_create_params(params) {
            return Err(error);
        }
        if let Err(error) = audit_tasks(&self.queue, &self.sequence, &self.rows) {
            return Err(error);
        }
        let queue = match read_task_queue_state_revisioned(&self.queue) {
            Err(error) => {
                return Err(error);
            },
            Ok(None) => {
                return Err(TaskError::QueueStateMissing);
            },
            Ok(Some(found)) => found,
        };
        let sequence = match read_enqueue_seq_watermark_revisioned(&self.sequence) {
            Err(error) => {
                return Err(error);
            },
            Ok(None) => {
                return Err(TaskError::SequenceMissing);
            },
            Ok(Some(found)) => found,
        };
        prepare_create(params, &queue, &sequence, &self.rows, now)
    }

    /// Prepares the creation of a task from the dashboard.
    pub fn dashboard_task_create(&self, params: &TaskCreateParams, now: u64) -> (prepared: Result<
        PreparedCreate,
        TaskError,
    >)
        ensures
            create_outcome(*self, *params, now, prepared),
    {
        self.task_create_impl(params, now)
    }

    /// Prepares a claim: the waiting task moves to `in_progress` with a pending
    /// attempt bound to the session.
    pub fn task_claim_impl(&self, params: TaskClaimParams, now: u64) -> (prepared: Result<
        PreparedMutation,
        TaskError,
    >)
        ensures
            text::is_blank_spec(params.session_id@) ==> (prepared matches Err(given)
                && given == TaskError::ClaimSessionEmpty),
            !text::is_blank_spec(params.session_id@) ==> transition_outcome(
                *self,
                params.task_id@,
                transitions::claim_refusal(mutation_base(*self, params.task_id@)->Ok_0.1),
                transitions::claimed(
                    mutation_base(*self, params.task_id@)->Ok_0.1,
                    params.session_id@,
                    None,
                    None,
                    now,
                ),
                now,
                prepared,
            ),
    {
        if text::is_blank(params.session_id.as_str()) {
            return Err(TaskError::ClaimSessionEmpty);
        }
        match self.load_for_mutation(params.task_id.as_str()) {
            Err(error) => Err(error),
            Ok((queue, row)) => {
                let transition = claim_internal(
                    &row.task,
                    params.session_id.as_str(),
                    None,
                    None,
                    now,
                );
                self.mutate_task_guarded(&queue, &row, transition, now)
            },
        }
    }

    /// Prepares an update: edits the task and moves it along the transition
    /// matrix.
    pub fn task_update_impl(&self, params: TaskUpdateParams, now: u64) -> (prepared: Result<
        PreparedMutation,
        TaskError,
    >)
        ensures
            transitions::update_params_refusal(params) matches Some(error)
                ==> (prepared matches Err(given) && given == error),
            transitions::update_params_refusal(params) is None ==> transition_outcome(
                *self,
                params.task_id@,
                transitions::update_refusal(mutation_base(*self, params.task_id@)->Ok_0.1, params),
                transitions::updated(mutation_base(*self, params.task_id@)->Ok_0.1, params, now),
                now,
                prepared,
            ),
    {
        if let Err(error) = check_update_params(&params) {
            return Err(error);
        }
        match self.load_for_mutation(params.task_id.as_str()) {
            Err(error) => Err(error),
            Ok((queue, row)) => {
                let transition = update_task(&row.task, &params, now);
                self.mutate_task_guarded(&queue, &row, transition, now)
            },
        }
    }

    /// Prepares an update from the dashboard.
    pub fn dashboard_task_update(&self, params: TaskUpdateParams, now: u64) -> (prepared: Result<
        PreparedMutation,
        TaskError,
    >)
        ensures
            transitions::update_params_refusal(params) matches Some(error)
                ==> (prepared matches Err(given) && given == error),
            transitions::update_params_refusal(params) is None ==> transition_outcome(
                *self,
                params.task_id@,
                transitions::update_refusal(mutation_base(*self, params.task_id@)->Ok_0.1, params),
                transitions::updated(mutation_base(*self, params.task_id@)->Ok_0.1, params, now),
                now,
                prepared,
            ),
    {
        self.task_update_impl(params, now)
    }

    /// The task, where it is cancelled already: a cancellation then has nothing to do.
    pub fn cancelled_already(&self, task_id: &str) -> (cancelled: Result<
        Option<AgentTask>,
        TaskError,
    >)
        ensures
            match store::task_reading(self.rows@, task_id@) {
                Err(error) => cancelled matches Err(given) && given == error,
                Ok(None) => cancelled matches Err(given) && given == TaskError::NotFound,
                Ok(Some(task)) => if task.state == TaskState::Cancelled {
                    cancelled matches Ok(Some(kept)) && kept@ == task
                } else {
                    cancelled matches Ok(None)
                },
            },
    {
        match read_task_row_revisioned(&self.rows, task_id) {
            Err(error) => Err(error),
            Ok(None) => Err(TaskError::NotFound),
            Ok(Some(row)) => {
                if row.task.state == TaskState::Cancelled {
                    Ok(Some(row.task))
                } else {
                    Ok(None)
                }
            },
        }
    }

    /// Prepares a cancellation. Cancelling a cancelled task writes nothing: no
    /// generation, no time of change. A finished task cannot be cancelled.
    pub fn task_cancel_impl(&self, params: TaskCancelParams, now: u64) -> (plan: Result<
        CancelPlan,
        TaskError,
    >)
        ensures
            cancel_outcome(*self, params, now, plan),
    {
        match self.cancelled_already(params.task_id.as_str()) {
            Err(error) => {
                return Err(error);
            },
            Ok(Some(existing)) => {
                return Ok(CancelPlan::Unchanged(existing));
            },
            Ok(None) => {},
        }
        match self.load_for_mutation(params.task_id.as_str()) {
            Err(error) => Err(error),
            Ok((queue, row)) => {
                let transition = match cancel_task(&row.task, params.reason, now) {
                    Err(error) => Err(error),
                    Ok(CancelDecision::Write(task)) => Ok(task),
                    Ok(CancelDecision::Unchanged) => {
                        return Ok(CancelPlan::Unchanged(row.task));
                    },
                };
                match self.mutate_task_guarded(&queue, &row, transition, now) {
                    Ok(prepared) => Ok(CancelPlan::Write(prepared)),
                    Err(error) => Err(error),
                }
            },
        }
    }

    /// Whom a cancellation from the dashboard interrupts first. A task that a
    /// dispatch has reserved cannot be cancelled.
    pub fn interrupt_target(&self, task_id: &str) -> (target: Result<Option<String>, TaskError>)
        ensures
            match store::task_reading(self.rows@, task_id@) {
                Err(error) => target matches Err(given) && given == error,
                Ok(None) => target matches Err(given) && given == TaskError::NotFound,
                Ok(Some(task)) => if task.dispatch_reservation is Some {
                    target matches Err(given) && given == (TaskError::ReservationActive {
                        operation: BlockedOperation::Cancel,
                    })
                } else {
                    target matches Ok(found) && text::opt_text(found) == interrupt_of(task)
                },
            },
    {
        let task = match read_task_row_revisioned(&self.rows, task_id) {
            Err(error) => {
                return Err(error);
            },
            Ok(None) => {
                return Err(TaskError::NotFound);
            },
            Ok(Some(row)) => row.task,
        };
        if task.dispatch_reservation.is_some() {
            return Err(TaskError::ReservationActive { operation: BlockedOperation::Cancel });
        }
        match task.live_attempt() {
            None => Ok(None),
            Some(attempt) => {
                if let Some(spawn_id) = &attempt.spawn_id {
                    if !text::is_blank(spawn_id.as_str()) {
                        return Ok(Some(spawn_id.clone()));
                    }
                }
                if !text::is_blank(attempt.session_id.as_str()) {
                    return Ok(Some(attempt.session_id.clone()));
                }
                Ok(None)
            },
        }
    }

    /// Lists the tasks: waiting ones in dispatch order, then the rest in
    /// enqueue order, filtered by state and cut to the wanted length. A queue that
    /// does not pass its audit is not listed.
    pub fn task_list_impl(&self, params: TaskListParams, reconciled_orphans: Vec<String>) -> (
    response: Result<TaskListResponse, TaskError>)
        ensures
            match store::audit_reading(self.queue, self.sequence, self.rows@) {
                Err(error) => response matches Err(given) && given == error,
                Ok(tasks) => response matches Ok(list) && list.ok && list.count
                    == list.tasks@.len() && list.reconciled_orphans@ == reconciled_orphans@
                        && is_shown(
                    dispatch::task_views(list.tasks@),
                    tasks,
                    params.state,
                    params.max as int,
                ),
            },
    {
        let tasks = match audit_tasks(&self.queue, &self.sequence, &self.rows) {
            Err(error) => {
                return Err(error);
            },
            Ok(found) => found,
        };
        let views: Ghost<Seq<TaskView>> = Ghost(dispatch::task_views(tasks@));
        let listed = order_for_list(tasks);
        let kept = keep_state(&listed, params.state, params.max);
        proof {
            assert(dispatch::is_listing_of(dispatch::task_views(listed@), views@));
            assert(is_shown(
                dispatch::task_views(kept@),
                views@,
                params.state,
                params.max as int,
            ));
        }
        let count: usize = kept.len();
        Ok(TaskListResponse { ok: true, count, tasks: kept, reconciled_orphans })
    }

    /// Lists all tasks for the dashboard.
    pub fn dashboard_task_snapshot(&self, max: usize, reconciled_orphans: Vec<String>) -> (
    response: Result<TaskListResponse, TaskError>)
        ensures
            match store::audit_reading(self.queue, self.sequence, self.rows@) {
                Err(error) => response matches Err(given) && given == error,
                Ok(tasks) => response matches Ok(list) && list.ok && list.count
                    == list.tasks@.len() && list.reconciled_orphans@ == reconciled_orphans@
                        && is_shown(
                    dispatch::task_views(list.tasks@),
                    tasks,
                    None,
                    max as int,
                ),
            },
    {
        self.task_list_impl(TaskListParams { state: None, max }, reconciled_orphans)
    }

    /// Shows the dispatcher's next pick without reserving it.
    pub fn task_next_impl(&self, params: TaskNextParams) -> (response: Result<
        TaskNextResponse,
        TaskError,
    >)
        ensures
            match store::audit_reading(self.queue, self.sequence, self.rows@) {
                Err(error) => response matches Err(given) && given == error,
                Ok(tasks) => {
                    &&& response matches Ok(next)
                    &&& next.ok
                    &&& next.in_flight == dispatch::in_flight_count(tasks)
                    &&& next.concurrency_cap == params.concurrency_cap
                    &&& if next.in_flight >= params.concurrency_cap {
                        next.task is None && next.decision@ == at_capacity_text(next.in_flight)
                    } else if !dispatch::any_todo(tasks) {
                        next.task is None && next.decision@ == "empty"@
                    } else {
                        &&& next.decision@ == "dispatch"@
                        &&& next.task matches Some(picked)
                        &&& exists|index: int| #[trigger]
                            dispatch::is_next(tasks, index) && picked@ == first_with_id(
                                tasks,
                                tasks[index].task_id,
                            )
                    }
                },
            },
    {
        let tasks = match audit_tasks(&self.queue, &self.sequence, &self.rows) {
            Err(error) => {
                return Err(error);
            },
            Ok(found) => found,
        };
        let in_flight: usize = count_in_flight(&tasks);
        let concurrency_cap: usize = params.concurrency_cap;
        match dispatch_decision(&tasks, concurrency_cap) {
            DispatchDecision::AtCapacity { in_flight: busy } => Ok(
                TaskNextResponse {
                    ok: true,
                    decision: at_capacity(busy),
                    task: None,
                    in_flight,
                    concurrency_cap,
                },
            ),
            DispatchDecision::Empty => Ok(
                TaskNextResponse {
                    ok: true,
                    decision: "empty".to_owned(),
                    task: None,
                    in_flight,
                    concurrency_cap,
                },
            ),
            DispatchDecision::Dispatch { task_id } => {
                proof {
                    let index = choose|index: int| #[trigger]
                        dispatch::is_next(dispatch::task_views(tasks@), index)
                            && task_id@ == tasks@[index].task_id@;
                    assert(dispatch::any_todo(dispatch::task_views(tasks@))) by {
                        assert(dispatch::todo_at(dispatch::task_views(tasks@), index));
                    }
                    assert(dispatch::task_views(tasks@)[index].task_id == task_id@);
                    lemma_id_found(dispatch::task_views(tasks@), task_id@, index, 0);
                }
                let picked = find_task(&tasks, task_id.as_str());
                Ok(
                    TaskNextResponse {
                        ok: true,
                        decision: "dispatch".to_owned(),
                        task: match picked {
                            Some(index) => Some(tasks[index].clone()),
                            None => None,
                        },
                        in_flight,
                        concurrency_cap,
                    },
                )
            },
        }
    }

    /// Shows the dispatcher's next pick on the dashboard.
    pub fn dashboard_task_next(&self, concurrency_cap: usize) -> (response: Result<
        TaskNextResponse,
        TaskError,
    >)
        ensures
            match store::audit_reading(self.queue, self.sequence, self.rows@) {
                Err(error) => response matches Err(given) && given == error,
                Ok(tasks) => {
                    &&& response matches Ok(next)
                    &&& next.ok
                    &&& next.in_flight == dispatch::in_flight_count(tasks)
                    &&& next.concurrency_cap == concurrency_cap
                    &&& if next.in_flight >= concurrency_cap {
                        next.task is None && next.decision@ == at_capacity_text(next.in_flight)
                    } else if !dispatch::any_todo(tasks) {
                        next.task is None && next.decision@ == "empty"@
                    } else {
                        &&& next.decision@ == "dispatch"@
                        &&& next.task matches Some(picked)
                        &&& exists|index: int| #[trigger]
                            dispatch::is_next(tasks, index) && picked@ == first_with_id(
                                tasks,
                                tasks[index].task_id,
                            )
                    }
                },
            },
    {
        self.task_next_impl(TaskNextParams { concurrency_cap })
    }

    /// Plans a reconciliation of the queue against the live sessions.
    pub fn reconcile_tasks(&self, live: &Vec<String>, now: u64) -> (plan: Result<
        ReconcilePlan,
        TaskError,
    >)
        ensures
            match store::snapshot_reading(self.queue, self.rows@) {
                Err(error) => plan matches Err(given) && given == error,
                Ok(tasks) => plan matches Ok(made)
                    && made.scanned_in_progress == dispatch::in_flight_count(
                    tasks,
                ) && step_views(made.steps@) == reconcile_steps(
                    tasks,
                    live@,
                    now,
                    tasks.len() as int,
                ),
            },
    {
        match read_all_tasks(&self.queue, &self.rows) {
            Err(error) => Err(error),
            Ok(tasks) => Ok(reconcile_task_rows(&tasks, live, now)),
        }
    }

    /// Reports a reconciliation whose steps are settled.
    pub fn task_reconcile_impl(&self, run: ReconcileRun) -> (response: TaskReconcileResponse)
        ensures
            response.ok,
            response.scanned_in_progress == run.plan.scanned_in_progress,
            response.flagged_orphans == run.flagged_orphans,
    {
        TaskReconcileResponse {
            ok: true,
            scanned_in_progress: run.plan.scanned_in_progress,
            flagged_orphans: run.flagged_orphans,
        }
    }

    /// The step as the task stands now: a session that is gone is settled by the
    /// completion of the spawn that its live attempt names at that time.
    pub fn refreshed_step(&self, step: &ReconcileStep) -> (refreshed: Result<
        ReconcileStep,
        TaskError,
    >)
        ensures
            match step@ {
                StepView::Expire { .. } => refreshed matches Ok(same) && same@ == step@,
                StepView::Vanish { task_id, .. } => match store::task_reading(self.rows@, task_id) {
                    Err(error) => refreshed matches Err(given) && given == error,
                    Ok(None) => refreshed matches Err(given) && given == TaskError::NotFound,
                    Ok(Some(task)) => refreshed matches Ok(current) && current@
                        == (StepView::Vanish {
                        task_id,
                        spawn_id: transitions::completion_spawn(task),
                    }),
                },
            },
    {
        match step {
            ReconcileStep::Expire { task_id, reservation_id, reason } => Ok(
                ReconcileStep::Expire {
                    task_id: task_id.clone(),
                    reservation_id: reservation_id.clone(),
                    reason: reason.clone(),
                },
            ),
            ReconcileStep::Vanish { task_id, .. } => {
                match read_task_row_revisioned(&self.rows, task_id.as_str()) {
                    Err(error) => Err(error),
                    Ok(None) => Err(TaskError::NotFound),
                    Ok(Some(row)) => Ok(
                        ReconcileStep::Vanish {
                            task_id: task_id.clone(),
                            spawn_id: find_completion_spawn(&row.task),
                        },
                    ),
                }
            },
        }
    }

    /// Prepares the settlement of one reconciliation step. A completion counts only
    /// where it is that of the spawn which the live attempt names now.
    pub fn settle_reconcile_step(
        &self,
        step: &ReconcileStep,
        live: &Vec<String>,
        completion: &Option<SpawnTerminalCompletion>,
        now: u64,
    ) -> (prepared: Result<PreparedMutation, TaskError>)
        ensures
            settle_outcome(*self, step@, live@, *completion, now, prepared),
    {
        match step {
            ReconcileStep::Expire { task_id, reservation_id, reason } => {
                match self.load_for_mutation(task_id.as_str()) {
                    Err(error) => Err(error),
                    Ok((queue, row)) => {
                        let transition = reconcile_expired_reservation(
                            &row.task,
                            reservation_id.as_str(),
                            reason.clone(),
                            now,
                        );
                        self.mutate_task_guarded(&queue, &row, transition, now)
                    },
                }
            },
            ReconcileStep::Vanish { task_id, spawn_id } => {
                match self.load_for_mutation(task_id.as_str()) {
                    Err(error) => Err(error),
                    Ok((queue, row)) => {
                        let none: Option<SpawnTerminalCompletion> = None;
                        let counted = if spawn_id.is_some() {
                            completion
                        } else {
                            &none
                        };
                        let settled = reconcile_vanished_session(&row.task, live, counted, now);
                        let current = find_completion_spawn(&row.task);
                        let transition = match settled {
                            Err(error) => Err(error),
                            Ok(task) => if text::opt_equal(&current, spawn_id) {
                                Ok(task)
                            } else {
                                Err(TaskError::ReconcileSuperseded)
                            },
                        };
                        self.mutate_task_guarded(&queue, &row, transition, now)
                    },
                }
            },
        }
    }

    /// Picks the task that a dispatch reserves next, under the concurrency cap.
    pub fn reserve_next_dispatch(&self, concurrency_cap: usize, wait_timeout_ms: u64, now: u64) -> (
    plan: Result<ReservePlan, TaskError>)
        ensures
            if concurrency_cap == 0 {
                plan matches Err(given) && given == TaskError::ConcurrencyCapZero
            } else if wait_timeout_ms == 0 || wait_timeout_ms > MAX_DISPATCH_WAIT_TIMEOUT_MS {
                plan matches Err(given) && given == TaskError::WaitTimeoutOutOfRange
            } else {
                match (
                    store::snapshot_reading(self.queue, self.rows@),
                    store::queue_reading(self.queue),
                ) {
                    (Err(error), _) => plan matches Err(given) && given == error,
                    (Ok(_), Err(error)) => plan matches Err(given) && given == error,
                    (Ok(_), Ok(None)) => plan matches Err(given) && given
                        == TaskError::QueueStateMissing,
                    (Ok(tasks), Ok(Some(queue))) => if dispatch::in_flight_count(tasks) >= concurrency_cap {
                        plan matches Ok(ReservePlan::AtCapacity { in_flight }) && in_flight
                            == dispatch::in_flight_count(tasks)
                    } else if !dispatch::any_todo(tasks) {
                        plan matches Ok(ReservePlan::Empty { in_flight }) && in_flight
                            == dispatch::in_flight_count(tasks)
                    } else if queue.state.mutation_generation == u64::MAX {
                        plan matches Err(given) && given == TaskError::QueueGenerationExhausted
                    } else if now + transitions::lease_spec(wait_timeout_ms) > u64::MAX {
                        plan matches Err(given) && given
                            == TaskError::ReservationTimestampExhausted
                    } else {
                        &&& plan matches Ok(ReservePlan::Reserve { identity, in_flight_before })
                        &&& in_flight_before == dispatch::in_flight_count(tasks)
                        &&& in_flight_before < concurrency_cap
                        &&& exists|index: int| #[trigger]
                            dispatch::is_next(tasks, index)
                                && identity.task_id@ == tasks[index].task_id
                                && identity.enqueue_seq == first_with_id(
                                tasks,
                                tasks[index].task_id,
                            ).enqueue_seq
                        &&& identity.schema_version == TASK_DISPATCH_RESERVATION_SCHEMA_VERSION
                        &&& identity.queue_generation == queue.state.mutation_generation + 1
                        &&& identity.reserved_unix_ms == now
                        &&& identity.expires_at_unix_ms
                            == now + transitions::lease_spec(wait_timeout_ms)
                    },
                }
            },
    {
        if concurrency_cap == 0 {
            return Err(TaskError::ConcurrencyCapZero);
        }
        if wait_timeout_ms == 0 || wait_timeout_ms > MAX_DISPATCH_WAIT_TIMEOUT_MS {
            return Err(TaskError::WaitTimeoutOutOfRange);
        }
        let tasks = match read_all_tasks(&self.queue, &self.rows) {
            Err(error) => {
                return Err(error);
            },
            Ok(found) => found,
        };
        let queue = match read_task_queue_state_revisioned(&self.queue) {
            Err(error) => {
                return Err(error);
            },
            Ok(None) => {
                return Err(TaskError::QueueStateMissing);
            },
            Ok(Some(found)) => found,
        };
        let in_flight_before: usize = count_in_flight(&tasks);
        match dispatch_decision(&tasks, concurrency_cap) {
            DispatchDecision::Empty => Ok(ReservePlan::Empty { in_flight: in_flight_before }),
            DispatchDecision::AtCapacity { in_flight } => Ok(ReservePlan::AtCapacity { in_flight }),
            DispatchDecision::Dispatch { task_id } => {
                proof {
                    let index = choose|index: int| #[trigger]
                        dispatch::is_next(dispatch::task_views(tasks@), index)
                            && task_id@ == tasks@[index].task_id@;
                    assert(dispatch::any_todo(dispatch::task_views(tasks@))) by {
                        assert(dispatch::todo_at(dispatch::task_views(tasks@), index));
                    }
                    assert(dispatch::task_views(tasks@)[index].task_id == task_id@);
                    lemma_id_found(dispatch::task_views(tasks@), task_id@, index, 0);
                }
                let picked: usize = match find_task(&tasks, task_id.as_str()) {
                    Some(index) => index,
                    None => {
                        return Err(TaskError::SelectionMissing);
                    },
                };
                let next = match next_task_queue_state(&queue.state, now) {
                    Err(error) => {
                        return Err(error);
                    },
                    Ok(state) => state,
                };
                match reservation_identity(
                    &tasks[picked],
                    next.mutation_generation,
                    now,
                    wait_timeout_ms,
                ) {
                    Err(error) => Err(error),
                    Ok(identity) => Ok(ReservePlan::Reserve { identity, in_flight_before }),
                }
            },
        }
    }

    /// Prepares the reservation of the picked task, under the digest of the
    /// encoded identity.
    pub fn reserve_picked_task(
        &self,
        identity: &TaskDispatchReservationIdentity,
        encoded_identity: &[u8],
    ) -> (prepared: Result<PreparedMutation, TaskError>)
        ensures
            ({
                let now = identity.reserved_unix_ms;
                let task = mutation_base(*self, identity.task_id@)->Ok_0.1;
                transition_outcome(
                    *self,
                    identity.task_id@,
                    if task.state != TaskState::Todo || task.dispatch_reservation is Some {
                        Some(TaskError::SelectionInvalid)
                    } else if task.attempts.len() >= u32::MAX {
                        Some(TaskError::AttemptIdExhausted)
                    } else {
                        None
                    },
                    transitions::reserved(
                        task,
                        ReservationView {
                            schema_version: TASK_DISPATCH_RESERVATION_SCHEMA_VERSION,
                            reservation_id: crate::digest::sha256_text(encoded_identity@),
                            reserved_unix_ms: now,
                            expires_at_unix_ms: identity.expires_at_unix_ms,
                        },
                        now,
                    ),
                    now,
                    prepared,
                )
            }),
    {
        let now: u64 = identity.reserved_unix_ms;
        match self.load_for_mutation(identity.task_id.as_str()) {
            Err(error) => Err(error),
            Ok((queue, row)) => {
                let reservation = build_task_dispatch_reservation(identity, encoded_identity);
                let transition = reserve_task(&row.task, reservation, now);
                self.mutate_task_guarded(&queue, &row, transition, now)
            },
        }
    }

    /// Prepares the binding of a reservation to the spawned agent.
    pub fn bind_reserved_task(
        &self,
        task_id: &str,
        reservation_id: &str,
        session_id: &str,
        spawn_id: String,
        template_version: Option<u32>,
        now: u64,
    ) -> (prepared: Result<PreparedMutation, TaskError>)
        ensures
            text::is_blank_spec(session_id@) || !transitions::is_spawn_id_spec(spawn_id@) ==> (
            prepared matches Err(given) && given == TaskError::BindIdentityInvalid),
            !text::is_blank_spec(session_id@) && transitions::is_spawn_id_spec(spawn_id@)
                ==> transition_outcome(
                *self,
                task_id@,
                transitions::bind_refusal(
                    mutation_base(*self, task_id@)->Ok_0.1,
                    reservation_id@,
                    session_id@,
                    spawn_id@,
                ),
                transitions::bound(
                    mutation_base(*self, task_id@)->Ok_0.1,
                    session_id@,
                    spawn_id@,
                    template_version,
                ),
                now,
                prepared,
            ),
    {
        if text::is_blank(session_id) || !is_spawn_id_shape(spawn_id.as_str()) {
            return Err(TaskError::BindIdentityInvalid);
        }
        match self.load_for_mutation(task_id) {
            Err(error) => Err(error),
            Ok((queue, row)) => {
                let transition = bind_dispatch_reservation(
                    &row.task,
                    reservation_id,
                    session_id,
                    spawn_id,
                    template_version,
                );
                self.mutate_task_guarded(&queue, &row, transition, now)
            },
        }
    }

    /// Prepares the record of a failed dispatch.
    pub fn fail_reserved_task(
        &self,
        task_id: &str,
        reservation_id: &str,
        reason: String,
        now: u64,
    ) -> (prepared: Result<PreparedMutation, TaskError>)
        ensures
            transition_outcome(
                *self,
                task_id@,
                transitions::failure_refusal(mutation_base(*self, task_id@)->Ok_0.1, reservation_id@),
                transitions::dispatch_failed(mutation_base(*self, task_id@)->Ok_0.1, reason@, now),
                now,
                prepared,
            ),
    {
        match self.load_for_mutation(task_id) {
            Err(error) => Err(error),
            Ok((queue, row)) => {
                let transition = fail_dispatch_reservation(
                    &row.task,
                    reservation_id,
                    reason,
                    now,
                );
                self.mutate_task_guarded(&queue, &row, transition, now)
            },
        }
    }
}

/// The first task with an id.
pub open spec fn first_with_id(tasks: Seq<TaskView>, task_id: Seq<char>) -> TaskView {
    tasks[find_id(tasks, task_id, 0)->0]
}

/// The position of the first task with an id, from `from` on.
pub open spec fn find_id(tasks: Seq<TaskView>, task_id: Seq<char>, from: int) -> Option<int>
    decreases tasks.len() - from,
{
    if from < 0 || from >= tasks.len() {
        None
    } else if tasks[from].task_id == task_id {
        Some(from)
    } else {
        find_id(tasks, task_id, from + 1)
    }
}

proof fn lemma_id_found(tasks: Seq<TaskView>, task_id: Seq<char>, index: int, from: int)
    requires
        0 <= from <= index < tasks.len(),
        tasks[index].task_id == task_id,
    ensures
        find_id(tasks, task_id, from) is Some,
    decreases index - from,
{
    if from < index {
        lemma_id_found(tasks, task_id, index, from + 1);
    }
}

fn find_task(tasks: &Vec<AgentTask>, task_id: &str) -> (found: Option<usize>)
    ensures
        found is Some == find_id(dispatch::task_views(tasks@), task_id@, 0) is Some,
        found matches Some(index) ==> index < tasks@.len() && find_id(
            dispatch::task_views(tasks@),
            task_id@,
            0,
        ) == Some(index as int) && tasks@[index as int].task_id@ == task_id@,
{
    let mut index: usize = 0;
    while index < tasks.len()
        invariant
            index <= tasks@.len(),
            find_id(dispatch::task_views(tasks@), task_id@, 0) == find_id(
                dispatch::task_views(tasks@),
                task_id@,
                index as int,
            ),
        decreases tasks@.len() - index,
    {
        if text::str_equal(tasks[index].task_id.as_str(), task_id) {
            return Some(index);
        }
        index = index + 1;
    }
    None
}

fn keep_state(listed: &Vec<AgentTask>, state: Option<TaskState>, max: usize) -> (kept: Vec<
    AgentTask,
>)
    ensures
        dispatch::task_views(kept@) == shown(dispatch::task_views(listed@), state, max as int),
{
    let wanted: Ghost<spec_fn(TaskView) -> bool> = Ghost(
        |task: TaskView| state matches Some(kept) ==> task.state == kept,
    );
    let mut kept: Vec<AgentTask> = Vec::new();
    let mut index: usize = 0;
    proof {
        reveal(Seq::filter);
        assert(dispatch::task_views(listed@).subrange(0, 0) =~= Seq::<TaskView>::empty());
        assert(dispatch::task_views(kept@) =~= Seq::<TaskView>::empty());
    }
    while index < listed.len()
        invariant
            index <= listed@.len(),
            wanted@ == (|task: TaskView| state matches Some(kept) ==> task.state == kept),
            dispatch::task_views(kept@)
                == dispatch::task_views(listed@).subrange(0, index as int).filter(wanted@),
        decreases listed@.len() - index,
    {
        let before: Ghost<Seq<TaskView>> = Ghost(dispatch::task_views(kept@));
        proof {
            reveal(Seq::filter);
            let longer = dispatch::task_views(listed@).subrange(0, index as int + 1);
            assert(longer.drop_last() =~= dispatch::task_views(listed@).subrange(0, index as int));
            assert(longer.last() == listed@[index as int]@);
        }
        let matching = match state {
            Some(kept_state) => listed[index].state == kept_state,
            None => true,
        };
        if matching {
            kept.push(listed[index].clone());
            assert(dispatch::task_views(kept@) =~= before@.push(listed@[index as int]@));
        }
        index = index + 1;
    }
    assert(dispatch::task_views(listed@).subrange(0, listed@.len() as int) =~= dispatch::task_views(listed@));
    if kept.len() > max {
        let full: Ghost<Seq<TaskView>> = Ghost(dispatch::task_views(kept@));
        kept.truncate(max);
        assert(dispatch::task_views(kept@) =~= full@.subrange(0, max as int));
    }
    kept
}

/// Answers a cancellation that wrote nothing: the task as it is, and where the row
/// stands that was read.
pub fn unchanged_response(task: AgentTask, encoded: &[u8], cf_name: &str) -> (response:
    TaskMutationResponse)
    ensures
        response.ok,
        response.task == task,
        response.written_row.cf_name@ == cf_name@,
        response.written_row.row_key@ == validate::task_key_spec(task@.task_id),
        response.written_row.value_len_bytes == encoded@.len(),
{
    let row_key = validate::task_key(task.task_id.as_str());
    TaskMutationResponse {
        ok: true,
        task,
        written_row: TaskRowReadback {
            cf_name: cf_name.to_owned(),
            row_key,
            value_len_bytes: encoded.len() as u64,
        },
    }
}

/// Answers a dispatch that reserved nothing.
pub fn idle_dispatch_response(plan: ReservePlan, concurrency_cap: usize) -> (response: Option<
    TaskDispatchOnceResponse,
>)
    ensures
        match plan {
            ReservePlan::Empty { in_flight } => response matches Some(idle) && idle.ok
                && idle.decision@ == "empty"@ && idle.task is None && idle.spawn is None
                && idle.in_flight == in_flight && idle.concurrency_cap == concurrency_cap,
            ReservePlan::AtCapacity { in_flight } => response matches Some(idle) && idle.ok
                && idle.decision@ == at_capacity_text(in_flight) && idle.task is None
                && idle.spawn is None && idle.in_flight == in_flight && idle.concurrency_cap
                == concurrency_cap,
            ReservePlan::Reserve { .. } => response is None,
        },
{
    match plan {
        ReservePlan::Empty { in_flight } => Some(
            TaskDispatchOnceResponse {
                ok: true,
                decision: "empty".to_owned(),
                task: None,
                spawn: None,
                in_flight,
                concurrency_cap,
            },
        ),
        ReservePlan::AtCapacity { in_flight } => Some(
            TaskDispatchOnceResponse {
                ok: true,
                decision: at_capacity(in_flight),
                task: None,
                spawn: None,
                in_flight,
                concurrency_cap,
            },
        ),
        ReservePlan::Reserve { .. } => None,
    }
}

/// Answers a dispatch whose agent is spawned and bound.
pub fn dispatched_response(
    task: AgentTask,
    spawn: DispatchSpawnReadback,
    in_flight_before: usize,
    concurrency_cap: usize,
) -> (response: TaskDispatchOnceResponse)
    requires
        in_flight_before < concurrency_cap,
    ensures
        response.ok,
        response.decision@ == "dispatched"@,
        response.task == Some(task),
        response.spawn == Some(spawn),
        response.in_flight == in_flight_before + 1,
        response.in_flight <= response.concurrency_cap,
        response.concurrency_cap == concurrency_cap,
{
    TaskDispatchOnceResponse {
        ok: true,
        decision: "dispatched".to_owned(),
        task: Some(task),
        spawn: Some(spawn),
        in_flight: in_flight_before + 1,
        concurrency_cap,
    }
}

} // verus!
