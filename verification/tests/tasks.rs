use synapse_agents::digest::sha256_hex;
use synapse_agents::tasks::create::{CreateReadback, settle_create};
use synapse_agents::tasks::dispatch::{
    DispatchDecision, count_in_flight, dashboard_task_dispatch_wait_timeout_ms, dispatch_decision,
    order_for_list,
};
use synapse_agents::tasks::errors::{BlockedOperation, ErrorCode, TaskError, TextField};
use synapse_agents::tasks::image::CommittedRevisions;
use synapse_agents::tasks::model::{
    AgentTask, AgentTaskRow, AttemptOutcome, DispatchSpawnReadback, RevisionedTaskQueueState,
    TaskAttempt, TaskCancelParams, TaskClaimParams, TaskCreateParams, TaskDispatchReservation,
    TaskIdParams, TaskListParams, TaskNextParams, TaskQueueState, TaskQueueStateRepairParams,
    TaskRowRepairParams, TaskSequenceRepairParams, TaskState, TaskUpdateParams, default_cap,
    default_max_list, default_priority,
};
use synapse_agents::tasks::prune::{
    PruneVerdict, prepare_prune_batch, settle_prune_batch, terminal_task_rows_to_prune,
};
use synapse_agents::tasks::repair::{
    QueueReadback, RowRepairReadback, SequenceRepairVerdict, parse_revision_sha256,
    prepare_queue_state_repair, prepare_row_repair, prepare_sequence_repair, revision_sha256_hex,
    settle_queue_state_repair, settle_row_repair, settle_sequence_repair,
};
use synapse_agents::tasks::run::{
    DispatchAction, DispatchEnd, DispatchEvent, DispatchOrigin, after_spawn, dispatch_end,
    spawn_request,
};
use synapse_agents::tasks::service::{
    CancelPlan, ReconcileRun, ReconcileStep, ReservePlan, SynapseService, dispatched_response,
    flags_orphan, idle_dispatch_response, unchanged_response,
};
use synapse_agents::tasks::store::{
    CommitOutcome, InitVerdict, MutationReadback, MutationVerdict, QueueReadiness, SequenceReadiness,
    SnapshotVerdict, StoredQueueState, StoredSequence, StoredTask, StoredTaskRow,
    decode_enqueue_seq_watermark, encode_enqueue_seq_watermark, initialize_enqueue_seq_watermark,
    initialize_task_queue_state, next_retry, next_task_queue_state,
    read_enqueue_seq_watermark_revisioned, read_task_queue_state_revisioned, read_task_row_revisioned,
    scan_task_values, settle_mutation, settle_queue_state_init, settle_sequence_init,
    stable_task_snapshot,
};
use synapse_agents::tasks::transitions::{
    SpawnTerminalCompletion, bind_dispatch_reservation, fail_dispatch_reservation,
    is_spawn_id_shape, read_spawn_terminal_completion, reconcile_expired_reservation,
    reconcile_vanished_session, reservation_identity, task_dispatch_reservation_lease_ms,
};
use synapse_agents::tasks::validate::{
    check_task_row, decode_task, is_kebab_id, key_after, task_id_accepted, task_key, task_prefix,
    validate_decoded_task, validate_priority, validate_template_params, validate_text,
};

const NOW: u64 = 1_700_000_000_000;
const STORE_CODE: &str = "STORAGE_DISK_PRESSURE";
const FAILED: CommitOutcome = CommitOutcome::Failed { code: STORE_CODE };

fn task(id: &str, priority: u8, template: &str, seq: u64) -> AgentTask {
    AgentTask {
        schema_version: 1,
        task_id: id.to_owned(),
        state: TaskState::Todo,
        title: "title".to_owned(),
        description: None,
        acceptance: None,
        priority,
        template_id: template.to_owned(),
        template_params: vec![("k".to_owned(), "v".to_owned())],
        enqueue_seq: seq,
        mutation_generation: seq,
        attempts: Vec::new(),
        dispatch_reservation: None,
        review_reason: None,
        created_unix_ms: NOW,
        updated_unix_ms: NOW,
    }
}

fn attempt(session: &str) -> TaskAttempt {
    TaskAttempt {
        attempt_id: 1,
        session_id: session.to_owned(),
        spawn_id: None,
        template_version: None,
        outcome: AttemptOutcome::Pending,
        started_unix_ms: NOW,
        ended_unix_ms: None,
        reason: None,
    }
}

fn running(id: &str, template: &str, seq: u64, session: &str) -> AgentTask {
    let mut running = task(id, 3, template, seq);
    running.state = TaskState::InProgress;
    running.attempts.push(attempt(session));
    running
}

fn row(task: AgentTask) -> StoredTaskRow {
    StoredTaskRow {
        key: task_key(&task.task_id),
        revision_sha256: [task.enqueue_seq as u8; 32],
        value_len_bytes: 10,
        value: StoredTask::Decoded(task),
    }
}

fn service(tasks: Vec<AgentTask>) -> SynapseService {
    let last = tasks.iter().map(|task| task.enqueue_seq).max().unwrap_or(0);
    SynapseService {
        queue: StoredQueueState::Decoded {
            state: TaskQueueState {
                schema_version: 1,
                mutation_generation: last,
                updated_unix_ms: NOW,
            },
            revision_sha256: [200; 32],
        },
        sequence: StoredSequence::Present {
            value: encode_enqueue_seq_watermark(last),
            revision_sha256: [201; 32],
        },
        rows: tasks.into_iter().map(row).collect(),
    }
}

fn create_params(id: &str) -> TaskCreateParams {
    TaskCreateParams {
        task_id: id.to_owned(),
        title: "title".to_owned(),
        description: None,
        acceptance: None,
        priority: 3,
        template_id: "local-model".to_owned(),
        template_params: Vec::new(),
    }
}

fn update_params(id: &str, state: Option<TaskState>) -> TaskUpdateParams {
    TaskUpdateParams {
        task_id: id.to_owned(),
        state,
        reason: Some("because".to_owned()),
        priority: None,
        title: None,
        description: None,
        acceptance: None,
    }
}

fn refusal<T>(result: Result<T, TaskError>) -> TaskError {
    match result {
        Ok(_) => panic!("accepted"),
        Err(error) => error,
    }
}

#[test]
fn the_state_matrix_lets_finished_tasks_rest() {
    let all = [
        TaskState::Todo,
        TaskState::InProgress,
        TaskState::Review,
        TaskState::Done,
        TaskState::Cancelled,
    ];
    for from in all {
        let names: Vec<&str> = all
            .iter()
            .filter(|to| from.can_transition_to(**to))
            .map(|to| to.as_str())
            .collect();
        assert_eq!(from.allowed_targets(), names);
        assert!(!from.can_transition_to(from));
        assert_eq!(from.is_terminal(), names.is_empty());
        assert_eq!(from.can_transition_to(TaskState::Cancelled), !from.is_terminal());
    }
    assert_eq!(TaskState::InProgress.as_str(), "in_progress");
}

#[test]
fn defaults_are_the_documented_ones() {
    assert_eq!(default_priority(), 3);
    assert_eq!(default_cap(), 8);
    assert_eq!(default_max_list(), 1_000);
}

#[test]
fn identifiers_are_checked() {
    assert!(task_id_accepted("task-1"));
    assert!(!task_id_accepted(""));
    assert!(!task_id_accepted(&"a".repeat(201)));
    assert!(is_kebab_id("local-model"));
    assert!(!is_kebab_id("Local"));
    assert!(!is_kebab_id(""));
    assert!(is_spawn_id_shape("agent-spawn-1"));
    assert!(!is_spawn_id_shape("spawn-1"));
}

#[test]
fn texts_are_counted_in_characters() {
    let title = "é".repeat(500);
    assert_eq!(validate_text(TextField::Title, &title, 500), Ok(()));
    assert_eq!(
        validate_text(TextField::Title, &format!("{title}é"), 500),
        Err(TaskError::TextTooLong { field: TextField::Title, max: 500 })
    );
    assert_eq!(validate_priority(5), Ok(()));
    assert_eq!(validate_priority(6), Err(TaskError::PriorityOutOfRange { priority: 6 }));
    assert_eq!(validate_priority(0), Err(TaskError::PriorityOutOfRange { priority: 0 }));
}

#[test]
fn template_values_are_bounded_and_without_nul() {
    let long = vec![("a".to_owned(), "x".repeat(16_385))];
    assert_eq!(
        validate_template_params(&long),
        Err(TaskError::ParamValueTooLong { index: 0 })
    );
    let nul = vec![("a".to_owned(), "ok".to_owned()), ("b".to_owned(), "x\0".to_owned())];
    assert_eq!(validate_template_params(&nul), Err(TaskError::ParamValueHasNul { index: 1 }));
}

#[test]
fn created_tasks_are_last_in_line() {
    let service = service(vec![task("one", 3, "a", 4), task("two", 3, "a", 9)]);
    let plan = service.task_create_impl(&create_params("three"), NOW).unwrap();
    assert_eq!(plan.next_seq, 10);
    assert_eq!(plan.task.enqueue_seq, 10);
    assert_eq!(plan.task.mutation_generation, 10);
    assert_eq!(plan.next_queue.mutation_generation, 10);
    assert_eq!(plan.task.state, TaskState::Todo);
    assert_eq!(plan.task.created_unix_ms, NOW);
    assert_eq!(plan.guards.len(), 3);
    assert_eq!(validate_decoded_task(&plan.task), Ok(()));
    assert!(check_task_row(&task_key("three"), &plan.task).is_ok());
}

#[test]
fn creation_is_refused_for_what_the_request_says() {
    let service = service(vec![task("one", 3, "a", 4)]);
    assert_eq!(
        refusal(service.task_create_impl(&create_params("one"), NOW)),
        TaskError::AlreadyExists { enqueue_seq: 4 }
    );
    let mut params = create_params("");
    assert_eq!(refusal(service.task_create_impl(&params, NOW)), TaskError::TaskIdInvalid);
    params.task_id = "new".to_owned();
    params.title = " ".to_owned();
    assert_eq!(refusal(service.task_create_impl(&params, NOW)), TaskError::TitleEmpty);
    params.title = "t".to_owned();
    params.template_id = "A".to_owned();
    assert_eq!(refusal(service.task_create_impl(&params, NOW)), TaskError::TemplateIdInvalid);
    params.template_id = "a".to_owned();
    params.priority = 9;
    assert_eq!(
        refusal(service.dashboard_task_create(&params, NOW)),
        TaskError::PriorityOutOfRange { priority: 9 }
    );
    assert_eq!(TaskError::TitleEmpty.code(), ErrorCode::ToolParamsInvalid);
    assert_eq!(TaskError::NotFound.code().as_str(), "AGENT_TASK_NOT_FOUND");
}

#[test]
fn a_created_task_is_answered_only_once_it_reads_back() {
    let mut service = service(vec![task("one", 3, "a", 1)]);
    let plan = service.task_create_impl(&create_params("two"), NOW).unwrap();
    let encoded = b"row".to_vec();
    let readback = CreateReadback {
        stored: Some(encoded.clone()),
        decoded: Some(plan.task.clone()),
        sequence: StoredSequence::Present {
            value: encode_enqueue_seq_watermark(2),
            revision_sha256: [1; 32],
        },
        queue: StoredQueueState::Decoded { state: plan.next_queue, revision_sha256: [2; 32] },
    };
    let missing = CreateReadback {
        stored: None,
        decoded: None,
        sequence: StoredSequence::Absent,
        queue: StoredQueueState::Absent,
    };
    let again = service.task_create_impl(&create_params("two"), NOW).unwrap();
    assert!(matches!(
        settle_create(again, &encoded, CommitOutcome::Conflict, &missing, "CF", 3),
        Ok(MutationVerdict::Retry(4))
    ));
    let again = service.task_create_impl(&create_params("two"), NOW).unwrap();
    assert!(
        settle_create(again, &encoded, CommitOutcome::Applied { committed_seq: 5 }, &missing, "CF", 0)
            .is_err()
    );
    match settle_create(
        plan,
        &encoded,
        CommitOutcome::Applied { committed_seq: 5 },
        &readback,
        "CF",
        0,
    ) {
        Ok(MutationVerdict::Committed(response)) => {
            assert!(response.ok);
            assert_eq!(response.written_row.cf_name, "CF");
            assert_eq!(response.written_row.row_key, "agent-task/v1/task/two");
            assert_eq!(response.written_row.value_len_bytes, 3);
        }
        other => panic!("{other:?}"),
    }
    let plan = service.task_create_impl(&create_params("two"), NOW).unwrap();
    service.record_create(
        plan,
        CommittedRevisions {
            queue_sha256: [2; 32],
            sequence_sha256: [1; 32],
            row_sha256: [3; 32],
            value_len_bytes: 3,
        },
    );
    let got = service.task_get_impl(TaskIdParams { task_id: "two".to_owned() }).unwrap();
    assert_eq!(got.task.enqueue_seq, 2);
    assert!(service.task_create_impl(&create_params("two"), NOW).is_err());
}

#[test]
fn claiming_binds_a_session_once() {
    let queue = service(vec![task("one", 3, "a", 1)]);
    let claim = || TaskClaimParams { task_id: "one".to_owned(), session_id: "s-1".to_owned() };
    let claimed = queue.task_claim_impl(claim(), NOW + 5).unwrap();
    assert_eq!(claimed.task.state, TaskState::InProgress);
    assert_eq!(claimed.task.live_attempt().unwrap().session_id, "s-1");
    assert_eq!(claimed.task.live_attempt().unwrap().attempt_id, 1);
    assert_eq!(claimed.task.live_attempt().unwrap().started_unix_ms, NOW + 5);
    assert_eq!(claimed.next_queue.mutation_generation, 2);
    assert_eq!(claimed.task.mutation_generation, 2);
    assert_eq!(validate_decoded_task(&claimed.task), Ok(()));
    let busy = service(vec![claimed.task]);
    assert_eq!(refusal(busy.task_claim_impl(claim(), NOW)), TaskError::NotClaimable);
    let empty = TaskClaimParams { task_id: "one".to_owned(), session_id: " ".to_owned() };
    assert_eq!(refusal(busy.task_claim_impl(empty, NOW)), TaskError::ClaimSessionEmpty);
    let absent = TaskClaimParams { task_id: "other".to_owned(), session_id: "s".to_owned() };
    assert_eq!(refusal(busy.task_claim_impl(absent, NOW)), TaskError::NotFound);
}

#[test]
fn a_failed_task_can_be_retried_with_its_history() {
    let mut again = task("one", 3, "a", 1);
    let mut first = attempt("s-1");
    first.outcome = AttemptOutcome::Failed;
    first.ended_unix_ms = Some(NOW);
    first.reason = Some("broke".to_owned());
    again.attempts.push(first);
    let queue = service(vec![again]);
    let claimed = queue
        .task_claim_impl(
            TaskClaimParams { task_id: "one".to_owned(), session_id: "s-2".to_owned() },
            NOW,
        )
        .unwrap();
    assert_eq!(claimed.task.attempts.len(), 2);
    assert_eq!(claimed.task.attempts[1].attempt_id, 2);
    assert_eq!(claimed.task.attempts[0].reason.as_deref(), Some("broke"));
}

#[test]
fn updates_follow_the_matrix_and_settle_the_attempt() {
    let queue = service(vec![running("one", "a", 1, "s-1"), task("two", 3, "a", 2)]);
    let review =
        queue.task_update_impl(update_params("one", Some(TaskState::Review)), NOW + 1).unwrap();
    assert_eq!(review.task.state, TaskState::Review);
    assert_eq!(review.task.review_reason.as_deref(), Some("because"));
    assert_eq!(review.task.attempts[0].outcome, AttemptOutcome::Succeeded);
    assert_eq!(review.task.attempts[0].ended_unix_ms, Some(NOW + 1));
    assert!(review.task.live_attempt().is_none());
    let back = queue.task_update_impl(update_params("one", Some(TaskState::Todo)), NOW + 1).unwrap();
    assert_eq!(back.task.attempts[0].outcome, AttemptOutcome::Failed);
    assert_eq!(
        refusal(queue.task_update_impl(update_params("two", Some(TaskState::InProgress)), NOW)),
        TaskError::InProgressNeedsClaim
    );
    assert_eq!(
        refusal(queue.task_update_impl(update_params("two", Some(TaskState::Done)), NOW)),
        TaskError::TransitionForbidden
    );
    assert_eq!(TaskError::TransitionForbidden.code(), ErrorCode::AgentTaskInvalidTransition);
    let mut edit = update_params("two", None);
    edit.priority = Some(1);
    edit.title = Some("new".to_owned());
    let edited = queue.dashboard_task_update(edit, NOW).unwrap();
    assert_eq!((edited.task.priority, edited.task.title.as_str()), (1, "new"));
    assert_eq!(edited.task.state, TaskState::Todo);
    let mut long = update_params("two", None);
    long.description = Some("x".repeat(16_385));
    assert_eq!(
        refusal(queue.task_update_impl(long, NOW)),
        TaskError::TextTooLong { field: TextField::Description, max: 16_384 }
    );
}

#[test]
fn cancelling_twice_changes_nothing() {
    let mut done = task("done", 3, "a", 3);
    done.state = TaskState::Done;
    let queue = service(vec![running("one", "a", 1, "s-1"), done]);
    let cancel =
        |id: &str| TaskCancelParams { task_id: id.to_owned(), reason: Some("stop".to_owned()) };
    let cancelled = match queue.task_cancel_impl(cancel("one"), NOW) {
        Ok(CancelPlan::Write(prepared)) => prepared.task,
        other => panic!("{other:?}"),
    };
    assert_eq!(cancelled.state, TaskState::Cancelled);
    assert_eq!(cancelled.attempts[0].outcome, AttemptOutcome::Failed);
    assert_eq!(cancelled.attempts[0].reason.as_deref(), Some("stop"));
    assert!(queue.cancelled_already("one").unwrap().is_none());
    assert_eq!(refusal(queue.cancelled_already("nobody")), TaskError::NotFound);
    let settled = service(vec![cancelled]);
    let kept = settled.cancelled_already("one").unwrap().unwrap();
    let answer = unchanged_response(kept, b"twelve bytes", "CF");
    assert!(answer.ok);
    assert_eq!(answer.task.task_id, "one");
    assert_eq!(answer.written_row.row_key, task_key("one"));
    assert_eq!(answer.written_row.cf_name, "CF");
    assert_eq!(answer.written_row.value_len_bytes, 12);
    assert!(matches!(settled.task_cancel_impl(cancel("one"), NOW), Ok(CancelPlan::Unchanged(_))));
    assert_eq!(refusal(queue.task_cancel_impl(cancel("done"), NOW)), TaskError::TransitionForbidden);
    assert_eq!(queue.interrupt_target("one").unwrap().as_deref(), Some("s-1"));
    assert_eq!(queue.interrupt_target("done").unwrap(), None);
}

#[test]
fn the_dispatcher_goes_by_priority_then_fairness_then_age() {
    let tasks = vec![
        running("busy", "a", 1, "s"),
        task("low", 4, "b", 2),
        task("crowded", 2, "a", 3),
        task("fair-late", 2, "b", 5),
        task("fair-early", 2, "c", 4),
    ];
    assert_eq!(count_in_flight(&tasks), 1);
    match dispatch_decision(&tasks, 8) {
        DispatchDecision::Dispatch { task_id } => assert_eq!(task_id, "fair-early"),
        other => panic!("{other:?}"),
    }
    assert!(matches!(dispatch_decision(&tasks, 1), DispatchDecision::AtCapacity { in_flight: 1 }));
    assert!(matches!(dispatch_decision(&vec![], 1), DispatchDecision::Empty));
    let listed: Vec<String> =
        order_for_list(tasks).into_iter().map(|task| task.task_id).collect();
    assert_eq!(listed, ["fair-early", "fair-late", "crowded", "low", "busy"]);
}

#[test]
fn listing_filters_after_ordering_and_truncates() {
    let queue = service(vec![
        task("one", 3, "a", 1),
        running("two", "b", 2, "s"),
        task("three", 1, "a", 3),
    ]);
    let listed = queue
        .task_list_impl(
            TaskListParams { state: Some(TaskState::Todo), max: 1 },
            vec!["x".to_owned()],
        )
        .unwrap();
    assert_eq!(listed.count, 1);
    assert_eq!(listed.tasks[0].task_id, "three");
    assert_eq!(listed.reconciled_orphans, ["x"]);
    let all = queue.dashboard_task_snapshot(10, Vec::new()).unwrap();
    assert_eq!(all.count, 3);
    let next = queue.task_next_impl(TaskNextParams { concurrency_cap: 2 }).unwrap();
    assert_eq!(next.decision, "dispatch");
    assert_eq!(next.task.unwrap().task_id, "three");
    assert_eq!((next.in_flight, next.concurrency_cap), (1, 2));
    assert_eq!(queue.dashboard_task_next(1).unwrap().decision, "at_capacity:1");
    let none = queue.task_next_impl(TaskNextParams { concurrency_cap: 0 }).unwrap();
    assert_eq!(none.decision, "at_capacity:1");
}

#[test]
fn a_lease_covers_the_wait_and_a_grace() {
    assert_eq!(task_dispatch_reservation_lease_ms(1), Ok(900_000));
    assert_eq!(task_dispatch_reservation_lease_ms(700_000), Ok(1_000_000));
    assert_eq!(dashboard_task_dispatch_wait_timeout_ms(5), 600_000);
    assert_eq!(dashboard_task_dispatch_wait_timeout_ms(700_000), 700_000);
    assert_eq!(
        refusal(reservation_identity(&task("one", 3, "a", 1), 2, u64::MAX, 1)),
        TaskError::ReservationTimestampExhausted
    );
}

fn reserve(queue: &SynapseService) -> (AgentTask, String) {
    match queue.reserve_next_dispatch(8, 1_000, NOW) {
        Ok(ReservePlan::Reserve { identity, in_flight_before }) => {
            assert_eq!(in_flight_before, 0);
            assert_eq!(identity.expires_at_unix_ms, NOW + 900_000);
            let encoded = b"identity".to_vec();
            let prepared = queue.reserve_picked_task(&identity, &encoded).unwrap();
            assert!(sha256_hex(&encoded).len() == 64);
            let id = prepared.task.dispatch_reservation.as_ref().unwrap().reservation_id.clone();
            (prepared.task, id)
        }
        other => panic!("{other:?}"),
    }
}

#[test]
fn a_reservation_owns_the_task_until_it_is_bound() {
    let queue = service(vec![task("one", 3, "a", 1)]);
    let (reserved, id) = reserve(&queue);
    assert!(id.ends_with(&sha256_hex(b"identity")));
    assert_eq!(reserved.state, TaskState::InProgress);
    assert_eq!(validate_decoded_task(&reserved), Ok(()));
    let held = service(vec![reserved]);
    assert_eq!(
        refusal(held.task_claim_impl(
            TaskClaimParams { task_id: "one".to_owned(), session_id: "s".to_owned() },
            NOW
        )),
        TaskError::ReservationActive { operation: BlockedOperation::Claim }
    );
    assert_eq!(
        refusal(held.task_update_impl(update_params("one", Some(TaskState::Todo)), NOW)),
        TaskError::ReservationActive { operation: BlockedOperation::Update }
    );
    let spawn = "agent-spawn-7".to_owned();
    assert_eq!(
        refusal(held.bind_reserved_task("one", &id, "s-1", "nope".to_owned(), None, NOW)),
        TaskError::BindIdentityInvalid
    );
    assert_eq!(
        refusal(held.bind_reserved_task("one", "other", "s-1", spawn.clone(), None, NOW)),
        TaskError::BindReservationConflict
    );
    let bound = held.bind_reserved_task("one", &id, "s-1", spawn.clone(), Some(2), NOW).unwrap();
    let live = bound.task.live_attempt().unwrap();
    assert_eq!(live.session_id, "s-1");
    assert_eq!(live.spawn_id.as_deref(), Some("agent-spawn-7"));
    assert_eq!(live.template_version, Some(2));
    assert!(bound.task.dispatch_reservation.is_none());
    assert_eq!(validate_decoded_task(&bound.task), Ok(()));
    let freed = service(vec![bound.task]);
    assert_eq!(
        refusal(freed.bind_reserved_task("one", &id, "s-1", spawn, None, NOW)),
        TaskError::BindReservationMissing
    );
}

#[test]
fn a_failed_dispatch_waits_again() {
    let queue = service(vec![task("one", 3, "a", 1)]);
    let (reserved, id) = reserve(&queue);
    let held = service(vec![reserved]);
    assert_eq!(
        refusal(held.fail_reserved_task("one", "other", "r".to_owned(), NOW)),
        TaskError::FailureReservationConflict
    );
    let failed = held.fail_reserved_task("one", &id, "no launch".to_owned(), NOW + 3).unwrap();
    assert_eq!(failed.task.state, TaskState::Todo);
    assert_eq!(failed.task.attempts.len(), 1);
    assert_eq!(failed.task.attempts[0].outcome, AttemptOutcome::Failed);
    assert_eq!(failed.task.attempts[0].reason.as_deref(), Some("no launch"));
    let freed = service(vec![failed.task]);
    assert_eq!(
        refusal(freed.fail_reserved_task("one", &id, "r".to_owned(), NOW)),
        TaskError::FailureReservationMissing
    );
}

#[test]
fn an_idle_queue_reserves_nothing() {
    let empty = service(vec![]).reserve_next_dispatch(2, 1_000, NOW).unwrap();
    let response = idle_dispatch_response(empty, 2).unwrap();
    assert_eq!((response.decision.as_str(), response.in_flight), ("empty", 0));
    let full = service(vec![running("one", "a", 1, "s"), task("two", 3, "a", 2)]);
    let plan = full.reserve_next_dispatch(1, 1_000, NOW).unwrap();
    assert!(matches!(plan, ReservePlan::AtCapacity { in_flight: 1 }));
    assert_eq!(
        refusal(full.reserve_next_dispatch(0, 1_000, NOW)),
        TaskError::ConcurrencyCapZero
    );
}

#[test]
fn reconciliation_parks_vanished_attempts_for_review() {
    let mut gone = running("gone", "a", 1, "s-gone");
    gone.attempts[0].spawn_id = Some("agent-spawn-1".to_owned());
    let queue = service(vec![
        gone,
        running("here", "a", 2, "s-here"),
        task("waiting", 3, "a", 4),
    ]);
    let live = vec!["s-here".to_owned()];
    let plan = queue.reconcile_tasks(&live, NOW + 9).unwrap();
    assert_eq!(plan.scanned_in_progress, 2);
    assert_eq!(plan.steps.len(), 1);
    match &plan.steps[0] {
        ReconcileStep::Vanish { task_id, spawn_id } => {
            assert_eq!((task_id.as_str(), spawn_id.as_deref()), ("gone", Some("agent-spawn-1")));
        }
        other => panic!("{other:?}"),
    }
    let step = &plan.steps[0];
    let orphaned = queue.settle_reconcile_step(step, &live, &None, NOW + 9).unwrap();
    assert_eq!(orphaned.task.state, TaskState::Review);
    assert_eq!(orphaned.task.attempts[0].outcome, AttemptOutcome::Orphaned);
    assert!(flags_orphan(step, &None));
    let finished = SpawnTerminalCompletion {
        path: "p".to_owned(),
        status: "ok".to_owned(),
        error_message: None,
    };
    assert!(finished.is_success());
    assert_eq!(finished.reason(), "spawned agent terminal artifact status=ok at p");
    let done = Some(finished);
    let settled = queue.settle_reconcile_step(step, &live, &done, NOW + 9).unwrap();
    assert_eq!(settled.task.attempts[0].outcome, AttemptOutcome::Succeeded);
    assert_eq!(settled.task.review_reason, None);
    assert!(!flags_orphan(step, &done));
    assert_eq!(
        refusal(queue.settle_reconcile_step(step, &vec!["s-gone".to_owned()], &None, NOW)),
        TaskError::ReconcileSessionRecovered
    );
    let mut run = ReconcileRun::start(plan);
    let step = queue.refreshed_step(run.step().unwrap()).unwrap();
    run.on_settled(&step, &None);
    assert!(run.step().is_none());
    let response = queue.task_reconcile_impl(run);
    assert_eq!(response.scanned_in_progress, 2);
    assert_eq!(response.flagged_orphans, vec!["gone".to_owned()]);
}

fn completed(status: &str) -> Option<SpawnTerminalCompletion> {
    Some(SpawnTerminalCompletion {
        path: "p".to_owned(),
        status: status.to_owned(),
        error_message: None,
    })
}

#[test]
fn only_spawns_of_the_right_shape_have_completions() {
    let mut odd = running("odd", "a", 1, "s");
    odd.attempts[0].spawn_id = Some("../agent-spawn-1".to_owned());
    let queue = service(vec![odd]);
    let plan = queue.reconcile_tasks(&vec![], NOW + 9).unwrap();
    let step = &plan.steps[0];
    assert!(matches!(step, ReconcileStep::Vanish { spawn_id: None, .. }));
    let done = completed("ok");
    assert!(flags_orphan(step, &done));
    let settled = queue.settle_reconcile_step(step, &vec![], &done, NOW + 9).unwrap();
    assert_eq!(settled.task.attempts[0].outcome, AttemptOutcome::Orphaned);
}

#[test]
fn a_completion_counts_only_for_the_spawn_of_the_live_attempt() {
    let spawned = |spawn_id: &str| {
        let mut task = running("one", "a", 1, "s");
        task.attempts[0].spawn_id = Some(spawn_id.to_owned());
        service(vec![task])
    };
    let before = spawned("agent-spawn-1");
    let plan = before.reconcile_tasks(&vec![], NOW + 9).unwrap();
    let after = spawned("agent-spawn-2");
    let done = completed("ok");
    assert_eq!(
        refusal(after.settle_reconcile_step(&plan.steps[0], &vec![], &done, NOW + 9)),
        TaskError::ReconcileSuperseded
    );
    let current = after.refreshed_step(&plan.steps[0]).unwrap();
    match &current {
        ReconcileStep::Vanish { spawn_id, .. } => {
            assert_eq!(spawn_id.as_deref(), Some("agent-spawn-2"));
        }
        other => panic!("{other:?}"),
    }
    let settled = after.settle_reconcile_step(&current, &vec![], &done, NOW + 9).unwrap();
    assert_eq!(settled.task.attempts[0].outcome, AttemptOutcome::Succeeded);
    let failed = completed("error");
    let settled = after.settle_reconcile_step(&current, &vec![], &failed, NOW + 9).unwrap();
    assert_eq!(settled.task.attempts[0].outcome, AttemptOutcome::Failed);
    let gone = service(vec![]);
    assert_eq!(refusal(gone.refreshed_step(&plan.steps[0])), TaskError::NotFound);
}

fn reconciled(queue: SynapseService, live: &Vec<String>, now: u64) -> (SynapseService, Vec<String>) {
    let mut queue = queue;
    let mut run = ReconcileRun::start(queue.reconcile_tasks(live, now).unwrap());
    while let Some(step) = run.step() {
        let current = queue.refreshed_step(step).unwrap();
        let prepared = queue.settle_reconcile_step(&current, live, &None, now).unwrap();
        queue.record_mutation(prepared, revisions());
        run.on_settled(&current, &None);
    }
    (queue, run.flagged_orphans)
}

fn revisions() -> CommittedRevisions {
    CommittedRevisions {
        queue_sha256: [31; 32],
        sequence_sha256: [32; 32],
        row_sha256: [33; 32],
        value_len_bytes: 9,
    }
}

#[test]
fn a_second_reconciliation_finds_nothing() {
    let live = vec!["s-here".to_owned()];
    let queue = service(vec![
        running("gone", "a", 1, "s-gone"),
        running("here", "a", 2, "s-here"),
        running("lost", "b", 3, "s-lost"),
    ]);
    let (settled, flagged) = reconciled(queue, &live, NOW + 9);
    assert_eq!(flagged, vec!["gone".to_owned(), "lost".to_owned()]);
    let tasks = scan_task_values(&settled.rows).unwrap();
    let states: Vec<TaskState> = tasks.iter().map(|task| task.state).collect();
    assert_eq!(states, vec![TaskState::Review, TaskState::InProgress, TaskState::Review]);
    let generations: Vec<u64> = tasks.iter().map(|task| task.mutation_generation).collect();
    let (again, flagged) = reconciled(settled, &live, NOW + 99);
    assert!(flagged.is_empty());
    let tasks = scan_task_values(&again.rows).unwrap();
    let kept: Vec<u64> = tasks.iter().map(|task| task.mutation_generation).collect();
    assert_eq!(kept, generations);
}

#[test]
fn a_later_task_is_enqueued_later_though_the_first_is_gone() {
    let mut queue = service(vec![]);
    let first = queue.task_create_impl(&create_params("first"), NOW).unwrap();
    let first_seq = first.task.enqueue_seq;
    queue.record_create(first, revisions());
    let read = read_enqueue_seq_watermark_revisioned(&queue.sequence).unwrap().unwrap();
    assert_eq!((read.value, read.revision_sha256), (first_seq, [32; 32]));
    assert_eq!(
        refusal(queue.task_create_impl(&create_params("first"), NOW)).code(),
        ErrorCode::ToolParamsInvalid
    );
    queue.rows.clear();
    let second = queue.task_create_impl(&create_params("second"), NOW + 5).unwrap();
    assert!(second.task.enqueue_seq > first_seq);
    assert!(second.task.attempts.is_empty() && second.task.dispatch_reservation.is_none());
    assert_eq!(second.task.created_unix_ms, second.task.updated_unix_ms);
}

#[test]
fn cancelling_twice_is_cancelling_once() {
    let cancel = || TaskCancelParams { task_id: "one".to_owned(), reason: None };
    let mut queue = service(vec![running("one", "a", 1, "s")]);
    let prepared = match queue.task_cancel_impl(cancel(), NOW + 1) {
        Ok(CancelPlan::Write(prepared)) => prepared,
        other => panic!("{other:?}"),
    };
    let (generation, changed) = (prepared.task.mutation_generation, prepared.task.updated_unix_ms);
    queue.record_mutation(prepared, revisions());
    match queue.task_cancel_impl(cancel(), NOW + 99) {
        Ok(CancelPlan::Unchanged(kept)) => {
            assert_eq!(kept.state, TaskState::Cancelled);
            assert_eq!((kept.mutation_generation, kept.updated_unix_ms), (generation, changed));
        }
        other => panic!("{other:?}"),
    }
}

#[test]
fn the_dashboard_shows_the_front_of_the_list() {
    let queue = service(vec![
        running("busy", "a", 1, "s"),
        task("late", 3, "a", 3),
        task("urgent", 1, "a", 4),
        task("early", 3, "b", 2),
    ]);
    let ids = |tasks: &[AgentTask]| -> Vec<String> {
        tasks.iter().map(|task| task.task_id.clone()).collect()
    };
    let all = queue.task_list_impl(TaskListParams { state: None, max: 9 }, vec![]).unwrap();
    assert_eq!(ids(&all.tasks), ["urgent", "early", "late", "busy"]);
    for max in 0..6 {
        let shown = queue.dashboard_task_snapshot(max, vec![]).unwrap();
        assert_eq!(shown.count, max.min(4));
        assert_eq!(ids(&shown.tasks), ids(&all.tasks[..shown.count]));
    }
}

#[test]
fn a_failed_commit_answers_the_code_of_the_store() {
    let error = TaskError::MutationCommitAmbiguous { code: STORE_CODE };
    assert_eq!(error.code(), ErrorCode::Storage(STORE_CODE));
    assert_eq!(error.code().as_str(), "STORAGE_DISK_PRESSURE");
}

#[test]
fn a_row_repair_reads_the_row_before_the_queue() {
    let mut broken = vec![row(task("one", 3, "a", 4))];
    broken[0].value = StoredTask::Undecodable;
    let mut replacement = task("one", 3, "a", 4);
    replacement.mutation_generation = 0;
    let params = TaskRowRepairParams {
        task_id: "one".to_owned(),
        expected_revision_sha256: revision_sha256_hex(&[4; 32]),
        replacement,
        reason: "why".to_owned(),
    };
    let sequence = StoredSequence::Present { value: b"9".to_vec(), revision_sha256: [2; 32] };
    let plan = prepare_row_repair(params, &broken, &queue_state(9), &sequence, NOW).unwrap();
    let readback = RowRepairReadback {
        stored: Some(b"row".to_vec()),
        row: Some(StoredTaskRow {
            key: task_key("one"),
            revision_sha256: [7; 32],
            value_len_bytes: 3,
            value: StoredTask::Undecodable,
        }),
        queue: StoredQueueState::Undecodable { revision_sha256: [8; 32] },
    };
    let applied = CommitOutcome::Applied { committed_seq: 4 };
    assert_eq!(
        refusal(settle_row_repair(plan, b"row", applied, &readback, "CF")),
        TaskError::RowUndecodable
    );
}

#[test]
fn expired_reservations_are_orphaned() {
    let queue = service(vec![task("one", 3, "a", 1)]);
    let (reserved, id) = reserve(&queue);
    let mut held = service(vec![reserved]);
    held.queue = queue_state(2);
    assert!(held.reconcile_tasks(&vec![], NOW + 10).unwrap().steps.is_empty());
    let late = NOW + 900_000;
    let plan = held.reconcile_tasks(&vec![], late).unwrap();
    match &plan.steps[0] {
        ReconcileStep::Expire { task_id, reservation_id, reason } => {
            assert_eq!((task_id.as_str(), reservation_id), ("one", &id));
            assert!(reason.contains(&id));
        }
        other => panic!("{other:?}"),
    }
    let settled = held.settle_reconcile_step(&plan.steps[0], &vec![], &None, late).unwrap();
    assert_eq!(settled.task.state, TaskState::Review);
    assert_eq!(settled.task.attempts[0].outcome, AttemptOutcome::Orphaned);
    assert!(settled.task.dispatch_reservation.is_none());
    assert_eq!(
        refusal(held.settle_reconcile_step(&plan.steps[0], &vec![], &None, late - 1)),
        TaskError::ReconcileReservationConflict
    );
}

#[test]
fn completion_artifacts_tell_how_a_spawn_ended() {
    let done = read_spawn_terminal_completion("p", br#"{"status":"failed","error_message":"boom"}"#);
    if let Some(found) = done {
        assert!(!found.is_success());
        assert!(found.reason().contains("boom"));
    } else {
        panic!("no completion");
    }
    assert!(read_spawn_terminal_completion("p", b"not json").is_none());
    assert!(read_spawn_terminal_completion("p", br#"{"status":"running"}"#).is_none());
}

#[test]
fn dispatch_failures_are_told_by_their_origin() {
    let failed =
        DispatchEvent::SpawnFailed { code: "E".to_owned(), message: "boom".to_owned() };
    match after_spawn(DispatchOrigin::Tool, &failed) {
        DispatchAction::RecordFailure { reason } => {
            assert_eq!(reason, "dispatch spawn failed [E]: boom")
        }
        other => panic!("{other:?}"),
    }
    let superseded = DispatchEvent::Superseded {
        code: "E".to_owned(),
        message: "m".to_owned(),
        cleanup: "c".to_owned(),
    };
    match after_spawn(DispatchOrigin::Dashboard, &superseded) {
        DispatchAction::RecordFailure { reason } => assert_eq!(
            reason,
            "dashboard dispatch spawn superseded by operator panic [E]: m; cleanup=c"
        ),
        other => panic!("{other:?}"),
    }
    assert!(matches!(after_spawn(DispatchOrigin::Tool, &DispatchEvent::Spawned), DispatchAction::Bind));
    assert!(matches!(dispatch_end(&DispatchEvent::Spawned, Ok(())), DispatchEnd::Answer));
    assert!(matches!(
        dispatch_end(&DispatchEvent::Spawned, Err(TaskError::NotFound)),
        DispatchEnd::CleanUpAndReturn(TaskError::BindFailedAfterSpawn)
    ));
    assert!(matches!(dispatch_end(&failed, Ok(())), DispatchEnd::ReturnSpawnError));
    let request = spawn_request(&task("one", 3, "a", 1), "url".to_owned(), 5);
    assert_eq!(request.wait_timeout_ms, 600_000);
    assert_eq!(request.template_params, [("k".to_owned(), "v".to_owned())]);
}

#[test]
fn rows_are_valid_only_with_one_live_attempt_in_progress() {
    assert_eq!(validate_decoded_task(&running("one", "a", 1, "s")), Ok(()));
    let mut none = task("one", 3, "a", 1);
    none.state = TaskState::InProgress;
    assert_eq!(
        validate_decoded_task(&none),
        Err(TaskError::PendingAttemptInvariant { pending: 0 })
    );
    let mut stray = running("one", "a", 1, "s");
    stray.state = TaskState::Review;
    assert_eq!(
        validate_decoded_task(&stray),
        Err(TaskError::PendingAttemptInvariant { pending: 1 })
    );
    let mut bad = running("one", "a", 1, "s");
    bad.attempts[0].attempt_id = 2;
    assert_eq!(validate_decoded_task(&bad), Err(TaskError::AttemptInvalid { index: 0 }));
    let mut lease = running("one", "a", 1, "s");
    lease.dispatch_reservation = Some(TaskDispatchReservation {
        schema_version: 1,
        reservation_id: "r".to_owned(),
        reserved_unix_ms: NOW,
        expires_at_unix_ms: NOW + 1,
    });
    assert_eq!(validate_decoded_task(&lease), Err(TaskError::ReservationInvalid));
    let mut loose = task("one", 3, "a", 1);
    loose.dispatch_reservation = lease.dispatch_reservation.clone();
    assert_eq!(validate_decoded_task(&loose), Err(TaskError::ReservationAttemptMissing));
    let mut blank = task("one", 3, "a", 1);
    blank.title = String::new();
    assert_eq!(validate_decoded_task(&blank), Err(TaskError::RowFieldsInvalid));
    assert_eq!(refusal(decode_task("k", None)), TaskError::RowUndecodable);
    assert_eq!(
        refusal(check_task_row("other", &task("one", 3, "a", 1))),
        TaskError::RowKeyInvalid
    );
    assert_eq!(
        refusal(check_task_row(&task_key("two"), &task("one", 3, "a", 1))),
        TaskError::RowIdentityInvalid
    );
    assert_eq!(key_after(b"ab"), b"ab\0");
}

#[test]
fn watermarks_read_back_as_written() {
    for value in [0, 1, 99, u64::MAX] {
        assert_eq!(decode_enqueue_seq_watermark(&encode_enqueue_seq_watermark(value)), Ok(value));
    }
    assert_eq!(encode_enqueue_seq_watermark(120), b"120");
    for bad in [&b""[..], b"01", b"+1", b"1 ", b"18446744073709551616", b"\xff"] {
        assert_eq!(decode_enqueue_seq_watermark(bad), Err(TaskError::SequenceCorrupted));
    }
    assert_eq!(
        refusal(read_enqueue_seq_watermark_revisioned(&StoredSequence::Expired {
            revision_sha256: [0; 32]
        })),
        TaskError::SequenceExpired
    );
    assert!(read_enqueue_seq_watermark_revisioned(&StoredSequence::Absent).unwrap().is_none());
}

#[test]
fn generations_grow_with_every_commit() {
    let state = TaskQueueState { schema_version: 1, mutation_generation: 6, updated_unix_ms: 1 };
    assert_eq!(next_task_queue_state(&state, NOW).unwrap().mutation_generation, 7);
    let last =
        TaskQueueState { schema_version: 1, mutation_generation: u64::MAX, updated_unix_ms: 1 };
    assert_eq!(
        refusal(next_task_queue_state(&last, NOW)),
        TaskError::QueueGenerationExhausted
    );
    assert_eq!(next_retry(0), Ok(1));
    assert!(next_retry(64).is_err());
    assert_eq!(
        refusal(read_task_queue_state_revisioned(&StoredQueueState::Undecodable {
            revision_sha256: [0; 32]
        })),
        TaskError::QueueStateUndecodable
    );
    assert_eq!(
        refusal(read_task_queue_state_revisioned(&StoredQueueState::Decoded {
            state: TaskQueueState { schema_version: 9, mutation_generation: 1, updated_unix_ms: 1 },
            revision_sha256: [0; 32]
        })),
        TaskError::QueueStateVersionInvalid
    );
}

#[test]
fn missing_queue_rows_are_initialized_from_the_tasks() {
    let rows = vec![row(task("one", 3, "a", 4)), row(task("two", 3, "a", 9))];
    match initialize_task_queue_state(&StoredQueueState::Absent, &rows, NOW) {
        Ok(QueueReadiness::Initialize(state)) => {
            assert_eq!((state.mutation_generation, state.updated_unix_ms), (9, NOW));
            let readback = StoredQueueState::Decoded { state, revision_sha256: [5; 32] };
            assert!(matches!(
                settle_queue_state_init(
                    &state,
                    CommitOutcome::Applied { committed_seq: 1 },
                    &readback,
                    0
                ),
                Ok(InitVerdict::Ready(_))
            ));
            assert!(matches!(
                settle_queue_state_init(&state, CommitOutcome::Conflict, &readback, 0),
                Ok(InitVerdict::Retry(1))
            ));
        }
        other => panic!("{other:?}"),
    }
    match initialize_enqueue_seq_watermark(&StoredSequence::Absent, &rows) {
        Ok(SequenceReadiness::Initialize(value)) => {
            assert_eq!(value, 9);
            let readback =
                StoredSequence::Present { value: b"9".to_vec(), revision_sha256: [5; 32] };
            assert!(matches!(
                settle_sequence_init(9, CommitOutcome::Applied { committed_seq: 1 }, &readback, 0),
                Ok(InitVerdict::Ready(_))
            ));
        }
        other => panic!("{other:?}"),
    }
}

#[test]
fn a_snapshot_counts_only_where_the_queue_stood_still() {
    let state = TaskQueueState { schema_version: 1, mutation_generation: 9, updated_unix_ms: NOW };
    let before = RevisionedTaskQueueState { state, revision_sha256: [5; 32] };
    let same = StoredQueueState::Decoded { state, revision_sha256: [5; 32] };
    let rows = vec![row(task("one", 3, "a", 4))];
    match stable_task_snapshot(&before, &rows, true, &same, 0) {
        Ok(SnapshotVerdict::Stable { tasks, .. }) => assert_eq!(tasks.len(), 1),
        other => panic!("{other:?}"),
    }
    let moved = StoredQueueState::Decoded {
        state: TaskQueueState { schema_version: 1, mutation_generation: 10, updated_unix_ms: NOW },
        revision_sha256: [6; 32],
    };
    assert!(matches!(
        stable_task_snapshot(&before, &rows, true, &moved, 0),
        Ok(SnapshotVerdict::Retry(1))
    ));
    assert!(matches!(
        stable_task_snapshot(&before, &rows, false, &same, 0),
        Ok(SnapshotVerdict::Retry(1))
    ));
}

#[test]
fn rows_read_under_their_own_key() {
    let rows = vec![row(task("one", 3, "a", 4))];
    let found = read_task_row_revisioned(&rows, "one").unwrap().unwrap();
    assert_eq!(found.task.task_id, "one");
    assert_eq!(found.revision_sha256, [4; 32]);
    assert!(read_task_row_revisioned(&rows, "two").unwrap().is_none());
    let mut broken = vec![row(task("one", 3, "a", 4))];
    broken[0].value = StoredTask::Undecodable;
    assert_eq!(refusal(read_task_row_revisioned(&broken, "one")), TaskError::RowUndecodable);
    assert_eq!(refusal(scan_task_values(&broken)), TaskError::RowUndecodable);
    broken[0].value = StoredTask::Expired;
    assert_eq!(refusal(read_task_row_revisioned(&broken, "one")), TaskError::RowExpired);
}

#[test]
fn a_mutation_counts_only_once_it_reads_back() {
    let queue = service(vec![task("one", 3, "a", 1)]);
    let prepare = || {
        queue
            .task_claim_impl(
                TaskClaimParams { task_id: "one".to_owned(), session_id: "s".to_owned() },
                NOW,
            )
            .unwrap()
    };
    let prepared = prepare();
    let good = MutationReadback {
        stored: Some(b"row".to_vec()),
        decoded: Some(prepared.task.clone()),
        queue: StoredQueueState::Decoded { state: prepared.next_queue, revision_sha256: [9; 32] },
    };
    let applied = CommitOutcome::Applied { committed_seq: 3 };
    match settle_mutation(prepared, b"row", applied, &good, "CF", 0) {
        Ok(MutationVerdict::Committed(response)) => {
            assert_eq!(response.task.mutation_generation, 2)
        }
        other => panic!("{other:?}"),
    }
    assert_eq!(
        refusal(settle_mutation(prepare(), b"other", applied, &good, "CF", 0)),
        TaskError::MutationReadbackDrift
    );
    let missing =
        MutationReadback { stored: None, decoded: None, queue: StoredQueueState::Absent };
    assert_eq!(
        refusal(settle_mutation(prepare(), b"row", applied, &missing, "CF", 0)),
        TaskError::MutationReadbackMissing
    );
    assert!(matches!(
        settle_mutation(prepare(), b"row", CommitOutcome::Conflict, &missing, "CF", 1),
        Ok(MutationVerdict::Retry(2))
    ));
    let mut recorded = service(vec![task("one", 3, "a", 1)]);
    let prepared = prepare();
    recorded.record_mutation(
        prepared,
        CommittedRevisions {
            queue_sha256: [9; 32],
            sequence_sha256: [9; 32],
            row_sha256: [8; 32],
            value_len_bytes: 3,
        },
    );
    let got = recorded.task_get_impl(TaskIdParams { task_id: "one".to_owned() }).unwrap();
    assert_eq!(got.task.state, TaskState::InProgress);
}

fn task_row(id: &str, state: TaskState, updated: u64) -> AgentTaskRow {
    let mut finished = task(id, 3, "a", 1);
    finished.state = state;
    finished.updated_unix_ms = updated;
    AgentTaskRow { key: task_key(id).into_bytes(), revision_sha256: [1; 32], task: finished }
}

#[test]
fn only_finished_tasks_past_their_time_are_pruned() {
    let week = 604_800_000;
    let rows = vec![
        task_row("open", TaskState::Todo, NOW),
        task_row("old", TaskState::Done, NOW),
        task_row("young", TaskState::Cancelled, NOW + week),
    ];
    let pruned: Vec<String> = terminal_task_rows_to_prune(NOW + week + 1, &rows)
        .into_iter()
        .map(|row| row.task.task_id)
        .collect();
    assert_eq!(pruned, ["old"]);
}

#[test]
fn no_more_finished_rows_are_kept_than_the_limit() {
    let rows: Vec<AgentTaskRow> = (0..5_003u64)
        .map(|at| task_row(&format!("t-{at}"), TaskState::Done, NOW + 5_003 - at))
        .collect();
    let pruned = terminal_task_rows_to_prune(NOW + 1, &rows);
    assert_eq!(pruned.len(), 3);
    let mut names: Vec<&str> = pruned.iter().map(|row| row.task.task_id.as_str()).collect();
    names.sort();
    assert_eq!(names, ["t-5000", "t-5001", "t-5002"]);
}

#[test]
fn a_prune_deletes_in_guarded_batches() {
    let rows: Vec<AgentTaskRow> =
        (0..600u64).map(|at| task_row(&format!("t-{at}"), TaskState::Done, NOW)).collect();
    let state = TaskQueueState { schema_version: 1, mutation_generation: 9, updated_unix_ms: NOW };
    let queue = RevisionedTaskQueueState { state, revision_sha256: [5; 32] };
    let batch = prepare_prune_batch(&rows, 0, &queue, NOW).unwrap();
    assert_eq!(batch.rows.len(), 512);
    assert_eq!(batch.next_queue.mutation_generation, 10);
    assert_eq!(prepare_prune_batch(&rows, 512, &queue, NOW).unwrap().rows.len(), 88);
    let readback = StoredQueueState::Decoded { state: batch.next_queue, revision_sha256: [6; 32] };
    let applied = CommitOutcome::Applied { committed_seq: 1 };
    match settle_prune_batch(&batch, applied, true, &readback, 0, 0) {
        Ok(PruneVerdict::Deleted { deleted_total, queue }) => {
            assert_eq!(deleted_total, 512);
            assert_eq!(queue.state.mutation_generation, 10);
        }
        other => panic!("{other:?}"),
    }
    assert_eq!(
        refusal(settle_prune_batch(&batch, applied, false, &readback, 0, 0)),
        TaskError::RetentionReadbackPresent
    );
    assert!(matches!(
        settle_prune_batch(&batch, CommitOutcome::Conflict, false, &readback, 0, 0),
        Ok(PruneVerdict::Restart(1))
    ));
}

#[test]
fn revisions_read_back_as_shown() {
    let revision = [171; 32];
    assert_eq!(parse_revision_sha256(&revision_sha256_hex(&revision)), Ok(revision));
    assert_eq!(refusal(parse_revision_sha256("abc")), TaskError::RevisionMalformed);
}

#[test]
fn a_sequence_repair_never_rewinds() {
    let rows = vec![row(task("one", 3, "a", 4)), row(task("two", 3, "a", 9))];
    let mut params =
        TaskSequenceRepairParams { minimum_last_enqueue_seq: 7, reason: "why".to_owned() };
    let stored = StoredSequence::Present { value: b"12".to_vec(), revision_sha256: [1; 32] };
    let plan = prepare_sequence_repair(&params, &stored, &rows).unwrap();
    assert_eq!(plan.repaired_sequence, 12);
    let lost = StoredSequence::Present { value: b"junk".to_vec(), revision_sha256: [1; 32] };
    let plan = prepare_sequence_repair(&params, &lost, &rows).unwrap();
    assert_eq!(plan.repaired_sequence, 9);
    assert_eq!(plan.expected_revision_sha256, Some([1; 32]));
    params.minimum_last_enqueue_seq = 20;
    let plan = prepare_sequence_repair(&params, &lost, &rows).unwrap();
    assert_eq!(plan.repaired_sequence, 20);
    let readback = StoredSequence::Present { value: b"20".to_vec(), revision_sha256: [2; 32] };
    match settle_sequence_repair(
        &plan,
        CommitOutcome::Applied { committed_seq: 8 },
        &readback,
        "CF",
        0,
    ) {
        Ok(SequenceRepairVerdict::Repaired(response)) => {
            assert_eq!((response.repaired_sequence, response.committed_seq), (20, 8));
            assert_eq!(response.observed_max_task_sequence, 9);
            assert_eq!(response.previous_decodable_sequence, None);
        }
        other => panic!("{other:?}"),
    }
    params.reason = String::new();
    assert_eq!(
        refusal(prepare_sequence_repair(&params, &lost, &rows)),
        TaskError::RepairReasonEmpty
    );
    params.reason = "why".to_owned();
    params.minimum_last_enqueue_seq = 0;
    let mut broken = vec![row(task("one", 3, "a", 4))];
    broken[0].value = StoredTask::Undecodable;
    assert_eq!(
        refusal(prepare_sequence_repair(&params, &stored, &broken)),
        TaskError::RepairSequenceFloorRequired { unobservable_rows: 1 }
    );
    assert_eq!(
        refusal(prepare_sequence_repair(&params, &lost, &broken)),
        TaskError::RepairSequenceFloorRequired { unobservable_rows: 0 }
    );
}

#[test]
fn a_queue_repair_never_rewinds() {
    let rows = vec![row(task("one", 3, "a", 4)), row(task("two", 3, "a", 9))];
    let lost = StoredQueueState::Undecodable { revision_sha256: [1; 32] };
    let mut params = TaskQueueStateRepairParams {
        expected_revision_sha256: Some(revision_sha256_hex(&[1; 32])),
        minimum_mutation_generation: 5,
        reason: "why".to_owned(),
    };
    let plan = prepare_queue_state_repair(&params, &lost, &rows, NOW).unwrap();
    assert!(plan.repaired.mutation_generation >= 9);
    assert_eq!(plan.survey.max_generation, 9);
    let readback = QueueReadback {
        stored: Some(b"state".to_vec()),
        queue: StoredQueueState::Decoded { state: plan.repaired, revision_sha256: [2; 32] },
    };
    let response = settle_queue_state_repair(
        &plan,
        b"state",
        CommitOutcome::Applied { committed_seq: 8 },
        &readback,
        "CF",
    )
    .unwrap();
    assert_eq!(response.repaired_generation, plan.repaired.mutation_generation);
    assert_eq!(response.committed_seq, Some(8));
    params.minimum_mutation_generation = 0;
    assert!(matches!(
        refusal(prepare_queue_state_repair(&params, &lost, &rows, NOW)),
        TaskError::RepairGenerationFloorRequired { queue_state_unobservable: true, .. }
    ));
    params.minimum_mutation_generation = 5;
    params.expected_revision_sha256 = Some("zz".to_owned());
    assert_eq!(
        refusal(prepare_queue_state_repair(&params, &lost, &rows, NOW)),
        TaskError::RevisionMalformed
    );
}

#[test]
fn a_row_repair_replaces_exactly_the_observed_row() {
    let mut broken = vec![row(task("one", 3, "a", 4)), row(task("two", 3, "a", 9))];
    broken[0].value = StoredTask::Undecodable;
    let mut replacement = task("one", 3, "a", 4);
    replacement.mutation_generation = 0;
    let params = |replacement: AgentTask| TaskRowRepairParams {
        task_id: "one".to_owned(),
        expected_revision_sha256: revision_sha256_hex(&[4; 32]),
        replacement,
        reason: "why".to_owned(),
    };
    let queue = StoredQueueState::Decoded {
        state: TaskQueueState { schema_version: 1, mutation_generation: 9, updated_unix_ms: NOW },
        revision_sha256: [1; 32],
    };
    let sequence = StoredSequence::Present { value: b"9".to_vec(), revision_sha256: [2; 32] };
    let plan =
        prepare_row_repair(params(replacement.clone()), &broken, &queue, &sequence, NOW).unwrap();
    assert_eq!(plan.task.mutation_generation, 10);
    assert_eq!(plan.next_queue.mutation_generation, 10);
    assert_eq!(plan.previous_value_len_bytes, 10);
    let readback = RowRepairReadback {
        stored: Some(b"row".to_vec()),
        row: Some(StoredTaskRow {
            key: task_key("one"),
            revision_sha256: [7; 32],
            value_len_bytes: 3,
            value: StoredTask::Decoded(plan.task.clone()),
        }),
        queue: StoredQueueState::Decoded { state: plan.next_queue, revision_sha256: [8; 32] },
    };
    let response = settle_row_repair(
        plan,
        b"row",
        CommitOutcome::Applied { committed_seq: 4 },
        &readback,
        "CF",
    )
    .unwrap();
    assert_eq!(response.committed_seq, Some(4));
    assert_eq!(response.task.task_id, "one");
    let mut taken = replacement.clone();
    taken.enqueue_seq = 9;
    assert_eq!(
        refusal(prepare_row_repair(params(taken), &broken, &queue, &sequence, NOW)),
        TaskError::RepairSequenceTaken { enqueue_seq: 9 }
    );
    let mut beyond = replacement.clone();
    beyond.enqueue_seq = 10;
    assert_eq!(
        refusal(prepare_row_repair(params(beyond), &broken, &queue, &sequence, NOW)),
        TaskError::RepairSequenceBeyondWatermark { enqueue_seq: 10, watermark: 9 }
    );
    let mut grown = replacement.clone();
    grown.mutation_generation = 3;
    assert_eq!(
        refusal(prepare_row_repair(params(grown), &broken, &queue, &sequence, NOW)),
        TaskError::RepairGenerationNotZero
    );
    let mut other = replacement;
    other.task_id = "two".to_owned();
    assert_eq!(
        refusal(prepare_row_repair(params(other), &broken, &queue, &sequence, NOW)),
        TaskError::RepairIdentityMismatch
    );
}

#[test]
fn a_dispatch_counts_itself() {
    let spawn = DispatchSpawnReadback {
        spawn_id: "agent-spawn-1".to_owned(),
        session_id: "s".to_owned(),
        template_id: None,
        template_version: None,
        agent_process_id: None,
        launched_at_unix_ms: NOW,
        task_started_at_unix_ms: NOW,
    };
    let response = dispatched_response(running("one", "a", 1, "s"), spawn, 1, 2);
    assert_eq!((response.decision.as_str(), response.in_flight), ("dispatched", 2));
    assert_eq!(response.task.unwrap().task_id, "one");
    assert_eq!(response.spawn.unwrap().spawn_id, "agent-spawn-1");
    assert_eq!(task_key("one"), format!("{}one", task_prefix()));
}

#[test]
fn a_dispatch_keeps_the_cap() {
    let queue = service(vec![running("busy", "a", 1, "s"), task("one", 3, "a", 2)]);
    let identity = match queue.reserve_next_dispatch(2, 1_000, NOW) {
        Ok(ReservePlan::Reserve { identity, in_flight_before: 1 }) => identity,
        other => panic!("{other:?}"),
    };
    let reserved = queue.reserve_picked_task(&identity, b"identity").unwrap();
    let full = service(vec![running("busy", "a", 1, "s"), reserved.task, task("two", 3, "a", 4)]);
    assert!(matches!(
        full.reserve_next_dispatch(2, 1_000, NOW),
        Ok(ReservePlan::AtCapacity { in_flight: 2 })
    ));
    assert_eq!(
        refusal(full.reserve_next_dispatch(2, 1_800_001, NOW)),
        TaskError::WaitTimeoutOutOfRange
    );
}

fn queue_state(generation: u64) -> StoredQueueState {
    StoredQueueState::Decoded {
        state: TaskQueueState {
            schema_version: 1,
            mutation_generation: generation,
            updated_unix_ms: NOW,
        },
        revision_sha256: [5; 32],
    }
}

#[test]
fn a_queue_without_its_rows_takes_no_request() {
    let mut queue = service(vec![task("one", 3, "a", 1)]);
    queue.queue = StoredQueueState::Absent;
    assert_eq!(
        refusal(queue.reserve_next_dispatch(2, 1_000, NOW)),
        TaskError::QueueStateMissing
    );
    queue.queue = StoredQueueState::Expired { revision_sha256: [0; 32] };
    assert_eq!(
        refusal(queue.task_create_impl(&create_params("two"), NOW)),
        TaskError::QueueStateExpired
    );
    let mut queue = service(vec![task("one", 3, "a", 1)]);
    queue.sequence = StoredSequence::Absent;
    assert_eq!(
        refusal(queue.task_create_impl(&create_params("two"), NOW)),
        TaskError::SequenceMissing
    );
    queue.sequence = StoredSequence::Present {
        value: encode_enqueue_seq_watermark(u64::MAX),
        revision_sha256: [0; 32],
    };
    assert_eq!(
        refusal(queue.task_create_impl(&create_params("two"), NOW)),
        TaskError::SequenceExhausted
    );
    queue.queue = queue_state(u64::MAX);
    assert_eq!(
        refusal(queue.reserve_next_dispatch(2, 1_000, NOW)),
        TaskError::QueueGenerationExhausted
    );
}

#[test]
fn initializations_that_do_not_read_back_are_refused() {
    let state = TaskQueueState { schema_version: 1, mutation_generation: 9, updated_unix_ms: NOW };
    let applied = CommitOutcome::Applied { committed_seq: 1 };
    let settle = |commit, readback: StoredQueueState, retry| {
        settle_queue_state_init(&state, commit, &readback, retry)
    };
    assert_eq!(
        refusal(settle(applied, queue_state(8), 0)),
        TaskError::QueueStateReadbackDrift
    );
    assert_eq!(
        refusal(settle(applied, StoredQueueState::Absent, 0)),
        TaskError::QueueStateMissing
    );
    assert_eq!(
        refusal(settle(FAILED, StoredQueueState::Absent, 0)),
        TaskError::QueueStateCommitAmbiguous { code: STORE_CODE }
    );
    assert!(matches!(
        settle(FAILED, queue_state(9), 0),
        Ok(InitVerdict::Ready(_))
    ));
    assert_eq!(
        refusal(settle(CommitOutcome::Conflict, StoredQueueState::Absent, 63)),
        TaskError::Contention
    );
    let other = StoredSequence::Present { value: b"8".to_vec(), revision_sha256: [5; 32] };
    assert_eq!(
        refusal(settle_sequence_init(9, applied, &other, 0)),
        TaskError::SequenceReadbackDrift
    );
    let before = RevisionedTaskQueueState { state, revision_sha256: [5; 32] };
    assert_eq!(
        refusal(stable_task_snapshot(
            &before,
            &vec![row(task("one", 3, "a", 10))],
            true,
            &queue_state(9),
            0
        )),
        TaskError::QueueGenerationDrift
    );
}

#[test]
fn mutations_that_do_not_read_back_are_refused() {
    let queue = service(vec![task("one", 3, "a", 1)]);
    let prepare = || {
        queue
            .task_claim_impl(
                TaskClaimParams { task_id: "one".to_owned(), session_id: "s".to_owned() },
                NOW,
            )
            .unwrap()
    };
    let readback = |decoded: AgentTask, generation| MutationReadback {
        stored: Some(b"row".to_vec()),
        decoded: Some(decoded),
        queue: queue_state(generation),
    };
    let applied = CommitOutcome::Applied { committed_seq: 3 };
    let settle = |readback: MutationReadback, commit| {
        refusal(settle_mutation(prepare(), b"row", commit, &readback, "CF", 0))
    };
    let mut older = prepare().task;
    older.mutation_generation = 1;
    assert_eq!(settle(readback(older, 2), applied), TaskError::MutationGenerationDrift);
    assert_eq!(
        settle(readback(prepare().task, 1), applied),
        TaskError::QueueGenerationRollback
    );
    let missing =
        MutationReadback { stored: None, decoded: None, queue: StoredQueueState::Absent };
    assert_eq!(settle(missing, FAILED), TaskError::MutationCommitAmbiguous { code: STORE_CODE });
}

#[test]
fn creations_that_do_not_read_back_are_refused() {
    let queue = service(vec![task("one", 3, "a", 1)]);
    let prepare = || queue.task_create_impl(&create_params("two"), NOW).unwrap();
    let readback = |stored: Option<&[u8]>| CreateReadback {
        stored: stored.map(<[u8]>::to_vec),
        decoded: stored.map(|_| prepare().task),
        sequence: StoredSequence::Present { value: b"2".to_vec(), revision_sha256: [1; 32] },
        queue: queue_state(2),
    };
    let settle = |commit, stored: Option<&[u8]>| {
        refusal(settle_create(prepare(), b"row", commit, &readback(stored), "CF", 0))
    };
    let applied = CommitOutcome::Applied { committed_seq: 3 };
    assert_eq!(settle(applied, Some(b"other")), TaskError::CreateReadbackDrift);
    assert_eq!(settle(FAILED, None), TaskError::CreateNotCommitted { code: STORE_CODE });
    assert!(
        settle_create(
            prepare(),
            b"row",
            FAILED,
            &readback(Some(b"row")),
            "CF",
            0
        )
        .is_ok()
    );
}

#[test]
fn prunes_that_do_not_read_back_are_refused() {
    let rows = vec![task_row("one", TaskState::Done, NOW)];
    let state = TaskQueueState { schema_version: 1, mutation_generation: 9, updated_unix_ms: NOW };
    let queue = RevisionedTaskQueueState { state, revision_sha256: [5; 32] };
    let batch = prepare_prune_batch(&rows, 0, &queue, NOW).unwrap();
    let applied = CommitOutcome::Applied { committed_seq: 1 };
    assert_eq!(
        refusal(settle_prune_batch(&batch, applied, true, &queue_state(9), 0, 0)),
        TaskError::QueueGenerationRollback
    );
    assert_eq!(
        refusal(settle_prune_batch(&batch, FAILED, true, &queue_state(9), 0, 0)),
        TaskError::RetentionCommitAmbiguous { code: STORE_CODE }
    );
}

#[test]
fn rows_ahead_of_the_queue_stop_every_operation() {
    let mut queue = service(vec![task("one", 3, "a", 1), task("two", 3, "a", 2)]);
    queue.queue = queue_state(1);
    let list = || TaskListParams { state: None, max: 9 };
    let next = || TaskNextParams { concurrency_cap: 2 };
    let refusals = [
        refusal(queue.task_list_impl(list(), vec![])),
        refusal(queue.dashboard_task_snapshot(9, vec![])),
        refusal(queue.task_next_impl(next())),
        refusal(queue.dashboard_task_next(2)),
        refusal(queue.reconcile_tasks(&vec![], NOW)),
        refusal(queue.reserve_next_dispatch(2, 1_000, NOW)),
        refusal(queue.task_create_impl(&create_params("three"), NOW)),
        refusal(queue.dashboard_task_create(&create_params("three"), NOW)),
        refusal(queue.prune_terminal_tasks(NOW)),
    ];
    for error in refusals {
        assert_eq!(error, TaskError::QueueGenerationDrift);
        assert_eq!(error.code(), ErrorCode::StorageCorrupted);
    }
    let mut blank = create_params("three");
    blank.title = " ".to_owned();
    assert_eq!(refusal(queue.task_create_impl(&blank, NOW)), TaskError::TitleEmpty);
    assert_eq!(
        refusal(queue.reserve_next_dispatch(0, 1_000, NOW)),
        TaskError::ConcurrencyCapZero
    );
    assert!(queue.task_get_impl(TaskIdParams { task_id: "two".to_owned() }).is_ok());
    queue.queue = queue_state(2);
    assert_eq!(queue.task_list_impl(list(), vec![]).unwrap().count, 2);
    assert_eq!(queue.task_next_impl(next()).unwrap().decision, "dispatch");
    assert!(queue.task_create_impl(&create_params("three"), NOW).is_ok());
}

#[test]
fn sequences_beyond_the_watermark_stop_audited_operations() {
    let mut queue = service(vec![task("one", 3, "a", 4)]);
    queue.sequence = StoredSequence::Present {
        value: encode_enqueue_seq_watermark(3),
        revision_sha256: [1; 32],
    };
    let list = || TaskListParams { state: None, max: 9 };
    let refusals = [
        refusal(queue.task_list_impl(list(), vec![])),
        refusal(queue.task_next_impl(TaskNextParams { concurrency_cap: 2 })),
        refusal(queue.task_create_impl(&create_params("two"), NOW)),
        refusal(queue.prune_terminal_tasks(NOW)),
    ];
    for error in refusals {
        assert_eq!(error, TaskError::SequenceDrift);
    }
    assert!(queue.reconcile_tasks(&vec![], NOW).is_ok());
    assert!(queue.reserve_next_dispatch(2, 1_000, NOW).is_ok());
    queue.sequence = StoredSequence::Absent;
    assert_eq!(queue.task_list_impl(list(), vec![]).unwrap().count, 1);
    assert_eq!(
        refusal(queue.task_create_impl(&create_params("two"), NOW)),
        TaskError::SequenceMissing
    );
    assert_eq!(refusal(queue.prune_terminal_tasks(NOW)), TaskError::SequenceMissing);
}

#[test]
fn one_corrupt_row_stops_every_operation_on_the_queue() {
    let mut queue = service(vec![task("one", 3, "a", 1), task("two", 3, "a", 2)]);
    queue.rows[0].value = StoredTask::Undecodable;
    let list = || TaskListParams { state: None, max: 9 };
    let refusals = [
        refusal(queue.task_list_impl(list(), vec![])),
        refusal(queue.task_create_impl(&create_params("three"), NOW)),
        refusal(queue.reserve_next_dispatch(2, 1_000, NOW)),
        refusal(queue.reconcile_tasks(&vec![], NOW)),
        refusal(queue.prune_terminal_tasks(NOW)),
    ];
    for error in refusals {
        assert_eq!(error, TaskError::RowUndecodable);
    }
    queue.queue = StoredQueueState::Undecodable { revision_sha256: [9; 32] };
    assert_eq!(
        refusal(queue.task_list_impl(list(), vec![])),
        TaskError::QueueStateUndecodable
    );
}

#[test]
fn a_prune_plan_names_the_rows_that_outlived_their_retention() {
    let mut old = task("old", 3, "a", 1);
    old.state = TaskState::Done;
    let mut fresh = task("fresh", 3, "a", 2);
    fresh.state = TaskState::Done;
    fresh.updated_unix_ms = NOW + 90 * 24 * 3_600_000;
    let queue = service(vec![old, fresh, task("open", 3, "a", 3)]);
    let plan = queue.prune_terminal_tasks(NOW + 90 * 24 * 3_600_000).unwrap();
    assert_eq!(plan.queue.state.mutation_generation, 3);
    assert_eq!(plan.delete.len(), 1);
    assert_eq!(plan.delete[0].key, task_key("old").into_bytes());
    assert_eq!(plan.delete[0].revision_sha256, [1; 32]);
    assert_eq!(plan.delete[0].task.task_id, "old");
    assert!(queue.prune_terminal_tasks(NOW).unwrap().delete.is_empty());
}

#[test]
fn a_recorded_mutation_replaces_its_row_and_no_other() {
    let mut queue = service(vec![task("one", 3, "a", 1), task("two", 3, "a", 2)]);
    queue.queue = queue_state(2);
    let prepared = queue
        .task_claim_impl(
            TaskClaimParams { task_id: "two".to_owned(), session_id: "s".to_owned() },
            NOW + 1,
        )
        .unwrap();
    queue.queue = StoredQueueState::Absent;
    queue.record_mutation(
        prepared,
        CommittedRevisions {
            queue_sha256: [7; 32],
            sequence_sha256: [8; 32],
            row_sha256: [9; 32],
            value_len_bytes: 77,
        },
    );
    assert_eq!(queue.rows.len(), 2);
    assert_eq!(queue.rows[1].key, task_key("two"));
    assert_eq!(queue.rows[1].revision_sha256, [9; 32]);
    assert_eq!(queue.rows[1].value_len_bytes, 77);
    match &queue.rows[1].value {
        StoredTask::Decoded(task) => assert_eq!(task.state, TaskState::InProgress),
        other => panic!("{other:?}"),
    }
    assert_eq!(queue.rows[0].revision_sha256, [1; 32]);
}

#[test]
fn reservations_are_bound_only_to_their_own_attempt() {
    let reserved_by = |session: &str| {
        let mut held = running("one", "a", 1, session);
        held.dispatch_reservation = Some(TaskDispatchReservation {
            schema_version: 1,
            reservation_id: "r".to_owned(),
            reserved_unix_ms: NOW,
            expires_at_unix_ms: NOW + 1,
        });
        held
    };
    let spawn = || "agent-spawn-1".to_owned();
    let drifted = reserved_by("someone");
    assert_eq!(
        refusal(bind_dispatch_reservation(&drifted, "r", "s", spawn(), None)),
        TaskError::BindAttemptDrift
    );
    assert_eq!(
        refusal(fail_dispatch_reservation(&drifted, "r", "x".to_owned(), NOW)),
        TaskError::FailureAttemptDrift
    );
    let mut idle = reserved_by("someone");
    idle.attempts[0].outcome = AttemptOutcome::Failed;
    assert_eq!(
        refusal(bind_dispatch_reservation(&idle, "r", "s", spawn(), None)),
        TaskError::BindAttemptMissing
    );
    assert_eq!(
        refusal(fail_dispatch_reservation(&idle, "r", "x".to_owned(), NOW)),
        TaskError::FailureAttemptMissing
    );
    assert_eq!(
        refusal(reconcile_expired_reservation(
            &task("one", 3, "a", 1),
            "r",
            "x".to_owned(),
            NOW
        )),
        TaskError::ReconcileReservationSuperseded
    );
    assert_eq!(
        refusal(reconcile_vanished_session(&task("one", 3, "a", 1), &vec![], &None, NOW)),
        TaskError::ReconcileSuperseded
    );
    assert_eq!(
        refusal(task_dispatch_reservation_lease_ms(u64::MAX)),
        TaskError::ReservationLeaseExhausted
    );
    let queue = service(vec![task("one", 3, "a", 1)]);
    let identity = match queue.reserve_next_dispatch(8, 1_000, NOW) {
        Ok(ReservePlan::Reserve { identity, .. }) => identity,
        other => panic!("{other:?}"),
    };
    let taken = service(vec![running("one", "a", 1, "s")]);
    assert_eq!(
        refusal(taken.reserve_picked_task(&identity, b"i")),
        TaskError::SelectionInvalid
    );
    let failed = DispatchEvent::SpawnFailed { code: "E".to_owned(), message: "m".to_owned() };
    assert!(matches!(
        dispatch_end(&failed, Err(TaskError::NotFound)),
        DispatchEnd::Return(TaskError::FailureSettleFailed)
    ));
}

#[test]
fn repairs_that_do_not_read_back_are_refused() {
    let rows = vec![row(task("one", 3, "a", 4))];
    let applied = CommitOutcome::Applied { committed_seq: 1 };
    let params = TaskSequenceRepairParams { minimum_last_enqueue_seq: 7, reason: "why".to_owned() };
    let plan = prepare_sequence_repair(&params, &StoredSequence::Absent, &rows).unwrap();
    let other = StoredSequence::Present { value: b"6".to_vec(), revision_sha256: [1; 32] };
    assert_eq!(
        refusal(settle_sequence_repair(&plan, applied, &other, "CF", 0)),
        TaskError::RepairReadbackDrift
    );
    assert_eq!(
        refusal(settle_sequence_repair(&plan, FAILED, &other, "CF", 0)),
        TaskError::RepairNotCommitted { code: STORE_CODE }
    );
    let params = TaskQueueStateRepairParams {
        expected_revision_sha256: Some(revision_sha256_hex(&[9; 32])),
        minimum_mutation_generation: 5,
        reason: "why".to_owned(),
    };
    let lost = StoredQueueState::Undecodable { revision_sha256: [1; 32] };
    assert_eq!(
        refusal(prepare_queue_state_repair(&params, &lost, &rows, NOW)),
        TaskError::RepairRevisionMismatch
    );
    let params = TaskQueueStateRepairParams {
        expected_revision_sha256: Some(revision_sha256_hex(&[1; 32])),
        minimum_mutation_generation: 5,
        reason: "why".to_owned(),
    };
    let plan = prepare_queue_state_repair(&params, &lost, &rows, NOW).unwrap();
    let readback = QueueReadback { stored: None, queue: StoredQueueState::Absent };
    assert_eq!(
        refusal(settle_queue_state_repair(&plan, b"s", CommitOutcome::Conflict, &readback, "CF")),
        TaskError::RepairConflict
    );
}

#[test]
fn row_repairs_need_the_row_and_the_queue() {
    let queue = queue_state(9);
    let sequence = StoredSequence::Present { value: b"9".to_vec(), revision_sha256: [2; 32] };
    let params = |revision: [u8; 32]| {
        let mut replacement = task("one", 3, "a", 4);
        replacement.mutation_generation = 0;
        TaskRowRepairParams {
            task_id: "one".to_owned(),
            expected_revision_sha256: revision_sha256_hex(&revision),
            replacement,
            reason: "why".to_owned(),
        }
    };
    let rows = vec![row(task("one", 3, "a", 4))];
    assert_eq!(
        refusal(prepare_row_repair(params([4; 32]), &vec![], &queue, &sequence, NOW)),
        TaskError::RepairRowAbsent
    );
    assert_eq!(
        refusal(prepare_row_repair(params([3; 32]), &rows, &queue, &sequence, NOW)),
        TaskError::RepairRevisionMismatch
    );
    assert_eq!(
        refusal(prepare_row_repair(
            params([4; 32]),
            &rows,
            &StoredQueueState::Absent,
            &sequence,
            NOW
        )),
        TaskError::RepairQueueStateMissing
    );
    assert_eq!(
        refusal(prepare_row_repair(
            params([4; 32]),
            &rows,
            &queue,
            &StoredSequence::Absent,
            NOW
        )),
        TaskError::RepairSequenceMissing
    );
}
