use synapse_agents::ambient::codes::session_code;
use synapse_agents::ambient::discovery::{
    AmbientRootScope, DiscoverySummary, FileDecision, ModifiedTime, NamePart, ProjectEntry,
    ProjectsBase, SessionFile, SessionFileError, ambient_projects_root_for_db,
    claude_projects_root_from_host_env, judge_file,
};
use synapse_agents::ambient::drive::{
    SessionAction, SessionRun, SessionRunStage, SessionStage, SessionSurvey, ingest_session_file,
};
use synapse_agents::ambient::events::{
    AgentEventKind, Payload, PayloadValue, has_text_member, new_event, operation_id_of,
};
use synapse_agents::ambient::journal::{
    AmbientCursorError, AmbientExactJournalRow, AmbientOutboxJournalState, CursorEvidence,
    JournalError, JournalRow, LoadedAmbientCursor, StoredAmbientCursor, count_journal_page,
    inspect_outbox_journal, inspect_projection_checkpoint_journal, load_cursor, plan_journal_page,
    plan_journal_range, settle_journal_scan, store_cursor,
};
use synapse_agents::ambient::outbox::{
    CheckpointEvidence, Lifecycle, OutboxError, OutboxEvidence, build_event_outbox,
    draft_event_outbox, draft_identity, lifecycle_state_tag, name_outbox, outbox_identity,
    validate_event_outbox, validate_projection_checkpoint,
};
use synapse_agents::ambient::pass::{SessionError, SessionIngestOutcome};
use synapse_agents::ambient::relay::{
    OutboxRelay, ProjectionAction, ProjectionError, ProjectionRecovery, ProjectionStart, RelayAction,
    RelayError, RelayStart, RetentionError, RetentionTtl, agent_event_retention_ns,
    ensure_absent_outbox_is_within_journal_retention, inspect_outbox_live_projection,
    reconcile_projection_checkpoint, relay_pending_event_outbox,
};
use synapse_agents::ambient::session::parse_session_line;
use synapse_agents::ambient::streaks::ProjectionRecoveryStreaks;
use synapse_agents::ambient::tracking::{
    AmbientCursor, AmbientEventOutbox, SessionState, cursor_kv_key, is_session_stem, seed_cursor, spawn_id_for_session,
    stick_cursor_error,
};
use synapse_agents::digest::sha256_hex;
use synapse_agents::guarded::{GuardedError, GuardedWrite, RowRead};
use synapse_agents::roots::{DefaultPaths, PathStyle};
use synapse_agents::transcripts::ingest::{PassError, RowEncoding, SourceFile};
use synapse_agents::transcripts::lines::AgentTranscriptRecord;
use synapse_agents::transcripts::record::{
    TranscriptParseStatus, TranscriptRole, TranscriptRules,
};
use synapse_agents::transcripts::source::{
    BoundaryEvidence, CoveredRow, FingerprintEvidence, RangeRead, RowStamp, SourceError,
    plan_boundary, plan_fingerprint,
};
use synapse_agents::transcripts::tail::{SourceOpening, TailError, TailEvent, read_line_at};

const NOW: u64 = 1_700_000_000_000_000_000;
const SESSION: &str = "0a1b2c3d-0000-4000-8000-0123456789ab";
const PATH: &str = "/projects/p/session.jsonl";
const USER: &str = r#"{"type":"user","cwd":"/w","gitBranch":"main","message":{"content":"hi"}}"#;
const ANSWER: &str = r#"{"type":"assistant","message":{"id":"m1","model":"mdl","stop_reason":"end_turn","content":[{"type":"text","text":"done"}]}}"#;
const CALL: &str = r#"{"type":"assistant","message":{"id":"m2","model":"mdl","stop_reason":"tool_use","content":[{"type":"tool_use","id":"t","name":"Bash","input":{"a":1}}]}}"#;

fn rules() -> TranscriptRules {
    TranscriptRules {
        max_summary_chars: 100,
        max_tool_args_chars: 100,
        max_tool_result_chars: 100,
        tool_status_error: "error".to_owned(),
        tool_status_ok: "ok".to_owned(),
        vendor: "acme".to_owned(),
    }
}

fn state() -> SessionState {
    SessionState {
        turn_index: 0,
        last_assistant_message_id: None,
        model: None,
        cwd: None,
        git_branch: None,
    }
}

fn cursor() -> AmbientCursor {
    seed_cursor(&spawn_id_for_session(SESSION, "acme"), SESSION, PATH, NOW)
}

fn evidence() -> OutboxEvidence {
    OutboxEvidence { encodable: vec![true; 3], identity: Some(b"identity".to_vec()) }
}

fn parse(line: &str, state: &mut SessionState) -> (AgentTranscriptRecord, Option<Lifecycle>) {
    parse_session_line(line.as_bytes(), 1, "agent-spawn-x", SESSION, None, state, &rules())
}

#[test]
fn sessions_have_their_spawn_ids() {
    assert!(is_session_stem(SESSION));
    assert!(!is_session_stem(&SESSION[1..]));
    assert!(!is_session_stem(&SESSION.replace('-', "0")));
    assert!(!is_session_stem(&SESSION.replace('a', "g")));
    assert_eq!(
        spawn_id_for_session(SESSION, "acme"),
        format!("agent-spawn-ambient-acme-{SESSION}")
    );
    assert_eq!(cursor_kv_key("agent-spawn-x"), b"ambient-agents/cursor/agent-spawn-x");
}

#[test]
fn a_prompt_starts_a_turn() {
    let mut state = state();
    let (record, lifecycle) = parse(USER, &mut state);
    assert_eq!(record.status, TranscriptParseStatus::Parsed);
    assert!(matches!(lifecycle, Some(Lifecycle::TurnStarted)));
    assert_eq!(state.cwd.as_deref(), Some("/w"));
    assert_eq!(state.git_branch.as_deref(), Some("main"));
    assert_eq!(record.conversation_id.as_deref(), Some(SESSION));
    let body = record.body.unwrap();
    assert_eq!(body.event_kind, "user/prompt");
    assert_eq!(body.role, TranscriptRole::System);
    let meta = r#"{"type":"user","isMeta":true,"message":{"content":"hi"}}"#;
    let (record, lifecycle) = parse(meta, &mut state);
    assert_eq!(record.body.unwrap().event_kind, "user/meta");
    assert!(lifecycle.is_none());
}

#[test]
fn an_answer_ends_a_turn_and_a_call_does_not() {
    let mut state = state();
    let (_, lifecycle) = parse(ANSWER, &mut state);
    assert!(matches!(lifecycle, Some(Lifecycle::Idle)));
    assert_eq!(state.turn_index, 1);
    assert_eq!(state.model.as_deref(), Some("mdl"));
    let (record, lifecycle) = parse(CALL, &mut state);
    assert_eq!(state.turn_index, 2);
    assert_eq!(record.turn_index, Some(2));
    match lifecycle {
        Some(Lifecycle::ToolUse { tool_name, input_sha256 }) => {
            assert_eq!(tool_name, "Bash");
            assert_eq!(input_sha256, sha256_hex(br#"{"a":1}"#));
        }
        other => panic!("{other:?}"),
    }
    let (_, lifecycle) = parse(CALL, &mut state);
    assert_eq!(state.turn_index, 2);
    assert!(lifecycle.is_some());
    let (record, _) = parse(ANSWER, &mut state);
    assert_eq!(record.turn_index, Some(3));
    assert_eq!(state.last_assistant_message_id.as_deref(), Some("m1"));
}

#[test]
fn unreadable_session_lines_keep_their_row() {
    let mut state = state();
    for (line, error) in [
        (r#"{"type":"mystery"}"#, "UNKNOWN_RECORD_TYPE: mystery"),
        (r#"{"type":"user"}"#, "USER_MISSING_MESSAGE"),
        (r#"{"type":"assistant"}"#, "ASSISTANT_MISSING_MESSAGE"),
        (r#"{"a":1}"#, "MISSING_TYPE: line has no string `type` field"),
    ] {
        let (record, lifecycle) = parse(line, &mut state);
        assert_eq!(record.status, TranscriptParseStatus::Invalid);
        assert_eq!(record.parse_error.as_deref(), Some(error));
        assert_eq!(record.raw_line_bytes, line.len() as u64);
        assert_eq!(record.raw_line_sha256, sha256_hex(line.as_bytes()));
        assert!(lifecycle.is_none());
    }
    let (record, _) = parse("not json", &mut state);
    assert_eq!(record.status, TranscriptParseStatus::Invalid);
    let (record, _) = parse(r#"{"type":"summary","summary":"s"}"#, &mut state);
    assert_eq!(record.status, TranscriptParseStatus::Parsed);
}

#[test]
fn stamps_come_off() {
    let mut event =
        new_event(1, AgentEventKind::TurnStarted, "agent-spawn-x", SESSION, "r", "acme");
    event.payload = Payload::Object(vec![("a".to_owned(), PayloadValue::Flag(true))]);
    event.stamp("op");
    assert!(has_text_member(&event.payload, "ambient_outbox_operation_id", "op"));
    let clean = event.cleaned();
    assert!(!has_text_member(&clean.payload, "ambient_outbox_operation_id", "op"));
    match clean.payload {
        Payload::Object(members) => assert_eq!(members.len(), 1),
        other => panic!("{other:?}"),
    }
}

#[test]
fn an_unregistered_agent_owes_its_registration() {
    let fresh = cursor();
    let draft = draft_event_outbox(&fresh, "acme", None, &None, NOW).unwrap();
    assert_eq!(draft.records.len(), 2);
    assert_eq!(draft.records[0].kind, AgentEventKind::SpawnRequested);
    assert_eq!(draft.records[1].kind, AgentEventKind::SpawnReady);
    assert!(draft.acknowledge_registration);
    let signal = Lifecycle::Idle;
    let both = draft_event_outbox(&fresh, "acme", Some(&signal), &None, NOW).unwrap();
    assert_eq!(both.records.len(), 3);
    assert_eq!(both.acknowledge_state, Some(lifecycle_state_tag(&signal)));
    let mut known = cursor();
    known.registered = true;
    known.last_emitted_state = Some(lifecycle_state_tag(&signal));
    assert!(draft_event_outbox(&known, "acme", Some(&signal), &None, NOW).is_none());
    assert!(draft_event_outbox(&known, "acme", None, &None, NOW).is_none());
    let working = Lifecycle::Working;
    let changed = draft_event_outbox(&known, "acme", Some(&working), &None, NOW).unwrap();
    assert_eq!(changed.records.len(), 1);
    assert!(!changed.acknowledge_registration);
}

#[test]
fn built_outboxes_are_accepted_and_changed_ones_are_not() {
    let fresh = cursor();
    let draft = || draft_event_outbox(&fresh, "acme", None, &None, NOW).unwrap();
    let mut built = build_event_outbox(&fresh, draft(), &evidence()).unwrap();
    assert_eq!(built.operation_id, sha256_hex(b"identity"));
    assert_eq!(validate_event_outbox(&fresh, &built, &evidence()), Ok(()));
    let unnamed = OutboxEvidence { encodable: vec![true; 3], identity: None };
    assert_eq!(
        build_event_outbox(&fresh, draft(), &unnamed).unwrap_err(),
        OutboxError::IdentityEncodeFailed
    );
    let refused = OutboxEvidence { encodable: vec![false; 3], identity: Some(b"i".to_vec()) };
    assert_eq!(
        build_event_outbox(&fresh, draft(), &refused).unwrap_err(),
        OutboxError::RecordInvalid
    );
    let unstamped = draft_identity(&fresh, &draft());
    let identity = outbox_identity(&fresh, &built);
    assert_eq!(identity.spawn_id, fresh.spawn_id);
    assert_eq!(identity.event_ts_ns, NOW);
    assert_eq!(identity.records.len(), unstamped.records.len());
    for (clean, drafted) in identity.records.iter().zip(&unstamped.records) {
        assert_eq!(operation_id_of(&clean.payload), None);
        assert_eq!(format!("{clean:?}"), format!("{drafted:?}"));
    }
    let renamed = name_outbox(&fresh, &draft(), "other");
    assert_eq!(operation_id_of(&renamed.records[0].payload).as_deref(), Some("other"));
    built.operation_id = sha256_hex(b"other");
    assert_eq!(
        validate_event_outbox(&fresh, &built, &evidence()),
        Err(OutboxError::OperationStampMismatch)
    );
    let mut moved = cursor();
    moved.offset_bytes = 4;
    built.operation_id = sha256_hex(b"identity");
    assert_eq!(
        validate_event_outbox(&moved, &built, &evidence()),
        Err(OutboxError::EnvelopeInvalid)
    );
}

#[test]
fn session_cursors_are_loaded_only_where_they_are_whole() {
    let none = || CursorEvidence {
        outbox: evidence(),
        checkpoint: CheckpointEvidence { outbox: evidence(), key_times: vec![] },
    };
    let spawn = spawn_id_for_session(SESSION, "acme");
    let found = StoredAmbientCursor::Found { cursor: cursor(), revision_sha256: [4; 32] };
    let loaded = load_cursor(found, &spawn, &none()).unwrap();
    assert_eq!(loaded.revision_sha256, Some([4; 32]));
    let other = StoredAmbientCursor::Found { cursor: cursor(), revision_sha256: [4; 32] };
    assert_eq!(
        load_cursor(other, "agent-spawn-other", &none()).unwrap_err(),
        AmbientCursorError::IdentityInvalid
    );
    assert_eq!(
        load_cursor(StoredAmbientCursor::Expired, &spawn, &none()).unwrap_err(),
        AmbientCursorError::Expired
    );
    let mut expected = None;
    let row = RowRead::Found { value: Some(b"x".to_vec()), revision_sha256: [5; 32] };
    let applied = GuardedWrite::Applied { committed_revision_sha256: Some([5; 32]) };
    assert_eq!(store_cursor(&mut expected, applied, &row, b"x"), Ok(()));
    assert_eq!(expected, Some([5; 32]));
    assert_eq!(
        store_cursor(&mut expected, applied, &row, b"y"),
        Err(AmbientCursorError::Store(GuardedError::ReadbackMismatch))
    );
}

fn journal_row(key: u8, value: &[u8], operation: &str) -> JournalRow {
    JournalRow {
        key: vec![key],
        value: value.to_vec(),
        decoded: true,
        operation_id: Some(operation.to_owned()),
    }
}

#[test]
fn a_journal_holds_all_events_of_an_operation_or_none() {
    let rows = vec![
        journal_row(1, b"a", "op"),
        journal_row(2, b"z", "other"),
        journal_row(3, b"b", "op"),
    ];
    let expected = vec![b"b".to_vec(), b"a".to_vec()];
    match inspect_outbox_journal(&rows, "op", &expected) {
        Ok(AmbientOutboxJournalState::Exact(found)) => {
            assert_eq!(found.len(), 2);
            assert_eq!((&found[0].key[..], &found[1].key[..]), (&[1u8][..], &[3u8][..]));
        }
        other => panic!("{other:?}"),
    }
    assert!(matches!(
        inspect_outbox_journal(&rows, "unknown", &expected),
        Ok(AmbientOutboxJournalState::Absent)
    ));
    assert!(matches!(
        inspect_outbox_journal(&rows, "op", &vec![b"a".to_vec()]),
        Err(JournalError::Diverged { expected: 1, actual: 2 })
    ));
    let mut broken = rows;
    broken[1].decoded = false;
    assert!(matches!(
        inspect_outbox_journal(&broken, "op", &expected),
        Err(JournalError::RowInvalid)
    ));
}

#[test]
fn a_journal_scan_is_bounded() {
    assert_eq!(plan_journal_range(7), Ok((7, 8)));
    assert_eq!(plan_journal_range(u64::MAX), Err(JournalError::TimestampExhausted));
    assert_eq!(plan_journal_page(0), Ok(256));
    assert!(matches!(plan_journal_page(4_097), Err(JournalError::RangeOversized { .. })));
    assert_eq!(count_journal_page(256, 10), Ok(266));
    assert_eq!(settle_journal_scan(Ok(()), Some(true)), Ok(()));
    assert!(settle_journal_scan(Ok(()), None).is_err());
    assert_eq!(
        settle_journal_scan(Err(JournalError::ScanFailed), Some(true)),
        Err(JournalError::ScanFailed)
    );
}

#[test]
fn a_projection_shows_an_event_once_it_is_as_late() {
    assert_eq!(inspect_outbox_live_projection(5_000_000, Some(5)), Ok(()));
    assert_eq!(
        inspect_outbox_live_projection(6_000_000, Some(5)),
        Err(ProjectionError::Stale { projected_last_event_unix_ms: 5 })
    );
    assert_eq!(inspect_outbox_live_projection(1, None), Err(ProjectionError::Missing));
}

#[test]
fn absence_counts_only_within_the_retention() {
    let hour = 3_600_000_000_000u64;
    assert_eq!(agent_event_retention_ns(Some(RetentionTtl::Hours(2))), Ok(2 * hour));
    assert_eq!(agent_event_retention_ns(Some(RetentionTtl::Days(1))), Ok(24 * hour));
    assert_eq!(agent_event_retention_ns(None), Err(RetentionError::ContractMissing));
    assert_eq!(
        agent_event_retention_ns(Some(RetentionTtl::Days(u64::MAX))),
        Err(RetentionError::ContractOverflow)
    );
    let check = |now| {
        ensure_absent_outbox_is_within_journal_retention(NOW, now, Some(RetentionTtl::Hours(1)))
    };
    assert_eq!(check(NOW + 1), Ok(()));
    assert_eq!(check(NOW + 2 * hour), Err(RelayError::JournalAbsenceAmbiguous));
}

fn owing() -> AmbientCursor {
    let mut owing = cursor();
    let draft = draft_event_outbox(&owing, "acme", None, &None, NOW).unwrap();
    owing.pending_event_outbox = Some(build_event_outbox(&owing, draft, &evidence()).unwrap());
    owing
}

fn relay() -> OutboxRelay {
    match relay_pending_event_outbox(false, Ok(Some(owing()))) {
        RelayStart::Relay(relay) => relay,
        other => panic!("{other:?}"),
    }
}

fn exact() -> Result<AmbientOutboxJournalState, JournalError> {
    Ok(AmbientOutboxJournalState::Exact(vec![
        AmbientExactJournalRow { key: vec![1], value: b"a".to_vec() },
        AmbientExactJournalRow { key: vec![2], value: b"b".to_vec() },
    ]))
}

fn checkpoint_evidence() -> CheckpointEvidence {
    CheckpointEvidence { outbox: evidence(), key_times: vec![Some(NOW), Some(NOW)] }
}

fn acknowledged() -> AmbientCursor {
    let mut relay = relay();
    assert_eq!(
        relay.on_journal(Ok(AmbientOutboxJournalState::Absent), None),
        RelayAction::WriteEvents
    );
    assert_eq!(relay.on_written(true), RelayAction::InspectJournal);
    assert_eq!(relay.on_journal(exact(), None), RelayAction::ReadProjection);
    assert_eq!(relay.on_projection(Ok(())), RelayAction::InspectJournal);
    assert_eq!(relay.on_journal(exact(), None), RelayAction::BuildCheckpoint);
    assert_eq!(relay.acknowledge(&checkpoint_evidence(), NOW + 1), RelayAction::StoreCursor);
    assert_eq!(relay.on_stored(Ok(())), RelayAction::Done { newly_registered: true });
    relay.cursor
}

#[test]
fn an_acknowledged_outbox_is_settled() {
    let after = acknowledged();
    assert!(after.registered);
    assert!(after.pending_event_outbox.is_none());
    let checkpoint = after.projection_checkpoint.unwrap();
    assert_eq!(checkpoint.journal_keys, [vec![1], vec![2]]);
    assert!(matches!(
        relay_pending_event_outbox(false, Ok(Some(cursor()))),
        RelayStart::Nothing(_)
    ));
    assert!(matches!(
        relay_pending_event_outbox(true, Ok(Some(owing()))),
        RelayStart::Fail(RelayError::ReconciliationRequired)
    ));
    assert!(matches!(
        relay_pending_event_outbox(false, Ok(None)),
        RelayStart::Fail(RelayError::CursorMissing)
    ));
}

#[test]
fn open_outcomes_latch() {
    let mut ambiguous = relay();
    assert_eq!(
        ambiguous.on_journal(
            Ok(AmbientOutboxJournalState::Absent),
            Some(RelayError::JournalAbsenceAmbiguous)
        ),
        RelayAction::Fail { error: RelayError::JournalAbsenceAmbiguous, latch: true }
    );
    let mut unread = relay();
    assert_eq!(
        unread.on_journal(Err(JournalError::ScanFailed), None),
        RelayAction::Fail { error: RelayError::Journal(JournalError::ScanFailed), latch: false }
    );
    let mut lost = relay();
    lost.on_journal(Ok(AmbientOutboxJournalState::Absent), None);
    lost.on_written(true);
    assert_eq!(
        lost.on_journal(Ok(AmbientOutboxJournalState::Absent), None),
        RelayAction::Fail { error: RelayError::ReadbackMissing, latch: true }
    );
    let mut changed = relay();
    changed.on_journal(exact(), None);
    changed.on_projection(Ok(()));
    assert_eq!(
        changed.on_journal(Ok(AmbientOutboxJournalState::Absent), None),
        RelayAction::Fail { error: RelayError::FinalRowsMissing, latch: true }
    );
    let mut stale = relay();
    stale.on_journal(exact(), None);
    assert_eq!(
        stale.on_projection(Err(ProjectionError::Missing)),
        RelayAction::RecoverProjection
    );
    assert_eq!(stale.on_recovered(Some(2)), RelayAction::ReadProjection);
    assert_eq!(
        stale.on_projection(Err(ProjectionError::Missing)),
        RelayAction::Fail {
            error: RelayError::RecoveryReadbackFailed(ProjectionError::Missing),
            latch: true
        }
    );
}

fn recovery() -> ProjectionRecovery {
    match reconcile_projection_checkpoint(false, Ok(Some(acknowledged()))) {
        ProjectionStart::Recovery(recovery) => recovery,
        other => panic!("{other:?}"),
    }
}

#[test]
fn a_checkpoint_is_kept_while_its_rows_last() {
    let ttl = Some(RetentionTtl::Hours(1));
    let mut streaks = ProjectionRecoveryStreaks::new();
    let mut shown = recovery();
    assert_eq!(
        shown.on_inspected(Ok(()), exact(), ttl, NOW, &mut streaks),
        ProjectionAction::Done
    );
    let mut gone = recovery();
    let missing = || Ok(AmbientOutboxJournalState::Absent);
    assert_eq!(
        gone.on_inspected(Ok(()), missing(), ttl, NOW, &mut streaks),
        ProjectionAction::Fail { error: RelayError::CheckpointRowsMissing, latch: true }
    );
    let mut expired = recovery();
    assert_eq!(
        expired.on_inspected(Ok(()), missing(), ttl, NOW + 7_200_000_000_000, &mut streaks),
        ProjectionAction::StoreCursor
    );
    assert!(expired.cursor.projection_checkpoint.is_none());
    assert_eq!(expired.on_stored(Ok(()), &mut streaks), ProjectionAction::Done);
    assert!(matches!(
        reconcile_projection_checkpoint(false, Ok(Some(cursor()))),
        ProjectionStart::Nothing(_)
    ));
}

#[test]
fn recoveries_that_do_not_converge_are_given_up() {
    let ttl = Some(RetentionTtl::Hours(1));
    let mut streaks = ProjectionRecoveryStreaks::new();
    let mut last = ProjectionAction::Done;
    let mut rounds = 0;
    while rounds < 5 {
        let mut round = recovery();
        assert_eq!(
            round.on_inspected(Err(ProjectionError::Missing), exact(), ttl, NOW, &mut streaks),
            ProjectionAction::RecoverProjection
        );
        assert_eq!(round.on_recovered(Some(false)), ProjectionAction::ReadProjection);
        assert_eq!(round.on_projection(Ok(())), ProjectionAction::InspectJournal);
        last = round.on_confirmed(exact(), NOW, &mut streaks);
        rounds += 1;
        if last != ProjectionAction::Done {
            break;
        }
    }
    assert!(rounds >= 3);
    assert!(matches!(
        last,
        ProjectionAction::Fail { error: RelayError::NotConverging { .. }, .. }
    ));
}

#[test]
fn streaks_are_counted_per_agent() {
    let mut streaks = ProjectionRecoveryStreaks::new();
    assert_eq!(streaks.record_projection_recovery("a"), 1);
    assert_eq!(streaks.record_projection_recovery("a"), 2);
    assert_eq!(streaks.record_projection_recovery("b"), 1);
    assert_eq!(streaks.consecutive_projection_recoveries("a"), 2);
    streaks.clear_projection_recovery_streak("a");
    assert_eq!(streaks.consecutive_projection_recoveries("a"), 0);
    assert_eq!(streaks.consecutive_projection_recoveries("b"), 1);
}

#[test]
fn checkpoint_rows_are_read_one_by_one() {
    let checkpoint = acknowledged().projection_checkpoint.unwrap();
    let row = |value: &[u8]| RowRead::Found {
        value: Some(value.to_vec()),
        revision_sha256: [0; 32],
    };
    let expected = vec![Some(b"a".to_vec()), Some(b"b".to_vec())];
    let inspect = |reads: Vec<RowRead>| {
        inspect_projection_checkpoint_journal(&checkpoint, &expected, &reads)
    };
    assert!(matches!(
        inspect(vec![row(b"a"), row(b"b")]),
        Ok(AmbientOutboxJournalState::Exact(_))
    ));
    assert!(matches!(
        inspect(vec![RowRead::Absent, RowRead::Absent]),
        Ok(AmbientOutboxJournalState::Absent)
    ));
    assert!(matches!(
        inspect(vec![row(b"a"), RowRead::Absent]),
        Err(JournalError::CheckpointPartial { missing: 1 })
    ));
    assert!(matches!(
        inspect(vec![row(b"a"), row(b"c")]),
        Err(JournalError::CheckpointRowDiverged)
    ));
    assert!(matches!(
        inspect(vec![row(b"a"), RowRead::Failed]),
        Err(JournalError::CheckpointRowReadFailed)
    ));
}

fn range(source: &[u8], start: u64, len: u64) -> RangeRead {
    RangeRead::Bytes(source[start as usize..(start + len) as usize].to_vec())
}

fn fingerprint(source: &[u8], kept: Option<u64>) -> FingerprintEvidence {
    let first_line = read_line_at(source, 0, true);
    let line = source.split(|byte| *byte == b'\n').next().unwrap();
    FingerprintEvidence {
        prefix: range(source, 0, plan_fingerprint(source.len() as u64, kept).unwrap_or(0)),
        first_line,
        first_row: CoveredRow::Row(RowStamp {
            spawn_id: spawn_id_for_session(SESSION, "acme"),
            line_no: 1,
            raw_line_bytes: line.len() as u64,
            raw_line_sha256: sha256_hex(line),
        }),
    }
}

fn boundary(source: &[u8], offset: u64) -> RangeRead {
    let (start, len) = plan_boundary(offset);
    range(source, start, len)
}

fn run_over(cursor: AmbientCursor, source: &[u8]) -> Result<SessionRun, SessionAction> {
    let loaded = Ok(LoadedAmbientCursor { cursor: Some(cursor), revision_sha256: None });
    let (mut survey, action): (SessionSurvey, SessionAction) =
        ingest_session_file(loaded, SESSION, "acme", PATH, PathStyle::Posix, false, NOW).unwrap();
    assert_eq!(action, SessionAction::StatSource);
    let action = survey.on_stat(SourceFile::Size(source.len() as u64));
    if action != SessionAction::ReadIdentity {
        return Err(action);
    }
    let kept = survey.cursor.fingerprint.bytes;
    let offset = survey.cursor.offset_bytes;
    let action = survey.on_identity(
        &fingerprint(source, kept),
        &BoundaryEvidence {
            boundary: boundary(source, offset),
            last_line: RangeRead::Bytes(Vec::new()),
            last_row: CoveredRow::Missing,
        },
        NOW,
    );
    if action != SessionAction::ReadPressure {
        return Err(action);
    }
    match survey.on_pressure(true) {
        SessionAction::OpenSource => {
            Ok(SessionRun::open(survey, SourceOpening::Opened).unwrap())
        }
        action => Err(action),
    }
}

fn finish_run(mut run: SessionRun, source: &[u8]) -> (AmbientCursor, SessionAction, usize) {
    let mut committed = 0;
    loop {
        let action = match run.stage {
            SessionRunStage::Line => {
                let from = run.reader.next_offset_bytes as usize;
                let until = source.len().min(from + 40);
                run.on_read(TailEvent::Available(&source[from..until]), &rules(), false).0
            }
            SessionRunStage::Encode => run.on_encoded(
                RowEncoding::Encoded {
                    source_key: b"k".to_vec(),
                    encoded: b"v".to_vec(),
                    ts_index_key: b"t".to_vec(),
                },
                false,
            ),
            SessionRunStage::Commit => {
                committed += run.pass.chunk.len();
                run.on_committed(Ok(()))
            }
            SessionRunStage::Settle => {
                let offset = run.pass.cursor.offset_bytes + run.pass.chunk_bytes;
                let kept = run.pass.cursor.fingerprint.bytes;
                run.on_chunk_identity(&fingerprint(source, kept), &boundary(source, offset))
            }
            SessionRunStage::Events => {
                let draft = run.draft("acme", &None, NOW);
                run.on_events(draft, &evidence(), NOW)
            }
            SessionRunStage::StoreChunk => run.on_chunk_stored(Ok(())),
            SessionRunStage::Registration => {
                let draft = run.draft("acme", &None, NOW);
                run.on_registration(draft, &evidence(), NOW)
            }
            SessionRunStage::StoreRegistration => run.on_registration_stored(Ok(())),
            SessionRunStage::Relay => {
                let mut relayed = run.pass.cursor.clone();
                let outbox = relayed.pending_event_outbox.take().unwrap();
                let newly = outbox.acknowledge_registration;
                relayed.registered = relayed.registered || newly;
                if outbox.acknowledge_state.is_some() {
                    relayed.last_emitted_state = outbox.acknowledge_state;
                }
                run.on_relayed(Ok((relayed, newly)))
            }
            SessionRunStage::Over => panic!("over"),
        };
        if run.stage == SessionRunStage::Over {
            return (run.pass.cursor, action, committed);
        }
    }
}

fn outcome_of(action: SessionAction) -> SessionIngestOutcome {
    match action {
        SessionAction::Finish(outcome) => outcome,
        other => panic!("{other:?}"),
    }
}

#[test]
fn a_session_is_registered_and_followed() {
    let mut source = format!("{USER}\n{ANSWER}\nnot json\n").into_bytes();
    let run = run_over(cursor(), &source).unwrap();
    let (after, action, committed) = finish_run(run, &source);
    let outcome = outcome_of(action);
    assert_eq!((outcome.new_parsed_rows, outcome.new_invalid_rows), (2, 1));
    assert!(outcome.newly_registered);
    assert_eq!((committed, after.lines_ingested), (3, 3));
    assert_eq!(after.offset_bytes, source.len() as u64);
    assert!(after.registered);
    assert_eq!(after.last_emitted_state, Some(lifecycle_state_tag(&Lifecycle::Idle)));
    let idle = run_over(after.clone(), &source).unwrap_err();
    assert_eq!(outcome_of(idle).new_parsed_rows, 0);
    source.extend_from_slice(CALL.as_bytes());
    source.push(b'\n');
    let run = run_over(after, &source).unwrap();
    let (later, action, committed) = finish_run(run, &source);
    assert_eq!(committed, 1);
    assert!(!outcome_of(action).newly_registered);
    assert_ne!(later.last_emitted_state, Some(lifecycle_state_tag(&Lifecycle::Idle)));
    assert_eq!(later.state.turn_index, 2);
}

#[test]
fn an_empty_session_is_an_agent_too() {
    let run = run_over(cursor(), b"").unwrap();
    let (after, action, committed) = finish_run(run, b"");
    assert_eq!(committed, 0);
    assert!(outcome_of(action).newly_registered);
    assert!(after.registered);
}

#[test]
fn a_session_whose_source_changed_is_parked() {
    let source = format!("{USER}\n").into_bytes();
    let (after, _, _) = finish_run(run_over(cursor(), &source).unwrap(), &source);
    assert_eq!(
        run_over(after.clone(), b"{}\n").unwrap_err(),
        SessionAction::Park(SessionError::Pass(PassError::SourceTruncated { file_size_bytes: 3 }))
    );
    let mut other = source.clone();
    other[0] = b'[';
    assert_eq!(
        run_over(after.clone(), &other).unwrap_err(),
        SessionAction::Park(SessionError::Pass(PassError::Source(SourceError::IdentityMismatch)))
    );
    let mut parked = after.clone();
    stick_cursor_error(&mut parked, "detail".to_owned(), NOW);
    assert!(outcome_of(run_over(parked, &source).unwrap_err()).skipped);
    let loaded = Ok(LoadedAmbientCursor { cursor: Some(after), revision_sha256: None });
    let (_, action) =
        ingest_session_file(loaded, SESSION, "acme", "/elsewhere", PathStyle::Posix, false, NOW).unwrap();
    assert_eq!(action, SessionAction::Park(SessionError::SourceIdentityMismatch));
    let failed = ingest_session_file(
        Err(AmbientCursorError::Expired),
        SESSION,
        "acme",
        PATH,
        PathStyle::Posix,
        false,
        NOW,
    );
    assert!(matches!(failed, Err(SessionError::Cursor(AmbientCursorError::Expired))));
}

#[test]
fn an_error_is_answered_after_what_is_owed() {
    let source = format!("{USER}\n").into_bytes();
    let mut run = run_over(cursor(), &source).unwrap();
    let (action, _) = run.on_read(TailEvent::Failed, &rules(), false);
    assert_eq!(action, SessionAction::EncodeEvents);
    let draft = run.draft("acme", &None, NOW);
    assert_eq!(run.on_registration(draft, &evidence(), NOW), SessionAction::StoreCursor);
    assert_eq!(run.on_registration_stored(Ok(())), SessionAction::Relay);
    let relayed = run.pass.cursor.clone();
    assert_eq!(
        run.on_relayed(Ok((relayed, true))),
        SessionAction::Park(SessionError::Pass(PassError::Source(SourceError::Tail(
            TailError::ReadFailed { offset_bytes: 0 }
        ))))
    );
}

#[test]
fn a_session_that_cannot_be_opened_is_parked() {
    let survey = SessionSurvey {
        stage: SessionStage::Run,
        cursor: cursor(),
        newly_registered: false,
        file_size_bytes: 9,
    };
    let (parked, error) = SessionRun::open(survey, SourceOpening::SeekFailed).unwrap_err();
    assert_eq!(parked.session_id, SESSION);
    assert_eq!(
        error,
        SessionError::Pass(PassError::Source(SourceError::Tail(TailError::SeekFailed {
            offset_bytes: 0
        })))
    );
}

fn session_file() -> SessionFile {
    SessionFile {
        extension: NamePart::Text("jsonl".to_owned()),
        stem: NamePart::Text(SESSION.to_owned()),
        is_file: Some(true),
        modified: ModifiedTime::Seconds(1_000),
        known: Some(false),
    }
}

#[test]
fn only_fresh_or_known_session_files_are_followed() {
    assert_eq!(judge_file(&session_file(), 1_010, 100), FileDecision::Ingest);
    assert_eq!(judge_file(&session_file(), 2_000, 100), FileDecision::Stale);
    let known = SessionFile { known: Some(true), ..session_file() };
    assert_eq!(judge_file(&known, 2_000, 100), FileDecision::Ingest);
    let text = SessionFile { extension: NamePart::Text("txt".to_owned()), ..session_file() };
    assert_eq!(judge_file(&text, 1_010, 100), FileDecision::Ignore);
    let agent = SessionFile { stem: NamePart::Text("agent-1".to_owned()), ..session_file() };
    assert_eq!(judge_file(&agent, 1_010, 100), FileDecision::Ignore);
    let dir = SessionFile { is_file: Some(false), ..session_file() };
    assert_eq!(judge_file(&dir, 1_010, 100), FileDecision::Refuse(SessionFileError::NotFile));
    let unread = SessionFile { is_file: None, ..session_file() };
    assert_eq!(judge_file(&unread, 1_010, 100), FileDecision::Refuse(SessionFileError::StatFailed));
    let early = SessionFile { modified: ModifiedTime::BeforeEpoch, ..session_file() };
    assert_eq!(
        judge_file(&early, 1_010, 100),
        FileDecision::Refuse(SessionFileError::ModifiedTimeInvalid)
    );
    let mut summary = DiscoverySummary::new();
    assert!(summary.see_project(ProjectEntry::Readable));
    assert!(!summary.see_project(ProjectEntry::NotDirectory));
    assert!(!summary.see_project(ProjectEntry::Unreadable));
    summary.see_file(FileDecision::Ingest);
    summary.see_file(FileDecision::Stale);
    assert_eq!((summary.sessions_seen, summary.skipped_stale), (1, 1));
    assert!(summary.has_room_for(&None));
    assert!(!summary.count(None));
    assert!(summary.errors >= 1);
    assert!(!summary.is_idle());
    let done = SessionIngestOutcome {
        new_parsed_rows: 1,
        new_invalid_rows: 1,
        newly_registered: false,
        deferred_for_pressure: false,
        skipped: false,
        cancelled: false,
    };
    summary.new_rows = u64::MAX - 2;
    assert!(summary.has_room_for(&Some(done)));
    summary.new_rows = u64::MAX - 1;
    assert!(!summary.has_room_for(&Some(done)));
    assert!(summary.has_room_for(&None));
    summary.errors = u64::MAX;
    assert!(!summary.has_room_for(&None));
}

#[test]
fn the_projects_root_comes_from_the_host() {
    assert!(matches!(
        claude_projects_root_from_host_env(Some("/cfg"), None, Some("/home/u")),
        Ok(ProjectsBase::Config(dir)) if dir == "/cfg"
    ));
    assert!(matches!(
        claude_projects_root_from_host_env(None, None, Some("/home/u")),
        Ok(ProjectsBase::Home(dir)) if dir == "/home/u"
    ));
    assert!(claude_projects_root_from_host_env(None, None, None).is_err());
    let defaults = DefaultPaths {
        db_path: "/home/u/synapse.db".to_owned(),
        daemon_db_path: "/home/u/daemon.db".to_owned(),
        ignore_case: false,
    };
    let found = ambient_projects_root_for_db(
        "/tmp/x.db",
        Some("/chosen".to_owned()),
        Ok("/host".to_owned()),
        &defaults,
    );
    match found {
        Ok(Some(found)) => {
            assert_eq!(found.root, "/chosen");
            assert!(matches!(found.scope, AmbientRootScope::ExplicitEnv));
        }
        other => panic!("{other:?}"),
    }
    assert!(matches!(
        ambient_projects_root_for_db("/tmp/x.db", None, Ok("/host".to_owned()), &defaults),
        Ok(None)
    ));
}

#[test]
fn session_failures_are_told_by_their_codes() {
    assert_eq!(
        session_code(SessionError::Pass(PassError::SourceNotFile)).as_deref(),
        Some("AMBIENT_SOURCE_NOT_FILE")
    );
    assert_eq!(
        session_code(SessionError::Relay(RelayError::FinalRowsMissing)).as_deref(),
        Some("AMBIENT_OUTBOX_FINAL_JOURNAL_READBACK_MISSING")
    );
    assert_eq!(
        session_code(SessionError::Reconcile(RelayError::FinalRowsMissing)).as_deref(),
        Some("AMBIENT_PROJECTION_CHECKPOINT_FINAL_ROWS_MISSING")
    );
    assert_eq!(
        session_code(SessionError::Reconcile(RelayError::Journal(JournalError::RowInvalid)))
            .as_deref(),
        Some("AMBIENT_OUTBOX_JOURNAL_ROW_INVALID")
    );
    assert_eq!(
        session_code(SessionError::Cursor(AmbientCursorError::Store(
            GuardedError::RevisionConflict
        )))
        .as_deref(),
        Some("AMBIENT_CURSOR_REVISION_CONFLICT")
    );
    assert_eq!(
        session_code(SessionError::Outbox(OutboxError::CheckpointKeyInvalid)).as_deref(),
        Some("AMBIENT_PROJECTION_CHECKPOINT_KEY_INVALID")
    );
}

#[test]
fn a_stamp_names_its_operation() {
    let mut event =
        new_event(1, AgentEventKind::TurnStarted, "agent-spawn-x", SESSION, "r", "acme");
    event.payload = Payload::Object(Vec::new());
    assert_eq!(operation_id_of(&event.payload), None);
    event.stamp("op");
    assert_eq!(operation_id_of(&event.payload).as_deref(), Some("op"));
}

#[test]
fn what_is_owed_comes_before_the_source() {
    let begin = |cursor: AmbientCursor| {
        let loaded = Ok(LoadedAmbientCursor { cursor: Some(cursor), revision_sha256: None });
        ingest_session_file(loaded, SESSION, "acme", PATH, PathStyle::Posix, false, NOW).unwrap()
    };
    let (mut survey, action) = begin(owing());
    assert_eq!(action, SessionAction::Relay);
    assert_eq!(survey.on_relayed(Ok((acknowledged(), true))), SessionAction::Reconcile);
    assert_eq!(survey.on_reconciled(Ok(cursor())), SessionAction::StatSource);
    assert!(survey.newly_registered);
    let (mut survey, action) = begin(acknowledged());
    assert_eq!(action, SessionAction::Reconcile);
    assert_eq!(
        survey.on_reconciled(Err(RelayError::CheckpointRowsMissing)),
        SessionAction::Fail(SessionError::Reconcile(RelayError::CheckpointRowsMissing))
    );
}

#[test]
fn what_a_committed_chunk_owes_is_relayed_after_a_cancellation() {
    let mut source = Vec::new();
    while source.len() < 70 * (USER.len() + 1) {
        source.extend_from_slice(USER.as_bytes());
        source.push(b'\n');
    }
    let mut run = run_over(cursor(), &source).unwrap();
    while run.stage != SessionRunStage::StoreChunk {
        match run.stage {
            SessionRunStage::Line => {
                let from = run.reader.next_offset_bytes as usize;
                run.on_read(TailEvent::Available(&source[from..]), &rules(), false);
            }
            SessionRunStage::Encode => {
                run.on_encoded(
                    RowEncoding::Encoded {
                        source_key: b"k".to_vec(),
                        encoded: b"v".to_vec(),
                        ts_index_key: b"t".to_vec(),
                    },
                    false,
                );
            }
            SessionRunStage::Commit => {
                run.on_committed(Ok(()));
            }
            SessionRunStage::Settle => {
                let offset = run.pass.cursor.offset_bytes + run.pass.chunk_bytes;
                run.on_chunk_identity(&fingerprint(&source, None), &boundary(&source, offset));
            }
            _ => {
                let draft = run.draft("acme", &None, NOW);
                run.on_events(draft, &evidence(), NOW);
            }
        }
    }
    assert_eq!(run.pass.chunk.len(), 64);
    assert_eq!(run.on_chunk_stored(Ok(())), SessionAction::ReadLine);
    assert_eq!(run.on_read(TailEvent::Cancelled, &rules(), true), (SessionAction::Relay, 0));
    let relayed = run.pass.cursor.clone();
    match run.on_relayed(Ok((relayed, true))) {
        SessionAction::Finish(outcome) => {
            assert!(outcome.cancelled && outcome.newly_registered);
            assert_eq!(outcome.new_parsed_rows, 64);
        }
        other => panic!("{other:?}"),
    }
}

#[test]
fn every_part_of_an_outbox_is_checked() {
    let fresh = cursor();
    let draft = draft_event_outbox(&fresh, "acme", None, &None, NOW).unwrap();
    let built = build_event_outbox(&fresh, draft, &evidence()).unwrap();
    let check = |change: fn(&mut AmbientEventOutbox)| {
        let mut changed = built.clone();
        change(&mut changed);
        validate_event_outbox(&fresh, &changed, &evidence()).unwrap_err()
    };
    assert_eq!(check(|outbox| outbox.records[0].ts_ns = 1), OutboxError::RecordIdentityInvalid);
    assert_eq!(
        check(|outbox| outbox.records[0].payload = Payload::Null),
        OutboxError::RecordPayloadInvalid
    );
    assert_eq!(
        check(|outbox| outbox.records[0].kind = AgentEventKind::Other),
        OutboxError::RecordKindInvalid
    );
    assert_eq!(
        check(|outbox| outbox.records[0].kind = AgentEventKind::SpawnReady),
        OutboxError::RecordSetInvalid
    );
    let other = OutboxEvidence { encodable: vec![true; 3], identity: Some(b"else".to_vec()) };
    assert_eq!(
        validate_event_outbox(&fresh, &built, &other),
        Err(OutboxError::OperationIdMismatch)
    );
    let mut known = cursor();
    known.registered = true;
    assert_eq!(
        validate_event_outbox(&known, &built, &evidence()),
        Err(OutboxError::EffectInvalid)
    );
}

#[test]
fn every_part_of_a_checkpoint_is_checked() {
    let after = acknowledged();
    let checkpoint = after.projection_checkpoint.clone().unwrap();
    let check = |keys: Vec<Vec<u8>>, times: Vec<Option<u64>>| {
        let mut changed = checkpoint.clone();
        changed.journal_keys = keys;
        let evidence = CheckpointEvidence { outbox: evidence(), key_times: times };
        validate_projection_checkpoint(&after.spawn_id, &after.session_id, &changed, &evidence)
    };
    let at = || vec![Some(NOW), Some(NOW)];
    assert_eq!(check(vec![vec![1], vec![2]], at()), Ok(()));
    assert_eq!(check(vec![vec![1]], at()), Err(OutboxError::CheckpointEnvelopeInvalid));
    assert_eq!(
        check(vec![vec![2], vec![1]], at()),
        Err(OutboxError::CheckpointKeyOrderInvalid)
    );
    assert_eq!(
        check(vec![vec![1], vec![2]], vec![None, Some(NOW)]),
        Err(OutboxError::CheckpointKeyInvalid)
    );
    assert_eq!(
        check(vec![vec![1], vec![2]], vec![Some(1), Some(NOW)]),
        Err(OutboxError::CheckpointTimestampMismatch)
    );
    let none = || CursorEvidence {
        outbox: OutboxEvidence { encodable: vec![], identity: None },
        checkpoint: checkpoint_evidence(),
    };
    let spawn = after.spawn_id.clone();
    let broken = StoredAmbientCursor::Found { cursor: owing(), revision_sha256: [0; 32] };
    assert_eq!(
        load_cursor(broken, &spawn, &none()).unwrap_err(),
        AmbientCursorError::Outbox(OutboxError::RecordInvalid)
    );
    assert_eq!(
        load_cursor(StoredAmbientCursor::Failed, &spawn, &none()).unwrap_err(),
        AmbientCursorError::ReadFailed
    );
    assert_eq!(
        load_cursor(StoredAmbientCursor::Undecodable, &spawn, &none()).unwrap_err(),
        AmbientCursorError::DecodeFailed
    );
}

#[test]
fn relays_stop_where_an_outcome_is_open() {
    let failed = |error, latch| RelayAction::Fail { error, latch };
    let mut unwritten = relay();
    unwritten.on_journal(Ok(AmbientOutboxJournalState::Absent), None);
    assert_eq!(unwritten.on_written(false), failed(RelayError::EventCommitFailed, true));
    let mut unread = relay();
    unread.on_journal(Ok(AmbientOutboxJournalState::Absent), None);
    unread.on_written(true);
    assert_eq!(
        unread.on_journal(Err(JournalError::ScanFailed), None),
        failed(RelayError::ReadbackFailed(JournalError::ScanFailed), true)
    );
    let mut unshown = relay();
    unshown.on_journal(Ok(AmbientOutboxJournalState::Absent), None);
    unshown.on_written(true);
    unshown.on_journal(exact(), None);
    assert_eq!(
        unshown.on_projection(Err(ProjectionError::Missing)),
        failed(RelayError::Projection(ProjectionError::Missing), true)
    );
    let mut unrecovered = relay();
    unrecovered.on_journal(exact(), None);
    unrecovered.on_projection(Err(ProjectionError::Missing));
    assert_eq!(unrecovered.on_recovered(None), failed(RelayError::RecoveryFailed, true));
    let confirmed = || {
        let mut confirmed = relay();
        confirmed.on_journal(exact(), None);
        confirmed.on_projection(Ok(()));
        confirmed
    };
    assert_eq!(
        confirmed().on_journal(Err(JournalError::ScanFailed), None),
        failed(RelayError::FinalReadFailed(JournalError::ScanFailed), true)
    );
    assert_eq!(
        confirmed().on_journal(Ok(AmbientOutboxJournalState::Exact(vec![])), None),
        failed(RelayError::FinalRowsChanged, true)
    );
    let mut unbuilt = confirmed();
    unbuilt.on_journal(exact(), None);
    let times = CheckpointEvidence { outbox: evidence(), key_times: vec![] };
    assert_eq!(
        unbuilt.acknowledge(&times, NOW),
        failed(RelayError::CheckpointBuildFailed(OutboxError::CheckpointKeyInvalid), true)
    );
    let mut unstored = confirmed();
    unstored.on_journal(exact(), None);
    unstored.acknowledge(&checkpoint_evidence(), NOW);
    assert_eq!(
        unstored.on_stored(Err(AmbientCursorError::ReadFailed)),
        failed(RelayError::AcknowledgementFailed(AmbientCursorError::ReadFailed), true)
    );
    assert!(matches!(
        relay_pending_event_outbox(false, Err(AmbientCursorError::Expired)),
        RelayStart::Fail(RelayError::Cursor(AmbientCursorError::Expired))
    ));
    let mut both = acknowledged();
    both.pending_event_outbox = owing().pending_event_outbox;
    assert!(matches!(
        reconcile_projection_checkpoint(false, Ok(Some(both))),
        ProjectionStart::Fail(RelayError::PendingOutbox)
    ));
    let mut streaks = ProjectionRecoveryStreaks::new();
    let mut unkept = recovery();
    assert_eq!(
        unkept.on_inspected(
            Ok(()),
            Ok(AmbientOutboxJournalState::Absent),
            Some(RetentionTtl::LruOnly),
            NOW,
            &mut streaks
        ),
        ProjectionAction::Fail {
            error: RelayError::Retention(RetentionError::ContractInvalid),
            latch: true
        }
    );
    let mut unretired = recovery();
    let late = NOW + 7_200_000_000_000;
    let ttl = Some(RetentionTtl::Hours(1));
    unretired.on_inspected(
        Ok(()),
        Ok(AmbientOutboxJournalState::Absent),
        ttl,
        late,
        &mut streaks,
    );
    assert_eq!(
        unretired.on_stored(Err(AmbientCursorError::ReadFailed), &mut streaks),
        ProjectionAction::Fail {
            error: RelayError::RetireFailed(AmbientCursorError::ReadFailed),
            latch: true
        }
    );
}

#[test]
fn unreadable_entries_and_scans_are_refused() {
    let refuse = |file: SessionFile| judge_file(&file, 1_010, 100);
    assert_eq!(
        refuse(SessionFile { extension: NamePart::NotUtf8, ..session_file() }),
        FileDecision::Refuse(SessionFileError::ExtensionNotUtf8)
    );
    assert_eq!(
        refuse(SessionFile { stem: NamePart::NotUtf8, ..session_file() }),
        FileDecision::Refuse(SessionFileError::StemNotUtf8)
    );
    assert_eq!(
        refuse(SessionFile { modified: ModifiedTime::Failed, ..session_file() }),
        FileDecision::Refuse(SessionFileError::ModifiedTimeFailed)
    );
    let stale = SessionFile { known: None, ..session_file() };
    assert_eq!(
        judge_file(&stale, 2_000, 100),
        FileDecision::Refuse(SessionFileError::CursorReadFailed)
    );
    assert_eq!(
        settle_journal_scan(Ok(()), None),
        Err(JournalError::SnapshotReleaseFailed)
    );
    assert_eq!(
        settle_journal_scan(Ok(()), Some(false)),
        Err(JournalError::SnapshotExpiredAtRelease)
    );
    assert_eq!(
        count_journal_page(usize::MAX, 1),
        Err(JournalError::ScanCounterOverflow)
    );
    let checkpoint = acknowledged().projection_checkpoint.unwrap();
    assert!(matches!(
        inspect_projection_checkpoint_journal(&checkpoint, &vec![None, None], &vec![
            RowRead::Absent,
            RowRead::Absent
        ]),
        Err(JournalError::CheckpointRecordInvalid)
    ));
    assert!(matches!(
        inspect_projection_checkpoint_journal(&checkpoint, &vec![], &vec![]),
        Err(JournalError::CheckpointReadsMissing)
    ));
    let mut run = run_over(cursor(), b"").unwrap();
    run.on_read(TailEvent::Available(b""), &rules(), false);
    assert_eq!(
        run.on_registration(None, &evidence(), NOW),
        SessionAction::Park(SessionError::RegistrationMissing)
    );
}
