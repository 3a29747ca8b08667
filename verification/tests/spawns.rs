use synapse_agents::digest::sha256_hex;
use synapse_agents::guarded::{GuardedError, GuardedWrite, RowRead};
use synapse_agents::roots::{DefaultPaths, PathStyle};
use synapse_agents::transcripts::chunk::{
    ChunkError, ChunkFamily, ChunkWrite, PointRead, PreparedTranscriptRow, RowPrecondition,
    RowReadback, commit_transcript_chunk, plan_chunk,
};
use synapse_agents::transcripts::codes::pass_code;
use synapse_agents::transcripts::cursor::{
    CursorError, SourceBoundary, SourceFingerprint, SpawnIdError, StoredCursor, TranscriptCursor,
    cursor_kv_key, load_cursor, stick_cursor_error, store_cursor, validate_spawn_id_shape,
};
use synapse_agents::transcripts::cycle::{
    CycleSummary, EntryDecision, EntryError, IngestSchedule, SpawnEntry, TranscriptRootScope,
    judge_entry, plan_schedule, transcript_spawn_root_for_db_with,
};
use synapse_agents::transcripts::drive::{
    IngestAction, IngestBegin, RunStage, SpawnRun, SpawnSurvey, SurveyStage, begin_from_launch,
    ingest_spawn_dir_once,
};
use synapse_agents::transcripts::ingest::{
    EndRow, EndState, FirstCursor, PassError, ReadbackError, RowEncoding, SourceFile,
    SpawnIngestOutcome, start_cursor, verify_transcript_cursor_boundary,
};
use synapse_agents::transcripts::launch::{
    CompletionError, FileRead, LaunchError, LaunchMarker, ManifestError, MarkerState, SourceMarkers,
    SpawnManifestSeed, completion_is_terminal, detect_source, read_spawn_manifest_seed,
};
use synapse_agents::transcripts::lines::parse_line;
use synapse_agents::transcripts::record::{
    StreamState, TranscriptParseStatus, TranscriptRules, TranscriptSource,
};
use synapse_agents::transcripts::source::{
    BoundaryEvidence, CoveredRow, FingerprintEvidence, RangePurpose, RangeRead, ReadStage, RowStamp,
    SourceError, ensure_transcript_source_boundary, ensure_transcript_source_fingerprint,
    last_logical_line_before_cursor, plan_boundary, plan_fingerprint, plan_last_line,
    read_transcript_source_boundary, read_transcript_source_fingerprint,
    read_transcript_source_range, verify_legacy_boundary_row,
};
use synapse_agents::transcripts::tail::{
    BoundedTailRead, BoundedTranscriptTailReader, SourceOpening, TailError, TailEvent, TailStep,
    read_line_at,
};

const NOW: u64 = 1_700_000_000_000_000_000;
const PATH: &str = "/spawns/agent-spawn-1/stdout.jsonl";

fn rules() -> TranscriptRules {
    TranscriptRules {
        max_summary_chars: 100,
        max_tool_args_chars: 100,
        max_tool_result_chars: 100,
        tool_status_error: "error".to_owned(),
        tool_status_ok: "ok".to_owned(),
        vendor: "acme".to_owned(),
    }
}

fn cursor() -> TranscriptCursor {
    TranscriptCursor {
        record_version: 1,
        spawn_id: "agent-spawn-1".to_owned(),
        source: TranscriptSource::LocalModelJson,
        source_path: PATH.to_owned(),
        offset_bytes: 0,
        lines_ingested: 0,
        parsed_rows: 0,
        invalid_rows: 0,
        stream: StreamState {
            turn_index: 0,
            last_assistant_message_id: None,
            seen_message_ids: Vec::new(),
            conversation_id: None,
            model: None,
        },
        source_epoch_unix_ms: Some(1_000),
        fingerprint: SourceFingerprint { bytes: None, sha256: None },
        boundary: SourceBoundary { start_offset_bytes: None, bytes: None, sha256: None },
        source_complete: false,
        completed_reason: None,
        end_state_anchor_outcome: None,
        end_state_anchor_rows: None,
        error: None,
        updated_ts_ns: NOW,
    }
}

fn line_of(read: Result<BoundedTailRead, TailError>) -> (Vec<u8>, u64) {
    match read {
        Ok(BoundedTailRead::Line { bytes, consumed_bytes, .. }) => (bytes, consumed_bytes),
        other => panic!("{other:?}"),
    }
}

#[test]
fn lines_end_at_their_terminators() {
    let source = b"one\r\ntwo\n\nrest";
    assert_eq!(line_of(read_line_at(source, 0, false)), (b"one".to_vec(), 5));
    assert_eq!(line_of(read_line_at(source, 5, false)), (b"two".to_vec(), 4));
    assert_eq!(line_of(read_line_at(source, 9, false)), (Vec::new(), 1));
    assert!(matches!(
        read_line_at(source, 10, false),
        Ok(BoundedTailRead::IncompleteTail { source_offset_bytes: 10, buffered_bytes: 4 })
    ));
    assert_eq!(line_of(read_line_at(source, 10, true)), (b"rest".to_vec(), 4));
    assert!(matches!(read_line_at(source, 14, true), Ok(BoundedTailRead::SnapshotEof)));
    assert!(matches!(
        read_line_at(source, 15, true),
        Err(TailError::Truncated { offset_bytes: 15, snapshot_size_bytes: 14 })
    ));
}

#[test]
fn appending_keeps_the_complete_lines() {
    let before = b"one\ntwo\npart";
    let after = b"one\ntwo\npartial\n";
    for offset in [0, 4] {
        assert_eq!(
            line_of(read_line_at(before, offset, false)),
            line_of(read_line_at(after, offset, false))
        );
    }
    assert_eq!(line_of(read_line_at(after, 8, false)), (b"partial".to_vec(), 8));
}

#[test]
fn a_line_may_come_in_pieces() {
    let mut reader = BoundedTranscriptTailReader::open(0, 8, SourceOpening::Opened).unwrap();
    assert!(matches!(
        reader.next_line(TailEvent::Available(b"one"), false),
        TailStep::More { taken_bytes: 3 }
    ));
    match reader.next_line(TailEvent::Available(b"!\ntwo"), false) {
        TailStep::Done { taken_bytes: 2, read: BoundedTailRead::Line { bytes, consumed_bytes, source_offset_bytes } } => {
            assert_eq!((bytes, consumed_bytes, source_offset_bytes), (b"one!".to_vec(), 5, 0))
        }
        other => panic!("{other:?}"),
    }
    assert!(matches!(
        reader.next_line(TailEvent::Cancelled, false),
        TailStep::Done { read: BoundedTailRead::Cancelled, .. }
    ));
    assert!(matches!(
        reader.next_line(TailEvent::Failed, false),
        TailStep::Failed(TailError::ReadFailed { .. })
    ));
    assert!(matches!(
        reader.next_line(TailEvent::Available(b""), false),
        TailStep::Failed(TailError::ChangedDuringRead { .. })
    ));
    assert!(matches!(
        BoundedTranscriptTailReader::open(9, 8, SourceOpening::OpenFailed),
        Err(TailError::Truncated { offset_bytes: 9, snapshot_size_bytes: 8 })
    ));
    assert!(matches!(
        BoundedTranscriptTailReader::open(3, 8, SourceOpening::OpenFailed),
        Err(TailError::OpenFailed { offset_bytes: 3 })
    ));
    assert!(matches!(
        BoundedTranscriptTailReader::open(3, 8, SourceOpening::SeekFailed),
        Err(TailError::SeekFailed { offset_bytes: 3 })
    ));
}

#[test]
fn a_line_past_the_limit_is_refused() {
    let source = vec![b'x'; 10 * 1024 * 1024 + 1];
    assert!(matches!(
        read_line_at(&source, 0, true),
        Err(TailError::RecordOversized { line_start_offset_bytes: 0, .. })
    ));
}

#[test]
fn spawn_ids_have_one_shape() {
    assert_eq!(validate_spawn_id_shape("agent-spawn-aB-9"), Ok(()));
    assert_eq!(validate_spawn_id_shape("spawn-1"), Err(SpawnIdError::PrefixMissing));
    assert_eq!(
        validate_spawn_id_shape("agent-spawn-a_b"),
        Err(SpawnIdError::CharacterInvalid)
    );
    let long = format!("agent-spawn-{}", "a".repeat(300));
    assert!(matches!(validate_spawn_id_shape(&long), Err(SpawnIdError::TooLong { bytes: 312 })));
    assert_eq!(cursor_kv_key("agent-spawn-1"), b"agent-transcripts/cursor/agent-spawn-1");
    assert_ne!(cursor_kv_key("agent-spawn-1"), cursor_kv_key("agent-spawn-2"));
}

#[test]
fn cursors_are_loaded_only_where_they_are_whole() {
    let load = |stored: StoredCursor| load_cursor(stored, "agent-spawn-1");
    let found = load(StoredCursor::Found { cursor: cursor(), revision_sha256: [3; 32] }).unwrap();
    assert_eq!(found.revision_sha256, Some([3; 32]));
    assert_eq!(found.cursor.unwrap().source_path, PATH);
    assert!(load(StoredCursor::Absent).unwrap().cursor.is_none());
    assert!(matches!(load(StoredCursor::Failed), Err(CursorError::ReadFailed)));
    assert!(matches!(load(StoredCursor::Expired), Err(CursorError::Expired)));
    assert!(matches!(load(StoredCursor::Undecodable), Err(CursorError::DecodeFailed)));
    let mut other = cursor();
    other.spawn_id = "agent-spawn-2".to_owned();
    assert!(matches!(
        load(StoredCursor::Found { cursor: other, revision_sha256: [3; 32] }),
        Err(CursorError::IdentityInvalid)
    ));
}

#[test]
fn a_stored_cursor_reads_back() {
    let mut expected = Some([1; 32]);
    let good = RowRead::Found { value: Some(b"row".to_vec()), revision_sha256: [2; 32] };
    let applied = GuardedWrite::Applied { committed_revision_sha256: Some([2; 32]) };
    assert_eq!(store_cursor(&mut expected, applied, &good, b"row"), Ok(()));
    assert_eq!(expected, Some([2; 32]));
    assert_eq!(
        store_cursor(&mut expected, GuardedWrite::Conflict, &good, b"row"),
        Err(CursorError::Store(GuardedError::RevisionConflict))
    );
    assert_eq!(expected, Some([2; 32]));
    let mut parked = cursor();
    stick_cursor_error(&mut parked, "detail".to_owned(), NOW + 1);
    assert_eq!(parked.error.as_deref(), Some("detail"));
    assert_eq!((parked.updated_ts_ns, parked.offset_bytes), (NOW + 1, 0));
}

const ABSENT: SourceMarkers = SourceMarkers {
    claude_mcp_config: MarkerState::Absent,
    claude_hook_settings: MarkerState::Absent,
    claude_debug_log: MarkerState::Absent,
    codex_app_server_runner: MarkerState::Absent,
    codex_control: MarkerState::Absent,
    codex_app_server_events: MarkerState::Absent,
    codex_notify: MarkerState::Absent,
    local_model_runner: MarkerState::Absent,
};

#[test]
fn the_launch_markers_tell_the_format() {
    let file = MarkerState::File;
    assert_eq!(
        detect_source(SourceMarkers { claude_debug_log: file, ..ABSENT }),
        Ok(TranscriptSource::ClaudeStreamJson)
    );
    assert_eq!(
        detect_source(SourceMarkers { codex_control: file, codex_notify: file, ..ABSENT }),
        Ok(TranscriptSource::CodexAppServerJsonRpc)
    );
    assert_eq!(
        detect_source(SourceMarkers { codex_notify: file, ..ABSENT }),
        Ok(TranscriptSource::CodexExecJson)
    );
    assert_eq!(
        detect_source(SourceMarkers { local_model_runner: file, ..ABSENT }),
        Ok(TranscriptSource::LocalModelJson)
    );
    assert_eq!(detect_source(ABSENT), Err(LaunchError::FormatUnknown));
    assert_eq!(
        detect_source(SourceMarkers { codex_notify: file, local_model_runner: file, ..ABSENT }),
        Err(LaunchError::Ambiguous)
    );
    assert_eq!(
        detect_source(SourceMarkers { codex_notify: MarkerState::NotFile, ..ABSENT }),
        Err(LaunchError::MarkerInvalid { marker: LaunchMarker::CodexNotify })
    );
    assert_eq!(
        detect_source(SourceMarkers { codex_notify: MarkerState::StatFailed, ..ABSENT }),
        Err(LaunchError::MarkerStatFailed { marker: LaunchMarker::CodexNotify })
    );
    assert_eq!(LaunchMarker::ClaudeDebugLog.file_name("acme"), "acme-debug.log");
    assert_eq!(LaunchMarker::LocalModelRunner.file_name("acme"), "local-model-runner.json");
}

#[test]
fn manifests_seed_the_cursor() {
    let read = |bytes: &[u8]| read_spawn_manifest_seed(&FileRead::Bytes(bytes.to_vec()));
    let seed = read(br#"{"model":" m-1 ","created_unix_ms":7}"#).unwrap();
    assert_eq!((seed.model.as_deref(), seed.created_unix_ms), (Some("m-1"), Some(7)));
    let bare = read(b"{}").unwrap();
    assert_eq!((bare.model, bare.created_unix_ms), (None, None));
    assert!(matches!(read(b"{"), Err(ManifestError::NotJson)));
    assert!(matches!(read(b"[]"), Err(ManifestError::NotObject)));
    assert!(matches!(read(br#"{"model":""}"#), Err(ManifestError::ModelInvalid)));
    assert!(matches!(read(br#"{"created_unix_ms":-1}"#), Err(ManifestError::CreatedInvalid)));
    assert!(matches!(read_spawn_manifest_seed(&FileRead::Missing), Err(ManifestError::Missing)));
    assert!(matches!(read_spawn_manifest_seed(&FileRead::Failed), Err(ManifestError::ReadFailed)));
}

#[test]
fn a_completion_is_terminal_unless_it_still_runs() {
    let read = |bytes: &[u8]| completion_is_terminal(&FileRead::Bytes(bytes.to_vec()));
    assert_eq!(read(br#"{"status":"ok"}"#), Ok(true));
    assert_eq!(read(br#"{"status":"running"}"#), Ok(false));
    assert_eq!(read(b"{}"), Err(CompletionError::StatusMissing));
    assert_eq!(read(b"x"), Err(CompletionError::NotJson));
    assert_eq!(completion_is_terminal(&FileRead::Missing), Ok(false));
    assert_eq!(completion_is_terminal(&FileRead::Failed), Err(CompletionError::ReadFailed));
}

fn stamp(line_no: u64, line: &[u8]) -> CoveredRow {
    CoveredRow::Row(RowStamp {
        spawn_id: "agent-spawn-1".to_owned(),
        line_no,
        raw_line_bytes: line.len() as u64,
        raw_line_sha256: sha256_hex(line),
    })
}

fn range(source: &[u8], start: u64, len: u64) -> RangeRead {
    RangeRead::Bytes(source[start as usize..(start + len) as usize].to_vec())
}

fn fingerprint_evidence(source: &[u8], kept: Option<u64>) -> FingerprintEvidence {
    let len = plan_fingerprint(source.len() as u64, kept).unwrap();
    let first_line = read_line_at(source, 0, true);
    let first_row = match &first_line {
        Ok(BoundedTailRead::Line { bytes, .. }) => stamp(1, bytes),
        _ => CoveredRow::Missing,
    };
    FingerprintEvidence { prefix: range(source, 0, len), first_line, first_row }
}

fn boundary_evidence(source: &[u8], offset: u64, lines: u64, last: &[u8]) -> BoundaryEvidence {
    let (start, len) = plan_boundary(offset);
    let (line_start, line_len) = plan_last_line(offset);
    BoundaryEvidence {
        boundary: range(source, start, len),
        last_line: range(source, line_start, line_len),
        last_row: stamp(lines, last),
    }
}

#[test]
fn fingerprints_hold_the_head_of_a_source() {
    let source = b"one\ntwo\n";
    let print = read_transcript_source_fingerprint(8, None, &range(source, 0, 8)).unwrap();
    assert_eq!((print.bytes, print.sha256), (8, sha256_hex(source)));
    let mut kept = SourceFingerprint { bytes: None, sha256: None };
    let evidence = fingerprint_evidence(source, None);
    let ensure = |kept: &mut SourceFingerprint, evidence: &FingerprintEvidence| {
        ensure_transcript_source_fingerprint(kept, "agent-spawn-1", 8, 4, evidence)
    };
    assert_eq!(ensure(&mut kept, &evidence), Ok(true));
    assert_eq!(kept.bytes, Some(8));
    assert_eq!(ensure(&mut kept, &evidence), Ok(false));
    let changed = FingerprintEvidence {
        prefix: RangeRead::Bytes(b"eno\ntwo\n".to_vec()),
        first_line: read_line_at(source, 0, true),
        first_row: CoveredRow::Missing,
    };
    assert_eq!(ensure(&mut kept, &changed), Err(SourceError::IdentityMismatch));
    let mut fresh = SourceFingerprint { bytes: None, sha256: None };
    assert_eq!(ensure(&mut fresh, &changed), Err(SourceError::FingerprintRowMissing));
    let mut half = SourceFingerprint { bytes: Some(8), sha256: None };
    assert_eq!(ensure(&mut half, &evidence), Err(SourceError::FingerprintPartial));
    assert_eq!(plan_fingerprint(1_000_000, None), Ok(65_536));
    assert_eq!(
        plan_fingerprint(4, Some(8)),
        Err(SourceError::FingerprintTruncated { snapshot_size_bytes: 4, bytes: 8 })
    );
    assert_eq!(
        plan_fingerprint(4, Some(0)),
        Err(SourceError::FingerprintLengthInvalid { bytes: 0 })
    );
    let failed = RangeRead::Failed(ReadStage::Open);
    assert!(matches!(
        read_transcript_source_fingerprint(8, None, &failed),
        Err(SourceError::FingerprintReadFailed { stage: ReadStage::Open })
    ));
}

#[test]
fn boundaries_hold_the_bytes_before_the_cursor() {
    let source = b"one\ntwo\nmore";
    let found = read_transcript_source_boundary(12, 8, &range(source, 0, 8)).unwrap();
    assert_eq!((found.start_offset_bytes, found.bytes), (0, 8));
    assert_eq!(found.sha256, sha256_hex(b"one\ntwo\n"));
    assert_eq!(
        last_logical_line_before_cursor(12, 8, &range(source, 0, 8)).unwrap(),
        b"two".to_vec()
    );
    let ensure = |kept: &mut SourceBoundary, evidence: &BoundaryEvidence| {
        ensure_transcript_source_boundary(kept, "agent-spawn-1", 12, 8, 2, evidence)
    };
    let mut kept = SourceBoundary { start_offset_bytes: None, bytes: None, sha256: None };
    let evidence = boundary_evidence(source, 8, 2, b"two");
    assert_eq!(ensure(&mut kept, &evidence), Ok(true));
    assert_eq!(ensure(&mut kept, &evidence), Ok(false));
    let mut grown = source.to_vec();
    grown.extend_from_slice(b" of it\n");
    let later = boundary_evidence(&grown, 8, 2, b"two");
    assert_eq!(ensure(&mut kept, &later), Ok(false));
    let changed = boundary_evidence(b"one\ntwX\nmore", 8, 2, b"twX");
    assert_eq!(ensure(&mut kept, &changed), Err(SourceError::BoundaryMismatch));
    let mut legacy = SourceBoundary { start_offset_bytes: None, bytes: None, sha256: None };
    assert!(ensure(&mut legacy, &boundary_evidence(source, 8, 2, b"one")).is_err());
    let mut half = SourceBoundary { start_offset_bytes: Some(0), bytes: None, sha256: None };
    assert_eq!(ensure(&mut half, &evidence), Err(SourceError::BoundaryPartial));
    assert_eq!(
        ensure_transcript_source_boundary(&mut half, "agent-spawn-1", 12, 0, 0, &evidence),
        Err(SourceError::BoundaryZeroOffsetInvalid)
    );
    assert!(matches!(
        read_transcript_source_boundary(4, 8, &range(source, 0, 8)),
        Err(SourceError::RangeTruncated { purpose: RangePurpose::Boundary })
    ));
}

fn prepared(line_no: u64, line: &[u8]) -> PreparedTranscriptRow {
    let mut working = cursor();
    let record = parse_line(line, line_no, &mut working, &rules());
    PreparedTranscriptRow {
        source_key: format!("key-{line_no}").into_bytes(),
        encoded: line.to_vec(),
        ts_index_key: format!("ts-{line_no}").into_bytes(),
        record,
        source_offset_bytes: 0,
        consumed_bytes: line.len() as u64 + 1,
    }
}

fn empty_rows(count: usize) -> Vec<RowPrecondition> {
    (0..count).map(|_| RowPrecondition { source: RowRead::Absent, index: RowRead::Absent }).collect()
}

#[test]
fn a_chunk_guards_every_row_and_its_index() {
    let rows = vec![prepared(1, b"{}"), prepared(2, b"[]")];
    let guards = plan_chunk(&rows, &empty_rows(2)).unwrap();
    assert_eq!(guards.len(), 4);
    assert_eq!(guards[2].key, b"key-2");
    assert_eq!(guards[3].key, b"ts-2");
    assert!(matches!(guards[3].family, ChunkFamily::Index));
    assert!(guards.iter().all(|guard| guard.expected_revision_sha256.is_none()));
    let stored = vec![
        RowPrecondition {
            source: RowRead::Found { value: Some(b"{}".to_vec()), revision_sha256: [1; 32] },
            index: RowRead::Found { value: Some(b"key-1".to_vec()), revision_sha256: [2; 32] },
        },
        RowPrecondition { source: RowRead::Absent, index: RowRead::Absent },
    ];
    let again = plan_chunk(&rows, &stored).unwrap();
    assert_eq!(again[0].expected_revision_sha256, Some([1; 32]));
    let conflicting = vec![
        RowPrecondition {
            source: RowRead::Found { value: Some(b"{ }".to_vec()), revision_sha256: [1; 32] },
            index: RowRead::Absent,
        },
        RowPrecondition { source: RowRead::Absent, index: RowRead::Absent },
    ];
    assert_eq!(
        plan_chunk(&rows, &conflicting).unwrap_err(),
        ChunkError::RowIdentityConflict { line_no: 1 }
    );
    assert_eq!(plan_chunk(&rows, &empty_rows(1)).unwrap_err(), ChunkError::PreconditionsMissing);
    let many: Vec<PreparedTranscriptRow> = (1..66).map(|at| prepared(at, b"{}")).collect();
    assert_eq!(
        plan_chunk(&many, &empty_rows(65)).unwrap_err(),
        ChunkError::TooManyRows { rows: 65 }
    );
}

#[test]
fn a_chunk_counts_only_once_it_reads_back() {
    let rows = vec![prepared(1, b"{}")];
    let readback = |source: &[u8], measured: bool| {
        vec![RowReadback {
            source: PointRead::Value(source.to_vec()),
            index: PointRead::Value(b"key-1".to_vec()),
            measured,
        }]
    };
    let commit = |write: ChunkWrite, readbacks: &Vec<RowReadback>| {
        commit_transcript_chunk(&rows, &empty_rows(1), write, readbacks)
    };
    assert_eq!(commit(ChunkWrite::Applied, &readback(b"{}", true)), Ok(()));
    assert_eq!(
        commit(ChunkWrite::Applied, &readback(b"{ }", true)),
        Err(ChunkError::RowReadbackMismatch { line_no: 1 })
    );
    assert_eq!(
        commit(ChunkWrite::Applied, &readback(b"{}", false)),
        Err(ChunkError::ConstellationMeasurementFailed { line_no: 1 })
    );
    assert_eq!(
        commit(ChunkWrite::Conflict, &readback(b"{}", true)),
        Err(ChunkError::RowsRevisionConflict)
    );
    assert_eq!(
        commit(ChunkWrite::Failed, &readback(b"{}", true)),
        Err(ChunkError::RowsWriteFailed)
    );
    assert_eq!(commit(ChunkWrite::Applied, &vec![]), Err(ChunkError::ReadbacksMissing));
}

fn end_row(line_no: u64, valid: bool) -> EndRow {
    EndRow {
        row: CoveredRow::Row(RowStamp {
            spawn_id: "agent-spawn-1".to_owned(),
            line_no,
            raw_line_bytes: 1,
            raw_line_sha256: sha256_hex(b"x"),
        }),
        valid,
    }
}

/// Drives one ingest of a source held in memory to its end.
fn drive(
    mut survey: SpawnSurvey,
    source: &[u8],
    finalize: bool,
    end_state: EndState,
) -> (TranscriptCursor, IngestAction, Vec<Vec<u8>>) {
    let size = source.len() as u64;
    let mut rows: Vec<Vec<u8>> = Vec::new();
    let mut action = survey.on_stat(PATH, PathStyle::Posix, false, SourceFile::Size(size));
    if action == IngestAction::ReadIdentity {
        let offset = survey.cursor.offset_bytes;
        let evidence = fingerprint_evidence(source, survey.cursor.fingerprint.bytes);
        let last = if offset > 0 {
            let (start, len) = plan_last_line(offset);
            last_logical_line_before_cursor(size, offset, &range(source, start, len)).unwrap()
        } else {
            Vec::new()
        };
        let boundary = boundary_evidence(source, offset, survey.cursor.lines_ingested, &last);
        action = survey.on_identity(&evidence, &boundary, false, NOW);
    }
    while survey.stage == SurveyStage::StoreIdentity || survey.stage == SurveyStage::StoreReopened {
        action = survey.on_stored(Ok(()), false, NOW);
    }
    if action == IngestAction::ReadCompletion {
        action = survey.on_completion(finalize, Ok(false), true);
    }
    if survey.stage == SurveyStage::Run {
        let mut run = SpawnRun::open(survey, SourceOpening::Opened).unwrap();
        loop {
            action = match run.stage {
                RunStage::Line => {
                    let from = run.reader.next_offset_bytes as usize;
                    let until = source.len().min(from + 5);
                    run.on_read(TailEvent::Available(&source[from..until]), &rules(), false).0
                }
                RunStage::Encode => {
                    let line_no = run.pending.as_ref().unwrap().record.line_no;
                    let encoding = RowEncoding::Encoded {
                        source_key: format!("key-{line_no}").into_bytes(),
                        encoded: format!("row-{line_no}").into_bytes(),
                        ts_index_key: format!("ts-{line_no}").into_bytes(),
                    };
                    run.on_encoded(encoding, false)
                }
                RunStage::Commit => {
                    rows.extend(run.pass.chunk.iter().map(|row| row.encoded.clone()));
                    run.on_committed(Ok(()))
                }
                RunStage::Settle => {
                    let offset = run.pass.cursor.offset_bytes + run.pass.chunk_bytes;
                    let (start, len) = plan_boundary(offset);
                    run.on_chunk_identity(
                        &fingerprint_evidence(source, run.pass.cursor.fingerprint.bytes),
                        &range(source, start, len),
                        NOW,
                    )
                }
                RunStage::StoreChunk => run.on_chunk_stored(Ok(())),
                RunStage::FinalStat => run.on_final_stat(Some(size), NOW),
                RunStage::StoreComplete => {
                    survey = run.on_complete_stored(Ok(())).unwrap();
                    action = IngestAction::ReadAnchor;
                    break;
                }
                RunStage::Over => return (run.pass.cursor, action, rows),
            };
        }
    }
    if action == IngestAction::ReadAnchor {
        let last = survey.cursor.lines_ingested;
        action = survey.on_anchor(&end_row(1, true), &end_row(last, true), end_state, NOW);
        if action == IngestAction::StoreCursor {
            action = survey.on_stored(Ok(()), false, NOW);
        }
    }
    (survey.cursor, action, rows)
}

fn survey_at(cursor: TranscriptCursor) -> SpawnSurvey {
    match begin_from_launch(FirstCursor::Ready(cursor)) {
        IngestBegin::Survey(survey) => survey,
        other => panic!("{other:?}"),
    }
}

fn outcome_of(action: IngestAction) -> SpawnIngestOutcome {
    match action {
        IngestAction::Finish(outcome) => outcome,
        other => panic!("{other:?}"),
    }
}

#[test]
fn an_ingest_covers_every_line_once() {
    let mut source = Vec::new();
    for at in 0..150 {
        source.extend_from_slice(format!("{{\"kind\":{at}}}\n").as_bytes());
    }
    source.extend_from_slice(b"{\"tail");
    let (cursor_after, action, rows) = drive(survey_at(cursor()), &source, false, EndState::Absent);
    let outcome = outcome_of(action);
    assert_eq!(rows.len(), 150);
    assert_eq!(rows[149], b"row-150");
    assert_eq!(cursor_after.lines_ingested, 150);
    assert_eq!(cursor_after.offset_bytes, source.len() as u64 - 6);
    assert_eq!(cursor_after.parsed_rows + cursor_after.invalid_rows, 150);
    assert_eq!(outcome.new_parsed_rows + outcome.new_invalid_rows, 150);
    assert!(!outcome.source_complete);
    source.extend_from_slice(b"\":1}\n");
    let (cursor_later, action, rows) =
        drive(survey_at(cursor_after), &source, false, EndState::Absent);
    assert_eq!(rows, [b"row-151".to_vec()]);
    assert_eq!(cursor_later.offset_bytes, source.len() as u64);
    assert_eq!(outcome_of(action).lines_ingested_total, 151);
}

#[test]
fn a_pass_takes_a_bounded_number_of_rows() {
    let source = b"{}\n".repeat(300);
    let (cursor_after, action, rows) = drive(survey_at(cursor()), &source, true, EndState::Absent);
    assert_eq!((rows.len(), cursor_after.lines_ingested), (256, 256));
    assert!(!outcome_of(action).source_complete);
    let (cursor_after, action, rows) =
        drive(survey_at(cursor_after), &source, true, EndState::Absent);
    assert_eq!((rows.len(), cursor_after.lines_ingested), (44, 300));
    assert!(outcome_of(action).source_complete);
}

#[test]
fn a_finalized_source_is_completed_and_anchored() {
    let source = b"{}\nlast";
    let (cursor_after, action, rows) =
        drive(survey_at(cursor()), source, true, EndState::Anchored("exited".to_owned()));
    assert_eq!(rows.len(), 2);
    assert!(outcome_of(action).source_complete);
    assert!(cursor_after.source_complete);
    assert_eq!(cursor_after.completed_reason.as_deref(), Some("finalized_at_teardown"));
    assert_eq!(cursor_after.end_state_anchor_outcome.as_deref(), Some("exited"));
    assert_eq!(cursor_after.end_state_anchor_rows, Some(2));
    let (cursor_again, action, rows) =
        drive(survey_at(cursor_after), source, false, EndState::Absent);
    assert!(rows.is_empty());
    assert!(outcome_of(action).skipped);
    let mut grown = source.to_vec();
    grown.extend_from_slice(b"\n{}\n");
    let (reopened, _, rows) = drive(survey_at(cursor_again), &grown, false, EndState::Absent);
    assert_eq!(rows.len(), 2);
    assert!(!reopened.source_complete);
    assert_eq!(reopened.end_state_anchor_rows, None);
}

#[test]
fn a_source_that_shrank_or_changed_parks_the_spawn() {
    let source = b"{}\n{}\n";
    let (cursor_after, _, _) = drive(survey_at(cursor()), source, false, EndState::Absent);
    let mut survey = survey_at(cursor_after.clone());
    assert_eq!(
        survey.on_stat(PATH, PathStyle::Posix, false, SourceFile::Size(3)),
        IngestAction::Park(PassError::SourceTruncated { file_size_bytes: 3 })
    );
    let (_, action, _) = drive(survey_at(cursor_after.clone()), b"[]\n{}\n", false, EndState::Absent);
    assert_eq!(
        action,
        IngestAction::Park(PassError::Source(SourceError::IdentityMismatch))
    );
    let mut moved = survey_at(cursor_after.clone());
    assert_eq!(
        moved.on_stat("/elsewhere", PathStyle::Posix, false, SourceFile::Size(6)),
        IngestAction::Park(PassError::SourcePathMismatch)
    );
    let mut detour = survey_at(cursor_after.clone());
    assert_eq!(
        detour.on_stat(
            &PATH.replace('/', "//"),
            PathStyle::Posix,
            false,
            SourceFile::Size(source.len() as u64)
        ),
        IngestAction::ReadIdentity
    );
    let mut lost = survey_at(cursor_after.clone());
    assert_eq!(
        lost.on_stat(PATH, PathStyle::Posix, false, SourceFile::StatFailed),
        IngestAction::Park(PassError::SourceStatFailed)
    );
    let mut dir = survey_at(cursor_after.clone());
    assert_eq!(
        dir.on_stat(PATH, PathStyle::Posix, false, SourceFile::NotFile),
        IngestAction::Park(PassError::SourceNotFile)
    );
    let mut parked = cursor_after;
    stick_cursor_error(&mut parked, "detail".to_owned(), NOW);
    let mut skipped = survey_at(parked);
    assert!(outcome_of(skipped.on_stat(PATH, PathStyle::Posix, false, SourceFile::StatFailed)).skipped);
}

#[test]
fn a_refused_row_stops_the_chunk_before_it() {
    let source = b"{}\n{}\n";
    let run_to_line = || {
        let mut survey = survey_at(cursor());
        survey.on_stat(PATH, PathStyle::Posix, false, SourceFile::Size(6));
        survey.on_identity(
            &fingerprint_evidence(source, None),
            &boundary_evidence(source, 0, 0, b""),
            false,
            NOW,
        );
        assert_eq!(survey.on_completion(false, Ok(false), true), IngestAction::ReadLine);
        SpawnRun::open(survey, SourceOpening::Opened).unwrap()
    };
    let mut run = run_to_line();
    assert_eq!(
        run.on_read(TailEvent::Available(source), &rules(), false),
        (IngestAction::EncodeRow, 3)
    );
    assert_eq!(
        run.on_encoded(RowEncoding::ValidationFailed, false),
        IngestAction::Park(PassError::RowValidationFailed { line_no: 1 })
    );
    let mut run = run_to_line();
    run.on_read(TailEvent::Available(source), &rules(), false);
    let good = RowEncoding::Encoded {
        source_key: b"k".to_vec(),
        encoded: b"v".to_vec(),
        ts_index_key: b"t".to_vec(),
    };
    assert_eq!(run.on_encoded(good, false), IngestAction::ReadLine);
    run.on_read(TailEvent::Available(&source[3..]), &rules(), false);
    let huge = RowEncoding::Encoded {
        source_key: b"k".to_vec(),
        encoded: vec![0; 32 * 1024 + 1],
        ts_index_key: b"t".to_vec(),
    };
    assert_eq!(run.on_encoded(huge, false), IngestAction::CommitChunk);
    run.on_committed(Ok(()));
    run.on_chunk_identity(&fingerprint_evidence(source, None), &range(source, 0, 3), NOW);
    assert_eq!(
        run.on_chunk_stored(Ok(())),
        IngestAction::Park(PassError::RowOversized { line_no: 2, encoded_bytes: 32 * 1024 + 1 })
    );
    assert_eq!(run.pass.cursor.lines_ingested, 1);
    assert_eq!(run.pass.cursor.offset_bytes, 3);
    let mut run = run_to_line();
    run.on_read(TailEvent::Available(source), &rules(), false);
    assert_eq!(
        run.on_encoded(RowEncoding::EncodeFailed, false),
        IngestAction::Park(PassError::RowEncodeFailed { line_no: 1 })
    );
    let mut run = run_to_line();
    let (cancelled, taken) = run.on_read(TailEvent::Cancelled, &rules(), false);
    assert!(outcome_of(cancelled).cancelled);
    assert_eq!(taken, 0);
    let mut run = run_to_line();
    run.on_read(TailEvent::Available(source), &rules(), false);
    let good = RowEncoding::Encoded {
        source_key: b"k".to_vec(),
        encoded: b"v".to_vec(),
        ts_index_key: b"t".to_vec(),
    };
    run.on_encoded(good, false);
    assert_eq!(
        run.on_read(TailEvent::Failed, &rules(), false),
        (IngestAction::CommitChunk, 0)
    );
    assert_eq!(
        run.on_committed(Err(ChunkError::RowsWriteFailed)),
        IngestAction::Fail(PassError::Chunk(ChunkError::RowsWriteFailed))
    );
    assert_eq!(run.pass.cursor.lines_ingested, 0);
}

#[test]
fn an_ingest_waits_where_the_disk_has_no_room() {
    let source = b"{}\n";
    let mut survey = survey_at(cursor());
    survey.on_stat(PATH, PathStyle::Posix, false, SourceFile::Size(3));
    survey.on_identity(
        &fingerprint_evidence(source, None),
        &boundary_evidence(source, 0, 0, b""),
        false,
        NOW,
    );
    assert!(outcome_of(survey.on_completion(false, Ok(false), false)).deferred_for_pressure);
    let mut survey = survey_at(cursor());
    survey.on_stat(PATH, PathStyle::Posix, false, SourceFile::Size(3));
    survey.on_identity(
        &fingerprint_evidence(source, None),
        &boundary_evidence(source, 0, 0, b""),
        false,
        NOW,
    );
    assert_eq!(
        survey.on_completion(false, Err(CompletionError::NotJson), true),
        IngestAction::Park(PassError::Completion(CompletionError::NotJson))
    );
}

#[test]
fn an_ingest_begins_with_the_stored_cursor_or_the_launch() {
    let absent = load_cursor(StoredCursor::Absent, "agent-spawn-1");
    assert!(matches!(ingest_spawn_dir_once("agent-spawn-1", absent), IngestBegin::ReadLaunch));
    assert!(matches!(
        ingest_spawn_dir_once("nope", load_cursor(StoredCursor::Absent, "nope")),
        IngestBegin::Fail(PassError::SpawnId(SpawnIdError::PrefixMissing))
    ));
    assert!(matches!(
        ingest_spawn_dir_once("agent-spawn-1", Err(CursorError::Expired)),
        IngestBegin::Fail(PassError::Cursor(CursorError::Expired))
    ));
    let seed = || SpawnManifestSeed { model: Some("m".to_owned()), created_unix_ms: Some(5) };
    match start_cursor(
        "agent-spawn-1",
        PATH,
        Ok(seed()),
        Ok(TranscriptSource::CodexExecJson),
        NOW,
    ) {
        FirstCursor::Ready(first) => {
            assert_eq!(first.stream.model.as_deref(), Some("m"));
            assert_eq!(first.source_epoch_unix_ms, Some(5));
            assert_eq!(first.source, TranscriptSource::CodexExecJson);
        }
        other => panic!("{other:?}"),
    }
    let parked = start_cursor(
        "agent-spawn-1",
        PATH,
        Ok(seed()),
        Err(LaunchError::Ambiguous),
        NOW,
    );
    match begin_from_launch(parked) {
        IngestBegin::Park { error, .. } => {
            assert_eq!(error, PassError::Launch(LaunchError::Ambiguous))
        }
        other => panic!("{other:?}"),
    }
}

#[test]
fn the_ends_of_a_transcript_bear_out_its_cursor() {
    let mut done = cursor();
    done.lines_ingested = 2;
    done.parsed_rows = 1;
    done.invalid_rows = 1;
    let verify = |cursor: &TranscriptCursor, first: EndRow, last: EndRow| {
        verify_transcript_cursor_boundary(cursor, &first, &last)
    };
    assert_eq!(verify(&done, end_row(1, true), end_row(2, true)), Ok(()));
    assert_eq!(
        verify(&done, end_row(1, true), end_row(3, true)),
        Err(ReadbackError::RowIdentityMismatch { line_no: 2 })
    );
    assert_eq!(
        verify(&done, end_row(1, false), end_row(2, true)),
        Err(ReadbackError::RowInvalid { line_no: 1 })
    );
    let missing = || EndRow { row: CoveredRow::Missing, valid: true };
    assert_eq!(
        verify(&done, missing(), end_row(2, true)),
        Err(ReadbackError::RowMissing { line_no: 1 })
    );
    done.invalid_rows = 0;
    assert_eq!(
        verify(&done, end_row(1, true), end_row(2, true)),
        Err(ReadbackError::CounterMismatch)
    );
    done.parsed_rows = u64::MAX;
    done.invalid_rows = 1;
    assert_eq!(
        verify(&done, end_row(1, true), end_row(2, true)),
        Err(ReadbackError::CounterOverflow)
    );
    assert_eq!(verify(&cursor(), missing(), missing()), Ok(()));
}

#[test]
fn a_cycle_looks_only_at_spawn_directories() {
    let named = |name: &str, is_dir| SpawnEntry::Named { name: name.to_owned(), is_dir };
    assert_eq!(judge_entry(&named("agent-spawn-1", Some(true))), EntryDecision::Ingest);
    assert_eq!(
        judge_entry(&named("agent-spawn-1", Some(false))),
        EntryDecision::Refuse(EntryError::NotDirectory)
    );
    assert_eq!(
        judge_entry(&named("agent-spawn-1", None)),
        EntryDecision::Refuse(EntryError::TypeFailed)
    );
    assert_eq!(judge_entry(&named("notes", Some(true))), EntryDecision::Ignore);
    assert_eq!(
        judge_entry(&named("agent-spawn- ", Some(true))),
        EntryDecision::Refuse(EntryError::SpawnIdInvalid(SpawnIdError::CharacterInvalid))
    );
    assert_eq!(
        judge_entry(&SpawnEntry::NameNotUtf8),
        EntryDecision::Refuse(EntryError::NameNotUtf8)
    );
    let mut summary = CycleSummary::new();
    assert!(summary.is_idle());
    summary.see(EntryDecision::Ingest);
    let outcome = SpawnIngestOutcome {
        new_parsed_rows: 2,
        new_invalid_rows: 1,
        lines_ingested_total: 3,
        source_complete: true,
        deferred_for_pressure: false,
        skipped: false,
        cancelled: false,
    };
    assert!(summary.has_room_for(&Some(outcome)));
    assert!(!CycleSummary { new_rows: u64::MAX - 2, ..summary }.has_room_for(&Some(outcome)));
    assert!(!CycleSummary { dirs_seen: u64::MAX, ..summary }.has_room_for(&None));
    assert!(!summary.count(Some(outcome)));
    assert!(!summary.count(None));
    assert!(summary.count(Some(SpawnIngestOutcome { cancelled: true, ..outcome })));
    assert_eq!((summary.dirs_seen, summary.errors, summary.cancelled), (1, 1, true));
    assert!(!summary.is_idle());
}

#[test]
fn only_the_daemons_database_may_read_the_host() {
    let defaults = DefaultPaths {
        db_path: "/home/u/synapse.db".to_owned(),
        daemon_db_path: "/home/u/daemon.db".to_owned(),
        ignore_case: false,
    };
    let root = |db: &str, explicit: Option<String>| {
        transcript_spawn_root_for_db_with(db, explicit, Ok("/host".to_owned()), &defaults).unwrap()
    };
    let explicit = root("/tmp/x.db", Some("/chosen".to_owned())).unwrap();
    assert_eq!(explicit.root, "/chosen");
    assert!(matches!(explicit.scope, TranscriptRootScope::ExplicitEnv));
    assert!(root("/tmp/x.db", None).is_none());
    let host = root("/home/u/daemon.db", None).unwrap();
    assert_eq!(host.root, "/host");
    assert!(matches!(host.scope, TranscriptRootScope::ConfiguredDaemonDb));
    assert!(matches!(plan_schedule(0, 10, true), IngestSchedule::Disabled));
    assert!(matches!(plan_schedule(15, 10, false), IngestSchedule::Unscoped));
    assert!(matches!(
        plan_schedule(15, 10, true),
        IngestSchedule::Every { interval_secs: 15, startup_delay_secs: 10 }
    ));
}

#[test]
fn failures_are_told_by_their_codes() {
    let code = |error| pass_code("TRANSCRIPT", error);
    assert_eq!(
        code(PassError::SourceTruncated { file_size_bytes: 3 }).as_deref(),
        Some("TRANSCRIPT_SOURCE_TRUNCATED")
    );
    assert_eq!(
        code(PassError::Source(SourceError::RangeReadFailed {
            purpose: RangePurpose::BoundaryMigration,
            stage: ReadStage::Seek,
        }))
        .as_deref(),
        Some("TRANSCRIPT_SOURCE_BOUNDARY_MIGRATION_SEEK_FAILED")
    );
    assert_eq!(
        code(PassError::Source(SourceError::Tail(TailError::OpenFailed { offset_bytes: 0 })))
            .as_deref(),
        Some("TRANSCRIPT_SOURCE_OPEN_FAILED")
    );
    assert_eq!(
        code(PassError::Cursor(CursorError::Store(GuardedError::ReadbackMismatch))).as_deref(),
        Some("TRANSCRIPT_CURSOR_READBACK_MISMATCH")
    );
    assert_eq!(
        code(PassError::Chunk(ChunkError::RowsRevisionConflict)).as_deref(),
        Some("TRANSCRIPT_ROWS_REVISION_CONFLICT")
    );
    assert_eq!(
        code(PassError::Manifest(ManifestError::ModelInvalid)).as_deref(),
        Some("TRANSCRIPT_SPAWN_MANIFEST_INVALID")
    );
    assert_eq!(
        code(PassError::Launch(LaunchError::Ambiguous)).as_deref(),
        Some("TRANSCRIPT_SOURCE_AMBIGUOUS")
    );
    assert_eq!(
        code(PassError::Completion(CompletionError::StatusMissing)).as_deref(),
        Some("TRANSCRIPT_COMPLETION_STATUS_INVALID")
    );
    assert_eq!(
        code(PassError::Readback(ReadbackError::CounterMismatch)).as_deref(),
        Some("TRANSCRIPT_CURSOR_COUNTER_MISMATCH")
    );
    assert_eq!(code(PassError::SpawnId(SpawnIdError::PrefixMissing)), None);
}

#[test]
fn sources_that_do_not_bear_out_their_cursor_are_refused() {
    let source = b"one\ntwo\n";
    let fresh = || SourceFingerprint { bytes: None, sha256: None };
    let migrate = |first_line, first_row| {
        let evidence = FingerprintEvidence { prefix: range(source, 0, 8), first_line, first_row };
        ensure_transcript_source_fingerprint(&mut fresh(), "agent-spawn-1", 8, 4, &evidence)
    };
    let line = || read_line_at(source, 0, true);
    assert_eq!(
        migrate(Ok(BoundedTailRead::Cancelled), CoveredRow::Missing),
        Err(SourceError::FingerprintMigrationCancelled)
    );
    assert_eq!(
        migrate(Ok(BoundedTailRead::SnapshotEof), CoveredRow::Missing),
        Err(SourceError::FingerprintMigrationFailed)
    );
    assert_eq!(migrate(line(), CoveredRow::Failed), Err(SourceError::FingerprintRowReadFailed));
    assert_eq!(migrate(line(), CoveredRow::Undecodable), Err(SourceError::FingerprintRowInvalid));
    assert_eq!(migrate(line(), stamp(1, b"other")), Err(SourceError::FingerprintRowMismatch));
    let mut odd = SourceFingerprint { bytes: Some(8), sha256: Some("zz".to_owned()) };
    assert_eq!(
        ensure_transcript_source_fingerprint(
            &mut odd,
            "agent-spawn-1",
            8,
            4,
            &fingerprint_evidence(source, None)
        ),
        Err(SourceError::FingerprintInvalid)
    );
    let legacy = |lines, last_row| {
        let evidence = BoundaryEvidence {
            boundary: range(source, 0, 8),
            last_line: range(source, 0, 8),
            last_row,
        };
        let mut none = SourceBoundary { start_offset_bytes: None, bytes: None, sha256: None };
        ensure_transcript_source_boundary(&mut none, "agent-spawn-1", 8, 8, lines, &evidence)
    };
    assert_eq!(legacy(0, CoveredRow::Missing), Err(SourceError::BoundaryCounterInvalid));
    assert_eq!(legacy(2, CoveredRow::Failed), Err(SourceError::BoundaryMigrationRowReadFailed));
    assert_eq!(legacy(2, CoveredRow::Missing), Err(SourceError::BoundaryMigrationRowMissing));
    assert_eq!(legacy(2, CoveredRow::Undecodable), Err(SourceError::BoundaryMigrationRowInvalid));
    assert_eq!(legacy(2, stamp(2, b"one")), Err(SourceError::BoundaryMigrationRowMismatch));
    assert_eq!(
        verify_legacy_boundary_row(
            "agent-spawn-1",
            8,
            8,
            0,
            &boundary_evidence(source, 8, 2, b"two")
        ),
        Err(SourceError::BoundaryMigrationCounterInvalid)
    );
    let mut moved = SourceBoundary {
        start_offset_bytes: Some(1),
        bytes: Some(7),
        sha256: Some(sha256_hex(b"x")),
    };
    assert_eq!(
        ensure_transcript_source_boundary(
            &mut moved,
            "agent-spawn-1",
            8,
            8,
            2,
            &boundary_evidence(source, 8, 2, b"two")
        ),
        Err(SourceError::BoundaryInvalid)
    );
    assert!(matches!(
        read_transcript_source_boundary(8, 0, &range(source, 0, 0)),
        Err(SourceError::BoundaryOffsetInvalid)
    ));
    let purpose = RangePurpose::Boundary;
    assert!(matches!(
        read_transcript_source_range(8, 0, 0, purpose, &range(source, 0, 0)),
        Err(SourceError::RangeLengthInvalid { purpose: RangePurpose::Boundary })
    ));
    assert!(matches!(
        read_transcript_source_range(8, u64::MAX, 2, purpose, &range(source, 0, 2)),
        Err(SourceError::RangeOffsetOverflow { purpose: RangePurpose::Boundary })
    ));
    let long = vec![b'x'; 10 * 1024 * 1024 + 1];
    assert!(matches!(
        last_logical_line_before_cursor(long.len() as u64, long.len() as u64, &RangeRead::Bytes(long)),
        Err(SourceError::BoundaryMigrationRecordOversized { observed_bytes: 10_485_761 })
    ));
}

#[test]
fn chunks_with_unread_or_foreign_rows_are_refused() {
    let rows = vec![prepared(1, b"{}")];
    let plan = |source: RowRead, index: RowRead| {
        plan_chunk(&rows, &vec![RowPrecondition { source, index }]).unwrap_err()
    };
    let foreign = || RowRead::Found { value: Some(b"?".to_vec()), revision_sha256: [1; 32] };
    assert_eq!(
        plan(RowRead::Failed, RowRead::Absent),
        ChunkError::RowPreconditionReadFailed { line_no: 1 }
    );
    assert_eq!(
        plan(RowRead::Absent, RowRead::Failed),
        ChunkError::IndexPreconditionReadFailed { line_no: 1 }
    );
    assert_eq!(
        plan(RowRead::Absent, foreign()),
        ChunkError::IndexIdentityConflict { line_no: 1 }
    );
    let commit = |source: PointRead, index: PointRead| {
        let readbacks = vec![RowReadback { source, index, measured: true }];
        commit_transcript_chunk(&rows, &empty_rows(1), ChunkWrite::Applied, &readbacks).unwrap_err()
    };
    let stored = || PointRead::Value(b"{}".to_vec());
    assert_eq!(
        commit(PointRead::Failed, PointRead::Absent),
        ChunkError::RowReadbackFailed { line_no: 1 }
    );
    assert_eq!(
        commit(stored(), PointRead::Failed),
        ChunkError::IndexReadbackFailed { line_no: 1 }
    );
    assert_eq!(
        commit(stored(), PointRead::Absent),
        ChunkError::IndexReadbackMismatch { line_no: 1 }
    );
    let heavy: Vec<PreparedTranscriptRow> = (1..65)
        .map(|at| {
            let mut row = prepared(at, b"{}");
            row.encoded = vec![0; 32 * 1024 + 1];
            row
        })
        .collect();
    assert!(matches!(
        plan_chunk(&heavy, &empty_rows(64)).unwrap_err(),
        ChunkError::TooManyBytes { bytes: 2_097_216 }
    ));
}

#[test]
fn spent_counters_stop_the_pass() {
    let source = b"{}\n";
    let run_at = |lines: u64, parsed: u64, invalid: u64| {
        let mut spent = cursor();
        spent.lines_ingested = lines;
        spent.parsed_rows = parsed;
        spent.invalid_rows = invalid;
        let survey = SpawnSurvey {
            stage: SurveyStage::Run,
            cursor: spent,
            file_size_bytes: 3,
            outcome: SpawnIngestOutcome {
                new_parsed_rows: 0,
                new_invalid_rows: 0,
                lines_ingested_total: 0,
                source_complete: false,
                deferred_for_pressure: false,
                skipped: false,
                cancelled: false,
            },
            finalize: true,
            completion_terminal: false,
        };
        SpawnRun::open(survey, SourceOpening::Opened).unwrap()
    };
    let mut run = run_at(u64::MAX, 0, 0);
    assert_eq!(
        run.on_read(TailEvent::Available(source), &rules(), false).0,
        IngestAction::Park(PassError::LineNumberOverflow { source_offset_bytes: 0 })
    );
    for (parsed, invalid, error) in [
        (u64::MAX, u64::MAX, PassError::ParsedCounterOverflow),
        (0, u64::MAX, PassError::InvalidCounterOverflow),
    ] {
        let mut run = run_at(1, parsed, invalid);
        run.on_read(TailEvent::Available(source), &rules(), false);
        let line = run.pending.as_mut().unwrap();
        line.record.status = if parsed == u64::MAX {
            TranscriptParseStatus::Parsed
        } else {
            TranscriptParseStatus::Invalid
        };
        let good = RowEncoding::Encoded {
            source_key: b"k".to_vec(),
            encoded: b"v".to_vec(),
            ts_index_key: b"t".to_vec(),
        };
        run.on_encoded(good, false);
        run.on_read(TailEvent::Available(b""), &rules(), false);
        run.on_committed(Ok(()));
        assert_eq!(
            run.on_chunk_identity(
                &fingerprint_evidence(source, None),
                &range(source, 0, 3),
                NOW
            ),
            IngestAction::Fail(error)
        );
    }
    let mut run = run_at(0, 0, 0);
    run.pass.reached_snapshot_eof = true;
    run.stage = RunStage::FinalStat;
    assert_eq!(run.on_final_stat(None, NOW), IngestAction::Park(PassError::FinalStatFailed));
}

#[test]
fn ends_that_cannot_be_read_park_the_spawn() {
    let mut done = cursor();
    done.lines_ingested = 2;
    done.parsed_rows = 2;
    let unread = |row: CoveredRow| {
        verify_transcript_cursor_boundary(
            &done,
            &EndRow { row, valid: true },
            &end_row(2, true),
        )
    };
    assert_eq!(
        unread(CoveredRow::Failed),
        Err(ReadbackError::RowReadFailed { line_no: 1 })
    );
    assert_eq!(
        unread(CoveredRow::Undecodable),
        Err(ReadbackError::RowUndecodable { line_no: 1 })
    );
    let mut survey = survey_at(done);
    survey.stage = SurveyStage::Anchor;
    assert_eq!(
        survey.on_anchor(&end_row(1, true), &end_row(2, true), EndState::Failed, NOW),
        IngestAction::Park(PassError::EndStateAnchorFailed)
    );
    assert_eq!(
        judge_entry(&SpawnEntry::EnumerationFailed),
        EntryDecision::Refuse(EntryError::EnumerationFailed)
    );
}
