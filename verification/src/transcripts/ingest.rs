//! One ingest pass over the transcript of one spawn.
use crate::roots::{PathStyle, same_path, same_path_spec};
use crate::text;
use crate::text::str_equal;
use crate::transcripts::chunk::{
    ChunkError, MAX_AGENT_TRANSCRIPT_COMMIT_ROWS, MAX_AGENT_TRANSCRIPT_VALUE_BYTES,
    PreparedTranscriptRow,
};
use crate::transcripts::cursor::{
    BoundaryView, CursorError, CursorView, FingerprintView, SourceBoundary, SourceFingerprint,
    SpawnIdError, TRANSCRIPT_CURSOR_VERSION, TranscriptCursor,
};
use crate::transcripts::launch::{CompletionError, LaunchError, ManifestError, SpawnManifestSeed};
use crate::transcripts::lines;
use crate::transcripts::lines::{AgentTranscriptRecord, parse_line};
use crate::transcripts::record::{
    StreamState, StreamView, TranscriptParseStatus, TranscriptRules, TranscriptSource,
};
use crate::transcripts::source;
use crate::transcripts::source::{
    BoundaryEvidence, CoveredRow, FingerprintEvidence, RangeRead, SourceError,
    ensure_transcript_source_boundary, ensure_transcript_source_fingerprint,
    refresh_transcript_source_boundary,
};
use crate::transcripts::tail;
use crate::transcripts::tail::{BoundedTailRead, ReadView, TailError};
use vstd::prelude::*;
use vstd::string::*;

verus! {

/// The most rows of one pass.
pub const MAX_AGENT_TRANSCRIPT_ROWS_PER_PASS: usize = 256;

/// The source bytes after which a pass takes no more lines.
pub const MAX_AGENT_TRANSCRIPT_SOURCE_BYTES_PER_PASS: u64 = 32 * 1024 * 1024;

/// Why a pass stops. Most of these park the spawn.
#[derive(Clone, Copy, Debug, PartialEq, Eq, Structural)]
pub enum PassError {
    SpawnId(SpawnIdError),
    Cursor(CursorError),
    Manifest(ManifestError),
    Launch(LaunchError),
    SourcePathMismatch,
    SourceStatFailed,
    SourceNotFile,
    SourceTruncated { file_size_bytes: u64 },
    Source(SourceError),
    Completion(CompletionError),
    LineNumberOverflow { source_offset_bytes: u64 },
    RowValidationFailed { line_no: u64 },
    RowEncodeFailed { line_no: u64 },
    RowOversized { line_no: u64, encoded_bytes: usize },
    Chunk(ChunkError),
    ParsedCounterOverflow,
    InvalidCounterOverflow,
    FinalStatFailed,
    Readback(ReadbackError),
    EndStateAnchorFailed,
}

/// What one pass did.
#[derive(Clone, Copy, Debug, PartialEq, Eq, Structural)]
pub struct SpawnIngestOutcome {
    pub new_parsed_rows: u64,
    pub new_invalid_rows: u64,
    pub lines_ingested_total: u64,
    pub source_complete: bool,
    pub deferred_for_pressure: bool,
    pub skipped: bool,
    pub cancelled: bool,
}

/// The outcome of a pass that ingested nothing.
pub open spec fn idle_outcome(lines_ingested_total: u64) -> SpawnIngestOutcome {
    SpawnIngestOutcome {
        new_parsed_rows: 0,
        new_invalid_rows: 0,
        lines_ingested_total,
        source_complete: false,
        deferred_for_pressure: false,
        skipped: false,
        cancelled: false,
    }
}

fn idle(lines_ingested_total: u64) -> (outcome: SpawnIngestOutcome)
    ensures
        outcome == idle_outcome(lines_ingested_total),
{
    SpawnIngestOutcome {
        new_parsed_rows: 0,
        new_invalid_rows: 0,
        lines_ingested_total,
        source_complete: false,
        deferred_for_pressure: false,
        skipped: false,
        cancelled: false,
    }
}

/// The cursor of a spawn of which nothing is ingested.
pub open spec fn fresh_cursor(
    spawn_id: Seq<char>,
    source_path: Seq<char>,
    source: TranscriptSource,
    model: Option<Seq<char>>,
    source_epoch_unix_ms: Option<u64>,
    now_ns: u64,
) -> CursorView {
    CursorView {
        record_version: TRANSCRIPT_CURSOR_VERSION,
        spawn_id,
        source,
        source_path,
        offset_bytes: 0,
        lines_ingested: 0,
        parsed_rows: 0,
        invalid_rows: 0,
        stream: StreamView {
            turn_index: 0,
            last_assistant_message_id: None,
            seen_message_ids: Seq::empty(),
            conversation_id: None,
            model,
        },
        source_epoch_unix_ms,
        fingerprint: FingerprintView { bytes: None, sha256: None },
        boundary: BoundaryView { start_offset_bytes: None, bytes: None, sha256: None },
        source_complete: false,
        completed_reason: None,
        end_state_anchor_outcome: None,
        end_state_anchor_rows: None,
        error: None,
        updated_ts_ns: now_ns,
    }
}

fn new_cursor(
    spawn_id: &str,
    source_path: &str,
    source: TranscriptSource,
    model: Option<String>,
    source_epoch_unix_ms: Option<u64>,
    now_ns: u64,
) -> (cursor: TranscriptCursor)
    ensures
        cursor@ == fresh_cursor(
            spawn_id@,
            source_path@,
            source,
            text::opt_text(model),
            source_epoch_unix_ms,
            now_ns,
        ),
{
    let unseen: Vec<String> = Vec::new();
    assert(text::texts(unseen@) =~= Seq::<Seq<char>>::empty());
    TranscriptCursor {
        record_version: TRANSCRIPT_CURSOR_VERSION,
        spawn_id: spawn_id.to_owned(),
        source,
        source_path: source_path.to_owned(),
        offset_bytes: 0,
        lines_ingested: 0,
        parsed_rows: 0,
        invalid_rows: 0,
        stream: StreamState {
            turn_index: 0,
            last_assistant_message_id: None,
            seen_message_ids: unseen,
            conversation_id: None,
            model,
        },
        source_epoch_unix_ms,
        fingerprint: SourceFingerprint { bytes: None, sha256: None },
        boundary: SourceBoundary { start_offset_bytes: None, bytes: None, sha256: None },
        source_complete: false,
        completed_reason: None,
        end_state_anchor_outcome: None,
        end_state_anchor_rows: None,
        error: None,
        updated_ts_ns: now_ns,
    }
}

/// A cursor to go on with, or one that only parks the error.
#[derive(Debug)]
pub enum FirstCursor {
    Ready(TranscriptCursor),
    Park { cursor: TranscriptCursor, error: PassError },
}

/// Starts the cursor of a spawn that has none from what its launch left. Where
/// that cannot be used, the cursor serves only to park the error.
pub fn start_cursor(
    spawn_id: &str,
    source_path: &str,
    seed: Result<SpawnManifestSeed, ManifestError>,
    source: Result<TranscriptSource, LaunchError>,
    now_ns: u64,
) -> (first: FirstCursor)
    ensures
        match (seed, source) {
            (Err(error), _) => first matches FirstCursor::Park { cursor, error: given } && given
                == PassError::Manifest(error) && cursor@ == fresh_cursor(
                spawn_id@,
                source_path@,
                TranscriptSource::ClaudeStreamJson,
                None,
                None,
                now_ns,
            ),
            (Ok(manifest), Err(error)) => first matches FirstCursor::Park { cursor, error: given }
                && given == PassError::Launch(error) && cursor@ == fresh_cursor(
                spawn_id@,
                source_path@,
                TranscriptSource::ClaudeStreamJson,
                None,
                manifest.created_unix_ms,
                now_ns,
            ),
            (Ok(manifest), Ok(found)) => first matches FirstCursor::Ready(cursor) && cursor@
                == fresh_cursor(
                spawn_id@,
                source_path@,
                found,
                manifest@.model,
                manifest.created_unix_ms,
                now_ns,
            ),
        },
{
    let manifest = match seed {
        Ok(manifest) => manifest,
        Err(error) => {
            return FirstCursor::Park {
                cursor: new_cursor(
                    spawn_id,
                    source_path,
                    TranscriptSource::ClaudeStreamJson,
                    None,
                    None,
                    now_ns,
                ),
                error: PassError::Manifest(error),
            };
        },
    };
    match source {
        Err(error) => FirstCursor::Park {
            cursor: new_cursor(
                spawn_id,
                source_path,
                TranscriptSource::ClaudeStreamJson,
                None,
                manifest.created_unix_ms,
                now_ns,
            ),
            error: PassError::Launch(error),
        },
        Ok(found) => FirstCursor::Ready(
            new_cursor(
                spawn_id,
                source_path,
                found,
                manifest.model,
                manifest.created_unix_ms,
                now_ns,
            ),
        ),
    }
}

/// What stands where the source is expected.
#[derive(Clone, Copy, Debug, PartialEq, Eq, Structural)]
pub enum SourceFile {
    StatFailed,
    NotFile,
    Size(u64),
}

/// How a pass goes on after a look at the source.
#[derive(Clone, Copy, Debug, PartialEq, Eq, Structural)]
pub enum SourceCheck {
    /// The pass is over.
    Done(SpawnIngestOutcome),
    /// The spawn is parked.
    Stick(PassError),
    /// The source is the one that the cursor has seen. Where the cursor was
    /// given a fingerprint or a boundary, it is stored first.
    Ready { file_size_bytes: u64, store: bool },
}

/// What the check of a source says before it looks into the source.
pub open spec fn survey(
    cursor: CursorView,
    discovered_path: Seq<char>,
    style: PathStyle,
    cancelled: bool,
    file: SourceFile,
) -> SourceCheck {
    if !same_path_spec(cursor.source_path, discovered_path, style) {
        SourceCheck::Stick(PassError::SourcePathMismatch)
    } else if cancelled {
        SourceCheck::Done(
            SpawnIngestOutcome { cancelled: true, ..idle_outcome(cursor.lines_ingested) },
        )
    } else if cursor.error is Some {
        SourceCheck::Done(
            SpawnIngestOutcome { skipped: true, ..idle_outcome(cursor.lines_ingested) },
        )
    } else {
        match file {
            SourceFile::StatFailed => SourceCheck::Stick(PassError::SourceStatFailed),
            SourceFile::NotFile => SourceCheck::Stick(PassError::SourceNotFile),
            SourceFile::Size(file_size_bytes) => if file_size_bytes < cursor.offset_bytes {
                SourceCheck::Stick(PassError::SourceTruncated { file_size_bytes })
            } else {
                SourceCheck::Ready { file_size_bytes, store: false }
            },
        }
    }
}

/// Looks at the source before anything of it is read: its path, its size, and
/// whether the spawn is parked.
pub fn survey_source(
    cursor: &TranscriptCursor,
    discovered_path: &str,
    style: PathStyle,
    cancelled: bool,
    file: SourceFile,
) -> (check: SourceCheck)
    ensures
        check == survey(cursor@, discovered_path@, style, cancelled, file),
{
    if !same_path(cursor.source_path.as_str(), discovered_path, style) {
        return SourceCheck::Stick(PassError::SourcePathMismatch);
    }
    if cancelled {
        let mut outcome = idle(cursor.lines_ingested);
        outcome.cancelled = true;
        return SourceCheck::Done(outcome);
    }
    if cursor.error.is_some() {
        let mut outcome = idle(cursor.lines_ingested);
        outcome.skipped = true;
        return SourceCheck::Done(outcome);
    }
    match file {
        SourceFile::StatFailed => SourceCheck::Stick(PassError::SourceStatFailed),
        SourceFile::NotFile => SourceCheck::Stick(PassError::SourceNotFile),
        SourceFile::Size(file_size_bytes) => if file_size_bytes < cursor.offset_bytes {
            SourceCheck::Stick(PassError::SourceTruncated { file_size_bytes })
        } else {
            SourceCheck::Ready { file_size_bytes, store: false }
        },
    }
}

/// The cursor after the source was held against it, or why it does not match.
pub open spec fn matched_cursor(
    cursor: CursorView,
    file_size_bytes: u64,
    fingerprint: FingerprintEvidence,
    boundary: BoundaryEvidence,
) -> Result<CursorView, SourceError> {
    match source::ensured_fingerprint(
        cursor.fingerprint,
        cursor.spawn_id,
        file_size_bytes,
        cursor.offset_bytes,
        fingerprint,
    ) {
        Err(error) => Err(error),
        Ok(print) => match source::ensured_boundary(
            cursor.boundary,
            cursor.spawn_id,
            file_size_bytes,
            cursor.offset_bytes,
            cursor.lines_ingested,
            boundary,
        ) {
            Err(error) => Err(error),
            Ok(edge) => Ok(CursorView { fingerprint: print, boundary: edge, ..cursor }),
        },
    }
}

/// The cursor that an unmatched source leaves: only the fingerprint may have
/// been filled in.
pub open spec fn unmatched_cursor(
    cursor: CursorView,
    file_size_bytes: u64,
    fingerprint: FingerprintEvidence,
) -> CursorView {
    match source::ensured_fingerprint(
        cursor.fingerprint,
        cursor.spawn_id,
        file_size_bytes,
        cursor.offset_bytes,
        fingerprint,
    ) {
        Err(_) => cursor,
        Ok(print) => CursorView { fingerprint: print, ..cursor },
    }
}

/// Whether a cursor lacks the fingerprint or the boundary that it should have.
pub open spec fn needs_migration(cursor: CursorView) -> bool {
    cursor.offset_bytes != 0 && (cursor.fingerprint.bytes is None || cursor.boundary.sha256 is None)
}

/// Holds the source against the cursor. A cursor that was given a fingerprint or
/// a boundary by that is stamped and has to be stored.
pub fn match_source(
    cursor: &mut TranscriptCursor,
    file_size_bytes: u64,
    fingerprint: &FingerprintEvidence,
    boundary: &BoundaryEvidence,
    now_ns: u64,
) -> (check: SourceCheck)
    ensures
        match matched_cursor(old(cursor)@, file_size_bytes, *fingerprint, *boundary) {
            Err(error) => {
                &&& check == SourceCheck::Stick(PassError::Source(error))
                &&& final(cursor)@ == unmatched_cursor(old(cursor)@, file_size_bytes, *fingerprint)
            },
            Ok(found) => {
                &&& check == (SourceCheck::Ready {
                    file_size_bytes,
                    store: needs_migration(old(cursor)@),
                })
                &&& final(cursor)@ == (if needs_migration(old(cursor)@) {
                    CursorView { updated_ts_ns: now_ns, ..found }
                } else {
                    found
                })
            },
        },
        final(cursor)@.offset_bytes == old(cursor)@.offset_bytes,
        final(cursor)@.lines_ingested == old(cursor)@.lines_ingested,
{
    let offset: u64 = cursor.offset_bytes;
    let print_changed: bool = match ensure_transcript_source_fingerprint(
        &mut cursor.fingerprint,
        cursor.spawn_id.as_str(),
        file_size_bytes,
        offset,
        fingerprint,
    ) {
        Ok(changed) => changed,
        Err(error) => {
            return SourceCheck::Stick(PassError::Source(error));
        },
    };
    let edge_changed: bool = match ensure_transcript_source_boundary(
        &mut cursor.boundary,
        cursor.spawn_id.as_str(),
        file_size_bytes,
        offset,
        cursor.lines_ingested,
        boundary,
    ) {
        Ok(changed) => changed,
        Err(error) => {
            return SourceCheck::Stick(PassError::Source(error));
        },
    };
    let store: bool = print_changed || edge_changed;
    if store {
        cursor.updated_ts_ns = now_ns;
    }
    SourceCheck::Ready { file_size_bytes, store }
}

/// How a pass over a completed source goes on.
#[derive(Clone, Copy, Debug, PartialEq, Eq, Structural)]
pub enum CompletedCheck {
    /// The source was not completed.
    NotComplete,
    /// The source has grown since; the cursor is open again and has to be stored.
    Reopened,
    /// The pass is over.
    Done(SpawnIngestOutcome),
    /// The end state of the spawn has to be anchored; this is the outcome then.
    Anchor(SpawnIngestOutcome),
}

/// The cursor of a source that is no longer complete.
pub open spec fn reopened(cursor: CursorView, now_ns: u64) -> CursorView {
    CursorView {
        source_complete: false,
        completed_reason: None,
        end_state_anchor_outcome: None,
        end_state_anchor_rows: None,
        updated_ts_ns: now_ns,
        ..cursor
    }
}

/// Opens a completed source again that has grown since; one that has not is done
/// with.
pub fn check_completed(
    cursor: &mut TranscriptCursor,
    file_size_bytes: u64,
    cancelled: bool,
    now_ns: u64,
) -> (check: CompletedCheck)
    ensures
        ({
            let done = SpawnIngestOutcome {
                source_complete: true,
                ..idle_outcome(old(cursor)@.lines_ingested)
            };
            if !old(cursor)@.source_complete {
                check == CompletedCheck::NotComplete && final(cursor)@ == old(cursor)@
            } else if file_size_bytes > old(cursor)@.offset_bytes {
                check == CompletedCheck::Reopened && final(cursor)@ == reopened(
                    old(cursor)@,
                    now_ns,
                )
            } else if cancelled {
                check == CompletedCheck::Done(SpawnIngestOutcome { cancelled: true, ..done })
                    && final(cursor)@ == old(cursor)@
            } else {
                check == CompletedCheck::Anchor(SpawnIngestOutcome { skipped: true, ..done })
                    && final(cursor)@ == old(cursor)@
            }
        }),
{
    if !cursor.source_complete {
        return CompletedCheck::NotComplete;
    }
    if file_size_bytes > cursor.offset_bytes {
        cursor.source_complete = false;
        cursor.completed_reason = None;
        cursor.end_state_anchor_outcome = None;
        cursor.end_state_anchor_rows = None;
        cursor.updated_ts_ns = now_ns;
        return CompletedCheck::Reopened;
    }
    let mut outcome = idle(cursor.lines_ingested);
    outcome.source_complete = true;
    if cancelled {
        outcome.cancelled = true;
        return CompletedCheck::Done(outcome);
    }
    outcome.skipped = true;
    CompletedCheck::Anchor(outcome)
}

/// How a pass goes on before it reads.
#[derive(Clone, Copy, Debug, PartialEq, Eq, Structural)]
pub enum ReadGate {
    Stick(PassError),
    Deferred(SpawnIngestOutcome),
    Read { finalize: bool, completion_terminal: bool },
}

/// Lets a pass read where there is nothing new or the disk has room for what is
/// new. A spawn that has ended is finalized.
pub fn gate_read(
    cursor: &TranscriptCursor,
    file_size_bytes: u64,
    finalize: bool,
    completion: Result<bool, CompletionError>,
    pressure_permits_write: bool,
) -> (gate: ReadGate)
    ensures
        gate == (match completion {
            Err(error) => ReadGate::Stick(PassError::Completion(error)),
            Ok(completion_terminal) => if file_size_bytes > cursor@.offset_bytes
                && !pressure_permits_write {
                ReadGate::Deferred(
                    SpawnIngestOutcome {
                        deferred_for_pressure: true,
                        ..idle_outcome(cursor@.lines_ingested)
                    },
                )
            } else {
                ReadGate::Read { finalize: finalize || completion_terminal, completion_terminal }
            },
        }),
{
    let completion_terminal: bool = match completion {
        Ok(terminal) => terminal,
        Err(error) => {
            return ReadGate::Stick(PassError::Completion(error));
        },
    };
    if file_size_bytes > cursor.offset_bytes && !pressure_permits_write {
        let mut outcome = idle(cursor.lines_ingested);
        outcome.deferred_for_pressure = true;
        return ReadGate::Deferred(outcome);
    }
    ReadGate::Read { finalize: finalize || completion_terminal, completion_terminal }
}

/// A pass over a source: what is committed, and the chunk that is being made.
#[derive(Debug)]
pub struct TranscriptPass {
    /// The cursor as it is stored.
    pub cursor: TranscriptCursor,
    pub snapshot_size_bytes: u64,
    pub pass_rows: usize,
    pub pass_source_bytes: u64,
    pub new_parsed: u64,
    pub new_invalid: u64,
    pub reached_snapshot_eof: bool,
    pub cancelled: bool,
    /// The rows of the chunk.
    pub chunk: Vec<PreparedTranscriptRow>,
    /// The state of the stream after the chunk.
    pub stream: StreamState,
    pub chunk_parsed: u64,
    pub chunk_invalid: u64,
    /// The source bytes that the chunk takes.
    pub chunk_bytes: u64,
    pub pending_error: Option<PassError>,
    pub incomplete_tail: bool,
}

/// How many rows of a chunk have this status.
pub open spec fn rows_with(
    rows: Seq<PreparedTranscriptRow>,
    status: TranscriptParseStatus,
) -> int
    decreases rows.len(),
{
    if rows.len() == 0 {
        0
    } else {
        rows_with(rows.drop_last(), status) + (if rows.last().record.status == status {
            1int
        } else {
            0int
        })
    }
}

/// The source bytes that rows take.
pub open spec fn bytes_of(rows: Seq<PreparedTranscriptRow>) -> int
    decreases rows.len(),
{
    if rows.len() == 0 {
        0
    } else {
        bytes_of(rows.drop_last()) + rows.last().consumed_bytes
    }
}

/// The rows of a chunk follow the cursor without a gap: one line after the
/// other, each where the one before it ends.
pub open spec fn rows_tile(
    rows: Seq<PreparedTranscriptRow>,
    spawn_id: Seq<char>,
    lines_ingested: u64,
    offset_bytes: u64,
) -> bool {
    forall|i: int|
        0 <= i < rows.len() ==> {
            &&& (#[trigger] rows[i]).record.spawn_id@ == spawn_id
            &&& rows[i].record.line_no == lines_ingested + 1 + i
            &&& rows[i].source_offset_bytes == offset_bytes + bytes_of(rows.subrange(0, i))
            &&& rows[i].consumed_bytes > 0
            &&& rows[i].encoded@.len() <= MAX_AGENT_TRANSCRIPT_VALUE_BYTES
        }
}

/// Whether so many more lines can be read before the count of turns is spent.
pub open spec fn turns_fit(source: TranscriptSource, stream: StreamView, lines: int) -> bool {
    source == TranscriptSource::LocalModelJson || source == TranscriptSource::ClaudeSessionJsonl
        || stream.turn_index + lines <= u64::MAX
}

/// How many bytes of the source a pass has taken after a line.
pub open spec fn source_bytes_after(taken_bytes: u64, line_bytes: u64) -> int {
    if taken_bytes + line_bytes > u64::MAX {
        u64::MAX as int
    } else {
        taken_bytes + line_bytes
    }
}

impl TranscriptPass {
    /// What holds between any two steps of a pass.
    pub open spec fn wf(self) -> bool {
        &&& self.pass_rows + self.chunk@.len() <= MAX_AGENT_TRANSCRIPT_ROWS_PER_PASS
        &&& self.chunk@.len() <= MAX_AGENT_TRANSCRIPT_COMMIT_ROWS
        &&& self.new_parsed + self.new_invalid == self.pass_rows
        &&& self.chunk_parsed == rows_with(self.chunk@, TranscriptParseStatus::Parsed)
        &&& self.chunk_invalid == rows_with(self.chunk@, TranscriptParseStatus::Invalid)
        &&& self.chunk_parsed + self.chunk_invalid == self.chunk@.len()
        &&& self.chunk_bytes == bytes_of(self.chunk@)
        &&& self.cursor@.offset_bytes + self.chunk_bytes <= self.snapshot_size_bytes
        &&& self.cursor@.lines_ingested + self.chunk@.len() <= u64::MAX
        &&& rows_tile(
            self.chunk@,
            self.cursor@.spawn_id,
            self.cursor@.lines_ingested,
            self.cursor@.offset_bytes,
        )
        &&& turns_fit(
            self.cursor@.source,
            self.stream@,
            MAX_AGENT_TRANSCRIPT_ROWS_PER_PASS - self.pass_rows - self.chunk@.len(),
        )
    }

    /// The chunk is empty and nothing stands in the way of the next line.
    pub open spec fn at_chunk_start(self) -> bool {
        &&& self.chunk@.len() == 0
        &&& self.stream@ == self.cursor@.stream
        &&& self.pending_error is None
        &&& !self.incomplete_tail
    }

    /// Nothing but the chunk differs.
    pub open spec fn same_progress(self, other: Self) -> bool {
        &&& self.cursor == other.cursor
        &&& self.snapshot_size_bytes == other.snapshot_size_bytes
        &&& self.pass_rows == other.pass_rows
        &&& self.new_parsed == other.new_parsed
        &&& self.new_invalid == other.new_invalid
    }

    /// The offset at which the next line of the source starts.
    pub open spec fn next_offset(self) -> int {
        self.cursor@.offset_bytes + self.chunk_bytes
    }

    /// Starts a pass at the cursor.
    pub fn start(cursor: TranscriptCursor, snapshot_size_bytes: u64) -> (pass: Self)
        requires
            cursor@.offset_bytes <= snapshot_size_bytes,
            turns_fit(
                cursor@.source,
                cursor@.stream,
                MAX_AGENT_TRANSCRIPT_ROWS_PER_PASS as int,
            ),
        ensures
            pass.wf(),
            pass.at_chunk_start(),
            pass.cursor == cursor,
            pass.snapshot_size_bytes == snapshot_size_bytes,
            pass.pass_rows == 0,
            pass.pass_source_bytes == 0,
            pass.new_parsed == 0,
            pass.new_invalid == 0,
            !pass.reached_snapshot_eof,
            !pass.cancelled,
    {
        let stream = cursor.stream.clone();
        TranscriptPass {
            cursor,
            snapshot_size_bytes,
            pass_rows: 0,
            pass_source_bytes: 0,
            new_parsed: 0,
            new_invalid: 0,
            reached_snapshot_eof: false,
            cancelled: false,
            chunk: Vec::new(),
            stream,
            chunk_parsed: 0,
            chunk_invalid: 0,
            chunk_bytes: 0,
            pending_error: None,
            incomplete_tail: false,
        }
    }

    /// Whether the pass has room for another chunk.
    pub fn wants_chunk(&self) -> (wants: bool)
        ensures
            wants == (self.pass_rows < MAX_AGENT_TRANSCRIPT_ROWS_PER_PASS && self.pass_source_bytes
                < MAX_AGENT_TRANSCRIPT_SOURCE_BYTES_PER_PASS),
    {
        self.pass_rows < MAX_AGENT_TRANSCRIPT_ROWS_PER_PASS && self.pass_source_bytes
            < MAX_AGENT_TRANSCRIPT_SOURCE_BYTES_PER_PASS
    }

    /// Whether the chunk takes another line.
    pub open spec fn takes_line(self) -> bool {
        &&& self.chunk@.len() < MAX_AGENT_TRANSCRIPT_COMMIT_ROWS
        &&& self.pass_rows + self.chunk@.len() < MAX_AGENT_TRANSCRIPT_ROWS_PER_PASS
        &&& self.pass_source_bytes < MAX_AGENT_TRANSCRIPT_SOURCE_BYTES_PER_PASS
        &&& self.pending_error is None
        &&& !self.reached_snapshot_eof
        &&& !self.incomplete_tail
        &&& !self.cancelled
    }

    /// Whether the chunk takes another line.
    pub fn wants_line(&self) -> (wants: bool)
        requires
            self.wf(),
        ensures
            wants == self.takes_line(),
    {
        self.chunk.len() < MAX_AGENT_TRANSCRIPT_COMMIT_ROWS && self.pass_rows + self.chunk.len()
            < MAX_AGENT_TRANSCRIPT_ROWS_PER_PASS && self.pass_source_bytes
            < MAX_AGENT_TRANSCRIPT_SOURCE_BYTES_PER_PASS && self.pending_error.is_none()
            && !self.reached_snapshot_eof && !self.incomplete_tail && !self.cancelled
    }
}

/// A line that was read and parsed, but is not yet part of the chunk.
#[derive(Debug)]
pub struct PendingLine {
    pub record: AgentTranscriptRecord,
    pub stream: StreamState,
    pub source_offset_bytes: u64,
    pub consumed_bytes: u64,
}

/// What encoding a row gave.
#[derive(Debug)]
pub enum RowEncoding {
    ValidationFailed,
    EncodeFailed,
    Encoded { source_key: Vec<u8>, encoded: Vec<u8>, ts_index_key: Vec<u8> },
}

/// Why the row of a line does not join the chunk, if it does not.
pub open spec fn row_refusal(line_no: u64, encoding: RowEncoding) -> Option<PassError> {
    match encoding {
        RowEncoding::ValidationFailed => Some(PassError::RowValidationFailed { line_no }),
        RowEncoding::EncodeFailed => Some(PassError::RowEncodeFailed { line_no }),
        RowEncoding::Encoded { encoded, .. } => if encoded@.len()
            > MAX_AGENT_TRANSCRIPT_VALUE_BYTES {
            Some(PassError::RowOversized { line_no, encoded_bytes: encoded@.len() as usize })
        } else {
            None
        },
    }
}

/// The row of a line that was encoded.
pub open spec fn encoded_row(pending: PendingLine, encoding: RowEncoding) -> PreparedTranscriptRow {
    PreparedTranscriptRow {
        source_key: encoding->source_key,
        encoded: encoding->encoded,
        ts_index_key: encoding->ts_index_key,
        record: pending.record,
        source_offset_bytes: pending.source_offset_bytes,
        consumed_bytes: pending.consumed_bytes,
    }
}

impl TranscriptPass {
    /// The number of the line after the chunk.
    pub open spec fn next_line_no(self) -> int {
        self.cursor@.lines_ingested + self.chunk@.len() + 1
    }

    /// Whether a line is the one after the chunk, and lies within the snapshot.
    pub open spec fn is_next(self, pending: PendingLine) -> bool {
        &&& pending.source_offset_bytes == self.next_offset()
        &&& pending.consumed_bytes > 0
        &&& pending.source_offset_bytes + pending.consumed_bytes <= self.snapshot_size_bytes
        &&& pending.record.line_no == self.next_line_no()
        &&& pending.record.spawn_id@ == self.cursor@.spawn_id
        &&& turns_fit(
            self.cursor@.source,
            pending.stream@,
            MAX_AGENT_TRANSCRIPT_ROWS_PER_PASS - self.pass_rows - self.chunk@.len() - 1,
        )
    }

    /// The pass after a read: what stops the chunk is noted, and nothing else
    /// changes.
    pub open spec fn after_read(self, read: Result<ReadView, TailError>) -> Self {
        match read {
            Ok(ReadView::Line { source_offset_bytes, .. }) => if self.next_line_no()
                > u64::MAX {
                TranscriptPass {
                    pending_error: Some(PassError::LineNumberOverflow {
                            source_offset_bytes: source_offset_bytes as u64,
                        }),
                    ..self
                }
            } else {
                self
            },
            Ok(ReadView::SnapshotEof) => TranscriptPass {
                reached_snapshot_eof: true,
                ..self
            },
            Ok(ReadView::IncompleteTail { .. }) => TranscriptPass {
                incomplete_tail: true,
                ..self
            },
            Ok(ReadView::Cancelled) => TranscriptPass { cancelled: true, ..self },
            Err(error) => TranscriptPass {
                pending_error: Some(PassError::Source(SourceError::Tail(error))),
                ..self
            },
        }
    }

    /// Takes what the reader gave. A line is parsed, against the state of the
    /// stream after the chunk; anything else ends the chunk.
    pub fn take_read(
        &mut self,
        read: Result<BoundedTailRead, TailError>,
        rules: &TranscriptRules,
    ) -> (pending: Option<PendingLine>)
        requires
            old(self).wf(),
            old(self).takes_line(),
            read matches Ok(BoundedTailRead::Line { consumed_bytes, source_offset_bytes, .. }) ==> {
                &&& source_offset_bytes == old(self).next_offset()
                &&& consumed_bytes > 0
                &&& source_offset_bytes + consumed_bytes <= old(self).snapshot_size_bytes
            },
        ensures
            final(self).wf(),
            *final(self) == old(self).after_read(tail::read_view(read)),
            match read {
                Ok(BoundedTailRead::Line { bytes, consumed_bytes, .. }) => if old(self).next_line_no() > u64::MAX {
                    pending is None
                } else {
                    pending matches Some(line) && final(self).is_next(line) && line.consumed_bytes
                        == consumed_bytes && (line.stream@, line.record@) == lines::record_of_line(
                        bytes@,
                        old(self).next_line_no() as u64,
                        old(self).cursor@.spawn_id,
                        old(self).cursor@.source,
                        old(self).cursor@.source_epoch_unix_ms,
                        old(self).stream@,
                        rules@,
                    )
                },
                _ => pending is None,
            },
    {
        match read {
            Err(error) => {
                self.pending_error = Some(PassError::Source(SourceError::Tail(error)));
                None
            },
            Ok(BoundedTailRead::SnapshotEof) => {
                self.reached_snapshot_eof = true;
                None
            },
            Ok(BoundedTailRead::IncompleteTail { .. }) => {
                self.incomplete_tail = true;
                None
            },
            Ok(BoundedTailRead::Cancelled) => {
                self.cancelled = true;
                None
            },
            Ok(BoundedTailRead::Line { bytes, consumed_bytes, source_offset_bytes }) => {
                let ingested: u64 = self.cursor.lines_ingested + self.chunk.len() as u64;
                if ingested == u64::MAX {
                    self.pending_error = Some(
                        PassError::LineNumberOverflow { source_offset_bytes },
                    );
                    return None;
                }
                let line_no: u64 = ingested + 1;
                let mut working = self.cursor.clone();
                working.stream = self.stream.clone();
                let record = parse_line(bytes.as_slice(), line_no, &mut working, rules);
                proof {
                    lines::law_every_line_has_its_row(
                        bytes@,
                        line_no,
                        self.cursor@.spawn_id,
                        self.cursor@.source,
                        self.cursor@.source_epoch_unix_ms,
                        self.stream@,
                        rules@,
                    );
                    if self.cursor@.source != TranscriptSource::LocalModelJson
                        && self.cursor@.source
                        != TranscriptSource::ClaudeSessionJsonl {
                        lines::law_turns_are_counted(
                            bytes@,
                            line_no,
                            self.cursor@.spawn_id,
                            self.cursor@.source,
                            self.cursor@.source_epoch_unix_ms,
                            self.stream@,
                            rules@,
                        );
                    }
                }
                Some(
                    PendingLine {
                        record,
                        stream: working.stream,
                        source_offset_bytes,
                        consumed_bytes,
                    },
                )
            },
        }
    }

    /// Adds an encoded line to the chunk. Where the row is not valid, cannot be
    /// encoded or is too large, the chunk ends before the line, and the stream
    /// stays as it was before it.
    pub fn add_row(&mut self, pending: PendingLine, encoding: RowEncoding)
        requires
            old(self).wf(),
            old(self).takes_line(),
            old(self).is_next(pending),
        ensures
            final(self).wf(),
            final(self).same_progress(*old(self)),
            final(self).reached_snapshot_eof == old(self).reached_snapshot_eof,
            final(self).incomplete_tail == old(self).incomplete_tail,
            final(self).cancelled == old(self).cancelled,
            final(self).pending_error == row_refusal(pending.record.line_no, encoding),
            if row_refusal(pending.record.line_no, encoding) is Some {
                &&& final(self).chunk == old(self).chunk
                &&& final(self).stream == old(self).stream
                &&& final(self).pass_source_bytes == old(self).pass_source_bytes
            } else {
                &&& final(self).chunk@ == old(self).chunk@.push(encoded_row(pending, encoding))
                &&& final(self).stream == pending.stream
                &&& final(self).pass_source_bytes == source_bytes_after(
                    old(self).pass_source_bytes,
                    pending.consumed_bytes,
                )
            },
    {
        let line_no: u64 = pending.record.line_no;
        match encoding {
            RowEncoding::ValidationFailed => {
                self.pending_error = Some(PassError::RowValidationFailed { line_no });
            },
            RowEncoding::EncodeFailed => {
                self.pending_error = Some(PassError::RowEncodeFailed { line_no });
            },
            RowEncoding::Encoded { source_key, encoded, ts_index_key } => {
                if encoded.len() > MAX_AGENT_TRANSCRIPT_VALUE_BYTES {
                    self.pending_error = Some(
                        PassError::RowOversized { line_no, encoded_bytes: encoded.len() },
                    );
                    return ;
                }
                let before: Ghost<Seq<PreparedTranscriptRow>> = Ghost(self.chunk@);
                match pending.record.status {
                    TranscriptParseStatus::Parsed => {
                        self.chunk_parsed = self.chunk_parsed + 1;
                    },
                    TranscriptParseStatus::Invalid => {
                        self.chunk_invalid = self.chunk_invalid + 1;
                    },
                }
                self.chunk_bytes = self.chunk_bytes + pending.consumed_bytes;
                self.pass_source_bytes = self.pass_source_bytes.saturating_add(
                    pending.consumed_bytes,
                );
                self.stream = pending.stream;
                self.chunk.push(
                    PreparedTranscriptRow {
                        source_key,
                        encoded,
                        ts_index_key,
                        record: pending.record,
                        source_offset_bytes: pending.source_offset_bytes,
                        consumed_bytes: pending.consumed_bytes,
                    },
                );
                proof {
                    assert(self.chunk@.drop_last() =~= before@);
                    assert forall|i: int| 0 <= i < self.chunk@.len() implies {
                        &&& (#[trigger] self.chunk@[i]).record.spawn_id@ == self.cursor@.spawn_id
                        &&& self.chunk@[i].record.line_no == self.cursor@.lines_ingested + 1 + i
                        &&& self.chunk@[i].source_offset_bytes == self.cursor@.offset_bytes
                            + bytes_of(self.chunk@.subrange(0, i))
                        &&& self.chunk@[i].consumed_bytes > 0
                        &&& self.chunk@[i].encoded@.len() <= MAX_AGENT_TRANSCRIPT_VALUE_BYTES
                    } by {
                        assert(self.chunk@.subrange(0, i) =~= before@.subrange(0, i));
                        if i < before@.len() {
                            assert(before@[i] == self.chunk@[i]);
                        } else {
                            assert(before@.subrange(0, i) =~= before@);
                        }
                    }
                }
            },
        }
    }
}

/// How a pass goes on once a chunk takes no more lines.
#[derive(Clone, Copy, Debug, PartialEq, Eq, Structural)]
pub enum ChunkVerdict {
    /// The pass is over; the chunk is dropped.
    Stop,
    /// The spawn is parked.
    Stick(PassError),
    /// The chunk is committed.
    Commit,
}

/// How a pass goes on once a chunk counts.
#[derive(Clone, Copy, Debug, PartialEq, Eq, Structural)]
pub enum AfterChunk {
    Continue,
    Stop,
    Stick(PassError),
}

/// What becomes of a chunk that was committed.
#[derive(Debug)]
pub enum SettledChunk {
    /// The cursor that covers the chunk, to be stored.
    Store(TranscriptCursor),
    /// The spawn is parked at the cursor before the chunk.
    Stick(PassError),
    /// The pass fails with the cursor before the chunk.
    Fail(PassError),
}

/// The cursor that covers a chunk, before the source is held against it.
pub open spec fn covered(pass: TranscriptPass) -> Result<CursorView, PassError> {
    if pass.cursor@.parsed_rows + pass.chunk_parsed > u64::MAX {
        Err(PassError::ParsedCounterOverflow)
    } else if pass.cursor@.invalid_rows + pass.chunk_invalid > u64::MAX {
        Err(PassError::InvalidCounterOverflow)
    } else {
        Ok(
            CursorView {
                offset_bytes: (pass.cursor@.offset_bytes + pass.chunk_bytes) as u64,
                lines_ingested: (pass.cursor@.lines_ingested + pass.chunk@.len()) as u64,
                parsed_rows: (pass.cursor@.parsed_rows + pass.chunk_parsed) as u64,
                invalid_rows: (pass.cursor@.invalid_rows + pass.chunk_invalid) as u64,
                stream: pass.stream@,
                ..pass.cursor@
            },
        )
    }
}

/// The cursor that covers a chunk, with the fingerprint and the boundary of its
/// source.
pub open spec fn anchored(
    cursor: CursorView,
    snapshot_size_bytes: u64,
    fingerprint: FingerprintEvidence,
    boundary: RangeRead,
    now_ns: u64,
) -> Result<CursorView, SourceError> {
    match source::ensured_fingerprint(
        cursor.fingerprint,
        cursor.spawn_id,
        snapshot_size_bytes,
        cursor.offset_bytes,
        fingerprint,
    ) {
        Err(error) => Err(error),
        Ok(print) => match source::boundary_spec(snapshot_size_bytes, cursor.offset_bytes, boundary) {
            Err(error) => Err(error),
            Ok(edge) => Ok(
                CursorView {
                    fingerprint: print,
                    boundary: edge,
                    updated_ts_ns: now_ns,
                    ..cursor
                },
            ),
        },
    }
}

impl TranscriptPass {
    /// Decides over a chunk that takes no more lines. Where the pass was
    /// cancelled, nothing of the chunk counts.
    pub fn judge_chunk(&mut self, cancelled: bool) -> (verdict: ChunkVerdict)
        requires
            old(self).wf(),
        ensures
            verdict == (if old(self).cancelled {
                ChunkVerdict::Stop
            } else if old(self).chunk@.len() == 0 {
                match old(self).pending_error {
                    Some(error) => ChunkVerdict::Stick(error),
                    None => ChunkVerdict::Stop,
                }
            } else if cancelled {
                ChunkVerdict::Stop
            } else {
                ChunkVerdict::Commit
            }),
            final(self).cancelled == (old(self).cancelled || (old(self).chunk@.len() > 0
                && cancelled)),
            *final(self) == (TranscriptPass { cancelled: final(self).cancelled, ..*old(self) }),
            final(self).wf(),
    {
        if self.cancelled {
            return ChunkVerdict::Stop;
        }
        if self.chunk.len() == 0 {
            return match self.pending_error {
                Some(error) => ChunkVerdict::Stick(error),
                None => ChunkVerdict::Stop,
            };
        }
        if cancelled {
            self.cancelled = true;
            return ChunkVerdict::Stop;
        }
        ChunkVerdict::Commit
    }

    /// Moves the cursor behind a chunk that was committed. The fingerprint is
    /// taken once and held from then on; the boundary moves with the cursor.
    pub fn settle_chunk(
        &self,
        fingerprint: &FingerprintEvidence,
        boundary: &RangeRead,
        now_ns: u64,
    ) -> (settled: SettledChunk)
        requires
            self.wf(),
            self.chunk@.len() > 0,
        ensures
            match covered(*self) {
                Err(error) => settled matches SettledChunk::Fail(given) && given == error,
                Ok(next) => match anchored(
                    next,
                    self.snapshot_size_bytes,
                    *fingerprint,
                    *boundary,
                    now_ns,
                ) {
                    Err(error) => settled matches SettledChunk::Stick(given) && given
                        == PassError::Source(error),
                    Ok(found) => settled matches SettledChunk::Store(cursor) && cursor@ == found,
                },
            },
    {
        let mut next = self.cursor.clone();
        next.stream = self.stream.clone();
        next.lines_ingested = next.lines_ingested + self.chunk.len() as u64;
        next.offset_bytes = next.offset_bytes + self.chunk_bytes;
        next.parsed_rows = match next.parsed_rows.checked_add(self.chunk_parsed) {
            Some(rows) => rows,
            None => {
                return SettledChunk::Fail(PassError::ParsedCounterOverflow);
            },
        };
        next.invalid_rows = match next.invalid_rows.checked_add(self.chunk_invalid) {
            Some(rows) => rows,
            None => {
                return SettledChunk::Fail(PassError::InvalidCounterOverflow);
            },
        };
        let offset: u64 = next.offset_bytes;
        if let Err(error) = ensure_transcript_source_fingerprint(
            &mut next.fingerprint,
            next.spawn_id.as_str(),
            self.snapshot_size_bytes,
            offset,
            fingerprint,
        ) {
            return SettledChunk::Stick(PassError::Source(error));
        }
        if let Err(error) = refresh_transcript_source_boundary(
            &mut next.boundary,
            self.snapshot_size_bytes,
            offset,
            boundary,
        ) {
            return SettledChunk::Stick(PassError::Source(error));
        }
        next.updated_ts_ns = now_ns;
        SettledChunk::Store(next)
    }

    /// Goes on from a chunk whose cursor was stored.
    pub fn adopt(&mut self, stored: TranscriptCursor) -> (after: AfterChunk)
        requires
            old(self).wf(),
            old(self).chunk@.len() > 0,
            covered(*old(self)) is Ok,
            stored@.offset_bytes == covered(*old(self))->Ok_0.offset_bytes,
            stored@.lines_ingested == covered(*old(self))->Ok_0.lines_ingested,
            stored@.stream == old(self).stream@,
            stored@.spawn_id == old(self).cursor@.spawn_id,
            stored@.source == old(self).cursor@.source,
        ensures
            final(self).wf(),
            final(self).cursor == stored,
            final(self).chunk@.len() == 0,
            final(self).stream@ == stored@.stream,
            final(self).pass_rows == old(self).pass_rows + old(self).chunk@.len(),
            final(self).new_parsed == old(self).new_parsed + old(self).chunk_parsed,
            final(self).new_invalid == old(self).new_invalid + old(self).chunk_invalid,
            final(self).pass_source_bytes == old(self).pass_source_bytes,
            final(self).snapshot_size_bytes == old(self).snapshot_size_bytes,
            final(self).reached_snapshot_eof == old(self).reached_snapshot_eof,
            final(self).cancelled == old(self).cancelled,
            final(self).pending_error is None,
            !final(self).incomplete_tail,
            after == (match old(self).pending_error {
                Some(error) => AfterChunk::Stick(error),
                None => if old(self).reached_snapshot_eof || old(self).incomplete_tail {
                    AfterChunk::Stop
                } else {
                    AfterChunk::Continue
                },
            }),
    {
        let after = match self.pending_error {
            Some(error) => AfterChunk::Stick(error),
            None => if self.reached_snapshot_eof || self.incomplete_tail {
                AfterChunk::Stop
            } else {
                AfterChunk::Continue
            },
        };
        self.pass_rows = self.pass_rows + self.chunk.len();
        self.new_parsed = self.new_parsed + self.chunk_parsed;
        self.new_invalid = self.new_invalid + self.chunk_invalid;
        self.cursor = stored;
        self.chunk = Vec::new();
        self.chunk_parsed = 0;
        self.chunk_invalid = 0;
        self.chunk_bytes = 0;
        self.pending_error = None;
        self.incomplete_tail = false;
        after
    }

    /// What the pass did.
    pub fn outcome(&self) -> (outcome: SpawnIngestOutcome)
        ensures
            outcome == (SpawnIngestOutcome {
                new_parsed_rows: self.new_parsed,
                new_invalid_rows: self.new_invalid,
                lines_ingested_total: self.cursor@.lines_ingested,
                source_complete: self.cursor@.source_complete,
                deferred_for_pressure: false,
                skipped: false,
                cancelled: self.cancelled,
            }),
    {
        SpawnIngestOutcome {
            new_parsed_rows: self.new_parsed,
            new_invalid_rows: self.new_invalid,
            lines_ingested_total: self.cursor.lines_ingested,
            source_complete: self.cursor.source_complete,
            deferred_for_pressure: false,
            skipped: false,
            cancelled: self.cancelled,
        }
    }

    /// Whether the source may be complete: it was to be finalized, and all of the
    /// snapshot was read.
    pub fn may_complete(&self, finalize: bool) -> (may: bool)
        ensures
            may == (finalize && self.reached_snapshot_eof && !self.cancelled),
    {
        finalize && self.reached_snapshot_eof && !self.cancelled
    }
}

/// How a pass that read all of its snapshot ends.
#[derive(Clone, Copy, Debug, PartialEq, Eq, Structural)]
pub enum FinishStep {
    Stick(PassError),
    /// The source has grown since; a later pass completes it.
    Rebased,
    /// The source is complete, and the cursor has to be stored.
    Completed,
}

/// Why a source counts as complete.
pub open spec fn completion_reason(completion_terminal: bool) -> Seq<char> {
    if completion_terminal {
        "completion_status_terminal"@
    } else {
        "finalized_at_teardown"@
    }
}

/// Completes a source that has not changed since its snapshot was read.
pub fn finish_source(
    cursor: &mut TranscriptCursor,
    final_size: Option<u64>,
    completion_terminal: bool,
    now_ns: u64,
) -> (step: FinishStep)
    ensures
        match final_size {
            None => step == FinishStep::Stick(PassError::FinalStatFailed) && final(cursor)@ == old(
                cursor,
            )@,
            Some(size) => if size < old(cursor)@.offset_bytes {
                step == FinishStep::Stick(PassError::SourceTruncated { file_size_bytes: size })
                    && final(cursor)@ == old(cursor)@
            } else if size > old(cursor)@.offset_bytes {
                step == FinishStep::Rebased && final(cursor)@ == old(cursor)@
            } else {
                step == FinishStep::Completed && final(cursor)@ == (CursorView {
                    source_complete: true,
                    completed_reason: Some(completion_reason(completion_terminal)),
                    updated_ts_ns: now_ns,
                    ..old(cursor)@
                })
            },
        },
{
    let size: u64 = match final_size {
        Some(size) => size,
        None => {
            return FinishStep::Stick(PassError::FinalStatFailed);
        },
    };
    if size < cursor.offset_bytes {
        return FinishStep::Stick(PassError::SourceTruncated { file_size_bytes: size });
    }
    if size > cursor.offset_bytes {
        return FinishStep::Rebased;
    }
    cursor.source_complete = true;
    cursor.completed_reason = Some(
        if completion_terminal {
            "completion_status_terminal".to_owned()
        } else {
            "finalized_at_teardown".to_owned()
        },
    );
    cursor.updated_ts_ns = now_ns;
    FinishStep::Completed
}

/// Why the rows at the ends of a transcript do not bear out its cursor.
#[derive(Clone, Copy, Debug, PartialEq, Eq, Structural)]
pub enum ReadbackError {
    CounterOverflow,
    CounterMismatch,
    RowReadFailed { line_no: u64 },
    RowMissing { line_no: u64 },
    RowUndecodable { line_no: u64 },
    RowIdentityMismatch { line_no: u64 },
    RowInvalid { line_no: u64 },
}

/// What is stored for the row of a line.
#[derive(Debug)]
pub struct EndRow {
    pub row: CoveredRow,
    /// Whether the row is valid in itself.
    pub valid: bool,
}

/// Why the row of a line does not bear out the cursor, if it does not.
pub open spec fn end_row_refusal(end: EndRow, spawn_id: Seq<char>, line_no: u64) -> Option<
    ReadbackError,
> {
    match end.row {
        CoveredRow::Failed => Some(ReadbackError::RowReadFailed { line_no }),
        CoveredRow::Missing => Some(ReadbackError::RowMissing { line_no }),
        CoveredRow::Undecodable => Some(ReadbackError::RowUndecodable { line_no }),
        CoveredRow::Row(row) => if row.spawn_id@ != spawn_id || row.line_no != line_no {
            Some(ReadbackError::RowIdentityMismatch { line_no })
        } else if !end.valid {
            Some(ReadbackError::RowInvalid { line_no })
        } else {
            None
        },
    }
}

fn check_end_row(end: &EndRow, spawn_id: &str, line_no: u64) -> (refusal: Option<ReadbackError>)
    ensures
        refusal == end_row_refusal(*end, spawn_id@, line_no),
{
    match &end.row {
        CoveredRow::Failed => Some(ReadbackError::RowReadFailed { line_no }),
        CoveredRow::Missing => Some(ReadbackError::RowMissing { line_no }),
        CoveredRow::Undecodable => Some(ReadbackError::RowUndecodable { line_no }),
        CoveredRow::Row(row) => if !str_equal(row.spawn_id.as_str(), spawn_id) || row.line_no
            != line_no {
            Some(ReadbackError::RowIdentityMismatch { line_no })
        } else if !end.valid {
            Some(ReadbackError::RowInvalid { line_no })
        } else {
            None
        },
    }
}

/// Why the rows at the ends of a transcript do not bear out its cursor, if they
/// do not.
pub open spec fn boundary_rows_refusal(cursor: CursorView, first: EndRow, last: EndRow) -> Option<
    ReadbackError,
> {
    if cursor.parsed_rows + cursor.invalid_rows > u64::MAX {
        Some(ReadbackError::CounterOverflow)
    } else if cursor.parsed_rows + cursor.invalid_rows != cursor.lines_ingested {
        Some(ReadbackError::CounterMismatch)
    } else if cursor.lines_ingested == 0 {
        None
    } else {
        match end_row_refusal(first, cursor.spawn_id, 1) {
            Some(error) => Some(error),
            None => end_row_refusal(last, cursor.spawn_id, cursor.lines_ingested),
        }
    }
}

/// Holds the first and the last row of a transcript against its cursor.
pub fn verify_transcript_cursor_boundary(
    cursor: &TranscriptCursor,
    first: &EndRow,
    last: &EndRow,
) -> (verified: Result<(), ReadbackError>)
    ensures
        verified == (match boundary_rows_refusal(cursor@, *first, *last) {
            Some(error) => Err::<(), ReadbackError>(error),
            None => Ok(()),
        }),
{
    match cursor.parsed_rows.checked_add(cursor.invalid_rows) {
        None => {
            return Err(ReadbackError::CounterOverflow);
        },
        Some(counted) => {
            if counted != cursor.lines_ingested {
                return Err(ReadbackError::CounterMismatch);
            }
        },
    }
    if cursor.lines_ingested == 0 {
        return Ok(());
    }
    if let Some(error) = check_end_row(first, cursor.spawn_id.as_str(), 1) {
        return Err(error);
    }
    match check_end_row(last, cursor.spawn_id.as_str(), cursor.lines_ingested) {
        Some(error) => Err(error),
        None => Ok(()),
    }
}

/// What looking for the end state of a spawn gave.
#[derive(Debug)]
pub enum EndState {
    Failed,
    /// The spawn has no terminal event yet.
    Absent,
    Anchored(String),
}

/// How the end state of a spawn is anchored.
#[derive(Debug)]
pub enum AnchorStep {
    Stick(PassError),
    /// The rows were anchored before, or there is nothing to anchor them to.
    Settled(Option<String>),
    /// The rows are anchored to this outcome, and the cursor has to be stored.
    Store(String),
}

/// Whether all rows of a cursor are anchored.
pub open spec fn is_anchored(cursor: CursorView) -> bool {
    cursor.end_state_anchor_rows == Some(cursor.lines_ingested)
        && cursor.end_state_anchor_outcome is Some
}

/// Whether the end state of a spawn still has to be looked for, once the rows of
/// its transcript bear out the cursor.
pub fn needs_anchor(cursor: &TranscriptCursor) -> (needs: bool)
    ensures
        needs == !is_anchored(cursor@),
{
    match cursor.end_state_anchor_rows {
        Some(rows) => !(rows == cursor.lines_ingested && cursor.end_state_anchor_outcome.is_some()),
        None => true,
    }
}

/// Anchors the rows of a completed transcript to how the spawn ended.
pub fn ensure_completed_spawn_end_state_anchored(
    cursor: &mut TranscriptCursor,
    first: &EndRow,
    last: &EndRow,
    end_state: EndState,
    now_ns: u64,
) -> (step: AnchorStep)
    ensures
        match boundary_rows_refusal(old(cursor)@, *first, *last) {
            Some(error) => step == AnchorStep::Stick(PassError::Readback(error)) && final(cursor)@
                == old(cursor)@,
            None => if is_anchored(old(cursor)@) {
                (step matches AnchorStep::Settled(outcome) && text::opt_text(outcome) == old(
                    cursor,
                )@.end_state_anchor_outcome) && final(cursor)@ == old(cursor)@
            } else {
                match end_state {
                    EndState::Failed => step == AnchorStep::Stick(PassError::EndStateAnchorFailed)
                        && final(cursor)@ == old(cursor)@,
                    EndState::Absent => step == AnchorStep::Settled(None) && final(cursor)@ == old(
                        cursor,
                    )@,
                    EndState::Anchored(outcome) => (step matches AnchorStep::Store(given) && given@
                        == outcome@) && final(cursor)@ == (CursorView {
                        end_state_anchor_outcome: Some(outcome@),
                        end_state_anchor_rows: Some(old(cursor)@.lines_ingested),
                        updated_ts_ns: now_ns,
                        ..old(cursor)@
                    }),
                }
            },
        },
{
    if let Err(error) = verify_transcript_cursor_boundary(cursor, first, last) {
        return AnchorStep::Stick(PassError::Readback(error));
    }
    if !needs_anchor(cursor) {
        return AnchorStep::Settled(cursor.end_state_anchor_outcome.clone());
    }
    match end_state {
        EndState::Failed => AnchorStep::Stick(PassError::EndStateAnchorFailed),
        EndState::Absent => AnchorStep::Settled(None),
        EndState::Anchored(outcome) => {
            cursor.end_state_anchor_outcome = Some(outcome.clone());
            cursor.end_state_anchor_rows = Some(cursor.lines_ingested);
            cursor.updated_ts_ns = now_ns;
            AnchorStep::Store(outcome)
        },
    }
}

/// Covering a chunk keeps the count: every ingested line is a parsed or an
/// invalid row. The cursor moves by exactly the bytes of the chunk, and never
/// past the snapshot.
pub proof fn law_cursors_reconcile(pass: TranscriptPass)
    requires
        pass.wf(),
        pass.cursor@.reconciles(),
        covered(pass) is Ok,
    ensures
        covered(pass)->Ok_0.reconciles(),
        covered(pass)->Ok_0.offset_bytes == pass.cursor@.offset_bytes + bytes_of(pass.chunk@),
        covered(pass)->Ok_0.offset_bytes <= pass.snapshot_size_bytes,
        covered(pass)->Ok_0.lines_ingested == pass.cursor@.lines_ingested + pass.chunk@.len(),
{
    lemma_rows_take_bytes(
        pass.chunk@,
        pass.cursor@.spawn_id,
        pass.cursor@.lines_ingested,
        pass.cursor@.offset_bytes,
    );
}

/// Rows that follow each other take at least a byte each.
pub proof fn lemma_rows_take_bytes(
    rows: Seq<PreparedTranscriptRow>,
    spawn_id: Seq<char>,
    lines_ingested: u64,
    offset_bytes: u64,
)
    requires
        rows_tile(rows, spawn_id, lines_ingested, offset_bytes),
    ensures
        bytes_of(rows) >= rows.len(),
    decreases rows.len(),
{
    if rows.len() > 0 {
        let shorter = rows.drop_last();
        assert forall|i: int| 0 <= i < shorter.len() implies {
            &&& (#[trigger] shorter[i]).record.spawn_id@ == spawn_id
            &&& shorter[i].record.line_no == lines_ingested + 1 + i
            &&& shorter[i].source_offset_bytes == offset_bytes + bytes_of(shorter.subrange(0, i))
            &&& shorter[i].consumed_bytes > 0
            &&& shorter[i].encoded@.len() <= MAX_AGENT_TRANSCRIPT_VALUE_BYTES
        } by {
            assert(rows[i] == shorter[i]);
            assert(rows.subrange(0, i) =~= shorter.subrange(0, i));
        }
        lemma_rows_take_bytes(shorter, spawn_id, lines_ingested, offset_bytes);
        assert(rows[rows.len() - 1].consumed_bytes > 0);
    }
}

/// A source that shrank below its cursor parks the spawn, whatever else holds,
/// unless the spawn is parked or the pass cancelled already.
pub proof fn law_truncated_sources_are_parked(
    cursor: CursorView,
    discovered_path: Seq<char>,
    style: PathStyle,
    file_size_bytes: u64,
)
    requires
        same_path_spec(cursor.source_path, discovered_path, style),
        cursor.error is None,
        file_size_bytes < cursor.offset_bytes,
    ensures
        survey(cursor, discovered_path, style, false, SourceFile::Size(file_size_bytes))
            == SourceCheck::Stick(PassError::SourceTruncated { file_size_bytes }),
{
}

/// A parked spawn is skipped, and its cursor is left alone.
pub proof fn law_parked_spawns_are_skipped(
    cursor: CursorView,
    discovered_path: Seq<char>,
    style: PathStyle,
    file: SourceFile,
)
    requires
        same_path_spec(cursor.source_path, discovered_path, style),
        cursor.error is Some,
    ensures
        survey(cursor, discovered_path, style, false, file) == SourceCheck::Done(
            SpawnIngestOutcome { skipped: true, ..idle_outcome(cursor.lines_ingested) },
        ),
{
}

} // verus!
