//! One ingest pass over the transcript of one discovered session.
use crate::ambient::journal::AmbientCursorError;
use crate::ambient::outbox;
use crate::ambient::outbox::{Lifecycle, OutboxError};
use crate::ambient::relay::RelayError;
use crate::ambient::session;
use crate::ambient::session::parse_session_line;
use crate::ambient::tracking;
use crate::ambient::tracking::{AmbientCursor, AmbientEventOutbox, AmbientView, SessionState};
use crate::roots::{PathStyle, same_path, same_path_spec};
use crate::text::str_equal;
use crate::transcripts::chunk::{
    MAX_AGENT_TRANSCRIPT_COMMIT_ROWS, MAX_AGENT_TRANSCRIPT_VALUE_BYTES, PreparedTranscriptRow,
};
use crate::transcripts::ingest;
use crate::transcripts::ingest::{
    MAX_AGENT_TRANSCRIPT_ROWS_PER_PASS, MAX_AGENT_TRANSCRIPT_SOURCE_BYTES_PER_PASS, PassError,
    RowEncoding, SourceFile,
};
use crate::transcripts::lines::AgentTranscriptRecord;
use crate::transcripts::record::{TranscriptParseStatus, TranscriptRules};
use crate::transcripts::source;
use crate::transcripts::source::{
    BoundaryEvidence, FingerprintEvidence, RangeRead, SourceError,
    ensure_transcript_source_boundary, ensure_transcript_source_fingerprint,
    refresh_transcript_source_boundary,
};
use crate::transcripts::tail;
use crate::transcripts::tail::{BoundedTailRead, ReadView, TailError};
use vstd::prelude::*;
use vstd::string::*;

verus! {

/// Why a pass over a session stops.
#[derive(Clone, Copy, Debug, PartialEq, Eq, Structural)]
pub enum SessionError {
    SourceIdentityMismatch,
    Pass(PassError),
    Cursor(AmbientCursorError),
    Outbox(OutboxError),
    RegistrationMissing,
    Relay(RelayError),
    Reconcile(RelayError),
}

/// What one pass did.
#[derive(Clone, Copy, Debug, PartialEq, Eq, Structural)]
pub struct SessionIngestOutcome {
    pub new_parsed_rows: u64,
    pub new_invalid_rows: u64,
    pub newly_registered: bool,
    pub deferred_for_pressure: bool,
    pub skipped: bool,
    pub cancelled: bool,
}

/// The outcome of a pass that ingested nothing.
pub open spec fn idle_session(newly_registered: bool) -> SessionIngestOutcome {
    SessionIngestOutcome {
        new_parsed_rows: 0,
        new_invalid_rows: 0,
        newly_registered,
        deferred_for_pressure: false,
        skipped: false,
        cancelled: false,
    }
}

fn idle_outcome_of(newly_registered: bool) -> (outcome: SessionIngestOutcome)
    ensures
        outcome == idle_session(newly_registered),
{
    SessionIngestOutcome {
        new_parsed_rows: 0,
        new_invalid_rows: 0,
        newly_registered,
        deferred_for_pressure: false,
        skipped: false,
        cancelled: false,
    }
}

/// How a pass over a session begins.
#[derive(Clone, Copy, Debug, PartialEq, Eq, Structural)]
pub enum SessionStart {
    Stick(SessionError),
    Done(SessionIngestOutcome),
    /// What the cursor owes the journal comes first, then its checkpoint.
    Go { relay: bool, reconcile: bool },
}

/// Begins a pass over a session: the cursor must be that of the session and of
/// its file.
pub fn begin_session(
    cursor: &AmbientCursor,
    session_id: &str,
    source_path: &str,
    style: PathStyle,
    cancelled: bool,
) -> (start: SessionStart)
    ensures
        start == (if !same_path_spec(cursor@.source_path, source_path@, style) || cursor@.session_id
            != session_id@ {
            SessionStart::Stick(SessionError::SourceIdentityMismatch)
        } else if cancelled {
            SessionStart::Done(SessionIngestOutcome { cancelled: true, ..idle_session(false) })
        } else {
            SessionStart::Go {
                relay: cursor@.pending_event_outbox is Some,
                reconcile: cursor@.projection_checkpoint is Some,
            }
        }),
{
    if !same_path(cursor.source_path.as_str(), source_path, style) || !str_equal(
        cursor.session_id.as_str(),
        session_id,
    ) {
        return SessionStart::Stick(SessionError::SourceIdentityMismatch);
    }
    if cancelled {
        let mut outcome = idle_outcome_of(false);
        outcome.cancelled = true;
        return SessionStart::Done(outcome);
    }
    SessionStart::Go {
        relay: cursor.pending_event_outbox.is_some(),
        reconcile: cursor.projection_checkpoint.is_some(),
    }
}

/// How a pass over a session goes on.
#[derive(Clone, Copy, Debug, PartialEq, Eq, Structural)]
pub enum SessionCheck {
    Stick(SessionError),
    Done(SessionIngestOutcome),
    /// The source is the one that the cursor has seen. Where the cursor was
    /// given a fingerprint or a boundary, it is stored first.
    Ready { file_size_bytes: u64, store: bool },
}

/// What the check of a source says before it looks into the source.
pub open spec fn session_survey(
    cursor: AmbientView,
    newly_registered: bool,
    file: SourceFile,
) -> SessionCheck {
    if cursor.error is Some {
        SessionCheck::Done(
            SessionIngestOutcome { skipped: true, ..idle_session(newly_registered) },
        )
    } else {
        match file {
            SourceFile::StatFailed => SessionCheck::Stick(
                SessionError::Pass(PassError::SourceStatFailed),
            ),
            SourceFile::NotFile => SessionCheck::Stick(
                SessionError::Pass(PassError::SourceNotFile),
            ),
            SourceFile::Size(file_size_bytes) => if file_size_bytes < cursor.offset_bytes {
                SessionCheck::Stick(
                    SessionError::Pass(PassError::SourceTruncated { file_size_bytes }),
                )
            } else {
                SessionCheck::Ready { file_size_bytes, store: false }
            },
        }
    }
}

/// Looks at the source before anything of it is read.
pub fn survey_session(cursor: &AmbientCursor, newly_registered: bool, file: SourceFile) -> (check:
    SessionCheck)
    ensures
        check == session_survey(cursor@, newly_registered, file),
{
    if cursor.error.is_some() {
        let mut outcome = idle_outcome_of(newly_registered);
        outcome.skipped = true;
        return SessionCheck::Done(outcome);
    }
    match file {
        SourceFile::StatFailed => SessionCheck::Stick(
            SessionError::Pass(PassError::SourceStatFailed),
        ),
        SourceFile::NotFile => SessionCheck::Stick(SessionError::Pass(PassError::SourceNotFile)),
        SourceFile::Size(file_size_bytes) => if file_size_bytes < cursor.offset_bytes {
            SessionCheck::Stick(SessionError::Pass(PassError::SourceTruncated { file_size_bytes }))
        } else {
            SessionCheck::Ready { file_size_bytes, store: false }
        },
    }
}

/// The cursor after the source was held against it, or why it does not match.
pub open spec fn matched_session(
    cursor: AmbientView,
    file_size_bytes: u64,
    fingerprint: FingerprintEvidence,
    boundary: BoundaryEvidence,
) -> Result<AmbientView, SourceError> {
    match source::ensured_fingerprint(
        cursor.fingerprint,
        cursor.spawn_id,
        file_size_bytes,
        cursor.offset_bytes,
        fingerprint,
    ) {
        Err(error) => Err(error),
        Ok(print) => match source::ensured_boundary(
            cursor.boundary,
            cursor.spawn_id,
            file_size_bytes,
            cursor.offset_bytes,
            cursor.lines_ingested,
            boundary,
        ) {
            Err(error) => Err(error),
            Ok(edge) => Ok(AmbientView { fingerprint: print, boundary: edge, ..cursor }),
        },
    }
}

/// The cursor that an unmatched source leaves: only the fingerprint may have
/// been filled in.
pub open spec fn unmatched_session(
    cursor: AmbientView,
    file_size_bytes: u64,
    fingerprint: FingerprintEvidence,
) -> AmbientView {
    match source::ensured_fingerprint(
        cursor.fingerprint,
        cursor.spawn_id,
        file_size_bytes,
        cursor.offset_bytes,
        fingerprint,
    ) {
        Err(_) => cursor,
        Ok(print) => AmbientView { fingerprint: print, ..cursor },
    }
}

/// Whether a cursor lacks the fingerprint or the boundary that it should have.
pub open spec fn lacks_identity(cursor: AmbientView) -> bool {
    cursor.offset_bytes != 0 && (cursor.fingerprint.bytes is None || cursor.boundary.sha256 is None)
}

/// Holds the source against the cursor. A cursor that was given a fingerprint or
/// a boundary by that is stamped and has to be stored.
pub fn match_session_source(
    cursor: &mut AmbientCursor,
    file_size_bytes: u64,
    fingerprint: &FingerprintEvidence,
    boundary: &BoundaryEvidence,
    now_ns: u64,
) -> (check: SessionCheck)
    ensures
        match matched_session(old(cursor)@, file_size_bytes, *fingerprint, *boundary) {
            Err(error) => {
                &&& check == SessionCheck::Stick(SessionError::Pass(PassError::Source(error)))
                &&& final(cursor)@ == unmatched_session(old(cursor)@, file_size_bytes, *fingerprint)
            },
            Ok(found) => {
                &&& check == (SessionCheck::Ready {
                    file_size_bytes,
                    store: lacks_identity(old(cursor)@),
                })
                &&& final(cursor)@ == (if lacks_identity(old(cursor)@) {
                    AmbientView { updated_ts_ns: now_ns, ..found }
                } else {
                    found
                })
            },
        },
        final(cursor)@.offset_bytes == old(cursor)@.offset_bytes,
        final(cursor)@.lines_ingested == old(cursor)@.lines_ingested,
        final(cursor)@.pending_event_outbox == old(cursor)@.pending_event_outbox,
{
    let offset: u64 = cursor.offset_bytes;
    let print_changed: bool = match ensure_transcript_source_fingerprint(
        &mut cursor.fingerprint,
        cursor.spawn_id.as_str(),
        file_size_bytes,
        offset,
        fingerprint,
    ) {
        Ok(changed) => changed,
        Err(error) => {
            return SessionCheck::Stick(SessionError::Pass(PassError::Source(error)));
        },
    };
    let edge_changed: bool = match ensure_transcript_source_boundary(
        &mut cursor.boundary,
        cursor.spawn_id.as_str(),
        file_size_bytes,
        offset,
        cursor.lines_ingested,
        boundary,
    ) {
        Ok(changed) => changed,
        Err(error) => {
            return SessionCheck::Stick(SessionError::Pass(PassError::Source(error)));
        },
    };
    let store: bool = print_changed || edge_changed;
    if store {
        cursor.updated_ts_ns = now_ns;
    }
    SessionCheck::Ready { file_size_bytes, store }
}

/// Whether a pass over a session reads, and its outcome where it does not.
pub fn gate_session(
    cursor: &AmbientCursor,
    file_size_bytes: u64,
    newly_registered: bool,
    pressure_permits_write: bool,
) -> (done: Option<SessionIngestOutcome>)
    ensures
        done == (if file_size_bytes == cursor@.offset_bytes && cursor@.registered {
            Some(idle_session(newly_registered))
        } else if file_size_bytes > cursor@.offset_bytes && !pressure_permits_write {
            Some(
                SessionIngestOutcome {
                    deferred_for_pressure: true,
                    ..idle_session(newly_registered)
                },
            )
        } else {
            None
        }),
{
    if file_size_bytes == cursor.offset_bytes && cursor.registered {
        return Some(idle_outcome_of(newly_registered));
    }
    if file_size_bytes > cursor.offset_bytes && !pressure_permits_write {
        let mut outcome = idle_outcome_of(newly_registered);
        outcome.deferred_for_pressure = true;
        return Some(outcome);
    }
    None
}

/// A pass over a session file: what is committed, and the chunk that is being
/// made.
#[derive(Debug)]
pub struct SessionPass {
    /// The cursor as it is stored.
    pub cursor: AmbientCursor,
    pub snapshot_size_bytes: u64,
    pub pass_rows: usize,
    pub pass_source_bytes: u64,
    pub new_parsed: u64,
    pub new_invalid: u64,
    pub reached_snapshot_boundary: bool,
    pub cancelled: bool,
    /// The rows of the chunk.
    pub chunk: Vec<PreparedTranscriptRow>,
    /// The state of the session after the chunk.
    pub state: SessionState,
    pub chunk_parsed: u64,
    pub chunk_invalid: u64,
    pub chunk_bytes: u64,
    /// The last signal of the chunk.
    pub chunk_lifecycle: Option<Lifecycle>,
    /// The last signal of the pass.
    pub pending_lifecycle: Option<Lifecycle>,
    pub terminal_error: Option<PassError>,
}

/// A line of a session that was read and parsed, but is not yet part of the
/// chunk.
#[derive(Debug)]
pub struct PendingSessionLine {
    pub record: AgentTranscriptRecord,
    pub lifecycle: Option<Lifecycle>,
    pub state: SessionState,
    pub source_offset_bytes: u64,
    pub consumed_bytes: u64,
}

/// The row of a line that was encoded.
pub open spec fn session_row(pending: PendingSessionLine, encoding: RowEncoding) -> PreparedTranscriptRow {
    PreparedTranscriptRow {
        source_key: encoding->source_key,
        encoded: encoding->encoded,
        ts_index_key: encoding->ts_index_key,
        record: pending.record,
        source_offset_bytes: pending.source_offset_bytes,
        consumed_bytes: pending.consumed_bytes,
    }
}

impl SessionPass {
    /// What holds between any two steps of a pass.
    pub open spec fn wf(self) -> bool {
        &&& self.pass_rows + self.chunk@.len() <= MAX_AGENT_TRANSCRIPT_ROWS_PER_PASS
        &&& self.chunk@.len() <= MAX_AGENT_TRANSCRIPT_COMMIT_ROWS
        &&& self.new_parsed + self.new_invalid == self.pass_rows
        &&& self.chunk_parsed == ingest::rows_with(self.chunk@, TranscriptParseStatus::Parsed)
        &&& self.chunk_invalid == ingest::rows_with(self.chunk@, TranscriptParseStatus::Invalid)
        &&& self.chunk_parsed + self.chunk_invalid == self.chunk@.len()
        &&& self.chunk_bytes == ingest::bytes_of(self.chunk@)
        &&& self.cursor@.offset_bytes + self.chunk_bytes <= self.snapshot_size_bytes
        &&& self.cursor@.lines_ingested + self.chunk@.len() <= u64::MAX
        &&& ingest::rows_tile(
            self.chunk@,
            self.cursor@.spawn_id,
            self.cursor@.lines_ingested,
            self.cursor@.offset_bytes,
        )
        &&& self.state@.turn_index + (MAX_AGENT_TRANSCRIPT_ROWS_PER_PASS - self.pass_rows
            - self.chunk@.len()) <= u64::MAX
    }

    /// Nothing but the chunk differs.
    pub open spec fn same_progress(self, other: Self) -> bool {
        &&& self.cursor == other.cursor
        &&& self.snapshot_size_bytes == other.snapshot_size_bytes
        &&& self.pass_rows == other.pass_rows
        &&& self.new_parsed == other.new_parsed
        &&& self.new_invalid == other.new_invalid
        &&& self.pending_lifecycle == other.pending_lifecycle
    }

    /// The offset at which the next line of the source starts.
    pub open spec fn next_offset(self) -> int {
        self.cursor@.offset_bytes + self.chunk_bytes
    }

    /// The number of the line after the chunk.
    pub open spec fn next_line_no(self) -> int {
        self.cursor@.lines_ingested + self.chunk@.len() + 1
    }

    /// Starts a pass at the cursor.
    pub fn start(cursor: AmbientCursor, snapshot_size_bytes: u64) -> (pass: Self)
        requires
            cursor@.offset_bytes <= snapshot_size_bytes,
            cursor@.state.turn_index + MAX_AGENT_TRANSCRIPT_ROWS_PER_PASS <= u64::MAX,
        ensures
            pass.wf(),
            pass.cursor == cursor,
            pass.snapshot_size_bytes == snapshot_size_bytes,
            pass.chunk@.len() == 0,
            pass.state@ == cursor@.state,
            pass.pass_rows == 0,
            pass.pass_source_bytes == 0,
            pass.new_parsed == 0,
            pass.new_invalid == 0,
            pass.chunk_lifecycle is None,
            pass.pending_lifecycle is None,
            pass.terminal_error is None,
            !pass.reached_snapshot_boundary,
            !pass.cancelled,
    {
        let state = cursor.state.clone();
        SessionPass {
            cursor,
            snapshot_size_bytes,
            pass_rows: 0,
            pass_source_bytes: 0,
            new_parsed: 0,
            new_invalid: 0,
            reached_snapshot_boundary: false,
            cancelled: false,
            chunk: Vec::new(),
            state,
            chunk_parsed: 0,
            chunk_invalid: 0,
            chunk_bytes: 0,
            chunk_lifecycle: None,
            pending_lifecycle: None,
            terminal_error: None,
        }
    }

    /// Whether the pass has room for another chunk.
    pub fn wants_chunk(&self) -> (wants: bool)
        ensures
            wants == (self.pass_rows < MAX_AGENT_TRANSCRIPT_ROWS_PER_PASS && self.pass_source_bytes
                < MAX_AGENT_TRANSCRIPT_SOURCE_BYTES_PER_PASS),
    {
        self.pass_rows < MAX_AGENT_TRANSCRIPT_ROWS_PER_PASS && self.pass_source_bytes
            < MAX_AGENT_TRANSCRIPT_SOURCE_BYTES_PER_PASS
    }

    /// Whether the chunk takes another line.
    pub open spec fn takes_line(self) -> bool {
        &&& self.chunk@.len() < MAX_AGENT_TRANSCRIPT_COMMIT_ROWS
        &&& self.pass_rows + self.chunk@.len() < MAX_AGENT_TRANSCRIPT_ROWS_PER_PASS
        &&& self.pass_source_bytes < MAX_AGENT_TRANSCRIPT_SOURCE_BYTES_PER_PASS
        &&& self.terminal_error is None
        &&& !self.reached_snapshot_boundary
        &&& !self.cancelled
    }

    /// Whether the chunk takes another line.
    pub fn wants_line(&self) -> (wants: bool)
        requires
            self.wf(),
        ensures
            wants == self.takes_line(),
    {
        self.chunk.len() < MAX_AGENT_TRANSCRIPT_COMMIT_ROWS && self.pass_rows + self.chunk.len()
            < MAX_AGENT_TRANSCRIPT_ROWS_PER_PASS && self.pass_source_bytes
            < MAX_AGENT_TRANSCRIPT_SOURCE_BYTES_PER_PASS && self.terminal_error.is_none()
            && !self.reached_snapshot_boundary && !self.cancelled
    }

    /// Whether a line is the one after the chunk, and lies within the snapshot.
    pub open spec fn is_next(self, pending: PendingSessionLine) -> bool {
        &&& pending.source_offset_bytes == self.next_offset()
        &&& pending.consumed_bytes > 0
        &&& pending.source_offset_bytes + pending.consumed_bytes <= self.snapshot_size_bytes
        &&& pending.record.line_no == self.next_line_no()
        &&& pending.record.spawn_id@ == self.cursor@.spawn_id
        &&& pending.state@.turn_index + (MAX_AGENT_TRANSCRIPT_ROWS_PER_PASS - self.pass_rows
            - self.chunk@.len() - 1) <= u64::MAX
    }

    /// The pass after a read: what stops the chunk is noted, and nothing else
    /// changes.
    pub open spec fn after_read(self, read: Result<ReadView, TailError>) -> Self {
        match read {
            Ok(ReadView::Line { source_offset_bytes, .. }) => if self.next_line_no()
                > u64::MAX {
                SessionPass {
                    terminal_error: Some(PassError::LineNumberOverflow {
                            source_offset_bytes: source_offset_bytes as u64,
                        }),
                    ..self
                }
            } else {
                self
            },
            Ok(ReadView::SnapshotEof) => SessionPass {
                reached_snapshot_boundary: true,
                ..self
            },
            Ok(ReadView::IncompleteTail { .. }) => SessionPass {
                reached_snapshot_boundary: true,
                ..self
            },
            Ok(ReadView::Cancelled) => SessionPass { cancelled: true, ..self },
            Err(error) => SessionPass {
                terminal_error: Some(PassError::Source(SourceError::Tail(error))),
                ..self
            },
        }
    }

    /// Takes what the reader gave. A line is parsed, against the state of the
    /// session after the chunk; anything else ends the chunk.
    pub fn take_read(
        &mut self,
        read: Result<BoundedTailRead, TailError>,
        rules: &TranscriptRules,
    ) -> (pending: Option<PendingSessionLine>)
        requires
            old(self).wf(),
            old(self).takes_line(),
            read matches Ok(BoundedTailRead::Line { consumed_bytes, source_offset_bytes, .. }) ==> {
                &&& source_offset_bytes == old(self).next_offset()
                &&& consumed_bytes > 0
                &&& source_offset_bytes + consumed_bytes <= old(self).snapshot_size_bytes
            },
        ensures
            final(self).wf(),
            *final(self) == old(self).after_read(tail::read_view(read)),
            match read {
                Ok(BoundedTailRead::Line { bytes, consumed_bytes, .. }) => if old(self).next_line_no()
                    > u64::MAX {
                    pending is None
                } else {
                    let view = session::session_record_of_line(
                        bytes@,
                        old(self).next_line_no() as u64,
                        old(self).cursor@.spawn_id,
                        old(self).cursor@.session_id,
                        old(self).cursor@.source_epoch_unix_ms,
                        old(self).state@,
                        rules@,
                    );
                    pending matches Some(line) && final(self).is_next(line) && line.consumed_bytes
                        == consumed_bytes && line.record@ == view.record && outbox::opt_lifecycle(
                        line.lifecycle,
                    ) == view.lifecycle && line.state@ == view.state
                },
                _ => pending is None,
            },
    {
        match read {
            Err(error) => {
                self.terminal_error = Some(PassError::Source(SourceError::Tail(error)));
                None
            },
            Ok(BoundedTailRead::SnapshotEof) => {
                self.reached_snapshot_boundary = true;
                None
            },
            Ok(BoundedTailRead::IncompleteTail { .. }) => {
                self.reached_snapshot_boundary = true;
                None
            },
            Ok(BoundedTailRead::Cancelled) => {
                self.cancelled = true;
                None
            },
            Ok(BoundedTailRead::Line { bytes, consumed_bytes, source_offset_bytes }) => {
                let ingested: u64 = self.cursor.lines_ingested + self.chunk.len() as u64;
                if ingested == u64::MAX {
                    self.terminal_error = Some(
                        PassError::LineNumberOverflow { source_offset_bytes },
                    );
                    return None;
                }
                let line_no: u64 = ingested + 1;
                let mut state = self.state.clone();
                let (record, lifecycle) = parse_session_line(
                    bytes.as_slice(),
                    line_no,
                    self.cursor.spawn_id.as_str(),
                    self.cursor.session_id.as_str(),
                    self.cursor.source_epoch_unix_ms,
                    &mut state,
                    rules,
                );
                proof {
                    session::law_session_lines_have_their_rows(
                        bytes@,
                        line_no,
                        self.cursor@.spawn_id,
                        self.cursor@.session_id,
                        self.cursor@.source_epoch_unix_ms,
                        self.state@,
                        rules@,
                    );
                }
                Some(
                    PendingSessionLine {
                        record,
                        lifecycle,
                        state,
                        source_offset_bytes,
                        consumed_bytes,
                    },
                )
            },
        }
    }

    /// Adds an encoded line to the chunk. Where the row is not valid, cannot be
    /// encoded or is too large, the chunk ends before the line, and the session
    /// stays as it was before it.
    pub fn add_row(&mut self, pending: PendingSessionLine, encoding: RowEncoding)
        requires
            old(self).wf(),
            old(self).takes_line(),
            old(self).is_next(pending),
        ensures
            final(self).wf(),
            final(self).same_progress(*old(self)),
            final(self).reached_snapshot_boundary == old(self).reached_snapshot_boundary,
            final(self).cancelled == old(self).cancelled,
            final(self).terminal_error == ingest::row_refusal(pending.record.line_no, encoding),
            if ingest::row_refusal(pending.record.line_no, encoding) is Some {
                &&& final(self).chunk == old(self).chunk
                &&& final(self).state == old(self).state
                &&& final(self).chunk_lifecycle == old(self).chunk_lifecycle
                &&& final(self).pass_source_bytes == old(self).pass_source_bytes
            } else {
                &&& final(self).chunk@ == old(self).chunk@.push(session_row(pending, encoding))
                &&& final(self).state == pending.state
                &&& final(self).chunk_lifecycle == (if pending.lifecycle is Some {
                    pending.lifecycle
                } else {
                    old(self).chunk_lifecycle
                })
                &&& final(self).pass_source_bytes == ingest::source_bytes_after(
                    old(self).pass_source_bytes,
                    pending.consumed_bytes,
                )
            },
    {
        let line_no: u64 = pending.record.line_no;
        match encoding {
            RowEncoding::ValidationFailed => {
                self.terminal_error = Some(PassError::RowValidationFailed { line_no });
            },
            RowEncoding::EncodeFailed => {
                self.terminal_error = Some(PassError::RowEncodeFailed { line_no });
            },
            RowEncoding::Encoded { source_key, encoded, ts_index_key } => {
                if encoded.len() > MAX_AGENT_TRANSCRIPT_VALUE_BYTES {
                    self.terminal_error = Some(
                        PassError::RowOversized { line_no, encoded_bytes: encoded.len() },
                    );
                    return ;
                }
                let before: Ghost<Seq<PreparedTranscriptRow>> = Ghost(self.chunk@);
                match pending.record.status {
                    TranscriptParseStatus::Parsed => {
                        self.chunk_parsed = self.chunk_parsed + 1;
                    },
                    TranscriptParseStatus::Invalid => {
                        self.chunk_invalid = self.chunk_invalid + 1;
                    },
                }
                self.chunk_bytes = self.chunk_bytes + pending.consumed_bytes;
                self.pass_source_bytes = self.pass_source_bytes.saturating_add(
                    pending.consumed_bytes,
                );
                self.state = pending.state;
                if pending.lifecycle.is_some() {
                    self.chunk_lifecycle = pending.lifecycle;
                }
                self.chunk.push(
                    PreparedTranscriptRow {
                        source_key,
                        encoded,
                        ts_index_key,
                        record: pending.record,
                        source_offset_bytes: pending.source_offset_bytes,
                        consumed_bytes: pending.consumed_bytes,
                    },
                );
                proof {
                    assert(self.chunk@.drop_last() =~= before@);
                    assert forall|i: int| 0 <= i < self.chunk@.len() implies {
                        &&& (#[trigger] self.chunk@[i]).record.spawn_id@ == self.cursor@.spawn_id
                        &&& self.chunk@[i].record.line_no == self.cursor@.lines_ingested + 1 + i
                        &&& self.chunk@[i].source_offset_bytes == self.cursor@.offset_bytes
                            + ingest::bytes_of(self.chunk@.subrange(0, i))
                        &&& self.chunk@[i].consumed_bytes > 0
                        &&& self.chunk@[i].encoded@.len() <= MAX_AGENT_TRANSCRIPT_VALUE_BYTES
                    } by {
                        assert(self.chunk@.subrange(0, i) =~= before@.subrange(0, i));
                        if i < before@.len() {
                            assert(before@[i] == self.chunk@[i]);
                        } else {
                            assert(before@.subrange(0, i) =~= before@);
                        }
                    }
                }
            },
        }
    }

    /// Decides over a chunk that takes no more lines: whether it is committed.
    /// Where the pass was cancelled, nothing of the chunk counts.
    pub fn judge_chunk(&mut self, cancelled: bool) -> (commit: bool)
        requires
            old(self).wf(),
        ensures
            commit == (!old(self).cancelled && old(self).chunk@.len() > 0 && !cancelled),
            final(self).cancelled == (old(self).cancelled || (old(self).chunk@.len() > 0
                && cancelled)),
            *final(self) == (SessionPass { cancelled: final(self).cancelled, ..*old(self) }),
            final(self).wf(),
    {
        if self.cancelled || self.chunk.len() == 0 {
            return false;
        }
        if cancelled {
            self.cancelled = true;
            return false;
        }
        true
    }
}

/// What becomes of a chunk that was committed.
#[derive(Debug)]
pub enum SettledSession {
    /// The cursor that covers the chunk; its outbox is staged next.
    Stage(AmbientCursor),
    /// The session is parked at the cursor before the chunk.
    Stick(PassError),
    /// The pass fails with the cursor before the chunk.
    Fail(PassError),
}

/// The cursor that covers a chunk, before the source is held against it.
pub open spec fn session_covered(pass: SessionPass) -> Result<AmbientView, PassError> {
    if pass.cursor@.parsed_rows + pass.chunk_parsed > u64::MAX {
        Err(PassError::ParsedCounterOverflow)
    } else if pass.cursor@.invalid_rows + pass.chunk_invalid > u64::MAX {
        Err(PassError::InvalidCounterOverflow)
    } else {
        Ok(
            AmbientView {
                offset_bytes: (pass.cursor@.offset_bytes + pass.chunk_bytes) as u64,
                lines_ingested: (pass.cursor@.lines_ingested + pass.chunk@.len()) as u64,
                parsed_rows: (pass.cursor@.parsed_rows + pass.chunk_parsed) as u64,
                invalid_rows: (pass.cursor@.invalid_rows + pass.chunk_invalid) as u64,
                state: pass.state@,
                ..pass.cursor@
            },
        )
    }
}

/// The cursor that covers a chunk, with the fingerprint and the boundary of its
/// source.
pub open spec fn session_anchored(
    cursor: AmbientView,
    snapshot_size_bytes: u64,
    fingerprint: FingerprintEvidence,
    boundary: RangeRead,
) -> Result<AmbientView, SourceError> {
    match source::ensured_fingerprint(
        cursor.fingerprint,
        cursor.spawn_id,
        snapshot_size_bytes,
        cursor.offset_bytes,
        fingerprint,
    ) {
        Err(error) => Err(error),
        Ok(print) => match source::boundary_spec(snapshot_size_bytes, cursor.offset_bytes, boundary) {
            Err(error) => Err(error),
            Ok(edge) => Ok(AmbientView { fingerprint: print, boundary: edge, ..cursor }),
        },
    }
}

/// The last signal: that of the chunk, else that of the pass before it.
pub open spec fn latest_signal(pass: SessionPass) -> Option<Lifecycle> {
    if pass.chunk_lifecycle is Some {
        pass.chunk_lifecycle
    } else {
        pass.pending_lifecycle
    }
}

impl SessionPass {
    /// Moves the cursor behind a chunk that was committed.
    pub fn settle_chunk(&self, fingerprint: &FingerprintEvidence, boundary: &RangeRead) -> (settled:
        SettledSession)
        requires
            self.wf(),
            self.chunk@.len() > 0,
        ensures
            match session_covered(*self) {
                Err(error) => settled matches SettledSession::Fail(given) && given == error,
                Ok(next) => match session_anchored(
                    next,
                    self.snapshot_size_bytes,
                    *fingerprint,
                    *boundary,
                ) {
                    Err(error) => settled matches SettledSession::Stick(given) && given
                        == PassError::Source(error),
                    Ok(found) => settled matches SettledSession::Stage(cursor) && cursor@ == found,
                },
            },
    {
        let mut next = self.cursor.clone();
        next.state = self.state.clone();
        next.lines_ingested = next.lines_ingested + self.chunk.len() as u64;
        next.offset_bytes = next.offset_bytes + self.chunk_bytes;
        next.parsed_rows = match next.parsed_rows.checked_add(self.chunk_parsed) {
            Some(rows) => rows,
            None => {
                return SettledSession::Fail(PassError::ParsedCounterOverflow);
            },
        };
        next.invalid_rows = match next.invalid_rows.checked_add(self.chunk_invalid) {
            Some(rows) => rows,
            None => {
                return SettledSession::Fail(PassError::InvalidCounterOverflow);
            },
        };
        let offset: u64 = next.offset_bytes;
        if let Err(error) = ensure_transcript_source_fingerprint(
            &mut next.fingerprint,
            next.spawn_id.as_str(),
            self.snapshot_size_bytes,
            offset,
            fingerprint,
        ) {
            return SettledSession::Stick(PassError::Source(error));
        }
        if let Err(error) = refresh_transcript_source_boundary(
            &mut next.boundary,
            self.snapshot_size_bytes,
            offset,
            boundary,
        ) {
            return SettledSession::Stick(PassError::Source(error));
        }
        SettledSession::Stage(next)
    }

    /// The last signal, from which the events that the cursor owes are drafted.
    pub fn signal(&self) -> (signal: Option<&Lifecycle>)
        ensures
            match signal {
                Some(inner) => latest_signal(*self) == Some(*inner),
                None => latest_signal(*self) is None,
            },
    {
        match &self.chunk_lifecycle {
            Some(inner) => Some(inner),
            None => match &self.pending_lifecycle {
                Some(inner) => Some(inner),
                None => None,
            },
        }
    }

    /// Goes on from a chunk whose cursor was stored. The result says whether the
    /// pass goes on.
    pub fn adopt(&mut self, stored: AmbientCursor) -> (more: bool)
        requires
            old(self).wf(),
            old(self).chunk@.len() > 0,
            session_covered(*old(self)) is Ok,
            stored@.offset_bytes == session_covered(*old(self))->Ok_0.offset_bytes,
            stored@.lines_ingested == session_covered(*old(self))->Ok_0.lines_ingested,
            stored@.state == old(self).state@,
            stored@.spawn_id == old(self).cursor@.spawn_id,
        ensures
            final(self).wf(),
            final(self).cursor == stored,
            final(self).chunk@.len() == 0,
            final(self).state@ == stored@.state,
            final(self).pass_rows == old(self).pass_rows + old(self).chunk@.len(),
            final(self).new_parsed == old(self).new_parsed + old(self).chunk_parsed,
            final(self).new_invalid == old(self).new_invalid + old(self).chunk_invalid,
            final(self).pass_source_bytes == old(self).pass_source_bytes,
            final(self).snapshot_size_bytes == old(self).snapshot_size_bytes,
            final(self).pending_lifecycle == latest_signal(*old(self)),
            final(self).chunk_lifecycle is None,
            final(self).terminal_error == old(self).terminal_error,
            final(self).reached_snapshot_boundary == old(self).reached_snapshot_boundary,
            final(self).cancelled == old(self).cancelled,
            more == (old(self).terminal_error is None && !old(self).reached_snapshot_boundary),
    {
        self.pass_rows = self.pass_rows + self.chunk.len();
        self.new_parsed = self.new_parsed + self.chunk_parsed;
        self.new_invalid = self.new_invalid + self.chunk_invalid;
        self.cursor = stored;
        self.chunk = Vec::new();
        self.chunk_parsed = 0;
        self.chunk_invalid = 0;
        self.chunk_bytes = 0;
        if self.chunk_lifecycle.is_some() {
            let mut signal: Option<Lifecycle> = None;
            std::mem::swap(&mut self.chunk_lifecycle, &mut signal);
            self.pending_lifecycle = signal;
        }
        self.terminal_error.is_none() && !self.reached_snapshot_boundary
    }

    /// How the pass ends, once everything that the cursor owed is relayed.
    pub fn finish(&self, newly_registered: bool) -> (outcome: Result<
        SessionIngestOutcome,
        PassError,
    >)
        ensures
            outcome == (match self.terminal_error {
                Some(error) => Err(error),
                None => Ok(
                    SessionIngestOutcome {
                        new_parsed_rows: self.new_parsed,
                        new_invalid_rows: self.new_invalid,
                        newly_registered,
                        deferred_for_pressure: false,
                        skipped: false,
                        cancelled: self.cancelled,
                    },
                ),
            }),
    {
        match self.terminal_error {
            Some(error) => Err(error),
            None => Ok(
                SessionIngestOutcome {
                    new_parsed_rows: self.new_parsed,
                    new_invalid_rows: self.new_invalid,
                    newly_registered,
                    deferred_for_pressure: false,
                    skipped: false,
                    cancelled: self.cancelled,
                },
            ),
        }
    }
}

/// Stages the events that a cursor owes, in the same row as the part of the
/// source that they stand for.
pub fn stage_outbox(cursor: &mut AmbientCursor, outbox: Option<AmbientEventOutbox>, now_ns: u64)
    ensures
        final(cursor)@ == (AmbientView {
            pending_event_outbox: tracking::opt_outbox(outbox),
            updated_ts_ns: now_ns,
            ..old(cursor)@
        }),
{
    cursor.pending_event_outbox = outbox;
    cursor.updated_ts_ns = now_ns;
}

/// Whether the registration of an agent still has to be staged. An empty session
/// is an agent too.
pub fn needs_registration(cursor: &AmbientCursor, cancelled: bool) -> (needs: bool)
    ensures
        needs == (!cancelled && !cursor@.registered && cursor@.pending_event_outbox is None),
{
    !cancelled && !cursor.registered && cursor.pending_event_outbox.is_none()
}

/// Covering a chunk keeps the count: every ingested line is a parsed or an
/// invalid row. The cursor moves by exactly the bytes of the chunk, and never
/// past the snapshot.
pub proof fn law_session_cursors_reconcile(pass: SessionPass)
    requires
        pass.wf(),
        pass.cursor@.parsed_rows + pass.cursor@.invalid_rows == pass.cursor@.lines_ingested,
        session_covered(pass) is Ok,
    ensures
        ({
            let next = session_covered(pass)->Ok_0;
            &&& next.parsed_rows + next.invalid_rows == next.lines_ingested
            &&& next.offset_bytes == pass.cursor@.offset_bytes + ingest::bytes_of(pass.chunk@)
            &&& next.offset_bytes <= pass.snapshot_size_bytes
            &&& next.registered == pass.cursor@.registered
            &&& next.last_emitted_state == pass.cursor@.last_emitted_state
        }),
{
}

} // verus!
