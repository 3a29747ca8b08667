//! The order in which the ingest of one session asks for its reads and writes,
//! and what it does with each answer.
use crate::ambient::events;
use crate::ambient::journal::{AmbientCursorError, LoadedAmbientCursor};
use crate::ambient::outbox;
use crate::ambient::outbox::{
    LifecycleView, OutboxDraft, OutboxError, OutboxEvidence, build_event_outbox, draft_event_outbox,
};
use crate::ambient::pass;
use crate::ambient::pass::{
    PendingSessionLine, SessionCheck, SessionError, SessionIngestOutcome, SessionPass, SessionStart,
    SettledSession, begin_session, gate_session, match_session_source, needs_registration,
    stage_outbox, survey_session,
};
use crate::ambient::relay::RelayError;
use crate::ambient::session;
use crate::ambient::tracking;
use crate::ambient::tracking::{
    AmbientCursor, AmbientEventOutbox, AmbientView, OutboxView, seed_cursor, spawn_id_for_session,
};
use crate::digest;
use crate::roots::{PathStyle, same_path_spec};
use crate::text;
use crate::transcripts::chunk::ChunkError;
use crate::transcripts::ingest;
use crate::transcripts::ingest::{
    MAX_AGENT_TRANSCRIPT_ROWS_PER_PASS, MAX_AGENT_TRANSCRIPT_SOURCE_BYTES_PER_PASS, PassError,
    RowEncoding, SourceFile,
};
use crate::transcripts::record::TranscriptRules;
use crate::transcripts::source::{BoundaryEvidence, FingerprintEvidence, RangeRead, SourceError};
use crate::transcripts::tail;
use crate::transcripts::tail::{
    BoundedTailRead, BoundedTranscriptTailReader, SourceOpening, TailError, TailEvent, TailStep,
};
use vstd::prelude::*;
use vstd::string::*;

verus! {

/// What an ingest of a session asks for next.
#[derive(Clone, Copy, Debug, PartialEq, Eq, Structural)]
pub enum SessionAction {
    /// Relay the events that the cursor owes.
    Relay,
    /// Reconcile the projection with the checkpoint of the cursor.
    Reconcile,
    /// Look at the source.
    StatSource,
    /// Read what the fingerprint and the boundary are held against.
    ReadIdentity,
    /// Store the cursor.
    StoreCursor,
    /// Read whether the disk has room.
    ReadPressure,
    /// Open the source.
    OpenSource,
    /// Read the next line.
    ReadLine,
    /// Encode the row of the line.
    EncodeRow,
    /// Commit the chunk.
    CommitChunk,
    /// Read the fingerprint and the boundary behind the chunk.
    ReadChunkIdentity,
    /// Encode the events that the cursor owes.
    EncodeEvents,
    /// Park the session with its cursor.
    Park(SessionError),
    /// The ingest is over.
    Finish(SessionIngestOutcome),
    /// The ingest failed; the cursor stays as it is stored.
    Fail(SessionError),
}

/// Where an ingest stands before it reads lines.
#[derive(Clone, Copy, Debug, PartialEq, Eq, Structural)]
pub enum SessionStage {
    Relay,
    Reconcile,
    Stat,
    Identity,
    StoreIdentity,
    Gate,
    /// Lines are read from now on.
    Run,
    Over,
}

/// An ingest of a session before it reads lines.
#[derive(Debug)]
pub struct SessionSurvey {
    pub stage: SessionStage,
    pub cursor: AmbientCursor,
    pub newly_registered: bool,
    pub file_size_bytes: u64,
}

/// What follows once nothing is owed to the journal.
pub open spec fn after_relay(cursor: AmbientView) -> (SessionStage, SessionAction) {
    if cursor.projection_checkpoint is Some {
        (SessionStage::Reconcile, SessionAction::Reconcile)
    } else {
        (SessionStage::Stat, SessionAction::StatSource)
    }
}

/// How an ingest of a session begins.
pub open spec fn session_begin(
    cursor: AmbientView,
    session_id: Seq<char>,
    source_path: Seq<char>,
    style: PathStyle,
    cancelled: bool,
) -> (SessionStage, SessionAction) {
    if !same_path_spec(cursor.source_path, source_path, style) || cursor.session_id != session_id {
        (SessionStage::Over, SessionAction::Park(SessionError::SourceIdentityMismatch))
    } else if cancelled {
        (
            SessionStage::Over,
            SessionAction::Finish(SessionIngestOutcome { cancelled: true, ..pass::idle_session(false) }),
        )
    } else if cursor.pending_event_outbox is Some {
        (SessionStage::Relay, SessionAction::Relay)
    } else {
        after_relay(cursor)
    }
}

/// Begins the ingest of a session with the cursor that was loaded, or with a new
/// one.
pub fn ingest_session_file(
    loaded: Result<LoadedAmbientCursor, AmbientCursorError>,
    session_id: &str,
    vendor: &str,
    source_path: &str,
    style: PathStyle,
    cancelled: bool,
    now_ns: u64,
) -> (begin: Result<(SessionSurvey, SessionAction), SessionError>)
    ensures
        match loaded {
            Err(error) => begin matches Err(given) && given == SessionError::Cursor(error),
            Ok(found) => {
                &&& begin is Ok
                &&& begin->Ok_0.0.cursor@ == (match found.cursor {
                    Some(cursor) => cursor@,
                    None => tracking::seeded(
                        tracking::ambient_spawn_id(session_id@, vendor@),
                        session_id@,
                        source_path@,
                        now_ns,
                    ),
                })
                &&& !begin->Ok_0.0.newly_registered
                &&& (begin->Ok_0.0.stage, begin->Ok_0.1) == session_begin(
                    begin->Ok_0.0.cursor@,
                    session_id@,
                    source_path@,
                    style,
                    cancelled,
                )
            },
        },
{
    let found = match loaded {
        Ok(found) => found,
        Err(error) => {
            return Err(SessionError::Cursor(error));
        },
    };
    let cursor = match found.cursor {
        Some(cursor) => cursor,
        None => {
            let spawn_id = spawn_id_for_session(session_id, vendor);
            seed_cursor(spawn_id.as_str(), session_id, source_path, now_ns)
        },
    };
    let (stage, action) = match begin_session(&cursor, session_id, source_path, style, cancelled) {
        SessionStart::Stick(error) => (SessionStage::Over, SessionAction::Park(error)),
        SessionStart::Done(outcome) => (SessionStage::Over, SessionAction::Finish(outcome)),
        SessionStart::Go { relay, reconcile } => if relay {
            (SessionStage::Relay, SessionAction::Relay)
        } else if reconcile {
            (SessionStage::Reconcile, SessionAction::Reconcile)
        } else {
            (SessionStage::Stat, SessionAction::StatSource)
        },
    };
    Ok((SessionSurvey { stage, cursor, newly_registered: false, file_size_bytes: 0 }, action))
}

impl SessionSurvey {
    /// Goes on from the relay of what the cursor owed. The cursor is then the one
    /// that was acknowledged.
    pub fn on_relayed(&mut self, relayed: Result<(AmbientCursor, bool), RelayError>) -> (action:
        SessionAction)
        requires
            old(self).stage == SessionStage::Relay,
        ensures
            final(self).file_size_bytes == old(self).file_size_bytes,
            match relayed {
                Err(error) => action == SessionAction::Fail(SessionError::Relay(error))
                    && *final(self) == (SessionSurvey { stage: SessionStage::Over, ..*old(self) }),
                Ok((cursor, newly_registered)) => {
                    &&& final(self).cursor == cursor
                    &&& final(self).newly_registered == (old(self).newly_registered
                        || newly_registered)
                    &&& (final(self).stage, action) == after_relay(cursor@)
                },
            },
    {
        match relayed {
            Err(error) => {
                self.stage = SessionStage::Over;
                SessionAction::Fail(SessionError::Relay(error))
            },
            Ok((cursor, newly_registered)) => {
                self.cursor = cursor;
                self.newly_registered = self.newly_registered || newly_registered;
                if self.cursor.projection_checkpoint.is_some() {
                    self.stage = SessionStage::Reconcile;
                    SessionAction::Reconcile
                } else {
                    self.stage = SessionStage::Stat;
                    SessionAction::StatSource
                }
            },
        }
    }

    /// Goes on from the projection that was held against the checkpoint.
    pub fn on_reconciled(&mut self, reconciled: Result<AmbientCursor, RelayError>) -> (action:
        SessionAction)
        requires
            old(self).stage == SessionStage::Reconcile,
        ensures
            final(self).newly_registered == old(self).newly_registered,
            final(self).file_size_bytes == old(self).file_size_bytes,
            match reconciled {
                Err(error) => action == SessionAction::Fail(SessionError::Reconcile(error))
                    && *final(self) == (SessionSurvey { stage: SessionStage::Over, ..*old(self) }),
                Ok(cursor) => final(self).cursor == cursor && final(self).stage
                    == SessionStage::Stat && action == SessionAction::StatSource,
            },
    {
        match reconciled {
            Err(error) => {
                self.stage = SessionStage::Over;
                SessionAction::Fail(SessionError::Reconcile(error))
            },
            Ok(cursor) => {
                self.cursor = cursor;
                self.stage = SessionStage::Stat;
                SessionAction::StatSource
            },
        }
    }

    /// Goes on from a look at the source.
    pub fn on_stat(&mut self, file: SourceFile) -> (action: SessionAction)
        requires
            old(self).stage == SessionStage::Stat,
        ensures
            final(self).cursor == old(self).cursor,
            final(self).newly_registered == old(self).newly_registered,
            match pass::session_survey(old(self).cursor@, old(self).newly_registered, file) {
                SessionCheck::Stick(error) => action == SessionAction::Park(error)
                    && final(self).stage == SessionStage::Over,
                SessionCheck::Done(outcome) => action == SessionAction::Finish(outcome)
                    && final(self).stage == SessionStage::Over,
                SessionCheck::Ready { file_size_bytes, .. } => action == SessionAction::ReadIdentity
                    && final(self).stage == SessionStage::Identity && final(self).file_size_bytes
                    == file_size_bytes && final(self).cursor@.offset_bytes <= file_size_bytes,
            },
    {
        match survey_session(&self.cursor, self.newly_registered, file) {
            SessionCheck::Stick(error) => {
                self.stage = SessionStage::Over;
                SessionAction::Park(error)
            },
            SessionCheck::Done(outcome) => {
                self.stage = SessionStage::Over;
                SessionAction::Finish(outcome)
            },
            SessionCheck::Ready { file_size_bytes, .. } => {
                self.stage = SessionStage::Identity;
                self.file_size_bytes = file_size_bytes;
                SessionAction::ReadIdentity
            },
        }
    }

    /// Goes on from what the fingerprint and the boundary are held against. A
    /// cursor that was given either is stored before anything else happens.
    pub fn on_identity(
        &mut self,
        fingerprint: &FingerprintEvidence,
        boundary: &BoundaryEvidence,
        now_ns: u64,
    ) -> (action: SessionAction)
        requires
            old(self).stage == SessionStage::Identity,
        ensures
            final(self).file_size_bytes == old(self).file_size_bytes,
            final(self).newly_registered == old(self).newly_registered,
            final(self).cursor@.offset_bytes == old(self).cursor@.offset_bytes,
            match pass::matched_session(
                old(self).cursor@,
                old(self).file_size_bytes,
                *fingerprint,
                *boundary,
            ) {
                Err(error) => {
                    &&& action == SessionAction::Park(SessionError::Pass(PassError::Source(error)))
                    &&& final(self).stage == SessionStage::Over
                    &&& final(self).cursor@ == pass::unmatched_session(
                        old(self).cursor@,
                        old(self).file_size_bytes,
                        *fingerprint,
                    )
                },
                Ok(found) => if pass::lacks_identity(old(self).cursor@) {
                    &&& action == SessionAction::StoreCursor
                    &&& final(self).stage == SessionStage::StoreIdentity
                    &&& final(self).cursor@ == (AmbientView { updated_ts_ns: now_ns, ..found })
                } else {
                    &&& action == SessionAction::ReadPressure
                    &&& final(self).stage == SessionStage::Gate
                    &&& final(self).cursor@ == found
                },
            },
    {
        match match_session_source(
            &mut self.cursor,
            self.file_size_bytes,
            fingerprint,
            boundary,
            now_ns,
        ) {
            SessionCheck::Stick(error) => {
                self.stage = SessionStage::Over;
                SessionAction::Park(error)
            },
            SessionCheck::Done(outcome) => {
                self.stage = SessionStage::Over;
                SessionAction::Finish(outcome)
            },
            SessionCheck::Ready { store, .. } => if store {
                self.stage = SessionStage::StoreIdentity;
                SessionAction::StoreCursor
            } else {
                self.stage = SessionStage::Gate;
                SessionAction::ReadPressure
            },
        }
    }

    /// Goes on from the store of the cursor.
    pub fn on_stored(&mut self, stored: Result<(), AmbientCursorError>) -> (action: SessionAction)
        requires
            old(self).stage == SessionStage::StoreIdentity,
        ensures
            final(self).cursor == old(self).cursor,
            final(self).file_size_bytes == old(self).file_size_bytes,
            final(self).newly_registered == old(self).newly_registered,
            match stored {
                Err(error) => action == SessionAction::Fail(SessionError::Cursor(error))
                    && final(self).stage == SessionStage::Over,
                Ok(_) => action == SessionAction::ReadPressure && final(self).stage
                    == SessionStage::Gate,
            },
    {
        match stored {
            Err(error) => {
                self.stage = SessionStage::Over;
                SessionAction::Fail(SessionError::Cursor(error))
            },
            Ok(()) => {
                self.stage = SessionStage::Gate;
                SessionAction::ReadPressure
            },
        }
    }

    /// Goes on from whether the disk has room: a registered session without news
    /// is done with, one with news that the disk has no room for waits, and any
    /// other is read.
    pub fn on_pressure(&mut self, pressure_permits_write: bool) -> (action: SessionAction)
        requires
            old(self).stage == SessionStage::Gate,
        ensures
            final(self).cursor == old(self).cursor,
            final(self).file_size_bytes == old(self).file_size_bytes,
            final(self).newly_registered == old(self).newly_registered,
            (final(self).stage, action) == (if old(self).file_size_bytes
                == old(self).cursor@.offset_bytes && old(self).cursor@.registered {
                (
                    SessionStage::Over,
                    SessionAction::Finish(pass::idle_session(old(self).newly_registered)),
                )
            } else if old(self).file_size_bytes > old(self).cursor@.offset_bytes
                && !pressure_permits_write {
                (
                    SessionStage::Over,
                    SessionAction::Finish(
                        SessionIngestOutcome {
                            deferred_for_pressure: true,
                            ..pass::idle_session(old(self).newly_registered)
                        },
                    ),
                )
            } else {
                (SessionStage::Run, SessionAction::OpenSource)
            }),
    {
        match gate_session(
            &self.cursor,
            self.file_size_bytes,
            self.newly_registered,
            pressure_permits_write,
        ) {
            Some(outcome) => {
                self.stage = SessionStage::Over;
                SessionAction::Finish(outcome)
            },
            None => {
                self.stage = SessionStage::Run;
                SessionAction::OpenSource
            },
        }
    }
}

/// Where an ingest that reads lines stands.
#[derive(Clone, Copy, Debug, PartialEq, Eq, Structural)]
pub enum SessionRunStage {
    Line,
    Encode,
    Commit,
    Settle,
    Events,
    StoreChunk,
    Registration,
    StoreRegistration,
    Relay,
    Over,
}

/// An ingest of a session that reads lines.
#[derive(Debug)]
pub struct SessionRun {
    pub stage: SessionRunStage,
    pub reader: BoundedTranscriptTailReader,
    pub pass: SessionPass,
    pub pending: Option<PendingSessionLine>,
    /// The cursor behind the chunk, while its events are staged and it is stored.
    pub next: Option<AmbientCursor>,
    pub newly_registered: bool,
}

/// Whether a cursor is the one that covers the chunk of a pass.
pub open spec fn session_covers(cursor: AmbientView, pass: SessionPass) -> bool {
    &&& pass::session_covered(pass) is Ok
    &&& cursor.offset_bytes == pass::session_covered(pass)->Ok_0.offset_bytes
    &&& cursor.lines_ingested == pass::session_covered(pass)->Ok_0.lines_ingested
    &&& cursor.state == pass.state@
    &&& cursor.spawn_id == pass.cursor@.spawn_id
}

/// What a pass over a session did.
pub open spec fn session_outcome(pass: SessionPass, newly_registered: bool) -> SessionIngestOutcome {
    SessionIngestOutcome {
        new_parsed_rows: pass.new_parsed,
        new_invalid_rows: pass.new_invalid,
        newly_registered,
        deferred_for_pressure: false,
        skipped: false,
        cancelled: pass.cancelled,
    }
}

impl SessionRun {
    /// The reader stands at an offset with nothing of a line behind it but what it
    /// holds.
    pub open spec fn reads_at(self, offset: int) -> bool {
        &&& self.reader@.wf()
        &&& self.reader@.line_start_bytes == offset
        &&& self.reader@.snapshot_size_bytes == self.pass.snapshot_size_bytes
    }

    /// The reader stands behind the chunk, unless something stopped the chunk.
    pub open spec fn reads_on(self) -> bool {
        self.pass.terminal_error is None && !self.pass.reached_snapshot_boundary
            && !self.pass.cancelled ==> self.reads_at(self.pass.next_offset())
    }

    /// A chunk is being settled.
    pub open spec fn settles(self) -> bool {
        self.pass.chunk@.len() > 0 && !self.pass.cancelled && self.reads_on()
    }

    /// What holds between any two steps.
    pub open spec fn wf(self) -> bool {
        &&& self.pass.wf()
        &&& match self.stage {
            SessionRunStage::Line => self.pass.takes_line() && self.reads_on(),
            SessionRunStage::Encode => self.pass.takes_line() && self.pending is Some
                && self.pass.is_next(self.pending->Some_0) && self.reads_at(
                self.pass.next_offset() + self.pending->Some_0.consumed_bytes,
            ),
            SessionRunStage::Commit => self.settles(),
            SessionRunStage::Settle => self.settles(),
            SessionRunStage::Events => self.settles() && self.next is Some && session_covers(
                self.next->Some_0@,
                self.pass,
            ),
            SessionRunStage::StoreChunk => self.settles() && self.next is Some && session_covers(
                self.next->Some_0@,
                self.pass,
            ),
            _ => true,
        }
    }

    /// Opens the source at the cursor of a survey, and starts to read lines.
    pub fn open(survey: SessionSurvey, opening: SourceOpening) -> (opened: Result<
        Self,
        (AmbientCursor, SessionError),
    >)
        requires
            survey.stage == SessionStage::Run,
            survey.cursor@.state.turn_index + MAX_AGENT_TRANSCRIPT_ROWS_PER_PASS <= u64::MAX,
        ensures
            match tail::opening_refusal(
                survey.cursor@.offset_bytes,
                survey.file_size_bytes,
                opening,
            ) {
                Some(error) => opened == Err::<Self, (AmbientCursor, SessionError)>(
                    (
                        survey.cursor,
                        SessionError::Pass(PassError::Source(SourceError::Tail(error))),
                    ),
                ),
                None => {
                    &&& opened is Ok
                    &&& opened->Ok_0.wf()
                    &&& opened->Ok_0.stage == SessionRunStage::Line
                    &&& opened->Ok_0.pass.cursor == survey.cursor
                    &&& opened->Ok_0.pass.snapshot_size_bytes == survey.file_size_bytes
                    &&& opened->Ok_0.pass.pass_rows == 0
                    &&& opened->Ok_0.pass.pass_source_bytes == 0
                    &&& opened->Ok_0.pass.new_parsed == 0
                    &&& opened->Ok_0.pass.new_invalid == 0
                    &&& opened->Ok_0.pass.chunk@.len() == 0
                    &&& opened->Ok_0.pass.state@ == survey.cursor@.state
                    &&& opened->Ok_0.pass.chunk_lifecycle is None
                    &&& opened->Ok_0.pass.pending_lifecycle is None
                    &&& opened->Ok_0.pass.terminal_error is None
                    &&& !opened->Ok_0.pass.reached_snapshot_boundary
                    &&& !opened->Ok_0.pass.cancelled
                    &&& opened->Ok_0.reader@.next_offset_bytes == survey.cursor@.offset_bytes
                    &&& opened->Ok_0.newly_registered == survey.newly_registered
                },
            },
    {
        let reader = match BoundedTranscriptTailReader::open(
            survey.cursor.offset_bytes,
            survey.file_size_bytes,
            opening,
        ) {
            Ok(reader) => reader,
            Err(error) => {
                return Err(
                    (
                        survey.cursor,
                        SessionError::Pass(PassError::Source(SourceError::Tail(error))),
                    ),
                );
            },
        };
        Ok(
            SessionRun {
                stage: SessionRunStage::Line,
                reader,
                pass: SessionPass::start(survey.cursor, survey.file_size_bytes),
                pending: None,
                next: None,
                newly_registered: survey.newly_registered,
            },
        )
    }

    /// How the ingest ends once nothing is owed.
    pub open spec fn at_end(self) -> (SessionRunStage, SessionAction) {
        match self.pass.terminal_error {
            Some(error) => (
                SessionRunStage::Over,
                SessionAction::Park(SessionError::Pass(error)),
            ),
            None => (
                SessionRunStage::Over,
                SessionAction::Finish(session_outcome(self.pass, self.newly_registered)),
            ),
        }
    }

    /// What follows where the pass takes no more chunks: an unregistered agent
    /// is registered, and what is owed is relayed.
    pub open spec fn after_pass(self) -> (SessionRunStage, SessionAction) {
        if !self.pass.cancelled && !self.pass.cursor@.registered
            && self.pass.cursor@.pending_event_outbox is None {
            (SessionRunStage::Registration, SessionAction::EncodeEvents)
        } else if self.pass.cursor@.pending_event_outbox is Some {
            (SessionRunStage::Relay, SessionAction::Relay)
        } else {
            self.at_end()
        }
    }

    fn end(&mut self) -> (action: SessionAction)
        requires
            old(self).pass.wf(),
        ensures
            final(self).reader == old(self).reader,
            (final(self).stage, action) == old(self).at_end(),
            final(self).pass == old(self).pass,
            final(self).newly_registered == old(self).newly_registered,
            final(self).wf(),
    {
        self.stage = SessionRunStage::Over;
        match self.pass.finish(self.newly_registered) {
            Ok(outcome) => SessionAction::Finish(outcome),
            Err(error) => SessionAction::Park(SessionError::Pass(error)),
        }
    }

    fn end_pass(&mut self) -> (action: SessionAction)
        requires
            old(self).pass.wf(),
        ensures
            final(self).reader == old(self).reader,
            (final(self).stage, action) == old(self).after_pass(),
            final(self).pass == old(self).pass,
            final(self).newly_registered == old(self).newly_registered,
            final(self).wf(),
    {
        if needs_registration(&self.pass.cursor, self.pass.cancelled) {
            self.stage = SessionRunStage::Registration;
            SessionAction::EncodeEvents
        } else if self.pass.cursor.pending_event_outbox.is_some() {
            self.stage = SessionRunStage::Relay;
            SessionAction::Relay
        } else {
            self.end()
        }
    }

    /// What follows where the chunk takes no more lines.
    pub open spec fn after_chunk(self, cancelled: bool) -> (SessionRunStage, SessionAction) {
        if self.pass.cancelled || self.pass.chunk@.len() == 0 {
            self.after_pass()
        } else if cancelled {
            SessionRun { pass: SessionPass { cancelled: true, ..self.pass }, ..self }.after_pass()
        } else {
            (SessionRunStage::Commit, SessionAction::CommitChunk)
        }
    }

    /// The pass once the chunk takes no more lines.
    pub open spec fn ended_chunk(self, cancelled: bool) -> SessionPass {
        SessionPass {
            cancelled: self.pass.cancelled || (self.pass.chunk@.len() > 0 && cancelled),
            ..self.pass
        }
    }

    fn end_chunk(&mut self, cancelled: bool) -> (action: SessionAction)
        requires
            old(self).pass.wf(),
            old(self).reads_on(),
        ensures
            final(self).reader == old(self).reader,
            (final(self).stage, action) == old(self).after_chunk(cancelled),
            final(self).newly_registered == old(self).newly_registered,
            final(self).pass == old(self).ended_chunk(cancelled),
            final(self).wf(),
    {
        if self.pass.judge_chunk(cancelled) {
            self.stage = SessionRunStage::Commit;
            SessionAction::CommitChunk
        } else {
            self.end_pass()
        }
    }

    /// Goes on from bytes of the source, or from what came in their place. A whole
    /// line is parsed and its row encoded; what ends the reading ends the chunk.
    /// The result also says how many of the bytes are taken.
    pub fn on_read(&mut self, event: TailEvent<'_>, rules: &TranscriptRules, cancelled: bool) -> (step: (
        SessionAction,
        usize,
    ))
        requires
            old(self).wf(),
            old(self).stage == SessionRunStage::Line,
            event matches TailEvent::Available(available) ==> old(self).reader@.next_offset_bytes
                + available@.len() <= old(self).pass.snapshot_size_bytes,
        ensures
            ({
                let step = tail::step_of(old(self).reader@, event, false);
                !(step is Failed) ==> final(self).reader@ == tail::reader_after(
                    old(self).reader@,
                    event,
                    step,
                )
            }),
            final(self).wf(),
            final(self).newly_registered == old(self).newly_registered,
            final(self).pass.same_progress(old(self).pass),
            final(self).pass.chunk == old(self).pass.chunk,
            step.1 == tail::taken_of(tail::step_of(old(self).reader@, event, false)),
            match tail::read_of(tail::step_of(old(self).reader@, event, false)) {
                None => {
                    &&& (final(self).stage, step.0) == (
                        SessionRunStage::Line,
                        SessionAction::ReadLine,
                    )
                    &&& final(self).pass == old(self).pass
                    &&& final(self).reader@.next_offset_bytes == old(self).reader@.next_offset_bytes
                        + step.1
                },
                Some(read) => if read is Ok && read->Ok_0 is Line && old(self).pass.next_line_no()
                    <= u64::MAX {
                    let view = session::session_record_of_line(
                        read->Ok_0->Line_bytes,
                        old(self).pass.next_line_no() as u64,
                        old(self).pass.cursor@.spawn_id,
                        old(self).pass.cursor@.session_id,
                        old(self).pass.cursor@.source_epoch_unix_ms,
                        old(self).pass.state@,
                        rules@,
                    );
                    &&& (final(self).stage, step.0) == (
                        SessionRunStage::Encode,
                        SessionAction::EncodeRow,
                    )
                    &&& final(self).pass == old(self).pass
                    &&& final(self).pending matches Some(line) && line.consumed_bytes
                        == read->Ok_0->Line_consumed_bytes && line.record@ == view.record
                        && outbox::opt_lifecycle(line.lifecycle) == view.lifecycle && line.state@
                        == view.state
                } else {
                    let stopped = SessionRun {
                        pass: old(self).pass.after_read(read),
                        ..*old(self)
                    };
                    &&& (final(self).stage, step.0) == stopped.after_chunk(cancelled)
                    &&& final(self).pass == stopped.ended_chunk(cancelled)
                },
            },
    {
        let ghost before = self.reader@;
        let step = self.reader.next_line(event, false);
        let (read, taken): (Result<BoundedTailRead, TailError>, usize) = match step {
            TailStep::More { taken_bytes } => {
                return (SessionAction::ReadLine, taken_bytes);
            },
            TailStep::Done { taken_bytes, read } => (Ok(read), taken_bytes),
            TailStep::Failed(error) => (Err(error), 0),
        };
        proof {
            if read is Ok && read->Ok_0@ is Line {
                tail::lemma_line_step(before, event, false);
            }
        }
        let action = match self.pass.take_read(read, rules) {
            Some(line) => {
                self.pending = Some(line);
                self.stage = SessionRunStage::Encode;
                SessionAction::EncodeRow
            },
            None => self.end_chunk(cancelled),
        };
        (action, taken)
    }

    /// Goes on from the encoded row of the line.
    pub fn on_encoded(&mut self, encoding: RowEncoding, cancelled: bool) -> (action: SessionAction)
        requires
            old(self).wf(),
            old(self).stage == SessionRunStage::Encode,
        ensures
            final(self).reader == old(self).reader,
            final(self).wf(),
            final(self).newly_registered == old(self).newly_registered,
            final(self).pass.same_progress(old(self).pass),
            ({
                let line = old(self).pending->Some_0;
                let refusal = ingest::row_refusal(line.record.line_no, encoding);
                &&& final(self).pass.terminal_error == refusal
                &&& final(self).pass.chunk@ == (if refusal is Some {
                    old(self).pass.chunk@
                } else {
                    old(self).pass.chunk@.push(pass::session_row(line, encoding))
                })
                &&& final(self).pass.state@ == (if refusal is Some {
                    old(self).pass.state@
                } else {
                    line.state@
                })
                &&& final(self).pass.pass_source_bytes == (if refusal is Some {
                    old(self).pass.pass_source_bytes as int
                } else {
                    ingest::source_bytes_after(
                        old(self).pass.pass_source_bytes,
                        line.consumed_bytes,
                    )
                })
                &&& !final(self).pass.reached_snapshot_boundary
                &&& final(self).pass.cancelled == (final(self).stage != SessionRunStage::Line
                    && final(self).pass.chunk@.len() > 0 && cancelled)
                &&& final(self).pass.chunk_lifecycle == (if refusal is Some
                    || line.lifecycle is None {
                    old(self).pass.chunk_lifecycle
                } else {
                    line.lifecycle
                })
                &&& (final(self).stage, action) == (if final(self).pass.takes_line() {
                    (SessionRunStage::Line, SessionAction::ReadLine)
                } else if final(self).pass.chunk@.len() == 0 || cancelled {
                    final(self).after_pass()
                } else {
                    (SessionRunStage::Commit, SessionAction::CommitChunk)
                })
            }),
    {
        let mut taken: Option<PendingSessionLine> = None;
        std::mem::swap(&mut self.pending, &mut taken);
        if let Some(line) = taken {
            self.pass.add_row(line, encoding);
        }
        if self.pass.wants_line() {
            self.stage = SessionRunStage::Line;
            SessionAction::ReadLine
        } else {
            self.end_chunk(cancelled)
        }
    }

    /// Goes on from the commit of the chunk. A chunk that does not count fails
    /// the ingest; the cursor stays before it.
    pub fn on_committed(&mut self, committed: Result<(), ChunkError>) -> (action: SessionAction)
        requires
            old(self).wf(),
            old(self).stage == SessionRunStage::Commit,
        ensures
            final(self).reader == old(self).reader,
            final(self).wf(),
            final(self).newly_registered == old(self).newly_registered,
            final(self).pass == old(self).pass,
            (final(self).stage, action) == (match committed {
                Ok(_) => (SessionRunStage::Settle, SessionAction::ReadChunkIdentity),
                Err(error) => (
                    SessionRunStage::Over,
                    SessionAction::Fail(SessionError::Pass(PassError::Chunk(error))),
                ),
            }),
    {
        match committed {
            Ok(()) => {
                self.stage = SessionRunStage::Settle;
                SessionAction::ReadChunkIdentity
            },
            Err(error) => {
                self.stage = SessionRunStage::Over;
                SessionAction::Fail(SessionError::Pass(PassError::Chunk(error)))
            },
        }
    }

    /// Goes on from the fingerprint and the boundary behind the chunk: the cursor
    /// moves there, and the events that it owes are drafted.
    pub fn on_chunk_identity(&mut self, fingerprint: &FingerprintEvidence, boundary: &RangeRead) -> (action:
        SessionAction)
        requires
            old(self).wf(),
            old(self).stage == SessionRunStage::Settle,
        ensures
            final(self).reader == old(self).reader,
            final(self).wf(),
            final(self).newly_registered == old(self).newly_registered,
            final(self).pass == old(self).pass,
            match pass::session_covered(old(self).pass) {
                Err(error) => action == SessionAction::Fail(SessionError::Pass(error))
                    && final(self).stage == SessionRunStage::Over,
                Ok(next) => match pass::session_anchored(
                    next,
                    old(self).pass.snapshot_size_bytes,
                    *fingerprint,
                    *boundary,
                ) {
                    Err(error) => action == SessionAction::Park(
                        SessionError::Pass(PassError::Source(error)),
                    ) && final(self).stage == SessionRunStage::Over,
                    Ok(found) => action == SessionAction::EncodeEvents && final(self).stage
                        == SessionRunStage::Events && (final(self).next matches Some(cursor)
                        && cursor@ == found),
                },
            },
    {
        match self.pass.settle_chunk(fingerprint, boundary) {
            SettledSession::Stage(cursor) => {
                self.next = Some(cursor);
                self.stage = SessionRunStage::Events;
                SessionAction::EncodeEvents
            },
            SettledSession::Stick(error) => {
                self.stage = SessionRunStage::Over;
                SessionAction::Park(SessionError::Pass(error))
            },
            SettledSession::Fail(error) => {
                self.stage = SessionRunStage::Over;
                SessionAction::Fail(SessionError::Pass(error))
            },
        }
    }

    /// The cursor whose events are drafted, and the last signal that they tell.
    pub open spec fn drafting(self) -> (AmbientView, Option<LifecycleView>) {
        if self.stage == SessionRunStage::Events {
            (self.next->Some_0@, outbox::opt_lifecycle(pass::latest_signal(self.pass)))
        } else {
            (self.pass.cursor@, None)
        }
    }

    /// Drafts the events that the cursor owes: behind a chunk with the last signal
    /// so far, else only the registration.
    pub fn draft(&self, vendor: &str, provider: &Option<String>, now_ns: u64) -> (draft: Option<
        OutboxDraft,
    >)
        requires
            self.wf(),
            self.stage == SessionRunStage::Events || self.stage == SessionRunStage::Registration,
        ensures
            ({
                let (cursor, signal) = self.drafting();
                let state = outbox::changed_state(cursor, signal);
                match draft {
                    None => cursor.registered && state is None,
                    Some(drafted) => {
                        &&& !(cursor.registered && state is None)
                        &&& drafted.event_ts_ns == now_ns
                        &&& events::event_views(drafted.records@) == outbox::owed_events(
                            cursor,
                            vendor@,
                            signal,
                            text::opt_text(*provider),
                            now_ns,
                        )
                        &&& drafted.acknowledge_registration == !cursor.registered
                        &&& text::opt_text(drafted.acknowledge_state) == state
                    },
                }
            }),
    {
        match self.stage {
            SessionRunStage::Events => match &self.next {
                Some(cursor) => draft_event_outbox(
                    cursor,
                    vendor,
                    self.pass.signal(),
                    provider,
                    now_ns,
                ),
                None => None,
            },
            _ => draft_event_outbox(&self.pass.cursor, vendor, None, provider, now_ns),
        }
    }

    /// Stages the drafted events in the cursor behind the chunk, and stores both
    /// in one row.
    pub fn on_events(
        &mut self,
        draft: Option<OutboxDraft>,
        evidence: &OutboxEvidence,
        now_ns: u64,
    ) -> (action: SessionAction)
        requires
            old(self).wf(),
            old(self).stage == SessionRunStage::Events,
        ensures
            final(self).reader == old(self).reader,
            final(self).wf(),
            final(self).newly_registered == old(self).newly_registered,
            final(self).pass == old(self).pass,
            match staged_outbox(old(self).next->Some_0@, draft, *evidence) {
                Err(error) => action == SessionAction::Park(SessionError::Outbox(error))
                    && final(self).stage == SessionRunStage::Over,
                Ok(outbox) => {
                    &&& action == SessionAction::StoreCursor
                    &&& final(self).stage == SessionRunStage::StoreChunk
                    &&& final(self).next matches Some(cursor) && cursor@ == (AmbientView {
                        pending_event_outbox: outbox,
                        updated_ts_ns: now_ns,
                        ..old(self).next->Some_0@
                    })
                },
            },
    {
        let mut taken: Option<AmbientCursor> = None;
        std::mem::swap(&mut self.next, &mut taken);
        let mut cursor = match taken {
            Some(cursor) => cursor,
            None => {
                return SessionAction::StoreCursor;
            },
        };
        let outbox: Option<AmbientEventOutbox> = match draft {
            None => None,
            Some(drafted) => match build_event_outbox(&cursor, drafted, evidence) {
                Ok(built) => Some(built),
                Err(error) => {
                    self.stage = SessionRunStage::Over;
                    return SessionAction::Park(SessionError::Outbox(error));
                },
            },
        };
        stage_outbox(&mut cursor, outbox, now_ns);
        self.next = Some(cursor);
        self.stage = SessionRunStage::StoreChunk;
        SessionAction::StoreCursor
    }

    /// Goes on from the store of the cursor behind the chunk. Only then does the
    /// pass cover the chunk.
    pub fn on_chunk_stored(&mut self, stored: Result<(), AmbientCursorError>) -> (action:
        SessionAction)
        requires
            old(self).wf(),
            old(self).stage == SessionRunStage::StoreChunk,
        ensures
            final(self).reader == old(self).reader,
            final(self).wf(),
            final(self).newly_registered == old(self).newly_registered,
            match stored {
                Err(error) => {
                    &&& action == SessionAction::Fail(SessionError::Cursor(error))
                    &&& final(self).stage == SessionRunStage::Over
                    &&& final(self).pass == old(self).pass
                },
                Ok(_) => {
                    &&& Some(final(self).pass.cursor) == old(self).next
                    &&& final(self).pass.pass_rows
                        == old(self).pass.pass_rows + old(self).pass.chunk@.len()
                    &&& final(self).pass.pass_source_bytes == old(self).pass.pass_source_bytes
                    &&& final(self).pass.state@ == final(self).pass.cursor@.state
                    &&& final(self).pass.chunk_lifecycle is None
                    &&& final(self).pass.terminal_error == old(self).pass.terminal_error
                    &&& final(self).pass.cancelled == old(self).pass.cancelled
                    &&& final(self).pass.snapshot_size_bytes == old(self).pass.snapshot_size_bytes
                    &&& final(self).pass.new_parsed
                        == old(self).pass.new_parsed + old(self).pass.chunk_parsed
                    &&& final(self).pass.new_invalid
                        == old(self).pass.new_invalid + old(self).pass.chunk_invalid
                    &&& final(self).pass.pending_lifecycle == pass::latest_signal(old(self).pass)
                    &&& final(self).pass.chunk@.len() == 0
                    &&& (final(self).stage, action) == (if old(self).pass.terminal_error is None
                        && !old(self).pass.reached_snapshot_boundary && final(self).pass.pass_rows
                        < MAX_AGENT_TRANSCRIPT_ROWS_PER_PASS && final(self).pass.pass_source_bytes
                        < MAX_AGENT_TRANSCRIPT_SOURCE_BYTES_PER_PASS {
                        (SessionRunStage::Line, SessionAction::ReadLine)
                    } else {
                        final(self).after_pass()
                    })
                },
            },
    {
        if let Err(error) = stored {
            self.stage = SessionRunStage::Over;
            return SessionAction::Fail(SessionError::Cursor(error));
        }
        let mut next: Option<AmbientCursor> = None;
        std::mem::swap(&mut self.next, &mut next);
        let more: bool = match next {
            Some(cursor) => self.pass.adopt(cursor),
            None => false,
        };
        if more && self.pass.wants_chunk() {
            self.stage = SessionRunStage::Line;
            SessionAction::ReadLine
        } else {
            self.end_pass()
        }
    }

    /// Stages the registration of an agent whose session gave no row.
    pub fn on_registration(
        &mut self,
        draft: Option<OutboxDraft>,
        evidence: &OutboxEvidence,
        now_ns: u64,
    ) -> (action: SessionAction)
        requires
            old(self).wf(),
            old(self).stage == SessionRunStage::Registration,
        ensures
            final(self).reader == old(self).reader,
            final(self).wf(),
            final(self).newly_registered == old(self).newly_registered,
            final(self).pass == (SessionPass {
                cursor: final(self).pass.cursor,
                ..old(self).pass
            }),
            match staged_outbox(old(self).pass.cursor@, draft, *evidence) {
                Err(error) => {
                    &&& (final(self).stage, action) == (
                        SessionRunStage::Over,
                        SessionAction::Park(SessionError::Outbox(error)),
                    )
                    &&& final(self).pass.cursor@ == old(self).pass.cursor@
                },
                Ok(None) => {
                    &&& (final(self).stage, action) == (
                        SessionRunStage::Over,
                        SessionAction::Park(SessionError::RegistrationMissing),
                    )
                    &&& final(self).pass.cursor@ == old(self).pass.cursor@
                },
                Ok(Some(outbox)) => {
                    &&& (final(self).stage, action) == (
                        SessionRunStage::StoreRegistration,
                        SessionAction::StoreCursor,
                    )
                    &&& final(self).pass.cursor@ == (AmbientView {
                        pending_event_outbox: Some(outbox),
                        updated_ts_ns: now_ns,
                        ..old(self).pass.cursor@
                    })
                },
            },
    {
        let drafted = match draft {
            Some(drafted) => drafted,
            None => {
                self.stage = SessionRunStage::Over;
                return SessionAction::Park(SessionError::RegistrationMissing);
            },
        };
        match build_event_outbox(&self.pass.cursor, drafted, evidence) {
            Ok(built) => {
                stage_outbox(&mut self.pass.cursor, Some(built), now_ns);
                self.stage = SessionRunStage::StoreRegistration;
                SessionAction::StoreCursor
            },
            Err(error) => {
                self.stage = SessionRunStage::Over;
                SessionAction::Park(SessionError::Outbox(error))
            },
        }
    }

    /// Goes on from the store of the registration: it is relayed.
    pub fn on_registration_stored(&mut self, stored: Result<(), AmbientCursorError>) -> (action:
        SessionAction)
        requires
            old(self).wf(),
            old(self).stage == SessionRunStage::StoreRegistration,
        ensures
            final(self).reader == old(self).reader,
            final(self).wf(),
            final(self).newly_registered == old(self).newly_registered,
            final(self).pass == old(self).pass,
            (final(self).stage, action) == (match stored {
                Ok(_) => (SessionRunStage::Relay, SessionAction::Relay),
                Err(error) => (
                    SessionRunStage::Over,
                    SessionAction::Fail(SessionError::Cursor(error)),
                ),
            }),
    {
        match stored {
            Ok(()) => {
                self.stage = SessionRunStage::Relay;
                SessionAction::Relay
            },
            Err(error) => {
                self.stage = SessionRunStage::Over;
                SessionAction::Fail(SessionError::Cursor(error))
            },
        }
    }

    /// Goes on from the relay of what the cursor owed. What stopped the pass short
    /// is answered only now.
    pub fn on_relayed(&mut self, relayed: Result<(AmbientCursor, bool), RelayError>) -> (action:
        SessionAction)
        requires
            old(self).stage == SessionRunStage::Relay,
        ensures
            final(self).stage == SessionRunStage::Over,
            match relayed {
                Err(error) => action == SessionAction::Fail(SessionError::Relay(error))
                    && final(self).pass == old(self).pass && final(self).newly_registered
                    == old(self).newly_registered,
                Ok((cursor, newly_registered)) => {
                    &&& final(self).pass == (SessionPass { cursor, ..old(self).pass })
                    &&& final(self).newly_registered == (old(self).newly_registered
                        || newly_registered)
                    &&& action == (match old(self).pass.terminal_error {
                        Some(error) => SessionAction::Park(SessionError::Pass(error)),
                        None => SessionAction::Finish(
                            session_outcome(
                                old(self).pass,
                                old(self).newly_registered || newly_registered,
                            ),
                        ),
                    })
                },
            },
    {
        self.stage = SessionRunStage::Over;
        match relayed {
            Err(error) => SessionAction::Fail(SessionError::Relay(error)),
            Ok((cursor, newly_registered)) => {
                self.pass.cursor = cursor;
                self.newly_registered = self.newly_registered || newly_registered;
                match self.pass.finish(self.newly_registered) {
                    Ok(outcome) => SessionAction::Finish(outcome),
                    Err(error) => SessionAction::Park(SessionError::Pass(error)),
                }
            },
        }
    }
}

/// The outbox that a cursor is stored with, or why it cannot be built.
pub open spec fn staged_outbox(
    cursor: AmbientView,
    draft: Option<OutboxDraft>,
    evidence: OutboxEvidence,
) -> Result<Option<OutboxView>, OutboxError> {
    match draft {
        None => Ok(None),
        Some(drafted) => match evidence.identity {
            None => Err(OutboxError::IdentityEncodeFailed),
            Some(identity) => {
                let outbox = outbox::named_outbox(cursor, drafted, digest::sha256_text(identity@));
                match outbox::outbox_refusal(cursor, outbox, evidence) {
                    Some(error) => Err(error),
                    None => Ok(Some(outbox)),
                }
            },
        },
    }
}

/// An agent is never left unregistered in silence: where a pass ends without a
/// failure and was not cancelled, the cursor is registered or its registration is
/// relayed next.
pub proof fn law_no_agent_stays_unregistered(run: SessionRun)
    requires
        !run.pass.cancelled,
        !run.pass.cursor@.registered,
    ensures
        run.after_pass().0 == SessionRunStage::Registration || run.after_pass().0
            == SessionRunStage::Relay,
{
}

/// What a committed chunk owes is relayed even where the pass was cancelled or
/// stopped by an error.
pub proof fn law_owed_events_are_relayed(run: SessionRun)
    requires
        run.pass.cursor@.pending_event_outbox is Some,
    ensures
        run.after_pass() == (SessionRunStage::Relay, SessionAction::Relay),
{
}

/// The cursor that is stored behind a committed chunk stands exactly behind the
/// chunk, and every ingested line stays a parsed or an invalid row.
pub proof fn law_session_cursors_cover_their_chunk(run: SessionRun, next: AmbientView)
    requires
        run.wf(),
        run.stage == SessionRunStage::StoreChunk,
        run.pass.cursor@.parsed_rows + run.pass.cursor@.invalid_rows
            == run.pass.cursor@.lines_ingested,
        next == pass::session_covered(run.pass)->Ok_0,
    ensures
        next.offset_bytes == run.pass.cursor@.offset_bytes + ingest::bytes_of(run.pass.chunk@),
        next.offset_bytes > run.pass.cursor@.offset_bytes,
        next.offset_bytes <= run.pass.snapshot_size_bytes,
        next.lines_ingested == run.pass.cursor@.lines_ingested + run.pass.chunk@.len(),
        next.parsed_rows + next.invalid_rows == next.lines_ingested,
{
    pass::law_session_cursors_reconcile(run.pass);
    ingest::lemma_rows_take_bytes(
        run.pass.chunk@,
        run.pass.cursor@.spawn_id,
        run.pass.cursor@.lines_ingested,
        run.pass.cursor@.offset_bytes,
    );
}

} // verus!
