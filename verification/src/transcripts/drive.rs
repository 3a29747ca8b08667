//! The order in which the ingest of one spawn asks for its reads and writes, and
//! what it does with each answer.
use crate::roots::PathStyle;
use crate::transcripts::chunk::ChunkError;
use crate::transcripts::cursor;
use crate::transcripts::cursor::{
    CursorError, CursorView, LoadedTranscriptCursor, TranscriptCursor, validate_spawn_id_shape,
};
use crate::transcripts::ingest;
use crate::transcripts::ingest::{
    AfterChunk, AnchorStep, ChunkVerdict, CompletedCheck, EndRow, EndState, FinishStep, FirstCursor,
    MAX_AGENT_TRANSCRIPT_ROWS_PER_PASS, MAX_AGENT_TRANSCRIPT_SOURCE_BYTES_PER_PASS, PassError,
    PendingLine, ReadGate, RowEncoding, SettledChunk, SourceCheck, SourceFile, SpawnIngestOutcome,
    TranscriptPass, check_completed, ensure_completed_spawn_end_state_anchored, finish_source,
    gate_read, match_source, survey_source,
};
use crate::transcripts::launch::CompletionError;
use crate::transcripts::lines;
use crate::transcripts::record::TranscriptRules;
use crate::transcripts::source::{BoundaryEvidence, FingerprintEvidence, RangeRead, SourceError};
use crate::transcripts::tail;
use crate::transcripts::tail::{
    BoundedTailRead, BoundedTranscriptTailReader, ReadView, SourceOpening, TailError, TailEvent,
    TailStep,
};
use vstd::prelude::*;

verus! {

/// What an ingest asks for next.
#[derive(Clone, Copy, Debug, PartialEq, Eq, Structural)]
pub enum IngestAction {
    /// Look at the source.
    StatSource,
    /// Read what the fingerprint and the boundary are held against.
    ReadIdentity,
    /// Store the cursor.
    StoreCursor,
    /// Read whether the spawn has ended and whether the disk has room.
    ReadCompletion,
    /// Read the next line.
    ReadLine,
    /// Encode the row of the line.
    EncodeRow,
    /// Commit the chunk.
    CommitChunk,
    /// Read the fingerprint and the boundary behind the chunk.
    ReadChunkIdentity,
    /// Look at the source once more.
    StatAgain,
    /// Read the rows at the ends of the transcript, and how the spawn ended.
    ReadAnchor,
    /// Park the spawn with its cursor.
    Park(PassError),
    /// The ingest is over.
    Finish(SpawnIngestOutcome),
    /// The ingest failed; the cursor stays as it is stored.
    Fail(PassError),
}

/// Where an ingest stands before it reads lines.
#[derive(Clone, Copy, Debug, PartialEq, Eq, Structural)]
pub enum SurveyStage {
    Stat,
    Identity,
    StoreIdentity,
    StoreReopened,
    Gate,
    Anchor,
    StoreAnchor,
    /// Lines are read from now on.
    Run,
    Over,
}

/// An ingest before it reads lines.
#[derive(Debug)]
pub struct SpawnSurvey {
    pub stage: SurveyStage,
    pub cursor: TranscriptCursor,
    pub file_size_bytes: u64,
    /// The outcome once the end state is anchored.
    pub outcome: SpawnIngestOutcome,
    pub finalize: bool,
    pub completion_terminal: bool,
}

/// How an ingest begins.
#[derive(Debug)]
pub enum IngestBegin {
    Fail(PassError),
    /// The spawn has no cursor yet.
    ReadLaunch,
    /// The cursor serves only to park the error.
    Park { cursor: TranscriptCursor, error: PassError },
    Survey(SpawnSurvey),
}

/// Whether a survey starts at a cursor.
pub open spec fn starts_at(survey: SpawnSurvey, cursor: TranscriptCursor) -> bool {
    survey.stage == SurveyStage::Stat && survey.cursor == cursor && !survey.finalize
        && !survey.completion_terminal
}

fn new_survey(cursor: TranscriptCursor) -> (survey: SpawnSurvey)
    ensures
        starts_at(survey, cursor),
{
    let outcome = SpawnIngestOutcome {
        new_parsed_rows: 0,
        new_invalid_rows: 0,
        lines_ingested_total: cursor.lines_ingested,
        source_complete: false,
        deferred_for_pressure: false,
        skipped: false,
        cancelled: false,
    };
    SpawnSurvey {
        stage: SurveyStage::Stat,
        cursor,
        file_size_bytes: 0,
        outcome,
        finalize: false,
        completion_terminal: false,
    }
}

/// Begins the ingest of a spawn with the cursor that was loaded.
pub fn ingest_spawn_dir_once(
    spawn_id: &str,
    loaded: Result<LoadedTranscriptCursor, CursorError>,
) -> (begin: IngestBegin)
    ensures
        match cursor::spawn_id_refusal(spawn_id@) {
            Some(error) => begin == IngestBegin::Fail(PassError::SpawnId(error)),
            None => match loaded {
                Err(error) => begin == IngestBegin::Fail(PassError::Cursor(error)),
                Ok(found) => match found.cursor {
                    None => begin == IngestBegin::ReadLaunch,
                    Some(cursor) => begin matches IngestBegin::Survey(survey) && starts_at(
                        survey,
                        cursor,
                    ),
                },
            },
        },
{
    if let Err(error) = validate_spawn_id_shape(spawn_id) {
        return IngestBegin::Fail(PassError::SpawnId(error));
    }
    match loaded {
        Err(error) => IngestBegin::Fail(PassError::Cursor(error)),
        Ok(found) => match found.cursor {
            None => IngestBegin::ReadLaunch,
            Some(cursor) => IngestBegin::Survey(new_survey(cursor)),
        },
    }
}

/// Goes on with the cursor that was started from the launch of the spawn.
pub fn begin_from_launch(first: FirstCursor) -> (begin: IngestBegin)
    ensures
        match first {
            FirstCursor::Ready(cursor) => begin matches IngestBegin::Survey(survey) && starts_at(
                survey,
                cursor,
            ),
            FirstCursor::Park { cursor, error } => begin == (IngestBegin::Park { cursor, error }),
        },
{
    match first {
        FirstCursor::Ready(cursor) => IngestBegin::Survey(new_survey(cursor)),
        FirstCursor::Park { cursor, error } => IngestBegin::Park { cursor, error },
    }
}

/// What follows once the source is known to be the one that the cursor has seen.
pub open spec fn resumed(cursor: CursorView, file_size_bytes: u64, cancelled: bool) -> (
    SurveyStage,
    IngestAction,
) {
    let done = SpawnIngestOutcome {
        source_complete: true,
        ..ingest::idle_outcome(cursor.lines_ingested)
    };
    if !cursor.source_complete {
        (SurveyStage::Gate, IngestAction::ReadCompletion)
    } else if file_size_bytes > cursor.offset_bytes {
        (SurveyStage::StoreReopened, IngestAction::StoreCursor)
    } else if cancelled {
        (SurveyStage::Over, IngestAction::Finish(SpawnIngestOutcome { cancelled: true, ..done }))
    } else {
        (SurveyStage::Anchor, IngestAction::ReadAnchor)
    }
}

/// The cursor once the source is known to be the one that it has seen: opened
/// again where the source has grown since it was completed.
pub open spec fn resumed_cursor(cursor: CursorView, file_size_bytes: u64, now_ns: u64) -> CursorView {
    if cursor.source_complete && file_size_bytes > cursor.offset_bytes {
        ingest::reopened(cursor, now_ns)
    } else {
        cursor
    }
}

/// What is answered once the end state of a completed transcript is anchored.
pub open spec fn anchored_outcome(cursor: CursorView) -> SpawnIngestOutcome {
    SpawnIngestOutcome {
        source_complete: true,
        skipped: true,
        ..ingest::idle_outcome(cursor.lines_ingested)
    }
}

impl SpawnSurvey {
    /// Goes on from a look at the source.
    pub fn on_stat(
        &mut self,
        discovered_path: &str,
        style: PathStyle,
        cancelled: bool,
        file: SourceFile,
    ) -> (action: IngestAction)
        requires
            old(self).stage == SurveyStage::Stat,
        ensures
            *final(self) == (SpawnSurvey {
                stage: final(self).stage,
                file_size_bytes: final(self).file_size_bytes,
                ..*old(self)
            }),
            match ingest::survey(old(self).cursor@, discovered_path@, style, cancelled, file) {
                SourceCheck::Done(outcome) => action == IngestAction::Finish(outcome)
                    && final(self).stage == SurveyStage::Over,
                SourceCheck::Stick(error) => action == IngestAction::Park(error)
                    && final(self).stage == SurveyStage::Over,
                SourceCheck::Ready { file_size_bytes, .. } => action == IngestAction::ReadIdentity
                    && final(self).stage == SurveyStage::Identity && final(self).file_size_bytes
                    == file_size_bytes && old(self).cursor@.offset_bytes <= file_size_bytes,
            },
    {
        match survey_source(&self.cursor, discovered_path, style, cancelled, file) {
            SourceCheck::Done(outcome) => {
                self.stage = SurveyStage::Over;
                IngestAction::Finish(outcome)
            },
            SourceCheck::Stick(error) => {
                self.stage = SurveyStage::Over;
                IngestAction::Park(error)
            },
            SourceCheck::Ready { file_size_bytes, .. } => {
                self.stage = SurveyStage::Identity;
                self.file_size_bytes = file_size_bytes;
                IngestAction::ReadIdentity
            },
        }
    }

    fn resume(&mut self, cancelled: bool, now_ns: u64) -> (action: IngestAction)
        ensures
            (final(self).stage, action) == resumed(
                old(self).cursor@,
                old(self).file_size_bytes,
                cancelled,
            ),
            final(self).cursor@ == resumed_cursor(
                old(self).cursor@,
                old(self).file_size_bytes,
                now_ns,
            ),
            *final(self) == (SpawnSurvey {
                stage: final(self).stage,
                cursor: final(self).cursor,
                outcome: final(self).outcome,
                ..*old(self)
            }),
            final(self).outcome == (if final(self).stage == SurveyStage::Anchor {
                anchored_outcome(old(self).cursor@)
            } else {
                old(self).outcome
            }),
    {
        match check_completed(&mut self.cursor, self.file_size_bytes, cancelled, now_ns) {
            CompletedCheck::NotComplete => {
                self.stage = SurveyStage::Gate;
                IngestAction::ReadCompletion
            },
            CompletedCheck::Reopened => {
                self.stage = SurveyStage::StoreReopened;
                IngestAction::StoreCursor
            },
            CompletedCheck::Done(outcome) => {
                self.stage = SurveyStage::Over;
                IngestAction::Finish(outcome)
            },
            CompletedCheck::Anchor(outcome) => {
                self.stage = SurveyStage::Anchor;
                self.outcome = outcome;
                IngestAction::ReadAnchor
            },
        }
    }

    /// Goes on from what the fingerprint and the boundary are held against. A
    /// cursor that was given either is stored before anything else happens.
    pub fn on_identity(
        &mut self,
        fingerprint: &FingerprintEvidence,
        boundary: &BoundaryEvidence,
        cancelled: bool,
        now_ns: u64,
    ) -> (action: IngestAction)
        requires
            old(self).stage == SurveyStage::Identity,
        ensures
            *final(self) == (SpawnSurvey {
                stage: final(self).stage,
                cursor: final(self).cursor,
                outcome: final(self).outcome,
                ..*old(self)
            }),
            final(self).outcome == (if final(self).stage == SurveyStage::Anchor {
                anchored_outcome(old(self).cursor@)
            } else {
                old(self).outcome
            }),
            final(self).cursor@.offset_bytes == old(self).cursor@.offset_bytes,
            match ingest::matched_cursor(
                old(self).cursor@,
                old(self).file_size_bytes,
                *fingerprint,
                *boundary,
            ) {
                Err(error) => {
                    &&& action == IngestAction::Park(PassError::Source(error))
                    &&& final(self).stage == SurveyStage::Over
                    &&& final(self).cursor@ == ingest::unmatched_cursor(
                        old(self).cursor@,
                        old(self).file_size_bytes,
                        *fingerprint,
                    )
                },
                Ok(found) => if ingest::needs_migration(old(self).cursor@) {
                    &&& action == IngestAction::StoreCursor
                    &&& final(self).stage == SurveyStage::StoreIdentity
                    &&& final(self).cursor@ == (CursorView { updated_ts_ns: now_ns, ..found })
                } else {
                    &&& (final(self).stage, action) == resumed(
                        found,
                        old(self).file_size_bytes,
                        cancelled,
                    )
                    &&& final(self).cursor@ == resumed_cursor(
                        found,
                        old(self).file_size_bytes,
                        now_ns,
                    )
                },
            },
    {
        match match_source(
            &mut self.cursor,
            self.file_size_bytes,
            fingerprint,
            boundary,
            now_ns,
        ) {
            SourceCheck::Ready { store, .. } => {
                if store {
                    self.stage = SurveyStage::StoreIdentity;
                    IngestAction::StoreCursor
                } else {
                    self.resume(cancelled, now_ns)
                }
            },
            SourceCheck::Stick(error) => {
                self.stage = SurveyStage::Over;
                IngestAction::Park(error)
            },
            SourceCheck::Done(outcome) => {
                self.stage = SurveyStage::Over;
                IngestAction::Finish(outcome)
            },
        }
    }

    /// Goes on from the store of the cursor. A store that does not count ends
    /// the ingest.
    pub fn on_stored(&mut self, stored: Result<(), CursorError>, cancelled: bool, now_ns: u64) -> (action:
        IngestAction)
        requires
            old(self).stage == SurveyStage::StoreIdentity || old(self).stage
                == SurveyStage::StoreReopened || old(self).stage == SurveyStage::StoreAnchor,
        ensures
            *final(self) == (SpawnSurvey {
                stage: final(self).stage,
                cursor: final(self).cursor,
                outcome: final(self).outcome,
                ..*old(self)
            }),
            final(self).outcome == (if final(self).stage == SurveyStage::Anchor {
                anchored_outcome(old(self).cursor@)
            } else {
                old(self).outcome
            }),
            final(self).cursor@.offset_bytes == old(self).cursor@.offset_bytes,
            match stored {
                Err(error) => action == IngestAction::Fail(PassError::Cursor(error))
                    && final(self).stage == SurveyStage::Over && final(self).cursor
                    == old(self).cursor,
                Ok(_) => match old(self).stage {
                    SurveyStage::StoreIdentity => (final(self).stage, action) == resumed(
                        old(self).cursor@,
                        old(self).file_size_bytes,
                        cancelled,
                    ) && final(self).cursor@ == resumed_cursor(
                        old(self).cursor@,
                        old(self).file_size_bytes,
                        now_ns,
                    ),
                    SurveyStage::StoreReopened => action == IngestAction::ReadCompletion
                        && final(self).stage == SurveyStage::Gate
                            && final(self).cursor == old(self).cursor,
                    _ => action == IngestAction::Finish(old(self).outcome) && final(self).stage
                        == SurveyStage::Over && final(self).cursor == old(self).cursor,
                },
            },
    {
        if let Err(error) = stored {
            self.stage = SurveyStage::Over;
            return IngestAction::Fail(PassError::Cursor(error));
        }
        match self.stage {
            SurveyStage::StoreIdentity => self.resume(cancelled, now_ns),
            SurveyStage::StoreReopened => {
                self.stage = SurveyStage::Gate;
                IngestAction::ReadCompletion
            },
            _ => {
                self.stage = SurveyStage::Over;
                IngestAction::Finish(self.outcome)
            },
        }
    }

    /// Goes on from whether the spawn has ended and whether the disk has room:
    /// lines are read where nothing stands against it.
    pub fn on_completion(
        &mut self,
        finalize: bool,
        completion: Result<bool, CompletionError>,
        pressure_permits_write: bool,
    ) -> (action: IngestAction)
        requires
            old(self).stage == SurveyStage::Gate,
        ensures
            *final(self) == (SpawnSurvey {
                stage: final(self).stage,
                finalize: final(self).finalize,
                completion_terminal: final(self).completion_terminal,
                ..*old(self)
            }),
            match completion {
                Err(error) => action == IngestAction::Park(PassError::Completion(error))
                    && final(self).stage == SurveyStage::Over,
                Ok(terminal) => if old(self).file_size_bytes > old(self).cursor@.offset_bytes
                    && !pressure_permits_write {
                    action == IngestAction::Finish(
                        SpawnIngestOutcome {
                            deferred_for_pressure: true,
                            ..ingest::idle_outcome(old(self).cursor@.lines_ingested)
                        },
                    ) && final(self).stage == SurveyStage::Over
                } else {
                    action == IngestAction::ReadLine && final(self).stage == SurveyStage::Run
                        && final(self).finalize == (finalize || terminal)
                            && final(self).completion_terminal == terminal
                },
            },
    {
        match gate_read(
            &self.cursor,
            self.file_size_bytes,
            finalize,
            completion,
            pressure_permits_write,
        ) {
            ReadGate::Stick(error) => {
                self.stage = SurveyStage::Over;
                IngestAction::Park(error)
            },
            ReadGate::Deferred(outcome) => {
                self.stage = SurveyStage::Over;
                IngestAction::Finish(outcome)
            },
            ReadGate::Read { finalize: finalizing, completion_terminal } => {
                self.stage = SurveyStage::Run;
                self.finalize = finalizing;
                self.completion_terminal = completion_terminal;
                IngestAction::ReadLine
            },
        }
    }

    /// Goes on from the rows at the ends of a completed transcript, and how the
    /// spawn ended.
    pub fn on_anchor(&mut self, first: &EndRow, last: &EndRow, end_state: EndState, now_ns: u64) -> (action:
        IngestAction)
        requires
            old(self).stage == SurveyStage::Anchor,
        ensures
            *final(self) == (SpawnSurvey {
                stage: final(self).stage,
                cursor: final(self).cursor,
                ..*old(self)
            }),
            final(self).cursor@ == (if final(self).stage == SurveyStage::StoreAnchor {
                CursorView {
                    end_state_anchor_outcome: Some(end_state->Anchored_0@),
                    end_state_anchor_rows: Some(old(self).cursor@.lines_ingested),
                    updated_ts_ns: now_ns,
                    ..old(self).cursor@
                }
            } else {
                old(self).cursor@
            }),
            (final(self).stage, action) == anchor_step(
                old(self).cursor@,
                old(self).outcome,
                *first,
                *last,
                end_state,
            ),
    {
        match ensure_completed_spawn_end_state_anchored(
            &mut self.cursor,
            first,
            last,
            end_state,
            now_ns,
        ) {
            AnchorStep::Stick(error) => {
                self.stage = SurveyStage::Over;
                IngestAction::Park(error)
            },
            AnchorStep::Settled(_) => {
                self.stage = SurveyStage::Over;
                IngestAction::Finish(self.outcome)
            },
            AnchorStep::Store(_) => {
                self.stage = SurveyStage::StoreAnchor;
                IngestAction::StoreCursor
            },
        }
    }
}

/// What follows from the rows at the ends of a completed transcript, and how the
/// spawn ended.
pub open spec fn anchor_step(
    cursor: CursorView,
    outcome: SpawnIngestOutcome,
    first: EndRow,
    last: EndRow,
    end_state: EndState,
) -> (SurveyStage, IngestAction) {
    match ingest::boundary_rows_refusal(cursor, first, last) {
        Some(error) => (SurveyStage::Over, IngestAction::Park(PassError::Readback(error))),
        None => if ingest::is_anchored(cursor) {
            (SurveyStage::Over, IngestAction::Finish(outcome))
        } else {
            match end_state {
                EndState::Failed => (
                    SurveyStage::Over,
                    IngestAction::Park(PassError::EndStateAnchorFailed),
                ),
                EndState::Absent => (SurveyStage::Over, IngestAction::Finish(outcome)),
                EndState::Anchored(_) => (SurveyStage::StoreAnchor, IngestAction::StoreCursor),
            }
        },
    }
}

/// Where an ingest that reads lines stands.
#[derive(Clone, Copy, Debug, PartialEq, Eq, Structural)]
pub enum RunStage {
    Line,
    Encode,
    Commit,
    Settle,
    StoreChunk,
    FinalStat,
    StoreComplete,
    Over,
}

/// An ingest that reads lines.
#[derive(Debug)]
pub struct SpawnRun {
    pub stage: RunStage,
    pub reader: BoundedTranscriptTailReader,
    pub pass: TranscriptPass,
    pub pending: Option<PendingLine>,
    /// The cursor behind the chunk, while it is stored.
    pub next: Option<TranscriptCursor>,
    pub finalize: bool,
    pub completion_terminal: bool,
}

/// Whether a cursor is the one that covers the chunk of a pass.
pub open spec fn covers(cursor: TranscriptCursor, pass: TranscriptPass) -> bool {
    &&& ingest::covered(pass) is Ok
    &&& cursor@.offset_bytes == ingest::covered(pass)->Ok_0.offset_bytes
    &&& cursor@.lines_ingested == ingest::covered(pass)->Ok_0.lines_ingested
    &&& cursor@.stream == pass.stream@
    &&& cursor@.spawn_id == pass.cursor@.spawn_id
    &&& cursor@.source == pass.cursor@.source
}

impl SpawnRun {
    /// The reader stands at an offset with nothing of a line behind it but what it
    /// holds.
    pub open spec fn reads_at(self, offset: int) -> bool {
        &&& self.reader@.wf()
        &&& self.reader@.line_start_bytes == offset
        &&& self.reader@.snapshot_size_bytes == self.pass.snapshot_size_bytes
    }

    /// The reader stands behind the chunk, unless something stopped the chunk.
    pub open spec fn reads_on(self) -> bool {
        self.pass.pending_error is None && !self.pass.reached_snapshot_eof
            && !self.pass.incomplete_tail && !self.pass.cancelled ==> self.reads_at(
            self.pass.next_offset(),
        )
    }

    /// What holds between any two steps.
    pub open spec fn wf(self) -> bool {
        &&& self.pass.wf()
        &&& match self.stage {
            RunStage::Line => self.pass.takes_line() && self.reads_on(),
            RunStage::Encode => self.pass.takes_line() && self.pending is Some
                && self.pass.is_next(self.pending->Some_0) && self.reads_at(
                self.pass.next_offset() + self.pending->Some_0.consumed_bytes,
            ),
            RunStage::Commit => self.pass.chunk@.len() > 0 && !self.pass.cancelled
                && self.reads_on(),
            RunStage::Settle => self.pass.chunk@.len() > 0 && !self.pass.cancelled
                && self.reads_on(),
            RunStage::StoreChunk => self.pass.chunk@.len() > 0 && !self.pass.cancelled
                && self.next is Some && covers(self.next->Some_0, self.pass) && self.reads_on(),
            RunStage::FinalStat => self.pass.chunk@.len() == 0,
            _ => true,
        }
    }

    /// What has been committed so far is the same.
    pub open spec fn same_commits(self, other: Self) -> bool {
        &&& self.pass.same_progress(other.pass)
        &&& self.finalize == other.finalize
        &&& self.completion_terminal == other.completion_terminal
    }

    /// Opens the source at the cursor of a survey, and starts to read lines.
    pub fn open(survey: SpawnSurvey, opening: SourceOpening) -> (opened: Result<
        Self,
        (TranscriptCursor, PassError),
    >)
        requires
            survey.stage == SurveyStage::Run,
            ingest::turns_fit(
                survey.cursor@.source,
                survey.cursor@.stream,
                MAX_AGENT_TRANSCRIPT_ROWS_PER_PASS as int,
            ),
        ensures
            match tail::opening_refusal(
                survey.cursor@.offset_bytes,
                survey.file_size_bytes,
                opening,
            ) {
                Some(error) => opened == Err::<Self, (TranscriptCursor, PassError)>(
                    (survey.cursor, PassError::Source(SourceError::Tail(error))),
                ),
                None => {
                    &&& opened is Ok
                    &&& opened->Ok_0.wf()
                    &&& opened->Ok_0.stage == RunStage::Line
                    &&& opened->Ok_0.pass.cursor == survey.cursor
                    &&& opened->Ok_0.pass.snapshot_size_bytes == survey.file_size_bytes
                    &&& opened->Ok_0.pass.at_chunk_start()
                    &&& opened->Ok_0.pass.pass_rows == 0
                    &&& opened->Ok_0.pass.pass_source_bytes == 0
                    &&& opened->Ok_0.pass.new_parsed == 0
                    &&& opened->Ok_0.pass.new_invalid == 0
                    &&& !opened->Ok_0.pass.reached_snapshot_eof
                    &&& !opened->Ok_0.pass.cancelled
                    &&& opened->Ok_0.reader@.next_offset_bytes == survey.cursor@.offset_bytes
                    &&& opened->Ok_0.finalize == survey.finalize
                    &&& opened->Ok_0.completion_terminal == survey.completion_terminal
                },
            },
    {
        let reader = match BoundedTranscriptTailReader::open(
            survey.cursor.offset_bytes,
            survey.file_size_bytes,
            opening,
        ) {
            Ok(reader) => reader,
            Err(error) => {
                return Err((survey.cursor, PassError::Source(SourceError::Tail(error))));
            },
        };
        Ok(
            SpawnRun {
                stage: RunStage::Line,
                reader,
                pass: TranscriptPass::start(survey.cursor, survey.file_size_bytes),
                pending: None,
                next: None,
                finalize: survey.finalize,
                completion_terminal: survey.completion_terminal,
            },
        )
    }

    /// What follows where the pass takes no more chunks.
    pub open spec fn after_pass(self) -> (RunStage, IngestAction) {
        if self.finalize && self.pass.reached_snapshot_eof && !self.pass.cancelled {
            (RunStage::FinalStat, IngestAction::StatAgain)
        } else {
            (RunStage::Over, IngestAction::Finish(outcome_of(self.pass)))
        }
    }

    fn end_pass(&mut self) -> (action: IngestAction)
        requires
            old(self).pass.wf(),
            old(self).pass.cancelled || old(self).pass.chunk@.len() == 0,
        ensures
            final(self).reader == old(self).reader,
            (final(self).stage, action) == old(self).after_pass(),
            final(self).pass == old(self).pass,
            final(self).same_commits(*old(self)),
            final(self).wf(),
    {
        if self.pass.may_complete(self.finalize) {
            self.stage = RunStage::FinalStat;
            IngestAction::StatAgain
        } else {
            self.stage = RunStage::Over;
            IngestAction::Finish(self.pass.outcome())
        }
    }

    /// What follows where the chunk takes no more lines.
    pub open spec fn after_chunk(self, cancelled: bool) -> (RunStage, IngestAction) {
        if self.pass.cancelled {
            self.after_pass()
        } else if self.pass.chunk@.len() == 0 {
            match self.pass.pending_error {
                Some(error) => (RunStage::Over, IngestAction::Park(error)),
                None => self.after_pass(),
            }
        } else if cancelled {
            (
                RunStage::Over,
                IngestAction::Finish(
                    outcome_of(TranscriptPass { cancelled: true, ..self.pass }),
                ),
            )
        } else {
            (RunStage::Commit, IngestAction::CommitChunk)
        }
    }

    /// The pass once the chunk takes no more lines.
    pub open spec fn ended_chunk(self, cancelled: bool) -> TranscriptPass {
        TranscriptPass {
            cancelled: self.pass.cancelled || (self.pass.chunk@.len() > 0 && cancelled),
            ..self.pass
        }
    }

    fn end_chunk(&mut self, cancelled: bool) -> (action: IngestAction)
        requires
            old(self).pass.wf(),
            old(self).reads_on(),
        ensures
            final(self).reader == old(self).reader,
            (final(self).stage, action) == old(self).after_chunk(cancelled),
            final(self).same_commits(*old(self)),
            final(self).pass == old(self).ended_chunk(cancelled),
            final(self).wf(),
    {
        match self.pass.judge_chunk(cancelled) {
            ChunkVerdict::Stop => self.end_pass(),
            ChunkVerdict::Stick(error) => {
                self.stage = RunStage::Over;
                IngestAction::Park(error)
            },
            ChunkVerdict::Commit => {
                self.stage = RunStage::Commit;
                IngestAction::CommitChunk
            },
        }
    }

    /// The run after a read of the source that gave no line.
    pub open spec fn read_chunk(self, read: Result<ReadView, TailError>) -> Self {
        SpawnRun { pass: self.pass.after_read(read), ..self }
    }

    /// Goes on from bytes of the source, or from what came in their place. A whole
    /// line is parsed and its row encoded; what ends the reading ends the chunk.
    /// The result also says how many of the bytes are taken.
    pub fn on_read(&mut self, event: TailEvent<'_>, rules: &TranscriptRules, cancelled: bool) -> (step: (
        IngestAction,
        usize,
    ))
        requires
            old(self).wf(),
            old(self).stage == RunStage::Line,
            event matches TailEvent::Available(available) ==> old(self).reader@.next_offset_bytes
                + available@.len() <= old(self).pass.snapshot_size_bytes,
        ensures
            ({
                let step = tail::step_of(old(self).reader@, event, old(self).finalize);
                !(step is Failed) ==> final(self).reader@ == tail::reader_after(
                    old(self).reader@,
                    event,
                    step,
                )
            }),
            final(self).wf(),
            final(self).same_commits(*old(self)),
            final(self).pass.chunk == old(self).pass.chunk,
            step.1 == tail::taken_of(tail::step_of(old(self).reader@, event, old(self).finalize)),
            match tail::read_of(tail::step_of(old(self).reader@, event, old(self).finalize)) {
                None => {
                    &&& (final(self).stage, step.0) == (RunStage::Line, IngestAction::ReadLine)
                    &&& final(self).pass == old(self).pass
                    &&& final(self).reader@.next_offset_bytes == old(self).reader@.next_offset_bytes + step.1
                },
                Some(read) => if read is Ok && read->Ok_0 is Line && old(self).pass.next_line_no()
                    <= u64::MAX {
                    &&& (final(self).stage, step.0) == (RunStage::Encode, IngestAction::EncodeRow)
                    &&& final(self).pass == old(self).pass
                    &&& final(self).pending matches Some(line) && line.consumed_bytes
                        == read->Ok_0->Line_consumed_bytes && (line.stream@, line.record@)
                        == lines::record_of_line(
                        read->Ok_0->Line_bytes,
                        old(self).pass.next_line_no() as u64,
                        old(self).pass.cursor@.spawn_id,
                        old(self).pass.cursor@.source,
                        old(self).pass.cursor@.source_epoch_unix_ms,
                        old(self).pass.stream@,
                        rules@,
                    )
                } else {
                    let stopped = old(self).read_chunk(read);
                    &&& (final(self).stage, step.0) == stopped.after_chunk(cancelled)
                    &&& final(self).pass == stopped.ended_chunk(cancelled)
                },
            },
    {
        let ghost before = self.reader@;
        let step = self.reader.next_line(event, self.finalize);
        let (read, taken): (Result<BoundedTailRead, TailError>, usize) = match step {
            TailStep::More { taken_bytes } => {
                return (IngestAction::ReadLine, taken_bytes);
            },
            TailStep::Done { taken_bytes, read } => (Ok(read), taken_bytes),
            TailStep::Failed(error) => (Err(error), 0),
        };
        proof {
            if read is Ok && read->Ok_0@ is Line {
                tail::lemma_line_step(before, event, self.finalize);
            }
        }
        let action = match self.pass.take_read(read, rules) {
            Some(line) => {
                self.pending = Some(line);
                self.stage = RunStage::Encode;
                IngestAction::EncodeRow
            },
            None => self.end_chunk(cancelled),
        };
        (action, taken)
    }

    /// Goes on from the encoded row of the line.
    pub fn on_encoded(&mut self, encoding: RowEncoding, cancelled: bool) -> (action: IngestAction)
        requires
            old(self).wf(),
            old(self).stage == RunStage::Encode,
        ensures
            final(self).reader == old(self).reader,
            final(self).wf(),
            final(self).same_commits(*old(self)),
            ({
                let line = old(self).pending->Some_0;
                let refusal = ingest::row_refusal(line.record.line_no, encoding);
                &&& final(self).pass.pending_error == refusal
                &&& final(self).pass.chunk@ == (if refusal is Some {
                    old(self).pass.chunk@
                } else {
                    old(self).pass.chunk@.push(ingest::encoded_row(line, encoding))
                })
                &&& final(self).pass.stream@ == (if refusal is Some {
                    old(self).pass.stream@
                } else {
                    line.stream@
                })
                &&& final(self).pass.pass_source_bytes == (if refusal is Some {
                    old(self).pass.pass_source_bytes as int
                } else {
                    ingest::source_bytes_after(
                        old(self).pass.pass_source_bytes,
                        line.consumed_bytes,
                    )
                })
                &&& !final(self).pass.reached_snapshot_eof
                &&& !final(self).pass.incomplete_tail
                &&& final(self).pass.cancelled == (final(self).stage != RunStage::Line
                    && final(self).pass.chunk@.len() > 0 && cancelled)
                &&& (final(self).stage, action) == (if final(self).pass.takes_line() {
                    (RunStage::Line, IngestAction::ReadLine)
                } else if final(self).pass.chunk@.len() == 0 {
                    (RunStage::Over, IngestAction::Park(refusal->Some_0))
                } else if cancelled {
                    (RunStage::Over, IngestAction::Finish(outcome_of(final(self).pass)))
                } else {
                    (RunStage::Commit, IngestAction::CommitChunk)
                })
            }),
    {
        let mut taken: Option<PendingLine> = None;
        std::mem::swap(&mut self.pending, &mut taken);
        if let Some(line) = taken {
            self.pass.add_row(line, encoding);
        }
        if self.pass.wants_line() {
            self.stage = RunStage::Line;
            IngestAction::ReadLine
        } else {
            self.end_chunk(cancelled)
        }
    }

    /// Goes on from the commit of the chunk. A chunk that does not count fails
    /// the ingest; the cursor stays before it.
    pub fn on_committed(&mut self, committed: Result<(), ChunkError>) -> (action: IngestAction)
        requires
            old(self).wf(),
            old(self).stage == RunStage::Commit,
        ensures
            final(self).reader == old(self).reader,
            final(self).wf(),
            final(self).same_commits(*old(self)),
            final(self).pass == old(self).pass,
            match committed {
                Ok(_) => action == IngestAction::ReadChunkIdentity && final(self).stage
                    == RunStage::Settle,
                Err(error) => action == IngestAction::Fail(PassError::Chunk(error))
                    && final(self).stage == RunStage::Over,
            },
    {
        match committed {
            Ok(()) => {
                self.stage = RunStage::Settle;
                IngestAction::ReadChunkIdentity
            },
            Err(error) => {
                self.stage = RunStage::Over;
                IngestAction::Fail(PassError::Chunk(error))
            },
        }
    }

    /// Goes on from the fingerprint and the boundary behind the chunk: the cursor
    /// moves there and is stored.
    pub fn on_chunk_identity(
        &mut self,
        fingerprint: &FingerprintEvidence,
        boundary: &RangeRead,
        now_ns: u64,
    ) -> (action: IngestAction)
        requires
            old(self).wf(),
            old(self).stage == RunStage::Settle,
        ensures
            final(self).reader == old(self).reader,
            final(self).wf(),
            final(self).same_commits(*old(self)),
            final(self).pass == old(self).pass,
            match ingest::covered(old(self).pass) {
                Err(error) => action == IngestAction::Fail(error) && final(self).stage
                    == RunStage::Over,
                Ok(next) => match ingest::anchored(
                    next,
                    old(self).pass.snapshot_size_bytes,
                    *fingerprint,
                    *boundary,
                    now_ns,
                ) {
                    Err(error) => action == IngestAction::Park(PassError::Source(error))
                        && final(self).stage == RunStage::Over,
                    Ok(found) => action == IngestAction::StoreCursor && final(self).stage
                        == RunStage::StoreChunk && (final(self).next matches Some(cursor) && cursor@
                        == found),
                },
            },
    {
        match self.pass.settle_chunk(fingerprint, boundary, now_ns) {
            SettledChunk::Store(cursor) => {
                self.next = Some(cursor);
                self.stage = RunStage::StoreChunk;
                IngestAction::StoreCursor
            },
            SettledChunk::Stick(error) => {
                self.stage = RunStage::Over;
                IngestAction::Park(error)
            },
            SettledChunk::Fail(error) => {
                self.stage = RunStage::Over;
                IngestAction::Fail(error)
            },
        }
    }

    /// Goes on from the store of the cursor behind the chunk. Only then does the
    /// pass cover the chunk; what stopped the chunk short is answered now.
    pub fn on_chunk_stored(&mut self, stored: Result<(), CursorError>) -> (action: IngestAction)
        requires
            old(self).wf(),
            old(self).stage == RunStage::StoreChunk,
        ensures
            final(self).reader == old(self).reader,
            final(self).wf(),
            final(self).finalize == old(self).finalize,
            final(self).completion_terminal == old(self).completion_terminal,
            match stored {
                Err(error) => {
                    &&& action == IngestAction::Fail(PassError::Cursor(error))
                    &&& final(self).stage == RunStage::Over
                    &&& final(self).pass == old(self).pass
                },
                Ok(_) => {
                    &&& Some(final(self).pass.cursor) == old(self).next
                    &&& final(self).pass.at_chunk_start()
                    &&& final(self).pass.pass_rows
                        == old(self).pass.pass_rows + old(self).pass.chunk@.len()
                    &&& final(self).pass.pass_source_bytes == old(self).pass.pass_source_bytes
                    &&& final(self).pass.new_parsed
                        == old(self).pass.new_parsed + old(self).pass.chunk_parsed
                    &&& final(self).pass.new_invalid
                        == old(self).pass.new_invalid + old(self).pass.chunk_invalid
                    &&& final(self).pass.snapshot_size_bytes == old(self).pass.snapshot_size_bytes
                    &&& final(self).pass.reached_snapshot_eof == old(self).pass.reached_snapshot_eof
                    &&& !final(self).pass.cancelled
                    &&& match old(self).pass.pending_error {
                        Some(error) => action == IngestAction::Park(error) && final(self).stage
                            == RunStage::Over,
                        None => if old(self).pass.reached_snapshot_eof
                            || old(self).pass.incomplete_tail {
                            (final(self).stage, action) == final(self).after_pass()
                        } else if final(self).pass.pass_rows < MAX_AGENT_TRANSCRIPT_ROWS_PER_PASS
                            && final(self).pass.pass_source_bytes
                            < MAX_AGENT_TRANSCRIPT_SOURCE_BYTES_PER_PASS {
                            action == IngestAction::ReadLine && final(self).stage == RunStage::Line
                        } else {
                            (final(self).stage, action) == final(self).after_pass()
                        },
                    }
                },
            },
    {
        if let Err(error) = stored {
            self.stage = RunStage::Over;
            return IngestAction::Fail(PassError::Cursor(error));
        }
        let mut next: Option<TranscriptCursor> = None;
        std::mem::swap(&mut self.next, &mut next);
        let after = match next {
            Some(cursor) => self.pass.adopt(cursor),
            None => AfterChunk::Stop,
        };
        match after {
            AfterChunk::Stick(error) => {
                self.stage = RunStage::Over;
                IngestAction::Park(error)
            },
            AfterChunk::Stop => self.end_pass(),
            AfterChunk::Continue => {
                if self.pass.wants_chunk() {
                    self.stage = RunStage::Line;
                    IngestAction::ReadLine
                } else {
                    self.end_pass()
                }
            },
        }
    }

    /// Goes on from the last look at the source.
    pub fn on_final_stat(&mut self, final_size: Option<u64>, now_ns: u64) -> (action: IngestAction)
        requires
            old(self).wf(),
            old(self).stage == RunStage::FinalStat,
        ensures
            final(self).reader == old(self).reader,
            (final(self).stage, action) == (match final_size {
                None => (RunStage::Over, IngestAction::Park(PassError::FinalStatFailed)),
                Some(size) => if size < old(self).pass.cursor@.offset_bytes {
                    (
                        RunStage::Over,
                        IngestAction::Park(PassError::SourceTruncated { file_size_bytes: size }),
                    )
                } else if size > old(self).pass.cursor@.offset_bytes {
                    (RunStage::Over, IngestAction::Finish(outcome_of(old(self).pass)))
                } else {
                    (RunStage::StoreComplete, IngestAction::StoreCursor)
                },
            }),
            final(self).pass.cursor@ == (if final_size
                == Some(old(self).pass.cursor@.offset_bytes) {
                CursorView {
                    source_complete: true,
                    completed_reason: Some(
                        ingest::completion_reason(old(self).completion_terminal),
                    ),
                    updated_ts_ns: now_ns,
                    ..old(self).pass.cursor@
                }
            } else {
                old(self).pass.cursor@
            }),
            final(self).pass == (TranscriptPass {
                cursor: final(self).pass.cursor,
                ..old(self).pass
            }),
            final(self).finalize == old(self).finalize,
            final(self).completion_terminal == old(self).completion_terminal,
    {
        match finish_source(&mut self.pass.cursor, final_size, self.completion_terminal, now_ns) {
            FinishStep::Stick(error) => {
                self.stage = RunStage::Over;
                IngestAction::Park(error)
            },
            FinishStep::Rebased => {
                self.stage = RunStage::Over;
                IngestAction::Finish(self.pass.outcome())
            },
            FinishStep::Completed => {
                self.stage = RunStage::StoreComplete;
                IngestAction::StoreCursor
            },
        }
    }

    /// Goes on from the store of the completed cursor: its end state is anchored
    /// as that of any completed transcript.
    pub fn on_complete_stored(self, stored: Result<(), CursorError>) -> (survey: Result<
        SpawnSurvey,
        PassError,
    >)
        requires
            self.stage == RunStage::StoreComplete,
        ensures
            match stored {
                Err(error) => survey == Err::<SpawnSurvey, PassError>(PassError::Cursor(error)),
                Ok(_) => survey matches Ok(next) && next.stage == SurveyStage::Anchor
                    && next.cursor == self.pass.cursor && next.file_size_bytes
                    == self.pass.snapshot_size_bytes && next.outcome == outcome_of(self.pass),
            },
    {
        match stored {
            Err(error) => Err(PassError::Cursor(error)),
            Ok(()) => {
                let outcome = self.pass.outcome();
                Ok(
                    SpawnSurvey {
                        stage: SurveyStage::Anchor,
                        file_size_bytes: self.pass.snapshot_size_bytes,
                        cursor: self.pass.cursor,
                        outcome,
                        finalize: self.finalize,
                        completion_terminal: self.completion_terminal,
                    },
                )
            },
        }
    }
}

/// What a pass did.
pub open spec fn outcome_of(pass: TranscriptPass) -> SpawnIngestOutcome {
    SpawnIngestOutcome {
        new_parsed_rows: pass.new_parsed,
        new_invalid_rows: pass.new_invalid,
        lines_ingested_total: pass.cursor@.lines_ingested,
        source_complete: pass.cursor@.source_complete,
        deferred_for_pressure: false,
        skipped: false,
        cancelled: pass.cancelled,
    }
}

/// The cursor that is stored behind a committed chunk stands exactly behind the
/// chunk: it moves by the bytes and the lines of its rows, never past the
/// snapshot, and every ingested line stays a parsed or an invalid row.
pub proof fn law_stored_cursors_cover_their_chunk(run: SpawnRun, next: CursorView)
    requires
        run.wf(),
        run.stage == RunStage::StoreChunk,
        run.pass.cursor@.reconciles(),
        next == ingest::covered(run.pass)->Ok_0,
    ensures
        next.offset_bytes == run.pass.cursor@.offset_bytes + ingest::bytes_of(run.pass.chunk@),
        next.offset_bytes > run.pass.cursor@.offset_bytes,
        next.offset_bytes <= run.pass.snapshot_size_bytes,
        next.lines_ingested == run.pass.cursor@.lines_ingested + run.pass.chunk@.len(),
        next.reconciles(),
{
    ingest::law_cursors_reconcile(run.pass);
    ingest::lemma_rows_take_bytes(
        run.pass.chunk@,
        run.pass.cursor@.spawn_id,
        run.pass.cursor@.lines_ingested,
        run.pass.cursor@.offset_bytes,
    );
}

} // verus!
