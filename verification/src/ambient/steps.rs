//! In which order a session is ingested, and what its pass tells.
use crate::ambient::drive;
use crate::ambient::drive::{SessionAction, SessionRun, SessionRunStage, SessionStage};
use crate::ambient::outbox;
use crate::ambient::outbox::{OutboxDraft, OutboxError, OutboxEvidence};
use crate::ambient::pass;
use crate::ambient::pass::{SessionError, SessionIngestOutcome, SessionPass};
use crate::ambient::tracking::{AmbientView, OutboxView};
use crate::digest;
use crate::roots;
use crate::roots::PathStyle;
use crate::transcripts::source;
use crate::transcripts::source::{BoundaryEvidence, FingerprintEvidence, RangeRead, SourceError};
use crate::transcripts::ingest::PassError;
use crate::transcripts::tail::{ReadView, TailError};
use vstd::prelude::*;
use vstd::string::*;

verus! {

/// A session at another path or under another id than its cursor's is parked; a cancelled ingest
/// is over; what the cursor owes is relayed first, then its checkpoint is reconciled, then the
/// source is looked at.
pub proof fn law_sessions_relay_before_they_read(
    cursor: AmbientView,
    session_id: Seq<char>,
    source_path: Seq<char>,
    style: PathStyle,
    cancelled: bool,
)
    ensures
        ({
            let begin = drive::session_begin(cursor, session_id, source_path, style, cancelled);
            let own = roots::same_path_spec(cursor.source_path, source_path, style)
                && cursor.session_id == session_id;
            let owes = cursor.pending_event_outbox is Some;
            let checks = cursor.projection_checkpoint is Some;
            &&& !own ==> begin == (
                SessionStage::Over,
                SessionAction::Park(SessionError::SourceIdentityMismatch),
            )
            &&& own && cancelled ==> begin == (
                SessionStage::Over,
                SessionAction::Finish(
                    (SessionIngestOutcome {
                        new_parsed_rows: 0,
                        new_invalid_rows: 0,
                        newly_registered: false,
                        deferred_for_pressure: false,
                        skipped: false,
                        cancelled: true,
                    }),
                ),
            )
            &&& own && !cancelled && owes ==> begin == (SessionStage::Relay, SessionAction::Relay)
            &&& own && !cancelled && !owes && checks ==> begin == (
                SessionStage::Reconcile,
                SessionAction::Reconcile,
            )
            &&& own && !cancelled && !owes && !checks ==> begin == (
                SessionStage::Stat,
                SessionAction::StatSource,
            )
            &&& checks ==> drive::after_relay(cursor) == (
                SessionStage::Reconcile,
                SessionAction::Reconcile,
            )
            &&& !checks ==> drive::after_relay(cursor) == (
                SessionStage::Stat,
                SessionAction::StatSource,
            )
        }),
{
}

/// The outcome of a session's pass has the rows that it stored, whether the agent was registered
/// by it, and whether it was cancelled.
pub proof fn law_session_outcomes_tell_the_pass(pass: SessionPass, newly_registered: bool)
    ensures
        drive::session_outcome(pass, newly_registered).new_parsed_rows == pass.new_parsed,
        drive::session_outcome(pass, newly_registered).new_invalid_rows == pass.new_invalid,
        drive::session_outcome(pass, newly_registered).newly_registered == newly_registered,
        !drive::session_outcome(pass, newly_registered).deferred_for_pressure,
        !drive::session_outcome(pass, newly_registered).skipped,
        drive::session_outcome(pass, newly_registered).cancelled == pass.cancelled,
{
}

/// After its chunks an unregistered agent that owes nothing is registered, unless the pass was
/// cancelled; what is owed is relayed; then an error parks the session and the ingest is over
/// otherwise.
pub proof fn law_sessions_register_before_they_end(run: SessionRun)
    ensures
        ({
            let owes = run.pass.cursor@.pending_event_outbox is Some;
            let registers = !run.pass.cancelled && !run.pass.cursor@.registered && !owes;
            &&& registers ==> run.after_pass() == (
                SessionRunStage::Registration,
                SessionAction::EncodeEvents,
            )
            &&& owes ==> run.after_pass() == (SessionRunStage::Relay, SessionAction::Relay)
            &&& !registers && !owes ==> run.after_pass() == run.at_end()
            &&& run.pass.terminal_error is Some ==> run.at_end() == (
                SessionRunStage::Over,
                SessionAction::Park(SessionError::Pass(run.pass.terminal_error->0)),
            )
            &&& run.pass.terminal_error is None ==> run.at_end() == (
                SessionRunStage::Over,
                SessionAction::Finish(drive::session_outcome(run.pass, run.newly_registered)),
            )
        }),
{
}

/// A chunk with rows is committed unless the pass is cancelled, which drops it; an empty one ends
/// the pass.
pub proof fn law_session_chunks_are_committed_or_dropped(run: SessionRun, cancelled: bool)
    ensures
        ({
            let rows = run.pass.chunk@.len() > 0;
            &&& !run.pass.cancelled && rows && !cancelled ==> run.after_chunk(cancelled) == (
                SessionRunStage::Commit,
                SessionAction::CommitChunk,
            )
            &&& run.pass.cancelled || !rows ==> run.after_chunk(cancelled) == run.after_pass()
            &&& run.ended_chunk(cancelled).cancelled <==> run.pass.cancelled || (rows && cancelled)
            &&& run.after_chunk(cancelled).1 == SessionAction::CommitChunk ==> rows && !cancelled
        }),
{
}

/// The signal of a pass is that of its chunk, or else the one that was pending.
pub proof fn law_latest_signals_count(pass: SessionPass)
    ensures
        pass.chunk_lifecycle is Some ==> pass::latest_signal(pass) == pass.chunk_lifecycle,
        pass.chunk_lifecycle is None ==> pass::latest_signal(pass) == pass.pending_lifecycle,
{
}

/// Where nothing is owed nothing is staged; a draft is staged under the digest of its identity
/// where the cursor takes it.
pub proof fn law_drafts_are_staged_under_their_digest(
    cursor: AmbientView,
    draft: OutboxDraft,
    evidence: OutboxEvidence,
)
    ensures
        drive::staged_outbox(cursor, None, evidence) == Ok::<Option<OutboxView>, OutboxError>(None),
        evidence.identity is None ==> drive::staged_outbox(cursor, Some(draft), evidence) == Err::<
            Option<OutboxView>,
            OutboxError,
        >(OutboxError::IdentityEncodeFailed),
        evidence.identity matches Some(identity) ==> {
            let named = outbox::named_outbox(
                cursor,
                draft,
                digest::hex_text(digest::sha256_digest(identity@)),
            );
            match outbox::outbox_refusal(cursor, named, evidence) {
                Some(error) => drive::staged_outbox(cursor, Some(draft), evidence) == Err::<
                    Option<OutboxView>,
                    OutboxError,
                >(error),
                None => drive::staged_outbox(cursor, Some(draft), evidence) == Ok::<
                    Option<OutboxView>,
                    OutboxError,
                >(Some(named)),
            }
        },
{
}

/// A session's cursor is at its source where both its fingerprint and its boundary are; it takes
/// them over and nothing else changes.
pub proof fn law_matched_sessions_take_their_identity(
    cursor: AmbientView,
    file_size_bytes: u64,
    fingerprint: FingerprintEvidence,
    boundary: BoundaryEvidence,
)
    ensures
        ({
            let print = source::ensured_fingerprint(
                cursor.fingerprint,
                cursor.spawn_id,
                file_size_bytes,
                cursor.offset_bytes,
                fingerprint,
            );
            let edge = source::ensured_boundary(
                cursor.boundary,
                cursor.spawn_id,
                file_size_bytes,
                cursor.offset_bytes,
                cursor.lines_ingested,
                boundary,
            );
            let matched = pass::matched_session(cursor, file_size_bytes, fingerprint, boundary);
            let after = matched->Ok_0;
            &&& print matches Err(error) ==> matched == Err::<AmbientView, SourceError>(error)
            &&& print is Ok && edge is Err ==> matched == Err::<AmbientView, SourceError>(
                edge->Err_0,
            )
            &&& print is Ok && edge is Ok ==> matched is Ok && after.fingerprint == print->Ok_0
                && after.boundary == edge->Ok_0 && after.offset_bytes == cursor.offset_bytes
                && after.lines_ingested == cursor.lines_ingested && after.state == cursor.state
                && after.registered == cursor.registered && after.pending_event_outbox
                == cursor.pending_event_outbox && after.error == cursor.error
            &&& pass::lacks_identity(cursor) <==> cursor.offset_bytes > 0 && (
            cursor.fingerprint.bytes is None || cursor.boundary.sha256 is None)
        }),
{
}

/// The cursor behind a session's chunk has the fingerprint of its source and the boundary before
/// its own offset; nothing else of it changes.
pub proof fn law_anchored_sessions_take_their_identity(
    cursor: AmbientView,
    snapshot_size_bytes: u64,
    fingerprint: FingerprintEvidence,
    boundary: RangeRead,
)
    ensures
        ({
            let print = source::ensured_fingerprint(
                cursor.fingerprint,
                cursor.spawn_id,
                snapshot_size_bytes,
                cursor.offset_bytes,
                fingerprint,
            );
            let edge = source::boundary_spec(snapshot_size_bytes, cursor.offset_bytes, boundary);
            let anchored = pass::session_anchored(
                cursor,
                snapshot_size_bytes,
                fingerprint,
                boundary,
            );
            let after = anchored->Ok_0;
            &&& print matches Err(error) ==> anchored == Err::<AmbientView, SourceError>(error)
            &&& print is Ok && edge is Err ==> anchored == Err::<AmbientView, SourceError>(
                edge->Err_0,
            )
            &&& print is Ok && edge is Ok ==> anchored is Ok && after.fingerprint == print->Ok_0
                && after.boundary == edge->Ok_0 && after.offset_bytes == cursor.offset_bytes
                && after.lines_ingested == cursor.lines_ingested && after.state == cursor.state
                && after.pending_event_outbox == cursor.pending_event_outbox
        }),
{
}

/// A session's pass reads on within the bounds of a transcript's; the end of the source, an open
/// line, a cancellation and a failure each stop it in their own way.
pub proof fn law_session_reads_stop_the_pass(
    pass: SessionPass,
    error: TailError,
    offset: int,
    buffered: int,
)
    ensures
        pass.takes_line() <==> pass.chunk@.len() < 64 && pass.pass_rows + pass.chunk@.len() < 256
            && pass.pass_source_bytes < 32 * 1024 * 1024 && pass.terminal_error is None
            && !pass.reached_snapshot_boundary && !pass.cancelled,
        pass.next_line_no() == pass.cursor@.lines_ingested + pass.chunk@.len() + 1,
        pass.next_offset() == pass.cursor@.offset_bytes + pass.chunk_bytes,
        pass.after_read(Ok(ReadView::SnapshotEof)) == (SessionPass {
            reached_snapshot_boundary: true,
            ..pass
        }),
        pass.after_read(
            Ok(ReadView::IncompleteTail { source_offset_bytes: offset, buffered_bytes: buffered }),
        ) == (SessionPass { reached_snapshot_boundary: true, ..pass }),
        pass.after_read(Ok(ReadView::Cancelled)) == (SessionPass { cancelled: true, ..pass }),
        pass.after_read(Err(error)) == (SessionPass {
            terminal_error: Some(PassError::Source(SourceError::Tail(error))),
            ..pass
        }),
{
}

/// Behind a chunk the events are drafted for the cursor that covers it, with the latest signal
/// of the pass; otherwise for the cursor as it stands, without a signal.
pub proof fn law_events_are_drafted_for_the_covering_cursor(run: SessionRun)
    ensures
        run.stage == SessionRunStage::Events && run.next is Some ==> run.drafting().0
            == run.next->0@ && run.drafting().1 == outbox::opt_lifecycle(
            pass::latest_signal(run.pass),
        ),
        run.stage != SessionRunStage::Events ==> run.drafting().0 == run.pass.cursor@
            && run.drafting().1 is None,
{
}

} // verus!
