//! How a source is read line by line, and what a cursor keeps of it.
use crate::roots;
use crate::roots::PathStyle;
use crate::transcripts::chunk::PreparedTranscriptRow;
use crate::transcripts::cursor::CursorView;
use crate::transcripts::drive;
use crate::transcripts::drive::{IngestAction, RunStage, SpawnRun, SurveyStage};
use crate::transcripts::ingest;
use crate::transcripts::ingest::{
    EndRow, EndState, PassError, ReadbackError, RowEncoding, SourceCheck, SourceFile, SpawnIngestOutcome,
    TranscriptPass,
};
use crate::transcripts::record::{TranscriptParseStatus, TranscriptSource};
use crate::transcripts::source;
use crate::transcripts::source::{
    BoundaryEvidence, CoveredRow, FingerprintEvidence, RangeRead, SourceError,
};
use crate::transcripts::tail;
use crate::transcripts::tail::{BoundedTailRead, ReadView, SourceOpening, TailError};
use vstd::prelude::*;
use vstd::string::*;

verus! {

proof fn lemma_first_feed(bytes: Seq<u8>, from: int, at: int)
    requires
        0 <= from <= at <= bytes.len(),
        forall|i: int| from <= i < at ==> #[trigger] bytes[i] != 10,
        at < bytes.len() ==> bytes[at] == 10,
    ensures
        tail::line_feed_from(bytes, from) == at,
    decreases at - from,
{
    if from < at {
        assert(bytes[from] != 10);
        lemma_first_feed(bytes, from + 1, at);
    }
}

/// A line ends at the first line feed behind its beginning. Its bytes are those before the
/// feed, without a carriage return right before it, and it takes all of them and the feed. A
/// line of more than ten mebibytes is not read.
pub proof fn law_lines_end_at_the_first_feed(
    source: Seq<u8>,
    offset: int,
    at: int,
    finalize: bool,
)
    requires
        0 <= offset <= at < source.len(),
        source[at] == 10,
        forall|i: int| offset <= i < at ==> #[trigger] source[i] != 10,
    ensures
        ({
            let cut = at > offset && source[at - 1] == 13;
            let end = if cut {
                at - 1
            } else {
                at
            };
            &&& end - offset <= 10 * 1024 * 1024 ==> tail::line_at(source, offset, finalize) == Some(
                ReadView::Line {
                    bytes: source.subrange(offset, end),
                    consumed_bytes: at + 1 - offset,
                    source_offset_bytes: offset,
                },
            )
            &&& end - offset > 10 * 1024 * 1024 ==> tail::line_at(source, offset, finalize) is None
        }),
{
    let rest = source.skip(offset);
    assert(rest[at - offset] == 10);
    assert forall|i: int| 0 <= i < at - offset implies #[trigger] rest[i] != 10 by {
        assert(source[offset + i] != 10);
    }
    lemma_first_feed(rest, 0, at - offset);
    let segment = rest.subrange(0, at - offset + 1);
    assert(segment.drop_last() =~= source.subrange(offset, at));
    if at > offset {
        assert(segment.drop_last().last() == source[at - 1]);
        assert(segment.drop_last().drop_last() =~= source.subrange(offset, at - 1));
    }
}

/// Bytes behind the last line feed are a line only where the source is final; otherwise they
/// wait for the rest of the line. At the end of the source there is nothing to read.
pub proof fn law_open_lines_wait(source: Seq<u8>, offset: int)
    requires
        0 <= offset <= source.len(),
        forall|i: int| offset <= i < source.len() ==> #[trigger] source[i] != 10,
    ensures
        offset == source.len() ==> tail::line_at(source, offset, true) == Some(ReadView::SnapshotEof)
            && tail::line_at(source, offset, false) == Some(ReadView::SnapshotEof),
        offset < source.len() && source.len() - offset <= 10 * 1024 * 1024 ==> tail::line_at(
            source,
            offset,
            true,
        ) == Some(
            ReadView::Line {
                bytes: source.subrange(offset, source.len() as int),
                consumed_bytes: source.len() - offset,
                source_offset_bytes: offset,
            },
        ),
        offset < source.len() && source.len() - offset <= 10 * 1024 * 1024 ==> tail::line_at(
            source,
            offset,
            false,
        ) == Some(
            ReadView::IncompleteTail {
                source_offset_bytes: offset,
                buffered_bytes: source.len() - offset,
            },
        ),
        source.len() - offset > 10 * 1024 * 1024 ==> tail::line_at(source, offset, true) is None,
        source.len() - offset > 10 * 1024 * 1024 + 1 ==> tail::line_at(source, offset, false) is None,
{
    let rest = source.skip(offset);
    assert forall|i: int| 0 <= i < rest.len() implies #[trigger] rest[i] != 10 by {
        assert(source[offset + i] != 10);
    }
    lemma_first_feed(rest, 0, rest.len() as int);
    assert(rest =~= source.subrange(offset, source.len() as int));
}

/// A source is opened at an offset that it reaches; a shorter one is truncated, and a failure
/// to open it or to go there is named.
pub proof fn law_sources_open_at_their_offset(offset_bytes: u64, snapshot_size_bytes: u64)
    ensures
        snapshot_size_bytes < offset_bytes ==> tail::opening_refusal(
            offset_bytes,
            snapshot_size_bytes,
            SourceOpening::Opened,
        ) == Some(TailError::Truncated { offset_bytes, snapshot_size_bytes }),
        snapshot_size_bytes >= offset_bytes ==> {
            &&& tail::opening_refusal(offset_bytes, snapshot_size_bytes, SourceOpening::Opened) is None
            &&& tail::opening_refusal(offset_bytes, snapshot_size_bytes, SourceOpening::OpenFailed)
                == Some(TailError::OpenFailed { offset_bytes })
            &&& tail::opening_refusal(offset_bytes, snapshot_size_bytes, SourceOpening::SeekFailed)
                == Some(TailError::SeekFailed { offset_bytes })
        },
{
}

/// A new cursor names its spawn and its source, begins at the first byte with the model of the
/// launch, and has seen nothing.
pub proof fn law_new_cursors_begin_at_the_first_byte(
    spawn_id: Seq<char>,
    source_path: Seq<char>,
    source: TranscriptSource,
    model: Option<Seq<char>>,
    source_epoch_unix_ms: Option<u64>,
    now_ns: u64,
)
    ensures
        ({
            let cursor = ingest::fresh_cursor(
                spawn_id,
                source_path,
                source,
                model,
                source_epoch_unix_ms,
                now_ns,
            );
            &&& cursor.record_version == 1
            &&& cursor.spawn_id == spawn_id
            &&& cursor.source == source
            &&& cursor.source_path == source_path
            &&& cursor.offset_bytes == 0
            &&& cursor.lines_ingested == 0
            &&& cursor.parsed_rows == 0
            &&& cursor.invalid_rows == 0
            &&& cursor.stream.turn_index == 0
            &&& cursor.stream.last_assistant_message_id is None
            &&& cursor.stream.seen_message_ids.len() == 0
            &&& cursor.stream.conversation_id is None
            &&& cursor.stream.model == model
            &&& cursor.source_epoch_unix_ms == source_epoch_unix_ms
            &&& cursor.fingerprint.bytes is None
            &&& cursor.fingerprint.sha256 is None
            &&& cursor.boundary.start_offset_bytes is None
            &&& cursor.boundary.bytes is None
            &&& cursor.boundary.sha256 is None
            &&& !cursor.source_complete
            &&& cursor.completed_reason is None
            &&& cursor.end_state_anchor_outcome is None
            &&& cursor.end_state_anchor_rows is None
            &&& cursor.error is None
            &&& cursor.updated_ts_ns == now_ns
        }),
{
}

/// A source at another path than the cursor's parks the spawn; a cancelled pass is over, a
/// parked spawn is skipped; a file that cannot be looked at, that is none, or that has become
/// shorter than what was read of it parks the spawn; any other is read up to its size.
pub proof fn law_sources_are_surveyed(
    cursor: CursorView,
    discovered_path: Seq<char>,
    style: PathStyle,
    cancelled: bool,
    file: SourceFile,
)
    ensures
        ({
            let check = ingest::survey(cursor, discovered_path, style, cancelled, file);
            let same = roots::same_path_spec(cursor.source_path, discovered_path, style);
            let open = same && !cancelled && cursor.error is None;
            &&& !same ==> check == SourceCheck::Stick(PassError::SourcePathMismatch)
            &&& same && cancelled ==> check == SourceCheck::Done(
                (SpawnIngestOutcome {
                    new_parsed_rows: 0,
                    new_invalid_rows: 0,
                    lines_ingested_total: cursor.lines_ingested,
                    source_complete: false,
                    deferred_for_pressure: false,
                    skipped: false,
                    cancelled: true,
                }),
            )
            &&& same && !cancelled && cursor.error is Some ==> check == SourceCheck::Done(
                (SpawnIngestOutcome {
                    new_parsed_rows: 0,
                    new_invalid_rows: 0,
                    lines_ingested_total: cursor.lines_ingested,
                    source_complete: false,
                    deferred_for_pressure: false,
                    skipped: true,
                    cancelled: false,
                }),
            )
            &&& open && file is StatFailed ==> check == SourceCheck::Stick(
                PassError::SourceStatFailed,
            )
            &&& open && file is NotFile ==> check == SourceCheck::Stick(PassError::SourceNotFile)
            &&& open && (file matches SourceFile::Size(size) && size < cursor.offset_bytes) ==> check
                == SourceCheck::Stick(
                (PassError::SourceTruncated { file_size_bytes: file->Size_0 }),
            )
            &&& open && (file matches SourceFile::Size(size) && size >= cursor.offset_bytes) ==> check
                == (SourceCheck::Ready { file_size_bytes: file->Size_0, store: false })
        }),
{
}

/// A completed source that has grown is open again: it is not complete and has no reason and no
/// end state; what was read of it stays.
pub proof fn law_grown_sources_are_reopened(cursor: CursorView, now_ns: u64)
    ensures
        ({
            let after = ingest::reopened(cursor, now_ns);
            &&& !after.source_complete
            &&& after.completed_reason is None
            &&& after.end_state_anchor_outcome is None
            &&& after.end_state_anchor_rows is None
            &&& after.updated_ts_ns == now_ns
            &&& after.offset_bytes == cursor.offset_bytes
            &&& after.lines_ingested == cursor.lines_ingested
            &&& after.parsed_rows == cursor.parsed_rows
            &&& after.invalid_rows == cursor.invalid_rows
            &&& after.stream == cursor.stream
            &&& after.fingerprint == cursor.fingerprint
            &&& after.boundary == cursor.boundary
            &&& after.error == cursor.error
            &&& after.spawn_id == cursor.spawn_id
        }),
{
}

proof fn lemma_rows_with(rows: Seq<PreparedTranscriptRow>, status: TranscriptParseStatus)
    ensures
        ingest::rows_with(rows, status) == rows.filter(
            |row: PreparedTranscriptRow| row.record.status == status,
        ).len(),
    decreases rows.len(),
{
    reveal(Seq::filter);
    if rows.len() > 0 {
        lemma_rows_with(rows.drop_last(), status);
    }
}

/// The rows of a chunk are counted by their status, and their source bytes add up.
pub proof fn law_chunk_rows_are_counted(
    rows: Seq<PreparedTranscriptRow>,
    row: PreparedTranscriptRow,
    status: TranscriptParseStatus,
)
    ensures
        ingest::rows_with(rows, status) == rows.filter(
            |row: PreparedTranscriptRow| row.record.status == status,
        ).len(),
        ingest::bytes_of(Seq::<PreparedTranscriptRow>::empty()) == 0,
        ingest::bytes_of(rows.push(row)) == ingest::bytes_of(rows) + row.consumed_bytes,
{
    lemma_rows_with(rows, status);
    assert(rows.push(row).drop_last() =~= rows);
}

/// The cursor that covers a chunk has the bytes and the lines of the chunk behind it, counts its
/// parsed and its invalid rows, and has the stream after it; nothing else of it changes.
pub proof fn law_covering_cursors_count_the_chunk(pass: TranscriptPass)
    requires
        pass.wf(),
    ensures
        ({
            let before = pass.cursor@;
            let covered = ingest::covered(pass);
            let after = covered->Ok_0;
            let parses = before.parsed_rows + pass.chunk_parsed <= 0xffff_ffff_ffff_ffff;
            let refuses = before.invalid_rows + pass.chunk_invalid <= 0xffff_ffff_ffff_ffff;
            &&& covered is Ok <==> parses && refuses
            &&& !parses ==> covered == Err::<CursorView, PassError>(
                PassError::ParsedCounterOverflow,
            )
            &&& parses && !refuses ==> covered == Err::<CursorView, PassError>(
                PassError::InvalidCounterOverflow,
            )
            &&& covered is Ok ==> {
                &&& after.offset_bytes == before.offset_bytes + pass.chunk_bytes
                &&& after.lines_ingested == before.lines_ingested + pass.chunk@.len()
                &&& after.parsed_rows == before.parsed_rows + pass.chunk_parsed
                &&& after.invalid_rows == before.invalid_rows + pass.chunk_invalid
                &&& after.stream == pass.stream@
                &&& after.spawn_id == before.spawn_id
                &&& after.source == before.source
                &&& after.source_path == before.source_path
                &&& after.source_epoch_unix_ms == before.source_epoch_unix_ms
                &&& after.source_complete == before.source_complete
                &&& after.error == before.error
            }
        }),
{
}

/// A row is kept whose encoding has at most 32 kibibytes; a row that cannot be encoded, or is
/// longer, is refused under its line.
pub proof fn law_rows_are_bounded(line_no: u64, encoding: RowEncoding)
    ensures
        encoding is ValidationFailed ==> ingest::row_refusal(line_no, encoding) == Some(
            PassError::RowValidationFailed { line_no },
        ),
        encoding is EncodeFailed ==> ingest::row_refusal(line_no, encoding) == Some(
            PassError::RowEncodeFailed { line_no },
        ),
        encoding matches RowEncoding::Encoded { encoded, .. } ==> {
            &&& encoded@.len() <= 32 * 1024 ==> ingest::row_refusal(line_no, encoding) is None
            &&& encoded@.len() > 32 * 1024 ==> ingest::row_refusal(line_no, encoding) == Some(
                PassError::RowOversized { line_no, encoded_bytes: encoded@.len() as usize },
            )
        },
{
}

/// Reading goes on while a chunk has fewer than 64 rows, the pass fewer than 256 rows and less
/// than 32 mebibytes, and nothing has stopped it.
pub proof fn law_passes_are_bounded(pass: TranscriptPass)
    ensures
        pass.takes_line() <==> pass.chunk@.len() < 64 && pass.pass_rows + pass.chunk@.len() < 256
            && pass.pass_source_bytes < 32 * 1024 * 1024 && pass.pending_error is None
            && !pass.reached_snapshot_eof && !pass.incomplete_tail && !pass.cancelled,
        pass.next_line_no() == pass.cursor@.lines_ingested + pass.chunk@.len() + 1,
        pass.next_offset() == pass.cursor@.offset_bytes + pass.chunk_bytes,
{
}

/// What a read makes of the pass: the end of the source, an open line, a cancellation and a
/// failure each stop it in their own way; a line does not, unless its number does not fit.
pub proof fn law_reads_stop_the_pass(
    pass: TranscriptPass,
    error: TailError,
    bytes: Seq<u8>,
    consumed: int,
    offset: int,
)
    requires
        pass.next_line_no() <= 0xffff_ffff_ffff_ffff,
    ensures
        pass.after_read(Ok(ReadView::SnapshotEof)) == (TranscriptPass {
            reached_snapshot_eof: true,
            ..pass
        }),
        pass.after_read(
            Ok(ReadView::IncompleteTail { source_offset_bytes: offset, buffered_bytes: consumed }),
        ) == (TranscriptPass { incomplete_tail: true, ..pass }),
        pass.after_read(Ok(ReadView::Cancelled)) == (TranscriptPass { cancelled: true, ..pass }),
        pass.after_read(Err(error)) == (TranscriptPass {
            pending_error: Some(PassError::Source(SourceError::Tail(error))),
            ..pass
        }),
        pass.after_read(
            Ok(
                ReadView::Line { bytes, consumed_bytes: consumed, source_offset_bytes: offset },
            ),
        ) == pass,
{
}

/// The ends of a transcript are in order where its counters add up to its lines and, unless it
/// is empty, its first and its last row are there, valid, of the spawn and under their numbers.
pub proof fn law_transcript_ends_are_checked(cursor: CursorView, first: EndRow, last: EndRow)
    ensures
        ({
            let refusal = ingest::boundary_rows_refusal(cursor, first, last);
            let stands = |end: EndRow, line_no: u64|
                end.valid && (end.row matches CoveredRow::Row(row) && row.spawn_id@
                    == cursor.spawn_id && row.line_no == line_no);
            let counted = cursor.parsed_rows + cursor.invalid_rows == cursor.lines_ingested;
            &&& refusal is None <==> counted && (cursor.lines_ingested == 0 || (stands(first, 1)
                && stands(last, cursor.lines_ingested)))
            &&& cursor.parsed_rows + cursor.invalid_rows > 0xffff_ffff_ffff_ffff ==> refusal == Some(
                ReadbackError::CounterOverflow,
            )
            &&& cursor.parsed_rows + cursor.invalid_rows <= 0xffff_ffff_ffff_ffff && !counted
                ==> refusal == Some(ReadbackError::CounterMismatch)
        }),
        ingest::is_anchored(cursor) <==> cursor.end_state_anchor_outcome is Some
            && cursor.end_state_anchor_rows == Some(cursor.lines_ingested),
{
}

/// One end of a transcript is refused where its row could not be read, is missing, cannot be
/// decoded, is another's, or is not valid, in that order.
pub proof fn law_end_rows_are_their_own(end: EndRow, spawn_id: Seq<char>, line_no: u64)
    ensures
        ({
            let refusal = ingest::end_row_refusal(end, spawn_id, line_no);
            &&& end.row is Failed ==> refusal == Some(ReadbackError::RowReadFailed { line_no })
            &&& end.row is Missing ==> refusal == Some(ReadbackError::RowMissing { line_no })
            &&& end.row is Undecodable ==> refusal == Some(
                ReadbackError::RowUndecodable { line_no },
            )
            &&& end.row matches CoveredRow::Row(row) ==> {
                let own = row.spawn_id@ == spawn_id && row.line_no == line_no;
                &&& !own ==> refusal == Some(ReadbackError::RowIdentityMismatch { line_no })
                &&& own && !end.valid ==> refusal == Some(ReadbackError::RowInvalid { line_no })
                &&& own && end.valid ==> refusal is None
            }
        }),
        ingest::completion_reason(true) == "completion_status_terminal"@,
        ingest::completion_reason(false) == "finalized_at_teardown"@,
{
}

/// A cursor is at its source where both its fingerprint and its boundary are; it takes them over
/// and nothing else changes. The fingerprint is looked at first.
pub proof fn law_matched_cursors_take_their_identity(
    cursor: CursorView,
    file_size_bytes: u64,
    fingerprint: FingerprintEvidence,
    boundary: BoundaryEvidence,
)
    ensures
        ({
            let print = source::ensured_fingerprint(
                cursor.fingerprint,
                cursor.spawn_id,
                file_size_bytes,
                cursor.offset_bytes,
                fingerprint,
            );
            let edge = source::ensured_boundary(
                cursor.boundary,
                cursor.spawn_id,
                file_size_bytes,
                cursor.offset_bytes,
                cursor.lines_ingested,
                boundary,
            );
            let matched = ingest::matched_cursor(cursor, file_size_bytes, fingerprint, boundary);
            let after = matched->Ok_0;
            &&& print matches Err(error) ==> matched == Err::<CursorView, SourceError>(error)
            &&& print is Ok && edge is Err ==> matched == Err::<CursorView, SourceError>(edge->Err_0)
            &&& print is Ok && edge is Ok ==> matched is Ok && after.fingerprint == print->Ok_0
                && after.boundary == edge->Ok_0 && after.offset_bytes == cursor.offset_bytes
                && after.lines_ingested == cursor.lines_ingested && after.stream == cursor.stream
                && after.spawn_id == cursor.spawn_id && after.error == cursor.error
                && after.parsed_rows == cursor.parsed_rows && after.invalid_rows
                == cursor.invalid_rows && after.source_complete == cursor.source_complete
            &&& ingest::needs_migration(cursor) <==> cursor.offset_bytes > 0 && (
            cursor.fingerprint.bytes is None || cursor.boundary.sha256 is None)
        }),
{
}

/// The cursor behind a chunk has the fingerprint of its source and the boundary before its own
/// offset, and the time of the change; nothing else of it changes.
pub proof fn law_anchored_cursors_take_their_identity(
    cursor: CursorView,
    snapshot_size_bytes: u64,
    fingerprint: FingerprintEvidence,
    boundary: RangeRead,
    now_ns: u64,
)
    ensures
        ({
            let print = source::ensured_fingerprint(
                cursor.fingerprint,
                cursor.spawn_id,
                snapshot_size_bytes,
                cursor.offset_bytes,
                fingerprint,
            );
            let edge = source::boundary_spec(snapshot_size_bytes, cursor.offset_bytes, boundary);
            let anchored = ingest::anchored(
                cursor,
                snapshot_size_bytes,
                fingerprint,
                boundary,
                now_ns,
            );
            let after = anchored->Ok_0;
            &&& print matches Err(error) ==> anchored == Err::<CursorView, SourceError>(error)
            &&& print is Ok && edge is Err ==> anchored == Err::<CursorView, SourceError>(
                edge->Err_0,
            )
            &&& print is Ok && edge is Ok ==> anchored is Ok && after.fingerprint == print->Ok_0
                && after.boundary == edge->Ok_0 && after.updated_ts_ns == now_ns
                && after.offset_bytes == cursor.offset_bytes && after.lines_ingested
                == cursor.lines_ingested && after.stream == cursor.stream && after.error
                == cursor.error && after.spawn_id == cursor.spawn_id
        }),
{
}

/// A cursor without a fingerprint is given one only where the first line of its source can be
/// read and the row of line one stands for it.
pub proof fn law_fingerprints_are_given_to_proved_sources(
    evidence: FingerprintEvidence,
    source_id: Seq<char>,
)
    ensures
        ({
            let refusal = source::migration_refusal(evidence, source_id);
            let line = evidence.first_line;
            &&& refusal is None <==> (line matches Ok(BoundedTailRead::Line { bytes, .. })
                && evidence.first_row matches CoveredRow::Row(row) && source::stamps_line(
                row,
                source_id,
                1,
                bytes@,
            ))
            &&& line matches Err(error) ==> refusal == Some(SourceError::Tail(error))
            &&& line matches Ok(BoundedTailRead::Cancelled) ==> refusal == Some(
                SourceError::FingerprintMigrationCancelled,
            )
            &&& line matches Ok(BoundedTailRead::SnapshotEof) ==> refusal == Some(
                SourceError::FingerprintMigrationFailed,
            )
            &&& line matches Ok(BoundedTailRead::Line { bytes, .. }) ==> {
                &&& evidence.first_row is Failed ==> refusal == Some(
                    SourceError::FingerprintRowReadFailed,
                )
                &&& evidence.first_row is Missing ==> refusal == Some(
                    SourceError::FingerprintRowMissing,
                )
                &&& evidence.first_row is Undecodable ==> refusal == Some(
                    SourceError::FingerprintRowInvalid,
                )
                &&& (evidence.first_row matches CoveredRow::Row(row) && !source::stamps_line(
                    row,
                    source_id,
                    1,
                    bytes@,
                )) ==> refusal == Some(SourceError::FingerprintRowMismatch)
            }
        }),
{
}

/// A cursor without a boundary is given one only where it has ingested lines and the row of the
/// last stands for the last line before it.
pub proof fn law_boundaries_are_given_to_proved_sources(
    source_id: Seq<char>,
    snapshot_size_bytes: u64,
    cursor_offset_bytes: u64,
    lines_ingested: u64,
    evidence: BoundaryEvidence,
)
    ensures
        ({
            let refusal = source::legacy_refusal(
                source_id,
                snapshot_size_bytes,
                cursor_offset_bytes,
                lines_ingested,
                evidence,
            );
            let line = source::last_line_spec(
                snapshot_size_bytes,
                cursor_offset_bytes,
                evidence.last_line,
            );
            &&& refusal is None <==> lines_ingested > 0 && line is Ok && (
            evidence.last_row matches CoveredRow::Row(row) && source::stamps_line(
                row,
                source_id,
                lines_ingested,
                line->Ok_0,
            ))
            &&& lines_ingested == 0 ==> refusal == Some(SourceError::BoundaryMigrationCounterInvalid)
            &&& lines_ingested > 0 && line is Err ==> refusal == Some(line->Err_0)
            &&& lines_ingested > 0 && line is Ok && evidence.last_row is Failed ==> refusal == Some(
                SourceError::BoundaryMigrationRowReadFailed,
            )
            &&& lines_ingested > 0 && line is Ok && evidence.last_row is Missing ==> refusal == Some(
                SourceError::BoundaryMigrationRowMissing,
            )
            &&& lines_ingested > 0 && line is Ok && evidence.last_row is Undecodable ==> refusal
                == Some(SourceError::BoundaryMigrationRowInvalid)
        }),
{
}

/// A completed source that has not grown is over once its end state is anchored; one that has
/// grown is reopened; one that is not complete is read on.
pub proof fn law_completed_sources_resume(
    cursor: CursorView,
    file_size_bytes: u64,
    cancelled: bool,
    now_ns: u64,
)
    ensures
        ({
            let resumed = drive::resumed(cursor, file_size_bytes, cancelled);
            let grown = file_size_bytes > cursor.offset_bytes;
            &&& !cursor.source_complete ==> resumed == (
                SurveyStage::Gate,
                IngestAction::ReadCompletion,
            )
            &&& cursor.source_complete && grown ==> resumed == (
                SurveyStage::StoreReopened,
                IngestAction::StoreCursor,
            )
            &&& cursor.source_complete && !grown && !cancelled ==> resumed == (
                SurveyStage::Anchor,
                IngestAction::ReadAnchor,
            )
            &&& cursor.source_complete && !grown && cancelled ==> resumed == (
                SurveyStage::Over,
                IngestAction::Finish(
                    (SpawnIngestOutcome {
                        new_parsed_rows: 0,
                        new_invalid_rows: 0,
                        lines_ingested_total: cursor.lines_ingested,
                        source_complete: true,
                        deferred_for_pressure: false,
                        skipped: false,
                        cancelled: true,
                    }),
                ),
            )
            &&& !cursor.source_complete || !grown ==> drive::resumed_cursor(
                cursor,
                file_size_bytes,
                now_ns,
            ) == cursor
            &&& cursor.source_complete && grown ==> !drive::resumed_cursor(
                cursor,
                file_size_bytes,
                now_ns,
            ).source_complete
        }),
{
}

/// The end state is anchored where the ends of the transcript are in order: it is over where it
/// was anchored before or there is none yet, and stored where there is one.
pub proof fn law_end_states_are_anchored(
    cursor: CursorView,
    outcome: SpawnIngestOutcome,
    first: EndRow,
    last: EndRow,
    end_state: EndState,
)
    ensures
        ({
            let step = drive::anchor_step(cursor, outcome, first, last, end_state);
            let refusal = ingest::boundary_rows_refusal(cursor, first, last);
            let anchored = ingest::is_anchored(cursor);
            &&& refusal is Some ==> step == (
                SurveyStage::Over,
                IngestAction::Park(PassError::Readback(refusal->0)),
            )
            &&& refusal is None && anchored ==> step == (
                SurveyStage::Over,
                IngestAction::Finish(outcome),
            )
            &&& refusal is None && !anchored && end_state is Failed ==> step == (
                SurveyStage::Over,
                IngestAction::Park(PassError::EndStateAnchorFailed),
            )
            &&& refusal is None && !anchored && end_state is Absent ==> step == (
                SurveyStage::Over,
                IngestAction::Finish(outcome),
            )
            &&& refusal is None && !anchored && end_state is Anchored ==> step == (
                SurveyStage::StoreAnchor,
                IngestAction::StoreCursor,
            )
        }),
{
}

/// The outcome of a pass has the rows that it stored, the lines of its cursor and whether it was
/// cancelled.
pub proof fn law_outcomes_tell_the_pass(pass: TranscriptPass, cursor: CursorView)
    ensures
        drive::outcome_of(pass).new_parsed_rows == pass.new_parsed,
        drive::outcome_of(pass).new_invalid_rows == pass.new_invalid,
        drive::outcome_of(pass).lines_ingested_total == pass.cursor@.lines_ingested,
        drive::outcome_of(pass).source_complete == pass.cursor@.source_complete,
        !drive::outcome_of(pass).deferred_for_pressure,
        !drive::outcome_of(pass).skipped,
        drive::outcome_of(pass).cancelled == pass.cancelled,
        drive::anchored_outcome(cursor).source_complete,
        drive::anchored_outcome(cursor).skipped,
        !drive::anchored_outcome(cursor).cancelled,
        drive::anchored_outcome(cursor).new_parsed_rows == 0,
        drive::anchored_outcome(cursor).new_invalid_rows == 0,
        drive::anchored_outcome(cursor).lines_ingested_total == cursor.lines_ingested,
{
}

/// A chunk with rows is committed unless the pass is cancelled, which drops it; an empty chunk
/// parks the spawn where an error waits. Once the source has ended and is final, it is looked at
/// once more; otherwise the pass is over.
pub proof fn law_chunks_are_committed_or_dropped(run: SpawnRun, cancelled: bool)
    ensures
        ({
            let rows = run.pass.chunk@.len() > 0;
            let after = run.after_chunk(cancelled);
            let ended = run.finalize && run.pass.reached_snapshot_eof && !run.pass.cancelled;
            &&& ended ==> run.after_pass() == (RunStage::FinalStat, IngestAction::StatAgain)
            &&& !ended ==> run.after_pass() == (
                RunStage::Over,
                IngestAction::Finish(drive::outcome_of(run.pass)),
            )
            &&& run.pass.cancelled ==> after == run.after_pass()
            &&& !run.pass.cancelled && rows && !cancelled ==> after == (
                RunStage::Commit,
                IngestAction::CommitChunk,
            )
            &&& !run.pass.cancelled && rows && cancelled ==> after.0 == RunStage::Over
                && after.1 is Finish && after.1->Finish_0.cancelled
                && after.1->Finish_0.new_parsed_rows == run.pass.new_parsed
            &&& !run.pass.cancelled && !rows && run.pass.pending_error is Some ==> after == (
                RunStage::Over,
                IngestAction::Park(run.pass.pending_error->0),
            )
            &&& !run.pass.cancelled && !rows && run.pass.pending_error is None ==> after
                == run.after_pass()
            &&& run.ended_chunk(cancelled).cancelled <==> run.pass.cancelled || (rows && cancelled)
        }),
{
}

} // verus!
