//! How a source is read piece by piece, and what a line leaves behind.
use crate::ambient::pass;
use crate::ambient::pass::PendingSessionLine;
use crate::ambient::tracking::AmbientView;
use crate::guarded::RowRead;
use crate::transcripts::chunk;
use crate::transcripts::chunk::{
    ChunkFamily, ChunkGuard, PreparedTranscriptRow, RowPrecondition,
};
use crate::transcripts::cursor::CursorView;
use crate::transcripts::ingest;
use crate::transcripts::ingest::{PendingLine, RowEncoding};
use crate::transcripts::source;
use crate::transcripts::source::FingerprintEvidence;
use crate::transcripts::tail;
use crate::transcripts::tail::{ReadView, ReaderView, StepView, TailError, TailEvent};
use vstd::prelude::*;

verus! {

proof fn lemma_first_feed(bytes: Seq<u8>, from: int, at: int)
    requires
        0 <= from <= at <= bytes.len(),
        forall|i: int| from <= i < at ==> #[trigger] bytes[i] != 10,
        at < bytes.len() ==> bytes[at] == 10,
    ensures
        tail::line_feed_from(bytes, from) == at,
    decreases at - from,
{
    if from < at {
        assert(bytes[from] != 10);
        lemma_first_feed(bytes, from + 1, at);
    }
}

/// A reader that is cancelled has read nothing and forgets the piece that it holds; one that
/// cannot read names the place.
pub proof fn law_readers_stop_where_they_are(reader: ReaderView, finalize: bool)
    requires
        reader.wf(),
        reader.snapshot_size_bytes <= u64::MAX,
    ensures
        ({
            let step = tail::step_of(reader, TailEvent::Cancelled, finalize);
            let after = tail::reader_after(reader, TailEvent::Cancelled, step);
            &&& step == (StepView::Done { taken_bytes: 0, read: ReadView::Cancelled })
            &&& after.next_offset_bytes == reader.next_offset_bytes
            &&& after.line_start_bytes == reader.next_offset_bytes
            &&& after.snapshot_size_bytes == reader.snapshot_size_bytes
            &&& after.line.len() == 0
            &&& tail::step_of(reader, TailEvent::Failed, finalize) matches StepView::Failed(error)
                && error matches TailError::ReadFailed { offset_bytes } && offset_bytes
                == reader.next_offset_bytes
        }),
{
}

/// A reader that gets no more bytes before the end of the snapshot says how many it lacks. At
/// the end it has nothing, a piece that waits, or a last line where the source is final.
pub proof fn law_readers_end_with_the_snapshot(reader: ReaderView, finalize: bool, none: &[u8])
    requires
        reader.wf(),
        reader.snapshot_size_bytes <= u64::MAX,
        none@.len() == 0,
    ensures
        ({
            let step = tail::step_of(reader, TailEvent::Available(none), finalize);
            let after = tail::reader_after(reader, TailEvent::Available(none), step);
            let held = reader.line.len() as int;
            let lacking = reader.snapshot_size_bytes - reader.next_offset_bytes;
            &&& lacking > 0 ==> step == StepView::Failed(
                TailError::ChangedDuringRead {
                    line_start_offset_bytes: reader.line_start_bytes as u64,
                    unread_snapshot_bytes: lacking as u64,
                },
            )
            &&& lacking == 0 && held == 0 ==> step == (StepView::Done {
                taken_bytes: 0,
                read: ReadView::SnapshotEof,
            })
            &&& lacking == 0 && held > 0 && !finalize ==> step == (StepView::Done {
                taken_bytes: 0,
                read: ReadView::IncompleteTail {
                    source_offset_bytes: reader.line_start_bytes,
                    buffered_bytes: held,
                },
            })
            &&& lacking == 0 && 0 < held <= 10 * 1024 * 1024 && finalize ==> step == (
            StepView::Done {
                taken_bytes: 0,
                read: ReadView::Line {
                    bytes: reader.line,
                    consumed_bytes: held,
                    source_offset_bytes: reader.line_start_bytes,
                },
            })
            &&& lacking == 0 && held > 10 * 1024 * 1024 && finalize ==> step == StepView::Failed(
                TailError::RecordOversized {
                    line_start_offset_bytes: reader.line_start_bytes as u64,
                    observed_bytes: held as usize,
                },
            )
            &&& lacking == 0 && !(step is Failed) ==> after.next_offset_bytes
                == reader.next_offset_bytes && after.line_start_bytes == reader.next_offset_bytes
                && after.line.len() == 0
        }),
{
    assert(none@.subrange(0, 0) =~= none@);
}

/// A line feed ends the line: the reader takes the bytes up to it and no more, and the line is
/// the piece it held and these bytes, without the feed and a carriage return right before it.
/// The next line begins behind the feed.
pub proof fn law_readers_take_up_to_the_feed(
    reader: ReaderView,
    available: &[u8],
    at: int,
    finalize: bool,
)
    requires
        reader.wf(),
        reader.next_offset_bytes + available@.len() <= reader.snapshot_size_bytes <= u64::MAX,
        0 <= at < available@.len(),
        available@[at] == 10,
        forall|i: int| 0 <= i < at ==> #[trigger] available@[i] != 10,
    ensures
        ({
            let step = tail::step_of(reader, TailEvent::Available(available), finalize);
            let after = tail::reader_after(reader, TailEvent::Available(available), step);
            let whole = reader.line + available@.subrange(0, at);
            let line = if whole.len() > 0 && whole[whole.len() - 1] == 13 {
                whole.subrange(0, whole.len() - 1)
            } else {
                whole
            };
            &&& line.len() <= 10 * 1024 * 1024 ==> step == (StepView::Done {
                taken_bytes: at + 1,
                read: ReadView::Line {
                    bytes: line,
                    consumed_bytes: (whole.len() + 1) as int,
                    source_offset_bytes: reader.line_start_bytes,
                },
            }) && after.next_offset_bytes == reader.next_offset_bytes + at + 1
                && after.line_start_bytes == reader.next_offset_bytes + at + 1 && after.line.len()
                == 0 && after.snapshot_size_bytes == reader.snapshot_size_bytes
            &&& line.len() > 10 * 1024 * 1024 ==> step == StepView::Failed(
                TailError::RecordOversized {
                    line_start_offset_bytes: reader.line_start_bytes as u64,
                    observed_bytes: line.len() as usize,
                },
            )
        }),
{
    lemma_first_feed(available@, 0, at);
    let whole = reader.line + available@.subrange(0, at);
    let segment = reader.line + available@.subrange(0, at + 1);
    assert(segment.drop_last() =~= whole);
    if whole.len() > 0 {
        assert(whole.drop_last() =~= whole.subrange(0, whole.len() - 1));
    }
}

/// Bytes without a line feed are added to the piece that the reader holds, all of them, unless
/// the line has become too long.
pub proof fn law_readers_hold_open_lines(reader: ReaderView, available: &[u8], finalize: bool)
    requires
        reader.wf(),
        reader.next_offset_bytes + available@.len() <= reader.snapshot_size_bytes <= u64::MAX,
        available@.len() > 0,
        forall|i: int| 0 <= i < available@.len() ==> #[trigger] available@[i] != 10,
    ensures
        ({
            let step = tail::step_of(reader, TailEvent::Available(available), finalize);
            let after = tail::reader_after(reader, TailEvent::Available(available), step);
            let whole = reader.line + available@;
            let limit = 10 * 1024 * 1024int;
            let fits = whole.len() <= limit || (whole.len() == limit + 1 && whole[limit] == 13);
            &&& fits ==> step == (StepView::More { taken_bytes: available@.len() as int })
                && after.line == whole && after.line_start_bytes == reader.line_start_bytes
                && after.next_offset_bytes == reader.next_offset_bytes + available@.len()
                && after.snapshot_size_bytes == reader.snapshot_size_bytes
            &&& !fits ==> step == StepView::Failed(
                TailError::RecordOversized {
                    line_start_offset_bytes: reader.line_start_bytes as u64,
                    observed_bytes: whole.len() as usize,
                },
            )
        }),
{
    lemma_first_feed(available@, 0, available@.len() as int);
}

/// A step that ends the read tells what was read or why not; one that goes on tells nothing.
pub proof fn law_steps_tell_their_read(taken_bytes: int, read: ReadView, error: TailError)
    ensures
        tail::read_of(StepView::More { taken_bytes }) is None,
        tail::read_of(StepView::Done { taken_bytes, read }) == Some(Ok::<ReadView, TailError>(read)),
        tail::read_of(StepView::Failed(error)) == Some(Err::<ReadView, TailError>(error)),
        tail::taken_of(StepView::More { taken_bytes }) == taken_bytes,
        tail::taken_of(StepView::Done { taken_bytes, read }) == taken_bytes,
{
}

/// The row of a line holds the record and the place of the line, under the keys and with the
/// bytes that it was encoded to.
pub proof fn law_rows_hold_their_line(
    line: PendingLine,
    session_line: PendingSessionLine,
    encoding: RowEncoding,
)
    requires
        encoding is Encoded,
    ensures
        ({
            let row = ingest::encoded_row(line, encoding);
            &&& row.source_key == encoding->source_key
            &&& row.encoded == encoding->encoded
            &&& row.ts_index_key == encoding->ts_index_key
            &&& row.record == line.record
            &&& row.source_offset_bytes == line.source_offset_bytes
            &&& row.consumed_bytes == line.consumed_bytes
        }),
        ({
            let row = pass::session_row(session_line, encoding);
            &&& row.source_key == encoding->source_key
            &&& row.encoded == encoding->encoded
            &&& row.ts_index_key == encoding->ts_index_key
            &&& row.record == session_line.record
            &&& row.source_offset_bytes == session_line.source_offset_bytes
            &&& row.consumed_bytes == session_line.consumed_bytes
        }),
{
}

/// A source that is not the one of its cursor changes nothing but a fingerprint that the
/// cursor lacked and that the source has proved.
pub proof fn law_unmatched_sources_leave_the_cursor(
    cursor: CursorView,
    session: AmbientView,
    file_size_bytes: u64,
    fingerprint: FingerprintEvidence,
)
    ensures
        ({
            let print = source::ensured_fingerprint(
                cursor.fingerprint,
                cursor.spawn_id,
                file_size_bytes,
                cursor.offset_bytes,
                fingerprint,
            );
            let left = ingest::unmatched_cursor(cursor, file_size_bytes, fingerprint);
            &&& print is Err ==> left == cursor
            &&& print is Ok ==> left.fingerprint == print->Ok_0
            &&& cursor.fingerprint.bytes is Some ==> left == cursor
            &&& left.boundary == cursor.boundary
            &&& left.offset_bytes == cursor.offset_bytes
            &&& left.lines_ingested == cursor.lines_ingested
            &&& left.stream == cursor.stream
            &&& left.error == cursor.error
            &&& left.source_complete == cursor.source_complete
        }),
        ({
            let print = source::ensured_fingerprint(
                session.fingerprint,
                session.spawn_id,
                file_size_bytes,
                session.offset_bytes,
                fingerprint,
            );
            let left = pass::unmatched_session(session, file_size_bytes, fingerprint);
            &&& print is Err ==> left == session
            &&& print is Ok ==> left.fingerprint == print->Ok_0
            &&& session.fingerprint.bytes is Some ==> left == session
            &&& left.boundary == session.boundary
            &&& left.offset_bytes == session.offset_bytes
            &&& left.lines_ingested == session.lines_ingested
            &&& left.state == session.state
            &&& left.error == session.error
            &&& left.pending_event_outbox == session.pending_event_outbox
        }),
{
}

/// A pass counts the bytes of each line that it takes, up to the greatest number there is.
pub proof fn law_source_bytes_add_up(taken_bytes: u64, line_bytes: u64)
    ensures
        taken_bytes + line_bytes <= u64::MAX ==> ingest::source_bytes_after(taken_bytes, line_bytes)
            == taken_bytes + line_bytes,
        taken_bytes + line_bytes > u64::MAX ==> ingest::source_bytes_after(taken_bytes, line_bytes)
            == u64::MAX,
{
}

/// A chunk is committed under two guards for each of its rows, that of the row and that of its
/// index entry. A place that was empty must still be empty; one that held just what is written
/// must still be at the revision that was read.
pub proof fn law_chunks_are_guarded_by_what_was_read(
    given: Seq<ChunkGuard>,
    rows: Seq<PreparedTranscriptRow>,
    preconditions: Seq<RowPrecondition>,
    at: int,
)
    requires
        chunk::guards_rows(given, rows, preconditions),
        0 <= at < rows.len() == preconditions.len(),
    ensures
        given.len() == rows.len() + rows.len(),
        ({
            let guard = given[at + at];
            &&& guard.family == ChunkFamily::Transcripts
            &&& guard.key@ == rows[at].source_key@
            &&& preconditions[at].source is Absent ==> guard.expected_revision_sha256 is None
            &&& preconditions[at].source matches RowRead::Found { value: Some(value), revision_sha256 }
                ==> (value@ == rows[at].encoded@ ==> guard.expected_revision_sha256 == Some(
                revision_sha256,
            ))
        }),
        ({
            let guard = given[at + at + 1];
            &&& guard.family == ChunkFamily::Index
            &&& guard.key@ == rows[at].ts_index_key@
            &&& preconditions[at].index is Absent ==> guard.expected_revision_sha256 is None
            &&& preconditions[at].index matches RowRead::Found { value: Some(value), revision_sha256 }
                ==> (value@ == rows[at].source_key@ ==> guard.expected_revision_sha256 == Some(
                revision_sha256,
            ))
        }),
{
    assert(chunk::guards_row(given, rows[at], preconditions[at], at));
}

} // verus!
