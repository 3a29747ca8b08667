//! Reading one line at a time from the bytes that a source held when a pass began.
use vstd::prelude::*;

verus! {

/// The most bytes of one line, its terminator left out.
pub const MAX_AGENT_TRANSCRIPT_SOURCE_LINE_BYTES: usize = 10 * 1024 * 1024;

/// The most bytes that are read at once.
pub const AGENT_TRANSCRIPT_READ_BUFFER_BYTES: usize = 64 * 1024;

/// Why a line could not be read.
#[derive(Clone, Copy, Debug, PartialEq, Eq, Structural)]
pub enum TailError {
    /// The snapshot ends before the offset.
    Truncated { offset_bytes: u64, snapshot_size_bytes: u64 },
    /// The source ended before its snapshot did.
    ChangedDuringRead { line_start_offset_bytes: u64, unread_snapshot_bytes: u64 },
    /// The line is longer than the limit.
    RecordOversized { line_start_offset_bytes: u64, observed_bytes: usize },
    /// The source could not be read.
    OpenFailed { offset_bytes: u64 },
    SeekFailed { offset_bytes: u64 },
    ReadFailed { offset_bytes: u64 },
}

/// What one read gives.
#[derive(Debug)]
pub enum BoundedTailRead {
    Line { bytes: Vec<u8>, consumed_bytes: u64, source_offset_bytes: u64 },
    SnapshotEof,
    IncompleteTail { source_offset_bytes: u64, buffered_bytes: usize },
    Cancelled,
}

/// A read with the line taken as a sequence.
pub enum ReadView {
    Line { bytes: Seq<u8>, consumed_bytes: int, source_offset_bytes: int },
    SnapshotEof,
    IncompleteTail { source_offset_bytes: int, buffered_bytes: int },
    Cancelled,
}

impl View for BoundedTailRead {
    type V = ReadView;

    open spec fn view(&self) -> ReadView {
        match *self {
            BoundedTailRead::Line { bytes, consumed_bytes, source_offset_bytes } => {
                ReadView::Line {
                    bytes: bytes@,
                    consumed_bytes: consumed_bytes as int,
                    source_offset_bytes: source_offset_bytes as int,
                }
            },
            BoundedTailRead::SnapshotEof => ReadView::SnapshotEof,
            BoundedTailRead::IncompleteTail { source_offset_bytes, buffered_bytes } => {
                ReadView::IncompleteTail {
                    source_offset_bytes: source_offset_bytes as int,
                    buffered_bytes: buffered_bytes as int,
                }
            },
            BoundedTailRead::Cancelled => ReadView::Cancelled,
        }
    }
}

/// What the reader of the source met.
#[derive(Clone, Copy, Debug)]
pub enum TailEvent<'a> {
    /// The pass was cancelled.
    Cancelled,
    /// The source could not be read.
    Failed,
    /// The next bytes of the snapshot, none at its end.
    Available(&'a [u8]),
}

/// What a reader makes of the bytes that it is handed.
pub open spec fn piece_step(reader: ReaderView, available: Seq<u8>, finalize: bool) -> StepView {
    if available.len() == 0 {
        end_step(reader, finalize)
    } else {
        bytes_step(reader, available)
    }
}

/// What follows an event.
#[derive(Debug)]
pub enum TailStep {
    /// So many bytes were taken and the line goes on.
    More { taken_bytes: usize },
    /// So many bytes were taken and the read is done.
    Done { taken_bytes: usize, read: BoundedTailRead },
    /// The read failed.
    Failed(TailError),
}

/// A step with the line taken as a sequence.
pub enum StepView {
    More { taken_bytes: int },
    Done { taken_bytes: int, read: ReadView },
    Failed(TailError),
}

impl View for TailStep {
    type V = StepView;

    open spec fn view(&self) -> StepView {
        match *self {
            TailStep::More { taken_bytes } => StepView::More { taken_bytes: taken_bytes as int },
            TailStep::Done { taken_bytes, read } => {
                StepView::Done { taken_bytes: taken_bytes as int, read: read@ }
            },
            TailStep::Failed(error) => StepView::Failed(error),
        }
    }
}

/// The place of the first line feed at or after `from`, or the length.
pub open spec fn line_feed_from(bytes: Seq<u8>, from: int) -> int
    decreases bytes.len() - from,
{
    if from >= bytes.len() {
        bytes.len() as int
    } else if bytes[from] == 10 {
        from
    } else {
        line_feed_from(bytes, from + 1)
    }
}

/// The line that a terminated segment holds: the line feed dropped, and one
/// carriage return before it.
pub open spec fn without_terminator(segment: Seq<u8>) -> Seq<u8> {
    let body = segment.drop_last();
    if body.len() > 0 && body.last() == 13 {
        body.drop_last()
    } else {
        body
    }
}

/// Whether an unterminated line may still turn out to be within the limit. The
/// one extra byte may be the carriage return of its terminator.
pub open spec fn may_fit(line: Seq<u8>) -> bool {
    line.len() <= MAX_AGENT_TRANSCRIPT_SOURCE_LINE_BYTES || (line.len()
        == MAX_AGENT_TRANSCRIPT_SOURCE_LINE_BYTES + 1 && line.last() == 13)
}

/// A reader bounded to the length that the source had before the pass.
#[derive(Debug)]
pub struct BoundedTranscriptTailReader {
    pub snapshot_size_bytes: u64,
    pub next_offset_bytes: u64,
    pub line_start_bytes: u64,
    pub line: Vec<u8>,
}

/// A reader with its buffered bytes taken as a sequence.
pub struct ReaderView {
    pub snapshot_size_bytes: int,
    pub next_offset_bytes: int,
    pub line_start_bytes: int,
    pub line: Seq<u8>,
}

impl View for BoundedTranscriptTailReader {
    type V = ReaderView;

    open spec fn view(&self) -> ReaderView {
        ReaderView {
            snapshot_size_bytes: self.snapshot_size_bytes as int,
            next_offset_bytes: self.next_offset_bytes as int,
            line_start_bytes: self.line_start_bytes as int,
            line: self.line@,
        }
    }
}

impl ReaderView {
    /// The buffered bytes are the unterminated bytes before the next offset.
    pub open spec fn wf(self) -> bool {
        &&& 0 <= self.line_start_bytes
        &&& self.line_start_bytes + self.line.len() == self.next_offset_bytes
        &&& self.next_offset_bytes <= self.snapshot_size_bytes
        &&& forall|i: int| 0 <= i < self.line.len() ==> self.line[i] != 10
        &&& may_fit(self.line)
    }

    /// The reader at its next offset with nothing buffered.
    pub open spec fn restarted(self) -> ReaderView {
        ReaderView {
            line_start_bytes: self.next_offset_bytes,
            line: Seq::<u8>::empty(),
            ..self
        }
    }

    /// The reader after it took `taken`.
    pub open spec fn advanced(self, taken: Seq<u8>) -> ReaderView {
        ReaderView {
            next_offset_bytes: self.next_offset_bytes + taken.len(),
            line: self.line + taken,
            ..self
        }
    }
}

/// The step of a record that is too long.
pub open spec fn oversized(reader: ReaderView, observed: int) -> StepView {
    StepView::Failed(
        TailError::RecordOversized {
            line_start_offset_bytes: reader.line_start_bytes as u64,
            observed_bytes: observed as usize,
        },
    )
}

/// What follows when the source has no more bytes.
pub open spec fn end_step(reader: ReaderView, finalize: bool) -> StepView {
    if reader.next_offset_bytes < reader.snapshot_size_bytes {
        StepView::Failed(
            TailError::ChangedDuringRead {
                line_start_offset_bytes: reader.line_start_bytes as u64,
                unread_snapshot_bytes: (reader.snapshot_size_bytes
                    - reader.next_offset_bytes) as u64,
            },
        )
    } else if reader.line.len() == 0 {
        StepView::Done { taken_bytes: 0, read: ReadView::SnapshotEof }
    } else if !finalize {
        StepView::Done {
            taken_bytes: 0,
            read: ReadView::IncompleteTail {
                source_offset_bytes: reader.line_start_bytes,
                buffered_bytes: reader.line.len() as int,
            },
        }
    } else if reader.line.len() > MAX_AGENT_TRANSCRIPT_SOURCE_LINE_BYTES {
        oversized(reader, reader.line.len() as int)
    } else {
        StepView::Done {
            taken_bytes: 0,
            read: ReadView::Line {
                bytes: reader.line,
                consumed_bytes: reader.line.len() as int,
                source_offset_bytes: reader.line_start_bytes,
            },
        }
    }
}

/// What follows when the source has `available` next. The bytes up to the first
/// line feed are taken, or all of them.
pub open spec fn bytes_step(reader: ReaderView, available: Seq<u8>) -> StepView {
    let feed = line_feed_from(available, 0);
    if feed < available.len() {
        let segment = reader.line + available.subrange(0, feed + 1);
        let line = without_terminator(segment);
        if line.len() > MAX_AGENT_TRANSCRIPT_SOURCE_LINE_BYTES {
            oversized(reader, line.len() as int)
        } else {
            StepView::Done {
                taken_bytes: feed + 1,
                read: ReadView::Line {
                    bytes: line,
                    consumed_bytes: segment.len() as int,
                    source_offset_bytes: reader.line_start_bytes,
                },
            }
        }
    } else {
        let line = reader.line + available;
        if !may_fit(line) {
            oversized(reader, line.len() as int)
        } else {
            StepView::More { taken_bytes: available.len() as int }
        }
    }
}

/// What follows an event.
pub open spec fn step_of(reader: ReaderView, event: TailEvent<'_>, finalize: bool) -> StepView {
    match event {
        TailEvent::Cancelled => StepView::Done { taken_bytes: 0, read: ReadView::Cancelled },
        TailEvent::Failed => StepView::Failed(
            TailError::ReadFailed { offset_bytes: reader.next_offset_bytes as u64 },
        ),
        TailEvent::Available(available) => piece_step(reader, available@, finalize),
    }
}

/// The reader after a step that did not fail.
pub open spec fn reader_after(reader: ReaderView, event: TailEvent<'_>, step: StepView) -> ReaderView {
    match (event, step) {
        (TailEvent::Available(available), StepView::More { taken_bytes }) => reader.advanced(
            available@,
        ),
        (TailEvent::Available(available), StepView::Done { taken_bytes, .. }) => reader.advanced(
            available@.subrange(0, taken_bytes),
        ).restarted(),
        _ => reader.restarted(),
    }
}

/// A read, or why it failed, with the line taken as a sequence.
pub open spec fn read_view(read: Result<BoundedTailRead, TailError>) -> Result<
    ReadView,
    TailError,
> {
    match read {
        Ok(done) => Ok(done@),
        Err(error) => Err(error),
    }
}

/// What an event makes of the line that is being read, if it ends it.
pub open spec fn read_of(step: StepView) -> Option<Result<ReadView, TailError>> {
    match step {
        StepView::More { .. } => None,
        StepView::Done { read, .. } => Some(Ok(read)),
        StepView::Failed(error) => Some(Err(error)),
    }
}

/// How many of the bytes that were handed in a step takes.
pub open spec fn taken_of(step: StepView) -> int {
    match step {
        StepView::More { taken_bytes } => taken_bytes,
        StepView::Done { taken_bytes, .. } => taken_bytes,
        StepView::Failed(_) => 0,
    }
}

/// A line starts where the reader started it, takes at least one byte, and the
/// reader goes on right behind it.
pub proof fn lemma_line_step(reader: ReaderView, event: TailEvent<'_>, finalize: bool)
    requires
        reader.wf(),
        step_of(reader, event, finalize) matches StepView::Done { read, .. } && read is Line,
    ensures
        ({
            let step = step_of(reader, event, finalize);
            let read = step->Done_read;
            &&& read->Line_source_offset_bytes == reader.line_start_bytes
            &&& read->Line_consumed_bytes > 0
            &&& reader_after(reader, event, step).line_start_bytes == reader.line_start_bytes
                + read->Line_consumed_bytes
        }),
{
    if let TailEvent::Available(available) = event {
        lemma_line_feed(available@, 0);
    }
}

proof fn lemma_line_feed(bytes: Seq<u8>, from: int)
    requires
        0 <= from <= bytes.len(),
    ensures
        from <= line_feed_from(bytes, from) <= bytes.len(),
        line_feed_from(bytes, from) < bytes.len() ==> bytes[line_feed_from(bytes, from)] == 10,
        forall|i: int| from <= i < line_feed_from(bytes, from) ==> bytes[i] != 10,
    decreases bytes.len() - from,
{
    if from < bytes.len() && bytes[from] != 10 {
        lemma_line_feed(bytes, from + 1);
    }
}

proof fn lemma_line_feed_unique(bytes: Seq<u8>, at: int)
    requires
        0 <= at <= bytes.len(),
        at < bytes.len() ==> bytes[at] == 10,
        forall|i: int| 0 <= i < at ==> bytes[i] != 10,
    ensures
        line_feed_from(bytes, 0) == at,
{
    lemma_line_feed(bytes, 0);
    let found = line_feed_from(bytes, 0);
    if found < at {
        assert(bytes[found] == 10);
    }
}

fn find_line_feed(bytes: &[u8]) -> (at: usize)
    ensures
        at == line_feed_from(bytes@, 0),
        at <= bytes@.len(),
{
    let mut index: usize = 0;
    while index < bytes.len() && bytes[index] != 10
        invariant
            index <= bytes@.len(),
            forall|i: int| 0 <= i < index ==> bytes@[i] != 10,
        decreases bytes@.len() - index,
    {
        index = index + 1;
    }
    proof {
        lemma_line_feed_unique(bytes@, index as int);
    }
    index
}

fn append_bytes(line: &mut Vec<u8>, bytes: &[u8], count: usize)
    requires
        count <= bytes@.len(),
    ensures
        final(line)@ == old(line)@ + bytes@.subrange(0, count as int),
{
    let mut index: usize = 0;
    while index < count
        invariant
            index <= count <= bytes@.len(),
            line@ == old(line)@ + bytes@.subrange(0, index as int),
        decreases count - index,
    {
        line.push(bytes[index]);
        index = index + 1;
        assert(line@ =~= old(line)@ + bytes@.subrange(0, index as int));
    }
}

/// What opening a source at an offset gave.
#[derive(Clone, Copy, Debug, PartialEq, Eq, Structural)]
pub enum SourceOpening {
    OpenFailed,
    SeekFailed,
    Opened,
}

/// Why no reader starts at an offset, if none does.
pub open spec fn opening_refusal(
    offset_bytes: u64,
    snapshot_size_bytes: u64,
    opening: SourceOpening,
) -> Option<TailError> {
    if snapshot_size_bytes < offset_bytes {
        Some(TailError::Truncated { offset_bytes, snapshot_size_bytes })
    } else {
        match opening {
            SourceOpening::OpenFailed => Some(TailError::OpenFailed { offset_bytes }),
            SourceOpening::SeekFailed => Some(TailError::SeekFailed { offset_bytes }),
            SourceOpening::Opened => None,
        }
    }
}

impl BoundedTranscriptTailReader {
    /// Starts at `offset_bytes` of a source that held `snapshot_size_bytes`.
    pub fn open(offset_bytes: u64, snapshot_size_bytes: u64, opening: SourceOpening) -> (reader:
        Result<Self, TailError>)
        ensures
            match opening_refusal(offset_bytes, snapshot_size_bytes, opening) {
                Some(error) => reader matches Err(given) && given == error,
                None => {
                    &&& reader matches Ok(opened) && opened@ == (ReaderView {
                        snapshot_size_bytes: snapshot_size_bytes as int,
                        next_offset_bytes: offset_bytes as int,
                        line_start_bytes: offset_bytes as int,
                        line: Seq::<u8>::empty(),
                    })
                    &&& reader->Ok_0@.wf()
                },
            },
    {
        if snapshot_size_bytes < offset_bytes {
            return Err(TailError::Truncated { offset_bytes, snapshot_size_bytes });
        }
        match opening {
            SourceOpening::OpenFailed => {
                return Err(TailError::OpenFailed { offset_bytes });
            },
            SourceOpening::SeekFailed => {
                return Err(TailError::SeekFailed { offset_bytes });
            },
            SourceOpening::Opened => {},
        }
        let line: Vec<u8> = Vec::new();
        assert(line@ =~= Seq::<u8>::empty());
        Ok(
            BoundedTranscriptTailReader {
                snapshot_size_bytes,
                next_offset_bytes: offset_bytes,
                line_start_bytes: offset_bytes,
                line,
            },
        )
    }

    /// Takes one event. The bytes handed in never reach past the snapshot.
    pub fn next_line(&mut self, event: TailEvent<'_>, finalize: bool) -> (step: TailStep)
        requires
            old(self)@.wf(),
            event matches TailEvent::Available(available) ==> old(self)@.next_offset_bytes
                + available@.len() <= old(self)@.snapshot_size_bytes,
        ensures
            step@ == step_of(old(self)@, event, finalize),
            !(step is Failed) ==> final(self)@ == reader_after(old(self)@, event, step@),
            !(step is Failed) ==> final(self)@.wf(),
    {
        let available: &[u8] = match event {
            TailEvent::Cancelled => {
                self.restart();
                return TailStep::Done { taken_bytes: 0, read: BoundedTailRead::Cancelled };
            },
            TailEvent::Failed => {
                return TailStep::Failed(
                    TailError::ReadFailed { offset_bytes: self.next_offset_bytes },
                );
            },
            TailEvent::Available(available) => available,
        };
        let start: u64 = self.line_start_bytes;
        if available.len() == 0 {
            assert(self@.advanced(available@.subrange(0, 0)).restarted() =~= self@.restarted());
            if self.next_offset_bytes < self.snapshot_size_bytes {
                return TailStep::Failed(
                    TailError::ChangedDuringRead {
                        line_start_offset_bytes: start,
                        unread_snapshot_bytes: self.snapshot_size_bytes - self.next_offset_bytes,
                    },
                );
            }
            if self.line.len() == 0 {
                self.restart();
                return TailStep::Done { taken_bytes: 0, read: BoundedTailRead::SnapshotEof };
            }
            if !finalize {
                let buffered_bytes: usize = self.line.len();
                self.restart();
                return TailStep::Done {
                    taken_bytes: 0,
                    read: BoundedTailRead::IncompleteTail {
                        source_offset_bytes: start,
                        buffered_bytes,
                    },
                };
            }
            if self.line.len() > MAX_AGENT_TRANSCRIPT_SOURCE_LINE_BYTES {
                return TailStep::Failed(
                    TailError::RecordOversized {
                        line_start_offset_bytes: start,
                        observed_bytes: self.line.len(),
                    },
                );
            }
            let consumed_bytes: u64 = self.line.len() as u64;
            let bytes = self.restart();
            return TailStep::Done {
                taken_bytes: 0,
                read: BoundedTailRead::Line { bytes, consumed_bytes, source_offset_bytes: start },
            };
        }
        let before: Ghost<ReaderView> = Ghost(self@);
        let feed: usize = find_line_feed(available);
        proof {
            lemma_line_feed(available@, 0);
        }
        let found: bool = feed < available.len();
        let taken_bytes: usize = if found {
            feed + 1
        } else {
            available.len()
        };
        append_bytes(&mut self.line, available, taken_bytes);
        self.next_offset_bytes = self.next_offset_bytes + taken_bytes as u64;
        proof {
            assert(available@.subrange(0, available@.len() as int) =~= available@);
        }
        if found {
            let consumed_bytes: u64 = self.line.len() as u64;
            let segment: Ghost<Seq<u8>> = Ghost(self.line@);
            let mut bytes = self.restart();
            let _ = bytes.pop();
            assert(bytes@ =~= segment@.drop_last());
            if bytes.len() > 0 && bytes[bytes.len() - 1] == 13 {
                let _ = bytes.pop();
            }
            assert(bytes@ =~= without_terminator(segment@));
            if bytes.len() > MAX_AGENT_TRANSCRIPT_SOURCE_LINE_BYTES {
                return TailStep::Failed(
                    TailError::RecordOversized {
                        line_start_offset_bytes: start,
                        observed_bytes: bytes.len(),
                    },
                );
            }
            return TailStep::Done {
                taken_bytes,
                read: BoundedTailRead::Line { bytes, consumed_bytes, source_offset_bytes: start },
            };
        }
        let buffered: usize = self.line.len();
        let fits: bool = buffered <= MAX_AGENT_TRANSCRIPT_SOURCE_LINE_BYTES || (buffered
            == MAX_AGENT_TRANSCRIPT_SOURCE_LINE_BYTES + 1 && self.line[buffered - 1] == 13);
        if !fits {
            return TailStep::Failed(
                TailError::RecordOversized {
                    line_start_offset_bytes: start,
                    observed_bytes: buffered,
                },
            );
        }
        assert(self@ =~= before@.advanced(available@));
        TailStep::More { taken_bytes }
    }

    fn restart(&mut self) -> (line: Vec<u8>)
        ensures
            line@ == old(self)@.line,
            final(self)@ == old(self)@.restarted(),
    {
        let mut line: Vec<u8> = Vec::new();
        assert(line@ =~= Seq::<u8>::empty());
        std::mem::swap(&mut self.line, &mut line);
        self.line_start_bytes = self.next_offset_bytes;
        line
    }
}

/// What reading at `offset` of a whole source gives; nothing where the line is
/// over the limit.
pub open spec fn line_at(source: Seq<u8>, offset: int, finalize: bool) -> Option<ReadView> {
    let rest = source.skip(offset);
    let feed = line_feed_from(rest, 0);
    if feed < rest.len() {
        let line = without_terminator(rest.subrange(0, feed + 1));
        if line.len() > MAX_AGENT_TRANSCRIPT_SOURCE_LINE_BYTES {
            None
        } else {
            Some(
                ReadView::Line {
                    bytes: line,
                    consumed_bytes: feed + 1,
                    source_offset_bytes: offset,
                },
            )
        }
    } else if rest.len() == 0 {
        Some(ReadView::SnapshotEof)
    } else if finalize {
        if rest.len() > MAX_AGENT_TRANSCRIPT_SOURCE_LINE_BYTES {
            None
        } else {
            Some(
                ReadView::Line {
                    bytes: rest,
                    consumed_bytes: rest.len() as int,
                    source_offset_bytes: offset,
                },
            )
        }
    } else if !may_fit(rest) {
        None
    } else {
        Some(
            ReadView::IncompleteTail {
                source_offset_bytes: offset,
                buffered_bytes: rest.len() as int,
            },
        )
    }
}

/// However the bytes of a source come in pieces, the line that is read at an
/// offset is the line that stands there. Until it is whole, the reader holds what
/// it has seen of it.
pub proof fn law_pieces_read_the_line(
    source: Seq<u8>,
    reader: ReaderView,
    available: Seq<u8>,
    finalize: bool,
)
    requires
        reader.wf(),
        reader.snapshot_size_bytes == source.len(),
        reader.line == source.subrange(reader.line_start_bytes, reader.next_offset_bytes),
        reader.next_offset_bytes + available.len() <= source.len(),
        available == source.subrange(
            reader.next_offset_bytes,
            reader.next_offset_bytes + available.len(),
        ),
        available.len() == 0 ==> reader.next_offset_bytes == source.len(),
    ensures
        match read_of(piece_step(reader, available, finalize)) {
            None => reader.advanced(available).line == source.subrange(
                reader.line_start_bytes,
                reader.next_offset_bytes + available.len(),
            ),
            Some(Ok(read)) => line_at(source, reader.line_start_bytes, finalize) == Some(read),
            Some(Err(_)) => line_at(source, reader.line_start_bytes, finalize) is None,
        },
{
    let rest = source.skip(reader.line_start_bytes);
    lemma_line_feed(available, 0);
    let feed = line_feed_from(available, 0);
    let buffered = reader.line.len() as int;
    assert forall|i: int| 0 <= i < buffered implies rest[i] == #[trigger] reader.line[i] by {}
    assert forall|i: int| 0 <= i < available.len() implies rest[buffered + i]
        == #[trigger] available[i] by {}
    assert forall|i: int| 0 <= i < buffered + feed implies rest[i] != 10 by {
        if i < buffered {
            assert(rest[i] == reader.line[i]);
        } else {
            assert(rest[buffered + (i - buffered)] == available[i - buffered]);
        }
    }
    if feed < available.len() {
        lemma_line_feed_unique(rest, buffered + feed);
        assert(reader.line + available.subrange(0, feed + 1) =~= rest.subrange(
            0,
            buffered + feed + 1,
        ));
    } else {
        assert(reader.line + available =~= rest.subrange(0, buffered + available.len()));
        assert(reader.line + available =~= source.subrange(
            reader.line_start_bytes,
            reader.next_offset_bytes + available.len(),
        ));
        if available.len() == 0 {
            lemma_line_feed_unique(rest, buffered);
            assert(reader.line =~= rest);
        } else if !may_fit(reader.line + available) {
            lemma_over_limit(rest, buffered + available.len());
        }
    }
}

/// Reads the line at `offset_bytes` of a source that is held whole.
pub fn read_line_at(source: &[u8], offset_bytes: u64, finalize: bool) -> (read: Result<
    BoundedTailRead,
    TailError,
>)
    ensures
        read matches Ok(done) ==> {
            &&& offset_bytes <= source@.len()
            &&& line_at(source@, offset_bytes as int, finalize) == Some(done@)
        },
        read matches Err(error) ==> (if source@.len() < offset_bytes {
            error == (TailError::Truncated {
                offset_bytes,
                snapshot_size_bytes: source@.len() as u64,
            })
        } else {
            &&& line_at(source@, offset_bytes as int, finalize) is None
            &&& (error matches TailError::RecordOversized { line_start_offset_bytes, .. }
                && line_start_offset_bytes == offset_bytes)
        }),
{
    let size: usize = source.len();
    let mut reader = BoundedTranscriptTailReader::open(
        offset_bytes,
        size as u64,
        SourceOpening::Opened,
    )?;
    loop
        invariant
            size == source@.len(),
            offset_bytes <= size,
            reader@.wf(),
            reader@.snapshot_size_bytes == size,
            reader@.line_start_bytes == offset_bytes,
            reader@.line == source@.subrange(offset_bytes as int, reader@.next_offset_bytes),
        decreases size - reader.next_offset_bytes,
    {
        let from: usize = reader.next_offset_bytes as usize;
        let until: usize = if size - from > AGENT_TRANSCRIPT_READ_BUFFER_BYTES {
            from + AGENT_TRANSCRIPT_READ_BUFFER_BYTES
        } else {
            size
        };
        let available = vstd::slice::slice_subrange(source, from, until);
        proof {
            law_pieces_read_the_line(source@, reader@, available@, finalize);
        }
        match reader.next_line(TailEvent::Available(available), finalize) {
            TailStep::More { .. } => {},
            TailStep::Done { read, .. } => {
                return Ok(read);
            },
            TailStep::Failed(error) => {
                return Err(error);
            },
        }
    }
}

/// A line with an unterminated prefix that cannot fit is over the limit.
proof fn lemma_over_limit(rest: Seq<u8>, prefix: int)
    requires
        0 < prefix <= rest.len(),
        forall|i: int| 0 <= i < prefix ==> rest[i] != 10,
        !may_fit(rest.subrange(0, prefix)),
    ensures
        line_at(rest, 0, true) is None,
        line_at(rest, 0, false) is None,
        forall|source: Seq<u8>, offset: int, finalize: bool|
            0 <= offset <= source.len() && source.skip(offset) == rest ==> #[trigger] line_at(
                source,
                offset,
                finalize,
            ) is None,
{
    assert(rest.skip(0) =~= rest);
    lemma_line_feed(rest, 0);
    let feed = line_feed_from(rest, 0);
    if feed < rest.len() {
        assert(rest[feed] == 10);
        assert(feed >= prefix);
        let segment = rest.subrange(0, feed + 1);
        let body = segment.drop_last();
        if feed == prefix {
            assert(body =~= rest.subrange(0, prefix));
        }
    } else if rest.len() == prefix {
        assert(rest.subrange(0, prefix) =~= rest);
    }
}

/// A line that is complete stays what it is when bytes are appended to the
/// source, whether or not the source is being finalized.
pub proof fn law_complete_lines_survive_appends(
    source: Seq<u8>,
    appended: Seq<u8>,
    offset: int,
    finalize: bool,
)
    requires
        0 <= offset <= source.len(),
        line_at(source, offset, false) is Some,
        line_at(source, offset, false)->Some_0 is Line,
    ensures
        line_at(source + appended, offset, finalize) == line_at(source, offset, false),
{
    let rest = source.skip(offset);
    let longer = (source + appended).skip(offset);
    lemma_line_feed(rest, 0);
    let feed = line_feed_from(rest, 0);
    assert(longer =~= rest + appended);
    lemma_line_feed_unique(longer, feed);
    assert(longer.subrange(0, feed + 1) =~= rest.subrange(0, feed + 1));
}

/// A line that is read takes at least one byte and stays within the source, and
/// what it takes is the line and its terminator.
pub proof fn law_lines_advance(source: Seq<u8>, offset: int, finalize: bool)
    requires
        0 <= offset <= source.len(),
        line_at(source, offset, finalize) is Some,
        line_at(source, offset, finalize)->Some_0 is Line,
    ensures
        ({
            let read = line_at(source, offset, finalize)->Some_0;
            let until = offset + read->Line_consumed_bytes;
            &&& offset < until <= source.len()
            &&& read->Line_bytes.len() <= MAX_AGENT_TRANSCRIPT_SOURCE_LINE_BYTES
            &&& read->Line_bytes.is_prefix_of(source.subrange(offset, until))
            &&& (source[until - 1] == 10 || (finalize && until == source.len()))
        }),
{
    let rest = source.skip(offset);
    lemma_line_feed(rest, 0);
    let read = line_at(source, offset, finalize)->Some_0;
    let until = offset + read->Line_consumed_bytes;
    assert(source.subrange(offset, until) =~= rest.subrange(0, read->Line_consumed_bytes));
}

/// What a line takes of its source is the line followed by its terminator: a
/// line feed with or without one carriage return before it, or nothing at the
/// end of a source that is being finalized. The line itself has no line feed.
pub proof fn law_consumed_is_line_and_terminator(source: Seq<u8>, offset: int, finalize: bool)
    requires
        0 <= offset <= source.len(),
        line_at(source, offset, finalize) is Some,
        line_at(source, offset, finalize)->Some_0 is Line,
    ensures
        ({
            let read = line_at(source, offset, finalize)->Some_0;
            let line = read->Line_bytes;
            let consumed = source.subrange(offset, offset + read->Line_consumed_bytes);
            &&& forall|i: int| 0 <= i < line.len() ==> line[i] != 10
                && line[i] == source[offset + i]
            &&& {
                ||| consumed == line + seq![10u8] && !(line.len() > 0 && line.last() == 13)
                ||| consumed == line + seq![13u8, 10u8]
                ||| finalize && consumed == line && offset + consumed.len() == source.len()
            }
        }),
{
    let rest = source.skip(offset);
    lemma_line_feed(rest, 0);
    let feed = line_feed_from(rest, 0);
    let read = line_at(source, offset, finalize)->Some_0;
    let line = read->Line_bytes;
    let consumed = source.subrange(offset, offset + read->Line_consumed_bytes);
    assert(consumed =~= rest.subrange(0, read->Line_consumed_bytes));
    if feed < rest.len() {
        let segment = rest.subrange(0, feed + 1);
        let body = segment.drop_last();
        assert(segment.last() == 10);
        if body.len() > 0 && body.last() == 13 {
            assert(consumed =~= line + seq![13u8, 10u8]);
        } else {
            assert(consumed =~= line + seq![10u8]);
        }
    } else {
        assert(consumed =~= line);
    }
    assert forall|i: int| 0 <= i < line.len() implies line[i] != 10 && line[i] == source[offset
        + i] by {
        assert(line[i] == rest[i]);
    }
}

/// Without finalization an unterminated tail is never read as a line.
pub proof fn law_partial_lines_wait(source: Seq<u8>, offset: int)
    requires
        0 <= offset <= source.len(),
        forall|i: int| offset <= i < source.len() ==> source[i] != 10,
    ensures
        line_at(source, offset, false) matches Some(read) ==> !(read is Line),
{
    lemma_line_feed(source.skip(offset), 0);
    let feed = line_feed_from(source.skip(offset), 0);
    if feed < source.skip(offset).len() {
        assert(source.skip(offset)[feed] == source[offset + feed]);
    }
}

} // verus!
