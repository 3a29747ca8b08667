//! Committing a bounded chunk of rows: guarded by what is stored, and read back
//! before any cursor covers it.
use crate::guarded::RowRead;
use crate::text::bytes_equal;
use crate::transcripts::lines::AgentTranscriptRecord;
use vstd::prelude::*;

verus! {

/// The most rows of one chunk.
pub const MAX_AGENT_TRANSCRIPT_COMMIT_ROWS: usize = 64;

/// The most bytes of one encoded row.
pub const MAX_AGENT_TRANSCRIPT_VALUE_BYTES: usize = 32 * 1024;

/// The most bytes of the encoded rows of one chunk.
pub const MAX_CHUNK_VALUE_BYTES: usize = 64 * 32 * 1024;

/// A row that is ready to be committed.
#[derive(Debug)]
pub struct PreparedTranscriptRow {
    pub source_key: Vec<u8>,
    pub encoded: Vec<u8>,
    pub ts_index_key: Vec<u8>,
    pub record: AgentTranscriptRecord,
    pub source_offset_bytes: u64,
    pub consumed_bytes: u64,
}

/// Where a key stands.
#[derive(Clone, Copy, Debug, PartialEq, Eq, Structural)]
pub enum ChunkFamily {
    Transcripts,
    Index,
}

/// The revision that a key must have when the chunk is written.
#[derive(Debug)]
pub struct ChunkGuard {
    pub family: ChunkFamily,
    pub key: Vec<u8>,
    /// `None` demands that the key is absent.
    pub expected_revision_sha256: Option<[u8; 32]>,
}

/// What is stored for a row before the chunk is written.
#[derive(Debug)]
pub struct RowPrecondition {
    pub source: RowRead,
    pub index: RowRead,
}

/// What a point read gives.
#[derive(Debug)]
pub enum PointRead {
    Failed,
    Absent,
    Value(Vec<u8>),
}

/// What is stored for a row after the chunk was written.
#[derive(Debug)]
pub struct RowReadback {
    pub source: PointRead,
    pub index: PointRead,
    /// Whether the measurement of the row was published.
    pub measured: bool,
}

/// What writing the chunk gave.
#[derive(Clone, Copy, Debug, PartialEq, Eq, Structural)]
pub enum ChunkWrite {
    Failed,
    Conflict,
    Applied,
}

/// Why a chunk does not count.
#[derive(Clone, Copy, Debug, PartialEq, Eq, Structural)]
pub enum ChunkError {
    TooManyRows { rows: usize },
    SizeOverflow,
    TooManyBytes { bytes: usize },
    PreconditionsMissing,
    RowPreconditionReadFailed { line_no: u64 },
    RowIdentityConflict { line_no: u64 },
    IndexPreconditionReadFailed { line_no: u64 },
    IndexIdentityConflict { line_no: u64 },
    RowsWriteFailed,
    RowsRevisionConflict,
    ReadbacksMissing,
    RowReadbackFailed { line_no: u64 },
    RowReadbackMismatch { line_no: u64 },
    IndexReadbackFailed { line_no: u64 },
    IndexReadbackMismatch { line_no: u64 },
    ConstellationMeasurementFailed { line_no: u64 },
}

/// The bytes of the encoded rows.
pub open spec fn encoded_bytes(rows: Seq<PreparedTranscriptRow>) -> int
    decreases rows.len(),
{
    if rows.len() == 0 {
        0
    } else {
        encoded_bytes(rows.drop_last()) + rows.last().encoded@.len()
    }
}

proof fn lemma_encoded_prefix(rows: Seq<PreparedTranscriptRow>, upto: int)
    requires
        0 <= upto <= rows.len(),
    ensures
        0 <= encoded_bytes(rows.subrange(0, upto)) <= encoded_bytes(rows),
    decreases rows.len(),
{
    if upto == rows.len() {
        assert(rows.subrange(0, upto) =~= rows);
        if upto > 0 {
            lemma_encoded_prefix(rows.drop_last(), upto - 1);
            assert(rows.drop_last().subrange(0, upto - 1) =~= rows.drop_last());
        }
    } else {
        assert(rows.drop_last().subrange(0, upto) =~= rows.subrange(0, upto));
        lemma_encoded_prefix(rows.drop_last(), upto);
    }
}

/// Why a chunk is too large, if it is.
pub open spec fn size_refusal(rows: Seq<PreparedTranscriptRow>) -> Option<ChunkError> {
    if rows.len() > MAX_AGENT_TRANSCRIPT_COMMIT_ROWS {
        Some(ChunkError::TooManyRows { rows: rows.len() as usize })
    } else if encoded_bytes(rows) > usize::MAX {
        Some(ChunkError::SizeOverflow)
    } else if encoded_bytes(rows) > MAX_CHUNK_VALUE_BYTES {
        Some(ChunkError::TooManyBytes { bytes: encoded_bytes(rows) as usize })
    } else {
        None
    }
}

/// Accepts the chunks that are small enough to be written at once.
pub fn check_chunk_size(rows: &Vec<PreparedTranscriptRow>) -> (checked: Result<(), ChunkError>)
    ensures
        checked == (match size_refusal(rows@) {
            Some(error) => Err::<(), ChunkError>(error),
            None => Ok(()),
        }),
{
    if rows.len() > MAX_AGENT_TRANSCRIPT_COMMIT_ROWS {
        return Err(ChunkError::TooManyRows { rows: rows.len() });
    }
    let mut total: usize = 0;
    let mut index: usize = 0;
    while index < rows.len()
        invariant
            index <= rows@.len() <= MAX_AGENT_TRANSCRIPT_COMMIT_ROWS,
            total == encoded_bytes(rows@.subrange(0, index as int)),
        decreases rows@.len() - index,
    {
        proof {
            let prefix = rows@.subrange(0, index as int + 1);
            assert(prefix.drop_last() =~= rows@.subrange(0, index as int));
            assert(prefix.last() == rows@[index as int]);
            lemma_encoded_prefix(rows@, index as int + 1);
        }
        match total.checked_add(rows[index].encoded.len()) {
            Some(sum) => {
                total = sum;
            },
            None => {
                return Err(ChunkError::SizeOverflow);
            },
        }
        index = index + 1;
    }
    assert(rows@.subrange(0, rows@.len() as int) =~= rows@);
    if total > MAX_CHUNK_VALUE_BYTES {
        return Err(ChunkError::TooManyBytes { bytes: total });
    }
    Ok(())
}

/// What a stored row allows: nothing stored, or exactly this value.
pub open spec fn stored_revision(read: RowRead, expected: Seq<u8>) -> Result<
    Option<[u8; 32]>,
    bool,
> {
    match read {
        RowRead::Failed => Err(false),
        RowRead::Absent => Ok(None),
        RowRead::Found { value: Some(value), revision_sha256 } => if value@ == expected {
            Ok(Some(revision_sha256))
        } else {
            Err(true)
        },
        RowRead::Found { value: None, .. } => Err(true),
    }
}

fn check_stored(read: &RowRead, expected: &[u8]) -> (revision: Result<Option<[u8; 32]>, bool>)
    ensures
        revision == stored_revision(*read, expected@),
{
    match read {
        RowRead::Failed => Err(false),
        RowRead::Absent => Ok(None),
        RowRead::Found { value: Some(value), revision_sha256 } => if bytes_equal(
            value.as_slice(),
            expected,
        ) {
            Ok(Some(*revision_sha256))
        } else {
            Err(true)
        },
        RowRead::Found { value: None, .. } => Err(true),
    }
}

/// Why a row conflicts with what is stored, if it does.
pub open spec fn precondition_refusal(
    row: PreparedTranscriptRow,
    precondition: RowPrecondition,
) -> Option<ChunkError> {
    let line_no = row.record.line_no;
    match stored_revision(precondition.source, row.encoded@) {
        Err(false) => Some(ChunkError::RowPreconditionReadFailed { line_no }),
        Err(true) => Some(ChunkError::RowIdentityConflict { line_no }),
        Ok(_) => match stored_revision(precondition.index, row.source_key@) {
            Err(false) => Some(ChunkError::IndexPreconditionReadFailed { line_no }),
            Err(true) => Some(ChunkError::IndexIdentityConflict { line_no }),
            Ok(_) => None,
        },
    }
}

/// The first row that conflicts with what is stored.
pub open spec fn preconditions_refusal(
    rows: Seq<PreparedTranscriptRow>,
    preconditions: Seq<RowPrecondition>,
) -> Option<ChunkError>
    decreases rows.len(),
{
    if rows.len() == 0 {
        None
    } else {
        match preconditions_refusal(rows.drop_last(), preconditions.drop_last()) {
            Some(error) => Some(error),
            None => precondition_refusal(rows.last(), preconditions.last()),
        }
    }
}

proof fn lemma_preconditions_prefix(
    rows: Seq<PreparedTranscriptRow>,
    preconditions: Seq<RowPrecondition>,
    upto: int,
)
    requires
        0 <= upto <= rows.len() == preconditions.len(),
    ensures
        preconditions_refusal(rows.subrange(0, upto), preconditions.subrange(0, upto)) is Some
            ==> preconditions_refusal(rows, preconditions) == preconditions_refusal(
            rows.subrange(0, upto),
            preconditions.subrange(0, upto),
        ),
    decreases rows.len(),
{
    if upto == rows.len() {
        assert(rows.subrange(0, upto) =~= rows);
        assert(preconditions.subrange(0, upto) =~= preconditions);
    } else {
        assert(rows.drop_last().subrange(0, upto) =~= rows.subrange(0, upto));
        assert(preconditions.drop_last().subrange(0, upto) =~= preconditions.subrange(0, upto));
        lemma_preconditions_prefix(rows.drop_last(), preconditions.drop_last(), upto);
    }
}

/// Whether a guard demands this revision of this key.
pub open spec fn guards(
    guard: ChunkGuard,
    family: ChunkFamily,
    key: Seq<u8>,
    revision: Option<[u8; 32]>,
) -> bool {
    guard.family == family && guard.key@ == key && guard.expected_revision_sha256 == revision
}

/// The guards of the row at `index`: one for the row, one for its index entry, each
/// at the revision that was read.
pub open spec fn guards_row(
    given: Seq<ChunkGuard>,
    row: PreparedTranscriptRow,
    precondition: RowPrecondition,
    index: int,
) -> bool {
    &&& guards(
        given[2 * index],
        ChunkFamily::Transcripts,
        row.source_key@,
        stored_revision(precondition.source, row.encoded@)->Ok_0,
    )
    &&& guards(
        given[2 * index + 1],
        ChunkFamily::Index,
        row.ts_index_key@,
        stored_revision(precondition.index, row.source_key@)->Ok_0,
    )
}

/// Two guards for each row: one for the row, one for its index entry, each at the
/// revision that was read.
pub open spec fn guards_rows(
    given: Seq<ChunkGuard>,
    rows: Seq<PreparedTranscriptRow>,
    preconditions: Seq<RowPrecondition>,
) -> bool {
    &&& given.len() == 2 * rows.len()
    &&& forall|i: int|
        0 <= i < rows.len() ==> guards_row(given, #[trigger] rows[i], preconditions[i], i)
}

fn copy_bytes(bytes: &Vec<u8>) -> (copy: Vec<u8>)
    ensures
        copy@ == bytes@,
{
    let mut copy: Vec<u8> = Vec::new();
    let mut index: usize = 0;
    while index < bytes.len()
        invariant
            index <= bytes@.len(),
            copy@ == bytes@.subrange(0, index as int),
        decreases bytes@.len() - index,
    {
        copy.push(bytes[index]);
        index = index + 1;
        assert(copy@ =~= bytes@.subrange(0, index as int));
    }
    assert(bytes@.subrange(0, bytes@.len() as int) =~= bytes@);
    copy
}

/// Why a chunk cannot be written, if it cannot.
pub open spec fn plan_refusal(
    rows: Seq<PreparedTranscriptRow>,
    preconditions: Seq<RowPrecondition>,
) -> Option<ChunkError> {
    match size_refusal(rows) {
        Some(error) => Some(error),
        None => if preconditions.len() != rows.len() {
            Some(ChunkError::PreconditionsMissing)
        } else {
            preconditions_refusal(rows, preconditions)
        },
    }
}

/// Plans the write of a chunk: a row that is stored already must be the very
/// same, and every key is guarded by the revision that it was read at.
pub fn plan_chunk(
    rows: &Vec<PreparedTranscriptRow>,
    preconditions: &Vec<RowPrecondition>,
) -> (planned: Result<Vec<ChunkGuard>, ChunkError>)
    ensures
        match plan_refusal(rows@, preconditions@) {
            Some(error) => planned == Err::<Vec<ChunkGuard>, ChunkError>(error),
            None => planned matches Ok(given) && guards_rows(given@, rows@, preconditions@),
        },
{
    check_chunk_size(rows)?;
    if preconditions.len() != rows.len() {
        return Err(ChunkError::PreconditionsMissing);
    }
    let mut given: Vec<ChunkGuard> = Vec::new();
    let mut index: usize = 0;
    while index < rows.len()
        invariant
            index <= rows@.len() == preconditions@.len(),
            rows@.len() <= MAX_AGENT_TRANSCRIPT_COMMIT_ROWS,
            size_refusal(rows@) is None,
            guards_rows(
                given@,
                rows@.subrange(0, index as int),
                preconditions@.subrange(0, index as int),
            ),
            preconditions_refusal(
                rows@.subrange(0, index as int),
                preconditions@.subrange(0, index as int),
            ) is None,
        decreases rows@.len() - index,
    {
        let row = &rows[index];
        let precondition = &preconditions[index];
        let line_no: u64 = row.record.line_no;
        let before: Ghost<Seq<ChunkGuard>> = Ghost(given@);
        proof {
            let row_prefix = rows@.subrange(0, index as int + 1);
            let pre_prefix = preconditions@.subrange(0, index as int + 1);
            assert(row_prefix.drop_last() =~= rows@.subrange(0, index as int));
            assert(pre_prefix.drop_last() =~= preconditions@.subrange(0, index as int));
            assert(row_prefix.last() == *row && pre_prefix.last() == *precondition);
            lemma_preconditions_prefix(rows@, preconditions@, index as int + 1);
        }
        let source_revision = match check_stored(&precondition.source, row.encoded.as_slice()) {
            Ok(revision) => revision,
            Err(conflict) => {
                return Err(
                    if conflict {
                        ChunkError::RowIdentityConflict { line_no }
                    } else {
                        ChunkError::RowPreconditionReadFailed { line_no }
                    },
                );
            },
        };
        let index_revision = match check_stored(&precondition.index, row.source_key.as_slice()) {
            Ok(revision) => revision,
            Err(conflict) => {
                return Err(
                    if conflict {
                        ChunkError::IndexIdentityConflict { line_no }
                    } else {
                        ChunkError::IndexPreconditionReadFailed { line_no }
                    },
                );
            },
        };
        given.push(
            ChunkGuard {
                family: ChunkFamily::Transcripts,
                key: copy_bytes(&row.source_key),
                expected_revision_sha256: source_revision,
            },
        );
        given.push(
            ChunkGuard {
                family: ChunkFamily::Index,
                key: copy_bytes(&row.ts_index_key),
                expected_revision_sha256: index_revision,
            },
        );
        proof {
            let row_prefix = rows@.subrange(0, index as int + 1);
            let pre_prefix = preconditions@.subrange(0, index as int + 1);
            assert forall|i: int| 0 <= i < row_prefix.len() implies guards_row(
                given@,
                #[trigger] row_prefix[i],
                pre_prefix[i],
                i,
            ) by {
                if i < index {
                    assert(before@[2 * i] == given@[2 * i]);
                    assert(before@[2 * i + 1] == given@[2 * i + 1]);
                    assert(rows@.subrange(0, index as int)[i] == row_prefix[i]);
                    assert(preconditions@.subrange(0, index as int)[i] == pre_prefix[i]);
                }
            }
        }
        index = index + 1;
    }
    assert(rows@.subrange(0, rows@.len() as int) =~= rows@);
    assert(preconditions@.subrange(0, preconditions@.len() as int) =~= preconditions@);
    Ok(given)
}

/// Whether a point read gives exactly this value.
pub open spec fn reads_exactly(read: PointRead, expected: Seq<u8>) -> bool {
    read matches PointRead::Value(value) && value@ == expected
}

/// Why a row was not read back as it was written, if it was not.
pub open spec fn readback_refusal(
    row: PreparedTranscriptRow,
    readback: RowReadback,
) -> Option<ChunkError> {
    let line_no = row.record.line_no;
    if readback.source is Failed {
        Some(ChunkError::RowReadbackFailed { line_no })
    } else if !reads_exactly(readback.source, row.encoded@) {
        Some(ChunkError::RowReadbackMismatch { line_no })
    } else if readback.index is Failed {
        Some(ChunkError::IndexReadbackFailed { line_no })
    } else if !reads_exactly(readback.index, row.source_key@) {
        Some(ChunkError::IndexReadbackMismatch { line_no })
    } else if !readback.measured {
        Some(ChunkError::ConstellationMeasurementFailed { line_no })
    } else {
        None
    }
}

/// The first row that was not read back as it was written.
pub open spec fn readbacks_refusal(
    rows: Seq<PreparedTranscriptRow>,
    readbacks: Seq<RowReadback>,
) -> Option<ChunkError>
    decreases rows.len(),
{
    if rows.len() == 0 {
        None
    } else {
        match readbacks_refusal(rows.drop_last(), readbacks.drop_last()) {
            Some(error) => Some(error),
            None => readback_refusal(rows.last(), readbacks.last()),
        }
    }
}

proof fn lemma_readbacks_prefix(
    rows: Seq<PreparedTranscriptRow>,
    readbacks: Seq<RowReadback>,
    upto: int,
)
    requires
        0 <= upto <= rows.len() == readbacks.len(),
    ensures
        readbacks_refusal(rows.subrange(0, upto), readbacks.subrange(0, upto)) is Some
            ==> readbacks_refusal(rows, readbacks) == readbacks_refusal(
            rows.subrange(0, upto),
            readbacks.subrange(0, upto),
        ),
    decreases rows.len(),
{
    if upto == rows.len() {
        assert(rows.subrange(0, upto) =~= rows);
        assert(readbacks.subrange(0, upto) =~= readbacks);
    } else {
        assert(rows.drop_last().subrange(0, upto) =~= rows.subrange(0, upto));
        assert(readbacks.drop_last().subrange(0, upto) =~= readbacks.subrange(0, upto));
        lemma_readbacks_prefix(rows.drop_last(), readbacks.drop_last(), upto);
    }
}

fn is_exact(read: &PointRead, expected: &[u8]) -> (exact: bool)
    ensures
        exact == reads_exactly(*read, expected@),
{
    match read {
        PointRead::Value(value) => bytes_equal(value.as_slice(), expected),
        _ => false,
    }
}

fn check_readback(row: &PreparedTranscriptRow, readback: &RowReadback) -> (refusal: Option<
    ChunkError,
>)
    ensures
        refusal == readback_refusal(*row, *readback),
{
    let line_no: u64 = row.record.line_no;
    if let PointRead::Failed = readback.source {
        return Some(ChunkError::RowReadbackFailed { line_no });
    }
    if !is_exact(&readback.source, row.encoded.as_slice()) {
        return Some(ChunkError::RowReadbackMismatch { line_no });
    }
    if let PointRead::Failed = readback.index {
        return Some(ChunkError::IndexReadbackFailed { line_no });
    }
    if !is_exact(&readback.index, row.source_key.as_slice()) {
        return Some(ChunkError::IndexReadbackMismatch { line_no });
    }
    if !readback.measured {
        return Some(ChunkError::ConstellationMeasurementFailed { line_no });
    }
    None
}

/// Why a chunk does not count, if it does not. An empty chunk always counts.
pub open spec fn commit_refusal(
    rows: Seq<PreparedTranscriptRow>,
    preconditions: Seq<RowPrecondition>,
    write: ChunkWrite,
    readbacks: Seq<RowReadback>,
) -> Option<ChunkError> {
    if rows.len() == 0 {
        None
    } else {
        match plan_refusal(rows, preconditions) {
            Some(error) => Some(error),
            None => match write {
                ChunkWrite::Failed => Some(ChunkError::RowsWriteFailed),
                ChunkWrite::Conflict => Some(ChunkError::RowsRevisionConflict),
                ChunkWrite::Applied => if readbacks.len() != rows.len() {
                    Some(ChunkError::ReadbacksMissing)
                } else {
                    readbacks_refusal(rows, readbacks)
                },
            },
        }
    }
}

/// Settles the write of a chunk that was planned from `preconditions`: it counts
/// only where every row and its index entry were read back exactly.
pub fn commit_transcript_chunk(
    rows: &Vec<PreparedTranscriptRow>,
    preconditions: &Vec<RowPrecondition>,
    write: ChunkWrite,
    readbacks: &Vec<RowReadback>,
) -> (committed: Result<(), ChunkError>)
    ensures
        committed == (match commit_refusal(rows@, preconditions@, write, readbacks@) {
            Some(error) => Err::<(), ChunkError>(error),
            None => Ok(()),
        }),
{
    if rows.len() == 0 {
        return Ok(());
    }
    if let Err(error) = plan_chunk(rows, preconditions) {
        return Err(error);
    }
    match write {
        ChunkWrite::Failed => {
            return Err(ChunkError::RowsWriteFailed);
        },
        ChunkWrite::Conflict => {
            return Err(ChunkError::RowsRevisionConflict);
        },
        ChunkWrite::Applied => {},
    }
    if readbacks.len() != rows.len() {
        return Err(ChunkError::ReadbacksMissing);
    }
    let mut index: usize = 0;
    while index < rows.len()
        invariant
            index <= rows@.len() == readbacks@.len(),
            rows@.len() > 0,
            plan_refusal(rows@, preconditions@) is None,
            write == ChunkWrite::Applied,
            readbacks_refusal(
                rows@.subrange(0, index as int),
                readbacks@.subrange(0, index as int),
            ) is None,
        decreases rows@.len() - index,
    {
        proof {
            let row_prefix = rows@.subrange(0, index as int + 1);
            let read_prefix = readbacks@.subrange(0, index as int + 1);
            assert(row_prefix.drop_last() =~= rows@.subrange(0, index as int));
            assert(read_prefix.drop_last() =~= readbacks@.subrange(0, index as int));
            assert(row_prefix.last() == rows@[index as int]);
            assert(read_prefix.last() == readbacks@[index as int]);
            lemma_readbacks_prefix(rows@, readbacks@, index as int + 1);
        }
        if let Some(error) = check_readback(&rows[index], &readbacks[index]) {
            return Err(error);
        }
        index = index + 1;
    }
    assert(rows@.subrange(0, rows@.len() as int) =~= rows@);
    assert(readbacks@.subrange(0, readbacks@.len() as int) =~= readbacks@);
    Ok(())
}

/// Whether exactly this row and its index entry are stored.
pub open spec fn stored_as_is(row: PreparedTranscriptRow, precondition: RowPrecondition) -> bool {
    &&& precondition.source matches RowRead::Found { value: Some(value), .. } && value@
        == row.encoded@
    &&& precondition.index matches RowRead::Found { value: Some(value), .. } && value@
        == row.source_key@
}

/// Whether neither the row nor its index entry is stored.
pub open spec fn not_stored(precondition: RowPrecondition) -> bool {
    precondition.source is Absent && precondition.index is Absent
}

/// Whether a key is taken by anything but these bytes: by others, or by a value that
/// has expired.
pub open spec fn holds_other(read: RowRead, expected: Seq<u8>) -> bool {
    match read {
        RowRead::Found { value: Some(value), .. } => value@ != expected,
        RowRead::Found { value: None, .. } => true,
        _ => false,
    }
}

/// Committing rows again is accepted: rows that are stored exactly as they are,
/// or not at all, never conflict.
pub proof fn law_recommitting_is_accepted(
    rows: Seq<PreparedTranscriptRow>,
    preconditions: Seq<RowPrecondition>,
)
    requires
        rows.len() == preconditions.len(),
        forall|i: int|
            0 <= i < rows.len() ==> stored_as_is(#[trigger] rows[i], preconditions[i])
                || not_stored(preconditions[i]),
    ensures
        preconditions_refusal(rows, preconditions) is None,
    decreases rows.len(),
{
    if rows.len() > 0 {
        assert forall|i: int| 0 <= i < rows.len() - 1 implies stored_as_is(
            #[trigger] rows.drop_last()[i],
            preconditions.drop_last()[i],
        ) || not_stored(preconditions.drop_last()[i]) by {
            assert(stored_as_is(rows[i], preconditions[i]) || not_stored(preconditions[i]));
        }
        law_recommitting_is_accepted(rows.drop_last(), preconditions.drop_last());
        assert(stored_as_is(rows[rows.len() - 1], preconditions[rows.len() - 1]) || not_stored(
            preconditions[rows.len() - 1],
        ));
    }
}

/// A row or an index entry that is stored with another value, or whose value has
/// expired, is never overwritten: the chunk is refused before anything is written.
pub proof fn law_conflicting_rows_are_not_overwritten(
    rows: Seq<PreparedTranscriptRow>,
    preconditions: Seq<RowPrecondition>,
    at: int,
)
    requires
        rows.len() == preconditions.len(),
        0 <= at < rows.len(),
        holds_other(preconditions[at].source, rows[at].encoded@) || holds_other(
            preconditions[at].index,
            rows[at].source_key@,
        ),
    ensures
        plan_refusal(rows, preconditions) is Some,
{
    let row_prefix = rows.subrange(0, at + 1);
    let pre_prefix = preconditions.subrange(0, at + 1);
    assert(row_prefix.last() == rows[at] && pre_prefix.last() == preconditions[at]);
    assert(precondition_refusal(rows[at], preconditions[at]) is Some);
    lemma_preconditions_prefix(rows, preconditions, at + 1);
}

/// A chunk that counts has every row and every index entry read back exactly.
pub proof fn law_committed_rows_are_stored(
    rows: Seq<PreparedTranscriptRow>,
    preconditions: Seq<RowPrecondition>,
    write: ChunkWrite,
    readbacks: Seq<RowReadback>,
    at: int,
)
    requires
        commit_refusal(rows, preconditions, write, readbacks) is None,
        0 <= at < rows.len(),
    ensures
        write == ChunkWrite::Applied,
        reads_exactly(readbacks[at].source, rows[at].encoded@),
        reads_exactly(readbacks[at].index, rows[at].source_key@),
{
    let row_prefix = rows.subrange(0, at + 1);
    let read_prefix = readbacks.subrange(0, at + 1);
    assert(row_prefix.last() == rows[at] && read_prefix.last() == readbacks[at]);
    lemma_readbacks_prefix(rows, readbacks, at + 1);
    assert(readbacks_refusal(row_prefix, read_prefix) is None);
}

} // verus!
