//! Whether an append-only source still is the one that its cursor has seen.
use crate::digest;
use crate::digest::{is_lower_sha256, sha256_hex};
use crate::text::str_equal;
use crate::transcripts::cursor::{BoundaryView, FingerprintView, SourceBoundary, SourceFingerprint};
use crate::transcripts::tail;
use crate::transcripts::tail::{BoundedTailRead, MAX_AGENT_TRANSCRIPT_SOURCE_LINE_BYTES, TailError};
use vstd::prelude::*;
use vstd::string::*;

verus! {

/// The most bytes of the prefix that identifies a source.
pub const AGENT_TRANSCRIPT_SOURCE_FINGERPRINT_BYTES: u64 = 64 * 1024;

/// The most bytes before the cursor that are held against the source.
pub const AGENT_TRANSCRIPT_SOURCE_BOUNDARY_BYTES: u64 = 64 * 1024;

/// The most bytes before the cursor that one line and its terminator take.
pub const MAX_LINE_WINDOW_BYTES: u64 = 10 * 1024 * 1024 + 2;

/// The step at which reading a range failed.
#[derive(Clone, Copy, Debug, PartialEq, Eq, Structural)]
pub enum ReadStage {
    Open,
    Seek,
    Read,
}

/// What reading a range of the source gives.
#[derive(Debug)]
pub enum RangeRead {
    Failed(ReadStage),
    Bytes(Vec<u8>),
}

/// What a range is read for.
#[derive(Clone, Copy, Debug, PartialEq, Eq, Structural)]
pub enum RangePurpose {
    Boundary,
    BoundaryMigration,
}

/// Why a source cannot be trusted to be the one that the cursor has seen.
#[derive(Clone, Copy, Debug, PartialEq, Eq, Structural)]
pub enum SourceError {
    Tail(TailError),
    FingerprintLengthInvalid { bytes: u64 },
    FingerprintTruncated { snapshot_size_bytes: u64, bytes: u64 },
    FingerprintReadFailed { stage: ReadStage },
    FingerprintInvalid,
    IdentityMismatch,
    FingerprintMigrationFailed,
    FingerprintMigrationCancelled,
    FingerprintRowReadFailed,
    FingerprintRowMissing,
    FingerprintRowInvalid,
    FingerprintRowMismatch,
    FingerprintPartial,
    RangeLengthInvalid { purpose: RangePurpose },
    RangeOffsetOverflow { purpose: RangePurpose },
    RangeTruncated { purpose: RangePurpose },
    RangeReadFailed { purpose: RangePurpose, stage: ReadStage },
    BoundaryOffsetInvalid,
    BoundaryMigrationRecordOversized { observed_bytes: usize },
    BoundaryMigrationCounterInvalid,
    BoundaryMigrationRowReadFailed,
    BoundaryMigrationRowMissing,
    BoundaryMigrationRowInvalid,
    BoundaryMigrationRowMismatch,
    BoundaryZeroOffsetInvalid,
    BoundaryCounterInvalid,
    BoundaryInvalid,
    BoundaryMismatch,
    BoundaryPartial,
}

/// The digest of the prefix that identifies a source.
#[derive(Debug)]
pub struct TranscriptSourceFingerprint {
    pub bytes: u64,
    pub sha256: String,
}

/// How many bytes identify a source: as many as before, or as many as there are
/// up to the limit.
pub open spec fn fingerprint_len(snapshot_size_bytes: u64, expected_bytes: Option<u64>) -> u64 {
    match expected_bytes {
        Some(bytes) => bytes,
        None => if snapshot_size_bytes < AGENT_TRANSCRIPT_SOURCE_FINGERPRINT_BYTES {
            snapshot_size_bytes
        } else {
            AGENT_TRANSCRIPT_SOURCE_FINGERPRINT_BYTES
        },
    }
}

/// Why a prefix of this length cannot identify the source, if it cannot.
pub open spec fn fingerprint_len_refusal(snapshot_size_bytes: u64, bytes: u64) -> Option<
    SourceError,
> {
    if bytes == 0 || bytes > AGENT_TRANSCRIPT_SOURCE_FINGERPRINT_BYTES {
        Some(SourceError::FingerprintLengthInvalid { bytes })
    } else if snapshot_size_bytes < bytes {
        Some(SourceError::FingerprintTruncated { snapshot_size_bytes, bytes })
    } else {
        None
    }
}

/// How many bytes of the source are to be read for its fingerprint.
pub fn plan_fingerprint(snapshot_size_bytes: u64, expected_bytes: Option<u64>) -> (planned: Result<
    u64,
    SourceError,
>)
    ensures
        planned == (match fingerprint_len_refusal(
            snapshot_size_bytes,
            fingerprint_len(snapshot_size_bytes, expected_bytes),
        ) {
            Some(error) => Err::<u64, SourceError>(error),
            None => Ok(fingerprint_len(snapshot_size_bytes, expected_bytes)),
        }),
{
    let bytes: u64 = match expected_bytes {
        Some(bytes) => bytes,
        None => if snapshot_size_bytes < AGENT_TRANSCRIPT_SOURCE_FINGERPRINT_BYTES {
            snapshot_size_bytes
        } else {
            AGENT_TRANSCRIPT_SOURCE_FINGERPRINT_BYTES
        },
    };
    if bytes == 0 || bytes > AGENT_TRANSCRIPT_SOURCE_FINGERPRINT_BYTES {
        return Err(SourceError::FingerprintLengthInvalid { bytes });
    }
    if snapshot_size_bytes < bytes {
        return Err(SourceError::FingerprintTruncated { snapshot_size_bytes, bytes });
    }
    Ok(bytes)
}

/// The bytes of a range that was read to its full length.
pub open spec fn range_bytes(read: RangeRead, bytes: u64) -> Result<Seq<u8>, ReadStage> {
    match read {
        RangeRead::Failed(stage) => Err(stage),
        RangeRead::Bytes(read_bytes) => if read_bytes@.len() == bytes {
            Ok(read_bytes@)
        } else {
            Err(ReadStage::Read)
        },
    }
}

fn take_range<'a>(read: &'a RangeRead, bytes: u64) -> (taken: Result<&'a Vec<u8>, ReadStage>)
    ensures
        match taken {
            Ok(inner) => range_bytes(*read, bytes) == Ok::<Seq<u8>, ReadStage>(inner@),
            Err(stage) => range_bytes(*read, bytes) == Err::<Seq<u8>, ReadStage>(stage),
        },
{
    match read {
        RangeRead::Failed(stage) => Err(*stage),
        RangeRead::Bytes(inner) => if inner.len() as u64 == bytes {
            Ok(inner)
        } else {
            Err(ReadStage::Read)
        },
    }
}

/// The fingerprint of a source, or why there is none.
pub open spec fn fingerprint_spec(
    snapshot_size_bytes: u64,
    expected_bytes: Option<u64>,
    read: RangeRead,
) -> Result<FingerprintView, SourceError> {
    let bytes = fingerprint_len(snapshot_size_bytes, expected_bytes);
    match fingerprint_len_refusal(snapshot_size_bytes, bytes) {
        Some(error) => Err(error),
        None => match range_bytes(read, bytes) {
            Err(stage) => Err(SourceError::FingerprintReadFailed { stage }),
            Ok(prefix) => Ok(
                FingerprintView { bytes: Some(bytes), sha256: Some(digest::sha256_text(prefix)) },
            ),
        },
    }
}

/// The fingerprint of a source whose first bytes are `read`.
pub fn read_transcript_source_fingerprint(
    snapshot_size_bytes: u64,
    expected_bytes: Option<u64>,
    read: &RangeRead,
) -> (fingerprint: Result<TranscriptSourceFingerprint, SourceError>)
    ensures
        match fingerprint {
            Ok(found) => fingerprint_spec(snapshot_size_bytes, expected_bytes, *read) == Ok::<
                FingerprintView,
                SourceError,
            >(FingerprintView { bytes: Some(found.bytes), sha256: Some(found.sha256@) }),
            Err(error) => fingerprint_spec(snapshot_size_bytes, expected_bytes, *read) == Err::<
                FingerprintView,
                SourceError,
            >(error),
        },
{
    let bytes: u64 = plan_fingerprint(snapshot_size_bytes, expected_bytes)?;
    match take_range(read, bytes) {
        Err(stage) => Err(SourceError::FingerprintReadFailed { stage }),
        Ok(prefix) => Ok(
            TranscriptSourceFingerprint { bytes, sha256: sha256_hex(prefix.as_slice()) },
        ),
    }
}

/// What a stored row says of the line that it was made from.
#[derive(Debug)]
pub struct RowStamp {
    pub spawn_id: String,
    pub line_no: u64,
    pub raw_line_bytes: u64,
    pub raw_line_sha256: String,
}

/// What is stored for a line that the cursor covers.
#[derive(Debug)]
pub enum CoveredRow {
    Failed,
    Missing,
    Undecodable,
    Row(RowStamp),
}

/// Whether a row was made from this line.
pub open spec fn stamps_line(row: RowStamp, source_id: Seq<char>, line_no: u64, line: Seq<u8>) -> bool {
    &&& row.spawn_id@ == source_id
    &&& row.line_no == line_no
    &&& row.raw_line_bytes == line.len()
    &&& row.raw_line_sha256@ == digest::sha256_text(line)
}

fn is_stamp_of(row: &RowStamp, source_id: &str, line_no: u64, line: &[u8]) -> (matched: bool)
    ensures
        matched == stamps_line(*row, source_id@, line_no, line@),
{
    str_equal(row.spawn_id.as_str(), source_id) && row.line_no == line_no && row.raw_line_bytes
        == line.len() as u64 && str_equal(
        row.raw_line_sha256.as_str(),
        sha256_hex(line).as_str(),
    )
}

/// What the check of a fingerprint reads.
#[derive(Debug)]
pub struct FingerprintEvidence {
    /// The first bytes of the source, as many as its fingerprint takes.
    pub prefix: RangeRead,
    /// The first line of the source. Needed for a cursor without a fingerprint.
    pub first_line: Result<BoundedTailRead, TailError>,
    /// The row of the first line. Needed for a cursor without a fingerprint.
    pub first_row: CoveredRow,
}

/// Why a cursor without a fingerprint cannot be given one, if it cannot: the
/// first line must be the one that its row was made from.
pub open spec fn migration_refusal(evidence: FingerprintEvidence, source_id: Seq<char>) -> Option<
    SourceError,
> {
    match evidence.first_line {
        Err(error) => Some(SourceError::Tail(error)),
        Ok(BoundedTailRead::Cancelled) => Some(SourceError::FingerprintMigrationCancelled),
        Ok(BoundedTailRead::SnapshotEof) => Some(SourceError::FingerprintMigrationFailed),
        Ok(BoundedTailRead::IncompleteTail { .. }) => Some(SourceError::FingerprintMigrationFailed),
        Ok(BoundedTailRead::Line { bytes, .. }) => match evidence.first_row {
            CoveredRow::Failed => Some(SourceError::FingerprintRowReadFailed),
            CoveredRow::Missing => Some(SourceError::FingerprintRowMissing),
            CoveredRow::Undecodable => Some(SourceError::FingerprintRowInvalid),
            CoveredRow::Row(row) => if stamps_line(row, source_id, 1, bytes@) {
                None
            } else {
                Some(SourceError::FingerprintRowMismatch)
            },
        },
    }
}

fn check_migration(evidence: &FingerprintEvidence, source_id: &str) -> (refusal: Option<SourceError>)
    ensures
        refusal == migration_refusal(*evidence, source_id@),
{
    match &evidence.first_line {
        Err(error) => Some(SourceError::Tail(*error)),
        Ok(BoundedTailRead::Cancelled) => Some(SourceError::FingerprintMigrationCancelled),
        Ok(BoundedTailRead::SnapshotEof) => Some(SourceError::FingerprintMigrationFailed),
        Ok(BoundedTailRead::IncompleteTail { .. }) => Some(SourceError::FingerprintMigrationFailed),
        Ok(BoundedTailRead::Line { bytes, .. }) => match &evidence.first_row {
            CoveredRow::Failed => Some(SourceError::FingerprintRowReadFailed),
            CoveredRow::Missing => Some(SourceError::FingerprintRowMissing),
            CoveredRow::Undecodable => Some(SourceError::FingerprintRowInvalid),
            CoveredRow::Row(row) => if is_stamp_of(row, source_id, 1, bytes.as_slice()) {
                None
            } else {
                Some(SourceError::FingerprintRowMismatch)
            },
        },
    }
}

/// What the check of a fingerprint gives: the fingerprint of the cursor from
/// now on.
pub open spec fn ensured_fingerprint(
    fingerprint: FingerprintView,
    source_id: Seq<char>,
    snapshot_size_bytes: u64,
    cursor_offset_bytes: u64,
    evidence: FingerprintEvidence,
) -> Result<FingerprintView, SourceError> {
    match (fingerprint.bytes, fingerprint.sha256) {
        (Some(bytes), Some(expected)) => if !digest::is_lower_sha256_spec(expected) {
            Err(SourceError::FingerprintInvalid)
        } else {
            match fingerprint_spec(snapshot_size_bytes, Some(bytes), evidence.prefix) {
                Err(error) => Err(error),
                Ok(actual) => if actual.sha256 == Some(expected) {
                    Ok(fingerprint)
                } else {
                    Err(SourceError::IdentityMismatch)
                },
            }
        },
        (None, None) => if cursor_offset_bytes == 0 {
            Ok(fingerprint)
        } else {
            match migration_refusal(evidence, source_id) {
                Some(error) => Err(error),
                None => fingerprint_spec(snapshot_size_bytes, None, evidence.prefix),
            }
        },
        _ => Err(SourceError::FingerprintPartial),
    }
}

/// Holds the source against the fingerprint of its cursor. A cursor that has
/// consumed bytes but has no fingerprint is given one; the result says whether
/// that happened.
pub fn ensure_transcript_source_fingerprint(
    fingerprint: &mut SourceFingerprint,
    source_id: &str,
    snapshot_size_bytes: u64,
    cursor_offset_bytes: u64,
    evidence: &FingerprintEvidence,
) -> (changed: Result<bool, SourceError>)
    ensures
        match ensured_fingerprint(
            old(fingerprint)@,
            source_id@,
            snapshot_size_bytes,
            cursor_offset_bytes,
            *evidence,
        ) {
            Err(error) => changed == Err::<bool, SourceError>(error) && final(fingerprint)@ == old(
                fingerprint,
            )@,
            Ok(ensured) => final(fingerprint)@ == ensured && changed == Ok::<bool, SourceError>(
                old(fingerprint)@.bytes is None && cursor_offset_bytes != 0,
            ),
        },
{
    match (fingerprint.bytes, &fingerprint.sha256) {
        (Some(bytes), Some(expected)) => {
            if !is_lower_sha256(expected.as_str()) {
                return Err(SourceError::FingerprintInvalid);
            }
            let actual = read_transcript_source_fingerprint(
                snapshot_size_bytes,
                Some(bytes),
                &evidence.prefix,
            )?;
            if !str_equal(actual.sha256.as_str(), expected.as_str()) {
                return Err(SourceError::IdentityMismatch);
            }
            Ok(false)
        },
        (None, None) => {
            if cursor_offset_bytes == 0 {
                return Ok(false);
            }
            if let Some(error) = check_migration(evidence, source_id) {
                return Err(error);
            }
            let found = read_transcript_source_fingerprint(
                snapshot_size_bytes,
                None,
                &evidence.prefix,
            )?;
            fingerprint.bytes = Some(found.bytes);
            fingerprint.sha256 = Some(found.sha256);
            Ok(true)
        },
        _ => Err(SourceError::FingerprintPartial),
    }
}

/// Why a range cannot be read, if it cannot.
pub open spec fn range_refusal(
    snapshot_size_bytes: u64,
    start_offset_bytes: u64,
    bytes: u64,
    purpose: RangePurpose,
) -> Option<SourceError> {
    if bytes == 0 {
        Some(SourceError::RangeLengthInvalid { purpose })
    } else if start_offset_bytes + bytes > u64::MAX {
        Some(SourceError::RangeOffsetOverflow { purpose })
    } else if start_offset_bytes + bytes > snapshot_size_bytes {
        Some(SourceError::RangeTruncated { purpose })
    } else {
        None
    }
}

/// The bytes of a range, or why there are none.
pub open spec fn range_spec(
    snapshot_size_bytes: u64,
    start_offset_bytes: u64,
    bytes: u64,
    purpose: RangePurpose,
    read: RangeRead,
) -> Result<Seq<u8>, SourceError> {
    match range_refusal(snapshot_size_bytes, start_offset_bytes, bytes, purpose) {
        Some(error) => Err(error),
        None => match range_bytes(read, bytes) {
            Err(stage) => Err(SourceError::RangeReadFailed { purpose, stage }),
            Ok(found) => Ok(found),
        },
    }
}

/// The bytes of a range of the source, which must lie within the snapshot.
pub fn read_transcript_source_range<'a>(
    snapshot_size_bytes: u64,
    start_offset_bytes: u64,
    bytes: u64,
    purpose: RangePurpose,
    read: &'a RangeRead,
) -> (found: Result<&'a Vec<u8>, SourceError>)
    ensures
        match found {
            Ok(inner) => range_spec(
                snapshot_size_bytes,
                start_offset_bytes,
                bytes,
                purpose,
                *read,
            ) == Ok::<Seq<u8>, SourceError>(inner@),
            Err(error) => range_spec(
                snapshot_size_bytes,
                start_offset_bytes,
                bytes,
                purpose,
                *read,
            ) == Err::<Seq<u8>, SourceError>(error),
        },
{
    if bytes == 0 {
        return Err(SourceError::RangeLengthInvalid { purpose });
    }
    match start_offset_bytes.checked_add(bytes) {
        None => Err(SourceError::RangeOffsetOverflow { purpose }),
        Some(end) => if end > snapshot_size_bytes {
            Err(SourceError::RangeTruncated { purpose })
        } else {
            match take_range(read, bytes) {
                Ok(inner) => Ok(inner),
                Err(stage) => Err(SourceError::RangeReadFailed { purpose, stage }),
            }
        },
    }
}

/// The lesser of two numbers.
pub open spec fn lesser(left: u64, right: u64) -> u64 {
    if left < right {
        left
    } else {
        right
    }
}

/// The bytes before a cursor that are held against the source: where they
/// start, and how many they are.
pub fn plan_boundary(cursor_offset_bytes: u64) -> (range: (u64, u64))
    ensures
        range.1 == lesser(cursor_offset_bytes, AGENT_TRANSCRIPT_SOURCE_BOUNDARY_BYTES),
        range.0 == cursor_offset_bytes - range.1,
{
    let bytes: u64 = if cursor_offset_bytes < AGENT_TRANSCRIPT_SOURCE_BOUNDARY_BYTES {
        cursor_offset_bytes
    } else {
        AGENT_TRANSCRIPT_SOURCE_BOUNDARY_BYTES
    };
    (cursor_offset_bytes - bytes, bytes)
}

/// The bytes before a cursor in which its last line lies: where they start, and
/// how many they are.
pub fn plan_last_line(cursor_offset_bytes: u64) -> (range: (u64, u64))
    ensures
        range.1 == lesser(cursor_offset_bytes, MAX_LINE_WINDOW_BYTES),
        range.0 == cursor_offset_bytes - range.1,
{
    let bytes: u64 = if cursor_offset_bytes < MAX_LINE_WINDOW_BYTES {
        cursor_offset_bytes
    } else {
        MAX_LINE_WINDOW_BYTES
    };
    (cursor_offset_bytes - bytes, bytes)
}

/// The bytes just before a cursor.
#[derive(Debug)]
pub struct TranscriptSourceBoundary {
    pub start_offset_bytes: u64,
    pub bytes: u64,
    pub sha256: String,
}

/// The boundary at a cursor, or why there is none.
pub open spec fn boundary_spec(
    snapshot_size_bytes: u64,
    cursor_offset_bytes: u64,
    read: RangeRead,
) -> Result<BoundaryView, SourceError> {
    let bytes = lesser(cursor_offset_bytes, AGENT_TRANSCRIPT_SOURCE_BOUNDARY_BYTES);
    let start = (cursor_offset_bytes - bytes) as u64;
    if cursor_offset_bytes == 0 {
        Err(SourceError::BoundaryOffsetInvalid)
    } else {
        match range_spec(snapshot_size_bytes, start, bytes, RangePurpose::Boundary, read) {
            Err(error) => Err(error),
            Ok(found) => Ok(
                BoundaryView {
                    start_offset_bytes: Some(start),
                    bytes: Some(bytes),
                    sha256: Some(digest::sha256_text(found)),
                },
            ),
        }
    }
}

/// The boundary at a cursor whose last bytes are `read`.
pub fn read_transcript_source_boundary(
    snapshot_size_bytes: u64,
    cursor_offset_bytes: u64,
    read: &RangeRead,
) -> (boundary: Result<TranscriptSourceBoundary, SourceError>)
    ensures
        match boundary {
            Ok(found) => boundary_spec(snapshot_size_bytes, cursor_offset_bytes, *read) == Ok::<
                BoundaryView,
                SourceError,
            >(
                BoundaryView {
                    start_offset_bytes: Some(found.start_offset_bytes),
                    bytes: Some(found.bytes),
                    sha256: Some(found.sha256@),
                },
            ) && digest::is_lower_sha256_spec(found.sha256@),
            Err(error) => boundary_spec(snapshot_size_bytes, cursor_offset_bytes, *read) == Err::<
                BoundaryView,
                SourceError,
            >(error),
        },
{
    if cursor_offset_bytes == 0 {
        return Err(SourceError::BoundaryOffsetInvalid);
    }
    let (start_offset_bytes, bytes) = plan_boundary(cursor_offset_bytes);
    let found = read_transcript_source_range(
        snapshot_size_bytes,
        start_offset_bytes,
        bytes,
        RangePurpose::Boundary,
        read,
    )?;
    Ok(
        TranscriptSourceBoundary {
            start_offset_bytes,
            bytes,
            sha256: sha256_hex(found.as_slice()),
        },
    )
}

/// Where the last line of the bytes ends, its terminator left out.
pub open spec fn last_line_end(bytes: Seq<u8>) -> int {
    let len = bytes.len() as int;
    if len > 0 && bytes[len - 1] == 10 {
        if len > 1 && bytes[len - 2] == 13 {
            len - 2
        } else {
            len - 1
        }
    } else {
        len
    }
}

/// Where the line that ends at `end` starts.
pub open spec fn line_start_before(bytes: Seq<u8>, end: int) -> int
    decreases end,
{
    if end <= 0 {
        0
    } else if bytes[end - 1] == 10 {
        end
    } else {
        line_start_before(bytes, end - 1)
    }
}

/// The last line of the bytes.
pub open spec fn last_line(bytes: Seq<u8>) -> Seq<u8> {
    bytes.subrange(line_start_before(bytes, last_line_end(bytes)), last_line_end(bytes))
}

proof fn lemma_line_start(bytes: Seq<u8>, end: int)
    requires
        0 <= end <= bytes.len(),
    ensures
        0 <= line_start_before(bytes, end) <= end,
        forall|i: int| line_start_before(bytes, end) <= i < end ==> bytes[i] != 10,
        line_start_before(bytes, end) > 0 ==> bytes[line_start_before(bytes, end) - 1] == 10,
    decreases end,
{
    if end > 0 && bytes[end - 1] != 10 {
        lemma_line_start(bytes, end - 1);
    }
}

proof fn lemma_line_start_unique(bytes: Seq<u8>, start: int, end: int)
    requires
        0 <= start <= end <= bytes.len(),
        forall|i: int| start <= i < end ==> bytes[i] != 10,
        start > 0 ==> bytes[start - 1] == 10,
    ensures
        line_start_before(bytes, end) == start,
    decreases end,
{
    if end > start {
        lemma_line_start_unique(bytes, start, end - 1);
    }
}

/// The last line before a cursor, or why it cannot be had.
pub open spec fn last_line_spec(
    snapshot_size_bytes: u64,
    cursor_offset_bytes: u64,
    read: RangeRead,
) -> Result<Seq<u8>, SourceError> {
    let bytes = lesser(cursor_offset_bytes, MAX_LINE_WINDOW_BYTES);
    let start = (cursor_offset_bytes - bytes) as u64;
    match range_spec(snapshot_size_bytes, start, bytes, RangePurpose::BoundaryMigration, read) {
        Err(error) => Err(error),
        Ok(window) => if last_line(window).len() > MAX_AGENT_TRANSCRIPT_SOURCE_LINE_BYTES {
            Err(
                SourceError::BoundaryMigrationRecordOversized {
                    observed_bytes: last_line(window).len() as usize,
                },
            )
        } else {
            Ok(last_line(window))
        },
    }
}

/// The last line before a cursor whose last bytes are `read`.
pub fn last_logical_line_before_cursor(
    snapshot_size_bytes: u64,
    cursor_offset_bytes: u64,
    read: &RangeRead,
) -> (line: Result<Vec<u8>, SourceError>)
    ensures
        match line {
            Ok(found) => last_line_spec(snapshot_size_bytes, cursor_offset_bytes, *read) == Ok::<
                Seq<u8>,
                SourceError,
            >(found@),
            Err(error) => last_line_spec(snapshot_size_bytes, cursor_offset_bytes, *read) == Err::<
                Seq<u8>,
                SourceError,
            >(error),
        },
{
    let (start_offset_bytes, bytes) = plan_last_line(cursor_offset_bytes);
    let window = read_transcript_source_range(
        snapshot_size_bytes,
        start_offset_bytes,
        bytes,
        RangePurpose::BoundaryMigration,
        read,
    )?;
    let mut end: usize = window.len();
    if end > 0 && window[end - 1] == 10 {
        end = end - 1;
        if end > 0 && window[end - 1] == 13 {
            end = end - 1;
        }
    }
    let mut start: usize = end;
    while start > 0 && window[start - 1] != 10
        invariant
            start <= end <= window@.len(),
            forall|i: int| start <= i < end ==> window@[i] != 10,
        decreases start,
    {
        start = start - 1;
    }
    proof {
        lemma_line_start_unique(window@, start as int, end as int);
    }
    let observed_bytes: usize = end - start;
    if observed_bytes > MAX_AGENT_TRANSCRIPT_SOURCE_LINE_BYTES {
        return Err(SourceError::BoundaryMigrationRecordOversized { observed_bytes });
    }
    let mut line: Vec<u8> = Vec::new();
    let mut index: usize = start;
    while index < end
        invariant
            start <= index <= end <= window@.len(),
            line@ == window@.subrange(start as int, index as int),
        decreases end - index,
    {
        line.push(window[index]);
        index = index + 1;
        assert(line@ =~= window@.subrange(start as int, index as int));
    }
    Ok(line)
}

/// What the check of a boundary reads.
#[derive(Debug)]
pub struct BoundaryEvidence {
    /// The bytes that `plan_boundary` names.
    pub boundary: RangeRead,
    /// The bytes that `plan_last_line` names. Needed for a cursor without a
    /// boundary.
    pub last_line: RangeRead,
    /// The row of the last line. Needed for a cursor without a boundary.
    pub last_row: CoveredRow,
}

/// Why the last row of a cursor was not made from the last line before it, if it
/// was not.
pub open spec fn legacy_refusal(
    source_id: Seq<char>,
    snapshot_size_bytes: u64,
    cursor_offset_bytes: u64,
    lines_ingested: u64,
    evidence: BoundaryEvidence,
) -> Option<SourceError> {
    if lines_ingested == 0 {
        Some(SourceError::BoundaryMigrationCounterInvalid)
    } else {
        match last_line_spec(snapshot_size_bytes, cursor_offset_bytes, evidence.last_line) {
            Err(error) => Some(error),
            Ok(line) => match evidence.last_row {
                CoveredRow::Failed => Some(SourceError::BoundaryMigrationRowReadFailed),
                CoveredRow::Missing => Some(SourceError::BoundaryMigrationRowMissing),
                CoveredRow::Undecodable => Some(SourceError::BoundaryMigrationRowInvalid),
                CoveredRow::Row(row) => if stamps_line(row, source_id, lines_ingested, line) {
                    None
                } else {
                    Some(SourceError::BoundaryMigrationRowMismatch)
                },
            },
        }
    }
}

/// Whether the last row of a cursor was made from the last line before it.
pub fn verify_legacy_boundary_row(
    source_id: &str,
    snapshot_size_bytes: u64,
    cursor_offset_bytes: u64,
    lines_ingested: u64,
    evidence: &BoundaryEvidence,
) -> (verified: Result<(), SourceError>)
    ensures
        verified == (match legacy_refusal(
            source_id@,
            snapshot_size_bytes,
            cursor_offset_bytes,
            lines_ingested,
            *evidence,
        ) {
            Some(error) => Err::<(), SourceError>(error),
            None => Ok(()),
        }),
{
    if lines_ingested == 0 {
        return Err(SourceError::BoundaryMigrationCounterInvalid);
    }
    let line = last_logical_line_before_cursor(
        snapshot_size_bytes,
        cursor_offset_bytes,
        &evidence.last_line,
    )?;
    match &evidence.last_row {
        CoveredRow::Failed => Err(SourceError::BoundaryMigrationRowReadFailed),
        CoveredRow::Missing => Err(SourceError::BoundaryMigrationRowMissing),
        CoveredRow::Undecodable => Err(SourceError::BoundaryMigrationRowInvalid),
        CoveredRow::Row(row) => if is_stamp_of(row, source_id, lines_ingested, line.as_slice()) {
            Ok(())
        } else {
            Err(SourceError::BoundaryMigrationRowMismatch)
        },
    }
}

/// What the check of a boundary gives: the boundary of the cursor from now on.
pub open spec fn ensured_boundary(
    boundary: BoundaryView,
    source_id: Seq<char>,
    snapshot_size_bytes: u64,
    cursor_offset_bytes: u64,
    lines_ingested: u64,
    evidence: BoundaryEvidence,
) -> Result<BoundaryView, SourceError> {
    if cursor_offset_bytes == 0 {
        if lines_ingested != 0 || boundary.start_offset_bytes is Some || boundary.bytes is Some
            || boundary.sha256 is Some {
            Err(SourceError::BoundaryZeroOffsetInvalid)
        } else {
            Ok(boundary)
        }
    } else if lines_ingested == 0 {
        Err(SourceError::BoundaryCounterInvalid)
    } else {
        match (boundary.start_offset_bytes, boundary.bytes, boundary.sha256) {
            (Some(start), Some(bytes), Some(sha256)) => match boundary_spec(
                snapshot_size_bytes,
                cursor_offset_bytes,
                evidence.boundary,
            ) {
                Err(error) => Err(error),
                Ok(actual) => if actual.start_offset_bytes != Some(start) || actual.bytes != Some(
                    bytes,
                ) || !digest::is_lower_sha256_spec(sha256) {
                    Err(SourceError::BoundaryInvalid)
                } else if actual.sha256 != Some(sha256) {
                    Err(SourceError::BoundaryMismatch)
                } else {
                    Ok(boundary)
                },
            },
            (None, None, None) => match legacy_refusal(
                source_id,
                snapshot_size_bytes,
                cursor_offset_bytes,
                lines_ingested,
                evidence,
            ) {
                Some(error) => Err(error),
                None => boundary_spec(snapshot_size_bytes, cursor_offset_bytes, evidence.boundary),
            },
            _ => Err(SourceError::BoundaryPartial),
        }
    }
}

/// Moves the boundary to the cursor.
pub fn refresh_transcript_source_boundary(
    boundary: &mut SourceBoundary,
    snapshot_size_bytes: u64,
    cursor_offset_bytes: u64,
    read: &RangeRead,
) -> (refreshed: Result<(), SourceError>)
    ensures
        match boundary_spec(snapshot_size_bytes, cursor_offset_bytes, *read) {
            Ok(found) => refreshed is Ok && final(boundary)@ == found,
            Err(error) => refreshed == Err::<(), SourceError>(error) && final(boundary)@ == old(
                boundary,
            )@,
        },
{
    let found = read_transcript_source_boundary(snapshot_size_bytes, cursor_offset_bytes, read)?;
    boundary.start_offset_bytes = Some(found.start_offset_bytes);
    boundary.bytes = Some(found.bytes);
    boundary.sha256 = Some(found.sha256);
    Ok(())
}

/// Holds the source against the bytes that its cursor saw last. A cursor that
/// has consumed bytes but has no boundary is given one; the result says whether
/// that happened.
pub fn ensure_transcript_source_boundary(
    boundary: &mut SourceBoundary,
    source_id: &str,
    snapshot_size_bytes: u64,
    cursor_offset_bytes: u64,
    lines_ingested: u64,
    evidence: &BoundaryEvidence,
) -> (changed: Result<bool, SourceError>)
    ensures
        match ensured_boundary(
            old(boundary)@,
            source_id@,
            snapshot_size_bytes,
            cursor_offset_bytes,
            lines_ingested,
            *evidence,
        ) {
            Err(error) => changed == Err::<bool, SourceError>(error) && final(boundary)@ == old(
                boundary,
            )@,
            Ok(ensured) => final(boundary)@ == ensured && changed == Ok::<bool, SourceError>(
                old(boundary)@.sha256 is None && cursor_offset_bytes != 0,
            ),
        },
{
    if cursor_offset_bytes == 0 {
        if lines_ingested != 0 || boundary.start_offset_bytes.is_some() || boundary.bytes.is_some()
            || boundary.sha256.is_some() {
            return Err(SourceError::BoundaryZeroOffsetInvalid);
        }
        return Ok(false);
    }
    if lines_ingested == 0 {
        return Err(SourceError::BoundaryCounterInvalid);
    }
    match (boundary.start_offset_bytes, boundary.bytes, &boundary.sha256) {
        (Some(start), Some(bytes), Some(sha256)) => {
            let actual = read_transcript_source_boundary(
                snapshot_size_bytes,
                cursor_offset_bytes,
                &evidence.boundary,
            )?;
            if start != actual.start_offset_bytes || bytes != actual.bytes || !is_lower_sha256(
                sha256.as_str(),
            ) {
                return Err(SourceError::BoundaryInvalid);
            }
            if !str_equal(actual.sha256.as_str(), sha256.as_str()) {
                return Err(SourceError::BoundaryMismatch);
            }
            Ok(false)
        },
        (None, None, None) => {
            verify_legacy_boundary_row(
                source_id,
                snapshot_size_bytes,
                cursor_offset_bytes,
                lines_ingested,
                evidence,
            )?;
            refresh_transcript_source_boundary(
                boundary,
                snapshot_size_bytes,
                cursor_offset_bytes,
                &evidence.boundary,
            )?;
            Ok(true)
        },
        _ => Err(SourceError::BoundaryPartial),
    }
}

/// Whether reading a range gave what the source holds there.
pub open spec fn read_from(read: RangeRead, source: Seq<u8>, start: int, bytes: int) -> bool {
    &&& 0 <= start
    &&& 0 <= bytes
    &&& start + bytes <= source.len()
    &&& read matches RangeRead::Bytes(found) && found@ == source.subrange(start, start + bytes)
}

/// A source that only grows keeps its boundary: one that was taken at the cursor
/// is accepted again after any bytes were appended.
pub proof fn law_growing_sources_keep_their_boundary(
    source: Seq<u8>,
    appended: Seq<u8>,
    source_id: Seq<char>,
    cursor_offset_bytes: u64,
    lines_ingested: u64,
    before: RangeRead,
    evidence: BoundaryEvidence,
)
    requires
        0 < cursor_offset_bytes <= source.len(),
        0 < lines_ingested,
        (source + appended).len() <= u64::MAX,
        ({
            let bytes = lesser(cursor_offset_bytes, AGENT_TRANSCRIPT_SOURCE_BOUNDARY_BYTES);
            &&& read_from(before, source, cursor_offset_bytes - bytes, bytes as int)
            &&& read_from(
                evidence.boundary,
                source + appended,
                cursor_offset_bytes - bytes,
                bytes as int,
            )
            &&& digest::is_lower_sha256_spec(
                digest::sha256_text(
                    source.subrange(cursor_offset_bytes - bytes, cursor_offset_bytes as int),
                ),
            )
        }),
    ensures
        ({
            let taken = boundary_spec(source.len() as u64, cursor_offset_bytes, before);
            &&& taken is Ok
            &&& ensured_boundary(
                taken->Ok_0,
                source_id,
                (source + appended).len() as u64,
                cursor_offset_bytes,
                lines_ingested,
                evidence,
            ) == taken
        }),
{
    let bytes = lesser(cursor_offset_bytes, AGENT_TRANSCRIPT_SOURCE_BOUNDARY_BYTES);
    let start = cursor_offset_bytes - bytes;
    let end = cursor_offset_bytes as int;
    assert((source + appended).subrange(start, end) =~= source.subrange(start, end));
}

/// The line that a read gave is the last line before the cursor that the read
/// moved to, where the read began at a line's start.
pub proof fn law_last_line_is_the_line_read(
    source: Seq<u8>,
    offset: int,
    finalize: bool,
    read: RangeRead,
)
    requires
        0 <= offset <= source.len() <= u64::MAX,
        offset == 0 || source[offset - 1] == 10,
        tail::line_at(source, offset, finalize) is Some,
        tail::line_at(source, offset, finalize)->Some_0 is Line,
        ({
            let cursor = offset + tail::line_at(source, offset, finalize)->Some_0->Line_consumed_bytes;
            let bytes = lesser(cursor as u64, MAX_LINE_WINDOW_BYTES);
            read_from(read, source, cursor - bytes, bytes as int)
        }),
    ensures
        ({
            let line = tail::line_at(source, offset, finalize)->Some_0;
            last_line_spec(
                source.len() as u64,
                (offset + line->Line_consumed_bytes) as u64,
                read,
            ) == Ok::<Seq<u8>, SourceError>(line->Line_bytes)
        }),
{
    tail::law_lines_advance(source, offset, finalize);
    tail::law_consumed_is_line_and_terminator(source, offset, finalize);
    let line = tail::line_at(source, offset, finalize)->Some_0;
    let cursor = offset + line->Line_consumed_bytes;
    let bytes = lesser(cursor as u64, MAX_LINE_WINDOW_BYTES) as int;
    let window = source.subrange(cursor - bytes, cursor);
    let begin = offset - (cursor - bytes);
    let end = begin + line->Line_bytes.len();
    assert(line->Line_consumed_bytes <= line->Line_bytes.len() + 2);
    assert(0 <= begin);
    let consumed = source.subrange(offset, cursor);
    assert(window.subrange(begin, bytes) =~= consumed);
    assert forall|i: int| begin <= i < end implies window[i] != 10 by {
        assert(line->Line_bytes[i - begin] == source[offset + (i - begin)]);
    }
    if begin > 0 {
        assert(window[begin - 1] == source[offset - 1]);
    }
    assert(window[bytes - 1] == consumed.last());
    assert(last_line_end(window) == end) by {
        if consumed == line->Line_bytes + seq![13u8, 10u8] {
            assert(window[bytes - 2] == consumed[consumed.len() - 2]);
        } else if consumed == line->Line_bytes + seq![10u8] {
            if line->Line_bytes.len() > 0 {
                assert(window[bytes - 2] == consumed[consumed.len() - 2]);
                assert(consumed[consumed.len() - 2] == line->Line_bytes.last());
            }
        } else {
            assert(window[end - 1] != 10);
        }
    }
    lemma_line_start_unique(window, begin, end);
    assert(window.subrange(begin, end) =~= line->Line_bytes);
}

} // verus!
