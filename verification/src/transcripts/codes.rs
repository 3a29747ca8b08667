//! The codes by which failures are told and parked.
use crate::guarded::GuardedError;
use crate::text;
use crate::text::joined;
use crate::transcripts::chunk::ChunkError;
use crate::transcripts::cursor::CursorError;
use crate::transcripts::ingest::{PassError, ReadbackError};
use crate::transcripts::launch::{CompletionError, LaunchError, ManifestError};
use crate::transcripts::source::{RangePurpose, ReadStage, SourceError};
use crate::transcripts::tail::TailError;
use vstd::prelude::*;
use vstd::string::*;

verus! {

/// The code of a failed read.
pub open spec fn tail_name(error: TailError) -> Seq<char> {
    match error {
        TailError::Truncated { .. } => "SOURCE_TRUNCATED"@,
        TailError::OpenFailed { .. } => "SOURCE_OPEN_FAILED"@,
        TailError::SeekFailed { .. } => "SOURCE_SEEK_FAILED"@,
        TailError::ReadFailed { .. } => "SOURCE_READ_FAILED"@,
        TailError::ChangedDuringRead { .. } => "SOURCE_CHANGED_DURING_READ"@,
        TailError::RecordOversized { .. } => "SOURCE_RECORD_OVERSIZED"@,
    }
}

/// The code of a failed read.
pub fn tail_code(error: TailError) -> (code: &'static str)
    ensures
        code@ == tail_name(error),
{
    match error {
        TailError::Truncated { .. } => "SOURCE_TRUNCATED",
        TailError::OpenFailed { .. } => "SOURCE_OPEN_FAILED",
        TailError::SeekFailed { .. } => "SOURCE_SEEK_FAILED",
        TailError::ReadFailed { .. } => "SOURCE_READ_FAILED",
        TailError::ChangedDuringRead { .. } => "SOURCE_CHANGED_DURING_READ",
        TailError::RecordOversized { .. } => "SOURCE_RECORD_OVERSIZED",
    }
}

/// The code of a source that does not match its cursor.
pub open spec fn source_name(error: SourceError) -> Seq<char> {
    match error {
        SourceError::Tail(inner) => tail_name(inner),
        SourceError::FingerprintLengthInvalid { .. } => "SOURCE_FINGERPRINT_LENGTH_INVALID"@,
        SourceError::FingerprintTruncated { .. } => "SOURCE_FINGERPRINT_TRUNCATED"@,
        SourceError::FingerprintReadFailed { stage: ReadStage::Open } => {
            "SOURCE_FINGERPRINT_OPEN_FAILED"@
        },
        SourceError::FingerprintReadFailed { .. } => "SOURCE_FINGERPRINT_READ_FAILED"@,
        SourceError::FingerprintInvalid => "SOURCE_FINGERPRINT_INVALID"@,
        SourceError::IdentityMismatch => "SOURCE_IDENTITY_MISMATCH"@,
        SourceError::FingerprintMigrationFailed => "SOURCE_FINGERPRINT_MIGRATION_FAILED"@,
        SourceError::FingerprintMigrationCancelled => "SOURCE_FINGERPRINT_MIGRATION_CANCELLED"@,
        SourceError::FingerprintRowReadFailed => "SOURCE_FINGERPRINT_ROW_READ_FAILED"@,
        SourceError::FingerprintRowMissing => "SOURCE_FINGERPRINT_ROW_MISSING"@,
        SourceError::FingerprintRowInvalid => "SOURCE_FINGERPRINT_ROW_INVALID"@,
        SourceError::FingerprintRowMismatch => "SOURCE_FINGERPRINT_ROW_MISMATCH"@,
        SourceError::FingerprintPartial => "SOURCE_FINGERPRINT_PARTIAL"@,
        SourceError::RangeLengthInvalid { purpose: RangePurpose::Boundary } => {
            "SOURCE_BOUNDARY_LENGTH_INVALID"@
        },
        SourceError::RangeLengthInvalid { purpose: RangePurpose::BoundaryMigration } => {
            "SOURCE_BOUNDARY_MIGRATION_LENGTH_INVALID"@
        },
        SourceError::RangeOffsetOverflow { purpose: RangePurpose::Boundary } => {
            "SOURCE_BOUNDARY_OFFSET_OVERFLOW"@
        },
        SourceError::RangeOffsetOverflow { purpose: RangePurpose::BoundaryMigration } => {
            "SOURCE_BOUNDARY_MIGRATION_OFFSET_OVERFLOW"@
        },
        SourceError::RangeTruncated { purpose: RangePurpose::Boundary } => {
            "SOURCE_BOUNDARY_TRUNCATED"@
        },
        SourceError::RangeTruncated { purpose: RangePurpose::BoundaryMigration } => {
            "SOURCE_BOUNDARY_MIGRATION_TRUNCATED"@
        },
        SourceError::RangeReadFailed { purpose: RangePurpose::Boundary, stage: ReadStage::Open } => {
            "SOURCE_BOUNDARY_OPEN_FAILED"@
        },
        SourceError::RangeReadFailed { purpose: RangePurpose::Boundary, stage: ReadStage::Seek } => {
            "SOURCE_BOUNDARY_SEEK_FAILED"@
        },
        SourceError::RangeReadFailed { purpose: RangePurpose::Boundary, stage: ReadStage::Read } => {
            "SOURCE_BOUNDARY_READ_FAILED"@
        },
        SourceError::RangeReadFailed { purpose: RangePurpose::BoundaryMigration, stage: ReadStage::Open } => {
            "SOURCE_BOUNDARY_MIGRATION_OPEN_FAILED"@
        },
        SourceError::RangeReadFailed { purpose: RangePurpose::BoundaryMigration, stage: ReadStage::Seek } => {
            "SOURCE_BOUNDARY_MIGRATION_SEEK_FAILED"@
        },
        SourceError::RangeReadFailed { purpose: RangePurpose::BoundaryMigration, stage: ReadStage::Read } => {
            "SOURCE_BOUNDARY_MIGRATION_READ_FAILED"@
        },
        SourceError::BoundaryOffsetInvalid => "SOURCE_BOUNDARY_OFFSET_INVALID"@,
        SourceError::BoundaryMigrationRecordOversized { .. } => {
            "SOURCE_BOUNDARY_MIGRATION_RECORD_OVERSIZED"@
        },
        SourceError::BoundaryMigrationCounterInvalid => {
            "SOURCE_BOUNDARY_MIGRATION_COUNTER_INVALID"@
        },
        SourceError::BoundaryMigrationRowReadFailed => "SOURCE_BOUNDARY_MIGRATION_ROW_READ_FAILED"@,
        SourceError::BoundaryMigrationRowMissing => "SOURCE_BOUNDARY_MIGRATION_ROW_MISSING"@,
        SourceError::BoundaryMigrationRowInvalid => "SOURCE_BOUNDARY_MIGRATION_ROW_INVALID"@,
        SourceError::BoundaryMigrationRowMismatch => "SOURCE_BOUNDARY_MIGRATION_ROW_MISMATCH"@,
        SourceError::BoundaryZeroOffsetInvalid => "SOURCE_BOUNDARY_ZERO_OFFSET_INVALID"@,
        SourceError::BoundaryCounterInvalid => "SOURCE_BOUNDARY_COUNTER_INVALID"@,
        SourceError::BoundaryInvalid => "SOURCE_BOUNDARY_INVALID"@,
        SourceError::BoundaryMismatch => "SOURCE_BOUNDARY_MISMATCH"@,
        SourceError::BoundaryPartial => "SOURCE_BOUNDARY_PARTIAL"@,
    }
}

/// The code of a source that does not match its cursor.
pub fn source_code(error: SourceError) -> (code: &'static str)
    ensures
        code@ == source_name(error),
{
    match error {
        SourceError::Tail(inner) => tail_code(inner),
        SourceError::FingerprintLengthInvalid { .. } => "SOURCE_FINGERPRINT_LENGTH_INVALID",
        SourceError::FingerprintTruncated { .. } => "SOURCE_FINGERPRINT_TRUNCATED",
        SourceError::FingerprintReadFailed { stage: ReadStage::Open } => {
            "SOURCE_FINGERPRINT_OPEN_FAILED"
        },
        SourceError::FingerprintReadFailed { .. } => "SOURCE_FINGERPRINT_READ_FAILED",
        SourceError::FingerprintInvalid => "SOURCE_FINGERPRINT_INVALID",
        SourceError::IdentityMismatch => "SOURCE_IDENTITY_MISMATCH",
        SourceError::FingerprintMigrationFailed => "SOURCE_FINGERPRINT_MIGRATION_FAILED",
        SourceError::FingerprintMigrationCancelled => "SOURCE_FINGERPRINT_MIGRATION_CANCELLED",
        SourceError::FingerprintRowReadFailed => "SOURCE_FINGERPRINT_ROW_READ_FAILED",
        SourceError::FingerprintRowMissing => "SOURCE_FINGERPRINT_ROW_MISSING",
        SourceError::FingerprintRowInvalid => "SOURCE_FINGERPRINT_ROW_INVALID",
        SourceError::FingerprintRowMismatch => "SOURCE_FINGERPRINT_ROW_MISMATCH",
        SourceError::FingerprintPartial => "SOURCE_FINGERPRINT_PARTIAL",
        SourceError::RangeLengthInvalid { purpose: RangePurpose::Boundary } => {
            "SOURCE_BOUNDARY_LENGTH_INVALID"
        },
        SourceError::RangeLengthInvalid { purpose: RangePurpose::BoundaryMigration } => {
            "SOURCE_BOUNDARY_MIGRATION_LENGTH_INVALID"
        },
        SourceError::RangeOffsetOverflow { purpose: RangePurpose::Boundary } => {
            "SOURCE_BOUNDARY_OFFSET_OVERFLOW"
        },
        SourceError::RangeOffsetOverflow { purpose: RangePurpose::BoundaryMigration } => {
            "SOURCE_BOUNDARY_MIGRATION_OFFSET_OVERFLOW"
        },
        SourceError::RangeTruncated { purpose: RangePurpose::Boundary } => {
            "SOURCE_BOUNDARY_TRUNCATED"
        },
        SourceError::RangeTruncated { purpose: RangePurpose::BoundaryMigration } => {
            "SOURCE_BOUNDARY_MIGRATION_TRUNCATED"
        },
        SourceError::RangeReadFailed { purpose: RangePurpose::Boundary, stage: ReadStage::Open } => {
            "SOURCE_BOUNDARY_OPEN_FAILED"
        },
        SourceError::RangeReadFailed { purpose: RangePurpose::Boundary, stage: ReadStage::Seek } => {
            "SOURCE_BOUNDARY_SEEK_FAILED"
        },
        SourceError::RangeReadFailed { purpose: RangePurpose::Boundary, stage: ReadStage::Read } => {
            "SOURCE_BOUNDARY_READ_FAILED"
        },
        SourceError::RangeReadFailed { purpose: RangePurpose::BoundaryMigration, stage: ReadStage::Open } => {
            "SOURCE_BOUNDARY_MIGRATION_OPEN_FAILED"
        },
        SourceError::RangeReadFailed { purpose: RangePurpose::BoundaryMigration, stage: ReadStage::Seek } => {
            "SOURCE_BOUNDARY_MIGRATION_SEEK_FAILED"
        },
        SourceError::RangeReadFailed { purpose: RangePurpose::BoundaryMigration, stage: ReadStage::Read } => {
            "SOURCE_BOUNDARY_MIGRATION_READ_FAILED"
        },
        SourceError::BoundaryOffsetInvalid => "SOURCE_BOUNDARY_OFFSET_INVALID",
        SourceError::BoundaryMigrationRecordOversized { .. } => {
            "SOURCE_BOUNDARY_MIGRATION_RECORD_OVERSIZED"
        },
        SourceError::BoundaryMigrationCounterInvalid => "SOURCE_BOUNDARY_MIGRATION_COUNTER_INVALID",
        SourceError::BoundaryMigrationRowReadFailed => "SOURCE_BOUNDARY_MIGRATION_ROW_READ_FAILED",
        SourceError::BoundaryMigrationRowMissing => "SOURCE_BOUNDARY_MIGRATION_ROW_MISSING",
        SourceError::BoundaryMigrationRowInvalid => "SOURCE_BOUNDARY_MIGRATION_ROW_INVALID",
        SourceError::BoundaryMigrationRowMismatch => "SOURCE_BOUNDARY_MIGRATION_ROW_MISMATCH",
        SourceError::BoundaryZeroOffsetInvalid => "SOURCE_BOUNDARY_ZERO_OFFSET_INVALID",
        SourceError::BoundaryCounterInvalid => "SOURCE_BOUNDARY_COUNTER_INVALID",
        SourceError::BoundaryInvalid => "SOURCE_BOUNDARY_INVALID",
        SourceError::BoundaryMismatch => "SOURCE_BOUNDARY_MISMATCH",
        SourceError::BoundaryPartial => "SOURCE_BOUNDARY_PARTIAL",
    }
}

/// The code of a chunk that does not count.
pub open spec fn chunk_name(error: ChunkError) -> Seq<char> {
    match error {
        ChunkError::TooManyRows { .. } => "COMMIT_INVARIANT_FAILED"@,
        ChunkError::SizeOverflow => "COMMIT_SIZE_OVERFLOW"@,
        ChunkError::TooManyBytes { .. } => "COMMIT_INVARIANT_FAILED"@,
        ChunkError::PreconditionsMissing => "COMMIT_INVARIANT_FAILED"@,
        ChunkError::RowPreconditionReadFailed { .. } => "ROW_PRECONDITION_READ_FAILED"@,
        ChunkError::RowIdentityConflict { .. } => "ROW_IDENTITY_CONFLICT"@,
        ChunkError::IndexPreconditionReadFailed { .. } => "INDEX_PRECONDITION_READ_FAILED"@,
        ChunkError::IndexIdentityConflict { .. } => "INDEX_IDENTITY_CONFLICT"@,
        ChunkError::RowsWriteFailed => "ROWS_WRITE_FAILED"@,
        ChunkError::RowsRevisionConflict => "ROWS_REVISION_CONFLICT"@,
        ChunkError::ReadbacksMissing => "COMMIT_INVARIANT_FAILED"@,
        ChunkError::RowReadbackFailed { .. } => "ROW_READBACK_FAILED"@,
        ChunkError::RowReadbackMismatch { .. } => "ROW_READBACK_MISMATCH"@,
        ChunkError::IndexReadbackFailed { .. } => "INDEX_READBACK_FAILED"@,
        ChunkError::IndexReadbackMismatch { .. } => "INDEX_READBACK_MISMATCH"@,
        ChunkError::ConstellationMeasurementFailed { .. } => "CONSTELLATION_MEASUREMENT_FAILED"@,
    }
}

/// The code of a chunk that does not count.
pub fn chunk_code(error: ChunkError) -> (code: &'static str)
    ensures
        code@ == chunk_name(error),
{
    match error {
        ChunkError::TooManyRows { .. } => "COMMIT_INVARIANT_FAILED",
        ChunkError::SizeOverflow => "COMMIT_SIZE_OVERFLOW",
        ChunkError::TooManyBytes { .. } => "COMMIT_INVARIANT_FAILED",
        ChunkError::PreconditionsMissing => "COMMIT_INVARIANT_FAILED",
        ChunkError::RowPreconditionReadFailed { .. } => "ROW_PRECONDITION_READ_FAILED",
        ChunkError::RowIdentityConflict { .. } => "ROW_IDENTITY_CONFLICT",
        ChunkError::IndexPreconditionReadFailed { .. } => "INDEX_PRECONDITION_READ_FAILED",
        ChunkError::IndexIdentityConflict { .. } => "INDEX_IDENTITY_CONFLICT",
        ChunkError::RowsWriteFailed => "ROWS_WRITE_FAILED",
        ChunkError::RowsRevisionConflict => "ROWS_REVISION_CONFLICT",
        ChunkError::ReadbacksMissing => "COMMIT_INVARIANT_FAILED",
        ChunkError::RowReadbackFailed { .. } => "ROW_READBACK_FAILED",
        ChunkError::RowReadbackMismatch { .. } => "ROW_READBACK_MISMATCH",
        ChunkError::IndexReadbackFailed { .. } => "INDEX_READBACK_FAILED",
        ChunkError::IndexReadbackMismatch { .. } => "INDEX_READBACK_MISMATCH",
        ChunkError::ConstellationMeasurementFailed { .. } => "CONSTELLATION_MEASUREMENT_FAILED",
    }
}

/// The code of a cursor that was not stored.
pub open spec fn store_name(error: GuardedError) -> Seq<char> {
    match error {
        GuardedError::WriteFailed => "CURSOR_WRITE_FAILED"@,
        GuardedError::RevisionConflict => "CURSOR_REVISION_CONFLICT"@,
        GuardedError::WriteOutcomeInvalid => "CURSOR_WRITE_OUTCOME_INVALID"@,
        GuardedError::ReadbackFailed => "CURSOR_READBACK_FAILED"@,
        GuardedError::ReadbackMissing => "CURSOR_READBACK_MISSING"@,
        GuardedError::ReadbackMismatch => "CURSOR_READBACK_MISMATCH"@,
    }
}

/// The code of a cursor that was not stored.
pub fn store_code(error: GuardedError) -> (code: &'static str)
    ensures
        code@ == store_name(error),
{
    match error {
        GuardedError::WriteFailed => "CURSOR_WRITE_FAILED",
        GuardedError::RevisionConflict => "CURSOR_REVISION_CONFLICT",
        GuardedError::WriteOutcomeInvalid => "CURSOR_WRITE_OUTCOME_INVALID",
        GuardedError::ReadbackFailed => "CURSOR_READBACK_FAILED",
        GuardedError::ReadbackMissing => "CURSOR_READBACK_MISSING",
        GuardedError::ReadbackMismatch => "CURSOR_READBACK_MISMATCH",
    }
}

/// The code of a cursor that cannot be used.
pub open spec fn cursor_name(error: CursorError) -> Seq<char> {
    match error {
        CursorError::ReadFailed => "CURSOR_READ_FAILED"@,
        CursorError::Expired => "CURSOR_EXPIRED"@,
        CursorError::DecodeFailed => "CURSOR_DECODE_FAILED"@,
        CursorError::IdentityInvalid => "CURSOR_IDENTITY_INVALID"@,
        CursorError::Store(inner) => store_name(inner),
    }
}

/// The code of a cursor that cannot be used.
pub fn cursor_code(error: CursorError) -> (code: &'static str)
    ensures
        code@ == cursor_name(error),
{
    match error {
        CursorError::ReadFailed => "CURSOR_READ_FAILED",
        CursorError::Expired => "CURSOR_EXPIRED",
        CursorError::DecodeFailed => "CURSOR_DECODE_FAILED",
        CursorError::IdentityInvalid => "CURSOR_IDENTITY_INVALID",
        CursorError::Store(inner) => store_code(inner),
    }
}

/// The code of a transcript that does not bear out its cursor.
pub open spec fn readback_name(error: ReadbackError) -> Seq<char> {
    match error {
        ReadbackError::CounterOverflow => "CURSOR_COUNTER_OVERFLOW"@,
        ReadbackError::CounterMismatch => "CURSOR_COUNTER_MISMATCH"@,
        ReadbackError::RowReadFailed { .. } => "BOUNDARY_READBACK_FAILED"@,
        ReadbackError::RowMissing { .. } => "BOUNDARY_READBACK_MISSING"@,
        ReadbackError::RowUndecodable { .. } => "BOUNDARY_READBACK_INVALID"@,
        ReadbackError::RowIdentityMismatch { .. } => "BOUNDARY_IDENTITY_MISMATCH"@,
        ReadbackError::RowInvalid { .. } => "BOUNDARY_RECORD_INVALID"@,
    }
}

/// The code of a transcript that does not bear out its cursor.
pub fn readback_code(error: ReadbackError) -> (code: &'static str)
    ensures
        code@ == readback_name(error),
{
    match error {
        ReadbackError::CounterOverflow => "CURSOR_COUNTER_OVERFLOW",
        ReadbackError::CounterMismatch => "CURSOR_COUNTER_MISMATCH",
        ReadbackError::RowReadFailed { .. } => "BOUNDARY_READBACK_FAILED",
        ReadbackError::RowMissing { .. } => "BOUNDARY_READBACK_MISSING",
        ReadbackError::RowUndecodable { .. } => "BOUNDARY_READBACK_INVALID",
        ReadbackError::RowIdentityMismatch { .. } => "BOUNDARY_IDENTITY_MISMATCH",
        ReadbackError::RowInvalid { .. } => "BOUNDARY_RECORD_INVALID",
    }
}

/// The code of a manifest that cannot be used.
pub open spec fn manifest_name(error: ManifestError) -> Seq<char> {
    match error {
        ManifestError::Missing => "SPAWN_MANIFEST_MISSING"@,
        ManifestError::ReadFailed => "SPAWN_MANIFEST_READ_FAILED"@,
        _ => "SPAWN_MANIFEST_INVALID"@,
    }
}

/// The code of a manifest that cannot be used.
pub fn manifest_code(error: ManifestError) -> (code: &'static str)
    ensures
        code@ == manifest_name(error),
{
    match error {
        ManifestError::Missing => "SPAWN_MANIFEST_MISSING",
        ManifestError::ReadFailed => "SPAWN_MANIFEST_READ_FAILED",
        _ => "SPAWN_MANIFEST_INVALID",
    }
}

/// The code of a launch whose format is not known.
pub open spec fn launch_name(error: LaunchError) -> Seq<char> {
    match error {
        LaunchError::MarkerInvalid { .. } => "SOURCE_MARKER_INVALID"@,
        LaunchError::MarkerStatFailed { .. } => "SOURCE_MARKER_STAT_FAILED"@,
        LaunchError::FormatUnknown => "SOURCE_FORMAT_UNKNOWN"@,
        LaunchError::Ambiguous => "SOURCE_AMBIGUOUS"@,
    }
}

/// The code of a launch whose format is not known.
pub fn launch_code(error: LaunchError) -> (code: &'static str)
    ensures
        code@ == launch_name(error),
{
    match error {
        LaunchError::MarkerInvalid { .. } => "SOURCE_MARKER_INVALID",
        LaunchError::MarkerStatFailed { .. } => "SOURCE_MARKER_STAT_FAILED",
        LaunchError::FormatUnknown => "SOURCE_FORMAT_UNKNOWN",
        LaunchError::Ambiguous => "SOURCE_AMBIGUOUS",
    }
}

/// The code of a completion status that cannot be used.
pub open spec fn completion_name(error: CompletionError) -> Seq<char> {
    match error {
        CompletionError::ReadFailed => "COMPLETION_STATUS_READ_FAILED"@,
        _ => "COMPLETION_STATUS_INVALID"@,
    }
}

/// The code of a completion status that cannot be used.
pub fn completion_code(error: CompletionError) -> (code: &'static str)
    ensures
        code@ == completion_name(error),
{
    match error {
        CompletionError::ReadFailed => "COMPLETION_STATUS_READ_FAILED",
        _ => "COMPLETION_STATUS_INVALID",
    }
}

/// The code of a pass that stops, if it has one: a malformed spawn id has none.
pub open spec fn pass_name(error: PassError) -> Option<Seq<char>> {
    match error {
        PassError::SpawnId(_) => None,
        PassError::Cursor(inner) => Some(cursor_name(inner)),
        PassError::Manifest(inner) => Some(manifest_name(inner)),
        PassError::Launch(inner) => Some(launch_name(inner)),
        PassError::SourcePathMismatch => Some("CURSOR_SOURCE_PATH_MISMATCH"@),
        PassError::SourceStatFailed => Some("SOURCE_STAT_FAILED"@),
        PassError::SourceNotFile => Some("SOURCE_NOT_FILE"@),
        PassError::SourceTruncated { .. } => Some("SOURCE_TRUNCATED"@),
        PassError::Source(inner) => Some(source_name(inner)),
        PassError::Completion(inner) => Some(completion_name(inner)),
        PassError::LineNumberOverflow { .. } => Some("LINE_NUMBER_OVERFLOW"@),
        PassError::RowValidationFailed { .. } => Some("ROW_VALIDATION_FAILED"@),
        PassError::RowEncodeFailed { .. } => Some("ROW_ENCODE_FAILED"@),
        PassError::RowOversized { .. } => Some("ROW_OVERSIZED"@),
        PassError::Chunk(inner) => Some(chunk_name(inner)),
        PassError::ParsedCounterOverflow => Some("PARSED_COUNTER_OVERFLOW"@),
        PassError::InvalidCounterOverflow => Some("INVALID_COUNTER_OVERFLOW"@),
        PassError::FinalStatFailed => Some("SOURCE_FINAL_STAT_FAILED"@),
        PassError::Readback(inner) => Some(readback_name(inner)),
        PassError::EndStateAnchorFailed => Some("END_STATE_ANCHOR_FAILED"@),
    }
}

/// The code of a pass that stops, with the name of the ingest before it.
pub fn pass_code(ingest_name: &str, error: PassError) -> (code: Option<String>)
    ensures
        text::opt_text(code) == (match pass_name(error) {
            Some(name) => Some(ingest_name@ + "_"@ + name),
            None => None,
        }),
{
    let name = match error {
        PassError::SpawnId(_) => {
            return None;
        },
        PassError::Cursor(inner) => cursor_code(inner),
        PassError::Manifest(inner) => manifest_code(inner),
        PassError::Launch(inner) => launch_code(inner),
        PassError::SourcePathMismatch => "CURSOR_SOURCE_PATH_MISMATCH",
        PassError::SourceStatFailed => "SOURCE_STAT_FAILED",
        PassError::SourceNotFile => "SOURCE_NOT_FILE",
        PassError::SourceTruncated { .. } => "SOURCE_TRUNCATED",
        PassError::Source(inner) => source_code(inner),
        PassError::Completion(inner) => completion_code(inner),
        PassError::LineNumberOverflow { .. } => "LINE_NUMBER_OVERFLOW",
        PassError::RowValidationFailed { .. } => "ROW_VALIDATION_FAILED",
        PassError::RowEncodeFailed { .. } => "ROW_ENCODE_FAILED",
        PassError::RowOversized { .. } => "ROW_OVERSIZED",
        PassError::Chunk(inner) => chunk_code(inner),
        PassError::ParsedCounterOverflow => "PARSED_COUNTER_OVERFLOW",
        PassError::InvalidCounterOverflow => "INVALID_COUNTER_OVERFLOW",
        PassError::FinalStatFailed => "SOURCE_FINAL_STAT_FAILED",
        PassError::Readback(inner) => readback_code(inner),
        PassError::EndStateAnchorFailed => "END_STATE_ANCHOR_FAILED",
    };
    let mut code = joined(ingest_name, "_");
    code.append(name);
    Some(code)
}

} // verus!
