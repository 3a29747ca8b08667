//! The names under which errors of the ingest are told.
use crate::transcripts::codes;
use crate::guarded::GuardedError;
use crate::transcripts::chunk;
use crate::transcripts::chunk::ChunkError;
use crate::transcripts::cursor::CursorError;
use crate::transcripts::cycle;
use crate::transcripts::cycle::TranscriptRootScope;
use crate::transcripts::ingest;
use crate::transcripts::ingest::{PassError, ReadbackError};
use crate::transcripts::launch::{CompletionError, LaunchError, ManifestError};
use crate::transcripts::source;
use crate::transcripts::source::{RangePurpose, ReadStage, SourceError};
use crate::transcripts::tail;
use crate::transcripts::tail::TailError;
use vstd::prelude::*;
use vstd::string::*;

verus! {

/// How a line could not be read, by name.
pub proof fn law_tail_names(error: TailError)
    ensures
        match error {
            TailError::Truncated { .. } => codes::tail_name(error) == "SOURCE_TRUNCATED"@,
            TailError::OpenFailed { .. } => codes::tail_name(error) == "SOURCE_OPEN_FAILED"@,
            TailError::SeekFailed { .. } => codes::tail_name(error) == "SOURCE_SEEK_FAILED"@,
            TailError::ReadFailed { .. } => codes::tail_name(error) == "SOURCE_READ_FAILED"@,
            TailError::ChangedDuringRead { .. } => codes::tail_name(error)
                == "SOURCE_CHANGED_DURING_READ"@,
            TailError::RecordOversized { .. } => codes::tail_name(error)
                == "SOURCE_RECORD_OVERSIZED"@,
        },
{
}

/// Why a source is not the one that was read before, by name: what concerns the boundary
/// and its migration is told apart, and so is the stage at which a read failed.
pub proof fn law_source_names(error: SourceError)
    ensures
        match error {
            SourceError::Tail(inner) => codes::source_name(error) == codes::tail_name(inner),
            SourceError::FingerprintLengthInvalid { .. } => codes::source_name(error)
                == "SOURCE_FINGERPRINT_LENGTH_INVALID"@,
            SourceError::FingerprintTruncated { .. } => codes::source_name(error)
                == "SOURCE_FINGERPRINT_TRUNCATED"@,
            SourceError::FingerprintReadFailed { stage: ReadStage::Open } => {
                codes::source_name(error)
                    == "SOURCE_FINGERPRINT_OPEN_FAILED"@
            },
            SourceError::FingerprintReadFailed { .. } => codes::source_name(error)
                == "SOURCE_FINGERPRINT_READ_FAILED"@,
            SourceError::FingerprintInvalid => codes::source_name(error)
                == "SOURCE_FINGERPRINT_INVALID"@,
            SourceError::IdentityMismatch => codes::source_name(error)
                == "SOURCE_IDENTITY_MISMATCH"@,
            SourceError::FingerprintMigrationFailed => codes::source_name(error)
                == "SOURCE_FINGERPRINT_MIGRATION_FAILED"@,
            SourceError::FingerprintMigrationCancelled => codes::source_name(error)
                == "SOURCE_FINGERPRINT_MIGRATION_CANCELLED"@,
            SourceError::FingerprintRowReadFailed => codes::source_name(error)
                == "SOURCE_FINGERPRINT_ROW_READ_FAILED"@,
            SourceError::FingerprintRowMissing => codes::source_name(error)
                == "SOURCE_FINGERPRINT_ROW_MISSING"@,
            SourceError::FingerprintRowInvalid => codes::source_name(error)
                == "SOURCE_FINGERPRINT_ROW_INVALID"@,
            SourceError::FingerprintRowMismatch => codes::source_name(error)
                == "SOURCE_FINGERPRINT_ROW_MISMATCH"@,
            SourceError::FingerprintPartial => codes::source_name(error)
                == "SOURCE_FINGERPRINT_PARTIAL"@,
            SourceError::RangeLengthInvalid { purpose: RangePurpose::Boundary } => {
                codes::source_name(error)
                    == "SOURCE_BOUNDARY_LENGTH_INVALID"@
            },
            SourceError::RangeLengthInvalid { purpose: RangePurpose::BoundaryMigration } => {
                codes::source_name(error)
                    == "SOURCE_BOUNDARY_MIGRATION_LENGTH_INVALID"@
            },
            SourceError::RangeOffsetOverflow { purpose: RangePurpose::Boundary } => {
                codes::source_name(error)
                    == "SOURCE_BOUNDARY_OFFSET_OVERFLOW"@
            },
            SourceError::RangeOffsetOverflow { purpose: RangePurpose::BoundaryMigration } => {
                codes::source_name(error)
                    == "SOURCE_BOUNDARY_MIGRATION_OFFSET_OVERFLOW"@
            },
            SourceError::RangeTruncated { purpose: RangePurpose::Boundary } => {
                codes::source_name(error)
                    == "SOURCE_BOUNDARY_TRUNCATED"@
            },
            SourceError::RangeTruncated { purpose: RangePurpose::BoundaryMigration } => {
                codes::source_name(error)
                    == "SOURCE_BOUNDARY_MIGRATION_TRUNCATED"@
            },
            SourceError::RangeReadFailed { purpose: RangePurpose::Boundary, stage: ReadStage::Open } => {
                codes::source_name(error)
                    == "SOURCE_BOUNDARY_OPEN_FAILED"@
            },
            SourceError::RangeReadFailed { purpose: RangePurpose::Boundary, stage: ReadStage::Seek } => {
                codes::source_name(error)
                    == "SOURCE_BOUNDARY_SEEK_FAILED"@
            },
            SourceError::RangeReadFailed { purpose: RangePurpose::Boundary, stage: ReadStage::Read } => {
                codes::source_name(error)
                    == "SOURCE_BOUNDARY_READ_FAILED"@
            },
            SourceError::RangeReadFailed { purpose: RangePurpose::BoundaryMigration, stage: ReadStage::Open } => {
                codes::source_name(error)
                    == "SOURCE_BOUNDARY_MIGRATION_OPEN_FAILED"@
            },
            SourceError::RangeReadFailed { purpose: RangePurpose::BoundaryMigration, stage: ReadStage::Seek } => {
                codes::source_name(error)
                    == "SOURCE_BOUNDARY_MIGRATION_SEEK_FAILED"@
            },
            SourceError::RangeReadFailed { purpose: RangePurpose::BoundaryMigration, stage: ReadStage::Read } => {
                codes::source_name(error)
                    == "SOURCE_BOUNDARY_MIGRATION_READ_FAILED"@
            },
            SourceError::BoundaryOffsetInvalid => codes::source_name(error)
                == "SOURCE_BOUNDARY_OFFSET_INVALID"@,
            SourceError::BoundaryMigrationRecordOversized { .. } => codes::source_name(error)
                == "SOURCE_BOUNDARY_MIGRATION_RECORD_OVERSIZED"@,
            SourceError::BoundaryMigrationCounterInvalid => codes::source_name(error)
                == "SOURCE_BOUNDARY_MIGRATION_COUNTER_INVALID"@,
            SourceError::BoundaryMigrationRowReadFailed => codes::source_name(error)
                == "SOURCE_BOUNDARY_MIGRATION_ROW_READ_FAILED"@,
            SourceError::BoundaryMigrationRowMissing => codes::source_name(error)
                == "SOURCE_BOUNDARY_MIGRATION_ROW_MISSING"@,
            SourceError::BoundaryMigrationRowInvalid => codes::source_name(error)
                == "SOURCE_BOUNDARY_MIGRATION_ROW_INVALID"@,
            SourceError::BoundaryMigrationRowMismatch => codes::source_name(error)
                == "SOURCE_BOUNDARY_MIGRATION_ROW_MISMATCH"@,
            SourceError::BoundaryZeroOffsetInvalid => codes::source_name(error)
                == "SOURCE_BOUNDARY_ZERO_OFFSET_INVALID"@,
            SourceError::BoundaryCounterInvalid => codes::source_name(error)
                == "SOURCE_BOUNDARY_COUNTER_INVALID"@,
            SourceError::BoundaryInvalid => codes::source_name(error) == "SOURCE_BOUNDARY_INVALID"@,
            SourceError::BoundaryMismatch => codes::source_name(error)
                == "SOURCE_BOUNDARY_MISMATCH"@,
            SourceError::BoundaryPartial => codes::source_name(error) == "SOURCE_BOUNDARY_PARTIAL"@,
        },
{
}

/// Why a chunk was not committed, by name; a broken bound is a broken invariant.
pub proof fn law_chunk_names(error: ChunkError)
    ensures
        match error {
            ChunkError::TooManyRows { .. } => codes::chunk_name(error)
                == "COMMIT_INVARIANT_FAILED"@,
            ChunkError::SizeOverflow => codes::chunk_name(error) == "COMMIT_SIZE_OVERFLOW"@,
            ChunkError::TooManyBytes { .. } => codes::chunk_name(error)
                == "COMMIT_INVARIANT_FAILED"@,
            ChunkError::PreconditionsMissing => codes::chunk_name(error)
                == "COMMIT_INVARIANT_FAILED"@,
            ChunkError::RowPreconditionReadFailed { .. } => codes::chunk_name(error)
                == "ROW_PRECONDITION_READ_FAILED"@,
            ChunkError::RowIdentityConflict { .. } => codes::chunk_name(error)
                == "ROW_IDENTITY_CONFLICT"@,
            ChunkError::IndexPreconditionReadFailed { .. } => codes::chunk_name(error)
                == "INDEX_PRECONDITION_READ_FAILED"@,
            ChunkError::IndexIdentityConflict { .. } => codes::chunk_name(error)
                == "INDEX_IDENTITY_CONFLICT"@,
            ChunkError::RowsWriteFailed => codes::chunk_name(error) == "ROWS_WRITE_FAILED"@,
            ChunkError::RowsRevisionConflict => codes::chunk_name(error)
                == "ROWS_REVISION_CONFLICT"@,
            ChunkError::ReadbacksMissing => codes::chunk_name(error) == "COMMIT_INVARIANT_FAILED"@,
            ChunkError::RowReadbackFailed { .. } => codes::chunk_name(error)
                == "ROW_READBACK_FAILED"@,
            ChunkError::RowReadbackMismatch { .. } => codes::chunk_name(error)
                == "ROW_READBACK_MISMATCH"@,
            ChunkError::IndexReadbackFailed { .. } => codes::chunk_name(error)
                == "INDEX_READBACK_FAILED"@,
            ChunkError::IndexReadbackMismatch { .. } => codes::chunk_name(error)
                == "INDEX_READBACK_MISMATCH"@,
            ChunkError::ConstellationMeasurementFailed { .. } => codes::chunk_name(error)
                == "CONSTELLATION_MEASUREMENT_FAILED"@,
        },
{
}

/// Why a cursor was not stored, by name.
pub proof fn law_store_names(error: GuardedError)
    ensures
        match error {
            GuardedError::WriteFailed => codes::store_name(error) == "CURSOR_WRITE_FAILED"@,
            GuardedError::RevisionConflict => codes::store_name(error)
                == "CURSOR_REVISION_CONFLICT"@,
            GuardedError::WriteOutcomeInvalid => codes::store_name(error)
                == "CURSOR_WRITE_OUTCOME_INVALID"@,
            GuardedError::ReadbackFailed => codes::store_name(error) == "CURSOR_READBACK_FAILED"@,
            GuardedError::ReadbackMissing => codes::store_name(error) == "CURSOR_READBACK_MISSING"@,
            GuardedError::ReadbackMismatch => codes::store_name(error)
                == "CURSOR_READBACK_MISMATCH"@,
        },
{
}

/// Why a cursor cannot be used, by name.
pub proof fn law_cursor_names(error: CursorError)
    ensures
        match error {
            CursorError::ReadFailed => codes::cursor_name(error) == "CURSOR_READ_FAILED"@,
            CursorError::Expired => codes::cursor_name(error) == "CURSOR_EXPIRED"@,
            CursorError::DecodeFailed => codes::cursor_name(error) == "CURSOR_DECODE_FAILED"@,
            CursorError::IdentityInvalid => codes::cursor_name(error) == "CURSOR_IDENTITY_INVALID"@,
            CursorError::Store(inner) => codes::cursor_name(error) == codes::store_name(inner),
        },
{
}

/// What is wrong with the ends of a transcript, by name.
pub proof fn law_readback_names(error: ReadbackError)
    ensures
        match error {
            ReadbackError::CounterOverflow => codes::readback_name(error)
                == "CURSOR_COUNTER_OVERFLOW"@,
            ReadbackError::CounterMismatch => codes::readback_name(error)
                == "CURSOR_COUNTER_MISMATCH"@,
            ReadbackError::RowReadFailed { .. } => codes::readback_name(error)
                == "BOUNDARY_READBACK_FAILED"@,
            ReadbackError::RowMissing { .. } => codes::readback_name(error)
                == "BOUNDARY_READBACK_MISSING"@,
            ReadbackError::RowUndecodable { .. } => codes::readback_name(error)
                == "BOUNDARY_READBACK_INVALID"@,
            ReadbackError::RowIdentityMismatch { .. } => codes::readback_name(error)
                == "BOUNDARY_IDENTITY_MISMATCH"@,
            ReadbackError::RowInvalid { .. } => codes::readback_name(error)
                == "BOUNDARY_RECORD_INVALID"@,
        },
{
}

/// What is wrong with a manifest, by name; one that is there and readable is invalid.
pub proof fn law_manifest_names(error: ManifestError)
    ensures
        match error {
            ManifestError::Missing => codes::manifest_name(error) == "SPAWN_MANIFEST_MISSING"@,
            ManifestError::ReadFailed => codes::manifest_name(error)
                == "SPAWN_MANIFEST_READ_FAILED"@,
            _ => codes::manifest_name(error) == "SPAWN_MANIFEST_INVALID"@,
        },
{
}

/// Why the source of a launch cannot be told, by name.
pub proof fn law_launch_names(error: LaunchError)
    ensures
        match error {
            LaunchError::MarkerInvalid { .. } => codes::launch_name(error)
                == "SOURCE_MARKER_INVALID"@,
            LaunchError::MarkerStatFailed { .. } => codes::launch_name(error)
                == "SOURCE_MARKER_STAT_FAILED"@,
            LaunchError::FormatUnknown => codes::launch_name(error) == "SOURCE_FORMAT_UNKNOWN"@,
            LaunchError::Ambiguous => codes::launch_name(error) == "SOURCE_AMBIGUOUS"@,
        },
{
}

/// Why the end of a spawn cannot be told, by name.
pub proof fn law_completion_names(error: CompletionError)
    ensures
        match error {
            CompletionError::ReadFailed => codes::completion_name(error)
                == "COMPLETION_STATUS_READ_FAILED"@,
            _ => codes::completion_name(error) == "COMPLETION_STATUS_INVALID"@,
        },
{
}

/// Why a pass failed, by name; what another part refused has the name of that part.
pub proof fn law_pass_names(error: PassError)
    ensures
        match error {
            PassError::SpawnId(_) => codes::pass_name(error) is None,
            PassError::Cursor(inner) => codes::pass_name(error) == Some(codes::cursor_name(inner)),
            PassError::Manifest(inner) => codes::pass_name(error)
                == Some(codes::manifest_name(inner)),
            PassError::Launch(inner) => codes::pass_name(error) == Some(codes::launch_name(inner)),
            PassError::SourcePathMismatch => codes::pass_name(error)
                == Some("CURSOR_SOURCE_PATH_MISMATCH"@),
            PassError::SourceStatFailed => codes::pass_name(error) == Some("SOURCE_STAT_FAILED"@),
            PassError::SourceNotFile => codes::pass_name(error) == Some("SOURCE_NOT_FILE"@),
            PassError::SourceTruncated { .. } => codes::pass_name(error)
                == Some("SOURCE_TRUNCATED"@),
            PassError::Source(inner) => codes::pass_name(error) == Some(codes::source_name(inner)),
            PassError::Completion(inner) => codes::pass_name(error)
                == Some(codes::completion_name(inner)),
            PassError::LineNumberOverflow { .. } => codes::pass_name(error)
                == Some("LINE_NUMBER_OVERFLOW"@),
            PassError::RowValidationFailed { .. } => codes::pass_name(error)
                == Some("ROW_VALIDATION_FAILED"@),
            PassError::RowEncodeFailed { .. } => codes::pass_name(error)
                == Some("ROW_ENCODE_FAILED"@),
            PassError::RowOversized { .. } => codes::pass_name(error) == Some("ROW_OVERSIZED"@),
            PassError::Chunk(inner) => codes::pass_name(error) == Some(codes::chunk_name(inner)),
            PassError::ParsedCounterOverflow => codes::pass_name(error)
                == Some("PARSED_COUNTER_OVERFLOW"@),
            PassError::InvalidCounterOverflow => codes::pass_name(error)
                == Some("INVALID_COUNTER_OVERFLOW"@),
            PassError::FinalStatFailed => codes::pass_name(error)
                == Some("SOURCE_FINAL_STAT_FAILED"@),
            PassError::Readback(inner) => codes::pass_name(error)
                == Some(codes::readback_name(inner)),
            PassError::EndStateAnchorFailed => codes::pass_name(error)
                == Some("END_STATE_ANCHOR_FAILED"@),
        },
{
}

/// Where the root of the spawns was found, by name, and under which names it and the times of
/// the ingest are set.
pub proof fn law_transcript_settings_are_named(scope: TranscriptRootScope)
    ensures
        scope == TranscriptRootScope::ExplicitEnv ==> scope.name() == "explicit_env"@,
        scope == TranscriptRootScope::ConfiguredDaemonDb ==> scope.name() == "configured_daemon_db"@,
        cycle::INTERVAL_ENV@ == "SYNAPSE_TRANSCRIPT_INGEST_INTERVAL_SECS"@,
        cycle::STARTUP_DELAY_ENV@ == "SYNAPSE_TRANSCRIPT_INGEST_STARTUP_DELAY_SECS"@,
        cycle::ROOT_ENV@ == "SYNAPSE_TRANSCRIPT_INGEST_SPAWN_ROOT"@,
        cycle::DEFAULT_INTERVAL_SECS == 15,
        cycle::DEFAULT_STARTUP_DELAY_SECS == 10,
{
}

/// A chunk has room for the greatest value of each of its rows, a pass takes the lines of four
/// chunks, and a window of the source has room for the longest line and its terminator.
pub proof fn law_passes_are_made_of_chunks()
    ensures
        chunk::MAX_CHUNK_VALUE_BYTES == chunk::MAX_AGENT_TRANSCRIPT_COMMIT_ROWS
            * chunk::MAX_AGENT_TRANSCRIPT_VALUE_BYTES,
        chunk::MAX_AGENT_TRANSCRIPT_COMMIT_ROWS == 64,
        chunk::MAX_AGENT_TRANSCRIPT_VALUE_BYTES == 32_768,
        ingest::MAX_AGENT_TRANSCRIPT_ROWS_PER_PASS == 4 * chunk::MAX_AGENT_TRANSCRIPT_COMMIT_ROWS,
        ingest::MAX_AGENT_TRANSCRIPT_SOURCE_BYTES_PER_PASS == 33_554_432,
        source::MAX_LINE_WINDOW_BYTES == tail::MAX_AGENT_TRANSCRIPT_SOURCE_LINE_BYTES + 2,
        source::AGENT_TRANSCRIPT_SOURCE_FINGERPRINT_BYTES == 65_536,
        source::AGENT_TRANSCRIPT_SOURCE_BOUNDARY_BYTES == 65_536,
        tail::AGENT_TRANSCRIPT_READ_BUFFER_BYTES == 65_536,
{
}

} // verus!
