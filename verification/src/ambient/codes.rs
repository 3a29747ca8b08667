//! The codes by which failures are told and parked.
use crate::ambient::journal::{AmbientCursorError, JournalError};
use crate::ambient::outbox::OutboxError;
use crate::ambient::pass::SessionError;
use crate::ambient::relay::{ProjectionError, RelayError, RetentionError};
use crate::guarded::GuardedError;
use crate::text;
use crate::transcripts::codes;
use crate::transcripts::codes::pass_code;
use vstd::prelude::*;
use vstd::string::*;

verus! {

/// The code of an outbox or a checkpoint that is refused.
pub open spec fn outbox_name(error: OutboxError) -> Seq<char> {
    match error {
        OutboxError::EnvelopeInvalid => "AMBIENT_OUTBOX_ENVELOPE_INVALID"@,
        OutboxError::RecordIdentityInvalid => "AMBIENT_OUTBOX_RECORD_IDENTITY_INVALID"@,
        OutboxError::RecordPayloadInvalid => "AMBIENT_OUTBOX_RECORD_PAYLOAD_INVALID"@,
        OutboxError::OperationStampMismatch => "AMBIENT_OUTBOX_OPERATION_STAMP_MISMATCH"@,
        OutboxError::RecordInvalid => "AMBIENT_OUTBOX_RECORD_INVALID"@,
        OutboxError::RecordKindInvalid => "AMBIENT_OUTBOX_RECORD_KIND_INVALID"@,
        OutboxError::RecordSetInvalid => "AMBIENT_OUTBOX_RECORD_SET_INVALID"@,
        OutboxError::IdentityEncodeFailed => "AMBIENT_OUTBOX_IDENTITY_ENCODE_FAILED"@,
        OutboxError::OperationIdMismatch => "AMBIENT_OUTBOX_OPERATION_ID_MISMATCH"@,
        OutboxError::EffectInvalid => "AMBIENT_OUTBOX_EFFECT_INVALID"@,
        OutboxError::CheckpointEnvelopeInvalid => "AMBIENT_PROJECTION_CHECKPOINT_ENVELOPE_INVALID"@,
        OutboxError::CheckpointKeyOrderInvalid => {
            "AMBIENT_PROJECTION_CHECKPOINT_KEY_ORDER_INVALID"@
        },
        OutboxError::CheckpointKeyInvalid => "AMBIENT_PROJECTION_CHECKPOINT_KEY_INVALID"@,
        OutboxError::CheckpointTimestampMismatch => {
            "AMBIENT_PROJECTION_CHECKPOINT_TIMESTAMP_MISMATCH"@
        },
    }
}

/// The code of an outbox or a checkpoint that is refused.
pub fn outbox_code(error: OutboxError) -> (code: &'static str)
    ensures
        code@ == outbox_name(error),
{
    match error {
        OutboxError::EnvelopeInvalid => "AMBIENT_OUTBOX_ENVELOPE_INVALID",
        OutboxError::RecordIdentityInvalid => "AMBIENT_OUTBOX_RECORD_IDENTITY_INVALID",
        OutboxError::RecordPayloadInvalid => "AMBIENT_OUTBOX_RECORD_PAYLOAD_INVALID",
        OutboxError::OperationStampMismatch => "AMBIENT_OUTBOX_OPERATION_STAMP_MISMATCH",
        OutboxError::RecordInvalid => "AMBIENT_OUTBOX_RECORD_INVALID",
        OutboxError::RecordKindInvalid => "AMBIENT_OUTBOX_RECORD_KIND_INVALID",
        OutboxError::RecordSetInvalid => "AMBIENT_OUTBOX_RECORD_SET_INVALID",
        OutboxError::IdentityEncodeFailed => "AMBIENT_OUTBOX_IDENTITY_ENCODE_FAILED",
        OutboxError::OperationIdMismatch => "AMBIENT_OUTBOX_OPERATION_ID_MISMATCH",
        OutboxError::EffectInvalid => "AMBIENT_OUTBOX_EFFECT_INVALID",
        OutboxError::CheckpointEnvelopeInvalid => "AMBIENT_PROJECTION_CHECKPOINT_ENVELOPE_INVALID",
        OutboxError::CheckpointKeyOrderInvalid => "AMBIENT_PROJECTION_CHECKPOINT_KEY_ORDER_INVALID",
        OutboxError::CheckpointKeyInvalid => "AMBIENT_PROJECTION_CHECKPOINT_KEY_INVALID",
        OutboxError::CheckpointTimestampMismatch => {
            "AMBIENT_PROJECTION_CHECKPOINT_TIMESTAMP_MISMATCH"
        },
    }
}

/// The code of a cursor that cannot be used.
pub open spec fn cursor_name(error: AmbientCursorError) -> Seq<char> {
    match error {
        AmbientCursorError::ReadFailed => "AMBIENT_CURSOR_READ_FAILED"@,
        AmbientCursorError::Expired => "AMBIENT_CURSOR_EXPIRED"@,
        AmbientCursorError::DecodeFailed => "AMBIENT_CURSOR_DECODE_FAILED"@,
        AmbientCursorError::IdentityInvalid => "AMBIENT_CURSOR_IDENTITY_INVALID"@,
        AmbientCursorError::Outbox(inner) => outbox_name(inner),
        AmbientCursorError::Store(GuardedError::WriteFailed) => "AMBIENT_CURSOR_WRITE_FAILED"@,
        AmbientCursorError::Store(GuardedError::RevisionConflict) => {
            "AMBIENT_CURSOR_REVISION_CONFLICT"@
        },
        AmbientCursorError::Store(GuardedError::WriteOutcomeInvalid) => {
            "AMBIENT_CURSOR_WRITE_OUTCOME_INVALID"@
        },
        AmbientCursorError::Store(GuardedError::ReadbackFailed) => {
            "AMBIENT_CURSOR_READBACK_FAILED"@
        },
        AmbientCursorError::Store(GuardedError::ReadbackMissing) => {
            "AMBIENT_CURSOR_READBACK_MISSING"@
        },
        AmbientCursorError::Store(GuardedError::ReadbackMismatch) => {
            "AMBIENT_CURSOR_READBACK_MISMATCH"@
        },
    }
}

/// The code of a cursor that cannot be used.
pub fn cursor_code(error: AmbientCursorError) -> (code: &'static str)
    ensures
        code@ == cursor_name(error),
{
    match error {
        AmbientCursorError::ReadFailed => "AMBIENT_CURSOR_READ_FAILED",
        AmbientCursorError::Expired => "AMBIENT_CURSOR_EXPIRED",
        AmbientCursorError::DecodeFailed => "AMBIENT_CURSOR_DECODE_FAILED",
        AmbientCursorError::IdentityInvalid => "AMBIENT_CURSOR_IDENTITY_INVALID",
        AmbientCursorError::Outbox(inner) => outbox_code(inner),
        AmbientCursorError::Store(GuardedError::WriteFailed) => "AMBIENT_CURSOR_WRITE_FAILED",
        AmbientCursorError::Store(GuardedError::RevisionConflict) => {
            "AMBIENT_CURSOR_REVISION_CONFLICT"
        },
        AmbientCursorError::Store(GuardedError::WriteOutcomeInvalid) => {
            "AMBIENT_CURSOR_WRITE_OUTCOME_INVALID"
        },
        AmbientCursorError::Store(GuardedError::ReadbackFailed) => "AMBIENT_CURSOR_READBACK_FAILED",
        AmbientCursorError::Store(GuardedError::ReadbackMissing) => {
            "AMBIENT_CURSOR_READBACK_MISSING"
        },
        AmbientCursorError::Store(GuardedError::ReadbackMismatch) => {
            "AMBIENT_CURSOR_READBACK_MISMATCH"
        },
    }
}

/// The code of a journal that does not tell what became of an operation.
pub open spec fn journal_name(error: JournalError) -> Seq<char> {
    match error {
        JournalError::Outbox(inner) => outbox_name(inner),
        JournalError::TimestampExhausted => "AMBIENT_OUTBOX_TIMESTAMP_EXHAUSTED"@,
        JournalError::SnapshotPinFailed => "AMBIENT_OUTBOX_JOURNAL_SNAPSHOT_PIN_FAILED"@,
        JournalError::RangeOversized { .. } => "AMBIENT_OUTBOX_JOURNAL_RANGE_OVERSIZED"@,
        JournalError::ScanFailed => "AMBIENT_OUTBOX_JOURNAL_SCAN_FAILED"@,
        JournalError::ScanCounterOverflow => "AMBIENT_OUTBOX_JOURNAL_SCAN_COUNTER_OVERFLOW"@,
        JournalError::SnapshotReleaseFailed => "AMBIENT_OUTBOX_JOURNAL_SNAPSHOT_RELEASE_FAILED"@,
        JournalError::SnapshotExpiredAtRelease => {
            "AMBIENT_OUTBOX_JOURNAL_SNAPSHOT_EXPIRED_AT_RELEASE"@
        },
        JournalError::RecordEncodeFailed => "AMBIENT_OUTBOX_RECORD_ENCODE_FAILED"@,
        JournalError::RowInvalid => "AMBIENT_OUTBOX_JOURNAL_ROW_INVALID"@,
        JournalError::Diverged { .. } => "AMBIENT_OUTBOX_JOURNAL_DIVERGED"@,
        JournalError::CheckpointRecordInvalid => "AMBIENT_PROJECTION_CHECKPOINT_RECORD_INVALID"@,
        JournalError::CheckpointReadsMissing => "AMBIENT_PROJECTION_CHECKPOINT_ROW_READ_FAILED"@,
        JournalError::CheckpointRowReadFailed => "AMBIENT_PROJECTION_CHECKPOINT_ROW_READ_FAILED"@,
        JournalError::CheckpointRowDiverged => "AMBIENT_PROJECTION_CHECKPOINT_ROW_DIVERGED"@,
        JournalError::CheckpointPartial { .. } => "AMBIENT_PROJECTION_CHECKPOINT_JOURNAL_PARTIAL"@,
    }
}

/// The code of a journal that does not tell what became of an operation.
pub fn journal_code(error: JournalError) -> (code: &'static str)
    ensures
        code@ == journal_name(error),
{
    match error {
        JournalError::Outbox(inner) => outbox_code(inner),
        JournalError::TimestampExhausted => "AMBIENT_OUTBOX_TIMESTAMP_EXHAUSTED",
        JournalError::SnapshotPinFailed => "AMBIENT_OUTBOX_JOURNAL_SNAPSHOT_PIN_FAILED",
        JournalError::RangeOversized { .. } => "AMBIENT_OUTBOX_JOURNAL_RANGE_OVERSIZED",
        JournalError::ScanFailed => "AMBIENT_OUTBOX_JOURNAL_SCAN_FAILED",
        JournalError::ScanCounterOverflow => "AMBIENT_OUTBOX_JOURNAL_SCAN_COUNTER_OVERFLOW",
        JournalError::SnapshotReleaseFailed => "AMBIENT_OUTBOX_JOURNAL_SNAPSHOT_RELEASE_FAILED",
        JournalError::SnapshotExpiredAtRelease => {
            "AMBIENT_OUTBOX_JOURNAL_SNAPSHOT_EXPIRED_AT_RELEASE"
        },
        JournalError::RecordEncodeFailed => "AMBIENT_OUTBOX_RECORD_ENCODE_FAILED",
        JournalError::RowInvalid => "AMBIENT_OUTBOX_JOURNAL_ROW_INVALID",
        JournalError::Diverged { .. } => "AMBIENT_OUTBOX_JOURNAL_DIVERGED",
        JournalError::CheckpointRecordInvalid => "AMBIENT_PROJECTION_CHECKPOINT_RECORD_INVALID",
        JournalError::CheckpointReadsMissing => "AMBIENT_PROJECTION_CHECKPOINT_ROW_READ_FAILED",
        JournalError::CheckpointRowReadFailed => "AMBIENT_PROJECTION_CHECKPOINT_ROW_READ_FAILED",
        JournalError::CheckpointRowDiverged => "AMBIENT_PROJECTION_CHECKPOINT_ROW_DIVERGED",
        JournalError::CheckpointPartial { .. } => "AMBIENT_PROJECTION_CHECKPOINT_JOURNAL_PARTIAL",
    }
}

/// The code of a projection that lacks an event.
pub open spec fn projection_name(error: ProjectionError) -> Seq<char> {
    match error {
        ProjectionError::Missing => "AMBIENT_OUTBOX_PROJECTION_MISSING"@,
        ProjectionError::Stale { .. } => "AMBIENT_OUTBOX_PROJECTION_STALE"@,
    }
}

/// The code of a projection that lacks an event.
pub fn projection_code(error: ProjectionError) -> (code: &'static str)
    ensures
        code@ == projection_name(error),
{
    match error {
        ProjectionError::Missing => "AMBIENT_OUTBOX_PROJECTION_MISSING",
        ProjectionError::Stale { .. } => "AMBIENT_OUTBOX_PROJECTION_STALE",
    }
}

/// The code of a retention that cannot be used.
pub open spec fn retention_name(error: RetentionError) -> Seq<char> {
    match error {
        RetentionError::ContractMissing => "AMBIENT_OUTBOX_RETENTION_CONTRACT_MISSING"@,
        RetentionError::ContractInvalid => "AMBIENT_OUTBOX_RETENTION_CONTRACT_INVALID"@,
        RetentionError::ContractOverflow => "AMBIENT_OUTBOX_RETENTION_CONTRACT_OVERFLOW"@,
    }
}

/// The code of a retention that cannot be used.
pub fn retention_code(error: RetentionError) -> (code: &'static str)
    ensures
        code@ == retention_name(error),
{
    match error {
        RetentionError::ContractMissing => "AMBIENT_OUTBOX_RETENTION_CONTRACT_MISSING",
        RetentionError::ContractInvalid => "AMBIENT_OUTBOX_RETENTION_CONTRACT_INVALID",
        RetentionError::ContractOverflow => "AMBIENT_OUTBOX_RETENTION_CONTRACT_OVERFLOW",
    }
}

/// The code of a relay that failed.
pub open spec fn relay_name(error: RelayError) -> Seq<char> {
    match error {
        RelayError::ReconciliationRequired => "AMBIENT_OUTBOX_COMMIT_RECONCILIATION_REQUIRED"@,
        RelayError::Cursor(inner) => cursor_name(inner),
        RelayError::CursorMissing => "AMBIENT_OUTBOX_CURSOR_MISSING"@,
        RelayError::PendingOutbox => "AMBIENT_PROJECTION_CHECKPOINT_PENDING_OUTBOX"@,
        RelayError::Journal(inner) => journal_name(inner),
        RelayError::Retention(inner) => retention_name(inner),
        RelayError::JournalAbsenceAmbiguous => "AMBIENT_OUTBOX_JOURNAL_ABSENCE_AMBIGUOUS"@,
        RelayError::EventCommitFailed => "AMBIENT_OUTBOX_EVENT_COMMIT_RECONCILIATION_REQUIRED"@,
        RelayError::ReadbackMissing => "AMBIENT_OUTBOX_RELAY_READBACK_MISSING"@,
        RelayError::ReadbackFailed(_) => "AMBIENT_OUTBOX_RELAY_READBACK_RECONCILIATION_REQUIRED"@,
        RelayError::Projection(inner) => projection_name(inner),
        RelayError::RecoveryFailed => "AMBIENT_OUTBOX_PROJECTION_RECOVERY_FAILED"@,
        RelayError::RecoveryReadbackFailed(_) => {
            "AMBIENT_OUTBOX_PROJECTION_RECOVERY_READBACK_FAILED"@
        },
        RelayError::FinalRowsChanged => "AMBIENT_OUTBOX_FINAL_JOURNAL_READBACK_CHANGED"@,
        RelayError::FinalRowsMissing => "AMBIENT_OUTBOX_FINAL_JOURNAL_READBACK_MISSING"@,
        RelayError::FinalReadFailed(_) => "AMBIENT_OUTBOX_FINAL_JOURNAL_READBACK_FAILED"@,
        RelayError::CheckpointBuildFailed(_) => {
            "AMBIENT_OUTBOX_PROJECTION_CHECKPOINT_BUILD_FAILED"@
        },
        RelayError::AcknowledgementFailed(_) => "AMBIENT_OUTBOX_ACK_RECONCILIATION_REQUIRED"@,
        RelayError::CheckpointRowsMissing => "AMBIENT_PROJECTION_CHECKPOINT_ROWS_MISSING"@,
        RelayError::RetireFailed(_) => {
            "AMBIENT_PROJECTION_CHECKPOINT_RETIRE_RECONCILIATION_REQUIRED"@
        },
        RelayError::NotConverging { .. } => "AMBIENT_PROJECTION_CHECKPOINT_NOT_CONVERGING"@,
    }
}

/// The code of a relay that failed.
pub fn relay_code(error: RelayError) -> (code: &'static str)
    ensures
        code@ == relay_name(error),
{
    match error {
        RelayError::ReconciliationRequired => "AMBIENT_OUTBOX_COMMIT_RECONCILIATION_REQUIRED",
        RelayError::Cursor(inner) => cursor_code(inner),
        RelayError::CursorMissing => "AMBIENT_OUTBOX_CURSOR_MISSING",
        RelayError::PendingOutbox => "AMBIENT_PROJECTION_CHECKPOINT_PENDING_OUTBOX",
        RelayError::Journal(inner) => journal_code(inner),
        RelayError::Retention(inner) => retention_code(inner),
        RelayError::JournalAbsenceAmbiguous => "AMBIENT_OUTBOX_JOURNAL_ABSENCE_AMBIGUOUS",
        RelayError::EventCommitFailed => "AMBIENT_OUTBOX_EVENT_COMMIT_RECONCILIATION_REQUIRED",
        RelayError::ReadbackMissing => "AMBIENT_OUTBOX_RELAY_READBACK_MISSING",
        RelayError::ReadbackFailed(_) => "AMBIENT_OUTBOX_RELAY_READBACK_RECONCILIATION_REQUIRED",
        RelayError::Projection(inner) => projection_code(inner),
        RelayError::RecoveryFailed => "AMBIENT_OUTBOX_PROJECTION_RECOVERY_FAILED",
        RelayError::RecoveryReadbackFailed(_) => {
            "AMBIENT_OUTBOX_PROJECTION_RECOVERY_READBACK_FAILED"
        },
        RelayError::FinalRowsChanged => "AMBIENT_OUTBOX_FINAL_JOURNAL_READBACK_CHANGED",
        RelayError::FinalRowsMissing => "AMBIENT_OUTBOX_FINAL_JOURNAL_READBACK_MISSING",
        RelayError::FinalReadFailed(_) => "AMBIENT_OUTBOX_FINAL_JOURNAL_READBACK_FAILED",
        RelayError::CheckpointBuildFailed(_) => "AMBIENT_OUTBOX_PROJECTION_CHECKPOINT_BUILD_FAILED",
        RelayError::AcknowledgementFailed(_) => "AMBIENT_OUTBOX_ACK_RECONCILIATION_REQUIRED",
        RelayError::CheckpointRowsMissing => "AMBIENT_PROJECTION_CHECKPOINT_ROWS_MISSING",
        RelayError::RetireFailed(_) => {
            "AMBIENT_PROJECTION_CHECKPOINT_RETIRE_RECONCILIATION_REQUIRED"
        },
        RelayError::NotConverging { .. } => "AMBIENT_PROJECTION_CHECKPOINT_NOT_CONVERGING",
    }
}

/// The code of a checkpoint that could not be reconciled.
pub open spec fn reconcile_name(error: RelayError) -> Seq<char> {
    match error {
        RelayError::CursorMissing => "AMBIENT_PROJECTION_CHECKPOINT_CURSOR_MISSING"@,
        RelayError::Retention(_) => "AMBIENT_PROJECTION_CHECKPOINT_RETENTION_UNRESOLVED"@,
        RelayError::RecoveryFailed => "AMBIENT_PROJECTION_CHECKPOINT_RECOVERY_FAILED"@,
        RelayError::RecoveryReadbackFailed(_) => "AMBIENT_PROJECTION_CHECKPOINT_READBACK_FAILED"@,
        RelayError::FinalRowsChanged => "AMBIENT_PROJECTION_CHECKPOINT_FINAL_ROWS_CHANGED"@,
        RelayError::FinalRowsMissing => "AMBIENT_PROJECTION_CHECKPOINT_FINAL_ROWS_MISSING"@,
        _ => relay_name(error),
    }
}

/// The code of a checkpoint that could not be reconciled.
pub fn reconcile_code(error: RelayError) -> (code: &'static str)
    ensures
        code@ == reconcile_name(error),
{
    match error {
        RelayError::CursorMissing => "AMBIENT_PROJECTION_CHECKPOINT_CURSOR_MISSING",
        RelayError::Retention(_) => "AMBIENT_PROJECTION_CHECKPOINT_RETENTION_UNRESOLVED",
        RelayError::RecoveryFailed => "AMBIENT_PROJECTION_CHECKPOINT_RECOVERY_FAILED",
        RelayError::RecoveryReadbackFailed(_) => "AMBIENT_PROJECTION_CHECKPOINT_READBACK_FAILED",
        RelayError::FinalRowsChanged => "AMBIENT_PROJECTION_CHECKPOINT_FINAL_ROWS_CHANGED",
        RelayError::FinalRowsMissing => "AMBIENT_PROJECTION_CHECKPOINT_FINAL_ROWS_MISSING",
        _ => relay_code(error),
    }
}

/// The code of an ingest of a session that stops, if it has one.
pub open spec fn session_name(error: SessionError) -> Option<Seq<char>> {
    match error {
        SessionError::SourceIdentityMismatch => Some("AMBIENT_CURSOR_SOURCE_IDENTITY_MISMATCH"@),
        SessionError::Pass(inner) => match codes::pass_name(inner) {
            Some(name) => Some("AMBIENT"@ + "_"@ + name),
            None => None,
        },
        SessionError::Cursor(inner) => Some(cursor_name(inner)),
        SessionError::Outbox(inner) => Some(outbox_name(inner)),
        SessionError::RegistrationMissing => Some("AMBIENT_OUTBOX_REGISTRATION_MISSING"@),
        SessionError::Relay(inner) => Some(relay_name(inner)),
        SessionError::Reconcile(inner) => Some(reconcile_name(inner)),
    }
}

/// The code of an ingest of a session that stops, if it has one.
pub fn session_code(error: SessionError) -> (code: Option<String>)
    ensures
        text::opt_text(code) == session_name(error),
{
    let code = match error {
        SessionError::SourceIdentityMismatch => "AMBIENT_CURSOR_SOURCE_IDENTITY_MISMATCH",
        SessionError::Pass(inner) => {
            return pass_code("AMBIENT", inner);
        },
        SessionError::Cursor(inner) => cursor_code(inner),
        SessionError::Outbox(inner) => outbox_code(inner),
        SessionError::RegistrationMissing => "AMBIENT_OUTBOX_REGISTRATION_MISSING",
        SessionError::Relay(inner) => relay_code(inner),
        SessionError::Reconcile(inner) => reconcile_code(inner),
    };
    Some(code.to_owned())
}

} // verus!
