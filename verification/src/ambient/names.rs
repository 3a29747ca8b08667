//! The names under which errors of the discovery are told.
use crate::ambient::discovery;
use crate::ambient::discovery::AmbientRootScope;
use crate::ambient::journal::{AmbientCursorError, JournalError};
use crate::ambient::outbox::OutboxError;
use crate::ambient::pass::SessionError;
use crate::ambient::relay::{ProjectionError, RelayError, RetentionError};
use crate::guarded::GuardedError;
use crate::transcripts::codes;
use vstd::prelude::*;
use vstd::string::*;

verus! {

/// Why an outbox or a checkpoint is refused, by name.
pub proof fn law_outbox_names(error: OutboxError)
    ensures
        match error {
            OutboxError::EnvelopeInvalid => crate::ambient::codes::outbox_name(error)
                == "AMBIENT_OUTBOX_ENVELOPE_INVALID"@,
            OutboxError::RecordIdentityInvalid => crate::ambient::codes::outbox_name(error)
                == "AMBIENT_OUTBOX_RECORD_IDENTITY_INVALID"@,
            OutboxError::RecordPayloadInvalid => crate::ambient::codes::outbox_name(error)
                == "AMBIENT_OUTBOX_RECORD_PAYLOAD_INVALID"@,
            OutboxError::OperationStampMismatch => crate::ambient::codes::outbox_name(error)
                == "AMBIENT_OUTBOX_OPERATION_STAMP_MISMATCH"@,
            OutboxError::RecordInvalid => crate::ambient::codes::outbox_name(error)
                == "AMBIENT_OUTBOX_RECORD_INVALID"@,
            OutboxError::RecordKindInvalid => crate::ambient::codes::outbox_name(error)
                == "AMBIENT_OUTBOX_RECORD_KIND_INVALID"@,
            OutboxError::RecordSetInvalid => crate::ambient::codes::outbox_name(error)
                == "AMBIENT_OUTBOX_RECORD_SET_INVALID"@,
            OutboxError::IdentityEncodeFailed => crate::ambient::codes::outbox_name(error)
                == "AMBIENT_OUTBOX_IDENTITY_ENCODE_FAILED"@,
            OutboxError::OperationIdMismatch => crate::ambient::codes::outbox_name(error)
                == "AMBIENT_OUTBOX_OPERATION_ID_MISMATCH"@,
            OutboxError::EffectInvalid => crate::ambient::codes::outbox_name(error)
                == "AMBIENT_OUTBOX_EFFECT_INVALID"@,
            OutboxError::CheckpointEnvelopeInvalid => crate::ambient::codes::outbox_name(error)
                == "AMBIENT_PROJECTION_CHECKPOINT_ENVELOPE_INVALID"@,
            OutboxError::CheckpointKeyOrderInvalid => crate::ambient::codes::outbox_name(error)
                == "AMBIENT_PROJECTION_CHECKPOINT_KEY_ORDER_INVALID"@,
            OutboxError::CheckpointKeyInvalid => crate::ambient::codes::outbox_name(error)
                == "AMBIENT_PROJECTION_CHECKPOINT_KEY_INVALID"@,
            OutboxError::CheckpointTimestampMismatch => crate::ambient::codes::outbox_name(error)
                == "AMBIENT_PROJECTION_CHECKPOINT_TIMESTAMP_MISMATCH"@,
        },
{
}

/// Why a cursor cannot be used, by name.
pub proof fn law_cursor_names(error: AmbientCursorError)
    ensures
        match error {
            AmbientCursorError::ReadFailed => crate::ambient::codes::cursor_name(error)
                == "AMBIENT_CURSOR_READ_FAILED"@,
            AmbientCursorError::Expired => crate::ambient::codes::cursor_name(error)
                == "AMBIENT_CURSOR_EXPIRED"@,
            AmbientCursorError::DecodeFailed => crate::ambient::codes::cursor_name(error)
                == "AMBIENT_CURSOR_DECODE_FAILED"@,
            AmbientCursorError::IdentityInvalid => crate::ambient::codes::cursor_name(error)
                == "AMBIENT_CURSOR_IDENTITY_INVALID"@,
            AmbientCursorError::Outbox(inner) => crate::ambient::codes::cursor_name(error)
                == crate::ambient::codes::outbox_name(inner),
            AmbientCursorError::Store(GuardedError::WriteFailed) => {
                crate::ambient::codes::cursor_name(error)
                    == "AMBIENT_CURSOR_WRITE_FAILED"@
            },
            AmbientCursorError::Store(GuardedError::RevisionConflict) => {
                crate::ambient::codes::cursor_name(error)
                    == "AMBIENT_CURSOR_REVISION_CONFLICT"@
            },
            AmbientCursorError::Store(GuardedError::WriteOutcomeInvalid) => {
                crate::ambient::codes::cursor_name(error)
                    == "AMBIENT_CURSOR_WRITE_OUTCOME_INVALID"@
            },
            AmbientCursorError::Store(GuardedError::ReadbackFailed) => {
                crate::ambient::codes::cursor_name(error)
                    == "AMBIENT_CURSOR_READBACK_FAILED"@
            },
            AmbientCursorError::Store(GuardedError::ReadbackMissing) => {
                crate::ambient::codes::cursor_name(error)
                    == "AMBIENT_CURSOR_READBACK_MISSING"@
            },
            AmbientCursorError::Store(GuardedError::ReadbackMismatch) => {
                crate::ambient::codes::cursor_name(error)
                    == "AMBIENT_CURSOR_READBACK_MISMATCH"@
            },
        },
{
}

/// What is wrong with the journal, by name.
pub proof fn law_journal_names(error: JournalError)
    ensures
        match error {
            JournalError::Outbox(inner) => crate::ambient::codes::journal_name(error)
                == crate::ambient::codes::outbox_name(inner),
            JournalError::TimestampExhausted => crate::ambient::codes::journal_name(error)
                == "AMBIENT_OUTBOX_TIMESTAMP_EXHAUSTED"@,
            JournalError::SnapshotPinFailed => crate::ambient::codes::journal_name(error)
                == "AMBIENT_OUTBOX_JOURNAL_SNAPSHOT_PIN_FAILED"@,
            JournalError::RangeOversized { .. } => crate::ambient::codes::journal_name(error)
                == "AMBIENT_OUTBOX_JOURNAL_RANGE_OVERSIZED"@,
            JournalError::ScanFailed => crate::ambient::codes::journal_name(error)
                == "AMBIENT_OUTBOX_JOURNAL_SCAN_FAILED"@,
            JournalError::ScanCounterOverflow => crate::ambient::codes::journal_name(error)
                == "AMBIENT_OUTBOX_JOURNAL_SCAN_COUNTER_OVERFLOW"@,
            JournalError::SnapshotReleaseFailed => crate::ambient::codes::journal_name(error)
                == "AMBIENT_OUTBOX_JOURNAL_SNAPSHOT_RELEASE_FAILED"@,
            JournalError::SnapshotExpiredAtRelease => crate::ambient::codes::journal_name(error)
                == "AMBIENT_OUTBOX_JOURNAL_SNAPSHOT_EXPIRED_AT_RELEASE"@,
            JournalError::RecordEncodeFailed => crate::ambient::codes::journal_name(error)
                == "AMBIENT_OUTBOX_RECORD_ENCODE_FAILED"@,
            JournalError::RowInvalid => crate::ambient::codes::journal_name(error)
                == "AMBIENT_OUTBOX_JOURNAL_ROW_INVALID"@,
            JournalError::Diverged { .. } => crate::ambient::codes::journal_name(error)
                == "AMBIENT_OUTBOX_JOURNAL_DIVERGED"@,
            JournalError::CheckpointRecordInvalid => crate::ambient::codes::journal_name(error)
                == "AMBIENT_PROJECTION_CHECKPOINT_RECORD_INVALID"@,
            JournalError::CheckpointReadsMissing => crate::ambient::codes::journal_name(error)
                == "AMBIENT_PROJECTION_CHECKPOINT_ROW_READ_FAILED"@,
            JournalError::CheckpointRowReadFailed => crate::ambient::codes::journal_name(error)
                == "AMBIENT_PROJECTION_CHECKPOINT_ROW_READ_FAILED"@,
            JournalError::CheckpointRowDiverged => crate::ambient::codes::journal_name(error)
                == "AMBIENT_PROJECTION_CHECKPOINT_ROW_DIVERGED"@,
            JournalError::CheckpointPartial { .. } => crate::ambient::codes::journal_name(error)
                == "AMBIENT_PROJECTION_CHECKPOINT_JOURNAL_PARTIAL"@,
        },
{
}

/// How the projection lags, by name.
pub proof fn law_projection_names(error: ProjectionError)
    ensures
        match error {
            ProjectionError::Missing => crate::ambient::codes::projection_name(error)
                == "AMBIENT_OUTBOX_PROJECTION_MISSING"@,
            ProjectionError::Stale { .. } => crate::ambient::codes::projection_name(error)
                == "AMBIENT_OUTBOX_PROJECTION_STALE"@,
        },
{
}

/// Why the retention of the journal is not known, by name.
pub proof fn law_retention_names(error: RetentionError)
    ensures
        match error {
            RetentionError::ContractMissing => crate::ambient::codes::retention_name(error)
                == "AMBIENT_OUTBOX_RETENTION_CONTRACT_MISSING"@,
            RetentionError::ContractInvalid => crate::ambient::codes::retention_name(error)
                == "AMBIENT_OUTBOX_RETENTION_CONTRACT_INVALID"@,
            RetentionError::ContractOverflow => crate::ambient::codes::retention_name(error)
                == "AMBIENT_OUTBOX_RETENTION_CONTRACT_OVERFLOW"@,
        },
{
}

/// Why a relay failed, by name.
pub proof fn law_relay_names(error: RelayError)
    ensures
        match error {
            RelayError::ReconciliationRequired => crate::ambient::codes::relay_name(error)
                == "AMBIENT_OUTBOX_COMMIT_RECONCILIATION_REQUIRED"@,
            RelayError::Cursor(inner) => crate::ambient::codes::relay_name(error)
                == crate::ambient::codes::cursor_name(inner),
            RelayError::CursorMissing => crate::ambient::codes::relay_name(error)
                == "AMBIENT_OUTBOX_CURSOR_MISSING"@,
            RelayError::PendingOutbox => crate::ambient::codes::relay_name(error)
                == "AMBIENT_PROJECTION_CHECKPOINT_PENDING_OUTBOX"@,
            RelayError::Journal(inner) => crate::ambient::codes::relay_name(error)
                == crate::ambient::codes::journal_name(inner),
            RelayError::Retention(inner) => crate::ambient::codes::relay_name(error)
                == crate::ambient::codes::retention_name(inner),
            RelayError::JournalAbsenceAmbiguous => crate::ambient::codes::relay_name(error)
                == "AMBIENT_OUTBOX_JOURNAL_ABSENCE_AMBIGUOUS"@,
            RelayError::EventCommitFailed => crate::ambient::codes::relay_name(error)
                == "AMBIENT_OUTBOX_EVENT_COMMIT_RECONCILIATION_REQUIRED"@,
            RelayError::ReadbackMissing => crate::ambient::codes::relay_name(error)
                == "AMBIENT_OUTBOX_RELAY_READBACK_MISSING"@,
            RelayError::ReadbackFailed(_) => crate::ambient::codes::relay_name(error)
                == "AMBIENT_OUTBOX_RELAY_READBACK_RECONCILIATION_REQUIRED"@,
            RelayError::Projection(inner) => crate::ambient::codes::relay_name(error)
                == crate::ambient::codes::projection_name(inner),
            RelayError::RecoveryFailed => crate::ambient::codes::relay_name(error)
                == "AMBIENT_OUTBOX_PROJECTION_RECOVERY_FAILED"@,
            RelayError::RecoveryReadbackFailed(_) => crate::ambient::codes::relay_name(error)
                == "AMBIENT_OUTBOX_PROJECTION_RECOVERY_READBACK_FAILED"@,
            RelayError::FinalRowsChanged => crate::ambient::codes::relay_name(error)
                == "AMBIENT_OUTBOX_FINAL_JOURNAL_READBACK_CHANGED"@,
            RelayError::FinalRowsMissing => crate::ambient::codes::relay_name(error)
                == "AMBIENT_OUTBOX_FINAL_JOURNAL_READBACK_MISSING"@,
            RelayError::FinalReadFailed(_) => crate::ambient::codes::relay_name(error)
                == "AMBIENT_OUTBOX_FINAL_JOURNAL_READBACK_FAILED"@,
            RelayError::CheckpointBuildFailed(_) => crate::ambient::codes::relay_name(error)
                == "AMBIENT_OUTBOX_PROJECTION_CHECKPOINT_BUILD_FAILED"@,
            RelayError::AcknowledgementFailed(_) => crate::ambient::codes::relay_name(error)
                == "AMBIENT_OUTBOX_ACK_RECONCILIATION_REQUIRED"@,
            RelayError::CheckpointRowsMissing => crate::ambient::codes::relay_name(error)
                == "AMBIENT_PROJECTION_CHECKPOINT_ROWS_MISSING"@,
            RelayError::RetireFailed(_) => crate::ambient::codes::relay_name(error)
                == "AMBIENT_PROJECTION_CHECKPOINT_RETIRE_RECONCILIATION_REQUIRED"@,
            RelayError::NotConverging { .. } => crate::ambient::codes::relay_name(error)
                == "AMBIENT_PROJECTION_CHECKPOINT_NOT_CONVERGING"@,
        },
{
}

/// Why a reconciliation failed, by name; what it shares with a relay has the name of the
/// relay.
pub proof fn law_reconcile_names(error: RelayError)
    ensures
        match error {
            RelayError::CursorMissing => crate::ambient::codes::reconcile_name(error)
                == "AMBIENT_PROJECTION_CHECKPOINT_CURSOR_MISSING"@,
            RelayError::Retention(_) => crate::ambient::codes::reconcile_name(error)
                == "AMBIENT_PROJECTION_CHECKPOINT_RETENTION_UNRESOLVED"@,
            RelayError::RecoveryFailed => crate::ambient::codes::reconcile_name(error)
                == "AMBIENT_PROJECTION_CHECKPOINT_RECOVERY_FAILED"@,
            RelayError::RecoveryReadbackFailed(_) => crate::ambient::codes::reconcile_name(error)
                == "AMBIENT_PROJECTION_CHECKPOINT_READBACK_FAILED"@,
            RelayError::FinalRowsChanged => crate::ambient::codes::reconcile_name(error)
                == "AMBIENT_PROJECTION_CHECKPOINT_FINAL_ROWS_CHANGED"@,
            RelayError::FinalRowsMissing => crate::ambient::codes::reconcile_name(error)
                == "AMBIENT_PROJECTION_CHECKPOINT_FINAL_ROWS_MISSING"@,
            _ => crate::ambient::codes::reconcile_name(error)
                == crate::ambient::codes::relay_name(error),
        },
{
}

/// Why the ingest of a session failed, by name; what it shares with a transcript is marked
/// as discovered.
pub proof fn law_session_names(error: SessionError)
    ensures
        match error {
            SessionError::SourceIdentityMismatch => crate::ambient::codes::session_name(error)
                == Some("AMBIENT_CURSOR_SOURCE_IDENTITY_MISMATCH"@),
            SessionError::Pass(inner) => match codes::pass_name(inner) {
                Some(name) => crate::ambient::codes::session_name(error)
                    == Some("AMBIENT"@ + "_"@ + name),
                None => crate::ambient::codes::session_name(error) is None,
            },
            SessionError::Cursor(inner) => crate::ambient::codes::session_name(error)
                == Some(crate::ambient::codes::cursor_name(inner)),
            SessionError::Outbox(inner) => crate::ambient::codes::session_name(error)
                == Some(crate::ambient::codes::outbox_name(inner)),
            SessionError::RegistrationMissing => crate::ambient::codes::session_name(error)
                == Some("AMBIENT_OUTBOX_REGISTRATION_MISSING"@),
            SessionError::Relay(inner) => crate::ambient::codes::session_name(error)
                == Some(crate::ambient::codes::relay_name(inner)),
            SessionError::Reconcile(inner) => crate::ambient::codes::session_name(error)
                == Some(crate::ambient::codes::reconcile_name(inner)),
        },
{
}

/// Where the root of the sessions was found, by name, and under which names it and the times of
/// the discovery are set.
pub proof fn law_discovery_settings_are_named(scope: AmbientRootScope)
    ensures
        scope == AmbientRootScope::ExplicitEnv ==> scope.name() == "explicit_env"@,
        scope == AmbientRootScope::ConfiguredDaemonDb ==> scope.name() == "configured_daemon_db"@,
        discovery::INTERVAL_ENV@ == "SYNAPSE_AMBIENT_INGEST_INTERVAL_SECS"@,
        discovery::STARTUP_DELAY_ENV@ == "SYNAPSE_AMBIENT_INGEST_STARTUP_DELAY_SECS"@,
        discovery::MAX_IDLE_ENV@ == "SYNAPSE_AMBIENT_MAX_IDLE_SECS"@,
        discovery::ROOT_ENV@ == "SYNAPSE_AMBIENT_CLAUDE_PROJECTS_DIR"@,
        discovery::DEFAULT_INTERVAL_SECS == 5,
        discovery::DEFAULT_STARTUP_DELAY_SECS == 8,
        discovery::DEFAULT_MAX_IDLE_SECS == 86_400,
{
}

} // verus!
