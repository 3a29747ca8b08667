//! Why a task operation is refused.
use vstd::prelude::*;
use vstd::string::*;

verus! {

/// A text field with a length limit.
#[derive(Clone, Copy, Debug, PartialEq, Eq, Structural)]
pub enum TextField {
    Title,
    Description,
    Acceptance,
    RepairReason,
}

/// An operation that a live reservation blocks.
#[derive(Clone, Copy, Debug, PartialEq, Eq, Structural)]
pub enum BlockedOperation {
    Claim,
    Update,
    Cancel,
}

/// A refused task operation.
#[derive(Clone, Copy, Debug, PartialEq, Eq)]
pub enum TaskError {
    TaskIdInvalid,
    TitleEmpty,
    TextTooLong { field: TextField, max: usize },
    PriorityOutOfRange { priority: u8 },
    TemplateIdInvalid,
    ParamValueTooLong { index: usize },
    ParamValueHasNul { index: usize },
    ClaimSessionEmpty,
    ConcurrencyCapZero,
    WaitTimeoutOutOfRange,
    ReservationLeaseExhausted,
    AlreadyExists { enqueue_seq: u64 },
    RepairReasonEmpty,
    RevisionMalformed,
    RepairIdentityMismatch,
    RepairGenerationNotZero,
    RepairSequenceFloorRequired { unobservable_rows: usize },
    RepairGenerationFloorRequired { queue_state_unobservable: bool, unobservable_rows: usize },
    RepairSequenceBeyondWatermark { enqueue_seq: u64, watermark: u64 },
    RepairSequenceTaken { enqueue_seq: u64 },
    NotFound,
    RepairRowAbsent,
    ReservationActive { operation: BlockedOperation },
    NotClaimable,
    InProgressNeedsClaim,
    TransitionForbidden,
    BindReservationMissing,
    BindReservationConflict,
    FailureReservationMissing,
    FailureReservationConflict,
    ReconcileReservationSuperseded,
    ReconcileReservationConflict,
    ReconcileSuperseded,
    ReconcileSessionRecovered,
    RowUndecodable,
    RowExpired,
    RowKeyInvalid,
    RowIdentityInvalid,
    RowFieldsInvalid,
    AttemptIdExhausted,
    AttemptInvalid { index: usize },
    PendingAttemptInvariant { pending: usize },
    ReservationAttemptMissing,
    ReservationInvalid,
    ReservationTimestampExhausted,
    BindIdentityInvalid,
    BindAttemptMissing,
    BindAttemptDrift,
    FailureAttemptMissing,
    FailureAttemptDrift,
    SelectionMissing,
    SelectionInvalid,
    MutationIdentityInvalid,
    MutationReadbackMissing,
    MutationReadbackDrift,
    MutationGenerationDrift,
    QueueStateExpired,
    QueueStateUndecodable,
    QueueStateVersionInvalid,
    QueueStateMissing,
    QueueGenerationExhausted,
    QueueGenerationDrift,
    QueueGenerationRollback,
    QueueStateReadbackDrift,
    SequenceExpired,
    SequenceCorrupted,
    SequenceMissing,
    SequenceExhausted,
    SequenceDrift,
    SequenceReadbackDrift,
    CreateReadbackDrift,
    RetentionReadbackPresent,
    RepairQueueStateMissing,
    RepairSequenceMissing,
    RepairReadbackDrift,
    RepairRevisionMismatch,
    RepairConflict,
    RepairNotCommitted { code: &'static str },
    CreateNotCommitted { code: &'static str },
    MutationCommitAmbiguous { code: &'static str },
    RetentionCommitAmbiguous { code: &'static str },
    QueueStateCommitAmbiguous { code: &'static str },
    Contention,
    BindFailedAfterSpawn,
    FailureSettleFailed,
}

/// The error codes that callers see.
#[derive(Clone, Copy, Debug, PartialEq, Eq)]
pub enum ErrorCode {
    ToolParamsInvalid,
    AgentTaskNotFound,
    AgentTaskInvalidTransition,
    StorageCorrupted,
    StorageWriteFailed,
    ToolInternalError,
    /// The code of the store's own error.
    Storage(&'static str),
}

impl ErrorCode {
    /// The code as callers see it.
    pub open spec fn name(self) -> Seq<char> {
        match self {
            ErrorCode::ToolParamsInvalid => "TOOL_PARAMS_INVALID"@,
            ErrorCode::AgentTaskNotFound => "AGENT_TASK_NOT_FOUND"@,
            ErrorCode::AgentTaskInvalidTransition => "AGENT_TASK_INVALID_TRANSITION"@,
            ErrorCode::StorageCorrupted => "STORAGE_CORRUPTED"@,
            ErrorCode::StorageWriteFailed => "STORAGE_WRITE_FAILED"@,
            ErrorCode::ToolInternalError => "TOOL_INTERNAL_ERROR"@,
            ErrorCode::Storage(code) => code@,
        }
    }

    /// The code as callers see it.
    pub fn as_str(self) -> (name: &'static str)
        ensures
            name@ == self.name(),
    {
        match self {
            ErrorCode::ToolParamsInvalid => "TOOL_PARAMS_INVALID",
            ErrorCode::AgentTaskNotFound => "AGENT_TASK_NOT_FOUND",
            ErrorCode::AgentTaskInvalidTransition => "AGENT_TASK_INVALID_TRANSITION",
            ErrorCode::StorageCorrupted => "STORAGE_CORRUPTED",
            ErrorCode::StorageWriteFailed => "STORAGE_WRITE_FAILED",
            ErrorCode::ToolInternalError => "TOOL_INTERNAL_ERROR",
            ErrorCode::Storage(code) => code,
        }
    }
}

impl TaskError {
    /// Refused because of what the caller asked.
    pub open spec fn blames_params(self) -> bool {
        match self {
            TaskError::TaskIdInvalid => true,
            TaskError::TitleEmpty => true,
            TaskError::TextTooLong { .. } => true,
            TaskError::PriorityOutOfRange { .. } => true,
            TaskError::TemplateIdInvalid => true,
            TaskError::ParamValueTooLong { .. } => true,
            TaskError::ParamValueHasNul { .. } => true,
            TaskError::ClaimSessionEmpty => true,
            TaskError::ConcurrencyCapZero => true,
            TaskError::WaitTimeoutOutOfRange => true,
            TaskError::ReservationLeaseExhausted => true,
            TaskError::AlreadyExists { .. } => true,
            TaskError::RepairReasonEmpty => true,
            TaskError::RevisionMalformed => true,
            TaskError::RepairIdentityMismatch => true,
            TaskError::RepairGenerationNotZero => true,
            TaskError::RepairSequenceFloorRequired { .. } => true,
            TaskError::RepairGenerationFloorRequired { .. } => true,
            TaskError::RepairSequenceBeyondWatermark { .. } => true,
            TaskError::RepairSequenceTaken { .. } => true,
            _ => false,
        }
    }

    /// Refused because the task's state does not allow it.
    pub open spec fn blames_state(self) -> bool {
        match self {
            TaskError::ReservationActive { .. } => true,
            TaskError::NotClaimable => true,
            TaskError::InProgressNeedsClaim => true,
            TaskError::TransitionForbidden => true,
            TaskError::BindReservationMissing => true,
            TaskError::BindReservationConflict => true,
            TaskError::FailureReservationMissing => true,
            TaskError::FailureReservationConflict => true,
            TaskError::ReconcileReservationSuperseded => true,
            TaskError::ReconcileReservationConflict => true,
            TaskError::ReconcileSuperseded => true,
            TaskError::ReconcileSessionRecovered => true,
            _ => false,
        }
    }

    /// Refused because a write was not made, or came too late.
    pub open spec fn blames_write(self) -> bool {
        match self {
            TaskError::RepairRevisionMismatch => true,
            TaskError::RepairConflict => true,
            TaskError::Contention => true,
            TaskError::FailureSettleFailed => true,
            _ => false,
        }
    }

    /// The code of the store's own error, where a commit failed with one.
    pub open spec fn storage_code(self) -> Option<&'static str> {
        match self {
            TaskError::RepairNotCommitted { code } => Some(code),
            TaskError::CreateNotCommitted { code } => Some(code),
            TaskError::MutationCommitAmbiguous { code } => Some(code),
            TaskError::RetentionCommitAmbiguous { code } => Some(code),
            TaskError::QueueStateCommitAmbiguous { code } => Some(code),
            _ => None,
        }
    }

    /// The code of an error.
    pub open spec fn code_spec(self) -> ErrorCode {
        if self.storage_code() is Some {
            ErrorCode::Storage(self.storage_code()->Some_0)
        } else if self.blames_params() {
            ErrorCode::ToolParamsInvalid
        } else if self == TaskError::NotFound || self == TaskError::RepairRowAbsent {
            ErrorCode::AgentTaskNotFound
        } else if self.blames_state() {
            ErrorCode::AgentTaskInvalidTransition
        } else if self.blames_write() {
            ErrorCode::StorageWriteFailed
        } else if self == TaskError::BindFailedAfterSpawn {
            ErrorCode::ToolInternalError
        } else {
            ErrorCode::StorageCorrupted
        }
    }

    /// The code under which callers see this error.
    pub fn code(self) -> (code: ErrorCode)
        ensures
            code == self.code_spec(),
    {
        match self {
            TaskError::TaskIdInvalid => ErrorCode::ToolParamsInvalid,
            TaskError::TitleEmpty => ErrorCode::ToolParamsInvalid,
            TaskError::TextTooLong { .. } => ErrorCode::ToolParamsInvalid,
            TaskError::PriorityOutOfRange { .. } => ErrorCode::ToolParamsInvalid,
            TaskError::TemplateIdInvalid => ErrorCode::ToolParamsInvalid,
            TaskError::ParamValueTooLong { .. } => ErrorCode::ToolParamsInvalid,
            TaskError::ParamValueHasNul { .. } => ErrorCode::ToolParamsInvalid,
            TaskError::ClaimSessionEmpty => ErrorCode::ToolParamsInvalid,
            TaskError::ConcurrencyCapZero => ErrorCode::ToolParamsInvalid,
            TaskError::WaitTimeoutOutOfRange => ErrorCode::ToolParamsInvalid,
            TaskError::ReservationLeaseExhausted => ErrorCode::ToolParamsInvalid,
            TaskError::AlreadyExists { .. } => ErrorCode::ToolParamsInvalid,
            TaskError::RepairReasonEmpty => ErrorCode::ToolParamsInvalid,
            TaskError::RevisionMalformed => ErrorCode::ToolParamsInvalid,
            TaskError::RepairIdentityMismatch => ErrorCode::ToolParamsInvalid,
            TaskError::RepairGenerationNotZero => ErrorCode::ToolParamsInvalid,
            TaskError::RepairSequenceFloorRequired { .. } => ErrorCode::ToolParamsInvalid,
            TaskError::RepairGenerationFloorRequired { .. } => ErrorCode::ToolParamsInvalid,
            TaskError::RepairSequenceBeyondWatermark { .. } => ErrorCode::ToolParamsInvalid,
            TaskError::RepairSequenceTaken { .. } => ErrorCode::ToolParamsInvalid,
            TaskError::NotFound => ErrorCode::AgentTaskNotFound,
            TaskError::RepairRowAbsent => ErrorCode::AgentTaskNotFound,
            TaskError::ReservationActive { .. } => ErrorCode::AgentTaskInvalidTransition,
            TaskError::NotClaimable => ErrorCode::AgentTaskInvalidTransition,
            TaskError::InProgressNeedsClaim => ErrorCode::AgentTaskInvalidTransition,
            TaskError::TransitionForbidden => ErrorCode::AgentTaskInvalidTransition,
            TaskError::BindReservationMissing => ErrorCode::AgentTaskInvalidTransition,
            TaskError::BindReservationConflict => ErrorCode::AgentTaskInvalidTransition,
            TaskError::FailureReservationMissing => ErrorCode::AgentTaskInvalidTransition,
            TaskError::FailureReservationConflict => ErrorCode::AgentTaskInvalidTransition,
            TaskError::ReconcileReservationSuperseded => ErrorCode::AgentTaskInvalidTransition,
            TaskError::ReconcileReservationConflict => ErrorCode::AgentTaskInvalidTransition,
            TaskError::ReconcileSuperseded => ErrorCode::AgentTaskInvalidTransition,
            TaskError::ReconcileSessionRecovered => ErrorCode::AgentTaskInvalidTransition,
            TaskError::RepairRevisionMismatch => ErrorCode::StorageWriteFailed,
            TaskError::RepairConflict => ErrorCode::StorageWriteFailed,
            TaskError::RepairNotCommitted { code } => ErrorCode::Storage(code),
            TaskError::CreateNotCommitted { code } => ErrorCode::Storage(code),
            TaskError::MutationCommitAmbiguous { code } => ErrorCode::Storage(code),
            TaskError::RetentionCommitAmbiguous { code } => ErrorCode::Storage(code),
            TaskError::QueueStateCommitAmbiguous { code } => ErrorCode::Storage(code),
            TaskError::Contention => ErrorCode::StorageWriteFailed,
            TaskError::FailureSettleFailed => ErrorCode::StorageWriteFailed,
            TaskError::BindFailedAfterSpawn => ErrorCode::ToolInternalError,
            _ => ErrorCode::StorageCorrupted,
        }
    }
}

} // verus!
