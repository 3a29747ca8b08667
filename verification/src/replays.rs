//! The replay tool: the order in which an operation is recorded, run and inspected.
use crate::facades::{
    CommandStage, FacadeError, ReplayOperation, artifact_readback, demo_session,
    demo_start_readback, demo_status_readback, flag_text, number_text,
};
use vstd::prelude::*;
use vstd::string::*;

verus! {

/// What a replay asks for next.
#[derive(Clone, Copy, Debug, PartialEq, Eq, Structural)]
pub enum ReplayAction {
    /// Record that the operation is about to run.
    RecordIntent,
    /// Run the operation.
    Run,
    /// Record how the operation went.
    RecordOutcome(CommandStage),
    /// Inspect the recording.
    InspectArtifact,
    /// Answer with what was read back.
    Answer,
    Fail(ReplayFailure),
}

/// Why a replay fails once it was let in.
#[derive(Clone, Copy, Debug, PartialEq, Eq, Structural)]
pub enum ReplayFailure {
    IntentNotRecorded,
    RunFailed,
    OutcomeNotRecorded,
    ArtifactUnreadable,
}

/// Where a replay stands.
#[derive(Clone, Copy, Debug, PartialEq, Eq, Structural)]
pub enum ReplayStage {
    Intent,
    Run,
    Outcome { succeeded: bool },
    Inspect,
    Over,
}

/// A request to the replay tool that was let in.
#[derive(Debug)]
pub struct ReplayRun {
    pub operation: ReplayOperation,
    pub stage: ReplayStage,
    /// The session that a demonstration is recorded for.
    pub by_session: String,
}

impl ReplayOperation {
    /// Whether the operation is recorded before and after it runs.
    pub open spec fn is_recorded(self) -> bool {
        self == ReplayOperation::DemoStart || self == ReplayOperation::DemoStop
    }

    /// Whether the operation needs what its request asks for.
    pub open spec fn asks_leave(self) -> bool {
        self == ReplayOperation::Record || self.is_recorded()
    }

    /// Whether the recording is inspected once the operation has run.
    pub open spec fn leaves_artifact(self) -> bool {
        self == ReplayOperation::Record || self == ReplayOperation::DemoStop
    }
}

fn is_recorded(operation: ReplayOperation) -> (recorded: bool)
    ensures
        recorded == operation.is_recorded(),
{
    match operation {
        ReplayOperation::DemoStart => true,
        ReplayOperation::DemoStop => true,
        _ => false,
    }
}

fn leaves_artifact(operation: ReplayOperation) -> (leaves: bool)
    ensures
        leaves == operation.leaves_artifact(),
{
    match operation {
        ReplayOperation::Record => true,
        ReplayOperation::DemoStop => true,
        _ => false,
    }
}

/// Why the replay tool refuses an operation, if it does.
pub open spec fn replay_refusal(
    operation: ReplayOperation,
    payload_given: bool,
    request_permitted: bool,
) -> Option<FacadeError> {
    if operation.needs_payload() && !payload_given {
        Some(FacadeError::MissingPayload)
    } else if operation.asks_leave() && !request_permitted {
        Some(FacadeError::PermissionDenied)
    } else {
        None
    }
}

/// How a request begins once it is let in.
pub open spec fn replay_begin(operation: ReplayOperation) -> (ReplayStage, ReplayAction) {
    if operation.is_recorded() {
        (ReplayStage::Intent, ReplayAction::RecordIntent)
    } else if operation == ReplayOperation::ArtifactInspect {
        (ReplayStage::Inspect, ReplayAction::InspectArtifact)
    } else {
        (ReplayStage::Run, ReplayAction::Run)
    }
}

/// Lets a request to the replay tool in, on its payload and with its leave.
pub fn replay(
    operation: ReplayOperation,
    payload_given: bool,
    request_permitted: bool,
    session_id: Option<String>,
) -> (begun: Result<(ReplayRun, ReplayAction), FacadeError>)
    ensures
        match replay_refusal(operation, payload_given, request_permitted) {
            Some(error) => begun matches Err(given) && given == error,
            None => {
                &&& begun is Ok
                &&& (begun->Ok_0.0.stage, begun->Ok_0.1) == replay_begin(operation)
                &&& begun->Ok_0.0.operation == operation
                &&& begun->Ok_0.0.by_session@ == (match session_id {
                    Some(id) => id@,
                    None => "stdio"@,
                })
            },
        },
{
    let needs_payload: bool = match operation {
        ReplayOperation::DemoStatus => false,
        _ => true,
    };
    if needs_payload && !payload_given {
        return Err(FacadeError::MissingPayload);
    }
    let asks_leave: bool = match operation {
        ReplayOperation::Record => true,
        _ => is_recorded(operation),
    };
    if asks_leave && !request_permitted {
        return Err(FacadeError::PermissionDenied);
    }
    let (stage, action) = if is_recorded(operation) {
        (ReplayStage::Intent, ReplayAction::RecordIntent)
    } else {
        match operation {
            ReplayOperation::ArtifactInspect => (
                ReplayStage::Inspect,
                ReplayAction::InspectArtifact,
            ),
            _ => (ReplayStage::Run, ReplayAction::Run),
        }
    };
    Ok((ReplayRun { operation, stage, by_session: demo_session(session_id) }, action))
}

/// What follows an operation that went well.
pub open spec fn after_success(operation: ReplayOperation) -> (ReplayStage, ReplayAction) {
    if operation.leaves_artifact() {
        (ReplayStage::Inspect, ReplayAction::InspectArtifact)
    } else {
        (ReplayStage::Over, ReplayAction::Answer)
    }
}

/// What follows once an operation has run: one that is recorded has its outcome
/// recorded, however it went.
pub open spec fn after_run(operation: ReplayOperation, succeeded: bool) -> (
    ReplayStage,
    ReplayAction,
) {
    if operation.is_recorded() {
        (
            ReplayStage::Outcome { succeeded },
            ReplayAction::RecordOutcome(
                if succeeded {
                    CommandStage::Succeeded
                } else {
                    CommandStage::Failed
                },
            ),
        )
    } else if !succeeded {
        (ReplayStage::Over, ReplayAction::Fail(ReplayFailure::RunFailed))
    } else {
        after_success(operation)
    }
}

impl ReplayRun {
    fn succeed(&mut self) -> (action: ReplayAction)
        ensures
            (final(self).stage, action) == after_success(old(self).operation),
            final(self).operation == old(self).operation,
            final(self).by_session == old(self).by_session,
    {
        if leaves_artifact(self.operation) {
            self.stage = ReplayStage::Inspect;
            ReplayAction::InspectArtifact
        } else {
            self.stage = ReplayStage::Over;
            ReplayAction::Answer
        }
    }

    /// Goes on from whether the intent was recorded. Nothing runs without it.
    pub fn on_intent(&mut self, recorded: bool) -> (action: ReplayAction)
        requires
            old(self).stage == ReplayStage::Intent,
        ensures
            final(self).operation == old(self).operation,
            final(self).by_session == old(self).by_session,
            (final(self).stage, action) == (if recorded {
                (ReplayStage::Run, ReplayAction::Run)
            } else {
                (ReplayStage::Over, ReplayAction::Fail(ReplayFailure::IntentNotRecorded))
            }),
    {
        if recorded {
            self.stage = ReplayStage::Run;
            ReplayAction::Run
        } else {
            self.stage = ReplayStage::Over;
            ReplayAction::Fail(ReplayFailure::IntentNotRecorded)
        }
    }

    /// Goes on from how the operation went.
    pub fn on_run(&mut self, succeeded: bool) -> (action: ReplayAction)
        requires
            old(self).stage == ReplayStage::Run,
        ensures
            final(self).operation == old(self).operation,
            final(self).by_session == old(self).by_session,
            (final(self).stage, action) == after_run(old(self).operation, succeeded),
    {
        if is_recorded(self.operation) {
            self.stage = ReplayStage::Outcome { succeeded };
            return ReplayAction::RecordOutcome(
                if succeeded {
                    CommandStage::Succeeded
                } else {
                    CommandStage::Failed
                },
            );
        }
        if !succeeded {
            self.stage = ReplayStage::Over;
            return ReplayAction::Fail(ReplayFailure::RunFailed);
        }
        self.succeed()
    }

    /// Goes on from whether the outcome was recorded. One that was not fails the
    /// request, however the operation went.
    pub fn on_outcome(&mut self, recorded: bool) -> (action: ReplayAction)
        requires
            old(self).stage is Outcome,
        ensures
            final(self).operation == old(self).operation,
            final(self).by_session == old(self).by_session,
            (final(self).stage, action) == (if !recorded {
                (ReplayStage::Over, ReplayAction::Fail(ReplayFailure::OutcomeNotRecorded))
            } else if !old(self).stage->succeeded {
                (ReplayStage::Over, ReplayAction::Fail(ReplayFailure::RunFailed))
            } else {
                after_success(old(self).operation)
            }),
    {
        let succeeded: bool = match self.stage {
            ReplayStage::Outcome { succeeded } => succeeded,
            _ => false,
        };
        if !recorded {
            self.stage = ReplayStage::Over;
            return ReplayAction::Fail(ReplayFailure::OutcomeNotRecorded);
        }
        if !succeeded {
            self.stage = ReplayStage::Over;
            return ReplayAction::Fail(ReplayFailure::RunFailed);
        }
        self.succeed()
    }

    /// Goes on from whether the recording could be inspected.
    pub fn on_inspected(&mut self, readable: bool) -> (action: ReplayAction)
        requires
            old(self).stage == ReplayStage::Inspect,
        ensures
            final(self).operation == old(self).operation,
            final(self).by_session == old(self).by_session,
            final(self).stage == ReplayStage::Over,
            action == (if readable {
                ReplayAction::Answer
            } else {
                ReplayAction::Fail(ReplayFailure::ArtifactUnreadable)
            }),
    {
        self.stage = ReplayStage::Over;
        if readable {
            ReplayAction::Answer
        } else {
            ReplayAction::Fail(ReplayFailure::ArtifactUnreadable)
        }
    }
}

/// What came back for the replay tool.
#[derive(Debug)]
pub enum ReplayReply {
    Artifact { path: String, bytes: u64, records_read: u64 },
    DemoStatus { source_of_truth: String, armed: bool, expired_active_row: bool },
    DemoStart { demo_id: String, persisted: bool, marker_row_written: bool },
}

/// Tells what came back.
pub fn replay_readback(reply: &ReplayReply) -> (text: String)
    ensures
        text@ == (match *reply {
            ReplayReply::Artifact { path, bytes, records_read } => path@ + " bytes="@ + number_text(
                bytes,
            ) + " records_read="@ + number_text(records_read),
            ReplayReply::DemoStatus { source_of_truth, armed, expired_active_row } => {
                source_of_truth@ + " armed="@ + flag_text(armed) + " expired_active_row="@
                    + flag_text(expired_active_row)
            },
            ReplayReply::DemoStart { demo_id, persisted, marker_row_written } => "demo_id="@
                + demo_id@ + " persisted="@ + flag_text(persisted) + " marker_row_written="@
                + flag_text(marker_row_written),
        }),
{
    match reply {
        ReplayReply::Artifact { path, bytes, records_read } => artifact_readback(
            path.as_str(),
            *bytes,
            *records_read,
        ),
        ReplayReply::DemoStatus { source_of_truth, armed, expired_active_row } => {
            demo_status_readback(source_of_truth.as_str(), *armed, *expired_active_row)
        },
        ReplayReply::DemoStart { demo_id, persisted, marker_row_written } => demo_start_readback(
            demo_id.as_str(),
            *persisted,
            *marker_row_written,
        ),
    }
}

/// A demonstration neither begins nor ends before its intent is recorded, and
/// once it did, its outcome is recorded.
pub proof fn law_demonstrations_are_recorded(operation: ReplayOperation, succeeded: bool)
    requires
        operation.is_recorded(),
    ensures
        replay_begin(operation) == (ReplayStage::Intent, ReplayAction::RecordIntent),
        after_run(operation, succeeded).1 == ReplayAction::RecordOutcome(
            if succeeded {
                CommandStage::Succeeded
            } else {
                CommandStage::Failed
            },
        ),
{
}

} // verus!
