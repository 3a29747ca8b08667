//! One dispatch: what follows each outcome of the spawn that it asked for.
use crate::tasks::dispatch::dashboard_task_dispatch_wait_timeout_ms;
use crate::tasks::errors::TaskError;
use crate::tasks::model;
use crate::tasks::model::{AgentTask, copy_pairs};
use vstd::prelude::*;
use vstd::string::*;

verus! {

/// Who asked for a dispatch.
#[derive(Clone, Copy, Debug, PartialEq, Eq, Structural)]
pub enum DispatchOrigin {
    Tool,
    Dashboard,
}

/// What a dispatch asks the spawner for.
#[derive(Debug)]
pub struct DispatchSpawnRequest {
    pub template_id: String,
    pub template_params: Vec<(String, String)>,
    pub mcp_url: String,
    pub wait_timeout_ms: u64,
}

/// Asks for an agent from the reserved task's template. The wait is raised to
/// the dashboard's minimum.
pub fn spawn_request(task: &AgentTask, mcp_url: String, wait_timeout_ms: u64) -> (request:
    DispatchSpawnRequest)
    ensures
        request.template_id@ == task@.template_id,
        model::pair_views(request.template_params@) == task@.template_params,
        request.mcp_url == mcp_url,
        request.wait_timeout_ms == (if wait_timeout_ms < 600_000 {
            600_000
        } else {
            wait_timeout_ms
        }),
{
    DispatchSpawnRequest {
        template_id: task.template_id.clone(),
        template_params: copy_pairs(&task.template_params),
        mcp_url,
        wait_timeout_ms: dashboard_task_dispatch_wait_timeout_ms(wait_timeout_ms),
    }
}

/// What became of a spawn.
#[derive(Debug)]
pub enum DispatchEvent {
    /// No agent was spawned.
    SpawnFailed { code: String, message: String },
    /// An operator stopped all agents while the spawn ran; the spawned agent
    /// was cleaned up.
    Superseded { code: String, message: String, cleanup: String },
    /// The agent runs.
    Spawned,
}

/// What a dispatch does next.
#[derive(Debug)]
pub enum DispatchAction {
    /// Bind the reservation to the agent.
    Bind,
    /// Record the failure of the reservation for this reason.
    RecordFailure { reason: String },
}

/// What the reasons of a dispatch begin with.
pub open spec fn origin_prefix(origin: DispatchOrigin) -> Seq<char> {
    match origin {
        DispatchOrigin::Tool => "dispatch spawn "@,
        DispatchOrigin::Dashboard => "dashboard dispatch spawn "@,
    }
}

/// Why a reservation failed, where it did.
pub open spec fn failure_reason(origin: DispatchOrigin, event: DispatchEvent) -> Option<Seq<char>> {
    match event {
        DispatchEvent::SpawnFailed { code, message } => Some(
            origin_prefix(origin) + "failed ["@ + code@ + "]: "@ + message@,
        ),
        DispatchEvent::Superseded { code, message, cleanup } => Some(
            origin_prefix(origin) + "superseded by operator panic ["@ + code@ + "]: "@ + message@
                + "; cleanup="@ + cleanup@,
        ),
        DispatchEvent::Spawned => None,
    }
}

/// Decides what a dispatch does after its spawn: bind where the agent runs,
/// else record why the reservation failed.
pub fn after_spawn(origin: DispatchOrigin, event: &DispatchEvent) -> (action: DispatchAction)
    ensures
        match failure_reason(origin, *event) {
            None => action is Bind,
            Some(expected) => action matches DispatchAction::RecordFailure { reason } && reason@
                == expected,
        },
{
    let mut reason = match origin {
        DispatchOrigin::Tool => "dispatch spawn ".to_owned(),
        DispatchOrigin::Dashboard => "dashboard dispatch spawn ".to_owned(),
    };
    match event {
        DispatchEvent::Spawned => DispatchAction::Bind,
        DispatchEvent::SpawnFailed { code, message } => {
            reason.append("failed [");
            reason.append(code.as_str());
            reason.append("]: ");
            reason.append(message.as_str());
            DispatchAction::RecordFailure { reason }
        },
        DispatchEvent::Superseded { code, message, cleanup } => {
            reason.append("superseded by operator panic [");
            reason.append(code.as_str());
            reason.append("]: ");
            reason.append(message.as_str());
            reason.append("; cleanup=");
            reason.append(cleanup.as_str());
            DispatchAction::RecordFailure { reason }
        },
    }
}

/// How a dispatch ends.
#[derive(Clone, Copy, Debug, PartialEq, Eq)]
pub enum DispatchEnd {
    /// Answer with the bound task.
    Answer,
    /// Return the error of the spawn or of the operator's stop.
    ReturnSpawnError,
    /// Clean the spawned agent up and return this error: the reservation stays
    /// authoritative.
    CleanUpAndReturn(TaskError),
    Return(TaskError),
}

/// Decides how a dispatch ends, from its spawn and from the commit that
/// followed it.
pub fn dispatch_end(event: &DispatchEvent, commit: Result<(), TaskError>) -> (end: DispatchEnd)
    ensures
        end == match (*event, commit) {
            (DispatchEvent::Spawned, Ok(())) => DispatchEnd::Answer,
            (DispatchEvent::Spawned, Err(_)) => DispatchEnd::CleanUpAndReturn(
                TaskError::BindFailedAfterSpawn,
            ),
            (DispatchEvent::SpawnFailed { .. }, Err(_)) => DispatchEnd::Return(
                TaskError::FailureSettleFailed,
            ),
            (DispatchEvent::Superseded { .. }, Err(error)) => DispatchEnd::Return(error),
            (_, Ok(())) => DispatchEnd::ReturnSpawnError,
        },
{
    match (event, commit) {
        (DispatchEvent::Spawned, Ok(())) => DispatchEnd::Answer,
        (DispatchEvent::Spawned, Err(_)) => DispatchEnd::CleanUpAndReturn(
            TaskError::BindFailedAfterSpawn,
        ),
        (DispatchEvent::SpawnFailed { .. }, Err(_)) => DispatchEnd::Return(
            TaskError::FailureSettleFailed,
        ),
        (DispatchEvent::Superseded { .. }, Err(error)) => DispatchEnd::Return(error),
        (_, Ok(())) => DispatchEnd::ReturnSpawnError,
    }
}

} // verus!
