//! What the launch of a spawn left in its directory: which vocabulary its stream
//! has, which model it was given, and whether it has ended.
use crate::json;
use crate::json::{Json, member_of, read_json_bytes, str_member_of, u64_member_of};
use crate::text;
use crate::text::{joined, str_equal, trim};
use crate::transcripts::record::TranscriptSource;
use vstd::prelude::*;
use vstd::string::*;

verus! {

/// The artifacts that tell the launched agents apart.
#[derive(Clone, Copy, Debug, PartialEq, Eq, Structural)]
pub enum LaunchMarker {
    ClaudeMcpConfig,
    ClaudeHookSettings,
    ClaudeDebugLog,
    CodexAppServerRunner,
    CodexControl,
    CodexAppServerEvents,
    CodexNotify,
    LocalModelRunner,
}

impl LaunchMarker {
    /// The name of the artifact; some carry that of the vendor.
    pub open spec fn name(self, vendor: Seq<char>) -> Seq<char> {
        match self {
            LaunchMarker::ClaudeMcpConfig => vendor + "-mcp-config.json"@,
            LaunchMarker::ClaudeHookSettings => vendor + "-hook-settings.json"@,
            LaunchMarker::ClaudeDebugLog => vendor + "-debug.log"@,
            LaunchMarker::CodexAppServerRunner => "codex-app-server-runner.ps1"@,
            LaunchMarker::CodexControl => "codex-control.json"@,
            LaunchMarker::CodexAppServerEvents => "codex-app-server-events.jsonl"@,
            LaunchMarker::CodexNotify => "codex-notify.ps1"@,
            LaunchMarker::LocalModelRunner => "local-model-runner.json"@,
        }
    }

    /// The name of the artifact in the directory of the spawn.
    pub fn file_name(self, vendor: &str) -> (name: String)
        ensures
            name@ == self.name(vendor@),
    {
        match self {
            LaunchMarker::ClaudeMcpConfig => joined(vendor, "-mcp-config.json"),
            LaunchMarker::ClaudeHookSettings => joined(vendor, "-hook-settings.json"),
            LaunchMarker::ClaudeDebugLog => joined(vendor, "-debug.log"),
            LaunchMarker::CodexAppServerRunner => "codex-app-server-runner.ps1".to_owned(),
            LaunchMarker::CodexControl => "codex-control.json".to_owned(),
            LaunchMarker::CodexAppServerEvents => "codex-app-server-events.jsonl".to_owned(),
            LaunchMarker::CodexNotify => "codex-notify.ps1".to_owned(),
            LaunchMarker::LocalModelRunner => "local-model-runner.json".to_owned(),
        }
    }
}

/// What stands under the name of an artifact.
#[derive(Clone, Copy, Debug, PartialEq, Eq, Structural)]
pub enum MarkerState {
    Absent,
    File,
    NotFile,
    StatFailed,
}

/// What stands under the names of all artifacts.
#[derive(Clone, Copy, Debug, PartialEq, Eq, Structural)]
pub struct SourceMarkers {
    pub claude_mcp_config: MarkerState,
    pub claude_hook_settings: MarkerState,
    pub claude_debug_log: MarkerState,
    pub codex_app_server_runner: MarkerState,
    pub codex_control: MarkerState,
    pub codex_app_server_events: MarkerState,
    pub codex_notify: MarkerState,
    pub local_model_runner: MarkerState,
}

/// Why the launched agent cannot be told.
#[derive(Clone, Copy, Debug, PartialEq, Eq, Structural)]
pub enum LaunchError {
    MarkerInvalid { marker: LaunchMarker },
    MarkerStatFailed { marker: LaunchMarker },
    FormatUnknown,
    Ambiguous,
}

/// Why an artifact cannot be judged, if it cannot.
pub open spec fn marker_refusal(marker: LaunchMarker, state: MarkerState) -> Option<LaunchError> {
    match state {
        MarkerState::NotFile => Some(LaunchError::MarkerInvalid { marker }),
        MarkerState::StatFailed => Some(LaunchError::MarkerStatFailed { marker }),
        _ => None,
    }
}

fn marker_exists(marker: LaunchMarker, state: MarkerState) -> (exists_: Result<bool, LaunchError>)
    ensures
        exists_ == (match marker_refusal(marker, state) {
            Some(error) => Err::<bool, LaunchError>(error),
            None => Ok(state == MarkerState::File),
        }),
{
    match state {
        MarkerState::NotFile => Err(LaunchError::MarkerInvalid { marker }),
        MarkerState::StatFailed => Err(LaunchError::MarkerStatFailed { marker }),
        MarkerState::File => Ok(true),
        MarkerState::Absent => Ok(false),
    }
}

impl SourceMarkers {
    /// Whether the agent of the vendor was launched.
    pub open spec fn claude(self) -> bool {
        self.claude_mcp_config == MarkerState::File || self.claude_hook_settings
            == MarkerState::File || self.claude_debug_log == MarkerState::File
    }

    /// Whether the app server of Codex was launched.
    pub open spec fn app_server(self) -> bool {
        self.codex_app_server_runner == MarkerState::File || self.codex_control
            == MarkerState::File || self.codex_app_server_events == MarkerState::File
    }

    /// Whether Codex was launched to run once. The app server leaves the same
    /// artifact.
    pub open spec fn codex(self) -> bool {
        !self.app_server() && self.codex_notify == MarkerState::File
    }

    /// Whether the runner of local models was launched.
    pub open spec fn local(self) -> bool {
        self.local_model_runner == MarkerState::File
    }

    /// The first artifact that cannot be judged.
    pub open spec fn refusal(self) -> Option<LaunchError> {
        if marker_refusal(LaunchMarker::ClaudeMcpConfig, self.claude_mcp_config) is Some {
            marker_refusal(LaunchMarker::ClaudeMcpConfig, self.claude_mcp_config)
        } else if marker_refusal(LaunchMarker::ClaudeHookSettings, self.claude_hook_settings) is Some {
            marker_refusal(LaunchMarker::ClaudeHookSettings, self.claude_hook_settings)
        } else if marker_refusal(LaunchMarker::ClaudeDebugLog, self.claude_debug_log) is Some {
            marker_refusal(LaunchMarker::ClaudeDebugLog, self.claude_debug_log)
        } else if marker_refusal(
            LaunchMarker::CodexAppServerRunner,
            self.codex_app_server_runner,
        ) is Some {
            marker_refusal(LaunchMarker::CodexAppServerRunner, self.codex_app_server_runner)
        } else if marker_refusal(LaunchMarker::CodexControl, self.codex_control) is Some {
            marker_refusal(LaunchMarker::CodexControl, self.codex_control)
        } else if marker_refusal(
            LaunchMarker::CodexAppServerEvents,
            self.codex_app_server_events,
        ) is Some {
            marker_refusal(LaunchMarker::CodexAppServerEvents, self.codex_app_server_events)
        } else if !self.app_server() && marker_refusal(
            LaunchMarker::CodexNotify,
            self.codex_notify,
        ) is Some {
            marker_refusal(LaunchMarker::CodexNotify, self.codex_notify)
        } else {
            marker_refusal(LaunchMarker::LocalModelRunner, self.local_model_runner)
        }
    }
}

/// The vocabulary that the artifacts point to: exactly one family of them must
/// be there.
pub open spec fn detected(markers: SourceMarkers) -> Result<TranscriptSource, LaunchError> {
    let (claude, server, codex, local) = (
        markers.claude(),
        markers.app_server(),
        markers.codex(),
        markers.local(),
    );
    match markers.refusal() {
        Some(error) => Err(error),
        None => if claude && !server && !codex && !local {
            Ok(TranscriptSource::ClaudeStreamJson)
        } else if server && !claude && !codex && !local {
            Ok(TranscriptSource::CodexAppServerJsonRpc)
        } else if codex && !claude && !server && !local {
            Ok(TranscriptSource::CodexExecJson)
        } else if local && !claude && !server && !codex {
            Ok(TranscriptSource::LocalModelJson)
        } else if !claude && !server && !codex && !local {
            Err(LaunchError::FormatUnknown)
        } else {
            Err(LaunchError::Ambiguous)
        },
    }
}

/// Tells the vocabulary of a spawn's stream from the artifacts of its launch.
pub fn detect_source(markers: SourceMarkers) -> (source: Result<TranscriptSource, LaunchError>)
    ensures
        source == detected(markers),
{
    let mcp: bool = marker_exists(LaunchMarker::ClaudeMcpConfig, markers.claude_mcp_config)?;
    let hooks: bool = marker_exists(
        LaunchMarker::ClaudeHookSettings,
        markers.claude_hook_settings,
    )?;
    let debug: bool = marker_exists(LaunchMarker::ClaudeDebugLog, markers.claude_debug_log)?;
    let claude: bool = mcp || hooks || debug;
    let runner: bool = marker_exists(
        LaunchMarker::CodexAppServerRunner,
        markers.codex_app_server_runner,
    )?;
    let control: bool = marker_exists(LaunchMarker::CodexControl, markers.codex_control)?;
    let events: bool = marker_exists(
        LaunchMarker::CodexAppServerEvents,
        markers.codex_app_server_events,
    )?;
    let server: bool = runner || control || events;
    let codex: bool = if server {
        false
    } else {
        marker_exists(LaunchMarker::CodexNotify, markers.codex_notify)?
    };
    let local: bool = marker_exists(LaunchMarker::LocalModelRunner, markers.local_model_runner)?;
    if claude && !server && !codex && !local {
        Ok(TranscriptSource::ClaudeStreamJson)
    } else if server && !claude && !codex && !local {
        Ok(TranscriptSource::CodexAppServerJsonRpc)
    } else if codex && !claude && !server && !local {
        Ok(TranscriptSource::CodexExecJson)
    } else if local && !claude && !server && !codex {
        Ok(TranscriptSource::LocalModelJson)
    } else if !claude && !server && !codex && !local {
        Err(LaunchError::FormatUnknown)
    } else {
        Err(LaunchError::Ambiguous)
    }
}

/// What reading a file gives.
#[derive(Debug)]
pub enum FileRead {
    Missing,
    Failed,
    Bytes(Vec<u8>),
}

/// What the launch recorded: the model, and when it took place.
#[derive(Debug)]
pub struct SpawnManifestSeed {
    pub model: Option<String>,
    pub created_unix_ms: Option<u64>,
}

/// A seed with its model taken as text.
pub struct SeedView {
    pub model: Option<Seq<char>>,
    pub created_unix_ms: Option<u64>,
}

impl View for SpawnManifestSeed {
    type V = SeedView;

    open spec fn view(&self) -> SeedView {
        SeedView { model: text::opt_text(self.model), created_unix_ms: self.created_unix_ms }
    }
}

/// Why the manifest of a launch cannot be used.
#[derive(Clone, Copy, Debug, PartialEq, Eq, Structural)]
pub enum ManifestError {
    Missing,
    ReadFailed,
    NotJson,
    NotObject,
    ModelInvalid,
    CreatedInvalid,
}

/// The model that a manifest names.
pub open spec fn manifest_model(manifest: Json) -> Option<Seq<char>> {
    match json::str_member(manifest, "model"@) {
        Some(model) => if text::trim_spec(model).len() == 0 {
            None
        } else {
            Some(text::trim_spec(model))
        },
        None => None,
    }
}

/// What a manifest says, or why it cannot be used. What it names at all it must
/// name well.
pub open spec fn manifest_seed(manifest: Option<Json>) -> Result<SeedView, ManifestError> {
    match manifest {
        None => Err(ManifestError::NotJson),
        Some(value) => if !(value is Object) {
            Err(ManifestError::NotObject)
        } else if json::member(value, "model"@) is Some && manifest_model(value) is None {
            Err(ManifestError::ModelInvalid)
        } else if json::member(value, "created_unix_ms"@) is Some && json::u64_member(
            value,
            "created_unix_ms"@,
        ) is None {
            Err(ManifestError::CreatedInvalid)
        } else {
            Ok(
                SeedView {
                    model: manifest_model(value),
                    created_unix_ms: json::u64_member(value, "created_unix_ms"@),
                },
            )
        },
    }
}

/// The view of a seed that was read.
pub open spec fn seed_view(seed: Result<SpawnManifestSeed, ManifestError>) -> Result<
    SeedView,
    ManifestError,
> {
    match seed {
        Ok(found) => Ok(found@),
        Err(error) => Err(error),
    }
}

/// What the reading of a manifest says.
pub fn seed_of_manifest(manifest: Option<Json>) -> (seed: Result<SpawnManifestSeed, ManifestError>)
    ensures
        seed_view(seed) == manifest_seed(manifest),
{
    let value = match manifest {
        Some(value) => value,
        None => {
            return Err(ManifestError::NotJson);
        },
    };
    match &value {
        Json::Object(_) => {},
        _ => {
            return Err(ManifestError::NotObject);
        },
    }
    let model: Option<String> = match str_member_of(&value, "model") {
        Some(model) => {
            let trimmed = trim(model);
            if trimmed.unicode_len() == 0 {
                None
            } else {
                Some(trimmed.to_owned())
            }
        },
        None => None,
    };
    let created_unix_ms: Option<u64> = u64_member_of(&value, "created_unix_ms");
    if member_of(&value, "model").is_some() && model.is_none() {
        return Err(ManifestError::ModelInvalid);
    }
    if member_of(&value, "created_unix_ms").is_some() && created_unix_ms.is_none() {
        return Err(ManifestError::CreatedInvalid);
    }
    Ok(SpawnManifestSeed { model, created_unix_ms })
}

/// What the manifest of a launch says.
pub fn read_spawn_manifest_seed(read: &FileRead) -> (seed: Result<SpawnManifestSeed, ManifestError>)
    ensures
        seed_view(seed) == (match *read {
            FileRead::Missing => Err(ManifestError::Missing),
            FileRead::Failed => Err(ManifestError::ReadFailed),
            FileRead::Bytes(bytes) => manifest_seed(json::json_of_bytes(bytes@)),
        }),
{
    match read {
        FileRead::Missing => Err(ManifestError::Missing),
        FileRead::Failed => Err(ManifestError::ReadFailed),
        FileRead::Bytes(bytes) => seed_of_manifest(read_json_bytes(bytes.as_slice())),
    }
}

/// Why it cannot be told whether a spawn has ended.
#[derive(Clone, Copy, Debug, PartialEq, Eq, Structural)]
pub enum CompletionError {
    ReadFailed,
    NotJson,
    StatusMissing,
}

/// Whether a completion status is terminal: any status but `running` is.
pub open spec fn status_terminal(status: Option<Json>) -> Result<bool, CompletionError> {
    match status {
        None => Err(CompletionError::NotJson),
        Some(value) => match json::str_member(value, "status"@) {
            None => Err(CompletionError::StatusMissing),
            Some(text) => Ok(text != "running"@),
        },
    }
}

/// Whether the reading of a completion status is terminal.
pub fn status_is_terminal(status: Option<Json>) -> (terminal: Result<bool, CompletionError>)
    ensures
        terminal == status_terminal(status),
{
    match status {
        None => Err(CompletionError::NotJson),
        Some(value) => match str_member_of(&value, "status") {
            None => Err(CompletionError::StatusMissing),
            Some(text) => Ok(!str_equal(text, "running")),
        },
    }
}

/// Whether a spawn has ended. Without a completion status it has not.
pub fn completion_is_terminal(read: &FileRead) -> (terminal: Result<bool, CompletionError>)
    ensures
        terminal == (match *read {
            FileRead::Missing => Ok(false),
            FileRead::Failed => Err(CompletionError::ReadFailed),
            FileRead::Bytes(bytes) => status_terminal(json::json_of_bytes(bytes@)),
        }),
{
    match read {
        FileRead::Missing => Ok(false),
        FileRead::Failed => Err(CompletionError::ReadFailed),
        FileRead::Bytes(bytes) => status_is_terminal(read_json_bytes(bytes.as_slice())),
    }
}

} // verus!
