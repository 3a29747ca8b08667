//! One cycle over the transcripts of all spawns, and when cycles run.
use crate::roots;
use crate::roots::{DefaultPaths, host_root_allowed_for_db};
use crate::text;
use crate::text::starts_with;
use crate::transcripts::cursor;
use crate::transcripts::cursor::{SpawnIdError, validate_spawn_id_shape};
use crate::transcripts::ingest::SpawnIngestOutcome;
use vstd::prelude::*;
use vstd::string::*;

verus! {

/// The seconds between two cycles, and those before the first.
pub const INTERVAL_ENV: &'static str = "SYNAPSE_TRANSCRIPT_INGEST_INTERVAL_SECS";
pub const STARTUP_DELAY_ENV: &'static str = "SYNAPSE_TRANSCRIPT_INGEST_STARTUP_DELAY_SECS";
/// The directory of the spawns, for a database that is not the host's own.
pub const ROOT_ENV: &'static str = "SYNAPSE_TRANSCRIPT_INGEST_SPAWN_ROOT";
pub const DEFAULT_INTERVAL_SECS: u64 = 15;
pub const DEFAULT_STARTUP_DELAY_SECS: u64 = 10;

/// How the directory of the spawns was found.
#[derive(Clone, Copy, Debug, PartialEq, Eq, Structural)]
pub enum TranscriptRootScope {
    ExplicitEnv,
    ConfiguredDaemonDb,
}

impl TranscriptRootScope {
    /// The name of the scope.
    pub open spec fn name(self) -> Seq<char> {
        match self {
            TranscriptRootScope::ExplicitEnv => "explicit_env"@,
            TranscriptRootScope::ConfiguredDaemonDb => "configured_daemon_db"@,
        }
    }

    /// The name of the scope.
    pub fn as_str(self) -> (name: &'static str)
        ensures
            name@ == self.name(),
    {
        match self {
            TranscriptRootScope::ExplicitEnv => "explicit_env",
            TranscriptRootScope::ConfiguredDaemonDb => "configured_daemon_db",
        }
    }
}

/// The directory of the spawns, and how it was found.
#[derive(Debug)]
pub struct TranscriptRootDecision {
    pub root: String,
    pub scope: TranscriptRootScope,
}

/// Whether a daemon with this database may read the host's own spawns.
pub fn transcript_host_root_allowed_for_db(db_path: &str, defaults: &DefaultPaths) -> (allowed: bool)
    ensures
        allowed == roots::is_host_db(db_path@, *defaults),
{
    host_root_allowed_for_db(db_path, defaults)
}

/// Finds the directory of the spawns: one that was named explicitly, else the
/// host's own, but that only for the host's own database.
pub fn transcript_spawn_root_for_db_with(
    db_path: &str,
    explicit_root: Option<String>,
    host_spawn_root: Result<String, String>,
    defaults: &DefaultPaths,
) -> (decision: Result<Option<TranscriptRootDecision>, String>)
    ensures
        match explicit_root {
            Some(root) => decision matches Ok(Some(found)) && found.root == root && found.scope
                == TranscriptRootScope::ExplicitEnv,
            None => if !roots::is_host_db(db_path@, *defaults) {
                decision matches Ok(none) && none is None
            } else {
                match host_spawn_root {
                    Ok(root) => decision matches Ok(Some(found)) && found.root == root
                        && found.scope == TranscriptRootScope::ConfiguredDaemonDb,
                    Err(error) => decision matches Err(given) && given == error,
                }
            },
        },
{
    if let Some(root) = explicit_root {
        return Ok(Some(TranscriptRootDecision { root, scope: TranscriptRootScope::ExplicitEnv }));
    }
    if !transcript_host_root_allowed_for_db(db_path, defaults) {
        return Ok(None);
    }
    match host_spawn_root {
        Ok(root) => Ok(
            Some(TranscriptRootDecision { root, scope: TranscriptRootScope::ConfiguredDaemonDb }),
        ),
        Err(error) => Err(error),
    }
}

/// Whether and how cycles run.
#[derive(Clone, Copy, Debug, PartialEq, Eq, Structural)]
pub enum IngestSchedule {
    /// The interval is zero.
    Disabled,
    /// The database is not the host's own, and no directory was named.
    Unscoped,
    Every { interval_secs: u64, startup_delay_secs: u64 },
}

/// Decides whether cycles run. An interval of zero turns them off.
pub fn plan_schedule(interval_secs: u64, startup_delay_secs: u64, root_found: bool) -> (schedule:
    IngestSchedule)
    ensures
        schedule == (if interval_secs == 0 {
            IngestSchedule::Disabled
        } else if !root_found {
            IngestSchedule::Unscoped
        } else {
            IngestSchedule::Every { interval_secs, startup_delay_secs }
        }),
{
    if interval_secs == 0 {
        IngestSchedule::Disabled
    } else if !root_found {
        IngestSchedule::Unscoped
    } else {
        IngestSchedule::Every { interval_secs, startup_delay_secs }
    }
}

/// What is found under the directory of the spawns.
#[derive(Debug)]
pub enum SpawnEntry {
    EnumerationFailed,
    NameNotUtf8,
    /// An entry, and whether it is a directory where that can be told.
    Named { name: String, is_dir: Option<bool> },
}

/// Why an entry cannot be ingested.
#[derive(Clone, Copy, Debug, PartialEq, Eq, Structural)]
pub enum EntryError {
    EnumerationFailed,
    NameNotUtf8,
    SpawnIdInvalid(SpawnIdError),
    TypeFailed,
    NotDirectory,
}

/// What becomes of an entry.
#[derive(Clone, Copy, Debug, PartialEq, Eq, Structural)]
pub enum EntryDecision {
    /// The entry is none of ours.
    Ignore,
    Refuse(EntryError),
    Ingest,
}

/// What becomes of an entry. One that looks like a spawn but is none is an
/// error; any other name is passed over.
pub open spec fn entry_decision(entry: SpawnEntry) -> EntryDecision {
    match entry {
        SpawnEntry::EnumerationFailed => EntryDecision::Refuse(EntryError::EnumerationFailed),
        SpawnEntry::NameNotUtf8 => EntryDecision::Refuse(EntryError::NameNotUtf8),
        SpawnEntry::Named { name, is_dir } => match cursor::spawn_id_refusal(name@) {
            Some(error) => if text::has_prefix(name@, "agent-spawn-"@) {
                EntryDecision::Refuse(EntryError::SpawnIdInvalid(error))
            } else {
                EntryDecision::Ignore
            },
            None => match is_dir {
                None => EntryDecision::Refuse(EntryError::TypeFailed),
                Some(false) => EntryDecision::Refuse(EntryError::NotDirectory),
                Some(true) => EntryDecision::Ingest,
            },
        },
    }
}

/// Decides what becomes of an entry.
pub fn judge_entry(entry: &SpawnEntry) -> (decision: EntryDecision)
    ensures
        decision == entry_decision(*entry),
{
    match entry {
        SpawnEntry::EnumerationFailed => EntryDecision::Refuse(EntryError::EnumerationFailed),
        SpawnEntry::NameNotUtf8 => EntryDecision::Refuse(EntryError::NameNotUtf8),
        SpawnEntry::Named { name, is_dir } => match validate_spawn_id_shape(name.as_str()) {
            Err(error) => if starts_with(name.as_str(), "agent-spawn-") {
                EntryDecision::Refuse(EntryError::SpawnIdInvalid(error))
            } else {
                EntryDecision::Ignore
            },
            Ok(()) => match is_dir {
                None => EntryDecision::Refuse(EntryError::TypeFailed),
                Some(false) => EntryDecision::Refuse(EntryError::NotDirectory),
                Some(true) => EntryDecision::Ingest,
            },
        },
    }
}

/// What a cycle did.
#[derive(Clone, Copy, Debug, PartialEq, Eq, Structural)]
pub struct CycleSummary {
    pub dirs_seen: u64,
    pub new_rows: u64,
    pub sources_completed: u64,
    pub errors: u64,
    pub pressure_deferred: u64,
    pub cancelled: bool,
}

impl CycleSummary {
    /// A cycle that has seen nothing.
    pub fn new() -> (summary: Self)
        ensures
            summary == (CycleSummary {
                dirs_seen: 0,
                new_rows: 0,
                sources_completed: 0,
                errors: 0,
                pressure_deferred: 0,
                cancelled: false,
            }),
    {
        CycleSummary {
            dirs_seen: 0,
            new_rows: 0,
            sources_completed: 0,
            errors: 0,
            pressure_deferred: 0,
            cancelled: false,
        }
    }

    /// Whether another entry can be counted.
    pub open spec fn has_room(self) -> bool {
        self.dirs_seen < u64::MAX && self.errors < u64::MAX && self.sources_completed < u64::MAX
            && self.pressure_deferred < u64::MAX
    }

    /// Whether an outcome can be counted, and another entry besides.
    pub fn has_room_for(&self, outcome: &Option<SpawnIngestOutcome>) -> (room: bool)
        ensures
            room == (self.has_room() && (outcome matches Some(done) ==> self.new_rows
                + done.new_parsed_rows + done.new_invalid_rows <= u64::MAX)),
    {
        let rows_fit = match outcome {
            None => true,
            Some(done) => match self.new_rows.checked_add(done.new_parsed_rows) {
                None => false,
                Some(rows) => rows <= u64::MAX - done.new_invalid_rows,
            },
        };
        rows_fit && self.dirs_seen < u64::MAX && self.errors < u64::MAX && self.sources_completed
            < u64::MAX && self.pressure_deferred < u64::MAX
    }

    /// Counts an entry before it is ingested.
    pub fn see(&mut self, decision: EntryDecision)
        requires
            old(self).has_room(),
        ensures
            *final(self) == (match decision {
                EntryDecision::Ignore => *old(self),
                EntryDecision::Refuse(_) => CycleSummary {
                    errors: (old(self).errors + 1) as u64,
                    ..*old(self)
                },
                EntryDecision::Ingest => CycleSummary {
                    dirs_seen: (old(self).dirs_seen + 1) as u64,
                    ..*old(self)
                },
            }),
    {
        match decision {
            EntryDecision::Ignore => {},
            EntryDecision::Refuse(_) => {
                self.errors = self.errors + 1;
            },
            EntryDecision::Ingest => {
                self.dirs_seen = self.dirs_seen + 1;
            },
        }
    }

    /// Counts what became of one spawn. The result says whether the cycle stops.
    pub fn count(&mut self, outcome: Option<SpawnIngestOutcome>) -> (stop: bool)
        requires
            old(self).has_room(),
            outcome matches Some(done) ==> old(self).new_rows + done.new_parsed_rows
                + done.new_invalid_rows <= u64::MAX,
        ensures
            match outcome {
                None => !stop && *final(self) == (CycleSummary {
                    errors: (old(self).errors + 1) as u64,
                    ..*old(self)
                }),
                Some(done) => stop == done.cancelled && *final(self) == (CycleSummary {
                    new_rows: (old(self).new_rows + done.new_parsed_rows
                        + done.new_invalid_rows) as u64,
                    sources_completed: (old(self).sources_completed + (if done.source_complete
                        && !done.skipped {
                        1int
                    } else {
                        0int
                    })) as u64,
                    pressure_deferred: (old(self).pressure_deferred + (
                    if done.deferred_for_pressure {
                        1int
                    } else {
                        0int
                    })) as u64,
                    cancelled: old(self).cancelled || done.cancelled,
                    ..*old(self)
                }),
            },
    {
        match outcome {
            None => {
                self.errors = self.errors + 1;
                false
            },
            Some(done) => {
                self.new_rows = self.new_rows + done.new_parsed_rows + done.new_invalid_rows;
                if done.source_complete && !done.skipped {
                    self.sources_completed = self.sources_completed + 1;
                }
                if done.deferred_for_pressure {
                    self.pressure_deferred = self.pressure_deferred + 1;
                }
                if done.cancelled {
                    self.cancelled = true;
                }
                done.cancelled
            },
        }
    }

    /// Whether the cycle found anything worth telling.
    pub fn is_idle(&self) -> (idle: bool)
        ensures
            idle == (self.new_rows == 0 && self.sources_completed == 0 && self.errors == 0
                && self.pressure_deferred == 0),
    {
        self.new_rows == 0 && self.sources_completed == 0 && self.errors == 0
            && self.pressure_deferred == 0
    }
}

} // verus!
