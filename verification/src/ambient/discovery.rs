//! Finding the sessions of agents that were not spawned here.
use crate::ambient::pass::SessionIngestOutcome;
use crate::ambient::tracking;
use crate::ambient::tracking::is_session_stem;
use crate::roots;
use crate::roots::{DefaultPaths, host_root_allowed_for_db};
use crate::text;
use crate::text::{chars_of, str_equal, trim};
use vstd::prelude::*;
use vstd::string::*;

verus! {

/// The seconds between two cycles, and those before the first.
pub const INTERVAL_ENV: &'static str = "SYNAPSE_AMBIENT_INGEST_INTERVAL_SECS";
pub const STARTUP_DELAY_ENV: &'static str = "SYNAPSE_AMBIENT_INGEST_STARTUP_DELAY_SECS";
/// The seconds after which a session that is not tracked is left alone.
pub const MAX_IDLE_ENV: &'static str = "SYNAPSE_AMBIENT_MAX_IDLE_SECS";
/// The directory of the projects, for a database that is not the host's own.
pub const ROOT_ENV: &'static str = "SYNAPSE_AMBIENT_CLAUDE_PROJECTS_DIR";
pub const DEFAULT_INTERVAL_SECS: u64 = 5;
pub const DEFAULT_STARTUP_DELAY_SECS: u64 = 8;
pub const DEFAULT_MAX_IDLE_SECS: u64 = 24 * 3600;

/// How the directory of the projects was found.
#[derive(Clone, Copy, Debug, PartialEq, Eq, Structural)]
pub enum AmbientRootScope {
    ExplicitEnv,
    ConfiguredDaemonDb,
}

impl AmbientRootScope {
    /// The name of the scope.
    pub open spec fn name(self) -> Seq<char> {
        match self {
            AmbientRootScope::ExplicitEnv => "explicit_env"@,
            AmbientRootScope::ConfiguredDaemonDb => "configured_daemon_db"@,
        }
    }

    /// The name of the scope.
    pub fn as_str(self) -> (name: &'static str)
        ensures
            name@ == self.name(),
    {
        match self {
            AmbientRootScope::ExplicitEnv => "explicit_env",
            AmbientRootScope::ConfiguredDaemonDb => "configured_daemon_db",
        }
    }
}

/// The directory of the projects, and how it was found.
#[derive(Debug)]
pub struct AmbientRootDecision {
    pub root: String,
    pub scope: AmbientRootScope,
}

/// Whether a daemon with this database may read the host's own sessions.
pub fn ambient_host_root_allowed_for_db(db_path: &str, defaults: &DefaultPaths) -> (allowed: bool)
    ensures
        allowed == roots::is_host_db(db_path@, *defaults),
{
    host_root_allowed_for_db(db_path, defaults)
}

/// Finds the directory of the projects: one that was named explicitly, else the
/// host's own, but that only for the host's own database.
pub fn ambient_projects_root_for_db(
    db_path: &str,
    explicit_root: Option<String>,
    host_root: Result<String, HomeUnresolved>,
    defaults: &DefaultPaths,
) -> (decision: Result<Option<AmbientRootDecision>, HomeUnresolved>)
    ensures
        match explicit_root {
            Some(root) => decision matches Ok(Some(found)) && found.root == root && found.scope
                == AmbientRootScope::ExplicitEnv,
            None => if !roots::is_host_db(db_path@, *defaults) {
                decision matches Ok(none) && none is None
            } else {
                match host_root {
                    Ok(root) => decision matches Ok(Some(found)) && found.root == root
                        && found.scope == AmbientRootScope::ConfiguredDaemonDb,
                    Err(_) => decision is Err,
                }
            },
        },
{
    if let Some(root) = explicit_root {
        return Ok(Some(AmbientRootDecision { root, scope: AmbientRootScope::ExplicitEnv }));
    }
    if !ambient_host_root_allowed_for_db(db_path, defaults) {
        return Ok(None);
    }
    match host_root {
        Ok(root) => Ok(
            Some(AmbientRootDecision { root, scope: AmbientRootScope::ConfiguredDaemonDb }),
        ),
        Err(error) => Err(error),
    }
}

/// No variable says where the user's directory is.
#[derive(Clone, Copy, Debug, PartialEq, Eq, Structural)]
pub struct HomeUnresolved;

/// The directory from which that of the projects is reached.
#[derive(Debug)]
pub enum ProjectsBase {
    /// The configuration directory; the projects stand right under it.
    Config(String),
    /// The home directory; the projects stand under its configuration directory.
    Home(String),
}

/// Whether a character stands between two directories of a list.
pub open spec fn is_separator(ch: char) -> bool {
    ch == ';' || ch == ':'
}

/// Where the part that starts at `from` ends.
pub open spec fn part_end(list: Seq<char>, from: int) -> int
    decreases list.len() - from,
{
    if from >= list.len() {
        list.len() as int
    } else if is_separator(list[from]) {
        from
    } else {
        part_end(list, from + 1)
    }
}

proof fn lemma_part_end(list: Seq<char>, from: int)
    requires
        0 <= from <= list.len(),
    ensures
        from <= part_end(list, from) <= list.len(),
    decreases list.len() - from,
{
    if from < list.len() && !is_separator(list[from]) {
        lemma_part_end(list, from + 1);
    }
}

/// The first directory of a list that is not blank.
pub open spec fn first_part(list: Seq<char>, from: int) -> Option<Seq<char>>
    decreases list.len() - from, 
    via first_part_decreases
{
    let end = part_end(list, from);
    let part = text::trim_spec(list.subrange(from, end));
    if !(0 <= from <= list.len()) {
        None
    } else if part.len() > 0 {
        Some(part)
    } else if end >= list.len() {
        None
    } else {
        first_part(list, end + 1)
    }
}

#[via_fn]
proof fn first_part_decreases(list: Seq<char>, from: int) {
    if 0 <= from <= list.len() {
        lemma_part_end(list, from);
    }
}

/// The directory of a list that is written to: the first that is not blank, else
/// the list as it stands.
pub open spec fn config_dir(list: Seq<char>) -> Seq<char> {
    match first_part(list, 0) {
        Some(part) => part,
        None => list,
    }
}

fn find_config_dir(list: &str) -> (dir: String)
    ensures
        dir@ == config_dir(list@),
{
    let chars = chars_of(list);
    let total: usize = chars.len();
    let mut from: usize = 0;
    loop
        invariant
            chars@ == list@,
            total == chars@.len(),
            from <= total,
            first_part(list@, 0) == first_part(list@, from as int),
        decreases total - from,
    {
        let mut end: usize = from;
        while end < total && chars[end] != ';' && chars[end] != ':'
            invariant
                chars@ == list@,
                total == chars@.len(),
                from <= end <= total,
                part_end(list@, from as int) == part_end(list@, end as int),
            decreases total - end,
        {
            end = end + 1;
        }
        let part = trim(list.substring_char(from, end));
        if part.unicode_len() > 0 {
            return part.to_owned();
        }
        if end >= total {
            return list.to_owned();
        }
        from = end + 1;
    }
}

/// Finds the directory from which that of the projects is reached.
pub fn claude_projects_root_from_host_env(
    config_dirs: Option<&str>,
    user_profile: Option<&str>,
    home: Option<&str>,
) -> (base: Result<ProjectsBase, HomeUnresolved>)
    ensures
        match (config_dirs, user_profile, home) {
            (Some(list), _, _) => base matches Ok(ProjectsBase::Config(dir)) && dir@ == config_dir(
                list@,
            ),
            (None, Some(profile), _) => base matches Ok(ProjectsBase::Home(dir)) && dir@
                == profile@,
            (None, None, Some(own)) => base matches Ok(ProjectsBase::Home(dir)) && dir@ == own@,
            (None, None, None) => base is Err,
        },
{
    if let Some(list) = config_dirs {
        return Ok(ProjectsBase::Config(find_config_dir(list)));
    }
    if let Some(profile) = user_profile {
        return Ok(ProjectsBase::Home(profile.to_owned()));
    }
    if let Some(own) = home {
        return Ok(ProjectsBase::Home(own.to_owned()));
    }
    Err(HomeUnresolved)
}

/// What stands under the directory of the projects.
#[derive(Clone, Copy, Debug, PartialEq, Eq, Structural)]
pub enum ProjectEntry {
    EnumerationFailed,
    TypeFailed,
    NotDirectory,
    Unreadable,
    Readable,
}

/// A part of the name of a file.
#[derive(Debug)]
pub enum NamePart {
    Absent,
    NotUtf8,
    Text(String),
}

/// When a file was changed.
#[derive(Clone, Copy, Debug, PartialEq, Eq, Structural)]
pub enum ModifiedTime {
    Failed,
    BeforeEpoch,
    Seconds(u64),
}

/// A file in the directory of a project.
#[derive(Debug)]
pub struct SessionFile {
    pub extension: NamePart,
    pub stem: NamePart,
    /// Whether it is a regular file, where that can be told.
    pub is_file: Option<bool>,
    pub modified: ModifiedTime,
    /// Whether the session has a cursor, where that can be told.
    pub known: Option<bool>,
}

/// Why a file cannot be ingested.
#[derive(Clone, Copy, Debug, PartialEq, Eq, Structural)]
pub enum SessionFileError {
    ExtensionNotUtf8,
    StemNotUtf8,
    StatFailed,
    NotFile,
    ModifiedTimeFailed,
    ModifiedTimeInvalid,
    CursorReadFailed,
}

/// What becomes of a file.
#[derive(Clone, Copy, Debug, PartialEq, Eq, Structural)]
pub enum FileDecision {
    /// The file is no session.
    Ignore,
    Refuse(SessionFileError),
    /// The session was left long ago, and is not tracked.
    Stale,
    Ingest,
}

/// The seconds since a session was written to, none for one from the future.
pub open spec fn idle_secs(modified_secs: u64, now_secs: u64) -> int {
    if now_secs > modified_secs {
        now_secs - modified_secs
    } else {
        0
    }
}

/// What becomes of a file. A session that is tracked is never stale.
pub open spec fn file_decision(file: SessionFile, now_secs: u64, max_idle_secs: u64) -> FileDecision {
    match file.extension {
        NamePart::Absent => FileDecision::Ignore,
        NamePart::NotUtf8 => FileDecision::Refuse(SessionFileError::ExtensionNotUtf8),
        NamePart::Text(extension) => if extension@ != "jsonl"@ {
            FileDecision::Ignore
        } else {
            match file.stem {
                NamePart::Absent => FileDecision::Refuse(SessionFileError::StemNotUtf8),
                NamePart::NotUtf8 => FileDecision::Refuse(SessionFileError::StemNotUtf8),
                NamePart::Text(stem) => if !tracking::is_session_id(stem@) {
                    FileDecision::Ignore
                } else {
                    match file.is_file {
                        None => FileDecision::Refuse(SessionFileError::StatFailed),
                        Some(false) => FileDecision::Refuse(SessionFileError::NotFile),
                        Some(true) => match file.modified {
                            ModifiedTime::Failed => FileDecision::Refuse(
                                SessionFileError::ModifiedTimeFailed,
                            ),
                            ModifiedTime::BeforeEpoch => FileDecision::Refuse(
                                SessionFileError::ModifiedTimeInvalid,
                            ),
                            ModifiedTime::Seconds(modified_secs) => match file.known {
                                None => FileDecision::Refuse(SessionFileError::CursorReadFailed),
                                Some(known) => if idle_secs(modified_secs, now_secs)
                                    > max_idle_secs && !known {
                                    FileDecision::Stale
                                } else {
                                    FileDecision::Ingest
                                },
                            },
                        },
                    }
                },
            }
        },
    }
}

/// Decides what becomes of a file.
pub fn judge_file(file: &SessionFile, now_secs: u64, max_idle_secs: u64) -> (decision: FileDecision)
    ensures
        decision == file_decision(*file, now_secs, max_idle_secs),
{
    let extension = match &file.extension {
        NamePart::Absent => {
            return FileDecision::Ignore;
        },
        NamePart::NotUtf8 => {
            return FileDecision::Refuse(SessionFileError::ExtensionNotUtf8);
        },
        NamePart::Text(extension) => extension,
    };
    if !str_equal(extension.as_str(), "jsonl") {
        return FileDecision::Ignore;
    }
    let stem = match &file.stem {
        NamePart::Absent => {
            return FileDecision::Refuse(SessionFileError::StemNotUtf8);
        },
        NamePart::NotUtf8 => {
            return FileDecision::Refuse(SessionFileError::StemNotUtf8);
        },
        NamePart::Text(stem) => stem,
    };
    if !is_session_stem(stem.as_str()) {
        return FileDecision::Ignore;
    }
    match file.is_file {
        None => {
            return FileDecision::Refuse(SessionFileError::StatFailed);
        },
        Some(false) => {
            return FileDecision::Refuse(SessionFileError::NotFile);
        },
        Some(true) => {},
    }
    let modified_secs: u64 = match file.modified {
        ModifiedTime::Failed => {
            return FileDecision::Refuse(SessionFileError::ModifiedTimeFailed);
        },
        ModifiedTime::BeforeEpoch => {
            return FileDecision::Refuse(SessionFileError::ModifiedTimeInvalid);
        },
        ModifiedTime::Seconds(seconds) => seconds,
    };
    let idle: u64 = if now_secs > modified_secs {
        now_secs - modified_secs
    } else {
        0
    };
    match file.known {
        None => FileDecision::Refuse(SessionFileError::CursorReadFailed),
        Some(known) => if idle > max_idle_secs && !known {
            FileDecision::Stale
        } else {
            FileDecision::Ingest
        },
    }
}

/// A session that is tracked is tailed however long it was idle.
pub proof fn law_known_sessions_are_never_stale(
    file: SessionFile,
    now_secs: u64,
    max_idle_secs: u64,
)
    requires
        file.known == Some(true),
    ensures
        file_decision(file, now_secs, max_idle_secs) != FileDecision::Stale,
{
}

/// What a cycle did.
#[derive(Clone, Copy, Debug, PartialEq, Eq, Structural)]
pub struct DiscoverySummary {
    pub sessions_seen: u64,
    pub new_rows: u64,
    pub sessions_registered: u64,
    pub errors: u64,
    pub pressure_deferred: u64,
    pub skipped_stale: u64,
    pub cancelled: bool,
}

impl DiscoverySummary {
    /// A cycle that has seen nothing.
    pub fn new() -> (summary: Self)
        ensures
            summary == (DiscoverySummary {
                sessions_seen: 0,
                new_rows: 0,
                sessions_registered: 0,
                errors: 0,
                pressure_deferred: 0,
                skipped_stale: 0,
                cancelled: false,
            }),
    {
        DiscoverySummary {
            sessions_seen: 0,
            new_rows: 0,
            sessions_registered: 0,
            errors: 0,
            pressure_deferred: 0,
            skipped_stale: 0,
            cancelled: false,
        }
    }

    /// Whether another entry can be counted.
    pub open spec fn has_room(self) -> bool {
        self.sessions_seen < u64::MAX && self.errors < u64::MAX && self.sessions_registered
            < u64::MAX && self.pressure_deferred < u64::MAX && self.skipped_stale < u64::MAX
    }

    /// Whether an outcome can be counted, and another entry besides.
    pub fn has_room_for(&self, outcome: &Option<SessionIngestOutcome>) -> (room: bool)
        ensures
            room == (self.has_room() && (outcome matches Some(done) ==> self.new_rows
                + done.new_parsed_rows + done.new_invalid_rows <= u64::MAX)),
    {
        let rows_fit = match outcome {
            None => true,
            Some(done) => match self.new_rows.checked_add(done.new_parsed_rows) {
                None => false,
                Some(rows) => rows <= u64::MAX - done.new_invalid_rows,
            },
        };
        rows_fit && self.sessions_seen < u64::MAX && self.errors < u64::MAX
            && self.sessions_registered < u64::MAX && self.pressure_deferred < u64::MAX
            && self.skipped_stale < u64::MAX
    }

    /// Counts an entry under the directory of the projects. The result says
    /// whether its files are looked at.
    pub fn see_project(&mut self, entry: ProjectEntry) -> (enter: bool)
        requires
            old(self).has_room(),
        ensures
            enter == (entry == ProjectEntry::Readable),
            *final(self) == (match entry {
                ProjectEntry::Readable => *old(self),
                ProjectEntry::NotDirectory => *old(self),
                _ => DiscoverySummary { errors: (old(self).errors + 1) as u64, ..*old(self) },
            }),
    {
        match entry {
            ProjectEntry::Readable => true,
            ProjectEntry::NotDirectory => false,
            _ => {
                self.errors = self.errors + 1;
                false
            },
        }
    }

    /// Counts a file before it is ingested.
    pub fn see_file(&mut self, decision: FileDecision)
        requires
            old(self).has_room(),
        ensures
            *final(self) == (match decision {
                FileDecision::Ignore => *old(self),
                FileDecision::Refuse(_) => DiscoverySummary {
                    errors: (old(self).errors + 1) as u64,
                    ..*old(self)
                },
                FileDecision::Stale => DiscoverySummary {
                    skipped_stale: (old(self).skipped_stale + 1) as u64,
                    ..*old(self)
                },
                FileDecision::Ingest => DiscoverySummary {
                    sessions_seen: (old(self).sessions_seen + 1) as u64,
                    ..*old(self)
                },
            }),
    {
        match decision {
            FileDecision::Ignore => {},
            FileDecision::Refuse(_) => {
                self.errors = self.errors + 1;
            },
            FileDecision::Stale => {
                self.skipped_stale = self.skipped_stale + 1;
            },
            FileDecision::Ingest => {
                self.sessions_seen = self.sessions_seen + 1;
            },
        }
    }

    /// Counts what became of one session. The result says whether the cycle
    /// stops.
    pub fn count(&mut self, outcome: Option<SessionIngestOutcome>) -> (stop: bool)
        requires
            old(self).has_room(),
            outcome matches Some(done) ==> old(self).new_rows + done.new_parsed_rows
                + done.new_invalid_rows <= u64::MAX,
        ensures
            match outcome {
                None => !stop && *final(self) == (DiscoverySummary {
                    errors: (old(self).errors + 1) as u64,
                    ..*old(self)
                }),
                Some(done) => stop == done.cancelled && *final(self) == (DiscoverySummary {
                    new_rows: (old(self).new_rows + done.new_parsed_rows
                        + done.new_invalid_rows) as u64,
                    sessions_registered: (old(self).sessions_registered + (
                    if done.newly_registered {
                        1int
                    } else {
                        0int
                    })) as u64,
                    pressure_deferred: (old(self).pressure_deferred + (
                    if done.deferred_for_pressure {
                        1int
                    } else {
                        0int
                    })) as u64,
                    cancelled: old(self).cancelled || done.cancelled,
                    ..*old(self)
                }),
            },
    {
        match outcome {
            None => {
                self.errors = self.errors + 1;
                false
            },
            Some(done) => {
                self.new_rows = self.new_rows + done.new_parsed_rows + done.new_invalid_rows;
                if done.newly_registered {
                    self.sessions_registered = self.sessions_registered + 1;
                }
                if done.deferred_for_pressure {
                    self.pressure_deferred = self.pressure_deferred + 1;
                }
                if done.cancelled {
                    self.cancelled = true;
                }
                done.cancelled
            },
        }
    }

    /// Whether the cycle found anything worth telling.
    pub fn is_idle(&self) -> (idle: bool)
        ensures
            idle == (self.new_rows == 0 && self.sessions_registered == 0 && self.errors == 0),
    {
        self.new_rows == 0 && self.sessions_registered == 0 && self.errors == 0
    }
}

} // verus!
