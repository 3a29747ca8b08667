//! The durable cursor of a discovered session, with the events that it still
//! owes the journal.
use crate::ambient::events;
use crate::ambient::events::{AgentEvent, EventView, copy_events};
use crate::text;
use crate::text::{chars_of, joined};
use crate::transcripts::cursor;
use crate::transcripts::cursor::{BoundaryView, FingerprintView, SourceBoundary, SourceFingerprint};
use crate::transcripts::times;
use crate::transcripts::times::ambient_prefix_of;
use vstd::prelude::*;
use vstd::string::*;

verus! {

/// What the keys of session cursors begin with.
pub const CURSOR_KV_PREFIX: &'static str = "ambient-agents/cursor/";

pub const CURSOR_VERSION: u32 = 1;

pub const AMBIENT_OUTBOX_VERSION: u32 = 1;

pub const AMBIENT_PROJECTION_CHECKPOINT_VERSION: u32 = 1;

/// The most events of one outbox.
pub const MAX_AMBIENT_OUTBOX_RECORDS: usize = 3;

/// The events that a cursor owes the journal, written down with the part of the
/// source that they stand for.
#[derive(Debug)]
pub struct AmbientEventOutbox {
    pub record_version: u32,
    pub operation_id: String,
    pub checkpoint_offset_bytes: u64,
    pub checkpoint_lines_ingested: u64,
    pub event_ts_ns: u64,
    pub records: Vec<AgentEvent>,
    pub acknowledge_registration: bool,
    pub acknowledge_state: Option<String>,
}

/// An outbox with its strings taken as text.
pub struct OutboxView {
    pub record_version: u32,
    pub operation_id: Seq<char>,
    pub checkpoint_offset_bytes: u64,
    pub checkpoint_lines_ingested: u64,
    pub event_ts_ns: u64,
    pub records: Seq<EventView>,
    pub acknowledge_registration: bool,
    pub acknowledge_state: Option<Seq<char>>,
}

impl View for AmbientEventOutbox {
    type V = OutboxView;

    open spec fn view(&self) -> OutboxView {
        OutboxView {
            record_version: self.record_version,
            operation_id: self.operation_id@,
            checkpoint_offset_bytes: self.checkpoint_offset_bytes,
            checkpoint_lines_ingested: self.checkpoint_lines_ingested,
            event_ts_ns: self.event_ts_ns,
            records: events::event_views(self.records@),
            acknowledge_registration: self.acknowledge_registration,
            acknowledge_state: text::opt_text(self.acknowledge_state),
        }
    }
}

impl Clone for AmbientEventOutbox {
    fn clone(&self) -> (copy: Self)
        ensures
            copy@ == self@,
    {
        AmbientEventOutbox {
            record_version: self.record_version,
            operation_id: self.operation_id.clone(),
            checkpoint_offset_bytes: self.checkpoint_offset_bytes,
            checkpoint_lines_ingested: self.checkpoint_lines_ingested,
            event_ts_ns: self.event_ts_ns,
            records: copy_events(&self.records),
            acknowledge_registration: self.acknowledge_registration,
            acknowledge_state: self.acknowledge_state.clone(),
        }
    }
}

/// The view of an optional outbox.
pub open spec fn opt_outbox(outbox: Option<AmbientEventOutbox>) -> Option<OutboxView> {
    match outbox {
        Some(inner) => Some(inner@),
        None => None,
    }
}

/// The events that were acknowledged last, and where they stand in the journal.
#[derive(Debug)]
pub struct AmbientProjectionCheckpoint {
    pub record_version: u32,
    pub outbox: AmbientEventOutbox,
    pub journal_keys: Vec<Vec<u8>>,
}

/// A checkpoint with its strings taken as text.
pub struct CheckpointView {
    pub record_version: u32,
    pub outbox: OutboxView,
    pub journal_keys: Seq<Seq<u8>>,
}

/// The views of byte strings.
pub open spec fn byte_views(items: Seq<Vec<u8>>) -> Seq<Seq<u8>> {
    Seq::new(items.len(), |i: int| items[i]@)
}

impl View for AmbientProjectionCheckpoint {
    type V = CheckpointView;

    open spec fn view(&self) -> CheckpointView {
        CheckpointView {
            record_version: self.record_version,
            outbox: self.outbox@,
            journal_keys: byte_views(self.journal_keys@),
        }
    }
}

/// Copies bytes.
pub fn copy_of(bytes: &Vec<u8>) -> (copy: Vec<u8>)
    ensures
        copy@ == bytes@,
{
    let mut copy: Vec<u8> = Vec::new();
    let mut index: usize = 0;
    while index < bytes.len()
        invariant
            index <= bytes@.len(),
            copy@ == bytes@.subrange(0, index as int),
        decreases bytes@.len() - index,
    {
        copy.push(bytes[index]);
        index = index + 1;
        assert(copy@ =~= bytes@.subrange(0, index as int));
    }
    assert(bytes@.subrange(0, bytes@.len() as int) =~= bytes@);
    copy
}

fn copy_keys(keys: &Vec<Vec<u8>>) -> (copy: Vec<Vec<u8>>)
    ensures
        byte_views(copy@) == byte_views(keys@),
{
    let mut copy: Vec<Vec<u8>> = Vec::new();
    let mut index: usize = 0;
    while index < keys.len()
        invariant
            index <= keys@.len(),
            copy@.len() == index,
            forall|i: int| 0 <= i < index ==> (#[trigger] copy@[i])@ == keys@[i]@,
        decreases keys@.len() - index,
    {
        copy.push(copy_of(&keys[index]));
        index = index + 1;
    }
    assert(byte_views(copy@) =~= byte_views(keys@));
    copy
}

impl Clone for AmbientProjectionCheckpoint {
    fn clone(&self) -> (copy: Self)
        ensures
            copy@ == self@,
    {
        AmbientProjectionCheckpoint {
            record_version: self.record_version,
            outbox: self.outbox.clone(),
            journal_keys: copy_keys(&self.journal_keys),
        }
    }
}

/// The view of an optional checkpoint.
pub open spec fn opt_checkpoint(checkpoint: Option<AmbientProjectionCheckpoint>) -> Option<
    CheckpointView,
> {
    match checkpoint {
        Some(inner) => Some(inner@),
        None => None,
    }
}

/// What a session has said of itself so far.
#[derive(Debug)]
pub struct SessionState {
    /// The current turn: it grows with every assistant message whose id is not that
    /// of the message before.
    pub turn_index: u64,
    pub last_assistant_message_id: Option<String>,
    pub model: Option<String>,
    pub cwd: Option<String>,
    pub git_branch: Option<String>,
}

/// A session's state with its strings taken as text.
pub struct SessionView {
    pub turn_index: u64,
    pub last_assistant_message_id: Option<Seq<char>>,
    pub model: Option<Seq<char>>,
    pub cwd: Option<Seq<char>>,
    pub git_branch: Option<Seq<char>>,
}

impl View for SessionState {
    type V = SessionView;

    open spec fn view(&self) -> SessionView {
        SessionView {
            turn_index: self.turn_index,
            last_assistant_message_id: text::opt_text(self.last_assistant_message_id),
            model: text::opt_text(self.model),
            cwd: text::opt_text(self.cwd),
            git_branch: text::opt_text(self.git_branch),
        }
    }
}

impl Clone for SessionState {
    fn clone(&self) -> (copy: Self)
        ensures
            copy@ == self@,
    {
        SessionState {
            turn_index: self.turn_index,
            last_assistant_message_id: self.last_assistant_message_id.clone(),
            model: self.model.clone(),
            cwd: self.cwd.clone(),
            git_branch: self.git_branch.clone(),
        }
    }
}

/// How far the transcript of a session is ingested, and what of it is journaled.
#[derive(Debug)]
pub struct AmbientCursor {
    pub record_version: u32,
    pub spawn_id: String,
    pub session_id: String,
    pub source_path: String,
    pub offset_bytes: u64,
    pub lines_ingested: u64,
    pub parsed_rows: u64,
    pub invalid_rows: u64,
    pub state: SessionState,
    pub source_epoch_unix_ms: Option<u64>,
    pub fingerprint: SourceFingerprint,
    pub boundary: SourceBoundary,
    /// Whether the agent is registered in the journal.
    pub registered: bool,
    /// The state that was journaled last.
    pub last_emitted_state: Option<String>,
    /// The events that the journal is still owed.
    pub pending_event_outbox: Option<AmbientEventOutbox>,
    /// The events that were acknowledged last.
    pub projection_checkpoint: Option<AmbientProjectionCheckpoint>,
    /// What keeps the session parked until the cursor is cleared.
    pub error: Option<String>,
    pub updated_ts_ns: u64,
}

/// A cursor with its strings taken as text.
pub struct AmbientView {
    pub record_version: u32,
    pub spawn_id: Seq<char>,
    pub session_id: Seq<char>,
    pub source_path: Seq<char>,
    pub offset_bytes: u64,
    pub lines_ingested: u64,
    pub parsed_rows: u64,
    pub invalid_rows: u64,
    pub state: SessionView,
    pub source_epoch_unix_ms: Option<u64>,
    pub fingerprint: FingerprintView,
    pub boundary: BoundaryView,
    pub registered: bool,
    pub last_emitted_state: Option<Seq<char>>,
    pub pending_event_outbox: Option<OutboxView>,
    pub projection_checkpoint: Option<CheckpointView>,
    pub error: Option<Seq<char>>,
    pub updated_ts_ns: u64,
}

impl View for AmbientCursor {
    type V = AmbientView;

    open spec fn view(&self) -> AmbientView {
        AmbientView {
            record_version: self.record_version,
            spawn_id: self.spawn_id@,
            session_id: self.session_id@,
            source_path: self.source_path@,
            offset_bytes: self.offset_bytes,
            lines_ingested: self.lines_ingested,
            parsed_rows: self.parsed_rows,
            invalid_rows: self.invalid_rows,
            state: self.state@,
            source_epoch_unix_ms: self.source_epoch_unix_ms,
            fingerprint: self.fingerprint@,
            boundary: self.boundary@,
            registered: self.registered,
            last_emitted_state: text::opt_text(self.last_emitted_state),
            pending_event_outbox: opt_outbox(self.pending_event_outbox),
            projection_checkpoint: opt_checkpoint(self.projection_checkpoint),
            error: text::opt_text(self.error),
            updated_ts_ns: self.updated_ts_ns,
        }
    }
}

impl Clone for AmbientCursor {
    fn clone(&self) -> (copy: Self)
        ensures
            copy@ == self@,
    {
        AmbientCursor {
            record_version: self.record_version,
            spawn_id: self.spawn_id.clone(),
            session_id: self.session_id.clone(),
            source_path: self.source_path.clone(),
            offset_bytes: self.offset_bytes,
            lines_ingested: self.lines_ingested,
            parsed_rows: self.parsed_rows,
            invalid_rows: self.invalid_rows,
            state: self.state.clone(),
            source_epoch_unix_ms: self.source_epoch_unix_ms,
            fingerprint: self.fingerprint.clone(),
            boundary: self.boundary.clone(),
            registered: self.registered,
            last_emitted_state: self.last_emitted_state.clone(),
            pending_event_outbox: match &self.pending_event_outbox {
                Some(outbox) => Some(outbox.clone()),
                None => None,
            },
            projection_checkpoint: match &self.projection_checkpoint {
                Some(checkpoint) => Some(checkpoint.clone()),
                None => None,
            },
            error: self.error.clone(),
            updated_ts_ns: self.updated_ts_ns,
        }
    }
}

/// The identifier of the agent that runs a session.
pub open spec fn ambient_spawn_id(session_id: Seq<char>, vendor: Seq<char>) -> Seq<char> {
    "agent-spawn-"@ + times::ambient_prefix(vendor) + session_id
}

/// The identifier of the agent that runs a session.
pub fn spawn_id_for_session(session_id: &str, vendor: &str) -> (spawn_id: String)
    ensures
        spawn_id@ == ambient_spawn_id(session_id@, vendor@),
{
    let mut spawn_id = joined("agent-spawn-", ambient_prefix_of(vendor).as_str());
    spawn_id.append(session_id);
    spawn_id
}

/// The key of a session cursor.
pub open spec fn ambient_cursor_key(spawn_id: Seq<char>) -> Seq<char> {
    CURSOR_KV_PREFIX@ + spawn_id
}

/// The key under which the cursor of a discovered agent is stored.
pub fn cursor_kv_key(spawn_id: &str) -> (key: Vec<u8>)
    ensures
        key@ == vstd::utf8::encode_utf8(ambient_cursor_key(spawn_id@)),
{
    let key = joined(CURSOR_KV_PREFIX, spawn_id);
    key.as_bytes_vec()
}

/// The hexadecimal digits.
pub open spec fn is_hex_digit(ch: char) -> bool {
    ||| '0' <= ch <= '9'
    ||| 'a' <= ch <= 'f'
    ||| 'A' <= ch <= 'F'
}

/// The places of the dashes in an identifier of a session.
pub open spec fn is_dash_place(at: int) -> bool {
    at == 8 || at == 13 || at == 18 || at == 23
}

/// Whether a name is the identifier of a session: groups of eight, four, four,
/// four and twelve hexadecimal digits with dashes between them.
pub open spec fn is_session_id(stem: Seq<char>) -> bool {
    &&& stem.len() == 36
    &&& forall|i: int|
        0 <= i < 36 ==> (if is_dash_place(i) {
            #[trigger] stem[i] == '-'
        } else {
            is_hex_digit(stem[i])
        })
}

/// Whether the name of a file is the identifier of a session.
pub fn is_session_stem(stem: &str) -> (accepted: bool)
    ensures
        accepted == is_session_id(stem@),
{
    let chars = chars_of(stem);
    if chars.len() != 36 {
        return false;
    }
    let mut index: usize = 0;
    while index < 36
        invariant
            index <= 36,
            chars@ == stem@,
            chars@.len() == 36,
            forall|i: int|
                0 <= i < index ==> (if is_dash_place(i) {
                    #[trigger] stem@[i] == '-'
                } else {
                    is_hex_digit(stem@[i])
                }),
        decreases 36 - index,
    {
        let ch: char = chars[index];
        let dash_here: bool = index == 8 || index == 13 || index == 18 || index == 23;
        let good: bool = if dash_here {
            ch == '-'
        } else {
            ('0' <= ch && ch <= '9') || ('a' <= ch && ch <= 'f') || ('A' <= ch && ch <= 'F')
        };
        if !good {
            assert(!(if is_dash_place(index as int) {
                stem@[index as int] == '-'
            } else {
                is_hex_digit(stem@[index as int])
            }));
            return false;
        }
        index = index + 1;
    }
    true
}

/// Different sessions have different agents, and those different cursors.
pub proof fn law_sessions_have_their_own_cursors(
    left: Seq<char>,
    right: Seq<char>,
    vendor: Seq<char>,
)
    requires
        ambient_cursor_key(ambient_spawn_id(left, vendor))
            == ambient_cursor_key(ambient_spawn_id(right, vendor)),
    ensures
        left == right,
{
    let outer = CURSOR_KV_PREFIX@.len() as int;
    let inner = ("agent-spawn-"@ + times::ambient_prefix(vendor)).len() as int;
    let a = ambient_cursor_key(ambient_spawn_id(left, vendor));
    let b = ambient_cursor_key(ambient_spawn_id(right, vendor));
    assert(a.skip(outer) =~= ambient_spawn_id(left, vendor));
    assert(b.skip(outer) =~= ambient_spawn_id(right, vendor));
    assert(ambient_spawn_id(left, vendor).skip(inner) =~= left);
    assert(ambient_spawn_id(right, vendor).skip(inner) =~= right);
}

/// The agent of a session has an identifier that every reader of spawns accepts,
/// where the name of the vendor has only letters, digits and dashes of ASCII and is
/// not longer than the identifier has room for.
pub proof fn law_discovered_agents_have_spawn_ids(session_id: Seq<char>, vendor: Seq<char>)
    requires
        is_session_id(session_id),
        forall|i: int| 0 <= i < vendor.len() ==> cursor::is_spawn_char(#[trigger] vendor[i]),
        vendor.len() <= 71,
    ensures
        cursor::spawn_id_refusal(ambient_spawn_id(session_id, vendor)) is None,
{
    reveal_strlit("agent-spawn-");
    reveal_strlit("ambient-");
    reveal_strlit("-");
    let id = ambient_spawn_id(session_id, vendor);
    let before = 20 + vendor.len() as int;
    assert(id.subrange(0, 12) =~= "agent-spawn-"@);
    assert forall|i: int| 0 <= i < id.len() implies cursor::is_spawn_char(#[trigger] id[i]) by {
        if i > before {
            assert(id[i] == session_id[i - before - 1]);
        } else if 20 <= i < before {
            assert(id[i] == vendor[i - 20]);
        }
    }
    assert(id.len() == before + 37);
    assert(vstd::utf8::is_ascii_chars(id)) by {
        assert forall|i: int| 0 <= i < id.len() implies '\0' <= #[trigger] id[i] <= '\u{7f}' by {
            assert(cursor::is_spawn_char(id[i]));
        }
    }
    vstd::utf8::is_ascii_chars_encode_utf8(id);
}

/// The cursor of a session of which nothing is ingested.
pub open spec fn seeded(
    spawn_id: Seq<char>,
    session_id: Seq<char>,
    source_path: Seq<char>,
    now_ns: u64,
) -> AmbientView {
    AmbientView {
        record_version: CURSOR_VERSION,
        spawn_id,
        session_id,
        source_path,
        offset_bytes: 0,
        lines_ingested: 0,
        parsed_rows: 0,
        invalid_rows: 0,
        state: SessionView {
            turn_index: 0,
            last_assistant_message_id: None,
            model: None,
            cwd: None,
            git_branch: None,
        },
        source_epoch_unix_ms: None,
        fingerprint: FingerprintView { bytes: None, sha256: None },
        boundary: BoundaryView { start_offset_bytes: None, bytes: None, sha256: None },
        registered: false,
        last_emitted_state: None,
        pending_event_outbox: None,
        projection_checkpoint: None,
        error: None,
        updated_ts_ns: now_ns,
    }
}

/// Starts the cursor of a session.
pub fn seed_cursor(spawn_id: &str, session_id: &str, source_path: &str, now_ns: u64) -> (cursor:
    AmbientCursor)
    ensures
        cursor@ == seeded(spawn_id@, session_id@, source_path@, now_ns),
{
    AmbientCursor {
        record_version: CURSOR_VERSION,
        spawn_id: spawn_id.to_owned(),
        session_id: session_id.to_owned(),
        source_path: source_path.to_owned(),
        offset_bytes: 0,
        lines_ingested: 0,
        parsed_rows: 0,
        invalid_rows: 0,
        state: SessionState {
            turn_index: 0,
            last_assistant_message_id: None,
            model: None,
            cwd: None,
            git_branch: None,
        },
        source_epoch_unix_ms: None,
        fingerprint: SourceFingerprint { bytes: None, sha256: None },
        boundary: SourceBoundary { start_offset_bytes: None, bytes: None, sha256: None },
        registered: false,
        last_emitted_state: None,
        pending_event_outbox: None,
        projection_checkpoint: None,
        error: None,
        updated_ts_ns: now_ns,
    }
}

/// Parks the session of a cursor: nothing but the error and the time changes.
pub fn stick_cursor_error(cursor: &mut AmbientCursor, detail: String, now_ns: u64)
    ensures
        final(cursor)@ == (AmbientView {
            error: Some(detail@),
            updated_ts_ns: now_ns,
            ..old(cursor)@
        }),
{
    cursor.error = Some(detail);
    cursor.updated_ts_ns = now_ns;
}

} // verus!
