//! The durable cursor of a transcript: how far its source is ingested.
use crate::guarded;
use crate::guarded::{GuardedError, GuardedWrite, RowRead, settle_guarded_write};
use crate::text;
use crate::text::{chars_of, is_blank, joined, starts_with, str_equal};
use crate::transcripts::record::{StreamState, StreamView, TranscriptSource};
use vstd::prelude::*;
use vstd::string::*;

verus! {

/// What the keys of transcript cursors begin with.
pub const CURSOR_KV_PREFIX: &'static str = "agent-transcripts/cursor/";

pub const TRANSCRIPT_CURSOR_VERSION: u32 = 1;

/// The identity of an append-only source: a prefix of fixed length.
#[derive(Debug)]
pub struct SourceFingerprint {
    pub bytes: Option<u64>,
    pub sha256: Option<String>,
}

/// A fingerprint with its digest taken as text.
pub struct FingerprintView {
    pub bytes: Option<u64>,
    pub sha256: Option<Seq<char>>,
}

impl View for SourceFingerprint {
    type V = FingerprintView;

    open spec fn view(&self) -> FingerprintView {
        FingerprintView { bytes: self.bytes, sha256: text::opt_text(self.sha256) }
    }
}

impl Clone for SourceFingerprint {
    fn clone(&self) -> (copy: Self)
        ensures
            copy@ == self@,
    {
        SourceFingerprint { bytes: self.bytes, sha256: self.sha256.clone() }
    }
}

/// The bytes just before the cursor: they prove that the source still is what
/// the cursor has seen of it.
#[derive(Debug)]
pub struct SourceBoundary {
    pub start_offset_bytes: Option<u64>,
    pub bytes: Option<u64>,
    pub sha256: Option<String>,
}

/// A boundary with its digest taken as text.
pub struct BoundaryView {
    pub start_offset_bytes: Option<u64>,
    pub bytes: Option<u64>,
    pub sha256: Option<Seq<char>>,
}

impl View for SourceBoundary {
    type V = BoundaryView;

    open spec fn view(&self) -> BoundaryView {
        BoundaryView {
            start_offset_bytes: self.start_offset_bytes,
            bytes: self.bytes,
            sha256: text::opt_text(self.sha256),
        }
    }
}

impl Clone for SourceBoundary {
    fn clone(&self) -> (copy: Self)
        ensures
            copy@ == self@,
    {
        SourceBoundary {
            start_offset_bytes: self.start_offset_bytes,
            bytes: self.bytes,
            sha256: self.sha256.clone(),
        }
    }
}

/// How far the transcript of one spawn is ingested.
#[derive(Debug)]
pub struct TranscriptCursor {
    pub record_version: u32,
    pub spawn_id: String,
    pub source: TranscriptSource,
    pub source_path: String,
    /// The first byte of the source that is not consumed.
    pub offset_bytes: u64,
    /// The source lines that are ingested, and so the highest line number.
    pub lines_ingested: u64,
    pub parsed_rows: u64,
    pub invalid_rows: u64,
    pub stream: StreamState,
    /// The time of lines that give none themselves.
    pub source_epoch_unix_ms: Option<u64>,
    pub fingerprint: SourceFingerprint,
    pub boundary: SourceBoundary,
    /// Whether the source has ended and all of it is consumed.
    pub source_complete: bool,
    pub completed_reason: Option<String>,
    pub end_state_anchor_outcome: Option<String>,
    pub end_state_anchor_rows: Option<u64>,
    /// What keeps the spawn parked until the cursor is cleared.
    pub error: Option<String>,
    pub updated_ts_ns: u64,
}

/// A cursor with its strings taken as text.
pub struct CursorView {
    pub record_version: u32,
    pub spawn_id: Seq<char>,
    pub source: TranscriptSource,
    pub source_path: Seq<char>,
    pub offset_bytes: u64,
    pub lines_ingested: u64,
    pub parsed_rows: u64,
    pub invalid_rows: u64,
    pub stream: StreamView,
    pub source_epoch_unix_ms: Option<u64>,
    pub fingerprint: FingerprintView,
    pub boundary: BoundaryView,
    pub source_complete: bool,
    pub completed_reason: Option<Seq<char>>,
    pub end_state_anchor_outcome: Option<Seq<char>>,
    pub end_state_anchor_rows: Option<u64>,
    pub error: Option<Seq<char>>,
    pub updated_ts_ns: u64,
}

impl View for TranscriptCursor {
    type V = CursorView;

    open spec fn view(&self) -> CursorView {
        CursorView {
            record_version: self.record_version,
            spawn_id: self.spawn_id@,
            source: self.source,
            source_path: self.source_path@,
            offset_bytes: self.offset_bytes,
            lines_ingested: self.lines_ingested,
            parsed_rows: self.parsed_rows,
            invalid_rows: self.invalid_rows,
            stream: self.stream@,
            source_epoch_unix_ms: self.source_epoch_unix_ms,
            fingerprint: self.fingerprint@,
            boundary: self.boundary@,
            source_complete: self.source_complete,
            completed_reason: text::opt_text(self.completed_reason),
            end_state_anchor_outcome: text::opt_text(self.end_state_anchor_outcome),
            end_state_anchor_rows: self.end_state_anchor_rows,
            error: text::opt_text(self.error),
            updated_ts_ns: self.updated_ts_ns,
        }
    }
}

impl Clone for TranscriptCursor {
    fn clone(&self) -> (copy: Self)
        ensures
            copy@ == self@,
    {
        TranscriptCursor {
            record_version: self.record_version,
            spawn_id: self.spawn_id.clone(),
            source: self.source,
            source_path: self.source_path.clone(),
            offset_bytes: self.offset_bytes,
            lines_ingested: self.lines_ingested,
            parsed_rows: self.parsed_rows,
            invalid_rows: self.invalid_rows,
            stream: self.stream.clone(),
            source_epoch_unix_ms: self.source_epoch_unix_ms,
            fingerprint: self.fingerprint.clone(),
            boundary: self.boundary.clone(),
            source_complete: self.source_complete,
            completed_reason: self.completed_reason.clone(),
            end_state_anchor_outcome: self.end_state_anchor_outcome.clone(),
            end_state_anchor_rows: self.end_state_anchor_rows,
            error: self.error.clone(),
            updated_ts_ns: self.updated_ts_ns,
        }
    }
}

impl CursorView {
    /// Every ingested line is a parsed or an invalid row, and takes at least one
    /// byte of the source.
    pub open spec fn reconciles(self) -> bool {
        &&& self.parsed_rows + self.invalid_rows == self.lines_ingested
        &&& self.lines_ingested <= self.offset_bytes
    }
}

/// The key of a cursor.
pub open spec fn cursor_key_spec(spawn_id: Seq<char>) -> Seq<char> {
    CURSOR_KV_PREFIX@ + spawn_id
}

/// The key under which the cursor of a spawn is stored.
pub fn cursor_kv_key(spawn_id: &str) -> (key: Vec<u8>)
    ensures
        key@ == vstd::utf8::encode_utf8(cursor_key_spec(spawn_id@)),
{
    let key = joined(CURSOR_KV_PREFIX, spawn_id);
    key.as_bytes_vec()
}

/// Cursors of different spawns have different keys.
pub proof fn law_cursor_keys_are_distinct(left: Seq<char>, right: Seq<char>)
    requires
        cursor_key_spec(left) == cursor_key_spec(right),
    ensures
        left == right,
{
    let prefix = CURSOR_KV_PREFIX@;
    assert(left =~= cursor_key_spec(left).skip(prefix.len() as int));
    assert(right =~= cursor_key_spec(right).skip(prefix.len() as int));
}

/// Why a name is not that of a spawn.
#[derive(Clone, Copy, Debug, PartialEq, Eq, Structural)]
pub enum SpawnIdError {
    PrefixMissing,
    TooLong { bytes: usize },
    CharacterInvalid,
}

/// The letters, digits and the dash of ASCII.
pub open spec fn is_spawn_char(ch: char) -> bool {
    ||| 'a' <= ch <= 'z'
    ||| 'A' <= ch <= 'Z'
    ||| '0' <= ch <= '9'
    ||| ch == '-'
}

/// Why a name is not that of a spawn, if it is not.
pub open spec fn spawn_id_refusal(spawn_id: Seq<char>) -> Option<SpawnIdError> {
    let bytes = vstd::utf8::encode_utf8(spawn_id).len();
    if !text::has_prefix(spawn_id, "agent-spawn-"@) {
        Some(SpawnIdError::PrefixMissing)
    } else if bytes > 128 {
        Some(SpawnIdError::TooLong { bytes: bytes as usize })
    } else if exists|i: int| 0 <= i < spawn_id.len() && !is_spawn_char(#[trigger] spawn_id[i]) {
        Some(SpawnIdError::CharacterInvalid)
    } else {
        None
    }
}

/// Accepts the names that spawns have: safe as the name of a directory.
pub fn validate_spawn_id_shape(spawn_id: &str) -> (checked: Result<(), SpawnIdError>)
    ensures
        checked == (match spawn_id_refusal(spawn_id@) {
            Some(error) => Err::<(), SpawnIdError>(error),
            None => Ok(()),
        }),
{
    if !starts_with(spawn_id, "agent-spawn-") {
        return Err(SpawnIdError::PrefixMissing);
    }
    let bytes: usize = spawn_id.as_bytes().len();
    if bytes > 128 {
        return Err(SpawnIdError::TooLong { bytes });
    }
    let chars = chars_of(spawn_id);
    let mut index: usize = 0;
    while index < chars.len()
        invariant
            index <= chars@.len(),
            chars@ == spawn_id@,
            forall|i: int| 0 <= i < index ==> is_spawn_char(#[trigger] spawn_id@[i]),
            text::has_prefix(spawn_id@, "agent-spawn-"@),
            vstd::utf8::encode_utf8(spawn_id@).len() <= 128,
        decreases chars@.len() - index,
    {
        let ch: char = chars[index];
        if !(('a' <= ch && ch <= 'z') || ('A' <= ch && ch <= 'Z') || ('0' <= ch && ch <= '9') || ch
            == '-') {
            assert(!is_spawn_char(spawn_id@[index as int]));
            return Err(SpawnIdError::CharacterInvalid);
        }
        index = index + 1;
    }
    Ok(())
}

/// Why a cursor cannot be loaded or stored.
#[derive(Clone, Copy, Debug, PartialEq, Eq, Structural)]
pub enum CursorError {
    ReadFailed,
    Expired,
    DecodeFailed,
    IdentityInvalid,
    Store(GuardedError),
}

/// What is stored under the key of a cursor.
#[derive(Debug)]
pub enum StoredCursor {
    Failed,
    Absent,
    Expired,
    Undecodable,
    Found { cursor: TranscriptCursor, revision_sha256: [u8; 32] },
}

/// A cursor as it was loaded, and the revision that it had.
#[derive(Debug)]
pub struct LoadedTranscriptCursor {
    pub cursor: Option<TranscriptCursor>,
    pub revision_sha256: Option<[u8; 32]>,
}

/// Whether a cursor is the one that was asked for.
pub open spec fn cursor_is_for(cursor: CursorView, spawn_id: Seq<char>) -> bool {
    &&& cursor.record_version == TRANSCRIPT_CURSOR_VERSION
    &&& cursor.spawn_id == spawn_id
    &&& !text::is_blank_spec(cursor.source_path)
}

/// Loads the cursor of a spawn. A row that is there but cannot be used is an
/// error, never an absent cursor.
pub fn load_cursor(stored: StoredCursor, spawn_id: &str) -> (loaded: Result<
    LoadedTranscriptCursor,
    CursorError,
>)
    ensures
        match stored {
            StoredCursor::Failed => loaded == Err::<LoadedTranscriptCursor, CursorError>(
                CursorError::ReadFailed,
            ),
            StoredCursor::Expired => loaded == Err::<LoadedTranscriptCursor, CursorError>(
                CursorError::Expired,
            ),
            StoredCursor::Undecodable => loaded == Err::<LoadedTranscriptCursor, CursorError>(
                CursorError::DecodeFailed,
            ),
            StoredCursor::Absent => loaded matches Ok(none) && none.cursor is None
                && none.revision_sha256 is None,
            StoredCursor::Found { cursor, revision_sha256 } => if cursor_is_for(
                cursor@,
                spawn_id@,
            ) {
                loaded matches Ok(found) && found.cursor == Some(cursor) && found.revision_sha256
                    == Some(revision_sha256)
            } else {
                loaded == Err::<LoadedTranscriptCursor, CursorError>(CursorError::IdentityInvalid)
            },
        },
{
    match stored {
        StoredCursor::Failed => Err(CursorError::ReadFailed),
        StoredCursor::Expired => Err(CursorError::Expired),
        StoredCursor::Undecodable => Err(CursorError::DecodeFailed),
        StoredCursor::Absent => Ok(LoadedTranscriptCursor { cursor: None, revision_sha256: None }),
        StoredCursor::Found { cursor, revision_sha256 } => {
            if cursor.record_version != TRANSCRIPT_CURSOR_VERSION || !str_equal(
                cursor.spawn_id.as_str(),
                spawn_id,
            ) || is_blank(cursor.source_path.as_str()) {
                Err(CursorError::IdentityInvalid)
            } else {
                Ok(
                    LoadedTranscriptCursor {
                        cursor: Some(cursor),
                        revision_sha256: Some(revision_sha256),
                    },
                )
            }
        },
    }
}

/// Settles the write of a cursor.
pub fn store_cursor(
    expected: &mut Option<[u8; 32]>,
    write: GuardedWrite,
    readback: &RowRead,
    encoded: &[u8],
) -> (stored: Result<(), CursorError>)
    ensures
        match guarded::guarded_refusal(write, *readback, encoded@) {
            None => stored is Ok && *final(expected) == guarded::committed(write),
            Some(error) => stored == Err::<(), CursorError>(CursorError::Store(error))
                && *final(expected) == *old(expected),
        },
{
    match settle_guarded_write(expected, write, readback, encoded) {
        Ok(()) => Ok(()),
        Err(error) => Err(CursorError::Store(error)),
    }
}

/// Parks the spawn of a cursor: nothing but the error and the time changes.
pub fn stick_cursor_error(cursor: &mut TranscriptCursor, detail: String, now_ns: u64)
    ensures
        final(cursor)@ == (CursorView {
            error: Some(detail@),
            updated_ts_ns: now_ns,
            ..old(cursor)@
        }),
{
    cursor.error = Some(detail);
    cursor.updated_ts_ns = now_ns;
}

} // verus!
