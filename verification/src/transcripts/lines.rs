//! One source line, one transcript row.
use crate::digest;
use crate::digest::sha256_hex;
use crate::json;
use crate::json::{Json, read_json};
use crate::text;
use crate::text::{joined, utf8_text};
use crate::transcripts::claude;
use crate::transcripts::claude::parse_claude_object;
use crate::transcripts::codex;
use crate::transcripts::codex::{parse_codex_app_server_object, parse_codex_object};
use crate::transcripts::cursor::{CursorView, TranscriptCursor};
use crate::transcripts::local;
use crate::transcripts::local::parse_local_model_object;
use crate::transcripts::record;
use crate::transcripts::record::{
    BodyView, LineBody, ParseView, RulesView, StreamState, StreamView, TranscriptParseStatus,
    TranscriptRules, TranscriptSource, refuse,
};
use crate::transcripts::times;
use crate::transcripts::times::transcript_source_ts_ns;
use vstd::prelude::*;
use vstd::string::*;
use vstd::utf8::*;

verus! {

/// A transcript row: where its line stands, what the line's bytes are, and what
/// the vocabulary made of it.
#[derive(Debug)]
pub struct AgentTranscriptRecord {
    pub ts_ns: u64,
    pub spawn_id: String,
    pub line_no: u64,
    pub source: TranscriptSource,
    pub raw_line_bytes: u64,
    pub raw_line_sha256: String,
    pub status: TranscriptParseStatus,
    pub parse_error: Option<String>,
    pub conversation_id: Option<String>,
    pub model: Option<String>,
    pub turn_index: Option<u64>,
    pub body: Option<LineBody>,
}

/// A row with its strings taken as text.
pub struct RecordView {
    pub ts_ns: u64,
    pub spawn_id: Seq<char>,
    pub line_no: u64,
    pub source: TranscriptSource,
    pub raw_line_bytes: u64,
    pub raw_line_sha256: Seq<char>,
    pub status: TranscriptParseStatus,
    pub parse_error: Option<Seq<char>>,
    pub conversation_id: Option<Seq<char>>,
    pub model: Option<Seq<char>>,
    pub turn_index: Option<u64>,
    pub body: Option<BodyView>,
}

/// The view of an optional body.
pub open spec fn opt_body(body: Option<LineBody>) -> Option<BodyView> {
    match body {
        Some(inner) => Some(inner@),
        None => None,
    }
}

impl View for AgentTranscriptRecord {
    type V = RecordView;

    open spec fn view(&self) -> RecordView {
        RecordView {
            ts_ns: self.ts_ns,
            spawn_id: self.spawn_id@,
            line_no: self.line_no,
            source: self.source,
            raw_line_bytes: self.raw_line_bytes,
            raw_line_sha256: self.raw_line_sha256@,
            status: self.status,
            parse_error: text::opt_text(self.parse_error),
            conversation_id: text::opt_text(self.conversation_id),
            model: text::opt_text(self.model),
            turn_index: self.turn_index,
            body: opt_body(self.body),
        }
    }
}

/// The row of a line of which nothing but the bytes is known.
pub open spec fn bare_record(
    raw_line: Seq<u8>,
    line_no: u64,
    spawn_id: Seq<char>,
    source: TranscriptSource,
    source_epoch_unix_ms: Option<u64>,
    vendor: Seq<char>,
) -> RecordView {
    RecordView {
        ts_ns: times::source_ts_ns(None, spawn_id, line_no as int, source_epoch_unix_ms, vendor),
        spawn_id,
        line_no,
        source,
        raw_line_bytes: raw_line.len() as u64,
        raw_line_sha256: digest::sha256_text(raw_line),
        status: TranscriptParseStatus::Parsed,
        parse_error: None,
        conversation_id: None,
        model: None,
        turn_index: None,
        body: None,
    }
}

impl AgentTranscriptRecord {
    /// The row of a line of which nothing but the bytes is known.
    pub fn bare(
        raw_line: &[u8],
        line_no: u64,
        spawn_id: &str,
        source: TranscriptSource,
        source_epoch_unix_ms: Option<u64>,
        vendor: &str,
    ) -> (record: Self)
        ensures
            record@ == bare_record(
                raw_line@,
                line_no,
                spawn_id@,
                source,
                source_epoch_unix_ms,
                vendor@,
            ),
    {
        AgentTranscriptRecord {
            ts_ns: transcript_source_ts_ns(None, spawn_id, line_no, source_epoch_unix_ms, vendor),
            spawn_id: spawn_id.to_owned(),
            line_no,
            source,
            raw_line_bytes: raw_line.len() as u64,
            raw_line_sha256: sha256_hex(raw_line),
            status: TranscriptParseStatus::Parsed,
            parse_error: None,
            conversation_id: None,
            model: None,
            turn_index: None,
            body: None,
        }
    }

    /// Marks the row as one that the vocabulary could not place.
    pub fn refuse(&mut self, refusal: String)
        ensures
            final(self)@ == invalid_record(old(self)@, refusal@),
    {
        self.status = TranscriptParseStatus::Invalid;
        self.parse_error = Some(refusal);
        self.body = None;
    }
}

/// A row that the vocabulary could not place: the reason, and no body.
pub open spec fn invalid_record(record: RecordView, refusal: Seq<char>) -> RecordView {
    RecordView {
        status: TranscriptParseStatus::Invalid,
        parse_error: Some(refusal),
        body: None,
        ..record
    }
}

/// What the vocabulary of a source says of a line, and the stream after it.
pub open spec fn vocabulary(
    source: TranscriptSource,
    object: Json,
    stream: StreamView,
    rules: RulesView,
) -> (StreamView, ParseView) {
    match source {
        TranscriptSource::ClaudeStreamJson => claude::claude_parse(object, stream, rules),
        TranscriptSource::CodexExecJson => codex::codex_parse(object, stream, rules),
        TranscriptSource::CodexAppServerJsonRpc => codex::app_server_parse(object, stream, rules),
        TranscriptSource::LocalModelJson => local::local_parse(object, stream, rules),
        TranscriptSource::ClaudeSessionJsonl => (
            stream,
            record::refused(
                "CLAUDE_SESSION_JSONL_MISROUTED: ambient session transcripts are tailed by ambient_agents, not the spawn-dir ingester"@,
            ),
        ),
    }
}

/// The row of a line that was read as an object. A refused line keeps the model
/// and the turn that it names itself; an accepted one takes the rest from the
/// stream.
pub open spec fn placed_record(
    record: RecordView,
    object: Json,
    source_epoch_unix_ms: Option<u64>,
    stream: StreamView,
    parse: ParseView,
    vendor: Seq<char>,
) -> RecordView {
    let timed = RecordView {
        ts_ns: times::source_ts_ns(
            Some(object),
            record.spawn_id,
            record.line_no as int,
            source_epoch_unix_ms,
            vendor,
        ),
        model: parse.model,
        turn_index: parse.turn_index,
        ..record
    };
    match parse.outcome {
        Err(refusal) => invalid_record(timed, refusal),
        Ok(body) => RecordView {
            conversation_id: stream.conversation_id,
            model: if parse.model is Some {
                parse.model
            } else {
                stream.model
            },
            turn_index: if stream.turn_index > 0 {
                Some(stream.turn_index)
            } else {
                parse.turn_index
            },
            body: Some(body),
            ..timed
        },
    }
}

/// The row of a line whose text was read as JSON, and the stream after it.
pub open spec fn record_of_reading(
    record: RecordView,
    reading: Result<Json, Seq<char>>,
    source_epoch_unix_ms: Option<u64>,
    stream: StreamView,
    rules: RulesView,
) -> (StreamView, RecordView) {
    match reading {
        Err(refusal) => (stream, invalid_record(record, "LINE_NOT_JSON: "@ + refusal)),
        Ok(value) => if value is Object {
            let (after, parse) = vocabulary(record.source, value, stream, rules);
            (after, placed_record(record, value, source_epoch_unix_ms, after, parse, rules.vendor))
        } else {
            (stream, invalid_record(record, "LINE_NOT_JSON_OBJECT"@))
        },
    }
}

/// The row of a line, and the stream after it.
pub open spec fn record_of_line(
    raw_line: Seq<u8>,
    line_no: u64,
    spawn_id: Seq<char>,
    source: TranscriptSource,
    source_epoch_unix_ms: Option<u64>,
    stream: StreamView,
    rules: RulesView,
) -> (StreamView, RecordView) {
    let record = bare_record(
        raw_line,
        line_no,
        spawn_id,
        source,
        source_epoch_unix_ms,
        rules.vendor,
    );
    if valid_utf8(raw_line) {
        record_of_reading(
            record,
            json::json_reading(decode_utf8(raw_line)),
            source_epoch_unix_ms,
            stream,
            rules,
        )
    } else {
        (stream, invalid_record(record, "LINE_NOT_UTF8: "@ + text::utf8_refusal(raw_line)))
    }
}

/// Whether a line may be read: only the runner of local models numbers its turns
/// itself, all others are counted.
pub open spec fn can_count(source: TranscriptSource, stream: StreamView) -> bool {
    source == TranscriptSource::LocalModelJson || source == TranscriptSource::ClaudeSessionJsonl
        || stream.turn_index < u64::MAX
}

/// Makes the row of a line from the reading of its text.
pub fn place_reading(
    record: AgentTranscriptRecord,
    reading: Result<Json, String>,
    source_epoch_unix_ms: Option<u64>,
    stream: &mut StreamState,
    rules: &TranscriptRules,
) -> (placed: AgentTranscriptRecord)
    requires
        can_count(record@.source, old(stream)@),
    ensures
        (final(stream)@, placed@) == record_of_reading(
            record@,
            json::reading_of(reading),
            source_epoch_unix_ms,
            old(stream)@,
            rules@,
        ),
{
    let mut record = record;
    let value = match reading {
        Ok(value) => value,
        Err(refusal) => {
            record.refuse(joined("LINE_NOT_JSON: ", refusal.as_str()));
            return record;
        },
    };
    match &value {
        Json::Object(_) => {},
        _ => {
            record.refuse("LINE_NOT_JSON_OBJECT".to_owned());
            return record;
        },
    }
    record.ts_ns = transcript_source_ts_ns(
        Some(&value),
        record.spawn_id.as_str(),
        record.line_no,
        source_epoch_unix_ms,
        rules.vendor.as_str(),
    );
    let parse = match record.source {
        TranscriptSource::ClaudeStreamJson => parse_claude_object(&value, stream, rules),
        TranscriptSource::CodexExecJson => parse_codex_object(&value, stream, rules),
        TranscriptSource::CodexAppServerJsonRpc => parse_codex_app_server_object(
            &value,
            stream,
            rules,
        ),
        TranscriptSource::LocalModelJson => parse_local_model_object(&value, stream, rules),
        TranscriptSource::ClaudeSessionJsonl => refuse(
            "CLAUDE_SESSION_JSONL_MISROUTED: ambient session transcripts are tailed by ambient_agents, not the spawn-dir ingester",
        ),
    };
    record.model = parse.model;
    record.turn_index = parse.turn_index;
    match parse.outcome {
        Err(refusal) => {
            record.refuse(refusal);
        },
        Ok(body) => {
            record.conversation_id = stream.conversation_id.clone();
            if record.model.is_none() {
                record.model = stream.model.clone();
            }
            if stream.turn_index > 0 {
                record.turn_index = Some(stream.turn_index);
            }
            record.body = Some(body);
        },
    }
    record
}

/// Makes the row of one source line. A line that the vocabulary cannot place
/// still gives a row, which carries the reason.
pub fn parse_line(
    raw_line: &[u8],
    line_no: u64,
    cursor: &mut TranscriptCursor,
    rules: &TranscriptRules,
) -> (record: AgentTranscriptRecord)
    requires
        can_count(old(cursor)@.source, old(cursor)@.stream),
    ensures
        ({
            let (stream, row) = record_of_line(
                raw_line@,
                line_no,
                old(cursor)@.spawn_id,
                old(cursor)@.source,
                old(cursor)@.source_epoch_unix_ms,
                old(cursor)@.stream,
                rules@,
            );
            &&& record@ == row
            &&& final(cursor)@ == (CursorView { stream, ..old(cursor)@ })
        }),
{
    let mut record = AgentTranscriptRecord::bare(
        raw_line,
        line_no,
        cursor.spawn_id.as_str(),
        cursor.source,
        cursor.source_epoch_unix_ms,
        rules.vendor.as_str(),
    );
    match utf8_text(raw_line) {
        Err(refusal) => {
            record.refuse(joined("LINE_NOT_UTF8: ", refusal.as_str()));
            record
        },
        Ok(text) => {
            proof {
                encode_utf8_decode_utf8(text@);
            }
            place_reading(
                record,
                read_json(text),
                cursor.source_epoch_unix_ms,
                &mut cursor.stream,
                rules,
            )
        },
    }
}

/// Every line gives exactly one row, under the number and with the digest of the
/// line; the row is either parsed and has a body, or invalid and has a reason
/// and no body.
pub proof fn law_every_line_has_its_row(
    raw_line: Seq<u8>,
    line_no: u64,
    spawn_id: Seq<char>,
    source: TranscriptSource,
    source_epoch_unix_ms: Option<u64>,
    stream: StreamView,
    rules: RulesView,
)
    ensures
        ({
            let row = record_of_line(
                raw_line,
                line_no,
                spawn_id,
                source,
                source_epoch_unix_ms,
                stream,
                rules,
            ).1;
            &&& row.line_no == line_no
            &&& row.spawn_id == spawn_id
            &&& row.source == source
            &&& row.raw_line_sha256 == digest::sha256_text(raw_line)
            &&& row.raw_line_bytes == raw_line.len() as u64
            &&& row.status == TranscriptParseStatus::Parsed <==> row.body is Some
            &&& row.status == TranscriptParseStatus::Parsed <==> row.parse_error is None
        }),
{
}

/// A line that is not text, not JSON or not an object leaves the stream alone.
pub proof fn law_unreadable_lines_leave_the_stream(
    raw_line: Seq<u8>,
    line_no: u64,
    spawn_id: Seq<char>,
    source: TranscriptSource,
    source_epoch_unix_ms: Option<u64>,
    stream: StreamView,
    rules: RulesView,
)
    requires
        !valid_utf8(raw_line) || !(json::json_reading(decode_utf8(raw_line)) matches Ok(value)
            && value is Object),
    ensures
        record_of_line(
            raw_line,
            line_no,
            spawn_id,
            source,
            source_epoch_unix_ms,
            stream,
            rules,
        ).0 == stream,
{
}

/// A line never turns the count of turns back, and counts at most one, but for
/// the runner of local models, which numbers its turns itself.
pub proof fn law_turns_are_counted(
    raw_line: Seq<u8>,
    line_no: u64,
    spawn_id: Seq<char>,
    source: TranscriptSource,
    source_epoch_unix_ms: Option<u64>,
    stream: StreamView,
    rules: RulesView,
)
    requires
        source != TranscriptSource::LocalModelJson,
        stream.turn_index < u64::MAX,
    ensures
        ({
            let after = record_of_line(
                raw_line,
                line_no,
                spawn_id,
                source,
                source_epoch_unix_ms,
                stream,
                rules,
            ).0;
            stream.turn_index <= after.turn_index <= stream.turn_index + 1
        }),
{
}

} // verus!
