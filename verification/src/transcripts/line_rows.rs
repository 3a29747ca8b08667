//! What the row of any line says beside its body: status, place and time.
use crate::digest;
use crate::json;
use crate::json::{Json, JsonNumber};
use crate::text;
use crate::transcripts::claude;
use crate::transcripts::codex;
use crate::transcripts::lines;
use crate::transcripts::lines::AgentTranscriptRecord;
use crate::transcripts::local;
use crate::transcripts::record::{
    BodyView, ParseView, RulesView, StreamView, TranscriptParseStatus, TranscriptSource,
};
use crate::transcripts::times;
use crate::transcripts::times::StampKind;
use vstd::prelude::*;
use vstd::string::*;
use vstd::utf8::*;

verus! {

/// The view of a row shows every field under its own name.
pub proof fn law_row_views_show_their_fields(row: AgentTranscriptRecord)
    ensures
        row@.ts_ns == row.ts_ns,
        row@.spawn_id == row.spawn_id@,
        row@.line_no == row.line_no,
        row@.source == row.source,
        row@.raw_line_bytes == row.raw_line_bytes,
        row@.raw_line_sha256 == row.raw_line_sha256@,
        row@.status == row.status,
        row.parse_error is None ==> row@.parse_error is None,
        row.parse_error is Some ==> row@.parse_error == Some(row.parse_error->0@),
        row.conversation_id is None ==> row@.conversation_id is None,
        row.conversation_id is Some ==> row@.conversation_id == Some(row.conversation_id->0@),
        row.model is None ==> row@.model is None,
        row.model is Some ==> row@.model == Some(row.model->0@),
        row@.turn_index == row.turn_index,
        row.body is None ==> row@.body is None,
        row.body is Some ==> row@.body == Some(row.body->0@),
{
}

/// What the vocabulary of a source makes of an object: the stream after it and the parse.
pub open spec fn reads_with_its_vocabulary(
    source: TranscriptSource,
    object: Json,
    stream: StreamView,
    rules: RulesView,
    after: StreamView,
    parse: ParseView,
) -> bool {
    match source {
        TranscriptSource::ClaudeStreamJson => (after, parse) == claude::claude_parse(
            object,
            stream,
            rules,
        ),
        TranscriptSource::CodexExecJson => (after, parse) == codex::codex_parse(
            object,
            stream,
            rules,
        ),
        TranscriptSource::CodexAppServerJsonRpc => (after, parse) == codex::app_server_parse(
            object,
            stream,
            rules,
        ),
        TranscriptSource::LocalModelJson => (after, parse) == local::local_parse(
            object,
            stream,
            rules,
        ),
        TranscriptSource::ClaudeSessionJsonl => after == stream && parse.model is None
            && parse.turn_index is None && parse.outcome == Err::<BodyView, Seq<char>>(
            "CLAUDE_SESSION_JSONL_MISROUTED: ambient session transcripts are tailed by ambient_agents, not the spawn-dir ingester"@,
        ),
    }
}

/// The row of a line that holds an object is read with the vocabulary of its source. Where
/// that takes the object, the row is parsed, has the body and the conversation of the stream,
/// the model of the line or else that of the stream, and the turn of the stream or else that
/// of the line. Where it refuses the object, the row is invalid, for that reason and without a
/// body, and only the line's own model and turn are known.
pub proof fn law_rows_follow_their_vocabulary(
    raw_line: Seq<u8>,
    line_no: u64,
    spawn_id: Seq<char>,
    source: TranscriptSource,
    source_epoch_unix_ms: Option<u64>,
    stream: StreamView,
    rules: RulesView,
    object: Json,
    after: StreamView,
    parse: ParseView,
)
    requires
        valid_utf8(raw_line),
        json::json_reading(decode_utf8(raw_line)) == Ok::<Json, Seq<char>>(object),
        object is Object,
        reads_with_its_vocabulary(source, object, stream, rules, after, parse),
    ensures
        ({
            let row = lines::record_of_line(
                raw_line,
                line_no,
                spawn_id,
                source,
                source_epoch_unix_ms,
                stream,
                rules,
            ).1;
            &&& lines::record_of_line(
                raw_line,
                line_no,
                spawn_id,
                source,
                source_epoch_unix_ms,
                stream,
                rules,
            ).0 == after
            &&& row.line_no == line_no
            &&& row.spawn_id == spawn_id
            &&& row.source == source
            &&& row.raw_line_bytes == raw_line.len() as u64
            &&& row.raw_line_sha256 == digest::hex_text(digest::sha256_digest(raw_line))
            &&& row.ts_ns == times::source_ts_ns(
                Some(object),
                spawn_id,
                line_no as int,
                source_epoch_unix_ms,
                rules.vendor,
            )
            &&& parse.outcome matches Ok(body) ==> {
                &&& row.status == TranscriptParseStatus::Parsed
                &&& row.parse_error is None
                &&& row.body == Some(body)
                &&& row.conversation_id == after.conversation_id
                &&& parse.model is Some ==> row.model == parse.model
                &&& parse.model is None ==> row.model == after.model
                &&& after.turn_index > 0 ==> row.turn_index == Some(after.turn_index)
                &&& after.turn_index == 0 ==> row.turn_index == parse.turn_index
            }
            &&& parse.outcome matches Err(refusal) ==> {
                &&& row.status == TranscriptParseStatus::Invalid
                &&& row.parse_error == Some(refusal)
                &&& row.body is None
                &&& row.conversation_id is None
                &&& row.model == parse.model
                &&& row.turn_index == parse.turn_index
            }
        }),
{
}

/// A line that is no UTF-8, no JSON or no object has an invalid row that says which of these
/// it is; its time is that of its source.
pub proof fn law_unreadable_lines_have_invalid_rows(
    raw_line: Seq<u8>,
    line_no: u64,
    spawn_id: Seq<char>,
    source: TranscriptSource,
    source_epoch_unix_ms: Option<u64>,
    stream: StreamView,
    rules: RulesView,
)
    ensures
        ({
            let row = lines::record_of_line(
                raw_line,
                line_no,
                spawn_id,
                source,
                source_epoch_unix_ms,
                stream,
                rules,
            ).1;
            let reading = json::json_reading(decode_utf8(raw_line));
            &&& !valid_utf8(raw_line) ==> row.parse_error == Some(
                "LINE_NOT_UTF8: "@ + text::utf8_refusal(raw_line),
            )
            &&& valid_utf8(raw_line) && reading is Err ==> row.parse_error == Some(
                "LINE_NOT_JSON: "@ + reading->Err_0,
            )
            &&& valid_utf8(raw_line) && reading is Ok && reading->Ok_0 !is Object
                ==> row.parse_error == Some("LINE_NOT_JSON_OBJECT"@)
            &&& !valid_utf8(raw_line) || reading is Err || reading->Ok_0 !is Object ==> {
                &&& row.status == TranscriptParseStatus::Invalid
                &&& row.body is None
                &&& row.conversation_id is None
                &&& row.model is None
                &&& row.turn_index is None
                &&& row.ts_ns == times::stable_ts_ns(
                    spawn_id,
                    line_no as int,
                    source_epoch_unix_ms,
                    rules.vendor,
                )
            }
        }),
{
}

/// The time of a line is its milliseconds in nanoseconds and, behind them, its number within
/// a million lines; it stops at the greatest time that fits.
pub proof fn law_line_times_are_their_milliseconds(ts_ms: u64, line_no: u64)
    ensures
        ts_ms * 1_000_000 + line_no % 1_000_000 <= 0xffff_ffff_ffff_ffff ==> times::line_ts_ns(
            ts_ms as int,
            line_no as int,
        ) == ts_ms * 1_000_000 + line_no % 1_000_000,
        ts_ms * 1_000_000 + line_no % 1_000_000 > 0xffff_ffff_ffff_ffff ==> times::line_ts_ns(
            ts_ms as int,
            line_no as int,
        ) == 0xffff_ffff_ffff_ffff,
{
}

/// The time of an object is what it says itself: its first stamp in nanoseconds; without one,
/// its first in milliseconds, by date or by identifier, in that order, and the number of the
/// line; without any, the time of its source.
pub proof fn law_stamps_are_tried_in_order(
    object: Json,
    source_id: Seq<char>,
    line_no: u64,
    source_epoch_unix_ms: Option<u64>,
    vendor: Seq<char>,
)
    ensures
        ({
            let ts_ns = times::source_ts_ns(
                Some(object),
                source_id,
                line_no as int,
                source_epoch_unix_ms,
                vendor,
            );
            let nanoseconds = times::first_stamp(StampKind::Nanoseconds, object, vendor);
            let milliseconds = times::first_stamp(StampKind::Milliseconds, object, vendor);
            let date = times::first_stamp(StampKind::Rfc3339, object, vendor);
            let identifier = times::first_stamp(StampKind::UuidV7, object, vendor);
            &&& nanoseconds is Some ==> ts_ns == nanoseconds->0
            &&& nanoseconds is None && milliseconds is Some ==> ts_ns == times::line_ts_ns(
                milliseconds->0 as int,
                line_no as int,
            )
            &&& nanoseconds is None && milliseconds is None && date is Some ==> ts_ns
                == times::line_ts_ns(date->0 as int, line_no as int)
            &&& nanoseconds is None && milliseconds is None && date is None && identifier is Some
                ==> ts_ns == times::line_ts_ns(identifier->0 as int, line_no as int)
            &&& nanoseconds is None && milliseconds is None && date is None && identifier is None
                ==> ts_ns == times::source_ts_ns(
                None,
                source_id,
                line_no as int,
                source_epoch_unix_ms,
                vendor,
            )
        }),
{
}

/// The time of a source is its epoch, else the time in its own name, else one that its name
/// alone determines.
pub proof fn law_sources_have_a_time(
    source_id: Seq<char>,
    line_no: u64,
    source_epoch_unix_ms: Option<u64>,
    vendor: Seq<char>,
)
    ensures
        ({
            let ts_ns = times::source_ts_ns(
                None,
                source_id,
                line_no as int,
                source_epoch_unix_ms,
                vendor,
            );
            let named = times::uuid_v7_ms(source_id, vendor);
            &&& source_epoch_unix_ms is Some ==> ts_ns == times::line_ts_ns(
                source_epoch_unix_ms->0 as int,
                line_no as int,
            )
            &&& source_epoch_unix_ms is None && named is Some ==> ts_ns == times::line_ts_ns(
                named->0 as int,
                line_no as int,
            )
            &&& source_epoch_unix_ms is None && named is None ==> ts_ns == times::line_ts_ns(
                times::stable_epoch_ms(source_id) as int,
                line_no as int,
            )
        }),
{
}

/// The stand-in time of a source lies in the twenty years from September 2020 on: the first
/// eight bytes of the digest of its name, as a number with the highest byte first, say where.
pub proof fn law_stand_in_times_come_from_the_name(source_id: Seq<char>)
    ensures
        ({
            let span = 20 * 365 * 24 * 60 * 60 * 1_000int;
            let number = times::big_endian(
                digest::sha256_digest(encode_utf8(source_id)).subrange(0, 8),
            );
            &&& 1_600_000_000_000 <= times::stable_epoch_ms(source_id)
            &&& times::stable_epoch_ms(source_id) < 1_600_000_000_000 + span
            &&& times::stable_epoch_ms(source_id) == 1_600_000_000_000 + number % span
        }),
{
    let span = 20 * 365 * 24 * 60 * 60 * 1_000int;
    let number = times::big_endian(digest::sha256_digest(encode_utf8(source_id)).subrange(0, 8));
    assert(span == 630_720_000_000);
    assert(times::STABLE_TS_SPAN_MS == 630_720_000_000);
    assert(0 <= number % span < span);
}

/// Bytes are a number with the highest first: one byte more is the number before it two
/// hundred and fifty-six times over, and the byte.
pub proof fn law_bytes_are_digits(bytes: Seq<u8>, byte: u8)
    ensures
        times::big_endian(Seq::<u8>::empty()) == 0,
        times::big_endian(bytes.push(byte)) == times::big_endian(bytes) * 256 + byte,
{
    assert(bytes.push(byte).drop_last() =~= bytes);
}

/// Hexadecimal digits are a number with the highest first, whether lowercase or uppercase.
pub proof fn law_hex_digits_are_a_number(digits: Seq<char>, value: int)
    requires
        0 <= value < 16,
    ensures
        times::hex_number(Seq::<char>::empty()) == 0,
        times::hex_number(digits.push("0123456789abcdef"@[value])) == times::hex_number(digits) * 16
            + value,
        times::hex_number(digits.push("0123456789ABCDEF"@[value])) == times::hex_number(digits) * 16
            + value,
        times::is_hex("0123456789abcdef"@[value]),
        times::is_hex("0123456789ABCDEF"@[value]),
{
    reveal_strlit("0123456789abcdef");
    reveal_strlit("0123456789ABCDEF");
    let lower = "0123456789abcdef"@[value];
    let upper = "0123456789ABCDEF"@[value];
    assert(digits.push(lower).drop_last() =~= digits);
    assert(digits.push(upper).drop_last() =~= digits);
}

proof fn lemma_without_dashes(value: Seq<char>)
    ensures
        times::without_dashes(value) == value.filter(|ch: char| ch != '-'),
    decreases value.len(),
{
    reveal(Seq::filter);
    if value.len() > 0 {
        lemma_without_dashes(value.drop_last());
    }
}

/// An identifier holds a time exactly where, without white space around it, the prefixes of
/// agents, discovered agents and messages before it, and its hyphens, its first thirty-two
/// characters are thirteen hexadecimal digits or more of which the thirteenth is a `7`; the
/// first twelve are the time.
pub proof fn law_identifiers_hold_their_time(
    value: Seq<char>,
    vendor: Seq<char>,
    digits: Seq<char>,
)
    requires
        digits == times::bare_identifier(value, vendor).filter(|ch: char| ch != '-'),
    ensures
        times::uuid_v7_ms(value, vendor) is Some <==> digits.len() >= 13 && digits[12] == '7' && (
        forall|i: int| 0 <= i < digits.len() && i < 32 ==> times::is_hex(#[trigger] digits[i])),
        times::uuid_v7_ms(value, vendor) is Some ==> times::uuid_v7_ms(value, vendor) == Some(
            times::hex_number(digits.subrange(0, 12)) as u64,
        ),
{
    lemma_without_dashes(times::bare_identifier(value, vendor));
    let front = text::bounded_spec(digits, 32);
    assert(times::uuid_v7_ms(value, vendor) is Some <==> front.len() >= 13 && (forall|i: int|
        0 <= i < front.len() ==> times::is_hex(#[trigger] front[i])) && front[12] == '7');
    if digits.len() >= 13 {
        assert(front.subrange(0, 12) =~= digits.subrange(0, 12));
        if forall|i: int| 0 <= i < front.len() ==> times::is_hex(#[trigger] front[i]) {
            assert forall|i: int| 0 <= i < digits.len() && i < 32 implies times::is_hex(
                #[trigger] digits[i],
            ) by {
                assert(times::is_hex(front[i]));
            }
        }
        if forall|i: int| 0 <= i < digits.len() && i < 32 ==> times::is_hex(#[trigger] digits[i]) {
            assert forall|i: int| 0 <= i < front.len() implies times::is_hex(
                #[trigger] front[i],
            ) by {
                assert(times::is_hex(digits[i]));
            }
        }
    }
}

/// A prefix that is there comes off, and one that is not leaves the text.
pub proof fn law_prefixes_come_off(prefix: Seq<char>, rest: Seq<char>, value: Seq<char>)
    ensures
        times::without_prefix(prefix + rest, prefix) == rest,
        !text::has_prefix(value, prefix) ==> times::without_prefix(value, prefix) == value,
{
    assert((prefix + rest).subrange(0, prefix.len() as int) =~= prefix);
    assert((prefix + rest).subrange(prefix.len() as int, (prefix + rest).len() as int) =~= rest);
}

/// The prefixes of an identifier come off in their order: an agent's, a discovered agent's
/// of the vendor, a message's.
pub proof fn law_identifier_prefixes_come_off_in_order(value: Seq<char>, vendor: Seq<char>)
    ensures
        ({
            let trimmed = text::trim_spec(value);
            let first = times::without_prefix(trimmed, "agent-spawn-"@);
            let second = times::without_prefix(first, "ambient-"@ + vendor + "-"@);
            times::bare_identifier(value, vendor) == times::without_prefix(second, "msg_"@)
        }),
{
}

/// A stamp in nanoseconds or milliseconds is an unsigned number, or a string that is one
/// between white space; a stamp by date is a string with a date from 1970 on; a stamp by
/// identifier is a string that holds a time. Nothing else is a stamp.
pub proof fn law_stamps_have_their_form(kind: StampKind, value: Json, vendor: Seq<char>)
    ensures
        kind == StampKind::Nanoseconds || kind == StampKind::Milliseconds ==> {
            &&& value matches Json::Number(JsonNumber::Unsigned(number)) ==> times::stamp_value(
                kind,
                value,
                vendor,
            ) == Some(number)
            &&& value matches Json::Str(content) ==> times::stamp_value(kind, value, vendor)
                == text::u64_reading(text::trim_spec(content@))
            &&& !(value matches Json::Number(JsonNumber::Unsigned(_))) && value !is Str
                ==> times::stamp_value(kind, value, vendor) is None
        },
        kind == StampKind::Rfc3339 ==> {
            &&& value matches Json::Str(content) ==> match times::rfc3339_millis(content@) {
                Some(millis) => if millis >= 0 {
                    times::stamp_value(kind, value, vendor) == Some(millis as u64)
                } else {
                    times::stamp_value(kind, value, vendor) is None
                },
                None => times::stamp_value(kind, value, vendor) is None,
            }
            &&& value !is Str ==> times::stamp_value(kind, value, vendor) is None
        },
        kind == StampKind::UuidV7 ==> {
            &&& value matches Json::Str(content) ==> times::stamp_value(kind, value, vendor)
                == times::uuid_v7_ms(content@, vendor)
            &&& value !is Str ==> times::stamp_value(kind, value, vendor) is None
        },
{
}

/// The fields that hold a stamp of each kind.
pub proof fn law_stamp_fields_are_known(kind: StampKind, field: Seq<char>)
    ensures
        times::stamp_fields(kind).contains(field) <==> match kind {
            StampKind::Nanoseconds => field == "ts_ns"@ || field == "timestamp_ns"@ || field
                == "timestampUnixNs"@ || field == "timestamp_unix_ns"@ || field
                == "created_unix_ns"@ || field == "createdAtNs"@ || field == "startedAtNs"@ || field
                == "completedAtNs"@ || field == "updatedAtNs"@,
            StampKind::Milliseconds => field == "ts_unix_ms"@ || field == "timestamp_ms"@ || field
                == "timestampUnixMs"@ || field == "timestamp_unix_ms"@ || field
                == "created_unix_ms"@ || field == "createdAtMs"@ || field == "startedAtMs"@ || field
                == "completedAtMs"@ || field == "updatedAtMs"@,
            StampKind::Rfc3339 => field == "timestamp"@ || field == "created_at"@ || field
                == "createdAt"@ || field == "startedAt"@ || field == "completedAt"@ || field
                == "updatedAt"@ || field == "time"@,
            StampKind::UuidV7 => field == "id"@ || field == "threadId"@ || field == "thread_id"@
                || field == "turnId"@ || field == "turn_id"@ || field == "itemId"@ || field
                == "item_id"@ || field == "message_id"@ || field == "sessionId"@ || field
                == "session_id"@ || field == "spawn_id"@ || field == "spawnId"@,
        },
{
    let fields = times::stamp_fields(kind);
    if !fields.contains(field) {
        assert(forall|i: int| 0 <= i < fields.len() ==> fields[i] != field);
        if fields.len() > 0 {
            assert(fields[0] != field);
            assert(fields[1] != field);
            assert(fields[2] != field);
            assert(fields[3] != field);
            assert(fields[4] != field);
            assert(fields[5] != field);
            assert(fields[6] != field);
        }
        if kind == StampKind::Nanoseconds || kind == StampKind::Milliseconds || kind
            == StampKind::UuidV7 {
            assert(fields[7] != field);
            assert(fields[8] != field);
        }
        if kind == StampKind::UuidV7 {
            assert(fields[9] != field);
            assert(fields[10] != field);
            assert(fields[11] != field);
        }
    }
}

/// The first stamp of an object is that of its first entry if the entry's field holds one,
/// else the first stamp within the entry's value, else the first of the entries behind it; of
/// a list, the first within its items in their order; of anything else there is none.
pub proof fn law_first_stamps_are_found_in_order(
    kind: StampKind,
    value: Json,
    entries: Seq<(String, Json)>,
    items: Seq<Json>,
    vendor: Seq<char>,
)
    ensures
        value matches Json::Object(held) ==> times::first_stamp(kind, value, vendor)
            == times::first_stamp_in_entries(kind, held@, vendor),
        value matches Json::Array(held) ==> times::first_stamp(kind, value, vendor)
            == times::first_stamp_in_items(kind, held@, vendor),
        value !is Object && value !is Array ==> times::first_stamp(kind, value, vendor) is None,
        entries.len() == 0 ==> times::first_stamp_in_entries(kind, entries, vendor) is None,
        items.len() == 0 ==> times::first_stamp_in_items(kind, items, vendor) is None,
        entries.len() > 0 ==> {
            let rest = entries.subrange(1, entries.len() as int);
            let own = times::stamp_value(kind, entries[0].1, vendor);
            let stands = times::stamp_fields(kind).contains(entries[0].0@) && own is Some;
            let within = times::first_stamp(kind, entries[0].1, vendor);
            &&& stands ==> times::first_stamp_in_entries(kind, entries, vendor) == own
            &&& !stands && within is Some ==> times::first_stamp_in_entries(kind, entries, vendor)
                == within
            &&& !stands && within is None ==> times::first_stamp_in_entries(kind, entries, vendor)
                == times::first_stamp_in_entries(kind, rest, vendor)
        },
        items.len() > 0 ==> {
            let rest = items.subrange(1, items.len() as int);
            let within = times::first_stamp(kind, items[0], vendor);
            &&& within is Some ==> times::first_stamp_in_items(kind, items, vendor) == within
            &&& within is None ==> times::first_stamp_in_items(kind, items, vendor)
                == times::first_stamp_in_items(kind, rest, vendor)
        },
{
}

} // verus!
