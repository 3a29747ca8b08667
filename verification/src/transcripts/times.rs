//! When a transcript line was written, as far as the line or its source says.
use crate::digest;
use crate::digest::sha256;
use crate::json::{Json, JsonNumber};
use crate::text;
use crate::text::{chars_of, joined, parse_u64, str_equal, strip_prefix, trim};
use vstd::prelude::*;
use vstd::string::*;

verus! {

pub const NS_PER_MS: u64 = 1_000_000;
pub const TIMESTAMP_LINE_OFFSET_NS: u64 = 1_000_000;
pub const STABLE_TS_BASE_MS: u64 = 1_600_000_000_000;
pub const STABLE_TS_SPAN_MS: u64 = 20 * 365 * 24 * 60 * 60 * 1_000;

/// The Unix time in milliseconds that `chrono` reads from an RFC 3339 text.
pub uninterp spec fn rfc3339_millis(text: Seq<char>) -> Option<i64>;

/// `chrono::DateTime::parse_from_rfc3339` reads a date and time with its offset;
/// the instant in Unix milliseconds, or that there is none, depends on the text
/// alone.
#[verifier::external_body]
pub(crate) fn read_rfc3339(text: &str) -> (millis: Option<i64>)
    ensures
        millis == rfc3339_millis(text@),
{
    chrono::DateTime::parse_from_rfc3339(text).ok().map(|time| time.timestamp_millis())
}

/// The Unix milliseconds of an RFC 3339 text that does not lie before 1970.
pub open spec fn rfc3339_unix_ms(text: Seq<char>) -> Option<u64> {
    match rfc3339_millis(text) {
        Some(millis) => if millis >= 0 {
            Some(millis as u64)
        } else {
            None
        },
        None => None,
    }
}

/// Reads an RFC 3339 text that does not lie before 1970.
pub fn parse_rfc3339_unix_ms(text: &str) -> (millis: Option<u64>)
    ensures
        millis == rfc3339_unix_ms(text@),
{
    unix_ms_of(read_rfc3339(text))
}

/// A reading that does not lie before 1970.
pub fn unix_ms_of(millis: Option<i64>) -> (unix_ms: Option<u64>)
    ensures
        unix_ms == (match millis {
            Some(value) => if value >= 0 {
                Some(value as u64)
            } else {
                None
            },
            None => None,
        }),
{
    match millis {
        Some(value) => if value >= 0 {
            Some(value as u64)
        } else {
            None
        },
        None => None,
    }
}

/// A sum or product kept within `u64`.
pub open spec fn capped(value: int) -> u64 {
    if value > u64::MAX {
        u64::MAX
    } else {
        value as u64
    }
}

/// The nanoseconds of an instant, with the line number as the offset within its
/// millisecond.
pub open spec fn line_ts_ns(ts_ms: int, line_no: int) -> u64 {
    capped(capped(ts_ms * 1_000_000) + line_no % 1_000_000)
}

/// The nanoseconds of `ts_ms`, with `line_no` as the offset within the
/// millisecond, kept within `u64`.
pub fn timestamp_ms_with_line_offset(ts_ms: u64, line_no: u64) -> (ts_ns: u64)
    ensures
        ts_ns == line_ts_ns(ts_ms as int, line_no as int),
{
    let ts_ns: u64 = match ts_ms.checked_mul(NS_PER_MS) {
        Some(product) => product,
        None => u64::MAX,
    };
    ts_ns.saturating_add(line_no % TIMESTAMP_LINE_OFFSET_NS)
}

/// Within one millisecond the lines of a source keep their order, and a later
/// millisecond comes later, as long as the instant fits.
pub proof fn law_line_times_keep_order(ts_ms: u64, line_no: u64, later_ms: u64, later_no: u64)
    requires
        later_ms < u64::MAX / 1_000_000,
        ts_ms < later_ms || (ts_ms == later_ms && line_no % 1_000_000 < later_no % 1_000_000),
    ensures
        line_ts_ns(ts_ms as int, line_no as int) < line_ts_ns(later_ms as int, later_no as int),
{
}

/// The characters `0-9`, `a-f` and `A-F`.
pub open spec fn is_hex(ch: char) -> bool {
    ('0' <= ch <= '9') || ('a' <= ch <= 'f') || ('A' <= ch <= 'F')
}

/// The number that a hexadecimal digit stands for.
pub open spec fn hex_value_of(ch: char) -> int {
    if '0' <= ch <= '9' {
        ch as int - '0' as int
    } else if 'a' <= ch <= 'f' {
        ch as int - 'a' as int + 10
    } else {
        ch as int - 'A' as int + 10
    }
}

/// The number that hexadecimal digits denote.
pub open spec fn hex_number(digits: Seq<char>) -> int
    decreases digits.len(),
{
    if digits.len() == 0 {
        0
    } else {
        hex_number(digits.drop_last()) * 16 + hex_value_of(digits.last())
    }
}

/// A text without `prefix`, where it begins with it.
pub open spec fn without_prefix(text: Seq<char>, prefix: Seq<char>) -> Seq<char> {
    if text::has_prefix(text, prefix) {
        text.subrange(prefix.len() as int, text.len() as int)
    } else {
        text
    }
}

/// The characters other than dashes.
pub open spec fn without_dashes(text: Seq<char>) -> Seq<char>
    decreases text.len(),
{
    if text.len() == 0 {
        text
    } else if text.last() == '-' {
        without_dashes(text.drop_last())
    } else {
        without_dashes(text.drop_last()).push(text.last())
    }
}

/// What the identifiers of the discovered agents of a vendor begin with, behind
/// the prefix of all spawns.
pub open spec fn ambient_prefix(vendor: Seq<char>) -> Seq<char> {
    "ambient-"@ + vendor + "-"@
}

/// What the identifiers of the discovered agents of a vendor begin with, behind
/// the prefix of all spawns.
pub fn ambient_prefix_of(vendor: &str) -> (prefix: String)
    ensures
        prefix@ == ambient_prefix(vendor@),
{
    let mut prefix = joined("ambient-", vendor);
    prefix.append("-");
    prefix
}

/// The identifier behind the known prefixes.
pub open spec fn bare_identifier(value: Seq<char>, vendor: Seq<char>) -> Seq<char> {
    without_prefix(
        without_prefix(
            without_prefix(text::trim_spec(value), "agent-spawn-"@),
            ambient_prefix(vendor),
        ),
        "msg_"@,
    )
}

/// The time in an identifier of UUID version 7: its first twelve hexadecimal
/// digits, where the thirteenth is the version. At most thirty-two digits are
/// looked at, and all of them must be hexadecimal.
pub open spec fn uuid_v7_ms(value: Seq<char>, vendor: Seq<char>) -> Option<u64> {
    let digits = text::bounded_spec(without_dashes(bare_identifier(value, vendor)), 32);
    if digits.len() >= 13 && (forall|i: int|
        0 <= i < digits.len() ==> is_hex(#[trigger] digits[i])) && digits[12] == '7' {
        Some(hex_number(digits.subrange(0, 12)) as u64)
    } else {
        None
    }
}

fn drop_prefix<'a>(value: &'a str, prefix: &str) -> (rest: &'a str)
    ensures
        rest@ == without_prefix(value@, prefix@),
{
    match strip_prefix(value, prefix) {
        Some(rest) => rest,
        None => value,
    }
}

fn keep_digits(value: &str) -> (chars: Vec<char>)
    ensures
        chars@ == without_dashes(value@),
{
    let all = chars_of(value);
    let mut chars: Vec<char> = Vec::new();
    let mut index: usize = 0;
    assert(value@.subrange(0, 0) =~= Seq::<char>::empty());
    assert(chars@ =~= Seq::<char>::empty());
    while index < all.len()
        invariant
            index <= all@.len(),
            all@ == value@,
            chars@ == without_dashes(value@.subrange(0, index as int)),
        decreases all@.len() - index,
    {
        let ch: char = all[index];
        proof {
            let prefix = value@.subrange(0, index as int + 1);
            assert(prefix.drop_last() =~= value@.subrange(0, index as int));
            assert(prefix.last() == ch);
        }
        if ch != '-' {
            chars.push(ch);
        }
        index = index + 1;
    }
    assert(value@.subrange(0, value@.len() as int) =~= value@);
    chars
}

fn hex_digit_of(ch: char) -> (value: Option<u64>)
    ensures
        value is Some == is_hex(ch),
        value matches Some(number) ==> number == hex_value_of(ch) && number < 16,
{
    let code: u32 = ch as u32;
    if '0' <= ch && ch <= '9' {
        Some((code - 48) as u64)
    } else if 'a' <= ch && ch <= 'f' {
        Some((code - 87) as u64)
    } else if 'A' <= ch && ch <= 'F' {
        Some((code - 55) as u64)
    } else {
        None
    }
}

/// The Unix milliseconds in an identifier of UUID version 7.
pub fn uuid_v7_unix_ms(value: &str, vendor: &str) -> (unix_ms: Option<u64>)
    ensures
        unix_ms == uuid_v7_ms(value@, vendor@),
{
    let prefix = ambient_prefix_of(vendor);
    let candidate = drop_prefix(
        drop_prefix(drop_prefix(trim(value), "agent-spawn-"), prefix.as_str()),
        "msg_",
    );
    let mut digits = keep_digits(candidate);
    let full: Ghost<Seq<char>> = Ghost(digits@);
    if digits.len() > 32 {
        digits.truncate(32);
        assert(digits@ =~= full@.subrange(0, 32));
    }
    let ghost bounded = text::bounded_spec(without_dashes(bare_identifier(value@, vendor@)), 32);
    assert(digits@ == bounded);
    if digits.len() < 13 {
        return None;
    }
    let mut number: u64 = 0;
    let mut index: usize = 0;
    assert(digits@.subrange(0, 0) =~= Seq::<char>::empty());
    while index < digits.len()
        invariant
            digits@ == bounded,
            bounded == text::bounded_spec(without_dashes(bare_identifier(value@, vendor@)), 32),
            13 <= digits@.len() <= 32,
            index <= digits@.len(),
            forall|i: int| 0 <= i < index ==> is_hex(#[trigger] digits@[i]),
            index <= 12 ==> number == hex_number(digits@.subrange(0, index as int)),
            index > 12 ==> number == hex_number(digits@.subrange(0, 12)),
            index <= 12 ==> number < pow16(index as int),
        decreases digits@.len() - index,
    {
        let value_here: u64 = match hex_digit_of(digits[index]) {
            Some(value_here) => value_here,
            None => {
                assert(!is_hex(digits@[index as int]));
                return None;
            },
        };
        if index < 12 {
            proof {
                let prefix = digits@.subrange(0, index as int + 1);
                assert(prefix.drop_last() =~= digits@.subrange(0, index as int));
                assert(prefix.last() == digits@[index as int]);
                lemma_pow16(index as int + 1);
            }
            number = number * 16 + value_here;
        }
        index = index + 1;
    }
    if digits[12] == '7' {
        Some(number)
    } else {
        None
    }
}

spec fn pow16(n: int) -> int
    decreases n,
{
    if n <= 0 {
        1
    } else {
        16 * pow16(n - 1)
    }
}

proof fn lemma_pow16(n: int)
    requires
        0 <= n <= 12,
    ensures
        1 <= pow16(n) <= 0x1000000000000,
        n > 0 ==> pow16(n) == 16 * pow16(n - 1),
{
    reveal_with_fuel(pow16, 14);
}

/// The number that bytes denote, the first being the highest.
pub open spec fn big_endian(bytes: Seq<u8>) -> int
    decreases bytes.len(),
{
    if bytes.len() == 0 {
        0
    } else {
        big_endian(bytes.drop_last()) * 256 + bytes.last()
    }
}

/// The stand-in time of a source without one: spread over the span by the
/// first eight bytes of the digest of its name.
pub open spec fn stable_epoch_ms(source_id: Seq<char>) -> u64 {
    (STABLE_TS_BASE_MS + big_endian(
        digest::sha256_digest(vstd::utf8::encode_utf8(source_id)).subrange(0, 8),
    ) % (STABLE_TS_SPAN_MS as int)) as u64
}

/// The place in the span that the first eight bytes of a digest give.
pub fn epoch_from_digest(digest: &[u8; 32]) -> (epoch_ms: u64)
    ensures
        epoch_ms == STABLE_TS_BASE_MS + big_endian(digest@.subrange(0, 8))
            % (STABLE_TS_SPAN_MS as int),
        STABLE_TS_BASE_MS <= epoch_ms < STABLE_TS_BASE_MS + STABLE_TS_SPAN_MS,
{
    let number: u64 = ((((((digest[0] as u64 * 256 + digest[1] as u64) * 256 + digest[2] as u64)
        * 256 + digest[3] as u64) * 256 + digest[4] as u64) * 256 + digest[5] as u64) * 256
        + digest[6] as u64) * 256 + digest[7] as u64;
    proof {
        let first = digest@.subrange(0, 8);
        assert(big_endian(first) == number) by {
            reveal_with_fuel(big_endian, 9);
            assert(first.drop_last() =~= digest@.subrange(0, 7));
            assert(digest@.subrange(0, 7).drop_last() =~= digest@.subrange(0, 6));
            assert(digest@.subrange(0, 6).drop_last() =~= digest@.subrange(0, 5));
            assert(digest@.subrange(0, 5).drop_last() =~= digest@.subrange(0, 4));
            assert(digest@.subrange(0, 4).drop_last() =~= digest@.subrange(0, 3));
            assert(digest@.subrange(0, 3).drop_last() =~= digest@.subrange(0, 2));
            assert(digest@.subrange(0, 2).drop_last() =~= digest@.subrange(0, 1));
            assert(digest@.subrange(0, 1).drop_last() =~= digest@.subrange(0, 0));
        }
    }
    STABLE_TS_BASE_MS + number % STABLE_TS_SPAN_MS
}

/// The instant that stands for a source without one: it depends on its id alone.
pub fn stable_source_epoch_ms(source_id: &str) -> (epoch_ms: u64)
    ensures
        epoch_ms == stable_epoch_ms(source_id@),
{
    epoch_from_digest(&sha256(source_id.as_bytes()))
}

/// The time of a line that says none itself: that of its source, else the time
/// in the source's name, else the stand-in.
pub open spec fn stable_ts_ns(
    source_id: Seq<char>,
    line_no: int,
    source_epoch_unix_ms: Option<u64>,
    vendor: Seq<char>,
) -> u64 {
    let ts_ms = match source_epoch_unix_ms {
        Some(epoch) => epoch,
        None => match uuid_v7_ms(source_id, vendor) {
            Some(epoch) => epoch,
            None => stable_epoch_ms(source_id),
        },
    };
    line_ts_ns(ts_ms as int, line_no)
}

/// The instant of a line without one: it depends on the source and the line alone.
pub fn stable_transcript_ts_ns(
    source_id: &str,
    line_no: u64,
    source_epoch_unix_ms: Option<u64>,
    vendor: &str,
) -> (ts_ns: u64)
    ensures
        ts_ns == stable_ts_ns(source_id@, line_no as int, source_epoch_unix_ms, vendor@),
{
    let ts_ms: u64 = match source_epoch_unix_ms {
        Some(epoch) => epoch,
        None => match uuid_v7_unix_ms(source_id, vendor) {
            Some(epoch) => epoch,
            None => stable_source_epoch_ms(source_id),
        },
    };
    timestamp_ms_with_line_offset(ts_ms, line_no)
}

/// The ways in which a field can give a time.
#[derive(Clone, Copy, Debug, PartialEq, Eq, Structural)]
pub enum StampKind {
    Nanoseconds,
    Milliseconds,
    Rfc3339,
    UuidV7,
}

/// The fields that give a time in one of the ways.
pub open spec fn stamp_fields(kind: StampKind) -> Seq<Seq<char>> {
    match kind {
        StampKind::Nanoseconds => seq![
            "ts_ns"@,
            "timestamp_ns"@,
            "timestampUnixNs"@,
            "timestamp_unix_ns"@,
            "created_unix_ns"@,
            "createdAtNs"@,
            "startedAtNs"@,
            "completedAtNs"@,
            "updatedAtNs"@,
        ],
        StampKind::Milliseconds => seq![
            "ts_unix_ms"@,
            "timestamp_ms"@,
            "timestampUnixMs"@,
            "timestamp_unix_ms"@,
            "created_unix_ms"@,
            "createdAtMs"@,
            "startedAtMs"@,
            "completedAtMs"@,
            "updatedAtMs"@,
        ],
        StampKind::Rfc3339 => seq![
            "timestamp"@,
            "created_at"@,
            "createdAt"@,
            "startedAt"@,
            "completedAt"@,
            "updatedAt"@,
            "time"@,
        ],
        StampKind::UuidV7 => seq![
            "id"@,
            "threadId"@,
            "thread_id"@,
            "turnId"@,
            "turn_id"@,
            "itemId"@,
            "item_id"@,
            "message_id"@,
            "sessionId"@,
            "session_id"@,
            "spawn_id"@,
            "spawnId"@,
        ],
    }
}

/// The views of string slices.
pub open spec fn slice_texts(names: Seq<&'static str>) -> Seq<Seq<char>> {
    Seq::new(names.len(), |i: int| names[i]@)
}

/// Whether a field has one of the names.
pub fn field_matches(name: &str, candidates: &[&'static str]) -> (matched: bool)
    ensures
        matched == slice_texts(candidates@).contains(name@),
{
    let mut index: usize = 0;
    while index < candidates.len()
        invariant
            index <= candidates@.len(),
            forall|i: int| 0 <= i < index ==> slice_texts(candidates@)[i] != name@,
        decreases candidates@.len() - index,
    {
        if str_equal(candidates[index], name) {
            assert(slice_texts(candidates@)[index as int] == name@);
            return true;
        }
        index = index + 1;
    }
    false
}

fn names_of(kind: StampKind) -> (names: Vec<&'static str>)
    ensures
        slice_texts(names@) == stamp_fields(kind),
{
    let names: Vec<&'static str> = match kind {
        StampKind::Nanoseconds => vec![
            "ts_ns",
            "timestamp_ns",
            "timestampUnixNs",
            "timestamp_unix_ns",
            "created_unix_ns",
            "createdAtNs",
            "startedAtNs",
            "completedAtNs",
            "updatedAtNs",
        ],
        StampKind::Milliseconds => vec![
            "ts_unix_ms",
            "timestamp_ms",
            "timestampUnixMs",
            "timestamp_unix_ms",
            "created_unix_ms",
            "createdAtMs",
            "startedAtMs",
            "completedAtMs",
            "updatedAtMs",
        ],
        StampKind::Rfc3339 => vec![
            "timestamp",
            "created_at",
            "createdAt",
            "startedAt",
            "completedAt",
            "updatedAt",
            "time",
        ],
        StampKind::UuidV7 => vec![
            "id",
            "threadId",
            "thread_id",
            "turnId",
            "turn_id",
            "itemId",
            "item_id",
            "message_id",
            "sessionId",
            "session_id",
            "spawn_id",
            "spawnId",
        ],
    };
    assert(slice_texts(names@) =~= stamp_fields(kind));
    names
}

/// The unsigned integer that a value is or spells out.
pub open spec fn loose_u64(value: Json) -> Option<u64> {
    match value {
        Json::Number(JsonNumber::Unsigned(number)) => Some(number),
        Json::Str(text) => text::u64_reading(text::trim_spec(text@)),
        _ => None,
    }
}

/// The unsigned integer that a value states, as a number or in digits.
pub fn value_as_u64(value: &Json) -> (number: Option<u64>)
    ensures
        number == loose_u64(*value),
{
    match value {
        Json::Number(JsonNumber::Unsigned(number)) => Some(*number),
        Json::Str(text) => parse_u64(trim(text.as_str())),
        _ => None,
    }
}

/// The time that a value gives in one of the ways.
pub open spec fn stamp_value(kind: StampKind, value: Json, vendor: Seq<char>) -> Option<u64> {
    match kind {
        StampKind::Nanoseconds => loose_u64(value),
        StampKind::Milliseconds => loose_u64(value),
        StampKind::Rfc3339 => match value {
            Json::Str(text) => rfc3339_unix_ms(text@),
            _ => None,
        },
        StampKind::UuidV7 => match value {
            Json::Str(text) => uuid_v7_ms(text@, vendor),
            _ => None,
        },
    }
}

fn read_stamp(kind: StampKind, value: &Json, vendor: &str) -> (stamp: Option<u64>)
    ensures
        stamp == stamp_value(kind, *value, vendor@),
{
    match kind {
        StampKind::Nanoseconds => value_as_u64(value),
        StampKind::Milliseconds => value_as_u64(value),
        StampKind::Rfc3339 => match value {
            Json::Str(text) => parse_rfc3339_unix_ms(text.as_str()),
            _ => None,
        },
        StampKind::UuidV7 => match value {
            Json::Str(text) => uuid_v7_unix_ms(text.as_str(), vendor),
            _ => None,
        },
    }
}

/// The first time of a kind anywhere in a value: a field's own time comes
/// before those inside the field, and those before later fields.
pub open spec fn first_stamp(kind: StampKind, value: Json, vendor: Seq<char>) -> Option<u64>
    decreases value,
{
    match value {
        Json::Object(entries) => first_stamp_in_entries(kind, entries@, vendor),
        Json::Array(items) => first_stamp_in_items(kind, items@, vendor),
        _ => None,
    }
}

/// The stamp that an entry itself states, where its name is one of the kind.
pub open spec fn entry_stamp(
    kind: StampKind,
    entry: (String, Json),
    vendor: Seq<char>,
) -> Option<u64> {
    if stamp_fields(kind).contains(entry.0@) {
        stamp_value(kind, entry.1, vendor)
    } else {
        None
    }
}

/// The first stamp in the entries of an object.
pub open spec fn first_stamp_in_entries(
    kind: StampKind,
    entries: Seq<(String, Json)>,
    vendor: Seq<char>,
) -> Option<u64>
    decreases entries,
{
    if entries.len() == 0 {
        None
    } else if entry_stamp(kind, entries[0], vendor) is Some {
        entry_stamp(kind, entries[0], vendor)
    } else if first_stamp(kind, entries[0].1, vendor) is Some {
        first_stamp(kind, entries[0].1, vendor)
    } else {
        first_stamp_in_entries(kind, entries.subrange(1, entries.len() as int), vendor)
    }
}

/// The first stamp in the items of an array.
pub open spec fn first_stamp_in_items(
    kind: StampKind,
    items: Seq<Json>,
    vendor: Seq<char>,
) -> Option<u64>
    decreases items,
{
    if items.len() == 0 {
        None
    } else if first_stamp(kind, items[0], vendor) is Some {
        first_stamp(kind, items[0], vendor)
    } else {
        first_stamp_in_items(kind, items.subrange(1, items.len() as int), vendor)
    }
}

fn find_stamp(
    kind: StampKind,
    names: &Vec<&'static str>,
    value: &Json,
    vendor: &str,
) -> (stamp: Option<u64>)
    requires
        slice_texts(names@) == stamp_fields(kind),
    ensures
        stamp == first_stamp(kind, *value, vendor@),
    decreases value,
{
    match value {
        Json::Object(entries) => find_stamp_in_entries(kind, names, entries, vendor),
        Json::Array(items) => find_stamp_in_items(kind, names, items, vendor),
        _ => None,
    }
}

fn find_stamp_in_entries(
    kind: StampKind,
    names: &Vec<&'static str>,
    entries: &Vec<(String, Json)>,
    vendor: &str,
) -> (stamp: Option<u64>)
    requires
        slice_texts(names@) == stamp_fields(kind),
    ensures
        stamp == first_stamp_in_entries(kind, entries@, vendor@),
    decreases entries,
{
    let mut index: usize = 0;
    assert(entries@.subrange(0, entries@.len() as int) =~= entries@);
    while index < entries.len()
        invariant
            slice_texts(names@) == stamp_fields(kind),
            index <= entries@.len(),
            first_stamp_in_entries(kind, entries@, vendor@) == first_stamp_in_entries(
                kind,
                entries@.subrange(index as int, entries@.len() as int),
                vendor@,
            ),
        decreases entries@.len() - index,
    {
        proof {
            let rest = entries@.subrange(index as int, entries@.len() as int);
            assert(rest[0] == entries@[index as int]);
            assert(rest.subrange(1, rest.len() as int) =~= entries@.subrange(
                index as int + 1,
                entries@.len() as int,
            ));
            assert(decreases_to!(entries => entries[index as int]));
        }
        let entry: &(String, Json) = &entries[index];
        if field_matches(entry.0.as_str(), names.as_slice()) {
            let own = read_stamp(kind, &entry.1, vendor);
            if own.is_some() {
                return own;
            }
        }
        let inner = find_stamp(kind, names, &entry.1, vendor);
        if inner.is_some() {
            return inner;
        }
        index = index + 1;
    }
    None
}

fn find_stamp_in_items(
    kind: StampKind,
    names: &Vec<&'static str>,
    items: &Vec<Json>,
    vendor: &str,
) -> (stamp: Option<u64>)
    requires
        slice_texts(names@) == stamp_fields(kind),
    ensures
        stamp == first_stamp_in_items(kind, items@, vendor@),
    decreases items,
{
    let mut index: usize = 0;
    assert(items@.subrange(0, items@.len() as int) =~= items@);
    while index < items.len()
        invariant
            slice_texts(names@) == stamp_fields(kind),
            index <= items@.len(),
            first_stamp_in_items(kind, items@, vendor@) == first_stamp_in_items(
                kind,
                items@.subrange(index as int, items@.len() as int),
                vendor@,
            ),
        decreases items@.len() - index,
    {
        proof {
            let rest = items@.subrange(index as int, items@.len() as int);
            assert(rest[0] == items@[index as int]);
            assert(rest.subrange(1, rest.len() as int) =~= items@.subrange(
                index as int + 1,
                items@.len() as int,
            ));
            assert(decreases_to!(items => items[index as int]));
        }
        let inner = find_stamp(kind, names, &items[index], vendor);
        if inner.is_some() {
            return inner;
        }
        index = index + 1;
    }
    None
}

/// The time of a line. Nanoseconds come before milliseconds, those before a
/// date, and a date before the time in an identifier; a line with none of them
/// takes the time of its source.
pub open spec fn source_ts_ns(
    object: Option<Json>,
    source_id: Seq<char>,
    line_no: int,
    source_epoch_unix_ms: Option<u64>,
    vendor: Seq<char>,
) -> u64 {
    match object {
        None => stable_ts_ns(source_id, line_no, source_epoch_unix_ms, vendor),
        Some(value) => match first_stamp(StampKind::Nanoseconds, value, vendor) {
            Some(ts_ns) => ts_ns,
            None => match first_stamp(StampKind::Milliseconds, value, vendor) {
                Some(ts_ms) => line_ts_ns(ts_ms as int, line_no),
                None => match first_stamp(StampKind::Rfc3339, value, vendor) {
                    Some(ts_ms) => line_ts_ns(ts_ms as int, line_no),
                    None => match first_stamp(StampKind::UuidV7, value, vendor) {
                        Some(ts_ms) => line_ts_ns(ts_ms as int, line_no),
                        None => stable_ts_ns(source_id, line_no, source_epoch_unix_ms, vendor),
                    },
                },
            },
        },
    }
}

/// When the line was written.
pub fn transcript_source_ts_ns(
    object: Option<&Json>,
    source_id: &str,
    line_no: u64,
    source_epoch_unix_ms: Option<u64>,
    vendor: &str,
) -> (ts_ns: u64)
    ensures
        ts_ns == source_ts_ns(
            match object {
                Some(value) => Some(*value),
                None => None,
            },
            source_id@,
            line_no as int,
            source_epoch_unix_ms,
            vendor@,
        ),
{
    if let Some(value) = object {
        let names = names_of(StampKind::Nanoseconds);
        if let Some(ts_ns) = find_stamp(StampKind::Nanoseconds, &names, value, vendor) {
            return ts_ns;
        }
        let names = names_of(StampKind::Milliseconds);
        if let Some(ts_ms) = find_stamp(StampKind::Milliseconds, &names, value, vendor) {
            return timestamp_ms_with_line_offset(ts_ms, line_no);
        }
        let names = names_of(StampKind::Rfc3339);
        if let Some(ts_ms) = find_stamp(StampKind::Rfc3339, &names, value, vendor) {
            return timestamp_ms_with_line_offset(ts_ms, line_no);
        }
        let names = names_of(StampKind::UuidV7);
        if let Some(ts_ms) = find_stamp(StampKind::UuidV7, &names, value, vendor) {
            return timestamp_ms_with_line_offset(ts_ms, line_no);
        }
    }
    stable_transcript_ts_ns(source_id, line_no, source_epoch_unix_ms, vendor)
}

} // verus!
