//! JSON values as the parsers read them.
use crate::text;
use vstd::prelude::*;
use vstd::string::*;

verus! {

/// A JSON number: an integer that fits, or the decimal notation of any other.
#[derive(Debug)]
pub enum JsonNumber {
    Unsigned(u64),
    Negative(i64),
    Decimal(String),
}

/// A JSON value. An object keeps its entries in the order of the reader.
#[derive(Debug)]
pub enum Json {
    Null,
    Bool(bool),
    Number(JsonNumber),
    Str(String),
    Array(Vec<Json>),
    Object(Vec<(String, Json)>),
}

/// An opaque JSON value of `serde_json`.
#[verifier::external_type_specification]
#[verifier::external_body]
pub struct ExValue(serde_json::Value);

/// What `serde_json` reads from a text: a value, or the text of its error.
pub uninterp spec fn json_reading(text: Seq<char>) -> Result<Json, Seq<char>>;

/// A reading with its refusal, if any, taken as text.
pub open spec fn reading_of(read: Result<Json, String>) -> Result<Json, Seq<char>> {
    match read {
        Ok(json) => Ok(json),
        Err(refusal) => Err(refusal@),
    }
}

/// How `serde_json` writes a value.
pub uninterp spec fn json_writing(json: Json) -> Seq<char>;

/// Takes a `serde_json::Value` apart, one variant for one variant.
#[verifier::external_body]
fn json_from_value(value: serde_json::Value) -> Json {
    match value {
        serde_json::Value::Null => Json::Null,
        serde_json::Value::Bool(flag) => Json::Bool(flag),
        serde_json::Value::Number(number) => Json::Number(match (number.as_u64(), number.as_i64()) {
            (Some(unsigned), _) => JsonNumber::Unsigned(unsigned),
            (None, Some(signed)) => JsonNumber::Negative(signed),
            (None, None) => JsonNumber::Decimal(number.to_string()),
        }),
        serde_json::Value::String(text) => Json::Str(text),
        serde_json::Value::Array(items) => Json::Array(items.into_iter().map(json_from_value).collect()),
        serde_json::Value::Object(entries) => Json::Object(entries.into_iter().map(|entry| (entry.0, json_from_value(entry.1))).collect()),
    }
}

/// Puts a `serde_json::Value` together, one variant for one variant.
#[verifier::external_body]
fn json_to_value(json: &Json) -> serde_json::Value {
    match json {
        Json::Null => serde_json::Value::Null,
        Json::Bool(flag) => (*flag).into(),
        Json::Number(JsonNumber::Unsigned(unsigned)) => (*unsigned).into(),
        Json::Number(JsonNumber::Negative(signed)) => (*signed).into(),
        Json::Number(JsonNumber::Decimal(text)) => text.parse().ok().and_then(serde_json::Number::from_f64).map_or(serde_json::Value::Null, serde_json::Value::Number),
        Json::Str(text) => text.as_str().into(),
        Json::Array(items) => items.iter().map(json_to_value).collect(),
        Json::Object(entries) => entries.iter().map(|entry| (entry.0.clone(), json_to_value(&entry.1))).collect(),
    }
}

/// `serde_json::from_str` reads one JSON value and nothing after it. What it
/// reads, or the text of the error that it gives, depends on the text alone.
#[verifier::external_body]
pub(crate) fn read_json(text: &str) -> (read: Result<Json, String>)
    ensures
        reading_of(read) == json_reading(text@),
{
    match serde_json::from_str::<serde_json::Value>(text) {
        Ok(value) => Ok(json_from_value(value)),
        Err(error) => Err(error.to_string()),
    }
}

/// `serde_json::Value`'s `to_string` writes the compact notation of a value,
/// which depends on the value alone.
#[verifier::external_body]
pub(crate) fn write_json(json: &Json) -> (text: String)
    ensures
        text@ == json_writing(*json),
{
    json_to_value(json).to_string()
}

/// The first entry under `key`.
pub open spec fn entry(entries: Seq<(String, Json)>, key: Seq<char>) -> Option<Json>
    decreases entries.len(),
{
    if entries.len() == 0 {
        None
    } else if entries[0].0@ == key {
        Some(entries[0].1)
    } else {
        entry(entries.subrange(1, entries.len() as int), key)
    }
}

/// The entry under `key`, if there is one.
pub fn get<'a>(entries: &'a Vec<(String, Json)>, key: &str) -> (found: Option<&'a Json>)
    ensures
        found is Some == entry(entries@, key@) is Some,
        found matches Some(value) ==> entry(entries@, key@) == Some(*value),
        found matches Some(value) ==> exists|i: int|
            0 <= i < entries@.len() && entries@[i].1 == *value,
{
    let mut index: usize = 0;
    assert(entries@.subrange(0, entries@.len() as int) =~= entries@);
    while index < entries.len()
        invariant
            index <= entries@.len(),
            entry(entries@, key@) == entry(
                entries@.subrange(index as int, entries@.len() as int),
                key@,
            ),
        decreases entries@.len() - index,
    {
        let rest: Ghost<Seq<(String, Json)>> = Ghost(
            entries@.subrange(index as int, entries@.len() as int),
        );
        proof {
            assert(rest@[0] == entries@[index as int]);
            assert(rest@.subrange(1, rest@.len() as int) =~= entries@.subrange(
                index as int + 1,
                entries@.len() as int,
            ));
        }
        if text::str_equal(entries[index].0.as_str(), key) {
            return Some(&entries[index].1);
        }
        index = index + 1;
    }
    None
}

/// The text of a JSON string.
pub open spec fn str_of(value: Option<Json>) -> Option<Seq<char>> {
    match value {
        Some(Json::Str(text)) => Some(text@),
        _ => None,
    }
}

/// The string under `key`.
pub open spec fn entry_str(entries: Seq<(String, Json)>, key: Seq<char>) -> Option<Seq<char>> {
    str_of(entry(entries, key))
}

/// An owned copy of the string under `key`, if a string stands there.
pub fn get_string(entries: &Vec<(String, Json)>, key: &str) -> (found: Option<String>)
    ensures
        text::opt_text(found) == entry_str(entries@, key@),
{
    match get(entries, key) {
        Some(Json::Str(text)) => Some(text.clone()),
        _ => None,
    }
}

/// The unsigned integer that a value is.
pub open spec fn u64_of(value: Option<Json>) -> Option<u64> {
    match value {
        Some(Json::Number(JsonNumber::Unsigned(number))) => Some(number),
        _ => None,
    }
}

/// A string stands for itself, any other value for its notation.
pub open spec fn plain_text(json: Json) -> Seq<char> {
    match json {
        Json::Str(text) => text@,
        other => json_writing(other),
    }
}

/// What a string says, or the notation of any other value.
pub fn plain_string(json: &Json) -> (text: String)
    ensures
        text@ == plain_text(*json),
{
    match json {
        Json::Str(text) => text.clone(),
        other => write_json(other),
    }
}

/// A value's plain text cut to `cap` characters, its full length in bytes, and
/// whether the cut dropped anything.
pub fn bounded_json_string(value: &Json, cap: usize) -> (bounded: (String, u64, bool))
    ensures
        bounded.0@ == text::bounded_spec(plain_text(*value), cap as int),
        bounded.1 == byte_len(plain_text(*value)),
        bounded.2 == (plain_text(*value).len() > cap),
{
    let full = plain_string(value);
    let full_bytes: u64 = full.as_str().as_bytes().len() as u64;
    let (text, truncated) = text::bounded_chars(full.as_str(), cap);
    (text, full_bytes, truncated)
}

/// The number of bytes of a text in UTF-8.
pub open spec fn byte_len(text: Seq<char>) -> nat {
    vstd::utf8::encode_utf8(text).len()
}

/// The member of an object; any other value has none.
pub open spec fn member(value: Json, name: Seq<char>) -> Option<Json> {
    match value {
        Json::Object(entries) => entry(entries@, name),
        _ => None,
    }
}

/// The member `name` of `value`, if `value` is an object that has it.
pub fn member_of<'a>(value: &'a Json, name: &str) -> (found: Option<&'a Json>)
    ensures
        found is Some == member(*value, name@) is Some,
        found matches Some(inner) ==> member(*value, name@) == Some(*inner),
{
    match value {
        Json::Object(entries) => get(entries, name),
        _ => None,
    }
}

/// The string member of an object.
pub open spec fn str_member(value: Json, name: Seq<char>) -> Option<Seq<char>> {
    str_of(member(value, name))
}

/// The string member `name` of `value`.
pub fn str_member_of<'a>(value: &'a Json, name: &str) -> (found: Option<&'a str>)
    ensures
        found is Some == str_member(*value, name@) is Some,
        found matches Some(text) ==> str_member(*value, name@) == Some(text@),
{
    match member_of(value, name) {
        Some(Json::Str(text)) => Some(text.as_str()),
        _ => None,
    }
}

/// An owned copy of the string member `name` of `value`.
pub fn string_member_of(value: &Json, name: &str) -> (found: Option<String>)
    ensures
        text::opt_text(found) == str_member(*value, name@),
{
    match member_of(value, name) {
        Some(Json::Str(text)) => Some(text.clone()),
        _ => None,
    }
}

/// The unsigned member of an object.
pub open spec fn u64_member(value: Json, name: Seq<char>) -> Option<u64> {
    u64_of(member(value, name))
}

/// The unsigned member `name` of `value`.
pub fn u64_member_of(value: &Json, name: &str) -> (found: Option<u64>)
    ensures
        found == u64_member(*value, name@),
{
    match member_of(value, name) {
        Some(Json::Number(JsonNumber::Unsigned(number))) => Some(*number),
        _ => None,
    }
}

/// The signed integer that a value is.
pub open spec fn i64_of(value: Option<Json>) -> Option<i64> {
    match value {
        Some(Json::Number(JsonNumber::Unsigned(number))) => if number <= i64::MAX {
            Some(number as i64)
        } else {
            None
        },
        Some(Json::Number(JsonNumber::Negative(number))) => Some(number),
        _ => None,
    }
}

/// The signed integer that a value is, if it fits.
pub fn as_i64(value: Option<&Json>) -> (number: Option<i64>)
    ensures
        number == i64_of(
            match value {
                Some(inner) => Some(*inner),
                None => None,
            },
        ),
{
    match value {
        Some(Json::Number(JsonNumber::Unsigned(number))) => if *number <= i64::MAX as u64 {
            Some(*number as i64)
        } else {
            None
        },
        Some(Json::Number(JsonNumber::Negative(number))) => Some(*number),
        _ => None,
    }
}

/// The items of an array member.
pub open spec fn array_member(value: Json, name: Seq<char>) -> Option<Seq<Json>> {
    match member(value, name) {
        Some(Json::Array(items)) => Some(items@),
        _ => None,
    }
}

/// The items of the array member `name` of `value`.
pub fn array_member_of<'a>(value: &'a Json, name: &str) -> (found: Option<&'a Vec<Json>>)
    ensures
        found is Some == array_member(*value, name@) is Some,
        found matches Some(items) ==> array_member(*value, name@) == Some(items@),
{
    match member_of(value, name) {
        Some(Json::Array(items)) => Some(items),
        _ => None,
    }
}

/// The member of an object where it is itself an object.
pub open spec fn object_member(value: Json, name: Seq<char>) -> Option<Json> {
    match member(value, name) {
        Some(inner) => if inner is Object {
            Some(inner)
        } else {
            None
        },
        None => None,
    }
}

/// The member `name` of `value` where it is an object.
pub fn object_member_of<'a>(value: &'a Json, name: &str) -> (found: Option<&'a Json>)
    ensures
        found is Some == object_member(*value, name@) is Some,
        found matches Some(inner) ==> object_member(*value, name@) == Some(*inner),
{
    match member_of(value, name) {
        Some(inner) => match inner {
            Json::Object(_) => Some(inner),
            _ => None,
        },
        None => None,
    }
}

/// A number with its notation taken as text.
pub enum NumberView {
    Unsigned(u64),
    Negative(i64),
    Decimal(Seq<char>),
}

impl View for JsonNumber {
    type V = NumberView;

    open spec fn view(&self) -> NumberView {
        match *self {
            JsonNumber::Unsigned(number) => NumberView::Unsigned(number),
            JsonNumber::Negative(number) => NumberView::Negative(number),
            JsonNumber::Decimal(text) => NumberView::Decimal(text@),
        }
    }
}

impl Clone for JsonNumber {
    fn clone(&self) -> (copy: Self)
        ensures
            copy@ == self@,
    {
        match self {
            JsonNumber::Unsigned(number) => JsonNumber::Unsigned(*number),
            JsonNumber::Negative(number) => JsonNumber::Negative(*number),
            JsonNumber::Decimal(text) => JsonNumber::Decimal(text.clone()),
        }
    }
}

/// The number that a value is.
pub open spec fn number_of(value: Option<Json>) -> Option<NumberView> {
    match value {
        Some(Json::Number(number)) => Some(number@),
        _ => None,
    }
}

/// The view of an optional number.
pub open spec fn opt_number(value: Option<JsonNumber>) -> Option<NumberView> {
    match value {
        Some(number) => Some(number@),
        None => None,
    }
}

/// The number member `name` of `value`.
pub fn number_member_of(value: &Json, name: &str) -> (found: Option<JsonNumber>)
    ensures
        opt_number(found) == number_of(member(*value, name@)),
{
    match member_of(value, name) {
        Some(Json::Number(number)) => Some(number.clone()),
        _ => None,
    }
}

/// The value that bytes hold in JSON notation.
pub open spec fn json_of_bytes(bytes: Seq<u8>) -> Option<Json> {
    if vstd::utf8::valid_utf8(bytes) {
        match json_reading(vstd::utf8::decode_utf8(bytes)) {
            Ok(value) => Some(value),
            Err(_) => None,
        }
    } else {
        None
    }
}

/// Reads the value that bytes hold in JSON notation.
pub fn read_json_bytes(bytes: &[u8]) -> (read: Option<Json>)
    ensures
        read == json_of_bytes(bytes@),
{
    match text::utf8_text(bytes) {
        Err(_) => None,
        Ok(text) => {
            proof {
                vstd::utf8::encode_utf8_decode_utf8(text@);
            }
            match read_json(text) {
                Ok(value) => Some(value),
                Err(_) => None,
            }
        },
    }
}

proof fn lemma_entry_at(entries: Seq<(String, Json)>, key: Seq<char>, at: int)
    requires
        0 <= at < entries.len(),
        entries[at].0@ == key,
        forall|i: int| 0 <= i < at ==> (#[trigger] entries[i]).0@ != key,
    ensures
        entry(entries, key) == Some(entries[at].1),
    decreases entries.len(),
{
    if at > 0 {
        let rest = entries.subrange(1, entries.len() as int);
        assert(entries[0].0@ != key);
        assert forall|i: int| 0 <= i < at - 1 implies (#[trigger] rest[i]).0@ != key by {
            assert(entries[i + 1].0@ != key);
        }
        lemma_entry_at(rest, key, at - 1);
    }
}

proof fn lemma_entry_missing(entries: Seq<(String, Json)>, key: Seq<char>)
    requires
        forall|i: int| 0 <= i < entries.len() ==> (#[trigger] entries[i]).0@ != key,
    ensures
        entry(entries, key) is None,
    decreases entries.len(),
{
    if entries.len() > 0 {
        let rest = entries.subrange(1, entries.len() as int);
        assert(entries[0].0@ != key);
        assert forall|i: int| 0 <= i < rest.len() implies (#[trigger] rest[i]).0@ != key by {
            assert(entries[i + 1].0@ != key);
        }
        lemma_entry_missing(rest, key);
    }
}

/// The member of an object under a name is the value of the first entry with that
/// name, whatever the other entries are; its text, number, list and object forms are
/// that value's own.
pub proof fn law_members_are_found_by_name(entries: Vec<(String, Json)>, name: Seq<char>, at: int)
    requires
        0 <= at < entries@.len(),
        entries@[at].0@ == name,
        forall|i: int| 0 <= i < at ==> (#[trigger] entries@[i]).0@ != name,
    ensures
        member(Json::Object(entries), name) == Some(entries@[at].1),
        entries@[at].1 matches Json::Str(text) ==> str_member(Json::Object(entries), name) == Some(
            text@,
        ) && entry_str(entries@, name) == Some(text@),
        entries@[at].1 !is Str ==> str_member(Json::Object(entries), name) is None && entry_str(
            entries@,
            name,
        ) is None,
        entries@[at].1 matches Json::Number(JsonNumber::Unsigned(number)) ==> u64_member(
            Json::Object(entries),
            name,
        ) == Some(number),
        !(entries@[at].1 matches Json::Number(JsonNumber::Unsigned(_))) ==> u64_member(
            Json::Object(entries),
            name,
        ) is None,
        entries@[at].1 matches Json::Array(items) ==> array_member(Json::Object(entries), name)
            == Some(items@),
        entries@[at].1 !is Array ==> array_member(Json::Object(entries), name) is None,
        entries@[at].1 is Object ==> object_member(Json::Object(entries), name) == Some(
            entries@[at].1,
        ),
        entries@[at].1 !is Object ==> object_member(Json::Object(entries), name) is None,
{
    lemma_entry_at(entries@, name, at);
}

/// An object without an entry of a name has no member under it, in no form, and what
/// is no object has no members at all.
pub proof fn law_missing_members_are_none(value: Json, name: Seq<char>)
    requires
        value matches Json::Object(entries) ==> forall|i: int|
            0 <= i < entries@.len() ==> (#[trigger] entries@[i]).0@ != name,
    ensures
        member(value, name) is None,
        str_member(value, name) is None,
        u64_member(value, name) is None,
        array_member(value, name) is None,
        object_member(value, name) is None,
{
    match value {
        Json::Object(entries) => lemma_entry_missing(entries@, name),
        _ => {},
    }
}

/// A signed number is read of every integer within its range, with its sign, and of
/// nothing else.
pub proof fn law_signed_numbers_keep_their_value(value: Json)
    ensures
        value matches Json::Number(JsonNumber::Unsigned(number)) ==> match i64_of(Some(value)) {
            Some(read) => read == number,
            None => number > 0x7fff_ffff_ffff_ffff,
        },
        value matches Json::Number(JsonNumber::Negative(number)) ==> i64_of(Some(value)) == Some(
            number,
        ),
        value matches Json::Number(JsonNumber::Decimal(_)) ==> i64_of(Some(value)) is None,
        value !is Number ==> i64_of(Some(value)) is None,
        i64_of(None) is None,
{
}

/// A number keeps its notation: an integer its value, any other its decimal text.
pub proof fn law_numbers_keep_their_notation(value: Json)
    ensures
        value matches Json::Number(JsonNumber::Unsigned(number)) ==> number_of(Some(value)) == Some(
            NumberView::Unsigned(number),
        ),
        value matches Json::Number(JsonNumber::Negative(number)) ==> number_of(Some(value)) == Some(
            NumberView::Negative(number),
        ),
        value matches Json::Number(JsonNumber::Decimal(text)) ==> number_of(Some(value)) == Some(
            NumberView::Decimal(text@),
        ),
        value !is Number ==> number_of(Some(value)) is None,
        number_of(None) is None,
{
}

/// A string stands for itself where a plain text is wanted; any other value for its
/// notation. A text is as many bytes long as its UTF-8 encoding.
pub proof fn law_strings_are_plain(value: Json, text: Seq<char>)
    ensures
        value matches Json::Str(content) ==> plain_text(value) == content@,
        value !is Str ==> plain_text(value) == json_writing(value),
        byte_len(text) == vstd::utf8::encode_utf8(text).len(),
{
}

/// Bytes hold a value exactly where they are UTF-8 text that reads as JSON, and hold
/// what that text reads as.
pub proof fn law_bytes_read_as_their_text(bytes: Seq<u8>)
    ensures
        json_of_bytes(bytes) is Some <==> vstd::utf8::valid_utf8(bytes) && json_reading(
            vstd::utf8::decode_utf8(bytes),
        ) is Ok,
        json_of_bytes(bytes) matches Some(value) ==> json_reading(vstd::utf8::decode_utf8(bytes))
            == Ok::<Json, Seq<char>>(value),
{
}

} // verus!
