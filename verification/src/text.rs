//! Strings, characters, decimal and hexadecimal notation.
use vstd::prelude::*;
use vstd::string::*;
use vstd::utf8::*;

verus! {

/// `String::push` appends one character to the end of the string.
pub assume_specification[ String::push ](string: &mut String, ch: char)
    ensures
        final(string)@ == old(string)@.push(ch),
;

/// What `std::str::from_utf8` displays for bytes that it refuses.
pub uninterp spec fn utf8_refusal(bytes: Seq<u8>) -> Seq<char>;

/// `std::str::from_utf8` accepts exactly the valid UTF-8 sequences and hands
/// the same bytes back as a string; otherwise the text of its error, which is
/// a function of the bytes alone, comes back.
#[verifier::external_body]
pub(crate) fn utf8_text(bytes: &[u8]) -> (text: Result<&str, String>)
    ensures
        text is Ok == valid_utf8(bytes@),
        text matches Ok(accepted) ==> accepted.spec_bytes() == bytes@,
        text matches Err(refusal) ==> refusal@ == utf8_refusal(bytes@),
{
    std::str::from_utf8(bytes).map_err(|error| error.to_string())
}

/// Compares two byte slices.
pub fn bytes_equal(left: &[u8], right: &[u8]) -> (equal: bool)
    ensures
        equal == (left@ == right@),
{
    if left.len() != right.len() {
        return false;
    }
    let mut index: usize = 0;
    while index < left.len()
        invariant
            left@.len() == right@.len(),
            index <= left@.len(),
            forall|k: int| 0 <= k < index ==> left@[k] == right@[k],
        decreases left@.len() - index,
    {
        if left[index] != right[index] {
            assert(left@[index as int] != right@[index as int]);
            return false;
        }
        index = index + 1;
    }
    assert(left@ =~= right@);
    true
}

/// Compares two strings.
pub fn str_equal(left: &str, right: &str) -> (equal: bool)
    ensures
        equal == (left@ == right@),
{
    proof {
        encode_utf8_decode_utf8(left@);
        encode_utf8_decode_utf8(right@);
    }
    bytes_equal(left.as_bytes(), right.as_bytes())
}

/// The view of an optional string.
pub open spec fn opt_text(value: Option<String>) -> Option<Seq<char>> {
    match value {
        Some(text) => Some(text@),
        None => None,
    }
}

/// Compares an optional string with a string.
pub fn opt_equals(value: &Option<String>, expected: &str) -> (equal: bool)
    ensures
        equal == (opt_text(*value) == Some(expected@)),
{
    match value {
        Some(text) => str_equal(text.as_str(), expected),
        None => false,
    }
}

/// Compares two optional strings.
pub fn opt_equal(left: &Option<String>, right: &Option<String>) -> (equal: bool)
    ensures
        equal == (opt_text(*left) == opt_text(*right)),
{
    match (left, right) {
        (Some(a), Some(b)) => str_equal(a.as_str(), b.as_str()),
        (None, None) => true,
        _ => false,
    }
}

/// The characters of a string.
pub fn chars_of(text: &str) -> (chars: Vec<char>)
    ensures
        chars@ == text@,
{
    let mut chars: Vec<char> = Vec::new();
    for ch in iter: text.chars()
        invariant
            iter.seq() == text@,
            chars@ == text@.subrange(0, iter.index() as int),
    {
        chars.push(ch);
        assert(chars@ =~= text@.subrange(0, iter.index() as int + 1));
    }
    assert(text@.subrange(0, text@.len() as int) =~= text@);
    chars
}

/// `left` followed by `right`.
pub fn joined(left: &str, right: &str) -> (text: String)
    ensures
        text@ == left@ + right@,
{
    let mut text = left.to_owned();
    text.append(right);
    text
}

/// The parts with one `separator` between each two neighbours.
pub open spec fn join_spec(parts: Seq<Seq<char>>, separator: Seq<char>) -> Seq<char>
    decreases parts.len(),
{
    if parts.len() == 0 {
        Seq::<char>::empty()
    } else if parts.len() == 1 {
        parts[0]
    } else {
        join_spec(parts.drop_last(), separator) + separator + parts.last()
    }
}

/// The views of a vector of strings.
pub open spec fn texts(parts: Seq<String>) -> Seq<Seq<char>> {
    Seq::new(parts.len(), |i: int| parts[i]@)
}

/// Copies a list of texts.
pub fn copy_texts(parts: &Vec<String>) -> (copy: Vec<String>)
    ensures
        texts(copy@) == texts(parts@),
{
    let mut copy: Vec<String> = Vec::new();
    let mut index: usize = 0;
    while index < parts.len()
        invariant
            index <= parts@.len(),
            copy@.len() == index,
            forall|i: int| 0 <= i < index ==> (#[trigger] copy@[i])@ == parts@[i]@,
        decreases parts@.len() - index,
    {
        copy.push(parts[index].clone());
        index = index + 1;
    }
    assert(texts(copy@) =~= texts(parts@));
    copy
}

/// Compares two lists of texts.
pub fn same_texts(left: &Vec<String>, right: &Vec<String>) -> (same: bool)
    ensures
        same == (texts(left@) == texts(right@)),
{
    if left.len() != right.len() {
        assert(texts(left@).len() != texts(right@).len());
        return false;
    }
    let mut index: usize = 0;
    while index < left.len()
        invariant
            index <= left@.len() == right@.len(),
            forall|i: int| 0 <= i < index ==> (#[trigger] left@[i])@ == right@[i]@,
        decreases left@.len() - index,
    {
        if !str_equal(left[index].as_str(), right[index].as_str()) {
            assert(texts(left@)[index as int] != texts(right@)[index as int]);
            return false;
        }
        index = index + 1;
    }
    assert(texts(left@) =~= texts(right@));
    true
}

/// Whether a text is in a list.
pub fn contains_text(parts: &Vec<String>, text: &str) -> (found: bool)
    ensures
        found == texts(parts@).contains(text@),
{
    let mut index: usize = 0;
    while index < parts.len()
        invariant
            index <= parts@.len(),
            forall|i: int| 0 <= i < index ==> (#[trigger] texts(parts@)[i]) != text@,
        decreases parts@.len() - index,
    {
        if str_equal(parts[index].as_str(), text) {
            assert(texts(parts@)[index as int] == text@);
            return true;
        }
        index = index + 1;
    }
    false
}

/// Joins `parts` with `separator`.
pub fn join_parts(parts: &Vec<String>, separator: &str) -> (text: String)
    ensures
        text@ == join_spec(texts(parts@), separator@),
{
    let mut text = String::new();
    let mut index: usize = 0;
    while index < parts.len()
        invariant
            index <= parts@.len(),
            text@ == join_spec(texts(parts@).subrange(0, index as int), separator@),
        decreases parts@.len() - index,
    {
        if index > 0 {
            text.append(separator);
        }
        text.append(parts[index].as_str());
        proof {
            let views = texts(parts@);
            assert(views.subrange(0, index as int + 1).drop_last() =~= views.subrange(
                0,
                index as int,
            ));
            if index == 0 {
                assert(text@ =~= parts@[0]@);
            }
        }
        index = index + 1;
    }
    assert(texts(parts@).subrange(0, parts@.len() as int) =~= texts(parts@));
    text
}

/// The characters with the Unicode property White_Space.
pub open spec fn is_white_space(ch: char) -> bool {
    let code = ch as u32;
    ||| 0x9 <= code <= 0xd
    ||| code == 0x20
    ||| code == 0x85
    ||| code == 0xa0
    ||| code == 0x1680
    ||| 0x2000 <= code <= 0x200a
    ||| code == 0x2028
    ||| code == 0x2029
    ||| code == 0x202f
    ||| code == 0x205f
    ||| code == 0x3000
}

fn white_space(ch: char) -> (white: bool)
    ensures
        white == is_white_space(ch),
{
    let code: u32 = ch as u32;
    (0x9 <= code && code <= 0xd) || code == 0x20 || code == 0x85 || code == 0xa0 || code == 0x1680
        || (0x2000 <= code && code <= 0x200a) || code == 0x2028 || code == 0x2029 || code == 0x202f
        || code == 0x205f || code == 0x3000
}

/// Nothing but white space.
pub open spec fn is_blank_spec(text: Seq<char>) -> bool {
    forall|i: int| 0 <= i < text.len() ==> is_white_space(#[trigger] text[i])
}

/// `trimmed` is `text` without its leading and trailing white space.
pub open spec fn is_trim_of(trimmed: Seq<char>, text: Seq<char>) -> bool {
    exists|start: int, end: int| #[trigger]
        trim_range(text, start, end) && trimmed == text.subrange(start, end)
}

/// `start..end` spans everything between the outermost characters of `text`
/// that are not white space.
pub open spec fn trim_range(text: Seq<char>, start: int, end: int) -> bool {
    &&& 0 <= start <= end <= text.len()
    &&& forall|i: int| 0 <= i < start ==> is_white_space(#[trigger] text[i])
    &&& forall|i: int| end <= i < text.len() ==> is_white_space(#[trigger] text[i])
    &&& start < end ==> !is_white_space(text[start]) && !is_white_space(text[end - 1])
}

/// A text without its leading and trailing white space.
pub open spec fn trim_spec(text: Seq<char>) -> Seq<char>
    decreases text.len(),
{
    if text.len() == 0 {
        text
    } else if is_white_space(text[0]) {
        trim_spec(text.subrange(1, text.len() as int))
    } else if is_white_space(text.last()) {
        trim_spec(text.drop_last())
    } else {
        text
    }
}

proof fn lemma_trim_range(text: Seq<char>, start: int, end: int)
    requires
        trim_range(text, start, end),
    ensures
        trim_spec(text) == text.subrange(start, end),
    decreases text.len(),
{
    if text.len() == 0 {
        assert(text.subrange(start, end) =~= text);
    } else if is_white_space(text[0]) {
        let rest = text.subrange(1, text.len() as int);
        if start == 0 {
            assert(start == end);
            assert(trim_range(rest, 0, 0)) by {
                assert forall|i: int| 0 <= i < rest.len() implies is_white_space(
                    #[trigger] rest[i],
                ) by {
                    assert(is_white_space(text[i + 1]));
                }
            }
            lemma_trim_range(rest, 0, 0);
            assert(rest.subrange(0, 0) =~= text.subrange(start, end));
        } else {
            assert(trim_range(rest, start - 1, end - 1)) by {
                assert forall|i: int| 0 <= i < start - 1 implies is_white_space(
                    #[trigger] rest[i],
                ) by {
                    assert(is_white_space(text[i + 1]));
                }
                assert forall|i: int| end - 1 <= i < rest.len() implies is_white_space(
                    #[trigger] rest[i],
                ) by {
                    assert(is_white_space(text[i + 1]));
                }
            }
            lemma_trim_range(rest, start - 1, end - 1);
            assert(rest.subrange(start - 1, end - 1) =~= text.subrange(start, end));
        }
    } else if is_white_space(text.last()) {
        assert(start == 0);
        let rest = text.drop_last();
        assert(end < text.len());
        assert(trim_range(rest, start, end));
        lemma_trim_range(rest, start, end);
        assert(rest.subrange(start, end) =~= text.subrange(start, end));
    } else {
        assert(start == 0 && end == text.len());
        assert(text.subrange(start, end) =~= text);
    }
}

/// The text without its leading and trailing white space.
pub fn trim(text: &str) -> (trimmed: &str)
    ensures
        is_trim_of(trimmed@, text@),
        trimmed@ == trim_spec(text@),
        trimmed@.len() == 0 <==> is_blank_spec(text@),
{
    let chars = chars_of(text);
    let mut start: usize = 0;
    while start < chars.len() && white_space(chars[start])
        invariant
            start <= chars@.len(),
            chars@ == text@,
            forall|i: int| 0 <= i < start ==> is_white_space(#[trigger] text@[i]),
        decreases chars@.len() - start,
    {
        start = start + 1;
    }
    let mut end: usize = chars.len();
    while end > start && white_space(chars[end - 1])
        invariant
            start <= end <= chars@.len(),
            chars@ == text@,
            forall|i: int| end <= i < text@.len() ==> is_white_space(#[trigger] text@[i]),
        decreases end,
    {
        end = end - 1;
    }
    proof {
        assert(trim_range(text@, start as int, end as int));
        if start < end {
            assert(!is_white_space(text@[start as int]));
        }
        lemma_trim_range(text@, start as int, end as int);
    }
    text.substring_char(start, end)
}

/// Whether the text holds nothing but white space.
pub fn is_blank(text: &str) -> (blank: bool)
    ensures
        blank == is_blank_spec(text@),
{
    trim(text).is_empty()
}

/// Whether `text` begins with `prefix`.
pub open spec fn has_prefix(text: Seq<char>, prefix: Seq<char>) -> bool {
    prefix.len() <= text.len() && text.subrange(0, prefix.len() as int) == prefix
}

/// Whether `text` begins with `prefix`.
pub fn starts_with(text: &str, prefix: &str) -> (found: bool)
    ensures
        found == has_prefix(text@, prefix@),
{
    let len: usize = prefix.unicode_len();
    if text.unicode_len() < len {
        return false;
    }
    str_equal(text.substring_char(0, len), prefix)
}

/// What follows `prefix` in `text`, where `text` begins with it.
pub fn strip_prefix<'a>(text: &'a str, prefix: &str) -> (rest: Option<&'a str>)
    ensures
        rest is Some == has_prefix(text@, prefix@),
        rest matches Some(tail) ==> tail@ == text@.subrange(
            prefix@.len() as int,
            text@.len() as int,
        ) && text@ == prefix@ + tail@,
{
    let len: usize = prefix.unicode_len();
    let total: usize = text.unicode_len();
    if starts_with(text, prefix) {
        assert(text@ =~= text@.subrange(0, len as int) + text@.subrange(len as int, total as int));
        Some(text.substring_char(len, total))
    } else {
        None
    }
}

/// Whether `ch` occurs in `text`.
pub fn contains_char(text: &str, ch: char) -> (found: bool)
    ensures
        found == text@.contains(ch),
{
    let chars = chars_of(text);
    let mut index: usize = 0;
    while index < chars.len()
        invariant
            index <= chars@.len(),
            chars@ == text@,
            forall|i: int| 0 <= i < index ==> text@[i] != ch,
        decreases chars@.len() - index,
    {
        if chars[index] == ch {
            assert(text@[index as int] == ch);
            return true;
        }
        index = index + 1;
    }
    false
}

/// The first `max_chars` characters of a text.
pub open spec fn bounded_spec(text: Seq<char>, max_chars: int) -> Seq<char> {
    if text.len() <= max_chars {
        text
    } else {
        text.subrange(0, max_chars)
    }
}

/// The text cut to its first `max_chars` characters, and whether that dropped
/// anything.
pub fn bounded_chars(text: &str, max_chars: usize) -> (bounded: (String, bool))
    ensures
        bounded.0@ == bounded_spec(text@, max_chars as int),
        bounded.1 == (text@.len() > max_chars),
{
    if text.unicode_len() <= max_chars {
        return (text.to_owned(), false);
    }
    (text.substring_char(0, max_chars).to_owned(), true)
}

/// Bounding keeps a prefix of the text, never more than the bound, and changes
/// nothing where the text already fits; a second bounding changes nothing.
pub proof fn law_bounding_is_idempotent(text: Seq<char>, max_chars: nat)
    ensures
        bounded_spec(text, max_chars as int).len() <= max_chars,
        has_prefix(text, bounded_spec(text, max_chars as int)),
        bounded_spec(bounded_spec(text, max_chars as int), max_chars as int) == bounded_spec(
            text,
            max_chars as int,
        ),
{
    assert(text.subrange(0, text.len() as int) =~= text);
}

/// The decimal digit characters.
pub open spec fn is_digit(ch: char) -> bool {
    '0' <= ch <= '9'
}

/// The digit character of a number below ten.
pub open spec fn digit_char(value: int) -> char {
    (('0' as u32) + value) as char
}

/// The value that a string of decimal digits denotes.
pub open spec fn decimal_value(digits: Seq<char>) -> int
    decreases digits.len(),
{
    if digits.len() == 0 {
        0
    } else {
        decimal_value(digits.drop_last()) * 10 + (digits.last() as int - '0' as int)
    }
}

/// The shortest decimal notation of a number.
pub open spec fn decimal_text(value: nat) -> Seq<char>
    decreases value,
{
    if value < 10 {
        seq![digit_char(value as int)]
    } else {
        decimal_text(value / 10).push(digit_char((value % 10) as int))
    }
}

fn digit(value: u64) -> (ch: char)
    requires
        value < 10,
    ensures
        ch == digit_char(value as int),
{
    if value == 0 {
        '0'
    } else if value == 1 {
        '1'
    } else if value == 2 {
        '2'
    } else if value == 3 {
        '3'
    } else if value == 4 {
        '4'
    } else if value == 5 {
        '5'
    } else if value == 6 {
        '6'
    } else if value == 7 {
        '7'
    } else if value == 8 {
        '8'
    } else {
        '9'
    }
}

/// The decimal notation of `value`.
pub fn decimal(value: u64) -> (text: String)
    ensures
        text@ == decimal_text(value as nat),
    decreases value,
{
    if value < 10 {
        let mut text = String::new();
        text.push(digit(value));
        assert(text@ =~= seq![digit_char(value as int)]);
        text
    } else {
        let mut text = decimal(value / 10);
        text.push(digit(value % 10));
        text
    }
}

proof fn lemma_decimal_digits(value: nat)
    ensures
        decimal_text(value).len() > 0,
        forall|i: int| 0 <= i < decimal_text(value).len()
            ==> is_digit(#[trigger] decimal_text(value)[i]),
        decimal_value(decimal_text(value)) == value,
        value > 0 ==> decimal_text(value)[0] != '0',
    decreases value,
{
    reveal_with_fuel(decimal_value, 2);
    if value >= 10 {
        lemma_decimal_digits(value / 10);
        let shorter = decimal_text(value / 10);
        assert(decimal_text(value).drop_last() =~= shorter);
        assert(decimal_text(value)[0] == shorter[0]);
    } else {
        assert(decimal_text(value).drop_last() =~= Seq::<char>::empty());
    }
}

/// Reading back the decimal notation of a number gives the number, and no two
/// numbers share a notation.
pub proof fn law_decimal_round_trip(value: nat)
    ensures
        decimal_value(decimal_text(value)) == value,
{
    lemma_decimal_digits(value);
}

/// The number whose shortest decimal notation is exactly `text`, if a `u64`
/// has it.
pub fn parse_canonical_decimal(text: &str) -> (parsed: Option<u64>)
    ensures
        parsed matches Some(value) ==> text@ == decimal_text(value as nat),
        parsed is None ==> forall|value: u64| text@ != #[trigger] decimal_text(value as nat),
{
    let chars = chars_of(text);
    let mut value: u64 = 0;
    let mut index: usize = 0;
    while index < chars.len()
        invariant
            index <= chars@.len(),
            chars@ == text@,
            value == decimal_value(text@.subrange(0, index as int)),
            forall|i: int| 0 <= i < index ==> is_digit(#[trigger] text@[i]),
        decreases chars@.len() - index,
    {
        let ch: char = chars[index];
        let prefix: Ghost<Seq<char>> = Ghost(text@.subrange(0, index as int + 1));
        proof {
            assert(prefix@.drop_last() =~= text@.subrange(0, index as int));
            assert(prefix@.last() == ch);
        }
        if !('0' <= ch && ch <= '9') {
            proof {
                assert forall|other: u64| text@ != #[trigger] decimal_text(other as nat) by {
                    lemma_decimal_digits(other as nat);
                    assert(!is_digit(text@[index as int]));
                }
            }
            return None;
        }
        let step: u64 = (ch as u32 - '0' as u32) as u64;
        let scaled: Option<u64> = value.checked_mul(10);
        let next: Option<u64> = match scaled {
            Some(product) => product.checked_add(step),
            None => None,
        };
        match next {
            Some(sum) => {
                value = sum;
            },
            None => {
                proof {
                    assert(decimal_value(prefix@) > u64::MAX);
                    assert forall|other: u64| text@ != #[trigger] decimal_text(other as nat) by {
                        lemma_decimal_digits(other as nat);
                        if text@ == decimal_text(other as nat) {
                            lemma_decimal_prefix(text@, index as int + 1);
                        }
                    }
                }
                return None;
            },
        }
        index = index + 1;
    }
    assert(text@.subrange(0, text@.len() as int) =~= text@);
    if str_equal(decimal(value).as_str(), text) {
        Some(value)
    } else {
        proof {
            assert forall|other: u64| text@ != #[trigger] decimal_text(other as nat) by {
                lemma_decimal_digits(other as nat);
            }
        }
        None
    }
}

proof fn lemma_decimal_prefix(digits: Seq<char>, end: int)
    requires
        0 <= end <= digits.len(),
        forall|i: int| 0 <= i < digits.len() ==> is_digit(#[trigger] digits[i]),
    ensures
        0 <= decimal_value(digits.subrange(0, end)) <= decimal_value(digits),
    decreases digits.len(),
{
    if end == digits.len() {
        assert(digits.subrange(0, end) =~= digits);
        if digits.len() > 0 {
            lemma_decimal_prefix(digits.drop_last(), digits.len() - 1);
            assert(digits.drop_last().subrange(0, digits.len() - 1) =~= digits.drop_last());
        }
    } else {
        lemma_decimal_prefix(digits.drop_last(), end);
        assert(digits.drop_last().subrange(0, end) =~= digits.subrange(0, end));
    }
}

/// The digits of an unsigned number: one leading plus sign is passed over.
pub open spec fn unsigned_digits(text: Seq<char>) -> Seq<char> {
    if text.len() > 0 && text[0] == '+' {
        text.subrange(1, text.len() as int)
    } else {
        text
    }
}

/// The `u64` that a text denotes in decimal: digits, at least one, with at most
/// one plus sign before them.
pub open spec fn u64_reading(text: Seq<char>) -> Option<u64> {
    let digits = unsigned_digits(text);
    if digits.len() > 0 && (forall|i: int|
        0 <= i < digits.len() ==> is_digit(#[trigger] digits[i])) && decimal_value(digits)
        <= u64::MAX {
        Some(decimal_value(digits) as u64)
    } else {
        None
    }
}

/// Reads an unsigned decimal number.
pub fn parse_u64(text: &str) -> (parsed: Option<u64>)
    ensures
        parsed == u64_reading(text@),
{
    let chars = chars_of(text);
    let start: usize = if chars.len() > 0 && chars[0] == '+' {
        1
    } else {
        0
    };
    let digits: Ghost<Seq<char>> = Ghost(unsigned_digits(text@));
    assert(digits@ =~= text@.subrange(start as int, text@.len() as int));
    if chars.len() == start {
        return None;
    }
    let mut value: u64 = 0;
    let mut index: usize = start;
    assert(digits@.subrange(0, 0) =~= Seq::<char>::empty());
    while index < chars.len()
        invariant
            start <= index <= chars@.len(),
            start < chars@.len(),
            chars@ == text@,
            digits@ == unsigned_digits(text@),
            digits@ == text@.subrange(start as int, text@.len() as int),
            value == decimal_value(digits@.subrange(0, index - start)),
            forall|i: int| 0 <= i < index - start ==> is_digit(#[trigger] digits@[i]),
        decreases chars@.len() - index,
    {
        let ch: char = chars[index];
        let prefix: Ghost<Seq<char>> = Ghost(digits@.subrange(0, index - start + 1));
        proof {
            assert(prefix@.drop_last() =~= digits@.subrange(0, index - start));
            assert(prefix@.last() == ch);
            assert(digits@[index - start] == ch);
        }
        if !('0' <= ch && ch <= '9') {
            return None;
        }
        let step: u64 = (ch as u32 - '0' as u32) as u64;
        let scaled: Option<u64> = value.checked_mul(10);
        let next: Option<u64> = match scaled {
            Some(product) => product.checked_add(step),
            None => None,
        };
        match next {
            Some(sum) => {
                value = sum;
            },
            None => {
                proof {
                    assert(decimal_value(prefix@) > u64::MAX);
                    if forall|i: int| 0 <= i < digits@.len() ==> is_digit(#[trigger] digits@[i]) {
                        lemma_decimal_prefix(digits@, index - start + 1);
                    }
                }
                return None;
            },
        }
        index = index + 1;
    }
    assert(digits@.subrange(0, digits@.len() as int) =~= digits@);
    Some(value)
}

/// The code points of the white-space characters, in ascending order.
pub open spec fn white_space_codes() -> Seq<u32> {
    seq![
        0x9u32, 0xau32, 0xbu32, 0xcu32, 0xdu32, 0x20u32, 0x85u32, 0xa0u32, 0x1680u32, 0x2000u32,
        0x2001u32, 0x2002u32, 0x2003u32, 0x2004u32, 0x2005u32, 0x2006u32, 0x2007u32, 0x2008u32,
        0x2009u32, 0x200au32, 0x2028u32, 0x2029u32, 0x202fu32, 0x205fu32, 0x3000u32,
    ]
}

/// The white-space characters are the twenty-five that the table lists.
pub proof fn law_white_space_is_listed(ch: char)
    ensures
        is_white_space(ch) <==> exists|i: int|
            0 <= i < white_space_codes().len() && #[trigger] white_space_codes()[i] == ch as u32,
        white_space_codes().len() == 25,
{
    let codes = white_space_codes();
    let code = ch as u32;
    if is_white_space(ch) {
        let at: int = if code <= 0xd {
            code - 0x9
        } else if code == 0x20 {
            5
        } else if code == 0x85 {
            6
        } else if code == 0xa0 {
            7
        } else if code == 0x1680 {
            8
        } else if code <= 0x200a {
            code - 0x2000 + 9
        } else if code == 0x2028 {
            20
        } else if code == 0x2029 {
            21
        } else if code == 0x202f {
            22
        } else if code == 0x205f {
            23
        } else {
            24
        };
        assert(codes[at] == code);
    }
    if exists|i: int| 0 <= i < codes.len() && #[trigger] codes[i] == code {
        let i = choose|i: int| 0 <= i < codes.len() && #[trigger] codes[i] == code;
        assert(codes[i] == code);
    }
}

proof fn lemma_trim(text: Seq<char>) -> (range: (int, int))
    ensures
        trim_range(text, range.0, range.1),
        trim_spec(text) == text.subrange(range.0, range.1),
    decreases text.len(),
{
    if text.len() == 0 {
        assert(text.subrange(0, 0) =~= text);
        (0, 0)
    } else if is_white_space(text[0]) {
        let rest = text.subrange(1, text.len() as int);
        let inner = lemma_trim(rest);
        let range = (inner.0 + 1, inner.1 + 1);
        assert forall|i: int| 0 <= i < range.0 implies is_white_space(#[trigger] text[i]) by {
            if i > 0 {
                assert(is_white_space(rest[i - 1]));
            }
        }
        assert forall|i: int| range.1 <= i < text.len() implies is_white_space(
            #[trigger] text[i],
        ) by {
            assert(is_white_space(rest[i - 1]));
        }
        assert(rest.subrange(inner.0, inner.1) =~= text.subrange(range.0, range.1));
        range
    } else if is_white_space(text.last()) {
        let rest = text.drop_last();
        let range = lemma_trim(rest);
        assert forall|i: int| 0 <= i < range.0 implies is_white_space(#[trigger] text[i]) by {
            assert(is_white_space(rest[i]));
        }
        assert forall|i: int| range.1 <= i < text.len() implies is_white_space(
            #[trigger] text[i],
        ) by {
            if i < rest.len() {
                assert(is_white_space(rest[i]));
            }
        }
        assert(rest.subrange(range.0, range.1) =~= text.subrange(range.0, range.1));
        range
    } else {
        assert(text.subrange(0, text.len() as int) =~= text);
        (0, text.len() as int)
    }
}

/// Trimming takes white space off both ends and nothing else: what is left neither
/// begins nor ends with white space, and only white space stood around it. A text is
/// blank exactly where nothing is left.
pub proof fn law_trimming_strips_white_space(text: Seq<char>)
    ensures
        exists|start: int, end: int|
            0 <= start <= end <= text.len() && trim_spec(text) == #[trigger] text.subrange(
                start,
                end,
            ) && (forall|i: int|
                0 <= i < text.len() && !(start <= i < end) ==> is_white_space(#[trigger] text[i])),
        trim_spec(text).len() > 0 ==> !is_white_space(trim_spec(text)[0]) && !is_white_space(
            trim_spec(text).last(),
        ),
        is_blank_spec(text) <==> trim_spec(text).len() == 0,
{
    let range = lemma_trim(text);
    let start = range.0;
    let end = range.1;
    assert(trim_spec(text) == text.subrange(start, end));
    assert forall|i: int| 0 <= i < text.len() && !(start <= i < end) implies is_white_space(
        #[trigger] text[i],
    ) by {}
    if start < end {
        assert(!is_white_space(text[start]));
    } else {
        assert forall|i: int| 0 <= i < text.len() implies is_white_space(#[trigger] text[i]) by {}
    }
}

/// Joining puts the separator between neighbours and nowhere else: no part gives the
/// empty text, one part itself, and one part more is the separator and that part at
/// the end.
pub proof fn law_joining_separates_neighbours(
    parts: Seq<Seq<char>>,
    part: Seq<char>,
    separator: Seq<char>,
)
    ensures
        join_spec(Seq::<Seq<char>>::empty(), separator) == Seq::<char>::empty(),
        join_spec(seq![part], separator) == part,
        parts.len() > 0 ==> join_spec(parts.push(part), separator) == join_spec(parts, separator)
            + separator + part,
{
    assert(parts.push(part).drop_last() =~= parts);
}

/// A bounded text is the text itself where it fits, and otherwise its first
/// characters, as many as the bound.
pub proof fn law_bounding_keeps_the_front(text: Seq<char>, max_chars: nat)
    ensures
        text.len() <= max_chars ==> bounded_spec(text, max_chars as int) == text,
        text.len() > max_chars ==> bounded_spec(text, max_chars as int).len() == max_chars,
        forall|i: int|
            0 <= i < bounded_spec(text, max_chars as int).len() ==> #[trigger] bounded_spec(
                text,
                max_chars as int,
            )[i] == text[i],
{
}

/// A text has a prefix exactly where it is that prefix and something behind it.
pub proof fn law_prefixes_are_fronts(text: Seq<char>, prefix: Seq<char>)
    ensures
        has_prefix(text, prefix) <==> exists|rest: Seq<char>| text == #[trigger] (prefix + rest),
{
    if has_prefix(text, prefix) {
        let rest = text.subrange(prefix.len() as int, text.len() as int);
        assert(text =~= prefix + rest);
    }
    if exists|rest: Seq<char>| text == #[trigger] (prefix + rest) {
        let rest = choose|rest: Seq<char>| text == #[trigger] (prefix + rest);
        assert((prefix + rest).subrange(0, prefix.len() as int) =~= prefix);
    }
}

/// An unsigned number is read of decimal digits, one or more, with or without a plus
/// sign before them, up to the greatest number of sixty-four bits; it is the number
/// whose decimal notation the digits are.
pub proof fn law_decimal_notation_reads_back(value: u64)
    ensures
        u64_reading(decimal_text(value as nat)) == Some(value),
        u64_reading(seq!['+'] + decimal_text(value as nat)) == Some(value),
        u64_reading(Seq::<char>::empty()) is None,
{
    law_decimal_round_trip(value as nat);
    lemma_decimal_digits(value as nat);
    let digits = decimal_text(value as nat);
    assert(is_digit(digits[0]));
    assert(unsigned_digits(digits) == digits);
    let plus = seq!['+'] + digits;
    assert(plus.subrange(1, plus.len() as int) =~= digits);
}

/// A text that holds anything but digits behind its sign, or too great a number, is
/// no unsigned number.
pub proof fn law_other_texts_are_no_numbers(text: Seq<char>, at: int)
    requires
        0 <= at < text.len(),
        !('0' <= text[at] <= '9'),
        at > 0 || text[at] != '+',
    ensures
        u64_reading(text) is None,
{
    let digits = unsigned_digits(text);
    if text[0] == '+' {
        assert(digits[at - 1] == text[at]);
        assert(!is_digit(digits[at - 1]));
    } else {
        assert(!is_digit(digits[at]));
    }
}

} // verus!
