//! SHA-256 digests and their lowercase hexadecimal notation.
use crate::text;
use sha2::Digest;
use vstd::prelude::*;
use vstd::string::*;
use vstd::utf8::*;

verus! {

/// The SHA-256 digest of a byte string.
pub uninterp spec fn sha256_digest(bytes: Seq<u8>) -> Seq<u8>;

/// `sha2::Sha256::digest` hashes the whole slice; its 32 bytes are a function
/// of the bytes alone.
#[verifier::external_body]
pub(crate) fn sha256(bytes: &[u8]) -> (digest: [u8; 32])
    ensures
        digest@ == sha256_digest(bytes@),
{
    sha2::Sha256::digest(bytes).into()
}

/// The lowercase hexadecimal digit of a number below sixteen.
pub open spec fn hex_digit(value: int) -> char {
    if value < 10 {
        (('0' as u32) + value) as char
    } else {
        (('a' as u32) + (value - 10)) as char
    }
}

/// The number that a lowercase hexadecimal digit stands for.
pub open spec fn hex_digit_value(ch: char) -> int {
    if '0' <= ch <= '9' {
        ch as int - '0' as int
    } else {
        ch as int - 'a' as int + 10
    }
}

/// Two lowercase hexadecimal digits per byte, the high half first.
pub open spec fn hex_text(bytes: Seq<u8>) -> Seq<char> {
    Seq::new(
        2 * bytes.len(),
        |i: int|
            if i % 2 == 0 {
                hex_digit(bytes[i / 2] as int / 16)
            } else {
                hex_digit(bytes[i / 2] as int % 16)
            },
    )
}

fn hex_char(value: u8) -> (ch: char)
    requires
        value < 16,
    ensures
        ch == hex_digit(value as int),
{
    let code: u8 = if value < 10 {
        48 + value
    } else {
        87 + value
    };
    code as char
}

/// The lowercase hexadecimal notation of `bytes`.
pub fn hex_encode(bytes: &[u8]) -> (text: String)
    requires
        2 * bytes@.len() <= usize::MAX,
    ensures
        text@ == hex_text(bytes@),
{
    let mut text = String::new();
    let mut index: usize = 0;
    while index < bytes.len()
        invariant
            index <= bytes@.len(),
            text@ == hex_text(bytes@).subrange(0, 2 * index as int),
        decreases bytes@.len() - index,
    {
        let byte: u8 = bytes[index];
        text.push(hex_char(byte / 16));
        text.push(hex_char(byte % 16));
        proof {
            let full = hex_text(bytes@);
            assert(full[2 * index as int] == hex_digit(byte as int / 16));
            assert((2 * index as int + 1) / 2 == index);
            assert(full[2 * index as int + 1] == hex_digit(byte as int % 16));
            assert(text@ =~= full.subrange(0, 2 * (index as int + 1)));
        }
        index = index + 1;
    }
    assert(hex_text(bytes@).subrange(0, 2 * bytes@.len() as int) =~= hex_text(bytes@));
    text
}

/// The SHA-256 digest in lowercase hexadecimal.
pub open spec fn sha256_text(bytes: Seq<u8>) -> Seq<char> {
    hex_text(sha256_digest(bytes))
}

/// The SHA-256 digest of `bytes` in lowercase hexadecimal.
pub fn sha256_hex(bytes: &[u8]) -> (text: String)
    ensures
        text@ == sha256_text(bytes@),
        is_lower_sha256_spec(text@),
{
    let digest = sha256(bytes);
    proof {
        lemma_hex_is_lower(digest@);
    }
    hex_encode(&digest)
}

/// The characters `0-9` and `a-f`.
pub open spec fn is_lower_hex(ch: char) -> bool {
    ('0' <= ch <= '9') || ('a' <= ch <= 'f')
}

/// Exactly sixty-four lowercase hexadecimal digits.
pub open spec fn is_lower_sha256_spec(text: Seq<char>) -> bool {
    &&& text.len() == 64
    &&& forall|i: int| 0 <= i < text.len() ==> is_lower_hex(#[trigger] text[i])
}

/// Whether `value` is a SHA-256 digest in lowercase hexadecimal.
pub fn is_lower_sha256(value: &str) -> (accepted: bool)
    ensures
        accepted == is_lower_sha256_spec(value@),
{
    let chars = text::chars_of(value);
    if chars.len() != 64 {
        return false;
    }
    let mut index: usize = 0;
    while index < chars.len()
        invariant
            index <= chars@.len(),
            chars@ == value@,
            forall|i: int| 0 <= i < index ==> is_lower_hex(#[trigger] value@[i]),
        decreases chars@.len() - index,
    {
        let ch: char = chars[index];
        if !(('0' <= ch && ch <= '9') || ('a' <= ch && ch <= 'f')) {
            assert(!is_lower_hex(value@[index as int]));
            return false;
        }
        index = index + 1;
    }
    true
}

proof fn lemma_hex_digit(value: int)
    requires
        0 <= value < 16,
    ensures
        is_lower_hex(hex_digit(value)),
        hex_digit_value(hex_digit(value)) == value,
{
}

proof fn lemma_hex_digit_back(ch: char)
    requires
        is_lower_hex(ch),
    ensures
        0 <= hex_digit_value(ch) < 16,
        hex_digit(hex_digit_value(ch)) == ch,
{
}

proof fn lemma_hex_is_lower(bytes: Seq<u8>)
    ensures
        hex_text(bytes).len() == 2 * bytes.len(),
        forall|i: int| 0 <= i < 2 * bytes.len() ==> is_lower_hex(#[trigger] hex_text(bytes)[i]),
{
    assert forall|i: int| 0 <= i < 2 * bytes.len() implies is_lower_hex(
        #[trigger] hex_text(bytes)[i],
    ) by {
        lemma_hex_digit(bytes[i / 2] as int / 16);
        lemma_hex_digit(bytes[i / 2] as int % 16);
    }
}

fn hex_value(ch: char) -> (value: u8)
    requires
        is_lower_hex(ch),
    ensures
        value == hex_digit_value(ch),
        value < 16,
{
    let code: u32 = ch as u32;
    if code <= 57 {
        (code - 48) as u8
    } else {
        (code - 87) as u8
    }
}

/// The digest whose lowercase hexadecimal notation is `value`; nothing where
/// `value` is not such a notation.
pub fn decode_sha256_hex(value: &str) -> (digest: Option<[u8; 32]>)
    ensures
        digest is Some == is_lower_sha256_spec(value@),
        digest matches Some(bytes) ==> hex_text(bytes@) == value@,
{
    if !is_lower_sha256(value) {
        return None;
    }
    let chars = text::chars_of(value);
    let mut bytes: [u8; 32] = [0u8;32];
    let mut index: usize = 0;
    while index < 32
        invariant
            index <= 32,
            chars@ == value@,
            is_lower_sha256_spec(value@),
            forall|k: int|
                0 <= k < index ==> {
                    &&& hex_digit((#[trigger] bytes@[k]) as int / 16) == value@[2 * k]
                    &&& hex_digit(bytes@[k] as int % 16) == value@[2 * k + 1]
                },
        decreases 32 - index,
    {
        let high: u8 = hex_value(chars[2 * index]);
        let low: u8 = hex_value(chars[2 * index + 1]);
        let byte: u8 = high * 16 + low;
        proof {
            lemma_hex_digit_back(value@[2 * index as int]);
            lemma_hex_digit_back(value@[2 * index as int + 1]);
            assert(byte as int / 16 == high as int && byte as int % 16 == low as int);
        }
        bytes[index] = byte;
        index = index + 1;
    }
    proof {
        assert forall|i: int| 0 <= i < 64 implies #[trigger] hex_text(bytes@)[i] == value@[i] by {
            let k = i / 2;
            assert(hex_digit(bytes@[k] as int / 16) == value@[2 * k]);
            if i % 2 == 0 {
                assert(i == 2 * k);
            } else {
                assert(i == 2 * k + 1);
            }
        }
        assert(hex_text(bytes@) =~= value@);
    }
    Some(bytes)
}

/// Two byte strings with the same hexadecimal notation are the same.
pub proof fn law_hex_is_injective(left: Seq<u8>, right: Seq<u8>)
    requires
        hex_text(left) == hex_text(right),
    ensures
        left == right,
{
    lemma_hex_is_lower(left);
    lemma_hex_is_lower(right);
    assert(left.len() == right.len());
    assert forall|k: int| 0 <= k < left.len() implies left[k] == right[k] by {
        assert((2 * k) / 2 == k && (2 * k) % 2 == 0 && (2 * k + 1) % 2 == 1);
        assert(hex_text(left)[2 * k] == hex_text(right)[2 * k]);
        assert(hex_text(left)[2 * k + 1] == hex_text(right)[2 * k + 1]);
        assert((2 * k + 1) / 2 == k);
        lemma_hex_digit(left[k] as int / 16);
        lemma_hex_digit(left[k] as int % 16);
        lemma_hex_digit(right[k] as int / 16);
        lemma_hex_digit(right[k] as int % 16);
        assert(hex_text(left)[2 * k] == hex_digit(left[k] as int / 16));
        assert(hex_text(right)[2 * k] == hex_digit(right[k] as int / 16));
        assert(hex_text(left)[2 * k + 1] == hex_digit(left[k] as int % 16));
        assert(hex_text(right)[2 * k + 1] == hex_digit(right[k] as int % 16));
        assert(left[k] as int == (left[k] as int / 16) * 16 + left[k] as int % 16);
    }
    assert(left =~= right);
}

/// Compares two digests.
pub fn digests_equal(left: &[u8; 32], right: &[u8; 32]) -> (equal: bool)
    ensures
        equal == (left@ == right@),
{
    let mut index: usize = 0;
    while index < 32
        invariant
            index <= 32,
            forall|k: int| 0 <= k < index ==> left@[k] == right@[k],
        decreases 32 - index,
    {
        if left[index] != right[index] {
            return false;
        }
        index = index + 1;
    }
    assert(left@ =~= right@);
    true
}

/// The hexadecimal notation of bytes has two digits for each byte, the higher half
/// before the lower, out of the sixteen lowercase digits.
pub proof fn law_hex_spells_each_byte(bytes: Seq<u8>, at: int)
    requires
        0 <= at < bytes.len(),
    ensures
        hex_text(bytes).len() == 2 * bytes.len(),
        hex_text(bytes)[2 * at] == "0123456789abcdef"@[bytes[at] as int / 16],
        hex_text(bytes)[2 * at + 1] == "0123456789abcdef"@[bytes[at] as int % 16],
{
    reveal_strlit("0123456789abcdef");
    assert((2 * at) / 2 == at && (2 * at) % 2 == 0);
    assert((2 * at + 1) / 2 == at && (2 * at + 1) % 2 == 1);
    assert(hex_text(bytes)[2 * at] == hex_digit(bytes[at] as int / 16));
    assert(hex_text(bytes)[2 * at + 1] == hex_digit(bytes[at] as int % 16));
}

/// A digest in text is sixty-four characters long, each one of the sixteen lowercase
/// hexadecimal digits; any other text is none.
pub proof fn law_digest_texts_are_lower_hex(text: Seq<char>)
    ensures
        is_lower_sha256_spec(text) <==> text.len() == 64 && (forall|i: int|
            0 <= i < text.len() ==> "0123456789abcdef"@.contains(#[trigger] text[i])),
{
    reveal_strlit("0123456789abcdef");
    let digits = "0123456789abcdef"@;
    assert forall|ch: char| is_lower_hex(ch) == #[trigger] digits.contains(ch) by {
        if is_lower_hex(ch) {
            lemma_hex_digit_back(ch);
            assert(digits[hex_digit_value(ch)] == ch);
        }
        if digits.contains(ch) {
            let i = choose|i: int| 0 <= i < digits.len() && digits[i] == ch;
            assert(digits[i] == ch);
        }
    }
    if text.len() == 64 && (forall|i: int|
        0 <= i < text.len() ==> digits.contains(#[trigger] text[i])) {
        assert forall|i: int| 0 <= i < text.len() implies is_lower_hex(#[trigger] text[i]) by {
            assert(digits.contains(text[i]));
        }
    }
}

} // verus!
