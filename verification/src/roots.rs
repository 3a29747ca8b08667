//! Which directories a daemon may read, and how often it looks at them.
use crate::text;
use crate::text::{chars_of, parse_u64, str_equal, trim};
use vstd::prelude::*;
use vstd::string::*;

verus! {

/// A path with every slash turned into a backslash.
pub open spec fn backslashed(path: Seq<char>) -> Seq<char> {
    Seq::new(
        path.len(),
        |i: int|
            if path[i] == '/' {
                '\\'
            } else {
                path[i]
            },
    )
}

/// A path without the backslashes at its end.
pub open spec fn without_trailing(path: Seq<char>) -> Seq<char>
    decreases path.len(),
{
    if path.len() > 0 && path.last() == '\\' {
        without_trailing(path.drop_last())
    } else {
        path
    }
}

/// A letter of ASCII in lower case; any other character as it is.
pub open spec fn lower(ch: char) -> char {
    if 'A' <= ch <= 'Z' {
        (ch as u32 + 32) as char
    } else {
        ch
    }
}

/// The text with the letters of ASCII in lower case.
pub open spec fn lowered(text: Seq<char>) -> Seq<char> {
    Seq::new(text.len(), |i: int| lower(text[i]))
}

/// The text with the letters of ASCII in lower case.
pub fn lower_text(text: &str) -> (lower_case: String)
    ensures
        lower_case@ == lowered(text@),
{
    let chars = chars_of(text);
    let mut lower_case = String::new();
    let mut index: usize = 0;
    assert(lower_case@ =~= Seq::<char>::empty());
    while index < chars.len()
        invariant
            index <= chars@.len(),
            chars@ == text@,
            lower_case@.len() == index,
            forall|i: int| 0 <= i < index ==> lower_case@[i] == lower(text@[i]),
        decreases chars@.len() - index,
    {
        lower_case.push(lower_char(chars[index]));
        index = index + 1;
    }
    assert(lower_case@ =~= lowered(text@));
    lower_case
}

/// What two notations of one path have in common. Where the file system ignores
/// case, so does the key.
pub open spec fn path_key_spec(path: Seq<char>, ignore_case: bool) -> Seq<char> {
    let plain = without_trailing(backslashed(path));
    if ignore_case {
        lowered(plain)
    } else {
        plain
    }
}

fn lower_char(ch: char) -> (lower_case: char)
    ensures
        lower_case == lower(ch),
{
    if 'A' <= ch && ch <= 'Z' {
        let code: u8 = ch as u8;
        (code + 32) as char
    } else {
        ch
    }
}

proof fn lemma_without_trailing(path: Seq<char>, end: int)
    requires
        0 <= end <= path.len(),
        forall|i: int| end <= i < path.len() ==> path[i] == '\\',
        end > 0 ==> path[end - 1] != '\\',
    ensures
        without_trailing(path) == path.subrange(0, end),
    decreases path.len(),
{
    if end < path.len() {
        lemma_without_trailing(path.drop_last(), end);
        assert(path.drop_last().subrange(0, end) =~= path.subrange(0, end));
    } else {
        assert(path.subrange(0, end) =~= path);
    }
}

/// The key of a path: the same for notations that differ only in the kind of
/// slash, in slashes at the end and, where `ignore_case`, in the case of ASCII.
pub fn path_key(path: &str, ignore_case: bool) -> (key: String)
    ensures
        key@ == path_key_spec(path@, ignore_case),
{
    let mut chars = chars_of(path);
    let mut index: usize = 0;
    while index < chars.len()
        invariant
            index <= chars@.len() == path@.len(),
            forall|i: int| 0 <= i < index ==> chars@[i] == backslashed(path@)[i],
            forall|i: int| index <= i < chars@.len() ==> chars@[i] == path@[i],
        decreases chars@.len() - index,
    {
        if chars[index] == '/' {
            chars.set(index, '\\');
        }
        index = index + 1;
    }
    assert(chars@ =~= backslashed(path@));
    let mut end: usize = chars.len();
    while end > 0 && chars[end - 1] == '\\'
        invariant
            end <= chars@.len(),
            forall|i: int| end <= i < chars@.len() ==> chars@[i] == '\\',
        decreases end,
    {
        end = end - 1;
    }
    proof {
        lemma_without_trailing(chars@, end as int);
    }
    let ghost plain = chars@.subrange(0, end as int);
    let mut key = String::new();
    let mut at: usize = 0;
    assert(key@ =~= Seq::<char>::empty());
    while at < end
        invariant
            at <= end <= chars@.len(),
            plain == chars@.subrange(0, end as int),
            key@.len() == at,
            forall|i: int|
                0 <= i < at ==> key@[i] == (if ignore_case {
                    lower(plain[i])
                } else {
                    plain[i]
                }),
        decreases end - at,
    {
        let ch: char = chars[at];
        if ignore_case {
            key.push(lower_char(ch));
        } else {
            key.push(ch);
        }
        at = at + 1;
    }
    assert(key@ =~= path_key_spec(path@, ignore_case));
    key
}

/// Whether two notations are of one path.
pub fn paths_equivalent(left: &str, right: &str, ignore_case: bool) -> (equivalent: bool)
    ensures
        equivalent == (path_key_spec(left@, ignore_case) == path_key_spec(right@, ignore_case)),
{
    str_equal(path_key(left, ignore_case).as_str(), path_key(right, ignore_case).as_str())
}

/// A key is its own key: taking it again changes nothing.
pub proof fn law_path_keys_are_stable(path: Seq<char>, ignore_case: bool)
    ensures
        path_key_spec(path_key_spec(path, ignore_case), ignore_case) == path_key_spec(
            path,
            ignore_case,
        ),
{
    let plain = without_trailing(backslashed(path));
    lemma_trailing_prefix(backslashed(path));
    let key = path_key_spec(path, ignore_case);
    assert forall|i: int| 0 <= i < key.len() implies key[i] != '/' by {
        assert(plain[i] == backslashed(path)[i]);
        if ignore_case {
            assert(key[i] == lower(plain[i]));
        }
    }
    assert(backslashed(key) =~= key);
    if key.len() > 0 {
        assert(plain.last() != '\\');
        if ignore_case {
            assert(key.last() == lower(plain.last()));
        }
    }
    assert(without_trailing(key) == key);
    if ignore_case {
        assert forall|i: int| 0 <= i < key.len() implies lower(#[trigger] key[i]) == key[i] by {
            assert(key[i] == lower(plain[i]));
        }
        assert(lowered(key) =~= key);
    }
}

proof fn lemma_trailing_prefix(path: Seq<char>)
    ensures
        without_trailing(path).len() <= path.len(),
        forall|i: int| 0 <= i < without_trailing(path).len()
            ==> without_trailing(path)[i] == path[i],
        without_trailing(path).len() > 0 ==> without_trailing(path).last() != '\\',
    decreases path.len(),
{
    if path.len() > 0 && path.last() == '\\' {
        lemma_trailing_prefix(path.drop_last());
        assert forall|i: int| 0 <= i < without_trailing(path).len() implies without_trailing(
            path,
        )[i] == path[i] by {
            assert(path.drop_last()[i] == path[i]);
        }
    }
}

/// The database paths of the host's own daemon.
#[derive(Debug)]
pub struct DefaultPaths {
    pub db_path: String,
    pub daemon_db_path: String,
    /// Whether the file system ignores case.
    pub ignore_case: bool,
}

/// Whether a database is the host's own.
pub open spec fn is_host_db(db_path: Seq<char>, defaults: DefaultPaths) -> bool {
    path_key_spec(db_path, defaults.ignore_case) == path_key_spec(
        defaults.db_path@,
        defaults.ignore_case,
    ) || path_key_spec(db_path, defaults.ignore_case) == path_key_spec(
        defaults.daemon_db_path@,
        defaults.ignore_case,
    )
}

/// Whether a daemon with this database may read the host's own directories.
pub fn host_root_allowed_for_db(db_path: &str, defaults: &DefaultPaths) -> (allowed: bool)
    ensures
        allowed == is_host_db(db_path@, *defaults),
{
    paths_equivalent(db_path, defaults.db_path.as_str(), defaults.ignore_case) || paths_equivalent(
        db_path,
        defaults.daemon_db_path.as_str(),
        defaults.ignore_case,
    )
}

/// The database path of a daemon: its own, else the default.
pub fn configured_db_path(db_path: Option<String>, defaults: &DefaultPaths) -> (path: String)
    ensures
        path@ == (match db_path {
            Some(own) => own@,
            None => defaults.db_path@,
        }),
{
    match db_path {
        Some(own) => own,
        None => defaults.db_path.clone(),
    }
}

/// Why a setting in seconds cannot be used.
#[derive(Clone, Copy, Debug, PartialEq, Eq, Structural)]
pub enum SecondsError {
    NotANumber,
    NotUnicode,
}

/// How the parts of a path are told apart.
#[derive(Clone, Copy, Debug, PartialEq, Eq, Structural)]
pub enum PathStyle {
    /// By slashes.
    Posix,
    /// By slashes and backslashes; the letter of a drive has no case.
    Windows,
}

/// Whether a character stands between two parts of a path.
pub open spec fn is_path_separator(ch: char, style: PathStyle) -> bool {
    ch == '/' || (style == PathStyle::Windows && ch == '\\')
}

/// Where the part of a path that starts at `from` ends.
pub open spec fn path_part_end(path: Seq<char>, from: int, style: PathStyle) -> int
    decreases path.len() - from,
{
    if from >= path.len() || is_path_separator(path[from], style) {
        from
    } else {
        path_part_end(path, from + 1, style)
    }
}

/// A part of a path as it is compared.
pub open spec fn path_part(path: Seq<char>, from: int, end: int, style: PathStyle) -> Seq<char> {
    let part = path.subrange(from, end);
    if style == PathStyle::Windows && from == 0 && part.len() == 2 && part[1] == ':' {
        lowered(part)
    } else {
        part
    }
}

/// Whether a part of a path counts: an empty one never does, and a dot only where
/// the path begins with it.
pub open spec fn path_part_counts(path: Seq<char>, from: int, end: int) -> bool {
    from < end && (from == 0 || !(end == from + 1 && path[from] == '.'))
}

/// The parts of a path from `from` on.
pub open spec fn path_parts(path: Seq<char>, from: int, style: PathStyle) -> Seq<Seq<char>>
    decreases path.len() + 1 - from,
    via path_parts_decrease
{
    if from < 0 || from >= path.len() {
        Seq::empty()
    } else {
        let end = path_part_end(path, from, style);
        let rest = path_parts(path, end + 1, style);
        if path_part_counts(path, from, end) {
            seq![path_part(path, from, end, style)] + rest
        } else {
            rest
        }
    }
}

#[via_fn]
proof fn path_parts_decrease(path: Seq<char>, from: int, style: PathStyle) {
    if 0 <= from < path.len() {
        lemma_path_part_end(path, from, style);
    }
}

proof fn lemma_path_part_end(path: Seq<char>, from: int, style: PathStyle)
    requires
        0 <= from <= path.len(),
    ensures
        from <= path_part_end(path, from, style) <= path.len(),
        forall|i: int|
            from <= i < path_part_end(path, from, style) ==> !is_path_separator(path[i], style),
    decreases path.len() - from,
{
    if from < path.len() && !is_path_separator(path[from], style) {
        lemma_path_part_end(path, from + 1, style);
    }
}

/// How many separators a path begins with, as far as they tell paths apart: one
/// for the root, two for a share.
pub open spec fn path_root(path: Seq<char>, style: PathStyle) -> int {
    if path.len() == 0 || !is_path_separator(path[0], style) {
        0
    } else if style == PathStyle::Windows && path.len() > 1 && is_path_separator(path[1], style) {
        2
    } else {
        1
    }
}

/// Whether two paths are the same part by part: repeated and trailing separators
/// do not tell them apart, nor does a dot inside.
pub open spec fn same_path_spec(left: Seq<char>, right: Seq<char>, style: PathStyle) -> bool {
    &&& path_root(left, style) == path_root(right, style)
    &&& path_parts(left, 0, style) == path_parts(right, 0, style)
}

fn is_separating(ch: char, style: PathStyle) -> (separates: bool)
    ensures
        separates == is_path_separator(ch, style),
{
    ch == '/' || (style == PathStyle::Windows && ch == '\\')
}

fn root_of_path(chars: &Vec<char>, style: PathStyle) -> (root: u8)
    ensures
        root == path_root(chars@, style),
{
    if chars.len() == 0 || !is_separating(chars[0], style) {
        0
    } else if style == PathStyle::Windows && chars.len() > 1 && is_separating(chars[1], style) {
        2
    } else {
        1
    }
}

fn part_of_path(chars: &Vec<char>, from: usize, end: usize, style: PathStyle) -> (part: String)
    requires
        from <= end <= chars@.len(),
    ensures
        part@ == path_part(chars@, from as int, end as int, style),
{
    let mut part = String::new();
    let mut index: usize = from;
    while index < end
        invariant
            from <= index <= end <= chars@.len(),
            part@ == chars@.subrange(from as int, index as int),
        decreases end - index,
    {
        part.push(chars[index]);
        index = index + 1;
        assert(part@ =~= chars@.subrange(from as int, index as int));
    }
    if style == PathStyle::Windows && from == 0 && end == 2 && chars[1] == ':' {
        return lower_text(part.as_str());
    }
    part
}

fn parts_of_path(chars: &Vec<char>, style: PathStyle) -> (parts: Vec<String>)
    ensures
        text::texts(parts@) == path_parts(chars@, 0, style),
{
    let mut parts: Vec<String> = Vec::new();
    let mut from: usize = 0;
    assert(text::texts(parts@) + path_parts(chars@, 0, style) =~= path_parts(chars@, 0, style));
    while from < chars.len()
        invariant
            text::texts(parts@) + path_parts(chars@, from as int, style) == path_parts(
                chars@,
                0,
                style,
            ),
        decreases chars@.len() - from,
    {
        let mut end: usize = from;
        while end < chars.len() && !is_separating(chars[end], style)
            invariant
                from <= end <= chars@.len(),
                path_part_end(chars@, from as int, style) == path_part_end(
                    chars@,
                    end as int,
                    style,
                ),
            decreases chars@.len() - end,
        {
            end = end + 1;
        }
        assert(end == path_part_end(chars@, from as int, style));
        let ghost before = text::texts(parts@);
        let ghost rest = path_parts(chars@, end + 1, style);
        if from < end && (from == 0 || !(end == from + 1 && chars[from] == '.')) {
            let part = part_of_path(chars, from, end, style);
            parts.push(part);
            assert(text::texts(parts@) =~= before.push(part@));
            assert(before.push(part@) + rest =~= before + (seq![part@] + rest));
        }
        if end == chars.len() {
            assert(text::texts(parts@) + rest =~= text::texts(parts@));
            return parts;
        }
        from = end + 1;
    }
    assert(text::texts(parts@) + Seq::<Seq<char>>::empty() =~= text::texts(parts@));
    parts
}

/// Compares two paths part by part.
pub fn same_path(left: &str, right: &str, style: PathStyle) -> (same: bool)
    ensures
        same == same_path_spec(left@, right@, style),
{
    let left_chars = text::chars_of(left);
    let right_chars = text::chars_of(right);
    if root_of_path(&left_chars, style) != root_of_path(&right_chars, style) {
        return false;
    }
    let left_parts = parts_of_path(&left_chars, style);
    let right_parts = parts_of_path(&right_chars, style);
    text::same_texts(&left_parts, &right_parts)
}

/// A setting as the environment gives it.
#[derive(Debug)]
pub enum Setting {
    Absent,
    NotUnicode,
    Text(String),
}

/// The seconds that a setting names, or the default where it is absent. A
/// setting that cannot be read is never passed over.
pub fn parse_secs_env(setting: &Setting, default_secs: u64) -> (secs: Result<u64, SecondsError>)
    ensures
        secs == (match *setting {
            Setting::Absent => Ok(default_secs),
            Setting::NotUnicode => Err(SecondsError::NotUnicode),
            Setting::Text(text) => match text::u64_reading(text::trim_spec(text@)) {
                Some(number) => Ok(number),
                None => Err(SecondsError::NotANumber),
            },
        }),
{
    match setting {
        Setting::Absent => Ok(default_secs),
        Setting::NotUnicode => Err(SecondsError::NotUnicode),
        Setting::Text(text) => match parse_u64(trim(text.as_str())) {
            Some(number) => Ok(number),
            None => Err(SecondsError::NotANumber),
        },
    }
}

} // verus!
