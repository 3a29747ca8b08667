use synapse_agents::digest::{decode_sha256_hex, digests_equal, hex_encode, is_lower_sha256, sha256_hex};
use synapse_agents::guarded::{GuardedError, GuardedWrite, RowRead, settle_guarded_write};
use synapse_agents::json::{
    Json, JsonNumber, as_i64, bounded_json_string, member_of, plain_string, read_json_bytes,
    str_member_of, u64_member_of,
};
use synapse_agents::roots::{
    DefaultPaths, PathStyle, SecondsError, Setting, configured_db_path, host_root_allowed_for_db,
    lower_text, parse_secs_env, path_key, paths_equivalent, same_path,
};
use synapse_agents::text::{
    bounded_chars, contains_char, decimal, is_blank, join_parts, parse_canonical_decimal, parse_u64,
    starts_with, strip_prefix, trim,
};

#[test]
fn sha256_matches_the_published_vectors() {
    assert_eq!(
        sha256_hex(b"abc"),
        "ba7816bf8f01cfea414140de5dae2223b00361a396177a9cb410ff61f20015ad"
    );
    assert_eq!(
        sha256_hex(b""),
        "e3b0c44298fc1c149afbf4c8996fb92427ae41e4649b934ca495991b7852b855"
    );
}

#[test]
fn hex_notation_is_lower_case_and_read_back() {
    assert_eq!(hex_encode(&[0, 15, 16, 255]), "000f10ff");
    let text = sha256_hex(b"abc");
    let digest = decode_sha256_hex(&text).unwrap();
    assert_eq!(hex_encode(&digest), text);
    assert!(digests_equal(&digest, &digest));
    assert!(!digests_equal(&digest, &[0; 32]));
}

#[test]
fn only_sixty_four_lower_hex_digits_are_a_digest() {
    let text = sha256_hex(b"abc");
    assert!(is_lower_sha256(&text));
    assert!(!is_lower_sha256(&text[1..]));
    assert!(!is_lower_sha256(&text.to_uppercase()));
    assert!(!is_lower_sha256(&text.replace('a', "g")));
    assert!(decode_sha256_hex("ab").is_none());
}

#[test]
fn bounding_cuts_characters_and_is_idempotent() {
    assert_eq!(bounded_chars("héllo", 2), ("hé".to_owned(), true));
    assert_eq!(bounded_chars("héllo", 5), ("héllo".to_owned(), false));
    let (once, _) = bounded_chars("abcdef", 3);
    assert_eq!(bounded_chars(&once, 3), (once.clone(), false));
}

#[test]
fn trimming_takes_all_white_space() {
    assert_eq!(trim(" \t\u{3000}a b\u{a0}\n"), "a b");
    assert_eq!(trim("plain"), "plain");
    assert!(is_blank(" \u{2003} "));
    assert!(!is_blank(" x "));
}

#[test]
fn prefixes_and_members_of_a_text() {
    assert!(starts_with("agent-spawn-1", "agent-spawn-"));
    assert!(!starts_with("agent", "agent-spawn-"));
    assert_eq!(strip_prefix("tool:Bash", "tool:"), Some("Bash"));
    assert_eq!(strip_prefix("Bash", "tool:"), None);
    assert!(contains_char("a\0b", '\0'));
    assert_eq!(join_parts(&vec!["a".to_owned(), "b".to_owned()], "\n"), "a\nb");
}

#[test]
fn decimal_notation_round_trips() {
    for value in [0, 9, 10, 4_294_967_296, u64::MAX] {
        assert_eq!(decimal(value), value.to_string());
        assert_eq!(parse_canonical_decimal(&decimal(value)), Some(value));
    }
    assert_eq!(parse_canonical_decimal("007"), None);
    assert_eq!(parse_canonical_decimal("18446744073709551616"), None);
    assert_eq!(parse_canonical_decimal(""), None);
}

#[test]
fn unsigned_numbers_are_read_as_the_standard_library_does() {
    for text in ["0", "+7", "007", "18446744073709551615", "18446744073709551616", "", "+", "-1", "1a"] {
        assert_eq!(parse_u64(text), text.parse::<u64>().ok(), "{}", text);
    }
}

#[test]
fn json_is_read_from_bytes() {
    let value = read_json_bytes(br#"{"a":1,"b":-2,"c":"x","d":[true,null],"e":1.5}"#).unwrap();
    assert_eq!(u64_member_of(&value, "a"), Some(1));
    assert_eq!(as_i64(member_of(&value, "b")), Some(-2));
    assert_eq!(str_member_of(&value, "c"), Some("x"));
    assert!(matches!(member_of(&value, "e"), Some(Json::Number(JsonNumber::Decimal(text))) if text == "1.5"));
    assert!(member_of(&value, "z").is_none());
    assert!(read_json_bytes(b"{").is_none());
    assert!(read_json_bytes(&[0xff]).is_none());
}

#[test]
fn numbers_beyond_i64_have_no_signed_value() {
    let value = read_json_bytes(b"{\"n\":18446744073709551615}").unwrap();
    assert_eq!(as_i64(member_of(&value, "n")), None);
    assert_eq!(u64_member_of(&value, "n"), Some(u64::MAX));
}

#[test]
fn decimals_are_written_as_they_were_read() {
    for (read, written) in [
        ("31.2452701914394380", "31.245270191439438"),
        ("0.1", "0.1"),
        ("-2.5", "-2.5"),
    ] {
        let value = read_json_bytes(read.as_bytes()).unwrap();
        assert_eq!(plain_string(&value), written);
    }
}

#[test]
fn paths_are_the_same_part_by_part() {
    let posix = |left, right| same_path(left, right, PathStyle::Posix);
    assert!(posix("/x//y", "/x/y"));
    assert!(posix("/x/./y/", "/x/y"));
    assert!(posix("a/b", "a//b/."));
    assert!(posix("//x", "/x"));
    assert!(!posix("./a", "a"));
    assert!(!posix("/x/y", "x/y"));
    assert!(!posix("/x/../y", "/y"));
    assert!(!posix("/x\\y", "/x/y"));
    assert!(!posix("/X", "/x"));
    assert!(posix("", ""));
    let windows = |left, right| same_path(left, right, PathStyle::Windows);
    assert!(windows("C:\\x\\y", "c:/x//y"));
    assert!(!windows("C:\\x", "D:\\x"));
    assert!(!windows("\\\\host\\share", "\\host\\share"));
    assert!(!windows("C:\\X", "C:\\x"));
}

#[test]
fn values_are_written_in_compact_notation() {
    let value = read_json_bytes(b"{ \"a\" : [ 1 , \"x\" ] }").unwrap();
    assert_eq!(plain_string(&value), "{\"a\":[1,\"x\"]}");
    assert_eq!(plain_string(&Json::Str("raw \"text\"".to_owned())), "raw \"text\"");
    assert_eq!(bounded_json_string(&value, 5), ("{\"a\":".to_owned(), 13, true));
}

#[test]
fn a_guarded_write_counts_only_when_read_back() {
    let mut expected = None;
    let written = GuardedWrite::Applied { committed_revision_sha256: Some([7; 32]) };
    let good = RowRead::Found { value: Some(b"row".to_vec()), revision_sha256: [7; 32] };
    assert_eq!(settle_guarded_write(&mut expected, written, &good, b"row"), Ok(()));
    assert_eq!(expected, Some([7; 32]));
}

#[test]
fn every_way_a_guarded_write_fails() {
    let written = GuardedWrite::Applied { committed_revision_sha256: Some([7; 32]) };
    let cases = vec![
        (GuardedWrite::Failed, RowRead::Absent, GuardedError::WriteFailed),
        (GuardedWrite::Conflict, RowRead::Absent, GuardedError::RevisionConflict),
        (
            GuardedWrite::Applied { committed_revision_sha256: None },
            RowRead::Absent,
            GuardedError::WriteOutcomeInvalid,
        ),
        (written, RowRead::Failed, GuardedError::ReadbackFailed),
        (written, RowRead::Absent, GuardedError::ReadbackMissing),
        (
            written,
            RowRead::Found { value: None, revision_sha256: [7; 32] },
            GuardedError::ReadbackMismatch,
        ),
        (
            written,
            RowRead::Found { value: Some(b"other".to_vec()), revision_sha256: [7; 32] },
            GuardedError::ReadbackMismatch,
        ),
        (
            written,
            RowRead::Found { value: Some(b"row".to_vec()), revision_sha256: [8; 32] },
            GuardedError::ReadbackMismatch,
        ),
    ];
    for (write, readback, error) in cases {
        let mut expected = Some([1; 32]);
        assert_eq!(settle_guarded_write(&mut expected, write, &readback, b"row"), Err(error));
        assert_eq!(expected, Some([1; 32]));
    }
}

#[test]
fn path_keys_ignore_slashes_and_perhaps_case() {
    assert_eq!(path_key("C:/Data/db//", false), "C:\\Data\\db");
    assert_eq!(path_key("C:/Data/db", true), "c:\\data\\db");
    let key = path_key("/A/b/", true);
    assert_eq!(path_key(&key, true), key);
    assert!(paths_equivalent("C:\\Data", "c:/data/", true));
    assert!(!paths_equivalent("C:\\Data", "c:/data/", false));
    assert_eq!(lower_text("AbÉ"), "abÉ");
}

#[test]
fn host_directories_are_for_the_hosts_own_database() {
    let defaults = DefaultPaths {
        db_path: "/var/synapse/db".to_owned(),
        daemon_db_path: "/var/synapse/daemon".to_owned(),
        ignore_case: false,
    };
    assert!(host_root_allowed_for_db("/var/synapse/db/", &defaults));
    assert!(host_root_allowed_for_db("\\var\\synapse\\daemon", &defaults));
    assert!(!host_root_allowed_for_db("/tmp/scratch", &defaults));
    assert_eq!(configured_db_path(None, &defaults), "/var/synapse/db");
    assert_eq!(configured_db_path(Some("/x".to_owned()), &defaults), "/x");
}

#[test]
fn seconds_settings_are_read_or_refused() {
    assert_eq!(parse_secs_env(&Setting::Absent, 15), Ok(15));
    assert_eq!(parse_secs_env(&Setting::Text(" 30 ".to_owned()), 15), Ok(30));
    assert_eq!(parse_secs_env(&Setting::Text("0".to_owned()), 15), Ok(0));
    assert_eq!(
        parse_secs_env(&Setting::Text("soon".to_owned()), 15),
        Err(SecondsError::NotANumber)
    );
    assert_eq!(parse_secs_env(&Setting::NotUnicode, 15), Err(SecondsError::NotUnicode));
}
