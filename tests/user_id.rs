use ruma_identifiers_validation::{
    localpart_is_fully_conforming, localpart_is_fully_conforming_with_config, parse_id, validate,
    validate_with_config, Config, Error, MAX_BYTES,
};

const STRICT: Config = Config { compat: false };
const COMPAT: Config = Config { compat: true };

#[test]
fn lowercase_localpart_is_fully_conforming() {
    assert_eq!(localpart_is_fully_conforming("alice"), Ok(true));
    assert_eq!(localpart_is_fully_conforming_with_config("alice", COMPAT), Ok(true));
}

#[test]
fn every_conforming_byte_is_fully_conforming() {
    let localpart = "0123456789abcdefghijklmnopqrstuvwxyz-.=_/";
    assert_eq!(localpart_is_fully_conforming(localpart), Ok(true));
    assert_eq!(localpart_is_fully_conforming_with_config(localpart, COMPAT), Ok(true));
}

#[test]
fn uppercase_localpart_is_historical() {
    assert_eq!(localpart_is_fully_conforming("Alice"), Ok(false));
    assert_eq!(localpart_is_fully_conforming_with_config("Alice", COMPAT), Ok(false));
}

#[test]
fn printable_ascii_localpart_is_historical() {
    assert_eq!(localpart_is_fully_conforming("!\"#$%&'()*+,;<>?@[\\]^`{|}~"), Ok(false));
    assert_eq!(localpart_is_fully_conforming("a~b"), Ok(false));
}

#[test]
fn separator_in_localpart_is_invalid() {
    assert_eq!(localpart_is_fully_conforming("a:b"), Err(Error::InvalidCharacters));
    assert_eq!(localpart_is_fully_conforming_with_config("a:b", COMPAT), Ok(false));
}

#[test]
fn control_byte_in_localpart_is_invalid() {
    assert_eq!(localpart_is_fully_conforming("a\u{1}b"), Err(Error::InvalidCharacters));
    assert_eq!(localpart_is_fully_conforming_with_config("a\u{1}b", COMPAT), Ok(false));
}

#[test]
fn space_in_localpart_is_invalid() {
    assert_eq!(localpart_is_fully_conforming("a b"), Err(Error::InvalidCharacters));
    assert_eq!(localpart_is_fully_conforming_with_config("a b", COMPAT), Ok(false));
}

#[test]
fn non_ascii_localpart_is_invalid() {
    assert_eq!(localpart_is_fully_conforming("caf\u{e9}"), Err(Error::InvalidCharacters));
    assert_eq!(localpart_is_fully_conforming("a\u{7f}"), Err(Error::InvalidCharacters));
    assert_eq!(localpart_is_fully_conforming_with_config("caf\u{e9}", COMPAT), Ok(false));
}

#[test]
fn empty_localpart_is_fully_conforming_when_checked_alone() {
    assert_eq!(localpart_is_fully_conforming(""), Ok(true));
}

#[test]
fn same_localpart_twice_gives_same_verdict() {
    for localpart in ["alice", "Alice", "a:b", "a\u{1}b"] {
        for config in [STRICT, COMPAT] {
            assert_eq!(
                localpart_is_fully_conforming_with_config(localpart, config),
                localpart_is_fully_conforming_with_config(localpart, config)
            );
        }
    }
    assert_eq!(validate("@alice:example.org"), validate("@alice:example.org"));
}

#[test]
fn full_identifier_is_valid() {
    assert_eq!(validate("@alice:example.org"), Ok(()));
    assert_eq!(validate("@Alice:example.org"), Ok(()));
    assert_eq!(validate("@alice:example.org:8448"), Ok(()));
}

#[test]
fn missing_sigil_is_structural() {
    assert_eq!(validate("alice:example.org"), Err(Error::MissingLeadingSigil));
    assert_eq!(validate("#alice:example.org"), Err(Error::MissingLeadingSigil));
    assert_eq!(validate(""), Err(Error::MissingLeadingSigil));
}

#[test]
fn missing_separator_is_structural() {
    assert_eq!(validate("@alice"), Err(Error::MissingDelimiter));
    assert_eq!(validate("@"), Err(Error::MissingDelimiter));
}

#[test]
fn empty_localpart_is_structural() {
    assert_eq!(validate("@:example.org"), Err(Error::EmptyLocalpart));
    assert_eq!(validate_with_config("@:example.org", COMPAT), Err(Error::EmptyLocalpart));
}

#[test]
fn empty_server_name_is_structural() {
    assert_eq!(validate("@alice:"), Err(Error::EmptyServerName));
}

#[test]
fn too_long_identifier_is_structural() {
    let at_limit = format!("@{}:example.org", "a".repeat(MAX_BYTES - 13));
    assert_eq!(at_limit.len(), MAX_BYTES);
    assert_eq!(validate(&at_limit), Ok(()));
    let over_limit = format!("@{}:example.org", "a".repeat(MAX_BYTES - 12));
    assert_eq!(validate(&over_limit), Err(Error::MaximumLengthExceeded));
}

#[test]
fn invalid_localpart_fails_full_identifier() {
    assert_eq!(validate("@a b:example.org"), Err(Error::InvalidCharacters));
    assert_eq!(validate_with_config("@a b:example.org", COMPAT), Ok(()));
    assert_eq!(validate_with_config("@caf\u{e9}:example.org", STRICT), Err(Error::InvalidCharacters));
    assert_eq!(validate_with_config("@caf\u{e9}:example.org", COMPAT), Ok(()));
}

#[test]
fn parse_id_returns_first_separator() {
    assert_eq!(parse_id("@alice:example.org", b'@'), Ok(6));
    assert_eq!(parse_id("@alice:example.org:8448", b'@'), Ok(6));
    assert_eq!(parse_id("!room:example.org", b'!'), Ok(5));
    assert_eq!(parse_id("!room:example.org", b'@'), Err(Error::MissingLeadingSigil));
}
