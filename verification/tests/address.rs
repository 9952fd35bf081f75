use neet::address::{append_session_path, escape_segment};
use neet::{RelayAddress, SessionError};

fn base_address() -> RelayAddress {
    let mut addr = RelayAddress::new("https://example.com".to_string(), true);
    addr.push_segment("anon".to_string());
    addr
}

#[test]
fn append_session_path_appends_namespace() {
    let mut addr = base_address();
    append_session_path(&mut addr, "test-session").unwrap();
    assert_eq!(addr.serialized(), "https://example.com/anon/neet/test-session");
}

#[test]
fn empty_session_id_is_rejected() {
    let mut addr = base_address();
    let err = append_session_path(&mut addr, "").unwrap_err();
    assert_eq!(err, SessionError::InvalidSession);
    assert_eq!(addr.serialized(), "https://example.com/anon");
}

#[test]
fn opaque_address_is_rejected() {
    let mut addr = RelayAddress::new("mailto:relay".to_string(), false);
    let err = append_session_path(&mut addr, "test-session").unwrap_err();
    assert_eq!(err, SessionError::InvalidBaseAddress);
}

#[test]
fn empty_session_wins_over_opaque_address() {
    let mut addr = RelayAddress::new("mailto:relay".to_string(), false);
    let err = append_session_path(&mut addr, "").unwrap_err();
    assert_eq!(err, SessionError::InvalidSession);
}

#[test]
fn appending_is_deterministic() {
    let mut first = base_address();
    let mut second = base_address();
    append_session_path(&mut first, "call-42").unwrap();
    append_session_path(&mut second, "call-42").unwrap();
    assert_eq!(first.serialized(), second.serialized());
}

#[test]
fn session_identifier_is_escaped() {
    let mut addr = base_address();
    append_session_path(&mut addr, "a b/c%d").unwrap();
    assert_eq!(addr.serialized(), "https://example.com/anon/neet/a%20b%2Fc%25d");
}

#[test]
fn escape_leaves_safe_characters_alone() {
    assert_eq!(escape_segment("call-42.ok_~"), "call-42.ok_~");
}

#[test]
fn escape_encodes_reserved_and_non_ascii() {
    assert_eq!(escape_segment("a?b"), "a%3Fb");
    assert_eq!(escape_segment("\u{e9}"), "%C3%A9");
}

#[test]
fn error_descriptions_name_the_phase() {
    assert_eq!(SessionError::InvalidSession.describe(), "session id must not be empty");
    assert_eq!(SessionError::SessionClosed.describe(), "session closed");
}
