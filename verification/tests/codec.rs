use identity_core::ids::{SessionUserId, UserId, session_key};

fn id(table: &str, key: &str) -> SessionUserId {
    SessionUserId(UserId { table: table.to_string(), key: key.to_string() })
}

#[test]
fn encode_is_table_colon_key() {
    assert_eq!(id("user", "abc123").to_session_string(), "user:abc123");
}

#[test]
fn round_trip_returns_equal_identifier() {
    let original = id("user", "abc123");
    let stored = original.to_session_string();
    let read = SessionUserId::from_session_string(&stored).expect("round trip must parse");
    assert_eq!(read.0.table, "user");
    assert_eq!(read.0.key, "abc123");
    assert_eq!(read.to_session_string(), stored);
}

#[test]
fn round_trip_key_may_contain_colon() {
    let original = id("user", "a:b:c");
    let stored = original.to_session_string();
    let read = SessionUserId::from_session_string(&stored).expect("round trip must parse");
    assert_eq!(read.0.table, "user");
    assert_eq!(read.0.key, "a:b:c");
}

#[test]
fn parse_rejects_malformed_strings() {
    assert!(SessionUserId::from_session_string("").is_none());
    assert!(SessionUserId::from_session_string("nocolon").is_none());
    assert!(SessionUserId::from_session_string(":nokey").is_none());
    assert!(SessionUserId::from_session_string("notable:").is_none());
    assert!(SessionUserId::from_session_string(":").is_none());
}

#[test]
fn parse_splits_at_first_colon() {
    let read = SessionUserId::from_session_string("user:one:two").expect("must parse");
    assert_eq!(read.0.table, "user");
    assert_eq!(read.0.key, "one:two");
}

#[test]
fn from_session_absent_is_none() {
    assert!(SessionUserId::from_session(None).is_none());
}

#[test]
fn from_session_malformed_reads_as_no_identity() {
    assert!(SessionUserId::from_session(Some("garbage".to_string())).is_none());
}

#[test]
fn from_session_stored_value_parses() {
    let read = SessionUserId::from_session(Some("user:xyz".to_string())).expect("must parse");
    assert_eq!(read.0.table, "user");
    assert_eq!(read.0.key, "xyz");
}

#[test]
fn well_formedness_checks_parts() {
    assert!(id("user", "abc").0.is_wf());
    assert!(id("user", "a:b").0.is_wf());
    assert!(!id("", "abc").0.is_wf());
    assert!(!id("user", "").0.is_wf());
    assert!(!id("us:er", "abc").0.is_wf());
}

#[test]
fn session_key_is_fixed() {
    assert_eq!(session_key(), "user_id");
}
