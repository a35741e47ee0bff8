use ada_remote::session_id::{parse_session_text, SessionId};

#[test]
fn test_session_id_generation() {
    let id1 = SessionId::new();
    let id2 = SessionId::new();
    assert_ne!(id1, id2);
}

#[test]
fn test_session_id_display() {
    let id = SessionId::new();
    let display = id.display_code();
    assert_eq!(display.len(), 9);
}

#[test]
fn test_display_code_exact() {
    let id = SessionId { value: 1_234_567_890_123 };
    assert_eq!(id.display_code(), "567890123");
    let small = SessionId { value: 5 };
    assert_eq!(small.display_code(), "000000005");
}

#[test]
fn test_canonical_string_exact() {
    let id = SessionId { value: 0x12345678_9abc_def0_1234_56789abcdef0 };
    assert_eq!(id.to_canonical_string(), "12345678-9abc-def0-1234-56789abcdef0");
    let zero = SessionId { value: 0 };
    assert_eq!(zero.to_canonical_string(), "00000000-0000-0000-0000-000000000000");
}

#[test]
fn test_canonical_roundtrip() {
    let id = SessionId::new();
    let text = id.to_canonical_string();
    assert_eq!(text.len(), 36);
    let parsed = SessionId::from_string(&text).expect("canonical form must parse");
    assert_eq!(parsed, id);
}

#[test]
fn test_from_string_rejects_malformed() {
    assert!(SessionId::from_string("").is_err());
    assert!(SessionId::from_string("123456789").is_err());
    assert!(SessionId::from_string("not-a-session-identifier-not-a-sessi").is_err());
    // Exactly the canonical (lowercase) serialization is accepted.
    assert!(SessionId::from_string("12345678-9ABC-DEF0-1234-56789ABCDEF0").is_err());
    assert!(SessionId::from_string("12345678-9abc-def0-1234-56789abcdef0").is_ok());
}

#[test]
fn test_parse_session_text_both_forms() {
    let full = parse_session_text("12345678-9abc-def0-1234-56789abcdef0").expect("canonical form");
    assert_eq!(full.value, 0x12345678_9abc_def0_1234_56789abcdef0);
    let code = parse_session_text("123456789").expect("nine-digit code");
    assert_eq!(code.value, 123_456_789);
    assert!(parse_session_text("12345678").is_none());
    assert!(parse_session_text("12345678x").is_none());
    assert!(parse_session_text("").is_none());
}
