use agent_sdk_core::domain::{
    char_is_control, validate_identifier, AgentError, AgentErrorKind, EntityKind, EntityRef, IdValidationError, MessageId,
    PolicyKind, PolicyRef, RetryClassification, RunId,
};
use agent_sdk_core::hashing::{sha256_fingerprint, sha256_fingerprint_of_text, sha256_hex};
use agent_sdk_core::text::{
    concat3, contains_str, is_sha256_fingerprint, join_with_commas, str_eq, str_lt, strip_prefix, to_hex_lower,
    u64_to_decimal, utf8_len_exceeds,
};

#[test]
fn identifiers_reject_empty_long_control_and_space() {
    assert!(validate_identifier("run-1").is_ok());
    assert!(matches!(validate_identifier(""), Err(IdValidationError::Empty)));
    assert!(matches!(validate_identifier("a b"), Err(IdValidationError::Whitespace { index: 1 })));
    assert!(matches!(validate_identifier("ab\u{1}"), Err(IdValidationError::ControlCharacter { index: 2 })));
    assert!(matches!(validate_identifier("é\u{85}"), Err(IdValidationError::ControlCharacter { index: 2 })));
    assert!(matches!(validate_identifier(&"é".repeat(129)), Err(IdValidationError::TooLong { max: 256, actual: 258 })));
    assert!(validate_identifier(&"é".repeat(128)).is_ok());
    assert!(char_is_control('\u{7f}'));
    assert!(char_is_control('\u{9f}'));
    assert!(!char_is_control('\u{a0}'));
}

#[test]
fn agent_error_constructors() {
    let e = AgentError::missing_required_field("x.y");
    assert_eq!(e.kind, AgentErrorKind::MissingRequiredField);
    assert_eq!(e.retry, RetryClassification::NotRetryable);
    assert_eq!(e.message, "missing required field: x.y");
    let e = AgentError::contract_violation("bad");
    assert_eq!(e.kind, AgentErrorKind::ContractViolation);
    assert_eq!(e.message, "bad");
    let e = AgentError::new(AgentErrorKind::ProjectionFailure, RetryClassification::Retryable, "m".to_string());
    assert_eq!(e.retry, RetryClassification::Retryable);
}

#[test]
fn references() {
    let p = PolicyRef::new("policy.a");
    assert_eq!(p.as_str(), "policy.a");
    assert!(p.version.is_none());
    let p = PolicyRef::with_kind(PolicyKind::Approval, "policy.b");
    assert_eq!(p.kind, PolicyKind::Approval);
    let r = EntityRef::run(&RunId::new("run-1".to_string()));
    assert_eq!(r.kind, EntityKind::Run);
    assert_eq!(r.id, "run-1");
    let m = EntityRef::message(&MessageId::new("m-1".to_string()));
    assert_eq!(m.kind, EntityKind::Message);
}

#[test]
fn sha256_wrappers_hash_their_input() {
    assert_eq!(sha256_hex(b"abc"), "ba7816bf8f01cfea414140de5dae2223b00361a396177a9cb410ff61f20015ad");
    assert_eq!(sha256_hex(b""), "e3b0c44298fc1c149afbf4c8996fb92427ae41e4649b934ca495991b7852b855");
    assert_eq!(sha256_fingerprint(b"abc"), "sha256:ba7816bf8f01cfea414140de5dae2223b00361a396177a9cb410ff61f20015ad");
    assert_eq!(sha256_fingerprint_of_text("abc"), sha256_fingerprint(b"abc"));
    assert!(is_sha256_fingerprint(&sha256_fingerprint(b"xyz")));
}

#[test]
fn text_helpers() {
    assert_eq!(concat3("a", "b", "c"), "abc");
    assert_eq!(u64_to_decimal(0), "0");
    assert_eq!(u64_to_decimal(18446744073709551615), "18446744073709551615");
    assert_eq!(to_hex_lower(&[0, 15, 255]), "000fff");
    assert_eq!(join_with_commas(&vec!["a".to_string(), "b".to_string()]), "a,b");
    assert_eq!(join_with_commas(&Vec::new()), "");
    assert!(str_eq("x", "x"));
    assert!(!str_eq("x", "y"));
    assert!(contains_str("hello", "ll"));
    assert!(contains_str("hello", ""));
    assert!(!contains_str("he", "hello"));
    assert_eq!(strip_prefix("sha256:ab", "sha256:"), Some(vec!['a', 'b']));
    assert_eq!(strip_prefix("sha", "sha256:"), None);
    assert!(utf8_len_exceeds("éé", 3));
    assert!(!utf8_len_exceeds("éé", 4));
    assert!(str_lt("a", "b"));
    assert!(str_lt("a", "ab"));
    assert!(!str_lt("b", "a"));
    assert!(!str_lt("a", "a"));
    assert!(!is_sha256_fingerprint("sha256:"));
    assert!(!is_sha256_fingerprint(&format!("sha256:{}", "g".repeat(64))));
}
