//! Extraction of the bearer token.

use scho1ar_backend::auth::middleware::{bearer_token, extract_bearer_token, AuthError};

#[test]
fn test_extract_bearer_token() {
    assert_eq!(extract_bearer_token("Bearer abc123"), Some("abc123"));
    assert_eq!(extract_bearer_token("bearer abc123"), Some("abc123"));
    assert_eq!(extract_bearer_token("Basic abc123"), None);
    assert_eq!(extract_bearer_token("abc123"), None);
}

#[test]
fn scheme_is_matched_in_any_case() {
    assert_eq!(extract_bearer_token("BEARER abc123"), Some("abc123"));
    assert_eq!(extract_bearer_token("bEaReR abc123"), Some("abc123"));
    assert_eq!(extract_bearer_token("Bearer  abc123"), Some(" abc123"));
    assert_eq!(extract_bearer_token("Bearer "), Some(""));
    assert_eq!(extract_bearer_token("Bearer"), None);
    assert_eq!(extract_bearer_token("Bearer\tabc123"), None);
    assert_eq!(extract_bearer_token(" Bearer abc123"), None);
    assert_eq!(extract_bearer_token("Bearerabc123 x"), None);
    assert_eq!(extract_bearer_token(""), None);
}

#[test]
fn token_may_hold_any_characters() {
    assert_eq!(extract_bearer_token("Bearer zażółć.gęślą.jaźń"), Some("zażółć.gęślą.jaźń"));
    assert_eq!(extract_bearer_token("Bęarer abc123"), None);
}

#[test]
fn absent_header_is_a_missing_token() {
    assert!(matches!(bearer_token(None), Err(AuthError::MissingToken)));
    assert!(matches!(bearer_token(Some("Basic abc123")), Err(AuthError::MissingToken)));
    assert_eq!(bearer_token(Some("Bearer abc123")).unwrap(), "abc123");
}
