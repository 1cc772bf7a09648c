use rust_advanced_api::authorizer::{auth_middleware, auth_finish, auth_step, is_exempt, AuthDecision, AuthStep};
use rust_advanced_api::jwt::{create_jwt, issue_token, TokenError};

const UID: &str = "0b3c7e9a-1f2d-4c5b-8a6e-9d0f1e2a3b4c";

#[test]
fn exempt_paths() {
    assert!(is_exempt("/health"));
    assert!(is_exempt("/api/auth/login"));
    assert!(is_exempt("/api/auth/register"));
    assert!(!is_exempt("/healthz"));
    assert!(!is_exempt("/api/auth"));
    assert!(!is_exempt("/api/auth/"));
    assert!(!is_exempt("/api/auth/other"));
    assert!(!is_exempt("/api/auth/login/"));
    assert!(!is_exempt("/api/users"));
    assert!(!is_exempt(""));
}

#[test]
fn header_must_be_bearer() {
    assert_eq!(auth_step("/api/users", None), AuthStep::Reject);
    assert_eq!(auth_step("/api/users", Some("Basic abc")), AuthStep::Reject);
    assert_eq!(auth_step("/api/users", Some("bearer abc")), AuthStep::Reject);
    assert_eq!(auth_step("/api/users", Some("Bearer")), AuthStep::Reject);
    assert_eq!(auth_step("/api/users", Some("Bearer abc")), AuthStep::Check("abc".to_string()));
    assert_eq!(auth_step("/health", None), AuthStep::Exempt);
}

#[test]
fn codec_failures_reject() {
    assert_eq!(auth_finish(Err(TokenError::Expired)), AuthDecision::Rejected);
    assert_eq!(auth_finish(Err(TokenError::Invalid)), AuthDecision::Rejected);
    assert_eq!(auth_finish(Err(TokenError::Malformed)), AuthDecision::Rejected);
}

#[test]
fn users_list_needs_a_valid_token() {
    assert_eq!(auth_middleware("/api/users", None, "s"), AuthDecision::Rejected);

    let now = std::time::SystemTime::now()
        .duration_since(std::time::UNIX_EPOCH)
        .unwrap()
        .as_secs() as i64;
    let expired = issue_token(UID, "s", now - 3 * 86_400).unwrap();
    let header = format!("Bearer {}", expired);
    assert_eq!(auth_middleware("/api/users", Some(&header), "s"), AuthDecision::Rejected);

    let valid = create_jwt(UID, "s").unwrap();
    let header = format!("Bearer {}", valid);
    match auth_middleware("/api/users", Some(&header), "s") {
        AuthDecision::Authorized(c) => assert_eq!(c.user_id, UID),
        other => panic!("expected authorized, got {:?}", other),
    }
    assert_eq!(auth_middleware("/health", None, "s"), AuthDecision::Exempt);
    assert_eq!(auth_middleware("/api/users", Some(&header), "other"), AuthDecision::Rejected);
}
