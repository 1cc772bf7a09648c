use rust_advanced_api::claims::{parse_claims, render_claims, Claims, VALIDITY_SECS};
use rust_advanced_api::jwt::{check_claims, create_jwt, issue_token, verify_jwt, TokenError};

const UID: &str = "0b3c7e9a-1f2d-4c5b-8a6e-9d0f1e2a3b4c";

fn now() -> i64 {
    std::time::SystemTime::now()
        .duration_since(std::time::UNIX_EPOCH)
        .unwrap()
        .as_secs() as i64
}

#[test]
fn claims_window_is_one_day() {
    let c = Claims::new(UID, 1_000);
    assert_eq!(c.sub, UID);
    assert_eq!(c.user_id, UID);
    assert_eq!(c.iat, 1_000);
    assert_eq!(c.exp, 1_000 + 86_400);
    assert_eq!(VALIDITY_SECS, 86_400);
}

#[test]
fn claims_text_is_exact() {
    let c = Claims::new("u1", 1_700_000_000);
    assert_eq!(
        render_claims(&c),
        "{\"sub\":\"u1\",\"user_id\":\"u1\",\"exp\":1700086400,\"iat\":1700000000}"
    );
}

#[test]
fn claims_text_round_trips_extreme_numbers() {
    let c = Claims { sub: "a".to_string(), user_id: "b".to_string(), exp: i64::MAX, iat: i64::MIN };
    let t = render_claims(&c);
    assert_eq!(t, "{\"sub\":\"a\",\"user_id\":\"b\",\"exp\":9223372036854775807,\"iat\":-9223372036854775808}");
    assert_eq!(parse_claims(&t), Some(c));
    let z = Claims { sub: String::new(), user_id: String::new(), exp: 0, iat: -5 };
    assert_eq!(parse_claims(&render_claims(&z)), Some(z));
}

#[test]
fn claims_text_rejects_other_texts() {
    assert_eq!(parse_claims(""), None);
    assert_eq!(parse_claims("{}"), None);
    assert_eq!(parse_claims("{\"sub\":\"a\",\"user_id\":\"b\",\"exp\":01,\"iat\":2}"), None);
    assert_eq!(parse_claims("{\"sub\":\"a\",\"user_id\":\"b\",\"exp\":-0,\"iat\":2}"), None);
    assert_eq!(parse_claims("{\"sub\":\"a\",\"user_id\":\"b\",\"exp\":9223372036854775808,\"iat\":2}"), None);
    assert_eq!(parse_claims("{\"sub\":\"a\",\"user_id\":\"b\",\"exp\":1,\"iat\":2} "), None);
    assert_eq!(parse_claims("{\"sub\":\"a\\\"\",\"user_id\":\"b\",\"exp\":1,\"iat\":2}"), None);
}

#[test]
fn issued_token_verifies_to_its_user() {
    let t = create_jwt(UID, "s3cret").unwrap();
    assert!(!t.is_empty());
    assert_eq!(t.split('.').count(), 3);
    let c = verify_jwt(&t, "s3cret").unwrap();
    assert_eq!(c.user_id, UID);
    assert_eq!(c.sub, UID);
    assert!(c.iat <= c.exp);
    assert_eq!(c.exp - c.iat, 86_400);
}

#[test]
fn other_secret_is_invalid() {
    let t = create_jwt(UID, "s3cret").unwrap();
    assert_eq!(verify_jwt(&t, "other"), Err(TokenError::Invalid));
}

#[test]
fn altered_token_is_invalid() {
    let t = create_jwt(UID, "s3cret").unwrap();
    let mut sig_changed: Vec<char> = t.chars().collect();
    let last = sig_changed.len() - 1;
    sig_changed[last] = if sig_changed[last] == 'A' { 'B' } else { 'A' };
    let sig_changed: String = sig_changed.into_iter().collect();
    assert_eq!(verify_jwt(&sig_changed, "s3cret"), Err(TokenError::Invalid));

    let other = issue_token("someone-else", "s3cret", now()).unwrap();
    let parts: Vec<&str> = t.split('.').collect();
    let other_parts: Vec<&str> = other.split('.').collect();
    let spliced = format!("{}.{}.{}", parts[0], other_parts[1], parts[2]);
    assert_eq!(verify_jwt(&spliced, "s3cret"), Err(TokenError::Invalid));
}

#[test]
fn garbage_token_is_malformed() {
    assert_eq!(verify_jwt("not a token", "s3cret"), Err(TokenError::Malformed));
    assert_eq!(verify_jwt("", "s3cret"), Err(TokenError::Malformed));
}

#[test]
fn old_token_is_expired() {
    let t = issue_token(UID, "s3cret", now() - 2 * 86_400).unwrap();
    assert_eq!(verify_jwt(&t, "s3cret"), Err(TokenError::Expired));
}

#[test]
fn token_just_past_expiry_is_expired() {
    // Inside the decoder's leeway, but at or past the expiry.
    let t = issue_token(UID, "s3cret", now() - 86_400 - 5).unwrap();
    assert_eq!(verify_jwt(&t, "s3cret"), Err(TokenError::Expired));
}

#[test]
fn check_claims_compares_with_expiry() {
    let text = render_claims(&Claims::new(UID, 100));
    let decoded: Result<String, TokenError> = Ok(text);
    assert_eq!(check_claims(&decoded, 100 + 86_400), Err(TokenError::Expired));
    assert_eq!(check_claims(&decoded, 200_000), Err(TokenError::Expired));
    assert_eq!(check_claims(&decoded, 100 + 86_399), Ok(Claims::new(UID, 100)));
    let bad: Result<String, TokenError> = Ok("{\"x\":1}".to_string());
    assert_eq!(check_claims(&bad, 0), Err(TokenError::Malformed));
    let failed: Result<String, TokenError> = Err(TokenError::Invalid);
    assert_eq!(check_claims(&failed, 0), Err(TokenError::Invalid));
}

#[test]
fn issue_at_fixed_time_is_deterministic() {
    let a = issue_token(UID, "s3cret", 1_000).unwrap();
    let b = issue_token(UID, "s3cret", 1_000).unwrap();
    assert_eq!(a, b);
    assert_ne!(a, issue_token(UID, "other", 1_000).unwrap());
    assert_ne!(a, issue_token(UID, "s3cret", 1_001).unwrap());
}
