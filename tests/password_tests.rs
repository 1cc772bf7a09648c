use rust_advanced_api::error::AppError;
use rust_advanced_api::password::{hash_password, verify_password};

#[test]
fn hash_differs_between_calls_and_both_verify() {
    let a = hash_password("Secret123!", Some(4)).unwrap();
    let b = hash_password("Secret123!", Some(4)).unwrap();
    assert_ne!(a, b);
    assert_ne!(a, "Secret123!");
    assert!(verify_password("Secret123!", &a).unwrap());
    assert!(verify_password("Secret123!", &b).unwrap());
}

#[test]
fn other_password_does_not_verify() {
    let d = hash_password("alpha", Some(4)).unwrap();
    assert!(!verify_password("beta", &d).unwrap());
    assert!(!verify_password("", &d).unwrap());
}

#[test]
fn empty_password_round_trips() {
    let d = hash_password("", Some(4)).unwrap();
    assert!(verify_password("", &d).unwrap());
}

#[test]
fn cost_out_of_range_is_refused() {
    assert_eq!(hash_password("x", Some(3)), Err(AppError::Bcrypt));
    assert_eq!(hash_password("x", Some(32)), Err(AppError::Bcrypt));
}

#[test]
fn malformed_digest_is_an_error() {
    assert_eq!(verify_password("x", "not-a-digest"), Err(AppError::Bcrypt));
    assert_eq!(verify_password("x", ""), Err(AppError::Bcrypt));
}

#[test]
fn digest_records_the_work_factor() {
    assert!(hash_password("pw", Some(4)).unwrap().starts_with("$2b$04$"));
    assert!(hash_password("pw", Some(5)).unwrap().starts_with("$2b$05$"));
    assert!(hash_password("pw", None).unwrap().starts_with("$2b$12$"));
}
