use rust_advanced_api::claims::Claims;
use rust_advanced_api::error::AppError;
use rust_advanced_api::handlers::{
    apply_update, get_user, list_users, login, new_user_record, register, registration_record, update_user,
};
use rust_advanced_api::jwt::verify_jwt;
use rust_advanced_api::models::{CreateUserRequest, LoginRequest, UpdateUserRequest, User};
use rust_advanced_api::password::verify_password;

fn alice_request() -> CreateUserRequest {
    CreateUserRequest {
        email: "a@x.com".to_string(),
        username: "alice".to_string(),
        password: "Secret123!".to_string(),
    }
}

#[test]
fn register_then_login() {
    let user = registration_record(&alice_request(), 4).unwrap();
    assert_eq!(user.id.len(), 36);
    assert_eq!(user.id.matches('-').count(), 4);
    assert!(user.password_hash.starts_with("$2b$04$"));
    assert_eq!(user.email, "a@x.com");
    assert_eq!(user.username, "alice");
    assert_eq!(user.created_at, user.updated_at);
    assert_ne!(user.password_hash, "Secret123!");
    assert!(verify_password("Secret123!", &user.password_hash).unwrap());

    let view = register(Some(&user)).unwrap();
    assert_eq!(view, user.to_response());
    assert_eq!(view.id, user.id);
    assert_eq!(register(None), Err(AppError::Database));
    assert_eq!(view.created_at, view.updated_at);

    let ok = LoginRequest { email: "a@x.com".to_string(), password: "Secret123!".to_string() };
    let resp = login(Some(&user), &ok, "srv").unwrap();
    assert!(!resp.token.is_empty());
    assert_eq!(resp.user, view);
    assert_eq!(verify_jwt(&resp.token, "srv").unwrap().user_id, user.id);

    let wrong = LoginRequest { email: "a@x.com".to_string(), password: "nope".to_string() };
    let unknown = LoginRequest { email: "b@x.com".to_string(), password: "Secret123!".to_string() };
    assert_eq!(login(Some(&user), &wrong, "srv"), Err(AppError::Unauthorized));
    assert_eq!(login(None, &unknown, "srv"), Err(AppError::Unauthorized));
    assert_eq!(AppError::Unauthorized.status(), 401);
}

#[test]
fn new_record_uses_given_id_and_time() {
    let u = new_user_record(&alice_request(), "id-1", 4, 1_234).unwrap();
    assert_eq!(u.id, "id-1");
    assert_eq!(u.created_at, 1_234);
    assert_eq!(u.updated_at, 1_234);
    assert_eq!(new_user_record(&alice_request(), "id-1", 2, 1_234), Err(AppError::Bcrypt));
    assert_eq!(registration_record(&alice_request(), 40), Err(AppError::Bcrypt));
    let other = registration_record(&alice_request(), 4).unwrap();
    assert_ne!(other.id, u.id);
}

#[test]
fn login_with_malformed_digest_is_internal() {
    let u = User {
        id: "1".to_string(),
        email: "a@x.com".to_string(),
        username: "alice".to_string(),
        password_hash: "garbage".to_string(),
        created_at: 0,
        updated_at: 0,
    };
    let req = LoginRequest { email: "a@x.com".to_string(), password: "x".to_string() };
    let e = login(Some(&u), &req, "srv").unwrap_err();
    assert_eq!(e, AppError::Bcrypt);
    assert_eq!(e.status(), 500);
}

#[test]
fn update_of_another_user_is_forbidden() {
    let claims = Claims::new("1", 0);
    let req = UpdateUserRequest { email: Some("new@x.com".to_string()), username: None };
    let e = update_user(&claims, "2", &req).unwrap_err();
    assert_eq!(e, AppError::Forbidden);
    assert_eq!(e.status(), 403);
    assert_eq!(update_user(&claims, "1", &req), Ok(req.clone()));
}

#[test]
fn partial_update_keeps_other_fields() {
    let u = User {
        id: "1".to_string(),
        email: "a@x.com".to_string(),
        username: "alice".to_string(),
        password_hash: "h".to_string(),
        created_at: 10,
        updated_at: 10,
    };
    let req = UpdateUserRequest { email: Some("new@x.com".to_string()), username: None };
    let v = req.apply(&u, 99);
    assert_eq!(v.email, "new@x.com");
    assert_eq!(v.username, "alice");
    assert_eq!(v.updated_at, 99);
    assert_eq!(v.created_at, 10);
    assert_eq!(v.password_hash, "h");

    let stored = apply_update(Some(&u), &req).unwrap();
    assert_eq!(stored.email, "new@x.com");
    assert_eq!(stored.username, "alice");
    assert!(stored.updated_at > 10);
    assert_eq!(apply_update(None, &req), Err(AppError::NotFound));

    let none = UpdateUserRequest { email: None, username: None };
    let w = none.apply(&u, 50);
    assert_eq!(w.email, "a@x.com");
    assert_eq!(w.username, "alice");
    assert_eq!(w.updated_at, 50);
}

#[test]
fn lookups_and_listing() {
    let u = User {
        id: "1".to_string(),
        email: "a@x.com".to_string(),
        username: "alice".to_string(),
        password_hash: "h".to_string(),
        created_at: 1,
        updated_at: 2,
    };
    assert_eq!(get_user(None), Err(AppError::NotFound));
    assert_eq!(get_user(Some(&u)).unwrap().username, "alice");
    let mut v = u.clone();
    v.id = "2".to_string();
    let list = list_users(&vec![u.clone(), v]);
    assert_eq!(list.len(), 2);
    assert_eq!(list[0].id, "1");
    assert_eq!(list[1].id, "2");
    assert!(list_users(&Vec::new()).is_empty());
}
