use vstd::prelude::*;

use crate::claims::Claims;
use crate::error::AppError;
use crate::text::plain_char;
use crate::jwt::{create_jwt, issued_token, unix_now};
use crate::claims::plain;
use crate::models::{
    updated_view, opt_view, public_view, CreateUserRequest, LoginRequest, LoginResponse, UpdateUserRequest, User, UserResponse,
};
use crate::password::{digest_prefix, bcrypt_outcome, cost_in_range, hash_password, verify_password};

verus! {

/// A lower-case hex digit.
pub open spec fn lower_hex(c: char) -> bool {
    ('0' <= c && c <= '9') || ('a' <= c && c <= 'f')
}

/// The hyphenated text of a uuid: 36 characters, hyphens at 8, 13, 18 and
/// 23, lower-case hex digits elsewhere.
pub open spec fn uuid_shaped(s: Seq<char>) -> bool {
    &&& s.len() == 36
    &&& forall|i: int|
        0 <= i < 36 ==> if i == 8 || i == 13 || i == 18 || i == 23 {
            s[i] == '-'
        } else {
            lower_hex(#[trigger] s[i])
        }
}

/// Relies on uuid::Uuid::new_v4 and its `Display`, which writes the
/// hyphenated lower-case form (fmt.rs, `format_hyphenated`): a fresh random
/// identifier of that shape.
#[verifier::external_body]
fn fresh_user_id() -> (r: String)
    ensures
        uuid_shaped(r@),
{
    uuid::Uuid::new_v4().to_string()
}

/// The record stored for a registration with identifier `id` at time
/// `now`: the password is kept only as a digest that verifies it, and the
/// creation and update times are both `now`.
pub fn new_user_record(req: &CreateUserRequest, id: &str, cost: u32, now: i64) -> (r: Result<User, AppError>)
    ensures
        !cost_in_range(cost) ==> r == Err::<User, AppError>(AppError::Bcrypt),
        r is Err ==> r == Err::<User, AppError>(AppError::Bcrypt),
        r matches Ok(u) ==> u.id@ == id@ && u.email@ == req.email@ && u.username@ == req.username@
            && u.created_at == now && u.updated_at == now && bcrypt_outcome(req.password@, u.password_hash@)
            == Some(true) && u.password_hash@.len() >= 7 && u.password_hash@.take(7) == digest_prefix(cost),
{
    let digest = hash_password(req.password.as_str(), Some(cost))?;
    Ok(User {
        id: id.to_owned(),
        email: req.email.clone(),
        username: req.username.clone(),
        password_hash: digest,
        created_at: now,
        updated_at: now,
    })
}

/// The record to store for a registration: a fresh identifier, the
/// current time as both creation and update time, and the password kept
/// only as a digest made at work factor `cost`.
pub fn registration_record(req: &CreateUserRequest, cost: u32) -> (r: Result<User, AppError>)
    ensures
        !cost_in_range(cost) ==> r == Err::<User, AppError>(AppError::Bcrypt),
        r is Err ==> r == Err::<User, AppError>(AppError::Bcrypt),
        r matches Ok(u) ==> uuid_shaped(u.id@) && plain(u.id@) && u.email@ == req.email@ && u.username@
            == req.username@ && u.created_at == u.updated_at && bcrypt_outcome(req.password@, u.password_hash@)
            == Some(true) && u.password_hash@.len() >= 7 && u.password_hash@.take(7) == digest_prefix(cost),
{
    let id = fresh_user_id();
    proof {
        assert forall|i: int| 0 <= i < id@.len() implies plain_char(#[trigger] id@[i]) by {
            if !(i == 8 || i == 13 || i == 18 || i == 23) {
                assert(lower_hex(id@[i]));
            }
        }
    }
    let now = unix_now();
    new_user_record(req, id.as_str(), cost, now)
}

/// The answer to a registration once storage has been asked to insert the
/// record: the public view of the stored user (digest left out), or a
/// storage error when the insert failed (a taken email or username).
pub fn register(inserted: Option<&User>) -> (r: Result<UserResponse, AppError>)
    ensures
        match inserted {
            None => r == Err::<UserResponse, AppError>(AppError::Database),
            Some(u) => (r matches Ok(v) && v@ == public_view(*u)@),
        },
{
    match inserted {
        None => Err(AppError::Database),
        Some(u) => Ok(u.to_response()),
    }
}

/// Logs in against the record found for the email, if any. An unknown
/// email and a wrong password give the same `Unauthorized`; a matching
/// password gives a token issued to the user and the user's public view;
/// for a user id that needs no escaping only the clock can then fail it.
pub fn login(found: Option<&User>, req: &LoginRequest, secret: &str) -> (r: Result<LoginResponse, AppError>)
    ensures
        found is None ==> r == Err::<LoginResponse, AppError>(AppError::Unauthorized),
        found matches Some(u) ==> match bcrypt_outcome(req.password@, u.password_hash@) {
            None => r == Err::<LoginResponse, AppError>(AppError::Bcrypt),
            Some(false) => r == Err::<LoginResponse, AppError>(AppError::Unauthorized),
            Some(true) => match r {
                Ok(resp) => resp.user@ == public_view(*u)@ && exists|now: i64|
                    resp.token@ == issued_token(u.id@, secret@, now),
                Err(e) => e == AppError::Jwt || e == AppError::Internal,
            },
        },
        found matches Some(u) && bcrypt_outcome(req.password@, u.password_hash@) == Some(true) && plain(u.id@)
            ==> r != Err::<LoginResponse, AppError>(AppError::Jwt),
{
    let user = match found {
        Some(u) => u,
        None => {
            return Err(AppError::Unauthorized);
        },
    };
    if !verify_password(req.password.as_str(), user.password_hash.as_str())? {
        return Err(AppError::Unauthorized);
    }
    let token = create_jwt(user.id.as_str(), secret)?;
    Ok(LoginResponse { token, user: user.to_response() })
}

/// The owner check of a profile update: only the authenticated user may
/// change their own profile. On success the fields to store are handed
/// back; otherwise `Forbidden` comes before any other check.
pub fn update_user(claims: &Claims, target_id: &str, req: &UpdateUserRequest) -> (r: Result<UpdateUserRequest, AppError>)
    ensures
        claims.user_id@ != target_id@ ==> r == Err::<UpdateUserRequest, AppError>(AppError::Forbidden),
        claims.user_id@ == target_id@ ==> (r matches Ok(u) && opt_view(u.email) == opt_view(req.email)
            && opt_view(u.username) == opt_view(req.username)),
{
    let target = target_id.to_owned();
    if claims.user_id != target {
        return Err(AppError::Forbidden);
    }
    Ok(req.copy())
}

/// The profile update of an owner, once the stored user has been looked
/// up: `NotFound` when there is none, else the user with the fields present
/// replaced and the update time set to the current time.
pub fn apply_update(found: Option<&User>, req: &UpdateUserRequest) -> (r: Result<User, AppError>)
    ensures
        found is None ==> r == Err::<User, AppError>(AppError::NotFound),
        found matches Some(u) ==> (r matches Ok(v) && exists|now: i64|
            v@ == #[trigger] updated_view(u@, opt_view(req.email), opt_view(req.username), now)),
{
    match found {
        None => Err(AppError::NotFound),
        Some(u) => {
            let now = unix_now();
            Ok(req.apply(u, now))
        },
    }
}

/// The answer to a lookup by id: the public view, or `NotFound`.
pub fn get_user(found: Option<&User>) -> (r: Result<UserResponse, AppError>)
    ensures
        match found {
            None => r == Err::<UserResponse, AppError>(AppError::NotFound),
            Some(u) => (r matches Ok(v) && v@ == public_view(*u)@),
        },
{
    match found {
        None => Err(AppError::NotFound),
        Some(u) => Ok(u.to_response()),
    }
}

/// The public views of the users, in the order given.
pub fn list_users(users: &Vec<User>) -> (r: Vec<UserResponse>)
    ensures
        r.len() == users.len(),
        forall|i: int| 0 <= i < users.len() ==> #[trigger] r[i]@ == public_view(users[i])@,
{
    let mut out: Vec<UserResponse> = Vec::new();
    let mut i: usize = 0;
    while i < users.len()
        invariant
            i <= users.len(),
            out.len() == i,
            forall|j: int| 0 <= j < i ==> #[trigger] out[j]@ == public_view(users[j])@,
        decreases users.len() - i,
    {
        out.push(users[i].to_response());
        i = i + 1;
    }
    out
}

} // verus!
