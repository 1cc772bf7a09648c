use vstd::prelude::*;

use crate::claims::{claims_plain, claims_text, issued_claims, parse_claims, plain, Claims, ClaimsView, VALIDITY_SECS};
use crate::error::AppError;

verus! {

/// Why a token was refused.
#[derive(Debug, Clone, Copy, PartialEq, Eq)]
pub enum TokenError {
    /// The signature does not match the claims under the secret.
    Invalid,
    /// The token or its claims cannot be read.
    Malformed,
    /// The verification time is at or past the expiry.
    Expired,
}

/// The token that jsonwebtoken::encode writes for a JSON claims text under
/// a secret, with the default header (HS256).
pub uninterp spec fn signed_token(claims_json: Seq<char>, secret: Seq<char>) -> Seq<char>;

/// Whether jsonwebtoken's signature check (default validation: the header
/// names HS256 and the third part is the HMAC-SHA256 of the first two under
/// the secret's bytes) passes for `token` under `secret`.
pub uninterp spec fn hs256_signature_valid(token: Seq<char>, secret: Seq<char>) -> bool;

/// The token issued to `user_id` under `secret` at time `now`.
pub open spec fn issued_token(user_id: Seq<char>, secret: Seq<char>, now: i64) -> Seq<char> {
    signed_token(claims_text(issued_claims(user_id, now)), secret)
}

/// What a decoding of `token` under `secret` may give, where `token` is the
/// signed text of a claim set: that text, or an expiry found by the decoder.
pub open spec fn decoding_allows(
    token: Seq<char>,
    secret: Seq<char>,
    decoded: Result<Seq<char>, TokenError>,
) -> bool {
    forall|c: ClaimsView|
        claims_plain(c) && c.exp >= 0 && token == #[trigger] signed_token(claims_text(c), secret) ==> (
        decoded == Ok::<Seq<char>, TokenError>(claims_text(c)) || decoded == Err::<Seq<char>, TokenError>(
            TokenError::Expired,
        ))
}

/// Relies on chrono::Utc::now: the current time in whole seconds since the
/// epoch. Nothing is known of the value.
#[verifier::external_body]
pub(crate) fn unix_now() -> (r: i64) {
    chrono::Utc::now().timestamp()
}

/// Relies on jsonwebtoken::encode (default header, HMAC key from the
/// secret's bytes), handed the claims text through serde_json's RawValue,
/// which keeps valid JSON as it is. A claims text of plain strings and
/// integers is valid JSON, and HMAC signing does not fail.
#[verifier::external_body]
fn jwt_encode(claims_json: &str, secret: &str) -> (r: Option<String>)
    ensures
        r matches Some(t) ==> t@ == signed_token(claims_json@, secret@),
        (exists|c: ClaimsView| claims_plain(c) && #[trigger] claims_text(c) == claims_json@) ==> r is Some,
{
    let raw = serde_json::value::RawValue::from_string(claims_json.to_string()).ok()?;
    let key = jsonwebtoken::EncodingKey::from_secret(secret.as_bytes());
    jsonwebtoken::encode(&jsonwebtoken::Header::default(), &raw, &key).ok()
}

/// Relies on jsonwebtoken::decode with the default validation (HS256, a
/// required `exp`, 60 s of leeway): a token that encode wrote for a claims
/// text under the same secret gives that text back, unless the decoder
/// already finds it expired. The decoder checks the expiry only after the
/// signature, so a success and an expiry both mean the signature passed.
#[verifier::external_body]
fn jwt_decode(token: &str, secret: &str) -> (r: Result<String, TokenError>)
    ensures
        decoding_allows(token@, secret@, match r { Ok(s) => Ok(s@), Err(e) => Err(e) }),
        (r is Ok || r == Err::<String, TokenError>(TokenError::Expired)) ==> hs256_signature_valid(token@, secret@),
{
    let key = jsonwebtoken::DecodingKey::from_secret(secret.as_bytes());
    let validation = jsonwebtoken::Validation::default();
    match jsonwebtoken::decode::<Box<serde_json::value::RawValue>>(token, &key, &validation) {
        Ok(data) => Ok(data.claims.get().to_string()),
        Err(e) => match e.kind() {
            jsonwebtoken::errors::ErrorKind::ExpiredSignature => Err(TokenError::Expired),
            jsonwebtoken::errors::ErrorKind::InvalidSignature => Err(TokenError::Invalid),
            jsonwebtoken::errors::ErrorKind::InvalidAlgorithm => Err(TokenError::Invalid),
            _ => Err(TokenError::Malformed),
        },
    }
}

/// The claim set that a decoded claims text holds, checked against the
/// time `now`.
pub open spec fn check_outcome(decoded: Result<Seq<char>, TokenError>, now: i64) -> Result<ClaimsView, TokenError> {
    match decoded {
        Err(e) => Err(e),
        Ok(text) => if exists|c: ClaimsView| claims_plain(c) && #[trigger] claims_text(c) == text {
            let c = choose|c: ClaimsView| claims_plain(c) && #[trigger] claims_text(c) == text;
            if now >= c.exp {
                Err(TokenError::Expired)
            } else {
                Ok(c)
            }
        } else {
            Err(TokenError::Malformed)
        },
    }
}

pub open spec fn view_claims_result(r: Result<Claims, TokenError>) -> Result<ClaimsView, TokenError> {
    match r {
        Ok(c) => Ok(c@),
        Err(e) => Err(e),
    }
}

pub open spec fn view_text_result(r: Result<String, TokenError>) -> Result<Seq<char>, TokenError> {
    match r {
        Ok(s) => Ok(s@),
        Err(e) => Err(e),
    }
}

/// Reads the claims out of a decoding and refuses them when `now` is at or
/// past their expiry; a decoding failure is passed on as it is.
pub fn check_claims(decoded: &Result<String, TokenError>, now: i64) -> (r: Result<Claims, TokenError>)
    ensures
        view_claims_result(r) == check_outcome(view_text_result(*decoded), now),
{
    match decoded {
        Err(e) => Err(*e),
        Ok(text) => {
            match parse_claims(text.as_str()) {
                None => Err(TokenError::Malformed),
                Some(c) => {
                    proof {
                        let w = choose|w: ClaimsView| claims_plain(w) && #[trigger] claims_text(w) == text@;
                        assert(claims_text(w) == text@);
                    }
                    if now >= c.exp {
                        Err(TokenError::Expired)
                    } else {
                        Ok(c)
                    }
                },
            }
        },
    }
}

/// Issues a token for `user_id` at time `now`: its claims name the user,
/// carry `now` as the issue time and expire one validity window later,
/// and are signed with `secret`. It succeeds whenever the user id needs no
/// escaping in JSON.
pub fn issue_token(user_id: &str, secret: &str, now: i64) -> (r: Result<String, AppError>)
    requires
        now <= i64::MAX - VALIDITY_SECS,
    ensures
        r matches Ok(t) ==> t@ == issued_token(user_id@, secret@, now),
        r is Err ==> r == Err::<String, AppError>(AppError::Jwt),
        plain(user_id@) ==> r is Ok,
{
    let claims = Claims::new(user_id, now);
    let text = crate::claims::render_claims(&claims);
    proof {
        if plain(user_id@) {
            assert(claims_plain(claims@));
        }
    }
    match jwt_encode(text.as_str(), secret) {
        Some(t) => Ok(t),
        None => Err(AppError::Jwt),
    }
}

/// Issues a token for `user_id` at the current time, signed with `secret`.
/// Only a clock reading before the epoch or too late to add the validity
/// window fails it (`Internal`) for a user id that needs no escaping.
pub fn create_jwt(user_id: &str, secret: &str) -> (r: Result<String, AppError>)
    ensures
        r matches Ok(t) ==> exists|now: i64|
            0 <= now <= i64::MAX - VALIDITY_SECS && t@ == #[trigger] issued_token(user_id@, secret@, now),
        r is Err ==> r == Err::<String, AppError>(AppError::Jwt) || r == Err::<String, AppError>(AppError::Internal),
        plain(user_id@) ==> r != Err::<String, AppError>(AppError::Jwt),
{
    let now = unix_now();
    if now < 0 || now > i64::MAX - VALIDITY_SECS {
        return Err(AppError::Internal);
    }
    issue_token(user_id, secret, now)
}

/// Verifies `token` under `secret` at the current time. Claims come back
/// only from a token whose signature passes. Where the token was issued to
/// a user under `secret`, the result is that user's claims or `Expired`.
pub fn verify_jwt(token: &str, secret: &str) -> (r: Result<Claims, TokenError>)
    ensures
        exists|decoded: Result<Seq<char>, TokenError>, now: i64|
            decoding_allows(token@, secret@, decoded) && view_claims_result(r) == check_outcome(decoded, now),
        r is Ok ==> hs256_signature_valid(token@, secret@),
        forall|u: Seq<char>, iat: i64|
            plain(u) && 0 <= iat <= i64::MAX - VALIDITY_SECS && token@ == #[trigger] issued_token(u, secret@, iat)
                ==> match r {
                Ok(c) => c@ == issued_claims(u, iat) && c.user_id@ == u && c.iat <= c.exp,
                Err(e) => e == TokenError::Expired,
            },
{
    let decoded = jwt_decode(token, secret);
    let now = unix_now();
    let r = check_claims(&decoded, now);
    let ghost d = view_text_result(decoded);
    assert(decoding_allows(token@, secret@, d));
    proof {
        assert forall|u: Seq<char>, iat: i64|
            plain(u) && 0 <= iat <= i64::MAX - VALIDITY_SECS && token@ == #[trigger] issued_token(u, secret@, iat)
            implies match r {
                Ok(c) => c@ == issued_claims(u, iat) && c.user_id@ == u && c.iat <= c.exp,
                Err(e) => e == TokenError::Expired,
            } by {
            lemma_issue_then_verify(u, secret@, iat, d, now);
        }
    }
    r
}

/// Claims read at or after their expiry are refused as expired.
pub proof fn lemma_expired_is_refused(c: ClaimsView, now: i64)
    requires
        claims_plain(c),
        now >= c.exp,
    ensures
        check_outcome(Ok(claims_text(c)), now) == Err::<ClaimsView, TokenError>(TokenError::Expired),
{
    let w = choose|w: ClaimsView| claims_plain(w) && #[trigger] claims_text(w) == claims_text(c);
    crate::claims::lemma_text_injective(w, c);
}

/// A token issued for a user and later verified under the same secret gives
/// back that user's id, with an issue time no later than the expiry; it can
/// fail only as expired.
pub proof fn lemma_issue_then_verify(
    user_id: Seq<char>,
    secret: Seq<char>,
    issued_at: i64,
    decoded: Result<Seq<char>, TokenError>,
    now: i64,
)
    requires
        plain(user_id),
        0 <= issued_at <= i64::MAX - VALIDITY_SECS,
        decoding_allows(issued_token(user_id, secret, issued_at), secret, decoded),
    ensures
        match check_outcome(decoded, now) {
            Ok(c) => c == issued_claims(user_id, issued_at) && c.user_id == user_id && c.sub == user_id
                && c.iat == issued_at && c.iat <= c.exp,
            Err(e) => e == TokenError::Expired,
        },
        now < issued_at + VALIDITY_SECS && decoded is Ok ==> check_outcome(decoded, now) is Ok,
{
    let c = issued_claims(user_id, issued_at);
    assert(claims_plain(c));
    assert(issued_token(user_id, secret, issued_at) == signed_token(claims_text(c), secret));
    if decoded is Ok {
        assert(decoded == Ok::<Seq<char>, TokenError>(claims_text(c)));
        let w = choose|w: ClaimsView| claims_plain(w) && #[trigger] claims_text(w) == claims_text(c);
        crate::claims::lemma_text_injective(w, c);
    }
}

} // verus!
