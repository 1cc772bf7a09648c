use vstd::prelude::*;

use crate::claims::{issued_claims, plain, Claims, ClaimsView, VALIDITY_SECS};
use crate::jwt::{issued_token, hs256_signature_valid, check_outcome, decoding_allows, verify_jwt, view_claims_result, TokenError};
use crate::text::text_at;

verus! {

/// Paths served without a token: the health endpoint, registration and
/// login.
pub open spec fn exempt_path(path: Seq<char>) -> bool {
    path == "/health"@ || path == "/api/auth/register"@ || path == "/api/auth/login"@
}

/// The token of an `Authorization` header of the form `Bearer <token>`.
pub open spec fn bearer_of(header: Seq<char>) -> Option<Seq<char>> {
    if text_at(header, 0, "Bearer "@) {
        Some(header.skip(7))
    } else {
        None
    }
}

/// What the authorizer does before any token is checked.
#[derive(Debug, Clone, PartialEq, Eq)]
pub enum AuthStep {
    /// The path needs no token: forward the request unchanged.
    Exempt,
    /// The token to verify.
    Check(String),
    /// No usable bearer token: answer unauthorized.
    Reject,
}

/// The end state of the authorizer for one request.
#[derive(Debug, Clone, PartialEq, Eq)]
pub enum AuthDecision {
    Exempt,
    /// The claims of the verified token, to attach to the request.
    Authorized(Claims),
    Rejected,
}

pub open spec fn step_spec(path: Seq<char>, header: Option<Seq<char>>) -> Option<Option<Seq<char>>> {
    if exempt_path(path) {
        None
    } else {
        match header {
            None => Some(None),
            Some(h) => Some(bearer_of(h)),
        }
    }
}

/// Whether the path is exempt from the token check.
pub fn is_exempt(path: &str) -> (r: bool)
    ensures
        r == exempt_path(path@),
{
    let p = path.to_owned();
    p == "/health".to_owned() || p == "/api/auth/register".to_owned() || p == "/api/auth/login".to_owned()
}

/// The first, token-free step of the authorizer: exempt paths pass; elsewhere a
/// header of the exact form `Bearer <token>` is required.
pub fn auth_step(path: &str, header: Option<&str>) -> (r: AuthStep)
    ensures
        step_spec(path@, match header { Some(h) => Some(h@), None => None }) == match r {
            AuthStep::Exempt => None,
            AuthStep::Check(t) => Some(Some(t@)),
            AuthStep::Reject => Some(None::<Seq<char>>),
        },
{
    if is_exempt(path) {
        return AuthStep::Exempt;
    }
    match header {
        None => AuthStep::Reject,
        Some(h) => {
            let n = h.unicode_len();
            proof {
                reveal_strlit("Bearer ");
            }
            if crate::text::has_at(h, n, 0, "Bearer ") {
                let t = h.substring_char(7, n).to_owned();
                assert(t@ =~= h@.skip(7));
                AuthStep::Check(t)
            } else {
                AuthStep::Reject
            }
        },
    }
}

/// The authorizer's decision once the token has been verified: any failure of
/// the codec rejects the request, whatever its kind.
pub fn auth_finish(verified: Result<Claims, TokenError>) -> (r: AuthDecision)
    ensures
        match verified {
            Ok(c) => r == AuthDecision::Authorized(c),
            Err(_) => r == AuthDecision::Rejected,
        },
{
    match verified {
        Ok(c) => AuthDecision::Authorized(c),
        Err(_) => AuthDecision::Rejected,
    }
}

/// The request authorizer: exempt paths pass, a missing or malformed bearer
/// header is rejected, and otherwise the token is verified under `secret`
/// at the current time; only a verified token authorizes, with its claims.
pub fn auth_middleware(path: &str, header: Option<&str>, secret: &str) -> (r: AuthDecision)
    ensures
        exempt_path(path@) <==> r == AuthDecision::Exempt,
        !exempt_path(path@) && (header is None || bearer_of(header->Some_0@) is None) ==> r
            == AuthDecision::Rejected,
        r matches AuthDecision::Authorized(c) ==> !exempt_path(path@) && header is Some && bearer_of(
            header->Some_0@,
        ) is Some && exists|decoded: Result<Seq<char>, TokenError>, now: i64|
            decoding_allows(bearer_of(header->Some_0@)->Some_0, secret@, decoded) && check_outcome(decoded, now)
                == Ok::<ClaimsView, TokenError>(c@),
        r is Authorized ==> hs256_signature_valid(bearer_of(header->Some_0@)->Some_0, secret@),
        forall|u: Seq<char>, iat: i64|
            plain(u) && 0 <= iat <= i64::MAX - VALIDITY_SECS && header is Some && bearer_of(header->Some_0@)
                == Some(#[trigger] issued_token(u, secret@, iat)) && !exempt_path(path@) ==> match r {
                AuthDecision::Authorized(c) => c@ == issued_claims(u, iat),
                AuthDecision::Rejected => true,
                AuthDecision::Exempt => false,
            },
{
    match auth_step(path, header) {
        AuthStep::Exempt => AuthDecision::Exempt,
        AuthStep::Reject => AuthDecision::Rejected,
        AuthStep::Check(t) => {
            let v = verify_jwt(t.as_str(), secret);
            proof {
                if v is Ok {
                    let (d, now) = choose|d: Result<Seq<char>, TokenError>, now: i64|
                        decoding_allows(t@, secret@, d) && view_claims_result(v) == check_outcome(d, now);
                    assert(check_outcome(d, now) == Ok::<ClaimsView, TokenError>(v->Ok_0@));
                }
            }
            auth_finish(v)
        },
    }
}

} // verus!
