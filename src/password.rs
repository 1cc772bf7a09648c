use vstd::prelude::*;

use crate::text::digit_char;

verus! {

/// What `bcrypt::verify` gives for a password and a stored digest: `None`
/// where the digest is malformed, else whether the password matches it.
pub uninterp spec fn bcrypt_outcome(password: Seq<char>, digest: Seq<char>) -> Option<bool>;

/// The work factors that bcrypt accepts.
pub open spec fn cost_in_range(cost: u32) -> bool {
    4 <= cost <= 31
}

/// How a bcrypt digest begins: the `$2b$` version tag, the work factor in
/// two digits, and a `$`.
pub open spec fn digest_prefix(cost: u32) -> Seq<char> {
    seq!['$', '2', 'b', '$', digit_char((cost / 10) as nat), digit_char((cost % 10) as nat), '$']
}

/// The work factor used where none is configured.
pub const DEFAULT_COST: u32 = 12;

/// Relies on bcrypt::hash: it fails on a cost outside 4..=31, and a digest it
/// returns is one that bcrypt::verify accepts for the same password, and it
/// begins with `$2b$` and the cost in two digits (`HashParts::format`).
#[verifier::external_body]
fn bcrypt_hash(password: &str, cost: u32) -> (r: Option<String>)
    ensures
        r is Some ==> cost_in_range(cost),
        !cost_in_range(cost) ==> r is None,
        r matches Some(d) ==> bcrypt_outcome(password@, d@) == Some(true),
        r matches Some(d) ==> d@.len() >= 7 && d@.take(7) == digest_prefix(cost),
{
    bcrypt::hash(password, cost).ok()
}

/// Relies on bcrypt::verify: it recomputes the digest with the salt and cost
/// stored in `digest`, and fails only where the digest cannot be read.
#[verifier::external_body]
fn bcrypt_verify(password: &str, digest: &str) -> (r: Option<bool>)
    ensures
        r == bcrypt_outcome(password@, digest@),
{
    bcrypt::verify(password, digest).ok()
}

/// Hashes a password with a fresh random salt, at the given work factor or
/// at `DEFAULT_COST`. Fails exactly on a work factor out of range (or where
/// no randomness is available); a digest it returns verifies the password
/// and records the work factor it was made with.
pub fn hash_password(password: &str, cost: Option<u32>) -> (r: Result<String, crate::error::AppError>)
    ensures
        !cost_in_range(cost.unwrap_or(DEFAULT_COST)) ==> r == Err::<String, crate::error::AppError>(
            crate::error::AppError::Bcrypt,
        ),
        r is Err ==> r == Err::<String, crate::error::AppError>(crate::error::AppError::Bcrypt),
        r matches Ok(d) ==> bcrypt_outcome(password@, d@) == Some(true),
        r matches Ok(d) ==> d@.len() >= 7 && d@.take(7) == digest_prefix(cost.unwrap_or(DEFAULT_COST)),
{
    let cost = match cost {
        Some(c) => c,
        None => DEFAULT_COST,
    };
    match bcrypt_hash(password, cost) {
        Some(d) => Ok(d),
        None => Err(crate::error::AppError::Bcrypt),
    }
}

/// Checks a password against a stored digest. A mismatch is `Ok(false)`;
/// only a malformed digest is an error.
pub fn verify_password(password: &str, digest: &str) -> (r: Result<bool, crate::error::AppError>)
    ensures
        match bcrypt_outcome(password@, digest@) {
            Some(b) => r == Ok::<bool, crate::error::AppError>(b),
            None => r == Err::<bool, crate::error::AppError>(crate::error::AppError::Bcrypt),
        },
{
    match bcrypt_verify(password, digest) {
        Some(b) => Ok(b),
        None => Err(crate::error::AppError::Bcrypt),
    }
}


} // verus!
