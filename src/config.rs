use vstd::prelude::*;

use crate::error::AppError;
use crate::text::{digits_value, is_digit};

verus! {

/// Process-wide settings, read once at startup and never changed after.
#[derive(Debug, Clone)]
pub struct Config {
    pub database_url: String,
    pub port: u16,
    pub jwt_secret: String,
    pub bcrypt_cost: u32,
}

/// The value of an unsigned decimal text as std reads it: an optional `+`,
/// then one or more ASCII digits.
pub open spec fn unsigned_value(s: Seq<char>) -> Option<nat> {
    let d = if s.len() > 0 && s[0] == '+' { s.skip(1) } else { s };
    if d.len() > 0 && forall|i: int| 0 <= i < d.len() ==> is_digit(#[trigger] d[i]) {
        Some(digits_value(d))
    } else {
        None
    }
}

/// Relies on `str::parse::<u16>`: an unsigned decimal text that fits.
#[verifier::external_body]
fn parse_u16(s: &str) -> (r: Option<u16>)
    ensures
        match unsigned_value(s@) {
            Some(v) => if v <= u16::MAX { r == Some(v as u16) } else { r is None },
            None => r is None,
        },
{
    s.parse::<u16>().ok()
}

/// Relies on `str::parse::<u32>`: an unsigned decimal text that fits.
#[verifier::external_body]
fn parse_u32(s: &str) -> (r: Option<u32>)
    ensures
        match unsigned_value(s@) {
            Some(v) => if v <= u32::MAX { r == Some(v as u32) } else { r is None },
            None => r is None,
        },
{
    s.parse::<u32>().ok()
}

pub open spec fn or_default(v: Option<String>, d: Seq<char>) -> Seq<char> {
    match v {
        Some(s) => s@,
        None => d,
    }
}

fn value_or(v: Option<String>, d: &str) -> (r: String)
    ensures
        r@ == or_default(v, d@),
{
    match v {
        Some(s) => s,
        None => d.to_owned(),
    }
}

impl Config {
    /// Builds the settings from the values found for `DATABASE_URL`, `PORT`,
    /// `JWT_SECRET` and `BCRYPT_COST`, each with its default where absent.
    /// Fails when the port or the cost is not an unsigned number that fits.
    pub fn from_values(
        database_url: Option<String>,
        port: Option<String>,
        jwt_secret: Option<String>,
        bcrypt_cost: Option<String>,
    ) -> (r: Result<Config, AppError>)
        ensures
            ({
                let p = unsigned_value(or_default(port, "3000"@));
                let c = unsigned_value(or_default(bcrypt_cost, "12"@));
                &&& r is Ok <==> (p matches Some(v) && v <= u16::MAX) && (c matches Some(w) && w <= u32::MAX)
                &&& r is Err ==> r == Err::<Config, AppError>(AppError::Config)
                &&& r matches Ok(cfg) ==> cfg.database_url@ == or_default(
                    database_url,
                    "postgresql://localhost/rust_advanced_api"@,
                ) && cfg.jwt_secret@ == or_default(jwt_secret, "your-secret-key"@) && Some(cfg.port as nat)
                    == p && Some(cfg.bcrypt_cost as nat) == c
            }),
    {
        let database_url = value_or(database_url, "postgresql://localhost/rust_advanced_api");
        let port_text = value_or(port, "3000");
        let port = match parse_u16(port_text.as_str()) {
            Some(p) => p,
            None => {
                return Err(AppError::Config);
            },
        };
        let jwt_secret = value_or(jwt_secret, "your-secret-key");
        let cost_text = value_or(bcrypt_cost, "12");
        let bcrypt_cost = match parse_u32(cost_text.as_str()) {
            Some(c) => c,
            None => {
                return Err(AppError::Config);
            },
        };
        Ok(Config { database_url, port, jwt_secret, bcrypt_cost })
    }
}

} // verus!
