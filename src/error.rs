use vstd::prelude::*;

verus! {

/// The error taxonomy of the service; each kind maps to one HTTP status and
/// one public message, and no inner detail is ever shown to a client except
/// the description of a failed validation.
#[derive(Debug, Clone, PartialEq, Eq)]
pub enum AppError {
    Database,
    Validation(String),
    Jwt,
    Bcrypt,
    Config,
    Unauthorized,
    Forbidden,
    NotFound,
    Internal,
}

/// The HTTP status that an error kind is reported with.
pub open spec fn status_of(e: AppError) -> u16 {
    match e {
        AppError::Validation(_) => 400,
        AppError::Jwt => 401,
        AppError::Unauthorized => 401,
        AppError::Forbidden => 403,
        AppError::NotFound => 404,
        _ => 500,
    }
}

/// The message that a client sees for an error kind.
pub open spec fn message_of(e: AppError) -> Seq<char> {
    match e {
        AppError::Validation(_) => "Validation error"@,
        AppError::Jwt => "Invalid token"@,
        AppError::Unauthorized => "Unauthorized"@,
        AppError::Forbidden => "Forbidden"@,
        AppError::NotFound => "Not found"@,
        _ => "Internal server error"@,
    }
}

impl AppError {
    /// The HTTP status code of this error.
    pub fn status(&self) -> (r: u16)
        ensures
            r == status_of(*self),
    {
        match self {
            AppError::Validation(_) => 400,
            AppError::Jwt => 401,
            AppError::Unauthorized => 401,
            AppError::Forbidden => 403,
            AppError::NotFound => 404,
            _ => 500,
        }
    }

    /// The public message of this error; internal details stay out of it.
    pub fn public_message(&self) -> (r: &'static str)
        ensures
            r@ == message_of(*self),
    {
        match self {
            AppError::Validation(_) => "Validation error",
            AppError::Jwt => "Invalid token",
            AppError::Unauthorized => "Unauthorized",
            AppError::Forbidden => "Forbidden",
            AppError::NotFound => "Not found",
            _ => "Internal server error",
        }
    }

    /// The detail sent beside the message: only a validation failure has one.
    pub fn details(&self) -> (r: Option<String>)
        ensures
            match *self {
                AppError::Validation(d) => r == Some(d),
                _ => r is None,
            },
    {
        match self {
            AppError::Validation(d) => Some(d.clone()),
            _ => None,
        }
    }
}

} // verus!
