//! Credential hashing, signed expiring session tokens, the request authorizer that
//! checks them, and the owner-only partial update of user profiles.

pub mod claims;
pub mod config;
pub mod error;
pub mod authorizer;
pub mod handlers;
pub mod jwt;
pub mod models;
pub mod password;
pub mod text;

