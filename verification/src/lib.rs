//! Argon2id password hashing and verification over PHC strings.
//!
//! [`hash`] turns a password into a self-describing string,
//! `$argon2id$v=19$m=..,t=..,p=..$salt$key`; [`verify`] checks a password
//! against such a string with the parameters that the string itself carries.

pub mod config;
pub mod decimal;
pub mod engine;
pub mod error;
pub mod laws;
pub mod outside;
pub mod record;

use crate::engine::{hash_password, may_hash_to, text_of, verify_outcome, verify_password};
use crate::error::{HashError, VerifyError};
use vstd::prelude::*;
use vstd::utf8::encode_utf8;

verus! {

/// Checks `password` against the stored hash `hashed`. A string that is no
/// well-formed hash is an error; a password that does not match is
/// `Ok(false)`.
pub fn verify(hashed: &str, password: &str) -> (result: Result<bool, VerifyError>)
    ensures
        result == verify_outcome(encode_utf8(password@), hashed@),
{
    verify_password(password.as_bytes(), hashed)
}

/// Hashes `password`, of any length and content, with a fresh random salt.
pub fn hash(password: &str) -> (result: Result<String, HashError>)
    ensures
        may_hash_to(encode_utf8(password@), text_of(result)),
{
    hash_password(password.as_bytes())
}

} // verus!
