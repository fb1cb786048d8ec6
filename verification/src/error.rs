//! What hashing and verification can fail with.

use vstd::prelude::*;

verus! {

/// Why a password could not be hashed.
#[derive(Clone, Copy, Debug, PartialEq, Eq, Structural)]
pub enum HashError {
    /// The system gave no secure random bytes for the salt.
    RandomnessUnavailable,
    /// The derivation refused its input, or the string that came out does
    /// not encode the hash that was computed.
    EncodingFailed,
}

/// Why a stored hash could not be checked at all. A password that does not
/// match is no error.
#[derive(Clone, Copy, Debug, PartialEq, Eq, Structural)]
pub enum VerifyError {
    /// The string is no PHC string of Argon2id, version 19, with the cost
    /// parameters, a salt and a derived key that the algorithm accepts.
    MalformedHash,
}

impl HashError {
    /// A sentence for the caller's log or error object.
    pub fn message(&self) -> (text: String)
        ensures
            text@ == match *self {
                HashError::RandomnessUnavailable => "secure random bytes are unavailable"@,
                HashError::EncodingFailed => "the password hash could not be encoded"@,
            },
    {
        match self {
            HashError::RandomnessUnavailable => "secure random bytes are unavailable".to_owned(),
            HashError::EncodingFailed => "the password hash could not be encoded".to_owned(),
        }
    }
}

impl VerifyError {
    /// A sentence for the caller's log or error object.
    pub fn message(&self) -> (text: String)
        ensures
            text@ == match *self {
                VerifyError::MalformedHash => "not a well-formed Argon2id hash string"@,
            },
    {
        match self {
            VerifyError::MalformedHash => "not a well-formed Argon2id hash string".to_owned(),
        }
    }
}

} // verus!
