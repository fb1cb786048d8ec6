//! The calls that this library makes into other crates. Verus takes the
//! contracts in this file on trust: each says which function it stands for
//! and what it claims of it.

use crate::config::valid_parameters;
use crate::record::{PhcFields, PhcFieldsView, MAX_SALT_LENGTH, MIN_SALT_LENGTH};
use argon2::password_hash::{PasswordHash, PasswordHasher, SaltString};
use argon2::{Algorithm, Argon2, Params, Version};
use rand_core::{OsRng, RngCore};
use subtle::ConstantTimeEq;
use vstd::prelude::*;

verus! {

/// The error of `rand_core`'s generators. Nothing is known of its contents.
#[verifier::external_type_specification]
#[verifier::external_body]
pub struct ExRandomError(rand_core::Error);

/// What `password_hash::PasswordHash::new` makes of a string: `None` where it
/// refuses the string, else the fields it found, the salt decoded by
/// `Salt::decode_b64` and absent where that fails.
pub uninterp spec fn phc_parse(encoded: Seq<char>) -> Option<PhcFieldsView>;

/// What Argon2id, version 19, makes of a password and a salt under the given
/// parameters: the derived key and the PHC string that
/// `PasswordHasher::hash_password` gives for it, or `None` where any step of
/// `argon2` or `password_hash` refuses.
pub uninterp spec fn argon2id_hash(
    password: Seq<u8>,
    salt: Seq<u8>,
    memory_cost: u32,
    time_cost: u32,
    parallelism_cost: u32,
    output_length: usize,
) -> Option<(Seq<u8>, Seq<char>)>;

/// Calls `password_hash::PasswordHash::new` and hands out the fields of the
/// result as plain values. The contract claims only that the outcome depends
/// on the string alone.
#[verifier::external_body]
pub(crate) fn parse_phc(encoded: &str) -> (fields: Option<PhcFields>)
    ensures
        match fields {
            Some(fields) => Some(fields@),
            None => None,
        } == phc_parse(encoded@),
{
    let parsed = PasswordHash::new(encoded).ok()?;
    let mut buffer = [0u8; 64];
    Some(PhcFields {
        algorithm: parsed.algorithm.as_str().to_string(),
        version: parsed.version,
        params: parsed.params.iter()
            .map(|(name, value)| (name.to_string(), value.to_string()))
            .collect(),
        salt: parsed.salt
            .and_then(|salt| salt.decode_b64(&mut buffer).ok().map(<[u8]>::to_vec)),
        hash: parsed.hash.map(|hash| hash.as_bytes().to_vec()),
    })
}

/// Calls `PasswordHasher::hash_password` on an `argon2::Argon2` context of
/// Argon2id, version 19, with the given parameters, the salt handed over
/// through `SaltString::encode_b64`. The contract claims only that the
/// outcome depends on the arguments alone. The parameters must be valid,
/// since `Params::new` multiplies the lanes by 8 before it has bounded them,
/// and the salt of an accepted length, since turning a `SaltString` of fewer
/// than 4 characters into a `Salt` panics.
#[verifier::external_body]
pub(crate) fn argon2id(
    password: &[u8],
    salt: &[u8],
    memory_cost: u32,
    time_cost: u32,
    parallelism_cost: u32,
    output_length: usize,
) -> (hashed: Option<(Vec<u8>, String)>)
    requires
        valid_parameters(memory_cost, time_cost, parallelism_cost, Some(output_length)),
        MIN_SALT_LENGTH <= salt@.len() <= MAX_SALT_LENGTH,
    ensures
        match hashed {
            Some((key, text)) => Some((key@, text@)),
            None => None,
        } == argon2id_hash(
            password@,
            salt@,
            memory_cost,
            time_cost,
            parallelism_cost,
            output_length,
        ),
{
    let params = Params::new(memory_cost, time_cost, parallelism_cost, Some(output_length)).ok()?;
    let salt = SaltString::encode_b64(salt).ok()?;
    let context = Argon2::new(Algorithm::Argon2id, Version::V0x13, params);
    let hash = context.hash_password(password, &salt).ok()?;
    Some((hash.hash?.as_bytes().to_vec(), hash.to_string()))
}

/// Calls `RngCore::try_fill_bytes` on `rand_core::OsRng` for a fresh buffer
/// of `length` bytes. Of the bytes themselves nothing is claimed.
#[verifier::external_body]
pub(crate) fn fill_random(length: usize) -> (drawn: Result<Vec<u8>, rand_core::Error>)
    ensures
        drawn matches Ok(bytes) ==> bytes@.len() == length,
{
    let mut bytes = vec![0u8; length];
    OsRng.try_fill_bytes(&mut bytes)?;
    Ok(bytes)
}

/// Calls `subtle::ConstantTimeEq::ct_eq` on two byte slices: true exactly
/// when they are equal, in a time that depends on their lengths alone.
#[verifier::external_body]
pub(crate) fn constant_time_eq(left: &[u8], right: &[u8]) -> (same: bool)
    ensures
        same == (left@ == right@),
{
    left.ct_eq(right).into()
}

} // verus!
