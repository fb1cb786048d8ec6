//! What holds between hashing and verification, proved from their contracts.

use crate::config::{DEFAULT_MEMORY_COST, DEFAULT_PARALLELISM_COST, DEFAULT_TIME_COST};
use crate::engine::{
    decoded, derived_key, hash_outcome, may_hash_to, record_matches, verify_outcome,
    OUTPUT_LENGTH, SALT_LENGTH,
};
use crate::error::{HashError, VerifyError};
use crate::outside::phc_parse;
use crate::record::{variant_tag, RecordView, VERSION};
use vstd::prelude::*;

verus! {

/// A string that hashing hands out encodes the default cost parameters, the
/// salt it was made with, and a key of exactly 32 bytes.
pub proof fn lemma_hash_encodes_fresh_record(password: Seq<u8>, salt: Seq<u8>, text: Seq<char>)
    requires
        hash_outcome(password, salt) == Ok::<Seq<char>, HashError>(text),
    ensures
        decoded(text) matches Some(record) && record.memory_cost == DEFAULT_MEMORY_COST
            && record.time_cost == DEFAULT_TIME_COST && record.parallelism_cost
            == DEFAULT_PARALLELISM_COST && record.salt == salt && record.key.len()
            == OUTPUT_LENGTH && derived_key(password, record) == Some(record.key),
{
}

/// A string that hashing hands out names the variant Argon2id and the
/// version 19, and lists the parameters `m`, `t` and `p` in this order,
/// before a salt and a key.
pub proof fn lemma_hash_field_structure(password: Seq<u8>, salt: Seq<u8>, text: Seq<char>)
    requires
        hash_outcome(password, salt) == Ok::<Seq<char>, HashError>(text),
    ensures
        phc_parse(text) matches Some(fields) && fields.algorithm == variant_tag()
            && fields.version == Some(VERSION) && fields.params.len() == 3 && fields.params[0].0
            == "m"@ && fields.params[1].0 == "t"@ && fields.params[2].0 == "p"@ && fields.salt
            == Some(salt) && fields.hash is Some,
{
}

/// Round trip: a string that hashing hands out for a password verifies
/// against that password.
pub proof fn lemma_round_trip(password: Seq<u8>, salt: Seq<u8>, text: Seq<char>)
    requires
        hash_outcome(password, salt) == Ok::<Seq<char>, HashError>(text),
    ensures
        verify_outcome(password, text) == Ok::<bool, VerifyError>(true),
{
}

/// Round trip, before the salt is drawn: whatever string hashing may answer
/// for a password verifies against that password.
pub proof fn lemma_hash_then_verify(password: Seq<u8>, text: Seq<char>)
    requires
        may_hash_to(password, Ok(text)),
    ensures
        verify_outcome(password, text) == Ok::<bool, VerifyError>(true),
{
    let salt = choose|salt: Seq<u8>|
        salt.len() == SALT_LENGTH && #[trigger] hash_outcome(password, salt) == Ok::<
            Seq<char>,
            HashError,
        >(text);
    lemma_round_trip(password, salt, text);
}

/// Pinned lengths: whatever string hashing may answer encodes a salt of
/// exactly 16 bytes and a derived key of exactly 32 bytes, under the default
/// cost parameters.
pub proof fn lemma_hashed_lengths(password: Seq<u8>, text: Seq<char>)
    requires
        may_hash_to(password, Ok(text)),
    ensures
        decoded(text) matches Some(record) && record.salt.len() == SALT_LENGTH
            && record.key.len() == OUTPUT_LENGTH && record.memory_cost == DEFAULT_MEMORY_COST
            && record.time_cost == DEFAULT_TIME_COST && record.parallelism_cost
            == DEFAULT_PARALLELISM_COST,
{
    let salt = choose|salt: Seq<u8>|
        salt.len() == SALT_LENGTH && #[trigger] hash_outcome(password, salt) == Ok::<
            Seq<char>,
            HashError,
        >(text);
    lemma_hash_encodes_fresh_record(password, salt, text);
}

/// Another password against a hash: verification never fails with an
/// error, and answers whether the other password derives, with the same
/// salt and cost parameters, the key that the hashed password derived.
pub proof fn lemma_other_password(
    password: Seq<u8>,
    salt: Seq<u8>,
    text: Seq<char>,
    other: Seq<u8>,
)
    requires
        hash_outcome(password, salt) == Ok::<Seq<char>, HashError>(text),
    ensures
        decoded(text) matches Some(record) && verify_outcome(other, text) == Ok::<
            bool,
            VerifyError,
        >(derived_key(other, record) == derived_key(password, record)),
{
}

/// Negative match: a password that does not derive the stored key is
/// answered with `Ok(false)`.
pub proof fn lemma_negative_match(
    password: Seq<u8>,
    salt: Seq<u8>,
    text: Seq<char>,
    other: Seq<u8>,
)
    requires
        hash_outcome(password, salt) == Ok::<Seq<char>, HashError>(text),
        decoded(text) matches Some(record) && derived_key(other, record) != derived_key(
            password,
            record,
        ),
    ensures
        verify_outcome(other, text) == Ok::<bool, VerifyError>(false),
{
    lemma_other_password(password, salt, text, other);
}

/// Verification goes by the parameters in the string, whatever they are: a
/// string that encodes a record whose key the candidate derives under the
/// record's own salt and cost parameters verifies.
pub proof fn lemma_embedded_parameters(candidate: Seq<u8>, encoded: Seq<char>, record: RecordView)
    requires
        decoded(encoded) == Some(record),
    ensures
        verify_outcome(candidate, encoded) == Ok::<bool, VerifyError>(
            record_matches(candidate, record),
        ),
        derived_key(candidate, record) == Some(record.key) ==> verify_outcome(candidate, encoded)
            == Ok::<bool, VerifyError>(true),
{
}

/// Verification is a function of its two arguments: two answers for the
/// same candidate and the same string are the same answer.
pub proof fn lemma_verify_is_determined(
    candidate: Seq<u8>,
    encoded: Seq<char>,
    first: Result<bool, VerifyError>,
    second: Result<bool, VerifyError>,
)
    requires
        first == verify_outcome(candidate, encoded),
        second == verify_outcome(candidate, encoded),
    ensures
        first == second,
{
}

/// One string is never handed out for two salts: hashes made with distinct
/// salts are distinct strings, whatever the passwords.
pub proof fn lemma_distinct_salts_distinct_hashes(
    password: Seq<u8>,
    salt: Seq<u8>,
    other_password: Seq<u8>,
    other_salt: Seq<u8>,
    text: Seq<char>,
)
    requires
        hash_outcome(password, salt) == Ok::<Seq<char>, HashError>(text),
        hash_outcome(other_password, other_salt) == Ok::<Seq<char>, HashError>(text),
    ensures
        salt == other_salt,
{
}

} // verus!
