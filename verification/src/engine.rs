//! Hashing a password into a PHC string, and checking a password against one.

use crate::config::{
    build_config, DEFAULT_MEMORY_COST, DEFAULT_PARALLELISM_COST, DEFAULT_TIME_COST,
};
use crate::error::{HashError, VerifyError};
use crate::outside::{argon2id, argon2id_hash, constant_time_eq, fill_random, parse_phc, phc_parse};
use crate::record::{decode_fields, HashRecord, RecordView, MAX_SALT_LENGTH, MIN_SALT_LENGTH};
use vstd::prelude::*;

verus! {

/// Number of random salt bytes of every hash this library produces.
pub const SALT_LENGTH: usize = 16;

/// Number of derived key bytes of every hash this library produces.
pub const OUTPUT_LENGTH: usize = 32;

/// The record that a string encodes, or `None` where it encodes none.
pub open spec fn decoded(encoded: Seq<char>) -> Option<RecordView> {
    match phc_parse(encoded) {
        Some(fields) => decode_fields(fields),
        None => None,
    }
}

/// The key that Argon2id derives from `candidate` with the salt and the cost
/// parameters of `record`, as long as the record's own key.
pub open spec fn derived_key(candidate: Seq<u8>, record: RecordView) -> Option<Seq<u8>> {
    match argon2id_hash(
        candidate,
        record.salt,
        record.memory_cost,
        record.time_cost,
        record.parallelism_cost,
        record.key.len() as usize,
    ) {
        Some((key, _)) => Some(key),
        None => None,
    }
}

/// `candidate` derives exactly the key that `record` stores.
pub open spec fn record_matches(candidate: Seq<u8>, record: RecordView) -> bool {
    derived_key(candidate, record) == Some(record.key)
}

/// The outcome of a derivation, key and PHC string, as sequences.
pub open spec fn derivation_view(derived: Option<(Vec<u8>, String)>) -> Option<
    (Seq<u8>, Seq<char>),
> {
    match derived {
        Some((key, text)) => Some((key@, text@)),
        None => None,
    }
}

/// What verification answers: an error for a string that encodes no record,
/// else whether the candidate derives the stored key.
pub open spec fn verify_outcome(candidate: Seq<u8>, encoded: Seq<char>) -> Result<
    bool,
    VerifyError,
> {
    match decoded(encoded) {
        Some(record) => Ok(record_matches(candidate, record)),
        None => Err(VerifyError::MalformedHash),
    }
}

/// The record that a fresh hash is meant to encode: the default cost
/// parameters with this salt and this key.
pub open spec fn fresh_record(salt: Seq<u8>, key: Seq<u8>) -> RecordView {
    RecordView {
        memory_cost: DEFAULT_MEMORY_COST,
        time_cost: DEFAULT_TIME_COST,
        parallelism_cost: DEFAULT_PARALLELISM_COST,
        salt,
        key,
    }
}

/// What a derivation's outcome is worth as a hash for `salt`: its PHC
/// string, if the key has 32 bytes and the string encodes the default cost
/// parameters, this salt and this key; else an error.
pub open spec fn confirmed(salt: Seq<u8>, derived: Option<(Seq<u8>, Seq<char>)>) -> Result<
    Seq<char>,
    HashError,
> {
    match derived {
        Some((key, text)) => {
            if key.len() == OUTPUT_LENGTH && decoded(text) == Some(fresh_record(salt, key)) {
                Ok(text)
            } else {
                Err(HashError::EncodingFailed)
            }
        },
        None => Err(HashError::EncodingFailed),
    }
}

/// What hashing answers once the salt is drawn: the PHC string of the key
/// derived under the default cost parameters, once confirmed. A salt under
/// 8 or over 48 bytes always ends in the error, since no record holds one.
pub open spec fn hash_outcome(password: Seq<u8>, salt: Seq<u8>) -> Result<Seq<char>, HashError> {
    confirmed(
        salt,
        argon2id_hash(
            password,
            salt,
            DEFAULT_MEMORY_COST,
            DEFAULT_TIME_COST,
            DEFAULT_PARALLELISM_COST,
            OUTPUT_LENGTH,
        ),
    )
}

/// A hashing result with its string taken as a sequence of characters.
pub open spec fn text_of(result: Result<String, HashError>) -> Result<Seq<char>, HashError> {
    match result {
        Ok(text) => Ok(text@),
        Err(error) => Err(error),
    }
}

/// What hashing may answer before the salt is drawn: that no randomness was
/// to be had, or the outcome for some salt of 16 bytes.
pub open spec fn may_hash_to(password: Seq<u8>, result: Result<Seq<char>, HashError>) -> bool {
    ||| result == Err::<Seq<char>, HashError>(HashError::RandomnessUnavailable)
    ||| exists|salt: Seq<u8>|
        salt.len() == SALT_LENGTH && #[trigger] hash_outcome(password, salt) == result
}

/// Judges the outcome of a derivation against a record: true exactly when
/// a key was derived and equals the stored key, compared in constant time.
pub fn accepts_derivation(record: &HashRecord, derived: &Option<(Vec<u8>, String)>) -> (matches:
    bool)
    ensures
        matches == (derivation_view(*derived) matches Some((key, _)) && key == record@.key),
{
    match derived {
        Some((key, _)) => constant_time_eq(key.as_slice(), record.key()),
        None => false,
    }
}

/// Tells whether `candidate` is the password that `record` was made from:
/// derives a key with the record's own salt and cost parameters and compares
/// it with the stored key.
pub fn verify_record(candidate: &[u8], record: &HashRecord) -> (matches: bool)
    ensures
        matches == record_matches(candidate@, record@),
{
    let config = record.config();
    let derived = argon2id(
        candidate,
        record.salt(),
        config.memory_cost(),
        config.time_cost(),
        config.parallelism_cost(),
        record.key().len(),
    );
    accepts_derivation(record, &derived)
}

/// Reads the record that a PHC string encodes.
pub fn decode(encoded: &str) -> (record: Option<HashRecord>)
    ensures
        match record {
            Some(record) => Some(record@),
            None => None,
        } == decoded(encoded@),
{
    match parse_phc(encoded) {
        Some(fields) => HashRecord::from_fields(fields),
        None => None,
    }
}

/// Checks `candidate` against a stored hash. A string that encodes no
/// record is an error; a password that does not match is `Ok(false)`.
pub fn verify_password(candidate: &[u8], encoded: &str) -> (result: Result<bool, VerifyError>)
    ensures
        result == verify_outcome(candidate@, encoded@),
{
    match decode(encoded) {
        Some(record) => Ok(verify_record(candidate, &record)),
        None => Err(VerifyError::MalformedHash),
    }
}

/// Hands out the PHC string of a derivation only once it has been read
/// back and found to encode exactly what was computed: the default cost
/// parameters, `salt`, and the derived key of 32 bytes.
pub fn confirm_hash(salt: &[u8], derived: Option<(Vec<u8>, String)>) -> (result: Result<
    String,
    HashError,
>)
    ensures
        text_of(result) == confirmed(salt@, derivation_view(derived)),
{
    let (key, text) = match derived {
        Some(pair) => pair,
        None => {
            return Err(HashError::EncodingFailed);
        },
    };
    let record = match decode(text.as_str()) {
        Some(record) => record,
        None => {
            return Err(HashError::EncodingFailed);
        },
    };
    let stored = record.config();
    if key.len() == OUTPUT_LENGTH && stored.memory_cost() == DEFAULT_MEMORY_COST
        && stored.time_cost() == DEFAULT_TIME_COST && stored.parallelism_cost()
        == DEFAULT_PARALLELISM_COST && constant_time_eq(record.salt(), salt) && constant_time_eq(
        record.key(),
        key.as_slice(),
    ) {
        Ok(text)
    } else {
        Err(HashError::EncodingFailed)
    }
}

/// Hashes `password` with the given salt under the default cost parameters
/// and a key of 32 bytes.
pub fn hash_with_salt(password: &[u8], salt: &[u8]) -> (result: Result<String, HashError>)
    ensures
        text_of(result) == hash_outcome(password@, salt@),
{
    if salt.len() < MIN_SALT_LENGTH || salt.len() > MAX_SALT_LENGTH {
        return Err(HashError::EncodingFailed);
    }
    let config = match build_config(Some(OUTPUT_LENGTH)) {
        Ok(config) => config,
        // The defaults are valid, so this guard never fires.
        Err(_) => {
            return Err(HashError::EncodingFailed);
        },
    };
    let derived = argon2id(
        password,
        salt,
        config.memory_cost(),
        config.time_cost(),
        config.parallelism_cost(),
        OUTPUT_LENGTH,
    );
    confirm_hash(salt, derived)
}

/// Finishes a hash once the random source has answered: its error becomes
/// `RandomnessUnavailable`, its bytes become the salt.
pub fn hash_with_entropy(password: &[u8], entropy: Result<Vec<u8>, rand_core::Error>) -> (result:
    Result<String, HashError>)
    ensures
        text_of(result) == match entropy {
            Ok(salt) => hash_outcome(password@, salt@),
            Err(_) => Err(HashError::RandomnessUnavailable),
        },
{
    match entropy {
        Ok(salt) => hash_with_salt(password, salt.as_slice()),
        Err(_) => Err(HashError::RandomnessUnavailable),
    }
}

/// Hashes `password` with a fresh random salt of 16 bytes.
pub fn hash_password(password: &[u8]) -> (result: Result<String, HashError>)
    ensures
        may_hash_to(password@, text_of(result)),
{
    let entropy = fill_random(SALT_LENGTH);
    let result = hash_with_entropy(password, entropy);
    result
}

} // verus!
