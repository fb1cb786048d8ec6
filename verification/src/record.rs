//! The fields of a PHC string, and the hash record that they encode.

use crate::config::{valid_parameters, AlgorithmConfig};
use crate::decimal::{decimal_value, parse_decimal};
use vstd::prelude::*;

verus! {

/// Version of the algorithm that this library hashes and verifies with.
pub const VERSION: u32 = 19;

/// Fewest salt bytes the algorithm accepts.
pub const MIN_SALT_LENGTH: usize = 8;

/// Most salt bytes a PHC string can carry.
pub const MAX_SALT_LENGTH: usize = 48;

/// Name of the variant that this library hashes and verifies with.
pub open spec fn variant_tag() -> Seq<char> {
    "argon2id"@
}

/// The fields of a PHC string, `$id$v=version$name=value,..$salt$hash`, as
/// plain values: nothing here is interpreted yet.
#[derive(Debug)]
pub struct PhcFields {
    /// The function's symbolic name.
    pub algorithm: String,
    /// The version, where the string has one.
    pub version: Option<u32>,
    /// The parameters, name and value, in the order of the string.
    pub params: Vec<(String, String)>,
    /// The bytes of the salt, where the string has a salt that decodes.
    pub salt: Option<Vec<u8>>,
    /// The bytes of the hash output, where the string has one.
    pub hash: Option<Vec<u8>>,
}

/// What a [`PhcFields`] stands for.
pub struct PhcFieldsView {
    pub algorithm: Seq<char>,
    pub version: Option<u32>,
    pub params: Seq<(Seq<char>, Seq<char>)>,
    pub salt: Option<Seq<u8>>,
    pub hash: Option<Seq<u8>>,
}

/// Names and values of a parameter list, as text.
pub open spec fn params_view(params: Seq<(String, String)>) -> Seq<(Seq<char>, Seq<char>)> {
    Seq::new(params.len(), |i: int| (params[i].0@, params[i].1@))
}

impl View for PhcFields {
    type V = PhcFieldsView;

    open spec fn view(&self) -> PhcFieldsView {
        PhcFieldsView {
            algorithm: self.algorithm@,
            version: self.version,
            params: params_view(self.params@),
            salt: match self.salt {
                Some(salt) => Some(salt@),
                None => None,
            },
            hash: match self.hash {
                Some(hash) => Some(hash@),
                None => None,
            },
        }
    }
}

/// What a [`HashRecord`] stands for: cost parameters, salt and derived key.
pub struct RecordView {
    pub memory_cost: u32,
    pub time_cost: u32,
    pub parallelism_cost: u32,
    pub salt: Seq<u8>,
    pub key: Seq<u8>,
}

impl RecordView {
    /// The cost parameters suit a key of this length, and the salt has a
    /// length that the algorithm and the PHC string both accept.
    pub open spec fn valid(self) -> bool {
        &&& self.key.len() <= usize::MAX
        &&& valid_parameters(
            self.memory_cost,
            self.time_cost,
            self.parallelism_cost,
            Some(self.key.len() as usize),
        )
        &&& MIN_SALT_LENGTH <= self.salt.len() <= MAX_SALT_LENGTH
    }
}

/// The record made of these parts where it is valid, `None` where it is not.
pub open spec fn checked_record(
    memory_cost: u32,
    time_cost: u32,
    parallelism_cost: u32,
    salt: Seq<u8>,
    key: Seq<u8>,
) -> Option<RecordView> {
    let record = RecordView { memory_cost, time_cost, parallelism_cost, salt, key };
    if record.valid() {
        Some(record)
    } else {
        None
    }
}

/// The value of the parameter at `index`, read as a decimal, where its name is `name`.
pub open spec fn param_value(
    params: Seq<(Seq<char>, Seq<char>)>,
    index: int,
    name: Seq<char>,
) -> Option<u32> {
    if 0 <= index < params.len() && params[index].0 == name {
        decimal_value(params[index].1)
    } else {
        None
    }
}

/// The record that PHC fields encode, or `None` where they encode none: the
/// variant is not Argon2id, the version not 19, the parameters not exactly
/// `m`, `t` and `p` in this order with decimal values, salt or hash missing,
/// or the values outside what the algorithm accepts.
pub open spec fn decode_fields(fields: PhcFieldsView) -> Option<RecordView> {
    if fields.algorithm == variant_tag() && fields.version == Some(VERSION) && fields.params.len()
        == 3 {
        match (
            param_value(fields.params, 0, "m"@),
            param_value(fields.params, 1, "t"@),
            param_value(fields.params, 2, "p"@),
            fields.salt,
            fields.hash,
        ) {
            (Some(memory_cost), Some(time_cost), Some(parallelism_cost), Some(salt), Some(key)) => {
                checked_record(memory_cost, time_cost, parallelism_cost, salt, key)
            },
            _ => None,
        }
    } else {
        None
    }
}

/// Reads the parameter at `index` as a decimal, where its name is `name`.
fn named_decimal(params: &Vec<(String, String)>, index: usize, name: &str) -> (value: Option<u32>)
    ensures
        value == param_value(params_view(params@), index as int, name@),
{
    if index >= params.len() {
        return None;
    }
    let wanted = name.to_owned();
    if params[index].0 == wanted {
        parse_decimal(params[index].1.as_str())
    } else {
        None
    }
}

/// A stored hash: the cost parameters, the salt and the derived key that a
/// PHC string of Argon2id, version 19, carries.
#[derive(Debug)]
pub struct HashRecord {
    config: AlgorithmConfig,
    salt: Vec<u8>,
    key: Vec<u8>,
}

impl View for HashRecord {
    type V = RecordView;

    closed spec fn view(&self) -> RecordView {
        RecordView {
            memory_cost: self.config@.memory_cost,
            time_cost: self.config@.time_cost,
            parallelism_cost: self.config@.parallelism_cost,
            salt: self.salt@,
            key: self.key@,
        }
    }
}

impl HashRecord {
    #[verifier::type_invariant]
    spec fn well_formed(self) -> bool {
        &&& self.config@.output_length == Some(self.key@.len() as usize)
        &&& MIN_SALT_LENGTH <= self.salt@.len() <= MAX_SALT_LENGTH
    }

    /// Puts a record together from its parts, or refuses them.
    pub fn new(
        memory_cost: u32,
        time_cost: u32,
        parallelism_cost: u32,
        salt: Vec<u8>,
        key: Vec<u8>,
    ) -> (record: Option<HashRecord>)
        ensures
            match record {
                Some(record) => Some(record@),
                None => None,
            } == checked_record(memory_cost, time_cost, parallelism_cost, salt@, key@),
    {
        if salt.len() < MIN_SALT_LENGTH || salt.len() > MAX_SALT_LENGTH {
            return None;
        }
        match AlgorithmConfig::new(memory_cost, time_cost, parallelism_cost, Some(key.len())) {
            Ok(config) => Some(HashRecord { config, salt, key }),
            Err(_) => None,
        }
    }

    /// Reads the record that PHC fields encode.
    pub fn from_fields(fields: PhcFields) -> (record: Option<HashRecord>)
        ensures
            match record {
                Some(record) => Some(record@),
                None => None,
            } == decode_fields(fields@),
    {
        let tag = "argon2id".to_owned();
        if !(fields.algorithm == tag) {
            return None;
        }
        match fields.version {
            Some(version) => {
                if version != VERSION {
                    return None;
                }
            },
            None => {
                return None;
            },
        }
        if fields.params.len() != 3 {
            return None;
        }
        let memory_cost = named_decimal(&fields.params, 0, "m");
        let time_cost = named_decimal(&fields.params, 1, "t");
        let parallelism_cost = named_decimal(&fields.params, 2, "p");
        match (memory_cost, time_cost, parallelism_cost, fields.salt, fields.hash) {
            (Some(memory_cost), Some(time_cost), Some(parallelism_cost), Some(salt), Some(key)) => {
                HashRecord::new(memory_cost, time_cost, parallelism_cost, salt, key)
            },
            _ => None,
        }
    }

    /// The cost parameters, with the key's length as output length.
    pub fn config(&self) -> (config: &AlgorithmConfig)
        ensures
            config@.memory_cost == self@.memory_cost,
            config@.time_cost == self@.time_cost,
            config@.parallelism_cost == self@.parallelism_cost,
            config@.output_length == Some(self@.key.len() as usize),
            self@.valid(),
    {
        proof {
            use_type_invariant(self);
            use_type_invariant(&self.config);
            assert(self.key@.len() == self.key.len());
        }
        &self.config
    }

    /// The salt.
    pub fn salt(&self) -> (salt: &[u8])
        ensures
            salt@ == self@.salt,
            self@.valid(),
    {
        proof {
            use_type_invariant(self);
            use_type_invariant(&self.config);
            assert(self.key@.len() == self.key.len());
        }
        self.salt.as_slice()
    }

    /// The derived key.
    pub fn key(&self) -> (key: &[u8])
        ensures
            key@ == self@.key,
            self@.valid(),
    {
        proof {
            use_type_invariant(self);
            use_type_invariant(&self.config);
            assert(self.key@.len() == self.key.len());
        }
        self.key.as_slice()
    }
}

} // verus!
