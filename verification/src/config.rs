//! Cost parameters of the derivation function and their validation.

use vstd::prelude::*;

verus! {

/// Memory cost, in KiB, of every hash this library produces.
pub const DEFAULT_MEMORY_COST: u32 = 19456;

/// Number of passes of every hash this library produces.
pub const DEFAULT_TIME_COST: u32 = 2;

/// Number of lanes of every hash this library produces.
pub const DEFAULT_PARALLELISM_COST: u32 = 1;

/// Smallest memory cost the algorithm accepts, in KiB.
pub const MIN_MEMORY_COST: u32 = 8;

/// Largest number of lanes the algorithm accepts.
pub const MAX_PARALLELISM_COST: u32 = 0xFF_FFFF;

/// Shortest derived key the algorithm produces, in bytes.
pub const MIN_OUTPUT_LENGTH: usize = 4;

/// Longest derived key the algorithm produces, in bytes; held in 64 bits so
/// that it is the same number where `usize` has 32.
pub const MAX_OUTPUT_LENGTH: u64 = 0xFFFF_FFFF;

/// Why a configuration could not be built.
#[derive(Clone, Copy, Debug, PartialEq, Eq, Structural)]
pub enum ConfigError {
    /// The cost parameters, or the output length, break a constraint of the algorithm.
    InvalidParameters,
}

/// The constraints the algorithm puts on its parameters: at least 8 KiB of
/// memory and 8 KiB for each lane, at least one pass, between one and
/// 2^24 - 1 lanes, and a derived key of 4 to 2^32 - 1 bytes where a length
/// is given.
pub open spec fn valid_parameters(
    memory_cost: u32,
    time_cost: u32,
    parallelism_cost: u32,
    output_length: Option<usize>,
) -> bool {
    &&& memory_cost >= MIN_MEMORY_COST
    &&& memory_cost >= 8 * parallelism_cost
    &&& time_cost >= 1
    &&& 1 <= parallelism_cost <= MAX_PARALLELISM_COST
    &&& valid_output_length(output_length)
}

/// An output length is acceptable when it is absent or within the algorithm's bounds.
pub open spec fn valid_output_length(output_length: Option<usize>) -> bool {
    output_length matches Some(length) ==> MIN_OUTPUT_LENGTH <= length <= MAX_OUTPUT_LENGTH
}

/// The default cost parameters together with the given output length.
pub open spec fn default_parameters(output_length: Option<usize>) -> ConfigView {
    ConfigView {
        memory_cost: DEFAULT_MEMORY_COST,
        time_cost: DEFAULT_TIME_COST,
        parallelism_cost: DEFAULT_PARALLELISM_COST,
        output_length,
    }
}

/// What an [`AlgorithmConfig`] stands for: its four parameters.
pub struct ConfigView {
    pub memory_cost: u32,
    pub time_cost: u32,
    pub parallelism_cost: u32,
    pub output_length: Option<usize>,
}

impl ConfigView {
    /// The parameters meet the algorithm's constraints.
    pub open spec fn valid(self) -> bool {
        valid_parameters(
            self.memory_cost,
            self.time_cost,
            self.parallelism_cost,
            self.output_length,
        )
    }
}

/// A validated set of Argon2id (version 19) parameters.
#[derive(Clone, Copy, Debug)]
pub struct AlgorithmConfig {
    memory_cost: u32,
    time_cost: u32,
    parallelism_cost: u32,
    output_length: Option<usize>,
}

impl View for AlgorithmConfig {
    type V = ConfigView;

    closed spec fn view(&self) -> ConfigView {
        ConfigView {
            memory_cost: self.memory_cost,
            time_cost: self.time_cost,
            parallelism_cost: self.parallelism_cost,
            output_length: self.output_length,
        }
    }
}

impl AlgorithmConfig {
    /// Every configuration holds parameters that the algorithm accepts.
    #[verifier::type_invariant]
    pub open spec fn well_formed(self) -> bool {
        self@.valid()
    }

    /// Builds a configuration from explicit parameters, or refuses them.
    pub fn new(
        memory_cost: u32,
        time_cost: u32,
        parallelism_cost: u32,
        output_length: Option<usize>,
    ) -> (result: Result<AlgorithmConfig, ConfigError>)
        ensures
            valid_parameters(memory_cost, time_cost, parallelism_cost, output_length) ==> (
            result matches Ok(config) && config@ == (ConfigView {
                memory_cost,
                time_cost,
                parallelism_cost,
                output_length,
            })),
            !valid_parameters(memory_cost, time_cost, parallelism_cost, output_length)
                ==> result == Err::<AlgorithmConfig, ConfigError>(ConfigError::InvalidParameters),
    {
        if parallelism_cost < 1 || parallelism_cost > MAX_PARALLELISM_COST {
            return Err(ConfigError::InvalidParameters);
        }
        if memory_cost < MIN_MEMORY_COST || memory_cost < 8 * parallelism_cost {
            return Err(ConfigError::InvalidParameters);
        }
        if time_cost < 1 {
            return Err(ConfigError::InvalidParameters);
        }
        if let Some(length) = output_length {
            if length < MIN_OUTPUT_LENGTH || length as u64 > MAX_OUTPUT_LENGTH {
                return Err(ConfigError::InvalidParameters);
            }
        }
        Ok(AlgorithmConfig { memory_cost, time_cost, parallelism_cost, output_length })
    }

    /// Memory cost in KiB.
    pub fn memory_cost(&self) -> (value: u32)
        ensures
            value == self@.memory_cost,
            self@.valid(),
    {
        proof {
            use_type_invariant(self);
        }
        self.memory_cost
    }

    /// Number of passes.
    pub fn time_cost(&self) -> (value: u32)
        ensures
            value == self@.time_cost,
            self@.valid(),
    {
        proof {
            use_type_invariant(self);
        }
        self.time_cost
    }

    /// Number of lanes.
    pub fn parallelism_cost(&self) -> (value: u32)
        ensures
            value == self@.parallelism_cost,
            self@.valid(),
    {
        proof {
            use_type_invariant(self);
        }
        self.parallelism_cost
    }

    /// Length of the derived key in bytes, where one was fixed.
    pub fn output_length(&self) -> (value: Option<usize>)
        ensures
            value == self@.output_length,
            self@.valid(),
    {
        proof {
            use_type_invariant(self);
        }
        self.output_length
    }
}

/// Builds the configuration that hashing uses: the default cost parameters
/// with the given output length, `None` standing for the algorithm's own
/// default length.
pub fn build_config(output_length: Option<usize>) -> (result: Result<AlgorithmConfig, ConfigError>)
    ensures
        valid_output_length(output_length) ==> (result matches Ok(config) && config@
            == default_parameters(output_length)),
        !valid_output_length(output_length) ==> result == Err::<AlgorithmConfig, ConfigError>(
            ConfigError::InvalidParameters,
        ),
{
    AlgorithmConfig::new(
        DEFAULT_MEMORY_COST,
        DEFAULT_TIME_COST,
        DEFAULT_PARALLELISM_COST,
        output_length,
    )
}

} // verus!
