//! Startup configuration, fixed for the whole run.
//!
//! Every parameter is chosen before any stage starts and never changes.
//! Validation runs before any thread is spawned: a family with no workers
//! or a channel with no capacity would stall the whole pipeline, so either
//! aborts startup with an error naming the offending parameter.

use vstd::prelude::*;

verus! {

/// Fixed topology and tuning knobs of one pipeline run.
#[derive(Clone, Copy)]
pub struct PipelineConfig {
    /// How many items the generator produces (numbered from 0).
    pub total_items: usize,
    /// Fan-out width of the first digest family.
    pub sha512_workers: usize,
    /// Fan-out width of the second digest family.
    pub blake3_workers: usize,
    /// Capacity of every channel, in items.
    pub channel_capacity: usize,
    /// How long a stage sleeps before retrying a full or empty channel.
    pub retry_millis: u64,
    /// How often the utilization monitor samples the stage counters.
    pub stats_interval_millis: u64,
}

/// The parameter a rejected configuration was rejected for.
#[derive(Clone, Copy, Debug, PartialEq, Eq)]
pub enum ConfigError {
    ZeroSha512Workers,
    ZeroBlake3Workers,
    ZeroChannelCapacity,
}

impl PipelineConfig {
    /// A configuration the pipeline can actually run: at least one worker
    /// per family and room for at least one item in every channel.
    pub open spec fn valid(self) -> bool {
        &&& self.sha512_workers >= 1
        &&& self.blake3_workers >= 1
        &&& self.channel_capacity >= 1
    }
}

/// What validation decides, parameter by parameter, first offender wins.
pub open spec fn spec_validate(cfg: PipelineConfig) -> Result<(), ConfigError> {
    if cfg.sha512_workers == 0 {
        Err(ConfigError::ZeroSha512Workers)
    } else if cfg.blake3_workers == 0 {
        Err(ConfigError::ZeroBlake3Workers)
    } else if cfg.channel_capacity == 0 {
        Err(ConfigError::ZeroChannelCapacity)
    } else {
        Ok(())
    }
}

/// Check a configuration before anything is spawned.  Succeeds exactly on
/// valid configurations; otherwise reports the first invalid parameter.
pub fn validate(cfg: &PipelineConfig) -> (r: Result<(), ConfigError>)
    ensures
        r == spec_validate(*cfg),
        r is Ok <==> cfg.valid(),
{
    if cfg.sha512_workers == 0 {
        Err(ConfigError::ZeroSha512Workers)
    } else if cfg.blake3_workers == 0 {
        Err(ConfigError::ZeroBlake3Workers)
    } else if cfg.channel_capacity == 0 {
        Err(ConfigError::ZeroChannelCapacity)
    } else {
        Ok(())
    }
}

} // verus!
