//! The recognized configuration surface, with its validation rules.

use vstd::prelude::*;

use crate::registry::InstallMode;
use crate::sampler::PPM_SCALE;

verus! {

/// Everything the embedder can configure.
pub struct TracerConfig {
    /// Whether the hook starts out active.
    pub enabled: bool,
    /// Fraction of frames kept, in parts per million of `PPM_SCALE`;
    /// valid range `1..=PPM_SCALE`.
    pub sample_rate_ppm: u32,
    /// Where the flush worker sends batches; interpreted by the embedding
    /// glue, opaque to the library.
    pub sink_endpoint: String,
    /// Whether installation owns the hook slot or chains to a previous
    /// hook.
    pub installation_mode: InstallMode,
    /// How many records the dispatcher buffers before dropping the oldest.
    pub buffer_capacity: usize,
    /// How long the flush worker waits, at most, before draining the
    /// buffer.
    pub flush_interval_ns: u64,
}

/// Why a configuration was rejected.
#[derive(Clone, Copy, PartialEq, Eq, Structural, Debug)]
pub enum ConfigError {
    /// A sampling rate of zero would silently trace nothing.
    SampleRateZero,
    /// The sampling rate lies above `PPM_SCALE`, the whole.
    SampleRateTooHigh,
    /// A capacity of zero cannot hold even the newest record.
    BufferCapacityZero,
}

impl TracerConfig {
    /// The valid configurations: rate inside `(0, PPM_SCALE]` and a
    /// buffer that can hold at least one record.
    pub open spec fn valid(&self) -> bool {
        &&& 0 < self.sample_rate_ppm <= PPM_SCALE
        &&& self.buffer_capacity >= 1
    }

    /// Checks the configuration, reporting the first rule broken, in the
    /// order the fields are declared; accepts exactly the valid ones.
    pub fn validate(&self) -> (r: Result<(), ConfigError>)
        ensures
            r is Ok <==> self.valid(),
            r == (if self.sample_rate_ppm == 0 {
                Result::<(), ConfigError>::Err(ConfigError::SampleRateZero)
            } else if self.sample_rate_ppm > PPM_SCALE {
                Result::<(), ConfigError>::Err(ConfigError::SampleRateTooHigh)
            } else if self.buffer_capacity == 0 {
                Result::<(), ConfigError>::Err(ConfigError::BufferCapacityZero)
            } else {
                Result::<(), ConfigError>::Ok(())
            }),
    {
        if self.sample_rate_ppm == 0 {
            Result::Err(ConfigError::SampleRateZero)
        } else if self.sample_rate_ppm > PPM_SCALE {
            Result::Err(ConfigError::SampleRateTooHigh)
        } else if self.buffer_capacity == 0 {
            Result::Err(ConfigError::BufferCapacityZero)
        } else {
            Result::Ok(())
        }
    }
}

impl Default for TracerConfig {
    /// The defaults: inactive until enabled, every frame kept, no
    /// endpoint, exclusive slot ownership, a thousand buffered records,
    /// flush at least once a second.
    fn default() -> (c: TracerConfig)
        ensures
            c.enabled == false,
            c.sample_rate_ppm == PPM_SCALE,
            c.sink_endpoint@ == Seq::<char>::empty(),
            c.installation_mode == InstallMode::Exclusive,
            c.buffer_capacity == 1000usize,
            c.flush_interval_ns == 1_000_000_000u64,
            c.valid(),
    {
        TracerConfig {
            enabled: false,
            sample_rate_ppm: PPM_SCALE,
            sink_endpoint: String::new(),
            installation_mode: InstallMode::Exclusive,
            buffer_capacity: 1000,
            flush_interval_ns: 1_000_000_000,
        }
    }
}

} // verus!
