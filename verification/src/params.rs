//! Parameter translation: mapping the parameters a stream declares into the
//! arguments the external decoder is created with, and validating the channel
//! layout against the layouts the adapter supports.

use vstd::prelude::*;

use crate::errors::AdapterError;
use crate::DEFAULT_SAMPLE_RATE;

verus! {

/// The parameters a stream declares, captured once at construction and
/// retained verbatim so a later query can return them unchanged.
#[derive(Clone, Copy, Debug)]
pub struct StreamParameters {
    /// Channel count the stream declares, if any. Construction fails unless
    /// it is present and resolves to mono or stereo.
    pub channels: Option<u32>,
    /// Sample rate the stream declares, if any. When absent, the external
    /// decoder is created at the codec's reference rate.
    pub sample_rate: Option<u32>,
}

impl StreamParameters {
    /// True when the declared channel layout resolves to mono or stereo.
    pub open spec fn channels_supported(&self) -> bool {
        self.channels == Some(1u32) || self.channels == Some(2u32)
    }

    /// The declared channel count, or zero when none is declared.
    pub open spec fn channel_count_spec(&self) -> u32 {
        match self.channels {
            Some(c) => c,
            None => 0u32,
        }
    }

    /// Rate the external decoder is created with: the declared one, else the
    /// codec's reference rate.
    pub open spec fn resolved_sample_rate_spec(&self) -> u32 {
        match self.sample_rate {
            Some(r) => r,
            None => DEFAULT_SAMPLE_RATE,
        }
    }

    /// Executable form of `resolved_sample_rate_spec`.
    pub fn resolved_sample_rate(&self) -> (r: u32)
        ensures
            r == self.resolved_sample_rate_spec(),
    {
        match self.sample_rate {
            Some(r) => r,
            None => DEFAULT_SAMPLE_RATE,
        }
    }
}

/// Validate the declared channel layout: mono and stereo pass through as
/// their counts; any other declaration (or none) is an unsupported
/// configuration.
pub fn validate_channel_count(params: &StreamParameters) -> (r: Result<u32, AdapterError>)
    ensures
        params.channels_supported() ==> r == Ok::<u32, AdapterError>(
            params.channel_count_spec(),
        ),
        !params.channels_supported() ==> r == Err::<u32, AdapterError>(
            AdapterError::UnsupportedConfiguration,
        ),
{
    match params.channels {
        Some(1u32) => Ok(1),
        Some(2u32) => Ok(2),
        _ => Err(AdapterError::UnsupportedConfiguration),
    }
}

} // verus!
