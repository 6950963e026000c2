//! Choice of a stream configuration among those an input device supports.

use vstd::prelude::*;
use crate::config::AudioCaptureConfig;

verus! {

/// Sample format of a device configuration, as far as capture cares.
#[derive(Debug, Clone, Copy, PartialEq, Eq, Structural)]
pub enum SampleFormat {
    /// 32-bit floating-point samples, the only format captured.
    F32,
    /// Any other sample format.
    Other,
}

/// One supported input configuration of a device: a channel count, a sample
/// format and an inclusive range of sample rates.
#[derive(Debug, Clone, Copy, PartialEq, Eq, Structural)]
pub struct SupportedInputConfig {
    pub channels: u16,
    pub sample_format: SampleFormat,
    pub min_sample_rate: u32,
    pub max_sample_rate: u32,
}

/// The stream configuration chosen for a request.
#[derive(Debug, Clone, Copy, PartialEq, Eq, Structural)]
pub struct ResolvedStreamConfig {
    /// Position of the chosen entry among the device's supported configurations.
    pub config_index: usize,
    /// Exact sample rate of the stream, in Hz.
    pub sample_rate: u32,
    /// Channel count of the stream.
    pub channels: u16,
}

/// Why no capture could be set up, or a stream could not be started.
#[derive(Debug, Clone, PartialEq, Eq)]
pub enum AudioError {
    /// The host has no default input device.
    NoInputDevice,
    /// The device's supported configurations could not be listed, for the
    /// reason given.
    ConfigQueryFailed(String),
    /// No configuration of the device has the requested channel count, 32-bit
    /// float samples and a rate range holding the requested rate.
    NoSupportedConfig { sample_rate: u32, channels: u16 },
    /// The audio subsystem rejected the stream parameters.
    StreamConstructionFailed(String),
    /// The audio subsystem refused to start the stream.
    StreamStartFailed(String),
}

/// Whether a supported configuration can serve a request.
pub open spec fn serves(c: SupportedInputConfig, req: AudioCaptureConfig) -> bool {
    &&& c.channels == req.channels
    &&& c.sample_format == SampleFormat::F32
    &&& c.min_sample_rate <= req.sample_rate <= c.max_sample_rate
}

/// Whether some configuration in the list can serve the request.
pub open spec fn any_serves(configs: Seq<SupportedInputConfig>, req: AudioCaptureConfig) -> bool {
    exists|i: int| 0 <= i < configs.len() && serves(#[trigger] configs[i], req)
}

/// Whether `i` is the first position whose configuration serves the request.
pub open spec fn first_serving(
    configs: Seq<SupportedInputConfig>,
    req: AudioCaptureConfig,
    i: int,
) -> bool {
    &&& 0 <= i < configs.len()
    &&& serves(configs[i], req)
    &&& forall|j: int| 0 <= j < i ==> !serves(#[trigger] configs[j], req)
}

/// The outcome of negotiating a request against a device's configurations,
/// `None` standing for a host without a default input device.
pub open spec fn negotiation_ok(
    device: Option<Seq<SupportedInputConfig>>,
    req: AudioCaptureConfig,
    r: Result<ResolvedStreamConfig, AudioError>,
) -> bool {
    match device {
        None => r == Err::<ResolvedStreamConfig, AudioError>(AudioError::NoInputDevice),
        Some(configs) => if any_serves(configs, req) {
            &&& r is Ok
            &&& first_serving(configs, req, r->Ok_0.config_index as int)
            &&& r->Ok_0.sample_rate == req.sample_rate
            &&& r->Ok_0.channels == req.channels
        } else {
            r == Err::<ResolvedStreamConfig, AudioError>(
                AudioError::NoSupportedConfig {
                    sample_rate: req.sample_rate,
                    channels: req.channels,
                },
            )
        },
    }
}

/// The device's configurations as a sequence, `None` when there is no device.
pub open spec fn device_configs(device: Option<&[SupportedInputConfig]>) -> Option<
    Seq<SupportedInputConfig>,
> {
    match device {
        Some(c) => Some(c@),
        None => None,
    }
}

/// Whether one supported configuration can serve the request.
pub fn config_serves(c: &SupportedInputConfig, req: &AudioCaptureConfig) -> (r: bool)
    ensures
        r == serves(*c, *req),
{
    c.channels == req.channels && c.sample_format == SampleFormat::F32 && c.min_sample_rate
        <= req.sample_rate && req.sample_rate <= c.max_sample_rate
}

/// Chooses the stream configuration for a request: the first supported
/// configuration with the requested channel count, 32-bit float samples and a
/// rate range holding the requested rate, fixed to exactly that rate.
pub fn resolve(
    requested: &AudioCaptureConfig,
    device: Option<&[SupportedInputConfig]>,
) -> (r: Result<ResolvedStreamConfig, AudioError>)
    ensures
        negotiation_ok(device_configs(device), *requested, r),
{
    let configs = match device {
        Some(c) => c,
        None => {
            return Err(AudioError::NoInputDevice);
        },
    };
    let mut i: usize = 0;
    while i < configs.len()
        invariant
            device == Some(configs),
            i <= configs@.len(),
            forall|j: int| 0 <= j < i ==> !serves(#[trigger] configs@[j], *requested),
        decreases configs@.len() - i,
    {
        if config_serves(&configs[i], requested) {
            assert(any_serves(configs@, *requested));
            return Ok(
                ResolvedStreamConfig {
                    config_index: i,
                    sample_rate: requested.sample_rate,
                    channels: requested.channels,
                },
            );
        }
        i = i + 1;
    }
    Err(AudioError::NoSupportedConfig { sample_rate: requested.sample_rate, channels: requested.channels })
}

} // verus!
