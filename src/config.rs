//! Capture configuration and the capture state.

use vstd::prelude::*;

verus! {

/// The sample rate used when none is given: 16 kHz, the usual rate for speech.
pub const DEFAULT_SAMPLE_RATE: u32 = 16000;

/// The channel count used when none is given: mono.
pub const DEFAULT_CHANNELS: u16 = 1;

/// The buffer size hint used when none is given, in samples.
pub const DEFAULT_BUFFER_SIZE: usize = 4096;

/// Requested capture parameters.
#[derive(Debug, Clone, Copy, PartialEq, Eq, Structural)]
pub struct AudioCaptureConfig {
    /// Sample rate in Hz.
    pub sample_rate: u32,
    /// Number of interleaved channels.
    pub channels: u16,
    /// Buffer size hint, in samples.
    pub buffer_size: usize,
}

/// The default configuration: 16 kHz, mono, 4096-sample buffer hint.
pub open spec fn default_config() -> AudioCaptureConfig {
    AudioCaptureConfig {
        sample_rate: DEFAULT_SAMPLE_RATE,
        channels: DEFAULT_CHANNELS,
        buffer_size: DEFAULT_BUFFER_SIZE,
    }
}

impl Default for AudioCaptureConfig {
    fn default() -> (r: Self)
        ensures
            r == default_config(),
    {
        AudioCaptureConfig {
            sample_rate: DEFAULT_SAMPLE_RATE,
            channels: DEFAULT_CHANNELS,
            buffer_size: DEFAULT_BUFFER_SIZE,
        }
    }
}

/// Mode of the capture controller: whether incoming samples are retained.
#[derive(Debug, Clone, Copy, PartialEq, Eq, Structural)]
pub enum CaptureState {
    Idle,
    Recording,
    Paused,
}

} // verus!
