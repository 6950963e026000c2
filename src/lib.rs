//! Real-time audio capture core: stream configuration negotiation, the
//! capture state machine with its shared sample buffer, and PCM16LE encoding.

pub mod pcm;
pub mod config;
pub mod negotiate;
pub mod capture;

pub use capture::{AudioCapture, CaptureModel, StartAction, StreamOutcome};
pub use config::{AudioCaptureConfig, CaptureState};
pub use negotiate::{resolve, AudioError, ResolvedStreamConfig, SampleFormat, SupportedInputConfig};
pub use pcm::{sample_to_le_bytes, samples_to_pcm, AudioData};
