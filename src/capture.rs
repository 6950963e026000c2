//! The capture controller: state machine, shared sample buffer and the
//! lifecycle of the stream handle.
//!
//! The controller makes every decision; whoever drives the audio subsystem
//! performs the stream work it asks for and reports the outcome back. The
//! hardware callback hands each chunk of quantized samples to
//! [`AudioCapture::deliver_samples`].

use vstd::prelude::*;
use crate::config::{default_config, AudioCaptureConfig, CaptureState};
use crate::negotiate::{
    device_configs, negotiation_ok, resolve, AudioError, ResolvedStreamConfig,
    SupportedInputConfig,
};
use crate::pcm::{pcm16le, samples_to_pcm, AudioData};

verus! {

/// Abstract state of a capture controller.
pub struct CaptureModel {
    /// The requested configuration.
    pub config: AudioCaptureConfig,
    /// The stream configuration negotiated for it.
    pub stream_config: ResolvedStreamConfig,
    /// Current mode.
    pub state: CaptureState,
    /// Samples queued in the current session, oldest first.
    pub samples: Seq<i16>,
    /// Whether a stream handle is held, so that the callback may fire.
    pub stream_live: bool,
}

impl CaptureModel {
    /// A freshly built controller: idle, no samples, no stream.
    pub open spec fn fresh(config: AudioCaptureConfig, stream_config: ResolvedStreamConfig) -> Self {
        CaptureModel {
            config,
            stream_config,
            state: CaptureState::Idle,
            samples: Seq::empty(),
            stream_live: false,
        }
    }

    /// First step of a start: nothing changes while recording; otherwise the
    /// buffer is cleared for a new session.
    pub open spec fn begin_start(self) -> Self {
        if self.state == CaptureState::Recording {
            self
        } else {
            CaptureModel { samples: Seq::empty(), ..self }
        }
    }

    /// A stream was built and started: it is held, and recording begins.
    pub open spec fn stream_opened(self) -> Self {
        CaptureModel { state: CaptureState::Recording, stream_live: true, ..self }
    }

    /// The mode set to `state`, all else kept.
    pub open spec fn with_state(self, state: CaptureState) -> Self {
        CaptureModel { state, ..self }
    }

    /// A chunk from the callback: appended while recording, dropped otherwise.
    pub open spec fn delivered(self, chunk: Seq<i16>) -> Self {
        if self.state == CaptureState::Recording {
            CaptureModel { samples: self.samples + chunk, ..self }
        } else {
            self
        }
    }

    /// The stream torn down: idle, no handle, buffer kept.
    pub open spec fn halted(self) -> Self {
        CaptureModel { state: CaptureState::Idle, stream_live: false, ..self }
    }

    /// The buffer drained: no samples, all else kept.
    pub open spec fn drained(self) -> Self {
        CaptureModel { samples: Seq::empty(), ..self }
    }

    /// Milliseconds of audio queued: samples × 1000 / (rate × channels), rounded down.
    pub open spec fn duration_ms(self) -> int {
        (self.samples.len() * 1000) as int / (self.config.sample_rate as int * self.config.channels as int)
    }

    /// Whether the configured rate and channel count are both nonzero.
    pub open spec fn has_rate(self) -> bool {
        self.config.sample_rate > 0 && self.config.channels > 0
    }
}

/// What the driver of the audio subsystem must do after [`AudioCapture::start`].
#[derive(Debug, Clone, Copy, PartialEq, Eq, Structural)]
pub enum StartAction {
    /// Recording is already under way: nothing to do.
    AlreadyRecording,
    /// Build a stream for the negotiated configuration, start it, and report
    /// the outcome to [`AudioCapture::finish_start`].
    OpenStream,
}

/// How building and starting a stream went.
#[derive(Debug, Clone, PartialEq, Eq)]
pub enum StreamOutcome {
    /// The stream was built and is running.
    Started,
    /// The audio subsystem rejected the stream parameters, for the reason given.
    BuildFailed(String),
    /// The stream was built but could not be started, for the reason given.
    PlayFailed(String),
}

/// Capture controller for one input device.
pub struct AudioCapture {
    config: AudioCaptureConfig,
    stream_config: ResolvedStreamConfig,
    state: CaptureState,
    buffer: Vec<i16>,
    stream_live: bool,
}

impl View for AudioCapture {
    type V = CaptureModel;

    closed spec fn view(&self) -> CaptureModel {
        CaptureModel {
            config: self.config,
            stream_config: self.stream_config,
            state: self.state,
            samples: self.buffer@,
            stream_live: self.stream_live,
        }
    }
}

/// A construction outcome with the controller replaced by its negotiated
/// stream configuration.
pub open spec fn resolved_part(r: Result<AudioCapture, AudioError>) -> Result<
    ResolvedStreamConfig,
    AudioError,
> {
    match r {
        Ok(c) => Ok(c@.stream_config),
        Err(e) => Err(e),
    }
}

impl AudioCapture {
    /// A controller with the default configuration (16 kHz, mono) for a
    /// device with the given supported configurations, `None` when the host
    /// has no default input device.
    pub fn new(device: Option<&[SupportedInputConfig]>) -> (r: Result<AudioCapture, AudioError>)
        ensures
            negotiation_ok(device_configs(device), default_config(), resolved_part(r)),
            r is Ok ==> r->Ok_0@ == CaptureModel::fresh(
                default_config(),
                r->Ok_0@.stream_config,
            ),
    {
        AudioCapture::with_config(AudioCaptureConfig::default(), device)
    }

    /// A controller for `config` on a device with the given supported
    /// configurations, `None` when the host has no default input device.
    /// Fails when no configuration serves the request.
    pub fn with_config(config: AudioCaptureConfig, device: Option<&[SupportedInputConfig]>) -> (r:
        Result<AudioCapture, AudioError>)
        ensures
            negotiation_ok(device_configs(device), config, resolved_part(r)),
            r is Ok ==> r->Ok_0@ == CaptureModel::fresh(config, r->Ok_0@.stream_config),
    {
        match resolve(&config, device) {
            Ok(stream_config) => Ok(
                AudioCapture {
                    config,
                    stream_config,
                    state: CaptureState::Idle,
                    buffer: Vec::new(),
                    stream_live: false,
                },
            ),
            Err(e) => Err(e),
        }
    }

    /// Begins a start. While recording this does nothing and asks for
    /// nothing. Otherwise it clears the buffer for a new session and asks for
    /// a stream; the mode changes only once [`Self::finish_start`] is told the
    /// stream runs.
    pub fn start(&mut self) -> (action: StartAction)
        ensures
            final(self)@ == old(self)@.begin_start(),
            action == (if old(self)@.state == CaptureState::Recording {
                StartAction::AlreadyRecording
            } else {
                StartAction::OpenStream
            }),
    {
        if self.state == CaptureState::Recording {
            return StartAction::AlreadyRecording;
        }
        self.buffer.clear();
        StartAction::OpenStream
    }

    /// Completes a start with the outcome of building and starting the
    /// stream. On success the stream is held and recording begins; on failure
    /// nothing changes and the matching error is returned.
    pub fn finish_start(&mut self, outcome: StreamOutcome) -> (r: Result<(), AudioError>)
        ensures
            match outcome {
                StreamOutcome::Started => r is Ok && final(self)@ == old(self)@.stream_opened(),
                StreamOutcome::BuildFailed(m) => r == Err::<(), AudioError>(
                    AudioError::StreamConstructionFailed(m),
                ) && final(self)@ == old(self)@,
                StreamOutcome::PlayFailed(m) => r == Err::<(), AudioError>(
                    AudioError::StreamStartFailed(m),
                ) && final(self)@ == old(self)@,
            },
    {
        match outcome {
            StreamOutcome::Started => {
                self.stream_live = true;
                self.state = CaptureState::Recording;
                Ok(())
            },
            StreamOutcome::BuildFailed(m) => Err(AudioError::StreamConstructionFailed(m)),
            StreamOutcome::PlayFailed(m) => Err(AudioError::StreamStartFailed(m)),
        }
    }

    /// A chunk of samples from the hardware callback: queued while
    /// recording, dropped otherwise.
    pub fn deliver_samples(&mut self, chunk: &[i16])
        ensures
            final(self)@ == old(self)@.delivered(chunk@),
    {
        if self.state != CaptureState::Recording {
            return;
        }
        let ghost before = self.buffer@;
        let mut i: usize = 0;
        while i < chunk.len()
            invariant
                self.state == old(self).state,
                self.config == old(self).config,
                self.stream_config == old(self).stream_config,
                self.stream_live == old(self).stream_live,
                before == old(self).buffer@,
                i <= chunk@.len(),
                self.buffer@ == before + chunk@.subrange(0, i as int),
            decreases chunk@.len() - i,
        {
            self.buffer.push(chunk[i]);
            assert(self.buffer@ =~= before + chunk@.subrange(0, i + 1));
            i = i + 1;
        }
        assert(chunk@.subrange(0, chunk@.len() as int) =~= chunk@);
    }

    /// Sets the mode to paused, whatever it was: a running stream keeps
    /// running and its samples are dropped. Buffer and stream are untouched.
    pub fn pause(&mut self)
        ensures
            final(self)@ == old(self)@.with_state(CaptureState::Paused),
    {
        self.state = CaptureState::Paused;
    }

    /// Sets the mode to recording, whatever it was, so that later callback
    /// chunks are queued; samples dropped while paused stay lost. Buffer and
    /// stream are untouched.
    pub fn resume(&mut self)
        ensures
            final(self)@ == old(self)@.with_state(CaptureState::Recording),
    {
        self.state = CaptureState::Recording;
    }

    /// Current mode.
    pub fn state(&self) -> (r: CaptureState)
        ensures
            r == self@.state,
    {
        self.state
    }

    /// Stops capture: goes idle, releases the stream, and returns the queued
    /// samples as PCM16LE bytes, leaving the buffer empty.
    pub fn stop(&mut self) -> (audio: AudioData)
        ensures
            final(self)@ == old(self)@.halted().drained(),
            audio@ == pcm16le(old(self)@.samples),
            audio@.len() == 2 * old(self)@.samples.len(),
    {
        self.state = CaptureState::Idle;
        self.stream_live = false;
        self.take_buffered_audio()
    }

    /// Stops capture without draining: goes idle and releases the stream; the
    /// queued samples stay for [`Self::take_buffered_audio`].
    pub fn stop_stream(&mut self)
        ensures
            final(self)@ == old(self)@.halted(),
    {
        self.state = CaptureState::Idle;
        self.stream_live = false;
    }

    /// Returns the queued samples as PCM16LE bytes and empties the buffer;
    /// mode and stream are untouched.
    pub fn take_buffered_audio(&mut self) -> (audio: AudioData)
        ensures
            final(self)@ == old(self)@.drained(),
            audio@ == pcm16le(old(self)@.samples),
            audio@.len() == 2 * old(self)@.samples.len(),
    {
        let mut samples: Vec<i16> = Vec::new();
        samples.append(&mut self.buffer);
        samples_to_pcm(samples.as_slice())
    }

    /// Forced teardown, whatever the mode: goes idle and releases the stream.
    pub fn teardown(&mut self)
        ensures
            final(self)@ == old(self)@.halted(),
    {
        self.state = CaptureState::Idle;
        self.stream_live = false;
    }

    /// Milliseconds of audio queued: samples × 1000 / (rate × channels).
    pub fn buffer_duration_ms(&self) -> (ms: u64)
        requires
            self@.has_rate(),
            self@.samples.len() * 1000 <= u64::MAX,
        ensures
            ms == self@.duration_ms(),
    {
        let samples: u64 = self.buffer.len() as u64;
        let rate: u64 = self.config.sample_rate as u64;
        let channels: u64 = self.config.channels as u64;
        assert(0 < rate * channels <= 0xffff_ffff * 0xffff) by (nonlinear_arith)
            requires
                0 < rate <= 0xffff_ffff,
                0 < channels <= 0xffff,
        ;
        (samples * 1000) / (rate * channels)
    }

    /// Number of samples queued.
    pub fn buffered_len(&self) -> (n: usize)
        ensures
            n == self@.samples.len(),
    {
        self.buffer.len()
    }

    /// Whether a stream handle is held.
    pub fn has_stream(&self) -> (r: bool)
        ensures
            r == self@.stream_live,
    {
        self.stream_live
    }

    /// The requested configuration.
    pub fn config(&self) -> (r: AudioCaptureConfig)
        ensures
            r == self@.config,
    {
        self.config
    }

    /// The negotiated stream configuration.
    pub fn stream_config(&self) -> (r: ResolvedStreamConfig)
        ensures
            r == self@.stream_config,
    {
        self.stream_config
    }
}

/// Starting while already recording changes nothing: the session's samples stay.
pub proof fn lemma_start_while_recording_keeps_buffer(m: CaptureModel)
    requires
        m.state == CaptureState::Recording,
    ensures
        m.begin_start() == m,
{
}

/// A start from any mode but recording, in particular after a stop, drained
/// or not, begins a new session with an empty buffer, whether or not the
/// stream then comes up.
pub proof fn lemma_start_after_stop_clears_buffer(m: CaptureModel)
    ensures
        m.state != CaptureState::Recording ==> m.begin_start().samples == Seq::<i16>::empty(),
        m.state != CaptureState::Recording ==> m.begin_start().stream_opened().samples == Seq::<
            i16,
        >::empty(),
        m.halted().begin_start().samples == Seq::<i16>::empty(),
        m.halted().drained().begin_start().samples == Seq::<i16>::empty(),
        m.halted().begin_start().stream_opened().samples == Seq::<i16>::empty(),
{
}

/// Samples delivered while paused are dropped and not recovered by resuming:
/// after pause, a dropped chunk, resume and a later chunk, the buffer holds
/// what it held before the pause followed by the later chunk only.
pub proof fn lemma_paused_samples_discarded(m: CaptureModel, dropped: Seq<i16>, later: Seq<i16>)
    ensures
        m.with_state(CaptureState::Paused).delivered(dropped) == m.with_state(CaptureState::Paused),
        m.with_state(CaptureState::Paused).delivered(dropped).with_state(
            CaptureState::Recording,
        ).delivered(later).samples == m.samples + later,
        m.state == CaptureState::Recording ==> m.with_state(CaptureState::Paused).delivered(
            dropped,
        ).with_state(CaptureState::Recording) == m,
{
}

/// A stream handle is held exactly from a successful start until the next
/// stop, stop of the stream or teardown: a fresh controller holds none, a
/// successful start leaves one held, a stop or teardown leaves none, and no
/// other operation (a start that asks for a stream, pause, resume, a callback
/// chunk, a drain) changes whether one is held.
pub proof fn lemma_stream_held_from_start_until_stop(
    m: CaptureModel,
    config: AudioCaptureConfig,
    stream_config: ResolvedStreamConfig,
    state: CaptureState,
    chunk: Seq<i16>,
)
    ensures
        !CaptureModel::fresh(config, stream_config).stream_live,
        m.stream_opened().stream_live,
        !m.halted().stream_live,
        !m.halted().drained().stream_live,
        m.begin_start().stream_live == m.stream_live,
        m.with_state(state).stream_live == m.stream_live,
        m.delivered(chunk).stream_live == m.stream_live,
        m.drained().stream_live == m.stream_live,
{
}

/// Draining an empty buffer yields zero bytes.
pub proof fn lemma_drain_empty_is_empty(m: CaptureModel)
    requires
        m.samples.len() == 0,
    ensures
        pcm16le(m.samples) == Seq::<u8>::empty(),
{
    crate::pcm::lemma_pcm16le_len(m.samples);
    assert(pcm16le(m.samples) =~= Seq::<u8>::empty());
}

/// The queued duration is zero for a fresh controller and after any drain.
pub proof fn lemma_duration_zero_when_empty(
    m: CaptureModel,
    config: AudioCaptureConfig,
    stream_config: ResolvedStreamConfig,
)
    requires
        m.has_rate(),
        config.sample_rate > 0,
        config.channels > 0,
    ensures
        CaptureModel::fresh(config, stream_config).duration_ms() == 0,
        m.drained().duration_ms() == 0,
        m.halted().drained().duration_ms() == 0,
        m.halted().begin_start().duration_ms() == 0,
{
    let d = m.config.sample_rate as int * m.config.channels as int;
    let e = config.sample_rate as int * config.channels as int;
    assert(d > 0 && e > 0) by (nonlinear_arith)
        requires
            m.config.sample_rate > 0,
            m.config.channels > 0,
            config.sample_rate > 0,
            config.channels > 0,
            d == m.config.sample_rate as int * m.config.channels as int,
            e == config.sample_rate as int * config.channels as int,
    ;
    vstd::arithmetic::div_mod::lemma_div_of0(d);
    vstd::arithmetic::div_mod::lemma_div_of0(e);
}

/// While recording, delivering samples never lowers the queued duration, and
/// the duration stays the queued sample count × 1000 / (rate × channels).
pub proof fn lemma_duration_grows_while_recording(m: CaptureModel, chunk: Seq<i16>)
    requires
        m.has_rate(),
        m.state == CaptureState::Recording,
    ensures
        m.delivered(chunk).duration_ms() >= m.duration_ms(),
        m.delivered(chunk).duration_ms() == ((m.samples.len() + chunk.len()) * 1000) as int / (
        m.config.sample_rate as int * m.config.channels as int),
{
    let d = m.config.sample_rate as int * m.config.channels as int;
    assert(d > 0) by (nonlinear_arith)
        requires
            m.config.sample_rate > 0,
            m.config.channels > 0,
            d == m.config.sample_rate as int * m.config.channels as int,
    ;
    vstd::arithmetic::div_mod::lemma_div_is_ordered(
        (m.samples.len() * 1000) as int,
        ((m.samples.len() + chunk.len()) * 1000) as int,
        d,
    );
}

/// A teardown from any mode leaves no stream held and the controller idle,
/// and later callback chunks are dropped.
pub proof fn lemma_teardown_releases_stream(m: CaptureModel, chunk: Seq<i16>)
    ensures
        !m.halted().stream_live,
        m.halted().state == CaptureState::Idle,
        m.halted().delivered(chunk) == m.halted(),
{
}

} // verus!
