use flowwhispr_core::{
    resolve, samples_to_pcm, AudioCapture, AudioCaptureConfig, AudioError, CaptureState,
    SampleFormat, StartAction, StreamOutcome, SupportedInputConfig,
};

fn quantize(sample: f32) -> i16 {
    let clamped = sample.clamp(-1.0, 1.0);
    (clamped * 32767.0) as i16
}

fn encode(samples: &[f32]) -> Vec<u8> {
    let quantized: Vec<i16> = samples.iter().map(|&s| quantize(s)).collect();
    samples_to_pcm(&quantized)
}

fn mono_f32(min: u32, max: u32) -> SupportedInputConfig {
    SupportedInputConfig {
        channels: 1,
        sample_format: SampleFormat::F32,
        min_sample_rate: min,
        max_sample_rate: max,
    }
}

fn recording_capture(config: AudioCaptureConfig) -> AudioCapture {
    let device = [mono_f32(8000, 48000)];
    let mut capture = AudioCapture::with_config(config, Some(&device)).unwrap();
    assert_eq!(capture.start(), StartAction::OpenStream);
    capture.finish_start(StreamOutcome::Started).unwrap();
    capture
}

#[test]
fn test_default_config() {
    let config = AudioCaptureConfig::default();
    assert_eq!(config.sample_rate, 16000);
    assert_eq!(config.channels, 1);
}

#[test]
fn test_samples_to_pcm() {
    let samples = [0.0f32, 0.5, -0.5, 1.0, -1.0];
    let quantized: Vec<i16> = samples
        .iter()
        .map(|&sample| {
            let clamped = sample.clamp(-1.0, 1.0);
            (clamped * 32767.0) as i16
        })
        .collect();
    let pcm = samples_to_pcm(&quantized);

    assert_eq!(pcm.len(), 10);
    assert_eq!(i16::from_le_bytes([pcm[0], pcm[1]]), 0);
    let half_pos = i16::from_le_bytes([pcm[2], pcm[3]]);
    assert!((half_pos - 16383).abs() < 2);
    let half_neg = i16::from_le_bytes([pcm[4], pcm[5]]);
    assert!((half_neg + 16383).abs() < 2);
}

#[test]
fn encoding_has_two_bytes_per_sample() {
    assert_eq!(samples_to_pcm(&[]).len(), 0);
    assert_eq!(samples_to_pcm(&[1, -2, 3, i16::MIN, i16::MAX, 0, 7]).len(), 14);
}

#[test]
fn encoding_of_silence_is_zero_bytes() {
    assert_eq!(encode(&[0.0]), vec![0x00, 0x00]);
}

#[test]
fn encoding_of_full_scale_positive() {
    assert_eq!(encode(&[1.0]), 32767i16.to_le_bytes().to_vec());
    assert_eq!(samples_to_pcm(&[32767]), vec![0xFF, 0x7F]);
}

#[test]
fn encoding_of_full_scale_negative() {
    assert_eq!(encode(&[-1.0]), (-32767i16).to_le_bytes().to_vec());
    assert_eq!(samples_to_pcm(&[-32767]), vec![0x01, 0x80]);
}

#[test]
fn encoding_is_little_endian_per_sample() {
    assert_eq!(samples_to_pcm(&[0x1234, -1, i16::MIN]), vec![0x34, 0x12, 0xFF, 0xFF, 0x00, 0x80]);
}

#[test]
fn negotiation_without_device_fails() {
    let config = AudioCaptureConfig::default();
    assert_eq!(resolve(&config, None), Err(AudioError::NoInputDevice));
    assert!(matches!(AudioCapture::new(None), Err(AudioError::NoInputDevice)));
}

#[test]
fn negotiation_without_matching_config_fails() {
    let config = AudioCaptureConfig::default();
    let device = [
        SupportedInputConfig { channels: 2, ..mono_f32(8000, 48000) },
        SupportedInputConfig { sample_format: SampleFormat::Other, ..mono_f32(8000, 48000) },
        mono_f32(22050, 48000),
        mono_f32(8000, 11025),
    ];
    assert_eq!(
        resolve(&config, Some(&device)),
        Err(AudioError::NoSupportedConfig { sample_rate: 16000, channels: 1 })
    );
    assert!(matches!(
        AudioCapture::with_config(config, Some(&device)),
        Err(AudioError::NoSupportedConfig { .. })
    ));
    assert!(matches!(AudioCapture::new(Some(&[])), Err(AudioError::NoSupportedConfig { .. })));
}

#[test]
fn negotiation_picks_first_serving_config() {
    let config = AudioCaptureConfig { sample_rate: 44100, channels: 1, buffer_size: 1024 };
    let device = [
        mono_f32(8000, 16000),
        SupportedInputConfig { sample_format: SampleFormat::Other, ..mono_f32(8000, 96000) },
        mono_f32(44100, 44100),
        mono_f32(8000, 96000),
    ];
    let resolved = resolve(&config, Some(&device)).unwrap();
    assert_eq!(resolved.config_index, 2);
    assert_eq!(resolved.sample_rate, 44100);
    assert_eq!(resolved.channels, 1);
    let capture = AudioCapture::with_config(config, Some(&device)).unwrap();
    assert_eq!(capture.stream_config(), resolved);
    assert_eq!(capture.config(), config);
    assert_eq!(capture.state(), CaptureState::Idle);
    assert!(!capture.has_stream());
}

#[test]
fn failed_stream_build_leaves_state_unchanged() {
    let device = [mono_f32(8000, 48000)];
    let mut capture = AudioCapture::new(Some(&device)).unwrap();
    assert_eq!(capture.start(), StartAction::OpenStream);
    let err = capture.finish_start(StreamOutcome::BuildFailed("rejected".to_string()));
    assert_eq!(err, Err(AudioError::StreamConstructionFailed("rejected".to_string())));
    assert_eq!(capture.state(), CaptureState::Idle);
    assert!(!capture.has_stream());
}

#[test]
fn failed_stream_play_leaves_state_unchanged() {
    let mut capture = recording_capture(AudioCaptureConfig::default());
    capture.pause();
    assert_eq!(capture.start(), StartAction::OpenStream);
    let err = capture.finish_start(StreamOutcome::PlayFailed("denied".to_string()));
    assert_eq!(err, Err(AudioError::StreamStartFailed("denied".to_string())));
    assert_eq!(capture.state(), CaptureState::Paused);
    assert!(capture.has_stream());
}

#[test]
fn start_while_recording_keeps_buffer() {
    let mut capture = recording_capture(AudioCaptureConfig::default());
    capture.deliver_samples(&[1, 2, 3]);
    assert_eq!(capture.start(), StartAction::AlreadyRecording);
    assert_eq!(capture.buffered_len(), 3);
    assert_eq!(capture.state(), CaptureState::Recording);
}

#[test]
fn start_after_stop_clears_previous_session() {
    let mut capture = recording_capture(AudioCaptureConfig::default());
    capture.deliver_samples(&[1, 2, 3]);
    capture.stop_stream();
    assert_eq!(capture.buffered_len(), 3);
    assert_eq!(capture.start(), StartAction::OpenStream);
    assert_eq!(capture.buffered_len(), 0);
    capture.finish_start(StreamOutcome::Started).unwrap();
    capture.deliver_samples(&[4]);
    assert_eq!(capture.stop(), samples_to_pcm(&[4]));
}

#[test]
fn paused_samples_are_discarded() {
    let mut capture = recording_capture(AudioCaptureConfig::default());
    capture.deliver_samples(&[10, 20]);
    capture.pause();
    assert_eq!(capture.state(), CaptureState::Paused);
    capture.deliver_samples(&[30, 40, 50]);
    assert_eq!(capture.buffered_len(), 2);
    capture.resume();
    assert_eq!(capture.state(), CaptureState::Recording);
    assert_eq!(capture.buffered_len(), 2);
    capture.deliver_samples(&[60]);
    assert_eq!(capture.take_buffered_audio(), samples_to_pcm(&[10, 20, 60]));
}

#[test]
fn stop_on_empty_buffer_returns_no_bytes() {
    let mut capture = recording_capture(AudioCaptureConfig::default());
    assert!(capture.stop().is_empty());
    assert_eq!(capture.state(), CaptureState::Idle);
    assert!(!capture.has_stream());
}

#[test]
fn buffer_duration_tracks_queued_samples() {
    let config = AudioCaptureConfig { sample_rate: 16000, channels: 1, buffer_size: 4096 };
    let mut capture = AudioCapture::with_config(config, Some(&[mono_f32(8000, 48000)])).unwrap();
    assert_eq!(capture.buffer_duration_ms(), 0);
    capture.start();
    capture.finish_start(StreamOutcome::Started).unwrap();
    capture.deliver_samples(&vec![0i16; 8000]);
    assert_eq!(capture.buffer_duration_ms(), 500);
    capture.deliver_samples(&vec![0i16; 8]);
    assert_eq!(capture.buffer_duration_ms(), 500);
    capture.deliver_samples(&vec![0i16; 8]);
    assert_eq!(capture.buffer_duration_ms(), 501);
    capture.take_buffered_audio();
    assert_eq!(capture.buffer_duration_ms(), 0);
}

#[test]
fn buffer_duration_counts_all_channels() {
    let config = AudioCaptureConfig { sample_rate: 48000, channels: 2, buffer_size: 4096 };
    let device = [SupportedInputConfig { channels: 2, ..mono_f32(44100, 48000) }];
    let mut capture = AudioCapture::with_config(config, Some(&device)).unwrap();
    capture.start();
    capture.finish_start(StreamOutcome::Started).unwrap();
    capture.deliver_samples(&vec![0i16; 9600]);
    assert_eq!(capture.buffer_duration_ms(), 100);
}

#[test]
fn teardown_releases_stream_while_recording() {
    let mut capture = recording_capture(AudioCaptureConfig::default());
    assert!(capture.has_stream());
    capture.teardown();
    assert!(!capture.has_stream());
    assert_eq!(capture.state(), CaptureState::Idle);
    capture.deliver_samples(&[1, 2]);
    assert_eq!(capture.buffered_len(), 0);
}

#[test]
fn one_second_of_silence_gives_zero_bytes() {
    let config = AudioCaptureConfig { sample_rate: 16000, channels: 1, buffer_size: 4096 };
    let mut capture = recording_capture(config);
    let silence: Vec<i16> = vec![0.0f32; 16000].into_iter().map(quantize).collect();
    capture.deliver_samples(&silence);
    let audio = capture.stop();
    assert_eq!(audio.len(), 32000);
    assert!(audio.iter().all(|&b| b == 0));
}

#[test]
fn pause_resume_scenario_drops_paused_chunk() {
    let mut capture = recording_capture(AudioCaptureConfig::default());
    capture.deliver_samples(&[quantize(0.5), quantize(-0.5)]);
    capture.pause();
    capture.deliver_samples(&[quantize(0.9)]);
    capture.resume();
    capture.deliver_samples(&[quantize(-0.9)]);
    let audio = capture.stop();
    assert_eq!(audio, encode(&[0.5, -0.5, -0.9]));
    assert_eq!(audio.len(), 6);
}

#[test]
fn pause_and_resume_set_the_mode_from_any_state() {
    let device = [mono_f32(8000, 48000)];
    let mut capture = AudioCapture::new(Some(&device)).unwrap();
    capture.pause();
    assert_eq!(capture.state(), CaptureState::Paused);
    assert!(!capture.has_stream());
    capture.resume();
    assert_eq!(capture.state(), CaptureState::Recording);
    assert!(!capture.has_stream());
    capture.deliver_samples(&[7, 8]);
    assert_eq!(capture.buffered_len(), 2);
    capture.stop_stream();
    assert_eq!(capture.state(), CaptureState::Idle);
    capture.pause();
    assert_eq!(capture.state(), CaptureState::Paused);
    assert_eq!(capture.buffered_len(), 2);
    assert_eq!(capture.start(), StartAction::OpenStream);
    capture.finish_start(StreamOutcome::Started).unwrap();
    assert!(capture.has_stream());
    assert_eq!(capture.buffered_len(), 0);
}
