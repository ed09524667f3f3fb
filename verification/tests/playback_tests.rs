//! Playback-path tests against synthetic fixtures: loading, sync scanning,
//! decoding consistency — all without audio hardware.

use std::collections::hash_map::DefaultHasher;
use std::hash::{Hash, Hasher};
use voyager_explorer::audio::WavReader;
use voyager_explorer::sstv::{DecoderMode, DecoderParams, SstvDecoder};
use voyager_explorer::sync::{sync_tone_present, target_bin, SyncScan, CHUNK_SIZE};

fn generate_sine_wave(
    frequency: f32,
    duration_secs: f32,
    sample_rate: u32,
    amplitude: f32,
) -> Vec<f32> {
    let num_samples = (duration_secs * sample_rate as f32) as usize;
    (0..num_samples)
        .map(|i| {
            let t = i as f32 / sample_rate as f32;
            amplitude * (2.0 * std::f32::consts::PI * frequency * t).sin()
        })
        .collect()
}

fn generate_white_noise(duration_secs: f32, sample_rate: u32, amplitude: f32) -> Vec<f32> {
    let num_samples = (duration_secs * sample_rate as f32) as usize;
    (0..num_samples)
        .map(|i| {
            let mut hasher = DefaultHasher::new();
            i.hash(&mut hasher);
            let hash = hasher.finish();
            let normalized = ((hash % 2000) as f32 / 1000.0) - 1.0;
            amplitude * normalized
        })
        .collect()
}

fn generate_square_wave(
    frequency: f32,
    duration_secs: f32,
    sample_rate: u32,
    amplitude: f32,
) -> Vec<f32> {
    let num_samples = (duration_secs * sample_rate as f32) as usize;
    (0..num_samples)
        .map(|i| {
            let t = i as f32 / sample_rate as f32;
            let phase = (2.0 * std::f32::consts::PI * frequency * t)
                % (2.0 * std::f32::consts::PI);
            if phase < std::f32::consts::PI {
                amplitude
            } else {
                -amplitude
            }
        })
        .collect()
}

fn generate_chirp(
    start_freq: f32,
    end_freq: f32,
    duration_secs: f32,
    sample_rate: u32,
    amplitude: f32,
) -> Vec<f32> {
    let num_samples = (duration_secs * sample_rate as f32) as usize;
    let freq_range = end_freq - start_freq;

    (0..num_samples)
        .map(|i| {
            let t = i as f32 / sample_rate as f32;
            let t_norm = t / duration_secs;
            let freq = start_freq + freq_range * t_norm;
            let phase = 2.0 * std::f32::consts::PI * freq * t;
            amplitude * phase.sin()
        })
        .collect()
}

fn generate_sync_pattern(sample_rate: u32) -> Vec<f32> {
    let sync_freq = 1200.0;
    let sync_duration = 0.1;
    let silence_duration = 0.5;

    let mut signal = Vec::new();
    signal.extend(generate_sine_wave(sync_freq, sync_duration, sample_rate, 0.8));
    signal.extend(vec![0.0; (silence_duration * sample_rate as f32) as usize]);
    signal.extend(generate_sine_wave(sync_freq, sync_duration, sample_rate, 0.8));
    signal.extend(vec![0.0; (silence_duration * sample_rate as f32) as usize]);
    signal
}

fn generate_composite_signal(sample_rate: u32) -> Vec<f32> {
    let mut signal = Vec::new();
    signal.extend(generate_sine_wave(440.0, 0.5, sample_rate, 0.6));
    signal.extend(vec![0.0; (0.2 * sample_rate as f32) as usize]);
    signal.extend(generate_white_noise(0.5, sample_rate, 0.1));
    signal.extend(vec![0.0; (0.2 * sample_rate as f32) as usize]);
    signal.extend(generate_chirp(200.0, 2000.0, 1.0, sample_rate, 0.5));
    signal
}

fn to_fixed(samples: &[f32]) -> Vec<i32> {
    samples.iter().map(|&s| (s * 1_000_000.0) as i32).collect()
}

/// Mirrors the boundary conversion of a 16-bit PCM file: clamp, quantize to
/// i16, then normalize into the library's fixed-point unit.
fn through_i16(samples: &[f32]) -> Vec<i32> {
    samples
        .iter()
        .map(|&s| {
            let q = (s.clamp(-1.0, 1.0) * i16::MAX as f32) as i16;
            ((q as f32 / i16::MAX as f32) * 1_000_000.0) as i32
        })
        .collect()
}

fn hann_window(size: usize) -> Vec<f32> {
    (0..size)
        .map(|i| {
            0.5 * (1.0 - (2.0 * std::f32::consts::PI * i as f32 / (size as f32 - 1.0)).cos())
        })
        .collect()
}

fn detect_chunk(chunk: &[f32], sample_rate: u32) -> bool {
    let mut planner = realfft::RealFftPlanner::<f32>::new();
    let fft = planner.plan_fft_forward(CHUNK_SIZE);
    let window = hann_window(CHUNK_SIZE);
    let mut input: Vec<f32> = chunk
        .iter()
        .zip(window.iter())
        .map(|(s, w)| s * w)
        .collect();
    input.resize(CHUNK_SIZE, 0.0);
    let mut spectrum = fft.make_output_vec();
    fft.process(&mut input, &mut spectrum).expect("fft");
    let mags: Vec<u64> = spectrum
        .iter()
        .map(|c| (c.norm() as f64 * 1000.0) as u64)
        .collect();
    sync_tone_present(&mags, target_bin(sample_rate), 10)
}

fn find_sync_positions(samples: &[f32], sample_rate: u32) -> Vec<usize> {
    let mut scan = SyncScan::new(samples.len());
    while let Some(start) = scan.current() {
        let detected = detect_chunk(&samples[start..start + CHUNK_SIZE], sample_rate);
        scan.step(detected);
    }
    scan.into_positions()
}

fn find_next_sync(samples: &[f32], start_position: usize, sample_rate: u32) -> Option<usize> {
    if start_position >= samples.len() {
        return None;
    }
    let positions = find_sync_positions(&samples[start_position..], sample_rate);
    positions.first().map(|&pos| start_position + pos)
}

#[test]
fn test_wav_loading_with_synthetic_tone() {
    let signal = generate_sine_wave(440.0, 0.5, 44100, 0.6);
    let fixed = through_i16(&signal);

    let reader = WavReader::from_interleaved(fixed, 44100, 1, "tone.wav".to_string())
        .expect("load recording");

    assert_eq!(reader.sample_rate, 44100);
    assert_eq!(reader.channels, 1);
    assert_eq!(reader.left_channel.len(), 22050);
    assert_eq!(reader.right_channel.len(), 22050);

    let mut max_amplitude = 0f32;
    for i in 0..reader.left_channel.len() {
        let s = reader.left_channel.get(i) as f32 / 1_000_000.0;
        max_amplitude = max_amplitude.max(s.abs());
    }
    assert!(
        (max_amplitude - 0.6).abs() < 0.05,
        "Amplitude should be ~0.6"
    );
}

#[test]
fn test_sync_detection_with_synthetic_pattern() {
    let sync_signal = generate_sync_pattern(44100);

    let positions = find_sync_positions(&sync_signal, 44100);

    assert!(
        positions.len() >= 2,
        "Should detect multiple sync signals, found {}",
        positions.len()
    );

    if positions.len() >= 2 {
        let separation = positions[1] - positions[0];
        assert!(
            separation > 1000,
            "Syncs should be separated by more than 1000 samples, got {}",
            separation
        );
    }
}

#[test]
fn test_decoding_produces_consistent_output() {
    let decoder = SstvDecoder::new();
    let params = DecoderParams {
        line_duration_us: 10_000,
        threshold: 300_000,
        decode_window_ms: 2000,
        mode: DecoderMode::BinaryGrayscale,
    };

    let signal = to_fixed(&generate_square_wave(50.0, 0.5, 44100, 0.8));

    let pixels1 = decoder
        .decode(&signal, &params, 44100)
        .expect("Decode should succeed");
    let pixels2 = decoder
        .decode(&signal, &params, 44100)
        .expect("Decode should succeed");

    assert_eq!(pixels1.len(), pixels2.len());
    assert_eq!(pixels1, pixels2, "Decoder should be deterministic");

    for &pixel in &pixels1 {
        assert!(pixel == 0 || pixel == 255, "Pixels should be binary");
    }

    let num_lines = pixels1.len() / 512;
    assert!(num_lines > 0, "Should produce at least one line");
}

#[test]
fn test_seek_positions_are_valid() {
    let signal = generate_composite_signal(44100);
    let total_samples = signal.len();

    let positions = find_sync_positions(&signal, 44100);

    for &pos in &positions {
        assert!(
            pos < total_samples,
            "Sync position {} out of bounds (total: {})",
            pos,
            total_samples
        );
    }

    for start_pos in [0, total_samples / 4, total_samples / 2] {
        if let Some(next_pos) = find_next_sync(&signal, start_pos, 44100) {
            assert!(
                next_pos > start_pos,
                "Next sync should be after start position"
            );
            assert!(next_pos < total_samples, "Next sync should be in bounds");
        }
    }
}

#[test]
fn test_chirp_signal_properties() {
    let chirp = generate_chirp(200.0, 2000.0, 1.0, 44100, 0.7);

    assert_eq!(chirp.len(), 44100, "Should be 1 second at 44.1kHz");

    let max_amp = chirp
        .iter()
        .map(|&s| s.abs())
        .fold::<f32, _>(0.0f32, f32::max);
    assert!(
        (max_amp - 0.7).abs() < 0.05,
        "Chirp amplitude should be ~0.7"
    );

    let first_quarter = &chirp[0..11025];
    let last_quarter = &chirp[33075..44100];

    let avg_first: f32 = first_quarter.iter().map(|s| s.abs()).sum::<f32>() / 11025.0;
    let avg_last: f32 = last_quarter.iter().map(|s| s.abs()).sum::<f32>() / 11025.0;

    assert!(avg_first > 0.1, "First quarter should have energy");
    assert!(avg_last > 0.1, "Last quarter should have energy");
}

#[test]
fn test_stereo_wav_generation() {
    let mono_signal = generate_sine_wave(440.0, 0.1, 44100, 0.5);
    let fixed = through_i16(&mono_signal);

    let reader = WavReader::from_interleaved(fixed, 44100, 1, "mono.wav".to_string())
        .expect("load mono recording");
    assert_eq!(reader.channels, 1);
    assert_eq!(reader.left_channel.len(), reader.right_channel.len());
    for i in 0..reader.left_channel.len() {
        assert_eq!(reader.left_channel.get(i), reader.right_channel.get(i));
    }
}

#[test]
fn test_white_noise_is_not_silent() {
    let noise = generate_white_noise(0.5, 44100, 0.3);

    assert_eq!(noise.len(), 22050);

    let rms: f32 = (noise.iter().map(|s| s * s).sum::<f32>() / noise.len() as f32).sqrt();
    assert!(rms > 0.05, "Noise should have energy, RMS: {}", rms);

    let positive_count = noise.iter().filter(|&&s| s > 0.0f32).count();
    let negative_count = noise.iter().filter(|&&s| s < 0.0f32).count();

    assert!(
        positive_count > 1000,
        "Should have many positive samples: {}",
        positive_count
    );
    assert!(
        negative_count > 1000,
        "Should have many negative samples: {}",
        negative_count
    );
}

#[test]
fn audio_playback_tests_test_empty_audio_handling() {
    let decoder = SstvDecoder::new();
    let params = DecoderParams::default();

    let empty: Vec<i32> = vec![];
    let result = decoder.decode(&empty, &params, 44100);
    assert!(result.is_err(), "Empty input should return error");

    let positions = find_sync_positions(&[], 44100);
    assert!(positions.is_empty());
}

#[test]
fn test_very_short_audio() {
    let short_signal: Vec<f32> = (0..100).map(|_| 0.5).collect();

    let positions = find_sync_positions(&short_signal, 44100);
    assert!(positions.len() < 10, "Shouldn't find many syncs in noise");
}

#[test]
fn test_parameter_variation_affects_output() {
    let decoder = SstvDecoder::new();
    let signal = to_fixed(&generate_square_wave(100.0, 0.3, 44100, 0.8));

    let params_short = DecoderParams {
        line_duration_us: 5000,
        threshold: 300_000,
        decode_window_ms: 2000,
        mode: DecoderMode::BinaryGrayscale,
    };
    let params_long = DecoderParams {
        line_duration_us: 15_000,
        threshold: 300_000,
        decode_window_ms: 2000,
        mode: DecoderMode::BinaryGrayscale,
    };

    let pixels_short = decoder
        .decode(&signal, &params_short, 44100)
        .expect("Short duration decode should succeed");
    let pixels_long = decoder
        .decode(&signal, &params_long, 44100)
        .expect("Long duration decode should succeed");

    let lines_short = pixels_short.len() / 512;
    let lines_long = pixels_long.len() / 512;

    assert_ne!(
        lines_short, lines_long,
        "Different line durations should produce different outputs"
    );
    assert!(
        lines_short > lines_long,
        "Shorter line duration should produce more lines"
    );
}

#[test]
fn test_composite_signal_structure() {
    let composite = generate_composite_signal(44100);

    assert!(
        composite.len() > 44100,
        "Composite should be > 1 second: {} samples",
        composite.len()
    );

    let non_zero_count = composite.iter().filter(|&&s| s.abs() > 0.01).count();
    assert!(
        non_zero_count > 10000,
        "Composite should have significant non-zero content"
    );

    let pos_count = composite.iter().filter(|&&s| s > 0.1f32).count();
    let neg_count = composite.iter().filter(|&&s| s < -0.1f32).count();

    assert!(pos_count > 1000, "Should have positive samples");
    assert!(neg_count > 1000, "Should have negative samples");
}
