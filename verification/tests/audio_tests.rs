//! Shared-buffer tests: channel splitting, validation, and the zero-copy
//! view model.

use voyager_explorer::audio::{BufferView, SampleBuffer, WavReader, WaveformChannel};
use voyager_explorer::error::{AudioError, VoyagerError};

/// Mirrors the boundary conversion: 16-bit PCM to millionths of full scale.
fn i16_to_fixed(samples: &[i16]) -> Vec<i32> {
    samples
        .iter()
        .map(|&s| ((s as f32 / i16::MAX as f32) * 1_000_000.0) as i32)
        .collect()
}

#[test]
fn test_mono_wav_loading() {
    let test_samples: Vec<i16> = vec![1000, 2000, 3000, 4000, 5000];
    let fixed = i16_to_fixed(&test_samples);

    let reader = WavReader::from_interleaved(fixed.clone(), 44100, 1, "test.wav".to_string())
        .expect("mono recording should load");

    assert_eq!(reader.sample_rate, 44100);
    assert_eq!(reader.channels, 1);
    assert_eq!(reader.left_channel.len(), 5);
    assert_eq!(reader.right_channel.len(), 5);

    for (i, &expected) in fixed.iter().enumerate() {
        assert_eq!(reader.left_channel.get(i), expected);
        assert_eq!(reader.right_channel.get(i), expected);
    }
    // Mono channels share one allocation rather than copying.
    assert!(reader.left_channel.shares_storage(&reader.right_channel));
}

#[test]
fn test_stereo_wav_loading() {
    let test_samples: Vec<i16> = vec![1000, 2000, 3000, 4000, 5000, 6000];
    let fixed = i16_to_fixed(&test_samples);

    let reader = WavReader::from_interleaved(fixed.clone(), 48000, 2, "test.wav".to_string())
        .expect("stereo recording should load");

    assert_eq!(reader.sample_rate, 48000);
    assert_eq!(reader.channels, 2);
    assert_eq!(reader.left_channel.len(), 3);
    assert_eq!(reader.right_channel.len(), 3);

    for i in 0..3 {
        assert_eq!(reader.left_channel.get(i), fixed[2 * i]);
        assert_eq!(reader.right_channel.get(i), fixed[2 * i + 1]);
    }
}

#[test]
fn test_get_samples() {
    let test_samples: Vec<i16> = vec![1000, 2000, 3000, 4000, 5000, 6000];
    let fixed = i16_to_fixed(&test_samples);
    let reader = WavReader::from_interleaved(fixed, 44100, 2, "test.wav".to_string())
        .expect("stereo recording should load");

    let left = reader.get_samples(WaveformChannel::Left);
    let right = reader.get_samples(WaveformChannel::Right);

    assert_eq!(left.len(), 3);
    assert_eq!(right.len(), 3);
    assert_ne!(left.as_slice(), right.as_slice());
}

#[test]
fn test_invalid_sample_rate_rejected() {
    for rate in [0u32, 7999, 192_001] {
        let result =
            WavReader::from_interleaved(vec![1, 2, 3], rate, 1, "test.wav".to_string());
        assert!(matches!(
            result.unwrap_err(),
            VoyagerError::Audio(AudioError::InvalidSampleRate { rate: r }) if r == rate
        ));
    }
}

#[test]
fn test_unsupported_channels_rejected() {
    for channels in [0u16, 3, 6] {
        let result =
            WavReader::from_interleaved(vec![1, 2, 3], 44100, channels, "test.wav".to_string());
        assert!(matches!(
            result.unwrap_err(),
            VoyagerError::Audio(AudioError::UnsupportedChannels { channels: c }) if c == channels
        ));
    }
}

#[test]
fn test_empty_recording_rejected() {
    let result = WavReader::from_interleaved(Vec::new(), 44100, 1, "empty.wav".to_string());
    assert!(matches!(
        result.unwrap_err(),
        VoyagerError::Audio(AudioError::EmptyFile { .. })
    ));
}

#[test]
fn test_zero_copy_views_share_storage() {
    // K views of one N-sample buffer: every view reads through the same
    // allocation; none copies the samples.
    let n = 100_000usize;
    let samples: Vec<i32> = (0..n as i32).collect();
    let buffer = SampleBuffer::new(samples, 44100, 1);

    let mut views = Vec::new();
    for k in 0..8usize {
        let offset = k * (n / 8);
        let view = BufferView::new(buffer.share(), offset).expect("view in bounds");
        assert_eq!(view.offset(), offset);
        assert_eq!(view.sample_at(0), Some(offset as i32));
        assert_eq!(view.remaining(), n - offset);
        views.push(view);
    }
    for view in &views {
        assert!(buffer.shares_storage(view.buffer()));
    }

    // Two buffers built separately do not share storage.
    let other = SampleBuffer::new(vec![1, 2, 3], 44100, 1);
    assert!(!buffer.shares_storage(&other));
}

#[test]
fn test_buffer_view_validation() {
    let buffer = SampleBuffer::new(vec![1, 2, 3], 44100, 1);
    let result = BufferView::new(buffer, 3);
    assert!(matches!(
        result.unwrap_err(),
        AudioError::BufferTooShort {
            needed: 4,
            actual: 3
        }
    ));

    let zero_rate = SampleBuffer::new(vec![1, 2, 3], 0, 1);
    assert!(matches!(
        BufferView::new(zero_rate, 0).unwrap_err(),
        AudioError::InvalidSampleRate { rate: 0 }
    ));

    let zero_channels = SampleBuffer::new(vec![1, 2, 3], 44100, 0);
    assert!(matches!(
        BufferView::new(zero_channels, 0).unwrap_err(),
        AudioError::UnsupportedChannels { channels: 0 }
    ));
}

#[test]
fn test_view_reseek_is_zero_copy() {
    let buffer = SampleBuffer::new((0..1000).collect(), 44100, 1);
    let view = BufferView::new(buffer.share(), 10).expect("view");
    let moved = view.reseek(500).expect("reseek in bounds");
    assert_eq!(moved.offset(), 500);
    assert_eq!(moved.sample_at(0), Some(500));
    assert!(buffer.shares_storage(moved.buffer()));
    assert!(view.reseek(1000).is_err());
}

#[test]
fn test_view_iteration_ends_at_buffer_end() {
    let buffer = SampleBuffer::new(vec![10, 20, 30], 44100, 1);
    let view = BufferView::new(buffer, 1).expect("view");
    assert_eq!(view.sample_at(0), Some(20));
    assert_eq!(view.sample_at(1), Some(30));
    assert_eq!(view.sample_at(2), None);
}
