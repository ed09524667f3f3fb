//! Pseudocolor decoding tests: RGB grouping and the trailing-group rule.

use voyager_explorer::sstv::{samples_per_line, DecoderMode, DecoderParams, SstvDecoder};

#[test]
fn test_pseudocolor_decoding_logic() {
    let decoder = SstvDecoder::new();
    let params = DecoderParams {
        line_duration_us: 10_000,
        threshold: 0,
        decode_window_ms: 1000,
        mode: DecoderMode::PseudoColor,
    };

    let sample_rate = 44100;
    let spl = samples_per_line(params.line_duration_us, sample_rate) as usize;

    // Line 1 (Red): full scale -> 255; lines 2 and 3 (Green, Blue): 0.
    let mut samples: Vec<i32> = Vec::new();
    samples.extend(std::iter::repeat_n(1_000_000, spl));
    samples.extend(std::iter::repeat_n(0, spl));
    samples.extend(std::iter::repeat_n(0, spl));

    let pixels = decoder
        .decode(&samples, &params, sample_rate)
        .expect("Decode failed");

    assert_eq!(
        pixels.len(),
        512 * 3,
        "Should produce exactly one line of RGB pixels"
    );

    for i in 0..512 {
        let r = pixels[i * 3];
        let g = pixels[i * 3 + 1];
        let b = pixels[i * 3 + 2];

        assert_eq!(r, 255, "Red channel should be 255");
        assert_eq!(g, 0, "Green channel should be 0");
        assert_eq!(b, 0, "Blue channel should be 0");
    }
}

#[test]
fn test_pseudocolor_partial_lines() {
    // Four lines of data: one full RGB group plus one leftover line, which
    // is dropped.
    let decoder = SstvDecoder::new();
    let params = DecoderParams {
        line_duration_us: 10_000,
        threshold: 0,
        decode_window_ms: 1000,
        mode: DecoderMode::PseudoColor,
    };

    let sample_rate = 44100;
    let spl = samples_per_line(params.line_duration_us, sample_rate) as usize;

    let mut samples: Vec<i32> = Vec::new();
    samples.extend(std::iter::repeat_n(1_000_000, spl * 4));

    let pixels = decoder
        .decode(&samples, &params, sample_rate)
        .expect("Decode failed");

    assert_eq!(
        pixels.len(),
        512 * 3,
        "Should produce exactly one line of RGB pixels from 4 input lines"
    );
}

#[test]
fn test_pseudocolor_identical_lines_give_gray_triplets() {
    // Three identical lines pack into an RGB line of (L,L,L) per pixel.
    let decoder = SstvDecoder::new();
    let params = DecoderParams {
        line_duration_us: 1000,
        threshold: 100_000,
        decode_window_ms: 1000,
        mode: DecoderMode::PseudoColor,
    };
    let sample_rate = 2000;
    let spl = samples_per_line(params.line_duration_us, sample_rate) as usize;
    assert_eq!(spl, 2);

    // Each line: one high and one low sample, repeated identically.
    let line = [800_000i32, 0i32];
    let mut samples: Vec<i32> = Vec::new();
    for _ in 0..3 {
        samples.extend_from_slice(&line);
    }

    let pixels = decoder
        .decode(&samples, &params, sample_rate)
        .expect("Decode failed");
    assert_eq!(pixels.len(), 512 * 3);
    for triplet in pixels.chunks_exact(3) {
        assert_eq!(triplet[0], triplet[1]);
        assert_eq!(triplet[1], triplet[2]);
        assert!(triplet[0] == 0 || triplet[0] == 255);
    }
}
