//! Pipeline and rendering tests: dimension bookkeeping, the pixel-count
//! invariant, and the RGBA rendering of decoded rasters.

use voyager_explorer::error::VoyagerError;
use voyager_explorer::image_output::image_from_pixels;
use voyager_explorer::pipeline::{DecodingPipeline, PipelineError, PipelineResult};
use voyager_explorer::sstv::{DecoderMode, DecoderParams};

#[test]
fn test_process_dimensions() {
    let pipeline = DecodingPipeline::new();
    let params = DecoderParams {
        line_duration_us: 10_000,
        threshold: 300_000,
        decode_window_ms: 2000,
        mode: DecoderMode::BinaryGrayscale,
    };
    let samples: Vec<i32> = vec![500_000; 441 * 5];
    let result = pipeline
        .process(&samples, &params, 44100)
        .expect("process should succeed");
    assert_eq!(result.width, 512);
    assert_eq!(result.height, 5);
    assert_eq!(result.mode, DecoderMode::BinaryGrayscale);
    assert_eq!(result.pixels.len(), 5 * 512);
    assert_eq!(result.pixels.len() % 512, 0);
}

#[test]
fn test_process_pseudocolor_dimensions() {
    let pipeline = DecodingPipeline::new();
    let params = DecoderParams {
        line_duration_us: 10_000,
        threshold: 300_000,
        decode_window_ms: 2000,
        mode: DecoderMode::PseudoColor,
    };
    // Seven grayscale lines pack into two RGB lines; the trailing line is
    // dropped.
    let samples: Vec<i32> = vec![500_000; 441 * 7];
    let result = pipeline
        .process(&samples, &params, 44100)
        .expect("process should succeed");
    assert_eq!(result.width, 512);
    assert_eq!(result.height, 2);
    assert_eq!(result.pixels.len(), 2 * 512 * 3);
}

#[test]
fn test_process_empty_pseudocolor_raster() {
    // Two grayscale lines make no complete RGB group: the pipeline reports
    // empty pixel data rather than a zero-height raster.
    let pipeline = DecodingPipeline::new();
    let params = DecoderParams {
        line_duration_us: 10_000,
        threshold: 300_000,
        decode_window_ms: 2000,
        mode: DecoderMode::PseudoColor,
    };
    let samples: Vec<i32> = vec![500_000; 441 * 2];
    let result = pipeline.process(&samples, &params, 44100);
    assert!(matches!(
        result.unwrap_err(),
        VoyagerError::Pipeline(PipelineError::EmptyPixelData)
    ));
}

#[test]
fn test_process_passes_decoder_errors_through() {
    let pipeline = DecodingPipeline::new();
    let params = DecoderParams {
        line_duration_us: 50, // out of range
        threshold: 300_000,
        decode_window_ms: 2000,
        mode: DecoderMode::BinaryGrayscale,
    };
    let samples: Vec<i32> = vec![0; 1000];
    let result = pipeline.process(&samples, &params, 44100);
    assert!(matches!(result.unwrap_err(), VoyagerError::Decoder(_)));
}

#[test]
fn test_check_pixel_buffer() {
    let ok = PipelineResult {
        pixels: vec![0; 512 * 2],
        width: 512,
        height: 2,
        mode: DecoderMode::BinaryGrayscale,
    };
    assert!(ok.check_pixel_buffer().is_ok());

    let truncated = PipelineResult {
        pixels: vec![0; 100],
        width: 512,
        height: 2,
        mode: DecoderMode::BinaryGrayscale,
    };
    assert!(matches!(
        truncated.check_pixel_buffer().unwrap_err(),
        PipelineError::TruncatedPixelData {
            expected: 1024,
            found: 100
        }
    ));
}

#[test]
fn test_image_from_empty_pixels() {
    let empty_pixels: Vec<u8> = Vec::new();
    let img = image_from_pixels(&empty_pixels, DecoderMode::BinaryGrayscale);

    assert_eq!([img.width, img.height], [512, 1]);
    assert_eq!(img.rgba.len(), 512 * 4);

    for pixel in img.rgba.chunks_exact(4) {
        assert_eq!(pixel, [0, 0, 0, 255]);
    }
}

#[test]
fn test_image_from_single_line() {
    let mut pixels = Vec::new();
    for i in 0..512 {
        pixels.push((i % 256) as u8);
    }

    let img = image_from_pixels(&pixels, DecoderMode::BinaryGrayscale);

    assert_eq!([img.width, img.height], [512, 1]);

    for (i, pixel) in img.rgba.chunks_exact(4).enumerate() {
        let expected_gray = (i % 256) as u8;
        assert_eq!(pixel, [expected_gray, expected_gray, expected_gray, 255]);
    }
}

#[test]
fn test_image_from_multiple_lines() {
    let mut pixels = Vec::new();
    for line in 0..2 {
        for _col in 0..512 {
            let value = if line == 0 { 100 } else { 200 };
            pixels.push(value);
        }
    }

    let img = image_from_pixels(&pixels, DecoderMode::BinaryGrayscale);

    assert_eq!([img.width, img.height], [512, 2]);
    assert_eq!(img.rgba.len(), 1024 * 4);

    for i in 0..512 {
        assert_eq!(img.rgba[4 * i], 100);
    }
    for i in 512..1024 {
        assert_eq!(img.rgba[4 * i], 200);
    }
}

#[test]
fn test_image_from_partial_line() {
    let pixels: Vec<u8> = (0..100).collect();

    let img = image_from_pixels(&pixels, DecoderMode::BinaryGrayscale);

    assert_eq!([img.width, img.height], [512, 1]);

    for (i, pixel) in img.rgba.chunks_exact(4).enumerate().take(100) {
        assert_eq!(pixel, [i as u8, i as u8, i as u8, 255]);
    }
    for pixel in img.rgba.chunks_exact(4).skip(100) {
        assert_eq!(pixel, [0, 0, 0, 255]);
    }
}

#[test]
fn test_image_grayscale_boundaries() {
    let pixels = vec![0u8, 127, 128, 255];
    let img = image_from_pixels(&pixels, DecoderMode::BinaryGrayscale);

    assert_eq!(&img.rgba[0..4], [0, 0, 0, 255]);
    assert_eq!(&img.rgba[4..8], [127, 127, 127, 255]);
    assert_eq!(&img.rgba[8..12], [128, 128, 128, 255]);
    assert_eq!(&img.rgba[12..16], [255, 255, 255, 255]);
}

#[test]
fn test_image_from_pseudocolor_pixels() {
    // One RGB line: every pixel (10, 20, 30).
    let mut pixels = Vec::new();
    for _ in 0..512 {
        pixels.extend_from_slice(&[10u8, 20, 30]);
    }
    let img = image_from_pixels(&pixels, DecoderMode::PseudoColor);
    assert_eq!([img.width, img.height], [512, 1]);
    for pixel in img.rgba.chunks_exact(4) {
        assert_eq!(pixel, [10, 20, 30, 255]);
    }
}
