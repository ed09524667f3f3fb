//! The decoding pipeline: runs the decoder and packages the raster with its
//! dimensions, maintaining the invariant that the pixel count is an exact
//! multiple of the row size.

use vstd::prelude::*;

verus! {

use crate::error::VoyagerError;
use crate::sstv::DecoderMode;
use crate::sstv::DecoderParams;
use crate::sstv::SstvDecoder;
use crate::sstv::spec_decode;
use crate::sstv::spec_row_size;
use crate::sstv::spec_line_count;
use crate::sstv::spec_samples_per_line;
use crate::sstv::MAX_LINES;

/// Internal-consistency errors of the pipeline.
#[derive(Debug, Clone, PartialEq, Eq)]
pub enum PipelineError {
    /// The pixel buffer is shorter than the dimensions promise.
    TruncatedPixelData { expected: usize, found: usize },
    /// Decoding yielded no pixels at all.
    EmptyPixelData,
    /// The pixel count is not an exact multiple of the row size.
    RowSizeMismatch { pixel_count: usize, row_size: usize },
}

impl PipelineError {
    /// A short fixed description of the error kind.
    pub fn describe(&self) -> (r: &'static str)
        ensures
            r == self.spec_describe(),
    {
        match self {
            PipelineError::TruncatedPixelData { .. } => "truncated pixel data",
            PipelineError::EmptyPixelData => "decoded pixels empty",
            PipelineError::RowSizeMismatch { .. } => "pixel count not divisible by row size",
        }
    }

    /// The description that `describe` returns for each variant.
    pub open spec fn spec_describe(&self) -> &'static str {
        match self {
            PipelineError::TruncatedPixelData { .. } => "truncated pixel data",
            PipelineError::EmptyPixelData => "decoded pixels empty",
            PipelineError::RowSizeMismatch { .. } => "pixel count not divisible by row size",
        }
    }
}

/// A decoded raster with its dimensions.
#[derive(Debug, Clone, PartialEq, Eq)]
pub struct PipelineResult {
    /// Row-major pixel bytes: one byte per pixel in grayscale, three in
    /// pseudocolor.
    pub pixels: Vec<u8>,
    /// Raster width in pixels, always 512.
    pub width: u32,
    /// Raster height in lines, `pixels.len()` divided by the row size.
    pub height: u32,
    /// The mode the raster was decoded in.
    pub mode: DecoderMode,
}

impl PipelineResult {
    /// The pixel count that the dimensions promise.
    pub open spec fn spec_expected_len(&self) -> int {
        match self.mode {
            DecoderMode::BinaryGrayscale => self.width * self.height,
            DecoderMode::PseudoColor => self.width * self.height * 3,
        }
    }

    /// A result is well-formed when it is 512 wide and its buffer holds
    /// exactly `height` full rows.
    pub open spec fn wf(&self) -> bool {
        &&& self.width == 512
        &&& self.pixels@.len() == self.height * spec_row_size(self.mode)
    }

    /// Checks that the pixel buffer holds at least as many bytes as the
    /// dimensions promise; the error carries both counts.
    pub fn check_pixel_buffer(&self) -> (r: Result<(), PipelineError>)
        requires
            self.width == 512,
            self.height <= 16384,
        ensures
            r matches Ok(()) <==> self.pixels@.len() >= self.spec_expected_len(),
            r matches Err(e) ==> e == (PipelineError::TruncatedPixelData {
                expected: self.spec_expected_len() as usize,
                found: self.pixels@.len() as usize,
            }),
    {
        proof {
            vstd::arithmetic::mul::lemma_mul_upper_bound(
                self.width as int,
                512,
                self.height as int,
                16384,
            );
        }
        let expected: usize = match self.mode {
            DecoderMode::BinaryGrayscale => (self.width as usize) * (self.height as usize),
            DecoderMode::PseudoColor => (self.width as usize) * (self.height as usize) * 3,
        };
        if self.pixels.len() < expected {
            Err(PipelineError::TruncatedPixelData { expected, found: self.pixels.len() })
        } else {
            Ok(())
        }
    }
}

/// Wraps the decoder behind the dimension bookkeeping.
#[derive(Default)]
pub struct DecodingPipeline {
    decoder: SstvDecoder,
}

impl DecodingPipeline {
    pub fn new() -> Self {
        DecodingPipeline { decoder: SstvDecoder::new() }
    }

    /// Decodes a window of samples into a dimensioned raster.
    ///
    /// `Ok` exactly when decoding succeeds with a non-empty raster; the
    /// result is then well-formed, its bytes are those of `spec_decode`, and
    /// its height is the byte count divided by the row size. A decode that
    /// yields no pixels (a pseudocolor decode of fewer than three lines)
    /// reports `EmptyPixelData`; a decoder failure passes its typed error
    /// through.
    pub fn process(&self, samples: &[i32], params: &DecoderParams, sample_rate: u32) -> (r: Result<
        PipelineResult,
        VoyagerError,
    >)
        ensures
            match r {
                Ok(res) => {
                    &&& spec_decode(samples@, *params, sample_rate) matches Ok(s)
                    &&& s.len() > 0
                    &&& res.pixels@ == s
                    &&& res.wf()
                    &&& res.mode == params.mode
                    &&& res.height == s.len() as int / spec_row_size(params.mode)
                },
                Err(VoyagerError::Pipeline(PipelineError::EmptyPixelData)) => spec_decode(
                    samples@,
                    *params,
                    sample_rate,
                ) matches Ok(s) && s.len() == 0,
                Err(VoyagerError::Decoder(d)) => spec_decode(samples@, *params, sample_rate)
                    matches Err(d2) && d == d2,
                Err(_) => false,
            },
    {
        let pixels = match self.decoder.decode(samples, params, sample_rate) {
            Ok(pixels) => pixels,
            Err(e) => {
                return Err(e);
            },
        };
        if pixels.is_empty() {
            return Err(VoyagerError::Pipeline(PipelineError::EmptyPixelData));
        }
        let row_size: usize = match params.mode {
            DecoderMode::BinaryGrayscale => 512,
            DecoderMode::PseudoColor => 512 * 3,
        };
        proof {
            lemma_raster_len_bound(samples@, *params, sample_rate);
        }
        if pixels.len() % row_size != 0 {
            return Err(
                VoyagerError::Pipeline(
                    PipelineError::RowSizeMismatch { pixel_count: pixels.len(), row_size },
                ),
            );
        }
        let height: u32 = (pixels.len() / row_size) as u32;
        Ok(PipelineResult { pixels, width: 512, height, mode: params.mode })
    }
}

/// A decoded raster never exceeds `MAX_LINES` rows of bytes, so its height
/// fits comfortably in 32 bits.
proof fn lemma_raster_len_bound(samples: Seq<i32>, params: DecoderParams, sample_rate: u32)
    requires
        spec_decode(samples, params, sample_rate) is Ok,
    ensures
        spec_decode(samples, params, sample_rate) matches Ok(s) ==> s.len() <= MAX_LINES * 1536,
        spec_decode(samples, params, sample_rate) matches Ok(s) ==> s.len() as int % spec_row_size(
            params.mode,
        ) == 0,
{
    let spl = spec_samples_per_line(params.line_duration_us, sample_rate);
    let len = samples.len() as int;
    let lc = spec_line_count(len, spl);
    vstd::arithmetic::div_mod::lemma_div_pos_is_pos(len, spl);
    assert(0 <= lc <= MAX_LINES);
    vstd::arithmetic::mul::lemma_mul_inequality(lc, MAX_LINES as int, 512);
    vstd::arithmetic::div_mod::lemma_mod_multiples_basic(lc, 512);
    match params.mode {
        DecoderMode::BinaryGrayscale => {
        },
        DecoderMode::PseudoColor => {
            let gray_len = lc * 512;
            vstd::arithmetic::div_mod::lemma_div_multiples_vanish(lc, 512);
            let cc = gray_len / 512 / 3;
            vstd::arithmetic::div_mod::lemma_fundamental_div_mod(lc, 3);
            vstd::arithmetic::div_mod::lemma_remainder_lower(lc, 3);
            vstd::arithmetic::div_mod::lemma_div_pos_is_pos(lc, 3);
            vstd::arithmetic::div_mod::lemma_div_is_ordered(lc, MAX_LINES as int, 3);
            vstd::arithmetic::mul::lemma_mul_inequality(cc, MAX_LINES as int / 3, 1536);
            vstd::arithmetic::div_mod::lemma_mod_multiples_basic(cc, 1536);
        },
    }
}

} // verus!
