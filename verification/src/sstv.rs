//! Slow-scan image decoding: parameter validation, line timing, and the
//! sample-to-pixel transform.
//!
//! A recording is a sequence of fixed-point amplitudes (`AMPLITUDE_ONE` units
//! per unit of full scale). The decoder cuts the recording into lines of
//! `samples_per_line` samples, resamples each line to a fixed 512-column
//! raster by linear interpolation, and binarizes each column against a
//! threshold. In pseudocolor mode, groups of three consecutive grayscale
//! lines become the red, green and blue planes of one color line.

use vstd::prelude::*;

verus! {

use crate::error::DecoderError;
use crate::error::VoyagerError;

/// One unit of full-scale amplitude, in millionths.
pub const AMPLITUDE_ONE: i32 = 1_000_000;

/// Fixed raster width of every decoded image, in pixels.
pub const IMAGE_WIDTH: usize = 512;

/// Decoded images are capped at this many grayscale lines.
pub const MAX_LINES: usize = 16384;

#[derive(Debug, Clone, Copy, PartialEq, Eq, Structural)]
pub enum DecoderMode {
    BinaryGrayscale,
    PseudoColor,
}

/// Decoder parameters. Durations and thresholds are integers: the line
/// duration is in microseconds, the threshold and decode window follow the
/// fixed-point conventions of the crate.
#[derive(Debug, Clone, Copy, PartialEq, Eq, Structural)]
pub struct DecoderParams {
    /// Duration of one scan line, in microseconds. Valid range: 1000..=100000.
    pub line_duration_us: u32,
    /// Binarization threshold in `AMPLITUDE_ONE` units. Valid range: 0..=1000000.
    pub threshold: u32,
    /// Length of the decode window, in milliseconds.
    pub decode_window_ms: u32,
    /// Grayscale or pseudocolor output.
    pub mode: DecoderMode,
}

impl Default for DecoderParams {
    /// The stock parameters: an 8.3 ms line, a threshold of a fifth of full
    /// scale, a two-second decode window, grayscale output.
    fn default() -> (d: Self)
        ensures
            d.line_duration_us == 8300,
            d.threshold == 200_000,
            d.decode_window_ms == 2000,
            d.mode == DecoderMode::BinaryGrayscale,
    {
        DecoderParams {
            line_duration_us: 8300,
            threshold: 200_000,
            decode_window_ms: 2000,
            mode: DecoderMode::BinaryGrayscale,
        }
    }
}

/// A line duration is accepted when it lies in 1..=100 milliseconds.
pub open spec fn valid_line_duration(line_duration_us: u32) -> bool {
    1000 <= line_duration_us <= 100_000
}

/// A threshold is accepted when it does not exceed full scale.
pub open spec fn valid_threshold(threshold: u32) -> bool {
    threshold <= AMPLITUDE_ONE
}

/// Number of samples in one scan line: the line duration times the sample
/// rate, rounded to the nearest integer.
pub open spec fn spec_samples_per_line(line_duration_us: u32, sample_rate: u32) -> int {
    (line_duration_us * sample_rate + 500_000) / 1_000_000
}

/// Computes the samples-per-line count. Fits in a `u64` for every input.
pub fn samples_per_line(line_duration_us: u32, sample_rate: u32) -> (n: u64)
    ensures
        n == spec_samples_per_line(line_duration_us, sample_rate),
{
    proof {
        vstd::arithmetic::mul::lemma_mul_upper_bound(
            line_duration_us as int,
            u32::MAX as int,
            sample_rate as int,
            u32::MAX as int,
        );
    }
    ((line_duration_us as u64) * (sample_rate as u64) + 500_000) / 1_000_000
}

/// With an accepted line duration, the samples-per-line count stays below
/// `2^29`, so every index computation of the decoder fits in 64 bits.
pub proof fn lemma_samples_per_line_bound(line_duration_us: u32, sample_rate: u32)
    requires
        valid_line_duration(line_duration_us),
    ensures
        spec_samples_per_line(line_duration_us, sample_rate) <= 429_496_730,
{
    vstd::arithmetic::mul::lemma_mul_upper_bound(
        line_duration_us as int,
        100_000,
        sample_rate as int,
        u32::MAX as int,
    );
    vstd::arithmetic::div_mod::lemma_div_is_ordered(
        line_duration_us * sample_rate + 500_000,
        100_000 * (u32::MAX as int) + 500_000,
        1_000_000,
    );
}

/// The interpolated amplitude under output column `x` of the line starting at
/// `start`, scaled by 511 to stay an integer. Column `x` of the 512-column
/// raster sits at source position `x * (spl - 1) / 511`; the value is the
/// linear interpolation between the two nearest samples.
pub open spec fn spec_interp_num(samples: Seq<i32>, start: int, spl: int, x: int) -> int {
    let num = x * (spl - 1);
    let idx = num / 511;
    let rem = num % 511;
    if rem == 0 {
        samples[start + idx] * 511
    } else {
        samples[start + idx] * (511 - rem) + samples[start + idx + 1] * rem
    }
}

/// The binarized pixel for column `x` of the line starting at `start`:
/// 255 when the magnitude of the interpolated amplitude exceeds the
/// threshold, 0 otherwise.
pub open spec fn spec_pixel(samples: Seq<i32>, start: int, spl: int, threshold: u32, x: int) -> u8 {
    if vstd::math::abs(spec_interp_num(samples, start, spl, x)) > threshold * 511 {
        255u8
    } else {
        0u8
    }
}

/// Grayscale pixel at line `l`, column `x` of the decoded raster.
pub open spec fn spec_gray_pixel(
    samples: Seq<i32>,
    spl: int,
    threshold: u32,
    l: int,
    x: int,
) -> u8 {
    spec_pixel(samples, l * spl, spl, threshold, x)
}

/// Number of complete lines decoded from `len` samples: one line per `spl`
/// samples, capped at `MAX_LINES`.
pub open spec fn spec_line_count(len: int, spl: int) -> int {
    vstd::math::min(len / spl, MAX_LINES as int)
}

/// The grayscale raster: `spec_line_count` lines of 512 pixels, row-major.
pub open spec fn spec_gray_image(samples: Seq<i32>, spl: int, threshold: u32) -> Seq<u8> {
    Seq::new(
        (spec_line_count(samples.len() as int, spl) * 512) as nat,
        |k: int| spec_gray_pixel(samples, spl, threshold, k / 512, k % 512),
    )
}

/// The pseudocolor raster built from a grayscale raster: every three
/// consecutive grayscale lines become the red, green and blue planes of one
/// RGB line; a trailing group of fewer than three lines is dropped.
pub open spec fn spec_color_image(gray: Seq<u8>) -> Seq<u8> {
    Seq::new(
        ((gray.len() as int / 512) / 3 * 1536) as nat,
        |k: int| gray[(3 * (k / 1536) + (k % 1536) % 3) * 512 + (k % 1536) / 3],
    )
}

/// The decoded raster for either mode.
pub open spec fn spec_image(samples: Seq<i32>, spl: int, threshold: u32, mode: DecoderMode) -> Seq<
    u8,
> {
    match mode {
        DecoderMode::BinaryGrayscale => spec_gray_image(samples, spl, threshold),
        DecoderMode::PseudoColor => spec_color_image(spec_gray_image(samples, spl, threshold)),
    }
}

/// What `SstvDecoder::decode` returns, as a function of its inputs: either
/// the decoded raster, or the first failing check's error. Parameters are
/// validated before the samples are touched; empty input and input shorter
/// than one line are rejected.
pub open spec fn spec_decode(samples: Seq<i32>, params: DecoderParams, sample_rate: u32) -> Result<
    Seq<u8>,
    DecoderError,
> {
    if !valid_line_duration(params.line_duration_us) {
        Err(DecoderError::InvalidLineDuration { duration_us: params.line_duration_us })
    } else if !valid_threshold(params.threshold) {
        Err(DecoderError::InvalidThreshold { threshold: params.threshold })
    } else if samples.len() == 0 {
        Err(DecoderError::InsufficientSamples { needed: 1, actual: 0 })
    } else {
        let spl = spec_samples_per_line(params.line_duration_us, sample_rate);
        if spl == 0 {
            Err(
                DecoderError::InvalidParams {
                    line_duration_us: params.line_duration_us,
                    sample_rate,
                },
            )
        } else if samples.len() < spl {
            Err(
                DecoderError::InsufficientSamples {
                    needed: spl as usize,
                    actual: samples.len() as usize,
                },
            )
        } else {
            Ok(spec_image(samples, spl, params.threshold, params.mode))
        }
    }
}

/// Computes one binarized pixel: resamples the line starting at `start` to
/// column `x` of the 512-column raster by linear interpolation, and compares
/// the magnitude against the threshold.
fn line_pixel(samples: &[i32], start: usize, spl: usize, threshold: u32, x: usize) -> (p: u8)
    requires
        1 <= spl <= 0x2000_0000,
        start + spl <= samples@.len(),
        x < 512,
        threshold <= 1_000_000,
    ensures
        p == spec_pixel(samples@, start as int, spl as int, threshold, x as int),
{
    let len: usize = samples.len();
    proof {
        vstd::arithmetic::mul::lemma_mul_upper_bound(x as int, 511, spl - 1, 0x2000_0000 - 1);
        vstd::arithmetic::mul::lemma_mul_inequality(x as int, 511, spl - 1);
    }
    let num: u64 = (x as u64) * ((spl - 1) as u64);
    proof {
        lemma_interp_indices(spl as int, x as int);
    }
    let idx: usize = (num / 511) as usize;
    let rem: u64 = num % 511;
    let v: i64 = if rem == 0 {
        (samples[start + idx] as i64) * 511
    } else {
        let s1 = samples[start + idx] as i64;
        let s2 = samples[start + idx + 1] as i64;
        let w2 = rem as i64;
        let w1 = 511 - w2;
        proof {
            assert(-0x80000000 * 511 <= s1 * w1 <= 0x80000000 * 511) by (nonlinear_arith)
                requires
                    -0x80000000 <= s1 <= 0x7fffffff,
                    0 <= w1 <= 511,
            ;
            assert(-0x80000000 * 511 <= s2 * w2 <= 0x80000000 * 511) by (nonlinear_arith)
                requires
                    -0x80000000 <= s2 <= 0x7fffffff,
                    0 <= w2 <= 511,
            ;
        }
        s1 * w1 + s2 * w2
    };
    let magnitude: i64 = if v < 0 {
        -v
    } else {
        v
    };
    if magnitude > (threshold as i64) * 511 {
        255
    } else {
        0
    }
}

/// The slow-scan decoder.
#[derive(Default)]
pub struct SstvDecoder;

impl SstvDecoder {
    pub fn new() -> Self {
        SstvDecoder
    }

    /// Decodes a recording into a raster of binarized pixels.
    ///
    /// The result is `Ok` exactly when the parameters pass validation, the
    /// input is non-empty, the timing yields at least one sample per line,
    /// and the input holds at least one full line; the returned bytes are
    /// then precisely the raster that `spec_decode` describes. Otherwise the
    /// matching typed error is returned.
    pub fn decode(&self, samples: &[i32], params: &DecoderParams, sample_rate: u32) -> (r: Result<
        Vec<u8>,
        VoyagerError,
    >)
        ensures
            match r {
                Ok(pixels) => spec_decode(samples@, *params, sample_rate) matches Ok(s)
                    && pixels@ == s,
                Err(e) => spec_decode(samples@, *params, sample_rate) matches Err(d) && e
                    == VoyagerError::Decoder(d),
            },
            r matches Ok(pixels) ==> pixels@.len() as int % spec_row_size(params.mode) == 0,
            r matches Ok(pixels) ==> forall|k: int|
                0 <= k < pixels@.len() ==> (#[trigger] pixels@[k] == 0 || pixels@[k] == 255),
    {
        if params.line_duration_us < 1000 || params.line_duration_us > 100_000 {
            return Err(
                VoyagerError::Decoder(
                    DecoderError::InvalidLineDuration { duration_us: params.line_duration_us },
                ),
            );
        }
        if params.threshold > 1_000_000 {
            return Err(
                VoyagerError::Decoder(
                    DecoderError::InvalidThreshold { threshold: params.threshold },
                ),
            );
        }
        let len: usize = samples.len();
        if len == 0 {
            return Err(
                VoyagerError::Decoder(DecoderError::InsufficientSamples { needed: 1, actual: 0 }),
            );
        }
        let spl64: u64 = samples_per_line(params.line_duration_us, sample_rate);
        proof {
            lemma_samples_per_line_bound(params.line_duration_us, sample_rate);
        }
        if spl64 == 0 {
            return Err(
                VoyagerError::Decoder(
                    DecoderError::InvalidParams {
                        line_duration_us: params.line_duration_us,
                        sample_rate,
                    },
                ),
            );
        }
        let spl: usize = spl64 as usize;
        if len < spl {
            return Err(
                VoyagerError::Decoder(
                    DecoderError::InsufficientSamples { needed: spl, actual: len },
                ),
            );
        }
        let threshold: u32 = params.threshold;
        let quotient: usize = len / spl;
        let line_total: usize = if quotient < MAX_LINES {
            quotient
        } else {
            MAX_LINES
        };
        proof {
            vstd::arithmetic::div_mod::lemma_fundamental_div_mod(len as int, spl as int);
            vstd::arithmetic::mul::lemma_mul_inequality(
                line_total as int,
                quotient as int,
                spl as int,
            );
            assert(line_total * spl <= len);
        }
        let mut image: Vec<u8> = Vec::new();
        let mut l: usize = 0;
        while l < line_total
            invariant
                1 <= spl <= 0x2000_0000,
                len == samples@.len(),
                line_total == spec_line_count(len as int, spl as int),
                line_total * spl <= len,
                line_total <= MAX_LINES,
                threshold <= 1_000_000,
                l <= line_total,
                image@.len() == l * 512,
                forall|k: int|
                    0 <= k < image@.len() ==> image@[k] == spec_gray_pixel(
                        samples@,
                        spl as int,
                        threshold,
                        k / 512,
                        k % 512,
                    ),
            decreases line_total - l,
        {
            proof {
                vstd::arithmetic::mul::lemma_mul_inequality(
                    l as int,
                    line_total as int,
                    spl as int,
                );
                vstd::arithmetic::mul::lemma_mul_inequality(
                    l + 1,
                    line_total as int,
                    spl as int,
                );
                vstd::arithmetic::mul::lemma_mul_is_distributive_add_other_way(
                    spl as int,
                    l as int,
                    1,
                );
                assert(l * spl + spl <= len);
            }
            let start: usize = l * spl;
            let mut x: usize = 0;
            while x < 512
                invariant
                    1 <= spl <= 0x2000_0000,
                    len == samples@.len(),
                    start == l * spl,
                    start + spl <= len,
                    threshold <= 1_000_000,
                    l < line_total <= MAX_LINES,
                    x <= 512,
                    image@.len() == l * 512 + x,
                    forall|k: int|
                        0 <= k < l * 512 ==> image@[k] == spec_gray_pixel(
                            samples@,
                            spl as int,
                            threshold,
                            k / 512,
                            k % 512,
                        ),
                    forall|j: int|
                        0 <= j < x ==> image@[l * 512 + j] == spec_gray_pixel(
                            samples@,
                            spl as int,
                            threshold,
                            l as int,
                            j,
                        ),
                decreases 512 - x,
            {
                let p = line_pixel(samples, start, spl, threshold, x);
                image.push(p);
                x += 1;
            }
            proof {
                assert forall|k: int| 0 <= k < (l + 1) * 512 implies image@[k] == spec_gray_pixel(
                    samples@,
                    spl as int,
                    threshold,
                    k / 512,
                    k % 512,
                ) by {
                    if k >= l * 512 {
                        let j = k - l * 512;
                        vstd::arithmetic::div_mod::lemma_fundamental_div_mod_converse_div(
                            k,
                            512,
                            l as int,
                            j,
                        );
                        vstd::arithmetic::div_mod::lemma_fundamental_div_mod_converse_mod(
                            k,
                            512,
                            l as int,
                            j,
                        );
                    }
                }
            }
            l += 1;
        }
        match params.mode {
            DecoderMode::BinaryGrayscale => {
                proof {
                    assert(image@ =~= spec_gray_image(samples@, spl as int, threshold));
                    lemma_image_binary(samples@, spl as int, threshold, params.mode);
                }
                Ok(image)
            },
            DecoderMode::PseudoColor => {
                let color = regroup_color(&image, line_total);
                proof {
                    let gray = spec_gray_image(samples@, spl as int, threshold);
                    assert(image@ =~= gray);
                    assert(color@ =~= spec_color_image(gray));
                    lemma_image_binary(samples@, spl as int, threshold, params.mode);
                }
                Ok(color)
            },
        }
    }
}

/// Packs every three consecutive grayscale lines of a 512-wide raster into
/// one RGB line (line i to red, i+1 to green, i+2 to blue); a trailing group
/// of fewer than three lines is dropped.
fn regroup_color(image: &Vec<u8>, line_total: usize) -> (color: Vec<u8>)
    requires
        line_total <= MAX_LINES,
        image@.len() == line_total * 512,
    ensures
        color@ == spec_color_image(image@),
{
    let color_lines: usize = line_total / 3;
    proof {
        vstd::arithmetic::div_mod::lemma_fundamental_div_mod(line_total as int, 3);
        vstd::arithmetic::div_mod::lemma_div_multiples_vanish(line_total as int, 512);
        assert(image@.len() as int / 512 == line_total);
    }
    let mut color: Vec<u8> = Vec::new();
    let mut li: usize = 0;
    while li < color_lines
        invariant
            image@.len() == line_total * 512,
            line_total <= MAX_LINES,
            color_lines == line_total as int / 3,
            3 * color_lines <= line_total,
            li <= color_lines,
            color@.len() == li * 1536,
            forall|k: int|
                0 <= k < color@.len() ==> color@[k] == image@[(3 * (k / 1536) + (k % 1536) % 3)
                    * 512 + (k % 1536) / 3],
        decreases color_lines - li,
    {
        let mut x: usize = 0;
        while x < 512
            invariant
                image@.len() == line_total * 512,
                line_total <= MAX_LINES,
                li < color_lines,
                3 * color_lines <= line_total,
                x <= 512,
                color@.len() == li * 1536 + 3 * x,
                forall|k: int|
                    0 <= k < li * 1536 ==> color@[k] == image@[(3 * (k / 1536) + (k % 1536) % 3)
                        * 512 + (k % 1536) / 3],
                forall|j: int|
                    0 <= j < 3 * x ==> #[trigger] color@[li * 1536 + j] == image@[(3 * li + j % 3)
                        * 512 + j / 3],
            decreases 512 - x,
        {
            let r = image[(3 * li) * 512 + x];
            let g = image[(3 * li + 1) * 512 + x];
            let b = image[(3 * li + 2) * 512 + x];
            color.push(r);
            color.push(g);
            color.push(b);
            proof {
                assert forall|j: int| 0 <= j < 3 * (x + 1) implies #[trigger] color@[li * 1536 + j]
                    == image@[(3 * li + j % 3) * 512 + j / 3] by {
                    if j >= 3 * x {
                        let c = j - 3 * x;
                        vstd::arithmetic::div_mod::lemma_fundamental_div_mod_converse_div(
                            j,
                            3,
                            x as int,
                            c,
                        );
                        vstd::arithmetic::div_mod::lemma_fundamental_div_mod_converse_mod(
                            j,
                            3,
                            x as int,
                            c,
                        );
                    }
                }
            }
            x += 1;
        }
        proof {
            assert forall|k: int| 0 <= k < (li + 1) * 1536 implies color@[k] == image@[(3 * (k
                / 1536) + (k % 1536) % 3) * 512 + (k % 1536) / 3] by {
                if k >= li * 1536 {
                    let j = k - li * 1536;
                    vstd::arithmetic::div_mod::lemma_fundamental_div_mod_converse_div(
                        k,
                        1536,
                        li as int,
                        j,
                    );
                    vstd::arithmetic::div_mod::lemma_fundamental_div_mod_converse_mod(
                        k,
                        1536,
                        li as int,
                        j,
                    );
                    assert(color@[li * 1536 + j] == image@[(3 * li + j % 3) * 512 + j / 3]);
                }
            }
        }
        li += 1;
    }
    proof {
        assert(color@ =~= spec_color_image(image@));
    }
    color
}

/// Bytes per raster row: one byte per pixel in grayscale, three in
/// pseudocolor.
pub open spec fn spec_row_size(mode: DecoderMode) -> int {
    match mode {
        DecoderMode::BinaryGrayscale => 512,
        DecoderMode::PseudoColor => 1536,
    }
}

/// The index arithmetic of column interpolation stays inside the line: the
/// lower sample index is below `spl`, and the upper one is used only when it
/// is, too.
proof fn lemma_interp_indices(spl: int, x: int)
    requires
        1 <= spl,
        0 <= x < 512,
    ensures
        0 <= x * (spl - 1) / 511 < spl,
        x * (spl - 1) % 511 != 0 ==> x * (spl - 1) / 511 + 1 < spl,
{
    let num = x * (spl - 1);
    vstd::arithmetic::mul::lemma_mul_nonnegative(x, spl - 1);
    vstd::arithmetic::mul::lemma_mul_inequality(x, 511, spl - 1);
    vstd::arithmetic::div_mod::lemma_div_is_ordered(num, 511 * (spl - 1), 511);
    vstd::arithmetic::div_mod::lemma_div_multiples_vanish(spl - 1, 511);
    vstd::arithmetic::div_mod::lemma_div_pos_is_pos(num, 511);
    vstd::arithmetic::div_mod::lemma_fundamental_div_mod(num, 511);
    if num % 511 != 0 && num / 511 >= spl - 1 {
        assert(num >= 511 * (spl - 1) + 1) by (nonlinear_arith)
            requires
                num == 511 * (num / 511) + num % 511,
                num / 511 >= spl - 1,
                num % 511 >= 1,
        ;
        assert(false);
    }
}

/// A pixel depends only on the samples of its own line: two line windows
/// with pointwise equal samples binarize to the same pixel.
proof fn lemma_pixel_depends_on_line(
    samples: Seq<i32>,
    s1: int,
    s2: int,
    spl: int,
    threshold: u32,
    x: int,
)
    requires
        1 <= spl,
        0 <= x < 512,
        forall|j: int| 0 <= j < spl ==> #[trigger] samples[s1 + j] == samples[s2 + j],
    ensures
        spec_pixel(samples, s1, spl, threshold, x) == spec_pixel(samples, s2, spl, threshold, x),
{
    lemma_interp_indices(spl, x);
    let num = x * (spl - 1);
    let idx = num / 511;
    let rem = num % 511;
    assert(samples[s1 + idx] == samples[s2 + idx]);
    if rem != 0 {
        assert(samples[s1 + (idx + 1)] == samples[s2 + (idx + 1)]);
        assert(samples[s1 + idx + 1] == samples[s2 + idx + 1]);
    }
}

/// Every byte of a decoded raster is 0 or 255, and the raster length is an
/// exact multiple of the row size.
pub proof fn lemma_image_binary(samples: Seq<i32>, spl: int, threshold: u32, mode: DecoderMode)
    requires
        1 <= spl,
    ensures
        spec_image(samples, spl, threshold, mode).len() as int % spec_row_size(mode) == 0,
        forall|k: int|
            0 <= k < spec_image(samples, spl, threshold, mode).len() ==> (#[trigger] spec_image(
                samples,
                spl,
                threshold,
                mode,
            )[k] == 0 || spec_image(samples, spl, threshold, mode)[k] == 255),
{
    let len = samples.len() as int;
    let lc = spec_line_count(len, spl);
    let gray = spec_gray_image(samples, spl, threshold);
    vstd::arithmetic::div_mod::lemma_div_pos_is_pos(len, spl);
    assert(gray.len() == lc * 512);
    vstd::arithmetic::div_mod::lemma_mod_multiples_basic(lc, 512);
    match mode {
        DecoderMode::BinaryGrayscale => {
        },
        DecoderMode::PseudoColor => {
            let color = spec_color_image(gray);
            vstd::arithmetic::div_mod::lemma_div_multiples_vanish(lc, 512);
            assert(gray.len() as int / 512 == lc);
            let cc = lc / 3;
            assert(color.len() == cc * 1536);
            vstd::arithmetic::div_mod::lemma_mod_multiples_basic(cc, 1536);
            vstd::arithmetic::div_mod::lemma_fundamental_div_mod(lc, 3);
            assert forall|k: int| 0 <= k < color.len() implies (#[trigger] color[k] == 0
                || color[k] == 255) by {
                let li = k / 1536;
                let j = k % 1536;
                vstd::arithmetic::div_mod::lemma_fundamental_div_mod(k, 1536);
                vstd::arithmetic::div_mod::lemma_remainder_lower(k, 1536);
                vstd::arithmetic::div_mod::lemma_remainder_upper(k, 1536);
                vstd::arithmetic::div_mod::lemma_div_pos_is_pos(k, 1536);
                if li >= cc {
                    vstd::arithmetic::mul::lemma_mul_inequality(cc, li, 1536);
                    assert(false);
                }
                let idx = (3 * li + j % 3) * 512 + j / 3;
                vstd::arithmetic::div_mod::lemma_fundamental_div_mod(j, 3);
                vstd::arithmetic::div_mod::lemma_remainder_lower(j, 3);
                vstd::arithmetic::div_mod::lemma_remainder_upper(j, 3);
                vstd::arithmetic::div_mod::lemma_div_pos_is_pos(j, 3);
                vstd::arithmetic::div_mod::lemma_div_is_ordered(j, 1535, 3);
                assert(3 * li + j % 3 <= 3 * cc - 1);
                assert(3 * cc <= lc);
                assert(0 <= idx < lc * 512);
                assert(color[k] == gray[idx]);
            }
        },
    }
}

/// Pseudocolor packing: when three consecutive grayscale lines carry
/// pointwise identical samples, the packed RGB line repeats the shared
/// grayscale value in all three channels of every pixel. A trailing group of
/// fewer than three lines never reaches the output: the pseudocolor raster
/// holds exactly `line_count / 3` RGB lines.
pub proof fn lemma_pseudocolor_packing(
    samples: Seq<i32>,
    spl: int,
    threshold: u32,
    li: int,
    x: int,
)
    requires
        1 <= spl,
        0 <= li,
        3 * li + 2 < spec_line_count(samples.len() as int, spl),
        0 <= x < 512,
        forall|j: int|
            0 <= j < spl ==> #[trigger] samples[(3 * li) * spl + j] == samples[(3 * li + 1) * spl
                + j] && samples[(3 * li) * spl + j] == samples[(3 * li + 2) * spl + j],
    ensures
        ({
            let color = spec_color_image(spec_gray_image(samples, spl, threshold));
            let v = spec_gray_pixel(samples, spl, threshold, 3 * li, x);
            &&& color.len() == (spec_line_count(samples.len() as int, spl) / 3) * 1536
            &&& color[li * 1536 + 3 * x] == v
            &&& color[li * 1536 + 3 * x + 1] == v
            &&& color[li * 1536 + 3 * x + 2] == v
        }),
{
    let len = samples.len() as int;
    let lc = spec_line_count(len, spl);
    let gray = spec_gray_image(samples, spl, threshold);
    let color = spec_color_image(gray);
    vstd::arithmetic::div_mod::lemma_div_multiples_vanish(lc, 512);
    assert(gray.len() as int / 512 == lc);
    let cc = lc / 3;
    vstd::arithmetic::div_mod::lemma_fundamental_div_mod(lc, 3);
    vstd::arithmetic::div_mod::lemma_remainder_upper(lc, 3);
    assert(li < cc) by {
        if li >= cc {
            vstd::arithmetic::mul::lemma_mul_inequality(cc, li, 3);
            assert(3 * li + 2 >= 3 * cc + 2);
            assert(false);
        }
    }
    assert forall|c: int| 0 <= c < 3 implies #[trigger] color[li * 1536 + 3 * x + c]
        == spec_gray_pixel(
        samples,
        spl,
        threshold,
        3 * li,
        x,
    ) by {
        let k = li * 1536 + 3 * x + c;
        vstd::arithmetic::mul::lemma_mul_inequality(li + 1, cc, 1536);
        vstd::arithmetic::mul::lemma_mul_is_distributive_add_other_way(1536, li, 1);
        assert(0 <= k < cc * 1536);
        vstd::arithmetic::div_mod::lemma_fundamental_div_mod_converse_div(k, 1536, li, 3 * x + c);
        vstd::arithmetic::div_mod::lemma_fundamental_div_mod_converse_mod(k, 1536, li, 3 * x + c);
        vstd::arithmetic::div_mod::lemma_fundamental_div_mod_converse_div(3 * x + c, 3, x, c);
        vstd::arithmetic::div_mod::lemma_fundamental_div_mod_converse_mod(3 * x + c, 3, x, c);
        assert(color[k] == gray[(3 * li + c) * 512 + x]);
        assert(3 * li + c < lc);
        vstd::arithmetic::mul::lemma_mul_inequality(3 * li + c + 1, lc, 512);
        vstd::arithmetic::mul::lemma_mul_is_distributive_add_other_way(512, 3 * li + c, 1);
        vstd::arithmetic::div_mod::lemma_fundamental_div_mod_converse_div(
            (3 * li + c) * 512 + x,
            512,
            3 * li + c,
            x,
        );
        vstd::arithmetic::div_mod::lemma_fundamental_div_mod_converse_mod(
            (3 * li + c) * 512 + x,
            512,
            3 * li + c,
            x,
        );
        assert(gray[(3 * li + c) * 512 + x] == spec_gray_pixel(
            samples,
            spl,
            threshold,
            3 * li + c,
            x,
        ));
        vstd::arithmetic::mul::lemma_mul_is_distributive_add_other_way(spl, 3 * li, c);
        assert((3 * li + c) * spl == (3 * li) * spl + c * spl);
        lemma_pixel_depends_on_line(
            samples,
            (3 * li + c) * spl,
            (3 * li) * spl,
            spl,
            threshold,
            x,
        );
    }
}

/// Totality of decoding: for every accepted parameter set and non-empty
/// recording, the outcome is either a raster whose length is an exact
/// multiple of the row size, or a typed insufficient-data error — nothing
/// else. (That the executable decoder cannot abort is part of its
/// verification; this states what every outcome looks like.)
pub proof fn lemma_decode_total(samples: Seq<i32>, params: DecoderParams, sample_rate: u32)
    requires
        valid_line_duration(params.line_duration_us),
        valid_threshold(params.threshold),
        samples.len() > 0,
    ensures
        match spec_decode(samples, params, sample_rate) {
            Ok(s) => s.len() as int % spec_row_size(params.mode) == 0,
            Err(e) => e matches DecoderError::InvalidParams { .. } || e
                matches DecoderError::InsufficientSamples { .. },
        },
{
    let spl = spec_samples_per_line(params.line_duration_us, sample_rate);
    if spl > 0 && samples.len() >= spl {
        lemma_image_binary(samples, spl, params.threshold, params.mode);
    }
}

/// Decoding is deterministic: the outcome is a function of the samples, the
/// parameters and the sample rate alone, so identical inputs give
/// byte-identical rasters.
pub proof fn lemma_decode_deterministic(
    samples: Seq<i32>,
    params: DecoderParams,
    sample_rate: u32,
    r1: Result<Seq<u8>, DecoderError>,
    r2: Result<Seq<u8>, DecoderError>,
)
    requires
        r1 == spec_decode(samples, params, sample_rate),
        r2 == spec_decode(samples, params, sample_rate),
    ensures
        r1 == r2,
{
}

} // verus!
