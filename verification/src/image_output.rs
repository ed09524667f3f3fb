//! Turning a decoded raster into displayable RGBA pixels. Uploading the
//! result to a texture or encoding it to a file is a collaborator's job.

use vstd::prelude::*;

verus! {

use crate::sstv::DecoderMode;
use crate::sstv::spec_row_size;

/// An RGBA raster: four bytes per pixel, row-major.
#[derive(Debug, Clone, PartialEq, Eq)]
pub struct RasterImage {
    /// Width in pixels, always 512.
    pub width: usize,
    /// Height in pixels, at least 1.
    pub height: usize,
    /// RGBA bytes, `width * height * 4` of them.
    pub rgba: Vec<u8>,
}

/// Height of the rendered raster: the full rows the pixel data holds, and a
/// single black row where it holds none.
pub open spec fn spec_raster_height(len: int, mode: DecoderMode) -> int {
    let h = len / spec_row_size(mode);
    if h == 0 {
        1
    } else {
        h
    }
}

/// The RGBA byte at position `b` of the rendered raster: pixels covered by
/// the data show it (expanded from gray, or the RGB triple), pixels past the
/// data are black; alpha is always opaque.
pub open spec fn spec_rgba_byte(pixels: Seq<u8>, mode: DecoderMode, b: int) -> u8 {
    let i = b / 4;
    let c = b % 4;
    if c == 3 {
        255u8
    } else {
        match mode {
            DecoderMode::BinaryGrayscale => {
                if i < pixels.len() {
                    pixels[i]
                } else {
                    0u8
                }
            },
            DecoderMode::PseudoColor => {
                if 3 * i + 2 < pixels.len() {
                    pixels[3 * i + c]
                } else {
                    0u8
                }
            },
        }
    }
}

/// The full RGBA rendering of a decoded raster.
pub open spec fn spec_rgba(pixels: Seq<u8>, mode: DecoderMode) -> Seq<u8> {
    Seq::new(
        (spec_raster_height(pixels.len() as int, mode) * 2048) as nat,
        |b: int| spec_rgba_byte(pixels, mode, b),
    )
}

/// Renders decoded pixel bytes as a 512-wide RGBA raster.
///
/// Grayscale bytes expand to gray RGBA pixels, pseudocolor triples to
/// opaque RGB pixels; pixels past the end of the data are black, and empty
/// input renders one black row.
pub fn image_from_pixels(pixels: &[u8], mode: DecoderMode) -> (img: RasterImage)
    requires
        pixels@.len() <= 16384 * 1536,
    ensures
        img.width == 512,
        img.height == spec_raster_height(pixels@.len() as int, mode),
        img.rgba@ == spec_rgba(pixels@, mode),
{
    let len: usize = pixels.len();
    let row_size: usize = match mode {
        DecoderMode::BinaryGrayscale => 512,
        DecoderMode::PseudoColor => 1536,
    };
    let rows: usize = len / row_size;
    let height: usize = if rows == 0 {
        1
    } else {
        rows
    };
    proof {
        vstd::arithmetic::div_mod::lemma_div_is_ordered(len as int, 16384int * 1536, row_size as int);
        vstd::arithmetic::div_mod::lemma_div_is_ordered_by_denominator(
            len as int,
            512,
            row_size as int,
        );
        assert(height <= 16384 * 3);
    }
    let total: usize = height * 512;
    let mut rgba: Vec<u8> = Vec::new();
    let mut i: usize = 0;
    while i < total
        invariant
            len == pixels@.len(),
            total == spec_raster_height(len as int, mode) * 512,
            total <= 16384 * 3 * 512,
            i <= total,
            rgba@.len() == 4 * i,
            forall|b: int|
                0 <= b < 4 * i ==> #[trigger] rgba@[b] == spec_rgba_byte(pixels@, mode, b),
        decreases total - i,
    {
        let (r, g, b) = match mode {
            DecoderMode::BinaryGrayscale => {
                if i < len {
                    let v = pixels[i];
                    (v, v, v)
                } else {
                    (0u8, 0u8, 0u8)
                }
            },
            DecoderMode::PseudoColor => {
                if 3 * i + 2 < len {
                    (pixels[3 * i], pixels[3 * i + 1], pixels[3 * i + 2])
                } else {
                    (0u8, 0u8, 0u8)
                }
            },
        };
        rgba.push(r);
        rgba.push(g);
        rgba.push(b);
        rgba.push(255);
        proof {
            assert forall|bi: int| 0 <= bi < 4 * (i + 1) implies #[trigger] rgba@[bi]
                == spec_rgba_byte(pixels@, mode, bi) by {
                if bi >= 4 * i {
                    let c = bi - 4 * i;
                    vstd::arithmetic::div_mod::lemma_fundamental_div_mod_converse_div(
                        bi,
                        4,
                        i as int,
                        c,
                    );
                    vstd::arithmetic::div_mod::lemma_fundamental_div_mod_converse_mod(
                        bi,
                        4,
                        i as int,
                        c,
                    );
                }
            }
        }
        i += 1;
    }
    proof {
        assert(rgba@ =~= spec_rgba(pixels@, mode));
        vstd::arithmetic::div_mod::lemma_div_pos_is_pos(len as int, row_size as int);
    }
    RasterImage { width: 512, height, rgba }
}

} // verus!
