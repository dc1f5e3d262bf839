//! The normalized in-memory image: a raw sample buffer with explicit
//! dimensions and color layout, the format-agnostic handoff between the
//! decoder and the encoders.

use vstd::prelude::*;

verus! {

/// The color layouts a decoded image can carry: channel set and bit depth.
#[derive(Clone, Copy, Debug, PartialEq, Eq, Structural)]
pub enum ColorModel {
    /// 8-bit luminance.
    L8,
    /// 8-bit luminance with alpha.
    La8,
    /// 8-bit red, green and blue.
    Rgb8,
    /// 8-bit red, green, blue and alpha.
    Rgba8,
    /// 16-bit luminance.
    L16,
    /// 16-bit luminance with alpha.
    La16,
    /// 16-bit red, green and blue.
    Rgb16,
    /// 16-bit red, green, blue and alpha.
    Rgba16,
    /// 32-bit red, green and blue samples.
    Rgb32F,
    /// 32-bit red, green, blue and alpha samples.
    Rgba32F,
}

/// How many bytes one pixel of each layout occupies in the sample buffer.
pub open spec fn bytes_per_pixel_spec(color: ColorModel) -> int {
    match color {
        ColorModel::L8 => 1,
        ColorModel::La8 => 2,
        ColorModel::Rgb8 => 3,
        ColorModel::Rgba8 => 4,
        ColorModel::L16 => 2,
        ColorModel::La16 => 4,
        ColorModel::Rgb16 => 6,
        ColorModel::Rgba16 => 8,
        ColorModel::Rgb32F => 12,
        ColorModel::Rgba32F => 16,
    }
}

/// How many bytes one pixel of `color` occupies in the sample buffer.
pub fn bytes_per_pixel(color: ColorModel) -> (r: u8)
    ensures
        r as int == bytes_per_pixel_spec(color),
{
    match color {
        ColorModel::L8 => 1,
        ColorModel::La8 => 2,
        ColorModel::Rgb8 => 3,
        ColorModel::Rgba8 => 4,
        ColorModel::L16 => 2,
        ColorModel::La16 => 4,
        ColorModel::Rgb16 => 6,
        ColorModel::Rgba16 => 8,
        ColorModel::Rgb32F => 12,
        ColorModel::Rgba32F => 16,
    }
}

/// A decoded image: raw samples in native endian plus explicit width, height
/// and color layout. It exists only for the handoff from the decoder to one
/// encoder; it is never shared across tasks.
pub struct NormalizedImage {
    /// Width in pixels.
    pub width: u32,
    /// Height in pixels.
    pub height: u32,
    /// Layout of the sample buffer.
    pub color: ColorModel,
    /// The raw samples, row by row.
    pub pixels: Vec<u8>,
}

impl NormalizedImage {
    /// Well-formed: the buffer holds exactly one pixel's bytes per pixel of
    /// the declared dimensions.
    pub open spec fn wf(&self) -> bool {
        self.pixels@.len() == self.width as int * self.height as int * bytes_per_pixel_spec(
            self.color,
        )
    }

    /// Builds a normalized image, accepting the buffer exactly when its
    /// length matches the declared dimensions and layout.
    pub fn new(width: u32, height: u32, color: ColorModel, pixels: Vec<u8>) -> (r: Option<
        NormalizedImage,
    >)
        ensures
            r is Some <==> pixels@.len() == width as int * height as int * bytes_per_pixel_spec(
                color,
            ),
            r matches Some(img) ==> {
                &&& img.wf()
                &&& img.width == width
                &&& img.height == height
                &&& img.color == color
                &&& img.pixels@ == pixels@
            },
    {
        let bpp = bytes_per_pixel(color);
        let w: u128 = width as u128;
        let h: u128 = height as u128;
        let b: u128 = bpp as u128;
        proof {
            assert(w * h < 0x10000000000000000 && w * h * b < 0x1000000000000000000)
                by (nonlinear_arith)
                requires
                    w < 0x100000000,
                    h < 0x100000000,
                    b < 0x100,
            ;
        }
        let expected: u128 = w * h * b;
        if (pixels.len() as u128) == expected {
            Some(NormalizedImage { width, height, color, pixels })
        } else {
            None
        }
    }
}

} // verus!
