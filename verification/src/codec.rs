//! The codec boundary: the only place where the library touches the outside
//! image codecs. Each trusted item below wraps one outside call. Every codec
//! here is a deterministic function of the values handed to it, so each
//! call's whole outcome — whether it succeeds, and with which bytes or image
//! — is given a name (`decoded_of`, `png_result_of` and the like): stating
//! the compression formats themselves would take pages. Where the outside
//! source shows the success condition plainly (JPEG), it is also stated
//! outright.

use vstd::prelude::*;

use image::ImageEncoder;

use crate::errors::{DecodeError, EncodeError};
use crate::pixels::{bytes_per_pixel_spec, ColorModel, NormalizedImage};

verus! {

/// What decoding these bytes yields: the normalized image, or `None` when
/// the content is not a recognizable image encoding.
pub uninterp spec fn decoded_of(data: Seq<u8>) -> Option<NormalizedImage>;

/// What the image crate's PNG encoder yields for these samples: the PNG byte
/// stream, or `None` when it rejects the dimensions or layout.
pub uninterp spec fn png_result_of(pixels: Seq<u8>, width: u32, height: u32, color: ColorModel) -> Option<Seq<u8>>;

/// What the image crate's JPEG encoder yields for these samples: the JPEG
/// byte stream, or `None` when it rejects the dimensions or layout.
pub uninterp spec fn jpeg_result_of(pixels: Seq<u8>, width: u32, height: u32, color: ColorModel) -> Option<Seq<u8>>;

/// What the image crate's TIFF encoder yields for these samples: the TIFF
/// byte stream, or `None` when it rejects the dimensions or layout.
pub uninterp spec fn tiff_result_of(pixels: Seq<u8>, width: u32, height: u32, color: ColorModel) -> Option<Seq<u8>>;

/// What the image crate's BMP encoder yields for these samples: the BMP byte
/// stream, or `None` when it rejects the dimensions or layout.
pub uninterp spec fn bmp_result_of(pixels: Seq<u8>, width: u32, height: u32, color: ColorModel) -> Option<Seq<u8>>;

/// What libwebp's simple lossy encode yields for these samples at this
/// quality: the WebP byte stream, or `None` when it rejects the dimensions;
/// `alpha` tells an RGBA buffer from an RGB one.
pub uninterp spec fn webp_lossy_result_of(pixels: Seq<u8>, width: u32, height: u32, alpha: bool, quality: i8) -> Option<Seq<u8>>;

#[verifier::external_type_specification]
#[verifier::external_body]
/// The image crate's decoded image, carried opaquely into `color_model_of`.
pub struct ExDynamicImage(image::DynamicImage);

#[verifier::external_type_specification]
#[verifier::external_body]
/// The image crate's color tag, made only inside trusted bodies.
pub struct ExExtendedColorType(image::ExtendedColorType);

/// Relies on image::DynamicImage::color: carries the image crate's color tag
/// to the library's, variant for variant.
#[verifier::external_body]
fn color_model_of(img: &image::DynamicImage) -> (r: Result<ColorModel, DecodeError>) {
    match img.color() {
        image::ColorType::L8 => Ok(ColorModel::L8),
        image::ColorType::La8 => Ok(ColorModel::La8),
        image::ColorType::Rgb8 => Ok(ColorModel::Rgb8),
        image::ColorType::Rgba8 => Ok(ColorModel::Rgba8),
        image::ColorType::L16 => Ok(ColorModel::L16),
        image::ColorType::La16 => Ok(ColorModel::La16),
        image::ColorType::Rgb16 => Ok(ColorModel::Rgb16),
        image::ColorType::Rgba16 => Ok(ColorModel::Rgba16),
        image::ColorType::Rgb32F => Ok(ColorModel::Rgb32F),
        image::ColorType::Rgba32F => Ok(ColorModel::Rgba32F),
        _ => Err(DecodeError { message: "unsupported color layout".to_string() }),
    }
}

/// Relies on image::load_from_memory and DynamicImage::{width, height,
/// as_bytes}: decoding infers the format from the content alone, so its
/// outcome is a function of the bytes, named `decoded_of`; a decoded image's
/// sample buffer holds exactly width * height * bytes-per-pixel bytes of the
/// reported layout. Malformed content returns the error, it never panics.
#[verifier::external_body]
fn decode_bytes(data: &[u8]) -> (r: Result<NormalizedImage, DecodeError>)
    ensures
        r is Ok <==> decoded_of(data@) is Some,
        r matches Ok(img) ==> decoded_of(data@) == Some(img) && img.wf(),
{
    match image::load_from_memory(data) {
        Ok(img) => match color_model_of(&img) {
            Ok(color) => Ok(
                NormalizedImage {
                    width: img.width(),
                    height: img.height(),
                    color,
                    pixels: img.as_bytes().to_vec(),
                },
            ),
            Err(e) => Err(e),
        },
        Err(e) => Err(DecodeError { message: e.to_string() }),
    }
}

/// Relies on image::ExtendedColorType: carries the library's color tag to the
/// image crate's, variant for variant.
#[verifier::external_body]
fn ext_color(color: ColorModel) -> (r: image::ExtendedColorType) {
    match color {
        ColorModel::L8 => image::ExtendedColorType::L8,
        ColorModel::La8 => image::ExtendedColorType::La8,
        ColorModel::Rgb8 => image::ExtendedColorType::Rgb8,
        ColorModel::Rgba8 => image::ExtendedColorType::Rgba8,
        ColorModel::L16 => image::ExtendedColorType::L16,
        ColorModel::La16 => image::ExtendedColorType::La16,
        ColorModel::Rgb16 => image::ExtendedColorType::Rgb16,
        ColorModel::Rgba16 => image::ExtendedColorType::Rgba16,
        ColorModel::Rgb32F => image::ExtendedColorType::Rgb32F,
        ColorModel::Rgba32F => image::ExtendedColorType::Rgba32F,
    }
}

/// Decoder: turns source bytes into a normalized image, exactly when the
/// content is a recognizable image encoding (`decoded_of`). On failure
/// nothing is made: a failed decode leaves no trace.
pub fn decode_image(data: &[u8]) -> (r: Result<NormalizedImage, DecodeError>)
    ensures
        r is Ok <==> decoded_of(data@) is Some,
        r matches Ok(img) ==> Some(img) == decoded_of(data@) && img.wf(),
{
    decode_bytes(data)
}

/// Relies on image::codecs::png::PngEncoder::write_image: encodes the raw
/// samples as a PNG byte stream in memory, succeeding or failing as a
/// function of its arguments alone (the sink is an in-memory buffer). The
/// buffer length must match the dimensions exactly.
#[verifier::external_body]
pub(crate) fn png_encode(pixels: &Vec<u8>, width: u32, height: u32, color: ColorModel) -> (r:
    Result<Vec<u8>, EncodeError>)
    requires
        pixels@.len() == width as int * height as int * bytes_per_pixel_spec(color),
    ensures
        r is Ok <==> png_result_of(pixels@, width, height, color) is Some,
        r matches Ok(out) ==> Some(out@) == png_result_of(pixels@, width, height, color),
{
    let mut out: Vec<u8> = Vec::new();
    let enc = image::codecs::png::PngEncoder::new(&mut out);
    match enc.write_image(pixels.as_slice(), width, height, ext_color(color)) {
        Ok(()) => Ok(out),
        Err(e) => Err(EncodeError { message: e.to_string() }),
    }
}

/// Relies on image::codecs::jpeg::JpegEncoder::{write_image, encode}: encodes
/// the raw samples as a JPEG byte stream in memory at the encoder's default
/// compression level. Its source accepts exactly 8-bit luma and RGB layouts
/// with both dimensions in 1 to 65535; every other write to the in-memory
/// sink is infallible, so success is stated outright as well as named. The
/// buffer length must match the dimensions exactly.
#[verifier::external_body]
pub(crate) fn jpeg_encode(pixels: &Vec<u8>, width: u32, height: u32, color: ColorModel) -> (r:
    Result<Vec<u8>, EncodeError>)
    requires
        pixels@.len() == width as int * height as int * bytes_per_pixel_spec(color),
    ensures
        r is Ok <==> jpeg_result_of(pixels@, width, height, color) is Some,
        r matches Ok(out) ==> Some(out@) == jpeg_result_of(pixels@, width, height, color),
        r is Ok <==> {
            &&& 1 <= width <= 65535
            &&& 1 <= height <= 65535
            &&& (color is L8 || color is Rgb8)
        },
{
    let mut out: Vec<u8> = Vec::new();
    let enc = image::codecs::jpeg::JpegEncoder::new(&mut out);
    match enc.write_image(pixels.as_slice(), width, height, ext_color(color)) {
        Ok(()) => Ok(out),
        Err(e) => Err(EncodeError { message: e.to_string() }),
    }
}

/// Relies on image::codecs::tiff::TiffEncoder::write_image: encodes the raw
/// samples as a TIFF byte stream in memory, succeeding or failing as a
/// function of its arguments alone (the sink is an in-memory buffer). The
/// buffer length must match the dimensions exactly.
#[verifier::external_body]
pub(crate) fn tiff_encode(pixels: &Vec<u8>, width: u32, height: u32, color: ColorModel) -> (r:
    Result<Vec<u8>, EncodeError>)
    requires
        pixels@.len() == width as int * height as int * bytes_per_pixel_spec(color),
    ensures
        r is Ok <==> tiff_result_of(pixels@, width, height, color) is Some,
        r matches Ok(out) ==> Some(out@) == tiff_result_of(pixels@, width, height, color),
{
    let mut cur = std::io::Cursor::new(Vec::new());
    let enc = image::codecs::tiff::TiffEncoder::new(&mut cur);
    match enc.write_image(pixels.as_slice(), width, height, ext_color(color)) {
        Ok(()) => Ok(cur.into_inner()),
        Err(e) => Err(EncodeError { message: e.to_string() }),
    }
}

/// Relies on image::codecs::bmp::BmpEncoder::write_image: encodes the raw
/// samples as a BMP byte stream in memory, succeeding or failing as a
/// function of its arguments alone (the sink is an in-memory buffer). The
/// buffer length must match the dimensions exactly.
#[verifier::external_body]
pub(crate) fn bmp_encode(pixels: &Vec<u8>, width: u32, height: u32, color: ColorModel) -> (r:
    Result<Vec<u8>, EncodeError>)
    requires
        pixels@.len() == width as int * height as int * bytes_per_pixel_spec(color),
    ensures
        r is Ok <==> bmp_result_of(pixels@, width, height, color) is Some,
        r matches Ok(out) ==> Some(out@) == bmp_result_of(pixels@, width, height, color),
{
    let mut out: Vec<u8> = Vec::new();
    let enc = image::codecs::bmp::BmpEncoder::new(&mut out);
    match enc.write_image(pixels.as_slice(), width, height, ext_color(color)) {
        Ok(()) => Ok(out),
        Err(e) => Err(EncodeError { message: e.to_string() }),
    }
}

/// Relies on webp::Encoder::{from_rgb, encode_simple}: lossy WebP compression
/// of an 8-bit RGB buffer, whole image to one in-memory byte buffer, no
/// streaming. The constructor demands a buffer of exactly width * height * 3
/// bytes, and encode_simple documents quality 0 to 100; it fails (for
/// example on zero dimensions) by returning the error. Both dimensions must
/// stay within libwebp's own limit of 16383: the crate computes the row
/// stride as a 32-bit signed width * 3, so a wider image would overflow
/// there instead of returning the error.
#[verifier::external_body]
pub(crate) fn webp_encode_rgb(pixels: &Vec<u8>, width: u32, height: u32, quality: i8) -> (r:
    Result<Vec<u8>, EncodeError>)
    requires
        pixels@.len() == width as int * height as int * 3,
        width <= 16383,
        height <= 16383,
        0 <= quality <= 100,
    ensures
        r is Ok <==> webp_lossy_result_of(pixels@, width, height, false, quality) is Some,
        r matches Ok(out) ==> Some(out@) == webp_lossy_result_of(
            pixels@,
            width,
            height,
            false,
            quality,
        ),
{
    let enc = webp::Encoder::from_rgb(pixels.as_slice(), width, height);
    match enc.encode_simple(false, quality.into()) {
        Ok(mem) => Ok(mem.to_vec()),
        Err(e) => Err(EncodeError { message: format!("webp encoding failed: {:?}", e) }),
    }
}

/// Relies on webp::Encoder::{from_rgba, encode_simple}: as `webp_encode_rgb`,
/// for an 8-bit RGBA buffer of exactly width * height * 4 bytes, with the
/// same 16383 dimension limit (the stride there is a 32-bit signed
/// width * 4).
#[verifier::external_body]
pub(crate) fn webp_encode_rgba(pixels: &Vec<u8>, width: u32, height: u32, quality: i8) -> (r:
    Result<Vec<u8>, EncodeError>)
    requires
        pixels@.len() == width as int * height as int * 4,
        width <= 16383,
        height <= 16383,
        0 <= quality <= 100,
    ensures
        r is Ok <==> webp_lossy_result_of(pixels@, width, height, true, quality) is Some,
        r matches Ok(out) ==> Some(out@) == webp_lossy_result_of(
            pixels@,
            width,
            height,
            true,
            quality,
        ),
{
    let enc = webp::Encoder::from_rgba(pixels.as_slice(), width, height);
    match enc.encode_simple(false, quality.into()) {
        Ok(mem) => Ok(mem.to_vec()),
        Err(e) => Err(EncodeError { message: format!("webp encoding failed: {:?}", e) }),
    }
}

} // verus!
