//! Decoding, comparison and encoding of raster images, through the `image`
//! codec and the `lcs_png_diff` comparison routine. Grids are held as plain
//! 8-bit RGBA bytes.

use vstd::prelude::*;
use crate::error::AppError;
use image::codecs::png::PngEncoder;
use image::{ColorType, DynamicImage, ImageEncoder, ImageError, RgbaImage};

verus! {

#[verifier::external_type_specification]
#[verifier::external_body]
pub struct ExImageError(ImageError);

/// Width, height and RGBA bytes of the grid that the codec decodes from
/// `bytes`, the format being guessed from their content; `None` where it cannot
/// decode them.
pub uninterp spec fn decoded(bytes: Seq<u8>) -> Option<(u32, u32, Seq<u8>)>;

/// Width, height and RGBA bytes of the difference image that the comparison
/// routine draws for two grids.
pub uninterp spec fn diff_of(before: (u32, u32, Seq<u8>), after: (u32, u32, Seq<u8>)) -> (u32, u32, Seq<u8>);

/// The PNG encoding of an RGBA grid of the given width and height; `None`
/// where the encoder refuses it.
pub uninterp spec fn png_of(grid: (u32, u32, Seq<u8>)) -> Option<Seq<u8>>;

/// A pixel grid in 8-bit RGBA: four bytes per pixel, row after row.
pub struct Raster {
    pub width: u32,
    pub height: u32,
    pub rgba: Vec<u8>,
}

impl Raster {
    /// The grid as plain values.
    pub open spec fn parts(&self) -> (u32, u32, Seq<u8>) {
        (self.width, self.height, self.rgba@)
    }

    pub open spec fn size(&self) -> (u32, u32) {
        (self.width, self.height)
    }

    /// The bytes hold exactly four per pixel.
    pub open spec fn wf(&self) -> bool {
        self.rgba@.len() == self.width * self.height * 4
    }
}

/// Relies on image's `io::Reader::with_guessed_format` and `io::Reader::decode`:
/// the format is guessed from the content and the bytes are decoded; the grid is
/// then converted by `DynamicImage::to_rgba8`, whose buffer holds four bytes for
/// each pixel. The outcome depends on the bytes alone.
#[verifier::external_body]
fn decode_raster(bytes: &Vec<u8>) -> (r: Result<Raster, ImageError>)
    ensures
        match r {
            Ok(img) => decoded(bytes@) == Some(img.parts()) && img.wf(),
            Err(_) => decoded(bytes@) is None,
        },
{
    let reader = image::io::Reader::new(std::io::Cursor::new(bytes.as_slice()));
    let decoded = match reader.with_guessed_format() {
        Ok(guessed) => guessed.decode()?,
        Err(e) => return Err(ImageError::IoError(e)),
    };
    let rgba = decoded.to_rgba8();
    Ok(Raster { width: rgba.width(), height: rgba.height(), rgba: rgba.into_raw() })
}

/// Decodes `bytes`, mapping a codec failure to `UnsupportedBitmapFormat`.
pub fn decode(bytes: &Vec<u8>) -> (r: Result<Raster, AppError>)
    ensures
        match r {
            Ok(img) => decoded(bytes@) == Some(img.parts()) && img.wf(),
            Err(e) => decoded(bytes@) is None && e == AppError::UnsupportedBitmapFormat,
        },
{
    match decode_raster(bytes) {
        Ok(img) => Ok(img),
        Err(e) => Err(AppError::from(e)),
    }
}

/// The larger of two widths.
pub open spec fn wider(a: u32, b: u32) -> u32 {
    if a >= b { a } else { b }
}

/// Whether the comparison routine can take two grids of these sizes: neither is
/// zero pixels wide, and the difference image, as wide as the wider input and at
/// most as tall as both together, fits the buffer sizes of the platform.
pub open spec fn comparable(before: (u32, u32), after: (u32, u32)) -> bool {
    let rows = before.1 + after.1;
    let width = wider(before.0, after.0);
    &&& before.0 > 0
    &&& after.0 > 0
    &&& rows <= u32::MAX
    &&& width * 4 * rows <= usize::MAX
}

/// Relies on `lcs_png_diff::diff`, which compares the grids row by row. It splits
/// each grid into rows of `4 * width` bytes (which panics on width zero), reads
/// four bytes per pixel, and returns an RGBA image as wide as the wider input,
/// built by `ImageBuffer::new`, with one row per row of the row-level difference.
/// Its only error comes from decoding base64 that it encoded itself, so it
/// always succeeds. The grids are rebuilt by `ImageBuffer::from_raw`, which
/// accepts a buffer of four bytes per pixel.
#[verifier::external_body]
fn compare(before: &Raster, after: &Raster) -> (r: Option<Raster>)
    requires
        before.wf(),
        after.wf(),
        comparable(before.size(), after.size()),
    ensures
        match r {
            Some(d) => d.parts() == diff_of(before.parts(), after.parts()) && d.wf()
                && d.width == wider(before.width, after.width),
            None => false,
        },
{
    let b = RgbaImage::from_raw(before.width, before.height, before.rgba.clone())?;
    let a = RgbaImage::from_raw(after.width, after.height, after.rgba.clone())?;
    let d = lcs_png_diff::diff(&DynamicImage::ImageRgba8(b), &DynamicImage::ImageRgba8(a)).ok()?;
    let d = d.into_rgba8();
    Some(Raster { width: d.width(), height: d.height(), rgba: d.into_raw() })
}

/// Relies on image's `PngEncoder::write_image` with the RGBA color type, into an
/// in-memory buffer (what `DynamicImage::write_to` does for PNG). It asserts that
/// the buffer holds four bytes per pixel, and writes the 8-byte PNG signature
/// before it can succeed.
#[verifier::external_body]
fn encode_png(img: &Raster) -> (r: Result<Vec<u8>, ImageError>)
    requires
        img.wf(),
    ensures
        match r {
            Ok(p) => png_of(img.parts()) == Some(p@) && p@.len() >= 8,
            Err(_) => png_of(img.parts()) is None,
        },
{
    let mut out: Vec<u8> = Vec::new();
    match PngEncoder::new(&mut out).write_image(&img.rgba, img.width, img.height, ColorType::Rgba8) {
        Ok(()) => Ok(out),
        Err(e) => Err(e),
    }
}

/// Tells whether two grids of these sizes can be compared, without overflow.
pub fn check_comparable(before: &Raster, after: &Raster) -> (r: bool)
    ensures
        r == comparable(before.size(), after.size()),
{
    let rows: u128 = before.height as u128 + after.height as u128;
    let width: u128 = if before.width >= after.width { before.width as u128 } else { after.width as u128 };
    assert(width * 4 * rows <= 0x1_0000_0000u128 * 4 * 0x2_0000_0000u128) by (nonlinear_arith)
        requires width <= 0x1_0000_0000u128, rows <= 0x2_0000_0000u128;
    before.width > 0 && after.width > 0 && rows <= u32::MAX as u128
        && width * 4 * rows <= usize::MAX as u128
}

/// The PNG encoding of the difference image of two grids, as the caller's
/// result: an encoding the encoder refuses is an internal failure.
pub open spec fn encoded_diff(before: (u32, u32, Seq<u8>), after: (u32, u32, Seq<u8>)) -> Result<Seq<u8>, AppError> {
    match png_of(diff_of(before, after)) {
        Some(p) => Ok(p),
        None => Err(AppError::UnknownError),
    }
}

/// Compares two comparable grids and encodes the difference image as PNG bytes.
pub fn compare_and_encode(before: &Raster, after: &Raster) -> (r: Result<Vec<u8>, AppError>)
    requires
        before.wf(),
        after.wf(),
        comparable(before.size(), after.size()),
    ensures
        match r {
            Ok(p) => encoded_diff(before.parts(), after.parts()) == Ok::<Seq<u8>, AppError>(p@) && p@.len() >= 8,
            Err(e) => encoded_diff(before.parts(), after.parts()) == Err::<Seq<u8>, AppError>(e),
        },
{
    match compare(before, after) {
        None => Err(AppError::UnknownError),
        Some(diffed) => match encode_png(&diffed) {
            Ok(png) => Ok(png),
            Err(_) => Err(AppError::UnknownError),
        },
    }
}

} // verus!
