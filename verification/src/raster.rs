//! Decoding and resampling, which the `image` crate does for this library.
//!
//! Verus does not see inside the `image` crate. What it computes is given a
//! name here, and the two wrappers below state, without proof, that a call
//! returns the named value. Everything else in this module is verified against
//! those two statements.

use vstd::prelude::*;
use crate::mask::{CANONICAL_DIM, CANONICAL_LEN};

verus! {

/// A decoded image reduced to 8-bit luminance: `width * height` values, row by
/// row from the top.
#[derive(Debug, Clone)]
pub struct GrayImage {
    pub width: u32,
    pub height: u32,
    pub pixels: Vec<u8>,
}

impl GrayImage {
    /// There is one luminance value for every pixel.
    pub open spec fn wf(&self) -> bool {
        self.pixels.len() == self.width as int * self.height as int
    }
}

/// What decoding `bytes` gives, read as the format that the extension of
/// `locator` names, after conversion to 8-bit luminance: width, height and the
/// luminance values; or nothing, where the extension names no known format or
/// the bytes are not an image of that format.
pub uninterp spec fn decoded_luma(locator: Seq<char>, bytes: Seq<u8>) -> Option<(u32, u32, Seq<u8>)>;

/// What resampling a luminance image of `width` by `height` pixels to
/// `new_width` by `new_height` pixels with the Lanczos filter of window 3 gives.
pub uninterp spec fn lanczos3_resized(
    width: u32,
    height: u32,
    pixels: Seq<u8>,
    new_width: u32,
    new_height: u32,
) -> Seq<u8>;

/// Decodes an image held in memory, as `image::open` decodes a file: the format
/// is the one that `image::ImageFormat::from_path` reads off the locator's
/// extension, `image::load_from_memory_with_format` decodes the bytes and
/// `image::DynamicImage::to_luma8` reduces them to luminance.
///
/// Taken on trust: the outcome depends on the locator and the bytes alone, and
/// a decoded image has one luminance value per pixel.
#[verifier::external_body]
pub(crate) fn decode_luma(locator: &str, bytes: &[u8]) -> (img: Option<GrayImage>)
    ensures
        match img {
            Some(g) => decoded_luma(locator@, bytes@) == Some((g.width, g.height, g.pixels@))
                && g.wf(),
            None => decoded_luma(locator@, bytes@) is None,
        },
{
    let format = image::ImageFormat::from_path(locator).ok()?;
    let luma = image::load_from_memory_with_format(bytes, format).ok()?.to_luma8();
    Some(GrayImage {
        width: luma.width(),
        height: luma.height(),
        pixels: luma.pixels().map(|p| p.0[0]).collect(),
    })
}

/// Resamples a luminance image with `image::imageops::resize` and the filter
/// `image::imageops::FilterType::Lanczos3`.
///
/// Taken on trust: the outcome depends on the image and the new size alone; it
/// has one value for each pixel of the new size; and an image that already has
/// the new size comes back unchanged.
#[verifier::external_body]
pub(crate) fn resize_lanczos3(img: &GrayImage, new_width: u32, new_height: u32) -> (out: Vec<u8>)
    requires
        img.wf(),
        0 < new_width,
        0 < new_height,
        new_width as int * new_height as int <= usize::MAX,
    ensures
        out@ == lanczos3_resized(img.width, img.height, img.pixels@, new_width, new_height),
        out.len() == new_width as int * new_height as int,
        img.width == new_width && img.height == new_height ==> out@ == img.pixels@,
{
    let source: image::ImageBuffer<image::Luma<u8>, &[u8]> =
        image::ImageBuffer::from_raw(img.width, img.height, img.pixels.as_slice()).unwrap();
    let resized =
        image::imageops::resize(&source, new_width, new_height, image::imageops::FilterType::Lanczos3);
    resized.pixels().map(|p| p.0[0]).collect()
}

/// The canonical frame of a decoded image: its luminance resampled to 256 by
/// 256 pixels.
pub open spec fn canonical_frame(width: u32, height: u32, pixels: Seq<u8>) -> Seq<u8> {
    lanczos3_resized(width, height, pixels, CANONICAL_DIM, CANONICAL_DIM)
}

/// Brings a decoded image to the canonical resolution.
pub fn normalize(img: &GrayImage) -> (frame: Vec<u8>)
    requires
        img.wf(),
    ensures
        frame@ == canonical_frame(img.width, img.height, img.pixels@),
        frame.len() == CANONICAL_LEN,
        img.width == CANONICAL_DIM && img.height == CANONICAL_DIM ==> frame@ == img.pixels@,
{
    resize_lanczos3(img, CANONICAL_DIM, CANONICAL_DIM)
}

} // verus!
