//! Cover images as the image cache keeps them: decoded, scaled into the
//! cache's width and written again as JPEG.

use vstd::prelude::*;
use image::GenericImageView;
use crate::video::target_dimensions;

verus! {

/// The resampling filters of the image crate.
#[derive(Debug, Clone, Copy, PartialEq, Eq, Structural)]
pub enum ScaleFilter {
    Nearest,
    Triangle,
    CatmullRom,
    Gaussian,
    Lanczos3,
}

/// The JPEG quality cached images are written with.
pub const CACHED_JPEG_QUALITY: u8 = 70;

/// What `image::load_from_memory` makes of the bytes: the decoded image's
/// width and height, or the display text of the error.
pub uninterp spec fn decoded_size(bytes: Seq<u8>) -> Result<(u32, u32), Seq<char>>;

/// Calls `image::load_from_memory` and reads `dimensions()` of the image;
/// an error becomes its display text. The contract names the result.
#[verifier::external_body]
fn image_size(bytes: &[u8]) -> (r: Result<(u32, u32), String>)
    ensures
        match r {
            Ok(d) => decoded_size(bytes@) == Ok::<(u32, u32), Seq<char>>(d),
            Err(e) => decoded_size(bytes@) == Err::<(u32, u32), Seq<char>>(e@),
        },
{
    match image::load_from_memory(bytes) {
        Ok(img) => Ok(img.dimensions()),
        Err(e) => Err(e.to_string()),
    }
}

/// What the image crate writes for the bytes decoded by
/// `image::load_from_memory`, scaled by `DynamicImage::resize` into
/// `width` by `height` with `filter`, and written by `write_to` as JPEG of
/// `quality`; or the display text of the first error.
pub uninterp spec fn jpeg_rescaled(
    bytes: Seq<u8>,
    width: u32,
    height: u32,
    filter: ScaleFilter,
    quality: u8,
) -> Result<Seq<u8>, Seq<char>>;

/// Calls `image::load_from_memory`, `DynamicImage::resize` and
/// `DynamicImage::write_to` with `ImageOutputFormat::Jpeg`; an error becomes
/// its display text. The contract names the result.
#[verifier::external_body]
fn rescale_to_jpeg(bytes: &[u8], width: u32, height: u32, filter: ScaleFilter, quality: u8) -> (r:
    Result<Vec<u8>, String>)
    ensures
        match r {
            Ok(b) => jpeg_rescaled(bytes@, width, height, filter, quality) == Ok::<Seq<u8>, Seq<char>>(b@),
            Err(e) => jpeg_rescaled(bytes@, width, height, filter, quality) == Err::<Seq<u8>, Seq<char>>(e@),
        },
{
    let filter = match filter {
        ScaleFilter::Nearest => image::imageops::FilterType::Nearest,
        ScaleFilter::Triangle => image::imageops::FilterType::Triangle,
        ScaleFilter::CatmullRom => image::imageops::FilterType::CatmullRom,
        ScaleFilter::Gaussian => image::imageops::FilterType::Gaussian,
        ScaleFilter::Lanczos3 => image::imageops::FilterType::Lanczos3,
    };
    let img = image::load_from_memory(bytes).map_err(|e| e.to_string())?;
    let mut buf: Vec<u8> = Vec::new();
    img.resize(width, height, filter).write_to(
        &mut std::io::Cursor::new(&mut buf),
        image::ImageOutputFormat::Jpeg(quality),
    ).map_err(|e| e.to_string())?;
    Ok(buf)
}

/// A result's bytes and error text as sequences.
pub open spec fn bytes_result_view(r: Result<Vec<u8>, String>) -> Result<Seq<u8>, Seq<char>> {
    match r {
        Ok(b) => Ok(b@),
        Err(e) => Err(e@),
    }
}

/// The cached form of an image: decoded, scaled to 800 pixels wide when it
/// is wider (with the Triangle filter), and written as JPEG of quality 70.
/// An image whose scaled height cannot be computed in 32 bits is refused.
pub open spec fn compressed_image(bytes: Seq<u8>) -> Result<Seq<u8>, Seq<char>> {
    match decoded_size(bytes) {
        Err(e) => Err("图片解码失败: "@ + e),
        Ok(size) => if size.0 > 800 && 800 * size.1 > u32::MAX {
            Err("图片尺寸过大"@)
        } else {
            let target = target_dimensions(size.0, size.1);
            match jpeg_rescaled(bytes, target.0, target.1, ScaleFilter::Triangle, CACHED_JPEG_QUALITY) {
                Ok(b) => Ok(b),
                Err(e) => Err("图片编码失败: "@ + e),
            }
        },
    }
}

/// Re-encodes an image for the image cache.
pub fn compress_image(bytes: &[u8]) -> (r: Result<Vec<u8>, String>)
    ensures
        bytes_result_view(r) == compressed_image(bytes@),
{
    let (width, height) = match image_size(bytes) {
        Ok(size) => size,
        Err(e) => {
            let mut msg = String::from_str("图片解码失败: ");
            msg.append(e.as_str());
            return Err(msg);
        },
    };
    if width > 800 && height > u32::MAX / 800 {
        return Err(String::from_str("图片尺寸过大"));
    }
    let (w, h) = crate::video::resized_dimensions(width, height);
    match rescale_to_jpeg(bytes, w, h, ScaleFilter::Triangle, CACHED_JPEG_QUALITY) {
        Ok(b) => Ok(b),
        Err(e) => {
            let mut msg = String::from_str("图片编码失败: ");
            msg.append(e.as_str());
            Err(msg)
        },
    }
}

} // verus!
