//! Bitmaps, as the `image` crate reads and scales them.
use image::DynamicImage;
use vstd::prelude::*;

verus! {

/// Decoded bitmap of the `image` crate.
#[verifier::external_type_specification]
#[verifier::external_body]
pub struct ExDynamicImage(DynamicImage);

/// Extent of a bitmap in pixels.
pub ghost struct Extent {
    pub width: u32,
    pub height: u32,
}

/// Extent of a decoded bitmap.
pub uninterp spec fn extent_of(bitmap: DynamicImage) -> Extent;

/// Extent that the header of an image file declares, if the file has a header
/// that the decoders know.
pub uninterp spec fn header_extent(bytes: Seq<u8>) -> Option<(u32, u32)>;

/// Extent of the bitmap that an image file decodes to under a limit on each side
/// and a limit on allocated bytes, or the decoder's diagnostic.
pub uninterp spec fn decoded(bytes: Seq<u8>, max_side: u32, max_alloc: u64) -> Result<
    Extent,
    Seq<char>,
>;

/// Largest extent that fits into a square of `bound` pixels and keeps the
/// proportions of another one.
pub uninterp spec fn fitted(source: Extent, bound: u32) -> Extent;

/// Whether a side is scaled in proportion to a longer side that becomes `bound`:
/// to the nearest whole pixel, but to one pixel at least.
pub open spec fn in_proportion(side: u32, longer: u32, bound: u32, scaled: u32) -> bool {
    ||| -(longer as int) <= 2 * (scaled * longer - side * bound) <= longer
    ||| scaled == 1 && 2 * (side * bound) <= longer
}

/// Whether an extent is another one scaled to a square of `bound` pixels: the
/// longer side meets the bound, and the other one keeps the proportion.
pub open spec fn scaled_to(source: Extent, bound: u32, scaled: Extent) -> bool {
    &&& 1 <= scaled.width <= bound
    &&& 1 <= scaled.height <= bound
    &&& 0 < source.width && source.height <= source.width ==> scaled.width == bound
        && in_proportion(source.height, source.width, bound, scaled.height)
    &&& 0 < source.height && source.width <= source.height ==> scaled.height == bound
        && in_proportion(source.width, source.height, bound, scaled.width)
}

/// Image file formats that covers may have.
#[derive(Debug, Clone, Copy, PartialEq, Eq, Structural)]
pub enum CoverFormat {
    Jpeg,
    Png,
}

/// Whether the bytes begin with the signature of a PNG file.
pub open spec fn starts_like_png(bytes: Seq<u8>) -> bool {
    &&& bytes.len() >= 8
    &&& bytes.take(8) == seq![0x89u8, 0x50u8, 0x4eu8, 0x47u8, 0x0du8, 0x0au8, 0x1au8, 0x0au8]
}

/// Whether the bytes begin with the signature of a JPEG file.
pub open spec fn starts_like_jpeg(bytes: Seq<u8>) -> bool {
    &&& bytes.len() >= 3
    &&& bytes.take(3) == seq![0xffu8, 0xd8u8, 0xffu8]
}

/// Cover format that the first bytes of a file announce.
pub open spec fn announced_format(bytes: Seq<u8>) -> Option<CoverFormat> {
    if starts_like_png(bytes) {
        Some(CoverFormat::Png)
    } else if starts_like_jpeg(bytes) {
        Some(CoverFormat::Jpeg)
    } else {
        None
    }
}

/// `image::guess_format` compares the first bytes with a table of signatures,
/// of which the first two are those of PNG and JPEG. Every other answer, known
/// format or none, is no cover format here.
#[verifier::external_body]
pub(crate) fn guess_format(bytes: &[u8]) -> (format: Option<CoverFormat>)
    ensures
        format == announced_format(bytes@),
{
    match image::guess_format(bytes) {
        Ok(image::ImageFormat::Jpeg) => Some(CoverFormat::Jpeg),
        Ok(image::ImageFormat::Png) => Some(CoverFormat::Png),
        _ => None,
    }
}

/// `image::ImageReader::into_dimensions` reads the extent out of a file's
/// header after guessing its format, without decoding the bitmap. Decoding
/// checks the same extent against its limit, so a file whose header exceeds the
/// limit does not decode. A PNG file needs its signature and a whole `IHDR`
/// chunk, 33 bytes together. The answer depends on the bytes alone as long as no
/// decoding hook is registered with the `image` crate, and this library
/// registers none.
#[verifier::external_body]
pub(crate) fn read_header_extent(bytes: &[u8]) -> (extent: Option<(u32, u32)>)
    ensures
        extent == header_extent(bytes@),
        extent is Some && starts_like_png(bytes@) ==> bytes@.len() >= 33,
        extent matches Some((width, height)) ==> forall|max_side: u32, max_alloc: u64|
            width > max_side || height > max_side ==> #[trigger] decoded(
                bytes@,
                max_side,
                max_alloc,
            ) is Err,
{
    image::ImageReader::new(std::io::Cursor::new(bytes))
        .with_guessed_format()
        .and_then(|reader| reader.into_dimensions().map_err(std::io::Error::other))
        .ok()
}

/// `image::ImageReader::decode` decodes a file whose format it guesses. The
/// limits are strict on both sides: a larger bitmap is an error. The answer
/// depends on the bytes and the limits alone as long as no decoding hook is
/// registered with the `image` crate, and this library registers none. The
/// samples of the bitmap are left unsaid: decoders may round them differently
/// from machine to machine.
#[verifier::external_body]
pub(crate) fn decode(bytes: &[u8], max_side: u32, max_alloc: u64) -> (bitmap: Result<
    DynamicImage,
    String,
>)
    ensures
        bitmap is Ok == decoded(bytes@, max_side, max_alloc) is Ok,
        bitmap matches Ok(b) ==> decoded(bytes@, max_side, max_alloc)->Ok_0 == extent_of(b),
        bitmap matches Ok(b) ==> extent_of(b).width <= max_side && extent_of(b).height <= max_side,
        bitmap matches Err(message) ==> decoded(bytes@, max_side, max_alloc)->Err_0 == message@,
{
    let mut limits = image::Limits::default();
    limits.max_image_width = Some(max_side);
    limits.max_image_height = Some(max_side);
    limits.max_alloc = Some(max_alloc);
    let mut reader = image::ImageReader::new(std::io::Cursor::new(bytes))
        .with_guessed_format()
        .map_err(|error| error.to_string())?;
    reader.limits(limits);
    reader.decode().map_err(|error| error.to_string())
}

/// `DynamicImage::width` and `DynamicImage::height` return the extent of a
/// bitmap.
#[verifier::external_body]
pub(crate) fn extent(bitmap: &DynamicImage) -> (sides: (u32, u32))
    ensures
        sides == (extent_of(*bitmap).width, extent_of(*bitmap).height),
{
    (bitmap.width(), bitmap.height())
}

/// `DynamicImage::resize` with the Lanczos filter scales a bitmap to the
/// largest extent that fits into the given bounds, here a square, and keeps its
/// proportions: the longer side meets the bound, and the other one is rounded to
/// the nearest pixel without vanishing. The samples are left unsaid, since the
/// filter rounds them.
#[verifier::external_body]
pub(crate) fn fit_into_square(bitmap: &DynamicImage, bound: u32) -> (scaled: DynamicImage)
    requires
        1 <= bound <= 65535,
    ensures
        extent_of(scaled) == fitted(extent_of(*bitmap), bound),
        scaled_to(extent_of(*bitmap), bound, extent_of(scaled)),
{
    bitmap.resize(bound, bound, image::imageops::FilterType::Lanczos3)
}

/// `DynamicImage::clone` copies a bitmap, samples and all.
#[verifier::external_body]
pub(crate) fn copy_bitmap(bitmap: &DynamicImage) -> (copy: DynamicImage)
    ensures
        copy == *bitmap,
{
    bitmap.clone()
}

} // verus!
