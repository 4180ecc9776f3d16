//! The raster codec library, as this crate uses it.
//!
//! Everything here is a statement about the `image` crate that the verifier
//! takes on trust: the types are opaque, and each function's contract says
//! what the crate's own code does.

use crate::kind::{standard_kind, RasterKind};
use crate::layout::PixelLayout;
use image::imageops::FilterType;
use image::{ColorType, DynamicImage, ImageError, ImageFormat};
use std::io::Cursor;
use vstd::prelude::*;

verus! {

#[verifier::external_type_specification]
#[verifier::external_body]
pub struct ExDynamicImage(DynamicImage);

#[verifier::external_type_specification]
#[verifier::external_body]
pub struct ExImageFormat(ImageFormat);

#[verifier::external_type_specification]
#[verifier::external_body]
pub struct ExImageError(ImageError);

/// The `image::ImageFormat` that stands for a raster kind.
pub uninterp spec fn codec(kind: RasterKind) -> ImageFormat;

/// The `ImageFormat` variant of the same name as `kind`. No two kinds share
/// one.
#[verifier::external_body]
pub(crate) fn format_of(kind: RasterKind) -> (format: ImageFormat)
    ensures
        format == codec(kind),
        forall|other: RasterKind| #[trigger] codec(other) == format ==> other == kind,
{
    match kind {
        RasterKind::Png => ImageFormat::Png, RasterKind::Jpeg => ImageFormat::Jpeg,
        RasterKind::Gif => ImageFormat::Gif, RasterKind::WebP => ImageFormat::WebP,
        RasterKind::Pnm => ImageFormat::Pnm, RasterKind::Tiff => ImageFormat::Tiff,
        RasterKind::Tga => ImageFormat::Tga, RasterKind::Dds => ImageFormat::Dds,
        RasterKind::Bmp => ImageFormat::Bmp, RasterKind::Ico => ImageFormat::Ico,
        RasterKind::Hdr => ImageFormat::Hdr, RasterKind::OpenExr => ImageFormat::OpenExr,
        RasterKind::Farbfeld => ImageFormat::Farbfeld, RasterKind::Avif => ImageFormat::Avif,
        RasterKind::Qoi => ImageFormat::Qoi,
    }
}

/// `==` on `ImageFormat`, which the crate derives: whether both are the same
/// variant.
#[verifier::external_body]
pub(crate) fn same_format(a: ImageFormat, b: ImageFormat) -> (same: bool)
    ensures
        same == (a == b),
{
    a == b
}

/// What `ImageFormat::from_mime_type` answers: the format of the kind that
/// the MIME type names in the crate's table, `None` for a string not in it.
pub open spec fn standard_format(mime: Seq<char>) -> Option<ImageFormat> {
    match standard_kind(mime) {
        Some(kind) => Some(codec(kind)),
        None => None,
    }
}

/// `image::ImageFormat::from_mime_type`: an exact match of the string against
/// the crate's table of MIME types.
#[verifier::external_body]
pub(crate) fn mime_format(mime: &str) -> (format: Option<ImageFormat>)
    ensures
        format == standard_format(mime@),
{
    ImageFormat::from_mime_type(mime)
}

/// What `image::guess_format` reads off the first bytes of an input.
pub uninterp spec fn sniffed(bytes: Seq<u8>) -> Result<ImageFormat, ImageError>;

/// `image::guess_format`: the format whose signature the bytes start with.
#[verifier::external_body]
pub(crate) fn sniff_format(bytes: &[u8]) -> (format: Result<ImageFormat, ImageError>)
    ensures
        format == sniffed(bytes@),
{
    image::guess_format(bytes)
}

/// Whether `outcome` is something that `image::load_from_memory_with_format`
/// may return for the bytes and the format.
pub uninterp spec fn may_decode(
    bytes: Seq<u8>,
    format: ImageFormat,
    outcome: Result<DynamicImage, ImageError>,
) -> bool;

/// Whether the decoder of a format gives the same image on every machine.
/// That of OpenEXR does not: for lossy blocks it computes with the vector
/// unit of the processor at hand.
pub open spec fn decodes_alike(format: ImageFormat) -> bool {
    format != codec(RasterKind::OpenExr)
}

/// What the bytes decode to as `format`: the one outcome there is where the
/// decoder gives the same on every machine.
pub open spec fn decoded(bytes: Seq<u8>, format: ImageFormat) -> Result<DynamicImage, ImageError> {
    choose|outcome: Result<DynamicImage, ImageError>| may_decode(bytes, format, outcome)
}

/// `image::load_from_memory_with_format`: the bytes decoded as `format`, or
/// the decoder's error. But for OpenEXR, both depend on the bytes and the
/// format alone.
#[verifier::external_body]
pub(crate) fn decode(bytes: &[u8], format: ImageFormat) -> (image: Result<
    DynamicImage,
    ImageError,
>)
    ensures
        may_decode(bytes@, format, image),
        decodes_alike(format) ==> image == decoded(bytes@, format),
{
    image::load_from_memory_with_format(bytes, format)
}

/// Whether `outcome` is something that `DynamicImage::write_to` may give for
/// the image and the format: bytes written into an empty buffer, or an error.
pub uninterp spec fn may_encode(
    image: DynamicImage,
    format: ImageFormat,
    outcome: Result<Seq<u8>, ImageError>,
) -> bool;

/// Whether the encoder of a format writes the same bytes on every machine.
/// Those of AVIF and OpenEXR do not: they split the work among the processors
/// at hand, and what they write shows how. Nor does that of the radiance
/// format, which takes a logarithm at the precision of the platform.
pub open spec fn encodes_alike(format: ImageFormat) -> bool {
    &&& format != codec(RasterKind::Avif)
    &&& format != codec(RasterKind::OpenExr)
    &&& format != codec(RasterKind::Hdr)
}

/// What the image is encoded to in `format`: the one outcome there is where
/// the encoder writes the same on every machine.
pub open spec fn encoded(image: DynamicImage, format: ImageFormat) -> Result<Seq<u8>, ImageError> {
    choose|outcome: Result<Seq<u8>, ImageError>| may_encode(image, format, outcome)
}

/// The outcome of an encoding, with the bytes as a sequence.
pub open spec fn encoding_view(bytes: Result<Vec<u8>, ImageError>) -> Result<Seq<u8>, ImageError> {
    match bytes {
        Ok(written) => Ok(written@),
        Err(error) => Err(error),
    }
}

/// `DynamicImage::write_to`, into an empty buffer: the bytes written, or the
/// encoder's error. But for AVIF, OpenEXR and the radiance format, both
/// depend on the image and the format alone.
#[verifier::external_body]
pub(crate) fn encode(image: &DynamicImage, format: ImageFormat) -> (bytes: Result<
    Vec<u8>,
    ImageError,
>)
    ensures
        may_encode(*image, format, encoding_view(bytes)),
        encodes_alike(format) ==> encoding_view(bytes) == encoded(*image, format),
{
    let mut output: Vec<u8> = Vec::new();
    image.write_to(&mut Cursor::new(&mut output), format)?;
    Ok(output)
}

/// The width in pixels that `DynamicImage::width` reports.
pub uninterp spec fn image_width(image: DynamicImage) -> u32;

/// The height in pixels that `DynamicImage::height` reports.
pub uninterp spec fn image_height(image: DynamicImage) -> u32;

/// The pixel layout that `DynamicImage::color` reports.
pub uninterp spec fn image_layout(image: DynamicImage) -> PixelLayout;

/// `DynamicImage::width`.
#[verifier::external_body]
pub(crate) fn width_of(image: &DynamicImage) -> (width: u32)
    ensures
        width == image_width(*image),
{
    image.width()
}

/// `DynamicImage::height`.
#[verifier::external_body]
pub(crate) fn height_of(image: &DynamicImage) -> (height: u32)
    ensures
        height == image_height(*image),
{
    image.height()
}

/// `DynamicImage::color`, which reports one of ten colour types: the pixel
/// layout of the same name. There is always one.
#[verifier::external_body]
pub(crate) fn layout_of(image: &DynamicImage) -> (layout: Option<PixelLayout>)
    ensures
        layout == Some(image_layout(*image)),
{
    match image.color() {
        ColorType::L8 => Some(PixelLayout::L8),
        ColorType::La8 => Some(PixelLayout::La8),
        ColorType::Rgb8 => Some(PixelLayout::Rgb8),
        ColorType::Rgba8 => Some(PixelLayout::Rgba8),
        ColorType::L16 => Some(PixelLayout::L16),
        ColorType::La16 => Some(PixelLayout::La16),
        ColorType::Rgb16 => Some(PixelLayout::Rgb16),
        ColorType::Rgba16 => Some(PixelLayout::Rgba16),
        ColorType::Rgb32F => Some(PixelLayout::Rgb32F),
        ColorType::Rgba32F => Some(PixelLayout::Rgba32F),
        _ => None,
    }
}

/// `converted` is `image` in the pixel layout `layout`: of the same size,
/// and `image` itself where that is its layout already.
pub open spec fn recast(image: DynamicImage, layout: PixelLayout, converted: DynamicImage) -> bool {
    &&& image_width(converted) == image_width(image)
    &&& image_height(converted) == image_height(image)
    &&& image_layout(converted) == layout
    &&& image_layout(image) == layout ==> converted == image
}

/// The image that `DynamicImage::to_rgba8` makes of `image`.
pub uninterp spec fn rgba8_of(image: DynamicImage) -> DynamicImage;

/// `DynamicImage::to_rgba8`: every pixel converted to 8-bit RGB with alpha;
/// a copy of the image where it has that layout already.
#[verifier::external_body]
pub(crate) fn to_rgba8(image: &DynamicImage) -> (converted: DynamicImage)
    ensures
        converted == rgba8_of(*image),
        recast(*image, PixelLayout::Rgba8, converted),
{
    DynamicImage::ImageRgba8(image.to_rgba8())
}

/// The image that `DynamicImage::to_rgb8` makes of `image`.
pub uninterp spec fn rgb8_of(image: DynamicImage) -> DynamicImage;

/// `DynamicImage::to_rgb8`: every pixel converted to 8-bit RGB without alpha;
/// a copy of the image where it has that layout already.
#[verifier::external_body]
pub(crate) fn to_rgb8(image: &DynamicImage) -> (converted: DynamicImage)
    ensures
        converted == rgb8_of(*image),
        recast(*image, PixelLayout::Rgb8, converted),
{
    DynamicImage::ImageRgb8(image.to_rgb8())
}

/// The image that `DynamicImage::to_rgba32f` makes of `image`.
pub uninterp spec fn rgba32f_of(image: DynamicImage) -> DynamicImage;

/// `DynamicImage::to_rgba32f`: every pixel converted to 32-bit float RGB with
/// alpha; a copy of the image where it has that layout already.
#[verifier::external_body]
pub(crate) fn to_rgba32f(image: &DynamicImage) -> (converted: DynamicImage)
    ensures
        converted == rgba32f_of(*image),
        recast(*image, PixelLayout::Rgba32F, converted),
{
    DynamicImage::ImageRgba32F(image.to_rgba32f())
}

/// Whether `resized` is something that `DynamicImage::resize_exact` may make
/// of the image at the given size with the Lanczos filter of window 3.
pub uninterp spec fn may_stretch(
    image: DynamicImage,
    width: u32,
    height: u32,
    resized: DynamicImage,
) -> bool;

/// `DynamicImage::resize_exact` with `FilterType::Lanczos3`: the image
/// resampled to exactly `width` by `height`, whatever its aspect ratio, in the
/// pixel layout it had. The pixels are weighted by a sine taken at the
/// precision of the platform, so they are not the same on every machine. The
/// new image, at up to sixteen bytes to the pixel, has to fit in memory.
#[verifier::external_body]
pub(crate) fn stretch(image: &DynamicImage, width: u32, height: u32) -> (resized: DynamicImage)
    requires
        16 * width * height <= i32::MAX,
    ensures
        may_stretch(*image, width, height, resized),
        image_width(resized) == width,
        image_height(resized) == height,
        image_layout(resized) == image_layout(*image),
{
    image.resize_exact(width, height, FilterType::Lanczos3)
}

/// The text that `image::ImageError` displays.
pub uninterp spec fn spec_image_error_text(error: ImageError) -> Seq<char>;

/// `Display` of `image::ImageError`, through `to_string`.
#[verifier::external_body]
pub(crate) fn image_error_text(error: &ImageError) -> (text: String)
    ensures
        text@ == spec_image_error_text(*error),
{
    error.to_string()
}

} // verus!
