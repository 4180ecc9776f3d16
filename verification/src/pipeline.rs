//! The three stages of a conversion: decoding the input, adapting the pixels
//! to the target format, and encoding the output.

use crate::codec::{
    codec, decode, decoded, decodes_alike, encode, encoded, format_of, may_decode, may_encode,
    may_stretch, image_error_text, image_height,
    image_layout, image_width, rgb8_of, rgba32f_of, rgba8_of, sniff_format, sniffed,
    spec_image_error_text, stretch, to_rgb8, to_rgba32f, to_rgba8,
};
use crate::error::{bytes_view, failure_view, ConvertError, ErrorModel};
use crate::kind::RasterKind;
use crate::layout::PixelLayout;
use crate::settings::{svg_settings, svg_settings_of, Settings};
use crate::source_type::SourceType;
use crate::svg::{rasterized_png, svg_to_png};
use image::{DynamicImage, ImageError, ImageFormat};
use vstd::prelude::*;

verus! {

/// The side, in pixels, of the square that an icon is resized to.
pub const ICON_SIDE: u32 = 256;

/// What has to be done to an image before a target format can hold it.
#[derive(Clone, Copy, Debug, PartialEq, Eq, Structural)]
pub enum Fixup {
    /// The format takes the image as it is.
    Keep,
    /// The format has no alpha channel: 8-bit RGB.
    DropAlpha,
    /// The format is an icon: a square of `ICON_SIDE` pixels.
    Icon,
    /// The format holds floating-point samples: 32-bit float RGB with alpha.
    Float,
}

/// The fixup that each target format calls for.
pub open spec fn fixup_of(target: RasterKind) -> Fixup {
    match target {
        RasterKind::Jpeg => Fixup::DropAlpha,
        RasterKind::Qoi => Fixup::DropAlpha,
        RasterKind::Farbfeld => Fixup::DropAlpha,
        RasterKind::Pnm => Fixup::DropAlpha,
        RasterKind::Tga => Fixup::DropAlpha,
        RasterKind::Ico => Fixup::Icon,
        RasterKind::OpenExr => Fixup::Float,
        RasterKind::Png => Fixup::Keep,
        RasterKind::Gif => Fixup::Keep,
        RasterKind::WebP => Fixup::Keep,
        RasterKind::Tiff => Fixup::Keep,
        RasterKind::Dds => Fixup::Keep,
        RasterKind::Bmp => Fixup::Keep,
        RasterKind::Hdr => Fixup::Keep,
        RasterKind::Avif => Fixup::Keep,
    }
}

/// The fixup for a target format. Every format has its entry: a new format
/// does not compile until it is given one.
pub fn target_fixup(target: RasterKind) -> (fixup: Fixup)
    ensures
        fixup == fixup_of(target),
{
    match target {
        RasterKind::Jpeg
        | RasterKind::Qoi
        | RasterKind::Farbfeld
        | RasterKind::Pnm
        | RasterKind::Tga => Fixup::DropAlpha,
        RasterKind::Ico => Fixup::Icon,
        RasterKind::OpenExr => Fixup::Float,
        RasterKind::Png
        | RasterKind::Gif
        | RasterKind::WebP
        | RasterKind::Tiff
        | RasterKind::Dds
        | RasterKind::Bmp
        | RasterKind::Hdr
        | RasterKind::Avif => Fixup::Keep,
    }
}

/// The format that an output is encoded to: the one asked for, else PNG.
pub open spec fn target_or_png(target: Option<RasterKind>) -> RasterKind {
    match target {
        Some(kind) => kind,
        None => RasterKind::Png,
    }
}

/// Whether the images of a source format are first brought to 8-bit RGB with
/// alpha: those of the radiance format, whose samples no other encoder takes.
pub open spec fn forces_rgba8(source: Option<RasterKind>) -> bool {
    source == Some(RasterKind::Hdr)
}

/// The image after the fixup that its source calls for: 8-bit RGB with alpha
/// for the radiance format, the image itself for any other.
pub open spec fn fixed_source(image: DynamicImage, source: Option<RasterKind>) -> DynamicImage {
    if forces_rgba8(source) {
        rgba8_of(image)
    } else {
        image
    }
}

/// The image that goes to the encoder for `target`, given the image decoded
/// from `source`, where its pixels are settled. Those of an icon are not: how
/// they are resampled is the codec library's, and only the size and the
/// layout of the outcome are fixed.
pub open spec fn normalized(
    image: DynamicImage,
    source: Option<RasterKind>,
    target: Option<RasterKind>,
) -> Option<DynamicImage> {
    let fixed = fixed_source(image, source);
    match fixup_of(target_or_png(target)) {
        Fixup::DropAlpha => Some(rgb8_of(fixed)),
        Fixup::Icon => None,
        Fixup::Float => Some(rgba32f_of(fixed)),
        Fixup::Keep => Some(fixed),
    }
}

/// The pixel layout of a normalized image, given the layout it was decoded
/// in.
pub open spec fn normalized_layout(
    layout: PixelLayout,
    source: Option<RasterKind>,
    target: Option<RasterKind>,
) -> PixelLayout {
    match fixup_of(target_or_png(target)) {
        Fixup::DropAlpha => PixelLayout::Rgb8,
        Fixup::Float => PixelLayout::Rgba32F,
        Fixup::Icon | Fixup::Keep => if forces_rgba8(source) {
            PixelLayout::Rgba8
        } else {
            layout
        },
    }
}

/// The width and height of a normalized image, given those it was decoded
/// with.
pub open spec fn normalized_size(size: (u32, u32), target: Option<RasterKind>) -> (u32, u32) {
    if fixup_of(target_or_png(target)) == Fixup::Icon {
        (ICON_SIDE, ICON_SIDE)
    } else {
        size
    }
}

/// Whether an image of a layout needs no change for `target`: it is not one
/// to be brought to 8-bit RGB with alpha first, unless it has that layout, and
/// it has the layout that the target calls for. An icon always needs
/// resampling.
pub open spec fn needs_no_change(
    layout: PixelLayout,
    source: Option<RasterKind>,
    target: Option<RasterKind>,
) -> bool {
    &&& forces_rgba8(source) ==> layout == PixelLayout::Rgba8
    &&& match fixup_of(target_or_png(target)) {
        Fixup::Keep => true,
        Fixup::DropAlpha => layout == PixelLayout::Rgb8,
        Fixup::Float => layout == PixelLayout::Rgba32F,
        Fixup::Icon => false,
    }
}

/// Whether `prepared` is what `image`, decoded from `source`, may be turned
/// into for `target`: the normalized image where its pixels are settled, for
/// an icon what the resampling makes of the image after the fixup of its
/// source, the image itself where it needs no change, and in any case an
/// image of the normalized layout and size.
pub open spec fn prepared_from(
    image: DynamicImage,
    source: Option<RasterKind>,
    target: Option<RasterKind>,
    prepared: DynamicImage,
) -> bool {
    &&& normalized(image, source, target) matches Some(settled) ==> prepared == settled
    &&& fixup_of(target_or_png(target)) == Fixup::Icon ==> may_stretch(
        fixed_source(image, source),
        ICON_SIDE,
        ICON_SIDE,
        prepared,
    )
    &&& needs_no_change(image_layout(image), source, target) ==> prepared == image
    &&& image_layout(prepared) == normalized_layout(image_layout(image), source, target)
    &&& (image_width(prepared), image_height(prepared)) == normalized_size(
        (image_width(image), image_height(image)),
        target,
    )
}

/// Image pre-processing: the least change that lets the target format hold
/// the image. It never fails.
///
/// An image decoded from the radiance format is first brought to 8-bit RGB
/// with alpha. Then a target without alpha gets 8-bit RGB, an icon is
/// stretched to a square of `ICON_SIDE` pixels, a floating-point target gets
/// 32-bit float RGB with alpha, and any other target takes the image as it is.
/// With no target the image is prepared for PNG.
pub fn process_image(
    img: DynamicImage,
    source_type: Option<RasterKind>,
    target_type: Option<RasterKind>,
) -> (prepared: DynamicImage)
    ensures
        prepared_from(img, source_type, target_type, prepared),
{
    let target = match target_type {
        Some(kind) => kind,
        None => RasterKind::Png,
    };
    let img = match source_type {
        Some(RasterKind::Hdr) => to_rgba8(&img),
        _ => img,
    };
    match target_fixup(target) {
        Fixup::DropAlpha => to_rgb8(&img),
        Fixup::Icon => stretch(&img, ICON_SIDE, ICON_SIDE),
        Fixup::Float => to_rgba32f(&img),
        Fixup::Keep => img,
    }
}

/// A source decoded from the radiance format comes out as 8-bit RGB with
/// alpha for every target that keeps the layout it is given: all but those
/// without alpha, which get 8-bit RGB, and the floating-point one.
pub proof fn lemma_radiance_source_yields_rgba8(layout: PixelLayout, target: Option<RasterKind>)
    requires
        fixup_of(target_or_png(target)) == Fixup::Keep || fixup_of(target_or_png(target))
            == Fixup::Icon,
    ensures
        normalized_layout(layout, Some(RasterKind::Hdr), target) == PixelLayout::Rgba8,
{
}

/// An image prepared for the icon format is `ICON_SIDE` pixels wide and high,
/// whatever its size was and whatever it was decoded from.
pub proof fn lemma_icon_target_yields_square(size: (u32, u32))
    ensures
        normalized_size(size, Some(RasterKind::Ico)) == (ICON_SIDE, ICON_SIDE),
        ICON_SIDE == 256,
{
}

/// An image prepared for a target without alpha is 8-bit RGB: no alpha
/// channel, eight bits in each channel, whatever it was decoded from.
pub proof fn lemma_alpha_free_target_yields_rgb8(
    layout: PixelLayout,
    source: Option<RasterKind>,
    target: RasterKind,
)
    requires
        fixup_of(target) == Fixup::DropAlpha,
    ensures
        normalized_layout(layout, source, Some(target)) == PixelLayout::Rgb8,
        !PixelLayout::Rgb8.has_alpha(),
        PixelLayout::Rgb8.bits_per_channel() == 8,
{
}

/// An image prepared for a target other than the icon format needs no change
/// when it is prepared for that target again, having been decoded from a
/// format other than the radiance one or from none: preparing is idempotent.
pub proof fn lemma_prepared_needs_no_change(
    layout: PixelLayout,
    source: Option<RasterKind>,
    target: Option<RasterKind>,
    again: Option<RasterKind>,
)
    requires
        fixup_of(target_or_png(target)) != Fixup::Icon,
        !forces_rgba8(again),
    ensures
        needs_no_change(normalized_layout(layout, source, target), again, target),
{
}

/// Preparing an image for any target but the icon format leaves its width and
/// height as they were. So does preparing it for one format and then for
/// another, on the way there and back, where neither is the icon format.
pub proof fn lemma_size_kept_off_icon(size: (u32, u32), there: RasterKind, back: RasterKind)
    requires
        there != RasterKind::Ico,
        back != RasterKind::Ico,
    ensures
        normalized_size(size, Some(there)) == size,
        normalized_size(normalized_size(size, Some(there)), Some(back)) == size,
        normalized_size(size, None) == size,
{
}

/// Whether the encoder for a target writes the same bytes on every machine:
/// all do but those of AVIF, OpenEXR and the radiance format.
pub open spec fn steady_target(target: Option<RasterKind>) -> bool {
    &&& target_or_png(target) != RasterKind::Avif
    &&& target_or_png(target) != RasterKind::OpenExr
    &&& target_or_png(target) != RasterKind::Hdr
}

/// What encoding `image` gives where the encoder is steady: the bytes in the
/// format asked for, or in PNG when none is, or the codec's failure.
pub open spec fn spec_written(image: DynamicImage, target: Option<RasterKind>) -> Result<
    Seq<u8>,
    ErrorModel,
> {
    match encoded(image, codec(target_or_png(target))) {
        Ok(bytes) => Ok(bytes),
        Err(error) => Err(ErrorModel::LibError(error)),
    }
}

/// Whether `output` is what encoding `image` may give: what the encoder of
/// the format asked for, or of PNG when none is, may write for it, or its
/// error; with a steady encoder, the one outcome there is.
pub open spec fn written(
    image: DynamicImage,
    target: Option<RasterKind>,
    output: Result<Seq<u8>, ErrorModel>,
) -> bool {
    &&& match output {
        Ok(bytes) => may_encode(
            image,
            codec(target_or_png(target)),
            Ok::<Seq<u8>, ImageError>(bytes),
        ),
        Err(error) => error matches ErrorModel::LibError(cause) && may_encode(
            image,
            codec(target_or_png(target)),
            Err::<Seq<u8>, ImageError>(cause),
        ),
    }
    &&& steady_target(target) ==> output == spec_written(image, target)
}

/// Encodes an image in the format asked for, or in PNG when none is. A
/// failure of the encoder is reported with its error.
pub fn write_image(img: &DynamicImage, file_type: Option<RasterKind>) -> (output: Result<
    Vec<u8>,
    ConvertError,
>)
    ensures
        written(*img, file_type, bytes_view(output)),
{
    let target = match file_type {
        Some(kind) => kind,
        None => RasterKind::Png,
    };
    match encode(img, format_of(target)) {
        Ok(bytes) => Ok(bytes),
        Err(error) => Err(ConvertError::LibError(error)),
    }
}

/// What decoding `bytes` as `format` gives where the decoder is steady: the
/// image, or the codec's failure.
pub open spec fn spec_decoded_as(bytes: Seq<u8>, format: ImageFormat) -> Result<
    DynamicImage,
    ErrorModel,
> {
    match decoded(bytes, format) {
        Ok(image) => Ok(image),
        Err(error) => Err(ErrorModel::LibError(error)),
    }
}

/// Whether `image` is what decoding `bytes` as the format of `kind` may give:
/// what the decoder of that format may make of them, or its error; and the
/// one outcome there is, but for OpenEXR, whose decoder differs from machine
/// to machine.
pub open spec fn decoded_as(
    bytes: Seq<u8>,
    kind: RasterKind,
    image: Result<DynamicImage, ErrorModel>,
) -> bool {
    &&& match image {
        Ok(loaded) => may_decode(bytes, codec(kind), Ok::<DynamicImage, ImageError>(loaded)),
        Err(error) => error matches ErrorModel::LibError(cause) && may_decode(
            bytes,
            codec(kind),
            Err::<DynamicImage, ImageError>(cause),
        ),
    }
    &&& kind != RasterKind::OpenExr ==> image == spec_decoded_as(bytes, codec(kind))
}

/// What decoding `bytes` gives when the format has to be read off them and
/// its decoder is steady: the image, or an unknown file type with the message
/// of whichever failed, the detection or the decoding.
pub open spec fn spec_sniffed_image(bytes: Seq<u8>) -> Result<DynamicImage, ErrorModel> {
    match sniffed(bytes) {
        Ok(format) => match decoded(bytes, format) {
            Ok(image) => Ok(image),
            Err(error) => Err(ErrorModel::UnknownFileType(spec_image_error_text(error))),
        },
        Err(error) => Err(ErrorModel::UnknownFileType(spec_image_error_text(error))),
    }
}

/// Whether `image` is what decoding `bytes` may give when the format has to
/// be read off them: what the decoder of the detected format may make of
/// them, or an unknown file type with its message or with that of the failed
/// detection; and the one outcome there is, unless the bytes are OpenEXR.
pub open spec fn sniffed_as(bytes: Seq<u8>, image: Result<DynamicImage, ErrorModel>) -> bool {
    match sniffed(bytes) {
        Ok(format) => {
            &&& match image {
                Ok(loaded) => may_decode(bytes, format, Ok::<DynamicImage, ImageError>(loaded)),
                Err(error) => exists|cause: ImageError| #[trigger]
                    may_decode(bytes, format, Err::<DynamicImage, ImageError>(cause)) && error
                        == ErrorModel::UnknownFileType(spec_image_error_text(cause)),
            }
            &&& decodes_alike(format) ==> image == spec_sniffed_image(bytes)
        },
        Err(_) => image == spec_sniffed_image(bytes),
    }
}

/// Decodes `file` as an image of the given format.
pub fn load_raster(file: &[u8], kind: RasterKind) -> (image: Result<DynamicImage, ConvertError>)
    ensures
        decoded_as(file@, kind, failure_view(image)),
{
    match decode(file, format_of(kind)) {
        Ok(image) => Ok(image),
        Err(error) => Err(ConvertError::LibError(error)),
    }
}

/// Decodes `file` as an image of whatever format its first bytes show.
pub fn load_sniffed(file: &[u8]) -> (image: Result<DynamicImage, ConvertError>)
    ensures
        sniffed_as(file@, failure_view(image)),
{
    let format = match sniff_format(file) {
        Ok(format) => format,
        Err(error) => {
            return Err(ConvertError::UnknownFileType(image_error_text(&error)));
        },
    };
    match decode(file, format) {
        Ok(image) => Ok(image),
        Err(error) => Err(ConvertError::UnknownFileType(image_error_text(&error))),
    }
}

/// What decoding the input of a conversion may give.
///
/// For a raster source, and for one whose format is read off the bytes, it is
/// the one outcome of a steady decoder. For a vector source it is what the
/// PNG decoder makes of some rasterization of the document at the requested
/// size, or the failure of that rasterization.
pub open spec fn loaded_from(
    file: Seq<u8>,
    source_type: Option<SourceType>,
    config: Option<Settings>,
    image: Result<DynamicImage, ErrorModel>,
) -> bool {
    match source_type {
        Some(SourceType::Raster(kind)) => decoded_as(file, kind, image),
        None => sniffed_as(file, image),
        Some(SourceType::Svg) => {
            let size = svg_settings_of(config);
            exists|png: Result<Seq<u8>, ErrorModel>| #[trigger]
                rasterized_png(file, size.width, size.height, png) && match png {
                    Ok(bytes) => decoded_as(bytes, RasterKind::Png, image),
                    Err(error) => image == Err::<DynamicImage, ErrorModel>(error),
                }
        },
    }
}

/// Decodes the input of a conversion.
///
/// A raster source is decoded as the format it names, and a failure is the
/// codec's. A vector source is rasterized at the size that the settings give,
/// or at the default size, and the PNG image that comes of it is decoded. With
/// no source kind the format is read off the bytes, and any failure is
/// reported as an unknown file type.
pub fn load_image(file: &[u8], source_type: Option<SourceType>, config: Option<Settings>) -> (image:
    Result<DynamicImage, ConvertError>)
    ensures
        loaded_from(file@, source_type, config, failure_view(image)),
{
    match source_type {
        Some(SourceType::Raster(kind)) => load_raster(file, kind),
        Some(SourceType::Svg) => {
            let png = match svg_to_png(file, svg_settings(config)) {
                Ok(png) => png,
                Err(error) => {
                    return Err(error);
                },
            };
            load_raster(png.as_slice(), RasterKind::Png)
        },
        None => load_sniffed(file),
    }
}

} // verus!
