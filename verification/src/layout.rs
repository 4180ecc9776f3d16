//! How the pixels of a decoded image are laid out.

use crate::codec::{height_of, image_height, image_layout, image_width, layout_of, width_of};
use image::DynamicImage;
use vstd::prelude::*;

verus! {

/// The channels of a pixel and the precision of each: 8-bit or 16-bit
/// integers, or 32-bit floats.
#[derive(Clone, Copy, Debug, PartialEq, Eq, Structural)]
pub enum PixelLayout {
    L8,
    La8,
    Rgb8,
    Rgba8,
    L16,
    La16,
    Rgb16,
    Rgba16,
    Rgb32F,
    Rgba32F,
}

impl PixelLayout {
    /// Whether a pixel carries an alpha channel.
    pub open spec fn has_alpha(self) -> bool {
        self == PixelLayout::La8 || self == PixelLayout::Rgba8 || self == PixelLayout::La16
            || self == PixelLayout::Rgba16 || self == PixelLayout::Rgba32F
    }

    /// The number of bits in one channel of a pixel.
    pub open spec fn bits_per_channel(self) -> nat {
        match self {
            PixelLayout::L8 | PixelLayout::La8 | PixelLayout::Rgb8 | PixelLayout::Rgba8 => 8,
            PixelLayout::L16 | PixelLayout::La16 | PixelLayout::Rgb16 | PixelLayout::Rgba16 => 16,
            PixelLayout::Rgb32F | PixelLayout::Rgba32F => 32,
        }
    }
}

/// The width of a decoded image, in pixels.
pub fn width(image: &DynamicImage) -> (width: u32)
    ensures
        width == image_width(*image),
{
    width_of(image)
}

/// The height of a decoded image, in pixels.
pub fn height(image: &DynamicImage) -> (height: u32)
    ensures
        height == image_height(*image),
{
    height_of(image)
}

/// The pixel layout of a decoded image.
pub fn layout(image: &DynamicImage) -> (layout: PixelLayout)
    ensures
        layout == image_layout(*image),
{
    match layout_of(image) {
        Some(layout) => layout,
        None => unreached(),
    }
}

} // verus!
