//! The raster formats a conversion can read or write, and their MIME names.

use crate::codec::{codec, format_of, mime_format, same_format};
use image::ImageFormat;
use vstd::prelude::*;

verus! {

/// A raster codec: what an input was decoded from, or what the output is
/// encoded to.
#[derive(Clone, Copy, Debug, PartialEq, Eq, Structural)]
pub enum RasterKind {
    Png,
    Jpeg,
    Gif,
    WebP,
    Pnm,
    Tiff,
    Tga,
    Dds,
    Bmp,
    Ico,
    Hdr,
    OpenExr,
    Farbfeld,
    Avif,
    Qoi,
}

/// The raster format that a standard MIME type names, if any.
pub open spec fn standard_kind(mime: Seq<char>) -> Option<RasterKind> {
    if mime == "image/avif"@ {
        Some(RasterKind::Avif)
    } else if mime == "image/jpeg"@ {
        Some(RasterKind::Jpeg)
    } else if mime == "image/png"@ {
        Some(RasterKind::Png)
    } else if mime == "image/gif"@ {
        Some(RasterKind::Gif)
    } else if mime == "image/webp"@ {
        Some(RasterKind::WebP)
    } else if mime == "image/tiff"@ {
        Some(RasterKind::Tiff)
    } else if mime == "image/x-targa"@ || mime == "image/x-tga"@ {
        Some(RasterKind::Tga)
    } else if mime == "image/vnd-ms.dds"@ {
        Some(RasterKind::Dds)
    } else if mime == "image/bmp"@ {
        Some(RasterKind::Bmp)
    } else if mime == "image/x-icon"@ || mime == "image/vnd.microsoft.icon"@ {
        Some(RasterKind::Ico)
    } else if mime == "image/vnd.radiance"@ {
        Some(RasterKind::Hdr)
    } else if mime == "image/x-exr"@ {
        Some(RasterKind::OpenExr)
    } else if mime == "image/x-portable-bitmap"@ || mime == "image/x-portable-graymap"@
        || mime == "image/x-portable-pixmap"@ || mime == "image/x-portable-anymap"@ {
        Some(RasterKind::Pnm)
    } else if mime == "image/x-qoi"@ {
        Some(RasterKind::Qoi)
    } else {
        None
    }
}

/// The raster kind that a codec format stands for, if it stands for one.
pub open spec fn kind_with_format(format: ImageFormat) -> Option<RasterKind> {
    if exists|kind: RasterKind| codec(kind) == format {
        Some(choose|kind: RasterKind| codec(kind) == format)
    } else {
        None
    }
}

impl RasterKind {
    /// Whether `format` is the codec format of this kind.
    fn has_format(self, format: ImageFormat) -> (has: bool)
        ensures
            has == (codec(self) == format),
            has ==> forall|other: RasterKind| #[trigger] codec(other) == format ==> other == self,
    {
        same_format(format_of(self), format)
    }

    /// The raster kind that a codec format stands for; `None` for a format
    /// that stands for none.
    pub fn from_format(format: ImageFormat) -> (r: Option<RasterKind>)
        ensures
            r == kind_with_format(format),
            forall|kind: RasterKind| #[trigger] codec(kind) == format ==> r == Some(kind),
    {
        if RasterKind::Png.has_format(format) {
            Some(RasterKind::Png)
        } else if RasterKind::Jpeg.has_format(format) {
            Some(RasterKind::Jpeg)
        } else if RasterKind::Gif.has_format(format) {
            Some(RasterKind::Gif)
        } else if RasterKind::WebP.has_format(format) {
            Some(RasterKind::WebP)
        } else if RasterKind::Pnm.has_format(format) {
            Some(RasterKind::Pnm)
        } else if RasterKind::Tiff.has_format(format) {
            Some(RasterKind::Tiff)
        } else if RasterKind::Tga.has_format(format) {
            Some(RasterKind::Tga)
        } else if RasterKind::Dds.has_format(format) {
            Some(RasterKind::Dds)
        } else if RasterKind::Bmp.has_format(format) {
            Some(RasterKind::Bmp)
        } else if RasterKind::Ico.has_format(format) {
            Some(RasterKind::Ico)
        } else if RasterKind::Hdr.has_format(format) {
            Some(RasterKind::Hdr)
        } else if RasterKind::OpenExr.has_format(format) {
            Some(RasterKind::OpenExr)
        } else if RasterKind::Farbfeld.has_format(format) {
            Some(RasterKind::Farbfeld)
        } else if RasterKind::Avif.has_format(format) {
            Some(RasterKind::Avif)
        } else if RasterKind::Qoi.has_format(format) {
            Some(RasterKind::Qoi)
        } else {
            None
        }
    }

    /// The raster format named by a standard MIME type; `None` for any other
    /// string.
    pub fn from_mime_type(mime_type: &str) -> (r: Option<RasterKind>)
        ensures
            r == standard_kind(mime_type@),
    {
        match mime_format(mime_type) {
            Some(format) => RasterKind::from_format(format),
            None => None,
        }
    }
}

} // verus!
