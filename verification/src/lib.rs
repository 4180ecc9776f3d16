//! Conversion of an encoded image into another raster format.
//!
//! A conversion identifies the source format, decodes the input (rasterizing a
//! vector document first), adapts the pixels to what the target format can
//! hold, and encodes the result. The codecs and the vector renderer are the
//! `image` and `resvg` crates; what this crate decides around them is verified.

pub mod codec;
pub mod convert;
pub mod error;
pub mod kind;
pub mod layout;
pub mod pipeline;
pub mod render;
pub mod settings;
pub mod source_type;
pub mod svg;

pub use convert::{convert_image, Checkpoint, Conversion, Step};
pub use error::ConvertError;
pub use kind::RasterKind;
pub use layout::PixelLayout;
pub use pipeline::{load_image, process_image, write_image};
pub use settings::{Settings, SvgSettings};
pub use source_type::SourceType;
