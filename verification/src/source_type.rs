//! What kind of input a source type string announces.

use crate::kind::{standard_kind, RasterKind};
use vstd::prelude::*;

verus! {

/// The kind of an input: a raster image of a known codec, or a vector
/// document.
#[derive(Clone, Copy, Debug, PartialEq, Eq, Structural)]
pub enum SourceType {
    Raster(RasterKind),
    Svg,
}

/// The source kind of a type string that the standard MIME table lacks.
pub open spec fn custom_source(mime: Seq<char>) -> Option<SourceType> {
    if mime == "image/svg+xml"@ {
        Some(SourceType::Svg)
    } else if mime == "image/farbfeld"@ {
        Some(SourceType::Raster(RasterKind::Farbfeld))
    } else {
        None
    }
}

/// The source kind that a type string announces: the standard MIME table
/// first, then the custom names.
pub open spec fn source_of(mime: Seq<char>) -> Option<SourceType> {
    match standard_kind(mime) {
        Some(kind) => Some(SourceType::Raster(kind)),
        None => custom_source(mime),
    }
}

/// `==` on string slices.
#[verifier::external_body]
fn str_eq(a: &str, b: &str) -> (equal: bool)
    ensures
        equal == (a@ == b@),
{
    a == b
}

impl SourceType {
    /// The source kind that a MIME-like type string announces; `None` for a
    /// string that names no known format.
    pub fn from_mime_type(mime_type: &str) -> (r: Option<Self>)
        ensures
            r == source_of(mime_type@),
    {
        match RasterKind::from_mime_type(mime_type) {
            Some(kind) => Some(SourceType::Raster(kind)),
            None => from_custom_mime_type(mime_type),
        }
    }
}

/// Source kinds under names that have no entry in the standard MIME table.
pub fn from_custom_mime_type(mime_type: &str) -> (r: Option<SourceType>)
    ensures
        r == custom_source(mime_type@),
{
    if str_eq(mime_type, "image/svg+xml") {
        Some(SourceType::Svg)
    } else if str_eq(mime_type, "image/farbfeld") {
        Some(SourceType::Raster(RasterKind::Farbfeld))
    } else {
        None
    }
}

} // verus!
