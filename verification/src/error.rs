//! What a conversion can fail with.

use crate::codec::{image_error_text, spec_image_error_text};
use crate::render::{spec_svg_error_text, svg_error_text};
use image::ImageError;
use resvg::usvg;
use vstd::prelude::*;
use vstd::string::StringExecFns;

verus! {

#[verifier::external_type_specification]
#[verifier::external_body]
pub struct ExJsonError(serde_json::Error);

/// The text that `serde_json::Error` displays.
pub uninterp spec fn spec_json_error_text(error: serde_json::Error) -> Seq<char>;

/// `Display` of `serde_json::Error`, through `to_string`.
#[verifier::external_body]
fn json_error_text(error: &serde_json::Error) -> (text: String)
    ensures
        text@ == spec_json_error_text(*error),
{
    error.to_string()
}

/// A failed conversion.
#[derive(Debug)]
pub enum ConvertError {
    /// No source format was given and none could be read off the bytes.
    UnknownFileType(String),
    /// The raster codec could not decode the input or encode the output.
    LibError(ImageError),
    /// The settings that came with the call were malformed.
    ParseError(serde_json::Error),
    /// The vector document could not be parsed.
    SvgError(usvg::Error),
    /// The rasterized vector document could not be turned into an image.
    EncodingError(String),
}

/// A `ConvertError` with its texts as sequences of characters.
pub enum ErrorModel {
    UnknownFileType(Seq<char>),
    LibError(ImageError),
    ParseError(serde_json::Error),
    SvgError(usvg::Error),
    EncodingError(Seq<char>),
}

impl ErrorModel {
    /// The cause of the failure, as the underlying component worded it.
    pub open spec fn detail(self) -> Seq<char> {
        match self {
            ErrorModel::UnknownFileType(text) => text,
            ErrorModel::LibError(error) => spec_image_error_text(error),
            ErrorModel::ParseError(error) => spec_json_error_text(error),
            ErrorModel::SvgError(error) => spec_svg_error_text(error),
            ErrorModel::EncodingError(text) => text,
        }
    }

    /// What the message opens with: the kind of failure.
    pub open spec fn prefix(self) -> Seq<char> {
        match self {
            ErrorModel::UnknownFileType(_) => "Unknown file type: "@,
            ErrorModel::LibError(_) => "Image library error: "@,
            ErrorModel::ParseError(_) => "Parsing error: "@,
            ErrorModel::SvgError(_) => "SVG error: "@,
            ErrorModel::EncodingError(_) => "Encoding error: "@,
        }
    }

    /// The message reported to the caller.
    pub open spec fn message(self) -> Seq<char> {
        self.prefix() + self.detail()
    }
}

impl View for ConvertError {
    type V = ErrorModel;

    open spec fn view(&self) -> ErrorModel {
        match *self {
            ConvertError::UnknownFileType(text) => ErrorModel::UnknownFileType(text@),
            ConvertError::LibError(error) => ErrorModel::LibError(error),
            ConvertError::ParseError(error) => ErrorModel::ParseError(error),
            ConvertError::SvgError(error) => ErrorModel::SvgError(error),
            ConvertError::EncodingError(text) => ErrorModel::EncodingError(text@),
        }
    }
}

/// The outcome of a fallible step, with the failure as its model.
pub open spec fn failure_view<T>(outcome: Result<T, ConvertError>) -> Result<T, ErrorModel> {
    match outcome {
        Ok(value) => Ok(value),
        Err(error) => Err(error@),
    }
}

/// The outcome of a step that produces bytes, as a sequence or a failure.
pub open spec fn bytes_view(outcome: Result<Vec<u8>, ConvertError>) -> Result<
    Seq<u8>,
    ErrorModel,
> {
    match outcome {
        Ok(bytes) => Ok(bytes@),
        Err(error) => Err(error@),
    }
}

impl ConvertError {
    /// The human-readable message of this failure: its kind, then the cause.
    pub fn message(&self) -> (text: String)
        ensures
            text@ == self@.message(),
    {
        match self {
            ConvertError::UnknownFileType(detail) => {
                String::from_str("Unknown file type: ").concat(detail.as_str())
            },
            ConvertError::LibError(error) => {
                String::from_str("Image library error: ").concat(image_error_text(error).as_str())
            },
            ConvertError::ParseError(error) => {
                String::from_str("Parsing error: ").concat(json_error_text(error).as_str())
            },
            ConvertError::SvgError(error) => {
                String::from_str("SVG error: ").concat(svg_error_text(error).as_str())
            },
            ConvertError::EncodingError(detail) => {
                String::from_str("Encoding error: ").concat(detail.as_str())
            },
        }
    }
}

} // verus!
