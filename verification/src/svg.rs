//! Rasterization of a vector document at a requested pixel size.

use crate::error::{bytes_view, failure_view, ConvertError, ErrorModel};
use crate::render::{
    blank_pixmap, encode_png, fit_within, fitted, height_of_pixmap, may_draw, may_parse,
    natural_size, new_pixmap, parse_failure, parse_tree, pixmap_fits, pixmap_height,
    pixmap_width, png_of, render_scaled, tree_size, width_of_pixmap,
};
use crate::settings::SvgSettings;
use resvg::tiny_skia::Pixmap;
use resvg::usvg;
use resvg::usvg::Tree;
use vstd::prelude::*;
use vstd::string::StringExecFns;

verus! {

/// The failure reported when no pixel buffer of the requested size can be had:
/// a zero width or height, or a size beyond what a buffer can hold.
pub open spec fn invalid_size() -> ErrorModel {
    ErrorModel::EncodingError("invalid size"@)
}

/// The size a document of size `natural` is drawn at for a request of
/// `requested`: fitted to the request, or left as it is where the request has
/// a zero side.
pub open spec fn spec_scaled_size(natural: (u32, u32), requested: (u32, u32)) -> (u32, u32) {
    if requested.0 == 0 || requested.1 == 0 {
        natural
    } else {
        fitted(natural, requested)
    }
}

/// The size to draw a document of size `natural` at, given the requested
/// size. A degenerate request leaves the document at its natural size.
pub fn scaled_size(natural: (u32, u32), requested: (u32, u32)) -> (size: (u32, u32))
    requires
        natural.0 > 0,
        natural.1 > 0,
    ensures
        size == spec_scaled_size(natural, requested),
        size.0 > 0,
        size.1 > 0,
{
    if requested.0 == 0 || requested.1 == 0 {
        natural
    } else {
        fit_within(natural, requested)
    }
}

fn invalid_size_error() -> (error: ConvertError)
    ensures
        error@ == invalid_size(),
{
    ConvertError::EncodingError(String::from_str("invalid size"))
}

/// What the parser's outcome means for a conversion: the document, or the
/// parser's error as it is.
pub open spec fn spec_parsed(outcome: Result<Tree, usvg::Error>) -> Result<Tree, ErrorModel> {
    match outcome {
        Ok(tree) => Ok(tree),
        Err(error) => Err(ErrorModel::SvgError(error)),
    }
}

/// Passes a parsed document on, and a parser's error as it is.
pub fn parsed(outcome: Result<Tree, usvg::Error>) -> (tree: Result<Tree, ConvertError>)
    ensures
        failure_view(tree) == spec_parsed(outcome),
{
    match outcome {
        Ok(tree) => Ok(tree),
        Err(error) => Err(ConvertError::SvgError(error)),
    }
}

/// What an allocation's outcome means for a conversion: the buffer, or an
/// invalid size where there is none.
pub open spec fn spec_allocated(pixmap: Option<Pixmap>) -> Result<Pixmap, ErrorModel> {
    match pixmap {
        Some(buffer) => Ok(buffer),
        None => Err(invalid_size()),
    }
}

/// Passes an allocated buffer on, and reports an invalid size where the
/// allocation gave none.
pub fn allocated(pixmap: Option<Pixmap>) -> (buffer: Result<Pixmap, ConvertError>)
    ensures
        failure_view(buffer) == spec_allocated(pixmap),
{
    match pixmap {
        Some(buffer) => Ok(buffer),
        None => Err(invalid_size_error()),
    }
}

/// The width and height of a pixel buffer.
pub fn pixmap_size(pixmap: &Pixmap) -> (size: (u32, u32))
    ensures
        size == (pixmap_width(*pixmap), pixmap_height(*pixmap)),
{
    (width_of_pixmap(pixmap), height_of_pixmap(pixmap))
}

/// Whether `drawn` is what drawing a parsed document at `width` by `height`
/// may give.
///
/// Where there is a buffer of the size, it is such a buffer, blank at first,
/// onto which the renderer has drawn the document, scaled from its natural
/// size to the size fitted to the request. Where there is none, it is an
/// invalid size.
pub open spec fn drawn_from(
    tree: Tree,
    width: u32,
    height: u32,
    drawn: Result<Pixmap, ErrorModel>,
) -> bool {
    if pixmap_fits(width, height) {
        &&& drawn matches Ok(pixmap)
        &&& pixmap_width(pixmap) == width
        &&& pixmap_height(pixmap) == height
        &&& may_draw(
            tree,
            tree_size(tree),
            spec_scaled_size(tree_size(tree), (width, height)),
            blank_pixmap(width, height),
            pixmap,
        )
    } else {
        drawn == Err::<Pixmap, ErrorModel>(invalid_size())
    }
}

/// Draws a parsed document into a new pixel buffer of exactly `width` by
/// `height`. It succeeds exactly where there is a buffer of that size.
///
/// The document is scaled from its natural size to the request, or not at
/// all where the request has a zero side; then the buffer is allocated, which
/// fails for a zero side and for a size that no buffer can have.
pub fn draw(tree: &Tree, width: u32, height: u32) -> (drawn: Result<Pixmap, ConvertError>)
    ensures
        drawn_from(*tree, width, height, failure_view(drawn)),
{
    let natural = natural_size(tree);
    let scaled = scaled_size(natural, (width, height));
    let mut pixmap = match allocated(new_pixmap(width, height)) {
        Ok(pixmap) => pixmap,
        Err(error) => {
            return Err(error);
        },
    };
    render_scaled(tree, natural, scaled, &mut pixmap);
    Ok(pixmap)
}

/// Whether `drawn` is what drawing the vector document `svg` at a requested
/// size may give.
///
/// A request with a zero side gives an invalid size. Any other gives the
/// parser's error where the document does not parse, and else what drawing a
/// tree that the document parses to gives.
pub open spec fn rasterized(
    svg: Seq<u8>,
    width: u32,
    height: u32,
    drawn: Result<Pixmap, ErrorModel>,
) -> bool {
    if width == 0 || height == 0 {
        drawn == Err::<Pixmap, ErrorModel>(invalid_size())
    } else {
        match parse_failure(svg, width, height) {
            Some(error) => drawn == Err::<Pixmap, ErrorModel>(ErrorModel::SvgError(error)),
            None => exists|tree: Tree| #[trigger]
                may_parse(svg, width, height, Ok::<Tree, usvg::Error>(tree)) && drawn_from(
                    tree,
                    width,
                    height,
                    drawn,
                ),
        }
    }
}

/// Draws a vector document into a pixel buffer of exactly the requested size.
///
/// A request with a zero side is refused before the document is looked at.
/// Otherwise the document is parsed, with the request as the size of a
/// document that gives none, and drawn; a document that does not parse is
/// reported with the parser's error. Where there is a buffer of the
/// requested size, nothing else can fail.
pub fn rasterize(svg: &[u8], svg_settings: SvgSettings) -> (drawn: Result<Pixmap, ConvertError>)
    ensures
        rasterized(svg@, svg_settings.width, svg_settings.height, failure_view(drawn)),
{
    let SvgSettings { width, height } = svg_settings;
    if width == 0 || height == 0 {
        return Err(invalid_size_error());
    }
    match parsed(parse_tree(svg, width, height)) {
        Ok(tree) => draw(&tree, width, height),
        Err(error) => Err(error),
    }
}

/// The PNG encoding of a pixel buffer, or the encoding failure with the
/// encoder's message.
pub open spec fn spec_pixmap_png(pixmap: Pixmap) -> Result<Seq<u8>, ErrorModel> {
    match png_of(pixmap) {
        Ok(bytes) => Ok(bytes),
        Err(text) => Err(ErrorModel::EncodingError(text)),
    }
}

/// Serializes a drawn pixel buffer as a PNG image.
pub fn pixmap_to_png(pixmap: &Pixmap) -> (png: Result<Vec<u8>, ConvertError>)
    ensures
        bytes_view(png) == spec_pixmap_png(*pixmap),
{
    match encode_png(pixmap) {
        Ok(bytes) => Ok(bytes),
        Err(text) => Err(ConvertError::EncodingError(text)),
    }
}

/// Whether `png` is what drawing a parsed document at a requested size and
/// serializing the buffer may give: an invalid size where there is no buffer
/// of the size, else what the PNG encoder makes of a buffer that the document
/// was drawn into.
pub open spec fn drawn_png(
    tree: Tree,
    width: u32,
    height: u32,
    png: Result<Seq<u8>, ErrorModel>,
) -> bool {
    if pixmap_fits(width, height) {
        exists|pixmap: Pixmap| #[trigger]
            drawn_from(tree, width, height, Ok::<Pixmap, ErrorModel>(pixmap)) && spec_pixmap_png(
                pixmap,
            ) == png
    } else {
        png == Err::<Seq<u8>, ErrorModel>(invalid_size())
    }
}

/// Draws a parsed document at exactly `width` by `height` and serializes the
/// buffer as a PNG image. Where there is a buffer of the size, only the PNG
/// encoder can fail.
pub fn tree_to_png(tree: &Tree, width: u32, height: u32) -> (png: Result<Vec<u8>, ConvertError>)
    ensures
        drawn_png(*tree, width, height, bytes_view(png)),
{
    match draw(tree, width, height) {
        Ok(pixmap) => pixmap_to_png(&pixmap),
        Err(error) => Err(error),
    }
}

/// Whether `png` is what rasterizing the vector document `svg` to PNG at a
/// requested size may give.
///
/// A request with a zero side gives an invalid size. Any other gives the
/// parser's error where the document does not parse, and else what drawing
/// and serializing a tree that the document parses to gives.
pub open spec fn rasterized_png(
    svg: Seq<u8>,
    width: u32,
    height: u32,
    png: Result<Seq<u8>, ErrorModel>,
) -> bool {
    if width == 0 || height == 0 {
        png == Err::<Seq<u8>, ErrorModel>(invalid_size())
    } else {
        match parse_failure(svg, width, height) {
            Some(error) => png == Err::<Seq<u8>, ErrorModel>(ErrorModel::SvgError(error)),
            None => exists|tree: Tree| #[trigger]
                may_parse(svg, width, height, Ok::<Tree, usvg::Error>(tree)) && drawn_png(
                    tree,
                    width,
                    height,
                    png,
                ),
        }
    }
}

/// Rasterizes a vector document to a PNG image of exactly the requested size.
///
/// Fails with the parser's error for a malformed document, and with an
/// encoding error for a request with a zero side, for a size no buffer can
/// have, and when the drawn buffer cannot be serialized.
pub fn svg_to_png(svg: &[u8], svg_settings: SvgSettings) -> (png: Result<Vec<u8>, ConvertError>)
    ensures
        rasterized_png(svg@, svg_settings.width, svg_settings.height, bytes_view(png)),
{
    let SvgSettings { width, height } = svg_settings;
    if width == 0 || height == 0 {
        return Err(invalid_size_error());
    }
    match parsed(parse_tree(svg, width, height)) {
        Ok(tree) => tree_to_png(&tree, width, height),
        Err(error) => Err(error),
    }
}

} // verus!
